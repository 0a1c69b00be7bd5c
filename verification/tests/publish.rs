use docmon::client::{Client, ClientConfig};
use docmon::publish::{PubAction, PubEvent, Publisher, PublisherConfig};
use docmon::stats::Stats;

// base64("testkey")
const TEST_KEY: &str = "dGVzdGtleQ==";

fn record(tag: &str) -> Stats {
    Stats {
        timestamp: "2019-01-02T03:04:05.000Z".to_string(),
        id: tag.to_string(),
        name: tag.to_string(),
        cpu_percentage: None,
        memory: Some(4000),
        memory_percentage: None,
        memory_limit: Some(8000),
        network_rx: None,
        network_tx: None,
        block_read: None,
        block_write: None,
        pid: Some(1),
    }
}

fn publisher(batch_size: usize, interval: usize) -> Publisher {
    let client = Client::new(ClientConfig::new("demo", TEST_KEY)).unwrap();
    let config = PublisherConfig::new("StatEntries", batch_size, interval);
    let (publisher, _handle, _receiver) = Publisher::new(client, config);
    publisher
}

#[test]
fn it_flushes_exactly_when_the_batch_fills() {
    let mut p = publisher(2, 30);

    let first = p.on_event(PubEvent::Received(record("r1")));
    assert!(matches!(first, PubAction::Continue));

    let second = p.on_event(PubEvent::Received(record("r2")));
    match second {
        PubAction::Flush(batch) => {
            assert_eq!(batch, vec![record("r1"), record("r2")]);
        },
        _ => panic!("filling the batch must flush it"),
    }
}

#[test]
fn it_flushes_a_partial_batch_when_the_interval_elapses() {
    let mut p = publisher(10, 2);

    let collected = p.on_event(PubEvent::Received(record("r1")));
    assert!(matches!(collected, PubAction::Continue));

    let flushed = p.on_event(PubEvent::TimerElapsed);
    match flushed {
        PubAction::Flush(batch) => {
            assert_eq!(batch, vec![record("r1")]);
        },
        _ => panic!("the interval elapsing must flush the partial batch"),
    }
}

#[test]
fn it_skips_the_send_when_the_interval_finds_nothing() {
    let mut p = publisher(10, 2);
    let action = p.on_event(PubEvent::TimerElapsed);
    assert!(matches!(action, PubAction::Continue));
}

#[test]
fn it_starts_the_next_batch_empty_after_every_flush() {
    let mut p = publisher(2, 30);
    p.on_event(PubEvent::Received(record("r1")));
    let flushed = p.on_event(PubEvent::Received(record("r2")));
    assert!(matches!(flushed, PubAction::Flush(_)));

    // Whatever became of the flushed batch — delivered or failed and
    // dropped — the next flush carries only what arrived afterwards.
    p.on_event(PubEvent::Received(record("r3")));
    let next = p.on_event(PubEvent::TimerElapsed);
    match next {
        PubAction::Flush(batch) => {
            assert_eq!(batch, vec![record("r3")]);
        },
        _ => panic!("the next flush must carry only the new record"),
    }
}

#[test]
fn it_flushes_the_rest_and_stops_when_the_queue_closes() {
    let mut p = publisher(10, 30);
    p.on_event(PubEvent::Received(record("r1")));
    let action = p.on_event(PubEvent::Closed);
    match action {
        PubAction::FlushAndStop(batch) => {
            assert_eq!(batch, vec![record("r1")]);
        },
        _ => panic!("a closed queue must flush the remainder and stop"),
    }
}

#[test]
fn it_stops_quietly_when_the_queue_closes_empty() {
    let mut p = publisher(10, 30);
    let action = p.on_event(PubEvent::Closed);
    assert!(matches!(action, PubAction::Stop));
}

#[test]
fn it_publishes_data_from_channel() {
    let client = Client::new(ClientConfig::new("demo", TEST_KEY)).unwrap();
    let config = PublisherConfig::new("StatEntries", 10, 2);
    let (mut publisher, handle, mut receiver) = Publisher::new(client, config);

    for i in 0..7 {
        handle.send(record(&format!("r{}", i)));
    }
    drop(handle);

    let mut delivered: Vec<Stats> = Vec::new();
    loop {
        let event = match receiver.blocking_recv() {
            Some(rec) => PubEvent::Received(rec),
            None => PubEvent::Closed,
        };
        match publisher.on_event(event) {
            PubAction::Continue => {},
            PubAction::Flush(mut batch) => delivered.append(&mut batch),
            PubAction::FlushAndStop(mut batch) => {
                delivered.append(&mut batch);
                break;
            },
            PubAction::Stop => break,
        }
    }

    assert_eq!(delivered.len(), 7);
    for (i, rec) in delivered.iter().enumerate() {
        assert_eq!(rec.id, format!("r{}", i));
    }
}

#[test]
fn it_ships_batches_end_to_end() {
    // customer "demo", shared key base64("testkey"), log name "StatEntries",
    // batch size 2: two records flush together at once, one record alone
    // flushes when the interval elapses, and the flush's request carries a
    // correctly computed shared-key authorization.
    let client = Client::new(ClientConfig::new("demo", TEST_KEY)).unwrap();
    let config = PublisherConfig::new("StatEntries", 2, 30);
    let (mut publisher, _handle, _receiver) = Publisher::new(client, config);

    let r1 = record("r1");
    let r2 = record("r2");

    assert!(matches!(
        publisher.on_event(PubEvent::Received(r1.clone())),
        PubAction::Continue
    ));
    match publisher.on_event(PubEvent::Received(r2.clone())) {
        PubAction::Flush(batch) => assert_eq!(batch, vec![r1.clone(), r2]),
        _ => panic!("the second record must fill and flush the batch"),
    }

    let date = "Wed, 02 Jan 2019 03:04:05 GMT";
    let parts = publisher
        .client()
        .prepare_request(publisher.log_name(), date, 42)
        .unwrap();
    assert_eq!(parts.log_type, "StatEntries");
    assert!(parts.authorization.starts_with("SharedKey demo:"));
    assert_eq!(
        parts.authorization,
        publisher.client().build_signature(date, 42).unwrap()
    );

    // r1 alone is flushed when the interval elapses
    assert!(matches!(
        publisher.on_event(PubEvent::Received(r1.clone())),
        PubAction::Continue
    ));
    match publisher.on_event(PubEvent::TimerElapsed) {
        PubAction::Flush(batch) => assert_eq!(batch, vec![r1]),
        _ => panic!("the elapsed interval must flush the partial batch"),
    }
}

#[test]
fn it_exposes_its_settings_for_the_loop() {
    let p = publisher(5, 42);
    assert_eq!(p.interval_secs(), 42);
    assert_eq!(p.log_name(), "StatEntries");
    assert_eq!(
        p.client().url(),
        "https://demo.ods.opinsights.azure.com/api/logs?api-version=2016-04-01"
    );
}

#[test]
fn it_splits_publisher_configs_into_parts() {
    let config = PublisherConfig::new("StatEntries", 10, 2);
    let (log_name, batch_size, interval) = config.into_parts();
    assert_eq!(log_name, "StatEntries");
    assert_eq!(batch_size, 10);
    assert_eq!(interval, 2);
}
