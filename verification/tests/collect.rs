use docmon::client::{Client, ClientConfig};
use docmon::collect::{Collector, EmitterHandle};
use docmon::publish::{Publisher, PublisherConfig};

use tokio::runtime::Runtime;

// base64("testkey")
const TEST_KEY: &str = "dGVzdGtleQ==";

fn collector() -> Collector {
    let client = Client::new(ClientConfig::new("demo", TEST_KEY)).unwrap();
    let config = PublisherConfig::new("StatEntries", 10, 2);
    let (_publisher, handle, _receiver) = Publisher::new(client, config);
    Collector::new(handle)
}

fn emitter_handle(rt: &Runtime) -> EmitterHandle {
    let (tx, rx) = tokio::sync::oneshot::channel::<()>();
    let task = rt.spawn(async move {
        let _ = rx.await;
    });
    EmitterHandle::new(tx, task)
}

fn start(rt: &Runtime, collector: &mut Collector, id: &str) {
    assert!(!collector.contains_id(&id.to_string()));
    collector.note_started(id.to_string(), emitter_handle(rt));
}

#[test]
fn it_tracks_the_container_lifecycle_across_polls() {
    let rt = Runtime::new().unwrap();
    let mut c = collector();

    // first poll: containers A and B are live
    let live1 = vec!["A".to_string(), "B".to_string()];
    for id in &live1 {
        if !c.contains_id(id) {
            start(&rt, &mut c, id);
        }
    }
    assert!(c.contains_id(&"A".to_string()));
    assert!(c.contains_id(&"B".to_string()));

    // second poll: A vanished, C appeared, B spans both ticks
    let live2 = vec!["B".to_string(), "C".to_string()];
    let removed = c.removed_ids(&live2);
    assert_eq!(removed, vec!["A".to_string()]);
    for id in &removed {
        let join = c.stop_one(id).expect("a vanished container has an emitter");
        rt.block_on(join).unwrap();
    }
    for id in &live2 {
        if !c.contains_id(id) {
            start(&rt, &mut c, id);
        }
    }
    assert!(!c.contains_id(&"A".to_string()));
    assert!(c.contains_id(&"B".to_string()));
    assert!(c.contains_id(&"C".to_string()));

    // third poll: everything stopped
    let live3: Vec<String> = vec![];
    let removed = c.removed_ids(&live3);
    assert_eq!(removed, vec!["B".to_string(), "C".to_string()]);
    for id in &removed {
        let join = c.stop_one(id).unwrap();
        rt.block_on(join).unwrap();
    }
    assert!(!c.contains_id(&"B".to_string()));
    assert!(!c.contains_id(&"C".to_string()));
    assert_eq!(c.shutdown_all().len(), 0);
}

#[test]
fn it_joins_every_emitter_on_shutdown() {
    let rt = Runtime::new().unwrap();
    let mut c = collector();
    start(&rt, &mut c, "A");
    start(&rt, &mut c, "B");
    start(&rt, &mut c, "C");

    let joins = c.shutdown_all();
    assert_eq!(joins.len(), 3);
    for join in joins {
        // every emitter got its cancellation signal and finishes
        rt.block_on(join).unwrap();
    }
    assert!(!c.contains_id(&"A".to_string()));
    assert!(!c.contains_id(&"B".to_string()));
    assert!(!c.contains_id(&"C".to_string()));
}

#[test]
fn it_reports_no_emitter_for_an_unknown_id() {
    let mut c = collector();
    assert!(c.stop_one(&"missing".to_string()).is_none());
}

#[test]
fn it_keeps_one_emitter_per_container() {
    let rt = Runtime::new().unwrap();
    let mut c = collector();
    let live = vec!["A".to_string(), "A".to_string(), "B".to_string()];
    for id in &live {
        if !c.contains_id(id) {
            start(&rt, &mut c, id);
        }
    }
    // the duplicate listing of A started only one emitter
    assert_eq!(c.shutdown_all().len(), 2);
}
