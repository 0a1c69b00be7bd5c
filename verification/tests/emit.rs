use docmon::client::{Client, ClientConfig};
use docmon::config::Config;
use docmon::emit::Emitter;
use docmon::publish::{Publisher, PublisherConfig};
use docmon::sample::{CpuStats, CpuUsage, MemoryStats, PidsStats, RawSample};
use docmon::stats::Stats;

use tokio::sync::mpsc::UnboundedReceiver;

// base64("testkey")
const TEST_KEY: &str = "dGVzdGtleQ==";

fn sample(read: i64, preread: i64) -> RawSample {
    RawSample {
        id: "0123456789abcdef".to_string(),
        name: "/mycontainer".to_string(),
        read,
        preread,
        cpu_stats: CpuStats {
            cpu_usage: CpuUsage { total_usage: 1000, percpu_usage: None },
            system_cpu_usage: Some(2000),
            online_cpus: Some(4),
        },
        precpu_stats: CpuStats {
            cpu_usage: CpuUsage { total_usage: 400, percpu_usage: None },
            system_cpu_usage: Some(1000),
            online_cpus: Some(4),
        },
        memory_stats: MemoryStats { usage: None, stats: None, limit: Some(8000) },
        networks: None,
        blkio_entries: None,
        pids_stats: PidsStats { current: Some(42) },
    }
}

fn emitter() -> (Emitter, UnboundedReceiver<Stats>) {
    let client = Client::new(ClientConfig::new("demo", TEST_KEY)).unwrap();
    let config = PublisherConfig::new("StatEntries", 10, 2);
    let (_publisher, handle, receiver) = Publisher::new(client, config);
    (Emitter::new("0123456789abcdef".to_string(), handle), receiver)
}

#[test]
fn it_forwards_derived_records_to_the_queue() {
    let (emitter, mut receiver) = emitter();
    assert_eq!(emitter.container_id(), "0123456789abcdef");

    assert!(emitter.handle_sample(&sample(2000, 1000)));

    let record = receiver.try_recv().expect("the derived record is enqueued");
    assert_eq!(record.id, "0123456789ab");
    assert_eq!(record.name, "mycontainer");
    assert_eq!(record.pid, Some(42));
    assert_eq!(record.cpu_percentage.unwrap().cpu_delta, 600);
}

#[test]
fn it_drops_samples_that_admit_no_record() {
    let (emitter, mut receiver) = emitter();

    assert!(!emitter.handle_sample(&sample(1000, 2000)));
    assert!(receiver.try_recv().is_err());

    // the stream goes on: a later good sample is still forwarded
    assert!(emitter.handle_sample(&sample(3000, 2000)));
    assert!(receiver.try_recv().is_ok());
}

#[test]
fn it_carries_configs_through_into_parts() {
    let client_config = ClientConfig::new("demo", TEST_KEY);
    let publisher_config = PublisherConfig::new("StatEntries", 10, 2);
    let config = Config::new(client_config, publisher_config);

    let (client_config, publisher_config) = config.into_parts();
    let (customer_id, shared_key) = client_config.into_parts();
    assert_eq!(customer_id.as_str(), "demo");
    assert_eq!(shared_key.as_str(), TEST_KEY);
    let (log_name, batch_size, interval) = publisher_config.into_parts();
    assert_eq!(log_name, "StatEntries");
    assert_eq!(batch_size, 10);
    assert_eq!(interval, 2);
}
