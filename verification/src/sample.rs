//! Plain-value model of one raw counter snapshot for a container, as the
//! container engine reports it. Cumulative counters that the engine may omit
//! are optional; timestamps are unix milliseconds.

use vstd::prelude::*;

verus! {

/// Cumulative CPU usage counters for one snapshot.
#[derive(Clone, Debug)]
pub struct CpuUsage {
    /// Total CPU time consumed, in the engine's native units.
    pub total_usage: u64,
    /// Per-CPU breakdown of `total_usage`, when the engine reports one.
    pub percpu_usage: Option<Vec<u64>>,
}

/// CPU counters for one snapshot, including the host's own CPU time.
#[derive(Clone, Debug)]
pub struct CpuStats {
    pub cpu_usage: CpuUsage,
    /// Host system CPU usage, when reported.
    pub system_cpu_usage: Option<u64>,
    /// Explicit count of online CPUs, when reported.
    pub online_cpus: Option<u64>,
}

/// The detailed memory counters; only the page-cache size is consumed here.
#[derive(Clone, Debug)]
pub struct MemoryDetail {
    /// Bytes of page cache attributed to the container.
    pub cache: u64,
}

/// Memory counters for one snapshot.
#[derive(Clone, Debug)]
pub struct MemoryStats {
    /// Bytes of memory in use, when reported.
    pub usage: Option<u64>,
    /// Detailed counters, when reported.
    pub stats: Option<MemoryDetail>,
    /// Memory limit in bytes, when reported.
    pub limit: Option<u64>,
}

/// Cumulative byte counters for one network interface.
#[derive(Clone, Debug)]
pub struct NetworkStats {
    pub rx_bytes: u64,
    pub tx_bytes: u64,
}

/// One block-I/O service-bytes entry, tagged with its operation name.
#[derive(Clone, Debug)]
pub struct BlkioEntry {
    /// Operation tag, e.g. "Read" or "Write"; classified by its first character.
    pub op: String,
    /// Bytes serviced for this operation.
    pub value: u64,
}

/// Process-count counters for one snapshot.
#[derive(Clone, Debug)]
pub struct PidsStats {
    /// Number of processes in the container, when reported.
    pub current: Option<u64>,
}

/// One point-in-time snapshot of a container's cumulative resource counters.
///
/// `read` is the time this sample was taken and `preread` the time of the
/// previous sample, both as unix milliseconds; the CPU counters prefixed
/// `pre` belong to that previous sample.
#[derive(Clone, Debug)]
pub struct RawSample {
    /// Engine identifier of the container.
    pub id: String,
    /// Engine name of the container, with the engine's leading separator.
    pub name: String,
    /// Time this sample was read, unix milliseconds.
    pub read: i64,
    /// Time the previous sample was read, unix milliseconds.
    pub preread: i64,
    pub cpu_stats: CpuStats,
    /// CPU counters of the previous sample.
    pub precpu_stats: CpuStats,
    pub memory_stats: MemoryStats,
    /// Per-interface network counters; absent when the container has no
    /// networking.
    pub networks: Option<Vec<NetworkStats>>,
    /// Block-I/O service-bytes entries; absent when the engine reports none.
    pub blkio_entries: Option<Vec<BlkioEntry>>,
    pub pids_stats: PidsStats,
}

} // verus!
