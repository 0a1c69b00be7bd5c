//! Derivation of a normalized metric record from one raw counter snapshot.
//!
//! The transform is pure: every derived field is a function of the sample
//! alone, each optional field is present exactly when its own inputs are
//! available and valid, and a missing input never affects any other field.

use vstd::prelude::*;

use crate::sample::{BlkioEntry, NetworkStats, RawSample};

verus! {

/// The exact inputs of a CPU percentage: the value is
/// `cpu_delta / system_delta * online_cpus * 100`.
#[derive(Clone, Copy, Debug, PartialEq, Eq, Structural)]
pub struct CpuPercentSample {
    pub cpu_delta: u64,
    pub system_delta: u64,
    pub online_cpus: u64,
}

/// The exact inputs of a memory percentage: the value is
/// `memory / limit * 100`.
#[derive(Clone, Copy, Debug, PartialEq, Eq, Structural)]
pub struct MemoryPercentSample {
    pub memory: u64,
    pub limit: u64,
}

/// The normalized, wire-ready metric record derived from one [`RawSample`].
///
/// Every optional field is absent exactly when its inputs were unavailable
/// or invalid for that sample; an absent field is never zero-filled.
/// Percentages carry their exact integer inputs; rendering them as a single
/// number is left to the delivery layer.
#[derive(Clone, Debug, PartialEq)]
pub struct Stats {
    /// The sample's `read` time, RFC 3339 with milliseconds.
    pub timestamp: String,
    /// Container id, truncated to its first 12 characters.
    pub id: String,
    /// Container name, without the engine's leading separator character.
    pub name: String,
    pub cpu_percentage: Option<CpuPercentSample>,
    /// Memory in use less page cache, bytes.
    pub memory: Option<u64>,
    pub memory_percentage: Option<MemoryPercentSample>,
    /// Memory limit, bytes, as reported.
    pub memory_limit: Option<u64>,
    /// Sum of received bytes over all reported interfaces.
    pub network_rx: Option<u128>,
    /// Sum of transmitted bytes over all reported interfaces.
    pub network_tx: Option<u128>,
    /// Sum of bytes read over all reported block-I/O entries.
    pub block_read: Option<u128>,
    /// Sum of bytes written over all reported block-I/O entries.
    pub block_write: Option<u128>,
    /// Current process count, as reported.
    pub pid: Option<u64>,
}

/// Why no record could be derived from a sample.
#[derive(Clone, Copy, Debug, PartialEq, Eq, Structural)]
pub enum DeriveError {
    /// The sample's `read` time precedes its `preread` time.
    MeasurementUnavailable,
}

impl DeriveError {
    /// A human-readable description of the error.
    pub fn message(&self) -> (r: &'static str)
        ensures
            r@ == "current measurement unavailable"@,
    {
        "current measurement unavailable"
    }
}

/// What chrono renders for a unix-millisecond timestamp as RFC 3339 with
/// milliseconds in UTC, or the empty sequence when the value is outside
/// chrono's representable range.
pub uninterp spec fn rfc3339_millis_of(ms: i64) -> Seq<char>;

/// Relies on chrono's `DateTime::from_timestamp_millis` and
/// `to_rfc3339_opts`: the rendering depends on the millisecond value alone;
/// an out-of-range value yields the empty string.
#[verifier::external_body]
fn rfc3339_millis(ms: i64) -> (r: String)
    ensures
        r@ == rfc3339_millis_of(ms),
{
    match chrono::DateTime::<chrono::Utc>::from_timestamp_millis(ms) {
        Some(d) => d.to_rfc3339_opts(chrono::SecondsFormat::Millis, true),
        None => String::new(),
    }
}

/// `a - b`, absent on underflow.
pub open spec fn spec_checked_sub(a: u64, b: u64) -> Option<u64> {
    if a >= b {
        Some((a - b) as u64)
    } else {
        None
    }
}

/// Growth of the container's CPU counter since the previous sample.
pub open spec fn spec_cpu_delta(s: RawSample) -> Option<u64> {
    spec_checked_sub(s.cpu_stats.cpu_usage.total_usage, s.precpu_stats.cpu_usage.total_usage)
}

/// Growth of the host CPU counter since the previous sample; absent when
/// either side is unreported or the counter went backwards.
pub open spec fn spec_system_delta(s: RawSample) -> Option<u64> {
    match (s.cpu_stats.system_cpu_usage, s.precpu_stats.system_cpu_usage) {
        (Some(cur), Some(prev)) => spec_checked_sub(cur, prev),
        _ => None,
    }
}

/// The explicit online-CPU count if present, else the number of per-CPU
/// entries, else zero.
pub open spec fn spec_online_cpus(s: RawSample) -> u64 {
    match s.cpu_stats.online_cpus {
        Some(c) => c,
        None => match s.cpu_stats.cpu_usage.percpu_usage {
            Some(v) => v@.len() as u64,
            None => 0,
        },
    }
}

/// CPU percentage inputs; absent when either delta is absent or the host
/// delta is zero (a zero divisor yields no value).
pub open spec fn spec_cpu_percentage(s: RawSample) -> Option<CpuPercentSample> {
    match (spec_cpu_delta(s), spec_system_delta(s)) {
        (Some(cpu_delta), Some(system_delta)) => if system_delta > 0 {
            Some(
                CpuPercentSample {
                    cpu_delta,
                    system_delta,
                    online_cpus: spec_online_cpus(s),
                },
            )
        } else {
            None
        },
        _ => None,
    }
}

/// Memory in use less page cache; absent when usage or the detailed
/// counters are unreported, or on underflow.
pub open spec fn spec_memory(s: RawSample) -> Option<u64> {
    match (s.memory_stats.usage, s.memory_stats.stats) {
        (Some(usage), Some(detail)) => spec_checked_sub(usage, detail.cache),
        _ => None,
    }
}

/// Memory percentage inputs; absent when memory or the limit is absent.
pub open spec fn spec_memory_percentage(s: RawSample) -> Option<MemoryPercentSample> {
    match (spec_memory(s), s.memory_stats.limit) {
        (Some(memory), Some(limit)) => Some(MemoryPercentSample { memory, limit }),
        _ => None,
    }
}

/// Sum of received bytes over a sequence of interfaces.
pub open spec fn spec_rx_sum(nets: Seq<NetworkStats>) -> int
    decreases nets.len(),
{
    if nets.len() == 0 {
        0
    } else {
        spec_rx_sum(nets.drop_last()) + nets.last().rx_bytes
    }
}

/// Sum of transmitted bytes over a sequence of interfaces.
pub open spec fn spec_tx_sum(nets: Seq<NetworkStats>) -> int
    decreases nets.len(),
{
    if nets.len() == 0 {
        0
    } else {
        spec_tx_sum(nets.drop_last()) + nets.last().tx_bytes
    }
}

/// Network sums are present exactly when at least one interface was reported.
pub open spec fn spec_networks_reported(s: RawSample) -> bool {
    match s.networks {
        Some(nets) => nets@.len() > 0,
        None => false,
    }
}

/// Whether an operation tag's first character classifies it as a read,
/// case-insensitively; a tag without characters matches nothing.
pub open spec fn spec_is_read_op(op: Seq<char>) -> bool {
    op.len() > 0 && (op[0] == 'r' || op[0] == 'R')
}

/// Whether an operation tag's first character classifies it as a write,
/// case-insensitively.
pub open spec fn spec_is_write_op(op: Seq<char>) -> bool {
    op.len() > 0 && (op[0] == 'w' || op[0] == 'W')
}

/// What one block-I/O entry contributes to the read accumulator.
pub open spec fn spec_read_contrib(e: BlkioEntry) -> int {
    if spec_is_read_op(e.op@) {
        e.value as int
    } else {
        0
    }
}

/// What one block-I/O entry contributes to the write accumulator.
pub open spec fn spec_write_contrib(e: BlkioEntry) -> int {
    if spec_is_write_op(e.op@) {
        e.value as int
    } else {
        0
    }
}

/// Bytes read, folded over all entries; unrecognized tags contribute nothing.
pub open spec fn spec_block_read_sum(entries: Seq<BlkioEntry>) -> int
    decreases entries.len(),
{
    if entries.len() == 0 {
        0
    } else {
        spec_block_read_sum(entries.drop_last()) + spec_read_contrib(entries.last())
    }
}

/// Bytes written, folded over all entries.
pub open spec fn spec_block_write_sum(entries: Seq<BlkioEntry>) -> int
    decreases entries.len(),
{
    if entries.len() == 0 {
        0
    } else {
        spec_block_write_sum(entries.drop_last()) + spec_write_contrib(entries.last())
    }
}

/// Block-I/O sums are present exactly when at least one entry was reported.
pub open spec fn spec_blkio_reported(s: RawSample) -> bool {
    match s.blkio_entries {
        Some(entries) => entries@.len() > 0,
        None => false,
    }
}

/// The id as displayed: its first 12 characters, or all of a shorter id.
pub open spec fn spec_display_id(id: Seq<char>) -> Seq<char> {
    if id.len() >= 12 {
        id.subrange(0, 12)
    } else {
        id
    }
}

/// The name as displayed: everything after the engine's leading separator
/// character, or empty when the name has no characters.
pub open spec fn spec_display_name(name: Seq<char>) -> Seq<char> {
    if name.len() >= 1 {
        name.subrange(1, name.len() as int)
    } else {
        Seq::empty()
    }
}

/// A numeric option viewed as a mathematical integer.
pub open spec fn opt_int(o: Option<u128>) -> Option<int> {
    match o {
        Some(v) => Some(v as int),
        None => None,
    }
}

/// Whether a sample admits a record at all: its `read` time must not
/// precede its `preread` time.
pub open spec fn spec_derivable(s: RawSample) -> bool {
    s.read >= s.preread
}

/// The derivation relation: `rec` is the record that snapshot `s` admits.
/// Every field is pinned to a function of the sample: each optional field
/// is present exactly when its own documented inputs are present and valid,
/// and its value is the stated pure function of those inputs.
pub open spec fn spec_derives(s: RawSample, rec: Stats) -> bool {
    &&& rec.timestamp@ == rfc3339_millis_of(s.read)
    &&& rec.id@ == spec_display_id(s.id@)
    &&& rec.name@ == spec_display_name(s.name@)
    &&& rec.cpu_percentage == spec_cpu_percentage(s)
    &&& rec.memory == spec_memory(s)
    &&& rec.memory_percentage == spec_memory_percentage(s)
    &&& rec.memory_limit == s.memory_stats.limit
    &&& (rec.network_rx is Some <==> spec_networks_reported(s))
    &&& (rec.network_tx is Some <==> spec_networks_reported(s))
    &&& (rec.network_rx matches Some(rx) ==> rx as int == spec_rx_sum(s.networks.unwrap()@))
    &&& (rec.network_tx matches Some(tx) ==> tx as int == spec_tx_sum(s.networks.unwrap()@))
    &&& (rec.block_read is Some <==> spec_blkio_reported(s))
    &&& (rec.block_write is Some <==> spec_blkio_reported(s))
    &&& (rec.block_read matches Some(rd) ==> rd as int == spec_block_read_sum(
        s.blkio_entries.unwrap()@,
    ))
    &&& (rec.block_write matches Some(wr) ==> wr as int == spec_block_write_sum(
        s.blkio_entries.unwrap()@,
    ))
    &&& rec.pid == s.pids_stats.current
}

impl Stats {
    /// Derives the normalized metric record from one raw counter snapshot.
    ///
    /// Fails exactly when the sample's `read` time precedes its `preread`
    /// time; otherwise the result satisfies the derivation relation
    /// [`spec_derives`], which pins every field.
    pub fn try_from_sample(sample: &RawSample) -> (r: Result<Stats, DeriveError>)
        ensures
            r is Err <==> !spec_derivable(*sample),
            r matches Err(e) ==> e == DeriveError::MeasurementUnavailable,
            r matches Ok(rec) ==> spec_derives(*sample, rec),
    {
        if sample.read < sample.preread {
            return Err(DeriveError::MeasurementUnavailable);
        }
        let cpu_delta = sample.cpu_stats.cpu_usage.total_usage.checked_sub(
            sample.precpu_stats.cpu_usage.total_usage,
        );

        let online_cpus: u64 = match sample.cpu_stats.online_cpus {
            Some(c) => c,
            None => match &sample.cpu_stats.cpu_usage.percpu_usage {
                Some(v) => v.len() as u64,
                None => 0,
            },
        };

        let system_delta: Option<u64> = match (
            sample.cpu_stats.system_cpu_usage,
            sample.precpu_stats.system_cpu_usage,
        ) {
            (Some(cur), Some(prev)) => cur.checked_sub(prev),
            _ => None,
        };

        let cpu_percentage: Option<CpuPercentSample> = match (cpu_delta, system_delta) {
            (Some(cd), Some(sd)) => if sd > 0 {
                Some(CpuPercentSample { cpu_delta: cd, system_delta: sd, online_cpus })
            } else {
                None
            },
            _ => None,
        };

        let memory: Option<u64> = if let Some(usage) = sample.memory_stats.usage {
            if let Some(detail) = &sample.memory_stats.stats {
                usage.checked_sub(detail.cache)
            } else {
                None
            }
        } else {
            None
        };

        let memory_percentage: Option<MemoryPercentSample> = match (memory, sample.memory_stats.limit) {
            (Some(m), Some(limit)) => Some(MemoryPercentSample { memory: m, limit }),
            _ => None,
        };

        let (network_rx, network_tx): (Option<u128>, Option<u128>) = match &sample.networks {
            Some(nets) => if nets.len() > 0 {
                let (rx, tx) = sum_network(nets);
                (Some(rx), Some(tx))
            } else {
                (None, None)
            },
            None => (None, None),
        };

        let (block_read, block_write): (Option<u128>, Option<u128>) = match &sample.blkio_entries {
            Some(entries) => if entries.len() > 0 {
                let (rd, wr) = sum_blkio(entries);
                (Some(rd), Some(wr))
            } else {
                (None, None)
            },
            None => (None, None),
        };

        Ok(
            Stats {
                timestamp: rfc3339_millis(sample.read),
                id: display_id(&sample.id),
                name: display_name(&sample.name),
                cpu_percentage,
                memory,
                memory_percentage,
                memory_limit: sample.memory_stats.limit,
                network_rx,
                network_tx,
                block_read,
                block_write,
                pid: sample.pids_stats.current,
            },
        )
    }
}

/// Exact sums of received and transmitted bytes over all interfaces.
fn sum_network(nets: &Vec<NetworkStats>) -> (r: (u128, u128))
    ensures
        r.0 as int == spec_rx_sum(nets@),
        r.1 as int == spec_tx_sum(nets@),
{
    let max64: u128 = 0xffff_ffff_ffff_ffff;
    let mut rx: u128 = 0;
    let mut tx: u128 = 0;
    let mut i: usize = 0;
    while i < nets.len()
        invariant
            i <= nets@.len(),
            rx as int == spec_rx_sum(nets@.take(i as int)),
            tx as int == spec_tx_sum(nets@.take(i as int)),
            rx as int <= i * 0xffff_ffff_ffff_ffff,
            tx as int <= i * 0xffff_ffff_ffff_ffff,
        decreases nets@.len() - i,
    {
        proof {
            assert(nets@.take(i + 1).drop_last() =~= nets@.take(i as int));
            assert(nets@.take(i + 1).last() == nets@[i as int]);
        }
        rx = rx + nets[i].rx_bytes as u128;
        tx = tx + nets[i].tx_bytes as u128;
        i = i + 1;
    }
    proof {
        assert(nets@.take(i as int) =~= nets@);
    }
    (rx, tx)
}

/// Exact read and write byte sums folded over all block-I/O entries,
/// classifying each entry by the first character of its operation tag.
fn sum_blkio(entries: &Vec<BlkioEntry>) -> (r: (u128, u128))
    ensures
        r.0 as int == spec_block_read_sum(entries@),
        r.1 as int == spec_block_write_sum(entries@),
{
    let mut rd: u128 = 0;
    let mut wr: u128 = 0;
    let mut i: usize = 0;
    while i < entries.len()
        invariant
            i <= entries@.len(),
            rd as int == spec_block_read_sum(entries@.take(i as int)),
            wr as int == spec_block_write_sum(entries@.take(i as int)),
            rd as int <= i * 0xffff_ffff_ffff_ffff,
            wr as int <= i * 0xffff_ffff_ffff_ffff,
        decreases entries@.len() - i,
    {
        proof {
            assert(entries@.take(i + 1).drop_last() =~= entries@.take(i as int));
            assert(entries@.take(i + 1).last() == entries@[i as int]);
        }
        let e = &entries[i];
        let op = e.op.as_str();
        if op.unicode_len() >= 1 {
            let c = op.get_char(0);
            if c == 'r' || c == 'R' {
                rd = rd + e.value as u128;
            } else if c == 'w' || c == 'W' {
                wr = wr + e.value as u128;
            }
        }
        i = i + 1;
    }
    proof {
        assert(entries@.take(i as int) =~= entries@);
    }
    (rd, wr)
}

/// The displayed form of a container id: its first 12 characters.
fn display_id(id: &String) -> (r: String)
    ensures
        r@ == spec_display_id(id@),
{
    let s = id.as_str();
    let n = s.unicode_len();
    if n >= 12 {
        s.substring_char(0, 12).to_owned()
    } else {
        s.to_owned()
    }
}

/// Field independence: each derived field is a function of its own
/// documented inputs alone, so an input missing for one field — making that
/// field absent — never changes any other field. Two samples that agree on
/// one field's inputs agree on that field, whatever else differs.
pub proof fn lemma_fields_independent(s1: RawSample, s2: RawSample)
    ensures
        s1.cpu_stats == s2.cpu_stats && s1.precpu_stats == s2.precpu_stats
            ==> spec_cpu_percentage(s1) == spec_cpu_percentage(s2),
        s1.memory_stats == s2.memory_stats ==> spec_memory(s1) == spec_memory(s2)
            && spec_memory_percentage(s1) == spec_memory_percentage(s2)
            && s1.memory_stats.limit == s2.memory_stats.limit,
        s1.networks == s2.networks ==> spec_networks_reported(s1) == spec_networks_reported(s2)
            && (s1.networks matches Some(nets) ==> spec_rx_sum(nets@) == spec_rx_sum(
            s2.networks.unwrap()@,
        ) && spec_tx_sum(nets@) == spec_tx_sum(s2.networks.unwrap()@)),
        s1.blkio_entries == s2.blkio_entries ==> spec_blkio_reported(s1) == spec_blkio_reported(
            s2,
        ) && (s1.blkio_entries matches Some(entries) ==> spec_block_read_sum(entries@)
            == spec_block_read_sum(s2.blkio_entries.unwrap()@) && spec_block_write_sum(entries@)
            == spec_block_write_sum(s2.blkio_entries.unwrap()@)),
        s1.pids_stats == s2.pids_stats ==> s1.pids_stats.current == s2.pids_stats.current,
{
}

/// Determinism: the derivation relation is a function of the sample, so
/// deriving twice from one sample yields identical records, field for
/// field.
pub proof fn lemma_derivation_deterministic(s: RawSample, r1: Stats, r2: Stats)
    requires
        spec_derives(s, r1),
        spec_derives(s, r2),
    ensures
        r1.timestamp@ == r2.timestamp@,
        r1.id@ == r2.id@,
        r1.name@ == r2.name@,
        r1.cpu_percentage == r2.cpu_percentage,
        r1.memory == r2.memory,
        r1.memory_percentage == r2.memory_percentage,
        r1.memory_limit == r2.memory_limit,
        r1.network_rx == r2.network_rx,
        r1.network_tx == r2.network_tx,
        r1.block_read == r2.block_read,
        r1.block_write == r2.block_write,
        r1.pid == r2.pid,
{
}

/// The displayed form of a container name: the leading separator character
/// removed.
fn display_name(name: &String) -> (r: String)
    ensures
        r@ == spec_display_name(name@),
{
    let s = name.as_str();
    let n = s.unicode_len();
    if n >= 1 {
        s.substring_char(1, n).to_owned()
    } else {
        String::new()
    }
}

} // verus!
