//! The metrics sampler: what the kernel's counter files say, as numbers, and
//! a bounded history of samples. Reading the files and the clock, running
//! the sampler in the background and turning a sample into percentages are
//! left to the caller.
use vstd::prelude::*;
use std::collections::VecDeque;
use crate::fields::{
    fields, is_word, lines, number_or_zero, parse_number, parse_u64, split_fields, split_lines,
    starts_with, texts,
};

verus! {

/// The most samples that the history keeps.
pub const MAX_METRICS_HISTORY: usize = 100;

/// The default time between two samples, in milliseconds.
pub const DEFAULT_COLLECT_INTERVAL_MS: u64 = 1000;

/// I/O metrics: what was read and written since the sample before.
#[derive(Clone, Copy, Debug, PartialEq, Eq, Structural)]
pub struct IoMetrics {
    pub read_bytes: u64,
    pub write_bytes: u64,
    pub read_ops: u64,
    pub write_ops: u64,
    pub timestamp: u64,
}

/// Network metrics: what was received and sent since the sample before.
#[derive(Clone, Copy, Debug, PartialEq, Eq, Structural)]
pub struct NetworkMetrics {
    pub rx_bytes: u64,
    pub tx_bytes: u64,
    pub rx_packets: u64,
    pub tx_packets: u64,
    pub timestamp: u64,
}

/// The processor times of one reading, in clock ticks.
#[derive(Clone, Copy, Debug, PartialEq, Eq, Structural)]
pub struct CpuStats {
    pub user: u64,
    pub system: u64,
    pub idle: u64,
    pub total: u64,
}

/// The disk counters of one reading, summed over the block devices.
#[derive(Clone, Copy, Debug, PartialEq, Eq, Structural)]
pub struct IoStats {
    pub read_bytes: u64,
    pub write_bytes: u64,
    pub read_ops: u64,
    pub write_ops: u64,
}

/// The network counters of one reading, summed over the interfaces but the
/// loopback.
#[derive(Clone, Copy, Debug, PartialEq, Eq, Structural)]
pub struct NetStats {
    pub rx_bytes: u64,
    pub tx_bytes: u64,
    pub rx_packets: u64,
    pub tx_packets: u64,
}

/// The processor part of a sample: the times of the reading, and how far
/// the total and the idle time moved since the reading before. The share
/// of busy time is `1 - delta_idle / delta_total` where `delta_total` is
/// not 0.
#[derive(Clone, Copy, Debug, PartialEq, Eq, Structural)]
pub struct CpuSample {
    pub user_time: u64,
    pub system_time: u64,
    pub idle_time: u64,
    pub delta_total: u64,
    pub delta_idle: u64,
    pub timestamp: u64,
}

/// The memory part of a sample, in kilobytes. The share of used memory is
/// `used_kb / total_kb` where `total_kb` is not 0.
#[derive(Clone, Copy, Debug, PartialEq, Eq, Structural)]
pub struct MemorySample {
    pub total_kb: u64,
    pub available_kb: u64,
    pub used_kb: u64,
    pub timestamp: u64,
}

/// One complete sample.
#[derive(Clone, Copy, Debug, PartialEq, Eq, Structural)]
pub struct MetricsSample {
    pub cpu: CpuSample,
    pub memory: MemorySample,
    pub io: IoMetrics,
    pub network: NetworkMetrics,
    pub timestamp: u64,
}

/// The processor times that the first line of `/proc/stat` gives: the line
/// has at least five fields, the first is `cpu`, and the second, fourth and
/// fifth are the user, system and idle time. The total is their sum,
/// wrapped to 64 bits.
pub open spec fn cpu_stats_of(text: Seq<char>) -> Option<CpuStats> {
    let all = lines(text);
    if all.len() == 0 {
        None
    } else {
        let parts = fields(all[0]);
        if parts.len() < 5 || parts[0] != "cpu"@ {
            None
        } else {
            match (parse_u64(parts[1]), parse_u64(parts[3]), parse_u64(parts[4])) {
                (Some(user), Some(system), Some(idle)) => Some(
                    CpuStats {
                        user,
                        system,
                        idle,
                        total: user.wrapping_add(system).wrapping_add(idle),
                    },
                ),
                _ => None,
            }
        }
    }
}

/// Whether the total of a processor reading is the sum of its three times,
/// wrapped to 64 bits.
pub open spec fn cpu_stats_consistent(stats: CpuStats) -> bool {
    stats.total == stats.user.wrapping_add(stats.system).wrapping_add(stats.idle)
}

/// Whether the three times of a processor reading add up within 64 bits, so
/// that its total is their plain sum.
pub open spec fn cpu_stats_plain(stats: CpuStats) -> bool {
    &&& stats.user + stats.system + stats.idle <= u64::MAX
    &&& stats.total == stats.user + stats.system + stats.idle
}

/// Every reading that the text of `/proc/stat` gives is consistent.
pub proof fn lemma_parsed_cpu_stats_consistent(text: Seq<char>)
    ensures
        cpu_stats_of(text) matches Some(stats) ==> cpu_stats_consistent(stats),
{
}

/// A consistent reading whose times add up within 64 bits is plain.
pub proof fn lemma_consistent_is_plain(stats: CpuStats)
    requires
        cpu_stats_consistent(stats),
        stats.user + stats.system + stats.idle <= u64::MAX,
    ensures
        cpu_stats_plain(stats),
{
}

/// **The idle share is a share.** Between two plain readings of which the
/// later has no time below the earlier, the idle time moved no further than
/// the total: the busy share `1 - delta_idle / delta_total` lies between 0
/// and 1. A first sample has both deltas 0.
pub proof fn lemma_idle_within_total(previous: Option<CpuStats>, current: CpuStats, timestamp: u64)
    requires
        cpu_stats_plain(current),
        previous matches Some(earlier) ==> {
            &&& cpu_stats_plain(earlier)
            &&& earlier.user <= current.user
            &&& earlier.system <= current.system
            &&& earlier.idle <= current.idle
        },
    ensures
        cpu_sample_of(previous, current, timestamp).delta_idle <= cpu_sample_of(
            previous,
            current,
            timestamp,
        ).delta_total,
        previous is None ==> cpu_sample_of(previous, current, timestamp).delta_total == 0,
{
}

/// The processor part of the sample taken at `timestamp`, after the reading
/// `previous` if there was one.
pub open spec fn cpu_sample_of(previous: Option<CpuStats>, current: CpuStats, timestamp: u64)
    -> CpuSample {
    CpuSample {
        user_time: current.user,
        system_time: current.system,
        idle_time: current.idle,
        delta_total: match previous {
            Some(earlier) => current.total.saturating_sub(earlier.total),
            None => 0,
        },
        delta_idle: match previous {
            Some(earlier) => current.idle.saturating_sub(earlier.idle),
            None => 0,
        },
        timestamp,
    }
}

/// The number in the second field of a line, where there is one.
pub open spec fn second_number(line: Seq<char>) -> Option<u64> {
    let parts = fields(line);
    if parts.len() < 2 {
        None
    } else {
        parse_u64(parts[1])
    }
}

/// Total and available memory after the first `count` lines of
/// `/proc/meminfo`: each line that begins with `MemTotal:` or
/// `MemAvailable:` sets one of them to its second field; `None` once such a
/// line has no number there.
pub open spec fn memory_scan(all: Seq<Seq<char>>, count: int) -> Option<(u64, u64)>
    decreases count,
{
    if count <= 0 {
        Some((0, 0))
    } else {
        match memory_scan(all, count - 1) {
            None => None,
            Some((total, available)) => {
                let line = all[count - 1];
                if "MemTotal:"@.is_prefix_of(line) {
                    match second_number(line) {
                        Some(value) => Some((value, available)),
                        None => None,
                    }
                } else if "MemAvailable:"@.is_prefix_of(line) {
                    match second_number(line) {
                        Some(value) => Some((total, value)),
                        None => None,
                    }
                } else {
                    Some((total, available))
                }
            },
        }
    }
}

/// The memory part of the sample taken at `timestamp` from the text of
/// `/proc/meminfo`.
pub open spec fn memory_sample_of(text: Seq<char>, timestamp: u64) -> Option<MemorySample> {
    match memory_scan(lines(text), lines(text).len() as int) {
        Some((total, available)) => Some(
            MemorySample {
                total_kb: total,
                available_kb: available,
                used_kb: total.saturating_sub(available),
                timestamp,
            },
        ),
        None => None,
    }
}

/// The disk counters with one line of `/proc/diskstats` added: a line with
/// at least 14 fields adds its fourth and eighth field to the operations,
/// and 512 bytes for every sector of its sixth and tenth field. A field
/// that is no number counts as 0; sums and products wrap to 64 bits.
pub open spec fn with_disk_line(sum: IoStats, line: Seq<char>) -> IoStats {
    let parts = fields(line);
    if parts.len() >= 14 {
        IoStats {
            read_ops: sum.read_ops.wrapping_add(number_or_zero(parts, 3)),
            read_bytes: sum.read_bytes.wrapping_add(number_or_zero(parts, 5).wrapping_mul(512)),
            write_ops: sum.write_ops.wrapping_add(number_or_zero(parts, 7)),
            write_bytes: sum.write_bytes.wrapping_add(
                number_or_zero(parts, 9).wrapping_mul(512),
            ),
        }
    } else {
        sum
    }
}

/// The disk counters of the first `count` lines of `/proc/diskstats`.
pub open spec fn disk_totals(all: Seq<Seq<char>>, count: int) -> IoStats
    decreases count,
{
    if count <= 0 {
        IoStats { read_bytes: 0, write_bytes: 0, read_ops: 0, write_ops: 0 }
    } else {
        with_disk_line(disk_totals(all, count - 1), all[count - 1])
    }
}

/// The disk counters that the text of `/proc/diskstats` gives.
pub open spec fn io_stats_of(text: Seq<char>) -> IoStats {
    disk_totals(lines(text), lines(text).len() as int)
}

/// The I/O part of the sample taken at `timestamp`: how far each counter
/// moved since the reading before, and 0 for the first reading.
pub open spec fn io_metrics_of(previous: Option<IoStats>, current: IoStats, timestamp: u64)
    -> IoMetrics {
    match previous {
        Some(earlier) => IoMetrics {
            read_bytes: current.read_bytes.saturating_sub(earlier.read_bytes),
            write_bytes: current.write_bytes.saturating_sub(earlier.write_bytes),
            read_ops: current.read_ops.saturating_sub(earlier.read_ops),
            write_ops: current.write_ops.saturating_sub(earlier.write_ops),
            timestamp,
        },
        None => IoMetrics { read_bytes: 0, write_bytes: 0, read_ops: 0, write_ops: 0, timestamp },
    }
}

/// The network counters with one line of `/proc/net/dev` added: a line
/// with at least 11 fields whose first field does not begin with `lo:`
/// adds its second and third field to what was received and its tenth and
/// eleventh to what was sent. A field that is no number counts as 0; sums
/// wrap to 64 bits.
pub open spec fn with_net_line(sum: NetStats, line: Seq<char>) -> NetStats {
    let parts = fields(line);
    if parts.len() >= 11 && !"lo:"@.is_prefix_of(parts[0]) {
        NetStats {
            rx_bytes: sum.rx_bytes.wrapping_add(number_or_zero(parts, 1)),
            rx_packets: sum.rx_packets.wrapping_add(number_or_zero(parts, 2)),
            tx_bytes: sum.tx_bytes.wrapping_add(number_or_zero(parts, 9)),
            tx_packets: sum.tx_packets.wrapping_add(number_or_zero(parts, 10)),
        }
    } else {
        sum
    }
}

/// The network counters of the first `count` lines of `/proc/net/dev`,
/// whose first two lines are headings.
pub open spec fn net_totals(all: Seq<Seq<char>>, count: int) -> NetStats
    decreases count,
{
    if count <= 2 {
        NetStats { rx_bytes: 0, tx_bytes: 0, rx_packets: 0, tx_packets: 0 }
    } else {
        with_net_line(net_totals(all, count - 1), all[count - 1])
    }
}

/// The network counters that the text of `/proc/net/dev` gives.
pub open spec fn net_stats_of(text: Seq<char>) -> NetStats {
    net_totals(lines(text), lines(text).len() as int)
}

/// The network part of the sample taken at `timestamp`: how far each
/// counter moved since the reading before, and 0 for the first reading.
pub open spec fn network_metrics_of(
    previous: Option<NetStats>,
    current: NetStats,
    timestamp: u64,
) -> NetworkMetrics {
    match previous {
        Some(earlier) => NetworkMetrics {
            rx_bytes: current.rx_bytes.saturating_sub(earlier.rx_bytes),
            tx_bytes: current.tx_bytes.saturating_sub(earlier.tx_bytes),
            rx_packets: current.rx_packets.saturating_sub(earlier.rx_packets),
            tx_packets: current.tx_packets.saturating_sub(earlier.tx_packets),
            timestamp,
        },
        None => NetworkMetrics {
            rx_bytes: 0,
            tx_bytes: 0,
            rx_packets: 0,
            tx_packets: 0,
            timestamp,
        },
    }
}

/// The field at `index` as a number, or 0 where it writes none.
fn field_or_zero(parts: &Vec<Vec<char>>, index: usize) -> (r: u64)
    requires
        index < parts.len(),
    ensures
        r == number_or_zero(texts(parts@), index as int),
{
    match parse_number(&parts[index]) {
        Some(value) => value,
        None => 0,
    }
}

/// Reads the processor times from the text of `/proc/stat`.
pub fn parse_cpu_stats(text: &str) -> (r: Option<CpuStats>)
    ensures
        r == cpu_stats_of(text@),
{
    let all = split_lines(text);
    if all.len() == 0 {
        return None;
    }
    assert(texts(all@)[0] == all@[0]@);
    let parts = split_fields(&all[0]);
    if parts.len() < 5 {
        return None;
    }
    proof {
        assert(texts(parts@)[0] == parts@[0]@);
    }
    if !is_word(&parts[0], "cpu") {
        return None;
    }
    proof {
        assert(texts(parts@)[1] == parts@[1]@);
        assert(texts(parts@)[3] == parts@[3]@);
        assert(texts(parts@)[4] == parts@[4]@);
    }
    let user = match parse_number(&parts[1]) {
        Some(value) => value,
        None => {
            return None;
        },
    };
    let system = match parse_number(&parts[3]) {
        Some(value) => value,
        None => {
            return None;
        },
    };
    let idle = match parse_number(&parts[4]) {
        Some(value) => value,
        None => {
            return None;
        },
    };
    Some(CpuStats { user, system, idle, total: user.wrapping_add(system).wrapping_add(idle) })
}

/// Reads the number in the second field of a line.
fn parse_second_number(line: &Vec<char>) -> (r: Option<u64>)
    ensures
        r == second_number(line@),
{
    let parts = split_fields(line);
    if parts.len() < 2 {
        return None;
    }
    assert(texts(parts@)[1] == parts@[1]@);
    parse_number(&parts[1])
}

/// Reads the disk counters from the text of `/proc/diskstats`.
pub fn parse_io_stats(text: &str) -> (r: IoStats)
    ensures
        r == io_stats_of(text@),
{
    let all = split_lines(text);
    let mut sum = IoStats { read_bytes: 0, write_bytes: 0, read_ops: 0, write_ops: 0 };
    let mut i: usize = 0;
    while i < all.len()
        invariant
            i <= all.len(),
            texts(all@) == lines(text@),
            sum == disk_totals(lines(text@), i as int),
        decreases all.len() - i,
    {
        assert(texts(all@)[i as int] == all@[i as int]@);
        let parts = split_fields(&all[i]);
        if parts.len() >= 14 {
            sum = IoStats {
                read_ops: sum.read_ops.wrapping_add(field_or_zero(&parts, 3)),
                read_bytes: sum.read_bytes.wrapping_add(
                    field_or_zero(&parts, 5).wrapping_mul(512),
                ),
                write_ops: sum.write_ops.wrapping_add(field_or_zero(&parts, 7)),
                write_bytes: sum.write_bytes.wrapping_add(
                    field_or_zero(&parts, 9).wrapping_mul(512),
                ),
            };
        }
        i += 1;
    }
    sum
}

/// Reads the network counters from the text of `/proc/net/dev`.
pub fn parse_net_stats(text: &str) -> (r: NetStats)
    ensures
        r == net_stats_of(text@),
{
    let all = split_lines(text);
    let mut sum = NetStats { rx_bytes: 0, tx_bytes: 0, rx_packets: 0, tx_packets: 0 };
    if all.len() <= 2 {
        return sum;
    }
    let mut i: usize = 2;
    while i < all.len()
        invariant
            2 <= i <= all.len(),
            texts(all@) == lines(text@),
            sum == net_totals(lines(text@), i as int),
        decreases all.len() - i,
    {
        assert(texts(all@)[i as int] == all@[i as int]@);
        let parts = split_fields(&all[i]);
        if parts.len() >= 11 {
            assert(texts(parts@)[0] == parts@[0]@);
            if !starts_with(&parts[0], "lo:") {
                sum = NetStats {
                    rx_bytes: sum.rx_bytes.wrapping_add(field_or_zero(&parts, 1)),
                    rx_packets: sum.rx_packets.wrapping_add(field_or_zero(&parts, 2)),
                    tx_bytes: sum.tx_bytes.wrapping_add(field_or_zero(&parts, 9)),
                    tx_packets: sum.tx_packets.wrapping_add(field_or_zero(&parts, 10)),
                };
            }
        }
        i += 1;
    }
    sum
}

/// Reads the memory part of a sample from the text of `/proc/meminfo`.
pub fn collect_memory_metrics(text: &str, timestamp: u64) -> (r: Option<MemorySample>)
    ensures
        r == memory_sample_of(text@, timestamp),
{
    let all = split_lines(text);
    let mut total_kb: u64 = 0;
    let mut available_kb: u64 = 0;
    let mut i: usize = 0;
    while i < all.len()
        invariant
            i <= all.len(),
            texts(all@) == lines(text@),
            memory_scan(lines(text@), i as int) == Some((total_kb, available_kb)),
        decreases all.len() - i,
    {
        assert(texts(all@)[i as int] == all@[i as int]@);
        let ghost seen = memory_scan(lines(text@), i + 1);
        if starts_with(&all[i], "MemTotal:") {
            match parse_second_number(&all[i]) {
                Some(value) => {
                    total_kb = value;
                },
                None => {
                    proof {
                        lemma_memory_scan_fails(lines(text@), i + 1, all.len() as int);
                    }
                    return None;
                },
            }
        } else if starts_with(&all[i], "MemAvailable:") {
            match parse_second_number(&all[i]) {
                Some(value) => {
                    available_kb = value;
                },
                None => {
                    proof {
                        lemma_memory_scan_fails(lines(text@), i + 1, all.len() as int);
                    }
                    return None;
                },
            }
        }
        i += 1;
    }
    Some(
        MemorySample {
            total_kb,
            available_kb,
            used_kb: total_kb.saturating_sub(available_kb),
            timestamp,
        },
    )
}

/// A scan that has failed stays failed.
proof fn lemma_memory_scan_fails(all: Seq<Seq<char>>, count: int, later: int)
    requires
        count <= later,
        memory_scan(all, count) is None,
    ensures
        memory_scan(all, later) is None,
    decreases later - count,
{
    if count < later {
        lemma_memory_scan_fails(all, count, later - 1);
    }
}

/// The history after `sample` is stored: the oldest sample leaves where
/// the history is full.
pub open spec fn stored(history: Seq<MetricsSample>, sample: MetricsSample) -> Seq<MetricsSample> {
    if history.len() >= MAX_METRICS_HISTORY {
        history.skip(1).push(sample)
    } else {
        history.push(sample)
    }
}

/// What the sampler knows between two samples.
pub struct SamplerState {
    /// The time between two samples, in milliseconds.
    pub interval_ms: u64,
    /// Whether the sampler runs in the background.
    pub running: bool,
    /// The stored samples, oldest first.
    pub history: Seq<MetricsSample>,
    /// The last processor reading.
    pub prev_cpu: Option<CpuStats>,
    /// The last disk reading.
    pub prev_io: Option<IoStats>,
    /// The last network reading.
    pub prev_net: Option<NetStats>,
}

/// The state after a reading of `/proc/stat`, and the processor part of
/// the sample: a text that gives no processor times changes nothing.
pub open spec fn after_cpu(state: SamplerState, text: Seq<char>, timestamp: u64) -> (
    SamplerState,
    Option<CpuSample>,
) {
    match cpu_stats_of(text) {
        Some(current) => (
            SamplerState { prev_cpu: Some(current), ..state },
            Some(cpu_sample_of(state.prev_cpu, current, timestamp)),
        ),
        None => (state, None),
    }
}

/// The state after a reading of `/proc/diskstats`, and the I/O part of the
/// sample.
pub open spec fn after_io(state: SamplerState, text: Seq<char>, timestamp: u64) -> (
    SamplerState,
    IoMetrics,
) {
    (
        SamplerState { prev_io: Some(io_stats_of(text)), ..state },
        io_metrics_of(state.prev_io, io_stats_of(text), timestamp),
    )
}

/// The state after a reading of `/proc/net/dev`, and the network part of
/// the sample.
pub open spec fn after_network(state: SamplerState, text: Seq<char>, timestamp: u64) -> (
    SamplerState,
    NetworkMetrics,
) {
    (
        SamplerState { prev_net: Some(net_stats_of(text)), ..state },
        network_metrics_of(state.prev_net, net_stats_of(text), timestamp),
    )
}

/// The characters of an optional text.
pub open spec fn text_of(text: Option<&str>) -> Option<Seq<char>> {
    match text {
        Some(text) => Some(text@),
        None => None,
    }
}

/// The state after one round of readings, and the sample if the round is
/// complete. The four files are taken in the order processor, memory,
/// disk, network; a file that could not be read (`None`) or that gives no
/// values ends the round, and what the files before it changed stays
/// changed.
pub open spec fn after_collect(
    state: SamplerState,
    timestamp: u64,
    stat: Option<Seq<char>>,
    meminfo: Option<Seq<char>>,
    diskstats: Option<Seq<char>>,
    netdev: Option<Seq<char>>,
) -> (SamplerState, Option<MetricsSample>) {
    if stat is None || after_cpu(state, stat->0, timestamp).1 is None {
        (state, None)
    } else {
        let (with_cpu, cpu) = after_cpu(state, stat->0, timestamp);
        if meminfo is None || memory_sample_of(meminfo->0, timestamp) is None
            || diskstats is None {
            (with_cpu, None)
        } else {
            let (with_io, io) = after_io(with_cpu, diskstats->0, timestamp);
            if netdev is None {
                (with_io, None)
            } else {
                let (with_net, network) = after_network(with_io, netdev->0, timestamp);
                (
                    with_net,
                    Some(
                        MetricsSample {
                            cpu: cpu->0,
                            memory: memory_sample_of(meminfo->0, timestamp)->0,
                            io,
                            network,
                            timestamp,
                        },
                    ),
                )
            }
        }
    }
}

/// The state after one round of the background sampler, and the time to
/// pause after it in milliseconds. A stopped collector does nothing and
/// asks for no pause, which ends the sampler. A running one takes a round of
/// readings if the clock gave a time, stores the sample if the round is
/// complete, and pauses for its interval.
pub open spec fn after_tick(
    state: SamplerState,
    timestamp: Option<u64>,
    stat: Option<Seq<char>>,
    meminfo: Option<Seq<char>>,
    diskstats: Option<Seq<char>>,
    netdev: Option<Seq<char>>,
) -> (SamplerState, Option<u64>) {
    if !state.running {
        (state, None)
    } else if timestamp is None {
        (state, Some(state.interval_ms))
    } else {
        let (read, sample) = after_collect(
            state,
            timestamp->0,
            stat,
            meminfo,
            diskstats,
            netdev,
        );
        match sample {
            Some(sample) => (
                SamplerState { history: stored(read.history, sample), ..read },
                Some(state.interval_ms),
            ),
            None => (read, Some(state.interval_ms)),
        }
    }
}

/// Telemetry collector: the last readings and a bounded history of
/// samples.
pub struct TelemetryCollector {
    interval_ms: u64,
    metrics_history: VecDeque<MetricsSample>,
    running: bool,
    prev_cpu_stats: Option<CpuStats>,
    prev_io_stats: Option<IoStats>,
    prev_net_stats: Option<NetStats>,
}

impl View for TelemetryCollector {
    type V = SamplerState;

    closed spec fn view(&self) -> SamplerState {
        SamplerState {
            interval_ms: self.interval_ms,
            running: self.running,
            history: self.metrics_history@,
            prev_cpu: self.prev_cpu_stats,
            prev_io: self.prev_io_stats,
            prev_net: self.prev_net_stats,
        }
    }
}

impl TelemetryCollector {
    #[verifier::type_invariant]
    spec fn bounded(&self) -> bool {
        &&& self.metrics_history@.len() <= MAX_METRICS_HISTORY
        &&& self.prev_cpu_stats matches Some(stats) ==> cpu_stats_consistent(stats)
    }

    /// The last processor reading, if there was one. Its total is the
    /// wrapped sum of its times.
    pub fn previous_cpu(&self) -> (r: Option<CpuStats>)
        ensures
            r == self@.prev_cpu,
            r matches Some(stats) ==> cpu_stats_consistent(stats),
    {
        proof {
            use_type_invariant(self);
        }
        self.prev_cpu_stats
    }

    /// Create a new telemetry collector: not running, with no reading and
    /// no sample.
    pub fn new(interval_ms: u64) -> (collector: TelemetryCollector)
        ensures
            collector@ == (SamplerState {
                interval_ms,
                running: false,
                history: Seq::empty(),
                prev_cpu: None,
                prev_io: None,
                prev_net: None,
            }),
    {
        TelemetryCollector {
            interval_ms,
            metrics_history: VecDeque::with_capacity(MAX_METRICS_HISTORY),
            running: false,
            prev_cpu_stats: None,
            prev_io_stats: None,
            prev_net_stats: None,
        }
    }

    /// The time between two samples, in milliseconds.
    pub fn interval_ms(&self) -> (r: u64)
        ensures
            r == self@.interval_ms,
    {
        self.interval_ms
    }

    /// Whether the sampler is meant to run in the background.
    pub fn is_running(&self) -> (r: bool)
        ensures
            r == self@.running,
    {
        self.running
    }

    /// The number of stored samples, which never exceeds
    /// `MAX_METRICS_HISTORY`.
    pub fn history_len(&self) -> (len: usize)
        ensures
            len == self@.history.len(),
            len <= MAX_METRICS_HISTORY,
    {
        proof {
            use_type_invariant(self);
        }
        self.metrics_history.len()
    }

    /// Start the telemetry collection: marks the collector as running.
    /// Returns whether it was stopped before, which is when the caller has
    /// to start the background sampler.
    pub fn start(&mut self) -> (launch: bool)
        ensures
            launch == !old(self)@.running,
            final(self)@ == (SamplerState { running: true, ..old(self)@ }),
    {
        proof {
            use_type_invariant(&*self);
        }
        if self.running {
            return false;
        }
        self.running = true;
        true
    }

    /// Stop the telemetry collection: the background sampler ends after its
    /// current round.
    pub fn stop(&mut self)
        ensures
            final(self)@ == (SamplerState { running: false, ..old(self)@ }),
    {
        proof {
            use_type_invariant(&*self);
        }
        self.running = false;
    }

    /// Get the latest metrics snapshot.
    pub fn get_snapshot(&self) -> (r: Option<MetricsSample>)
        ensures
            r == if self@.history.len() > 0 {
                Some(self@.history.last())
            } else {
                None
            },
    {
        let len = self.metrics_history.len();
        if len > 0 {
            Some(self.metrics_history[len - 1])
        } else {
            None
        }
    }

    /// Get all metrics history, oldest first.
    pub fn get_history(&self) -> (r: Vec<MetricsSample>)
        ensures
            r@ == self@.history,
    {
        let mut r: Vec<MetricsSample> = Vec::new();
        let mut i: usize = 0;
        while i < self.metrics_history.len()
            invariant
                i <= self.metrics_history@.len(),
                r@ == self.metrics_history@.take(i as int),
            decreases self.metrics_history@.len() - i,
        {
            r.push(self.metrics_history[i]);
            assert(self.metrics_history@.take(i + 1) =~= self.metrics_history@.take(
                i as int,
            ).push(self.metrics_history@[i as int]));
            i += 1;
        }
        assert(self.metrics_history@.take(i as int) =~= self.metrics_history@);
        r
    }

    /// Collect CPU metrics from the text of `/proc/stat`, read at
    /// `timestamp`.
    pub fn collect_cpu_metrics(&mut self, text: &str, timestamp: u64) -> (r: Option<CpuSample>)
        ensures
            (final(self)@, r) == after_cpu(old(self)@, text@, timestamp),
    {
        proof {
            use_type_invariant(&*self);
        }
        match parse_cpu_stats(text) {
            Some(current) => {
                let ghost before = self@;
                let sample = CpuSample {
                    user_time: current.user,
                    system_time: current.system,
                    idle_time: current.idle,
                    delta_total: match self.prev_cpu_stats {
                        Some(earlier) => current.total.saturating_sub(earlier.total),
                        None => 0,
                    },
                    delta_idle: match self.prev_cpu_stats {
                        Some(earlier) => current.idle.saturating_sub(earlier.idle),
                        None => 0,
                    },
                    timestamp,
                };
                self.prev_cpu_stats = Some(current);
                assert(self@ == (SamplerState { prev_cpu: Some(current), ..before }));
                Some(sample)
            },
            None => None,
        }
    }

    /// Collect I/O metrics from the text of `/proc/diskstats`, read at
    /// `timestamp`.
    pub fn collect_io_metrics(&mut self, text: &str, timestamp: u64) -> (r: IoMetrics)
        ensures
            (final(self)@, r) == after_io(old(self)@, text@, timestamp),
    {
        proof {
            use_type_invariant(&*self);
        }
        let ghost before = self@;
        let current = parse_io_stats(text);
        let metrics = match self.prev_io_stats {
            Some(earlier) => IoMetrics {
                read_bytes: current.read_bytes.saturating_sub(earlier.read_bytes),
                write_bytes: current.write_bytes.saturating_sub(earlier.write_bytes),
                read_ops: current.read_ops.saturating_sub(earlier.read_ops),
                write_ops: current.write_ops.saturating_sub(earlier.write_ops),
                timestamp,
            },
            None => IoMetrics {
                read_bytes: 0,
                write_bytes: 0,
                read_ops: 0,
                write_ops: 0,
                timestamp,
            },
        };
        self.prev_io_stats = Some(current);
        assert(self@ == (SamplerState { prev_io: Some(current), ..before }));
        metrics
    }

    /// Collect network metrics from the text of `/proc/net/dev`, read at
    /// `timestamp`.
    pub fn collect_network_metrics(&mut self, text: &str, timestamp: u64) -> (r: NetworkMetrics)
        ensures
            (final(self)@, r) == after_network(old(self)@, text@, timestamp),
    {
        proof {
            use_type_invariant(&*self);
        }
        let ghost before = self@;
        let current = parse_net_stats(text);
        let metrics = match self.prev_net_stats {
            Some(earlier) => NetworkMetrics {
                rx_bytes: current.rx_bytes.saturating_sub(earlier.rx_bytes),
                tx_bytes: current.tx_bytes.saturating_sub(earlier.tx_bytes),
                rx_packets: current.rx_packets.saturating_sub(earlier.rx_packets),
                tx_packets: current.tx_packets.saturating_sub(earlier.tx_packets),
                timestamp,
            },
            None => NetworkMetrics {
                rx_bytes: 0,
                tx_bytes: 0,
                rx_packets: 0,
                tx_packets: 0,
                timestamp,
            },
        };
        self.prev_net_stats = Some(current);
        assert(self@ == (SamplerState { prev_net: Some(current), ..before }));
        metrics
    }

    /// Collect metrics manually (one-time), from the texts of the four
    /// counter files as far as they could be read. The sample is not
    /// stored.
    pub fn collect(
        &mut self,
        timestamp: u64,
        stat: Option<&str>,
        meminfo: Option<&str>,
        diskstats: Option<&str>,
        netdev: Option<&str>,
    ) -> (r: Option<MetricsSample>)
        ensures
            (final(self)@, r) == after_collect(
                old(self)@,
                timestamp,
                text_of(stat),
                text_of(meminfo),
                text_of(diskstats),
                text_of(netdev),
            ),
    {
        let cpu = match stat {
            Some(text) => match self.collect_cpu_metrics(text, timestamp) {
                Some(cpu) => cpu,
                None => {
                    return None;
                },
            },
            None => {
                return None;
            },
        };
        let memory = match meminfo {
            Some(text) => match collect_memory_metrics(text, timestamp) {
                Some(memory) => memory,
                None => {
                    return None;
                },
            },
            None => {
                return None;
            },
        };
        let io = match diskstats {
            Some(text) => self.collect_io_metrics(text, timestamp),
            None => {
                return None;
            },
        };
        let network = match netdev {
            Some(text) => self.collect_network_metrics(text, timestamp),
            None => {
                return None;
            },
        };
        Some(MetricsSample { cpu, memory, io, network, timestamp })
    }

    /// One round of the background sampler, with the time of the clock and
    /// the texts of the four counter files as far as they could be read.
    /// Returns the pause before the next round in milliseconds, or `None`
    /// once the collector was stopped.
    pub fn tick(
        &mut self,
        timestamp: Option<u64>,
        stat: Option<&str>,
        meminfo: Option<&str>,
        diskstats: Option<&str>,
        netdev: Option<&str>,
    ) -> (pause: Option<u64>)
        ensures
            (final(self)@, pause) == after_tick(
                old(self)@,
                timestamp,
                text_of(stat),
                text_of(meminfo),
                text_of(diskstats),
                text_of(netdev),
            ),
    {
        if !self.is_running() {
            return None;
        }
        let interval = self.interval_ms();
        match timestamp {
            Some(now) => {
                match self.collect(now, stat, meminfo, diskstats, netdev) {
                    Some(sample) => {
                        self.store(sample);
                    },
                    None => {},
                }
            },
            None => {},
        }
        Some(interval)
    }

    /// Stores a sample in the history. A full history loses its oldest
    /// sample first.
    pub fn store(&mut self, sample: MetricsSample)
        ensures
            final(self)@ == (SamplerState {
                history: stored(old(self)@.history, sample),
                ..old(self)@
            }),
    {
        proof {
            use_type_invariant(&*self);
        }
        let mut history: VecDeque<MetricsSample> = VecDeque::new();
        core::mem::swap(&mut self.metrics_history, &mut history);
        if history.len() >= MAX_METRICS_HISTORY {
            history.pop_front();
        }
        history.push_back(sample);
        proof {
            let before = old(self).metrics_history@;
            assert(before.subrange(1, before.len() as int) =~= before.skip(1));
        }
        core::mem::swap(&mut self.metrics_history, &mut history);
    }
}

/// Initialize the collector of the process in `slot`, once: an empty slot
/// gets a new collector, a filled one stays as it is. Returns whether a
/// collector was made.
pub fn init_global_telemetry(slot: &mut Option<TelemetryCollector>, interval_ms: u64) -> (made:
    bool)
    ensures
        made == (*old(slot) is None),
        *old(slot) is Some ==> *final(slot) == *old(slot),
        *old(slot) is None ==> *final(slot) is Some && (*final(slot))->0@ == (SamplerState {
            interval_ms,
            running: false,
            history: Seq::empty(),
            prev_cpu: None,
            prev_io: None,
            prev_net: None,
        }),
{
    if slot.is_some() {
        return false;
    }
    *slot = Some(TelemetryCollector::new(interval_ms));
    true
}

/// Start the collector of the process, if there is one. Returns whether
/// the caller has to start the background sampler.
pub fn start_global_telemetry(slot: &mut Option<TelemetryCollector>) -> (launch: bool)
    ensures
        launch == (*old(slot) is Some && !(*old(slot))->0@.running),
        *old(slot) is None ==> *final(slot) is None,
        *old(slot) is Some ==> *final(slot) is Some && (*final(slot))->0@ == (SamplerState {
            running: true,
            ..(*old(slot))->0@
        }),
{
    match slot {
        Some(collector) => collector.start(),
        None => false,
    }
}

/// Get the latest snapshot of the collector of the process, if there is
/// one.
pub fn get_global_snapshot(slot: &Option<TelemetryCollector>) -> (r: Option<MetricsSample>)
    ensures
        r == if *slot is Some && slot->0@.history.len() > 0 {
            Some(slot->0@.history.last())
        } else {
            None
        },
{
    match slot {
        Some(collector) => collector.get_snapshot(),
        None => None,
    }
}

} // verus!
