use elf_cleaner::fields::{is_whitespace, parse_number, split_fields, split_lines};
use elf_cleaner::telemetry::{
    collect_memory_metrics, get_global_snapshot, init_global_telemetry, parse_cpu_stats,
    parse_io_stats, parse_net_stats, start_global_telemetry, CpuSample, CpuStats, IoMetrics,
    IoStats, MemorySample, MetricsSample, NetStats, NetworkMetrics, TelemetryCollector,
    DEFAULT_COLLECT_INTERVAL_MS, MAX_METRICS_HISTORY,
};

fn chars(text: &str) -> Vec<char> {
    text.chars().collect()
}

fn words(text: &str) -> Vec<String> {
    split_fields(&chars(text)).into_iter().map(|word| word.into_iter().collect()).collect()
}

fn rows(text: &str) -> Vec<String> {
    split_lines(text).into_iter().map(|line| line.into_iter().collect()).collect()
}

const STAT: &str = "cpu  1000 20 500 2000 30 0 5 0 0 0\ncpu0 500 10 250 1000 15 0 2 0 0 0\nintr 12345\n";

const MEMINFO: &str = "MemTotal:        4096000 kB\nMemFree:          100000 kB\nMemAvailable:    2048000 kB\nBuffers:           20000 kB\n";

const DISKSTATS: &str = "   8       0 sda 10 0 2 0 20 0 4 0 0 0 0 0 0 0 0\n   8       1 sda1 1 0 1 0 1 0 1 0 0 0\n 253       0 dm-0 5 0 x 0 7 0 + 0 0 0 0\n";

const NETDEV: &str = "Inter-|   Receive                                                |  Transmit\n face |bytes    packets errs drop fifo frame compressed multicast|bytes    packets errs drop fifo colls carrier compressed\n    lo: 999 9 0 0 0 0 0 0 999 9 0 0 0 0 0 0\n  eth0: 4096 100 0 0 0 0 0 0 8192 200 0 0 0 0 0 0\n wlan0: 4 1 0 0 0 0 0 0 8 2 0 0 0 0 0 0\n";

#[test]
fn white_space_is_that_of_std() {
    for code in 0..=0x3100u32 {
        if let Some(c) = char::from_u32(code) {
            assert_eq!(is_whitespace(c), c.is_whitespace(), "U+{:04X}", code);
        }
    }
    assert!(!is_whitespace('\u{10FFFF}'));
}

#[test]
fn fields_are_those_of_split_whitespace() {
    for text in [
        "",
        " ",
        "a",
        " a",
        "a ",
        "  cpu  1000\t20 \u{3000}500\r",
        "eth0: 1 2",
        "a\u{a0}b\u{2003}c",
        "é ü",
    ] {
        let expected: Vec<String> = text.split_whitespace().map(str::to_string).collect();
        assert_eq!(words(text), expected, "{:?}", text);
    }
}

#[test]
fn lines_are_those_of_std() {
    for text in
        ["", "\n", "a", "a\n", "a\n\n", "a\r\nb", "a\rb\n", "a\r", "\r\n", "a\n\r", "\n\nb\r\n\r\n", "a\r\r\n"]
    {
        let expected: Vec<String> = text.lines().map(str::to_string).collect();
        assert_eq!(rows(text), expected, "{:?}", text);
    }
}

#[test]
fn numbers_are_those_of_std() {
    for text in [
        "0",
        "7",
        "007",
        "+5",
        "+",
        "",
        "-5",
        "-0",
        "++5",
        "5+",
        "12a",
        " 1",
        "18446744073709551615",
        "18446744073709551616",
        "018446744073709551615",
        "99999999999999999999999",
        "+18446744073709551615",
        "٣",
    ] {
        assert_eq!(parse_number(&chars(text)), text.parse::<u64>().ok(), "{:?}", text);
    }
}

#[test]
fn cpu_times_come_from_the_first_line() {
    assert_eq!(
        parse_cpu_stats(STAT),
        Some(CpuStats { user: 1000, system: 500, idle: 2000, total: 3500 })
    );
    assert_eq!(parse_cpu_stats(""), None);
    assert_eq!(parse_cpu_stats("\ncpu 1 2 3 4\n"), None);
    assert_eq!(parse_cpu_stats("cpu 1 2 3\n"), None);
    assert_eq!(parse_cpu_stats("cpu0 1 2 3 4\n"), None);
    assert_eq!(parse_cpu_stats("cpu 1 2 x 4\n"), None);
    assert_eq!(parse_cpu_stats("cpu 1 x 3 4\n"), Some(CpuStats { user: 1, system: 3, idle: 4, total: 8 }));
    assert_eq!(
        parse_cpu_stats("cpu 18446744073709551615 0 1 1"),
        Some(CpuStats { user: u64::MAX, system: 1, idle: 1, total: 1 })
    );
}

#[test]
fn memory_comes_from_two_lines() {
    assert_eq!(
        collect_memory_metrics(MEMINFO, 77),
        Some(MemorySample { total_kb: 4096000, available_kb: 2048000, used_kb: 2048000, timestamp: 77 })
    );
    assert_eq!(
        collect_memory_metrics("", 1),
        Some(MemorySample { total_kb: 0, available_kb: 0, used_kb: 0, timestamp: 1 })
    );
    assert_eq!(
        collect_memory_metrics("MemTotal: 5 kB\nMemAvailable: 9 kB\nMemTotal: 6 kB", 1),
        Some(MemorySample { total_kb: 6, available_kb: 9, used_kb: 0, timestamp: 1 })
    );
    assert_eq!(collect_memory_metrics("MemTotal:\nMemAvailable: 9 kB\n", 1), None);
    assert_eq!(collect_memory_metrics("MemTotal: many kB\n", 1), None);
    assert_eq!(collect_memory_metrics("MemAvailable:7 kB\n", 1), None);
    assert_eq!(
        collect_memory_metrics(" MemTotal: 7 kB\n", 1),
        Some(MemorySample { total_kb: 0, available_kb: 0, used_kb: 0, timestamp: 1 })
    );
}

#[test]
fn disk_counters_are_summed() {
    assert_eq!(
        parse_io_stats(DISKSTATS),
        IoStats { read_ops: 15, read_bytes: 2 * 512, write_ops: 27, write_bytes: 4 * 512 }
    );
    assert_eq!(parse_io_stats(""), IoStats { read_ops: 0, read_bytes: 0, write_ops: 0, write_bytes: 0 });
    let wide = "8 0 sda 18446744073709551615 0 36028797018963968 0 1 0 1 0 0 0 0\n8 0 sdb 2 0 1 0 1 0 1 0 0 0 0\n";
    assert_eq!(
        parse_io_stats(wide),
        IoStats { read_ops: 1, read_bytes: 512, write_ops: 2, write_bytes: 1024 }
    );
}

#[test]
fn network_counters_leave_out_headings_and_loopback() {
    assert_eq!(
        parse_net_stats(NETDEV),
        NetStats { rx_bytes: 4100, rx_packets: 101, tx_bytes: 8200, tx_packets: 202 }
    );
    assert_eq!(
        parse_net_stats("eth0: 1 1 0 0 0 0 0 0 1 1 0\neth1: 1 1 0 0 0 0 0 0 1 1 0\n"),
        NetStats { rx_bytes: 0, rx_packets: 0, tx_bytes: 0, tx_packets: 0 }
    );
    assert_eq!(
        parse_net_stats("h\nh\neth0: 1 2 0 0 0 0 0 0 3\neth1: 5 6 0 0 0 0 0 0 7 8\n"),
        NetStats { rx_bytes: 5, rx_packets: 6, tx_bytes: 7, tx_packets: 8 }
    );
}

#[test]
fn a_first_round_has_no_deltas_and_a_second_has() {
    let mut collector = TelemetryCollector::new(DEFAULT_COLLECT_INTERVAL_MS);
    assert_eq!(collector.interval_ms(), 1000);
    let first = collector.collect(50, Some(STAT), Some(MEMINFO), Some(DISKSTATS), Some(NETDEV)).unwrap();
    assert_eq!(
        first,
        MetricsSample {
            cpu: CpuSample {
                user_time: 1000,
                system_time: 500,
                idle_time: 2000,
                delta_total: 0,
                delta_idle: 0,
                timestamp: 50,
            },
            memory: MemorySample { total_kb: 4096000, available_kb: 2048000, used_kb: 2048000, timestamp: 50 },
            io: IoMetrics { read_bytes: 0, write_bytes: 0, read_ops: 0, write_ops: 0, timestamp: 50 },
            network: NetworkMetrics { rx_bytes: 0, tx_bytes: 0, rx_packets: 0, tx_packets: 0, timestamp: 50 },
            timestamp: 50,
        }
    );
    let second = collector
        .collect(
            51,
            Some("cpu 1100 20 550 2250 30\n"),
            Some(MEMINFO),
            Some("8 0 sda 25 0 4 0 20 0 4 0 0 0 0\n"),
            Some("h\nh\neth0: 5000 111 0 0 0 0 0 0 8000 300 0\n"),
        )
        .unwrap();
    assert_eq!(
        second.cpu,
        CpuSample {
            user_time: 1100,
            system_time: 550,
            idle_time: 2250,
            delta_total: 400,
            delta_idle: 250,
            timestamp: 51,
        }
    );
    assert_eq!(
        second.io,
        IoMetrics { read_bytes: 1024, write_bytes: 0, read_ops: 10, write_ops: 0, timestamp: 51 }
    );
    assert_eq!(
        second.network,
        NetworkMetrics { rx_bytes: 900, tx_bytes: 0, rx_packets: 10, tx_packets: 98, timestamp: 51 }
    );
    assert_eq!(collector.history_len(), 0);
    assert_eq!(collector.get_snapshot(), None);
}

#[test]
fn a_round_ends_at_the_first_file_that_fails() {
    let mut collector = TelemetryCollector::new(10);
    assert_eq!(collector.collect(1, None, Some(MEMINFO), Some(DISKSTATS), Some(NETDEV)), None);
    assert_eq!(collector.collect(1, Some("cpu"), Some(MEMINFO), Some(DISKSTATS), Some(NETDEV)), None);
    // the processor reading is kept although the round fails at the memory
    assert_eq!(collector.collect(1, Some(STAT), Some("MemTotal: x"), Some(DISKSTATS), Some(NETDEV)), None);
    assert_eq!(collector.collect(2, Some(STAT), None, Some(DISKSTATS), Some(NETDEV)), None);
    assert_eq!(collector.collect(2, Some(STAT), Some(MEMINFO), None, Some(NETDEV)), None);
    assert_eq!(collector.collect(2, Some(STAT), Some(MEMINFO), Some(""), None), None);
    let sample = collector
        .collect(3, Some("cpu 1001 20 500 2001 30\n"), Some(MEMINFO), Some(DISKSTATS), Some(NETDEV))
        .unwrap();
    assert_eq!(sample.cpu.delta_total, 2);
    assert_eq!(sample.cpu.delta_idle, 1);
    // the disk reading of the failed round was empty
    assert_eq!(sample.io.read_ops, 15);
    // no network reading was taken before
    assert_eq!(sample.network.rx_bytes, 0);
}

#[test]
fn the_sample_history_is_bounded() {
    let mut collector = TelemetryCollector::new(10);
    for n in 0..(MAX_METRICS_HISTORY as u64 + 3) {
        let sample = collector.collect(n, Some(STAT), Some(MEMINFO), Some(DISKSTATS), Some(NETDEV)).unwrap();
        collector.store(sample);
    }
    assert_eq!(collector.history_len(), 100);
    let history = collector.get_history();
    assert_eq!(history.len(), 100);
    assert_eq!(history[0].timestamp, 3);
    assert_eq!(history[99].timestamp, 102);
    assert_eq!(collector.get_snapshot().unwrap().timestamp, 102);
}

#[test]
fn starting_twice_launches_once() {
    let mut collector = TelemetryCollector::new(10);
    assert!(!collector.is_running());
    assert!(collector.start());
    assert!(collector.is_running());
    assert!(!collector.start());
    collector.stop();
    assert!(!collector.is_running());
    assert!(collector.start());
}

#[test]
fn the_global_collector_is_made_once() {
    let mut slot = None;
    assert!(!start_global_telemetry(&mut slot));
    assert_eq!(get_global_snapshot(&slot), None);
    assert!(init_global_telemetry(&mut slot, 250));
    assert!(!init_global_telemetry(&mut slot, 500));
    assert_eq!(slot.as_ref().unwrap().interval_ms(), 250);
    assert_eq!(get_global_snapshot(&slot), None);
    assert!(start_global_telemetry(&mut slot));
    assert!(!start_global_telemetry(&mut slot));
    let collector = slot.as_mut().unwrap();
    let sample = collector.collect(9, Some(STAT), Some(MEMINFO), Some(DISKSTATS), Some(NETDEV)).unwrap();
    collector.store(sample);
    assert_eq!(get_global_snapshot(&slot), Some(sample));
}

#[test]
fn a_tick_samples_while_the_collector_runs() {
    let mut collector = TelemetryCollector::new(250);
    // stopped: nothing is read, no pause is asked for
    assert_eq!(collector.tick(Some(1), Some(STAT), Some(MEMINFO), Some(DISKSTATS), Some(NETDEV)), None);
    assert_eq!(collector.history_len(), 0);
    assert_eq!(collector.previous_cpu(), None);

    assert!(collector.start());
    assert_eq!(
        collector.tick(Some(7), Some(STAT), Some(MEMINFO), Some(DISKSTATS), Some(NETDEV)),
        Some(250)
    );
    assert_eq!(collector.history_len(), 1);
    assert_eq!(collector.get_snapshot().unwrap().timestamp, 7);
    assert_eq!(
        collector.previous_cpu(),
        Some(CpuStats { user: 1000, system: 500, idle: 2000, total: 3500 })
    );

    // a round that fails stores nothing but still pauses
    assert_eq!(collector.tick(Some(8), Some(STAT), None, Some(DISKSTATS), Some(NETDEV)), Some(250));
    assert_eq!(collector.tick(None, Some(STAT), Some(MEMINFO), Some(DISKSTATS), Some(NETDEV)), Some(250));
    assert_eq!(collector.history_len(), 1);

    assert_eq!(
        collector.tick(Some(9), Some("cpu 1010 0 500 2090 0"), Some(MEMINFO), Some(DISKSTATS), Some(NETDEV)),
        Some(250)
    );
    let last = collector.get_snapshot().unwrap();
    assert_eq!(last.timestamp, 9);
    assert_eq!(last.cpu.delta_total, 100);
    assert_eq!(last.cpu.delta_idle, 90);
    assert!(last.cpu.delta_idle <= last.cpu.delta_total);

    collector.stop();
    assert_eq!(collector.tick(Some(10), Some(STAT), Some(MEMINFO), Some(DISKSTATS), Some(NETDEV)), None);
    assert_eq!(collector.history_len(), 2);
}
