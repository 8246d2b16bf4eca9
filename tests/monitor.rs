use system_monitor::{
    cpu_frequency, cpu_temperature, generate_alerts, memory_details, milli_percent, parse_i32,
    parse_millidegrees, parse_u64, rank_by_usage, top_processes, AlertLevel, CpuMetrics,
    DiskSample, HostSample, MemoryMetrics, NetworkInterface, NetworkMetrics, ProcessInfo,
    ProcessSample, StorageMetrics, SystemInfo, SystemMetrics,
};

const GIB: u64 = 1 << 30;

fn cpu(usage: u64, temperature: Option<i32>) -> CpuMetrics {
    CpuMetrics {
        usage_percent: usage,
        cores: Vec::new(),
        temperature,
        frequency: None,
        load_average: (0, 0, 0),
    }
}

fn memory(used: u64, total: u64) -> MemoryMetrics {
    MemoryMetrics::new(total, used, total - used, 0, 0, 0, 0)
}

fn volume(mount: &str, total: u64, available: u64) -> StorageMetrics {
    StorageMetrics::new(
        "/dev/sda1".to_string(),
        mount.to_string(),
        total,
        available,
        "ext4".to_string(),
    )
}

fn interface(name: &str, sent: u64, received: u64) -> NetworkInterface {
    NetworkInterface {
        name: name.to_string(),
        bytes_sent: sent,
        bytes_received: received,
        packets_sent: 1,
        packets_received: 2,
        errors_sent: 0,
        errors_received: 0,
    }
}

fn sample() -> HostSample {
    HostSample {
        timestamp: 1_700_000_000,
        hostname: None,
        uptime: 3600,
        boot_time: 1_699_996_400,
        global_cpu_usage: 10_000,
        core_usages: vec![5_000, 15_000],
        thermal_zones: Vec::new(),
        scaling_frequency: None,
        load_average: (500, 400, 300),
        total_memory: 8 * GIB,
        used_memory: 2 * GIB,
        available_memory: 6 * GIB,
        total_swap: 0,
        used_swap: 0,
        meminfo: None,
        disks: Vec::new(),
        interfaces: Vec::new(),
        os_name: Some("Linux".to_string()),
        os_version: None,
        kernel_version: Some("6.1.0".to_string()),
        architecture: "aarch64".to_string(),
        processes: Vec::new(),
    }
}

#[test]
fn share_is_used_over_total() {
    assert_eq!(milli_percent(1, 4), 25_000);
    assert_eq!(milli_percent(1, 3), 33_333);
    assert_eq!(milli_percent(7, 7), 100_000);
    assert_eq!(milli_percent(5, 0), 0);
    assert_eq!(milli_percent(0, 0), 0);
    assert_eq!(milli_percent(u64::MAX, 1), u64::MAX);
}

#[test]
fn memory_and_swap_percentages() {
    let m = MemoryMetrics::new(1000, 250, 750, 2000, 500, 4096, 8192);
    assert_eq!(m.percentage, 25_000);
    assert_eq!(m.swap_percentage, 25_000);
    assert_eq!(m.buffers, 4096);
    assert_eq!(m.cached, 8192);
    let no_swap = MemoryMetrics::new(1000, 250, 750, 0, 0, 0, 0);
    assert_eq!(no_swap.swap_percentage, 0);
    let empty = MemoryMetrics::new(0, 0, 0, 0, 0, 0, 0);
    assert_eq!(empty.percentage, 0);
}

#[test]
fn storage_used_is_total_minus_available() {
    let v = volume("/", 1000, 400);
    assert_eq!(v.used, 600);
    assert_eq!(v.percentage, 60_000);
    assert_eq!(v.mount_point, "/");
    let empty = volume("/boot", 0, 0);
    assert_eq!(empty.used, 0);
    assert_eq!(empty.percentage, 0);
}

#[test]
fn alerts_come_in_fixed_order() {
    let storage = vec![volume("/", 100, 3), volume("/data", 100, 12), volume("/tmp", 100, 50)];
    let alerts = generate_alerts(&cpu(95_000, Some(80_000)), &memory(90, 100), &storage);
    let metrics: Vec<&str> = alerts.iter().map(|a| a.metric.as_str()).collect();
    assert_eq!(metrics, vec!["cpu_usage", "cpu_temperature", "memory_usage", "disk_usage", "disk_usage"]);
    assert_eq!(alerts[0].level, AlertLevel::Critical);
    assert_eq!(alerts[0].threshold, 90_000);
    assert_eq!(alerts[1].level, AlertLevel::Warning);
    assert_eq!(alerts[1].threshold, 75_000);
    assert_eq!(alerts[2].level, AlertLevel::Warning);
    assert_eq!(alerts[2].threshold, 85_000);
    assert_eq!(alerts[3].level, AlertLevel::Critical);
    assert_eq!(alerts[3].message, "Disco / crítico");
    assert_eq!(alerts[4].level, AlertLevel::Warning);
    assert_eq!(alerts[4].message, "Disco /data alto");
    assert_eq!(alerts[4].value, 88_000);
    let again = generate_alerts(&cpu(95_000, Some(80_000)), &memory(90, 100), &storage);
    let same: Vec<(String, u64)> = again.iter().map(|a| (a.message.clone(), a.value)).collect();
    let first: Vec<(String, u64)> = alerts.iter().map(|a| (a.message.clone(), a.value)).collect();
    assert_eq!(same, first);
}

#[test]
fn thresholds_are_exclusive() {
    let at = generate_alerts(&cpu(75_000, Some(75_000)), &memory(85, 100), &vec![volume("/", 100, 15)]);
    assert!(at.is_empty());
    let above = generate_alerts(&cpu(75_010, None), &memory(0, 100), &Vec::new());
    assert_eq!(above.len(), 1);
    assert_eq!(above[0].level, AlertLevel::Warning);
    assert_eq!(above[0].value, 75_010);
    let critical_edge = generate_alerts(&cpu(90_000, Some(85_000)), &memory(95, 100), &Vec::new());
    assert_eq!(critical_edge.len(), 3);
    assert!(critical_edge.iter().all(|a| a.level == AlertLevel::Warning));
    let hot = generate_alerts(&cpu(0, Some(85_001)), &memory(0, 100), &Vec::new());
    assert_eq!(hot.len(), 1);
    assert_eq!(hot[0].level, AlertLevel::Critical);
    assert_eq!(hot[0].message, "Temperatura CPU crítica");
}

#[test]
fn memory_nearly_full_is_one_critical_alert() {
    let total = 16 * GIB;
    let used = total / 1000 * 975;
    let alerts = generate_alerts(&cpu(0, None), &memory(used, total), &Vec::new());
    assert_eq!(alerts.len(), 1);
    assert_eq!(alerts[0].level, AlertLevel::Critical);
    assert_eq!(alerts[0].metric, "memory_usage");
    assert!(alerts[0].value >= 97_499 && alerts[0].value <= 97_500);
    assert_eq!(alerts[0].threshold, 95_000);
    assert_eq!(alerts[0].message, "Memoria RAM crítica");
}

#[test]
fn busy_cpu_without_temperature_is_one_warning() {
    let alerts = generate_alerts(&cpu(80_000, None), &memory(10, 100), &Vec::new());
    assert_eq!(alerts.len(), 1);
    assert_eq!(alerts[0].level, AlertLevel::Warning);
    assert_eq!(alerts[0].metric, "cpu_usage");
    assert_eq!(alerts[0].threshold, 75_000);
    assert_eq!(alerts[0].message, "CPU usage alto");
    assert!(!alerts.iter().any(|a| a.metric == "cpu_temperature"));
}

#[test]
fn unreadable_thermal_zones_leave_temperature_absent() {
    let mut s = sample();
    s.global_cpu_usage = 99_000;
    let report = SystemMetrics::collect(s, false, false, 5);
    assert_eq!(report.cpu.temperature, None);
    assert!(!report.alerts.iter().any(|a| a.metric == "cpu_temperature"));
    assert_eq!(cpu_temperature(&vec![b"garbage\n".to_vec(), b"".to_vec()]), None);
}

#[test]
fn no_volumes_no_storage_alerts() {
    let report = SystemMetrics::collect(sample(), false, false, 5);
    assert!(report.storage.is_empty());
    assert!(!report.alerts.iter().any(|a| a.metric == "disk_usage"));
}

#[test]
fn first_readable_zone_gives_temperature() {
    assert_eq!(parse_millidegrees(b"45000\n"), Some(45_000));
    assert_eq!(parse_millidegrees(b"  -5250 \n"), Some(-5_250));
    assert_eq!(parse_millidegrees(b"+12"), Some(12));
    assert_eq!(parse_millidegrees(b"2147483648"), None);
    assert_eq!(parse_millidegrees(b"-2147483648"), Some(i32::MIN));
    assert_eq!(parse_millidegrees(b"4 5"), None);
    assert_eq!(parse_millidegrees(b""), None);
    let zones = vec![b"n/a\n".to_vec(), b"61500\n".to_vec(), b"70000\n".to_vec()];
    assert_eq!(cpu_temperature(&zones), Some(61_500));
}

#[test]
fn frequency_is_kilohertz_times_thousand() {
    assert_eq!(cpu_frequency(b"1800000\n"), Some(1_800_000_000));
    assert_eq!(cpu_frequency(b"0"), Some(0));
    assert_eq!(cpu_frequency(b"-1"), None);
    assert_eq!(cpu_frequency(b"18446744073709552"), None);
    assert_eq!(cpu_frequency(b"fast"), None);
}

#[test]
fn integer_parsers() {
    let text = b"x12345y";
    assert_eq!(parse_u64(text, 1, 6), Some(12_345));
    assert_eq!(parse_u64(text, 0, 6), None);
    assert_eq!(parse_u64(b"18446744073709551615", 0, 20), Some(u64::MAX));
    assert_eq!(parse_u64(b"18446744073709551616", 0, 20), None);
    assert_eq!(parse_i32(b"-42", 0, 3), Some(-42));
    assert_eq!(parse_i32(b"-", 0, 1), None);
}

#[test]
fn meminfo_buffers_and_cached() {
    let text = b"MemTotal:       16384000 kB\nBuffers:          123456 kB\nCached:          2048 kB\nSwapCached:        999 kB\n";
    assert_eq!(memory_details(text), (123_456 * 1024, 2048 * 1024));
    assert_eq!(memory_details(b"Buffers: lots kB\nCached:\n"), (0, 0));
    assert_eq!(memory_details(b"Cached: 1\r\nCached: 2"), (0, 2048));
    assert_eq!(memory_details(b""), (0, 0));
    let mut s = sample();
    s.meminfo = Some(b"Buffers: 10 kB\nCached: 20 kB\n".to_vec());
    let report = SystemMetrics::collect(s, false, false, 5);
    assert_eq!(report.memory.buffers, 10_240);
    assert_eq!(report.memory.cached, 20_480);
}

#[test]
fn network_totals_sum_interfaces() {
    let n = NetworkMetrics::from_interfaces(vec![interface("lo", 10, 20), interface("eth0", 300, 400)]);
    assert_eq!(n.total_bytes_sent, 310);
    assert_eq!(n.total_bytes_received, 420);
    assert_eq!(n.interfaces[1].name, "eth0");
    let full = NetworkMetrics::from_interfaces(vec![interface("a", u64::MAX, 1), interface("b", 1, 1)]);
    assert_eq!(full.total_bytes_sent, u64::MAX);
    assert_eq!(full.total_bytes_received, 2);
    let none = NetworkMetrics::from_interfaces(Vec::new());
    assert_eq!(none.total_bytes_sent, 0);
}

fn process(pid: u32, usage: u64) -> ProcessInfo {
    ProcessInfo::new(pid, format!("p{}", pid), usage, 1024, 4096)
}

#[test]
fn top_processes_are_bounded_and_descending() {
    let table = vec![process(1, 10), process(2, 50), process(3, 30), process(4, 50), process(5, 0)];
    let top = top_processes(&table, 3);
    let pids: Vec<u32> = top.iter().map(|p| p.pid).collect();
    assert_eq!(pids, vec![2, 4, 3]);
    assert_eq!(top[0].memory_percentage, 25_000);
    let all = top_processes(&table, 10);
    let pids: Vec<u32> = all.iter().map(|p| p.pid).collect();
    assert_eq!(pids, vec![2, 4, 3, 1, 5]);
    assert!(top_processes(&table, 0).is_empty());
    assert_eq!(rank_by_usage(&vec![1, 3, 3, 2]), vec![1, 2, 3, 0]);
}

#[test]
fn report_from_sample() {
    let mut s = sample();
    s.thermal_zones = vec![b"52000\n".to_vec()];
    s.scaling_frequency = Some(b"1200000\n".to_vec());
    s.disks = vec![DiskSample {
        name: "nvme0n1p1".to_string(),
        mount_point: "/".to_string(),
        total: 1000,
        available: 10,
        filesystem: "ext4".to_string(),
    }];
    s.interfaces = vec![interface("eth0", 5, 6)];
    s.processes = vec![
        ProcessSample { pid: 7, name: "a".to_string(), cpu_usage: 1_000, memory: GIB },
        ProcessSample { pid: 8, name: "b".to_string(), cpu_usage: 9_000, memory: 2 * GIB },
    ];
    let report = SystemMetrics::collect(s, true, true, 1);
    assert_eq!(report.hostname, "unknown");
    assert_eq!(report.timestamp, 1_700_000_000);
    assert_eq!(report.cpu.cores.len(), 2);
    assert_eq!(report.cpu.cores[1].id, 1);
    assert_eq!(report.cpu.cores[1].usage_percent, 15_000);
    assert_eq!(report.cpu.temperature, Some(52_000));
    assert_eq!(report.cpu.frequency, Some(1_200_000_000));
    assert_eq!(report.memory.percentage, 25_000);
    assert_eq!(report.storage[0].percentage, 99_000);
    assert_eq!(report.network.total_bytes_sent, 5);
    assert_eq!(report.system.os_name, "Linux");
    assert_eq!(report.system.os_version, "Unknown");
    assert_eq!(report.system.cpu_count, 2);
    let procs = report.processes.unwrap();
    assert_eq!(procs.len(), 1);
    assert_eq!(procs[0].pid, 8);
    assert_eq!(procs[0].memory_percentage, 25_000);
    assert_eq!(report.alerts.len(), 1);
    assert_eq!(report.alerts[0].message, "Disco / crítico");
}

#[test]
fn plain_report_omits_cores_and_processes() {
    let report = SystemMetrics::collect(sample(), false, false, 5);
    assert!(report.cpu.cores.is_empty());
    assert!(report.processes.is_none());
    assert!(report.alerts.is_empty());
    let info = SystemInfo::from_readings(None, None, None, "x86_64".to_string(), 4);
    assert_eq!(info.kernel_version, "Unknown");
}
