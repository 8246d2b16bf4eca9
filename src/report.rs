use vstd::prelude::*;
use vstd::string::*;
use crate::alerts::{generate_alerts, records_of, report_alerts, Alert};
use crate::fixed::milli_percent_spec;
use crate::metrics::{
    capped, received_sum, saturating_diff, sent_sum, CoreMetrics, CpuMetrics, MemoryMetrics,
    NetworkInterface, NetworkMetrics, ProcessInfo, StorageMetrics, SystemInfo,
};
use crate::ranking::is_top_selection;
use crate::sysfs::{cpu_frequency, cpu_temperature, first_zone_from, frequency_hz_spec, memory_details, scan_lines};

verus! {

/// One report on the host.
#[derive(Debug)]
pub struct SystemMetrics {
    /// Seconds since the Unix epoch.
    pub timestamp: u64,
    pub hostname: String,
    /// Seconds since boot.
    pub uptime: u64,
    /// Seconds since the Unix epoch.
    pub boot_time: u64,
    pub cpu: CpuMetrics,
    pub memory: MemoryMetrics,
    pub storage: Vec<StorageMetrics>,
    pub network: NetworkMetrics,
    pub system: SystemInfo,
    /// Present only where the process table was asked for.
    pub processes: Option<Vec<ProcessInfo>>,
    pub alerts: Vec<Alert>,
}

/// A mounted volume as the operating system lists it.
#[derive(Debug)]
pub struct DiskSample {
    pub name: String,
    pub mount_point: String,
    pub total: u64,
    pub available: u64,
    pub filesystem: String,
}

/// A process as the operating system lists it.
#[derive(Debug)]
pub struct ProcessSample {
    pub pid: u32,
    pub name: String,
    /// Thousandths of a percent of one core.
    pub cpu_usage: u64,
    /// Resident memory, bytes.
    pub memory: u64,
}

/// Everything read from the host for one report, before any of it is
/// interpreted. Usages and load figures are thousandths; the pseudo-file
/// contents are raw bytes, and a file that could not be read is absent.
#[derive(Debug)]
pub struct HostSample {
    pub timestamp: u64,
    pub hostname: Option<String>,
    pub uptime: u64,
    pub boot_time: u64,
    pub global_cpu_usage: u64,
    pub core_usages: Vec<u64>,
    /// Contents of the thermal-zone files that could be read, in the order
    /// they are consulted.
    pub thermal_zones: Vec<Vec<u8>>,
    pub scaling_frequency: Option<Vec<u8>>,
    pub load_average: (u64, u64, u64),
    pub total_memory: u64,
    pub used_memory: u64,
    pub available_memory: u64,
    pub total_swap: u64,
    pub used_swap: u64,
    pub meminfo: Option<Vec<u8>>,
    pub disks: Vec<DiskSample>,
    pub interfaces: Vec<NetworkInterface>,
    pub os_name: Option<String>,
    pub os_version: Option<String>,
    pub kernel_version: Option<String>,
    pub architecture: String,
    pub processes: Vec<ProcessSample>,
}

/// The text of `s`, or `fallback` where it is absent.
pub open spec fn text_or(s: Option<String>, fallback: Seq<char>) -> Seq<char> {
    match s {
        Some(t) => t@,
        None => fallback,
    }
}

fn string_or(s: Option<String>, fallback: &str) -> (r: String)
    ensures
        r@ == text_or(s, fallback@),
{
    match s {
        Some(t) => t,
        None => String::from_str(fallback),
    }
}

/// Core `id` with the given usage.
pub open spec fn core_record(id: int, usage: u64) -> CoreMetrics {
    CoreMetrics { id: id as usize, usage_percent: usage, frequency: None }
}

/// The processor record: the cores are listed only in a detailed report.
pub open spec fn cpu_record_matches(
    r: CpuMetrics,
    usage_percent: u64,
    core_usages: Seq<u64>,
    detailed: bool,
    thermal_zones: Seq<Vec<u8>>,
    scaling_frequency: Option<Vec<u8>>,
    load_average: (u64, u64, u64),
) -> bool {
    &&& r.usage_percent == usage_percent
    &&& r.cores@.len() == if detailed { core_usages.len() } else { 0 }
    &&& forall|i: int| 0 <= i < r.cores@.len() ==> r.cores@[i] == core_record(i, core_usages[i])
    &&& r.temperature == first_zone_from(thermal_zones, 0)
    &&& r.frequency == match scaling_frequency {
        Some(c) => frequency_hz_spec(c@),
        None => None,
    }
    &&& r.load_average == load_average
}

impl CpuMetrics {
    /// The processor record from the usages, the thermal-zone and
    /// scaling-frequency contents and the load figures.
    pub fn from_readings(
        usage_percent: u64,
        core_usages: &Vec<u64>,
        detailed: bool,
        thermal_zones: &Vec<Vec<u8>>,
        scaling_frequency: &Option<Vec<u8>>,
        load_average: (u64, u64, u64),
    ) -> (r: CpuMetrics)
        ensures
            cpu_record_matches(
                r,
                usage_percent,
                core_usages@,
                detailed,
                thermal_zones@,
                *scaling_frequency,
                load_average,
            ),
    {
        let mut cores: Vec<CoreMetrics> = Vec::new();
        if detailed {
            let mut i: usize = 0;
            while i < core_usages.len()
                invariant
                    i <= core_usages@.len(),
                    cores@.len() == i,
                    forall|q: int| 0 <= q < i ==> cores@[q] == core_record(q, core_usages@[q]),
                decreases core_usages@.len() - i,
            {
                cores.push(CoreMetrics { id: i, usage_percent: core_usages[i], frequency: None });
                i = i + 1;
            }
        }
        let frequency = match scaling_frequency {
            Some(c) => cpu_frequency(c.as_slice()),
            None => None,
        };
        CpuMetrics {
            usage_percent,
            cores,
            temperature: cpu_temperature(thermal_zones),
            frequency,
            load_average,
        }
    }
}

impl SystemInfo {
    /// The host description; a name the system does not give reads `Unknown`.
    pub fn from_readings(
        os_name: Option<String>,
        os_version: Option<String>,
        kernel_version: Option<String>,
        architecture: String,
        cpu_count: usize,
    ) -> (r: SystemInfo)
        ensures
            r.os_name@ == text_or(os_name, "Unknown"@),
            r.os_version@ == text_or(os_version, "Unknown"@),
            r.kernel_version@ == text_or(kernel_version, "Unknown"@),
            r.architecture == architecture,
            r.cpu_count == cpu_count,
    {
        SystemInfo {
            os_name: string_or(os_name, "Unknown"),
            os_version: string_or(os_version, "Unknown"),
            kernel_version: string_or(kernel_version, "Unknown"),
            architecture,
            cpu_count,
        }
    }
}

/// The record of a listed volume.
pub open spec fn disk_record(d: DiskSample) -> StorageMetrics {
    let used = saturating_diff(d.total as nat, d.available as nat);
    StorageMetrics {
        name: d.name,
        mount_point: d.mount_point,
        total: d.total,
        used: used as u64,
        available: d.available,
        percentage: milli_percent_spec(used, d.total as nat) as u64,
        filesystem: d.filesystem,
    }
}

/// The record of a listed process on a host with `total_memory` bytes.
pub open spec fn process_record(p: ProcessSample, total_memory: u64) -> ProcessInfo {
    ProcessInfo {
        pid: p.pid,
        name: p.name,
        cpu_usage: p.cpu_usage,
        memory_usage: p.memory,
        memory_percentage: milli_percent_spec(p.memory as nat, total_memory as nat) as u64,
    }
}

/// One record per listed volume, in the order listed.
pub fn storage_records(disks: &Vec<DiskSample>) -> (r: Vec<StorageMetrics>)
    ensures
        r@.len() == disks@.len(),
        forall|i: int| 0 <= i < r@.len() ==> r@[i] == disk_record(disks@[i]),
{
    let mut r: Vec<StorageMetrics> = Vec::new();
    let mut i: usize = 0;
    while i < disks.len()
        invariant
            i <= disks@.len(),
            r@.len() == i,
            forall|q: int| 0 <= q < i ==> r@[q] == disk_record(disks@[q]),
        decreases disks@.len() - i,
    {
        let d = &disks[i];
        r.push(
            StorageMetrics::new(
                d.name.clone(),
                d.mount_point.clone(),
                d.total,
                d.available,
                d.filesystem.clone(),
            ),
        );
        i = i + 1;
    }
    r
}

/// One record per listed process, in the order listed.
pub fn process_records(processes: &Vec<ProcessSample>, total_memory: u64) -> (r: Vec<ProcessInfo>)
    ensures
        r@.len() == processes@.len(),
        forall|i: int| 0 <= i < r@.len() ==> r@[i] == process_record(processes@[i], total_memory),
{
    let mut r: Vec<ProcessInfo> = Vec::new();
    let mut i: usize = 0;
    while i < processes.len()
        invariant
            i <= processes@.len(),
            r@.len() == i,
            forall|q: int| 0 <= q < i ==> r@[q] == process_record(processes@[q], total_memory),
        decreases processes@.len() - i,
    {
        let p = &processes[i];
        r.push(ProcessInfo::new(p.pid, p.name.clone(), p.cpu_usage, p.memory, total_memory));
        i = i + 1;
    }
    r
}

/// The buffer and cache sizes of the memory-information contents, zero
/// where the file could not be read.
pub open spec fn details_of(meminfo: Option<Vec<u8>>) -> (u64, u64) {
    match meminfo {
        Some(c) => scan_lines(c@, 0, (0, 0)),
        None => (0, 0),
    }
}

impl SystemMetrics {
    /// The report on a sample of the host: per-core usages only where
    /// `detailed_cpu`, the `top_processes` busiest processes only where
    /// `include_processes`, and the alerts of the processor, memory and
    /// volume records.
    pub fn collect(
        sample: HostSample,
        detailed_cpu: bool,
        include_processes: bool,
        top_processes: usize,
    ) -> (r: SystemMetrics)
        ensures
            r.timestamp == sample.timestamp,
            r.hostname@ == text_or(sample.hostname, "unknown"@),
            r.uptime == sample.uptime,
            r.boot_time == sample.boot_time,
            cpu_record_matches(
                r.cpu,
                sample.global_cpu_usage,
                sample.core_usages@,
                detailed_cpu,
                sample.thermal_zones@,
                sample.scaling_frequency,
                sample.load_average,
            ),
            r.memory.total == sample.total_memory,
            r.memory.used == sample.used_memory,
            r.memory.available == sample.available_memory,
            r.memory.percentage == milli_percent_spec(sample.used_memory as nat, sample.total_memory as nat),
            r.memory.swap_total == sample.total_swap,
            r.memory.swap_used == sample.used_swap,
            r.memory.swap_percentage == milli_percent_spec(sample.used_swap as nat, sample.total_swap as nat),
            (r.memory.buffers, r.memory.cached) == details_of(sample.meminfo),
            r.storage@.len() == sample.disks@.len(),
            forall|i: int| 0 <= i < r.storage@.len() ==> r.storage@[i] == disk_record(sample.disks@[i]),
            r.network.interfaces@ == sample.interfaces@,
            r.network.total_bytes_sent == capped(sent_sum(sample.interfaces@)),
            r.network.total_bytes_received == capped(received_sum(sample.interfaces@)),
            r.system.os_name@ == text_or(sample.os_name, "Unknown"@),
            r.system.os_version@ == text_or(sample.os_version, "Unknown"@),
            r.system.kernel_version@ == text_or(sample.kernel_version, "Unknown"@),
            r.system.architecture == sample.architecture,
            r.system.cpu_count == sample.core_usages@.len(),
            include_processes <==> r.processes.is_some(),
            include_processes ==> is_top_selection(
                sample.processes@.map_values(|p: ProcessSample| process_record(p, sample.total_memory)),
                top_processes as int,
                r.processes.unwrap()@,
            ),
            records_of(r.alerts@) == report_alerts(r.cpu, r.memory, r.storage@),
    {
        let cpu = CpuMetrics::from_readings(
            sample.global_cpu_usage,
            &sample.core_usages,
            detailed_cpu,
            &sample.thermal_zones,
            &sample.scaling_frequency,
            sample.load_average,
        );
        let (buffers, cached) = match &sample.meminfo {
            Some(c) => memory_details(c.as_slice()),
            None => (0, 0),
        };
        let memory = MemoryMetrics::new(
            sample.total_memory,
            sample.used_memory,
            sample.available_memory,
            sample.total_swap,
            sample.used_swap,
            buffers,
            cached,
        );
        let storage = storage_records(&sample.disks);
        let processes = if include_processes {
            let table = process_records(&sample.processes, sample.total_memory);
            assert(table@ =~= sample.processes@.map_values(
                |p: ProcessSample| process_record(p, sample.total_memory),
            ));
            Some(crate::ranking::top_processes(&table, top_processes))
        } else {
            None
        };
        let alerts = generate_alerts(&cpu, &memory, &storage);
        let cpu_count = sample.core_usages.len();
        let HostSample {
            timestamp,
            hostname,
            uptime,
            boot_time,
            interfaces,
            os_name,
            os_version,
            kernel_version,
            architecture,
            ..
        } = sample;
        SystemMetrics {
            timestamp,
            hostname: string_or(hostname, "unknown"),
            uptime,
            boot_time,
            cpu,
            memory,
            storage,
            network: NetworkMetrics::from_interfaces(interfaces),
            system: SystemInfo::from_readings(os_name, os_version, kernel_version, architecture, cpu_count),
            processes,
            alerts,
        }
    }
}

} // verus!
