use vstd::prelude::*;
use crate::fixed::{milli_percent, milli_percent_spec};

verus! {

/// Processor figures of one report.
#[derive(Debug)]
pub struct CpuMetrics {
    /// Aggregate usage, thousandths of a percent.
    pub usage_percent: u64,
    /// Per-core breakdown; empty unless a detailed report was asked for.
    pub cores: Vec<CoreMetrics>,
    /// Package temperature, thousandths of a degree Celsius.
    pub temperature: Option<i32>,
    /// Current clock, hertz.
    pub frequency: Option<u64>,
    /// Load averages over 1, 5 and 15 minutes, in thousandths.
    pub load_average: (u64, u64, u64),
}

/// Usage of one logical core.
#[derive(Debug)]
pub struct CoreMetrics {
    pub id: usize,
    /// Thousandths of a percent.
    pub usage_percent: u64,
    pub frequency: Option<u64>,
}

/// Main memory and swap, in bytes.
#[derive(Debug)]
pub struct MemoryMetrics {
    pub total: u64,
    pub used: u64,
    pub available: u64,
    /// `used` as a share of `total`, thousandths of a percent.
    pub percentage: u64,
    pub swap_total: u64,
    pub swap_used: u64,
    /// `swap_used` as a share of `swap_total`, thousandths of a percent.
    pub swap_percentage: u64,
    pub buffers: u64,
    pub cached: u64,
}

/// One mounted volume, sizes in bytes.
#[derive(Debug)]
pub struct StorageMetrics {
    pub name: String,
    pub mount_point: String,
    pub total: u64,
    pub used: u64,
    pub available: u64,
    /// `used` as a share of `total`, thousandths of a percent.
    pub percentage: u64,
    pub filesystem: String,
}

/// Traffic counters of every interface, with their sums.
#[derive(Debug)]
pub struct NetworkMetrics {
    pub interfaces: Vec<NetworkInterface>,
    pub total_bytes_sent: u64,
    pub total_bytes_received: u64,
}

/// Cumulative counters of one network interface.
#[derive(Debug)]
pub struct NetworkInterface {
    pub name: String,
    pub bytes_sent: u64,
    pub bytes_received: u64,
    pub packets_sent: u64,
    pub packets_received: u64,
    pub errors_sent: u64,
    pub errors_received: u64,
}

/// Static description of the host.
#[derive(Debug)]
pub struct SystemInfo {
    pub os_name: String,
    pub os_version: String,
    pub kernel_version: String,
    pub architecture: String,
    pub cpu_count: usize,
}

/// One entry of the process table.
#[derive(Debug)]
pub struct ProcessInfo {
    pub pid: u32,
    pub name: String,
    /// Thousandths of a percent of one core.
    pub cpu_usage: u64,
    /// Resident memory, bytes.
    pub memory_usage: u64,
    /// `memory_usage` as a share of total memory, thousandths of a percent.
    pub memory_percentage: u64,
}

/// `a - b`, or zero where `b` exceeds `a`.
pub open spec fn saturating_diff(a: nat, b: nat) -> nat {
    if a >= b {
        (a - b) as nat
    } else {
        0
    }
}

/// `min(s, u64::MAX)`.
pub open spec fn capped(s: int) -> int {
    if s > u64::MAX {
        u64::MAX as int
    } else {
        s
    }
}

impl MemoryMetrics {
    /// The memory record for the given counters: both percentages are
    /// derived from their byte counts.
    pub fn new(
        total: u64,
        used: u64,
        available: u64,
        swap_total: u64,
        swap_used: u64,
        buffers: u64,
        cached: u64,
    ) -> (r: MemoryMetrics)
        ensures
            r.total == total,
            r.used == used,
            r.available == available,
            r.percentage == milli_percent_spec(used as nat, total as nat),
            r.swap_total == swap_total,
            r.swap_used == swap_used,
            r.swap_percentage == milli_percent_spec(swap_used as nat, swap_total as nat),
            r.buffers == buffers,
            r.cached == cached,
    {
        MemoryMetrics {
            total,
            used,
            available,
            percentage: milli_percent(used, total),
            swap_total,
            swap_used,
            swap_percentage: milli_percent(swap_used, swap_total),
            buffers,
            cached,
        }
    }
}

impl StorageMetrics {
    /// The record of a volume of `total` bytes of which `available` are free:
    /// the used size is the difference (zero where `available` exceeds
    /// `total`) and the percentage is its share of `total`.
    pub fn new(
        name: String,
        mount_point: String,
        total: u64,
        available: u64,
        filesystem: String,
    ) -> (r: StorageMetrics)
        ensures
            r.name == name,
            r.mount_point == mount_point,
            r.total == total,
            r.available == available,
            r.used == saturating_diff(total as nat, available as nat),
            r.percentage == milli_percent_spec(r.used as nat, total as nat),
            r.filesystem == filesystem,
    {
        let used: u64 = if total >= available { total - available } else { 0 };
        StorageMetrics {
            name,
            mount_point,
            total,
            used,
            available,
            percentage: milli_percent(used, total),
            filesystem,
        }
    }
}

impl ProcessInfo {
    /// The entry of a process holding `memory_usage` bytes on a host with
    /// `total_memory` bytes.
    pub fn new(pid: u32, name: String, cpu_usage: u64, memory_usage: u64, total_memory: u64) -> (r:
        ProcessInfo)
        ensures
            r.pid == pid,
            r.name == name,
            r.cpu_usage == cpu_usage,
            r.memory_usage == memory_usage,
            r.memory_percentage == milli_percent_spec(memory_usage as nat, total_memory as nat),
    {
        ProcessInfo {
            pid,
            name,
            cpu_usage,
            memory_usage,
            memory_percentage: milli_percent(memory_usage, total_memory),
        }
    }

    /// A field-by-field copy.
    pub fn duplicate(&self) -> (r: ProcessInfo)
        ensures
            r == *self,
    {
        ProcessInfo {
            pid: self.pid,
            name: self.name.clone(),
            cpu_usage: self.cpu_usage,
            memory_usage: self.memory_usage,
            memory_percentage: self.memory_percentage,
        }
    }
}

/// Sum of the bytes sent over `s`.
pub open spec fn sent_sum(s: Seq<NetworkInterface>) -> int
    decreases s.len(),
{
    if s.len() == 0 {
        0
    } else {
        sent_sum(s.drop_last()) + s.last().bytes_sent
    }
}

/// Sum of the bytes received over `s`.
pub open spec fn received_sum(s: Seq<NetworkInterface>) -> int
    decreases s.len(),
{
    if s.len() == 0 {
        0
    } else {
        received_sum(s.drop_last()) + s.last().bytes_received
    }
}

proof fn lemma_sums_nonneg(s: Seq<NetworkInterface>)
    ensures
        sent_sum(s) >= 0,
        received_sum(s) >= 0,
    decreases s.len(),
{
    if s.len() > 0 {
        lemma_sums_nonneg(s.drop_last());
    }
}

impl NetworkMetrics {
    /// The network record of `interfaces`, kept in their order, with the
    /// totals summed over all of them (held at `u64::MAX` where a sum does not
    /// fit).
    pub fn from_interfaces(interfaces: Vec<NetworkInterface>) -> (r: NetworkMetrics)
        ensures
            r.interfaces@ == interfaces@,
            r.total_bytes_sent == capped(sent_sum(interfaces@)),
            r.total_bytes_received == capped(received_sum(interfaces@)),
    {
        let mut sent: u64 = 0;
        let mut received: u64 = 0;
        let mut i: usize = 0;
        while i < interfaces.len()
            invariant
                i <= interfaces@.len(),
                sent == capped(sent_sum(interfaces@.subrange(0, i as int))),
                received == capped(received_sum(interfaces@.subrange(0, i as int))),
            decreases interfaces@.len() - i,
        {
            let ghost prefix = interfaces@.subrange(0, i as int);
            let ghost next = interfaces@.subrange(0, i + 1);
            assert(next.drop_last() == prefix);
            proof {
                lemma_sums_nonneg(prefix);
            }
            sent = sent.saturating_add(interfaces[i].bytes_sent);
            received = received.saturating_add(interfaces[i].bytes_received);
            i = i + 1;
        }
        assert(interfaces@.subrange(0, interfaces@.len() as int) == interfaces@);
        NetworkMetrics { interfaces, total_bytes_sent: sent, total_bytes_received: received }
    }
}

} // verus!
