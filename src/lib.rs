//! Point-in-time host telemetry: the metric records of one report, the
//! fixed-point arithmetic that derives percentages from raw counters, the
//! parsers for the kernel's pseudo-files, the ranking of processes and the
//! threshold rules that turn a report into advisory alerts.
//!
//! Every reading is an integer in a fixed-point unit: percentages and load
//! figures are thousandths (97.5% is `97500`), temperatures are thousandths
//! of a degree Celsius, frequencies are hertz and sizes are bytes.
mod fixed;
mod metrics;
mod alerts;
mod ranking;
mod text;
mod sysfs;
mod report;

pub use alerts::{
    generate_alerts, lemma_alert_order, lemma_thresholds_exclusive, Alert, AlertLevel, AlertRecord,
    CPU_CRITICAL, CPU_WARNING, DISK_CRITICAL, DISK_WARNING, MEMORY_CRITICAL, MEMORY_WARNING,
    TEMPERATURE_CRITICAL, TEMPERATURE_WARNING,
};
pub use fixed::{milli_percent, MILLI_PER_PERCENT};
pub use metrics::{
    CoreMetrics, CpuMetrics, MemoryMetrics, NetworkInterface, NetworkMetrics, ProcessInfo,
    StorageMetrics, SystemInfo,
};
pub use ranking::{rank_by_usage, top_processes};
pub use report::{DiskSample, HostSample, ProcessSample, SystemMetrics};
pub use sysfs::{cpu_frequency, cpu_temperature, memory_details, parse_millidegrees};
pub use text::{parse_i32, parse_u64};
