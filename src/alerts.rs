use vstd::prelude::*;
use vstd::string::*;
use crate::metrics::{CpuMetrics, MemoryMetrics, StorageMetrics};

verus! {

/// Severity of an alert, from least to most severe.
#[derive(Debug, Clone, Copy, PartialEq, Eq, Structural)]
pub enum AlertLevel {
    Info,
    Warning,
    Critical,
}

/// An advisory raised when a reading exceeds a threshold. `value` and
/// `threshold` are in the reading's fixed-point unit (thousandths of a
/// percent, or of a degree Celsius).
#[derive(Debug)]
pub struct Alert {
    pub level: AlertLevel,
    pub message: String,
    pub metric: String,
    pub value: u64,
    pub threshold: u64,
}

/// What an alert says, as mathematical values.
pub struct AlertRecord {
    pub level: AlertLevel,
    pub message: Seq<char>,
    pub metric: Seq<char>,
    pub value: int,
    pub threshold: int,
}

pub open spec fn record_of(a: Alert) -> AlertRecord {
    AlertRecord {
        level: a.level,
        message: a.message@,
        metric: a.metric@,
        value: a.value as int,
        threshold: a.threshold as int,
    }
}

pub open spec fn records_of(s: Seq<Alert>) -> Seq<AlertRecord> {
    s.map_values(|a: Alert| record_of(a))
}

pub const CPU_WARNING: u64 = 75000;
pub const CPU_CRITICAL: u64 = 90000;
pub const TEMPERATURE_WARNING: u64 = 75000;
pub const TEMPERATURE_CRITICAL: u64 = 85000;
pub const MEMORY_WARNING: u64 = 85000;
pub const MEMORY_CRITICAL: u64 = 95000;
pub const DISK_WARNING: u64 = 85000;
pub const DISK_CRITICAL: u64 = 95000;

/// The alert of one reading: Critical above `critical`, else Warning above
/// `warning`, else none. Both bounds are exclusive.
pub open spec fn graded(
    value: int,
    warning: int,
    critical: int,
    metric: Seq<char>,
    warning_message: Seq<char>,
    critical_message: Seq<char>,
) -> Seq<AlertRecord> {
    if value > critical {
        seq![AlertRecord { level: AlertLevel::Critical, message: critical_message, metric, value, threshold: critical }]
    } else if value > warning {
        seq![AlertRecord { level: AlertLevel::Warning, message: warning_message, metric, value, threshold: warning }]
    } else {
        seq![]
    }
}

pub open spec fn cpu_alerts(usage: int) -> Seq<AlertRecord> {
    graded(usage, CPU_WARNING as int, CPU_CRITICAL as int, "cpu_usage"@, "CPU usage alto"@, "CPU usage crítico"@)
}

pub open spec fn temperature_alerts(temperature: Option<i32>) -> Seq<AlertRecord> {
    match temperature {
        Some(t) => graded(
            t as int,
            TEMPERATURE_WARNING as int,
            TEMPERATURE_CRITICAL as int,
            "cpu_temperature"@,
            "Temperatura CPU alta"@,
            "Temperatura CPU crítica"@,
        ),
        None => seq![],
    }
}

pub open spec fn memory_alerts(percentage: int) -> Seq<AlertRecord> {
    graded(
        percentage,
        MEMORY_WARNING as int,
        MEMORY_CRITICAL as int,
        "memory_usage"@,
        "Memoria RAM alta"@,
        "Memoria RAM crítica"@,
    )
}

pub open spec fn volume_alerts(percentage: int, mount_point: Seq<char>) -> Seq<AlertRecord> {
    graded(
        percentage,
        DISK_WARNING as int,
        DISK_CRITICAL as int,
        "disk_usage"@,
        "Disco "@ + mount_point + " alto"@,
        "Disco "@ + mount_point + " crítico"@,
    )
}

/// The alerts of each volume of `s`, in the order of the volumes.
pub open spec fn storage_alerts(s: Seq<StorageMetrics>) -> Seq<AlertRecord>
    decreases s.len(),
{
    if s.len() == 0 {
        seq![]
    } else {
        storage_alerts(s.drop_last()) + volume_alerts(s.last().percentage as int, s.last().mount_point@)
    }
}

/// Every alert of a report: processor usage, then temperature, then memory,
/// then each volume.
pub open spec fn report_alerts(cpu: CpuMetrics, memory: MemoryMetrics, storage: Seq<StorageMetrics>) -> Seq<AlertRecord> {
    cpu_alerts(cpu.usage_percent as int) + temperature_alerts(cpu.temperature) + memory_alerts(
        memory.percentage as int,
    ) + storage_alerts(storage)
}

fn text(s: &str) -> (r: String)
    ensures
        r@ == s@,
{
    String::from_str(s)
}

/// Pushes the alert that `graded` gives for `value`, if any.
fn push_graded(
    alerts: &mut Vec<Alert>,
    value: u64,
    warning: u64,
    critical: u64,
    metric: &str,
    warning_message: String,
    critical_message: String,
)
    ensures
        records_of(final(alerts)@) == records_of(old(alerts)@) + graded(
            value as int,
            warning as int,
            critical as int,
            metric@,
            warning_message@,
            critical_message@,
        ),
{
    let ghost before = alerts@;
    if value > critical {
        alerts.push(Alert { level: AlertLevel::Critical, message: critical_message, metric: text(metric), value, threshold: critical });
    } else if value > warning {
        alerts.push(Alert { level: AlertLevel::Warning, message: warning_message, metric: text(metric), value, threshold: warning });
    }
    assert(records_of(alerts@) =~= records_of(before) + graded(
        value as int,
        warning as int,
        critical as int,
        metric@,
        warning_message@,
        critical_message@,
    ));
}

/// `prefix + mount_point + suffix`.
fn volume_message(prefix: &str, mount_point: &String, suffix: &str) -> (r: String)
    ensures
        r@ == prefix@ + mount_point@ + suffix@,
{
    let mut m = String::from_str(prefix);
    m.append(mount_point.as_str());
    m.append(suffix);
    m
}

/// The alerts of a report, from the processor, memory and volume records.
pub fn generate_alerts(cpu: &CpuMetrics, memory: &MemoryMetrics, storage: &Vec<StorageMetrics>) -> (r: Vec<
    Alert,
>)
    ensures
        records_of(r@) == report_alerts(*cpu, *memory, storage@),
{
    let mut alerts: Vec<Alert> = Vec::new();
    assert(records_of(alerts@) =~= seq![]);
    push_graded(
        &mut alerts,
        cpu.usage_percent,
        CPU_WARNING,
        CPU_CRITICAL,
        "cpu_usage",
        text("CPU usage alto"),
        text("CPU usage crítico"),
    );
    match cpu.temperature {
        Some(t) => {
            if t > 0 {
                push_graded(
                    &mut alerts,
                    t as u64,
                    TEMPERATURE_WARNING,
                    TEMPERATURE_CRITICAL,
                    "cpu_temperature",
                    text("Temperatura CPU alta"),
                    text("Temperatura CPU crítica"),
                );
            }
        },
        None => {},
    }
    assert(records_of(alerts@) =~= cpu_alerts(cpu.usage_percent as int) + temperature_alerts(cpu.temperature));
    push_graded(
        &mut alerts,
        memory.percentage,
        MEMORY_WARNING,
        MEMORY_CRITICAL,
        "memory_usage",
        text("Memoria RAM alta"),
        text("Memoria RAM crítica"),
    );
    let ghost head = records_of(alerts@);
    let mut i: usize = 0;
    while i < storage.len()
        invariant
            i <= storage@.len(),
            records_of(alerts@) == head + storage_alerts(storage@.subrange(0, i as int)),
        decreases storage@.len() - i,
    {
        let volume = &storage[i];
        let ghost prefix = storage@.subrange(0, i as int);
        assert(storage@.subrange(0, i + 1).drop_last() == prefix);
        push_graded(
            &mut alerts,
            volume.percentage,
            DISK_WARNING,
            DISK_CRITICAL,
            "disk_usage",
            volume_message("Disco ", &volume.mount_point, " alto"),
            volume_message("Disco ", &volume.mount_point, " crítico"),
        );
        i = i + 1;
        assert(records_of(alerts@) =~= head + storage_alerts(storage@.subrange(0, i as int)));
    }
    assert(storage@.subrange(0, storage@.len() as int) == storage@);
    alerts
}

/// The alerts of a report come in a fixed order, processor usage, then
/// temperature, then memory, then each volume in the order given: one more
/// volume at the end adds its own alerts at the end and changes none before
/// them. Each reading raises at most one alert.
pub proof fn lemma_alert_order(
    cpu: CpuMetrics,
    memory: MemoryMetrics,
    storage: Seq<StorageMetrics>,
    volume: StorageMetrics,
)
    ensures
        report_alerts(cpu, memory, storage.push(volume)) == report_alerts(cpu, memory, storage)
            + volume_alerts(volume.percentage as int, volume.mount_point@),
        report_alerts(cpu, memory, storage) == cpu_alerts(cpu.usage_percent as int)
            + temperature_alerts(cpu.temperature) + memory_alerts(memory.percentage as int)
            + storage_alerts(storage),
        cpu_alerts(cpu.usage_percent as int).len() <= 1,
        temperature_alerts(cpu.temperature).len() <= 1,
        memory_alerts(memory.percentage as int).len() <= 1,
        storage_alerts(storage).len() <= storage.len(),
{
    assert(storage.push(volume).drop_last() == storage);
    assert(report_alerts(cpu, memory, storage.push(volume)) =~= report_alerts(cpu, memory, storage)
        + volume_alerts(volume.percentage as int, volume.mount_point@));
    lemma_storage_alerts_len(storage);
}

proof fn lemma_storage_alerts_len(storage: Seq<StorageMetrics>)
    ensures
        storage_alerts(storage).len() <= storage.len(),
    decreases storage.len(),
{
    if storage.len() > 0 {
        lemma_storage_alerts_len(storage.drop_last());
    }
}

/// Thresholds are exclusive: a reading raises an alert only when it is
/// strictly above the warning bound, and a Critical one only when strictly
/// above the critical bound; a reading equal to a bound raises the lower
/// grade (or none), with that bound not crossed.
pub proof fn lemma_thresholds_exclusive(
    value: int,
    warning: int,
    critical: int,
    metric: Seq<char>,
    warning_message: Seq<char>,
    critical_message: Seq<char>,
)
    requires
        warning <= critical,
    ensures
        graded(value, warning, critical, metric, warning_message, critical_message).len() == 0
            <==> value <= warning,
        warning < value <= critical ==> graded(value, warning, critical, metric, warning_message, critical_message)
            == seq![AlertRecord { level: AlertLevel::Warning, message: warning_message, metric, value, threshold: warning }],
        critical < value ==> graded(value, warning, critical, metric, warning_message, critical_message)
            == seq![AlertRecord { level: AlertLevel::Critical, message: critical_message, metric, value, threshold: critical }],
{
}

} // verus!
