use host_metrics::catalog::{register_all, Catalog, MetricDecl, MetricKind, RegistrationError};
use host_metrics::cpu::cpu_frequency;
use host_metrics::disk::{collect_disk, disk_figures, select_disk, DiskReading};
use host_metrics::memory::{memory_figures, MemoryReading};
use host_metrics::network::{aggregate, latency_micros, InterfaceReading};
use host_metrics::schedule::{Action, ExporterConfig, Phase, Scheduler};
use host_metrics::standard::{
    counter, cpu_metrics, disk_metrics, gauge, histogram, memory_metrics, network_metrics,
    standard_catalog, system_metrics,
};
use host_metrics::usage::{usage_percent, Ratio};

fn as_f64(r: Ratio) -> f64 {
    r.num as f64 / r.den as f64
}

fn disk(mount: &str, total: u64, available: u64) -> DiskReading {
    DiskReading { mount_point: mount.to_string(), total_space: total, available_space: available }
}

fn iface(received: u64, transmitted: u64) -> InterfaceReading {
    InterfaceReading {
        received,
        transmitted,
        packets_received: received / 100,
        packets_transmitted: transmitted / 100,
        errors_received: 1,
        errors_transmitted: 2,
    }
}

#[test]
fn usage_percent_of_zero_total_is_zero() {
    let r = usage_percent(0, 0);
    assert_eq!(r.num, 0);
    assert_eq!(as_f64(r), 0.0);
    assert_eq!(usage_percent(7, 0).num, 0);
}

#[test]
fn usage_percent_is_exact_share() {
    let r = usage_percent(1, 4);
    assert!((as_f64(r) - 25.0).abs() < 1e-9);
    let r = usage_percent(3, 3);
    assert!((as_f64(r) - 100.0).abs() < 1e-9);
    let r = usage_percent(1, 3);
    assert!((as_f64(r) - 100.0 / 3.0).abs() < 1e-9);
    let r = usage_percent(u64::MAX, u64::MAX);
    assert!((as_f64(r) - 100.0).abs() < 1e-9);
}

#[test]
fn select_disk_prefers_root_mount() {
    let disks = vec![disk("/boot", 10, 5), disk("/", 100, 40), disk("/", 7, 1)];
    assert_eq!(select_disk(&disks), Some(1));
}

#[test]
fn select_disk_falls_back_to_first() {
    let disks = vec![disk("/boot", 10, 5), disk("/home", 100, 40)];
    assert_eq!(select_disk(&disks), Some(0));
    let none: Vec<DiskReading> = Vec::new();
    assert_eq!(select_disk(&none), None);
}

#[test]
fn disk_figures_of_reading() {
    let f = disk_figures(&disk("/", 8192 * 10, 8192 * 4));
    assert_eq!(f.total_bytes, 81920);
    assert_eq!(f.used_bytes, 49152);
    assert_eq!(f.available_bytes, 32768);
    assert!((as_f64(f.usage_percent) - 60.0).abs() < 1e-9);
    assert_eq!(f.inodes_total, 20);
    assert_eq!(f.inodes_used, 12);
}

#[test]
fn disk_figures_with_more_available_than_total() {
    let f = disk_figures(&disk("/", 100, 150));
    assert_eq!(f.used_bytes, 0);
    assert_eq!(f.usage_percent.num, 0);
    assert_eq!(f.inodes_total, 0);
    assert_eq!(f.inodes_used, 0);
}

#[test]
fn disk_figures_of_empty_disk() {
    let f = disk_figures(&disk("/", 0, 0));
    assert_eq!(f.usage_percent.num, 0);
    assert_eq!(f.inodes_used, 0);
}

#[test]
fn collect_disk_without_disks_uses_fallback() {
    let f = collect_disk(&Vec::new());
    assert!((as_f64(f.usage_percent) - 45.0).abs() < 1e-9);
    assert_eq!(f.total_bytes, 100_000_000_000);
    assert_eq!(f.used_bytes, 45_000_000_000);
    assert_eq!(f.available_bytes, 55_000_000_000);
    assert_eq!(f.inodes_total, 25_600_000);
    assert_eq!(f.inodes_used, 11_520_000);
}

#[test]
fn collect_disk_reports_chosen_disk() {
    let f = collect_disk(&vec![disk("/data", 10, 5), disk("/", 4096 * 4, 4096)]);
    assert_eq!(f.total_bytes, 16384);
    assert_eq!(f.used_bytes, 12288);
    assert_eq!(f.inodes_total, 4);
    assert_eq!(f.inodes_used, 3);
}

#[test]
fn aggregate_sums_interfaces() {
    let t = aggregate(&vec![iface(1000, 200), iface(3000, 400)]);
    assert_eq!(t.received, 4000);
    assert_eq!(t.transmitted, 600);
    assert_eq!(t.packets_received, 40);
    assert_eq!(t.packets_transmitted, 6);
    assert_eq!(t.errors_received, 2);
    assert_eq!(t.errors_transmitted, 4);
}

#[test]
fn aggregate_of_no_interface_is_zero() {
    let t = aggregate(&Vec::new());
    assert_eq!(t.received, 0);
    assert_eq!(t.errors_transmitted, 0);
}

#[test]
fn aggregate_saturates() {
    let t = aggregate(&vec![iface(u64::MAX - 1, 1), iface(5, 1)]);
    assert_eq!(t.received, u64::MAX);
    assert_eq!(t.transmitted, 2);
}

#[test]
fn latency_is_clamped() {
    assert_eq!(latency_micros(0), 1_000);
    assert_eq!(latency_micros(999), 1_000);
    assert_eq!(latency_micros(123_456), 123_456);
    assert_eq!(latency_micros(10_000_000), 10_000_000);
    assert_eq!(latency_micros(u64::MAX), 10_000_000);
}

#[test]
fn memory_figures_of_reading() {
    let f = memory_figures(MemoryReading { total: 2048, used: 512, available: 1536 });
    assert!((as_f64(f.usage_percent) - 25.0).abs() < 1e-9);
    assert_eq!(f.total_bytes, 2048);
    assert_eq!(f.used_bytes, 512);
    assert_eq!(f.available_bytes, 1536);
    let f = memory_figures(MemoryReading { total: 0, used: 0, available: 0 });
    assert_eq!(as_f64(f.usage_percent), 0.0);
}

#[test]
fn cpu_frequency_of_first_core() {
    assert_eq!(cpu_frequency(&vec![2400, 3100]), 2400);
    assert_eq!(cpu_frequency(&Vec::new()), 0);
}

#[test]
fn second_registration_of_a_name_fails() {
    let mut c = Catalog::new();
    assert_eq!(c.register(gauge("memory_usage_percent", "Memory usage")), Ok(()));
    assert_eq!(
        c.register(counter("memory_usage_percent", "Other")),
        Err(RegistrationError::DuplicateMetricName)
    );
    assert_eq!(c.len(), 1);
    assert_eq!(c.get(0).help, "Memory usage");
    assert!(matches!(c.get(0).kind, MetricKind::Gauge));
}

#[test]
fn histogram_buckets_are_checked() {
    let mut c = Catalog::new();
    assert_eq!(
        c.register(histogram("h", "help", vec![])),
        Err(RegistrationError::InvalidBuckets)
    );
    assert_eq!(
        c.register(histogram("h", "help", vec![1, 3, 3])),
        Err(RegistrationError::InvalidBuckets)
    );
    assert_eq!(
        c.register(histogram("h", "help", vec![5, 2])),
        Err(RegistrationError::InvalidBuckets)
    );
    assert_eq!(c.len(), 0);
    assert_eq!(c.register(histogram("h", "help", vec![1, 2, 3])), Ok(()));
    assert!(c.contains_name(&"h".to_string()));
    assert!(!c.contains_name(&"g".to_string()));
}

#[test]
fn duplicate_name_is_reported_before_buckets() {
    let mut c = Catalog::new();
    assert_eq!(c.register(gauge("x", "help")), Ok(()));
    assert_eq!(
        c.register(histogram("x", "help", vec![])),
        Err(RegistrationError::DuplicateMetricName)
    );
}

#[test]
fn register_all_refuses_partial_sets() {
    let decls: Vec<MetricDecl> = vec![gauge("a", "a"), counter("b", "b"), gauge("a", "again")];
    assert!(matches!(register_all(decls), Err(RegistrationError::DuplicateMetricName)));
    let decls: Vec<MetricDecl> = vec![gauge("a", "a"), histogram("h", "h", vec![2, 1])];
    assert!(matches!(register_all(decls), Err(RegistrationError::InvalidBuckets)));
    let c = register_all(vec![gauge("a", "a"), counter("b", "b")]).unwrap();
    assert_eq!(c.len(), 2);
    assert_eq!(c.get(1).name, "b");
}

#[test]
fn standard_catalog_registers_every_metric() {
    let c = standard_catalog().unwrap();
    let n = cpu_metrics().len()
        + memory_metrics().len()
        + disk_metrics().len()
        + system_metrics().len()
        + network_metrics().len();
    assert_eq!(n, 38);
    assert_eq!(c.len(), n);
    assert_eq!(c.get(0).name, "cpu_usage_percent");
    assert!(c.contains_name(&"memory_usage_percent".to_string()));
    assert!(c.contains_name(&"disk_reads_total".to_string()));
    assert!(matches!(c.get(17).kind, MetricKind::Counter));
    assert_eq!(c.get(17).name, "disk_reads_total");
}

#[test]
fn scheduler_alternates_sampling_and_sleeping() {
    let cfg = ExporterConfig::standard();
    assert_eq!(cfg.listen_port, 9100);
    assert_eq!(cfg.interval_seconds, 5);
    let mut s = Scheduler::new(cfg.interval_seconds);
    assert_eq!(s.phase, Phase::Idle);
    assert_eq!(s.step(false), Action::CollectAll);
    s.pass_done(1);
    assert_eq!(s.step(false), Action::Sleep { seconds: 5 });
    assert_eq!(s.phase, Phase::Sleeping);
    assert_eq!(s.step(false), Action::CollectAll);
    s.pass_done(0);
    assert_eq!(s.passes, 2);
    assert_eq!(s.failures, 1);
    assert_eq!(s.step(true), Action::Halt);
    assert_eq!(s.phase, Phase::Stopped);
    assert_eq!(s.step(false), Action::Halt);
}

#[test]
fn usage_percent_keeps_numerator_and_denominator() {
    assert_eq!(usage_percent(3, 8), Ratio { num: 300, den: 8 });
    assert_eq!(usage_percent(5, 0), Ratio { num: 0, den: 1 });
}

#[test]
fn declarations_carry_kinds_help_and_bounds() {
    let n = network_metrics();
    assert_eq!(n.len(), 11);
    assert!(n[..6].iter().all(|d| matches!(d.kind, MetricKind::Gauge)));
    assert!(n[6..10].iter().all(|d| matches!(d.kind, MetricKind::Counter)));
    match &n[10].kind {
        MetricKind::Histogram { bounds_millionths } => assert_eq!(
            bounds_millionths,
            &vec![
                1_000, 5_000, 10_000, 25_000, 50_000, 100_000, 250_000, 500_000, 1_000_000,
                2_500_000, 5_000_000, 10_000_000
            ]
        ),
        _ => panic!("network_latency_seconds is a histogram"),
    }
    assert_eq!(n[10].name, "network_latency_seconds");
    assert_eq!(n[10].help, "Network latency distribution in seconds");
    assert!(system_metrics().iter().all(|d| matches!(d.kind, MetricKind::Gauge)));
    assert!(memory_metrics().iter().all(|d| matches!(d.kind, MetricKind::Gauge)));
    let cpu = cpu_metrics();
    assert!(matches!(cpu[3].kind, MetricKind::Counter));
    assert_eq!(cpu[6].name, "cpu_load_distribution");
    let disk = disk_metrics();
    assert_eq!(disk[0].help, "Disk usage percentage for root filesystem");
    assert!(matches!(disk[9].kind, MetricKind::Counter));
}
