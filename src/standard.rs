use vstd::prelude::*;

use crate::catalog::{
    decls_valid, kind_valid, register_all, Catalog, DeclView, KindView, MetricDecl, MetricKind,
    RegistrationError,
};

verus! {

pub open spec fn views_of(s: Seq<MetricDecl>) -> Seq<DeclView> {
    s.map_values(|d: MetricDecl| d@)
}

pub open spec fn gauge_view(name: &str, help: &str) -> DeclView {
    DeclView { name: name@, help: help@, kind: KindView::Gauge }
}

pub open spec fn counter_view(name: &str, help: &str) -> DeclView {
    DeclView { name: name@, help: help@, kind: KindView::Counter }
}

pub open spec fn histogram_view(name: &str, help: &str, bounds: Seq<u64>) -> DeclView {
    DeclView { name: name@, help: help@, kind: KindView::Histogram { bounds_millionths: bounds } }
}

/// `s` holds, in order, declarations whose contents are those of `v`.
pub open spec fn matches_decls(s: Seq<MetricDecl>, v: Seq<DeclView>) -> bool {
    &&& s.len() == v.len()
    &&& forall|i: int| 0 <= i < s.len() ==> #[trigger] s[i]@ == v[i]
}

proof fn lemma_views_match(s: Seq<MetricDecl>, v: Seq<DeclView>)
    requires
        views_of(s) == v,
    ensures
        matches_decls(s, v),
{
    assert forall|i: int| 0 <= i < s.len() implies #[trigger] s[i]@ == v[i] by {
        assert(views_of(s)[i] == s[i]@);
    }
}

pub fn gauge(name: &str, help: &str) -> (r: MetricDecl)
    ensures
        r@ == gauge_view(name, help),
{
    MetricDecl { name: name.to_owned(), help: help.to_owned(), kind: MetricKind::Gauge }
}

pub fn counter(name: &str, help: &str) -> (r: MetricDecl)
    ensures
        r@ == counter_view(name, help),
{
    MetricDecl { name: name.to_owned(), help: help.to_owned(), kind: MetricKind::Counter }
}

pub fn histogram(name: &str, help: &str, bounds_millionths: Vec<u64>) -> (r: MetricDecl)
    ensures
        r@ == histogram_view(name, help, bounds_millionths@),
{
    MetricDecl {
        name: name.to_owned(),
        help: help.to_owned(),
        kind: MetricKind::Histogram { bounds_millionths },
    }
}

pub open spec fn kinds_valid(s: Seq<MetricDecl>) -> bool {
    forall|i: int| 0 <= i < s.len() ==> kind_valid(#[trigger] s[i].kind)
}

/// The declarations of the cpu collector, in order.
pub open spec fn cpu_decls() -> Seq<DeclView> {
    seq![
        gauge_view("cpu_usage_percent", "Current CPU usage percentage"),
        gauge_view("cpu_cores_total", "Total number of CPU cores"),
        gauge_view("cpu_frequency_mhz", "Current CPU frequency in MHz"),
        counter_view("cpu_time_user_seconds_total", "Total CPU time spent in user mode"),
        counter_view("cpu_time_system_seconds_total", "Total CPU time spent in system mode"),
        counter_view("cpu_time_idle_seconds_total", "Total CPU time spent idle"),
        histogram_view(
            "cpu_load_distribution",
            "Distribution of CPU load measurements",
            seq![0, 10_000_000, 25_000_000, 50_000_000, 75_000_000, 90_000_000, 95_000_000, 99_000_000, 100_000_000],
        ),
    ]
}

/// CPU usage, core count, frequency, time counters and the load distribution.
pub fn cpu_metrics() -> (r: Vec<MetricDecl>)
    ensures
        matches_decls(r@, cpu_decls()),
        kinds_valid(r@),
{
    let mut r: Vec<MetricDecl> = Vec::new();
    r.push(gauge("cpu_usage_percent", "Current CPU usage percentage"));
    r.push(gauge("cpu_cores_total", "Total number of CPU cores"));
    r.push(gauge("cpu_frequency_mhz", "Current CPU frequency in MHz"));
    r.push(counter("cpu_time_user_seconds_total", "Total CPU time spent in user mode"));
    r.push(counter("cpu_time_system_seconds_total", "Total CPU time spent in system mode"));
    r.push(counter("cpu_time_idle_seconds_total", "Total CPU time spent idle"));
    r.push(histogram(
        "cpu_load_distribution",
        "Distribution of CPU load measurements",
        vec![0, 10_000_000, 25_000_000, 50_000_000, 75_000_000, 90_000_000, 95_000_000, 99_000_000, 100_000_000],
    ));
    proof {
        assert(views_of(r@) =~= cpu_decls());
        lemma_views_match(r@, cpu_decls());
    }
    r
}

/// The declarations of the memory collector, in order.
pub open spec fn memory_decls() -> Seq<DeclView> {
    seq![
        gauge_view("memory_usage_percent", "Memory usage in percentage"),
        gauge_view("memory_total_bytes", "Total memory in bytes"),
        gauge_view("memory_used_bytes", "Used memory in bytes"),
        gauge_view("memory_available_bytes", "Available memory in bytes"),
    ]
}

/// Memory usage and sizes.
pub fn memory_metrics() -> (r: Vec<MetricDecl>)
    ensures
        matches_decls(r@, memory_decls()),
        kinds_valid(r@),
{
    let mut r: Vec<MetricDecl> = Vec::new();
    r.push(gauge("memory_usage_percent", "Memory usage in percentage"));
    r.push(gauge("memory_total_bytes", "Total memory in bytes"));
    r.push(gauge("memory_used_bytes", "Used memory in bytes"));
    r.push(gauge("memory_available_bytes", "Available memory in bytes"));
    proof {
        assert(views_of(r@) =~= memory_decls());
        lemma_views_match(r@, memory_decls());
    }
    r
}

/// The declarations of the disk collector, in order.
pub open spec fn disk_decls() -> Seq<DeclView> {
    seq![
        gauge_view("disk_usage_percent", "Disk usage percentage for root filesystem"),
        gauge_view("disk_total_bytes", "Total disk space in bytes for root filesystem"),
        gauge_view("disk_used_bytes", "Used disk space in bytes for root filesystem"),
        gauge_view("disk_available_bytes", "Available disk space in bytes for root filesystem"),
        gauge_view("disk_inodes_total", "Total number of inodes on root filesystem"),
        gauge_view("disk_inodes_used", "Number of used inodes on root filesystem"),
        counter_view("disk_reads_total", "Total number of disk read operations since start"),
        counter_view("disk_writes_total", "Total number of disk write operations since start"),
        counter_view("disk_read_bytes_total", "Total bytes read from disk since start"),
        counter_view("disk_write_bytes_total", "Total bytes written to disk since start"),
        histogram_view(
            "disk_operation_duration_seconds",
            "Disk operation duration distribution in seconds",
            seq![100, 500, 1000, 5000, 10_000, 25_000, 50_000, 100_000, 250_000, 500_000, 1_000_000],
        ),
    ]
}

/// Disk space of the root filesystem, I/O counters and the operation latency distribution.
pub fn disk_metrics() -> (r: Vec<MetricDecl>)
    ensures
        matches_decls(r@, disk_decls()),
        kinds_valid(r@),
{
    let mut r: Vec<MetricDecl> = Vec::new();
    r.push(gauge("disk_usage_percent", "Disk usage percentage for root filesystem"));
    r.push(gauge("disk_total_bytes", "Total disk space in bytes for root filesystem"));
    r.push(gauge("disk_used_bytes", "Used disk space in bytes for root filesystem"));
    r.push(gauge("disk_available_bytes", "Available disk space in bytes for root filesystem"));
    r.push(gauge("disk_inodes_total", "Total number of inodes on root filesystem"));
    r.push(gauge("disk_inodes_used", "Number of used inodes on root filesystem"));
    r.push(counter("disk_reads_total", "Total number of disk read operations since start"));
    r.push(counter("disk_writes_total", "Total number of disk write operations since start"));
    r.push(counter("disk_read_bytes_total", "Total bytes read from disk since start"));
    r.push(counter("disk_write_bytes_total", "Total bytes written to disk since start"));
    r.push(histogram(
        "disk_operation_duration_seconds",
        "Disk operation duration distribution in seconds",
        vec![100, 500, 1000, 5000, 10_000, 25_000, 50_000, 100_000, 250_000, 500_000, 1_000_000],
    ));
    proof {
        assert(views_of(r@) =~= disk_decls());
        lemma_views_match(r@, disk_decls());
    }
    r
}

/// The declarations of the system collector, in order.
pub open spec fn system_decls() -> Seq<DeclView> {
    seq![
        gauge_view("load_average_1min", "System load average over 1 minute"),
        gauge_view("load_average_5min", "System load average over 5 minutes"),
        gauge_view("load_average_15min", "System load average over 15 minutes"),
        gauge_view("uptime_seconds", "System uptime in seconds"),
        gauge_view("process_count", "Number of running processes"),
    ]
}

/// Load averages, uptime and the process count.
pub fn system_metrics() -> (r: Vec<MetricDecl>)
    ensures
        matches_decls(r@, system_decls()),
        kinds_valid(r@),
{
    let mut r: Vec<MetricDecl> = Vec::new();
    r.push(gauge("load_average_1min", "System load average over 1 minute"));
    r.push(gauge("load_average_5min", "System load average over 5 minutes"));
    r.push(gauge("load_average_15min", "System load average over 15 minutes"));
    r.push(gauge("uptime_seconds", "System uptime in seconds"));
    r.push(gauge("process_count", "Number of running processes"));
    proof {
        assert(views_of(r@) =~= system_decls());
        lemma_views_match(r@, system_decls());
    }
    r
}

/// The declarations of the network collector, in order.
pub open spec fn network_decls() -> Seq<DeclView> {
    seq![
        gauge_view("network_bytes_received", "Current network bytes received per second"),
        gauge_view("network_bytes_transmitted", "Current network bytes transmitted per second"),
        gauge_view("network_packets_received", "Current network packets received per second"),
        gauge_view("network_packets_transmitted", "Current network packets transmitted per second"),
        gauge_view("network_errors_received", "Current network errors received"),
        gauge_view("network_errors_transmitted", "Current network errors transmitted"),
        counter_view("network_bytes_received_total", "Total network bytes received since start"),
        counter_view("network_bytes_transmitted_total", "Total network bytes transmitted since start"),
        counter_view("network_packets_received_total", "Total network packets received since start"),
        counter_view("network_packets_transmitted_total", "Total network packets transmitted since start"),
        histogram_view(
            "network_latency_seconds",
            "Network latency distribution in seconds",
            seq![1000, 5000, 10_000, 25_000, 50_000, 100_000, 250_000, 500_000, 1_000_000, 2_500_000, 5_000_000, 10_000_000],
        ),
    ]
}

/// Network traffic summed over all interfaces and the latency distribution.
pub fn network_metrics() -> (r: Vec<MetricDecl>)
    ensures
        matches_decls(r@, network_decls()),
        kinds_valid(r@),
{
    let mut r: Vec<MetricDecl> = Vec::new();
    r.push(gauge("network_bytes_received", "Current network bytes received per second"));
    r.push(gauge("network_bytes_transmitted", "Current network bytes transmitted per second"));
    r.push(gauge("network_packets_received", "Current network packets received per second"));
    r.push(gauge("network_packets_transmitted", "Current network packets transmitted per second"));
    r.push(gauge("network_errors_received", "Current network errors received"));
    r.push(gauge("network_errors_transmitted", "Current network errors transmitted"));
    r.push(counter("network_bytes_received_total", "Total network bytes received since start"));
    r.push(counter("network_bytes_transmitted_total", "Total network bytes transmitted since start"));
    r.push(counter("network_packets_received_total", "Total network packets received since start"));
    r.push(counter("network_packets_transmitted_total", "Total network packets transmitted since start"));
    r.push(histogram(
        "network_latency_seconds",
        "Network latency distribution in seconds",
        vec![1000, 5000, 10_000, 25_000, 50_000, 100_000, 250_000, 500_000, 1_000_000, 2_500_000, 5_000_000, 10_000_000],
    ));
    proof {
        assert(views_of(r@) =~= network_decls());
        lemma_views_match(r@, network_decls());
    }
    r
}

/// Every metric the exporter declares: CPU, memory, disk, system and network, in
/// that order.
pub open spec fn standard_decls() -> Seq<DeclView> {
    cpu_decls() + memory_decls() + disk_decls() + system_decls() + network_decls()
}

/// No two of the exporter's metrics share a name. Names of different lengths
/// differ; for each pair of equal length one differing position is given.
proof fn lemma_standard_names_distinct()
    ensures
        forall|i: int, j: int|
            0 <= i < j < standard_decls().len() ==> standard_decls()[i].name
                != standard_decls()[j].name,
{
    reveal_strlit("cpu_usage_percent");
    reveal_strlit("cpu_cores_total");
    reveal_strlit("cpu_frequency_mhz");
    reveal_strlit("cpu_time_user_seconds_total");
    reveal_strlit("cpu_time_system_seconds_total");
    reveal_strlit("cpu_time_idle_seconds_total");
    reveal_strlit("cpu_load_distribution");
    reveal_strlit("memory_usage_percent");
    reveal_strlit("memory_total_bytes");
    reveal_strlit("memory_used_bytes");
    reveal_strlit("memory_available_bytes");
    reveal_strlit("disk_usage_percent");
    reveal_strlit("disk_total_bytes");
    reveal_strlit("disk_used_bytes");
    reveal_strlit("disk_available_bytes");
    reveal_strlit("disk_inodes_total");
    reveal_strlit("disk_inodes_used");
    reveal_strlit("disk_reads_total");
    reveal_strlit("disk_writes_total");
    reveal_strlit("disk_read_bytes_total");
    reveal_strlit("disk_write_bytes_total");
    reveal_strlit("disk_operation_duration_seconds");
    reveal_strlit("load_average_1min");
    reveal_strlit("load_average_5min");
    reveal_strlit("load_average_15min");
    reveal_strlit("uptime_seconds");
    reveal_strlit("process_count");
    reveal_strlit("network_bytes_received");
    reveal_strlit("network_bytes_transmitted");
    reveal_strlit("network_packets_received");
    reveal_strlit("network_packets_transmitted");
    reveal_strlit("network_errors_received");
    reveal_strlit("network_errors_transmitted");
    reveal_strlit("network_bytes_received_total");
    reveal_strlit("network_bytes_transmitted_total");
    reveal_strlit("network_packets_received_total");
    reveal_strlit("network_packets_transmitted_total");
    reveal_strlit("network_latency_seconds");
    assert("cpu_usage_percent"@.len() == 17);
    assert("cpu_cores_total"@.len() == 15);
    assert("cpu_frequency_mhz"@.len() == 17);
    assert("cpu_time_user_seconds_total"@.len() == 27);
    assert("cpu_time_system_seconds_total"@.len() == 29);
    assert("cpu_time_idle_seconds_total"@.len() == 27);
    assert("cpu_load_distribution"@.len() == 21);
    assert("memory_usage_percent"@.len() == 20);
    assert("memory_total_bytes"@.len() == 18);
    assert("memory_used_bytes"@.len() == 17);
    assert("memory_available_bytes"@.len() == 22);
    assert("disk_usage_percent"@.len() == 18);
    assert("disk_total_bytes"@.len() == 16);
    assert("disk_used_bytes"@.len() == 15);
    assert("disk_available_bytes"@.len() == 20);
    assert("disk_inodes_total"@.len() == 17);
    assert("disk_inodes_used"@.len() == 16);
    assert("disk_reads_total"@.len() == 16);
    assert("disk_writes_total"@.len() == 17);
    assert("disk_read_bytes_total"@.len() == 21);
    assert("disk_write_bytes_total"@.len() == 22);
    assert("disk_operation_duration_seconds"@.len() == 31);
    assert("load_average_1min"@.len() == 17);
    assert("load_average_5min"@.len() == 17);
    assert("load_average_15min"@.len() == 18);
    assert("uptime_seconds"@.len() == 14);
    assert("process_count"@.len() == 13);
    assert("network_bytes_received"@.len() == 22);
    assert("network_bytes_transmitted"@.len() == 25);
    assert("network_packets_received"@.len() == 24);
    assert("network_packets_transmitted"@.len() == 27);
    assert("network_errors_received"@.len() == 23);
    assert("network_errors_transmitted"@.len() == 26);
    assert("network_bytes_received_total"@.len() == 28);
    assert("network_bytes_transmitted_total"@.len() == 31);
    assert("network_packets_received_total"@.len() == 30);
    assert("network_packets_transmitted_total"@.len() == 33);
    assert("network_latency_seconds"@.len() == 23);
    assert("cpu_usage_percent"@[4] != "cpu_frequency_mhz"@[4]);
    assert("cpu_usage_percent"@[0] != "memory_used_bytes"@[0]);
    assert("cpu_usage_percent"@[0] != "disk_inodes_total"@[0]);
    assert("cpu_usage_percent"@[0] != "disk_writes_total"@[0]);
    assert("cpu_usage_percent"@[0] != "load_average_1min"@[0]);
    assert("cpu_usage_percent"@[0] != "load_average_5min"@[0]);
    assert("cpu_cores_total"@[0] != "disk_used_bytes"@[0]);
    assert("cpu_frequency_mhz"@[0] != "memory_used_bytes"@[0]);
    assert("cpu_frequency_mhz"@[0] != "disk_inodes_total"@[0]);
    assert("cpu_frequency_mhz"@[0] != "disk_writes_total"@[0]);
    assert("cpu_frequency_mhz"@[0] != "load_average_1min"@[0]);
    assert("cpu_frequency_mhz"@[0] != "load_average_5min"@[0]);
    assert("cpu_time_user_seconds_total"@[9] != "cpu_time_idle_seconds_total"@[9]);
    assert("cpu_time_user_seconds_total"@[0] != "network_packets_transmitted"@[0]);
    assert("cpu_time_idle_seconds_total"@[0] != "network_packets_transmitted"@[0]);
    assert("cpu_load_distribution"@[0] != "disk_read_bytes_total"@[0]);
    assert("memory_usage_percent"@[0] != "disk_available_bytes"@[0]);
    assert("memory_total_bytes"@[0] != "disk_usage_percent"@[0]);
    assert("memory_total_bytes"@[0] != "load_average_15min"@[0]);
    assert("memory_used_bytes"@[0] != "disk_inodes_total"@[0]);
    assert("memory_used_bytes"@[0] != "disk_writes_total"@[0]);
    assert("memory_used_bytes"@[0] != "load_average_1min"@[0]);
    assert("memory_used_bytes"@[0] != "load_average_5min"@[0]);
    assert("memory_available_bytes"@[0] != "disk_write_bytes_total"@[0]);
    assert("memory_available_bytes"@[0] != "network_bytes_received"@[0]);
    assert("disk_usage_percent"@[0] != "load_average_15min"@[0]);
    assert("disk_total_bytes"@[5] != "disk_inodes_used"@[5]);
    assert("disk_total_bytes"@[5] != "disk_reads_total"@[5]);
    assert("disk_inodes_total"@[5] != "disk_writes_total"@[5]);
    assert("disk_inodes_total"@[0] != "load_average_1min"@[0]);
    assert("disk_inodes_total"@[0] != "load_average_5min"@[0]);
    assert("disk_inodes_used"@[5] != "disk_reads_total"@[5]);
    assert("disk_writes_total"@[0] != "load_average_1min"@[0]);
    assert("disk_writes_total"@[0] != "load_average_5min"@[0]);
    assert("disk_write_bytes_total"@[0] != "network_bytes_received"@[0]);
    assert("disk_operation_duration_seconds"@[0] != "network_bytes_transmitted_total"@[0]);
    assert("load_average_1min"@[13] != "load_average_5min"@[13]);
    assert("network_errors_received"@[8] != "network_latency_seconds"@[8]);
}

proof fn lemma_views_concat(a: Seq<MetricDecl>, b: Seq<MetricDecl>)
    ensures
        views_of(a + b) == views_of(a) + views_of(b),
{
    assert(views_of(a + b) =~= views_of(a) + views_of(b));
}

proof fn lemma_kinds_concat(a: Seq<MetricDecl>, b: Seq<MetricDecl>)
    requires
        kinds_valid(a),
        kinds_valid(b),
    ensures
        kinds_valid(a + b),
{
    assert forall|i: int| 0 <= i < (a + b).len() implies kind_valid(#[trigger] (a + b)[i].kind) by {
        if i >= a.len() {
            assert((a + b)[i] == b[i - a.len()]);
        }
    }
}

/// The catalog of every metric the exporter declares, in the order of
/// `standard_decls`. Its names are distinct and its buckets ascend, so it is
/// always built.
pub fn standard_catalog() -> (r: Result<Catalog, RegistrationError>)
    ensures
        r matches Ok(c) && matches_decls(c@, standard_decls()),
{
    let mut all = cpu_metrics();
    let mut memory = memory_metrics();
    let mut disk = disk_metrics();
    let mut system = system_metrics();
    let mut network = network_metrics();
    let ghost (a, b, c, d, e) = (all@, memory@, disk@, system@, network@);
    all.append(&mut memory);
    all.append(&mut disk);
    all.append(&mut system);
    all.append(&mut network);
    proof {
        lemma_views_concat(a, b);
        lemma_views_concat(a + b, c);
        lemma_views_concat(a + b + c, d);
        lemma_views_concat(a + b + c + d, e);
        lemma_kinds_concat(a, b);
        lemma_kinds_concat(a + b, c);
        lemma_kinds_concat(a + b + c, d);
        lemma_kinds_concat(a + b + c + d, e);
        lemma_standard_names_distinct();
        let s = all@;
        assert(views_of(a) == cpu_decls()) by {
            assert(views_of(a) =~= cpu_decls());
        }
        assert(views_of(b) =~= memory_decls());
        assert(views_of(c) =~= disk_decls());
        assert(views_of(d) =~= system_decls());
        assert(views_of(e) =~= network_decls());
        assert(views_of(s) == standard_decls());
        lemma_views_match(s, standard_decls());
        assert forall|i: int, j: int| 0 <= i < j < s.len() implies s[i].name@ != s[j].name@ by {
            assert(views_of(s)[i] == s[i]@ && views_of(s)[j] == s[j]@);
        }
        assert(decls_valid(s));
    }
    register_all(all)
}

} // verus!
