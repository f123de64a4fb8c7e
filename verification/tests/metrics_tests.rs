use opentelemetry::global;
use opentelemetry_sdk::metrics::data::AggregatedMetrics;
use opentelemetry_sdk::metrics::data::MetricData;
use opentelemetry_sdk::metrics::InMemoryMetricExporter;
use opentelemetry_sdk::metrics::PeriodicReader;
use opentelemetry_sdk::metrics::SdkMeterProvider;
use rust_mobile_telemetry::instrumentation::get_counter;
use rust_mobile_telemetry::instrumentation::get_histogram;
use rust_mobile_telemetry::instrumentation::record_latency;
use std::time::Duration;
use std::time::Instant;

/// Installs a fresh in-memory metrics pipeline as the process-wide
/// meter provider and hands back the provider and the capturing
/// exporter.
fn install_in_memory_metrics() -> (SdkMeterProvider, InMemoryMetricExporter) {
    let exporter = InMemoryMetricExporter::default();
    let reader = PeriodicReader::builder(exporter.clone()).build();
    let provider = SdkMeterProvider::builder().with_reader(reader).build();
    global::set_meter_provider(provider.clone());
    (provider, exporter)
}

/// The cumulative sum recorded under the given counter name in the
/// latest export batch.
fn counter_total(exporter: &InMemoryMetricExporter, name: &str) -> Option<u64> {
    let batches = exporter.get_finished_metrics().expect("finished metrics");
    let mut total = None;
    for batch in &batches {
        for scope in batch.scope_metrics() {
            for metric in scope.metrics() {
                if metric.name() == name {
                    if let AggregatedMetrics::U64(MetricData::Sum(sum)) = metric.data() {
                        total = Some(sum.data_points().map(|p| p.value()).sum());
                    }
                }
            }
        }
    }
    total
}

/// The recorded count and value sum under the given histogram name in
/// the latest export batch, with the description seen there.
fn histogram_stats(exporter: &InMemoryMetricExporter, name: &str) -> Option<(u64, u64, String)> {
    let batches = exporter.get_finished_metrics().expect("finished metrics");
    let mut stats = None;
    for batch in &batches {
        for scope in batch.scope_metrics() {
            for metric in scope.metrics() {
                if metric.name() == name {
                    if let AggregatedMetrics::U64(MetricData::Histogram(h)) = metric.data() {
                        let count: u64 = h.data_points().map(|p| p.count()).sum();
                        let sum: u64 = h.data_points().map(|p| p.sum()).sum();
                        stats = Some((count, sum, metric.description().to_string()));
                    }
                }
            }
        }
    }
    stats
}

#[test]
fn test_counter_handles_share_one_instrument() {
    let (provider, exporter) = install_in_memory_metrics();
    let first = get_counter("c", "shared counter");
    let second = get_counter("c", "shared counter");
    first.add(2, &[]);
    second.add(3, &[]);
    provider.force_flush().expect("flush");
    assert_eq!(counter_total(&exporter, "c"), Some(5));
}

#[test]
fn test_counter_accumulates_three_increments() {
    let (provider, exporter) = install_in_memory_metrics();
    let counter = get_counter("reqs", "request count");
    counter.add(1, &[]);
    counter.add(1, &[]);
    counter.add(1, &[]);
    provider.force_flush().expect("flush");
    assert_eq!(counter_total(&exporter, "reqs"), Some(3));
}

#[test]
fn test_record_latency_returns_closure_value() {
    let (_provider, _exporter) = install_in_memory_metrics();
    let r = record_latency("op_value", || 41 + 1);
    assert_eq!(r, 42);
}

#[test]
fn test_record_latency_measures_elapsed_time() {
    let (provider, exporter) = install_in_memory_metrics();
    record_latency("op", || {
        let start = Instant::now();
        while start.elapsed() < Duration::from_millis(60) {}
    });
    provider.force_flush().expect("flush");
    let (count, sum, description) = histogram_stats(&exporter, "op").expect("histogram recorded");
    assert_eq!(count, 1);
    // One recording of at least the 60 ms busy wait, in microseconds,
    // with generous headroom above it.
    assert!(sum >= 60_000, "recorded {sum} us");
    assert!(sum < 30_000_000, "recorded {sum} us");
    assert_eq!(description, "Operation latency");
}

#[test]
fn test_record_latency_excludes_instrument_lookup() {
    let (provider, exporter) = install_in_memory_metrics();
    // Warming the instrument up first makes any later lookup cheap
    // either way; the measured window around a trivial closure must
    // stay far below the tolerance used above.
    let _ = get_histogram("op_fast", "Operation latency");
    let r = record_latency("op_fast", || 7u64);
    assert_eq!(r, 7);
    provider.force_flush().expect("flush");
    let (count, sum, _) = histogram_stats(&exporter, "op_fast").expect("histogram recorded");
    assert_eq!(count, 1);
    assert!(sum < 5_000_000, "recorded {sum} us");
}
