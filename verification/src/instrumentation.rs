//! Instrumentation helpers: a named tracing scope around a unit of
//! work, and named counter/histogram handles against the process-wide
//! meter provider. Before initialization they reach the SDK's no-op
//! providers and degrade gracefully.

use vstd::prelude::*;

use crate::otel;

verus! {

/// Runs `f` inside a named tracing scope and returns its value. The
/// scope opens before `f` runs, any span or event recorded during `f`
/// is parented to it, and it closes when `f` returns — also when `f`'s
/// value reports a failure.
pub fn with_span<F, R>(name: &str, f: F) -> (r: R) where F: FnOnce() -> R
    requires
        call_requires(f, ()),
    ensures
        call_ensures(f, (), r),
{
    let guard = otel::begin_span_scope("rust_mobile_telemetry", name);
    let r = f();
    otel::end_span_scope(guard);
    r
}

/// A counter handle registered under the given name against the
/// process-wide meter provider, created on first request; the SDK
/// resolves later requests for the same name to the same underlying
/// instrument, so increments through any handle accumulate into one
/// total.
pub fn get_counter(name: &str, description: &str) -> opentelemetry::metrics::Counter<u64> {
    otel::meter_u64_counter("rust_mobile_telemetry", name, description)
}

/// A histogram handle registered under the given name against the
/// process-wide meter provider, created on first request and shared by
/// name like [`get_counter`]. It records whole microseconds.
pub fn get_histogram(name: &str, description: &str) -> opentelemetry::metrics::Histogram<u64> {
    otel::meter_u64_histogram("rust_mobile_telemetry", name, description)
}

/// Runs `f`, records its elapsed wall-clock time in microseconds to
/// the histogram named `name` (description "Operation latency"), and
/// returns `f`'s value. The handle is fetched before the clock starts,
/// so instrument lookup does not pollute the measurement.
pub fn record_latency<F, R>(name: &str, f: F) -> (r: R) where F: FnOnce() -> R
    requires
        call_requires(f, ()),
    ensures
        call_ensures(f, (), r),
{
    let histogram = get_histogram(name, "Operation latency");
    let start = otel::instant_now();
    let r = f();
    let elapsed = otel::elapsed_micros(&start);
    otel::histogram_record(&histogram, elapsed);
    r
}

} // verus!
