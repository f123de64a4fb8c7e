//! Trusted boundary to the OpenTelemetry SDK, the OTLP transport, the
//! console exporters, and the `tracing` subscriber stack. Every item
//! here either declares an outside type or wraps one outside call; the
//! rest of the crate reaches the SDK only through these.

use vstd::prelude::*;

use opentelemetry::trace::TraceContextExt;
use opentelemetry::trace::Tracer;
use opentelemetry::trace::TracerProvider;
use opentelemetry_otlp::WithExportConfig;
use tracing_subscriber::layer::SubscriberExt;
use tracing_subscriber::util::SubscriberInitExt;

verus! {

#[verifier::external_type_specification]
#[verifier::external_body]
pub struct ExResource(opentelemetry_sdk::Resource);

#[verifier::external_type_specification]
#[verifier::external_body]
pub struct ExSdkTracerProvider(opentelemetry_sdk::trace::SdkTracerProvider);

#[verifier::external_type_specification]
#[verifier::external_body]
pub struct ExSdkTracer(opentelemetry_sdk::trace::SdkTracer);

#[verifier::external_type_specification]
#[verifier::external_body]
pub struct ExSdkMeterProvider(opentelemetry_sdk::metrics::SdkMeterProvider);

#[verifier::external_type_specification]
#[verifier::external_body]
pub struct ExOtlpSpanExporter(opentelemetry_otlp::SpanExporter);

#[verifier::external_type_specification]
#[verifier::external_body]
pub struct ExOtlpMetricExporter(opentelemetry_otlp::MetricExporter);

#[verifier::external_type_specification]
#[verifier::external_body]
pub struct ExExporterBuildError(opentelemetry_otlp::ExporterBuildError);

#[verifier::external_type_specification]
#[verifier::external_body]
pub struct ExContextGuard(opentelemetry::ContextGuard);

#[verifier::external_type_specification]
#[verifier::external_body]
#[verifier::reject_recursive_types(T)]
pub struct ExCounter<T>(opentelemetry::metrics::Counter<T>);

#[verifier::external_type_specification]
#[verifier::external_body]
#[verifier::reject_recursive_types(T)]
pub struct ExHistogram<T>(opentelemetry::metrics::Histogram<T>);

#[verifier::external_type_specification]
#[verifier::external_body]
pub struct ExInstant(std::time::Instant);

/// The attributes a resource descriptor holds, as a map from key to
/// value. A resource keeps no order and at most one value per key.
pub uninterp spec fn resource_entries(r: opentelemetry_sdk::Resource) -> Map<Seq<char>, Seq<char>>;

/// The map a sequence of key/value pairs collapses to when a later
/// pair overrides an earlier one with the same key.
pub open spec fn last_wins_map(pairs: Seq<(Seq<char>, Seq<char>)>) -> Map<Seq<char>, Seq<char>>
    decreases pairs.len(),
{
    if pairs.len() == 0 {
        Map::empty()
    } else {
        last_wins_map(pairs.drop_last()).insert(pairs.last().0, pairs.last().1)
    }
}

/// Relies on `Resource::builder_empty`, `ResourceBuilder::with_attributes`,
/// `ResourceBuilder::build` and `KeyValue::new`: the resource holds
/// exactly the given key/value pairs, each converted one for one,
/// de-duplicated by key with the last pair retained, as `Resource::new`
/// documents.
#[verifier::external_body]
pub(crate) fn make_resource(attrs: Vec<(String, String)>) -> (r: opentelemetry_sdk::Resource)
    ensures
        resource_entries(r) == last_wins_map(
            attrs@.map_values(|p: (String, String)| (p.0@, p.1@)),
        ),
{
    opentelemetry_sdk::Resource::builder_empty()
        .with_attributes(attrs.into_iter().map(|p| opentelemetry::KeyValue::new(p.0, p.1)))
        .build()
}

/// Relies on `opentelemetry_stdout::SpanExporter::default`,
/// `SdkTracerProvider::builder`, `with_simple_exporter`, `with_sampler`
/// (`Sampler::AlwaysOn`), `with_resource` and `build`: a provider that
/// writes every completed span promptly to standard output.
#[verifier::external_body]
pub(crate) fn build_console_tracer_provider(resource: opentelemetry_sdk::Resource) -> opentelemetry_sdk::trace::SdkTracerProvider {
    opentelemetry_sdk::trace::SdkTracerProvider::builder()
        .with_simple_exporter(opentelemetry_stdout::SpanExporter::default())
        .with_sampler(opentelemetry_sdk::trace::Sampler::AlwaysOn)
        .with_resource(resource)
        .build()
}

/// Relies on `opentelemetry_otlp::SpanExporter::builder`, `with_tonic`,
/// `with_endpoint` and `build`: a batching gRPC span exporter for the
/// given endpoint, or the builder's error when the endpoint or the
/// transport configuration is rejected.
#[verifier::external_body]
pub(crate) fn build_otlp_span_exporter(endpoint: &str) -> Result<opentelemetry_otlp::SpanExporter, opentelemetry_otlp::ExporterBuildError> {
    opentelemetry_otlp::SpanExporter::builder()
        .with_tonic()
        .with_endpoint(endpoint.to_string())
        .build()
}

/// Relies on `SdkTracerProvider::builder`, `with_batch_exporter`,
/// `with_sampler` (`Sampler::AlwaysOn`), `with_resource` and `build`:
/// a provider that batches spans to the given exporter.
#[verifier::external_body]
pub(crate) fn build_batch_tracer_provider(
    exporter: opentelemetry_otlp::SpanExporter,
    resource: opentelemetry_sdk::Resource,
) -> opentelemetry_sdk::trace::SdkTracerProvider {
    opentelemetry_sdk::trace::SdkTracerProvider::builder()
        .with_batch_exporter(exporter)
        .with_sampler(opentelemetry_sdk::trace::Sampler::AlwaysOn)
        .with_resource(resource)
        .build()
}

/// Relies on `TracerProvider::tracer`: a tracer under the given
/// instrumentation scope name.
#[verifier::external_body]
pub(crate) fn provider_tracer(provider: &opentelemetry_sdk::trace::SdkTracerProvider, scope: &'static str) -> opentelemetry_sdk::trace::SdkTracer {
    provider.tracer(scope)
}

/// Relies on `opentelemetry::global::set_tracer_provider`: installs the
/// provider as the process-wide tracer provider.
#[verifier::external_body]
pub(crate) fn install_global_tracer_provider(provider: &opentelemetry_sdk::trace::SdkTracerProvider) {
    opentelemetry::global::set_tracer_provider(provider.clone());
}

/// Relies on `tracing_subscriber::registry`, `EnvFilter::from_default_env`,
/// `tracing_opentelemetry::layer`, `with_tracer` and `try_init`: routes
/// spans recorded through `tracing` to the given tracer, filtered by the
/// standard `RUST_LOG` convention; errs when a process-wide subscriber
/// is already installed, with the report as text.
#[verifier::external_body]
pub(crate) fn install_tracing_subscriber(tracer: opentelemetry_sdk::trace::SdkTracer) -> Result<(), String> {
    tracing_subscriber::registry()
        .with(tracing_subscriber::EnvFilter::from_default_env())
        .with(tracing_opentelemetry::layer().with_tracer(tracer))
        .try_init()
        .map_err(|e| e.to_string())
}

/// Relies on `opentelemetry_stdout::MetricExporter::default`,
/// `PeriodicReader::builder`/`build`, `SdkMeterProvider::builder`,
/// `with_reader`, `with_resource` and `build`: a provider that
/// periodically writes metrics to standard output.
#[verifier::external_body]
pub(crate) fn build_console_meter_provider(resource: opentelemetry_sdk::Resource) -> opentelemetry_sdk::metrics::SdkMeterProvider {
    let reader = opentelemetry_sdk::metrics::PeriodicReader::builder(
        opentelemetry_stdout::MetricExporter::default(),
    ).build();
    opentelemetry_sdk::metrics::SdkMeterProvider::builder()
        .with_reader(reader)
        .with_resource(resource)
        .build()
}

/// Relies on `opentelemetry_otlp::MetricExporter::builder`, `with_tonic`,
/// `with_endpoint` and `build`: a gRPC metric exporter for the given
/// endpoint, or the builder's error when the configuration is rejected.
#[verifier::external_body]
pub(crate) fn build_otlp_metric_exporter(endpoint: &str) -> Result<opentelemetry_otlp::MetricExporter, opentelemetry_otlp::ExporterBuildError> {
    opentelemetry_otlp::MetricExporter::builder()
        .with_tonic()
        .with_endpoint(endpoint.to_string())
        .build()
}

/// Relies on `PeriodicReader::builder`, `with_interval` (converting the
/// given whole seconds through `Duration::from_secs`), `build`, and the
/// `SdkMeterProvider` builder: a provider that flushes metrics to the
/// exporter at the given fixed interval.
#[verifier::external_body]
pub(crate) fn build_periodic_meter_provider(
    exporter: opentelemetry_otlp::MetricExporter,
    resource: opentelemetry_sdk::Resource,
    interval_secs: u64,
) -> opentelemetry_sdk::metrics::SdkMeterProvider {
    let reader = opentelemetry_sdk::metrics::PeriodicReader::builder(exporter)
        .with_interval(std::time::Duration::from_secs(interval_secs))
        .build();
    opentelemetry_sdk::metrics::SdkMeterProvider::builder()
        .with_reader(reader)
        .with_resource(resource)
        .build()
}

/// Relies on `opentelemetry::global::set_meter_provider`: installs the
/// provider as the process-wide meter provider.
#[verifier::external_body]
pub(crate) fn install_global_meter_provider(provider: &opentelemetry_sdk::metrics::SdkMeterProvider) {
    opentelemetry::global::set_meter_provider(provider.clone());
}

/// Relies on `SdkTracerProvider::shutdown_with_timeout` (converting the
/// given milliseconds through `Duration::from_millis`): flushes buffered
/// spans, waiting at most that long; true exactly when the SDK reports
/// a clean shutdown.
#[verifier::external_body]
pub(crate) fn tracer_provider_shutdown(provider: &opentelemetry_sdk::trace::SdkTracerProvider, timeout_millis: u64) -> bool {
    provider.shutdown_with_timeout(std::time::Duration::from_millis(timeout_millis)).is_ok()
}

/// Relies on `SdkMeterProvider::shutdown`: flushes pending metrics;
/// true exactly when the SDK reports a clean shutdown.
#[verifier::external_body]
pub(crate) fn meter_provider_shutdown(provider: &opentelemetry_sdk::metrics::SdkMeterProvider) -> bool {
    provider.shutdown().is_ok()
}

/// Relies on `opentelemetry::global::tracer`, `Tracer::start`,
/// `Context::current_with_span` and `Context::attach`: starts a span
/// with the given name under the process-wide tracer and makes it the
/// current scope; the scope stays current until the guard drops, and
/// the span ends with it.
#[verifier::external_body]
pub(crate) fn begin_span_scope(scope: &'static str, name: &str) -> opentelemetry::ContextGuard {
    let tracer = opentelemetry::global::tracer(scope);
    let span = tracer.start(name.to_string());
    opentelemetry::Context::current_with_span(span).attach()
}

/// Relies on `core::mem::drop`: releases the guard, closing the span
/// scope it holds.
#[verifier::external_body]
pub(crate) fn end_span_scope(guard: opentelemetry::ContextGuard) {
    drop(guard)
}

/// Relies on `opentelemetry::global::meter`, `Meter::u64_counter`,
/// `with_description` and `build`: a counter handle registered under
/// the given name against the process-wide meter provider; the SDK
/// resolves equal names under one scope to one underlying instrument.
#[verifier::external_body]
pub(crate) fn meter_u64_counter(scope: &'static str, name: &str, description: &str) -> opentelemetry::metrics::Counter<u64> {
    opentelemetry::global::meter(scope)
        .u64_counter(name.to_string())
        .with_description(description.to_string())
        .build()
}

/// Relies on `opentelemetry::global::meter`, `Meter::u64_histogram`,
/// `with_description` and `build`: a histogram handle registered under
/// the given name against the process-wide meter provider; the SDK
/// resolves equal names under one scope to one underlying instrument.
#[verifier::external_body]
pub(crate) fn meter_u64_histogram(scope: &'static str, name: &str, description: &str) -> opentelemetry::metrics::Histogram<u64> {
    opentelemetry::global::meter(scope)
        .u64_histogram(name.to_string())
        .with_description(description.to_string())
        .build()
}

/// Relies on `Histogram::record`: records one value, with no extra
/// attributes.
#[verifier::external_body]
pub(crate) fn histogram_record(histogram: &opentelemetry::metrics::Histogram<u64>, value: u64) {
    histogram.record(value, &[]);
}

/// Relies on `std::time::Instant::now`: a reading of the monotonic
/// clock.
#[verifier::external_body]
pub(crate) fn instant_now() -> std::time::Instant {
    std::time::Instant::now()
}

/// Relies on `Instant::elapsed`, converting the result through
/// `Duration::as_micros`: the whole microseconds since the reading was
/// taken, truncated to 64 bits.
#[verifier::external_body]
pub(crate) fn elapsed_micros(start: &std::time::Instant) -> u64 {
    start.elapsed().as_micros() as u64
}

/// Relies on `ExporterBuildError`'s `Display` implementation: the
/// error's report as text.
#[verifier::external_body]
pub(crate) fn exporter_build_error_message(error: &opentelemetry_otlp::ExporterBuildError) -> String {
    error.to_string()
}

} // verus!
