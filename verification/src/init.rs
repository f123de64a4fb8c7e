//! Global initialization: builds the resource descriptor, constructs
//! the exporters a configuration selects, installs the process-wide
//! providers, and tears them down again.

use vstd::prelude::*;

use crate::config::Config;
use crate::config::ExporterType;
use crate::error::TelemetryError;
use crate::exporters;
use crate::otel;

verus! {

/// Longest wait for buffered spans to flush during shutdown, in
/// milliseconds.
pub const SHUTDOWN_TIMEOUT_MILLIS: u64 = 5000;

/// Handles to the providers a successful initialization installed; a
/// field is present exactly when its signal was enabled. Pass it to
/// [`shutdown_telemetry`] to flush and release them.
#[derive(Debug)]
pub struct Telemetry {
    pub tracer_provider: Option<opentelemetry_sdk::trace::SdkTracerProvider>,
    pub meter_provider: Option<opentelemetry_sdk::metrics::SdkMeterProvider>,
}

/// Installs the telemetry pipeline a configuration describes.
///
/// Builds the resource descriptor from the service name and the
/// present metadata fields, then, for each enabled signal, constructs
/// the exporter the configuration's backend selects and installs the
/// resulting provider process-wide. For tracing it also routes the
/// process-wide `tracing` subscriber to the new tracer, filtered by
/// the standard `RUST_LOG` convention; a second initialization is
/// reported as [`TelemetryError::SubscriberInstall`] rather than
/// silently replacing the subscriber. There is no rollback: when
/// tracing installs and metrics construction then fails, tracing stays
/// installed and the metrics error is returned.
pub fn init_telemetry(config: Config) -> (r: Result<Telemetry, TelemetryError>)
    ensures
        r is Ok ==> (r->Ok_0.tracer_provider is Some <==> config.enable_tracing),
        r is Ok ==> (r->Ok_0.meter_provider is Some <==> config.enable_metrics),
        !config.enable_tracing && !config.enable_metrics ==> r is Ok,
        !config.enable_tracing && config.exporter_type == ExporterType::Console ==> r is Ok,
        r is Err ==> config.enable_tracing || config.enable_metrics,
        r is Err && config.exporter_type == ExporterType::Console ==> r->Err_0 is SubscriberInstall,
        r is Err && !config.enable_tracing ==> r->Err_0 is ExporterBuild,
{
    let mut tracer_provider: Option<opentelemetry_sdk::trace::SdkTracerProvider> = None;

    if config.enable_tracing {
        let resource = exporters::build_resource(&config);
        let (tracer, provider) = match config.exporter_type {
            ExporterType::Console => exporters::init_console_tracer(resource),
            ExporterType::Otlp => {
                match exporters::init_otlp_tracer(&config, resource) {
                    Ok(built) => built,
                    Err(e) => {
                        return Err(e);
                    },
                }
            },
        };
        match otel::install_tracing_subscriber(tracer) {
            Ok(()) => {},
            Err(report) => {
                return Err(TelemetryError::SubscriberInstall(report));
            },
        }
        tracer_provider = Some(provider);
    }

    let mut meter_provider: Option<opentelemetry_sdk::metrics::SdkMeterProvider> = None;

    if config.enable_metrics {
        let resource = exporters::build_resource(&config);
        let provider = match config.exporter_type {
            ExporterType::Console => exporters::init_console_meter_provider(resource),
            ExporterType::Otlp => {
                match exporters::init_otlp_meter_provider(&config, resource) {
                    Ok(built) => built,
                    Err(e) => {
                        return Err(e);
                    },
                }
            },
        };
        otel::install_global_meter_provider(&provider);
        meter_provider = Some(provider);
    }

    Ok(Telemetry { tracer_provider, meter_provider })
}

/// Flushes and releases the installed providers, waiting at most
/// [`SHUTDOWN_TIMEOUT_MILLIS`] milliseconds for buffered spans. Safe
/// when nothing was installed: with both handles absent it does
/// nothing and reports success. Returns true exactly when every
/// installed signal shut down cleanly.
pub fn shutdown_telemetry(telemetry: Telemetry) -> (r: bool)
    ensures
        telemetry.tracer_provider is None && telemetry.meter_provider is None ==> r,
{
    let traces_ok = match &telemetry.tracer_provider {
        Some(provider) => otel::tracer_provider_shutdown(provider, SHUTDOWN_TIMEOUT_MILLIS),
        None => true,
    };
    let metrics_ok = match &telemetry.meter_provider {
        Some(provider) => otel::meter_provider_shutdown(provider),
        None => true,
    };
    traces_ok && metrics_ok
}

} // verus!
