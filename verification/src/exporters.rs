//! Exporter construction: a local/console path and a remote OTLP path
//! for each telemetry signal, plus the resource descriptor and the
//! endpoint defaulting they share.

use vstd::prelude::*;

use crate::config::Config;
use crate::error::TelemetryError;
use crate::otel;

verus! {

/// Flush interval of the remote metric exporter, in seconds.
pub const METRIC_EXPORT_INTERVAL_SECS: u64 = 3;

/// The endpoint used by the remote exporters when none is configured.
pub open spec fn default_endpoint_spec() -> Seq<char> {
    "http://localhost:4317"@
}

/// The endpoint the remote exporters are given: the configured one, or
/// the default collector address when none is configured.
pub open spec fn effective_endpoint_spec(c: Config) -> Seq<char> {
    if c.otlp_endpoint is Some {
        c.otlp_endpoint->0@
    } else {
        default_endpoint_spec()
    }
}

/// Resolves the collector endpoint for a configuration.
pub fn effective_endpoint(config: &Config) -> (r: String)
    ensures
        r@ == effective_endpoint_spec(*config),
{
    match &config.otlp_endpoint {
        Some(endpoint) => String::from_str(endpoint.as_str()),
        None => String::from_str("http://localhost:4317"),
    }
}

/// The resource attributes a configuration yields: the service name,
/// then each device tag that is present, under its well-known key.
pub open spec fn resource_attributes_spec(c: Config) -> Seq<(Seq<char>, Seq<char>)> {
    let with_name = seq![("service.name"@, c.service_name@)];
    let with_version = if c.mobile_metadata.app_version is Some {
        with_name.push(("app.version"@, c.mobile_metadata.app_version->0@))
    } else {
        with_name
    };
    let with_os = if c.mobile_metadata.device_os is Some {
        with_version.push(("device.os"@, c.mobile_metadata.device_os->0@))
    } else {
        with_version
    };
    if c.mobile_metadata.device_id is Some {
        with_os.push(("device.id"@, c.mobile_metadata.device_id->0@))
    } else {
        with_os
    }
}

/// Assembles the resource attributes for a configuration: the service
/// name always, and each mobile metadata field exactly when present.
pub fn resource_attributes(config: &Config) -> (r: Vec<(String, String)>)
    ensures
        r@.map_values(|p: (String, String)| (p.0@, p.1@)) == resource_attributes_spec(*config),
{
    let mut attrs: Vec<(String, String)> = Vec::new();
    attrs.push((
        String::from_str("service.name"),
        String::from_str(config.service_name.as_str()),
    ));
    match &config.mobile_metadata.app_version {
        Some(app_version) => {
            attrs.push((String::from_str("app.version"), String::from_str(app_version.as_str())));
        },
        None => {},
    }
    match &config.mobile_metadata.device_os {
        Some(device_os) => {
            attrs.push((String::from_str("device.os"), String::from_str(device_os.as_str())));
        },
        None => {},
    }
    match &config.mobile_metadata.device_id {
        Some(device_id) => {
            attrs.push((String::from_str("device.id"), String::from_str(device_id.as_str())));
        },
        None => {},
    }
    proof {
        assert(attrs@.map_values(|p: (String, String)| (p.0@, p.1@))
            =~= resource_attributes_spec(*config));
    }
    attrs
}

/// Builds the resource descriptor a configuration describes: it holds
/// the service name and the present device tags, each under its
/// well-known key and nothing else.
pub fn build_resource(config: &Config) -> (r: opentelemetry_sdk::Resource)
    ensures
        otel::resource_entries(r) == otel::last_wins_map(resource_attributes_spec(*config)),
{
    let attrs = resource_attributes(config);
    otel::make_resource(attrs)
}

/// Helper: collapsing a pair sequence that ends in `p` first collapses
/// the prefix, then lets `p` win.
proof fn lemma_last_wins_push(s: Seq<(Seq<char>, Seq<char>)>, p: (Seq<char>, Seq<char>))
    ensures
        otel::last_wins_map(s.push(p)) == otel::last_wins_map(s).insert(p.0, p.1),
{
    assert(s.push(p).drop_last() =~= s);
    assert(s.push(p).last() == p);
}

/// Law: the resource map a configuration collapses to holds the
/// service name under `service.name`, each device tag exactly when its
/// field is present, under its own well-known key, and nothing else.
pub proof fn lemma_resource_map_contents(c: Config)
    ensures
        ({
            let m = otel::last_wins_map(resource_attributes_spec(c));
            &&& m.contains_key("service.name"@) && m["service.name"@] == c.service_name@
            &&& (m.contains_key("app.version"@) <==> c.mobile_metadata.app_version is Some)
            &&& (c.mobile_metadata.app_version is Some
                ==> m["app.version"@] == c.mobile_metadata.app_version->0@)
            &&& (m.contains_key("device.os"@) <==> c.mobile_metadata.device_os is Some)
            &&& (c.mobile_metadata.device_os is Some
                ==> m["device.os"@] == c.mobile_metadata.device_os->0@)
            &&& (m.contains_key("device.id"@) <==> c.mobile_metadata.device_id is Some)
            &&& (c.mobile_metadata.device_id is Some
                ==> m["device.id"@] == c.mobile_metadata.device_id->0@)
            &&& forall|k: Seq<char>|
                m.contains_key(k) ==> (k == "service.name"@ || k == "app.version"@
                    || k == "device.os"@ || k == "device.id"@)
        }),
{
    reveal_strlit("service.name");
    reveal_strlit("app.version");
    reveal_strlit("device.os");
    reveal_strlit("device.id");
    assert("service.name"@.len() == 12);
    assert("app.version"@.len() == 11);
    assert("device.os"@.len() == 9);
    assert("device.id"@.len() == 9);
    assert("device.os"@[7] == 'o');
    assert("device.id"@[7] == 'i');
    let empty_pairs = Seq::<(Seq<char>, Seq<char>)>::empty();
    assert(otel::last_wins_map(empty_pairs) == Map::<Seq<char>, Seq<char>>::empty());
    let with_name = seq![("service.name"@, c.service_name@)];
    assert(with_name.drop_last() =~= empty_pairs);
    assert(with_name.last() == ("service.name"@, c.service_name@));
    assert(otel::last_wins_map(with_name) == Map::<Seq<char>, Seq<char>>::empty().insert(
        "service.name"@,
        c.service_name@,
    ));
    let with_version = if c.mobile_metadata.app_version is Some {
        with_name.push(("app.version"@, c.mobile_metadata.app_version->0@))
    } else {
        with_name
    };
    if c.mobile_metadata.app_version is Some {
        lemma_last_wins_push(with_name, ("app.version"@, c.mobile_metadata.app_version->0@));
    }
    let with_os = if c.mobile_metadata.device_os is Some {
        with_version.push(("device.os"@, c.mobile_metadata.device_os->0@))
    } else {
        with_version
    };
    if c.mobile_metadata.device_os is Some {
        lemma_last_wins_push(with_version, ("device.os"@, c.mobile_metadata.device_os->0@));
    }
    if c.mobile_metadata.device_id is Some {
        lemma_last_wins_push(with_os, ("device.id"@, c.mobile_metadata.device_id->0@));
    }
    assert("service.name"@ != "app.version"@);
    assert("service.name"@ != "device.os"@);
    assert("service.name"@ != "device.id"@);
    assert("app.version"@ != "device.os"@);
    assert("app.version"@ != "device.id"@);
    assert("device.os"@ != "device.id"@);
}

/// Constructs the console tracer: every completed span is written
/// promptly to standard output under an always-on sampling policy, and
/// the provider is installed as the process-wide tracer provider.
/// Console construction never fails.
pub fn init_console_tracer(resource: opentelemetry_sdk::Resource) -> (opentelemetry_sdk::trace::SdkTracer, opentelemetry_sdk::trace::SdkTracerProvider) {
    let provider = otel::build_console_tracer_provider(resource);
    otel::install_global_tracer_provider(&provider);
    let tracer = otel::provider_tracer(&provider, "rust_mobile_telemetry");
    (tracer, provider)
}

/// Constructs the remote tracer: spans are batched to the configured
/// collector endpoint (or the default address) over gRPC, under an
/// always-on sampling policy, and the provider is installed as the
/// process-wide tracer provider. Errs exactly when the transport
/// rejects the exporter configuration, with the builder's report.
pub fn init_otlp_tracer(config: &Config, resource: opentelemetry_sdk::Resource) -> (r: Result<
    (opentelemetry_sdk::trace::SdkTracer, opentelemetry_sdk::trace::SdkTracerProvider),
    TelemetryError,
>)
    ensures
        r is Err ==> r->Err_0 is ExporterBuild,
{
    let endpoint = effective_endpoint(config);
    match otel::build_otlp_span_exporter(endpoint.as_str()) {
        Ok(exporter) => {
            let provider = otel::build_batch_tracer_provider(exporter, resource);
            otel::install_global_tracer_provider(&provider);
            let tracer = otel::provider_tracer(&provider, "rust_mobile_telemetry");
            Ok((tracer, provider))
        },
        Err(e) => Err(TelemetryError::ExporterBuild(otel::exporter_build_error_message(&e))),
    }
}

/// Constructs the console meter provider: metrics are periodically
/// written to standard output. Console construction never fails.
pub fn init_console_meter_provider(resource: opentelemetry_sdk::Resource) -> opentelemetry_sdk::metrics::SdkMeterProvider {
    otel::build_console_meter_provider(resource)
}

/// Constructs the remote meter provider: metrics are flushed to the
/// configured collector endpoint (or the default address) over gRPC
/// every [`METRIC_EXPORT_INTERVAL_SECS`] seconds. Errs exactly when the
/// transport rejects the exporter configuration, with the builder's
/// report.
pub fn init_otlp_meter_provider(config: &Config, resource: opentelemetry_sdk::Resource) -> (r: Result<
    opentelemetry_sdk::metrics::SdkMeterProvider,
    TelemetryError,
>)
    ensures
        r is Err ==> r->Err_0 is ExporterBuild,
{
    let endpoint = effective_endpoint(config);
    match otel::build_otlp_metric_exporter(endpoint.as_str()) {
        Ok(exporter) => {
            let provider = otel::build_periodic_meter_provider(
                exporter,
                resource,
                METRIC_EXPORT_INTERVAL_SECS,
            );
            Ok(provider)
        },
        Err(e) => Err(TelemetryError::ExporterBuild(otel::exporter_build_error_message(&e))),
    }
}

} // verus!
