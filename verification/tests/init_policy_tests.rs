use rust_mobile_telemetry::config::ConfigBuilder;
use rust_mobile_telemetry::config::ExporterType;
use rust_mobile_telemetry::error::TelemetryError;
use rust_mobile_telemetry::init::init_telemetry;
use rust_mobile_telemetry::init::shutdown_telemetry;

#[test]
fn test_double_initialization_errors() {
    let build = || {
        ConfigBuilder::new()
            .service_name("svc")
            .exporter_type(ExporterType::Console)
            .build()
    };

    let first = init_telemetry(build());
    let telemetry = first.expect("first console initialization succeeds");
    assert!(telemetry.tracer_provider.is_some());
    assert!(telemetry.meter_provider.is_some());

    // A second initialization must not silently replace the installed
    // subscriber: it reports the conflict instead.
    let second = init_telemetry(build());
    assert!(matches!(second, Err(TelemetryError::SubscriberInstall(_))));

    assert!(shutdown_telemetry(telemetry));
}
