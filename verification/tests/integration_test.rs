use rust_mobile_telemetry::instrumentation::get_counter;
use rust_mobile_telemetry::instrumentation::with_span;
use rust_mobile_telemetry::init::shutdown_telemetry;
use rust_mobile_telemetry::init_telemetry;
use rust_mobile_telemetry::ConfigBuilder;
use rust_mobile_telemetry::ExporterType;

#[test]
fn test_initialization_and_instrumentation() {
    // Use the console exporter to avoid network requirements in tests.
    let config = ConfigBuilder::new()
        .service_name("test-service")
        .exporter_type(ExporterType::Console)
        .build();

    let init_result = init_telemetry(config);
    assert!(init_result.is_ok());

    let counter = get_counter("test_counter", "A test counter");

    with_span("test_span", || {
        counter.add(1, &[]);
    });

    // Flush and release the providers before the process ends.
    shutdown_telemetry(init_result.unwrap());
}
