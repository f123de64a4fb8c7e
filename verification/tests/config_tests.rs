use rust_mobile_telemetry::config::ConfigBuilder;
use rust_mobile_telemetry::config::ExporterType;
use rust_mobile_telemetry::config::MobileMetadata;
use rust_mobile_telemetry::exporters::effective_endpoint;
use rust_mobile_telemetry::exporters::resource_attributes;

#[test]
fn test_defaults() {
    let config = ConfigBuilder::new().build();
    assert_eq!(config.service_name, "unknown_service");
    assert_eq!(config.otlp_endpoint, None);
    assert!(config.enable_metrics);
    assert!(config.enable_tracing);
    assert_eq!(config.exporter_type, ExporterType::Console);
    assert_eq!(config.mobile_metadata.app_version, None);
    assert_eq!(config.mobile_metadata.device_os, None);
    assert_eq!(config.mobile_metadata.device_id, None);
}

#[test]
fn test_service_name_only_keeps_defaults() {
    let config = ConfigBuilder::new().service_name("X").build();
    assert_eq!(config.service_name, "X");
    assert_eq!(config.exporter_type, ExporterType::Console);
    assert!(config.enable_metrics);
    assert!(config.enable_tracing);
    assert_eq!(config.otlp_endpoint, None);
    assert_eq!(config.mobile_metadata.app_version, None);
    assert_eq!(config.mobile_metadata.device_os, None);
    assert_eq!(config.mobile_metadata.device_id, None);
}

#[test]
fn test_setters_overwrite() {
    let metadata = MobileMetadata {
        app_version: Some("1.2.3".to_string()),
        device_os: Some("android-14".to_string()),
        device_id: None,
    };
    let config = ConfigBuilder::new()
        .service_name("svc")
        .otlp_endpoint("http://collector:4317")
        .enable_metrics(false)
        .enable_tracing(false)
        .mobile_metadata(metadata)
        .exporter_type(ExporterType::Otlp)
        .build();
    assert_eq!(config.service_name, "svc");
    assert_eq!(config.otlp_endpoint.as_deref(), Some("http://collector:4317"));
    assert!(!config.enable_metrics);
    assert!(!config.enable_tracing);
    assert_eq!(config.exporter_type, ExporterType::Otlp);
    assert_eq!(config.mobile_metadata.app_version.as_deref(), Some("1.2.3"));
    assert_eq!(config.mobile_metadata.device_os.as_deref(), Some("android-14"));
    assert_eq!(config.mobile_metadata.device_id, None);
}

#[test]
fn test_later_setter_wins() {
    let config = ConfigBuilder::new().service_name("first").service_name("second").build();
    assert_eq!(config.service_name, "second");
}

#[test]
fn test_with_env_overrides_when_set() {
    let config = ConfigBuilder::new()
        .service_name("explicit")
        .otlp_endpoint("http://explicit:4317")
        .with_env(
            Some("from-env".to_string()),
            Some("http://env:4317".to_string()),
        )
        .build();
    assert_eq!(config.service_name, "from-env");
    assert_eq!(config.otlp_endpoint.as_deref(), Some("http://env:4317"));
}

#[test]
fn test_with_env_unset_leaves_state() {
    let config = ConfigBuilder::new()
        .service_name("explicit")
        .otlp_endpoint("http://explicit:4317")
        .with_env(None, None)
        .build();
    assert_eq!(config.service_name, "explicit");
    assert_eq!(config.otlp_endpoint.as_deref(), Some("http://explicit:4317"));
}

#[test]
fn test_with_env_empty_leaves_state() {
    let config = ConfigBuilder::new()
        .service_name("explicit")
        .with_env(Some(String::new()), Some(String::new()))
        .build();
    assert_eq!(config.service_name, "explicit");
    assert_eq!(config.otlp_endpoint, None);
}

#[test]
fn test_with_env_endpoint_set_when_absent_before() {
    let config = ConfigBuilder::new()
        .with_env(None, Some("http://env:4317".to_string()))
        .build();
    assert_eq!(config.service_name, "unknown_service");
    assert_eq!(config.otlp_endpoint.as_deref(), Some("http://env:4317"));
}

#[test]
fn test_effective_endpoint_default() {
    let config = ConfigBuilder::new().exporter_type(ExporterType::Otlp).build();
    assert_eq!(effective_endpoint(&config), "http://localhost:4317");
}

#[test]
fn test_effective_endpoint_configured() {
    let config = ConfigBuilder::new().otlp_endpoint("http://collector:4317").build();
    assert_eq!(effective_endpoint(&config), "http://collector:4317");
}

#[test]
fn test_resource_attributes_service_name_only() {
    let config = ConfigBuilder::new().service_name("svc").build();
    let attrs = resource_attributes(&config);
    assert_eq!(attrs, vec![("service.name".to_string(), "svc".to_string())]);
}

#[test]
fn test_resource_attributes_with_metadata() {
    let metadata = MobileMetadata {
        app_version: Some("2.0".to_string()),
        device_os: None,
        device_id: Some("abc123".to_string()),
    };
    let config = ConfigBuilder::new().service_name("svc").mobile_metadata(metadata).build();
    let attrs = resource_attributes(&config);
    assert_eq!(
        attrs,
        vec![
            ("service.name".to_string(), "svc".to_string()),
            ("app.version".to_string(), "2.0".to_string()),
            ("device.id".to_string(), "abc123".to_string()),
        ]
    );
}
