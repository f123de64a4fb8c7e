//! Settings for the telemetry pipeline: an immutable configuration
//! record and a fluent builder with environment-variable overrides.

use vstd::prelude::*;

verus! {

/// Free-form resource tags describing a mobile or edge device; every
/// field is optional and is attached verbatim to the telemetry
/// resource descriptor when present.
#[derive(Debug, Clone)]
pub struct MobileMetadata {
    pub app_version: Option<String>,
    pub device_os: Option<String>,
    pub device_id: Option<String>,
}

/// Which exporter backend telemetry is sent through: a remote OTLP
/// collector over the network, or the local console sink.
#[derive(Debug, Clone, Copy, PartialEq, Eq, Structural)]
pub enum ExporterType {
    Otlp,
    Console,
}

/// Immutable settings record, constructed only through [`ConfigBuilder`].
#[derive(Debug, Clone)]
pub struct Config {
    pub service_name: String,
    pub otlp_endpoint: Option<String>,
    pub enable_metrics: bool,
    pub enable_tracing: bool,
    pub mobile_metadata: MobileMetadata,
    pub exporter_type: ExporterType,
}

/// Holds when no device tag is present.
pub open spec fn metadata_is_empty(m: MobileMetadata) -> bool {
    m.app_version is None && m.device_os is None && m.device_id is None
}

/// Holds exactly of the configuration that `Config::default()` yields:
/// console exporter, both signals enabled, no endpoint, no device tags.
pub open spec fn config_is_default(c: Config) -> bool {
    &&& c.service_name@ == "unknown_service"@
    &&& c.otlp_endpoint is None
    &&& c.enable_metrics == true
    &&& c.enable_tracing == true
    &&& metadata_is_empty(c.mobile_metadata)
    &&& c.exporter_type == ExporterType::Console
}

impl Default for MobileMetadata {
    /// All tags absent.
    fn default() -> (r: Self)
        ensures
            metadata_is_empty(r),
    {
        MobileMetadata { app_version: None, device_os: None, device_id: None }
    }
}

impl Default for Config {
    /// Service name `"unknown_service"`, console exporter, both signals
    /// enabled, no endpoint, empty metadata.
    fn default() -> (r: Self)
        ensures
            config_is_default(r),
    {
        Config {
            service_name: String::from_str("unknown_service"),
            otlp_endpoint: None,
            enable_metrics: true,
            enable_tracing: true,
            mobile_metadata: MobileMetadata::default(),
            exporter_type: ExporterType::Console,
        }
    }
}

/// Fluent builder for [`Config`]: each setter consumes the builder and
/// returns it, and `build` yields the finished record.
pub struct ConfigBuilder {
    config: Config,
}

impl View for ConfigBuilder {
    type V = Config;

    /// The in-progress configuration that `build` would currently yield.
    closed spec fn view(&self) -> Config {
        self.config
    }
}

/// Holds when an environment value overrides a builder field: the
/// variable was set and its value is non-empty.
pub open spec fn env_overrides(v: Option<String>) -> bool {
    v is Some && v->0@.len() > 0
}

impl ConfigBuilder {
    /// Starts from the default configuration.
    pub fn new() -> (r: Self)
        ensures
            config_is_default(r@),
    {
        ConfigBuilder { config: Config::default() }
    }

    /// Overwrites the service name.
    pub fn service_name(self, name: &str) -> (r: Self)
        ensures
            r@.service_name@ == name@,
            r@ == (Config { service_name: r@.service_name, ..self@ }),
    {
        let mut config = self.config;
        config.service_name = String::from_str(name);
        ConfigBuilder { config }
    }

    /// Sets the collector endpoint used by the remote exporter.
    pub fn otlp_endpoint(self, endpoint: &str) -> (r: Self)
        ensures
            r@.otlp_endpoint is Some && r@.otlp_endpoint->0@ == endpoint@,
            r@ == (Config { otlp_endpoint: r@.otlp_endpoint, ..self@ }),
    {
        let mut config = self.config;
        config.otlp_endpoint = Some(String::from_str(endpoint));
        ConfigBuilder { config }
    }

    /// Turns the metrics signal on or off.
    pub fn enable_metrics(self, enable: bool) -> (r: Self)
        ensures
            r@ == (Config { enable_metrics: enable, ..self@ }),
    {
        let mut config = self.config;
        config.enable_metrics = enable;
        ConfigBuilder { config }
    }

    /// Turns the tracing signal on or off.
    pub fn enable_tracing(self, enable: bool) -> (r: Self)
        ensures
            r@ == (Config { enable_tracing: enable, ..self@ }),
    {
        let mut config = self.config;
        config.enable_tracing = enable;
        ConfigBuilder { config }
    }

    /// Overwrites the device metadata tags.
    pub fn mobile_metadata(self, metadata: MobileMetadata) -> (r: Self)
        ensures
            r@ == (Config { mobile_metadata: metadata, ..self@ }),
    {
        let mut config = self.config;
        config.mobile_metadata = metadata;
        ConfigBuilder { config }
    }

    /// Selects the exporter backend.
    pub fn exporter_type(self, exporter_type: ExporterType) -> (r: Self)
        ensures
            r@ == (Config { exporter_type: exporter_type, ..self@ }),
    {
        let mut config = self.config;
        config.exporter_type = exporter_type;
        ConfigBuilder { config }
    }

    /// Applies environment overrides for the service name and the
    /// collector endpoint. A value overrides the corresponding field if
    /// and only if it was set and is non-empty; an absent or empty
    /// value leaves the prior builder state untouched. The caller hands
    /// in the values of `OTEL_SERVICE_NAME` and
    /// `OTEL_EXPORTER_OTLP_ENDPOINT`, read from the process
    /// environment.
    pub fn with_env(self, service_name: Option<String>, otlp_endpoint: Option<String>) -> (r: Self)
        ensures
            env_overrides(service_name) ==> r@.service_name == service_name->0,
            !env_overrides(service_name) ==> r@.service_name == self@.service_name,
            env_overrides(otlp_endpoint) ==> (r@.otlp_endpoint is Some
                && r@.otlp_endpoint->0 == otlp_endpoint->0),
            !env_overrides(otlp_endpoint) ==> r@.otlp_endpoint == self@.otlp_endpoint,
            r@.enable_metrics == self@.enable_metrics,
            r@.enable_tracing == self@.enable_tracing,
            r@.mobile_metadata == self@.mobile_metadata,
            r@.exporter_type == self@.exporter_type,
    {
        let mut config = self.config;
        match service_name {
            Some(name) => {
                if !name.as_str().is_empty() {
                    config.service_name = name;
                }
            },
            None => {},
        }
        match otlp_endpoint {
            Some(endpoint) => {
                if !endpoint.as_str().is_empty() {
                    config.otlp_endpoint = Some(endpoint);
                }
            },
            None => {},
        }
        ConfigBuilder { config }
    }

    /// Yields the finished configuration, consuming the builder.
    pub fn build(self) -> (r: Config)
        ensures
            r == self@,
    {
        self.config
    }
}

/// Law: a configuration built from the defaults by setting only the
/// service name keeps the console exporter, keeps both signals
/// enabled, and carries no device metadata and no endpoint.
pub proof fn lemma_service_name_only_keeps_defaults(d: Config, name: String)
    requires
        config_is_default(d),
    ensures
        ({
            let c = (Config { service_name: name, ..d });
            &&& c.service_name == name
            &&& c.exporter_type == ExporterType::Console
            &&& c.enable_metrics == true
            &&& c.enable_tracing == true
            &&& c.otlp_endpoint is None
            &&& metadata_is_empty(c.mobile_metadata)
        }),
{
}

impl Default for ConfigBuilder {
    /// Same starting point as [`ConfigBuilder::new`].
    fn default() -> (r: Self)
        ensures
            config_is_default(r@),
    {
        ConfigBuilder::new()
    }
}

} // verus!
