//! Observability setup for backend and edge services: a configuration
//! builder, exporter selection (local console or remote collector),
//! global initialization, and span/metric instrumentation helpers.

pub mod config;
pub mod error;
pub mod exporters;
pub mod init;
pub mod instrumentation;
mod otel;

pub use config::Config;
pub use config::ConfigBuilder;
pub use config::ExporterType;
pub use config::MobileMetadata;
pub use init::init_telemetry;
pub use instrumentation::with_span;
