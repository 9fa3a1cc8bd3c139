use observability_demo::bootstrap::BootstrapError;
use observability_demo::bootstrap::ExporterConfig;
use observability_demo::bootstrap::ResourceDescriptor;
use observability_demo::bootstrap::TelemetryHandle;
use observability_demo::bootstrap::default_collector_endpoint;
use observability_demo::bootstrap::default_resource;
use observability_demo::bootstrap::endpoint_or_default;
use observability_demo::bootstrap::telemetry_plan;
use observability_demo::handlers::handle_error;
use observability_demo::handlers::handle_health;
use observability_demo::metrics::AppMetrics;
use observability_demo::profiling::AgentPhase;
use observability_demo::profiling::ProfilingConfig;
use observability_demo::profiling::ProfilingSession;
use observability_demo::profiling::default_profiling_config;
use observability_demo::profiling::default_profiling_endpoint;

#[test]
fn collector_endpoint_falls_back_to_default() {
    let picked = endpoint_or_default(None, default_collector_endpoint());
    assert_eq!(picked, "http://localhost:4317");
}

#[test]
fn collector_endpoint_prefers_the_environment() {
    let picked = endpoint_or_default(
        Some("http://collector:4317".to_string()),
        default_collector_endpoint(),
    );
    assert_eq!(picked, "http://collector:4317");
}

#[test]
fn plan_binds_every_signal_to_the_endpoint() {
    let plan = telemetry_plan("http://collector:4317");
    assert_eq!(plan.traces.endpoint, "http://collector:4317");
    assert_eq!(plan.metrics.endpoint, "http://collector:4317");
    assert_eq!(plan.logs.endpoint, "http://collector:4317");
    assert_eq!(plan.traces.timeout_ms, 3000);
    assert_eq!(plan.metrics.timeout_ms, 3000);
    assert_eq!(plan.logs.timeout_ms, 3000);
    assert_eq!(plan.traces.export_interval_ms, None);
    assert_eq!(plan.metrics.export_interval_ms, Some(10000));
    assert_eq!(plan.logs.export_interval_ms, None);
}

#[test]
fn resource_names_the_service() {
    let resource = default_resource();
    assert_eq!(resource.service_name, "rust-observability-demo");
    assert_eq!(resource.service_version, "0.1.0");
    assert_eq!(resource.deployment_environment, "development");
}

#[test]
fn initialize_accepts_the_default_plan() {
    let handle =
        TelemetryHandle::initialize(default_resource(), telemetry_plan(default_collector_endpoint()));
    let handle = handle.expect("default plan must be accepted");
    assert!(handle.is_serving());
    assert_eq!(handle.started_total(), 0);
    assert_eq!(handle.closed_total(), 0);
    assert_eq!(handle.exported_total(), 0);
}

#[test]
fn initialize_rejects_an_empty_endpoint() {
    let refused = TelemetryHandle::initialize(default_resource(), telemetry_plan(""));
    assert_eq!(refused.expect_err("empty endpoint"), BootstrapError::InvalidExporterConfig);
}

#[test]
fn initialize_rejects_a_zero_timeout() {
    let mut plan = telemetry_plan(default_collector_endpoint());
    plan.metrics = ExporterConfig {
        endpoint: plan.metrics.endpoint,
        timeout_ms: 0,
        export_interval_ms: plan.metrics.export_interval_ms,
    };
    let refused = TelemetryHandle::initialize(default_resource(), plan);
    assert_eq!(refused.expect_err("zero timeout"), BootstrapError::InvalidExporterConfig);
}

#[test]
fn initialize_rejects_a_nameless_resource() {
    let resource = ResourceDescriptor {
        service_name: String::new(),
        service_version: "0.1.0".to_string(),
        deployment_environment: "development".to_string(),
    };
    let refused =
        TelemetryHandle::initialize(resource, telemetry_plan(default_collector_endpoint()));
    assert_eq!(refused.expect_err("nameless resource"), BootstrapError::InvalidResource);
}

#[test]
fn every_request_closes_its_span() {
    let mut metrics = AppMetrics::new();
    let mut handle = TelemetryHandle::initialize(
        default_resource(),
        telemetry_plan(default_collector_endpoint()),
    )
    .expect("valid default plan");
    handle_health(&mut metrics, &mut handle, 1);
    handle_error(&mut metrics, &mut handle, 1);
    handle_health(&mut metrics, &mut handle, 1);
    assert_eq!(handle.started_total(), 3);
    assert_eq!(handle.closed_total(), 3);
}

#[test]
fn shutdown_exports_every_closed_span() {
    let mut metrics = AppMetrics::new();
    let mut handle = TelemetryHandle::initialize(
        default_resource(),
        telemetry_plan(default_collector_endpoint()),
    )
    .expect("valid default plan");
    handle_health(&mut metrics, &mut handle, 1);
    handle_error(&mut metrics, &mut handle, 1);
    handle.shutdown();
    assert!(!handle.is_serving());
    assert_eq!(handle.closed_total(), 2);
    assert_eq!(handle.exported_total(), handle.closed_total());
}

#[test]
fn profiling_endpoint_has_a_default() {
    assert_eq!(default_profiling_endpoint(), "http://localhost:4040");
}

#[test]
fn profiling_config_carries_identity_tags() {
    let config = default_profiling_config("http://localhost:4040".to_string());
    assert_eq!(config.server_url, "http://localhost:4040");
    assert_eq!(config.application_name, "rust-observability-demo");
    assert_eq!(config.sample_rate_hz, 100);
    assert_eq!(config.tags.len(), 2);
    assert_eq!(config.tags[0].0, "service");
    assert_eq!(config.tags[0].1, "rust-observability-demo");
    assert_eq!(config.tags[1].0, "environment");
    assert_eq!(config.tags[1].1, "development");
}

#[test]
fn profiler_runs_exactly_once() {
    let config = default_profiling_config("http://localhost:4040".to_string());
    let mut session = ProfilingSession::create(config).expect("valid config");
    assert_eq!(session.current_phase(), AgentPhase::Created);
    session.start();
    assert_eq!(session.current_phase(), AgentPhase::Running);
    session.stop();
    assert_eq!(session.current_phase(), AgentPhase::Stopped);
}

#[test]
fn profiler_rejects_a_zero_sample_rate() {
    let mut config = default_profiling_config("http://localhost:4040".to_string());
    config = ProfilingConfig {
        server_url: config.server_url,
        application_name: config.application_name,
        sample_rate_hz: 0,
        tags: config.tags,
    };
    assert!(ProfilingSession::create(config).is_err());
}

#[test]
fn profiler_rejects_an_empty_backend() {
    let config = default_profiling_config(String::new());
    assert!(ProfilingSession::create(config).is_err());
}
