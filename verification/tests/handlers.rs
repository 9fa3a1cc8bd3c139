use observability_demo::SLOW_DELAY_MS;
use observability_demo::bootstrap::TelemetryHandle;
use observability_demo::bootstrap::default_collector_endpoint;
use observability_demo::bootstrap::default_resource;
use observability_demo::bootstrap::telemetry_plan;
use observability_demo::handlers::handle_add;
use observability_demo::handlers::handle_divide;
use observability_demo::handlers::handle_error;
use observability_demo::handlers::handle_health;
use observability_demo::handlers::handle_root;
use observability_demo::handlers::finish_slow;
use observability_demo::handlers::finish_user;
use observability_demo::labels::Endpoint;
use observability_demo::labels::ErrorKind;
use observability_demo::metrics::AppMetrics;
use observability_demo::middleware::Outcome;
use observability_demo::middleware::begin_request;
use observability_demo::middleware::status_code;

fn serving_handle() -> TelemetryHandle {
    let plan = telemetry_plan(default_collector_endpoint());
    TelemetryHandle::initialize(default_resource(), plan).expect("valid default plan")
}

#[test]
fn add_counts_its_route_exactly_once() {
    let mut metrics = AppMetrics::new();
    let mut handle = serving_handle();
    let reply = handle_add(
        &mut metrics,
        &mut handle,
        "2.5".to_string(),
        "1.5".to_string(),
        "4".to_string(),
        3,
    );
    assert_eq!(reply.status, 200);
    assert_eq!(reply.operation, "addition");
    assert_eq!(metrics.request_total(Endpoint::CalculateAdd), 1);
    assert_eq!(metrics.request_total(Endpoint::CalculateDivide), 0);
    assert_eq!(metrics.request_total(Endpoint::Health), 0);
    assert_eq!(metrics.error_total(ErrorKind::DivisionByZero), 0);
    assert_eq!(metrics.error_total(ErrorKind::Simulated), 0);
    assert_eq!(metrics.durations_recorded(), 1);
    assert_eq!(metrics.recorded_duration(0), (Endpoint::CalculateAdd, 3));
}

#[test]
fn divide_by_zero_is_rejected_and_still_counted() {
    let mut metrics = AppMetrics::new();
    let mut handle = serving_handle();
    let reply = handle_divide(
        &mut metrics,
        &mut handle,
        "10".to_string(),
        "0".to_string(),
        None,
        2,
    );
    let rejection = reply.expect_err("zero divisor must be rejected");
    assert_eq!(rejection.status, 400);
    assert_eq!(rejection.message, "Cannot divide by zero");
    assert_eq!(metrics.error_total(ErrorKind::DivisionByZero), 1);
    assert_eq!(metrics.error_total(ErrorKind::Simulated), 0);
    assert_eq!(metrics.request_total(Endpoint::CalculateDivide), 1);
    assert_eq!(metrics.durations_recorded(), 1);
    assert_eq!(metrics.recorded_duration(0), (Endpoint::CalculateDivide, 2));
}

#[test]
fn divide_with_nonzero_divisor_succeeds() {
    let mut metrics = AppMetrics::new();
    let mut handle = serving_handle();
    let reply = handle_divide(
        &mut metrics,
        &mut handle,
        "10".to_string(),
        "4".to_string(),
        Some("2.5".to_string()),
        2,
    );
    let success = reply.expect("nonzero divisor must succeed");
    assert_eq!(success.status, 200);
    assert_eq!(success.operation, "division");
    assert_eq!(metrics.error_total(ErrorKind::DivisionByZero), 0);
    assert_eq!(metrics.request_total(Endpoint::CalculateDivide), 1);
}

#[test]
fn simulated_error_counts_once_per_call() {
    let mut metrics = AppMetrics::new();
    let mut handle = serving_handle();
    let first = handle_error(&mut metrics, &mut handle, 0);
    assert_eq!(first.status, 500);
    assert_eq!(first.message, "Simulated error occurred");
    assert_eq!(metrics.error_total(ErrorKind::Simulated), 1);
    let second = handle_error(&mut metrics, &mut handle, 0);
    assert_eq!(second.status, 500);
    assert_eq!(metrics.error_total(ErrorKind::Simulated), 2);
    assert_eq!(metrics.request_total(Endpoint::SimulateError), 2);
}

#[test]
fn health_always_succeeds() {
    let mut metrics = AppMetrics::new();
    let mut handle = serving_handle();
    let reply = handle_health(&mut metrics, &mut handle, 0);
    assert_eq!(reply.status, 200);
    assert_eq!(
        reply.body,
        "{\"status\":\"healthy\",\"service\":\"rust-observability-demo\"}"
    );
    assert_eq!(metrics.request_total(Endpoint::Health), 1);
}

#[test]
fn root_serves_the_page_and_is_instrumented() {
    let mut metrics = AppMetrics::new();
    let mut handle = serving_handle();
    let reply = handle_root(&mut metrics, &mut handle, 0);
    assert_eq!(reply.status, 200);
    assert!(reply.body.contains("Rust Observability Demo"));
    assert_eq!(metrics.request_total(Endpoint::Root), 1);
    assert_eq!(handle.started_total(), 1);
    assert_eq!(handle.closed_total(), 1);
}

#[test]
fn slow_route_records_at_least_its_delay() {
    let mut metrics = AppMetrics::new();
    let mut handle = serving_handle();
    let request = begin_request(&mut handle, Endpoint::SimulateSlow);
    let elapsed = SLOW_DELAY_MS + 100;
    let reply = finish_slow(request, &mut metrics, &mut handle, elapsed);
    assert_eq!(reply.status, 200);
    assert_eq!(
        reply.body,
        "{\"message\":\"Slow operation completed\",\"duration_ms\":2100}"
    );
    let (route, recorded) = metrics.recorded_duration(0);
    assert_eq!(route, Endpoint::SimulateSlow);
    assert!(recorded >= SLOW_DELAY_MS);
}

#[test]
fn user_route_answers_from_the_id_alone() {
    let mut metrics = AppMetrics::new();
    let mut handle = serving_handle();
    let request = begin_request(&mut handle, Endpoint::UserById);
    let (reply, record) = finish_user(request, &mut metrics, &mut handle, 42, 100);
    assert_eq!(reply.status, 200);
    assert_eq!(
        reply.body,
        "{\"id\":42,\"name\":\"User 42\",\"email\":\"user42@example.com\"}"
    );
    assert_eq!(record.id, 42);
    assert_eq!(record.name, "User 42");
    assert_eq!(record.email, "user42@example.com");
    assert_eq!(metrics.request_total(Endpoint::UserById), 1);
}

#[test]
fn a_duration_of_zero_is_valid() {
    let mut metrics = AppMetrics::new();
    let mut handle = serving_handle();
    let reply = handle_health(&mut metrics, &mut handle, 0);
    assert_eq!(reply.status, 200);
    assert_eq!(metrics.recorded_duration(0), (Endpoint::Health, 0));
}

#[test]
fn statuses_follow_the_outcome() {
    assert_eq!(status_code(Outcome::Success), 200);
    assert_eq!(status_code(Outcome::Failure(ErrorKind::DivisionByZero)), 400);
    assert_eq!(status_code(Outcome::Failure(ErrorKind::Simulated)), 500);
}
