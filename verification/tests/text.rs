use observability_demo::handlers::health_body;
use observability_demo::handlers::root_page;
use observability_demo::handlers::slow_body;
use observability_demo::handlers::synthesize_user;
use observability_demo::handlers::user_body;
use observability_demo::labels::Endpoint;
use observability_demo::labels::ErrorKind;
use observability_demo::labels::HttpMethod;
use observability_demo::textnum::decimal_string;

#[test]
fn decimal_renders_zero() {
    assert_eq!(decimal_string(0), "0");
}

#[test]
fn decimal_renders_single_digit() {
    assert_eq!(decimal_string(7), "7");
}

#[test]
fn decimal_renders_forty_two() {
    assert_eq!(decimal_string(42), "42");
}

#[test]
fn decimal_renders_long_number() {
    assert_eq!(decimal_string(1234567890), "1234567890");
}

#[test]
fn decimal_renders_largest_value() {
    assert_eq!(decimal_string(u64::MAX), "18446744073709551615");
}

#[test]
fn user_record_is_derived_from_id() {
    let user = synthesize_user(42);
    assert_eq!(user.id, 42);
    assert_eq!(user.name, "User 42");
    assert_eq!(user.email, "user42@example.com");
}

#[test]
fn user_record_is_deterministic() {
    let first = synthesize_user(42);
    let second = synthesize_user(42);
    assert_eq!(first.id, second.id);
    assert_eq!(first.name, second.name);
    assert_eq!(first.email, second.email);
}

#[test]
fn user_body_names_every_field() {
    assert_eq!(
        user_body(42),
        "{\"id\":42,\"name\":\"User 42\",\"email\":\"user42@example.com\"}"
    );
}

#[test]
fn user_body_for_id_zero() {
    assert_eq!(
        user_body(0),
        "{\"id\":0,\"name\":\"User 0\",\"email\":\"user0@example.com\"}"
    );
}

#[test]
fn health_body_is_fixed() {
    assert_eq!(
        health_body(),
        "{\"status\":\"healthy\",\"service\":\"rust-observability-demo\"}"
    );
}

#[test]
fn slow_body_names_the_duration() {
    assert_eq!(
        slow_body(2100),
        "{\"message\":\"Slow operation completed\",\"duration_ms\":2100}"
    );
}

#[test]
fn root_page_lists_the_routes() {
    let page = root_page();
    assert!(page.contains("POST /calculate/divide"));
    assert!(page.contains("GET /user/:id"));
}

#[test]
fn endpoint_labels_match_the_routes() {
    assert_eq!(Endpoint::Root.path(), "/");
    assert_eq!(Endpoint::Health.path(), "/health");
    assert_eq!(Endpoint::CalculateAdd.path(), "/calculate/add");
    assert_eq!(Endpoint::CalculateDivide.path(), "/calculate/divide");
    assert_eq!(Endpoint::SimulateSlow.path(), "/simulate/slow");
    assert_eq!(Endpoint::SimulateError.path(), "/simulate/error");
    assert_eq!(Endpoint::UserById.path(), "/user/:id");
}

#[test]
fn calculator_routes_take_post() {
    assert_eq!(Endpoint::CalculateAdd.method(), HttpMethod::Post);
    assert_eq!(Endpoint::CalculateDivide.method(), HttpMethod::Post);
    assert_eq!(Endpoint::Health.method(), HttpMethod::Get);
    assert_eq!(HttpMethod::Post.label(), "POST");
    assert_eq!(HttpMethod::Get.label(), "GET");
}

#[test]
fn error_kinds_carry_their_labels() {
    assert_eq!(ErrorKind::DivisionByZero.label(), "division_by_zero");
    assert_eq!(ErrorKind::Simulated.label(), "simulated");
    assert_eq!(ErrorKind::DivisionByZero.client_message(), "Cannot divide by zero");
    assert_eq!(ErrorKind::Simulated.client_message(), "Simulated error occurred");
}
