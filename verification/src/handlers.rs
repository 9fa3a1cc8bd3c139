//! The verified half of every request handler: given the plain values the
//! HTTP layer extracted, each function runs the full instrumentation
//! contract and produces the status and body text the route answers with.
//! The binary around the library only parses requests, does the
//! floating-point arithmetic of the calculator routes, sleeps where a delay
//! is simulated, and serializes what these functions return.

use vstd::prelude::*;
use vstd::string::*;

use crate::bootstrap::TelemetryHandle;
use crate::labels::Endpoint;
use crate::labels::ErrorKind;
use crate::metrics::AppMetrics;
use crate::middleware::InFlight;
use crate::middleware::Outcome;
use crate::middleware::begin_request;
use crate::middleware::finish_request;
use crate::SLOW_DELAY_MS;
use crate::textnum::dec_rep;
use crate::textnum::push_decimal;

verus! {

/// A plain successful answer: its HTTP status and body text.
#[derive(Debug)]
pub struct Reply {
    pub status: u16,
    pub body: String,
}

/// A successful calculator answer; the numeric result itself is
/// floating-point and stays with the caller, which serializes it next to
/// this operation label.
#[derive(Debug)]
pub struct CalcReply {
    pub status: u16,
    pub operation: String,
}

/// A failed answer: its HTTP status and the message shown to the client.
#[derive(Debug)]
pub struct ErrorReply {
    pub status: u16,
    pub message: String,
}

/// A user record synthesized deterministically from the requested id.
#[derive(Debug)]
pub struct UserRecord {
    pub id: u64,
    pub name: String,
    pub email: String,
}

/// What a handler needs of the shared state before it runs: the aggregation
/// tables are intact and have room, and the pipeline is serving.
pub open spec fn ready_to_serve(
    metrics: AppMetrics,
    handle: TelemetryHandle,
    endpoint: Endpoint,
) -> bool {
    &&& metrics.wf()
    &&& metrics.request_count(endpoint) < u64::MAX
    &&& handle.wf()
    &&& handle.state() is Serving
    &&& handle.spans_started() < u64::MAX
}

/// What every completed request guarantees of the shared state: the route's
/// request counter moved up by exactly one and no other route's moved; the
/// route's duration was recorded; and exactly one span was started and
/// closed, so no span the handler opened stays open.
pub open spec fn served_one(
    old_metrics: AppMetrics,
    metrics: AppMetrics,
    old_handle: TelemetryHandle,
    handle: TelemetryHandle,
    endpoint: Endpoint,
    elapsed_ms: u64,
) -> bool {
    &&& metrics.wf()
    &&& metrics.request_count(endpoint) == old_metrics.request_count(endpoint) + 1
    &&& (forall|e: Endpoint|
        e != endpoint ==> #[trigger] metrics.request_count(e) == old_metrics.request_count(e))
    &&& metrics.durations() == old_metrics.durations().push((endpoint, elapsed_ms))
    &&& handle.wf()
    &&& handle.state() is Serving
    &&& handle.spans_started() == old_handle.spans_started() + 1
    &&& handle.spans_closed() == old_handle.spans_closed() + 1
    &&& handle.open_spans() == old_handle.open_spans()
    &&& handle.spans_exported() == old_handle.spans_exported()
    &&& handle.resource() == old_handle.resource()
    &&& handle.plan() == old_handle.plan()
}

/// The informational page the root route serves.
pub fn root_page() -> (r: String)
    ensures
        r@ == "<h1>Rust Observability Demo</h1><p>Metrics, logs and traces leave over the standard telemetry wire protocol; profiles go to the continuous-profiling backend.</p><ul><li>GET /health - Health check</li><li>POST /calculate/add - Add two numbers</li><li>POST /calculate/divide - Divide two numbers (can error)</li><li>GET /simulate/slow - Simulate slow request</li><li>GET /simulate/error - Simulate error</li><li>GET /user/:id - Get user by ID</li></ul>"@,
{
    String::from_str(
        "<h1>Rust Observability Demo</h1><p>Metrics, logs and traces leave over the standard telemetry wire protocol; profiles go to the continuous-profiling backend.</p><ul><li>GET /health - Health check</li><li>POST /calculate/add - Add two numbers</li><li>POST /calculate/divide - Divide two numbers (can error)</li><li>GET /simulate/slow - Simulate slow request</li><li>GET /simulate/error - Simulate error</li><li>GET /user/:id - Get user by ID</li></ul>",
    )
}

/// The health route's body.
pub fn health_body() -> (r: String)
    ensures
        r@ == "{\"status\":\"healthy\",\"service\":\"rust-observability-demo\"}"@,
{
    String::from_str("{\"status\":\"healthy\",\"service\":\"rust-observability-demo\"}")
}

/// Serves the root route: the static page, fully instrumented.
pub fn handle_root(metrics: &mut AppMetrics, handle: &mut TelemetryHandle, elapsed_ms: u64) -> (r:
    Reply)
    requires
        ready_to_serve(*old(metrics), *old(handle), Endpoint::Root),
    ensures
        r.status == 200,
        r.body@ == "<h1>Rust Observability Demo</h1><p>Metrics, logs and traces leave over the standard telemetry wire protocol; profiles go to the continuous-profiling backend.</p><ul><li>GET /health - Health check</li><li>POST /calculate/add - Add two numbers</li><li>POST /calculate/divide - Divide two numbers (can error)</li><li>GET /simulate/slow - Simulate slow request</li><li>GET /simulate/error - Simulate error</li><li>GET /user/:id - Get user by ID</li></ul>"@,
        served_one(*old(metrics), *final(metrics), *old(handle), *final(handle), Endpoint::Root, elapsed_ms),
        forall|k: ErrorKind| #[trigger] final(metrics).error_count(k) == old(metrics).error_count(k),
{
    let request = begin_request(handle, Endpoint::Root);
    let (status, _span) = finish_request(request, metrics, handle, Outcome::Success, elapsed_ms);
    Reply { status, body: root_page() }
}

/// Serves the health route: always healthy, fully instrumented.
pub fn handle_health(metrics: &mut AppMetrics, handle: &mut TelemetryHandle, elapsed_ms: u64) -> (r:
    Reply)
    requires
        ready_to_serve(*old(metrics), *old(handle), Endpoint::Health),
    ensures
        r.status == 200,
        r.body@ == "{\"status\":\"healthy\",\"service\":\"rust-observability-demo\"}"@,
        served_one(*old(metrics), *final(metrics), *old(handle), *final(handle), Endpoint::Health, elapsed_ms),
        forall|k: ErrorKind| #[trigger] final(metrics).error_count(k) == old(metrics).error_count(k),
{
    let request = begin_request(handle, Endpoint::Health);
    let (status, _span) = finish_request(request, metrics, handle, Outcome::Success, elapsed_ms);
    Reply { status, body: health_body() }
}

/// Serves the addition route. The caller has already added the two numbers;
/// their texts and the sum's text are recorded as span attributes, and the
/// answer carries the operation label next to which the caller serializes
/// the numeric result.
pub fn handle_add(
    metrics: &mut AppMetrics,
    handle: &mut TelemetryHandle,
    a_text: String,
    b_text: String,
    sum_text: String,
    elapsed_ms: u64,
) -> (r: CalcReply)
    requires
        ready_to_serve(*old(metrics), *old(handle), Endpoint::CalculateAdd),
    ensures
        r.status == 200,
        r.operation@ == "addition"@,
        served_one(
            *old(metrics),
            *final(metrics),
            *old(handle),
            *final(handle),
            Endpoint::CalculateAdd,
            elapsed_ms,
        ),
        forall|k: ErrorKind| #[trigger] final(metrics).error_count(k) == old(metrics).error_count(k),
{
    let mut request = begin_request(handle, Endpoint::CalculateAdd);
    request.set_text_attribute("operation", String::from_str("add"));
    request.set_text_attribute("input.a", a_text);
    request.set_text_attribute("input.b", b_text);
    request.set_text_attribute("result", sum_text);
    let (status, _span) = finish_request(request, metrics, handle, Outcome::Success, elapsed_ms);
    CalcReply { status, operation: String::from_str("addition") }
}

/// Serves the division route. A quotient text is present exactly when the
/// divisor was nonzero; with one the route succeeds, without one the input
/// is rejected: a 400 answer, one division-by-zero error counted — and the
/// request still counted and its duration still recorded, with the span
/// closed all the same.
pub fn handle_divide(
    metrics: &mut AppMetrics,
    handle: &mut TelemetryHandle,
    a_text: String,
    b_text: String,
    quotient_text: Option<String>,
    elapsed_ms: u64,
) -> (r: Result<CalcReply, ErrorReply>)
    requires
        ready_to_serve(*old(metrics), *old(handle), Endpoint::CalculateDivide),
        old(metrics).error_count(ErrorKind::DivisionByZero) < u64::MAX,
    ensures
        r is Ok <==> quotient_text is Some,
        r matches Ok(reply) ==> reply.status == 200 && reply.operation@ == "division"@,
        r matches Err(reply) ==> reply.status == 400 && reply.message@ == "Cannot divide by zero"@,
        served_one(
            *old(metrics),
            *final(metrics),
            *old(handle),
            *final(handle),
            Endpoint::CalculateDivide,
            elapsed_ms,
        ),
        quotient_text is None ==> final(metrics).error_count(ErrorKind::DivisionByZero) == old(metrics).error_count(ErrorKind::DivisionByZero) + 1,
        forall|k: ErrorKind|
            !(quotient_text is None && k == ErrorKind::DivisionByZero) ==> #[trigger] final(metrics).error_count(k) == old(metrics).error_count(k),
{
    let mut request = begin_request(handle, Endpoint::CalculateDivide);
    request.set_text_attribute("operation", String::from_str("divide"));
    request.set_text_attribute("input.a", a_text);
    request.set_text_attribute("input.b", b_text);
    match quotient_text {
        Option::Some(text) => {
            request.set_text_attribute("result", text);
            let (status, _span) = finish_request(request, metrics, handle, Outcome::Success, elapsed_ms);
            Result::Ok(CalcReply { status, operation: String::from_str("division") })
        },
        Option::None => {
            let (status, _span) = finish_request(
                request,
                metrics,
                handle,
                Outcome::Failure(ErrorKind::DivisionByZero),
                elapsed_ms,
            );
            Result::Err(
                ErrorReply {
                    status,
                    message: String::from_str(ErrorKind::DivisionByZero.client_message()),
                },
            )
        },
    }
}

/// Serves the simulated-error route: always a 500 answer with one simulated
/// error counted — and, as for every request, the request counted, the
/// duration recorded and the span closed.
pub fn handle_error(metrics: &mut AppMetrics, handle: &mut TelemetryHandle, elapsed_ms: u64) -> (r:
    ErrorReply)
    requires
        ready_to_serve(*old(metrics), *old(handle), Endpoint::SimulateError),
        old(metrics).error_count(ErrorKind::Simulated) < u64::MAX,
    ensures
        r.status == 500,
        r.message@ == "Simulated error occurred"@,
        served_one(
            *old(metrics),
            *final(metrics),
            *old(handle),
            *final(handle),
            Endpoint::SimulateError,
            elapsed_ms,
        ),
        final(metrics).error_count(ErrorKind::Simulated) == old(metrics).error_count(
            ErrorKind::Simulated,
        ) + 1,
        forall|k: ErrorKind|
            k != ErrorKind::Simulated ==> #[trigger] final(metrics).error_count(k) == old(metrics).error_count(k),
{
    let request = begin_request(handle, Endpoint::SimulateError);
    let (status, _span) = finish_request(
        request,
        metrics,
        handle,
        Outcome::Failure(ErrorKind::Simulated),
        elapsed_ms,
    );
    ErrorReply { status, message: String::from_str(ErrorKind::Simulated.client_message()) }
}

/// The slow route's body, naming the measured duration.
pub fn slow_body(elapsed_ms: u64) -> (r: String)
    ensures
        r@ == "{\"message\":\"Slow operation completed\",\"duration_ms\":"@ + dec_rep(
            elapsed_ms as nat,
        ) + "}"@,
{
    let mut s = String::from_str("{\"message\":\"Slow operation completed\",\"duration_ms\":");
    push_decimal(&mut s, elapsed_ms);
    s.append("}");
    proof {
        assert(s@ =~= "{\"message\":\"Slow operation completed\",\"duration_ms\":"@ + dec_rep(
            elapsed_ms as nat,
        ) + "}"@);
    }
    s
}

/// Completes the slow route after the caller has slept through the
/// configured delay: the request it hands back took at least that long, and
/// the duration recorded for it says so.
pub fn finish_slow(
    request: InFlight,
    metrics: &mut AppMetrics,
    handle: &mut TelemetryHandle,
    elapsed_ms: u64,
) -> (r: Reply)
    requires
        request.wf(),
        request.endpoint() == Endpoint::SimulateSlow,
        elapsed_ms >= SLOW_DELAY_MS,
        old(metrics).wf(),
        old(metrics).request_count(Endpoint::SimulateSlow) < u64::MAX,
        old(handle).wf(),
        old(handle).state() is Serving,
        old(handle).spans_closed() < old(handle).spans_started(),
    ensures
        r.status == 200,
        r.body@ == "{\"message\":\"Slow operation completed\",\"duration_ms\":"@ + dec_rep(
            elapsed_ms as nat,
        ) + "}"@,
        final(metrics).wf(),
        final(metrics).request_count(Endpoint::SimulateSlow) == old(metrics).request_count(
            Endpoint::SimulateSlow,
        ) + 1,
        forall|e: Endpoint|
            e != Endpoint::SimulateSlow ==> #[trigger] final(metrics).request_count(e) == old(metrics).request_count(e),
        forall|k: ErrorKind| #[trigger] final(metrics).error_count(k) == old(metrics).error_count(k),
        final(metrics).durations() == old(metrics).durations().push(
            (Endpoint::SimulateSlow, elapsed_ms),
        ),
        final(metrics).durations().last().1 >= SLOW_DELAY_MS,
        final(handle).wf(),
        final(handle).state() is Serving,
        final(handle).spans_closed() == old(handle).spans_closed() + 1,
        final(handle).spans_started() == old(handle).spans_started(),
        final(handle).spans_exported() == old(handle).spans_exported(),
        final(handle).open_spans() == old(handle).open_spans() - 1,
        final(handle).resource() == old(handle).resource(),
        final(handle).plan() == old(handle).plan(),
{
    let (status, _span) = finish_request(request, metrics, handle, Outcome::Success, elapsed_ms);
    Reply { status, body: slow_body(elapsed_ms) }
}

/// Synthesizes the user record for an id: the name and the mail address are
/// derived from the id alone, so equal ids always give the equal record.
pub fn synthesize_user(user_id: u64) -> (r: UserRecord)
    ensures
        r.id == user_id,
        r.name@ == "User "@ + dec_rep(user_id as nat),
        r.email@ == "user"@ + dec_rep(user_id as nat) + "@example.com"@,
{
    let mut name = String::from_str("User ");
    push_decimal(&mut name, user_id);
    let mut email = String::from_str("user");
    push_decimal(&mut email, user_id);
    email.append("@example.com");
    proof {
        assert(name@ =~= "User "@ + dec_rep(user_id as nat));
        assert(email@ =~= "user"@ + dec_rep(user_id as nat) + "@example.com"@);
    }
    UserRecord { id: user_id, name, email }
}

/// The user route's body for an id.
pub fn user_body(user_id: u64) -> (r: String)
    ensures
        r@ == "{\"id\":"@ + dec_rep(user_id as nat) + ",\"name\":\"User "@ + dec_rep(
            user_id as nat,
        ) + "\",\"email\":\"user"@ + dec_rep(user_id as nat) + "@example.com\"}"@,
{
    let mut s = String::from_str("{\"id\":");
    push_decimal(&mut s, user_id);
    s.append(",\"name\":\"User ");
    push_decimal(&mut s, user_id);
    s.append("\",\"email\":\"user");
    push_decimal(&mut s, user_id);
    s.append("@example.com\"}");
    proof {
        assert(s@ =~= "{\"id\":"@ + dec_rep(user_id as nat) + ",\"name\":\"User "@ + dec_rep(
            user_id as nat,
        ) + "\",\"email\":\"user"@ + dec_rep(user_id as nat) + "@example.com\"}"@);
    }
    s
}

/// Completes the user route after the caller's simulated lookup delay: the
/// record and the body are derived from the id alone, and the id goes on
/// the span.
pub fn finish_user(
    mut request: InFlight,
    metrics: &mut AppMetrics,
    handle: &mut TelemetryHandle,
    user_id: u64,
    elapsed_ms: u64,
) -> (r: (Reply, UserRecord))
    requires
        request.wf(),
        request.endpoint() == Endpoint::UserById,
        user_id <= i64::MAX,
        old(metrics).wf(),
        old(metrics).request_count(Endpoint::UserById) < u64::MAX,
        old(handle).wf(),
        old(handle).state() is Serving,
        old(handle).spans_closed() < old(handle).spans_started(),
    ensures
        r.0.status == 200,
        r.0.body@ == "{\"id\":"@ + dec_rep(user_id as nat) + ",\"name\":\"User "@ + dec_rep(
            user_id as nat,
        ) + "\",\"email\":\"user"@ + dec_rep(user_id as nat) + "@example.com\"}"@,
        r.1.id == user_id,
        r.1.name@ == "User "@ + dec_rep(user_id as nat),
        r.1.email@ == "user"@ + dec_rep(user_id as nat) + "@example.com"@,
        final(metrics).wf(),
        final(metrics).request_count(Endpoint::UserById) == old(metrics).request_count(
            Endpoint::UserById,
        ) + 1,
        forall|e: Endpoint|
            e != Endpoint::UserById ==> #[trigger] final(metrics).request_count(e) == old(metrics).request_count(e),
        forall|k: ErrorKind| #[trigger] final(metrics).error_count(k) == old(metrics).error_count(k),
        final(metrics).durations() == old(metrics).durations().push(
            (Endpoint::UserById, elapsed_ms),
        ),
        final(handle).wf(),
        final(handle).state() is Serving,
        final(handle).spans_closed() == old(handle).spans_closed() + 1,
        final(handle).spans_started() == old(handle).spans_started(),
        final(handle).spans_exported() == old(handle).spans_exported(),
        final(handle).open_spans() == old(handle).open_spans() - 1,
        final(handle).resource() == old(handle).resource(),
        final(handle).plan() == old(handle).plan(),
{
    request.set_int_attribute("user.id", user_id as i64);
    let record = synthesize_user(user_id);
    let body = user_body(user_id);
    let (status, _span) = finish_request(request, metrics, handle, Outcome::Success, elapsed_ms);
    (Reply { status, body }, record)
}

} // verus!
