//! The uniform per-request instrumentation contract: every request starts
//! one span, runs its handler, then — on success and on failure alike —
//! counts the request, records its duration, counts any error, sets the span
//! status and closes the span, exactly once.

use vstd::prelude::*;
use vstd::string::*;

use crate::bootstrap::TelemetryHandle;
use crate::labels::Endpoint;
use crate::labels::ErrorKind;
use crate::metrics::AppMetrics;
use crate::span::AttrValue;
use crate::span::SpanHandle;
use crate::span::SpanModel;
use crate::span::SpanStatus;

verus! {

/// Name under which this service's tracer is registered.
pub fn tracer_name() -> (r: &'static str)
    ensures
        r@ == "observability-demo"@,
{
    "observability-demo"
}

/// How a handler's business logic came out.
#[derive(Clone, Copy, PartialEq, Eq, Structural, Debug)]
pub enum Outcome {
    Success,
    Failure(ErrorKind),
}

/// The HTTP status each outcome maps to: success is 200, rejected input is
/// 400, the simulated failure is 500.
pub open spec fn spec_status_code(outcome: Outcome) -> u16 {
    match outcome {
        Outcome::Success => 200,
        Outcome::Failure(ErrorKind::DivisionByZero) => 400,
        Outcome::Failure(ErrorKind::Simulated) => 500,
    }
}

/// Executable twin of [`spec_status_code`].
pub fn status_code(outcome: Outcome) -> (r: u16)
    ensures
        r == spec_status_code(outcome),
{
    match outcome {
        Outcome::Success => 200,
        Outcome::Failure(ErrorKind::DivisionByZero) => 400,
        Outcome::Failure(ErrorKind::Simulated) => 500,
    }
}

/// One request being served: the route it came in on and its open span.
/// Created by [`begin_request`], consumed by [`finish_request`]; while it
/// exists, its span is open and attributes may still be recorded.
pub struct InFlight {
    span: SpanHandle,
    endpoint: Endpoint,
}

impl InFlight {
    pub open spec fn wf(self) -> bool {
        &&& self.span().open
        &&& self.span().name == self.endpoint().operation_name()
    }

    pub closed spec fn endpoint(self) -> Endpoint {
        self.endpoint
    }

    pub closed spec fn span(self) -> crate::span::SpanModel {
        self.span@
    }

    /// Records a string attribute on the request's span.
    pub fn set_text_attribute(&mut self, key: &'static str, value: String)
        requires
            old(self).wf(),
        ensures
            final(self).wf(),
            final(self).endpoint() == old(self).endpoint(),
            final(self).span().attrs == old(self).span().attrs.push(
                (key@, crate::span::AttrValue::Text(value@)),
            ),
            final(self).span().status == old(self).span().status,
    {
        self.span.set_text_attribute(key, value);
    }

    /// Records an integer attribute on the request's span.
    pub fn set_int_attribute(&mut self, key: &'static str, value: i64)
        requires
            old(self).wf(),
        ensures
            final(self).wf(),
            final(self).endpoint() == old(self).endpoint(),
            final(self).span().attrs == old(self).span().attrs.push(
                (key@, crate::span::AttrValue::Int(value)),
            ),
            final(self).span().status == old(self).span().status,
    {
        self.span.set_int_attribute(key, value);
    }
}

/// Starts the span for one inbound request and accounts for it in the span
/// ledger. The pipeline must still be serving.
pub fn begin_request(handle: &mut TelemetryHandle, endpoint: Endpoint) -> (r: InFlight)
    requires
        old(handle).wf(),
        old(handle).state() is Serving,
        old(handle).spans_started() < u64::MAX,
    ensures
        final(handle).wf(),
        final(handle).state() is Serving,
        final(handle).spans_started() == old(handle).spans_started() + 1,
        final(handle).spans_closed() == old(handle).spans_closed(),
        final(handle).spans_exported() == old(handle).spans_exported(),
        final(handle).open_spans() == old(handle).open_spans() + 1,
        final(handle).resource() == old(handle).resource(),
        final(handle).plan() == old(handle).plan(),
        r.wf(),
        r.endpoint() == endpoint,
        r.span().attrs.len() == 0,
        r.span().status is Unset,
{
    let span = SpanHandle::start(tracer_name(), endpoint.operation());
    handle.note_span_started();
    InFlight { span, endpoint }
}

/// Completes one request: sets the span status from the outcome, counts the
/// request and any error, records the duration — the operation happened even
/// if it failed — and closes the span. Exactly one span closes, on success
/// and on failure alike, and the HTTP status follows the outcome; the second
/// component is the closed span as it was handed to the exporter.
pub fn finish_request(
    request: InFlight,
    metrics: &mut AppMetrics,
    handle: &mut TelemetryHandle,
    outcome: Outcome,
    elapsed_ms: u64,
) -> (res: (u16, Ghost<SpanModel>))
    requires
        request.wf(),
        old(metrics).wf(),
        old(metrics).request_count(request.endpoint()) < u64::MAX,
        outcome matches Outcome::Failure(kind) ==> old(metrics).error_count(kind) < u64::MAX,
        old(handle).wf(),
        old(handle).state() is Serving,
        old(handle).spans_closed() < old(handle).spans_started(),
    ensures
        res.0 == spec_status_code(outcome),
        !res.1@.open,
        res.1@.name == request.span().name,
        outcome is Success ==> res.1@.status is Okay && res.1@.attrs == request.span().attrs,
        outcome matches Outcome::Failure(kind) ==> {
            &&& res.1@.status == SpanStatus::Errored(kind.spec_span_message())
            &&& res.1@.attrs == request.span().attrs.push(("error"@, AttrValue::Flag(true))).push(
                ("error.message"@, AttrValue::Text(kind.spec_span_message())),
            )
        },
        final(metrics).wf(),
        final(metrics).request_count(request.endpoint()) == old(metrics).request_count(
            request.endpoint(),
        ) + 1,
        forall|e: Endpoint|
            e != request.endpoint() ==> #[trigger] final(metrics).request_count(e) == old(metrics).request_count(e),
        forall|k: ErrorKind|
            #[trigger] final(metrics).error_count(k) == old(metrics).error_count(k) + (
            if outcome == Outcome::Failure(k) {
                1int
            } else {
                0int
            }),
        final(metrics).durations() == old(metrics).durations().push(
            (request.endpoint(), elapsed_ms),
        ),
        final(handle).wf(),
        final(handle).state() is Serving,
        final(handle).spans_closed() == old(handle).spans_closed() + 1,
        final(handle).spans_started() == old(handle).spans_started(),
        final(handle).spans_exported() == old(handle).spans_exported(),
        final(handle).open_spans() == old(handle).open_spans() - 1,
        final(handle).resource() == old(handle).resource(),
        final(handle).plan() == old(handle).plan(),
{
    let InFlight { mut span, endpoint } = request;
    match outcome {
        Outcome::Success => {
            span.set_status_okay();
        },
        Outcome::Failure(kind) => {
            span.set_flag_attribute("error", true);
            span.set_text_attribute("error.message", String::from_str(kind.span_message()));
            span.set_status_error(String::from_str(kind.span_message()));
            metrics.record_error(kind);
        },
    }
    metrics.record_request(endpoint);
    metrics.record_duration(endpoint, elapsed_ms);
    span.end();
    handle.note_span_closed();
    let ghost exported_span = span@;
    (status_code(outcome), Ghost(exported_span))
}

} // verus!
