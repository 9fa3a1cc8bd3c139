//! Span lifecycle: a verified handle around an opentelemetry span that pins
//! down the per-request invariant — attributes and status are set only while
//! the span is open, and the span is closed exactly once, after which it is
//! immutable.

use vstd::prelude::*;

use opentelemetry::KeyValue;
use opentelemetry::global::BoxedSpan;
use opentelemetry::trace::Span;
use opentelemetry::trace::Status;
use opentelemetry::trace::Tracer;

verus! {

#[verifier::external_type_specification]
#[verifier::external_body]
pub struct ExBoxedSpan(BoxedSpan);

/// A typed attribute value recorded on a span.
pub enum AttrValue {
    Text(Seq<char>),
    Int(i64),
    Flag(bool),
}

/// The status a span carries when it is handed to the exporter.
pub enum SpanStatus {
    Unset,
    Okay,
    Errored(Seq<char>),
}

/// The mathematical state of one span: its name, the attributes recorded so
/// far in order, its status, and whether it is still open.
pub struct SpanModel {
    pub name: Seq<char>,
    pub attrs: Seq<(Seq<char>, AttrValue)>,
    pub status: SpanStatus,
    pub open: bool,
}

/// Relies on opentelemetry's `global::tracer` and `Tracer::start`: obtains
/// the named tracer from the process-wide provider and starts a new span
/// under it, as a child of the current context or as a root span.
#[verifier::external_body]
fn otel_start_span(tracer_name: &'static str, operation: &'static str) -> BoxedSpan {
    opentelemetry::global::tracer(tracer_name).start(operation)
}

/// Relies on opentelemetry's `Span::set_attribute` with a string value.
#[verifier::external_body]
fn otel_set_text_attribute(span: &mut BoxedSpan, key: &'static str, value: String) {
    span.set_attribute(KeyValue::new(key, value));
}

/// Relies on opentelemetry's `Span::set_attribute` with an integer value.
#[verifier::external_body]
fn otel_set_int_attribute(span: &mut BoxedSpan, key: &'static str, value: i64) {
    span.set_attribute(KeyValue::new(key, value));
}

/// Relies on opentelemetry's `Span::set_attribute` with a boolean value.
#[verifier::external_body]
fn otel_set_flag_attribute(span: &mut BoxedSpan, key: &'static str, value: bool) {
    span.set_attribute(KeyValue::new(key, value));
}

/// Relies on opentelemetry's `Span::set_status` with `Status::Ok`.
#[verifier::external_body]
fn otel_set_status_okay(span: &mut BoxedSpan) {
    span.set_status(Status::Ok);
}

/// Relies on opentelemetry's `Span::set_status` with an error status
/// carrying the given description.
#[verifier::external_body]
fn otel_set_status_error(span: &mut BoxedSpan, description: String) {
    span.set_status(Status::error(description));
}

/// Relies on opentelemetry's `Span::end`: finishes the span, after which the
/// SDK hands it to the batching exporter.
#[verifier::external_body]
fn otel_end_span(span: &mut BoxedSpan) {
    span.end();
}

/// A span owned by exactly one in-flight request. Every mutation demands
/// that the span is still open, so a closed span is immutable and `end`
/// happens at most once per handle.
pub struct SpanHandle {
    inner: BoxedSpan,
    model: Ghost<SpanModel>,
}

impl View for SpanHandle {
    type V = SpanModel;

    closed spec fn view(&self) -> SpanModel {
        self.model@
    }
}

impl SpanHandle {
    /// Starts a new span named after the operation.
    pub fn start(tracer_name: &'static str, operation: &'static str) -> (s: SpanHandle)
        ensures
            s@.name == operation@,
            s@.attrs == Seq::<(Seq<char>, AttrValue)>::empty(),
            s@.status is Unset,
            s@.open,
    {
        SpanHandle {
            inner: otel_start_span(tracer_name, operation),
            model: Ghost(
                SpanModel {
                    name: operation@,
                    attrs: Seq::empty(),
                    status: SpanStatus::Unset,
                    open: true,
                },
            ),
        }
    }

    /// Records a string attribute on the still-open span.
    pub fn set_text_attribute(&mut self, key: &'static str, value: String)
        requires
            old(self)@.open,
        ensures
            final(self)@ == (SpanModel {
                attrs: old(self)@.attrs.push((key@, AttrValue::Text(value@))),
                ..old(self)@
            }),
    {
        let ghost recorded = (key@, AttrValue::Text(value@));
        otel_set_text_attribute(&mut self.inner, key, value);
        let ghost updated = SpanModel { attrs: self.model@.attrs.push(recorded), ..self.model@ };
        self.model = Ghost(updated);
    }

    /// Records an integer attribute on the still-open span.
    pub fn set_int_attribute(&mut self, key: &'static str, value: i64)
        requires
            old(self)@.open,
        ensures
            final(self)@ == (SpanModel {
                attrs: old(self)@.attrs.push((key@, AttrValue::Int(value))),
                ..old(self)@
            }),
    {
        otel_set_int_attribute(&mut self.inner, key, value);
        let ghost updated = SpanModel {
            attrs: self.model@.attrs.push((key@, AttrValue::Int(value))),
            ..self.model@
        };
        self.model = Ghost(updated);
    }

    /// Records a boolean attribute on the still-open span.
    pub fn set_flag_attribute(&mut self, key: &'static str, value: bool)
        requires
            old(self)@.open,
        ensures
            final(self)@ == (SpanModel {
                attrs: old(self)@.attrs.push((key@, AttrValue::Flag(value))),
                ..old(self)@
            }),
    {
        otel_set_flag_attribute(&mut self.inner, key, value);
        let ghost updated = SpanModel {
            attrs: self.model@.attrs.push((key@, AttrValue::Flag(value))),
            ..self.model@
        };
        self.model = Ghost(updated);
    }

    /// Marks the still-open span as completed successfully.
    pub fn set_status_okay(&mut self)
        requires
            old(self)@.open,
        ensures
            final(self)@ == (SpanModel { status: SpanStatus::Okay, ..old(self)@ }),
    {
        otel_set_status_okay(&mut self.inner);
        let ghost updated = SpanModel { status: SpanStatus::Okay, ..self.model@ };
        self.model = Ghost(updated);
    }

    /// Marks the still-open span as failed, with a human-readable message.
    pub fn set_status_error(&mut self, description: String)
        requires
            old(self)@.open,
        ensures
            final(self)@ == (SpanModel {
                status: SpanStatus::Errored(description@),
                ..old(self)@
            }),
    {
        let ghost text = description@;
        otel_set_status_error(&mut self.inner, description);
        let ghost updated = SpanModel { status: SpanStatus::Errored(text), ..self.model@ };
        self.model = Ghost(updated);
    }

    /// Closes the span. Demanding an open span makes a second close
    /// impossible, and every other method demands an open span too, so the
    /// closed span is immutable.
    pub fn end(&mut self)
        requires
            old(self)@.open,
        ensures
            final(self)@ == (SpanModel { open: false, ..old(self)@ }),
    {
        otel_end_span(&mut self.inner);
        let ghost updated = SpanModel { open: false, ..self.model@ };
        self.model = Ghost(updated);
    }
}

} // verus!
