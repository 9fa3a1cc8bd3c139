//! The named instruments of the service and a verified model of their
//! aggregation: a request counter keyed by route, an error counter keyed by
//! error category, and a log of recorded request durations.
//!
//! Each update goes to the real opentelemetry instrument and, in the same
//! call, to the model the contracts speak of: counters move by exactly one
//! per request, and nothing else changes.

use vstd::prelude::*;
use vstd::pervasive::VecAdditionalExecFns;

use opentelemetry::KeyValue;
use opentelemetry::metrics::Counter;
use opentelemetry::metrics::Histogram;
use opentelemetry::metrics::Meter;

use crate::labels::Endpoint;
use crate::labels::ErrorKind;

verus! {

#[verifier::external_type_specification]
#[verifier::external_body]
#[verifier::reject_recursive_types(T)]
pub struct ExCounter<T>(Counter<T>);

#[verifier::external_type_specification]
#[verifier::external_body]
#[verifier::reject_recursive_types(T)]
pub struct ExHistogram<T>(Histogram<T>);

#[verifier::external_type_specification]
#[verifier::external_body]
pub struct ExMeter(Meter);

/// Relies on opentelemetry's `global::meter`: returns the named meter from
/// the process-wide meter provider.
#[verifier::external_body]
fn otel_meter(name: &'static str) -> Meter {
    opentelemetry::global::meter(name)
}

/// Relies on opentelemetry's `Meter::u64_counter` builder: creates the named
/// counter instrument once.
#[verifier::external_body]
fn otel_u64_counter(meter: &Meter, name: &'static str, description: &'static str) -> Counter<
    u64,
> {
    meter.u64_counter(name).with_description(description).build()
}

/// Relies on opentelemetry's `Meter::u64_histogram` builder: creates the
/// named histogram instrument once.
#[verifier::external_body]
fn otel_u64_histogram(
    meter: &Meter,
    name: &'static str,
    description: &'static str,
    unit: &'static str,
) -> Histogram<u64> {
    meter.u64_histogram(name).with_description(description).with_unit(unit).build()
}

/// Relies on opentelemetry's `Counter::add`: records an increment under a
/// two-dimension label set. Aggregation inside the SDK is safe under
/// concurrent use.
#[verifier::external_body]
fn otel_counter_add2(
    counter: &Counter<u64>,
    amount: u64,
    key_a: &'static str,
    value_a: &'static str,
    key_b: &'static str,
    value_b: &'static str,
) {
    counter.add(amount, &[KeyValue::new(key_a, value_a), KeyValue::new(key_b, value_b)]);
}

/// Relies on opentelemetry's `Counter::add`: records an increment under a
/// one-dimension label set.
#[verifier::external_body]
fn otel_counter_add1(counter: &Counter<u64>, amount: u64, key: &'static str, value: &'static str) {
    counter.add(amount, &[KeyValue::new(key, value)]);
}

/// Relies on opentelemetry's `Histogram::record`: records one value under a
/// one-dimension label set.
#[verifier::external_body]
fn otel_histogram_record1(
    histogram: &Histogram<u64>,
    value: u64,
    key: &'static str,
    label: &'static str,
) {
    histogram.record(value, &[KeyValue::new(key, label)]);
}

/// The three instruments every handler records into, together with the
/// verified model of what they have aggregated.
pub struct AppMetrics {
    request_counter: Counter<u64>,
    request_duration: Histogram<u64>,
    error_counter: Counter<u64>,
    request_totals: Vec<u64>,
    error_totals: Vec<u64>,
    duration_log: Vec<(Endpoint, u64)>,
}

impl AppMetrics {
    /// The aggregation tables cover every route and every error category.
    pub closed spec fn wf(self) -> bool {
        &&& self.request_totals@.len() == Endpoint::count()
        &&& self.error_totals@.len() == ErrorKind::count()
    }

    /// Requests counted so far for a route, over all its label sets.
    pub closed spec fn request_count(self, endpoint: Endpoint) -> u64 {
        self.request_totals@[endpoint.index()]
    }

    /// Errors counted so far for a category.
    pub closed spec fn error_count(self, kind: ErrorKind) -> u64 {
        self.error_totals@[kind.index()]
    }

    /// Every duration recorded so far, in order: which route, how many
    /// milliseconds.
    pub closed spec fn durations(self) -> Seq<(Endpoint, u64)> {
        self.duration_log@
    }

    /// The durations recorded for one route, in order.
    pub open spec fn durations_for(self, endpoint: Endpoint) -> Seq<u64> {
        self.durations().filter(|p: (Endpoint, u64)| p.0 == endpoint).map_values(|p: (Endpoint, u64)| p.1)
    }

    /// Creates the three instruments against the process-wide meter, once at
    /// startup; nothing has been counted yet.
    pub fn new() -> (m: AppMetrics)
        ensures
            m.wf(),
            forall|e: Endpoint| #[trigger] m.request_count(e) == 0,
            forall|k: ErrorKind| #[trigger] m.error_count(k) == 0,
            m.durations() == Seq::<(Endpoint, u64)>::empty(),
    {
        let meter = otel_meter("observability-demo");
        let request_counter = otel_u64_counter(
            &meter,
            "http_requests_total",
            "Total number of HTTP requests",
        );
        let request_duration = otel_u64_histogram(
            &meter,
            "http_request_duration_milliseconds",
            "HTTP request duration in milliseconds",
            "ms",
        );
        let error_counter = otel_u64_counter(&meter, "errors_total", "Total number of errors");
        let request_totals: Vec<u64> = vec![0, 0, 0, 0, 0, 0, 0];
        let error_totals: Vec<u64> = vec![0, 0];
        let duration_log: Vec<(Endpoint, u64)> = Vec::new();
        let m = AppMetrics {
            request_counter,
            request_duration,
            error_counter,
            request_totals,
            error_totals,
            duration_log,
        };
        proof {
            assert(m.durations() =~= Seq::<(Endpoint, u64)>::empty());
        }
        m
    }

    /// Counts one request on a route: the counter for that route moves up by
    /// exactly one and every other aggregate stays as it was.
    pub fn record_request(&mut self, endpoint: Endpoint)
        requires
            old(self).wf(),
            old(self).request_count(endpoint) < u64::MAX,
        ensures
            final(self).wf(),
            final(self).request_count(endpoint) == old(self).request_count(endpoint) + 1,
            forall|e: Endpoint|
                e != endpoint ==> #[trigger] final(self).request_count(e) == old(self).request_count(e),
            forall|k: ErrorKind| #[trigger] final(self).error_count(k) == old(self).error_count(k),
            final(self).durations() == old(self).durations(),
    {
        otel_counter_add2(
            &self.request_counter,
            1,
            "endpoint",
            endpoint.path(),
            "method",
            endpoint.method().label(),
        );
        let i = endpoint.index_exec();
        let current = self.request_totals[i];
        self.request_totals.set(i, current + 1);
    }

    /// Counts one error of a category: that category moves up by exactly one
    /// and every other aggregate stays as it was.
    pub fn record_error(&mut self, kind: ErrorKind)
        requires
            old(self).wf(),
            old(self).error_count(kind) < u64::MAX,
        ensures
            final(self).wf(),
            final(self).error_count(kind) == old(self).error_count(kind) + 1,
            forall|k: ErrorKind|
                k != kind ==> #[trigger] final(self).error_count(k) == old(self).error_count(k),
            forall|e: Endpoint| #[trigger] final(self).request_count(e) == old(self).request_count(e),
            final(self).durations() == old(self).durations(),
    {
        otel_counter_add1(&self.error_counter, 1, "error_type", kind.label());
        let i = kind.index_exec();
        let current = self.error_totals[i];
        self.error_totals.set(i, current + 1);
    }

    /// Reads a route's request total back out of the aggregation table.
    pub fn request_total(&self, endpoint: Endpoint) -> (r: u64)
        requires
            self.wf(),
        ensures
            r == self.request_count(endpoint),
    {
        let i = endpoint.index_exec();
        self.request_totals[i]
    }

    /// Reads a category's error total back out of the aggregation table.
    pub fn error_total(&self, kind: ErrorKind) -> (r: u64)
        requires
            self.wf(),
        ensures
            r == self.error_count(kind),
    {
        let i = kind.index_exec();
        self.error_totals[i]
    }

    /// How many durations have been recorded over all routes.
    pub fn durations_recorded(&self) -> (r: usize)
        ensures
            r == self.durations().len(),
    {
        self.duration_log.len()
    }

    /// Reads one recorded duration back: which route, how many milliseconds.
    pub fn recorded_duration(&self, i: usize) -> (r: (Endpoint, u64))
        requires
            i < self.durations().len(),
        ensures
            r == self.durations()[i as int],
    {
        self.duration_log[i]
    }

    /// Records one wall-clock duration for a route into the histogram; the
    /// duration log grows by that one entry and the counters stay as they
    /// were. A duration of zero is valid.
    pub fn record_duration(&mut self, endpoint: Endpoint, elapsed_ms: u64)
        requires
            old(self).wf(),
        ensures
            final(self).wf(),
            final(self).durations() == old(self).durations().push((endpoint, elapsed_ms)),
            forall|e: Endpoint| #[trigger] final(self).request_count(e) == old(self).request_count(e),
            forall|k: ErrorKind| #[trigger] final(self).error_count(k) == old(self).error_count(k),
    {
        otel_histogram_record1(&self.request_duration, elapsed_ms, "endpoint", endpoint.path());
        self.duration_log.push((endpoint, elapsed_ms));
    }
}

} // verus!
