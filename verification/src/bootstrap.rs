//! Process-wide telemetry bootstrap: the identity attributes attached to all
//! telemetry, the exporter configuration for each signal, and the handle that
//! tracks the span ledger from startup to shutdown.
//!
//! The handle is built exactly once at startup and threaded by reference into
//! the request path; the binary around the library drives the real exporter
//! stack from the plan validated here.

use vstd::prelude::*;
use vstd::string::*;

verus! {

/// Static identity attributes attached to all emitted telemetry.
#[derive(Clone, Debug)]
pub struct ResourceDescriptor {
    pub service_name: String,
    pub service_version: String,
    pub deployment_environment: String,
}

impl ResourceDescriptor {
    pub open spec fn wf(self) -> bool {
        self.service_name@.len() > 0
    }
}

/// The identity this service reports with every signal.
pub fn default_resource() -> (r: ResourceDescriptor)
    ensures
        r.service_name@ == "rust-observability-demo"@,
        r.service_version@ == "0.1.0"@,
        r.deployment_environment@ == "development"@,
        r.wf(),
{
    proof {
        reveal_strlit("rust-observability-demo");
    }
    ResourceDescriptor {
        service_name: String::from_str("rust-observability-demo"),
        service_version: String::from_str("0.1.0"),
        deployment_environment: String::from_str("development"),
    }
}

/// Configuration for one signal's exporter.
#[derive(Clone, Debug)]
pub struct ExporterConfig {
    /// Destination the exporter sends to.
    pub endpoint: String,
    /// Transport timeout in milliseconds.
    pub timeout_ms: u64,
    /// Export interval in milliseconds; only the metrics exporter has one.
    pub export_interval_ms: Option<u64>,
}

impl ExporterConfig {
    pub open spec fn wf(self) -> bool {
        &&& self.endpoint@.len() > 0
        &&& self.timeout_ms > 0
        &&& (self.export_interval_ms is Some ==> self.export_interval_ms->0 > 0)
    }
}

/// One exporter configuration per telemetry signal.
#[derive(Clone, Debug)]
pub struct TelemetryPlan {
    pub traces: ExporterConfig,
    pub metrics: ExporterConfig,
    pub logs: ExporterConfig,
}

impl TelemetryPlan {
    pub open spec fn wf(self) -> bool {
        &&& self.traces.wf()
        &&& self.metrics.wf()
        &&& self.logs.wf()
        &&& self.traces.export_interval_ms is None
        &&& self.metrics.export_interval_ms is Some
        &&& self.logs.export_interval_ms is None
    }
}

/// Transport timeout applied to every exporter, in milliseconds.
pub const EXPORT_TIMEOUT_MS: u64 = 3000;

/// Default export interval of the periodic metrics reader, in milliseconds.
pub const METRIC_EXPORT_INTERVAL_MS: u64 = 10000;

/// Default collector endpoint used when the environment supplies none.
pub fn default_collector_endpoint() -> (r: &'static str)
    ensures
        r@ == "http://localhost:4317"@,
        r@.len() > 0,
    {
    proof {
        reveal_strlit("http://localhost:4317");
    }
    "http://localhost:4317"
}

/// Picks the configured value when the environment supplies one, and the
/// given default otherwise. Absence of the variable never blocks startup.
pub fn endpoint_or_default(configured: Option<String>, default_endpoint: &str) -> (r: String)
    ensures
        configured is Some ==> r@ == configured->0@,
        configured is None ==> r@ == default_endpoint@,
{
    match configured {
        Option::Some(value) => value,
        Option::None => String::from_str(default_endpoint),
    }
}

/// Lays out one exporter configuration per signal, all bound to the same
/// collector endpoint: batched traces and logs, periodic metrics.
pub fn telemetry_plan(endpoint: &str) -> (p: TelemetryPlan)
    ensures
        p.traces.endpoint@ == endpoint@,
        p.metrics.endpoint@ == endpoint@,
        p.logs.endpoint@ == endpoint@,
        p.traces.timeout_ms == EXPORT_TIMEOUT_MS,
        p.metrics.timeout_ms == EXPORT_TIMEOUT_MS,
        p.logs.timeout_ms == EXPORT_TIMEOUT_MS,
        p.traces.export_interval_ms is None,
        p.metrics.export_interval_ms == Some(METRIC_EXPORT_INTERVAL_MS),
        p.logs.export_interval_ms is None,
        endpoint@.len() > 0 ==> p.wf(),
{
    TelemetryPlan {
        traces: ExporterConfig {
            endpoint: String::from_str(endpoint),
            timeout_ms: EXPORT_TIMEOUT_MS,
            export_interval_ms: Option::None,
        },
        metrics: ExporterConfig {
            endpoint: String::from_str(endpoint),
            timeout_ms: EXPORT_TIMEOUT_MS,
            export_interval_ms: Option::Some(METRIC_EXPORT_INTERVAL_MS),
        },
        logs: ExporterConfig {
            endpoint: String::from_str(endpoint),
            timeout_ms: EXPORT_TIMEOUT_MS,
            export_interval_ms: Option::None,
        },
    }
}

/// Why telemetry bootstrap was refused. Bootstrap failures are fatal at
/// startup: the process must not serve traffic with a half-built pipeline.
#[derive(Clone, Copy, PartialEq, Eq, Structural, Debug)]
pub enum BootstrapError {
    InvalidResource,
    InvalidExporterConfig,
}

impl BootstrapError {
    /// A human-readable description for the operator.
    pub fn message(self) -> (r: &'static str)
        ensures
            self is InvalidResource ==> r@ == "telemetry resource is missing a service name"@,
            self is InvalidExporterConfig ==> r@ == "an exporter is configured with an empty endpoint or a zero timeout"@,
    {
        match self {
            BootstrapError::InvalidResource => "telemetry resource is missing a service name",
            BootstrapError::InvalidExporterConfig => "an exporter is configured with an empty endpoint or a zero timeout",
        }
    }
}

/// Where the telemetry pipeline stands in its lifetime.
#[derive(Clone, Copy, PartialEq, Eq, Structural, Debug)]
pub enum PipelineState {
    /// Providers installed; spans may start and close.
    Serving,
    /// Flushed and closed; terminal.
    Terminated,
}

/// The handle created once at startup. It owns the validated plan and keeps
/// the span ledger: how many spans were started, closed, and exported.
///
/// The ledger invariant `exported <= closed <= started` holds throughout:
/// only closed spans reach the batching exporter, and a span closes only
/// after it started.
#[derive(Debug)]
pub struct TelemetryHandle {
    state: PipelineState,
    resource: ResourceDescriptor,
    plan: TelemetryPlan,
    spans_started: u64,
    spans_closed: u64,
    spans_exported: u64,
}

impl TelemetryHandle {
    pub open spec fn wf(self) -> bool {
        &&& self.resource().wf()
        &&& self.plan().wf()
        &&& self.spans_exported() <= self.spans_closed() <= self.spans_started()
    }

    pub closed spec fn state(self) -> PipelineState {
        self.state
    }

    pub closed spec fn spans_started(self) -> u64 {
        self.spans_started
    }

    pub closed spec fn spans_closed(self) -> u64 {
        self.spans_closed
    }

    pub closed spec fn spans_exported(self) -> u64 {
        self.spans_exported
    }

    /// Spans started but not yet closed.
    pub open spec fn open_spans(self) -> int {
        self.spans_started() - self.spans_closed()
    }

    pub closed spec fn resource(self) -> ResourceDescriptor {
        self.resource
    }

    pub closed spec fn plan(self) -> TelemetryPlan {
        self.plan
    }

    /// Validates the resource and the per-signal exporter configurations and
    /// produces the process-wide handle. Succeeds exactly on well-formed
    /// input; a malformed configuration is refused so the process can exit
    /// before accepting traffic.
    pub fn initialize(resource: ResourceDescriptor, plan: TelemetryPlan) -> (r: Result<
        TelemetryHandle,
        BootstrapError,
    >)
        ensures
            r is Ok <==> (resource.wf() && plan.wf()),
            r matches Ok(h) ==> {
                &&& h.wf()
                &&& h.state() is Serving
                &&& h.spans_started() == 0
                &&& h.spans_closed() == 0
                &&& h.spans_exported() == 0
                &&& h.resource() == resource
                &&& h.plan() == plan
            },
            r matches Err(e) ==> (e is InvalidResource <==> !resource.wf()),
    {
        if resource.service_name.as_str().unicode_len() == 0 {
            return Result::Err(BootstrapError::InvalidResource);
        }
        if !exporter_config_ok(&plan.traces) || !exporter_config_ok(&plan.metrics) || !exporter_config_ok(
            &plan.logs,
        ) {
            return Result::Err(BootstrapError::InvalidExporterConfig);
        }
        if plan.traces.export_interval_ms.is_some() || plan.metrics.export_interval_ms.is_none()
            || plan.logs.export_interval_ms.is_some() {
            return Result::Err(BootstrapError::InvalidExporterConfig);
        }
        Result::Ok(
            TelemetryHandle {
                state: PipelineState::Serving,
                resource,
                plan,
                spans_started: 0,
                spans_closed: 0,
                spans_exported: 0,
            },
        )
    }

    /// Whether the pipeline is still serving.
    pub fn is_serving(&self) -> (r: bool)
        ensures
            r == (self.state() is Serving),
    {
        match self.state {
            PipelineState::Serving => true,
            PipelineState::Terminated => false,
        }
    }

    /// Reads the ledger's started count back out.
    pub fn started_total(&self) -> (r: u64)
        ensures
            r == self.spans_started(),
    {
        self.spans_started
    }

    /// Reads the ledger's closed count back out.
    pub fn closed_total(&self) -> (r: u64)
        ensures
            r == self.spans_closed(),
    {
        self.spans_closed
    }

    /// Reads the ledger's exported count back out.
    pub fn exported_total(&self) -> (r: u64)
        ensures
            r == self.spans_exported(),
    {
        self.spans_exported
    }

    /// Accounts for one span starting. Only the serving pipeline starts spans.
    pub fn note_span_started(&mut self)
        requires
            old(self).wf(),
            old(self).state() is Serving,
            old(self).spans_started() < u64::MAX,
        ensures
            final(self).wf(),
            final(self).spans_started() == old(self).spans_started() + 1,
            final(self).spans_closed() == old(self).spans_closed(),
            final(self).spans_exported() == old(self).spans_exported(),
            final(self).state() == old(self).state(),
            final(self).resource() == old(self).resource(),
            final(self).plan() == old(self).plan(),
    {
        self.spans_started = self.spans_started + 1;
    }

    /// Accounts for one span closing; there must be an open span.
    pub fn note_span_closed(&mut self)
        requires
            old(self).wf(),
            old(self).state() is Serving,
            old(self).spans_closed() < old(self).spans_started(),
        ensures
            final(self).wf(),
            final(self).spans_closed() == old(self).spans_closed() + 1,
            final(self).spans_started() == old(self).spans_started(),
            final(self).spans_exported() == old(self).spans_exported(),
            final(self).state() == old(self).state(),
            final(self).resource() == old(self).resource(),
            final(self).plan() == old(self).plan(),
    {
        self.spans_closed = self.spans_closed + 1;
    }

    /// Accounts for the batching exporter shipping `batch` closed spans.
    /// No span is exported before it closed.
    pub fn note_spans_exported(&mut self, batch: u64)
        requires
            old(self).wf(),
            old(self).spans_exported() + batch <= old(self).spans_closed(),
        ensures
            final(self).wf(),
            final(self).spans_exported() == old(self).spans_exported() + batch,
            final(self).spans_started() == old(self).spans_started(),
            final(self).spans_closed() == old(self).spans_closed(),
            final(self).state() == old(self).state(),
            final(self).resource() == old(self).resource(),
            final(self).plan() == old(self).plan(),
    {
        self.spans_exported = self.spans_exported + batch;
    }

    /// Flushes and closes the pipeline. Callable exactly once, and only after
    /// the listener has drained: no span may still be open. Afterwards every
    /// closed span has been exported — nothing is dropped silently.
    pub fn shutdown(&mut self)
        requires
            old(self).wf(),
            old(self).state() is Serving,
            old(self).open_spans() == 0,
        ensures
            final(self).wf(),
            final(self).state() is Terminated,
            final(self).spans_started() == old(self).spans_started(),
            final(self).spans_closed() == old(self).spans_closed(),
            final(self).spans_exported() == final(self).spans_closed(),
    {
        let pending = self.spans_closed - self.spans_exported;
        self.note_spans_exported(pending);
        self.state = PipelineState::Terminated;
    }
}

/// Executable check matching [`ExporterConfig::wf`] apart from the
/// interval-per-signal layout, which the caller checks itself.
fn exporter_config_ok(c: &ExporterConfig) -> (r: bool)
    ensures
        r == (c.endpoint@.len() > 0 && c.timeout_ms > 0 && (c.export_interval_ms is Some
            ==> c.export_interval_ms->0 > 0)),
{
    if c.endpoint.as_str().unicode_len() == 0 {
        return false;
    }
    if c.timeout_ms == 0 {
        return false;
    }
    match c.export_interval_ms {
        Option::Some(interval) => interval > 0,
        Option::None => true,
    }
}

} // verus!
