//! The continuous-profiling agent's configuration and lifecycle. The agent
//! samples call stacks at a fixed rate and ships profiles to its backend;
//! this module pins down its state machine — created once, started before
//! the listener accepts traffic, stopped exactly once after the listener
//! closes — while the binary drives the real profiler.

use vstd::prelude::*;
use vstd::string::*;

verus! {

/// Configuration of the sampling profiler.
#[derive(Clone, Debug)]
pub struct ProfilingConfig {
    /// Backend the captured profiles are shipped to.
    pub server_url: String,
    /// Name the profiles are filed under.
    pub application_name: String,
    /// Stack sampling rate in hertz.
    pub sample_rate_hz: u32,
    /// Identity tags attached to every profile.
    pub tags: Vec<(String, String)>,
}

impl ProfilingConfig {
    pub open spec fn wf(self) -> bool {
        &&& self.server_url@.len() > 0
        &&& self.application_name@.len() > 0
        &&& self.sample_rate_hz > 0
    }
}

/// Default profiling backend used when the environment supplies none.
pub fn default_profiling_endpoint() -> (r: &'static str)
    ensures
        r@ == "http://localhost:4040"@,
        r@.len() > 0,
{
    proof {
        reveal_strlit("http://localhost:4040");
    }
    "http://localhost:4040"
}

/// Stack sampling rate the service profiles at, in hertz.
pub const PROFILE_SAMPLE_RATE_HZ: u32 = 100;

/// The profiling configuration this service runs with: the given backend,
/// a 100 Hz sampling rate, and the service and environment identity tags.
pub fn default_profiling_config(server_url: String) -> (c: ProfilingConfig)
    ensures
        c.server_url@ == server_url@,
        c.application_name@ == "rust-observability-demo"@,
        c.sample_rate_hz == PROFILE_SAMPLE_RATE_HZ,
        c.tags@.len() == 2,
        c.tags@[0].0@ == "service"@ && c.tags@[0].1@ == "rust-observability-demo"@,
        c.tags@[1].0@ == "environment"@ && c.tags@[1].1@ == "development"@,
        server_url@.len() > 0 ==> c.wf(),
{
    proof {
        reveal_strlit("rust-observability-demo");
    }
    let mut tags: Vec<(String, String)> = Vec::new();
    tags.push((String::from_str("service"), String::from_str("rust-observability-demo")));
    tags.push((String::from_str("environment"), String::from_str("development")));
    ProfilingConfig {
        server_url,
        application_name: String::from_str("rust-observability-demo"),
        sample_rate_hz: PROFILE_SAMPLE_RATE_HZ,
        tags,
    }
}

/// Where the profiling agent stands in its lifetime. It runs at most once
/// per process: once stopped it never restarts.
#[derive(Clone, Copy, PartialEq, Eq, Structural, Debug)]
pub enum AgentPhase {
    /// Built but not yet sampling.
    Created,
    /// Sampling call stacks.
    Running,
    /// Stopped and flushed; terminal.
    Stopped,
}

/// Why the profiling session could not be built. A refused session is fatal
/// at startup: a half-working pipeline must not run silently.
#[derive(Clone, Copy, PartialEq, Eq, Structural, Debug)]
pub enum ProfilingError {
    InvalidConfig,
}

impl ProfilingError {
    /// A human-readable description for the operator.
    pub fn message(self) -> (r: &'static str)
        ensures
            r@ == "profiler configuration has an empty endpoint, an empty name or a zero sample rate"@,
    {
        "profiler configuration has an empty endpoint, an empty name or a zero sample rate"
    }
}

/// The verified lifecycle of the profiling agent. Each transition demands
/// the phase it leaves, so start and stop each happen exactly once, in that
/// order, and no transition leaves the terminal phase.
pub struct ProfilingSession {
    phase: AgentPhase,
    config: ProfilingConfig,
}

impl ProfilingSession {
    pub closed spec fn phase(self) -> AgentPhase {
        self.phase
    }

    pub closed spec fn config(self) -> ProfilingConfig {
        self.config
    }

    /// Reads the phase the agent is in.
    pub fn current_phase(&self) -> (r: AgentPhase)
        ensures
            r == self.phase(),
    {
        self.phase
    }

    /// Validates the configuration and produces the session in its initial
    /// phase. Succeeds exactly on well-formed configuration.
    pub fn create(config: ProfilingConfig) -> (r: Result<ProfilingSession, ProfilingError>)
        ensures
            r is Ok <==> config.wf(),
            r matches Ok(s) ==> s.phase() is Created && s.config() == config,
    {
        if config.server_url.as_str().unicode_len() == 0 {
            return Result::Err(ProfilingError::InvalidConfig);
        }
        if config.application_name.as_str().unicode_len() == 0 {
            return Result::Err(ProfilingError::InvalidConfig);
        }
        if config.sample_rate_hz == 0 {
            return Result::Err(ProfilingError::InvalidConfig);
        }
        Result::Ok(ProfilingSession { phase: AgentPhase::Created, config })
    }

    /// Starts sampling. Only the freshly created agent can start, so the
    /// agent starts at most once — before the listener accepts connections.
    pub fn start(&mut self)
        requires
            old(self).phase() is Created,
        ensures
            final(self).phase() is Running,
            final(self).config() == old(self).config(),
    {
        self.phase = AgentPhase::Running;
    }

    /// Stops sampling and flushes captured profiles. Only the running agent
    /// can stop, and the stopped phase is terminal: no restart.
    pub fn stop(&mut self)
        requires
            old(self).phase() is Running,
        ensures
            final(self).phase() is Stopped,
            final(self).config() == old(self).config(),
    {
        self.phase = AgentPhase::Stopped;
    }
}

} // verus!
