//! The fixed routing table of the service: each route's metric labels,
//! span operation name and HTTP method.

use vstd::prelude::*;

verus! {

/// The routes the service exposes. Metric label sets and span names are
/// derived from this enum, so every handler uses the same vocabulary.
#[derive(Clone, Copy, PartialEq, Eq, Structural, Debug)]
pub enum Endpoint {
    Root,
    Health,
    CalculateAdd,
    CalculateDivide,
    SimulateSlow,
    SimulateError,
    UserById,
}

/// The HTTP methods the routing table uses.
#[derive(Clone, Copy, PartialEq, Eq, Structural, Debug)]
pub enum HttpMethod {
    Get,
    Post,
}

impl Endpoint {
    /// Position of this route in the per-endpoint aggregation tables.
    pub open spec fn index(self) -> int {
        match self {
            Endpoint::Root => 0,
            Endpoint::Health => 1,
            Endpoint::CalculateAdd => 2,
            Endpoint::CalculateDivide => 3,
            Endpoint::SimulateSlow => 4,
            Endpoint::SimulateError => 5,
            Endpoint::UserById => 6,
        }
    }

    /// How many routes there are; every aggregation table has this length.
    pub open spec fn count() -> int {
        7
    }

    pub proof fn lemma_index_bounds(self)
        ensures
            0 <= self.index() < Endpoint::count(),
    {
    }

    pub proof fn lemma_index_injective(self, other: Endpoint)
        ensures
            self.index() == other.index() ==> self == other,
    {
    }

    /// Executable twin of [`Self::index`].
    pub fn index_exec(self) -> (i: usize)
        ensures
            i as int == self.index(),
    {
        match self {
            Endpoint::Root => 0,
            Endpoint::Health => 1,
            Endpoint::CalculateAdd => 2,
            Endpoint::CalculateDivide => 3,
            Endpoint::SimulateSlow => 4,
            Endpoint::SimulateError => 5,
            Endpoint::UserById => 6,
        }
    }

    /// The `endpoint` label value recorded with metrics for this route.
    pub fn path(self) -> (r: &'static str)
        ensures
            self is Root ==> r@ == "/"@,
            self is Health ==> r@ == "/health"@,
            self is CalculateAdd ==> r@ == "/calculate/add"@,
            self is CalculateDivide ==> r@ == "/calculate/divide"@,
            self is SimulateSlow ==> r@ == "/simulate/slow"@,
            self is SimulateError ==> r@ == "/simulate/error"@,
            self is UserById ==> r@ == "/user/:id"@,
    {
        match self {
            Endpoint::Root => "/",
            Endpoint::Health => "/health",
            Endpoint::CalculateAdd => "/calculate/add",
            Endpoint::CalculateDivide => "/calculate/divide",
            Endpoint::SimulateSlow => "/simulate/slow",
            Endpoint::SimulateError => "/simulate/error",
            Endpoint::UserById => "/user/:id",
        }
    }

    /// The span name used for an operation on this route.
    pub open spec fn operation_name(self) -> Seq<char> {
        match self {
            Endpoint::Root => "root"@,
            Endpoint::Health => "health_check"@,
            Endpoint::CalculateAdd => "calculate_add"@,
            Endpoint::CalculateDivide => "calculate_divide"@,
            Endpoint::SimulateSlow => "slow_operation"@,
            Endpoint::SimulateError => "error_operation"@,
            Endpoint::UserById => "get_user"@,
        }
    }

    /// Executable twin of [`Self::operation_name`].
    pub fn operation(self) -> (r: &'static str)
        ensures
            r@ == self.operation_name(),
    {
        match self {
            Endpoint::Root => "root",
            Endpoint::Health => "health_check",
            Endpoint::CalculateAdd => "calculate_add",
            Endpoint::CalculateDivide => "calculate_divide",
            Endpoint::SimulateSlow => "slow_operation",
            Endpoint::SimulateError => "error_operation",
            Endpoint::UserById => "get_user",
        }
    }

    /// The HTTP method the routing table assigns to this route.
    pub open spec fn spec_method(self) -> HttpMethod {
        match self {
            Endpoint::CalculateAdd => HttpMethod::Post,
            Endpoint::CalculateDivide => HttpMethod::Post,
            _ => HttpMethod::Get,
        }
    }

    /// Executable twin of [`Self::spec_method`].
    pub fn method(self) -> (m: HttpMethod)
        ensures
            m == self.spec_method(),
    {
        match self {
            Endpoint::CalculateAdd => HttpMethod::Post,
            Endpoint::CalculateDivide => HttpMethod::Post,
            _ => HttpMethod::Get,
        }
    }
}

impl HttpMethod {
    /// The `method` label value recorded with metrics.
    pub fn label(self) -> (r: &'static str)
        ensures
            self is Get ==> r@ == "GET"@,
            self is Post ==> r@ == "POST"@,
    {
        match self {
            HttpMethod::Get => "GET",
            HttpMethod::Post => "POST",
        }
    }
}

/// The error categories the error counter distinguishes.
#[derive(Clone, Copy, PartialEq, Eq, Structural, Debug)]
pub enum ErrorKind {
    DivisionByZero,
    Simulated,
}

impl ErrorKind {
    /// Position of this category in the per-category error table.
    pub open spec fn index(self) -> int {
        match self {
            ErrorKind::DivisionByZero => 0,
            ErrorKind::Simulated => 1,
        }
    }

    /// How many error categories there are.
    pub open spec fn count() -> int {
        2
    }

    /// Executable twin of [`Self::index`].
    pub fn index_exec(self) -> (i: usize)
        ensures
            i as int == self.index(),
    {
        match self {
            ErrorKind::DivisionByZero => 0,
            ErrorKind::Simulated => 1,
        }
    }

    /// The `error_type` label value recorded with the error counter.
    pub fn label(self) -> (r: &'static str)
        ensures
            self is DivisionByZero ==> r@ == "division_by_zero"@,
            self is Simulated ==> r@ == "simulated"@,
    {
        match self {
            ErrorKind::DivisionByZero => "division_by_zero",
            ErrorKind::Simulated => "simulated",
        }
    }

    /// The human-readable message attached to the span on this error.
    pub open spec fn spec_span_message(self) -> Seq<char> {
        match self {
            ErrorKind::DivisionByZero => "division by zero"@,
            ErrorKind::Simulated => "simulated error"@,
        }
    }

    /// Executable twin of [`Self::spec_span_message`].
    pub fn span_message(self) -> (r: &'static str)
        ensures
            r@ == self.spec_span_message(),
    {
        match self {
            ErrorKind::DivisionByZero => "division by zero",
            ErrorKind::Simulated => "simulated error",
        }
    }

    /// The message returned to the client on this error.
    pub fn client_message(self) -> (r: &'static str)
        ensures
            self is DivisionByZero ==> r@ == "Cannot divide by zero"@,
            self is Simulated ==> r@ == "Simulated error occurred"@,
    {
        match self {
            ErrorKind::DivisionByZero => "Cannot divide by zero",
            ErrorKind::Simulated => "Simulated error occurred",
        }
    }
}

} // verus!
