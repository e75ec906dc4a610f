//! The routes that the service answers.

use vstd::prelude::*;

verus! {

/// Path of the health check.
pub const HEALTH_PATH: &'static str = "/health";

/// Path of the signal endpoint.
pub const SIGNAL_PATH: &'static str = "/execute/signal";

/// A request method that the service answers.
#[derive(Clone, Copy, Debug, PartialEq, Eq, Structural)]
pub enum Method {
    Get,
    Post,
}

/// A route of the service.
#[derive(Clone, Copy, Debug, PartialEq, Eq, Structural)]
pub enum Endpoint {
    /// The health check.
    Health,
    /// The signal from the default input.
    SignalGet,
    /// The signal from the input in the request's body.
    SignalPost,
}

/// The method under which `endpoint` is reached.
pub open spec fn method_of(endpoint: Endpoint) -> Method {
    match endpoint {
        Endpoint::Health => Method::Get,
        Endpoint::SignalGet => Method::Get,
        Endpoint::SignalPost => Method::Post,
    }
}

/// The path under which `endpoint` is reached.
pub open spec fn path_of(endpoint: Endpoint) -> Seq<char> {
    match endpoint {
        Endpoint::Health => HEALTH_PATH@,
        Endpoint::SignalGet => SIGNAL_PATH@,
        Endpoint::SignalPost => SIGNAL_PATH@,
    }
}

impl Endpoint {
    /// The method under which this endpoint is reached.
    pub fn method(self) -> (method: Method)
        ensures
            method == method_of(self),
    {
        match self {
            Endpoint::Health => Method::Get,
            Endpoint::SignalGet => Method::Get,
            Endpoint::SignalPost => Method::Post,
        }
    }

    /// The path under which this endpoint is reached.
    pub fn path(self) -> (path: &'static str)
        ensures
            path@ == path_of(self),
    {
        match self {
            Endpoint::Health => HEALTH_PATH,
            Endpoint::SignalGet => SIGNAL_PATH,
            Endpoint::SignalPost => SIGNAL_PATH,
        }
    }
}

/// The three routes, in the order in which they are registered.
pub fn endpoints() -> (all: Vec<Endpoint>)
    ensures
        all@ == seq![Endpoint::Health, Endpoint::SignalGet, Endpoint::SignalPost],
{
    let all: Vec<Endpoint> = vec![Endpoint::Health, Endpoint::SignalGet, Endpoint::SignalPost];
    assert(all@ =~= seq![Endpoint::Health, Endpoint::SignalGet, Endpoint::SignalPost]);
    all
}

/// Dispatch is unambiguous: a method and a path lead to one endpoint at most.
pub proof fn lemma_routes_are_distinct(a: Endpoint, b: Endpoint)
    requires
        method_of(a) == method_of(b),
        path_of(a) == path_of(b),
    ensures
        a == b,
{
    reveal_strlit("/health");
    reveal_strlit("/execute/signal");
    if a != b {
        assert(HEALTH_PATH@.len() != SIGNAL_PATH@.len());
    }
}

} // verus!
