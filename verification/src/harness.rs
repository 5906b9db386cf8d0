//! Server harness wiring, as a checkable plan.
//!
//! The listener, the router and graceful shutdown are external
//! collaborators; what the core owes them is the wiring order: the one
//! route, the logged-end body layer, the request tracing layer, and the
//! request-identifier extension must all be applied before the app
//! serves. `AppPlan` records that wiring so it can be stated and checked.

use vstd::prelude::*;

verus! {

/// The middleware every response body must pass through so that its
/// lifecycle close is logged exactly once.
pub trait LayerTraceResponseEnd: Sized {
    /// Whether the logged-end body layer has been applied.
    spec fn trace_end_applied(self) -> bool;

    /// Applies the logged-end body layer.
    fn layer_trace_response_end(self) -> (r: Self)
        ensures
            r.trace_end_applied(),
    ;
}

/// What the harness is asked to assemble around the one route.
pub struct AppPlan {
    /// The logged-end body layer is applied.
    pub trace_response_end: bool,
    /// The per-request tracing layer (open record, per-chunk events) is
    /// applied.
    pub trace_layer: bool,
    /// The shared request-identifier counter is made available to every
    /// request.
    pub request_ids: bool,
}

impl LayerTraceResponseEnd for AppPlan {
    open spec fn trace_end_applied(self) -> bool {
        self.trace_response_end
    }

    fn layer_trace_response_end(self) -> (r: Self) {
        AppPlan { trace_response_end: true, ..self }
    }
}

impl AppPlan {
    /// A plan with nothing applied yet.
    pub fn new() -> (p: AppPlan)
        ensures
            !p.trace_response_end,
            !p.trace_layer,
            !p.request_ids,
    {
        AppPlan { trace_response_end: false, trace_layer: false, request_ids: false }
    }
}

/// The full wiring of the app: every layer the core relies on is applied.
pub fn mk_app() -> (p: AppPlan)
    ensures
        p.trace_end_applied(),
        p.trace_layer,
        p.request_ids,
{
    let p = AppPlan::new();
    let p = p.layer_trace_response_end();
    AppPlan { trace_layer: true, request_ids: true, ..p }
}

} // verus!
