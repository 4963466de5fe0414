//! The liveness probe.

use crate::api::{
    empty, empty_response, table_view, Handler, Method, Plan, PlanView, Route, RouteView, OK,
};
use vstd::prelude::*;

verus! {

pub const HEALTH_CHECK_PATH: &'static str = "/health_check";

/// What the probe decides: 200 with an empty body, at once.
pub open spec fn health_check_plan() -> PlanView {
    PlanView::Reply(empty_response(200))
}

/// The probe is answered at once with 200 and an empty body. The plan holds
/// no command, so the database is never reached.
pub fn get_health_check() -> (plan: Plan)
    ensures
        plan@ == health_check_plan(),
{
    Plan::Reply(empty(OK))
}

/// The one route of the probe.
pub open spec fn health_check_routes() -> Seq<RouteView> {
    seq![
        RouteView { method: Method::Get, path: HEALTH_CHECK_PATH@, handler: Handler::HealthCheck },
    ]
}

/// The routing table of the probe.
pub fn router() -> (table: Vec<Route>)
    ensures
        table_view(table@) == health_check_routes(),
{
    let table = vec![
        Route { method: Method::Get, path: HEALTH_CHECK_PATH, handler: Handler::HealthCheck },
    ];
    assert(table_view(table@) =~= health_check_routes());
    table
}

} // verus!
