//! The HTTP surface: what a response is, what a handler decides, and which
//! handler answers which route.
//!
//! A handler never touches the database. It returns a [`Plan`]: either the
//! response itself, or the one store command to run. For a command, the
//! caller runs its statement and hands the outcome to
//! [`owner::respond`], which gives the response.

pub mod health_check;
pub mod owner;

use crate::api::owner::{CreateOwnerResponse, ErrorResponse, OwnerSummary, OwnerSummaryView};
use crate::store::{Command, CommandView};
use vstd::prelude::*;

verus! {

pub const OK: u16 = 200;

pub const CREATED: u16 = 201;

pub const NO_CONTENT: u16 = 204;

pub const BAD_REQUEST: u16 = 400;

pub const NOT_FOUND: u16 = 404;

pub const INTERNAL_SERVER_ERROR: u16 = 500;

/// What a response carries.
#[derive(Debug, Clone, PartialEq, Eq)]
pub enum Body {
    Empty,
    Owner(OwnerSummary),
    Created(CreateOwnerResponse),
    Error(ErrorResponse),
}

/// What [`Body`] is in contracts.
pub enum BodyView {
    Empty,
    Owner(OwnerSummaryView),
    Created(int),
    Error(Seq<char>),
}

impl View for Body {
    type V = BodyView;

    open spec fn view(&self) -> BodyView {
        match self {
            Body::Empty => BodyView::Empty,
            Body::Owner(owner) => BodyView::Owner(owner@),
            Body::Created(created) => BodyView::Created(created@),
            Body::Error(error) => BodyView::Error(error@),
        }
    }
}

/// A response: its status code and its body.
#[derive(Debug, Clone, PartialEq, Eq)]
pub struct Response {
    pub status: u16,
    pub body: Body,
}

/// What [`Response`] is in contracts.
pub struct ResponseView {
    pub status: int,
    pub body: BodyView,
}

impl View for Response {
    type V = ResponseView;

    open spec fn view(&self) -> ResponseView {
        ResponseView { status: self.status as int, body: self.body@ }
    }
}

/// What a handler decides on a request.
#[derive(Debug, Clone, PartialEq, Eq)]
pub enum Plan {
    /// Answer at once; the database is not reached.
    Reply(Response),
    /// Run this one command, then answer by its outcome.
    Query(Command),
}

/// What [`Plan`] is in contracts.
pub enum PlanView {
    Reply(ResponseView),
    Query(CommandView),
}

impl View for Plan {
    type V = PlanView;

    open spec fn view(&self) -> PlanView {
        match self {
            Plan::Reply(response) => PlanView::Reply(response@),
            Plan::Query(command) => PlanView::Query(command@),
        }
    }
}

/// An empty response with the status `status`.
pub open spec fn empty_response(status: int) -> ResponseView {
    ResponseView { status, body: BodyView::Empty }
}

/// A failure with the status `status` and a message for the client.
pub open spec fn error_response(status: int, message: Seq<char>) -> ResponseView {
    ResponseView { status, body: BodyView::Error(message) }
}

/// An empty response with the status `status`.
pub fn empty(status: u16) -> (response: Response)
    ensures
        response@ == empty_response(status as int),
{
    Response { status, body: Body::Empty }
}

/// A failure with the status `status` and the message `message`.
pub fn error(status: u16, message: String) -> (response: Response)
    ensures
        response@ == error_response(status as int, message@),
{
    Response { status, body: Body::Error(ErrorResponse { message }) }
}

/// The method of a request.
#[derive(Debug, Clone, Copy, PartialEq, Eq, Structural)]
pub enum Method {
    Get,
    Post,
    Patch,
    Delete,
}

/// The handlers of the service.
#[derive(Debug, Clone, Copy, PartialEq, Eq, Structural)]
pub enum Handler {
    HealthCheck,
    GetOwner,
    PostOwner,
    DeleteOwner,
    UpdateProfile,
    UpdateCredentials,
}

/// One line of the routing table. In `path` a segment that starts with a
/// colon stands for any one segment.
#[derive(Debug, Clone, Copy, PartialEq, Eq)]
pub struct Route {
    pub method: Method,
    pub path: &'static str,
    pub handler: Handler,
}

/// What [`Route`] is in contracts.
pub struct RouteView {
    pub method: Method,
    pub path: Seq<char>,
    pub handler: Handler,
}

impl View for Route {
    type V = RouteView;

    open spec fn view(&self) -> RouteView {
        RouteView { method: self.method, path: self.path@, handler: self.handler }
    }
}

/// The view of each route of a table.
pub open spec fn table_view(routes: Seq<Route>) -> Seq<RouteView> {
    routes.map_values(|r: Route| r@)
}

/// The whole routing table: the health check, then the owner routes.
pub open spec fn all_routes() -> Seq<RouteView> {
    health_check::health_check_routes() + owner::owner_routes()
}

/// The routing table of the service: the two groups merged.
pub fn routes() -> (table: Vec<Route>)
    ensures
        table_view(table@) == all_routes(),
{
    let mut table = health_check::router();
    let mut owners = owner::router();
    let ghost first = table@;
    let ghost second = owners@;
    table.append(&mut owners);
    assert(table_view(table@) =~= table_view(first) + table_view(second));
    table
}

} // verus!
