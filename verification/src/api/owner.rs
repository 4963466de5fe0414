//! The owner resource: its records, the bodies of its requests and
//! responses, its handlers and its routes.

use crate::api::{
    empty, empty_response, error, error_response, table_view, Body, BodyView, Handler, Method,
    Plan, PlanView, Response, ResponseView, Route, RouteView, BAD_REQUEST, CREATED,
    INTERNAL_SERVER_ERROR, NOT_FOUND, NO_CONTENT, OK,
};
use crate::decimal::{decimal, parse_i32, parse_i32_text, push_i32};
pub use crate::store::{create_owner, select_owner};
use crate::store::{
    inserted, read_created, read_owner, read_written, selected, written, Command, CommandView,
    Fetched, FetchedView, StoreError, StoreErrorView,
};
use vstd::prelude::*;

verus! {

pub const OWNER_PATH: &'static str = "/owner";

pub const OWNER_ID_PATH: &'static str = "/owner/:id";

pub const OWNER_PROFILE_PATH: &'static str = "/owner/:id/profile";

pub const OWNER_CREDENTIALS_PATH: &'static str = "/owner/:id/credentials";

/// Said with 400 where the identifier in the path is not an integer.
pub const INVALID_ID: &'static str = "Invalid owner id";

/// Said with 400 where the body of the request cannot be read.
pub const INVALID_BODY: &'static str = "Invalid request body";

/// Said with 404, followed by the identifier that was asked for.
pub const RECORD_NOT_FOUND: &'static str = "Record not found for id: ";

/// Said with 500. The cause stays in the log.
pub const UNKNOWN_ERROR: &'static str = "Unknown Error";

/// The envelope of a request body: the value sits under `payload`.
#[derive(Debug, Clone, PartialEq, Eq)]
pub struct ApiPayload<T> {
    pub payload: T,
}

/// A stored owner, as the `owners` table holds it.
#[derive(Debug, Clone, PartialEq, Eq)]
pub struct Owners {
    pub id: i32,
    pub name: String,
    pub email: String,
    pub password: String,
}

/// What [`Owners`] is in contracts.
pub struct OwnersView {
    pub id: int,
    pub name: Seq<char>,
    pub email: Seq<char>,
    pub password: Seq<char>,
}

impl View for Owners {
    type V = OwnersView;

    open spec fn view(&self) -> OwnersView {
        OwnersView {
            id: self.id as int,
            name: self.name@,
            email: self.email@,
            password: self.password@,
        }
    }
}

/// What a client sends to create an owner.
#[derive(Debug, Clone, PartialEq, Eq)]
pub struct CreateOwner {
    pub name: String,
    pub email: String,
    pub password: String,
}

/// What [`CreateOwner`] is in contracts.
pub struct CreateOwnerView {
    pub name: Seq<char>,
    pub email: Seq<char>,
    pub password: Seq<char>,
}

impl View for CreateOwner {
    type V = CreateOwnerView;

    open spec fn view(&self) -> CreateOwnerView {
        CreateOwnerView { name: self.name@, email: self.email@, password: self.password@ }
    }
}

/// A new name for the owner `owner_id`.
#[derive(Debug, Clone, PartialEq, Eq)]
pub struct UpdateProfile {
    pub name: String,
    pub owner_id: i32,
}

/// What [`UpdateProfile`] is in contracts.
pub struct UpdateProfileView {
    pub name: Seq<char>,
    pub owner_id: int,
}

impl View for UpdateProfile {
    type V = UpdateProfileView;

    open spec fn view(&self) -> UpdateProfileView {
        UpdateProfileView { name: self.name@, owner_id: self.owner_id as int }
    }
}

/// A new email and password for the owner `owner_id`.
#[derive(Debug, Clone, PartialEq, Eq)]
pub struct UpdateCredentials {
    pub email: String,
    pub password: String,
    pub owner_id: i32,
}

/// What [`UpdateCredentials`] is in contracts.
pub struct UpdateCredentialsView {
    pub email: Seq<char>,
    pub password: Seq<char>,
    pub owner_id: int,
}

impl View for UpdateCredentials {
    type V = UpdateCredentialsView;

    open spec fn view(&self) -> UpdateCredentialsView {
        UpdateCredentialsView {
            email: self.email@,
            password: self.password@,
            owner_id: self.owner_id as int,
        }
    }
}

/// The body that answers a creation: the identifier the store assigned.
#[derive(Debug, Clone, PartialEq, Eq)]
pub struct CreateOwnerResponse {
    pub id: i32,
}

impl View for CreateOwnerResponse {
    type V = int;

    open spec fn view(&self) -> int {
        self.id as int
    }
}

/// The body that answers a read: an owner without its password.
#[derive(Debug, Clone, PartialEq, Eq)]
pub struct OwnerSummary {
    pub id: i32,
    pub name: String,
    pub email: String,
}

/// What [`OwnerSummary`] is in contracts.
pub struct OwnerSummaryView {
    pub id: int,
    pub name: Seq<char>,
    pub email: Seq<char>,
}

impl View for OwnerSummary {
    type V = OwnerSummaryView;

    open spec fn view(&self) -> OwnerSummaryView {
        OwnerSummaryView { id: self.id as int, name: self.name@, email: self.email@ }
    }
}

/// The body of a failure: a short message for the client.
#[derive(Debug, Clone, PartialEq, Eq)]
pub struct ErrorResponse {
    pub message: String,
}

impl View for ErrorResponse {
    type V = Seq<char>;

    open spec fn view(&self) -> Seq<char> {
        self.message@
    }
}

/// The summary of an owner: the owner without its password.
pub open spec fn summary_of(owner: OwnersView) -> OwnerSummaryView {
    OwnerSummaryView { id: owner.id, name: owner.name, email: owner.email }
}

/// What `GET /owner/{id}` decides: 400 where `id` is not a 32-bit integer,
/// else the read of that owner.
pub open spec fn get_owner_plan(id: Seq<char>) -> PlanView {
    match parse_i32(id) {
        Some(id) => PlanView::Query(CommandView::Select { id }),
        None => PlanView::Reply(error_response(400, INVALID_ID@)),
    }
}

/// What `POST /owner` decides: 400 where the body could not be read, else
/// the insert of the owner in the envelope.
pub open spec fn post_owner_plan(body: Option<CreateOwnerView>) -> PlanView {
    match body {
        Some(owner) => PlanView::Query(CommandView::Insert { owner }),
        None => PlanView::Reply(error_response(400, INVALID_BODY@)),
    }
}

/// What `PATCH /owner/{id}/profile` decides: 400 where `id` is not a 32-bit
/// integer or the body could not be read, else the renaming of the owner that
/// the body names.
pub open spec fn update_profile_plan(id: Seq<char>, body: Option<UpdateProfileView>) -> PlanView {
    if parse_i32(id) is None {
        PlanView::Reply(error_response(400, INVALID_ID@))
    } else {
        match body {
            Some(profile) => PlanView::Query(CommandView::UpdateProfile { profile }),
            None => PlanView::Reply(error_response(400, INVALID_BODY@)),
        }
    }
}

/// What `PATCH /owner/{id}/credentials` decides: 400 where `id` is not a
/// 32-bit integer or the body could not be read, else the new credentials for
/// the owner that the body names.
pub open spec fn update_credentials_plan(
    id: Seq<char>,
    body: Option<UpdateCredentialsView>,
) -> PlanView {
    if parse_i32(id) is None {
        PlanView::Reply(error_response(400, INVALID_ID@))
    } else {
        match body {
            Some(credentials) => PlanView::Query(CommandView::UpdateCredentials { credentials }),
            None => PlanView::Reply(error_response(400, INVALID_BODY@)),
        }
    }
}

/// What `DELETE /owner/{id}` decides: 400 where `id` is not a 32-bit
/// integer, else the removal of that owner.
pub open spec fn delete_owner_plan(id: Seq<char>) -> PlanView {
    match parse_i32(id) {
        Some(id) => PlanView::Query(CommandView::Delete { id }),
        None => PlanView::Reply(error_response(400, INVALID_ID@)),
    }
}

/// The response to a command, by what the database handed back.
///
/// A read answers 200 with the owner's summary, 404 where there is no row,
/// 500 on any other failure. An insert answers 201 with the new identifier,
/// 500 on any failure. An update or a delete answers 204 where the
/// statement ran, whether or not a row matched, and 500 where the database
/// failed. Every 500 carries the same message, whatever the cause.
pub open spec fn response_to(command: CommandView, fetched: FetchedView) -> ResponseView {
    match command {
        CommandView::Select { id } => match selected(fetched) {
            Ok(owner) => ResponseView { status: 200, body: BodyView::Owner(summary_of(owner)) },
            Err(StoreErrorView::NotFound) => error_response(
                404,
                RECORD_NOT_FOUND@ + decimal(id),
            ),
            Err(StoreErrorView::Failed(_)) => error_response(500, UNKNOWN_ERROR@),
        },
        CommandView::Insert { owner } => match inserted(fetched) {
            Ok(id) => ResponseView { status: 201, body: BodyView::Created(id) },
            Err(_) => error_response(500, UNKNOWN_ERROR@),
        },
        _ => match written(fetched) {
            Ok(_) => empty_response(204),
            Err(_) => error_response(500, UNKNOWN_ERROR@),
        },
    }
}

/// The 400 for a path whose identifier is not an integer.
fn invalid_id() -> (response: Response)
    ensures
        response@ == error_response(400, INVALID_ID@),
{
    error(BAD_REQUEST, String::from_str(INVALID_ID))
}

/// The 400 for a body that could not be read.
fn invalid_body() -> (response: Response)
    ensures
        response@ == error_response(400, INVALID_BODY@),
{
    error(BAD_REQUEST, String::from_str(INVALID_BODY))
}

/// The 500 for a failure at the database.
fn unknown_error() -> (response: Response)
    ensures
        response@ == error_response(500, UNKNOWN_ERROR@),
{
    error(INTERNAL_SERVER_ERROR, String::from_str(UNKNOWN_ERROR))
}

/// `GET /owner/{id}`: `id` is the path segment as it came.
pub fn get_owner(id: &str) -> (plan: Plan)
    ensures
        plan@ == get_owner_plan(id@),
{
    match parse_i32_text(id) {
        Some(id) => Plan::Query(Command::Select { id }),
        None => Plan::Reply(invalid_id()),
    }
}

/// `POST /owner`: `body` is the envelope, or `None` where the body of the
/// request could not be read as one.
pub fn post_owner(body: Option<ApiPayload<CreateOwner>>) -> (plan: Plan)
    ensures
        plan@ == post_owner_plan(
            match body {
                Some(envelope) => Some(envelope.payload@),
                None => None,
            },
        ),
{
    match body {
        Some(envelope) => {
            let owner = CreateOwner {
                name: envelope.payload.name,
                email: envelope.payload.email,
                password: envelope.payload.password,
            };
            Plan::Query(Command::Insert { owner })
        },
        None => Plan::Reply(invalid_body()),
    }
}

/// `PATCH /owner/{id}/profile`: `id` is the path segment as it came, `body`
/// the envelope, or `None` where it could not be read. The owner that is
/// renamed is the one that the body names.
pub fn update_profile(id: &str, body: Option<ApiPayload<UpdateProfile>>) -> (plan: Plan)
    ensures
        plan@ == update_profile_plan(
            id@,
            match body {
                Some(envelope) => Some(envelope.payload@),
                None => None,
            },
        ),
{
    if parse_i32_text(id).is_none() {
        return Plan::Reply(invalid_id());
    }
    match body {
        Some(envelope) => Plan::Query(Command::UpdateProfile { profile: envelope.payload }),
        None => Plan::Reply(invalid_body()),
    }
}

/// `PATCH /owner/{id}/credentials`: `id` is the path segment as it came,
/// `body` the envelope, or `None` where it could not be read. The owner whose
/// credentials change is the one that the body names.
pub fn update_credentials(id: &str, body: Option<ApiPayload<UpdateCredentials>>) -> (plan: Plan)
    ensures
        plan@ == update_credentials_plan(
            id@,
            match body {
                Some(envelope) => Some(envelope.payload@),
                None => None,
            },
        ),
{
    if parse_i32_text(id).is_none() {
        return Plan::Reply(invalid_id());
    }
    match body {
        Some(envelope) => Plan::Query(
            Command::UpdateCredentials { credentials: envelope.payload },
        ),
        None => Plan::Reply(invalid_body()),
    }
}

/// `DELETE /owner/{id}`: `id` is the path segment as it came.
pub fn delete_owner(id: &str) -> (plan: Plan)
    ensures
        plan@ == delete_owner_plan(id@),
{
    match parse_i32_text(id) {
        Some(id) => Plan::Query(Command::Delete { id }),
        None => Plan::Reply(invalid_id()),
    }
}

/// The response to `command`, once its statement has run and `fetched` is
/// what came back.
pub fn respond(command: &Command, fetched: Fetched) -> (response: Response)
    ensures
        response@ == response_to(command@, fetched@),
{
    match command {
        Command::Select { id } => match read_owner(fetched) {
            Ok(owner) => Response {
                status: OK,
                body: Body::Owner(
                    OwnerSummary { id: owner.id, name: owner.name, email: owner.email },
                ),
            },
            Err(StoreError::NotFound) => {
                let mut message = String::from_str(RECORD_NOT_FOUND);
                push_i32(&mut message, *id);
                error(NOT_FOUND, message)
            },
            Err(StoreError::Failed(_)) => unknown_error(),
        },
        Command::Insert { owner } => match read_created(fetched) {
            Ok(created) => Response { status: CREATED, body: Body::Created(created) },
            Err(_) => unknown_error(),
        },
        _ => match read_written(fetched) {
            Ok(_) => empty(NO_CONTENT),
            Err(_) => unknown_error(),
        },
    }
}

/// A path whose identifier is no 32-bit integer is answered 400 by every
/// handler that takes one, whatever the body holds: no command is planned,
/// so the store is not reached.
pub proof fn law_bad_identifier_is_rejected(
    id: Seq<char>,
    profile: Option<UpdateProfileView>,
    credentials: Option<UpdateCredentialsView>,
)
    requires
        parse_i32(id) is None,
    ensures
        get_owner_plan(id) == PlanView::Reply(error_response(400, INVALID_ID@)),
        delete_owner_plan(id) == PlanView::Reply(error_response(400, INVALID_ID@)),
        update_profile_plan(id, profile) == PlanView::Reply(error_response(400, INVALID_ID@)),
        update_credentials_plan(id, credentials) == PlanView::Reply(
            error_response(400, INVALID_ID@),
        ),
{
}

/// What a client is told of a failure at the database does not depend on
/// its cause: two failures of the same command get the same response.
pub proof fn law_failure_hides_its_cause(
    command: CommandView,
    first: Seq<char>,
    second: Seq<char>,
)
    ensures
        response_to(command, FetchedView::Failed(first)) == response_to(
            command,
            FetchedView::Failed(second),
        ),
{
}

/// A failure at the database is answered 500 with the one generic message,
/// whatever the command was: a read, an insert, an update or a delete.
pub proof fn law_store_failure_is_500(command: CommandView, cause: Seq<char>)
    ensures
        response_to(command, FetchedView::Failed(cause)) == error_response(500, UNKNOWN_ERROR@),
{
}

/// A response is 200, 201, 204, 404 or 500, and a failure carries one of
/// two messages: that the record was not found, with the identifier that
/// was asked for, or that the error is unknown.
pub proof fn law_responses_are_of_a_few_kinds(command: CommandView, fetched: FetchedView)
    ensures
        ({
            let response = response_to(command, fetched);
            &&& response.status == 200 ==> command is Select && response.body is Owner
            &&& response.status == 201 ==> command is Insert && response.body is Created
            &&& response.status == 204 ==> !(command is Select) && !(command is Insert)
                && response.body is Empty
            &&& response.status == 404 ==> command is Select && response.body
                == BodyView::Error(RECORD_NOT_FOUND@ + decimal(command->Select_id))
            &&& response.status == 500 ==> response.body == BodyView::Error(UNKNOWN_ERROR@)
            &&& response.status == 200 || response.status == 201 || response.status == 204
                || response.status == 404 || response.status == 500
        }),
{
}

/// The routes of the owner resource.
pub open spec fn owner_routes() -> Seq<RouteView> {
    seq![
        RouteView { method: Method::Get, path: OWNER_ID_PATH@, handler: Handler::GetOwner },
        RouteView { method: Method::Post, path: OWNER_PATH@, handler: Handler::PostOwner },
        RouteView { method: Method::Delete, path: OWNER_ID_PATH@, handler: Handler::DeleteOwner },
        RouteView {
            method: Method::Patch,
            path: OWNER_PROFILE_PATH@,
            handler: Handler::UpdateProfile,
        },
        RouteView {
            method: Method::Patch,
            path: OWNER_CREDENTIALS_PATH@,
            handler: Handler::UpdateCredentials,
        },
    ]
}

/// The routing table of the owner resource.
pub fn router() -> (table: Vec<Route>)
    ensures
        table_view(table@) == owner_routes(),
{
    let table = vec![
        Route { method: Method::Get, path: OWNER_ID_PATH, handler: Handler::GetOwner },
        Route { method: Method::Post, path: OWNER_PATH, handler: Handler::PostOwner },
        Route { method: Method::Delete, path: OWNER_ID_PATH, handler: Handler::DeleteOwner },
        Route { method: Method::Patch, path: OWNER_PROFILE_PATH, handler: Handler::UpdateProfile },
        Route {
            method: Method::Patch,
            path: OWNER_CREDENTIALS_PATH,
            handler: Handler::UpdateCredentials,
        },
    ];
    assert(table_view(table@) =~= owner_routes());
    table
}

} // verus!
