//! The service: the route table, one handler per route, and what becomes
//! of each failure.
//!
//! A request is handled in two halves, with the store between them:
//! `routes` turns the request into a `Step`, which is a response or an
//! operation for the store, and `respond` turns what the store did into the
//! response. `serve` runs both halves against a table held in memory.

use vstd::prelude::*;
use vstd::string::StringExecFns;
use crate::json::parsed;
use crate::http::{
    bad_request, internal_server_error, not_found, same_text, success, Request, RequestView,
    Response, ResponseView,
};
use crate::models::{views, Todo, TodoView};
use crate::store::{
    effect, valid, CommandView, OutcomeView, StoreCommand, StoreError, StoreOutcome, TableView,
    TodoTable,
};
use crate::wire::{
    decode_id, decode_new_todo, decode_todo, decoded_id, decoded_new_todo, decoded_todo,
    encode_todos, field, todos_json, DecodeError,
};

verus! {

/// The handlers that a request can be dispatched to.
#[derive(Debug, Clone, Copy, PartialEq, Eq, Structural)]
pub enum Route {
    /// `GET /todos`
    List,
    /// `PUT /todo`
    Create,
    /// `POST /todo`
    Update,
    /// `DELETE /todo`
    Delete,
}

/// The route table. Method and path are matched as they stand: no query
/// string is cut off, and a trailing slash makes another path.
pub open spec fn route_of(method: Seq<char>, path: Seq<char>) -> Option<Route> {
    if method == "GET"@ && path == "/todos"@ {
        Some(Route::List)
    } else if method == "PUT"@ && path == "/todo"@ {
        Some(Route::Create)
    } else if method == "POST"@ && path == "/todo"@ {
        Some(Route::Update)
    } else if method == "DELETE"@ && path == "/todo"@ {
        Some(Route::Delete)
    } else {
        None
    }
}

/// Looks a method and a path up in the route table.
pub fn route(method: &str, path: &str) -> (found: Option<Route>)
    ensures
        found == route_of(method@, path@),
{
    if same_text(method, "GET") && same_text(path, "/todos") {
        Some(Route::List)
    } else if same_text(method, "PUT") && same_text(path, "/todo") {
        Some(Route::Create)
    } else if same_text(method, "POST") && same_text(path, "/todo") {
        Some(Route::Update)
    } else if same_text(method, "DELETE") && same_text(path, "/todo") {
        Some(Route::Delete)
    } else {
        None
    }
}

/// What can go wrong with a request.
#[derive(Debug, Clone, Copy, PartialEq, Eq, Structural)]
pub enum Failure {
    /// The body could not be decoded: the client's error.
    Decode(DecodeError),
    /// The store did not carry out the operation: the server's error.
    Store(StoreError),
    /// No route matches the method and the path.
    RouteNotFound,
}

/// The response that reports a failure: 400 for a body that could not be
/// decoded, 500 for a failure of the store, 404 where no route matches.
pub open spec fn failure_response(failure: Failure) -> ResponseView {
    match failure {
        Failure::Decode(_) => bad_request(),
        Failure::Store(_) => internal_server_error(),
        Failure::RouteNotFound => not_found(),
    }
}

/// Builds the response that reports a failure.
pub fn fail(failure: Failure) -> (response: Response)
    ensures
        response@ == failure_response(failure),
{
    match failure {
        Failure::Decode(_) => Response::bad_request(),
        Failure::Store(_) => Response::internal_server_error(),
        Failure::RouteNotFound => Response::not_found(),
    }
}

/// What a handler does with a request before the store is asked.
#[derive(Debug, PartialEq, Eq)]
pub enum Step {
    /// The request is answered without the store.
    Reply(Response),
    /// The store is to carry out this operation.
    Query(StoreCommand),
}

/// What a `Step` holds, as mathematical values.
pub enum StepView {
    Reply(ResponseView),
    Query(CommandView),
}

impl View for Step {
    type V = StepView;

    open spec fn view(&self) -> StepView {
        match self {
            Step::Reply(response) => StepView::Reply(response@),
            Step::Query(command) => StepView::Query(command@),
        }
    }
}

/// The step of the create handler for the body `body`.
pub open spec fn put_todo_step(body: Seq<u8>) -> StepView {
    match decoded_new_todo(body) {
        Ok(title) => StepView::Query(CommandView::Insert(title)),
        Err(e) => StepView::Reply(failure_response(Failure::Decode(e))),
    }
}

/// The step of the update handler for the body `body`.
pub open spec fn update_todo_step(body: Seq<u8>) -> StepView {
    match decoded_todo(body) {
        Ok(todo) => StepView::Query(CommandView::UpdateById(todo)),
        Err(e) => StepView::Reply(failure_response(Failure::Decode(e))),
    }
}

/// The step of the delete handler for the body `body`.
pub open spec fn delete_todo_step(body: Seq<u8>) -> StepView {
    match decoded_id(body) {
        Ok(id) => StepView::Query(CommandView::DeleteById(id)),
        Err(e) => StepView::Reply(failure_response(Failure::Decode(e))),
    }
}

/// The step for a request: the handler's step where a route matches, the
/// not-found response otherwise.
pub open spec fn planned(request: RequestView) -> StepView {
    match route_of(request.method, request.path) {
        Some(Route::List) => StepView::Query(CommandView::ListAll),
        Some(Route::Create) => put_todo_step(request.body),
        Some(Route::Update) => update_todo_step(request.body),
        Some(Route::Delete) => delete_todo_step(request.body),
        None => StepView::Reply(failure_response(Failure::RouteNotFound)),
    }
}

/// The create handler: decodes the body into a creation payload and asks
/// the store to insert it; a body that does not decode is answered with
/// status 400.
pub fn put_todo(body: &[u8]) -> (next: Step)
    ensures
        next@ == put_todo_step(body@),
{
    match decode_new_todo(body) {
        Ok(new_todo) => Step::Query(StoreCommand::Insert(new_todo)),
        Err(e) => Step::Reply(fail(Failure::Decode(e))),
    }
}

/// The update handler: decodes the body into a full todo and asks the
/// store to overwrite the row with its id; a body that does not decode is
/// answered with status 400.
pub fn update_todo(body: &[u8]) -> (next: Step)
    ensures
        next@ == update_todo_step(body@),
{
    match decode_todo(body) {
        Ok(todo) => Step::Query(StoreCommand::UpdateById(todo)),
        Err(e) => Step::Reply(fail(Failure::Decode(e))),
    }
}

/// The delete handler: decodes the id from the body and asks the store to
/// remove the row with it; a body that does not decode is answered with
/// status 400.
pub fn delete_todo(body: &[u8]) -> (next: Step)
    ensures
        next@ == delete_todo_step(body@),
{
    match decode_id(body) {
        Ok(id) => Step::Query(StoreCommand::DeleteById(id)),
        Err(e) => Step::Reply(fail(Failure::Decode(e))),
    }
}

/// The first half of a request: dispatches on method and path.
pub fn routes(request: &Request) -> (next: Step)
    ensures
        next@ == planned(request@),
{
    match route(request.method.as_str(), request.path.as_str()) {
        Some(Route::List) => Step::Query(StoreCommand::ListAll),
        Some(Route::Create) => put_todo(request.body.as_slice()),
        Some(Route::Update) => update_todo(request.body.as_slice()),
        Some(Route::Delete) => delete_todo(request.body.as_slice()),
        None => Step::Reply(fail(Failure::RouteNotFound)),
    }
}

/// The response to a listing, given what the encoder made of the rows:
/// the JSON text with status 200, or status 500 where it failed.
pub open spec fn listing_response(encoded: Option<Seq<char>>) -> ResponseView {
    match encoded {
        Some(text) => success(text),
        None => internal_server_error(),
    }
}

/// Builds the response to a listing from what the encoder made of the
/// rows.
pub fn listing(encoded: Option<String>) -> (response: Response)
    ensures
        response@ == listing_response(
            match encoded {
                Some(text) => Some(text@),
                None => None,
            },
        ),
{
    match encoded {
        Some(text) => Response::success(text),
        None => Response::internal_server_error(),
    }
}

/// The list handler's response to the rows that the store returned: the
/// rows as a JSON array with status 200, for no rows `[]`; status 500
/// where the encoder fails on a title.
pub fn get_todos(rows: &Vec<Todo>) -> (response: Response)
    ensures
        response@ == listing_response(todos_json(views(rows@))),
{
    listing(encode_todos(rows))
}

/// The response to what the store reported: a confirmation with status
/// 200 for an insert, an update or a delete, whether it found a row or
/// not; the rows as JSON for a listing; status 500 for a failure of the
/// store.
pub open spec fn answer(result: Result<OutcomeView, StoreError>) -> ResponseView {
    match result {
        Err(e) => failure_response(Failure::Store(e)),
        Ok(OutcomeView::Inserted(_)) => success("todo inserted successfully."@),
        Ok(OutcomeView::Listed(rows)) => listing_response(todos_json(rows)),
        Ok(OutcomeView::Updated { found }) => success("todo updated successfully."@),
        Ok(OutcomeView::Deleted { found }) => success("todo deleted successfully."@),
    }
}

/// What the store reported, as mathematical values.
pub open spec fn result_view(result: Result<StoreOutcome, StoreError>) -> Result<
    OutcomeView,
    StoreError,
> {
    match result {
        Ok(outcome) => Ok(outcome@),
        Err(e) => Err(e),
    }
}

/// The second half of a request: the response to what the store did.
pub fn respond(result: Result<StoreOutcome, StoreError>) -> (response: Response)
    ensures
        response@ == answer(result_view(result)),
{
    match result {
        Err(e) => fail(Failure::Store(e)),
        Ok(StoreOutcome::Inserted(_)) => Response::success(
            String::from_str("todo inserted successfully."),
        ),
        Ok(StoreOutcome::Listed(rows)) => get_todos(&rows),
        Ok(StoreOutcome::Updated { found: _ }) => Response::success(
            String::from_str("todo updated successfully."),
        ),
        Ok(StoreOutcome::Deleted { found: _ }) => Response::success(
            String::from_str("todo deleted successfully."),
        ),
    }
}

/// What becomes of a table and a request: the table afterwards and the
/// response. A request that is answered without the store leaves the
/// table as it was; otherwise the table takes the effect of the operation,
/// and the response answers what the operation reported.
pub open spec fn served(table: TableView, request: RequestView) -> (TableView, ResponseView) {
    match planned(request) {
        StepView::Reply(reply) => (table, reply),
        StepView::Query(command) => (effect(table, command).0, answer(effect(table, command).1)),
    }
}

/// Handles one request against a table held in memory.
pub fn serve(table: &mut TodoTable, request: &Request) -> (response: Response)
    requires
        valid(old(table)@),
    ensures
        valid(final(table)@),
        (final(table)@, response@) == served(old(table)@, request@),
{
    match routes(request) {
        Step::Reply(response) => response,
        Step::Query(command) => respond(table.execute(command)),
    }
}

/// A listing leaves the table as it was, so two listings with no write
/// between them are answered alike.
pub proof fn listing_twice_answers_alike(table: TableView, request: RequestView)
    requires
        route_of(request.method, request.path) == Some(Route::List),
    ensures
        served(table, request).0 == table,
        served(served(table, request).0, request).1 == served(table, request).1,
{
}

/// Whether `key` names a member that the route's body must have.
pub open spec fn needs_field(route: Route, key: Seq<char>) -> bool {
    match route {
        Route::List => false,
        Route::Create => key == "title"@,
        Route::Update => key == "id"@ || key == "title"@ || key == "done"@,
        Route::Delete => key == "id"@,
    }
}

/// Whether `body` is no JSON document, or a document that lacks a member
/// that the route's body must have.
pub open spec fn malformed_for(route: Route, body: Seq<u8>) -> bool {
    match parsed(body) {
        None => true,
        Some(doc) => exists|key: Seq<char>| #[trigger]
            needs_field(route, key) && field(doc, key) is None,
    }
}

/// A request to create, update or delete whose body is no JSON document,
/// or lacks a required member, is answered with status 400 and does not
/// reach the store.
pub proof fn malformed_body_is_bad_request(request: RequestView, route: Route)
    requires
        route_of(request.method, request.path) == Some(route),
        route != Route::List,
        malformed_for(route, request.body),
    ensures
        planned(request) == StepView::Reply(bad_request()),
        bad_request().status == 400,
{
}

/// A request whose method and path are not in the route table is answered
/// with status 404 and the fixed body, and does not reach the store.
pub proof fn unknown_route_is_not_found(request: RequestView)
    requires
        route_of(request.method, request.path) is None,
    ensures
        planned(request) == StepView::Reply(not_found()),
        not_found().status == 404,
        not_found().body == "Not Found"@,
{
}

} // verus!
