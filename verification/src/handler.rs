//! The request handlers: identifier validation, the call into the repository,
//! and the mapping of its outcome to a status code and a body.
//!
//! Each route is described by a spec function from the table before the
//! request (and the parsed identifier, where the route has one) to the table
//! after it and the response. The handlers carry the routes out on a
//! [`StoreTable`]. A service that keeps its rows elsewhere validates with
//! [`parse_store_id`], runs the statement itself, and maps what came back
//! with [`respond_list`], [`respond_created`], [`respond_store`] or
//! [`respond_deleted`].

use vstd::prelude::*;
use crate::handler::helper::{decimal, decimal_text, parse_uuid, uuid_parse_str};
use crate::model::{Store, StoreView, stores_view};
use crate::model::dto::{ErrorResponse, NoticeView, OkResponse, StorePayload, StorePayloadView};
use crate::repository::{
    DatabaseError,
    RepositoryError,
    RepositoryErrorView,
    StoreTable,
    created_view,
    delete_rows,
    deleted_view,
    fetch_row,
    fetched_view,
    holds_random_id,
    insert_rows,
    is_random_uuid,
    list_rows,
    listed_view,
    new_row,
    update_rows,
};

pub mod helper;

verus! {

/// The mathematical value of a [`Body`].
pub enum BodyView {
    Empty,
    Store(StoreView),
    Stores(Seq<StoreView>),
    Notice(NoticeView),
    Failure(NoticeView),
}

/// What a response carries as JSON, if anything.
#[derive(Debug, PartialEq, Eq)]
pub enum Body {
    /// No body.
    Empty,
    /// One store.
    Store(Store),
    /// An array of stores.
    Stores(Vec<Store>),
    /// A status and a message that report success.
    Notice(OkResponse),
    /// A status and a message that report failure.
    Failure(ErrorResponse),
}

impl View for Body {
    type V = BodyView;

    open spec fn view(&self) -> BodyView {
        match self {
            Body::Empty => BodyView::Empty,
            Body::Store(store) => BodyView::Store(store@),
            Body::Stores(stores) => BodyView::Stores(stores_view(stores@)),
            Body::Notice(notice) => BodyView::Notice(notice@),
            Body::Failure(failure) => BodyView::Failure(failure@),
        }
    }
}

/// The mathematical value of a [`Response`].
pub struct ResponseView {
    pub status: u16,
    pub body: BodyView,
}

/// An HTTP response: the status code and the body.
#[derive(Debug, PartialEq, Eq)]
pub struct Response {
    pub status: u16,
    pub body: Body,
}

impl View for Response {
    type V = ResponseView;

    open spec fn view(&self) -> ResponseView {
        ResponseView { status: self.status, body: self.body@ }
    }
}

/// The value of a validated identifier, or of the response that refuses it.
pub open spec fn checked_view(checked: Result<u128, Response>) -> Result<u128, ResponseView> {
    match checked {
        Ok(id) => Ok(id),
        Err(response) => Err(response@),
    }
}

/// A failure response: the status, repeated in a body beside the message.
pub open spec fn failure(status: u16, message: Seq<char>) -> ResponseView {
    ResponseView { status, body: BodyView::Failure(NoticeView { status, message }) }
}

/// 400: the identifier in the path is not a UUID.
pub open spec fn bad_request() -> ResponseView {
    failure(400, "Invalid UUID format"@)
}

/// 404: no store has the identifier.
pub open spec fn not_found() -> ResponseView {
    failure(404, "Store not found"@)
}

/// 500 without a body.
pub open spec fn server_error() -> ResponseView {
    ResponseView { status: 500, body: BodyView::Empty }
}

/// The identifier that a parse yields, or 400 where it yields none.
pub open spec fn checked_id(parsed: Option<u128>) -> Result<u128, ResponseView> {
    match parsed {
        Some(id) => Ok(id),
        None => Err(bad_request()),
    }
}

/// The response to a listing: 200 with the rows, or a bare 500.
pub open spec fn list_response(listed: Result<Seq<StoreView>, Seq<char>>) -> ResponseView {
    match listed {
        Ok(rows) => ResponseView { status: 200, body: BodyView::Stores(rows) },
        Err(_) => server_error(),
    }
}

/// The response to a create: 201 with the new row, or a bare 500.
pub open spec fn created_response(created: Result<StoreView, Seq<char>>) -> ResponseView {
    match created {
        Ok(row) => ResponseView { status: 201, body: BodyView::Store(row) },
        Err(_) => server_error(),
    }
}

/// The response to a lookup or an update by id: 200 with the row, or 404
/// whatever the failure was.
pub open spec fn store_response(fetched: Result<StoreView, RepositoryErrorView>) -> ResponseView {
    match fetched {
        Ok(row) => ResponseView { status: 200, body: BodyView::Store(row) },
        Err(_) => not_found(),
    }
}

/// The message that reports how many rows a delete removed.
pub open spec fn deleted_text(count: u64) -> Seq<char> {
    "Store deleted successfully "@ + decimal(count as nat) + " rows affected"@
}

/// The message that reports a failed delete, with the failure's own text.
pub open spec fn delete_failed_text(detail: Seq<char>) -> Seq<char> {
    "Error deleting store: "@ + detail
}

/// The response to a delete: 500 with the failure's text, 404 where no row
/// was removed, else 200 with the count.
pub open spec fn deleted_response(deleted: Result<u64, Seq<char>>) -> ResponseView {
    match deleted {
        Err(detail) => failure(500, delete_failed_text(detail)),
        Ok(count) => if count == 0 {
            not_found()
        } else {
            ResponseView {
                status: 200,
                body: BodyView::Notice(NoticeView { status: 200, message: deleted_text(count) }),
            }
        },
    }
}

/// `GET /stores`.
pub open spec fn list_route(rows: Seq<StoreView>) -> ResponseView {
    list_response(list_rows(rows))
}

/// `POST /stores`, with the id that was drawn for the new row.
pub open spec fn create_route(rows: Seq<StoreView>, id: u128, payload: StorePayloadView) -> (
    Seq<StoreView>,
    ResponseView,
) {
    let (next, created) = insert_rows(rows, new_row(id, payload));
    (next, created_response(created))
}

/// `GET /stores/{id}`, with what the parser made of the id.
pub open spec fn get_route(rows: Seq<StoreView>, parsed: Option<u128>) -> ResponseView {
    match checked_id(parsed) {
        Err(refusal) => refusal,
        Ok(id) => store_response(fetch_row(rows, id)),
    }
}

/// `PUT /stores/{id}`, with what the parser made of the id.
pub open spec fn update_route(
    rows: Seq<StoreView>,
    parsed: Option<u128>,
    payload: StorePayloadView,
) -> (Seq<StoreView>, ResponseView) {
    match checked_id(parsed) {
        Err(refusal) => (rows, refusal),
        Ok(id) => {
            let (next, updated) = update_rows(rows, id, payload);
            (next, store_response(updated))
        },
    }
}

/// `DELETE /stores/{id}`, with what the parser made of the id.
pub open spec fn delete_route(rows: Seq<StoreView>, parsed: Option<u128>) -> (
    Seq<StoreView>,
    ResponseView,
) {
    match checked_id(parsed) {
        Err(refusal) => (rows, refusal),
        Ok(id) => {
            let (next, deleted) = delete_rows(rows, id);
            (next, deleted_response(deleted))
        },
    }
}

fn fail(status: u16, message: String) -> (response: Response)
    ensures
        response@ == failure(status, message@),
{
    Response { status, body: Body::Failure(ErrorResponse { status, message }) }
}

fn respond_not_found() -> (response: Response)
    ensures
        response@ == not_found(),
{
    fail(404, String::from_str("Store not found"))
}

fn respond_server_error() -> (response: Response)
    ensures
        response@ == server_error(),
{
    Response { status: 500, body: Body::Empty }
}

/// Turns what the parser made of a path identifier into the identifier, or
/// into the 400 response that refuses the request.
pub fn require_store_id(parsed: Option<u128>) -> (checked: Result<u128, Response>)
    ensures
        checked_view(checked) == checked_id(parsed),
{
    match parsed {
        Some(id) => Ok(id),
        None => Err(fail(400, String::from_str("Invalid UUID format"))),
    }
}

/// Parses and validates a path identifier in one step: the UUID's value, or
/// the 400 response that refuses the request.
pub fn parse_store_id(id: &str) -> (checked: Result<u128, Response>)
    ensures
        checked_view(checked) == checked_id(uuid_parse_str(id@)),
{
    require_store_id(parse_uuid(id))
}

/// Maps the outcome of a listing to its response.
pub fn respond_list(listed: Result<Vec<Store>, DatabaseError>) -> (response: Response)
    ensures
        response@ == list_response(listed_view(listed)),
{
    match listed {
        Ok(stores) => Response { status: 200, body: Body::Stores(stores) },
        Err(_) => respond_server_error(),
    }
}

/// Maps the outcome of a create to its response.
pub fn respond_created(created: Result<Store, DatabaseError>) -> (response: Response)
    ensures
        response@ == created_response(created_view(created)),
{
    match created {
        Ok(store) => Response { status: 201, body: Body::Store(store) },
        Err(_) => respond_server_error(),
    }
}

/// Maps the outcome of a lookup or an update by id to its response. Every
/// failure becomes 404.
pub fn respond_store(fetched: Result<Store, RepositoryError>) -> (response: Response)
    ensures
        response@ == store_response(fetched_view(fetched)),
{
    match fetched {
        Ok(store) => Response { status: 200, body: Body::Store(store) },
        Err(_) => respond_not_found(),
    }
}

/// Maps the outcome of a delete to its response. A failure becomes 500 and
/// its text is passed on; a count of zero becomes 404.
pub fn respond_deleted(deleted: Result<u64, DatabaseError>) -> (response: Response)
    ensures
        response@ == deleted_response(deleted_view(deleted)),
{
    match deleted {
        Err(e) => {
            let message = String::from_str("Error deleting store: ").concat(e.message.as_str());
            fail(500, message)
        },
        Ok(count) => {
            if count == 0 {
                respond_not_found()
            } else {
                let message = String::from_str("Store deleted successfully ").concat(
                    decimal_text(count).as_str(),
                ).concat(" rows affected");
                Response {
                    status: 200,
                    body: Body::Notice(OkResponse { status: 200, message }),
                }
            }
        },
    }
}

/// `GET /stores`: every row, with 200.
pub fn get_all_stores(table: &StoreTable) -> (response: Response)
    ensures
        response@ == list_route(table@),
{
    respond_list(table.list_all())
}

/// `POST /stores` under a given id: the row is inserted and returned with
/// 201; where the id is taken, the table stays as it is and the answer is a
/// bare 500.
pub fn create_store_with_id(table: &mut StoreTable, id: u128, payload: StorePayload) -> (response:
    Response)
    ensures
        (final(table)@, response@) == create_route(old(table)@, id, payload@),
{
    respond_created(
        table.insert(
            Store { id, name: payload.name, address: payload.address, phone: payload.phone },
        ),
    )
}

/// `POST /stores`: a row with the payload's columns is inserted under a
/// fresh random id and returned with 201. Should the id be taken, which can
/// only happen where the table holds a random id already, the table stays
/// as it is and the answer is a bare 500.
pub fn create_store(table: &mut StoreTable, payload: StorePayload) -> (response: Response)
    ensures
        match response@.body {
            BodyView::Store(row) => is_random_uuid(row.id) && (final(table)@, response@)
                == create_route(old(table)@, row.id, payload@),
            _ => final(table)@ == old(table)@ && response@ == server_error() && holds_random_id(
                old(table)@,
            ),
        },
{
    respond_created(table.create(payload))
}

/// `GET /stores/{id}` once the id has been parsed.
pub fn get_store(table: &StoreTable, parsed: Option<u128>) -> (response: Response)
    ensures
        response@ == get_route(table@, parsed),
{
    match require_store_id(parsed) {
        Err(refusal) => refusal,
        Ok(id) => respond_store(table.get_by_id(id)),
    }
}

/// `GET /stores/{id}`: 400 where the id is not a UUID, 404 where no row has
/// it, else 200 with the row.
pub fn get_store_by_id(table: &StoreTable, id: &str) -> (response: Response)
    ensures
        response@ == get_route(table@, uuid_parse_str(id@)),
{
    get_store(table, parse_uuid(id))
}

/// `PUT /stores/{id}` once the id has been parsed.
pub fn update_store(table: &mut StoreTable, parsed: Option<u128>, payload: StorePayload) -> (response:
    Response)
    ensures
        (final(table)@, response@) == update_route(old(table)@, parsed, payload@),
{
    match require_store_id(parsed) {
        Err(refusal) => refusal,
        Ok(id) => respond_store(table.update_by_id(id, payload)),
    }
}

/// `PUT /stores/{id}`: 400 where the id is not a UUID, 404 where no row has
/// it; else the columns that the payload supplies are overwritten, the
/// others kept, and the row is returned with 200.
pub fn update_store_by_id(table: &mut StoreTable, id: &str, payload: StorePayload) -> (response:
    Response)
    ensures
        (final(table)@, response@) == update_route(old(table)@, uuid_parse_str(id@), payload@),
{
    update_store(table, parse_uuid(id), payload)
}

/// `DELETE /stores/{id}` once the id has been parsed.
pub fn delete_store(table: &mut StoreTable, parsed: Option<u128>) -> (response: Response)
    ensures
        (final(table)@, response@) == delete_route(old(table)@, parsed),
{
    match require_store_id(parsed) {
        Err(refusal) => refusal,
        Ok(id) => respond_deleted(table.delete_by_id(id)),
    }
}

/// `DELETE /stores/{id}`: 400 where the id is not a UUID, 404 where no row
/// has it; else the row is removed and the answer is 200 with the count.
pub fn delete_store_by_id(table: &mut StoreTable, id: &str) -> (response: Response)
    ensures
        (final(table)@, response@) == delete_route(old(table)@, uuid_parse_str(id@)),
{
    delete_store(table, parse_uuid(id))
}

} // verus!
