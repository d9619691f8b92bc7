use vstd::prelude::*;
use crate::error::StoreError;
use crate::gateway::{Payload, PayloadView, outcome_view};
use crate::json::{record_json, records_json, render_record, render_records};

verus! {

/// The page of `GET /`.
pub const ROOT_PAGE: &'static str =
    "<h1>Welcome to the Axum Core API</h1><h2>Available routes:</h2><p>/ - this route, the root</p><p>/health_check - current API status</p>";

/// The page of `GET /health_check`.
pub const HEALTH_PAGE: &'static str =
    "<h1>Welcome to the Axum Core API</h1><h2>Status:</h2><p>Alive, 200 OK</p>";

/// The page that confirms a create.
pub const CREATED_PAGE: &'static str = "<h1>Data added...check /database_read for results</h1>";

/// The page that confirms an update.
pub const UPDATED_PAGE: &'static str = "<h1>Data updated...check /database_check for results</h1>";

/// The page that confirms a delete.
pub const DELETED_PAGE: &'static str = "<h1>Deleted record...check /database_check to confirm.";

/// The page for a method and path that the routing table does not hold.
pub const NOT_FOUND_PAGE: &'static str = "<h1>Nothing here by that name...yet.</h1>";

/// The page for `DuplicateKey`.
pub const DUPLICATE_PAGE: &'static str = "<h1>A record with that id already exists.</h1>";

/// The page for `NotFound`.
pub const MISSING_PAGE: &'static str = "<h1>No record has that id.</h1>";

/// The page for `AmbiguousResult`.
pub const AMBIGUOUS_PAGE: &'static str = "<h1>More than one record has that id.</h1>";

/// The page for `StoreUnavailable`.
pub const UNAVAILABLE_PAGE: &'static str = "<h1>The database cannot be reached right now.</h1>";

/// The page for `MalformedInput`.
pub const MALFORMED_PAGE: &'static str =
    "<h1>A query parameter is missing or cannot be read.</h1>";

/// What a response's body holds.
#[derive(Clone, Copy, Debug, PartialEq, Eq, Structural)]
pub enum BodyKind {
    Html,
    Json,
}

/// An HTTP response: a status and a body.
#[derive(Debug, PartialEq, Eq)]
pub struct Response {
    pub status: u16,
    pub kind: BodyKind,
    pub body: String,
}

/// A response as contracts speak of it.
pub struct ResponseView {
    pub status: u16,
    pub kind: BodyKind,
    pub body: Seq<char>,
}

impl View for Response {
    type V = ResponseView;

    open spec fn view(&self) -> ResponseView {
        ResponseView { status: self.status, kind: self.kind, body: self.body@ }
    }
}

/// An HTML page with the given status.
pub open spec fn page(status: u16, body: Seq<char>) -> ResponseView {
    ResponseView { status: status, kind: BodyKind::Html, body: body }
}

/// The response for a method and path that the routing table does not hold.
pub open spec fn not_found_response() -> ResponseView {
    page(404, NOT_FOUND_PAGE@)
}

/// The page that tells of an error.
pub open spec fn error_page(error: StoreError) -> Seq<char> {
    match error {
        StoreError::DuplicateKey => DUPLICATE_PAGE@,
        StoreError::NotFound => MISSING_PAGE@,
        StoreError::AmbiguousResult => AMBIGUOUS_PAGE@,
        StoreError::StoreUnavailable => UNAVAILABLE_PAGE@,
        StoreError::MalformedInput => MALFORMED_PAGE@,
    }
}

/// The response that reports an error: its status, and its page.
pub open spec fn error_response(error: StoreError) -> ResponseView {
    page(error.status(), error_page(error))
}

/// The response that carries a JSON text: the status 200 and the text.
pub open spec fn json_response(text: Seq<char>) -> ResponseView {
    ResponseView { status: 200, kind: BodyKind::Json, body: text }
}

/// The response that carries a payload.
pub open spec fn payload_response(payload: PayloadView) -> ResponseView {
    match payload {
        PayloadView::Created => page(200, CREATED_PAGE@),
        PayloadView::Updated => page(200, UPDATED_PAGE@),
        PayloadView::Deleted => page(200, DELETED_PAGE@),
        PayloadView::One(record) => json_response(record_json(record)),
        PayloadView::All(records) => json_response(records_json(records)),
    }
}

/// The response to the outcome of a request to the store.
pub open spec fn outcome_response(outcome: Result<PayloadView, StoreError>) -> ResponseView {
    match outcome {
        Ok(payload) => payload_response(payload),
        Err(error) => error_response(error),
    }
}

/// An HTML page with the given status.
pub fn html(status: u16, body: &str) -> (response: Response)
    ensures
        response@ == page(status, body@),
{
    Response { status: status, kind: BodyKind::Html, body: String::from_str(body) }
}

/// The response that reports an error.
pub fn report(error: StoreError) -> (response: Response)
    ensures
        response@ == error_response(error),
{
    let body = match error {
        StoreError::DuplicateKey => DUPLICATE_PAGE,
        StoreError::NotFound => MISSING_PAGE,
        StoreError::AmbiguousResult => AMBIGUOUS_PAGE,
        StoreError::StoreUnavailable => UNAVAILABLE_PAGE,
        StoreError::MalformedInput => MALFORMED_PAGE,
    };
    html(error.status_code(), body)
}

/// The response that carries a JSON text.
fn json(text: String) -> (response: Response)
    ensures
        response@ == json_response(text@),
{
    Response { status: 200, kind: BodyKind::Json, body: text }
}

/// The response to the outcome of a request to the store: the payload as a
/// page or as JSON, or the report of the error.
pub fn answer_outcome(outcome: Result<Payload, StoreError>) -> (response: Response)
    ensures
        response@ == outcome_response(outcome_view(outcome)),
{
    match outcome {
        Ok(Payload::Created) => html(200, CREATED_PAGE),
        Ok(Payload::Updated) => html(200, UPDATED_PAGE),
        Ok(Payload::Deleted) => html(200, DELETED_PAGE),
        Ok(Payload::One(record)) => json(render_record(&record)),
        Ok(Payload::All(records)) => json(render_records(&records)),
        Err(error) => report(error),
    }
}

} // verus!
