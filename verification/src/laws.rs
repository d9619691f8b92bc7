use vstd::prelude::*;
use crate::error::StoreError;
use crate::gateway::{PayloadView, RequestView, outcome_of};
use crate::handlers::served;
use crate::json::record_json;
use crate::memory::{
    answer, distinct_ids, has_id, lemma_answer_keeps_ids_distinct, lemma_position_is_unique,
    lemma_removed_id_is_gone, position,
};
use crate::record::RecordView;
use crate::response::{
    CREATED_PAGE, DELETED_PAGE, ResponseView, UPDATED_PAGE, error_response, json_response,
    not_found_response, page,
};
use crate::route::{Route, route_for};
use crate::service::{PlanView, planned};

verus! {

/// The rows of a table after a request.
pub open spec fn rows_after(rows: Seq<RecordView>, request: RequestView) -> Seq<RecordView> {
    answer(rows, request).0
}

/// What a request to a table comes to: its payload, or its error.
pub open spec fn outcome_on(rows: Seq<RecordView>, request: RequestView) -> Result<
    PayloadView,
    StoreError,
> {
    outcome_of(request, answer(rows, request).1)
}

/// The response that is sent where a request is put to a table.
pub open spec fn response_on(rows: Seq<RecordView>, request: RequestView) -> ResponseView {
    served(rows, PlanView::Ask(request)).1
}

/// What a search by id finds in a table.
pub open spec fn search(rows: Seq<RecordView>, id: int) -> Result<PayloadView, StoreError> {
    outcome_on(rows, RequestView::SelectById(id))
}

/// Whether the routing table holds the method and path.
pub open spec fn is_mapped(method: Seq<char>, path: Seq<char>) -> bool {
    ||| method == "GET"@ && path == "/"@
    ||| method == "GET"@ && path == "/health_check"@
    ||| method == "GET"@ && path == "/database_read"@
    ||| method == "POST"@ && path == "/database_create"@
    ||| method == "PUT"@ && path == "/database_update"@
    ||| method == "POST"@ && path == "/database_delete"@
    ||| method == "GET"@ && path == "/database_search"@
}

/// A search finds a record exactly where the table holds its id, and then it
/// finds the row with that id and sends it as JSON with the status 200;
/// otherwise it comes to `NotFound` and the status 404.
pub proof fn lemma_search(rows: Seq<RecordView>, id: int)
    ensures
        has_id(rows, id) ==> search(rows, id) == Ok::<PayloadView, StoreError>(
            PayloadView::One(rows[position(rows, id)]),
        ) && response_on(rows, RequestView::SelectById(id)) == json_response(
            record_json(rows[position(rows, id)]),
        ) && response_on(rows, RequestView::SelectById(id)).status == 200,
        !has_id(rows, id) ==> search(rows, id) == Err::<PayloadView, StoreError>(
            StoreError::NotFound,
        ) && response_on(rows, RequestView::SelectById(id)) == error_response(
            StoreError::NotFound,
        ) && response_on(rows, RequestView::SelectById(id)).status == 404,
        rows_after(rows, RequestView::SelectById(id)) == rows,
{
}

/// Creating a record under an id that the table does not hold succeeds with
/// the status 200, and a search by that id then returns the record as it was
/// given, as JSON with the status 200.
pub proof fn lemma_create_then_search(rows: Seq<RecordView>, record: RecordView)
    requires
        distinct_ids(rows),
        !has_id(rows, record.id),
    ensures
        outcome_on(rows, RequestView::Insert(record)) == Ok::<PayloadView, StoreError>(
            PayloadView::Created,
        ),
        response_on(rows, RequestView::Insert(record)) == page(200, CREATED_PAGE@),
        search(rows_after(rows, RequestView::Insert(record)), record.id) == Ok::<
            PayloadView,
            StoreError,
        >(PayloadView::One(record)),
        response_on(
            rows_after(rows, RequestView::Insert(record)),
            RequestView::SelectById(record.id),
        ) == json_response(record_json(record)),
{
    let after = rows.push(record);
    assert(after[rows.len() as int] == record);
    lemma_answer_keeps_ids_distinct(rows, RequestView::Insert(record));
    lemma_position_is_unique(after, rows.len() as int);
}

/// For an id that the table does not hold, a search, an update and a delete
/// each come to `NotFound` and the status 404, and the table stays as it was.
pub proof fn lemma_absent_id_is_not_found(rows: Seq<RecordView>, id: int, message: Seq<char>)
    requires
        !has_id(rows, id),
    ensures
        search(rows, id) == Err::<PayloadView, StoreError>(StoreError::NotFound),
        outcome_on(rows, RequestView::UpdateMessage { id, message }) == Err::<
            PayloadView,
            StoreError,
        >(StoreError::NotFound),
        outcome_on(rows, RequestView::DeleteById(id)) == Err::<PayloadView, StoreError>(
            StoreError::NotFound,
        ),
        response_on(rows, RequestView::SelectById(id)) == error_response(StoreError::NotFound),
        response_on(rows, RequestView::UpdateMessage { id, message }) == error_response(
            StoreError::NotFound,
        ),
        response_on(rows, RequestView::DeleteById(id)) == error_response(StoreError::NotFound),
        error_response(StoreError::NotFound).status == 404,
        rows_after(rows, RequestView::SelectById(id)) == rows,
        rows_after(rows, RequestView::UpdateMessage { id, message }) == rows,
        rows_after(rows, RequestView::DeleteById(id)) == rows,
{
}

/// Creating a record under an id that the table holds comes to `DuplicateKey`
/// and the status 409, and leaves the table, and so the record that a search
/// finds, as it was.
pub proof fn lemma_repeated_create_is_duplicate(rows: Seq<RecordView>, record: RecordView)
    requires
        has_id(rows, record.id),
    ensures
        outcome_on(rows, RequestView::Insert(record)) == Err::<PayloadView, StoreError>(
            StoreError::DuplicateKey,
        ),
        response_on(rows, RequestView::Insert(record)) == error_response(
            StoreError::DuplicateKey,
        ),
        error_response(StoreError::DuplicateKey).status == 409,
        rows_after(rows, RequestView::Insert(record)) == rows,
        search(rows_after(rows, RequestView::Insert(record)), record.id) == search(
            rows,
            record.id,
        ),
{
}

/// An update of a record that the table holds succeeds with the status 200
/// and rewrites its message and nothing else: a search by the id then returns
/// the record with its old id and date and the new message, the table has as
/// many rows as before, and a search by any other id returns what it returned
/// before.
pub proof fn lemma_update_changes_message_only(
    rows: Seq<RecordView>,
    id: int,
    message: Seq<char>,
    other: int,
)
    requires
        distinct_ids(rows),
        has_id(rows, id),
        other != id,
    ensures
        outcome_on(rows, RequestView::UpdateMessage { id, message }) == Ok::<
            PayloadView,
            StoreError,
        >(PayloadView::Updated),
        response_on(rows, RequestView::UpdateMessage { id, message }) == page(
            200,
            UPDATED_PAGE@,
        ),
        search(rows_after(rows, RequestView::UpdateMessage { id, message }), id) == Ok::<
            PayloadView,
            StoreError,
        >(
            PayloadView::One(
                RecordView { id: id, date: rows[position(rows, id)].date, message: message },
            ),
        ),
        rows_after(rows, RequestView::UpdateMessage { id, message }).len() == rows.len(),
        search(rows_after(rows, RequestView::UpdateMessage { id, message }), other) == search(
            rows,
            other,
        ),
{
    let at: int = position(rows, id);
    let after = rows.update(at, rows[at].with_message(message));
    assert(after[at].id == id);
    lemma_answer_keeps_ids_distinct(rows, RequestView::UpdateMessage { id, message });
    lemma_position_is_unique(after, at);
    if has_id(rows, other) {
        let there: int = position(rows, other);
        assert(after[there] == rows[there]);
        lemma_position_is_unique(after, there);
    } else if has_id(after, other) {
        let there: int = position(after, other);
        assert(rows[there].id == other);
    }
}

/// A delete of a record that the table holds succeeds with the status 200; a
/// search by the id then comes to `NotFound`, the rows that reading all
/// records returns hold no row with that id, and a search by any other id
/// returns what it returned before.
pub proof fn lemma_delete_removes(rows: Seq<RecordView>, id: int, other: int)
    requires
        distinct_ids(rows),
        has_id(rows, id),
        other != id,
    ensures
        outcome_on(rows, RequestView::DeleteById(id)) == Ok::<PayloadView, StoreError>(
            PayloadView::Deleted,
        ),
        response_on(rows, RequestView::DeleteById(id)) == page(200, DELETED_PAGE@),
        search(rows_after(rows, RequestView::DeleteById(id)), id) == Err::<
            PayloadView,
            StoreError,
        >(StoreError::NotFound),
        response_on(
            rows_after(rows, RequestView::DeleteById(id)),
            RequestView::SelectById(id),
        ).status == 404,
        outcome_on(rows_after(rows, RequestView::DeleteById(id)), RequestView::SelectAll) == Ok::<
            PayloadView,
            StoreError,
        >(PayloadView::All(rows.remove(position(rows, id)))),
        !has_id(rows.remove(position(rows, id)), id),
        search(rows_after(rows, RequestView::DeleteById(id)), other) == search(rows, other),
{
    let at: int = position(rows, id);
    let after = rows.remove(at);
    lemma_removed_id_is_gone(rows, at);
    lemma_answer_keeps_ids_distinct(rows, RequestView::DeleteById(id));
    if has_id(rows, other) {
        let there: int = position(rows, other);
        let moved: int = if there < at { there } else { there - 1 };
        assert(after[moved] == rows[there]);
        lemma_position_is_unique(after, moved);
    } else if has_id(after, other) {
        let there: int = position(after, other);
        let back: int = if there < at { there } else { there + 1 };
        assert(after[there] == rows[back]);
        assert(rows[back].id == other);
    }
}

/// A method and path that the routing table does not hold has no route, and
/// the request is answered with the status 404 and the not-found page,
/// whatever the path and the query string hold; the table is not touched.
pub proof fn lemma_unmapped_is_not_found(
    rows: Seq<RecordView>,
    method: Seq<char>,
    path: Seq<char>,
    query: Seq<char>,
)
    requires
        !is_mapped(method, path),
    ensures
        route_for(method, path) == Route::NotFound,
        planned(method, path, query) == PlanView::Answer(not_found_response()),
        served(rows, planned(method, path, query)) == (rows, not_found_response()),
        not_found_response().status == 404,
{
}

/// A method and path that the routing table holds has a route.
pub proof fn lemma_mapped_has_route(method: Seq<char>, path: Seq<char>)
    requires
        is_mapped(method, path),
    ensures
        route_for(method, path) != Route::NotFound,
{
}

} // verus!
