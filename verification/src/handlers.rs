use vstd::prelude::*;
use crate::error::StoreError;
use crate::memory::{MemoryStore, answer};
use crate::query::{Params, read_params};
use crate::record::RecordView;
use crate::response::{
    HEALTH_PAGE, NOT_FOUND_PAGE, ROOT_PAGE, Response, ResponseView, html, not_found_response, page,
    report,
};
use crate::route::{Route, resolve};
use crate::service::{PlanView, planned, request_for, respond, response_to, route_plan};

verus! {

/// What carrying out a plan does to a table, and what is sent back.
pub open spec fn served(rows: Seq<RecordView>, plan: PlanView) -> (Seq<RecordView>, ResponseView) {
    match plan {
        PlanView::Answer(response) => (rows, response),
        PlanView::Ask(request) => (
            answer(rows, request).0,
            response_to(request, answer(rows, request).1),
        ),
    }
}

/// The handler of `GET /`: the page that lists the routes.
pub fn root() -> (response: Response)
    ensures
        response@ == page(200, ROOT_PAGE@),
{
    html(200, ROOT_PAGE)
}

/// The handler of `GET /health_check`: the page that says the service is alive.
pub fn health_check() -> (response: Response)
    ensures
        response@ == page(200, HEALTH_PAGE@),
{
    html(200, HEALTH_PAGE)
}

/// The handler of every method and path that the routing table does not hold:
/// the status 404 and the not-found page.
pub fn not_found_404() -> (response: Response)
    ensures
        response@ == not_found_response(),
{
    html(404, NOT_FOUND_PAGE)
}

/// Asks the table what the route asks with these parameters, and answers;
/// where a parameter that the route needs is absent, reports that.
fn handle(store: &mut MemoryStore, route: Route, params: Params) -> (response: Response)
    requires
        old(store).well_formed(),
        route.uses_store(),
    ensures
        (final(store)@, response@) == served(old(store)@, route_plan(route, Some(params@))),
        final(store).well_formed(),
{
    match request_for(route, params) {
        Some(request) => {
            let reply = store.execute(&request);
            respond(&request, reply)
        },
        None => report(StoreError::MalformedInput),
    }
}

/// The handler of `GET /database_read`: all records as a JSON array.
pub fn read_data(store: &mut MemoryStore) -> (response: Response)
    requires
        old(store).well_formed(),
    ensures
        (final(store)@, response@) == served(old(store)@, route_plan(Route::Read, None)),
        final(store)@ == old(store)@,
        final(store).well_formed(),
{
    handle(store, Route::Read, Params { id: None, date: None, message: None })
}

/// The handler of `POST /database_create`: stores the record that `id`, `date`
/// and `message` give.
pub fn create_data(store: &mut MemoryStore, params: Params) -> (response: Response)
    requires
        old(store).well_formed(),
    ensures
        (final(store)@, response@) == served(
            old(store)@,
            route_plan(Route::Create, Some(params@)),
        ),
        final(store).well_formed(),
{
    handle(store, Route::Create, params)
}

/// The handler of `PUT /database_update`: gives the record `id` the message
/// `message`.
pub fn update_data(store: &mut MemoryStore, params: Params) -> (response: Response)
    requires
        old(store).well_formed(),
    ensures
        (final(store)@, response@) == served(
            old(store)@,
            route_plan(Route::Update, Some(params@)),
        ),
        final(store).well_formed(),
{
    handle(store, Route::Update, params)
}

/// The handler of `POST /database_delete`: removes the record `id`.
pub fn delete_data(store: &mut MemoryStore, params: Params) -> (response: Response)
    requires
        old(store).well_formed(),
    ensures
        (final(store)@, response@) == served(
            old(store)@,
            route_plan(Route::Delete, Some(params@)),
        ),
        final(store).well_formed(),
{
    handle(store, Route::Delete, params)
}

/// The handler of `GET /database_search`: the record `id` as a JSON object.
pub fn search_data(store: &mut MemoryStore, params: Params) -> (response: Response)
    requires
        old(store).well_formed(),
    ensures
        (final(store)@, response@) == served(
            old(store)@,
            route_plan(Route::Search, Some(params@)),
        ),
        final(store)@ == old(store)@,
        final(store).well_formed(),
{
    handle(store, Route::Search, params)
}

/// Serves one request against a table held in memory: finds the handler by
/// the method and the path, reads the query string where the handler takes
/// parameters, and runs the handler.
pub fn serve(store: &mut MemoryStore, method: &str, path: &str, query: &str) -> (response: Response)
    requires
        old(store).well_formed(),
    ensures
        (final(store)@, response@) == served(old(store)@, planned(method@, path@, query@)),
        final(store).well_formed(),
{
    let route = resolve(method, path);
    match route {
        Route::Root => root(),
        Route::HealthCheck => health_check(),
        Route::NotFound => not_found_404(),
        Route::Read => read_data(store),
        _ => match read_params(query) {
            Ok(params) => match route {
                Route::Create => create_data(store, params),
                Route::Update => update_data(store, params),
                Route::Delete => delete_data(store, params),
                _ => search_data(store, params),
            },
            Err(error) => report(error),
        },
    }
}

} // verus!
