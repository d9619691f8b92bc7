use vstd::prelude::*;
use crate::error::StoreError;
use crate::gateway::{ReplyView, RequestView, StoreReply, StoreRequest, interpret, outcome_of};
use crate::handlers::{health_check, not_found_404, root};
use crate::query::{Params, ParamsView, query_params, read_params};
use crate::record::{Record, RecordView};
use crate::response::{
    HEALTH_PAGE, ROOT_PAGE, Response, ResponseView, answer_outcome, error_response,
    not_found_response, outcome_response, page, report,
};
use crate::route::{Route, resolve, route_for};

verus! {

/// The response to a request to the store, given the store's answer.
pub open spec fn response_to(request: RequestView, reply: ReplyView) -> ResponseView {
    outcome_response(outcome_of(request, reply))
}

/// What a route asks of the store, given the query parameters; none where a
/// parameter that the route needs is absent. A create needs `id`, `date` and
/// `message`; an update `id` and `message`; a delete and a search `id`;
/// reading all records needs none. The other routes ask nothing of the store,
/// and have no request.
pub open spec fn request_of(route: Route, params: ParamsView) -> Option<RequestView> {
    match route {
        Route::Read => Some(RequestView::SelectAll),
        Route::Create => if params.id is Some && params.date is Some && params.message is Some {
            Some(
                RequestView::Insert(
                    RecordView {
                        id: params.id->Some_0,
                        date: params.date->Some_0,
                        message: params.message->Some_0,
                    },
                ),
            )
        } else {
            None
        },
        Route::Update => if params.id is Some && params.message is Some {
            Some(
                RequestView::UpdateMessage { id: params.id->Some_0, message: params.message->Some_0 },
            )
        } else {
            None
        },
        Route::Delete => if params.id is Some {
            Some(RequestView::DeleteById(params.id->Some_0))
        } else {
            None
        },
        Route::Search => if params.id is Some {
            Some(RequestView::SelectById(params.id->Some_0))
        } else {
            None
        },
        _ => None,
    }
}

/// What is to be done about a request.
#[derive(Debug, PartialEq, Eq)]
pub enum Plan {
    /// Send this response; the store is not asked.
    Answer(Response),
    /// Ask the store, and send the response to its answer.
    Ask(StoreRequest),
}

/// A plan as contracts speak of it.
pub enum PlanView {
    Answer(ResponseView),
    Ask(RequestView),
}

impl View for Plan {
    type V = PlanView;

    open spec fn view(&self) -> PlanView {
        match self {
            Plan::Answer(response) => PlanView::Answer(response@),
            Plan::Ask(request) => PlanView::Ask(request@),
        }
    }
}

/// The plan for a route, given the parameters that the query string gave, if
/// it gave any.
pub open spec fn route_plan(route: Route, params: Option<ParamsView>) -> PlanView {
    match route {
        Route::Root => PlanView::Answer(page(200, ROOT_PAGE@)),
        Route::HealthCheck => PlanView::Answer(page(200, HEALTH_PAGE@)),
        Route::NotFound => PlanView::Answer(not_found_response()),
        Route::Read => PlanView::Ask(RequestView::SelectAll),
        _ => match params {
            Some(given) => match request_of(route, given) {
                Some(request) => PlanView::Ask(request),
                None => PlanView::Answer(error_response(StoreError::MalformedInput)),
            },
            None => PlanView::Answer(error_response(StoreError::MalformedInput)),
        },
    }
}

/// The plan for a request, by its method, its path and its query string.
pub open spec fn planned(method: Seq<char>, path: Seq<char>, query: Seq<char>) -> PlanView {
    route_plan(route_for(method, path), query_params(query))
}

/// The view of a request that may be absent.
pub open spec fn request_view(request: Option<StoreRequest>) -> Option<RequestView> {
    match request {
        Some(asked) => Some(asked@),
        None => None,
    }
}

/// What the route asks of the store with the given parameters, if it asks
/// anything and has the parameters that it needs.
pub fn request_for(route: Route, params: Params) -> (request: Option<StoreRequest>)
    ensures
        request_view(request) == request_of(route, params@),
{
    match route {
        Route::Read => Some(StoreRequest::SelectAll),
        Route::Create => match (params.id, params.date, params.message) {
            (Some(id), Some(date), Some(message)) => Some(
                StoreRequest::Insert(Record { id: id, date: date, message: message }),
            ),
            _ => None,
        },
        Route::Update => match (params.id, params.message) {
            (Some(id), Some(message)) => Some(
                StoreRequest::UpdateMessage { id: id, message: message },
            ),
            _ => None,
        },
        Route::Delete => match params.id {
            Some(id) => Some(StoreRequest::DeleteById(id)),
            None => None,
        },
        Route::Search => match params.id {
            Some(id) => Some(StoreRequest::SelectById(id)),
            None => None,
        },
        _ => None,
    }
}

/// Decides what to do about a request: answer at once (the two static pages,
/// an unknown method and path, parameters that are missing or cannot be read),
/// or ask the store.
pub fn plan(method: &str, path: &str, query: &str) -> (plan: Plan)
    ensures
        plan@ == planned(method@, path@, query@),
{
    let route = resolve(method, path);
    match route {
        Route::Root => Plan::Answer(root()),
        Route::HealthCheck => Plan::Answer(health_check()),
        Route::NotFound => Plan::Answer(not_found_404()),
        Route::Read => Plan::Ask(StoreRequest::SelectAll),
        _ => match read_params(query) {
            Ok(params) => match request_for(route, params) {
                Some(request) => Plan::Ask(request),
                None => Plan::Answer(report(StoreError::MalformedInput)),
            },
            Err(error) => Plan::Answer(report(error)),
        },
    }
}

/// The response to a request to the store, given the store's answer.
pub fn respond(request: &StoreRequest, reply: StoreReply) -> (response: Response)
    ensures
        response@ == response_to(request@, reply@),
{
    answer_outcome(interpret(request, reply))
}

} // verus!
