//! The service itself: what each request does to the store, and what is sent
//! back.
//!
//! [`handle`] is the whole of it. [`dispatch`] is the part that routes, and the
//! two handlers it calls are public too, for a server that does its own
//! routing.

use crate::cors::{cors_headers, grant};
use crate::geometry::{Layout, LayoutView};
use crate::http::{
    route, route_of, Body, BodyView, DecodeError, Method, Request, RequestView, Response,
    ResponseView, Route, Status,
};
use crate::store::{latest_of, LayoutStore};
use vstd::prelude::*;

verus! {

/// The text that confirms a save.
pub const SAVED_MESSAGE: &'static str = "Layout saved successfully";

/// Why a request was turned away.
#[derive(Clone, Copy, Debug, PartialEq, Eq, Structural)]
pub enum ServiceError {
    /// The body of a save is not a layout.
    Decode(DecodeError),
    /// A load found the store empty.
    NotFound,
    /// No route matches the method and path.
    RouteNotFound,
}

impl ServiceError {
    /// The status under which this error is reported.
    pub open spec fn status_of(self) -> Status {
        match self {
            ServiceError::Decode(_) => Status::BadRequest,
            ServiceError::NotFound => Status::NotFound,
            ServiceError::RouteNotFound => Status::NotFound,
        }
    }

    /// The status under which this error is reported.
    pub fn status(self) -> (status: Status)
        ensures
            status == self.status_of(),
    {
        match self {
            ServiceError::Decode(_) => Status::BadRequest,
            ServiceError::NotFound => Status::NotFound,
            ServiceError::RouteNotFound => Status::NotFound,
        }
    }
}

/// A save that goes through: it is routed to the save handler and its body
/// decoded as a layout.
pub open spec fn is_accepted_save(request: RequestView) -> bool {
    route_of(request.method, request.path) == Route::SaveLayout && request.body is Ok
}

/// The history once `request` has been handled: one layout longer after a save
/// that went through, and as it was after anything else.
pub open spec fn history_after(history: Seq<LayoutView>, request: RequestView) -> Seq<LayoutView> {
    if is_accepted_save(request) {
        history.push(request.body->Ok_0)
    } else {
        history
    }
}

/// What routing `request` comes to, given the history so far: the body of the
/// reply, or the reason there is none.
pub open spec fn outcome_of(history: Seq<LayoutView>, request: RequestView) -> Result<
    BodyView,
    ServiceError,
> {
    match route_of(request.method, request.path) {
        Route::SaveLayout => match request.body {
            Ok(_) => Ok(BodyView::Message(SAVED_MESSAGE@)),
            Err(error) => Err(ServiceError::Decode(error)),
        },
        Route::LoadLayout => match latest_of(history) {
            Some(layout) => Ok(BodyView::Layout(layout)),
            None => Err(ServiceError::NotFound),
        },
        Route::Unmatched => Err(ServiceError::RouteNotFound),
    }
}

/// The response to `request`, given the history so far. An `OPTIONS` request
/// is answered by the cross-origin policy alone; any other is routed, and an
/// error is reported by its status with an empty body. Every response carries
/// what the policy grants the request.
pub open spec fn response_to(history: Seq<LayoutView>, request: RequestView) -> ResponseView {
    let cors = grant(request.origin);
    if request.method == Method::Options {
        ResponseView { status: Status::Success, body: BodyView::Empty, cors }
    } else {
        match outcome_of(history, request) {
            Ok(body) => ResponseView { status: Status::Success, body, cors },
            Err(error) => ResponseView { status: error.status_of(), body: BodyView::Empty, cors },
        }
    }
}

/// Saves `layout` as the newest entry of `store` and confirms it.
pub fn save_layout_handler(layout: Layout, store: &mut LayoutStore) -> (reply: Result<
    Body,
    ServiceError,
>)
    ensures
        final(store)@ == old(store)@.push(layout@),
        reply matches Ok(body) && body@ == BodyView::Message(SAVED_MESSAGE@),
{
    store.append(layout);
    Ok(Body::Message(SAVED_MESSAGE.to_owned()))
}

/// Hands out a copy of the newest entry of `store`, or reports that there is
/// none.
pub fn load_layout_handler(store: &LayoutStore) -> (reply: Result<Body, ServiceError>)
    ensures
        match latest_of(store@) {
            Some(layout) => reply matches Ok(body) && body@ == BodyView::Layout(layout),
            None => reply == Err::<Body, ServiceError>(ServiceError::NotFound),
        },
{
    match store.latest() {
        Some(layout) => Ok(Body::Layout(layout)),
        None => Err(ServiceError::NotFound),
    }
}

/// Routes `request` and runs the handler it is routed to.
///
/// `POST /save_layout` appends the decoded layout and confirms it; where the
/// body did not decode, the store is not touched and the cause is handed on.
/// `GET /load_layout` gives the newest layout, or `NotFound` while there is
/// none. Anything else is `RouteNotFound`.
pub fn dispatch(store: &mut LayoutStore, request: Request) -> (outcome: Result<Body, ServiceError>)
    ensures
        final(store)@ == history_after(old(store)@, request@),
        match outcome {
            Ok(body) => outcome_of(old(store)@, request@) == Ok::<BodyView, ServiceError>(body@),
            Err(error) => outcome_of(old(store)@, request@) == Err::<BodyView, ServiceError>(error),
        },
{
    let Request { method, path, origin: _, body } = request;
    match route(method, path.as_str()) {
        Route::SaveLayout => match body {
            Ok(layout) => save_layout_handler(layout, store),
            Err(error) => Err(ServiceError::Decode(error)),
        },
        Route::LoadLayout => load_layout_handler(store),
        Route::Unmatched => Err(ServiceError::RouteNotFound),
    }
}

/// Handles one request against `store`.
///
/// An `OPTIONS` request is a preflight: it is answered 200 with an empty body
/// and touches nothing. Any other request is dispatched; success is 200 with
/// the handler's body, a body that did not decode is 400, and an empty store
/// or an unmatched route is 404, each with an empty body. Every response
/// carries the cross-origin headers that the policy grants the request.
pub fn handle(store: &mut LayoutStore, request: Request) -> (response: Response)
    ensures
        final(store)@ == history_after(old(store)@, request@),
        response@ == response_to(old(store)@, request@),
{
    let cors = cors_headers(
        match &request.origin {
            Some(origin) => Some(origin.as_str()),
            None => None,
        },
    );
    if request.method == Method::Options {
        return Response { status: Status::Success, body: Body::Empty, cors };
    }
    match dispatch(store, request) {
        Ok(body) => Response { status: Status::Success, body, cors },
        Err(error) => Response { status: error.status(), body: Body::Empty, cors },
    }
}

} // verus!
