//! What holds of the service as a whole.
//!
//! Each law is stated over [`response_to`] and [`history_after`], the two
//! functions that [`handle`](crate::service::handle) is proved to compute, so
//! each is a statement about what a server built on `handle` does.

use crate::cors::CONTENT_TYPE;
use crate::geometry::LayoutView;
use crate::http::{
    BodyView, DecodeError, Method, RequestView, Status, LOAD_LAYOUT_PATH, SAVE_LAYOUT_PATH,
};
use crate::service::{history_after, is_accepted_save, response_to, SAVED_MESSAGE};
use crate::store::latest_of;
use vstd::prelude::*;

verus! {

/// A request that saves `layout`: a `POST` to the save path whose body decoded
/// as `layout`.
pub open spec fn saves(request: RequestView, layout: LayoutView) -> bool {
    &&& request.method == Method::Post
    &&& request.path == SAVE_LAYOUT_PATH@
    &&& request.body == Ok::<LayoutView, DecodeError>(layout)
}

/// A request that loads: a `GET` to the load path.
pub open spec fn loads(request: RequestView) -> bool {
    &&& request.method == Method::Get
    &&& request.path == LOAD_LAYOUT_PATH@
}

/// The history once every request of `requests` has been handled, first to
/// last.
pub open spec fn history_after_all(
    history: Seq<LayoutView>,
    requests: Seq<RequestView>,
) -> Seq<LayoutView>
    decreases requests.len(),
{
    if requests.len() == 0 {
        history
    } else {
        history_after(history_after_all(history, requests.drop_last()), requests.last())
    }
}

/// The layouts of the saves among `requests` that went through, in the order
/// of the requests.
pub open spec fn layouts_saved_by(requests: Seq<RequestView>) -> Seq<LayoutView>
    decreases requests.len(),
{
    if requests.len() == 0 {
        Seq::empty()
    } else if is_accepted_save(requests.last()) {
        layouts_saved_by(requests.drop_last()).push(requests.last().body->Ok_0)
    } else {
        layouts_saved_by(requests.drop_last())
    }
}

/// Saving a layout and then loading gives that layout back: the save is
/// confirmed, the load succeeds, and its body is the layout that was saved,
/// whatever the store held before.
pub proof fn law_round_trip(
    history: Seq<LayoutView>,
    layout: LayoutView,
    save: RequestView,
    load: RequestView,
)
    requires
        saves(save, layout),
        loads(load),
    ensures
        response_to(history, save).status == Status::Success,
        response_to(history, save).body == BodyView::Message(SAVED_MESSAGE@),
        response_to(history_after(history, save), load).status == Status::Success,
        response_to(history_after(history, save), load).body == BodyView::Layout(layout),
{
}

/// After two saves in a row a load gives the second layout, not the first.
pub proof fn law_latest_wins(
    history: Seq<LayoutView>,
    first: LayoutView,
    second: LayoutView,
    save_first: RequestView,
    save_second: RequestView,
    load: RequestView,
)
    requires
        saves(save_first, first),
        saves(save_second, second),
        loads(load),
    ensures
        response_to(
            history_after(history_after(history, save_first), save_second),
            load,
        ).body == BodyView::Layout(second),
        first != second ==> response_to(
            history_after(history_after(history, save_first), save_second),
            load,
        ).body != BodyView::Layout(first),
{
}

/// A load before any save is answered with 404 and an empty body.
pub proof fn law_empty_store_is_not_found(load: RequestView)
    requires
        loads(load),
    ensures
        response_to(Seq::empty(), load).status == Status::NotFound,
        response_to(Seq::empty(), load).status.code_of() == 404,
        response_to(Seq::empty(), load).body == BodyView::Empty,
{
}

/// A save whose body did not decode is answered with 400 and changes nothing:
/// the history is as it was, and so is the answer to whatever request comes
/// next.
pub proof fn law_malformed_save_changes_nothing(
    history: Seq<LayoutView>,
    save: RequestView,
    next: RequestView,
)
    requires
        save.method == Method::Post,
        save.path == SAVE_LAYOUT_PATH@,
        save.body is Err,
    ensures
        response_to(history, save).status == Status::BadRequest,
        response_to(history, save).status.code_of() == 400,
        history_after(history, save) == history,
        response_to(history_after(history, save), next) == response_to(history, next),
{
}

/// A load changes nothing in the store.
pub proof fn law_load_changes_nothing(history: Seq<LayoutView>, load: RequestView)
    requires
        loads(load),
    ensures
        history_after(history, load) == history,
{
}

/// Of all that the store holds, only the newest layout is ever shown: two
/// histories with the same last entry answer every request alike.
pub proof fn law_only_the_latest_is_shown(
    history: Seq<LayoutView>,
    other: Seq<LayoutView>,
    request: RequestView,
)
    requires
        latest_of(history) == latest_of(other),
    ensures
        response_to(history, request) == response_to(other, request),
{
}

/// The history is at all times what it was at the start, followed by the
/// layouts of the saves that went through since, in the order in which they
/// were handled. Nothing is lost, reordered or changed.
pub proof fn law_history_is_the_saves(history: Seq<LayoutView>, requests: Seq<RequestView>)
    ensures
        history_after_all(history, requests) == history + layouts_saved_by(requests),
    decreases requests.len(),
{
    if requests.len() == 0 {
        assert(history + Seq::<LayoutView>::empty() =~= history);
    } else {
        law_history_is_the_saves(history, requests.drop_last());
        let before = layouts_saved_by(requests.drop_last());
        if is_accepted_save(requests.last()) {
            let layout = requests.last().body->Ok_0;
            assert((history + before).push(layout) =~= history + before.push(layout));
        }
    }
}

/// However a batch of saves is put in line, none is lost: once all of them
/// have been handled the history has grown by exactly their layouts, in the
/// order in which they were handled, and a load gives the layout of the save
/// that was handled last.
pub proof fn law_serialized_saves(
    history: Seq<LayoutView>,
    batch: Seq<RequestView>,
    load: RequestView,
)
    requires
        forall|i: int| 0 <= i < batch.len() ==> is_accepted_save(#[trigger] batch[i]),
        loads(load),
    ensures
        history_after_all(history, batch) == history + batch.map_values(
            |save: RequestView| save.body->Ok_0,
        ),
        history_after_all(history, batch).len() == history.len() + batch.len(),
        batch.len() > 0 ==> response_to(history_after_all(history, batch), load).body
            == BodyView::Layout(batch.last().body->Ok_0),
    decreases batch.len(),
{
    let layouts = batch.map_values(|save: RequestView| save.body->Ok_0);
    if batch.len() == 0 {
        assert(history + layouts =~= history);
    } else {
        let earlier = batch.drop_last();
        law_serialized_saves(history, earlier, load);
        assert(history + layouts =~= (history + earlier.map_values(
            |save: RequestView| save.body->Ok_0,
        )).push(batch.last().body->Ok_0));
    }
}

/// An `OPTIONS` request from any origin, to any path, is answered 200 with
/// headers that permit that origin, the methods `GET` and `POST`, and the
/// `Content-Type` request header. It changes nothing in the store.
pub proof fn law_preflight_permits(
    history: Seq<LayoutView>,
    request: RequestView,
    origin: Seq<char>,
)
    requires
        request.method == Method::Options,
        request.origin == Some(origin),
    ensures
        response_to(history, request).status == Status::Success,
        response_to(history, request).body == BodyView::Empty,
        response_to(history, request).cors.permits_origin(origin),
        response_to(history, request).cors.permits_method(Method::Get),
        response_to(history, request).cors.permits_method(Method::Post),
        response_to(history, request).cors.permits_header(CONTENT_TYPE@),
        history_after(history, request) == history,
{
    law_allowances_on_every_response(history, request);
}

/// Every response, whatever the request and whether it succeeded or not,
/// carries headers that permit the methods `GET` and `POST` and the
/// `Content-Type` request header. They permit the origin that the request
/// named, and every origin where it named none.
pub proof fn law_allowances_on_every_response(history: Seq<LayoutView>, request: RequestView)
    ensures
        response_to(history, request).cors.permits_method(Method::Get),
        response_to(history, request).cors.permits_method(Method::Post),
        response_to(history, request).cors.permits_header(CONTENT_TYPE@),
        request.origin matches Some(origin) ==> response_to(
            history,
            request,
        ).cors.permits_origin(origin),
        request.origin is None ==> forall|origin: Seq<char>|
            response_to(history, request).cors.permits_origin(origin),
{
    let headers = response_to(history, request).cors;
    assert(headers.allow_methods[0] == Method::Get);
    assert(headers.allow_methods[1] == Method::Post);
    assert(headers.allow_headers[0] == CONTENT_TYPE@);
}

} // verus!
