//! The dispatcher against a store that never fails.
//!
//! The store is a map from paths to contents. Serving a request runs the
//! dispatcher to its response and carries out on the map what it asks for.
//! This is a model: it says what a sequence of requests does to a store that
//! behaves, and what the responses are.

use vstd::prelude::*;
use crate::dispatch::{
    asks_for_resource, first_step, next_step, response_to, StepView, StoreEventView,
    StoreRequestView,
};
use crate::error::ResolveError;
use crate::message::MessageView;
use crate::resolve::resolve_path;

verus! {

/// A store: the contents of each resource, by path.
pub type Store = Map<Seq<char>, Seq<u8>>;

/// What a store operation does to the store, and what it gives. Reading,
/// replacing and removing a resource that is not there fails.
pub open spec fn carry_out(store: Store, request: StoreRequestView) -> (Store, StoreEventView) {
    match request {
        StoreRequestView::Exists { path } => (
            store,
            StoreEventView::Exists(store.dom().contains(path)),
        ),
        StoreRequestView::ReadAll { path } => if store.dom().contains(path) {
            (store, StoreEventView::Contents(store[path]))
        } else {
            (store, StoreEventView::Failed)
        },
        StoreRequestView::CreateEmpty { path } => (
            store.insert(path, Seq::empty()),
            StoreEventView::Done,
        ),
        StoreRequestView::WriteReplace { path, data } => if store.dom().contains(path) {
            (store.insert(path, data), StoreEventView::Done)
        } else {
            (store, StoreEventView::Failed)
        },
        StoreRequestView::Remove { path } => if store.dom().contains(path) {
            (store.remove(path), StoreEventView::Done)
        } else {
            (store, StoreEventView::Failed)
        },
    }
}

/// The store after a request was served, and the response that was sent.
pub open spec fn serve(store: Store, request: MessageView, root: Seq<char>) -> (
    Store,
    MessageView,
) {
    match first_step(request, root) {
        StepView::Reply { response, .. } => (store, response),
        StepView::Ask { request: probe, pending } => {
            let (probed, existence) = carry_out(store, probe);
            match next_step(request, pending, existence) {
                StepView::Reply { response, .. } => (probed, response),
                StepView::Ask { request: access, pending } => {
                    let (accessed, outcome) = carry_out(probed, access);
                    match next_step(request, pending, outcome) {
                        StepView::Reply { response, .. } => (accessed, response),
                        StepView::Ask { .. } => (
                            accessed,
                            response_to(5, 0, Seq::empty(), request),
                        ),
                    }
                },
            }
        },
    }
}

/// The request asks for the resource at `path` with the method of the
/// given code.
pub open spec fn requests(request: MessageView, root: Seq<char>, code: nat, path: Seq<char>)
    -> bool {
    &&& request.header.coap_class == 0
    &&& request.header.code == code
    &&& 1 <= code <= 4
    &&& resolve_path(root, request.options) == Ok::<Seq<char>, ResolveError>(path)
}

/// GET leaves the store as it is. It sends the contents of the resource,
/// or not-found.
pub proof fn lemma_serve_get(store: Store, request: MessageView, root: Seq<char>, path: Seq<char>)
    requires
        requests(request, root, 1, path),
    ensures
        serve(store, request, root) == if store.dom().contains(path) {
            (store, response_to(2, 5, store[path], request))
        } else {
            (store, response_to(4, 4, Seq::empty(), request))
        },
{
}

/// POST creates the resource with empty contents and sends created. Where
/// the resource is there already, the store stays as it is and conflict
/// is sent.
pub proof fn lemma_serve_post(store: Store, request: MessageView, root: Seq<char>, path: Seq<char>)
    requires
        requests(request, root, 2, path),
    ensures
        serve(store, request, root) == if store.dom().contains(path) {
            (store, response_to(4, 9, Seq::empty(), request))
        } else {
            (store.insert(path, Seq::empty()), response_to(2, 1, Seq::empty(), request))
        },
{
}

/// PUT replaces the contents of the resource with the payload and sends
/// created. Where the resource is not there, the store stays as it is and
/// not-found is sent.
pub proof fn lemma_serve_put(store: Store, request: MessageView, root: Seq<char>, path: Seq<char>)
    requires
        requests(request, root, 3, path),
    ensures
        serve(store, request, root) == if store.dom().contains(path) {
            (store.insert(path, request.payload), response_to(2, 1, Seq::empty(), request))
        } else {
            (store, response_to(4, 4, Seq::empty(), request))
        },
{
}

/// DELETE removes the resource and sends deleted. Where the resource is
/// not there, the store stays as it is and not-found is sent.
pub proof fn lemma_serve_delete(
    store: Store,
    request: MessageView,
    root: Seq<char>,
    path: Seq<char>,
)
    requires
        requests(request, root, 4, path),
    ensures
        serve(store, request, root) == if store.dom().contains(path) {
            (store.remove(path), response_to(2, 2, Seq::empty(), request))
        } else {
            (store, response_to(4, 4, Seq::empty(), request))
        },
{
}

/// A request that asks for no resource, or whose options name none, leaves
/// the store as it is.
pub proof fn lemma_serve_without_resource(store: Store, request: MessageView, root: Seq<char>)
    requires
        !asks_for_resource(request) || resolve_path(root, request.options) is Err,
    ensures
        serve(store, request, root).0 == store,
{
}

/// POST, then GET, then POST again. On a store without the resource the
/// first POST is answered created. The GET that follows is answered content
/// with an empty payload, and the POST after that conflict.
pub proof fn lemma_post_then_get(
    store: Store,
    root: Seq<char>,
    path: Seq<char>,
    post: MessageView,
    get: MessageView,
    post_again: MessageView,
)
    requires
        !store.dom().contains(path),
        requests(post, root, 2, path),
        requests(get, root, 1, path),
        requests(post_again, root, 2, path),
    ensures
        ({
            let (created, first) = serve(store, post, root);
            let (read, second) = serve(created, get, root);
            let (last, third) = serve(read, post_again, root);
            &&& first == response_to(2, 1, Seq::empty(), post)
            &&& second == response_to(2, 5, Seq::empty(), get)
            &&& second.payload.len() == 0
            &&& third == response_to(4, 9, Seq::empty(), post_again)
            &&& last == store.insert(path, Seq::empty())
        }),
{
    lemma_serve_post(store, post, root, path);
    let created = store.insert(path, Seq::empty());
    lemma_serve_get(created, get, root, path);
    lemma_serve_post(created, post_again, root, path);
}

/// DELETE, then GET. On a store with the resource the DELETE is answered
/// deleted, and the GET that follows not-found.
pub proof fn lemma_delete_then_get(
    store: Store,
    root: Seq<char>,
    path: Seq<char>,
    delete: MessageView,
    get: MessageView,
)
    requires
        store.dom().contains(path),
        requests(delete, root, 4, path),
        requests(get, root, 1, path),
    ensures
        ({
            let (removed, first) = serve(store, delete, root);
            let (last, second) = serve(removed, get, root);
            &&& first == response_to(2, 2, Seq::empty(), delete)
            &&& second == response_to(4, 4, Seq::empty(), get)
            &&& last == store.remove(path)
        }),
{
    lemma_serve_delete(store, delete, root, path);
    lemma_serve_get(store.remove(path), get, root, path);
}

} // verus!
