//! What holds of every request and of every step of the dispatcher.

use vstd::prelude::*;
use crate::dispatch::{
    asks_for_resource, first_step, next_step, response_to, PendingView, StepView, StoreEventView,
    StoreRequestView,
};
use crate::message::{options_wf, MessageView};
use crate::resolve::{names_this_host, resolve_path};
use crate::resolve_laws::{lemma_unsupported_option_fails, lemma_wrong_host_fails};

verus! {

/// The step sends a response with the given class and code.
pub open spec fn answers(step: StepView, class: nat, code: nat) -> bool {
    step matches StepView::Reply { response, .. } && response.header.coap_class == class
        && response.header.code == code
}

/// The response is an acknowledgement of the request: it repeats the
/// version, the message id and the token.
pub open spec fn acknowledges(response: MessageView, request: MessageView) -> bool {
    &&& response.header.coap_type == 2
    &&& response.header.version == request.header.version
    &&& response.header.id == request.header.id
    &&& response.header.token_length == request.header.token_length
    &&& response.header.token == request.header.token
}

/// Every response that the dispatcher builds acknowledges the request, and
/// is well formed where the request is.
pub proof fn lemma_response_acknowledges(
    class: nat,
    code: nat,
    payload: Seq<u8>,
    request: MessageView,
)
    ensures
        acknowledges(response_to(class, code, payload, request), request),
        request.wf() && class < 8 && code < 32 ==> response_to(
            class,
            code,
            payload,
            request,
        ).wf(),
{
    let response = response_to(class, code, payload, request);
    reveal_with_fuel(options_wf, 2);
    if payload.len() > 0 {
        assert(response.options.drop_first() =~= Seq::empty());
    }
}

/// Whatever the first step sends acknowledges the request and, where the
/// request is well formed, can be encoded.
pub proof fn lemma_first_reply(request: MessageView, root: Seq<char>)
    ensures
        first_step(request, root) matches StepView::Reply { response, .. } ==> {
            &&& acknowledges(response, request)
            &&& request.wf() ==> response.wf()
        },
{
    lemma_response_acknowledges(4, 0, Seq::empty(), request);
    lemma_response_acknowledges(4, 5, Seq::empty(), request);
}

/// Whatever a later step sends acknowledges the request and, where the
/// request is well formed, can be encoded.
pub proof fn lemma_next_reply(request: MessageView, pending: PendingView, event: StoreEventView)
    ensures
        next_step(request, pending, event) matches StepView::Reply { response, .. } ==> {
            &&& acknowledges(response, request)
            &&& request.wf() ==> response.wf()
        },
{
    lemma_response_acknowledges(2, 1, Seq::empty(), request);
    lemma_response_acknowledges(2, 2, Seq::empty(), request);
    lemma_response_acknowledges(4, 4, Seq::empty(), request);
    lemma_response_acknowledges(4, 9, Seq::empty(), request);
    lemma_response_acknowledges(5, 0, Seq::empty(), request);
    match event {
        StoreEventView::Contents(data) => {
            lemma_response_acknowledges(2, 5, data, request);
        },
        _ => {},
    }
}

/// A request is answered after at most two store operations. The first
/// step sends the response or probes for the resource that the options
/// name. The step after the probe sends the response or asks for the access
/// to that resource. The step after the access sends the response.
pub proof fn lemma_two_operations(
    request: MessageView,
    root: Seq<char>,
    pending: PendingView,
    event: StoreEventView,
)
    ensures
        first_step(request, root) matches StepView::Ask { request: asked, pending: then } ==> {
            &&& resolve_path(root, request.options) matches Ok(path)
            &&& asked == (StoreRequestView::Exists { path })
            &&& then == (PendingView::Probing { path })
        },
        pending is Probing ==> (next_step(request, pending, event) matches StepView::Ask {
            pending: then,
            ..
        } ==> then is Accessing),
        pending is Accessing ==> next_step(request, pending, event) is Reply,
{
}

/// A request for a resource whose options name none is answered
/// bad-request, whatever the method.
pub proof fn lemma_unresolved_is_bad_request(request: MessageView, root: Seq<char>)
    requires
        asks_for_resource(request),
        resolve_path(root, request.options) is Err,
    ensures
        answers(first_step(request, root), 4, 0),
{
}

/// Unsupported option. A request with an option that is neither Uri-Host
/// nor Uri-Path is answered bad-request: no store operation is asked for.
/// This holds of every request but the empty one (class method, code
/// empty), which is answered method-not-allowed before its options are
/// looked at.
pub proof fn lemma_unsupported_option_is_bad_request(
    request: MessageView,
    root: Seq<char>,
    i: int,
)
    requires
        0 <= i < request.options.len(),
        request.options[i].number != 3,
        request.options[i].number != 11,
        !(request.header.coap_class == 0 && request.header.code == 0),
    ensures
        answers(first_step(request, root), 4, 0),
{
    lemma_unsupported_option_fails(root, request.options, i);
}

/// Wrong host. A request with a Uri-Host option that does not name this
/// host is answered bad-request: no store operation is asked for. This
/// holds of every request but the empty one (class method, code empty).
pub proof fn lemma_wrong_host_is_bad_request(request: MessageView, root: Seq<char>, i: int)
    requires
        0 <= i < request.options.len(),
        request.options[i].number == 3,
        !names_this_host(request.options[i].value),
        !(request.header.coap_class == 0 && request.header.code == 0),
    ensures
        answers(first_step(request, root), 4, 0),
{
    lemma_wrong_host_fails(root, request.options, i);
}

} // verus!
