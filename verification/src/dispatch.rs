//! The request dispatcher: from a decoded request to store operations and
//! one response.
//!
//! The dispatcher never touches the store. [`execute_request`] looks at the
//! request and either answers at once or names the store operation it needs;
//! [`continue_request`] takes what that operation gave and does the same
//! again. A request is answered after at most two operations: the probe for
//! the resource and the access to it.
//!
//! | class | code | what is done |
//! |---|---|---|
//! | method | empty | answered method-not-allowed |
//! | method | GET | read the resource: content, or not-found |
//! | method | POST | create the resource empty: created, or conflict |
//! | method | PUT | replace the contents: created, or not-found |
//! | method | DELETE | remove the resource: deleted, or not-found |
//! | method | other | answered bad-request |
//! | any other | any | answered bad-request |
//!
//! A request whose options name no resource is answered bad-request. A store
//! operation that fails, or an event that does not answer the operation asked
//! for, is answered internal-server-error.

use vstd::prelude::*;
use vstd::slice::slice_to_vec;
use crate::message::{
    options_view, CoapMessage, CoapMessageHeader, CoapOption, HeaderView, MessageView, OptionView,
};
use crate::message::{
    CLASS_CLIENT_ERROR, CLASS_METHOD, CLASS_SERVER_ERROR, CLASS_SIGNALING_CODES, CLASS_SUCCESS,
    CODE_BAD_REQUEST, CODE_CONFLICT, CODE_CONTENT, CODE_CREATED, CODE_DELETE, CODE_DELETED,
    CODE_EMPTY, CODE_GET, CODE_INTERNAL_SERVER_ERROR, CODE_METHOD_NOT_ALLOWED, CODE_NOT_FOUND,
    CODE_POST, CODE_PUT, CONTENT_FORMAT_TEXT, OPTION_CONTENT_FORMAT, TYPE_ACKNOWLEDGEMENT,
};
use crate::resolve::{parse_options_to_path, resolve_path};

verus! {

/// An operation on the resource store that the dispatcher asks for.
#[derive(Clone, Debug, PartialEq, Eq)]
pub enum StoreRequest {
    /// Is there a resource at `path`?
    Exists { path: String },
    /// Read the whole resource at `path`.
    ReadAll { path: String },
    /// Create an empty resource at `path`.
    CreateEmpty { path: String },
    /// Replace the contents of the resource at `path` with `data`.
    WriteReplace { path: String, data: Vec<u8> },
    /// Remove the resource at `path`.
    Remove { path: String },
}

/// What a store operation gave.
#[derive(Clone, Debug, PartialEq, Eq)]
pub enum StoreEvent {
    /// The answer to `Exists`.
    Exists(bool),
    /// The contents that `ReadAll` read.
    Contents(Vec<u8>),
    /// `CreateEmpty`, `WriteReplace` or `Remove` was carried out.
    Done,
    /// The operation failed.
    Failed,
}

/// Where the handling of a request stands while a store operation is under
/// way.
#[derive(Clone, Debug, PartialEq, Eq)]
pub enum Pending {
    /// The probe for the resource at `path` is under way.
    Probing { path: String },
    /// The access to the resource is under way.
    Accessing,
}

/// What is to be done next for a request.
#[derive(Clone, Debug, PartialEq, Eq)]
pub enum Step {
    /// Send `response`; the request is then done. `undefined_class` says
    /// that the class of the request is none that the protocol defines.
    Reply { response: CoapMessage, undefined_class: bool },
    /// Carry out `request` on the store and come back with what it gave.
    Ask { request: StoreRequest, pending: Pending },
}

pub enum StoreRequestView {
    Exists { path: Seq<char> },
    ReadAll { path: Seq<char> },
    CreateEmpty { path: Seq<char> },
    WriteReplace { path: Seq<char>, data: Seq<u8> },
    Remove { path: Seq<char> },
}

pub enum StoreEventView {
    Exists(bool),
    Contents(Seq<u8>),
    Done,
    Failed,
}

pub enum PendingView {
    Probing { path: Seq<char> },
    Accessing,
}

pub enum StepView {
    Reply { response: MessageView, undefined_class: bool },
    Ask { request: StoreRequestView, pending: PendingView },
}

impl View for StoreRequest {
    type V = StoreRequestView;

    open spec fn view(&self) -> StoreRequestView {
        match *self {
            StoreRequest::Exists { path } => StoreRequestView::Exists { path: path@ },
            StoreRequest::ReadAll { path } => StoreRequestView::ReadAll { path: path@ },
            StoreRequest::CreateEmpty { path } => StoreRequestView::CreateEmpty { path: path@ },
            StoreRequest::WriteReplace { path, data } => StoreRequestView::WriteReplace {
                path: path@,
                data: data@,
            },
            StoreRequest::Remove { path } => StoreRequestView::Remove { path: path@ },
        }
    }
}

impl View for StoreEvent {
    type V = StoreEventView;

    open spec fn view(&self) -> StoreEventView {
        match *self {
            StoreEvent::Exists(exists) => StoreEventView::Exists(exists),
            StoreEvent::Contents(data) => StoreEventView::Contents(data@),
            StoreEvent::Done => StoreEventView::Done,
            StoreEvent::Failed => StoreEventView::Failed,
        }
    }
}

impl View for Pending {
    type V = PendingView;

    open spec fn view(&self) -> PendingView {
        match *self {
            Pending::Probing { path } => PendingView::Probing { path: path@ },
            Pending::Accessing => PendingView::Accessing,
        }
    }
}

impl View for Step {
    type V = StepView;

    open spec fn view(&self) -> StepView {
        match *self {
            Step::Reply { response, undefined_class } => StepView::Reply {
                response: response@,
                undefined_class,
            },
            Step::Ask { request, pending } => StepView::Ask {
                request: request@,
                pending: pending@,
            },
        }
    }
}

/// The response to `request` with the given class, code and payload. It
/// is an acknowledgement that repeats the version, the message id and the
/// token of the request. With a payload it has one option, which says that
/// the payload is plain text; without, it has none.
pub open spec fn response_to(class: nat, code: nat, payload: Seq<u8>, request: MessageView)
    -> MessageView {
    MessageView {
        header: HeaderView {
            version: request.header.version,
            coap_type: 2,
            token_length: request.header.token_length,
            coap_class: class,
            code: code,
            id: request.header.id,
            token: request.header.token,
        },
        options: if payload.len() > 0 {
            seq![OptionView { number: 12, length: 1, value: seq![0u8] }]
        } else {
            Seq::empty()
        },
        payload: payload,
    }
}

/// The step that sends the response with the given class and code and no
/// payload.
pub open spec fn reply_with(class: nat, code: nat, request: MessageView) -> StepView {
    StepView::Reply {
        response: response_to(class, code, Seq::empty(), request),
        undefined_class: false,
    }
}

/// The request asks for a resource: its class is "method" and its code is
/// GET, POST, PUT or DELETE.
pub open spec fn asks_for_resource(request: MessageView) -> bool {
    request.header.coap_class == 0 && 1 <= request.header.code <= 4
}

/// The class is one that the protocol defines.
pub open spec fn class_is_defined(class: nat) -> bool {
    class == 0 || class == 2 || class == 4 || class == 5 || class == 7
}

/// The first step for a request, with the resources below `root`.
pub open spec fn first_step(request: MessageView, root: Seq<char>) -> StepView {
    if asks_for_resource(request) {
        match resolve_path(root, request.options) {
            Err(_) => reply_with(4, 0, request),
            Ok(path) => StepView::Ask {
                request: StoreRequestView::Exists { path },
                pending: PendingView::Probing { path },
            },
        }
    } else if request.header.coap_class == 0 && request.header.code == 0 {
        reply_with(4, 5, request)
    } else {
        StepView::Reply {
            response: response_to(4, 0, Seq::empty(), request),
            undefined_class: !class_is_defined(request.header.coap_class),
        }
    }
}

/// The step of a GET request after a store operation.
pub open spec fn get_step(request: MessageView, pending: PendingView, event: StoreEventView)
    -> StepView {
    match (pending, event) {
        (PendingView::Probing { path }, StoreEventView::Exists(true)) => StepView::Ask {
            request: StoreRequestView::ReadAll { path },
            pending: PendingView::Accessing,
        },
        (PendingView::Probing { path }, StoreEventView::Exists(false)) => reply_with(
            4,
            4,
            request,
        ),
        (PendingView::Accessing, StoreEventView::Contents(data)) => StepView::Reply {
            response: response_to(2, 5, data, request),
            undefined_class: false,
        },
        _ => reply_with(5, 0, request),
    }
}

/// The step of a POST request after a store operation.
pub open spec fn post_step(request: MessageView, pending: PendingView, event: StoreEventView)
    -> StepView {
    match (pending, event) {
        (PendingView::Probing { path }, StoreEventView::Exists(true)) => reply_with(
            4,
            9,
            request,
        ),
        (PendingView::Probing { path }, StoreEventView::Exists(false)) => StepView::Ask {
            request: StoreRequestView::CreateEmpty { path },
            pending: PendingView::Accessing,
        },
        (PendingView::Accessing, StoreEventView::Done) => reply_with(2, 1, request),
        _ => reply_with(5, 0, request),
    }
}

/// The step of a PUT request after a store operation.
pub open spec fn put_step(request: MessageView, pending: PendingView, event: StoreEventView)
    -> StepView {
    match (pending, event) {
        (PendingView::Probing { path }, StoreEventView::Exists(true)) => StepView::Ask {
            request: StoreRequestView::WriteReplace { path, data: request.payload },
            pending: PendingView::Accessing,
        },
        (PendingView::Probing { path }, StoreEventView::Exists(false)) => reply_with(
            4,
            4,
            request,
        ),
        (PendingView::Accessing, StoreEventView::Done) => reply_with(2, 1, request),
        _ => reply_with(5, 0, request),
    }
}

/// The step of a DELETE request after a store operation.
pub open spec fn delete_step(request: MessageView, pending: PendingView, event: StoreEventView)
    -> StepView {
    match (pending, event) {
        (PendingView::Probing { path }, StoreEventView::Exists(true)) => StepView::Ask {
            request: StoreRequestView::Remove { path },
            pending: PendingView::Accessing,
        },
        (PendingView::Probing { path }, StoreEventView::Exists(false)) => reply_with(
            4,
            4,
            request,
        ),
        (PendingView::Accessing, StoreEventView::Done) => reply_with(2, 2, request),
        _ => reply_with(5, 0, request),
    }
}

/// The step for a request after a store operation. A request that asks for
/// no resource has no store operation under way: it is answered
/// internal-server-error.
pub open spec fn next_step(request: MessageView, pending: PendingView, event: StoreEventView)
    -> StepView {
    if !asks_for_resource(request) {
        reply_with(5, 0, request)
    } else if request.header.code == 1 {
        get_step(request, pending, event)
    } else if request.header.code == 2 {
        post_step(request, pending, event)
    } else if request.header.code == 3 {
        put_step(request, pending, event)
    } else {
        delete_step(request, pending, event)
    }
}

/// Builds the response to `sender_message` with the given class, code and
/// payload.
pub fn create_response_message(
    class: u8,
    coap_code: u8,
    response_payload: Vec<u8>,
    sender_message: &CoapMessage,
) -> (response: CoapMessage)
    ensures
        response@ == response_to(
            class as nat,
            coap_code as nat,
            response_payload@,
            sender_message@,
        ),
{
    let response_header = CoapMessageHeader {
        version: sender_message.header.version,
        coap_type: TYPE_ACKNOWLEDGEMENT,
        token_length: sender_message.header.token_length,
        coap_class: class,
        code: coap_code,
        id: sender_message.header.id,
        token: slice_to_vec(sender_message.header.token.as_slice()),
    };
    let mut options_list: Vec<CoapOption> = Vec::new();
    if !response_payload.is_empty() {
        let mut value_vec: Vec<u8> = Vec::new();
        value_vec.push(CONTENT_FORMAT_TEXT);
        let payload_option = CoapOption {
            number: OPTION_CONTENT_FORMAT,
            length: 1,
            value: value_vec,
        };
        options_list.push(payload_option);
        assert(options_view(options_list@) =~= seq![
            OptionView { number: 12, length: 1, value: seq![0u8] },
        ]);
    } else {
        assert(options_view(options_list@) =~= Seq::<OptionView>::empty());
    }
    CoapMessage { header: response_header, option_list: options_list, payload: response_payload }
}

/// The step that sends a response without payload.
fn reply(class: u8, coap_code: u8, message: &CoapMessage) -> (step: Step)
    ensures
        step@ == reply_with(class as nat, coap_code as nat, message@),
{
    Step::Reply {
        response: create_response_message(class, coap_code, Vec::new(), message),
        undefined_class: false,
    }
}

/// Whether the protocol defines the class.
pub fn is_defined_class(class: u8) -> (defined: bool)
    ensures
        defined == class_is_defined(class as nat),
{
    class == CLASS_METHOD || class == CLASS_SUCCESS || class == CLASS_CLIENT_ERROR || class
        == CLASS_SERVER_ERROR || class == CLASS_SIGNALING_CODES
}

/// Takes up a request: says what is to be done first, with the resources
/// below `storage_root`.
pub fn execute_request(message: &CoapMessage, storage_root: &str) -> (step: Step)
    ensures
        step@ == first_step(message@, storage_root@),
{
    let class = message.header.coap_class;
    let code = message.header.code;
    if class == CLASS_METHOD {
        if code == CODE_EMPTY {
            reply(CLASS_CLIENT_ERROR, CODE_METHOD_NOT_ALLOWED, message)
        } else if code == CODE_GET || code == CODE_POST || code == CODE_PUT || code
            == CODE_DELETE {
            match parse_options_to_path(storage_root, &message.option_list) {
                Err(_) => reply(CLASS_CLIENT_ERROR, CODE_BAD_REQUEST, message),
                Ok(path) => Step::Ask {
                    request: StoreRequest::Exists { path: path.clone() },
                    pending: Pending::Probing { path },
                },
            }
        } else {
            reply(CLASS_CLIENT_ERROR, CODE_BAD_REQUEST, message)
        }
    } else {
        Step::Reply {
            response: create_response_message(
                CLASS_CLIENT_ERROR,
                CODE_BAD_REQUEST,
                Vec::new(),
                message,
            ),
            undefined_class: !is_defined_class(class),
        }
    }
}

/// Goes on with a GET request: if the resource exists it is read, and what
/// was read is the payload of the response.
pub fn handle_get_request(message: &CoapMessage, pending: Pending, event: StoreEvent) -> (step:
    Step)
    requires
        message.header.coap_class == CLASS_METHOD,
        message.header.code == CODE_GET,
    ensures
        step@ == get_step(message@, pending@, event@),
{
    match (pending, event) {
        (Pending::Probing { path }, StoreEvent::Exists(true)) => Step::Ask {
            request: StoreRequest::ReadAll { path },
            pending: Pending::Accessing,
        },
        (Pending::Probing { path: _ }, StoreEvent::Exists(false)) => reply(
            CLASS_CLIENT_ERROR,
            CODE_NOT_FOUND,
            message,
        ),
        (Pending::Accessing, StoreEvent::Contents(data)) => Step::Reply {
            response: create_response_message(CLASS_SUCCESS, CODE_CONTENT, data, message),
            undefined_class: false,
        },
        _ => reply(CLASS_SERVER_ERROR, CODE_INTERNAL_SERVER_ERROR, message),
    }
}

/// Goes on with a POST request: unless the resource exists it is created
/// empty.
pub fn handle_post_request(message: &CoapMessage, pending: Pending, event: StoreEvent) -> (step:
    Step)
    requires
        message.header.coap_class == CLASS_METHOD,
        message.header.code == CODE_POST,
    ensures
        step@ == post_step(message@, pending@, event@),
{
    match (pending, event) {
        (Pending::Probing { path: _ }, StoreEvent::Exists(true)) => reply(
            CLASS_CLIENT_ERROR,
            CODE_CONFLICT,
            message,
        ),
        (Pending::Probing { path }, StoreEvent::Exists(false)) => Step::Ask {
            request: StoreRequest::CreateEmpty { path },
            pending: Pending::Accessing,
        },
        (Pending::Accessing, StoreEvent::Done) => reply(CLASS_SUCCESS, CODE_CREATED, message),
        _ => reply(CLASS_SERVER_ERROR, CODE_INTERNAL_SERVER_ERROR, message),
    }
}

/// Goes on with a PUT request: if the resource exists its contents are
/// replaced with the payload of the request.
pub fn handle_put_request(message: &CoapMessage, pending: Pending, event: StoreEvent) -> (step:
    Step)
    requires
        message.header.coap_class == CLASS_METHOD,
        message.header.code == CODE_PUT,
    ensures
        step@ == put_step(message@, pending@, event@),
{
    match (pending, event) {
        (Pending::Probing { path }, StoreEvent::Exists(true)) => Step::Ask {
            request: StoreRequest::WriteReplace {
                path,
                data: slice_to_vec(message.payload.as_slice()),
            },
            pending: Pending::Accessing,
        },
        (Pending::Probing { path: _ }, StoreEvent::Exists(false)) => reply(
            CLASS_CLIENT_ERROR,
            CODE_NOT_FOUND,
            message,
        ),
        (Pending::Accessing, StoreEvent::Done) => reply(CLASS_SUCCESS, CODE_CREATED, message),
        _ => reply(CLASS_SERVER_ERROR, CODE_INTERNAL_SERVER_ERROR, message),
    }
}

/// Goes on with a DELETE request: if the resource exists it is removed.
pub fn handle_delete_request(message: &CoapMessage, pending: Pending, event: StoreEvent) -> (step:
    Step)
    requires
        message.header.coap_class == CLASS_METHOD,
        message.header.code == CODE_DELETE,
    ensures
        step@ == delete_step(message@, pending@, event@),
{
    match (pending, event) {
        (Pending::Probing { path }, StoreEvent::Exists(true)) => Step::Ask {
            request: StoreRequest::Remove { path },
            pending: Pending::Accessing,
        },
        (Pending::Probing { path: _ }, StoreEvent::Exists(false)) => reply(
            CLASS_CLIENT_ERROR,
            CODE_NOT_FOUND,
            message,
        ),
        (Pending::Accessing, StoreEvent::Done) => reply(CLASS_SUCCESS, CODE_DELETED, message),
        _ => reply(CLASS_SERVER_ERROR, CODE_INTERNAL_SERVER_ERROR, message),
    }
}

/// Goes on with a request after the store operation that the last step
/// asked for: `pending` is what that step handed out, `event` is what the
/// operation gave.
pub fn continue_request(message: &CoapMessage, pending: Pending, event: StoreEvent) -> (step:
    Step)
    ensures
        step@ == next_step(message@, pending@, event@),
{
    let code = message.header.code;
    if message.header.coap_class != CLASS_METHOD {
        reply(CLASS_SERVER_ERROR, CODE_INTERNAL_SERVER_ERROR, message)
    } else if code == CODE_GET {
        handle_get_request(message, pending, event)
    } else if code == CODE_POST {
        handle_post_request(message, pending, event)
    } else if code == CODE_PUT {
        handle_put_request(message, pending, event)
    } else if code == CODE_DELETE {
        handle_delete_request(message, pending, event)
    } else {
        reply(CLASS_SERVER_ERROR, CODE_INTERNAL_SERVER_ERROR, message)
    }
}

} // verus!
