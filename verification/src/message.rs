//! The message data model and its mathematical view.

use vstd::prelude::*;

verus! {

/// Largest datagram the server accepts, in bytes.
pub const MAX_MTU: usize = 15000;

pub const CLASS_METHOD: u8 = 0;

pub const CODE_EMPTY: u8 = 0;

pub const CODE_GET: u8 = 1;

pub const CODE_POST: u8 = 2;

pub const CODE_PUT: u8 = 3;

pub const CODE_DELETE: u8 = 4;

pub const CLASS_SUCCESS: u8 = 2;

pub const CODE_CREATED: u8 = 1;

pub const CODE_DELETED: u8 = 2;

pub const CODE_CONTENT: u8 = 5;

pub const CLASS_CLIENT_ERROR: u8 = 4;

pub const CODE_BAD_REQUEST: u8 = 0;

pub const CODE_NOT_FOUND: u8 = 4;

pub const CODE_METHOD_NOT_ALLOWED: u8 = 5;

pub const CODE_CONFLICT: u8 = 9;

pub const CLASS_SERVER_ERROR: u8 = 5;

pub const CODE_INTERNAL_SERVER_ERROR: u8 = 0;

pub const CLASS_SIGNALING_CODES: u8 = 7;

/// Message type "acknowledgement".
pub const TYPE_ACKNOWLEDGEMENT: u8 = 2;

/// Longest token a header may carry.
pub const MAX_TOKEN_LENGTH: u8 = 8;

/// Option number of Uri-Host.
pub const OPTION_URI_HOST: u16 = 3;

/// Option number of Uri-Path.
pub const OPTION_URI_PATH: u16 = 11;

/// Option number of Content-Format.
pub const OPTION_CONTENT_FORMAT: u16 = 12;

/// Content-Format value for plain text.
pub const CONTENT_FORMAT_TEXT: u8 = 0;

/// The byte that separates the options from the payload.
pub const PAYLOAD_MARKER: u8 = 0xFF;

/// The fixed part of a message together with its token.
#[derive(Clone, Debug, PartialEq, Eq)]
pub struct CoapMessageHeader {
    pub version: u8,
    pub coap_type: u8,
    pub token_length: u8,
    pub coap_class: u8,
    pub code: u8,
    pub id: u16,
    pub token: Vec<u8>,
}

/// One option, with its number already accumulated from the deltas.
#[derive(Clone, Debug, PartialEq, Eq)]
pub struct CoapOption {
    pub number: u16,
    pub length: u16,
    pub value: Vec<u8>,
}

/// A whole message: header, options in wire order, payload.
#[derive(Clone, Debug, PartialEq, Eq)]
pub struct CoapMessage {
    pub header: CoapMessageHeader,
    pub option_list: Vec<CoapOption>,
    pub payload: Vec<u8>,
}

/// What a header is, as numbers and a byte sequence.
pub struct HeaderView {
    pub version: nat,
    pub coap_type: nat,
    pub token_length: nat,
    pub coap_class: nat,
    pub code: nat,
    pub id: nat,
    pub token: Seq<u8>,
}

/// What an option is, as numbers and a byte sequence.
pub struct OptionView {
    pub number: nat,
    pub length: nat,
    pub value: Seq<u8>,
}

/// What a message is.
pub struct MessageView {
    pub header: HeaderView,
    pub options: Seq<OptionView>,
    pub payload: Seq<u8>,
}

impl View for CoapMessageHeader {
    type V = HeaderView;

    open spec fn view(&self) -> HeaderView {
        HeaderView {
            version: self.version as nat,
            coap_type: self.coap_type as nat,
            token_length: self.token_length as nat,
            coap_class: self.coap_class as nat,
            code: self.code as nat,
            id: self.id as nat,
            token: self.token@,
        }
    }
}

impl View for CoapOption {
    type V = OptionView;

    open spec fn view(&self) -> OptionView {
        OptionView {
            number: self.number as nat,
            length: self.length as nat,
            value: self.value@,
        }
    }
}

/// The views of a list of options, in order.
pub open spec fn options_view(list: Seq<CoapOption>) -> Seq<OptionView> {
    Seq::new(list.len(), |i: int| list[i]@)
}

impl View for CoapMessage {
    type V = MessageView;

    open spec fn view(&self) -> MessageView {
        MessageView {
            header: self.header@,
            options: options_view(self.option_list@),
            payload: self.payload@,
        }
    }
}

impl HeaderView {
    /// Every field fits its place on the wire and the token has the
    /// length the header announces.
    pub open spec fn wf(self) -> bool {
        &&& self.version < 4
        &&& self.coap_type < 4
        &&& self.token_length <= 8
        &&& self.token.len() == self.token_length
        &&& self.coap_class < 8
        &&& self.code < 32
        &&& self.id < 0x1_0000
    }
}

impl OptionView {
    /// The option can follow one numbered `prev`: its number is not below
    /// `prev`, both number and length fit 16 bits, and the length is that
    /// of the value.
    pub open spec fn wf_after(self, prev: nat) -> bool {
        &&& prev <= self.number
        &&& self.number < 0x1_0000
        &&& self.length < 0x1_0000
        &&& self.value.len() == self.length
    }
}

/// The options can follow one numbered `prev`, each in its turn.
pub open spec fn options_wf(options: Seq<OptionView>, prev: nat) -> bool
    decreases options.len(),
{
    if options.len() == 0 {
        true
    } else {
        options[0].wf_after(prev) && options_wf(options.drop_first(), options[0].number)
    }
}

impl MessageView {
    /// The message has an encoding: the header is well formed and the
    /// option numbers never fall.
    pub open spec fn wf(self) -> bool {
        self.header.wf() && options_wf(self.options, 0)
    }
}

} // verus!
