//! The wire format, as functions between byte sequences and message views.
//!
//! Layout, big-endian throughout:
//!
//! ```text
//! byte 0      version (2 bits) | type (2 bits) | token length (4 bits)
//! byte 1      class (3 bits) | code (5 bits)
//! bytes 2-3   message id
//! then        the token
//! then        the options, each: one byte (delta nibble | length nibble),
//!             0 to 2 bytes of extended delta, 0 to 2 bytes of extended
//!             length, the value
//! then        if there is a payload: 0xFF and the payload
//! ```
//!
//! An option delta or length up to 12 is its own nibble. From 13 to 268 the
//! nibble is 13 and one more byte holds the value less 13. From 269 on the
//! nibble is 14 and two more bytes hold the value less 269. Nibble 15 is
//! reserved.

use vstd::prelude::*;
use crate::error::DecodeError;
use crate::message::{HeaderView, MessageView, OptionView};

verus! {

/// The nibble that announces a delta or length of `value`.
pub open spec fn field_nibble(value: nat) -> nat {
    if value <= 12 {
        value
    } else if value <= 268 {
        13
    } else {
        14
    }
}

/// The bytes that follow the first byte of an option for a delta or length
/// of `value`.
pub open spec fn field_extension(value: nat) -> Seq<u8> {
    if value <= 12 {
        Seq::empty()
    } else if value <= 268 {
        seq![(value - 13) as u8]
    } else {
        seq![((value - 269) / 256) as u8, ((value - 269) % 256) as u8]
    }
}

/// How many extension bytes a nibble announces.
pub open spec fn extension_len(nibble: nat) -> nat {
    if nibble == 13 {
        1
    } else if nibble == 14 {
        2
    } else {
        0
    }
}

/// The delta or length that a nibble and its extension bytes stand for.
pub open spec fn field_value(nibble: nat, extension: Seq<u8>) -> nat {
    if nibble == 13 {
        extension[0] as nat + 13
    } else if nibble == 14 {
        extension[0] as nat * 256 + extension[1] as nat + 269
    } else {
        nibble
    }
}

/// The four fixed bytes and the token.
pub open spec fn encode_header(header: HeaderView) -> Seq<u8> {
    seq![
        (header.version * 64 + header.coap_type * 16 + header.token_length) as u8,
        (header.coap_class * 32 + header.code) as u8,
        (header.id / 256) as u8,
        (header.id % 256) as u8,
    ] + header.token
}

/// One option that follows an option numbered `prev`.
pub open spec fn encode_option(option: OptionView, prev: nat) -> Seq<u8> {
    let delta = (option.number - prev) as nat;
    seq![(field_nibble(delta) * 16 + field_nibble(option.length)) as u8] + field_extension(delta)
        + field_extension(option.length) + option.value
}

/// The options in order, the first of them following one numbered `prev`.
pub open spec fn encode_options(options: Seq<OptionView>, prev: nat) -> Seq<u8>
    decreases options.len(),
{
    if options.len() == 0 {
        Seq::empty()
    } else {
        encode_option(options[0], prev) + encode_options(options.drop_first(), options[0].number)
    }
}

/// Nothing for an empty payload, else the marker and the payload.
pub open spec fn encode_payload(payload: Seq<u8>) -> Seq<u8> {
    if payload.len() == 0 {
        Seq::empty()
    } else {
        seq![0xFFu8] + payload
    }
}

/// The datagram of a message.
pub open spec fn encode_message(message: MessageView) -> Seq<u8> {
    encode_header(message.header) + encode_options(message.options, 0) + encode_payload(
        message.payload,
    )
}

/// The header at the start of a datagram.
pub open spec fn decode_header(bytes: Seq<u8>) -> Result<HeaderView, DecodeError> {
    if bytes.len() < 4 {
        Err(DecodeError::HeaderTooShort)
    } else {
        let token_length = (bytes[0] % 16) as nat;
        if token_length > 8 {
            Err(DecodeError::TokenTooLong)
        } else if bytes.len() < 4 + token_length {
            Err(DecodeError::Truncated)
        } else {
            Ok(
                HeaderView {
                    version: (bytes[0] / 64) as nat,
                    coap_type: ((bytes[0] / 16) % 4) as nat,
                    token_length,
                    coap_class: (bytes[1] / 32) as nat,
                    code: (bytes[1] % 32) as nat,
                    id: bytes[2] as nat * 256 + bytes[3] as nat,
                    token: bytes.subrange(4, 4 + token_length as int),
                },
            )
        }
    }
}

/// The option whose first byte is at `pos` and which follows an option
/// numbered `prev`, with the position just behind its value.
pub open spec fn decode_option(bytes: Seq<u8>, pos: int, prev: nat) -> Result<
    (OptionView, int),
    DecodeError,
>
    recommends
        0 <= pos < bytes.len(),
{
    let delta_nibble = (bytes[pos] / 16) as nat;
    let length_nibble = (bytes[pos] % 16) as nat;
    let delta_at = pos + 1;
    let length_at = delta_at + extension_len(delta_nibble);
    let value_at = length_at + extension_len(length_nibble);
    if delta_nibble == 15 {
        Err(DecodeError::ReservedDelta)
    } else if length_nibble == 15 {
        Err(DecodeError::ReservedLength)
    } else if value_at > bytes.len() {
        Err(DecodeError::Truncated)
    } else {
        let number = prev + field_value(
            delta_nibble,
            bytes.subrange(delta_at, length_at),
        );
        let length = field_value(length_nibble, bytes.subrange(length_at, value_at));
        if number >= 0x1_0000 || length >= 0x1_0000 {
            Err(DecodeError::OutOfRange)
        } else if value_at + length > bytes.len() {
            Err(DecodeError::Truncated)
        } else {
            Ok(
                (
                    OptionView {
                        number,
                        length,
                        value: bytes.subrange(value_at, value_at + length),
                    },
                    value_at + length,
                ),
            )
        }
    }
}

/// No option starts at `pos`: the datagram ends there or the payload
/// marker stands there.
pub open spec fn options_end_at(bytes: Seq<u8>, pos: int) -> bool {
    pos >= bytes.len() || bytes[pos] == 0xFF
}

/// The options from `pos` on, the first of them following one numbered
/// `prev`, with the position where they end.
pub open spec fn decode_options(bytes: Seq<u8>, pos: int, prev: nat) -> Result<
    (Seq<OptionView>, int),
    DecodeError,
>
    decreases bytes.len() - pos,
{
    if options_end_at(bytes, pos) {
        Ok((Seq::empty(), pos))
    } else {
        match decode_option(bytes, pos, prev) {
            Err(e) => Err(e),
            Ok((option, next)) => match decode_options(bytes, next, option.number) {
                Err(e) => Err(e),
                Ok((rest, end)) => Ok((seq![option] + rest, end)),
            },
        }
    }
}

/// The payload of a datagram whose options end at `end`: what follows the
/// marker, if the marker stands there.
pub open spec fn decode_payload(bytes: Seq<u8>, end: int) -> Seq<u8> {
    if end < bytes.len() {
        bytes.subrange(end + 1, bytes.len() as int)
    } else {
        Seq::empty()
    }
}

/// The message of a datagram.
pub open spec fn decode_message(bytes: Seq<u8>) -> Result<MessageView, DecodeError> {
    match decode_header(bytes) {
        Err(e) => Err(e),
        Ok(header) => match decode_options(bytes, 4 + header.token_length as int, 0) {
            Err(e) => Err(e),
            Ok((options, end)) => Ok(
                MessageView { header, options, payload: decode_payload(bytes, end) },
            ),
        },
    }
}

} // verus!
