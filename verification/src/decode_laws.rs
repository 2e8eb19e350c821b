//! What holds of every datagram and of every message that decoding gives.

use vstd::prelude::*;
use crate::error::DecodeError;
use crate::message::{options_wf, HeaderView, MessageView, OptionView};
use crate::wire::{
    decode_header, decode_message, decode_option, decode_options, options_end_at,
};

verus! {

/// Decoding stands at `pos`, behind an option numbered `prev_at`, when it
/// started at `from` behind an option numbered `prev`: every option between
/// the two positions was decoded.
pub open spec fn decoding_reaches(bytes: Seq<u8>, from: int, prev: nat, pos: int, prev_at: nat)
    -> bool
    decreases bytes.len() - from,
{
    if from == pos && prev == prev_at {
        true
    } else if options_end_at(bytes, from) {
        false
    } else {
        match decode_option(bytes, from, prev) {
            Err(_) => false,
            Ok((option, next)) => decoding_reaches(bytes, next, option.number, pos, prev_at),
        }
    }
}

/// The first byte of an option has a reserved nibble: its delta nibble or
/// its length nibble is 15, and it is not the payload marker.
pub open spec fn reserved_nibble_at(bytes: Seq<u8>, pos: int) -> bool {
    &&& 0 <= pos < bytes.len()
    &&& bytes[pos] != 0xFF
    &&& (bytes[pos] / 16 == 15 || bytes[pos] % 16 == 15)
}

/// The error that a reserved nibble gives: that of the delta nibble comes
/// first.
pub open spec fn reserved_nibble_error(first: u8) -> DecodeError {
    if first / 16 == 15 {
        DecodeError::ReservedDelta
    } else {
        DecodeError::ReservedLength
    }
}

/// The token bound. A datagram of four bytes or more whose first byte
/// announces a token of nine bytes or more is refused for its token, and no
/// other datagram is. One that announces eight bytes or fewer, and holds
/// them, has a header.
pub proof fn lemma_token_bound(bytes: Seq<u8>)
    requires
        bytes.len() >= 4,
    ensures
        bytes[0] % 16 > 8 <==> decode_header(bytes) == Err::<HeaderView, DecodeError>(
            DecodeError::TokenTooLong,
        ),
        bytes[0] % 16 > 8 <==> decode_message(bytes) == Err::<MessageView, DecodeError>(
            DecodeError::TokenTooLong,
        ),
        bytes[0] % 16 <= 8 && bytes.len() >= 4 + bytes[0] % 16 ==> decode_header(bytes) is Ok,
{
    if bytes[0] % 16 <= 8 && bytes.len() >= 4 + bytes[0] % 16 {
        let header = decode_header(bytes)->Ok_0;
        lemma_options_never_token_too_long(bytes, 4 + header.token_length as int, 0);
    }
}

/// Decoding options never gives the errors of the header.
proof fn lemma_options_never_token_too_long(bytes: Seq<u8>, pos: int, prev: nat)
    ensures
        decode_options(bytes, pos, prev) != Err::<(Seq<OptionView>, int), DecodeError>(
            DecodeError::TokenTooLong,
        ),
        decode_options(bytes, pos, prev) != Err::<(Seq<OptionView>, int), DecodeError>(
            DecodeError::HeaderTooShort,
        ),
    decreases bytes.len() - pos,
{
    if !options_end_at(bytes, pos) {
        match decode_option(bytes, pos, prev) {
            Err(_) => {},
            Ok((option, next)) => {
                lemma_options_never_token_too_long(bytes, next, option.number);
            },
        }
    }
}

/// An error met while decoding options is the result of decoding from any
/// earlier position: nothing that was decoded before it is kept.
pub proof fn lemma_failure_is_whole(
    bytes: Seq<u8>,
    from: int,
    prev: nat,
    pos: int,
    prev_at: nat,
)
    requires
        decoding_reaches(bytes, from, prev, pos, prev_at),
        decode_options(bytes, pos, prev_at) is Err,
    ensures
        decode_options(bytes, from, prev) == decode_options(bytes, pos, prev_at),
    decreases bytes.len() - from,
{
    if from == pos && prev == prev_at {
    } else {
        match decode_option(bytes, from, prev) {
            Err(_) => {},
            Ok((option, next)) => {
                lemma_failure_is_whole(bytes, next, option.number, pos, prev_at);
            },
        }
    }
}

/// Reserved nibble. Where decoding the options of a datagram comes to a
/// first byte with a nibble of 15, other than the payload marker, the
/// datagram is refused: with `ReservedDelta` for the delta nibble, else with
/// `ReservedLength`.
pub proof fn lemma_reserved_nibble_fails(bytes: Seq<u8>, pos: int, prev_at: nat)
    requires
        decode_header(bytes) is Ok,
        decoding_reaches(
            bytes,
            4 + decode_header(bytes)->Ok_0.token_length as int,
            0,
            pos,
            prev_at,
        ),
        reserved_nibble_at(bytes, pos),
    ensures
        decode_message(bytes) == Err::<MessageView, DecodeError>(
            reserved_nibble_error(bytes[pos]),
        ),
{
    let start = 4 + decode_header(bytes)->Ok_0.token_length as int;
    assert(decode_options(bytes, pos, prev_at) == Err::<(Seq<OptionView>, int), DecodeError>(
        reserved_nibble_error(bytes[pos]),
    ));
    lemma_failure_is_whole(bytes, start, 0, pos, prev_at);
}

/// The options that decoding gives are well formed, and they end inside the
/// datagram.
pub proof fn lemma_decoded_options_wf(bytes: Seq<u8>, pos: int, prev: nat)
    requires
        0 <= pos <= bytes.len(),
    ensures
        decode_options(bytes, pos, prev) matches Ok((options, end)) ==> {
            &&& options_wf(options, prev)
            &&& pos <= end <= bytes.len()
            &&& options_end_at(bytes, end)
        },
    decreases bytes.len() - pos,
{
    if !options_end_at(bytes, pos) {
        match decode_option(bytes, pos, prev) {
            Err(_) => {},
            Ok((option, next)) => {
                lemma_decoded_options_wf(bytes, next, option.number);
                match decode_options(bytes, next, option.number) {
                    Err(_) => {},
                    Ok((rest, end)) => {
                        assert((seq![option] + rest).drop_first() =~= rest);
                    },
                }
            },
        }
    }
}

/// A message that decoding gives is well formed: it can be encoded.
pub proof fn lemma_decoded_wf(bytes: Seq<u8>)
    ensures
        decode_message(bytes) matches Ok(message) ==> message.wf(),
{
    match decode_header(bytes) {
        Err(_) => {},
        Ok(header) => {
            lemma_decoded_options_wf(bytes, 4 + header.token_length as int, 0);
        },
    }
}

} // verus!
