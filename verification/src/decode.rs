//! Decoding a datagram into a message.

use vstd::prelude::*;
use vstd::slice::{slice_subrange, slice_to_vec};
use crate::decode_laws::lemma_decoded_wf;
use crate::error::DecodeError;
use crate::message::{
    options_view, CoapMessage, CoapMessageHeader, CoapOption, HeaderView, MessageView, OptionView,
};
use crate::wire::{
    decode_header, decode_message, decode_option, decode_options, decode_payload, extension_len,
    field_value,
};

verus! {

/// The meaningful bytes of a receive buffer: its first `number_of_bytes`.
pub open spec fn datagram(udp_buffer: Seq<u8>, number_of_bytes: usize) -> Seq<u8> {
    udp_buffer.take(number_of_bytes as int)
}

/// The options decoded so far, put in front of what decoding the rest
/// gives.
pub open spec fn options_then(
    done: Seq<OptionView>,
    rest: Result<(Seq<OptionView>, int), DecodeError>,
) -> Result<(Seq<OptionView>, int), DecodeError> {
    match rest {
        Err(e) => Err(e),
        Ok((options, end)) => Ok((done + options, end)),
    }
}

/// The payload of a datagram, empty where the datagram is no message.
pub open spec fn payload_of(bytes: Seq<u8>) -> Seq<u8> {
    match decode_message(bytes) {
        Ok(message) => message.payload,
        Err(_) => Seq::empty(),
    }
}

proof fn lemma_options_view_push(list: Seq<CoapOption>, option: CoapOption)
    ensures
        options_view(list.push(option)) == options_view(list).push(option@),
{
}

/// How many extension bytes a nibble below 15 announces.
fn extension_width(nibble: u8) -> (width: usize)
    ensures
        width == extension_len(nibble as nat),
{
    if nibble == 13 {
        1
    } else if nibble == 14 {
        2
    } else {
        0
    }
}

/// The delta or length announced by `nibble`, whose extension bytes start
/// at `at`.
fn read_field(data: &[u8], at: usize, nibble: u8) -> (value: u32)
    requires
        nibble < 15,
        at + extension_len(nibble as nat) <= data@.len(),
    ensures
        value == field_value(
            nibble as nat,
            data@.subrange(at as int, at + extension_len(nibble as nat)),
        ),
        value <= 0xFFFF + 269,
{
    if nibble == 13 {
        data[at] as u32 + 13
    } else if nibble == 14 {
        let high = data[at] as u32;
        let low = data[at + 1] as u32;
        high * 256 + low + 269
    } else {
        nibble as u32
    }
}

/// Decodes the option whose first byte is at `pos`.
fn parse_option(data: &[u8], pos: usize, prev: u16) -> (r: Result<(CoapOption, usize), DecodeError>)
    requires
        pos < data@.len(),
    ensures
        match r {
            Ok((option, next)) => decode_option(data@, pos as int, prev as nat) == Ok::<
                (OptionView, int),
                DecodeError,
            >((option@, next as int)),
            Err(e) => decode_option(data@, pos as int, prev as nat) == Err::<
                (OptionView, int),
                DecodeError,
            >(e),
        },
{
    let head = data[pos];
    let delta_nibble = head >> 4;
    let length_nibble = head & 0x0F;
    assert(head >> 4 == head / 16) by (bit_vector);
    assert(head & 0x0F == head % 16) by (bit_vector);
    if delta_nibble == 15 {
        return Err(DecodeError::ReservedDelta);
    }
    if length_nibble == 15 {
        return Err(DecodeError::ReservedLength);
    }
    let delta_width = extension_width(delta_nibble);
    let length_width = extension_width(length_nibble);
    if delta_width + length_width > data.len() - pos - 1 {
        return Err(DecodeError::Truncated);
    }
    let delta_at = pos + 1;
    let length_at = delta_at + delta_width;
    let value_at = length_at + length_width;
    let number = prev as u32 + read_field(data, delta_at, delta_nibble);
    let length = read_field(data, length_at, length_nibble);
    if number > 0xFFFF || length > 0xFFFF {
        return Err(DecodeError::OutOfRange);
    }
    if length as usize > data.len() - value_at {
        return Err(DecodeError::Truncated);
    }
    let next = value_at + length as usize;
    let value = slice_to_vec(slice_subrange(data, value_at, next));
    Ok((CoapOption { number: number as u16, length: length as u16, value }, next))
}

/// Decodes the options from `start` up to the payload marker or the end of
/// the datagram, and says where they end.
fn parse_options_from(data: &[u8], start: usize) -> (r: Result<
    (Vec<CoapOption>, usize),
    DecodeError,
>)
    ensures
        match r {
            Ok((list, end)) => decode_options(data@, start as int, 0) == Ok::<
                (Seq<OptionView>, int),
                DecodeError,
            >((options_view(list@), end as int)),
            Err(e) => decode_options(data@, start as int, 0) == Err::<
                (Seq<OptionView>, int),
                DecodeError,
            >(e),
        },
{
    let mut list: Vec<CoapOption> = Vec::new();
    let mut pos = start;
    let mut prev: u16 = 0;
    while pos < data.len() && data[pos] != 0xFF
        invariant
            decode_options(data@, start as int, 0) == options_then(
                options_view(list@),
                decode_options(data@, pos as int, prev as nat),
            ),
        decreases data@.len() - pos,
    {
        let ghost done = options_view(list@);
        match parse_option(data, pos, prev) {
            Err(e) => {
                return Err(e);
            },
            Ok((option, next)) => {
                proof {
                    lemma_options_view_push(list@, option);
                    match decode_options(data@, next as int, option@.number) {
                        Err(_) => {},
                        Ok((rest, _)) => {
                            assert(done + (seq![option@] + rest) =~= done.push(option@) + rest);
                        },
                    }
                }
                prev = option.number;
                list.push(option);
                pos = next;
            },
        }
    }
    Ok((list, pos))
}

/// What follows the payload marker at `end`, if it stands there.
fn payload_after(data: &[u8], end: usize) -> (payload: Vec<u8>)
    ensures
        payload@ == decode_payload(data@, end as int),
{
    if end < data.len() {
        slice_to_vec(slice_subrange(data, end + 1, data.len()))
    } else {
        Vec::new()
    }
}

/// Decodes the header of the datagram in the first `number_of_bytes` bytes
/// of `udp_buffer`: the four fixed bytes and the token.
pub fn parse_coap_header(udp_buffer: &[u8], number_of_bytes: usize) -> (r: Result<
    CoapMessageHeader,
    DecodeError,
>)
    requires
        number_of_bytes <= udp_buffer@.len(),
    ensures
        match r {
            Ok(header) => decode_header(datagram(udp_buffer@, number_of_bytes)) == Ok::<
                HeaderView,
                DecodeError,
            >(header@),
            Err(e) => decode_header(datagram(udp_buffer@, number_of_bytes)) == Err::<
                HeaderView,
                DecodeError,
            >(e),
        },
{
    let data = slice_subrange(udp_buffer, 0, number_of_bytes);
    if number_of_bytes < 4 {
        return Err(DecodeError::HeaderTooShort);
    }
    let first = data[0];
    let second = data[1];
    let token_length = first & 0x0F;
    assert(first & 0x0F == first % 16) by (bit_vector);
    if token_length > 8 {
        return Err(DecodeError::TokenTooLong);
    }
    if number_of_bytes - 4 < token_length as usize {
        return Err(DecodeError::Truncated);
    }
    let id = ((data[2] as u16) << 8) | data[3] as u16;
    assert(first >> 6 == first / 64) by (bit_vector);
    assert((first >> 4) & 0x03 == (first / 16) % 4) by (bit_vector);
    assert(second >> 5 == second / 32) by (bit_vector);
    assert(second & 0x1F == second % 32) by (bit_vector);
    assert(id == data@[2] * 256 + data@[3]) by {
        let high = data@[2];
        let low = data@[3];
        assert(((high as u16) << 8) | low as u16 == high as u16 * 256 + low as u16)
            by (bit_vector);
    }
    Ok(
        CoapMessageHeader {
            version: first >> 6,
            coap_type: (first >> 4) & 0x03,
            token_length,
            coap_class: second >> 5,
            code: second & 0x1F,
            id,
            token: slice_to_vec(slice_subrange(data, 4, 4 + token_length as usize)),
        },
    )
}

/// Decodes the options of the datagram in the first `number_of_bytes`
/// bytes of `udp_buffer`. They start behind the four fixed bytes and a
/// token of `option_start_pos` bytes.
pub fn parse_coap_options(option_start_pos: u8, udp_buffer: &[u8], number_of_bytes: usize) -> (r:
    Result<Vec<CoapOption>, DecodeError>)
    requires
        number_of_bytes <= udp_buffer@.len(),
    ensures
        match r {
            Ok(list) => {
                &&& decode_options(
                    datagram(udp_buffer@, number_of_bytes),
                    4 + option_start_pos,
                    0,
                ) matches Ok((options, _))
                &&& options == options_view(list@)
            },
            Err(e) => decode_options(datagram(udp_buffer@, number_of_bytes), 4 + option_start_pos, 0)
                == Err::<(Seq<OptionView>, int), DecodeError>(e),
        },
{
    let data = slice_subrange(udp_buffer, 0, number_of_bytes);
    match parse_options_from(data, option_start_pos as usize + 4) {
        Ok((list, _)) => Ok(list),
        Err(e) => Err(e),
    }
}

/// The payload of the datagram in the first `number_of_bytes` bytes of
/// `udp_buffer`: what follows the marker behind the options. It is empty
/// where there is no marker and where the datagram is no message.
pub fn parse_payload(udp_buffer: &[u8], number_of_bytes: usize) -> (payload: Vec<u8>)
    requires
        number_of_bytes <= udp_buffer@.len(),
    ensures
        payload@ == payload_of(datagram(udp_buffer@, number_of_bytes)),
{
    let data = slice_subrange(udp_buffer, 0, number_of_bytes);
    match parse_coap_header(udp_buffer, number_of_bytes) {
        Err(_) => Vec::new(),
        Ok(header) => match parse_options_from(data, 4 + header.token_length as usize) {
            Err(_) => Vec::new(),
            Ok((_, end)) => payload_after(data, end),
        },
    }
}

/// Decodes the datagram in the first `number_of_bytes` bytes of
/// `udp_buffer`. A message that comes out of this is well formed.
pub fn parse_message_from_datagram(udp_buffer: &[u8], number_of_bytes: usize) -> (r: Result<
    CoapMessage,
    DecodeError,
>)
    requires
        number_of_bytes <= udp_buffer@.len(),
    ensures
        match r {
            Ok(message) => decode_message(datagram(udp_buffer@, number_of_bytes)) == Ok::<
                MessageView,
                DecodeError,
            >(message@),
            Err(e) => decode_message(datagram(udp_buffer@, number_of_bytes)) == Err::<
                MessageView,
                DecodeError,
            >(e),
        },
        r matches Ok(message) ==> message@.wf(),
{
    proof {
        lemma_decoded_wf(datagram(udp_buffer@, number_of_bytes));
    }
    let data = slice_subrange(udp_buffer, 0, number_of_bytes);
    let header = match parse_coap_header(udp_buffer, number_of_bytes) {
        Ok(header) => header,
        Err(e) => {
            return Err(e);
        },
    };
    let (option_list, end) = match parse_options_from(data, 4 + header.token_length as usize) {
        Ok(found) => found,
        Err(e) => {
            return Err(e);
        },
    };
    let payload = payload_after(data, end);
    Ok(CoapMessage { header, option_list, payload })
}

} // verus!
