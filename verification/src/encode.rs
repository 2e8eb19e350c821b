//! Encoding a message into a datagram.

use vstd::prelude::*;
use crate::message::{options_view, options_wf, CoapMessage, CoapMessageHeader, CoapOption};
use crate::wire::{
    encode_header, encode_message, encode_option, encode_options, encode_payload, field_extension,
    field_nibble,
};

verus! {

/// The nibble that announces `value`.
fn nibble_of(value: u16) -> (nibble: u8)
    ensures
        nibble == field_nibble(value as nat),
        nibble <= 14,
{
    if value <= 12 {
        value as u8
    } else if value <= 268 {
        13
    } else {
        14
    }
}

/// Appends the extension bytes of a delta or length of `value`.
fn push_field_extension(buffer: &mut Vec<u8>, value: u16)
    ensures
        final(buffer)@ == old(buffer)@ + field_extension(value as nat),
{
    if 13 <= value && value <= 268 {
        buffer.push((value - 13) as u8);
    } else if 269 <= value {
        let rest = value - 269;
        let high = (rest >> 8) as u8;
        let low = (rest & 0xFF) as u8;
        assert(rest >> 8 == rest / 256 && rest & 0xFF == rest % 256) by (bit_vector);
        buffer.push(high);
        buffer.push(low);
    }
}

/// Appends the header: the four fixed bytes and the token.
fn push_header(buffer: &mut Vec<u8>, header: &CoapMessageHeader)
    requires
        header@.wf(),
    ensures
        final(buffer)@ == old(buffer)@ + encode_header(header@),
{
    let version = header.version;
    let coap_type = header.coap_type;
    let token_length = header.token_length;
    let coap_class = header.coap_class;
    let code = header.code;
    let id = header.id;
    assert((version << 6 | coap_type << 4 | token_length) == version * 64 + coap_type * 16
        + token_length) by (bit_vector)
        requires
            version < 4,
            coap_type < 4,
            token_length <= 8,
    ;
    assert((coap_class << 5 | code) == coap_class * 32 + code) by (bit_vector)
        requires
            coap_class < 8,
            code < 32,
    ;
    assert(id >> 8 == id / 256 && id & 0xFF == id % 256) by (bit_vector);
    buffer.push(version << 6 | coap_type << 4 | token_length);
    buffer.push(coap_class << 5 | code);
    buffer.push((id >> 8) as u8);
    buffer.push((id & 0xFF) as u8);
    buffer.extend_from_slice(header.token.as_slice());
}

/// Appends one option that follows an option numbered `prev`.
fn push_option(buffer: &mut Vec<u8>, option: &CoapOption, prev: u16)
    requires
        option@.wf_after(prev as nat),
    ensures
        final(buffer)@ == old(buffer)@ + encode_option(option@, prev as nat),
{
    let delta = option.number - prev;
    let delta_nibble = nibble_of(delta);
    let length_nibble = nibble_of(option.length);
    assert((delta_nibble << 4 | length_nibble) == delta_nibble * 16 + length_nibble)
        by (bit_vector)
        requires
            delta_nibble <= 14,
            length_nibble <= 14,
    ;
    buffer.push(delta_nibble << 4 | length_nibble);
    push_field_extension(buffer, delta);
    push_field_extension(buffer, option.length);
    buffer.extend_from_slice(option.value.as_slice());
}

/// Whether the message has an encoding: every header field fits its place
/// on the wire, the token has the announced length, no option number is
/// below the one before it, and every option has the announced length.
pub fn is_well_formed(message: &CoapMessage) -> (ok: bool)
    ensures
        ok == message@.wf(),
{
    let header = &message.header;
    if !(header.version < 4 && header.coap_type < 4 && header.token_length <= 8
        && header.token.len() == header.token_length as usize && header.coap_class < 8
        && header.code < 32) {
        return false;
    }
    let ghost options = options_view(message.option_list@);
    let mut prev: u16 = 0;
    let mut i: usize = 0;
    assert(options.skip(0) =~= options);
    while i < message.option_list.len()
        invariant
            i <= message.option_list@.len(),
            options == options_view(message.option_list@),
            options_wf(options, 0) == options_wf(options.skip(i as int), prev as nat),
        decreases message.option_list@.len() - i,
    {
        let option = &message.option_list[i];
        assert(options.skip(i as int).drop_first() =~= options.skip(i + 1));
        if option.number < prev || option.value.len() != option.length as usize {
            return false;
        }
        prev = option.number;
        i += 1;
    }
    true
}

/// Encodes a message into the bytes of its datagram.
///
/// The message has to be well formed; [`is_well_formed`] tells.
pub fn convert_message_to_buffer(message: &CoapMessage) -> (buffer: Vec<u8>)
    requires
        message@.wf(),
    ensures
        buffer@ == encode_message(message@),
{
    let mut buffer: Vec<u8> = Vec::new();
    push_header(&mut buffer, &message.header);
    let ghost options = options_view(message.option_list@);
    let ghost head = encode_header(message.header@);
    let mut last_number: u16 = 0;
    let mut i: usize = 0;
    assert(options.skip(0) =~= options);
    while i < message.option_list.len()
        invariant
            i <= message.option_list@.len(),
            options == options_view(message.option_list@),
            options_wf(options.skip(i as int), last_number as nat),
            head + encode_options(options, 0) == buffer@ + encode_options(
                options.skip(i as int),
                last_number as nat,
            ),
        decreases message.option_list@.len() - i,
    {
        let option = &message.option_list[i];
        assert(options.skip(i as int).drop_first() =~= options.skip(i + 1));
        push_option(&mut buffer, option, last_number);
        last_number = option.number;
        i += 1;
    }
    if !message.payload.is_empty() {
        buffer.push(0xFF);
        buffer.extend_from_slice(message.payload.as_slice());
    }
    buffer
}

} // verus!
