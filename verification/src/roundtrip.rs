//! Decoding undoes encoding.

use vstd::prelude::*;
use crate::error::DecodeError;
use crate::message::{options_wf, HeaderView, MessageView, OptionView};
use crate::wire::{
    decode_header, decode_message, decode_option, decode_options, decode_payload, encode_header,
    encode_message, encode_option, encode_options, encode_payload, extension_len, field_extension,
    field_nibble, field_value, options_end_at,
};

verus! {

/// The three tiers of a delta or length. Up to 12 the value is its own
/// nibble and has no extension; from 13 to 268 the nibble is 13 and one
/// byte holds the value less 13; from 269 on the nibble is 14 and two bytes
/// hold the value less 269, the high byte first. In each tier the nibble
/// and the extension together give the value back.
pub proof fn lemma_field_tiers(value: nat)
    requires
        value <= 0xFFFF + 269,
    ensures
        value <= 12 ==> field_nibble(value) == value && field_extension(value).len() == 0,
        13 <= value <= 268 ==> field_nibble(value) == 13 && field_extension(value) == seq![
            (value - 13) as u8,
        ],
        269 <= value ==> field_nibble(value) == 14 && field_extension(value) == seq![
            ((value - 269) / 256) as u8,
            ((value - 269) % 256) as u8,
        ],
        field_nibble(value) <= 14,
        field_extension(value).len() == extension_len(field_nibble(value)),
        field_value(field_nibble(value), field_extension(value)) == value,
{
}

/// The first byte of an encoded option gives back both nibbles.
proof fn lemma_option_head(delta_nibble: nat, length_nibble: nat)
    requires
        delta_nibble <= 14,
        length_nibble <= 14,
    ensures
        ((delta_nibble * 16 + length_nibble) as u8) / 16 == delta_nibble,
        ((delta_nibble * 16 + length_nibble) as u8) % 16 == length_nibble,
        (delta_nibble * 16 + length_nibble) as u8 != 0xFF,
{
}

/// An encoded option that stands at `pos` is decoded to the option, and
/// decoding stops just behind it.
pub proof fn lemma_decode_encoded_option(bytes: Seq<u8>, pos: int, option: OptionView, prev: nat)
    requires
        0 <= pos,
        option.wf_after(prev),
        pos + encode_option(option, prev).len() <= bytes.len(),
        bytes.subrange(pos, pos + encode_option(option, prev).len()) == encode_option(
            option,
            prev,
        ),
    ensures
        !options_end_at(bytes, pos),
        decode_option(bytes, pos, prev) == Ok::<(OptionView, int), DecodeError>(
            (option, pos + encode_option(option, prev).len()),
        ),
{
    let delta = (option.number - prev) as nat;
    let encoded = encode_option(option, prev);
    let delta_nibble = field_nibble(delta);
    let length_nibble = field_nibble(option.length);
    let delta_ext = field_extension(delta);
    let length_ext = field_extension(option.length);
    lemma_field_tiers(delta);
    lemma_field_tiers(option.length);
    lemma_option_head(delta_nibble, length_nibble);
    let delta_at = pos + 1;
    let length_at = delta_at + delta_ext.len();
    let value_at = length_at + length_ext.len();
    assert(encoded.len() == 1 + delta_ext.len() + length_ext.len() + option.value.len());
    assert forall|k: int| 0 <= k < encoded.len() implies bytes[pos + k] == encoded[k] by {
        assert(bytes.subrange(pos, pos + encoded.len())[k] == bytes[pos + k]);
    }
    assert(bytes[pos] == encoded[0]);
    assert(bytes.subrange(delta_at, length_at) =~= delta_ext) by {
        assert forall|k: int| 0 <= k < delta_ext.len() implies bytes[delta_at + k]
            == delta_ext[k] by {
            assert(encoded[1 + k] == delta_ext[k]);
        }
    }
    assert(bytes.subrange(length_at, value_at) =~= length_ext) by {
        assert forall|k: int| 0 <= k < length_ext.len() implies bytes[length_at + k]
            == length_ext[k] by {
            assert(encoded[1 + delta_ext.len() + k] == length_ext[k]);
        }
    }
    assert(bytes.subrange(value_at, value_at + option.length) =~= option.value) by {
        assert forall|k: int| 0 <= k < option.value.len() implies bytes[value_at + k]
            == option.value[k] by {
            assert(encoded[1 + delta_ext.len() + length_ext.len() + k] == option.value[k]);
        }
    }
}

/// Encoded options that stand at `pos` and reach to a payload marker or to
/// the end of the datagram are decoded to the options.
pub proof fn lemma_decode_encoded_options(
    bytes: Seq<u8>,
    pos: int,
    options: Seq<OptionView>,
    prev: nat,
)
    requires
        0 <= pos,
        options_wf(options, prev),
        pos + encode_options(options, prev).len() <= bytes.len(),
        bytes.subrange(pos, pos + encode_options(options, prev).len()) == encode_options(
            options,
            prev,
        ),
        options_end_at(bytes, pos + encode_options(options, prev).len()),
    ensures
        decode_options(bytes, pos, prev) == Ok::<(Seq<OptionView>, int), DecodeError>(
            (options, pos + encode_options(options, prev).len()),
        ),
    decreases options.len(),
{
    let encoded = encode_options(options, prev);
    if options.len() == 0 {
        assert(options =~= Seq::<OptionView>::empty());
    } else {
        let first = options[0];
        let rest = options.drop_first();
        let head = encode_option(first, prev);
        let tail = encode_options(rest, first.number);
        let next = pos + head.len();
        assert(encoded == head + tail);
        assert(bytes.subrange(pos, next) =~= head) by {
            assert forall|k: int| 0 <= k < head.len() implies bytes[pos + k] == head[k] by {
                assert(bytes.subrange(pos, pos + encoded.len())[k] == encoded[k]);
            }
        }
        assert(bytes.subrange(next, next + tail.len()) =~= tail) by {
            assert forall|k: int| 0 <= k < tail.len() implies bytes[next + k] == tail[k] by {
                assert(bytes.subrange(pos, pos + encoded.len())[head.len() + k] == encoded[head.len()
                    + k]);
            }
        }
        lemma_decode_encoded_option(bytes, pos, first, prev);
        lemma_decode_encoded_options(bytes, next, rest, first.number);
        assert(seq![first] + rest =~= options);
    }
}

/// An encoded header is decoded to the header.
pub proof fn lemma_decode_encoded_header(header: HeaderView, rest: Seq<u8>)
    requires
        header.wf(),
    ensures
        decode_header(encode_header(header) + rest) == Ok::<HeaderView, DecodeError>(header),
{
    let bytes = encode_header(header) + rest;
    let first = (header.version * 64 + header.coap_type * 16 + header.token_length) as u8;
    let second = (header.coap_class * 32 + header.code) as u8;
    assert(bytes[0] == first);
    assert(bytes[1] == second);
    assert(bytes[2] == (header.id / 256) as u8);
    assert(bytes[3] == (header.id % 256) as u8);
    assert(bytes.subrange(4, 4 + header.token_length as int) =~= header.token);
}

/// Round trip: a well-formed message is what decoding its encoding gives.
///
/// Well formed means that every header field fits its place on the wire,
/// that the token and every option value have the announced length, and
/// that no option number is below the one before it.
pub proof fn theorem_decode_encode(message: MessageView)
    requires
        message.wf(),
    ensures
        decode_message(encode_message(message)) == Ok::<MessageView, DecodeError>(message),
{
    let head = encode_header(message.header);
    let options = encode_options(message.options, 0);
    let payload = encode_payload(message.payload);
    let bytes = encode_message(message);
    let start = 4 + message.header.token_length as int;
    let end = start + options.len();
    assert(bytes == head + (options + payload)) by {
        assert(head + options + payload =~= head + (options + payload));
    }
    lemma_decode_encoded_header(message.header, options + payload);
    assert(head.len() == start);
    assert(bytes.subrange(start, end) =~= options);
    assert(options_end_at(bytes, end)) by {
        if message.payload.len() > 0 {
            assert(bytes[end] == payload[0]);
        }
    }
    lemma_decode_encoded_options(bytes, start, message.options, 0);
    assert(decode_payload(bytes, end) =~= message.payload) by {
        if message.payload.len() > 0 {
            assert forall|k: int| 0 <= k < message.payload.len() implies bytes[end + 1 + k]
                == message.payload[k] by {
                assert(payload[1 + k] == message.payload[k]);
            }
        }
    }
}

} // verus!
