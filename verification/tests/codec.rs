use coap_store::decode::{
    parse_coap_header, parse_coap_options, parse_message_from_datagram, parse_payload,
};
use coap_store::encode::{convert_message_to_buffer, is_well_formed};
use coap_store::error::DecodeError;
use coap_store::message::{CoapMessage, CoapMessageHeader, CoapOption};

fn header(token: Vec<u8>) -> CoapMessageHeader {
    CoapMessageHeader {
        version: 1,
        coap_type: 0,
        token_length: token.len() as u8,
        coap_class: 0,
        code: 1,
        id: 0x1234,
        token,
    }
}

fn option(number: u16, value: Vec<u8>) -> CoapOption {
    CoapOption { number, length: value.len() as u16, value }
}

fn message(token: Vec<u8>, option_list: Vec<CoapOption>, payload: Vec<u8>) -> CoapMessage {
    CoapMessage { header: header(token), option_list, payload }
}

fn decode(bytes: &[u8]) -> Result<CoapMessage, DecodeError> {
    parse_message_from_datagram(bytes, bytes.len())
}

fn round_trip(m: &CoapMessage) -> CoapMessage {
    assert!(is_well_formed(m));
    let bytes = convert_message_to_buffer(m);
    decode(&bytes).expect("an encoded message decodes")
}

#[test]
fn decodes_a_bare_header() {
    let m = decode(&[0x40, 0x01, 0x12, 0x34]).unwrap();
    assert_eq!(m.header.version, 1);
    assert_eq!(m.header.coap_type, 0);
    assert_eq!(m.header.token_length, 0);
    assert_eq!(m.header.coap_class, 0);
    assert_eq!(m.header.code, 1);
    assert_eq!(m.header.id, 0x1234);
    assert_eq!(m.header.token, Vec::<u8>::new());
    assert!(m.option_list.is_empty());
    assert!(m.payload.is_empty());
}

#[test]
fn decodes_every_header_field() {
    // version 2, type 3, token length 2; class 5, code 17; id 0xBEEF
    let m = decode(&[0b10_11_0010, 0b101_10001, 0xBE, 0xEF, 0xAA, 0xBB]).unwrap();
    assert_eq!(m.header.version, 2);
    assert_eq!(m.header.coap_type, 3);
    assert_eq!(m.header.token_length, 2);
    assert_eq!(m.header.coap_class, 5);
    assert_eq!(m.header.code, 17);
    assert_eq!(m.header.id, 0xBEEF);
    assert_eq!(m.header.token, vec![0xAA, 0xBB]);
}

#[test]
fn message_id_is_big_endian() {
    let m = decode(&[0x40, 0x01, 0x01, 0x02]).unwrap();
    assert_eq!(m.header.id, 0x0102);
    let bytes = convert_message_to_buffer(&m);
    assert_eq!(bytes, vec![0x40, 0x01, 0x01, 0x02]);
}

#[test]
fn header_of_fewer_than_four_bytes_is_too_short() {
    assert_eq!(decode(&[]), Err(DecodeError::HeaderTooShort));
    assert_eq!(decode(&[0x40]), Err(DecodeError::HeaderTooShort));
    assert_eq!(decode(&[0x40, 0x01, 0x12]), Err(DecodeError::HeaderTooShort));
    assert_eq!(parse_coap_header(&[0x40, 0x01, 0x12], 3), Err(DecodeError::HeaderTooShort));
}

#[test]
fn only_the_valid_length_counts() {
    // the buffer is longer than the datagram
    let buffer = [0x40, 0x01, 0x12, 0x34, 0xB1, 0x61, 0xFF, 0x07];
    assert_eq!(parse_message_from_datagram(&buffer, 3), Err(DecodeError::HeaderTooShort));
    let bare = parse_message_from_datagram(&buffer, 4).unwrap();
    assert!(bare.option_list.is_empty());
    assert!(bare.payload.is_empty());
    let with_option = parse_message_from_datagram(&buffer, 6).unwrap();
    assert_eq!(with_option.option_list, vec![option(11, vec![0x61])]);
    assert!(with_option.payload.is_empty());
    let with_marker = parse_message_from_datagram(&buffer, 7).unwrap();
    assert!(with_marker.payload.is_empty());
    let whole = parse_message_from_datagram(&buffer, 8).unwrap();
    assert_eq!(whole.payload, vec![0x07]);
    assert_eq!(parse_message_from_datagram(&buffer, 5), Err(DecodeError::Truncated));
}

#[test]
fn token_length_zero_decodes() {
    let m = decode(&[0x40, 0x01, 0x00, 0x01]).unwrap();
    assert_eq!(m.header.token_length, 0);
    assert!(m.header.token.is_empty());
}

#[test]
fn token_length_eight_decodes() {
    let m = decode(&[0x48, 0x01, 0x00, 0x01, 1, 2, 3, 4, 5, 6, 7, 8]).unwrap();
    assert_eq!(m.header.token_length, 8);
    assert_eq!(m.header.token, vec![1, 2, 3, 4, 5, 6, 7, 8]);
    assert!(m.option_list.is_empty());
}

#[test]
fn token_length_nine_is_too_long() {
    let bytes = [0x49, 0x01, 0x00, 0x01, 1, 2, 3, 4, 5, 6, 7, 8, 9];
    assert_eq!(decode(&bytes), Err(DecodeError::TokenTooLong));
    assert_eq!(parse_coap_header(&bytes, bytes.len()), Err(DecodeError::TokenTooLong));
    // also where the bytes are not there
    assert_eq!(decode(&[0x4F, 0x01, 0x00, 0x01]), Err(DecodeError::TokenTooLong));
}

#[test]
fn token_that_runs_past_the_end_is_truncated() {
    assert_eq!(decode(&[0x42, 0x01, 0x00, 0x01, 0xAA]), Err(DecodeError::Truncated));
}

#[test]
fn decodes_an_option_with_a_nibble_delta() {
    let m = decode(&[0x40, 0x01, 0, 1, 0xB3, b'a', b'b', b'c']).unwrap();
    assert_eq!(m.option_list, vec![option(11, b"abc".to_vec())]);
}

#[test]
fn option_numbers_accumulate() {
    // deltas 3, 8, 0, 1
    let bytes = [0x40, 0x01, 0, 1, 0x31, b'h', 0x81, b'x', 0x01, b'y', 0x10];
    let m = decode(&bytes).unwrap();
    assert_eq!(
        m.option_list,
        vec![
            option(3, vec![b'h']),
            option(11, vec![b'x']),
            option(11, vec![b'y']),
            option(12, vec![]),
        ]
    );
    assert_eq!(parse_coap_options(0, &bytes, bytes.len()).unwrap(), m.option_list);
}

#[test]
fn delta_twelve_is_a_nibble() {
    let m = message(vec![], vec![option(12, vec![])], vec![]);
    assert_eq!(convert_message_to_buffer(&m), vec![0x40, 0x01, 0x12, 0x34, 0xC0]);
    assert_eq!(round_trip(&m), m);
}

#[test]
fn delta_thirteen_takes_one_more_byte() {
    let m = message(vec![], vec![option(13, vec![])], vec![]);
    assert_eq!(convert_message_to_buffer(&m), vec![0x40, 0x01, 0x12, 0x34, 0xD0, 0x00]);
    assert_eq!(round_trip(&m), m);
}

#[test]
fn delta_268_is_the_last_of_one_byte() {
    let m = message(vec![], vec![option(268, vec![])], vec![]);
    assert_eq!(convert_message_to_buffer(&m), vec![0x40, 0x01, 0x12, 0x34, 0xD0, 0xFF]);
    assert_eq!(round_trip(&m), m);
}

#[test]
fn delta_269_takes_two_more_bytes() {
    let m = message(vec![], vec![option(269, vec![])], vec![]);
    assert_eq!(convert_message_to_buffer(&m), vec![0x40, 0x01, 0x12, 0x34, 0xE0, 0x00, 0x00]);
    assert_eq!(round_trip(&m), m);
}

#[test]
fn delta_300_comes_back() {
    let m = message(vec![], vec![option(300, vec![7])], vec![]);
    let bytes = convert_message_to_buffer(&m);
    assert_eq!(bytes, vec![0x40, 0x01, 0x12, 0x34, 0xE1, 0x00, 31, 7]);
    let back = decode(&bytes).unwrap();
    assert_eq!(back.option_list[0].number, 300);
    assert_eq!(back, m);
}

#[test]
fn delta_of_two_bytes_is_big_endian() {
    // 0x0102 + 269 = 527
    let m = decode(&[0x40, 0x01, 0, 1, 0xE0, 0x01, 0x02]).unwrap();
    assert_eq!(m.option_list, vec![option(527, vec![])]);
}

#[test]
fn largest_option_number_comes_back() {
    let m = message(vec![], vec![option(65535, vec![1, 2])], vec![]);
    let bytes = convert_message_to_buffer(&m);
    // 65535 - 269 = 0xFEF2
    assert_eq!(bytes, vec![0x40, 0x01, 0x12, 0x34, 0xE2, 0xFE, 0xF2, 1, 2]);
    assert_eq!(decode(&bytes).unwrap(), m);
}

#[test]
fn length_tiers_come_back() {
    for length in [0usize, 1, 12, 13, 14, 268, 269, 270, 300, 1000] {
        let m = message(vec![9], vec![option(11, vec![0x41; length])], vec![1, 2, 3]);
        assert_eq!(round_trip(&m), m, "length {}", length);
    }
}

#[test]
fn length_thirteen_takes_one_more_byte() {
    let m = message(vec![], vec![option(1, vec![0x55; 13])], vec![]);
    let bytes = convert_message_to_buffer(&m);
    assert_eq!(&bytes[..6], &[0x40, 0x01, 0x12, 0x34, 0x1D, 0x00]);
    assert_eq!(bytes.len(), 6 + 13);
}

#[test]
fn length_269_takes_two_more_bytes() {
    let m = message(vec![], vec![option(1, vec![0x55; 269])], vec![]);
    let bytes = convert_message_to_buffer(&m);
    assert_eq!(&bytes[..7], &[0x40, 0x01, 0x12, 0x34, 0x1E, 0x00, 0x00]);
    assert_eq!(bytes.len(), 7 + 269);
}

#[test]
fn extended_delta_stands_before_extended_length() {
    // delta 20 = 13 + 7, length 14 = 13 + 1
    let m = message(vec![], vec![option(20, vec![0x33; 14])], vec![]);
    let bytes = convert_message_to_buffer(&m);
    assert_eq!(&bytes[..7], &[0x40, 0x01, 0x12, 0x34, 0xDD, 7, 1]);
    assert_eq!(decode(&bytes).unwrap(), m);
}

#[test]
fn reserved_delta_nibble_fails() {
    assert_eq!(decode(&[0x40, 0x01, 0, 1, 0xF0]), Err(DecodeError::ReservedDelta));
    assert_eq!(decode(&[0x40, 0x01, 0, 1, 0xF1, 0x00]), Err(DecodeError::ReservedDelta));
    assert_eq!(
        parse_coap_options(0, &[0x40, 0x01, 0, 1, 0xF0], 5),
        Err(DecodeError::ReservedDelta)
    );
}

#[test]
fn reserved_length_nibble_fails() {
    assert_eq!(decode(&[0x40, 0x01, 0, 1, 0x0F]), Err(DecodeError::ReservedLength));
    assert_eq!(decode(&[0x40, 0x01, 0, 1, 0xDF, 0x00]), Err(DecodeError::ReservedLength));
}

#[test]
fn reserved_nibble_after_good_options_fails_the_whole() {
    let bytes = [0x40, 0x01, 0, 1, 0xB1, b'a', 0x01, b'b', 0x1F, 0xFF, 1];
    assert_eq!(decode(&bytes), Err(DecodeError::ReservedLength));
    let bytes = [0x40, 0x01, 0, 1, 0xB1, b'a', 0xF2, 0xFF, 1];
    assert_eq!(decode(&bytes), Err(DecodeError::ReservedDelta));
}

#[test]
fn option_that_runs_past_the_end_is_truncated() {
    // value of three bytes, two are there
    assert_eq!(decode(&[0x40, 0x01, 0, 1, 0xB3, b'a', b'b']), Err(DecodeError::Truncated));
    // extended delta is missing
    assert_eq!(decode(&[0x40, 0x01, 0, 1, 0xD0]), Err(DecodeError::Truncated));
    // second byte of the extended length is missing
    assert_eq!(decode(&[0x40, 0x01, 0, 1, 0x0E, 0x00]), Err(DecodeError::Truncated));
}

#[test]
fn option_number_beyond_sixteen_bits_is_out_of_range() {
    // 65535, then a delta of 1
    let bytes = [0x40, 0x01, 0, 1, 0xE0, 0xFE, 0xF2, 0x10];
    assert_eq!(decode(&bytes), Err(DecodeError::OutOfRange));
    // a delta of 65535 + 269
    let bytes = [0x40, 0x01, 0, 1, 0xE0, 0xFF, 0xFF];
    assert_eq!(decode(&bytes), Err(DecodeError::OutOfRange));
}

#[test]
fn option_length_beyond_sixteen_bits_is_out_of_range() {
    // a length of 0xFFFF + 269
    let bytes = [0x40, 0x01, 0, 1, 0x0E, 0xFF, 0xFF];
    assert_eq!(decode(&bytes), Err(DecodeError::OutOfRange));
}

#[test]
fn payload_follows_the_marker() {
    let m = decode(&[0x40, 0x01, 0, 1, 0xFF, 1, 2, 3]).unwrap();
    assert!(m.option_list.is_empty());
    assert_eq!(m.payload, vec![1, 2, 3]);
}

#[test]
fn marker_without_payload_gives_an_empty_payload() {
    let m = decode(&[0x40, 0x01, 0, 1, 0xB1, b'a', 0xFF]).unwrap();
    assert_eq!(m.option_list, vec![option(11, vec![b'a'])]);
    assert!(m.payload.is_empty());
}

#[test]
fn payload_may_hold_zeros_and_markers() {
    let m = message(vec![], vec![option(11, vec![b'r'])], vec![0, 0xFF, 0, 0xFF, 0xFF, 0]);
    let bytes = convert_message_to_buffer(&m);
    assert_eq!(
        bytes,
        vec![0x40, 0x01, 0x12, 0x34, 0xB1, b'r', 0xFF, 0, 0xFF, 0, 0xFF, 0xFF, 0]
    );
    assert_eq!(decode(&bytes).unwrap(), m);
}

#[test]
fn empty_payload_has_no_marker() {
    let m = message(vec![1], vec![option(11, vec![b'r'])], vec![]);
    assert_eq!(convert_message_to_buffer(&m), vec![0x41, 0x01, 0x12, 0x34, 1, 0xB1, b'r']);
}

#[test]
fn marker_bytes_in_token_and_values_are_no_marker() {
    let m = message(vec![0xFF, 0xFF], vec![option(11, vec![0xFF, 0x00, 0xFF])], vec![5]);
    let bytes = convert_message_to_buffer(&m);
    assert_eq!(decode(&bytes).unwrap(), m);
    assert_eq!(parse_payload(&bytes, bytes.len()), vec![5]);
    // the id holds the marker byte too
    let bytes = [0x40, 0x01, 0xFF, 0xFF, 0xFF, 9];
    assert_eq!(parse_payload(&bytes, bytes.len()), vec![9]);
}

#[test]
fn payload_of_what_is_no_message_is_empty() {
    assert_eq!(parse_payload(&[0x40, 0x01], 2), Vec::<u8>::new());
    assert_eq!(parse_payload(&[0x40, 0x01, 0, 1, 0xF0, 0xFF, 1], 7), Vec::<u8>::new());
    assert_eq!(parse_payload(&[0x40, 0x01, 0, 1], 4), Vec::<u8>::new());
}

#[test]
fn header_alone_is_parsed_from_a_longer_datagram() {
    let bytes = [0x61, 0x45, 0xAB, 0xCD, 0x77, 0xF0];
    let h = parse_coap_header(&bytes, bytes.len()).unwrap();
    assert_eq!(
        h,
        CoapMessageHeader {
            version: 1,
            coap_type: 2,
            token_length: 1,
            coap_class: 2,
            code: 5,
            id: 0xABCD,
            token: vec![0x77],
        }
    );
}

#[test]
fn options_start_behind_the_token() {
    let bytes = [0x42, 0x01, 0, 1, 0xB1, 0xB1, 0x31, b'h'];
    // with a token of two bytes the first option is 0x31
    assert_eq!(parse_coap_options(2, &bytes, bytes.len()).unwrap(), vec![option(3, vec![b'h'])]);
    // a start behind the end gives no options
    assert_eq!(parse_coap_options(200, &bytes, bytes.len()).unwrap(), vec![]);
}

#[test]
fn encodes_every_header_field() {
    let m = CoapMessage {
        header: CoapMessageHeader {
            version: 3,
            coap_type: 2,
            token_length: 3,
            coap_class: 7,
            code: 31,
            id: 0x00FF,
            token: vec![1, 2, 3],
        },
        option_list: vec![],
        payload: vec![],
    };
    assert!(is_well_formed(&m));
    assert_eq!(
        convert_message_to_buffer(&m),
        vec![0b11_10_0011, 0b111_11111, 0x00, 0xFF, 1, 2, 3]
    );
    assert_eq!(round_trip(&m), m);
}

#[test]
fn round_trip_of_a_request() {
    let m = message(
        vec![0xDE, 0xAD],
        vec![
            option(3, b"localhost".to_vec()),
            option(11, b"sensors".to_vec()),
            option(11, b"temperature-of-the-second-floor".to_vec()),
            option(12, vec![0]),
            option(60, vec![0x01, 0x00]),
            option(2048, vec![0xFF; 300]),
            option(65535, vec![]),
        ],
        b"22.5 C".to_vec(),
    );
    assert_eq!(round_trip(&m), m);
}

#[test]
fn round_trip_of_many_messages() {
    let mut seed: u32 = 0x2545_F491;
    let mut next = move || {
        seed ^= seed << 13;
        seed ^= seed >> 17;
        seed ^= seed << 5;
        seed
    };
    for _ in 0..200 {
        let token: Vec<u8> = (0..next() % 9).map(|_| next() as u8).collect();
        let mut number: u32 = 0;
        let mut option_list = Vec::new();
        for _ in 0..next() % 6 {
            let step = [0, 1, 12, 13, 14, 268, 269, 270, 300, 5000][(next() % 10) as usize];
            if number + step > 65535 {
                break;
            }
            number += step;
            let length = [0, 1, 12, 13, 268, 269, 400][(next() % 7) as usize];
            option_list.push(option(number as u16, (0..length).map(|_| next() as u8).collect()));
        }
        let payload: Vec<u8> = (0..next() % 20).map(|_| next() as u8).collect();
        let m = CoapMessage {
            header: CoapMessageHeader {
                version: (next() % 4) as u8,
                coap_type: (next() % 4) as u8,
                token_length: token.len() as u8,
                coap_class: (next() % 8) as u8,
                code: (next() % 32) as u8,
                id: next() as u16,
                token,
            },
            option_list,
            payload,
        };
        assert_eq!(round_trip(&m), m);
    }
}

#[test]
fn what_decodes_is_well_formed() {
    let m = decode(&[0x7B, 0xFF, 0xFF, 0xFF, 1, 2, 3, 4, 5, 6, 7, 8, 0, 0, 0xE0, 0, 0]);
    assert_eq!(m, Err(DecodeError::TokenTooLong));
    let m = decode(&[0xF8, 0xFF, 0xFF, 0xFF, 1, 2, 3, 4, 5, 6, 7, 8, 0, 0, 0xE0, 0, 0]).unwrap();
    assert!(is_well_formed(&m));
    assert_eq!(m.option_list.len(), 3);
    assert_eq!(m.option_list[2].number, 269);
}

#[test]
fn falling_option_numbers_are_not_well_formed() {
    let m = message(vec![], vec![option(11, vec![]), option(3, vec![])], vec![]);
    assert!(!is_well_formed(&m));
    let m = message(vec![], vec![option(11, vec![]), option(11, vec![])], vec![]);
    assert!(is_well_formed(&m));
}

#[test]
fn wrong_lengths_are_not_well_formed() {
    let mut m = message(vec![1, 2], vec![option(11, vec![1])], vec![]);
    assert!(is_well_formed(&m));
    m.header.token_length = 3;
    assert!(!is_well_formed(&m));
    m.header.token_length = 2;
    m.option_list[0].length = 2;
    assert!(!is_well_formed(&m));
    m.option_list[0].length = 1;
    assert!(is_well_formed(&m));
}

#[test]
fn fields_that_do_not_fit_are_not_well_formed() {
    let good = message(vec![], vec![], vec![]);
    let mut m = good.clone();
    m.header.version = 4;
    assert!(!is_well_formed(&m));
    let mut m = good.clone();
    m.header.coap_type = 4;
    assert!(!is_well_formed(&m));
    let mut m = good.clone();
    m.header.coap_class = 8;
    assert!(!is_well_formed(&m));
    let mut m = good.clone();
    m.header.code = 32;
    assert!(!is_well_formed(&m));
    let mut m = good.clone();
    m.header.token = vec![0; 9];
    m.header.token_length = 9;
    assert!(!is_well_formed(&m));
}
