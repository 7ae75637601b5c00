use typed_store::buffer::Buffer;
use typed_store::codec::Codec;
use typed_store::error::ErrorKind;
use typed_store::{decode, encode};

fn bytes_of_u64(value: u64) -> Vec<u8> {
    let mut out = Vec::new();
    encode(&value, &mut out).unwrap();
    out
}

fn bytes_of_str(value: &str) -> Vec<u8> {
    let mut out = Vec::new();
    encode(&value.to_string(), &mut out).unwrap();
    out
}

#[test]
fn small_integers_take_one_byte() {
    assert_eq!(bytes_of_u64(0), vec![0]);
    assert_eq!(bytes_of_u64(100), vec![100]);
    assert_eq!(bytes_of_u64(250), vec![250]);
}

#[test]
fn integers_from_251_take_a_marker_and_two_bytes() {
    assert_eq!(bytes_of_u64(251), vec![251, 0, 251]);
    assert_eq!(bytes_of_u64(256), vec![251, 1, 0]);
    assert_eq!(bytes_of_u64(0x1234), vec![251, 0x12, 0x34]);
    assert_eq!(bytes_of_u64(0xffff), vec![251, 0xff, 0xff]);
}

#[test]
fn integers_from_two_bytes_up_take_a_marker_and_four_bytes() {
    assert_eq!(bytes_of_u64(0x1_0000), vec![252, 0, 1, 0, 0]);
    assert_eq!(bytes_of_u64(0x1234_5678), vec![252, 0x12, 0x34, 0x56, 0x78]);
    assert_eq!(bytes_of_u64(0xffff_ffff), vec![252, 0xff, 0xff, 0xff, 0xff]);
}

#[test]
fn integers_from_four_bytes_up_take_a_marker_and_eight_bytes() {
    assert_eq!(bytes_of_u64(0x1_0000_0000), vec![253, 0, 0, 0, 1, 0, 0, 0, 0]);
    assert_eq!(
        bytes_of_u64(0x0102_0304_0506_0708),
        vec![253, 1, 2, 3, 4, 5, 6, 7, 8]
    );
    assert_eq!(bytes_of_u64(u64::MAX), vec![253, 255, 255, 255, 255, 255, 255, 255, 255]);
}

#[test]
fn integers_come_back_from_their_encoding() {
    for value in [
        0u64,
        1,
        250,
        251,
        255,
        256,
        0xffff,
        0x1_0000,
        0xffff_ffff,
        0x1_0000_0000,
        u64::MAX - 1,
        u64::MAX,
    ] {
        let bytes = bytes_of_u64(value);
        assert_eq!(decode::<u64>(&bytes).unwrap(), value);
    }
}

#[test]
fn integer_in_a_longer_form_than_needed_is_read() {
    assert_eq!(decode::<u64>(&[251, 0, 5]).unwrap(), 5);
    assert_eq!(decode::<u64>(&[252, 0, 0, 0, 5]).unwrap(), 5);
    assert_eq!(decode::<u64>(&[253, 0, 0, 0, 0, 0, 0, 1, 0]).unwrap(), 256);
}

#[test]
fn integer_with_bytes_left_over_is_refused() {
    let error = decode::<u64>(&[5, 0]).unwrap_err();
    assert!(matches!(error.kind(), ErrorKind::Serde(_)));
    assert!(decode::<u64>(&[251, 0, 5, 9]).is_err());
}

#[test]
fn integer_cut_short_is_refused() {
    assert!(decode::<u64>(&[]).is_err());
    assert!(decode::<u64>(&[251]).is_err());
    assert!(decode::<u64>(&[251, 1]).is_err());
    assert!(decode::<u64>(&[252, 1, 2, 3]).is_err());
    assert!(decode::<u64>(&[253, 1, 2, 3, 4, 5, 6, 7]).is_err());
}

#[test]
fn integer_with_an_unknown_marker_is_refused() {
    assert!(decode::<u64>(&[254, 0, 0, 0, 0, 0, 0, 0, 0, 0, 0, 0, 0, 0, 0, 0, 1]).is_err());
    assert!(decode::<u64>(&[255]).is_err());
}

#[test]
fn strings_are_a_length_and_their_utf8_bytes() {
    assert_eq!(bytes_of_str(""), vec![0]);
    assert_eq!(bytes_of_str("alice"), vec![5, b'a', b'l', b'i', b'c', b'e']);
    assert_eq!(bytes_of_str("é"), vec![2, 0xc3, 0xa9]);
    assert_eq!(bytes_of_str("€"), vec![3, 0xe2, 0x82, 0xac]);
    assert_eq!(bytes_of_str("𝄞"), vec![4, 0xf0, 0x9d, 0x84, 0x9e]);
}

#[test]
fn long_string_has_a_length_of_three_bytes() {
    let text = "x".repeat(300);
    let bytes = bytes_of_str(&text);
    assert_eq!(&bytes[..3], &[251, 1, 44]);
    assert_eq!(&bytes[3..], text.as_bytes());
    assert_eq!(decode::<String>(&bytes).unwrap(), text);
}

#[test]
fn strings_come_back_from_their_encoding() {
    for text in ["", "alice", "naïve", "€uro", "𝄞 clef", "a\0b"] {
        let bytes = bytes_of_str(text);
        assert_eq!(decode::<String>(&bytes).unwrap(), text);
    }
}

#[test]
fn string_of_another_length_than_announced_is_refused() {
    assert!(decode::<String>(&[3, b'a', b'b']).is_err());
    assert!(decode::<String>(&[1, b'a', b'b']).is_err());
    assert!(decode::<String>(&[]).is_err());
}

#[test]
fn string_that_is_not_utf8_is_refused() {
    let error = decode::<String>(&[2, 0xc3, 0x28]).unwrap_err();
    assert!(matches!(error.kind(), ErrorKind::Serde(_)));
    assert!(decode::<String>(&[1, 0xff]).is_err());
    assert!(decode::<String>(&[3, 0xed, 0xa0, 0x80]).is_err());
}

#[test]
fn string_length_in_a_longer_form_than_needed_is_read() {
    assert_eq!(decode::<String>(&[251, 0, 2, b'h', b'i']).unwrap(), "hi");
}

#[test]
fn encode_appends_to_what_the_vector_holds() {
    let mut out = vec![9u8, 9];
    encode(&300u64, &mut out).unwrap();
    assert_eq!(out, vec![9, 9, 251, 1, 44]);
    encode(&"ab".to_string(), &mut out).unwrap();
    assert_eq!(out, vec![9, 9, 251, 1, 44, 2, b'a', b'b']);
}

#[test]
fn codec_methods_agree_with_the_free_functions() {
    let mut out = Vec::new();
    7u64.encode_into(&mut out).unwrap();
    assert_eq!(out, vec![7]);
    assert_eq!(u64::decode_from(&out).unwrap(), 7);
    let mut out = Vec::new();
    "k".to_string().encode_into(&mut out).unwrap();
    assert_eq!(String::decode_from(&out).unwrap(), "k");
}

#[test]
fn buffer_round_trip_gives_the_value_back() {
    let mut buffer = Buffer::default();
    let bytes = buffer.encode(&123_456_789u64).unwrap().to_vec();
    assert_eq!(decode::<u64>(&bytes).unwrap(), 123_456_789);
    let bytes = buffer.encode(&"bob".to_string()).unwrap().to_vec();
    assert_eq!(decode::<String>(&bytes).unwrap(), "bob");
}

fn next(state: &mut u64) -> u64 {
    *state = state.wrapping_mul(6364136223846793005).wrapping_add(1442695040888963407);
    *state
}

#[test]
fn integers_of_every_size_come_back() {
    let mut state = 7u64;
    for round in 0..2000 {
        let value = next(&mut state) >> (round % 64);
        let bytes = bytes_of_u64(value);
        let length = if value <= 250 {
            1
        } else if value <= 0xffff {
            3
        } else if value <= 0xffff_ffff {
            5
        } else {
            9
        };
        assert_eq!(bytes.len(), length);
        assert_eq!(&bytes[1..], &value.to_be_bytes()[9 - length..]);
        assert_eq!(decode::<u64>(&bytes).unwrap(), value);
    }
}

#[test]
fn strings_of_every_kind_come_back() {
    let mut state = 11u64;
    for round in 0..500 {
        let mut text = String::new();
        for _ in 0..(round % 40) {
            let code = (next(&mut state) >> 40) as u32 % 0x11_0000;
            if let Some(letter) = char::from_u32(code) {
                text.push(letter);
            }
        }
        let bytes = bytes_of_str(&text);
        assert_eq!(bytes[0] as usize, text.len());
        assert_eq!(&bytes[1..], text.as_bytes());
        assert_eq!(decode::<String>(&bytes).unwrap(), text);
    }
}

#[test]
fn arbitrary_bytes_are_decoded_or_refused() {
    let mut state = 13u64;
    for round in 0..2000 {
        let bytes: Vec<u8> = (0..(round % 12)).map(|_| (next(&mut state) >> 56) as u8).collect();
        if let Ok(value) = decode::<u64>(&bytes) {
            let first = bytes[0];
            assert!(first <= 253);
            let tail = &bytes[1..];
            assert_eq!(tail.len(), [0, 2, 4, 8][first.saturating_sub(250) as usize]);
            if first <= 250 {
                assert_eq!(value, first as u64);
            } else {
                let mut wide = [0u8; 8];
                wide[8 - tail.len()..].copy_from_slice(tail);
                assert_eq!(value, u64::from_be_bytes(wide));
            }
        }
        if let Ok(text) = decode::<String>(&bytes) {
            let head = bytes.len() - text.len();
            assert_eq!(&bytes[head..], text.as_bytes());
            assert_eq!(decode::<u64>(&bytes[..head]).unwrap(), text.len() as u64);
        }
    }
}
