use smart_cache::codec::{decode_i32, decode_string, decode_u64, encode_i32, encode_string, encode_u64};
use smart_cache::{DecodeError, EncodingError};

#[test]
fn u64_is_encoded_in_eight_bytes_lowest_first() {
    assert_eq!(encode_u64(1), Ok(vec![1, 0, 0, 0, 0, 0, 0, 0]));
    assert_eq!(
        encode_u64(0x0102_0304_0506_0708),
        Ok(vec![8, 7, 6, 5, 4, 3, 2, 1])
    );
    assert_eq!(encode_u64(u64::MAX), Ok(vec![255; 8]));
}

#[test]
fn u64_is_decoded_from_the_last_eight_bytes() {
    assert_eq!(decode_u64(&[8, 7, 6, 5, 4, 3, 2, 1]), Ok(0x0102_0304_0506_0708));
    assert_eq!(decode_u64(&[9, 9, 9, 1, 0, 0, 0, 0, 0, 0, 0]), Ok(1));
}

#[test]
fn u64_is_refused_in_fewer_than_eight_bytes() {
    assert_eq!(decode_u64(&[]), Err(DecodeError::Malformed));
    assert_eq!(decode_u64(&[1, 2, 3, 4, 5, 6, 7]), Err(DecodeError::Malformed));
}

#[test]
fn u64_round_trip() {
    for value in [0u64, 1, 55, 1 << 40, u64::MAX] {
        assert_eq!(decode_u64(&encode_u64(value).unwrap()), Ok(value));
    }
}

#[test]
fn i32_is_encoded_in_four_bytes_of_twos_complement() {
    assert_eq!(encode_i32(2), Ok(vec![2, 0, 0, 0]));
    assert_eq!(encode_i32(-1), Ok(vec![255, 255, 255, 255]));
    assert_eq!(encode_i32(-2), Ok(vec![254, 255, 255, 255]));
    assert_eq!(encode_i32(i32::MIN), Ok(vec![0, 0, 0, 128]));
}

#[test]
fn i32_is_decoded_from_the_last_four_bytes() {
    assert_eq!(decode_i32(&[254, 255, 255, 255]), Ok(-2));
    assert_eq!(decode_i32(&[7, 42, 0, 0, 0]), Ok(42));
    assert_eq!(decode_i32(&[1, 2, 3]), Err(DecodeError::Malformed));
}

#[test]
fn i32_round_trip() {
    for value in [0i32, 1, -1, 42, i32::MIN, i32::MAX] {
        assert_eq!(decode_i32(&encode_i32(value).unwrap()), Ok(value));
    }
}

#[test]
fn string_round_trip() {
    for text in ["", "hello", "hello_2", "a text that is too long to lie inside its own root", "grüße ✓"] {
        let bytes = encode_string(&text.to_string()).unwrap();
        assert_eq!(decode_string(&bytes), Ok(text.to_string()));
    }
}

#[test]
fn string_bytes_depend_on_the_text_alone() {
    let first = String::from("example computation hello_2");
    let mut second = String::with_capacity(200);
    second.push_str("example computation ");
    second.push_str("hello_2");
    assert_eq!(encode_string(&first), encode_string(&second));
    assert_ne!(
        encode_string(&"hello_2".to_string()),
        encode_string(&"hello_3".to_string())
    );
}

#[test]
fn string_bytes_are_not_the_text_itself() {
    let text = "a text that is too long to lie inside its own root";
    let bytes = encode_string(&text.to_string()).unwrap();
    assert_ne!(bytes, text.as_bytes().to_vec());
    assert!(bytes.len() > text.len());
}

#[test]
fn string_is_refused_where_the_bytes_are_no_string() {
    assert_eq!(decode_string(&[]), Err(DecodeError::Malformed));
    assert_eq!(decode_string(&[1, 2, 3]), Err(DecodeError::Malformed));
    assert_eq!(
        decode_string(&[0xc3, 0xff, 0xff, 0xff, 0xff, 0xff, 0xff, 0xff]),
        Err(DecodeError::Malformed)
    );
    assert_eq!(
        decode_string(&[0x85, 0, 0, 0, 0xff, 0xff, 0xff, 0x7f]),
        Err(DecodeError::Malformed)
    );
}

#[test]
fn short_string_lies_in_its_root() {
    assert_eq!(
        encode_string(&"hi".to_string()),
        Ok(vec![b'h', b'i', 0xff, 0xff, 0xff, 0xff, 0xff, 0xff])
    );
    assert_eq!(
        decode_string(&[0xff, 0xff, 0xff, 0xff, 0xff, 0xff, 0xff, 0xff]),
        Ok(String::new())
    );
}

#[test]
fn string_is_read_at_any_address() {
    let bytes =
        encode_string(&"a text that is too long to lie inside its own root".to_string()).unwrap();
    let mut shifted = vec![0u8; bytes.len() + 1];
    shifted[1..].copy_from_slice(&bytes);
    assert_eq!(
        decode_string(&shifted[1..]),
        Ok("a text that is too long to lie inside its own root".to_string())
    );
}

#[test]
fn string_of_a_gibibyte_has_no_bytes() {
    let text = String::from_utf8(vec![0u8; 1 << 30]).unwrap();
    assert_eq!(encode_string(&text), Err(EncodingError::Unrepresentable));
}

#[test]
fn long_string_has_bytes_that_hold_it() {
    let text = String::from_utf8(vec![b'a'; (1 << 20) + 3]).unwrap();
    let bytes = encode_string(&text).unwrap();
    assert_eq!(decode_string(&bytes), Ok(text));
}
