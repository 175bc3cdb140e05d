//! The codec: canonical bytes of values, and values back from bytes.
//!
//! The bytes are those of `rkyv`, in its unaligned little-endian format, so that a buffer
//! that comes out of the store can be read where it lies, whatever its address.

use vstd::bytes::spec_u32_from_le_bytes;
use vstd::bytes::spec_u32_to_le_bytes;
use vstd::bytes::spec_u64_from_le_bytes;
use vstd::bytes::spec_u64_to_le_bytes;
use vstd::prelude::*;
use vstd::utf8::encode_utf8;

verus! {

/// A value for which no canonical bytes could be made.
#[derive(Clone, Copy, Debug, PartialEq, Eq, Structural)]
pub enum EncodingError {
    /// The codec refused the value.
    Unrepresentable,
    /// The argument in this slot of a call, counted from 0, came without bytes.
    Argument(usize),
    /// The result of the computation came without bytes.
    Output,
}

/// Bytes that do not have the shape of the type asked for.
#[derive(Clone, Copy, Debug, PartialEq, Eq, Structural)]
pub enum DecodeError {
    /// The bytes are too few, or what they hold is no value of the type.
    Malformed,
}

#[verifier::external_type_specification]
#[verifier::external_body]
pub struct ExRancorError(rkyv::rancor::Error);

/// The bytes that `rkyv` archives a string in.
pub uninterp spec fn archived_string(text: Seq<char>) -> Seq<u8>;

/// The string that `rkyv` reads from a buffer, where it accepts the buffer.
pub uninterp spec fn unarchived_string(bytes: Seq<u8>) -> Option<Seq<char>>;

/// The canonical bytes of a `u64`: its eight bytes, lowest first.
pub open spec fn encoded_u64(value: u64) -> Seq<u8> {
    spec_u64_to_le_bytes(value)
}

/// The `u64` that a buffer holds: the one in its last eight bytes.
pub open spec fn decoded_u64(bytes: Seq<u8>) -> Option<u64> {
    if bytes.len() >= 8 {
        Some(spec_u64_from_le_bytes(bytes.subrange(bytes.len() - 8, bytes.len() as int)))
    } else {
        None
    }
}

/// The canonical bytes of an `i32`: the four bytes of its two's complement, lowest first.
pub open spec fn encoded_i32(value: i32) -> Seq<u8> {
    spec_u32_to_le_bytes(value as u32)
}

/// The `i32` that a buffer holds: the one in its last four bytes.
pub open spec fn decoded_i32(bytes: Seq<u8>) -> Option<i32> {
    if bytes.len() >= 4 {
        Some(spec_u32_from_le_bytes(bytes.subrange(bytes.len() - 4, bytes.len() as int)) as i32)
    } else {
        None
    }
}

/// The number of bytes that a text has in UTF-8.
pub open spec fn utf8_len(text: Seq<char>) -> nat {
    encode_utf8(text).len()
}

/// True of the texts that `rkyv` has an archived form for, whatever their length says when
/// it is cut to 32 bits: those of less than 2^30 bytes.
pub open spec fn fits_archived_string(text: Seq<char>) -> bool {
    utf8_len(text) < 0x4000_0000
}

/// What is left of a decoder's result when the reason of a failure is dropped.
pub open spec fn decoded<T>(outcome: Result<T, DecodeError>) -> Option<T> {
    match outcome {
        Ok(value) => Some(value),
        Err(_) => None,
    }
}

/// `rkyv::to_bytes` on a `u64`. It succeeds: an integer has nothing to serialize before
/// its root, and the writer takes every byte. The buffer holds the archived root and
/// nothing else: the eight bytes of the value, lowest first.
#[verifier::external_body]
fn archive_u64(value: u64) -> (archived: Result<Vec<u8>, rkyv::rancor::Error>)
    ensures
        archived is Ok,
        archived matches Ok(bytes) ==> bytes@ == spec_u64_to_le_bytes(value),
{
    rkyv::to_bytes::<rkyv::rancor::Error>(&value).map(|bytes| bytes.into_vec())
}

/// `rkyv::from_bytes` for a `u64`. The root lies in the last eight bytes of the buffer; a
/// buffer with fewer is refused, and any eight bytes are a value.
#[verifier::external_body]
fn unarchive_u64(bytes: &[u8]) -> (value: Result<u64, rkyv::rancor::Error>)
    ensures
        match value {
            Ok(v) => bytes@.len() >= 8 && v == spec_u64_from_le_bytes(
                bytes@.subrange(bytes@.len() - 8, bytes@.len() as int),
            ),
            Err(_) => bytes@.len() < 8,
        },
{
    rkyv::from_bytes::<u64, rkyv::rancor::Error>(bytes)
}

/// `rkyv::to_bytes` on an `i32`. It succeeds, as on a `u64`. The buffer holds the archived
/// root and nothing else: the four bytes of the value's two's complement, lowest first.
#[verifier::external_body]
fn archive_i32(value: i32) -> (archived: Result<Vec<u8>, rkyv::rancor::Error>)
    ensures
        archived is Ok,
        archived matches Ok(bytes) ==> bytes@ == spec_u32_to_le_bytes(value as u32),
{
    rkyv::to_bytes::<rkyv::rancor::Error>(&value).map(|bytes| bytes.into_vec())
}

/// `rkyv::from_bytes` for an `i32`. The root lies in the last four bytes of the buffer; a
/// buffer with fewer is refused, and any four bytes are a value.
#[verifier::external_body]
fn unarchive_i32(bytes: &[u8]) -> (value: Result<i32, rkyv::rancor::Error>)
    ensures
        match value {
            Ok(v) => bytes@.len() >= 4 && v == spec_u32_from_le_bytes(
                bytes@.subrange(bytes@.len() - 4, bytes@.len() as int),
            ) as i32,
            Err(_) => bytes@.len() < 4,
        },
{
    rkyv::from_bytes::<i32, rkyv::rancor::Error>(bytes)
}

/// `rkyv::to_bytes` on a `String`. It succeeds on every text that fits the archived form.
/// Where it succeeds, the bytes depend on the text alone. `rkyv::from_bytes` reads the same
/// text back from them as long as the length of the text fits in 32 bits: `rkyv` cuts the
/// length to 32 bits before it looks at it, so that it takes some longer texts too, and
/// writes the cut length for them.
#[verifier::external_body]
fn archive_string(value: &String) -> (archived: Result<Vec<u8>, rkyv::rancor::Error>)
    ensures
        fits_archived_string(value@) ==> archived is Ok,
        archived matches Ok(bytes) ==> bytes@ == archived_string(value@),
        archived matches Ok(bytes) ==> (utf8_len(value@) < 0x1_0000_0000 ==> unarchived_string(
            bytes@,
        ) == Some(value@)),
{
    rkyv::to_bytes::<rkyv::rancor::Error>(value).map(|bytes| bytes.into_vec())
}

/// `rkyv::from_bytes` for a `String`. It checks the buffer before it reads from it, and
/// whether it accepts the buffer, and the text it then returns, depend on the bytes alone.
#[verifier::external_body]
fn unarchive_string(bytes: &[u8]) -> (value: Result<String, rkyv::rancor::Error>)
    ensures
        match value {
            Ok(text) => unarchived_string(bytes@) == Some(text@),
            Err(_) => unarchived_string(bytes@) is None,
        },
{
    rkyv::from_bytes::<String, rkyv::rancor::Error>(bytes)
}

/// The canonical bytes of a `u64`. Every `u64` has them.
pub fn encode_u64(value: u64) -> (encoded: Result<Vec<u8>, EncodingError>)
    ensures
        encoded matches Ok(bytes) && bytes@ == encoded_u64(value),
{
    match archive_u64(value) {
        Ok(bytes) => Ok(bytes),
        Err(_) => Err(EncodingError::Unrepresentable),
    }
}

/// The `u64` in a buffer, which has to hold at least its eight bytes.
pub fn decode_u64(bytes: &[u8]) -> (value: Result<u64, DecodeError>)
    ensures
        decoded(value) == decoded_u64(bytes@),
{
    match unarchive_u64(bytes) {
        Ok(value) => Ok(value),
        Err(_) => Err(DecodeError::Malformed),
    }
}

/// The canonical bytes of an `i32`. Every `i32` has them.
pub fn encode_i32(value: i32) -> (encoded: Result<Vec<u8>, EncodingError>)
    ensures
        encoded matches Ok(bytes) && bytes@ == encoded_i32(value),
{
    match archive_i32(value) {
        Ok(bytes) => Ok(bytes),
        Err(_) => Err(EncodingError::Unrepresentable),
    }
}

/// The `i32` in a buffer, which has to hold at least its four bytes.
pub fn decode_i32(bytes: &[u8]) -> (value: Result<i32, DecodeError>)
    ensures
        decoded(value) == decoded_i32(bytes@),
{
    match unarchive_i32(bytes) {
        Ok(value) => Ok(value),
        Err(_) => Err(DecodeError::Malformed),
    }
}

/// The canonical bytes of a string. A text of less than 2^30 bytes has them, they depend
/// on the text and on nothing else, and `decode_string` reads the text back from them. A
/// longer text is refused, or, where its length cut to 32 bits looks short enough, comes
/// with bytes that do not hold all of it.
pub fn encode_string(value: &String) -> (encoded: Result<Vec<u8>, EncodingError>)
    ensures
        fits_archived_string(value@) ==> encoded is Ok,
        match encoded {
            Ok(bytes) => {
                &&& bytes@ == archived_string(value@)
                &&& utf8_len(value@) < 0x1_0000_0000 ==> unarchived_string(bytes@) == Some(
                    value@,
                )
            },
            Err(e) => e == EncodingError::Unrepresentable,
        },
{
    match archive_string(value) {
        Ok(bytes) => Ok(bytes),
        Err(_) => Err(EncodingError::Unrepresentable),
    }
}

/// The string in a buffer, if the bytes are those of a string.
pub fn decode_string(bytes: &[u8]) -> (value: Result<String, DecodeError>)
    ensures
        match value {
            Ok(text) => unarchived_string(bytes@) == Some(text@),
            Err(e) => unarchived_string(bytes@) is None,
        },
{
    match unarchive_string(bytes) {
        Ok(text) => Ok(text),
        Err(_) => Err(DecodeError::Malformed),
    }
}

/// The bytes of a `u64` are eight, and decoding them gives the value back.
pub proof fn lemma_u64_round_trip(value: u64)
    ensures
        encoded_u64(value).len() == 8,
        decoded_u64(encoded_u64(value)) == Some(value),
{
    vstd::bytes::lemma_auto_spec_u64_to_from_le_bytes();
    let bytes = encoded_u64(value);
    assert(bytes.subrange(0, 8) == bytes);
}

/// The bytes of an `i32` are four, and decoding them gives the value back.
pub proof fn lemma_i32_round_trip(value: i32)
    ensures
        encoded_i32(value).len() == 4,
        decoded_i32(encoded_i32(value)) == Some(value),
{
    vstd::bytes::lemma_auto_spec_u32_to_from_le_bytes();
    let bytes = encoded_i32(value);
    assert(bytes.subrange(0, 4) == bytes);
    assert((value as u32) as i32 == value) by (bit_vector);
}

} // verus!
