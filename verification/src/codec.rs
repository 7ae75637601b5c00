//! The codec: how a typed value becomes bytes and comes back.
//!
//! Values are encoded by bincode, configured once and for all: no size limit,
//! big-endian integers, variable-length integer encoding, and no bytes left
//! over when decoding. A type can be stored when it implements [`Codec`],
//! which says which bytes stand for which value.

use bincode::ErrorKind as CodecFailure;
use bincode::Options;
use vstd::prelude::*;
use vstd::string::StringSliceAdditionalSpecFns;
use vstd::utf8::{decode_utf8, encode_utf8, valid_utf8};

verus! {

/// The number of values that `width` bytes can hold.
pub open spec fn byte_limit(width: nat) -> nat
    decreases width,
{
    if width == 0 {
        1
    } else {
        256 * byte_limit((width - 1) as nat)
    }
}

/// The `width` low bytes of `value`, the most significant first.
pub open spec fn be_bytes(value: nat, width: nat) -> Seq<u8>
    decreases width,
{
    if width == 0 {
        Seq::empty()
    } else {
        be_bytes(value / 256, (width - 1) as nat).push((value % 256) as u8)
    }
}

/// The number that `bytes` spell, the most significant byte first.
pub open spec fn be_value(bytes: Seq<u8>) -> nat
    decreases bytes.len(),
{
    if bytes.len() == 0 {
        0
    } else {
        be_value(bytes.drop_last()) * 256 + bytes.last() as nat
    }
}

/// The variable-length encoding of an unsigned integer: one byte up to 250,
/// else a marker byte (251, 252 or 253) and the value in 2, 4 or 8 bytes.
pub open spec fn varint(value: u64) -> Seq<u8> {
    if value <= 250 {
        seq![value as u8]
    } else if value <= 0xffff {
        seq![251u8] + be_bytes(value as nat, 2)
    } else if value <= 0xffff_ffff {
        seq![252u8] + be_bytes(value as nat, 4)
    } else {
        seq![253u8] + be_bytes(value as nat, 8)
    }
}

/// How many bytes follow the first byte of a variable-length integer, or
/// `None` where the first byte opens none.
pub open spec fn varint_tail(first: u8) -> Option<nat> {
    if first <= 250 {
        Some(0)
    } else if first == 251 {
        Some(2)
    } else if first == 252 {
        Some(4)
    } else if first == 253 {
        Some(8)
    } else {
        None
    }
}

/// The unsigned integer at the head of `bytes`, with the number of bytes
/// that it takes; `None` where `bytes` does not start with one. The value
/// need not be written in its shortest form.
pub open spec fn varint_prefix(bytes: Seq<u8>) -> Option<(u64, nat)> {
    if bytes.len() == 0 {
        None
    } else {
        match varint_tail(bytes[0]) {
            None => None,
            Some(tail) => if tail == 0 {
                Some((bytes[0] as u64, 1))
            } else if bytes.len() >= 1 + tail {
                Some((be_value(bytes.subrange(1, 1 + tail as int)) as u64, 1 + tail))
            } else {
                None
            },
        }
    }
}

/// The bytes that stand for an unsigned integer.
pub open spec fn u64_encoding(value: u64) -> Seq<u8> {
    varint(value)
}

/// The unsigned integer that `bytes` stand for: they hold one integer and
/// nothing more.
pub open spec fn u64_decoding(bytes: Seq<u8>) -> Option<u64> {
    match varint_prefix(bytes) {
        Some((value, used)) => if used == bytes.len() {
            Some(value)
        } else {
            None
        },
        None => None,
    }
}

/// The length of the UTF-8 form of a string, as a variable-length integer,
/// then that form.
pub open spec fn string_bytes(chars: Seq<char>) -> Seq<u8> {
    varint(encode_utf8(chars).len() as u64) + encode_utf8(chars)
}

/// The bytes that stand for a string; `None` where its length does not fit
/// the integer encoding.
pub open spec fn string_encoding(chars: Seq<char>) -> Option<Seq<u8>> {
    if encode_utf8(chars).len() <= u64::MAX {
        Some(string_bytes(chars))
    } else {
        None
    }
}

/// The string that `bytes` stand for: a length, then exactly that many
/// bytes of valid UTF-8.
pub open spec fn string_decoding(bytes: Seq<u8>) -> Option<Seq<char>> {
    match varint_prefix(bytes) {
        Some((length, used)) => {
            let text = bytes.subrange(used as int, bytes.len() as int);
            if text.len() == length && valid_utf8(text) {
                Some(decode_utf8(text))
            } else {
                None
            }
        },
        None => None,
    }
}

/// `bincode::Options::serialize_into`, for a `u64`, with the options of this
/// library. It appends the variable-length encoding that bincode documents
/// (`VarintEncoding`), with the multi-byte forms in big-endian order, to the
/// vector and cannot fail: a vector takes every write and no limit is set.
#[verifier::external_body]
fn put_u64(value: u64, buffer: &mut Vec<u8>) -> (r: Result<(), Box<CodecFailure>>)
    ensures
        r is Ok,
        final(buffer)@ == old(buffer)@ + u64_encoding(value),
{
    bincode::DefaultOptions::new().with_no_limit().with_big_endian().serialize_into(buffer, &value)
}

/// `bincode::Options::deserialize`, to a `u64`, with the options of this
/// library. It reads one variable-length integer from the head of the slice,
/// in whichever of the forms it is written, and fails where the slice does
/// not start with one or where bytes are left over.
#[verifier::external_body]
fn take_u64(bytes: &[u8]) -> (r: Result<u64, Box<CodecFailure>>)
    ensures
        match r {
            Ok(value) => u64_decoding(bytes@) == Some(value),
            Err(_) => u64_decoding(bytes@) is None,
        },
{
    bincode::DefaultOptions::new().with_no_limit().with_big_endian().deserialize(bytes)
}

/// `bincode::Options::serialize_into`, for a `str`, with the options of this
/// library. It appends the length of the string in bytes, as a
/// variable-length integer, and then the string's UTF-8 bytes, and cannot
/// fail: a vector takes every write and no limit is set.
#[verifier::external_body]
fn put_str(value: &str, buffer: &mut Vec<u8>) -> (r: Result<(), Box<CodecFailure>>)
    ensures
        r is Ok,
        final(buffer)@ == old(buffer)@ + string_bytes(value@),
{
    bincode::DefaultOptions::new().with_no_limit().with_big_endian().serialize_into(buffer, value)
}

/// `bincode::Options::deserialize`, to a `String`, with the options of this
/// library. It reads a length, then that many bytes, which must be valid
/// UTF-8 and the last of the slice; it fails on every other slice.
#[verifier::external_body]
fn take_string(bytes: &[u8]) -> (r: Result<String, Box<CodecFailure>>)
    ensures
        match r {
            Ok(value) => string_decoding(bytes@) == Some(value@),
            Err(_) => string_decoding(bytes@) is None,
        },
{
    bincode::DefaultOptions::new().with_no_limit().with_big_endian().deserialize(bytes)
}

/// A type whose values can be stored: it says which bytes stand for a value
/// and which value bytes stand for, and the two agree.
pub trait Codec: View + Sized {
    /// The bytes that stand for `value`; `None` where the codec refuses it.
    spec fn encoding(value: Self::V) -> Option<Seq<u8>>;

    /// The value that `bytes` stand for; `None` where they stand for none.
    spec fn decoding(bytes: Seq<u8>) -> Option<Self::V>;

    /// Decoding what a value was encoded to gives the value back.
    proof fn lemma_round_trip(value: Self::V)
        ensures
            (Self::encoding(value) matches Some(bytes) ==> Self::decoding(bytes) == Some(value)),
    ;

    /// Appends the encoding of `self` to `buffer`. Where the codec refuses
    /// the value, what the buffer held is still there, followed by whatever
    /// was written before the refusal.
    fn encode_into(&self, buffer: &mut Vec<u8>) -> (r: Result<(), Box<CodecFailure>>)
        ensures
            r is Ok <==> Self::encoding(self@) is Some,
            r is Ok ==> final(buffer)@ == old(buffer)@ + Self::encoding(self@).unwrap(),
            r is Err ==> old(buffer)@.is_prefix_of(final(buffer)@),
    ;

    /// Decodes a value from exactly `bytes`.
    fn decode_from(bytes: &[u8]) -> (r: Result<Self, Box<CodecFailure>>)
        ensures
            r is Ok <==> Self::decoding(bytes@) is Some,
            (r matches Ok(value) ==> Self::decoding(bytes@) == Some(value@)),
    ;
}

/// `width` bytes are `width` long, and spell the value they were made from
/// when it is under the limit of that width.
pub proof fn lemma_be_round_trip(value: nat, width: nat)
    ensures
        be_bytes(value, width).len() == width,
        value < byte_limit(width) ==> be_value(be_bytes(value, width)) == value,
    decreases width,
{
    if width > 0 {
        let head = be_bytes(value / 256, (width - 1) as nat);
        lemma_be_round_trip(value / 256, (width - 1) as nat);
        assert(be_bytes(value, width).drop_last() =~= head);
        assert(be_bytes(value, width).last() == (value % 256) as u8);
    }
}

/// An encoded integer is read back from the head of whatever it stands
/// before, with its own length as the number of bytes taken.
pub proof fn lemma_varint_prefix(value: u64, rest: Seq<u8>)
    ensures
        varint_prefix(varint(value) + rest) == Some((value, varint(value).len())),
        1 <= varint(value).len() <= 9,
{
    let bytes = varint(value) + rest;
    assert(byte_limit(2) == 0x1_0000 && byte_limit(4) == 0x1_0000_0000 && byte_limit(8)
        == 0x1_0000_0000_0000_0000) by {
        reveal_with_fuel(byte_limit, 9);
    }
    if value <= 250 {
        assert(bytes[0] == value as u8);
    } else if value <= 0xffff {
        lemma_be_round_trip(value as nat, 2);
        assert(bytes[0] == 251u8);
        assert(bytes.subrange(1, 3) =~= be_bytes(value as nat, 2));
    } else if value <= 0xffff_ffff {
        lemma_be_round_trip(value as nat, 4);
        assert(bytes[0] == 252u8);
        assert(bytes.subrange(1, 5) =~= be_bytes(value as nat, 4));
    } else {
        lemma_be_round_trip(value as nat, 8);
        assert(bytes[0] == 253u8);
        assert(bytes.subrange(1, 9) =~= be_bytes(value as nat, 8));
    }
}

impl Codec for u64 {
    open spec fn encoding(value: u64) -> Option<Seq<u8>> {
        Some(u64_encoding(value))
    }

    open spec fn decoding(bytes: Seq<u8>) -> Option<u64> {
        u64_decoding(bytes)
    }

    proof fn lemma_round_trip(value: u64) {
        lemma_varint_prefix(value, Seq::empty());
        assert(varint(value) + Seq::<u8>::empty() =~= varint(value));
    }

    fn encode_into(&self, buffer: &mut Vec<u8>) -> (r: Result<(), Box<CodecFailure>>)
        ensures
            r is Ok,
    {
        put_u64(*self, buffer)
    }

    fn decode_from(bytes: &[u8]) -> (r: Result<Self, Box<CodecFailure>>) {
        take_u64(bytes)
    }
}

impl Codec for String {
    open spec fn encoding(value: Seq<char>) -> Option<Seq<u8>> {
        string_encoding(value)
    }

    open spec fn decoding(bytes: Seq<u8>) -> Option<Seq<char>> {
        string_decoding(bytes)
    }

    proof fn lemma_round_trip(value: Seq<char>) {
        let text = encode_utf8(value);
        if text.len() <= u64::MAX {
            let length = text.len() as u64;
            let bytes = varint(length) + text;
            lemma_varint_prefix(length, text);
            assert(bytes.subrange(varint(length).len() as int, bytes.len() as int) =~= text);
            vstd::utf8::encode_utf8_valid_utf8(value);
            vstd::utf8::encode_utf8_decode_utf8(value);
        }
    }

    fn encode_into(&self, buffer: &mut Vec<u8>) -> (r: Result<(), Box<CodecFailure>>)
        ensures
            r is Ok,
    {
        let text = self.as_str();
        let utf8 = text.as_bytes();
        let length: usize = utf8.len();
        assert(encode_utf8(self@).len() == length) by {
            assert(text@ == self@);
            assert(utf8@ == text.spec_bytes());
        }
        put_str(text, buffer)
    }

    fn decode_from(bytes: &[u8]) -> (r: Result<Self, Box<CodecFailure>>) {
        take_string(bytes)
    }
}

} // verus!
