//! The decode side of the wire contract.

use vstd::prelude::*;

use crate::Version;
use crate::cursor::Cursor;
use crate::error::DecodeError;
use crate::format::{be_u16, be_u32, be_u64};

verus! {

/// Specification-level outcome of decoding one value from a byte sequence.
///
/// This is a total description: for every input it says whether decoding
/// succeeds, and on success which abstract value is produced and which bytes
/// are left for the decodes that follow.
pub enum Decoded<T> {
    /// Decoding succeeds, yielding `value` and leaving `rest` unconsumed.
    Value { value: T, rest: Seq<u8> },
    /// The input ends before the value does.
    TooShort,
    /// The input holds an out-of-domain value.
    Invalid,
}

/// The uniform contract of every decode operation: the returned result and
/// the cursor's final position agree exactly with the specification outcome
/// `d` for the bytes the cursor held before the call.
///
/// On failure the error kind matches the specification; the bytes a failing
/// decode happened to consume are not observable, since the whole operation
/// is abandoned.
pub open spec fn decode_post<T: DeepView>(
    d: Decoded<<T as DeepView>::V>,
    r: Result<T, DecodeError>,
    post: Seq<u8>,
) -> bool {
    match r {
        Ok(v) => d == (Decoded::Value { value: v.deep_view(), rest: post }),
        Err(DecodeError::UnexpectedEof) => d is TooShort,
        Err(DecodeError::InvalidData) => d is Invalid,
    }
}

/// A type that can initialize itself from a cursor plus a negotiated
/// protocol version, producing either a fully populated value or an error.
///
/// Decoding is all-or-nothing: on success the cursor has consumed exactly
/// the value's canonical bytes; on error the operation is abandoned.
pub trait Decoder: Sized + DeepView {
    /// What decoding means for this type, as a total function over the
    /// remaining input bytes and the negotiated version.
    spec fn spec_decode(b: Seq<u8>, version: Version) -> Decoded<<Self as DeepView>::V>;

    /// Decode one value from the front of the cursor.
    fn decode_from(src: &mut Cursor, version: Version) -> (r: Result<Self, DecodeError>)
        ensures
            decode_post::<Self>(Self::spec_decode(old(src)@, version), r, final(src)@),
    ;

    /// Decode into an existing value, replacing it on success and leaving it
    /// untouched on failure.
    fn decode(&mut self, src: &mut Cursor, version: Version) -> (r: Result<(), DecodeError>)
        ensures
            match r {
                Ok(_) => Self::spec_decode(old(src)@, version) == (Decoded::Value {
                    value: final(self).deep_view(),
                    rest: final(src)@,
                }),
                Err(DecodeError::UnexpectedEof) => Self::spec_decode(old(src)@, version)
                    is TooShort && *final(self) == *old(self),
                Err(DecodeError::InvalidData) => Self::spec_decode(old(src)@, version) is Invalid
                    && *final(self) == *old(self),
            },
    {
        match Self::decode_from(src, version) {
            Ok(v) => {
                *self = v;
                Ok(())
            },
            Err(e) => Err(e),
        }
    }
}

impl Decoder for bool {
    /// One byte: `0x00` is `false`, `0x01` is `true`, anything else is invalid.
    open spec fn spec_decode(b: Seq<u8>, version: Version) -> Decoded<bool> {
        if b.len() < 1 {
            Decoded::TooShort
        } else if b[0] == 0 {
            Decoded::Value { value: false, rest: b.skip(1) }
        } else if b[0] == 1 {
            Decoded::Value { value: true, rest: b.skip(1) }
        } else {
            Decoded::Invalid
        }
    }

    fn decode_from(src: &mut Cursor, version: Version) -> (r: Result<Self, DecodeError>)
        ensures
            r matches Err(e) && e == DecodeError::UnexpectedEof ==> final(src)@ == old(src)@,
            r matches Err(e) && e == DecodeError::InvalidData ==> final(src)@ == old(src)@.skip(1),
    {
        if src.remaining() < 1 {
            return Err(DecodeError::UnexpectedEof);
        }
        let b = src.take_byte();
        match b {
            0 => Ok(false),
            1 => Ok(true),
            _ => Err(DecodeError::InvalidData),
        }
    }
}

impl Decoder for u8 {
    /// One raw byte.
    open spec fn spec_decode(b: Seq<u8>, version: Version) -> Decoded<u8> {
        if b.len() < 1 {
            Decoded::TooShort
        } else {
            Decoded::Value { value: b[0], rest: b.skip(1) }
        }
    }

    fn decode_from(src: &mut Cursor, version: Version) -> (r: Result<Self, DecodeError>)
        ensures
            r is Err ==> final(src)@ == old(src)@,
    {
        if src.remaining() < 1 {
            return Err(DecodeError::UnexpectedEof);
        }
        Ok(src.take_byte())
    }
}

impl Decoder for i8 {
    /// One byte, two's-complement.
    open spec fn spec_decode(b: Seq<u8>, version: Version) -> Decoded<i8> {
        if b.len() < 1 {
            Decoded::TooShort
        } else {
            Decoded::Value { value: b[0] as i8, rest: b.skip(1) }
        }
    }

    fn decode_from(src: &mut Cursor, version: Version) -> (r: Result<Self, DecodeError>)
        ensures
            r is Err ==> final(src)@ == old(src)@,
    {
        if src.remaining() < 1 {
            return Err(DecodeError::UnexpectedEof);
        }
        let b = src.take_byte();
        Ok(#[verifier::truncate] (b as i8))
    }
}

/// Relies on `String::from_utf8`: it succeeds exactly when the bytes are
/// valid UTF-8, and then returns the characters those bytes encode.
#[verifier::external_body]
fn string_from_utf8(bytes: Vec<u8>) -> (r: Result<String, DecodeError>)
    ensures
        match r {
            Ok(s) => vstd::utf8::valid_utf8(bytes@) && s@ == vstd::utf8::decode_utf8(bytes@),
            Err(e) => !vstd::utf8::valid_utf8(bytes@) && e == DecodeError::InvalidData,
        },
{
    match String::from_utf8(bytes) {
        Ok(s) => Ok(s),
        Err(_) => Err(DecodeError::InvalidData),
    }
}

impl Decoder for String {
    /// A 16-bit signed big-endian length prefix; a length of zero or less
    /// means the empty string with no payload bytes; otherwise exactly
    /// `length` bytes of UTF-8 text.
    open spec fn spec_decode(b: Seq<u8>, version: Version) -> Decoded<Seq<char>> {
        if b.len() < 2 {
            Decoded::TooShort
        } else {
            let len = be_u16(b) as i16;
            if len <= 0 {
                Decoded::Value { value: Seq::empty(), rest: b.skip(2) }
            } else if b.len() - 2 < len {
                Decoded::TooShort
            } else {
                let payload = b.skip(2).take(len as int);
                if vstd::utf8::valid_utf8(payload) {
                    Decoded::Value {
                        value: vstd::utf8::decode_utf8(payload),
                        rest: b.skip(2 + len),
                    }
                } else {
                    Decoded::Invalid
                }
            }
        }
    }

    fn decode_from(src: &mut Cursor, version: Version) -> (r: Result<Self, DecodeError>) {
        let len = i16::decode_from(src, version)?;
        if len <= 0 {
            return Ok(String::new());
        }
        let n = len as usize;
        if src.remaining() < n {
            return Err(DecodeError::UnexpectedEof);
        }
        let ghost mid = src@;
        let payload = src.take_bytes(n);
        proof {
            assert(payload@ == old(src)@.skip(2).take(len as int)) by {
                assert(mid =~= old(src)@.skip(2));
            }
            assert(final(src)@ =~= old(src)@.skip(2 + len));
        }
        string_from_utf8(payload)
    }
}

impl Decoder for u16 {
    /// Two bytes, big-endian.
    open spec fn spec_decode(b: Seq<u8>, version: Version) -> Decoded<u16> {
        if b.len() < 2 {
            Decoded::TooShort
        } else {
            Decoded::Value { value: be_u16(b), rest: b.skip(2) }
        }
    }

    fn decode_from(src: &mut Cursor, version: Version) -> (r: Result<Self, DecodeError>)
        ensures
            r is Err ==> final(src)@ == old(src)@,
    {
        if src.remaining() < 2 {
            return Err(DecodeError::UnexpectedEof);
        }
        let b0 = src.take_byte();
        let b1 = src.take_byte();
        proof {
            assert(final(src)@ =~= old(src)@.skip(2));
        }
        Ok(((b0 as u16) << 8) | (b1 as u16))
    }
}

impl Decoder for i16 {
    /// Two bytes, big-endian, two's-complement.
    open spec fn spec_decode(b: Seq<u8>, version: Version) -> Decoded<i16> {
        if b.len() < 2 {
            Decoded::TooShort
        } else {
            Decoded::Value { value: be_u16(b) as i16, rest: b.skip(2) }
        }
    }

    fn decode_from(src: &mut Cursor, version: Version) -> (r: Result<Self, DecodeError>)
        ensures
            r is Err ==> final(src)@ == old(src)@,
    {
        let u = u16::decode_from(src, version)?;
        Ok(#[verifier::truncate] (u as i16))
    }
}

impl Decoder for u32 {
    /// Four bytes, big-endian.
    open spec fn spec_decode(b: Seq<u8>, version: Version) -> Decoded<u32> {
        if b.len() < 4 {
            Decoded::TooShort
        } else {
            Decoded::Value { value: be_u32(b), rest: b.skip(4) }
        }
    }

    fn decode_from(src: &mut Cursor, version: Version) -> (r: Result<Self, DecodeError>)
        ensures
            r is Err ==> final(src)@ == old(src)@,
    {
        if src.remaining() < 4 {
            proof {
                assert(u32::spec_decode(old(src)@, version) is TooShort);
            }
            return Err(DecodeError::UnexpectedEof);
        }
        let b0 = src.take_byte();
        let b1 = src.take_byte();
        let b2 = src.take_byte();
        let b3 = src.take_byte();
        proof {
            assert(final(src)@ =~= old(src)@.skip(4));
            assert(b0 == old(src)@[0] && b1 == old(src)@[1] && b2 == old(src)@[2] && b3 == old(
                src,
            )@[3]);
        }
        Ok(((b0 as u32) << 24) | ((b1 as u32) << 16) | ((b2 as u32) << 8) | (b3 as u32))
    }
}

impl Decoder for i32 {
    /// Four bytes, big-endian, two's-complement.
    open spec fn spec_decode(b: Seq<u8>, version: Version) -> Decoded<i32> {
        if b.len() < 4 {
            Decoded::TooShort
        } else {
            Decoded::Value { value: be_u32(b) as i32, rest: b.skip(4) }
        }
    }

    fn decode_from(src: &mut Cursor, version: Version) -> (r: Result<Self, DecodeError>)
        ensures
            r is Err ==> final(src)@ == old(src)@,
    {
        let u = u32::decode_from(src, version)?;
        Ok(#[verifier::truncate] (u as i32))
    }
}

impl Decoder for u64 {
    /// Eight bytes, big-endian.
    open spec fn spec_decode(b: Seq<u8>, version: Version) -> Decoded<u64> {
        if b.len() < 8 {
            Decoded::TooShort
        } else {
            Decoded::Value { value: be_u64(b), rest: b.skip(8) }
        }
    }

    fn decode_from(src: &mut Cursor, version: Version) -> (r: Result<Self, DecodeError>)
        ensures
            r is Err ==> final(src)@ == old(src)@,
    {
        if src.remaining() < 8 {
            return Err(DecodeError::UnexpectedEof);
        }
        let b0 = src.take_byte();
        let b1 = src.take_byte();
        let b2 = src.take_byte();
        let b3 = src.take_byte();
        let b4 = src.take_byte();
        let b5 = src.take_byte();
        let b6 = src.take_byte();
        let b7 = src.take_byte();
        proof {
            assert(final(src)@ =~= old(src)@.skip(8));
        }
        Ok(
            ((b0 as u64) << 56) | ((b1 as u64) << 48) | ((b2 as u64) << 40) | ((b3 as u64) << 32)
                | ((b4 as u64) << 24) | ((b5 as u64) << 16) | ((b6 as u64) << 8) | (b7 as u64),
        )
    }
}

impl Decoder for i64 {
    /// Eight bytes, big-endian, two's-complement.
    open spec fn spec_decode(b: Seq<u8>, version: Version) -> Decoded<i64> {
        if b.len() < 8 {
            Decoded::TooShort
        } else {
            Decoded::Value { value: be_u64(b) as i64, rest: b.skip(8) }
        }
    }

    fn decode_from(src: &mut Cursor, version: Version) -> (r: Result<Self, DecodeError>)
        ensures
            r is Err ==> final(src)@ == old(src)@,
    {
        let u = u64::decode_from(src, version)?;
        Ok(#[verifier::truncate] (u as i64))
    }
}

} // verus!
