//! Variable-length integer decoding.
//!
//! A signed 64-bit value is carried as a zig-zag mapped unsigned value, in
//! groups of 7 bits, least-significant group first; the top bit of each byte
//! says whether another group follows.  Zig-zag mapping keeps both small
//! positive and small negative values compact.

use vstd::prelude::*;

use crate::cursor::Cursor;
use crate::decoder::{Decoded, decode_post};
use crate::error::DecodeError;

verus! {

/// Outcome of reading the remaining groups of a variable-length integer,
/// with `idx` groups already read into `acc`.
///
/// Input that exhausts before a terminating (non-continuation) byte appears
/// is truncated, however many groups were read.  An encoding of more than
/// ten groups cannot fit a 64-bit value, so a continuation byte after the
/// tenth group with input still remaining is out-of-domain data; bits
/// shifted beyond position 63 are discarded.
pub open spec fn spec_varint_raw(b: Seq<u8>, idx: u64, acc: u64) -> Decoded<u64>
    decreases 10 - idx,
{
    if b.len() == 0 {
        Decoded::TooShort
    } else if idx >= 10 {
        Decoded::Invalid
    } else {
        let byte = b[0];
        let acc2 = acc | (((byte & 0x7f) as u64) << ((7 * idx) as u64));
        if byte & 0x80 == 0 {
            Decoded::Value { value: acc2, rest: b.skip(1) }
        } else {
            spec_varint_raw(b.skip(1), (idx + 1) as u64, acc2)
        }
    }
}

/// The signed value carried by a zig-zag mapped unsigned value.
pub open spec fn zigzag(u: u64) -> i64 {
    (if u & 1 == 1 {
        !(u >> 1)
    } else {
        u >> 1
    }) as i64
}

/// A type that can initialize itself from the variable-length integer layout
/// rather than its fixed-width one.
pub trait DecoderVarInt: Sized + DeepView {
    /// What variable-length decoding means for this type, as a total
    /// function over the remaining input bytes.
    spec fn spec_decode_varint(b: Seq<u8>) -> Decoded<<Self as DeepView>::V>;

    /// Decode one value from the front of the cursor.
    fn decode_varint_from(src: &mut Cursor) -> (r: Result<Self, DecodeError>)
        ensures
            decode_post::<Self>(Self::spec_decode_varint(old(src)@), r, final(src)@),
    ;
}

impl DecoderVarInt for i64 {
    /// Zig-zag mapped groups of 7 bits, least-significant group first.
    open spec fn spec_decode_varint(b: Seq<u8>) -> Decoded<i64> {
        match spec_varint_raw(b, 0, 0) {
            Decoded::Value { value, rest } => Decoded::Value { value: zigzag(value), rest },
            Decoded::TooShort => Decoded::TooShort,
            Decoded::Invalid => Decoded::Invalid,
        }
    }

    fn decode_varint_from(src: &mut Cursor) -> (r: Result<Self, DecodeError>) {
        let mut acc: u64 = 0;
        let mut idx: u64 = 0;
        loop
            invariant
                idx <= 10,
                spec_varint_raw(old(src)@, 0, 0) == spec_varint_raw(src@, idx, acc),
            decreases 10 - idx,
        {
            let ghost pre = src@;
            if src.remaining() < 1 {
                proof {
                    assert(spec_varint_raw(pre, idx, acc) is TooShort);
                }
                return Err(DecodeError::UnexpectedEof);
            }
            if idx >= 10 {
                proof {
                    assert(spec_varint_raw(pre, idx, acc) is Invalid);
                }
                return Err(DecodeError::InvalidData);
            }
            let byte = src.take_byte();
            let ghost pre_acc = acc;
            acc = acc | (((byte & 0x7f) as u64) << (7 * idx));
            if byte & 0x80 == 0 {
                proof {
                    assert(spec_varint_raw(pre, idx, pre_acc) == (Decoded::<u64>::Value {
                        value: acc,
                        rest: src@,
                    }));
                }
                let half = acc >> 1;
                let v: i64 = if acc & 1 == 1 {
                    #[verifier::truncate] ((!half) as i64)
                } else {
                    #[verifier::truncate] (half as i64)
                };
                return Ok(v);
            }
            proof {
                assert(spec_varint_raw(pre, idx, pre_acc) == spec_varint_raw(
                    src@,
                    (idx + 1) as u64,
                    acc,
                ));
            }
            idx = idx + 1;
        }
    }
}

/// Read exactly `len` payload bytes of a length-prefixed blob.
fn take_blob(src: &mut Cursor, len: i64) -> (r: Result<Vec<u8>, DecodeError>)
    requires
        len >= 1,
    ensures
        match r {
            Ok(v) => old(src)@.len() >= len && v@ == old(src)@.take(len as int) && final(src)@
                == old(src)@.skip(len as int),
            Err(e) => e == DecodeError::UnexpectedEof && old(src)@.len() < len,
        },
{
    let n = src.remaining();
    if (n as u64) < (len as u64) {
        return Err(DecodeError::UnexpectedEof);
    }
    Ok(src.take_bytes(len as usize))
}

impl DecoderVarInt for Vec<u8> {
    /// A variable-length signed length prefix; a length below one means the
    /// empty blob; otherwise exactly `length` raw bytes.
    open spec fn spec_decode_varint(b: Seq<u8>) -> Decoded<Seq<u8>> {
        match i64::spec_decode_varint(b) {
            Decoded::Value { value: len, rest } => {
                if len < 1 {
                    Decoded::Value { value: Seq::empty(), rest }
                } else if rest.len() < len {
                    Decoded::TooShort
                } else {
                    Decoded::Value { value: rest.take(len as int), rest: rest.skip(len as int) }
                }
            },
            Decoded::TooShort => Decoded::TooShort,
            Decoded::Invalid => Decoded::Invalid,
        }
    }

    fn decode_varint_from(src: &mut Cursor) -> (r: Result<Self, DecodeError>) {
        let len = i64::decode_varint_from(src)?;
        if len < 1 {
            let empty: Vec<u8> = Vec::new();
            proof {
                assert(empty.deep_view() =~= Seq::<u8>::empty());
            }
            return Ok(empty);
        }
        let v = take_blob(src, len)?;
        proof {
            assert(v.deep_view() =~= v@);
        }
        Ok(v)
    }
}

impl DecoderVarInt for Option<Vec<u8>> {
    /// A variable-length signed length prefix; a negative length is the
    /// absent blob, zero is the present empty blob, and a positive length is
    /// followed by exactly that many raw bytes.
    open spec fn spec_decode_varint(b: Seq<u8>) -> Decoded<Option<Seq<u8>>> {
        match i64::spec_decode_varint(b) {
            Decoded::Value { value: len, rest } => {
                if len < 0 {
                    Decoded::Value { value: None, rest }
                } else if len == 0 {
                    Decoded::Value { value: Some(Seq::empty()), rest }
                } else if rest.len() < len {
                    Decoded::TooShort
                } else {
                    Decoded::Value {
                        value: Some(rest.take(len as int)),
                        rest: rest.skip(len as int),
                    }
                }
            },
            Decoded::TooShort => Decoded::TooShort,
            Decoded::Invalid => Decoded::Invalid,
        }
    }

    fn decode_varint_from(src: &mut Cursor) -> (r: Result<Self, DecodeError>) {
        let len = i64::decode_varint_from(src)?;
        if len < 0 {
            return Ok(None);
        }
        if len == 0 {
            let empty: Vec<u8> = Vec::new();
            proof {
                assert(empty.deep_view() =~= Seq::<u8>::empty());
            }
            return Ok(Some(empty));
        }
        let v = take_blob(src, len)?;
        proof {
            assert(v.deep_view() =~= v@);
        }
        Ok(Some(v))
    }
}

} // verus!
