//! The encode side of the wire contract.

use vstd::prelude::*;

use crate::Version;
use crate::decoder::{Decoded, Decoder};
use crate::error::DecodeError;
use crate::format::{
    be_u16, be_u32, be_u64, lemma_be_u16_round_trip, lemma_be_u32_round_trip,
    lemma_be_u64_round_trip, u16_be, u32_be, u64_be,
};

verus! {

/// A type that can report its exact serialized byte length for a given
/// version and write its own canonical bytes for that version.
///
/// The reported size and the bytes written agree exactly, and decoding the
/// written bytes yields the value back: every implementation carries a proof
/// of that round trip.
pub trait Encoder: Decoder {
    /// Which abstract values have a wire representation at this version.
    ///
    /// Length prefixes bound what fits: a string must fit a 16-bit signed
    /// length, a sequence a 32-bit signed count, and the whole encoding must
    /// fit in memory.
    spec fn spec_encodable(v: <Self as DeepView>::V, version: Version) -> bool;

    /// The canonical bytes of an abstract value at a version.
    spec fn spec_encode(v: <Self as DeepView>::V, version: Version) -> Seq<u8>;

    /// The exact number of bytes that [`Self::encode`] writes.
    fn write_size(&self, version: Version) -> (n: usize)
        requires
            Self::spec_encodable(self.deep_view(), version),
        ensures
            n == Self::spec_encode(self.deep_view(), version).len(),
    ;

    /// Append the value's canonical bytes to `dest`.
    ///
    /// Encoding a representable in-memory value always succeeds.
    fn encode(&self, dest: &mut Vec<u8>, version: Version) -> (r: Result<(), DecodeError>)
        requires
            Self::spec_encodable(self.deep_view(), version),
        ensures
            r is Ok,
            final(dest)@ == old(dest)@ + Self::spec_encode(self.deep_view(), version),
    ;

    /// Decoding a value's canonical bytes yields the value and consumes
    /// nothing beyond them, whatever bytes follow.
    proof fn round_trip(v: <Self as DeepView>::V, rest: Seq<u8>, version: Version)
        requires
            Self::spec_encodable(v, version),
        ensures
            Self::spec_decode(Self::spec_encode(v, version) + rest, version) == (Decoded::Value {
                value: v,
                rest,
            }),
    ;
}

impl Encoder for bool {
    open spec fn spec_encodable(v: bool, version: Version) -> bool {
        true
    }

    open spec fn spec_encode(v: bool, version: Version) -> Seq<u8> {
        if v {
            seq![1u8]
        } else {
            seq![0u8]
        }
    }

    fn write_size(&self, version: Version) -> (n: usize) {
        1
    }

    fn encode(&self, dest: &mut Vec<u8>, version: Version) -> (r: Result<(), DecodeError>) {
        dest.push(if *self {
            1
        } else {
            0
        });
        proof {
            assert(final(dest)@ =~= old(dest)@ + Self::spec_encode(self.deep_view(), version));
        }
        Ok(())
    }

    proof fn round_trip(v: bool, rest: Seq<u8>, version: Version) {
        assert(Self::spec_encode(v, version) + rest =~= seq![
            if v {
                1u8
            } else {
                0u8
            },
        ] + rest);
        assert((Self::spec_encode(v, version) + rest).skip(1) =~= rest);
    }
}

impl Encoder for u8 {
    open spec fn spec_encodable(v: u8, version: Version) -> bool {
        true
    }

    open spec fn spec_encode(v: u8, version: Version) -> Seq<u8> {
        seq![v]
    }

    fn write_size(&self, version: Version) -> (n: usize) {
        1
    }

    fn encode(&self, dest: &mut Vec<u8>, version: Version) -> (r: Result<(), DecodeError>) {
        dest.push(*self);
        proof {
            assert(final(dest)@ =~= old(dest)@ + Self::spec_encode(self.deep_view(), version));
        }
        Ok(())
    }

    proof fn round_trip(v: u8, rest: Seq<u8>, version: Version) {
        assert((seq![v] + rest).skip(1) =~= rest);
    }
}

impl Encoder for i8 {
    open spec fn spec_encodable(v: i8, version: Version) -> bool {
        true
    }

    open spec fn spec_encode(v: i8, version: Version) -> Seq<u8> {
        seq![v as u8]
    }

    fn write_size(&self, version: Version) -> (n: usize) {
        1
    }

    fn encode(&self, dest: &mut Vec<u8>, version: Version) -> (r: Result<(), DecodeError>) {
        dest.push(#[verifier::truncate] (*self as u8));
        proof {
            assert(final(dest)@ =~= old(dest)@ + Self::spec_encode(self.deep_view(), version));
        }
        Ok(())
    }

    proof fn round_trip(v: i8, rest: Seq<u8>, version: Version) {
        assert(((v as u8) as i8) == v) by (bit_vector);
        assert((seq![v as u8] + rest).skip(1) =~= rest);
    }
}

impl Encoder for u16 {
    open spec fn spec_encodable(v: u16, version: Version) -> bool {
        true
    }

    open spec fn spec_encode(v: u16, version: Version) -> Seq<u8> {
        u16_be(v)
    }

    fn write_size(&self, version: Version) -> (n: usize) {
        2
    }

    fn encode(&self, dest: &mut Vec<u8>, version: Version) -> (r: Result<(), DecodeError>) {
        let v = *self;
        dest.push((v >> 8) as u8);
        dest.push(#[verifier::truncate] (v as u8));
        proof {
            assert(final(dest)@ =~= old(dest)@ + Self::spec_encode(self.deep_view(), version));
        }
        Ok(())
    }

    proof fn round_trip(v: u16, rest: Seq<u8>, version: Version) {
        lemma_be_u16_round_trip(v);
        assert((u16_be(v) + rest).skip(2) =~= rest);
    }
}

impl Encoder for i16 {
    open spec fn spec_encodable(v: i16, version: Version) -> bool {
        true
    }

    open spec fn spec_encode(v: i16, version: Version) -> Seq<u8> {
        u16_be(v as u16)
    }

    fn write_size(&self, version: Version) -> (n: usize) {
        2
    }

    fn encode(&self, dest: &mut Vec<u8>, version: Version) -> (r: Result<(), DecodeError>) {
        let v = #[verifier::truncate] (*self as u16);
        dest.push((v >> 8) as u8);
        dest.push(#[verifier::truncate] (v as u8));
        proof {
            assert(final(dest)@ =~= old(dest)@ + Self::spec_encode(self.deep_view(), version));
        }
        Ok(())
    }

    proof fn round_trip(v: i16, rest: Seq<u8>, version: Version) {
        lemma_be_u16_round_trip(v as u16);
        assert(((v as u16) as i16) == v) by (bit_vector);
        assert((u16_be(v as u16) + rest).skip(2) =~= rest);
    }
}

impl Encoder for u32 {
    open spec fn spec_encodable(v: u32, version: Version) -> bool {
        true
    }

    open spec fn spec_encode(v: u32, version: Version) -> Seq<u8> {
        u32_be(v)
    }

    fn write_size(&self, version: Version) -> (n: usize) {
        4
    }

    fn encode(&self, dest: &mut Vec<u8>, version: Version) -> (r: Result<(), DecodeError>) {
        let v = *self;
        dest.push((v >> 24) as u8);
        dest.push(#[verifier::truncate] ((v >> 16) as u8));
        dest.push(#[verifier::truncate] ((v >> 8) as u8));
        dest.push(#[verifier::truncate] (v as u8));
        proof {
            assert(final(dest)@ =~= old(dest)@ + Self::spec_encode(self.deep_view(), version));
        }
        Ok(())
    }

    proof fn round_trip(v: u32, rest: Seq<u8>, version: Version) {
        lemma_be_u32_round_trip(v);
        assert((u32_be(v) + rest).skip(4) =~= rest);
    }
}

impl Encoder for i32 {
    open spec fn spec_encodable(v: i32, version: Version) -> bool {
        true
    }

    open spec fn spec_encode(v: i32, version: Version) -> Seq<u8> {
        u32_be(v as u32)
    }

    fn write_size(&self, version: Version) -> (n: usize) {
        4
    }

    fn encode(&self, dest: &mut Vec<u8>, version: Version) -> (r: Result<(), DecodeError>) {
        let v = #[verifier::truncate] (*self as u32);
        dest.push((v >> 24) as u8);
        dest.push(#[verifier::truncate] ((v >> 16) as u8));
        dest.push(#[verifier::truncate] ((v >> 8) as u8));
        dest.push(#[verifier::truncate] (v as u8));
        proof {
            assert(final(dest)@ =~= old(dest)@ + Self::spec_encode(self.deep_view(), version));
        }
        Ok(())
    }

    proof fn round_trip(v: i32, rest: Seq<u8>, version: Version) {
        lemma_be_u32_round_trip(v as u32);
        assert(((v as u32) as i32) == v) by (bit_vector);
        assert((u32_be(v as u32) + rest).skip(4) =~= rest);
    }
}

impl Encoder for u64 {
    open spec fn spec_encodable(v: u64, version: Version) -> bool {
        true
    }

    open spec fn spec_encode(v: u64, version: Version) -> Seq<u8> {
        u64_be(v)
    }

    fn write_size(&self, version: Version) -> (n: usize) {
        8
    }

    fn encode(&self, dest: &mut Vec<u8>, version: Version) -> (r: Result<(), DecodeError>) {
        let v = *self;
        dest.push((v >> 56) as u8);
        dest.push(#[verifier::truncate] ((v >> 48) as u8));
        dest.push(#[verifier::truncate] ((v >> 40) as u8));
        dest.push(#[verifier::truncate] ((v >> 32) as u8));
        dest.push(#[verifier::truncate] ((v >> 24) as u8));
        dest.push(#[verifier::truncate] ((v >> 16) as u8));
        dest.push(#[verifier::truncate] ((v >> 8) as u8));
        dest.push(#[verifier::truncate] (v as u8));
        proof {
            assert(final(dest)@ =~= old(dest)@ + Self::spec_encode(self.deep_view(), version));
        }
        Ok(())
    }

    proof fn round_trip(v: u64, rest: Seq<u8>, version: Version) {
        lemma_be_u64_round_trip(v);
        assert((u64_be(v) + rest).skip(8) =~= rest);
    }
}

impl Encoder for i64 {
    open spec fn spec_encodable(v: i64, version: Version) -> bool {
        true
    }

    open spec fn spec_encode(v: i64, version: Version) -> Seq<u8> {
        u64_be(v as u64)
    }

    fn write_size(&self, version: Version) -> (n: usize) {
        8
    }

    fn encode(&self, dest: &mut Vec<u8>, version: Version) -> (r: Result<(), DecodeError>) {
        let v = #[verifier::truncate] (*self as u64);
        dest.push((v >> 56) as u8);
        dest.push(#[verifier::truncate] ((v >> 48) as u8));
        dest.push(#[verifier::truncate] ((v >> 40) as u8));
        dest.push(#[verifier::truncate] ((v >> 32) as u8));
        dest.push(#[verifier::truncate] ((v >> 24) as u8));
        dest.push(#[verifier::truncate] ((v >> 16) as u8));
        dest.push(#[verifier::truncate] ((v >> 8) as u8));
        dest.push(#[verifier::truncate] (v as u8));
        proof {
            assert(final(dest)@ =~= old(dest)@ + Self::spec_encode(self.deep_view(), version));
        }
        Ok(())
    }

    proof fn round_trip(v: i64, rest: Seq<u8>, version: Version) {
        lemma_be_u64_round_trip(v as u64);
        assert(((v as u64) as i64) == v) by (bit_vector);
        assert((u64_be(v as u64) + rest).skip(8) =~= rest);
    }
}

impl Encoder for String {
    /// The text must fit the 16-bit signed length prefix.
    open spec fn spec_encodable(v: Seq<char>, version: Version) -> bool {
        vstd::utf8::encode_utf8(v).len() <= 0x7fff
    }

    open spec fn spec_encode(v: Seq<char>, version: Version) -> Seq<u8> {
        let payload = vstd::utf8::encode_utf8(v);
        u16_be(payload.len() as u16) + payload
    }

    fn write_size(&self, version: Version) -> (n: usize) {
        2 + self.as_str().as_bytes().len()
    }

    fn encode(&self, dest: &mut Vec<u8>, version: Version) -> (r: Result<(), DecodeError>) {
        let bytes = self.as_str().as_bytes();
        let n = bytes.len() as u16;
        dest.push((n >> 8) as u8);
        dest.push(#[verifier::truncate] (n as u8));
        let ghost with_len = dest@;
        let mut i: usize = 0;
        while i < bytes.len()
            invariant
                i <= bytes.len(),
                dest@ == with_len + bytes@.take(i as int),
            decreases bytes.len() - i,
        {
            dest.push(bytes[i]);
            proof {
                assert(dest@ =~= with_len + bytes@.take(i + 1));
            }
            i = i + 1;
        }
        proof {
            assert(bytes@.take(bytes@.len() as int) =~= bytes@);
            assert(final(dest)@ =~= old(dest)@ + Self::spec_encode(self.deep_view(), version));
        }
        Ok(())
    }

    proof fn round_trip(v: Seq<char>, rest: Seq<u8>, version: Version) {
        broadcast use vstd::utf8::encode_utf8_valid_utf8, vstd::utf8::encode_utf8_decode_utf8;

        let payload = vstd::utf8::encode_utf8(v);
        let n = payload.len() as u16;
        let all = Self::spec_encode(v, version) + rest;
        lemma_be_u16_round_trip(n);
        assert(be_u16(all) == n);
        assert(n <= 0x7fff ==> (n as i16) == n as int) by (bit_vector);
        if payload.len() == 0 {
            assert(all.skip(2) =~= rest);
            assert(vstd::utf8::decode_utf8(payload) =~= v);
            assert(v =~= Seq::<char>::empty());
        } else {
            assert(all.skip(2) =~= payload + rest);
            assert(all.skip(2).take(payload.len() as int) =~= payload);
            assert(all.skip(2 + payload.len() as int) =~= rest);
        }
    }
}

} // verus!
