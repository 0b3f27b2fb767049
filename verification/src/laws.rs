//! The format's general guarantees, each stated over the specification
//! functions that the codec contracts use.
//!
//! The round-trip guarantee itself — decoding a value's canonical bytes
//! yields the value, for every representable value and every version — is
//! the [`crate::encoder::Encoder::round_trip`] obligation, proved by every
//! implementation.

use std::collections::BTreeMap;

use vstd::prelude::*;

use crate::Version;
use crate::containers::{MapKey, spec_decode_pairs};
use crate::create::{ObjectCreateRequest, TestRecord};
use crate::decoder::{Decoded, Decoder};
use crate::encoder::Encoder;
use crate::format::{be_u16, be_u32, be_u64, lemma_be_u16_round_trip, u16_be};

verus! {

/// Truncation detection: a fixed-width type of width W decodes successfully
/// exactly when W bytes remain, consumes exactly W bytes, and reads its
/// value big-endian from them; with fewer bytes the outcome is truncation.
pub proof fn lemma_fixed_width_truncation(b: Seq<u8>, version: Version)
    ensures
        b.len() < 1 ==> u8::spec_decode(b, version) is TooShort,
        b.len() < 1 ==> i8::spec_decode(b, version) is TooShort,
        b.len() < 2 ==> u16::spec_decode(b, version) is TooShort,
        b.len() < 2 ==> i16::spec_decode(b, version) is TooShort,
        b.len() < 4 ==> u32::spec_decode(b, version) is TooShort,
        b.len() < 4 ==> i32::spec_decode(b, version) is TooShort,
        b.len() < 8 ==> u64::spec_decode(b, version) is TooShort,
        b.len() < 8 ==> i64::spec_decode(b, version) is TooShort,
        b.len() >= 1 ==> u8::spec_decode(b, version) == (Decoded::Value {
            value: b[0],
            rest: b.skip(1),
        }),
        b.len() >= 2 ==> u16::spec_decode(b, version) == (Decoded::Value {
            value: be_u16(b),
            rest: b.skip(2),
        }),
        b.len() >= 4 ==> u32::spec_decode(b, version) == (Decoded::Value {
            value: be_u32(b),
            rest: b.skip(4),
        }),
        b.len() >= 8 ==> u64::spec_decode(b, version) == (Decoded::Value {
            value: be_u64(b),
            rest: b.skip(8),
        }),
{
}

/// Boolean domain: one byte, `0x00` is `false`, `0x01` is `true`, and any
/// other byte is invalid data — there is no implicit truthiness.
pub proof fn lemma_bool_domain(b: Seq<u8>, version: Version)
    requires
        b.len() >= 1,
    ensures
        b[0] == 0 ==> bool::spec_decode(b, version) == (Decoded::Value {
            value: false,
            rest: b.skip(1),
        }),
        b[0] == 1 ==> bool::spec_decode(b, version) == (Decoded::Value {
            value: true,
            rest: b.skip(1),
        }),
        b[0] != 0 && b[0] != 1 ==> bool::spec_decode(b, version) is Invalid,
{
}

/// Negative-count convention: a sequence whose 32-bit count field is below
/// one — any negative count included — decodes to the empty sequence, not an
/// error, and consumes only the count field.
pub proof fn lemma_negative_count_empty<M: Decoder>(b: Seq<u8>, version: Version)
    requires
        b.len() >= 4,
        (be_u32(b) as i32) < 1,
    ensures
        Vec::<M>::spec_decode(b, version) == (Decoded::Value {
            value: Seq::<<M as DeepView>::V>::empty(),
            rest: b.skip(4),
        }),
{
}

/// String empty/null convergence: a 16-bit length of zero or any negative
/// value decodes to the empty string with no further bytes consumed, and a
/// positive length longer than what remains is truncation.
pub proof fn lemma_string_empty_null(b: Seq<u8>, version: Version)
    requires
        b.len() >= 2,
    ensures
        (be_u16(b) as i16) <= 0 ==> String::spec_decode(b, version) == (Decoded::Value {
            value: Seq::<char>::empty(),
            rest: b.skip(2),
        }),
        (be_u16(b) as i16) > 0 && b.len() - 2 < (be_u16(b) as i16) ==> String::spec_decode(
            b,
            version,
        ) is TooShort,
{
}

/// Optional semantics: a presence byte of zero decodes to the absent value
/// and consumes nothing further; a presence byte of one hands the bytes that
/// follow to the payload's own decode and wraps its value as present.
pub proof fn lemma_optional_semantics<M: Decoder>(b: Seq<u8>, version: Version)
    requires
        b.len() >= 1,
    ensures
        b[0] == 0 ==> Option::<M>::spec_decode(b, version) == (Decoded::Value {
            value: None::<<M as DeepView>::V>,
            rest: b.skip(1),
        }),
        b[0] == 1 ==> Option::<M>::spec_decode(b, version) == (match M::spec_decode(
            b.skip(1),
            version,
        ) {
            Decoded::Value { value, rest } => Decoded::Value { value: Some(value), rest },
            Decoded::TooShort => Decoded::TooShort,
            Decoded::Invalid => Decoded::Invalid,
        }),
{
}

/// Map last-write-wins: a map carrying two pairs that share one key decodes
/// to a single entry holding the second-seen value.
pub proof fn lemma_map_last_write_wins<K: MapKey + Encoder, W: Encoder>(
    kv: <K as DeepView>::V,
    v1: <W as DeepView>::V,
    v2: <W as DeepView>::V,
    rest: Seq<u8>,
    version: Version,
)
    requires
        K::spec_encodable(kv, version),
        W::spec_encodable(v1, version),
        W::spec_encodable(v2, version),
    ensures
        BTreeMap::<K, W>::spec_decode(
            u16_be(2) + (K::spec_encode(kv, version) + (W::spec_encode(v1, version) + (
            K::spec_encode(kv, version) + (W::spec_encode(v2, version) + rest)))),
            version,
        ) == (Decoded::Value {
            value: Map::<<K as DeepView>::V, <W as DeepView>::V>::empty().insert(kv, v2),
            rest,
        }),
{
    let kb = K::spec_encode(kv, version);
    let w1 = W::spec_encode(v1, version);
    let w2 = W::spec_encode(v2, version);
    let all = u16_be(2) + (kb + (w1 + (kb + (w2 + rest))));
    lemma_be_u16_round_trip(2);
    assert(be_u16(all) == be_u16(u16_be(2)));
    assert(all.skip(2) =~= kb + (w1 + (kb + (w2 + rest))));
    K::round_trip(kv, w1 + (kb + (w2 + rest)), version);
    W::round_trip(v1, kb + (w2 + rest), version);
    K::round_trip(kv, w2 + rest, version);
    W::round_trip(v2, rest, version);
    let empty = Map::<<K as DeepView>::V, <W as DeepView>::V>::empty();
    let m1 = empty.insert(kv, v1);
    let m2 = m1.insert(kv, v2);
    assert(w1 + (kb + (w2 + rest)) =~= W::spec_encode(v1, version) + (kb + (w2 + rest)));
    assert(spec_decode_pairs::<K, W>(all.skip(2), version, 2, empty) == spec_decode_pairs::<
        K,
        W,
    >(kb + (w2 + rest), version, 1, m1));
    assert(spec_decode_pairs::<K, W>(kb + (w2 + rest), version, 1, m1) == spec_decode_pairs::<
        K,
        W,
    >(rest, version, 0, m2));
    assert(spec_decode_pairs::<K, W>(rest, version, 0, m2) == (Decoded::Value {
        value: m2,
        rest,
    }));
    assert(m2 =~= empty.insert(kv, v2));
}

/// Tagged-union tag exhaustiveness: a discriminant byte outside the tag
/// table is invalid data, never a silent fallback.
pub proof fn lemma_unknown_tag_invalid(b: Seq<u8>, version: Version)
    requires
        b.len() >= 1,
        b[0] > 6,
    ensures
        ObjectCreateRequest::spec_decode(b, version) is Invalid,
{
}

/// Version gating: below version 2 the gated field of [`TestRecord`] keeps
/// its default and consumes no bytes; from version 2 on it is read from the
/// wire after the ungated field.
pub proof fn lemma_version_gating(b: Seq<u8>, version: Version)
    requires
        b.len() >= 2,
    ensures
        version <= 1 ==> TestRecord::spec_decode(b, version) == (Decoded::Value {
            value: TestRecord { value: b[0] as i8, value2: 0 },
            rest: b.skip(1),
        }),
        version >= 2 ==> TestRecord::spec_decode(b, version) == (Decoded::Value {
            value: TestRecord { value: b[0] as i8, value2: b[1] as i8 },
            rest: b.skip(2),
        }),
{
    if version >= 2 {
        assert(b.skip(1)[0] == b[1]);
        assert(b.skip(1).skip(1) =~= b.skip(2));
    }
}

} // verus!
