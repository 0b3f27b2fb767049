//! Decoders for the container shapes: sequences, optionals, ordered maps
//! and the zero-width marker.

use std::collections::BTreeMap;
use std::marker::PhantomData;

use vstd::prelude::*;

use crate::Version;
use crate::cursor::Cursor;
use crate::decoder::{Decoded, Decoder};
use crate::encoder::Encoder;
use crate::error::DecodeError;
use crate::format::{be_u32, lemma_be_u32_round_trip, u32_be};

verus! {

/// Outcome of decoding `n` consecutive elements of `M`, appended to the
/// elements `acc` already decoded.
pub open spec fn spec_decode_elems<M: Decoder>(
    b: Seq<u8>,
    version: Version,
    n: nat,
    acc: Seq<<M as DeepView>::V>,
) -> Decoded<Seq<<M as DeepView>::V>>
    decreases n,
{
    if n == 0 {
        Decoded::Value { value: acc, rest: b }
    } else {
        match M::spec_decode(b, version) {
            Decoded::Value { value, rest } => spec_decode_elems::<M>(
                rest,
                version,
                (n - 1) as nat,
                acc.push(value),
            ),
            Decoded::TooShort => Decoded::TooShort,
            Decoded::Invalid => Decoded::Invalid,
        }
    }
}

impl<M: Decoder> Decoder for Vec<M> {
    /// A 32-bit signed big-endian count prefix; a count below one means the
    /// empty sequence with no element bytes (negative counts are a permissive
    /// legacy convention, not an error); otherwise exactly `count` elements,
    /// each in `M`'s own layout.
    open spec fn spec_decode(b: Seq<u8>, version: Version) -> Decoded<Seq<<M as DeepView>::V>> {
        match i32::spec_decode(b, version) {
            Decoded::Value { value: len, rest } => {
                if len < 1 {
                    Decoded::Value { value: Seq::empty(), rest }
                } else {
                    spec_decode_elems::<M>(rest, version, len as nat, Seq::empty())
                }
            },
            Decoded::TooShort => Decoded::TooShort,
            Decoded::Invalid => Decoded::Invalid,
        }
    }

    fn decode_from(src: &mut Cursor, version: Version) -> (r: Result<Self, DecodeError>) {
        let len = i32::decode_from(src, version)?;
        let mut items: Vec<M> = Vec::new();
        if len < 1 {
            proof {
                assert(items.deep_view() =~= Seq::<<M as DeepView>::V>::empty());
            }
            return Ok(items);
        }
        let ghost start = src@;
        let mut i: i32 = 0;
        proof {
            assert(items.deep_view() =~= Seq::<<M as DeepView>::V>::empty());
        }
        while i < len
            invariant
                0 <= i <= len,
                1 <= len,
                i32::spec_decode(old(src)@, version) == (Decoded::<i32>::Value {
                    value: len,
                    rest: start,
                }),
                spec_decode_elems::<M>(src@, version, (len - i) as nat, items.deep_view())
                    == spec_decode_elems::<M>(start, version, len as nat, Seq::empty()),
            decreases len - i,
        {
            let ghost pre_items = items.deep_view();
            let ghost pre_src = src@;
            match M::decode_from(src, version) {
                Ok(m) => {
                    items.push(m);
                    proof {
                        assert(items.deep_view() =~= pre_items.push(m.deep_view()));
                    }
                },
                Err(e) => {
                    proof {
                        assert(Self::spec_decode(old(src)@, version) == spec_decode_elems::<M>(
                            start,
                            version,
                            len as nat,
                            Seq::empty(),
                        ));
                        match e {
                            DecodeError::UnexpectedEof => {
                                assert(spec_decode_elems::<M>(
                                    pre_src,
                                    version,
                                    (len - i) as nat,
                                    pre_items,
                                ) is TooShort);
                            },
                            DecodeError::InvalidData => {
                                assert(spec_decode_elems::<M>(
                                    pre_src,
                                    version,
                                    (len - i) as nat,
                                    pre_items,
                                ) is Invalid);
                            },
                        }
                    }
                    return Err(e);
                },
            }
            i = i + 1;
        }
        Ok(items)
    }
}

/// Every element of the sequence has a wire representation.
pub open spec fn all_encodable<M: Encoder>(vs: Seq<<M as DeepView>::V>, version: Version) -> bool {
    forall|i: int| 0 <= i < vs.len() ==> M::spec_encodable(#[trigger] vs[i], version)
}

/// The canonical bytes of a sequence's elements, in order, without the
/// count prefix.
pub open spec fn spec_encode_elems<M: Encoder>(
    vs: Seq<<M as DeepView>::V>,
    version: Version,
) -> Seq<u8>
    decreases vs.len(),
{
    if vs.len() == 0 {
        Seq::empty()
    } else {
        M::spec_encode(vs[0], version) + spec_encode_elems::<M>(vs.skip(1), version)
    }
}

/// Element encodings compose: the bytes of a concatenation are the
/// concatenated bytes.
proof fn lemma_encode_elems_concat<M: Encoder>(
    a: Seq<<M as DeepView>::V>,
    b: Seq<<M as DeepView>::V>,
    version: Version,
)
    ensures
        spec_encode_elems::<M>(a + b, version) == spec_encode_elems::<M>(a, version)
            + spec_encode_elems::<M>(b, version),
    decreases a.len(),
{
    if a.len() == 0 {
        assert(a + b =~= b);
        assert(spec_encode_elems::<M>(a, version) + spec_encode_elems::<M>(b, version)
            =~= spec_encode_elems::<M>(b, version));
    } else {
        assert((a + b)[0] == a[0]);
        assert((a + b).skip(1) =~= a.skip(1) + b);
        lemma_encode_elems_concat::<M>(a.skip(1), b, version);
        assert(M::spec_encode(a[0], version) + (spec_encode_elems::<M>(a.skip(1), version)
            + spec_encode_elems::<M>(b, version)) =~= (M::spec_encode(a[0], version)
            + spec_encode_elems::<M>(a.skip(1), version)) + spec_encode_elems::<M>(b, version));
    }
}

/// The bytes of one more element extend the bytes so far.
proof fn lemma_encode_elems_snoc<M: Encoder>(
    vs: Seq<<M as DeepView>::V>,
    i: int,
    version: Version,
)
    requires
        0 <= i < vs.len(),
    ensures
        spec_encode_elems::<M>(vs.take(i + 1), version) == spec_encode_elems::<M>(
            vs.take(i),
            version,
        ) + M::spec_encode(vs[i], version),
    decreases vs.len(),
{
    assert(vs.take(i + 1) =~= vs.take(i) + seq![vs[i]]);
    lemma_encode_elems_concat::<M>(vs.take(i), seq![vs[i]], version);
    assert(seq![vs[i]].skip(1) =~= Seq::<<M as DeepView>::V>::empty());
    assert(spec_encode_elems::<M>(seq![vs[i]].skip(1), version) =~= Seq::<u8>::empty());
    assert(spec_encode_elems::<M>(seq![vs[i]], version) == M::spec_encode(seq![vs[i]][0], version)
        + spec_encode_elems::<M>(seq![vs[i]].skip(1), version));
    assert(M::spec_encode(vs[i], version) + Seq::<u8>::empty() =~= M::spec_encode(vs[i], version));
}

/// The whole sequence's bytes are never shorter than a prefix's bytes.
proof fn lemma_encode_elems_prefix_len<M: Encoder>(
    vs: Seq<<M as DeepView>::V>,
    i: int,
    version: Version,
)
    requires
        0 <= i <= vs.len(),
    ensures
        spec_encode_elems::<M>(vs.take(i), version).len() <= spec_encode_elems::<M>(
            vs,
            version,
        ).len(),
{
    assert(vs =~= vs.take(i) + vs.skip(i));
    lemma_encode_elems_concat::<M>(vs.take(i), vs.skip(i), version);
}

/// Decoding the concatenated element encodings yields the elements back.
proof fn lemma_decode_elems_round_trip<M: Encoder>(
    vs: Seq<<M as DeepView>::V>,
    acc: Seq<<M as DeepView>::V>,
    rest: Seq<u8>,
    version: Version,
)
    requires
        all_encodable::<M>(vs, version),
    ensures
        spec_decode_elems::<M>(
            spec_encode_elems::<M>(vs, version) + rest,
            version,
            vs.len(),
            acc,
        ) == (Decoded::Value { value: acc + vs, rest }),
    decreases vs.len(),
{
    if vs.len() == 0 {
        assert(spec_encode_elems::<M>(vs, version) + rest =~= rest);
        assert(acc + vs =~= acc);
    } else {
        let head_bytes = M::spec_encode(vs[0], version);
        let tail_bytes = spec_encode_elems::<M>(vs.skip(1), version);
        assert(spec_encode_elems::<M>(vs, version) + rest =~= head_bytes + (tail_bytes + rest));
        M::round_trip(vs[0], tail_bytes + rest, version);
        lemma_decode_elems_round_trip::<M>(vs.skip(1), acc.push(vs[0]), rest, version);
        assert(acc.push(vs[0]) + vs.skip(1) =~= acc + vs);
    }
}

impl<M: Encoder> Encoder for Vec<M> {
    /// The count must fit the 32-bit signed prefix, every element must be
    /// representable, and the whole encoding must fit in memory.
    open spec fn spec_encodable(vs: Seq<<M as DeepView>::V>, version: Version) -> bool {
        &&& vs.len() <= 0x7fffffff
        &&& all_encodable::<M>(vs, version)
        &&& 4 + spec_encode_elems::<M>(vs, version).len() <= usize::MAX
    }

    open spec fn spec_encode(vs: Seq<<M as DeepView>::V>, version: Version) -> Seq<u8> {
        u32_be(vs.len() as u32) + spec_encode_elems::<M>(vs, version)
    }

    fn write_size(&self, version: Version) -> (n: usize) {
        let ghost vs = self.deep_view();
        let mut total: usize = 4;
        let mut i: usize = 0;
        while i < self.len()
            invariant
                i <= self.len(),
                vs == self.deep_view(),
                Self::spec_encodable(vs, version),
                total == 4 + spec_encode_elems::<M>(vs.take(i as int), version).len(),
            decreases self.len() - i,
        {
            proof {
                lemma_encode_elems_snoc::<M>(vs, i as int, version);
                lemma_encode_elems_prefix_len::<M>(vs, i + 1, version);
            }
            let step = self[i].write_size(version);
            total = total + step;
            i = i + 1;
        }
        proof {
            assert(vs.take(self.len() as int) =~= vs);
        }
        total
    }

    fn encode(&self, dest: &mut Vec<u8>, version: Version) -> (r: Result<(), DecodeError>) {
        let ghost vs = self.deep_view();
        let count = #[verifier::truncate] (self.len() as u32);
        dest.push((count >> 24) as u8);
        dest.push(#[verifier::truncate] ((count >> 16) as u8));
        dest.push(#[verifier::truncate] ((count >> 8) as u8));
        dest.push(#[verifier::truncate] (count as u8));
        let ghost with_count = dest@;
        proof {
            assert(with_count =~= old(dest)@ + u32_be(vs.len() as u32));
        }
        let mut i: usize = 0;
        while i < self.len()
            invariant
                i <= self.len(),
                vs == self.deep_view(),
                Self::spec_encodable(vs, version),
                dest@ == with_count + spec_encode_elems::<M>(vs.take(i as int), version),
            decreases self.len() - i,
        {
            proof {
                lemma_encode_elems_snoc::<M>(vs, i as int, version);
            }
            let _ = self[i].encode(dest, version);
            i = i + 1;
        }
        proof {
            assert(vs.take(self.len() as int) =~= vs);
            assert(final(dest)@ =~= old(dest)@ + Self::spec_encode(vs, version));
        }
        Ok(())
    }

    proof fn round_trip(vs: Seq<<M as DeepView>::V>, rest: Seq<u8>, version: Version) {
        let n = vs.len();
        let elems = spec_encode_elems::<M>(vs, version);
        let all = Self::spec_encode(vs, version) + rest;
        lemma_be_u32_round_trip(n as u32);
        assert(be_u32(all) == be_u32(u32_be(n as u32)));
        let c = n as u32;
        assert(c <= 0x7fffffff ==> (c as i32) == c as int) by (bit_vector);
        assert(all.skip(4) =~= elems + rest);
        assert(i32::spec_decode(all, version) == (Decoded::<i32>::Value {
            value: n as i32,
            rest: elems + rest,
        }));
        if n == 0 {
            assert(elems + rest =~= rest);
            assert(vs =~= Seq::<<M as DeepView>::V>::empty());
        } else {
            lemma_decode_elems_round_trip::<M>(vs, Seq::empty(), rest, version);
            assert(Seq::<<M as DeepView>::V>::empty() + vs =~= vs);
        }
    }
}

impl<M: Decoder> Decoder for Option<M> {
    /// A one-byte boolean presence flag; if it is true, `M`'s own layout
    /// follows; if it is false nothing follows.
    open spec fn spec_decode(b: Seq<u8>, version: Version) -> Decoded<
        Option<<M as DeepView>::V>,
    > {
        match bool::spec_decode(b, version) {
            Decoded::Value { value: present, rest } => {
                if present {
                    match M::spec_decode(rest, version) {
                        Decoded::Value { value, rest } => Decoded::Value {
                            value: Some(value),
                            rest,
                        },
                        Decoded::TooShort => Decoded::TooShort,
                        Decoded::Invalid => Decoded::Invalid,
                    }
                } else {
                    Decoded::Value { value: None, rest }
                }
            },
            Decoded::TooShort => Decoded::TooShort,
            Decoded::Invalid => Decoded::Invalid,
        }
    }

    fn decode_from(src: &mut Cursor, version: Version) -> (r: Result<Self, DecodeError>) {
        let present = bool::decode_from(src, version)?;
        if present {
            let value = M::decode_from(src, version)?;
            Ok(Some(value))
        } else {
            Ok(None)
        }
    }
}

impl<M: Encoder> Encoder for Option<M> {
    /// An absent value is always representable; a present one is as
    /// representable as its payload.
    open spec fn spec_encodable(v: Option<<M as DeepView>::V>, version: Version) -> bool {
        match v {
            None => true,
            Some(x) => M::spec_encodable(x, version) && 1 + M::spec_encode(x, version).len()
                <= usize::MAX,
        }
    }

    open spec fn spec_encode(v: Option<<M as DeepView>::V>, version: Version) -> Seq<u8> {
        match v {
            None => seq![0u8],
            Some(x) => seq![1u8] + M::spec_encode(x, version),
        }
    }

    fn write_size(&self, version: Version) -> (n: usize) {
        match self {
            None => 1,
            Some(x) => 1 + x.write_size(version),
        }
    }

    fn encode(&self, dest: &mut Vec<u8>, version: Version) -> (r: Result<(), DecodeError>) {
        match self {
            None => {
                dest.push(0);
                proof {
                    assert(final(dest)@ =~= old(dest)@ + Self::spec_encode(
                        self.deep_view(),
                        version,
                    ));
                }
            },
            Some(x) => {
                dest.push(1);
                let _ = x.encode(dest, version);
                proof {
                    assert(final(dest)@ =~= old(dest)@ + Self::spec_encode(
                        self.deep_view(),
                        version,
                    ));
                }
            },
        }
        Ok(())
    }

    proof fn round_trip(v: Option<<M as DeepView>::V>, rest: Seq<u8>, version: Version) {
        match v {
            None => {
                assert((seq![0u8] + rest)[0] == 0);
                assert((seq![0u8] + rest).skip(1) =~= rest);
            },
            Some(x) => {
                let payload = M::spec_encode(x, version);
                let all = Self::spec_encode(v, version) + rest;
                assert(all[0] == 1);
                assert(all.skip(1) =~= payload + rest);
                M::round_trip(x, rest, version);
            },
        }
    }
}

/// A decodable type that can serve as the key of an ordered map.
///
/// Map decoding inserts each decoded pair into a key-ordered structure, so a
/// key must carry a total order that its specification can reason about, and
/// its abstraction must not conflate distinct keys.
pub trait MapKey: Decoder + Ord {
    /// The key's `Ord` implementation agrees with its specification order,
    /// and its abstract value determines the key.
    proof fn key_laws()
        ensures
            vstd::laws_cmp::obeys_cmp::<Self>(),
            vstd::relations::injective(|k: Self| k.deep_view()),
    ;
}

impl MapKey for u8 {
    proof fn key_laws() {
        broadcast use vstd::laws_cmp::group_laws_cmp;

    }
}

impl MapKey for i8 {
    proof fn key_laws() {
        broadcast use vstd::laws_cmp::group_laws_cmp;

    }
}

impl MapKey for u16 {
    proof fn key_laws() {
        broadcast use vstd::laws_cmp::group_laws_cmp;

    }
}

impl MapKey for i16 {
    proof fn key_laws() {
        broadcast use vstd::laws_cmp::group_laws_cmp;

    }
}

impl MapKey for u32 {
    proof fn key_laws() {
        broadcast use vstd::laws_cmp::group_laws_cmp;

    }
}

impl MapKey for i32 {
    proof fn key_laws() {
        broadcast use vstd::laws_cmp::group_laws_cmp;

    }
}

impl MapKey for u64 {
    proof fn key_laws() {
        broadcast use vstd::laws_cmp::group_laws_cmp;

    }
}

impl MapKey for i64 {
    proof fn key_laws() {
        broadcast use vstd::laws_cmp::group_laws_cmp;

    }
}

/// Outcome of decoding `n` consecutive key/value pairs, inserted in order
/// into the map `acc`: a later pair with an already-seen key overwrites the
/// earlier one (last-write-wins).
pub open spec fn spec_decode_pairs<K: Decoder, V: Decoder>(
    b: Seq<u8>,
    version: Version,
    n: nat,
    acc: Map<<K as DeepView>::V, <V as DeepView>::V>,
) -> Decoded<Map<<K as DeepView>::V, <V as DeepView>::V>>
    decreases n,
{
    if n == 0 {
        Decoded::Value { value: acc, rest: b }
    } else {
        match K::spec_decode(b, version) {
            Decoded::Value { value: key, rest } => {
                match V::spec_decode(rest, version) {
                    Decoded::Value { value, rest } => spec_decode_pairs::<K, V>(
                        rest,
                        version,
                        (n - 1) as nat,
                        acc.insert(key, value),
                    ),
                    Decoded::TooShort => Decoded::TooShort,
                    Decoded::Invalid => Decoded::Invalid,
                }
            },
            Decoded::TooShort => Decoded::TooShort,
            Decoded::Invalid => Decoded::Invalid,
        }
    }
}

/// An empty map abstracts to the empty spec map.
proof fn lemma_btree_deep_view_empty<K: MapKey, V: Decoder>(m: BTreeMap<K, V>)
    requires
        m@ == Map::<K, V>::empty(),
    ensures
        m.deep_view() == Map::<<K as DeepView>::V, <V as DeepView>::V>::empty(),
{
    broadcast use vstd::std_specs::btree::lemma_btree_map_deepview_properties;

    K::key_laws();
    assert forall|dk: <K as DeepView>::V| !(#[trigger] m.deep_view().contains_key(dk)) by {
        if m.deep_view().contains_key(dk) {
            let k = choose|k: K| k.deep_view() == dk && #[trigger] m@.contains_key(k);
            assert(false);
        }
    }
    assert(m.deep_view() =~= Map::<<K as DeepView>::V, <V as DeepView>::V>::empty());
}

/// Inserting a pair into the map inserts its abstraction into the map's
/// abstraction.
proof fn lemma_btree_deep_view_insert<K: MapKey, V: Decoder>(
    m1: BTreeMap<K, V>,
    m2: BTreeMap<K, V>,
    key: K,
    value: V,
)
    requires
        m2@ == m1@.insert(key, value),
    ensures
        m2.deep_view() == m1.deep_view().insert(key.deep_view(), value.deep_view()),
{
    broadcast use vstd::std_specs::btree::lemma_btree_map_deepview_properties;

    K::key_laws();
    let f = |k: K| k.deep_view();
    let lhs = m2.deep_view();
    let rhs = m1.deep_view().insert(key.deep_view(), value.deep_view());
    assert forall|dk: <K as DeepView>::V| #[trigger]
        lhs.contains_key(dk) implies rhs.contains_key(dk) && lhs[dk] == rhs[dk] by {
        let k = choose|k: K| k.deep_view() == dk && #[trigger] m2@.contains_key(k);
        assert(lhs[dk] == m2@[k].deep_view());
        if dk == key.deep_view() {
            assert(f(k) == f(key));
            assert(k == key);
            assert(lhs[dk] == value.deep_view());
        } else {
            assert(k != key);
            assert(m1@.contains_key(k) && m1@[k] == m2@[k]);
            assert(m1.deep_view().contains_key(dk) && m1.deep_view()[dk] == m1@[k].deep_view());
        }
    }
    assert forall|dk: <K as DeepView>::V| #[trigger]
        rhs.contains_key(dk) implies lhs.contains_key(dk) by {
        if dk == key.deep_view() {
            assert(m2@.contains_key(key));
            assert(lhs.contains_key(key.deep_view()));
        } else {
            let k = choose|k: K| k.deep_view() == dk && #[trigger] m1@.contains_key(k);
            assert(m2@.contains_key(k));
            assert(lhs.contains_key(k.deep_view()));
        }
    }
    assert(lhs =~= rhs);
}

impl<K: MapKey, V: Decoder> Decoder for BTreeMap<K, V> {
    /// A 16-bit unsigned big-endian count prefix, then exactly `count`
    /// key/value pairs, each pair in `K`'s then `V`'s own layout, inserted in
    /// order with later duplicate keys overwriting earlier ones.
    open spec fn spec_decode(b: Seq<u8>, version: Version) -> Decoded<
        Map<<K as DeepView>::V, <V as DeepView>::V>,
    > {
        match u16::spec_decode(b, version) {
            Decoded::Value { value: n, rest } => spec_decode_pairs::<K, V>(
                rest,
                version,
                n as nat,
                Map::empty(),
            ),
            Decoded::TooShort => Decoded::TooShort,
            Decoded::Invalid => Decoded::Invalid,
        }
    }

    fn decode_from(src: &mut Cursor, version: Version) -> (r: Result<Self, DecodeError>) {
        let n = u16::decode_from(src, version)?;
        let ghost start = src@;
        let mut map: BTreeMap<K, V> = BTreeMap::new();
        proof {
            lemma_btree_deep_view_empty::<K, V>(map);
        }
        let mut i: u16 = 0;
        while i < n
            invariant
                0 <= i <= n,
                u16::spec_decode(old(src)@, version) == (Decoded::<u16>::Value {
                    value: n,
                    rest: start,
                }),
                spec_decode_pairs::<K, V>(src@, version, (n - i) as nat, map.deep_view())
                    == spec_decode_pairs::<K, V>(start, version, n as nat, Map::empty()),
            decreases n - i,
        {
            let ghost pre_map = map.deep_view();
            let ghost pre_src = src@;
            let key = match K::decode_from(src, version) {
                Ok(key) => key,
                Err(e) => {
                    proof {
                        assert(spec_decode_pairs::<K, V>(
                            pre_src,
                            version,
                            (n - i) as nat,
                            pre_map,
                        ) == Self::spec_decode(old(src)@, version));
                    }
                    return Err(e);
                },
            };
            let ghost mid_src = src@;
            let value = match V::decode_from(src, version) {
                Ok(value) => value,
                Err(e) => {
                    proof {
                        assert(spec_decode_pairs::<K, V>(
                            pre_src,
                            version,
                            (n - i) as nat,
                            pre_map,
                        ) == Self::spec_decode(old(src)@, version));
                    }
                    return Err(e);
                },
            };
            proof {
                K::key_laws();
            }
            let ghost pre_insert = map;
            map.insert(key, value);
            proof {
                lemma_btree_deep_view_insert::<K, V>(pre_insert, map, key, value);
                assert(spec_decode_pairs::<K, V>(pre_src, version, (n - i) as nat, pre_map)
                    == spec_decode_pairs::<K, V>(
                    src@,
                    version,
                    (n - i - 1) as nat,
                    map.deep_view(),
                ));
            }
            i = i + 1;
        }
        Ok(map)
    }
}

/// A zero-width type-level marker: it never appears on the wire, and
/// decoding it is a no-op that consumes no bytes and always succeeds.
pub struct Phantom<M> {
    marker: PhantomData<M>,
}

impl<M> Phantom<M> {
    /// The marker value.
    pub fn new() -> Phantom<M> {
        Phantom { marker: PhantomData }
    }
}

impl<M> DeepView for Phantom<M> {
    type V = ();

    open spec fn deep_view(&self) -> () {
        ()
    }
}

impl<M: Decoder> Decoder for Phantom<M> {
    /// Nothing on the wire: decoding succeeds and consumes no bytes.
    open spec fn spec_decode(b: Seq<u8>, version: Version) -> Decoded<()> {
        Decoded::Value { value: (), rest: b }
    }

    fn decode_from(src: &mut Cursor, version: Version) -> (r: Result<Self, DecodeError>) {
        Ok(Phantom::new())
    }
}

impl<M: Decoder> Encoder for Phantom<M> {
    open spec fn spec_encodable(v: (), version: Version) -> bool {
        true
    }

    /// Nothing on the wire.
    open spec fn spec_encode(v: (), version: Version) -> Seq<u8> {
        Seq::empty()
    }

    fn write_size(&self, version: Version) -> (n: usize) {
        0
    }

    fn encode(&self, dest: &mut Vec<u8>, version: Version) -> (r: Result<(), DecodeError>) {
        proof {
            assert(final(dest)@ =~= old(dest)@ + Seq::<u8>::empty());
        }
        Ok(())
    }

    proof fn round_trip(v: (), rest: Seq<u8>, version: Version) {
        assert(Seq::<u8>::empty() + rest =~= rest);
    }
}

} // verus!
