//! Laws of the loading framework, proved once and for all: round-trips of
//! the primitive conversions, the resolver's treatment of the empty key
//! and of missing members, and the loader's optional-field semantics.

use vstd::prelude::*;
use crate::convert::{load_field_spec, ConfigType};
use crate::path::{resolve_spec, PathOutcome};
use crate::value::{lookup_entry, pow10, Number, ValueNode};

verus! {

/// The node kind an unsigned integer is written as.
pub open spec fn encode_u64(v: u64) -> ValueNode {
    ValueNode::Number(Number { positive: true, mantissa: v, exponent: 0 })
}

/// The node kind a signed integer is written as.
pub open spec fn encode_i64(v: i64) -> ValueNode {
    ValueNode::Number(
        Number {
            positive: v >= 0,
            mantissa: (if v >= 0 {
                v as int
            } else {
                0 - v as int
            }) as u64,
            exponent: 0,
        },
    )
}

/// A number with exponent zero denotes its mantissa exactly.
pub proof fn lemma_exponent_zero_magnitude(n: Number)
    requires
        n.exponent == 0,
    ensures
        n.is_integral(),
        n.magnitude() == n.mantissa,
{
    assert(pow10(0) == 1);
    assert(n.mantissa as int * pow10(0) == n.mantissa as int) by (nonlinear_arith)
        requires
            pow10(0) == 1,
    {
    }
}

/// Round-trip: a `u64` written as a number node loads back unchanged, from
/// any prior value.
pub proof fn lemma_u64_round_trip(prior: u64, v: u64)
    ensures
        <u64 as ConfigType>::load_view(prior, encode_u64(v)) == Some(v),
{
    lemma_exponent_zero_magnitude(Number { positive: true, mantissa: v, exponent: 0 });
}

/// Round-trip: an `i64` written as a number node loads back unchanged,
/// from any prior value.
pub proof fn lemma_i64_round_trip(prior: i64, v: i64)
    ensures
        <i64 as ConfigType>::load_view(prior, encode_i64(v)) == Some(v),
{
    let n = Number {
        positive: v >= 0,
        mantissa: (if v >= 0 {
            v as int
        } else {
            0 - v as int
        }) as u64,
        exponent: 0,
    };
    lemma_exponent_zero_magnitude(n);
}

/// Round-trip: a `u32` written as a number node loads back unchanged.
pub proof fn lemma_u32_round_trip(prior: u32, v: u32)
    ensures
        <u32 as ConfigType>::load_view(prior, encode_u64(v as u64)) == Some(v),
{
    lemma_u64_round_trip(0, v as u64);
    assert(((v as u64) as u32) == v) by (bit_vector);
}

/// Round-trip: a `u16` written as a number node loads back unchanged.
pub proof fn lemma_u16_round_trip(prior: u16, v: u16)
    ensures
        <u16 as ConfigType>::load_view(prior, encode_u64(v as u64)) == Some(v),
{
    lemma_u64_round_trip(0, v as u64);
    assert(((v as u64) as u16) == v) by (bit_vector);
}

/// Round-trip: a `u8` written as a number node loads back unchanged.
pub proof fn lemma_u8_round_trip(prior: u8, v: u8)
    ensures
        <u8 as ConfigType>::load_view(prior, encode_u64(v as u64)) == Some(v),
{
    lemma_u64_round_trip(0, v as u64);
    assert(((v as u64) as u8) == v) by (bit_vector);
}

/// Round-trip: an `i32` written as a number node loads back unchanged.
pub proof fn lemma_i32_round_trip(prior: i32, v: i32)
    ensures
        <i32 as ConfigType>::load_view(prior, encode_i64(v as i64)) == Some(v),
{
    lemma_i64_round_trip(0, v as i64);
    assert(((v as i64) as i32) == v) by (bit_vector);
}

/// Round-trip: an `i16` written as a number node loads back unchanged.
pub proof fn lemma_i16_round_trip(prior: i16, v: i16)
    ensures
        <i16 as ConfigType>::load_view(prior, encode_i64(v as i64)) == Some(v),
{
    lemma_i64_round_trip(0, v as i64);
    assert(((v as i64) as i16) == v) by (bit_vector);
}

/// Round-trip: an `i8` written as a number node loads back unchanged.
pub proof fn lemma_i8_round_trip(prior: i8, v: i8)
    ensures
        <i8 as ConfigType>::load_view(prior, encode_i64(v as i64)) == Some(v),
{
    lemma_i64_round_trip(0, v as i64);
    assert(((v as i64) as i8) == v) by (bit_vector);
}

/// Round-trip: a boolean written as a boolean node loads back exactly.
pub proof fn lemma_bool_round_trip(prior: bool, v: bool)
    ensures
        <bool as ConfigType>::load_view(prior, ValueNode::Boolean(v)) == Some(v),
{
}

/// Round-trip: a string written as a string node loads back unchanged,
/// character for character.
pub proof fn lemma_string_round_trip(prior: Seq<char>, s: String)
    ensures
        <String as ConfigType>::load_view(prior, ValueNode::Str(s)) == Some(s@),
{
}

/// The empty key resolves to the root itself, for any root.
pub proof fn lemma_resolve_empty_key(root: ValueNode)
    ensures
        resolve_spec(root, Seq::<char>::empty()) == PathOutcome::Found(root),
{
}

/// A path whose final segment is missing fails with the whole key as the
/// reported prefix: when `root.a.b` exists and is an object with no member
/// `c`, resolving `a/b/c` is a not-found outcome carrying exactly
/// `a/b/c`.
pub proof fn lemma_missing_final_segment(
    root: ValueNode,
    mid: ValueNode,
    leaf: ValueNode,
)
    requires
        root matches ValueNode::Object(_),
        lookup_entry(root->Object_0@, "a"@) == Some(mid),
        mid matches ValueNode::Object(_),
        lookup_entry(mid->Object_0@, "b"@) == Some(leaf),
        leaf matches ValueNode::Object(_),
        lookup_entry(leaf->Object_0@, "c"@) is None,
    ensures
        resolve_spec(root, "a/b/c"@) == PathOutcome::NotFound("a/b/c"@),
{
    reveal_strlit("a/b/c");
    reveal_strlit("a");
    reveal_strlit("b");
    reveal_strlit("c");
    let k = "a/b/c"@;
    assert(k.len() == 5);
    assert(crate::path::seg_len(k.subrange(0, 5)) == 1) by {
        let s = k.subrange(0, 5);
        assert(s[0] == 'a');
        assert(s.drop_first()[0] == '/');
        assert(crate::path::seg_len(s.drop_first()) == 0);
    }
    assert(k.subrange(0, 1) =~= "a"@);
    assert(crate::path::seg_len(k.subrange(2, 5)) == 1) by {
        let s = k.subrange(2, 5);
        assert(s[0] == 'b');
        assert(s.drop_first()[0] == '/');
        assert(crate::path::seg_len(s.drop_first()) == 0);
    }
    assert(k.subrange(2, 3) =~= "b"@);
    assert(crate::path::seg_len(k.subrange(4, 5)) == 1) by {
        let s = k.subrange(4, 5);
        assert(s[0] == 'c');
        assert(s.drop_first().len() == 0);
        assert(crate::path::seg_len(s.drop_first()) == 0);
    }
    assert(k.subrange(4, 5) =~= "c"@);
    assert(k.subrange(0, 5) =~= k);
    assert(crate::path::resolve_from(root, k, 0) == crate::path::resolve_from(mid, k, 2));
    assert(crate::path::resolve_from(mid, k, 2) == crate::path::resolve_from(leaf, k, 4));
    assert(crate::path::resolve_from(leaf, k, 4) == PathOutcome::NotFound(k));
}

/// A required field whose key does not resolve fails the whole load; an
/// optional field with the same missing key succeeds and keeps its prior
/// value.
pub proof fn lemma_absent_key_field<T: ConfigType>(
    prior: T::V,
    root: ValueNode,
    key: Seq<char>,
    config_name: Seq<char>,
    full_key: Seq<char>,
)
    requires
        !(resolve_spec(root, key) matches PathOutcome::Found(_)),
    ensures
        load_field_spec::<T>(prior, root, key, false, config_name, full_key) is Err,
        load_field_spec::<T>(prior, root, key, true, config_name, full_key) == Ok::<
            T::V,
            Seq<char>,
        >(prior),
{
}

/// An optional field seeded with the absent state and bound to a key that
/// does not resolve loads to the absent state.
pub proof fn lemma_absent_optional_is_none<T: ConfigType>(
    root: ValueNode,
    key: Seq<char>,
    config_name: Seq<char>,
    full_key: Seq<char>,
)
    requires
        !(resolve_spec(root, key) matches PathOutcome::Found(_)),
    ensures
        load_field_spec::<Option<T>>(
            <Option<T> as ConfigType>::default_view(),
            root,
            key,
            true,
            config_name,
            full_key,
        ) == Ok::<Option<T::V>, Seq<char>>(None),
{
}

} // verus!
