//! Laws that relate the conversions, casts and buffering to one another.

use vstd::prelude::*;
use vstd::std_specs::convert::FromSpec;

use crate::bag::{group_primitive_shapes, ValueBag};
use crate::seq::SeqElement;
use crate::shape::{
    buffers_as, buffers_element, cast_bool, cast_char, cast_f64_source, cast_i128, cast_i64,
    cast_str, cast_u128, cast_u64, collected, is_identified, Shape,
};

verus! {

broadcast use group_primitive_shapes;

/// Every unsigned integer, of any width, casts back to itself as a `u64`
/// and as a `u128`.
pub proof fn lemma_unsigned_round_trip(a: u8, b: u16, c: u32, d: u64, e: usize, f: u128)
    ensures
        cast_u64(<ValueBag as FromSpec<u8>>::from_spec(a)@) == Some(a as u64),
        cast_u64(<ValueBag as FromSpec<u16>>::from_spec(b)@) == Some(b as u64),
        cast_u64(<ValueBag as FromSpec<u32>>::from_spec(c)@) == Some(c as u64),
        cast_u64(<ValueBag as FromSpec<u64>>::from_spec(d)@) == Some(d),
        cast_u64(<ValueBag as FromSpec<usize>>::from_spec(e)@) == Some(e as u64),
        cast_u128(<ValueBag as FromSpec<u64>>::from_spec(d)@) == Some(d as u128),
        cast_u128(<ValueBag as FromSpec<u128>>::from_spec(f)@) == Some(f),
{
}

/// Every signed integer, of any width, casts back to itself as an `i64`
/// and as an `i128`.
pub proof fn lemma_signed_round_trip(a: i8, b: i16, c: i32, d: i64, e: isize, f: i128)
    ensures
        cast_i64(<ValueBag as FromSpec<i8>>::from_spec(a)@) == Some(a as i64),
        cast_i64(<ValueBag as FromSpec<i16>>::from_spec(b)@) == Some(b as i64),
        cast_i64(<ValueBag as FromSpec<i32>>::from_spec(c)@) == Some(c as i64),
        cast_i64(<ValueBag as FromSpec<i64>>::from_spec(d)@) == Some(d),
        cast_i64(<ValueBag as FromSpec<isize>>::from_spec(e)@) == Some(e as i64),
        cast_i128(<ValueBag as FromSpec<i64>>::from_spec(d)@) == Some(d as i128),
        cast_i128(<ValueBag as FromSpec<i128>>::from_spec(f)@) == Some(f),
{
}

/// `bool`, `char` and borrowed strings cast back to themselves.
pub proof fn lemma_other_round_trip(b: bool, c: char, s: &str)
    ensures
        cast_bool(<ValueBag as FromSpec<bool>>::from_spec(b)@) == Some(b),
        cast_char(<ValueBag as FromSpec<char>>::from_spec(c)@) == Some(c),
        cast_str(<ValueBag as FromSpec<&str>>::from_spec(s)@) == Some(s@),
{
}

/// A negative integer casts to no unsigned type.
pub proof fn lemma_negative_not_unsigned(x: i64, y: i128)
    requires
        x < 0,
        y < 0,
    ensures
        cast_u64(<ValueBag as FromSpec<i64>>::from_spec(x)@) is None,
        cast_u128(<ValueBag as FromSpec<i64>>::from_spec(x)@) is None,
        cast_u64(<ValueBag as FromSpec<i128>>::from_spec(y)@) is None,
        cast_u128(<ValueBag as FromSpec<i128>>::from_spec(y)@) is None,
{
}

/// An unsigned integer above the signed maximum casts to no signed type of
/// its width.
pub proof fn lemma_too_large_not_signed(x: u64, y: u128)
    requires
        x > i64::MAX,
        y > i128::MAX,
    ensures
        cast_i64(<ValueBag as FromSpec<u64>>::from_spec(x)@) is None,
        cast_i128(<ValueBag as FromSpec<u64>>::from_spec(x)@) == Some(x as i128),
        cast_i64(<ValueBag as FromSpec<u128>>::from_spec(y)@) is None,
        cast_i128(<ValueBag as FromSpec<u128>>::from_spec(y)@) is None,
{
}

/// Buffering keeps every cast of an element.
proof fn lemma_buffered_element_casts(e: Shape, o: Shape)
    requires
        buffers_element(e, o),
    ensures
        cast_u64(o) == cast_u64(e),
        cast_i64(o) == cast_i64(e),
        cast_u128(o) == cast_u128(e),
        cast_i128(o) == cast_i128(e),
        cast_f64_source(o) == cast_f64_source(e),
        cast_bool(o) == cast_bool(e),
        cast_char(o) == cast_char(e),
        cast_str(o) == cast_str(e),
{
}

/// Buffering a value into an owned one and borrowing it back keeps every
/// cast, element by element for a sequence, and the value borrowed back no
/// longer carries the identity of the type it was captured from.
///
/// `o` is what [`ValueBag::to_owned`] gives for `b`, and `r` what
/// [`OwnedValueBag::by_ref`](crate::OwnedValueBag::by_ref) gives for `o`.
pub proof fn lemma_owned_round_trip(b: Shape, o: Shape, r: Shape)
    requires
        buffers_as(b, o),
        r == o,
    ensures
        cast_u64(r) == cast_u64(b),
        cast_i64(r) == cast_i64(b),
        cast_u128(r) == cast_u128(b),
        cast_i128(r) == cast_i128(b),
        cast_f64_source(r) == cast_f64_source(b),
        cast_bool(r) == cast_bool(b),
        cast_char(r) == cast_char(b),
        cast_str(r) == cast_str(b),
        r is Sequence <==> b is Sequence,
        collected(r, |s: Shape| cast_u64(s)) == collected(b, |s: Shape| cast_u64(s)),
        collected(r, |s: Shape| cast_i64(s)) == collected(b, |s: Shape| cast_i64(s)),
        collected(r, |s: Shape| cast_u128(s)) == collected(b, |s: Shape| cast_u128(s)),
        collected(r, |s: Shape| cast_i128(s)) == collected(b, |s: Shape| cast_i128(s)),
        collected(r, |s: Shape| cast_bool(s)) == collected(b, |s: Shape| cast_bool(s)),
        collected(r, |s: Shape| cast_char(s)) == collected(b, |s: Shape| cast_char(s)),
        collected(r, |s: Shape| cast_str(s)) == collected(b, |s: Shape| cast_str(s)),
        !is_identified(r),
{
    match b {
        Shape::Sequence(e) => {
            let oe = r->Sequence_0;
            assert forall|i: int| 0 <= i < e.len() implies {
                &&& cast_u64(#[trigger] oe[i]) == cast_u64(e[i])
                &&& cast_i64(oe[i]) == cast_i64(e[i])
                &&& cast_u128(oe[i]) == cast_u128(e[i])
                &&& cast_i128(oe[i]) == cast_i128(e[i])
                &&& cast_bool(oe[i]) == cast_bool(e[i])
                &&& cast_char(oe[i]) == cast_char(e[i])
                &&& cast_str(oe[i]) == cast_str(e[i])
            } by {
                lemma_buffered_element_casts(e[i], oe[i]);
            }
        },
        _ => lemma_buffered_element_casts(b, o),
    }
    assert(collected(r, |s: Shape| cast_u64(s)) =~= collected(b, |s: Shape| cast_u64(s)));
    assert(collected(r, |s: Shape| cast_i64(s)) =~= collected(b, |s: Shape| cast_i64(s)));
    assert(collected(r, |s: Shape| cast_u128(s)) =~= collected(b, |s: Shape| cast_u128(s)));
    assert(collected(r, |s: Shape| cast_i128(s)) =~= collected(b, |s: Shape| cast_i128(s)));
    assert(collected(r, |s: Shape| cast_bool(s)) =~= collected(b, |s: Shape| cast_bool(s)));
    assert(collected(r, |s: Shape| cast_char(s)) =~= collected(b, |s: Shape| cast_char(s)));
    assert(collected(r, |s: Shape| cast_str(s)) =~= collected(b, |s: Shape| cast_str(s)));
}

/// Converting an array reference gives the sequence of its elements' shapes.
pub proof fn lemma_array_shape<'v, T: SeqElement<'v>, const N: usize>(v: &'v [T; N])
    ensures
        <ValueBag<'v> as FromSpec<&'v [T; N]>>::from_spec(v)@ == Shape::Sequence(
            v@.map_values(|x: T| x.element_shape()),
        ),
{
    let s = vstd::array::spec_array_as_slice(v);
    T::lemma_slice_shape(s);
    assert(s@ == v@);
}

} // verus!
