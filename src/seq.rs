//! Sequences: borrowed slices of primitives or of other values, and casts
//! that keep each element at its index.

use vstd::prelude::*;

use crate::bag::{lemma_view_is_shape, Internal, SeqRef, ValueBag};
use crate::shape::{
    as_element, cast_bool, cast_char, cast_f64_source, cast_i128, cast_i64, cast_str, cast_u128,
    cast_u64, char_shape, collected, not_owned, view_cows, view_strs, F64Source, Shape,
};
use std::borrow::Cow;
use vstd::std_specs::convert::FromSpecImpl;

verus! {

broadcast use lemma_view_is_shape;

/// An element type that a [`ValueBag`] can borrow a slice of.
pub trait SeqElement<'v>: Sized {
    /// The shape an element takes inside a sequence.
    spec fn element_shape(&self) -> Shape;

    /// The value holding the slice `s` as a sequence.
    spec fn spec_bag_of_slice(s: &'v [Self]) -> ValueBag<'v>;

    /// The value holding `s` is the sequence of its elements' shapes.
    proof fn lemma_slice_shape(s: &'v [Self])
        ensures
            Self::spec_bag_of_slice(s)@ == Shape::Sequence(
                s@.map_values(|x: Self| x.element_shape()),
            ),
    ;

    /// The value holding the slice `s` as a sequence.
    fn bag_of_slice(s: &'v [Self]) -> (r: ValueBag<'v>)
        ensures
            r == Self::spec_bag_of_slice(s),
            r@ == Shape::Sequence(s@.map_values(|x: Self| x.element_shape())),
    ;
}

impl<'v> SeqElement<'v> for u8 {
    open spec fn element_shape(&self) -> Shape {
        Shape::Unsigned(*self as u64)
    }

    closed spec fn spec_bag_of_slice(s: &'v [Self]) -> ValueBag<'v> {
        ValueBag { inner: Internal::Sequence(SeqRef::U8(s)) }
    }

    proof fn lemma_slice_shape(s: &'v [Self]) {
        assert(s@.map_values(|x: Self| x.element_shape()) =~= SeqRef::U8(s).elements());
    }

    fn bag_of_slice(s: &'v [Self]) -> (r: ValueBag<'v>) {
        let r = ValueBag { inner: Internal::Sequence(SeqRef::U8(s)) };
        proof {
            Self::lemma_slice_shape(s);
        }
        r
    }
}

impl<'v> SeqElement<'v> for u16 {
    open spec fn element_shape(&self) -> Shape {
        Shape::Unsigned(*self as u64)
    }

    closed spec fn spec_bag_of_slice(s: &'v [Self]) -> ValueBag<'v> {
        ValueBag { inner: Internal::Sequence(SeqRef::U16(s)) }
    }

    proof fn lemma_slice_shape(s: &'v [Self]) {
        assert(s@.map_values(|x: Self| x.element_shape()) =~= SeqRef::U16(s).elements());
    }

    fn bag_of_slice(s: &'v [Self]) -> (r: ValueBag<'v>) {
        let r = ValueBag { inner: Internal::Sequence(SeqRef::U16(s)) };
        proof {
            Self::lemma_slice_shape(s);
        }
        r
    }
}

impl<'v> SeqElement<'v> for u32 {
    open spec fn element_shape(&self) -> Shape {
        Shape::Unsigned(*self as u64)
    }

    closed spec fn spec_bag_of_slice(s: &'v [Self]) -> ValueBag<'v> {
        ValueBag { inner: Internal::Sequence(SeqRef::U32(s)) }
    }

    proof fn lemma_slice_shape(s: &'v [Self]) {
        assert(s@.map_values(|x: Self| x.element_shape()) =~= SeqRef::U32(s).elements());
    }

    fn bag_of_slice(s: &'v [Self]) -> (r: ValueBag<'v>) {
        let r = ValueBag { inner: Internal::Sequence(SeqRef::U32(s)) };
        proof {
            Self::lemma_slice_shape(s);
        }
        r
    }
}

impl<'v> SeqElement<'v> for usize {
    open spec fn element_shape(&self) -> Shape {
        Shape::Unsigned(*self as u64)
    }

    closed spec fn spec_bag_of_slice(s: &'v [Self]) -> ValueBag<'v> {
        ValueBag { inner: Internal::Sequence(SeqRef::Usize(s)) }
    }

    proof fn lemma_slice_shape(s: &'v [Self]) {
        assert(s@.map_values(|x: Self| x.element_shape()) =~= SeqRef::Usize(s).elements());
    }

    fn bag_of_slice(s: &'v [Self]) -> (r: ValueBag<'v>) {
        let r = ValueBag { inner: Internal::Sequence(SeqRef::Usize(s)) };
        proof {
            Self::lemma_slice_shape(s);
        }
        r
    }
}

impl<'v> SeqElement<'v> for u64 {
    open spec fn element_shape(&self) -> Shape {
        Shape::Unsigned(*self)
    }

    closed spec fn spec_bag_of_slice(s: &'v [Self]) -> ValueBag<'v> {
        ValueBag { inner: Internal::Sequence(SeqRef::U64(s)) }
    }

    proof fn lemma_slice_shape(s: &'v [Self]) {
        assert(s@.map_values(|x: Self| x.element_shape()) =~= SeqRef::U64(s).elements());
    }

    fn bag_of_slice(s: &'v [Self]) -> (r: ValueBag<'v>) {
        let r = ValueBag { inner: Internal::Sequence(SeqRef::U64(s)) };
        proof {
            Self::lemma_slice_shape(s);
        }
        r
    }
}

impl<'v> SeqElement<'v> for i8 {
    open spec fn element_shape(&self) -> Shape {
        Shape::Signed(*self as i64)
    }

    closed spec fn spec_bag_of_slice(s: &'v [Self]) -> ValueBag<'v> {
        ValueBag { inner: Internal::Sequence(SeqRef::I8(s)) }
    }

    proof fn lemma_slice_shape(s: &'v [Self]) {
        assert(s@.map_values(|x: Self| x.element_shape()) =~= SeqRef::I8(s).elements());
    }

    fn bag_of_slice(s: &'v [Self]) -> (r: ValueBag<'v>) {
        let r = ValueBag { inner: Internal::Sequence(SeqRef::I8(s)) };
        proof {
            Self::lemma_slice_shape(s);
        }
        r
    }
}

impl<'v> SeqElement<'v> for i16 {
    open spec fn element_shape(&self) -> Shape {
        Shape::Signed(*self as i64)
    }

    closed spec fn spec_bag_of_slice(s: &'v [Self]) -> ValueBag<'v> {
        ValueBag { inner: Internal::Sequence(SeqRef::I16(s)) }
    }

    proof fn lemma_slice_shape(s: &'v [Self]) {
        assert(s@.map_values(|x: Self| x.element_shape()) =~= SeqRef::I16(s).elements());
    }

    fn bag_of_slice(s: &'v [Self]) -> (r: ValueBag<'v>) {
        let r = ValueBag { inner: Internal::Sequence(SeqRef::I16(s)) };
        proof {
            Self::lemma_slice_shape(s);
        }
        r
    }
}

impl<'v> SeqElement<'v> for i32 {
    open spec fn element_shape(&self) -> Shape {
        Shape::Signed(*self as i64)
    }

    closed spec fn spec_bag_of_slice(s: &'v [Self]) -> ValueBag<'v> {
        ValueBag { inner: Internal::Sequence(SeqRef::I32(s)) }
    }

    proof fn lemma_slice_shape(s: &'v [Self]) {
        assert(s@.map_values(|x: Self| x.element_shape()) =~= SeqRef::I32(s).elements());
    }

    fn bag_of_slice(s: &'v [Self]) -> (r: ValueBag<'v>) {
        let r = ValueBag { inner: Internal::Sequence(SeqRef::I32(s)) };
        proof {
            Self::lemma_slice_shape(s);
        }
        r
    }
}

impl<'v> SeqElement<'v> for isize {
    open spec fn element_shape(&self) -> Shape {
        Shape::Signed(*self as i64)
    }

    closed spec fn spec_bag_of_slice(s: &'v [Self]) -> ValueBag<'v> {
        ValueBag { inner: Internal::Sequence(SeqRef::Isize(s)) }
    }

    proof fn lemma_slice_shape(s: &'v [Self]) {
        assert(s@.map_values(|x: Self| x.element_shape()) =~= SeqRef::Isize(s).elements());
    }

    fn bag_of_slice(s: &'v [Self]) -> (r: ValueBag<'v>) {
        let r = ValueBag { inner: Internal::Sequence(SeqRef::Isize(s)) };
        proof {
            Self::lemma_slice_shape(s);
        }
        r
    }
}

impl<'v> SeqElement<'v> for i64 {
    open spec fn element_shape(&self) -> Shape {
        Shape::Signed(*self)
    }

    closed spec fn spec_bag_of_slice(s: &'v [Self]) -> ValueBag<'v> {
        ValueBag { inner: Internal::Sequence(SeqRef::I64(s)) }
    }

    proof fn lemma_slice_shape(s: &'v [Self]) {
        assert(s@.map_values(|x: Self| x.element_shape()) =~= SeqRef::I64(s).elements());
    }

    fn bag_of_slice(s: &'v [Self]) -> (r: ValueBag<'v>) {
        let r = ValueBag { inner: Internal::Sequence(SeqRef::I64(s)) };
        proof {
            Self::lemma_slice_shape(s);
        }
        r
    }
}

impl<'v> SeqElement<'v> for u128 {
    open spec fn element_shape(&self) -> Shape {
        Shape::BigUnsigned(*self)
    }

    closed spec fn spec_bag_of_slice(s: &'v [Self]) -> ValueBag<'v> {
        ValueBag { inner: Internal::Sequence(SeqRef::U128(s)) }
    }

    proof fn lemma_slice_shape(s: &'v [Self]) {
        assert(s@.map_values(|x: Self| x.element_shape()) =~= SeqRef::U128(s).elements());
    }

    fn bag_of_slice(s: &'v [Self]) -> (r: ValueBag<'v>) {
        let r = ValueBag { inner: Internal::Sequence(SeqRef::U128(s)) };
        proof {
            Self::lemma_slice_shape(s);
        }
        r
    }
}

impl<'v> SeqElement<'v> for i128 {
    open spec fn element_shape(&self) -> Shape {
        Shape::BigSigned(*self)
    }

    closed spec fn spec_bag_of_slice(s: &'v [Self]) -> ValueBag<'v> {
        ValueBag { inner: Internal::Sequence(SeqRef::I128(s)) }
    }

    proof fn lemma_slice_shape(s: &'v [Self]) {
        assert(s@.map_values(|x: Self| x.element_shape()) =~= SeqRef::I128(s).elements());
    }

    fn bag_of_slice(s: &'v [Self]) -> (r: ValueBag<'v>) {
        let r = ValueBag { inner: Internal::Sequence(SeqRef::I128(s)) };
        proof {
            Self::lemma_slice_shape(s);
        }
        r
    }
}

impl<'v> SeqElement<'v> for bool {
    open spec fn element_shape(&self) -> Shape {
        Shape::Bool(*self)
    }

    closed spec fn spec_bag_of_slice(s: &'v [Self]) -> ValueBag<'v> {
        ValueBag { inner: Internal::Sequence(SeqRef::Bool(s)) }
    }

    proof fn lemma_slice_shape(s: &'v [Self]) {
        assert(s@.map_values(|x: Self| x.element_shape()) =~= SeqRef::Bool(s).elements());
    }

    fn bag_of_slice(s: &'v [Self]) -> (r: ValueBag<'v>) {
        let r = ValueBag { inner: Internal::Sequence(SeqRef::Bool(s)) };
        proof {
            Self::lemma_slice_shape(s);
        }
        r
    }
}

impl<'v> SeqElement<'v> for char {
    open spec fn element_shape(&self) -> Shape {
        char_shape(*self)
    }

    closed spec fn spec_bag_of_slice(s: &'v [Self]) -> ValueBag<'v> {
        ValueBag { inner: Internal::Sequence(SeqRef::Char(s)) }
    }

    proof fn lemma_slice_shape(s: &'v [Self]) {
        assert(s@.map_values(|x: Self| x.element_shape()) =~= SeqRef::Char(s).elements());
    }

    fn bag_of_slice(s: &'v [Self]) -> (r: ValueBag<'v>) {
        let r = ValueBag { inner: Internal::Sequence(SeqRef::Char(s)) };
        proof {
            Self::lemma_slice_shape(s);
        }
        r
    }
}

impl<'v, 'a: 'v> SeqElement<'v> for &'a str {
    open spec fn element_shape(&self) -> Shape {
        Shape::Str(self@)
    }

    closed spec fn spec_bag_of_slice(s: &'v [Self]) -> ValueBag<'v> {
        ValueBag { inner: Internal::Sequence(SeqRef::Str(s)) }
    }

    proof fn lemma_slice_shape(s: &'v [Self]) {
        assert(s@.map_values(|x: Self| x.element_shape()) =~= SeqRef::Str(s).elements());
    }

    fn bag_of_slice(s: &'v [Self]) -> (r: ValueBag<'v>) {
        let r = ValueBag { inner: Internal::Sequence(SeqRef::Str(s)) };
        proof {
            Self::lemma_slice_shape(s);
        }
        r
    }
}

impl<'v> SeqElement<'v> for ValueBag<'v> {
    open spec fn element_shape(&self) -> Shape {
        as_element(self@)
    }

    closed spec fn spec_bag_of_slice(s: &'v [Self]) -> ValueBag<'v> {
        ValueBag { inner: Internal::Sequence(SeqRef::Values(s)) }
    }

    proof fn lemma_slice_shape(s: &'v [Self]) {
        assert(s@.map_values(|x: Self| x.element_shape()) =~= SeqRef::Values(s).elements());
    }

    fn bag_of_slice(s: &'v [Self]) -> (r: ValueBag<'v>) {
        let r = ValueBag { inner: Internal::Sequence(SeqRef::Values(s)) };
        proof {
            Self::lemma_slice_shape(s);
        }
        r
    }
}

impl<'v> ValueBag<'v> {
    /// The number of elements, if this value is a sequence.
    pub fn seq_len(&self) -> (r: Option<usize>)
        ensures
            match self@ {
                Shape::Sequence(e) => r == Some(e.len() as usize),
                _ => r is None,
            },
    {
        match self.inner {
            Internal::Sequence(seq) => Some(seq.len()),
            _ => None,
        }
    }

    /// The element at index `i`, if this value is a sequence that long.
    ///
    /// An element that is itself a sequence comes back as that sequence.
    pub fn element(&self, i: usize) -> (r: Option<ValueBag<'v>>)
        ensures
            match self@ {
                Shape::Sequence(e) => if i < e.len() {
                    r matches Some(b) && as_element(b@) == e[i as int]
                } else {
                    r is None
                },
                _ => r is None,
            },
    {
        match self.inner {
            Internal::Sequence(seq) => if i < seq.len() {
                Some(ValueBag { inner: seq.get(i) })
            } else {
                None
            },
            _ => None,
        }
    }

    /// Get a value from a sequence of values without capturing support.
    pub fn from_seq_slice<T: SeqElement<'v>>(value: &'v [T]) -> (r: Self)
        ensures
            r == T::spec_bag_of_slice(value),
            r@ == Shape::Sequence(value@.map_values(|x: T| x.element_shape())),
    {
        T::bag_of_slice(value)
    }

    /// Try get a collection of `u64`s from this value.
    ///
    /// If this value is a sequence, the result holds the cast of each of its
    /// elements, in order, with `None` for an element that does not convert.
    /// If it is not a sequence, the result is `None`.
    pub fn to_u64_seq(&self) -> (r: Option<Vec<Option<u64>>>)
        ensures
            r is Some <==> self@ is Sequence,
            r is Some ==> r->0@ == collected(self@, |s: Shape| cast_u64(s)),
    {
        match self.inner {
            Internal::Sequence(_) => {
                let mut v = Vec::new();
                self.collect_u64(&mut v);
                proof {
                    assert(v@ =~= Seq::<Option<u64>>::empty() + v@);
                }
                Some(v)
            },
            _ => None,
        }
    }

    /// Try get a collection of `i64`s from this value.
    ///
    /// If this value is a sequence, the result holds the cast of each of its
    /// elements, in order, with `None` for an element that does not convert.
    /// If it is not a sequence, the result is `None`.
    pub fn to_i64_seq(&self) -> (r: Option<Vec<Option<i64>>>)
        ensures
            r is Some <==> self@ is Sequence,
            r is Some ==> r->0@ == collected(self@, |s: Shape| cast_i64(s)),
    {
        match self.inner {
            Internal::Sequence(_) => {
                let mut v = Vec::new();
                self.collect_i64(&mut v);
                proof {
                    assert(v@ =~= Seq::<Option<i64>>::empty() + v@);
                }
                Some(v)
            },
            _ => None,
        }
    }

    /// Try get a collection of `u128`s from this value.
    ///
    /// If this value is a sequence, the result holds the cast of each of its
    /// elements, in order, with `None` for an element that does not convert.
    /// If it is not a sequence, the result is `None`.
    pub fn to_u128_seq(&self) -> (r: Option<Vec<Option<u128>>>)
        ensures
            r is Some <==> self@ is Sequence,
            r is Some ==> r->0@ == collected(self@, |s: Shape| cast_u128(s)),
    {
        match self.inner {
            Internal::Sequence(_) => {
                let mut v = Vec::new();
                self.collect_u128(&mut v);
                proof {
                    assert(v@ =~= Seq::<Option<u128>>::empty() + v@);
                }
                Some(v)
            },
            _ => None,
        }
    }

    /// Try get a collection of `i128`s from this value.
    ///
    /// If this value is a sequence, the result holds the cast of each of its
    /// elements, in order, with `None` for an element that does not convert.
    /// If it is not a sequence, the result is `None`.
    pub fn to_i128_seq(&self) -> (r: Option<Vec<Option<i128>>>)
        ensures
            r is Some <==> self@ is Sequence,
            r is Some ==> r->0@ == collected(self@, |s: Shape| cast_i128(s)),
    {
        match self.inner {
            Internal::Sequence(_) => {
                let mut v = Vec::new();
                self.collect_i128(&mut v);
                proof {
                    assert(v@ =~= Seq::<Option<i128>>::empty() + v@);
                }
                Some(v)
            },
            _ => None,
        }
    }

    /// Try get a collection of exact float sources from this value.
    ///
    /// If this value is a sequence, the result holds the cast of each of its
    /// elements, in order, with `None` for an element that does not convert.
    /// If it is not a sequence, the result is `None`.
    pub fn to_f64_source_seq(&self) -> (r: Option<Vec<Option<F64Source>>>)
        ensures
            r is Some <==> self@ is Sequence,
            r is Some ==> r->0@ == collected(self@, |s: Shape| cast_f64_source(s)),
    {
        match self.inner {
            Internal::Sequence(_) => {
                let mut v = Vec::new();
                self.collect_f64_source(&mut v);
                proof {
                    assert(v@ =~= Seq::<Option<F64Source>>::empty() + v@);
                }
                Some(v)
            },
            _ => None,
        }
    }

    /// Try get a collection of `bool`s from this value.
    ///
    /// If this value is a sequence, the result holds the cast of each of its
    /// elements, in order, with `None` for an element that does not convert.
    /// If it is not a sequence, the result is `None`.
    pub fn to_bool_seq(&self) -> (r: Option<Vec<Option<bool>>>)
        ensures
            r is Some <==> self@ is Sequence,
            r is Some ==> r->0@ == collected(self@, |s: Shape| cast_bool(s)),
    {
        match self.inner {
            Internal::Sequence(_) => {
                let mut v = Vec::new();
                self.collect_bool(&mut v);
                proof {
                    assert(v@ =~= Seq::<Option<bool>>::empty() + v@);
                }
                Some(v)
            },
            _ => None,
        }
    }

    /// Try get a collection of `char`s from this value.
    ///
    /// If this value is a sequence, the result holds the cast of each of its
    /// elements, in order, with `None` for an element that does not convert.
    /// If it is not a sequence, the result is `None`.
    pub fn to_char_seq(&self) -> (r: Option<Vec<Option<char>>>)
        ensures
            r is Some <==> self@ is Sequence,
            r is Some ==> r->0@ == collected(self@, |s: Shape| cast_char(s)),
    {
        match self.inner {
            Internal::Sequence(_) => {
                let mut v = Vec::new();
                self.collect_char(&mut v);
                proof {
                    assert(v@ =~= Seq::<Option<char>>::empty() + v@);
                }
                Some(v)
            },
            _ => None,
        }
    }

    /// Try get a collection of strings borrowed for `'v` from this value.
    ///
    /// If this value is a sequence, the result holds the cast of each of its
    /// elements, in order, with `None` for an element that does not convert.
    /// If it is not a sequence, the result is `None`.
    pub fn to_borrowed_str_seq(&self) -> (r: Option<Vec<Option<&'v str>>>)
        ensures
            r is Some <==> self@ is Sequence,
            r is Some ==> view_strs(r->0@) == collected(self@, |s: Shape| cast_str(s)),
    {
        match self.inner {
            Internal::Sequence(_) => {
                let mut v = Vec::new();
                self.collect_borrowed_str(&mut v);
                proof {
                    assert(v@ =~= Seq::<Option<&'v str>>::empty() + v@);
                }
                Some(v)
            },
            _ => None,
        }
    }

    /// Try get a collection of strings from this value.
    ///
    /// If this value is a sequence, the result holds the cast of each of its
    /// elements, in order, with `None` for an element that does not convert.
    /// If it is not a sequence, the result is `None`.
    pub fn to_str_seq(&self) -> (r: Option<Vec<Option<Cow<'v, str>>>>)
        ensures
            r is Some <==> self@ is Sequence,
            r is Some ==> view_cows(r->0@) == collected(self@, |s: Shape| cast_str(s)),
            forall|k: int| r is Some && 0 <= k < r->0@.len() ==> not_owned(#[trigger] r->0@[k]),
    {
        match self.inner {
            Internal::Sequence(_) => {
                let mut v = Vec::new();
                self.collect_str(&mut v);
                proof {
                    assert(v@ =~= Seq::<Option<Cow<'v, str>>>::empty() + v@);
                }
                Some(v)
            },
            _ => None,
        }
    }
}

impl<'v, T: SeqElement<'v>, const N: usize> From<&'v [T; N]> for ValueBag<'v> {
    /// The array as a sequence; see [`ValueBag::from_seq_slice`].
    fn from(v: &'v [T; N]) -> (r: Self) {
        ValueBag::from_seq_slice(vstd::array::array_as_slice(v))
    }
}

impl<'v, T: SeqElement<'v>, const N: usize> FromSpecImpl<&'v [T; N]> for ValueBag<'v> {
    open spec fn obeys_from_spec() -> bool {
        true
    }

    open spec fn from_spec(v: &'v [T; N]) -> Self {
        T::spec_bag_of_slice(vstd::array::spec_array_as_slice(v))
    }
}

} // verus!
