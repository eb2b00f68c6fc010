//! The value container and its closed set of representations.

use vstd::prelude::*;

use crate::owned::OwnedScalar;
use crate::shape::{char_shape, Shape, TextKind};
use std::any::TypeId;

verus! {

#[verifier::external_type_specification]
#[verifier::external_body]
pub struct ExTypeId(TypeId);

/// A dynamic structured value.
///
/// A `ValueBag` borrows what it captures for `'v` and never owns it: it is
/// either a primitive, a borrowed sequence, or a reference to a value with one
/// of the formatting capabilities.
#[derive(Clone, Copy)]
pub struct ValueBag<'v> {
    pub(crate) inner: Internal<'v>,
}

/// The closed set of representations a [`ValueBag`] can take.
#[derive(Clone, Copy)]
pub(crate) enum Internal<'v> {
    Signed(i64),
    Unsigned(u64),
    BigSigned(i128),
    BigUnsigned(u128),
    Float(u64),
    Bool(bool),
    Char(char),
    Str(&'v str),
    Absent,
    Sequence(SeqRef<'v>),
    Debug(&'v dyn core::fmt::Debug, Option<TypeId>),
    Display(&'v dyn core::fmt::Display, Option<TypeId>),
    Error(&'v dyn core::fmt::Display, Option<TypeId>),
    Text(TextKind, &'v str),
}

/// A borrowed sequence, one variant for each kind of element.
#[derive(Clone, Copy)]
pub(crate) enum SeqRef<'v> {
    U8(&'v [u8]),
    U16(&'v [u16]),
    U32(&'v [u32]),
    U64(&'v [u64]),
    U128(&'v [u128]),
    Usize(&'v [usize]),
    I8(&'v [i8]),
    I16(&'v [i16]),
    I32(&'v [i32]),
    I64(&'v [i64]),
    I128(&'v [i128]),
    Isize(&'v [isize]),
    Bool(&'v [bool]),
    Char(&'v [char]),
    Str(&'v [&'v str]),
    Values(&'v [ValueBag<'v>]),
    Owned(&'v [OwnedScalar]),
}

impl<'v> Internal<'v> {
    /// The shape of this representation when it stands as an element.
    pub(crate) open spec fn scalar(self) -> Shape {
        match self {
            Internal::Signed(v) => Shape::Signed(v),
            Internal::Unsigned(v) => Shape::Unsigned(v),
            Internal::BigSigned(v) => Shape::BigSigned(v),
            Internal::BigUnsigned(v) => Shape::BigUnsigned(v),
            Internal::Float(b) => Shape::Float(b),
            Internal::Bool(b) => Shape::Bool(b),
            Internal::Char(c) => Shape::Char(c),
            Internal::Str(s) => Shape::Str(s@),
            Internal::Absent => Shape::Absent,
            Internal::Sequence(_) => Shape::Nested,
            Internal::Debug(_, id) => Shape::Debug { identified: id is Some },
            Internal::Display(_, id) => Shape::Display { identified: id is Some },
            Internal::Error(_, id) => Shape::Error { identified: id is Some },
            Internal::Text(kind, t) => Shape::Text { kind, text: t@ },
        }
    }

    pub(crate) open spec fn shape(self) -> Shape {
        match self {
            Internal::Sequence(s) => Shape::Sequence(s.elements()),
            _ => self.scalar(),
        }
    }
}

impl<'v> SeqRef<'v> {
    pub(crate) open spec fn elements(self) -> Seq<Shape> {
        match self {
            SeqRef::U8(s) => s@.map_values(|x: u8| Shape::Unsigned(x as u64)),
            SeqRef::U16(s) => s@.map_values(|x: u16| Shape::Unsigned(x as u64)),
            SeqRef::U32(s) => s@.map_values(|x: u32| Shape::Unsigned(x as u64)),
            SeqRef::U64(s) => s@.map_values(|x: u64| Shape::Unsigned(x)),
            SeqRef::U128(s) => s@.map_values(|x: u128| Shape::BigUnsigned(x)),
            SeqRef::Usize(s) => s@.map_values(|x: usize| Shape::Unsigned(x as u64)),
            SeqRef::I8(s) => s@.map_values(|x: i8| Shape::Signed(x as i64)),
            SeqRef::I16(s) => s@.map_values(|x: i16| Shape::Signed(x as i64)),
            SeqRef::I32(s) => s@.map_values(|x: i32| Shape::Signed(x as i64)),
            SeqRef::I64(s) => s@.map_values(|x: i64| Shape::Signed(x)),
            SeqRef::I128(s) => s@.map_values(|x: i128| Shape::BigSigned(x)),
            SeqRef::Isize(s) => s@.map_values(|x: isize| Shape::Signed(x as i64)),
            SeqRef::Bool(s) => s@.map_values(|x: bool| Shape::Bool(x)),
            SeqRef::Char(s) => s@.map_values(|x: char| char_shape(x)),
            SeqRef::Str(s) => s@.map_values(|x: &str| Shape::Str(x@)),
            SeqRef::Values(s) => s@.map_values(|x: ValueBag<'v>| x.inner.scalar()),
            SeqRef::Owned(s) => s@.map_values(|x: OwnedScalar| x.shape()),
        }
    }

    pub(crate) fn len(&self) -> (r: usize)
        ensures
            r == self.elements().len(),
    {
        match self {
            SeqRef::U8(s) => s.len(),
            SeqRef::U16(s) => s.len(),
            SeqRef::U32(s) => s.len(),
            SeqRef::U64(s) => s.len(),
            SeqRef::U128(s) => s.len(),
            SeqRef::Usize(s) => s.len(),
            SeqRef::I8(s) => s.len(),
            SeqRef::I16(s) => s.len(),
            SeqRef::I32(s) => s.len(),
            SeqRef::I64(s) => s.len(),
            SeqRef::I128(s) => s.len(),
            SeqRef::Isize(s) => s.len(),
            SeqRef::Bool(s) => s.len(),
            SeqRef::Char(s) => s.len(),
            SeqRef::Str(s) => s.len(),
            SeqRef::Values(s) => s.len(),
            SeqRef::Owned(s) => s.len(),
        }
    }

    /// The element at `i`, as a value of its own.
    pub(crate) fn get(&self, i: usize) -> (r: Internal<'v>)
        requires
            i < self.elements().len(),
        ensures
            r.scalar() == self.elements()[i as int],
    {
        match self {
            SeqRef::U8(s) => Internal::Unsigned(s[i] as u64),
            SeqRef::U16(s) => Internal::Unsigned(s[i] as u64),
            SeqRef::U32(s) => Internal::Unsigned(s[i] as u64),
            SeqRef::U64(s) => Internal::Unsigned(s[i]),
            SeqRef::U128(s) => Internal::BigUnsigned(s[i]),
            SeqRef::Usize(s) => Internal::Unsigned(s[i] as u64),
            SeqRef::I8(s) => Internal::Signed(s[i] as i64),
            SeqRef::I16(s) => Internal::Signed(s[i] as i64),
            SeqRef::I32(s) => Internal::Signed(s[i] as i64),
            SeqRef::I64(s) => Internal::Signed(s[i]),
            SeqRef::I128(s) => Internal::BigSigned(s[i]),
            SeqRef::Isize(s) => Internal::Signed(s[i] as i64),
            SeqRef::Bool(s) => Internal::Bool(s[i]),
            SeqRef::Char(s) => Internal::Char(s[i]),
            SeqRef::Str(s) => Internal::Str(s[i]),
            SeqRef::Values(s) => s[i].inner,
            SeqRef::Owned(s) => s[i].internal_ref(),
        }
    }
}

impl<'v> View for ValueBag<'v> {
    type V = Shape;

    closed spec fn view(&self) -> Shape {
        self.inner.shape()
    }
}

/// A bag's shape is that of its representation.
pub(crate) broadcast proof fn lemma_view_is_shape<'v>(b: ValueBag<'v>)
    ensures
        #[trigger] b@ == b.inner.shape(),
{
}

impl<'v> ValueBag<'v> {
    /// The bag holding a signed integer.
    pub closed spec fn spec_signed(v: i64) -> Self {
        ValueBag { inner: Internal::Signed(v) }
    }

    /// The bag holding an unsigned integer.
    pub closed spec fn spec_unsigned(v: u64) -> Self {
        ValueBag { inner: Internal::Unsigned(v) }
    }

    /// The bag holding a wide signed integer.
    pub closed spec fn spec_big_signed(v: i128) -> Self {
        ValueBag { inner: Internal::BigSigned(v) }
    }

    /// The bag holding a wide unsigned integer.
    pub closed spec fn spec_big_unsigned(v: u128) -> Self {
        ValueBag { inner: Internal::BigUnsigned(v) }
    }

    /// The bag holding a float, given as its IEEE-754 bit pattern.
    pub closed spec fn spec_float(bits: u64) -> Self {
        ValueBag { inner: Internal::Float(bits) }
    }

    /// The bag holding a boolean.
    pub closed spec fn spec_bool(v: bool) -> Self {
        ValueBag { inner: Internal::Bool(v) }
    }

    /// The bag holding a character.
    pub closed spec fn spec_char(v: char) -> Self {
        ValueBag { inner: Internal::Char(v) }
    }

    /// The bag holding a borrowed string.
    pub closed spec fn spec_str(v: &'v str) -> Self {
        ValueBag { inner: Internal::Str(v) }
    }

    /// The bag holding nothing.
    pub closed spec fn spec_absent() -> Self {
        ValueBag { inner: Internal::Absent }
    }

    pub(crate) fn signed(v: i64) -> (r: Self)
        ensures
            r == Self::spec_signed(v),
    {
        ValueBag { inner: Internal::Signed(v) }
    }

    pub(crate) fn unsigned(v: u64) -> (r: Self)
        ensures
            r == Self::spec_unsigned(v),
    {
        ValueBag { inner: Internal::Unsigned(v) }
    }

    pub(crate) fn big_signed(v: i128) -> (r: Self)
        ensures
            r == Self::spec_big_signed(v),
    {
        ValueBag { inner: Internal::BigSigned(v) }
    }

    pub(crate) fn big_unsigned(v: u128) -> (r: Self)
        ensures
            r == Self::spec_big_unsigned(v),
    {
        ValueBag { inner: Internal::BigUnsigned(v) }
    }

    pub(crate) fn boolean(v: bool) -> (r: Self)
        ensures
            r == Self::spec_bool(v),
    {
        ValueBag { inner: Internal::Bool(v) }
    }

    pub(crate) fn character(v: char) -> (r: Self)
        ensures
            r == Self::spec_char(v),
    {
        ValueBag { inner: Internal::Char(v) }
    }

    pub(crate) fn text(v: &'v str) -> (r: Self)
        ensures
            r == Self::spec_str(v),
    {
        ValueBag { inner: Internal::Str(v) }
    }

    pub(crate) fn absent() -> (r: Self)
        ensures
            r == Self::spec_absent(),
    {
        ValueBag { inner: Internal::Absent }
    }

    pub(crate) fn debug(value: &'v dyn core::fmt::Debug, id: Option<TypeId>) -> (r: Self)
        ensures
            r@ == (Shape::Debug { identified: id is Some }),
    {
        ValueBag { inner: Internal::Debug(value, id) }
    }

    pub(crate) fn display(value: &'v dyn core::fmt::Display, id: Option<TypeId>) -> (r: Self)
        ensures
            r@ == (Shape::Display { identified: id is Some }),
    {
        ValueBag { inner: Internal::Display(value, id) }
    }

    pub(crate) fn error(value: &'v dyn core::fmt::Display, id: Option<TypeId>) -> (r: Self)
        ensures
            r@ == (Shape::Error { identified: id is Some }),
    {
        ValueBag { inner: Internal::Error(value, id) }
    }

    /// Get a copy of this value borrowed for a shorter lifetime.
    pub fn by_ref(&self) -> (r: ValueBag<'_>)
        ensures
            r@ == self@,
    {
        ValueBag { inner: self.inner }
    }

    /// A value holding a float, given as its IEEE-754 bit pattern.
    pub fn from_f64_bits(bits: u64) -> (r: Self)
        ensures
            r == Self::spec_float(bits),
            r@ == Shape::Float(bits),
    {
        ValueBag { inner: Internal::Float(bits) }
    }
}

/// The shape of the bag holding a signed integer.
pub broadcast proof fn lemma_signed_shape<'v>(v: i64)
    ensures
        #[trigger] ValueBag::<'v>::spec_signed(v)@ == Shape::Signed(v),
{
}

/// The shape of the bag holding an unsigned integer.
pub broadcast proof fn lemma_unsigned_shape<'v>(v: u64)
    ensures
        #[trigger] ValueBag::<'v>::spec_unsigned(v)@ == Shape::Unsigned(v),
{
}

/// The shape of the bag holding a wide signed integer.
pub broadcast proof fn lemma_big_signed_shape<'v>(v: i128)
    ensures
        #[trigger] ValueBag::<'v>::spec_big_signed(v)@ == Shape::BigSigned(v),
{
}

/// The shape of the bag holding a wide unsigned integer.
pub broadcast proof fn lemma_big_unsigned_shape<'v>(v: u128)
    ensures
        #[trigger] ValueBag::<'v>::spec_big_unsigned(v)@ == Shape::BigUnsigned(v),
{
}

/// The shape of the bag holding a float.
pub broadcast proof fn lemma_float_shape<'v>(v: u64)
    ensures
        #[trigger] ValueBag::<'v>::spec_float(v)@ == Shape::Float(v),
{
}

/// The shape of the bag holding a boolean.
pub broadcast proof fn lemma_bool_shape<'v>(v: bool)
    ensures
        #[trigger] ValueBag::<'v>::spec_bool(v)@ == Shape::Bool(v),
{
}

/// The shape of the bag holding a character.
pub broadcast proof fn lemma_char_shape<'v>(v: char)
    ensures
        #[trigger] ValueBag::<'v>::spec_char(v)@ == char_shape(v),
{
}

/// The shape of the bag holding a borrowed string.
pub broadcast proof fn lemma_str_shape<'v>(v: &'v str)
    ensures
        #[trigger] ValueBag::<'v>::spec_str(v)@ == Shape::Str(v@),
{
}

/// The shape of the bag holding nothing.
pub broadcast proof fn lemma_absent_shape<'v>(b: ValueBag<'v>)
    ensures
        b == ValueBag::<'v>::spec_absent() ==> #[trigger] b@ == Shape::Absent,
{
}

/// The shape of each primitive bag.
pub broadcast group group_primitive_shapes {
    lemma_signed_shape,
    lemma_unsigned_shape,
    lemma_big_signed_shape,
    lemma_big_unsigned_shape,
    lemma_float_shape,
    lemma_bool_shape,
    lemma_char_shape,
    lemma_str_shape,
    lemma_absent_shape,
}

} // verus!
