//! Value inspection.
//!
//! The [`Visit`] trait is a small visitor API for the primitives stored in a
//! [`ValueBag`]. Each value drives exactly one of its methods; every method
//! but `visit_any` has a default that hands the value on as a `ValueBag`, so
//! a visitor implements only what it can handle specially.

use vstd::prelude::*;

use crate::bag::{lemma_view_is_shape, Internal, ValueBag};
use crate::shape::Shape;
use crate::error::Error;

verus! {

/// A visitor for a `ValueBag`.
pub trait Visit<'v> {
    /// Visit a `ValueBag`.
    ///
    /// This is the only required method: it receives every value that no
    /// more specific method takes, such as sequences and values captured
    /// through `Debug`, `Display` or an error.
    fn visit_any(&mut self, value: ValueBag) -> Result<(), Error>;

    /// Visit an unsigned integer.
    fn visit_u64(&mut self, value: u64) -> Result<(), Error> {
        self.visit_any(ValueBag::from(value))
    }

    /// Visit a signed integer.
    fn visit_i64(&mut self, value: i64) -> Result<(), Error> {
        self.visit_any(ValueBag::from(value))
    }

    /// Visit a wide unsigned integer.
    fn visit_u128(&mut self, value: u128) -> Result<(), Error> {
        self.visit_any(ValueBag::from(value))
    }

    /// Visit a wide signed integer.
    fn visit_i128(&mut self, value: i128) -> Result<(), Error> {
        self.visit_any(ValueBag::from(value))
    }

    /// Visit a floating point number, given as its IEEE-754 bit pattern.
    fn visit_f64_bits(&mut self, bits: u64) -> Result<(), Error> {
        self.visit_any(ValueBag::from_f64_bits(bits))
    }

    /// Visit a boolean.
    fn visit_bool(&mut self, value: bool) -> Result<(), Error> {
        self.visit_any(ValueBag::from(value))
    }

    /// Visit a string.
    fn visit_str(&mut self, value: &str) -> Result<(), Error> {
        self.visit_any(ValueBag::from(value))
    }

    /// Visit a string borrowed for `'v`.
    fn visit_borrowed_str(&mut self, value: &'v str) -> Result<(), Error> {
        self.visit_str(value)
    }

    /// Visit a Unicode character.
    fn visit_char(&mut self, value: char) -> Result<(), Error> {
        self.visit_any(ValueBag::from(value))
    }

    /// Visit the absence of a value.
    fn visit_none(&mut self) -> Result<(), Error> {
        self.visit_any(ValueBag::from(()))
    }
}

impl<'a, 'v, T: Visit<'v>> Visit<'v> for &'a mut T {
    fn visit_any(&mut self, value: ValueBag) -> Result<(), Error> {
        (**self).visit_any(value)
    }

    fn visit_u64(&mut self, value: u64) -> Result<(), Error> {
        (**self).visit_u64(value)
    }

    fn visit_i64(&mut self, value: i64) -> Result<(), Error> {
        (**self).visit_i64(value)
    }

    fn visit_u128(&mut self, value: u128) -> Result<(), Error> {
        (**self).visit_u128(value)
    }

    fn visit_i128(&mut self, value: i128) -> Result<(), Error> {
        (**self).visit_i128(value)
    }

    fn visit_f64_bits(&mut self, bits: u64) -> Result<(), Error> {
        (**self).visit_f64_bits(bits)
    }

    fn visit_bool(&mut self, value: bool) -> Result<(), Error> {
        (**self).visit_bool(value)
    }

    fn visit_str(&mut self, value: &str) -> Result<(), Error> {
        (**self).visit_str(value)
    }

    fn visit_borrowed_str(&mut self, value: &'v str) -> Result<(), Error> {
        (**self).visit_borrowed_str(value)
    }

    fn visit_char(&mut self, value: char) -> Result<(), Error> {
        (**self).visit_char(value)
    }

    fn visit_none(&mut self) -> Result<(), Error> {
        (**self).visit_none()
    }
}

/// The visitor method a value goes to, with what it hands that method.
#[derive(Clone, Copy)]
pub enum Dispatch<'v> {
    U64(u64),
    I64(i64),
    U128(u128),
    I128(i128),
    F64Bits(u64),
    Bool(bool),
    Char(char),
    BorrowedStr(&'v str),
    Absent,
    Any(ValueBag<'v>),
}

/// Whether `d` is where a value of shape `s` is dispatched: each primitive
/// to the method of its kind with its value, and anything else, itself, to
/// `visit_any`.
pub open spec fn dispatches_as(d: Dispatch<'_>, s: Shape) -> bool {
    match s {
        Shape::Unsigned(v) => d == Dispatch::U64(v),
        Shape::Signed(v) => d == Dispatch::I64(v),
        Shape::BigUnsigned(v) => d == Dispatch::U128(v),
        Shape::BigSigned(v) => d == Dispatch::I128(v),
        Shape::Float(b) => d == Dispatch::F64Bits(b),
        Shape::Bool(b) => d == Dispatch::Bool(b),
        Shape::Char(c) => d == Dispatch::Char(c),
        Shape::Str(t) => d matches Dispatch::BorrowedStr(x) && x@ == t,
        Shape::Absent => d is Absent,
        _ => d matches Dispatch::Any(b) && b@ == s,
    }
}

impl<'v> ValueBag<'v> {
    /// Where [`ValueBag::visit`] sends this value.
    pub fn dispatch(&self) -> (r: Dispatch<'v>)
        ensures
            dispatches_as(r, self@),
    {
        proof {
            lemma_view_is_shape(*self);
        }
        match self.inner {
            Internal::Signed(v) => Dispatch::I64(v),
            Internal::Unsigned(v) => Dispatch::U64(v),
            Internal::BigSigned(v) => Dispatch::I128(v),
            Internal::BigUnsigned(v) => Dispatch::U128(v),
            Internal::Float(b) => Dispatch::F64Bits(b),
            Internal::Bool(b) => Dispatch::Bool(b),
            Internal::Char(c) => Dispatch::Char(c),
            Internal::Str(s) => Dispatch::BorrowedStr(s),
            Internal::Absent => Dispatch::Absent,
            _ => Dispatch::Any(*self),
        }
    }
}

impl<'v> ValueBag<'v> {
    /// Drive `visitor` with this value: it calls the one method that
    /// [`ValueBag::dispatch`] names, with what it names, and returns that
    /// method's result.
    pub fn visit<V: Visit<'v>>(&self, visitor: V) -> Result<(), Error> {
        let mut visitor = visitor;
        match self.dispatch() {
            Dispatch::I64(v) => visitor.visit_i64(v),
            Dispatch::U64(v) => visitor.visit_u64(v),
            Dispatch::I128(v) => visitor.visit_i128(v),
            Dispatch::U128(v) => visitor.visit_u128(v),
            Dispatch::F64Bits(b) => visitor.visit_f64_bits(b),
            Dispatch::Bool(b) => visitor.visit_bool(b),
            Dispatch::Char(c) => visitor.visit_char(c),
            Dispatch::BorrowedStr(s) => visitor.visit_borrowed_str(s),
            Dispatch::Absent => visitor.visit_none(),
            Dispatch::Any(b) => visitor.visit_any(b),
        }
    }
}

} // verus!
