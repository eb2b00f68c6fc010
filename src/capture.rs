//! Capturing values by reference.
//!
//! The `capture_*` constructors need `T: 'static`: they first try to recover
//! the value as a primitive, and otherwise record the identity of `T` so the
//! bag can later be checked against a type with [`ValueBag::is`]. The
//! `from_*` constructors accept any lifetime and record no identity.

use vstd::prelude::*;

use crate::bag::{group_primitive_shapes, lemma_view_is_shape, Internal, ValueBag};
use crate::shape::{is_identified, is_primitive, Shape};
use std::any::TypeId;
use std::fmt::{Debug, Display};

verus! {

broadcast use {lemma_view_is_shape, group_primitive_shapes};

/// Relies on `TypeId::of`: the identity of `T` in this process.
#[verifier::external_body]
fn type_id_of<T: ?Sized + 'static>() -> TypeId {
    TypeId::of::<T>()
}

/// Relies on `TypeId`'s `==`: whether two identities belong to the same type.
#[verifier::external_body]
fn same_type(a: TypeId, b: TypeId) -> bool {
    a == b
}

/// Relies on `<dyn Any>::downcast_ref`: a copy of `*value` when `T` is `U`.
#[verifier::external_body]
fn downcast<T: 'static, U: Copy + 'static>(value: &T) -> Option<U> {
    (value as &dyn std::any::Any).downcast_ref::<U>().copied()
}

impl<'v> ValueBag<'v> {
    /// Try capture a raw value.
    ///
    /// This returns `Some` if the value is one of the primitive types (an
    /// integer of any width, `char`, `bool`, `&'static str`) or an `Option`
    /// of one, and `None` otherwise.
    pub fn try_capture<T: 'static>(value: &'v T) -> (r: Option<Self>)
        ensures
            r matches Some(b) ==> is_primitive(b@),
    {
        match ValueBag::recover(value) {
            Some(b) => Some(b),
            None => None,
        }
    }
}

impl ValueBag<'static> {
    /// Recover a primitive from a value of a type known only as `T`.
    ///
    /// Each candidate type is tried in turn, then an `Option` of each.
    pub(crate) fn recover<T: 'static>(value: &T) -> (r: Option<ValueBag<'static>>)
        ensures
            r matches Some(b) ==> is_primitive(b@),
    {
        if let Some(v) = downcast::<T, usize>(value) {
            return Some(ValueBag::from(v));
        }
        if let Some(v) = downcast::<T, u8>(value) {
            return Some(ValueBag::from(v));
        }
        if let Some(v) = downcast::<T, u16>(value) {
            return Some(ValueBag::from(v));
        }
        if let Some(v) = downcast::<T, u32>(value) {
            return Some(ValueBag::from(v));
        }
        if let Some(v) = downcast::<T, u64>(value) {
            return Some(ValueBag::from(v));
        }
        if let Some(v) = downcast::<T, u128>(value) {
            return Some(ValueBag::from(v));
        }
        if let Some(v) = downcast::<T, isize>(value) {
            return Some(ValueBag::from(v));
        }
        if let Some(v) = downcast::<T, i8>(value) {
            return Some(ValueBag::from(v));
        }
        if let Some(v) = downcast::<T, i16>(value) {
            return Some(ValueBag::from(v));
        }
        if let Some(v) = downcast::<T, i32>(value) {
            return Some(ValueBag::from(v));
        }
        if let Some(v) = downcast::<T, i64>(value) {
            return Some(ValueBag::from(v));
        }
        if let Some(v) = downcast::<T, i128>(value) {
            return Some(ValueBag::from(v));
        }
        if let Some(v) = downcast::<T, char>(value) {
            return Some(ValueBag::from(v));
        }
        if let Some(v) = downcast::<T, bool>(value) {
            return Some(ValueBag::from(v));
        }
        if let Some(v) = downcast::<T, &'static str>(value) {
            return Some(ValueBag::from(v));
        }
        if let Some(v) = downcast::<T, Option<usize>>(value) {
            return Some(match v {
                Some(v) => ValueBag::from(v),
                None => ValueBag::absent(),
            });
        }
        if let Some(v) = downcast::<T, Option<u8>>(value) {
            return Some(match v {
                Some(v) => ValueBag::from(v),
                None => ValueBag::absent(),
            });
        }
        if let Some(v) = downcast::<T, Option<u16>>(value) {
            return Some(match v {
                Some(v) => ValueBag::from(v),
                None => ValueBag::absent(),
            });
        }
        if let Some(v) = downcast::<T, Option<u32>>(value) {
            return Some(match v {
                Some(v) => ValueBag::from(v),
                None => ValueBag::absent(),
            });
        }
        if let Some(v) = downcast::<T, Option<u64>>(value) {
            return Some(match v {
                Some(v) => ValueBag::from(v),
                None => ValueBag::absent(),
            });
        }
        if let Some(v) = downcast::<T, Option<u128>>(value) {
            return Some(match v {
                Some(v) => ValueBag::from(v),
                None => ValueBag::absent(),
            });
        }
        if let Some(v) = downcast::<T, Option<isize>>(value) {
            return Some(match v {
                Some(v) => ValueBag::from(v),
                None => ValueBag::absent(),
            });
        }
        if let Some(v) = downcast::<T, Option<i8>>(value) {
            return Some(match v {
                Some(v) => ValueBag::from(v),
                None => ValueBag::absent(),
            });
        }
        if let Some(v) = downcast::<T, Option<i16>>(value) {
            return Some(match v {
                Some(v) => ValueBag::from(v),
                None => ValueBag::absent(),
            });
        }
        if let Some(v) = downcast::<T, Option<i32>>(value) {
            return Some(match v {
                Some(v) => ValueBag::from(v),
                None => ValueBag::absent(),
            });
        }
        if let Some(v) = downcast::<T, Option<i64>>(value) {
            return Some(match v {
                Some(v) => ValueBag::from(v),
                None => ValueBag::absent(),
            });
        }
        if let Some(v) = downcast::<T, Option<i128>>(value) {
            return Some(match v {
                Some(v) => ValueBag::from(v),
                None => ValueBag::absent(),
            });
        }
        if let Some(v) = downcast::<T, Option<char>>(value) {
            return Some(match v {
                Some(v) => ValueBag::from(v),
                None => ValueBag::absent(),
            });
        }
        if let Some(v) = downcast::<T, Option<bool>>(value) {
            return Some(match v {
                Some(v) => ValueBag::from(v),
                None => ValueBag::absent(),
            });
        }
        if let Some(v) = downcast::<T, Option<&'static str>>(value) {
            return Some(match v {
                Some(v) => ValueBag::from(v),
                None => ValueBag::absent(),
            });
        }
        None
    }
}

impl<'v> ValueBag<'v> {
    /// Get a value from a debuggable type.
    ///
    /// This tries to capture the value as a primitive before resorting to
    /// its `Debug` implementation.
    pub fn capture_debug<T: Debug + 'static>(value: &'v T) -> (r: Self)
        ensures
            is_primitive(r@) || r@ == (Shape::Debug { identified: true }),
    {
        match Self::try_capture(value) {
            Some(b) => b,
            None => ValueBag::debug(value, Some(type_id_of::<T>())),
        }
    }

    /// Get a value from a debuggable type without capturing support.
    pub fn from_debug<T: Debug>(value: &'v T) -> (r: Self)
        ensures
            r@ == (Shape::Debug { identified: false }),
    {
        ValueBag::debug(value, None)
    }

    /// Get a value from an erased debuggable value.
    pub fn from_dyn_debug(value: &'v dyn Debug) -> (r: Self)
        ensures
            r@ == (Shape::Debug { identified: false }),
    {
        ValueBag::debug(value, None)
    }

    /// Get a value from a displayable type.
    ///
    /// This tries to capture the value as a primitive before resorting to
    /// its `Display` implementation.
    pub fn capture_display<T: Display + 'static>(value: &'v T) -> (r: Self)
        ensures
            is_primitive(r@) || r@ == (Shape::Display { identified: true }),
    {
        match Self::try_capture(value) {
            Some(b) => b,
            None => ValueBag::display(value, Some(type_id_of::<T>())),
        }
    }

    /// Get a value from a displayable type without capturing support.
    pub fn from_display<T: Display>(value: &'v T) -> (r: Self)
        ensures
            r@ == (Shape::Display { identified: false }),
    {
        ValueBag::display(value, None)
    }

    /// Get a value from an erased displayable value.
    pub fn from_dyn_display(value: &'v dyn Display) -> (r: Self)
        ensures
            r@ == (Shape::Display { identified: false }),
    {
        ValueBag::display(value, None)
    }

    /// Get a value from an error.
    pub fn capture_error<T: std::error::Error + 'static>(value: &'v T) -> (r: Self)
        ensures
            r@ == (Shape::Error { identified: true }),
    {
        ValueBag::error(value, Some(type_id_of::<T>()))
    }

    /// Try get the error this value was captured from, seen through its
    /// `Display` implementation.
    pub fn to_borrowed_error(&self) -> (r: Option<&'v dyn Display>)
        ensures
            r is Some <==> self@ is Error,
    {
        match self.inner {
            Internal::Error(value, _) => Some(value),
            _ => None,
        }
    }

    /// Check whether this value was captured from a `T`.
    ///
    /// Only values captured with a `capture_*` constructor remember their
    /// type; for every other value this is `false`.
    pub fn is<T: 'static>(&self) -> (r: bool)
        ensures
            r ==> is_identified(self@),
    {
        match self.inner {
            Internal::Debug(_, Some(id)) => same_type(id, type_id_of::<T>()),
            Internal::Display(_, Some(id)) => same_type(id, type_id_of::<T>()),
            Internal::Error(_, Some(id)) => same_type(id, type_id_of::<T>()),
            _ => false,
        }
    }
}

} // verus!
