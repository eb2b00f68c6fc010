//! Lossless conversions from every supported primitive into a [`ValueBag`].
//!
//! Narrow integers widen into a 64-bit carrier of the same signedness; 128-bit
//! integers keep their own carrier.

use vstd::prelude::*;
use vstd::std_specs::convert::{FromSpec, FromSpecImpl};

use crate::bag::{group_primitive_shapes, ValueBag};
use crate::shape::Shape;

verus! {

broadcast use group_primitive_shapes;

impl<'v> From<u8> for ValueBag<'v> {
    fn from(v: u8) -> (r: Self) {
        ValueBag::unsigned(v as u64)
    }
}

impl<'v> FromSpecImpl<u8> for ValueBag<'v> {
    open spec fn obeys_from_spec() -> bool {
        true
    }

    open spec fn from_spec(v: u8) -> Self {
        ValueBag::spec_unsigned(v as u64)
    }
}

impl<'v> From<u16> for ValueBag<'v> {
    fn from(v: u16) -> (r: Self) {
        ValueBag::unsigned(v as u64)
    }
}

impl<'v> FromSpecImpl<u16> for ValueBag<'v> {
    open spec fn obeys_from_spec() -> bool {
        true
    }

    open spec fn from_spec(v: u16) -> Self {
        ValueBag::spec_unsigned(v as u64)
    }
}

impl<'v> From<u32> for ValueBag<'v> {
    fn from(v: u32) -> (r: Self) {
        ValueBag::unsigned(v as u64)
    }
}

impl<'v> FromSpecImpl<u32> for ValueBag<'v> {
    open spec fn obeys_from_spec() -> bool {
        true
    }

    open spec fn from_spec(v: u32) -> Self {
        ValueBag::spec_unsigned(v as u64)
    }
}

impl<'v> From<usize> for ValueBag<'v> {
    fn from(v: usize) -> (r: Self) {
        ValueBag::unsigned(v as u64)
    }
}

impl<'v> FromSpecImpl<usize> for ValueBag<'v> {
    open spec fn obeys_from_spec() -> bool {
        true
    }

    open spec fn from_spec(v: usize) -> Self {
        ValueBag::spec_unsigned(v as u64)
    }
}

impl<'v> From<u64> for ValueBag<'v> {
    fn from(v: u64) -> (r: Self) {
        ValueBag::unsigned(v)
    }
}

impl<'v> FromSpecImpl<u64> for ValueBag<'v> {
    open spec fn obeys_from_spec() -> bool {
        true
    }

    open spec fn from_spec(v: u64) -> Self {
        ValueBag::spec_unsigned(v)
    }
}

impl<'v> From<i8> for ValueBag<'v> {
    fn from(v: i8) -> (r: Self) {
        ValueBag::signed(v as i64)
    }
}

impl<'v> FromSpecImpl<i8> for ValueBag<'v> {
    open spec fn obeys_from_spec() -> bool {
        true
    }

    open spec fn from_spec(v: i8) -> Self {
        ValueBag::spec_signed(v as i64)
    }
}

impl<'v> From<i16> for ValueBag<'v> {
    fn from(v: i16) -> (r: Self) {
        ValueBag::signed(v as i64)
    }
}

impl<'v> FromSpecImpl<i16> for ValueBag<'v> {
    open spec fn obeys_from_spec() -> bool {
        true
    }

    open spec fn from_spec(v: i16) -> Self {
        ValueBag::spec_signed(v as i64)
    }
}

impl<'v> From<i32> for ValueBag<'v> {
    fn from(v: i32) -> (r: Self) {
        ValueBag::signed(v as i64)
    }
}

impl<'v> FromSpecImpl<i32> for ValueBag<'v> {
    open spec fn obeys_from_spec() -> bool {
        true
    }

    open spec fn from_spec(v: i32) -> Self {
        ValueBag::spec_signed(v as i64)
    }
}

impl<'v> From<isize> for ValueBag<'v> {
    fn from(v: isize) -> (r: Self) {
        ValueBag::signed(v as i64)
    }
}

impl<'v> FromSpecImpl<isize> for ValueBag<'v> {
    open spec fn obeys_from_spec() -> bool {
        true
    }

    open spec fn from_spec(v: isize) -> Self {
        ValueBag::spec_signed(v as i64)
    }
}

impl<'v> From<i64> for ValueBag<'v> {
    fn from(v: i64) -> (r: Self) {
        ValueBag::signed(v)
    }
}

impl<'v> FromSpecImpl<i64> for ValueBag<'v> {
    open spec fn obeys_from_spec() -> bool {
        true
    }

    open spec fn from_spec(v: i64) -> Self {
        ValueBag::spec_signed(v)
    }
}

impl<'v> From<u128> for ValueBag<'v> {
    fn from(v: u128) -> (r: Self) {
        ValueBag::big_unsigned(v)
    }
}

impl<'v> FromSpecImpl<u128> for ValueBag<'v> {
    open spec fn obeys_from_spec() -> bool {
        true
    }

    open spec fn from_spec(v: u128) -> Self {
        ValueBag::spec_big_unsigned(v)
    }
}

impl<'v> From<i128> for ValueBag<'v> {
    fn from(v: i128) -> (r: Self) {
        ValueBag::big_signed(v)
    }
}

impl<'v> FromSpecImpl<i128> for ValueBag<'v> {
    open spec fn obeys_from_spec() -> bool {
        true
    }

    open spec fn from_spec(v: i128) -> Self {
        ValueBag::spec_big_signed(v)
    }
}

impl<'v> From<bool> for ValueBag<'v> {
    fn from(v: bool) -> (r: Self) {
        ValueBag::boolean(v)
    }
}

impl<'v> FromSpecImpl<bool> for ValueBag<'v> {
    open spec fn obeys_from_spec() -> bool {
        true
    }

    open spec fn from_spec(v: bool) -> Self {
        ValueBag::spec_bool(v)
    }
}

impl<'v> From<char> for ValueBag<'v> {
    fn from(v: char) -> (r: Self) {
        ValueBag::character(v)
    }
}

impl<'v> FromSpecImpl<char> for ValueBag<'v> {
    open spec fn obeys_from_spec() -> bool {
        true
    }

    open spec fn from_spec(v: char) -> Self {
        ValueBag::spec_char(v)
    }
}

impl<'v> From<&'v str> for ValueBag<'v> {
    fn from(v: &'v str) -> (r: Self) {
        ValueBag::text(v)
    }
}

impl<'v> FromSpecImpl<&'v str> for ValueBag<'v> {
    open spec fn obeys_from_spec() -> bool {
        true
    }

    open spec fn from_spec(v: &'v str) -> Self {
        ValueBag::spec_str(v)
    }
}

impl<'v> From<()> for ValueBag<'v> {
    fn from(v: ()) -> (r: Self) {
        ValueBag::absent()
    }
}

impl<'v> FromSpecImpl<()> for ValueBag<'v> {
    open spec fn obeys_from_spec() -> bool {
        true
    }

    open spec fn from_spec(v: ()) -> Self {
        ValueBag::spec_absent()
    }
}

impl<'v, T> From<Option<T>> for ValueBag<'v> where ValueBag<'v>: From<T> {
    fn from(v: Option<T>) -> (r: Self) {
        match v {
            Some(v) => ValueBag::from(v),
            None => ValueBag::absent(),
        }
    }
}

impl<'v, T> FromSpecImpl<Option<T>> for ValueBag<'v> where ValueBag<'v>: From<T> {
    open spec fn obeys_from_spec() -> bool {
        <ValueBag<'v> as FromSpec<T>>::obeys_from_spec()
    }

    open spec fn from_spec(v: Option<T>) -> Self {
        match v {
            Some(v) => <ValueBag<'v> as FromSpec<T>>::from_spec(v),
            None => ValueBag::spec_absent(),
        }
    }
}

impl<'v> ValueBag<'v> {
    /// Get a value from an optional one: an absent value for `None`, and the
    /// conversion of the inner value for `Some`.
    pub fn from_option<T>(v: Option<T>) -> (r: Self) where ValueBag<'v>: From<T>
        ensures
            v is None ==> r@ == Shape::Absent,
            v matches Some(x) ==> (<ValueBag<'v> as FromSpec<T>>::obeys_from_spec() ==> r
                == <ValueBag<'v> as FromSpec<T>>::from_spec(x)),
    {
        match v {
            Some(v) => ValueBag::from(v),
            None => ValueBag::absent(),
        }
    }
}

} // verus!
