//! Structured values: a small, copyable container that captures a value of
//! any shape and converts it on demand into concrete types.

use vstd::prelude::*;

mod bag;
mod capture;
mod cast;
mod convert;
mod error;
pub mod fill;
mod fmt;
pub mod laws;
mod owned;
mod seq;
mod shape;
pub mod stream;
pub mod visit;

pub use self::bag::{group_primitive_shapes, ValueBag};
pub use self::error::Error;
pub use self::fmt::{decimal, digit_char, has_float, int_text, plain_text};
pub use self::owned::OwnedValueBag;
pub use self::seq::SeqElement;
pub use self::shape::{
    as_element, buffers_as, buffers_element, cast_bool, cast_char, cast_f64_source, cast_i128,
    cast_i64, cast_str, cast_u128, cast_u64, char_shape, collected, fits_32, int_of, is_identified,
    is_primitive, is_text_of, not_owned, owned_error, view_cow, view_cows, view_str, view_strs, F64Source, Shape, TextKind,
};
