//! Deferred values.
//!
//! The [`Fill`] trait bridges APIs that cannot build a [`ValueBag`] directly:
//! the implementor is handed a [`Slot`] and fills it with exactly one value,
//! which the slot buffers into an owned value.

use vstd::prelude::*;

use crate::bag::{group_primitive_shapes, ValueBag};
use crate::error::Error;
use crate::owned::OwnedValueBag;
use crate::seq::SeqElement;
use crate::shape::{buffers_as, Shape};
use std::fmt::{Debug, Display};

verus! {

broadcast use group_primitive_shapes;

/// A type that can fill a [`Slot`] with a value.
pub trait Fill {
    /// Fill the slot with a value, calling exactly one of its `fill_*`
    /// methods.
    fn fill(&self, slot: &mut Slot) -> Result<(), Error>;
}

/// A write-once place for a value.
pub struct Slot {
    filled: Option<OwnedValueBag>,
}

impl Slot {
    /// The shape of the value the slot holds, if it has been filled.
    pub closed spec fn filled(&self) -> Option<Shape> {
        match self.filled {
            Some(o) => Some(o@),
            None => None,
        }
    }

    pub(crate) fn new() -> (r: Slot)
        ensures
            r.filled() is None,
    {
        Slot { filled: None }
    }

    /// The value the slot was filled with, or an absent value if it was
    /// left empty.
    pub fn into_owned(self) -> (r: OwnedValueBag)
        ensures
            r@ == match self.filled() {
                Some(o) => o,
                None => Shape::Absent,
            },
    {
        match self.filled {
            Some(o) => o,
            None => ValueBag::from(()).to_owned(),
        }
    }

    /// Fill the slot with a copy of `value`, buffered as
    /// [`ValueBag::to_owned`] buffers it.
    ///
    /// A slot takes one value: calling more than one `fill_*` method on the
    /// same slot is a programmer error.
    pub fn fill_any(&mut self, value: ValueBag) -> (r: Result<(), Error>)
        requires
            old(self).filled() is None,
        ensures
            r is Ok,
            final(self).filled() matches Some(o) && buffers_as(value@, o),
    {
        self.filled = Some(value.to_owned());
        Ok(())
    }

    /// Fill the slot with a debuggable value.
    pub fn fill_debug<T: Debug>(&mut self, value: T) -> (r: Result<(), Error>)
        requires
            old(self).filled() is None,
        ensures
            r is Ok,
            final(self).filled() matches Some(o) && buffers_as(
                Shape::Debug { identified: false },
                o,
            ),
    {
        self.fill_any(ValueBag::from_debug(&value))
    }

    /// Fill the slot with a displayable value.
    pub fn fill_display<T: Display>(&mut self, value: T) -> (r: Result<(), Error>)
        requires
            old(self).filled() is None,
        ensures
            r is Ok,
            final(self).filled() matches Some(o) && buffers_as(
                Shape::Display { identified: false },
                o,
            ),
    {
        self.fill_any(ValueBag::from_display(&value))
    }

    /// Fill the slot with an error.
    pub fn fill_error<T: std::error::Error + 'static>(&mut self, value: T) -> (r: Result<(), Error>)
        requires
            old(self).filled() is None,
        ensures
            r is Ok,
            final(self).filled() matches Some(o) && buffers_as(Shape::Error { identified: true }, o),
    {
        self.fill_any(ValueBag::capture_error(&value))
    }

    /// Fill the slot with a sequence of values.
    ///
    /// The given value doesn't need to satisfy any particular lifetime
    /// constraints.
    pub fn fill_seq_slice<'a, T: SeqElement<'a>>(&mut self, value: &'a [T]) -> (r: Result<
        (),
        Error,
    >)
        requires
            old(self).filled() is None,
        ensures
            r is Ok,
            final(self).filled() matches Some(o) && buffers_as(
                Shape::Sequence(value@.map_values(|x: T| x.element_shape())),
                o,
            ),
    {
        self.fill_any(ValueBag::from_seq_slice(value))
    }
}

impl ValueBag<'static> {
    /// Get an owned value from a fillable type, filling it now.
    ///
    /// `value` is handed an empty slot; what it leaves there is the result
    /// (see [`Slot::into_owned`]), and an absent value if it leaves it empty.
    pub fn capture_owned_fill<T: Fill + Send + Sync + 'static>(value: T) -> OwnedValueBag {
        let mut slot = Slot::new();
        let _ = value.fill(&mut slot);
        slot.into_owned()
    }
}

} // verus!
