//! Owned values: a detached copy of a [`ValueBag`] that can outlive what it
//! was captured from and be shared across threads.

use vstd::prelude::*;

use crate::bag::{lemma_view_is_shape, Internal, SeqRef, ValueBag};
use crate::shape::{
    buffers_as, buffers_element, is_primitive, is_text_of, owned_error, Shape, TextKind,
};
use std::fmt::{Debug, Display, Write};
use vstd::string::StringExecFns;

verus! {

/// A dynamic structured value that owns its contents.
///
/// This is the owned variant of [`ValueBag`], made with
/// [`ValueBag::to_owned`]; it is inspected by borrowing a regular `ValueBag`
/// back out of it with [`OwnedValueBag::by_ref`].
#[derive(Clone)]
pub struct OwnedValueBag {
    pub(crate) inner: OwnedInternal,
}

#[derive(Clone)]
pub(crate) enum OwnedInternal {
    Scalar(OwnedScalar),
    Sequence(Vec<OwnedScalar>),
}

/// An owned value that is not a sequence.
#[derive(Clone)]
pub(crate) enum OwnedScalar {
    Signed(i64),
    Unsigned(u64),
    BigSigned(i128),
    BigUnsigned(u128),
    Float(u64),
    Bool(bool),
    Char(char),
    Str(String),
    Absent,
    Text(TextKind, String),
    /// An error, owned as its rendered message.
    Error(String),
}

impl OwnedScalar {
    pub(crate) open spec fn shape(&self) -> Shape {
        match *self {
            OwnedScalar::Signed(v) => Shape::Signed(v),
            OwnedScalar::Unsigned(v) => Shape::Unsigned(v),
            OwnedScalar::BigSigned(v) => Shape::BigSigned(v),
            OwnedScalar::BigUnsigned(v) => Shape::BigUnsigned(v),
            OwnedScalar::Float(b) => Shape::Float(b),
            OwnedScalar::Bool(b) => Shape::Bool(b),
            OwnedScalar::Char(c) => Shape::Char(c),
            OwnedScalar::Str(s) => Shape::Str(s@),
            OwnedScalar::Absent => Shape::Absent,
            OwnedScalar::Text(kind, s) => Shape::Text { kind, text: s@ },
            OwnedScalar::Error(_) => owned_error(),
        }
    }
}

impl OwnedValueBag {
    pub(crate) open spec fn full_shape(&self) -> Shape {
        match self.inner {
            OwnedInternal::Scalar(s) => s.shape(),
            OwnedInternal::Sequence(v) => Shape::Sequence(
                v@.map_values(|o: OwnedScalar| o.shape()),
            ),
        }
    }
}

impl View for OwnedValueBag {
    type V = Shape;

    closed spec fn view(&self) -> Shape {
        self.full_shape()
    }
}

/// Relies on `write!` into a `String` with `{:?}`: the text the value's
/// `Debug` impl writes, or `None` if that impl reports an error.
#[verifier::external_body]
pub(crate) fn render_debug(value: &dyn Debug) -> Option<String> {
    let mut s = String::new();
    match write!(s, "{:?}", value) {
        Ok(()) => Some(s),
        Err(_) => None,
    }
}

/// Relies on `write!` into a `String` with `{}`: the text the value's
/// `Display` impl writes, or `None` if that impl reports an error.
#[verifier::external_body]
pub(crate) fn render_display(value: &dyn Display) -> Option<String> {
    let mut s = String::new();
    match write!(s, "{}", value) {
        Ok(()) => Some(s),
        Err(_) => None,
    }
}

/// The message of a value whose formatting failed.
pub(crate) fn format_failure() -> (r: String)
    ensures
        r@ == "failed to format the value"@,
{
    proof {
        reveal_strlit("failed to format the value");
    }
    <String as StringExecFns>::from_str("failed to format the value")
}

/// Buffer the text of a formatted value, or an owned error if formatting
/// failed.
fn buffer_text(kind: TextKind, text: Option<String>) -> (r: OwnedScalar)
    ensures
        is_text_of(r.shape(), kind) || r.shape() == owned_error(),
{
    match text {
        Some(t) => OwnedScalar::Text(kind, t),
        None => OwnedScalar::Error(format_failure()),
    }
}

/// Buffer an error as its rendered message.
fn buffer_error(text: Option<String>) -> (r: OwnedScalar)
    ensures
        r.shape() == owned_error(),
{
    match text {
        Some(t) => OwnedScalar::Error(t),
        None => OwnedScalar::Error(format_failure()),
    }
}

impl OwnedValueBag {
    pub(crate) fn from_scalar(s: OwnedScalar) -> (r: OwnedValueBag)
        ensures
            r@ == s.shape(),
    {
        OwnedValueBag { inner: OwnedInternal::Scalar(s) }
    }

    pub(crate) fn from_elements(v: Vec<OwnedScalar>) -> (r: OwnedValueBag)
        ensures
            r@ == Shape::Sequence(v@.map_values(|o: OwnedScalar| o.shape())),
    {
        OwnedValueBag { inner: OwnedInternal::Sequence(v) }
    }
}

impl OwnedScalar {
    pub(crate) fn internal_ref<'v>(&'v self) -> (r: Internal<'v>)
        ensures
            r.scalar() == self.shape(),
            r.shape() == self.shape(),
    {
        match self {
            OwnedScalar::Signed(v) => Internal::Signed(*v),
            OwnedScalar::Unsigned(v) => Internal::Unsigned(*v),
            OwnedScalar::BigSigned(v) => Internal::BigSigned(*v),
            OwnedScalar::BigUnsigned(v) => Internal::BigUnsigned(*v),
            OwnedScalar::Float(b) => Internal::Float(*b),
            OwnedScalar::Bool(b) => Internal::Bool(*b),
            OwnedScalar::Char(c) => Internal::Char(*c),
            OwnedScalar::Str(s) => Internal::Str(s.as_str()),
            OwnedScalar::Absent => Internal::Absent,
            OwnedScalar::Text(kind, s) => Internal::Text(*kind, s.as_str()),
            OwnedScalar::Error(s) => Internal::Error(s, None),
        }
    }
}

impl OwnedValueBag {
    pub(crate) fn internal_ref<'v>(&'v self) -> (r: Internal<'v>)
        ensures
            r.shape() == self.full_shape(),
    {
        match &self.inner {
            OwnedInternal::Scalar(s) => s.internal_ref(),
            OwnedInternal::Sequence(v) => {
                let s = v.as_slice();
                let r = Internal::Sequence(SeqRef::Owned(s));
                proof {
                    assert(SeqRef::Owned(s).elements() =~= v@.map_values(
                        |o: OwnedScalar| o.shape(),
                    ));
                }
                r
            },
        }
    }

    /// Get a regular [`ValueBag`] from this value.
    ///
    /// The result holds what was buffered: formatted values come back as
    /// their rendered text, and the type they were captured from is gone, so
    /// [`ValueBag::is`] no longer matches it.
    pub fn by_ref<'v>(&'v self) -> (r: ValueBag<'v>)
        ensures
            r@ == self@,
    {
        let r = ValueBag { inner: self.internal_ref() };
        proof {
            lemma_view_is_shape(r);
        }
        r
    }
}

impl<'v> Internal<'v> {
    /// Buffer this representation as an element of an owned sequence.
    fn buffer_element(&self) -> (r: OwnedScalar)
        ensures
            buffers_element(self.scalar(), r.shape()),
    {
        match *self {
            Internal::Signed(v) => OwnedScalar::Signed(v),
            Internal::Unsigned(v) => OwnedScalar::Unsigned(v),
            Internal::BigSigned(v) => OwnedScalar::BigSigned(v),
            Internal::BigUnsigned(v) => OwnedScalar::BigUnsigned(v),
            Internal::Float(b) => OwnedScalar::Float(b),
            Internal::Bool(b) => OwnedScalar::Bool(b),
            Internal::Char(c) => OwnedScalar::Char(c),
            Internal::Str(s) => OwnedScalar::Str(s.to_owned()),
            Internal::Absent => OwnedScalar::Absent,
            Internal::Sequence(_) => OwnedScalar::Absent,
            Internal::Debug(v, _) => buffer_text(TextKind::Debug, render_debug(v)),
            Internal::Display(v, _) => buffer_text(TextKind::Display, render_display(v)),
            Internal::Error(v, _) => buffer_error(render_display(v)),
            Internal::Text(kind, s) => OwnedScalar::Text(kind, s.to_owned()),
        }
    }
}

impl<'v> ValueBag<'v> {
    /// Buffer this value into an [`OwnedValueBag`].
    ///
    /// Primitives are copied and strings are copied into owned ones. Values
    /// captured through `Debug`, `Display` or an error are rendered to text
    /// now. A sequence is buffered element by element; a sequence nested in
    /// it is buffered as an absent value.
    pub fn to_owned(&self) -> (r: OwnedValueBag)
        ensures
            buffers_as(self@, r@),
    {
        proof {
            lemma_view_is_shape(*self);
        }
        match self.inner {
            Internal::Sequence(seq) => {
                let n = seq.len();
                let ghost elems = seq.elements();
                let mut items: Vec<OwnedScalar> = Vec::new();
                let mut i: usize = 0;
                while i < n
                    invariant
                        n == elems.len(),
                        elems == seq.elements(),
                        i <= n,
                        items@.len() == i,
                        forall|j: int|
                            0 <= j < i ==> buffers_element(
                                elems[j],
                                #[trigger] items@[j].shape(),
                            ),
                    decreases n - i,
                {
                    let e = seq.get(i);
                    let o = e.buffer_element();
                    items.push(o);
                    i = i + 1;
                }
                let r = OwnedValueBag { inner: OwnedInternal::Sequence(items) };
                proof {
                    let o = items@.map_values(|o: OwnedScalar| o.shape());
                    assert forall|j: int| 0 <= j < elems.len() implies #[trigger] buffers_element(
                        elems[j],
                        o[j],
                    ) by {
                        assert(o[j] == items@[j].shape());
                    }
                }
                r
            },
            _ => OwnedValueBag { inner: OwnedInternal::Scalar(self.inner.buffer_element()) },
        }
    }
}

impl ValueBag<'static> {
    /// Get an owned value from a debuggable type.
    ///
    /// This tries to capture the value as a primitive before rendering it
    /// with its `Debug` implementation.
    pub fn capture_owned_debug<T: Debug + Send + Sync + 'static>(value: T) -> (r: OwnedValueBag)
        ensures
            is_primitive(r@) || is_text_of(r@, TextKind::Debug) || r@ == owned_error(),
    {
        match ValueBag::recover(&value) {
            Some(b) => b.to_owned(),
            None => OwnedValueBag::from_scalar(buffer_text(TextKind::Debug, render_debug(&value))),
        }
    }

    /// Get an owned value from a displayable type.
    ///
    /// This tries to capture the value as a primitive before rendering it
    /// with its `Display` implementation.
    pub fn capture_owned_display<T: Display + Send + Sync + 'static>(value: T) -> (r:
        OwnedValueBag)
        ensures
            is_primitive(r@) || is_text_of(r@, TextKind::Display) || r@ == owned_error(),
    {
        match ValueBag::recover(&value) {
            Some(b) => b.to_owned(),
            None => OwnedValueBag::from_scalar(
                buffer_text(TextKind::Display, render_display(&value)),
            ),
        }
    }

    /// Get an owned value from an error.
    pub fn capture_owned_error<T: std::error::Error + Send + Sync + 'static>(value: T) -> (r:
        OwnedValueBag)
        ensures
            r@ == owned_error(),
    {
        OwnedValueBag::from_scalar(buffer_error(render_display(&value)))
    }
}

} // verus!
