//! The mathematical model of a value, and the casts stated over it.

use vstd::prelude::*;

verus! {

/// Which formatting capability a buffered text came from.
#[derive(Clone, Copy, Debug, PartialEq, Eq, Structural)]
pub enum TextKind {
    Debug,
    Display,
    Error,
}

/// The abstract value that a [`ValueBag`](crate::ValueBag) or an
/// [`OwnedValueBag`](crate::OwnedValueBag) holds.
///
/// Integers keep the carrier they were captured in, floats are held as their
/// IEEE-754 bit pattern, and text as its characters.
pub enum Shape {
    Signed(i64),
    Unsigned(u64),
    BigSigned(i128),
    BigUnsigned(u128),
    Float(u64),
    Bool(bool),
    Char(char),
    Str(Seq<char>),
    Absent,
    /// An ordered sequence of elements.
    Sequence(Seq<Shape>),
    /// A sequence seen as the element of another sequence.
    Nested,
    /// A reference to a value that formats with `Debug`.
    Debug { identified: bool },
    /// A reference to a value that formats with `Display`.
    Display { identified: bool },
    /// An error value: a reference to one, or one owned as its rendered
    /// message.
    Error { identified: bool },
    /// Text rendered from one of the formatting capabilities.
    Text { kind: TextKind, text: Seq<char> },
}

/// The shape of a character.
pub open spec fn char_shape(c: char) -> Shape {
    Shape::Char(c)
}

/// The integer a shape holds, if it is one.
pub open spec fn int_of(s: Shape) -> Option<int> {
    match s {
        Shape::Signed(v) => Some(v as int),
        Shape::Unsigned(v) => Some(v as int),
        Shape::BigSigned(v) => Some(v as int),
        Shape::BigUnsigned(v) => Some(v as int),
        _ => None,
    }
}

/// A `u64` cast: any integer from 0 to `u64::MAX`, whatever its carrier.
pub open spec fn cast_u64(s: Shape) -> Option<u64> {
    match int_of(s) {
        Some(n) => if 0 <= n <= u64::MAX { Some(n as u64) } else { None },
        None => None,
    }
}

/// An `i64` cast: any integer from `i64::MIN` to `i64::MAX`.
pub open spec fn cast_i64(s: Shape) -> Option<i64> {
    match int_of(s) {
        Some(n) => if i64::MIN <= n <= i64::MAX { Some(n as i64) } else { None },
        None => None,
    }
}

/// A `u128` cast: any non-negative integer.
pub open spec fn cast_u128(s: Shape) -> Option<u128> {
    match int_of(s) {
        Some(n) => if 0 <= n <= u128::MAX { Some(n as u128) } else { None },
        None => None,
    }
}

/// An `i128` cast: any integer from `i128::MIN` to `i128::MAX`.
pub open spec fn cast_i128(s: Shape) -> Option<i128> {
    match int_of(s) {
        Some(n) => if i128::MIN <= n <= i128::MAX { Some(n as i128) } else { None },
        None => None,
    }
}

/// A `bool` cast: only a boolean.
pub open spec fn cast_bool(s: Shape) -> Option<bool> {
    match s {
        Shape::Bool(b) => Some(b),
        _ => None,
    }
}

/// A `char` cast: only a character.
pub open spec fn cast_char(s: Shape) -> Option<char> {
    match s {
        Shape::Char(c) => Some(c),
        _ => None,
    }
}

/// A string cast: only a string, as its characters.
pub open spec fn cast_str(s: Shape) -> Option<Seq<char>> {
    match s {
        Shape::Str(t) => Some(t),
        _ => None,
    }
}

/// What a 64-bit float can be made from without losing precision.
#[derive(Clone, Copy, Debug, PartialEq, Eq, Structural)]
pub enum F64Source {
    /// A float, as its IEEE-754 bit pattern.
    Bits(u64),
    /// An integer that fits a 32-bit intermediate, which a float holds exactly.
    Exact(i64),
}

/// Whether an integer fits the 32-bit intermediate of its carrier's
/// signedness.
pub open spec fn fits_32(s: Shape, n: int) -> bool {
    match s {
        Shape::Unsigned(_) | Shape::BigUnsigned(_) => 0 <= n <= u32::MAX,
        _ => i32::MIN <= n <= i32::MAX,
    }
}

/// What a 64-bit float can be made from exactly: a float, or an integer
/// within the 32-bit range of its carrier's signedness.
pub open spec fn cast_f64_source(s: Shape) -> Option<F64Source> {
    match s {
        Shape::Float(b) => Some(F64Source::Bits(b)),
        _ => match int_of(s) {
            Some(n) => if fits_32(s, n) { Some(F64Source::Exact(n as i64)) } else { None },
            None => None,
        },
    }
}

/// Whether a shape carries the identity of the type it was captured from.
pub open spec fn is_identified(s: Shape) -> bool {
    match s {
        Shape::Debug { identified } => identified,
        Shape::Display { identified } => identified,
        Shape::Error { identified } => identified,
        _ => false,
    }
}

/// A shape as it stands when it is an element of a sequence.
pub open spec fn as_element(s: Shape) -> Shape {
    match s {
        Shape::Sequence(_) => Shape::Nested,
        _ => s,
    }
}

/// The text an optional borrowed string holds.
pub open spec fn view_str(o: Option<&str>) -> Option<Seq<char>> {
    match o {
        Some(s) => Some(s@),
        None => None,
    }
}

/// The text an optional, possibly owned, string holds.
pub open spec fn view_cow(o: Option<std::borrow::Cow<'_, str>>) -> Option<Seq<char>> {
    match o {
        Some(s) => Some(s@),
        None => None,
    }
}

/// Whether an optional string is absent or borrowed, never an allocated copy.
pub open spec fn not_owned(o: Option<std::borrow::Cow<'_, str>>) -> bool {
    match o {
        Some(std::borrow::Cow::Owned(_)) => false,
        _ => true,
    }
}

/// The texts a sequence of optional borrowed strings holds.
pub open spec fn view_strs(s: Seq<Option<&str>>) -> Seq<Option<Seq<char>>> {
    s.map_values(|o: Option<&str>| view_str(o))
}

/// The texts a sequence of optional, possibly owned, strings holds.
pub open spec fn view_cows(s: Seq<Option<std::borrow::Cow<'_, str>>>) -> Seq<Option<Seq<char>>> {
    s.map_values(|o: Option<std::borrow::Cow<'_, str>>| view_cow(o))
}

/// What collecting casts out of a shape yields: one cast for each element of a
/// sequence, or the single cast of any other shape.
pub open spec fn collected<T>(s: Shape, cast: spec_fn(Shape) -> T) -> Seq<T> {
    match s {
        Shape::Sequence(e) => e.map_values(cast),
        _ => seq![cast(s)],
    }
}

/// Whether a shape is a self-contained primitive.
pub open spec fn is_primitive(s: Shape) -> bool {
    match s {
        Shape::Signed(_) | Shape::Unsigned(_) | Shape::BigSigned(_) | Shape::BigUnsigned(_)
        | Shape::Float(_) | Shape::Bool(_) | Shape::Char(_) | Shape::Str(_) | Shape::Absent => true,
        _ => false,
    }
}

/// Whether a shape is text rendered from the capability `kind`.
pub open spec fn is_text_of(s: Shape, kind: TextKind) -> bool {
    match s {
        Shape::Text { kind: k, .. } => k == kind,
        _ => false,
    }
}

/// The shape of an owned error: it no longer knows the type it came from.
pub open spec fn owned_error() -> Shape {
    Shape::Error { identified: false }
}

/// Whether `owned` is what buffering turns the element `elem` into: values
/// captured through `Debug` or `Display` become their rendered text (or an
/// owned error, if their implementation fails), errors stay errors, a nested
/// sequence becomes `Absent`, and everything else is kept as it is.
pub open spec fn buffers_element(elem: Shape, owned: Shape) -> bool {
    match elem {
        Shape::Nested => owned == Shape::Absent,
        Shape::Sequence(_) => owned == Shape::Absent,
        Shape::Debug { .. } => is_text_of(owned, TextKind::Debug) || owned == owned_error(),
        Shape::Display { .. } => is_text_of(owned, TextKind::Display) || owned == owned_error(),
        Shape::Error { .. } => owned == owned_error(),
        _ => owned == elem,
    }
}

/// Whether `owned` is what buffering turns `s` into: a sequence stays a
/// sequence of the same length, each element buffered on its own.
pub open spec fn buffers_as(s: Shape, owned: Shape) -> bool {
    match s {
        Shape::Sequence(e) => match owned {
            Shape::Sequence(o) => o.len() == e.len() && forall|i: int|
                0 <= i < e.len() ==> #[trigger] buffers_element(e[i], o[i]),
            _ => false,
        },
        _ => buffers_element(s, owned),
    }
}

/// Mapping a prefix one element longer maps one more element.
pub(crate) proof fn lemma_map_take_push<A, B>(s: Seq<A>, i: int, f: spec_fn(A) -> B)
    requires
        0 < i <= s.len(),
    ensures
        s.take(i).map_values(f) == s.take(i - 1).map_values(f).push(f(s[i - 1])),
{
    assert(s.take(i) =~= s.take(i - 1).push(s[i - 1]));
    assert(s.take(i).map_values(f) =~= s.take(i - 1).map_values(f).push(f(s[i - 1])));
}

} // verus!
