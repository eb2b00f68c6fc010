//! Rendering a value as text.

use vstd::prelude::*;
use vstd::string::StringExecFns;

use crate::bag::{lemma_view_is_shape, Internal, ValueBag};
use crate::error::Error;
use crate::owned::{render_debug, render_display, OwnedValueBag};
use crate::shape::Shape;

verus! {

/// Whether a shape holds a float, itself or as an element.
pub open spec fn has_float(s: Shape) -> bool {
    match s {
        Shape::Float(_) => true,
        Shape::Sequence(e) => exists|i: int| 0 <= i < e.len() && #[trigger] e[i] is Float,
        _ => false,
    }
}

/// The character of a decimal digit.
pub open spec fn digit_char(d: nat) -> char {
    if d == 0 {
        '0'
    } else if d == 1 {
        '1'
    } else if d == 2 {
        '2'
    } else if d == 3 {
        '3'
    } else if d == 4 {
        '4'
    } else if d == 5 {
        '5'
    } else if d == 6 {
        '6'
    } else if d == 7 {
        '7'
    } else if d == 8 {
        '8'
    } else {
        '9'
    }
}

/// The decimal digits of a natural number, most significant first.
pub open spec fn decimal(n: nat) -> Seq<char>
    decreases n,
{
    if n < 10 {
        seq![digit_char(n)]
    } else {
        decimal(n / 10).push(digit_char(n % 10))
    }
}

/// The decimal text of an integer, with a leading `-` when it is negative.
pub open spec fn int_text(n: int) -> Seq<char> {
    if n < 0 {
        seq!['-'] + decimal((-n) as nat)
    } else {
        decimal(n as nat)
    }
}

/// The text of a shape whose rendering does not go through an
/// implementation of `Debug` or `Display`.
pub open spec fn plain_text(s: Shape) -> Option<Seq<char>> {
    match s {
        Shape::Str(t) => Some(t),
        Shape::Text { text, .. } => Some(text),
        Shape::Bool(b) => Some(if b { "true"@ } else { "false"@ }),
        Shape::Absent => Some("None"@),
        Shape::Char(c) => Some(seq![c]),
        Shape::Nested => Some("[..]"@),
        _ => match crate::shape::int_of(s) {
            Some(n) => Some(int_text(n)),
            None => None,
        },
    }
}

/// Relies on `String::from` for a `char`: a string of that one character.
#[verifier::external_body]
fn char_text(c: char) -> (r: String)
    ensures
        r@ == seq![c],
{
    String::from(c)
}

fn digit_text(d: u128) -> (r: &'static str)
    requires
        d < 10,
    ensures
        r@ == seq![digit_char(d as nat)],
{
    proof {
        reveal_strlit("0");
        reveal_strlit("1");
        reveal_strlit("2");
        reveal_strlit("3");
        reveal_strlit("4");
        reveal_strlit("5");
        reveal_strlit("6");
        reveal_strlit("7");
        reveal_strlit("8");
        reveal_strlit("9");
    }
    if d == 0 {
        "0"
    } else if d == 1 {
        "1"
    } else if d == 2 {
        "2"
    } else if d == 3 {
        "3"
    } else if d == 4 {
        "4"
    } else if d == 5 {
        "5"
    } else if d == 6 {
        "6"
    } else if d == 7 {
        "7"
    } else if d == 8 {
        "8"
    } else {
        "9"
    }
}

fn decimal_text(n: u128) -> (r: String)
    ensures
        r@ == decimal(n as nat),
    decreases n,
{
    if n < 10 {
        <String as StringExecFns>::from_str(digit_text(n))
    } else {
        let mut s = decimal_text(n / 10);
        s.append(digit_text(n % 10));
        s
    }
}

fn int_string(n: i128) -> (r: String)
    ensures
        r@ == int_text(n as int),
{
    if n < 0 {
        let m: u128 = if n == i128::MIN {
            i128::MAX as u128 + 1
        } else {
            (-n) as u128
        };
        let mut s = <String as StringExecFns>::from_str("-");
        proof {
            reveal_strlit("-");
        }
        s.append(decimal_text(m).as_str());
        s
    } else {
        decimal_text(n as u128)
    }
}

fn uint_string(n: u128) -> (r: String)
    ensures
        r@ == int_text(n as int),
{
    decimal_text(n)
}

/// Turn the outcome of a formatting implementation into a result.
fn formatted(text: Option<String>) -> (r: Result<String, Error>)
    ensures
        text matches Some(t) ==> r == Ok::<String, Error>(t),
        text is None ==> (r matches Err(e) && e.message() == "failed to format the value"@),
{
    match text {
        Some(t) => Ok(t),
        None => Err(Error::msg("failed to format the value")),
    }
}

impl<'v> Internal<'v> {
    /// Render a value that is not a sequence, or mark a nested one.
    fn render_scalar(&self) -> (r: Result<String, Error>)
        requires
            !(self.scalar() is Float),
        ensures
            plain_text(self.scalar()) matches Some(t) ==> (r matches Ok(s) && s@ == t),
    {
        proof {
            reveal_strlit("true");
            reveal_strlit("false");
            reveal_strlit("None");
            reveal_strlit("[..]");
        }
        match *self {
            Internal::Signed(v) => Ok(int_string(v as i128)),
            Internal::Unsigned(v) => Ok(uint_string(v as u128)),
            Internal::BigSigned(v) => Ok(int_string(v)),
            Internal::BigUnsigned(v) => Ok(uint_string(v)),
            Internal::Float(_) => Ok(String::new()),
            Internal::Bool(b) => if b {
                Ok(<String as StringExecFns>::from_str("true"))
            } else {
                Ok(<String as StringExecFns>::from_str("false"))
            },
            Internal::Char(c) => Ok(char_text(c)),
            Internal::Str(s) => Ok(<String as StringExecFns>::from_str(s)),
            Internal::Absent => Ok(<String as StringExecFns>::from_str("None")),
            Internal::Sequence(_) => Ok(<String as StringExecFns>::from_str("[..]")),
            Internal::Debug(v, _) => formatted(render_debug(v)),
            Internal::Display(v, _) => formatted(render_display(v)),
            Internal::Error(v, _) => formatted(render_display(v)),
            Internal::Text(_, s) => Ok(<String as StringExecFns>::from_str(s)),
        }
    }
}

impl<'v> ValueBag<'v> {
    /// Render this value as text.
    ///
    /// Strings and rendered text come out as they are, `bool`s as `true` or
    /// `false`, an absent value as `None`, integers in decimal and a
    /// character as itself; values captured through `Debug`, `Display` or an
    /// error are rendered by their own implementation, whose failure is
    /// returned as an error. A sequence renders as its elements between
    /// brackets, separated by `, `, with `[..]` for a nested sequence. Floats
    /// are left to the caller, who holds their bits.
    pub fn to_string(&self) -> (r: Result<String, Error>)
        requires
            !has_float(self@),
        ensures
            plain_text(self@) matches Some(t) ==> (r matches Ok(s) && s@ == t),
            self@ is Sequence && r is Ok ==> r->Ok_0@.len() >= 2 && r->Ok_0@[0] == '['
                && r->Ok_0@.last() == ']',
    {
        proof {
            lemma_view_is_shape(*self);
        }
        match self.inner {
            Internal::Sequence(seq) => {
                let n = seq.len();
                let ghost elems = seq.elements();
                let mut out = <String as StringExecFns>::from_str("[");
                proof {
                    reveal_strlit("[");
                    assert(self@ is Sequence);
                    assert(plain_text(self@) is None);
                }
                let mut i: usize = 0;
                while i < n
                    invariant
                        n == elems.len(),
                        elems == seq.elements(),
                        i <= n,
                        forall|j: int| 0 <= j < n ==> !(#[trigger] elems[j] is Float),
                        plain_text(self@) is None,
                        out@.len() >= 1,
                        out@[0] == '[',
                    decreases n - i,
                {
                    if i > 0 {
                        out.append(", ");
                    }
                    let e = seq.get(i);
                    match e.render_scalar() {
                        Ok(text) => out.append(text.as_str()),
                        Err(err) => return Err(err),
                    }
                    i = i + 1;
                }
                out.append("]");
                proof {
                    reveal_strlit("]");
                }
                Ok(out)
            },
            _ => self.inner.render_scalar(),
        }
    }
}

impl OwnedValueBag {
    /// Render this value as text, as [`ValueBag::to_string`] does for the
    /// value borrowed back out of it.
    pub fn to_string(&self) -> (r: Result<String, Error>)
        requires
            !has_float(self@),
        ensures
            plain_text(self@) matches Some(t) ==> (r matches Ok(s) && s@ == t),
            self@ is Sequence && r is Ok ==> r->Ok_0@.len() >= 2 && r->Ok_0@[0] == '['
                && r->Ok_0@.last() == ']',
    {
        self.by_ref().to_string()
    }
}

} // verus!
