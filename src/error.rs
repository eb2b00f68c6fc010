//! The error type of the library.

use vstd::prelude::*;
use vstd::string::StringExecFns;

verus! {

/// An error encountered while working with structured data.
#[derive(Debug)]
pub struct Error {
    inner: Inner,
}

#[derive(Debug)]
enum Inner {
    Msg(&'static str),
    Boxed(String),
}

impl Error {
    /// The text this error displays as.
    pub closed spec fn message(&self) -> Seq<char> {
        match self.inner {
            Inner::Msg(m) => m@,
            Inner::Boxed(s) => s@,
        }
    }

    /// Create an error from a static message.
    pub fn msg(msg: &'static str) -> (r: Self)
        ensures
            r.message() == msg@,
    {
        Error { inner: Inner::Msg(msg) }
    }

    /// Create an error that owns its message, such as the rendered text of
    /// an error raised by some other library.
    pub fn boxed(err: String) -> (r: Self)
        ensures
            r.message() == err@,
    {
        Error { inner: Inner::Boxed(err) }
    }

    /// Create an error from a static message and the text of an error raised
    /// by some other library, rendered as `msg: detail`.
    pub fn try_boxed(msg: &'static str, detail: &str) -> (r: Self)
        ensures
            r.message() == msg@ + ": "@ + detail@,
    {
        let mut s = <String as StringExecFns>::from_str(msg);
        s.append(": ");
        s.append(detail);
        Error { inner: Inner::Boxed(s) }
    }

    /// Render this error as text.
    pub fn to_string(&self) -> (r: String)
        ensures
            r@ == self.message(),
    {
        match &self.inner {
            Inner::Msg(m) => (*m).to_owned(),
            Inner::Boxed(s) => s.clone(),
        }
    }
}

} // verus!
