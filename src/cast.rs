//! Casting a value into concrete types.
//!
//! Integers convert into any target that can represent them exactly, whatever
//! carrier they were captured in; every other cast succeeds only on the
//! matching primitive. A sequence casts element by element, and an element
//! that does not convert stands as `None`, so indexes line up.

use vstd::prelude::*;

use crate::bag::{lemma_view_is_shape, Internal, ValueBag};
use crate::shape::{
    cast_bool, cast_char, cast_f64_source, cast_i128, cast_i64, cast_str, cast_u128, cast_u64,
    collected, lemma_map_take_push, not_owned, view_cow, view_cows, view_str, view_strs, F64Source, Shape,
};
use std::borrow::Cow;

verus! {

broadcast use lemma_view_is_shape;

impl<'v> Internal<'v> {
    pub(crate) fn cast_u64(&self) -> (r: Option<u64>)
        ensures
            r == cast_u64(self.scalar()),
            r == cast_u64(self.shape()),
    {
        match *self {
            Internal::Signed(v) => if v >= 0 { Some(v as u64) } else { None },
            Internal::Unsigned(v) => Some(v),
            Internal::BigSigned(v) => if 0 <= v && v <= u64::MAX as i128 {
                Some(v as u64)
            } else {
                None
            },
            Internal::BigUnsigned(v) => if v <= u64::MAX as u128 { Some(v as u64) } else { None },
            _ => None,
        }
    }

    pub(crate) fn cast_i64(&self) -> (r: Option<i64>)
        ensures
            r == cast_i64(self.scalar()),
            r == cast_i64(self.shape()),
    {
        match *self {
            Internal::Signed(v) => Some(v),
            Internal::Unsigned(v) => if v <= i64::MAX as u64 { Some(v as i64) } else { None },
            Internal::BigSigned(v) => if i64::MIN as i128 <= v && v <= i64::MAX as i128 {
                Some(v as i64)
            } else {
                None
            },
            Internal::BigUnsigned(v) => if v <= i64::MAX as u128 { Some(v as i64) } else { None },
            _ => None,
        }
    }

    pub(crate) fn cast_u128(&self) -> (r: Option<u128>)
        ensures
            r == cast_u128(self.scalar()),
            r == cast_u128(self.shape()),
    {
        match *self {
            Internal::Signed(v) => if v >= 0 { Some(v as u128) } else { None },
            Internal::Unsigned(v) => Some(v as u128),
            Internal::BigSigned(v) => if v >= 0 { Some(v as u128) } else { None },
            Internal::BigUnsigned(v) => Some(v),
            _ => None,
        }
    }

    pub(crate) fn cast_i128(&self) -> (r: Option<i128>)
        ensures
            r == cast_i128(self.scalar()),
            r == cast_i128(self.shape()),
    {
        match *self {
            Internal::Signed(v) => Some(v as i128),
            Internal::Unsigned(v) => Some(v as i128),
            Internal::BigSigned(v) => Some(v),
            Internal::BigUnsigned(v) => if v <= i128::MAX as u128 { Some(v as i128) } else { None },
            _ => None,
        }
    }

    pub(crate) fn cast_f64_source(&self) -> (r: Option<F64Source>)
        ensures
            r == cast_f64_source(self.scalar()),
            r == cast_f64_source(self.shape()),
    {
        match *self {
            Internal::Float(b) => Some(F64Source::Bits(b)),
            Internal::Unsigned(v) => if v <= u32::MAX as u64 {
                Some(F64Source::Exact(v as i64))
            } else {
                None
            },
            Internal::BigUnsigned(v) => if v <= u32::MAX as u128 {
                Some(F64Source::Exact(v as i64))
            } else {
                None
            },
            Internal::Signed(v) => if i32::MIN as i64 <= v && v <= i32::MAX as i64 {
                Some(F64Source::Exact(v))
            } else {
                None
            },
            Internal::BigSigned(v) => if i32::MIN as i128 <= v && v <= i32::MAX as i128 {
                Some(F64Source::Exact(v as i64))
            } else {
                None
            },
            _ => None,
        }
    }

    pub(crate) fn cast_bool(&self) -> (r: Option<bool>)
        ensures
            r == cast_bool(self.scalar()),
            r == cast_bool(self.shape()),
    {
        match *self {
            Internal::Bool(b) => Some(b),
            _ => None,
        }
    }

    pub(crate) fn cast_char(&self) -> (r: Option<char>)
        ensures
            r == cast_char(self.scalar()),
            r == cast_char(self.shape()),
    {
        match *self {
            Internal::Char(c) => Some(c),
            _ => None,
        }
    }

    pub(crate) fn cast_borrowed_str(&self) -> (r: Option<&'v str>)
        ensures
            view_str(r) == cast_str(self.scalar()),
            view_str(r) == cast_str(self.shape()),
    {
        match *self {
            Internal::Str(s) => Some(s),
            _ => None,
        }
    }

    pub(crate) fn cast_str(&self) -> (r: Option<Cow<'v, str>>)
        ensures
            view_cow(r) == cast_str(self.scalar()),
            view_cow(r) == cast_str(self.shape()),
            not_owned(r),
    {
        match *self {
            Internal::Str(s) => Some(Cow::Borrowed(s)),
            _ => None,
        }
    }
}

impl<'v> ValueBag<'v> {
    /// Try get a `u64` from this value.
    pub fn to_u64(&self) -> (r: Option<u64>)
        ensures
            r == cast_u64(self@),
    {
        self.inner.cast_u64()
    }

    /// Push a `u64` cast of this value into `into`: one for each element if
    /// this value is a sequence, or the single cast of any other value.
    /// Elements that fail to cast are pushed as `None`.
    pub fn collect_u64(&self, into: &mut Vec<Option<u64>>)
        ensures
            final(into)@ == old(into)@ + collected(self@, |s: Shape| cast_u64(s)),
    {
        match self.inner {
            Internal::Sequence(seq) => {
                let n = seq.len();
                let ghost start = into@;
                let ghost elems = seq.elements();
                let mut i: usize = 0;
                while i < n
                    invariant
                        n == elems.len(),
                        elems == seq.elements(),
                        i <= n,
                        into@ == start + elems.take(i as int).map_values(|s: Shape| cast_u64(s)),
                    decreases n - i,
                {
                    let e = seq.get(i);
                    into.push(e.cast_u64());
                    i = i + 1;
                    proof {
                        lemma_map_take_push(elems, i as int, |s: Shape| cast_u64(s));
                    }
                }
                proof {
                    assert(elems.take(n as int) =~= elems);
                }
            },
            _ => {
                into.push(self.inner.cast_u64());
                proof {
                    assert(collected(self@, |s: Shape| cast_u64(s)) =~= seq![cast_u64(self@)]);
                }
            },
        }
    }

    /// Try get an `i64` from this value.
    pub fn to_i64(&self) -> (r: Option<i64>)
        ensures
            r == cast_i64(self@),
    {
        self.inner.cast_i64()
    }

    /// Push an `i64` cast of this value into `into`: one for each element if
    /// this value is a sequence, or the single cast of any other value.
    /// Elements that fail to cast are pushed as `None`.
    pub fn collect_i64(&self, into: &mut Vec<Option<i64>>)
        ensures
            final(into)@ == old(into)@ + collected(self@, |s: Shape| cast_i64(s)),
    {
        match self.inner {
            Internal::Sequence(seq) => {
                let n = seq.len();
                let ghost start = into@;
                let ghost elems = seq.elements();
                let mut i: usize = 0;
                while i < n
                    invariant
                        n == elems.len(),
                        elems == seq.elements(),
                        i <= n,
                        into@ == start + elems.take(i as int).map_values(|s: Shape| cast_i64(s)),
                    decreases n - i,
                {
                    let e = seq.get(i);
                    into.push(e.cast_i64());
                    i = i + 1;
                    proof {
                        lemma_map_take_push(elems, i as int, |s: Shape| cast_i64(s));
                    }
                }
                proof {
                    assert(elems.take(n as int) =~= elems);
                }
            },
            _ => {
                into.push(self.inner.cast_i64());
                proof {
                    assert(collected(self@, |s: Shape| cast_i64(s)) =~= seq![cast_i64(self@)]);
                }
            },
        }
    }

    /// Try get a `u128` from this value.
    pub fn to_u128(&self) -> (r: Option<u128>)
        ensures
            r == cast_u128(self@),
    {
        self.inner.cast_u128()
    }

    /// Push a `u128` cast of this value into `into`: one for each element if
    /// this value is a sequence, or the single cast of any other value.
    /// Elements that fail to cast are pushed as `None`.
    pub fn collect_u128(&self, into: &mut Vec<Option<u128>>)
        ensures
            final(into)@ == old(into)@ + collected(self@, |s: Shape| cast_u128(s)),
    {
        match self.inner {
            Internal::Sequence(seq) => {
                let n = seq.len();
                let ghost start = into@;
                let ghost elems = seq.elements();
                let mut i: usize = 0;
                while i < n
                    invariant
                        n == elems.len(),
                        elems == seq.elements(),
                        i <= n,
                        into@ == start + elems.take(i as int).map_values(|s: Shape| cast_u128(s)),
                    decreases n - i,
                {
                    let e = seq.get(i);
                    into.push(e.cast_u128());
                    i = i + 1;
                    proof {
                        lemma_map_take_push(elems, i as int, |s: Shape| cast_u128(s));
                    }
                }
                proof {
                    assert(elems.take(n as int) =~= elems);
                }
            },
            _ => {
                into.push(self.inner.cast_u128());
                proof {
                    assert(collected(self@, |s: Shape| cast_u128(s)) =~= seq![cast_u128(self@)]);
                }
            },
        }
    }

    /// Try get an `i128` from this value.
    pub fn to_i128(&self) -> (r: Option<i128>)
        ensures
            r == cast_i128(self@),
    {
        self.inner.cast_i128()
    }

    /// Push an `i128` cast of this value into `into`: one for each element if
    /// this value is a sequence, or the single cast of any other value.
    /// Elements that fail to cast are pushed as `None`.
    pub fn collect_i128(&self, into: &mut Vec<Option<i128>>)
        ensures
            final(into)@ == old(into)@ + collected(self@, |s: Shape| cast_i128(s)),
    {
        match self.inner {
            Internal::Sequence(seq) => {
                let n = seq.len();
                let ghost start = into@;
                let ghost elems = seq.elements();
                let mut i: usize = 0;
                while i < n
                    invariant
                        n == elems.len(),
                        elems == seq.elements(),
                        i <= n,
                        into@ == start + elems.take(i as int).map_values(|s: Shape| cast_i128(s)),
                    decreases n - i,
                {
                    let e = seq.get(i);
                    into.push(e.cast_i128());
                    i = i + 1;
                    proof {
                        lemma_map_take_push(elems, i as int, |s: Shape| cast_i128(s));
                    }
                }
                proof {
                    assert(elems.take(n as int) =~= elems);
                }
            },
            _ => {
                into.push(self.inner.cast_i128());
                proof {
                    assert(collected(self@, |s: Shape| cast_i128(s)) =~= seq![cast_i128(self@)]);
                }
            },
        }
    }

    /// Try get what a 64-bit float can be made from exactly.
    ///
    /// A float gives its bits; an integer gives itself if it fits a 32-bit
    /// intermediate of its signedness; anything else gives `None`.
    pub fn to_f64_source(&self) -> (r: Option<F64Source>)
        ensures
            r == cast_f64_source(self@),
    {
        self.inner.cast_f64_source()
    }

    /// Push the exact float sources of this value into `into`: one for each
    /// element if this value is a sequence, or the single cast of any other
    /// value.
    /// Elements that fail to cast are pushed as `None`.
    pub fn collect_f64_source(&self, into: &mut Vec<Option<F64Source>>)
        ensures
            final(into)@ == old(into)@ + collected(self@, |s: Shape| cast_f64_source(s)),
    {
        match self.inner {
            Internal::Sequence(seq) => {
                let n = seq.len();
                let ghost start = into@;
                let ghost elems = seq.elements();
                let mut i: usize = 0;
                while i < n
                    invariant
                        n == elems.len(),
                        elems == seq.elements(),
                        i <= n,
                        into@ == start + elems.take(i as int).map_values(
                            |s: Shape| cast_f64_source(s),
                        ),
                    decreases n - i,
                {
                    let e = seq.get(i);
                    into.push(e.cast_f64_source());
                    i = i + 1;
                    proof {
                        lemma_map_take_push(elems, i as int, |s: Shape| cast_f64_source(s));
                    }
                }
                proof {
                    assert(elems.take(n as int) =~= elems);
                }
            },
            _ => {
                into.push(self.inner.cast_f64_source());
                proof {
                    assert(collected(self@, |s: Shape| cast_f64_source(s)) =~= seq![
                        cast_f64_source(self@),
                    ]);
                }
            },
        }
    }

    /// Try get a `bool` from this value.
    pub fn to_bool(&self) -> (r: Option<bool>)
        ensures
            r == cast_bool(self@),
    {
        self.inner.cast_bool()
    }

    /// Push a `bool` cast of this value into `into`: one for each element if
    /// this value is a sequence, or the single cast of any other value.
    /// Elements that fail to cast are pushed as `None`.
    pub fn collect_bool(&self, into: &mut Vec<Option<bool>>)
        ensures
            final(into)@ == old(into)@ + collected(self@, |s: Shape| cast_bool(s)),
    {
        match self.inner {
            Internal::Sequence(seq) => {
                let n = seq.len();
                let ghost start = into@;
                let ghost elems = seq.elements();
                let mut i: usize = 0;
                while i < n
                    invariant
                        n == elems.len(),
                        elems == seq.elements(),
                        i <= n,
                        into@ == start + elems.take(i as int).map_values(|s: Shape| cast_bool(s)),
                    decreases n - i,
                {
                    let e = seq.get(i);
                    into.push(e.cast_bool());
                    i = i + 1;
                    proof {
                        lemma_map_take_push(elems, i as int, |s: Shape| cast_bool(s));
                    }
                }
                proof {
                    assert(elems.take(n as int) =~= elems);
                }
            },
            _ => {
                into.push(self.inner.cast_bool());
                proof {
                    assert(collected(self@, |s: Shape| cast_bool(s)) =~= seq![cast_bool(self@)]);
                }
            },
        }
    }

    /// Try get a `char` from this value.
    pub fn to_char(&self) -> (r: Option<char>)
        ensures
            r == cast_char(self@),
    {
        self.inner.cast_char()
    }

    /// Push a `char` cast of this value into `into`: one for each element if
    /// this value is a sequence, or the single cast of any other value.
    /// Elements that fail to cast are pushed as `None`.
    pub fn collect_char(&self, into: &mut Vec<Option<char>>)
        ensures
            final(into)@ == old(into)@ + collected(self@, |s: Shape| cast_char(s)),
    {
        match self.inner {
            Internal::Sequence(seq) => {
                let n = seq.len();
                let ghost start = into@;
                let ghost elems = seq.elements();
                let mut i: usize = 0;
                while i < n
                    invariant
                        n == elems.len(),
                        elems == seq.elements(),
                        i <= n,
                        into@ == start + elems.take(i as int).map_values(|s: Shape| cast_char(s)),
                    decreases n - i,
                {
                    let e = seq.get(i);
                    into.push(e.cast_char());
                    i = i + 1;
                    proof {
                        lemma_map_take_push(elems, i as int, |s: Shape| cast_char(s));
                    }
                }
                proof {
                    assert(elems.take(n as int) =~= elems);
                }
            },
            _ => {
                into.push(self.inner.cast_char());
                proof {
                    assert(collected(self@, |s: Shape| cast_char(s)) =~= seq![cast_char(self@)]);
                }
            },
        }
    }

    /// Try get a string borrowed for `'v` from this value.
    pub fn to_borrowed_str(&self) -> (r: Option<&'v str>)
        ensures
            view_str(r) == cast_str(self@),
    {
        self.inner.cast_borrowed_str()
    }

    /// Push a string borrowed for `'v` cast of this value into `into`: one for each element if
    /// this value is a sequence, or the single cast of any other value.
    /// Elements that fail to cast are pushed as `None`.
    pub fn collect_borrowed_str(&self, into: &mut Vec<Option<&'v str>>)
        ensures
            view_strs(final(into)@) == view_strs(old(into)@) + collected(
                self@,
                |s: Shape| cast_str(s),
            ),
    {
        match self.inner {
            Internal::Sequence(seq) => {
                let n = seq.len();
                let ghost start = view_strs(into@);
                let ghost elems = seq.elements();
                let mut i: usize = 0;
                while i < n
                    invariant
                        n == elems.len(),
                        elems == seq.elements(),
                        i <= n,
                        view_strs(into@) == start + elems.take(i as int).map_values(
                            |s: Shape| cast_str(s),
                        ),
                    decreases n - i,
                {
                    let e = seq.get(i);
                    let ghost before = into@;
                    into.push(e.cast_borrowed_str());
                    i = i + 1;
                    proof {
                        lemma_map_take_push(elems, i as int, |s: Shape| cast_str(s));
                        assert(view_strs(into@) =~= view_strs(before).push(view_str(into@.last())));
                    }
                }
                proof {
                    assert(elems.take(n as int) =~= elems);
                }
            },
            _ => {
                into.push(self.inner.cast_borrowed_str());
                proof {
                    assert(collected(self@, |s: Shape| cast_str(s)) =~= seq![cast_str(self@)]);
                    assert(view_strs(into@) =~= view_strs(old(into)@).push(view_str(into@.last())));
                }
            },
        }
    }

    /// Try get a string from this value.
    pub fn to_str(&self) -> (r: Option<Cow<'v, str>>)
        ensures
            view_cow(r) == cast_str(self@),
            not_owned(r),
    {
        self.inner.cast_str()
    }

    /// Push a string cast of this value into `into`: one for each element if
    /// this value is a sequence, or the single cast of any other value.
    /// Elements that fail to cast are pushed as `None`.
    pub fn collect_str(&self, into: &mut Vec<Option<Cow<'v, str>>>)
        ensures
            view_cows(final(into)@) == view_cows(old(into)@) + collected(
                self@,
                |s: Shape| cast_str(s),
            ),
            forall|j: int|
                old(into)@.len() <= j < final(into)@.len() ==> not_owned(#[trigger] final(into)@[j]),
    {
        match self.inner {
            Internal::Sequence(seq) => {
                let n = seq.len();
                let ghost start = view_cows(into@);
                let ghost elems = seq.elements();
                let mut i: usize = 0;
                while i < n
                    invariant
                        n == elems.len(),
                        elems == seq.elements(),
                        i <= n,
                        view_cows(into@) == start + elems.take(i as int).map_values(
                            |s: Shape| cast_str(s),
                        ),
                        into@.len() >= old(into)@.len(),
                        forall|j: int|
                            old(into)@.len() <= j < into@.len() ==> not_owned(#[trigger] into@[j]),
                    decreases n - i,
                {
                    let e = seq.get(i);
                    let ghost before = into@;
                    into.push(e.cast_str());
                    i = i + 1;
                    proof {
                        lemma_map_take_push(elems, i as int, |s: Shape| cast_str(s));
                        assert(view_cows(into@) =~= view_cows(before).push(view_cow(into@.last())));
                    }
                }
                proof {
                    assert(elems.take(n as int) =~= elems);
                }
            },
            _ => {
                into.push(self.inner.cast_str());
                proof {
                    assert(collected(self@, |s: Shape| cast_str(s)) =~= seq![cast_str(self@)]);
                    assert(view_cows(into@) =~= view_cows(old(into)@).push(view_cow(into@.last())));
                }
            },
        }
    }
}

} // verus!
