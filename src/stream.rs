//! Collecting a value from a push-style stream of events.
//!
//! Structured-format integrations describe a value by pushing events: a
//! primitive, a text in fragments, or the begin, values and end of a sequence
//! or a map. A [`Collector`] turns such a stream into an [`OwnedValueBag`].
//! It flattens one level of nesting: a sequence at the root is collected
//! element by element, a sequence or map nested in it becomes an absent
//! element, and anything deeper is skipped. Map keys and values at the top
//! level are reported as unsupported rather than guessed at.

use vstd::prelude::*;
use vstd::string::StringExecFns;

use crate::error::Error;
use crate::owned::{OwnedScalar, OwnedValueBag};
use crate::shape::Shape;

verus! {

/// Where the next value of a stream goes.
#[derive(Clone, Copy, Debug, PartialEq, Eq, Structural)]
pub enum Position {
    Root,
    SeqElem,
    MapKey,
    MapValue,
}

/// The abstract state of a [`Collector`].
pub ghost struct CollectorView {
    /// How many sequences and maps are open.
    pub depth: nat,
    pub position: Position,
    /// The fragments of the text being read, if one is open.
    pub text: Option<Seq<char>>,
    /// The value read at the root, if it is not a sequence.
    pub root: Option<Shape>,
    /// The elements read so far, if the root is a sequence.
    pub elems: Option<Seq<Shape>>,
}

/// Where a value read in state `v` goes: `None` when it is skipped, and an
/// error when it is part of a map.
pub open spec fn put_spec(v: CollectorView, s: Shape) -> Result<CollectorView, ()> {
    if v.depth > 1 {
        Ok(v)
    } else {
        match v.position {
            Position::Root => Ok(CollectorView { root: Some(s), ..v }),
            Position::SeqElem => Ok(
                CollectorView {
                    elems: Some(
                        match v.elems {
                            Some(e) => e.push(s),
                            None => seq![s],
                        },
                    ),
                    ..v
                },
            ),
            _ => Err(()),
        }
    }
}

/// What a stream read into state `v` amounts to.
pub open spec fn collected_shape(v: CollectorView) -> Option<Shape> {
    match v.elems {
        Some(e) => Some(Shape::Sequence(e)),
        None => v.root,
    }
}

/// Builds an owned value from a stream of events.
pub struct Collector {
    depth: usize,
    position: Position,
    text: Option<String>,
    root: Option<OwnedScalar>,
    elems: Option<Vec<OwnedScalar>>,
}

impl View for Collector {
    type V = CollectorView;

    closed spec fn view(&self) -> CollectorView {
        CollectorView {
            depth: self.depth as nat,
            position: self.position,
            text: match self.text {
                Some(t) => Some(t@),
                None => None,
            },
            root: match self.root {
                Some(r) => Some(r.shape()),
                None => None,
            },
            elems: match self.elems {
                Some(e) => Some(e@.map_values(|o: OwnedScalar| o.shape())),
                None => None,
            },
        }
    }
}

/// The error for a value read inside a map.
fn maps_unsupported() -> (r: Error)
    ensures
        r.message() == "maps are not supported"@,
{
    Error::msg("maps are not supported")
}

impl Collector {
    /// A collector that has read nothing.
    pub fn new() -> (r: Collector)
        ensures
            r@ == (CollectorView {
                depth: 0,
                position: Position::Root,
                text: None,
                root: None,
                elems: None,
            }),
    {
        Collector { depth: 0, position: Position::Root, text: None, root: None, elems: None }
    }

    fn put(&mut self, v: OwnedScalar) -> (r: Result<(), Error>)
        ensures
            r is Ok <==> put_spec(old(self)@, v.shape()) is Ok,
            r is Ok ==> final(self)@ == put_spec(old(self)@, v.shape())->Ok_0,
            r is Err ==> final(self)@ == old(self)@ && r->Err_0.message()
                == "maps are not supported"@,
    {
        if self.depth > 1 {
            return Ok(());
        }
        match self.position {
            Position::Root => {
                self.root = Some(v);
                Ok(())
            },
            Position::SeqElem => {
                let ghost before = self@;
                match &mut self.elems {
                    Some(e) => {
                        e.push(v);
                    },
                    None => {
                        let mut e = Vec::new();
                        e.push(v);
                        self.elems = Some(e);
                    },
                }
                proof {
                    let after = self@;
                    assert(after.elems->0 =~= match before.elems {
                        Some(e) => e.push(v.shape()),
                        None => seq![v.shape()],
                    });
                }
                Ok(())
            },
            _ => Err(maps_unsupported()),
        }
    }

    /// Read an absent value.
    pub fn null(&mut self) -> (r: Result<(), Error>)
        ensures
            r is Ok <==> put_spec(old(self)@, Shape::Absent) is Ok,
            r is Ok ==> final(self)@ == put_spec(old(self)@, Shape::Absent)->Ok_0,
            r is Err ==> final(self)@ == old(self)@,
    {
        self.put(OwnedScalar::Absent)
    }

    /// Read a boolean.
    pub fn bool(&mut self, v: bool) -> (r: Result<(), Error>)
        ensures
            r is Ok <==> put_spec(old(self)@, Shape::Bool(v)) is Ok,
            r is Ok ==> final(self)@ == put_spec(old(self)@, Shape::Bool(v))->Ok_0,
            r is Err ==> final(self)@ == old(self)@,
    {
        self.put(OwnedScalar::Bool(v))
    }

    /// Read a signed integer.
    pub fn i64(&mut self, v: i64) -> (r: Result<(), Error>)
        ensures
            r is Ok <==> put_spec(old(self)@, Shape::Signed(v)) is Ok,
            r is Ok ==> final(self)@ == put_spec(old(self)@, Shape::Signed(v))->Ok_0,
            r is Err ==> final(self)@ == old(self)@,
    {
        self.put(OwnedScalar::Signed(v))
    }

    /// Read an unsigned integer.
    pub fn u64(&mut self, v: u64) -> (r: Result<(), Error>)
        ensures
            r is Ok <==> put_spec(old(self)@, Shape::Unsigned(v)) is Ok,
            r is Ok ==> final(self)@ == put_spec(old(self)@, Shape::Unsigned(v))->Ok_0,
            r is Err ==> final(self)@ == old(self)@,
    {
        self.put(OwnedScalar::Unsigned(v))
    }

    /// Read a wide signed integer.
    pub fn i128(&mut self, v: i128) -> (r: Result<(), Error>)
        ensures
            r is Ok <==> put_spec(old(self)@, Shape::BigSigned(v)) is Ok,
            r is Ok ==> final(self)@ == put_spec(old(self)@, Shape::BigSigned(v))->Ok_0,
            r is Err ==> final(self)@ == old(self)@,
    {
        self.put(OwnedScalar::BigSigned(v))
    }

    /// Read a wide unsigned integer.
    pub fn u128(&mut self, v: u128) -> (r: Result<(), Error>)
        ensures
            r is Ok <==> put_spec(old(self)@, Shape::BigUnsigned(v)) is Ok,
            r is Ok ==> final(self)@ == put_spec(old(self)@, Shape::BigUnsigned(v))->Ok_0,
            r is Err ==> final(self)@ == old(self)@,
    {
        self.put(OwnedScalar::BigUnsigned(v))
    }

    /// Read a float, given as its IEEE-754 bit pattern.
    pub fn f64_bits(&mut self, bits: u64) -> (r: Result<(), Error>)
        ensures
            r is Ok <==> put_spec(old(self)@, Shape::Float(bits)) is Ok,
            r is Ok ==> final(self)@ == put_spec(old(self)@, Shape::Float(bits))->Ok_0,
            r is Err ==> final(self)@ == old(self)@,
    {
        self.put(OwnedScalar::Float(bits))
    }

    /// Begin a text, which arrives in fragments.
    pub fn text_begin(&mut self) -> (r: Result<(), Error>)
        ensures
            r is Ok,
            final(self)@ == (if old(self)@.depth > 1 {
                old(self)@
            } else {
                CollectorView { text: Some(Seq::empty()), ..old(self)@ }
            }),
    {
        if self.depth > 1 {
            return Ok(());
        }
        self.text = Some(String::new());
        proof {
            assert(self@.text->0 =~= Seq::<char>::empty());
        }
        Ok(())
    }

    /// Read a fragment of the open text.
    pub fn text_fragment(&mut self, f: &str) -> (r: Result<(), Error>)
        ensures
            r is Ok,
            final(self)@ == (if old(self)@.depth > 1 {
                old(self)@
            } else {
                CollectorView {
                    text: Some(
                        match old(self)@.text {
                            Some(t) => t + f@,
                            None => f@,
                        },
                    ),
                    ..old(self)@
                }
            }),
    {
        if self.depth > 1 {
            return Ok(());
        }
        match &mut self.text {
            Some(t) => {
                t.append(f);
            },
            None => {
                self.text = Some(<String as StringExecFns>::from_str(f));
            },
        }
        Ok(())
    }

    /// End the open text, which is then read as a string.
    pub fn text_end(&mut self) -> (r: Result<(), Error>)
        ensures
            ({
                let t = match old(self)@.text {
                    Some(t) => t,
                    None => Seq::empty(),
                };
                let closed = CollectorView { text: None, ..old(self)@ };
                &&& r is Ok <==> put_spec(closed, Shape::Str(t)) is Ok
                &&& r is Ok ==> final(self)@ == put_spec(closed, Shape::Str(t))->Ok_0
                &&& r is Err ==> final(self)@ == closed
            }),
    {
        let t = match self.text.take() {
            Some(t) => t,
            None => String::new(),
        };
        proof {
            assert(old(self)@.text is None ==> t@ =~= Seq::<char>::empty());
        }
        self.put(OwnedScalar::Str(t))
    }

    /// Begin a sequence.
    ///
    /// At the root this makes the stream a sequence; as an element it stands
    /// as one absent element.
    pub fn seq_begin(&mut self) -> (r: Result<(), Error>)
        ensures
            old(self)@.depth == usize::MAX ==> r is Err && final(self)@ == old(self)@,
            old(self)@.depth < usize::MAX && old(self)@.depth == 0 ==> r is Ok && final(self)@
                == (CollectorView { depth: 1, elems: Some(Seq::empty()), ..old(self)@ }),
            old(self)@.depth < usize::MAX && old(self)@.depth >= 1 ==> {
                &&& r is Ok <==> put_spec(old(self)@, Shape::Absent) is Ok
                &&& r is Ok ==> final(self)@ == (CollectorView {
                    depth: old(self)@.depth + 1,
                    ..put_spec(old(self)@, Shape::Absent)->Ok_0
                })
                &&& r is Err ==> final(self)@ == old(self)@
            },
    {
        if self.depth == usize::MAX {
            return Err(Error::msg("values are nested too deeply"));
        }
        if self.depth == 0 {
            self.elems = Some(Vec::new());
            self.depth = 1;
            proof {
                assert(self@.elems->0 =~= Seq::<Shape>::empty());
            }
            return Ok(());
        }
        match self.put(OwnedScalar::Absent) {
            Ok(()) => {
                self.depth = self.depth + 1;
                Ok(())
            },
            Err(e) => Err(e),
        }
    }

    /// Begin the next element of a sequence.
    pub fn seq_value_begin(&mut self) -> (r: Result<(), Error>)
        ensures
            r is Ok,
            final(self)@ == (CollectorView { position: Position::SeqElem, ..old(self)@ }),
    {
        self.position = Position::SeqElem;
        Ok(())
    }

    /// End a sequence.
    pub fn seq_end(&mut self) -> (r: Result<(), Error>)
        ensures
            old(self)@.depth == 0 ==> r is Err && final(self)@ == old(self)@,
            old(self)@.depth > 0 ==> r is Ok && final(self)@ == (CollectorView {
                depth: (old(self)@.depth - 1) as nat,
                ..old(self)@
            }),
    {
        if self.depth == 0 {
            return Err(Error::msg("no sequence is open"));
        }
        self.depth = self.depth - 1;
        Ok(())
    }

    /// Begin a map. A map stands as an absent value; reading a key or a
    /// value of a map at the top level is an error.
    pub fn map_begin(&mut self) -> (r: Result<(), Error>)
        ensures
            old(self)@.depth == usize::MAX ==> r is Err && final(self)@ == old(self)@,
            old(self)@.depth < usize::MAX ==> {
                &&& r is Ok <==> put_spec(old(self)@, Shape::Absent) is Ok
                &&& r is Ok ==> final(self)@ == (CollectorView {
                    depth: old(self)@.depth + 1,
                    ..put_spec(old(self)@, Shape::Absent)->Ok_0
                })
                &&& r is Err ==> final(self)@ == old(self)@
            },
    {
        if self.depth == usize::MAX {
            return Err(Error::msg("values are nested too deeply"));
        }
        match self.put(OwnedScalar::Absent) {
            Ok(()) => {
                self.depth = self.depth + 1;
                Ok(())
            },
            Err(e) => Err(e),
        }
    }

    /// Begin the key of a map entry.
    pub fn map_key_begin(&mut self) -> (r: Result<(), Error>)
        ensures
            r is Ok,
            final(self)@ == (CollectorView { position: Position::MapKey, ..old(self)@ }),
    {
        self.position = Position::MapKey;
        Ok(())
    }

    /// Begin the value of a map entry.
    pub fn map_value_begin(&mut self) -> (r: Result<(), Error>)
        ensures
            r is Ok,
            final(self)@ == (CollectorView { position: Position::MapValue, ..old(self)@ }),
    {
        self.position = Position::MapValue;
        Ok(())
    }

    /// End a map.
    pub fn map_end(&mut self) -> (r: Result<(), Error>)
        ensures
            old(self)@.depth == 0 ==> r is Err && final(self)@ == old(self)@,
            old(self)@.depth > 0 ==> r is Ok && final(self)@ == (CollectorView {
                depth: (old(self)@.depth - 1) as nat,
                ..old(self)@
            }),
    {
        if self.depth == 0 {
            return Err(Error::msg("no map is open"));
        }
        self.depth = self.depth - 1;
        Ok(())
    }

    /// The value read so far, or `None` if the stream held none.
    pub fn finish(self) -> (r: Option<OwnedValueBag>)
        ensures
            r is Some <==> collected_shape(self@) is Some,
            r matches Some(o) ==> o@ == collected_shape(self@)->0,
    {
        match self.elems {
            Some(e) => Some(OwnedValueBag::from_elements(e)),
            None => match self.root {
                Some(v) => Some(OwnedValueBag::from_scalar(v)),
                None => None,
            },
        }
    }
}

} // verus!
