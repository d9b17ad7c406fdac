//! What the decoder reports when a document does not fit the model.

use vstd::prelude::*;
use vstd::string::StringExecFns;
use crate::json::{kind, JsonV, Kind};
use crate::model::Model;

verus! {

/// One step of a path into a document: the key of an object's member or the
/// position of an array's element.
#[derive(Clone, Debug, PartialEq, Eq)]
pub enum Segment {
    Key(String),
    Index(usize),
}

/// The model of a [`Segment`].
pub enum SegmentV {
    Key(Seq<char>),
    Index(usize),
}

impl Model for Segment {
    type M = SegmentV;

    open spec fn model(&self) -> SegmentV {
        match self {
            Segment::Key(k) => SegmentV::Key(k@),
            Segment::Index(i) => SegmentV::Index(*i),
        }
    }
}

/// The model of a path: its segments from the root down.
pub type PathV = Seq<SegmentV>;

impl Segment {
    /// A copy of the segment.
    pub fn duplicate(&self) -> (s: Segment)
        ensures
            s.model() == self.model(),
    {
        match self {
            Segment::Key(k) => Segment::Key(k.clone()),
            Segment::Index(i) => Segment::Index(*i),
        }
    }
}

/// A copy of a path.
pub fn copy_path(path: &Vec<Segment>) -> (copy: Vec<Segment>)
    ensures
        copy.model() == path.model(),
{
    let mut copy: Vec<Segment> = Vec::new();
    let mut i: usize = 0;
    while i < path.len()
        invariant
            0 <= i <= path.len(),
            copy.model() =~= path.model().take(i as int),
        decreases path.len() - i,
    {
        let ghost before = copy.model();
        copy.push(path[i].duplicate());
        proof {
            assert(copy.model() =~= before.push(path@[i as int].model()));
            assert(path.model().take(i + 1) =~= path.model().take(i as int).push(
                path.model()[i as int],
            ));
        }
        i += 1;
    }
    assert(path.model().take(i as int) =~= path.model());
    copy
}

/// The shape that the model asks of a value.
#[derive(Clone, Copy, Debug, PartialEq, Eq, Structural)]
pub enum Expected {
    Object,
    Array,
    String,
    Boolean,
    Number,
    UnsignedInteger,
}

/// Why a value was rejected.
#[derive(Clone, Debug, PartialEq, Eq)]
pub enum Reason {
    /// The value has another shape than the model asks for.
    TypeMismatch { expected: Expected, found: Kind },
    /// The text is not one of the names of an enumeration.
    InvalidEnumValue { value: String },
    /// The object lacks a key that the model requires.
    MissingField { key: String },
    /// The discriminator of a tagged union names no variant.
    UnknownDiscriminator { value: String },
    /// The integer does not fit the machine's word.
    Overflow,
}

/// The model of a [`Reason`].
pub enum ReasonV {
    TypeMismatch { expected: Expected, found: Kind },
    InvalidEnumValue { value: Seq<char> },
    MissingField { key: Seq<char> },
    UnknownDiscriminator { value: Seq<char> },
    Overflow,
}

impl Model for Reason {
    type M = ReasonV;

    open spec fn model(&self) -> ReasonV {
        match self {
            Reason::TypeMismatch { expected, found } => ReasonV::TypeMismatch {
                expected: *expected,
                found: *found,
            },
            Reason::InvalidEnumValue { value } => ReasonV::InvalidEnumValue { value: value@ },
            Reason::MissingField { key } => ReasonV::MissingField { key: key@ },
            Reason::UnknownDiscriminator { value } => ReasonV::UnknownDiscriminator {
                value: value@,
            },
            Reason::Overflow => ReasonV::Overflow,
        }
    }
}

/// A rejected value: where it stands in the document, from the root down, and
/// why it was rejected. For a missing key the path leads to the object that
/// lacks it.
#[derive(Clone, Debug, PartialEq, Eq)]
pub struct DecodeError {
    pub path: Vec<Segment>,
    pub reason: Reason,
}

/// The model of a [`DecodeError`].
pub struct DecodeErrorV {
    pub path: Seq<SegmentV>,
    pub reason: ReasonV,
}

impl Model for DecodeError {
    type M = DecodeErrorV;

    open spec fn model(&self) -> DecodeErrorV {
        DecodeErrorV { path: self.path.model(), reason: self.reason.model() }
    }
}

impl DecodeErrorV {
    /// The same error seen from one level further up.
    pub open spec fn under(self, segment: SegmentV) -> DecodeErrorV {
        DecodeErrorV { path: seq![segment] + self.path, reason: self.reason }
    }

    /// The same error seen from the object that holds the value under `key`.
    pub open spec fn under_key(self, key: Seq<char>) -> DecodeErrorV {
        self.under(SegmentV::Key(key))
    }
}

/// The error for a value of another shape than `expected`.
pub open spec fn mismatch(expected: Expected, t: JsonV) -> DecodeErrorV {
    DecodeErrorV {
        path: Seq::empty(),
        reason: ReasonV::TypeMismatch { expected, found: kind(t) },
    }
}

/// The error for an object that lacks `key`.
pub open spec fn missing(key: Seq<char>) -> DecodeErrorV {
    DecodeErrorV { path: Seq::empty(), reason: ReasonV::MissingField { key } }
}

/// The error for a text that names no value of an enumeration.
pub open spec fn invalid_name(value: Seq<char>) -> DecodeErrorV {
    DecodeErrorV { path: Seq::empty(), reason: ReasonV::InvalidEnumValue { value } }
}

/// The error for a discriminator that names no variant.
pub open spec fn unknown_variant(value: Seq<char>) -> DecodeErrorV {
    DecodeErrorV { path: Seq::empty(), reason: ReasonV::UnknownDiscriminator { value } }
}

/// The error for an integer that does not fit.
pub open spec fn overflow() -> DecodeErrorV {
    DecodeErrorV { path: Seq::empty(), reason: ReasonV::Overflow }
}

/// The model of a decoder's answer.
pub open spec fn outcome<T: Model>(r: Result<T, DecodeError>) -> Result<T::M, DecodeErrorV> {
    match r {
        Ok(x) => Ok(x.model()),
        Err(e) => Err(e.model()),
    }
}

/// The decimal digit for a number below ten.
pub open spec fn digit(d: nat) -> char {
    if d == 0 {
        '0'
    } else if d == 1 {
        '1'
    } else if d == 2 {
        '2'
    } else if d == 3 {
        '3'
    } else if d == 4 {
        '4'
    } else if d == 5 {
        '5'
    } else if d == 6 {
        '6'
    } else if d == 7 {
        '7'
    } else if d == 8 {
        '8'
    } else {
        '9'
    }
}

/// A number in decimal digits, without leading zeros.
pub open spec fn decimal(n: nat) -> Seq<char>
    decreases n,
{
    if n < 10 {
        seq![digit(n)]
    } else {
        decimal(n / 10).push(digit(n % 10))
    }
}

/// A segment as it stands in a dotted path: a key as it is, a position in
/// decimal digits.
pub open spec fn segment_text(s: SegmentV) -> Seq<char> {
    match s {
        SegmentV::Key(k) => k,
        SegmentV::Index(i) => decimal(i as nat),
    }
}

/// A path in dotted form: its segments with a dot between each two.
pub open spec fn dotted(path: Seq<SegmentV>) -> Seq<char>
    decreases path.len(),
{
    if path.len() == 0 {
        Seq::empty()
    } else if path.len() == 1 {
        segment_text(path[0])
    } else {
        dotted(path.drop_last()) + seq!['.'] + segment_text(path.last())
    }
}

/// The decimal digit for a number below ten.
fn digit_text(d: usize) -> (s: &'static str)
    requires
        d < 10,
    ensures
        s@ == seq![digit(d as nat)],
{
    proof {
        reveal_strlit("0");
        reveal_strlit("1");
        reveal_strlit("2");
        reveal_strlit("3");
        reveal_strlit("4");
        reveal_strlit("5");
        reveal_strlit("6");
        reveal_strlit("7");
        reveal_strlit("8");
        reveal_strlit("9");
    }
    let s = if d == 0 {
        "0"
    } else if d == 1 {
        "1"
    } else if d == 2 {
        "2"
    } else if d == 3 {
        "3"
    } else if d == 4 {
        "4"
    } else if d == 5 {
        "5"
    } else if d == 6 {
        "6"
    } else if d == 7 {
        "7"
    } else if d == 8 {
        "8"
    } else {
        "9"
    };
    assert(s@ =~= seq![digit(d as nat)]);
    s
}

/// A number in decimal digits.
pub fn decimal_text(n: usize) -> (s: String)
    ensures
        s@ == decimal(n as nat),
    decreases n,
{
    if n < 10 {
        digit_text(n).to_owned()
    } else {
        let mut s = decimal_text(n / 10);
        s.append(digit_text(n % 10));
        assert(s@ =~= decimal((n / 10) as nat).push(digit((n % 10) as nat)));
        s
    }
}

/// A path in dotted form.
pub fn render_path(path: &Vec<Segment>) -> (s: String)
    ensures
        s@ == dotted(path.model()),
{
    let mut out = String::new();
    let mut i: usize = 0;
    let ghost whole = path.model();
    assert(whole.take(0) =~= Seq::empty());
    while i < path.len()
        invariant
            0 <= i <= path.len(),
            whole == path.model(),
            out@ == dotted(whole.take(i as int)),
        decreases path.len() - i,
    {
        proof {
            reveal_strlit(".");
            assert(whole.take(i + 1).drop_last() =~= whole.take(i as int));
            assert(whole.take(i + 1).last() == path@[i as int].model());
            assert("."@ =~= seq!['.']);
        }
        if i > 0 {
            out.append(".");
        }
        match &path[i] {
            Segment::Key(k) => {
                out.append(k.as_str());
            },
            Segment::Index(n) => {
                let digits = decimal_text(*n);
                out.append(digits.as_str());
            },
        }
        proof {
            if i == 0 {
                assert(out@ =~= segment_text(path@[i as int].model()));
            }
        }
        i += 1;
    }
    assert(whole.take(i as int) =~= whole);
    out
}

impl DecodeError {
    /// The path in dotted form.
    pub fn path_string(&self) -> (s: String)
        ensures
            s@ == dotted(self.model().path),
    {
        render_path(&self.path)
    }

    /// An error about the value at hand.
    pub fn new(reason: Reason) -> (e: DecodeError)
        ensures
            e.model() == (DecodeErrorV { path: Seq::empty(), reason: reason.model() }),
    {
        let e = DecodeError { path: Vec::new(), reason };
        assert(e.path.model() =~= Seq::<SegmentV>::empty());
        e
    }

    /// The error for a value of kind `found` where `expected` was asked for.
    pub fn mismatch(expected: Expected, found: Kind) -> (e: DecodeError)
        ensures
            e.model() == (DecodeErrorV {
                path: Seq::empty(),
                reason: ReasonV::TypeMismatch { expected, found },
            }),
    {
        DecodeError::new(Reason::TypeMismatch { expected, found })
    }

    /// The error for an object that lacks `key`.
    pub fn missing(key: &str) -> (e: DecodeError)
        ensures
            e.model() == missing(key@),
    {
        DecodeError::new(Reason::MissingField { key: key.to_owned() })
    }

    /// The same error seen from one level further up.
    pub fn under(self, segment: Segment) -> (e: DecodeError)
        ensures
            e.model() == self.model().under(segment.model()),
    {
        let ghost before = self.path.model();
        let mut path = self.path;
        path.insert(0, segment);
        assert(path.model() =~= seq![segment.model()] + before);
        DecodeError { path, reason: self.reason }
    }

    /// The same error seen from the object that holds the value under `key`.
    pub fn under_key(self, key: &str) -> (e: DecodeError)
        ensures
            e.model() == self.model().under_key(key@),
    {
        self.under(Segment::Key(key.to_owned()))
    }
}

} // verus!
