//! What the interpreter asks the geometry kernel to compute.
//!
//! A term is an object of the script in which every name has been replaced by
//! the value bound to it and every value has been checked to be of the variant
//! that its place asks for. What is left to do is arithmetic, and that is the
//! kernel's part. The kernel evaluates the parts of a term from left to right
//! and stops at the first part that has no value.
use crate::functions::{accepted, Overload};
use crate::interpret::{Fault, InterpretError};
use crate::structs::{Point, Real};
use crate::utils::{DObject, Figure, GObject, Kind};
use vstd::prelude::*;

verus! {

/// A line to compute.
#[derive(Debug)]
pub enum LineTerm<L> {
    /// The line itself.
    Known(L),
    /// The line through two points.
    Through(Point, Point),
}

/// A number to compute.
#[derive(Debug)]
pub enum NumTerm<L> {
    /// The number itself.
    Known(Real),
    /// The distance of two points.
    Dist2P(Point, Point),
    /// The distance of a point from a line.
    DistPL(Point, LineTerm<L>),
    /// The distance of two lines.
    Dist2L(LineTerm<L>, LineTerm<L>),
    /// The angle at the second point, from the first to the third.
    Angle3P(Point, Point, Point),
    /// The angle between two lines.
    Angle2L(LineTerm<L>, LineTerm<L>),
}

/// A circle to compute.
#[derive(Debug)]
pub enum CircleTerm<L> {
    /// The circle through three points.
    Through(Point, Point, Point),
    /// The circle around a point with a radius.
    CenterRadius(Point, NumTerm<L>),
    /// The circle around the first point through the second.
    CenterPoint(Point, Point),
    /// The circle with the two points at the ends of a diameter.
    Diameter(Point, Point),
}

impl<L: Copy> Clone for LineTerm<L> {
    fn clone(&self) -> (r: Self)
        ensures
            r == *self,
    {
        *self
    }
}

impl<L: Copy> Copy for LineTerm<L> {

}

impl<L: Copy> Clone for NumTerm<L> {
    fn clone(&self) -> (r: Self)
        ensures
            r == *self,
    {
        *self
    }
}

impl<L: Copy> Copy for NumTerm<L> {

}

impl<L: Copy> Clone for CircleTerm<L> {
    fn clone(&self) -> (r: Self)
        ensures
            r == *self,
    {
        *self
    }
}

impl<L: Copy> Copy for CircleTerm<L> {

}

/// An argument of a method, or the right side of a declaration, to compute.
#[derive(Debug)]
pub enum ArgTerm<L> {
    /// The value itself.
    Known(GObject<L>),
    Line(LineTerm<L>),
    Circle(CircleTerm<L>),
    Number(NumTerm<L>),
    /// The value of an arithmetic expression.
    Eval(String),
}

impl<L: Copy> ArgTerm<L> {
    /// The variant of the value that the term stands for.
    pub open spec fn spec_kind(self) -> Kind {
        match self {
            ArgTerm::Known(g) => g.spec_kind(),
            ArgTerm::Line(_) => Kind::Line,
            ArgTerm::Circle(_) => Kind::Circle,
            ArgTerm::Number(_) => Kind::Number,
            ArgTerm::Eval(_) => Kind::Number,
        }
    }

    /// The variant of the value that the term stands for.
    pub fn kind(&self) -> (r: Kind)
        ensures
            r == self.spec_kind(),
    {
        match self {
            ArgTerm::Known(g) => g.kind(),
            ArgTerm::Line(_) => Kind::Line,
            ArgTerm::Circle(_) => Kind::Circle,
            ArgTerm::Number(_) => Kind::Number,
            ArgTerm::Eval(_) => Kind::Number,
        }
    }
}

/// The variants of the values that the terms stand for.
pub open spec fn kinds_of<L: Copy>(terms: Seq<ArgTerm<L>>) -> Seq<Kind> {
    terms.map_values(|t: ArgTerm<L>| t.spec_kind())
}

/// A drawable to compute.
#[derive(Debug)]
pub enum DrawTerm<L> {
    /// The drawable itself.
    Known(DObject),
    /// The arc from the first point through the second to the third.
    Arc3P(Point, Point, Point),
    /// The arc around the second point from the first to the third.
    ArcO(Point, Point, Point),
    Circle(CircleTerm<L>),
}

/// What a `DrawTerm` says.
pub enum DrawView<L> {
    Known(Figure),
    Arc3P(Point, Point, Point),
    ArcO(Point, Point, Point),
    Circle(CircleTerm<L>),
}

impl<L> View for DrawTerm<L> {
    type V = DrawView<L>;

    open spec fn view(&self) -> DrawView<L> {
        match self {
            DrawTerm::Known(d) => DrawView::Known(d@),
            DrawTerm::Arc3P(a, b, c) => DrawView::Arc3P(*a, *b, *c),
            DrawTerm::ArcO(a, o, b) => DrawView::ArcO(*a, *o, *b),
            DrawTerm::Circle(c) => DrawView::Circle(*c),
        }
    }
}

/// The right side of a declaration to compute. Its value is a pair; where the
/// term has one value only, the second of the pair is `Null`.
#[derive(Debug)]
pub enum DeclTerm<L> {
    /// The point with the given coordinates.
    Ortho(NumTerm<L>, NumTerm<L>),
    /// The point at the given distance from the origin, in the direction of
    /// the given angle.
    Polar(NumTerm<L>, NumTerm<L>),
    Object(ArgTerm<L>),
    /// A method call: the overload and its arguments.
    Call(Overload, Vec<ArgTerm<L>>),
}

/// What a `DeclTerm` says.
pub enum DeclView<L> {
    Ortho(NumTerm<L>, NumTerm<L>),
    Polar(NumTerm<L>, NumTerm<L>),
    Object(ArgTerm<L>),
    Call(Overload, Seq<ArgTerm<L>>),
}

impl<L> View for DeclTerm<L> {
    type V = DeclView<L>;

    open spec fn view(&self) -> DeclView<L> {
        match self {
            DeclTerm::Ortho(x, y) => DeclView::Ortho(*x, *y),
            DeclTerm::Polar(r, t) => DeclView::Polar(*r, *t),
            DeclTerm::Object(o) => DeclView::Object(*o),
            DeclTerm::Call(o, args) => DeclView::Call(*o, args@),
        }
    }
}

impl<L: Copy> DeclView<L> {
    /// Whether a pair of values of the variants `first` and `second` can be
    /// the value of this term: coordinates give a point, an object gives a
    /// value of its variant, each with nothing in the second place, and a
    /// call gives what its overload leaves in its two slots.
    pub open spec fn accepts(self, first: Kind, second: Kind) -> bool {
        match self {
            DeclView::Ortho(_, _) | DeclView::Polar(_, _) => first == Kind::Point && second
                == Kind::Null,
            DeclView::Object(t) => first == t.spec_kind() && second == Kind::Null,
            DeclView::Call(overload, _) => accepted(overload, first, second),
        }
    }
}

impl<L: Copy> DeclTerm<L> {
    /// Whether a pair of values of the variants `first` and `second` can be
    /// the value of this term.
    pub fn accepts(&self, first: Kind, second: Kind) -> (r: bool)
        ensures
            r == self@.accepts(first, second),
    {
        match self {
            DeclTerm::Ortho(_, _) | DeclTerm::Polar(_, _) => first == Kind::Point && second
                == Kind::Null,
            DeclTerm::Object(t) => first == t.kind() && second == Kind::Null,
            DeclTerm::Call(overload, _) => overload.accepts(first, second),
        }
    }
}

/// An object of the script that cannot be turned into a term.
///
/// The script is interpreted from left to right, so what stands to the left
/// of the fault is computed first: where the kernel has no value for one of
/// the terms in `before`, that is what is reported, and `error` only where it
/// has a value for each.
#[derive(Debug)]
pub struct Failure<L> {
    pub before: Vec<ArgTerm<L>>,
    pub error: InterpretError,
}

/// What a `Failure` says.
pub struct Fail<L> {
    pub before: Seq<ArgTerm<L>>,
    pub error: InterpretError,
}

impl<L> View for Failure<L> {
    type V = Fail<L>;

    open spec fn view(&self) -> Fail<L> {
        Fail { before: self.before@, error: self.error }
    }
}

impl<L> Fail<L> {
    /// The fault `error` with nothing to compute before it.
    pub open spec fn at_once(error: InterpretError) -> Fail<L> {
        Fail { before: Seq::empty(), error }
    }

    /// The same fault, with `terms` to compute before everything else.
    pub open spec fn after(self, terms: Seq<ArgTerm<L>>) -> Fail<L> {
        Fail { before: terms + self.before, error: self.error }
    }
}

impl<L> Failure<L> {
    /// The fault `error` with nothing to compute before it.
    pub fn at_once(error: InterpretError) -> (r: Failure<L>)
        ensures
            r@ == Fail::<L>::at_once(error),
    {
        Failure { before: Vec::new(), error }
    }

    /// The same fault, with `terms` to compute before everything else.
    pub fn after(self, terms: Vec<ArgTerm<L>>) -> (r: Failure<L>)
        ensures
            r@ == self@.after(terms@),
    {
        let mut before = terms;
        let mut rest = self.before;
        before.append(&mut rest);
        Failure { before, error: self.error }
    }

    /// The error to report, given how the kernel fared with the terms in
    /// `before`: its fault if it met one, else the error of this failure.
    pub fn report(self, outcome: Result<(), Fault>) -> (r: InterpretError)
        ensures
            r == match outcome {
                Err(Fault::Calc(m)) => InterpretError::FuncError(crate::utils::FuncError::CalcError(m)),
                Err(Fault::Eval(m)) => InterpretError::EvalError(m),
                Ok(()) => self.error,
            },
    {
        match outcome {
            Err(fault) => InterpretError::from_fault(fault),
            Ok(()) => self.error,
        }
    }
}

} // verus!
