//! The values that the interpreter handles, and the ways it can fail.
use crate::interpret::InterpretError;
use crate::structs::{Arc, Circle, Point, Real, Segment};
use crate::text::{Piece, Token};
use vstd::prelude::*;

verus! {

/// The value of a configuration option.
#[derive(Debug)]
pub enum ConfigValue {
    Number(Real),
    String(String),
    Bool(bool),
}

/// What a configuration value says.
pub enum Setting {
    Number(Real),
    Text(Seq<char>),
    Bool(bool),
}

impl View for ConfigValue {
    type V = Setting;

    open spec fn view(&self) -> Setting {
        match self {
            ConfigValue::Number(n) => Setting::Number(*n),
            ConfigValue::String(s) => Setting::Text(s@),
            ConfigValue::Bool(b) => Setting::Bool(*b),
        }
    }
}

impl Setting {
    /// How the value is written out: a string as it stands and without quotes,
    /// a truth value as a word, a number as a number still to be printed.
    pub open spec fn token(self) -> Token {
        match self {
            Setting::Number(n) => Token::Number(n),
            Setting::Text(s) => Token::Text(s),
            Setting::Bool(b) => Token::Text(
                if b {
                    "true"@
                } else {
                    "false"@
                },
            ),
        }
    }
}

/// A configuration value was asked for a number and holds none.
#[derive(Debug, Clone, Copy, PartialEq, Eq, Structural)]
pub enum ConversionError {
    ToF64,
}

impl Clone for ConfigValue {
    fn clone(&self) -> (r: ConfigValue)
        ensures
            r@ == self@,
    {
        match self {
            ConfigValue::Number(n) => ConfigValue::Number(*n),
            ConfigValue::String(s) => ConfigValue::String(s.clone()),
            ConfigValue::Bool(b) => ConfigValue::Bool(*b),
        }
    }
}

impl ConfigValue {
    /// The number that this value holds. Only a `Number` holds one.
    pub fn try_into_f64(&self) -> (r: Result<Real, ConversionError>)
        ensures
            r == match self@ {
                Setting::Number(n) => Ok::<Real, ConversionError>(n),
                _ => Err::<Real, ConversionError>(ConversionError::ToF64),
            },
    {
        match self {
            ConfigValue::Number(n) => Ok(*n),
            _ => Err(ConversionError::ToF64),
        }
    }

    /// The value as a piece of output.
    pub fn piece(&self) -> (r: Piece)
        ensures
            r@ == self@.token(),
    {
        match self {
            ConfigValue::Number(n) => Piece::Number(*n),
            ConfigValue::String(s) => Piece::Text(s.clone()),
            ConfigValue::Bool(b) => {
                if *b {
                    Piece::Text(String::from_str("true"))
                } else {
                    Piece::Text(String::from_str("false"))
                }
            },
        }
    }

    /// The option value for a number.
    pub fn from_number(value: Real) -> (r: ConfigValue)
        ensures
            r@ == Setting::Number(value),
    {
        ConfigValue::Number(value)
    }

    /// The option value for a string.
    pub fn from_str(value: &str) -> (r: ConfigValue)
        ensures
            r@ == Setting::Text(value@),
    {
        ConfigValue::String(String::from_str(value))
    }

    /// The option value for a truth value.
    pub fn from_bool(value: bool) -> (r: ConfigValue)
        ensures
            r@ == Setting::Bool(value),
    {
        ConfigValue::Bool(value)
    }
}

/// The variant of a value, which is all that overload selection looks at.
#[derive(Debug, Clone, Copy, PartialEq, Eq, Structural)]
pub enum Kind {
    Point,
    Line,
    Circle,
    Trig,
    Number,
    Null,
}

/// Objects related to calculation. `L` is the kernel's type of a line, of which
/// nothing is known here.
#[derive(Debug)]
pub enum GObject<L> {
    Point(Point),
    Line(L),
    Circle(Circle),
    Trig(Point, Point, Point),
    Number(Real),
    /// What a method with one result leaves in its second slot.
    Null,
}

impl<L: Copy> Clone for GObject<L> {
    fn clone(&self) -> (r: Self)
        ensures
            r == *self,
    {
        *self
    }
}

impl<L: Copy> Copy for GObject<L> {

}

impl<L: Copy> GObject<L> {
    /// The variant of this value.
    pub open spec fn spec_kind(self) -> Kind {
        match self {
            GObject::Point(_) => Kind::Point,
            GObject::Line(_) => Kind::Line,
            GObject::Circle(_) => Kind::Circle,
            GObject::Trig(_, _, _) => Kind::Trig,
            GObject::Number(_) => Kind::Number,
            GObject::Null => Kind::Null,
        }
    }

    /// The variant of this value.
    #[verifier::when_used_as_spec(spec_kind)]
    pub fn kind(self) -> (r: Kind)
        ensures
            r == self.spec_kind(),
    {
        match self {
            GObject::Point(_) => Kind::Point,
            GObject::Line(_) => Kind::Line,
            GObject::Circle(_) => Kind::Circle,
            GObject::Trig(_, _, _) => Kind::Trig,
            GObject::Number(_) => Kind::Number,
            GObject::Null => Kind::Null,
        }
    }
}

/// Objects related to drawing.
#[derive(Debug)]
pub enum DObject {
    Segment(Segment),
    Arc(Arc),
    Point(Point),
    Circle(Circle),
    /// A closed polygon: the last corner is joined to the first.
    Polygon(Vec<Point>),
    /// The mark of the angle at the second point, from the first to the third.
    Angle3P(Point, Point, Point),
}

/// What a drawable is.
pub enum Figure {
    Segment(Segment),
    Arc(Arc),
    Point(Point),
    Circle(Circle),
    Polygon(Seq<Point>),
    Angle3P(Point, Point, Point),
}

impl View for DObject {
    type V = Figure;

    open spec fn view(&self) -> Figure {
        match self {
            DObject::Segment(s) => Figure::Segment(*s),
            DObject::Arc(a) => Figure::Arc(*a),
            DObject::Point(p) => Figure::Point(*p),
            DObject::Circle(c) => Figure::Circle(*c),
            DObject::Polygon(p) => Figure::Polygon(p@),
            DObject::Angle3P(a, o, b) => Figure::Angle3P(*a, *o, *b),
        }
    }
}

/// Copies the points of `points` into a vector of its own.
pub fn copy_points(points: &Vec<Point>) -> (r: Vec<Point>)
    ensures
        r@ == points@,
{
    let mut r: Vec<Point> = Vec::new();
    let n = points.len();
    let mut i: usize = 0;
    while i < n
        invariant
            n == points@.len(),
            i <= n,
            r@ == points@.subrange(0, i as int),
        decreases n - i,
    {
        r.push(points[i]);
        assert(points@.subrange(0, i + 1) =~= points@.subrange(0, i as int).push(points@[i as int]));
        i += 1;
    }
    assert(points@.subrange(0, n as int) =~= points@);
    r
}

impl Clone for DObject {
    fn clone(&self) -> (r: DObject)
        ensures
            r@ == self@,
    {
        match self {
            DObject::Segment(s) => DObject::Segment(*s),
            DObject::Arc(a) => DObject::Arc(*a),
            DObject::Point(p) => DObject::Point(*p),
            DObject::Circle(c) => DObject::Circle(*c),
            DObject::Polygon(p) => DObject::Polygon(copy_points(p)),
            DObject::Angle3P(a, o, b) => DObject::Angle3P(*a, *o, *b),
        }
    }
}

impl<L: Copy> GObject<L> {
    /// This value as a drawable: a point and a circle are drawables, any
    /// other value is a `WrongGeometricType`.
    pub open spec fn lifted(self) -> Result<Figure, InterpretError> {
        match self {
            GObject::Point(p) => Ok(Figure::Point(p)),
            GObject::Circle(c) => Ok(Figure::Circle(c)),
            _ => Err(InterpretError::WrongGeometricType),
        }
    }

    /// This value as a drawable.
    pub fn into_drawable(self) -> (r: Result<DObject, InterpretError>)
        ensures
            self.lifted() == match r {
                Ok(d) => Ok::<Figure, InterpretError>(d@),
                Err(e) => Err::<Figure, InterpretError>(e),
            },
    {
        match self {
            GObject::Point(p) => Ok(DObject::Point(p)),
            GObject::Circle(c) => Ok(DObject::Circle(c)),
            _ => Err(InterpretError::WrongGeometricType),
        }
    }
}

/// Why a label could not be written.
#[derive(Debug, Clone, Copy, PartialEq, Eq, Structural)]
pub enum LabelError {
    WrongConfigType,
}

/// Why a decoration could not be written.
#[derive(Debug, Clone, Copy, PartialEq, Eq, Structural)]
pub enum DecorError {
    NoSuchDecor,
    WrongConfigType,
}

/// Why a method call failed.
#[derive(Debug)]
pub enum FuncError {
    /// No overload of the method takes arguments of these variants.
    ArgError,
    /// There is no method of this name.
    NoFunc(String),
    /// The geometry kernel refused the operation; the text is its message.
    CalcError(String),
}

/// What a `FuncError` says.
pub enum FuncFailure {
    ArgError,
    NoFunc(Seq<char>),
    CalcError(Seq<char>),
}

impl View for FuncError {
    type V = FuncFailure;

    open spec fn view(&self) -> FuncFailure {
        match self {
            FuncError::ArgError => FuncFailure::ArgError,
            FuncError::NoFunc(s) => FuncFailure::NoFunc(s@),
            FuncError::CalcError(s) => FuncFailure::CalcError(s@),
        }
    }
}

impl Clone for FuncError {
    fn clone(&self) -> (r: FuncError)
        ensures
            r@ == self@,
    {
        match self {
            FuncError::ArgError => FuncError::ArgError,
            FuncError::NoFunc(s) => FuncError::NoFunc(s.clone()),
            FuncError::CalcError(s) => FuncError::CalcError(s.clone()),
        }
    }
}

} // verus!
