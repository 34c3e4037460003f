//! A drawable together with the options that hold for it.
use crate::ast::Config;
use crate::draw::{
    arc, circle, line, polygon, write_arc, write_circle, write_line, write_polygon,
};
use crate::interpret::InterpretError;
use crate::structs::Real;
use crate::text::{Fragment, Piece, Token};
use crate::utils::{ConfigValue, DObject, Figure, Setting};
use vstd::prelude::*;

verus! {

/// A drawable with its options: those that hold for it alone, if there are
/// any, and those of the whole drawing. An option that is set for the object
/// alone counts; only where it is not, the one of the whole drawing does.
#[derive(Debug)]
pub struct StyledDObject<'conf> {
    pub obj: &'conf DObject,
    pub local_conf: Option<&'conf Config>,
    pub global_conf: &'conf Config,
}

/// A drawable as a kernel has measured it in the frame of the drawing, where
/// the y axis points down.
#[derive(Debug)]
pub enum Outline {
    /// The two ends of a segment, in centimetres.
    Segment { x1: Real, y1: Real, x2: Real, y2: Real },
    /// Centre and radius of a circle, in centimetres.
    Circle { cx: Real, cy: Real, r: Real },
    /// The place of a point, in centimetres.
    Point { cx: Real, cy: Real },
    /// The two ends and the radius of an arc, in pixels.
    Arc { x1: Real, y1: Real, r: Real, x2: Real, y2: Real },
    /// The corners of a polygon, in pixels.
    Polygon { corners: Vec<(Real, Real)> },
    /// The arc that marks an angle: its two ends and its radius in pixels,
    /// whether it is the long arc, and its direction in the frame of the
    /// script.
    Angle3P { x1: Real, y1: Real, r: Real, large_arc: bool, sweep: bool, x2: Real, y2: Real },
}

/// What an `Outline` says.
pub enum Measured {
    Segment { x1: Real, y1: Real, x2: Real, y2: Real },
    Circle { cx: Real, cy: Real, r: Real },
    Point { cx: Real, cy: Real },
    Arc { x1: Real, y1: Real, r: Real, x2: Real, y2: Real },
    Polygon { corners: Seq<(Real, Real)> },
    Angle3P { x1: Real, y1: Real, r: Real, large_arc: bool, sweep: bool, x2: Real, y2: Real },
}

impl View for Outline {
    type V = Measured;

    open spec fn view(&self) -> Measured {
        match self {
            Outline::Segment { x1, y1, x2, y2 } => Measured::Segment {
                x1: *x1,
                y1: *y1,
                x2: *x2,
                y2: *y2,
            },
            Outline::Circle { cx, cy, r } => Measured::Circle { cx: *cx, cy: *cy, r: *r },
            Outline::Point { cx, cy } => Measured::Point { cx: *cx, cy: *cy },
            Outline::Arc { x1, y1, r, x2, y2 } => Measured::Arc {
                x1: *x1,
                y1: *y1,
                r: *r,
                x2: *x2,
                y2: *y2,
            },
            Outline::Polygon { corners } => Measured::Polygon { corners: corners@ },
            Outline::Angle3P { x1, y1, r, large_arc, sweep, x2, y2 } => Measured::Angle3P {
                x1: *x1,
                y1: *y1,
                r: *r,
                large_arc: *large_arc,
                sweep: *sweep,
                x2: *x2,
                y2: *y2,
            },
        }
    }
}

/// The option `key` as it holds for an object: the one set for the object
/// alone, else the one of the whole drawing.
pub open spec fn cascade(
    local: Option<&Config>,
    global: Map<Seq<char>, ConfigValue>,
    key: Seq<char>,
) -> Option<ConfigValue> {
    if local is Some && local->Some_0@.contains_key(key) {
        Some(local->Some_0@[key])
    } else if global.contains_key(key) {
        Some(global[key])
    } else {
        None
    }
}

/// The option `key` as a number, where it is one.
pub open spec fn number_of(value: Option<ConfigValue>) -> Option<Real> {
    match value {
        Some(ConfigValue::Number(n)) => Some(n),
        _ => None,
    }
}

/// The `stroke-dasharray` attribute for the value of the option `dash`. There
/// is none where the option is not set or is the empty string.
pub open spec fn dash_of(value: Option<ConfigValue>) -> Seq<Token> {
    match value {
        None => Seq::empty(),
        Some(v) => if v@ == Setting::Text(Seq::empty()) {
            Seq::empty()
        } else {
            seq![Token::Text(" stroke-dasharray=\""@), v@.token(), Token::Text("\""@)]
        },
    }
}

/// The element for a drawable `figure` that was measured as `outline`, under
/// the options `local` of the object alone and `global` of the whole drawing.
///
/// A segment is a `line`, a circle and a point are a `circle`, an arc and the
/// mark of an angle are a `path`, a polygon is a `polygon`. A point takes its
/// radius from the option `dotsize`, in pixels. An outline that is not one of
/// the drawable at hand is a `WrongGeometricType`. An option that the element
/// needs and that is not set is a `WrongConfigType`, and so is an `anglesize`
/// that is no number where an angle is marked.
pub open spec fn element(
    figure: Figure,
    outline: Measured,
    local: Option<&Config>,
    global: Map<Seq<char>, ConfigValue>,
) -> Result<Seq<Token>, InterpretError> {
    let option = |key: Seq<char>| cascade(local, global, key);
    let dash = dash_of(option("dash"@));
    match (figure, outline) {
        (Figure::Segment(_), Measured::Segment { x1, y1, x2, y2 }) => match (
            option("color"@),
            option("linewidth"@),
        ) {
            (Some(color), Some(width)) => Ok(
                line(x1, y1, x2, y2, color@.token(), width@.token(), dash),
            ),
            _ => Err(InterpretError::WrongConfigType),
        },
        (Figure::Circle(_), Measured::Circle { cx, cy, r }) => match (
            option("color"@),
            option("fill"@),
            option("linewidth"@),
        ) {
            (Some(color), Some(fill), Some(width)) => Ok(
                circle(
                    cx,
                    cy,
                    Token::Number(r),
                    "cm\""@,
                    color@.token(),
                    fill@.token(),
                    width@.token(),
                    dash,
                ),
            ),
            _ => Err(InterpretError::WrongConfigType),
        },
        (Figure::Point(_), Measured::Point { cx, cy }) => match (
            option("dotsize"@),
            option("dotstroke"@),
            option("dotfill"@),
            option("dotwidth"@),
        ) {
            (Some(size), Some(stroke), Some(fill), Some(width)) => Ok(
                circle(
                    cx,
                    cy,
                    size@.token(),
                    "\""@,
                    stroke@.token(),
                    fill@.token(),
                    width@.token(),
                    Seq::empty(),
                ),
            ),
            _ => Err(InterpretError::WrongConfigType),
        },
        (Figure::Arc(a), Measured::Arc { x1, y1, r, x2, y2 }) => match (
            option("color"@),
            option("linewidth"@),
        ) {
            (Some(color), Some(width)) => Ok(
                arc(x1, y1, r, a.large_arc, a.sweep, x2, y2, color@.token(), width@.token(), dash),
            ),
            _ => Err(InterpretError::WrongConfigType),
        },
        (Figure::Polygon(_), Measured::Polygon { corners }) => match option("fill"@) {
            Some(fill) => Ok(polygon(corners, fill@.token())),
            None => Err(InterpretError::WrongConfigType),
        },
        (Figure::Angle3P(_, _, _), Measured::Angle3P { x1, y1, r, large_arc, sweep, x2, y2 }) => match (
            number_of(option("anglesize"@)),
            option("anglecolor"@),
            option("anglewidth"@),
        ) {
            (Some(_), Some(color), Some(width)) => Ok(
                arc(x1, y1, r, large_arc, sweep, x2, y2, color@.token(), width@.token(), dash),
            ),
            _ => Err(InterpretError::WrongConfigType),
        },
        _ => Err(InterpretError::WrongGeometricType),
    }
}

impl<'conf> StyledDObject<'conf> {
    /// The option `key` as it holds for this object.
    pub open spec fn option(&self, key: Seq<char>) -> Option<ConfigValue> {
        cascade(self.local_conf, self.global_conf@, key)
    }

    /// The element for this object, measured as `outline`.
    pub open spec fn rendering(&self, outline: Measured) -> Result<Seq<Token>, InterpretError> {
        element(self.obj@, outline, self.local_conf, self.global_conf@)
    }

    /// The option `key` as it holds for this object, if it is set at all.
    pub fn get(&self, key: &str) -> (r: Option<&ConfigValue>)
        ensures
            match r {
                Some(v) => self.option(key@) == Some(*v),
                None => self.option(key@) is None,
            },
    {
        match &self.local_conf {
            Some(conf) => match conf.get(key) {
                Some(value) => Some(value),
                None => self.global_conf.get(key),
            },
            None => self.global_conf.get(key),
        }
    }

    /// The option `key` as it holds for this object. An option that is not
    /// set is a `WrongConfigType`.
    pub(crate) fn read(&self, key: &str) -> (r: Result<&ConfigValue, InterpretError>)
        ensures
            match r {
                Ok(v) => self.option(key@) == Some(*v),
                Err(e) => self.option(key@) is None && e == InterpretError::WrongConfigType,
            },
    {
        match self.get(key) {
            Some(value) => Ok(value),
            None => Err(InterpretError::WrongConfigType),
        }
    }

    /// The option `key` as a piece of output.
    pub(crate) fn show(&self, key: &str) -> (r: Result<Piece, InterpretError>)
        ensures
            match r {
                Ok(p) => self.option(key@) is Some && p@ == self.option(key@)->Some_0@.token(),
                Err(e) => self.option(key@) is None && e == InterpretError::WrongConfigType,
            },
    {
        match self.read(key) {
            Ok(value) => Ok(value.piece()),
            Err(e) => Err(e),
        }
    }

    /// The option `key` as a number. An option that is not set or is no
    /// number is a `WrongConfigType`.
    pub(crate) fn number(&self, key: &str) -> (r: Result<Real, InterpretError>)
        ensures
            match r {
                Ok(n) => number_of(self.option(key@)) == Some(n),
                Err(e) => number_of(self.option(key@)) is None && e
                    == InterpretError::WrongConfigType,
            },
    {
        match self.get(key) {
            Some(ConfigValue::Number(n)) => Ok(*n),
            _ => Err(InterpretError::WrongConfigType),
        }
    }

    /// The `stroke-dasharray` attribute of this object.
    fn dash(&self) -> (r: Fragment)
        ensures
            r@ == dash_of(self.option("dash"@)),
    {
        let mut f = Fragment::new();
        match self.get("dash") {
            None => {},
            Some(value) => {
                let absent = match value {
                    ConfigValue::String(s) => s.as_str().is_empty(),
                    _ => false,
                };
                assert(absent == (value@ == Setting::Text(Seq::empty()))) by {
                    if let ConfigValue::String(s) = value {
                        assert(s@.len() == 0 ==> s@ =~= Seq::<char>::empty());
                    }
                }
                if !absent {
                    f.text(" stroke-dasharray=\"");
                    f.push(value.piece());
                    f.text("\"");
                }
            },
        }
        f
    }

    /// Writes the element for this object, measured as `outline`.
    pub fn render(&self, outline: &Outline) -> (r: Result<Fragment, InterpretError>)
        ensures
            match r {
                Ok(f) => self.rendering(outline@) == Ok::<Seq<Token>, InterpretError>(f@),
                Err(e) => self.rendering(outline@) == Err::<Seq<Token>, InterpretError>(e),
            },
    {
        let dash = self.dash();
        match (self.obj, outline) {
            (DObject::Segment(_), Outline::Segment { x1, y1, x2, y2 }) => {
                let color = self.show("color");
                let width = self.show("linewidth");
                match (color, width) {
                    (Ok(color), Ok(width)) => Ok(write_line(*x1, *y1, *x2, *y2, color, width, &dash)),
                    _ => Err(InterpretError::WrongConfigType),
                }
            },
            (DObject::Circle(_), Outline::Circle { cx, cy, r }) => {
                let color = self.show("color");
                let fill = self.show("fill");
                let width = self.show("linewidth");
                match (color, fill, width) {
                    (Ok(color), Ok(fill), Ok(width)) => Ok(
                        write_circle(*cx, *cy, Piece::Number(*r), "cm\"", color, fill, width, &dash),
                    ),
                    _ => Err(InterpretError::WrongConfigType),
                }
            },
            (DObject::Point(_), Outline::Point { cx, cy }) => {
                let size = self.show("dotsize");
                let stroke = self.show("dotstroke");
                let fill = self.show("dotfill");
                let width = self.show("dotwidth");
                match (size, stroke, fill, width) {
                    (Ok(size), Ok(stroke), Ok(fill), Ok(width)) => {
                        let none = Fragment::new();
                        Ok(write_circle(*cx, *cy, size, "\"", stroke, fill, width, &none))
                    },
                    _ => Err(InterpretError::WrongConfigType),
                }
            },
            (DObject::Arc(a), Outline::Arc { x1, y1, r, x2, y2 }) => {
                let color = self.show("color");
                let width = self.show("linewidth");
                match (color, width) {
                    (Ok(color), Ok(width)) => Ok(
                        write_arc(*x1, *y1, *r, a.large_arc, a.sweep, *x2, *y2, color, width, &dash),
                    ),
                    _ => Err(InterpretError::WrongConfigType),
                }
            },
            (DObject::Polygon(_), Outline::Polygon { corners }) => {
                match self.show("fill") {
                    Ok(fill) => Ok(write_polygon(corners, fill)),
                    Err(e) => Err(e),
                }
            },
            (DObject::Angle3P(_, _, _), Outline::Angle3P { x1, y1, r, large_arc, sweep, x2, y2 }) => {
                let size = self.number("anglesize");
                let color = self.show("anglecolor");
                let width = self.show("anglewidth");
                match (size, color, width) {
                    (Ok(_), Ok(color), Ok(width)) => Ok(
                        write_arc(*x1, *y1, *r, *large_arc, *sweep, *x2, *y2, color, width, &dash),
                    ),
                    _ => Err(InterpretError::WrongConfigType),
                }
            },
            _ => Err(InterpretError::WrongGeometricType),
        }
    }
}

} // verus!
