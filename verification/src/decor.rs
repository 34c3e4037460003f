//! The decorations of a drawable: small marks set on it at a place along it.
use crate::ast::Config;
use crate::draw::{line_px, polyline, write_line_px, write_polyline};
use crate::interpret::InterpretError;
use crate::render::{cascade, StyledDObject};
use crate::structs::Real;
use crate::text::{Fragment, Piece, Token};
use crate::utils::{ConfigValue, DecorError};
use vstd::prelude::*;

verus! {

/// The options of a decoration: how far along the object it stands, its size
/// and the width of its strokes in pixels, and its colours.
#[derive(Debug)]
pub struct DecorConfig {
    pub loc: Real,
    pub size: Real,
    pub width: Real,
    pub color: String,
    pub fill: String,
}

/// What a `DecorConfig` says.
pub struct DecorStyle {
    pub loc: Real,
    pub size: Real,
    pub width: Real,
    pub color: Seq<char>,
    pub fill: Seq<char>,
}

impl View for DecorConfig {
    type V = DecorStyle;

    open spec fn view(&self) -> DecorStyle {
        DecorStyle {
            loc: self.loc,
            size: self.size,
            width: self.width,
            color: self.color@,
            fill: self.fill@,
        }
    }
}

/// A decoration.
#[derive(Debug, Clone, Copy, PartialEq, Eq, Structural)]
pub enum Glyph {
    /// `|`: one tick across the object.
    Tick,
    /// `||`: two ticks across the object, side by side.
    DoubleTick,
    /// `>`: an arrowhead along the object.
    Arrow,
}

/// The strokes of a decoration as a kernel has computed them, in pixels.
#[derive(Debug, Clone, Copy)]
pub enum Strokes {
    /// The two ends of a tick, in the frame of the drawing.
    Tick { x1: Real, y1: Real, x2: Real, y2: Real },
    /// The two ends of each of two ticks, in the frame of the drawing.
    DoubleTick {
        ax1: Real,
        ay1: Real,
        ax2: Real,
        ay2: Real,
        bx1: Real,
        by1: Real,
        bx2: Real,
        by2: Real,
    },
    /// The three places of an arrowhead in the frame of the script, in the
    /// order in which its line runs: one wing, the tip, the other wing.
    Arrow { a: (Real, Real), b: (Real, Real), c: (Real, Real) },
}

/// What a kernel needs to know to compute a decoration.
#[derive(Debug, Clone, Copy)]
pub struct DecorRequest {
    pub glyph: Glyph,
    pub loc: Real,
    pub size: Real,
}

/// The decoration that a script calls by `name`.
pub open spec fn glyph_named(name: Seq<char>) -> Option<Glyph> {
    if name == "|"@ {
        Some(Glyph::Tick)
    } else if name == "||"@ {
        Some(Glyph::DoubleTick)
    } else if name == ">"@ {
        Some(Glyph::Arrow)
    } else {
        None
    }
}

/// The options of a decoration under the options `local` of the object alone
/// and `global` of the whole drawing. The options `loc`, `decorsize` and
/// `decorwidth` must be numbers, `decorcolor` and `decorfill` strings.
pub open spec fn decor_style(local: Option<&Config>, global: Map<Seq<char>, ConfigValue>) -> Result<
    DecorStyle,
    DecorError,
> {
    let option = |key: Seq<char>| cascade(local, global, key);
    match (
        option("loc"@),
        option("decorsize"@),
        option("decorwidth"@),
        option("decorcolor"@),
        option("decorfill"@),
    ) {
        (
            Some(ConfigValue::Number(loc)),
            Some(ConfigValue::Number(size)),
            Some(ConfigValue::Number(width)),
            Some(ConfigValue::String(color)),
            Some(ConfigValue::String(fill)),
        ) => Ok(DecorStyle { loc, size, width, color: color@, fill: fill@ }),
        _ => Err(DecorError::WrongConfigType),
    }
}

/// What a kernel is asked for the decoration `name`: the options come first,
/// the name after them.
pub open spec fn decor_asked(
    local: Option<&Config>,
    global: Map<Seq<char>, ConfigValue>,
    name: Seq<char>,
) -> Result<DecorRequest, DecorError> {
    match decor_style(local, global) {
        Err(e) => Err(e),
        Ok(style) => match glyph_named(name) {
            None => Err(DecorError::NoSuchDecor),
            Some(glyph) => Ok(DecorRequest { glyph, loc: style.loc, size: style.size }),
        },
    }
}

/// The elements of a decoration with the given strokes: a `line` for each
/// tick, a `polyline` for an arrowhead. Strokes that are not those of the
/// decoration at hand are a `DecorObjNotSupported`.
pub open spec fn glyph_element(glyph: Glyph, strokes: Strokes, style: DecorStyle) -> Result<
    Seq<Token>,
    InterpretError,
> {
    let color = Token::Text(style.color);
    let width = Token::Number(style.width);
    match (glyph, strokes) {
        (Glyph::Tick, Strokes::Tick { x1, y1, x2, y2 }) => Ok(
            line_px(x1, y1, x2, y2, color, width),
        ),
        (Glyph::DoubleTick, Strokes::DoubleTick { ax1, ay1, ax2, ay2, bx1, by1, bx2, by2 }) => Ok(
            line_px(ax1, ay1, ax2, ay2, color, width) + line_px(bx1, by1, bx2, by2, color, width),
        ),
        (Glyph::Arrow, Strokes::Arrow { a, b, c }) => Ok(polyline(a, b, c, color, width)),
        _ => Err(InterpretError::DecorObjNotSupported),
    }
}

/// The decoration `name` of an object under the options `local` and `global`,
/// with the strokes that a kernel computed.
pub open spec fn decor_written(
    local: Option<&Config>,
    global: Map<Seq<char>, ConfigValue>,
    name: Seq<char>,
    strokes: Strokes,
) -> Result<Seq<Token>, InterpretError> {
    match decor_style(local, global) {
        Err(_) => Err(InterpretError::WrongConfigType),
        Ok(style) => match glyph_named(name) {
            None => Err(InterpretError::NoSuchDecor),
            Some(glyph) => glyph_element(glyph, strokes, style),
        },
    }
}

impl Glyph {
    /// The decoration that a script calls by `name`.
    pub fn named(name: &str) -> (r: Option<Glyph>)
        ensures
            r == glyph_named(name@),
    {
        let n = String::from_str(name);
        if n == String::from_str("|") {
            Some(Glyph::Tick)
        } else if n == String::from_str("||") {
            Some(Glyph::DoubleTick)
        } else if n == String::from_str(">") {
            Some(Glyph::Arrow)
        } else {
            None
        }
    }
}

impl DecorConfig {
    /// Reads the options of a decoration of `dobj`.
    pub fn get_from_styled_dobj(dobj: &StyledDObject) -> (r: Result<DecorConfig, DecorError>)
        ensures
            decor_style(dobj.local_conf, dobj.global_conf@) == match r {
                Ok(c) => Ok::<DecorStyle, DecorError>(c@),
                Err(e) => Err::<DecorStyle, DecorError>(e),
            },
    {
        let loc = dobj.get("loc");
        let size = dobj.get("decorsize");
        let width = dobj.get("decorwidth");
        let color = dobj.get("decorcolor");
        let fill = dobj.get("decorfill");
        match (loc, size, width, color, fill) {
            (
                Some(ConfigValue::Number(loc)),
                Some(ConfigValue::Number(size)),
                Some(ConfigValue::Number(width)),
                Some(ConfigValue::String(color)),
                Some(ConfigValue::String(fill)),
            ) => Ok(
                DecorConfig {
                    loc: *loc,
                    size: *size,
                    width: *width,
                    color: color.clone(),
                    fill: fill.clone(),
                },
            ),
            _ => Err(DecorError::WrongConfigType),
        }
    }
}

impl<'conf> StyledDObject<'conf> {
    /// What a kernel needs to know to compute the decoration `decor` of this
    /// object.
    pub fn decor_request(&self, decor: &str) -> (r: Result<DecorRequest, DecorError>)
        ensures
            r == decor_asked(self.local_conf, self.global_conf@, decor@),
    {
        match DecorConfig::get_from_styled_dobj(self) {
            Err(e) => Err(e),
            Ok(config) => match Glyph::named(decor) {
                None => Err(DecorError::NoSuchDecor),
                Some(glyph) => Ok(DecorRequest { glyph, loc: config.loc, size: config.size }),
            },
        }
    }

    /// Writes the decoration `decor` of this object with the strokes that a
    /// kernel computed.
    pub fn decor(&self, decor: &str, strokes: &Strokes) -> (r: Result<Fragment, InterpretError>)
        ensures
            decor_written(self.local_conf, self.global_conf@, decor@, *strokes) == match r {
                Ok(f) => Ok::<Seq<Token>, InterpretError>(f@),
                Err(e) => Err::<Seq<Token>, InterpretError>(e),
            },
    {
        let config = match DecorConfig::get_from_styled_dobj(self) {
            Err(_) => {
                return Err(InterpretError::WrongConfigType);
            },
            Ok(config) => config,
        };
        let glyph = match Glyph::named(decor) {
            None => {
                return Err(InterpretError::NoSuchDecor);
            },
            Some(glyph) => glyph,
        };
        match (glyph, strokes) {
            (Glyph::Tick, Strokes::Tick { x1, y1, x2, y2 }) => Ok(
                write_line_px(
                    *x1,
                    *y1,
                    *x2,
                    *y2,
                    Piece::Text(config.color.clone()),
                    Piece::Number(config.width),
                ),
            ),
            (Glyph::DoubleTick, Strokes::DoubleTick { ax1, ay1, ax2, ay2, bx1, by1, bx2, by2 }) => {
                let mut f = write_line_px(
                    *ax1,
                    *ay1,
                    *ax2,
                    *ay2,
                    Piece::Text(config.color.clone()),
                    Piece::Number(config.width),
                );
                let second = write_line_px(
                    *bx1,
                    *by1,
                    *bx2,
                    *by2,
                    Piece::Text(config.color.clone()),
                    Piece::Number(config.width),
                );
                f.append(&second);
                Ok(f)
            },
            (Glyph::Arrow, Strokes::Arrow { a, b, c }) => Ok(
                write_polyline(
                    *a,
                    *b,
                    *c,
                    Piece::Text(config.color.clone()),
                    Piece::Number(config.width),
                ),
            ),
            _ => Err(InterpretError::DecorObjNotSupported),
        }
    }
}

} // verus!
