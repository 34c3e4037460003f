//! The statements of a script, as the parser hands them over.
use crate::dict::Dict;
use crate::structs::Real;
use crate::utils::ConfigValue;
use vstd::prelude::*;

verus! {

/// A line, given by name or by two points on it.
#[derive(Debug)]
pub enum Linear {
    Line2P(String, String),
    Name(String),
}

/// A number, given literally, by name, or as a distance or an angle.
#[derive(Debug)]
pub enum Numeric {
    Distance2P(String, String),
    DistancePL(String, Linear),
    Distance2L(Linear, Linear),
    Angle3P(String, String, String),
    Angle2L(Linear, Linear),
    Number(Real),
    Name(String),
}

/// An object as a script writes it.
#[derive(Debug)]
pub enum Object {
    Line2P(String, String),
    Circ3P(String, String, String),
    CircOr(String, Numeric),
    CircOA(String, String),
    CircDiam(String, String),
    Arc(String, String, String),
    ArcO(String, String, String),
    Angle3P(String, String, String),
    Triangle(String, String, String),
    Polygon(Vec<String>),
    Name(String),
    Numeric(Numeric),
    /// An arithmetic expression, written between dollar signs.
    Eval(String),
}

/// The right side of a declaration.
#[derive(Debug)]
pub enum DeclRight {
    OrthoCoord(Numeric, Numeric),
    PolarCoord(Numeric, Numeric),
    Expr(String, Vec<Object>),
    Object(Object),
}

/// The left side of a declaration: one name, or two names for a method that
/// gives two results.
#[derive(Debug)]
pub enum DeclLeft {
    Direct(String),
    Destruct(String, String),
}

/// A declaration: `left = right`.
#[derive(Debug)]
pub struct Decl(pub DeclLeft, pub DeclRight);

/// Options by name.
pub type Config = Dict<ConfigValue>;

/// An object to draw, with the options that hold for it alone.
#[derive(Debug)]
pub struct StyledObject {
    pub obj: Object,
    pub config: Option<Config>,
}

/// An object to decorate, the decoration, and the options that hold for it alone.
#[derive(Debug)]
pub struct DecorObject {
    pub obj: Object,
    pub decor: String,
    pub config: Option<Config>,
}

pub type Draw = Vec<StyledObject>;

pub type Decor = Vec<DecorObject>;

/// One statement of a script.
#[derive(Debug)]
pub enum FileLine {
    Config(Config),
    Draw(Draw),
    Decor(Decor),
    Save(String),
    Decl(Decl),
}

pub type Main = Vec<FileLine>;

} // verus!
