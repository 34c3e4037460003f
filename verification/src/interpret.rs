//! The state of an interpreter and what each statement does to it.
use crate::ast::{Config, DeclLeft};
use crate::config::{default_config, default_settings, settings};
use crate::decor::{decor_asked, decor_written, DecorRequest, Strokes};
use crate::dict::Dict;
use crate::label::{label_asked, label_written, LabelMetrics, LabelRequest};
use crate::render::{cascade, element, number_of, Outline, StyledDObject};
use crate::structs::Real;
use crate::text::{Fragment, Token};
use crate::utils::{
    ConfigValue, ConversionError, DObject, DecorError, Figure, FuncError, GObject, LabelError,
};
use vstd::prelude::*;

verus! {

/// Types of layers.
#[derive(Debug, Clone, Copy, PartialEq, Eq, Hash, Structural)]
pub enum LayerType {
    Dots,
    Lines,
    Decor,
    Text,
    Area,
}

/// The layers of a drawing: for each type of layer, what was drawn on it so
/// far, in the order in which it was drawn.
#[derive(Debug)]
pub struct Layer {
    dots: Fragment,
    lines: Fragment,
    decor: Fragment,
    text: Fragment,
    area: Fragment,
}

impl Layer {
    /// What was drawn on `layer`.
    pub closed spec fn content(&self, layer: LayerType) -> Seq<Token> {
        match layer {
            LayerType::Dots => self.dots@,
            LayerType::Lines => self.lines@,
            LayerType::Decor => self.decor@,
            LayerType::Text => self.text@,
            LayerType::Area => self.area@,
        }
    }

    /// Whether nothing was drawn on any layer.
    pub open spec fn is_blank(&self) -> bool {
        forall|layer: LayerType| #[trigger] self.content(layer) == Seq::<Token>::empty()
    }

    /// Whether `after` is these layers with `shape` drawn on `layer` and
    /// `label` on the layer of text, and nothing else.
    pub open spec fn painted(
        &self,
        after: Layer,
        layer: LayerType,
        shape: Seq<Token>,
        label: Seq<Token>,
    ) -> bool {
        forall|l: LayerType| #[trigger]
            after.content(l) == self.content(l) + (if l == layer {
                shape
            } else {
                Seq::empty()
            }) + (if l == LayerType::Text {
                label
            } else {
                Seq::empty()
            })
    }

    /// Whether `after` holds what these layers hold.
    pub open spec fn same(&self, after: Layer) -> bool {
        forall|l: LayerType| #[trigger] after.content(l) == self.content(l)
    }

    /// Layers on which nothing was drawn.
    pub fn new() -> (r: Layer)
        ensures
            r.is_blank(),
    {
        Layer {
            dots: Fragment::new(),
            lines: Fragment::new(),
            decor: Fragment::new(),
            text: Fragment::new(),
            area: Fragment::new(),
        }
    }

    /// Draws `fragment` on `layer`, after what is there. The other layers stay
    /// as they are.
    pub fn emit(&mut self, layer: LayerType, fragment: &Fragment)
        ensures
            final(self).content(layer) == old(self).content(layer) + fragment@,
            forall|other: LayerType|
                other != layer ==> #[trigger] final(self).content(other) == old(self).content(other),
    {
        match layer {
            LayerType::Dots => self.dots.append(fragment),
            LayerType::Lines => self.lines.append(fragment),
            LayerType::Decor => self.decor.append(fragment),
            LayerType::Text => self.text.append(fragment),
            LayerType::Area => self.area.append(fragment),
        }
    }

    /// What was drawn on `layer`.
    pub fn get(&self, layer: LayerType) -> (r: Fragment)
        ensures
            r@ == self.content(layer),
    {
        match layer {
            LayerType::Dots => self.dots.clone(),
            LayerType::Lines => self.lines.clone(),
            LayerType::Decor => self.decor.clone(),
            LayerType::Text => self.text.clone(),
            LayerType::Area => self.area.clone(),
        }
    }
}

/// Why a statement could not be interpreted.
#[derive(Debug)]
pub enum InterpretError {
    /// The script is not well formed; the text says where.
    ParseError(String),
    /// A method call failed.
    FuncError(FuncError),
    /// A name is used that nothing is bound to.
    MissingKey(String),
    /// The drawing could not be written; the text is the system's message.
    IOError(String),
    /// A value is of a variant that does not fit where it is used.
    WrongGeometricType,
    /// An option is of a type that does not fit where it is read, or is not set.
    WrongConfigType,
    /// The kernel has no place for a label on this object.
    LabelObjNotSupported,
    /// The kernel has no place for a decoration on this object.
    DecorObjNotSupported,
    /// There is no decoration of this name.
    NoSuchDecor,
    /// An arithmetic expression could not be evaluated; the text is the
    /// evaluator's message.
    EvalError(String),
}

/// What the kernel reports when it cannot do what it was asked.
#[derive(Debug)]
pub enum Fault {
    /// The geometry has no answer: parallel lines do not meet, three points on
    /// a line have no circle through them.
    Calc(String),
    /// An arithmetic expression has no value.
    Eval(String),
}

impl InterpretError {
    /// The error that a fault of the kernel is reported as.
    pub fn from_fault(fault: Fault) -> (r: InterpretError)
        ensures
            r == match fault {
                Fault::Calc(m) => InterpretError::FuncError(FuncError::CalcError(m)),
                Fault::Eval(m) => InterpretError::EvalError(m),
            },
    {
        match fault {
            Fault::Calc(m) => InterpretError::FuncError(FuncError::CalcError(m)),
            Fault::Eval(m) => InterpretError::EvalError(m),
        }
    }

    /// The error that a failed read of a number is reported as.
    pub fn from_conversion(e: ConversionError) -> (r: InterpretError)
        ensures
            r == InterpretError::WrongConfigType,
    {
        InterpretError::WrongConfigType
    }

    /// The error that a failed label is reported as.
    pub fn from_label(e: LabelError) -> (r: InterpretError)
        ensures
            r == InterpretError::WrongConfigType,
    {
        InterpretError::WrongConfigType
    }

    /// The error that a failed decoration is reported as.
    pub fn from_decor(e: DecorError) -> (r: InterpretError)
        ensures
            r == match e {
                DecorError::NoSuchDecor => InterpretError::NoSuchDecor,
                DecorError::WrongConfigType => InterpretError::WrongConfigType,
            },
    {
        match e {
            DecorError::NoSuchDecor => InterpretError::NoSuchDecor,
            DecorError::WrongConfigType => InterpretError::WrongConfigType,
        }
    }
}

/// Represents the state of an interpreter: the objects that the script has
/// named, the layers of the drawing, and the options in force.
#[derive(Debug)]
pub struct InterpreterState<L> {
    pub(crate) objects: Dict<GObject<L>>,
    pub(crate) layer: Layer,
    pub(crate) config: Config,
}

impl<L: Copy> InterpreterState<L> {
    /// The objects by name.
    pub closed spec fn env(&self) -> Map<Seq<char>, GObject<L>> {
        self.objects@
    }

    /// How many bindings are stored. A name that is bound anew takes the
    /// place of its old binding.
    pub closed spec fn stored(&self) -> nat {
        self.objects.stored()
    }

    /// The layers of the drawing.
    pub closed spec fn layers(&self) -> Layer {
        self.layer
    }

    /// The options in force.
    pub closed spec fn options(&self) -> Map<Seq<char>, ConfigValue> {
        self.config@
    }

    /// Whether this is the state that an interpreter starts in: no object is
    /// named, nothing is drawn, the options are the default ones.
    pub open spec fn is_initial(&self) -> bool {
        &&& self.env() == Map::<Seq<char>, GObject<L>>::empty()
        &&& self.stored() == 0
        &&& self.layers().is_blank()
        &&& settings(self.options()) == default_settings()
    }

    /// The objects by name.
    pub(crate) fn objects(&self) -> (r: &Dict<GObject<L>>)
        ensures
            r@ == self.env(),
    {
        &self.objects
    }

    /// The options in force.
    pub(crate) fn global(&self) -> (r: &Config)
        ensures
            r@ == self.options(),
    {
        &self.config
    }

    /// The object bound to `name`, if there is one.
    pub fn get(&self, name: &str) -> (r: Option<GObject<L>>)
        ensures
            r == if self.env().contains_key(name@) {
                Some(self.env()[name@])
            } else {
                None
            },
    {
        match self.objects.get(name) {
            Some(g) => Some(*g),
            None => None,
        }
    }

    /// An interpreter that has not seen a statement yet.
    pub fn new() -> (r: Self)
        ensures
            r.is_initial(),
    {
        InterpreterState { objects: Dict::new(), layer: Layer::new(), config: default_config() }
    }

    /// Forgets everything: afterwards the state is the one that an interpreter
    /// starts in.
    pub fn clear(&mut self)
        ensures
            final(self).is_initial(),
    {
        self.objects.clear();
        self.layer = Layer::new();
        self.config = default_config();
    }
}

impl<L: Copy> Default for InterpreterState<L> {
    fn default() -> (r: Self)
        ensures
            r.is_initial(),
    {
        Self::new()
    }
}

/// What a kernel is asked before an object is drawn: the size of the mark
/// where an angle is marked, and what it needs for a label where the object
/// has one.
#[derive(Debug, Clone, Copy)]
pub struct DrawRequest {
    pub mark_size: Option<Real>,
    pub label: Option<LabelRequest>,
}

/// What a kernel has measured of an object to draw.
#[derive(Debug)]
pub struct Drawn {
    pub outline: Outline,
    pub label: Option<LabelMetrics>,
}

/// What a kernel is asked for the frame of a drawing: width and height in
/// centimetres and, where they are set, the coordinates of the upper left
/// corner in pixels.
#[derive(Debug, Clone, Copy)]
pub struct FrameRequest {
    pub width: Real,
    pub height: Real,
    pub min_x: Option<Real>,
    pub min_y: Option<Real>,
}

/// The frame of a drawing in pixels: its width and height, and the
/// coordinates of its upper left corner.
#[derive(Debug, Clone, Copy)]
pub struct Frame {
    pub width: Real,
    pub height: Real,
    pub min_x: Real,
    pub min_y: Real,
}

/// The objects after a declaration with `left` on its left side and the pair
/// `value` as the value of its right side. One name takes the first of the
/// pair. Two names take one each, but for the name `_` in the second place,
/// which takes nothing. A name that was bound before is bound anew.
pub open spec fn bound<L>(
    env: Map<Seq<char>, GObject<L>>,
    left: DeclLeft,
    value: (GObject<L>, GObject<L>),
) -> Map<Seq<char>, GObject<L>> {
    match left {
        DeclLeft::Direct(x) => env.insert(x@, value.0),
        DeclLeft::Destruct(x, y) => if y@ == "_"@ {
            env.insert(x@, value.0)
        } else {
            env.insert(x@, value.0).insert(y@, value.1)
        },
    }
}

/// How many of the names on the left side `left` of a declaration are not
/// bound in `env`.
pub open spec fn fresh<L>(env: Map<Seq<char>, GObject<L>>, left: DeclLeft) -> nat {
    match left {
        DeclLeft::Direct(x) => if env.contains_key(x@) {
            0
        } else {
            1
        },
        DeclLeft::Destruct(x, y) => {
            let first: nat = if env.contains_key(x@) {
                0
            } else {
                1
            };
            let second: nat = if y@ == "_"@ || y@ == x@ || env.contains_key(y@) {
                0
            } else {
                1
            };
            first + second
        },
    }
}

/// The layer that a drawable goes to: points are dots, polygons are areas,
/// everything else is lines.
pub open spec fn layer_of(figure: Figure) -> LayerType {
    match figure {
        Figure::Point(_) => LayerType::Dots,
        Figure::Polygon(_) => LayerType::Area,
        _ => LayerType::Lines,
    }
}

/// What a kernel is asked before `figure` is drawn.
pub open spec fn draw_asked(
    figure: Figure,
    local: Option<&Config>,
    global: Map<Seq<char>, ConfigValue>,
) -> Result<DrawRequest, InterpretError> {
    let label = if cascade(local, global, "label"@) is Some {
        match label_asked(local, global) {
            Ok(asked) => Some(asked),
            Err(_) => None,
        }
    } else {
        None
    };
    match figure {
        Figure::Angle3P(_, _, _) => match number_of(cascade(local, global, "anglesize"@)) {
            Some(size) => Ok(DrawRequest { mark_size: Some(size), label }),
            None => Err(InterpretError::WrongConfigType),
        },
        _ => Ok(DrawRequest { mark_size: None, label }),
    }
}

/// The label to draw with an object: none where the option `label` is not
/// set. Where it is set, the options of the label must be in order, else it
/// is a `WrongConfigType`, and the kernel must have found a place for it,
/// else it is a `LabelObjNotSupported`.
pub open spec fn label_drawn(
    local: Option<&Config>,
    global: Map<Seq<char>, ConfigValue>,
    metrics: Option<LabelMetrics>,
) -> Result<Seq<Token>, InterpretError> {
    if cascade(local, global, "label"@) is None {
        Ok(Seq::empty())
    } else {
        match label_asked(local, global) {
            Err(_) => Err(InterpretError::WrongConfigType),
            Ok(_) => match metrics {
                None => Err(InterpretError::LabelObjNotSupported),
                Some(m) => match label_written(local, global, m) {
                    Ok(words) => Ok(words),
                    Err(_) => Err(InterpretError::WrongConfigType),
                },
            },
        }
    }
}

/// What a kernel is asked for the frame of a drawing under the options
/// `global`. Width and height must be numbers. The corner is taken from the
/// options `minX` and `minY` where they are numbers.
pub open spec fn frame_asked(global: Map<Seq<char>, ConfigValue>) -> Result<
    FrameRequest,
    InterpretError,
> {
    match (
        number_of(cascade(None, global, "width"@)),
        number_of(cascade(None, global, "height"@)),
    ) {
        (Some(width), Some(height)) => Ok(
            FrameRequest {
                width,
                height,
                min_x: number_of(cascade(None, global, "minX"@)),
                min_y: number_of(cascade(None, global, "minY"@)),
            },
        ),
        _ => Err(InterpretError::WrongConfigType),
    }
}

/// The drawing as a whole: the opening tag with the frame, then the layers
/// from the lowest to the highest, each on a line of its own: areas, lines,
/// decorations, dots, text.
pub open spec fn document(frame: Frame, layers: Layer) -> Seq<Token> {
    seq![
        Token::Text("<svg xmlns=\"http://www.w3.org/2000/svg\" width=\""@),
        Token::Number(frame.width),
        Token::Text("\" height=\""@),
        Token::Number(frame.height),
        Token::Text("\" viewBox=\""@),
        Token::Number(frame.min_x),
        Token::Text(" "@),
        Token::Number(frame.min_y),
        Token::Text(" "@),
        Token::Number(frame.width),
        Token::Text(" "@),
        Token::Number(frame.height),
        Token::Text("\">\n"@),
    ] + layers.content(LayerType::Area) + seq![Token::Text("\n"@)] + layers.content(
        LayerType::Lines,
    ) + seq![Token::Text("\n"@)] + layers.content(LayerType::Decor) + seq![Token::Text("\n"@)]
        + layers.content(LayerType::Dots) + seq![Token::Text("\n"@)] + layers.content(
        LayerType::Text,
    ) + seq![Token::Text("\n</svg>\n"@)]
}

impl<L: Copy> InterpreterState<L> {
    /// The option `key` of the whole drawing, if it is set.
    pub fn option(&self, key: &str) -> (r: Option<&ConfigValue>)
        ensures
            match r {
                Some(v) => self.options().contains_key(key@) && *v == self.options()[key@],
                None => !self.options().contains_key(key@),
            },
    {
        self.config.get(key)
    }

    /// What was drawn on `layer`.
    pub fn layer(&self, layer: LayerType) -> (r: Fragment)
        ensures
            r@ == self.layers().content(layer),
    {
        self.layer.get(layer)
    }

    /// A `config` statement: every option that the statement sets is set,
    /// over what was set before. The other options stay as they are.
    pub fn config(&mut self, config: Config) -> (r: Result<(), InterpretError>)
        ensures
            r is Ok,
            final(self).options() == old(self).options().union_prefer_right(config@),
            final(self).env() == old(self).env(),
            final(self).stored() == old(self).stored(),
            final(self).layers() == old(self).layers(),
    {
        self.config.extend(config);
        Ok(())
    }

    /// A declaration, once a kernel has computed `value` for its right side:
    /// binds the names on the left side.
    pub fn decl(&mut self, left: &DeclLeft, value: (GObject<L>, GObject<L>)) -> (r: Result<
        (),
        InterpretError,
    >)
        ensures
            r is Ok,
            final(self).env() == bound(old(self).env(), *left, value),
            final(self).stored() == old(self).stored() + fresh(old(self).env(), *left),
            final(self).options() == old(self).options(),
            final(self).layers() == old(self).layers(),
    {
        match left {
            DeclLeft::Direct(x) => {
                self.objects.insert(x.clone(), value.0);
            },
            DeclLeft::Destruct(x, y) => {
                self.objects.insert(x.clone(), value.0);
                let blank = String::from_str("_");
                if !(*y == blank) {
                    self.objects.insert(y.clone(), value.1);
                }
            },
        }
        Ok(())
    }

    /// What a kernel is asked before `obj` is drawn with the options `local`
    /// of its own.
    pub fn draw_request(&self, obj: &DObject, local: Option<&Config>) -> (r: Result<
        DrawRequest,
        InterpretError,
    >)
        ensures
            r == draw_asked(obj@, local, self.options()),
    {
        let styled = StyledDObject { obj, local_conf: local, global_conf: &self.config };
        let label = if styled.get("label").is_some() {
            match styled.label_request() {
                Ok(asked) => Some(asked),
                Err(_) => None,
            }
        } else {
            None
        };
        match obj {
            DObject::Angle3P(_, _, _) => match styled.number("anglesize") {
                Ok(size) => Ok(DrawRequest { mark_size: Some(size), label }),
                Err(e) => Err(e),
            },
            _ => Ok(DrawRequest { mark_size: None, label }),
        }
    }

    /// One step of a `draw` statement, once a kernel has measured the object:
    /// draws `obj` on its layer and, where the option `label` is set for it,
    /// its label on the layer of text.
    ///
    /// Where the element cannot be written, nothing is drawn. Where the
    /// label cannot be written, the object is drawn without it and the step
    /// fails all the same.
    pub fn draw(&mut self, obj: &DObject, local: Option<&Config>, drawn: &Drawn) -> (r: Result<
        (),
        InterpretError,
    >)
        ensures
            final(self).env() == old(self).env(),
            final(self).stored() == old(self).stored(),
            final(self).options() == old(self).options(),
            match element(obj@, drawn.outline@, local, old(self).options()) {
                Err(e) => r == Err::<(), InterpretError>(e) && old(self).layers().same(
                    final(self).layers(),
                ),
                Ok(shape) => match label_drawn(local, old(self).options(), drawn.label) {
                    Err(e) => r == Err::<(), InterpretError>(e) && old(self).layers().painted(
                        final(self).layers(),
                        layer_of(obj@),
                        shape,
                        Seq::empty(),
                    ),
                    Ok(label) => r is Ok && old(self).layers().painted(
                        final(self).layers(),
                        layer_of(obj@),
                        shape,
                        label,
                    ),
                },
            },
    {
        let styled = StyledDObject { obj, local_conf: local, global_conf: &self.config };
        let shape = match styled.render(&drawn.outline) {
            Err(e) => {
                return Err(e);
            },
            Ok(shape) => shape,
        };
        let layer = match obj {
            DObject::Point(_) => LayerType::Dots,
            DObject::Polygon(_) => LayerType::Area,
            _ => LayerType::Lines,
        };
        let label = if styled.get("label").is_some() {
            match styled.label_request() {
                Err(_) => Err(InterpretError::WrongConfigType),
                Ok(_) => match &drawn.label {
                    None => Err(InterpretError::LabelObjNotSupported),
                    Some(metrics) => match styled.label(metrics) {
                        Ok(words) => Ok(words),
                        Err(_) => Err(InterpretError::WrongConfigType),
                    },
                },
            }
        } else {
            Ok(Fragment::new())
        };
        self.layer.emit(layer, &shape);
        match label {
            Err(e) => Err(e),
            Ok(words) => {
                self.layer.emit(LayerType::Text, &words);
                Ok(())
            },
        }
    }

    /// What a kernel is asked before `obj` is decorated with `decor`, with
    /// the options `local` of its own.
    pub fn decor_request(&self, obj: &DObject, local: Option<&Config>, decor: &str) -> (r: Result<
        DecorRequest,
        InterpretError,
    >)
        ensures
            r == match decor_asked(local, self.options(), decor@) {
                Ok(asked) => Ok::<DecorRequest, InterpretError>(asked),
                Err(DecorError::NoSuchDecor) => Err(InterpretError::NoSuchDecor),
                Err(DecorError::WrongConfigType) => Err(InterpretError::WrongConfigType),
            },
    {
        let styled = StyledDObject { obj, local_conf: local, global_conf: &self.config };
        match styled.decor_request(decor) {
            Ok(asked) => Ok(asked),
            Err(e) => Err(InterpretError::from_decor(e)),
        }
    }

    /// One step of a `decor` statement, once a kernel has computed the
    /// strokes: draws the decoration on the layer of decorations. Where it
    /// cannot be written, nothing is drawn.
    pub fn decor(
        &mut self,
        obj: &DObject,
        local: Option<&Config>,
        decor: &str,
        strokes: &Strokes,
    ) -> (r: Result<(), InterpretError>)
        ensures
            final(self).env() == old(self).env(),
            final(self).stored() == old(self).stored(),
            final(self).options() == old(self).options(),
            match decor_written(local, old(self).options(), decor@, *strokes) {
                Err(e) => r == Err::<(), InterpretError>(e) && old(self).layers().same(
                    final(self).layers(),
                ),
                Ok(mark) => r is Ok && old(self).layers().painted(
                    final(self).layers(),
                    LayerType::Decor,
                    mark,
                    Seq::empty(),
                ),
            },
    {
        let styled = StyledDObject { obj, local_conf: local, global_conf: &self.config };
        match styled.decor(decor, strokes) {
            Err(e) => Err(e),
            Ok(mark) => {
                self.layer.emit(LayerType::Decor, &mark);
                Ok(())
            },
        }
    }

    /// What a kernel is asked for the frame of the drawing.
    pub fn frame_request(&self) -> (r: Result<FrameRequest, InterpretError>)
        ensures
            r == frame_asked(self.options()),
    {
        let width = match self.config.get("width") {
            Some(ConfigValue::Number(n)) => *n,
            _ => {
                return Err(InterpretError::WrongConfigType);
            },
        };
        let height = match self.config.get("height") {
            Some(ConfigValue::Number(n)) => *n,
            _ => {
                return Err(InterpretError::WrongConfigType);
            },
        };
        let min_x = match self.config.get("minX") {
            Some(ConfigValue::Number(n)) => Some(*n),
            _ => None,
        };
        let min_y = match self.config.get("minY") {
            Some(ConfigValue::Number(n)) => Some(*n),
            _ => None,
        };
        Ok(FrameRequest { width, height, min_x, min_y })
    }

    /// Emit the complete drawing, in the frame that a kernel computed. The
    /// options `width` and `height` must be numbers.
    pub fn emit(&self, frame: &Frame) -> (r: Result<Fragment, InterpretError>)
        ensures
            match r {
                Ok(f) => frame_asked(self.options()) is Ok && f@ == document(*frame, self.layers()),
                Err(e) => frame_asked(self.options()) == Err::<FrameRequest, InterpretError>(e),
            },
    {
        match self.frame_request() {
            Err(e) => {
                return Err(e);
            },
            Ok(_) => {},
        }
        let mut f = Fragment::new();
        f.text("<svg xmlns=\"http://www.w3.org/2000/svg\" width=\"");
        f.number(frame.width);
        f.text("\" height=\"");
        f.number(frame.height);
        f.text("\" viewBox=\"");
        f.number(frame.min_x);
        f.text(" ");
        f.number(frame.min_y);
        f.text(" ");
        f.number(frame.width);
        f.text(" ");
        f.number(frame.height);
        f.text("\">\n");
        f.append(&self.layer.get(LayerType::Area));
        f.text("\n");
        f.append(&self.layer.get(LayerType::Lines));
        f.text("\n");
        f.append(&self.layer.get(LayerType::Decor));
        f.text("\n");
        f.append(&self.layer.get(LayerType::Dots));
        f.text("\n");
        f.append(&self.layer.get(LayerType::Text));
        f.text("\n</svg>\n");
        assert(f@ =~= document(*frame, self.layers()));
        Ok(f)
    }
}

} // verus!
