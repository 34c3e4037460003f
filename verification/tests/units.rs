// The parts of the library one by one.
use propose::ast::{Config, DeclLeft, DeclRight, Linear, Numeric, Object};
use propose::config::{default_config, put};
use propose::decor::{DecorConfig, Glyph, Strokes};
use propose::dict::Dict;
use propose::draw::{
    write_arc, write_circle, write_corners, write_line, write_line_px, write_polygon,
    write_polyline, CM,
};
use propose::eval::{FuncEvalError, Intrinsic, Variable};
use propose::functions::{same_kinds, select, Method, Overload, Slot};
use propose::interpret::{Fault, InterpretError, InterpreterState};
use propose::label::{find_underscore, write_words, LabelMetrics};
use propose::render::{Outline, StyledDObject};
use propose::resolve::kinds;
use propose::structs::{Circle, Point, Real, Segment};
use propose::terms::{ArgTerm, CircleTerm, DeclTerm, DrawTerm, Failure, LineTerm, NumTerm};
use propose::text::{Fragment, Piece};
use propose::utils::{
    copy_points, ConfigValue, ConversionError, DObject, DecorError, FuncError, GObject, Kind,
    LabelError,
};

type State = InterpreterState<u8>;

fn re(x: f64) -> Real {
    Real::from_bits(x.to_bits())
}

fn num(x: Real) -> f64 {
    f64::from_bits(x.to_bits())
}

fn pt(x: f64, y: f64) -> Point {
    Point { x: re(x), y: re(y) }
}

fn s(text: &str) -> String {
    text.to_string()
}

fn print(fragment: &Fragment) -> String {
    let mut out = String::new();
    for piece in &fragment.pieces {
        match piece {
            Piece::Text(s) => out.push_str(s),
            Piece::Number(x) => out.push_str(&format!("{}", num(*x))),
        }
    }
    out
}

fn text(t: &str) -> Piece {
    Piece::Text(s(t))
}

/// A state in which `A`, `B`, `C` are points, `l` is a line, `c` a circle and
/// `r` a number.
fn state() -> State {
    let mut state = State::new();
    let null = GObject::Null;
    state.decl(&DeclLeft::Direct(s("A")), (GObject::Point(pt(0.0, 0.0)), null)).unwrap();
    state.decl(&DeclLeft::Direct(s("B")), (GObject::Point(pt(1.0, 0.0)), null)).unwrap();
    state.decl(&DeclLeft::Direct(s("C")), (GObject::Point(pt(0.0, 1.0)), null)).unwrap();
    state.decl(&DeclLeft::Direct(s("l")), (GObject::Line(7), null)).unwrap();
    state
        .decl(&DeclLeft::Direct(s("c")), (GObject::Circle(Circle { O: pt(0.0, 0.0), r: re(2.0) }), null))
        .unwrap();
    state.decl(&DeclLeft::Direct(s("r")), (GObject::Number(re(3.0)), null)).unwrap();
    state
}

fn same(p: &Point, q: Point) -> bool {
    p.x.bits == q.x.bits && p.y.bits == q.y.bits
}

// Numbers and text.

#[test]
fn numbers_keep_their_encoding() {
    assert_eq!(Real::from_bits(0x3FF8_0000_0000_0000).to_bits(), 1.5f64.to_bits());
    assert_eq!(num(re(-0.0)).to_bits(), (-0.0f64).to_bits());
    assert_eq!(f64::from_bits(CM), 37.795);
}

#[test]
fn a_segment_runs_from_its_first_point_to_its_second() {
    let seg = Segment::new(pt(1.0, 2.0), pt(3.0, 4.0));
    assert!(same(&seg.from, pt(1.0, 2.0)));
    assert!(same(&seg.to, pt(3.0, 4.0)));
}

#[test]
fn fragments_print_in_order() {
    let mut f = Fragment::new();
    assert_eq!(print(&f), "");
    f.text("a");
    f.number(re(2.5));
    f.push(text("b"));
    let mut g = Fragment::new();
    g.text("c");
    f.append(&g);
    f.append(&g);
    assert_eq!(print(&f), "a2.5bcc");
    assert_eq!(print(&g), "c");
    assert_eq!(print(&f.clone()), "a2.5bcc");
}

// Maps.

#[test]
fn a_map_holds_the_last_value_of_each_key() {
    let mut d: Dict<u32> = Dict::new();
    assert!(d.get("a").is_none());
    assert!(!d.contains_key("a"));
    d.insert(s("a"), 1);
    d.insert(s("b"), 2);
    d.insert(s("a"), 3);
    assert_eq!(d.get("a"), Some(&3));
    assert_eq!(d.get("b"), Some(&2));
    assert!(d.contains_key("b"));
    assert!(d.get("c").is_none());
    assert!(d.get("").is_none());
    d.clear();
    assert!(d.get("a").is_none());
}

#[test]
fn extending_a_map_prefers_the_new_values() {
    let mut d: Dict<u32> = Dict::new();
    d.insert(s("a"), 1);
    d.insert(s("b"), 2);
    let mut e: Dict<u32> = Dict::new();
    e.insert(s("b"), 20);
    e.insert(s("c"), 30);
    d.extend(e);
    assert_eq!(d.get("a"), Some(&1));
    assert_eq!(d.get("b"), Some(&20));
    assert_eq!(d.get("c"), Some(&30));
    d.extend(Dict::new());
    assert_eq!(d.get("a"), Some(&1));
    assert_eq!(d.get("b"), Some(&20));
}

// Options.

#[test]
fn only_a_number_can_be_read_as_a_number() {
    assert!(matches!(ConfigValue::from_number(re(1.5)).try_into_f64(), Ok(x) if num(x) == 1.5));
    assert!(matches!(ConfigValue::from_str("1.5").try_into_f64(), Err(ConversionError::ToF64)));
    assert!(matches!(ConfigValue::from_bool(true).try_into_f64(), Err(ConversionError::ToF64)));
}

#[test]
fn option_values_are_written_without_quotes() {
    let show = |v: ConfigValue| {
        let mut f = Fragment::new();
        f.push(v.piece());
        print(&f)
    };
    assert_eq!(show(ConfigValue::from_str("#000000")), "#000000");
    assert_eq!(show(ConfigValue::from_bool(true)), "true");
    assert_eq!(show(ConfigValue::from_bool(false)), "false");
    assert_eq!(show(ConfigValue::from_number(re(10.0))), "10");
    assert_eq!(show(ConfigValue::from_number(re(0.5))), "0.5");
    assert_eq!(show(ConfigValue::from_str("a b").clone()), "a b");
}

#[test]
fn the_default_options() {
    let config = default_config();
    let number = |key: &str| match config.get(key) {
        Some(ConfigValue::Number(x)) => num(*x),
        other => panic!("{} is {:?}", key, other),
    };
    let string = |key: &str| match config.get(key) {
        Some(ConfigValue::String(x)) => x.clone(),
        other => panic!("{} is {:?}", key, other),
    };
    assert_eq!(number("width"), 10.0);
    assert_eq!(number("height"), 10.0);
    assert_eq!(string("color"), "#000000");
    assert_eq!(string("fill"), "none");
    assert_eq!(number("linewidth"), 1.5);
    assert_eq!(number("dotsize"), 2.5);
    assert_eq!(string("dotstroke"), "#000000");
    assert_eq!(string("dotfill"), "#000000");
    assert_eq!(number("dotwidth"), 0.0);
    assert_eq!(number("labelsize"), 15.0);
    assert_eq!(number("dist"), 10.0);
    assert_eq!(number("angle"), 0.0);
    assert_eq!(number("anglesize"), 20.0);
    assert_eq!(string("anglecolor"), "#000000");
    assert_eq!(number("anglewidth"), 1.5);
    assert_eq!(number("decorsize"), 5.0);
    assert_eq!(number("decorwidth"), 1.5);
    assert_eq!(string("decorcolor"), "#000000");
    assert_eq!(string("decorfill"), "none");
    assert_eq!(number("loc"), 0.5);
    assert_eq!(string("font"), "serif");
    assert!(config.get("label").is_none());
    assert!(config.get("dash").is_none());
    assert!(config.get("minX").is_none());
}

#[test]
fn setting_the_defaults_again_keeps_the_defaults() {
    let mut state = State::new();
    state.config(default_config()).unwrap();
    let fresh = State::new();
    for key in [
        "width", "height", "color", "fill", "linewidth", "dotsize", "dotstroke", "dotfill",
        "dotwidth", "labelsize", "dist", "angle", "anglesize", "anglecolor", "anglewidth",
        "decorsize", "decorwidth", "decorcolor", "decorfill", "loc", "font",
    ] {
        let same = match (state.option(key), fresh.option(key)) {
            (Some(ConfigValue::Number(a)), Some(ConfigValue::Number(b))) => a.bits == b.bits,
            (Some(ConfigValue::String(a)), Some(ConfigValue::String(b))) => a == b,
            _ => false,
        };
        assert!(same, "{}", key);
    }
    assert!(state.option("label").is_none());
}

#[test]
fn an_option_of_the_object_comes_before_one_of_the_drawing() {
    let global = default_config();
    let mut local: Config = Dict::new();
    put(&mut local, "color", ConfigValue::from_str("red"));
    let obj = DObject::Point(pt(0.0, 0.0));
    let styled = StyledDObject { obj: &obj, local_conf: Some(&local), global_conf: &global };
    assert!(matches!(styled.get("color"), Some(ConfigValue::String(c)) if c == "red"));
    assert!(matches!(styled.get("fill"), Some(ConfigValue::String(c)) if c == "none"));
    assert!(styled.get("label").is_none());
    let bare = StyledDObject { obj: &obj, local_conf: None, global_conf: &global };
    assert!(matches!(bare.get("color"), Some(ConfigValue::String(c)) if c == "#000000"));
}

// Methods.

fn chosen(name: &str, kinds: Vec<Kind>) -> Result<(Method, usize), FuncError> {
    select(name, &kinds).map(|Overload { method, index }| (method, index))
}

#[test]
fn the_first_overload_that_matches_is_chosen() {
    assert!(matches!(chosen("i", vec![Kind::Line, Kind::Line, Kind::Point]), Ok((Method::I, 0))));
    assert!(matches!(chosen("i", vec![Kind::Line, Kind::Circle, Kind::Point]), Ok((Method::I, 1))));
    assert!(matches!(chosen("i", vec![Kind::Circle, Kind::Line, Kind::Point]), Ok((Method::I, 2))));
    assert!(matches!(chosen("i", vec![Kind::Circle, Kind::Circle, Kind::Point]), Ok((Method::I, 3))));
    assert!(matches!(chosen("i", vec![Kind::Line, Kind::Line]), Ok((Method::I, 4))));
    assert!(matches!(chosen("i", vec![Kind::Line, Kind::Circle]), Ok((Method::I, 5))));
    assert!(matches!(chosen("i", vec![Kind::Circle, Kind::Line]), Ok((Method::I, 6))));
    assert!(matches!(chosen("i", vec![Kind::Circle, Kind::Circle]), Ok((Method::I, 7))));
    assert!(matches!(chosen("ab", vec![Kind::Point, Kind::Point, Kind::Point]), Ok((Method::Ab, 0))));
    assert!(matches!(chosen("ab", vec![Kind::Line, Kind::Line]), Ok((Method::Ab, 1))));
    assert!(matches!(chosen("on", vec![Kind::Circle, Kind::Number]), Ok((Method::On, 0))));
    assert!(matches!(chosen("on", vec![Kind::Point, Kind::Point, Kind::Number]), Ok((Method::On, 1))));
    assert!(matches!(chosen("rfl", vec![Kind::Point, Kind::Line]), Ok((Method::Rfl, 3))));
    assert!(matches!(chosen("rfl", vec![Kind::Line, Kind::Line]), Ok((Method::Rfl, 4))));
    assert!(matches!(chosen("scl", vec![Kind::Circle, Kind::Point, Kind::Number]), Ok((Method::Scl, 2))));
    assert!(matches!(chosen("rot", vec![Kind::Line, Kind::Point, Kind::Number]), Ok((Method::Rot, 1))));
    assert!(matches!(chosen("inv", vec![Kind::Circle, Kind::Circle]), Ok((Method::Inv, 2))));
    assert!(matches!(chosen("l", vec![Kind::Number, Kind::Number, Kind::Number]), Ok((Method::L, 1))));
    assert!(matches!(chosen("l", vec![Kind::Number, Kind::Number, Kind::Point]), Ok((Method::L, 2))));
    assert!(matches!(chosen("bary", vec![Kind::Trig, Kind::Number, Kind::Number, Kind::Number]), Ok((Method::Bary, 0))));
    assert!(matches!(chosen("isog-conj", vec![Kind::Trig, Kind::Point]), Ok((Method::IsogConj, 0))));
}

#[test]
fn every_method_has_its_name() {
    let names = [
        ("i", Method::I), ("perp", Method::Perp), ("par", Method::Par), ("proj", Method::Proj),
        ("pb", Method::Pb), ("ab", Method::Ab), ("tan", Method::Tan),
        ("outer-tan", Method::OuterTan), ("inner-tan", Method::InnerTan), ("mid", Method::Mid),
        ("rad-ax", Method::RadAx), ("polar", Method::Polar), ("on", Method::On),
        ("rfl", Method::Rfl), ("scl", Method::Scl), ("rot", Method::Rot), ("inv", Method::Inv),
        ("l", Method::L), ("circ", Method::Circ), ("cO", Method::CO), ("cI", Method::CI),
        ("cJ", Method::CJ), ("cG", Method::CG), ("cH", Method::CH), ("cK", Method::CK),
        ("cGe", Method::CGe), ("bary", Method::Bary), ("isog-conj", Method::IsogConj),
    ];
    let mut overloads = 0;
    for (name, method) in names {
        assert_eq!(Method::named(name), Some(method));
        let table = method.overloads();
        assert!(!table.is_empty());
        overloads += table.len();
        for (index, pattern) in table.iter().enumerate() {
            assert!(matches!(chosen(name, pattern.clone()), Ok((m, i)) if m == method && i == index));
        }
    }
    assert_eq!(overloads, 49);
    assert_eq!(Method::named("I"), None);
    assert_eq!(Method::named(""), None);
    assert_eq!(Method::named("midpoint"), None);
}

#[test]
fn calls_that_select_nothing() {
    assert!(matches!(chosen("mid", vec![Kind::Point]), Err(FuncError::ArgError)));
    assert!(matches!(chosen("mid", vec![]), Err(FuncError::ArgError)));
    assert!(matches!(chosen("mid", vec![Kind::Point, Kind::Line]), Err(FuncError::ArgError)));
    assert!(matches!(chosen("circ", vec![Kind::Null]), Err(FuncError::ArgError)));
    assert!(matches!(chosen("middle", vec![Kind::Point, Kind::Point]), Err(FuncError::NoFunc(n)) if n == "middle"));
    assert!(same_kinds(&vec![Kind::Point, Kind::Line], &vec![Kind::Point, Kind::Line]));
    assert!(!same_kinds(&vec![Kind::Point, Kind::Line], &vec![Kind::Point]));
    assert!(!same_kinds(&vec![Kind::Point, Kind::Line], &vec![Kind::Line, Kind::Point]));
}

#[test]
fn what_each_overload_leaves_in_its_slots() {
    assert_eq!(
        Method::I.results(),
        vec![
            (Slot::Point, Slot::Null),
            (Slot::Point, Slot::Point),
            (Slot::Point, Slot::Point),
            (Slot::Point, Slot::Point),
            (Slot::Point, Slot::Null),
            (Slot::Point, Slot::Point),
            (Slot::Point, Slot::Point),
            (Slot::Point, Slot::Point),
        ]
    );
    assert_eq!(Method::Circ.results(), vec![(Slot::Point, Slot::Number)]);
    assert_eq!(Method::Ab.results(), vec![(Slot::Line, Slot::Line), (Slot::Line, Slot::Line)]);
    assert_eq!(
        Method::Rot.results(),
        vec![(Slot::Point, Slot::Null), (Slot::Line, Slot::Null), (Slot::Circle, Slot::Null)]
    );
    assert_eq!(Method::Inv.results()[1], (Slot::LineOrCircle, Slot::Null));
    for method in [
        Method::I, Method::Perp, Method::Par, Method::Proj, Method::Pb, Method::Ab, Method::Tan,
        Method::OuterTan, Method::InnerTan, Method::Mid, Method::RadAx, Method::Polar,
        Method::On, Method::Rfl, Method::Scl, Method::Rot, Method::Inv, Method::L, Method::Circ,
        Method::CO, Method::CI, Method::CJ, Method::CG, Method::CH, Method::CK, Method::CGe,
        Method::Bary, Method::IsogConj,
    ] {
        assert_eq!(method.results().len(), method.overloads().len());
    }
    let mid = Overload { method: Method::Mid, index: 0 };
    assert!(mid.accepts(Kind::Point, Kind::Null));
    assert!(!mid.accepts(Kind::Point, Kind::Point));
    assert!(!mid.accepts(Kind::Line, Kind::Null));
    assert!(!Overload { method: Method::Mid, index: 1 }.accepts(Kind::Point, Kind::Null));
    let inv = Overload { method: Method::Inv, index: 2 };
    assert!(inv.accepts(Kind::Line, Kind::Null));
    assert!(inv.accepts(Kind::Circle, Kind::Null));
    assert!(!inv.accepts(Kind::Point, Kind::Null));
    assert!(Slot::Number.holds(Kind::Number) && !Slot::Number.holds(Kind::Null));
    let p = pt(0.0, 0.0);
    let ortho: DeclTerm<u8> = DeclTerm::Ortho(NumTerm::Known(re(0.0)), NumTerm::Known(re(0.0)));
    assert!(ortho.accepts(Kind::Point, Kind::Null) && !ortho.accepts(Kind::Number, Kind::Null));
    let named: DeclTerm<u8> = DeclTerm::Object(ArgTerm::Known(GObject::Trig(p, p, p)));
    assert!(named.accepts(Kind::Trig, Kind::Null) && !named.accepts(Kind::Trig, Kind::Trig));
    let call: DeclTerm<u8> = DeclTerm::Call(Overload { method: Method::Circ, index: 0 }, vec![]);
    assert!(call.accepts(Kind::Point, Kind::Number) && !call.accepts(Kind::Point, Kind::Null));
}

// Values.

#[test]
fn the_variant_of_each_value() {
    let p = pt(0.0, 0.0);
    assert_eq!(GObject::<u8>::Point(p).kind(), Kind::Point);
    assert_eq!(GObject::<u8>::Line(1).kind(), Kind::Line);
    assert_eq!(GObject::<u8>::Circle(Circle { O: p, r: re(1.0) }).kind(), Kind::Circle);
    assert_eq!(GObject::<u8>::Trig(p, p, p).kind(), Kind::Trig);
    assert_eq!(GObject::<u8>::Number(re(1.0)).kind(), Kind::Number);
    assert_eq!(GObject::<u8>::Null.kind(), Kind::Null);
    let terms: Vec<ArgTerm<u8>> = vec![
        ArgTerm::Known(GObject::Trig(p, p, p)),
        ArgTerm::Line(LineTerm::Through(p, p)),
        ArgTerm::Circle(CircleTerm::CenterPoint(p, p)),
        ArgTerm::Number(NumTerm::Known(re(1.0))),
        ArgTerm::Eval(s("1")),
    ];
    assert_eq!(
        kinds(&terms),
        vec![Kind::Trig, Kind::Line, Kind::Circle, Kind::Number, Kind::Number]
    );
}

#[test]
fn only_points_and_circles_are_drawables_as_they_are() {
    let p = pt(1.0, 2.0);
    assert!(matches!(GObject::<u8>::Point(p).into_drawable(), Ok(DObject::Point(q)) if same(&q, p)));
    assert!(matches!(
        GObject::<u8>::Circle(Circle { O: p, r: re(1.0) }).into_drawable(),
        Ok(DObject::Circle(c)) if same(&c.O, p) && num(c.r) == 1.0
    ));
    assert!(matches!(GObject::<u8>::Line(1).into_drawable(), Err(InterpretError::WrongGeometricType)));
    assert!(matches!(GObject::<u8>::Trig(p, p, p).into_drawable(), Err(InterpretError::WrongGeometricType)));
    assert!(matches!(GObject::<u8>::Number(re(1.0)).into_drawable(), Err(InterpretError::WrongGeometricType)));
    assert!(matches!(GObject::<u8>::Null.into_drawable(), Err(InterpretError::WrongGeometricType)));
    let corners = vec![pt(0.0, 0.0), pt(1.0, 0.0)];
    let copy = copy_points(&corners);
    assert_eq!(copy.len(), 2);
    assert!(same(&copy[1], pt(1.0, 0.0)));
    assert!(matches!(DObject::Polygon(corners).clone(), DObject::Polygon(c) if c.len() == 2));
}

#[test]
fn errors_of_the_parts_become_errors_of_the_interpreter() {
    assert!(matches!(
        InterpretError::from_fault(Fault::Calc(s("parallel"))),
        InterpretError::FuncError(FuncError::CalcError(m)) if m == "parallel"
    ));
    assert!(matches!(
        InterpretError::from_conversion(ConversionError::ToF64),
        InterpretError::WrongConfigType
    ));
    assert!(matches!(
        InterpretError::from_label(LabelError::WrongConfigType),
        InterpretError::WrongConfigType
    ));
    assert!(matches!(InterpretError::from_decor(DecorError::NoSuchDecor), InterpretError::NoSuchDecor));
    assert!(matches!(
        InterpretError::from_decor(DecorError::WrongConfigType),
        InterpretError::WrongConfigType
    ));
}

#[test]
fn a_failure_reports_the_kernels_fault_first() {
    let failure = || Failure::<u8> { before: vec![], error: InterpretError::MissingKey(s("Z")) };
    assert!(matches!(failure().report(Ok(())), InterpretError::MissingKey(k) if k == "Z"));
    assert!(matches!(
        failure().report(Err(Fault::Calc(s("no line")))),
        InterpretError::FuncError(FuncError::CalcError(m)) if m == "no line"
    ));
    assert!(matches!(
        failure().report(Err(Fault::Eval(s("no value")))),
        InterpretError::EvalError(m) if m == "no value"
    ));
    let with = failure().after(vec![ArgTerm::Eval(s("1")), ArgTerm::Eval(s("2"))]);
    assert_eq!(with.before.len(), 2);
    let with = with.after(vec![ArgTerm::Eval(s("0"))]);
    assert!(matches!(&with.before[0], ArgTerm::Eval(e) if e == "0"));
    assert!(matches!(&with.before[2], ArgTerm::Eval(e) if e == "2"));
    assert!(Failure::<u8>::at_once(InterpretError::NoSuchDecor).before.is_empty());
}

// From objects to terms.

#[test]
fn lines_by_name_and_by_points() {
    let state = state();
    assert!(matches!(state.get_linear(&Linear::Name(s("l"))), Ok(LineTerm::Known(7))));
    assert!(matches!(
        state.get_linear(&Linear::Line2P(s("A"), s("B"))),
        Ok(LineTerm::Through(a, b)) if same(&a, pt(0.0, 0.0)) && same(&b, pt(1.0, 0.0))
    ));
    assert!(matches!(state.get_linear(&Linear::Name(s("A"))), Err(InterpretError::WrongGeometricType)));
    assert!(matches!(state.get_linear(&Linear::Name(s("k"))), Err(InterpretError::MissingKey(k)) if k == "k"));
    assert!(matches!(
        state.get_linear(&Linear::Line2P(s("l"), s("Z"))),
        Err(InterpretError::WrongGeometricType)
    ));
    assert!(matches!(
        state.get_linear(&Linear::Line2P(s("A"), s("Z"))),
        Err(InterpretError::MissingKey(k)) if k == "Z"
    ));
    assert!(matches!(
        state.get_linear(&Linear::Line2P(s("Z"), s("l"))),
        Err(InterpretError::MissingKey(k)) if k == "Z"
    ));
}

#[test]
fn numbers_of_every_form() {
    let state = state();
    assert!(matches!(state.get_numeric(&Numeric::Number(re(4.0))), Ok(NumTerm::Known(x)) if num(x) == 4.0));
    assert!(matches!(state.get_numeric(&Numeric::Name(s("r"))), Ok(NumTerm::Known(x)) if num(x) == 3.0));
    assert!(matches!(
        state.get_numeric(&Numeric::Name(s("A"))),
        Err(f) if matches!(f.error, InterpretError::WrongGeometricType) && f.before.is_empty()
    ));
    assert!(matches!(
        state.get_numeric(&Numeric::Name(s("q"))),
        Err(f) if matches!(&f.error, InterpretError::MissingKey(k) if k == "q")
    ));
    assert!(matches!(
        state.get_numeric(&Numeric::Distance2P(s("A"), s("B"))),
        Ok(NumTerm::Dist2P(a, b)) if same(&a, pt(0.0, 0.0)) && same(&b, pt(1.0, 0.0))
    ));
    assert!(matches!(
        state.get_numeric(&Numeric::DistancePL(s("C"), Linear::Name(s("l")))),
        Ok(NumTerm::DistPL(c, LineTerm::Known(7))) if same(&c, pt(0.0, 1.0))
    ));
    assert!(matches!(
        state.get_numeric(&Numeric::DistancePL(s("l"), Linear::Name(s("zz")))),
        Err(f) if matches!(f.error, InterpretError::WrongGeometricType)
    ));
    assert!(matches!(
        state.get_numeric(&Numeric::Distance2L(Linear::Name(s("l")), Linear::Line2P(s("A"), s("B")))),
        Ok(NumTerm::Dist2L(LineTerm::Known(7), LineTerm::Through(_, _)))
    ));
    assert!(matches!(
        state.get_numeric(&Numeric::Angle3P(s("A"), s("B"), s("C"))),
        Ok(NumTerm::Angle3P(a, o, b))
            if same(&a, pt(0.0, 0.0)) && same(&o, pt(1.0, 0.0)) && same(&b, pt(0.0, 1.0))
    ));
    assert!(matches!(
        state.get_numeric(&Numeric::Angle2L(Linear::Line2P(s("A"), s("B")), Linear::Name(s("l")))),
        Ok(NumTerm::Angle2L(LineTerm::Through(_, _), LineTerm::Known(7)))
    ));
    // A fault in the second line comes after the first line.
    assert!(matches!(
        state.get_numeric(&Numeric::Angle2L(Linear::Line2P(s("A"), s("B")), Linear::Name(s("A")))),
        Err(f) if matches!(f.error, InterpretError::WrongGeometricType)
            && matches!(f.before.as_slice(), [ArgTerm::Line(LineTerm::Through(_, _))])
    ));
    assert!(matches!(
        state.get_numeric(&Numeric::Angle2L(Linear::Name(s("A")), Linear::Name(s("zz")))),
        Err(f) if matches!(f.error, InterpretError::WrongGeometricType) && f.before.is_empty()
    ));
}

#[test]
fn arguments_of_every_form() {
    let state = state();
    assert!(matches!(state.get_arg_obj(&Object::Name(s("l"))), Ok(ArgTerm::Known(GObject::Line(7)))));
    assert!(matches!(state.get_arg_obj(&Object::Name(s("r"))), Ok(ArgTerm::Known(GObject::Number(_)))));
    assert!(matches!(
        state.get_arg_obj(&Object::Line2P(s("A"), s("B"))),
        Ok(ArgTerm::Line(LineTerm::Through(_, _)))
    ));
    assert!(matches!(
        state.get_arg_obj(&Object::Triangle(s("A"), s("B"), s("C"))),
        Ok(ArgTerm::Known(GObject::Trig(a, b, c)))
            if same(&a, pt(0.0, 0.0)) && same(&b, pt(1.0, 0.0)) && same(&c, pt(0.0, 1.0))
    ));
    assert!(matches!(
        state.get_arg_obj(&Object::Numeric(Numeric::Number(re(2.0)))),
        Ok(ArgTerm::Number(NumTerm::Known(_)))
    ));
    assert!(matches!(state.get_arg_obj(&Object::Eval(s("1 + 1"))), Ok(ArgTerm::Eval(e)) if e == "1 + 1"));
    assert!(matches!(
        state.get_arg_obj(&Object::Circ3P(s("A"), s("B"), s("C"))),
        Ok(ArgTerm::Circle(CircleTerm::Through(_, _, _)))
    ));
    assert!(matches!(
        state.get_arg_obj(&Object::CircOr(s("A"), Numeric::Name(s("r")))),
        Ok(ArgTerm::Circle(CircleTerm::CenterRadius(o, NumTerm::Known(r))))
            if same(&o, pt(0.0, 0.0)) && num(r) == 3.0
    ));
    assert!(matches!(
        state.get_arg_obj(&Object::CircOA(s("A"), s("B"))),
        Ok(ArgTerm::Circle(CircleTerm::CenterPoint(_, _)))
    ));
    assert!(matches!(
        state.get_arg_obj(&Object::CircDiam(s("A"), s("B"))),
        Ok(ArgTerm::Circle(CircleTerm::Diameter(_, _)))
    ));
    assert!(matches!(
        state.get_arg_obj(&Object::CircOr(s("l"), Numeric::Name(s("zz")))),
        Err(f) if matches!(f.error, InterpretError::WrongGeometricType)
    ));
    // What only a drawing can hold is no argument.
    for obj in [
        Object::Arc(s("A"), s("B"), s("C")),
        Object::ArcO(s("A"), s("B"), s("C")),
        Object::Angle3P(s("A"), s("B"), s("C")),
        Object::Polygon(vec![s("A"), s("B"), s("C")]),
    ] {
        assert!(matches!(
            state.get_arg_obj(&obj),
            Err(f) if matches!(f.error, InterpretError::WrongGeometricType)
        ));
    }
    assert!(matches!(
        state.get_common(&Object::Line2P(s("A"), s("B"))),
        Err(f) if matches!(f.error, InterpretError::WrongGeometricType)
    ));
    assert!(matches!(state.get_common(&Object::Name(s("c"))), Ok(ArgTerm::Known(GObject::Circle(_)))));
}

#[test]
fn drawables_of_every_form() {
    let state = state();
    assert!(matches!(
        state.get_draw_obj(&Object::Line2P(s("A"), s("B"))),
        Ok(DrawTerm::Known(DObject::Segment(seg)))
            if same(&seg.from, pt(0.0, 0.0)) && same(&seg.to, pt(1.0, 0.0))
    ));
    assert!(matches!(
        state.get_draw_obj(&Object::Arc(s("A"), s("B"), s("C"))),
        Ok(DrawTerm::Arc3P(a, b, c))
            if same(&a, pt(0.0, 0.0)) && same(&b, pt(1.0, 0.0)) && same(&c, pt(0.0, 1.0))
    ));
    assert!(matches!(
        state.get_draw_obj(&Object::ArcO(s("B"), s("A"), s("C"))),
        Ok(DrawTerm::ArcO(a, o, b))
            if same(&a, pt(1.0, 0.0)) && same(&o, pt(0.0, 0.0)) && same(&b, pt(0.0, 1.0))
    ));
    assert!(matches!(
        state.get_draw_obj(&Object::Polygon(vec![s("A"), s("B"), s("C")])),
        Ok(DrawTerm::Known(DObject::Polygon(ps)))
            if ps.len() == 3 && same(&ps[0], pt(0.0, 0.0)) && same(&ps[2], pt(0.0, 1.0))
    ));
    assert!(matches!(
        state.get_draw_obj(&Object::Polygon(vec![])),
        Ok(DrawTerm::Known(DObject::Polygon(ps))) if ps.is_empty()
    ));
    assert!(matches!(
        state.get_draw_obj(&Object::Polygon(vec![s("A"), s("l"), s("zz")])),
        Err(f) if matches!(f.error, InterpretError::WrongGeometricType)
    ));
    assert!(matches!(
        state.get_draw_obj(&Object::Polygon(vec![s("A"), s("zz"), s("l")])),
        Err(f) if matches!(&f.error, InterpretError::MissingKey(k) if k == "zz")
    ));
    assert!(matches!(
        state.get_draw_obj(&Object::Angle3P(s("A"), s("B"), s("C"))),
        Ok(DrawTerm::Known(DObject::Angle3P(_, _, _)))
    ));
    assert!(matches!(state.get_draw_obj(&Object::Name(s("A"))), Ok(DrawTerm::Known(DObject::Point(_)))));
    assert!(matches!(state.get_draw_obj(&Object::Name(s("c"))), Ok(DrawTerm::Known(DObject::Circle(_)))));
    assert!(matches!(
        state.get_draw_obj(&Object::CircOA(s("A"), s("B"))),
        Ok(DrawTerm::Circle(CircleTerm::CenterPoint(_, _)))
    ));
    for obj in [
        Object::Name(s("l")),
        Object::Name(s("r")),
        Object::Triangle(s("A"), s("B"), s("C")),
        Object::Numeric(Numeric::Number(re(1.0))),
        Object::Eval(s("1")),
    ] {
        assert!(matches!(
            state.get_draw_obj(&obj),
            Err(f) if matches!(f.error, InterpretError::WrongGeometricType)
        ));
    }
}

#[test]
fn right_sides_of_every_form() {
    let state = state();
    assert!(matches!(
        state.decl_right(&DeclRight::OrthoCoord(Numeric::Number(re(1.0)), Numeric::Name(s("r")))),
        Ok(DeclTerm::Ortho(NumTerm::Known(x), NumTerm::Known(y))) if num(x) == 1.0 && num(y) == 3.0
    ));
    assert!(matches!(
        state.decl_right(&DeclRight::PolarCoord(Numeric::Name(s("r")), Numeric::Number(re(0.5)))),
        Ok(DeclTerm::Polar(NumTerm::Known(x), NumTerm::Known(y))) if num(x) == 3.0 && num(y) == 0.5
    ));
    assert!(matches!(
        state.decl_right(&DeclRight::Object(Object::Name(s("c")))),
        Ok(DeclTerm::Object(ArgTerm::Known(GObject::Circle(_))))
    ));
    assert!(matches!(
        state.decl_right(&DeclRight::Expr(s("i"), vec![Object::Line2P(s("A"), s("B")), Object::Name(s("c")), Object::Name(s("A"))])),
        Ok(DeclTerm::Call(Overload { method: Method::I, index: 1 }, args)) if args.len() == 3
    ));
    // A fault in the second coordinate comes after the first coordinate.
    assert!(matches!(
        state.decl_right(&DeclRight::OrthoCoord(
            Numeric::Distance2P(s("A"), s("B")),
            Numeric::Name(s("zz")),
        )),
        Err(f) if matches!(&f.error, InterpretError::MissingKey(k) if k == "zz")
            && matches!(f.before.as_slice(), [ArgTerm::Number(NumTerm::Dist2P(_, _))])
    ));
    // A fault in an argument comes after the arguments to its left.
    assert!(matches!(
        state.decl_right(&DeclRight::Expr(s("nothing"), vec![
            Object::Name(s("A")),
            Object::Line2P(s("A"), s("B")),
            Object::Name(s("zz")),
            Object::Name(s("yy")),
        ])),
        Err(f) if matches!(&f.error, InterpretError::MissingKey(k) if k == "zz")
            && matches!(f.before.as_slice(), [ArgTerm::Known(GObject::Point(_)), ArgTerm::Line(_)])
    ));
    // The method is looked up after its arguments.
    assert!(matches!(
        state.decl_right(&DeclRight::Expr(s("nothing"), vec![Object::Name(s("A"))])),
        Err(f) if matches!(&f.error, InterpretError::FuncError(FuncError::NoFunc(m)) if m == "nothing")
            && matches!(f.before.as_slice(), [ArgTerm::Known(GObject::Point(_))])
    ));
    assert!(matches!(
        state.decl_right(&DeclRight::Expr(s("mid"), vec![Object::Name(s("A")), Object::Name(s("l"))])),
        Err(f) if matches!(f.error, InterpretError::FuncError(FuncError::ArgError)) && f.before.len() == 2
    ));
}

// The interpreter.

#[test]
fn declarations_bind_names() {
    let mut state = State::new();
    let p = GObject::Point(pt(1.0, 2.0));
    let q = GObject::Number(re(5.0));
    state.decl(&DeclLeft::Destruct(s("P"), s("Q")), (p, q)).unwrap();
    assert!(matches!(state.get("P"), Some(GObject::Point(_))));
    assert!(matches!(state.get("Q"), Some(GObject::Number(_))));
    state.decl(&DeclLeft::Destruct(s("Q"), s("_")), (p, q)).unwrap();
    assert!(matches!(state.get("Q"), Some(GObject::Point(_))));
    assert!(state.get("_").is_none());
    // A single name may be the underscore.
    state.decl(&DeclLeft::Direct(s("_")), (q, p)).unwrap();
    assert!(matches!(state.get("_"), Some(GObject::Number(_))));
    state.decl(&DeclLeft::Destruct(s("P"), s("_")), (q, p)).unwrap();
    assert!(matches!(state.get("_"), Some(GObject::Number(_))));
    assert!(matches!(state.get("P"), Some(GObject::Number(_))));
}

#[test]
fn what_an_expression_can_refer_to() {
    let state = state();
    assert!(matches!(state.get_var("pi"), Some(Variable::Pi)));
    assert!(matches!(state.get_var("e"), Some(Variable::E)));
    assert!(matches!(state.get_var("deg"), Some(Variable::Deg)));
    assert!(matches!(state.get_var("r"), Some(Variable::Number(x)) if num(x) == 3.0));
    assert!(state.get_var("A").is_none());
    assert!(state.get_var("zz").is_none());
    assert_eq!(state.eval_func("sqrt", 1), Ok(Intrinsic::Sqrt));
    assert_eq!(state.eval_func("sin", 2), Ok(Intrinsic::Sin));
    assert_eq!(state.eval_func("cos", 1), Ok(Intrinsic::Cos));
    assert_eq!(state.eval_func("tan", 1), Ok(Intrinsic::Tan));
    assert_eq!(state.eval_func("tan", 0), Err(FuncEvalError::TooFewArguments));
    assert_eq!(state.eval_func("exp", 1), Err(FuncEvalError::UnknownFunction));
    assert_eq!(state.eval_func("exp", 0), Err(FuncEvalError::UnknownFunction));
}

#[test]
fn the_frame_is_asked_with_the_options_of_the_drawing() {
    let mut state = State::new();
    let asked = state.frame_request().unwrap();
    assert_eq!(num(asked.width), 10.0);
    assert_eq!(num(asked.height), 10.0);
    assert!(asked.min_x.is_none() && asked.min_y.is_none());
    let mut config: Config = Dict::new();
    put(&mut config, "minY", ConfigValue::from_number(re(-1.0)));
    put(&mut config, "minX", ConfigValue::from_str("left"));
    put(&mut config, "height", ConfigValue::from_number(re(4.0)));
    state.config(config).unwrap();
    let asked = state.frame_request().unwrap();
    assert_eq!(num(asked.height), 4.0);
    assert!(asked.min_x.is_none());
    assert!(matches!(asked.min_y, Some(y) if num(y) == -1.0));
    let mut config: Config = Dict::new();
    put(&mut config, "width", ConfigValue::from_bool(true));
    state.config(config).unwrap();
    assert!(matches!(state.frame_request(), Err(InterpretError::WrongConfigType)));
    let frame = propose::interpret::Frame { width: re(1.0), height: re(1.0), min_x: re(0.0), min_y: re(0.0) };
    assert!(matches!(state.emit(&frame), Err(InterpretError::WrongConfigType)));
}

#[test]
fn what_is_asked_before_an_object_is_drawn() {
    let mut state = State::new();
    let dot = DObject::Point(pt(0.0, 0.0));
    let mark = DObject::Angle3P(pt(1.0, 0.0), pt(0.0, 0.0), pt(0.0, 1.0));
    let asked = state.draw_request(&dot, None).unwrap();
    assert!(asked.mark_size.is_none() && asked.label.is_none());
    let asked = state.draw_request(&mark, None).unwrap();
    assert!(matches!(asked.mark_size, Some(x) if num(x) == 20.0));
    let mut local: Config = Dict::new();
    put(&mut local, "label", ConfigValue::from_str("P"));
    put(&mut local, "loc", ConfigValue::from_number(re(0.25)));
    let asked = state.draw_request(&dot, Some(&local)).unwrap();
    let label = asked.label.unwrap();
    assert_eq!(
        (num(label.size), num(label.dist), num(label.angle), num(label.loc)),
        (15.0, 10.0, 0.0, 0.25)
    );
    put(&mut local, "dist", ConfigValue::from_str("far"));
    assert!(state.draw_request(&dot, Some(&local)).unwrap().label.is_none());
    let mut config: Config = Dict::new();
    put(&mut config, "anglesize", ConfigValue::from_str("small"));
    state.config(config).unwrap();
    assert!(matches!(state.draw_request(&mark, None), Err(InterpretError::WrongConfigType)));
    assert!(state.draw_request(&dot, None).is_ok());
}

#[test]
fn what_is_asked_before_an_object_is_decorated() {
    let state = State::new();
    let seg = DObject::Segment(Segment::new(pt(0.0, 0.0), pt(1.0, 0.0)));
    for (name, glyph) in [("|", Glyph::Tick), ("||", Glyph::DoubleTick), (">", Glyph::Arrow)] {
        let asked = state.decor_request(&seg, None, name).unwrap();
        assert_eq!(asked.glyph, glyph);
        assert_eq!((num(asked.loc), num(asked.size)), (0.5, 5.0));
        assert_eq!(Glyph::named(name), Some(glyph));
    }
    assert_eq!(Glyph::named("|||"), None);
    assert!(matches!(state.decor_request(&seg, None, "<"), Err(InterpretError::NoSuchDecor)));
    let mut local: Config = Dict::new();
    put(&mut local, "decorsize", ConfigValue::from_str("big"));
    assert!(matches!(
        state.decor_request(&seg, Some(&local), "|"),
        Err(InterpretError::WrongConfigType)
    ));
    let global = default_config();
    let styled = StyledDObject { obj: &seg, local_conf: Some(&local), global_conf: &global };
    assert!(matches!(DecorConfig::get_from_styled_dobj(&styled), Err(DecorError::WrongConfigType)));
    assert!(matches!(styled.decor_request("<"), Err(DecorError::WrongConfigType)));
    let styled = StyledDObject { obj: &seg, local_conf: None, global_conf: &global };
    assert!(matches!(styled.decor_request("<"), Err(DecorError::NoSuchDecor)));
    let config = DecorConfig::get_from_styled_dobj(&styled).unwrap();
    assert_eq!((num(config.loc), num(config.size), num(config.width)), (0.5, 5.0, 1.5));
    assert_eq!((config.color.as_str(), config.fill.as_str()), ("#000000", "none"));
}

// Elements.

#[test]
fn the_elements_as_they_are_written() {
    let none = Fragment::new();
    let mut dash = Fragment::new();
    dash.text(" stroke-dasharray=\"4\"");
    assert_eq!(
        print(&write_line(re(1.0), re(-2.0), re(3.5), re(0.0), text("red"), Piece::Number(re(2.0)), &dash)),
        "<line x1=\"1cm\" y1=\"-2cm\" x2=\"3.5cm\" y2=\"0cm\" stroke=\"red\" stroke-width=\"2\" stroke-dasharray=\"4\"/>"
    );
    assert_eq!(
        print(&write_line_px(re(1.0), re(-2.0), re(3.5), re(0.0), text("red"), Piece::Number(re(2.0)))),
        "<line x1=\"1\" y1=\"-2\" x2=\"3.5\" y2=\"0\" stroke=\"red\" stroke-width=\"2\"/>"
    );
    assert_eq!(
        print(&write_circle(re(1.0), re(2.0), Piece::Number(re(3.0)), "cm\"", text("a"), text("b"), text("c"), &none)),
        "<circle cx=\"1cm\" cy=\"2cm\" r=\"3cm\" stroke=\"a\" fill=\"b\" stroke-width=\"c\"/>"
    );
    assert_eq!(
        print(&write_circle(re(1.0), re(2.0), Piece::Number(re(3.0)), "\"", text("a"), text("b"), text("c"), &none)),
        "<circle cx=\"1cm\" cy=\"2cm\" r=\"3\" stroke=\"a\" fill=\"b\" stroke-width=\"c\"/>"
    );
    assert_eq!(
        print(&write_arc(re(1.0), re(2.0), re(3.0), true, true, re(4.0), re(5.0), text("a"), text("b"), &none)),
        "<path d=\"M 1,2 A 3 3 0 1 0 4,5\" fill=\"none\" stroke=\"a\" stroke-width=\"b\"/>"
    );
    assert_eq!(
        print(&write_arc(re(1.0), re(2.0), re(3.0), false, false, re(4.0), re(5.0), text("a"), text("b"), &dash)),
        "<path d=\"M 1,2 A 3 3 0 0 1 4,5\" fill=\"none\" stroke=\"a\" stroke-width=\"b\" stroke-dasharray=\"4\"/>"
    );
    let places = vec![(re(0.0), re(1.0)), (re(2.0), re(3.0)), (re(4.0), re(5.0))];
    assert_eq!(print(&write_corners(&places)), "0,1 2,3 4,5");
    assert_eq!(print(&write_corners(&places[..1].to_vec())), "0,1");
    assert_eq!(print(&write_corners(&vec![])), "");
    assert_eq!(
        print(&write_polygon(&places, text("blue"))),
        "<polygon points=\"0,1 2,3 4,5\" fill=\"blue\"/>"
    );
    assert_eq!(
        print(&write_polyline((re(0.0), re(1.0)), (re(2.0), re(-3.0)), (re(4.0), re(5.0)), text("a"), text("b"))),
        "<polyline points=\"0,-1 2,--3 4,-5\" fill=\"none\" stroke=\"a\" stroke-width=\"b\"/>"
    );
}

fn rendered(obj: &DObject, outline: &Outline, local: Option<&Config>) -> Result<String, InterpretError> {
    let global = default_config();
    let styled = StyledDObject { obj, local_conf: local, global_conf: &global };
    styled.render(outline).map(|f| print(&f))
}

#[test]
fn each_drawable_has_its_element() {
    let p = pt(0.0, 0.0);
    let arc = propose::structs::Arc { from: p, to: p, O: p, r: re(1.0), sweep: true, large_arc: false, angle: re(1.0) };
    assert_eq!(
        rendered(&DObject::Arc(arc), &Outline::Arc { x1: re(1.0), y1: re(2.0), r: re(3.0), x2: re(4.0), y2: re(5.0) }, None).unwrap(),
        "<path d=\"M 1,2 A 3 3 0 0 0 4,5\" fill=\"none\" stroke=\"#000000\" stroke-width=\"1.5\"/>"
    );
    assert_eq!(
        rendered(&DObject::Polygon(vec![p, p]), &Outline::Polygon { corners: vec![(re(1.0), re(2.0)), (re(3.0), re(4.0))] }, None).unwrap(),
        "<polygon points=\"1,2 3,4\" fill=\"none\"/>"
    );
    assert_eq!(
        rendered(&DObject::Angle3P(p, p, p), &Outline::Angle3P { x1: re(1.0), y1: re(2.0), r: re(3.0), large_arc: true, sweep: false, x2: re(4.0), y2: re(5.0) }, None).unwrap(),
        "<path d=\"M 1,2 A 3 3 0 1 1 4,5\" fill=\"none\" stroke=\"#000000\" stroke-width=\"1.5\"/>"
    );
    let mut local: Config = Dict::new();
    put(&mut local, "dash", ConfigValue::from_str("2 1"));
    put(&mut local, "dotsize", ConfigValue::from_number(re(7.0)));
    put(&mut local, "dotwidth", ConfigValue::from_number(re(1.0)));
    put(&mut local, "dotstroke", ConfigValue::from_str("red"));
    // A dot has no dashes.
    assert_eq!(
        rendered(&DObject::Point(p), &Outline::Point { cx: re(1.0), cy: re(2.0) }, Some(&local)).unwrap(),
        "<circle cx=\"1cm\" cy=\"2cm\" r=\"7\" stroke=\"red\" fill=\"#000000\" stroke-width=\"1\"/>"
    );
    assert_eq!(
        rendered(&DObject::Circle(Circle { O: p, r: re(1.0) }), &Outline::Circle { cx: re(1.0), cy: re(2.0), r: re(3.0) }, Some(&local)).unwrap(),
        "<circle cx=\"1cm\" cy=\"2cm\" r=\"3cm\" stroke=\"#000000\" fill=\"none\" stroke-width=\"1.5\" stroke-dasharray=\"2 1\"/>"
    );
    // An empty string for the dashes is as good as none.
    put(&mut local, "dash", ConfigValue::from_str(""));
    assert_eq!(
        rendered(&DObject::Segment(Segment::new(p, p)), &Outline::Segment { x1: re(1.0), y1: re(2.0), x2: re(3.0), y2: re(4.0) }, Some(&local)).unwrap(),
        "<line x1=\"1cm\" y1=\"2cm\" x2=\"3cm\" y2=\"4cm\" stroke=\"#000000\" stroke-width=\"1.5\"/>"
    );
    put(&mut local, "dash", ConfigValue::from_bool(true));
    assert!(rendered(&DObject::Segment(Segment::new(p, p)), &Outline::Segment { x1: re(1.0), y1: re(2.0), x2: re(3.0), y2: re(4.0) }, Some(&local))
        .unwrap()
        .ends_with(" stroke-dasharray=\"true\"/>"));
    assert!(matches!(
        rendered(&DObject::Segment(Segment::new(p, p)), &Outline::Point { cx: re(1.0), cy: re(2.0) }, None),
        Err(InterpretError::WrongGeometricType)
    ));
    put(&mut local, "anglesize", ConfigValue::from_str("x"));
    assert!(matches!(
        rendered(&DObject::Angle3P(p, p, p), &Outline::Angle3P { x1: re(1.0), y1: re(2.0), r: re(3.0), large_arc: true, sweep: false, x2: re(4.0), y2: re(5.0) }, Some(&local)),
        Err(InterpretError::WrongConfigType)
    ));
}

#[test]
fn an_option_that_an_element_needs_must_be_set() {
    let empty: Config = Dict::new();
    let obj = DObject::Point(pt(0.0, 0.0));
    let styled = StyledDObject { obj: &obj, local_conf: None, global_conf: &empty };
    assert!(matches!(
        styled.render(&Outline::Point { cx: re(0.0), cy: re(0.0) }),
        Err(InterpretError::WrongConfigType)
    ));
    let metrics = LabelMetrics { x: re(0.0), y: re(0.0), dy: re(0.0), sub_size: re(0.0) };
    assert!(matches!(styled.label(&metrics), Err(LabelError::WrongConfigType)));
    assert!(matches!(styled.label_request(), Err(LabelError::WrongConfigType)));
    let tick = Strokes::Tick { x1: re(0.0), y1: re(0.0), x2: re(0.0), y2: re(0.0) };
    assert!(matches!(styled.decor("|", &tick), Err(InterpretError::WrongConfigType)));
}

// Labels.

#[test]
fn the_first_underscore_opens_an_index() {
    assert_eq!(find_underscore("A_1"), Some(1));
    assert_eq!(find_underscore("_"), Some(0));
    assert_eq!(find_underscore("a_b_c"), Some(1));
    assert_eq!(find_underscore("αβ_γ"), Some(2));
    assert_eq!(find_underscore("abc"), None);
    assert_eq!(find_underscore(""), None);
    let words = |v: ConfigValue| print(&write_words(&v, re(4.5), re(7.5)));
    assert_eq!(words(ConfigValue::from_str("P")), "P");
    assert_eq!(
        words(ConfigValue::from_str("P_1")),
        "P<tspan dy=\"4.5\" font-size=\"7.5\">1</tspan>"
    );
    assert_eq!(
        words(ConfigValue::from_str("a_b_c")),
        "a<tspan dy=\"4.5\" font-size=\"7.5\">b_c</tspan>"
    );
    assert_eq!(words(ConfigValue::from_str("α_")), "α<tspan dy=\"4.5\" font-size=\"7.5\"></tspan>");
    assert_eq!(words(ConfigValue::from_number(re(3.0))), "3");
    assert_eq!(words(ConfigValue::from_bool(false)), "false");
}

#[test]
fn a_label_is_a_text_element() {
    let global = default_config();
    let mut local: Config = Dict::new();
    put(&mut local, "label", ConfigValue::from_str("M"));
    put(&mut local, "font", ConfigValue::from_str("sans"));
    put(&mut local, "labelsize", ConfigValue::from_number(re(12.0)));
    let obj = DObject::Point(pt(0.0, 0.0));
    let styled = StyledDObject { obj: &obj, local_conf: Some(&local), global_conf: &global };
    let metrics = LabelMetrics { x: re(1.25), y: re(-2.0), dy: re(3.6), sub_size: re(6.0) };
    assert_eq!(
        print(&styled.label(&metrics).unwrap()),
        "<text font-size=\"12\" font-family=\"sans\" font-style=\"italic\" text-anchor=\"middle\" dominant-baseline=\"middle\" x=\"1.25cm\" y=\"-2cm\">M</text>"
    );
    let bare = StyledDObject { obj: &obj, local_conf: None, global_conf: &global };
    assert!(matches!(bare.label(&metrics), Err(LabelError::WrongConfigType)));
    put(&mut local, "angle", ConfigValue::from_bool(true));
    let styled = StyledDObject { obj: &obj, local_conf: Some(&local), global_conf: &global };
    assert!(matches!(styled.label(&metrics), Err(LabelError::WrongConfigType)));
}

// Decorations.

#[test]
fn the_decorations_as_they_are_written() {
    let global = default_config();
    let mut local: Config = Dict::new();
    put(&mut local, "decorcolor", ConfigValue::from_str("blue"));
    put(&mut local, "decorwidth", ConfigValue::from_number(re(2.0)));
    let obj = DObject::Point(pt(0.0, 0.0));
    let styled = StyledDObject { obj: &obj, local_conf: Some(&local), global_conf: &global };
    let tick = Strokes::Tick { x1: re(1.0), y1: re(2.0), x2: re(3.0), y2: re(4.0) };
    assert_eq!(
        print(&styled.decor("|", &tick).unwrap()),
        "<line x1=\"1\" y1=\"2\" x2=\"3\" y2=\"4\" stroke=\"blue\" stroke-width=\"2\"/>"
    );
    let two = Strokes::DoubleTick {
        ax1: re(1.0), ay1: re(2.0), ax2: re(3.0), ay2: re(4.0),
        bx1: re(5.0), by1: re(6.0), bx2: re(7.0), by2: re(8.0),
    };
    assert_eq!(
        print(&styled.decor("||", &two).unwrap()),
        "<line x1=\"1\" y1=\"2\" x2=\"3\" y2=\"4\" stroke=\"blue\" stroke-width=\"2\"/>\
         <line x1=\"5\" y1=\"6\" x2=\"7\" y2=\"8\" stroke=\"blue\" stroke-width=\"2\"/>"
    );
    let arrow = Strokes::Arrow { a: (re(1.0), re(2.0)), b: (re(3.0), re(4.0)), c: (re(5.0), re(6.0)) };
    assert_eq!(
        print(&styled.decor(">", &arrow).unwrap()),
        "<polyline points=\"1,-2 3,-4 5,-6\" fill=\"none\" stroke=\"blue\" stroke-width=\"2\"/>"
    );
    assert!(matches!(styled.decor(">", &tick), Err(InterpretError::DecorObjNotSupported)));
    assert!(matches!(styled.decor("||", &tick), Err(InterpretError::DecorObjNotSupported)));
    assert!(matches!(styled.decor("x", &tick), Err(InterpretError::NoSuchDecor)));
}
