//! From the objects of a script to terms: names are looked up, and each value
//! is checked to be of the variant that its place asks for.
use crate::ast::{DeclRight, Linear, Numeric, Object};
use crate::functions::{select, selected};
use crate::interpret::{InterpretError, InterpreterState};
use crate::structs::{Point, Segment};
use crate::terms::{
    kinds_of, ArgTerm, CircleTerm, DeclTerm, DeclView, DrawTerm, DrawView, Fail, Failure, LineTerm,
    NumTerm,
};
use crate::utils::{DObject, Figure, FuncError, FuncFailure, GObject, Kind};
use vstd::prelude::*;

verus! {

/// The value bound to `name`. A name that nothing is bound to is a
/// `MissingKey`.
pub open spec fn lookup<L>(env: Map<Seq<char>, GObject<L>>, name: String) -> Result<
    GObject<L>,
    InterpretError,
> {
    if env.contains_key(name@) {
        Ok(env[name@])
    } else {
        Err(InterpretError::MissingKey(name))
    }
}

/// The point bound to `name`. A value that is no point is a
/// `WrongGeometricType`.
pub open spec fn point<L>(env: Map<Seq<char>, GObject<L>>, name: String) -> Result<
    Point,
    InterpretError,
> {
    match lookup(env, name) {
        Err(e) => Err(e),
        Ok(GObject::Point(p)) => Ok(p),
        Ok(_) => Err(InterpretError::WrongGeometricType),
    }
}

/// The points bound to two names. The first name that fails decides.
pub open spec fn points2<L>(env: Map<Seq<char>, GObject<L>>, a: String, b: String) -> Result<
    (Point, Point),
    InterpretError,
> {
    match point(env, a) {
        Err(e) => Err(e),
        Ok(pa) => match point(env, b) {
            Err(e) => Err(e),
            Ok(pb) => Ok((pa, pb)),
        },
    }
}

/// The points bound to three names. The first name that fails decides.
pub open spec fn points3<L>(
    env: Map<Seq<char>, GObject<L>>,
    a: String,
    b: String,
    c: String,
) -> Result<(Point, Point, Point), InterpretError> {
    match points2(env, a, b) {
        Err(e) => Err(e),
        Ok((pa, pb)) => match point(env, c) {
            Err(e) => Err(e),
            Ok(pc) => Ok((pa, pb, pc)),
        },
    }
}

/// The points bound to a run of names. The first name that fails decides.
pub open spec fn points<L>(env: Map<Seq<char>, GObject<L>>, names: Seq<String>) -> Result<
    Seq<Point>,
    InterpretError,
>
    decreases names.len(),
{
    if names.len() == 0 {
        Ok(Seq::empty())
    } else {
        match points(env, names.drop_last()) {
            Err(e) => Err(e),
            Ok(ps) => match point(env, names.last()) {
                Err(e) => Err(e),
                Ok(p) => Ok(ps.push(p)),
            },
        }
    }
}

/// The term for a line: a name must be bound to a line, and a line through
/// two points needs two names of points.
pub open spec fn linear<L>(env: Map<Seq<char>, GObject<L>>, lin: Linear) -> Result<
    LineTerm<L>,
    InterpretError,
> {
    match lin {
        Linear::Name(s) => match lookup(env, s) {
            Err(e) => Err(e),
            Ok(GObject::Line(l)) => Ok(LineTerm::Known(l)),
            Ok(_) => Err(InterpretError::WrongGeometricType),
        },
        Linear::Line2P(a, b) => match points2(env, a, b) {
            Err(e) => Err(e),
            Ok((pa, pb)) => Ok(LineTerm::Through(pa, pb)),
        },
    }
}

/// A result whose fault has nothing to compute before it.
pub open spec fn at_once<T, L>(r: Result<T, InterpretError>) -> Result<T, Fail<L>> {
    match r {
        Ok(t) => Ok(t),
        Err(e) => Err(Fail::at_once(e)),
    }
}

/// The term for a pair of lines. A fault in the second line comes after the
/// first line has been computed.
pub open spec fn linear2<L>(env: Map<Seq<char>, GObject<L>>, k: Linear, l: Linear) -> Result<
    (LineTerm<L>, LineTerm<L>),
    Fail<L>,
> {
    match linear(env, k) {
        Err(e) => Err(Fail::at_once(e)),
        Ok(kt) => match linear(env, l) {
            Err(e) => Err(Fail::at_once(e).after(seq![ArgTerm::Line(kt)])),
            Ok(lt) => Ok((kt, lt)),
        },
    }
}

/// The term for a number: a literal stands for itself, a name must be bound
/// to a number, a distance or an angle is left for the kernel.
pub open spec fn numeric<L>(env: Map<Seq<char>, GObject<L>>, num: Numeric) -> Result<
    NumTerm<L>,
    Fail<L>,
> {
    match num {
        Numeric::Number(x) => Ok(NumTerm::Known(x)),
        Numeric::Name(s) => match lookup(env, s) {
            Err(e) => Err(Fail::at_once(e)),
            Ok(GObject::Number(x)) => Ok(NumTerm::Known(x)),
            Ok(_) => Err(Fail::at_once(InterpretError::WrongGeometricType)),
        },
        Numeric::Distance2P(a, b) => match points2(env, a, b) {
            Err(e) => Err(Fail::at_once(e)),
            Ok((pa, pb)) => Ok(NumTerm::Dist2P(pa, pb)),
        },
        Numeric::DistancePL(a, l) => match point(env, a) {
            Err(e) => Err(Fail::at_once(e)),
            Ok(pa) => match linear(env, l) {
                Err(e) => Err(Fail::at_once(e)),
                Ok(lt) => Ok(NumTerm::DistPL(pa, lt)),
            },
        },
        Numeric::Distance2L(k, l) => match linear2(env, k, l) {
            Err(f) => Err(f),
            Ok((kt, lt)) => Ok(NumTerm::Dist2L(kt, lt)),
        },
        Numeric::Angle3P(a, o, b) => match points3(env, a, o, b) {
            Err(e) => Err(Fail::at_once(e)),
            Ok((pa, po, pb)) => Ok(NumTerm::Angle3P(pa, po, pb)),
        },
        Numeric::Angle2L(k, l) => match linear2(env, k, l) {
            Err(f) => Err(f),
            Ok((kt, lt)) => Ok(NumTerm::Angle2L(kt, lt)),
        },
    }
}

/// The term for an object that may stand as an argument and as a drawable
/// alike: a name, or a circle. Any other object is a `WrongGeometricType`.
pub open spec fn common<L>(env: Map<Seq<char>, GObject<L>>, obj: Object) -> Result<
    ArgTerm<L>,
    Fail<L>,
> {
    match obj {
        Object::Name(s) => match lookup(env, s) {
            Err(e) => Err(Fail::at_once(e)),
            Ok(g) => Ok(ArgTerm::Known(g)),
        },
        Object::Circ3P(a, b, c) => match points3(env, a, b, c) {
            Err(e) => Err(Fail::at_once(e)),
            Ok((pa, pb, pc)) => Ok(ArgTerm::Circle(CircleTerm::Through(pa, pb, pc))),
        },
        Object::CircOr(o, r) => match point(env, o) {
            Err(e) => Err(Fail::at_once(e)),
            Ok(po) => match numeric(env, r) {
                Err(f) => Err(f),
                Ok(rt) => Ok(ArgTerm::Circle(CircleTerm::CenterRadius(po, rt))),
            },
        },
        Object::CircOA(a, b) => match points2(env, a, b) {
            Err(e) => Err(Fail::at_once(e)),
            Ok((pa, pb)) => Ok(ArgTerm::Circle(CircleTerm::CenterPoint(pa, pb))),
        },
        Object::CircDiam(a, b) => match points2(env, a, b) {
            Err(e) => Err(Fail::at_once(e)),
            Ok((pa, pb)) => Ok(ArgTerm::Circle(CircleTerm::Diameter(pa, pb))),
        },
        _ => Err(Fail::at_once(InterpretError::WrongGeometricType)),
    }
}

/// The term for an argument of a method or the right side of a declaration:
/// two points give the line through them, three points a triangle, a number
/// or an expression a number; the rest is as in `common`.
pub open spec fn argument<L>(env: Map<Seq<char>, GObject<L>>, obj: Object) -> Result<
    ArgTerm<L>,
    Fail<L>,
> {
    match obj {
        Object::Line2P(a, b) => match points2(env, a, b) {
            Err(e) => Err(Fail::at_once(e)),
            Ok((pa, pb)) => Ok(ArgTerm::Line(LineTerm::Through(pa, pb))),
        },
        Object::Triangle(a, b, c) => match points3(env, a, b, c) {
            Err(e) => Err(Fail::at_once(e)),
            Ok((pa, pb, pc)) => Ok(ArgTerm::Known(GObject::Trig(pa, pb, pc))),
        },
        Object::Numeric(n) => match numeric(env, n) {
            Err(f) => Err(f),
            Ok(nt) => Ok(ArgTerm::Number(nt)),
        },
        Object::Eval(s) => Ok(ArgTerm::Eval(s)),
        _ => common(env, obj),
    }
}

/// The terms for a run of arguments. A fault in one argument comes after the
/// arguments to its left have been computed.
pub open spec fn arguments<L>(env: Map<Seq<char>, GObject<L>>, objs: Seq<Object>) -> Result<
    Seq<ArgTerm<L>>,
    Fail<L>,
>
    decreases objs.len(),
{
    if objs.len() == 0 {
        Ok(Seq::empty())
    } else {
        match arguments(env, objs.drop_last()) {
            Err(f) => Err(f),
            Ok(ts) => match argument(env, objs.last()) {
                Err(f) => Err(f.after(ts)),
                Ok(t) => Ok(ts.push(t)),
            },
        }
    }
}

/// The term for a drawable: two points give the segment between them, three
/// points an arc or an angle mark, a run of points a polygon. A name must be
/// bound to a point or a circle: a line by name is no drawable.
pub open spec fn drawable<L: Copy>(env: Map<Seq<char>, GObject<L>>, obj: Object) -> Result<
    DrawView<L>,
    Fail<L>,
> {
    match obj {
        Object::Line2P(a, b) => match points2(env, a, b) {
            Err(e) => Err(Fail::at_once(e)),
            Ok((pa, pb)) => Ok(DrawView::Known(Figure::Segment(Segment { from: pa, to: pb }))),
        },
        Object::Arc(a, b, c) => match points3(env, a, b, c) {
            Err(e) => Err(Fail::at_once(e)),
            Ok((pa, pb, pc)) => Ok(DrawView::Arc3P(pa, pb, pc)),
        },
        Object::ArcO(a, o, b) => match points3(env, a, o, b) {
            Err(e) => Err(Fail::at_once(e)),
            Ok((pa, po, pb)) => Ok(DrawView::ArcO(pa, po, pb)),
        },
        Object::Polygon(names) => match points(env, names@) {
            Err(e) => Err(Fail::at_once(e)),
            Ok(ps) => Ok(DrawView::Known(Figure::Polygon(ps))),
        },
        Object::Angle3P(a, o, b) => match points3(env, a, o, b) {
            Err(e) => Err(Fail::at_once(e)),
            Ok((pa, po, pb)) => Ok(DrawView::Known(Figure::Angle3P(pa, po, pb))),
        },
        _ => match common(env, obj) {
            Err(f) => Err(f),
            Ok(ArgTerm::Known(g)) => match g.lifted() {
                Ok(figure) => Ok(DrawView::Known(figure)),
                Err(e) => Err(Fail::at_once(e)),
            },
            Ok(ArgTerm::Circle(ct)) => Ok(DrawView::Circle(ct)),
            Ok(_) => Err(Fail::at_once(InterpretError::WrongGeometricType)),
        },
    }
}

/// The term for a pair of numbers. A fault in the second number comes after
/// the first number has been computed.
pub open spec fn numeric2<L>(env: Map<Seq<char>, GObject<L>>, x: Numeric, y: Numeric) -> Result<
    (NumTerm<L>, NumTerm<L>),
    Fail<L>,
> {
    match numeric(env, x) {
        Err(f) => Err(f),
        Ok(xt) => match numeric(env, y) {
            Err(f) => Err(f.after(seq![ArgTerm::Number(xt)])),
            Ok(yt) => Ok((xt, yt)),
        },
    }
}

/// The error for a call of `method` that selects no overload.
pub open spec fn not_selected(method: String, e: FuncFailure) -> InterpretError {
    match e {
        FuncFailure::ArgError => InterpretError::FuncError(FuncError::ArgError),
        _ => InterpretError::FuncError(FuncError::NoFunc(method)),
    }
}

/// The term for the right side of a declaration. In a method call the
/// arguments come first, from left to right; the method is looked up, and the
/// overload selected by the variants of the arguments, after that.
pub open spec fn declared<L: Copy>(env: Map<Seq<char>, GObject<L>>, right: DeclRight) -> Result<
    DeclView<L>,
    Fail<L>,
> {
    match right {
        DeclRight::OrthoCoord(x, y) => match numeric2(env, x, y) {
            Err(f) => Err(f),
            Ok((xt, yt)) => Ok(DeclView::Ortho(xt, yt)),
        },
        DeclRight::PolarCoord(r, t) => match numeric2(env, r, t) {
            Err(f) => Err(f),
            Ok((rt, tt)) => Ok(DeclView::Polar(rt, tt)),
        },
        DeclRight::Object(obj) => match argument(env, obj) {
            Err(f) => Err(f),
            Ok(t) => Ok(DeclView::Object(t)),
        },
        DeclRight::Expr(method, args) => match arguments(env, args@) {
            Err(f) => Err(f),
            Ok(ts) => match selected(method@, kinds_of(ts)) {
                Err(e) => Err(Fail { before: ts, error: not_selected(method, e) }),
                Ok(o) => Ok(DeclView::Call(o, ts)),
            },
        },
    }
}

/// What a result says, where its value says itself.
pub open spec fn seen<T, L>(r: Result<T, Failure<L>>) -> Result<T, Fail<L>> {
    match r {
        Ok(t) => Ok(t),
        Err(f) => Err(f@),
    }
}

/// What the result of `get_draw_obj` says.
pub open spec fn seen_draw<L>(r: Result<DrawTerm<L>, Failure<L>>) -> Result<DrawView<L>, Fail<L>> {
    match r {
        Ok(t) => Ok(t@),
        Err(f) => Err(f@),
    }
}

/// What the result of `decl_right` says.
pub open spec fn seen_decl<L>(r: Result<DeclTerm<L>, Failure<L>>) -> Result<DeclView<L>, Fail<L>> {
    match r {
        Ok(t) => Ok(t@),
        Err(f) => Err(f@),
    }
}

fn fails<T, L>(e: InterpretError) -> (r: Result<T, Failure<L>>)
    ensures
        seen(r) == Err::<T, Fail<L>>(Fail::at_once(e)),
        r is Err,
        r->Err_0@ == Fail::<L>::at_once(e),
{
    Err(Failure::at_once(e))
}

impl<L: Copy> InterpreterState<L> {
    fn find(&self, name: &String) -> (r: Result<GObject<L>, InterpretError>)
        ensures
            r == lookup(self.env(), *name),
    {
        match self.objects().get(name.as_str()) {
            Some(g) => Ok(*g),
            None => Err(InterpretError::MissingKey(name.clone())),
        }
    }

    fn point(&self, name: &String) -> (r: Result<Point, InterpretError>)
        ensures
            r == point(self.env(), *name),
    {
        match self.find(name) {
            Err(e) => Err(e),
            Ok(GObject::Point(p)) => Ok(p),
            Ok(_) => Err(InterpretError::WrongGeometricType),
        }
    }

    fn points2(&self, a: &String, b: &String) -> (r: Result<(Point, Point), InterpretError>)
        ensures
            r == points2(self.env(), *a, *b),
    {
        match self.point(a) {
            Err(e) => Err(e),
            Ok(pa) => match self.point(b) {
                Err(e) => Err(e),
                Ok(pb) => Ok((pa, pb)),
            },
        }
    }

    fn points3(&self, a: &String, b: &String, c: &String) -> (r: Result<
        (Point, Point, Point),
        InterpretError,
    >)
        ensures
            r == points3(self.env(), *a, *b, *c),
    {
        match self.points2(a, b) {
            Err(e) => Err(e),
            Ok((pa, pb)) => match self.point(c) {
                Err(e) => Err(e),
                Ok(pc) => Ok((pa, pb, pc)),
            },
        }
    }

    fn points(&self, names: &Vec<String>) -> (r: Result<Vec<Point>, InterpretError>)
        ensures
            points(self.env(), names@) == match r {
                Ok(ps) => Ok::<Seq<Point>, InterpretError>(ps@),
                Err(e) => Err::<Seq<Point>, InterpretError>(e),
            },
    {
        let mut ps: Vec<Point> = Vec::new();
        let n = names.len();
        let mut i: usize = 0;
        while i < n
            invariant
                n == names@.len(),
                i <= n,
                points(self.env(), names@.subrange(0, i as int)) == Ok::<Seq<Point>, InterpretError>(
                    ps@,
                ),
            decreases n - i,
        {
            let ghost here = names@.subrange(0, i + 1);
            assert(here.drop_last() =~= names@.subrange(0, i as int));
            assert(here.last() == names@[i as int]);
            match self.point(&names[i]) {
                Err(e) => {
                    proof {
                        lemma_points_fail(self.env(), names@, i + 1);
                    }
                    return Err(e);
                },
                Ok(p) => {
                    ps.push(p);
                },
            }
            i += 1;
        }
        assert(names@.subrange(0, n as int) =~= names@);
        Ok(ps)
    }

    /// Get Linear objects.
    pub fn get_linear(&self, lin: &Linear) -> (r: Result<LineTerm<L>, InterpretError>)
        ensures
            r == linear(self.env(), *lin),
    {
        match lin {
            Linear::Name(s) => match self.find(s) {
                Err(e) => Err(e),
                Ok(GObject::Line(l)) => Ok(LineTerm::Known(l)),
                Ok(_) => Err(InterpretError::WrongGeometricType),
            },
            Linear::Line2P(a, b) => match self.points2(a, b) {
                Err(e) => Err(e),
                Ok((pa, pb)) => Ok(LineTerm::Through(pa, pb)),
            },
        }
    }

    fn linear2(&self, k: &Linear, l: &Linear) -> (r: Result<(LineTerm<L>, LineTerm<L>), Failure<L>>)
        ensures
            seen(r) == linear2(self.env(), *k, *l),
    {
        match self.get_linear(k) {
            Err(e) => fails(e),
            Ok(kt) => match self.get_linear(l) {
                Err(e) => {
                    let mut before: Vec<ArgTerm<L>> = Vec::new();
                    before.push(ArgTerm::Line(kt));
                    Err(Failure::at_once(e).after(before))
                },
                Ok(lt) => Ok((kt, lt)),
            },
        }
    }

    /// Get Numeric values.
    pub fn get_numeric(&self, num: &Numeric) -> (r: Result<NumTerm<L>, Failure<L>>)
        ensures
            seen(r) == numeric(self.env(), *num),
    {
        match num {
            Numeric::Number(x) => Ok(NumTerm::Known(*x)),
            Numeric::Name(s) => match self.find(s) {
                Err(e) => fails(e),
                Ok(GObject::Number(x)) => Ok(NumTerm::Known(x)),
                Ok(_) => fails(InterpretError::WrongGeometricType),
            },
            Numeric::Distance2P(a, b) => match self.points2(a, b) {
                Err(e) => fails(e),
                Ok((pa, pb)) => Ok(NumTerm::Dist2P(pa, pb)),
            },
            Numeric::DistancePL(a, l) => match self.point(a) {
                Err(e) => fails(e),
                Ok(pa) => match self.get_linear(l) {
                    Err(e) => fails(e),
                    Ok(lt) => Ok(NumTerm::DistPL(pa, lt)),
                },
            },
            Numeric::Distance2L(k, l) => match self.linear2(k, l) {
                Err(f) => Err(f),
                Ok((kt, lt)) => Ok(NumTerm::Dist2L(kt, lt)),
            },
            Numeric::Angle3P(a, o, b) => match self.points3(a, o, b) {
                Err(e) => fails(e),
                Ok((pa, po, pb)) => Ok(NumTerm::Angle3P(pa, po, pb)),
            },
            Numeric::Angle2L(k, l) => match self.linear2(k, l) {
                Err(f) => Err(f),
                Ok((kt, lt)) => Ok(NumTerm::Angle2L(kt, lt)),
            },
        }
    }

    /// Get common patterns in arguments and `draw_obj`s.
    pub fn get_common(&self, obj: &Object) -> (r: Result<ArgTerm<L>, Failure<L>>)
        ensures
            seen(r) == common(self.env(), *obj),
    {
        match obj {
            Object::Name(s) => match self.find(s) {
                Err(e) => fails(e),
                Ok(g) => Ok(ArgTerm::Known(g)),
            },
            Object::Circ3P(a, b, c) => match self.points3(a, b, c) {
                Err(e) => fails(e),
                Ok((pa, pb, pc)) => Ok(ArgTerm::Circle(CircleTerm::Through(pa, pb, pc))),
            },
            Object::CircOr(o, r) => match self.point(o) {
                Err(e) => fails(e),
                Ok(po) => match self.get_numeric(r) {
                    Err(f) => Err(f),
                    Ok(rt) => Ok(ArgTerm::Circle(CircleTerm::CenterRadius(po, rt))),
                },
            },
            Object::CircOA(a, b) => match self.points2(a, b) {
                Err(e) => fails(e),
                Ok((pa, pb)) => Ok(ArgTerm::Circle(CircleTerm::CenterPoint(pa, pb))),
            },
            Object::CircDiam(a, b) => match self.points2(a, b) {
                Err(e) => fails(e),
                Ok((pa, pb)) => Ok(ArgTerm::Circle(CircleTerm::Diameter(pa, pb))),
            },
            _ => fails(InterpretError::WrongGeometricType),
        }
    }

    /// Get objects that appears in arguments.
    pub fn get_arg_obj(&self, obj: &Object) -> (r: Result<ArgTerm<L>, Failure<L>>)
        ensures
            seen(r) == argument(self.env(), *obj),
    {
        match obj {
            Object::Line2P(a, b) => match self.points2(a, b) {
                Err(e) => fails(e),
                Ok((pa, pb)) => Ok(ArgTerm::Line(LineTerm::Through(pa, pb))),
            },
            Object::Triangle(a, b, c) => match self.points3(a, b, c) {
                Err(e) => fails(e),
                Ok((pa, pb, pc)) => Ok(ArgTerm::Known(GObject::Trig(pa, pb, pc))),
            },
            Object::Numeric(n) => match self.get_numeric(n) {
                Err(f) => Err(f),
                Ok(nt) => Ok(ArgTerm::Number(nt)),
            },
            Object::Eval(s) => Ok(ArgTerm::Eval(s.clone())),
            _ => self.get_common(obj),
        }
    }

    /// Get objects to draw.
    pub fn get_draw_obj(&self, obj: &Object) -> (r: Result<DrawTerm<L>, Failure<L>>)
        ensures
            seen_draw(r) == drawable(self.env(), *obj),
    {
        match obj {
            Object::Line2P(a, b) => match self.points2(a, b) {
                Err(e) => Err(Failure::at_once(e)),
                Ok((pa, pb)) => Ok(DrawTerm::Known(DObject::Segment(Segment { from: pa, to: pb }))),
            },
            Object::Arc(a, b, c) => match self.points3(a, b, c) {
                Err(e) => Err(Failure::at_once(e)),
                Ok((pa, pb, pc)) => Ok(DrawTerm::Arc3P(pa, pb, pc)),
            },
            Object::ArcO(a, o, b) => match self.points3(a, o, b) {
                Err(e) => Err(Failure::at_once(e)),
                Ok((pa, po, pb)) => Ok(DrawTerm::ArcO(pa, po, pb)),
            },
            Object::Polygon(names) => match self.points(names) {
                Err(e) => Err(Failure::at_once(e)),
                Ok(ps) => Ok(DrawTerm::Known(DObject::Polygon(ps))),
            },
            Object::Angle3P(a, o, b) => match self.points3(a, o, b) {
                Err(e) => Err(Failure::at_once(e)),
                Ok((pa, po, pb)) => Ok(DrawTerm::Known(DObject::Angle3P(pa, po, pb))),
            },
            _ => match self.get_common(obj) {
                Err(f) => Err(f),
                Ok(ArgTerm::Known(g)) => match g.into_drawable() {
                    Ok(d) => Ok(DrawTerm::Known(d)),
                    Err(e) => Err(Failure::at_once(e)),
                },
                Ok(ArgTerm::Circle(ct)) => Ok(DrawTerm::Circle(ct)),
                Ok(_) => Err(Failure::at_once(InterpretError::WrongGeometricType)),
            },
        }
    }

    fn numeric2(&self, x: &Numeric, y: &Numeric) -> (r: Result<(NumTerm<L>, NumTerm<L>), Failure<L>>)
        ensures
            seen(r) == numeric2(self.env(), *x, *y),
    {
        match self.get_numeric(x) {
            Err(f) => Err(f),
            Ok(xt) => match self.get_numeric(y) {
                Err(f) => {
                    let mut before: Vec<ArgTerm<L>> = Vec::new();
                    before.push(ArgTerm::Number(xt));
                    Err(f.after(before))
                },
                Ok(yt) => Ok((xt, yt)),
            },
        }
    }

    fn arguments(&self, objs: &Vec<Object>) -> (r: Result<Vec<ArgTerm<L>>, Failure<L>>)
        ensures
            arguments(self.env(), objs@) == match r {
                Ok(ts) => Ok::<Seq<ArgTerm<L>>, Fail<L>>(ts@),
                Err(f) => Err::<Seq<ArgTerm<L>>, Fail<L>>(f@),
            },
    {
        let mut ts: Vec<ArgTerm<L>> = Vec::new();
        let n = objs.len();
        let mut i: usize = 0;
        while i < n
            invariant
                n == objs@.len(),
                i <= n,
                arguments(self.env(), objs@.subrange(0, i as int)) == Ok::<Seq<ArgTerm<L>>, Fail<L>>(
                    ts@,
                ),
            decreases n - i,
        {
            let ghost here = objs@.subrange(0, i + 1);
            assert(here.drop_last() =~= objs@.subrange(0, i as int));
            assert(here.last() == objs@[i as int]);
            match self.get_arg_obj(&objs[i]) {
                Err(f) => {
                    let failure = f.after(ts);
                    proof {
                        lemma_arguments_fail(self.env(), objs@, i + 1);
                    }
                    return Err(failure);
                },
                Ok(t) => {
                    ts.push(t);
                },
            }
            i += 1;
        }
        assert(objs@.subrange(0, n as int) =~= objs@);
        Ok(ts)
    }

    /// Get the value on the right for a `decl` statement, as a term for the
    /// kernel. The value of the term is a pair, so that a declaration with two
    /// names on the left can take both.
    pub fn decl_right(&self, decl: &DeclRight) -> (r: Result<DeclTerm<L>, Failure<L>>)
        ensures
            seen_decl(r) == declared(self.env(), *decl),
    {
        match decl {
            DeclRight::OrthoCoord(x, y) => match self.numeric2(x, y) {
                Err(f) => Err(f),
                Ok((xt, yt)) => Ok(DeclTerm::Ortho(xt, yt)),
            },
            DeclRight::PolarCoord(r, t) => match self.numeric2(r, t) {
                Err(f) => Err(f),
                Ok((rt, tt)) => Ok(DeclTerm::Polar(rt, tt)),
            },
            DeclRight::Object(obj) => match self.get_arg_obj(obj) {
                Err(f) => Err(f),
                Ok(t) => Ok(DeclTerm::Object(t)),
            },
            DeclRight::Expr(method, args) => match self.arguments(args) {
                Err(f) => Err(f),
                Ok(ts) => {
                    let kinds = kinds(&ts);
                    match select(method.as_str(), &kinds) {
                        Err(FuncError::ArgError) => Err(
                            Failure {
                                before: ts,
                                error: InterpretError::FuncError(FuncError::ArgError),
                            },
                        ),
                        Err(_) => Err(
                            Failure {
                                before: ts,
                                error: InterpretError::FuncError(FuncError::NoFunc(method.clone())),
                            },
                        ),
                        Ok(o) => Ok(DeclTerm::Call(o, ts)),
                    }
                },
            },
        }
    }
}

/// The variants of the values that the terms stand for.
pub fn kinds<L: Copy>(terms: &Vec<ArgTerm<L>>) -> (r: Vec<Kind>)
    ensures
        r@ == kinds_of(terms@),
{
    let mut r: Vec<Kind> = Vec::new();
    let n = terms.len();
    let mut i: usize = 0;
    while i < n
        invariant
            n == terms@.len(),
            i <= n,
            r@ == kinds_of(terms@.subrange(0, i as int)),
        decreases n - i,
    {
        r.push(terms[i].kind());
        assert(kinds_of(terms@.subrange(0, i + 1)) =~= kinds_of(terms@.subrange(0, i as int)).push(
            terms@[i as int].spec_kind(),
        ));
        i += 1;
    }
    assert(terms@.subrange(0, n as int) =~= terms@);
    r
}

/// A name that fails makes every longer run of names fail in the same way.
proof fn lemma_points_fail<L>(env: Map<Seq<char>, GObject<L>>, names: Seq<String>, upto: int)
    requires
        0 <= upto <= names.len(),
        points(env, names.subrange(0, upto)) is Err,
    ensures
        points(env, names) == points(env, names.subrange(0, upto)),
    decreases names.len() - upto,
{
    if upto < names.len() {
        let next = names.subrange(0, upto + 1);
        assert(next.drop_last() =~= names.subrange(0, upto));
        lemma_points_fail(env, names, upto + 1);
    } else {
        assert(names.subrange(0, upto) =~= names);
    }
}

/// An argument that fails makes every longer run of arguments fail in the
/// same way.
proof fn lemma_arguments_fail<L>(env: Map<Seq<char>, GObject<L>>, objs: Seq<Object>, upto: int)
    requires
        0 <= upto <= objs.len(),
        arguments(env, objs.subrange(0, upto)) is Err,
    ensures
        arguments(env, objs) == arguments(env, objs.subrange(0, upto)),
    decreases objs.len() - upto,
{
    if upto < objs.len() {
        let next = objs.subrange(0, upto + 1);
        assert(next.drop_last() =~= objs.subrange(0, upto));
        lemma_arguments_fail(env, objs, upto + 1);
    } else {
        assert(objs.subrange(0, upto) =~= objs);
    }
}

} // verus!
