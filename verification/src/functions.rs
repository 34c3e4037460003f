//! The methods that a script can call, and how a call selects an overload.
use crate::utils::{FuncError, FuncFailure, Kind};
use vstd::prelude::*;

verus! {

/// A method of the language. Each is named by the word that a script writes.
#[derive(Debug, Clone, Copy, PartialEq, Eq, Structural)]
pub enum Method {
    /// `i`: intersection.
    I,
    /// `perp`: the perpendicular through a point.
    Perp,
    /// `par`: the parallel through a point.
    Par,
    /// `proj`: the foot of the perpendicular.
    Proj,
    /// `pb`: the perpendicular bisector.
    Pb,
    /// `ab`: the two angle bisectors.
    Ab,
    /// `tan`: the two tangents from a point.
    Tan,
    /// `outer-tan`: the outer common tangents.
    OuterTan,
    /// `inner-tan`: the inner common tangents.
    InnerTan,
    /// `mid`: the midpoint.
    Mid,
    /// `rad-ax`: the radical axis.
    RadAx,
    /// `polar`: the polar line.
    Polar,
    /// `on`: the point at a fraction of the way along.
    On,
    /// `rfl`: reflection.
    Rfl,
    /// `scl`: scaling.
    Scl,
    /// `rot`: rotation.
    Rot,
    /// `inv`: inversion in a circle.
    Inv,
    /// `l`: a line.
    L,
    /// `circ`: centre and radius of a circle.
    Circ,
    /// `cO`: circumcentre.
    CO,
    /// `cI`: incentre.
    CI,
    /// `cJ`: excentre.
    CJ,
    /// `cG`: centroid.
    CG,
    /// `cH`: orthocentre.
    CH,
    /// `cK`: symmedian point.
    CK,
    /// `cGe`: Gergonne point.
    CGe,
    /// `bary`: the point with given barycentric coordinates.
    Bary,
    /// `isog-conj`: the isogonal conjugate.
    IsogConj,
}

/// One overload of a method: the `index`-th in the order of declaration.
#[derive(Debug, Clone, Copy, PartialEq, Eq, Structural)]
pub struct Overload {
    pub method: Method,
    pub index: usize,
}

/// The method that a script calls by `name`.
pub open spec fn method_named(name: Seq<char>) -> Option<Method> {
    if name == "i"@ {
        Some(Method::I)
    } else if name == "perp"@ {
        Some(Method::Perp)
    } else if name == "par"@ {
        Some(Method::Par)
    } else if name == "proj"@ {
        Some(Method::Proj)
    } else if name == "pb"@ {
        Some(Method::Pb)
    } else if name == "ab"@ {
        Some(Method::Ab)
    } else if name == "tan"@ {
        Some(Method::Tan)
    } else if name == "outer-tan"@ {
        Some(Method::OuterTan)
    } else if name == "inner-tan"@ {
        Some(Method::InnerTan)
    } else if name == "mid"@ {
        Some(Method::Mid)
    } else if name == "rad-ax"@ {
        Some(Method::RadAx)
    } else if name == "polar"@ {
        Some(Method::Polar)
    } else if name == "on"@ {
        Some(Method::On)
    } else if name == "rfl"@ {
        Some(Method::Rfl)
    } else if name == "scl"@ {
        Some(Method::Scl)
    } else if name == "rot"@ {
        Some(Method::Rot)
    } else if name == "inv"@ {
        Some(Method::Inv)
    } else if name == "l"@ {
        Some(Method::L)
    } else if name == "circ"@ {
        Some(Method::Circ)
    } else if name == "cO"@ {
        Some(Method::CO)
    } else if name == "cI"@ {
        Some(Method::CI)
    } else if name == "cJ"@ {
        Some(Method::CJ)
    } else if name == "cG"@ {
        Some(Method::CG)
    } else if name == "cH"@ {
        Some(Method::CH)
    } else if name == "cK"@ {
        Some(Method::CK)
    } else if name == "cGe"@ {
        Some(Method::CGe)
    } else if name == "bary"@ {
        Some(Method::Bary)
    } else if name == "isog-conj"@ {
        Some(Method::IsogConj)
    } else {
        None
    }
}

/// The argument patterns of the overloads of `method`, in the order in which
/// they are declared.
pub open spec fn patterns(method: Method) -> Seq<Seq<Kind>> {
    match method {
        Method::I => seq![
            seq![Kind::Line, Kind::Line, Kind::Point],
            seq![Kind::Line, Kind::Circle, Kind::Point],
            seq![Kind::Circle, Kind::Line, Kind::Point],
            seq![Kind::Circle, Kind::Circle, Kind::Point],
            seq![Kind::Line, Kind::Line],
            seq![Kind::Line, Kind::Circle],
            seq![Kind::Circle, Kind::Line],
            seq![Kind::Circle, Kind::Circle],
        ],
        Method::Perp | Method::Par | Method::Proj => seq![seq![Kind::Point, Kind::Line]],
        Method::Pb | Method::Mid => seq![seq![Kind::Point, Kind::Point]],
        Method::Ab => seq![
            seq![Kind::Point, Kind::Point, Kind::Point],
            seq![Kind::Line, Kind::Line],
        ],
        Method::Tan | Method::Polar => seq![seq![Kind::Point, Kind::Circle]],
        Method::OuterTan | Method::InnerTan | Method::RadAx => seq![
            seq![Kind::Circle, Kind::Circle],
        ],
        Method::On => seq![
            seq![Kind::Circle, Kind::Number],
            seq![Kind::Point, Kind::Point, Kind::Number],
        ],
        Method::Rfl => seq![
            seq![Kind::Point, Kind::Point],
            seq![Kind::Line, Kind::Point],
            seq![Kind::Circle, Kind::Point],
            seq![Kind::Point, Kind::Line],
            seq![Kind::Line, Kind::Line],
        ],
        Method::Scl | Method::Rot => seq![
            seq![Kind::Point, Kind::Point, Kind::Number],
            seq![Kind::Line, Kind::Point, Kind::Number],
            seq![Kind::Circle, Kind::Point, Kind::Number],
        ],
        Method::Inv => seq![
            seq![Kind::Point, Kind::Circle],
            seq![Kind::Line, Kind::Circle],
            seq![Kind::Circle, Kind::Circle],
        ],
        Method::L => seq![
            seq![Kind::Point, Kind::Point],
            seq![Kind::Number, Kind::Number, Kind::Number],
            seq![Kind::Number, Kind::Number, Kind::Point],
        ],
        Method::Circ => seq![seq![Kind::Circle]],
        Method::CO | Method::CI | Method::CJ | Method::CG | Method::CH | Method::CK | Method::CGe => seq![
            seq![Kind::Trig],
        ],
        Method::Bary => seq![seq![Kind::Trig, Kind::Number, Kind::Number, Kind::Number]],
        Method::IsogConj => seq![seq![Kind::Trig, Kind::Point]],
    }
}

/// What an overload leaves in one of its two result slots.
#[derive(Debug, Clone, Copy, PartialEq, Eq, Structural)]
pub enum Slot {
    Point,
    Line,
    Circle,
    Number,
    /// Nothing: the overload has one result and this is the second slot.
    Null,
    /// A line or a circle, whichever the construction gives.
    LineOrCircle,
}

impl Slot {
    /// Whether a value of the variant `kind` may stand in this slot.
    pub open spec fn spec_holds(self, kind: Kind) -> bool {
        match self {
            Slot::Point => kind == Kind::Point,
            Slot::Line => kind == Kind::Line,
            Slot::Circle => kind == Kind::Circle,
            Slot::Number => kind == Kind::Number,
            Slot::Null => kind == Kind::Null,
            Slot::LineOrCircle => kind == Kind::Line || kind == Kind::Circle,
        }
    }

    /// Whether a value of the variant `kind` may stand in this slot.
    #[verifier::when_used_as_spec(spec_holds)]
    pub fn holds(self, kind: Kind) -> (r: bool)
        ensures
            r == self.spec_holds(kind),
    {
        match self {
            Slot::Point => kind == Kind::Point,
            Slot::Line => kind == Kind::Line,
            Slot::Circle => kind == Kind::Circle,
            Slot::Number => kind == Kind::Number,
            Slot::Null => kind == Kind::Null,
            Slot::LineOrCircle => kind == Kind::Line || kind == Kind::Circle,
        }
    }
}

/// The results of the overloads of `method`, in the order in which they are
/// declared: for each what it leaves in the first and in the second slot.
///
/// The image of a line or of a circle under an inversion is a line or a
/// circle. It is one value, in the first slot, and a declaration binds it
/// whichever it is; the second slot is empty, as for any single result.
pub open spec fn yields(method: Method) -> Seq<(Slot, Slot)> {
    match method {
        Method::I => seq![
            (Slot::Point, Slot::Null),
            (Slot::Point, Slot::Point),
            (Slot::Point, Slot::Point),
            (Slot::Point, Slot::Point),
            (Slot::Point, Slot::Null),
            (Slot::Point, Slot::Point),
            (Slot::Point, Slot::Point),
            (Slot::Point, Slot::Point),
        ],
        Method::Perp | Method::Par | Method::Pb | Method::RadAx | Method::Polar => seq![
            (Slot::Line, Slot::Null),
        ],
        Method::Proj | Method::Mid => seq![(Slot::Point, Slot::Null)],
        Method::Ab => seq![(Slot::Line, Slot::Line), (Slot::Line, Slot::Line)],
        Method::Tan | Method::OuterTan | Method::InnerTan => seq![(Slot::Line, Slot::Line)],
        Method::On => seq![(Slot::Point, Slot::Null), (Slot::Point, Slot::Null)],
        Method::Rfl => seq![
            (Slot::Point, Slot::Null),
            (Slot::Line, Slot::Null),
            (Slot::Circle, Slot::Null),
            (Slot::Point, Slot::Null),
            (Slot::Line, Slot::Null),
        ],
        Method::Scl | Method::Rot => seq![
            (Slot::Point, Slot::Null),
            (Slot::Line, Slot::Null),
            (Slot::Circle, Slot::Null),
        ],
        Method::Inv => seq![
            (Slot::Point, Slot::Null),
            (Slot::LineOrCircle, Slot::Null),
            (Slot::LineOrCircle, Slot::Null),
        ],
        Method::L => seq![
            (Slot::Line, Slot::Null),
            (Slot::Line, Slot::Null),
            (Slot::Line, Slot::Null),
        ],
        Method::Circ => seq![(Slot::Point, Slot::Number)],
        Method::CO | Method::CI | Method::CJ | Method::CG | Method::CH | Method::CK | Method::CGe
        | Method::Bary | Method::IsogConj => seq![(Slot::Point, Slot::Null)],
    }
}

/// Whether values of the variants `first` and `second` are what `overload`
/// leaves in its two slots.
pub open spec fn accepted(overload: Overload, first: Kind, second: Kind) -> bool {
    &&& overload.index < yields(overload.method).len()
    &&& yields(overload.method)[overload.index as int].0.spec_holds(first)
    &&& yields(overload.method)[overload.index as int].1.spec_holds(second)
}

/// Every overload has its results: there are as many as there are patterns.
pub proof fn lemma_every_overload_has_results(method: Method)
    ensures
        yields(method).len() == patterns(method).len(),
{
}

/// Whether `index` is the first pattern among `patterns` that is `kinds`.
pub open spec fn first_match(patterns: Seq<Seq<Kind>>, kinds: Seq<Kind>, index: int) -> bool {
    &&& 0 <= index < patterns.len()
    &&& patterns[index] == kinds
    &&& forall|j: int| 0 <= j < index ==> patterns[j] != kinds
}

/// Whether none of `patterns` is `kinds`.
pub open spec fn no_match(patterns: Seq<Seq<Kind>>, kinds: Seq<Kind>) -> bool {
    forall|j: int| 0 <= j < patterns.len() ==> patterns[j] != kinds
}

/// The place of the first pattern among `patterns` that is `kinds`.
pub open spec fn position(patterns: Seq<Seq<Kind>>, kinds: Seq<Kind>) -> Option<int>
    decreases patterns.len(),
{
    if patterns.len() == 0 {
        None
    } else {
        match position(patterns.drop_last(), kinds) {
            Some(i) => Some(i),
            None => if patterns.last() == kinds {
                Some(patterns.len() - 1)
            } else {
                None
            },
        }
    }
}

/// What a call of `name` with arguments of the variants `kinds` selects: the
/// first declared overload of the method of that name whose pattern is
/// `kinds`. A name that no method has gives `NoFunc`; arguments that no
/// overload takes give `ArgError`.
pub open spec fn selected(name: Seq<char>, kinds: Seq<Kind>) -> Result<Overload, FuncFailure> {
    match method_named(name) {
        None => Err(FuncFailure::NoFunc(name)),
        Some(method) => match position(patterns(method), kinds) {
            Some(i) => Ok(Overload { method, index: i as usize }),
            None => Err(FuncFailure::ArgError),
        },
    }
}

/// Overload selection is stable: `position` finds a pattern that matches, no
/// pattern before it matches, and it finds none only where none matches.
pub proof fn lemma_first_overload_wins(patterns: Seq<Seq<Kind>>, kinds: Seq<Kind>)
    ensures
        match position(patterns, kinds) {
            Some(i) => first_match(patterns, kinds, i),
            None => no_match(patterns, kinds),
        },
    decreases patterns.len(),
{
    if patterns.len() > 0 {
        lemma_first_overload_wins(patterns.drop_last(), kinds);
        match position(patterns.drop_last(), kinds) {
            Some(i) => {
                assert(patterns.drop_last()[i] == patterns[i]);
                assert forall|j: int| 0 <= j < i implies patterns[j] != kinds by {
                    assert(patterns.drop_last()[j] == patterns[j]);
                }
            },
            None => {
                assert forall|j: int| 0 <= j < patterns.len() - 1 implies patterns[j] != kinds by {
                    assert(patterns.drop_last()[j] == patterns[j]);
                }
            },
        }
    }
}

fn one(a: Kind) -> (r: Vec<Kind>)
    ensures
        r@ == seq![a],
{
    let mut r = Vec::new();
    r.push(a);
    r
}

fn two(a: Kind, b: Kind) -> (r: Vec<Kind>)
    ensures
        r@ == seq![a, b],
{
    let mut r = Vec::new();
    r.push(a);
    r.push(b);
    r
}

fn three(a: Kind, b: Kind, c: Kind) -> (r: Vec<Kind>)
    ensures
        r@ == seq![a, b, c],
{
    let mut r = Vec::new();
    r.push(a);
    r.push(b);
    r.push(c);
    r
}

fn four(a: Kind, b: Kind, c: Kind, d: Kind) -> (r: Vec<Kind>)
    ensures
        r@ == seq![a, b, c, d],
{
    let mut r = Vec::new();
    r.push(a);
    r.push(b);
    r.push(c);
    r.push(d);
    r
}

/// The patterns of a table, one by one.
pub open spec fn rows(table: Seq<Vec<Kind>>) -> Seq<Seq<Kind>> {
    table.map_values(|row: Vec<Kind>| row@)
}

fn result(table: &mut Vec<(Slot, Slot)>, first: Slot, second: Slot)
    ensures
        final(table)@ == old(table)@.push((first, second)),
{
    table.push((first, second));
}

fn row(table: &mut Vec<Vec<Kind>>, row: Vec<Kind>)
    ensures
        rows(final(table)@) == rows(old(table)@).push(row@),
{
    table.push(row);
    assert(rows(table@) =~= rows(old(table)@).push(row@));
}

impl Method {
    /// The method that a script calls by `name`.
    pub fn named(name: &str) -> (r: Option<Method>)
        ensures
            r == method_named(name@),
    {
        let n = String::from_str(name);
        if is(&n, "i") {
            Some(Method::I)
        } else if is(&n, "perp") {
            Some(Method::Perp)
        } else if is(&n, "par") {
            Some(Method::Par)
        } else if is(&n, "proj") {
            Some(Method::Proj)
        } else if is(&n, "pb") {
            Some(Method::Pb)
        } else if is(&n, "ab") {
            Some(Method::Ab)
        } else if is(&n, "tan") {
            Some(Method::Tan)
        } else if is(&n, "outer-tan") {
            Some(Method::OuterTan)
        } else if is(&n, "inner-tan") {
            Some(Method::InnerTan)
        } else if is(&n, "mid") {
            Some(Method::Mid)
        } else if is(&n, "rad-ax") {
            Some(Method::RadAx)
        } else if is(&n, "polar") {
            Some(Method::Polar)
        } else if is(&n, "on") {
            Some(Method::On)
        } else if is(&n, "rfl") {
            Some(Method::Rfl)
        } else if is(&n, "scl") {
            Some(Method::Scl)
        } else if is(&n, "rot") {
            Some(Method::Rot)
        } else if is(&n, "inv") {
            Some(Method::Inv)
        } else if is(&n, "l") {
            Some(Method::L)
        } else if is(&n, "circ") {
            Some(Method::Circ)
        } else if is(&n, "cO") {
            Some(Method::CO)
        } else if is(&n, "cI") {
            Some(Method::CI)
        } else if is(&n, "cJ") {
            Some(Method::CJ)
        } else if is(&n, "cG") {
            Some(Method::CG)
        } else if is(&n, "cH") {
            Some(Method::CH)
        } else if is(&n, "cK") {
            Some(Method::CK)
        } else if is(&n, "cGe") {
            Some(Method::CGe)
        } else if is(&n, "bary") {
            Some(Method::Bary)
        } else if is(&n, "isog-conj") {
            Some(Method::IsogConj)
        } else {
            None
        }
    }

    /// The argument patterns of the overloads, in the order of declaration.
    pub fn overloads(self) -> (r: Vec<Vec<Kind>>)
        ensures
            rows(r@) == patterns(self),
    {
        let mut t: Vec<Vec<Kind>> = Vec::new();
        assert(rows(t@) =~= Seq::<Seq<Kind>>::empty());
        match self {
            Method::I => {
                row(&mut t, three(Kind::Line, Kind::Line, Kind::Point));
                row(&mut t, three(Kind::Line, Kind::Circle, Kind::Point));
                row(&mut t, three(Kind::Circle, Kind::Line, Kind::Point));
                row(&mut t, three(Kind::Circle, Kind::Circle, Kind::Point));
                row(&mut t, two(Kind::Line, Kind::Line));
                row(&mut t, two(Kind::Line, Kind::Circle));
                row(&mut t, two(Kind::Circle, Kind::Line));
                row(&mut t, two(Kind::Circle, Kind::Circle));
            },
            Method::Perp | Method::Par | Method::Proj => {
                row(&mut t, two(Kind::Point, Kind::Line));
            },
            Method::Pb | Method::Mid => {
                row(&mut t, two(Kind::Point, Kind::Point));
            },
            Method::Ab => {
                row(&mut t, three(Kind::Point, Kind::Point, Kind::Point));
                row(&mut t, two(Kind::Line, Kind::Line));
            },
            Method::Tan | Method::Polar => {
                row(&mut t, two(Kind::Point, Kind::Circle));
            },
            Method::OuterTan | Method::InnerTan | Method::RadAx => {
                row(&mut t, two(Kind::Circle, Kind::Circle));
            },
            Method::On => {
                row(&mut t, two(Kind::Circle, Kind::Number));
                row(&mut t, three(Kind::Point, Kind::Point, Kind::Number));
            },
            Method::Rfl => {
                row(&mut t, two(Kind::Point, Kind::Point));
                row(&mut t, two(Kind::Line, Kind::Point));
                row(&mut t, two(Kind::Circle, Kind::Point));
                row(&mut t, two(Kind::Point, Kind::Line));
                row(&mut t, two(Kind::Line, Kind::Line));
            },
            Method::Scl | Method::Rot => {
                row(&mut t, three(Kind::Point, Kind::Point, Kind::Number));
                row(&mut t, three(Kind::Line, Kind::Point, Kind::Number));
                row(&mut t, three(Kind::Circle, Kind::Point, Kind::Number));
            },
            Method::Inv => {
                row(&mut t, two(Kind::Point, Kind::Circle));
                row(&mut t, two(Kind::Line, Kind::Circle));
                row(&mut t, two(Kind::Circle, Kind::Circle));
            },
            Method::L => {
                row(&mut t, two(Kind::Point, Kind::Point));
                row(&mut t, three(Kind::Number, Kind::Number, Kind::Number));
                row(&mut t, three(Kind::Number, Kind::Number, Kind::Point));
            },
            Method::Circ => {
                row(&mut t, one(Kind::Circle));
            },
            Method::CO | Method::CI | Method::CJ | Method::CG | Method::CH | Method::CK | Method::CGe => {
                row(&mut t, one(Kind::Trig));
            },
            Method::Bary => {
                row(&mut t, four(Kind::Trig, Kind::Number, Kind::Number, Kind::Number));
            },
            Method::IsogConj => {
                row(&mut t, two(Kind::Trig, Kind::Point));
            },
        }
        t
    }
}

impl Method {
    /// The results of the overloads, in the order of declaration.
    pub fn results(self) -> (r: Vec<(Slot, Slot)>)
        ensures
            r@ == yields(self),
    {
        let mut t: Vec<(Slot, Slot)> = Vec::new();
        match self {
            Method::I => {
                result(&mut t, Slot::Point, Slot::Null);
                result(&mut t, Slot::Point, Slot::Point);
                result(&mut t, Slot::Point, Slot::Point);
                result(&mut t, Slot::Point, Slot::Point);
                result(&mut t, Slot::Point, Slot::Null);
                result(&mut t, Slot::Point, Slot::Point);
                result(&mut t, Slot::Point, Slot::Point);
                result(&mut t, Slot::Point, Slot::Point);
            },
            Method::Perp | Method::Par | Method::Pb | Method::RadAx | Method::Polar => {
                result(&mut t, Slot::Line, Slot::Null);
            },
            Method::Proj | Method::Mid => {
                result(&mut t, Slot::Point, Slot::Null);
            },
            Method::Ab => {
                result(&mut t, Slot::Line, Slot::Line);
                result(&mut t, Slot::Line, Slot::Line);
            },
            Method::Tan | Method::OuterTan | Method::InnerTan => {
                result(&mut t, Slot::Line, Slot::Line);
            },
            Method::On => {
                result(&mut t, Slot::Point, Slot::Null);
                result(&mut t, Slot::Point, Slot::Null);
            },
            Method::Rfl => {
                result(&mut t, Slot::Point, Slot::Null);
                result(&mut t, Slot::Line, Slot::Null);
                result(&mut t, Slot::Circle, Slot::Null);
                result(&mut t, Slot::Point, Slot::Null);
                result(&mut t, Slot::Line, Slot::Null);
            },
            Method::Scl | Method::Rot => {
                result(&mut t, Slot::Point, Slot::Null);
                result(&mut t, Slot::Line, Slot::Null);
                result(&mut t, Slot::Circle, Slot::Null);
            },
            Method::Inv => {
                result(&mut t, Slot::Point, Slot::Null);
                result(&mut t, Slot::LineOrCircle, Slot::Null);
                result(&mut t, Slot::LineOrCircle, Slot::Null);
            },
            Method::L => {
                result(&mut t, Slot::Line, Slot::Null);
                result(&mut t, Slot::Line, Slot::Null);
                result(&mut t, Slot::Line, Slot::Null);
            },
            Method::Circ => {
                result(&mut t, Slot::Point, Slot::Number);
            },
            Method::CO | Method::CI | Method::CJ | Method::CG | Method::CH | Method::CK
            | Method::CGe | Method::Bary | Method::IsogConj => {
                result(&mut t, Slot::Point, Slot::Null);
            },
        }
        t
    }
}

impl Overload {
    /// Whether values of the variants `first` and `second` are what this
    /// overload leaves in its two slots.
    pub fn accepts(&self, first: Kind, second: Kind) -> (r: bool)
        ensures
            r == accepted(*self, first, second),
    {
        let table = self.method.results();
        if self.index < table.len() {
            let (one, two) = table[self.index];
            one.holds(first) && two.holds(second)
        } else {
            false
        }
    }
}

fn is(name: &String, word: &str) -> (r: bool)
    ensures
        r == (name@ == word@),
{
    let w = String::from_str(word);
    *name == w
}

/// Whether the two runs of variants are the same.
pub fn same_kinds(a: &Vec<Kind>, b: &Vec<Kind>) -> (r: bool)
    ensures
        r == (a@ == b@),
{
    if a.len() != b.len() {
        return false;
    }
    let n = a.len();
    let mut i: usize = 0;
    while i < n
        invariant
            n == a@.len(),
            n == b@.len(),
            i <= n,
            forall|j: int| 0 <= j < i ==> a@[j] == b@[j],
        decreases n - i,
    {
        if a[i] != b[i] {
            return false;
        }
        i += 1;
    }
    assert(a@ =~= b@);
    true
}

/// Selects the overload for a call of `name` with arguments of the variants
/// `kinds`.
pub fn select(name: &str, kinds: &Vec<Kind>) -> (r: Result<Overload, FuncError>)
    ensures
        selected(name@, kinds@) == match r {
            Ok(o) => Ok::<Overload, FuncFailure>(o),
            Err(e) => Err::<Overload, FuncFailure>(e@),
        },
{
    match Method::named(name) {
        None => Err(FuncError::NoFunc(String::from_str(name))),
        Some(method) => {
            let table = method.overloads();
            let n = table.len();
            let mut i: usize = 0;
            proof {
                lemma_first_overload_wins(patterns(method), kinds@);
            }
            while i < n
                invariant
                    n == table@.len(),
                    i <= n,
                    method_named(name@) == Some(method),
                    rows(table@) == patterns(method),
                    forall|j: int| 0 <= j < i ==> patterns(method)[j] != kinds@,
                    match position(patterns(method), kinds@) {
                        Some(i) => first_match(patterns(method), kinds@, i),
                        None => no_match(patterns(method), kinds@),
                    },
                decreases n - i,
            {
                assert(rows(table@).len() == n);
                assert(rows(table@)[i as int] == table@[i as int]@);
                if same_kinds(&table[i], kinds) {
                    assert(position(patterns(method), kinds@) == Some(i as int));
                    return Ok(Overload { method, index: i });
                }
                i += 1;
            }
            assert(rows(table@).len() == n);
            assert(position(patterns(method), kinds@) is None);
            Err(FuncError::ArgError)
        },
    }
}

} // verus!
