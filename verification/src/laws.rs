//! What holds of the interpreter whatever the script.
use crate::ast::{DeclLeft, DeclRight, Object};
use crate::config::{default_settings, settings};
use crate::functions::{
    lemma_first_overload_wins, method_named, patterns, position, Method,
};
use crate::interpret::{bound, document, fresh, Frame, Layer, LayerType};
use crate::resolve::{arguments, declared};
use crate::terms::{kinds_of, ArgTerm, DeclView, Fail};
use crate::text::Token;
use crate::utils::{ConfigValue, GObject};
use vstd::prelude::*;

verus! {

/// No method has more than eight overloads.
pub proof fn lemma_few_overloads(method: Method)
    ensures
        0 < patterns(method).len() <= 8,
{
}

/// A call reaches a kernel only with arguments that its overload takes: the
/// overload is one of the method that the script names, and the variants of
/// the arguments are its pattern.
pub proof fn lemma_call_fits_its_overload<L: Copy>(
    env: Map<Seq<char>, GObject<L>>,
    method: String,
    args: Vec<Object>,
)
    ensures
        match declared(env, DeclRight::Expr(method, args)) {
            Ok(DeclView::Call(overload, terms)) => {
                &&& method_named(method@) == Some(overload.method)
                &&& arguments(env, args@) == Ok::<Seq<ArgTerm<L>>, Fail<L>>(terms)
                &&& overload.index < patterns(overload.method).len()
                &&& patterns(overload.method)[overload.index as int] == kinds_of(terms)
            },
            Ok(_) => false,
            Err(_) => true,
        },
{
    match arguments(env, args@) {
        Err(_) => {},
        Ok(terms) => {
            match method_named(method@) {
                None => {},
                Some(m) => {
                    lemma_first_overload_wins(patterns(m), kinds_of(terms));
                    lemma_few_overloads(m);
                    match position(patterns(m), kinds_of(terms)) {
                        None => {},
                        Some(i) => {
                            assert(0 <= i < 8);
                            assert(i as usize == i);
                        },
                    }
                },
            }
        },
    }
}

/// The names that a declaration with `left` on its left side binds.
pub open spec fn names_of(left: DeclLeft) -> Set<Seq<char>> {
    match left {
        DeclLeft::Direct(x) => set![x@],
        DeclLeft::Destruct(x, y) => if y@ == "_"@ {
            set![x@]
        } else {
            set![x@, y@]
        },
    }
}

/// The objects after a run of declarations, each given by its left side and
/// the value of its right side.
pub open spec fn bound_all<L>(
    env: Map<Seq<char>, GObject<L>>,
    decls: Seq<(DeclLeft, (GObject<L>, GObject<L>))>,
) -> Map<Seq<char>, GObject<L>>
    decreases decls.len(),
{
    if decls.len() == 0 {
        env
    } else {
        bound(bound_all(env, decls.drop_last()), decls.last().0, decls.last().1)
    }
}

/// The names that a run of declarations binds.
pub open spec fn names_of_all<L>(decls: Seq<(DeclLeft, (GObject<L>, GObject<L>))>) -> Set<Seq<char>>
    decreases decls.len(),
{
    if decls.len() == 0 {
        Set::empty()
    } else {
        names_of_all(decls.drop_last()).union(names_of(decls.last().0))
    }
}

/// A declaration binds the names on its left side and no other.
pub proof fn lemma_declaration_binds_its_names<L>(
    env: Map<Seq<char>, GObject<L>>,
    left: DeclLeft,
    value: (GObject<L>, GObject<L>),
)
    ensures
        bound(env, left, value).dom() == env.dom().union(names_of(left)),
{
    assert(bound(env, left, value).dom() =~= env.dom().union(names_of(left)));
}

/// After a run of declarations the names that are bound are those that were
/// bound before and those that were declared: one binding for each, however
/// often it was declared. From an interpreter that has just started, the
/// names bound are exactly the names declared.
pub proof fn lemma_declarations_bind_their_names<L>(
    env: Map<Seq<char>, GObject<L>>,
    decls: Seq<(DeclLeft, (GObject<L>, GObject<L>))>,
)
    ensures
        bound_all(env, decls).dom() == env.dom().union(names_of_all(decls)),
        env == Map::<Seq<char>, GObject<L>>::empty() ==> bound_all(env, decls).dom()
            == names_of_all(decls),
    decreases decls.len(),
{
    if decls.len() == 0 {
        assert(bound_all(env, decls).dom() =~= env.dom().union(names_of_all(decls)));
    } else {
        lemma_declarations_bind_their_names(env, decls.drop_last());
        lemma_declaration_binds_its_names(
            bound_all(env, decls.drop_last()),
            decls.last().0,
            decls.last().1,
        );
        assert(bound_all(env, decls).dom() =~= env.dom().union(names_of_all(decls)));
    }
    if env == Map::<Seq<char>, GObject<L>>::empty() {
        assert(env.dom().union(names_of_all(decls)) =~= names_of_all(decls));
    }
}

/// A declaration with `_` in the second place binds the first name to the
/// first value and leaves `_` as it was, unless the first name is `_` itself.
pub proof fn lemma_wildcard_is_never_written<L>(
    env: Map<Seq<char>, GObject<L>>,
    x: String,
    y: String,
    value: (GObject<L>, GObject<L>),
)
    requires
        y@ == "_"@,
        x@ != "_"@,
    ensures
        bound(env, DeclLeft::Destruct(x, y), value) == env.insert(x@, value.0),
        bound(env, DeclLeft::Destruct(x, y), value).contains_key("_"@) == env.contains_key("_"@),
        env.contains_key("_"@) ==> bound(env, DeclLeft::Destruct(x, y), value)["_"@] == env["_"@],
{
}

/// Declaring a name again replaces its value: the objects are what they
/// would be had the first declaration never been made, and the second
/// declaration stores no binding beside the first.
pub proof fn lemma_redefinition_replaces<L>(
    env: Map<Seq<char>, GObject<L>>,
    x: String,
    first: (GObject<L>, GObject<L>),
    second: (GObject<L>, GObject<L>),
)
    ensures
        bound(bound(env, DeclLeft::Direct(x), first), DeclLeft::Direct(x), second) == bound(
            env,
            DeclLeft::Direct(x),
            second,
        ),
        bound(env, DeclLeft::Direct(x), second)[x@] == second.0,
        bound(bound(env, DeclLeft::Direct(x), first), DeclLeft::Direct(x), second).dom() == bound(
            env,
            DeclLeft::Direct(x),
            first,
        ).dom(),
        fresh(bound(env, DeclLeft::Direct(x), first), DeclLeft::Direct(x)) == 0,
{
    assert(env.insert(x@, first.0).insert(x@, second.0) =~= env.insert(x@, second.0));
    assert(env.insert(x@, first.0).insert(x@, second.0).dom() =~= env.insert(x@, first.0).dom());
}

/// A `config` statement that sets nothing leaves every option as it is.
pub proof fn lemma_empty_config_changes_nothing(options: Map<Seq<char>, ConfigValue>)
    ensures
        options.union_prefer_right(Map::<Seq<char>, ConfigValue>::empty()) == options,
{
    assert(options.union_prefer_right(Map::<Seq<char>, ConfigValue>::empty()) =~= options);
}

/// A `config` statement never unsets an option: what was set before it is
/// set after it. So the default options, which are set from the start, are
/// set whenever an object is drawn.
pub proof fn lemma_config_keeps_every_option_set(
    options: Map<Seq<char>, ConfigValue>,
    statement: Map<Seq<char>, ConfigValue>,
    key: Seq<char>,
)
    requires
        options.contains_key(key),
    ensures
        options.union_prefer_right(statement).contains_key(key),
        !statement.contains_key(key) ==> options.union_prefer_right(statement)[key] == options[key],
        statement.contains_key(key) ==> options.union_prefer_right(statement)[key]
            == statement[key],
{
}

/// A `config` statement that sets every default option to its default value
/// leaves default options as they are.
pub proof fn lemma_default_config_is_kept(
    options: Map<Seq<char>, ConfigValue>,
    statement: Map<Seq<char>, ConfigValue>,
)
    requires
        settings(options) == default_settings(),
        settings(statement) == default_settings(),
    ensures
        settings(options.union_prefer_right(statement)) == default_settings(),
{
    let merged = options.union_prefer_right(statement);
    assert forall|key: Seq<char>| #[trigger]
        settings(merged).contains_key(key) == default_settings().contains_key(key) by {
        assert(settings(options).contains_key(key) == options.contains_key(key));
        assert(settings(statement).contains_key(key) == statement.contains_key(key));
    }
    assert forall|key: Seq<char>| #[trigger]
        settings(merged).contains_key(key) implies settings(merged)[key] == default_settings()[key] by {
        assert(settings(statement).contains_key(key) == statement.contains_key(key));
        assert(settings(options).contains_key(key) == options.contains_key(key));
        assert(settings(statement)[key] == statement[key]@);
    }
    assert(settings(merged) =~= default_settings());
}

/// The drawing is a function of what the layers hold and of the frame: two
/// interpreters whose layers hold the same give the same drawing.
pub proof fn lemma_drawing_is_determined(frame: Frame, one: Layer, other: Layer)
    requires
        one.same(other),
    ensures
        document(frame, one) == document(frame, other),
{
    assert(other.content(LayerType::Area) == one.content(LayerType::Area));
    assert(other.content(LayerType::Lines) == one.content(LayerType::Lines));
    assert(other.content(LayerType::Decor) == one.content(LayerType::Decor));
    assert(other.content(LayerType::Dots) == one.content(LayerType::Dots));
    assert(other.content(LayerType::Text) == one.content(LayerType::Text));
}

/// The order of the layers in the drawing is fixed: whether a shape is drawn
/// on one layer first and another shape on another layer after it, or the
/// other way round, the drawing is the same.
pub proof fn lemma_layer_order_is_fixed(
    frame: Frame,
    start: Layer,
    first: LayerType,
    one: Seq<Token>,
    second: LayerType,
    two: Seq<Token>,
    between: Layer,
    end: Layer,
    between_swapped: Layer,
    end_swapped: Layer,
)
    requires
        first != second,
        start.painted(between, first, one, Seq::empty()),
        between.painted(end, second, two, Seq::empty()),
        start.painted(between_swapped, second, two, Seq::empty()),
        between_swapped.painted(end_swapped, first, one, Seq::empty()),
    ensures
        end.same(end_swapped),
        document(frame, end) == document(frame, end_swapped),
{
    assert forall|l: LayerType| #[trigger] end_swapped.content(l) == end.content(l) by {
        assert(between.content(l) == start.content(l) + (if l == first {
            one
        } else {
            Seq::empty()
        }) + Seq::<Token>::empty());
        assert(between_swapped.content(l) == start.content(l) + (if l == second {
            two
        } else {
            Seq::empty()
        }) + Seq::<Token>::empty());
        assert(end.content(l) =~= end_swapped.content(l));
    }
    lemma_drawing_is_determined(frame, end, end_swapped);
}

} // verus!
