//! What the builtin functions take and give, type by type.
use vstd::prelude::*;

use crate::ast::{Expr, TypeExpr};
use crate::builtin_calls::{
    any_types, bitfield_call, builtin_call, builtin_signature, call_type_args, function_of,
    or_error, param_types, shape_type, simple_type, Args,
};
use crate::builtins::{
    basic_id, builtin_named, bytes_builtin_named, exact, list_builtin_named, map_builtin_named,
    math_builtin_named, meta_words, of_types, other_builtin_named, plain, set_builtin_named,
    string_builtin_named, type_builtin_named, Arity, Builtin, Meta, Params, Shape, Simple, Target,
};
use crate::diagnostics::ErrorCode;
use crate::made::ids_last_on;
use crate::names::expr_name;
use crate::span::Span;
use crate::state::{intern_type, State};
use crate::steady::{goes_on, ids_last};
use crate::table::look;
use crate::type_laws::law_stored_types_are_found_again;
use crate::types::{
    grounded, lemma_basics, shape_grounded, sound, ty, FunctionShapeV, FunctionTypeId, Type, TypeId,
    TypeInterner, Types,
};
use crate::written_types::{resolve_type, resolve_types};

verus! {

// ---------------------------------------------------------------------------
// Forms
// ---------------------------------------------------------------------------

/// A type by what it is made of.
pub enum Form {
    Is(TypeId),
    /// The declared type of that name.
    Named(Seq<char>),
    List(Box<Form>),
    SetOf(Box<Form>),
    Optional(Box<Form>),
    Secret(Box<Form>),
    MapOf(Box<Form>, Box<Form>),
    Result(Box<Form>, Box<Form>),
    Function(Box<Form>, Box<Form>),
    Function2(Box<Form>, Box<Form>, Box<Form>),
}

/// Whether the type is made of what the form says.
pub open spec fn has_form(s: State, id: TypeId, form: Form) -> bool
    decreases form,
{
    match form {
        Form::Is(x) => id == x,
        Form::Named(name) => id == or_error(look(s.named_types, name)),
        Form::List(x) => ty(s.types, id) matches Type::List(a) && has_form(s, a, *x),
        Form::SetOf(x) => ty(s.types, id) matches Type::SetOf(a) && has_form(s, a, *x),
        Form::Optional(x) => ty(s.types, id) matches Type::Optional(a) && has_form(s, a, *x),
        Form::Secret(x) => ty(s.types, id) matches Type::Secret(a) && has_form(s, a, *x),
        Form::MapOf(x, y) => ty(s.types, id) matches Type::MapOf(a, b) && has_form(s, a, *x) && has_form(
            s,
            b,
            *y,
        ),
        Form::Result(x, y) => ty(s.types, id) matches Type::Result(a, b) && has_form(s, a, *x)
            && has_form(s, b, *y),
        Form::Function(x, y) => ty(s.types, id) matches Type::Function(f) && f.0 < s.types.functions.len()
            && s.types.functions[f.0 as int].params.len() == 1 && has_form(
            s,
            s.types.functions[f.0 as int].params[0],
            *x,
        ) && has_form(s, s.types.functions[f.0 as int].return_type, *y),
        Form::Function2(x, y, z) => ty(s.types, id) matches Type::Function(f) && f.0
            < s.types.functions.len() && s.types.functions[f.0 as int].params.len() == 2 && has_form(
            s,
            s.types.functions[f.0 as int].params[0],
            *x,
        ) && has_form(s, s.types.functions[f.0 as int].params[1], *y) && has_form(
            s,
            s.types.functions[f.0 as int].return_type,
            *z,
        ),
    }
}

pub open spec fn have_forms(s: State, ids: Seq<TypeId>, forms: Seq<Form>) -> bool {
    ids.len() == forms.len() && forall|i: int| 0 <= i < ids.len() ==> has_form(s, #[trigger] ids[i], forms[i])
}

pub open spec fn int64() -> Form {
    Form::Is(TypeInterner::INT64)
}

pub open spec fn uint64() -> Form {
    Form::Is(TypeInterner::UINT64)
}

pub open spec fn float64() -> Form {
    Form::Is(TypeInterner::FLOAT64)
}

pub open spec fn string() -> Form {
    Form::Is(TypeInterner::STRING)
}

pub open spec fn boolean() -> Form {
    Form::Is(TypeInterner::BOOL)
}

pub open spec fn bytes() -> Form {
    Form::Is(TypeInterner::BYTES)
}

pub open spec fn nothing() -> Form {
    Form::Is(TypeInterner::NOTHING)
}

pub open spec fn construction() -> Form {
    Form::Is(TypeInterner::TYPE_CONSTRUCTION)
}

/// The error type, which fits with any.
pub open spec fn any() -> Form {
    Form::Is(TypeInterner::ERROR)
}

pub open spec fn list(x: Form) -> Form {
    Form::List(Box::new(x))
}

pub open spec fn set_of(x: Form) -> Form {
    Form::SetOf(Box::new(x))
}

pub open spec fn optional(x: Form) -> Form {
    Form::Optional(Box::new(x))
}

pub open spec fn secret(x: Form) -> Form {
    Form::Secret(Box::new(x))
}

pub open spec fn map_of(x: Form, y: Form) -> Form {
    Form::MapOf(Box::new(x), Box::new(y))
}

pub open spec fn result(x: Form, y: Form) -> Form {
    Form::Result(Box::new(x), Box::new(y))
}

pub open spec fn function(x: Form, y: Form) -> Form {
    Form::Function(Box::new(x), Box::new(y))
}

pub open spec fn function2(x: Form, y: Form, z: Form) -> Form {
    Form::Function2(Box::new(x), Box::new(y), Box::new(z))
}

// ---------------------------------------------------------------------------
// Calls
// ---------------------------------------------------------------------------

/// A call of a builtin: where it is looked at, what is called, and with which type
/// arguments.
pub struct BuiltinCall {
    pub s: State,
    pub callee: Expr,
    pub type_args: Seq<TypeExpr>,
    pub span: Span,
}

/// The state in which the type arguments are resolved, and their types.
pub open spec fn resolved(c: BuiltinCall) -> (State, Seq<TypeId>) {
    resolve_types(c.s, c.type_args, 0, Seq::empty())
}

/// The type argument at a place; any type where none is written.
pub open spec fn given(c: BuiltinCall, i: int) -> Form {
    if 0 <= i < c.type_args.len() {
        Form::Is(resolved(c).1[i])
    } else {
        any()
    }
}

/// The type argument at a place, or else another.
pub open spec fn given_or(c: BuiltinCall, i: int, other: Form) -> Form {
    if 0 <= i < c.type_args.len() {
        Form::Is(resolved(c).1[i])
    } else {
        other
    }
}

/// Whether the state can be one of a checker that resolved the type arguments: ids are
/// those of stored types, and a few more types can be stored.
pub open spec fn in_order(c: BuiltinCall) -> bool {
    let (s, ids) = resolved(c);
    &&& sound(s.types)
    &&& s.types.types.len() + 16 <= usize::MAX
    &&& s.types.functions.len() + 16 <= usize::MAX
    &&& ids.len() == c.type_args.len()
    &&& forall|i: int| 0 <= i < ids.len() ==> #[trigger] ids[i] < s.types.types.len()
    &&& forall|name: Seq<char>| #[trigger]
        s.named_types.contains_key(name) ==> s.named_types[name] < s.types.types.len()
    &&& sound(c.s.types)
    &&& c.s.types.types.len() + 16 <= usize::MAX
    &&& c.s.types.functions.len() + 16 <= usize::MAX
    &&& forall|name: Seq<char>| #[trigger]
        c.s.named_types.contains_key(name) ==> c.s.named_types[name] < c.s.types.types.len()
}

/// Whether the call goes to the builtin of that name.
pub open spec fn goes_to(c: BuiltinCall, name: Seq<char>) -> bool {
    expr_name(c.s.names, c.callee) == Some(name) && bitfield_call(c.s, name, c.type_args, c.span) is None
}

pub open spec fn state_after(c: BuiltinCall) -> State {
    builtin_signature(c.s, c.callee, c.type_args, c.span).0
}

pub open spec fn signature_of(c: BuiltinCall) -> Option<FunctionShapeV> {
    builtin_signature(c.s, c.callee, c.type_args, c.span).1
}

/// Whether a call of the builtin takes and gives these types, where the number of its
/// type arguments is one of `counts`, and is reported where it is none of them.
#[verifier::opaque]
pub open spec fn takes_and_gives(
    c: BuiltinCall,
    name: Seq<char>,
    counts: Seq<nat>,
    params: Seq<Form>,
    gives: Form,
) -> bool {
    goes_to(c, name) ==> (signature_of(c) matches Some(f) && if counts.contains(c.type_args.len()) {
        &&& state_after(c).reports == resolved(c).0.reports
        &&& have_forms(state_after(c), f.params, params)
        &&& has_form(state_after(c), f.return_type, gives)
    } else {
        &&& state_after(c).reports.len() == c.s.reports.len() + 1
        &&& state_after(c).reports.last().code == ErrorCode::UnknownType
        &&& state_after(c).reports.last().span == c.span
    })
}

/// The same of a builtin whose first type argument has to be of a kind.
#[verifier::opaque]
pub open spec fn takes_and_gives_of(
    c: BuiltinCall,
    name: Seq<char>,
    counts: Seq<nat>,
    params: Seq<Form>,
    gives: Form,
    allowed: bool,
) -> bool {
    goes_to(c, name) ==> (signature_of(c) matches Some(f) && if !counts.contains(c.type_args.len()) {
        &&& state_after(c).reports.len() == c.s.reports.len() + 1
        &&& state_after(c).reports.last().code == ErrorCode::UnknownType
        &&& state_after(c).reports.last().span == c.span
    } else if allowed {
        &&& state_after(c).reports == resolved(c).0.reports
        &&& have_forms(state_after(c), f.params, params)
        &&& has_form(state_after(c), f.return_type, gives)
    } else {
        c.type_args.len() == 1 ==> {
            &&& state_after(c).reports.len() == resolved(c).0.reports.len() + 1
            &&& state_after(c).reports.last().code == ErrorCode::UnknownType
            &&& state_after(c).reports.last().span == c.span
        }
    })
}

/// Whether a call of the builtin with the wrong number of type arguments is taken to
/// have these parameters, and gives the error type.
#[verifier::opaque]
pub open spec fn otherwise_takes(c: BuiltinCall, name: Seq<char>, count: nat, params: Seq<Form>) -> bool {
    goes_to(c, name) && c.type_args.len() != count ==> (signature_of(c) matches Some(f) && have_forms(
        state_after(c),
        f.params,
        params,
    ) && f.return_type == TypeInterner::ERROR)
}

/// The kind of the first type argument.
pub open spec fn first_type(c: BuiltinCall) -> Type {
    let (s, id) = resolve_type(c.s, c.type_args[0]);
    ty(s.types, id)
}

// ---------------------------------------------------------------------------
// From shapes to forms
// ---------------------------------------------------------------------------

spec fn simple_form(x: Simple, args: Args) -> Form {
    match x {
        Simple::A => Form::Is(args.a),
        Simple::B => Form::Is(args.b),
        Simple::C => Form::Is(args.c),
        Simple::Meta(m) => Form::Named(meta_words(m)),
        _ => Form::Is(basic_id(x)),
    }
}

spec fn shape_form(shape: Shape, args: Args) -> Form {
    match shape {
        Shape::One(x) => simple_form(x, args),
        Shape::List(x) => list(simple_form(x, args)),
        Shape::ListOfLists(x) => list(list(simple_form(x, args))),
        Shape::MapOf(x, y) => map_of(simple_form(x, args), simple_form(y, args)),
        Shape::ListOfMaps(x, y) => list(map_of(simple_form(x, args), simple_form(y, args))),
        Shape::MapToLists(x, y) => map_of(simple_form(x, args), list(simple_form(y, args))),
        Shape::SetOf(x) => set_of(simple_form(x, args)),
        Shape::Optional(x) => optional(simple_form(x, args)),
        Shape::Result(x, y) => result(simple_form(x, args), simple_form(y, args)),
        Shape::Secret(x) => secret(simple_form(x, args)),
        Shape::Fn1(x, y) => function(simple_form(x, args), simple_form(y, args)),
        Shape::Fn2(x, y, z) => function2(
            simple_form(x, args),
            simple_form(y, args),
            simple_form(z, args),
        ),
        Shape::Fn1ToList(x, y) => function(simple_form(x, args), list(simple_form(y, args))),
    }
}

spec fn params_forms(params: Params, args: Args) -> Seq<Form> {
    match params {
        Params::P0 => seq![],
        Params::P1(x) => seq![shape_form(x, args)],
        Params::P2(x, y) => seq![shape_form(x, args), shape_form(y, args)],
        Params::P3(x, y, z) => seq![shape_form(x, args), shape_form(y, args), shape_form(z, args)],
    }
}

/// Whether the state has room for `n` more types.
#[verifier::opaque]
spec fn roomy(s: State, args: Args, n: nat) -> bool {
    &&& sound(s.types)
    &&& s.types.types.len() + n <= usize::MAX
    &&& s.types.functions.len() + n <= usize::MAX
    &&& args.a < s.types.types.len()
    &&& args.b < s.types.types.len()
    &&& args.c < s.types.types.len()
    &&& forall|name: Seq<char>| #[trigger]
        s.named_types.contains_key(name) ==> s.named_types[name] < s.types.types.len()
}

/// Whether `t` is `s` with at most `n` more types.
#[verifier::opaque]
spec fn added(s: State, t: State, n: nat) -> bool {
    &&& t == (State { types: t.types, ..s })
    &&& ids_last(s.types, t.types)
    &&& sound(t.types)
    &&& t.types.types.len() <= s.types.types.len() + n
    &&& t.types.functions.len() <= s.types.functions.len() + n
}

proof fn added_on(s: State, t: State, u: State, n: nat, m: nat)
    requires
        added(s, t, n),
        added(t, u, m),
    ensures
        added(s, u, n + m),
{
    reveal(added);
    ids_last_on(s.types, t.types, u.types);
}

proof fn added_most(s: State, t: State, n: nat, m: nat)
    requires
        added(s, t, n),
        n <= m,
    ensures
        added(s, t, m),
{
    reveal(added);
}

proof fn added_none(s: State, args: Args, n: nat)
    requires
        roomy(s, args, n),
    ensures
        added(s, s, 0),
{
    reveal(added);
    reveal(roomy);
}

proof fn less_room(s: State, args: Args, n: nat, m: nat)
    requires
        roomy(s, args, n),
        m <= n,
    ensures
        roomy(s, args, m),
{
    reveal(roomy);
}

proof fn form_stays(s: State, t: State, id: TypeId, form: Form, n: nat)
    requires
        added(s, t, n),
        has_form(s, id, form),
    ensures
        has_form(t, id, form),
    decreases form,
{
    reveal(added);
    if id < s.types.types.len() {
        assert(s.types.types[id as int] == t.types.types[id as int]);
    }
    match form {
        Form::Is(_) => {},
        Form::Named(_) => {},
        Form::List(x) => form_stays(s, t, ty(s.types, id)->List_0, *x, n),
        Form::SetOf(x) => form_stays(s, t, ty(s.types, id)->SetOf_0, *x, n),
        Form::Optional(x) => form_stays(s, t, ty(s.types, id)->Optional_0, *x, n),
        Form::Secret(x) => form_stays(s, t, ty(s.types, id)->Secret_0, *x, n),
        Form::MapOf(x, y) => {
            form_stays(s, t, ty(s.types, id)->MapOf_0, *x, n);
            form_stays(s, t, ty(s.types, id)->MapOf_1, *y, n);
        },
        Form::Result(x, y) => {
            form_stays(s, t, ty(s.types, id)->Result_0, *x, n);
            form_stays(s, t, ty(s.types, id)->Result_1, *y, n);
        },
        Form::Function(x, y) => {
            let f = ty(s.types, id)->Function_0;
            assert(s.types.functions[f.0 as int] == t.types.functions[f.0 as int]);
            let shape = s.types.functions[f.0 as int];
            form_stays(s, t, shape.params[0], *x, n);
            form_stays(s, t, shape.return_type, *y, n);
        },
        Form::Function2(x, y, z) => {
            let f = ty(s.types, id)->Function_0;
            assert(s.types.functions[f.0 as int] == t.types.functions[f.0 as int]);
            let shape = s.types.functions[f.0 as int];
            form_stays(s, t, shape.params[0], *x, n);
            form_stays(s, t, shape.params[1], *y, n);
            form_stays(s, t, shape.return_type, *z, n);
        },
    }
}

proof fn simple_has_form(s: State, x: Simple, args: Args)
    requires
        exists|n: nat| roomy(s, args, n),
    ensures
        has_form(s, simple_type(s, x, args), simple_form(x, args)),
        simple_type(s, x, args) < s.types.types.len(),
{
    reveal(roomy);
    lemma_basics(s.types);
}

proof fn interned(s: State, t: Type, args: Args, n: nat)
    requires
        roomy(s, args, n + 1),
        grounded(s.types, t, s.types.types.len()),
    ensures
        ({
            let (after, id) = intern_type(s, t);
            &&& ty(after.types, id) == t
            &&& added(s, after, 1)
            &&& id < after.types.types.len()
            &&& roomy(after, args, n)
        }),
{
    reveal(roomy);
    reveal(added);
    law_stored_types_are_found_again(s.types, t);
    let (after, id) = intern_type(s, t);
    if s.types.types.contains(t) {
        let i = s.types.types.index_of(t);
        assert(0 <= i < s.types.types.len());
    }
}

proof fn function_interned(s: State, params: Seq<TypeId>, return_type: TypeId, args: Args, n: nat)
    requires
        roomy(s, args, n + 1),
        forall|i: int| 0 <= i < params.len() ==> #[trigger] params[i] < s.types.types.len(),
        return_type < s.types.types.len(),
    ensures
        ({
            let (after, id) = function_of(s, params, return_type);
            &&& added(s, after, 1)
            &&& id < after.types.types.len()
            &&& roomy(after, args, n)
            &&& ty(after.types, id) matches Type::Function(f) && f.0 < after.types.functions.len()
                && after.types.functions[f.0 as int] == (FunctionShapeV { params, return_type })
        }),
{
    reveal(roomy);
    reveal(added);
    let f = FunctionShapeV { params, return_type };
    let ts = s.types;
    assert(shape_grounded(f, ts.types.len()));
    if ts.functions.contains(f) {
        let i = ts.functions.index_of(f);
        assert(0 <= i < ts.functions.len() && ts.functions[i] == f);
        interned(s, Type::Function(FunctionTypeId(i as usize)), args, n);
    } else {
        let more = Types { functions: ts.functions.push(f), ..ts };
        assert(goes_on(ts.functions, more.functions));
        assert forall|i: int| 0 <= i < more.types.len() implies grounded(
            more,
            #[trigger] more.types[i],
            i as nat,
        ) by {
            assert(grounded(ts, ts.types[i], i as nat));
        }
        assert(more.functions.no_duplicates());
        let s1 = State { types: more, ..s };
        let t = Type::Function(FunctionTypeId(ts.functions.len() as usize));
        assert(more.functions[ts.functions.len() as int] == f);
        assert(grounded(more, t, more.types.len()));
        law_stored_types_are_found_again(more, t);
        let (after, id) = intern_type(s1, t);
        if more.types.contains(t) {
            let i = more.types.index_of(t);
            assert(0 <= i < more.types.len());
        }
        ids_last_on(ts, more, after.types);
        assert(after.types.functions == more.functions);
    }
}

proof fn flat_has_form(s: State, shape: Shape, args: Args, n: nat)
    requires
        roomy(s, args, n + 2),
        shape is List || shape is SetOf || shape is Optional || shape is Secret || shape is MapOf || shape is Result,
    ensures
        ({
            let (after, id) = shape_type(s, shape, args);
            &&& added(s, after, 2)
            &&& id < after.types.types.len()
            &&& roomy(after, args, n)
            &&& has_form(after, id, shape_form(shape, args))
        }),
{
    reveal(shape_type);
    reveal_with_fuel(has_form, 3);
    let (after, id) = shape_type(s, shape, args);
    match shape {
        Shape::List(x) => {
            simple_has_form(s, x, args);
            interned(s, Type::List(simple_type(s, x, args)), args, n + 1);
            form_stays(s, after, simple_type(s, x, args), simple_form(x, args), 1);
        },
        Shape::SetOf(x) => {
            simple_has_form(s, x, args);
            interned(s, Type::SetOf(simple_type(s, x, args)), args, n + 1);
            form_stays(s, after, simple_type(s, x, args), simple_form(x, args), 1);
        },
        Shape::Optional(x) => {
            simple_has_form(s, x, args);
            interned(s, Type::Optional(simple_type(s, x, args)), args, n + 1);
            form_stays(s, after, simple_type(s, x, args), simple_form(x, args), 1);
        },
        Shape::Secret(x) => {
            simple_has_form(s, x, args);
            interned(s, Type::Secret(simple_type(s, x, args)), args, n + 1);
            form_stays(s, after, simple_type(s, x, args), simple_form(x, args), 1);
        },
        Shape::MapOf(x, y) => {
            simple_has_form(s, x, args);
            simple_has_form(s, y, args);
            interned(s, Type::MapOf(simple_type(s, x, args), simple_type(s, y, args)), args, n + 1);
            form_stays(s, after, simple_type(s, x, args), simple_form(x, args), 1);
            form_stays(s, after, simple_type(s, y, args), simple_form(y, args), 1);
        },
        Shape::Result(x, y) => {
            simple_has_form(s, x, args);
            simple_has_form(s, y, args);
            interned(s, Type::Result(simple_type(s, x, args), simple_type(s, y, args)), args, n + 1);
            form_stays(s, after, simple_type(s, x, args), simple_form(x, args), 1);
            form_stays(s, after, simple_type(s, y, args), simple_form(y, args), 1);
        },
        _ => {},
    }
    added_most(s, after, 1, 2);
    less_room(after, args, n + 1, n);
}

proof fn nested_has_form(s: State, shape: Shape, args: Args, n: nat)
    requires
        roomy(s, args, n + 2),
        shape is ListOfLists || shape is ListOfMaps || shape is MapToLists,
    ensures
        ({
            let (after, id) = shape_type(s, shape, args);
            &&& added(s, after, 2)
            &&& id < after.types.types.len()
            &&& roomy(after, args, n)
            &&& has_form(after, id, shape_form(shape, args))
        }),
{
    reveal(shape_type);
    reveal_with_fuel(has_form, 3);
    let (after, id) = shape_type(s, shape, args);
    match shape {
        Shape::ListOfLists(x) => {
            simple_has_form(s, x, args);
            let t = Type::List(simple_type(s, x, args));
            interned(s, t, args, n + 1);
            let (s1, inner) = intern_type(s, t);
            interned(s1, Type::List(inner), args, n);
            added_on(s, s1, after, 1, 1);
            form_stays(s, s1, simple_type(s, x, args), simple_form(x, args), 1);
            form_stays(s1, after, inner, list(simple_form(x, args)), 1);
        },
        Shape::ListOfMaps(x, y) => {
            simple_has_form(s, x, args);
            simple_has_form(s, y, args);
            let t = Type::MapOf(simple_type(s, x, args), simple_type(s, y, args));
            interned(s, t, args, n + 1);
            let (s1, inner) = intern_type(s, t);
            interned(s1, Type::List(inner), args, n);
            added_on(s, s1, after, 1, 1);
            form_stays(s, s1, simple_type(s, x, args), simple_form(x, args), 1);
            form_stays(s, s1, simple_type(s, y, args), simple_form(y, args), 1);
            form_stays(s1, after, inner, map_of(simple_form(x, args), simple_form(y, args)), 1);
        },
        Shape::MapToLists(x, y) => {
            simple_has_form(s, x, args);
            simple_has_form(s, y, args);
            let t = Type::List(simple_type(s, y, args));
            interned(s, t, args, n + 1);
            let (s1, inner) = intern_type(s, t);
            interned(s1, Type::MapOf(simple_type(s, x, args), inner), args, n);
            added_on(s, s1, after, 1, 1);
            form_stays(s, s1, simple_type(s, y, args), simple_form(y, args), 1);
            form_stays(s1, after, inner, list(simple_form(y, args)), 1);
            form_stays(s, after, simple_type(s, x, args), simple_form(x, args), 2);
        },
        _ => {},
    }
}

proof fn function_has_form(s: State, shape: Shape, args: Args, n: nat)
    requires
        roomy(s, args, n + 2),
        shape is Fn1 || shape is Fn2,
    ensures
        ({
            let (after, id) = shape_type(s, shape, args);
            &&& added(s, after, 2)
            &&& id < after.types.types.len()
            &&& roomy(after, args, n)
            &&& has_form(after, id, shape_form(shape, args))
        }),
{
    reveal(shape_type);
    reveal_with_fuel(has_form, 3);
    let (after, id) = shape_type(s, shape, args);
    match shape {
        Shape::Fn1(x, y) => {
            simple_has_form(s, x, args);
            simple_has_form(s, y, args);
            function_interned(s, seq![simple_type(s, x, args)], simple_type(s, y, args), args, n + 1);
            form_stays(s, after, simple_type(s, x, args), simple_form(x, args), 1);
            form_stays(s, after, simple_type(s, y, args), simple_form(y, args), 1);
        },
        Shape::Fn2(x, y, z) => {
            simple_has_form(s, x, args);
            simple_has_form(s, y, args);
            simple_has_form(s, z, args);
            function_interned(
                s,
                seq![simple_type(s, x, args), simple_type(s, y, args)],
                simple_type(s, z, args),
                args,
                n + 1,
            );
            form_stays(s, after, simple_type(s, x, args), simple_form(x, args), 1);
            form_stays(s, after, simple_type(s, y, args), simple_form(y, args), 1);
            form_stays(s, after, simple_type(s, z, args), simple_form(z, args), 1);
        },
        _ => {},
    }
    added_most(s, after, 1, 2);
    less_room(after, args, n + 1, n);
}

proof fn list_function_has_form(s: State, shape: Shape, args: Args, n: nat)
    requires
        roomy(s, args, n + 2),
        shape is Fn1ToList,
    ensures
        ({
            let (after, id) = shape_type(s, shape, args);
            &&& added(s, after, 2)
            &&& id < after.types.types.len()
            &&& roomy(after, args, n)
            &&& has_form(after, id, shape_form(shape, args))
        }),
{
    reveal(shape_type);
    reveal_with_fuel(has_form, 3);
    let (after, id) = shape_type(s, shape, args);
    match shape {
        Shape::Fn1ToList(x, y) => {
            simple_has_form(s, x, args);
            simple_has_form(s, y, args);
            let t = Type::List(simple_type(s, y, args));
            interned(s, t, args, n + 1);
            let (s1, inner) = intern_type(s, t);
            function_interned(s1, seq![simple_type(s, x, args)], inner, args, n);
            added_on(s, s1, after, 1, 1);
            form_stays(s, s1, simple_type(s, y, args), simple_form(y, args), 1);
            form_stays(s1, after, inner, list(simple_form(y, args)), 1);
            form_stays(s, after, simple_type(s, x, args), simple_form(x, args), 2);
        },
        _ => {},
    }
}

proof fn shape_has_form(s: State, shape: Shape, args: Args, n: nat)
    requires
        roomy(s, args, n + 2),
    ensures
        ({
            let (after, id) = shape_type(s, shape, args);
            &&& added(s, after, 2)
            &&& id < after.types.types.len()
            &&& roomy(after, args, n)
            &&& has_form(after, id, shape_form(shape, args))
        }),
{
    match shape {
        Shape::One(x) => {
            reveal(shape_type);
            simple_has_form(s, x, args);
            added_none(s, args, n + 2);
            added_most(s, s, 0, 2);
            less_room(s, args, n + 2, n);
        },
        Shape::ListOfLists(_) => nested_has_form(s, shape, args, n),
        Shape::ListOfMaps(_, _) => nested_has_form(s, shape, args, n),
        Shape::MapToLists(_, _) => nested_has_form(s, shape, args, n),
        Shape::Fn1(_, _) => function_has_form(s, shape, args, n),
        Shape::Fn2(_, _, _) => function_has_form(s, shape, args, n),
        Shape::Fn1ToList(_, _) => list_function_has_form(s, shape, args, n),
        _ => flat_has_form(s, shape, args, n),
    }
}

proof fn params_have_forms(s: State, params: Params, args: Args, n: nat)
    requires
        roomy(s, args, n + 6),
    ensures
        ({
            let (after, ids) = param_types(s, params, args);
            &&& added(s, after, 6)
            &&& roomy(after, args, n)
            &&& have_forms(after, ids, params_forms(params, args))
        }),
{
    reveal(param_types);
    match params {
        Params::P0 => {
            added_none(s, args, n + 6);
            added_most(s, s, 0, 6);
            less_room(s, args, n + 6, n);
        },
        Params::P1(x) => {
            shape_has_form(s, x, args, n + 4);
            let (s1, a) = shape_type(s, x, args);
            added_most(s, s1, 2, 6);
            less_room(s1, args, n + 4, n);
        },
        Params::P2(x, y) => {
            shape_has_form(s, x, args, n + 4);
            let (s1, a) = shape_type(s, x, args);
            shape_has_form(s1, y, args, n + 2);
            let (s2, b) = shape_type(s1, y, args);
            added_on(s, s1, s2, 2, 2);
            form_stays(s1, s2, a, shape_form(x, args), 2);
            added_most(s, s2, 4, 6);
            less_room(s2, args, n + 2, n);
        },
        Params::P3(x, y, z) => {
            shape_has_form(s, x, args, n + 4);
            let (s1, a) = shape_type(s, x, args);
            shape_has_form(s1, y, args, n + 2);
            let (s2, b) = shape_type(s1, y, args);
            added_on(s, s1, s2, 2, 2);
            form_stays(s1, s2, a, shape_form(x, args), 2);
            shape_has_form(s2, z, args, n);
            let (s3, c) = shape_type(s2, z, args);
            added_on(s, s2, s3, 4, 2);
            form_stays(s2, s3, a, shape_form(x, args), 2);
            form_stays(s2, s3, b, shape_form(y, args), 2);
        },
    }
}

proof fn all_have_forms(s: State, params: Params, ret: Shape, args: Args)
    requires
        roomy(s, args, 8),
    ensures
        ({
            let (s1, ids) = param_types(s, params, args);
            let (after, id) = shape_type(s1, ret, args);
            &&& added(s, after, 8)
            &&& have_forms(after, ids, params_forms(params, args))
            &&& has_form(after, id, shape_form(ret, args))
        }),
{
    params_have_forms(s, params, args, 2);
    let (s1, ids) = param_types(s, params, args);
    shape_has_form(s1, ret, args, 0);
    let (after, id) = shape_type(s1, ret, args);
    added_on(s, s1, after, 6, 2);
    let forms = params_forms(params, args);
    assert forall|i: int| 0 <= i < ids.len() implies has_form(after, #[trigger] ids[i], forms[i]) by {
        form_stays(s1, after, ids[i], forms[i], 2);
    }
}

// ---------------------------------------------------------------------------
// Type arguments
// ---------------------------------------------------------------------------

spec fn counts_of(arity: Arity) -> Seq<nat> {
    match arity {
        Arity::Nothing => seq![0nat],
        Arity::One => seq![1nat],
        Arity::Two => seq![2nat],
        Arity::UpToOne => seq![0nat, 1nat],
        Arity::UpToOneOrFloat => seq![0nat, 1nat],
        Arity::NoneOrTwo => seq![0nat, 2nat],
        Arity::NoneTwoOrThree => seq![0nat, 2nat, 3nat],
    }
}

spec fn kind_allowed(target: Target, t: Type) -> bool {
    match target {
        Target::Any => true,
        Target::StructOrBitfield => t is Struct || t is Bitfield,
        Target::EnumOnly => t is Enum,
        Target::MachineOnly => t is Machine || t is MachineState,
        Target::Constructible => t is Struct || t is Bitfield || t is Enum || t is Machine
            || t is MachineState,
    }
}

/// The types that stand for the type arguments of a call with the right number of them.
spec fn args_in(c: BuiltinCall, arity: Arity) -> Args {
    let ids = resolved(c).1;
    let n = c.type_args.len();
    let error = TypeInterner::ERROR;
    match arity {
        Arity::UpToOneOrFloat => Args {
            a: if n > 0 {
                ids[0]
            } else {
                TypeInterner::FLOAT64
            },
            b: error,
            c: error,
        },
        _ => Args {
            a: if n > 0 {
                ids[0]
            } else {
                error
            },
            b: if n > 1 {
                ids[1]
            } else {
                error
            },
            c: if n > 2 {
                ids[2]
            } else if n == 2 && arity == Arity::NoneTwoOrThree {
                ids[1]
            } else {
                error
            },
        },
    }
}

proof fn counted(arity: Arity, n: nat)
    ensures
        counts_of(arity).contains(n) <==> match arity {
            Arity::Nothing => n == 0,
            Arity::One => n == 1,
            Arity::Two => n == 2,
            Arity::UpToOne => n == 0 || n == 1,
            Arity::UpToOneOrFloat => n == 0 || n == 1,
            Arity::NoneOrTwo => n == 0 || n == 2,
            Arity::NoneTwoOrThree => n == 0 || n == 2 || n == 3,
        },
{
    let s = counts_of(arity);
    match arity {
        Arity::Nothing | Arity::One | Arity::Two => {
            assert(s.contains(s[0]));
        },
        Arity::NoneTwoOrThree => {
            assert(s.contains(s[0]) && s.contains(s[1]) && s.contains(s[2]));
        },
        _ => {
            assert(s.contains(s[0]) && s.contains(s[1]));
        },
    }
}

proof fn builtin_does(c: BuiltinCall, name: Seq<char>, b: Builtin)
    requires
        in_order(c),
        builtin_named(name) == Some(b),
        b.target == Target::Any || b.arity == Arity::One || b.arity == Arity::Two,
    ensures
        takes_and_gives_of(
            c,
            name,
            counts_of(b.arity),
            params_forms(b.params, args_in(c, b.arity)),
            shape_form(b.ret, args_in(c, b.arity)),
            kind_allowed(b.target, first_type(c)),
        ),
        b.arity == Arity::One ==> otherwise_takes(c, name, 1, params_forms(b.fallback, any_types())),
        b.arity == Arity::Two ==> otherwise_takes(c, name, 2, params_forms(b.fallback, any_types())),
{
    reveal(takes_and_gives_of);
    reveal(otherwise_takes);
    if goes_to(c, name) {
        reveal(builtin_signature);
        reveal(builtin_call);
        reveal(call_type_args);
        reveal_with_fuel(resolve_types, 4);
        counted(b.arity, c.type_args.len());
        lemma_basics(c.s.types);
        lemma_basics(resolved(c).0.types);
        let (s1, found) = call_type_args(c.s, name, b, c.type_args, c.span);
        match found {
            Some(args) => {
                if b.arity != Arity::Two || kind_allowed(b.target, first_type(c)) {
                    assert(roomy(s1, args, 8)) by {
                        reveal(roomy);
                        if c.type_args.len() > 0 {
                            assert(resolved(c).1[0] < resolved(c).0.types.types.len());
                        }
                        if c.type_args.len() > 1 {
                            assert(resolved(c).1[1] < resolved(c).0.types.types.len());
                        }
                        if c.type_args.len() > 2 {
                            assert(resolved(c).1[2] < resolved(c).0.types.types.len());
                        }
                    }
                    all_have_forms(s1, b.params, b.ret, args);
                    reveal(added);
                }
            },
            None => {
                assert(roomy(s1, any_types(), 6)) by {
                    reveal(roomy);
                }
                params_have_forms(s1, b.fallback, any_types(), 0);
                reveal(added);
            },
        }
    }
}

proof fn string_table_prefix(name: Seq<char>)
    ensures
        string_builtin_named(name) is Some ==> name.len() >= 7 && name[0] == 's' && name[1] == 't' && name[2] == 'r' && name[3] == 'i' && name[4] == 'n' && name[5] == 'g' && name[6] == '.',
{
    reveal(string_builtin_named);
    reveal_strlit("string.from_int64");
    reveal_strlit("string.from_uint64");
    reveal_strlit("string.from_float64");
    reveal_strlit("string.from_bool");
    reveal_strlit("string.length");
    reveal_strlit("string.char_count");
    reveal_strlit("string.contains");
    reveal_strlit("string.starts_with");
    reveal_strlit("string.ends_with");
    reveal_strlit("string.trim");
    reveal_strlit("string.upper");
    reveal_strlit("string.lower");
    reveal_strlit("string.reverse");
    reveal_strlit("string.trim_start");
    reveal_strlit("string.trim_end");
    reveal_strlit("string.slugify");
    reveal_strlit("string.to_upper_first");
    reveal_strlit("string.to_lower_first");
    reveal_strlit("string.replace");
    reveal_strlit("string.between");
    reveal_strlit("string.split");
    reveal_strlit("string.join");
    reveal_strlit("string.after");
    reveal_strlit("string.before");
    reveal_strlit("string.remove_prefix");
    reveal_strlit("string.remove_suffix");
    reveal_strlit("string.chars");
    reveal_strlit("string.words");
    reveal_strlit("string.lines");
    reveal_strlit("string.is_empty");
    reveal_strlit("string.is_not_empty");
    reveal_strlit("string.is_numeric");
    reveal_strlit("string.is_alpha");
    reveal_strlit("string.repeat");
    reveal_strlit("string.take_chars");
    reveal_strlit("string.take_last_chars");
    reveal_strlit("string.drop_chars");
    reveal_strlit("string.center");
    reveal_strlit("string.ljust");
    reveal_strlit("string.rjust");
    reveal_strlit("string.zfill");
    reveal_strlit("string.slice");
    reveal_strlit("string.pad_left");
    reveal_strlit("string.pad_start");
    reveal_strlit("string.pad_end");
    reveal_strlit("string.truncate");
    reveal_strlit("string.char_at");
    reveal_strlit("string.index_of");
    reveal_strlit("string.count");
}

proof fn list_table_prefix(name: Seq<char>)
    ensures
        list_builtin_named(name) is Some ==> name.len() >= 5 && name[0] == 'l' && name[1] == 'i' && name[2] == 's' && name[3] == 't' && name[4] == '.',
{
    reveal(list_builtin_named);
    reveal_strlit("list.new");
    reveal_strlit("list.append");
    reveal_strlit("list.length");
    reveal_strlit("list.get");
    reveal_strlit("list.reverse");
    reveal_strlit("list.sort");
    reveal_strlit("list.unique");
    reveal_strlit("list.flatten");
    reveal_strlit("list.is_empty");
    reveal_strlit("list.is_sorted");
    reveal_strlit("list.skip");
    reveal_strlit("list.take");
    reveal_strlit("list.remove");
    reveal_strlit("list.sort_by_index");
    reveal_strlit("list.remove_at");
    reveal_strlit("list.contains");
    reveal_strlit("list.index_of");
    reveal_strlit("list.last_index_of");
    reveal_strlit("list.concat");
    reveal_strlit("list.zip");
    reveal_strlit("list.first");
    reveal_strlit("list.last");
    reveal_strlit("list.filter");
    reveal_strlit("list.map");
    reveal_strlit("list.find");
    reveal_strlit("list.sort_by");
    reveal_strlit("list.all");
    reveal_strlit("list.any");
    reveal_strlit("list.count");
    reveal_strlit("list.sum");
    reveal_strlit("list.group_by");
    reveal_strlit("list.reduce");
    reveal_strlit("list.chunk");
    reveal_strlit("list.all_elements_in");
    reveal_strlit("list.enumerate");
    reveal_strlit("list.from_set");
    reveal_strlit("list.repeat");
    reveal_strlit("list.insert_at");
    reveal_strlit("list.swap");
    reveal_strlit("list.flat_map");
}

proof fn map_table_prefix(name: Seq<char>)
    ensures
        map_builtin_named(name) is Some ==> name.len() >= 4 && name[0] == 'm' && name[1] == 'a' && name[2] == 'p' && name[3] == '.',
{
    reveal(map_builtin_named);
    reveal_strlit("map.new");
    reveal_strlit("map.length");
    reveal_strlit("map.is_empty");
    reveal_strlit("map.has");
    reveal_strlit("map.contains_key");
    reveal_strlit("map.get");
    reveal_strlit("map.insert");
    reveal_strlit("map.set");
    reveal_strlit("map.remove");
    reveal_strlit("map.keys");
    reveal_strlit("map.values");
    reveal_strlit("map.get_or");
    reveal_strlit("map.merge");
    reveal_strlit("map.from_lists");
    reveal_strlit("map.entries");
    reveal_strlit("map.filter");
    reveal_strlit("map.map_values");
    reveal_strlit("map.for_each");
}

proof fn set_table_prefix(name: Seq<char>)
    ensures
        set_builtin_named(name) is Some ==> name.len() >= 4 && name[0] == 's' && name[1] == 'e' && name[2] == 't' && name[3] == '.',
{
    reveal(set_builtin_named);
    reveal_strlit("set.new");
    reveal_strlit("set.add");
    reveal_strlit("set.remove");
    reveal_strlit("set.contains");
    reveal_strlit("set.length");
    reveal_strlit("set.is_empty");
    reveal_strlit("set.to_list");
    reveal_strlit("set.union");
    reveal_strlit("set.intersection");
    reveal_strlit("set.difference");
}

proof fn math_table_prefix(name: Seq<char>)
    ensures
        math_builtin_named(name) is Some ==> name.len() >= 5 && name[0] == 'm' && name[1] == 'a' && name[2] == 't' && name[3] == 'h' && name[4] == '.',
{
    reveal(math_builtin_named);
    reveal_strlit("math.sqrt");
    reveal_strlit("math.log");
    reveal_strlit("math.log2");
    reveal_strlit("math.log10");
    reveal_strlit("math.floor");
    reveal_strlit("math.ceil");
    reveal_strlit("math.round");
    reveal_strlit("math.sin");
    reveal_strlit("math.cos");
    reveal_strlit("math.tan");
    reveal_strlit("math.to_radians");
    reveal_strlit("math.to_degrees");
    reveal_strlit("math.pow");
    reveal_strlit("math.clamp");
    reveal_strlit("math.average");
    reveal_strlit("math.median");
    reveal_strlit("math.pi");
    reveal_strlit("math.e");
    reveal_strlit("math.mod");
    reveal_strlit("math.gcd");
    reveal_strlit("math.lcm");
    reveal_strlit("math.is_even");
    reveal_strlit("math.is_odd");
    reveal_strlit("math.factorial");
    reveal_strlit("math.sign");
    reveal_strlit("math.sum");
}

proof fn bytes_table_prefix(name: Seq<char>)
    ensures
        bytes_builtin_named(name) is Some ==> name.len() >= 6 && name[0] == 'b' && name[1] == 'y' && name[2] == 't' && name[3] == 'e' && name[4] == 's' && name[5] == '.',
{
    reveal(bytes_builtin_named);
    reveal_strlit("bytes.new");
    reveal_strlit("bytes.length");
    reveal_strlit("bytes.slice");
    reveal_strlit("bytes.concat");
    reveal_strlit("bytes.from_string");
    reveal_strlit("bytes.to_string");
    reveal_strlit("bytes.get");
    reveal_strlit("bytes.to_hex");
    reveal_strlit("bytes.from_hex");
}

proof fn type_table_prefix(name: Seq<char>)
    ensures
        type_builtin_named(name) is Some ==> name.len() >= 5 && name[0] == 't' && name[1] == 'y' && name[2] == 'p' && name[3] == 'e' && name[4] == '.',
{
    reveal(type_builtin_named);
    reveal_strlit("type.name");
    reveal_strlit("type.kind");
    reveal_strlit("type.kind_tag");
    reveal_strlit("type.primitive_tag");
    reveal_strlit("type.has_secret");
    reveal_strlit("type.info");
    reveal_strlit("type.arg");
    reveal_strlit("type.construct_start");
    reveal_strlit("type.construct_variant_start");
    reveal_strlit("type.construct_machine_start");
    reveal_strlit("type.construct_put");
    reveal_strlit("type.construct_finish");
    reveal_strlit("type.fields");
    reveal_strlit("type.bitfield_layout");
    reveal_strlit("type.bitfield_fields");
    reveal_strlit("type.machine_layout");
    reveal_strlit("type.machine_states");
    reveal_strlit("type.machine_transitions");
    reveal_strlit("type.machine_state_value");
    reveal_strlit("type.variants");
    reveal_strlit("type.variant_value");
    reveal_strlit("type.field_value");
    reveal_strlit("type.machine_field_value");
    reveal_strlit("type.variant_field_value");
}

proof fn string_table(name: Seq<char>)
    ensures
        name == "string.from_int64"@ ==> builtin_named(name) == Some(plain(Params::P1(Shape::One(Simple::Int64)), Shape::One(Simple::String))),
        name == "string.from_uint64"@ ==> builtin_named(name) == Some(plain(Params::P1(Shape::One(Simple::Uint64)), Shape::One(Simple::String))),
        name == "string.from_float64"@ ==> builtin_named(name) == Some(plain(Params::P1(Shape::One(Simple::Float64)), Shape::One(Simple::String))),
        name == "string.from_bool"@ ==> builtin_named(name) == Some(plain(Params::P1(Shape::One(Simple::Bool)), Shape::One(Simple::String))),
        name == "string.length"@ || name == "string.char_count"@ ==> builtin_named(name) == Some(plain(Params::P1(Shape::One(Simple::String)), Shape::One(Simple::Int64))),
        name == "string.contains"@ || name == "string.starts_with"@
            || name == "string.ends_with"@ ==> builtin_named(name) == Some(plain(Params::P2(Shape::One(Simple::String), Shape::One(Simple::String)), Shape::One(Simple::Bool))),
        name == "string.trim"@ || name == "string.upper"@ || name == "string.lower"@
            || name == "string.reverse"@ || name == "string.trim_start"@
            || name == "string.trim_end"@ || name == "string.slugify"@
            || name == "string.to_upper_first"@ || name == "string.to_lower_first"@ ==> builtin_named(name) == Some(plain(Params::P1(Shape::One(Simple::String)), Shape::One(Simple::String))),
        name == "string.replace"@ || name == "string.between"@ ==> builtin_named(name) == Some(plain(Params::P3(Shape::One(Simple::String), Shape::One(Simple::String), Shape::One(Simple::String)), Shape::One(Simple::String))),
        name == "string.split"@ ==> builtin_named(name) == Some(plain(Params::P2(Shape::One(Simple::String), Shape::One(Simple::String)), Shape::List(Simple::String))),
        name == "string.join"@ ==> builtin_named(name) == Some(plain(Params::P2(Shape::List(Simple::String), Shape::One(Simple::String)), Shape::One(Simple::String))),
        name == "string.after"@ || name == "string.before"@ || name == "string.remove_prefix"@
            || name == "string.remove_suffix"@ ==> builtin_named(name) == Some(plain(Params::P2(Shape::One(Simple::String), Shape::One(Simple::String)), Shape::One(Simple::String))),
        name == "string.chars"@ || name == "string.words"@ || name == "string.lines"@ ==> builtin_named(name) == Some(plain(Params::P1(Shape::One(Simple::String)), Shape::List(Simple::String))),
        name == "string.is_empty"@ || name == "string.is_not_empty"@
            || name == "string.is_numeric"@ || name == "string.is_alpha"@ ==> builtin_named(name) == Some(plain(Params::P1(Shape::One(Simple::String)), Shape::One(Simple::Bool))),
        name == "string.repeat"@ || name == "string.take_chars"@
            || name == "string.take_last_chars"@ || name == "string.drop_chars"@
            || name == "string.center"@ || name == "string.ljust"@ || name == "string.rjust"@
            || name == "string.zfill"@ ==> builtin_named(name) == Some(plain(Params::P2(Shape::One(Simple::String), Shape::One(Simple::Int64)), Shape::One(Simple::String))),
        name == "string.slice"@ ==> builtin_named(name) == Some(plain(Params::P3(Shape::One(Simple::String), Shape::One(Simple::Int64), Shape::One(Simple::Int64)), Shape::One(Simple::String))),
        name == "string.pad_left"@ || name == "string.pad_start"@ || name == "string.pad_end"@
            || name == "string.truncate"@ ==> builtin_named(name) == Some(plain(Params::P3(Shape::One(Simple::String), Shape::One(Simple::Int64), Shape::One(Simple::String)), Shape::One(Simple::String))),
        name == "string.char_at"@ ==> builtin_named(name) == Some(plain(Params::P2(Shape::One(Simple::String), Shape::One(Simple::Int64)), Shape::Optional(Simple::String))),
        name == "string.index_of"@ ==> builtin_named(name) == Some(plain(Params::P2(Shape::One(Simple::String), Shape::One(Simple::String)), Shape::Optional(Simple::Int64))),
        name == "string.count"@ ==> builtin_named(name) == Some(plain(Params::P2(Shape::One(Simple::String), Shape::One(Simple::String)), Shape::One(Simple::Int64))),
{
    reveal(builtin_named);
    reveal(string_builtin_named);
    reveal_strlit("string.from_int64");
    assert("string.from_int64"@.len() == 17);
    assert("string.from_int64"@[7] == 'f');
    reveal_strlit("string.from_uint64");
    assert("string.from_uint64"@.len() == 18);
    assert("string.from_uint64"@[7] == 'f');
    reveal_strlit("string.from_float64");
    assert("string.from_float64"@.len() == 19);
    assert("string.from_float64"@[7] == 'f');
    reveal_strlit("string.from_bool");
    assert("string.from_bool"@.len() == 16);
    assert("string.from_bool"@[7] == 'f');
    reveal_strlit("string.length");
    assert("string.length"@.len() == 13);
    assert("string.length"@[7] == 'l');
    reveal_strlit("string.char_count");
    assert("string.char_count"@.len() == 17);
    assert("string.char_count"@[7] == 'c');
    reveal_strlit("string.contains");
    assert("string.contains"@.len() == 15);
    assert("string.contains"@[7] == 'c');
    reveal_strlit("string.starts_with");
    assert("string.starts_with"@.len() == 18);
    assert("string.starts_with"@[7] == 's');
    reveal_strlit("string.ends_with");
    assert("string.ends_with"@.len() == 16);
    assert("string.ends_with"@[7] == 'e');
    reveal_strlit("string.trim");
    assert("string.trim"@.len() == 11);
    assert("string.trim"@[7] == 't');
    reveal_strlit("string.upper");
    assert("string.upper"@.len() == 12);
    assert("string.upper"@[7] == 'u');
    reveal_strlit("string.lower");
    assert("string.lower"@.len() == 12);
    assert("string.lower"@[7] == 'l');
    assert("string.lower"@[8] == 'o');
    reveal_strlit("string.reverse");
    assert("string.reverse"@.len() == 14);
    assert("string.reverse"@[7] == 'r');
    assert("string.reverse"@[9] == 'v');
    reveal_strlit("string.trim_start");
    assert("string.trim_start"@.len() == 17);
    assert("string.trim_start"@[7] == 't');
    assert("string.trim_start"@[8] == 'r');
    reveal_strlit("string.trim_end");
    assert("string.trim_end"@.len() == 15);
    assert("string.trim_end"@[7] == 't');
    assert("string.trim_end"@[9] == 'i');
    reveal_strlit("string.slugify");
    assert("string.slugify"@.len() == 14);
    assert("string.slugify"@[7] == 's');
    reveal_strlit("string.to_upper_first");
    assert("string.to_upper_first"@.len() == 21);
    assert("string.to_upper_first"@[10] == 'u');
    reveal_strlit("string.to_lower_first");
    assert("string.to_lower_first"@.len() == 21);
    assert("string.to_lower_first"@[10] == 'l');
    reveal_strlit("string.replace");
    assert("string.replace"@.len() == 14);
    assert("string.replace"@[7] == 'r');
    assert("string.replace"@[9] == 'p');
    reveal_strlit("string.between");
    assert("string.between"@.len() == 14);
    assert("string.between"@[7] == 'b');
    reveal_strlit("string.split");
    assert("string.split"@.len() == 12);
    assert("string.split"@[7] == 's');
    assert("string.split"@[8] == 'p');
    reveal_strlit("string.join");
    assert("string.join"@.len() == 11);
    assert("string.join"@[7] == 'j');
    reveal_strlit("string.after");
    assert("string.after"@.len() == 12);
    assert("string.after"@[7] == 'a');
    reveal_strlit("string.before");
    assert("string.before"@.len() == 13);
    assert("string.before"@[7] == 'b');
    reveal_strlit("string.remove_prefix");
    assert("string.remove_prefix"@.len() == 20);
    assert("string.remove_prefix"@[14] == 'p');
    reveal_strlit("string.remove_suffix");
    assert("string.remove_suffix"@.len() == 20);
    assert("string.remove_suffix"@[14] == 's');
    reveal_strlit("string.chars");
    assert("string.chars"@.len() == 12);
    assert("string.chars"@[7] == 'c');
    assert("string.chars"@[8] == 'h');
    reveal_strlit("string.words");
    assert("string.words"@.len() == 12);
    assert("string.words"@[7] == 'w');
    reveal_strlit("string.lines");
    assert("string.lines"@.len() == 12);
    assert("string.lines"@[7] == 'l');
    assert("string.lines"@[8] == 'i');
    reveal_strlit("string.is_empty");
    assert("string.is_empty"@.len() == 15);
    assert("string.is_empty"@[7] == 'i');
    assert("string.is_empty"@[8] == 's');
    assert("string.is_empty"@[10] == 'e');
    reveal_strlit("string.is_not_empty");
    assert("string.is_not_empty"@.len() == 19);
    assert("string.is_not_empty"@[7] == 'i');
    reveal_strlit("string.is_numeric");
    assert("string.is_numeric"@.len() == 17);
    assert("string.is_numeric"@[7] == 'i');
    reveal_strlit("string.is_alpha");
    assert("string.is_alpha"@.len() == 15);
    assert("string.is_alpha"@[7] == 'i');
    assert("string.is_alpha"@[8] == 's');
    assert("string.is_alpha"@[10] == 'a');
    reveal_strlit("string.repeat");
    assert("string.repeat"@.len() == 13);
    assert("string.repeat"@[7] == 'r');
    reveal_strlit("string.take_chars");
    assert("string.take_chars"@.len() == 17);
    assert("string.take_chars"@[7] == 't');
    assert("string.take_chars"@[8] == 'a');
    reveal_strlit("string.take_last_chars");
    assert("string.take_last_chars"@.len() == 22);
    reveal_strlit("string.drop_chars");
    assert("string.drop_chars"@.len() == 17);
    assert("string.drop_chars"@[7] == 'd');
    reveal_strlit("string.center");
    assert("string.center"@.len() == 13);
    assert("string.center"@[7] == 'c');
    reveal_strlit("string.ljust");
    assert("string.ljust"@.len() == 12);
    assert("string.ljust"@[7] == 'l');
    assert("string.ljust"@[8] == 'j');
    reveal_strlit("string.rjust");
    assert("string.rjust"@.len() == 12);
    assert("string.rjust"@[7] == 'r');
    reveal_strlit("string.zfill");
    assert("string.zfill"@.len() == 12);
    assert("string.zfill"@[7] == 'z');
    reveal_strlit("string.slice");
    assert("string.slice"@.len() == 12);
    assert("string.slice"@[7] == 's');
    assert("string.slice"@[8] == 'l');
    reveal_strlit("string.pad_left");
    assert("string.pad_left"@.len() == 15);
    assert("string.pad_left"@[7] == 'p');
    reveal_strlit("string.pad_start");
    assert("string.pad_start"@.len() == 16);
    assert("string.pad_start"@[7] == 'p');
    reveal_strlit("string.pad_end");
    assert("string.pad_end"@.len() == 14);
    assert("string.pad_end"@[7] == 'p');
    reveal_strlit("string.truncate");
    assert("string.truncate"@.len() == 15);
    assert("string.truncate"@[7] == 't');
    assert("string.truncate"@[9] == 'u');
    reveal_strlit("string.char_at");
    assert("string.char_at"@.len() == 14);
    assert("string.char_at"@[7] == 'c');
    reveal_strlit("string.index_of");
    assert("string.index_of"@.len() == 15);
    assert("string.index_of"@[7] == 'i');
    assert("string.index_of"@[8] == 'n');
    reveal_strlit("string.count");
    assert("string.count"@.len() == 12);
    assert("string.count"@[7] == 'c');
    assert("string.count"@[8] == 'o');
}

proof fn string_from_int64_form(c: BuiltinCall, name: Seq<char>)
    requires
        in_order(c),
        name == "string.from_int64"@,
    ensures
        takes_and_gives(c, name, seq![0nat], seq![int64()], string()),
{
    reveal(takes_and_gives);
    reveal(takes_and_gives_of);
    reveal(otherwise_takes);
    string_table(name);
    let b = plain(Params::P1(Shape::One(Simple::Int64)), Shape::One(Simple::String));
    builtin_does(c, name, b);
    counted(b.arity, c.type_args.len());
    let params: Seq<Form> = seq![int64()];
    if counts_of(b.arity).contains(c.type_args.len()) {
        assert(params_forms(b.params, args_in(c, b.arity)) =~= params);
    }
}

proof fn string_from_uint64_form(c: BuiltinCall, name: Seq<char>)
    requires
        in_order(c),
        name == "string.from_uint64"@,
    ensures
        takes_and_gives(c, name, seq![0nat], seq![uint64()], string()),
{
    reveal(takes_and_gives);
    reveal(takes_and_gives_of);
    reveal(otherwise_takes);
    string_table(name);
    let b = plain(Params::P1(Shape::One(Simple::Uint64)), Shape::One(Simple::String));
    builtin_does(c, name, b);
    counted(b.arity, c.type_args.len());
    let params: Seq<Form> = seq![uint64()];
    if counts_of(b.arity).contains(c.type_args.len()) {
        assert(params_forms(b.params, args_in(c, b.arity)) =~= params);
    }
}

proof fn string_from_float64_form(c: BuiltinCall, name: Seq<char>)
    requires
        in_order(c),
        name == "string.from_float64"@,
    ensures
        takes_and_gives(c, name, seq![0nat], seq![float64()], string()),
{
    reveal(takes_and_gives);
    reveal(takes_and_gives_of);
    reveal(otherwise_takes);
    string_table(name);
    let b = plain(Params::P1(Shape::One(Simple::Float64)), Shape::One(Simple::String));
    builtin_does(c, name, b);
    counted(b.arity, c.type_args.len());
    let params: Seq<Form> = seq![float64()];
    if counts_of(b.arity).contains(c.type_args.len()) {
        assert(params_forms(b.params, args_in(c, b.arity)) =~= params);
    }
}

proof fn string_from_bool_form(c: BuiltinCall, name: Seq<char>)
    requires
        in_order(c),
        name == "string.from_bool"@,
    ensures
        takes_and_gives(c, name, seq![0nat], seq![boolean()], string()),
{
    reveal(takes_and_gives);
    reveal(takes_and_gives_of);
    reveal(otherwise_takes);
    string_table(name);
    let b = plain(Params::P1(Shape::One(Simple::Bool)), Shape::One(Simple::String));
    builtin_does(c, name, b);
    counted(b.arity, c.type_args.len());
    let params: Seq<Form> = seq![boolean()];
    if counts_of(b.arity).contains(c.type_args.len()) {
        assert(params_forms(b.params, args_in(c, b.arity)) =~= params);
    }
}

proof fn string_length_form(c: BuiltinCall, name: Seq<char>)
    requires
        in_order(c),
        name == "string.length"@ || name == "string.char_count"@,
    ensures
        takes_and_gives(c, name, seq![0nat], seq![string()], int64()),
{
    reveal(takes_and_gives);
    reveal(takes_and_gives_of);
    reveal(otherwise_takes);
    string_table(name);
    let b = plain(Params::P1(Shape::One(Simple::String)), Shape::One(Simple::Int64));
    builtin_does(c, name, b);
    counted(b.arity, c.type_args.len());
    let params: Seq<Form> = seq![string()];
    if counts_of(b.arity).contains(c.type_args.len()) {
        assert(params_forms(b.params, args_in(c, b.arity)) =~= params);
    }
}

proof fn string_contains_form(c: BuiltinCall, name: Seq<char>)
    requires
        in_order(c),
        name == "string.contains"@ || name == "string.starts_with"@
            || name == "string.ends_with"@,
    ensures
        takes_and_gives(c, name, seq![0nat], seq![string(), string()], boolean()),
{
    reveal(takes_and_gives);
    reveal(takes_and_gives_of);
    reveal(otherwise_takes);
    string_table(name);
    let b = plain(Params::P2(Shape::One(Simple::String), Shape::One(Simple::String)), Shape::One(Simple::Bool));
    builtin_does(c, name, b);
    counted(b.arity, c.type_args.len());
    let params: Seq<Form> = seq![string(), string()];
    if counts_of(b.arity).contains(c.type_args.len()) {
        assert(params_forms(b.params, args_in(c, b.arity)) =~= params);
    }
}

proof fn string_trim_form(c: BuiltinCall, name: Seq<char>)
    requires
        in_order(c),
        name == "string.trim"@ || name == "string.upper"@ || name == "string.lower"@
            || name == "string.reverse"@ || name == "string.trim_start"@
            || name == "string.trim_end"@ || name == "string.slugify"@
            || name == "string.to_upper_first"@ || name == "string.to_lower_first"@,
    ensures
        takes_and_gives(c, name, seq![0nat], seq![string()], string()),
{
    reveal(takes_and_gives);
    reveal(takes_and_gives_of);
    reveal(otherwise_takes);
    string_table(name);
    let b = plain(Params::P1(Shape::One(Simple::String)), Shape::One(Simple::String));
    builtin_does(c, name, b);
    counted(b.arity, c.type_args.len());
    let params: Seq<Form> = seq![string()];
    if counts_of(b.arity).contains(c.type_args.len()) {
        assert(params_forms(b.params, args_in(c, b.arity)) =~= params);
    }
}

proof fn string_replace_form(c: BuiltinCall, name: Seq<char>)
    requires
        in_order(c),
        name == "string.replace"@ || name == "string.between"@,
    ensures
        takes_and_gives(c, name, seq![0nat], seq![string(), string(), string()], string()),
{
    reveal(takes_and_gives);
    reveal(takes_and_gives_of);
    reveal(otherwise_takes);
    string_table(name);
    let b = plain(Params::P3(Shape::One(Simple::String), Shape::One(Simple::String), Shape::One(Simple::String)), Shape::One(Simple::String));
    builtin_does(c, name, b);
    counted(b.arity, c.type_args.len());
    let params: Seq<Form> = seq![string(), string(), string()];
    if counts_of(b.arity).contains(c.type_args.len()) {
        assert(params_forms(b.params, args_in(c, b.arity)) =~= params);
    }
}

proof fn string_split_form(c: BuiltinCall, name: Seq<char>)
    requires
        in_order(c),
        name == "string.split"@,
    ensures
        takes_and_gives(c, name, seq![0nat], seq![string(), string()], list(string())),
{
    reveal(takes_and_gives);
    reveal(takes_and_gives_of);
    reveal(otherwise_takes);
    string_table(name);
    let b = plain(Params::P2(Shape::One(Simple::String), Shape::One(Simple::String)), Shape::List(Simple::String));
    builtin_does(c, name, b);
    counted(b.arity, c.type_args.len());
    let params: Seq<Form> = seq![string(), string()];
    if counts_of(b.arity).contains(c.type_args.len()) {
        assert(params_forms(b.params, args_in(c, b.arity)) =~= params);
    }
}

proof fn string_join_form(c: BuiltinCall, name: Seq<char>)
    requires
        in_order(c),
        name == "string.join"@,
    ensures
        takes_and_gives(c, name, seq![0nat], seq![list(string()), string()], string()),
{
    reveal(takes_and_gives);
    reveal(takes_and_gives_of);
    reveal(otherwise_takes);
    string_table(name);
    let b = plain(Params::P2(Shape::List(Simple::String), Shape::One(Simple::String)), Shape::One(Simple::String));
    builtin_does(c, name, b);
    counted(b.arity, c.type_args.len());
    let params: Seq<Form> = seq![list(string()), string()];
    if counts_of(b.arity).contains(c.type_args.len()) {
        assert(params_forms(b.params, args_in(c, b.arity)) =~= params);
    }
}

proof fn string_after_form(c: BuiltinCall, name: Seq<char>)
    requires
        in_order(c),
        name == "string.after"@ || name == "string.before"@ || name == "string.remove_prefix"@
            || name == "string.remove_suffix"@,
    ensures
        takes_and_gives(c, name, seq![0nat], seq![string(), string()], string()),
{
    reveal(takes_and_gives);
    reveal(takes_and_gives_of);
    reveal(otherwise_takes);
    string_table(name);
    let b = plain(Params::P2(Shape::One(Simple::String), Shape::One(Simple::String)), Shape::One(Simple::String));
    builtin_does(c, name, b);
    counted(b.arity, c.type_args.len());
    let params: Seq<Form> = seq![string(), string()];
    if counts_of(b.arity).contains(c.type_args.len()) {
        assert(params_forms(b.params, args_in(c, b.arity)) =~= params);
    }
}

proof fn string_chars_form(c: BuiltinCall, name: Seq<char>)
    requires
        in_order(c),
        name == "string.chars"@ || name == "string.words"@ || name == "string.lines"@,
    ensures
        takes_and_gives(c, name, seq![0nat], seq![string()], list(string())),
{
    reveal(takes_and_gives);
    reveal(takes_and_gives_of);
    reveal(otherwise_takes);
    string_table(name);
    let b = plain(Params::P1(Shape::One(Simple::String)), Shape::List(Simple::String));
    builtin_does(c, name, b);
    counted(b.arity, c.type_args.len());
    let params: Seq<Form> = seq![string()];
    if counts_of(b.arity).contains(c.type_args.len()) {
        assert(params_forms(b.params, args_in(c, b.arity)) =~= params);
    }
}

proof fn string_is_empty_form(c: BuiltinCall, name: Seq<char>)
    requires
        in_order(c),
        name == "string.is_empty"@ || name == "string.is_not_empty"@
            || name == "string.is_numeric"@ || name == "string.is_alpha"@,
    ensures
        takes_and_gives(c, name, seq![0nat], seq![string()], boolean()),
{
    reveal(takes_and_gives);
    reveal(takes_and_gives_of);
    reveal(otherwise_takes);
    string_table(name);
    let b = plain(Params::P1(Shape::One(Simple::String)), Shape::One(Simple::Bool));
    builtin_does(c, name, b);
    counted(b.arity, c.type_args.len());
    let params: Seq<Form> = seq![string()];
    if counts_of(b.arity).contains(c.type_args.len()) {
        assert(params_forms(b.params, args_in(c, b.arity)) =~= params);
    }
}

proof fn string_repeat_form(c: BuiltinCall, name: Seq<char>)
    requires
        in_order(c),
        name == "string.repeat"@ || name == "string.take_chars"@
            || name == "string.take_last_chars"@ || name == "string.drop_chars"@
            || name == "string.center"@ || name == "string.ljust"@ || name == "string.rjust"@
            || name == "string.zfill"@,
    ensures
        takes_and_gives(c, name, seq![0nat], seq![string(), int64()], string()),
{
    reveal(takes_and_gives);
    reveal(takes_and_gives_of);
    reveal(otherwise_takes);
    string_table(name);
    let b = plain(Params::P2(Shape::One(Simple::String), Shape::One(Simple::Int64)), Shape::One(Simple::String));
    builtin_does(c, name, b);
    counted(b.arity, c.type_args.len());
    let params: Seq<Form> = seq![string(), int64()];
    if counts_of(b.arity).contains(c.type_args.len()) {
        assert(params_forms(b.params, args_in(c, b.arity)) =~= params);
    }
}

proof fn string_slice_form(c: BuiltinCall, name: Seq<char>)
    requires
        in_order(c),
        name == "string.slice"@,
    ensures
        takes_and_gives(c, name, seq![0nat], seq![string(), int64(), int64()], string()),
{
    reveal(takes_and_gives);
    reveal(takes_and_gives_of);
    reveal(otherwise_takes);
    string_table(name);
    let b = plain(Params::P3(Shape::One(Simple::String), Shape::One(Simple::Int64), Shape::One(Simple::Int64)), Shape::One(Simple::String));
    builtin_does(c, name, b);
    counted(b.arity, c.type_args.len());
    let params: Seq<Form> = seq![string(), int64(), int64()];
    if counts_of(b.arity).contains(c.type_args.len()) {
        assert(params_forms(b.params, args_in(c, b.arity)) =~= params);
    }
}

proof fn string_pad_left_form(c: BuiltinCall, name: Seq<char>)
    requires
        in_order(c),
        name == "string.pad_left"@ || name == "string.pad_start"@ || name == "string.pad_end"@
            || name == "string.truncate"@,
    ensures
        takes_and_gives(c, name, seq![0nat], seq![string(), int64(), string()], string()),
{
    reveal(takes_and_gives);
    reveal(takes_and_gives_of);
    reveal(otherwise_takes);
    string_table(name);
    let b = plain(Params::P3(Shape::One(Simple::String), Shape::One(Simple::Int64), Shape::One(Simple::String)), Shape::One(Simple::String));
    builtin_does(c, name, b);
    counted(b.arity, c.type_args.len());
    let params: Seq<Form> = seq![string(), int64(), string()];
    if counts_of(b.arity).contains(c.type_args.len()) {
        assert(params_forms(b.params, args_in(c, b.arity)) =~= params);
    }
}

proof fn string_char_at_form(c: BuiltinCall, name: Seq<char>)
    requires
        in_order(c),
        name == "string.char_at"@,
    ensures
        takes_and_gives(c, name, seq![0nat], seq![string(), int64()], optional(string())),
{
    reveal(takes_and_gives);
    reveal(takes_and_gives_of);
    reveal(otherwise_takes);
    string_table(name);
    let b = plain(Params::P2(Shape::One(Simple::String), Shape::One(Simple::Int64)), Shape::Optional(Simple::String));
    builtin_does(c, name, b);
    counted(b.arity, c.type_args.len());
    let params: Seq<Form> = seq![string(), int64()];
    if counts_of(b.arity).contains(c.type_args.len()) {
        assert(params_forms(b.params, args_in(c, b.arity)) =~= params);
    }
}

proof fn string_index_of_form(c: BuiltinCall, name: Seq<char>)
    requires
        in_order(c),
        name == "string.index_of"@,
    ensures
        takes_and_gives(c, name, seq![0nat], seq![string(), string()], optional(int64())),
{
    reveal(takes_and_gives);
    reveal(takes_and_gives_of);
    reveal(otherwise_takes);
    string_table(name);
    let b = plain(Params::P2(Shape::One(Simple::String), Shape::One(Simple::String)), Shape::Optional(Simple::Int64));
    builtin_does(c, name, b);
    counted(b.arity, c.type_args.len());
    let params: Seq<Form> = seq![string(), string()];
    if counts_of(b.arity).contains(c.type_args.len()) {
        assert(params_forms(b.params, args_in(c, b.arity)) =~= params);
    }
}

proof fn string_count_form(c: BuiltinCall, name: Seq<char>)
    requires
        in_order(c),
        name == "string.count"@,
    ensures
        takes_and_gives(c, name, seq![0nat], seq![string(), string()], int64()),
{
    reveal(takes_and_gives);
    reveal(takes_and_gives_of);
    reveal(otherwise_takes);
    string_table(name);
    let b = plain(Params::P2(Shape::One(Simple::String), Shape::One(Simple::String)), Shape::One(Simple::Int64));
    builtin_does(c, name, b);
    counted(b.arity, c.type_args.len());
    let params: Seq<Form> = seq![string(), string()];
    if counts_of(b.arity).contains(c.type_args.len()) {
        assert(params_forms(b.params, args_in(c, b.arity)) =~= params);
    }
}

/// What the builtin functions on texts take and give.
pub proof fn law_string_builtins(c: BuiltinCall, name: Seq<char>)
    requires
        in_order(c),
    ensures
        name == "string.from_int64"@ ==> takes_and_gives(c, name, seq![0nat], seq![int64()], string()),
        name == "string.from_uint64"@ ==> takes_and_gives(c, name, seq![0nat], seq![uint64()], string()),
        name == "string.from_float64"@ ==> takes_and_gives(c, name, seq![0nat], seq![float64()], string()),
        name == "string.from_bool"@ ==> takes_and_gives(c, name, seq![0nat], seq![boolean()], string()),
        name == "string.length"@ || name == "string.char_count"@ ==> takes_and_gives(c, name, seq![0nat], seq![string()], int64()),
        name == "string.contains"@ || name == "string.starts_with"@
            || name == "string.ends_with"@ ==> takes_and_gives(c, name, seq![0nat], seq![string(), string()], boolean()),
        name == "string.trim"@ || name == "string.upper"@ || name == "string.lower"@
            || name == "string.reverse"@ || name == "string.trim_start"@
            || name == "string.trim_end"@ || name == "string.slugify"@
            || name == "string.to_upper_first"@ || name == "string.to_lower_first"@ ==> takes_and_gives(c, name, seq![0nat], seq![string()], string()),
        name == "string.replace"@ || name == "string.between"@ ==> takes_and_gives(c, name, seq![0nat], seq![string(), string(), string()], string()),
        name == "string.split"@ ==> takes_and_gives(c, name, seq![0nat], seq![string(), string()], list(string())),
        name == "string.join"@ ==> takes_and_gives(c, name, seq![0nat], seq![list(string()), string()], string()),
        name == "string.after"@ || name == "string.before"@ || name == "string.remove_prefix"@
            || name == "string.remove_suffix"@ ==> takes_and_gives(c, name, seq![0nat], seq![string(), string()], string()),
        name == "string.chars"@ || name == "string.words"@ || name == "string.lines"@ ==> takes_and_gives(c, name, seq![0nat], seq![string()], list(string())),
        name == "string.is_empty"@ || name == "string.is_not_empty"@
            || name == "string.is_numeric"@ || name == "string.is_alpha"@ ==> takes_and_gives(c, name, seq![0nat], seq![string()], boolean()),
        name == "string.repeat"@ || name == "string.take_chars"@
            || name == "string.take_last_chars"@ || name == "string.drop_chars"@
            || name == "string.center"@ || name == "string.ljust"@ || name == "string.rjust"@
            || name == "string.zfill"@ ==> takes_and_gives(c, name, seq![0nat], seq![string(), int64()], string()),
        name == "string.slice"@ ==> takes_and_gives(c, name, seq![0nat], seq![string(), int64(), int64()], string()),
        name == "string.pad_left"@ || name == "string.pad_start"@ || name == "string.pad_end"@
            || name == "string.truncate"@ ==> takes_and_gives(c, name, seq![0nat], seq![string(), int64(), string()], string()),
        name == "string.char_at"@ ==> takes_and_gives(c, name, seq![0nat], seq![string(), int64()], optional(string())),
        name == "string.index_of"@ ==> takes_and_gives(c, name, seq![0nat], seq![string(), string()], optional(int64())),
        name == "string.count"@ ==> takes_and_gives(c, name, seq![0nat], seq![string(), string()], int64()),
{
    if name == "string.from_int64"@ {
        string_from_int64_form(c, name);
    }
    if name == "string.from_uint64"@ {
        string_from_uint64_form(c, name);
    }
    if name == "string.from_float64"@ {
        string_from_float64_form(c, name);
    }
    if name == "string.from_bool"@ {
        string_from_bool_form(c, name);
    }
    if name == "string.length"@ || name == "string.char_count"@ {
        string_length_form(c, name);
    }
    if name == "string.contains"@ || name == "string.starts_with"@ || name == "string.ends_with"@ {
        string_contains_form(c, name);
    }
    if name == "string.trim"@ || name == "string.upper"@ || name == "string.lower"@
        || name == "string.reverse"@ || name == "string.trim_start"@
        || name == "string.trim_end"@ || name == "string.slugify"@
        || name == "string.to_upper_first"@ || name == "string.to_lower_first"@ {
        string_trim_form(c, name);
    }
    if name == "string.replace"@ || name == "string.between"@ {
        string_replace_form(c, name);
    }
    if name == "string.split"@ {
        string_split_form(c, name);
    }
    if name == "string.join"@ {
        string_join_form(c, name);
    }
    if name == "string.after"@ || name == "string.before"@ || name == "string.remove_prefix"@
        || name == "string.remove_suffix"@ {
        string_after_form(c, name);
    }
    if name == "string.chars"@ || name == "string.words"@ || name == "string.lines"@ {
        string_chars_form(c, name);
    }
    if name == "string.is_empty"@ || name == "string.is_not_empty"@ || name == "string.is_numeric"@
        || name == "string.is_alpha"@ {
        string_is_empty_form(c, name);
    }
    if name == "string.repeat"@ || name == "string.take_chars"@
        || name == "string.take_last_chars"@ || name == "string.drop_chars"@
        || name == "string.center"@ || name == "string.ljust"@ || name == "string.rjust"@
        || name == "string.zfill"@ {
        string_repeat_form(c, name);
    }
    if name == "string.slice"@ {
        string_slice_form(c, name);
    }
    if name == "string.pad_left"@ || name == "string.pad_start"@ || name == "string.pad_end"@
        || name == "string.truncate"@ {
        string_pad_left_form(c, name);
    }
    if name == "string.char_at"@ {
        string_char_at_form(c, name);
    }
    if name == "string.index_of"@ {
        string_index_of_form(c, name);
    }
    if name == "string.count"@ {
        string_count_form(c, name);
    }
}

proof fn list_table(name: Seq<char>)
    ensures
        name == "list.new"@ ==> builtin_named(name) == Some(of_types(Arity::One, Params::P0, Shape::List(Simple::A))),
        name == "list.append"@ ==> builtin_named(name) == Some(exact(Arity::One, Params::P2(Shape::List(Simple::A), Shape::One(Simple::A)), Shape::List(Simple::A), Target::Any, Params::P2(Shape::One(Simple::Any), Shape::One(Simple::Any)))),
        name == "list.length"@ ==> builtin_named(name) == Some(of_types(Arity::UpToOne, Params::P1(Shape::List(Simple::A)), Shape::One(Simple::Int64))),
        name == "list.get"@ ==> builtin_named(name) == Some(exact(Arity::One, Params::P2(Shape::List(Simple::A), Shape::One(Simple::Int64)), Shape::Optional(Simple::A), Target::Any, Params::P2(Shape::One(Simple::Any), Shape::One(Simple::Int64)))),
        name == "list.reverse"@ || name == "list.sort"@ || name == "list.unique"@
            || name == "list.flatten"@ ==> builtin_named(name) == Some(of_types(Arity::UpToOne, Params::P1(Shape::List(Simple::A)), Shape::List(Simple::A))),
        name == "list.is_empty"@ || name == "list.is_sorted"@ ==> builtin_named(name) == Some(of_types(Arity::UpToOne, Params::P1(Shape::List(Simple::A)), Shape::One(Simple::Bool))),
        name == "list.skip"@ || name == "list.take"@ || name == "list.remove"@
            || name == "list.sort_by_index"@ || name == "list.remove_at"@ ==> builtin_named(name) == Some(of_types(Arity::UpToOne, Params::P2(Shape::List(Simple::A), Shape::One(Simple::Int64)), Shape::List(Simple::A))),
        name == "list.contains"@ ==> builtin_named(name) == Some(of_types(Arity::UpToOne, Params::P2(Shape::List(Simple::A), Shape::One(Simple::A)), Shape::One(Simple::Bool))),
        name == "list.index_of"@ || name == "list.last_index_of"@ ==> builtin_named(name) == Some(of_types(Arity::UpToOne, Params::P2(Shape::List(Simple::A), Shape::One(Simple::A)), Shape::Optional(Simple::Int64))),
        name == "list.concat"@ ==> builtin_named(name) == Some(of_types(Arity::UpToOne, Params::P2(Shape::List(Simple::A), Shape::List(Simple::A)), Shape::List(Simple::A))),
        name == "list.zip"@ ==> builtin_named(name) == Some(of_types(Arity::NoneOrTwo, Params::P2(Shape::List(Simple::A), Shape::List(Simple::B)), Shape::ListOfLists(Simple::Any))),
        name == "list.first"@ || name == "list.last"@ ==> builtin_named(name) == Some(of_types(Arity::UpToOne, Params::P1(Shape::List(Simple::A)), Shape::Optional(Simple::A))),
        name == "list.filter"@ ==> builtin_named(name) == Some(of_types(Arity::UpToOne, Params::P2(Shape::List(Simple::A), Shape::Fn1(Simple::A, Simple::Bool)), Shape::List(Simple::A))),
        name == "list.map"@ ==> builtin_named(name) == Some(of_types(Arity::NoneOrTwo, Params::P2(Shape::List(Simple::A), Shape::Fn1(Simple::A, Simple::B)), Shape::List(Simple::B))),
        name == "list.find"@ ==> builtin_named(name) == Some(of_types(Arity::UpToOne, Params::P2(Shape::List(Simple::A), Shape::Fn1(Simple::A, Simple::Bool)), Shape::Optional(Simple::A))),
        name == "list.sort_by"@ ==> builtin_named(name) == Some(of_types(Arity::UpToOne, Params::P2(Shape::List(Simple::A), Shape::Fn1(Simple::A, Simple::Int64)), Shape::List(Simple::A))),
        name == "list.all"@ || name == "list.any"@ ==> builtin_named(name) == Some(of_types(Arity::UpToOne, Params::P2(Shape::List(Simple::A), Shape::Fn1(Simple::A, Simple::Bool)), Shape::One(Simple::Bool))),
        name == "list.count"@ ==> builtin_named(name) == Some(of_types(Arity::UpToOne, Params::P2(Shape::List(Simple::A), Shape::Fn1(Simple::A, Simple::Bool)), Shape::One(Simple::Int64))),
        name == "list.sum"@ ==> builtin_named(name) == Some(of_types(Arity::UpToOne, Params::P1(Shape::List(Simple::A)), Shape::One(Simple::A))),
        name == "list.group_by"@ ==> builtin_named(name) == Some(of_types(Arity::UpToOne, Params::P2(Shape::List(Simple::A), Shape::Fn1(Simple::A, Simple::String)), Shape::MapToLists(Simple::String, Simple::A))),
        name == "list.reduce"@ ==> builtin_named(name) == Some(of_types(Arity::NoneOrTwo, Params::P3(Shape::List(Simple::A), Shape::One(Simple::B), Shape::Fn2(Simple::B, Simple::A, Simple::B)), Shape::One(Simple::B))),
        name == "list.chunk"@ ==> builtin_named(name) == Some(of_types(Arity::UpToOne, Params::P2(Shape::List(Simple::A), Shape::One(Simple::Int64)), Shape::ListOfLists(Simple::A))),
        name == "list.all_elements_in"@ ==> builtin_named(name) == Some(of_types(Arity::UpToOne, Params::P2(Shape::List(Simple::A), Shape::List(Simple::A)), Shape::One(Simple::Bool))),
        name == "list.enumerate"@ ==> builtin_named(name) == Some(of_types(Arity::UpToOne, Params::P1(Shape::List(Simple::A)), Shape::ListOfLists(Simple::Any))),
        name == "list.from_set"@ ==> builtin_named(name) == Some(of_types(Arity::UpToOne, Params::P1(Shape::SetOf(Simple::A)), Shape::List(Simple::A))),
        name == "list.repeat"@ ==> builtin_named(name) == Some(of_types(Arity::UpToOne, Params::P2(Shape::One(Simple::A), Shape::One(Simple::Int64)), Shape::List(Simple::A))),
        name == "list.insert_at"@ ==> builtin_named(name) == Some(of_types(Arity::UpToOne, Params::P3(Shape::List(Simple::A), Shape::One(Simple::Int64), Shape::One(Simple::A)), Shape::List(Simple::A))),
        name == "list.swap"@ ==> builtin_named(name) == Some(of_types(Arity::UpToOne, Params::P3(Shape::List(Simple::A), Shape::One(Simple::Int64), Shape::One(Simple::Int64)), Shape::List(Simple::A))),
        name == "list.flat_map"@ ==> builtin_named(name) == Some(of_types(Arity::NoneOrTwo, Params::P2(Shape::List(Simple::A), Shape::Fn1ToList(Simple::A, Simple::B)), Shape::List(Simple::B))),
{
    reveal(builtin_named);
    reveal(list_builtin_named);
    string_table_prefix(name);
    reveal_strlit("list.new");
    assert("list.new"@.len() == 8);
    assert("list.new"@[5] == 'n');
    reveal_strlit("list.append");
    assert("list.append"@.len() == 11);
    assert("list.append"@[5] == 'a');
    reveal_strlit("list.length");
    assert("list.length"@.len() == 11);
    assert("list.length"@[5] == 'l');
    reveal_strlit("list.get");
    assert("list.get"@.len() == 8);
    assert("list.get"@[5] == 'g');
    reveal_strlit("list.reverse");
    assert("list.reverse"@.len() == 12);
    assert("list.reverse"@[5] == 'r');
    reveal_strlit("list.sort");
    assert("list.sort"@.len() == 9);
    assert("list.sort"@[6] == 'o');
    reveal_strlit("list.unique");
    assert("list.unique"@.len() == 11);
    assert("list.unique"@[5] == 'u');
    reveal_strlit("list.flatten");
    assert("list.flatten"@.len() == 12);
    assert("list.flatten"@[5] == 'f');
    reveal_strlit("list.is_empty");
    assert("list.is_empty"@.len() == 13);
    assert("list.is_empty"@[5] == 'i');
    assert("list.is_empty"@[6] == 's');
    reveal_strlit("list.is_sorted");
    assert("list.is_sorted"@.len() == 14);
    assert("list.is_sorted"@[5] == 'i');
    assert("list.is_sorted"@[6] == 's');
    reveal_strlit("list.skip");
    assert("list.skip"@.len() == 9);
    assert("list.skip"@[6] == 'k');
    reveal_strlit("list.take");
    assert("list.take"@.len() == 9);
    assert("list.take"@[5] == 't');
    assert("list.take"@[6] == 'a');
    reveal_strlit("list.remove");
    assert("list.remove"@.len() == 11);
    assert("list.remove"@[5] == 'r');
    assert("list.remove"@[7] == 'm');
    reveal_strlit("list.sort_by_index");
    assert("list.sort_by_index"@.len() == 18);
    assert("list.sort_by_index"@[5] == 's');
    reveal_strlit("list.remove_at");
    assert("list.remove_at"@.len() == 14);
    assert("list.remove_at"@[5] == 'r');
    reveal_strlit("list.contains");
    assert("list.contains"@.len() == 13);
    assert("list.contains"@[5] == 'c');
    reveal_strlit("list.index_of");
    assert("list.index_of"@.len() == 13);
    assert("list.index_of"@[5] == 'i');
    assert("list.index_of"@[6] == 'n');
    reveal_strlit("list.last_index_of");
    assert("list.last_index_of"@.len() == 18);
    assert("list.last_index_of"@[5] == 'l');
    reveal_strlit("list.concat");
    assert("list.concat"@.len() == 11);
    assert("list.concat"@[5] == 'c');
    reveal_strlit("list.zip");
    assert("list.zip"@.len() == 8);
    assert("list.zip"@[5] == 'z');
    reveal_strlit("list.first");
    assert("list.first"@.len() == 10);
    assert("list.first"@[5] == 'f');
    reveal_strlit("list.last");
    assert("list.last"@.len() == 9);
    assert("list.last"@[5] == 'l');
    assert("list.last"@[6] == 'a');
    reveal_strlit("list.filter");
    assert("list.filter"@.len() == 11);
    assert("list.filter"@[5] == 'f');
    reveal_strlit("list.map");
    assert("list.map"@.len() == 8);
    assert("list.map"@[5] == 'm');
    reveal_strlit("list.find");
    assert("list.find"@.len() == 9);
    assert("list.find"@[6] == 'i');
    reveal_strlit("list.sort_by");
    assert("list.sort_by"@.len() == 12);
    assert("list.sort_by"@[5] == 's');
    reveal_strlit("list.all");
    assert("list.all"@.len() == 8);
    assert("list.all"@[5] == 'a');
    assert("list.all"@[6] == 'l');
    reveal_strlit("list.any");
    assert("list.any"@.len() == 8);
    assert("list.any"@[5] == 'a');
    assert("list.any"@[6] == 'n');
    reveal_strlit("list.count");
    assert("list.count"@.len() == 10);
    assert("list.count"@[5] == 'c');
    assert("list.count"@[6] == 'o');
    reveal_strlit("list.sum");
    assert("list.sum"@.len() == 8);
    assert("list.sum"@[5] == 's');
    reveal_strlit("list.group_by");
    assert("list.group_by"@.len() == 13);
    assert("list.group_by"@[5] == 'g');
    reveal_strlit("list.reduce");
    assert("list.reduce"@.len() == 11);
    assert("list.reduce"@[5] == 'r');
    assert("list.reduce"@[7] == 'd');
    reveal_strlit("list.chunk");
    assert("list.chunk"@.len() == 10);
    assert("list.chunk"@[5] == 'c');
    assert("list.chunk"@[6] == 'h');
    reveal_strlit("list.all_elements_in");
    assert("list.all_elements_in"@.len() == 20);
    reveal_strlit("list.enumerate");
    assert("list.enumerate"@.len() == 14);
    assert("list.enumerate"@[5] == 'e');
    reveal_strlit("list.from_set");
    assert("list.from_set"@.len() == 13);
    assert("list.from_set"@[5] == 'f');
    assert("list.from_set"@[6] == 'r');
    reveal_strlit("list.repeat");
    assert("list.repeat"@.len() == 11);
    assert("list.repeat"@[5] == 'r');
    assert("list.repeat"@[7] == 'p');
    reveal_strlit("list.insert_at");
    assert("list.insert_at"@.len() == 14);
    assert("list.insert_at"@[5] == 'i');
    assert("list.insert_at"@[6] == 'n');
    reveal_strlit("list.swap");
    assert("list.swap"@.len() == 9);
    assert("list.swap"@[6] == 'w');
    reveal_strlit("list.flat_map");
    assert("list.flat_map"@.len() == 13);
    assert("list.flat_map"@[5] == 'f');
    assert("list.flat_map"@[6] == 'l');
    assert("list.new"@[0] == 'l');
    assert("list.new"@[1] == 'i');
    assert("list.new"@[2] == 's');
    assert("list.new"@[3] == 't');
    assert("list.new"@[4] == '.');
    assert("list.append"@[0] == 'l');
    assert("list.append"@[1] == 'i');
    assert("list.append"@[2] == 's');
    assert("list.append"@[3] == 't');
    assert("list.append"@[4] == '.');
    assert("list.length"@[0] == 'l');
    assert("list.length"@[1] == 'i');
    assert("list.length"@[2] == 's');
    assert("list.length"@[3] == 't');
    assert("list.length"@[4] == '.');
    assert("list.get"@[0] == 'l');
    assert("list.get"@[1] == 'i');
    assert("list.get"@[2] == 's');
    assert("list.get"@[3] == 't');
    assert("list.get"@[4] == '.');
    assert("list.reverse"@[0] == 'l');
    assert("list.reverse"@[1] == 'i');
    assert("list.reverse"@[2] == 's');
    assert("list.reverse"@[3] == 't');
    assert("list.reverse"@[4] == '.');
    assert("list.sort"@[0] == 'l');
    assert("list.sort"@[1] == 'i');
    assert("list.sort"@[2] == 's');
    assert("list.sort"@[3] == 't');
    assert("list.sort"@[4] == '.');
    assert("list.unique"@[0] == 'l');
    assert("list.unique"@[1] == 'i');
    assert("list.unique"@[2] == 's');
    assert("list.unique"@[3] == 't');
    assert("list.unique"@[4] == '.');
    assert("list.flatten"@[0] == 'l');
    assert("list.flatten"@[1] == 'i');
    assert("list.flatten"@[2] == 's');
    assert("list.flatten"@[3] == 't');
    assert("list.flatten"@[4] == '.');
    assert("list.is_empty"@[0] == 'l');
    assert("list.is_empty"@[1] == 'i');
    assert("list.is_empty"@[2] == 's');
    assert("list.is_empty"@[3] == 't');
    assert("list.is_empty"@[4] == '.');
    assert("list.is_sorted"@[0] == 'l');
    assert("list.is_sorted"@[1] == 'i');
    assert("list.is_sorted"@[2] == 's');
    assert("list.is_sorted"@[3] == 't');
    assert("list.is_sorted"@[4] == '.');
    assert("list.skip"@[0] == 'l');
    assert("list.skip"@[1] == 'i');
    assert("list.skip"@[2] == 's');
    assert("list.skip"@[3] == 't');
    assert("list.skip"@[4] == '.');
    assert("list.take"@[0] == 'l');
    assert("list.take"@[1] == 'i');
    assert("list.take"@[2] == 's');
    assert("list.take"@[3] == 't');
    assert("list.take"@[4] == '.');
    assert("list.remove"@[0] == 'l');
    assert("list.remove"@[1] == 'i');
    assert("list.remove"@[2] == 's');
    assert("list.remove"@[3] == 't');
    assert("list.remove"@[4] == '.');
    assert("list.sort_by_index"@[0] == 'l');
    assert("list.sort_by_index"@[1] == 'i');
    assert("list.sort_by_index"@[2] == 's');
    assert("list.sort_by_index"@[3] == 't');
    assert("list.sort_by_index"@[4] == '.');
    assert("list.remove_at"@[0] == 'l');
    assert("list.remove_at"@[1] == 'i');
    assert("list.remove_at"@[2] == 's');
    assert("list.remove_at"@[3] == 't');
    assert("list.remove_at"@[4] == '.');
    assert("list.contains"@[0] == 'l');
    assert("list.contains"@[1] == 'i');
    assert("list.contains"@[2] == 's');
    assert("list.contains"@[3] == 't');
    assert("list.contains"@[4] == '.');
    assert("list.index_of"@[0] == 'l');
    assert("list.index_of"@[1] == 'i');
    assert("list.index_of"@[2] == 's');
    assert("list.index_of"@[3] == 't');
    assert("list.index_of"@[4] == '.');
    assert("list.last_index_of"@[0] == 'l');
    assert("list.last_index_of"@[1] == 'i');
    assert("list.last_index_of"@[2] == 's');
    assert("list.last_index_of"@[3] == 't');
    assert("list.last_index_of"@[4] == '.');
    assert("list.concat"@[0] == 'l');
    assert("list.concat"@[1] == 'i');
    assert("list.concat"@[2] == 's');
    assert("list.concat"@[3] == 't');
    assert("list.concat"@[4] == '.');
    assert("list.zip"@[0] == 'l');
    assert("list.zip"@[1] == 'i');
    assert("list.zip"@[2] == 's');
    assert("list.zip"@[3] == 't');
    assert("list.zip"@[4] == '.');
    assert("list.first"@[0] == 'l');
    assert("list.first"@[1] == 'i');
    assert("list.first"@[2] == 's');
    assert("list.first"@[3] == 't');
    assert("list.first"@[4] == '.');
    assert("list.last"@[0] == 'l');
    assert("list.last"@[1] == 'i');
    assert("list.last"@[2] == 's');
    assert("list.last"@[3] == 't');
    assert("list.last"@[4] == '.');
    assert("list.filter"@[0] == 'l');
    assert("list.filter"@[1] == 'i');
    assert("list.filter"@[2] == 's');
    assert("list.filter"@[3] == 't');
    assert("list.filter"@[4] == '.');
    assert("list.map"@[0] == 'l');
    assert("list.map"@[1] == 'i');
    assert("list.map"@[2] == 's');
    assert("list.map"@[3] == 't');
    assert("list.map"@[4] == '.');
    assert("list.find"@[0] == 'l');
    assert("list.find"@[1] == 'i');
    assert("list.find"@[2] == 's');
    assert("list.find"@[3] == 't');
    assert("list.find"@[4] == '.');
    assert("list.sort_by"@[0] == 'l');
    assert("list.sort_by"@[1] == 'i');
    assert("list.sort_by"@[2] == 's');
    assert("list.sort_by"@[3] == 't');
    assert("list.sort_by"@[4] == '.');
    assert("list.all"@[0] == 'l');
    assert("list.all"@[1] == 'i');
    assert("list.all"@[2] == 's');
    assert("list.all"@[3] == 't');
    assert("list.all"@[4] == '.');
    assert("list.any"@[0] == 'l');
    assert("list.any"@[1] == 'i');
    assert("list.any"@[2] == 's');
    assert("list.any"@[3] == 't');
    assert("list.any"@[4] == '.');
    assert("list.count"@[0] == 'l');
    assert("list.count"@[1] == 'i');
    assert("list.count"@[2] == 's');
    assert("list.count"@[3] == 't');
    assert("list.count"@[4] == '.');
    assert("list.sum"@[0] == 'l');
    assert("list.sum"@[1] == 'i');
    assert("list.sum"@[2] == 's');
    assert("list.sum"@[3] == 't');
    assert("list.sum"@[4] == '.');
    assert("list.group_by"@[0] == 'l');
    assert("list.group_by"@[1] == 'i');
    assert("list.group_by"@[2] == 's');
    assert("list.group_by"@[3] == 't');
    assert("list.group_by"@[4] == '.');
    assert("list.reduce"@[0] == 'l');
    assert("list.reduce"@[1] == 'i');
    assert("list.reduce"@[2] == 's');
    assert("list.reduce"@[3] == 't');
    assert("list.reduce"@[4] == '.');
    assert("list.chunk"@[0] == 'l');
    assert("list.chunk"@[1] == 'i');
    assert("list.chunk"@[2] == 's');
    assert("list.chunk"@[3] == 't');
    assert("list.chunk"@[4] == '.');
    assert("list.all_elements_in"@[0] == 'l');
    assert("list.all_elements_in"@[1] == 'i');
    assert("list.all_elements_in"@[2] == 's');
    assert("list.all_elements_in"@[3] == 't');
    assert("list.all_elements_in"@[4] == '.');
    assert("list.enumerate"@[0] == 'l');
    assert("list.enumerate"@[1] == 'i');
    assert("list.enumerate"@[2] == 's');
    assert("list.enumerate"@[3] == 't');
    assert("list.enumerate"@[4] == '.');
    assert("list.from_set"@[0] == 'l');
    assert("list.from_set"@[1] == 'i');
    assert("list.from_set"@[2] == 's');
    assert("list.from_set"@[3] == 't');
    assert("list.from_set"@[4] == '.');
    assert("list.repeat"@[0] == 'l');
    assert("list.repeat"@[1] == 'i');
    assert("list.repeat"@[2] == 's');
    assert("list.repeat"@[3] == 't');
    assert("list.repeat"@[4] == '.');
    assert("list.insert_at"@[0] == 'l');
    assert("list.insert_at"@[1] == 'i');
    assert("list.insert_at"@[2] == 's');
    assert("list.insert_at"@[3] == 't');
    assert("list.insert_at"@[4] == '.');
    assert("list.swap"@[0] == 'l');
    assert("list.swap"@[1] == 'i');
    assert("list.swap"@[2] == 's');
    assert("list.swap"@[3] == 't');
    assert("list.swap"@[4] == '.');
    assert("list.flat_map"@[0] == 'l');
    assert("list.flat_map"@[1] == 'i');
    assert("list.flat_map"@[2] == 's');
    assert("list.flat_map"@[3] == 't');
    assert("list.flat_map"@[4] == '.');
}

proof fn list_new_form(c: BuiltinCall, name: Seq<char>)
    requires
        in_order(c),
        name == "list.new"@,
    ensures
        takes_and_gives(c, name, seq![1nat], seq![], list(given(c, 0))),
        otherwise_takes(c, name, 1, seq![]),
{
    reveal(takes_and_gives);
    reveal(takes_and_gives_of);
    reveal(otherwise_takes);
    list_table(name);
    let b = of_types(Arity::One, Params::P0, Shape::List(Simple::A));
    builtin_does(c, name, b);
    counted(b.arity, c.type_args.len());
    let params: Seq<Form> = seq![];
    if counts_of(b.arity).contains(c.type_args.len()) {
        assert(params_forms(b.params, args_in(c, b.arity)) =~= params);
    }
    let fallback: Seq<Form> = seq![];
    assert(params_forms(b.fallback, any_types()) =~= fallback);
}

proof fn list_append_form(c: BuiltinCall, name: Seq<char>)
    requires
        in_order(c),
        name == "list.append"@,
    ensures
        takes_and_gives(
            c,
            name,
            seq![1nat],
            seq![list(given(c, 0)), given(c, 0)],
            list(given(c, 0)),
        ),
        otherwise_takes(c, name, 1, seq![any(), any()]),
{
    reveal(takes_and_gives);
    reveal(takes_and_gives_of);
    reveal(otherwise_takes);
    list_table(name);
    let b = exact(Arity::One, Params::P2(Shape::List(Simple::A), Shape::One(Simple::A)), Shape::List(Simple::A), Target::Any, Params::P2(Shape::One(Simple::Any), Shape::One(Simple::Any)));
    builtin_does(c, name, b);
    counted(b.arity, c.type_args.len());
    let params: Seq<Form> = seq![list(given(c, 0)), given(c, 0)];
    if counts_of(b.arity).contains(c.type_args.len()) {
        assert(params_forms(b.params, args_in(c, b.arity)) =~= params);
    }
    let fallback: Seq<Form> = seq![any(), any()];
    assert(params_forms(b.fallback, any_types()) =~= fallback);
}

proof fn list_length_form(c: BuiltinCall, name: Seq<char>)
    requires
        in_order(c),
        name == "list.length"@,
    ensures
        takes_and_gives(c, name, seq![0nat, 1nat], seq![list(given(c, 0))], int64()),
{
    reveal(takes_and_gives);
    reveal(takes_and_gives_of);
    reveal(otherwise_takes);
    list_table(name);
    let b = of_types(Arity::UpToOne, Params::P1(Shape::List(Simple::A)), Shape::One(Simple::Int64));
    builtin_does(c, name, b);
    counted(b.arity, c.type_args.len());
    let params: Seq<Form> = seq![list(given(c, 0))];
    if counts_of(b.arity).contains(c.type_args.len()) {
        assert(params_forms(b.params, args_in(c, b.arity)) =~= params);
    }
}

proof fn list_get_form(c: BuiltinCall, name: Seq<char>)
    requires
        in_order(c),
        name == "list.get"@,
    ensures
        takes_and_gives(
            c,
            name,
            seq![1nat],
            seq![list(given(c, 0)), int64()],
            optional(given(c, 0)),
        ),
        otherwise_takes(c, name, 1, seq![any(), int64()]),
{
    reveal(takes_and_gives);
    reveal(takes_and_gives_of);
    reveal(otherwise_takes);
    list_table(name);
    let b = exact(Arity::One, Params::P2(Shape::List(Simple::A), Shape::One(Simple::Int64)), Shape::Optional(Simple::A), Target::Any, Params::P2(Shape::One(Simple::Any), Shape::One(Simple::Int64)));
    builtin_does(c, name, b);
    counted(b.arity, c.type_args.len());
    let params: Seq<Form> = seq![list(given(c, 0)), int64()];
    if counts_of(b.arity).contains(c.type_args.len()) {
        assert(params_forms(b.params, args_in(c, b.arity)) =~= params);
    }
    let fallback: Seq<Form> = seq![any(), int64()];
    assert(params_forms(b.fallback, any_types()) =~= fallback);
}

proof fn list_reverse_form(c: BuiltinCall, name: Seq<char>)
    requires
        in_order(c),
        name == "list.reverse"@ || name == "list.sort"@ || name == "list.unique"@
            || name == "list.flatten"@,
    ensures
        takes_and_gives(c, name, seq![0nat, 1nat], seq![list(given(c, 0))], list(given(c, 0))),
{
    reveal(takes_and_gives);
    reveal(takes_and_gives_of);
    reveal(otherwise_takes);
    list_table(name);
    let b = of_types(Arity::UpToOne, Params::P1(Shape::List(Simple::A)), Shape::List(Simple::A));
    builtin_does(c, name, b);
    counted(b.arity, c.type_args.len());
    let params: Seq<Form> = seq![list(given(c, 0))];
    if counts_of(b.arity).contains(c.type_args.len()) {
        assert(params_forms(b.params, args_in(c, b.arity)) =~= params);
    }
}

proof fn list_is_empty_form(c: BuiltinCall, name: Seq<char>)
    requires
        in_order(c),
        name == "list.is_empty"@ || name == "list.is_sorted"@,
    ensures
        takes_and_gives(c, name, seq![0nat, 1nat], seq![list(given(c, 0))], boolean()),
{
    reveal(takes_and_gives);
    reveal(takes_and_gives_of);
    reveal(otherwise_takes);
    list_table(name);
    let b = of_types(Arity::UpToOne, Params::P1(Shape::List(Simple::A)), Shape::One(Simple::Bool));
    builtin_does(c, name, b);
    counted(b.arity, c.type_args.len());
    let params: Seq<Form> = seq![list(given(c, 0))];
    if counts_of(b.arity).contains(c.type_args.len()) {
        assert(params_forms(b.params, args_in(c, b.arity)) =~= params);
    }
}

proof fn list_skip_form(c: BuiltinCall, name: Seq<char>)
    requires
        in_order(c),
        name == "list.skip"@ || name == "list.take"@ || name == "list.remove"@
            || name == "list.sort_by_index"@ || name == "list.remove_at"@,
    ensures
        takes_and_gives(
            c,
            name,
            seq![0nat, 1nat],
            seq![list(given(c, 0)), int64()],
            list(given(c, 0)),
        ),
{
    reveal(takes_and_gives);
    reveal(takes_and_gives_of);
    reveal(otherwise_takes);
    list_table(name);
    let b = of_types(Arity::UpToOne, Params::P2(Shape::List(Simple::A), Shape::One(Simple::Int64)), Shape::List(Simple::A));
    builtin_does(c, name, b);
    counted(b.arity, c.type_args.len());
    let params: Seq<Form> = seq![list(given(c, 0)), int64()];
    if counts_of(b.arity).contains(c.type_args.len()) {
        assert(params_forms(b.params, args_in(c, b.arity)) =~= params);
    }
}

proof fn list_contains_form(c: BuiltinCall, name: Seq<char>)
    requires
        in_order(c),
        name == "list.contains"@,
    ensures
        takes_and_gives(c, name, seq![0nat, 1nat], seq![list(given(c, 0)), given(c, 0)], boolean()),
{
    reveal(takes_and_gives);
    reveal(takes_and_gives_of);
    reveal(otherwise_takes);
    list_table(name);
    let b = of_types(Arity::UpToOne, Params::P2(Shape::List(Simple::A), Shape::One(Simple::A)), Shape::One(Simple::Bool));
    builtin_does(c, name, b);
    counted(b.arity, c.type_args.len());
    let params: Seq<Form> = seq![list(given(c, 0)), given(c, 0)];
    if counts_of(b.arity).contains(c.type_args.len()) {
        assert(params_forms(b.params, args_in(c, b.arity)) =~= params);
    }
}

proof fn list_index_of_form(c: BuiltinCall, name: Seq<char>)
    requires
        in_order(c),
        name == "list.index_of"@ || name == "list.last_index_of"@,
    ensures
        takes_and_gives(
            c,
            name,
            seq![0nat, 1nat],
            seq![list(given(c, 0)), given(c, 0)],
            optional(int64()),
        ),
{
    reveal(takes_and_gives);
    reveal(takes_and_gives_of);
    reveal(otherwise_takes);
    list_table(name);
    let b = of_types(Arity::UpToOne, Params::P2(Shape::List(Simple::A), Shape::One(Simple::A)), Shape::Optional(Simple::Int64));
    builtin_does(c, name, b);
    counted(b.arity, c.type_args.len());
    let params: Seq<Form> = seq![list(given(c, 0)), given(c, 0)];
    if counts_of(b.arity).contains(c.type_args.len()) {
        assert(params_forms(b.params, args_in(c, b.arity)) =~= params);
    }
}

proof fn list_concat_form(c: BuiltinCall, name: Seq<char>)
    requires
        in_order(c),
        name == "list.concat"@,
    ensures
        takes_and_gives(
            c,
            name,
            seq![0nat, 1nat],
            seq![list(given(c, 0)), list(given(c, 0))],
            list(given(c, 0)),
        ),
{
    reveal(takes_and_gives);
    reveal(takes_and_gives_of);
    reveal(otherwise_takes);
    list_table(name);
    let b = of_types(Arity::UpToOne, Params::P2(Shape::List(Simple::A), Shape::List(Simple::A)), Shape::List(Simple::A));
    builtin_does(c, name, b);
    counted(b.arity, c.type_args.len());
    let params: Seq<Form> = seq![list(given(c, 0)), list(given(c, 0))];
    if counts_of(b.arity).contains(c.type_args.len()) {
        assert(params_forms(b.params, args_in(c, b.arity)) =~= params);
    }
}

proof fn list_zip_form(c: BuiltinCall, name: Seq<char>)
    requires
        in_order(c),
        name == "list.zip"@,
    ensures
        takes_and_gives(
            c,
            name,
            seq![0nat, 2nat],
            seq![list(given(c, 0)), list(given(c, 1))],
            list(list(any())),
        ),
{
    reveal(takes_and_gives);
    reveal(takes_and_gives_of);
    reveal(otherwise_takes);
    list_table(name);
    let b = of_types(Arity::NoneOrTwo, Params::P2(Shape::List(Simple::A), Shape::List(Simple::B)), Shape::ListOfLists(Simple::Any));
    builtin_does(c, name, b);
    counted(b.arity, c.type_args.len());
    let params: Seq<Form> = seq![list(given(c, 0)), list(given(c, 1))];
    if counts_of(b.arity).contains(c.type_args.len()) {
        assert(params_forms(b.params, args_in(c, b.arity)) =~= params);
    }
}

proof fn list_first_form(c: BuiltinCall, name: Seq<char>)
    requires
        in_order(c),
        name == "list.first"@ || name == "list.last"@,
    ensures
        takes_and_gives(c, name, seq![0nat, 1nat], seq![list(given(c, 0))], optional(given(c, 0))),
{
    reveal(takes_and_gives);
    reveal(takes_and_gives_of);
    reveal(otherwise_takes);
    list_table(name);
    let b = of_types(Arity::UpToOne, Params::P1(Shape::List(Simple::A)), Shape::Optional(Simple::A));
    builtin_does(c, name, b);
    counted(b.arity, c.type_args.len());
    let params: Seq<Form> = seq![list(given(c, 0))];
    if counts_of(b.arity).contains(c.type_args.len()) {
        assert(params_forms(b.params, args_in(c, b.arity)) =~= params);
    }
}

proof fn list_filter_form(c: BuiltinCall, name: Seq<char>)
    requires
        in_order(c),
        name == "list.filter"@,
    ensures
        takes_and_gives(
            c,
            name,
            seq![0nat, 1nat],
            seq![list(given(c, 0)), function(given(c, 0), boolean())],
            list(given(c, 0)),
        ),
{
    reveal(takes_and_gives);
    reveal(takes_and_gives_of);
    reveal(otherwise_takes);
    list_table(name);
    let b = of_types(Arity::UpToOne, Params::P2(Shape::List(Simple::A), Shape::Fn1(Simple::A, Simple::Bool)), Shape::List(Simple::A));
    builtin_does(c, name, b);
    counted(b.arity, c.type_args.len());
    let params: Seq<Form> = seq![list(given(c, 0)), function(given(c, 0), boolean())];
    if counts_of(b.arity).contains(c.type_args.len()) {
        assert(params_forms(b.params, args_in(c, b.arity)) =~= params);
    }
}

proof fn list_map_form(c: BuiltinCall, name: Seq<char>)
    requires
        in_order(c),
        name == "list.map"@,
    ensures
        takes_and_gives(
            c,
            name,
            seq![0nat, 2nat],
            seq![list(given(c, 0)), function(given(c, 0), given(c, 1))],
            list(given(c, 1)),
        ),
{
    reveal(takes_and_gives);
    reveal(takes_and_gives_of);
    reveal(otherwise_takes);
    list_table(name);
    let b = of_types(Arity::NoneOrTwo, Params::P2(Shape::List(Simple::A), Shape::Fn1(Simple::A, Simple::B)), Shape::List(Simple::B));
    builtin_does(c, name, b);
    counted(b.arity, c.type_args.len());
    let params: Seq<Form> = seq![list(given(c, 0)), function(given(c, 0), given(c, 1))];
    if counts_of(b.arity).contains(c.type_args.len()) {
        assert(params_forms(b.params, args_in(c, b.arity)) =~= params);
    }
}

proof fn list_find_form(c: BuiltinCall, name: Seq<char>)
    requires
        in_order(c),
        name == "list.find"@,
    ensures
        takes_and_gives(
            c,
            name,
            seq![0nat, 1nat],
            seq![list(given(c, 0)), function(given(c, 0), boolean())],
            optional(given(c, 0)),
        ),
{
    reveal(takes_and_gives);
    reveal(takes_and_gives_of);
    reveal(otherwise_takes);
    list_table(name);
    let b = of_types(Arity::UpToOne, Params::P2(Shape::List(Simple::A), Shape::Fn1(Simple::A, Simple::Bool)), Shape::Optional(Simple::A));
    builtin_does(c, name, b);
    counted(b.arity, c.type_args.len());
    let params: Seq<Form> = seq![list(given(c, 0)), function(given(c, 0), boolean())];
    if counts_of(b.arity).contains(c.type_args.len()) {
        assert(params_forms(b.params, args_in(c, b.arity)) =~= params);
    }
}

proof fn list_sort_by_form(c: BuiltinCall, name: Seq<char>)
    requires
        in_order(c),
        name == "list.sort_by"@,
    ensures
        takes_and_gives(
            c,
            name,
            seq![0nat, 1nat],
            seq![list(given(c, 0)), function(given(c, 0), int64())],
            list(given(c, 0)),
        ),
{
    reveal(takes_and_gives);
    reveal(takes_and_gives_of);
    reveal(otherwise_takes);
    list_table(name);
    let b = of_types(Arity::UpToOne, Params::P2(Shape::List(Simple::A), Shape::Fn1(Simple::A, Simple::Int64)), Shape::List(Simple::A));
    builtin_does(c, name, b);
    counted(b.arity, c.type_args.len());
    let params: Seq<Form> = seq![list(given(c, 0)), function(given(c, 0), int64())];
    if counts_of(b.arity).contains(c.type_args.len()) {
        assert(params_forms(b.params, args_in(c, b.arity)) =~= params);
    }
}

proof fn list_all_form(c: BuiltinCall, name: Seq<char>)
    requires
        in_order(c),
        name == "list.all"@ || name == "list.any"@,
    ensures
        takes_and_gives(
            c,
            name,
            seq![0nat, 1nat],
            seq![list(given(c, 0)), function(given(c, 0), boolean())],
            boolean(),
        ),
{
    reveal(takes_and_gives);
    reveal(takes_and_gives_of);
    reveal(otherwise_takes);
    list_table(name);
    let b = of_types(Arity::UpToOne, Params::P2(Shape::List(Simple::A), Shape::Fn1(Simple::A, Simple::Bool)), Shape::One(Simple::Bool));
    builtin_does(c, name, b);
    counted(b.arity, c.type_args.len());
    let params: Seq<Form> = seq![list(given(c, 0)), function(given(c, 0), boolean())];
    if counts_of(b.arity).contains(c.type_args.len()) {
        assert(params_forms(b.params, args_in(c, b.arity)) =~= params);
    }
}

proof fn list_count_form(c: BuiltinCall, name: Seq<char>)
    requires
        in_order(c),
        name == "list.count"@,
    ensures
        takes_and_gives(
            c,
            name,
            seq![0nat, 1nat],
            seq![list(given(c, 0)), function(given(c, 0), boolean())],
            int64(),
        ),
{
    reveal(takes_and_gives);
    reveal(takes_and_gives_of);
    reveal(otherwise_takes);
    list_table(name);
    let b = of_types(Arity::UpToOne, Params::P2(Shape::List(Simple::A), Shape::Fn1(Simple::A, Simple::Bool)), Shape::One(Simple::Int64));
    builtin_does(c, name, b);
    counted(b.arity, c.type_args.len());
    let params: Seq<Form> = seq![list(given(c, 0)), function(given(c, 0), boolean())];
    if counts_of(b.arity).contains(c.type_args.len()) {
        assert(params_forms(b.params, args_in(c, b.arity)) =~= params);
    }
}

proof fn list_sum_form(c: BuiltinCall, name: Seq<char>)
    requires
        in_order(c),
        name == "list.sum"@,
    ensures
        takes_and_gives(c, name, seq![0nat, 1nat], seq![list(given(c, 0))], given(c, 0)),
{
    reveal(takes_and_gives);
    reveal(takes_and_gives_of);
    reveal(otherwise_takes);
    list_table(name);
    let b = of_types(Arity::UpToOne, Params::P1(Shape::List(Simple::A)), Shape::One(Simple::A));
    builtin_does(c, name, b);
    counted(b.arity, c.type_args.len());
    let params: Seq<Form> = seq![list(given(c, 0))];
    if counts_of(b.arity).contains(c.type_args.len()) {
        assert(params_forms(b.params, args_in(c, b.arity)) =~= params);
    }
}

proof fn list_group_by_form(c: BuiltinCall, name: Seq<char>)
    requires
        in_order(c),
        name == "list.group_by"@,
    ensures
        takes_and_gives(
            c,
            name,
            seq![0nat, 1nat],
            seq![list(given(c, 0)), function(given(c, 0), string())],
            map_of(string(), list(given(c, 0))),
        ),
{
    reveal(takes_and_gives);
    reveal(takes_and_gives_of);
    reveal(otherwise_takes);
    list_table(name);
    let b = of_types(Arity::UpToOne, Params::P2(Shape::List(Simple::A), Shape::Fn1(Simple::A, Simple::String)), Shape::MapToLists(Simple::String, Simple::A));
    builtin_does(c, name, b);
    counted(b.arity, c.type_args.len());
    let params: Seq<Form> = seq![list(given(c, 0)), function(given(c, 0), string())];
    if counts_of(b.arity).contains(c.type_args.len()) {
        assert(params_forms(b.params, args_in(c, b.arity)) =~= params);
    }
}

proof fn list_reduce_form(c: BuiltinCall, name: Seq<char>)
    requires
        in_order(c),
        name == "list.reduce"@,
    ensures
        takes_and_gives(
            c,
            name,
            seq![0nat, 2nat],
            seq![list(given(c, 0)), given(c, 1), function2(given(c, 1), given(c, 0), given(c, 1))],
            given(c, 1),
        ),
{
    reveal(takes_and_gives);
    reveal(takes_and_gives_of);
    reveal(otherwise_takes);
    list_table(name);
    let b = of_types(Arity::NoneOrTwo, Params::P3(Shape::List(Simple::A), Shape::One(Simple::B), Shape::Fn2(Simple::B, Simple::A, Simple::B)), Shape::One(Simple::B));
    builtin_does(c, name, b);
    counted(b.arity, c.type_args.len());
    let params: Seq<Form> = seq![list(given(c, 0)), given(c, 1), function2(given(c, 1), given(c, 0), given(c, 1))];
    if counts_of(b.arity).contains(c.type_args.len()) {
        assert(params_forms(b.params, args_in(c, b.arity)) =~= params);
    }
}

proof fn list_chunk_form(c: BuiltinCall, name: Seq<char>)
    requires
        in_order(c),
        name == "list.chunk"@,
    ensures
        takes_and_gives(
            c,
            name,
            seq![0nat, 1nat],
            seq![list(given(c, 0)), int64()],
            list(list(given(c, 0))),
        ),
{
    reveal(takes_and_gives);
    reveal(takes_and_gives_of);
    reveal(otherwise_takes);
    list_table(name);
    let b = of_types(Arity::UpToOne, Params::P2(Shape::List(Simple::A), Shape::One(Simple::Int64)), Shape::ListOfLists(Simple::A));
    builtin_does(c, name, b);
    counted(b.arity, c.type_args.len());
    let params: Seq<Form> = seq![list(given(c, 0)), int64()];
    if counts_of(b.arity).contains(c.type_args.len()) {
        assert(params_forms(b.params, args_in(c, b.arity)) =~= params);
    }
}

proof fn list_all_elements_in_form(c: BuiltinCall, name: Seq<char>)
    requires
        in_order(c),
        name == "list.all_elements_in"@,
    ensures
        takes_and_gives(
            c,
            name,
            seq![0nat, 1nat],
            seq![list(given(c, 0)), list(given(c, 0))],
            boolean(),
        ),
{
    reveal(takes_and_gives);
    reveal(takes_and_gives_of);
    reveal(otherwise_takes);
    list_table(name);
    let b = of_types(Arity::UpToOne, Params::P2(Shape::List(Simple::A), Shape::List(Simple::A)), Shape::One(Simple::Bool));
    builtin_does(c, name, b);
    counted(b.arity, c.type_args.len());
    let params: Seq<Form> = seq![list(given(c, 0)), list(given(c, 0))];
    if counts_of(b.arity).contains(c.type_args.len()) {
        assert(params_forms(b.params, args_in(c, b.arity)) =~= params);
    }
}

proof fn list_enumerate_form(c: BuiltinCall, name: Seq<char>)
    requires
        in_order(c),
        name == "list.enumerate"@,
    ensures
        takes_and_gives(c, name, seq![0nat, 1nat], seq![list(given(c, 0))], list(list(any()))),
{
    reveal(takes_and_gives);
    reveal(takes_and_gives_of);
    reveal(otherwise_takes);
    list_table(name);
    let b = of_types(Arity::UpToOne, Params::P1(Shape::List(Simple::A)), Shape::ListOfLists(Simple::Any));
    builtin_does(c, name, b);
    counted(b.arity, c.type_args.len());
    let params: Seq<Form> = seq![list(given(c, 0))];
    if counts_of(b.arity).contains(c.type_args.len()) {
        assert(params_forms(b.params, args_in(c, b.arity)) =~= params);
    }
}

proof fn list_from_set_form(c: BuiltinCall, name: Seq<char>)
    requires
        in_order(c),
        name == "list.from_set"@,
    ensures
        takes_and_gives(c, name, seq![0nat, 1nat], seq![set_of(given(c, 0))], list(given(c, 0))),
{
    reveal(takes_and_gives);
    reveal(takes_and_gives_of);
    reveal(otherwise_takes);
    list_table(name);
    let b = of_types(Arity::UpToOne, Params::P1(Shape::SetOf(Simple::A)), Shape::List(Simple::A));
    builtin_does(c, name, b);
    counted(b.arity, c.type_args.len());
    let params: Seq<Form> = seq![set_of(given(c, 0))];
    if counts_of(b.arity).contains(c.type_args.len()) {
        assert(params_forms(b.params, args_in(c, b.arity)) =~= params);
    }
}

proof fn list_repeat_form(c: BuiltinCall, name: Seq<char>)
    requires
        in_order(c),
        name == "list.repeat"@,
    ensures
        takes_and_gives(c, name, seq![0nat, 1nat], seq![given(c, 0), int64()], list(given(c, 0))),
{
    reveal(takes_and_gives);
    reveal(takes_and_gives_of);
    reveal(otherwise_takes);
    list_table(name);
    let b = of_types(Arity::UpToOne, Params::P2(Shape::One(Simple::A), Shape::One(Simple::Int64)), Shape::List(Simple::A));
    builtin_does(c, name, b);
    counted(b.arity, c.type_args.len());
    let params: Seq<Form> = seq![given(c, 0), int64()];
    if counts_of(b.arity).contains(c.type_args.len()) {
        assert(params_forms(b.params, args_in(c, b.arity)) =~= params);
    }
}

proof fn list_insert_at_form(c: BuiltinCall, name: Seq<char>)
    requires
        in_order(c),
        name == "list.insert_at"@,
    ensures
        takes_and_gives(
            c,
            name,
            seq![0nat, 1nat],
            seq![list(given(c, 0)), int64(), given(c, 0)],
            list(given(c, 0)),
        ),
{
    reveal(takes_and_gives);
    reveal(takes_and_gives_of);
    reveal(otherwise_takes);
    list_table(name);
    let b = of_types(Arity::UpToOne, Params::P3(Shape::List(Simple::A), Shape::One(Simple::Int64), Shape::One(Simple::A)), Shape::List(Simple::A));
    builtin_does(c, name, b);
    counted(b.arity, c.type_args.len());
    let params: Seq<Form> = seq![list(given(c, 0)), int64(), given(c, 0)];
    if counts_of(b.arity).contains(c.type_args.len()) {
        assert(params_forms(b.params, args_in(c, b.arity)) =~= params);
    }
}

proof fn list_swap_form(c: BuiltinCall, name: Seq<char>)
    requires
        in_order(c),
        name == "list.swap"@,
    ensures
        takes_and_gives(
            c,
            name,
            seq![0nat, 1nat],
            seq![list(given(c, 0)), int64(), int64()],
            list(given(c, 0)),
        ),
{
    reveal(takes_and_gives);
    reveal(takes_and_gives_of);
    reveal(otherwise_takes);
    list_table(name);
    let b = of_types(Arity::UpToOne, Params::P3(Shape::List(Simple::A), Shape::One(Simple::Int64), Shape::One(Simple::Int64)), Shape::List(Simple::A));
    builtin_does(c, name, b);
    counted(b.arity, c.type_args.len());
    let params: Seq<Form> = seq![list(given(c, 0)), int64(), int64()];
    if counts_of(b.arity).contains(c.type_args.len()) {
        assert(params_forms(b.params, args_in(c, b.arity)) =~= params);
    }
}

proof fn list_flat_map_form(c: BuiltinCall, name: Seq<char>)
    requires
        in_order(c),
        name == "list.flat_map"@,
    ensures
        takes_and_gives(
            c,
            name,
            seq![0nat, 2nat],
            seq![list(given(c, 0)), function(given(c, 0), list(given(c, 1)))],
            list(given(c, 1)),
        ),
{
    reveal(takes_and_gives);
    reveal(takes_and_gives_of);
    reveal(otherwise_takes);
    list_table(name);
    let b = of_types(Arity::NoneOrTwo, Params::P2(Shape::List(Simple::A), Shape::Fn1ToList(Simple::A, Simple::B)), Shape::List(Simple::B));
    builtin_does(c, name, b);
    counted(b.arity, c.type_args.len());
    let params: Seq<Form> = seq![list(given(c, 0)), function(given(c, 0), list(given(c, 1)))];
    if counts_of(b.arity).contains(c.type_args.len()) {
        assert(params_forms(b.params, args_in(c, b.arity)) =~= params);
    }
}

/// What the builtin functions on lists take and give.
pub proof fn law_list_builtins(c: BuiltinCall, name: Seq<char>)
    requires
        in_order(c),
    ensures
        name == "list.new"@ ==> takes_and_gives(c, name, seq![1nat], seq![], list(given(c, 0))),
        name == "list.new"@ ==> otherwise_takes(c, name, 1, seq![]),
        name == "list.append"@ ==> takes_and_gives(
            c,
            name,
            seq![1nat],
            seq![list(given(c, 0)), given(c, 0)],
            list(given(c, 0)),
        ),
        name == "list.append"@ ==> otherwise_takes(c, name, 1, seq![any(), any()]),
        name == "list.length"@ ==> takes_and_gives(c, name, seq![0nat, 1nat], seq![list(given(c, 0))], int64()),
        name == "list.get"@ ==> takes_and_gives(
            c,
            name,
            seq![1nat],
            seq![list(given(c, 0)), int64()],
            optional(given(c, 0)),
        ),
        name == "list.get"@ ==> otherwise_takes(c, name, 1, seq![any(), int64()]),
        name == "list.reverse"@ || name == "list.sort"@ || name == "list.unique"@
            || name == "list.flatten"@ ==> takes_and_gives(c, name, seq![0nat, 1nat], seq![list(given(c, 0))], list(given(c, 0))),
        name == "list.is_empty"@ || name == "list.is_sorted"@ ==> takes_and_gives(c, name, seq![0nat, 1nat], seq![list(given(c, 0))], boolean()),
        name == "list.skip"@ || name == "list.take"@ || name == "list.remove"@
            || name == "list.sort_by_index"@ || name == "list.remove_at"@ ==> takes_and_gives(
            c,
            name,
            seq![0nat, 1nat],
            seq![list(given(c, 0)), int64()],
            list(given(c, 0)),
        ),
        name == "list.contains"@ ==> takes_and_gives(c, name, seq![0nat, 1nat], seq![list(given(c, 0)), given(c, 0)], boolean()),
        name == "list.index_of"@ || name == "list.last_index_of"@ ==> takes_and_gives(
            c,
            name,
            seq![0nat, 1nat],
            seq![list(given(c, 0)), given(c, 0)],
            optional(int64()),
        ),
        name == "list.concat"@ ==> takes_and_gives(
            c,
            name,
            seq![0nat, 1nat],
            seq![list(given(c, 0)), list(given(c, 0))],
            list(given(c, 0)),
        ),
        name == "list.zip"@ ==> takes_and_gives(
            c,
            name,
            seq![0nat, 2nat],
            seq![list(given(c, 0)), list(given(c, 1))],
            list(list(any())),
        ),
        name == "list.first"@ || name == "list.last"@ ==> takes_and_gives(c, name, seq![0nat, 1nat], seq![list(given(c, 0))], optional(given(c, 0))),
        name == "list.filter"@ ==> takes_and_gives(
            c,
            name,
            seq![0nat, 1nat],
            seq![list(given(c, 0)), function(given(c, 0), boolean())],
            list(given(c, 0)),
        ),
        name == "list.map"@ ==> takes_and_gives(
            c,
            name,
            seq![0nat, 2nat],
            seq![list(given(c, 0)), function(given(c, 0), given(c, 1))],
            list(given(c, 1)),
        ),
        name == "list.find"@ ==> takes_and_gives(
            c,
            name,
            seq![0nat, 1nat],
            seq![list(given(c, 0)), function(given(c, 0), boolean())],
            optional(given(c, 0)),
        ),
        name == "list.sort_by"@ ==> takes_and_gives(
            c,
            name,
            seq![0nat, 1nat],
            seq![list(given(c, 0)), function(given(c, 0), int64())],
            list(given(c, 0)),
        ),
        name == "list.all"@ || name == "list.any"@ ==> takes_and_gives(
            c,
            name,
            seq![0nat, 1nat],
            seq![list(given(c, 0)), function(given(c, 0), boolean())],
            boolean(),
        ),
        name == "list.count"@ ==> takes_and_gives(
            c,
            name,
            seq![0nat, 1nat],
            seq![list(given(c, 0)), function(given(c, 0), boolean())],
            int64(),
        ),
        name == "list.sum"@ ==> takes_and_gives(c, name, seq![0nat, 1nat], seq![list(given(c, 0))], given(c, 0)),
        name == "list.group_by"@ ==> takes_and_gives(
            c,
            name,
            seq![0nat, 1nat],
            seq![list(given(c, 0)), function(given(c, 0), string())],
            map_of(string(), list(given(c, 0))),
        ),
        name == "list.reduce"@ ==> takes_and_gives(
            c,
            name,
            seq![0nat, 2nat],
            seq![list(given(c, 0)), given(c, 1), function2(given(c, 1), given(c, 0), given(c, 1))],
            given(c, 1),
        ),
        name == "list.chunk"@ ==> takes_and_gives(
            c,
            name,
            seq![0nat, 1nat],
            seq![list(given(c, 0)), int64()],
            list(list(given(c, 0))),
        ),
        name == "list.all_elements_in"@ ==> takes_and_gives(
            c,
            name,
            seq![0nat, 1nat],
            seq![list(given(c, 0)), list(given(c, 0))],
            boolean(),
        ),
        name == "list.enumerate"@ ==> takes_and_gives(c, name, seq![0nat, 1nat], seq![list(given(c, 0))], list(list(any()))),
        name == "list.from_set"@ ==> takes_and_gives(c, name, seq![0nat, 1nat], seq![set_of(given(c, 0))], list(given(c, 0))),
        name == "list.repeat"@ ==> takes_and_gives(c, name, seq![0nat, 1nat], seq![given(c, 0), int64()], list(given(c, 0))),
        name == "list.insert_at"@ ==> takes_and_gives(
            c,
            name,
            seq![0nat, 1nat],
            seq![list(given(c, 0)), int64(), given(c, 0)],
            list(given(c, 0)),
        ),
        name == "list.swap"@ ==> takes_and_gives(
            c,
            name,
            seq![0nat, 1nat],
            seq![list(given(c, 0)), int64(), int64()],
            list(given(c, 0)),
        ),
        name == "list.flat_map"@ ==> takes_and_gives(
            c,
            name,
            seq![0nat, 2nat],
            seq![list(given(c, 0)), function(given(c, 0), list(given(c, 1)))],
            list(given(c, 1)),
        ),
{
    if name == "list.new"@ {
        list_new_form(c, name);
    }
    if name == "list.append"@ {
        list_append_form(c, name);
    }
    if name == "list.length"@ {
        list_length_form(c, name);
    }
    if name == "list.get"@ {
        list_get_form(c, name);
    }
    if name == "list.reverse"@ || name == "list.sort"@ || name == "list.unique"@
        || name == "list.flatten"@ {
        list_reverse_form(c, name);
    }
    if name == "list.is_empty"@ || name == "list.is_sorted"@ {
        list_is_empty_form(c, name);
    }
    if name == "list.skip"@ || name == "list.take"@ || name == "list.remove"@
        || name == "list.sort_by_index"@ || name == "list.remove_at"@ {
        list_skip_form(c, name);
    }
    if name == "list.contains"@ {
        list_contains_form(c, name);
    }
    if name == "list.index_of"@ || name == "list.last_index_of"@ {
        list_index_of_form(c, name);
    }
    if name == "list.concat"@ {
        list_concat_form(c, name);
    }
    if name == "list.zip"@ {
        list_zip_form(c, name);
    }
    if name == "list.first"@ || name == "list.last"@ {
        list_first_form(c, name);
    }
    if name == "list.filter"@ {
        list_filter_form(c, name);
    }
    if name == "list.map"@ {
        list_map_form(c, name);
    }
    if name == "list.find"@ {
        list_find_form(c, name);
    }
    if name == "list.sort_by"@ {
        list_sort_by_form(c, name);
    }
    if name == "list.all"@ || name == "list.any"@ {
        list_all_form(c, name);
    }
    if name == "list.count"@ {
        list_count_form(c, name);
    }
    if name == "list.sum"@ {
        list_sum_form(c, name);
    }
    if name == "list.group_by"@ {
        list_group_by_form(c, name);
    }
    if name == "list.reduce"@ {
        list_reduce_form(c, name);
    }
    if name == "list.chunk"@ {
        list_chunk_form(c, name);
    }
    if name == "list.all_elements_in"@ {
        list_all_elements_in_form(c, name);
    }
    if name == "list.enumerate"@ {
        list_enumerate_form(c, name);
    }
    if name == "list.from_set"@ {
        list_from_set_form(c, name);
    }
    if name == "list.repeat"@ {
        list_repeat_form(c, name);
    }
    if name == "list.insert_at"@ {
        list_insert_at_form(c, name);
    }
    if name == "list.swap"@ {
        list_swap_form(c, name);
    }
    if name == "list.flat_map"@ {
        list_flat_map_form(c, name);
    }
}

proof fn map_table(name: Seq<char>)
    ensures
        name == "map.new"@ ==> builtin_named(name) == Some(of_types(Arity::NoneOrTwo, Params::P0, Shape::MapOf(Simple::A, Simple::B))),
        name == "map.length"@ ==> builtin_named(name) == Some(of_types(Arity::NoneOrTwo, Params::P1(Shape::MapOf(Simple::A, Simple::B)), Shape::One(Simple::Int64))),
        name == "map.is_empty"@ ==> builtin_named(name) == Some(of_types(Arity::NoneOrTwo, Params::P1(Shape::MapOf(Simple::A, Simple::B)), Shape::One(Simple::Bool))),
        name == "map.has"@ || name == "map.contains_key"@ ==> builtin_named(name) == Some(of_types(Arity::NoneOrTwo, Params::P2(Shape::MapOf(Simple::A, Simple::B), Shape::One(Simple::A)), Shape::One(Simple::Bool))),
        name == "map.get"@ ==> builtin_named(name) == Some(of_types(Arity::NoneOrTwo, Params::P2(Shape::MapOf(Simple::A, Simple::B), Shape::One(Simple::A)), Shape::Optional(Simple::B))),
        name == "map.insert"@ || name == "map.set"@ ==> builtin_named(name) == Some(of_types(Arity::NoneOrTwo, Params::P3(Shape::MapOf(Simple::A, Simple::B), Shape::One(Simple::A), Shape::One(Simple::B)), Shape::MapOf(Simple::A, Simple::B))),
        name == "map.remove"@ ==> builtin_named(name) == Some(of_types(Arity::NoneOrTwo, Params::P2(Shape::MapOf(Simple::A, Simple::B), Shape::One(Simple::A)), Shape::MapOf(Simple::A, Simple::B))),
        name == "map.keys"@ ==> builtin_named(name) == Some(of_types(Arity::NoneOrTwo, Params::P1(Shape::MapOf(Simple::A, Simple::B)), Shape::List(Simple::A))),
        name == "map.values"@ ==> builtin_named(name) == Some(of_types(Arity::NoneOrTwo, Params::P1(Shape::MapOf(Simple::A, Simple::B)), Shape::List(Simple::B))),
        name == "map.get_or"@ ==> builtin_named(name) == Some(of_types(Arity::NoneOrTwo, Params::P3(Shape::MapOf(Simple::A, Simple::B), Shape::One(Simple::A), Shape::One(Simple::B)), Shape::One(Simple::B))),
        name == "map.merge"@ ==> builtin_named(name) == Some(of_types(Arity::NoneOrTwo, Params::P2(Shape::MapOf(Simple::A, Simple::B), Shape::MapOf(Simple::A, Simple::B)), Shape::MapOf(Simple::A, Simple::B))),
        name == "map.from_lists"@ ==> builtin_named(name) == Some(of_types(Arity::NoneOrTwo, Params::P2(Shape::List(Simple::A), Shape::List(Simple::B)), Shape::MapOf(Simple::A, Simple::B))),
        name == "map.entries"@ ==> builtin_named(name) == Some(of_types(Arity::NoneOrTwo, Params::P1(Shape::MapOf(Simple::A, Simple::B)), Shape::ListOfLists(Simple::Any))),
        name == "map.filter"@ ==> builtin_named(name) == Some(of_types(Arity::NoneOrTwo, Params::P2(Shape::MapOf(Simple::A, Simple::B), Shape::Fn2(Simple::A, Simple::B, Simple::Bool)), Shape::MapOf(Simple::A, Simple::B))),
        name == "map.map_values"@ ==> builtin_named(name) == Some(of_types(Arity::NoneTwoOrThree, Params::P2(Shape::MapOf(Simple::A, Simple::B), Shape::Fn1(Simple::B, Simple::C)), Shape::MapOf(Simple::A, Simple::C))),
        name == "map.for_each"@ ==> builtin_named(name) == Some(of_types(Arity::NoneOrTwo, Params::P2(Shape::MapOf(Simple::A, Simple::B), Shape::Fn2(Simple::A, Simple::B, Simple::Any)), Shape::One(Simple::Nothing))),
{
    reveal(builtin_named);
    reveal(map_builtin_named);
    string_table_prefix(name);
    list_table_prefix(name);
    reveal_strlit("map.new");
    assert("map.new"@.len() == 7);
    assert("map.new"@[4] == 'n');
    reveal_strlit("map.length");
    assert("map.length"@.len() == 10);
    assert("map.length"@[4] == 'l');
    reveal_strlit("map.is_empty");
    assert("map.is_empty"@.len() == 12);
    assert("map.is_empty"@[4] == 'i');
    reveal_strlit("map.has");
    assert("map.has"@.len() == 7);
    assert("map.has"@[4] == 'h');
    reveal_strlit("map.contains_key");
    assert("map.contains_key"@.len() == 16);
    reveal_strlit("map.get");
    assert("map.get"@.len() == 7);
    assert("map.get"@[4] == 'g');
    reveal_strlit("map.insert");
    assert("map.insert"@.len() == 10);
    assert("map.insert"@[4] == 'i');
    reveal_strlit("map.set");
    assert("map.set"@.len() == 7);
    assert("map.set"@[4] == 's');
    reveal_strlit("map.remove");
    assert("map.remove"@.len() == 10);
    assert("map.remove"@[4] == 'r');
    reveal_strlit("map.keys");
    assert("map.keys"@.len() == 8);
    reveal_strlit("map.values");
    assert("map.values"@.len() == 10);
    assert("map.values"@[4] == 'v');
    reveal_strlit("map.get_or");
    assert("map.get_or"@.len() == 10);
    assert("map.get_or"@[4] == 'g');
    reveal_strlit("map.merge");
    assert("map.merge"@.len() == 9);
    reveal_strlit("map.from_lists");
    assert("map.from_lists"@.len() == 14);
    assert("map.from_lists"@[4] == 'f');
    reveal_strlit("map.entries");
    assert("map.entries"@.len() == 11);
    reveal_strlit("map.filter");
    assert("map.filter"@.len() == 10);
    assert("map.filter"@[4] == 'f');
    reveal_strlit("map.map_values");
    assert("map.map_values"@.len() == 14);
    assert("map.map_values"@[4] == 'm');
    reveal_strlit("map.for_each");
    assert("map.for_each"@.len() == 12);
    assert("map.for_each"@[4] == 'f');
    assert("map.new"@[0] == 'm');
    assert("map.new"@[1] == 'a');
    assert("map.new"@[2] == 'p');
    assert("map.new"@[3] == '.');
    assert("map.new"@[4] == 'n');
    assert("map.length"@[0] == 'm');
    assert("map.length"@[1] == 'a');
    assert("map.length"@[2] == 'p');
    assert("map.length"@[3] == '.');
    assert("map.length"@[4] == 'l');
    assert("map.is_empty"@[0] == 'm');
    assert("map.is_empty"@[1] == 'a');
    assert("map.is_empty"@[2] == 'p');
    assert("map.is_empty"@[3] == '.');
    assert("map.is_empty"@[4] == 'i');
    assert("map.has"@[0] == 'm');
    assert("map.has"@[1] == 'a');
    assert("map.has"@[2] == 'p');
    assert("map.has"@[3] == '.');
    assert("map.has"@[4] == 'h');
    assert("map.contains_key"@[0] == 'm');
    assert("map.contains_key"@[1] == 'a');
    assert("map.contains_key"@[2] == 'p');
    assert("map.contains_key"@[3] == '.');
    assert("map.contains_key"@[4] == 'c');
    assert("map.get"@[0] == 'm');
    assert("map.get"@[1] == 'a');
    assert("map.get"@[2] == 'p');
    assert("map.get"@[3] == '.');
    assert("map.get"@[4] == 'g');
    assert("map.insert"@[0] == 'm');
    assert("map.insert"@[1] == 'a');
    assert("map.insert"@[2] == 'p');
    assert("map.insert"@[3] == '.');
    assert("map.insert"@[4] == 'i');
    assert("map.set"@[0] == 'm');
    assert("map.set"@[1] == 'a');
    assert("map.set"@[2] == 'p');
    assert("map.set"@[3] == '.');
    assert("map.set"@[4] == 's');
    assert("map.remove"@[0] == 'm');
    assert("map.remove"@[1] == 'a');
    assert("map.remove"@[2] == 'p');
    assert("map.remove"@[3] == '.');
    assert("map.remove"@[4] == 'r');
    assert("map.keys"@[0] == 'm');
    assert("map.keys"@[1] == 'a');
    assert("map.keys"@[2] == 'p');
    assert("map.keys"@[3] == '.');
    assert("map.keys"@[4] == 'k');
    assert("map.values"@[0] == 'm');
    assert("map.values"@[1] == 'a');
    assert("map.values"@[2] == 'p');
    assert("map.values"@[3] == '.');
    assert("map.values"@[4] == 'v');
    assert("map.get_or"@[0] == 'm');
    assert("map.get_or"@[1] == 'a');
    assert("map.get_or"@[2] == 'p');
    assert("map.get_or"@[3] == '.');
    assert("map.get_or"@[4] == 'g');
    assert("map.merge"@[0] == 'm');
    assert("map.merge"@[1] == 'a');
    assert("map.merge"@[2] == 'p');
    assert("map.merge"@[3] == '.');
    assert("map.merge"@[4] == 'm');
    assert("map.from_lists"@[0] == 'm');
    assert("map.from_lists"@[1] == 'a');
    assert("map.from_lists"@[2] == 'p');
    assert("map.from_lists"@[3] == '.');
    assert("map.from_lists"@[4] == 'f');
    assert("map.entries"@[0] == 'm');
    assert("map.entries"@[1] == 'a');
    assert("map.entries"@[2] == 'p');
    assert("map.entries"@[3] == '.');
    assert("map.entries"@[4] == 'e');
    assert("map.filter"@[0] == 'm');
    assert("map.filter"@[1] == 'a');
    assert("map.filter"@[2] == 'p');
    assert("map.filter"@[3] == '.');
    assert("map.filter"@[4] == 'f');
    assert("map.map_values"@[0] == 'm');
    assert("map.map_values"@[1] == 'a');
    assert("map.map_values"@[2] == 'p');
    assert("map.map_values"@[3] == '.');
    assert("map.map_values"@[4] == 'm');
    assert("map.for_each"@[0] == 'm');
    assert("map.for_each"@[1] == 'a');
    assert("map.for_each"@[2] == 'p');
    assert("map.for_each"@[3] == '.');
    assert("map.for_each"@[4] == 'f');
}

proof fn map_new_form(c: BuiltinCall, name: Seq<char>)
    requires
        in_order(c),
        name == "map.new"@,
    ensures
        takes_and_gives(c, name, seq![0nat, 2nat], seq![], map_of(given(c, 0), given(c, 1))),
{
    reveal(takes_and_gives);
    reveal(takes_and_gives_of);
    reveal(otherwise_takes);
    map_table(name);
    let b = of_types(Arity::NoneOrTwo, Params::P0, Shape::MapOf(Simple::A, Simple::B));
    builtin_does(c, name, b);
    counted(b.arity, c.type_args.len());
    let params: Seq<Form> = seq![];
    if counts_of(b.arity).contains(c.type_args.len()) {
        assert(params_forms(b.params, args_in(c, b.arity)) =~= params);
    }
}

proof fn map_length_form(c: BuiltinCall, name: Seq<char>)
    requires
        in_order(c),
        name == "map.length"@,
    ensures
        takes_and_gives(c, name, seq![0nat, 2nat], seq![map_of(given(c, 0), given(c, 1))], int64()),
{
    reveal(takes_and_gives);
    reveal(takes_and_gives_of);
    reveal(otherwise_takes);
    map_table(name);
    let b = of_types(Arity::NoneOrTwo, Params::P1(Shape::MapOf(Simple::A, Simple::B)), Shape::One(Simple::Int64));
    builtin_does(c, name, b);
    counted(b.arity, c.type_args.len());
    let params: Seq<Form> = seq![map_of(given(c, 0), given(c, 1))];
    if counts_of(b.arity).contains(c.type_args.len()) {
        assert(params_forms(b.params, args_in(c, b.arity)) =~= params);
    }
}

proof fn map_is_empty_form(c: BuiltinCall, name: Seq<char>)
    requires
        in_order(c),
        name == "map.is_empty"@,
    ensures
        takes_and_gives(
            c,
            name,
            seq![0nat, 2nat],
            seq![map_of(given(c, 0), given(c, 1))],
            boolean(),
        ),
{
    reveal(takes_and_gives);
    reveal(takes_and_gives_of);
    reveal(otherwise_takes);
    map_table(name);
    let b = of_types(Arity::NoneOrTwo, Params::P1(Shape::MapOf(Simple::A, Simple::B)), Shape::One(Simple::Bool));
    builtin_does(c, name, b);
    counted(b.arity, c.type_args.len());
    let params: Seq<Form> = seq![map_of(given(c, 0), given(c, 1))];
    if counts_of(b.arity).contains(c.type_args.len()) {
        assert(params_forms(b.params, args_in(c, b.arity)) =~= params);
    }
}

proof fn map_has_form(c: BuiltinCall, name: Seq<char>)
    requires
        in_order(c),
        name == "map.has"@ || name == "map.contains_key"@,
    ensures
        takes_and_gives(
            c,
            name,
            seq![0nat, 2nat],
            seq![map_of(given(c, 0), given(c, 1)), given(c, 0)],
            boolean(),
        ),
{
    reveal(takes_and_gives);
    reveal(takes_and_gives_of);
    reveal(otherwise_takes);
    map_table(name);
    let b = of_types(Arity::NoneOrTwo, Params::P2(Shape::MapOf(Simple::A, Simple::B), Shape::One(Simple::A)), Shape::One(Simple::Bool));
    builtin_does(c, name, b);
    counted(b.arity, c.type_args.len());
    let params: Seq<Form> = seq![map_of(given(c, 0), given(c, 1)), given(c, 0)];
    if counts_of(b.arity).contains(c.type_args.len()) {
        assert(params_forms(b.params, args_in(c, b.arity)) =~= params);
    }
}

proof fn map_get_form(c: BuiltinCall, name: Seq<char>)
    requires
        in_order(c),
        name == "map.get"@,
    ensures
        takes_and_gives(
            c,
            name,
            seq![0nat, 2nat],
            seq![map_of(given(c, 0), given(c, 1)), given(c, 0)],
            optional(given(c, 1)),
        ),
{
    reveal(takes_and_gives);
    reveal(takes_and_gives_of);
    reveal(otherwise_takes);
    map_table(name);
    let b = of_types(Arity::NoneOrTwo, Params::P2(Shape::MapOf(Simple::A, Simple::B), Shape::One(Simple::A)), Shape::Optional(Simple::B));
    builtin_does(c, name, b);
    counted(b.arity, c.type_args.len());
    let params: Seq<Form> = seq![map_of(given(c, 0), given(c, 1)), given(c, 0)];
    if counts_of(b.arity).contains(c.type_args.len()) {
        assert(params_forms(b.params, args_in(c, b.arity)) =~= params);
    }
}

proof fn map_insert_form(c: BuiltinCall, name: Seq<char>)
    requires
        in_order(c),
        name == "map.insert"@ || name == "map.set"@,
    ensures
        takes_and_gives(
            c,
            name,
            seq![0nat, 2nat],
            seq![map_of(given(c, 0), given(c, 1)), given(c, 0), given(c, 1)],
            map_of(given(c, 0), given(c, 1)),
        ),
{
    reveal(takes_and_gives);
    reveal(takes_and_gives_of);
    reveal(otherwise_takes);
    map_table(name);
    let b = of_types(Arity::NoneOrTwo, Params::P3(Shape::MapOf(Simple::A, Simple::B), Shape::One(Simple::A), Shape::One(Simple::B)), Shape::MapOf(Simple::A, Simple::B));
    builtin_does(c, name, b);
    counted(b.arity, c.type_args.len());
    let params: Seq<Form> = seq![map_of(given(c, 0), given(c, 1)), given(c, 0), given(c, 1)];
    if counts_of(b.arity).contains(c.type_args.len()) {
        assert(params_forms(b.params, args_in(c, b.arity)) =~= params);
    }
}

proof fn map_remove_form(c: BuiltinCall, name: Seq<char>)
    requires
        in_order(c),
        name == "map.remove"@,
    ensures
        takes_and_gives(
            c,
            name,
            seq![0nat, 2nat],
            seq![map_of(given(c, 0), given(c, 1)), given(c, 0)],
            map_of(given(c, 0), given(c, 1)),
        ),
{
    reveal(takes_and_gives);
    reveal(takes_and_gives_of);
    reveal(otherwise_takes);
    map_table(name);
    let b = of_types(Arity::NoneOrTwo, Params::P2(Shape::MapOf(Simple::A, Simple::B), Shape::One(Simple::A)), Shape::MapOf(Simple::A, Simple::B));
    builtin_does(c, name, b);
    counted(b.arity, c.type_args.len());
    let params: Seq<Form> = seq![map_of(given(c, 0), given(c, 1)), given(c, 0)];
    if counts_of(b.arity).contains(c.type_args.len()) {
        assert(params_forms(b.params, args_in(c, b.arity)) =~= params);
    }
}

proof fn map_keys_form(c: BuiltinCall, name: Seq<char>)
    requires
        in_order(c),
        name == "map.keys"@,
    ensures
        takes_and_gives(
            c,
            name,
            seq![0nat, 2nat],
            seq![map_of(given(c, 0), given(c, 1))],
            list(given(c, 0)),
        ),
{
    reveal(takes_and_gives);
    reveal(takes_and_gives_of);
    reveal(otherwise_takes);
    map_table(name);
    let b = of_types(Arity::NoneOrTwo, Params::P1(Shape::MapOf(Simple::A, Simple::B)), Shape::List(Simple::A));
    builtin_does(c, name, b);
    counted(b.arity, c.type_args.len());
    let params: Seq<Form> = seq![map_of(given(c, 0), given(c, 1))];
    if counts_of(b.arity).contains(c.type_args.len()) {
        assert(params_forms(b.params, args_in(c, b.arity)) =~= params);
    }
}

proof fn map_values_form(c: BuiltinCall, name: Seq<char>)
    requires
        in_order(c),
        name == "map.values"@,
    ensures
        takes_and_gives(
            c,
            name,
            seq![0nat, 2nat],
            seq![map_of(given(c, 0), given(c, 1))],
            list(given(c, 1)),
        ),
{
    reveal(takes_and_gives);
    reveal(takes_and_gives_of);
    reveal(otherwise_takes);
    map_table(name);
    let b = of_types(Arity::NoneOrTwo, Params::P1(Shape::MapOf(Simple::A, Simple::B)), Shape::List(Simple::B));
    builtin_does(c, name, b);
    counted(b.arity, c.type_args.len());
    let params: Seq<Form> = seq![map_of(given(c, 0), given(c, 1))];
    if counts_of(b.arity).contains(c.type_args.len()) {
        assert(params_forms(b.params, args_in(c, b.arity)) =~= params);
    }
}

proof fn map_get_or_form(c: BuiltinCall, name: Seq<char>)
    requires
        in_order(c),
        name == "map.get_or"@,
    ensures
        takes_and_gives(
            c,
            name,
            seq![0nat, 2nat],
            seq![map_of(given(c, 0), given(c, 1)), given(c, 0), given(c, 1)],
            given(c, 1),
        ),
{
    reveal(takes_and_gives);
    reveal(takes_and_gives_of);
    reveal(otherwise_takes);
    map_table(name);
    let b = of_types(Arity::NoneOrTwo, Params::P3(Shape::MapOf(Simple::A, Simple::B), Shape::One(Simple::A), Shape::One(Simple::B)), Shape::One(Simple::B));
    builtin_does(c, name, b);
    counted(b.arity, c.type_args.len());
    let params: Seq<Form> = seq![map_of(given(c, 0), given(c, 1)), given(c, 0), given(c, 1)];
    if counts_of(b.arity).contains(c.type_args.len()) {
        assert(params_forms(b.params, args_in(c, b.arity)) =~= params);
    }
}

proof fn map_merge_form(c: BuiltinCall, name: Seq<char>)
    requires
        in_order(c),
        name == "map.merge"@,
    ensures
        takes_and_gives(
            c,
            name,
            seq![0nat, 2nat],
            seq![map_of(given(c, 0), given(c, 1)), map_of(given(c, 0), given(c, 1))],
            map_of(given(c, 0), given(c, 1)),
        ),
{
    reveal(takes_and_gives);
    reveal(takes_and_gives_of);
    reveal(otherwise_takes);
    map_table(name);
    let b = of_types(Arity::NoneOrTwo, Params::P2(Shape::MapOf(Simple::A, Simple::B), Shape::MapOf(Simple::A, Simple::B)), Shape::MapOf(Simple::A, Simple::B));
    builtin_does(c, name, b);
    counted(b.arity, c.type_args.len());
    let params: Seq<Form> = seq![map_of(given(c, 0), given(c, 1)), map_of(given(c, 0), given(c, 1))];
    if counts_of(b.arity).contains(c.type_args.len()) {
        assert(params_forms(b.params, args_in(c, b.arity)) =~= params);
    }
}

proof fn map_from_lists_form(c: BuiltinCall, name: Seq<char>)
    requires
        in_order(c),
        name == "map.from_lists"@,
    ensures
        takes_and_gives(
            c,
            name,
            seq![0nat, 2nat],
            seq![list(given(c, 0)), list(given(c, 1))],
            map_of(given(c, 0), given(c, 1)),
        ),
{
    reveal(takes_and_gives);
    reveal(takes_and_gives_of);
    reveal(otherwise_takes);
    map_table(name);
    let b = of_types(Arity::NoneOrTwo, Params::P2(Shape::List(Simple::A), Shape::List(Simple::B)), Shape::MapOf(Simple::A, Simple::B));
    builtin_does(c, name, b);
    counted(b.arity, c.type_args.len());
    let params: Seq<Form> = seq![list(given(c, 0)), list(given(c, 1))];
    if counts_of(b.arity).contains(c.type_args.len()) {
        assert(params_forms(b.params, args_in(c, b.arity)) =~= params);
    }
}

proof fn map_entries_form(c: BuiltinCall, name: Seq<char>)
    requires
        in_order(c),
        name == "map.entries"@,
    ensures
        takes_and_gives(
            c,
            name,
            seq![0nat, 2nat],
            seq![map_of(given(c, 0), given(c, 1))],
            list(list(any())),
        ),
{
    reveal(takes_and_gives);
    reveal(takes_and_gives_of);
    reveal(otherwise_takes);
    map_table(name);
    let b = of_types(Arity::NoneOrTwo, Params::P1(Shape::MapOf(Simple::A, Simple::B)), Shape::ListOfLists(Simple::Any));
    builtin_does(c, name, b);
    counted(b.arity, c.type_args.len());
    let params: Seq<Form> = seq![map_of(given(c, 0), given(c, 1))];
    if counts_of(b.arity).contains(c.type_args.len()) {
        assert(params_forms(b.params, args_in(c, b.arity)) =~= params);
    }
}

proof fn map_filter_form(c: BuiltinCall, name: Seq<char>)
    requires
        in_order(c),
        name == "map.filter"@,
    ensures
        takes_and_gives(
            c,
            name,
            seq![0nat, 2nat],
            seq![map_of(given(c, 0), given(c, 1)), function2(given(c, 0), given(c, 1), boolean())],
            map_of(given(c, 0), given(c, 1)),
        ),
{
    reveal(takes_and_gives);
    reveal(takes_and_gives_of);
    reveal(otherwise_takes);
    map_table(name);
    let b = of_types(Arity::NoneOrTwo, Params::P2(Shape::MapOf(Simple::A, Simple::B), Shape::Fn2(Simple::A, Simple::B, Simple::Bool)), Shape::MapOf(Simple::A, Simple::B));
    builtin_does(c, name, b);
    counted(b.arity, c.type_args.len());
    let params: Seq<Form> = seq![map_of(given(c, 0), given(c, 1)), function2(given(c, 0), given(c, 1), boolean())];
    if counts_of(b.arity).contains(c.type_args.len()) {
        assert(params_forms(b.params, args_in(c, b.arity)) =~= params);
    }
}

proof fn map_map_values_form(c: BuiltinCall, name: Seq<char>)
    requires
        in_order(c),
        name == "map.map_values"@,
    ensures
        takes_and_gives(
            c,
            name,
            seq![0nat, 2nat, 3nat],
            seq![map_of(given(c, 0), given(c, 1)), function(given(c, 1), given_or(c, 2, given(c, 1)))],
            map_of(given(c, 0), given_or(c, 2, given(c, 1))),
        ),
{
    reveal(takes_and_gives);
    reveal(takes_and_gives_of);
    reveal(otherwise_takes);
    map_table(name);
    let b = of_types(Arity::NoneTwoOrThree, Params::P2(Shape::MapOf(Simple::A, Simple::B), Shape::Fn1(Simple::B, Simple::C)), Shape::MapOf(Simple::A, Simple::C));
    builtin_does(c, name, b);
    counted(b.arity, c.type_args.len());
    let params: Seq<Form> = seq![map_of(given(c, 0), given(c, 1)), function(given(c, 1), given_or(c, 2, given(c, 1)))];
    if counts_of(b.arity).contains(c.type_args.len()) {
        assert(params_forms(b.params, args_in(c, b.arity)) =~= params);
    }
}

proof fn map_for_each_form(c: BuiltinCall, name: Seq<char>)
    requires
        in_order(c),
        name == "map.for_each"@,
    ensures
        takes_and_gives(
            c,
            name,
            seq![0nat, 2nat],
            seq![map_of(given(c, 0), given(c, 1)), function2(given(c, 0), given(c, 1), any())],
            nothing(),
        ),
{
    reveal(takes_and_gives);
    reveal(takes_and_gives_of);
    reveal(otherwise_takes);
    map_table(name);
    let b = of_types(Arity::NoneOrTwo, Params::P2(Shape::MapOf(Simple::A, Simple::B), Shape::Fn2(Simple::A, Simple::B, Simple::Any)), Shape::One(Simple::Nothing));
    builtin_does(c, name, b);
    counted(b.arity, c.type_args.len());
    let params: Seq<Form> = seq![map_of(given(c, 0), given(c, 1)), function2(given(c, 0), given(c, 1), any())];
    if counts_of(b.arity).contains(c.type_args.len()) {
        assert(params_forms(b.params, args_in(c, b.arity)) =~= params);
    }
}

/// What the builtin functions on maps take and give.
pub proof fn law_map_builtins(c: BuiltinCall, name: Seq<char>)
    requires
        in_order(c),
    ensures
        name == "map.new"@ ==> takes_and_gives(c, name, seq![0nat, 2nat], seq![], map_of(given(c, 0), given(c, 1))),
        name == "map.length"@ ==> takes_and_gives(c, name, seq![0nat, 2nat], seq![map_of(given(c, 0), given(c, 1))], int64()),
        name == "map.is_empty"@ ==> takes_and_gives(
            c,
            name,
            seq![0nat, 2nat],
            seq![map_of(given(c, 0), given(c, 1))],
            boolean(),
        ),
        name == "map.has"@ || name == "map.contains_key"@ ==> takes_and_gives(
            c,
            name,
            seq![0nat, 2nat],
            seq![map_of(given(c, 0), given(c, 1)), given(c, 0)],
            boolean(),
        ),
        name == "map.get"@ ==> takes_and_gives(
            c,
            name,
            seq![0nat, 2nat],
            seq![map_of(given(c, 0), given(c, 1)), given(c, 0)],
            optional(given(c, 1)),
        ),
        name == "map.insert"@ || name == "map.set"@ ==> takes_and_gives(
            c,
            name,
            seq![0nat, 2nat],
            seq![map_of(given(c, 0), given(c, 1)), given(c, 0), given(c, 1)],
            map_of(given(c, 0), given(c, 1)),
        ),
        name == "map.remove"@ ==> takes_and_gives(
            c,
            name,
            seq![0nat, 2nat],
            seq![map_of(given(c, 0), given(c, 1)), given(c, 0)],
            map_of(given(c, 0), given(c, 1)),
        ),
        name == "map.keys"@ ==> takes_and_gives(
            c,
            name,
            seq![0nat, 2nat],
            seq![map_of(given(c, 0), given(c, 1))],
            list(given(c, 0)),
        ),
        name == "map.values"@ ==> takes_and_gives(
            c,
            name,
            seq![0nat, 2nat],
            seq![map_of(given(c, 0), given(c, 1))],
            list(given(c, 1)),
        ),
        name == "map.get_or"@ ==> takes_and_gives(
            c,
            name,
            seq![0nat, 2nat],
            seq![map_of(given(c, 0), given(c, 1)), given(c, 0), given(c, 1)],
            given(c, 1),
        ),
        name == "map.merge"@ ==> takes_and_gives(
            c,
            name,
            seq![0nat, 2nat],
            seq![map_of(given(c, 0), given(c, 1)), map_of(given(c, 0), given(c, 1))],
            map_of(given(c, 0), given(c, 1)),
        ),
        name == "map.from_lists"@ ==> takes_and_gives(
            c,
            name,
            seq![0nat, 2nat],
            seq![list(given(c, 0)), list(given(c, 1))],
            map_of(given(c, 0), given(c, 1)),
        ),
        name == "map.entries"@ ==> takes_and_gives(
            c,
            name,
            seq![0nat, 2nat],
            seq![map_of(given(c, 0), given(c, 1))],
            list(list(any())),
        ),
        name == "map.filter"@ ==> takes_and_gives(
            c,
            name,
            seq![0nat, 2nat],
            seq![map_of(given(c, 0), given(c, 1)), function2(given(c, 0), given(c, 1), boolean())],
            map_of(given(c, 0), given(c, 1)),
        ),
        name == "map.map_values"@ ==> takes_and_gives(
            c,
            name,
            seq![0nat, 2nat, 3nat],
            seq![map_of(given(c, 0), given(c, 1)), function(given(c, 1), given_or(c, 2, given(c, 1)))],
            map_of(given(c, 0), given_or(c, 2, given(c, 1))),
        ),
        name == "map.for_each"@ ==> takes_and_gives(
            c,
            name,
            seq![0nat, 2nat],
            seq![map_of(given(c, 0), given(c, 1)), function2(given(c, 0), given(c, 1), any())],
            nothing(),
        ),
{
    if name == "map.new"@ {
        map_new_form(c, name);
    }
    if name == "map.length"@ {
        map_length_form(c, name);
    }
    if name == "map.is_empty"@ {
        map_is_empty_form(c, name);
    }
    if name == "map.has"@ || name == "map.contains_key"@ {
        map_has_form(c, name);
    }
    if name == "map.get"@ {
        map_get_form(c, name);
    }
    if name == "map.insert"@ || name == "map.set"@ {
        map_insert_form(c, name);
    }
    if name == "map.remove"@ {
        map_remove_form(c, name);
    }
    if name == "map.keys"@ {
        map_keys_form(c, name);
    }
    if name == "map.values"@ {
        map_values_form(c, name);
    }
    if name == "map.get_or"@ {
        map_get_or_form(c, name);
    }
    if name == "map.merge"@ {
        map_merge_form(c, name);
    }
    if name == "map.from_lists"@ {
        map_from_lists_form(c, name);
    }
    if name == "map.entries"@ {
        map_entries_form(c, name);
    }
    if name == "map.filter"@ {
        map_filter_form(c, name);
    }
    if name == "map.map_values"@ {
        map_map_values_form(c, name);
    }
    if name == "map.for_each"@ {
        map_for_each_form(c, name);
    }
}

proof fn set_table(name: Seq<char>)
    ensures
        name == "set.new"@ ==> builtin_named(name) == Some(of_types(Arity::UpToOne, Params::P0, Shape::SetOf(Simple::A))),
        name == "set.add"@ || name == "set.remove"@ ==> builtin_named(name) == Some(of_types(Arity::UpToOne, Params::P2(Shape::SetOf(Simple::A), Shape::One(Simple::A)), Shape::SetOf(Simple::A))),
        name == "set.contains"@ ==> builtin_named(name) == Some(of_types(Arity::UpToOne, Params::P2(Shape::SetOf(Simple::A), Shape::One(Simple::A)), Shape::One(Simple::Bool))),
        name == "set.length"@ ==> builtin_named(name) == Some(of_types(Arity::UpToOne, Params::P1(Shape::SetOf(Simple::A)), Shape::One(Simple::Int64))),
        name == "set.is_empty"@ ==> builtin_named(name) == Some(of_types(Arity::UpToOne, Params::P1(Shape::SetOf(Simple::A)), Shape::One(Simple::Bool))),
        name == "set.to_list"@ ==> builtin_named(name) == Some(of_types(Arity::UpToOne, Params::P1(Shape::SetOf(Simple::A)), Shape::List(Simple::A))),
        name == "set.union"@ || name == "set.intersection"@ || name == "set.difference"@ ==> builtin_named(name) == Some(of_types(Arity::UpToOne, Params::P2(Shape::SetOf(Simple::A), Shape::SetOf(Simple::A)), Shape::SetOf(Simple::A))),
{
    reveal(builtin_named);
    reveal(set_builtin_named);
    string_table_prefix(name);
    list_table_prefix(name);
    map_table_prefix(name);
    reveal_strlit("set.new");
    assert("set.new"@.len() == 7);
    assert("set.new"@[4] == 'n');
    reveal_strlit("set.add");
    assert("set.add"@.len() == 7);
    assert("set.add"@[4] == 'a');
    reveal_strlit("set.remove");
    assert("set.remove"@.len() == 10);
    assert("set.remove"@[4] == 'r');
    reveal_strlit("set.contains");
    assert("set.contains"@.len() == 12);
    assert("set.contains"@[4] == 'c');
    reveal_strlit("set.length");
    assert("set.length"@.len() == 10);
    assert("set.length"@[4] == 'l');
    reveal_strlit("set.is_empty");
    assert("set.is_empty"@.len() == 12);
    assert("set.is_empty"@[4] == 'i');
    reveal_strlit("set.to_list");
    assert("set.to_list"@.len() == 11);
    reveal_strlit("set.union");
    assert("set.union"@.len() == 9);
    reveal_strlit("set.intersection");
    assert("set.intersection"@.len() == 16);
    reveal_strlit("set.difference");
    assert("set.difference"@.len() == 14);
    assert("set.new"@[0] == 's');
    assert("set.new"@[1] == 'e');
    assert("set.new"@[2] == 't');
    assert("set.new"@[3] == '.');
    assert("set.new"@[4] == 'n');
    assert("set.add"@[0] == 's');
    assert("set.add"@[1] == 'e');
    assert("set.add"@[2] == 't');
    assert("set.add"@[3] == '.');
    assert("set.add"@[4] == 'a');
    assert("set.remove"@[0] == 's');
    assert("set.remove"@[1] == 'e');
    assert("set.remove"@[2] == 't');
    assert("set.remove"@[3] == '.');
    assert("set.remove"@[4] == 'r');
    assert("set.contains"@[0] == 's');
    assert("set.contains"@[1] == 'e');
    assert("set.contains"@[2] == 't');
    assert("set.contains"@[3] == '.');
    assert("set.contains"@[4] == 'c');
    assert("set.length"@[0] == 's');
    assert("set.length"@[1] == 'e');
    assert("set.length"@[2] == 't');
    assert("set.length"@[3] == '.');
    assert("set.length"@[4] == 'l');
    assert("set.is_empty"@[0] == 's');
    assert("set.is_empty"@[1] == 'e');
    assert("set.is_empty"@[2] == 't');
    assert("set.is_empty"@[3] == '.');
    assert("set.is_empty"@[4] == 'i');
    assert("set.to_list"@[0] == 's');
    assert("set.to_list"@[1] == 'e');
    assert("set.to_list"@[2] == 't');
    assert("set.to_list"@[3] == '.');
    assert("set.to_list"@[4] == 't');
    assert("set.union"@[0] == 's');
    assert("set.union"@[1] == 'e');
    assert("set.union"@[2] == 't');
    assert("set.union"@[3] == '.');
    assert("set.union"@[4] == 'u');
    assert("set.intersection"@[0] == 's');
    assert("set.intersection"@[1] == 'e');
    assert("set.intersection"@[2] == 't');
    assert("set.intersection"@[3] == '.');
    assert("set.intersection"@[4] == 'i');
    assert("set.difference"@[0] == 's');
    assert("set.difference"@[1] == 'e');
    assert("set.difference"@[2] == 't');
    assert("set.difference"@[3] == '.');
    assert("set.difference"@[4] == 'd');
}

proof fn set_new_form(c: BuiltinCall, name: Seq<char>)
    requires
        in_order(c),
        name == "set.new"@,
    ensures
        takes_and_gives(c, name, seq![0nat, 1nat], seq![], set_of(given(c, 0))),
{
    reveal(takes_and_gives);
    reveal(takes_and_gives_of);
    reveal(otherwise_takes);
    set_table(name);
    let b = of_types(Arity::UpToOne, Params::P0, Shape::SetOf(Simple::A));
    builtin_does(c, name, b);
    counted(b.arity, c.type_args.len());
    let params: Seq<Form> = seq![];
    if counts_of(b.arity).contains(c.type_args.len()) {
        assert(params_forms(b.params, args_in(c, b.arity)) =~= params);
    }
}

proof fn set_add_form(c: BuiltinCall, name: Seq<char>)
    requires
        in_order(c),
        name == "set.add"@ || name == "set.remove"@,
    ensures
        takes_and_gives(
            c,
            name,
            seq![0nat, 1nat],
            seq![set_of(given(c, 0)), given(c, 0)],
            set_of(given(c, 0)),
        ),
{
    reveal(takes_and_gives);
    reveal(takes_and_gives_of);
    reveal(otherwise_takes);
    set_table(name);
    let b = of_types(Arity::UpToOne, Params::P2(Shape::SetOf(Simple::A), Shape::One(Simple::A)), Shape::SetOf(Simple::A));
    builtin_does(c, name, b);
    counted(b.arity, c.type_args.len());
    let params: Seq<Form> = seq![set_of(given(c, 0)), given(c, 0)];
    if counts_of(b.arity).contains(c.type_args.len()) {
        assert(params_forms(b.params, args_in(c, b.arity)) =~= params);
    }
}

proof fn set_contains_form(c: BuiltinCall, name: Seq<char>)
    requires
        in_order(c),
        name == "set.contains"@,
    ensures
        takes_and_gives(
            c,
            name,
            seq![0nat, 1nat],
            seq![set_of(given(c, 0)), given(c, 0)],
            boolean(),
        ),
{
    reveal(takes_and_gives);
    reveal(takes_and_gives_of);
    reveal(otherwise_takes);
    set_table(name);
    let b = of_types(Arity::UpToOne, Params::P2(Shape::SetOf(Simple::A), Shape::One(Simple::A)), Shape::One(Simple::Bool));
    builtin_does(c, name, b);
    counted(b.arity, c.type_args.len());
    let params: Seq<Form> = seq![set_of(given(c, 0)), given(c, 0)];
    if counts_of(b.arity).contains(c.type_args.len()) {
        assert(params_forms(b.params, args_in(c, b.arity)) =~= params);
    }
}

proof fn set_length_form(c: BuiltinCall, name: Seq<char>)
    requires
        in_order(c),
        name == "set.length"@,
    ensures
        takes_and_gives(c, name, seq![0nat, 1nat], seq![set_of(given(c, 0))], int64()),
{
    reveal(takes_and_gives);
    reveal(takes_and_gives_of);
    reveal(otherwise_takes);
    set_table(name);
    let b = of_types(Arity::UpToOne, Params::P1(Shape::SetOf(Simple::A)), Shape::One(Simple::Int64));
    builtin_does(c, name, b);
    counted(b.arity, c.type_args.len());
    let params: Seq<Form> = seq![set_of(given(c, 0))];
    if counts_of(b.arity).contains(c.type_args.len()) {
        assert(params_forms(b.params, args_in(c, b.arity)) =~= params);
    }
}

proof fn set_is_empty_form(c: BuiltinCall, name: Seq<char>)
    requires
        in_order(c),
        name == "set.is_empty"@,
    ensures
        takes_and_gives(c, name, seq![0nat, 1nat], seq![set_of(given(c, 0))], boolean()),
{
    reveal(takes_and_gives);
    reveal(takes_and_gives_of);
    reveal(otherwise_takes);
    set_table(name);
    let b = of_types(Arity::UpToOne, Params::P1(Shape::SetOf(Simple::A)), Shape::One(Simple::Bool));
    builtin_does(c, name, b);
    counted(b.arity, c.type_args.len());
    let params: Seq<Form> = seq![set_of(given(c, 0))];
    if counts_of(b.arity).contains(c.type_args.len()) {
        assert(params_forms(b.params, args_in(c, b.arity)) =~= params);
    }
}

proof fn set_to_list_form(c: BuiltinCall, name: Seq<char>)
    requires
        in_order(c),
        name == "set.to_list"@,
    ensures
        takes_and_gives(c, name, seq![0nat, 1nat], seq![set_of(given(c, 0))], list(given(c, 0))),
{
    reveal(takes_and_gives);
    reveal(takes_and_gives_of);
    reveal(otherwise_takes);
    set_table(name);
    let b = of_types(Arity::UpToOne, Params::P1(Shape::SetOf(Simple::A)), Shape::List(Simple::A));
    builtin_does(c, name, b);
    counted(b.arity, c.type_args.len());
    let params: Seq<Form> = seq![set_of(given(c, 0))];
    if counts_of(b.arity).contains(c.type_args.len()) {
        assert(params_forms(b.params, args_in(c, b.arity)) =~= params);
    }
}

proof fn set_union_form(c: BuiltinCall, name: Seq<char>)
    requires
        in_order(c),
        name == "set.union"@ || name == "set.intersection"@ || name == "set.difference"@,
    ensures
        takes_and_gives(
            c,
            name,
            seq![0nat, 1nat],
            seq![set_of(given(c, 0)), set_of(given(c, 0))],
            set_of(given(c, 0)),
        ),
{
    reveal(takes_and_gives);
    reveal(takes_and_gives_of);
    reveal(otherwise_takes);
    set_table(name);
    let b = of_types(Arity::UpToOne, Params::P2(Shape::SetOf(Simple::A), Shape::SetOf(Simple::A)), Shape::SetOf(Simple::A));
    builtin_does(c, name, b);
    counted(b.arity, c.type_args.len());
    let params: Seq<Form> = seq![set_of(given(c, 0)), set_of(given(c, 0))];
    if counts_of(b.arity).contains(c.type_args.len()) {
        assert(params_forms(b.params, args_in(c, b.arity)) =~= params);
    }
}

/// What the builtin functions on sets take and give.
pub proof fn law_set_builtins(c: BuiltinCall, name: Seq<char>)
    requires
        in_order(c),
    ensures
        name == "set.new"@ ==> takes_and_gives(c, name, seq![0nat, 1nat], seq![], set_of(given(c, 0))),
        name == "set.add"@ || name == "set.remove"@ ==> takes_and_gives(
            c,
            name,
            seq![0nat, 1nat],
            seq![set_of(given(c, 0)), given(c, 0)],
            set_of(given(c, 0)),
        ),
        name == "set.contains"@ ==> takes_and_gives(
            c,
            name,
            seq![0nat, 1nat],
            seq![set_of(given(c, 0)), given(c, 0)],
            boolean(),
        ),
        name == "set.length"@ ==> takes_and_gives(c, name, seq![0nat, 1nat], seq![set_of(given(c, 0))], int64()),
        name == "set.is_empty"@ ==> takes_and_gives(c, name, seq![0nat, 1nat], seq![set_of(given(c, 0))], boolean()),
        name == "set.to_list"@ ==> takes_and_gives(c, name, seq![0nat, 1nat], seq![set_of(given(c, 0))], list(given(c, 0))),
        name == "set.union"@ || name == "set.intersection"@ || name == "set.difference"@ ==> takes_and_gives(
            c,
            name,
            seq![0nat, 1nat],
            seq![set_of(given(c, 0)), set_of(given(c, 0))],
            set_of(given(c, 0)),
        ),
{
    if name == "set.new"@ {
        set_new_form(c, name);
    }
    if name == "set.add"@ || name == "set.remove"@ {
        set_add_form(c, name);
    }
    if name == "set.contains"@ {
        set_contains_form(c, name);
    }
    if name == "set.length"@ {
        set_length_form(c, name);
    }
    if name == "set.is_empty"@ {
        set_is_empty_form(c, name);
    }
    if name == "set.to_list"@ {
        set_to_list_form(c, name);
    }
    if name == "set.union"@ || name == "set.intersection"@ || name == "set.difference"@ {
        set_union_form(c, name);
    }
}

proof fn math_table(name: Seq<char>)
    ensures
        name == "math.sqrt"@ || name == "math.log"@ || name == "math.log2"@
            || name == "math.log10"@ || name == "math.floor"@ || name == "math.ceil"@
            || name == "math.round"@ || name == "math.sin"@ || name == "math.cos"@
            || name == "math.tan"@ || name == "math.to_radians"@ || name == "math.to_degrees"@ ==> builtin_named(name) == Some(plain(Params::P1(Shape::One(Simple::Float64)), Shape::One(Simple::Float64))),
        name == "math.pow"@ ==> builtin_named(name) == Some(plain(Params::P2(Shape::One(Simple::Float64), Shape::One(Simple::Float64)), Shape::One(Simple::Float64))),
        name == "math.clamp"@ ==> builtin_named(name) == Some(plain(Params::P3(Shape::One(Simple::Float64), Shape::One(Simple::Float64), Shape::One(Simple::Float64)), Shape::One(Simple::Float64))),
        name == "math.average"@ || name == "math.median"@ ==> builtin_named(name) == Some(of_types(Arity::UpToOneOrFloat, Params::P1(Shape::List(Simple::A)), Shape::One(Simple::Float64))),
        name == "math.pi"@ || name == "math.e"@ ==> builtin_named(name) == Some(plain(Params::P0, Shape::One(Simple::Float64))),
        name == "math.mod"@ || name == "math.gcd"@ || name == "math.lcm"@ ==> builtin_named(name) == Some(plain(Params::P2(Shape::One(Simple::Int64), Shape::One(Simple::Int64)), Shape::One(Simple::Int64))),
        name == "math.is_even"@ || name == "math.is_odd"@ ==> builtin_named(name) == Some(plain(Params::P1(Shape::One(Simple::Int64)), Shape::One(Simple::Bool))),
        name == "math.factorial"@ || name == "math.sign"@ ==> builtin_named(name) == Some(plain(Params::P1(Shape::One(Simple::Int64)), Shape::One(Simple::Int64))),
        name == "math.sum"@ ==> builtin_named(name) == Some(plain(Params::P1(Shape::List(Simple::Int64)), Shape::One(Simple::Int64))),
{
    reveal(builtin_named);
    reveal(math_builtin_named);
    string_table_prefix(name);
    list_table_prefix(name);
    map_table_prefix(name);
    set_table_prefix(name);
    reveal_strlit("math.sqrt");
    assert("math.sqrt"@.len() == 9);
    assert("math.sqrt"@[5] == 's');
    assert("math.sqrt"@[6] == 'q');
    reveal_strlit("math.log");
    assert("math.log"@.len() == 8);
    assert("math.log"@[5] == 'l');
    assert("math.log"@[6] == 'o');
    reveal_strlit("math.log2");
    assert("math.log2"@.len() == 9);
    assert("math.log2"@[5] == 'l');
    reveal_strlit("math.log10");
    assert("math.log10"@.len() == 10);
    assert("math.log10"@[5] == 'l');
    reveal_strlit("math.floor");
    assert("math.floor"@.len() == 10);
    assert("math.floor"@[5] == 'f');
    reveal_strlit("math.ceil");
    assert("math.ceil"@.len() == 9);
    assert("math.ceil"@[5] == 'c');
    reveal_strlit("math.round");
    assert("math.round"@.len() == 10);
    assert("math.round"@[5] == 'r');
    reveal_strlit("math.sin");
    assert("math.sin"@.len() == 8);
    assert("math.sin"@[5] == 's');
    assert("math.sin"@[6] == 'i');
    reveal_strlit("math.cos");
    assert("math.cos"@.len() == 8);
    assert("math.cos"@[5] == 'c');
    reveal_strlit("math.tan");
    assert("math.tan"@.len() == 8);
    assert("math.tan"@[5] == 't');
    reveal_strlit("math.to_radians");
    assert("math.to_radians"@.len() == 15);
    assert("math.to_radians"@[8] == 'r');
    reveal_strlit("math.to_degrees");
    assert("math.to_degrees"@.len() == 15);
    assert("math.to_degrees"@[8] == 'd');
    reveal_strlit("math.pow");
    assert("math.pow"@.len() == 8);
    assert("math.pow"@[5] == 'p');
    reveal_strlit("math.clamp");
    assert("math.clamp"@.len() == 10);
    assert("math.clamp"@[5] == 'c');
    reveal_strlit("math.average");
    assert("math.average"@.len() == 12);
    assert("math.average"@[5] == 'a');
    reveal_strlit("math.median");
    assert("math.median"@.len() == 11);
    assert("math.median"@[5] == 'm');
    reveal_strlit("math.pi");
    assert("math.pi"@.len() == 7);
    reveal_strlit("math.e");
    assert("math.e"@.len() == 6);
    reveal_strlit("math.mod");
    assert("math.mod"@.len() == 8);
    assert("math.mod"@[5] == 'm');
    reveal_strlit("math.gcd");
    assert("math.gcd"@.len() == 8);
    assert("math.gcd"@[5] == 'g');
    reveal_strlit("math.lcm");
    assert("math.lcm"@.len() == 8);
    assert("math.lcm"@[5] == 'l');
    assert("math.lcm"@[6] == 'c');
    reveal_strlit("math.is_even");
    assert("math.is_even"@.len() == 12);
    assert("math.is_even"@[5] == 'i');
    reveal_strlit("math.is_odd");
    assert("math.is_odd"@.len() == 11);
    assert("math.is_odd"@[5] == 'i');
    reveal_strlit("math.factorial");
    assert("math.factorial"@.len() == 14);
    reveal_strlit("math.sign");
    assert("math.sign"@.len() == 9);
    assert("math.sign"@[5] == 's');
    assert("math.sign"@[6] == 'i');
    reveal_strlit("math.sum");
    assert("math.sum"@.len() == 8);
    assert("math.sum"@[5] == 's');
    assert("math.sum"@[6] == 'u');
    assert("math.sqrt"@[0] == 'm');
    assert("math.sqrt"@[1] == 'a');
    assert("math.sqrt"@[2] == 't');
    assert("math.sqrt"@[3] == 'h');
    assert("math.sqrt"@[4] == '.');
    assert("math.log"@[0] == 'm');
    assert("math.log"@[1] == 'a');
    assert("math.log"@[2] == 't');
    assert("math.log"@[3] == 'h');
    assert("math.log"@[4] == '.');
    assert("math.log2"@[0] == 'm');
    assert("math.log2"@[1] == 'a');
    assert("math.log2"@[2] == 't');
    assert("math.log2"@[3] == 'h');
    assert("math.log2"@[4] == '.');
    assert("math.log10"@[0] == 'm');
    assert("math.log10"@[1] == 'a');
    assert("math.log10"@[2] == 't');
    assert("math.log10"@[3] == 'h');
    assert("math.log10"@[4] == '.');
    assert("math.floor"@[0] == 'm');
    assert("math.floor"@[1] == 'a');
    assert("math.floor"@[2] == 't');
    assert("math.floor"@[3] == 'h');
    assert("math.floor"@[4] == '.');
    assert("math.ceil"@[0] == 'm');
    assert("math.ceil"@[1] == 'a');
    assert("math.ceil"@[2] == 't');
    assert("math.ceil"@[3] == 'h');
    assert("math.ceil"@[4] == '.');
    assert("math.round"@[0] == 'm');
    assert("math.round"@[1] == 'a');
    assert("math.round"@[2] == 't');
    assert("math.round"@[3] == 'h');
    assert("math.round"@[4] == '.');
    assert("math.sin"@[0] == 'm');
    assert("math.sin"@[1] == 'a');
    assert("math.sin"@[2] == 't');
    assert("math.sin"@[3] == 'h');
    assert("math.sin"@[4] == '.');
    assert("math.cos"@[0] == 'm');
    assert("math.cos"@[1] == 'a');
    assert("math.cos"@[2] == 't');
    assert("math.cos"@[3] == 'h');
    assert("math.cos"@[4] == '.');
    assert("math.tan"@[0] == 'm');
    assert("math.tan"@[1] == 'a');
    assert("math.tan"@[2] == 't');
    assert("math.tan"@[3] == 'h');
    assert("math.tan"@[4] == '.');
    assert("math.to_radians"@[0] == 'm');
    assert("math.to_radians"@[1] == 'a');
    assert("math.to_radians"@[2] == 't');
    assert("math.to_radians"@[3] == 'h');
    assert("math.to_radians"@[4] == '.');
    assert("math.to_degrees"@[0] == 'm');
    assert("math.to_degrees"@[1] == 'a');
    assert("math.to_degrees"@[2] == 't');
    assert("math.to_degrees"@[3] == 'h');
    assert("math.to_degrees"@[4] == '.');
    assert("math.pow"@[0] == 'm');
    assert("math.pow"@[1] == 'a');
    assert("math.pow"@[2] == 't');
    assert("math.pow"@[3] == 'h');
    assert("math.pow"@[4] == '.');
    assert("math.clamp"@[0] == 'm');
    assert("math.clamp"@[1] == 'a');
    assert("math.clamp"@[2] == 't');
    assert("math.clamp"@[3] == 'h');
    assert("math.clamp"@[4] == '.');
    assert("math.average"@[0] == 'm');
    assert("math.average"@[1] == 'a');
    assert("math.average"@[2] == 't');
    assert("math.average"@[3] == 'h');
    assert("math.average"@[4] == '.');
    assert("math.median"@[0] == 'm');
    assert("math.median"@[1] == 'a');
    assert("math.median"@[2] == 't');
    assert("math.median"@[3] == 'h');
    assert("math.median"@[4] == '.');
    assert("math.pi"@[0] == 'm');
    assert("math.pi"@[1] == 'a');
    assert("math.pi"@[2] == 't');
    assert("math.pi"@[3] == 'h');
    assert("math.pi"@[4] == '.');
    assert("math.e"@[0] == 'm');
    assert("math.e"@[1] == 'a');
    assert("math.e"@[2] == 't');
    assert("math.e"@[3] == 'h');
    assert("math.e"@[4] == '.');
    assert("math.mod"@[0] == 'm');
    assert("math.mod"@[1] == 'a');
    assert("math.mod"@[2] == 't');
    assert("math.mod"@[3] == 'h');
    assert("math.mod"@[4] == '.');
    assert("math.gcd"@[0] == 'm');
    assert("math.gcd"@[1] == 'a');
    assert("math.gcd"@[2] == 't');
    assert("math.gcd"@[3] == 'h');
    assert("math.gcd"@[4] == '.');
    assert("math.lcm"@[0] == 'm');
    assert("math.lcm"@[1] == 'a');
    assert("math.lcm"@[2] == 't');
    assert("math.lcm"@[3] == 'h');
    assert("math.lcm"@[4] == '.');
    assert("math.is_even"@[0] == 'm');
    assert("math.is_even"@[1] == 'a');
    assert("math.is_even"@[2] == 't');
    assert("math.is_even"@[3] == 'h');
    assert("math.is_even"@[4] == '.');
    assert("math.is_odd"@[0] == 'm');
    assert("math.is_odd"@[1] == 'a');
    assert("math.is_odd"@[2] == 't');
    assert("math.is_odd"@[3] == 'h');
    assert("math.is_odd"@[4] == '.');
    assert("math.factorial"@[0] == 'm');
    assert("math.factorial"@[1] == 'a');
    assert("math.factorial"@[2] == 't');
    assert("math.factorial"@[3] == 'h');
    assert("math.factorial"@[4] == '.');
    assert("math.sign"@[0] == 'm');
    assert("math.sign"@[1] == 'a');
    assert("math.sign"@[2] == 't');
    assert("math.sign"@[3] == 'h');
    assert("math.sign"@[4] == '.');
    assert("math.sum"@[0] == 'm');
    assert("math.sum"@[1] == 'a');
    assert("math.sum"@[2] == 't');
    assert("math.sum"@[3] == 'h');
    assert("math.sum"@[4] == '.');
}

proof fn math_sqrt_form(c: BuiltinCall, name: Seq<char>)
    requires
        in_order(c),
        name == "math.sqrt"@ || name == "math.log"@ || name == "math.log2"@
            || name == "math.log10"@ || name == "math.floor"@ || name == "math.ceil"@
            || name == "math.round"@ || name == "math.sin"@ || name == "math.cos"@
            || name == "math.tan"@ || name == "math.to_radians"@ || name == "math.to_degrees"@,
    ensures
        takes_and_gives(c, name, seq![0nat], seq![float64()], float64()),
{
    reveal(takes_and_gives);
    reveal(takes_and_gives_of);
    reveal(otherwise_takes);
    math_table(name);
    let b = plain(Params::P1(Shape::One(Simple::Float64)), Shape::One(Simple::Float64));
    builtin_does(c, name, b);
    counted(b.arity, c.type_args.len());
    let params: Seq<Form> = seq![float64()];
    if counts_of(b.arity).contains(c.type_args.len()) {
        assert(params_forms(b.params, args_in(c, b.arity)) =~= params);
    }
}

proof fn math_pow_form(c: BuiltinCall, name: Seq<char>)
    requires
        in_order(c),
        name == "math.pow"@,
    ensures
        takes_and_gives(c, name, seq![0nat], seq![float64(), float64()], float64()),
{
    reveal(takes_and_gives);
    reveal(takes_and_gives_of);
    reveal(otherwise_takes);
    math_table(name);
    let b = plain(Params::P2(Shape::One(Simple::Float64), Shape::One(Simple::Float64)), Shape::One(Simple::Float64));
    builtin_does(c, name, b);
    counted(b.arity, c.type_args.len());
    let params: Seq<Form> = seq![float64(), float64()];
    if counts_of(b.arity).contains(c.type_args.len()) {
        assert(params_forms(b.params, args_in(c, b.arity)) =~= params);
    }
}

proof fn math_clamp_form(c: BuiltinCall, name: Seq<char>)
    requires
        in_order(c),
        name == "math.clamp"@,
    ensures
        takes_and_gives(c, name, seq![0nat], seq![float64(), float64(), float64()], float64()),
{
    reveal(takes_and_gives);
    reveal(takes_and_gives_of);
    reveal(otherwise_takes);
    math_table(name);
    let b = plain(Params::P3(Shape::One(Simple::Float64), Shape::One(Simple::Float64), Shape::One(Simple::Float64)), Shape::One(Simple::Float64));
    builtin_does(c, name, b);
    counted(b.arity, c.type_args.len());
    let params: Seq<Form> = seq![float64(), float64(), float64()];
    if counts_of(b.arity).contains(c.type_args.len()) {
        assert(params_forms(b.params, args_in(c, b.arity)) =~= params);
    }
}

proof fn math_average_form(c: BuiltinCall, name: Seq<char>)
    requires
        in_order(c),
        name == "math.average"@ || name == "math.median"@,
    ensures
        takes_and_gives(
            c,
            name,
            seq![0nat, 1nat],
            seq![list(given_or(c, 0, float64()))],
            float64(),
        ),
{
    reveal(takes_and_gives);
    reveal(takes_and_gives_of);
    reveal(otherwise_takes);
    math_table(name);
    let b = of_types(Arity::UpToOneOrFloat, Params::P1(Shape::List(Simple::A)), Shape::One(Simple::Float64));
    builtin_does(c, name, b);
    counted(b.arity, c.type_args.len());
    let params: Seq<Form> = seq![list(given_or(c, 0, float64()))];
    if counts_of(b.arity).contains(c.type_args.len()) {
        assert(params_forms(b.params, args_in(c, b.arity)) =~= params);
    }
}

proof fn math_pi_form(c: BuiltinCall, name: Seq<char>)
    requires
        in_order(c),
        name == "math.pi"@ || name == "math.e"@,
    ensures
        takes_and_gives(c, name, seq![0nat], seq![], float64()),
{
    reveal(takes_and_gives);
    reveal(takes_and_gives_of);
    reveal(otherwise_takes);
    math_table(name);
    let b = plain(Params::P0, Shape::One(Simple::Float64));
    builtin_does(c, name, b);
    counted(b.arity, c.type_args.len());
    let params: Seq<Form> = seq![];
    if counts_of(b.arity).contains(c.type_args.len()) {
        assert(params_forms(b.params, args_in(c, b.arity)) =~= params);
    }
}

proof fn math_mod_form(c: BuiltinCall, name: Seq<char>)
    requires
        in_order(c),
        name == "math.mod"@ || name == "math.gcd"@ || name == "math.lcm"@,
    ensures
        takes_and_gives(c, name, seq![0nat], seq![int64(), int64()], int64()),
{
    reveal(takes_and_gives);
    reveal(takes_and_gives_of);
    reveal(otherwise_takes);
    math_table(name);
    let b = plain(Params::P2(Shape::One(Simple::Int64), Shape::One(Simple::Int64)), Shape::One(Simple::Int64));
    builtin_does(c, name, b);
    counted(b.arity, c.type_args.len());
    let params: Seq<Form> = seq![int64(), int64()];
    if counts_of(b.arity).contains(c.type_args.len()) {
        assert(params_forms(b.params, args_in(c, b.arity)) =~= params);
    }
}

proof fn math_is_even_form(c: BuiltinCall, name: Seq<char>)
    requires
        in_order(c),
        name == "math.is_even"@ || name == "math.is_odd"@,
    ensures
        takes_and_gives(c, name, seq![0nat], seq![int64()], boolean()),
{
    reveal(takes_and_gives);
    reveal(takes_and_gives_of);
    reveal(otherwise_takes);
    math_table(name);
    let b = plain(Params::P1(Shape::One(Simple::Int64)), Shape::One(Simple::Bool));
    builtin_does(c, name, b);
    counted(b.arity, c.type_args.len());
    let params: Seq<Form> = seq![int64()];
    if counts_of(b.arity).contains(c.type_args.len()) {
        assert(params_forms(b.params, args_in(c, b.arity)) =~= params);
    }
}

proof fn math_factorial_form(c: BuiltinCall, name: Seq<char>)
    requires
        in_order(c),
        name == "math.factorial"@ || name == "math.sign"@,
    ensures
        takes_and_gives(c, name, seq![0nat], seq![int64()], int64()),
{
    reveal(takes_and_gives);
    reveal(takes_and_gives_of);
    reveal(otherwise_takes);
    math_table(name);
    let b = plain(Params::P1(Shape::One(Simple::Int64)), Shape::One(Simple::Int64));
    builtin_does(c, name, b);
    counted(b.arity, c.type_args.len());
    let params: Seq<Form> = seq![int64()];
    if counts_of(b.arity).contains(c.type_args.len()) {
        assert(params_forms(b.params, args_in(c, b.arity)) =~= params);
    }
}

proof fn math_sum_form(c: BuiltinCall, name: Seq<char>)
    requires
        in_order(c),
        name == "math.sum"@,
    ensures
        takes_and_gives(c, name, seq![0nat], seq![list(int64())], int64()),
{
    reveal(takes_and_gives);
    reveal(takes_and_gives_of);
    reveal(otherwise_takes);
    math_table(name);
    let b = plain(Params::P1(Shape::List(Simple::Int64)), Shape::One(Simple::Int64));
    builtin_does(c, name, b);
    counted(b.arity, c.type_args.len());
    let params: Seq<Form> = seq![list(int64())];
    if counts_of(b.arity).contains(c.type_args.len()) {
        assert(params_forms(b.params, args_in(c, b.arity)) =~= params);
    }
}

/// What the builtin functions on numbers take and give.
pub proof fn law_math_builtins(c: BuiltinCall, name: Seq<char>)
    requires
        in_order(c),
    ensures
        name == "math.sqrt"@ || name == "math.log"@ || name == "math.log2"@
            || name == "math.log10"@ || name == "math.floor"@ || name == "math.ceil"@
            || name == "math.round"@ || name == "math.sin"@ || name == "math.cos"@
            || name == "math.tan"@ || name == "math.to_radians"@ || name == "math.to_degrees"@ ==> takes_and_gives(c, name, seq![0nat], seq![float64()], float64()),
        name == "math.pow"@ ==> takes_and_gives(c, name, seq![0nat], seq![float64(), float64()], float64()),
        name == "math.clamp"@ ==> takes_and_gives(c, name, seq![0nat], seq![float64(), float64(), float64()], float64()),
        name == "math.average"@ || name == "math.median"@ ==> takes_and_gives(
            c,
            name,
            seq![0nat, 1nat],
            seq![list(given_or(c, 0, float64()))],
            float64(),
        ),
        name == "math.pi"@ || name == "math.e"@ ==> takes_and_gives(c, name, seq![0nat], seq![], float64()),
        name == "math.mod"@ || name == "math.gcd"@ || name == "math.lcm"@ ==> takes_and_gives(c, name, seq![0nat], seq![int64(), int64()], int64()),
        name == "math.is_even"@ || name == "math.is_odd"@ ==> takes_and_gives(c, name, seq![0nat], seq![int64()], boolean()),
        name == "math.factorial"@ || name == "math.sign"@ ==> takes_and_gives(c, name, seq![0nat], seq![int64()], int64()),
        name == "math.sum"@ ==> takes_and_gives(c, name, seq![0nat], seq![list(int64())], int64()),
{
    if name == "math.sqrt"@ || name == "math.log"@ || name == "math.log2"@ || name == "math.log10"@
        || name == "math.floor"@ || name == "math.ceil"@ || name == "math.round"@
        || name == "math.sin"@ || name == "math.cos"@ || name == "math.tan"@
        || name == "math.to_radians"@ || name == "math.to_degrees"@ {
        math_sqrt_form(c, name);
    }
    if name == "math.pow"@ {
        math_pow_form(c, name);
    }
    if name == "math.clamp"@ {
        math_clamp_form(c, name);
    }
    if name == "math.average"@ || name == "math.median"@ {
        math_average_form(c, name);
    }
    if name == "math.pi"@ || name == "math.e"@ {
        math_pi_form(c, name);
    }
    if name == "math.mod"@ || name == "math.gcd"@ || name == "math.lcm"@ {
        math_mod_form(c, name);
    }
    if name == "math.is_even"@ || name == "math.is_odd"@ {
        math_is_even_form(c, name);
    }
    if name == "math.factorial"@ || name == "math.sign"@ {
        math_factorial_form(c, name);
    }
    if name == "math.sum"@ {
        math_sum_form(c, name);
    }
}

proof fn bytes_table(name: Seq<char>)
    ensures
        name == "bytes.new"@ ==> builtin_named(name) == Some(plain(Params::P0, Shape::One(Simple::Bytes))),
        name == "bytes.length"@ ==> builtin_named(name) == Some(plain(Params::P1(Shape::One(Simple::Bytes)), Shape::One(Simple::Int64))),
        name == "bytes.slice"@ ==> builtin_named(name) == Some(plain(Params::P3(Shape::One(Simple::Bytes), Shape::One(Simple::Int64), Shape::One(Simple::Int64)), Shape::One(Simple::Bytes))),
        name == "bytes.concat"@ ==> builtin_named(name) == Some(plain(Params::P2(Shape::One(Simple::Bytes), Shape::One(Simple::Bytes)), Shape::One(Simple::Bytes))),
        name == "bytes.from_string"@ ==> builtin_named(name) == Some(plain(Params::P1(Shape::One(Simple::String)), Shape::One(Simple::Bytes))),
        name == "bytes.to_string"@ ==> builtin_named(name) == Some(plain(Params::P1(Shape::One(Simple::Bytes)), Shape::Result(Simple::String, Simple::String))),
        name == "bytes.get"@ ==> builtin_named(name) == Some(plain(Params::P2(Shape::One(Simple::Bytes), Shape::One(Simple::Int64)), Shape::Optional(Simple::Int64))),
        name == "bytes.to_hex"@ ==> builtin_named(name) == Some(plain(Params::P1(Shape::One(Simple::Bytes)), Shape::One(Simple::String))),
        name == "bytes.from_hex"@ ==> builtin_named(name) == Some(plain(Params::P1(Shape::One(Simple::String)), Shape::Result(Simple::Bytes, Simple::String))),
{
    reveal(builtin_named);
    reveal(bytes_builtin_named);
    string_table_prefix(name);
    list_table_prefix(name);
    map_table_prefix(name);
    set_table_prefix(name);
    math_table_prefix(name);
    reveal_strlit("bytes.new");
    assert("bytes.new"@.len() == 9);
    assert("bytes.new"@[6] == 'n');
    reveal_strlit("bytes.length");
    assert("bytes.length"@.len() == 12);
    assert("bytes.length"@[6] == 'l');
    reveal_strlit("bytes.slice");
    assert("bytes.slice"@.len() == 11);
    reveal_strlit("bytes.concat");
    assert("bytes.concat"@.len() == 12);
    assert("bytes.concat"@[6] == 'c');
    reveal_strlit("bytes.from_string");
    assert("bytes.from_string"@.len() == 17);
    reveal_strlit("bytes.to_string");
    assert("bytes.to_string"@.len() == 15);
    reveal_strlit("bytes.get");
    assert("bytes.get"@.len() == 9);
    assert("bytes.get"@[6] == 'g');
    reveal_strlit("bytes.to_hex");
    assert("bytes.to_hex"@.len() == 12);
    assert("bytes.to_hex"@[6] == 't');
    reveal_strlit("bytes.from_hex");
    assert("bytes.from_hex"@.len() == 14);
    assert("bytes.new"@[0] == 'b');
    assert("bytes.new"@[1] == 'y');
    assert("bytes.new"@[2] == 't');
    assert("bytes.new"@[3] == 'e');
    assert("bytes.new"@[4] == 's');
    assert("bytes.length"@[0] == 'b');
    assert("bytes.length"@[1] == 'y');
    assert("bytes.length"@[2] == 't');
    assert("bytes.length"@[3] == 'e');
    assert("bytes.length"@[4] == 's');
    assert("bytes.slice"@[0] == 'b');
    assert("bytes.slice"@[1] == 'y');
    assert("bytes.slice"@[2] == 't');
    assert("bytes.slice"@[3] == 'e');
    assert("bytes.slice"@[4] == 's');
    assert("bytes.concat"@[0] == 'b');
    assert("bytes.concat"@[1] == 'y');
    assert("bytes.concat"@[2] == 't');
    assert("bytes.concat"@[3] == 'e');
    assert("bytes.concat"@[4] == 's');
    assert("bytes.from_string"@[0] == 'b');
    assert("bytes.from_string"@[1] == 'y');
    assert("bytes.from_string"@[2] == 't');
    assert("bytes.from_string"@[3] == 'e');
    assert("bytes.from_string"@[4] == 's');
    assert("bytes.to_string"@[0] == 'b');
    assert("bytes.to_string"@[1] == 'y');
    assert("bytes.to_string"@[2] == 't');
    assert("bytes.to_string"@[3] == 'e');
    assert("bytes.to_string"@[4] == 's');
    assert("bytes.get"@[0] == 'b');
    assert("bytes.get"@[1] == 'y');
    assert("bytes.get"@[2] == 't');
    assert("bytes.get"@[3] == 'e');
    assert("bytes.get"@[4] == 's');
    assert("bytes.to_hex"@[0] == 'b');
    assert("bytes.to_hex"@[1] == 'y');
    assert("bytes.to_hex"@[2] == 't');
    assert("bytes.to_hex"@[3] == 'e');
    assert("bytes.to_hex"@[4] == 's');
    assert("bytes.from_hex"@[0] == 'b');
    assert("bytes.from_hex"@[1] == 'y');
    assert("bytes.from_hex"@[2] == 't');
    assert("bytes.from_hex"@[3] == 'e');
    assert("bytes.from_hex"@[4] == 's');
}

proof fn bytes_new_form(c: BuiltinCall, name: Seq<char>)
    requires
        in_order(c),
        name == "bytes.new"@,
    ensures
        takes_and_gives(c, name, seq![0nat], seq![], bytes()),
{
    reveal(takes_and_gives);
    reveal(takes_and_gives_of);
    reveal(otherwise_takes);
    bytes_table(name);
    let b = plain(Params::P0, Shape::One(Simple::Bytes));
    builtin_does(c, name, b);
    counted(b.arity, c.type_args.len());
    let params: Seq<Form> = seq![];
    if counts_of(b.arity).contains(c.type_args.len()) {
        assert(params_forms(b.params, args_in(c, b.arity)) =~= params);
    }
}

proof fn bytes_length_form(c: BuiltinCall, name: Seq<char>)
    requires
        in_order(c),
        name == "bytes.length"@,
    ensures
        takes_and_gives(c, name, seq![0nat], seq![bytes()], int64()),
{
    reveal(takes_and_gives);
    reveal(takes_and_gives_of);
    reveal(otherwise_takes);
    bytes_table(name);
    let b = plain(Params::P1(Shape::One(Simple::Bytes)), Shape::One(Simple::Int64));
    builtin_does(c, name, b);
    counted(b.arity, c.type_args.len());
    let params: Seq<Form> = seq![bytes()];
    if counts_of(b.arity).contains(c.type_args.len()) {
        assert(params_forms(b.params, args_in(c, b.arity)) =~= params);
    }
}

proof fn bytes_slice_form(c: BuiltinCall, name: Seq<char>)
    requires
        in_order(c),
        name == "bytes.slice"@,
    ensures
        takes_and_gives(c, name, seq![0nat], seq![bytes(), int64(), int64()], bytes()),
{
    reveal(takes_and_gives);
    reveal(takes_and_gives_of);
    reveal(otherwise_takes);
    bytes_table(name);
    let b = plain(Params::P3(Shape::One(Simple::Bytes), Shape::One(Simple::Int64), Shape::One(Simple::Int64)), Shape::One(Simple::Bytes));
    builtin_does(c, name, b);
    counted(b.arity, c.type_args.len());
    let params: Seq<Form> = seq![bytes(), int64(), int64()];
    if counts_of(b.arity).contains(c.type_args.len()) {
        assert(params_forms(b.params, args_in(c, b.arity)) =~= params);
    }
}

proof fn bytes_concat_form(c: BuiltinCall, name: Seq<char>)
    requires
        in_order(c),
        name == "bytes.concat"@,
    ensures
        takes_and_gives(c, name, seq![0nat], seq![bytes(), bytes()], bytes()),
{
    reveal(takes_and_gives);
    reveal(takes_and_gives_of);
    reveal(otherwise_takes);
    bytes_table(name);
    let b = plain(Params::P2(Shape::One(Simple::Bytes), Shape::One(Simple::Bytes)), Shape::One(Simple::Bytes));
    builtin_does(c, name, b);
    counted(b.arity, c.type_args.len());
    let params: Seq<Form> = seq![bytes(), bytes()];
    if counts_of(b.arity).contains(c.type_args.len()) {
        assert(params_forms(b.params, args_in(c, b.arity)) =~= params);
    }
}

proof fn bytes_from_string_form(c: BuiltinCall, name: Seq<char>)
    requires
        in_order(c),
        name == "bytes.from_string"@,
    ensures
        takes_and_gives(c, name, seq![0nat], seq![string()], bytes()),
{
    reveal(takes_and_gives);
    reveal(takes_and_gives_of);
    reveal(otherwise_takes);
    bytes_table(name);
    let b = plain(Params::P1(Shape::One(Simple::String)), Shape::One(Simple::Bytes));
    builtin_does(c, name, b);
    counted(b.arity, c.type_args.len());
    let params: Seq<Form> = seq![string()];
    if counts_of(b.arity).contains(c.type_args.len()) {
        assert(params_forms(b.params, args_in(c, b.arity)) =~= params);
    }
}

proof fn bytes_to_string_form(c: BuiltinCall, name: Seq<char>)
    requires
        in_order(c),
        name == "bytes.to_string"@,
    ensures
        takes_and_gives(c, name, seq![0nat], seq![bytes()], result(string(), string())),
{
    reveal(takes_and_gives);
    reveal(takes_and_gives_of);
    reveal(otherwise_takes);
    bytes_table(name);
    let b = plain(Params::P1(Shape::One(Simple::Bytes)), Shape::Result(Simple::String, Simple::String));
    builtin_does(c, name, b);
    counted(b.arity, c.type_args.len());
    let params: Seq<Form> = seq![bytes()];
    if counts_of(b.arity).contains(c.type_args.len()) {
        assert(params_forms(b.params, args_in(c, b.arity)) =~= params);
    }
}

proof fn bytes_get_form(c: BuiltinCall, name: Seq<char>)
    requires
        in_order(c),
        name == "bytes.get"@,
    ensures
        takes_and_gives(c, name, seq![0nat], seq![bytes(), int64()], optional(int64())),
{
    reveal(takes_and_gives);
    reveal(takes_and_gives_of);
    reveal(otherwise_takes);
    bytes_table(name);
    let b = plain(Params::P2(Shape::One(Simple::Bytes), Shape::One(Simple::Int64)), Shape::Optional(Simple::Int64));
    builtin_does(c, name, b);
    counted(b.arity, c.type_args.len());
    let params: Seq<Form> = seq![bytes(), int64()];
    if counts_of(b.arity).contains(c.type_args.len()) {
        assert(params_forms(b.params, args_in(c, b.arity)) =~= params);
    }
}

proof fn bytes_to_hex_form(c: BuiltinCall, name: Seq<char>)
    requires
        in_order(c),
        name == "bytes.to_hex"@,
    ensures
        takes_and_gives(c, name, seq![0nat], seq![bytes()], string()),
{
    reveal(takes_and_gives);
    reveal(takes_and_gives_of);
    reveal(otherwise_takes);
    bytes_table(name);
    let b = plain(Params::P1(Shape::One(Simple::Bytes)), Shape::One(Simple::String));
    builtin_does(c, name, b);
    counted(b.arity, c.type_args.len());
    let params: Seq<Form> = seq![bytes()];
    if counts_of(b.arity).contains(c.type_args.len()) {
        assert(params_forms(b.params, args_in(c, b.arity)) =~= params);
    }
}

proof fn bytes_from_hex_form(c: BuiltinCall, name: Seq<char>)
    requires
        in_order(c),
        name == "bytes.from_hex"@,
    ensures
        takes_and_gives(c, name, seq![0nat], seq![string()], result(bytes(), string())),
{
    reveal(takes_and_gives);
    reveal(takes_and_gives_of);
    reveal(otherwise_takes);
    bytes_table(name);
    let b = plain(Params::P1(Shape::One(Simple::String)), Shape::Result(Simple::Bytes, Simple::String));
    builtin_does(c, name, b);
    counted(b.arity, c.type_args.len());
    let params: Seq<Form> = seq![string()];
    if counts_of(b.arity).contains(c.type_args.len()) {
        assert(params_forms(b.params, args_in(c, b.arity)) =~= params);
    }
}

/// What the builtin functions on bytes take and give.
pub proof fn law_bytes_builtins(c: BuiltinCall, name: Seq<char>)
    requires
        in_order(c),
    ensures
        name == "bytes.new"@ ==> takes_and_gives(c, name, seq![0nat], seq![], bytes()),
        name == "bytes.length"@ ==> takes_and_gives(c, name, seq![0nat], seq![bytes()], int64()),
        name == "bytes.slice"@ ==> takes_and_gives(c, name, seq![0nat], seq![bytes(), int64(), int64()], bytes()),
        name == "bytes.concat"@ ==> takes_and_gives(c, name, seq![0nat], seq![bytes(), bytes()], bytes()),
        name == "bytes.from_string"@ ==> takes_and_gives(c, name, seq![0nat], seq![string()], bytes()),
        name == "bytes.to_string"@ ==> takes_and_gives(c, name, seq![0nat], seq![bytes()], result(string(), string())),
        name == "bytes.get"@ ==> takes_and_gives(c, name, seq![0nat], seq![bytes(), int64()], optional(int64())),
        name == "bytes.to_hex"@ ==> takes_and_gives(c, name, seq![0nat], seq![bytes()], string()),
        name == "bytes.from_hex"@ ==> takes_and_gives(c, name, seq![0nat], seq![string()], result(bytes(), string())),
{
    if name == "bytes.new"@ {
        bytes_new_form(c, name);
    }
    if name == "bytes.length"@ {
        bytes_length_form(c, name);
    }
    if name == "bytes.slice"@ {
        bytes_slice_form(c, name);
    }
    if name == "bytes.concat"@ {
        bytes_concat_form(c, name);
    }
    if name == "bytes.from_string"@ {
        bytes_from_string_form(c, name);
    }
    if name == "bytes.to_string"@ {
        bytes_to_string_form(c, name);
    }
    if name == "bytes.get"@ {
        bytes_get_form(c, name);
    }
    if name == "bytes.to_hex"@ {
        bytes_to_hex_form(c, name);
    }
    if name == "bytes.from_hex"@ {
        bytes_from_hex_form(c, name);
    }
}

proof fn type_table(name: Seq<char>)
    ensures
        name == "type.name"@ || name == "type.kind"@ ==> builtin_named(name) == Some(of_types(Arity::One, Params::P0, Shape::One(Simple::String))),
        name == "type.kind_tag"@ ==> builtin_named(name) == Some(of_types(Arity::One, Params::P0, Shape::One(Simple::Meta(Meta::TypeKind)))),
        name == "type.primitive_tag"@ ==> builtin_named(name) == Some(of_types(Arity::One, Params::P0, Shape::Optional(Simple::Meta(Meta::TypePrimitive)))),
        name == "type.has_secret"@ ==> builtin_named(name) == Some(of_types(Arity::One, Params::P0, Shape::One(Simple::Bool))),
        name == "type.info"@ ==> builtin_named(name) == Some(of_types(Arity::One, Params::P0, Shape::One(Simple::Meta(Meta::TypeInfo)))),
        name == "type.arg"@ ==> builtin_named(name) == Some(exact(Arity::One, Params::P1(Shape::One(Simple::Int64)), Shape::One(Simple::Meta(Meta::TypeInfo)), Target::Any, Params::P1(Shape::One(Simple::Int64)))),
        name == "type.construct_start"@ ==> builtin_named(name) == Some(exact(Arity::One, Params::P0, Shape::One(Simple::TypeConstruction), Target::StructOrBitfield, Params::P0)),
        name == "type.construct_variant_start"@ ==> builtin_named(name) == Some(exact(Arity::One, Params::P1(Shape::One(Simple::Meta(Meta::TypeVariant))), Shape::Result(Simple::TypeConstruction, Simple::String), Target::EnumOnly, Params::P1(Shape::One(Simple::Any)))),
        name == "type.construct_machine_start"@ ==> builtin_named(name) == Some(exact(Arity::One, Params::P1(Shape::One(Simple::Meta(Meta::TypeMachineState))), Shape::Result(Simple::TypeConstruction, Simple::String), Target::MachineOnly, Params::P1(Shape::One(Simple::Any)))),
        name == "type.construct_put"@ ==> builtin_named(name) == Some(exact(Arity::Two, Params::P3(Shape::One(Simple::TypeConstruction), Shape::One(Simple::Meta(Meta::TypeField)), Shape::One(Simple::B)), Shape::Result(Simple::TypeConstruction, Simple::String), Target::Constructible, Params::P3(Shape::One(Simple::TypeConstruction), Shape::One(Simple::Meta(Meta::TypeField)), Shape::One(Simple::Any)))),
        name == "type.construct_finish"@ ==> builtin_named(name) == Some(exact(Arity::One, Params::P1(Shape::One(Simple::TypeConstruction)), Shape::Result(Simple::A, Simple::String), Target::Constructible, Params::P1(Shape::One(Simple::TypeConstruction)))),
        name == "type.fields"@ ==> builtin_named(name) == Some(of_types(Arity::One, Params::P0, Shape::List(Simple::Meta(Meta::TypeField)))),
        name == "type.bitfield_layout"@ ==> builtin_named(name) == Some(of_types(Arity::One, Params::P0, Shape::One(Simple::Meta(Meta::TypeBitfield)))),
        name == "type.bitfield_fields"@ ==> builtin_named(name) == Some(of_types(Arity::One, Params::P0, Shape::List(Simple::Meta(Meta::TypeBitfieldField)))),
        name == "type.machine_layout"@ ==> builtin_named(name) == Some(of_types(Arity::One, Params::P0, Shape::One(Simple::Meta(Meta::TypeMachine)))),
        name == "type.machine_states"@ ==> builtin_named(name) == Some(of_types(Arity::One, Params::P0, Shape::List(Simple::Meta(Meta::TypeMachineState)))),
        name == "type.machine_transitions"@ ==> builtin_named(name) == Some(of_types(Arity::One, Params::P0, Shape::List(Simple::Meta(Meta::TypeMachineTransition)))),
        name == "type.machine_state_value"@ ==> builtin_named(name) == Some(exact(Arity::One, Params::P1(Shape::One(Simple::A)), Shape::One(Simple::Meta(Meta::TypeMachineState)), Target::Any, Params::P1(Shape::One(Simple::Any)))),
        name == "type.variants"@ ==> builtin_named(name) == Some(of_types(Arity::One, Params::P0, Shape::List(Simple::Meta(Meta::TypeVariant)))),
        name == "type.variant_value"@ ==> builtin_named(name) == Some(exact(Arity::One, Params::P1(Shape::One(Simple::A)), Shape::One(Simple::Meta(Meta::TypeVariant)), Target::Any, Params::P1(Shape::One(Simple::Any)))),
        name == "type.field_value"@ || name == "type.machine_field_value"@
            || name == "type.variant_field_value"@ ==> builtin_named(name) == Some(exact(Arity::Two, Params::P2(Shape::One(Simple::A), Shape::One(Simple::Meta(Meta::TypeField))), Shape::One(Simple::B), Target::Any, Params::P1(Shape::One(Simple::Any)))),
{
    reveal(builtin_named);
    reveal(type_builtin_named);
    string_table_prefix(name);
    list_table_prefix(name);
    map_table_prefix(name);
    set_table_prefix(name);
    math_table_prefix(name);
    bytes_table_prefix(name);
    reveal_strlit("type.name");
    assert("type.name"@.len() == 9);
    assert("type.name"@[5] == 'n');
    reveal_strlit("type.kind");
    assert("type.kind"@.len() == 9);
    assert("type.kind"@[5] == 'k');
    reveal_strlit("type.kind_tag");
    assert("type.kind_tag"@.len() == 13);
    assert("type.kind_tag"@[5] == 'k');
    reveal_strlit("type.primitive_tag");
    assert("type.primitive_tag"@.len() == 18);
    assert("type.primitive_tag"@[5] == 'p');
    reveal_strlit("type.has_secret");
    assert("type.has_secret"@.len() == 15);
    reveal_strlit("type.info");
    assert("type.info"@.len() == 9);
    assert("type.info"@[5] == 'i');
    reveal_strlit("type.arg");
    assert("type.arg"@.len() == 8);
    reveal_strlit("type.construct_start");
    assert("type.construct_start"@.len() == 20);
    assert("type.construct_start"@[5] == 'c');
    reveal_strlit("type.construct_variant_start");
    assert("type.construct_variant_start"@.len() == 28);
    assert("type.construct_variant_start"@[15] == 'v');
    reveal_strlit("type.construct_machine_start");
    assert("type.construct_machine_start"@.len() == 28);
    assert("type.construct_machine_start"@[15] == 'm');
    reveal_strlit("type.construct_put");
    assert("type.construct_put"@.len() == 18);
    assert("type.construct_put"@[5] == 'c');
    reveal_strlit("type.construct_finish");
    assert("type.construct_finish"@.len() == 21);
    reveal_strlit("type.fields");
    assert("type.fields"@.len() == 11);
    reveal_strlit("type.bitfield_layout");
    assert("type.bitfield_layout"@.len() == 20);
    assert("type.bitfield_layout"@[5] == 'b');
    assert("type.bitfield_layout"@[14] == 'l');
    reveal_strlit("type.bitfield_fields");
    assert("type.bitfield_fields"@.len() == 20);
    assert("type.bitfield_fields"@[5] == 'b');
    assert("type.bitfield_fields"@[14] == 'f');
    reveal_strlit("type.machine_layout");
    assert("type.machine_layout"@.len() == 19);
    assert("type.machine_layout"@[13] == 'l');
    reveal_strlit("type.machine_states");
    assert("type.machine_states"@.len() == 19);
    assert("type.machine_states"@[13] == 's');
    reveal_strlit("type.machine_transitions");
    assert("type.machine_transitions"@.len() == 24);
    assert("type.machine_transitions"@[13] == 't');
    reveal_strlit("type.machine_state_value");
    assert("type.machine_state_value"@.len() == 24);
    assert("type.machine_state_value"@[13] == 's');
    reveal_strlit("type.variants");
    assert("type.variants"@.len() == 13);
    assert("type.variants"@[5] == 'v');
    reveal_strlit("type.variant_value");
    assert("type.variant_value"@.len() == 18);
    assert("type.variant_value"@[5] == 'v');
    reveal_strlit("type.field_value");
    assert("type.field_value"@.len() == 16);
    reveal_strlit("type.machine_field_value");
    assert("type.machine_field_value"@.len() == 24);
    assert("type.machine_field_value"@[5] == 'm');
    assert("type.machine_field_value"@[13] == 'f');
    reveal_strlit("type.variant_field_value");
    assert("type.variant_field_value"@.len() == 24);
    assert("type.variant_field_value"@[5] == 'v');
    assert("type.variant_field_value"@[13] == 'f');
    assert("type.name"@[0] == 't');
    assert("type.name"@[1] == 'y');
    assert("type.name"@[2] == 'p');
    assert("type.name"@[3] == 'e');
    assert("type.name"@[4] == '.');
    assert("type.kind"@[0] == 't');
    assert("type.kind"@[1] == 'y');
    assert("type.kind"@[2] == 'p');
    assert("type.kind"@[3] == 'e');
    assert("type.kind"@[4] == '.');
    assert("type.kind_tag"@[0] == 't');
    assert("type.kind_tag"@[1] == 'y');
    assert("type.kind_tag"@[2] == 'p');
    assert("type.kind_tag"@[3] == 'e');
    assert("type.kind_tag"@[4] == '.');
    assert("type.primitive_tag"@[0] == 't');
    assert("type.primitive_tag"@[1] == 'y');
    assert("type.primitive_tag"@[2] == 'p');
    assert("type.primitive_tag"@[3] == 'e');
    assert("type.primitive_tag"@[4] == '.');
    assert("type.has_secret"@[0] == 't');
    assert("type.has_secret"@[1] == 'y');
    assert("type.has_secret"@[2] == 'p');
    assert("type.has_secret"@[3] == 'e');
    assert("type.has_secret"@[4] == '.');
    assert("type.info"@[0] == 't');
    assert("type.info"@[1] == 'y');
    assert("type.info"@[2] == 'p');
    assert("type.info"@[3] == 'e');
    assert("type.info"@[4] == '.');
    assert("type.arg"@[0] == 't');
    assert("type.arg"@[1] == 'y');
    assert("type.arg"@[2] == 'p');
    assert("type.arg"@[3] == 'e');
    assert("type.arg"@[4] == '.');
    assert("type.construct_start"@[0] == 't');
    assert("type.construct_start"@[1] == 'y');
    assert("type.construct_start"@[2] == 'p');
    assert("type.construct_start"@[3] == 'e');
    assert("type.construct_start"@[4] == '.');
    assert("type.construct_variant_start"@[0] == 't');
    assert("type.construct_variant_start"@[1] == 'y');
    assert("type.construct_variant_start"@[2] == 'p');
    assert("type.construct_variant_start"@[3] == 'e');
    assert("type.construct_variant_start"@[4] == '.');
    assert("type.construct_machine_start"@[0] == 't');
    assert("type.construct_machine_start"@[1] == 'y');
    assert("type.construct_machine_start"@[2] == 'p');
    assert("type.construct_machine_start"@[3] == 'e');
    assert("type.construct_machine_start"@[4] == '.');
    assert("type.construct_put"@[0] == 't');
    assert("type.construct_put"@[1] == 'y');
    assert("type.construct_put"@[2] == 'p');
    assert("type.construct_put"@[3] == 'e');
    assert("type.construct_put"@[4] == '.');
    assert("type.construct_finish"@[0] == 't');
    assert("type.construct_finish"@[1] == 'y');
    assert("type.construct_finish"@[2] == 'p');
    assert("type.construct_finish"@[3] == 'e');
    assert("type.construct_finish"@[4] == '.');
    assert("type.fields"@[0] == 't');
    assert("type.fields"@[1] == 'y');
    assert("type.fields"@[2] == 'p');
    assert("type.fields"@[3] == 'e');
    assert("type.fields"@[4] == '.');
    assert("type.bitfield_layout"@[0] == 't');
    assert("type.bitfield_layout"@[1] == 'y');
    assert("type.bitfield_layout"@[2] == 'p');
    assert("type.bitfield_layout"@[3] == 'e');
    assert("type.bitfield_layout"@[4] == '.');
    assert("type.bitfield_fields"@[0] == 't');
    assert("type.bitfield_fields"@[1] == 'y');
    assert("type.bitfield_fields"@[2] == 'p');
    assert("type.bitfield_fields"@[3] == 'e');
    assert("type.bitfield_fields"@[4] == '.');
    assert("type.machine_layout"@[0] == 't');
    assert("type.machine_layout"@[1] == 'y');
    assert("type.machine_layout"@[2] == 'p');
    assert("type.machine_layout"@[3] == 'e');
    assert("type.machine_layout"@[4] == '.');
    assert("type.machine_states"@[0] == 't');
    assert("type.machine_states"@[1] == 'y');
    assert("type.machine_states"@[2] == 'p');
    assert("type.machine_states"@[3] == 'e');
    assert("type.machine_states"@[4] == '.');
    assert("type.machine_transitions"@[0] == 't');
    assert("type.machine_transitions"@[1] == 'y');
    assert("type.machine_transitions"@[2] == 'p');
    assert("type.machine_transitions"@[3] == 'e');
    assert("type.machine_transitions"@[4] == '.');
    assert("type.machine_state_value"@[0] == 't');
    assert("type.machine_state_value"@[1] == 'y');
    assert("type.machine_state_value"@[2] == 'p');
    assert("type.machine_state_value"@[3] == 'e');
    assert("type.machine_state_value"@[4] == '.');
    assert("type.variants"@[0] == 't');
    assert("type.variants"@[1] == 'y');
    assert("type.variants"@[2] == 'p');
    assert("type.variants"@[3] == 'e');
    assert("type.variants"@[4] == '.');
    assert("type.variant_value"@[0] == 't');
    assert("type.variant_value"@[1] == 'y');
    assert("type.variant_value"@[2] == 'p');
    assert("type.variant_value"@[3] == 'e');
    assert("type.variant_value"@[4] == '.');
    assert("type.field_value"@[0] == 't');
    assert("type.field_value"@[1] == 'y');
    assert("type.field_value"@[2] == 'p');
    assert("type.field_value"@[3] == 'e');
    assert("type.field_value"@[4] == '.');
    assert("type.machine_field_value"@[0] == 't');
    assert("type.machine_field_value"@[1] == 'y');
    assert("type.machine_field_value"@[2] == 'p');
    assert("type.machine_field_value"@[3] == 'e');
    assert("type.machine_field_value"@[4] == '.');
    assert("type.variant_field_value"@[0] == 't');
    assert("type.variant_field_value"@[1] == 'y');
    assert("type.variant_field_value"@[2] == 'p');
    assert("type.variant_field_value"@[3] == 'e');
    assert("type.variant_field_value"@[4] == '.');
}

proof fn type_name_form(c: BuiltinCall, name: Seq<char>)
    requires
        in_order(c),
        name == "type.name"@ || name == "type.kind"@,
    ensures
        takes_and_gives(c, name, seq![1nat], seq![], string()),
        otherwise_takes(c, name, 1, seq![]),
{
    reveal(takes_and_gives);
    reveal(takes_and_gives_of);
    reveal(otherwise_takes);
    type_table(name);
    let b = of_types(Arity::One, Params::P0, Shape::One(Simple::String));
    builtin_does(c, name, b);
    counted(b.arity, c.type_args.len());
    let params: Seq<Form> = seq![];
    if counts_of(b.arity).contains(c.type_args.len()) {
        assert(params_forms(b.params, args_in(c, b.arity)) =~= params);
    }
    let fallback: Seq<Form> = seq![];
    assert(params_forms(b.fallback, any_types()) =~= fallback);
}

proof fn type_kind_tag_form(c: BuiltinCall, name: Seq<char>)
    requires
        in_order(c),
        name == "type.kind_tag"@,
    ensures
        takes_and_gives(c, name, seq![1nat], seq![], Form::Named("TypeKind"@)),
        otherwise_takes(c, name, 1, seq![]),
{
    reveal(takes_and_gives);
    reveal(takes_and_gives_of);
    reveal(otherwise_takes);
    type_table(name);
    let b = of_types(Arity::One, Params::P0, Shape::One(Simple::Meta(Meta::TypeKind)));
    builtin_does(c, name, b);
    counted(b.arity, c.type_args.len());
    let params: Seq<Form> = seq![];
    if counts_of(b.arity).contains(c.type_args.len()) {
        assert(params_forms(b.params, args_in(c, b.arity)) =~= params);
    }
    let fallback: Seq<Form> = seq![];
    assert(params_forms(b.fallback, any_types()) =~= fallback);
}

proof fn type_primitive_tag_form(c: BuiltinCall, name: Seq<char>)
    requires
        in_order(c),
        name == "type.primitive_tag"@,
    ensures
        takes_and_gives(c, name, seq![1nat], seq![], optional(Form::Named("TypePrimitive"@))),
        otherwise_takes(c, name, 1, seq![]),
{
    reveal(takes_and_gives);
    reveal(takes_and_gives_of);
    reveal(otherwise_takes);
    type_table(name);
    let b = of_types(Arity::One, Params::P0, Shape::Optional(Simple::Meta(Meta::TypePrimitive)));
    builtin_does(c, name, b);
    counted(b.arity, c.type_args.len());
    let params: Seq<Form> = seq![];
    if counts_of(b.arity).contains(c.type_args.len()) {
        assert(params_forms(b.params, args_in(c, b.arity)) =~= params);
    }
    let fallback: Seq<Form> = seq![];
    assert(params_forms(b.fallback, any_types()) =~= fallback);
}

proof fn type_has_secret_form(c: BuiltinCall, name: Seq<char>)
    requires
        in_order(c),
        name == "type.has_secret"@,
    ensures
        takes_and_gives(c, name, seq![1nat], seq![], boolean()),
        otherwise_takes(c, name, 1, seq![]),
{
    reveal(takes_and_gives);
    reveal(takes_and_gives_of);
    reveal(otherwise_takes);
    type_table(name);
    let b = of_types(Arity::One, Params::P0, Shape::One(Simple::Bool));
    builtin_does(c, name, b);
    counted(b.arity, c.type_args.len());
    let params: Seq<Form> = seq![];
    if counts_of(b.arity).contains(c.type_args.len()) {
        assert(params_forms(b.params, args_in(c, b.arity)) =~= params);
    }
    let fallback: Seq<Form> = seq![];
    assert(params_forms(b.fallback, any_types()) =~= fallback);
}

proof fn type_info_form(c: BuiltinCall, name: Seq<char>)
    requires
        in_order(c),
        name == "type.info"@,
    ensures
        takes_and_gives(c, name, seq![1nat], seq![], Form::Named("TypeInfo"@)),
        otherwise_takes(c, name, 1, seq![]),
{
    reveal(takes_and_gives);
    reveal(takes_and_gives_of);
    reveal(otherwise_takes);
    type_table(name);
    let b = of_types(Arity::One, Params::P0, Shape::One(Simple::Meta(Meta::TypeInfo)));
    builtin_does(c, name, b);
    counted(b.arity, c.type_args.len());
    let params: Seq<Form> = seq![];
    if counts_of(b.arity).contains(c.type_args.len()) {
        assert(params_forms(b.params, args_in(c, b.arity)) =~= params);
    }
    let fallback: Seq<Form> = seq![];
    assert(params_forms(b.fallback, any_types()) =~= fallback);
}

proof fn type_arg_form(c: BuiltinCall, name: Seq<char>)
    requires
        in_order(c),
        name == "type.arg"@,
    ensures
        takes_and_gives(c, name, seq![1nat], seq![int64()], Form::Named("TypeInfo"@)),
        otherwise_takes(c, name, 1, seq![int64()]),
{
    reveal(takes_and_gives);
    reveal(takes_and_gives_of);
    reveal(otherwise_takes);
    type_table(name);
    let b = exact(Arity::One, Params::P1(Shape::One(Simple::Int64)), Shape::One(Simple::Meta(Meta::TypeInfo)), Target::Any, Params::P1(Shape::One(Simple::Int64)));
    builtin_does(c, name, b);
    counted(b.arity, c.type_args.len());
    let params: Seq<Form> = seq![int64()];
    if counts_of(b.arity).contains(c.type_args.len()) {
        assert(params_forms(b.params, args_in(c, b.arity)) =~= params);
    }
    let fallback: Seq<Form> = seq![int64()];
    assert(params_forms(b.fallback, any_types()) =~= fallback);
}

proof fn type_construct_start_form(c: BuiltinCall, name: Seq<char>)
    requires
        in_order(c),
        name == "type.construct_start"@,
    ensures
        takes_and_gives_of(
            c,
            name,
            seq![1nat],
            seq![],
            construction(),
            first_type(c) is Struct || first_type(c) is Bitfield,
        ),
        otherwise_takes(c, name, 1, seq![]),
{
    reveal(takes_and_gives);
    reveal(takes_and_gives_of);
    reveal(otherwise_takes);
    type_table(name);
    let b = exact(Arity::One, Params::P0, Shape::One(Simple::TypeConstruction), Target::StructOrBitfield, Params::P0);
    builtin_does(c, name, b);
    counted(b.arity, c.type_args.len());
    let params: Seq<Form> = seq![];
    if counts_of(b.arity).contains(c.type_args.len()) {
        assert(params_forms(b.params, args_in(c, b.arity)) =~= params);
    }
    let fallback: Seq<Form> = seq![];
    assert(params_forms(b.fallback, any_types()) =~= fallback);
}

proof fn type_construct_variant_start_form(c: BuiltinCall, name: Seq<char>)
    requires
        in_order(c),
        name == "type.construct_variant_start"@,
    ensures
        takes_and_gives_of(
            c,
            name,
            seq![1nat],
            seq![Form::Named("TypeVariant"@)],
            result(construction(), string()),
            first_type(c) is Enum,
        ),
        otherwise_takes(c, name, 1, seq![any()]),
{
    reveal(takes_and_gives);
    reveal(takes_and_gives_of);
    reveal(otherwise_takes);
    type_table(name);
    let b = exact(Arity::One, Params::P1(Shape::One(Simple::Meta(Meta::TypeVariant))), Shape::Result(Simple::TypeConstruction, Simple::String), Target::EnumOnly, Params::P1(Shape::One(Simple::Any)));
    builtin_does(c, name, b);
    counted(b.arity, c.type_args.len());
    let params: Seq<Form> = seq![Form::Named("TypeVariant"@)];
    if counts_of(b.arity).contains(c.type_args.len()) {
        assert(params_forms(b.params, args_in(c, b.arity)) =~= params);
    }
    let fallback: Seq<Form> = seq![any()];
    assert(params_forms(b.fallback, any_types()) =~= fallback);
}

proof fn type_construct_machine_start_form(c: BuiltinCall, name: Seq<char>)
    requires
        in_order(c),
        name == "type.construct_machine_start"@,
    ensures
        takes_and_gives_of(
            c,
            name,
            seq![1nat],
            seq![Form::Named("TypeMachineState"@)],
            result(construction(), string()),
            first_type(c) is Machine || first_type(c) is MachineState,
        ),
        otherwise_takes(c, name, 1, seq![any()]),
{
    reveal(takes_and_gives);
    reveal(takes_and_gives_of);
    reveal(otherwise_takes);
    type_table(name);
    let b = exact(Arity::One, Params::P1(Shape::One(Simple::Meta(Meta::TypeMachineState))), Shape::Result(Simple::TypeConstruction, Simple::String), Target::MachineOnly, Params::P1(Shape::One(Simple::Any)));
    builtin_does(c, name, b);
    counted(b.arity, c.type_args.len());
    let params: Seq<Form> = seq![Form::Named("TypeMachineState"@)];
    if counts_of(b.arity).contains(c.type_args.len()) {
        assert(params_forms(b.params, args_in(c, b.arity)) =~= params);
    }
    let fallback: Seq<Form> = seq![any()];
    assert(params_forms(b.fallback, any_types()) =~= fallback);
}

proof fn type_construct_put_form(c: BuiltinCall, name: Seq<char>)
    requires
        in_order(c),
        name == "type.construct_put"@,
    ensures
        takes_and_gives_of(
            c,
            name,
            seq![2nat],
            seq![construction(), Form::Named("TypeField"@), given(c, 1)],
            result(construction(), string()),
            first_type(c) is Struct || first_type(c) is Bitfield || first_type(c) is Enum || first_type(c) is Machine || first_type(c) is MachineState,
        ),
        otherwise_takes(c, name, 2, seq![construction(), Form::Named("TypeField"@), any()]),
{
    reveal(takes_and_gives);
    reveal(takes_and_gives_of);
    reveal(otherwise_takes);
    type_table(name);
    let b = exact(Arity::Two, Params::P3(Shape::One(Simple::TypeConstruction), Shape::One(Simple::Meta(Meta::TypeField)), Shape::One(Simple::B)), Shape::Result(Simple::TypeConstruction, Simple::String), Target::Constructible, Params::P3(Shape::One(Simple::TypeConstruction), Shape::One(Simple::Meta(Meta::TypeField)), Shape::One(Simple::Any)));
    builtin_does(c, name, b);
    counted(b.arity, c.type_args.len());
    let params: Seq<Form> = seq![construction(), Form::Named("TypeField"@), given(c, 1)];
    if counts_of(b.arity).contains(c.type_args.len()) {
        assert(params_forms(b.params, args_in(c, b.arity)) =~= params);
    }
    let fallback: Seq<Form> = seq![construction(), Form::Named("TypeField"@), any()];
    assert(params_forms(b.fallback, any_types()) =~= fallback);
}

proof fn type_construct_finish_form(c: BuiltinCall, name: Seq<char>)
    requires
        in_order(c),
        name == "type.construct_finish"@,
    ensures
        takes_and_gives_of(
            c,
            name,
            seq![1nat],
            seq![construction()],
            result(given(c, 0), string()),
            first_type(c) is Struct || first_type(c) is Bitfield || first_type(c) is Enum || first_type(c) is Machine || first_type(c) is MachineState,
        ),
        otherwise_takes(c, name, 1, seq![construction()]),
{
    reveal(takes_and_gives);
    reveal(takes_and_gives_of);
    reveal(otherwise_takes);
    type_table(name);
    let b = exact(Arity::One, Params::P1(Shape::One(Simple::TypeConstruction)), Shape::Result(Simple::A, Simple::String), Target::Constructible, Params::P1(Shape::One(Simple::TypeConstruction)));
    builtin_does(c, name, b);
    counted(b.arity, c.type_args.len());
    let params: Seq<Form> = seq![construction()];
    if counts_of(b.arity).contains(c.type_args.len()) {
        assert(params_forms(b.params, args_in(c, b.arity)) =~= params);
    }
    let fallback: Seq<Form> = seq![construction()];
    assert(params_forms(b.fallback, any_types()) =~= fallback);
}

proof fn type_fields_form(c: BuiltinCall, name: Seq<char>)
    requires
        in_order(c),
        name == "type.fields"@,
    ensures
        takes_and_gives(c, name, seq![1nat], seq![], list(Form::Named("TypeField"@))),
        otherwise_takes(c, name, 1, seq![]),
{
    reveal(takes_and_gives);
    reveal(takes_and_gives_of);
    reveal(otherwise_takes);
    type_table(name);
    let b = of_types(Arity::One, Params::P0, Shape::List(Simple::Meta(Meta::TypeField)));
    builtin_does(c, name, b);
    counted(b.arity, c.type_args.len());
    let params: Seq<Form> = seq![];
    if counts_of(b.arity).contains(c.type_args.len()) {
        assert(params_forms(b.params, args_in(c, b.arity)) =~= params);
    }
    let fallback: Seq<Form> = seq![];
    assert(params_forms(b.fallback, any_types()) =~= fallback);
}

proof fn type_bitfield_layout_form(c: BuiltinCall, name: Seq<char>)
    requires
        in_order(c),
        name == "type.bitfield_layout"@,
    ensures
        takes_and_gives(c, name, seq![1nat], seq![], Form::Named("TypeBitfield"@)),
        otherwise_takes(c, name, 1, seq![]),
{
    reveal(takes_and_gives);
    reveal(takes_and_gives_of);
    reveal(otherwise_takes);
    type_table(name);
    let b = of_types(Arity::One, Params::P0, Shape::One(Simple::Meta(Meta::TypeBitfield)));
    builtin_does(c, name, b);
    counted(b.arity, c.type_args.len());
    let params: Seq<Form> = seq![];
    if counts_of(b.arity).contains(c.type_args.len()) {
        assert(params_forms(b.params, args_in(c, b.arity)) =~= params);
    }
    let fallback: Seq<Form> = seq![];
    assert(params_forms(b.fallback, any_types()) =~= fallback);
}

proof fn type_bitfield_fields_form(c: BuiltinCall, name: Seq<char>)
    requires
        in_order(c),
        name == "type.bitfield_fields"@,
    ensures
        takes_and_gives(c, name, seq![1nat], seq![], list(Form::Named("TypeBitfieldField"@))),
        otherwise_takes(c, name, 1, seq![]),
{
    reveal(takes_and_gives);
    reveal(takes_and_gives_of);
    reveal(otherwise_takes);
    type_table(name);
    let b = of_types(Arity::One, Params::P0, Shape::List(Simple::Meta(Meta::TypeBitfieldField)));
    builtin_does(c, name, b);
    counted(b.arity, c.type_args.len());
    let params: Seq<Form> = seq![];
    if counts_of(b.arity).contains(c.type_args.len()) {
        assert(params_forms(b.params, args_in(c, b.arity)) =~= params);
    }
    let fallback: Seq<Form> = seq![];
    assert(params_forms(b.fallback, any_types()) =~= fallback);
}

proof fn type_machine_layout_form(c: BuiltinCall, name: Seq<char>)
    requires
        in_order(c),
        name == "type.machine_layout"@,
    ensures
        takes_and_gives(c, name, seq![1nat], seq![], Form::Named("TypeMachine"@)),
        otherwise_takes(c, name, 1, seq![]),
{
    reveal(takes_and_gives);
    reveal(takes_and_gives_of);
    reveal(otherwise_takes);
    type_table(name);
    let b = of_types(Arity::One, Params::P0, Shape::One(Simple::Meta(Meta::TypeMachine)));
    builtin_does(c, name, b);
    counted(b.arity, c.type_args.len());
    let params: Seq<Form> = seq![];
    if counts_of(b.arity).contains(c.type_args.len()) {
        assert(params_forms(b.params, args_in(c, b.arity)) =~= params);
    }
    let fallback: Seq<Form> = seq![];
    assert(params_forms(b.fallback, any_types()) =~= fallback);
}

proof fn type_machine_states_form(c: BuiltinCall, name: Seq<char>)
    requires
        in_order(c),
        name == "type.machine_states"@,
    ensures
        takes_and_gives(c, name, seq![1nat], seq![], list(Form::Named("TypeMachineState"@))),
        otherwise_takes(c, name, 1, seq![]),
{
    reveal(takes_and_gives);
    reveal(takes_and_gives_of);
    reveal(otherwise_takes);
    type_table(name);
    let b = of_types(Arity::One, Params::P0, Shape::List(Simple::Meta(Meta::TypeMachineState)));
    builtin_does(c, name, b);
    counted(b.arity, c.type_args.len());
    let params: Seq<Form> = seq![];
    if counts_of(b.arity).contains(c.type_args.len()) {
        assert(params_forms(b.params, args_in(c, b.arity)) =~= params);
    }
    let fallback: Seq<Form> = seq![];
    assert(params_forms(b.fallback, any_types()) =~= fallback);
}

proof fn type_machine_transitions_form(c: BuiltinCall, name: Seq<char>)
    requires
        in_order(c),
        name == "type.machine_transitions"@,
    ensures
        takes_and_gives(c, name, seq![1nat], seq![], list(Form::Named("TypeMachineTransition"@))),
        otherwise_takes(c, name, 1, seq![]),
{
    reveal(takes_and_gives);
    reveal(takes_and_gives_of);
    reveal(otherwise_takes);
    type_table(name);
    let b = of_types(Arity::One, Params::P0, Shape::List(Simple::Meta(Meta::TypeMachineTransition)));
    builtin_does(c, name, b);
    counted(b.arity, c.type_args.len());
    let params: Seq<Form> = seq![];
    if counts_of(b.arity).contains(c.type_args.len()) {
        assert(params_forms(b.params, args_in(c, b.arity)) =~= params);
    }
    let fallback: Seq<Form> = seq![];
    assert(params_forms(b.fallback, any_types()) =~= fallback);
}

proof fn type_machine_state_value_form(c: BuiltinCall, name: Seq<char>)
    requires
        in_order(c),
        name == "type.machine_state_value"@,
    ensures
        takes_and_gives(c, name, seq![1nat], seq![given(c, 0)], Form::Named("TypeMachineState"@)),
        otherwise_takes(c, name, 1, seq![any()]),
{
    reveal(takes_and_gives);
    reveal(takes_and_gives_of);
    reveal(otherwise_takes);
    type_table(name);
    let b = exact(Arity::One, Params::P1(Shape::One(Simple::A)), Shape::One(Simple::Meta(Meta::TypeMachineState)), Target::Any, Params::P1(Shape::One(Simple::Any)));
    builtin_does(c, name, b);
    counted(b.arity, c.type_args.len());
    let params: Seq<Form> = seq![given(c, 0)];
    if counts_of(b.arity).contains(c.type_args.len()) {
        assert(params_forms(b.params, args_in(c, b.arity)) =~= params);
    }
    let fallback: Seq<Form> = seq![any()];
    assert(params_forms(b.fallback, any_types()) =~= fallback);
}

proof fn type_variants_form(c: BuiltinCall, name: Seq<char>)
    requires
        in_order(c),
        name == "type.variants"@,
    ensures
        takes_and_gives(c, name, seq![1nat], seq![], list(Form::Named("TypeVariant"@))),
        otherwise_takes(c, name, 1, seq![]),
{
    reveal(takes_and_gives);
    reveal(takes_and_gives_of);
    reveal(otherwise_takes);
    type_table(name);
    let b = of_types(Arity::One, Params::P0, Shape::List(Simple::Meta(Meta::TypeVariant)));
    builtin_does(c, name, b);
    counted(b.arity, c.type_args.len());
    let params: Seq<Form> = seq![];
    if counts_of(b.arity).contains(c.type_args.len()) {
        assert(params_forms(b.params, args_in(c, b.arity)) =~= params);
    }
    let fallback: Seq<Form> = seq![];
    assert(params_forms(b.fallback, any_types()) =~= fallback);
}

proof fn type_variant_value_form(c: BuiltinCall, name: Seq<char>)
    requires
        in_order(c),
        name == "type.variant_value"@,
    ensures
        takes_and_gives(c, name, seq![1nat], seq![given(c, 0)], Form::Named("TypeVariant"@)),
        otherwise_takes(c, name, 1, seq![any()]),
{
    reveal(takes_and_gives);
    reveal(takes_and_gives_of);
    reveal(otherwise_takes);
    type_table(name);
    let b = exact(Arity::One, Params::P1(Shape::One(Simple::A)), Shape::One(Simple::Meta(Meta::TypeVariant)), Target::Any, Params::P1(Shape::One(Simple::Any)));
    builtin_does(c, name, b);
    counted(b.arity, c.type_args.len());
    let params: Seq<Form> = seq![given(c, 0)];
    if counts_of(b.arity).contains(c.type_args.len()) {
        assert(params_forms(b.params, args_in(c, b.arity)) =~= params);
    }
    let fallback: Seq<Form> = seq![any()];
    assert(params_forms(b.fallback, any_types()) =~= fallback);
}

proof fn type_field_value_form(c: BuiltinCall, name: Seq<char>)
    requires
        in_order(c),
        name == "type.field_value"@ || name == "type.machine_field_value"@
            || name == "type.variant_field_value"@,
    ensures
        takes_and_gives(
            c,
            name,
            seq![2nat],
            seq![given(c, 0), Form::Named("TypeField"@)],
            given(c, 1),
        ),
        otherwise_takes(c, name, 2, seq![any()]),
{
    reveal(takes_and_gives);
    reveal(takes_and_gives_of);
    reveal(otherwise_takes);
    type_table(name);
    let b = exact(Arity::Two, Params::P2(Shape::One(Simple::A), Shape::One(Simple::Meta(Meta::TypeField))), Shape::One(Simple::B), Target::Any, Params::P1(Shape::One(Simple::Any)));
    builtin_does(c, name, b);
    counted(b.arity, c.type_args.len());
    let params: Seq<Form> = seq![given(c, 0), Form::Named("TypeField"@)];
    if counts_of(b.arity).contains(c.type_args.len()) {
        assert(params_forms(b.params, args_in(c, b.arity)) =~= params);
    }
    let fallback: Seq<Form> = seq![any()];
    assert(params_forms(b.fallback, any_types()) =~= fallback);
}

/// What the builtin functions on types take and give.
pub proof fn law_type_builtins(c: BuiltinCall, name: Seq<char>)
    requires
        in_order(c),
    ensures
        name == "type.name"@ || name == "type.kind"@ ==> takes_and_gives(c, name, seq![1nat], seq![], string()),
        name == "type.name"@ || name == "type.kind"@ ==> otherwise_takes(c, name, 1, seq![]),
        name == "type.kind_tag"@ ==> takes_and_gives(c, name, seq![1nat], seq![], Form::Named("TypeKind"@)),
        name == "type.kind_tag"@ ==> otherwise_takes(c, name, 1, seq![]),
        name == "type.primitive_tag"@ ==> takes_and_gives(c, name, seq![1nat], seq![], optional(Form::Named("TypePrimitive"@))),
        name == "type.primitive_tag"@ ==> otherwise_takes(c, name, 1, seq![]),
        name == "type.has_secret"@ ==> takes_and_gives(c, name, seq![1nat], seq![], boolean()),
        name == "type.has_secret"@ ==> otherwise_takes(c, name, 1, seq![]),
        name == "type.info"@ ==> takes_and_gives(c, name, seq![1nat], seq![], Form::Named("TypeInfo"@)),
        name == "type.info"@ ==> otherwise_takes(c, name, 1, seq![]),
        name == "type.arg"@ ==> takes_and_gives(c, name, seq![1nat], seq![int64()], Form::Named("TypeInfo"@)),
        name == "type.arg"@ ==> otherwise_takes(c, name, 1, seq![int64()]),
        name == "type.construct_start"@ ==> takes_and_gives_of(
            c,
            name,
            seq![1nat],
            seq![],
            construction(),
            first_type(c) is Struct || first_type(c) is Bitfield,
        ),
        name == "type.construct_start"@ ==> otherwise_takes(c, name, 1, seq![]),
        name == "type.construct_variant_start"@ ==> takes_and_gives_of(
            c,
            name,
            seq![1nat],
            seq![Form::Named("TypeVariant"@)],
            result(construction(), string()),
            first_type(c) is Enum,
        ),
        name == "type.construct_variant_start"@ ==> otherwise_takes(c, name, 1, seq![any()]),
        name == "type.construct_machine_start"@ ==> takes_and_gives_of(
            c,
            name,
            seq![1nat],
            seq![Form::Named("TypeMachineState"@)],
            result(construction(), string()),
            first_type(c) is Machine || first_type(c) is MachineState,
        ),
        name == "type.construct_machine_start"@ ==> otherwise_takes(c, name, 1, seq![any()]),
        name == "type.construct_put"@ ==> takes_and_gives_of(
            c,
            name,
            seq![2nat],
            seq![construction(), Form::Named("TypeField"@), given(c, 1)],
            result(construction(), string()),
            first_type(c) is Struct || first_type(c) is Bitfield || first_type(c) is Enum || first_type(c) is Machine || first_type(c) is MachineState,
        ),
        name == "type.construct_put"@ ==> otherwise_takes(c, name, 2, seq![construction(), Form::Named("TypeField"@), any()]),
        name == "type.construct_finish"@ ==> takes_and_gives_of(
            c,
            name,
            seq![1nat],
            seq![construction()],
            result(given(c, 0), string()),
            first_type(c) is Struct || first_type(c) is Bitfield || first_type(c) is Enum || first_type(c) is Machine || first_type(c) is MachineState,
        ),
        name == "type.construct_finish"@ ==> otherwise_takes(c, name, 1, seq![construction()]),
        name == "type.fields"@ ==> takes_and_gives(c, name, seq![1nat], seq![], list(Form::Named("TypeField"@))),
        name == "type.fields"@ ==> otherwise_takes(c, name, 1, seq![]),
        name == "type.bitfield_layout"@ ==> takes_and_gives(c, name, seq![1nat], seq![], Form::Named("TypeBitfield"@)),
        name == "type.bitfield_layout"@ ==> otherwise_takes(c, name, 1, seq![]),
        name == "type.bitfield_fields"@ ==> takes_and_gives(c, name, seq![1nat], seq![], list(Form::Named("TypeBitfieldField"@))),
        name == "type.bitfield_fields"@ ==> otherwise_takes(c, name, 1, seq![]),
        name == "type.machine_layout"@ ==> takes_and_gives(c, name, seq![1nat], seq![], Form::Named("TypeMachine"@)),
        name == "type.machine_layout"@ ==> otherwise_takes(c, name, 1, seq![]),
        name == "type.machine_states"@ ==> takes_and_gives(c, name, seq![1nat], seq![], list(Form::Named("TypeMachineState"@))),
        name == "type.machine_states"@ ==> otherwise_takes(c, name, 1, seq![]),
        name == "type.machine_transitions"@ ==> takes_and_gives(c, name, seq![1nat], seq![], list(Form::Named("TypeMachineTransition"@))),
        name == "type.machine_transitions"@ ==> otherwise_takes(c, name, 1, seq![]),
        name == "type.machine_state_value"@ ==> takes_and_gives(c, name, seq![1nat], seq![given(c, 0)], Form::Named("TypeMachineState"@)),
        name == "type.machine_state_value"@ ==> otherwise_takes(c, name, 1, seq![any()]),
        name == "type.variants"@ ==> takes_and_gives(c, name, seq![1nat], seq![], list(Form::Named("TypeVariant"@))),
        name == "type.variants"@ ==> otherwise_takes(c, name, 1, seq![]),
        name == "type.variant_value"@ ==> takes_and_gives(c, name, seq![1nat], seq![given(c, 0)], Form::Named("TypeVariant"@)),
        name == "type.variant_value"@ ==> otherwise_takes(c, name, 1, seq![any()]),
        name == "type.field_value"@ || name == "type.machine_field_value"@
            || name == "type.variant_field_value"@ ==> takes_and_gives(
            c,
            name,
            seq![2nat],
            seq![given(c, 0), Form::Named("TypeField"@)],
            given(c, 1),
        ),
        name == "type.field_value"@ || name == "type.machine_field_value"@
            || name == "type.variant_field_value"@ ==> otherwise_takes(c, name, 2, seq![any()]),
{
    if name == "type.name"@ || name == "type.kind"@ {
        type_name_form(c, name);
    }
    if name == "type.kind_tag"@ {
        type_kind_tag_form(c, name);
    }
    if name == "type.primitive_tag"@ {
        type_primitive_tag_form(c, name);
    }
    if name == "type.has_secret"@ {
        type_has_secret_form(c, name);
    }
    if name == "type.info"@ {
        type_info_form(c, name);
    }
    if name == "type.arg"@ {
        type_arg_form(c, name);
    }
    if name == "type.construct_start"@ {
        type_construct_start_form(c, name);
    }
    if name == "type.construct_variant_start"@ {
        type_construct_variant_start_form(c, name);
    }
    if name == "type.construct_machine_start"@ {
        type_construct_machine_start_form(c, name);
    }
    if name == "type.construct_put"@ {
        type_construct_put_form(c, name);
    }
    if name == "type.construct_finish"@ {
        type_construct_finish_form(c, name);
    }
    if name == "type.fields"@ {
        type_fields_form(c, name);
    }
    if name == "type.bitfield_layout"@ {
        type_bitfield_layout_form(c, name);
    }
    if name == "type.bitfield_fields"@ {
        type_bitfield_fields_form(c, name);
    }
    if name == "type.machine_layout"@ {
        type_machine_layout_form(c, name);
    }
    if name == "type.machine_states"@ {
        type_machine_states_form(c, name);
    }
    if name == "type.machine_transitions"@ {
        type_machine_transitions_form(c, name);
    }
    if name == "type.machine_state_value"@ {
        type_machine_state_value_form(c, name);
    }
    if name == "type.variants"@ {
        type_variants_form(c, name);
    }
    if name == "type.variant_value"@ {
        type_variant_value_form(c, name);
    }
    if name == "type.field_value"@ || name == "type.machine_field_value"@
        || name == "type.variant_field_value"@ {
        type_field_value_form(c, name);
    }
}

proof fn other_table(name: Seq<char>)
    ensures
        name == "int64.from_string"@ ==> builtin_named(name) == Some(plain(Params::P1(Shape::One(Simple::String)), Shape::Result(Simple::Int64, Simple::String))),
        name == "uint64.from_string"@ ==> builtin_named(name) == Some(plain(Params::P1(Shape::One(Simple::String)), Shape::Result(Simple::Uint64, Simple::String))),
        name == "float64.from_string"@ ==> builtin_named(name) == Some(plain(Params::P1(Shape::One(Simple::String)), Shape::Result(Simple::Float64, Simple::String))),
        name == "float64.from_int64"@ ==> builtin_named(name) == Some(plain(Params::P1(Shape::One(Simple::Int64)), Shape::One(Simple::Float64))),
        name == "Environment.args"@ ==> builtin_named(name) == Some(plain(Params::P1(Shape::One(Simple::Any)), Shape::List(Simple::String))),
        name == "Filesystem.read_file"@ ==> builtin_named(name) == Some(plain(Params::P2(Shape::One(Simple::Any), Shape::One(Simple::String)), Shape::Result(Simple::String, Simple::String))),
        name == "Filesystem.write_file"@ ==> builtin_named(name) == Some(plain(Params::P3(Shape::One(Simple::Any), Shape::One(Simple::String), Shape::One(Simple::String)), Shape::Result(Simple::Nothing, Simple::String))),
        name == "Stdout.write"@ ==> builtin_named(name) == Some(plain(Params::P2(Shape::One(Simple::Any), Shape::One(Simple::String)), Shape::One(Simple::Nothing))),
        name == "json.parse"@ || name == "json.parse_exact"@ ==> builtin_named(name) == Some(exact(Arity::One, Params::P1(Shape::One(Simple::String)), Shape::Result(Simple::A, Simple::String), Target::Any, Params::P1(Shape::One(Simple::String)))),
        name == "json.serialize"@ || name == "json.serialize_public"@ ==> builtin_named(name) == Some(exact(Arity::One, Params::P1(Shape::One(Simple::A)), Shape::One(Simple::String), Target::Any, Params::P1(Shape::One(Simple::Any)))),
        name == "secret.redact"@ ==> builtin_named(name) == Some(plain(Params::P1(Shape::Secret(Simple::Any)), Shape::One(Simple::String))),
        name == "secret.compare"@ ==> builtin_named(name) == Some(plain(Params::P2(Shape::Secret(Simple::Any), Shape::Secret(Simple::Any)), Shape::One(Simple::Bool))),
        name == "random.int64"@ ==> builtin_named(name) == Some(plain(Params::P2(Shape::One(Simple::Int64), Shape::One(Simple::Int64)), Shape::One(Simple::Int64))),
        name == "random.float64"@ ==> builtin_named(name) == Some(plain(Params::P0, Shape::One(Simple::Float64))),
        name == "random.bool"@ ==> builtin_named(name) == Some(plain(Params::P0, Shape::One(Simple::Bool))),
        name == "random.choice"@ ==> builtin_named(name) == Some(of_types(Arity::UpToOne, Params::P1(Shape::List(Simple::A)), Shape::Optional(Simple::A))),
        name == "random.shuffle"@ ==> builtin_named(name) == Some(of_types(Arity::UpToOne, Params::P1(Shape::List(Simple::A)), Shape::List(Simple::A))),
        name == "uuid.new"@ ==> builtin_named(name) == Some(plain(Params::P0, Shape::One(Simple::String))),
        name == "encoding.base64_encode"@ || name == "encoding.base64_decode"@
            || name == "encoding.hex_encode"@ || name == "encoding.hex_decode"@
            || name == "encoding.url_encode"@ || name == "encoding.url_decode"@
            || name == "crypto.sha256"@ || name == "crypto.md5"@ ==> builtin_named(name) == Some(plain(Params::P1(Shape::One(Simple::String)), Shape::One(Simple::String))),
        name == "time.now_ms"@ || name == "time.now_s"@ ==> builtin_named(name) == Some(plain(Params::P0, Shape::One(Simple::Int64))),
        name == "os.args"@ ==> builtin_named(name) == Some(plain(Params::P0, Shape::List(Simple::String))),
        name == "os.env"@ ==> builtin_named(name) == Some(plain(Params::P1(Shape::One(Simple::String)), Shape::Optional(Simple::String))),
        name == "csv.parse"@ ==> builtin_named(name) == Some(plain(Params::P1(Shape::One(Simple::String)), Shape::ListOfLists(Simple::String))),
        name == "csv.stringify"@ ==> builtin_named(name) == Some(plain(Params::P1(Shape::ListOfLists(Simple::String)), Shape::One(Simple::String))),
        name == "csv.parse_with_header"@ ==> builtin_named(name) == Some(plain(Params::P1(Shape::One(Simple::String)), Shape::ListOfMaps(Simple::String, Simple::String))),
{
    reveal(builtin_named);
    reveal(other_builtin_named);
    string_table_prefix(name);
    list_table_prefix(name);
    map_table_prefix(name);
    set_table_prefix(name);
    math_table_prefix(name);
    bytes_table_prefix(name);
    type_table_prefix(name);
    reveal_strlit("int64.from_string");
    assert("int64.from_string"@.len() == 17);
    reveal_strlit("uint64.from_string");
    assert("uint64.from_string"@.len() == 18);
    assert("uint64.from_string"@[0] == 'u');
    reveal_strlit("float64.from_string");
    assert("float64.from_string"@.len() == 19);
    assert("float64.from_string"@[0] == 'f');
    reveal_strlit("float64.from_int64");
    assert("float64.from_int64"@.len() == 18);
    assert("float64.from_int64"@[0] == 'f');
    reveal_strlit("Environment.args");
    assert("Environment.args"@.len() == 16);
    assert("Environment.args"@[0] == 'E');
    reveal_strlit("Filesystem.read_file");
    assert("Filesystem.read_file"@.len() == 20);
    reveal_strlit("Filesystem.write_file");
    assert("Filesystem.write_file"@.len() == 21);
    assert("Filesystem.write_file"@[0] == 'F');
    reveal_strlit("Stdout.write");
    assert("Stdout.write"@.len() == 12);
    assert("Stdout.write"@[0] == 'S');
    reveal_strlit("json.parse");
    assert("json.parse"@.len() == 10);
    assert("json.parse"@[0] == 'j');
    reveal_strlit("json.parse_exact");
    assert("json.parse_exact"@.len() == 16);
    assert("json.parse_exact"@[0] == 'j');
    reveal_strlit("json.serialize");
    assert("json.serialize"@.len() == 14);
    assert("json.serialize"@[0] == 'j');
    reveal_strlit("json.serialize_public");
    assert("json.serialize_public"@.len() == 21);
    assert("json.serialize_public"@[0] == 'j');
    reveal_strlit("secret.redact");
    assert("secret.redact"@.len() == 13);
    assert("secret.redact"@[0] == 's');
    reveal_strlit("secret.compare");
    assert("secret.compare"@.len() == 14);
    assert("secret.compare"@[0] == 's');
    reveal_strlit("random.int64");
    assert("random.int64"@.len() == 12);
    assert("random.int64"@[0] == 'r');
    reveal_strlit("random.float64");
    assert("random.float64"@.len() == 14);
    assert("random.float64"@[0] == 'r');
    assert("random.float64"@[7] == 'f');
    reveal_strlit("random.bool");
    assert("random.bool"@.len() == 11);
    assert("random.bool"@[0] == 'r');
    reveal_strlit("random.choice");
    assert("random.choice"@.len() == 13);
    assert("random.choice"@[0] == 'r');
    reveal_strlit("random.shuffle");
    assert("random.shuffle"@.len() == 14);
    assert("random.shuffle"@[0] == 'r');
    assert("random.shuffle"@[7] == 's');
    reveal_strlit("uuid.new");
    assert("uuid.new"@.len() == 8);
    reveal_strlit("encoding.base64_encode");
    assert("encoding.base64_encode"@.len() == 22);
    assert("encoding.base64_encode"@[16] == 'e');
    reveal_strlit("encoding.base64_decode");
    assert("encoding.base64_decode"@.len() == 22);
    assert("encoding.base64_decode"@[16] == 'd');
    reveal_strlit("encoding.hex_encode");
    assert("encoding.hex_encode"@.len() == 19);
    assert("encoding.hex_encode"@[0] == 'e');
    assert("encoding.hex_encode"@[9] == 'h');
    assert("encoding.hex_encode"@[13] == 'e');
    reveal_strlit("encoding.hex_decode");
    assert("encoding.hex_decode"@.len() == 19);
    assert("encoding.hex_decode"@[0] == 'e');
    assert("encoding.hex_decode"@[9] == 'h');
    assert("encoding.hex_decode"@[13] == 'd');
    reveal_strlit("encoding.url_encode");
    assert("encoding.url_encode"@.len() == 19);
    assert("encoding.url_encode"@[0] == 'e');
    assert("encoding.url_encode"@[9] == 'u');
    assert("encoding.url_encode"@[13] == 'e');
    reveal_strlit("encoding.url_decode");
    assert("encoding.url_decode"@.len() == 19);
    assert("encoding.url_decode"@[0] == 'e');
    assert("encoding.url_decode"@[9] == 'u');
    assert("encoding.url_decode"@[13] == 'd');
    reveal_strlit("crypto.sha256");
    assert("crypto.sha256"@.len() == 13);
    assert("crypto.sha256"@[0] == 'c');
    assert("crypto.sha256"@[1] == 'r');
    reveal_strlit("crypto.md5");
    assert("crypto.md5"@.len() == 10);
    assert("crypto.md5"@[0] == 'c');
    reveal_strlit("time.now_ms");
    assert("time.now_ms"@.len() == 11);
    assert("time.now_ms"@[0] == 't');
    reveal_strlit("time.now_s");
    assert("time.now_s"@.len() == 10);
    assert("time.now_s"@[0] == 't');
    reveal_strlit("os.args");
    assert("os.args"@.len() == 7);
    reveal_strlit("os.env");
    assert("os.env"@.len() == 6);
    reveal_strlit("csv.parse");
    assert("csv.parse"@.len() == 9);
    reveal_strlit("csv.stringify");
    assert("csv.stringify"@.len() == 13);
    assert("csv.stringify"@[0] == 'c');
    assert("csv.stringify"@[1] == 's');
    reveal_strlit("csv.parse_with_header");
    assert("csv.parse_with_header"@.len() == 21);
    assert("csv.parse_with_header"@[0] == 'c');
    assert("int64.from_string"@[0] == 'i');
    assert("int64.from_string"@[1] == 'n');
    assert("int64.from_string"@[2] == 't');
    assert("int64.from_string"@[3] == '6');
    assert("int64.from_string"@[4] == '4');
    assert("uint64.from_string"@[0] == 'u');
    assert("uint64.from_string"@[1] == 'i');
    assert("uint64.from_string"@[2] == 'n');
    assert("uint64.from_string"@[3] == 't');
    assert("uint64.from_string"@[4] == '6');
    assert("float64.from_string"@[0] == 'f');
    assert("float64.from_string"@[1] == 'l');
    assert("float64.from_string"@[2] == 'o');
    assert("float64.from_string"@[3] == 'a');
    assert("float64.from_string"@[4] == 't');
    assert("float64.from_int64"@[0] == 'f');
    assert("float64.from_int64"@[1] == 'l');
    assert("float64.from_int64"@[2] == 'o');
    assert("float64.from_int64"@[3] == 'a');
    assert("float64.from_int64"@[4] == 't');
    assert("Environment.args"@[0] == 'E');
    assert("Environment.args"@[1] == 'n');
    assert("Environment.args"@[2] == 'v');
    assert("Environment.args"@[3] == 'i');
    assert("Environment.args"@[4] == 'r');
    assert("Filesystem.read_file"@[0] == 'F');
    assert("Filesystem.read_file"@[1] == 'i');
    assert("Filesystem.read_file"@[2] == 'l');
    assert("Filesystem.read_file"@[3] == 'e');
    assert("Filesystem.read_file"@[4] == 's');
    assert("Filesystem.write_file"@[0] == 'F');
    assert("Filesystem.write_file"@[1] == 'i');
    assert("Filesystem.write_file"@[2] == 'l');
    assert("Filesystem.write_file"@[3] == 'e');
    assert("Filesystem.write_file"@[4] == 's');
    assert("Stdout.write"@[0] == 'S');
    assert("Stdout.write"@[1] == 't');
    assert("Stdout.write"@[2] == 'd');
    assert("Stdout.write"@[3] == 'o');
    assert("Stdout.write"@[4] == 'u');
    assert("json.parse"@[0] == 'j');
    assert("json.parse"@[1] == 's');
    assert("json.parse"@[2] == 'o');
    assert("json.parse"@[3] == 'n');
    assert("json.parse"@[4] == '.');
    assert("json.parse_exact"@[0] == 'j');
    assert("json.parse_exact"@[1] == 's');
    assert("json.parse_exact"@[2] == 'o');
    assert("json.parse_exact"@[3] == 'n');
    assert("json.parse_exact"@[4] == '.');
    assert("json.serialize"@[0] == 'j');
    assert("json.serialize"@[1] == 's');
    assert("json.serialize"@[2] == 'o');
    assert("json.serialize"@[3] == 'n');
    assert("json.serialize"@[4] == '.');
    assert("json.serialize_public"@[0] == 'j');
    assert("json.serialize_public"@[1] == 's');
    assert("json.serialize_public"@[2] == 'o');
    assert("json.serialize_public"@[3] == 'n');
    assert("json.serialize_public"@[4] == '.');
    assert("secret.redact"@[0] == 's');
    assert("secret.redact"@[1] == 'e');
    assert("secret.redact"@[2] == 'c');
    assert("secret.redact"@[3] == 'r');
    assert("secret.redact"@[4] == 'e');
    assert("secret.compare"@[0] == 's');
    assert("secret.compare"@[1] == 'e');
    assert("secret.compare"@[2] == 'c');
    assert("secret.compare"@[3] == 'r');
    assert("secret.compare"@[4] == 'e');
    assert("random.int64"@[0] == 'r');
    assert("random.int64"@[1] == 'a');
    assert("random.int64"@[2] == 'n');
    assert("random.int64"@[3] == 'd');
    assert("random.int64"@[4] == 'o');
    assert("random.float64"@[0] == 'r');
    assert("random.float64"@[1] == 'a');
    assert("random.float64"@[2] == 'n');
    assert("random.float64"@[3] == 'd');
    assert("random.float64"@[4] == 'o');
    assert("random.bool"@[0] == 'r');
    assert("random.bool"@[1] == 'a');
    assert("random.bool"@[2] == 'n');
    assert("random.bool"@[3] == 'd');
    assert("random.bool"@[4] == 'o');
    assert("random.choice"@[0] == 'r');
    assert("random.choice"@[1] == 'a');
    assert("random.choice"@[2] == 'n');
    assert("random.choice"@[3] == 'd');
    assert("random.choice"@[4] == 'o');
    assert("random.shuffle"@[0] == 'r');
    assert("random.shuffle"@[1] == 'a');
    assert("random.shuffle"@[2] == 'n');
    assert("random.shuffle"@[3] == 'd');
    assert("random.shuffle"@[4] == 'o');
    assert("uuid.new"@[0] == 'u');
    assert("uuid.new"@[1] == 'u');
    assert("uuid.new"@[2] == 'i');
    assert("uuid.new"@[3] == 'd');
    assert("uuid.new"@[4] == '.');
    assert("encoding.base64_encode"@[0] == 'e');
    assert("encoding.base64_encode"@[1] == 'n');
    assert("encoding.base64_encode"@[2] == 'c');
    assert("encoding.base64_encode"@[3] == 'o');
    assert("encoding.base64_encode"@[4] == 'd');
    assert("encoding.base64_decode"@[0] == 'e');
    assert("encoding.base64_decode"@[1] == 'n');
    assert("encoding.base64_decode"@[2] == 'c');
    assert("encoding.base64_decode"@[3] == 'o');
    assert("encoding.base64_decode"@[4] == 'd');
    assert("encoding.hex_encode"@[0] == 'e');
    assert("encoding.hex_encode"@[1] == 'n');
    assert("encoding.hex_encode"@[2] == 'c');
    assert("encoding.hex_encode"@[3] == 'o');
    assert("encoding.hex_encode"@[4] == 'd');
    assert("encoding.hex_decode"@[0] == 'e');
    assert("encoding.hex_decode"@[1] == 'n');
    assert("encoding.hex_decode"@[2] == 'c');
    assert("encoding.hex_decode"@[3] == 'o');
    assert("encoding.hex_decode"@[4] == 'd');
    assert("encoding.url_encode"@[0] == 'e');
    assert("encoding.url_encode"@[1] == 'n');
    assert("encoding.url_encode"@[2] == 'c');
    assert("encoding.url_encode"@[3] == 'o');
    assert("encoding.url_encode"@[4] == 'd');
    assert("encoding.url_decode"@[0] == 'e');
    assert("encoding.url_decode"@[1] == 'n');
    assert("encoding.url_decode"@[2] == 'c');
    assert("encoding.url_decode"@[3] == 'o');
    assert("encoding.url_decode"@[4] == 'd');
    assert("crypto.sha256"@[0] == 'c');
    assert("crypto.sha256"@[1] == 'r');
    assert("crypto.sha256"@[2] == 'y');
    assert("crypto.sha256"@[3] == 'p');
    assert("crypto.sha256"@[4] == 't');
    assert("crypto.md5"@[0] == 'c');
    assert("crypto.md5"@[1] == 'r');
    assert("crypto.md5"@[2] == 'y');
    assert("crypto.md5"@[3] == 'p');
    assert("crypto.md5"@[4] == 't');
    assert("time.now_ms"@[0] == 't');
    assert("time.now_ms"@[1] == 'i');
    assert("time.now_ms"@[2] == 'm');
    assert("time.now_ms"@[3] == 'e');
    assert("time.now_ms"@[4] == '.');
    assert("time.now_s"@[0] == 't');
    assert("time.now_s"@[1] == 'i');
    assert("time.now_s"@[2] == 'm');
    assert("time.now_s"@[3] == 'e');
    assert("time.now_s"@[4] == '.');
    assert("os.args"@[0] == 'o');
    assert("os.args"@[1] == 's');
    assert("os.args"@[2] == '.');
    assert("os.args"@[3] == 'a');
    assert("os.args"@[4] == 'r');
    assert("os.env"@[0] == 'o');
    assert("os.env"@[1] == 's');
    assert("os.env"@[2] == '.');
    assert("os.env"@[3] == 'e');
    assert("os.env"@[4] == 'n');
    assert("csv.parse"@[0] == 'c');
    assert("csv.parse"@[1] == 's');
    assert("csv.parse"@[2] == 'v');
    assert("csv.parse"@[3] == '.');
    assert("csv.parse"@[4] == 'p');
    assert("csv.stringify"@[0] == 'c');
    assert("csv.stringify"@[1] == 's');
    assert("csv.stringify"@[2] == 'v');
    assert("csv.stringify"@[3] == '.');
    assert("csv.stringify"@[4] == 's');
    assert("csv.parse_with_header"@[0] == 'c');
    assert("csv.parse_with_header"@[1] == 's');
    assert("csv.parse_with_header"@[2] == 'v');
    assert("csv.parse_with_header"@[3] == '.');
    assert("csv.parse_with_header"@[4] == 'p');
}

proof fn int64_from_string_form(c: BuiltinCall, name: Seq<char>)
    requires
        in_order(c),
        name == "int64.from_string"@,
    ensures
        takes_and_gives(c, name, seq![0nat], seq![string()], result(int64(), string())),
{
    reveal(takes_and_gives);
    reveal(takes_and_gives_of);
    reveal(otherwise_takes);
    other_table(name);
    let b = plain(Params::P1(Shape::One(Simple::String)), Shape::Result(Simple::Int64, Simple::String));
    builtin_does(c, name, b);
    counted(b.arity, c.type_args.len());
    let params: Seq<Form> = seq![string()];
    if counts_of(b.arity).contains(c.type_args.len()) {
        assert(params_forms(b.params, args_in(c, b.arity)) =~= params);
    }
}

proof fn uint64_from_string_form(c: BuiltinCall, name: Seq<char>)
    requires
        in_order(c),
        name == "uint64.from_string"@,
    ensures
        takes_and_gives(c, name, seq![0nat], seq![string()], result(uint64(), string())),
{
    reveal(takes_and_gives);
    reveal(takes_and_gives_of);
    reveal(otherwise_takes);
    other_table(name);
    let b = plain(Params::P1(Shape::One(Simple::String)), Shape::Result(Simple::Uint64, Simple::String));
    builtin_does(c, name, b);
    counted(b.arity, c.type_args.len());
    let params: Seq<Form> = seq![string()];
    if counts_of(b.arity).contains(c.type_args.len()) {
        assert(params_forms(b.params, args_in(c, b.arity)) =~= params);
    }
}

proof fn float64_from_string_form(c: BuiltinCall, name: Seq<char>)
    requires
        in_order(c),
        name == "float64.from_string"@,
    ensures
        takes_and_gives(c, name, seq![0nat], seq![string()], result(float64(), string())),
{
    reveal(takes_and_gives);
    reveal(takes_and_gives_of);
    reveal(otherwise_takes);
    other_table(name);
    let b = plain(Params::P1(Shape::One(Simple::String)), Shape::Result(Simple::Float64, Simple::String));
    builtin_does(c, name, b);
    counted(b.arity, c.type_args.len());
    let params: Seq<Form> = seq![string()];
    if counts_of(b.arity).contains(c.type_args.len()) {
        assert(params_forms(b.params, args_in(c, b.arity)) =~= params);
    }
}

proof fn float64_from_int64_form(c: BuiltinCall, name: Seq<char>)
    requires
        in_order(c),
        name == "float64.from_int64"@,
    ensures
        takes_and_gives(c, name, seq![0nat], seq![int64()], float64()),
{
    reveal(takes_and_gives);
    reveal(takes_and_gives_of);
    reveal(otherwise_takes);
    other_table(name);
    let b = plain(Params::P1(Shape::One(Simple::Int64)), Shape::One(Simple::Float64));
    builtin_does(c, name, b);
    counted(b.arity, c.type_args.len());
    let params: Seq<Form> = seq![int64()];
    if counts_of(b.arity).contains(c.type_args.len()) {
        assert(params_forms(b.params, args_in(c, b.arity)) =~= params);
    }
}

proof fn environment_args_form(c: BuiltinCall, name: Seq<char>)
    requires
        in_order(c),
        name == "Environment.args"@,
    ensures
        takes_and_gives(c, name, seq![0nat], seq![any()], list(string())),
{
    reveal(takes_and_gives);
    reveal(takes_and_gives_of);
    reveal(otherwise_takes);
    other_table(name);
    let b = plain(Params::P1(Shape::One(Simple::Any)), Shape::List(Simple::String));
    builtin_does(c, name, b);
    counted(b.arity, c.type_args.len());
    let params: Seq<Form> = seq![any()];
    if counts_of(b.arity).contains(c.type_args.len()) {
        assert(params_forms(b.params, args_in(c, b.arity)) =~= params);
    }
}

proof fn filesystem_read_file_form(c: BuiltinCall, name: Seq<char>)
    requires
        in_order(c),
        name == "Filesystem.read_file"@,
    ensures
        takes_and_gives(c, name, seq![0nat], seq![any(), string()], result(string(), string())),
{
    reveal(takes_and_gives);
    reveal(takes_and_gives_of);
    reveal(otherwise_takes);
    other_table(name);
    let b = plain(Params::P2(Shape::One(Simple::Any), Shape::One(Simple::String)), Shape::Result(Simple::String, Simple::String));
    builtin_does(c, name, b);
    counted(b.arity, c.type_args.len());
    let params: Seq<Form> = seq![any(), string()];
    if counts_of(b.arity).contains(c.type_args.len()) {
        assert(params_forms(b.params, args_in(c, b.arity)) =~= params);
    }
}

proof fn filesystem_write_file_form(c: BuiltinCall, name: Seq<char>)
    requires
        in_order(c),
        name == "Filesystem.write_file"@,
    ensures
        takes_and_gives(
            c,
            name,
            seq![0nat],
            seq![any(), string(), string()],
            result(nothing(), string()),
        ),
{
    reveal(takes_and_gives);
    reveal(takes_and_gives_of);
    reveal(otherwise_takes);
    other_table(name);
    let b = plain(Params::P3(Shape::One(Simple::Any), Shape::One(Simple::String), Shape::One(Simple::String)), Shape::Result(Simple::Nothing, Simple::String));
    builtin_does(c, name, b);
    counted(b.arity, c.type_args.len());
    let params: Seq<Form> = seq![any(), string(), string()];
    if counts_of(b.arity).contains(c.type_args.len()) {
        assert(params_forms(b.params, args_in(c, b.arity)) =~= params);
    }
}

proof fn stdout_write_form(c: BuiltinCall, name: Seq<char>)
    requires
        in_order(c),
        name == "Stdout.write"@,
    ensures
        takes_and_gives(c, name, seq![0nat], seq![any(), string()], nothing()),
{
    reveal(takes_and_gives);
    reveal(takes_and_gives_of);
    reveal(otherwise_takes);
    other_table(name);
    let b = plain(Params::P2(Shape::One(Simple::Any), Shape::One(Simple::String)), Shape::One(Simple::Nothing));
    builtin_does(c, name, b);
    counted(b.arity, c.type_args.len());
    let params: Seq<Form> = seq![any(), string()];
    if counts_of(b.arity).contains(c.type_args.len()) {
        assert(params_forms(b.params, args_in(c, b.arity)) =~= params);
    }
}

proof fn json_parse_form(c: BuiltinCall, name: Seq<char>)
    requires
        in_order(c),
        name == "json.parse"@ || name == "json.parse_exact"@,
    ensures
        takes_and_gives(c, name, seq![1nat], seq![string()], result(given(c, 0), string())),
        otherwise_takes(c, name, 1, seq![string()]),
{
    reveal(takes_and_gives);
    reveal(takes_and_gives_of);
    reveal(otherwise_takes);
    other_table(name);
    let b = exact(Arity::One, Params::P1(Shape::One(Simple::String)), Shape::Result(Simple::A, Simple::String), Target::Any, Params::P1(Shape::One(Simple::String)));
    builtin_does(c, name, b);
    counted(b.arity, c.type_args.len());
    let params: Seq<Form> = seq![string()];
    if counts_of(b.arity).contains(c.type_args.len()) {
        assert(params_forms(b.params, args_in(c, b.arity)) =~= params);
    }
    let fallback: Seq<Form> = seq![string()];
    assert(params_forms(b.fallback, any_types()) =~= fallback);
}

proof fn json_serialize_form(c: BuiltinCall, name: Seq<char>)
    requires
        in_order(c),
        name == "json.serialize"@ || name == "json.serialize_public"@,
    ensures
        takes_and_gives(c, name, seq![1nat], seq![given(c, 0)], string()),
        otherwise_takes(c, name, 1, seq![any()]),
{
    reveal(takes_and_gives);
    reveal(takes_and_gives_of);
    reveal(otherwise_takes);
    other_table(name);
    let b = exact(Arity::One, Params::P1(Shape::One(Simple::A)), Shape::One(Simple::String), Target::Any, Params::P1(Shape::One(Simple::Any)));
    builtin_does(c, name, b);
    counted(b.arity, c.type_args.len());
    let params: Seq<Form> = seq![given(c, 0)];
    if counts_of(b.arity).contains(c.type_args.len()) {
        assert(params_forms(b.params, args_in(c, b.arity)) =~= params);
    }
    let fallback: Seq<Form> = seq![any()];
    assert(params_forms(b.fallback, any_types()) =~= fallback);
}

proof fn secret_redact_form(c: BuiltinCall, name: Seq<char>)
    requires
        in_order(c),
        name == "secret.redact"@,
    ensures
        takes_and_gives(c, name, seq![0nat], seq![secret(any())], string()),
{
    reveal(takes_and_gives);
    reveal(takes_and_gives_of);
    reveal(otherwise_takes);
    other_table(name);
    let b = plain(Params::P1(Shape::Secret(Simple::Any)), Shape::One(Simple::String));
    builtin_does(c, name, b);
    counted(b.arity, c.type_args.len());
    let params: Seq<Form> = seq![secret(any())];
    if counts_of(b.arity).contains(c.type_args.len()) {
        assert(params_forms(b.params, args_in(c, b.arity)) =~= params);
    }
}

proof fn secret_compare_form(c: BuiltinCall, name: Seq<char>)
    requires
        in_order(c),
        name == "secret.compare"@,
    ensures
        takes_and_gives(c, name, seq![0nat], seq![secret(any()), secret(any())], boolean()),
{
    reveal(takes_and_gives);
    reveal(takes_and_gives_of);
    reveal(otherwise_takes);
    other_table(name);
    let b = plain(Params::P2(Shape::Secret(Simple::Any), Shape::Secret(Simple::Any)), Shape::One(Simple::Bool));
    builtin_does(c, name, b);
    counted(b.arity, c.type_args.len());
    let params: Seq<Form> = seq![secret(any()), secret(any())];
    if counts_of(b.arity).contains(c.type_args.len()) {
        assert(params_forms(b.params, args_in(c, b.arity)) =~= params);
    }
}

proof fn random_int64_form(c: BuiltinCall, name: Seq<char>)
    requires
        in_order(c),
        name == "random.int64"@,
    ensures
        takes_and_gives(c, name, seq![0nat], seq![int64(), int64()], int64()),
{
    reveal(takes_and_gives);
    reveal(takes_and_gives_of);
    reveal(otherwise_takes);
    other_table(name);
    let b = plain(Params::P2(Shape::One(Simple::Int64), Shape::One(Simple::Int64)), Shape::One(Simple::Int64));
    builtin_does(c, name, b);
    counted(b.arity, c.type_args.len());
    let params: Seq<Form> = seq![int64(), int64()];
    if counts_of(b.arity).contains(c.type_args.len()) {
        assert(params_forms(b.params, args_in(c, b.arity)) =~= params);
    }
}

proof fn random_float64_form(c: BuiltinCall, name: Seq<char>)
    requires
        in_order(c),
        name == "random.float64"@,
    ensures
        takes_and_gives(c, name, seq![0nat], seq![], float64()),
{
    reveal(takes_and_gives);
    reveal(takes_and_gives_of);
    reveal(otherwise_takes);
    other_table(name);
    let b = plain(Params::P0, Shape::One(Simple::Float64));
    builtin_does(c, name, b);
    counted(b.arity, c.type_args.len());
    let params: Seq<Form> = seq![];
    if counts_of(b.arity).contains(c.type_args.len()) {
        assert(params_forms(b.params, args_in(c, b.arity)) =~= params);
    }
}

proof fn random_bool_form(c: BuiltinCall, name: Seq<char>)
    requires
        in_order(c),
        name == "random.bool"@,
    ensures
        takes_and_gives(c, name, seq![0nat], seq![], boolean()),
{
    reveal(takes_and_gives);
    reveal(takes_and_gives_of);
    reveal(otherwise_takes);
    other_table(name);
    let b = plain(Params::P0, Shape::One(Simple::Bool));
    builtin_does(c, name, b);
    counted(b.arity, c.type_args.len());
    let params: Seq<Form> = seq![];
    if counts_of(b.arity).contains(c.type_args.len()) {
        assert(params_forms(b.params, args_in(c, b.arity)) =~= params);
    }
}

proof fn random_choice_form(c: BuiltinCall, name: Seq<char>)
    requires
        in_order(c),
        name == "random.choice"@,
    ensures
        takes_and_gives(c, name, seq![0nat, 1nat], seq![list(given(c, 0))], optional(given(c, 0))),
{
    reveal(takes_and_gives);
    reveal(takes_and_gives_of);
    reveal(otherwise_takes);
    other_table(name);
    let b = of_types(Arity::UpToOne, Params::P1(Shape::List(Simple::A)), Shape::Optional(Simple::A));
    builtin_does(c, name, b);
    counted(b.arity, c.type_args.len());
    let params: Seq<Form> = seq![list(given(c, 0))];
    if counts_of(b.arity).contains(c.type_args.len()) {
        assert(params_forms(b.params, args_in(c, b.arity)) =~= params);
    }
}

proof fn random_shuffle_form(c: BuiltinCall, name: Seq<char>)
    requires
        in_order(c),
        name == "random.shuffle"@,
    ensures
        takes_and_gives(c, name, seq![0nat, 1nat], seq![list(given(c, 0))], list(given(c, 0))),
{
    reveal(takes_and_gives);
    reveal(takes_and_gives_of);
    reveal(otherwise_takes);
    other_table(name);
    let b = of_types(Arity::UpToOne, Params::P1(Shape::List(Simple::A)), Shape::List(Simple::A));
    builtin_does(c, name, b);
    counted(b.arity, c.type_args.len());
    let params: Seq<Form> = seq![list(given(c, 0))];
    if counts_of(b.arity).contains(c.type_args.len()) {
        assert(params_forms(b.params, args_in(c, b.arity)) =~= params);
    }
}

proof fn uuid_new_form(c: BuiltinCall, name: Seq<char>)
    requires
        in_order(c),
        name == "uuid.new"@,
    ensures
        takes_and_gives(c, name, seq![0nat], seq![], string()),
{
    reveal(takes_and_gives);
    reveal(takes_and_gives_of);
    reveal(otherwise_takes);
    other_table(name);
    let b = plain(Params::P0, Shape::One(Simple::String));
    builtin_does(c, name, b);
    counted(b.arity, c.type_args.len());
    let params: Seq<Form> = seq![];
    if counts_of(b.arity).contains(c.type_args.len()) {
        assert(params_forms(b.params, args_in(c, b.arity)) =~= params);
    }
}

proof fn encoding_base64_encode_form(c: BuiltinCall, name: Seq<char>)
    requires
        in_order(c),
        name == "encoding.base64_encode"@ || name == "encoding.base64_decode"@
            || name == "encoding.hex_encode"@ || name == "encoding.hex_decode"@
            || name == "encoding.url_encode"@ || name == "encoding.url_decode"@
            || name == "crypto.sha256"@ || name == "crypto.md5"@,
    ensures
        takes_and_gives(c, name, seq![0nat], seq![string()], string()),
{
    reveal(takes_and_gives);
    reveal(takes_and_gives_of);
    reveal(otherwise_takes);
    other_table(name);
    let b = plain(Params::P1(Shape::One(Simple::String)), Shape::One(Simple::String));
    builtin_does(c, name, b);
    counted(b.arity, c.type_args.len());
    let params: Seq<Form> = seq![string()];
    if counts_of(b.arity).contains(c.type_args.len()) {
        assert(params_forms(b.params, args_in(c, b.arity)) =~= params);
    }
}

proof fn time_now_ms_form(c: BuiltinCall, name: Seq<char>)
    requires
        in_order(c),
        name == "time.now_ms"@ || name == "time.now_s"@,
    ensures
        takes_and_gives(c, name, seq![0nat], seq![], int64()),
{
    reveal(takes_and_gives);
    reveal(takes_and_gives_of);
    reveal(otherwise_takes);
    other_table(name);
    let b = plain(Params::P0, Shape::One(Simple::Int64));
    builtin_does(c, name, b);
    counted(b.arity, c.type_args.len());
    let params: Seq<Form> = seq![];
    if counts_of(b.arity).contains(c.type_args.len()) {
        assert(params_forms(b.params, args_in(c, b.arity)) =~= params);
    }
}

proof fn os_args_form(c: BuiltinCall, name: Seq<char>)
    requires
        in_order(c),
        name == "os.args"@,
    ensures
        takes_and_gives(c, name, seq![0nat], seq![], list(string())),
{
    reveal(takes_and_gives);
    reveal(takes_and_gives_of);
    reveal(otherwise_takes);
    other_table(name);
    let b = plain(Params::P0, Shape::List(Simple::String));
    builtin_does(c, name, b);
    counted(b.arity, c.type_args.len());
    let params: Seq<Form> = seq![];
    if counts_of(b.arity).contains(c.type_args.len()) {
        assert(params_forms(b.params, args_in(c, b.arity)) =~= params);
    }
}

proof fn os_env_form(c: BuiltinCall, name: Seq<char>)
    requires
        in_order(c),
        name == "os.env"@,
    ensures
        takes_and_gives(c, name, seq![0nat], seq![string()], optional(string())),
{
    reveal(takes_and_gives);
    reveal(takes_and_gives_of);
    reveal(otherwise_takes);
    other_table(name);
    let b = plain(Params::P1(Shape::One(Simple::String)), Shape::Optional(Simple::String));
    builtin_does(c, name, b);
    counted(b.arity, c.type_args.len());
    let params: Seq<Form> = seq![string()];
    if counts_of(b.arity).contains(c.type_args.len()) {
        assert(params_forms(b.params, args_in(c, b.arity)) =~= params);
    }
}

proof fn csv_parse_form(c: BuiltinCall, name: Seq<char>)
    requires
        in_order(c),
        name == "csv.parse"@,
    ensures
        takes_and_gives(c, name, seq![0nat], seq![string()], list(list(string()))),
{
    reveal(takes_and_gives);
    reveal(takes_and_gives_of);
    reveal(otherwise_takes);
    other_table(name);
    let b = plain(Params::P1(Shape::One(Simple::String)), Shape::ListOfLists(Simple::String));
    builtin_does(c, name, b);
    counted(b.arity, c.type_args.len());
    let params: Seq<Form> = seq![string()];
    if counts_of(b.arity).contains(c.type_args.len()) {
        assert(params_forms(b.params, args_in(c, b.arity)) =~= params);
    }
}

proof fn csv_stringify_form(c: BuiltinCall, name: Seq<char>)
    requires
        in_order(c),
        name == "csv.stringify"@,
    ensures
        takes_and_gives(c, name, seq![0nat], seq![list(list(string()))], string()),
{
    reveal(takes_and_gives);
    reveal(takes_and_gives_of);
    reveal(otherwise_takes);
    other_table(name);
    let b = plain(Params::P1(Shape::ListOfLists(Simple::String)), Shape::One(Simple::String));
    builtin_does(c, name, b);
    counted(b.arity, c.type_args.len());
    let params: Seq<Form> = seq![list(list(string()))];
    if counts_of(b.arity).contains(c.type_args.len()) {
        assert(params_forms(b.params, args_in(c, b.arity)) =~= params);
    }
}

proof fn csv_parse_with_header_form(c: BuiltinCall, name: Seq<char>)
    requires
        in_order(c),
        name == "csv.parse_with_header"@,
    ensures
        takes_and_gives(c, name, seq![0nat], seq![string()], list(map_of(string(), string()))),
{
    reveal(takes_and_gives);
    reveal(takes_and_gives_of);
    reveal(otherwise_takes);
    other_table(name);
    let b = plain(Params::P1(Shape::One(Simple::String)), Shape::ListOfMaps(Simple::String, Simple::String));
    builtin_does(c, name, b);
    counted(b.arity, c.type_args.len());
    let params: Seq<Form> = seq![string()];
    if counts_of(b.arity).contains(c.type_args.len()) {
        assert(params_forms(b.params, args_in(c, b.arity)) =~= params);
    }
}

/// What the builtin functions on everything else take and give.
pub proof fn law_other_builtins(c: BuiltinCall, name: Seq<char>)
    requires
        in_order(c),
    ensures
        name == "int64.from_string"@ ==> takes_and_gives(c, name, seq![0nat], seq![string()], result(int64(), string())),
        name == "uint64.from_string"@ ==> takes_and_gives(c, name, seq![0nat], seq![string()], result(uint64(), string())),
        name == "float64.from_string"@ ==> takes_and_gives(c, name, seq![0nat], seq![string()], result(float64(), string())),
        name == "float64.from_int64"@ ==> takes_and_gives(c, name, seq![0nat], seq![int64()], float64()),
        name == "Environment.args"@ ==> takes_and_gives(c, name, seq![0nat], seq![any()], list(string())),
        name == "Filesystem.read_file"@ ==> takes_and_gives(c, name, seq![0nat], seq![any(), string()], result(string(), string())),
        name == "Filesystem.write_file"@ ==> takes_and_gives(
            c,
            name,
            seq![0nat],
            seq![any(), string(), string()],
            result(nothing(), string()),
        ),
        name == "Stdout.write"@ ==> takes_and_gives(c, name, seq![0nat], seq![any(), string()], nothing()),
        name == "json.parse"@ || name == "json.parse_exact"@ ==> takes_and_gives(c, name, seq![1nat], seq![string()], result(given(c, 0), string())),
        name == "json.parse"@ || name == "json.parse_exact"@ ==> otherwise_takes(c, name, 1, seq![string()]),
        name == "json.serialize"@ || name == "json.serialize_public"@ ==> takes_and_gives(c, name, seq![1nat], seq![given(c, 0)], string()),
        name == "json.serialize"@ || name == "json.serialize_public"@ ==> otherwise_takes(c, name, 1, seq![any()]),
        name == "secret.redact"@ ==> takes_and_gives(c, name, seq![0nat], seq![secret(any())], string()),
        name == "secret.compare"@ ==> takes_and_gives(c, name, seq![0nat], seq![secret(any()), secret(any())], boolean()),
        name == "random.int64"@ ==> takes_and_gives(c, name, seq![0nat], seq![int64(), int64()], int64()),
        name == "random.float64"@ ==> takes_and_gives(c, name, seq![0nat], seq![], float64()),
        name == "random.bool"@ ==> takes_and_gives(c, name, seq![0nat], seq![], boolean()),
        name == "random.choice"@ ==> takes_and_gives(c, name, seq![0nat, 1nat], seq![list(given(c, 0))], optional(given(c, 0))),
        name == "random.shuffle"@ ==> takes_and_gives(c, name, seq![0nat, 1nat], seq![list(given(c, 0))], list(given(c, 0))),
        name == "uuid.new"@ ==> takes_and_gives(c, name, seq![0nat], seq![], string()),
        name == "encoding.base64_encode"@ || name == "encoding.base64_decode"@
            || name == "encoding.hex_encode"@ || name == "encoding.hex_decode"@
            || name == "encoding.url_encode"@ || name == "encoding.url_decode"@
            || name == "crypto.sha256"@ || name == "crypto.md5"@ ==> takes_and_gives(c, name, seq![0nat], seq![string()], string()),
        name == "time.now_ms"@ || name == "time.now_s"@ ==> takes_and_gives(c, name, seq![0nat], seq![], int64()),
        name == "os.args"@ ==> takes_and_gives(c, name, seq![0nat], seq![], list(string())),
        name == "os.env"@ ==> takes_and_gives(c, name, seq![0nat], seq![string()], optional(string())),
        name == "csv.parse"@ ==> takes_and_gives(c, name, seq![0nat], seq![string()], list(list(string()))),
        name == "csv.stringify"@ ==> takes_and_gives(c, name, seq![0nat], seq![list(list(string()))], string()),
        name == "csv.parse_with_header"@ ==> takes_and_gives(c, name, seq![0nat], seq![string()], list(map_of(string(), string()))),
{
    if name == "int64.from_string"@ {
        int64_from_string_form(c, name);
    }
    if name == "uint64.from_string"@ {
        uint64_from_string_form(c, name);
    }
    if name == "float64.from_string"@ {
        float64_from_string_form(c, name);
    }
    if name == "float64.from_int64"@ {
        float64_from_int64_form(c, name);
    }
    if name == "Environment.args"@ {
        environment_args_form(c, name);
    }
    if name == "Filesystem.read_file"@ {
        filesystem_read_file_form(c, name);
    }
    if name == "Filesystem.write_file"@ {
        filesystem_write_file_form(c, name);
    }
    if name == "Stdout.write"@ {
        stdout_write_form(c, name);
    }
    if name == "json.parse"@ || name == "json.parse_exact"@ {
        json_parse_form(c, name);
    }
    if name == "json.serialize"@ || name == "json.serialize_public"@ {
        json_serialize_form(c, name);
    }
    if name == "secret.redact"@ {
        secret_redact_form(c, name);
    }
    if name == "secret.compare"@ {
        secret_compare_form(c, name);
    }
    if name == "random.int64"@ {
        random_int64_form(c, name);
    }
    if name == "random.float64"@ {
        random_float64_form(c, name);
    }
    if name == "random.bool"@ {
        random_bool_form(c, name);
    }
    if name == "random.choice"@ {
        random_choice_form(c, name);
    }
    if name == "random.shuffle"@ {
        random_shuffle_form(c, name);
    }
    if name == "uuid.new"@ {
        uuid_new_form(c, name);
    }
    if name == "encoding.base64_encode"@ || name == "encoding.base64_decode"@
        || name == "encoding.hex_encode"@ || name == "encoding.hex_decode"@
        || name == "encoding.url_encode"@ || name == "encoding.url_decode"@
        || name == "crypto.sha256"@ || name == "crypto.md5"@ {
        encoding_base64_encode_form(c, name);
    }
    if name == "time.now_ms"@ || name == "time.now_s"@ {
        time_now_ms_form(c, name);
    }
    if name == "os.args"@ {
        os_args_form(c, name);
    }
    if name == "os.env"@ {
        os_env_form(c, name);
    }
    if name == "csv.parse"@ {
        csv_parse_form(c, name);
    }
    if name == "csv.stringify"@ {
        csv_stringify_form(c, name);
    }
    if name == "csv.parse_with_header"@ {
        csv_parse_with_header_form(c, name);
    }
}

} // verus!
