//! Calls, and the functions that they go to.
use vstd::prelude::*;

use crate::ast::{expr_span, CallArg, Expr, FunctionDef, Ident, TypeExpr};
use crate::builtin_calls::{builtin_signature, maybe_shape, wrong_type_args};
use crate::check_blocks::{check_block, declare_params};
use crate::check_construct::{
    bitfield_constructor, machine_constructor, struct_constructor, transition_call,
};
use crate::check_exprs::{check_expected, check_expr, each_arg};
use crate::check_rules::{
    argument, call_result, callee_pure, compare_report, expect_argument, expect_type, json_policy,
    math_base, place_label, place_text, purity_reports, report1, report2, report3,
    transition_owner, wrong_argument_count,
};
use crate::diagnostics::{args4, error, Diagnostic, ErrorCode};
use crate::facts::{no_facts, ParamFacts, ReflectionBranchContext, ReflectionParamFacts};
use crate::names::{expanded_name, expr_name, pure_params};
use crate::reflection_use::{block_settles, block_uses, type_params_of};
use crate::resolve_types::{apply_name, bind_type_params, known_bindings, wrong_count_text};
use crate::span::Span;
use crate::state::{
    intern_type, report, with_types, without_last, Context, ContextV, Instance, InstanceV, State,
    TypeChecker,
};
use crate::static_eval::{argument_facts, param_scope, written_kind};
use crate::steady::{
    grows, has, has_all, has_shape, has_values, keeps, keeps_around, keeps_instances, keeps_scopes, known,
    known_after, known_scopes, stays,
};
use crate::table::{look, views, Dup, Table};
use crate::text::{decimal, decimal_text, join2, maybe_text, same_text, text};
use crate::type_names::name_of;
use crate::type_rules::{compatible, wrap_secret};
use crate::types::{
    dup_ids, same_ids, ty, FunctionShape, FunctionShapeV, Type, TypeId, TypeInterner,
};
use crate::written_types::{
    applied_name, bind_params, nesting, resolve_param_ids, resolve_return, resolve_types, struct_at,
    unknown_type, wrong_count,
};

verus! {

broadcast use crate::steady::group_steady;

// ---------------------------------------------------------------------------
// The parts of a call
// ---------------------------------------------------------------------------

pub open spec fn is_call(e: Expr) -> bool {
    e is Call || e is GenericCall
}

pub open spec fn callee_of(e: Expr) -> Expr {
    match e {
        Expr::Call(callee, _, _) => *callee,
        Expr::GenericCall(callee, _, _, _) => *callee,
        _ => e,
    }
}

pub open spec fn type_args_of(e: Expr) -> Seq<TypeExpr> {
    match e {
        Expr::GenericCall(_, type_args, _, _) => type_args@,
        _ => Seq::empty(),
    }
}

pub open spec fn args_of(e: Expr) -> Vec<CallArg> {
    match e {
        Expr::Call(_, args, _) => args,
        Expr::GenericCall(_, _, args, _) => args,
        _ => arbitrary(),
    }
}

// ---------------------------------------------------------------------------
// Functions
// ---------------------------------------------------------------------------

/// The body of a function under the types of its parameters.
pub open spec fn function_body(s: State, f: FunctionDef, name: Seq<char>, d: nat) -> State
    decreases 3 * d + 2, f, 0nat,
{
    let (s1, ret) = resolve_return(s, f.return_type);
    let s2 = State {
        context: ContextV {
            return_type: Some(ret),
            function_name: Some(name),
            function_pure: pure_params(s1.names, f.params@),
            ..s1.context
        },
        ..s1
    };
    let s3 = declare_params(s2, f.params@, 0);
    let s4 = check_block(s3, f.body, d);
    State {
        context: ContextV {
            return_type: None,
            function_name: None,
            function_pure: false,
            ..s4.context
        },
        ..s4
    }
}

/// The kinds of the type arguments, in the order of the parameters from `i` on.
pub open spec fn kind_key(
    params: Seq<Ident>,
    kinds: Map<Seq<char>, Seq<char>>,
    i: nat,
    found: Seq<Seq<char>>,
) -> Seq<Seq<char>>
    decreases params.len() - i,
{
    if i >= params.len() {
        found
    } else {
        let kind = match look(kinds, params[i as int].name@) {
            Some(k) => k,
            None => "unknown_type"@,
        };
        kind_key(params, kinds, i + 1, found.push(kind))
    }
}

/// The kinds of written type arguments, by type parameter.
pub open spec fn bind_kinds(
    s: State,
    m: Map<Seq<char>, Seq<char>>,
    params: Seq<Ident>,
    type_args: Seq<TypeExpr>,
    ids: Seq<TypeId>,
    i: nat,
) -> Map<Seq<char>, Seq<char>>
    decreases params.len() - i,
{
    if i >= params.len() || i >= type_args.len() || i >= ids.len() {
        m
    } else {
        bind_kinds(
            s,
            m.insert(
                params[i as int].name@,
                written_kind(s, type_args[i as int], ids[i as int]),
            ),
            params,
            type_args,
            ids,
            i + 1,
        )
    }
}

/// A generic function with what it is called for.
pub struct Generic {
    pub name: Seq<char>,
    pub args: Seq<TypeId>,
    pub subst: Map<Seq<char>, TypeId>,
    pub kinds: Map<Seq<char>, Seq<char>>,
    pub facts: ParamFacts,
}

/// Whether the body looks at its type parameters in ways that calls can settle.
#[verifier::opaque]
pub open spec fn settles_reflection(s: State, f: FunctionDef) -> bool {
    block_settles(s.names, f.body, type_params_of(f), ReflectionBranchContext::TopLevel)
}

#[verifier::opaque]
pub open spec fn looks_at_params(s: State, f: FunctionDef) -> bool {
    block_uses(s.names, f.body, type_params_of(f))
}

#[verifier::opaque]
pub open spec fn instance_of(f: FunctionDef, g: Generic) -> InstanceV {
    InstanceV {
        name: g.name,
        args: g.args,
        kinds: kind_key(f.type_params@, g.kinds, 0, Seq::empty()),
        facts: g.facts,
    }
}

/// Where the body of a generic function starts.
#[verifier::opaque]
pub open spec fn enter_instance(s: State, f: FunctionDef, g: Generic) -> State {
    State {
        instances: s.instances.push(instance_of(f, g)),
        subst: g.subst,
        kind_tags: g.kinds,
        context: ContextV {
            in_verify: false,
            in_property: false,
            verify_name: None,
            in_handle: false,
            respond_type: None,
            specialize: looks_at_params(s, f) || g.facts != no_facts(),
            ..s.context
        },
        facts: s.facts.push(param_scope(s.names, f.params@, g.facts)),
        ..s
    }
}

/// Whether `d` more instances are all that can be entered: they are kept in a list, and
/// the length of a list fits in `usize`. So a depth of none is never met, and nothing is
/// said of it.
pub open spec fn can_enter(s: State, d: nat) -> bool {
    d + s.instances.len() >= usize::MAX
}

/// Checks the body of a generic function for its type arguments, once for each
/// set of them. Nothing changes around the call. `d` is how many more instances can be
/// entered.
pub open spec fn instantiate(s: State, f: FunctionDef, g: Generic, d: nat) -> State
    decreases 3 * d, f, 0nat,
{
    if looks_at_params(s, f) && !settles_reflection(s, f) {
        s
    } else if s.instances.contains(instance_of(f, g)) {
        s
    } else if d == 0 {
        arbitrary()
    } else {
        let s1 = function_body(
            enter_instance(s, f, g),
            f,
            applied_name(s.types, g.name, g.args),
            (d - 1) as nat,
        );
        State {
            subst: s.subst,
            kind_tags: s.kind_tags,
            context: s.context,
            facts: without_last(s1.facts),
            ..s1
        }
    }
}

/// The parameters and result of a generic function under its type arguments.
#[verifier::opaque]
pub open spec fn generic_signature(s: State, f: FunctionDef, subst: Map<Seq<char>, TypeId>) -> (
    State,
    FunctionShapeV,
) {
    let (s1, params) = resolve_param_ids(State { subst, ..s }, f.params@, 0, Seq::empty());
    let (s2, return_type) = resolve_return(s1, f.return_type);
    (State { subst: s.subst, ..s2 }, FunctionShapeV { params, return_type })
}

pub open spec fn type_param_count(s: State, name: Seq<char>, expected: nat, got: nat, span: Span) -> State {
    unknown_type(s, wrong_count(name, decimal(expected) + " type argument(s)"@, got), span)
}

/// The arguments from `i` on against their parameters.
pub open spec fn args_match(
    s: State,
    args: Vec<CallArg>,
    params: Seq<TypeId>,
    skip: nat,
    i: nat,
    fits: bool,
    d: nat,
) -> (State, bool)
    decreases 3 * d + 1, args, args@.len() - i,
{
    if i >= args@.len() || i + skip >= params.len() {
        (s, fits)
    } else {
        let expected = params[(i + skip) as int];
        let value = args@[i as int].value;
        let (s1, got) = check_expected(s, value, expected, false, d);
        args_match(
            expect_type(s1, expected, got, expr_span(value)),
            args,
            params,
            skip,
            i + 1,
            fits && compatible(s1.types, s1.impls, expected, got),
            d,
        )
    }
}

/// `name[T](args)`
pub open spec fn generic_call(
    s: State,
    name: Seq<char>,
    f: FunctionDef,
    type_args: Seq<TypeExpr>,
    args: Vec<CallArg>,
    span: Span,
    d: nat,
) -> (State, TypeId)
    decreases 3 * d + 1, args, args@.len() + 3,
{
    let (s1, ids) = resolve_types(s, type_args, 0, Seq::empty());
    if f.type_params@.len() != ids.len() {
        (type_param_count(s1, name, f.type_params@.len(), ids.len(), span), TypeInterner::ERROR)
    } else {
        let subst = bind_params(Map::empty(), f.type_params@, ids, 0);
        let kinds = bind_kinds(s1, Map::empty(), f.type_params@, type_args, ids, 0);
        let (s2, sig) = generic_signature(s1, f, subst);
        if args@.len() != sig.params.len() {
            (
                each_arg(
                    wrong_argument_count(s2, name, sig.params.len(), args@.len(), span),
                    args,
                    0,
                    d,
                ),
                TypeInterner::ERROR,
            )
        } else {
            let (s3, fits) = args_match(s2, args, sig.params, 0, 0, true, d);
            if fits {
                let (s4, facts) = argument_facts(s3, f.params@, sig.params, args@, 0, no_facts());
                (
                    instantiate(s4, f, Generic { name, args: ids, subst, kinds, facts }, d),
                    sig.return_type,
                )
            } else {
                (s3, sig.return_type)
            }
        }
    }
}

// ---------------------------------------------------------------------------
// Builtins with rules of their own
// ---------------------------------------------------------------------------

pub open spec fn expect_no_types(s: State, name: Seq<char>, type_args: Seq<TypeExpr>, span: Span) -> State {
    if type_args.len() == 0 {
        s
    } else {
        wrong_type_args(s, name, "0 type arguments"@, type_args, span)
    }
}

pub open spec fn same_typed_args(
    s: State,
    label: Seq<char>,
    expected: TypeId,
    args: Vec<CallArg>,
    i: nat,
    d: nat,
) -> State
    decreases 3 * d + 1, args, args@.len() - i,
{
    if i >= args@.len() {
        s
    } else {
        let value = args@[i as int].value;
        let (s1, got) = check_expected(s, value, expected, false, d);
        same_typed_args(
            expect_argument(s1, label, expected, got, expr_span(value)),
            label,
            expected,
            args,
            i + 1,
            d,
        )
    }
}

pub open spec fn range_call(
    s: State,
    name: Seq<char>,
    type_args: Seq<TypeExpr>,
    args: Vec<CallArg>,
    span: Span,
    d: nat,
) -> (State, TypeId)
    decreases 3 * d + 1, args, args@.len() + 3,
{
    let (s1, list) = intern_type(
        expect_no_types(s, name, type_args, span),
        Type::List(TypeInterner::INT64),
    );
    if args@.len() == 0 || args@.len() > 3 {
        let s2 = report(
            s1,
            error(
                ErrorCode::ArgumentCountRangeMismatch,
                span,
                seq![name, decimal(1), decimal(3), decimal(args@.len())],
            ),
        );
        (each_arg(s2, args, 0, d), list)
    } else {
        (same_typed_args(s1, name + " argument"@, TypeInterner::INT64, args, 0, d), list)
    }
}

/// Nothing secret is printed.
pub open spec fn printed_args(s: State, name: Seq<char>, args: Vec<CallArg>, i: nat, d: nat) -> State
    decreases 3 * d + 1, args, args@.len() - i,
{
    if i >= args@.len() {
        s
    } else {
        let value = args@[i as int].value;
        let (s1, got) = check_expr(s, value, d);
        let s2 = if ty(s1.types, got) is Secret {
            report2(
                s1,
                ErrorCode::SecretExposure,
                expr_span(value),
                name,
                name_of(s1.types, got),
            )
        } else {
            s1
        };
        printed_args(s2, name, args, i + 1, d)
    }
}

pub open spec fn bad_number(s: State, label: Seq<char>, wanted: Seq<char>, got: TypeId, span: Span) -> State {
    report3(s, ErrorCode::ArgumentTypeMismatch, span, label, wanted, name_of(s.types, got))
}

/// The absolute value of a number of the type.
#[verifier::opaque]
pub open spec fn absolute(s: State, label: Seq<char>, id: TypeId, span: Span) -> (State, TypeId) {
    if id == TypeInterner::ERROR {
        (s, TypeInterner::ERROR)
    } else {
        match math_base(s, id) {
            Some((base, tainted)) => with_types(s, wrap_secret(s.types, base, tainted)),
            None => (bad_number(s, label, "int64 or float64"@, id, span), TypeInterner::ERROR),
        }
    }
}

pub open spec fn abs_call(
    s: State,
    name: Seq<char>,
    type_args: Seq<TypeExpr>,
    args: Vec<CallArg>,
    span: Span,
    d: nat,
) -> (State, TypeId)
    decreases 3 * d + 1, args, args@.len() + 3,
{
    let s1 = expect_no_types(s, name, type_args, span);
    if args@.len() != 1 {
        (
            each_arg(wrong_argument_count(s1, name, 1, args@.len(), span), args, 0, d),
            TypeInterner::ERROR,
        )
    } else {
        let (s2, t) = check_expr(s1, args@[0].value, d);
        absolute(s2, "value"@, t, expr_span(args@[0].value))
    }
}

/// The right side of `min` or `max` beside a left side of type `base`.
#[verifier::opaque]
pub open spec fn beside(
    s: State,
    label: Seq<char>,
    base: TypeId,
    tainted: bool,
    right: TypeId,
    span: Span,
) -> (State, TypeId) {
    if right == TypeInterner::ERROR {
        (s, TypeInterner::ERROR)
    } else {
        match math_base(s, right) {
            Some((right_base, right_tainted)) => if compatible(s.types, s.impls, base, right_base)
                && compatible(s.types, s.impls, right_base, base) {
                with_types(s, wrap_secret(s.types, base, tainted || right_tainted))
            } else {
                (
                    bad_number(s, label, name_of(s.types, base), right, span),
                    TypeInterner::ERROR,
                )
            },
            None => (bad_number(s, label, name_of(s.types, base), right, span), TypeInterner::ERROR),
        }
    }
}

/// `min` or `max` of a value of type `left` and the expression.
pub open spec fn smaller_or_greater(
    s: State,
    left: TypeId,
    left_label: Seq<char>,
    left_span: Span,
    right: Expr,
    right_label: Seq<char>,
    d: nat,
) -> (State, TypeId)
    decreases 3 * d + 1, right, 20nat,
{
    if left == TypeInterner::ERROR {
        (check_expr(s, right, d).0, TypeInterner::ERROR)
    } else {
        match math_base(s, left) {
            None => {
                let s1 = bad_number(s, left_label, "int64 or float64"@, left, left_span);
                (check_expr(s1, right, d).0, TypeInterner::ERROR)
            },
            Some((base, tainted)) => {
                let (s1, t) = check_expected(s, right, base, false, d);
                beside(s1, right_label, base, tainted, t, expr_span(right))
            },
        }
    }
}

pub open spec fn min_max_call(
    s: State,
    name: Seq<char>,
    type_args: Seq<TypeExpr>,
    args: Vec<CallArg>,
    span: Span,
    d: nat,
) -> (State, TypeId)
    decreases 3 * d + 1, args, args@.len() + 3,
{
    let s1 = expect_no_types(s, name, type_args, span);
    if args@.len() != 2 {
        (
            each_arg(wrong_argument_count(s1, name, 2, args@.len(), span), args, 0, d),
            TypeInterner::ERROR,
        )
    } else {
        let (s2, left) = check_expr(s1, args@[0].value, d);
        smaller_or_greater(
            s2,
            left,
            "left"@,
            expr_span(args@[0].value),
            args@[1].value,
            "right"@,
            d,
        )
    }
}

/// Which of the builtins with rules of their own a name is.
#[derive(Debug, Clone, Copy, PartialEq, Eq, Structural)]
pub enum Special {
    Range,
    Print,
    Abs,
    MinMax,
}

#[verifier::opaque]
pub open spec fn special_named(name: Option<Seq<char>>) -> Option<Special> {
    match name {
        None => None,
        Some(n) => if n == "range"@ || n == "list.range"@ {
            Some(Special::Range)
        } else if n == "print"@ || n == "println"@ {
            Some(Special::Print)
        } else if n == "math.abs"@ {
            Some(Special::Abs)
        } else if n == "math.min"@ || n == "math.max"@ {
            Some(Special::MinMax)
        } else {
            None
        },
    }
}

pub open spec fn special_call(
    s: State,
    special: Special,
    name: Seq<char>,
    type_args: Seq<TypeExpr>,
    args: Vec<CallArg>,
    span: Span,
    d: nat,
) -> (State, TypeId)
    decreases 3 * d + 1, args, args@.len() + 4,
{
    match special {
        Special::Range => range_call(s, name, type_args, args, span, d),
        Special::Print => (
            printed_args(expect_no_types(s, name, type_args, span), name, args, 0, d),
            TypeInterner::NOTHING,
        ),
        Special::Abs => abs_call(s, name, type_args, args, span, d),
        Special::MinMax => min_max_call(s, name, type_args, args, span, d),
    }
}

// ---------------------------------------------------------------------------
// Calls
// ---------------------------------------------------------------------------

pub open spec fn or_words(name: Option<Seq<char>>, words: Seq<char>) -> Seq<char> {
    match name {
        Some(n) => n,
        None => words,
    }
}

/// The arguments from `i` on: their types, and whether a secret went in as its
/// public form.
pub open spec fn signature_args(
    s: State,
    name: Option<Seq<char>>,
    pure: bool,
    params: Seq<TypeId>,
    args: Vec<CallArg>,
    i: nat,
    found: Seq<TypeId>,
    tainted: bool,
    d: nat,
) -> (State, Seq<TypeId>, bool)
    decreases 3 * d + 1, args, args@.len() - i,
{
    if i >= args@.len() || i >= params.len() {
        (s, found, tainted)
    } else {
        let value = args@[i as int].value;
        let (s1, t) = check_expected(s, value, params[i as int], false, d);
        let (s2, lifted) = argument(
            s1,
            name,
            pure,
            place_label(i + 1),
            params[i as int],
            t,
            expr_span(value),
        );
        signature_args(
            s2,
            name,
            pure,
            params,
            args,
            i + 1,
            found.push(t),
            tainted || lifted,
            d,
        )
    }
}

/// The JSON rules on the first argument of a call.
pub open spec fn json_call_policy(
    s: State,
    name: Option<Seq<char>>,
    types: Seq<TypeId>,
    args: Seq<CallArg>,
    ret: TypeId,
) -> State {
    if types.len() == 0 || args.len() == 0 {
        s
    } else {
        json_policy(s, name, types[0], args[0].value is View, expr_span(args[0].value), ret)
    }
}

pub open spec fn second_span(args: Seq<CallArg>, otherwise: Span) -> Span {
    if args.len() > 1 {
        expr_span(args[1].value)
    } else {
        otherwise
    }
}

/// A call of a function with a known signature.
pub open spec fn signature_call(
    s: State,
    name: Option<Seq<char>>,
    pure: bool,
    sig: FunctionShapeV,
    args: Vec<CallArg>,
    span: Span,
    d: nat,
) -> (State, TypeId)
    decreases 3 * d + 1, args, args@.len() + 3,
{
    if args@.len() != sig.params.len() {
        (
            each_arg(
                wrong_argument_count(
                    s,
                    or_words(name, "<anonymous>"@),
                    sig.params.len(),
                    args@.len(),
                    span,
                ),
                args,
                0,
                d,
            ),
            sig.return_type,
        )
    } else {
        let (s1, types, tainted) = signature_args(
            s,
            name,
            pure,
            sig.params,
            args,
            0,
            Seq::empty(),
            false,
            d,
        );
        let s2 = compare_report(s1, name, types, second_span(args@, span));
        let s3 = json_call_policy(s2, name, types, args@, sig.return_type);
        call_result(s3, name, pure, tainted, sig.return_type)
    }
}

/// The types that describe types are not built by programs.
#[verifier::opaque]
pub open spec fn metadata_type(name: Seq<char>) -> bool {
    ||| name == "TypeInfo"@
    ||| name == "TypeField"@
    ||| name == "TypeBitfield"@
    ||| name == "TypeBitfieldField"@
    ||| name == "TypeMachine"@
    ||| name == "TypeMachineState"@
    ||| name == "TypeMachineTransition"@
    ||| name == "TypeVariant"@
}

/// A type that a name declares and that is built by calling it.
#[verifier::opaque]
pub open spec fn constructor_named(s: State, name: Option<Seq<char>>) -> Option<Type> {
    match name {
        Some(n) => match look(s.named_types, n) {
            Some(id) => match ty(s.types, id) {
                Type::Struct(sid) => Some(Type::Struct(sid)),
                Type::Bitfield(bid) => Some(Type::Bitfield(bid)),
                Type::Machine(mid) => Some(Type::Machine(mid)),
                _ => None,
            },
            None => None,
        },
        None => None,
    }
}

pub open spec fn construct(s: State, t: Type, args: Vec<CallArg>, span: Span, d: nat) -> (State, TypeId)
    decreases 3 * d + 1, args, args@.len() + 3,
{
    match t {
        Type::Struct(sid) => struct_constructor(s, sid, args, span, d),
        Type::Bitfield(bid) => bitfield_constructor(s, bid, args, span, d),
        Type::Machine(mid) => machine_constructor(s, mid, args, span, d),
        _ => (s, TypeInterner::ERROR),
    }
}

/// Building a value of a declared type by its name.
pub open spec fn named_construct(s: State, name: Seq<char>, t: Type, args: Vec<CallArg>, span: Span, d: nat) -> (
    State,
    TypeId,
)
    decreases 3 * d + 1, args, args@.len() + 4,
{
    if t is Struct && metadata_type(name) {
        (
            each_arg(
                report1(s, ErrorCode::ReflectionMetadataConstructor, span, name),
                args,
                0,
                d,
            ),
            TypeInterner::ERROR,
        )
    } else {
        construct(s, t, args, span, d)
    }
}

/// `Name[T](fields)`
pub open spec fn generic_construct(
    s: State,
    name: Seq<char>,
    type_args: Seq<TypeExpr>,
    args: Vec<CallArg>,
    span: Span,
    d: nat,
) -> (State, TypeId)
    decreases 3 * d + 1, args, args@.len() + 3,
{
    let (s1, ids) = resolve_types(s, type_args, 0, Seq::empty());
    let (s2, id) = struct_at(s1, name, ids, span, nesting());
    if id == TypeInterner::ERROR {
        (s2, TypeInterner::ERROR)
    } else {
        match ty(s2.types, id) {
            Type::Struct(sid) => struct_constructor(s2, sid, args, span, d),
            _ => (s2, TypeInterner::ERROR),
        }
    }
}

/// Whether the callee is the name of a type of the kind.
#[verifier::opaque]
pub open spec fn names_type(s: State, callee: Expr, t: Type) -> bool {
    match expanded_name(s.names, callee) {
        Some(n) => match look(s.named_types, n) {
            Some(id) => match t {
                Type::Struct(_) => ty(s.types, id) is Struct,
                Type::Bitfield(_) => ty(s.types, id) is Bitfield,
                _ => false,
            },
            None => false,
        },
        None => false,
    }
}

/// A call of whatever the callee turns out to be.
pub open spec fn value_call(s: State, e: Expr, name: Option<Seq<char>>, pure: bool, d: nat) -> (State, TypeId)
    decreases 3 * d + 1, e, 0nat,
{
    if !is_call(e) {
        (s, TypeInterner::ERROR)
    } else {
        let args = args_of(e);
        let span = expr_span(e);
        let (s1, callee) = check_expr(s, callee_of(e), d);
        if callee == TypeInterner::ERROR {
            (each_arg(s1, args, 0, d), TypeInterner::ERROR)
        } else {
            let t = ty(s1.types, callee);
            match t {
                Type::Function(f) => signature_call(
                    s1,
                    name,
                    pure,
                    s1.types.functions[f.0 as int],
                    args,
                    span,
                    d,
                ),
                _ => if t is Machine || ((t is Struct || t is Bitfield) && names_type(
                    s1,
                    callee_of(e),
                    t,
                )) {
                    construct(s1, t, args, span, d)
                } else {
                    (
                        each_arg(
                            report1(s1, ErrorCode::NotCallable, span, name_of(s1.types, callee)),
                            args,
                            0,
                            d,
                        ),
                        TypeInterner::ERROR,
                    )
                },
            }
        }
    }
}

/// A call with type arguments of something that is no builtin.
pub open spec fn typed_call(s: State, e: Expr, name: Option<Seq<char>>, pure: bool, d: nat) -> (State, TypeId)
    decreases 3 * d + 1, e, 1nat,
{
    if !is_call(e) {
        (s, TypeInterner::ERROR)
    } else {
        let args = args_of(e);
        let span = expr_span(e);
        if name is Some && s.function_templates.contains_key(name->0) {
            generic_call(s, name->0, s.function_templates[name->0], type_args_of(e), args, span, d)
        } else if name is Some && s.signatures.contains_key(name->0) {
            (
                each_arg(
                    type_param_count(s, name->0, 0, type_args_of(e).len(), span),
                    args,
                    0,
                    d,
                ),
                TypeInterner::ERROR,
            )
        } else if name is Some && s.generic_struct_templates.contains_key(name->0) {
            generic_construct(s, name->0, type_args_of(e), args, span, d)
        } else {
            value_call(s, e, name, pure, d)
        }
    }
}

/// A call without type arguments. A builtin's signature goes before the
/// module's own.
pub open spec fn plain_call(
    s: State,
    e: Expr,
    name: Option<Seq<char>>,
    pure: bool,
    builtin: Option<FunctionShapeV>,
    d: nat,
) -> (State, TypeId)
    decreases 3 * d + 1, e, 1nat,
{
    if !is_call(e) {
        (s, TypeInterner::ERROR)
    } else {
        let args = args_of(e);
        let span = expr_span(e);
        match transition_owner(s, callee_of(e)) {
            Some(mid) => transition_call(s, mid, args, span, d),
            None => match constructor_named(s, name) {
                Some(t) => named_construct(s, name->0, t, args, span, d),
                None => match builtin {
                    Some(sig) => signature_call(s, name, pure, sig, args, span, d),
                    None => if name is Some && s.signatures.contains_key(name->0) {
                        signature_call(s, name, pure, s.signatures[name->0], args, span, d)
                    } else {
                        value_call(s, e, name, pure, d)
                    },
                },
            },
        }
    }
}

/// A call with type arguments of a builtin.
pub open spec fn typed_builtin_call(
    s: State,
    e: Expr,
    name: Option<Seq<char>>,
    pure: bool,
    sig: FunctionShapeV,
    d: nat,
) -> (State, TypeId)
    decreases 3 * d + 1, e, 1nat,
{
    if !is_call(e) {
        (s, TypeInterner::ERROR)
    } else if name is Some && s.generic_struct_templates.contains_key(name->0) {
        generic_construct(s, name->0, type_args_of(e), args_of(e), expr_span(e), d)
    } else {
        signature_call(s, name, pure, sig, args_of(e), expr_span(e), d)
    }
}

pub open spec fn check_call(s: State, e: Expr, d: nat) -> (State, TypeId)
    decreases 3 * d + 1, e, 3nat,
{
    if !is_call(e) {
        (s, TypeInterner::ERROR)
    } else {
        let name = expr_name(s.names, callee_of(e));
        let pure = callee_pure(s, name);
        let span = expr_span(e);
        let (s1, builtin) = builtin_signature(s, callee_of(e), type_args_of(e), span);
        let s2 = purity_reports(s1, name, pure, span);
        match special_named(name) {
            Some(special) => special_call(
                s2,
                special,
                name->0,
                type_args_of(e),
                args_of(e),
                span,
                d,
            ),
            None => if type_args_of(e).len() == 0 {
                plain_call(s2, e, name, pure, builtin, d)
            } else {
                match builtin {
                    Some(sig) => typed_builtin_call(s2, e, name, pure, sig, d),
                    None => typed_call(s2, e, name, pure, d),
                }
            },
        }
    }
}

// ---------------------------------------------------------------------------
// The checks
// ---------------------------------------------------------------------------

fn find_special(name: &Option<String>) -> (r: Option<Special>)
    ensures
        r == special_named(maybe_text(*name)),
{
    proof {
        reveal(special_named);
    }
    match name {
        None => None,
        Some(n) => {
            let n = n.as_str();
            if same_text(n, "range") || same_text(n, "list.range") {
                Some(Special::Range)
            } else if same_text(n, "print") || same_text(n, "println") {
                Some(Special::Print)
            } else if same_text(n, "math.abs") {
                Some(Special::Abs)
            } else if same_text(n, "math.min") || same_text(n, "math.max") {
                Some(Special::MinMax)
            } else {
                None
            }
        },
    }
}

fn is_reflection_metadata_type_name(n: &str) -> (r: bool)
    ensures
        r == metadata_type(n@),
{
    proof {
        reveal(metadata_type);
    }
    same_text(n, "TypeInfo") || same_text(n, "TypeField") || same_text(n, "TypeBitfield") || same_text(
        n,
        "TypeBitfieldField",
    ) || same_text(n, "TypeMachine") || same_text(n, "TypeMachineState") || same_text(
        n,
        "TypeMachineTransition",
    ) || same_text(n, "TypeVariant")
}

/// What surrounds the body of a generic function.
struct Outside {
    subst: Table<String, TypeId>,
    kinds: Table<String, String>,
    context: Context,
}

/// A generic function with what it is called for.
pub struct GenericUse {
    pub name: String,
    pub args: Vec<TypeId>,
    pub subst: Table<String, TypeId>,
    pub kinds: Table<String, String>,
    pub facts: ReflectionParamFacts,
}

impl View for GenericUse {
    type V = Generic;

    open spec fn view(&self) -> Generic {
        Generic {
            name: self.name@,
            args: self.args@,
            subst: self.subst@,
            kinds: self.kinds@,
            facts: self.facts@,
        }
    }
}

fn kind_key_of(params: &Vec<Ident>, kinds: &Table<String, String>) -> (r: Vec<String>)
    ensures
        views(r@) == kind_key(params@, kinds@, 0, Seq::empty()),
{
    let mut r: Vec<String> = Vec::new();
    assert(views(r@) =~= Seq::empty());
    let mut i: usize = 0;
    while i < params.len()
        invariant
            i <= params@.len(),
            kind_key(params@, kinds@, i as nat, views(r@)) == kind_key(
                params@,
                kinds@,
                0,
                Seq::empty(),
            ),
        decreases params@.len() - i,
    {
        let kind = match kinds.get(&params[i].name) {
            Some(k) => k.clone(),
            None => text("unknown_type"),
        };
        let ghost before = views(r@);
        let ghost shown = kind@;
        r.push(kind);
        assert(views(r@) =~= before.push(shown));
        i = i + 1;
    }
    r
}

fn same_texts(a: &Vec<String>, b: &Vec<String>) -> (r: bool)
    ensures
        r == (views(a@) == views(b@)),
{
    if a.len() != b.len() {
        assert(views(a@).len() != views(b@).len());
        return false;
    }
    let mut i: usize = 0;
    while i < a.len()
        invariant
            i <= a@.len(),
            a@.len() == b@.len(),
            forall|j: int| 0 <= j < i ==> views(a@)[j] == views(b@)[j],
        decreases a@.len() - i,
    {
        if a[i] != b[i] {
            assert(views(a@)[i as int] != views(b@)[i as int]);
            return false;
        }
        i = i + 1;
    }
    assert(views(a@) =~= views(b@));
    true
}

fn same_instance(a: &Instance, b: &Instance) -> (r: bool)
    ensures
        r == (a@ == b@),
{
    a.name == b.name && same_ids(&a.args, &b.args) && same_texts(&a.kinds, &b.kinds) && a.facts.same(
        &b.facts,
    )
}

fn instance_for(f: &FunctionDef, g: &GenericUse) -> (r: Instance)
    ensures
        r@ == instance_of(*f, g@),
{
    proof {
        reveal(instance_of);
    }
    Instance {
        name: g.name.clone(),
        args: dup_ids(&g.args),
        kinds: kind_key_of(&f.type_params, &g.kinds),
        facts: g.facts.dup(),
    }
}

proof fn instance_leaves_no_trace(s: State, f: FunctionDef, g: Generic, end: State, after: State)
    requires
        ({
            let entered = enter_instance(s, f, g);
            keeps(entered, State { context: entered.context, ..end })
        }),
        after == (State {
            subst: s.subst,
            kind_tags: s.kind_tags,
            context: s.context,
            facts: without_last(end.facts),
            ..end
        }),
    ensures
        keeps(s, after),
        after.instances.contains(instance_of(f, g)),
        known(s) && known(end) ==> known(after),
{
    reveal(enter_instance);
    let entered = enter_instance(s, f, g);
    let left = State { context: entered.context, ..end };
    let noted = State { instances: entered.instances, ..s };
    assert(keeps(s, noted)) by {
        reveal(keeps);
        reveal(stays);
        reveal(grows);
    }
    keeps_scopes(entered, left);
    keeps_around(noted, entered, left, after);
    assert(noted.instances.last() == instance_of(f, g));
    keeps_instances(noted, after, noted.instances.len() - 1);
    if known(s) && known(end) {
        keeps_scopes(s, after);
        known_scopes(s, after);
        known_after(end, after);
    }
}

impl<'a> TypeChecker<'a> {
    /// The body of a function under the types of its parameters.
    pub(crate) fn check_function_impl(&mut self, f: &FunctionDef, name: String, Ghost(d): Ghost<nat>)
        requires
            can_enter(old(self)@, d),
        ensures
            keeps(old(self)@, State { context: old(self)@.context, ..final(self)@ }),
            known(old(self)@) ==> known(final(self)@),
            final(self)@ == function_body(old(self)@, *f, name@, d),
        decreases 3 * d + 2, f, 0nat,
    {
        let ret: usize = self.resolve_return_type(&f.return_type);
        let mut context = self.get_context().dup();
        context.return_type = Some(ret);
        context.function_name = Some(name);
        context.function_pure = self.names().params_are_pure(&f.params);
        let ghost outside = self@;
        self.set_context(context);
        let ghost entered = self@;
        self.declare_params(&f.params);
        self.check_block(&f.body, Ghost(d));
        let ghost left = self@;
        let mut after = self.get_context().dup();
        after.return_type = None;
        after.function_name = None;
        after.function_pure = false;
        self.set_context(after);
        proof {
            keeps_scopes(old(self)@, outside);
            keeps_scopes(entered, left);
            keeps_around(outside, entered, left, State { context: old(self)@.context, ..self@ });
        }
    }

    fn is_checked(&self, instance: &Instance) -> (r: bool)
        ensures
            r == self@.instances.contains(instance@),
    {
        let all = self.all_instances();
        let ghost vs = views(all@);
        let mut i: usize = 0;
        while i < all.len()
            invariant
                i <= all@.len(),
                vs == views(all@),
                vs == self@.instances,
                forall|j: int| 0 <= j < i ==> vs[j] != instance@,
            decreases all@.len() - i,
        {
            assert(vs[i as int] == all@[i as int]@);
            if same_instance(&all[i], instance) {
                return true;
            }
            i = i + 1;
        }
        false
    }

    fn looks_at_params(&self, f: &FunctionDef) -> (r: bool)
        ensures
            r == looks_at_params(self@, *f),
    {
        proof {
            reveal(looks_at_params);
        }
        self.names().generic_function_uses_type_param_reflection(f)
    }

    fn settles_reflection(&self, f: &FunctionDef) -> (r: bool)
        ensures
            r == settles_reflection(self@, *f),
    {
        proof {
            reveal(settles_reflection);
        }
        self.names().generic_function_reflection_is_branch_specializable(f)
    }

    fn enter_instance(&mut self, f: &FunctionDef, instance: Instance, g: GenericUse, specialize: bool) -> (r:
        Outside)
        requires
            instance@ == instance_of(*f, g@),
            specialize == (looks_at_params(old(self)@, *f) || g@.facts != no_facts()),
        ensures
            final(self)@ == enter_instance(old(self)@, *f, g@),
            old(self)@.instances.len() + 1 == final(self)@.instances.len() <= usize::MAX,
            known(old(self)@) && has_values(old(self)@, g.subst@) ==> known(final(self)@),
            r.subst@ == old(self)@.subst,
            r.kinds@ == old(self)@.kind_tags,
            r.context@ == old(self)@.context,
    {
        proof {
            reveal(enter_instance);
        }
        let scope = self.names().param_scope(&f.params, &g.facts);
        self.push_instances(instance);
        let subst = self.swap_subst(g.subst);
        let kinds = self.swap_kind_tags(g.kinds);
        let outer = self.get_context().dup();
        let mut context = outer.dup();
        context.in_verify = false;
        context.in_property = false;
        context.verify_name = None;
        context.in_handle = false;
        context.respond_type = None;
        context.specialize = specialize;
        self.set_context(context);
        self.push_facts(scope);
        Outside { subst, kinds, context: outer }
    }

    fn leave_instance(&mut self, outside: Outside)
        ensures
            final(self)@ == (State {
                subst: outside.subst@,
                kind_tags: outside.kinds@,
                context: outside.context@,
                facts: without_last(old(self)@.facts),
                ..old(self)@
            }),
    {
        self.pop_facts();
        let _ = self.swap_subst(outside.subst);
        let _ = self.swap_kind_tags(outside.kinds);
        self.set_context(outside.context);
    }

    pub(crate) fn check_generic_function_instantiation(&mut self, f: &FunctionDef, g: GenericUse, Ghost(d): Ghost<nat>)
        requires
            can_enter(old(self)@, d),
        ensures
            keeps(old(self)@, final(self)@),
            known(old(self)@) && has_values(old(self)@, g.subst@) ==> known(final(self)@),
            final(self)@ == instantiate(old(self)@, *f, g@, d),
            (looks_at_params(old(self)@, *f) ==> settles_reflection(old(self)@, *f))
                ==> final(self)@.instances.contains(instance_of(*f, g@)),
        decreases 3 * d, f, 0nat,
    {
        let looks = self.looks_at_params(f);
        if looks && !self.settles_reflection(f) {
            return;
        }
        let instance = instance_for(f, &g);
        if self.is_checked(&instance) {
            return;
        }
        let full = apply_name(self.interner(), &g.name, &g.args);
        let specialize = looks || !g.facts.is_empty();
        let outside = self.enter_instance(f, instance, g, specialize);
        self.check_function_impl(f, full, Ghost((d - 1) as nat));
        let ghost end = self@;
        self.leave_instance(outside);
        proof {
            instance_leaves_no_trace(old(self)@, *f, g@, end, self@);
        }
    }

    pub(crate) fn bind_kinds(&self, params: &Vec<Ident>, type_args: &Vec<TypeExpr>, ids: &Vec<TypeId>) -> (r:
        Table<String, String>)
        ensures
            r@ == bind_kinds(self@, Map::empty(), params@, type_args@, ids@, 0),
    {
        let mut m: Table<String, String> = Table::new();
        let mut i: usize = 0;
        while i < params.len() && i < type_args.len() && i < ids.len()
            invariant
                i <= params@.len(),
                i <= type_args@.len(),
                i <= ids@.len(),
                bind_kinds(self@, m@, params@, type_args@, ids@, i as nat) == bind_kinds(
                    self@,
                    Map::empty(),
                    params@,
                    type_args@,
                    ids@,
                    0,
                ),
            decreases params@.len() - i,
        {
            m.insert(
                params[i].name.clone(),
                self.reflection_kind_tag_for_type_expr(&type_args[i], ids[i]),
            );
            i = i + 1;
        }
        m
    }

    pub(crate) fn generic_signature(&mut self, f: &FunctionDef, subst: Table<String, TypeId>) -> (r:
        FunctionShape)
        ensures
            keeps(old(self)@, final(self)@),
            known(old(self)@) && has_values(old(self)@, subst@)
                ==> known(final(self)@) && has_shape(final(self)@, r@),
            (final(self)@, r@) == generic_signature(old(self)@, *f, subst@),
    {
        proof {
            reveal(generic_signature);
        }
        let outer = self.swap_subst(subst);
        let ghost entered = self@;
        let params = self.resolve_param_ids(&f.params);
        let return_type: usize = self.resolve_return_type(&f.return_type);
        let ghost left = self@;
        let _ = self.swap_subst(outer);
        proof {
            keeps_scopes(entered, left);
            keeps_around(old(self)@, entered, left, self@);
        }
        FunctionShape { params, return_type }
    }

    pub(crate) fn type_param_count(&mut self, name: &String, expected: usize, got: usize, span: Span)
        ensures
            keeps(old(self)@, final(self)@),
            known(old(self)@) ==> known(final(self)@),
            final(self)@ == type_param_count(
                old(self)@,
                name@,
                expected as nat,
                got as nat,
                span,
            ),
    {
        let words = join2(decimal_text(expected).as_str(), " type argument(s)");
        self.emit_unknown_type(wrong_count_text(name.as_str(), words.as_str(), got), span);
    }

    pub(crate) fn args_match(
        &mut self,
        args: &Vec<CallArg>,
        params: &Vec<TypeId>,
        skip: usize,
        start: bool,
        Ghost(d): Ghost<nat>,
    ) -> (r: bool)
        requires
            can_enter(old(self)@, d),
            args@.len() + skip <= usize::MAX,
        ensures
            keeps(old(self)@, final(self)@),
            known(old(self)@) && has_all(old(self)@, params@) ==> known(final(self)@),
            (final(self)@, r) == args_match(
                old(self)@,
                *args,
                params@,
                skip as nat,
                0,
                start,
                d,
            ),
        decreases 3 * d + 1, args, args@.len() + 1,
    {
        let mut fits = start;
        let mut i: usize = 0;
        while i < args.len() && i + skip < params.len()
            invariant
                can_enter(self@, d),
                keeps(old(self)@, self@),
                known(old(self)@) && has_all(old(self)@, params@) ==> known(self@),
                i <= args@.len(),
                args@.len() + skip <= usize::MAX,
                args_match(self@, *args, params@, skip as nat, i as nat, fits, d)
                    == args_match(
                    old(self)@,
                    *args,
                    params@,
                    skip as nat,
                    0,
                    start,
                    d,
                ),
            decreases args@.len() - i,
        {
            let expected: usize = params[i + skip];
            let got: usize = self.check_expr_for_expected(&args[i].value, expected, false, Ghost(d));
            let fit = self.types_compatible(expected, got);
            self.expect_type(expected, got, args[i].value.span());
            fits = fits && fit;
            i = i + 1;
        }
        fits
    }

    fn generic_call(
        &mut self,
        name: &String,
        f: &FunctionDef,
        type_args: &Vec<TypeExpr>,
        args: &Vec<CallArg>,
        span: Span,
        Ghost(d): Ghost<nat>,
    ) -> (r: TypeId)
        requires
            can_enter(old(self)@, d),
        ensures
            keeps(old(self)@, final(self)@),
            known(old(self)@) ==> known(final(self)@) && has(final(self)@, r),
            (final(self)@, r) == generic_call(
                old(self)@,
                name@,
                *f,
                type_args@,
                *args,
                span,
                d,
            ),
        decreases 3 * d + 1, args, args@.len() + 3,
    {
        let ids = self.resolve_type_list(type_args);
        if f.type_params.len() != ids.len() {
            self.type_param_count(name, f.type_params.len(), ids.len(), span);
            return TypeInterner::ERROR;
        }
        let kinds = self.bind_kinds(&f.type_params, type_args, &ids);
        let ghost bindings = bind_params(Map::empty(), f.type_params@, ids@, 0);
        let ghost resolved = self@;
        proof {
            if has_all(resolved, ids@) {
                known_bindings(resolved, Map::empty(), f.type_params@, ids@, 0);
            }
        }
        let sig = self.generic_signature(f, bind_type_params(&f.type_params, &ids));
        if args.len() != sig.params.len() {
            self.wrong_argument_count(
                name.as_str(),
                sig.params.len() as u128,
                args.len() as u128,
                span,
            );
            self.check_each_arg(args, 0, Ghost(d));
            return TypeInterner::ERROR;
        }
        if self.args_match(args, &sig.params, 0, true, Ghost(d)) {
            let facts = self.reflection_param_facts_for_call(&f.params, &sig.params, args);
            let subst = bind_type_params(&f.type_params, &ids);
            let g = GenericUse { name: name.clone(), args: ids, subst, kinds, facts };
            assert(has_values(resolved, bindings) ==> has_values(self@, bindings));
            self.check_generic_function_instantiation(f, g, Ghost(d));
        }
        sig.return_type
    }

    pub(crate) fn expect_no_type_args(&mut self, name: &String, type_args: &Vec<TypeExpr>, span: Span)
        ensures
            keeps(old(self)@, final(self)@),
            known(old(self)@) ==> known(final(self)@),
            final(self)@ == expect_no_types(old(self)@, name@, type_args@, span),
    {
        if type_args.len() != 0 {
            self.wrong_type_args(name, "0 type arguments", type_args, span);
        }
    }

    fn same_typed_args(&mut self, label: &String, expected: TypeId, args: &Vec<CallArg>, Ghost(d): Ghost<nat>)
        requires
            can_enter(old(self)@, d),
        ensures
            keeps(old(self)@, final(self)@),
            known(old(self)@) && has(old(self)@, expected) ==> known(final(self)@),
            final(self)@ == same_typed_args(old(self)@, label@, expected, *args, 0, d),
        decreases 3 * d + 1, args, args@.len() + 1,
    {
        let mut i: usize = 0;
        while i < args.len()
            invariant
                can_enter(self@, d),
                keeps(old(self)@, self@),
                known(old(self)@) && has(old(self)@, expected) ==> known(self@),
                i <= args@.len(),
                same_typed_args(self@, label@, expected, *args, i as nat, d)
                    == same_typed_args(old(self)@, label@, expected, *args, 0, d),
            decreases args@.len() - i,
        {
            let got: usize = self.check_expr_for_expected(&args[i].value, expected, false, Ghost(d));
            self.expect_argument(label.as_str(), expected, got, args[i].value.span());
            i = i + 1;
        }
    }

    fn check_range_builtin_call(
        &mut self,
        name: &String,
        type_args: &Vec<TypeExpr>,
        args: &Vec<CallArg>,
        span: Span,
        Ghost(d): Ghost<nat>,
    ) -> (r: TypeId)
        requires
            can_enter(old(self)@, d),
        ensures
            keeps(old(self)@, final(self)@),
            known(old(self)@) ==> known(final(self)@) && has(final(self)@, r),
            (final(self)@, r) == range_call(
                old(self)@,
                name@,
                type_args@,
                *args,
                span,
                d,
            ),
        decreases 3 * d + 1, args, args@.len() + 3,
    {
        self.expect_no_type_args(name, type_args, span);
        let list: usize = self.intern(Type::List(TypeInterner::INT64));
        if args.len() == 0 || args.len() > 3 {
            self.emit(
                Diagnostic::error(
                    ErrorCode::ArgumentCountRangeMismatch,
                    span,
                    args4(
                        name.clone(),
                        decimal_text(1),
                        decimal_text(3),
                        decimal_text(args.len()),
                    ),
                ),
            );
            self.check_each_arg(args, 0, Ghost(d));
            return list;
        }
        let label = join2(name.as_str(), " argument");
        self.same_typed_args(&label, TypeInterner::INT64, args, Ghost(d));
        list
    }

    fn printed_args(&mut self, name: &String, args: &Vec<CallArg>, Ghost(d): Ghost<nat>)
        requires
            can_enter(old(self)@, d),
        ensures
            keeps(old(self)@, final(self)@),
            known(old(self)@) ==> known(final(self)@),
            final(self)@ == printed_args(old(self)@, name@, *args, 0, d),
        decreases 3 * d + 1, args, args@.len() + 1,
    {
        let mut i: usize = 0;
        while i < args.len()
            invariant
                can_enter(self@, d),
                keeps(old(self)@, self@),
                known(old(self)@) ==> known(self@),
                i <= args@.len(),
                printed_args(self@, name@, *args, i as nat, d) == printed_args(
                    old(self)@,
                    name@,
                    *args,
                    0,
                    d,
                ),
            decreases args@.len() - i,
        {
            let got: usize = self.check_expr(&args[i].value, Ghost(d));
            if self.interner().is_secret_type(got) {
                let shown = self.name_of(got);
                self.report2(
                    ErrorCode::SecretExposure,
                    args[i].value.span(),
                    name.clone(),
                    shown,
                );
            }
            i = i + 1;
        }
    }

    fn bad_number(&mut self, label: &str, wanted: String, got: TypeId, span: Span)
        ensures
            keeps(old(self)@, final(self)@),
            known(old(self)@) ==> known(final(self)@),
            final(self)@ == bad_number(old(self)@, label@, wanted@, got, span),
    {
        let shown = self.name_of(got);
        self.report3(ErrorCode::ArgumentTypeMismatch, span, text(label), wanted, shown);
    }

    pub(crate) fn absolute(&mut self, label: &str, id: TypeId, span: Span) -> (r: TypeId)
        ensures
            keeps(old(self)@, final(self)@),
            known(old(self)@) && has(old(self)@, id)
                ==> known(final(self)@) && has(final(self)@, r),
            (final(self)@, r) == absolute(old(self)@, label@, id, span),
    {
        proof {
            reveal(absolute);
        }
        if id == TypeInterner::ERROR {
            return TypeInterner::ERROR;
        }
        match self.math_numeric_builtin_base(id) {
            Some((base, tainted)) => self.maybe_wrap_secret(base, tainted),
            None => {
                self.bad_number(label, text("int64 or float64"), id, span);
                TypeInterner::ERROR
            },
        }
    }

    fn check_math_abs_builtin_call(
        &mut self,
        name: &String,
        type_args: &Vec<TypeExpr>,
        args: &Vec<CallArg>,
        span: Span,
        Ghost(d): Ghost<nat>,
    ) -> (r: TypeId)
        requires
            can_enter(old(self)@, d),
        ensures
            keeps(old(self)@, final(self)@),
            known(old(self)@) ==> known(final(self)@) && has(final(self)@, r),
            (final(self)@, r) == abs_call(
                old(self)@,
                name@,
                type_args@,
                *args,
                span,
                d,
            ),
        decreases 3 * d + 1, args, args@.len() + 3,
    {
        self.expect_no_type_args(name, type_args, span);
        if args.len() != 1 {
            self.wrong_argument_count(name.as_str(), 1, args.len() as u128, span);
            self.check_each_arg(args, 0, Ghost(d));
            return TypeInterner::ERROR;
        }
        let t: usize = self.check_expr(&args[0].value, Ghost(d));
        self.absolute("value", t, args[0].value.span())
    }

    fn beside(&mut self, label: &str, base: TypeId, tainted: bool, right: TypeId, span: Span) -> (r: TypeId)
        ensures
            keeps(old(self)@, final(self)@),
            known(old(self)@) && has(old(self)@, base) && has(old(self)@, right)
                ==> known(final(self)@) && has(final(self)@, r),
            (final(self)@, r) == beside(old(self)@, label@, base, tainted, right, span),
    {
        proof {
            reveal(beside);
        }
        if right == TypeInterner::ERROR {
            return TypeInterner::ERROR;
        }
        match self.math_numeric_builtin_base(right) {
            Some((right_base, right_tainted)) => {
                if self.types_compatible(base, right_base) && self.types_compatible(
                    right_base,
                    base,
                ) {
                    return self.maybe_wrap_secret(base, tainted || right_tainted);
                }
            },
            None => {},
        }
        let wanted = self.name_of(base);
        self.bad_number(label, wanted, right, span);
        TypeInterner::ERROR
    }

    pub(crate) fn smaller_or_greater(
        &mut self,
        left: TypeId,
        left_label: &str,
        left_span: Span,
        right: &Expr,
        right_label: &str,
        Ghost(d): Ghost<nat>,
    ) -> (r: TypeId)
        requires
            can_enter(old(self)@, d),
        ensures
            keeps(old(self)@, final(self)@),
            known(old(self)@) && has(old(self)@, left)
                ==> known(final(self)@) && has(final(self)@, r),
            (final(self)@, r) == smaller_or_greater(
                old(self)@,
                left,
                left_label@,
                left_span,
                *right,
                right_label@,
                d,
            ),
        decreases 3 * d + 1, right, 20nat,
    {
        if left == TypeInterner::ERROR {
            let t: usize = self.check_expr(right, Ghost(d));
            return TypeInterner::ERROR;
        }
        match self.math_numeric_builtin_base(left) {
            None => {
                self.bad_number(left_label, text("int64 or float64"), left, left_span);
                let t: usize = self.check_expr(right, Ghost(d));
                TypeInterner::ERROR
            },
            Some((base, tainted)) => {
                let t: usize = self.check_expr_for_expected(right, base, false, Ghost(d));
                self.beside(right_label, base, tainted, t, right.span())
            },
        }
    }

    fn check_math_min_max_builtin_call(
        &mut self,
        name: &String,
        type_args: &Vec<TypeExpr>,
        args: &Vec<CallArg>,
        span: Span,
        Ghost(d): Ghost<nat>,
    ) -> (r: TypeId)
        requires
            can_enter(old(self)@, d),
        ensures
            keeps(old(self)@, final(self)@),
            known(old(self)@) ==> known(final(self)@) && has(final(self)@, r),
            (final(self)@, r) == min_max_call(
                old(self)@,
                name@,
                type_args@,
                *args,
                span,
                d,
            ),
        decreases 3 * d + 1, args, args@.len() + 3,
    {
        self.expect_no_type_args(name, type_args, span);
        if args.len() != 2 {
            self.wrong_argument_count(name.as_str(), 2, args.len() as u128, span);
            self.check_each_arg(args, 0, Ghost(d));
            return TypeInterner::ERROR;
        }
        let left: usize = self.check_expr(&args[0].value, Ghost(d));
        self.smaller_or_greater(
            left,
            "left",
            args[0].value.span(),
            &args[1].value,
            "right",
            Ghost(d),
        )
    }

    fn special_call(
        &mut self,
        special: Special,
        name: &String,
        type_args: &Vec<TypeExpr>,
        args: &Vec<CallArg>,
        span: Span,
        Ghost(d): Ghost<nat>,
    ) -> (r: TypeId)
        requires
            can_enter(old(self)@, d),
        ensures
            keeps(old(self)@, final(self)@),
            known(old(self)@) ==> known(final(self)@) && has(final(self)@, r),
            (final(self)@, r) == special_call(
                old(self)@,
                special,
                name@,
                type_args@,
                *args,
                span,
                d,
            ),
        decreases 3 * d + 1, args, args@.len() + 4,
    {
        match special {
            Special::Range => self.check_range_builtin_call(name, type_args, args, span, Ghost(d)),
            Special::Print => {
                self.expect_no_type_args(name, type_args, span);
                self.printed_args(name, args, Ghost(d));
                TypeInterner::NOTHING
            },
            Special::Abs => self.check_math_abs_builtin_call(name, type_args, args, span, Ghost(d)),
            Special::MinMax => self.check_math_min_max_builtin_call(name, type_args, args, span, Ghost(d)),
        }
    }

    fn signature_args(
        &mut self,
        name: &Option<String>,
        pure: bool,
        params: &Vec<TypeId>,
        args: &Vec<CallArg>,
        Ghost(d): Ghost<nat>,
    ) -> (r: (Vec<TypeId>, bool))
        requires
            can_enter(old(self)@, d),
        ensures
            keeps(old(self)@, final(self)@),
            known(old(self)@) && has_all(old(self)@, params@) ==> known(final(self)@),
            (final(self)@, r.0@, r.1) == signature_args(
                old(self)@,
                maybe_text(*name),
                pure,
                params@,
                *args,
                0,
                Seq::empty(),
                false,
                d,
            ),
        decreases 3 * d + 1, args, args@.len() + 1,
    {
        let mut found: Vec<TypeId> = Vec::new();
        assert(found@ =~= Seq::empty());
        let mut tainted = false;
        let mut i: usize = 0;
        while i < args.len() && i < params.len()
            invariant
                can_enter(self@, d),
                keeps(old(self)@, self@),
                known(old(self)@) && has_all(old(self)@, params@) ==> known(self@),
                i <= args@.len(),
                i <= params@.len(),
                signature_args(
                    self@,
                    maybe_text(*name),
                    pure,
                    params@,
                    *args,
                    i as nat,
                    found@,
                    tainted,
                    d,
                ) == signature_args(
                    old(self)@,
                    maybe_text(*name),
                    pure,
                    params@,
                    *args,
                    0,
                    Seq::empty(),
                    false,
                    d,
                ),
            decreases args@.len() - i,
        {
            let t: usize = self.check_expr_for_expected(&args[i].value, params[i], false, Ghost(d));
            let label = place_text(i as u128 + 1);
            let lifted = self.argument(
                name,
                pure,
                label.as_str(),
                params[i],
                t,
                args[i].value.span(),
            );
            found.push(t);
            tainted = tainted || lifted;
            i = i + 1;
        }
        (found, tainted)
    }

    fn check_json_public_call_policy(
        &mut self,
        name: &Option<String>,
        types: &Vec<TypeId>,
        args: &Vec<CallArg>,
        ret: TypeId,
    )
        ensures
            keeps(old(self)@, final(self)@),
            known(old(self)@) ==> known(final(self)@),
            final(self)@ == json_call_policy(
                old(self)@,
                maybe_text(*name),
                types@,
                args@,
                ret,
            ),
    {
        if types.len() == 0 || args.len() == 0 {
            return;
        }
        let viewed = match &args[0].value {
            Expr::View(_, _) => true,
            _ => false,
        };
        self.json_policy(name, types[0], viewed, args[0].value.span(), ret);
    }

    fn signature_call(
        &mut self,
        name: &Option<String>,
        pure: bool,
        sig: &FunctionShape,
        args: &Vec<CallArg>,
        span: Span,
        Ghost(d): Ghost<nat>,
    ) -> (r: TypeId)
        requires
            can_enter(old(self)@, d),
        ensures
            keeps(old(self)@, final(self)@),
            known(old(self)@) && has_shape(old(self)@, sig@)
                ==> known(final(self)@) && has(final(self)@, r),
            (final(self)@, r) == signature_call(
                old(self)@,
                maybe_text(*name),
                pure,
                sig@,
                *args,
                span,
                d,
            ),
        decreases 3 * d + 1, args, args@.len() + 3,
    {
        if args.len() != sig.params.len() {
            let label = match name {
                Some(n) => n.clone(),
                None => text("<anonymous>"),
            };
            self.wrong_argument_count(
                label.as_str(),
                sig.params.len() as u128,
                args.len() as u128,
                span,
            );
            self.check_each_arg(args, 0, Ghost(d));
            return sig.return_type;
        }
        let (types, tainted) = self.signature_args(name, pure, &sig.params, args, Ghost(d));
        let second = if args.len() > 1 {
            args[1].value.span()
        } else {
            span
        };
        self.compare_report(name, &types, second);
        self.check_json_public_call_policy(name, &types, args, sig.return_type);
        self.call_result(name, pure, tainted, sig.return_type)
    }

    fn constructor_named(&self, name: &Option<String>) -> (r: Option<Type>)
        ensures
            r == constructor_named(self@, maybe_text(*name)),
            r matches Some(Type::Struct(sid)) ==> sid.0 < self@.types.structs.len(),
            r matches Some(Type::Bitfield(bid)) ==> bid.0 < self@.types.bitfields.len(),
            r matches Some(Type::Machine(mid)) ==> mid.0 < self@.types.machines.len(),
    {
        proof {
            reveal(constructor_named);
        }
        match name {
            Some(n) => match self.get_named_types(n) {
                Some(id) => match self.resolve(id) {
                    Type::Struct(sid) => Some(Type::Struct(sid)),
                    Type::Bitfield(bid) => Some(Type::Bitfield(bid)),
                    Type::Machine(mid) => Some(Type::Machine(mid)),
                    _ => None,
                },
                None => None,
            },
            None => None,
        }
    }

    fn construct(&mut self, t: Type, args: &Vec<CallArg>, span: Span, Ghost(d): Ghost<nat>) -> (r: TypeId)
        requires
            can_enter(old(self)@, d),
            t matches Type::Struct(sid) ==> sid.0 < old(self)@.types.structs.len(),
            t matches Type::Bitfield(bid) ==> bid.0 < old(self)@.types.bitfields.len(),
            t matches Type::Machine(mid) ==> mid.0 < old(self)@.types.machines.len(),
        ensures
            keeps(old(self)@, final(self)@),
            known(old(self)@) ==> known(final(self)@) && has(final(self)@, r),
            (final(self)@, r) == construct(old(self)@, t, *args, span, d),
        decreases 3 * d + 1, args, args@.len() + 3,
    {
        match t {
            Type::Struct(sid) => self.check_struct_constructor(sid, args, span, Ghost(d)),
            Type::Bitfield(bid) => self.check_bitfield_constructor(bid, args, span, Ghost(d)),
            Type::Machine(mid) => self.check_machine_constructor(mid, args, span, Ghost(d)),
            _ => TypeInterner::ERROR,
        }
    }

    fn named_construct(&mut self, name: &String, t: Type, args: &Vec<CallArg>, span: Span, Ghost(d): Ghost<nat>) -> (r:
        TypeId)
        requires
            can_enter(old(self)@, d),
            t matches Type::Struct(sid) ==> sid.0 < old(self)@.types.structs.len(),
            t matches Type::Bitfield(bid) ==> bid.0 < old(self)@.types.bitfields.len(),
            t matches Type::Machine(mid) ==> mid.0 < old(self)@.types.machines.len(),
        ensures
            keeps(old(self)@, final(self)@),
            known(old(self)@) ==> known(final(self)@) && has(final(self)@, r),
            (final(self)@, r) == named_construct(old(self)@, name@, t, *args, span, d),
        decreases 3 * d + 1, args, args@.len() + 4,
    {
        if let Type::Struct(_) = t {
            if is_reflection_metadata_type_name(name.as_str()) {
                self.report1(ErrorCode::ReflectionMetadataConstructor, span, name.clone());
                self.check_each_arg(args, 0, Ghost(d));
                return TypeInterner::ERROR;
            }
        }
        self.construct(t, args, span, Ghost(d))
    }

    fn generic_construct(
        &mut self,
        name: &String,
        type_args: &Vec<TypeExpr>,
        args: &Vec<CallArg>,
        span: Span,
        Ghost(d): Ghost<nat>,
    ) -> (r: TypeId)
        requires
            can_enter(old(self)@, d),
        ensures
            keeps(old(self)@, final(self)@),
            known(old(self)@) ==> known(final(self)@) && has(final(self)@, r),
            (final(self)@, r) == generic_construct(
                old(self)@,
                name@,
                type_args@,
                *args,
                span,
                d,
            ),
        decreases 3 * d + 1, args, args@.len() + 3,
    {
        let ids = self.resolve_type_list(type_args);
        let id: usize = self.monomorphize_struct(name, &ids, span);
        if id == TypeInterner::ERROR {
            return TypeInterner::ERROR;
        }
        match self.resolve(id) {
            Type::Struct(sid) => self.check_struct_constructor(sid, args, span, Ghost(d)),
            _ => TypeInterner::ERROR,
        }
    }

    fn names_type(&self, callee: &Expr, t: Type) -> (r: bool)
        ensures
            r == names_type(self@, *callee, t),
    {
        proof {
            reveal(names_type);
        }
        match self.names().expanded_dotted_expr_name(callee) {
            Some(n) => match self.get_named_types(&n) {
                Some(id) => match (t, self.resolve(id)) {
                    (Type::Struct(_), Type::Struct(_)) => true,
                    (Type::Bitfield(_), Type::Bitfield(_)) => true,
                    _ => false,
                },
                None => false,
            },
            None => false,
        }
    }

    fn value_call(&mut self, e: &Expr, name: &Option<String>, pure: bool, Ghost(d): Ghost<nat>) -> (r: TypeId)
        requires
            can_enter(old(self)@, d),
        ensures
            keeps(old(self)@, final(self)@),
            known(old(self)@) ==> known(final(self)@) && has(final(self)@, r),
            (final(self)@, r) == value_call(
                old(self)@,
                *e,
                maybe_text(*name),
                pure,
                d,
            ),
        decreases 3 * d + 1, e, 0nat,
    {
        let (callee, args) = match e {
            Expr::Call(callee, args, _) => (callee, args),
            Expr::GenericCall(callee, _, args, _) => (callee, args),
            _ => {
                return TypeInterner::ERROR;
            },
        };
        let span = e.span();
        let id: usize = self.check_expr(callee, Ghost(d));
        if id == TypeInterner::ERROR {
            self.check_each_arg(args, 0, Ghost(d));
            return TypeInterner::ERROR;
        }
        let t = self.resolve(id);
        match t {
            Type::Function(f) => {
                let sig = self.interner().resolve_function(f).dup();
                return self.signature_call(name, pure, &sig, args, span, Ghost(d));
            },
            Type::Machine(_) => {
                return self.construct(t, args, span, Ghost(d));
            },
            Type::Struct(_) | Type::Bitfield(_) => {
                if self.names_type(callee, t) {
                    return self.construct(t, args, span, Ghost(d));
                }
            },
            _ => {},
        }
        let shown = self.name_of(id);
        self.report1(ErrorCode::NotCallable, span, shown);
        self.check_each_arg(args, 0, Ghost(d));
        TypeInterner::ERROR
    }

    fn typed_call(&mut self, e: &Expr, name: &Option<String>, pure: bool, Ghost(d): Ghost<nat>) -> (r: TypeId)
        requires
            can_enter(old(self)@, d),
        ensures
            keeps(old(self)@, final(self)@),
            known(old(self)@) ==> known(final(self)@) && has(final(self)@, r),
            (final(self)@, r) == typed_call(
                old(self)@,
                *e,
                maybe_text(*name),
                pure,
                d,
            ),
        decreases 3 * d + 1, e, 1nat,
    {
        match e {
            Expr::GenericCall(_, type_args, args, _) => {
                if let Some(n) = name {
                    if let Some(f) = self.get_function_templates(n) {
                        return self.generic_call(n, f, type_args, args, e.span(), Ghost(d));
                    }
                    if self.get_signatures(n).is_some() {
                        self.type_param_count(n, 0, type_args.len(), e.span());
                        self.check_each_arg(args, 0, Ghost(d));
                        return TypeInterner::ERROR;
                    }
                    if self.get_generic_struct_templates(n).is_some() {
                        return self.generic_construct(n, type_args, args, e.span(), Ghost(d));
                    }
                }
                self.value_call(e, name, pure, Ghost(d))
            },
            Expr::Call(_, args, _) => {
                let type_args: Vec<TypeExpr> = Vec::new();
                assert(type_args@ =~= Seq::empty());
                if let Some(n) = name {
                    if let Some(f) = self.get_function_templates(n) {
                        return self.generic_call(n, f, &type_args, args, e.span(), Ghost(d));
                    }
                    if self.get_signatures(n).is_some() {
                        self.type_param_count(n, 0, 0, e.span());
                        self.check_each_arg(args, 0, Ghost(d));
                        return TypeInterner::ERROR;
                    }
                    if self.get_generic_struct_templates(n).is_some() {
                        return self.generic_construct(n, &type_args, args, e.span(), Ghost(d));
                    }
                }
                self.value_call(e, name, pure, Ghost(d))
            },
            _ => TypeInterner::ERROR,
        }
    }

    fn plain_call(
        &mut self,
        e: &Expr,
        name: &Option<String>,
        pure: bool,
        builtin: Option<FunctionShape>,
        Ghost(d): Ghost<nat>,
    ) -> (r: TypeId)
        requires
            can_enter(old(self)@, d),
        ensures
            keeps(old(self)@, final(self)@),
            known(old(self)@) && (builtin matches Some(x)
                ==> has_shape(old(self)@, x@)) ==> known(final(self)@) && has(final(self)@, r),
            (final(self)@, r) == plain_call(
                old(self)@,
                *e,
                maybe_text(*name),
                pure,
                maybe_shape(builtin),
                d,
            ),
        decreases 3 * d + 1, e, 1nat,
    {
        proof {
            reveal(constructor_named);
        }
        let (callee, args) = match e {
            Expr::Call(callee, args, _) => (callee, args),
            Expr::GenericCall(callee, _, args, _) => (callee, args),
            _ => {
                return TypeInterner::ERROR;
            },
        };
        let span = e.span();
        if let Some(mid) = self.machine_transition_owner(callee) {
            return self.check_machine_transition_call(mid, args, span, Ghost(d));
        }
        if let Some(n) = name {
            if let Some(t) = self.constructor_named(name) {
                return self.named_construct(n, t, args, span, Ghost(d));
            }
        }
        match builtin {
            Some(sig) => self.signature_call(name, pure, &sig, args, span, Ghost(d)),
            None => {
                if let Some(n) = name {
                    if let Some(sig) = self.get_signatures(n) {
                        let sig = sig.dup();
                        return self.signature_call(name, pure, &sig, args, span, Ghost(d));
                    }
                }
                self.value_call(e, name, pure, Ghost(d))
            },
        }
    }

    fn check_call_of(
        &mut self,
        e: &Expr,
        callee: &Expr,
        type_args: &Vec<TypeExpr>,
        args: &Vec<CallArg>,
        Ghost(d): Ghost<nat>,
    ) -> (r: TypeId)
        requires
            can_enter(old(self)@, d),
            is_call(*e),
            *callee == callee_of(*e),
            type_args@ == type_args_of(*e),
            *args == args_of(*e),
        ensures
            keeps(old(self)@, final(self)@),
            known(old(self)@) ==> known(final(self)@) && has(final(self)@, r),
            (final(self)@, r) == check_call(old(self)@, *e, d),
        decreases 3 * d + 1, e, 2nat,
    {
        proof {
            reveal(special_named);
        }
        let span = e.span();
        let name = self.names().resolved_expr_name(callee);
        let pure = self.callee_is_pure(&name);
        let builtin = self.builtin_signature(callee, type_args, span);
        self.purity_reports(&name, pure, span);
        if let Some(n) = &name {
            if let Some(special) = find_special(&name) {
                return self.special_call(special, n, type_args, args, span, Ghost(d));
            }
        }
        if type_args.len() == 0 {
            return self.plain_call(e, &name, pure, builtin, Ghost(d));
        }
        match builtin {
            Some(sig) => {
                if let Some(n) = &name {
                    if self.get_generic_struct_templates(n).is_some() {
                        return self.generic_construct(n, type_args, args, span, Ghost(d));
                    }
                }
                self.signature_call(&name, pure, &sig, args, span, Ghost(d))
            },
            None => self.typed_call(e, &name, pure, Ghost(d)),
        }
    }

    pub(crate) fn check_call(&mut self, e: &Expr, Ghost(d): Ghost<nat>) -> (r: TypeId)
        requires
            can_enter(old(self)@, d),
        ensures
            keeps(old(self)@, final(self)@),
            known(old(self)@) ==> known(final(self)@) && has(final(self)@, r),
            (final(self)@, r) == check_call(old(self)@, *e, d),
        decreases 3 * d + 1, e, 3nat,
    {
        match e {
            Expr::Call(callee, args, _) => {
                let none: Vec<TypeExpr> = Vec::new();
                assert(none@ =~= Seq::empty());
                self.check_call_of(e, callee, &none, args, Ghost(d))
            },
            Expr::GenericCall(callee, type_args, args, _) => self.check_call_of(
                e,
                callee,
                type_args,
                args,
                Ghost(d),
            ),
            _ => TypeInterner::ERROR,
        }
    }
}

} // verus!
