//! Where a generic function looks at its type parameters, and whether each
//! such place can be settled once the type arguments are known.
use vstd::prelude::*;

use crate::ast::{
    expr_span, BinOp, Block, CallArg, Expr, FunctionDef, Ident, IfStmt, MatchArm, PipelineStep,
    Stmt, StringPart, TypeExpr, UnaryOp,
};
use crate::facts::ReflectionBranchContext;
use crate::names::{after_last_dot, before_last_dot, expanded_name, expr_name, split_last_dot};
use crate::resolution::{Names, ResolveResult};
use crate::span::Span;
use crate::table::views;
use crate::text::{contains_text, same_text, starts_with};

verus! {

pub type TypeParams = Set<Seq<char>>;

pub open spec fn mentions(t: TypeExpr, tp: TypeParams) -> bool
    decreases t,
{
    match t {
        TypeExpr::Named(ident) => tp.contains(ident.name@),
        TypeExpr::Generic(_, args, _) => exists|i: int|
            0 <= i < args@.len() && mentions(#[trigger] args@[i], tp),
        TypeExpr::View(inner, _) => mentions(*inner, tp),
        TypeExpr::StateQualified(inner, _, _) => mentions(*inner, tp),
        TypeExpr::Function(params, ret, _) => (exists|i: int|
            0 <= i < params@.len() && mentions(#[trigger] params@[i], tp)) || mentions(*ret, tp),
    }
}

pub open spec fn any_mentions(ts: Seq<TypeExpr>, tp: TypeParams) -> bool {
    exists|i: int| 0 <= i < ts.len() && mentions(#[trigger] ts[i], tp)
}

/// Whether the callee is one of the functions that describe types.
pub open spec fn reflects(names: Names, callee: Expr) -> bool {
    match expr_name(names, callee) {
        Some(name) => "type."@.is_prefix_of(name),
        None => false,
    }
}

/// Whether evaluating the expression looks at a type parameter.
pub open spec fn uses(names: Names, e: Expr, tp: TypeParams) -> bool
    decreases e,
{
    match e {
        Expr::GenericCall(callee, type_args, args, _) => {
            ||| reflects(names, *callee) && any_mentions(type_args@, tp)
            ||| uses(names, *callee, tp)
            ||| exists|i: int| 0 <= i < args@.len() && uses(names, (#[trigger] args@[i]).value, tp)
        },
        Expr::Call(callee, args, _) => {
            ||| uses(names, *callee, tp)
            ||| exists|i: int| 0 <= i < args@.len() && uses(names, (#[trigger] args@[i]).value, tp)
        },
        Expr::Binary(l, _, r, _) => uses(names, *l, tp) || uses(names, *r, tp),
        Expr::Unary(_, x, _) => uses(names, *x, tp),
        Expr::FieldAccess(x, _, _) => uses(names, *x, tp),
        Expr::Paren(x, _) => uses(names, *x, tp),
        Expr::View(x, _) => uses(names, *x, tp),
        Expr::OkOf(x, _) => uses(names, *x, tp),
        Expr::FailOf(x, _) => uses(names, *x, tp),
        Expr::SomeOf(x, _) => uses(names, *x, tp),
        Expr::Default(x, _) => uses(names, *x, tp),
        Expr::Declassify(x, _) => uses(names, *x, tp),
        Expr::Coarsen(x, _) => uses(names, *x, tp),
        Expr::At(x, _, _) => uses(names, *x, tp),
        Expr::Spawn(x, _) => uses(names, *x, tp),
        Expr::Send(x, _) => uses(names, *x, tp),
        Expr::Ask(x, _) => uses(names, *x, tp),
        Expr::Clone(x, _) => uses(names, *x, tp),
        Expr::Run(x, _) => uses(names, *x, tp),
        Expr::Join(x, _) => uses(names, *x, tp),
        Expr::Cancel(x, _) => uses(names, *x, tp),
        Expr::ListConstruct(es, _) => exists|i: int|
            0 <= i < es@.len() && uses(names, #[trigger] es@[i], tp),
        Expr::MapConstruct(es, _) => exists|i: int|
            0 <= i < es@.len() && (uses(names, (#[trigger] es@[i]).0, tp) || uses(
                names,
                es@[i].1,
                tp,
            )),
        Expr::Handle(target, _, body, _) => uses(names, *target, tp) || block_uses(names, body, tp),
        Expr::StringInterpolation(ps, _) => exists|i: int|
            0 <= i < ps@.len() && (match #[trigger] ps@[i] {
                StringPart::Expr(x) => uses(names, x, tp),
                _ => false,
            }),
        Expr::Pipeline(base, steps, _) => uses(names, *base, tp) || exists|i: int|
            0 <= i < steps@.len() && step_uses(names, #[trigger] steps@[i], tp),
        Expr::InlineFn(_, ret, body, _) => (match ret {
            Some(t) => mentions(t, tp),
            None => false,
        }) || block_uses(names, body, tp),
        _ => false,
    }
}

pub open spec fn step_uses(names: Names, step: PipelineStep, tp: TypeParams) -> bool
    decreases step,
{
    ||| uses(names, step.function, tp)
    ||| exists|i: int|
        0 <= i < step.extra_args@.len() && uses(names, (#[trigger] step.extra_args@[i]).value, tp)
}

pub open spec fn maybe_uses(names: Names, e: Option<Expr>, tp: TypeParams) -> bool
    decreases e,
{
    match e {
        Some(x) => uses(names, x, tp),
        None => false,
    }
}

pub open spec fn block_uses(names: Names, b: Block, tp: TypeParams) -> bool
    decreases b,
{
    exists|i: int| 0 <= i < b.stmts@.len() && stmt_uses(names, #[trigger] b.stmts@[i], tp)
}

pub open spec fn stmt_uses(names: Names, s: Stmt, tp: TypeParams) -> bool
    decreases s,
{
    match s {
        Stmt::VarDecl(d) => uses(names, d.value, tp),
        Stmt::Assign(a) => uses(names, a.target, tp) || uses(names, a.value, tp),
        Stmt::Return(r) => maybe_uses(names, r.value, tp),
        Stmt::Respond(r) => uses(names, r.value, tp),
        Stmt::ComptimeTypeBind(b) => uses(names, b.value, tp) || block_uses(names, b.body, tp),
        Stmt::If(i) => {
            ||| uses(names, i.condition, tp)
            ||| block_uses(names, i.then_block, tp)
            ||| exists|j: int|
                0 <= j < i.else_ifs@.len() && (uses(names, (#[trigger] i.else_ifs@[j]).0, tp)
                    || block_uses(names, i.else_ifs@[j].1, tp))
            ||| (match i.else_block {
                Some(b) => block_uses(names, b, tp),
                None => false,
            })
        },
        Stmt::For(f) => uses(names, f.iterable, tp) || block_uses(names, f.body, tp),
        Stmt::While(w) => uses(names, w.condition, tp) || block_uses(names, w.body, tp),
        Stmt::Match(m) => uses(names, m.expr, tp) || exists|j: int|
            0 <= j < m.arms@.len() && block_uses(names, (#[trigger] m.arms@[j]).body, tp),
        Stmt::Expr(e) => uses(names, e.expr, tp),
        Stmt::Assert(a) => uses(names, a.condition, tp) || maybe_uses(names, a.message, tp),
        Stmt::Breakpoint(b) => maybe_uses(names, b.condition, tp),
        _ => false,
    }
}

// ---------------------------------------------------------------------------
// The first place where a type parameter is looked at
// ---------------------------------------------------------------------------

pub open spec fn expr_place(names: Names, e: Expr, tp: TypeParams) -> Option<Span> {
    if uses(names, e, tp) {
        Some(expr_span(e))
    } else {
        None
    }
}

pub open spec fn maybe_place(names: Names, e: Option<Expr>, tp: TypeParams) -> Option<Span> {
    match e {
        Some(x) => expr_place(names, x, tp),
        None => None,
    }
}

pub open spec fn or_place(a: Option<Span>, b: Option<Span>) -> Option<Span> {
    match a {
        Some(x) => Some(x),
        None => b,
    }
}

pub open spec fn block_place(names: Names, b: Block, i: nat, tp: TypeParams) -> Option<Span>
    decreases b, b.stmts@.len() - i,
{
    if i >= b.stmts@.len() {
        None
    } else {
        or_place(
            stmt_place(names, b.stmts@[i as int], tp),
            block_place(names, b, i + 1, tp),
        )
    }
}

pub open spec fn else_ifs_place(names: Names, es: Vec<(Expr, Block)>, i: nat, tp: TypeParams) -> Option<
    Span,
>
    decreases es, es@.len() - i,
{
    if i >= es@.len() {
        None
    } else {
        or_place(
            block_place(names, es@[i as int].1, 0, tp),
            else_ifs_place(names, es, i + 1, tp),
        )
    }
}

/// The first place in the branches of an `if`.
pub open spec fn branches_place(names: Names, i: IfStmt, tp: TypeParams) -> Option<Span>
    decreases i, 0nat,
{
    or_place(
        block_place(names, i.then_block, 0, tp),
        or_place(
            else_ifs_place(names, i.else_ifs, 0, tp),
            match i.else_block {
                Some(b) => block_place(names, b, 0, tp),
                None => None,
            },
        ),
    )
}

/// The first place in the arms of a `match`.
pub open spec fn arms_place(names: Names, arms: Vec<MatchArm>, i: nat, tp: TypeParams) -> Option<Span>
    decreases arms, arms@.len() - i,
{
    if i >= arms@.len() {
        None
    } else {
        or_place(
            block_place(names, arms@[i as int].body, 0, tp),
            arms_place(names, arms, i + 1, tp),
        )
    }
}

pub open spec fn stmt_place(names: Names, s: Stmt, tp: TypeParams) -> Option<Span>
    decreases s, 0nat,
{
    match s {
        Stmt::VarDecl(d) => expr_place(names, d.value, tp),
        Stmt::Assign(a) => or_place(
            expr_place(names, a.target, tp),
            expr_place(names, a.value, tp),
        ),
        Stmt::Return(r) => maybe_place(names, r.value, tp),
        Stmt::Respond(r) => expr_place(names, r.value, tp),
        Stmt::ComptimeTypeBind(b) => or_place(
            expr_place(names, b.value, tp),
            block_place(names, b.body, 0, tp),
        ),
        Stmt::If(i) => or_place(expr_place(names, i.condition, tp), branches_place(names, i, tp)),
        Stmt::For(f) => or_place(
            expr_place(names, f.iterable, tp),
            block_place(names, f.body, 0, tp),
        ),
        Stmt::While(w) => or_place(
            expr_place(names, w.condition, tp),
            block_place(names, w.body, 0, tp),
        ),
        Stmt::Match(m) => or_place(
            expr_place(names, m.expr, tp),
            arms_place(names, m.arms, 0, tp),
        ),
        Stmt::Expr(e) => expr_place(names, e.expr, tp),
        Stmt::Assert(a) => or_place(
            expr_place(names, a.condition, tp),
            maybe_place(names, a.message, tp),
        ),
        Stmt::Breakpoint(b) => maybe_place(names, b.condition, tp),
        _ => None,
    }
}

// ---------------------------------------------------------------------------
// Forms of reflection
// ---------------------------------------------------------------------------

pub open spec fn is_named(names: Names, callee: Expr, name: Seq<char>) -> bool {
    expr_name(names, callee) == Some(name)
}

/// `name[T]()` on a type that mentions a type parameter.
pub open spec fn direct_reflection(
    names: Names,
    callee: Expr,
    type_args: Seq<TypeExpr>,
    args: Seq<CallArg>,
    name: Seq<char>,
    tp: TypeParams,
) -> bool {
    args.len() == 0 && is_named(names, callee, name) && type_args.len() == 1 && mentions(
        type_args[0],
        tp,
    )
}

pub open spec fn info_reflection(names: Names, e: Expr, tp: TypeParams) -> bool
    decreases e,
{
    match e {
        Expr::GenericCall(callee, type_args, args, _) => direct_reflection(
            names,
            *callee,
            type_args@,
            args@,
            "type.info"@,
            tp,
        ),
        Expr::Paren(x, _) => info_reflection(names, *x, tp),
        _ => false,
    }
}

pub open spec fn kind_reflection(names: Names, e: Expr, tp: TypeParams) -> bool
    decreases e,
{
    match e {
        Expr::GenericCall(callee, type_args, args, _) => direct_reflection(
            names,
            *callee,
            type_args@,
            args@,
            "type.kind_tag"@,
            tp,
        ),
        Expr::FieldAccess(base, field, _) => field.name@ == "kind_tag"@ && info_reflection(
            names,
            *base,
            tp,
        ),
        Expr::Paren(x, _) => kind_reflection(names, *x, tp),
        _ => false,
    }
}

pub open spec fn optional_primitive_reflection(names: Names, e: Expr, tp: TypeParams) -> bool
    decreases e,
{
    match e {
        Expr::GenericCall(callee, type_args, args, _) => direct_reflection(
            names,
            *callee,
            type_args@,
            args@,
            "type.primitive_tag"@,
            tp,
        ),
        Expr::FieldAccess(base, field, _) => field.name@ == "primitive_tag"@ && info_reflection(
            names,
            *base,
            tp,
        ),
        Expr::Paren(x, _) => optional_primitive_reflection(names, *x, tp),
        _ => false,
    }
}

/// The variant named by a literal of the enum `owner`.
pub open spec fn literal_variant(names: Names, e: Expr, owner: Seq<char>) -> Option<Seq<char>>
    decreases e,
{
    match e {
        Expr::Paren(x, _) => literal_variant(names, *x, owner),
        Expr::EnumVariant(t, variant, _) => if t.name@ == owner {
            Some(variant.name@)
        } else {
            None
        },
        Expr::FieldAccess(_, _, _) => match expanded_name(names, e) {
            Some(name) => if before_last_dot(name) == Some(owner) {
                after_last_dot(name)
            } else {
                None
            },
            None => None,
        },
        _ => None,
    }
}

pub open spec fn kind_literal(names: Names, e: Expr) -> Option<Seq<char>> {
    literal_variant(names, e, "TypeKind"@)
}

pub open spec fn primitive_literal(names: Names, e: Expr) -> Option<Seq<char>> {
    literal_variant(names, e, "TypePrimitive"@)
}

/// The value after `default` at the end of a block.
pub open spec fn default_of(b: Block) -> Option<Expr> {
    if b.stmts@.len() == 0 {
        None
    } else {
        match b.stmts@.last() {
            Stmt::Expr(s) => match s.expr {
                Expr::Default(x, _) => Some(*x),
                _ => None,
            },
            _ => None,
        }
    }
}

pub open spec fn defaults_to_primitive(names: Names, b: Block) -> bool {
    match default_of(b) {
        Some(x) => primitive_literal(names, x) is Some,
        None => false,
    }
}

pub open spec fn primitive_reflection(names: Names, e: Expr, tp: TypeParams) -> bool
    decreases e,
{
    match e {
        Expr::Handle(target, _, body, _) => optional_primitive_reflection(names, *target, tp)
            && defaults_to_primitive(names, body),
        Expr::Paren(x, _) => primitive_reflection(names, *x, tp),
        _ => false,
    }
}

pub open spec fn reflection_literal(names: Names, e: Expr) -> bool {
    kind_literal(names, e) is Some || primitive_literal(names, e) is Some
}

/// Whether the expression may hold a primitive tag that is known beforehand.
pub open spec fn maybe_static_primitive(names: Names, e: Expr) -> bool
    decreases e,
{
    match e {
        Expr::Paren(x, _) => maybe_static_primitive(names, *x),
        Expr::FieldAccess(_, field, _) => field.name@ == "primitive_tag"@,
        Expr::GenericCall(callee, _, args, _) => args@.len() == 0 && is_named(
            names,
            *callee,
            "type.primitive_tag"@,
        ),
        _ => false,
    }
}

/// Whether the value of the expression may be known once the type arguments are.
pub open spec fn maybe_static_value(names: Names, e: Expr) -> bool
    decreases e,
{
    match e {
        Expr::Paren(x, _) => maybe_static_value(names, *x),
        Expr::Ident(_) => true,
        Expr::GenericCall(callee, _, args, _) => args@.len() == 0 && is_named(
            names,
            *callee,
            "type.kind_tag"@,
        ),
        Expr::FieldAccess(_, field, _) => field.name@ == "kind_tag"@,
        Expr::Handle(target, _, body, _) => maybe_static_primitive(names, *target)
            && defaults_to_primitive(names, body),
        _ => false,
    }
}

/// Whether the condition may be decided once the type arguments are known.
pub open spec fn maybe_static_condition(names: Names, e: Expr) -> bool
    decreases e,
{
    match e {
        Expr::BoolLiteral(_, _) => true,
        Expr::Paren(x, _) => maybe_static_condition(names, *x),
        Expr::Unary(op, x, _) => op == UnaryOp::Not && maybe_static_condition(names, *x),
        Expr::Binary(l, op, r, _) => match op {
            BinOp::And | BinOp::Or => maybe_static_condition(names, *l) && maybe_static_condition(
                names,
                *r,
            ),
            BinOp::Eq | BinOp::NotEq => (maybe_static_value(names, *l) && reflection_literal(
                names,
                *r,
            )) || (reflection_literal(names, *l) && maybe_static_value(names, *r)),
            _ => false,
        },
        _ => false,
    }
}

/// A reflection that may stand as the whole value of a statement.
pub open spec fn direct_source(names: Names, e: Expr, tp: TypeParams) -> bool
    decreases e,
{
    match e {
        Expr::Paren(x, _) => direct_source(names, *x, tp),
        Expr::Handle(x, _, _, _) => direct_source(names, *x, tp),
        Expr::GenericCall(callee, type_args, _, _) => {
            &&& is_named(names, *callee, "type.variant_value"@) || is_named(
                names,
                *callee,
                "type.construct_start"@,
            ) || is_named(names, *callee, "type.construct_variant_start"@) || is_named(
                names,
                *callee,
                "type.construct_machine_start"@,
            ) || is_named(names, *callee, "type.construct_finish"@)
            &&& any_mentions(type_args@, tp)
        },
        _ => false,
    }
}

/// A reflection whose result a local variable can be known to hold.
pub open spec fn fact_source(names: Names, e: Expr, tp: TypeParams) -> bool {
    info_reflection(names, e, tp) || kind_reflection(names, e, tp) || primitive_reflection(names, e, tp)
}

// ---------------------------------------------------------------------------
// `type.<member>[T](..)` as written
// ---------------------------------------------------------------------------

/// Whether the callee is written `type.<member>`.
pub open spec fn type_member(callee: Expr, member: Seq<char>) -> bool {
    match callee {
        Expr::FieldAccess(base, field, _) => field.name@ == member && (match *base {
            Expr::Ident(ident) => ident.name@ == "type"@,
            _ => false,
        }),
        _ => false,
    }
}

/// The `T` of `type.<member>[T]` with `n` arguments.
pub open spec fn member_type(e: Expr, member: Seq<char>, n: nat) -> Option<TypeExpr> {
    match e {
        Expr::GenericCall(callee, type_args, args, _) => if type_args@.len() == 1 && args@.len() == n
            && type_member(*callee, member) {
            Some(type_args@[0])
        } else {
            None
        },
        _ => None,
    }
}

/// The `T` of `type.<member>[T](x).fields`.
pub open spec fn member_fields_type(e: Expr, member: Seq<char>) -> Option<TypeExpr> {
    match e {
        Expr::FieldAccess(base, field, _) => if field.name@ == "fields"@ {
            member_type(*base, member, 1)
        } else {
            None
        },
        _ => None,
    }
}

/// The `T` and the place in `type.arg[T](place)`.
pub open spec fn arg_binding(e: Expr) -> Option<(TypeExpr, usize)> {
    match e {
        Expr::GenericCall(callee, type_args, args, _) => if type_args@.len() == 1 && args@.len() == 1
            && type_member(*callee, "arg"@) && args@[0].name is None {
            match args@[0].value {
                Expr::IntLiteral(index, _) => if 0 <= index <= usize::MAX {
                    Some((type_args@[0], index as usize))
                } else {
                    None
                },
                _ => None,
            }
        } else {
            None
        },
        _ => None,
    }
}

/// The type whose parts a loop goes over.
pub open spec fn loop_owner(e: Expr) -> Option<TypeExpr> {
    match member_type(e, "fields"@, 0) {
        Some(t) => Some(t),
        None => match member_type(e, "variants"@, 0) {
            Some(t) => Some(t),
            None => match member_type(e, "machine_states"@, 0) {
                Some(t) => Some(t),
                None => member_fields_type(e, "machine_state_value"@),
            },
        },
    }
}

/// The name of `name.<field>`.
pub open spec fn field_of_name(e: Expr, member: Seq<char>) -> Option<Seq<char>> {
    match e {
        Expr::FieldAccess(base, field, _) => if field.name@ == member {
            match *base {
                Expr::Ident(ident) => Some(ident.name@),
                _ => None,
            }
        } else {
            None
        },
        _ => None,
    }
}

// ---------------------------------------------------------------------------
// Whether every reflection can be settled
// ---------------------------------------------------------------------------

pub open spec fn branch_context(is_static: bool) -> ReflectionBranchContext {
    if is_static {
        ReflectionBranchContext::StaticReflectionBranch
    } else {
        ReflectionBranchContext::RuntimeBranch
    }
}

pub open spec fn block_settles(
    names: Names,
    b: Block,
    tp: TypeParams,
    context: ReflectionBranchContext,
) -> bool
    decreases b, 1nat,
{
    forall|i: int|
        0 <= i < b.stmts@.len() ==> stmt_settles(names, #[trigger] b.stmts@[i], tp, context)
}

/// The branches of an `if` from the `i`th `else if` on. `all_static` tells
/// whether every condition before may be decided.
pub open spec fn else_ifs_settle(
    names: Names,
    es: Vec<(Expr, Block)>,
    i: nat,
    tp: TypeParams,
) -> bool
    decreases es, es@.len() - i,
{
    if i >= es@.len() {
        true
    } else {
        let is_static = maybe_static_condition(names, es@[i as int].0);
        &&& !uses(names, es@[i as int].0, tp) || is_static
        &&& block_settles(names, es@[i as int].1, tp, branch_context(is_static))
        &&& else_ifs_settle(names, es, i + 1, tp)
    }
}

pub open spec fn all_static(names: Names, es: Seq<(Expr, Block)>) -> bool {
    forall|i: int| 0 <= i < es.len() ==> maybe_static_condition(names, (#[trigger] es[i]).0)
}

/// Whether the type that a binding reads mentions a type parameter.
pub open spec fn binding_mentions(e: Expr, tp: TypeParams) -> bool {
    match member_type(e, "info"@, 0) {
        Some(t) => mentions(t, tp),
        None => match arg_binding(e) {
            Some((t, _)) => mentions(t, tp),
            None => false,
        },
    }
}

pub open spec fn loop_mentions(e: Expr, tp: TypeParams) -> bool {
    match loop_owner(e) {
        Some(t) => mentions(t, tp),
        None => false,
    }
}

pub open spec fn stmt_settles(
    names: Names,
    s: Stmt,
    tp: TypeParams,
    context: ReflectionBranchContext,
) -> bool
    decreases s, 0nat,
{
    if context == ReflectionBranchContext::StaticReflectionBranch {
        true
    } else {
        match s {
            Stmt::If(i) => {
                let is_static = maybe_static_condition(names, i.condition);
                &&& !uses(names, i.condition, tp) || is_static
                &&& block_settles(names, i.then_block, tp, branch_context(is_static))
                &&& else_ifs_settle(names, i.else_ifs, 0, tp)
                &&& (match i.else_block {
                    Some(b) => block_settles(
                        names,
                        b,
                        tp,
                        branch_context(is_static && all_static(names, i.else_ifs@)),
                    ),
                    None => true,
                })
            },
            Stmt::VarDecl(d) => !uses(names, d.value, tp) || (context.permits() && (direct_source(
                names,
                d.value,
                tp,
            ) || (!d.mutable && fact_source(names, d.value, tp)))),
            Stmt::Return(r) => match r.value {
                Some(x) => !uses(names, x, tp) || (context.permits() && direct_source(names, x, tp)),
                None => true,
            },
            Stmt::ComptimeTypeBind(b) => if binding_mentions(b.value, tp) {
                context.permits() && block_settles(names, b.body, tp, context)
            } else {
                !uses(names, b.value, tp) && block_settles(names, b.body, tp, context)
            },
            Stmt::For(f) => if loop_mentions(f.iterable, tp) {
                context.permits() && block_settles(
                    names,
                    f.body,
                    tp,
                    ReflectionBranchContext::StaticReflectionBranch,
                )
            } else {
                !uses(names, f.iterable, tp) && block_settles(names, f.body, tp, context)
            },
            Stmt::Match(m) => {
                let is_static = maybe_static_value(names, m.expr);
                &&& !uses(names, m.expr, tp) || is_static
                &&& forall|j: int|
                    0 <= j < m.arms@.len() ==> block_settles(
                        names,
                        (#[trigger] m.arms@[j]).body,
                        tp,
                        branch_context(is_static),
                    )
            },
            _ => !stmt_uses(names, s, tp),
        }
    }
}

pub open spec fn type_params_of(f: FunctionDef) -> TypeParams {
    Set::new(|n: Seq<char>| exists|i: int| 0 <= i < f.type_params@.len() && (#[trigger] f.type_params@[i]).name@ == n)
}

// ---------------------------------------------------------------------------
// The tests
// ---------------------------------------------------------------------------

/// The names in a list, as type parameters.
pub open spec fn as_params(v: Seq<String>) -> TypeParams {
    Set::new(|n: Seq<char>| views(v).contains(n))
}

/// The type parameters of a function.
pub fn type_param_names(f: &FunctionDef) -> (r: Vec<String>)
    ensures
        as_params(r@) == type_params_of(*f),
{
    let mut r: Vec<String> = Vec::new();
    let mut i: usize = 0;
    while i < f.type_params.len()
        invariant
            i <= f.type_params@.len(),
            r@.len() == i,
            forall|j: int| 0 <= j < i ==> (#[trigger] r@[j])@ == f.type_params@[j].name@,
        decreases f.type_params@.len() - i,
    {
        r.push(f.type_params[i].name.clone());
        i = i + 1;
    }
    proof {
        assert forall|n: Seq<char>| as_params(r@).contains(n) == type_params_of(*f).contains(n) by {
            if as_params(r@).contains(n) {
                let j = choose|j: int| 0 <= j < views(r@).len() && views(r@)[j] == n;
                assert(r@[j]@ == f.type_params@[j].name@);
            }
            if type_params_of(*f).contains(n) {
                let j = choose|j: int|
                    0 <= j < f.type_params@.len() && (#[trigger] f.type_params@[j]).name@ == n;
                assert(r@[j]@ == n);
                assert(views(r@)[j] == n);
            }
        }
        assert(as_params(r@) =~= type_params_of(*f));
    }
    r
}

pub fn type_expr_mentions_type_param(t: &TypeExpr, tp: &Vec<String>) -> (r: bool)
    ensures
        r == mentions(*t, as_params(tp@)),
    decreases t,
{
    match t {
        TypeExpr::Named(ident) => contains_text(tp, &ident.name),
        TypeExpr::Generic(_, args, _) => any_type_mentions(args, tp),
        TypeExpr::View(inner, _) => type_expr_mentions_type_param(inner, tp),
        TypeExpr::StateQualified(inner, _, _) => type_expr_mentions_type_param(inner, tp),
        TypeExpr::Function(params, ret, _) => any_type_mentions(params, tp)
            || type_expr_mentions_type_param(ret, tp),
    }
}

pub fn any_type_mentions(ts: &Vec<TypeExpr>, tp: &Vec<String>) -> (r: bool)
    ensures
        r == any_mentions(ts@, as_params(tp@)),
    decreases ts,
{
    let mut i: usize = 0;
    while i < ts.len()
        invariant
            i <= ts@.len(),
            forall|j: int| 0 <= j < i ==> !mentions(#[trigger] ts@[j], as_params(tp@)),
        decreases ts@.len() - i,
    {
        if type_expr_mentions_type_param(&ts[i], tp) {
            assert(mentions(ts@[i as int], as_params(tp@)));
            return true;
        }
        i = i + 1;
    }
    false
}

/// The value after `default` at the end of a block.
pub fn handle_default_expr(body: &Block) -> (r: Option<&Expr>)
    ensures
        r is Some <==> default_of(*body) is Some,
        r matches Some(e) ==> default_of(*body) == Some(*e),
{
    let n: usize = body.stmts.len();
    if n == 0 {
        return None;
    }
    match &body.stmts[n - 1] {
        Stmt::Expr(s) => match &s.expr {
            Expr::Default(x, _) => Some(x),
            _ => None,
        },
        _ => None,
    }
}

pub fn is_type_member(callee: &Expr, member: &str) -> (r: bool)
    ensures
        r == type_member(*callee, member@),
{
    match callee {
        Expr::FieldAccess(base, field, _) => {
            if !same_text(field.name.as_str(), member) {
                return false;
            }
            match &**base {
                Expr::Ident(ident) => same_text(ident.name.as_str(), "type"),
                _ => false,
            }
        },
        _ => false,
    }
}

/// The `T` of `type.<member>[T]` with `n` arguments.
pub fn find_member_type<'e>(e: &'e Expr, member: &str, n: usize) -> (r: Option<&'e TypeExpr>)
    ensures
        r is Some <==> member_type(*e, member@, n as nat) is Some,
        r matches Some(t) ==> member_type(*e, member@, n as nat) == Some(*t),
{
    match e {
        Expr::GenericCall(callee, type_args, args, _) => {
            if type_args.len() == 1 && args.len() == n && is_type_member(callee, member) {
                Some(&type_args[0])
            } else {
                None
            }
        },
        _ => None,
    }
}

pub fn find_member_fields_type<'e>(e: &'e Expr, member: &str) -> (r: Option<&'e TypeExpr>)
    ensures
        r is Some <==> member_fields_type(*e, member@) is Some,
        r matches Some(t) ==> member_fields_type(*e, member@) == Some(*t),
{
    match e {
        Expr::FieldAccess(base, field, _) => {
            if same_text(field.name.as_str(), "fields") {
                find_member_type(base, member, 1)
            } else {
                None
            }
        },
        _ => None,
    }
}

pub fn comptime_type_arg_binding(e: &Expr) -> (r: Option<(&TypeExpr, usize)>)
    ensures
        r is Some <==> arg_binding(*e) is Some,
        r matches Some((t, i)) ==> arg_binding(*e) == Some((*t, i)),
{
    match e {
        Expr::GenericCall(callee, type_args, args, _) => {
            if type_args.len() != 1 || args.len() != 1 || !is_type_member(callee, "arg") {
                return None;
            }
            if args[0].name.is_some() {
                return None;
            }
            match &args[0].value {
                Expr::IntLiteral(index, _) => {
                    if 0 <= *index && *index <= usize::MAX as i128 {
                        Some((&type_args[0], *index as usize))
                    } else {
                        None
                    }
                },
                _ => None,
            }
        },
        _ => None,
    }
}

pub fn direct_reflected_loop_owner_type(e: &Expr) -> (r: Option<&TypeExpr>)
    ensures
        r is Some <==> loop_owner(*e) is Some,
        r matches Some(t) ==> loop_owner(*e) == Some(*t),
{
    if let Some(t) = find_member_type(e, "fields", 0) {
        return Some(t);
    }
    if let Some(t) = find_member_type(e, "variants", 0) {
        return Some(t);
    }
    if let Some(t) = find_member_type(e, "machine_states", 0) {
        return Some(t);
    }
    find_member_fields_type(e, "machine_state_value")
}

pub fn find_field_of_name<'e>(e: &'e Expr, member: &str) -> (r: Option<&'e String>)
    ensures
        r is Some <==> field_of_name(*e, member@) is Some,
        r matches Some(n) ==> field_of_name(*e, member@) == Some(n@),
{
    match e {
        Expr::FieldAccess(base, field, _) => {
            if same_text(field.name.as_str(), member) {
                match &**base {
                    Expr::Ident(ident) => Some(&ident.name),
                    _ => None,
                }
            } else {
                None
            }
        },
        _ => None,
    }
}

fn context_for(is_static: bool) -> (r: ReflectionBranchContext)
    ensures
        r == branch_context(is_static),
{
    if is_static {
        ReflectionBranchContext::StaticReflectionBranch
    } else {
        ReflectionBranchContext::RuntimeBranch
    }
}

fn first_of(a: Option<Span>, b: Option<Span>) -> (r: Option<Span>)
    ensures
        r == or_place(a, b),
{
    match a {
        Some(x) => Some(x),
        None => b,
    }
}

impl ResolveResult {
    fn is_reflection_callee(&self, callee: &Expr) -> (r: bool)
        ensures
            r == reflects(self@, *callee),
    {
        match self.resolved_expr_name(callee) {
            Some(name) => starts_with(name.as_str(), "type."),
            None => false,
        }
    }

    /// Whether the callee goes by that full name.
    pub fn callee_is(&self, callee: &Expr, name: &str) -> (r: bool)
        ensures
            r == is_named(self@, *callee, name@),
    {
        match self.resolved_expr_name(callee) {
            Some(n) => same_text(n.as_str(), name),
            None => false,
        }
    }

    pub fn expr_uses_type_param_reflection(&self, e: &Expr, tp: &Vec<String>) -> (r: bool)
        ensures
            r == uses(self@, *e, as_params(tp@)),
        decreases e, 0nat,
    {
        match e {
            Expr::GenericCall(callee, type_args, args, _) => (self.is_reflection_callee(callee)
                && any_type_mentions(type_args, tp)) || self.expr_uses_type_param_reflection(callee, tp)
                || self.args_use(args, tp),
            Expr::Call(callee, args, _) => self.expr_uses_type_param_reflection(callee, tp)
                || self.args_use(args, tp),
            Expr::Binary(l, _, r, _) => self.expr_uses_type_param_reflection(l, tp)
                || self.expr_uses_type_param_reflection(r, tp),
            Expr::Unary(_, x, _) | Expr::FieldAccess(x, _, _) | Expr::Paren(x, _) | Expr::View(x, _)
            | Expr::OkOf(x, _) | Expr::FailOf(x, _) | Expr::SomeOf(x, _) | Expr::Default(x, _)
            | Expr::Declassify(x, _) | Expr::Coarsen(x, _) | Expr::At(x, _, _) | Expr::Spawn(x, _)
            | Expr::Send(x, _) | Expr::Ask(x, _) | Expr::Clone(x, _) | Expr::Run(x, _)
            | Expr::Join(x, _) | Expr::Cancel(x, _) => self.expr_uses_type_param_reflection(x, tp),
            Expr::ListConstruct(es, _) => self.exprs_use(es, tp),
            Expr::MapConstruct(es, _) => self.entries_use(es, tp),
            Expr::Handle(target, _, body, _) => self.expr_uses_type_param_reflection(target, tp)
                || self.block_uses_type_param_reflection(body, tp),
            Expr::StringInterpolation(ps, _) => self.parts_use(ps, tp),
            Expr::Pipeline(base, steps, _) => self.expr_uses_type_param_reflection(base, tp)
                || self.steps_use(steps, tp),
            Expr::InlineFn(_, ret, body, _) => (match ret {
                Some(t) => type_expr_mentions_type_param(t, tp),
                None => false,
            }) || self.block_uses_type_param_reflection(body, tp),
            Expr::IntLiteral(_, _) | Expr::FloatLiteral(_, _) | Expr::StringLiteral(_, _)
            | Expr::BoolLiteral(_, _) | Expr::Nothing(_) | Expr::Ident(_) | Expr::NoneOf(_)
            | Expr::EnumVariant(_, _, _) | Expr::Error(_) => false,
        }
    }

    fn args_use(&self, args: &Vec<CallArg>, tp: &Vec<String>) -> (r: bool)
        ensures
            r == exists|i: int|
                0 <= i < args@.len() && uses(self@, (#[trigger] args@[i]).value, as_params(tp@)),
        decreases args, 1nat,
    {
        let mut i: usize = 0;
        while i < args.len()
            invariant
                i <= args@.len(),
                forall|j: int|
                    0 <= j < i ==> !uses(self@, (#[trigger] args@[j]).value, as_params(tp@)),
            decreases args@.len() - i,
        {
            if self.expr_uses_type_param_reflection(&args[i].value, tp) {
                assert(uses(self@, args@[i as int].value, as_params(tp@)));
                return true;
            }
            i = i + 1;
        }
        false
    }

    fn exprs_use(&self, es: &Vec<Expr>, tp: &Vec<String>) -> (r: bool)
        ensures
            r == exists|i: int| 0 <= i < es@.len() && uses(self@, #[trigger] es@[i], as_params(tp@)),
        decreases es, 1nat,
    {
        let mut i: usize = 0;
        while i < es.len()
            invariant
                i <= es@.len(),
                forall|j: int| 0 <= j < i ==> !uses(self@, #[trigger] es@[j], as_params(tp@)),
            decreases es@.len() - i,
        {
            if self.expr_uses_type_param_reflection(&es[i], tp) {
                assert(uses(self@, es@[i as int], as_params(tp@)));
                return true;
            }
            i = i + 1;
        }
        false
    }

    fn entries_use(&self, es: &Vec<(Expr, Expr)>, tp: &Vec<String>) -> (r: bool)
        ensures
            r == exists|i: int|
                0 <= i < es@.len() && (uses(self@, (#[trigger] es@[i]).0, as_params(tp@)) || uses(
                    self@,
                    es@[i].1,
                    as_params(tp@),
                )),
        decreases es, 1nat,
    {
        let mut i: usize = 0;
        while i < es.len()
            invariant
                i <= es@.len(),
                forall|j: int|
                    0 <= j < i ==> !uses(self@, (#[trigger] es@[j]).0, as_params(tp@)) && !uses(
                        self@,
                        es@[j].1,
                        as_params(tp@),
                    ),
            decreases es@.len() - i,
        {
            if self.expr_uses_type_param_reflection(&es[i].0, tp)
                || self.expr_uses_type_param_reflection(&es[i].1, tp) {
                assert(uses(self@, es@[i as int].0, as_params(tp@)) || uses(
                    self@,
                    es@[i as int].1,
                    as_params(tp@),
                ));
                return true;
            }
            i = i + 1;
        }
        false
    }

    fn parts_use(&self, ps: &Vec<StringPart>, tp: &Vec<String>) -> (r: bool)
        ensures
            r == exists|i: int|
                0 <= i < ps@.len() && (match #[trigger] ps@[i] {
                    StringPart::Expr(x) => uses(self@, x, as_params(tp@)),
                    _ => false,
                }),
        decreases ps, 1nat,
    {
        let mut i: usize = 0;
        while i < ps.len()
            invariant
                i <= ps@.len(),
                forall|j: int|
                    0 <= j < i ==> !(match #[trigger] ps@[j] {
                        StringPart::Expr(x) => uses(self@, x, as_params(tp@)),
                        _ => false,
                    }),
            decreases ps@.len() - i,
        {
            match &ps[i] {
                StringPart::Expr(x) => {
                    if self.expr_uses_type_param_reflection(x, tp) {
                        assert(ps@[i as int] == StringPart::Expr(*x));
                        return true;
                    }
                },
                StringPart::Literal(_) => {},
            }
            i = i + 1;
        }
        false
    }

    fn steps_use(&self, steps: &Vec<PipelineStep>, tp: &Vec<String>) -> (r: bool)
        ensures
            r == exists|i: int|
                0 <= i < steps@.len() && step_uses(self@, #[trigger] steps@[i], as_params(tp@)),
        decreases steps, 1nat,
    {
        let mut i: usize = 0;
        while i < steps.len()
            invariant
                i <= steps@.len(),
                forall|j: int|
                    0 <= j < i ==> !step_uses(self@, #[trigger] steps@[j], as_params(tp@)),
            decreases steps@.len() - i,
        {
            let step = &steps[i];
            if self.expr_uses_type_param_reflection(&step.function, tp) || self.args_use(
                &step.extra_args,
                tp,
            ) {
                assert(step_uses(self@, steps@[i as int], as_params(tp@)));
                return true;
            }
            i = i + 1;
        }
        false
    }

    fn maybe_use(&self, e: &Option<Expr>, tp: &Vec<String>) -> (r: bool)
        ensures
            r == maybe_uses(self@, *e, as_params(tp@)),
        decreases e, 0nat,
    {
        match e {
            Some(x) => self.expr_uses_type_param_reflection(x, tp),
            None => false,
        }
    }

    pub fn block_uses_type_param_reflection(&self, b: &Block, tp: &Vec<String>) -> (r: bool)
        ensures
            r == block_uses(self@, *b, as_params(tp@)),
        decreases b, 0nat,
    {
        let mut i: usize = 0;
        while i < b.stmts.len()
            invariant
                i <= b.stmts@.len(),
                forall|j: int|
                    0 <= j < i ==> !stmt_uses(self@, #[trigger] b.stmts@[j], as_params(tp@)),
            decreases b.stmts@.len() - i,
        {
            if self.stmt_uses_type_param_reflection(&b.stmts[i], tp) {
                assert(stmt_uses(self@, b.stmts@[i as int], as_params(tp@)));
                return true;
            }
            i = i + 1;
        }
        false
    }

    fn else_ifs_use(&self, es: &Vec<(Expr, Block)>, tp: &Vec<String>) -> (r: bool)
        ensures
            r == exists|j: int|
                0 <= j < es@.len() && (uses(self@, (#[trigger] es@[j]).0, as_params(tp@))
                    || block_uses(self@, es@[j].1, as_params(tp@))),
        decreases es, 1nat,
    {
        let mut i: usize = 0;
        while i < es.len()
            invariant
                i <= es@.len(),
                forall|j: int|
                    0 <= j < i ==> !uses(self@, (#[trigger] es@[j]).0, as_params(tp@))
                        && !block_uses(self@, es@[j].1, as_params(tp@)),
            decreases es@.len() - i,
        {
            if self.expr_uses_type_param_reflection(&es[i].0, tp)
                || self.block_uses_type_param_reflection(&es[i].1, tp) {
                assert(uses(self@, es@[i as int].0, as_params(tp@)) || block_uses(
                    self@,
                    es@[i as int].1,
                    as_params(tp@),
                ));
                return true;
            }
            i = i + 1;
        }
        false
    }

    fn arms_use(&self, arms: &Vec<MatchArm>, tp: &Vec<String>) -> (r: bool)
        ensures
            r == exists|j: int|
                0 <= j < arms@.len() && block_uses(
                    self@,
                    (#[trigger] arms@[j]).body,
                    as_params(tp@),
                ),
        decreases arms, 1nat,
    {
        let mut i: usize = 0;
        while i < arms.len()
            invariant
                i <= arms@.len(),
                forall|j: int|
                    0 <= j < i ==> !block_uses(
                        self@,
                        (#[trigger] arms@[j]).body,
                        as_params(tp@),
                    ),
            decreases arms@.len() - i,
        {
            if self.block_uses_type_param_reflection(&arms[i].body, tp) {
                assert(block_uses(self@, arms@[i as int].body, as_params(tp@)));
                return true;
            }
            i = i + 1;
        }
        false
    }

    pub fn stmt_uses_type_param_reflection(&self, s: &Stmt, tp: &Vec<String>) -> (r: bool)
        ensures
            r == stmt_uses(self@, *s, as_params(tp@)),
        decreases s, 0nat,
    {
        match s {
            Stmt::VarDecl(d) => self.expr_uses_type_param_reflection(&d.value, tp),
            Stmt::Assign(a) => self.expr_uses_type_param_reflection(&a.target, tp)
                || self.expr_uses_type_param_reflection(&a.value, tp),
            Stmt::Return(r) => self.maybe_use(&r.value, tp),
            Stmt::Respond(r) => self.expr_uses_type_param_reflection(&r.value, tp),
            Stmt::ComptimeTypeBind(b) => self.expr_uses_type_param_reflection(&b.value, tp)
                || self.block_uses_type_param_reflection(&b.body, tp),
            Stmt::If(i) => self.expr_uses_type_param_reflection(&i.condition, tp)
                || self.block_uses_type_param_reflection(&i.then_block, tp) || self.else_ifs_use(
                &i.else_ifs,
                tp,
            ) || (match &i.else_block {
                Some(b) => self.block_uses_type_param_reflection(b, tp),
                None => false,
            }),
            Stmt::For(f) => self.expr_uses_type_param_reflection(&f.iterable, tp)
                || self.block_uses_type_param_reflection(&f.body, tp),
            Stmt::While(w) => self.expr_uses_type_param_reflection(&w.condition, tp)
                || self.block_uses_type_param_reflection(&w.body, tp),
            Stmt::Match(m) => self.expr_uses_type_param_reflection(&m.expr, tp) || self.arms_use(
                &m.arms,
                tp,
            ),
            Stmt::Expr(e) => self.expr_uses_type_param_reflection(&e.expr, tp),
            Stmt::Assert(a) => self.expr_uses_type_param_reflection(&a.condition, tp)
                || self.maybe_use(&a.message, tp),
            Stmt::Breakpoint(b) => self.maybe_use(&b.condition, tp),
            Stmt::Trace(_) | Stmt::Use(_) | Stmt::Break(_) | Stmt::Continue(_) => false,
        }
    }

    fn expr_reflection_span(&self, e: &Expr, tp: &Vec<String>) -> (r: Option<Span>)
        ensures
            r == expr_place(self@, *e, as_params(tp@)),
    {
        if self.expr_uses_type_param_reflection(e, tp) {
            Some(e.span())
        } else {
            None
        }
    }

    fn maybe_reflection_span(&self, e: &Option<Expr>, tp: &Vec<String>) -> (r: Option<Span>)
        ensures
            r == maybe_place(self@, *e, as_params(tp@)),
    {
        match e {
            Some(x) => self.expr_reflection_span(x, tp),
            None => None,
        }
    }

    pub fn block_type_param_reflection_span(&self, b: &Block, tp: &Vec<String>) -> (r: Option<Span>)
        ensures
            r == block_place(self@, *b, 0, as_params(tp@)),
        decreases b, b.stmts@.len() + 1,
    {
        let mut i: usize = 0;
        while i < b.stmts.len()
            invariant
                i <= b.stmts@.len(),
                block_place(self@, *b, 0, as_params(tp@)) == block_place(
                    self@,
                    *b,
                    i as nat,
                    as_params(tp@),
                ),
            decreases b.stmts@.len() - i,
        {
            if let Some(span) = self.stmt_type_param_reflection_span(&b.stmts[i], tp) {
                return Some(span);
            }
            i = i + 1;
        }
        None
    }

    fn else_ifs_reflection_span(&self, es: &Vec<(Expr, Block)>, tp: &Vec<String>) -> (r: Option<Span>)
        ensures
            r == else_ifs_place(self@, *es, 0, as_params(tp@)),
        decreases es, es@.len() + 1,
    {
        let mut i: usize = 0;
        while i < es.len()
            invariant
                i <= es@.len(),
                else_ifs_place(self@, *es, 0, as_params(tp@)) == else_ifs_place(
                    self@,
                    *es,
                    i as nat,
                    as_params(tp@),
                ),
            decreases es@.len() - i,
        {
            if let Some(span) = self.block_type_param_reflection_span(&es[i].1, tp) {
                return Some(span);
            }
            i = i + 1;
        }
        None
    }

    /// The first place in the arms of a `match`.
    pub fn match_arm_type_param_reflection_span(&self, arms: &Vec<MatchArm>, tp: &Vec<String>) -> (r:
        Option<Span>)
        ensures
            r == arms_place(self@, *arms, 0, as_params(tp@)),
        decreases arms, arms@.len() + 1,
    {
        let mut i: usize = 0;
        while i < arms.len()
            invariant
                i <= arms@.len(),
                arms_place(self@, *arms, 0, as_params(tp@)) == arms_place(
                    self@,
                    *arms,
                    i as nat,
                    as_params(tp@),
                ),
            decreases arms@.len() - i,
        {
            if let Some(span) = self.block_type_param_reflection_span(&arms[i].body, tp) {
                return Some(span);
            }
            i = i + 1;
        }
        None
    }

    /// The first place in the branches of an `if`.
    pub fn if_branch_type_param_reflection_span(&self, i: &IfStmt, tp: &Vec<String>) -> (r: Option<Span>)
        ensures
            r == branches_place(self@, *i, as_params(tp@)),
        decreases i, 0nat,
    {
        if let Some(span) = self.block_type_param_reflection_span(&i.then_block, tp) {
            return Some(span);
        }
        if let Some(span) = self.else_ifs_reflection_span(&i.else_ifs, tp) {
            return Some(span);
        }
        match &i.else_block {
            Some(b) => self.block_type_param_reflection_span(b, tp),
            None => None,
        }
    }

    pub fn stmt_type_param_reflection_span(&self, s: &Stmt, tp: &Vec<String>) -> (r: Option<Span>)
        ensures
            r == stmt_place(self@, *s, as_params(tp@)),
        decreases s, 0nat,
    {
        match s {
            Stmt::VarDecl(d) => self.expr_reflection_span(&d.value, tp),
            Stmt::Assign(a) => first_of(
                self.expr_reflection_span(&a.target, tp),
                self.expr_reflection_span(&a.value, tp),
            ),
            Stmt::Return(r) => self.maybe_reflection_span(&r.value, tp),
            Stmt::Respond(r) => self.expr_reflection_span(&r.value, tp),
            Stmt::ComptimeTypeBind(b) => first_of(
                self.expr_reflection_span(&b.value, tp),
                self.block_type_param_reflection_span(&b.body, tp),
            ),
            Stmt::If(i) => first_of(
                self.expr_reflection_span(&i.condition, tp),
                self.if_branch_type_param_reflection_span(i, tp),
            ),
            Stmt::For(f) => first_of(
                self.expr_reflection_span(&f.iterable, tp),
                self.block_type_param_reflection_span(&f.body, tp),
            ),
            Stmt::While(w) => first_of(
                self.expr_reflection_span(&w.condition, tp),
                self.block_type_param_reflection_span(&w.body, tp),
            ),
            Stmt::Match(m) => first_of(
                self.expr_reflection_span(&m.expr, tp),
                self.match_arm_type_param_reflection_span(&m.arms, tp),
            ),
            Stmt::Expr(e) => self.expr_reflection_span(&e.expr, tp),
            Stmt::Assert(a) => first_of(
                self.expr_reflection_span(&a.condition, tp),
                self.maybe_reflection_span(&a.message, tp),
            ),
            Stmt::Breakpoint(b) => self.maybe_reflection_span(&b.condition, tp),
            Stmt::Trace(_) | Stmt::Use(_) | Stmt::Break(_) | Stmt::Continue(_) => None,
        }
    }

    fn is_direct_reflection(
        &self,
        callee: &Expr,
        type_args: &Vec<TypeExpr>,
        args: &Vec<CallArg>,
        name: &str,
        tp: &Vec<String>,
    ) -> (r: bool)
        ensures
            r == direct_reflection(
                self@,
                *callee,
                type_args@,
                args@,
                name@,
                as_params(tp@),
            ),
    {
        args.len() == 0 && self.callee_is(callee, name) && type_args.len() == 1
            && type_expr_mentions_type_param(&type_args[0], tp)
    }

    pub fn expr_is_type_info_reflection(&self, e: &Expr, tp: &Vec<String>) -> (r: bool)
        ensures
            r == info_reflection(self@, *e, as_params(tp@)),
        decreases e,
    {
        match e {
            Expr::GenericCall(callee, type_args, args, _) => self.is_direct_reflection(
                callee,
                type_args,
                args,
                "type.info",
                tp,
            ),
            Expr::Paren(x, _) => self.expr_is_type_info_reflection(x, tp),
            _ => false,
        }
    }

    pub fn expr_is_type_kind_reflection(&self, e: &Expr, tp: &Vec<String>) -> (r: bool)
        ensures
            r == kind_reflection(self@, *e, as_params(tp@)),
        decreases e,
    {
        match e {
            Expr::GenericCall(callee, type_args, args, _) => self.is_direct_reflection(
                callee,
                type_args,
                args,
                "type.kind_tag",
                tp,
            ),
            Expr::FieldAccess(base, field, _) => same_text(field.name.as_str(), "kind_tag")
                && self.expr_is_type_info_reflection(base, tp),
            Expr::Paren(x, _) => self.expr_is_type_kind_reflection(x, tp),
            _ => false,
        }
    }

    pub fn expr_is_optional_type_primitive_reflection(&self, e: &Expr, tp: &Vec<String>) -> (r: bool)
        ensures
            r == optional_primitive_reflection(self@, *e, as_params(tp@)),
        decreases e,
    {
        match e {
            Expr::GenericCall(callee, type_args, args, _) => self.is_direct_reflection(
                callee,
                type_args,
                args,
                "type.primitive_tag",
                tp,
            ),
            Expr::FieldAccess(base, field, _) => same_text(field.name.as_str(), "primitive_tag")
                && self.expr_is_type_info_reflection(base, tp),
            Expr::Paren(x, _) => self.expr_is_optional_type_primitive_reflection(x, tp),
            _ => false,
        }
    }

    fn literal_variant_name(&self, e: &Expr, owner: &str) -> (r: Option<String>)
        ensures
            r is Some <==> literal_variant(self@, *e, owner@) is Some,
            r matches Some(n) ==> literal_variant(self@, *e, owner@) == Some(n@),
        decreases e,
    {
        match e {
            Expr::Paren(x, _) => self.literal_variant_name(x, owner),
            Expr::EnumVariant(t, variant, _) => {
                if same_text(t.name.as_str(), owner) {
                    Some(variant.name.clone())
                } else {
                    None
                }
            },
            Expr::FieldAccess(_, _, _) => match self.expanded_dotted_expr_name(e) {
                Some(name) => match split_last_dot(name.as_str()) {
                    Some((front, back)) => {
                        if same_text(front.as_str(), owner) {
                            Some(back)
                        } else {
                            None
                        }
                    },
                    None => None,
                },
                None => None,
            },
            _ => None,
        }
    }

    pub fn type_kind_literal_name(&self, e: &Expr) -> (r: Option<String>)
        ensures
            r is Some <==> kind_literal(self@, *e) is Some,
            r matches Some(n) ==> kind_literal(self@, *e) == Some(n@),
    {
        self.literal_variant_name(e, "TypeKind")
    }

    pub fn type_primitive_literal_name(&self, e: &Expr) -> (r: Option<String>)
        ensures
            r is Some <==> primitive_literal(self@, *e) is Some,
            r matches Some(n) ==> primitive_literal(self@, *e) == Some(n@),
    {
        self.literal_variant_name(e, "TypePrimitive")
    }

    fn block_defaults_to_primitive(&self, b: &Block) -> (r: bool)
        ensures
            r == defaults_to_primitive(self@, *b),
    {
        match handle_default_expr(b) {
            Some(x) => self.type_primitive_literal_name(x).is_some(),
            None => false,
        }
    }

    pub fn expr_is_type_primitive_reflection_value(&self, e: &Expr, tp: &Vec<String>) -> (r: bool)
        ensures
            r == primitive_reflection(self@, *e, as_params(tp@)),
        decreases e,
    {
        match e {
            Expr::Handle(target, _, body, _) => self.expr_is_optional_type_primitive_reflection(
                target,
                tp,
            ) && self.block_defaults_to_primitive(body),
            Expr::Paren(x, _) => self.expr_is_type_primitive_reflection_value(x, tp),
            _ => false,
        }
    }

    fn expr_is_static_reflection_literal(&self, e: &Expr) -> (r: bool)
        ensures
            r == reflection_literal(self@, *e),
    {
        self.type_kind_literal_name(e).is_some() || self.type_primitive_literal_name(e).is_some()
    }

    fn expr_is_potential_optional_type_primitive_reflection(&self, e: &Expr) -> (r: bool)
        ensures
            r == maybe_static_primitive(self@, *e),
        decreases e,
    {
        match e {
            Expr::Paren(x, _) => self.expr_is_potential_optional_type_primitive_reflection(x),
            Expr::FieldAccess(_, field, _) => same_text(field.name.as_str(), "primitive_tag"),
            Expr::GenericCall(callee, _, args, _) => args.len() == 0 && self.callee_is(
                callee,
                "type.primitive_tag",
            ),
            _ => false,
        }
    }

    fn expr_is_potential_static_reflection_value(&self, e: &Expr) -> (r: bool)
        ensures
            r == maybe_static_value(self@, *e),
        decreases e,
    {
        match e {
            Expr::Paren(x, _) => self.expr_is_potential_static_reflection_value(x),
            Expr::Ident(_) => true,
            Expr::GenericCall(callee, _, args, _) => args.len() == 0 && self.callee_is(
                callee,
                "type.kind_tag",
            ),
            Expr::FieldAccess(_, field, _) => same_text(field.name.as_str(), "kind_tag"),
            Expr::Handle(target, _, body, _) =>
                self.expr_is_potential_optional_type_primitive_reflection(target)
                && self.block_defaults_to_primitive(body),
            _ => false,
        }
    }

    pub fn expr_is_potential_static_reflection_condition(&self, e: &Expr) -> (r: bool)
        ensures
            r == maybe_static_condition(self@, *e),
        decreases e,
    {
        match e {
            Expr::BoolLiteral(_, _) => true,
            Expr::Paren(x, _) => self.expr_is_potential_static_reflection_condition(x),
            Expr::Unary(op, x, _) => *op == UnaryOp::Not
                && self.expr_is_potential_static_reflection_condition(x),
            Expr::Binary(l, op, r, _) => match *op {
                BinOp::And | BinOp::Or => self.expr_is_potential_static_reflection_condition(l)
                    && self.expr_is_potential_static_reflection_condition(r),
                BinOp::Eq | BinOp::NotEq => (self.expr_is_potential_static_reflection_value(l)
                    && self.expr_is_static_reflection_literal(r)) || (
                self.expr_is_static_reflection_literal(l)
                    && self.expr_is_potential_static_reflection_value(r)),
                _ => false,
            },
            _ => false,
        }
    }

    fn expr_is_direct_reflection_statement_source(&self, e: &Expr, tp: &Vec<String>) -> (r: bool)
        ensures
            r == direct_source(self@, *e, as_params(tp@)),
        decreases e,
    {
        match e {
            Expr::Paren(x, _) => self.expr_is_direct_reflection_statement_source(x, tp),
            Expr::Handle(x, _, _, _) => self.expr_is_direct_reflection_statement_source(x, tp),
            Expr::GenericCall(callee, type_args, _, _) => (self.callee_is(
                callee,
                "type.variant_value",
            ) || self.callee_is(callee, "type.construct_start") || self.callee_is(
                callee,
                "type.construct_variant_start",
            ) || self.callee_is(callee, "type.construct_machine_start") || self.callee_is(
                callee,
                "type.construct_finish",
            )) && any_type_mentions(type_args, tp),
            _ => false,
        }
    }

    fn expr_is_reflection_local_fact_source(&self, e: &Expr, tp: &Vec<String>) -> (r: bool)
        ensures
            r == fact_source(self@, *e, as_params(tp@)),
    {
        self.expr_is_type_info_reflection(e, tp) || self.expr_is_type_kind_reflection(e, tp)
            || self.expr_is_type_primitive_reflection_value(e, tp)
    }

    pub fn block_reflection_is_branch_specializable_in_context(
        &self,
        b: &Block,
        tp: &Vec<String>,
        context: ReflectionBranchContext,
    ) -> (r: bool)
        ensures
            r == block_settles(self@, *b, as_params(tp@), context),
        decreases b, 1nat,
    {
        let mut i: usize = 0;
        while i < b.stmts.len()
            invariant
                i <= b.stmts@.len(),
                forall|j: int|
                    0 <= j < i ==> stmt_settles(
                        self@,
                        #[trigger] b.stmts@[j],
                        as_params(tp@),
                        context,
                    ),
            decreases b.stmts@.len() - i,
        {
            if !self.stmt_reflection_is_branch_specializable(&b.stmts[i], tp, context) {
                assert(!stmt_settles(self@, b.stmts@[i as int], as_params(tp@), context));
                return false;
            }
            i = i + 1;
        }
        true
    }

    fn else_ifs_are_specializable(&self, es: &Vec<(Expr, Block)>, tp: &Vec<String>) -> (r: bool)
        ensures
            r == else_ifs_settle(self@, *es, 0, as_params(tp@)),
        decreases es, es@.len() + 1,
    {
        let mut i: usize = 0;
        while i < es.len()
            invariant
                i <= es@.len(),
                else_ifs_settle(self@, *es, 0, as_params(tp@)) == else_ifs_settle(
                    self@,
                    *es,
                    i as nat,
                    as_params(tp@),
                ),
            decreases es@.len() - i,
        {
            let is_static = self.expr_is_potential_static_reflection_condition(&es[i].0);
            if self.expr_uses_type_param_reflection(&es[i].0, tp) && !is_static {
                return false;
            }
            if !self.block_reflection_is_branch_specializable_in_context(
                &es[i].1,
                tp,
                context_for(is_static),
            ) {
                return false;
            }
            i = i + 1;
        }
        true
    }

    fn all_conditions_static(&self, es: &Vec<(Expr, Block)>) -> (r: bool)
        ensures
            r == all_static(self@, es@),
    {
        let mut i: usize = 0;
        while i < es.len()
            invariant
                i <= es@.len(),
                forall|j: int| 0 <= j < i ==> maybe_static_condition(self@, (#[trigger] es@[j]).0),
            decreases es@.len() - i,
        {
            if !self.expr_is_potential_static_reflection_condition(&es[i].0) {
                assert(!maybe_static_condition(self@, es@[i as int].0));
                return false;
            }
            i = i + 1;
        }
        true
    }

    fn arms_are_specializable(
        &self,
        arms: &Vec<MatchArm>,
        tp: &Vec<String>,
        context: ReflectionBranchContext,
    ) -> (r: bool)
        ensures
            r == forall|j: int|
                0 <= j < arms@.len() ==> block_settles(
                    self@,
                    (#[trigger] arms@[j]).body,
                    as_params(tp@),
                    context,
                ),
        decreases arms, arms@.len() + 1,
    {
        let mut i: usize = 0;
        while i < arms.len()
            invariant
                i <= arms@.len(),
                forall|j: int|
                    0 <= j < i ==> block_settles(
                        self@,
                        (#[trigger] arms@[j]).body,
                        as_params(tp@),
                        context,
                    ),
            decreases arms@.len() - i,
        {
            if !self.block_reflection_is_branch_specializable_in_context(
                &arms[i].body,
                tp,
                context,
            ) {
                assert(!block_settles(self@, arms@[i as int].body, as_params(tp@), context));
                return false;
            }
            i = i + 1;
        }
        true
    }

    pub fn stmt_reflection_is_branch_specializable(
        &self,
        s: &Stmt,
        tp: &Vec<String>,
        context: ReflectionBranchContext,
    ) -> (r: bool)
        ensures
            r == stmt_settles(self@, *s, as_params(tp@), context),
        decreases s, 0nat,
    {
        if context == ReflectionBranchContext::StaticReflectionBranch {
            return true;
        }
        match s {
            Stmt::If(i) => {
                let is_static = self.expr_is_potential_static_reflection_condition(&i.condition);
                if self.expr_uses_type_param_reflection(&i.condition, tp) && !is_static {
                    return false;
                }
                let then_ok = self.block_reflection_is_branch_specializable_in_context(
                    &i.then_block,
                    tp,
                    context_for(is_static),
                );
                let else_ifs_ok = self.else_ifs_are_specializable(&i.else_ifs, tp);
                then_ok && else_ifs_ok && (match &i.else_block {
                    Some(b) => {
                        let every = is_static && self.all_conditions_static(&i.else_ifs);
                        self.block_reflection_is_branch_specializable_in_context(
                            b,
                            tp,
                            context_for(every),
                        )
                    },
                    None => true,
                })
            },
            Stmt::VarDecl(d) => !self.expr_uses_type_param_reflection(&d.value, tp) || (
            context.permits_shape_reflection() && (self.expr_is_direct_reflection_statement_source(
                &d.value,
                tp,
            ) || (!d.mutable && self.expr_is_reflection_local_fact_source(&d.value, tp)))),
            Stmt::Return(r) => match &r.value {
                Some(x) => !self.expr_uses_type_param_reflection(x, tp) || (
                context.permits_shape_reflection()
                    && self.expr_is_direct_reflection_statement_source(x, tp)),
                None => true,
            },
            Stmt::ComptimeTypeBind(b) => {
                let mentioned = match find_member_type(&b.value, "info", 0) {
                    Some(t) => type_expr_mentions_type_param(t, tp),
                    None => match comptime_type_arg_binding(&b.value) {
                        Some((t, _)) => type_expr_mentions_type_param(t, tp),
                        None => false,
                    },
                };
                if mentioned {
                    context.permits_shape_reflection()
                        && self.block_reflection_is_branch_specializable_in_context(
                        &b.body,
                        tp,
                        context,
                    )
                } else {
                    !self.expr_uses_type_param_reflection(&b.value, tp)
                        && self.block_reflection_is_branch_specializable_in_context(
                        &b.body,
                        tp,
                        context,
                    )
                }
            },
            Stmt::For(f) => {
                let mentioned = match direct_reflected_loop_owner_type(&f.iterable) {
                    Some(t) => type_expr_mentions_type_param(t, tp),
                    None => false,
                };
                if mentioned {
                    context.permits_shape_reflection()
                        && self.block_reflection_is_branch_specializable_in_context(
                        &f.body,
                        tp,
                        ReflectionBranchContext::StaticReflectionBranch,
                    )
                } else {
                    !self.expr_uses_type_param_reflection(&f.iterable, tp)
                        && self.block_reflection_is_branch_specializable_in_context(
                        &f.body,
                        tp,
                        context,
                    )
                }
            },
            Stmt::Match(m) => {
                let is_static = self.expr_is_potential_static_reflection_value(&m.expr);
                if self.expr_uses_type_param_reflection(&m.expr, tp) && !is_static {
                    return false;
                }
                self.arms_are_specializable(&m.arms, tp, context_for(is_static))
            },
            _ => !self.stmt_uses_type_param_reflection(s, tp),
        }
    }

    pub fn generic_function_uses_type_param_reflection(&self, f: &FunctionDef) -> (r: bool)
        ensures
            r == block_uses(self@, f.body, type_params_of(*f)),
    {
        let tp = type_param_names(f);
        self.block_uses_type_param_reflection(&f.body, &tp)
    }

    pub fn generic_function_reflection_is_branch_specializable(&self, f: &FunctionDef) -> (r: bool)
        ensures
            r == block_settles(
                self@,
                f.body,
                type_params_of(*f),
                ReflectionBranchContext::TopLevel,
            ),
    {
        let tp = type_param_names(f);
        self.block_reflection_is_branch_specializable_in_context(
            &f.body,
            &tp,
            ReflectionBranchContext::TopLevel,
        )
    }
}

} // verus!
