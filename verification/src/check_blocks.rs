//! Statements.
use vstd::prelude::*;

use crate::ast::{
    expr_span, AssertStmt, AssignStmt, Block, ComptimeTypeBindStmt, Expr, ForStmt, Ident, IfStmt,
    MatchStmt, Param, Pattern, RespondStmt, ReturnStmt, Stmt, TypeExpr, VarDecl,
};
use crate::check_calls::can_enter;
use crate::check_exprs::{check_expected, check_expr};
use crate::check_rules::{
    declare, expect_bool, expect_type, find_variant, named_type_ids, no_member, report0, report1,
    report2, report3, report_types, variant_named, warn0,
};
use crate::diagnostics::ErrorCode;
use crate::facts::{empty_scope, FactScope};
use crate::narrowing::{narrow, Branch};
use crate::reflect_types::{mono_args, type_args};
use crate::reflection_use::{
    arg_binding, arms_place, as_params, branches_place, comptime_type_arg_binding, field_of_name,
    find_field_of_name, find_member_fields_type, find_member_type, member_fields_type, member_type,
    uses,
};
use crate::resolution::{definition_at, DefId};
use crate::span::Span;
use crate::state::{forget_facts, without_last, NamedIds, NamedIdsV, State, TypeChecker};
use crate::static_eval::{record_fact, select_arm, select_branch};
use crate::steady::{
    has, has_all, has_fields, has_slots, has_states, has_variants, keeps, keeps_around,
    keeps_scopes, known, known_definitions, known_lists, rescoped_to,
};
use crate::table::{views, Dup};
use crate::text::{contains_text, decimal, decimal_text, same_text};
use crate::type_names::name_of;
use crate::type_rules::{compatible, satisfies};
use crate::type_walk::{named_ids, slot_ids, state_ids, variant_ids};
use crate::types::{
    dup_ids, grounded, sound, ty, EnumShape, EnumShapeV, MachineStateShapeV, NamedType, NamedTypeV, Type,
    TypeId, TypeInterner, Types, VariantShapeV,
};
use crate::written_types::{resolve_type, resolve_types};

verus! {

broadcast use crate::steady::group_steady;

// ---------------------------------------------------------------------------
// Parameters
// ---------------------------------------------------------------------------

/// Gives the parameters from `i` on their types.
pub open spec fn declare_params(s: State, params: Seq<Param>, i: nat) -> State
    decreases params.len() - i,
{
    if i >= params.len() {
        s
    } else {
        let (s1, id) = resolve_type(s, params[i as int].ty);
        declare_params(declare(s1, params[i as int].name.span, id), params, i + 1)
    }
}

// ---------------------------------------------------------------------------
// Blocks
// ---------------------------------------------------------------------------

/// A block. What is found out inside of its variables ends with it.
pub open spec fn check_block(s: State, b: Block, d: nat) -> State
    decreases 3 * d + 1, b, b.stmts@.len() + 2,
{
    let s1 = State { facts: s.facts.push(empty_scope()), ..s };
    let s2 = stmts_from(s1, b, 0, d);
    State { facts: without_last(s2.facts), ..s2 }
}

pub open spec fn stmts_from(s: State, b: Block, i: nat, d: nat) -> State
    decreases 3 * d + 1, b, b.stmts@.len() - i,
{
    if i >= b.stmts@.len() {
        s
    } else {
        stmts_from(check_stmt(s, b.stmts@[i as int], d), b, i + 1, d)
    }
}

/// A result or optional that nothing is done with is warned about.
pub open spec fn discarded(s: State, id: TypeId, span: Span) -> State {
    if id == TypeInterner::ERROR {
        s
    } else {
        match ty(s.types, id) {
            Type::Result(_, _) => warn0(s, ErrorCode::UnhandledResult, span),
            Type::Optional(_) => warn0(s, ErrorCode::UnhandledOptional, span),
            _ => s,
        }
    }
}

pub open spec fn check_stmt(s: State, stmt: Stmt, d: nat) -> State
    decreases 3 * d + 1, stmt, 2nat,
{
    match stmt {
        Stmt::VarDecl(x) => check_var_decl(s, x, d),
        Stmt::Assign(x) => check_assign(s, x, d),
        Stmt::Return(x) => check_return(s, x, d),
        Stmt::ComptimeTypeBind(x) => check_type_bind(s, x, d),
        Stmt::If(x) => check_if(s, x, d),
        Stmt::For(x) => check_for(s, x, d),
        Stmt::While(x) => check_block(check_condition(s, x.condition, d), x.body, d),
        Stmt::Expr(x) => {
            let (s1, t) = check_expr(s, x.expr, d);
            discarded(s1, t, x.span)
        },
        Stmt::Assert(x) => check_assert(s, x, d),
        Stmt::Trace(_) => s,
        Stmt::Breakpoint(x) => match x.condition {
            Some(c) => check_condition(s, c, d),
            None => s,
        },
        Stmt::Match(x) => check_match(s, x, d),
        Stmt::Respond(x) => check_respond(s, x, d),
        _ => s,
    }
}

pub open spec fn check_condition(s: State, e: Expr, d: nat) -> State
    decreases 3 * d + 1, e, 20nat,
{
    let (s1, t) = check_expr(s, e, d);
    expect_bool(s1, ErrorCode::ConditionNotBool, t, expr_span(e))
}

pub open spec fn check_var_decl(s: State, x: VarDecl, d: nat) -> State
    decreases 3 * d + 1, x, 0nat,
{
    let (s1, declared) = resolve_type(s, x.ty);
    let (s2, init) = check_expected(s1, x.value, declared, true, d);
    let s3 = declare(s2, x.name.span, declared);
    let s4 = if compatible(s3.types, s3.impls, declared, init) {
        s3
    } else {
        report3(
            s3,
            ErrorCode::VarDeclTypeMismatch,
            x.span,
            x.name.name@,
            name_of(s3.types, declared),
            name_of(s3.types, init),
        )
    };
    record_fact(s4, x, declared, init)
}

/// Assigning ends what is known of the variable.
pub open spec fn forget_target(s: State, e: Expr) -> State {
    match e {
        Expr::Ident(ident) => match definition_at(s.names, ident.span) {
            Some(id) => forget_facts(s, id),
            None => s,
        },
        _ => s,
    }
}

pub open spec fn check_assign(s: State, x: AssignStmt, d: nat) -> State
    decreases 3 * d + 1, x, 0nat,
{
    let (s1, target) = check_expr(forget_target(s, x.target), x.target, d);
    let (s2, value) = check_expected(s1, x.value, target, false, d);
    if compatible(s2.types, s2.impls, target, value) {
        s2
    } else {
        report_types(s2, ErrorCode::AssignTypeMismatch, x.span, target, value)
    }
}

pub open spec fn returned(s: State, id: TypeId, span: Span) -> State {
    match s.context.return_type {
        Some(expected) => if satisfies(s.types, s.impls, expected, id) {
            s
        } else {
            report_types(s, ErrorCode::ReturnTypeMismatch, span, expected, id)
        },
        None => s,
    }
}

pub open spec fn check_return(s: State, x: ReturnStmt, d: nat) -> State
    decreases 3 * d + 1, x, 0nat,
{
    let (s1, t) = match x.value {
        Some(e) => match s.context.return_type {
            Some(expected) => check_expected(s, e, expected, false, d),
            None => check_expr(s, e, d),
        },
        None => (s, TypeInterner::NOTHING),
    };
    returned(s1, t, x.span)
}

pub open spec fn check_respond(s: State, x: RespondStmt, d: nat) -> State
    decreases 3 * d + 1, x, 0nat,
{
    match s.context.respond_type {
        None => report0(check_expr(s, x.value, d).0, ErrorCode::RespondOutsideHandler, x.span),
        Some(expected) => {
            let (s1, t) = check_expected(s, x.value, expected, false, d);
            expect_type(s1, expected, t, expr_span(x.value))
        },
    }
}

pub open spec fn check_assert(s: State, x: AssertStmt, d: nat) -> State
    decreases 3 * d + 1, x, 0nat,
{
    let s1 = if s.context.in_verify || s.context.in_property {
        s
    } else {
        report0(s, ErrorCode::AssertOutsideTestBlock, x.span)
    };
    let (s2, t) = check_expr(s1, x.condition, d);
    let s3 = expect_bool(s2, ErrorCode::AssertConditionNotBool, t, expr_span(x.condition));
    match x.message {
        Some(m) => check_expr(s3, m, d).0,
        None => s3,
    }
}

// ---------------------------------------------------------------------------
// Types bound to names
// ---------------------------------------------------------------------------

/// The types that a name stands for in the innermost of the first `n` scopes
/// that has it.
pub open spec fn scoped_ids(scopes: Seq<NamedIdsV>, name: Seq<char>, n: nat) -> Option<Seq<TypeId>>
    decreases n,
{
    if n == 0 || n > scopes.len() {
        None
    } else if scopes[n - 1].name == name {
        Some(scopes[n - 1].ids)
    } else {
        scoped_ids(scopes, name, (n - 1) as nat)
    }
}

pub open spec fn scoped_id(scopes: Seq<NamedTypeV>, name: Seq<char>, n: nat) -> Option<TypeId>
    decreases n,
{
    if n == 0 || n > scopes.len() {
        None
    } else if scopes[n - 1].name == name {
        Some(scopes[n - 1].ty)
    } else {
        scoped_id(scopes, name, (n - 1) as nat)
    }
}

/// A block in which a name stands for a type.
pub open spec fn bound_block(s: State, name: Seq<char>, id: TypeId, body: Block, d: nat) -> State
    decreases 3 * d + 1, body, body.stmts@.len() + 3,
{
    let s1 = check_block(State { subst: s.subst.insert(name, id), ..s }, body, d);
    State {
        subst: if s.subst.contains_key(name) {
            s1.subst.insert(name, s.subst[name])
        } else {
            s1.subst.remove(name)
        },
        ..s1
    }
}

/// The block once for each of the types from `i` on.
pub open spec fn bound_blocks(s: State, name: Seq<char>, ids: Seq<TypeId>, i: nat, body: Block, d: nat) -> State
    decreases 3 * d + 1, body, body.stmts@.len() + 4 + ids.len() - i,
{
    if i >= ids.len() {
        s
    } else {
        let next = if ids[i as int] == TypeInterner::ERROR {
            s
        } else {
            bound_block(s, name, ids[i as int], body, d)
        };
        bound_blocks(next, name, ids, i + 1, body, d)
    }
}

/// The type arguments of a written type.
#[verifier::opaque]
pub open spec fn written_args(s: State, t: TypeExpr) -> (State, Seq<TypeId>)
    decreases t,
{
    match t {
        TypeExpr::View(inner, _) => written_args(s, *inner),
        TypeExpr::StateQualified(_, _, _) => (s, Seq::empty()),
        TypeExpr::Named(ident) => if s.aliases.contains_key(ident.name@) {
            let (s1, base) = resolve_type(s, s.aliases[ident.name@].base_type);
            (s1, seq![base])
        } else {
            let (s1, id) = resolve_type(s, t);
            (s1, type_args(s1.types, s1.monos, id))
        },
        TypeExpr::Generic(_, args, _) => resolve_types(s, args@, 0, Seq::empty()),
        TypeExpr::Function(params, ret, _) => {
            let (s1, ids) = resolve_types(s, params@, 0, Seq::empty());
            let (s2, r) = resolve_type(s1, *ret);
            (s2, ids.push(r))
        },
    }
}

/// The types that the bound value stands for in the loops around, if any.
#[verifier::opaque]
pub open spec fn reflected_types(s: State, e: Expr) -> Option<Seq<TypeId>> {
    let by_field = match field_of_name(e, "type_info"@) {
        Some(name) => scoped_ids(s.field_scopes, name, s.field_scopes.len()),
        None => None,
    };
    match by_field {
        Some(ids) => Some(ids),
        None => match e {
            Expr::Ident(ident) => scoped_ids(s.info_scopes, ident.name@, s.info_scopes.len()),
            _ => None,
        },
    }
}

/// A type bound to a name for a block. The value has to tell which type it is.
pub open spec fn check_type_bind(s: State, x: ComptimeTypeBindStmt, d: nat) -> State
    decreases 3 * d + 1, x, 0nat,
{
    let (s1, _) = check_expr(s, x.value, d);
    match member_type(x.value, "info"@, 0) {
        Some(t) => {
            let (s2, id) = resolve_type(s1, t);
            if id == TypeInterner::ERROR {
                check_block(s2, x.body, d)
            } else {
                bound_block(s2, x.name.name@, id, x.body, d)
            }
        },
        None => match arg_binding(x.value) {
            Some((t, index)) => {
                let (s2, source) = resolve_type(s1, t);
                if source == TypeInterner::ERROR {
                    check_block(s2, x.body, d)
                } else {
                    let (s3, args) = written_args(s2, t);
                    if index < args.len() {
                        if args[index as int] == TypeInterner::ERROR {
                            s3
                        } else {
                            bound_block(s3, x.name.name@, args[index as int], x.body, d)
                        }
                    } else {
                        check_block(
                            report0(
                                s3,
                                ErrorCode::InvalidComptimeTypeBinding,
                                expr_span(x.value),
                            ),
                            x.body,
                            d,
                        )
                    }
                }
            },
            None => match reflected_types(s1, x.value) {
                Some(ids) => bound_blocks(s1, x.name.name@, ids, 0, x.body, d),
                None => check_block(
                    report0(s1, ErrorCode::InvalidComptimeTypeBinding, expr_span(x.value)),
                    x.body,
                    d,
                ),
            },
        },
    }
}

// ---------------------------------------------------------------------------
// Branches
// ---------------------------------------------------------------------------

/// A block in which a variable may have another type.
pub open spec fn overridden_block(s: State, b: Block, narrowed: Option<(DefId, TypeId)>, d: nat) -> State
    decreases 3 * d + 1, b, b.stmts@.len() + 3,
{
    match narrowed {
        None => check_block(s, b, d),
        Some((def, id)) => {
            let s1 = check_block(State { type_env: s.type_env.insert(def, id), ..s }, b, d);
            State {
                type_env: if s.type_env.contains_key(def) {
                    s1.type_env.insert(def, s.type_env[def])
                } else {
                    s1.type_env.remove(def)
                },
                ..s1
            }
        },
    }
}

pub open spec fn branch_block(s: State, i: IfStmt, branch: Branch, b: Block, d: nat) -> State
    decreases 3 * d + 1, b, b.stmts@.len() + 4,
{
    let (s1, narrowed) = narrow(s, i, branch);
    overridden_block(s1, b, narrowed, d)
}

/// The conditions from the `j`th `else if` on.
pub open spec fn conditions_from(s: State, es: Vec<(Expr, Block)>, j: nat, d: nat) -> State
    decreases 3 * d + 1, es, es@.len() - j,
{
    if j >= es@.len() {
        s
    } else {
        conditions_from(check_condition(s, es@[j as int].0, d), es, j + 1, d)
    }
}

/// The branches from the `j`th `else if` on, each after its condition.
pub open spec fn else_ifs_from(s: State, i: IfStmt, j: nat, d: nat) -> State
    decreases 3 * d + 1, i, i.else_ifs@.len() - j,
{
    if j >= i.else_ifs@.len() {
        s
    } else {
        let s1 = check_condition(s, i.else_ifs@[j as int].0, d);
        let s2 = branch_block(
            s1,
            i,
            Branch::ElseIf(j as usize),
            i.else_ifs@[j as int].1,
            d,
        );
        else_ifs_from(s2, i, j + 1, d)
    }
}

/// The one branch that the type arguments select.
pub open spec fn selected_branch(s: State, i: IfStmt, k: nat, d: nat) -> State
    decreases 3 * d + 1, i, i.else_ifs@.len() + 1,
{
    if k == 0 {
        branch_block(s, i, Branch::Then, i.then_block, d)
    } else if k <= i.else_ifs@.len() {
        branch_block(s, i, Branch::ElseIf((k - 1) as usize), i.else_ifs@[k - 1].1, d)
    } else {
        match i.else_block {
            Some(b) => branch_block(s, i, Branch::Else, b, d),
            None => s,
        }
    }
}

/// Every branch of an `if`, each with what its condition says of machines.
pub open spec fn all_branches(s: State, i: IfStmt, d: nat) -> State
    decreases 3 * d + 1, i, i.else_ifs@.len() + 1,
{
    let s1 = check_condition(s, i.condition, d);
    let s2 = branch_block(s1, i, Branch::Then, i.then_block, d);
    let s3 = else_ifs_from(s2, i, 0, d);
    match i.else_block {
        Some(b) => branch_block(s3, i, Branch::Else, b, d),
        None => s3,
    }
}

/// Inside a generic function checked for given type arguments, a condition on
/// types selects one branch; one that cannot be told must not guard a look at
/// a type parameter.
pub open spec fn check_if(s: State, i: IfStmt, d: nat) -> State
    decreases 3 * d + 1, i, i.else_ifs@.len() + 2,
{
    if !s.context.specialize {
        all_branches(s, i, d)
    } else {
        let (s1, selected) = select_branch(s, i);
        match selected {
            Some(k) => {
                let s2 = check_condition(s1, i.condition, d);
                let s3 = conditions_from(s2, i.else_ifs, 0, d);
                selected_branch(s3, i, k, d)
            },
            None => match branches_place(s1.names, i, s1.subst.dom()) {
                Some(span) => {
                    let s2 = check_condition(s1, i.condition, d);
                    let s3 = conditions_from(s2, i.else_ifs, 0, d);
                    report0(s3, ErrorCode::InvalidComptimeTypeBinding, span)
                },
                None => all_branches(s1, i, d),
            },
        }
    }
}

// ---------------------------------------------------------------------------
// Loops
// ---------------------------------------------------------------------------

/// The type of the loop variable, and a report where nothing can be looped over.
#[verifier::opaque]
pub open spec fn element_type(s: State, id: TypeId, span: Span) -> (State, TypeId) {
    if id == TypeInterner::ERROR {
        (s, TypeInterner::ERROR)
    } else {
        match ty(s.types, id) {
            Type::List(x) => (s, x),
            Type::MapOf(k, _) => (s, k),
            Type::SetOf(x) => (s, x),
            _ => if id == TypeInterner::STRING {
                (s, TypeInterner::STRING)
            } else {
                (
                    report1(s, ErrorCode::NotIterable, span, name_of(s.types, id)),
                    TypeInterner::ERROR,
                )
            },
        }
    }
}

pub open spec fn map_value_type(s: State, id: TypeId) -> TypeId {
    match ty(s.types, id) {
        Type::MapOf(_, v) => v,
        _ => TypeInterner::ERROR,
    }
}

/// The types of the fields of a struct or bitfield.
pub open spec fn own_field_types(ts: Types, id: TypeId) -> Seq<TypeId> {
    match ty(ts, id) {
        Type::Struct(sid) => named_ids(ts.structs[sid.0 as int].fields),
        Type::Bitfield(bid) => slot_ids(ts.bitfields[bid.0 as int].fields),
        _ => Seq::empty(),
    }
}

/// The types of the fields of all variants of an enum.
pub open spec fn variant_field_types(ts: Types, id: TypeId) -> Seq<TypeId> {
    match ty(ts, id) {
        Type::Enum(eid) => variant_ids(ts.enums[eid.0 as int].variants),
        _ => Seq::empty(),
    }
}

/// The types of the fields of a machine's states, or of one state.
pub open spec fn machine_field_types(ts: Types, id: TypeId) -> Seq<TypeId> {
    match ty(ts, id) {
        Type::Machine(mid) => state_ids(ts.machines[mid.0 as int].states),
        Type::MachineState { machine, state } => if state.0 < ts.machines[machine.0 as int].states.len() {
            named_ids(ts.machines[machine.0 as int].states[state.0 as int].fields)
        } else {
            Seq::empty()
        },
        _ => Seq::empty(),
    }
}

pub open spec fn push_ids(scopes: Seq<NamedIdsV>, name: Seq<char>, ids: Seq<TypeId>) -> Seq<NamedIdsV> {
    scopes.push(NamedIdsV { name, ids })
}

/// Whether a scope was opened exactly where `open` says so.
pub open spec fn opened<T>(open: bool, before: Seq<T>, after: Seq<T>) -> bool {
    if open {
        after == before.push(after.last())
    } else {
        after == before
    }
}

/// In a loop over variants, the loop variable stands for the enum's.
#[verifier::opaque]
pub open spec fn variant_loop(s: State, f: ForStmt) -> (State, bool) {
    match member_type(f.iterable, "variants"@, 0) {
        Some(t) => {
            let (s1, owner) = resolve_type(s, t);
            (
                State {
                    variant_scopes: s1.variant_scopes.push(
                        NamedTypeV { name: f.variable.name@, ty: owner },
                    ),
                    ..s1
                },
                true,
            )
        },
        None => (s, false),
    }
}

#[verifier::opaque]
pub open spec fn machine_loop(s: State, f: ForStmt) -> (State, bool) {
    match member_type(f.iterable, "machine_states"@, 0) {
        Some(t) => {
            let (s1, owner) = resolve_type(s, t);
            (
                State {
                    machine_scopes: s1.machine_scopes.push(
                        NamedTypeV { name: f.variable.name@, ty: owner },
                    ),
                    ..s1
                },
                true,
            )
        },
        None => (s, false),
    }
}

pub open spec fn push_fields(s: State, name: Seq<char>, ids: Seq<TypeId>) -> (State, bool) {
    (State { field_scopes: push_ids(s.field_scopes, name, ids), ..s }, true)
}

pub open spec fn unless_error(id: TypeId, ids: Seq<TypeId>) -> Seq<TypeId> {
    if id == TypeInterner::ERROR {
        Seq::empty()
    } else {
        ids
    }
}

/// In a loop over fields, the loop variable stands for their types.
#[verifier::opaque]
pub open spec fn field_loop(s: State, f: ForStmt) -> (State, bool) {
    match member_type(f.iterable, "fields"@, 0) {
        Some(t) => {
            let (s1, owner) = resolve_type(s, t);
            push_fields(
                s1,
                f.variable.name@,
                unless_error(owner, own_field_types(s1.types, owner)),
            )
        },
        None => match member_fields_type(f.iterable, "variant_value"@) {
            Some(t) => {
                let (s1, owner) = resolve_type(s, t);
                push_fields(
                    s1,
                    f.variable.name@,
                    unless_error(owner, variant_field_types(s1.types, owner)),
                )
            },
            None => match member_fields_type(f.iterable, "machine_state_value"@) {
                Some(t) => {
                    let (s1, owner) = resolve_type(s, t);
                    push_fields(
                        s1,
                        f.variable.name@,
                        unless_error(owner, machine_field_types(s1.types, owner)),
                    )
                },
                None => match field_of_name(f.iterable, "fields"@) {
                    Some(name) => match scoped_id(s.machine_scopes, name, s.machine_scopes.len()) {
                        Some(owner) => push_fields(
                            s,
                            f.variable.name@,
                            machine_field_types(s.types, owner),
                        ),
                        None => match scoped_id(s.variant_scopes, name, s.variant_scopes.len()) {
                            Some(owner) => push_fields(
                                s,
                                f.variable.name@,
                                variant_field_types(s.types, owner),
                            ),
                            None => (s, false),
                        },
                    },
                    None => (s, false),
                },
            },
        },
    }
}

/// The type arguments of each of the types from `i` on, in a row.
pub open spec fn all_type_args(s: State, ids: Seq<TypeId>, i: nat, found: Seq<TypeId>) -> Seq<TypeId>
    decreases ids.len() - i,
{
    if i >= ids.len() {
        found
    } else {
        all_type_args(s, ids, i + 1, found + type_args(s.types, s.monos, ids[i as int]))
    }
}

/// The types whose type arguments `x.args` goes over.
#[verifier::opaque]
pub open spec fn args_source(s: State, e: Expr) -> (State, Option<Seq<TypeId>>) {
    match e {
        Expr::FieldAccess(base, field, _) => if field.name@ != "args"@ {
            (s, None)
        } else {
            match member_type(*base, "info"@, 0) {
                Some(t) => {
                    let (s1, id) = resolve_type(s, t);
                    (s1, Some(seq![id]))
                },
                None => match field_of_name(*base, "type_info"@) {
                    Some(name) => (s, scoped_ids(s.field_scopes, name, s.field_scopes.len())),
                    None => match *base {
                        Expr::Ident(ident) => (
                            s,
                            scoped_ids(s.info_scopes, ident.name@, s.info_scopes.len()),
                        ),
                        _ => (s, None),
                    },
                },
            }
        },
        _ => (s, None),
    }
}

#[verifier::opaque]
pub open spec fn info_loop(s: State, f: ForStmt) -> (State, bool) {
    let (s1, source) = args_source(s, f.iterable);
    match source {
        Some(ids) => (
            State {
                info_scopes: push_ids(
                    s1.info_scopes,
                    f.variable.name@,
                    all_type_args(s1, ids, 0, Seq::empty()),
                ),
                ..s1
            },
            true,
        ),
        None => (s1, false),
    }
}

#[verifier::opaque]
pub open spec fn leave_loops(s: State, info: bool, field: bool, variant: bool, machine: bool) -> State {
    State {
        info_scopes: if info {
            without_last(s.info_scopes)
        } else {
            s.info_scopes
        },
        field_scopes: if field {
            without_last(s.field_scopes)
        } else {
            s.field_scopes
        },
        variant_scopes: if variant {
            without_last(s.variant_scopes)
        } else {
            s.variant_scopes
        },
        machine_scopes: if machine {
            without_last(s.machine_scopes)
        } else {
            s.machine_scopes
        },
        ..s
    }
}

pub open spec fn check_for(s: State, f: ForStmt, d: nat) -> State
    decreases 3 * d + 1, f, 0nat,
{
    let (s1, id) = check_expr(s, f.iterable, d);
    let (s2, element) = element_type(s1, id, expr_span(f.iterable));
    let s3 = declare(s2, f.variable.span, element);
    let s4 = match f.value_variable {
        Some(v) => declare(s3, v.span, map_value_type(s3, id)),
        None => s3,
    };
    let (s5, variant) = variant_loop(s4, f);
    let (s6, machine) = machine_loop(s5, f);
    let (s7, field) = field_loop(s6, f);
    let (s8, info) = info_loop(s7, f);
    leave_loops(check_block(s8, f.body, d), info, field, variant, machine)
}

// ---------------------------------------------------------------------------
// Match
// ---------------------------------------------------------------------------

pub open spec fn arm_bodies(s: State, m: MatchStmt, j: nat, d: nat) -> State
    decreases 3 * d + 1, m, m.arms@.len() - j,
{
    if j >= m.arms@.len() {
        s
    } else {
        arm_bodies(check_block(s, m.arms@[j as int].body, d), m, j + 1, d)
    }
}

/// Gives the names bound by a pattern, from `j` on, the types of the fields.
pub open spec fn bind_fields(
    s: State,
    bindings: Seq<Ident>,
    fields: Seq<NamedTypeV>,
    j: nat,
) -> State
    decreases bindings.len() - j,
{
    if j >= bindings.len() || j >= fields.len() {
        s
    } else {
        bind_fields(
            declare(s, bindings[j as int].span, fields[j as int].ty),
            bindings,
            fields,
            j + 1,
        )
    }
}

/// What the arms seen so far cover.
pub struct Cover {
    pub names: Seq<Seq<char>>,
    pub other: bool,
}

#[verifier::opaque]
pub open spec fn arm_pattern(s: State, def: EnumShapeV, p: Pattern, cover: Cover, body: bool) -> (State, Cover) {
    match p {
        Pattern::Ident(name) => match variant_named(def.variants, name.name@, 0) {
            Some(_) => (s, Cover { names: cover.names.push(name.name@), ..cover }),
            None => (no_member(s, def.name, name.name@, name.span), cover),
        },
        Pattern::Variant(name, bindings) => match variant_named(def.variants, name.name@, 0) {
            Some(v) => {
                let s1 = if bindings@.len() != v.fields.len() {
                    report3(
                        s,
                        ErrorCode::VariantBindingCountMismatch,
                        name.span,
                        name.name@,
                        decimal(v.fields.len()),
                        decimal(bindings@.len()),
                    )
                } else {
                    s
                };
                let s2 = if body {
                    bind_fields(s1, bindings@, v.fields, 0)
                } else {
                    s1
                };
                (s2, Cover { names: cover.names.push(name.name@), ..cover })
            },
            None => (no_member(s, def.name, name.name@, name.span), cover),
        },
        Pattern::Other(_) => (s, Cover { other: true, ..cover }),
    }
}

/// The arms from `j` on. Only the selected one is checked where one is
/// selected, and none where `blocked`.
pub open spec fn arms_from(
    s: State,
    def: EnumShapeV,
    m: MatchStmt,
    j: nat,
    selected: Option<nat>,
    blocked: bool,
    cover: Cover,
    d: nat,
) -> (State, Cover)
    decreases 3 * d + 1, m, m.arms@.len() - j,
{
    if j >= m.arms@.len() {
        (s, cover)
    } else {
        let body = !blocked && (selected is None || selected == Some(j));
        let (s1, next) = arm_pattern(s, def, m.arms@[j as int].pattern, cover, body);
        let s2 = if body {
            check_block(s1, m.arms@[j as int].body, d)
        } else {
            s1
        };
        arms_from(s2, def, m, j + 1, selected, blocked, next, d)
    }
}

/// The first variant from `j` on that no arm covers.
pub open spec fn uncovered(def: EnumShapeV, names: Seq<Seq<char>>, j: nat) -> Option<Seq<char>>
    decreases def.variants.len() - j,
{
    if j >= def.variants.len() {
        None
    } else if names.contains(def.variants[j as int].name) {
        uncovered(def, names, j + 1)
    } else {
        Some(def.variants[j as int].name)
    }
}

/// Where a look at a type parameter stands that the value at hand does not settle.
#[verifier::opaque]
pub open spec fn unsettled_match(s: State, m: MatchStmt) -> Option<Span> {
    if uses(s.names, m.expr, s.subst.dom()) {
        Some(expr_span(m.expr))
    } else {
        arms_place(s.names, m.arms, 0, s.subst.dom())
    }
}

/// The arms of a `match` on an enum: each names a variant, and together they
/// cover all.
pub open spec fn enum_match(s: State, def: EnumShapeV, m: MatchStmt, d: nat) -> State
    decreases 3 * d + 1, m, m.arms@.len() + 1,
{
    let (s1, selected) = if s.context.specialize {
        select_arm(s, m)
    } else {
        (s, None)
    };
    let unsettled = if s1.context.specialize && selected is None {
        unsettled_match(s1, m)
    } else {
        None
    };
    let (s2, cover) = arms_from(
        s1,
        def,
        m,
        0,
        selected,
        unsettled is Some,
        Cover { names: Seq::empty(), other: false },
        d,
    );
    let s3 = match unsettled {
        Some(span) => report0(s2, ErrorCode::InvalidComptimeTypeBinding, span),
        None => s2,
    };
    if cover.other {
        s3
    } else {
        match uncovered(def, cover.names, 0) {
            Some(variant) => report2(
                s3,
                ErrorCode::NonExhaustiveMatch,
                m.span,
                def.name,
                variant,
            ),
            None => s3,
        }
    }
}

pub open spec fn check_match(s: State, m: MatchStmt, d: nat) -> State
    decreases 3 * d + 1, m, m.arms@.len() + 2,
{
    let (s1, id) = check_expr(s, m.expr, d);
    if id == TypeInterner::ERROR {
        arm_bodies(s1, m, 0, d)
    } else {
        match ty(s1.types, id) {
            Type::Enum(eid) => enum_match(s1, s1.types.enums[eid.0 as int], m, d),
            _ => arm_bodies(
                report1(s1, ErrorCode::MatchRequiresEnum, expr_span(m.expr), name_of(s1.types, id)),
                m,
                0,
                d,
            ),
        }
    }
}

// ---------------------------------------------------------------------------
// The checks
// ---------------------------------------------------------------------------

impl TypeInterner {
    fn reflected_field_types_for_owner(&self, id: TypeId) -> (r: Vec<TypeId>)
        ensures
            r@ == own_field_types(self@, id),
    {
        match self.resolve(id) {
            Type::Struct(sid) => named_type_ids(&self.resolve_struct(sid).fields),
            Type::Bitfield(bid) => self.parts_of_bitfield(bid),
            _ => {
                let r: Vec<TypeId> = Vec::new();
                assert(r@ =~= Seq::empty());
                r
            },
        }
    }

    fn reflected_variant_field_types_for_owner(&self, id: TypeId) -> (r: Vec<TypeId>)
        ensures
            r@ == variant_field_types(self@, id),
    {
        match self.resolve(id) {
            Type::Enum(eid) => self.parts_of_enum(eid),
            _ => {
                let r: Vec<TypeId> = Vec::new();
                assert(r@ =~= Seq::empty());
                r
            },
        }
    }

    fn reflected_machine_field_types_for_owner(&self, id: TypeId) -> (r: Vec<TypeId>)
        ensures
            r@ == machine_field_types(self@, id),
    {
        match self.resolve(id) {
            Type::Machine(mid) => self.parts_of_machine(mid),
            Type::MachineState { machine, state } => match self.resolve_machine(machine).state(state) {
                Some(def) => named_type_ids(&def.fields),
                None => {
                    let r: Vec<TypeId> = Vec::new();
                    assert(r@ =~= Seq::empty());
                    r
                },
            },
            _ => {
                let r: Vec<TypeId> = Vec::new();
                assert(r@ =~= Seq::empty());
                r
            },
        }
    }
}

proof fn known_field_ids(s: State, fields: Seq<NamedTypeV>)
    requires
        has_fields(s, fields),
    ensures
        has_all(s, named_ids(fields)),
{
    assert forall|i: int| 0 <= i < fields.len() implies has(s, #[trigger] named_ids(fields)[i]) by {
        assert(has(s, fields[i].ty));
    }
}

proof fn known_flattened(s: State, lists: Seq<Seq<TypeId>>)
    requires
        forall|i: int| 0 <= i < lists.len() ==> has_all(s, #[trigger] lists[i]),
    ensures
        has_all(s, lists.flatten()),
    decreases lists.len(),
{
    if lists.len() > 0 {
        let rest = lists.drop_first();
        assert forall|i: int| 0 <= i < rest.len() implies has_all(s, #[trigger] rest[i]) by {
            assert(rest[i] == lists[i + 1]);
        }
        known_flattened(s, rest);
        assert(has_all(s, lists[0]));
        assert(lists.flatten() == lists.first() + rest.flatten());
        assert forall|i: int| 0 <= i < lists.flatten().len() implies has(
            s,
            #[trigger] lists.flatten()[i],
        ) by {
            if i < lists[0].len() {
                assert(has(s, lists[0][i]));
            } else {
                assert(has(s, rest.flatten()[i - lists[0].len()]));
            }
        }
    }
}

/// The parts of a stored type are stored.
proof fn known_parts(s: State, id: TypeId)
    requires
        known(s),
        sound(s.types),
    ensures
        has_all(s, own_field_types(s.types, id)),
        has_all(s, variant_field_types(s.types, id)),
        has_all(s, machine_field_types(s.types, id)),
{
    known_definitions(s);
    let ts = s.types;
    if id < ts.types.len() {
        assert(grounded(ts, ts.types[id as int], id as nat));
    }
    match ty(ts, id) {
        Type::Struct(sid) => known_field_ids(s, ts.structs[sid.0 as int].fields),
        Type::Bitfield(bid) => {
            let fields = ts.bitfields[bid.0 as int].fields;
            assert(has_slots(s, fields));
            assert forall|i: int| 0 <= i < fields.len() implies has(s, #[trigger] slot_ids(fields)[i]) by {
                assert(has(s, fields[i].ty));
            }
        },
        Type::Enum(eid) => {
            let variants = ts.enums[eid.0 as int].variants;
            assert(has_variants(s, variants));
            let lists = variants.map_values(|v: VariantShapeV| named_ids(v.fields));
            assert forall|i: int| 0 <= i < lists.len() implies has_all(s, #[trigger] lists[i]) by {
                assert(has_fields(s, variants[i].fields));
                known_field_ids(s, variants[i].fields);
            }
            known_flattened(s, lists);
        },
        Type::Machine(mid) => {
            let states = ts.machines[mid.0 as int].states;
            assert(has_states(s, states));
            let lists = states.map_values(|m: MachineStateShapeV| named_ids(m.fields));
            assert forall|i: int| 0 <= i < lists.len() implies has_all(s, #[trigger] lists[i]) by {
                assert(has_fields(s, states[i].fields));
                known_field_ids(s, states[i].fields);
            }
            known_flattened(s, lists);
        },
        Type::MachineState { machine, state } => {
            let states = ts.machines[machine.0 as int].states;
            assert(has_states(s, states));
            if state.0 < states.len() {
                assert(has_fields(s, states[state.0 as int].fields));
                known_field_ids(s, states[state.0 as int].fields);
            }
        },
        _ => {},
    }
}

proof fn known_mono_args(s: State, id: TypeId, i: nat)
    requires
        known(s),
    ensures
        mono_args(s.monos, id, i) matches Some(args) ==> has_all(s, args),
    decreases s.monos.len() - i,
{
    known_lists(s);
    if i < s.monos.len() && s.monos[i as int].ty != id {
        known_mono_args(s, id, i + 1);
    }
}

/// The arguments of a stored type are stored.
proof fn known_type_args(s: State, id: TypeId)
    requires
        known(s),
        sound(s.types),
    ensures
        has_all(s, type_args(s.types, s.monos, id)),
{
    known_mono_args(s, id, 0);
    let ts = s.types;
    if id < ts.types.len() {
        assert(grounded(ts, ts.types[id as int], id as nat));
    }
}

proof fn known_variant(s: State, variants: Seq<VariantShapeV>, name: Seq<char>, i: nat)
    requires
        has_variants(s, variants),
    ensures
        variant_named(variants, name, i) matches Some(v) ==> has_fields(s, v.fields),
    decreases variants.len() - i,
{
    if i < variants.len() && variants[i as int].name != name {
        known_variant(s, variants, name, i + 1);
    }
}

proof fn known_scoped(s: State, scopes: Seq<NamedIdsV>, name: Seq<char>, n: nat)
    requires
        forall|i: int| 0 <= i < scopes.len() ==> has_all(s, (#[trigger] scopes[i]).ids),
    ensures
        scoped_ids(scopes, name, n) matches Some(ids) ==> has_all(s, ids),
    decreases n,
{
    if 0 < n <= scopes.len() && scopes[n - 1].name != name {
        known_scoped(s, scopes, name, (n - 1) as nat);
    }
}

fn find_scoped_ids(scopes: &Vec<NamedIds>, name: &String) -> (r: Option<Vec<TypeId>>)
    ensures
        r is Some <==> scoped_ids(views(scopes@), name@, scopes@.len()) is Some,
        r matches Some(ids) ==> scoped_ids(views(scopes@), name@, scopes@.len()) == Some(ids@),
{
    let ghost vs = views(scopes@);
    let mut n: usize = scopes.len();
    while n > 0
        invariant
            n <= scopes@.len(),
            vs == views(scopes@),
            scoped_ids(vs, name@, scopes@.len()) == scoped_ids(vs, name@, n as nat),
        decreases n,
    {
        assert(vs[n - 1] == scopes@[n - 1]@);
        if scopes[n - 1].name == *name {
            return Some(dup_ids(&scopes[n - 1].ids));
        }
        n = n - 1;
    }
    None
}

fn find_scoped_id(scopes: &Vec<NamedType>, name: &String) -> (r: Option<TypeId>)
    ensures
        r == scoped_id(views(scopes@), name@, scopes@.len()),
{
    let ghost vs = views(scopes@);
    let mut n: usize = scopes.len();
    while n > 0
        invariant
            n <= scopes@.len(),
            vs == views(scopes@),
            scoped_id(vs, name@, scopes@.len()) == scoped_id(vs, name@, n as nat),
        decreases n,
    {
        assert(vs[n - 1] == scopes@[n - 1]@);
        if scopes[n - 1].name == *name {
            return Some(scopes[n - 1].ty);
        }
        n = n - 1;
    }
    None
}

pub open spec fn maybe_ids(o: Option<Vec<TypeId>>) -> Option<Seq<TypeId>> {
    match o {
        Some(v) => Some(v@),
        None => None,
    }
}

impl<'a> TypeChecker<'a> {
    pub(crate) fn declare_params(&mut self, params: &Vec<Param>)
        ensures
            keeps(old(self)@, final(self)@),
            known(old(self)@) ==> known(final(self)@),
            final(self)@ == declare_params(old(self)@, params@, 0),
    {
        let mut i: usize = 0;
        while i < params.len()
            invariant
                keeps(old(self)@, self@),
                known(old(self)@) ==> known(self@),
                i <= params@.len(),
                declare_params(self@, params@, i as nat) == declare_params(
                    old(self)@,
                    params@,
                    0,
                ),
            decreases params@.len() - i,
        {
            let id: usize = self.resolve_type_expr(&params[i].ty);
            self.declare(params[i].name.span, id);
            i = i + 1;
        }
    }

    pub(crate) fn check_block(&mut self, b: &Block, Ghost(d): Ghost<nat>)
        requires
            can_enter(old(self)@, d),
        ensures
            keeps(old(self)@, final(self)@),
            known(old(self)@) ==> known(final(self)@),
            final(self)@ == check_block(old(self)@, *b, d),
        decreases 3 * d + 1, b, b.stmts@.len() + 2,
    {
        self.push_facts(FactScope::new());
        let ghost s1 = self@;
        let mut i: usize = 0;
        while i < b.stmts.len()
            invariant
                can_enter(self@, d),
                keeps(s1, self@),
                known(s1) ==> known(self@),
                i <= b.stmts@.len(),
                stmts_from(self@, *b, i as nat, d) == stmts_from(s1, *b, 0, d),
            decreases b.stmts@.len() - i,
        {
            self.check_stmt(&b.stmts[i], Ghost(d));
            i = i + 1;
        }
        let ghost end = self@;
        self.pop_facts();
        proof {
            keeps_scopes(s1, end);
            keeps_around(old(self)@, s1, end, self@);
        }
    }

    fn discarded(&mut self, id: TypeId, span: Span)
        ensures
            keeps(old(self)@, final(self)@),
            known(old(self)@) ==> known(final(self)@),
            final(self)@ == discarded(old(self)@, id, span),
    {
        if id == TypeInterner::ERROR {
            return;
        }
        match self.resolve(id) {
            Type::Result(_, _) => self.warn0(ErrorCode::UnhandledResult, span),
            Type::Optional(_) => self.warn0(ErrorCode::UnhandledOptional, span),
            _ => {},
        }
    }

    fn check_stmt(&mut self, stmt: &Stmt, Ghost(d): Ghost<nat>)
        requires
            can_enter(old(self)@, d),
        ensures
            keeps(old(self)@, final(self)@),
            known(old(self)@) ==> known(final(self)@),
            final(self)@ == check_stmt(old(self)@, *stmt, d),
        decreases 3 * d + 1, stmt, 2nat,
    {
        match stmt {
            Stmt::VarDecl(x) => self.check_var_decl(x, Ghost(d)),
            Stmt::Assign(x) => self.check_assign(x, Ghost(d)),
            Stmt::Return(x) => self.check_return(x, Ghost(d)),
            Stmt::ComptimeTypeBind(x) => self.check_comptime_type_bind(x, Ghost(d)),
            Stmt::If(x) => self.check_if(x, Ghost(d)),
            Stmt::For(x) => self.check_for(x, Ghost(d)),
            Stmt::While(x) => {
                self.check_condition_expr(&x.condition, Ghost(d));
                self.check_block(&x.body, Ghost(d));
            },
            Stmt::Expr(x) => {
                let t: usize = self.check_expr(&x.expr, Ghost(d));
                self.discarded(t, x.span);
            },
            Stmt::Assert(x) => self.check_assert(x, Ghost(d)),
            Stmt::Trace(x) => {},
            Stmt::Breakpoint(x) => match &x.condition {
                Some(c) => self.check_condition_expr(c, Ghost(d)),
                None => {},
            },
            Stmt::Match(x) => self.check_match(x, Ghost(d)),
            Stmt::Respond(x) => self.check_respond(x, Ghost(d)),
            Stmt::Use(_) | Stmt::Break(_) | Stmt::Continue(_) => {},
        }
    }

    fn check_condition_expr(&mut self, e: &Expr, Ghost(d): Ghost<nat>)
        requires
            can_enter(old(self)@, d),
        ensures
            keeps(old(self)@, final(self)@),
            known(old(self)@) ==> known(final(self)@),
            final(self)@ == check_condition(old(self)@, *e, d),
        decreases 3 * d + 1, e, 20nat,
    {
        let t: usize = self.check_expr(e, Ghost(d));
        self.expect_bool(ErrorCode::ConditionNotBool, t, e.span());
    }

    pub(crate) fn check_var_decl(&mut self, x: &VarDecl, Ghost(d): Ghost<nat>)
        requires
            can_enter(old(self)@, d),
        ensures
            keeps(old(self)@, final(self)@),
            known(old(self)@) ==> known(final(self)@),
            final(self)@ == check_var_decl(old(self)@, *x, d),
        decreases 3 * d + 1, x, 0nat,
    {
        let declared: usize = self.resolve_type_expr(&x.ty);
        let init: usize = self.check_expr_for_expected(&x.value, declared, true, Ghost(d));
        self.declare(x.name.span, declared);
        if !self.types_compatible(declared, init) {
            let left = self.name_of(declared);
            let right = self.name_of(init);
            self.report3(
                ErrorCode::VarDeclTypeMismatch,
                x.span,
                x.name.name.clone(),
                left,
                right,
            );
        }
        self.record_reflection_local_fact(x, declared, init);
    }

    fn forget_target(&mut self, e: &Expr)
        ensures
            keeps(old(self)@, final(self)@),
            known(old(self)@) ==> known(final(self)@),
            final(self)@ == forget_target(old(self)@, *e),
    {
        match e {
            Expr::Ident(ident) => {
                if let Some(id) = self.names().declaration_def_id(ident.span) {
                    self.clear_reflection_local_fact(id);
                }
            },
            _ => {},
        }
    }

    fn check_assign(&mut self, x: &AssignStmt, Ghost(d): Ghost<nat>)
        requires
            can_enter(old(self)@, d),
        ensures
            keeps(old(self)@, final(self)@),
            known(old(self)@) ==> known(final(self)@),
            final(self)@ == check_assign(old(self)@, *x, d),
        decreases 3 * d + 1, x, 0nat,
    {
        self.forget_target(&x.target);
        let target: usize = self.check_expr(&x.target, Ghost(d));
        let value: usize = self.check_expr_for_expected(&x.value, target, false, Ghost(d));
        if !self.types_compatible(target, value) {
            self.report_types(ErrorCode::AssignTypeMismatch, x.span, target, value);
        }
    }

    fn returned(&mut self, id: TypeId, span: Span)
        ensures
            keeps(old(self)@, final(self)@),
            known(old(self)@) ==> known(final(self)@),
            final(self)@ == returned(old(self)@, id, span),
    {
        let expected = self.get_context().return_type;
        if let Some(expected) = expected {
            if !self.interner().satisfies_expected_type(self.all_impls(), expected, id) {
                self.report_types(ErrorCode::ReturnTypeMismatch, span, expected, id);
            }
        }
    }

    fn check_return(&mut self, x: &ReturnStmt, Ghost(d): Ghost<nat>)
        requires
            can_enter(old(self)@, d),
        ensures
            keeps(old(self)@, final(self)@),
            known(old(self)@) ==> known(final(self)@),
            final(self)@ == check_return(old(self)@, *x, d),
        decreases 3 * d + 1, x, 0nat,
    {
        let wanted = self.get_context().return_type;
        let t: usize = match &x.value {
            Some(e) => match wanted {
                Some(expected) => self.check_expr_for_expected(e, expected, false, Ghost(d)),
                None => self.check_expr(e, Ghost(d)),
            },
            None => TypeInterner::NOTHING,
        };
        self.returned(t, x.span);
    }

    fn check_respond(&mut self, x: &RespondStmt, Ghost(d): Ghost<nat>)
        requires
            can_enter(old(self)@, d),
        ensures
            keeps(old(self)@, final(self)@),
            known(old(self)@) ==> known(final(self)@),
            final(self)@ == check_respond(old(self)@, *x, d),
        decreases 3 * d + 1, x, 0nat,
    {
        let wanted = self.get_context().respond_type;
        match wanted {
            None => {
                let t: usize = self.check_expr(&x.value, Ghost(d));
                self.report0(ErrorCode::RespondOutsideHandler, x.span);
            },
            Some(expected) => {
                let t: usize = self.check_expr_for_expected(&x.value, expected, false, Ghost(d));
                self.expect_type(expected, t, x.value.span());
            },
        }
    }

    fn check_assert(&mut self, x: &AssertStmt, Ghost(d): Ghost<nat>)
        requires
            can_enter(old(self)@, d),
        ensures
            keeps(old(self)@, final(self)@),
            known(old(self)@) ==> known(final(self)@),
            final(self)@ == check_assert(old(self)@, *x, d),
        decreases 3 * d + 1, x, 0nat,
    {
        if !self.get_context().in_verify && !self.get_context().in_property {
            self.report0(ErrorCode::AssertOutsideTestBlock, x.span);
        }
        let t: usize = self.check_expr(&x.condition, Ghost(d));
        self.expect_bool(ErrorCode::AssertConditionNotBool, t, x.condition.span());
        match &x.message {
            Some(m) => {
                let t: usize = self.check_expr(m, Ghost(d));
            },
            None => {},
        }
    }

    fn check_comptime_type_bind_body(&mut self, name: &String, id: TypeId, body: &Block, Ghost(d): Ghost<nat>)
        requires
            can_enter(old(self)@, d),
        ensures
            keeps(old(self)@, final(self)@),
            known(old(self)@) && has(old(self)@, id) ==> known(final(self)@),
            final(self)@ == bound_block(old(self)@, name@, id, *body, d),
        decreases 3 * d + 1, body, body.stmts@.len() + 3,
    {
        let previous = self.get_subst(name);
        self.put_subst(name.clone(), id);
        let ghost entered = self@;
        self.check_block(body, Ghost(d));
        let ghost left = self@;
        match previous {
            Some(p) => self.put_subst(name.clone(), p),
            None => self.drop_subst(name),
        }
        proof {
            keeps_scopes(entered, left);
            assert(self@.subst =~= old(self)@.subst);
            keeps_around(old(self)@, entered, left, self@);
        }
    }

    fn bound_blocks(&mut self, name: &String, ids: &Vec<TypeId>, body: &Block, Ghost(d): Ghost<nat>)
        requires
            can_enter(old(self)@, d),
        ensures
            keeps(old(self)@, final(self)@),
            known(old(self)@) && has_all(old(self)@, ids@) ==> known(final(self)@),
            final(self)@ == bound_blocks(old(self)@, name@, ids@, 0, *body, d),
        decreases 3 * d + 1, body, body.stmts@.len() + 5,
    {
        let mut i: usize = 0;
        while i < ids.len()
            invariant
                can_enter(self@, d),
                keeps(old(self)@, self@),
                known(old(self)@) && has_all(old(self)@, ids@) ==> known(self@),
                i <= ids@.len(),
                bound_blocks(self@, name@, ids@, i as nat, *body, d) == bound_blocks(
                    old(self)@,
                    name@,
                    ids@,
                    0,
                    *body,
                    d,
                ),
            decreases ids@.len() - i,
        {
            if ids[i] != TypeInterner::ERROR {
                self.check_comptime_type_bind_body(name, ids[i], body, Ghost(d));
            }
            i = i + 1;
        }
    }

    fn type_info_arg_types_for_type_expr(&mut self, t: &TypeExpr) -> (r: Vec<TypeId>)
        ensures
            keeps(old(self)@, final(self)@),
            known(old(self)@) ==> known(final(self)@) && has_all(final(self)@, r@),
            (final(self)@, r@) == written_args(old(self)@, *t),
        decreases t,
    {
        proof {
            reveal(written_args);
        }
        match t {
            TypeExpr::View(inner, _) => self.type_info_arg_types_for_type_expr(inner),
            TypeExpr::StateQualified(_, _, _) => {
                let r: Vec<TypeId> = Vec::new();
                assert(r@ =~= Seq::empty());
                r
            },
            TypeExpr::Named(ident) => {
                match self.get_aliases(&ident.name) {
                    Some(alias) => {
                        let base: usize = self.resolve_type_expr(&alias.base_type);
                        crate::builtin_calls::ids1(base)
                    },
                    None => {
                        let id: usize = self.resolve_type_expr(t);
                        let types = self.interner();
                        proof {
                            if known(self@) {
                                known_type_args(self@, id);
                            }
                        }
                        types.type_info_arg_types_for_type(self.all_monos(), id)
                    },
                }
            },
            TypeExpr::Generic(_, args, _) => self.resolve_type_list(args),
            TypeExpr::Function(params, ret, _) => {
                let mut ids = self.resolve_type_list(params);
                let r: usize = self.resolve_type_expr(ret);
                ids.push(r);
                ids
            },
        }
    }

    fn reflected_types(&self, e: &Expr) -> (r: Option<Vec<TypeId>>)
        ensures
            known(self@) ==> (r matches Some(x) ==> has_all(self@, x@)),
            maybe_ids(r) == reflected_types(self@, *e),
    {
        proof {
            reveal(reflected_types);
            if known(self@) {
                known_lists(self@);
                assert forall|name: Seq<char>, n: nat| #[trigger]
                    scoped_ids(self@.field_scopes, name, n) matches Some(ids) ==> has_all(self@, ids) by {
                    known_scoped(self@, self@.field_scopes, name, n);
                }
                assert forall|name: Seq<char>, n: nat| #[trigger]
                    scoped_ids(self@.info_scopes, name, n) matches Some(ids) ==> has_all(self@, ids) by {
                    known_scoped(self@, self@.info_scopes, name, n);
                }
            }
        }
        if let Some(name) = find_field_of_name(e, "type_info") {
            if let Some(ids) = find_scoped_ids(self.all_field_scopes(), name) {
                return Some(ids);
            }
        }
        match e {
            Expr::Ident(ident) => find_scoped_ids(self.all_info_scopes(), &ident.name),
            _ => None,
        }
    }

    fn check_comptime_type_bind(&mut self, x: &ComptimeTypeBindStmt, Ghost(d): Ghost<nat>)
        requires
            can_enter(old(self)@, d),
        ensures
            keeps(old(self)@, final(self)@),
            known(old(self)@) ==> known(final(self)@),
            final(self)@ == check_type_bind(old(self)@, *x, d),
        decreases 3 * d + 1, x, 0nat,
    {
        let t: usize = self.check_expr(&x.value, Ghost(d));
        if let Some(t) = find_member_type(&x.value, "info", 0) {
            let id: usize = self.resolve_type_expr(t);
            if id == TypeInterner::ERROR {
                self.check_block(&x.body, Ghost(d));
            } else {
                self.check_comptime_type_bind_body(&x.name.name, id, &x.body, Ghost(d));
            }
            return;
        }
        if let Some((t, index)) = comptime_type_arg_binding(&x.value) {
            let source: usize = self.resolve_type_expr(t);
            if source == TypeInterner::ERROR {
                self.check_block(&x.body, Ghost(d));
                return;
            }
            let args = self.type_info_arg_types_for_type_expr(t);
            if index < args.len() {
                if args[index] != TypeInterner::ERROR {
                    self.check_comptime_type_bind_body(&x.name.name, args[index], &x.body, Ghost(d));
                }
                return;
            }
            self.report0(ErrorCode::InvalidComptimeTypeBinding, x.value.span());
            self.check_block(&x.body, Ghost(d));
            return;
        }
        match self.reflected_types(&x.value) {
            Some(ids) => self.bound_blocks(&x.name.name, &ids, &x.body, Ghost(d)),
            None => {
                self.report0(ErrorCode::InvalidComptimeTypeBinding, x.value.span());
                self.check_block(&x.body, Ghost(d));
            },
        }
    }

    fn check_block_with_type_override(&mut self, b: &Block, narrowed: Option<(DefId, TypeId)>, Ghost(d): Ghost<nat>)
        requires
            can_enter(old(self)@, d),
        ensures
            keeps(old(self)@, final(self)@),
            known(old(self)@) && (narrowed matches Some((_, t))
                ==> has(old(self)@, t)) ==> known(final(self)@),
            final(self)@ == overridden_block(old(self)@, *b, narrowed, d),
        decreases 3 * d + 1, b, b.stmts@.len() + 3,
    {
        match narrowed {
            None => self.check_block(b, Ghost(d)),
            Some((def, id)) => {
                let previous = self.get_type_env(def);
                self.put_type_env(def, id);
                self.check_block(b, Ghost(d));
                match previous {
                    Some(p) => self.put_type_env(def, p),
                    None => self.drop_type_env(def),
                }
            },
        }
    }

    fn branch_block(&mut self, i: &IfStmt, branch: Branch, b: &Block, Ghost(d): Ghost<nat>)
        requires
            can_enter(old(self)@, d),
            branch matches Branch::ElseIf(k) ==> k < i.else_ifs@.len(),
        ensures
            keeps(old(self)@, final(self)@),
            known(old(self)@) ==> known(final(self)@),
            final(self)@ == branch_block(old(self)@, *i, branch, *b, d),
        decreases 3 * d + 1, b, b.stmts@.len() + 4,
    {
        let narrowed = self.machine_state_narrowing_for_branch(i, branch);
        self.check_block_with_type_override(b, narrowed, Ghost(d));
    }

    fn conditions_from(&mut self, es: &Vec<(Expr, Block)>, Ghost(d): Ghost<nat>)
        requires
            can_enter(old(self)@, d),
        ensures
            keeps(old(self)@, final(self)@),
            known(old(self)@) ==> known(final(self)@),
            final(self)@ == conditions_from(old(self)@, *es, 0, d),
        decreases 3 * d + 1, es, es@.len() + 1,
    {
        let mut j: usize = 0;
        while j < es.len()
            invariant
                can_enter(self@, d),
                keeps(old(self)@, self@),
                known(old(self)@) ==> known(self@),
                j <= es@.len(),
                conditions_from(self@, *es, j as nat, d) == conditions_from(
                    old(self)@,
                    *es,
                    0,
                    d,
                ),
            decreases es@.len() - j,
        {
            self.check_condition_expr(&es[j].0, Ghost(d));
            j = j + 1;
        }
    }

    fn all_branches(&mut self, i: &IfStmt, Ghost(d): Ghost<nat>)
        requires
            can_enter(old(self)@, d),
        ensures
            keeps(old(self)@, final(self)@),
            known(old(self)@) ==> known(final(self)@),
            final(self)@ == all_branches(old(self)@, *i, d),
        decreases 3 * d + 1, i, i.else_ifs@.len() + 1,
    {
        self.check_condition_expr(&i.condition, Ghost(d));
        self.branch_block(i, Branch::Then, &i.then_block, Ghost(d));
        let ghost s2 = self@;
        let mut j: usize = 0;
        while j < i.else_ifs.len()
            invariant
                can_enter(self@, d),
                keeps(old(self)@, self@),
                known(old(self)@) ==> known(self@),
                j <= i.else_ifs@.len(),
                else_ifs_from(self@, *i, j as nat, d) == else_ifs_from(s2, *i, 0, d),
            decreases i.else_ifs@.len() - j,
        {
            let pair = &i.else_ifs[j];
            self.check_condition_expr(&pair.0, Ghost(d));
            self.branch_block(i, Branch::ElseIf(j), &pair.1, Ghost(d));
            j = j + 1;
        }
        match &i.else_block {
            Some(b) => self.branch_block(i, Branch::Else, b, Ghost(d)),
            None => {},
        }
    }

    fn selected_branch(&mut self, i: &IfStmt, k: u128, Ghost(d): Ghost<nat>)
        requires
            can_enter(old(self)@, d),
        ensures
            keeps(old(self)@, final(self)@),
            known(old(self)@) ==> known(final(self)@),
            final(self)@ == selected_branch(old(self)@, *i, k as nat, d),
        decreases 3 * d + 1, i, i.else_ifs@.len() + 1,
    {
        if k == 0 {
            self.branch_block(i, Branch::Then, &i.then_block, Ghost(d));
        } else if k <= i.else_ifs.len() as u128 {
            let j: usize = (k - 1) as usize;
            self.branch_block(i, Branch::ElseIf(j), &i.else_ifs[j].1, Ghost(d));
        } else {
            match &i.else_block {
                Some(b) => self.branch_block(i, Branch::Else, b, Ghost(d)),
                None => {},
            }
        }
    }

    fn active_type_params(&self) -> (r: Vec<String>)
        ensures
            as_params(r@) == self@.subst.dom(),
    {
        let r = self.all_subst().keys();
        assert(as_params(r@) =~= self@.subst.dom());
        r
    }

    fn check_if(&mut self, i: &IfStmt, Ghost(d): Ghost<nat>)
        requires
            can_enter(old(self)@, d),
        ensures
            keeps(old(self)@, final(self)@),
            known(old(self)@) ==> known(final(self)@),
            final(self)@ == check_if(old(self)@, *i, d),
        decreases 3 * d + 1, i, i.else_ifs@.len() + 2,
    {
        if self.get_context().specialize {
            match self.static_reflection_if_branch(i) {
                Some(k) => {
                    self.check_condition_expr(&i.condition, Ghost(d));
                    self.conditions_from(&i.else_ifs, Ghost(d));
                    self.selected_branch(i, k, Ghost(d));
                    return;
                },
                None => {
                    let params = self.active_type_params();
                    if let Some(span) = self.names().if_branch_type_param_reflection_span(
                        i,
                        &params,
                    ) {
                        self.check_condition_expr(&i.condition, Ghost(d));
                        self.conditions_from(&i.else_ifs, Ghost(d));
                        self.report0(ErrorCode::InvalidComptimeTypeBinding, span);
                        return;
                    }
                },
            }
        }
        self.all_branches(i, Ghost(d));
    }

    fn element_type(&mut self, id: TypeId, span: Span) -> (r: TypeId)
        ensures
            keeps(old(self)@, final(self)@),
            known(old(self)@) && has(old(self)@, id)
                ==> known(final(self)@) && has(final(self)@, r),
            (final(self)@, r) == element_type(old(self)@, id, span),
    {
        proof {
            reveal(element_type);
        }
        if id == TypeInterner::ERROR {
            return TypeInterner::ERROR;
        }
        match self.resolve(id) {
            Type::List(x) => x,
            Type::MapOf(k, _) => k,
            Type::SetOf(x) => x,
            _ => {
                if id == TypeInterner::STRING {
                    return TypeInterner::STRING;
                }
                let shown = self.name_of(id);
                self.report1(ErrorCode::NotIterable, span, shown);
                TypeInterner::ERROR
            },
        }
    }

    fn map_value_type(&self, id: TypeId) -> (r: TypeId)
        ensures
            known(self@) && has(self@, id) ==> has(self@, r),
            r == map_value_type(self@, id),
    {
        match self.resolve(id) {
            Type::MapOf(_, v) => v,
            _ => TypeInterner::ERROR,
        }
    }

    fn variant_loop(&mut self, f: &ForStmt) -> (r: bool)
        ensures
            keeps(old(self)@, State { variant_scopes: old(self)@.variant_scopes, ..final(self)@ }),
            known(old(self)@) ==> known(final(self)@),
            opened(r, old(self)@.variant_scopes, final(self)@.variant_scopes),
            (final(self)@, r) == variant_loop(old(self)@, *f),
    {
        proof {
            reveal(variant_loop);
        }
        match find_member_type(&f.iterable, "variants", 0) {
            Some(t) => {
                let ty: usize = self.resolve_type_expr(t);
                let ghost before = self@;
                self.push_variant_scopes(NamedType { name: f.variable.name.clone(), ty });
                proof {
                    keeps_scopes(old(self)@, before);
                    assert((State { variant_scopes: old(self)@.variant_scopes, ..self@ }) == before);
                }
                true
            },
            None => false,
        }
    }

    fn machine_loop(&mut self, f: &ForStmt) -> (r: bool)
        ensures
            keeps(old(self)@, State { machine_scopes: old(self)@.machine_scopes, ..final(self)@ }),
            known(old(self)@) ==> known(final(self)@),
            opened(r, old(self)@.machine_scopes, final(self)@.machine_scopes),
            (final(self)@, r) == machine_loop(old(self)@, *f),
    {
        proof {
            reveal(machine_loop);
        }
        match find_member_type(&f.iterable, "machine_states", 0) {
            Some(t) => {
                let ty: usize = self.resolve_type_expr(t);
                let ghost before = self@;
                self.push_machine_scopes(NamedType { name: f.variable.name.clone(), ty });
                proof {
                    keeps_scopes(old(self)@, before);
                    assert((State { machine_scopes: old(self)@.machine_scopes, ..self@ }) == before);
                }
                true
            },
            None => false,
        }
    }

    fn push_fields(&mut self, name: &String, ids: Vec<TypeId>) -> (r: bool)
        ensures
            keeps(old(self)@, State { field_scopes: old(self)@.field_scopes, ..final(self)@ }),
            known(old(self)@) && has_all(old(self)@, ids@) ==> known(final(self)@),
            opened(r, old(self)@.field_scopes, final(self)@.field_scopes),
            (final(self)@, r) == push_fields(old(self)@, name@, ids@),
    {
        self.push_field_scopes(NamedIds { name: name.clone(), ids });
        assert((State { field_scopes: old(self)@.field_scopes, ..self@ }) == old(self)@);
        true
    }

    fn field_loop(&mut self, f: &ForStmt) -> (r: bool)
        ensures
            keeps(old(self)@, State { field_scopes: old(self)@.field_scopes, ..final(self)@ }),
            known(old(self)@) ==> known(final(self)@),
            opened(r, old(self)@.field_scopes, final(self)@.field_scopes),
            (final(self)@, r) == field_loop(old(self)@, *f),
    {
        proof {
            reveal(field_loop);
        }
        let none: Vec<TypeId> = Vec::new();
        assert(none@ =~= Seq::empty());
        if let Some(t) = find_member_type(&f.iterable, "fields", 0) {
            let owner: usize = self.resolve_type_expr(t);
            let types = self.interner();
            proof {
                keeps_scopes(old(self)@, self@);
                if known(self@) {
                    known_parts(self@, owner);
                }
            }
            let ids = if owner == TypeInterner::ERROR {
                none
            } else {
                types.reflected_field_types_for_owner(owner)
            };
            return self.push_fields(&f.variable.name, ids);
        }
        if let Some(t) = find_member_fields_type(&f.iterable, "variant_value") {
            let owner: usize = self.resolve_type_expr(t);
            let types = self.interner();
            proof {
                keeps_scopes(old(self)@, self@);
                if known(self@) {
                    known_parts(self@, owner);
                }
            }
            let ids = if owner == TypeInterner::ERROR {
                none
            } else {
                types.reflected_variant_field_types_for_owner(owner)
            };
            return self.push_fields(&f.variable.name, ids);
        }
        if let Some(t) = find_member_fields_type(&f.iterable, "machine_state_value") {
            let owner: usize = self.resolve_type_expr(t);
            let types = self.interner();
            proof {
                keeps_scopes(old(self)@, self@);
                if known(self@) {
                    known_parts(self@, owner);
                }
            }
            let ids = if owner == TypeInterner::ERROR {
                none
            } else {
                types.reflected_machine_field_types_for_owner(owner)
            };
            return self.push_fields(&f.variable.name, ids);
        }
        match find_field_of_name(&f.iterable, "fields") {
            Some(name) => {
                if let Some(owner) = find_scoped_id(self.all_machine_scopes(), name) {
                    let types = self.interner();
                    proof {
                        if known(self@) {
                            known_parts(self@, owner);
                        }
                    }
                    let ids = types.reflected_machine_field_types_for_owner(owner);
                    return self.push_fields(&f.variable.name, ids);
                }
                if let Some(owner) = find_scoped_id(self.all_variant_scopes(), name) {
                    let types = self.interner();
                    proof {
                        if known(self@) {
                            known_parts(self@, owner);
                        }
                    }
                    let ids = types.reflected_variant_field_types_for_owner(owner);
                    return self.push_fields(&f.variable.name, ids);
                }
                false
            },
            None => false,
        }
    }

    fn all_type_args(&self, ids: &Vec<TypeId>) -> (r: Vec<TypeId>)
        ensures
            known(self@) && has_all(self@, ids@) ==> has_all(self@, r@),
            r@ == all_type_args(self@, ids@, 0, Seq::empty()),
    {
        let mut r: Vec<TypeId> = Vec::new();
        assert(r@ =~= Seq::empty());
        let mut i: usize = 0;
        while i < ids.len()
            invariant
                i <= ids@.len(),
                known(self@) && has_all(self@, ids@) ==> has_all(self@, r@),
                all_type_args(self@, ids@, i as nat, r@) == all_type_args(
                    self@,
                    ids@,
                    0,
                    Seq::empty(),
                ),
            decreases ids@.len() - i,
        {
            let types = self.interner();
            let mut args = types.type_info_arg_types_for_type(self.all_monos(), ids[i]);
            let ghost more = args@;
            let ghost before = r@;
            r.append(&mut args);
            assert(r@ =~= before + more);
            proof {
                if known(self@) {
                    known_type_args(self@, ids@[i as int]);
                }
            }
            i = i + 1;
        }
        r
    }

    fn args_source(&mut self, e: &Expr) -> (r: Option<Vec<TypeId>>)
        ensures
            keeps(old(self)@, final(self)@),
            known(old(self)@)
                ==> known(final(self)@) && (r matches Some(x) ==> has_all(final(self)@, x@)),
            (final(self)@, maybe_ids(r)) == args_source(old(self)@, *e),
    {
        proof {
            reveal(args_source);
            if known(self@) {
                known_lists(self@);
                assert forall|name: Seq<char>, n: nat| #[trigger]
                    scoped_ids(self@.field_scopes, name, n) matches Some(ids) ==> has_all(self@, ids) by {
                    known_scoped(self@, self@.field_scopes, name, n);
                }
                assert forall|name: Seq<char>, n: nat| #[trigger]
                    scoped_ids(self@.info_scopes, name, n) matches Some(ids) ==> has_all(self@, ids) by {
                    known_scoped(self@, self@.info_scopes, name, n);
                }
            }
        }
        match e {
            Expr::FieldAccess(base, field, _) => {
                if !same_text(field.name.as_str(), "args") {
                    return None;
                }
                if let Some(t) = find_member_type(base, "info", 0) {
                    let id: usize = self.resolve_type_expr(t);
                    return Some(crate::builtin_calls::ids1(id));
                }
                if let Some(name) = find_field_of_name(base, "type_info") {
                    return find_scoped_ids(self.all_field_scopes(), name);
                }
                match &**base {
                    Expr::Ident(ident) => find_scoped_ids(self.all_info_scopes(), &ident.name),
                    _ => None,
                }
            },
            _ => None,
        }
    }

    fn info_loop(&mut self, f: &ForStmt) -> (r: bool)
        ensures
            keeps(old(self)@, State { info_scopes: old(self)@.info_scopes, ..final(self)@ }),
            known(old(self)@) ==> known(final(self)@),
            opened(r, old(self)@.info_scopes, final(self)@.info_scopes),
            (final(self)@, r) == info_loop(old(self)@, *f),
    {
        proof {
            reveal(info_loop);
        }
        let source = self.args_source(&f.iterable);
        let ghost before = self@;
        proof {
            keeps_scopes(old(self)@, before);
            assert((State { info_scopes: old(self)@.info_scopes, ..before }) == before);
        }
        match source {
            Some(ids) => {
                let all = self.all_type_args(&ids);
                self.push_info_scopes(NamedIds { name: f.variable.name.clone(), ids: all });
                assert((State { info_scopes: old(self)@.info_scopes, ..self@ }) == before);
                true
            },
            None => false,
        }
    }

    fn check_for(&mut self, f: &ForStmt, Ghost(d): Ghost<nat>)
        requires
            can_enter(old(self)@, d),
        ensures
            keeps(old(self)@, final(self)@),
            known(old(self)@) ==> known(final(self)@),
            final(self)@ == check_for(old(self)@, *f, d),
        decreases 3 * d + 1, f, 0nat,
    {
        proof {
            reveal(leave_loops);
        }
        let id: usize = self.check_expr(&f.iterable, Ghost(d));
        let element: usize = self.element_type(id, f.iterable.span());
        self.declare(f.variable.span, element);
        match &f.value_variable {
            Some(v) => {
                let value: usize = self.map_value_type(id);
                self.declare(v.span, value);
            },
            None => {},
        }
        let ghost s4 = self@;
        let variant = self.variant_loop(f);
        let ghost s5 = self@;
        let machine = self.machine_loop(f);
        let ghost s6 = self@;
        let field = self.field_loop(f);
        let ghost s7 = self@;
        let info = self.info_loop(f);
        let ghost s8 = self@;
        self.check_block(&f.body, Ghost(d));
        let ghost s9 = self@;
        if info {
            self.pop_info_scopes();
        }
        if field {
            self.pop_field_scopes();
        }
        if variant {
            self.pop_variant_scopes();
        }
        if machine {
            self.pop_machine_scopes();
        }
        proof {
            let t5 = State { variant_scopes: s4.variant_scopes, ..s5 };
            let t6 = State { machine_scopes: s5.machine_scopes, ..s6 };
            let t7 = State { field_scopes: s6.field_scopes, ..s7 };
            let t8 = State { info_scopes: s7.info_scopes, ..s8 };
            keeps_scopes(s4, t5);
            keeps_scopes(s5, t6);
            keeps_scopes(s6, t7);
            keeps_scopes(s7, t8);
            keeps_scopes(s8, s9);
            assert(self@.variant_scopes =~= s4.variant_scopes);
            assert(self@.machine_scopes =~= s4.machine_scopes);
            assert(self@.field_scopes =~= s4.field_scopes);
            assert(self@.info_scopes =~= s4.info_scopes);
            keeps_around(rescoped_to(s8, s4), s8, s9, self@);
            keeps_around(rescoped_to(s7, s4), s7, t8, rescoped_to(s8, s4));
            keeps_around(rescoped_to(s6, s4), s6, t7, rescoped_to(s7, s4));
            keeps_around(t5, s5, t6, rescoped_to(s6, s4));
        }
    }

    fn arm_bodies(&mut self, m: &MatchStmt, Ghost(d): Ghost<nat>)
        requires
            can_enter(old(self)@, d),
        ensures
            keeps(old(self)@, final(self)@),
            known(old(self)@) ==> known(final(self)@),
            final(self)@ == arm_bodies(old(self)@, *m, 0, d),
        decreases 3 * d + 1, m, m.arms@.len() + 1,
    {
        let mut j: usize = 0;
        while j < m.arms.len()
            invariant
                can_enter(self@, d),
                keeps(old(self)@, self@),
                known(old(self)@) ==> known(self@),
                j <= m.arms@.len(),
                arm_bodies(self@, *m, j as nat, d) == arm_bodies(
                    old(self)@,
                    *m,
                    0,
                    d,
                ),
            decreases m.arms@.len() - j,
        {
            self.check_block(&m.arms[j].body, Ghost(d));
            j = j + 1;
        }
    }

    fn bind_fields(&mut self, bindings: &Vec<Ident>, fields: &Vec<NamedType>)
        ensures
            keeps(old(self)@, final(self)@),
            known(old(self)@) && has_fields(old(self)@, views(fields@)) ==> known(final(self)@),
            final(self)@ == bind_fields(old(self)@, bindings@, views(fields@), 0),
    {
        let ghost fs = views(fields@);
        let mut j: usize = 0;
        while j < bindings.len() && j < fields.len()
            invariant
                keeps(old(self)@, self@),
                known(old(self)@) && has_fields(old(self)@, views(fields@)) ==> known(self@),
                j <= bindings@.len(),
                j <= fields@.len(),
                fs == views(fields@),
                bind_fields(self@, bindings@, fs, j as nat) == bind_fields(
                    old(self)@,
                    bindings@,
                    fs,
                    0,
                ),
            decreases bindings@.len() - j,
        {
            assert(fs[j as int] == fields@[j as int]@);
            self.declare(bindings[j].span, fields[j].ty);
            j = j + 1;
        }
    }

    fn arm_pattern(
        &mut self,
        def: &EnumShape,
        p: &Pattern,
        names: &mut Vec<String>,
        other: &mut bool,
        body: bool,
    )
        ensures
            keeps(old(self)@, final(self)@),
            known(old(self)@) && has_variants(old(self)@, def@.variants) ==> known(final(self)@),
            (final(self)@, Cover { names: views(final(names)@), other: *final(other) })
                == arm_pattern(
                old(self)@,
                def@,
                *p,
                Cover { names: views(old(names)@), other: *old(other) },
                body,
            ),
    {
        proof {
            reveal(arm_pattern);
        }
        match p {
            Pattern::Ident(name) => {
                if find_variant(&def.variants, &name.name).is_some() {
                    let ghost before = views(names@);
                    names.push(name.name.clone());
                    assert(views(names@) =~= before.push(name.name@));
                } else {
                    self.no_member(def.name.clone(), &name.name, name.span);
                }
            },
            Pattern::Variant(name, bindings) => {
                match find_variant(&def.variants, &name.name) {
                    Some(v) => {
                        assert(v.fields@.len() == v@.fields.len());
                        proof {
                            if has_variants(old(self)@, def@.variants) {
                                known_variant(old(self)@, def@.variants, name.name@, 0);
                            }
                        }
                        if bindings.len() != v.fields.len() {
                            self.report3(
                                ErrorCode::VariantBindingCountMismatch,
                                name.span,
                                name.name.clone(),
                                decimal_text(v.fields.len()),
                                decimal_text(bindings.len()),
                            );
                        }
                        if body {
                            self.bind_fields(bindings, &v.fields);
                        }
                        let ghost before = views(names@);
                        names.push(name.name.clone());
                        assert(views(names@) =~= before.push(name.name@));
                    },
                    None => self.no_member(def.name.clone(), &name.name, name.span),
                }
            },
            Pattern::Other(_) => {
                *other = true;
            },
        }
    }

    fn report_uncovered(&mut self, def: &EnumShape, names: &Vec<String>, span: Span)
        ensures
            keeps(old(self)@, final(self)@),
            known(old(self)@) ==> known(final(self)@),
            final(self)@ == (match uncovered(def@, views(names@), 0) {
                Some(variant) => report2(
                    old(self)@,
                    ErrorCode::NonExhaustiveMatch,
                    span,
                    def@.name,
                    variant,
                ),
                None => old(self)@,
            }),
    {
        let mut j: usize = 0;
        while j < def.variants.len()
            invariant
                keeps(old(self)@, self@),
                known(old(self)@) ==> known(self@),
                j <= def.variants@.len(),
                self@ == old(self)@,
                uncovered(def@, views(names@), 0) == uncovered(def@, views(names@), j as nat),
            decreases def.variants@.len() - j,
        {
            assert(def@.variants[j as int] == def.variants@[j as int]@);
            if !contains_text(names, &def.variants[j].name) {
                self.report2(
                    ErrorCode::NonExhaustiveMatch,
                    span,
                    def.name.clone(),
                    def.variants[j].name.clone(),
                );
                return;
            }
            j = j + 1;
        }
    }

    fn unsettled_match(&self, m: &MatchStmt) -> (r: Option<Span>)
        ensures
            r == unsettled_match(self@, *m),
    {
        proof {
            reveal(unsettled_match);
        }
        let params = self.active_type_params();
        if self.names().expr_uses_type_param_reflection(&m.expr, &params) {
            Some(m.expr.span())
        } else {
            self.names().match_arm_type_param_reflection_span(&m.arms, &params)
        }
    }

    fn enum_match(&mut self, def: &EnumShape, m: &MatchStmt, Ghost(d): Ghost<nat>)
        requires
            can_enter(old(self)@, d),
        ensures
            keeps(old(self)@, final(self)@),
            known(old(self)@) && has_variants(old(self)@, def@.variants) ==> known(final(self)@),
            final(self)@ == enum_match(old(self)@, def@, *m, d),
        decreases 3 * d + 1, m, m.arms@.len() + 1,
    {
        let specialize = self.get_context().specialize;
        let selected = if specialize {
            self.static_reflection_match_arm(m)
        } else {
            None
        };
        let unsettled = if self.get_context().specialize && selected.is_none() {
            self.unsettled_match(m)
        } else {
            None
        };
        let ghost s1 = self@;
        let ghost chosen: Option<nat> = match selected {
            Some(k) => Some(k as nat),
            None => None,
        };
        let mut names: Vec<String> = Vec::new();
        let mut other = false;
        assert(views(names@) =~= Seq::empty());
        let mut j: usize = 0;
        while j < m.arms.len()
            invariant
                can_enter(self@, d),
                keeps(old(self)@, self@),
                known(old(self)@) && has_variants(old(self)@, def@.variants) ==> known(self@),
                j <= m.arms@.len(),
                chosen == (match selected {
                    Some(k) => Some(k as nat),
                    None => None,
                }),
                arms_from(
                    self@,
                    def@,
                    *m,
                    j as nat,
                    chosen,
                    unsettled is Some,
                    Cover { names: views(names@), other },
                    d,
                ) == arms_from(
                    s1,
                    def@,
                    *m,
                    0,
                    chosen,
                    unsettled is Some,
                    Cover { names: Seq::empty(), other: false },
                    d,
                ),
            decreases m.arms@.len() - j,
        {
            let body = unsettled.is_none() && (match selected {
                Some(k) => k == j,
                None => true,
            });
            self.arm_pattern(def, &m.arms[j].pattern, &mut names, &mut other, body);
            if body {
                self.check_block(&m.arms[j].body, Ghost(d));
            }
            j = j + 1;
        }
        if let Some(span) = unsettled {
            self.report0(ErrorCode::InvalidComptimeTypeBinding, span);
        }
        if !other {
            self.report_uncovered(def, &names, m.span);
        }
    }

    fn check_match(&mut self, m: &MatchStmt, Ghost(d): Ghost<nat>)
        requires
            can_enter(old(self)@, d),
        ensures
            keeps(old(self)@, final(self)@),
            known(old(self)@) ==> known(final(self)@),
            final(self)@ == check_match(old(self)@, *m, d),
        decreases 3 * d + 1, m, m.arms@.len() + 2,
    {
        let id: usize = self.check_expr(&m.expr, Ghost(d));
        if id == TypeInterner::ERROR {
            self.arm_bodies(m, Ghost(d));
            return;
        }
        match self.resolve(id) {
            Type::Enum(eid) => {
                let def = self.interner().resolve_enum(eid).dup();
                proof {
                    if known(self@) {
                        known_definitions(self@);
                    }
                }
                self.enum_match(&def, m, Ghost(d));
            },
            _ => {
                let shown = self.name_of(id);
                self.report1(ErrorCode::MatchRequiresEnum, m.expr.span(), shown);
                self.arm_bodies(m, Ghost(d));
            },
        }
    }
}

} // verus!
