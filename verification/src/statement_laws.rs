//! What is reported of statements, kind by kind, and which types variables get.
use vstd::prelude::*;

use crate::ast::{
    expr_span, AssertStmt, AssignStmt, Block, BreakpointStmt, Expr, ExprStmt, ForStmt, Ident,
    IfStmt, MatchStmt, Param, Pattern, RespondStmt, ReturnStmt, Stmt, TraceStmt, VarDecl, WhileStmt,
};
use crate::check_blocks::{
    all_branches, arm_bodies, arm_pattern, arms_from, bind_fields, branch_block, check_block,
    check_condition, check_for, check_if, check_match, check_stmt, check_var_decl, conditions_from,
    declare_params, element_type, else_ifs_from, enum_match, field_loop, forget_target, info_loop,
    leave_loops, machine_loop, selected_branch, stmts_from, uncovered, unsettled_match,
    variant_loop, Cover,
};
use crate::check_exprs::{check_expected, check_expr};
use crate::check_rules::variant_named;
use crate::diagnostics::{warning, ErrorCode};
use crate::expression_laws::reported;
use crate::facts::empty_scope;
use crate::handling_laws::{with_report, with_variable};
use crate::narrowing::Branch;
use crate::reflection_use::{arms_place, branches_place, uses};
use crate::state::State;
use crate::static_eval::{record_fact, select_arm, select_branch};
use crate::text::decimal;
use crate::type_names::name_of;
use crate::type_rules::{compatible, satisfies};
use crate::types::{lemma_basics, sound, ty, EnumShapeV, Type, TypeId, TypeInterner, VariantShapeV};
use crate::written_types::resolve_type;

verus! {

// ---------------------------------------------------------------------------
// Blocks
// ---------------------------------------------------------------------------

/// A block checks each of its statements once, one after the other.
pub proof fn law_blocks_check_each_statement(s: State, b: Block, i: nat, d: nat)
    ensures
        i < b.stmts@.len() ==> stmts_from(s, b, i, d) == stmts_from(
            check_stmt(s, b.stmts@[i as int], d),
            b,
            i + 1,
            d,
        ),
        i >= b.stmts@.len() ==> stmts_from(s, b, i, d) == s,
        check_block(s, b, d).reports == stmts_from(
            State { facts: s.facts.push(empty_scope()), ..s },
            b,
            0,
            d,
        ).reports,
{
    reveal_with_fuel(stmts_from, 2);
    reveal_with_fuel(check_block, 2);
}

/// Parameters get the types that are written for them.
pub proof fn law_parameters_get_their_types(s: State, params: Seq<Param>, i: nat)
    ensures
        i < params.len() ==> ({
            let (s1, id) = resolve_type(s, params[i as int].ty);
            declare_params(s, params, i) == declare_params(
                with_variable(s1, params[i as int].name.span, id),
                params,
                i + 1,
            )
        }),
        i >= params.len() ==> declare_params(s, params, i) == s,
{
}

// ---------------------------------------------------------------------------
// Declarations and assignments
// ---------------------------------------------------------------------------

/// A declared variable has the type that is written, whatever its value is. The value is
/// held against that type, and reported where it does not fit.
pub proof fn law_declarations(s: State, x: VarDecl, d: nat)
    ensures
        ({
            let (s1, declared) = resolve_type(s, x.ty);
            let (s2, init) = check_expected(s1, x.value, declared, true, d);
            let s3 = with_variable(s2, x.name.span, declared);
            check_stmt(s, Stmt::VarDecl(x), d) == record_fact(
                if compatible(s2.types, s2.impls, declared, init) {
                    s3
                } else {
                    with_report(
                        s3,
                        ErrorCode::VarDeclTypeMismatch,
                        x.span,
                        seq![x.name.name@, name_of(s2.types, declared), name_of(s2.types, init)],
                    )
                },
                x,
                declared,
                init,
            )
        }),
{
    reveal_with_fuel(check_stmt, 2);
    reveal_with_fuel(check_var_decl, 2);
}

/// Outside of generic functions that look at types, and of variables that change, nothing is
/// noted of the value.
pub proof fn law_facts_are_noted_of_fixed_variables(s: State, x: VarDecl, declared: TypeId, init: TypeId)
    requires
        !s.context.specialize || x.mutable,
    ensures
        record_fact(s, x, declared, init) == s,
{
    reveal(record_fact);
}

/// An assigned value is held against the type of the target, and reported where it does not
/// fit.
pub proof fn law_assignments(s: State, x: AssignStmt, d: nat)
    ensures
        ({
            let (s1, target) = check_expr(forget_target(s, x.target), x.target, d);
            let (s2, value) = check_expected(s1, x.value, target, false, d);
            let after = check_stmt(s, Stmt::Assign(x), d);
            if compatible(s2.types, s2.impls, target, value) {
                after == s2
            } else {
                after == with_report(
                    s2,
                    ErrorCode::AssignTypeMismatch,
                    x.span,
                    seq![name_of(s2.types, target), name_of(s2.types, value)],
                )
            }
        }),
{
    reveal_with_fuel(check_stmt, 2);
}

// ---------------------------------------------------------------------------
// Leaving a function
// ---------------------------------------------------------------------------

/// A returned value is held against the result type, and reported where it does not do for
/// it. `return` alone returns `nothing`. Where no function is around, nothing is asked for.
pub proof fn law_returns(s: State, x: ReturnStmt, d: nat)
    ensures
        ({
            let (s1, t) = match x.value {
                None => (s, TypeInterner::NOTHING),
                Some(e) => match s.context.return_type {
                    Some(expected) => check_expected(s, e, expected, false, d),
                    None => check_expr(s, e, d),
                },
            };
            let after = check_stmt(s, Stmt::Return(x), d);
            match s1.context.return_type {
                Some(expected) if !satisfies(s1.types, s1.impls, expected, t) => after == with_report(
                    s1,
                    ErrorCode::ReturnTypeMismatch,
                    x.span,
                    seq![name_of(s1.types, expected), name_of(s1.types, t)],
                ),
                _ => after == s1,
            }
        }),
{
    reveal_with_fuel(check_stmt, 2);
}

/// A response is held against what the handler responds. Outside of a handler that responds
/// it is reported.
pub proof fn law_responses(s: State, x: RespondStmt, d: nat)
    ensures
        ({
            let after = check_stmt(s, Stmt::Respond(x), d);
            match s.context.respond_type {
                None => after == with_report(
                    check_expr(s, x.value, d).0,
                    ErrorCode::RespondOutsideHandler,
                    x.span,
                    Seq::empty(),
                ),
                Some(expected) => {
                    let (s1, t) = check_expected(s, x.value, expected, false, d);
                    if compatible(s1.types, s1.impls, expected, t) {
                        after == s1
                    } else {
                        after == with_report(
                            s1,
                            ErrorCode::TypeMismatch,
                            expr_span(x.value),
                            seq![name_of(s1.types, expected), name_of(s1.types, t)],
                        )
                    }
                },
            }
        }),
{
    reveal_with_fuel(check_stmt, 2);
}

/// A result or an optional that nothing is done with is warned about, and nothing else is.
pub proof fn law_dropped_values_are_warned_about(s: State, x: ExprStmt, d: nat)
    ensures
        ({
            let (s1, t) = check_expr(s, x.expr, d);
            let after = check_stmt(s, Stmt::Expr(x), d);
            if t != TypeInterner::ERROR && ty(s1.types, t) is Result {
                reported(s1, after, warning(ErrorCode::UnhandledResult, x.span, Seq::empty()))
            } else if t != TypeInterner::ERROR && ty(s1.types, t) is Optional {
                reported(s1, after, warning(ErrorCode::UnhandledOptional, x.span, Seq::empty()))
            } else {
                after == s1
            }
        }),
{
    reveal_with_fuel(check_stmt, 2);
}

// ---------------------------------------------------------------------------
// Conditions
// ---------------------------------------------------------------------------

/// A condition has to be a boolean, and a public one. Any other is reported, unless it was
/// before.
pub proof fn law_conditions_are_booleans(s: State, e: Expr, d: nat)
    ensures
        ({
            let (s1, t) = check_expr(s, e, d);
            let after = check_condition(s, e, d);
            if t == TypeInterner::BOOL || t == TypeInterner::ERROR {
                after == s1
            } else {
                after == with_report(
                    s1,
                    ErrorCode::ConditionNotBool,
                    expr_span(e),
                    seq![name_of(s1.types, t)],
                )
            }
        }),
{
    reveal_with_fuel(check_condition, 2);
}

/// A loop and a breakpoint hold their condition to that, and a loop checks its body once.
pub proof fn law_loops_check_condition_and_body(s: State, x: WhileStmt, b: BreakpointStmt, t: TraceStmt, d: nat)
    ensures
        check_stmt(s, Stmt::While(x), d) == check_block(check_condition(s, x.condition, d), x.body, d),
        check_stmt(s, Stmt::Breakpoint(b), d) == (match b.condition {
            Some(c) => check_condition(s, c, d),
            None => s,
        }),
        check_stmt(s, Stmt::Trace(t), d) == s,
{
    reveal_with_fuel(check_stmt, 2);
}

/// An assertion belongs in a verify or property block and holds a boolean. What is not so is
/// reported, and a message is looked at.
pub proof fn law_assertions(s: State, x: AssertStmt, d: nat)
    ensures
        ({
            let s1 = if s.context.in_verify || s.context.in_property {
                s
            } else {
                with_report(s, ErrorCode::AssertOutsideTestBlock, x.span, Seq::empty())
            };
            let (s2, t) = check_expr(s1, x.condition, d);
            let s3 = if t == TypeInterner::BOOL || t == TypeInterner::ERROR {
                s2
            } else {
                with_report(
                    s2,
                    ErrorCode::AssertConditionNotBool,
                    expr_span(x.condition),
                    seq![name_of(s2.types, t)],
                )
            };
            check_stmt(s, Stmt::Assert(x), d) == (match x.message {
                Some(m) => check_expr(s3, m, d).0,
                None => s3,
            })
        }),
{
    reveal_with_fuel(check_stmt, 2);
}

// ---------------------------------------------------------------------------
// Branches
// ---------------------------------------------------------------------------

/// Outside of generic functions that look at types, every condition and every branch of an
/// `if` is checked once, in the order in which they stand.
pub proof fn law_every_branch_is_checked(s: State, x: IfStmt, d: nat)
    requires
        !s.context.specialize,
    ensures
        ({
            let s1 = branch_block(
                check_condition(s, x.condition, d),
                x,
                Branch::Then,
                x.then_block,
                d,
            );
            let s2 = else_ifs_from(s1, x, 0, d);
            check_stmt(s, Stmt::If(x), d) == (match x.else_block {
                Some(b) => branch_block(s2, x, Branch::Else, b, d),
                None => s2,
            })
        }),
        forall|t: State, j: nat|
            #![trigger else_ifs_from(t, x, j, d)]
            else_ifs_from(t, x, j, d) == if j >= x.else_ifs@.len() {
                t
            } else {
                else_ifs_from(
                    branch_block(
                        check_condition(t, x.else_ifs@[j as int].0, d),
                        x,
                        Branch::ElseIf(j as usize),
                        x.else_ifs@[j as int].1,
                        d,
                    ),
                    x,
                    j + 1,
                    d,
                )
            },
{
    reveal_with_fuel(check_stmt, 2);
    reveal_with_fuel(check_if, 2);
    reveal_with_fuel(all_branches, 2);
    reveal_with_fuel(else_ifs_from, 2);
}

/// Inside of a generic function that looks at types, only the branch that the types select
/// is checked, and all conditions are. Where nothing is selected, a look at a type parameter
/// inside of a branch is reported.
pub proof fn law_types_select_a_branch(s: State, x: IfStmt, d: nat)
    requires
        s.context.specialize,
    ensures
        ({
            let (s1, selected) = select_branch(s, x);
            let after = check_stmt(s, Stmt::If(x), d);
            let conditions = conditions_from(check_condition(s1, x.condition, d), x.else_ifs, 0, d);
            match selected {
                Some(k) => after == if k == 0 {
                    branch_block(conditions, x, Branch::Then, x.then_block, d)
                } else if k <= x.else_ifs@.len() {
                    branch_block(
                        conditions,
                        x,
                        Branch::ElseIf((k - 1) as usize),
                        x.else_ifs@[k - 1].1,
                        d,
                    )
                } else if x.else_block is Some {
                    branch_block(conditions, x, Branch::Else, x.else_block->0, d)
                } else {
                    conditions
                },
                None => match branches_place(s1.names, x, s1.subst.dom()) {
                    Some(span) => after == with_report(
                        conditions,
                        ErrorCode::InvalidComptimeTypeBinding,
                        span,
                        Seq::empty(),
                    ),
                    None => after == all_branches(s1, x, d),
                },
            }
        }),
        forall|t: State, j: nat|
            #![trigger conditions_from(t, x.else_ifs, j, d)]
            conditions_from(t, x.else_ifs, j, d) == if j >= x.else_ifs@.len() {
                t
            } else {
                conditions_from(check_condition(t, x.else_ifs@[j as int].0, d), x.else_ifs, j + 1, d)
            },
{
    reveal_with_fuel(check_stmt, 2);
    reveal_with_fuel(check_if, 2);
    reveal_with_fuel(selected_branch, 2);
    reveal_with_fuel(conditions_from, 2);
}

// ---------------------------------------------------------------------------
// Loops
// ---------------------------------------------------------------------------

/// What a loop over a value of the type goes over: the elements of a list or set, the keys of
/// a map, the characters of a string.
pub open spec fn goes_over(t: Type) -> Option<TypeId> {
    match t {
        Type::List(x) => Some(x),
        Type::SetOf(x) => Some(x),
        Type::MapOf(k, _) => Some(k),
        Type::String => Some(TypeInterner::STRING),
        _ => None,
    }
}

/// The loop variable has the type of what the loop goes over, and the value variable that of
/// the values of a map. Anything else than a list, set, map or string is reported, unless it
/// was before, and its variables have the error type.
pub proof fn law_loop_variables(s: State, f: ForStmt, d: nat)
    requires
        sound(check_expr(s, f.iterable, d).0.types),
    ensures
        ({
            let (s1, id) = check_expr(s, f.iterable, d);
            let t = ty(s1.types, id);
            let element = match goes_over(t) {
                Some(x) => x,
                None => TypeInterner::ERROR,
            };
            let s2 = if goes_over(t) is Some || id == TypeInterner::ERROR {
                s1
            } else {
                with_report(
                    s1,
                    ErrorCode::NotIterable,
                    expr_span(f.iterable),
                    seq![name_of(s1.types, id)],
                )
            };
            let s3 = with_variable(s2, f.variable.span, element);
            let entered = match f.value_variable {
                Some(v) => with_variable(
                    s3,
                    v.span,
                    match t {
                        Type::MapOf(_, value) => value,
                        _ => TypeInterner::ERROR,
                    },
                ),
                None => s3,
            };
            let (s5, variant) = variant_loop(entered, f);
            let (s6, machine) = machine_loop(s5, f);
            let (s7, field) = field_loop(s6, f);
            let (s8, info) = info_loop(s7, f);
            check_stmt(s, Stmt::For(f), d) == leave_loops(
                check_block(s8, f.body, d),
                info,
                field,
                variant,
                machine,
            )
        }),
{
    let (s1, id) = check_expr(s, f.iterable, d);
    lemma_basics(s1.types);
    string_is_stored_once(s1, id);
    reveal(element_type);
    reveal_with_fuel(check_stmt, 2);
    reveal_with_fuel(check_for, 2);
}

proof fn string_is_stored_once(s: State, id: TypeId)
    requires
        sound(s.types),
    ensures
        ty(s.types, id) is String <==> id == TypeInterner::STRING,
{
    lemma_basics(s.types);
    if ty(s.types, id) is String {
        let other = TypeInterner::STRING;
        assert(s.types.types[id as int] == s.types.types[other as int]);
    }
}

// ---------------------------------------------------------------------------
// Match
// ---------------------------------------------------------------------------

/// Only enums are matched. Anything else is reported, unless it was before, and the arms are
/// looked at all the same.
pub proof fn law_only_enums_are_matched(s: State, m: MatchStmt, d: nat)
    ensures
        ({
            let (s1, id) = check_expr(s, m.expr, d);
            let after = check_stmt(s, Stmt::Match(m), d);
            if id == TypeInterner::ERROR {
                after == arm_bodies(s1, m, 0, d)
            } else {
                match ty(s1.types, id) {
                    Type::Enum(eid) => after == enum_match(s1, s1.types.enums[eid.0 as int], m, d),
                    _ => after == arm_bodies(
                        with_report(
                            s1,
                            ErrorCode::MatchRequiresEnum,
                            expr_span(m.expr),
                            seq![name_of(s1.types, id)],
                        ),
                        m,
                        0,
                        d,
                    ),
                }
            }
        }),
        forall|t: State, j: nat|
            #![trigger arm_bodies(t, m, j, d)]
            arm_bodies(t, m, j, d) == if j >= m.arms@.len() {
                t
            } else {
                arm_bodies(check_block(t, m.arms@[j as int].body, d), m, j + 1, d)
            },
{
    reveal_with_fuel(check_stmt, 2);
    reveal_with_fuel(check_match, 2);
    reveal_with_fuel(arm_bodies, 2);
}

/// Outside of generic functions that look at types, a match on an enum checks each arm, and
/// reports the first variant that no arm names, unless an arm takes all others.
pub proof fn law_matches_on_enums(s: State, def: EnumShapeV, m: MatchStmt, d: nat)
    requires
        !s.context.specialize,
    ensures
        ({
            let (s1, cover) = arms_from(
                s,
                def,
                m,
                0,
                None,
                false,
                Cover { names: Seq::empty(), other: false },
                d,
            );
            let after = enum_match(s, def, m, d);
            match uncovered(def, cover.names, 0) {
                Some(variant) if !cover.other => after == with_report(
                    s1,
                    ErrorCode::NonExhaustiveMatch,
                    m.span,
                    seq![def.name, variant],
                ),
                _ => after == s1,
            }
        }),
{
    reveal_with_fuel(enum_match, 2);
}

/// In a generic function that looks at types, only the arm that the types select is checked.
/// Where none can be told, and the value or an arm looks at a type parameter, that is reported
/// and no arm is checked. The arms cover what they name all the same.
pub proof fn law_types_select_an_arm(s: State, def: EnumShapeV, m: MatchStmt, d: nat)
    requires
        s.context.specialize,
        select_arm(s, m).0.context.specialize,
    ensures
        ({
            let (s1, selected) = select_arm(s, m);
            let tp = s1.subst.dom();
            let place = if selected is Some {
                None
            } else if uses(s1.names, m.expr, tp) {
                Some(expr_span(m.expr))
            } else {
                arms_place(s1.names, m.arms, 0, tp)
            };
            let none = Cover { names: Seq::empty(), other: false };
            let (s2, cover) = arms_from(s1, def, m, 0, selected, place is Some, none, d);
            let s3 = match place {
                Some(span) => with_report(s2, ErrorCode::InvalidComptimeTypeBinding, span, Seq::empty()),
                None => s2,
            };
            let after = enum_match(s, def, m, d);
            match uncovered(def, cover.names, 0) {
                Some(variant) if !cover.other => after == with_report(
                    s3,
                    ErrorCode::NonExhaustiveMatch,
                    m.span,
                    seq![def.name, variant],
                ),
                _ => after == s3,
            }
        }),
{
    reveal_with_fuel(enum_match, 2);
    reveal(unsettled_match);
}

/// Each arm is held against the enum, one after the other, and its body is checked where it
/// can be come to.
pub proof fn law_arms_are_checked_in_turn(
    s: State,
    def: EnumShapeV,
    m: MatchStmt,
    j: nat,
    selected: Option<nat>,
    blocked: bool,
    cover: Cover,
    d: nat,
)
    ensures
        arms_from(s, def, m, j, selected, blocked, cover, d) == if j >= m.arms@.len() {
            (s, cover)
        } else {
            let body = !blocked && (selected is None || selected == Some(j));
            let (s1, next) = arm_pattern(s, def, m.arms@[j as int].pattern, cover, body);
            arms_from(
                if body {
                    check_block(s1, m.arms@[j as int].body, d)
                } else {
                    s1
                },
                def,
                m,
                j + 1,
                selected,
                blocked,
                next,
                d,
            )
        },
{
    reveal_with_fuel(arms_from, 2);
}

/// An arm that names a variant covers it. One that names none of the enum's is reported and
/// covers nothing. `other` covers the rest.
pub proof fn law_arms_cover_what_they_name(s: State, def: EnumShapeV, p: Pattern, cover: Cover, body: bool)
    ensures
        ({
            let (after, next) = arm_pattern(s, def, p, cover, body);
            match p {
                Pattern::Other(_) => after == s && next.other && next.names == cover.names,
                Pattern::Ident(name) => if has_variant(def, name.name@) {
                    after == s && next == (Cover { names: cover.names.push(name.name@), ..cover })
                } else {
                    next == cover && after == with_report(
                        s,
                        ErrorCode::TypeHasNoMember,
                        name.span,
                        seq![def.name, name.name@],
                    )
                },
                Pattern::Variant(name, bindings) => if has_variant(def, name.name@) {
                    next == (Cover { names: cover.names.push(name.name@), ..cover })
                } else {
                    next == cover && after == with_report(
                        s,
                        ErrorCode::TypeHasNoMember,
                        name.span,
                        seq![def.name, name.name@],
                    )
                },
            }
        }),
{
    reveal(arm_pattern);
    match p {
        Pattern::Ident(name) => variant_is_found(def.variants, name.name@, 0),
        Pattern::Variant(name, _) => variant_is_found(def.variants, name.name@, 0),
        _ => {},
    }
}

pub open spec fn has_variant(def: EnumShapeV, name: Seq<char>) -> bool {
    exists|i: int| 0 <= i < def.variants.len() && (#[trigger] def.variants[i]).name == name
}

/// The first variant of that name is the one that is meant.
pub proof fn variant_is_found(variants: Seq<VariantShapeV>, name: Seq<char>, from: nat)
    ensures
        variant_named(variants, name, from) is Some <==> exists|i: int|
            from <= i < variants.len() && (#[trigger] variants[i]).name == name,
        variant_named(variants, name, from) matches Some(v) ==> v.name == name && exists|i: int|
            from <= i < variants.len() && #[trigger] variants[i] == v && forall|j: int|
                from <= j < i ==> (#[trigger] variants[j]).name != name,
    decreases variants.len() - from,
{
    if from < variants.len() {
        if variants[from as int].name == name {
            assert(variants[from as int] == variants[from as int]);
        } else {
            variant_is_found(variants, name, from + 1);
        }
    }
}

/// The names that an arm binds get the types of the variant's fields, in their order. A
/// number of names other than that of the fields is reported.
pub proof fn law_arms_bind_the_fields(
    s: State,
    def: EnumShapeV,
    name: Ident,
    bindings: Vec<Ident>,
    cover: Cover,
    i: int,
)
    requires
        0 <= i < def.variants.len(),
        def.variants[i].name == name.name@,
        forall|j: int| 0 <= j < i ==> (#[trigger] def.variants[j]).name != name.name@,
    ensures
        ({
            let fields = def.variants[i].fields;
            let s1 = if bindings@.len() == fields.len() {
                s
            } else {
                with_report(
                    s,
                    ErrorCode::VariantBindingCountMismatch,
                    name.span,
                    seq![name.name@, decimal(fields.len()), decimal(bindings@.len())],
                )
            };
            &&& arm_pattern(s, def, Pattern::Variant(name, bindings), cover, true).0 == bind_fields(
                s1,
                bindings@,
                fields,
                0,
            )
            &&& arm_pattern(s, def, Pattern::Variant(name, bindings), cover, false).0 == s1
        }),
        forall|t: State, j: nat|
            #![trigger bind_fields(t, bindings@, def.variants[i].fields, j)]
            bind_fields(t, bindings@, def.variants[i].fields, j) == if j >= bindings@.len() || j
                >= def.variants[i].fields.len() {
                t
            } else {
                bind_fields(
                    with_variable(t, bindings@[j as int].span, def.variants[i].fields[j as int].ty),
                    bindings@,
                    def.variants[i].fields,
                    j + 1,
                )
            },
{
    reveal(arm_pattern);
    variant_is_found(def.variants, name.name@, 0);
    let v = variant_named(def.variants, name.name@, 0)->0;
    let k = choose|k: int|
        0 <= k < def.variants.len() && #[trigger] def.variants[k] == v && forall|j: int|
            0 <= j < k ==> (#[trigger] def.variants[j]).name != name.name@;
    assert(def.variants[i].name == name.name@);
    assert(k == i);
}

} // verus!
