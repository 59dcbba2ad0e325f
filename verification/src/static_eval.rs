//! What can be said of reflected types before the program runs.
use vstd::prelude::*;

use crate::ast::{
    BinOp, CallArg, Expr, Ident, IfStmt, MatchStmt, Param, Pattern, Stmt, TypeExpr, UnaryOp,
    VarDecl,
};
use crate::facts::{
    no_facts, value_variant, FactScope, FactScopeV, MaybeTag, ParamFacts, ParamMaybeTag,
    ParamMaybeTagV, ParamTag, ParamTagV, ReflectionParamFacts, ReflectionValue,
    StaticReflectionEnumValue,
};
use crate::reflect_types::{
    kind_tag, kind_tag_of, primitive_by_name, primitive_named, primitive_tag, primitive_tag_of,
};
use crate::reflection_use::{is_named, kind_literal, primitive_literal};
use crate::resolution::{definition_at, full_name, DefId, Names, ResolveResult};
use crate::span::Span;
use crate::state::{forget_facts, note_info, note_kind, note_primitive, State, TypeChecker};
use crate::steady::{has_maybe, keeps, known};
use crate::table::{look, views, Dup, Table};
use crate::text::{dup_text, maybe_text, same_text, text};
use crate::type_rules::compatible;
use crate::types::{sound, ty, TypeId, TypeInterner};
use crate::written_types::resolve_type;

verus! {

broadcast use crate::steady::group_steady;

// ---------------------------------------------------------------------------
// Kinds of written types
// ---------------------------------------------------------------------------

pub open spec fn alias_kind(s: State, name: Seq<char>) -> Option<Seq<char>> {
    if s.aliases.contains_key(name) {
        Some(
            if s.aliases[name].constraint is Some {
                "refinement_type"@
            } else {
                "alias_type"@
            },
        )
    } else {
        None
    }
}

/// The kind of a name that stands for `id`.
pub open spec fn named_kind(s: State, name: Seq<char>, span: Span, id: TypeId) -> Seq<char> {
    let full = full_name(s.names, name, span);
    if s.kind_tags.contains_key(name) {
        s.kind_tags[name]
    } else if alias_kind(s, full) is Some {
        alias_kind(s, full)->0
    } else if alias_kind(s, name) is Some {
        alias_kind(s, name)->0
    } else if primitive_named(full) is Some || primitive_named(name) is Some {
        "primitive_type"@
    } else {
        kind_tag(ty(s.types, id))
    }
}

/// The primitive tag of a name that stands for `id`.
pub open spec fn named_primitive(s: State, name: Seq<char>, span: Span, id: TypeId) -> Option<Seq<char>> {
    let full = full_name(s.names, name, span);
    if named_kind(s, name, span, id) != "primitive_type"@ {
        None
    } else if primitive_named(full) is Some {
        tag_named(full)
    } else if primitive_named(name) is Some {
        tag_named(name)
    } else {
        primitive_tag(ty(s.types, id))
    }
}

/// The kind of a written type that stands for `id`. An alias counts as one,
/// though its type is that of its base.
#[verifier::opaque]
pub open spec fn written_kind(s: State, t: TypeExpr, id: TypeId) -> Seq<char>
    decreases t,
{
    match t {
        TypeExpr::View(inner, _) => written_kind(s, *inner, id),
        TypeExpr::StateQualified(_, _, _) => kind_tag(ty(s.types, id)),
        TypeExpr::Named(ident) => named_kind(s, ident.name@, ident.span, id),
        TypeExpr::Generic(ident, _, _) => {
            let name = full_name(s.names, ident.name@, ident.span);
            if name == "list"@ {
                "list_type"@
            } else if name == "map"@ {
                "map_type"@
            } else if name == "set"@ {
                "set_type"@
            } else if name == "optional"@ {
                "optional_type"@
            } else if name == "result"@ {
                "result_type"@
            } else if name == "secret"@ {
                "secret_type"@
            } else if s.generic_struct_templates.contains_key(name) {
                "struct_type"@
            } else {
                kind_tag(ty(s.types, id))
            }
        },
        TypeExpr::Function(_, _, _) => "function_type"@,
    }
}

pub open spec fn tag_named(name: Seq<char>) -> Option<Seq<char>> {
    match primitive_named(name) {
        Some(t) => primitive_tag(t),
        None => None,
    }
}

/// The primitive tag of a written type that stands for `id`.
pub open spec fn written_primitive(s: State, t: TypeExpr, id: TypeId) -> Option<Seq<char>>
    decreases t,
{
    if written_kind(s, t, id) != "primitive_type"@ {
        None
    } else {
        match t {
            TypeExpr::Named(ident) => named_primitive(s, ident.name@, ident.span, id),
            TypeExpr::View(inner, _) => written_primitive(s, *inner, id),
            TypeExpr::StateQualified(_, _, _) => None,
            _ => primitive_tag(ty(s.types, id)),
        }
    }
}

/// The type that the only type argument of a reflection stands for.
pub open spec fn reflected_id(s: State, type_args: Seq<TypeExpr>) -> (State, Option<TypeId>) {
    if type_args.len() != 1 {
        (s, None)
    } else if type_args[0] is Named && s.subst.contains_key(type_args[0]->Named_0.name@) {
        (s, Some(s.subst[type_args[0]->Named_0.name@]))
    } else {
        let (s1, id) = resolve_type(s, type_args[0]);
        (
            s1,
            if id == TypeInterner::ERROR {
                None
            } else {
                Some(id)
            },
        )
    }
}

pub open spec fn reflected_kind(s: State, type_args: Seq<TypeExpr>) -> (State, Option<Seq<char>>) {
    let (s1, found) = reflected_id(s, type_args);
    match found {
        Some(id) => (s1, Some(written_kind(s1, type_args[0], id))),
        None => (s1, None),
    }
}

pub open spec fn reflected_primitive(s: State, type_args: Seq<TypeExpr>) -> (State, Option<Seq<char>>) {
    let (s1, found) = reflected_id(s, type_args);
    match found {
        Some(id) => (s1, written_primitive(s1, type_args[0], id)),
        None => (s1, None),
    }
}

// ---------------------------------------------------------------------------
// Known local variables
// ---------------------------------------------------------------------------

/// The kind that a `TypeInfo` variable is known to describe, by the innermost of the first `n` blocks that knows it.
pub open spec fn known_info_kind(facts: Seq<FactScopeV>, id: DefId, n: nat) -> Option<Seq<char>>
    decreases n,
{
    if n == 0 || n > facts.len() {
        None
    } else if facts[n - 1].info_kinds.contains_key(id) {
        Some(facts[n - 1].info_kinds[id])
    } else {
        known_info_kind(facts, id, (n - 1) as nat)
    }
}

pub open spec fn ident_info_kind(s: State, ident: Ident) -> Option<Seq<char>> {
    match definition_at(s.names, ident.span) {
        Some(id) => known_info_kind(s.facts, id, s.facts.len()),
        None => None,
    }
}

/// The primitive tag that a `TypeInfo` variable is known to hold, by the innermost of the first `n` blocks that knows it.
pub open spec fn known_info_primitive(facts: Seq<FactScopeV>, id: DefId, n: nat) -> Option<Option<Seq<char>>>
    decreases n,
{
    if n == 0 || n > facts.len() {
        None
    } else if facts[n - 1].info_primitives.contains_key(id) {
        Some(facts[n - 1].info_primitives[id])
    } else {
        known_info_primitive(facts, id, (n - 1) as nat)
    }
}

pub open spec fn ident_info_primitive(s: State, ident: Ident) -> Option<Option<Seq<char>>> {
    match definition_at(s.names, ident.span) {
        Some(id) => known_info_primitive(s.facts, id, s.facts.len()),
        None => None,
    }
}

/// The value that a `TypeKind` variable is known to hold, by the innermost of the first `n` blocks that knows it.
pub open spec fn known_kind_value(facts: Seq<FactScopeV>, id: DefId, n: nat) -> Option<Seq<char>>
    decreases n,
{
    if n == 0 || n > facts.len() {
        None
    } else if facts[n - 1].kind_values.contains_key(id) {
        Some(facts[n - 1].kind_values[id])
    } else {
        known_kind_value(facts, id, (n - 1) as nat)
    }
}

pub open spec fn ident_kind_value(s: State, ident: Ident) -> Option<Seq<char>> {
    match definition_at(s.names, ident.span) {
        Some(id) => known_kind_value(s.facts, id, s.facts.len()),
        None => None,
    }
}

/// The value that a `TypePrimitive` variable is known to hold, by the innermost of the first `n` blocks that knows it.
pub open spec fn known_primitive_value(facts: Seq<FactScopeV>, id: DefId, n: nat) -> Option<Seq<char>>
    decreases n,
{
    if n == 0 || n > facts.len() {
        None
    } else if facts[n - 1].primitive_values.contains_key(id) {
        Some(facts[n - 1].primitive_values[id])
    } else {
        known_primitive_value(facts, id, (n - 1) as nat)
    }
}

pub open spec fn ident_primitive_value(s: State, ident: Ident) -> Option<Seq<char>> {
    match definition_at(s.names, ident.span) {
        Some(id) => known_primitive_value(s.facts, id, s.facts.len()),
        None => None,
    }
}

// ---------------------------------------------------------------------------
// Evaluation
// ---------------------------------------------------------------------------

/// What is known of a `TypeInfo`.
pub struct InfoFacts {
    pub kind: String,
    pub primitive: MaybeTag,
}

pub struct InfoFactsV {
    pub kind: Seq<char>,
    pub primitive: Option<Seq<char>>,
}

impl View for InfoFacts {
    type V = InfoFactsV;

    open spec fn view(&self) -> InfoFactsV {
        InfoFactsV { kind: self.kind@, primitive: self.primitive@ }
    }
}

pub open spec fn maybe_facts(o: Option<InfoFacts>) -> Option<InfoFactsV> {
    match o {
        Some(f) => Some(f@),
        None => None,
    }
}

pub open spec fn maybe_tag(o: Option<MaybeTag>) -> Option<Option<Seq<char>>> {
    match o {
        Some(t) => Some(t@),
        None => None,
    }
}

pub open spec fn maybe_value(o: Option<StaticReflectionEnumValue>) -> Option<ReflectionValue> {
    match o {
        Some(v) => Some(v@),
        None => None,
    }
}

pub open spec fn eval_info(s: State, e: Expr) -> (State, Option<InfoFactsV>)
    decreases e,
{
    match e {
        Expr::Paren(x, _) => eval_info(s, *x),
        Expr::View(x, _) => eval_info(s, *x),
        Expr::Ident(ident) => match ident_info_kind(s, ident) {
            Some(kind) => (
                s,
                Some(
                    InfoFactsV {
                        kind,
                        primitive: match ident_info_primitive(s, ident) {
                            Some(p) => p,
                            None => None,
                        },
                    },
                ),
            ),
            None => (s, None),
        },
        Expr::GenericCall(callee, type_args, args, _) => if args@.len() == 0 && is_named(
            s.names,
            *callee,
            "type.info"@,
        ) {
            let (s1, kind) = reflected_kind(s, type_args@);
            match kind {
                Some(k) => {
                    let (s2, primitive) = reflected_primitive(s1, type_args@);
                    (s2, Some(InfoFactsV { kind: k, primitive }))
                },
                None => (s1, None),
            }
        } else {
            (s, None)
        },
        _ => (s, None),
    }
}

pub open spec fn eval_kind(s: State, e: Expr) -> (State, Option<Seq<char>>)
    decreases e,
{
    match e {
        Expr::Paren(x, _) => eval_kind(s, *x),
        Expr::Ident(ident) => (s, ident_kind_value(s, ident)),
        Expr::GenericCall(callee, type_args, args, _) => if args@.len() == 0 && is_named(
            s.names,
            *callee,
            "type.kind_tag"@,
        ) {
            reflected_kind(s, type_args@)
        } else {
            (s, kind_literal(s.names, e))
        },
        Expr::FieldAccess(base, field, _) => if field.name@ == "kind_tag"@ {
            let (s1, facts) = eval_info(s, *base);
            (
                s1,
                match facts {
                    Some(f) => Some(f.kind),
                    None => None,
                },
            )
        } else {
            (s, kind_literal(s.names, e))
        },
        _ => (s, kind_literal(s.names, e)),
    }
}

pub open spec fn eval_optional_primitive(s: State, e: Expr) -> (State, Option<Option<Seq<char>>>)
    decreases e,
{
    match e {
        Expr::Paren(x, _) => eval_optional_primitive(s, *x),
        Expr::GenericCall(callee, type_args, args, _) => if args@.len() == 0 && is_named(
            s.names,
            *callee,
            "type.primitive_tag"@,
        ) {
            let (s1, tag) = reflected_primitive(s, type_args@);
            (s1, Some(tag))
        } else {
            (s, None)
        },
        Expr::FieldAccess(base, field, _) => if field.name@ == "primitive_tag"@ {
            let (s1, facts) = eval_info(s, *base);
            (
                s1,
                match facts {
                    Some(f) => Some(f.primitive),
                    None => None,
                },
            )
        } else {
            (s, None)
        },
        _ => (s, None),
    }
}

pub open spec fn eval_primitive(s: State, e: Expr) -> (State, Option<Seq<char>>)
    decreases e,
{
    match e {
        Expr::Paren(x, _) => eval_primitive(s, *x),
        Expr::Ident(ident) => (s, ident_primitive_value(s, ident)),
        Expr::Handle(target, _, body, _) => {
            let (s1, found) = eval_optional_primitive(s, *target);
            match found {
                None => (s1, None),
                Some(Some(tag)) => (s1, Some(tag)),
                Some(None) => {
                    let n = body.stmts@.len();
                    if n == 0 {
                        (s1, None)
                    } else {
                        match body.stmts@[n - 1] {
                            Stmt::Expr(last) => match last.expr {
                                Expr::Default(x, _) => eval_primitive(s1, *x),
                                _ => (s1, None),
                            },
                            _ => (s1, None),
                        }
                    }
                },
            }
        },
        _ => (s, primitive_literal(s.names, e)),
    }
}

pub open spec fn eval_value(s: State, e: Expr) -> (State, Option<ReflectionValue>) {
    let (s1, kind) = eval_kind(s, e);
    match kind {
        Some(k) => (s1, Some(ReflectionValue::TypeKind(k))),
        None => {
            let (s2, primitive) = eval_primitive(s1, e);
            (
                s2,
                match primitive {
                    Some(p) => Some(ReflectionValue::TypePrimitive(p)),
                    None => None,
                },
            )
        },
    }
}

/// The truth of a condition on reflected types, where it can be told.
pub open spec fn eval_condition(s: State, e: Expr) -> (State, Option<bool>)
    decreases e,
{
    match e {
        Expr::BoolLiteral(v, _) => (s, Some(v)),
        Expr::Paren(x, _) => eval_condition(s, *x),
        Expr::Unary(op, x, _) => if op == UnaryOp::Not {
            let (s1, v) = eval_condition(s, *x);
            (
                s1,
                match v {
                    Some(b) => Some(!b),
                    None => None,
                },
            )
        } else {
            (s, None)
        },
        Expr::Binary(l, op, r, _) => match op {
            BinOp::And => {
                let (s1, v) = eval_condition(s, *l);
                match v {
                    None => (s1, None),
                    Some(false) => (s1, Some(false)),
                    Some(true) => eval_condition(s1, *r),
                }
            },
            BinOp::Or => {
                let (s1, v) = eval_condition(s, *l);
                match v {
                    None => (s1, None),
                    Some(true) => (s1, Some(true)),
                    Some(false) => eval_condition(s1, *r),
                }
            },
            BinOp::Eq | BinOp::NotEq => {
                let (s1, lv) = eval_value(s, *l);
                match lv {
                    None => (s1, None),
                    Some(a) => {
                        let (s2, rv) = eval_value(s1, *r);
                        match rv {
                            None => (s2, None),
                            Some(b) => (s2, Some((a == b) == (op == BinOp::Eq))),
                        }
                    },
                }
            },
            _ => (s, None),
        },
        _ => (s, None),
    }
}

/// The branch of an `if` that its conditions select from the `i`th `else if`
/// on, counted from the `then` branch.
pub open spec fn select_else_if(s: State, i: IfStmt, k: nat) -> (State, Option<nat>)
    decreases i.else_ifs@.len() - k,
{
    if k >= i.else_ifs@.len() {
        (s, Some(i.else_ifs@.len() + 1))
    } else {
        let (s1, v) = eval_condition(s, i.else_ifs@[k as int].0);
        match v {
            None => (s1, None),
            Some(true) => (s1, Some(k + 1)),
            Some(false) => select_else_if(s1, i, k + 1),
        }
    }
}

#[verifier::opaque]
pub open spec fn select_branch(s: State, i: IfStmt) -> (State, Option<nat>) {
    let (s1, v) = eval_condition(s, i.condition);
    match v {
        None => (s1, None),
        Some(true) => (s1, Some(0)),
        Some(false) => select_else_if(s1, i, 0),
    }
}

pub open spec fn arm_for(m: MatchStmt, variant: Seq<char>, k: nat) -> Option<nat>
    decreases m.arms@.len() - k,
{
    if k >= m.arms@.len() {
        None
    } else {
        let hit = match m.arms@[k as int].pattern {
            Pattern::Ident(name) => name.name@ == variant,
            Pattern::Variant(name, _) => name.name@ == variant,
            Pattern::Other(_) => true,
        };
        if hit {
            Some(k)
        } else {
            arm_for(m, variant, k + 1)
        }
    }
}

/// The arm of a `match` that its value selects, where the value can be told.
#[verifier::opaque]
pub open spec fn select_arm(s: State, m: MatchStmt) -> (State, Option<nat>) {
    let (s1, v) = eval_value(s, m.expr);
    match v {
        Some(value) => (s1, arm_for(m, value_variant(value), 0)),
        None => (s1, None),
    }
}

// ---------------------------------------------------------------------------
// Noting what is known
// ---------------------------------------------------------------------------

pub open spec fn is_declared_as(s: State, id: TypeId, name: Seq<char>) -> bool {
    look(s.named_types, name) == Some(id)
}

/// What a new variable is known to hold.
#[verifier::opaque]
pub open spec fn record_fact(s: State, d: VarDecl, declared: TypeId, init: TypeId) -> State {
    if !s.context.specialize || d.mutable {
        s
    } else {
        match definition_at(s.names, d.name.span) {
            None => s,
            Some(id) => if !compatible(s.types, s.impls, declared, init) {
                forget_facts(s, id)
            } else if is_declared_as(s, declared, "TypeInfo"@) {
                let (s1, facts) = eval_info(s, d.value);
                match facts {
                    Some(f) => note_info(s1, id, f.kind, f.primitive),
                    None => s1,
                }
            } else {
                let s2 = if is_declared_as(s, declared, "TypeKind"@) {
                    let (s1, kind) = eval_kind(s, d.value);
                    match kind {
                        Some(k) => note_kind(s1, id, k),
                        None => s1,
                    }
                } else {
                    s
                };
                if is_declared_as(s2, declared, "TypePrimitive"@) {
                    let (s3, tag) = eval_primitive(s2, d.value);
                    match tag {
                        Some(t) => note_primitive(s3, id, t),
                        None => s3,
                    }
                } else {
                    s2
                }
            },
        }
    }
}

/// What the arguments of a call, from the `i`th on, are known to be.
pub open spec fn argument_facts(
    s: State,
    params: Seq<Param>,
    tys: Seq<TypeId>,
    args: Seq<CallArg>,
    i: nat,
    facts: ParamFacts,
) -> (State, ParamFacts)
    decreases params.len() - i,
{
    if i >= params.len() || i >= tys.len() || i >= args.len() {
        (s, facts)
    } else {
        let (s1, next) = argument_fact(
            s,
            params[i as int],
            tys[i as int],
            args[i as int].value,
            i as usize,
            facts,
        );
        argument_facts(s1, params, tys, args, i + 1, next)
    }
}

#[verifier::opaque]
pub open spec fn argument_fact(
    s: State,
    param: Param,
    id: TypeId,
    value: Expr,
    index: usize,
    facts: ParamFacts,
) -> (State, ParamFacts) {
    if param.mutable {
        (s, facts)
    } else if is_declared_as(s, id, "TypeInfo"@) {
        let (s1, found) = eval_info(s, value);
        match found {
            Some(f) => (
                s1,
                ParamFacts {
                    type_info_kinds: facts.type_info_kinds.push(ParamTagV { index, tag: f.kind }),
                    type_info_primitives: facts.type_info_primitives.push(
                        ParamMaybeTagV { index, tag: f.primitive },
                    ),
                    ..facts
                },
            ),
            None => (s1, facts),
        }
    } else {
        let (s1, facts1) = if is_declared_as(s, id, "TypeKind"@) {
            let (s0, found) = eval_kind(s, value);
            match found {
                Some(tag) => (
                    s0,
                    ParamFacts {
                        type_kind_values: facts.type_kind_values.push(ParamTagV { index, tag }),
                        ..facts
                    },
                ),
                None => (s0, facts),
            }
        } else {
            (s, facts)
        };
        if is_declared_as(s1, id, "TypePrimitive"@) {
            let (s2, found) = eval_primitive(s1, value);
            match found {
                Some(tag) => (
                    s2,
                    ParamFacts {
                        type_primitive_values: facts1.type_primitive_values.push(
                            ParamTagV { index, tag },
                        ),
                        ..facts1
                    },
                ),
                None => (s2, facts1),
            }
        } else {
            (s1, facts1)
        }
    }
}

/// The facts on parameters from the `i`th fact on, under the parameters' definitions.
pub open spec fn scope_tags(
    names: Names,
    params: Seq<Param>,
    tags: Seq<ParamTagV>,
    i: nat,
    m: Map<DefId, Seq<char>>,
) -> Map<DefId, Seq<char>>
    decreases tags.len() - i,
{
    if i >= tags.len() {
        m
    } else {
        let next = match param_definition(names, params, tags[i as int].index) {
            Some(id) => m.insert(id, tags[i as int].tag),
            None => m,
        };
        scope_tags(names, params, tags, i + 1, next)
    }
}

pub open spec fn scope_maybe_tags(
    names: Names,
    params: Seq<Param>,
    tags: Seq<ParamMaybeTagV>,
    i: nat,
    m: Map<DefId, Option<Seq<char>>>,
) -> Map<DefId, Option<Seq<char>>>
    decreases tags.len() - i,
{
    if i >= tags.len() {
        m
    } else {
        let next = match param_definition(names, params, tags[i as int].index) {
            Some(id) => m.insert(id, tags[i as int].tag),
            None => m,
        };
        scope_maybe_tags(names, params, tags, i + 1, next)
    }
}

pub open spec fn param_definition(names: Names, params: Seq<Param>, index: usize) -> Option<DefId> {
    if index < params.len() {
        definition_at(names, params[index as int].name.span)
    } else {
        None
    }
}

/// A block in which the parameters are known as the facts say.
pub open spec fn param_scope(names: Names, params: Seq<Param>, facts: ParamFacts) -> FactScopeV {
    FactScopeV {
        info_kinds: scope_tags(names, params, facts.type_info_kinds, 0, Map::empty()),
        info_primitives: scope_maybe_tags(
            names,
            params,
            facts.type_info_primitives,
            0,
            Map::empty(),
        ),
        kind_values: scope_tags(names, params, facts.type_kind_values, 0, Map::empty()),
        primitive_values: scope_tags(names, params, facts.type_primitive_values, 0, Map::empty()),
    }
}

impl ResolveResult {
    fn param_definition(&self, params: &Vec<Param>, index: usize) -> (r: Option<DefId>)
        ensures
            r == param_definition(self@, params@, index),
    {
        if index < params.len() {
            self.declaration_def_id(params[index].name.span)
        } else {
            None
        }
    }

    fn scope_tags(&self, params: &Vec<Param>, tags: &Vec<ParamTag>) -> (r: Table<DefId, String>)
        ensures
            r@ == scope_tags(self@, params@, views(tags@), 0, Map::empty()),
    {
        let mut m: Table<DefId, String> = Table::new();
        let mut i: usize = 0;
        while i < tags.len()
            invariant
                i <= tags@.len(),
                scope_tags(self@, params@, views(tags@), i as nat, m@) == scope_tags(
                    self@,
                    params@,
                    views(tags@),
                    0,
                    Map::empty(),
                ),
            decreases tags@.len() - i,
        {
            assert(views(tags@)[i as int] == tags@[i as int]@);
            if let Some(id) = self.param_definition(params, tags[i].index) {
                m.insert(id, tags[i].tag.clone());
            }
            i = i + 1;
        }
        m
    }

    fn scope_maybe_tags(&self, params: &Vec<Param>, tags: &Vec<ParamMaybeTag>) -> (r: Table<
        DefId,
        MaybeTag,
    >)
        ensures
            r@ == scope_maybe_tags(self@, params@, views(tags@), 0, Map::empty()),
    {
        let mut m: Table<DefId, MaybeTag> = Table::new();
        let mut i: usize = 0;
        while i < tags.len()
            invariant
                i <= tags@.len(),
                scope_maybe_tags(self@, params@, views(tags@), i as nat, m@) == scope_maybe_tags(
                    self@,
                    params@,
                    views(tags@),
                    0,
                    Map::empty(),
                ),
            decreases tags@.len() - i,
        {
            assert(views(tags@)[i as int] == tags@[i as int]@);
            if let Some(id) = self.param_definition(params, tags[i].index) {
                m.insert(id, MaybeTag { tag: dup_text(&tags[i].tag) });
            }
            i = i + 1;
        }
        m
    }

    /// A block in which the parameters are known as the facts say.
    pub fn param_scope(&self, params: &Vec<Param>, facts: &ReflectionParamFacts) -> (r: FactScope)
        ensures
            r@ == param_scope(self@, params@, facts@),
    {
        FactScope {
            info_kinds: self.scope_tags(params, &facts.type_info_kinds),
            info_primitives: self.scope_maybe_tags(params, &facts.type_info_primitives),
            kind_values: self.scope_tags(params, &facts.type_kind_values),
            primitive_values: self.scope_tags(params, &facts.type_primitive_values),
        }
    }
}

fn tag_by_name(name: &str) -> (r: Option<String>)
    ensures
        maybe_text(r) == tag_named(name@),
{
    match primitive_by_name(name) {
        Some(t) => primitive_tag_of(t),
        None => None,
    }
}

impl<'a> TypeChecker<'a> {
    fn alias_kind(&self, name: &String) -> (r: Option<String>)
        ensures
            maybe_text(r) == alias_kind(self@, name@),
    {
        match self.get_aliases(name) {
            Some(alias) => if alias.constraint.is_some() {
                Some(text("refinement_type"))
            } else {
                Some(text("alias_type"))
            },
            None => None,
        }
    }

    fn named_kind(&self, name: &String, span: Span, id: TypeId) -> (r: String)
        ensures
            r@ == named_kind(self@, name@, span, id),
    {
        if let Some(tag) = self.get_kind_tags(name) {
            return tag.clone();
        }
        let full = self.names().resolved_or_expanded_name(name, span);
        if let Some(kind) = self.alias_kind(&full) {
            return kind;
        }
        if let Some(kind) = self.alias_kind(name) {
            return kind;
        }
        if primitive_by_name(full.as_str()).is_some() || primitive_by_name(name.as_str()).is_some() {
            return text("primitive_type");
        }
        text(kind_tag_of(self.interner().resolve(id)))
    }

    pub(crate) fn named_primitive(&self, name: &String, span: Span, id: TypeId) -> (r: Option<String>)
        ensures
            maybe_text(r) == named_primitive(self@, name@, span, id),
    {
        if !same_text(self.named_kind(name, span, id).as_str(), "primitive_type") {
            return None;
        }
        let full = self.names().resolved_or_expanded_name(name, span);
        if primitive_by_name(full.as_str()).is_some() {
            tag_by_name(full.as_str())
        } else if primitive_by_name(name.as_str()).is_some() {
            tag_by_name(name.as_str())
        } else {
            primitive_tag_of(self.interner().resolve(id))
        }
    }

    pub(crate) fn reflection_kind_tag_for_type_expr(&self, t: &TypeExpr, id: TypeId) -> (r: String)
        ensures
            r@ == written_kind(self@, *t, id),
        decreases t,
    {
        proof {
            reveal(written_kind);
        }
        match t {
            TypeExpr::View(inner, _) => self.reflection_kind_tag_for_type_expr(inner, id),
            TypeExpr::StateQualified(_, _, _) => text(kind_tag_of(self.interner().resolve(id))),
            TypeExpr::Named(ident) => self.named_kind(&ident.name, ident.span, id),
            TypeExpr::Generic(ident, _, _) => {
                let name = self.names().resolved_or_expanded_name(&ident.name, ident.span);
                let n = name.as_str();
                if same_text(n, "list") {
                    text("list_type")
                } else if same_text(n, "map") {
                    text("map_type")
                } else if same_text(n, "set") {
                    text("set_type")
                } else if same_text(n, "optional") {
                    text("optional_type")
                } else if same_text(n, "result") {
                    text("result_type")
                } else if same_text(n, "secret") {
                    text("secret_type")
                } else if self.get_generic_struct_templates(&name).is_some() {
                    text("struct_type")
                } else {
                    text(kind_tag_of(self.interner().resolve(id)))
                }
            },
            TypeExpr::Function(_, _, _) => text("function_type"),
        }
    }

    pub(crate) fn reflection_primitive_tag_for_type_expr_static(&self, t: &TypeExpr, id: TypeId) -> (r:
        Option<String>)
        ensures
            maybe_text(r) == written_primitive(self@, *t, id),
        decreases t,
    {
        if !same_text(self.reflection_kind_tag_for_type_expr(t, id).as_str(), "primitive_type") {
            return None;
        }
        match t {
            TypeExpr::Named(ident) => self.named_primitive(&ident.name, ident.span, id),
            TypeExpr::View(inner, _) => self.reflection_primitive_tag_for_type_expr_static(
                inner,
                id,
            ),
            TypeExpr::StateQualified(_, _, _) => None,
            _ => primitive_tag_of(self.interner().resolve(id)),
        }
    }

    fn reflection_type_arg_id(&mut self, type_args: &Vec<TypeExpr>) -> (r: Option<TypeId>)
        ensures
            keeps(old(self)@, final(self)@),
            known(old(self)@) ==> known(final(self)@) && has_maybe(final(self)@, r),
            (final(self)@, r) == reflected_id(old(self)@, type_args@),
    {
        if type_args.len() != 1 {
            return None;
        }
        if let TypeExpr::Named(ident) = &type_args[0] {
            if let Some(id) = self.get_subst(&ident.name) {
                return Some(id);
            }
        }
        let id: usize = self.resolve_type_expr(&type_args[0]);
        if id == TypeInterner::ERROR {
            None
        } else {
            Some(id)
        }
    }

    fn reflection_type_arg_kind_tag(&mut self, type_args: &Vec<TypeExpr>) -> (r: Option<String>)
        ensures
            keeps(old(self)@, final(self)@),
            known(old(self)@) ==> known(final(self)@),
            (final(self)@, maybe_text(r)) == reflected_kind(old(self)@, type_args@),
    {
        match self.reflection_type_arg_id(type_args) {
            Some(id) => Some(self.reflection_kind_tag_for_type_expr(&type_args[0], id)),
            None => None,
        }
    }

    fn reflection_type_arg_primitive_tag(&mut self, type_args: &Vec<TypeExpr>) -> (r: Option<String>)
        ensures
            keeps(old(self)@, final(self)@),
            known(old(self)@) ==> known(final(self)@),
            (final(self)@, maybe_text(r)) == reflected_primitive(old(self)@, type_args@),
    {
        match self.reflection_type_arg_id(type_args) {
            Some(id) => self.reflection_primitive_tag_for_type_expr_static(&type_args[0], id),
            None => None,
        }
    }

    fn ident_info_kind(&self, ident: &Ident) -> (r: Option<String>)
        ensures
            maybe_text(r) == ident_info_kind(self@, *ident),
    {
        match self.names().declaration_def_id(ident.span) {
            Some(id) => {
                let facts = self.all_facts();
                let mut n: usize = facts.len();
                while n > 0
                    invariant
                        n <= facts@.len(),
                        views(facts@) == self@.facts,
                        known_info_kind(self@.facts, id, self@.facts.len()) == known_info_kind(
                            self@.facts,
                            id,
                            n as nat,
                        ),
                        definition_at(self@.names, ident.span) == Some(id),
                    decreases n,
                {
                    assert(self@.facts[n - 1] == facts@[n - 1]@);
                    if let Some(tag) = facts[n - 1].info_kinds.get(&id) {
                        return Some(tag.clone());
                    }
                    n = n - 1;
                }
                None
            },
            None => None,
        }
    }

    fn ident_info_primitive(&self, ident: &Ident) -> (r: Option<MaybeTag>)
        ensures
            maybe_tag(r) == ident_info_primitive(self@, *ident),
    {
        match self.names().declaration_def_id(ident.span) {
            Some(id) => {
                let facts = self.all_facts();
                let mut n: usize = facts.len();
                while n > 0
                    invariant
                        n <= facts@.len(),
                        views(facts@) == self@.facts,
                        known_info_primitive(self@.facts, id, self@.facts.len()) == known_info_primitive(
                            self@.facts,
                            id,
                            n as nat,
                        ),
                        definition_at(self@.names, ident.span) == Some(id),
                    decreases n,
                {
                    assert(self@.facts[n - 1] == facts@[n - 1]@);
                    if let Some(tag) = facts[n - 1].info_primitives.get(&id) {
                        return Some(tag.dup());
                    }
                    n = n - 1;
                }
                None
            },
            None => None,
        }
    }

    fn ident_kind_value(&self, ident: &Ident) -> (r: Option<String>)
        ensures
            maybe_text(r) == ident_kind_value(self@, *ident),
    {
        match self.names().declaration_def_id(ident.span) {
            Some(id) => {
                let facts = self.all_facts();
                let mut n: usize = facts.len();
                while n > 0
                    invariant
                        n <= facts@.len(),
                        views(facts@) == self@.facts,
                        known_kind_value(self@.facts, id, self@.facts.len()) == known_kind_value(
                            self@.facts,
                            id,
                            n as nat,
                        ),
                        definition_at(self@.names, ident.span) == Some(id),
                    decreases n,
                {
                    assert(self@.facts[n - 1] == facts@[n - 1]@);
                    if let Some(tag) = facts[n - 1].kind_values.get(&id) {
                        return Some(tag.clone());
                    }
                    n = n - 1;
                }
                None
            },
            None => None,
        }
    }

    fn ident_primitive_value(&self, ident: &Ident) -> (r: Option<String>)
        ensures
            maybe_text(r) == ident_primitive_value(self@, *ident),
    {
        match self.names().declaration_def_id(ident.span) {
            Some(id) => {
                let facts = self.all_facts();
                let mut n: usize = facts.len();
                while n > 0
                    invariant
                        n <= facts@.len(),
                        views(facts@) == self@.facts,
                        known_primitive_value(self@.facts, id, self@.facts.len()) == known_primitive_value(
                            self@.facts,
                            id,
                            n as nat,
                        ),
                        definition_at(self@.names, ident.span) == Some(id),
                    decreases n,
                {
                    assert(self@.facts[n - 1] == facts@[n - 1]@);
                    if let Some(tag) = facts[n - 1].primitive_values.get(&id) {
                        return Some(tag.clone());
                    }
                    n = n - 1;
                }
                None
            },
            None => None,
        }
    }

    pub(crate) fn eval_type_info_facts(&mut self, e: &Expr) -> (r: Option<InfoFacts>)
        ensures
            keeps(old(self)@, final(self)@),
            known(old(self)@) ==> known(final(self)@),
            (final(self)@, maybe_facts(r)) == eval_info(old(self)@, *e),
        decreases e,
    {
        match e {
            Expr::Paren(x, _) => self.eval_type_info_facts(x),
            Expr::View(x, _) => self.eval_type_info_facts(x),
            Expr::Ident(ident) => match self.ident_info_kind(ident) {
                Some(kind) => {
                    let primitive = match self.ident_info_primitive(ident) {
                        Some(tag) => tag,
                        None => MaybeTag { tag: None },
                    };
                    Some(InfoFacts { kind, primitive })
                },
                None => None,
            },
            Expr::GenericCall(callee, type_args, args, _) => {
                if args.len() == 0 && self.names().callee_is(callee, "type.info") {
                    match self.reflection_type_arg_kind_tag(type_args) {
                        Some(kind) => {
                            let tag = self.reflection_type_arg_primitive_tag(type_args);
                            Some(InfoFacts { kind, primitive: MaybeTag { tag } })
                        },
                        None => None,
                    }
                } else {
                    None
                }
            },
            _ => None,
        }
    }

    pub(crate) fn eval_type_kind_value(&mut self, e: &Expr) -> (r: Option<String>)
        ensures
            keeps(old(self)@, final(self)@),
            known(old(self)@) ==> known(final(self)@),
            (final(self)@, maybe_text(r)) == eval_kind(old(self)@, *e),
        decreases e,
    {
        match e {
            Expr::Paren(x, _) => self.eval_type_kind_value(x),
            Expr::Ident(ident) => self.ident_kind_value(ident),
            Expr::GenericCall(callee, type_args, args, _) => {
                if args.len() == 0 && self.names().callee_is(callee, "type.kind_tag") {
                    self.reflection_type_arg_kind_tag(type_args)
                } else {
                    self.names().type_kind_literal_name(e)
                }
            },
            Expr::FieldAccess(base, field, _) => {
                if same_text(field.name.as_str(), "kind_tag") {
                    match self.eval_type_info_facts(base) {
                        Some(facts) => Some(facts.kind),
                        None => None,
                    }
                } else {
                    self.names().type_kind_literal_name(e)
                }
            },
            _ => self.names().type_kind_literal_name(e),
        }
    }

    fn eval_optional_type_primitive_value(&mut self, e: &Expr) -> (r: Option<MaybeTag>)
        ensures
            keeps(old(self)@, final(self)@),
            known(old(self)@) ==> known(final(self)@),
            (final(self)@, maybe_tag(r)) == eval_optional_primitive(old(self)@, *e),
        decreases e,
    {
        match e {
            Expr::Paren(x, _) => self.eval_optional_type_primitive_value(x),
            Expr::GenericCall(callee, type_args, args, _) => {
                if args.len() == 0 && self.names().callee_is(callee, "type.primitive_tag") {
                    let tag = self.reflection_type_arg_primitive_tag(type_args);
                    Some(MaybeTag { tag })
                } else {
                    None
                }
            },
            Expr::FieldAccess(base, field, _) => {
                if same_text(field.name.as_str(), "primitive_tag") {
                    match self.eval_type_info_facts(base) {
                        Some(facts) => Some(facts.primitive),
                        None => None,
                    }
                } else {
                    None
                }
            },
            _ => None,
        }
    }

    pub(crate) fn eval_type_primitive_value(&mut self, e: &Expr) -> (r: Option<String>)
        ensures
            keeps(old(self)@, final(self)@),
            known(old(self)@) ==> known(final(self)@),
            (final(self)@, maybe_text(r)) == eval_primitive(old(self)@, *e),
        decreases e,
    {
        match e {
            Expr::Paren(x, _) => self.eval_type_primitive_value(x),
            Expr::Ident(ident) => self.ident_primitive_value(ident),
            Expr::Handle(target, _, body, _) => {
                match self.eval_optional_type_primitive_value(target) {
                    None => None,
                    Some(found) => match found.tag {
                        Some(tag) => Some(tag),
                        None => {
                            let n: usize = body.stmts.len();
                            if n == 0 {
                                return None;
                            }
                            match &body.stmts[n - 1] {
                                Stmt::Expr(last) => match &last.expr {
                                    Expr::Default(x, _) => self.eval_type_primitive_value(x),
                                    _ => None,
                                },
                                _ => None,
                            }
                        },
                    },
                }
            },
            _ => self.names().type_primitive_literal_name(e),
        }
    }

    fn eval_static_reflection_enum_value(&mut self, e: &Expr) -> (r: Option<
        StaticReflectionEnumValue,
    >)
        ensures
            keeps(old(self)@, final(self)@),
            known(old(self)@) ==> known(final(self)@),
            (final(self)@, maybe_value(r)) == eval_value(old(self)@, *e),
    {
        if let Some(kind) = self.eval_type_kind_value(e) {
            return Some(StaticReflectionEnumValue::TypeKind(kind));
        }
        match self.eval_type_primitive_value(e) {
            Some(tag) => Some(StaticReflectionEnumValue::TypePrimitive(tag)),
            None => None,
        }
    }

    pub(crate) fn eval_static_type_condition(&mut self, e: &Expr) -> (r: Option<bool>)
        ensures
            keeps(old(self)@, final(self)@),
            known(old(self)@) ==> known(final(self)@),
            (final(self)@, r) == eval_condition(old(self)@, *e),
        decreases e,
    {
        match e {
            Expr::BoolLiteral(v, _) => Some(*v),
            Expr::Paren(x, _) => self.eval_static_type_condition(x),
            Expr::Unary(op, x, _) => {
                if *op == UnaryOp::Not {
                    match self.eval_static_type_condition(x) {
                        Some(b) => Some(!b),
                        None => None,
                    }
                } else {
                    None
                }
            },
            Expr::Binary(l, op, r, _) => match *op {
                BinOp::And => match self.eval_static_type_condition(l) {
                    None => None,
                    Some(v) => if v {
                        self.eval_static_type_condition(r)
                    } else {
                        Some(false)
                    },
                },
                BinOp::Or => match self.eval_static_type_condition(l) {
                    None => None,
                    Some(v) => if v {
                        Some(true)
                    } else {
                        self.eval_static_type_condition(r)
                    },
                },
                BinOp::Eq | BinOp::NotEq => match self.eval_static_reflection_enum_value(l) {
                    None => None,
                    Some(a) => match self.eval_static_reflection_enum_value(r) {
                        None => None,
                        Some(b) => {
                            let same = a.same(&b);
                            if *op == BinOp::Eq {
                                Some(same)
                            } else {
                                Some(!same)
                            }
                        },
                    },
                },
                _ => None,
            },
            _ => None,
        }
    }

    pub(crate) fn static_reflection_if_branch(&mut self, i: &IfStmt) -> (r: Option<u128>)
        ensures
            keeps(old(self)@, final(self)@),
            known(old(self)@) ==> known(final(self)@),
            final(self)@ == select_branch(old(self)@, *i).0,
            r is Some <==> select_branch(old(self)@, *i).1 is Some,
            r matches Some(k) ==> select_branch(old(self)@, *i).1 == Some(k as nat),
    {
        proof {
            reveal(select_branch);
        }
        match self.eval_static_type_condition(&i.condition) {
            None => None,
            Some(v) => {
                if v {
                    return Some(0);
                }
                let ghost start = self@;
                let mut k: usize = 0;
                while k < i.else_ifs.len()
                    invariant
                        keeps(old(self)@, self@),
                        known(old(self)@) ==> known(self@),
                        k <= i.else_ifs@.len(),
                        select_branch(old(self)@, *i) == select_else_if(start, *i, 0),
                        select_else_if(self@, *i, k as nat) == select_else_if(start, *i, 0),
                    decreases i.else_ifs@.len() - k,
                {
                    match self.eval_static_type_condition(&i.else_ifs[k].0) {
                        None => {
                            return None;
                        },
                        Some(v) => {
                            if v {
                                return Some(k as u128 + 1);
                            }
                        },
                    }
                    k = k + 1;
                }
                Some(k as u128 + 1)
            },
        }
    }

    pub(crate) fn static_reflection_match_arm(&mut self, m: &MatchStmt) -> (r: Option<usize>)
        ensures
            keeps(old(self)@, final(self)@),
            known(old(self)@) ==> known(final(self)@),
            final(self)@ == select_arm(old(self)@, *m).0,
            r is Some <==> select_arm(old(self)@, *m).1 is Some,
            r matches Some(k) ==> select_arm(old(self)@, *m).1 == Some(k as nat),
    {
        proof {
            reveal(select_arm);
        }
        match self.eval_static_reflection_enum_value(&m.expr) {
            None => None,
            Some(value) => {
                let mut k: usize = 0;
                while k < m.arms.len()
                    invariant
                        keeps(old(self)@, self@),
                        known(old(self)@) ==> known(self@),
                        k <= m.arms@.len(),
                        self@ == select_arm(old(self)@, *m).0,
                        select_arm(old(self)@, *m).1 == arm_for(*m, value_variant(value@), k as nat),
                    decreases m.arms@.len() - k,
                {
                    let variant = value.variant_name();
                    let hit = match &m.arms[k].pattern {
                        Pattern::Ident(name) => name.name == *variant,
                        Pattern::Variant(name, _) => name.name == *variant,
                        Pattern::Other(_) => true,
                    };
                    if hit {
                        return Some(k);
                    }
                    k = k + 1;
                }
                None
            },
        }
    }

    pub(crate) fn type_id_is_named(&self, id: TypeId, name: &str) -> (r: bool)
        ensures
            r == is_declared_as(self@, id, name@),
    {
        let key = text(name);
        match self.get_named_types(&key) {
            Some(named) => named == id,
            None => false,
        }
    }

    /// Whether a value of type `got` may stand where `expected` is asked for.
    pub fn types_compatible(&self, expected: TypeId, got: TypeId) -> (r: bool)
        ensures
            r == compatible(self@.types, self@.impls, expected, got),
            sound(self@.types),
    {
        self.interner().types_compatible(self.all_impls(), expected, got)
    }

    pub(crate) fn record_reflection_local_fact(&mut self, d: &VarDecl, declared: TypeId, init: TypeId)
        ensures
            keeps(old(self)@, final(self)@),
            known(old(self)@) ==> known(final(self)@),
            final(self)@ == record_fact(old(self)@, *d, declared, init),
    {
        proof {
            reveal(record_fact);
        }
        if !self.get_context().specialize || d.mutable {
            return;
        }
        match self.names().declaration_def_id(d.name.span) {
            None => {},
            Some(id) => {
                if !self.types_compatible(declared, init) {
                    self.clear_reflection_local_fact(id);
                    return;
                }
                if self.type_id_is_named(declared, "TypeInfo") {
                    if let Some(facts) = self.eval_type_info_facts(&d.value) {
                        self.note_info(id, facts.kind, facts.primitive);
                    }
                    return;
                }
                if self.type_id_is_named(declared, "TypeKind") {
                    if let Some(kind) = self.eval_type_kind_value(&d.value) {
                        self.note_kind(id, kind);
                    }
                }
                if self.type_id_is_named(declared, "TypePrimitive") {
                    if let Some(tag) = self.eval_type_primitive_value(&d.value) {
                        self.note_primitive(id, tag);
                    }
                }
            },
        }
    }

    fn add_argument_fact(
        &mut self,
        param: &Param,
        id: TypeId,
        value: &Expr,
        index: usize,
        facts: &mut ReflectionParamFacts,
    )
        ensures
            keeps(old(self)@, final(self)@),
            known(old(self)@) ==> known(final(self)@),
            (final(self)@, final(facts)@) == argument_fact(
                old(self)@,
                *param,
                id,
                *value,
                index,
                old(facts)@,
            ),
    {
        proof {
            reveal(argument_fact);
        }
        if param.mutable {
            return;
        }
        if self.type_id_is_named(id, "TypeInfo") {
            if let Some(found) = self.eval_type_info_facts(value) {
                let ghost tag = found.kind@;
                let ghost primitive = found.primitive@;
                facts.type_info_kinds.push(ParamTag { index, tag: found.kind });
                facts.type_info_primitives.push(
                    ParamMaybeTag { index, tag: found.primitive.tag },
                );
                assert(views(facts.type_info_kinds@) =~= old(facts)@.type_info_kinds.push(
                    ParamTagV { index, tag },
                ));
                assert(views(facts.type_info_primitives@)
                    =~= old(facts)@.type_info_primitives.push(
                    ParamMaybeTagV { index, tag: primitive },
                ));
            }
            return;
        }
        if self.type_id_is_named(id, "TypeKind") {
            if let Some(tag) = self.eval_type_kind_value(value) {
                let ghost shown = tag@;
                facts.type_kind_values.push(ParamTag { index, tag });
                assert(views(facts.type_kind_values@) =~= old(facts)@.type_kind_values.push(
                    ParamTagV { index, tag: shown },
                ));
            }
        }
        let ghost middle = facts@;
        if self.type_id_is_named(id, "TypePrimitive") {
            if let Some(tag) = self.eval_type_primitive_value(value) {
                let ghost shown = tag@;
                facts.type_primitive_values.push(ParamTag { index, tag });
                assert(views(facts.type_primitive_values@) =~= middle.type_primitive_values.push(
                    ParamTagV { index, tag: shown },
                ));
            }
        }
    }

    pub(crate) fn reflection_param_facts_for_call(
        &mut self,
        params: &Vec<Param>,
        tys: &Vec<TypeId>,
        args: &Vec<CallArg>,
    ) -> (r: ReflectionParamFacts)
        ensures
            keeps(old(self)@, final(self)@),
            known(old(self)@) ==> known(final(self)@),
            (final(self)@, r@) == argument_facts(
                old(self)@,
                params@,
                tys@,
                args@,
                0,
                no_facts(),
            ),
    {
        let mut facts = ReflectionParamFacts::new();
        let mut i: usize = 0;
        while i < params.len() && i < tys.len() && i < args.len()
            invariant
                keeps(old(self)@, self@),
                known(old(self)@) ==> known(self@),
                i <= params@.len(),
                i <= tys@.len(),
                i <= args@.len(),
                argument_facts(self@, params@, tys@, args@, i as nat, facts@) == argument_facts(
                    old(self)@,
                    params@,
                    tys@,
                    args@,
                    0,
                    no_facts(),
                ),
            decreases params@.len() - i,
        {
            self.add_argument_fact(&params[i], tys[i], &args[i].value, i, &mut facts);
            i = i + 1;
        }
        facts
    }
}

} // verus!
