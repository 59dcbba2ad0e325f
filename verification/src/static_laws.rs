//! What is known of reflected types before the program runs.
use vstd::prelude::*;

use crate::ast::{
    BinOp, Block, CallArg, Expr, Ident, IfStmt, MatchStmt, Param, Pattern, Stmt, TypeExpr, UnaryOp,
    VarDecl,
};
use crate::facts::{
    value_variant, FactScopeV, ParamFacts, ParamMaybeTagV, ParamTagV, ReflectionBranchContext,
    ReflectionValue,
};
use crate::reflect_types::{kind_tag, primitive_named, primitive_tag};
use crate::reflection_use::{
    all_static, binding_mentions, block_settles, default_of, direct_source, expr_place,
    info_reflection, is_named, kind_literal, kind_reflection, literal_variant, loop_mentions,
    maybe_static_condition, maybe_static_value, mentions, primitive_literal, primitive_reflection,
    reflection_literal, reflects, stmt_settles, stmt_uses, uses, TypeParams,
};
use crate::resolution::{definition_at, full_name, DefId, Names};
use crate::span::Span;
use crate::state::{note_info, note_kind, note_primitive, State};
use crate::static_eval::{
    argument_fact, arm_for, eval_condition, eval_info, eval_kind, eval_optional_primitive,
    eval_primitive, eval_value, is_declared_as, known_info_kind, known_info_primitive,
    known_kind_value, known_primitive_value, param_definition, param_scope, record_fact,
    reflected_kind, reflected_primitive, scope_tags, select_arm, select_branch, select_else_if,
    written_kind, written_primitive, InfoFactsV,
};
use crate::type_rules::compatible;
use crate::types::{ty, TypeId, TypeInterner};
use crate::written_types::resolve_type;

verus! {

// ---------------------------------------------------------------------------
// Kinds of written types
// ---------------------------------------------------------------------------

/// The kind of a written type: an alias counts as one, and with a constraint as a refinement;
/// the builtin generic types are of their own kinds; a view is of the kind of what it views.
pub proof fn law_kind_tags_of_written_types(
    s: State,
    ident: Ident,
    args: Vec<TypeExpr>,
    inner: Box<TypeExpr>,
    span: Span,
    id: TypeId,
)
    ensures
        ({
            let full = full_name(s.names, ident.name@, ident.span);
            let named = written_kind(s, TypeExpr::Named(ident), id);
            let generic = written_kind(s, TypeExpr::Generic(ident, args, span), id);
            &&& s.kind_tags.contains_key(ident.name@) ==> named == s.kind_tags[ident.name@]
            &&& !s.kind_tags.contains_key(ident.name@) && s.aliases.contains_key(full) ==> named
                == if s.aliases[full].constraint is Some {
                "refinement_type"@
            } else {
                "alias_type"@
            }
            &&& !s.kind_tags.contains_key(ident.name@) && !s.aliases.contains_key(full)
                && !s.aliases.contains_key(ident.name@) ==> named == if primitive_named(full) is Some
                || primitive_named(ident.name@) is Some {
                "primitive_type"@
            } else {
                kind_tag(ty(s.types, id))
            }
            &&& full == "list"@ || full == "map"@ || full == "set"@ || full == "optional"@ || full == "result"@
                || full == "secret"@ ==> generic == full + "_type"@
        }),
        written_kind(s, TypeExpr::View(inner, span), id) == written_kind(s, *inner, id),
        written_kind(s, TypeExpr::Function(args, inner, span), id) == "function_type"@,
        written_kind(s, TypeExpr::StateQualified(inner, ident, span), id) == kind_tag(ty(s.types, id)),
        written_primitive(s, TypeExpr::StateQualified(inner, ident, span), id) is None,
{
    reveal(written_kind);
    reveal_with_fuel(written_kind, 2);
    reveal_strlit("_type");
    reveal_strlit("list");
    reveal_strlit("list_type");
    assert("list"@ + "_type"@ =~= "list_type"@);
    reveal_strlit("map");
    reveal_strlit("map_type");
    assert("map"@ + "_type"@ =~= "map_type"@);
    reveal_strlit("set");
    reveal_strlit("set_type");
    assert("set"@ + "_type"@ =~= "set_type"@);
    reveal_strlit("optional");
    reveal_strlit("optional_type");
    assert("optional"@ + "_type"@ =~= "optional_type"@);
    reveal_strlit("result");
    reveal_strlit("result_type");
    assert("result"@ + "_type"@ =~= "result_type"@);
    reveal_strlit("secret");
    reveal_strlit("secret_type");
    assert("secret"@ + "_type"@ =~= "secret_type"@);
    assert("list"@.len() == 4 && "set"@.len() == 3 && "optional"@.len() == 8 && "secret"@.len() == 6);
    assert("map"@.len() == 3 && "result"@.len() == 6);
    assert("set"@[0] == 's' && "map"@[0] == 'm' && "secret"@[0] == 's' && "result"@[0] == 'r');
}

/// Only what is of primitive kind has a primitive tag, and a primitive type has its own.
pub proof fn law_primitive_tags_of_written_types(s: State, t: TypeExpr, id: TypeId)
    ensures
        written_kind(s, t, id) != "primitive_type"@ ==> written_primitive(s, t, id) is None,
        t matches TypeExpr::Named(ident) ==> ({
            let full = full_name(s.names, ident.name@, ident.span);
            written_kind(s, t, id) == "primitive_type"@ && primitive_named(full) is Some
                ==> written_primitive(s, t, id) == primitive_tag(primitive_named(full)->0)
        }),
{
    reveal_with_fuel(written_kind, 2);
    reveal_with_fuel(written_primitive, 2);
}

/// A reflection speaks of its only type argument.
pub proof fn law_reflected_types(s: State, args: Seq<TypeExpr>)
    ensures
        args.len() != 1 ==> reflected_kind(s, args) == (s, None::<Seq<char>>) && reflected_primitive(s, args)
            == (s, None::<Seq<char>>),
        args.len() == 1 ==> ({
            let (s1, id) = match args[0] {
                TypeExpr::Named(ident) => if s.subst.contains_key(ident.name@) {
                    (s, s.subst[ident.name@])
                } else {
                    resolve_type(s, args[0])
                },
                _ => resolve_type(s, args[0]),
            };
            id != TypeInterner::ERROR ==> reflected_kind(s, args) == (s1, Some(written_kind(s1, args[0], id)))
                && reflected_primitive(s, args) == (s1, written_primitive(s1, args[0], id))
        }),
{
}

// ---------------------------------------------------------------------------
// Values
// ---------------------------------------------------------------------------

/// A value in parentheses is that value.
pub proof fn law_parentheses_change_no_value(s: State, x: Box<Expr>, span: Span, names: Names, tp: TypeParams)
    ensures
        eval_info(s, Expr::Paren(x, span)) == eval_info(s, *x),
        eval_info(s, Expr::View(x, span)) == eval_info(s, *x),
        eval_kind(s, Expr::Paren(x, span)) == eval_kind(s, *x),
        eval_primitive(s, Expr::Paren(x, span)) == eval_primitive(s, *x),
        eval_optional_primitive(s, Expr::Paren(x, span)) == eval_optional_primitive(s, *x),
        eval_condition(s, Expr::Paren(x, span)) == eval_condition(s, *x),
        maybe_static_condition(names, Expr::Paren(x, span)) == maybe_static_condition(names, *x),
        maybe_static_value(names, Expr::Paren(x, span)) == maybe_static_value(names, *x),
        direct_source(names, Expr::Paren(x, span), tp) == direct_source(names, *x, tp),
{
    reveal_with_fuel(eval_info, 2);
    reveal_with_fuel(eval_kind, 2);
    reveal_with_fuel(eval_primitive, 2);
    reveal_with_fuel(eval_optional_primitive, 2);
    reveal_with_fuel(eval_condition, 2);
}

/// `type.kind_tag[T]()` and `type.info[T]().kind_tag` are both the kind of `T`.
pub proof fn law_kinds_are_known(
    s: State,
    callee: Box<Expr>,
    types: Vec<TypeExpr>,
    args: Vec<CallArg>,
    field: Ident,
    span: Span,
)
    requires
        args@.len() == 0,
        field.name@ == "kind_tag"@,
    ensures
        is_named(s.names, *callee, "type.kind_tag"@) ==> eval_kind(
            s,
            Expr::GenericCall(callee, types, args, span),
        ) == reflected_kind(s, types@),
        is_named(s.names, *callee, "type.info"@) && reflected_kind(s, types@).1 is Some ==> eval_kind(
            s,
            Expr::FieldAccess(Box::new(Expr::GenericCall(callee, types, args, span)), field, span),
        ).1 == reflected_kind(s, types@).1,
{
    reveal_with_fuel(eval_info, 2);
    reveal_with_fuel(eval_kind, 2);
}

/// `type.primitive_tag[T]()` is the primitive tag of `T`; handled with a default it is the
/// default where there is none.
pub proof fn law_primitives_are_known(
    s: State,
    callee: Box<Expr>,
    types: Vec<TypeExpr>,
    args: Vec<CallArg>,
    name: Option<Ident>,
    body: Block,
    span: Span,
)
    requires
        args@.len() == 0,
        is_named(s.names, *callee, "type.primitive_tag"@),
    ensures
        ({
            let call = Expr::GenericCall(callee, types, args, span);
            let (s1, tag) = reflected_primitive(s, types@);
            let handled = eval_primitive(s, Expr::Handle(Box::new(call), name, body, span));
            &&& eval_optional_primitive(s, call) == (s1, Some(tag))
            &&& tag is Some ==> handled == (s1, tag)
            &&& tag is None && default_of(body) is Some ==> handled == eval_primitive(s1, default_of(body)->0)
            &&& tag is None && default_of(body) is None ==> handled == (s1, None::<Seq<char>>)
        }),
{
    reveal_with_fuel(eval_optional_primitive, 2);
    reveal_with_fuel(eval_primitive, 2);
}

/// A variant that is written out is that value.
pub proof fn law_literals_are_known(s: State, owner: Ident, variant: Ident, span: Span)
    ensures
        ({
            let e = Expr::EnumVariant(owner, variant, span);
            let (after, v) = eval_value(s, e);
            &&& after == s
            &&& owner.name@ == "TypeKind"@ ==> v == Some(ReflectionValue::TypeKind(variant.name@))
            &&& owner.name@ == "TypePrimitive"@ ==> v == Some(ReflectionValue::TypePrimitive(variant.name@))
            &&& owner.name@ != "TypeKind"@ && owner.name@ != "TypePrimitive"@ ==> v is None
        }),
{
    reveal_strlit("TypeKind");
    reveal_strlit("TypePrimitive");
    assert("TypeKind"@.len() == 8 && "TypePrimitive"@.len() == 13);
    reveal_with_fuel(eval_kind, 2);
    reveal_with_fuel(eval_primitive, 2);
    reveal_with_fuel(literal_variant, 2);
}

/// What is known of a variable is what the innermost block knows of it.
pub proof fn law_innermost_facts_hold(facts: Seq<FactScopeV>, id: DefId)
    requires
        facts.len() > 0,
    ensures
        ({
            let n = facts.len();
            let last = facts.last();
            &&& last.info_kinds.contains_key(id) ==> known_info_kind(facts, id, n) == Some(last.info_kinds[id])
            &&& !last.info_kinds.contains_key(id) ==> known_info_kind(facts, id, n) == known_info_kind(
                facts,
                id,
                (n - 1) as nat,
            )
            &&& last.info_primitives.contains_key(id) ==> known_info_primitive(facts, id, n) == Some(
                last.info_primitives[id],
            )
            &&& !last.info_primitives.contains_key(id) ==> known_info_primitive(facts, id, n)
                == known_info_primitive(facts, id, (n - 1) as nat)
            &&& last.kind_values.contains_key(id) ==> known_kind_value(facts, id, n) == Some(last.kind_values[id])
            &&& !last.kind_values.contains_key(id) ==> known_kind_value(facts, id, n) == known_kind_value(
                facts,
                id,
                (n - 1) as nat,
            )
            &&& last.primitive_values.contains_key(id) ==> known_primitive_value(facts, id, n) == Some(
                last.primitive_values[id],
            )
            &&& !last.primitive_values.contains_key(id) ==> known_primitive_value(facts, id, n)
                == known_primitive_value(facts, id, (n - 1) as nat)
        }),
{
}

/// A variable is what is known of it.
pub proof fn law_variables_are_known(s: State, ident: Ident, id: DefId)
    requires
        definition_at(s.names, ident.span) == Some(id),
    ensures
        eval_kind(s, Expr::Ident(ident)) == (s, known_kind_value(s.facts, id, s.facts.len())),
        eval_primitive(s, Expr::Ident(ident)) == (s, known_primitive_value(s.facts, id, s.facts.len())),
        match known_info_kind(s.facts, id, s.facts.len()) {
            Some(kind) => eval_info(s, Expr::Ident(ident)).1 matches Some(f) && f.kind == kind && f.primitive
                == match known_info_primitive(s.facts, id, s.facts.len()) {
                Some(p) => p,
                None => None,
            },
            None => eval_info(s, Expr::Ident(ident)) == (s, None::<InfoFactsV>),
        },
{
}

// ---------------------------------------------------------------------------
// Conditions and branches
// ---------------------------------------------------------------------------

/// The truth of a condition is told by the truth of its parts.
pub proof fn law_conditions_are_decided(s: State, l: Box<Expr>, r: Box<Expr>, b: bool, span: Span)
    ensures
        eval_condition(s, Expr::BoolLiteral(b, span)) == (s, Some(b)),
        ({
            let (s1, x) = eval_condition(s, *l);
            let (s2, y) = eval_condition(s1, *r);
            let not = eval_condition(s, Expr::Unary(UnaryOp::Not, l, span));
            let and = eval_condition(s, Expr::Binary(l, BinOp::And, r, span));
            let or = eval_condition(s, Expr::Binary(l, BinOp::Or, r, span));
            &&& x matches Some(p) ==> not == (s1, Some(!p))
            &&& x is None ==> not == (s1, None::<bool>) && and == (s1, None::<bool>) && or == (s1, None::<bool>)
            &&& x == Some(false) ==> and == (s1, Some(false)) && or == (s2, y)
            &&& x == Some(true) ==> or == (s1, Some(true)) && and == (s2, y)
        }),
        ({
            let (s1, x) = eval_value(s, *l);
            let (s2, y) = eval_value(s1, *r);
            let eq = eval_condition(s, Expr::Binary(l, BinOp::Eq, r, span));
            let ne = eval_condition(s, Expr::Binary(l, BinOp::NotEq, r, span));
            &&& x is Some && y is Some ==> eq == (s2, Some(x == y)) && ne == (s2, Some(x != y))
            &&& x is None ==> eq == (s1, None::<bool>) && ne == (s1, None::<bool>)
            &&& x is Some && y is None ==> eq == (s2, None::<bool>) && ne == (s2, None::<bool>)
        }),
{
    reveal_with_fuel(eval_condition, 2);
}

/// The branch that is taken is the first whose condition is true, and the last one where all
/// are false. A condition that cannot be decided leaves it open.
pub proof fn law_selected_branches(s: State, i: IfStmt, k: nat)
    ensures
        ({
            let (s1, v) = eval_condition(s, i.condition);
            &&& v is None ==> select_branch(s, i) == (s1, None::<nat>)
            &&& v == Some(true) ==> select_branch(s, i) == (s1, Some(0nat))
            &&& v == Some(false) ==> select_branch(s, i) == select_else_if(s1, i, 0)
        }),
        k >= i.else_ifs@.len() ==> select_else_if(s, i, k) == (s, Some(i.else_ifs@.len() + 1)),
        k < i.else_ifs@.len() ==> ({
            let (s1, v) = eval_condition(s, i.else_ifs@[k as int].0);
            &&& v is None ==> select_else_if(s, i, k) == (s1, None::<nat>)
            &&& v == Some(true) ==> select_else_if(s, i, k) == (s1, Some(k + 1))
            &&& v == Some(false) ==> select_else_if(s, i, k) == select_else_if(s1, i, k + 1)
        }),
{
    reveal(select_branch);
    reveal_with_fuel(select_else_if, 2);
}

/// Whether an arm is for a variant: it names it, or takes everything.
pub open spec fn is_for(p: Pattern, variant: Seq<char>) -> bool {
    match p {
        Pattern::Ident(name) => name.name@ == variant,
        Pattern::Variant(name, _) => name.name@ == variant,
        Pattern::Other(_) => true,
    }
}

/// The arm that is taken is the first that is for the value.
pub proof fn law_selected_arms(s: State, m: MatchStmt)
    ensures
        ({
            let (s1, v) = eval_value(s, m.expr);
            let (after, arm) = select_arm(s, m);
            &&& after == s1
            &&& v is None ==> arm is None
            &&& v matches Some(value) ==> match arm {
                Some(k) => k < m.arms@.len() && is_for(m.arms@[k as int].pattern, value_variant(value)) && forall|
                    j: int,
                |
                    0 <= j < k ==> !is_for((#[trigger] m.arms@[j]).pattern, value_variant(value)),
                None => forall|j: int|
                    0 <= j < m.arms@.len() ==> !is_for((#[trigger] m.arms@[j]).pattern, value_variant(value)),
            }
        }),
        forall|name: Seq<char>| #[trigger] value_variant(ReflectionValue::TypeKind(name)) == name,
        forall|name: Seq<char>| #[trigger] value_variant(ReflectionValue::TypePrimitive(name)) == name,
{
    reveal(select_arm);
    let (s1, v) = eval_value(s, m.expr);
    if v is Some {
        first_arm(m, value_variant(v->0), 0);
    }
}

proof fn first_arm(m: MatchStmt, variant: Seq<char>, k: nat)
    ensures
        match arm_for(m, variant, k) {
            Some(i) => k <= i < m.arms@.len() && is_for(m.arms@[i as int].pattern, variant) && forall|j: int|
                k <= j < i ==> !is_for((#[trigger] m.arms@[j]).pattern, variant),
            None => forall|j: int| k <= j < m.arms@.len() ==> !is_for((#[trigger] m.arms@[j]).pattern, variant),
        },
    decreases m.arms@.len() - k,
{
    if k < m.arms@.len() {
        first_arm(m, variant, k + 1);
    }
}

// ---------------------------------------------------------------------------
// Variables and parameters
// ---------------------------------------------------------------------------

/// A new variable that cannot change is known to be what it is given, where that is known and
/// of the type that the variable is declared with.
pub proof fn law_new_variables_are_known(s: State, d: VarDecl, id: DefId, declared: TypeId, init: TypeId)
    requires
        s.context.specialize,
        !d.mutable,
        definition_at(s.names, d.name.span) == Some(id),
        compatible(s.types, s.impls, declared, init),
    ensures
        ({
            let after = record_fact(s, d, declared, init);
            let is_info = s.named_types.contains_key("TypeInfo"@) && s.named_types["TypeInfo"@] == declared;
            let (s1, info) = eval_info(s, d.value);
            let is_kind = s.named_types.contains_key("TypeKind"@) && s.named_types["TypeKind"@] == declared;
            let (s2, kind) = eval_kind(s, d.value);
            &&& is_info ==> after == match info {
                Some(f) => note_info(s1, id, f.kind, f.primitive),
                None => s1,
            }
            &&& !is_info && !is_kind && !is_declared_as(s, declared, "TypePrimitive"@) ==> after == s
            &&& !is_info && !is_kind && is_declared_as(s, declared, "TypePrimitive"@) ==> ({
                let (s3, tag) = eval_primitive(s, d.value);
                after == match tag {
                    Some(t) => note_primitive(s3, id, t),
                    None => s3,
                }
            })
            &&& !is_info && is_kind && (forall|x: State| x.named_types == s2.named_types ==> !(
            #[trigger] is_declared_as(x, declared, "TypePrimitive"@))) ==> after == match kind {
                Some(k) => note_kind(s2, id, k),
                None => s2,
            }
        }),
{
    reveal(record_fact);
}

/// A variable that can change, or that is declared where nothing is known, is not known to be
/// anything.
pub proof fn law_changing_variables_are_unknown(s: State, d: VarDecl, declared: TypeId, init: TypeId)
    ensures
        d.mutable || !s.context.specialize ==> record_fact(s, d, declared, init) == s,
{
    reveal(record_fact);
}

/// What is noted of a variable is found again.
pub proof fn law_noted_facts_are_found(
    s: State,
    id: DefId,
    kind: Seq<char>,
    tag: Seq<char>,
    maybe: Option<Seq<char>>,
)
    requires
        s.facts.len() > 0,
    ensures
        ({
            let a = note_kind(s, id, kind);
            let b = note_primitive(s, id, tag);
            let c = note_info(s, id, kind, maybe);
            let n = s.facts.len();
            &&& known_kind_value(a.facts, id, n) == Some(kind)
            &&& known_primitive_value(b.facts, id, n) == Some(tag)
            &&& known_info_kind(c.facts, id, n) == Some(kind)
            &&& known_info_primitive(c.facts, id, n) == Some(maybe)
        }),
{
}

/// What is known of the argument for a parameter that cannot change is noted under the place of
/// the parameter.
pub proof fn law_arguments_are_known(
    s: State,
    param: Param,
    id: TypeId,
    value: Expr,
    index: usize,
    facts: ParamFacts,
)
    ensures
        param.mutable ==> argument_fact(s, param, id, value, index, facts) == (s, facts),
        !param.mutable && is_declared_as(s, id, "TypeInfo"@) ==> ({
            let (s1, info) = eval_info(s, value);
            let (after, known) = argument_fact(s, param, id, value, index, facts);
            &&& after == s1
            &&& info is None ==> known == facts
            &&& info matches Some(f) ==> known.type_info_kinds == facts.type_info_kinds.push(
                ParamTagV { index, tag: f.kind },
            ) && known.type_info_primitives == facts.type_info_primitives.push(
                ParamMaybeTagV { index, tag: f.primitive },
            ) && known.type_kind_values == facts.type_kind_values && known.type_primitive_values
                == facts.type_primitive_values
        }),
        !param.mutable && !is_declared_as(s, id, "TypeInfo"@) && !is_declared_as(s, id, "TypeKind"@)
            && is_declared_as(s, id, "TypePrimitive"@) ==> ({
            let (s1, tag) = eval_primitive(s, value);
            let (after, known) = argument_fact(s, param, id, value, index, facts);
            &&& after == s1
            &&& tag is None ==> known == facts
            &&& tag matches Some(t) ==> known.type_primitive_values == facts.type_primitive_values.push(
                ParamTagV { index, tag: t },
            )
        }),
        !param.mutable && !is_declared_as(s, id, "TypeInfo"@) && is_declared_as(s, id, "TypeKind"@) ==> ({
            let (s1, kind) = eval_kind(s, value);
            let known = argument_fact(s, param, id, value, index, facts).1;
            &&& kind is None ==> known.type_kind_values == facts.type_kind_values
            &&& kind matches Some(k) ==> known.type_kind_values == facts.type_kind_values.push(
                ParamTagV { index, tag: k },
            )
        }),
{
    reveal(argument_fact);
}

/// What is noted under the place of a parameter is known of the parameter, where no later note
/// speaks of it.
pub proof fn law_parameters_are_known(
    names: Names,
    params: Seq<Param>,
    tags: Seq<ParamTagV>,
    i: nat,
    m: Map<DefId, Seq<char>>,
    k: int,
    id: DefId,
)
    requires
        i <= k < tags.len(),
        tags[k].index < params.len(),
        definition_at(names, params[tags[k].index as int].name.span) == Some(id),
        forall|j: int|
            k < j < tags.len() ==> param_definition(names, params, (#[trigger] tags[j]).index) != Some(id),
    ensures
        scope_tags(names, params, tags, i, m).contains_key(id),
        scope_tags(names, params, tags, i, m)[id] == tags[k].tag,
    decreases tags.len() - i,
{
    let next = match param_definition(names, params, tags[i as int].index) {
        Some(x) => m.insert(x, tags[i as int].tag),
        None => m,
    };
    if i < k {
        law_parameters_are_known(names, params, tags, i + 1, next, k, id);
    } else {
        tag_stays(names, params, tags, i + 1, next, id);
    }
}

proof fn tag_stays(
    names: Names,
    params: Seq<Param>,
    tags: Seq<ParamTagV>,
    i: nat,
    m: Map<DefId, Seq<char>>,
    id: DefId,
)
    requires
        m.contains_key(id),
        forall|j: int|
            i <= j < tags.len() ==> param_definition(names, params, (#[trigger] tags[j]).index) != Some(id),
    ensures
        scope_tags(names, params, tags, i, m).contains_key(id),
        scope_tags(names, params, tags, i, m)[id] == m[id],
    decreases tags.len() - i,
{
    if i < tags.len() {
        let next = match param_definition(names, params, tags[i as int].index) {
            Some(x) => m.insert(x, tags[i as int].tag),
            None => m,
        };
        tag_stays(names, params, tags, i + 1, next, id);
    }
}

/// The facts on parameters are of the kind that they were noted as.
pub proof fn law_facts_on_parameters(names: Names, params: Seq<Param>, facts: ParamFacts)
    ensures
        ({
            let scope = param_scope(names, params, facts);
            &&& scope.info_kinds == scope_tags(names, params, facts.type_info_kinds, 0, Map::empty())
            &&& scope.kind_values == scope_tags(names, params, facts.type_kind_values, 0, Map::empty())
            &&& scope.primitive_values == scope_tags(names, params, facts.type_primitive_values, 0, Map::empty())
        }),
{
}

// ---------------------------------------------------------------------------
// Looking at type parameters
// ---------------------------------------------------------------------------

/// What may be decided beforehand: truth values, and comparisons of what may be known with
/// kinds or primitive tags that are written out.
pub proof fn law_what_may_be_decided(names: Names, l: Box<Expr>, r: Box<Expr>, b: bool, span: Span)
    ensures
        maybe_static_condition(names, Expr::BoolLiteral(b, span)),
        maybe_static_condition(names, Expr::Unary(UnaryOp::Not, l, span)) == maybe_static_condition(names, *l),
        forall|op: BinOp| #[trigger]
            maybe_static_condition(names, Expr::Binary(l, op, r, span)) <==> match op {
                BinOp::And | BinOp::Or => maybe_static_condition(names, *l) && maybe_static_condition(names, *r),
                BinOp::Eq | BinOp::NotEq => maybe_static_value(names, *l) && reflection_literal(names, *r)
                    || reflection_literal(names, *l) && maybe_static_value(names, *r),
                _ => false,
            },
        forall|e: Expr| #[trigger]
            reflection_literal(names, e) <==> kind_literal(names, e) is Some || primitive_literal(names, e) is Some,
{
    reveal_with_fuel(maybe_static_condition, 2);
}

/// Where branches are chosen beforehand, everything can be settled.
pub proof fn law_static_branches_settle(names: Names, stmt: Stmt, b: Block, tp: TypeParams)
    ensures
        stmt_settles(names, stmt, tp, ReflectionBranchContext::StaticReflectionBranch),
        block_settles(names, b, tp, ReflectionBranchContext::StaticReflectionBranch),
{
    reveal_with_fuel(block_settles, 2);
    assert forall|i: int| 0 <= i < b.stmts@.len() implies stmt_settles(
        names,
        #[trigger] b.stmts@[i],
        tp,
        ReflectionBranchContext::StaticReflectionBranch,
    ) by {
        reveal_with_fuel(stmt_settles, 2);
    }
}

/// Elsewhere a declaration, a return and a binding settle where they do not look at a type
/// parameter, or where they are a look that can be settled by itself.
pub proof fn law_what_settles(names: Names, stmt: Stmt, tp: TypeParams, context: ReflectionBranchContext)
    requires
        context != ReflectionBranchContext::StaticReflectionBranch,
    ensures
        stmt_settles(names, stmt, tp, context) <==> match stmt {
            Stmt::VarDecl(d) => !uses(names, d.value, tp) || context.permits() && (direct_source(
                names,
                d.value,
                tp,
            ) || !d.mutable && (info_reflection(names, d.value, tp) || kind_reflection(names, d.value, tp)
                || primitive_reflection(names, d.value, tp))),
            Stmt::Return(r) => r.value matches Some(x) ==> (!uses(names, x, tp) || context.permits()
                && direct_source(names, x, tp)),
            Stmt::ComptimeTypeBind(b) => block_settles(names, b.body, tp, context) && if binding_mentions(
                b.value,
                tp,
            ) {
                context.permits()
            } else {
                !uses(names, b.value, tp)
            },
            Stmt::For(f) => if loop_mentions(f.iterable, tp) {
                context.permits()
            } else {
                !uses(names, f.iterable, tp) && block_settles(names, f.body, tp, context)
            },
            Stmt::Match(m) => {
                &&& uses(names, m.expr, tp) ==> maybe_static_value(names, m.expr)
                &&& !maybe_static_value(names, m.expr) ==> forall|j: int|
                    0 <= j < m.arms@.len() ==> block_settles(
                        names,
                        (#[trigger] m.arms@[j]).body,
                        tp,
                        ReflectionBranchContext::RuntimeBranch,
                    )
            },
            Stmt::If(i) => stmt_settles(names, stmt, tp, context),
            _ => !stmt_uses(names, stmt, tp),
        },
{
    reveal_with_fuel(stmt_settles, 2);
    match stmt {
        Stmt::For(f) => law_static_branches_settle(names, stmt, f.body, tp),
        Stmt::Match(m) => {
            assert forall|j: int| 0 <= j < m.arms@.len() implies block_settles(
                names,
                (#[trigger] m.arms@[j]).body,
                tp,
                ReflectionBranchContext::StaticReflectionBranch,
            ) by {
                law_static_branches_settle(names, stmt, m.arms@[j].body, tp);
            }
        },
        _ => {},
    }
}

/// An `if` settles where each condition that looks at a type parameter may be decided, and each
/// branch whose condition may not settles by itself.
pub proof fn law_which_branches_settle(names: Names, i: IfStmt, tp: TypeParams, context: ReflectionBranchContext)
    requires
        context != ReflectionBranchContext::StaticReflectionBranch,
        i.else_ifs@.len() == 0,
    ensures
        stmt_settles(names, Stmt::If(i), tp, context) <==> {
            &&& uses(names, i.condition, tp) ==> maybe_static_condition(names, i.condition)
            &&& !maybe_static_condition(names, i.condition) ==> block_settles(
                names,
                i.then_block,
                tp,
                ReflectionBranchContext::RuntimeBranch,
            ) && (i.else_block matches Some(b) ==> block_settles(
                names,
                b,
                tp,
                ReflectionBranchContext::RuntimeBranch,
            ))
        },
{
    reveal_with_fuel(stmt_settles, 2);
    law_static_branches_settle(names, Stmt::If(i), i.then_block, tp);
    if i.else_block is Some {
        law_static_branches_settle(names, Stmt::If(i), i.else_block->0, tp);
    }
    assert(all_static(names, i.else_ifs@));
}

/// Type parameters are mentioned by their names, anywhere inside of a written type, and an
/// expression looks at them where it asks for a type that mentions them.
pub proof fn law_what_looks_at_type_parameters(names: Names, t: TypeExpr, e: Expr, tp: TypeParams)
    ensures
        mentions(t, tp) <==> match t {
            TypeExpr::Named(ident) => tp.contains(ident.name@),
            TypeExpr::Generic(_, args, _) => exists|i: int|
                0 <= i < args@.len() && mentions(#[trigger] args@[i], tp),
            TypeExpr::View(inner, _) => mentions(*inner, tp),
            TypeExpr::StateQualified(inner, _, _) => mentions(*inner, tp),
            TypeExpr::Function(params, ret, _) => mentions(*ret, tp) || exists|i: int|
                0 <= i < params@.len() && mentions(#[trigger] params@[i], tp),
        },
        e matches Expr::GenericCall(callee, types, args, _) ==> (reflects(names, *callee) && (
        exists|i: int| 0 <= i < types@.len() && mentions(#[trigger] types@[i], tp)) ==> uses(names, e, tp)),
        uses(names, e, tp) ==> expr_place(names, e, tp) is Some,
{
    reveal_with_fuel(mentions, 2);
}

} // verus!
