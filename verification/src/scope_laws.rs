//! Which types names stand for in loops and bindings, and what is told of declarations.
use vstd::prelude::*;

use crate::ast::{
    expr_span, BitfieldField, BitfieldFieldKind, Block, ComptimeTypeBindStmt, EnumDef,
    EnumVariantDef, Expr, ForStmt, FunctionDecl, FunctionDef, Ident, Stmt, TypeExpr,
};
use crate::check_blocks::{
    all_type_args, args_source, bound_block, bound_blocks, check_block, check_stmt, check_type_bind,
    field_loop, info_loop, leave_loops, machine_loop, reflected_types, scoped_id, scoped_ids,
    variant_loop, written_args,
};
use crate::check_exprs::check_expr;
use crate::declare::{declared_type, finish_enum, slot_layout, variant_infos, variants_from};
use crate::diagnostics::{
    error, error_after, label_text, message_text, warning, ErrorCode, Severity,
};
use crate::handling_laws::with_report;
use crate::names::canonical;
use crate::reflect_types::type_args;
use crate::reflect_written::{any_secret, declared_fields, type_expr_info};
use crate::reflection::VariantInfoV;
use crate::reflection_use::{arg_binding, field_of_name, member_fields_type, member_type};
use crate::signatures::{all_written_alike, generic_agrees, renamed_from, written_alike};
use crate::span::Span;
use crate::state::{NamedIdsV, State};
use crate::type_walk::{state_ids, variant_ids};
use crate::types::{ty, NamedTypeV, Type, TypeId, TypeInterner, VariantShapeV};
use crate::written_types::{resolve_type, resolve_types};

verus! {

// ---------------------------------------------------------------------------
// Reflections as they are written
// ---------------------------------------------------------------------------

/// `type.<member>[T](..)` speaks of `T`, with the arguments that it takes.
pub proof fn law_members_of_type(e: Expr, member: Seq<char>, n: nat)
    ensures
        match member_type(e, member, n) {
            Some(t) => e matches Expr::GenericCall(callee, types, args, _) && types@ == seq![t] && args@.len() == n
                && (*callee matches Expr::FieldAccess(base, field, _) && field.name@ == member && (
            *base matches Expr::Ident(i) && i.name@ == "type"@)),
            None => !(e matches Expr::GenericCall(callee, types, args, _) && types@.len() == 1 && args@.len() == n
                && (*callee matches Expr::FieldAccess(base, field, _) && field.name@ == member && (
            *base matches Expr::Ident(i) && i.name@ == "type"@))),
        },
{
    if e is GenericCall && member_type(e, member, n) is Some {
        assert(e->GenericCall_1@ =~= seq![e->GenericCall_1@[0]]);
    }
}

/// `name.<field>` speaks of the name.
pub proof fn law_fields_of_names(e: Expr, member: Seq<char>, name: Seq<char>)
    ensures
        field_of_name(e, member) == Some(name) <==> (e matches Expr::FieldAccess(base, field, _) && field.name@
            == member && (*base matches Expr::Ident(i) && i.name@ == name)),
{
}

// ---------------------------------------------------------------------------
// Loops over parts of types
// ---------------------------------------------------------------------------

/// In a loop over the variants of a type the variable stands for the type.
pub proof fn law_loops_over_variants(s: State, f: ForStmt)
    ensures
        match member_type(f.iterable, "variants"@, 0) {
            Some(t) => {
                let (s1, owner) = resolve_type(s, t);
                let (after, open) = variant_loop(s, f);
                &&& open
                &&& after.variant_scopes == s1.variant_scopes.push(
                    NamedTypeV { name: f.variable.name@, ty: owner },
                )
                &&& after == (State { variant_scopes: after.variant_scopes, ..s1 })
            },
            None => variant_loop(s, f) == (s, false),
        },
{
    reveal(variant_loop);
}

/// In a loop over the states of a machine the variable stands for the machine.
pub proof fn law_loops_over_states(s: State, f: ForStmt)
    ensures
        match member_type(f.iterable, "machine_states"@, 0) {
            Some(t) => {
                let (s1, owner) = resolve_type(s, t);
                let (after, open) = machine_loop(s, f);
                &&& open
                &&& after.machine_scopes == s1.machine_scopes.push(
                    NamedTypeV { name: f.variable.name@, ty: owner },
                )
                &&& after == (State { machine_scopes: after.machine_scopes, ..s1 })
            },
            None => machine_loop(s, f) == (s, false),
        },
{
    reveal(machine_loop);
}

/// Whether the list holds the types of the fields, in their order.
pub open spec fn are_types_of(ids: Seq<TypeId>, fields: Seq<NamedTypeV>) -> bool {
    ids.len() == fields.len() && forall|i: int| 0 <= i < ids.len() ==> #[trigger] ids[i] == fields[i].ty
}

/// In a loop over the fields of a struct or bitfield the variable stands for their types. What
/// has no fields stands for none.
pub proof fn law_loops_over_fields(s: State, f: ForStmt, t: TypeExpr)
    requires
        member_type(f.iterable, "fields"@, 0) == Some(t),
    ensures
        ({
            let (s1, owner) = resolve_type(s, t);
            let (after, open) = field_loop(s, f);
            let scope = after.field_scopes.last();
            &&& open
            &&& after.field_scopes == s1.field_scopes.push(scope)
            &&& after == (State { field_scopes: after.field_scopes, ..s1 })
            &&& scope.name == f.variable.name@
            &&& owner == TypeInterner::ERROR ==> scope.ids.len() == 0
            &&& owner != TypeInterner::ERROR ==> match ty(s1.types, owner) {
                Type::Struct(id) => are_types_of(scope.ids, s1.types.structs[id.0 as int].fields),
                Type::Bitfield(id) => {
                    let slots = s1.types.bitfields[id.0 as int].fields;
                    scope.ids.len() == slots.len() && forall|i: int|
                        0 <= i < slots.len() ==> #[trigger] scope.ids[i] == slots[i].ty
                },
                _ => scope.ids.len() == 0,
            }
        }),
{
    reveal(field_loop);
}

/// In a loop over the fields of what a machine state holds, the variable stands for the types
/// of that state's fields.
pub proof fn law_loops_over_fields_of_states(s: State, f: ForStmt, t: TypeExpr)
    requires
        member_type(f.iterable, "fields"@, 0) is None,
        member_fields_type(f.iterable, "variant_value"@) is None,
        member_fields_type(f.iterable, "machine_state_value"@) == Some(t),
    ensures
        ({
            let (s1, owner) = resolve_type(s, t);
            let (after, open) = field_loop(s, f);
            let scope = after.field_scopes.last();
            &&& open
            &&& after.field_scopes == s1.field_scopes.push(scope)
            &&& scope.name == f.variable.name@
            &&& owner != TypeInterner::ERROR ==> match ty(s1.types, owner) {
                Type::MachineState { machine, state } => state.0 < s1.types.machines[machine.0 as int].states.len()
                    ==> are_types_of(
                    scope.ids,
                    s1.types.machines[machine.0 as int].states[state.0 as int].fields,
                ),
                Type::Machine(_) => true,
                _ => scope.ids.len() == 0,
            }
        }),
{
    reveal(field_loop);
}

/// In a loop over the fields of what a variant holds, the variable stands for the types of the
/// fields of all variants.
pub proof fn law_loops_over_fields_of_variants(s: State, f: ForStmt, t: TypeExpr)
    requires
        member_type(f.iterable, "fields"@, 0) is None,
        member_fields_type(f.iterable, "variant_value"@) == Some(t),
    ensures
        ({
            let (s1, owner) = resolve_type(s, t);
            let (after, open) = field_loop(s, f);
            let scope = after.field_scopes.last();
            &&& open
            &&& after.field_scopes == s1.field_scopes.push(scope)
            &&& scope.name == f.variable.name@
            &&& owner == TypeInterner::ERROR ==> scope.ids.len() == 0
            &&& owner != TypeInterner::ERROR ==> match ty(s1.types, owner) {
                Type::Enum(id) => scope.ids == variant_ids(s1.types.enums[id.0 as int].variants),
                _ => scope.ids.len() == 0,
            }
        }),
{
    reveal(field_loop);
}

/// In a loop over `x.fields`, where `x` goes over the states of a machine or the variants of an
/// enum, the variable stands for the types of their fields.
pub proof fn law_loops_over_fields_of_loop_variables(s: State, f: ForStmt, name: Seq<char>)
    requires
        member_type(f.iterable, "fields"@, 0) is None,
        member_fields_type(f.iterable, "variant_value"@) is None,
        member_fields_type(f.iterable, "machine_state_value"@) is None,
        field_of_name(f.iterable, "fields"@) == Some(name),
    ensures
        ({
            let (after, open) = field_loop(s, f);
            let scope = after.field_scopes.last();
            match (
                scoped_id(s.machine_scopes, name, s.machine_scopes.len()),
                scoped_id(s.variant_scopes, name, s.variant_scopes.len()),
            ) {
                (Some(machine), _) => {
                    &&& open
                    &&& after.field_scopes == s.field_scopes.push(scope)
                    &&& scope.name == f.variable.name@
                    &&& ty(s.types, machine) matches Type::Machine(id) ==> scope.ids == state_ids(
                        s.types.machines[id.0 as int].states,
                    )
                },
                (None, Some(owner)) => {
                    &&& open
                    &&& after.field_scopes == s.field_scopes.push(scope)
                    &&& scope.name == f.variable.name@
                    &&& ty(s.types, owner) matches Type::Enum(id) ==> scope.ids == variant_ids(
                        s.types.enums[id.0 as int].variants,
                    )
                },
                (None, None) => (after, open) == (s, false),
            }
        }),
{
    reveal(field_loop);
}

/// Any other loop opens no scope for fields.
pub proof fn law_other_loops_open_no_scope(s: State, f: ForStmt)
    requires
        member_type(f.iterable, "fields"@, 0) is None,
        member_fields_type(f.iterable, "variant_value"@) is None,
        member_fields_type(f.iterable, "machine_state_value"@) is None,
        field_of_name(f.iterable, "fields"@) is None,
    ensures
        field_loop(s, f) == (s, false),
{
    reveal(field_loop);
}

/// `type.<member>[T](x).fields` speaks of `T`, and `type.arg[T](k)` of `T` and the place `k`.
pub proof fn law_fields_and_places_of_type(e: Expr, member: Seq<char>, t: TypeExpr, k: usize)
    ensures
        member_fields_type(e, member) == Some(t) <==> (e matches Expr::FieldAccess(base, field, _) && field.name@
            == "fields"@ && member_type(*base, member, 1) == Some(t)),
        arg_binding(e) == Some((t, k)) ==> member_type(e, "arg"@, 1) == Some(t) && e->GenericCall_2@[0].name is None
            && (e->GenericCall_2@[0].value matches Expr::IntLiteral(n, _) && n == k),
{
}

/// A name stands for what the innermost scope that has it says.
pub proof fn law_innermost_scopes_hold(a: Seq<NamedTypeV>, b: Seq<NamedIdsV>, name: Seq<char>)
    ensures
        a.len() > 0 ==> scoped_id(a, name, a.len()) == if a.last().name == name {
            Some(a.last().ty)
        } else {
            scoped_id(a, name, (a.len() - 1) as nat)
        },
        b.len() > 0 ==> scoped_ids(b, name, b.len()) == if b.last().name == name {
            Some(b.last().ids)
        } else {
            scoped_ids(b, name, (b.len() - 1) as nat)
        },
        scoped_id(a, name, 0) is None,
        scoped_ids(b, name, 0) is None,
{
}

/// In a loop over what a `TypeInfo` holds as `args`, the variable stands for the type
/// arguments of the types that the `TypeInfo` is of.
pub proof fn law_loops_over_arguments(s: State, f: ForStmt)
    ensures
        ({
            let (s1, source) = args_source(s, f.iterable);
            let (after, open) = info_loop(s, f);
            match source {
                Some(ids) => {
                    &&& open
                    &&& after.info_scopes == s1.info_scopes.push(after.info_scopes.last())
                    &&& after.info_scopes.last().name == f.variable.name@
                    &&& ids.len() == 1 ==> after.info_scopes.last().ids == type_args(s1.types, s1.monos, ids[0])
                },
                None => (after, open) == (s1, false),
            }
        }),
        f.iterable matches Expr::FieldAccess(base, field, _) ==> (field.name@ == "args"@ ==> (match member_type(
            *base,
            "info"@,
            0,
        ) {
            Some(t) => args_source(s, f.iterable) == (resolve_type(s, t).0, Some(seq![resolve_type(s, t).1])),
            None => true,
        })),
        !(f.iterable is FieldAccess) ==> args_source(s, f.iterable) == (s, None::<Seq<TypeId>>),
{
    reveal(info_loop);
    reveal(args_source);
    let (s1, source) = args_source(s, f.iterable);
    if source is Some && source->0.len() == 1 {
        reveal_with_fuel(all_type_args, 2);
        assert(Seq::<TypeId>::empty() + type_args(s1.types, s1.monos, source->0[0]) =~= type_args(
            s1.types,
            s1.monos,
            source->0[0],
        ));
    }
}

/// After a loop the scopes that it opened are gone, and no others.
pub proof fn law_loops_leave_no_scopes(s: State, info: bool, field: bool, variant: bool, machine: bool)
    ensures
        ({
            let after = leave_loops(s, info, field, variant, machine);
            &&& info && s.info_scopes.len() > 0 ==> after.info_scopes == s.info_scopes.drop_last()
            &&& !info ==> after.info_scopes == s.info_scopes
            &&& field && s.field_scopes.len() > 0 ==> after.field_scopes == s.field_scopes.drop_last()
            &&& !field ==> after.field_scopes == s.field_scopes
            &&& variant && s.variant_scopes.len() > 0 ==> after.variant_scopes == s.variant_scopes.drop_last()
            &&& !variant ==> after.variant_scopes == s.variant_scopes
            &&& machine && s.machine_scopes.len() > 0 ==> after.machine_scopes == s.machine_scopes.drop_last()
            &&& !machine ==> after.machine_scopes == s.machine_scopes
            &&& after.reports == s.reports
            &&& after.types == s.types
            &&& after.type_env == s.type_env
        }),
{
    reveal(leave_loops);
}

// ---------------------------------------------------------------------------
// Types bound to names
// ---------------------------------------------------------------------------

/// The block of a binding is checked with the name standing for the type. After it, the name
/// stands for what it stood for before.
pub open spec fn with_bound(s: State, name: Seq<char>, id: TypeId, body: Block, d: nat, after: State) -> bool {
    let inside = check_block(State { subst: s.subst.insert(name, id), ..s }, body, d);
    &&& after == (State { subst: after.subst, ..inside })
    &&& s.subst.contains_key(name) ==> after.subst == inside.subst.insert(name, s.subst[name])
    &&& !s.subst.contains_key(name) ==> after.subst == inside.subst.remove(name)
}

/// `type.info[T]()` binds a name to `T`.
pub proof fn law_bound_infos(s: State, x: ComptimeTypeBindStmt, t: TypeExpr, d: nat)
    requires
        member_type(x.value, "info"@, 0) == Some(t),
    ensures
        ({
            let (s1, _) = check_expr(s, x.value, d);
            let (s2, id) = resolve_type(s1, t);
            let after = check_stmt(s, Stmt::ComptimeTypeBind(x), d);
            &&& id == TypeInterner::ERROR ==> after == check_block(s2, x.body, d)
            &&& id != TypeInterner::ERROR ==> with_bound(s2, x.name.name@, id, x.body, d, after)
        }),
{
    reveal_with_fuel(check_stmt, 2);
    reveal_with_fuel(check_type_bind, 2);
    reveal_with_fuel(bound_block, 2);
}

/// `type.arg[T](k)` binds a name to the type argument of `T` at the place `k`, counted from
/// zero. A place that `T` does not have is reported.
pub proof fn law_bound_arguments(s: State, x: ComptimeTypeBindStmt, t: TypeExpr, k: usize, d: nat)
    requires
        member_type(x.value, "info"@, 0) is None,
        arg_binding(x.value) == Some((t, k)),
    ensures
        ({
            let (s1, _) = check_expr(s, x.value, d);
            let (s2, source) = resolve_type(s1, t);
            let (s3, args) = written_args(s2, t);
            let after = check_stmt(s, Stmt::ComptimeTypeBind(x), d);
            &&& source == TypeInterner::ERROR ==> after == check_block(s2, x.body, d)
            &&& source != TypeInterner::ERROR && k >= args.len() ==> after == check_block(
                with_report(
                    s3,
                    ErrorCode::InvalidComptimeTypeBinding,
                    expr_span(x.value),
                    Seq::empty(),
                ),
                x.body,
                d,
            )
            &&& source != TypeInterner::ERROR && k < args.len() && args[k as int] == TypeInterner::ERROR ==> after
                == s3
            &&& source != TypeInterner::ERROR && k < args.len() && args[k as int] != TypeInterner::ERROR
                ==> with_bound(s3, x.name.name@, args[k as int], x.body, d, after)
        }),
{
    reveal_with_fuel(check_stmt, 2);
    reveal_with_fuel(check_type_bind, 2);
    reveal_with_fuel(bound_block, 2);
}

/// The type arguments of a written type are those that are written, or those of the type that
/// the name stands for; an alias has its base as its only one.
pub proof fn law_arguments_as_written(
    s: State,
    ident: Ident,
    args: Vec<TypeExpr>,
    inner: Box<TypeExpr>,
    span: Span,
)
    ensures
        written_args(s, TypeExpr::Generic(ident, args, span)) == resolve_types(s, args@, 0, Seq::empty()),
        ({
            let (s1, ids) = resolve_types(s, args@, 0, Seq::empty());
            let (s2, r) = resolve_type(s1, *inner);
            written_args(s, TypeExpr::Function(args, inner, span)) == (s2, ids.push(r))
        }),
        written_args(s, TypeExpr::View(inner, span)) == written_args(s, *inner),
        written_args(s, TypeExpr::StateQualified(inner, ident, span)) == (s, Seq::<TypeId>::empty()),
        s.aliases.contains_key(ident.name@) ==> ({
            let (s1, base) = resolve_type(s, s.aliases[ident.name@].base_type);
            written_args(s, TypeExpr::Named(ident)) == (s1, seq![base])
        }),
        !s.aliases.contains_key(ident.name@) ==> ({
            let (s1, id) = resolve_type(s, TypeExpr::Named(ident));
            written_args(s, TypeExpr::Named(ident)) == (s1, type_args(s1.types, s1.monos, id))
        }),
{
    reveal_with_fuel(written_args, 2);
}

/// A variable of a loop over fields, or of one over type arguments, binds a name to each of the
/// types that it stands for, one after the other. Anything else is reported.
pub proof fn law_bound_loop_variables(s: State, x: ComptimeTypeBindStmt, d: nat, ids: Seq<TypeId>, i: nat)
    requires
        member_type(x.value, "info"@, 0) is None,
        arg_binding(x.value) is None,
    ensures
        ({
            let (s1, _) = check_expr(s, x.value, d);
            let after = check_stmt(s, Stmt::ComptimeTypeBind(x), d);
            match reflected_types(s1, x.value) {
                Some(found) => after == bound_blocks(s1, x.name.name@, found, 0, x.body, d),
                None => after == check_block(
                    with_report(
                        s1,
                        ErrorCode::InvalidComptimeTypeBinding,
                        expr_span(x.value),
                        Seq::empty(),
                    ),
                    x.body,
                    d,
                ),
            }
        }),
        i >= ids.len() ==> bound_blocks(s, x.name.name@, ids, i, x.body, d) == s,
        i < ids.len() && ids[i as int] == TypeInterner::ERROR ==> bound_blocks(
            s,
            x.name.name@,
            ids,
            i,
            x.body,
            d,
        ) == bound_blocks(s, x.name.name@, ids, i + 1, x.body, d),
        i < ids.len() && ids[i as int] != TypeInterner::ERROR ==> with_bound(
            s,
            x.name.name@,
            ids[i as int],
            x.body,
            d,
            bound_block(s, x.name.name@, ids[i as int], x.body, d),
        ) && bound_blocks(s, x.name.name@, ids, i, x.body, d) == bound_blocks(
            bound_block(s, x.name.name@, ids[i as int], x.body, d),
            x.name.name@,
            ids,
            i + 1,
            x.body,
            d,
        ),
        x.value matches Expr::Ident(v) ==> reflected_types(s, x.value) == scoped_ids(
            s.info_scopes,
            v.name@,
            s.info_scopes.len(),
        ),
        field_of_name(x.value, "type_info"@) matches Some(v) ==> reflected_types(s, x.value) == scoped_ids(
            s.field_scopes,
            v,
            s.field_scopes.len(),
        ),
{
    reveal(reflected_types);
    reveal_with_fuel(check_stmt, 2);
    reveal_with_fuel(check_type_bind, 2);
    reveal_with_fuel(bound_block, 2);
    reveal_with_fuel(bound_blocks, 2);
}

// ---------------------------------------------------------------------------
// What is told of enums and bitfields
// ---------------------------------------------------------------------------

/// Of the variants of an enum are told their places, names, numbers and fields, and whether a
/// field of theirs holds a secret.
pub proof fn law_variants_are_told(
    s: State,
    defs: Seq<EnumVariantDef>,
    variants: Seq<VariantShapeV>,
    ns: Option<Seq<char>>,
    i: nat,
    found: Seq<VariantInfoV>,
)
    requires
        defs.len() == variants.len() <= usize::MAX,
    ensures
        ({
            let told = variant_infos(s, defs, variants, ns, i, found).1;
            &&& told.len() == found.len() + if i <= defs.len() {
                defs.len() - i
            } else {
                0
            }
            &&& forall|k: int| 0 <= k < found.len() ==> #[trigger] told[k] == found[k]
            &&& forall|k: int|
                #![trigger told[k]]
                found.len() <= k < told.len() ==> {
                    let j = k - found.len() + i;
                    &&& told[k].index == j
                    &&& told[k].name == defs[j].name.name@
                    &&& told[k].discriminant == variants[j].discriminant
                    &&& told[k].has_secret <==> exists|x: int|
                        0 <= x < told[k].fields.len() && (#[trigger] told[k].fields[x]).type_info.has_secret
                }
            &&& i < defs.len() ==> told[found.len() as int].fields == declared_fields(
                s,
                defs[i as int].fields@,
                variants[i as int].fields,
                ns,
                0,
                Seq::empty(),
            ).1
        }),
    decreases defs.len() - i,
{
    if i < defs.len() {
        let def = defs[i as int];
        let v = variants[i as int];
        let (s1, fields) = declared_fields(s, def.fields@, v.fields, ns, 0, Seq::empty());
        let info = VariantInfoV {
            index: i as usize,
            name: def.name.name@,
            discriminant: v.discriminant,
            has_secret: any_secret(fields),
            fields,
        };
        law_variants_are_told(s1, defs, variants, ns, i + 1, found.push(info));
        let told = variant_infos(s, defs, variants, ns, i, found).1;
        assert(told == variant_infos(s1, defs, variants, ns, i + 1, found.push(info)).1);
        assert(told[found.len() as int] == found.push(info)[found.len() as int]);
        assert forall|k: int| 0 <= k < found.len() implies #[trigger] told[k] == found[k] by {
            assert(told[k] == found.push(info)[k]);
        }
    }
}

/// What is told of the variants of an enum is told under the enum's type and name.
pub proof fn law_enums_are_told(s: State, def: EnumDef, ns: Option<Seq<char>>)
    ensures
        ({
            let name = canonical(ns, def.name.name@);
            let after = finish_enum(s, def, ns);
            declared_type(s, name) matches Some(Type::Enum(_)) ==> ({
                let (s1, variants) = variants_from(s, def.name.name@, def.variants@, 0, Seq::empty());
                let told = after.reflection_variants[s.named_types[name]];
                &&& told.owner == name
                &&& told.variants == variant_infos(s1, def.variants@, variants, ns, 0, Seq::empty()).1
            })
        }),
{
}

/// Of a field of a bitfield are told its place, its name, whether it is of bits or a payload,
/// how many bits it has, and the enum that it is read as.
pub proof fn law_fields_of_bitfields_are_told(
    s: State,
    field: BitfieldField,
    ns: Option<Seq<char>>,
    id: TypeId,
    index: nat,
)
    requires
        index <= usize::MAX,
    ensures
        ({
            let told = slot_layout(s, field, ns, id, index).1;
            &&& told.index == index
            &&& told.name == field.name.name@
            &&& match field.kind {
                BitfieldFieldKind::Bits { width, as_type } => told.shape == "bits"@ && told.width == width && (
                told.enum_type is Some <==> as_type is Some) && (as_type matches Some(t) ==> told.type_info
                    == type_expr_info(s, t, ns, id).1 && told.enum_type->0.name == type_expr_info(
                    resolve_type(type_expr_info(s, t, ns, id).0, t).0,
                    t,
                    ns,
                    resolve_type(type_expr_info(s, t, ns, id).0, t).1,
                ).1.name),
                BitfieldFieldKind::Payload(t) => told.shape == "payload"@ && told.width == 0 && told.enum_type is None
                    && told.type_info == type_expr_info(s, t, ns, id).1,
            }
        }),
{
}

// ---------------------------------------------------------------------------
// Generic functions that are declared before
// ---------------------------------------------------------------------------

/// A generic function is what was declared where it is written alike, but for the names of its
/// type parameters.
pub proof fn law_generic_functions_agree(f: FunctionDef, decl: FunctionDecl)
    ensures
        generic_agrees(f, decl) <==> ({
            let renamed = renamed_from(decl.type_params@, f.type_params@, 0, Map::empty());
            &&& f.type_params@.len() == decl.type_params@.len()
            &&& f.params@.len() == decl.params@.len()
            &&& forall|i: int|
                0 <= i < f.params@.len() ==> {
                    let (a, b) = (#[trigger] f.params@[i], decl.params@[i]);
                    a.name.name@ == b.name.name@ && a.view == b.view && a.mutable == b.mutable && written_alike(
                        a.ty,
                        b.ty,
                        renamed,
                    )
                }
            &&& match (f.return_type, decl.return_type) {
                (None, None) => true,
                (Some(a), Some(b)) => written_alike(a, b, renamed),
                (None, Some(b)) => b matches TypeExpr::Named(n) && n.name@ == "nothing"@,
                (Some(a), None) => a matches TypeExpr::Named(n) && n.name@ == "nothing"@,
            }
        }),
{
}

/// Written types are alike where they are of one form, name the same, and have parts that are.
pub proof fn law_what_is_written_alike(a: TypeExpr, b: TypeExpr, renamed: Map<Seq<char>, Seq<char>>)
    ensures
        written_alike(a, b, renamed) <==> match a {
            TypeExpr::Named(x) => b matches TypeExpr::Named(y) && x.name@ == if renamed.contains_key(y.name@) {
                renamed[y.name@]
            } else {
                y.name@
            },
            TypeExpr::Generic(x, xs, _) => b matches TypeExpr::Generic(y, ys, _) && x.name@ == y.name@ && xs@.len()
                == ys@.len() && (forall|i: int|
                0 <= i < xs@.len() ==> written_alike(#[trigger] xs@[i], ys@[i], renamed)),
            TypeExpr::View(x, _) => b matches TypeExpr::View(y, _) && written_alike(*x, *y, renamed),
            TypeExpr::StateQualified(x, p, _) => b matches TypeExpr::StateQualified(y, q, _) && p.name@ == q.name@
                && written_alike(*x, *y, renamed),
            TypeExpr::Function(xs, x, _) => b matches TypeExpr::Function(ys, y, _) && xs@.len() == ys@.len() && (
            forall|i: int| 0 <= i < xs@.len() ==> written_alike(#[trigger] xs@[i], ys@[i], renamed))
                && written_alike(*x, *y, renamed),
        },
{
    reveal_with_fuel(written_alike, 2);
    reveal_with_fuel(all_written_alike, 2);
}

/// The type parameter at a place is renamed to the one at the same place, where no later one
/// has its name.
pub proof fn law_type_parameters_are_renamed(decl: Seq<Ident>, f: Seq<Ident>, i: nat, m: Map<Seq<char>, Seq<char>>, k: int)
    requires
        decl.len() == f.len(),
        i <= k < decl.len(),
        forall|j: int| k < j < decl.len() ==> (#[trigger] decl[j]).name@ != decl[k].name@,
    ensures
        renamed_from(decl, f, i, m).contains_key(decl[k].name@),
        renamed_from(decl, f, i, m)[decl[k].name@] == f[k].name@,
    decreases decl.len() - i,
{
    let next = m.insert(decl[i as int].name@, f[i as int].name@);
    if i < k {
        law_type_parameters_are_renamed(decl, f, i + 1, next, k);
    } else {
        renaming_stays(decl, f, i + 1, next, decl[k].name@);
    }
}

proof fn renaming_stays(decl: Seq<Ident>, f: Seq<Ident>, i: nat, m: Map<Seq<char>, Seq<char>>, name: Seq<char>)
    requires
        forall|j: int| i <= j < decl.len() ==> (#[trigger] decl[j]).name@ != name,
        m.contains_key(name),
    ensures
        renamed_from(decl, f, i, m).contains_key(name),
        renamed_from(decl, f, i, m)[name] == m[name],
    decreases decl.len() - i,
{
    if i < decl.len() && i < f.len() {
        renaming_stays(decl, f, i + 1, m.insert(decl[i as int].name@, f[i as int].name@), name);
    }
}

// ---------------------------------------------------------------------------
// Reports
// ---------------------------------------------------------------------------

/// A report says what it is made of. Only one with an earlier place has a note.
pub proof fn law_reports_say_what_they_are_made_of(
    code: ErrorCode,
    span: Span,
    args: Seq<Seq<char>>,
    earlier: Span,
)
    ensures
        error(code, span, args).severity == Severity::Error,
        error_after(code, span, args, earlier).severity == Severity::Error,
        warning(code, span, args).severity == Severity::Warning,
        error(code, span, args).code == code && error(code, span, args).span == span && error(code, span, args).args
            == args,
        warning(code, span, args).code == code && warning(code, span, args).span == span && warning(
            code,
            span,
            args,
        ).args == args,
        error_after(code, span, args, earlier).related == Some(earlier),
        label_text(error(code, span, args)) is None,
        label_text(warning(code, span, args)) is None,
        label_text(error_after(code, span, args, earlier)) is Some,
        args.len() > 0 ==> message_text(error(ErrorCode::UseAfterMove, span, args)) == "`"@ + args[0]
            + "` was consumed and cannot be used again"@,
        args.len() > 0 ==> message_text(error(ErrorCode::CannotConsumeView, span, args)) == "cannot consume `"@
            + args[0] + "` because it is a view parameter"@,
        args.len() > 0 ==> label_text(error_after(ErrorCode::UseAfterMove, span, args, earlier)) == Some(
            "`"@ + args[0] + "` was consumed here"@,
        ),
{
}

/// Reports on types have numbers from 300 on, those on ownership from 400, on purity from 500
/// and on secrets from 600.
pub proof fn law_published_numbers(code: ErrorCode)
    ensures
        code.published() matches Some(n) ==> {
            &&& 600 <= n < 700 <==> code is SecretExposure || code is DeclassifyRequiresSecret || code
                is SecretOperationRequiresSecret || code is TypeContainsSecretData
            &&& 500 <= n < 600 <==> code is PureCallsImpure || code is VerifyCallsImpure
            &&& 400 <= n < 500 <==> code is UseAfterMove || code is CannotConsumeView
            &&& 300 <= n < 700
        },
        forall|other: ErrorCode|
            #![trigger other.published()]
            code.published() is Some && code.published() == other.published() ==> code == other || (code
                is VarDeclTypeMismatch || code is IntegerLiteralOutOfRange) && (other is VarDeclTypeMismatch || other
                is IntegerLiteralOutOfRange),
        ErrorCode::TypeMismatch.published() == Some(300u32),
        ErrorCode::BinaryOpMismatch.published() == Some(301u32),
        ErrorCode::UnaryOpMismatch.published() == Some(302u32),
        ErrorCode::ArgumentCountMismatch.published() == Some(303u32),
        ErrorCode::ArgumentTypeMismatch.published() == Some(304u32),
        ErrorCode::ReturnTypeMismatch.published() == Some(305u32),
        ErrorCode::ConditionNotBool.published() == Some(306u32),
        ErrorCode::NotIterable.published() == Some(307u32),
        ErrorCode::UnknownType.published() == Some(309u32),
        ErrorCode::VarDeclTypeMismatch.published() == Some(311u32),
        ErrorCode::IntegerLiteralOutOfRange.published() == Some(311u32),
        ErrorCode::AssignTypeMismatch.published() == Some(312u32),
        ErrorCode::ResultRequiresHandleError.published() == Some(316u32),
        ErrorCode::OptionalRequiresBareHandle.published() == Some(317u32),
        ErrorCode::HandleBlockRequiresReturnOrDefault.published() == Some(318u32),
        ErrorCode::TypeHasNoMember.published() == Some(319u32),
        ErrorCode::MissingConstructorField.published() == Some(321u32),
        ErrorCode::VariantBindingCountMismatch.published() == Some(323u32),
        ErrorCode::NonExhaustiveMatch.published() == Some(324u32),
        ErrorCode::MutualFunctionMissingDefinition.published() == Some(325u32),
        ErrorCode::MutualSignatureMismatch.published() == Some(326u32),
        ErrorCode::ImplementedMethodSignatureMismatch.published() == Some(330u32),
        ErrorCode::MissingImplementedMethod.published() == Some(331u32),
        ErrorCode::TypeDoesNotImplementInterface.published() == Some(332u32),
        ErrorCode::RefinementRequiresHandleError.published() == Some(333u32),
        ErrorCode::RefinementConstraintNotBool.published() == Some(335u32),
        ErrorCode::InvalidBitfieldField.published() == Some(336u32),
        ErrorCode::BitfieldLiteralOutOfRange.published() == Some(337u32),
        ErrorCode::EnumDiscriminantRequiresUnitVariant.published() == Some(338u32),
        ErrorCode::DuplicateEnumDiscriminant.published() == Some(339u32),
        ErrorCode::UseAfterMove.published() == Some(400u32),
        ErrorCode::CannotConsumeView.published() == Some(401u32),
        ErrorCode::PureCallsImpure.published() == Some(500u32),
        ErrorCode::VerifyCallsImpure.published() == Some(501u32),
        ErrorCode::SecretExposure.published() == Some(600u32),
        ErrorCode::DeclassifyRequiresSecret.published() == Some(601u32),
        ErrorCode::SecretOperationRequiresSecret.published() == Some(602u32),
        ErrorCode::TypeContainsSecretData.published() == Some(603u32),
{
}

} // verus!
