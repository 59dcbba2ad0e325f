//! What no step of checking undoes.
use vstd::prelude::*;

use crate::made::{
    apart, before, before_on, ground, ids_last_on, is_instance, made, made_anew, made_with,
};
use crate::state::{MonoV, State};
use crate::types::{
    ty, ActorMessageShapeV, ActorShapeV, BitfieldFieldShapeV, FunctionShapeV, MachineStateShapeV, NamedTypeV,
    TypeId, Types, VariantShapeV,
};

verus! {

/// Whether `b` goes on where `a` ends.
pub open spec fn goes_on<T>(a: Seq<T>, b: Seq<T>) -> bool {
    a.len() <= b.len() && forall|i: int| 0 <= i < a.len() ==> a[i] == #[trigger] b[i]
}

/// Whether every id of `a` means the same in `b`.
pub open spec fn ids_last(a: Types, b: Types) -> bool {
    &&& goes_on(a.types, b.types)
    &&& goes_on(a.functions, b.functions)
    &&& goes_on(a.refinements, b.refinements)
    &&& a.structs.len() <= b.structs.len()
    &&& a.bitfields.len() <= b.bitfields.len()
    &&& a.enums.len() <= b.enums.len()
    &&& a.interfaces.len() <= b.interfaces.len()
    &&& a.actors.len() <= b.actors.len()
    &&& a.machines.len() <= b.machines.len()
}

/// Whether the id is that of a stored type.
pub open spec fn has(s: State, id: TypeId) -> bool {
    id < s.types.types.len()
}

pub open spec fn has_all(s: State, ids: Seq<TypeId>) -> bool {
    forall|i: int| 0 <= i < ids.len() ==> has(s, #[trigger] ids[i])
}

pub open spec fn has_fields(s: State, fields: Seq<NamedTypeV>) -> bool {
    forall|i: int| 0 <= i < fields.len() ==> has(s, (#[trigger] fields[i]).ty)
}

pub open spec fn has_slots(s: State, fields: Seq<BitfieldFieldShapeV>) -> bool {
    forall|i: int| 0 <= i < fields.len() ==> has(s, (#[trigger] fields[i]).ty)
}

pub open spec fn has_variants(s: State, variants: Seq<VariantShapeV>) -> bool {
    forall|i: int| 0 <= i < variants.len() ==> has_fields(s, (#[trigger] variants[i]).fields)
}

pub open spec fn has_states(s: State, states: Seq<MachineStateShapeV>) -> bool {
    forall|i: int| 0 <= i < states.len() ==> has_fields(s, (#[trigger] states[i]).fields)
}

pub open spec fn has_messages(s: State, messages: Seq<ActorMessageShapeV>) -> bool {
    forall|i: int|
        0 <= i < messages.len() ==> has(s, (#[trigger] messages[i]).responds) && has_fields(
            s,
            messages[i].params,
        )
}

pub open spec fn has_actor(s: State, actor: ActorShapeV) -> bool {
    has_fields(s, actor.capability_params) && has_fields(s, actor.state_fields) && has_messages(
        s,
        actor.messages,
    )
}

pub open spec fn has_shape(s: State, f: FunctionShapeV) -> bool {
    has_all(s, f.params) && has(s, f.return_type)
}

pub open spec fn has_maybe(s: State, id: Option<TypeId>) -> bool {
    id matches Some(x) ==> has(s, x)
}

pub open spec fn has_values<K>(s: State, m: Map<K, TypeId>) -> bool {
    forall|k: K| #[trigger] m.contains_key(k) ==> has(s, m[k])
}

/// Whether all of the ids were given out before `id`.
pub open spec fn older(ids: Seq<TypeId>, id: TypeId) -> bool {
    forall|i: int| 0 <= i < ids.len() ==> #[trigger] ids[i] < id
}

/// Whether every id that was noted is that of a stored type.
#[verifier::opaque]
pub open spec fn known(s: State) -> bool {
    &&& s.types.types.len() >= 16
    &&& has_values(s, s.type_env)
    &&& has_values(s, s.named_types)
    &&& has_values(s, s.type_map)
    &&& has_values(s, s.subst)
    &&& forall|k: Seq<char>| #[trigger] s.signatures.contains_key(k) ==> has_shape(s, s.signatures[k])
    &&& forall|i: int|
        0 <= i < s.monos.len() ==> has(s, (#[trigger] s.monos[i]).ty) && older(
            s.monos[i].args,
            s.monos[i].ty,
        )
    &&& forall|i: int| 0 <= i < s.field_scopes.len() ==> has_all(s, (#[trigger] s.field_scopes[i]).ids)
    &&& forall|i: int| 0 <= i < s.info_scopes.len() ==> has_all(s, (#[trigger] s.info_scopes[i]).ids)
    &&& has_maybe(s, s.context.return_type)
    &&& has_maybe(s, s.context.respond_type)
    &&& forall|i: int|
        0 <= i < s.types.structs.len() ==> has_fields(s, (#[trigger] s.types.structs[i]).fields)
    &&& forall|i: int|
        0 <= i < s.types.bitfields.len() ==> has_slots(s, (#[trigger] s.types.bitfields[i]).fields)
    &&& forall|i: int|
        0 <= i < s.types.enums.len() ==> has_variants(s, (#[trigger] s.types.enums[i]).variants)
    &&& forall|i: int|
        0 <= i < s.types.machines.len() ==> has_states(s, (#[trigger] s.types.machines[i]).states)
    &&& forall|i: int| 0 <= i < s.types.actors.len() ==> has_actor(s, #[trigger] s.types.actors[i])
}

/// Whether `b` can come after `a`: what was reported stays reported, in its
/// order, expressions that have a type keep one, and ids keep their meaning.
#[verifier::opaque]
pub open spec fn grows(a: State, b: State) -> bool {
    &&& a.names == b.names
    &&& goes_on(a.reports, b.reports)
    &&& ids_last(a.types, b.types)
    &&& goes_on(a.monos, b.monos)
    &&& goes_on(a.instances, b.instances)
    &&& a.type_map.dom().subset_of(b.type_map.dom())
}

/// Whether no name in `a` that is being resolved has a type in `b` that it had not.
pub open spec fn unresolved(a: State, b: State) -> bool {
    forall|k: Seq<char>| #[trigger]
        a.resolving.contains(k) && !a.named_types.contains_key(k) ==> !b.named_types.contains_key(k)
}

/// Whether `b` can come after `a` by looking at a part of a body: besides, no
/// declaration changes, and every scope that is opened is closed.
#[verifier::opaque]
pub open spec fn keeps(a: State, b: State) -> bool {
    &&& stays(a, b)
    &&& same_scopes(a, b)
    &&& unresolved(a, b)
    &&& a.aliases == b.aliases
    &&& a.impls == b.impls
    &&& a.impl_methods == b.impl_methods
    &&& a.purity_map == b.purity_map
    &&& a.signatures == b.signatures
    &&& a.trusted_signatures == b.trusted_signatures
    &&& a.generic_struct_templates == b.generic_struct_templates
    &&& a.function_templates == b.function_templates
}

pub broadcast proof fn grows_itself(a: State)
    ensures
        #[trigger] grows(a, a),
{
    reveal(grows);
}

pub broadcast proof fn grows_on(a: State, b: State, c: State)
    requires
        #[trigger] grows(a, b),
        #[trigger] grows(b, c),
    ensures
        grows(a, c),
{
    reveal(grows);
    assert forall|i: int| 0 <= i < a.reports.len() implies a.reports[i] == #[trigger] c.reports[i] by {
        assert(a.reports[i] == b.reports[i]);
    }
    assert forall|i: int| 0 <= i < a.monos.len() implies a.monos[i] == #[trigger] c.monos[i] by {
        assert(a.monos[i] == b.monos[i]);
    }
    assert forall|i: int| 0 <= i < a.instances.len() implies a.instances[i] == #[trigger] c.instances[i] by {
        assert(a.instances[i] == b.instances[i]);
    }
    ids_last_on(a.types, b.types, c.types);
}

/// Whether `b` can come after `a` once names are declared: besides, names keep their
/// types, and what was made of a template stays that.
#[verifier::opaque]
pub open spec fn stays(a: State, b: State) -> bool {
    &&& grows(a, b)
    &&& before(ground(a), ground(b))
    &&& made_anew(a, b)
    &&& made(a) ==> made(b)
}

pub broadcast proof fn stays_itself(a: State)
    ensures
        #[trigger] stays(a, a),
{
    reveal(stays);
    grows_itself(a);
}

pub broadcast proof fn stays_on(a: State, b: State, c: State)
    requires
        #[trigger] stays(a, b),
        #[trigger] stays(b, c),
    ensures
        stays(a, c),
{
    reveal(stays);
    grows_on(a, b, c);
    before_on(ground(a), ground(b), ground(c));
    reveal(grows);
    assert forall|i: int| a.monos.len() <= i < c.monos.len() implies a.types.types.len() <= (
    #[trigger] c.monos[i]).ty by {
        if i < b.monos.len() {
            assert(c.monos[i] == b.monos[i]);
        }
    }
}

pub broadcast proof fn staying_grows(a: State, b: State)
    requires
        #[trigger] stays(a, b),
    ensures
        grows(a, b),
{
    reveal(stays);
}

pub broadcast proof fn keeping_stays(a: State, b: State)
    requires
        #[trigger] keeps(a, b),
    ensures
        stays(a, b),
{
    reveal(keeps);
}

pub broadcast proof fn keeps_itself(a: State)
    ensures
        #[trigger] keeps(a, a),
{
    reveal(keeps);
    stays_itself(a);
}

pub broadcast proof fn keeps_on(a: State, b: State, c: State)
    requires
        #[trigger] keeps(a, b),
        #[trigger] keeps(b, c),
    ensures
        keeps(a, c),
{
    reveal(keeps);
    stays_on(a, b, c);
}

/// Scopes and instances speak of stored types.
pub proof fn known_lists(s: State)
    requires
        known(s),
    ensures
        forall|i: int|
            0 <= i < s.monos.len() ==> has(s, (#[trigger] s.monos[i]).ty) && has_all(s, s.monos[i].args),
        forall|i: int| 0 <= i < s.field_scopes.len() ==> has_all(s, (#[trigger] s.field_scopes[i]).ids),
        forall|i: int| 0 <= i < s.info_scopes.len() ==> has_all(s, (#[trigger] s.info_scopes[i]).ids),
{
    reveal(known);
}

/// Definitions speak of stored types.
pub proof fn known_definitions(s: State)
    requires
        known(s),
    ensures
        forall|i: int|
            0 <= i < s.types.structs.len() ==> has_fields(s, (#[trigger] s.types.structs[i]).fields),
        forall|i: int|
            0 <= i < s.types.bitfields.len() ==> has_slots(s, (#[trigger] s.types.bitfields[i]).fields),
        forall|i: int|
            0 <= i < s.types.enums.len() ==> has_variants(s, (#[trigger] s.types.enums[i]).variants),
        forall|i: int|
            0 <= i < s.types.machines.len() ==> has_states(s, (#[trigger] s.types.machines[i]).states),
        forall|i: int| 0 <= i < s.types.actors.len() ==> has_actor(s, #[trigger] s.types.actors[i]),
{
    reveal(known);
}

/// The basic types are stored from the start.
pub broadcast proof fn known_basics(s: State)
    requires
        #[trigger] known(s),
    ensures
        s.types.types.len() >= 16,
{
    reveal(known);
}

/// Ids are not given back, names that are opened are closed, and instances stay.
pub broadcast proof fn keeps_ids(a: State, b: State)
    requires
        #[trigger] keeps(a, b),
    ensures
        a.types.types.len() <= b.types.types.len(),
        a.resolving.len() == b.resolving.len(),
        a.nested.len() == b.nested.len(),
        a.instances.len() <= b.instances.len(),
{
    reveal(keeps);
    reveal(stays);
    reveal(grows);
}

pub broadcast proof fn keeps_has_all(a: State, b: State, ids: Seq<TypeId>)
    requires
        #[trigger] keeps(a, b),
        #[trigger] has_all(a, ids),
    ensures
        has_all(b, ids),
{
    keeps_ids(a, b);
}

pub broadcast proof fn keeps_has_fields(a: State, b: State, fields: Seq<NamedTypeV>)
    requires
        #[trigger] keeps(a, b),
        #[trigger] has_fields(a, fields),
    ensures
        has_fields(b, fields),
{
    keeps_ids(a, b);
}

pub broadcast proof fn keeping_grows(a: State, b: State)
    requires
        #[trigger] keeps(a, b),
    ensures
        grows(a, b),
{
    reveal(keeps);
    reveal(stays);
}

/// Whether the same scopes are open in both.
pub open spec fn same_scopes(a: State, b: State) -> bool {
    &&& a.resolving == b.resolving
    &&& a.nested == b.nested
    &&& a.context == b.context
    &&& a.subst == b.subst
    &&& a.kind_tags == b.kind_tags
    &&& a.facts.len() == b.facts.len()
    &&& a.field_scopes == b.field_scopes
    &&& a.info_scopes == b.info_scopes
    &&& a.variant_scopes == b.variant_scopes
    &&& a.machine_scopes == b.machine_scopes
}

/// Whether `b` is `a` with other scopes open.
pub open spec fn rescoped(a: State, b: State) -> bool {
    b == (State {
        resolving: b.resolving,
        nested: b.nested,
        context: b.context,
        subst: b.subst,
        kind_tags: b.kind_tags,
        facts: b.facts,
        field_scopes: b.field_scopes,
        info_scopes: b.info_scopes,
        variant_scopes: b.variant_scopes,
        machine_scopes: b.machine_scopes,
        ..a
    })
}

/// `a` with the scopes of `b` open.
pub open spec fn rescoped_to(a: State, b: State) -> State {
    State {
        resolving: b.resolving,
        nested: b.nested,
        context: b.context,
        subst: b.subst,
        kind_tags: b.kind_tags,
        facts: b.facts,
        field_scopes: b.field_scopes,
        info_scopes: b.info_scopes,
        variant_scopes: b.variant_scopes,
        machine_scopes: b.machine_scopes,
        ..a
    }
}

pub proof fn keeps_scopes(a: State, b: State)
    requires
        keeps(a, b),
    ensures
        same_scopes(a, b),
{
    reveal(keeps);
}

/// Names keep their types.
pub proof fn keeps_ground(a: State, b: State)
    requires
        keeps(a, b),
    ensures
        before(ground(a), ground(b)),
{
    reveal(keeps);
    reveal(stays);
}

/// What was made of a template stays that.
pub proof fn keeps_made(a: State, b: State)
    requires
        keeps(a, b),
        made(a),
    ensures
        made(b),
{
    reveal(keeps);
    reveal(stays);
}

pub proof fn keeps_unresolved(a: State, b: State, name: Seq<char>)
    requires
        keeps(a, b),
        a.resolving.contains(name),
        !a.named_types.contains_key(name),
    ensures
        !b.named_types.contains_key(name),
{
    reveal(keeps);
}

/// One more struct is made of a template.
pub proof fn made_another(a: State, b: State, m: MonoV)
    requires
        keeps(a, b),
        a.monos.len() == b.monos.len(),
        is_instance(ground(b), m.ty, m.name, m.args),
        a.types.types.len() <= m.ty,
    ensures
        keeps(a, State { monos: b.monos.push(m), ..b }),
{
    reveal(keeps);
    reveal(stays);
    reveal(grows);
    let c = State { monos: b.monos.push(m), ..b };
    assert(ground(c) == ground(b));
    if made(a) {
        made_with(ground(b), b.monos, m);
    }
    assert forall|i: int| 0 <= i < a.monos.len() implies a.monos[i] == #[trigger] c.monos[i] by {
        assert(a.monos[i] == b.monos[i]);
    }
}

pub proof fn keeps_aliases(a: State, b: State)
    requires
        keeps(a, b),
    ensures
        a.aliases == b.aliases,
{
    reveal(keeps);
}

pub proof fn keeps_instances(a: State, b: State, i: int)
    requires
        keeps(a, b),
        0 <= i < a.instances.len(),
    ensures
        b.instances.contains(a.instances[i]),
{
    reveal(keeps);
    reveal(stays);
    reveal(grows);
    assert(a.instances[i] == b.instances[i]);
}

/// Growth does not depend on which scopes are open.
pub proof fn stays_rescoped(a: State, b: State, c: State)
    requires
        keeps(a, b),
        rescoped(b, c),
    ensures
        stays(a, c),
{
    reveal(grows);
    reveal(stays);
    reveal(keeps);
}

pub proof fn known_scopes(a: State, b: State)
    requires
        known(a),
        same_scopes(a, b),
        a.types.types.len() <= b.types.types.len(),
    ensures
        has_values(b, b.subst),
        forall|i: int| 0 <= i < b.field_scopes.len() ==> has_all(b, (#[trigger] b.field_scopes[i]).ids),
        forall|i: int| 0 <= i < b.info_scopes.len() ==> has_all(b, (#[trigger] b.info_scopes[i]).ids),
        has_maybe(b, b.context.return_type),
        has_maybe(b, b.context.respond_type),
{
    reveal(known);
    assert forall|i: int| 0 <= i < b.field_scopes.len() implies has_all(
        b,
        (#[trigger] b.field_scopes[i]).ids,
    ) by {
        assert(has_all(a, a.field_scopes[i].ids));
    }
    assert forall|i: int| 0 <= i < b.info_scopes.len() implies has_all(
        b,
        (#[trigger] b.info_scopes[i]).ids,
    ) by {
        assert(has_all(a, a.info_scopes[i].ids));
    }
}

/// What is kept inside a scope is kept around it.
pub proof fn keeps_around(a: State, inside: State, end: State, b: State)
    requires
        rescoped(a, inside),
        keeps(inside, end),
        rescoped(end, b),
        same_scopes(a, b),
        forall|k: Seq<char>| #[trigger] a.resolving.contains(k) ==> inside.resolving.contains(k),
    ensures
        keeps(a, b),
        known(a) && known(end) ==> known(b),
{
    reveal(grows);
    reveal(stays);
    reveal(keeps);
    if known(a) && known(end) {
        known_scopes(a, b);
        known_after(end, b);
    }
}

/// What was known stays known where nothing is noted but ids of stored types.
pub proof fn known_after(a: State, b: State)
    requires
        known(a),
        a.types.types.len() <= b.types.types.len(),
        b.type_env == a.type_env || has_values(b, b.type_env),
        b.named_types == a.named_types || has_values(b, b.named_types),
        b.type_map == a.type_map || has_values(b, b.type_map),
        b.subst == a.subst || has_values(b, b.subst),
        b.signatures == a.signatures || forall|k: Seq<char>| #[trigger]
            b.signatures.contains_key(k) ==> has_shape(b, b.signatures[k]),
        b.monos == a.monos || forall|i: int|
            0 <= i < b.monos.len() ==> has(b, (#[trigger] b.monos[i]).ty) && older(
                b.monos[i].args,
                b.monos[i].ty,
            ),
        b.field_scopes == a.field_scopes || forall|i: int|
            0 <= i < b.field_scopes.len() ==> has_all(b, (#[trigger] b.field_scopes[i]).ids),
        b.info_scopes == a.info_scopes || forall|i: int|
            0 <= i < b.info_scopes.len() ==> has_all(b, (#[trigger] b.info_scopes[i]).ids),
        b.context == a.context || (has_maybe(b, b.context.return_type) && has_maybe(
            b,
            b.context.respond_type,
        )),
        b.types.structs == a.types.structs || forall|i: int|
            0 <= i < b.types.structs.len() ==> has_fields(b, (#[trigger] b.types.structs[i]).fields),
        b.types.bitfields == a.types.bitfields || forall|i: int|
            0 <= i < b.types.bitfields.len() ==> has_slots(b, (#[trigger] b.types.bitfields[i]).fields),
        b.types.enums == a.types.enums || forall|i: int|
            0 <= i < b.types.enums.len() ==> has_variants(b, (#[trigger] b.types.enums[i]).variants),
        b.types.machines == a.types.machines || forall|i: int|
            0 <= i < b.types.machines.len() ==> has_states(b, (#[trigger] b.types.machines[i]).states),
        b.types.actors == a.types.actors || forall|i: int|
            0 <= i < b.types.actors.len() ==> has_actor(b, #[trigger] b.types.actors[i]),
    ensures
        known(b),
{
    reveal(known);
    assert(has_values(b, a.type_env));
    assert(has_values(b, a.named_types));
    assert(has_values(b, a.type_map));
    assert(has_values(b, a.subst));
    assert forall|k: Seq<char>| #[trigger] b.signatures.contains_key(k) implies has_shape(
        b,
        b.signatures[k],
    ) by {
        if b.signatures == a.signatures {
            assert(has_shape(a, a.signatures[k]));
        }
    }
    assert forall|i: int| 0 <= i < b.monos.len() implies has(b, (#[trigger] b.monos[i]).ty) && older(
        b.monos[i].args,
        b.monos[i].ty,
    ) by {
        if b.monos == a.monos {
            assert(older(a.monos[i].args, a.monos[i].ty));
        }
    }
    assert forall|i: int| 0 <= i < b.field_scopes.len() implies has_all(
        b,
        (#[trigger] b.field_scopes[i]).ids,
    ) by {
        if b.field_scopes == a.field_scopes {
            assert(has_all(a, a.field_scopes[i].ids));
        }
    }
    assert forall|i: int| 0 <= i < b.info_scopes.len() implies has_all(
        b,
        (#[trigger] b.info_scopes[i]).ids,
    ) by {
        if b.info_scopes == a.info_scopes {
            assert(has_all(a, a.info_scopes[i].ids));
        }
    }
    known_definitions_after(a, b);
}

proof fn known_definitions_after(a: State, b: State)
    requires
        known(a),
        a.types.types.len() <= b.types.types.len(),
    ensures
        forall|i: int|
            0 <= i < a.types.structs.len() ==> has_fields(b, (#[trigger] a.types.structs[i]).fields),
        forall|i: int|
            0 <= i < a.types.bitfields.len() ==> has_slots(b, (#[trigger] a.types.bitfields[i]).fields),
        forall|i: int|
            0 <= i < a.types.enums.len() ==> has_variants(b, (#[trigger] a.types.enums[i]).variants),
        forall|i: int|
            0 <= i < a.types.machines.len() ==> has_states(b, (#[trigger] a.types.machines[i]).states),
        forall|i: int| 0 <= i < a.types.actors.len() ==> has_actor(b, #[trigger] a.types.actors[i]),
{
    reveal(known);
    assert forall|i: int| 0 <= i < a.types.structs.len() implies has_fields(
        b,
        (#[trigger] a.types.structs[i]).fields,
    ) by {
        assert(has_fields(a, a.types.structs[i].fields));
    }
    assert forall|i: int| 0 <= i < a.types.bitfields.len() implies has_slots(
        b,
        (#[trigger] a.types.bitfields[i]).fields,
    ) by {
        assert(has_slots(a, a.types.bitfields[i].fields));
    }
    assert forall|i: int| 0 <= i < a.types.enums.len() implies has_variants(
        b,
        (#[trigger] a.types.enums[i]).variants,
    ) by {
        assert(has_variants(a, a.types.enums[i].variants));
        assert forall|j: int| 0 <= j < a.types.enums[i].variants.len() implies has_fields(
            b,
            (#[trigger] a.types.enums[i].variants[j]).fields,
        ) by {
            assert(has_fields(a, a.types.enums[i].variants[j].fields));
        }
    }
    assert forall|i: int| 0 <= i < a.types.machines.len() implies has_states(
        b,
        (#[trigger] a.types.machines[i]).states,
    ) by {
        assert(has_states(a, a.types.machines[i].states));
        assert forall|j: int| 0 <= j < a.types.machines[i].states.len() implies has_fields(
            b,
            (#[trigger] a.types.machines[i].states[j]).fields,
        ) by {
            assert(has_fields(a, a.types.machines[i].states[j].fields));
        }
    }
    assert forall|i: int| 0 <= i < a.types.actors.len() implies has_actor(b, #[trigger] a.types.actors[i]) by {
        assert(has_actor(a, a.types.actors[i]));
        let messages = a.types.actors[i].messages;
        assert forall|j: int| 0 <= j < messages.len() implies has(b, (#[trigger] messages[j]).responds)
            && has_fields(b, messages[j].params) by {
            assert(has_fields(a, messages[j].params));
        }
    }
}

pub broadcast group group_steady {
    keeps_itself,
    keeps_on,
    keeps_ids,
    keeps_has_all,
    keeps_has_fields,
    known_basics,
}

/// Ids are not given back.
pub broadcast proof fn grows_ids(a: State, b: State)
    requires
        #[trigger] grows(a, b),
    ensures
        a.types.types.len() <= b.types.types.len(),
{
    reveal(grows);
}

pub broadcast group group_growing {
    grows_itself,
    grows_on,
    grows_ids,
    keeping_grows,
}

/// A stored type is not made of a template afterwards.
pub proof fn stays_apart(a: State, b: State, id: TypeId)
    requires
        stays(a, b),
        apart(a, id),
        has(a, id),
    ensures
        apart(b, id),
        ty(b.types, id) == ty(a.types, id),
{
    reveal(stays);
    reveal(grows);
    assert(a.types.types[id as int] == b.types.types[id as int]);
    assert forall|i: int| 0 <= i < b.monos.len() implies (#[trigger] b.monos[i]).ty != id by {
        if i < a.monos.len() {
            assert(a.monos[i] == b.monos[i]);
        }
    }
}

/// Names keep their types.
pub proof fn stays_named(a: State, b: State, name: Seq<char>)
    requires
        stays(a, b),
        a.named_types.contains_key(name),
    ensures
        b.named_types.contains_key(name),
        b.named_types[name] == a.named_types[name],
{
    reveal(stays);
    let (g, h) = (ground(a), ground(b));
    assert(g.named_types.submap_of(h.named_types));
    assert(g.named_types.dom().contains(name));
    assert(h.named_types.dom().contains(name));
    assert(g.named_types[name] == h.named_types[name]);
}

/// What was made of a template stays that.
pub proof fn stays_made(a: State, b: State)
    requires
        stays(a, b),
        made(a),
    ensures
        made(b),
{
    reveal(stays);
}

/// Ids are not given back.
pub broadcast proof fn stays_ids(a: State, b: State)
    requires
        #[trigger] stays(a, b),
    ensures
        a.types.types.len() <= b.types.types.len(),
{
    reveal(stays);
    reveal(grows);
}

pub broadcast group group_staying {
    stays_itself,
    stays_on,
    stays_ids,
    staying_grows,
    keeping_stays,
}

} // verus!
