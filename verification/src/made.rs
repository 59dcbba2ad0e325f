//! Generic structs that were made, and what they were made of.
use vstd::prelude::*;

use crate::ast::{FieldDef, StructDef, TypeAlias, TypeExpr};
use crate::resolution::Names;
use crate::state::{MonoV, State};
use crate::steady::{goes_on, ids_last};
use crate::types::{sound, ty, NamedTypeV, StructId, Type, TypeId, Types};
use crate::written_types::{applied_name, bind_params, can_open, mono_named, resolve_at};

verus! {

/// What the type of a written type depends on, besides the type parameters.
pub struct Ground {
    pub names: Names,
    pub aliases: Map<Seq<char>, TypeAlias>,
    pub templates: Map<Seq<char>, StructDef>,
    pub named_types: Map<Seq<char>, TypeId>,
    pub types: Types,
}

pub open spec fn ground(s: State) -> Ground {
    Ground {
        names: s.names,
        aliases: s.aliases,
        templates: s.generic_struct_templates,
        named_types: s.named_types,
        types: s.types,
    }
}

/// Whether `b` is `a` with more types in it, and more names for them.
pub open spec fn before(a: Ground, b: Ground) -> bool {
    &&& a.names == b.names
    &&& a.aliases == b.aliases
    &&& a.templates == b.templates
    &&& a.named_types.submap_of(b.named_types)
    &&& ids_last(a.types, b.types)
}

/// Whether the written type gave `id`, now or before, where names stand for the types
/// in `subst`.
pub open spec fn stands_for(g: Ground, subst: Map<Seq<char>, TypeId>, t: TypeExpr, id: TypeId) -> bool {
    exists|s: State, depth: nat|
        {
            &&& (#[trigger] resolve_at(s, t, depth)).1 == id
            &&& s.subst == subst
            &&& can_open(s, depth)
            &&& before(ground(s), g)
        }
}

/// Whether the fields are the written ones, with their parameters replaced.
#[verifier::opaque]
pub open spec fn filled_in(
    g: Ground,
    subst: Map<Seq<char>, TypeId>,
    defs: Seq<FieldDef>,
    fields: Seq<NamedTypeV>,
) -> bool {
    &&& fields.len() <= defs.len()
    &&& forall|i: int|
        0 <= i < fields.len() ==> (#[trigger] fields[i]).name == defs[i].name.name@ && stands_for(
            g,
            subst,
            defs[i].ty,
            fields[i].ty,
        )
}

/// Whether the text is `name[args]` as the arguments were written when `id` was given
/// out, or later.
pub open spec fn written_for(
    g: Ground,
    id: TypeId,
    text: Seq<char>,
    name: Seq<char>,
    args: Seq<TypeId>,
) -> bool {
    exists|types: Types|
        {
            &&& sound(types)
            &&& ids_last(types, g.types)
            &&& id <= types.types.len()
            &&& text == #[trigger] applied_name(types, name, args)
        }
}

/// Whether the type is the generic struct with these arguments: it is named after
/// them, and its fields are the written ones with the arguments in them.
pub open spec fn is_instance(g: Ground, id: TypeId, name: Seq<char>, args: Seq<TypeId>) -> bool {
    &&& g.templates.contains_key(name)
    &&& g.templates[name].type_params@.len() == args.len()
    &&& ty(g.types, id) matches Type::Struct(sid) && sid.0 < g.types.structs.len() && written_for(
        g,
        id,
        g.types.structs[sid.0 as int].name,
        name,
        args,
    ) && g.types.structs[sid.0 as int].fields.len() == g.templates[name].fields@.len() && filled_in(
        g,
        bind_params(Map::empty(), g.templates[name].type_params@, args, 0),
        g.templates[name].fields@,
        g.types.structs[sid.0 as int].fields,
    )
}

/// Whether every generic struct that was made is an instance of its template.
#[verifier::opaque]
pub open spec fn made_in(g: Ground, monos: Seq<MonoV>) -> bool {
    forall|i: int|
        0 <= i < monos.len() ==> is_instance(g, (#[trigger] monos[i]).ty, monos[i].name, monos[i].args)
}

pub open spec fn made(s: State) -> bool {
    made_in(ground(s), s.monos)
}

/// Whether the type is none that was made of a template.
pub open spec fn apart(s: State, id: TypeId) -> bool {
    forall|i: int| 0 <= i < s.monos.len() ==> (#[trigger] s.monos[i]).ty != id
}

/// Whether what was made between `a` and `b` is new in `b`.
pub open spec fn made_anew(a: State, b: State) -> bool {
    forall|i: int|
        a.monos.len() <= i < b.monos.len() ==> a.types.types.len() <= (#[trigger] b.monos[i]).ty
}

pub proof fn before_on(a: Ground, b: Ground, c: Ground)
    requires
        before(a, b),
        before(b, c),
    ensures
        before(a, c),
{
    assert forall|k: Seq<char>| #[trigger]
        a.named_types.dom().contains(k) implies c.named_types.dom().contains(k) && a.named_types[k]
        == c.named_types[k] by {
        assert(b.named_types.dom().contains(k));
    }
    ids_last_on(a.types, b.types, c.types);
}

pub proof fn ids_last_on(a: Types, b: Types, c: Types)
    requires
        ids_last(a, b),
        ids_last(b, c),
    ensures
        ids_last(a, c),
{
    assert forall|i: int| 0 <= i < a.types.len() implies a.types[i] == #[trigger] c.types[i] by {
        assert(a.types[i] == b.types[i]);
    }
    assert forall|i: int| 0 <= i < a.functions.len() implies a.functions[i] == #[trigger] c.functions[i] by {
        assert(a.functions[i] == b.functions[i]);
    }
    assert forall|i: int| 0 <= i < a.refinements.len() implies a.refinements[i]
        == #[trigger] c.refinements[i] by {
        assert(a.refinements[i] == b.refinements[i]);
    }
}

pub proof fn filled_stays(
    g: Ground,
    h: Ground,
    subst: Map<Seq<char>, TypeId>,
    defs: Seq<FieldDef>,
    fields: Seq<NamedTypeV>,
)
    requires
        filled_in(g, subst, defs, fields),
        before(g, h),
    ensures
        filled_in(h, subst, defs, fields),
{
    reveal(filled_in);
    assert forall|i: int| 0 <= i < fields.len() implies (#[trigger] fields[i]).name == defs[i].name.name@
        && stands_for(h, subst, defs[i].ty, fields[i].ty) by {
        assert(stands_for(g, subst, defs[i].ty, fields[i].ty));
        let (s, depth) = choose|s: State, depth: nat|
            {
                &&& (#[trigger] resolve_at(s, defs[i].ty, depth)).1 == fields[i].ty
                &&& s.subst == subst
                &&& can_open(s, depth)
                &&& before(ground(s), g)
            };
        before_on(ground(s), g, h);
        assert(resolve_at(s, defs[i].ty, depth).1 == fields[i].ty);
    }
}

proof fn instance_stays(g: Ground, h: Ground, id: TypeId, name: Seq<char>, args: Seq<TypeId>)
    requires
        is_instance(g, id, name, args),
        before(g, h),
        ty(g.types, id) matches Type::Struct(sid) && h.types.structs[sid.0 as int]
            == g.types.structs[sid.0 as int],
    ensures
        is_instance(h, id, name, args),
{
    let sid = ty(g.types, id)->Struct_0;
    let shape = g.types.structs[sid.0 as int];
    assert(g.types.types[id as int] == h.types.types[id as int]);
    let types = choose|types: Types|
        {
            &&& sound(types)
            &&& ids_last(types, g.types)
            &&& id <= types.types.len()
            &&& shape.name == #[trigger] applied_name(types, name, args)
        };
    ids_last_on(types, g.types, h.types);
    assert(shape.name == applied_name(types, name, args));
    filled_stays(
        g,
        h,
        bind_params(Map::empty(), g.templates[name].type_params@, args, 0),
        g.templates[name].fields@,
        shape.fields,
    );
}

/// What was made stays what it is where no struct changes.
pub proof fn made_stays(g: Ground, h: Ground, monos: Seq<MonoV>)
    requires
        made_in(g, monos),
        before(g, h),
        goes_on(g.types.structs, h.types.structs),
    ensures
        made_in(h, monos),
{
    reveal(made_in);
    assert forall|i: int| 0 <= i < monos.len() implies is_instance(
        h,
        (#[trigger] monos[i]).ty,
        monos[i].name,
        monos[i].args,
    ) by {
        let sid = ty(g.types, monos[i].ty)->Struct_0;
        assert(g.types.structs[sid.0 as int] == h.types.structs[sid.0 as int]);
        instance_stays(g, h, monos[i].ty, monos[i].name, monos[i].args);
    }
}

/// The same where only a struct changes that was not made of a template.
pub proof fn made_beside(g: Ground, h: Ground, monos: Seq<MonoV>, sid: StructId)
    requires
        made_in(g, monos),
        before(g, h),
        forall|i: int| 0 <= i < monos.len() ==> ty(g.types, (#[trigger] monos[i]).ty) != Type::Struct(sid),
        forall|i: int|
            0 <= i < g.types.structs.len() && i != sid.0 ==> g.types.structs[i]
                == #[trigger] h.types.structs[i],
    ensures
        made_in(h, monos),
{
    reveal(made_in);
    assert forall|i: int| 0 <= i < monos.len() implies is_instance(
        h,
        (#[trigger] monos[i]).ty,
        monos[i].name,
        monos[i].args,
    ) by {
        let other = ty(g.types, monos[i].ty)->Struct_0;
        assert(other != sid);
        assert(g.types.structs[other.0 as int] == h.types.structs[other.0 as int]);
        instance_stays(g, h, monos[i].ty, monos[i].name, monos[i].args);
    }
}

pub proof fn made_with(g: Ground, monos: Seq<MonoV>, m: MonoV)
    requires
        made_in(g, monos),
        is_instance(g, m.ty, m.name, m.args),
    ensures
        made_in(g, monos.push(m)),
{
    reveal(made_in);
    assert forall|i: int| 0 <= i < monos.push(m).len() implies is_instance(
        g,
        (#[trigger] monos.push(m)[i]).ty,
        monos.push(m)[i].name,
        monos.push(m)[i].args,
    ) by {
        if i < monos.len() {
            assert(monos.push(m)[i] == monos[i]);
        }
    }
}

/// What is found for a name and arguments is their instance.
pub proof fn made_is_found(g: Ground, monos: Seq<MonoV>, name: Seq<char>, args: Seq<TypeId>, n: nat)
    requires
        made_in(g, monos),
    ensures
        mono_named(monos, name, args, n) matches Some(id) ==> is_instance(g, id, name, args),
    decreases n,
{
    reveal(made_in);
    if 0 < n <= monos.len() && !(monos[n - 1].name == name && monos[n - 1].args == args) {
        made_is_found(g, monos, name, args, (n - 1) as nat);
    }
}

pub proof fn nothing_made(s: State)
    requires
        s.monos.len() == 0,
    ensures
        made(s),
{
    reveal(made_in);
}

/// Types and structs that are added change nothing of what was made.
pub proof fn types_stay(a: State, b: State)
    requires
        b == (State { types: b.types, ..a }),
        ids_last(a.types, b.types),
        goes_on(a.types.structs, b.types.structs),
    ensures
        before(ground(a), ground(b)),
        made(a) ==> made(b),
{
    if made(a) {
        made_stays(ground(a), ground(b), a.monos);
    }
}

} // verus!
