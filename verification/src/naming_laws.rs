//! What names and numbers stand for.
use vstd::prelude::*;

use crate::ast::{item_file, Expr, FunctionDef, Ident, Item, TypeExpr};
use crate::builtin_calls::{bitfield_call, wrong_type_args};
use crate::check_blocks::forget_target;
use crate::check_calls::{bind_kinds, instance_of, kind_key, Generic};
use crate::expression_laws::has_room;
use crate::names::{
    after_last_dot, before_last_dot, canonical, expr_name, next_place, start_place, PlaceV,
};
use crate::ownership::dotted_name;
use crate::resolution::{
    definition_at, first_dot, full_name, kind_at, last_dot, symbol_name, DefId, DefKind, Names,
};
use crate::signatures::functions_from;
use crate::span::Span;
use crate::state::{forget_facts, State};
use crate::static_eval::written_kind;
use crate::table::look;
use crate::text::{decimal, digit, signed_decimal};
use crate::type_laws::law_stored_types_are_found_again;
use crate::type_walk::{named_ids, slot_ids};
use crate::types::{
    grounded, intern_function, intern_refinement, lemma_basics, shape_grounded, sound, ty,
    BitfieldFieldShapeV, FunctionShapeV, FunctionTypeId, NamedTypeV, RefinementId, RefinementShapeV,
    Type, TypeId, TypeInterner, Types,
};

verus! {

// ---------------------------------------------------------------------------
// Numbers
// ---------------------------------------------------------------------------

/// The number that decimal digits stand for.
pub open spec fn number_of(digits: Seq<char>) -> nat
    decreases digits.len(),
{
    if digits.len() == 0 {
        0
    } else {
        (10 * number_of(digits.drop_last()) + (digits.last() as int - '0' as int)) as nat
    }
}

/// A number is written in digits that stand for it, without a zero in front.
pub proof fn law_numbers_in_digits(n: nat)
    ensures
        number_of(decimal(n)) == n,
        decimal(n).len() > 0,
        forall|i: int| 0 <= i < decimal(n).len() ==> '0' <= #[trigger] decimal(n)[i] <= '9',
        n > 0 ==> decimal(n)[0] != '0',
    decreases n,
{
    if n < 10 {
        assert(decimal(n).drop_last() =~= Seq::empty());
        reveal_with_fuel(number_of, 2);
    } else {
        law_numbers_in_digits(n / 10);
        assert(decimal(n).drop_last() =~= decimal(n / 10));
        assert(decimal(n).last() == digit(n % 10));
        assert(decimal(n)[0] == decimal(n / 10)[0]);
        assert forall|i: int| 0 <= i < decimal(n).len() implies '0' <= #[trigger] decimal(n)[i] <= '9' by {
            if i < decimal(n).len() - 1 {
                assert(decimal(n)[i] == decimal(n / 10)[i]);
            }
        }
    }
}

/// A negative number is written with a sign.
pub proof fn law_negative_numbers(n: int)
    ensures
        n >= 0 ==> signed_decimal(n) == decimal(n as nat),
        n < 0 ==> signed_decimal(n) == "-"@ + decimal((-n) as nat),
{
}

// ---------------------------------------------------------------------------
// Dotted names
// ---------------------------------------------------------------------------

/// A name is cut at its last dot: in front of it stands the owner, behind it the member, which
/// has no dot.
pub proof fn law_names_are_cut_at_the_last_dot(owner: Seq<char>, member: Seq<char>)
    requires
        forall|i: int| 0 <= i < member.len() ==> #[trigger] member[i] != '.',
    ensures
        before_last_dot(owner + "."@ + member) == Some(owner),
        after_last_dot(owner + "."@ + member) == Some(member),
        before_last_dot(member) is None,
        after_last_dot(member) is None,
{
    reveal_strlit(".");
    let name = owner + "."@ + member;
    assert(name[owner.len() as int] == '.');
    last_dot_at(name, owner.len(), name.len());
    assert(name.subrange(0, owner.len() as int) =~= owner);
    assert(name.subrange(owner.len() as int + 1, name.len() as int) =~= member);
    no_dot(member, member.len());
}

proof fn last_dot_at(name: Seq<char>, dot: nat, n: nat)
    requires
        dot < n <= name.len(),
        name[dot as int] == '.',
        forall|i: int| dot < i < n ==> #[trigger] name[i] != '.',
    ensures
        last_dot(name, n) == Some(dot),
    decreases n,
{
    if dot + 1 < n {
        last_dot_at(name, dot, (n - 1) as nat);
    }
}

proof fn no_dot(name: Seq<char>, n: nat)
    requires
        n <= name.len(),
        forall|i: int| 0 <= i < n ==> #[trigger] name[i] != '.',
    ensures
        last_dot(name, n) is None,
    decreases n,
{
    if n > 0 {
        no_dot(name, (n - 1) as nat);
    }
}

/// The first dot of a name is the first.
pub proof fn law_first_dots(name: Seq<char>, i: nat)
    ensures
        match first_dot(name, i) {
            Some(k) => i <= k < name.len() && name[k as int] == '.' && forall|j: int|
                i <= j < k ==> #[trigger] name[j] != '.',
            None => forall|j: int| i <= j < name.len() ==> #[trigger] name[j] != '.',
        },
    decreases name.len() - i,
{
    if i < name.len() {
        law_first_dots(name, i + 1);
    }
}

/// A name stands for what it refers to under the name that was declared. What refers to
/// nothing keeps its name. In a dotted name a namespace alias in front is written out.
pub proof fn law_full_names(names: Names, name: Seq<char>, span: Span)
    ensures
        definition_at(names, span) is None ==> full_name(names, name, span) == name && symbol_name(
            names,
            name,
            span,
        ) == name && kind_at(names, span) is None,
        definition_at(names, span) matches Some(id) ==> (id.0 < names.definitions.len() ==> ({
            let def = names.definitions[id.0 as int];
            &&& symbol_name(names, name, span) == def.name
            &&& kind_at(names, span) == Some(def.kind)
            &&& first_dot(name, 0) is None ==> full_name(names, name, span) == def.name
            &&& first_dot(name, 0) is Some && def.kind != DefKind::Namespace ==> full_name(names, name, span)
                == def.name
            &&& first_dot(name, 0) is Some && def.kind == DefKind::Namespace ==> ({
                let dot = first_dot(name, 0)->0 as int;
                full_name(names, name, span) == if def.name == name.take(dot)
                    && names.namespace_aliases.contains_key(id) {
                    names.namespace_aliases[id] + "."@ + name.skip(dot + 1)
                } else {
                    name
                }
            })
        })),
{
    if first_dot(name, 0) is Some {
        law_first_dots(name, 0);
        let dot = first_dot(name, 0)->0 as int;
        assert(name.take(dot) =~= name.subrange(0, dot));
        assert(name.skip(dot + 1) =~= name.subrange(dot + 1, name.len() as int));
    }
}

/// The name of an expression is that of its variable, or the names of a path with dots between.
pub proof fn law_names_of_expressions(names: Names, ident: Ident, base: Box<Expr>, field: Ident, span: Span)
    ensures
        expr_name(names, Expr::Ident(ident)) == Some(symbol_name(names, ident.name@, ident.span)),
        dotted_name(Expr::Ident(ident)) == Some(ident.name@),
        dotted_name(Expr::FieldAccess(base, field, span)) == match dotted_name(*base) {
            Some(prefix) => Some(prefix + "."@ + field.name@),
            None => None,
        },
        expr_name(names, Expr::FieldAccess(base, field, span)) == match dotted_name(*base) {
            Some(prefix) => Some(full_name(names, prefix + "."@ + field.name@, span)),
            None => None,
        },
{
    reveal_with_fuel(dotted_name, 2);
}

/// A namespace holds from its item on, up to the end of the file.
pub proof fn law_namespaces_hold_to_the_end_of_the_file(p: PlaceV, item: Item)
    ensures
        start_place().namespace is None,
        next_place(p, item).file == Some(item_file(item)),
        item matches Item::Namespace(ns) ==> next_place(p, item).namespace == Some(ns.name.name@),
        !(item is Namespace) && p.file == Some(item_file(item)) ==> next_place(p, item).namespace == p.namespace,
        !(item is Namespace) && p.file is Some && p.file->0 != item_file(item) ==> next_place(p, item).namespace
            is None,
{
}

/// The functions of a module are known by their names in their namespaces; of two of one name
/// it is the later one.
pub proof fn law_functions_by_name(items: Seq<Item>, place: PlaceV, i: nat, found: Map<Seq<char>, FunctionDef>)
    ensures
        i >= items.len() ==> functions_from(items, place, i, found) == found,
        i < items.len() ==> ({
            let here = next_place(place, items[i as int]);
            functions_from(items, place, i, found) == match items[i as int] {
                Item::Function(f) => functions_from(
                    items,
                    here,
                    i + 1,
                    found.insert(canonical(here.namespace, f.name.name@), f),
                ),
                _ => functions_from(items, here, i + 1, found),
            }
        }),
{
    reveal_with_fuel(functions_from, 2);
}

// ---------------------------------------------------------------------------
// Types of functions and refinements, and of the parts of types
// ---------------------------------------------------------------------------

/// The type of a function has the parameters and the result that it was made of, and that of a
/// refinement its name and base.
pub proof fn law_made_types(ts: Types, f: FunctionShapeV, r: RefinementShapeV)
    requires
        sound(ts),
        ts.types.len() < usize::MAX,
        ts.functions.len() < usize::MAX,
        ts.refinements.len() < usize::MAX,
    ensures
        shape_grounded(f, ts.types.len()) ==> ({
            let (after, id) = intern_function(ts, f);
            ty(after, id) matches Type::Function(k) && after.functions[k.0 as int] == f
        }),
        r.base < ts.types.len() ==> ({
            let (after, id) = intern_refinement(ts, r);
            ty(after, id) matches Type::Refinement(k) && after.refinements[k.0 as int] == r
        }),
{
    if shape_grounded(f, ts.types.len()) {
        let more = Types { functions: ts.functions.push(f), ..ts };
        if ts.functions.contains(f) {
            let k = FunctionTypeId(ts.functions.index_of(f) as usize);
            assert(ts.functions[k.0 as int] == f);
            law_stored_types_are_found_again(ts, Type::Function(k));
        } else {
            assert forall|i: int| 0 <= i < more.types.len() implies grounded(
                more,
                #[trigger] more.types[i],
                i as nat,
            ) by {
                assert(grounded(ts, ts.types[i], i as nat));
            }
            assert(more.functions.no_duplicates());
            law_stored_types_are_found_again(
                more,
                Type::Function(FunctionTypeId(ts.functions.len() as usize)),
            );
        }
    }
    if r.base < ts.types.len() {
        let more = Types { refinements: ts.refinements.push(r), ..ts };
        if ts.refinements.contains(r) {
            let k = RefinementId(ts.refinements.index_of(r) as usize);
            assert(ts.refinements[k.0 as int] == r);
            law_stored_types_are_found_again(ts, Type::Refinement(k));
        } else {
            assert forall|i: int| 0 <= i < more.types.len() implies grounded(
                more,
                #[trigger] more.types[i],
                i as nat,
            ) by {
                assert(grounded(ts, ts.types[i], i as nat));
            }
            assert(more.refinements.no_duplicates());
            law_stored_types_are_found_again(
                more,
                Type::Refinement(RefinementId(ts.refinements.len() as usize)),
            );
        }
    }
}

/// The types of fields are those of each field, in their order.
pub proof fn law_types_of_fields(fields: Seq<NamedTypeV>, slots: Seq<BitfieldFieldShapeV>)
    ensures
        named_ids(fields).len() == fields.len(),
        forall|i: int| 0 <= i < fields.len() ==> #[trigger] named_ids(fields)[i] == fields[i].ty,
        slot_ids(slots).len() == slots.len(),
        forall|i: int| 0 <= i < slots.len() ==> #[trigger] slot_ids(slots)[i] == slots[i].ty,
{
}

// ---------------------------------------------------------------------------
// Calls on bitfields
// ---------------------------------------------------------------------------

/// `B.to_bytes` takes a value of the bitfield `B` and gives bytes; `B.from_bytes` takes bytes
/// and gives a `B` or a failure. They take no type arguments.
pub proof fn law_bytes_of_bitfields(
    s: State,
    owner: Seq<char>,
    method: Seq<char>,
    types: Seq<TypeExpr>,
    span: Span,
)
    requires
        has_room(s),
        forall|i: int| 0 <= i < method.len() ==> #[trigger] method[i] != '.',
    ensures
        ({
            let found = bitfield_call(s, owner + "."@ + method, types, span);
            let is_bitfield = s.named_types.contains_key(owner) && ty(s.types, s.named_types[owner]) is Bitfield;
            let id = s.named_types[owner];
            let (after, shape) = found->0;
            &&& found is Some <==> is_bitfield && (method == "to_bytes"@ || method == "from_bytes"@)
            &&& is_bitfield && method == "to_bytes"@ ==> shape.params == seq![id] && shape.return_type
                == TypeInterner::BYTES
            &&& is_bitfield && method == "from_bytes"@ ==> shape.params == seq![TypeInterner::BYTES] && (id
                < s.types.types.len() && types.len() == 0 ==> ty(after.types, shape.return_type)
                == Type::Result(id, TypeInterner::STRING))
            &&& is_bitfield && method == "to_bytes"@ && types.len() == 0 ==> after == s
            &&& is_bitfield && method == "to_bytes"@ && types.len() > 0 ==> after == wrong_type_args(
                s,
                owner + "."@ + method,
                "0 type arguments"@,
                types,
                span,
            )
        }),
{
    law_names_are_cut_at_the_last_dot(owner, method);
    reveal(bitfield_call);
    reveal_strlit("to_bytes");
    reveal_strlit("from_bytes");
    assert("to_bytes"@.len() == 8 && "from_bytes"@.len() == 10);
    lemma_basics(s.types);
    if s.named_types[owner] < s.types.types.len() {
        law_stored_types_are_found_again(s.types, Type::Result(s.named_types[owner], TypeInterner::STRING));
    }
}

// ---------------------------------------------------------------------------
// What is known where generic functions are called
// ---------------------------------------------------------------------------

/// A type parameter is of the kind that its argument is written as, where no later one has its
/// name.
pub proof fn law_kinds_of_type_parameters(
    s: State,
    m: Map<Seq<char>, Seq<char>>,
    params: Seq<Ident>,
    types: Seq<TypeExpr>,
    ids: Seq<TypeId>,
    i: nat,
    k: int,
)
    requires
        params.len() == types.len() == ids.len(),
        i <= k < params.len(),
        forall|j: int| k < j < params.len() ==> (#[trigger] params[j]).name@ != params[k].name@,
    ensures
        bind_kinds(s, m, params, types, ids, i).contains_key(params[k].name@),
        bind_kinds(s, m, params, types, ids, i)[params[k].name@] == written_kind(s, types[k], ids[k]),
    decreases params.len() - i,
{
    let next = m.insert(params[i as int].name@, written_kind(s, types[i as int], ids[i as int]));
    if i < k {
        law_kinds_of_type_parameters(s, next, params, types, ids, i + 1, k);
    } else {
        kind_stays(s, next, params, types, ids, i + 1, params[k].name@);
    }
}

proof fn kind_stays(
    s: State,
    m: Map<Seq<char>, Seq<char>>,
    params: Seq<Ident>,
    types: Seq<TypeExpr>,
    ids: Seq<TypeId>,
    i: nat,
    name: Seq<char>,
)
    requires
        forall|j: int| i <= j < params.len() ==> (#[trigger] params[j]).name@ != name,
        m.contains_key(name),
    ensures
        bind_kinds(s, m, params, types, ids, i).contains_key(name),
        bind_kinds(s, m, params, types, ids, i)[name] == m[name],
    decreases params.len() - i,
{
    if i < params.len() && i < types.len() && i < ids.len() {
        kind_stays(
            s,
            m.insert(params[i as int].name@, written_kind(s, types[i as int], ids[i as int])),
            params,
            types,
            ids,
            i + 1,
            name,
        );
    }
}

/// An instance of a generic function is told by the function, the type arguments, their kinds
/// and what is known of the arguments.
pub proof fn law_instances_are_told_apart(f: FunctionDef, g: Generic, h: Generic)
    requires
        instance_of(f, g) == instance_of(f, h),
    ensures
        g.name == h.name,
        g.args == h.args,
        g.facts == h.facts,
        forall|i: int|
            0 <= i < f.type_params@.len() && g.kinds.contains_key((#[trigger] f.type_params@[i]).name@)
                && h.kinds.contains_key(f.type_params@[i].name@) ==> g.kinds[f.type_params@[i].name@]
                == h.kinds[f.type_params@[i].name@],
{
    reveal(instance_of);
    let params = f.type_params@;
    assert forall|i: int|
        0 <= i < params.len() && g.kinds.contains_key((#[trigger] params[i]).name@) && h.kinds.contains_key(
            params[i].name@,
        ) implies g.kinds[params[i].name@] == h.kinds[params[i].name@] by {
        key_at(params, g.kinds, 0, Seq::empty(), i);
        key_at(params, h.kinds, 0, Seq::empty(), i);
    }
}

proof fn key_at(params: Seq<Ident>, kinds: Map<Seq<char>, Seq<char>>, i: nat, found: Seq<Seq<char>>, k: int)
    requires
        found.len() == i <= params.len(),
    ensures
        kind_key(params, kinds, i, found).len() == params.len(),
        0 <= k < i ==> kind_key(params, kinds, i, found)[k] == found[k],
        i <= k < params.len() && kinds.contains_key(params[k].name@) ==> kind_key(params, kinds, i, found)[k]
            == kinds[params[k].name@],
    decreases params.len() - i,
{
    if i < params.len() {
        let kind = match look(kinds, params[i as int].name@) {
            Some(x) => x,
            None => "unknown_type"@,
        };
        key_at(params, kinds, i + 1, found.push(kind), k);
    }
}

/// Assigning to a variable ends what is known of it; assigning to anything else ends nothing.
pub proof fn law_assigning_ends_what_is_known(s: State, e: Expr)
    ensures
        forget_target(s, e) == match e {
            Expr::Ident(ident) => match definition_at(s.names, ident.span) {
                Some(id) => forget_facts(s, id),
                None => s,
            },
            _ => s,
        },
        forall|id: DefId| s.facts.len() > 0 ==> !(#[trigger] forget_facts(s, id)).facts.last().kind_values.contains_key(
            id,
        ) && !forget_facts(s, id).facts.last().primitive_values.contains_key(id) && !forget_facts(
            s,
            id,
        ).facts.last().info_kinds.contains_key(id),
{
}

} // verus!
