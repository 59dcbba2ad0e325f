//! Declared types: their names first, then what they hold.
use vstd::prelude::*;

use crate::ast::{
    ActorDef, ActorStateField, BitfieldDef, BitfieldField, BitfieldFieldKind, EnumDef,
    EnumVariantDef, FieldDef, FunctionDecl, Ident, InterfaceDecl, MachineDef, MachineStateDef,
    MachineTransitionDef, Param, ReceiveHandler, StructDef, TypeExpr,
};
use crate::check_rules::{declare, report2, report3};
use crate::diagnostics::{args2, args3, error_after, Diagnostic, ErrorCode};
use crate::made::apart;
use crate::names::{canonical, canonical_name, pure_params};
use crate::reflect_types::{serialize_name, serialized_name};
use crate::reflect_written::{
    any_secret, declared_fields, has_secret_field, named_info, type_expr_info,
};
use crate::reflection::{
    BitfieldFieldInfo, BitfieldFieldInfoV, BitfieldInfo, BitfieldInfoV, FieldInfo, FieldInfoV,
    FieldList, FieldListV, MachineInfo, MachineInfoV, MachineStateInfo, MachineStateInfoV,
    MachineTransitionInfo, MachineTransitionInfoV, TypeInfo, TypeInfoV, VariantInfo, VariantInfoV,
    VariantList, VariantListV,
};
use crate::span::Span;
use crate::state::{intern_type, report, State, TypeChecker};
use crate::steady::{
    grows, has, has_fields, has_messages, has_slots, has_states, has_variants, known, stays,
    stays_apart,
};
use crate::table::{look, views};
use crate::text::{join3, maybe_text, signed_decimal, signed_decimal_text, text};
use crate::types::{
    put_at, state_named, ty, ActorId, ActorMessageShape, ActorMessageShapeV, ActorShape,
    ActorShapeV, BitfieldFieldShape, BitfieldFieldShapeV, BitfieldId, BitfieldShape,
    BitfieldShapeV, BitfieldSlot, EnumId, EnumShape, EnumShapeV, FunctionSig, FunctionSigV,
    InterfaceId, InterfaceShape, InterfaceShapeV, MachineId, MachineShape, MachineShapeV,
    MachineStateShape, MachineStateShapeV, MachineTransition, NamedType, NamedTypeV, StructId,
    StructShape, StructShapeV, Type, TypeId, TypeInterner, Types, VariantShape, VariantShapeV,
};
use crate::written_types::{
    methods_at, nesting, resolve_fields, resolve_params, resolve_return, resolve_type,
};

verus! {

broadcast use {
    crate::steady::group_growing,
    crate::steady::group_staying,
    crate::steady::group_steady,
};

// ---------------------------------------------------------------------------
// Names
// ---------------------------------------------------------------------------

/// Makes a declared type known by its full name, and as trusted where it is
/// declared in a file shipped with the compiler.
pub open spec fn announce(s: State, name: Seq<char>, span: Span, id: TypeId) -> State {
    declare(
        State {
            named_types: s.named_types.insert(name, id),
            trusted_types: if span.file.stdlib() {
                s.trusted_types.insert(name, id)
            } else {
                s.trusted_types
            },
            ..s
        },
        span,
        id,
    )
}

/// The place of the last field before `n` that is written out under `name`.
pub open spec fn last_serialized(fields: Seq<FieldDef>, name: Seq<char>, n: nat) -> Option<Span>
    decreases n,
{
    if n == 0 {
        None
    } else if serialized_name(fields[n - 1]) == name {
        Some(fields[n - 1].span)
    } else {
        last_serialized(fields, name, (n - 1) as nat)
    }
}

/// Reports the fields from `i` on that are written out under the name of an
/// earlier one.
pub open spec fn serialize_names(s: State, owner: Seq<char>, fields: Seq<FieldDef>, i: nat) -> State
    decreases fields.len() - i,
{
    if i >= fields.len() {
        s
    } else {
        let name = serialized_name(fields[i as int]);
        let s1 = match last_serialized(fields, name, i) {
            Some(earlier) => report(
                s,
                error_after(
                    ErrorCode::DuplicateJsonSerializeName,
                    fields[i as int].span,
                    seq![owner, name],
                    earlier,
                ),
            ),
            None => s,
        };
        serialize_names(s1, owner, fields, i + 1)
    }
}

pub open spec fn predeclare_struct(s: State, def: StructDef, namespace: Option<Seq<char>>) -> State {
    let name = canonical(namespace, def.name.name@);
    let s0 = serialize_names(s, name, def.fields@, 0);
    if def.type_params@.len() > 0 {
        State { generic_struct_templates: s0.generic_struct_templates.insert(name, def), ..s0 }
    } else {
        let id = StructId(s0.types.structs.len() as usize);
        let shape = StructShapeV { name, fields: Seq::empty(), methods: Seq::empty() };
        let (s1, t) = intern_type(
            State { types: Types { structs: s0.types.structs.push(shape), ..s0.types }, ..s0 },
            Type::Struct(id),
        );
        announce(s1, name, def.name.span, t)
    }
}

pub open spec fn predeclare_interface(s: State, def: InterfaceDecl, namespace: Option<Seq<char>>) -> State {
    let name = canonical(namespace, def.name.name@);
    let id = InterfaceId(s.types.interfaces.len() as usize);
    let shape = InterfaceShapeV { name, methods: Seq::empty() };
    let (s1, t) = intern_type(
        State { types: Types { interfaces: s.types.interfaces.push(shape), ..s.types }, ..s },
        Type::Interface(id),
    );
    announce(s1, name, def.name.span, t)
}

pub open spec fn predeclare_bitfield(s: State, def: BitfieldDef, namespace: Option<Seq<char>>) -> State {
    let name = canonical(namespace, def.name.name@);
    let id = BitfieldId(s.types.bitfields.len() as usize);
    let shape = BitfieldShapeV { name, network_order: def.network_order, fields: Seq::empty() };
    let (s1, t) = intern_type(
        State { types: Types { bitfields: s.types.bitfields.push(shape), ..s.types }, ..s },
        Type::Bitfield(id),
    );
    announce(s1, name, def.name.span, t)
}

pub open spec fn predeclare_enum(s: State, def: EnumDef, namespace: Option<Seq<char>>) -> State {
    let name = canonical(namespace, def.name.name@);
    let id = EnumId(s.types.enums.len() as usize);
    let shape = EnumShapeV { name, variants: Seq::empty() };
    let (s1, t) = intern_type(
        State { types: Types { enums: s.types.enums.push(shape), ..s.types }, ..s },
        Type::Enum(id),
    );
    announce(s1, name, def.name.span, t)
}

pub open spec fn predeclare_machine(s: State, def: MachineDef, namespace: Option<Seq<char>>) -> State {
    let name = canonical(namespace, def.name.name@);
    let id = MachineId(s.types.machines.len() as usize);
    let shape = MachineShapeV { name, states: Seq::empty(), transitions: Seq::empty() };
    let (s1, t) = intern_type(
        State { types: Types { machines: s.types.machines.push(shape), ..s.types }, ..s },
        Type::Machine(id),
    );
    announce(s1, name, def.name.span, t)
}

pub open spec fn predeclare_actor(s: State, def: ActorDef, namespace: Option<Seq<char>>) -> State {
    let name = canonical(namespace, def.name.name@);
    let id = ActorId(s.types.actors.len() as usize);
    let shape = ActorShapeV {
        name,
        capability_params: Seq::empty(),
        state_fields: Seq::empty(),
        messages: Seq::empty(),
    };
    let (s1, t) = intern_type(
        State { types: Types { actors: s.types.actors.push(shape), ..s.types }, ..s },
        Type::Actor(id),
    );
    announce(s1, name, def.name.span, t)
}

// ---------------------------------------------------------------------------
// Structs and interfaces
// ---------------------------------------------------------------------------

/// The declared type of a name.
pub open spec fn declared_type(s: State, name: Seq<char>) -> Option<Type> {
    match look(s.named_types, name) {
        Some(id) => Some(ty(s.types, id)),
        None => None,
    }
}

/// A struct that is not generic gets its fields and methods.
pub open spec fn finish_struct(s: State, def: StructDef, namespace: Option<Seq<char>>) -> State {
    let name = canonical(namespace, def.name.name@);
    if def.type_params@.len() > 0 {
        s
    } else {
        match declared_type(s, name) {
            Some(Type::Struct(sid)) => {
                let id = s.named_types[name];
                let (s1, fields) = resolve_fields(s, def.fields);
                let (s2, infos) = declared_fields(
                    s1,
                    def.fields@,
                    fields,
                    namespace,
                    0,
                    Seq::empty(),
                );
                let s3 = State {
                    reflection_fields: s2.reflection_fields.insert(
                        id,
                        FieldListV { owner: name, fields: infos },
                    ),
                    ..s2
                };
                let (s4, methods) = methods_at(s3, def.methods, 0, Seq::empty(), nesting());
                let shape = StructShapeV { name, fields, methods };
                State {
                    types: Types { structs: put_at(s4.types.structs, sid.0, shape), ..s4.types },
                    ..s4
                }
            },
            _ => s,
        }
    }
}

/// The signature of a function without a body.
pub open spec fn decl_signature(s: State, f: FunctionDecl) -> (State, FunctionSigV) {
    let (s1, params) = resolve_params(s, f.params);
    let (s2, ret) = resolve_return(s1, f.return_type);
    (
        s2,
        FunctionSigV {
            name: f.name.name@,
            params,
            return_type: ret,
            is_pure: pure_params(s2.names, f.params@),
        },
    )
}

pub open spec fn decl_signatures(s: State, fs: Seq<FunctionDecl>, i: nat, found: Seq<FunctionSigV>) -> (
    State,
    Seq<FunctionSigV>,
)
    decreases fs.len() - i,
{
    if i >= fs.len() {
        (s, found)
    } else {
        let (s1, sig) = decl_signature(s, fs[i as int]);
        decl_signatures(s1, fs, i + 1, found.push(sig))
    }
}

pub open spec fn finish_interface(s: State, def: InterfaceDecl, namespace: Option<Seq<char>>) -> State {
    let name = canonical(namespace, def.name.name@);
    match declared_type(s, name) {
        Some(Type::Interface(iid)) => {
            let (s1, methods) = decl_signatures(s, def.methods@, 0, Seq::empty());
            let shape = InterfaceShapeV { name, methods };
            State {
                types: Types { interfaces: put_at(s1.types.interfaces, iid.0, shape), ..s1.types },
                ..s1
            }
        },
        _ => s,
    }
}

// ---------------------------------------------------------------------------
// Bitfields
// ---------------------------------------------------------------------------

pub open spec fn bad_slot(s: State, owner: Seq<char>, field: BitfieldField, why: Seq<char>) -> State {
    report3(s, ErrorCode::InvalidBitfieldField, field.span, owner, field.name.name@, why)
}

pub open spec fn bad_slot_if(s: State, bad: bool, owner: Seq<char>, field: BitfieldField, why: Seq<char>) -> State {
    if bad {
        bad_slot(s, owner, field, why)
    } else {
        s
    }
}

/// Whether some variant has fields.
pub open spec fn carries_fields(variants: Seq<VariantShapeV>) -> bool {
    exists|i: int| 0 <= i < variants.len() && (#[trigger] variants[i]).fields.len() > 0
}

/// The greatest discriminant of the first `n` variants, of none 0.
pub open spec fn greatest(variants: Seq<VariantShapeV>, n: nat) -> int
    decreases n,
{
    if n == 0 {
        0
    } else {
        let d = variants[n - 1].discriminant as int;
        if n == 1 || d >= greatest(variants, (n - 1) as nat) {
            d
        } else {
            greatest(variants, (n - 1) as nat)
        }
    }
}

/// Whether a discriminant can be held in `width` bits. Those that are not
/// negative take 63 at most.
pub open spec fn fits(d: int, width: nat) -> bool {
    0 <= d && (width >= 63 || d < vstd::arithmetic::power2::pow2(width))
}

/// An `as` annotation names an enum of plain variants that fit.
pub open spec fn slot_enum(s: State, owner: Seq<char>, field: BitfieldField, id: TypeId, width: u16) -> State {
    if id == TypeInterner::ERROR {
        s
    } else {
        match ty(s.types, id) {
            Type::Enum(eid) => {
                let variants = s.types.enums[eid.0 as int].variants;
                let s1 = bad_slot_if(
                    s,
                    carries_fields(variants),
                    owner,
                    field,
                    "`as` annotations require an enum with only unit variants"@,
                );
                bad_slot_if(
                    s1,
                    !fits(greatest(variants, variants.len()), width as nat),
                    owner,
                    field,
                    "enum annotation has a discriminant that does not fit in the declared bit width"@,
                )
            },
            _ => bad_slot(s, owner, field, "`as` annotations must name an enum type"@),
        }
    }
}

/// A slot of `width` bits.
pub open spec fn bits_slot(
    s: State,
    owner: Seq<char>,
    field: BitfieldField,
    width: u16,
    as_type: Option<TypeExpr>,
) -> (State, TypeId) {
    let s1 = if width == 0 {
        bad_slot(s, owner, field, "bit width must be at least 1"@)
    } else {
        bad_slot_if(s, width > 64, owner, field, "bit width must be at most 64"@)
    };
    match as_type {
        Some(t) => {
            let (s2, id) = resolve_type(s1, t);
            (slot_enum(s2, owner, field, id, width), id)
        },
        None => (
            s1,
            if width == 64 {
                TypeInterner::UINT64
            } else {
                TypeInterner::INT64
            },
        ),
    }
}

/// The payload comes last, on a byte boundary, as a list of bytes.
pub open spec fn payload_slot(
    s: State,
    owner: Seq<char>,
    field: BitfieldField,
    t: TypeExpr,
    bytes: TypeId,
    last: bool,
    bits: nat,
) -> (State, TypeId) {
    let (s1, id) = resolve_type(s, t);
    let s2 = bad_slot_if(
        s1,
        id != TypeInterner::ERROR && id != bytes,
        owner,
        field,
        "payload fields must have type `list[uint8]`"@,
    );
    let s3 = bad_slot_if(s2, !last, owner, field, "payload fields must be the final field"@);
    let s4 = bad_slot_if(
        s3,
        bits % 8 != 0,
        owner,
        field,
        "payload fields must start on a byte boundary"@,
    );
    (s4, id)
}

/// The slots from `i` on, after `bits` bits.
pub open spec fn slots_from(
    s: State,
    owner: Seq<char>,
    fields: Seq<BitfieldField>,
    bytes: TypeId,
    bits: nat,
    i: nat,
    found: Seq<BitfieldFieldShapeV>,
) -> (State, Seq<BitfieldFieldShapeV>)
    decreases fields.len() - i,
{
    if i >= fields.len() {
        (s, found)
    } else {
        let field = fields[i as int];
        let (s1, id, kind, wide) = match field.kind {
            BitfieldFieldKind::Bits { width, as_type } => {
                let (s1, id) = bits_slot(s, owner, field, width, as_type);
                (s1, id, BitfieldSlot::Bits { width }, width as nat)
            },
            BitfieldFieldKind::Payload(t) => {
                let (s1, id) = payload_slot(s, owner, field, t, bytes, i + 1 == fields.len(), bits);
                (s1, id, BitfieldSlot::Payload, 0)
            },
        };
        let slot = BitfieldFieldShapeV { name: field.name.name@, ty: id, kind };
        slots_from(s1, owner, fields, bytes, bits + wide, i + 1, found.push(slot))
    }
}

/// What is told of the type of a slot.
pub open spec fn slot_info(s: State, field: BitfieldField, namespace: Option<Seq<char>>, id: TypeId) -> (
    State,
    TypeInfoV,
) {
    match field.kind {
        BitfieldFieldKind::Bits { width, as_type } => match as_type {
            Some(t) => type_expr_info(s, t, namespace, id),
            None => named_info(
                s,
                if width == 64 {
                    "uint64"@
                } else {
                    "int64"@
                },
                field.span,
                namespace,
                id,
            ),
        },
        BitfieldFieldKind::Payload(t) => type_expr_info(s, t, namespace, id),
    }
}

/// What is told of the slots from `i` on, as fields.
pub open spec fn slot_fields(
    s: State,
    fields: Seq<BitfieldField>,
    slots: Seq<BitfieldFieldShapeV>,
    namespace: Option<Seq<char>>,
    i: nat,
    found: Seq<FieldInfoV>,
) -> (State, Seq<FieldInfoV>)
    decreases fields.len() - i,
{
    if i >= fields.len() || i >= slots.len() {
        (s, found)
    } else {
        let (s1, type_info) = slot_info(s, fields[i as int], namespace, slots[i as int].ty);
        let name = fields[i as int].name.name@;
        let field = FieldInfoV { index: i as usize, name, serialize_name: name, type_info };
        slot_fields(s1, fields, slots, namespace, i + 1, found.push(field))
    }
}

/// What is told of the layout of a slot.
pub open spec fn slot_layout(
    s: State,
    field: BitfieldField,
    namespace: Option<Seq<char>>,
    id: TypeId,
    index: nat,
) -> (State, BitfieldFieldInfoV) {
    let (s1, type_info) = slot_info(s, field, namespace, id);
    let (s2, shape, width, enum_type) = match field.kind {
        BitfieldFieldKind::Bits { width, as_type } => match as_type {
            Some(t) => {
                let (s2, e) = resolve_type(s1, t);
                let (s3, info) = type_expr_info(s2, t, namespace, e);
                (s3, "bits"@, width as i64, Some(info))
            },
            None => (s1, "bits"@, width as i64, None),
        },
        BitfieldFieldKind::Payload(_) => (s1, "payload"@, 0i64, None),
    };
    (
        s2,
        BitfieldFieldInfoV {
            index: index as usize,
            name: field.name.name@,
            shape,
            width,
            type_info,
            enum_type,
        },
    )
}

pub open spec fn slot_layouts(
    s: State,
    fields: Seq<BitfieldField>,
    slots: Seq<BitfieldFieldShapeV>,
    namespace: Option<Seq<char>>,
    i: nat,
    found: Seq<BitfieldFieldInfoV>,
) -> (State, Seq<BitfieldFieldInfoV>)
    decreases fields.len() - i,
{
    if i >= fields.len() || i >= slots.len() {
        (s, found)
    } else {
        let (s1, slot) = slot_layout(s, fields[i as int], namespace, slots[i as int].ty, i);
        slot_layouts(s1, fields, slots, namespace, i + 1, found.push(slot))
    }
}

pub open spec fn finish_bitfield(s: State, def: BitfieldDef, namespace: Option<Seq<char>>) -> State {
    let name = canonical(namespace, def.name.name@);
    match declared_type(s, name) {
        Some(Type::Bitfield(bid)) => {
            let id = s.named_types[name];
            let fields = def.fields@;
            let (s1, bytes) = intern_type(s, Type::List(TypeInterner::UINT8));
            let (s2, slots) = slots_from(s1, def.name.name@, fields, bytes, 0, 0, Seq::empty());
            let (s3, infos) = slot_fields(s2, fields, slots, namespace, 0, Seq::empty());
            let (s4, layout) = slot_layouts(s3, fields, slots, namespace, 0, Seq::empty());
            let shape = BitfieldShapeV { name, network_order: def.network_order, fields: slots };
            State {
                reflection_fields: s4.reflection_fields.insert(
                    id,
                    FieldListV { owner: name, fields: infos },
                ),
                reflection_bitfields: s4.reflection_bitfields.insert(
                    id,
                    BitfieldInfoV { owner: name, network_order: def.network_order, fields: layout },
                ),
                types: Types { bitfields: put_at(s4.types.bitfields, bid.0, shape), ..s4.types },
                ..s4
            }
        },
        _ => s,
    }
}

// ---------------------------------------------------------------------------
// Enums
// ---------------------------------------------------------------------------

/// The number after `d`, or `d` where there is none.
pub open spec fn next_number(d: i64) -> i64 {
    if d == i64::MAX {
        d
    } else {
        (d + 1) as i64
    }
}

/// The place of the last of the first `n` variants that has the discriminant.
pub open spec fn last_numbered(
    defs: Seq<EnumVariantDef>,
    found: Seq<VariantShapeV>,
    d: i64,
    n: nat,
) -> Option<Span>
    decreases n,
{
    if n == 0 {
        None
    } else if found[n - 1].discriminant == d {
        Some(defs[n - 1].name.span)
    } else {
        last_numbered(defs, found, d, (n - 1) as nat)
    }
}

/// A variant, where `next` is the number after that of the variant before it.
pub open spec fn variant_at(
    s: State,
    owner: Seq<char>,
    defs: Seq<EnumVariantDef>,
    next: i64,
    found: Seq<VariantShapeV>,
) -> (State, VariantShapeV) {
    let def = defs[found.len() as int];
    let name = def.name.name@;
    let s1 = if def.discriminant is Some && def.fields@.len() > 0 {
        report2(s, ErrorCode::EnumDiscriminantRequiresUnitVariant, def.span, owner, name)
    } else {
        s
    };
    let discriminant = match def.discriminant {
        Some(d) => d,
        None => next,
    };
    let s2 = match last_numbered(defs, found, discriminant, found.len()) {
        Some(earlier) => report(
            s1,
            error_after(
                ErrorCode::DuplicateEnumDiscriminant,
                def.name.span,
                seq![owner, name, signed_decimal(discriminant as int)],
                earlier,
            ),
        ),
        None => s1,
    };
    let (s3, fields) = resolve_fields(s2, def.fields);
    (s3, VariantShapeV { name, fields, discriminant })
}

pub open spec fn variants_from(
    s: State,
    owner: Seq<char>,
    defs: Seq<EnumVariantDef>,
    next: i64,
    found: Seq<VariantShapeV>,
) -> (State, Seq<VariantShapeV>)
    decreases defs.len() - found.len(),
{
    if found.len() >= defs.len() {
        (s, found)
    } else {
        let (s1, v) = variant_at(s, owner, defs, next, found);
        variants_from(s1, owner, defs, next_number(v.discriminant), found.push(v))
    }
}

pub open spec fn variant_infos(
    s: State,
    defs: Seq<EnumVariantDef>,
    variants: Seq<VariantShapeV>,
    namespace: Option<Seq<char>>,
    i: nat,
    found: Seq<VariantInfoV>,
) -> (State, Seq<VariantInfoV>)
    decreases defs.len() - i,
{
    if i >= defs.len() || i >= variants.len() {
        (s, found)
    } else {
        let def = defs[i as int];
        let v = variants[i as int];
        let (s1, fields) = declared_fields(s, def.fields@, v.fields, namespace, 0, Seq::empty());
        let info = VariantInfoV {
            index: i as usize,
            name: def.name.name@,
            discriminant: v.discriminant,
            has_secret: any_secret(fields),
            fields,
        };
        variant_infos(s1, defs, variants, namespace, i + 1, found.push(info))
    }
}

pub open spec fn finish_enum(s: State, def: EnumDef, namespace: Option<Seq<char>>) -> State {
    let name = canonical(namespace, def.name.name@);
    match declared_type(s, name) {
        Some(Type::Enum(eid)) => {
            let id = s.named_types[name];
            let (s1, variants) = variants_from(s, def.name.name@, def.variants@, 0, Seq::empty());
            let (s2, infos) = variant_infos(s1, def.variants@, variants, namespace, 0, Seq::empty());
            let shape = EnumShapeV { name, variants };
            State {
                reflection_variants: s2.reflection_variants.insert(
                    id,
                    VariantListV { owner: name, variants: infos },
                ),
                types: Types { enums: put_at(s2.types.enums, eid.0, shape), ..s2.types },
                ..s2
            }
        },
        _ => s,
    }
}

// ---------------------------------------------------------------------------
// Machines
// ---------------------------------------------------------------------------

/// The place of the first state before `i` with the name of state `i`, from `j`
/// on.
pub open spec fn earlier_state(defs: Seq<MachineStateDef>, i: nat, j: nat) -> Option<Span>
    decreases i - j,
{
    if j >= i {
        None
    } else if defs[j as int].name.name@ == defs[i as int].name.name@ {
        Some(defs[j as int].name.span)
    } else {
        earlier_state(defs, i, j + 1)
    }
}

/// The states from `i` on, without those whose name is taken.
pub open spec fn states_from(
    s: State,
    owner: Seq<char>,
    defs: Seq<MachineStateDef>,
    namespace: Option<Seq<char>>,
    i: nat,
    found: Seq<MachineStateShapeV>,
    infos: Seq<MachineStateInfoV>,
) -> (State, Seq<MachineStateShapeV>, Seq<MachineStateInfoV>)
    decreases defs.len() - i,
{
    if i >= defs.len() {
        (s, found, infos)
    } else {
        let def = defs[i as int];
        let name = def.name.name@;
        match earlier_state(defs, i, 0) {
            Some(earlier) => states_from(
                report(
                    s,
                    error_after(
                        ErrorCode::DuplicateMachineState,
                        def.name.span,
                        seq![owner, name],
                        earlier,
                    ),
                ),
                owner,
                defs,
                namespace,
                i + 1,
                found,
                infos,
            ),
            None => {
                let (s1, fields) = resolve_fields(s, def.fields);
                let (s2, told) = declared_fields(
                    s1,
                    def.fields@,
                    fields,
                    namespace,
                    0,
                    Seq::empty(),
                );
                let info = MachineStateInfoV {
                    index: found.len() as usize,
                    name,
                    has_secret: any_secret(told),
                    fields: told,
                };
                states_from(
                    s2,
                    owner,
                    defs,
                    namespace,
                    i + 1,
                    found.push(MachineStateShapeV { name, fields }),
                    infos.push(info),
                )
            },
        }
    }
}

pub open spec fn unknown_state(s: State, owner: Seq<char>, t: MachineTransitionDef, source: bool) -> State {
    let state = if source {
        t.from
    } else {
        t.to
    };
    report3(
        s,
        ErrorCode::InvalidMachineTransition,
        state.span,
        owner,
        t.from.name@ + " to "@ + t.to.name@,
        (if source {
            "unknown source state `"@
        } else {
            "unknown target state `"@
        }) + state.name@ + "`"@,
    )
}

/// The transitions from `i` on, without those between unknown states.
pub open spec fn transitions_from(
    s: State,
    defs: Seq<MachineTransitionDef>,
    i: nat,
    m: MachineShapeV,
    infos: Seq<MachineTransitionInfoV>,
) -> (State, MachineShapeV, Seq<MachineTransitionInfoV>)
    decreases defs.len() - i,
{
    if i >= defs.len() {
        (s, m, infos)
    } else {
        let def = defs[i as int];
        let from = state_named(m, def.from.name@);
        let to = state_named(m, def.to.name@);
        if from is None {
            transitions_from(unknown_state(s, m.name, def, true), defs, i + 1, m, infos)
        } else if to is None {
            transitions_from(unknown_state(s, m.name, def, false), defs, i + 1, m, infos)
        } else {
            let info = MachineTransitionInfoV {
                index: m.transitions.len() as usize,
                source_index: (from->0).0,
                source: def.from.name@,
                target_index: (to->0).0,
                target: def.to.name@,
            };
            let step = MachineTransition { from: from->0, to: to->0 };
            let m1 = MachineShapeV { transitions: m.transitions.push(step), ..m };
            transitions_from(s, defs, i + 1, m1, infos.push(info))
        }
    }
}

pub open spec fn finish_machine(s: State, def: MachineDef, namespace: Option<Seq<char>>) -> State {
    let name = canonical(namespace, def.name.name@);
    match declared_type(s, name) {
        Some(Type::Machine(mid)) => {
            let id = s.named_types[name];
            let (s1, states, state_infos) = states_from(
                s,
                name,
                def.states@,
                namespace,
                0,
                Seq::empty(),
                Seq::empty(),
            );
            let bare = MachineShapeV { name, states, transitions: Seq::empty() };
            let (s2, shape, transitions) = transitions_from(
                s1,
                def.transitions@,
                0,
                bare,
                Seq::empty(),
            );
            State {
                reflection_machines: s2.reflection_machines.insert(
                    id,
                    MachineInfoV { owner: name, states: state_infos, transitions },
                ),
                types: Types { machines: put_at(s2.types.machines, mid.0, shape), ..s2.types },
                ..s2
            }
        },
        _ => s,
    }
}

// ---------------------------------------------------------------------------
// Actors
// ---------------------------------------------------------------------------

/// The names and types of parameters from `i` on.
pub open spec fn named_params(s: State, params: Seq<Param>, i: nat, found: Seq<NamedTypeV>) -> (
    State,
    Seq<NamedTypeV>,
)
    decreases params.len() - i,
{
    if i >= params.len() {
        (s, found)
    } else {
        let p = params[i as int];
        let (s1, id) = resolve_type(s, p.ty);
        named_params(s1, params, i + 1, found.push(NamedTypeV { name: p.name.name@, ty: id }))
    }
}

/// The names and types of state fields from `i` on.
pub open spec fn named_states(s: State, fields: Seq<ActorStateField>, i: nat, found: Seq<NamedTypeV>) -> (
    State,
    Seq<NamedTypeV>,
)
    decreases fields.len() - i,
{
    if i >= fields.len() {
        (s, found)
    } else {
        let f = fields[i as int];
        let (s1, id) = resolve_type(s, f.ty);
        named_states(s1, fields, i + 1, found.push(NamedTypeV { name: f.name.name@, ty: id }))
    }
}

/// The messages of handlers from `i` on.
pub open spec fn messages_from(
    s: State,
    handlers: Seq<ReceiveHandler>,
    i: nat,
    found: Seq<ActorMessageShapeV>,
) -> (State, Seq<ActorMessageShapeV>)
    decreases handlers.len() - i,
{
    if i >= handlers.len() {
        (s, found)
    } else {
        let h = handlers[i as int];
        let (s1, params) = named_params(s, h.params@, 0, Seq::empty());
        let (s2, responds) = resolve_return(s1, h.responds);
        let message = ActorMessageShapeV { name: h.name.name@, params, responds };
        messages_from(s2, handlers, i + 1, found.push(message))
    }
}

pub open spec fn finish_actor(s: State, def: ActorDef, namespace: Option<Seq<char>>) -> State {
    let name = canonical(namespace, def.name.name@);
    match declared_type(s, name) {
        Some(Type::Actor(aid)) => {
            let (s1, capability_params) = named_params(
                s,
                def.capability_params@,
                0,
                Seq::empty(),
            );
            let (s2, state_fields) = named_states(s1, def.state_fields@, 0, Seq::empty());
            let (s3, messages) = messages_from(s2, def.handlers@, 0, Seq::empty());
            let shape = ActorShapeV { name, capability_params, state_fields, messages };
            State {
                types: Types { actors: put_at(s3.types.actors, aid.0, shape), ..s3.types },
                ..s3
            }
        },
        _ => s,
    }
}

fn find_last_serialized(fields: &Vec<FieldDef>, name: &String, n: usize) -> (r: Option<Span>)
    requires
        n <= fields@.len(),
    ensures
        r == last_serialized(fields@, name@, n as nat),
{
    let mut k: usize = n;
    while k > 0
        invariant
            k <= n <= fields@.len(),
            last_serialized(fields@, name@, n as nat) == last_serialized(fields@, name@, k as nat),
        decreases k,
    {
        if serialize_name(&fields[k - 1]) == *name {
            return Some(fields[k - 1].span);
        }
        k = k - 1;
    }
    None
}

fn any_carries_fields(variants: &Vec<VariantShape>) -> (r: bool)
    ensures
        r == carries_fields(views(variants@)),
{
    let ghost vs = views(variants@);
    let mut i: usize = 0;
    while i < variants.len()
        invariant
            i <= variants@.len(),
            vs == views(variants@),
            forall|j: int| 0 <= j < i ==> (#[trigger] vs[j]).fields.len() == 0,
        decreases variants@.len() - i,
    {
        assert(vs[i as int] == variants@[i as int]@);
        if variants[i].fields.len() > 0 {
            assert(vs[i as int].fields.len() > 0);
            return true;
        }
        i = i + 1;
    }
    false
}

fn greatest_discriminant(variants: &Vec<VariantShape>) -> (r: i64)
    ensures
        r == greatest(views(variants@), variants@.len()),
{
    let ghost vs = views(variants@);
    let mut r: i64 = 0;
    let mut i: usize = 0;
    while i < variants.len()
        invariant
            i <= variants@.len(),
            vs == views(variants@),
            r == greatest(vs, i as nat),
        decreases variants@.len() - i,
    {
        assert(vs[i as int] == variants@[i as int]@);
        let d: i64 = variants[i].discriminant;
        if i == 0 || d >= r {
            r = d;
        }
        i = i + 1;
    }
    r
}

fn fits_width(d: i64, width: u16) -> (r: bool)
    ensures
        r == fits(d as int, width as nat),
{
    if d < 0 {
        return false;
    }
    if width >= 63 {
        return true;
    }
    let mut bound: i64 = 1;
    let mut i: u16 = 0;
    proof {
        vstd::arithmetic::power2::lemma2_to64();
        vstd::arithmetic::power2::lemma_pow2_adds(31, 31);
    }
    while i < width
        invariant
            i <= width < 63,
            bound == vstd::arithmetic::power2::pow2(i as nat),
            vstd::arithmetic::power2::pow2(62) == 0x4000_0000_0000_0000,
        decreases width - i,
    {
        proof {
            vstd::arithmetic::power2::lemma_pow2_unfold((i + 1) as nat);
            if i + 1 < 62 {
                vstd::arithmetic::power2::lemma_pow2_strictly_increases((i + 1) as nat, 62);
            }
        }
        bound = bound * 2;
        i = i + 1;
    }
    d < bound
}

fn find_last_numbered(
    defs: &Vec<EnumVariantDef>,
    found: &Vec<VariantShape>,
    d: i64,
) -> (r: Option<Span>)
    requires
        found@.len() <= defs@.len(),
    ensures
        r == last_numbered(defs@, views(found@), d, found@.len()),
{
    let ghost vs = views(found@);
    let mut k: usize = found.len();
    while k > 0
        invariant
            k <= found@.len() <= defs@.len(),
            vs == views(found@),
            last_numbered(defs@, vs, d, found@.len()) == last_numbered(defs@, vs, d, k as nat),
        decreases k,
    {
        assert(vs[k - 1] == found@[k - 1]@);
        if found[k - 1].discriminant == d {
            return Some(defs[k - 1].name.span);
        }
        k = k - 1;
    }
    None
}

fn find_earlier_state(defs: &Vec<MachineStateDef>, i: usize) -> (r: Option<Span>)
    requires
        i < defs@.len(),
    ensures
        r == earlier_state(defs@, i as nat, 0),
{
    let mut j: usize = 0;
    while j < i
        invariant
            j <= i < defs@.len(),
            earlier_state(defs@, i as nat, 0) == earlier_state(defs@, i as nat, j as nat),
        decreases i - j,
    {
        if defs[j].name.name == defs[i].name.name {
            return Some(defs[j].name.span);
        }
        j = j + 1;
    }
    None
}

proof fn same_fields(a: State, b: State, fields: Seq<NamedTypeV>)
    requires
        has_fields(a, fields),
        a.types.types.len() <= b.types.types.len(),
    ensures
        has_fields(b, fields),
{
}

proof fn more_fields(s: State, fields: Seq<NamedTypeV>, x: NamedTypeV)
    requires
        forall|i: int| 0 <= i < fields.len() ==> has(s, (#[trigger] fields[i]).ty),
        has(s, x.ty),
    ensures
        has_fields(s, fields.push(x)),
{
}

proof fn more_slots(s: State, slots: Seq<BitfieldFieldShapeV>, x: BitfieldFieldShapeV)
    requires
        forall|i: int| 0 <= i < slots.len() ==> has(s, (#[trigger] slots[i]).ty),
        has(s, x.ty),
    ensures
        has_slots(s, slots.push(x)),
{
}

proof fn more_variants(a: State, b: State, variants: Seq<VariantShapeV>, x: VariantShapeV)
    requires
        has_variants(a, variants),
        a.types.types.len() <= b.types.types.len(),
        has_fields(b, x.fields),
    ensures
        has_variants(b, variants.push(x)),
{
    assert forall|i: int| 0 <= i < variants.push(x).len() implies has_fields(
        b,
        (#[trigger] variants.push(x)[i]).fields,
    ) by {
        if i < variants.len() {
            same_fields(a, b, variants[i].fields);
        }
    }
}

proof fn same_variants(a: State, b: State, variants: Seq<VariantShapeV>)
    requires
        has_variants(a, variants),
        a.types.types.len() <= b.types.types.len(),
    ensures
        has_variants(b, variants),
{
    assert forall|i: int| 0 <= i < variants.len() implies has_fields(
        b,
        (#[trigger] variants[i]).fields,
    ) by {
        same_fields(a, b, variants[i].fields);
    }
}

proof fn same_states(a: State, b: State, states: Seq<MachineStateShapeV>)
    requires
        has_states(a, states),
        a.types.types.len() <= b.types.types.len(),
    ensures
        has_states(b, states),
{
    assert forall|i: int| 0 <= i < states.len() implies has_fields(b, (#[trigger] states[i]).fields) by {
        same_fields(a, b, states[i].fields);
    }
}

proof fn more_states(a: State, b: State, states: Seq<MachineStateShapeV>, x: MachineStateShapeV)
    requires
        has_states(a, states),
        a.types.types.len() <= b.types.types.len(),
        has_fields(b, x.fields),
    ensures
        has_states(b, states.push(x)),
{
    same_states(a, b, states);
}

pub proof fn same_messages(a: State, b: State, messages: Seq<ActorMessageShapeV>)
    requires
        has_messages(a, messages),
        a.types.types.len() <= b.types.types.len(),
    ensures
        has_messages(b, messages),
{
    assert forall|i: int| 0 <= i < messages.len() implies has(b, (#[trigger] messages[i]).responds)
        && has_fields(b, messages[i].params) by {
        same_fields(a, b, messages[i].params);
    }
}

proof fn more_messages(a: State, b: State, messages: Seq<ActorMessageShapeV>, x: ActorMessageShapeV)
    requires
        has_messages(a, messages),
        a.types.types.len() <= b.types.types.len(),
        has(b, x.responds),
        has_fields(b, x.params),
    ensures
        has_messages(b, messages.push(x)),
{
    same_messages(a, b, messages);
}

/// A name that is given twice is only reported.
pub proof fn serialize_names_only_reports(s: State, owner: Seq<char>, defs: Seq<FieldDef>, i: nat)
    ensures
        serialize_names(s, owner, defs, i) == (State {
            reports: serialize_names(s, owner, defs, i).reports,
            ..s
        }),
    decreases defs.len() - i,
{
    if i < defs.len() {
        let name = serialized_name(defs[i as int]);
        let s1 = match last_serialized(defs, name, i) {
            Some(earlier) => report(
                s,
                error_after(
                    ErrorCode::DuplicateJsonSerializeName,
                    defs[i as int].span,
                    seq![owner, name],
                    earlier,
                ),
            ),
            None => s,
        };
        serialize_names_only_reports(s1, owner, defs, i + 1);
    }
}

/// Whether the name of the struct, where it has a type, has one that was not made of
/// a template.
pub open spec fn struct_is_declared(s: State, def: StructDef, namespace: Option<Seq<char>>) -> bool {
    let name = canonical(namespace, def.name.name@);
    s.named_types.contains_key(name) ==> apart(s, s.named_types[name])
}

impl<'a> TypeChecker<'a> {
    /// Makes a type known by a name.
    pub fn register_named_type(&mut self, namespace: &Option<String>, name: &String, id: TypeId)
        ensures
            grows(old(self)@, final(self)@),
            known(old(self)@) && has(old(self)@, id) ==> known(final(self)@),
            final(self)@ == (State {
                named_types: old(self)@.named_types.insert(
                    canonical(maybe_text(*namespace), name@),
                    id,
                ),
                ..old(self)@
            }),
    {
        self.put_named_types(canonical_name(namespace, name), id);
    }

    fn register_trusted_stdlib_named_type(&mut self, name: &String, id: TypeId, span: Span)
        ensures
            grows(old(self)@, final(self)@),
            known(old(self)@) ==> known(final(self)@),
            final(self)@ == (State {
                trusted_types: if span.file.stdlib() {
                    old(self)@.trusted_types.insert(name@, id)
                } else {
                    old(self)@.trusted_types
                },
                ..old(self)@
            }),
    {
        if span.file.is_stdlib() {
            self.put_trusted_types(name.clone(), id);
        }
    }

    fn announce(&mut self, namespace: &Option<String>, name: &Ident, id: TypeId)
        ensures
            grows(old(self)@, final(self)@),
            known(old(self)@) && has(old(self)@, id) ==> known(final(self)@),
            final(self)@ == announce(
                old(self)@,
                canonical(maybe_text(*namespace), name.name@),
                name.span,
                id,
            ),
    {
        self.register_named_type(namespace, &name.name, id);
        self.register_trusted_stdlib_named_type(
            &canonical_name(namespace, &name.name),
            id,
            name.span,
        );
        self.declare(name.span, id);
    }

    fn check_struct_json_serialize_names(&mut self, def: &StructDef, namespace: &Option<String>)
        ensures
            grows(old(self)@, final(self)@),
            known(old(self)@) ==> known(final(self)@),
            final(self)@ == serialize_names(
                old(self)@,
                canonical(maybe_text(*namespace), def.name.name@),
                def.fields@,
                0,
            ),
    {
        let owner = canonical_name(namespace, &def.name.name);
        let mut i: usize = 0;
        while i < def.fields.len()
            invariant
                grows(old(self)@, self@),
                known(old(self)@) ==> known(self@),
                i <= def.fields@.len(),
                serialize_names(self@, owner@, def.fields@, i as nat) == serialize_names(
                    old(self)@,
                    owner@,
                    def.fields@,
                    0,
                ),
            decreases def.fields@.len() - i,
        {
            let name = serialize_name(&def.fields[i]);
            if let Some(earlier) = find_last_serialized(&def.fields, &name, i) {
                self.emit(
                    Diagnostic::error_after(
                        ErrorCode::DuplicateJsonSerializeName,
                        def.fields[i].span,
                        args2(owner.clone(), name),
                        earlier,
                    ),
                );
            }
            i = i + 1;
        }
    }

    pub(crate) fn predeclare_struct(&mut self, def: &'a StructDef, namespace: &Option<String>)
        ensures
            grows(old(self)@, final(self)@),
            known(old(self)@) ==> known(final(self)@),
            final(self)@ == predeclare_struct(old(self)@, *def, maybe_text(*namespace)),
    {
        self.check_struct_json_serialize_names(def, namespace);
        let name = canonical_name(namespace, &def.name.name);
        if def.type_params.len() > 0 {
            self.put_generic_struct_templates(name, def);
            return;
        }
        let shape = StructShape { name, fields: Vec::new(), methods: Vec::new() };
        assert(shape@.fields =~= Seq::empty());
        assert(shape@.methods =~= Seq::empty());
        let id = self.add_struct(shape);
        let t: usize = self.intern(Type::Struct(id));
        self.announce(namespace, &def.name, t);
    }

    pub(crate) fn predeclare_interface(&mut self, def: &InterfaceDecl, namespace: &Option<String>)
        ensures
            grows(old(self)@, final(self)@),
            known(old(self)@) ==> known(final(self)@),
            final(self)@ == predeclare_interface(old(self)@, *def, maybe_text(*namespace)),
    {
        let name = canonical_name(namespace, &def.name.name);
        let shape = InterfaceShape { name, methods: Vec::new() };
        assert(shape@.methods =~= Seq::empty());
        let id = self.add_interface(shape);
        let t: usize = self.intern(Type::Interface(id));
        self.announce(namespace, &def.name, t);
    }

    pub(crate) fn predeclare_bitfield(&mut self, def: &BitfieldDef, namespace: &Option<String>)
        ensures
            grows(old(self)@, final(self)@),
            known(old(self)@) ==> known(final(self)@),
            final(self)@ == predeclare_bitfield(old(self)@, *def, maybe_text(*namespace)),
    {
        let name = canonical_name(namespace, &def.name.name);
        let shape = BitfieldShape { name, network_order: def.network_order, fields: Vec::new() };
        assert(shape@.fields =~= Seq::empty());
        let id = self.add_bitfield(shape);
        let t: usize = self.intern(Type::Bitfield(id));
        self.announce(namespace, &def.name, t);
    }

    pub(crate) fn predeclare_enum(&mut self, def: &EnumDef, namespace: &Option<String>)
        ensures
            grows(old(self)@, final(self)@),
            known(old(self)@) ==> known(final(self)@),
            final(self)@ == predeclare_enum(old(self)@, *def, maybe_text(*namespace)),
    {
        let name = canonical_name(namespace, &def.name.name);
        let shape = EnumShape { name, variants: Vec::new() };
        assert(shape@.variants =~= Seq::empty());
        let id = self.add_enum(shape);
        let t: usize = self.intern(Type::Enum(id));
        self.announce(namespace, &def.name, t);
    }

    pub(crate) fn predeclare_machine(&mut self, def: &MachineDef, namespace: &Option<String>)
        ensures
            grows(old(self)@, final(self)@),
            known(old(self)@) ==> known(final(self)@),
            final(self)@ == predeclare_machine(old(self)@, *def, maybe_text(*namespace)),
    {
        let name = canonical_name(namespace, &def.name.name);
        let shape = MachineShape { name, states: Vec::new(), transitions: Vec::new() };
        assert(shape@.states =~= Seq::empty());
        assert(shape@.transitions =~= Seq::empty());
        let id = self.add_machine(shape);
        let t: usize = self.intern(Type::Machine(id));
        self.announce(namespace, &def.name, t);
    }

    pub(crate) fn predeclare_actor(&mut self, def: &ActorDef, namespace: &Option<String>)
        ensures
            grows(old(self)@, final(self)@),
            known(old(self)@) ==> known(final(self)@),
            final(self)@ == predeclare_actor(old(self)@, *def, maybe_text(*namespace)),
    {
        let name = canonical_name(namespace, &def.name.name);
        let shape = ActorShape {
            name,
            capability_params: Vec::new(),
            state_fields: Vec::new(),
            messages: Vec::new(),
        };
        assert(shape@.capability_params =~= Seq::empty());
        assert(shape@.state_fields =~= Seq::empty());
        assert(shape@.messages =~= Seq::empty());
        let id = self.add_actor(shape);
        let t: usize = self.intern(Type::Actor(id));
        self.announce(namespace, &def.name, t);
    }

    /// The declared type of a name.
    pub(crate) fn declared_type(&self, name: &String) -> (r: Option<(TypeId, Type)>)
        ensures
            r is Some <==> declared_type(self@, name@) is Some,
            r matches Some((id, t)) ==> self@.named_types.contains_key(name@) && id
                == self@.named_types[name@] && declared_type(self@, name@) == Some(t) && t == ty(
                self@.types,
                id,
            ),
    {
        match self.get_named_types(name) {
            Some(id) => Some((id, self.interner().resolve(id))),
            None => None,
        }
    }

    pub(crate) fn finish_struct(&mut self, def: &StructDef, namespace: &Option<String>)
        ensures
            grows(old(self)@, final(self)@),
            def.type_params@.len() > 0 || struct_is_declared(
                old(self)@,
                *def,
                maybe_text(*namespace),
            ) ==> stays(old(self)@, final(self)@),
            known(old(self)@) ==> known(final(self)@),
            final(self)@ == finish_struct(old(self)@, *def, maybe_text(*namespace)),
    {
        if def.type_params.len() > 0 {
            return;
        }
        let name = canonical_name(namespace, &def.name.name);
        if let Some((id, Type::Struct(sid))) = self.declared_type(&name) {
            let fields = self.resolve_field_types(&def.fields);
            let infos = self.declared_fields(&def.fields, &fields, namespace);
            self.put_reflection_fields(id, FieldList { owner: name.clone(), fields: infos });
            let methods = self.method_signatures(&def.methods);
            let ghost filled = self@;
            self.update_struct(sid, StructShape { name, fields, methods });
            proof {
                if apart(old(self)@, id) {
                    stays_apart(old(self)@, filled, id);
                }
            }
        }
    }

    pub(crate) fn function_decl_method_signature(&mut self, f: &FunctionDecl) -> (r: FunctionSig)
        ensures
            stays(old(self)@, final(self)@),
            known(old(self)@) ==> known(final(self)@),
            (final(self)@, r@) == decl_signature(old(self)@, *f),
    {
        let params = self.resolve_param_types(&f.params);
        let return_type: usize = self.resolve_return_type(&f.return_type);
        let is_pure = self.names().params_are_pure(&f.params);
        FunctionSig { name: f.name.name.clone(), params, return_type, is_pure }
    }

    pub(crate) fn finish_interface(&mut self, def: &InterfaceDecl, namespace: &Option<String>)
        ensures
            stays(old(self)@, final(self)@),
            known(old(self)@) ==> known(final(self)@),
            final(self)@ == finish_interface(old(self)@, *def, maybe_text(*namespace)),
    {
        let name = canonical_name(namespace, &def.name.name);
        if let Some((_, Type::Interface(iid))) = self.declared_type(&name) {
            let mut methods: Vec<FunctionSig> = Vec::new();
            assert(views(methods@) =~= Seq::empty());
            let mut i: usize = 0;
            while i < def.methods.len()
                invariant
                    stays(old(self)@, self@),
                    known(old(self)@) ==> known(self@),
                    i <= def.methods@.len(),
                    decl_signatures(self@, def.methods@, i as nat, views(methods@))
                        == decl_signatures(old(self)@, def.methods@, 0, Seq::empty()),
                decreases def.methods@.len() - i,
            {
                let sig = self.function_decl_method_signature(&def.methods[i]);
                let ghost before = views(methods@);
                let ghost shown = sig@;
                methods.push(sig);
                assert(views(methods@) =~= before.push(shown));
                i = i + 1;
            }
            self.update_interface(iid, InterfaceShape { name, methods });
        }
    }

    fn bad_slot_if(&mut self, bad: bool, owner: &String, field: &BitfieldField, why: &str)
        ensures
            stays(old(self)@, final(self)@),
            known(old(self)@) ==> known(final(self)@),
            final(self)@ == bad_slot_if(old(self)@, bad, owner@, *field, why@),
    {
        if bad {
            self.report3(
                ErrorCode::InvalidBitfieldField,
                field.span,
                owner.clone(),
                field.name.name.clone(),
                text(why),
            );
        }
    }

    fn slot_enum(&mut self, owner: &String, field: &BitfieldField, id: TypeId, width: u16)
        ensures
            stays(old(self)@, final(self)@),
            known(old(self)@) ==> known(final(self)@),
            final(self)@ == slot_enum(old(self)@, owner@, *field, id, width),
    {
        if id == TypeInterner::ERROR {
            return;
        }
        match self.interner().resolve(id) {
            Type::Enum(eid) => {
                let variants = &self.interner().resolve_enum(eid).variants;
                let carries = any_carries_fields(variants);
                let fitting = fits_width(greatest_discriminant(variants), width);
                self.bad_slot_if(
                    carries,
                    owner,
                    field,
                    "`as` annotations require an enum with only unit variants",
                );
                self.bad_slot_if(
                    !fitting,
                    owner,
                    field,
                    "enum annotation has a discriminant that does not fit in the declared bit width",
                );
            },
            _ => {
                self.bad_slot_if(true, owner, field, "`as` annotations must name an enum type");
            },
        }
    }

    fn bits_slot(&mut self, owner: &String, field: &BitfieldField, width: u16, as_type: &Option<TypeExpr>) -> (r:
        TypeId)
        ensures
            stays(old(self)@, final(self)@),
            known(old(self)@) ==> known(final(self)@) && has(final(self)@, r),
            (final(self)@, r) == bits_slot(old(self)@, owner@, *field, width, *as_type),
    {
        if width == 0 {
            self.bad_slot_if(true, owner, field, "bit width must be at least 1");
        } else {
            self.bad_slot_if(width > 64, owner, field, "bit width must be at most 64");
        }
        match as_type {
            Some(t) => {
                let id: usize = self.resolve_type_expr(t);
                self.slot_enum(owner, field, id, width);
                id
            },
            None => {
                if width == 64 {
                    TypeInterner::UINT64
                } else {
                    TypeInterner::INT64
                }
            },
        }
    }

    fn payload_slot(
        &mut self,
        owner: &String,
        field: &BitfieldField,
        t: &TypeExpr,
        bytes: TypeId,
        last: bool,
        bits: u128,
    ) -> (r: TypeId)
        ensures
            stays(old(self)@, final(self)@),
            known(old(self)@) ==> known(final(self)@) && has(final(self)@, r),
            (final(self)@, r) == payload_slot(
                old(self)@,
                owner@,
                *field,
                *t,
                bytes,
                last,
                bits as nat,
            ),
    {
        let id: usize = self.resolve_type_expr(t);
        self.bad_slot_if(
            id != TypeInterner::ERROR && id != bytes,
            owner,
            field,
            "payload fields must have type `list[uint8]`",
        );
        self.bad_slot_if(!last, owner, field, "payload fields must be the final field");
        self.bad_slot_if(
            bits % 8 != 0,
            owner,
            field,
            "payload fields must start on a byte boundary",
        );
        id
    }

    fn slots_from(&mut self, owner: &String, fields: &Vec<BitfieldField>, bytes: TypeId) -> (r: Vec<
        BitfieldFieldShape,
    >)
        ensures
            stays(old(self)@, final(self)@),
            known(old(self)@) ==> known(final(self)@) && has_slots(final(self)@, views(r@)),
            (final(self)@, views(r@)) == slots_from(
                old(self)@,
                owner@,
                fields@,
                bytes,
                0,
                0,
                Seq::empty(),
            ),
    {
        let mut slots: Vec<BitfieldFieldShape> = Vec::new();
        assert(views(slots@) =~= Seq::empty());
        let mut bits: u128 = 0;
        let mut i: usize = 0;
        while i < fields.len()
            invariant
                stays(old(self)@, self@),
                known(old(self)@) ==> known(self@) && has_slots(self@, views(slots@)),
                i <= fields@.len(),
                bits <= i * 0xffff,
                slots_from(self@, owner@, fields@, bytes, bits as nat, i as nat, views(slots@))
                    == slots_from(old(self)@, owner@, fields@, bytes, 0, 0, Seq::empty()),
            decreases fields@.len() - i,
        {
            let field = &fields[i];
            let (id, kind, wide): (TypeId, BitfieldSlot, u16) = match &field.kind {
                BitfieldFieldKind::Bits { width, as_type } => {
                    let id: usize = self.bits_slot(owner, field, *width, as_type);
                    (id, BitfieldSlot::Bits { width: *width }, *width)
                },
                BitfieldFieldKind::Payload(t) => {
                    let id: usize = self.payload_slot(
                        owner,
                        field,
                        t,
                        bytes,
                        i + 1 == fields.len(),
                        bits,
                    );
                    (id, BitfieldSlot::Payload, 0)
                },
            };
            let slot = BitfieldFieldShape { name: field.name.name.clone(), ty: id, kind };
            let ghost before = views(slots@);
            let ghost shown = slot@;
            slots.push(slot);
            assert(views(slots@) =~= before.push(shown));
            proof {
                if known(old(self)@) {
                    more_slots(self@, before, shown);
                }
            }
            assert(i * 0xffff + 0xffff <= 0xffff * 0x1_0000_0000_0000_0000);
            bits = bits + wide as u128;
            i = i + 1;
        }
        slots
    }

    fn slot_info(&mut self, field: &BitfieldField, namespace: &Option<String>, id: TypeId) -> (r: TypeInfo)
        ensures
            stays(old(self)@, final(self)@),
            known(old(self)@) ==> known(final(self)@),
            (final(self)@, r@) == slot_info(old(self)@, *field, maybe_text(*namespace), id),
    {
        match &field.kind {
            BitfieldFieldKind::Bits { width, as_type } => match as_type {
                Some(t) => self.reflection_type_info_for_type_expr(t, namespace, id),
                None => {
                    let name = if *width == 64 {
                        text("uint64")
                    } else {
                        text("int64")
                    };
                    self.named_info(&name, field.span, namespace, id)
                },
            },
            BitfieldFieldKind::Payload(t) => self.reflection_type_info_for_type_expr(
                t,
                namespace,
                id,
            ),
        }
    }

    fn reflection_fields_for_bitfield_def(
        &mut self,
        fields: &Vec<BitfieldField>,
        slots: &Vec<BitfieldFieldShape>,
        namespace: &Option<String>,
    ) -> (r: Vec<FieldInfo>)
        ensures
            stays(old(self)@, final(self)@),
            known(old(self)@) ==> known(final(self)@),
            (final(self)@, views(r@)) == slot_fields(
                old(self)@,
                fields@,
                views(slots@),
                maybe_text(*namespace),
                0,
                Seq::empty(),
            ),
    {
        let ghost ns = maybe_text(*namespace);
        let ghost ss = views(slots@);
        let mut r: Vec<FieldInfo> = Vec::new();
        assert(views(r@) =~= Seq::empty());
        let mut i: usize = 0;
        while i < fields.len() && i < slots.len()
            invariant
                stays(old(self)@, self@),
                known(old(self)@) ==> known(self@),
                i <= fields@.len(),
                i <= slots@.len(),
                ns == maybe_text(*namespace),
                ss == views(slots@),
                slot_fields(self@, fields@, ss, ns, i as nat, views(r@)) == slot_fields(
                    old(self)@,
                    fields@,
                    ss,
                    ns,
                    0,
                    Seq::empty(),
                ),
            decreases fields@.len() - i,
        {
            assert(ss[i as int] == slots@[i as int]@);
            let type_info = self.slot_info(&fields[i], namespace, slots[i].ty);
            let field = FieldInfo {
                index: i,
                name: fields[i].name.name.clone(),
                serialize_name: fields[i].name.name.clone(),
                type_info,
            };
            let ghost before = views(r@);
            let ghost shown = field@;
            r.push(field);
            assert(views(r@) =~= before.push(shown));
            i = i + 1;
        }
        r
    }

    fn slot_layout(&mut self, field: &BitfieldField, namespace: &Option<String>, id: TypeId, index: usize) -> (r:
        BitfieldFieldInfo)
        ensures
            stays(old(self)@, final(self)@),
            known(old(self)@) ==> known(final(self)@),
            (final(self)@, r@) == slot_layout(
                old(self)@,
                *field,
                maybe_text(*namespace),
                id,
                index as nat,
            ),
    {
        let type_info = self.slot_info(field, namespace, id);
        let (shape, width, enum_type): (String, i64, Option<TypeInfo>) = match &field.kind {
            BitfieldFieldKind::Bits { width, as_type } => match as_type {
                Some(t) => {
                    let e: usize = self.resolve_type_expr(t);
                    let info = self.reflection_type_info_for_type_expr(t, namespace, e);
                    (text("bits"), *width as i64, Some(info))
                },
                None => (text("bits"), *width as i64, None),
            },
            BitfieldFieldKind::Payload(_) => (text("payload"), 0, None),
        };
        BitfieldFieldInfo { index, name: field.name.name.clone(), shape, width, type_info, enum_type }
    }

    fn reflection_bitfield_info_for_def(
        &mut self,
        fields: &Vec<BitfieldField>,
        slots: &Vec<BitfieldFieldShape>,
        namespace: &Option<String>,
    ) -> (r: Vec<BitfieldFieldInfo>)
        ensures
            stays(old(self)@, final(self)@),
            known(old(self)@) ==> known(final(self)@),
            (final(self)@, views(r@)) == slot_layouts(
                old(self)@,
                fields@,
                views(slots@),
                maybe_text(*namespace),
                0,
                Seq::empty(),
            ),
    {
        let ghost ns = maybe_text(*namespace);
        let ghost ss = views(slots@);
        let mut r: Vec<BitfieldFieldInfo> = Vec::new();
        assert(views(r@) =~= Seq::empty());
        let mut i: usize = 0;
        while i < fields.len() && i < slots.len()
            invariant
                stays(old(self)@, self@),
                known(old(self)@) ==> known(self@),
                i <= fields@.len(),
                i <= slots@.len(),
                ns == maybe_text(*namespace),
                ss == views(slots@),
                slot_layouts(self@, fields@, ss, ns, i as nat, views(r@)) == slot_layouts(
                    old(self)@,
                    fields@,
                    ss,
                    ns,
                    0,
                    Seq::empty(),
                ),
            decreases fields@.len() - i,
        {
            assert(ss[i as int] == slots@[i as int]@);
            let slot = self.slot_layout(&fields[i], namespace, slots[i].ty, i);
            let ghost before = views(r@);
            let ghost shown = slot@;
            r.push(slot);
            assert(views(r@) =~= before.push(shown));
            i = i + 1;
        }
        r
    }

    pub(crate) fn finish_bitfield(&mut self, def: &BitfieldDef, namespace: &Option<String>)
        ensures
            stays(old(self)@, final(self)@),
            known(old(self)@) ==> known(final(self)@),
            final(self)@ == finish_bitfield(old(self)@, *def, maybe_text(*namespace)),
    {
        let name = canonical_name(namespace, &def.name.name);
        if let Some((id, Type::Bitfield(bid))) = self.declared_type(&name) {
            let bytes: usize = self.intern(Type::List(TypeInterner::UINT8));
            let slots = self.slots_from(&def.name.name, &def.fields, bytes);
            let infos = self.reflection_fields_for_bitfield_def(&def.fields, &slots, namespace);
            let layout = self.reflection_bitfield_info_for_def(&def.fields, &slots, namespace);
            self.put_reflection_fields(id, FieldList { owner: name.clone(), fields: infos });
            self.put_reflection_bitfields(
                id,
                BitfieldInfo {
                    owner: name.clone(),
                    network_order: def.network_order,
                    fields: layout,
                },
            );
            self.update_bitfield(
                bid,
                BitfieldShape { name, network_order: def.network_order, fields: slots },
            );
        }
    }

    fn variant_at(
        &mut self,
        owner: &String,
        defs: &Vec<EnumVariantDef>,
        next: i64,
        found: &Vec<VariantShape>,
    ) -> (r: VariantShape)
        requires
            found@.len() < defs@.len(),
        ensures
            stays(old(self)@, final(self)@),
            known(old(self)@) ==> known(final(self)@) && has_fields(final(self)@, r@.fields),
            (final(self)@, r@) == variant_at(old(self)@, owner@, defs@, next, views(found@)),
    {
        let def = &defs[found.len()];
        if def.discriminant.is_some() && def.fields.len() > 0 {
            self.report2(
                ErrorCode::EnumDiscriminantRequiresUnitVariant,
                def.span,
                owner.clone(),
                def.name.name.clone(),
            );
        }
        let discriminant: i64 = match def.discriminant {
            Some(d) => d,
            None => next,
        };
        if let Some(earlier) = find_last_numbered(defs, found, discriminant) {
            self.emit(
                Diagnostic::error_after(
                    ErrorCode::DuplicateEnumDiscriminant,
                    def.name.span,
                    args3(
                        owner.clone(),
                        def.name.name.clone(),
                        signed_decimal_text(discriminant as i128),
                    ),
                    earlier,
                ),
            );
        }
        let fields = self.resolve_field_types(&def.fields);
        VariantShape { name: def.name.name.clone(), fields, discriminant }
    }

    fn variants_from(&mut self, owner: &String, defs: &Vec<EnumVariantDef>) -> (r: Vec<VariantShape>)
        ensures
            stays(old(self)@, final(self)@),
            known(old(self)@) ==> known(final(self)@) && has_variants(final(self)@, views(r@)),
            (final(self)@, views(r@)) == variants_from(old(self)@, owner@, defs@, 0, Seq::empty()),
    {
        let mut found: Vec<VariantShape> = Vec::new();
        assert(views(found@) =~= Seq::empty());
        let mut next: i64 = 0;
        while found.len() < defs.len()
            invariant
                stays(old(self)@, self@),
                known(old(self)@) ==> known(self@) && has_variants(self@, views(found@)),
                found@.len() <= defs@.len(),
                variants_from(self@, owner@, defs@, next, views(found@)) == variants_from(
                    old(self)@,
                    owner@,
                    defs@,
                    0,
                    Seq::empty(),
                ),
            decreases defs@.len() - found@.len(),
        {
            let ghost earlier = self@;
            let v = self.variant_at(owner, defs, next, &found);
            next =
            if v.discriminant == i64::MAX {
                v.discriminant
            } else {
                v.discriminant + 1
            };
            let ghost before = views(found@);
            let ghost shown = v@;
            found.push(v);
            assert(views(found@) =~= before.push(shown));
            proof {
                if known(old(self)@) {
                    more_variants(earlier, self@, before, shown);
                }
            }
        }
        found
    }

    fn reflection_variants_for_enum_def(
        &mut self,
        defs: &Vec<EnumVariantDef>,
        variants: &Vec<VariantShape>,
        namespace: &Option<String>,
    ) -> (r: Vec<VariantInfo>)
        ensures
            stays(old(self)@, final(self)@),
            known(old(self)@) ==> known(final(self)@),
            (final(self)@, views(r@)) == variant_infos(
                old(self)@,
                defs@,
                views(variants@),
                maybe_text(*namespace),
                0,
                Seq::empty(),
            ),
    {
        let ghost ns = maybe_text(*namespace);
        let ghost vs = views(variants@);
        let mut r: Vec<VariantInfo> = Vec::new();
        assert(views(r@) =~= Seq::empty());
        let mut i: usize = 0;
        while i < defs.len() && i < variants.len()
            invariant
                stays(old(self)@, self@),
                known(old(self)@) ==> known(self@),
                i <= defs@.len(),
                i <= variants@.len(),
                ns == maybe_text(*namespace),
                vs == views(variants@),
                variant_infos(self@, defs@, vs, ns, i as nat, views(r@)) == variant_infos(
                    old(self)@,
                    defs@,
                    vs,
                    ns,
                    0,
                    Seq::empty(),
                ),
            decreases defs@.len() - i,
        {
            assert(vs[i as int] == variants@[i as int]@);
            let fields = self.declared_fields(&defs[i].fields, &variants[i].fields, namespace);
            let has_secret = has_secret_field(&fields);
            let info = VariantInfo {
                index: i,
                name: defs[i].name.name.clone(),
                discriminant: variants[i].discriminant,
                has_secret,
                fields,
            };
            let ghost before = views(r@);
            let ghost shown = info@;
            r.push(info);
            assert(views(r@) =~= before.push(shown));
            i = i + 1;
        }
        r
    }

    pub(crate) fn finish_enum(&mut self, def: &EnumDef, namespace: &Option<String>)
        ensures
            stays(old(self)@, final(self)@),
            known(old(self)@) ==> known(final(self)@),
            final(self)@ == finish_enum(old(self)@, *def, maybe_text(*namespace)),
    {
        let name = canonical_name(namespace, &def.name.name);
        if let Some((id, Type::Enum(eid))) = self.declared_type(&name) {
            let variants = self.variants_from(&def.name.name, &def.variants);
            let ghost numbered = self@;
            let infos = self.reflection_variants_for_enum_def(&def.variants, &variants, namespace);
            self.put_reflection_variants(id, VariantList { owner: name.clone(), variants: infos });
            proof {
                if known(old(self)@) {
                    same_variants(numbered, self@, views(variants@));
                }
            }
            self.update_enum(eid, EnumShape { name, variants });
        }
    }

    fn states_from(&mut self, owner: &String, defs: &Vec<MachineStateDef>, namespace: &Option<String>) -> (r: (
        Vec<MachineStateShape>,
        Vec<MachineStateInfo>,
    ))
        ensures
            stays(old(self)@, final(self)@),
            known(old(self)@) ==> known(final(self)@) && has_states(final(self)@, views(r.0@)),
            (final(self)@, views(r.0@), views(r.1@)) == states_from(
                old(self)@,
                owner@,
                defs@,
                maybe_text(*namespace),
                0,
                Seq::empty(),
                Seq::empty(),
            ),
    {
        let ghost ns = maybe_text(*namespace);
        let mut found: Vec<MachineStateShape> = Vec::new();
        let mut infos: Vec<MachineStateInfo> = Vec::new();
        assert(views(found@) =~= Seq::empty());
        assert(views(infos@) =~= Seq::empty());
        let mut i: usize = 0;
        while i < defs.len()
            invariant
                stays(old(self)@, self@),
                known(old(self)@) ==> known(self@) && has_states(self@, views(found@)),
                i <= defs@.len(),
                ns == maybe_text(*namespace),
                states_from(self@, owner@, defs@, ns, i as nat, views(found@), views(infos@))
                    == states_from(
                    old(self)@,
                    owner@,
                    defs@,
                    ns,
                    0,
                    Seq::empty(),
                    Seq::empty(),
                ),
            decreases defs@.len() - i,
        {
            let def = &defs[i];
            let ghost earlier_state = self@;
            match find_earlier_state(defs, i) {
                Some(earlier) => {
                    self.emit(
                        Diagnostic::error_after(
                            ErrorCode::DuplicateMachineState,
                            def.name.span,
                            args2(owner.clone(), def.name.name.clone()),
                            earlier,
                        ),
                    );
                    proof {
                        if known(old(self)@) {
                            same_states(earlier_state, self@, views(found@));
                        }
                    }
                },
                None => {
                    let fields = self.resolve_field_types(&def.fields);
                    let told = self.declared_fields(&def.fields, &fields, namespace);
                    let has_secret = has_secret_field(&told);
                    let info = MachineStateInfo {
                        index: found.len(),
                        name: def.name.name.clone(),
                        has_secret,
                        fields: told,
                    };
                    let shape = MachineStateShape { name: def.name.name.clone(), fields };
                    let ghost before = views(found@);
                    let ghost told_before = views(infos@);
                    let ghost shown = shape@;
                    let ghost shown_info = info@;
                    found.push(shape);
                    infos.push(info);
                    assert(views(found@) =~= before.push(shown));
                    assert(views(infos@) =~= told_before.push(shown_info));
                    proof {
                        if known(old(self)@) {
                            more_states(earlier_state, self@, before, shown);
                        }
                    }
                },
            }
            i = i + 1;
        }
        (found, infos)
    }

    fn unknown_state(&mut self, owner: &String, t: &MachineTransitionDef, source: bool)
        ensures
            stays(old(self)@, final(self)@),
            known(old(self)@) ==> known(final(self)@),
            final(self)@ == unknown_state(old(self)@, owner@, *t, source),
    {
        let (state, words): (&Ident, &str) = if source {
            (&t.from, "unknown source state `")
        } else {
            (&t.to, "unknown target state `")
        };
        self.report3(
            ErrorCode::InvalidMachineTransition,
            state.span,
            owner.clone(),
            join3(t.from.name.as_str(), " to ", t.to.name.as_str()),
            join3(words, state.name.as_str(), "`"),
        );
    }

    fn transitions_from(&mut self, defs: &Vec<MachineTransitionDef>, m: MachineShape) -> (r: (
        MachineShape,
        Vec<MachineTransitionInfo>,
    ))
        ensures
            stays(old(self)@, final(self)@),
            known(old(self)@) ==> known(final(self)@),
            r.0@.states == m@.states,
            (final(self)@, r.0@, views(r.1@)) == transitions_from(
                old(self)@,
                defs@,
                0,
                m@,
                Seq::empty(),
            ),
    {
        let ghost start = m@;
        let mut m = m;
        let mut infos: Vec<MachineTransitionInfo> = Vec::new();
        assert(views(infos@) =~= Seq::empty());
        let mut i: usize = 0;
        while i < defs.len()
            invariant
                stays(old(self)@, self@),
                known(old(self)@) ==> known(self@),
                m@.states == start.states,
                i <= defs@.len(),
                transitions_from(self@, defs@, i as nat, m@, views(infos@)) == transitions_from(
                    old(self)@,
                    defs@,
                    0,
                    start,
                    Seq::empty(),
                ),
            decreases defs@.len() - i,
        {
            let def = &defs[i];
            let from = m.state_id(&def.from.name);
            let to = m.state_id(&def.to.name);
            match (from, to) {
                (Some(from), Some(to)) => {
                    let info = MachineTransitionInfo {
                        index: m.transitions.len(),
                        source_index: from.0,
                        source: def.from.name.clone(),
                        target_index: to.0,
                        target: def.to.name.clone(),
                    };
                    let ghost before = views(infos@);
                    let ghost shown = info@;
                    let ghost m_before = m@;
                    infos.push(info);
                    assert(views(infos@) =~= before.push(shown));
                    let step = MachineTransition { from, to };
                    m.transitions.push(step);
                    assert(m@ == (MachineShapeV {
                        transitions: m_before.transitions.push(step),
                        ..m_before
                    }));
                },
                (None, _) => {
                    self.unknown_state(&m.name, def, true);
                },
                (_, None) => {
                    self.unknown_state(&m.name, def, false);
                },
            }
            i = i + 1;
        }
        (m, infos)
    }

    pub(crate) fn finish_machine(&mut self, def: &MachineDef, namespace: &Option<String>)
        ensures
            stays(old(self)@, final(self)@),
            known(old(self)@) ==> known(final(self)@),
            final(self)@ == finish_machine(old(self)@, *def, maybe_text(*namespace)),
    {
        let name = canonical_name(namespace, &def.name.name);
        if let Some((id, Type::Machine(mid))) = self.declared_type(&name) {
            let (states, state_infos) = self.states_from(&name, &def.states, namespace);
            let bare = MachineShape { name: name.clone(), states, transitions: Vec::new() };
            assert(bare@.transitions =~= Seq::empty());
            let ghost named = self@;
            let (shape, transitions) = self.transitions_from(&def.transitions, bare);
            proof {
                if known(old(self)@) {
                    same_states(named, self@, shape@.states);
                }
            }
            self.put_reflection_machines(
                id,
                MachineInfo { owner: name, states: state_infos, transitions },
            );
            self.update_machine(mid, shape);
        }
    }

    fn named_params(&mut self, params: &Vec<Param>) -> (r: Vec<NamedType>)
        ensures
            stays(old(self)@, final(self)@),
            known(old(self)@) ==> known(final(self)@) && has_fields(final(self)@, views(r@)),
            (final(self)@, views(r@)) == named_params(old(self)@, params@, 0, Seq::empty()),
    {
        let mut r: Vec<NamedType> = Vec::new();
        assert(views(r@) =~= Seq::empty());
        let mut i: usize = 0;
        while i < params.len()
            invariant
                stays(old(self)@, self@),
                known(old(self)@) ==> known(self@) && has_fields(self@, views(r@)),
                i <= params@.len(),
                named_params(self@, params@, i as nat, views(r@)) == named_params(
                    old(self)@,
                    params@,
                    0,
                    Seq::empty(),
                ),
            decreases params@.len() - i,
        {
            let id: usize = self.resolve_type_expr(&params[i].ty);
            let x = NamedType { name: params[i].name.name.clone(), ty: id };
            let ghost before = views(r@);
            let ghost shown = x@;
            r.push(x);
            assert(views(r@) =~= before.push(shown));
            proof {
                if known(old(self)@) {
                    more_fields(self@, before, shown);
                }
            }
            i = i + 1;
        }
        r
    }

    fn named_states(&mut self, fields: &Vec<ActorStateField>) -> (r: Vec<NamedType>)
        ensures
            stays(old(self)@, final(self)@),
            known(old(self)@) ==> known(final(self)@) && has_fields(final(self)@, views(r@)),
            (final(self)@, views(r@)) == named_states(old(self)@, fields@, 0, Seq::empty()),
    {
        let mut r: Vec<NamedType> = Vec::new();
        assert(views(r@) =~= Seq::empty());
        let mut i: usize = 0;
        while i < fields.len()
            invariant
                stays(old(self)@, self@),
                known(old(self)@) ==> known(self@) && has_fields(self@, views(r@)),
                i <= fields@.len(),
                named_states(self@, fields@, i as nat, views(r@)) == named_states(
                    old(self)@,
                    fields@,
                    0,
                    Seq::empty(),
                ),
            decreases fields@.len() - i,
        {
            let id: usize = self.resolve_type_expr(&fields[i].ty);
            let x = NamedType { name: fields[i].name.name.clone(), ty: id };
            let ghost before = views(r@);
            let ghost shown = x@;
            r.push(x);
            assert(views(r@) =~= before.push(shown));
            proof {
                if known(old(self)@) {
                    more_fields(self@, before, shown);
                }
            }
            i = i + 1;
        }
        r
    }

    fn messages_from(&mut self, handlers: &Vec<ReceiveHandler>) -> (r: Vec<ActorMessageShape>)
        ensures
            stays(old(self)@, final(self)@),
            known(old(self)@) ==> known(final(self)@) && has_messages(final(self)@, views(r@)),
            (final(self)@, views(r@)) == messages_from(old(self)@, handlers@, 0, Seq::empty()),
    {
        let mut r: Vec<ActorMessageShape> = Vec::new();
        assert(views(r@) =~= Seq::empty());
        let mut i: usize = 0;
        while i < handlers.len()
            invariant
                stays(old(self)@, self@),
                known(old(self)@) ==> known(self@) && has_messages(self@, views(r@)),
                i <= handlers@.len(),
                messages_from(self@, handlers@, i as nat, views(r@)) == messages_from(
                    old(self)@,
                    handlers@,
                    0,
                    Seq::empty(),
                ),
            decreases handlers@.len() - i,
        {
            let ghost earlier = self@;
            let params = self.named_params(&handlers[i].params);
            let ghost named = self@;
            let responds: usize = self.resolve_return_type(&handlers[i].responds);
            let x = ActorMessageShape { name: handlers[i].name.name.clone(), params, responds };
            let ghost before = views(r@);
            let ghost shown = x@;
            r.push(x);
            assert(views(r@) =~= before.push(shown));
            proof {
                if known(old(self)@) {
                    same_fields(named, self@, shown.params);
                    more_messages(earlier, self@, before, shown);
                }
            }
            i = i + 1;
        }
        r
    }

    pub(crate) fn finish_actor(&mut self, def: &ActorDef, namespace: &Option<String>)
        ensures
            stays(old(self)@, final(self)@),
            known(old(self)@) ==> known(final(self)@),
            final(self)@ == finish_actor(old(self)@, *def, maybe_text(*namespace)),
    {
        let name = canonical_name(namespace, &def.name.name);
        if let Some((_, Type::Actor(aid))) = self.declared_type(&name) {
            let capability_params = self.named_params(&def.capability_params);
            let ghost given = self@;
            let state_fields = self.named_states(&def.state_fields);
            proof {
                if known(old(self)@) {
                    same_fields(given, self@, views(capability_params@));
                }
            }
            let ghost named = self@;
            let messages = self.messages_from(&def.handlers);
            proof {
                if known(old(self)@) {
                    same_fields(named, self@, views(capability_params@));
                    same_fields(named, self@, views(state_fields@));
                }
            }
            self.update_actor(aid, ActorShape { name, capability_params, state_fields, messages });
        }
    }
}

} // verus!
