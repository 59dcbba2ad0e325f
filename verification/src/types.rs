//! Types by id: every type is stored once, and a type is built only from
//! types stored before it.
use vstd::prelude::*;

use crate::steady::goes_on;
use crate::table::{dup_vec, views, Dup};

verus! {

/// A type, by its place in a `TypeInterner`.
pub type TypeId = usize;

#[derive(Debug, Clone, Copy, PartialEq, Eq, Structural)]
pub struct FunctionTypeId(pub usize);

#[derive(Debug, Clone, Copy, PartialEq, Eq, Structural)]
pub struct RefinementId(pub usize);

#[derive(Debug, Clone, Copy, PartialEq, Eq, Structural)]
pub struct StructId(pub usize);

#[derive(Debug, Clone, Copy, PartialEq, Eq, Structural)]
pub struct BitfieldId(pub usize);

#[derive(Debug, Clone, Copy, PartialEq, Eq, Structural)]
pub struct EnumId(pub usize);

#[derive(Debug, Clone, Copy, PartialEq, Eq, Structural)]
pub struct InterfaceId(pub usize);

#[derive(Debug, Clone, Copy, PartialEq, Eq, Structural)]
pub struct ActorId(pub usize);

#[derive(Debug, Clone, Copy, PartialEq, Eq, Structural)]
pub struct MachineId(pub usize);

/// A state of a machine, by its place in the machine's list of states.
#[derive(Debug, Clone, Copy, PartialEq, Eq, Structural)]
pub struct MachineStateId(pub usize);

#[derive(Debug, Clone, Copy, PartialEq, Eq, Structural)]
pub enum Type {
    Int8,
    Int16,
    Int32,
    Int64,
    Uint8,
    Uint16,
    Uint32,
    Uint64,
    Float32,
    Float64,
    String,
    Bool,
    Bytes,
    Nothing,
    TypeConstruction,
    List(TypeId),
    MapOf(TypeId, TypeId),
    SetOf(TypeId),
    Optional(TypeId),
    Result(TypeId, TypeId),
    Secret(TypeId),
    Struct(StructId),
    Bitfield(BitfieldId),
    Enum(EnumId),
    Interface(InterfaceId),
    Actor(ActorId),
    Machine(MachineId),
    MachineState { machine: MachineId, state: MachineStateId },
    Function(FunctionTypeId),
    Refinement(RefinementId),
    Error,
}

// ---------------------------------------------------------------------------
// Definitions that types refer to
// ---------------------------------------------------------------------------

/// A name with its type: a field, or a parameter of a message.
#[derive(Debug)]
pub struct NamedType {
    pub name: String,
    pub ty: TypeId,
}

pub struct NamedTypeV {
    pub name: Seq<char>,
    pub ty: TypeId,
}

impl View for NamedType {
    type V = NamedTypeV;

    open spec fn view(&self) -> NamedTypeV {
        NamedTypeV { name: self.name@, ty: self.ty }
    }
}

impl Dup for NamedType {
    fn dup(&self) -> (r: Self) {
        NamedType { name: self.name.clone(), ty: self.ty }
    }
}

#[derive(Debug)]
pub struct SigParam {
    pub name: String,
    pub ty: TypeId,
    pub view: bool,
}

pub struct SigParamV {
    pub name: Seq<char>,
    pub ty: TypeId,
    pub view: bool,
}

impl View for SigParam {
    type V = SigParamV;

    open spec fn view(&self) -> SigParamV {
        SigParamV { name: self.name@, ty: self.ty, view: self.view }
    }
}

impl Dup for SigParam {
    fn dup(&self) -> (r: Self) {
        SigParam { name: self.name.clone(), ty: self.ty, view: self.view }
    }
}

/// The header of a method.
#[derive(Debug)]
pub struct FunctionSig {
    pub name: String,
    pub params: Vec<SigParam>,
    pub return_type: TypeId,
    pub is_pure: bool,
}

pub struct FunctionSigV {
    pub name: Seq<char>,
    pub params: Seq<SigParamV>,
    pub return_type: TypeId,
    pub is_pure: bool,
}

impl View for FunctionSig {
    type V = FunctionSigV;

    open spec fn view(&self) -> FunctionSigV {
        FunctionSigV {
            name: self.name@,
            params: views(self.params@),
            return_type: self.return_type,
            is_pure: self.is_pure,
        }
    }
}

impl Dup for FunctionSig {
    fn dup(&self) -> (r: Self) {
        FunctionSig {
            name: self.name.clone(),
            params: dup_vec(&self.params),
            return_type: self.return_type,
            is_pure: self.is_pure,
        }
    }
}

#[derive(Debug)]
pub struct FunctionShape {
    pub params: Vec<TypeId>,
    pub return_type: TypeId,
}

pub struct FunctionShapeV {
    pub params: Seq<TypeId>,
    pub return_type: TypeId,
}

impl View for FunctionShape {
    type V = FunctionShapeV;

    open spec fn view(&self) -> FunctionShapeV {
        FunctionShapeV { params: self.params@, return_type: self.return_type }
    }
}

impl Dup for FunctionShape {
    fn dup(&self) -> (r: Self) {
        FunctionShape { params: dup_ids(&self.params), return_type: self.return_type }
    }
}

/// A copy of a list of ids.
pub fn dup_ids(v: &Vec<TypeId>) -> (r: Vec<TypeId>)
    ensures
        r@ == v@,
{
    let mut r: Vec<TypeId> = Vec::new();
    let mut i: usize = 0;
    while i < v.len()
        invariant
            i <= v@.len(),
            r@ =~= v@.take(i as int),
        decreases v@.len() - i,
    {
        r.push(v[i]);
        i = i + 1;
    }
    assert(r@ =~= v@);
    r
}

#[derive(Debug)]
pub struct RefinementShape {
    pub name: String,
    pub base: TypeId,
}

pub struct RefinementShapeV {
    pub name: Seq<char>,
    pub base: TypeId,
}

impl View for RefinementShape {
    type V = RefinementShapeV;

    open spec fn view(&self) -> RefinementShapeV {
        RefinementShapeV { name: self.name@, base: self.base }
    }
}

#[derive(Debug)]
pub struct StructShape {
    pub name: String,
    pub fields: Vec<NamedType>,
    pub methods: Vec<FunctionSig>,
}

pub struct StructShapeV {
    pub name: Seq<char>,
    pub fields: Seq<NamedTypeV>,
    pub methods: Seq<FunctionSigV>,
}

impl View for StructShape {
    type V = StructShapeV;

    open spec fn view(&self) -> StructShapeV {
        StructShapeV {
            name: self.name@,
            fields: views(self.fields@),
            methods: views(self.methods@),
        }
    }
}

/// How a field of a bitfield is laid out.
#[derive(Debug, Clone, Copy, PartialEq, Eq, Structural)]
pub enum BitfieldSlot {
    Bits { width: u16 },
    Payload,
}

#[derive(Debug)]
pub struct BitfieldFieldShape {
    pub name: String,
    pub ty: TypeId,
    pub kind: BitfieldSlot,
}

pub struct BitfieldFieldShapeV {
    pub name: Seq<char>,
    pub ty: TypeId,
    pub kind: BitfieldSlot,
}

impl View for BitfieldFieldShape {
    type V = BitfieldFieldShapeV;

    open spec fn view(&self) -> BitfieldFieldShapeV {
        BitfieldFieldShapeV { name: self.name@, ty: self.ty, kind: self.kind }
    }
}

impl Dup for BitfieldFieldShape {
    fn dup(&self) -> (r: Self) {
        BitfieldFieldShape { name: self.name.clone(), ty: self.ty, kind: self.kind }
    }
}

#[derive(Debug)]
pub struct BitfieldShape {
    pub name: String,
    pub network_order: bool,
    pub fields: Vec<BitfieldFieldShape>,
}

pub struct BitfieldShapeV {
    pub name: Seq<char>,
    pub network_order: bool,
    pub fields: Seq<BitfieldFieldShapeV>,
}

impl View for BitfieldShape {
    type V = BitfieldShapeV;

    open spec fn view(&self) -> BitfieldShapeV {
        BitfieldShapeV {
            name: self.name@,
            network_order: self.network_order,
            fields: views(self.fields@),
        }
    }
}

#[derive(Debug)]
pub struct VariantShape {
    pub name: String,
    pub fields: Vec<NamedType>,
    pub discriminant: i64,
}

pub struct VariantShapeV {
    pub name: Seq<char>,
    pub fields: Seq<NamedTypeV>,
    pub discriminant: i64,
}

impl View for VariantShape {
    type V = VariantShapeV;

    open spec fn view(&self) -> VariantShapeV {
        VariantShapeV {
            name: self.name@,
            fields: views(self.fields@),
            discriminant: self.discriminant,
        }
    }
}

impl Dup for VariantShape {
    fn dup(&self) -> (r: Self) {
        VariantShape {
            name: self.name.clone(),
            fields: dup_vec(&self.fields),
            discriminant: self.discriminant,
        }
    }
}

#[derive(Debug)]
pub struct EnumShape {
    pub name: String,
    pub variants: Vec<VariantShape>,
}

pub struct EnumShapeV {
    pub name: Seq<char>,
    pub variants: Seq<VariantShapeV>,
}

impl View for EnumShape {
    type V = EnumShapeV;

    open spec fn view(&self) -> EnumShapeV {
        EnumShapeV { name: self.name@, variants: views(self.variants@) }
    }
}

impl Dup for EnumShape {
    fn dup(&self) -> (r: Self) {
        EnumShape { name: self.name.clone(), variants: dup_vec(&self.variants) }
    }
}

#[derive(Debug)]
pub struct InterfaceShape {
    pub name: String,
    pub methods: Vec<FunctionSig>,
}

pub struct InterfaceShapeV {
    pub name: Seq<char>,
    pub methods: Seq<FunctionSigV>,
}

impl View for InterfaceShape {
    type V = InterfaceShapeV;

    open spec fn view(&self) -> InterfaceShapeV {
        InterfaceShapeV { name: self.name@, methods: views(self.methods@) }
    }
}

impl Dup for InterfaceShape {
    fn dup(&self) -> (r: Self) {
        InterfaceShape { name: self.name.clone(), methods: dup_vec(&self.methods) }
    }
}

#[derive(Debug)]
pub struct ActorMessageShape {
    pub name: String,
    pub params: Vec<NamedType>,
    pub responds: TypeId,
}

pub struct ActorMessageShapeV {
    pub name: Seq<char>,
    pub params: Seq<NamedTypeV>,
    pub responds: TypeId,
}

impl View for ActorMessageShape {
    type V = ActorMessageShapeV;

    open spec fn view(&self) -> ActorMessageShapeV {
        ActorMessageShapeV {
            name: self.name@,
            params: views(self.params@),
            responds: self.responds,
        }
    }
}

impl Dup for ActorMessageShape {
    fn dup(&self) -> (r: Self) {
        ActorMessageShape {
            name: self.name.clone(),
            params: dup_vec(&self.params),
            responds: self.responds,
        }
    }
}

#[derive(Debug)]
pub struct ActorShape {
    pub name: String,
    pub capability_params: Vec<NamedType>,
    pub state_fields: Vec<NamedType>,
    pub messages: Vec<ActorMessageShape>,
}

pub struct ActorShapeV {
    pub name: Seq<char>,
    pub capability_params: Seq<NamedTypeV>,
    pub state_fields: Seq<NamedTypeV>,
    pub messages: Seq<ActorMessageShapeV>,
}

impl View for ActorShape {
    type V = ActorShapeV;

    open spec fn view(&self) -> ActorShapeV {
        ActorShapeV {
            name: self.name@,
            capability_params: views(self.capability_params@),
            state_fields: views(self.state_fields@),
            messages: views(self.messages@),
        }
    }
}

impl Dup for ActorShape {
    fn dup(&self) -> (r: Self) {
        ActorShape {
            name: self.name.clone(),
            capability_params: dup_vec(&self.capability_params),
            state_fields: dup_vec(&self.state_fields),
            messages: dup_vec(&self.messages),
        }
    }
}

#[derive(Debug)]
pub struct MachineStateShape {
    pub name: String,
    pub fields: Vec<NamedType>,
}

pub struct MachineStateShapeV {
    pub name: Seq<char>,
    pub fields: Seq<NamedTypeV>,
}

impl View for MachineStateShape {
    type V = MachineStateShapeV;

    open spec fn view(&self) -> MachineStateShapeV {
        MachineStateShapeV { name: self.name@, fields: views(self.fields@) }
    }
}

#[derive(Debug, Clone, Copy, PartialEq, Eq, Structural)]
pub struct MachineTransition {
    pub from: MachineStateId,
    pub to: MachineStateId,
}

#[derive(Debug)]
pub struct MachineShape {
    pub name: String,
    pub states: Vec<MachineStateShape>,
    pub transitions: Vec<MachineTransition>,
}

pub struct MachineShapeV {
    pub name: Seq<char>,
    pub states: Seq<MachineStateShapeV>,
    pub transitions: Seq<MachineTransition>,
}

impl View for MachineShape {
    type V = MachineShapeV;

    open spec fn view(&self) -> MachineShapeV {
        MachineShapeV {
            name: self.name@,
            states: views(self.states@),
            transitions: self.transitions@,
        }
    }
}

/// The first state of that name.
pub open spec fn state_named(m: MachineShapeV, name: Seq<char>) -> Option<MachineStateId> {
    state_named_from(m.states, name, 0)
}

pub open spec fn state_named_from(
    states: Seq<MachineStateShapeV>,
    name: Seq<char>,
    i: nat,
) -> Option<MachineStateId>
    decreases states.len() - i,
{
    if i >= states.len() {
        None
    } else if states[i as int].name == name {
        Some(MachineStateId(i as usize))
    } else {
        state_named_from(states, name, i + 1)
    }
}

impl Dup for MachineStateShape {
    fn dup(&self) -> (r: Self) {
        MachineStateShape { name: self.name.clone(), fields: dup_vec(&self.fields) }
    }
}

impl Dup for MachineShape {
    fn dup(&self) -> (r: Self) {
        let mut transitions: Vec<MachineTransition> = Vec::new();
        let mut i: usize = 0;
        while i < self.transitions.len()
            invariant
                i <= self.transitions@.len(),
                transitions@ =~= self.transitions@.take(i as int),
            decreases self.transitions@.len() - i,
        {
            transitions.push(self.transitions[i]);
            i = i + 1;
        }
        assert(transitions@ =~= self.transitions@);
        MachineShape { name: self.name.clone(), states: dup_vec(&self.states), transitions }
    }
}

impl MachineShape {
    /// The definition of a state.
    pub fn state(&self, id: MachineStateId) -> (r: Option<&MachineStateShape>)
        ensures
            r is Some <==> id.0 < self@.states.len(),
            r matches Some(s) ==> s@ == self@.states[id.0 as int],
    {
        if id.0 < self.states.len() {
            Some(&self.states[id.0])
        } else {
            None
        }
    }

    /// The first state of that name.
    pub fn state_id(&self, name: &String) -> (r: Option<MachineStateId>)
        ensures
            r == state_named(self@, name@),
            r matches Some(id) ==> id.0 < self@.states.len(),
    {
        let mut i: usize = 0;
        while i < self.states.len()
            invariant
                i <= self.states@.len(),
                state_named(self@, name@) == state_named_from(self@.states, name@, i as nat),
            decreases self.states@.len() - i,
        {
            if self.states[i].name == *name {
                return Some(MachineStateId(i));
            }
            i = i + 1;
        }
        None
    }

    /// Whether the machine may go from one state to the other in one step.
    pub fn has_transition(&self, from: MachineStateId, to: MachineStateId) -> (r: bool)
        ensures
            r == self@.transitions.contains(MachineTransition { from, to }),
    {
        let mut i: usize = 0;
        while i < self.transitions.len()
            invariant
                i <= self.transitions@.len(),
                forall|j: int| 0 <= j < i ==> self.transitions@[j] != (MachineTransition { from, to }),
            decreases self.transitions@.len() - i,
        {
            let t = self.transitions[i];
            if t == (MachineTransition { from, to }) {
                assert(self.transitions@[i as int] == t);
                return true;
            }
            i = i + 1;
        }
        false
    }
}

// ---------------------------------------------------------------------------
// The interner
// ---------------------------------------------------------------------------

/// What an interner holds.
pub struct Types {
    pub types: Seq<Type>,
    pub functions: Seq<FunctionShapeV>,
    pub refinements: Seq<RefinementShapeV>,
    pub structs: Seq<StructShapeV>,
    pub bitfields: Seq<BitfieldShapeV>,
    pub enums: Seq<EnumShapeV>,
    pub interfaces: Seq<InterfaceShapeV>,
    pub actors: Seq<ActorShapeV>,
    pub machines: Seq<MachineShapeV>,
}

#[derive(Debug)]
pub struct TypeInterner {
    types: Vec<Type>,
    functions: Vec<FunctionShape>,
    refinements: Vec<RefinementShape>,
    structs: Vec<StructShape>,
    bitfields: Vec<BitfieldShape>,
    enums: Vec<EnumShape>,
    interfaces: Vec<InterfaceShape>,
    actors: Vec<ActorShape>,
    machines: Vec<MachineShape>,
}

impl View for TypeInterner {
    type V = Types;

    closed spec fn view(&self) -> Types {
        Types {
            types: self.types@,
            functions: views(self.functions@),
            refinements: views(self.refinements@),
            structs: views(self.structs@),
            bitfields: views(self.bitfields@),
            enums: views(self.enums@),
            interfaces: views(self.interfaces@),
            actors: views(self.actors@),
            machines: views(self.machines@),
        }
    }
}

/// Every id in `t` names something stored, and the types inside `t` come
/// before place `bound`.
pub open spec fn grounded(ts: Types, t: Type, bound: nat) -> bool {
    match t {
        Type::List(x) => x < bound,
        Type::MapOf(k, v) => k < bound && v < bound,
        Type::SetOf(x) => x < bound,
        Type::Optional(x) => x < bound,
        Type::Result(a, b) => a < bound && b < bound,
        Type::Secret(x) => x < bound,
        Type::Struct(s) => s.0 < ts.structs.len(),
        Type::Bitfield(b) => b.0 < ts.bitfields.len(),
        Type::Enum(e) => e.0 < ts.enums.len(),
        Type::Interface(i) => i.0 < ts.interfaces.len(),
        Type::Actor(a) => a.0 < ts.actors.len(),
        Type::Machine(m) => m.0 < ts.machines.len(),
        Type::MachineState { machine, state } => machine.0 < ts.machines.len(),
        Type::Function(f) => f.0 < ts.functions.len() && shape_grounded(ts.functions[f.0 as int], bound),
        Type::Refinement(r) => r.0 < ts.refinements.len() && ts.refinements[r.0 as int].base < bound,
        _ => true,
    }
}

pub open spec fn shape_grounded(f: FunctionShapeV, bound: nat) -> bool {
    &&& f.return_type < bound
    &&& forall|i: int| 0 <= i < f.params.len() ==> #[trigger] f.params[i] < bound
}

/// The type of that id; an id that was never given out stands for the error type.
pub open spec fn ty(ts: Types, id: TypeId) -> Type {
    if id < ts.types.len() {
        ts.types[id as int]
    } else {
        Type::Error
    }
}

/// Storing `t`: the place it already has, or a new one at the end. A type
/// built from ids that were never given out is the error type.
pub open spec fn intern(ts: Types, t: Type) -> (Types, TypeId) {
    if !grounded(ts, t, ts.types.len()) {
        (ts, TypeInterner::ERROR)
    } else if ts.types.contains(t) {
        (ts, ts.types.index_of(t) as usize)
    } else {
        (Types { types: ts.types.push(t), ..ts }, ts.types.len() as usize)
    }
}

pub open spec fn intern_function(ts: Types, f: FunctionShapeV) -> (Types, TypeId) {
    if !shape_grounded(f, ts.types.len()) {
        (ts, TypeInterner::ERROR)
    } else if ts.functions.contains(f) {
        intern(ts, Type::Function(FunctionTypeId(ts.functions.index_of(f) as usize)))
    } else {
        intern(
            Types { functions: ts.functions.push(f), ..ts },
            Type::Function(FunctionTypeId(ts.functions.len() as usize)),
        )
    }
}

pub open spec fn intern_refinement(ts: Types, f: RefinementShapeV) -> (Types, TypeId) {
    if f.base >= ts.types.len() {
        (ts, TypeInterner::ERROR)
    } else if ts.refinements.contains(f) {
        intern(ts, Type::Refinement(RefinementId(ts.refinements.index_of(f) as usize)))
    } else {
        intern(
            Types { refinements: ts.refinements.push(f), ..ts },
            Type::Refinement(RefinementId(ts.refinements.len() as usize)),
        )
    }
}

/// The list with `v` at a place that it has.
pub open spec fn put_at<T>(s: Seq<T>, i: usize, v: T) -> Seq<T> {
    if i < s.len() {
        s.update(i as int, v)
    } else {
        s
    }
}

/// The types that every interner starts with, in the order of their ids.
#[verifier::opaque]
pub open spec fn basic_types() -> Seq<Type> {
    seq![
        Type::Int8,
        Type::Int16,
        Type::Int32,
        Type::Int64,
        Type::Uint8,
        Type::Uint16,
        Type::Uint32,
        Type::Uint64,
        Type::Float32,
        Type::Float64,
        Type::String,
        Type::Bool,
        Type::Bytes,
        Type::Nothing,
        Type::TypeConstruction,
        Type::Error,
    ]
}

/// An interner that holds the basic types and nothing else.
pub open spec fn only_basic_types() -> Types {
    Types {
        types: basic_types(),
        functions: Seq::empty(),
        refinements: Seq::empty(),
        structs: Seq::empty(),
        bitfields: Seq::empty(),
        enums: Seq::empty(),
        interfaces: Seq::empty(),
        actors: Seq::empty(),
        machines: Seq::empty(),
    }
}

/// The basic types come first, every stored type is grounded in what was stored
/// before it, and nothing is stored twice.
pub open spec fn sound(ts: Types) -> bool {
    &&& goes_on(basic_types(), ts.types)
    &&& forall|i: int|
        0 <= i < ts.types.len() ==> grounded(ts, #[trigger] ts.types[i], i as nat)
    &&& ts.types.no_duplicates()
    &&& ts.functions.no_duplicates()
    &&& ts.refinements.no_duplicates()
}

/// Every basic type has its id.
pub proof fn lemma_basics(ts: Types)
    requires
        sound(ts),
    ensures
        ts.types.len() >= 16,
        ty(ts, TypeInterner::INT8) == Type::Int8,
        ty(ts, TypeInterner::INT16) == Type::Int16,
        ty(ts, TypeInterner::INT32) == Type::Int32,
        ty(ts, TypeInterner::INT64) == Type::Int64,
        ty(ts, TypeInterner::UINT8) == Type::Uint8,
        ty(ts, TypeInterner::UINT16) == Type::Uint16,
        ty(ts, TypeInterner::UINT32) == Type::Uint32,
        ty(ts, TypeInterner::UINT64) == Type::Uint64,
        ty(ts, TypeInterner::FLOAT32) == Type::Float32,
        ty(ts, TypeInterner::FLOAT64) == Type::Float64,
        ty(ts, TypeInterner::STRING) == Type::String,
        ty(ts, TypeInterner::BOOL) == Type::Bool,
        ty(ts, TypeInterner::BYTES) == Type::Bytes,
        ty(ts, TypeInterner::NOTHING) == Type::Nothing,
        ty(ts, TypeInterner::TYPE_CONSTRUCTION) == Type::TypeConstruction,
        ty(ts, TypeInterner::ERROR) == Type::Error,
{
    reveal(basic_types);
}

impl TypeInterner {
    pub const INT8: TypeId = 0;
    pub const INT16: TypeId = 1;
    pub const INT32: TypeId = 2;
    pub const INT64: TypeId = 3;
    pub const UINT8: TypeId = 4;
    pub const UINT16: TypeId = 5;
    pub const UINT32: TypeId = 6;
    pub const UINT64: TypeId = 7;
    pub const FLOAT32: TypeId = 8;
    pub const FLOAT64: TypeId = 9;
    pub const STRING: TypeId = 10;
    pub const BOOL: TypeId = 11;
    pub const BYTES: TypeId = 12;
    pub const NOTHING: TypeId = 13;
    pub const TYPE_CONSTRUCTION: TypeId = 14;
    pub const ERROR: TypeId = 15;

    #[verifier::type_invariant]
    pub open spec fn inv(&self) -> bool {
        sound(self@)
    }

    pub fn new() -> (r: Self)
        ensures
            r@ == only_basic_types(),
            sound(r@),
    {
        proof {
            reveal(basic_types);
        }
        let types = vec![
            Type::Int8,
            Type::Int16,
            Type::Int32,
            Type::Int64,
            Type::Uint8,
            Type::Uint16,
            Type::Uint32,
            Type::Uint64,
            Type::Float32,
            Type::Float64,
            Type::String,
            Type::Bool,
            Type::Bytes,
            Type::Nothing,
            Type::TypeConstruction,
            Type::Error,
        ];
        assert(types@ =~= basic_types());
        let r = TypeInterner {
            types,
            functions: Vec::new(),
            refinements: Vec::new(),
            structs: Vec::new(),
            bitfields: Vec::new(),
            enums: Vec::new(),
            interfaces: Vec::new(),
            actors: Vec::new(),
            machines: Vec::new(),
        };
        assert(r@.functions =~= Seq::<FunctionShapeV>::empty());
        assert(r@.refinements =~= Seq::<RefinementShapeV>::empty());
        assert(r@.structs =~= Seq::<StructShapeV>::empty());
        assert(r@.bitfields =~= Seq::<BitfieldShapeV>::empty());
        assert(r@.enums =~= Seq::<EnumShapeV>::empty());
        assert(r@.interfaces =~= Seq::<InterfaceShapeV>::empty());
        assert(r@.actors =~= Seq::<ActorShapeV>::empty());
        assert(r@.machines =~= Seq::<MachineShapeV>::empty());
        r
    }

    /// How many types are stored: the ids given out are those below.
    pub fn len(&self) -> (r: usize)
        ensures
            r == self@.types.len(),
            sound(self@),
    {
        proof {
            use_type_invariant(self);
        }
        self.types.len()
    }

    /// Every stored type has an id.
    pub proof fn lemma_ids_fit(&self)
        ensures
            self@.types.len() <= usize::MAX,
    {
        let n = self.types.len();
    }

    /// The type of that id.
    pub fn resolve(&self, id: TypeId) -> (r: Type)
        ensures
            r == ty(self@, id),
            grounded(self@, r, id as nat),
            sound(self@),
    {
        proof {
            use_type_invariant(self);
        }
        if id < self.types.len() {
            self.types[id]
        } else {
            Type::Error
        }
    }

    pub fn resolve_function(&self, id: FunctionTypeId) -> (r: &FunctionShape)
        requires
            id.0 < self@.functions.len(),
        ensures
            r@ == self@.functions[id.0 as int],
    {
        &self.functions[id.0]
    }

    pub fn resolve_refinement(&self, id: RefinementId) -> (r: &RefinementShape)
        requires
            id.0 < self@.refinements.len(),
        ensures
            r@ == self@.refinements[id.0 as int],
    {
        &self.refinements[id.0]
    }

    pub fn resolve_struct(&self, id: StructId) -> (r: &StructShape)
        requires
            id.0 < self@.structs.len(),
        ensures
            r@ == self@.structs[id.0 as int],
    {
        &self.structs[id.0]
    }

    pub fn resolve_bitfield(&self, id: BitfieldId) -> (r: &BitfieldShape)
        requires
            id.0 < self@.bitfields.len(),
        ensures
            r@ == self@.bitfields[id.0 as int],
    {
        &self.bitfields[id.0]
    }

    pub fn resolve_enum(&self, id: EnumId) -> (r: &EnumShape)
        requires
            id.0 < self@.enums.len(),
        ensures
            r@ == self@.enums[id.0 as int],
    {
        &self.enums[id.0]
    }

    pub fn resolve_interface(&self, id: InterfaceId) -> (r: &InterfaceShape)
        requires
            id.0 < self@.interfaces.len(),
        ensures
            r@ == self@.interfaces[id.0 as int],
    {
        &self.interfaces[id.0]
    }

    pub fn resolve_actor(&self, id: ActorId) -> (r: &ActorShape)
        requires
            id.0 < self@.actors.len(),
        ensures
            r@ == self@.actors[id.0 as int],
    {
        &self.actors[id.0]
    }

    pub fn resolve_machine(&self, id: MachineId) -> (r: &MachineShape)
        requires
            id.0 < self@.machines.len(),
        ensures
            r@ == self@.machines[id.0 as int],
    {
        &self.machines[id.0]
    }

    fn is_grounded(&self, t: Type) -> (r: bool)
        ensures
            r == grounded(self@, t, self@.types.len()),
    {
        let bound: usize = self.types.len();
        match t {
            Type::List(x) => x < bound,
            Type::MapOf(k, v) => k < bound && v < bound,
            Type::SetOf(x) => x < bound,
            Type::Optional(x) => x < bound,
            Type::Result(a, b) => a < bound && b < bound,
            Type::Secret(x) => x < bound,
            Type::Struct(s) => s.0 < self.structs.len(),
            Type::Bitfield(b) => b.0 < self.bitfields.len(),
            Type::Enum(e) => e.0 < self.enums.len(),
            Type::Interface(i) => i.0 < self.interfaces.len(),
            Type::Actor(a) => a.0 < self.actors.len(),
            Type::Machine(m) => m.0 < self.machines.len(),
            Type::MachineState { machine, state } => machine.0 < self.machines.len(),
            Type::Function(f) => f.0 < self.functions.len() && shape_is_grounded(
                &self.functions[f.0].params,
                self.functions[f.0].return_type,
                bound,
            ),
            Type::Refinement(r) => r.0 < self.refinements.len() && self.refinements[r.0].base < bound,
            _ => true,
        }
    }

    /// The id of `t`, storing it where it is new.
    pub fn intern(&mut self, t: Type) -> (r: TypeId)
        ensures
            r < final(self)@.types.len() || r == Self::ERROR,
            (final(self)@, r) == intern(old(self)@, t),
    {
        proof {
            use_type_invariant(&*self);
        }
        if !self.is_grounded(t) {
            return Self::ERROR;
        }
        let mut i: usize = 0;
        while i < self.types.len()
            invariant
                i <= self.types@.len(),
                *self == *old(self),
                forall|j: int| 0 <= j < i ==> self.types@[j] != t,
            decreases self.types@.len() - i,
        {
            if self.types[i] == t {
                proof {
                    use_type_invariant(&*self);
                    assert(self@.types[i as int] == t);
                    assert(self@.types.index_of(t) == i);
                }
                return i;
            }
            i = i + 1;
        }
        let mut held = Self::new();
        core::mem::swap(self, &mut held);
        let ghost before = held@;
        let TypeInterner {
            mut types,
            functions,
            refinements,
            structs,
            bitfields,
            enums,
            interfaces,
            actors,
            machines,
        } = held;
        let id: usize = types.len();
        types.push(t);
        proof {
            let after = Types { types: before.types.push(t), ..before };
            assert forall|j: int| 0 <= j < after.types.len() implies grounded(
                after,
                #[trigger] after.types[j],
                j as nat,
            ) by {
                if j < before.types.len() {
                    assert(after.types[j] == before.types[j]);
                }
            }
            assert(sound(after));
        }
        *self =
        TypeInterner {
            types,
            functions,
            refinements,
            structs,
            bitfields,
            enums,
            interfaces,
            actors,
            machines,
        };
        id
    }

    /// The id of the type of functions with these parameters and result.
    pub fn intern_function(&mut self, params: Vec<TypeId>, return_type: TypeId) -> (r: TypeId)
        ensures
            r < final(self)@.types.len() || r == Self::ERROR,
            (final(self)@, r) == intern_function(
                old(self)@,
                FunctionShapeV { params: params@, return_type },
            ),
    {
        let ghost f = FunctionShapeV { params: params@, return_type };
        proof {
            use_type_invariant(&*self);
        }
        if !shape_is_grounded(&params, return_type, self.types.len()) {
            return Self::ERROR;
        }
        let mut i: usize = 0;
        while i < self.functions.len()
            invariant
                i <= self.functions@.len(),
                *self == *old(self),
                f == (FunctionShapeV { params: params@, return_type }),
                forall|j: int| 0 <= j < i ==> self@.functions[j] != f,
            decreases self.functions@.len() - i,
        {
            if self.functions[i].return_type == return_type && same_ids(
                &self.functions[i].params,
                &params,
            ) {
                proof {
                    use_type_invariant(&*self);
                    assert(self@.functions[i as int] == f);
                    assert(self@.functions.index_of(f) == i);
                }
                return self.intern(Type::Function(FunctionTypeId(i)));
            }
            i = i + 1;
        }
        let mut held = Self::new();
        core::mem::swap(self, &mut held);
        let ghost before = held@;
        let TypeInterner {
            types,
            mut functions,
            refinements,
            structs,
            bitfields,
            enums,
            interfaces,
            actors,
            machines,
        } = held;
        let id = FunctionTypeId(functions.len());
        functions.push(FunctionShape { params, return_type });
        proof {
            let after = Types { functions: before.functions.push(f), ..before };
            assert(views(functions@) =~= before.functions.push(f));
            assert forall|j: int| 0 <= j < after.types.len() implies grounded(
                after,
                #[trigger] after.types[j],
                j as nat,
            ) by {
                assert(grounded(before, before.types[j], j as nat));
            }
            assert(sound(after));
        }
        *self =
        TypeInterner {
            types,
            functions,
            refinements,
            structs,
            bitfields,
            enums,
            interfaces,
            actors,
            machines,
        };
        self.intern(Type::Function(id))
    }

    /// The id of the refinement of `base` with that name.
    pub fn intern_refinement(&mut self, name: String, base: TypeId) -> (r: TypeId)
        ensures
            r < final(self)@.types.len() || r == Self::ERROR,
            (final(self)@, r) == intern_refinement(
                old(self)@,
                RefinementShapeV { name: name@, base },
            ),
    {
        let ghost f = RefinementShapeV { name: name@, base };
        proof {
            use_type_invariant(&*self);
        }
        if base >= self.types.len() {
            return Self::ERROR;
        }
        let mut i: usize = 0;
        while i < self.refinements.len()
            invariant
                i <= self.refinements@.len(),
                *self == *old(self),
                f == (RefinementShapeV { name: name@, base }),
                forall|j: int| 0 <= j < i ==> self@.refinements[j] != f,
            decreases self.refinements@.len() - i,
        {
            if self.refinements[i].base == base && self.refinements[i].name == name {
                proof {
                    use_type_invariant(&*self);
                    assert(self@.refinements[i as int] == f);
                    assert(self@.refinements.index_of(f) == i);
                }
                return self.intern(Type::Refinement(RefinementId(i)));
            }
            i = i + 1;
        }
        let mut held = Self::new();
        core::mem::swap(self, &mut held);
        let ghost before = held@;
        let TypeInterner {
            types,
            functions,
            mut refinements,
            structs,
            bitfields,
            enums,
            interfaces,
            actors,
            machines,
        } = held;
        let id = RefinementId(refinements.len());
        refinements.push(RefinementShape { name, base });
        proof {
            let after = Types { refinements: before.refinements.push(f), ..before };
            assert(views(refinements@) =~= before.refinements.push(f));
            assert forall|j: int| 0 <= j < after.types.len() implies grounded(
                after,
                #[trigger] after.types[j],
                j as nat,
            ) by {
                assert(grounded(before, before.types[j], j as nat));
            }
            assert(sound(after));
        }
        *self =
        TypeInterner {
            types,
            functions,
            refinements,
            structs,
            bitfields,
            enums,
            interfaces,
            actors,
            machines,
        };
        self.intern(Type::Refinement(id))
    }
}

impl TypeInterner {
    /// A new struct, under a new id.
    pub fn add_struct(&mut self, def: StructShape) -> (r: StructId)
        ensures
            final(self)@ == (Types { structs: old(self)@.structs.push(def@), ..old(self)@ }),
            r.0 == old(self)@.structs.len(),
    {
        proof {
            use_type_invariant(&*self);
        }
        let mut held = Self::new();
        core::mem::swap(self, &mut held);
        let ghost before = held@;
        let TypeInterner {
            types,
            functions,
            refinements,
            mut structs,
            bitfields,
            enums,
            interfaces,
            actors,
            machines,
        } = held;
        let id = StructId(structs.len());
        structs.push(def);
        proof {
            let after = Types { structs: before.structs.push(def@), ..before };
            assert(views(structs@) =~= before.structs.push(def@));
            assert forall|j: int| 0 <= j < after.types.len() implies grounded(
                after,
                #[trigger] after.types[j],
                j as nat,
            ) by {
                assert(grounded(before, before.types[j], j as nat));
            }
            assert(sound(after));
        }
        *self =
        TypeInterner {
            types,
            functions,
            refinements,
            structs,
            bitfields,
            enums,
            interfaces,
            actors,
            machines,
        };
        id
    }

    /// Puts `def` in place of what the id stood for. Nothing changes where it stood
    /// for nothing.
    pub fn update_struct(&mut self, id: StructId, def: StructShape)
        ensures
            final(self)@ == (Types {
                structs: put_at(old(self)@.structs, id.0, def@),
                ..old(self)@
            }),
    {
        proof {
            use_type_invariant(&*self);
        }
        let mut held = Self::new();
        core::mem::swap(self, &mut held);
        let ghost before = held@;
        let TypeInterner {
            types,
            functions,
            refinements,
            mut structs,
            bitfields,
            enums,
            interfaces,
            actors,
            machines,
        } = held;
        if id.0 < structs.len() {
            structs[id.0] = def;
        }
        proof {
            let after = Types { structs: put_at(before.structs, id.0, def@), ..before };
            assert(views(structs@) =~= put_at(before.structs, id.0, def@));
            assert forall|j: int| 0 <= j < after.types.len() implies grounded(
                after,
                #[trigger] after.types[j],
                j as nat,
            ) by {
                assert(grounded(before, before.types[j], j as nat));
            }
            assert(sound(after));
        }
        *self =
        TypeInterner {
            types,
            functions,
            refinements,
            structs,
            bitfields,
            enums,
            interfaces,
            actors,
            machines,
        };
    }

    /// A new bitfield, under a new id.
    pub fn add_bitfield(&mut self, def: BitfieldShape) -> (r: BitfieldId)
        ensures
            final(self)@ == (Types { bitfields: old(self)@.bitfields.push(def@), ..old(self)@ }),
            r.0 == old(self)@.bitfields.len(),
    {
        proof {
            use_type_invariant(&*self);
        }
        let mut held = Self::new();
        core::mem::swap(self, &mut held);
        let ghost before = held@;
        let TypeInterner {
            types,
            functions,
            refinements,
            structs,
            mut bitfields,
            enums,
            interfaces,
            actors,
            machines,
        } = held;
        let id = BitfieldId(bitfields.len());
        bitfields.push(def);
        proof {
            let after = Types { bitfields: before.bitfields.push(def@), ..before };
            assert(views(bitfields@) =~= before.bitfields.push(def@));
            assert forall|j: int| 0 <= j < after.types.len() implies grounded(
                after,
                #[trigger] after.types[j],
                j as nat,
            ) by {
                assert(grounded(before, before.types[j], j as nat));
            }
            assert(sound(after));
        }
        *self =
        TypeInterner {
            types,
            functions,
            refinements,
            structs,
            bitfields,
            enums,
            interfaces,
            actors,
            machines,
        };
        id
    }

    /// Puts `def` in place of what the id stood for. Nothing changes where it stood
    /// for nothing.
    pub fn update_bitfield(&mut self, id: BitfieldId, def: BitfieldShape)
        ensures
            final(self)@ == (Types {
                bitfields: put_at(old(self)@.bitfields, id.0, def@),
                ..old(self)@
            }),
    {
        proof {
            use_type_invariant(&*self);
        }
        let mut held = Self::new();
        core::mem::swap(self, &mut held);
        let ghost before = held@;
        let TypeInterner {
            types,
            functions,
            refinements,
            structs,
            mut bitfields,
            enums,
            interfaces,
            actors,
            machines,
        } = held;
        if id.0 < bitfields.len() {
            bitfields[id.0] = def;
        }
        proof {
            let after = Types { bitfields: put_at(before.bitfields, id.0, def@), ..before };
            assert(views(bitfields@) =~= put_at(before.bitfields, id.0, def@));
            assert forall|j: int| 0 <= j < after.types.len() implies grounded(
                after,
                #[trigger] after.types[j],
                j as nat,
            ) by {
                assert(grounded(before, before.types[j], j as nat));
            }
            assert(sound(after));
        }
        *self =
        TypeInterner {
            types,
            functions,
            refinements,
            structs,
            bitfields,
            enums,
            interfaces,
            actors,
            machines,
        };
    }

    /// A new enum, under a new id.
    pub fn add_enum(&mut self, def: EnumShape) -> (r: EnumId)
        ensures
            final(self)@ == (Types { enums: old(self)@.enums.push(def@), ..old(self)@ }),
            r.0 == old(self)@.enums.len(),
    {
        proof {
            use_type_invariant(&*self);
        }
        let mut held = Self::new();
        core::mem::swap(self, &mut held);
        let ghost before = held@;
        let TypeInterner {
            types,
            functions,
            refinements,
            structs,
            bitfields,
            mut enums,
            interfaces,
            actors,
            machines,
        } = held;
        let id = EnumId(enums.len());
        enums.push(def);
        proof {
            let after = Types { enums: before.enums.push(def@), ..before };
            assert(views(enums@) =~= before.enums.push(def@));
            assert forall|j: int| 0 <= j < after.types.len() implies grounded(
                after,
                #[trigger] after.types[j],
                j as nat,
            ) by {
                assert(grounded(before, before.types[j], j as nat));
            }
            assert(sound(after));
        }
        *self =
        TypeInterner {
            types,
            functions,
            refinements,
            structs,
            bitfields,
            enums,
            interfaces,
            actors,
            machines,
        };
        id
    }

    /// Puts `def` in place of what the id stood for. Nothing changes where it stood
    /// for nothing.
    pub fn update_enum(&mut self, id: EnumId, def: EnumShape)
        ensures
            final(self)@ == (Types {
                enums: put_at(old(self)@.enums, id.0, def@),
                ..old(self)@
            }),
    {
        proof {
            use_type_invariant(&*self);
        }
        let mut held = Self::new();
        core::mem::swap(self, &mut held);
        let ghost before = held@;
        let TypeInterner {
            types,
            functions,
            refinements,
            structs,
            bitfields,
            mut enums,
            interfaces,
            actors,
            machines,
        } = held;
        if id.0 < enums.len() {
            enums[id.0] = def;
        }
        proof {
            let after = Types { enums: put_at(before.enums, id.0, def@), ..before };
            assert(views(enums@) =~= put_at(before.enums, id.0, def@));
            assert forall|j: int| 0 <= j < after.types.len() implies grounded(
                after,
                #[trigger] after.types[j],
                j as nat,
            ) by {
                assert(grounded(before, before.types[j], j as nat));
            }
            assert(sound(after));
        }
        *self =
        TypeInterner {
            types,
            functions,
            refinements,
            structs,
            bitfields,
            enums,
            interfaces,
            actors,
            machines,
        };
    }

    /// A new interface, under a new id.
    pub fn add_interface(&mut self, def: InterfaceShape) -> (r: InterfaceId)
        ensures
            final(self)@ == (Types { interfaces: old(self)@.interfaces.push(def@), ..old(self)@ }),
            r.0 == old(self)@.interfaces.len(),
    {
        proof {
            use_type_invariant(&*self);
        }
        let mut held = Self::new();
        core::mem::swap(self, &mut held);
        let ghost before = held@;
        let TypeInterner {
            types,
            functions,
            refinements,
            structs,
            bitfields,
            enums,
            mut interfaces,
            actors,
            machines,
        } = held;
        let id = InterfaceId(interfaces.len());
        interfaces.push(def);
        proof {
            let after = Types { interfaces: before.interfaces.push(def@), ..before };
            assert(views(interfaces@) =~= before.interfaces.push(def@));
            assert forall|j: int| 0 <= j < after.types.len() implies grounded(
                after,
                #[trigger] after.types[j],
                j as nat,
            ) by {
                assert(grounded(before, before.types[j], j as nat));
            }
            assert(sound(after));
        }
        *self =
        TypeInterner {
            types,
            functions,
            refinements,
            structs,
            bitfields,
            enums,
            interfaces,
            actors,
            machines,
        };
        id
    }

    /// Puts `def` in place of what the id stood for. Nothing changes where it stood
    /// for nothing.
    pub fn update_interface(&mut self, id: InterfaceId, def: InterfaceShape)
        ensures
            final(self)@ == (Types {
                interfaces: put_at(old(self)@.interfaces, id.0, def@),
                ..old(self)@
            }),
    {
        proof {
            use_type_invariant(&*self);
        }
        let mut held = Self::new();
        core::mem::swap(self, &mut held);
        let ghost before = held@;
        let TypeInterner {
            types,
            functions,
            refinements,
            structs,
            bitfields,
            enums,
            mut interfaces,
            actors,
            machines,
        } = held;
        if id.0 < interfaces.len() {
            interfaces[id.0] = def;
        }
        proof {
            let after = Types { interfaces: put_at(before.interfaces, id.0, def@), ..before };
            assert(views(interfaces@) =~= put_at(before.interfaces, id.0, def@));
            assert forall|j: int| 0 <= j < after.types.len() implies grounded(
                after,
                #[trigger] after.types[j],
                j as nat,
            ) by {
                assert(grounded(before, before.types[j], j as nat));
            }
            assert(sound(after));
        }
        *self =
        TypeInterner {
            types,
            functions,
            refinements,
            structs,
            bitfields,
            enums,
            interfaces,
            actors,
            machines,
        };
    }

    /// A new actor, under a new id.
    pub fn add_actor(&mut self, def: ActorShape) -> (r: ActorId)
        ensures
            final(self)@ == (Types { actors: old(self)@.actors.push(def@), ..old(self)@ }),
            r.0 == old(self)@.actors.len(),
    {
        proof {
            use_type_invariant(&*self);
        }
        let mut held = Self::new();
        core::mem::swap(self, &mut held);
        let ghost before = held@;
        let TypeInterner {
            types,
            functions,
            refinements,
            structs,
            bitfields,
            enums,
            interfaces,
            mut actors,
            machines,
        } = held;
        let id = ActorId(actors.len());
        actors.push(def);
        proof {
            let after = Types { actors: before.actors.push(def@), ..before };
            assert(views(actors@) =~= before.actors.push(def@));
            assert forall|j: int| 0 <= j < after.types.len() implies grounded(
                after,
                #[trigger] after.types[j],
                j as nat,
            ) by {
                assert(grounded(before, before.types[j], j as nat));
            }
            assert(sound(after));
        }
        *self =
        TypeInterner {
            types,
            functions,
            refinements,
            structs,
            bitfields,
            enums,
            interfaces,
            actors,
            machines,
        };
        id
    }

    /// Puts `def` in place of what the id stood for. Nothing changes where it stood
    /// for nothing.
    pub fn update_actor(&mut self, id: ActorId, def: ActorShape)
        ensures
            final(self)@ == (Types {
                actors: put_at(old(self)@.actors, id.0, def@),
                ..old(self)@
            }),
    {
        proof {
            use_type_invariant(&*self);
        }
        let mut held = Self::new();
        core::mem::swap(self, &mut held);
        let ghost before = held@;
        let TypeInterner {
            types,
            functions,
            refinements,
            structs,
            bitfields,
            enums,
            interfaces,
            mut actors,
            machines,
        } = held;
        if id.0 < actors.len() {
            actors[id.0] = def;
        }
        proof {
            let after = Types { actors: put_at(before.actors, id.0, def@), ..before };
            assert(views(actors@) =~= put_at(before.actors, id.0, def@));
            assert forall|j: int| 0 <= j < after.types.len() implies grounded(
                after,
                #[trigger] after.types[j],
                j as nat,
            ) by {
                assert(grounded(before, before.types[j], j as nat));
            }
            assert(sound(after));
        }
        *self =
        TypeInterner {
            types,
            functions,
            refinements,
            structs,
            bitfields,
            enums,
            interfaces,
            actors,
            machines,
        };
    }

    /// A new machine, under a new id.
    pub fn add_machine(&mut self, def: MachineShape) -> (r: MachineId)
        ensures
            final(self)@ == (Types { machines: old(self)@.machines.push(def@), ..old(self)@ }),
            r.0 == old(self)@.machines.len(),
    {
        proof {
            use_type_invariant(&*self);
        }
        let mut held = Self::new();
        core::mem::swap(self, &mut held);
        let ghost before = held@;
        let TypeInterner {
            types,
            functions,
            refinements,
            structs,
            bitfields,
            enums,
            interfaces,
            actors,
            mut machines,
        } = held;
        let id = MachineId(machines.len());
        machines.push(def);
        proof {
            let after = Types { machines: before.machines.push(def@), ..before };
            assert(views(machines@) =~= before.machines.push(def@));
            assert forall|j: int| 0 <= j < after.types.len() implies grounded(
                after,
                #[trigger] after.types[j],
                j as nat,
            ) by {
                assert(grounded(before, before.types[j], j as nat));
            }
            assert(sound(after));
        }
        *self =
        TypeInterner {
            types,
            functions,
            refinements,
            structs,
            bitfields,
            enums,
            interfaces,
            actors,
            machines,
        };
        id
    }

    /// Puts `def` in place of what the id stood for. Nothing changes where it stood
    /// for nothing.
    pub fn update_machine(&mut self, id: MachineId, def: MachineShape)
        ensures
            final(self)@ == (Types {
                machines: put_at(old(self)@.machines, id.0, def@),
                ..old(self)@
            }),
    {
        proof {
            use_type_invariant(&*self);
        }
        let mut held = Self::new();
        core::mem::swap(self, &mut held);
        let ghost before = held@;
        let TypeInterner {
            types,
            functions,
            refinements,
            structs,
            bitfields,
            enums,
            interfaces,
            actors,
            mut machines,
        } = held;
        if id.0 < machines.len() {
            machines[id.0] = def;
        }
        proof {
            let after = Types { machines: put_at(before.machines, id.0, def@), ..before };
            assert(views(machines@) =~= put_at(before.machines, id.0, def@));
            assert forall|j: int| 0 <= j < after.types.len() implies grounded(
                after,
                #[trigger] after.types[j],
                j as nat,
            ) by {
                assert(grounded(before, before.types[j], j as nat));
            }
            assert(sound(after));
        }
        *self =
        TypeInterner {
            types,
            functions,
            refinements,
            structs,
            bitfields,
            enums,
            interfaces,
            actors,
            machines,
        };
    }

}

fn shape_is_grounded(params: &Vec<TypeId>, return_type: TypeId, bound: usize) -> (r: bool)
    ensures
        r == shape_grounded(FunctionShapeV { params: params@, return_type }, bound as nat),
{
    let ghost f = FunctionShapeV { params: params@, return_type };
    let mut i: usize = 0;
    while i < params.len()
        invariant
            i <= params@.len(),
            f == (FunctionShapeV { params: params@, return_type }),
            forall|j: int| 0 <= j < i ==> #[trigger] params@[j] < bound,
        decreases params@.len() - i,
    {
        if params[i] >= bound {
            assert(f.params[i as int] >= bound);
            return false;
        }
        i = i + 1;
    }
    return_type < bound
}

/// Whether both lists hold the same ids in the same order.
pub fn same_ids(a: &Vec<TypeId>, b: &Vec<TypeId>) -> (r: bool)
    ensures
        r == (a@ == b@),
{
    if a.len() != b.len() {
        return false;
    }
    let mut i: usize = 0;
    while i < a.len()
        invariant
            i <= a@.len(),
            a@.len() == b@.len(),
            forall|j: int| 0 <= j < i ==> a@[j] == b@[j],
        decreases a@.len() - i,
    {
        if a[i] != b[i] {
            assert(a@[i as int] != b@[i as int]);
            return false;
        }
        i = i + 1;
    }
    assert(a@ =~= b@);
    true
}

} // verus!
