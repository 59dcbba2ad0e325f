//! How a type is written.
use vstd::prelude::*;
use vstd::string::StringExecFns;

use crate::steady::goes_on;
use crate::text::{join2, join3, text};
use crate::types::{
    grounded, sound, ty, MachineShapeV, MachineStateId, Type, TypeId, TypeInterner, Types,
};

verus! {

/// The name of a state together with its machine.
pub open spec fn machine_state_name(m: MachineShapeV, state: MachineStateId) -> Seq<char> {
    if state.0 < m.states.len() {
        m.name + " at "@ + m.states[state.0 as int].name
    } else {
        m.name + " at "@ + "<unknown>"@
    }
}

/// The written form of a type.
pub open spec fn name_of(ts: Types, id: TypeId) -> Seq<char>
    decreases id, 1nat, 0nat,
    when sound(ts)
{
    match ty(ts, id) {
        Type::Int8 => "int8"@,
        Type::Int16 => "int16"@,
        Type::Int32 => "int32"@,
        Type::Int64 => "int64"@,
        Type::Uint8 => "uint8"@,
        Type::Uint16 => "uint16"@,
        Type::Uint32 => "uint32"@,
        Type::Uint64 => "uint64"@,
        Type::Float32 => "float32"@,
        Type::Float64 => "float64"@,
        Type::String => "string"@,
        Type::Bool => "bool"@,
        Type::Bytes => "bytes"@,
        Type::Nothing => "nothing"@,
        Type::TypeConstruction => "TypeConstruction"@,
        Type::List(x) => "list["@ + name_of(ts, x) + "]"@,
        Type::MapOf(k, v) => "map["@ + name_of(ts, k) + ", "@ + name_of(ts, v) + "]"@,
        Type::SetOf(x) => "set["@ + name_of(ts, x) + "]"@,
        Type::Optional(x) => "optional["@ + name_of(ts, x) + "]"@,
        Type::Result(a, b) => "result["@ + name_of(ts, a) + ", "@ + name_of(ts, b) + "]"@,
        Type::Secret(x) => "secret["@ + name_of(ts, x) + "]"@,
        Type::Struct(s) => ts.structs[s.0 as int].name,
        Type::Bitfield(b) => ts.bitfields[b.0 as int].name,
        Type::Enum(e) => ts.enums[e.0 as int].name,
        Type::Interface(i) => ts.interfaces[i.0 as int].name,
        Type::Actor(a) => ts.actors[a.0 as int].name,
        Type::Machine(m) => ts.machines[m.0 as int].name,
        Type::MachineState { machine, state } => machine_state_name(
            ts.machines[machine.0 as int],
            state,
        ),
        Type::Function(f) => "function("@ + param_names(ts, id, 0) + ") returns "@ + name_of(
            ts,
            ts.functions[f.0 as int].return_type,
        ),
        Type::Refinement(r) => ts.refinements[r.0 as int].name,
        Type::Error => "<error>"@,
    }
}

/// The parameter types of the function type `id` from `i` on, with commas between.
pub open spec fn param_names(ts: Types, id: TypeId, i: nat) -> Seq<char>
    decreases id, 0nat, ts.functions[ty(ts, id)->Function_0.0 as int].params.len() + 1 - i,
    when sound(ts) && ty(ts, id) is Function
{
    let params = ts.functions[ty(ts, id)->Function_0.0 as int].params;
    if i >= params.len() {
        Seq::empty()
    } else if i + 1 == params.len() {
        name_of(ts, params[i as int])
    } else {
        name_of(ts, params[i as int]) + ", "@ + param_names(ts, id, i + 1)
    }
}

/// Whether `b` is `a` with more types and structs.
pub open spec fn more_structs(a: Types, b: Types) -> bool {
    &&& goes_on(a.types, b.types)
    &&& goes_on(a.structs, b.structs)
    &&& b == (Types { types: b.types, structs: b.structs, ..a })
}

/// Types keep their written form while types and structs are added.
pub proof fn lemma_names_stay(a: Types, b: Types, id: TypeId)
    requires
        sound(a),
        sound(b),
        more_structs(a, b),
        id < a.types.len(),
    ensures
        name_of(a, id) == name_of(b, id),
    decreases id, 1nat, 0nat,
{
    assert(ty(a, id) == ty(b, id));
    assert(grounded(a, a.types[id as int], id as nat));
    match ty(a, id) {
        Type::List(x) => lemma_names_stay(a, b, x),
        Type::SetOf(x) => lemma_names_stay(a, b, x),
        Type::Optional(x) => lemma_names_stay(a, b, x),
        Type::Secret(x) => lemma_names_stay(a, b, x),
        Type::MapOf(k, v) => {
            lemma_names_stay(a, b, k);
            lemma_names_stay(a, b, v);
        },
        Type::Result(k, v) => {
            lemma_names_stay(a, b, k);
            lemma_names_stay(a, b, v);
        },
        Type::Function(f) => {
            lemma_names_stay(a, b, a.functions[f.0 as int].return_type);
            lemma_param_names_stay(a, b, id, 0);
        },
        _ => {},
    }
}

proof fn lemma_param_names_stay(a: Types, b: Types, id: TypeId, i: nat)
    requires
        sound(a),
        sound(b),
        more_structs(a, b),
        id < a.types.len(),
        ty(a, id) is Function,
    ensures
        param_names(a, id, i) == param_names(b, id, i),
    decreases id, 0nat, a.functions[ty(a, id)->Function_0.0 as int].params.len() + 1 - i,
{
    assert(ty(a, id) == ty(b, id));
    assert(grounded(a, a.types[id as int], id as nat));
    let params = a.functions[ty(a, id)->Function_0.0 as int].params;
    if i < params.len() {
        assert(params[i as int] < id);
        lemma_names_stay(a, b, params[i as int]);
        lemma_param_names_stay(a, b, id, i + 1);
    }
}

impl TypeInterner {
    /// The written form of a type.
    pub fn name_of(&self, id: TypeId) -> (r: String)
        ensures
            r@ == name_of(self@, id),
        decreases id, 1nat, 0nat,
    {
        match self.resolve(id) {
            Type::Int8 => text("int8"),
            Type::Int16 => text("int16"),
            Type::Int32 => text("int32"),
            Type::Int64 => text("int64"),
            Type::Uint8 => text("uint8"),
            Type::Uint16 => text("uint16"),
            Type::Uint32 => text("uint32"),
            Type::Uint64 => text("uint64"),
            Type::Float32 => text("float32"),
            Type::Float64 => text("float64"),
            Type::String => text("string"),
            Type::Bool => text("bool"),
            Type::Bytes => text("bytes"),
            Type::Nothing => text("nothing"),
            Type::TypeConstruction => text("TypeConstruction"),
            Type::List(x) => join3("list[", self.name_of(x).as_str(), "]"),
            Type::MapOf(k, v) => {
                let left = join3("map[", self.name_of(k).as_str(), ", ");
                join3(left.as_str(), self.name_of(v).as_str(), "]")
            },
            Type::SetOf(x) => join3("set[", self.name_of(x).as_str(), "]"),
            Type::Optional(x) => join3("optional[", self.name_of(x).as_str(), "]"),
            Type::Result(a, b) => {
                let left = join3("result[", self.name_of(a).as_str(), ", ");
                join3(left.as_str(), self.name_of(b).as_str(), "]")
            },
            Type::Secret(x) => join3("secret[", self.name_of(x).as_str(), "]"),
            Type::Struct(s) => self.resolve_struct(s).name.clone(),
            Type::Bitfield(b) => self.resolve_bitfield(b).name.clone(),
            Type::Enum(e) => self.resolve_enum(e).name.clone(),
            Type::Interface(i) => self.resolve_interface(i).name.clone(),
            Type::Actor(a) => self.resolve_actor(a).name.clone(),
            Type::Machine(m) => self.resolve_machine(m).name.clone(),
            Type::MachineState { machine, state } => {
                let def = self.resolve_machine(machine);
                match def.state(state) {
                    Some(s) => join3(def.name.as_str(), " at ", s.name.as_str()),
                    None => join3(def.name.as_str(), " at ", "<unknown>"),
                }
            },
            Type::Function(f) => {
                let params = self.param_names(id);
                let left = join3("function(", params.as_str(), ") returns ");
                join2(left.as_str(), self.name_of(self.resolve_function(f).return_type).as_str())
            },
            Type::Refinement(r) => self.resolve_refinement(r).name.clone(),
            Type::Error => text("<error>"),
        }
    }

    fn param_names(&self, id: TypeId) -> (r: String)
        requires
            ty(self@, id) is Function,
        ensures
            r@ == param_names(self@, id, 0),
        decreases id, 0nat, self@.functions[ty(self@, id)->Function_0.0 as int].params.len() + 2,
    {
        let mut r = String::new();
        if let Type::Function(f) = self.resolve(id) {
            let shape = self.resolve_function(f);
            let mut i: usize = 0;
            assert(r@ + param_names(self@, id, 0) =~= param_names(self@, id, 0));
            while i < shape.params.len()
                invariant
                    i <= shape.params@.len(),
                    sound(self@),
                    ty(self@, id) == Type::Function(f),
                    grounded(self@, Type::Function(f), id as nat),
                    shape@ == self@.functions[f.0 as int],
                    r@ + param_names(self@, id, i as nat) == param_names(self@, id, 0),
                decreases shape.params@.len() - i,
            {
                let ghost before = r@;
                assert(shape@.params[i as int] < id);
                r.append(self.name_of(shape.params[i]).as_str());
                if i + 1 < shape.params.len() {
                    r.append(", ");
                }
                proof {
                    let rest = param_names(self@, id, (i + 1) as nat);
                    assert(r@ + rest =~= before + param_names(self@, id, i as nat));
                }
                i = i + 1;
            }
            assert(r@ + Seq::<char>::empty() =~= r@);
        }
        r
    }
}

} // verus!
