//! What holds between types: which value fits where, what is secret, what can
//! go through JSON.
use vstd::prelude::*;

use crate::table::{views, Table};
use crate::text::same_text;
use crate::type_names::name_of;
use crate::type_walk::{contains_id, law_walk_meets_each_part_once, made_of, walk, WalkMode};
use crate::types::{
    grounded, intern, sound, ty, BitfieldFieldShape, BitfieldFieldShapeV, FunctionSig, FunctionSigV,
    NamedType, NamedTypeV, Type, TypeId, TypeInterner, Types,
};

verus! {

/// The implemented interfaces: by interface and implementing type, the methods.
pub type Impls = Map<(TypeId, TypeId), Map<Seq<char>, FunctionSigV>>;

// ---------------------------------------------------------------------------
// Numbers
// ---------------------------------------------------------------------------

pub open spec fn numeric(t: Type) -> bool {
    match t {
        Type::Int8 | Type::Int16 | Type::Int32 | Type::Int64 => true,
        Type::Uint8 | Type::Uint16 | Type::Uint32 | Type::Uint64 => true,
        Type::Float32 | Type::Float64 => true,
        _ => false,
    }
}

pub open spec fn fractional(t: Type) -> bool {
    t is Float32 || t is Float64
}

/// The values that an integer type holds, lowest and highest.
pub open spec fn integer_range(t: Type) -> Option<(int, int)> {
    match t {
        Type::Int8 => Some((-0x80, 0x7f)),
        Type::Int16 => Some((-0x8000, 0x7fff)),
        Type::Int32 => Some((-0x8000_0000, 0x7fff_ffff)),
        Type::Int64 => Some((-0x8000_0000_0000_0000, 0x7fff_ffff_ffff_ffff)),
        Type::Uint8 => Some((0, 0xff)),
        Type::Uint16 => Some((0, 0xffff)),
        Type::Uint32 => Some((0, 0xffff_ffff)),
        Type::Uint64 => Some((0, 0xffff_ffff_ffff_ffff)),
        _ => None,
    }
}

pub open spec fn literal_fits(t: Type, value: int) -> bool {
    match integer_range(t) {
        Some((low, high)) => low <= value <= high,
        None => false,
    }
}

/// What a secret holds; any other type stays as it is.
pub open spec fn revealed(ts: Types, id: TypeId) -> TypeId {
    match ty(ts, id) {
        Type::Secret(x) => x,
        _ => id,
    }
}

pub open spec fn secret_inner(ts: Types, id: TypeId) -> Option<TypeId> {
    match ty(ts, id) {
        Type::Secret(x) => Some(x),
        _ => None,
    }
}

pub open spec fn int_literal_matches(ts: Types, value: int, expected: TypeId) -> bool {
    literal_fits(ty(ts, revealed(ts, expected)), value)
}

pub open spec fn float_literal_matches(ts: Types, expected: TypeId) -> bool {
    fractional(ty(ts, revealed(ts, expected)))
}

pub open spec fn expected_numeric(ts: Types, expected: TypeId) -> Option<TypeId> {
    if numeric(ty(ts, revealed(ts, expected))) {
        Some(revealed(ts, expected))
    } else {
        None
    }
}

// ---------------------------------------------------------------------------
// Refinements
// ---------------------------------------------------------------------------

pub open spec fn refinement_base(ts: Types, id: TypeId) -> Option<TypeId> {
    match ty(ts, id) {
        Type::Refinement(r) => Some(ts.refinements[r.0 as int].base),
        _ => None,
    }
}

/// The type below every refinement.
pub open spec fn fully_coarsened(ts: Types, id: TypeId) -> TypeId
    decreases id,
    when sound(ts)
{
    match refinement_base(ts, id) {
        Some(base) => fully_coarsened(ts, base),
        None => id,
    }
}

/// Whether `target` is a type that `source` refines, in one step or more.
pub open spec fn can_coarsen(ts: Types, source: TypeId, target: TypeId) -> bool
    decreases source,
    when sound(ts)
{
    match refinement_base(ts, source) {
        Some(base) => base == target || can_coarsen(ts, base, target),
        None => false,
    }
}

/// Whether a value of `source` can be tested against the refinement: `source`
/// is one of the types below it, or what one of them holds in secret.
pub open spec fn can_refine(ts: Types, source: TypeId, refinement: TypeId) -> bool
    decreases refinement,
    when sound(ts)
{
    match refinement_base(ts, refinement) {
        Some(base) => base == source || secret_inner(ts, base) == Some(source) || can_refine(
            ts,
            source,
            base,
        ),
        None => false,
    }
}

pub open spec fn refinement_boundary_input(ts: Types, id: TypeId) -> TypeId {
    revealed(ts, fully_coarsened(ts, id))
}

// ---------------------------------------------------------------------------
// Compatibility
// ---------------------------------------------------------------------------

/// Whether a value of type `got` may stand where `expected` is asked for. The
/// error type fits everywhere; a public value may become secret, never the
/// other way; a state of a machine fits the machine.
pub open spec fn compatible(ts: Types, impls: Impls, expected: TypeId, got: TypeId) -> bool
    decreases expected,
    when sound(ts)
{
    ||| expected == got
    ||| expected == TypeInterner::ERROR
    ||| got == TypeInterner::ERROR
    ||| match (ty(ts, expected), ty(ts, got)) {
        (Type::Interface(_), Type::Interface(_)) => false,
        (Type::Interface(_), _) => impls.contains_key((expected, got)),
        (Type::Secret(e), Type::Secret(g)) => compatible(ts, impls, e, g),
        (Type::Secret(e), _) => compatible(ts, impls, e, got),
        (Type::List(e), Type::List(g)) => compatible(ts, impls, e, g),
        (Type::Optional(e), Type::Optional(g)) => compatible(ts, impls, e, g),
        (Type::SetOf(e), Type::SetOf(g)) => compatible(ts, impls, e, g),
        (Type::MapOf(ek, ev), Type::MapOf(gk, gv)) => compatible(ts, impls, ek, gk) && compatible(
            ts,
            impls,
            ev,
            gv,
        ),
        (Type::Result(ek, ev), Type::Result(gk, gv)) => compatible(ts, impls, ek, gk) && compatible(
            ts,
            impls,
            ev,
            gv,
        ),
        (Type::Function(e), Type::Function(g)) => {
            let es = ts.functions[e.0 as int];
            let gs = ts.functions[g.0 as int];
            &&& es.params.len() == gs.params.len()
            &&& forall|i: int|
                0 <= i < es.params.len() ==> compatible(ts, impls, #[trigger] es.params[i], gs.params[i])
            &&& compatible(ts, impls, es.return_type, gs.return_type)
        },
        (Type::Machine(e), Type::MachineState { machine, state }) => e == machine,
        _ => false,
    }
}

pub open spec fn satisfies(ts: Types, impls: Impls, expected: TypeId, got: TypeId) -> bool {
    compatible(ts, impls, expected, got) || (ty(ts, expected) is Refinement && can_refine(
        ts,
        got,
        expected,
    ))
}

/// A result whose value would fit, where no result is asked for.
pub open spec fn requires_handle_error(ts: Types, impls: Impls, expected: TypeId, got: TypeId) -> bool {
    match ty(ts, got) {
        Type::Result(ok, _) => !(ty(ts, expected) is Result) && satisfies(ts, impls, expected, ok),
        _ => false,
    }
}

/// An optional whose value would fit, where neither optional nor result is asked for.
pub open spec fn requires_bare_handle(ts: Types, impls: Impls, expected: TypeId, got: TypeId) -> bool {
    match ty(ts, got) {
        Type::Optional(inner) => !(ty(ts, expected) is Result) && !(ty(ts, expected) is Optional)
            && satisfies(ts, impls, expected, inner),
        _ => false,
    }
}

/// Whether an argument fits, and whether it fits only as what it holds in secret.
pub open spec fn secret_argument(ts: Types, impls: Impls, expected: TypeId, got: TypeId) -> (bool, bool) {
    if compatible(ts, impls, expected, got) {
        (true, false)
    } else {
        match secret_inner(ts, got) {
            Some(inner) => if compatible(ts, impls, expected, inner) {
                (true, true)
            } else {
                (false, false)
            },
            None => (false, false),
        }
    }
}

/// A type made secret where it is tainted. Nothing and the error type stay.
pub open spec fn wrap_secret(ts: Types, id: TypeId, tainted: bool) -> (Types, TypeId) {
    if !tainted || id == TypeInterner::ERROR || id == TypeInterner::NOTHING || ty(ts, id) is Secret {
        (ts, id)
    } else {
        intern(ts, Type::Secret(id))
    }
}

// ---------------------------------------------------------------------------
// Secrets and JSON
// ---------------------------------------------------------------------------

pub open spec fn open_parts() -> WalkMode {
    WalkMode { into_secrets: false, into_keys: true, into_machines: true }
}

pub open spec fn all_parts() -> WalkMode {
    WalkMode { into_secrets: true, into_keys: true, into_machines: true }
}

/// Whether a secret is somewhere inside a type.
pub open spec fn contains_secret(ts: Types, id: TypeId) -> bool {
    exists|x: TypeId| #[trigger] made_of(ts, open_parts(), id, x) && ty(ts, x) is Secret
}

/// Whether the public form of a value leaves out every secret inside: secrets
/// in fields are dropped, secrets in elements or variants are not.
pub open spec fn public_projection(ts: Types, id: TypeId) -> bool
    decreases id,
    when sound(ts)
{
    match ty(ts, id) {
        Type::Secret(_) => false,
        Type::List(x) => public_projection(ts, x),
        Type::SetOf(x) => public_projection(ts, x),
        Type::Optional(x) => public_projection(ts, x),
        Type::MapOf(k, v) => public_projection(ts, k) && public_projection(ts, v),
        Type::Result(k, v) => public_projection(ts, k) && public_projection(ts, v),
        Type::Enum(_) => !contains_secret(ts, id),
        Type::Refinement(r) => public_projection(ts, ts.refinements[r.0 as int].base),
        _ => true,
    }
}

/// Whether reading a value for JSON takes a `view`.
pub open spec fn json_needs_view(ts: Types, id: TypeId) -> bool
    decreases id,
    when sound(ts)
{
    match ty(ts, id) {
        Type::Int8 | Type::Int16 | Type::Int32 | Type::Int64 => false,
        Type::Uint8 | Type::Uint16 | Type::Uint32 | Type::Uint64 => false,
        Type::Float32 | Type::Float64 => false,
        Type::String | Type::Bool | Type::Nothing | Type::Error => false,
        Type::Refinement(r) => json_needs_view(ts, ts.refinements[r.0 as int].base),
        _ => true,
    }
}

/// The written forms of types.
pub open spec fn names_of(ts: Types, ids: Seq<TypeId>) -> Seq<Seq<char>> {
    ids.map_values(|id: TypeId| name_of(ts, id))
}

/// Types that no JSON value stands for.
pub open spec fn json_unsupported(t: Type, machines: bool) -> bool {
    match t {
        Type::TypeConstruction | Type::Interface(_) | Type::Actor(_) | Type::Function(_) => true,
        Type::Machine(_) => !machines,
        Type::MachineState { machine, state } => !machines,
        _ => false,
    }
}

/// Those of `ids` from `i` on that no JSON value stands for.
pub open spec fn unsupported_among(ts: Types, machines: bool, ids: Seq<TypeId>, i: nat) -> Seq<TypeId>
    decreases ids.len() - i,
{
    if i >= ids.len() {
        Seq::empty()
    } else if json_unsupported(ty(ts, ids[i as int]), machines) {
        seq![ids[i as int]] + unsupported_among(ts, machines, ids, i + 1)
    } else {
        unsupported_among(ts, machines, ids, i + 1)
    }
}

/// The types inside `id` that no JSON value stands for, in the order in which
/// they are met.
pub open spec fn json_unsupported_in(ts: Types, id: TypeId, into_secrets: bool, machines: bool) -> Seq<
    TypeId,
> {
    let mode = WalkMode { into_secrets, into_keys: false, into_machines: machines };
    unsupported_among(ts, machines, walk(ts, mode, id), 0)
}

/// The key types other than `string` of the maps among `ids` from `i` on, each
/// once, after those in `found`.
pub open spec fn odd_keys_among(ts: Types, ids: Seq<TypeId>, i: nat, found: Seq<TypeId>) -> Seq<TypeId>
    decreases ids.len() - i,
{
    if i >= ids.len() {
        found
    } else {
        let next = match ty(ts, ids[i as int]) {
            Type::MapOf(k, _) => if k != TypeInterner::STRING && !found.contains(k) {
                found.push(k)
            } else {
                found
            },
            _ => found,
        };
        odd_keys_among(ts, ids, i + 1, next)
    }
}

/// The key types other than `string` of the maps inside `id`.
pub open spec fn json_odd_keys(ts: Types, id: TypeId) -> Seq<TypeId> {
    odd_keys_among(ts, walk(ts, all_parts(), id), 0, Seq::empty())
}

pub open spec fn secret_fields_among(ts: Types, fields: Seq<NamedTypeV>, i: nat) -> Seq<Seq<char>>
    decreases fields.len() - i,
{
    if i >= fields.len() {
        Seq::empty()
    } else if contains_secret(ts, fields[i as int].ty) {
        seq![fields[i as int].name] + secret_fields_among(ts, fields, i + 1)
    } else {
        secret_fields_among(ts, fields, i + 1)
    }
}

/// The fields of a bitfield, by name and type.
pub open spec fn slot_fields(fields: Seq<BitfieldFieldShapeV>) -> Seq<NamedTypeV> {
    fields.map_values(|f: BitfieldFieldShapeV| NamedTypeV { name: f.name, ty: f.ty })
}

/// The fields of a struct or bitfield that hold something secret.
pub open spec fn secret_fields(ts: Types, id: TypeId) -> Seq<Seq<char>> {
    match ty(ts, id) {
        Type::Struct(s) => secret_fields_among(ts, ts.structs[s.0 as int].fields, 0),
        Type::Bitfield(b) => secret_fields_among(ts, slot_fields(ts.bitfields[b.0 as int].fields), 0),
        _ => Seq::empty(),
    }
}

// ---------------------------------------------------------------------------
// Calls and secrets
// ---------------------------------------------------------------------------

/// Calls that hand a value to the outside.
pub open spec fn output_boundary(name: Seq<char>) -> bool {
    ||| name == "Stdout.write"@
    ||| name == "print"@
    ||| name == "println"@
    ||| name == "json.serialize"@
    ||| name == "json.serialize_public"@
    ||| name == "json.serialize_raw"@
    ||| name == "Filesystem.write_file"@
    ||| name == "log"@
    ||| name == "http.respond"@
}

pub open spec fn impure_builtin(name: Seq<char>) -> bool {
    ||| name == "Stdout.write"@
    ||| name == "Environment.args"@
    ||| name == "Filesystem.read_file"@
    ||| name == "Filesystem.write_file"@
}

pub open spec fn secret_safe_builtin(name: Seq<char>) -> bool {
    name == "secret.redact"@ || name == "secret.compare"@
}

/// Whether a call on a secret gives a secret, as its public form gives a public value.
pub open spec fn secret_liftable(name: Seq<char>, pure: bool) -> bool {
    pure && !output_boundary(name) && !secret_safe_builtin(name)
}

pub fn is_secret_output_boundary(name: &str) -> (r: bool)
    ensures
        r == output_boundary(name@),
{
    same_text(name, "Stdout.write") || same_text(name, "print") || same_text(name, "println")
        || same_text(name, "json.serialize") || same_text(name, "json.serialize_public")
        || same_text(name, "json.serialize_raw") || same_text(name, "Filesystem.write_file")
        || same_text(name, "log") || same_text(name, "http.respond")
}

pub fn is_impure_builtin(name: &str) -> (r: bool)
    ensures
        r == impure_builtin(name@),
{
    same_text(name, "Stdout.write") || same_text(name, "Environment.args") || same_text(
        name,
        "Filesystem.read_file",
    ) || same_text(name, "Filesystem.write_file")
}

pub fn is_secret_safe_builtin(name: &str) -> (r: bool)
    ensures
        r == secret_safe_builtin(name@),
{
    same_text(name, "secret.redact") || same_text(name, "secret.compare")
}

pub fn is_secret_liftable_call(name: &str, callee_is_pure: bool) -> (r: bool)
    ensures
        r == secret_liftable(name@, callee_is_pure),
{
    callee_is_pure && !is_secret_output_boundary(name) && !is_secret_safe_builtin(name)
}

impl TypeInterner {
    pub fn is_numeric(&self, id: TypeId) -> (r: bool)
        ensures
            r == numeric(ty(self@, id)),
    {
        match self.resolve(id) {
            Type::Int8 | Type::Int16 | Type::Int32 | Type::Int64 => true,
            Type::Uint8 | Type::Uint16 | Type::Uint32 | Type::Uint64 => true,
            Type::Float32 | Type::Float64 => true,
            _ => false,
        }
    }

    pub fn int_literal_fits_type(&self, value: i128, id: TypeId) -> (r: bool)
        ensures
            r == literal_fits(ty(self@, id), value as int),
    {
        match self.resolve(id) {
            Type::Int8 => -0x80 <= value && value <= 0x7f,
            Type::Int16 => -0x8000 <= value && value <= 0x7fff,
            Type::Int32 => -0x8000_0000 <= value && value <= 0x7fff_ffff,
            Type::Int64 => -0x8000_0000_0000_0000 <= value && value <= 0x7fff_ffff_ffff_ffff,
            Type::Uint8 => 0 <= value && value <= 0xff,
            Type::Uint16 => 0 <= value && value <= 0xffff,
            Type::Uint32 => 0 <= value && value <= 0xffff_ffff,
            Type::Uint64 => 0 <= value && value <= 0xffff_ffff_ffff_ffff,
            _ => false,
        }
    }

    pub fn int_literal_matches_expected_type(&self, value: i128, expected: TypeId) -> (r: bool)
        ensures
            r == int_literal_matches(self@, value as int, expected),
    {
        self.int_literal_fits_type(value, self.revealed_type(expected))
    }

    pub fn float_literal_matches_expected_type(&self, expected: TypeId) -> (r: bool)
        ensures
            r == float_literal_matches(self@, expected),
    {
        match self.resolve(self.revealed_type(expected)) {
            Type::Float32 | Type::Float64 => true,
            _ => false,
        }
    }

    pub fn expected_numeric_type(&self, expected: TypeId) -> (r: Option<TypeId>)
        ensures
            r matches Some(x) ==> x <= expected,
            r == expected_numeric(self@, expected),
    {
        let id: usize = self.revealed_type(expected);
        if self.is_numeric(id) {
            Some(id)
        } else {
            None
        }
    }

    pub fn is_secret_type(&self, id: TypeId) -> (r: bool)
        ensures
            r == ty(self@, id) is Secret,
    {
        match self.resolve(id) {
            Type::Secret(_) => true,
            _ => false,
        }
    }

    pub fn is_refinement_type(&self, id: TypeId) -> (r: bool)
        ensures
            r == ty(self@, id) is Refinement,
    {
        match self.resolve(id) {
            Type::Refinement(_) => true,
            _ => false,
        }
    }

    pub fn secret_inner_type(&self, id: TypeId) -> (r: Option<TypeId>)
        ensures
            r matches Some(x) ==> x < id,
            r == secret_inner(self@, id),
    {
        match self.resolve(id) {
            Type::Secret(x) => Some(x),
            _ => None,
        }
    }

    pub fn revealed_type(&self, id: TypeId) -> (r: TypeId)
        ensures
            r <= id,
            r == revealed(self@, id),
    {
        match self.resolve(id) {
            Type::Secret(x) => x,
            _ => id,
        }
    }

    /// What a secret holds, and whether it was one.
    pub fn strip_secret_type(&self, id: TypeId) -> (r: (TypeId, bool))
        ensures
            r.0 <= id,
            r == (revealed(self@, id), ty(self@, id) is Secret),
    {
        match self.resolve(id) {
            Type::Secret(x) => (x, true),
            _ => (id, false),
        }
    }

    pub fn refinement_base_type(&self, id: TypeId) -> (r: Option<TypeId>)
        ensures
            r == refinement_base(self@, id),
            r matches Some(base) ==> base < id,
            sound(self@),
    {
        match self.resolve(id) {
            Type::Refinement(r) => Some(self.resolve_refinement(r).base),
            _ => None,
        }
    }

    pub fn fully_coarsened_type(&self, id: TypeId) -> (r: TypeId)
        ensures
            r <= id,
            r == fully_coarsened(self@, id),
        decreases id,
    {
        match self.refinement_base_type(id) {
            Some(base) => self.fully_coarsened_type(base),
            None => id,
        }
    }

    pub fn can_coarsen_to(&self, source: TypeId, target: TypeId) -> (r: bool)
        ensures
            r == can_coarsen(self@, source, target),
        decreases source,
    {
        match self.refinement_base_type(source) {
            Some(base) => base == target || self.can_coarsen_to(base, target),
            None => false,
        }
    }

    pub fn can_refine_from(&self, source: TypeId, refinement: TypeId) -> (r: bool)
        ensures
            r == can_refine(self@, source, refinement),
        decreases refinement,
    {
        match self.refinement_base_type(refinement) {
            Some(base) => {
                if base == source {
                    return true;
                }
                if let Some(inner) = self.secret_inner_type(base) {
                    if inner == source {
                        return true;
                    }
                }
                self.can_refine_from(source, base)
            },
            None => false,
        }
    }

    pub fn refinement_boundary_input_type(&self, id: TypeId) -> (r: TypeId)
        ensures
            r <= id,
            r == refinement_boundary_input(self@, id),
    {
        self.revealed_type(self.fully_coarsened_type(id))
    }

    /// Whether a value of type `got` may stand where `expected` is asked for.
    pub fn types_compatible(
        &self,
        impls: &Table<(TypeId, TypeId), Table<String, FunctionSig>>,
        expected: TypeId,
        got: TypeId,
    ) -> (r: bool)
        ensures
            r == compatible(self@, impls@, expected, got),
            sound(self@),
        decreases expected, 1nat,
    {
        let pair = (self.resolve(expected), self.resolve(got));
        if expected == got || expected == Self::ERROR || got == Self::ERROR {
            return true;
        }
        match pair {
            (Type::Interface(_), Type::Interface(_)) => false,
            (Type::Interface(_), _) => impls.contains(&(expected, got)),
            (Type::Secret(e), Type::Secret(g)) => self.types_compatible(impls, e, g),
            (Type::Secret(e), _) => self.types_compatible(impls, e, got),
            (Type::List(e), Type::List(g)) => self.types_compatible(impls, e, g),
            (Type::Optional(e), Type::Optional(g)) => self.types_compatible(impls, e, g),
            (Type::SetOf(e), Type::SetOf(g)) => self.types_compatible(impls, e, g),
            (Type::MapOf(ek, ev), Type::MapOf(gk, gv)) => self.types_compatible(impls, ek, gk)
                && self.types_compatible(impls, ev, gv),
            (Type::Result(ek, ev), Type::Result(gk, gv)) => self.types_compatible(impls, ek, gk)
                && self.types_compatible(impls, ev, gv),
            (Type::Function(e), Type::Function(g)) => {
                let es = self.resolve_function(e);
                let gs = self.resolve_function(g);
                if es.params.len() != gs.params.len() {
                    return false;
                }
                let mut i: usize = 0;
                while i < es.params.len()
                    invariant
                        i <= es.params@.len(),
                        es.params@.len() == gs.params@.len(),
                        sound(self@),
                        grounded(self@, Type::Function(e), expected as nat),
                        es@ == self@.functions[e.0 as int],
                        gs@ == self@.functions[g.0 as int],
                        ty(self@, expected) == Type::Function(e),
                        ty(self@, got) == Type::Function(g),
                        expected != got && expected != Self::ERROR && got != Self::ERROR,
                        forall|j: int|
                            0 <= j < i ==> compatible(
                                self@,
                                impls@,
                                #[trigger] es@.params[j],
                                gs@.params[j],
                            ),
                    decreases es.params@.len() - i,
                {
                    assert(es@.params[i as int] < expected);
                    if !self.types_compatible(impls, es.params[i], gs.params[i]) {
                        assert(!compatible(
                            self@,
                            impls@,
                            es@.params[i as int],
                            gs@.params[i as int],
                        ));
                        return false;
                    }
                    i = i + 1;
                }
                self.types_compatible(impls, es.return_type, gs.return_type)
            },
            (Type::Machine(e), Type::MachineState { machine, state }) => e == machine,
            _ => false,
        }
    }

    pub fn satisfies_expected_type(
        &self,
        impls: &Table<(TypeId, TypeId), Table<String, FunctionSig>>,
        expected: TypeId,
        got: TypeId,
    ) -> (r: bool)
        ensures
            r == satisfies(self@, impls@, expected, got),
    {
        self.types_compatible(impls, expected, got) || (self.is_refinement_type(expected)
            && self.can_refine_from(got, expected))
    }

    pub fn type_requires_handle_error(
        &self,
        impls: &Table<(TypeId, TypeId), Table<String, FunctionSig>>,
        expected: TypeId,
        got: TypeId,
    ) -> (r: bool)
        ensures
            r == requires_handle_error(self@, impls@, expected, got),
    {
        if let Type::Result(_, _) = self.resolve(expected) {
            return false;
        }
        match self.resolve(got) {
            Type::Result(ok, _) => self.satisfies_expected_type(impls, expected, ok),
            _ => false,
        }
    }

    pub fn type_requires_bare_handle(
        &self,
        impls: &Table<(TypeId, TypeId), Table<String, FunctionSig>>,
        expected: TypeId,
        got: TypeId,
    ) -> (r: bool)
        ensures
            r == requires_bare_handle(self@, impls@, expected, got),
    {
        match self.resolve(expected) {
            Type::Result(_, _) | Type::Optional(_) => false,
            _ => match self.resolve(got) {
                Type::Optional(inner) => self.satisfies_expected_type(impls, expected, inner),
                _ => false,
            },
        }
    }

    pub fn secret_argument_matches_param(
        &self,
        impls: &Table<(TypeId, TypeId), Table<String, FunctionSig>>,
        expected: TypeId,
        got: TypeId,
    ) -> (r: (bool, bool))
        ensures
            r == secret_argument(self@, impls@, expected, got),
    {
        if self.types_compatible(impls, expected, got) {
            return (true, false);
        }
        match self.secret_inner_type(got) {
            Some(inner) => if self.types_compatible(impls, expected, inner) {
                (true, true)
            } else {
                (false, false)
            },
            None => (false, false),
        }
    }

    pub fn maybe_wrap_secret(&mut self, id: TypeId, tainted: bool) -> (r: TypeId)
        ensures
            r < final(self)@.types.len() || r == Self::ERROR || r == id,
            (final(self)@, r) == wrap_secret(old(self)@, id, tainted),
    {
        if !tainted || id == Self::ERROR || id == Self::NOTHING || self.is_secret_type(id) {
            return id;
        }
        self.intern(Type::Secret(id))
    }

    /// Whether a secret is somewhere inside the type.
    pub fn type_contains_secret_data(&self, id: TypeId) -> (r: bool)
        ensures
            r == contains_secret(self@, id),
    {
        let mode = WalkMode { into_secrets: false, into_keys: true, into_machines: true };
        let ids = self.walk(mode, id);
        proof {
            law_walk_meets_each_part_once(self@, open_parts(), id);
        }
        let mut i: usize = 0;
        while i < ids.len()
            invariant
                i <= ids@.len(),
                ids@ == walk(self@, open_parts(), id),
                forall|x: TypeId| #[trigger] ids@.contains(x) <==> made_of(self@, open_parts(), id, x),
                forall|j: int| 0 <= j < i ==> !(ty(self@, #[trigger] ids@[j]) is Secret),
            decreases ids@.len() - i,
        {
            if self.is_secret_type(ids[i]) {
                assert(ids@.contains(ids@[i as int]));
                return true;
            }
            i = i + 1;
        }
        assert forall|x: TypeId| #[trigger] made_of(self@, open_parts(), id, x) implies !(ty(
            self@,
            x,
        ) is Secret) by {
            assert(ids@.contains(x));
            let j = choose|j: int| 0 <= j < ids@.len() && ids@[j] == x;
            assert(!(ty(self@, ids@[j]) is Secret));
        }
        false
    }

    pub fn json_public_projection_allows_secret_data(&self, id: TypeId) -> (r: bool)
        ensures
            r == public_projection(self@, id),
        decreases id,
    {
        match self.resolve(id) {
            Type::Secret(_) => false,
            Type::List(x) | Type::SetOf(x) | Type::Optional(x) =>
                self.json_public_projection_allows_secret_data(x),
            Type::MapOf(k, v) | Type::Result(k, v) =>
                self.json_public_projection_allows_secret_data(k)
                && self.json_public_projection_allows_secret_data(v),
            Type::Enum(_) => !self.type_contains_secret_data(id),
            Type::Refinement(r) => {
                let base: usize = self.resolve_refinement(r).base;
                self.json_public_projection_allows_secret_data(base)
            },
            _ => true,
        }
    }

    pub fn json_read_requires_view(&self, id: TypeId) -> (r: bool)
        ensures
            r == json_needs_view(self@, id),
        decreases id,
    {
        match self.resolve(id) {
            Type::Int8 | Type::Int16 | Type::Int32 | Type::Int64 => false,
            Type::Uint8 | Type::Uint16 | Type::Uint32 | Type::Uint64 => false,
            Type::Float32 | Type::Float64 => false,
            Type::String | Type::Bool | Type::Nothing | Type::Error => false,
            Type::Refinement(r) => {
                let base: usize = self.resolve_refinement(r).base;
                self.json_read_requires_view(base)
            },
            _ => true,
        }
    }

    fn names_of(&self, ids: &Vec<TypeId>) -> (r: Vec<String>)
        ensures
            views(r@) == names_of(self@, ids@),
    {
        let mut r: Vec<String> = Vec::new();
        let mut i: usize = 0;
        while i < ids.len()
            invariant
                i <= ids@.len(),
                r@.len() == i,
                forall|j: int| 0 <= j < i ==> (#[trigger] r@[j])@ == name_of(self@, ids@[j]),
            decreases ids@.len() - i,
        {
            r.push(self.name_of(ids[i]));
            i = i + 1;
        }
        assert(views(r@) =~= names_of(self@, ids@));
        r
    }

    fn is_json_unsupported(&self, id: TypeId, machines: bool) -> (r: bool)
        ensures
            r == json_unsupported(ty(self@, id), machines),
    {
        match self.resolve(id) {
            Type::TypeConstruction | Type::Interface(_) | Type::Actor(_) | Type::Function(_) => true,
            Type::Machine(_) => !machines,
            Type::MachineState { machine, state } => !machines,
            _ => false,
        }
    }

    /// The types inside `id` that no JSON value stands for.
    pub fn json_unsupported_data_types(
        &self,
        id: TypeId,
        descend_into_secret: bool,
        allow_machine_values: bool,
    ) -> (r: Vec<String>)
        ensures
            views(r@) == names_of(
                self@,
                json_unsupported_in(self@, id, descend_into_secret, allow_machine_values),
            ),
    {
        let mode = WalkMode {
            into_secrets: descend_into_secret,
            into_keys: false,
            into_machines: allow_machine_values,
        };
        let ids = self.walk(mode, id);
        let mut found: Vec<TypeId> = Vec::new();
        let mut i: usize = 0;
        assert(found@ + unsupported_among(self@, allow_machine_values, ids@, 0)
            =~= unsupported_among(self@, allow_machine_values, ids@, 0));
        while i < ids.len()
            invariant
                i <= ids@.len(),
                found@ + unsupported_among(self@, allow_machine_values, ids@, i as nat)
                    == unsupported_among(self@, allow_machine_values, ids@, 0),
            decreases ids@.len() - i,
        {
            let ghost before = found@;
            if self.is_json_unsupported(ids[i], allow_machine_values) {
                found.push(ids[i]);
            }
            proof {
                let rest = unsupported_among(self@, allow_machine_values, ids@, (i + 1) as nat);
                assert(found@ + rest =~= before + unsupported_among(
                    self@,
                    allow_machine_values,
                    ids@,
                    i as nat,
                ));
            }
            i = i + 1;
        }
        assert(found@ =~= unsupported_among(self@, allow_machine_values, ids@, 0));
        self.names_of(&found)
    }

    pub fn json_unsupported_serialize_types(&self, id: TypeId) -> (r: Vec<String>)
        ensures
            views(r@) == names_of(self@, json_unsupported_in(self@, id, false, true)),
    {
        self.json_unsupported_data_types(id, false, true)
    }

    pub fn json_unsupported_parse_types(&self, id: TypeId) -> (r: Vec<String>)
        ensures
            views(r@) == names_of(self@, json_unsupported_in(self@, id, true, true)),
    {
        self.json_unsupported_data_types(id, true, true)
    }

    /// The key types other than `string` of the maps inside `id`.
    pub fn json_non_string_map_key_types(&self, id: TypeId) -> (r: Vec<String>)
        ensures
            views(r@) == names_of(self@, json_odd_keys(self@, id)),
    {
        let mode = WalkMode { into_secrets: true, into_keys: true, into_machines: true };
        let ids = self.walk(mode, id);
        let mut found: Vec<TypeId> = Vec::new();
        let mut i: usize = 0;
        while i < ids.len()
            invariant
                i <= ids@.len(),
                odd_keys_among(self@, ids@, i as nat, found@) == odd_keys_among(
                    self@,
                    ids@,
                    0,
                    Seq::empty(),
                ),
            decreases ids@.len() - i,
        {
            if let Type::MapOf(k, _) = self.resolve(ids[i]) {
                if k != Self::STRING && !contains_id(&found, k) {
                    found.push(k);
                }
            }
            i = i + 1;
        }
        self.names_of(&found)
    }

    /// The fields of a struct or bitfield that hold something secret.
    pub fn secret_field_names(&self, id: TypeId) -> (r: Vec<String>)
        ensures
            views(r@) == secret_fields(self@, id),
    {
        match self.resolve(id) {
            Type::Struct(s) => self.secret_names_among(&self.resolve_struct(s).fields),
            Type::Bitfield(b) => self.secret_names_among(
                &fields_of_slots(&self.resolve_bitfield(b).fields),
            ),
            _ => {
                let r: Vec<String> = Vec::new();
                assert(views(r@) =~= Seq::empty());
                r
            },
        }
    }

    fn secret_names_among(&self, fields: &Vec<NamedType>) -> (r: Vec<String>)
        ensures
            views(r@) == secret_fields_among(self@, views(fields@), 0),
    {
        let ghost vs = views(fields@);
        let mut r: Vec<String> = Vec::new();
        assert(views(r@) + secret_fields_among(self@, vs, 0) =~= secret_fields_among(self@, vs, 0));
        let mut i: usize = 0;
        while i < fields.len()
            invariant
                i <= fields@.len(),
                vs == views(fields@),
                views(r@) + secret_fields_among(self@, vs, i as nat) == secret_fields_among(self@, vs, 0),
            decreases fields@.len() - i,
        {
            let ghost before = views(r@);
            if self.type_contains_secret_data(fields[i].ty) {
                r.push(fields[i].name.clone());
                assert(views(r@) =~= before.push(vs[i as int].name));
            }
            proof {
                let rest = secret_fields_among(self@, vs, (i + 1) as nat);
                assert(views(r@) + rest =~= before + secret_fields_among(self@, vs, i as nat));
            }
            i = i + 1;
        }
        assert(views(r@) =~= secret_fields_among(self@, vs, 0));
        r
    }
}

fn fields_of_slots(slots: &Vec<BitfieldFieldShape>) -> (r: Vec<NamedType>)
    ensures
        views(r@) == slot_fields(views(slots@)),
{
    let mut r: Vec<NamedType> = Vec::new();
    let mut i: usize = 0;
    while i < slots.len()
        invariant
            i <= slots@.len(),
            views(r@) =~= slot_fields(views(slots@)).take(i as int),
        decreases slots@.len() - i,
    {
        let ghost before = views(r@);
        let field = NamedType { name: slots[i].name.clone(), ty: slots[i].ty };
        let ghost shown = field@;
        r.push(field);
        assert(views(r@) =~= before.push(shown));
        i = i + 1;
    }
    assert(views(r@) =~= slot_fields(views(slots@)));
    r
}

} // verus!
