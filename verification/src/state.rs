//! Where the checking of a module stands.
use vstd::prelude::*;

use crate::ast::{FunctionDef, StructDef, TypeAlias};
use crate::diagnostics::{Diagnostic, DiagnosticV};
use crate::facts::{forget, FactScope, FactScopeV, MaybeTag, ParamFacts, ReflectionParamFacts};
use crate::made::{apart, ground, made, made_beside, made_stays, types_stay};
use crate::reflection::{
    BitfieldInfo, BitfieldInfoV, FieldList, FieldListV, MachineInfo, MachineInfoV, VariantList,
    VariantListV,
};
use crate::resolution::{DefId, Names, ResolveResult};
use crate::span::Span;
use crate::steady::{
    grows, has, has_actor, has_all, has_fields, has_maybe, has_shape, has_slots, has_states, has_values,
    has_variants, keeps, keeps_on, known, known_after, older, stays,
};
use crate::table::{look, views, Dup, Table};
use crate::text::{dup_text, maybe_text};
use crate::type_rules::{wrap_secret, Impls};
use crate::types::{
    grounded, intern, intern_function, intern_refinement, only_basic_types, put_at, sound, ty, ActorId, ActorShape,
    BitfieldId, BitfieldShape, EnumId, EnumShape, FunctionShape, FunctionShapeV, FunctionSig,
    FunctionSigV, InterfaceId, InterfaceShape, MachineId, MachineShape, NamedType, NamedTypeV,
    RefinementShapeV, StructId, StructShape, Type, TypeId, TypeInterner, Types,
};

verus! {

/// What surrounds the code being checked.
pub struct Context {
    pub return_type: Option<TypeId>,
    pub function_name: Option<String>,
    pub function_pure: bool,
    pub in_verify: bool,
    pub in_property: bool,
    pub verify_name: Option<String>,
    pub in_handle: bool,
    pub respond_type: Option<TypeId>,
    /// Only those branches are checked that the type arguments at hand select.
    pub specialize: bool,
}

pub struct ContextV {
    pub return_type: Option<TypeId>,
    pub function_name: Option<Seq<char>>,
    pub function_pure: bool,
    pub in_verify: bool,
    pub in_property: bool,
    pub verify_name: Option<Seq<char>>,
    pub in_handle: bool,
    pub respond_type: Option<TypeId>,
    pub specialize: bool,
}

impl View for Context {
    type V = ContextV;

    open spec fn view(&self) -> ContextV {
        ContextV {
            return_type: self.return_type,
            function_name: maybe_text(self.function_name),
            function_pure: self.function_pure,
            in_verify: self.in_verify,
            in_property: self.in_property,
            verify_name: maybe_text(self.verify_name),
            in_handle: self.in_handle,
            respond_type: self.respond_type,
            specialize: self.specialize,
        }
    }
}

impl Dup for Context {
    fn dup(&self) -> (r: Self) {
        Context {
            return_type: self.return_type,
            function_name: dup_text(&self.function_name),
            function_pure: self.function_pure,
            in_verify: self.in_verify,
            in_property: self.in_property,
            verify_name: dup_text(&self.verify_name),
            in_handle: self.in_handle,
            respond_type: self.respond_type,
            specialize: self.specialize,
        }
    }
}

/// Outside of any function.
pub open spec fn outside() -> ContextV {
    ContextV {
        return_type: None,
        function_name: None,
        function_pure: false,
        in_verify: false,
        in_property: false,
        verify_name: None,
        in_handle: false,
        respond_type: None,
        specialize: false,
    }
}

/// A generic struct with its type arguments, and the type it became.
pub struct Mono {
    pub name: String,
    pub args: Vec<TypeId>,
    pub ty: TypeId,
}

pub struct MonoV {
    pub name: Seq<char>,
    pub args: Seq<TypeId>,
    pub ty: TypeId,
}

impl View for Mono {
    type V = MonoV;

    open spec fn view(&self) -> MonoV {
        MonoV { name: self.name@, args: self.args@, ty: self.ty }
    }
}

/// A generic function with what it was checked for.
pub struct Instance {
    pub name: String,
    pub args: Vec<TypeId>,
    pub kinds: Vec<String>,
    pub facts: ReflectionParamFacts,
}

pub struct InstanceV {
    pub name: Seq<char>,
    pub args: Seq<TypeId>,
    pub kinds: Seq<Seq<char>>,
    pub facts: ParamFacts,
}

impl View for Instance {
    type V = InstanceV;

    open spec fn view(&self) -> InstanceV {
        InstanceV {
            name: self.name@,
            args: self.args@,
            kinds: views(self.kinds@),
            facts: self.facts@,
        }
    }
}

/// The types that a name stands for inside a loop over reflected parts.
pub struct NamedIds {
    pub name: String,
    pub ids: Vec<TypeId>,
}

pub struct NamedIdsV {
    pub name: Seq<char>,
    pub ids: Seq<TypeId>,
}

impl View for NamedIds {
    type V = NamedIdsV;

    open spec fn view(&self) -> NamedIdsV {
        NamedIdsV { name: self.name@, ids: self.ids@ }
    }
}

/// Where the checking of a module stands.
pub struct State {
    pub names: Names,
    pub types: Types,
    pub reports: Seq<DiagnosticV>,
    /// The types of variables, parameters and functions.
    pub type_env: Map<DefId, TypeId>,
    /// The types of declared names.
    pub named_types: Map<Seq<char>, TypeId>,
    /// Those of them that are declared in files shipped with the compiler.
    pub trusted_types: Map<Seq<char>, TypeId>,
    pub aliases: Map<Seq<char>, TypeAlias>,
    /// The aliases being resolved, the innermost last.
    pub resolving: Seq<Seq<char>>,
    /// The generic structs being made and the aliases being told of, the innermost last.
    pub nested: Seq<Seq<char>>,
    /// The types found for expressions.
    pub type_map: Map<Span, TypeId>,
    /// By interface and implementing type, the implemented methods.
    pub impls: Impls,
    /// By implementing type, the methods of all interfaces.
    pub impl_methods: Map<TypeId, Map<Seq<char>, FunctionSigV>>,
    /// Whether a function is pure.
    pub purity_map: Map<Seq<char>, bool>,
    pub signatures: Map<Seq<char>, FunctionShapeV>,
    pub trusted_signatures: Map<Seq<char>, FunctionShapeV>,
    pub context: ContextV,
    pub generic_struct_templates: Map<Seq<char>, StructDef>,
    pub monos: Seq<MonoV>,
    pub reflection_fields: Map<TypeId, FieldListV>,
    pub reflection_bitfields: Map<TypeId, BitfieldInfoV>,
    pub reflection_machines: Map<TypeId, MachineInfoV>,
    pub reflection_variants: Map<TypeId, VariantListV>,
    /// What the type parameters in scope stand for.
    pub subst: Map<Seq<char>, TypeId>,
    /// The kinds of the types they stand for, as written.
    pub kind_tags: Map<Seq<char>, Seq<char>>,
    /// What is known of local variables, the innermost block last.
    pub facts: Seq<FactScopeV>,
    /// The loops over reflected fields.
    pub field_scopes: Seq<NamedIdsV>,
    /// The loops over reflected type arguments.
    pub info_scopes: Seq<NamedIdsV>,
    /// The loops over reflected variants.
    pub variant_scopes: Seq<NamedTypeV>,
    /// The loops over reflected machine states.
    pub machine_scopes: Seq<NamedTypeV>,
    pub function_templates: Map<Seq<char>, FunctionDef>,
    pub instances: Seq<InstanceV>,
}

/// The checker of one module.
pub struct TypeChecker<'a> {
    pub interner: TypeInterner,
    pub resolve: &'a ResolveResult,
    pub diagnostics: Vec<Diagnostic>,
    pub type_env: Table<DefId, TypeId>,
    pub named_types: Table<String, TypeId>,
    pub trusted_types: Table<String, TypeId>,
    pub aliases: Table<String, &'a TypeAlias>,
    pub resolving: Vec<String>,
    pub nested: Vec<String>,
    pub type_map: Table<Span, TypeId>,
    pub impls: Table<(TypeId, TypeId), Table<String, FunctionSig>>,
    pub impl_methods: Table<TypeId, Table<String, FunctionSig>>,
    pub purity_map: Table<String, bool>,
    pub signatures: Table<String, FunctionShape>,
    pub trusted_signatures: Table<String, FunctionShape>,
    pub context: Context,
    pub generic_struct_templates: Table<String, &'a StructDef>,
    pub monos: Vec<Mono>,
    pub reflection_fields: Table<TypeId, FieldList>,
    pub reflection_bitfields: Table<TypeId, BitfieldInfo>,
    pub reflection_machines: Table<TypeId, MachineInfo>,
    pub reflection_variants: Table<TypeId, VariantList>,
    pub subst: Table<String, TypeId>,
    pub kind_tags: Table<String, String>,
    pub facts: Vec<FactScope>,
    pub field_scopes: Vec<NamedIds>,
    pub info_scopes: Vec<NamedIds>,
    pub variant_scopes: Vec<NamedType>,
    pub machine_scopes: Vec<NamedType>,
    pub function_templates: Table<String, &'a FunctionDef>,
    pub instances: Vec<Instance>,
}

impl<'a> View for TypeChecker<'a> {
    type V = State;

    closed spec fn view(&self) -> State {
        State {
            names: self.resolve@,
            types: self.interner@,
            reports: views(self.diagnostics@),
            type_env: self.type_env@,
            named_types: self.named_types@,
            trusted_types: self.trusted_types@,
            aliases: self.aliases@,
            resolving: views(self.resolving@),
            nested: views(self.nested@),
            type_map: self.type_map@,
            impls: self.impls@,
            impl_methods: self.impl_methods@,
            purity_map: self.purity_map@,
            signatures: self.signatures@,
            trusted_signatures: self.trusted_signatures@,
            context: self.context@,
            generic_struct_templates: self.generic_struct_templates@,
            monos: views(self.monos@),
            reflection_fields: self.reflection_fields@,
            reflection_bitfields: self.reflection_bitfields@,
            reflection_machines: self.reflection_machines@,
            reflection_variants: self.reflection_variants@,
            subst: self.subst@,
            kind_tags: self.kind_tags@,
            facts: views(self.facts@),
            field_scopes: views(self.field_scopes@),
            info_scopes: views(self.info_scopes@),
            variant_scopes: views(self.variant_scopes@),
            machine_scopes: views(self.machine_scopes@),
            function_templates: self.function_templates@,
            instances: views(self.instances@),
        }
    }
}

/// Nothing checked yet, and no types but the basic ones.
pub open spec fn blank_state(names: Names) -> State {
    State {
        names,
        types: only_basic_types(),
        reports: Seq::empty(),
        type_env: Map::empty(),
        named_types: Map::empty(),
        trusted_types: Map::empty(),
        aliases: Map::empty(),
        resolving: Seq::empty(),
        nested: Seq::empty(),
        type_map: Map::empty(),
        impls: Map::empty(),
        impl_methods: Map::empty(),
        purity_map: Map::empty(),
        signatures: Map::empty(),
        trusted_signatures: Map::empty(),
        context: outside(),
        generic_struct_templates: Map::empty(),
        monos: Seq::empty(),
        reflection_fields: Map::empty(),
        reflection_bitfields: Map::empty(),
        reflection_machines: Map::empty(),
        reflection_variants: Map::empty(),
        subst: Map::empty(),
        kind_tags: Map::empty(),
        facts: Seq::empty(),
        field_scopes: Seq::empty(),
        info_scopes: Seq::empty(),
        variant_scopes: Seq::empty(),
        machine_scopes: Seq::empty(),
        function_templates: Map::empty(),
        instances: Seq::empty(),
    }
}

pub open spec fn report(s: State, d: DiagnosticV) -> State {
    State { reports: s.reports.push(d), ..s }
}

/// A step on the stored types that gives a type.
pub open spec fn with_types(s: State, r: (Types, TypeId)) -> (State, TypeId) {
    (State { types: r.0, ..s }, r.1)
}

pub open spec fn intern_type(s: State, t: Type) -> (State, TypeId) {
    with_types(s, intern(s.types, t))
}

impl<'a> TypeChecker<'a> {
    pub(crate) fn blank(resolve: &'a ResolveResult) -> (r: Self)
        ensures
            r@ == blank_state(resolve@),
    {
        let r = TypeChecker {
            interner: TypeInterner::new(),
            resolve,
            diagnostics: Vec::new(),
            type_env: Table::new(),
            named_types: Table::new(),
            trusted_types: Table::new(),
            aliases: Table::new(),
            resolving: Vec::new(),
            nested: Vec::new(),
            type_map: Table::new(),
            impls: Table::new(),
            impl_methods: Table::new(),
            purity_map: Table::new(),
            signatures: Table::new(),
            trusted_signatures: Table::new(),
            context: Context {
                return_type: None,
                function_name: None,
                function_pure: false,
                in_verify: false,
                in_property: false,
                verify_name: None,
                in_handle: false,
                respond_type: None,
                specialize: false,
            },
            generic_struct_templates: Table::new(),
            monos: Vec::new(),
            reflection_fields: Table::new(),
            reflection_bitfields: Table::new(),
            reflection_machines: Table::new(),
            reflection_variants: Table::new(),
            subst: Table::new(),
            kind_tags: Table::new(),
            facts: Vec::new(),
            field_scopes: Vec::new(),
            info_scopes: Vec::new(),
            variant_scopes: Vec::new(),
            machine_scopes: Vec::new(),
            function_templates: Table::new(),
            instances: Vec::new(),
        };
        assert(r@.reports =~= Seq::empty());
        assert(r@.resolving =~= Seq::empty());
        assert(r@.nested =~= Seq::empty());
        assert(r@.monos =~= Seq::empty());
        assert(r@.facts =~= Seq::empty());
        assert(r@.field_scopes =~= Seq::empty());
        assert(r@.info_scopes =~= Seq::empty());
        assert(r@.variant_scopes =~= Seq::empty());
        assert(r@.machine_scopes =~= Seq::empty());
        assert(r@.instances =~= Seq::empty());
        r
    }

    pub(crate) fn emit(&mut self, d: Diagnostic)
        ensures
            keeps(old(self)@, final(self)@),
            known(old(self)@) ==> known(final(self)@),
            final(self)@ == report(old(self)@, d@),
    {
        self.diagnostics.push(d);
        assert(self@.reports =~= old(self)@.reports.push(d@));
        proof {
            reveal(grows);
            reveal(stays);
            reveal(keeps);
            if known(old(self)@) {
                known_after(old(self)@, self@);
            }
        }
    }

    pub(crate) fn names(&self) -> (r: &'a ResolveResult)
        ensures
            r@ == self@.names,
    {
        self.resolve
    }

    /// The types found so far.
    pub fn interner(&self) -> (r: &TypeInterner)
        ensures
            r@ == self@.types,
            sound(r@),
            r@.types.len() <= usize::MAX,
    {
        proof {
            use_type_invariant(&self.interner);
            self.interner.lemma_ids_fit();
        }
        &self.interner
    }

    pub(crate) fn intern(&mut self, t: Type) -> (r: TypeId)
        ensures
            known(old(self)@) ==> has(final(self)@, r),
            keeps(old(self)@, final(self)@),
            known(old(self)@) ==> known(final(self)@),
            (final(self)@, r) == intern_type(old(self)@, t),
    {
        let r: usize = self.interner.intern(t);
        proof {
            reveal(grows);
            reveal(stays);
            reveal(keeps);
            types_stay(old(self)@, self@);
            if known(old(self)@) {
                reveal(known);
                known_after(old(self)@, self@);
            }
        }
        r
    }

    pub(crate) fn intern_function(&mut self, params: Vec<TypeId>, return_type: TypeId) -> (r: TypeId)
        ensures
            known(old(self)@) ==> has(final(self)@, r),
            keeps(old(self)@, final(self)@),
            known(old(self)@) ==> known(final(self)@),
            (final(self)@, r) == with_types(
                old(self)@,
                intern_function(old(self)@.types, FunctionShapeV { params: params@, return_type }),
            ),
    {
        let r: usize = self.interner.intern_function(params, return_type);
        proof {
            reveal(grows);
            reveal(stays);
            reveal(keeps);
            types_stay(old(self)@, self@);
            if known(old(self)@) {
                reveal(known);
                known_after(old(self)@, self@);
            }
        }
        r
    }

    pub(crate) fn intern_refinement(&mut self, name: String, base: TypeId) -> (r: TypeId)
        ensures
            known(old(self)@) ==> has(final(self)@, r),
            keeps(old(self)@, final(self)@),
            known(old(self)@) ==> known(final(self)@),
            (final(self)@, r) == with_types(
                old(self)@,
                intern_refinement(old(self)@.types, RefinementShapeV { name: name@, base }),
            ),
    {
        let r: usize = self.interner.intern_refinement(name, base);
        proof {
            reveal(grows);
            reveal(stays);
            reveal(keeps);
            types_stay(old(self)@, self@);
            if known(old(self)@) {
                reveal(known);
                known_after(old(self)@, self@);
            }
        }
        r
    }

    pub(crate) fn maybe_wrap_secret(&mut self, id: TypeId, tainted: bool) -> (r: TypeId)
        ensures
            known(old(self)@) && has(old(self)@, id) ==> has(final(self)@, r),
            keeps(old(self)@, final(self)@),
            known(old(self)@) ==> known(final(self)@),
            (final(self)@, r) == with_types(old(self)@, wrap_secret(old(self)@.types, id, tainted)),
    {
        let r: usize = self.interner.maybe_wrap_secret(id, tainted);
        proof {
            reveal(grows);
            reveal(stays);
            reveal(keeps);
            types_stay(old(self)@, self@);
            if known(old(self)@) {
                reveal(known);
                known_after(old(self)@, self@);
            }
        }
        r
    }

    pub(crate) fn add_struct(&mut self, def: StructShape) -> (r: StructId)
        ensures
            keeps(old(self)@, final(self)@),
            known(old(self)@) && has_fields(old(self)@, def@.fields) ==> known(final(self)@),
            final(self)@ == (State {
                types: Types { structs: old(self)@.types.structs.push(def@), ..old(self)@.types },
                ..old(self)@
            }),
            r.0 == old(self)@.types.structs.len(),
    {
        let r = self.interner.add_struct(def);
        proof {
            reveal(grows);
            reveal(stays);
            reveal(keeps);
            types_stay(old(self)@, self@);
            if known(old(self)@) && has_fields(old(self)@, def@.fields) {
                reveal(known);
                known_after(old(self)@, self@);
            }
        }
        r
    }

    /// Adds a struct and stores its type.
    pub(crate) fn add_struct_type(&mut self, def: StructShape) -> (r: TypeId)
        ensures
            keeps(old(self)@, final(self)@),
            known(old(self)@) && has_fields(old(self)@, def@.fields)
                ==> known(final(self)@) && has(final(self)@, r),
            (final(self)@, r) == intern_type(
                State {
                    types: Types { structs: old(self)@.types.structs.push(def@), ..old(self)@.types },
                    ..old(self)@
                },
                Type::Struct(StructId(old(self)@.types.structs.len() as usize)),
            ),
            sound(final(self)@.types),
            ty(final(self)@.types, r) == Type::Struct(
                StructId(old(self)@.types.structs.len() as usize),
            ),
            old(self)@.types.structs.len() < final(self)@.types.structs.len(),
            old(self)@.types.structs.len() <= usize::MAX,
            r == old(self)@.types.types.len(),
            sound(old(self)@.types),
    {
        proof {
            use_type_invariant(&self.interner);
        }
        let sid = self.add_struct(def);
        let ghost added = self@;
        let r: usize = self.intern(Type::Struct(sid));
        proof {
            keeps_on(old(self)@, added, self@);
            use_type_invariant(&self.interner);
            self.interner.lemma_ids_fit();
            let types = self@.types.types;
            assert(types.contains(Type::Struct(sid)));
            assert(types[r as int] == Type::Struct(sid));
            let earlier = old(self)@.types.types;
            assert(!earlier.contains(Type::Struct(sid))) by {
                if earlier.contains(Type::Struct(sid)) {
                    let i = earlier.index_of(Type::Struct(sid));
                    assert(grounded(old(self)@.types, earlier[i], i as nat));
                }
            }
        }
        r
    }

    pub(crate) fn update_struct(&mut self, id: StructId, def: StructShape)
        ensures
            grows(old(self)@, final(self)@),
            forall|t: TypeId| #[trigger]
                apart(old(self)@, t) && ty(old(self)@.types, t) == Type::Struct(id) ==> stays(
                    old(self)@,
                    final(self)@,
                ),
            known(old(self)@) && has_fields(old(self)@, def@.fields) ==> known(final(self)@),
            final(self)@ == (State {
                types: Types {
                    structs: put_at(old(self)@.types.structs, id.0, def@),
                    ..old(self)@.types
                },
                ..old(self)@
            }),
    {
        proof {
            use_type_invariant(&self.interner);
        }
        self.interner.update_struct(id, def);
        proof {
            reveal(grows);
            reveal(stays);
            assert forall|t: TypeId| #[trigger]
                apart(old(self)@, t) && ty(old(self)@.types, t) == Type::Struct(id) implies stays(
                old(self)@,
                self@,
            ) by {
                if made(old(self)@) {
                    made_beside(ground(old(self)@), ground(self@), self@.monos, id);
                }
            }
            if known(old(self)@) && has_fields(old(self)@, def@.fields) {
                reveal(known);
                known_after(old(self)@, self@);
            }
        }
    }

    pub(crate) fn add_bitfield(&mut self, def: BitfieldShape) -> (r: BitfieldId)
        ensures
            keeps(old(self)@, final(self)@),
            known(old(self)@) && has_slots(old(self)@, def@.fields) ==> known(final(self)@),
            final(self)@ == (State {
                types: Types { bitfields: old(self)@.types.bitfields.push(def@), ..old(self)@.types },
                ..old(self)@
            }),
            r.0 == old(self)@.types.bitfields.len(),
    {
        let r = self.interner.add_bitfield(def);
        proof {
            reveal(grows);
            reveal(stays);
            reveal(keeps);
            types_stay(old(self)@, self@);
            if known(old(self)@) && has_slots(old(self)@, def@.fields) {
                reveal(known);
                known_after(old(self)@, self@);
            }
        }
        r
    }

    pub(crate) fn update_bitfield(&mut self, id: BitfieldId, def: BitfieldShape)
        ensures
            keeps(old(self)@, final(self)@),
            known(old(self)@) && has_slots(old(self)@, def@.fields) ==> known(final(self)@),
            final(self)@ == (State {
                types: Types {
                    bitfields: put_at(old(self)@.types.bitfields, id.0, def@),
                    ..old(self)@.types
                },
                ..old(self)@
            }),
    {
        self.interner.update_bitfield(id, def);
        proof {
            reveal(grows);
            reveal(stays);
            reveal(keeps);
            types_stay(old(self)@, self@);
            if known(old(self)@) && has_slots(old(self)@, def@.fields) {
                reveal(known);
                known_after(old(self)@, self@);
            }
        }
    }

    pub(crate) fn add_enum(&mut self, def: EnumShape) -> (r: EnumId)
        ensures
            keeps(old(self)@, final(self)@),
            known(old(self)@) && has_variants(old(self)@, def@.variants) ==> known(final(self)@),
            final(self)@ == (State {
                types: Types { enums: old(self)@.types.enums.push(def@), ..old(self)@.types },
                ..old(self)@
            }),
            r.0 == old(self)@.types.enums.len(),
    {
        let r = self.interner.add_enum(def);
        proof {
            reveal(grows);
            reveal(stays);
            reveal(keeps);
            types_stay(old(self)@, self@);
            if known(old(self)@) && has_variants(old(self)@, def@.variants) {
                reveal(known);
                known_after(old(self)@, self@);
            }
        }
        r
    }

    pub(crate) fn update_enum(&mut self, id: EnumId, def: EnumShape)
        ensures
            keeps(old(self)@, final(self)@),
            known(old(self)@) && has_variants(old(self)@, def@.variants) ==> known(final(self)@),
            final(self)@ == (State {
                types: Types {
                    enums: put_at(old(self)@.types.enums, id.0, def@),
                    ..old(self)@.types
                },
                ..old(self)@
            }),
    {
        self.interner.update_enum(id, def);
        proof {
            reveal(grows);
            reveal(stays);
            reveal(keeps);
            types_stay(old(self)@, self@);
            if known(old(self)@) && has_variants(old(self)@, def@.variants) {
                reveal(known);
                known_after(old(self)@, self@);
            }
        }
    }

    pub(crate) fn add_interface(&mut self, def: InterfaceShape) -> (r: InterfaceId)
        ensures
            keeps(old(self)@, final(self)@),
            known(old(self)@) ==> known(final(self)@),
            final(self)@ == (State {
                types: Types { interfaces: old(self)@.types.interfaces.push(def@), ..old(self)@.types },
                ..old(self)@
            }),
            r.0 == old(self)@.types.interfaces.len(),
    {
        let r = self.interner.add_interface(def);
        proof {
            reveal(grows);
            reveal(stays);
            reveal(keeps);
            types_stay(old(self)@, self@);
            if known(old(self)@) {
                known_after(old(self)@, self@);
            }
        }
        r
    }

    pub(crate) fn update_interface(&mut self, id: InterfaceId, def: InterfaceShape)
        ensures
            keeps(old(self)@, final(self)@),
            known(old(self)@) ==> known(final(self)@),
            final(self)@ == (State {
                types: Types {
                    interfaces: put_at(old(self)@.types.interfaces, id.0, def@),
                    ..old(self)@.types
                },
                ..old(self)@
            }),
    {
        self.interner.update_interface(id, def);
        proof {
            reveal(grows);
            reveal(stays);
            reveal(keeps);
            types_stay(old(self)@, self@);
            if known(old(self)@) {
                known_after(old(self)@, self@);
            }
        }
    }

    pub(crate) fn add_actor(&mut self, def: ActorShape) -> (r: ActorId)
        ensures
            keeps(old(self)@, final(self)@),
            known(old(self)@) && has_actor(old(self)@, def@) ==> known(final(self)@),
            final(self)@ == (State {
                types: Types { actors: old(self)@.types.actors.push(def@), ..old(self)@.types },
                ..old(self)@
            }),
            r.0 == old(self)@.types.actors.len(),
    {
        let r = self.interner.add_actor(def);
        proof {
            reveal(grows);
            reveal(stays);
            reveal(keeps);
            types_stay(old(self)@, self@);
            if known(old(self)@) && has_actor(old(self)@, def@) {
                reveal(known);
                known_after(old(self)@, self@);
            }
        }
        r
    }

    pub(crate) fn update_actor(&mut self, id: ActorId, def: ActorShape)
        ensures
            keeps(old(self)@, final(self)@),
            known(old(self)@) && has_actor(old(self)@, def@) ==> known(final(self)@),
            final(self)@ == (State {
                types: Types {
                    actors: put_at(old(self)@.types.actors, id.0, def@),
                    ..old(self)@.types
                },
                ..old(self)@
            }),
    {
        self.interner.update_actor(id, def);
        proof {
            reveal(grows);
            reveal(stays);
            reveal(keeps);
            types_stay(old(self)@, self@);
            if known(old(self)@) && has_actor(old(self)@, def@) {
                reveal(known);
                known_after(old(self)@, self@);
            }
        }
    }

    pub(crate) fn add_machine(&mut self, def: MachineShape) -> (r: MachineId)
        ensures
            keeps(old(self)@, final(self)@),
            known(old(self)@) && has_states(old(self)@, def@.states) ==> known(final(self)@),
            final(self)@ == (State {
                types: Types { machines: old(self)@.types.machines.push(def@), ..old(self)@.types },
                ..old(self)@
            }),
            r.0 == old(self)@.types.machines.len(),
    {
        let r = self.interner.add_machine(def);
        proof {
            reveal(grows);
            reveal(stays);
            reveal(keeps);
            types_stay(old(self)@, self@);
            if known(old(self)@) && has_states(old(self)@, def@.states) {
                reveal(known);
                known_after(old(self)@, self@);
            }
        }
        r
    }

    pub(crate) fn update_machine(&mut self, id: MachineId, def: MachineShape)
        ensures
            keeps(old(self)@, final(self)@),
            known(old(self)@) && has_states(old(self)@, def@.states) ==> known(final(self)@),
            final(self)@ == (State {
                types: Types {
                    machines: put_at(old(self)@.types.machines, id.0, def@),
                    ..old(self)@.types
                },
                ..old(self)@
            }),
    {
        self.interner.update_machine(id, def);
        proof {
            reveal(grows);
            reveal(stays);
            reveal(keeps);
            types_stay(old(self)@, self@);
            if known(old(self)@) && has_states(old(self)@, def@.states) {
                reveal(known);
                known_after(old(self)@, self@);
            }
        }
    }

    pub(crate) fn get_type_env(&self, k: DefId) -> (r: Option<TypeId>)
        ensures
            known(self@) ==> has_maybe(self@, r),
            r == look(self@.type_env, k),
    {
        proof {
            reveal(known);
        }
        match self.type_env.get(&k) {
            Some(v) => Some(*v),
            None => None,
        }
    }

    pub(crate) fn put_type_env(&mut self, k: DefId, v: TypeId)
        ensures
            keeps(old(self)@, final(self)@),
            known(old(self)@) && has(old(self)@, v) ==> known(final(self)@),
            final(self)@ == (State { type_env: old(self)@.type_env.insert(k, v), ..old(self)@ }),
    {
        self.type_env.insert(k, v);
        proof {
            reveal(grows);
            reveal(stays);
            reveal(keeps);
            if known(old(self)@) && has(old(self)@, v) {
                reveal(known);
                known_after(old(self)@, self@);
            }
        }
    }

    pub(crate) fn get_named_types(&self, k: &String) -> (r: Option<TypeId>)
        ensures
            known(self@) ==> has_maybe(self@, r),
            r == look(self@.named_types, k@),
    {
        proof {
            reveal(known);
        }
        match self.named_types.get(k) {
            Some(v) => Some(*v),
            None => None,
        }
    }

    pub(crate) fn put_named_types(&mut self, k: String, v: TypeId)
        ensures
            grows(old(self)@, final(self)@),
            !old(self)@.named_types.contains_key(k@) && !old(self)@.resolving.contains(k@) ==> keeps(
                old(self)@,
                final(self)@,
            ),
            known(old(self)@) && has(old(self)@, v) ==> known(final(self)@),
            final(self)@ == (State { named_types: old(self)@.named_types.insert(k@, v), ..old(self)@ }),
    {
        self.named_types.insert(k, v);
        proof {
            reveal(grows);
            reveal(stays);
            reveal(keeps);
            let b = self@;
            if !old(self)@.named_types.contains_key(k@) && made(old(self)@) {
                made_stays(ground(old(self)@), ground(b), b.monos);
            }
            if known(old(self)@) && has(old(self)@, v) {
                reveal(known);
                known_after(old(self)@, self@);
            }
        }
    }

    pub(crate) fn put_trusted_types(&mut self, k: String, v: TypeId)
        ensures
            keeps(old(self)@, final(self)@),
            known(old(self)@) ==> known(final(self)@),
            final(self)@ == (State { trusted_types: old(self)@.trusted_types.insert(k@, v), ..old(self)@ }),
    {
        self.trusted_types.insert(k, v);
        proof {
            reveal(grows);
            reveal(stays);
            reveal(keeps);
            if known(old(self)@) {
                known_after(old(self)@, self@);
            }
        }
    }

    pub(crate) fn get_aliases(&self, k: &String) -> (r: Option<&'a TypeAlias>)
        ensures
            r is Some <==> self@.aliases.contains_key(k@),
            r matches Some(v) ==> *v == self@.aliases[k@],
    {
        match self.aliases.get(k) {
            Some(v) => Some(*v),
            None => None,
        }
    }

    pub(crate) fn put_aliases(&mut self, k: String, v: &'a TypeAlias)
        ensures
            known(old(self)@) ==> known(final(self)@),
            grows(old(self)@, final(self)@),
            final(self)@ == (State { aliases: old(self)@.aliases.insert(k@, *v), ..old(self)@ }),
    {
        proof {
            reveal(grows);
        }
        self.aliases.insert(k, v);
        proof {
            if known(old(self)@) {
                reveal(known);
                known_after(old(self)@, self@);
            }
        }
    }

    pub(crate) fn push_resolving(&mut self, v: String)
        ensures
            known(old(self)@) ==> known(final(self)@),
            final(self)@ == (State { resolving: old(self)@.resolving.push(v@), ..old(self)@ }),
            final(self)@.resolving.len() <= usize::MAX,
            final(self)@.nested.len() <= usize::MAX,
    {
        self.resolving.push(v);
        assert(self.resolving.len() <= usize::MAX && self.nested.len() <= usize::MAX);
        assert(self@.resolving =~= old(self)@.resolving.push(v@));
        proof {
            if known(old(self)@) {
                reveal(known);
                known_after(old(self)@, self@);
            }
        }
    }

    pub(crate) fn push_nested(&mut self, v: String)
        ensures
            known(old(self)@) ==> known(final(self)@),
            final(self)@ == (State { nested: old(self)@.nested.push(v@), ..old(self)@ }),
            final(self)@.resolving.len() <= usize::MAX,
            final(self)@.nested.len() <= usize::MAX,
    {
        self.nested.push(v);
        assert(self.resolving.len() <= usize::MAX && self.nested.len() <= usize::MAX);
        assert(self@.nested =~= old(self)@.nested.push(v@));
        proof {
            if known(old(self)@) {
                reveal(known);
                known_after(old(self)@, self@);
            }
        }
    }

    pub(crate) fn pop_nested(&mut self)
        ensures
            known(old(self)@) ==> known(final(self)@),
            final(self)@ == (State { nested: without_last(old(self)@.nested), ..old(self)@ }),
    {
        let taken = self.nested.pop();
        assert(self@.nested =~= without_last(old(self)@.nested));
        proof {
            if known(old(self)@) {
                reveal(known);
                known_after(old(self)@, self@);
            }
        }
    }

    pub(crate) fn pop_resolving(&mut self)
        ensures
            known(old(self)@) ==> known(final(self)@),
            final(self)@ == (State { resolving: without_last(old(self)@.resolving), ..old(self)@ }),
    {
        let taken = self.resolving.pop();
        assert(self@.resolving =~= without_last(old(self)@.resolving));
        proof {
            if known(old(self)@) {
                reveal(known);
                known_after(old(self)@, self@);
            }
        }
    }

    pub(crate) fn get_type_map(&self, k: Span) -> (r: Option<TypeId>)
        ensures
            known(self@) ==> has_maybe(self@, r),
            r == look(self@.type_map, k),
    {
        proof {
            reveal(known);
        }
        match self.type_map.get(&k) {
            Some(v) => Some(*v),
            None => None,
        }
    }

    pub(crate) fn put_type_map(&mut self, k: Span, v: TypeId)
        ensures
            keeps(old(self)@, final(self)@),
            known(old(self)@) && has(old(self)@, v) ==> known(final(self)@),
            final(self)@ == (State { type_map: old(self)@.type_map.insert(k, v), ..old(self)@ }),
    {
        self.type_map.insert(k, v);
        proof {
            reveal(grows);
            reveal(stays);
            reveal(keeps);
            if known(old(self)@) && has(old(self)@, v) {
                reveal(known);
                known_after(old(self)@, self@);
            }
        }
    }

    pub(crate) fn get_impls(&self, k: (TypeId, TypeId)) -> (r: Option<&Table<String, FunctionSig>>)
        ensures
            r is Some <==> self@.impls.contains_key(k),
            r matches Some(v) ==> v@ == self@.impls[k],
    {
        self.impls.get(&k)
    }

    pub(crate) fn put_impls(&mut self, k: (TypeId, TypeId), v: Table<String, FunctionSig>)
        ensures
            known(old(self)@) ==> known(final(self)@),
            stays(old(self)@, final(self)@),
            final(self)@ == (State { impls: old(self)@.impls.insert(k, v@), ..old(self)@ }),
    {
        proof {
            reveal(grows);
            reveal(stays);
        }
        self.impls.insert(k, v);
        proof {
            if known(old(self)@) {
                reveal(known);
                known_after(old(self)@, self@);
            }
        }
    }

    pub(crate) fn get_impl_methods(&self, k: TypeId) -> (r: Option<&Table<String, FunctionSig>>)
        ensures
            r is Some <==> self@.impl_methods.contains_key(k),
            r matches Some(v) ==> v@ == self@.impl_methods[k],
    {
        self.impl_methods.get(&k)
    }

    pub(crate) fn put_impl_methods(&mut self, k: TypeId, v: Table<String, FunctionSig>)
        ensures
            known(old(self)@) ==> known(final(self)@),
            stays(old(self)@, final(self)@),
            final(self)@ == (State { impl_methods: old(self)@.impl_methods.insert(k, v@), ..old(self)@ }),
    {
        proof {
            reveal(grows);
            reveal(stays);
        }
        self.impl_methods.insert(k, v);
        proof {
            if known(old(self)@) {
                reveal(known);
                known_after(old(self)@, self@);
            }
        }
    }

    pub(crate) fn get_purity_map(&self, k: &String) -> (r: Option<bool>)
        ensures
            r == look(self@.purity_map, k@),
    {
        match self.purity_map.get(k) {
            Some(v) => Some(*v),
            None => None,
        }
    }

    pub(crate) fn put_purity_map(&mut self, k: String, v: bool)
        ensures
            known(old(self)@) ==> known(final(self)@),
            stays(old(self)@, final(self)@),
            final(self)@ == (State { purity_map: old(self)@.purity_map.insert(k@, v), ..old(self)@ }),
    {
        proof {
            reveal(grows);
            reveal(stays);
        }
        self.purity_map.insert(k, v);
        proof {
            if known(old(self)@) {
                reveal(known);
                known_after(old(self)@, self@);
            }
        }
    }

    pub(crate) fn get_signatures(&self, k: &String) -> (r: Option<&FunctionShape>)
        ensures
            known(self@) ==> (r matches Some(v) ==> has_shape(self@, v@)),
            r is Some <==> self@.signatures.contains_key(k@),
            r matches Some(v) ==> v@ == self@.signatures[k@],
    {
        let r = self.signatures.get(k);
        proof {
            if known(self@) && r is Some {
                reveal(known);
                assert(has_shape(self@, self@.signatures[k@]));
            }
        }
        r
    }

    pub(crate) fn put_signatures(&mut self, k: String, v: FunctionShape)
        ensures
            known(old(self)@) && has_shape(old(self)@, v@) ==> known(final(self)@),
            stays(old(self)@, final(self)@),
            final(self)@ == (State { signatures: old(self)@.signatures.insert(k@, v@), ..old(self)@ }),
    {
        proof {
            reveal(grows);
            reveal(stays);
        }
        self.signatures.insert(k, v);
        proof {
            if known(old(self)@) && has_shape(old(self)@, v@) {
                reveal(known);
                known_after(old(self)@, self@);
            }
        }
    }

    pub(crate) fn put_trusted_signatures(&mut self, k: String, v: FunctionShape)
        ensures
            known(old(self)@) ==> known(final(self)@),
            stays(old(self)@, final(self)@),
            final(self)@ == (State { trusted_signatures: old(self)@.trusted_signatures.insert(k@, v@), ..old(self)@ }),
    {
        proof {
            reveal(grows);
            reveal(stays);
        }
        self.trusted_signatures.insert(k, v);
        proof {
            if known(old(self)@) {
                reveal(known);
                known_after(old(self)@, self@);
            }
        }
    }

    pub(crate) fn get_generic_struct_templates(&self, k: &String) -> (r: Option<&'a StructDef>)
        ensures
            r is Some <==> self@.generic_struct_templates.contains_key(k@),
            r matches Some(v) ==> *v == self@.generic_struct_templates[k@],
    {
        match self.generic_struct_templates.get(k) {
            Some(v) => Some(*v),
            None => None,
        }
    }

    pub(crate) fn put_generic_struct_templates(&mut self, k: String, v: &'a StructDef)
        ensures
            known(old(self)@) ==> known(final(self)@),
            grows(old(self)@, final(self)@),
            final(self)@ == (State { generic_struct_templates: old(self)@.generic_struct_templates.insert(k@, *v), ..old(self)@ }),
    {
        proof {
            reveal(grows);
        }
        self.generic_struct_templates.insert(k, v);
        proof {
            if known(old(self)@) {
                reveal(known);
                known_after(old(self)@, self@);
            }
        }
    }

    pub(crate) fn push_monos(&mut self, v: Mono)
        ensures
            grows(old(self)@, final(self)@),
            known(old(self)@) && has(old(self)@, v.ty) && older(v.args@, v.ty) ==> known(final(self)@),
            final(self)@ == (State { monos: old(self)@.monos.push(v@), ..old(self)@ }),
    {
        self.monos.push(v);
        assert(self@.monos =~= old(self)@.monos.push(v@));
        proof {
            reveal(grows);
            if known(old(self)@) && has(old(self)@, v.ty) && older(v.args@, v.ty) {
                reveal(known);
                known_after(old(self)@, self@);
            }
        }
    }

    pub(crate) fn put_reflection_fields(&mut self, k: TypeId, v: FieldList)
        ensures
            keeps(old(self)@, final(self)@),
            known(old(self)@) ==> known(final(self)@),
            final(self)@ == (State { reflection_fields: old(self)@.reflection_fields.insert(k, v@), ..old(self)@ }),
    {
        self.reflection_fields.insert(k, v);
        proof {
            reveal(grows);
            reveal(stays);
            reveal(keeps);
            if known(old(self)@) {
                known_after(old(self)@, self@);
            }
        }
    }

    pub(crate) fn put_reflection_bitfields(&mut self, k: TypeId, v: BitfieldInfo)
        ensures
            keeps(old(self)@, final(self)@),
            known(old(self)@) ==> known(final(self)@),
            final(self)@ == (State { reflection_bitfields: old(self)@.reflection_bitfields.insert(k, v@), ..old(self)@ }),
    {
        self.reflection_bitfields.insert(k, v);
        proof {
            reveal(grows);
            reveal(stays);
            reveal(keeps);
            if known(old(self)@) {
                known_after(old(self)@, self@);
            }
        }
    }

    pub(crate) fn put_reflection_machines(&mut self, k: TypeId, v: MachineInfo)
        ensures
            keeps(old(self)@, final(self)@),
            known(old(self)@) ==> known(final(self)@),
            final(self)@ == (State { reflection_machines: old(self)@.reflection_machines.insert(k, v@), ..old(self)@ }),
    {
        self.reflection_machines.insert(k, v);
        proof {
            reveal(grows);
            reveal(stays);
            reveal(keeps);
            if known(old(self)@) {
                known_after(old(self)@, self@);
            }
        }
    }

    pub(crate) fn put_reflection_variants(&mut self, k: TypeId, v: VariantList)
        ensures
            keeps(old(self)@, final(self)@),
            known(old(self)@) ==> known(final(self)@),
            final(self)@ == (State { reflection_variants: old(self)@.reflection_variants.insert(k, v@), ..old(self)@ }),
    {
        self.reflection_variants.insert(k, v);
        proof {
            reveal(grows);
            reveal(stays);
            reveal(keeps);
            if known(old(self)@) {
                known_after(old(self)@, self@);
            }
        }
    }

    pub(crate) fn get_subst(&self, k: &String) -> (r: Option<TypeId>)
        ensures
            known(self@) ==> has_maybe(self@, r),
            r == look(self@.subst, k@),
    {
        proof {
            reveal(known);
        }
        match self.subst.get(k) {
            Some(v) => Some(*v),
            None => None,
        }
    }

    pub(crate) fn put_subst(&mut self, k: String, v: TypeId)
        ensures
            known(old(self)@) && has(old(self)@, v) ==> known(final(self)@),
            final(self)@ == (State { subst: old(self)@.subst.insert(k@, v), ..old(self)@ }),
    {
        self.subst.insert(k, v);
        proof {
            if known(old(self)@) && has(old(self)@, v) {
                reveal(known);
                known_after(old(self)@, self@);
            }
        }
    }

    pub(crate) fn get_kind_tags(&self, k: &String) -> (r: Option<&String>)
        ensures
            r is Some <==> self@.kind_tags.contains_key(k@),
            r matches Some(v) ==> v@ == self@.kind_tags[k@],
    {
        self.kind_tags.get(k)
    }

    pub(crate) fn push_facts(&mut self, v: FactScope)
        ensures
            known(old(self)@) ==> known(final(self)@),
            final(self)@ == (State { facts: old(self)@.facts.push(v@), ..old(self)@ }),
    {
        self.facts.push(v);
        assert(self@.facts =~= old(self)@.facts.push(v@));
        proof {
            if known(old(self)@) {
                reveal(known);
                known_after(old(self)@, self@);
            }
        }
    }

    pub(crate) fn pop_facts(&mut self)
        ensures
            known(old(self)@) ==> known(final(self)@),
            final(self)@ == (State { facts: without_last(old(self)@.facts), ..old(self)@ }),
    {
        let taken = self.facts.pop();
        assert(self@.facts =~= without_last(old(self)@.facts));
        proof {
            if known(old(self)@) {
                reveal(known);
                known_after(old(self)@, self@);
            }
        }
    }

    pub(crate) fn push_field_scopes(&mut self, v: NamedIds)
        ensures
            known(old(self)@) && has_all(old(self)@, v.ids@) ==> known(final(self)@),
            final(self)@ == (State { field_scopes: old(self)@.field_scopes.push(v@), ..old(self)@ }),
    {
        self.field_scopes.push(v);
        assert(self@.field_scopes =~= old(self)@.field_scopes.push(v@));
        proof {
            if known(old(self)@) && has_all(old(self)@, v.ids@) {
                reveal(known);
                known_after(old(self)@, self@);
            }
        }
    }

    pub(crate) fn pop_field_scopes(&mut self)
        ensures
            known(old(self)@) ==> known(final(self)@),
            final(self)@ == (State { field_scopes: without_last(old(self)@.field_scopes), ..old(self)@ }),
    {
        let taken = self.field_scopes.pop();
        assert(self@.field_scopes =~= without_last(old(self)@.field_scopes));
        proof {
            if known(old(self)@) {
                reveal(known);
                known_after(old(self)@, self@);
            }
        }
    }

    pub(crate) fn push_info_scopes(&mut self, v: NamedIds)
        ensures
            known(old(self)@) && has_all(old(self)@, v.ids@) ==> known(final(self)@),
            final(self)@ == (State { info_scopes: old(self)@.info_scopes.push(v@), ..old(self)@ }),
    {
        self.info_scopes.push(v);
        assert(self@.info_scopes =~= old(self)@.info_scopes.push(v@));
        proof {
            if known(old(self)@) && has_all(old(self)@, v.ids@) {
                reveal(known);
                known_after(old(self)@, self@);
            }
        }
    }

    pub(crate) fn pop_info_scopes(&mut self)
        ensures
            known(old(self)@) ==> known(final(self)@),
            final(self)@ == (State { info_scopes: without_last(old(self)@.info_scopes), ..old(self)@ }),
    {
        let taken = self.info_scopes.pop();
        assert(self@.info_scopes =~= without_last(old(self)@.info_scopes));
        proof {
            if known(old(self)@) {
                reveal(known);
                known_after(old(self)@, self@);
            }
        }
    }

    pub(crate) fn push_variant_scopes(&mut self, v: NamedType)
        ensures
            known(old(self)@) ==> known(final(self)@),
            final(self)@ == (State { variant_scopes: old(self)@.variant_scopes.push(v@), ..old(self)@ }),
    {
        self.variant_scopes.push(v);
        assert(self@.variant_scopes =~= old(self)@.variant_scopes.push(v@));
        proof {
            if known(old(self)@) {
                reveal(known);
                known_after(old(self)@, self@);
            }
        }
    }

    pub(crate) fn pop_variant_scopes(&mut self)
        ensures
            known(old(self)@) ==> known(final(self)@),
            final(self)@ == (State { variant_scopes: without_last(old(self)@.variant_scopes), ..old(self)@ }),
    {
        let taken = self.variant_scopes.pop();
        assert(self@.variant_scopes =~= without_last(old(self)@.variant_scopes));
        proof {
            if known(old(self)@) {
                reveal(known);
                known_after(old(self)@, self@);
            }
        }
    }

    pub(crate) fn push_machine_scopes(&mut self, v: NamedType)
        ensures
            known(old(self)@) ==> known(final(self)@),
            final(self)@ == (State { machine_scopes: old(self)@.machine_scopes.push(v@), ..old(self)@ }),
    {
        self.machine_scopes.push(v);
        assert(self@.machine_scopes =~= old(self)@.machine_scopes.push(v@));
        proof {
            if known(old(self)@) {
                reveal(known);
                known_after(old(self)@, self@);
            }
        }
    }

    pub(crate) fn pop_machine_scopes(&mut self)
        ensures
            known(old(self)@) ==> known(final(self)@),
            final(self)@ == (State { machine_scopes: without_last(old(self)@.machine_scopes), ..old(self)@ }),
    {
        let taken = self.machine_scopes.pop();
        assert(self@.machine_scopes =~= without_last(old(self)@.machine_scopes));
        proof {
            if known(old(self)@) {
                reveal(known);
                known_after(old(self)@, self@);
            }
        }
    }

    pub(crate) fn get_function_templates(&self, k: &String) -> (r: Option<&'a FunctionDef>)
        ensures
            r is Some <==> self@.function_templates.contains_key(k@),
            r matches Some(v) ==> *v == self@.function_templates[k@],
    {
        match self.function_templates.get(k) {
            Some(v) => Some(*v),
            None => None,
        }
    }

    pub(crate) fn put_function_templates(&mut self, k: String, v: &'a FunctionDef)
        ensures
            known(old(self)@) ==> known(final(self)@),
            stays(old(self)@, final(self)@),
            final(self)@ == (State { function_templates: old(self)@.function_templates.insert(k@, *v), ..old(self)@ }),
    {
        proof {
            reveal(grows);
            reveal(stays);
        }
        self.function_templates.insert(k, v);
        proof {
            if known(old(self)@) {
                reveal(known);
                known_after(old(self)@, self@);
            }
        }
    }

    pub(crate) fn push_instances(&mut self, v: Instance)
        ensures
            keeps(old(self)@, final(self)@),
            known(old(self)@) ==> known(final(self)@),
            final(self)@ == (State { instances: old(self)@.instances.push(v@), ..old(self)@ }),
            final(self)@.instances.len() <= usize::MAX,
    {
        self.instances.push(v);
        assert(self.instances.len() <= usize::MAX);
        assert(self@.instances =~= old(self)@.instances.push(v@));
        proof {
            reveal(grows);
            reveal(stays);
            reveal(keeps);
            if known(old(self)@) {
                known_after(old(self)@, self@);
            }
        }
    }

    pub(crate) fn get_context(&self) -> (r: &Context)
        ensures
            known(self@) ==> has_maybe(self@, r.return_type) && has_maybe(self@, r.respond_type),
            r@ == self@.context,
    {
        proof {
            reveal(known);
        }
        &self.context
    }

    pub(crate) fn set_context(&mut self, context: Context)
        ensures
            known(old(self)@) && has_maybe(old(self)@, context.return_type) && has_maybe(
                old(self)@,
                context.respond_type,
            ) ==> known(final(self)@),
            stays(old(self)@, final(self)@),
            final(self)@ == (State { context: context@, ..old(self)@ }),
    {
        proof {
            reveal(grows);
            reveal(stays);
        }
        self.context = context;
        proof {
            if known(old(self)@) && has_maybe(old(self)@, context.return_type) && has_maybe(old(self)@, context.respond_type) {
                reveal(known);
                known_after(old(self)@, self@);
            }
        }
    }

    pub(crate) fn set_in_handle(&mut self, v: bool)
        ensures
            known(old(self)@) ==> known(final(self)@),
            final(self)@ == (State {
                context: ContextV { in_handle: v, ..old(self)@.context },
                ..old(self)@
            }),
    {
        self.context.in_handle = v;
        proof {
            if known(old(self)@) {
                reveal(known);
                known_after(old(self)@, self@);
            }
        }
    }

    /// Puts `subst` in place of the type parameters in scope, and hands those back.
    pub(crate) fn swap_subst(&mut self, subst: Table<String, TypeId>) -> (r: Table<String, TypeId>)
        ensures
            known(old(self)@) && has_values(old(self)@, subst@) ==> known(final(self)@),
            r@ == old(self)@.subst,
            final(self)@ == (State { subst: subst@, ..old(self)@ }),
    {
        let mut held = subst;
        core::mem::swap(&mut self.subst, &mut held);
        let r = held;
        proof {
            if known(old(self)@) && has_values(old(self)@, subst@) {
                reveal(known);
                known_after(old(self)@, self@);
            }
        }
        r
    }

    pub(crate) fn swap_kind_tags(&mut self, tags: Table<String, String>) -> (r: Table<String, String>)
        ensures
            known(old(self)@) ==> known(final(self)@),
            r@ == old(self)@.kind_tags,
            final(self)@ == (State { kind_tags: tags@, ..old(self)@ }),
    {
        let mut held = tags;
        core::mem::swap(&mut self.kind_tags, &mut held);
        let r = held;
        proof {
            if known(old(self)@) {
                reveal(known);
                known_after(old(self)@, self@);
            }
        }
        r
    }

    pub(crate) fn drop_subst(&mut self, k: &String)
        ensures
            known(old(self)@) ==> known(final(self)@),
            final(self)@ == (State { subst: old(self)@.subst.remove(k@), ..old(self)@ }),
    {
        self.subst.remove(k);
        proof {
            if known(old(self)@) {
                reveal(known);
                known_after(old(self)@, self@);
            }
        }
    }

    /// Forgets what is known of a variable.
    pub(crate) fn clear_reflection_local_fact(&mut self, id: DefId)
        ensures
            keeps(old(self)@, final(self)@),
            known(old(self)@) ==> known(final(self)@),
            final(self)@ == forget_facts(old(self)@, id),
    {
        let ghost before = self@.facts;
        let mut i: usize = 0;
        while i < self.facts.len()
            invariant
                i <= self.facts@.len(),
                before == old(self)@.facts,
                self.facts@.len() == before.len(),
                forall|j: int| 0 <= j < i ==> (#[trigger] self.facts@[j])@ == forget(before[j], id),
                forall|j: int| i <= j < before.len() ==> (#[trigger] self.facts@[j])@ == before[j],
                self@ == (State { facts: self@.facts, ..old(self)@ }),
            decreases self.facts@.len() - i,
        {
            let scope = &mut self.facts[i];
            scope.info_kinds.remove(&id);
            scope.info_primitives.remove(&id);
            scope.kind_values.remove(&id);
            scope.primitive_values.remove(&id);
            i = i + 1;
        }
        assert(self@.facts =~= forget_facts(old(self)@, id).facts);
        proof {
            reveal(grows);
            reveal(stays);
            reveal(keeps);
            if known(old(self)@) {
                known_after(old(self)@, self@);
            }
        }
    }

    /// Notes what a variable of the innermost block is known to hold.
    pub(crate) fn note_info(&mut self, id: DefId, kind: String, primitive: MaybeTag)
        ensures
            keeps(old(self)@, final(self)@),
            known(old(self)@) ==> known(final(self)@),
            final(self)@ == note_info(old(self)@, id, kind@, primitive@),
    {
        let n: usize = self.facts.len();
        if n > 0 {
            let scope = &mut self.facts[n - 1];
            scope.info_kinds.insert(id, kind);
            scope.info_primitives.insert(id, primitive);
            assert(self@.facts =~= note_info(old(self)@, id, kind@, primitive@).facts);
        }
        proof {
            reveal(grows);
            reveal(stays);
            reveal(keeps);
            if known(old(self)@) {
                known_after(old(self)@, self@);
            }
        }
    }

    pub(crate) fn note_kind(&mut self, id: DefId, kind: String)
        ensures
            keeps(old(self)@, final(self)@),
            known(old(self)@) ==> known(final(self)@),
            final(self)@ == note_kind(old(self)@, id, kind@),
    {
        let n: usize = self.facts.len();
        if n > 0 {
            let scope = &mut self.facts[n - 1];
            scope.kind_values.insert(id, kind);
            assert(self@.facts =~= note_kind(old(self)@, id, kind@).facts);
        }
        proof {
            reveal(grows);
            reveal(stays);
            reveal(keeps);
            if known(old(self)@) {
                known_after(old(self)@, self@);
            }
        }
    }

    pub(crate) fn note_primitive(&mut self, id: DefId, tag: String)
        ensures
            keeps(old(self)@, final(self)@),
            known(old(self)@) ==> known(final(self)@),
            final(self)@ == note_primitive(old(self)@, id, tag@),
    {
        let n: usize = self.facts.len();
        if n > 0 {
            let scope = &mut self.facts[n - 1];
            scope.primitive_values.insert(id, tag);
            assert(self@.facts =~= note_primitive(old(self)@, id, tag@).facts);
        }
        proof {
            reveal(grows);
            reveal(stays);
            reveal(keeps);
            if known(old(self)@) {
                known_after(old(self)@, self@);
            }
        }
    }

    pub(crate) fn drop_type_env(&mut self, k: DefId)
        ensures
            keeps(old(self)@, final(self)@),
            known(old(self)@) ==> known(final(self)@),
            final(self)@ == (State { type_env: old(self)@.type_env.remove(k), ..old(self)@ }),
    {
        self.type_env.remove(&k);
        proof {
            reveal(grows);
            reveal(stays);
            reveal(keeps);
            if known(old(self)@) {
                reveal(known);
                known_after(old(self)@, self@);
            }
        }
    }

    pub(crate) fn all_named_types(&self) -> (r: &Table<String, TypeId>)
        ensures
            r@ == self@.named_types,
    {
        &self.named_types
    }

    pub(crate) fn all_reflection_fields(&self) -> (r: &Table<TypeId, FieldList>)
        ensures
            r@ == self@.reflection_fields,
    {
        &self.reflection_fields
    }

    pub(crate) fn all_reflection_bitfields(&self) -> (r: &Table<TypeId, BitfieldInfo>)
        ensures
            r@ == self@.reflection_bitfields,
    {
        &self.reflection_bitfields
    }

    pub(crate) fn all_reflection_machines(&self) -> (r: &Table<TypeId, MachineInfo>)
        ensures
            r@ == self@.reflection_machines,
    {
        &self.reflection_machines
    }

    pub(crate) fn all_reflection_variants(&self) -> (r: &Table<TypeId, VariantList>)
        ensures
            r@ == self@.reflection_variants,
    {
        &self.reflection_variants
    }

    /// What is left of a checker once its module is checked.
    pub(crate) fn into_parts(self) -> (r: (Vec<Diagnostic>, Table<Span, TypeId>, TypeInterner))
        ensures
            views(r.0@) == self@.reports,
            r.1@ == self@.type_map,
            r.2@ == self@.types,
    {
        (self.diagnostics, self.type_map, self.interner)
    }

    pub(crate) fn all_impls(&self) -> (r: &Table<(TypeId, TypeId), Table<String, FunctionSig>>)
        ensures
            r@ == self@.impls,
    {
        &self.impls
    }

    pub(crate) fn all_resolving(&self) -> (r: &Vec<String>)
        ensures
            views(r@) == self@.resolving,
    {
        &self.resolving
    }

    pub(crate) fn all_field_scopes(&self) -> (r: &Vec<NamedIds>)
        ensures
            views(r@) == self@.field_scopes,
            r@.len() == self@.field_scopes.len(),
    {
        &self.field_scopes
    }

    pub(crate) fn all_info_scopes(&self) -> (r: &Vec<NamedIds>)
        ensures
            views(r@) == self@.info_scopes,
            r@.len() == self@.info_scopes.len(),
    {
        &self.info_scopes
    }

    pub(crate) fn all_variant_scopes(&self) -> (r: &Vec<NamedType>)
        ensures
            views(r@) == self@.variant_scopes,
            r@.len() == self@.variant_scopes.len(),
    {
        &self.variant_scopes
    }

    pub(crate) fn all_machine_scopes(&self) -> (r: &Vec<NamedType>)
        ensures
            views(r@) == self@.machine_scopes,
            r@.len() == self@.machine_scopes.len(),
    {
        &self.machine_scopes
    }

    pub(crate) fn all_subst(&self) -> (r: &Table<String, TypeId>)
        ensures
            r@ == self@.subst,
    {
        &self.subst
    }

    pub(crate) fn all_instances(&self) -> (r: &Vec<Instance>)
        ensures
            views(r@) == self@.instances,
    {
        &self.instances
    }

    pub(crate) fn all_monos(&self) -> (r: &Vec<Mono>)
        ensures
            views(r@) == self@.monos,
    {
        &self.monos
    }

    pub(crate) fn all_facts(&self) -> (r: &Vec<FactScope>)
        ensures
            views(r@) == self@.facts,
    {
        &self.facts
    }
}

/// Nothing is known of a variable any more.
pub open spec fn forget_facts(s: State, id: DefId) -> State {
    State { facts: Seq::new(s.facts.len(), |i: int| forget(s.facts[i], id)), ..s }
}

/// The innermost scope replaced, where there is one.
pub open spec fn with_last_scope(s: State, scope: FactScopeV) -> State {
    State { facts: s.facts.update(s.facts.len() - 1, scope), ..s }
}

pub open spec fn note_info(s: State, id: DefId, kind: Seq<char>, primitive: Option<Seq<char>>) -> State {
    if s.facts.len() == 0 {
        s
    } else {
        with_last_scope(
            s,
            FactScopeV {
                info_kinds: s.facts.last().info_kinds.insert(id, kind),
                info_primitives: s.facts.last().info_primitives.insert(id, primitive),
                ..s.facts.last()
            },
        )
    }
}

pub open spec fn note_kind(s: State, id: DefId, kind: Seq<char>) -> State {
    if s.facts.len() == 0 {
        s
    } else {
        with_last_scope(
            s,
            FactScopeV {
                kind_values: s.facts.last().kind_values.insert(id, kind),
                ..s.facts.last()
            },
        )
    }
}

pub open spec fn note_primitive(s: State, id: DefId, tag: Seq<char>) -> State {
    if s.facts.len() == 0 {
        s
    } else {
        with_last_scope(
            s,
            FactScopeV {
                primitive_values: s.facts.last().primitive_values.insert(id, tag),
                ..s.facts.last()
            },
        )
    }
}

/// A list without its last entry, where it has one.
pub open spec fn without_last<T>(s: Seq<T>) -> Seq<T> {
    if s.len() == 0 {
        s
    } else {
        s.drop_last()
    }
}

} // verus!
