//! The checking of a whole module.
use std::sync::Arc;
use vstd::prelude::*;

use crate::ast::{Item, Module};
use crate::check_blocks::check_var_decl;
use crate::check_items::{
    alias_name, check_actor, check_function, check_implement, check_methods, check_property,
    check_type_alias, check_verify, type_alias_canonical_name,
};
use crate::declare::{
    finish_actor, finish_bitfield, finish_enum, finish_interface, finish_machine, finish_struct,
    predeclare_actor, predeclare_bitfield, predeclare_enum, predeclare_interface,
    predeclare_machine, predeclare_struct, serialize_names_only_reports, struct_is_declared,
};
use crate::diagnostics::{Diagnostic, DiagnosticV};
use crate::metadata::{lists_keys, metadata_of, MetadataV, ReflectionMetadata};
use crate::metadata_types::first_state;
use crate::names::{canonical, canonical_name, next_place, start_place, Place, PlaceV};
use crate::ownership::{check_ownership, module_reports, Surroundings};
use crate::ownership_steps::law_more_types_change_no_report;
use crate::resolution::{Names, ResolveResult};
use crate::signatures::{
    functions_from, interface_purity, register_function, register_implement, register_mutual,
    struct_purity, validate_implements, validate_mutuals,
};
use crate::span::Span;
use crate::state::{State, TypeChecker};
use crate::made::{made, nothing_made};
use crate::steady::{grows, has_values, known, stays, stays_apart, stays_made, stays_named};
use crate::table::{dup_vec, views, Table};
use crate::text::maybe_text;
use crate::types::{TypeId, TypeInterner, Types};
use crate::written_types::nesting;

verus! {

broadcast use {
    crate::steady::group_growing,
    crate::steady::group_staying,
    crate::steady::group_steady,
};

/// Notes the aliases of a module from `i` on.
pub open spec fn collect_aliases(s: State, items: Seq<Item>, place: PlaceV, i: nat) -> State
    decreases items.len() - i,
{
    if i >= items.len() {
        s
    } else {
        let here = next_place(place, items[i as int]);
        let s1 = match items[i as int] {
            Item::TypeAlias(alias) => State {
                aliases: s.aliases.insert(alias_name(alias, here.namespace), alias),
                ..s
            },
            _ => s,
        };
        collect_aliases(s1, items, here, i + 1)
    }
}

/// Makes a declared type known by name.
pub open spec fn predeclare_item(s: State, item: Item, namespace: Option<Seq<char>>) -> State {
    match item {
        Item::Interface(def) => predeclare_interface(s, def, namespace),
        Item::Struct(def) => predeclare_struct(s, def, namespace),
        Item::Bitfield(def) => predeclare_bitfield(s, def, namespace),
        Item::Enum(def) => predeclare_enum(s, def, namespace),
        Item::Machine(def) => predeclare_machine(s, def, namespace),
        Item::Actor(def) => predeclare_actor(s, def, namespace),
        _ => s,
    }
}

pub open spec fn predeclare_items(s: State, items: Seq<Item>, place: PlaceV, i: nat) -> State
    decreases items.len() - i,
{
    if i >= items.len() {
        s
    } else {
        let here = next_place(place, items[i as int]);
        predeclare_items(predeclare_item(s, items[i as int], here.namespace), items, here, i + 1)
    }
}

/// Fills in what a declared type holds.
pub open spec fn finish_item(s: State, item: Item, namespace: Option<Seq<char>>) -> State {
    match item {
        Item::Interface(def) => finish_interface(s, def, namespace),
        Item::Struct(def) => finish_struct(s, def, namespace),
        Item::Bitfield(def) => finish_bitfield(s, def, namespace),
        Item::Enum(def) => finish_enum(s, def, namespace),
        Item::Machine(def) => finish_machine(s, def, namespace),
        Item::Actor(def) => finish_actor(s, def, namespace),
        _ => s,
    }
}

pub open spec fn finish_items(s: State, items: Seq<Item>, place: PlaceV, i: nat) -> State
    decreases items.len() - i,
{
    if i >= items.len() {
        s
    } else {
        let here = next_place(place, items[i as int]);
        finish_items(finish_item(s, items[i as int], here.namespace), items, here, i + 1)
    }
}

/// Notes signatures, implementations and purity.
pub open spec fn register_item(s: State, item: Item, namespace: Option<Seq<char>>) -> State {
    match item {
        Item::Mutual(block) => register_mutual(s, block.declarations@, namespace, 0),
        Item::Function(f) => register_function(s, f, namespace),
        Item::Interface(def) => interface_purity(
            s,
            canonical(namespace, def.name.name@),
            def.methods@,
            0,
        ),
        Item::Implement(block) => register_implement(s, block),
        Item::Struct(def) => struct_purity(s, canonical(namespace, def.name.name@), def.methods@, 0),
        _ => s,
    }
}

pub open spec fn register_items(s: State, items: Seq<Item>, place: PlaceV, i: nat) -> State
    decreases items.len() - i,
{
    if i >= items.len() {
        s
    } else {
        let here = next_place(place, items[i as int]);
        register_items(register_item(s, items[i as int], here.namespace), items, here, i + 1)
    }
}

/// Checks what an item does. The bodies of generic functions are checked where
/// they are called.
pub open spec fn check_item(s: State, item: Item, namespace: Option<Seq<char>>) -> State {
    match item {
        Item::TypeAlias(alias) => check_type_alias(s, alias, namespace),
        Item::Function(f) => if f.type_params@.len() == 0 {
            check_function(s, f)
        } else {
            s
        },
        Item::Implement(block) => check_implement(s, block),
        Item::Struct(def) => check_methods(s, canonical(namespace, def.name.name@), def.methods@, 0),
        Item::Actor(def) => check_actor(s, def, namespace),
        Item::VarDecl(decl) => check_var_decl(s, decl, nesting()),
        Item::Verify(block) => check_verify(s, block),
        Item::Property(block) => check_property(s, block),
        _ => s,
    }
}

pub open spec fn check_items(s: State, items: Seq<Item>, place: PlaceV, i: nat) -> State
    decreases items.len() - i,
{
    if i >= items.len() {
        s
    } else {
        let here = next_place(place, items[i as int]);
        check_items(check_item(s, items[i as int], here.namespace), items, here, i + 1)
    }
}

/// What is known before any body is looked at.
pub open spec fn declare_items(s: State, items: Seq<Item>) -> State {
    let s1 = collect_aliases(s, items, start_place(), 0);
    let s2 = predeclare_items(s1, items, start_place(), 0);
    let s3 = finish_items(s2, items, start_place(), 0);
    let s4 = register_items(s3, items, start_place(), 0);
    let functions = functions_from(items, start_place(), 0, Map::empty());
    let s5 = validate_mutuals(s4, items, functions, start_place(), 0);
    validate_implements(s5, items, 0)
}

/// A module is checked once all of its names are known.
#[verifier::opaque]
pub open spec fn check_module(s: State, items: Seq<Item>) -> State {
    check_items(declare_items(s, items), items, start_place(), 0)
}

/// What comes of checking a module, where names are told of in the given order. The
/// reports on types come first, then those on complexity, then those on ownership.
pub open spec fn checked(names: Names, module: Module, order: Seq<Seq<char>>) -> CheckResultV {
    let s = check_module(first_state(names), module.items@);
    let owned = module_reports(Surroundings { types: s.types, facades: names.view_facades }, module);
    let (s1, reflection_metadata) = metadata_of(s, order);
    CheckResultV {
        diagnostics: s1.reports + names.complexity + owned,
        type_map: s1.type_map,
        interner: s1.types,
        reflection_metadata,
    }
}

/// The reports on types, in the order in which they are found.
pub open spec fn type_reports(names: Names, module: Module, order: Seq<Seq<char>>) -> Seq<DiagnosticV> {
    metadata_of(check_module(first_state(names), module.items@), order).0.reports
}

/// The names that a checked module knows types by.
pub open spec fn known_names(names: Names, module: Module) -> Map<Seq<char>, TypeId> {
    check_module(first_state(names), module.items@).named_types
}

/// What comes of checking a module.
#[derive(Debug)]
pub struct CheckResult {
    pub diagnostics: Vec<Diagnostic>,
    /// The types found for expressions.
    pub type_map: Table<Span, TypeId>,
    pub interner: TypeInterner,
    /// What a running program can ask about types.
    pub reflection_metadata: Arc<ReflectionMetadata>,
}

pub struct CheckResultV {
    pub diagnostics: Seq<DiagnosticV>,
    pub type_map: Map<Span, TypeId>,
    pub interner: Types,
    pub reflection_metadata: MetadataV,
}

impl View for CheckResult {
    type V = CheckResultV;

    open spec fn view(&self) -> CheckResultV {
        CheckResultV {
            diagnostics: views(self.diagnostics@),
            type_map: self.type_map@,
            interner: self.interner@,
            reflection_metadata: (*self.reflection_metadata)@,
        }
    }
}

// ---------------------------------------------------------------------------
// What is made before bodies are looked at
// ---------------------------------------------------------------------------

/// Whether a struct without parameters has a type by its name.
pub open spec fn struct_named(s: State, item: Item, namespace: Option<Seq<char>>) -> bool {
    match item {
        Item::Struct(def) => def.type_params@.len() > 0 || s.named_types.contains_key(
            canonical(namespace, def.name.name@),
        ),
        _ => true,
    }
}

/// Whether the structs from `i` on have types by their names.
pub open spec fn structs_named(s: State, items: Seq<Item>, place: PlaceV, i: nat) -> bool
    decreases items.len() - i,
{
    i >= items.len() || {
        let here = next_place(place, items[i as int]);
        struct_named(s, items[i as int], here.namespace) && structs_named(s, items, here, i + 1)
    }
}

/// Whether an item, where it is a struct, has a type that was not made of a template.
pub open spec fn item_is_declared(s: State, item: Item, namespace: Option<Seq<char>>) -> bool {
    match item {
        Item::Struct(def) => def.type_params@.len() > 0 || struct_is_declared(s, def, namespace),
        _ => true,
    }
}

proof fn named_is_declared(start: State, s: State, item: Item, namespace: Option<Seq<char>>)
    requires
        known(start),
        start.monos.len() == 0,
        stays(start, s),
        struct_named(start, item, namespace),
    ensures
        item_is_declared(s, item, namespace),
{
    match item {
        Item::Struct(def) => {
            let name = canonical(namespace, def.name.name@);
            if start.named_types.contains_key(name) {
                let id = start.named_types[name];
                reveal(known);
                stays_apart(start, s, id);
                stays_named(start, s, name);
            }
        },
        _ => {},
    }
}

proof fn collecting_makes_nothing(s: State, items: Seq<Item>, place: PlaceV, i: nat)
    ensures
        collect_aliases(s, items, place, i).monos == s.monos,
    decreases items.len() - i,
{
    if i < items.len() {
        let here = next_place(place, items[i as int]);
        let s1 = match items[i as int] {
            Item::TypeAlias(alias) => State {
                aliases: s.aliases.insert(alias_name(alias, here.namespace), alias),
                ..s
            },
            _ => s,
        };
        collecting_makes_nothing(s1, items, here, i + 1);
    }
}

proof fn predeclared_item(s: State, item: Item, namespace: Option<Seq<char>>)
    ensures
        predeclare_item(s, item, namespace).monos == s.monos,
        s.named_types.dom().subset_of(predeclare_item(s, item, namespace).named_types.dom()),
        struct_named(predeclare_item(s, item, namespace), item, namespace),
{
    match item {
        Item::Struct(def) => {
            serialize_names_only_reports(s, canonical(namespace, def.name.name@), def.fields@, 0);
        },
        _ => {},
    }
}

/// Every struct without parameters gets a type by its name, and nothing is made.
proof fn predeclared_items(s: State, items: Seq<Item>, place: PlaceV, i: nat)
    ensures
        predeclare_items(s, items, place, i).monos == s.monos,
        s.named_types.dom().subset_of(predeclare_items(s, items, place, i).named_types.dom()),
        structs_named(predeclare_items(s, items, place, i), items, place, i),
    decreases items.len() - i,
{
    if i < items.len() {
        let here = next_place(place, items[i as int]);
        let next = predeclare_item(s, items[i as int], here.namespace);
        predeclared_item(s, items[i as int], here.namespace);
        predeclared_items(next, items, here, i + 1);
        match items[i as int] {
            Item::Struct(def) => {
                let name = canonical(here.namespace, def.name.name@);
                if def.type_params@.len() == 0 {
                    assert(next.named_types.dom().contains(name));
                }
            },
            _ => {},
        }
    }
}

impl<'a> TypeChecker<'a> {
    fn collect_type_aliases(&mut self, items: &'a Vec<Item>)
        ensures
            grows(old(self)@, final(self)@),
            known(old(self)@) ==> known(final(self)@),
            final(self)@ == collect_aliases(old(self)@, items@, start_place(), 0),
    {
        let mut place = Place::new();
        let mut i: usize = 0;
        while i < items.len()
            invariant
                grows(old(self)@, self@),
                known(old(self)@) ==> known(self@),
                i <= items@.len(),
                collect_aliases(self@, items@, place@, i as nat) == collect_aliases(
                    old(self)@,
                    items@,
                    start_place(),
                    0,
                ),
            decreases items@.len() - i,
        {
            place.update_current_namespace(&items[i]);
            if let Item::TypeAlias(alias) = &items[i] {
                self.put_aliases(type_alias_canonical_name(alias, &place.namespace), alias);
            }
            i = i + 1;
        }
    }

    fn predeclare_item(&mut self, item: &'a Item, namespace: &Option<String>)
        ensures
            grows(old(self)@, final(self)@),
            known(old(self)@) ==> known(final(self)@),
            final(self)@ == predeclare_item(old(self)@, *item, maybe_text(*namespace)),
    {
        match item {
            Item::Interface(def) => self.predeclare_interface(def, namespace),
            Item::Struct(def) => self.predeclare_struct(def, namespace),
            Item::Bitfield(def) => self.predeclare_bitfield(def, namespace),
            Item::Enum(def) => self.predeclare_enum(def, namespace),
            Item::Machine(def) => self.predeclare_machine(def, namespace),
            Item::Actor(def) => self.predeclare_actor(def, namespace),
            _ => {},
        }
    }

    fn predeclare_items(&mut self, items: &'a Vec<Item>)
        ensures
            grows(old(self)@, final(self)@),
            known(old(self)@) ==> known(final(self)@),
            final(self)@ == predeclare_items(old(self)@, items@, start_place(), 0),
    {
        let mut place = Place::new();
        let mut i: usize = 0;
        while i < items.len()
            invariant
                grows(old(self)@, self@),
                known(old(self)@) ==> known(self@),
                i <= items@.len(),
                predeclare_items(self@, items@, place@, i as nat) == predeclare_items(
                    old(self)@,
                    items@,
                    start_place(),
                    0,
                ),
            decreases items@.len() - i,
        {
            place.update_current_namespace(&items[i]);
            self.predeclare_item(&items[i], &place.namespace);
            i = i + 1;
        }
    }

    fn finish_item(&mut self, item: &'a Item, namespace: &Option<String>)
        ensures
            grows(old(self)@, final(self)@),
            item_is_declared(old(self)@, *item, maybe_text(*namespace)) ==> stays(
                old(self)@,
                final(self)@,
            ),
            known(old(self)@) ==> known(final(self)@),
            final(self)@ == finish_item(old(self)@, *item, maybe_text(*namespace)),
    {
        match item {
            Item::Interface(def) => self.finish_interface(def, namespace),
            Item::Struct(def) => self.finish_struct(def, namespace),
            Item::Bitfield(def) => self.finish_bitfield(def, namespace),
            Item::Enum(def) => self.finish_enum(def, namespace),
            Item::Machine(def) => self.finish_machine(def, namespace),
            Item::Actor(def) => self.finish_actor(def, namespace),
            _ => {},
        }
    }

    fn finish_items(&mut self, items: &'a Vec<Item>)
        ensures
            grows(old(self)@, final(self)@),
            known(old(self)@) && old(self)@.monos.len() == 0 && structs_named(
                old(self)@,
                items@,
                start_place(),
                0,
            ) ==> stays(old(self)@, final(self)@),
            known(old(self)@) ==> known(final(self)@),
            final(self)@ == finish_items(old(self)@, items@, start_place(), 0),
    {
        let ghost start = self@;
        let ghost fresh = known(start) && start.monos.len() == 0 && structs_named(
            start,
            items@,
            start_place(),
            0,
        );
        let mut place = Place::new();
        let mut i: usize = 0;
        while i < items.len()
            invariant
                start == old(self)@,
                fresh ==> known(start) && start.monos.len() == 0,
                fresh ==> structs_named(start, items@, place@, i as nat),
                fresh ==> stays(start, self@),
                grows(old(self)@, self@),
                known(old(self)@) ==> known(self@),
                i <= items@.len(),
                finish_items(self@, items@, place@, i as nat) == finish_items(
                    old(self)@,
                    items@,
                    start_place(),
                    0,
                ),
            decreases items@.len() - i,
        {
            place.update_current_namespace(&items[i]);
            proof {
                if fresh {
                    named_is_declared(start, self@, items@[i as int], place@.namespace);
                }
            }
            self.finish_item(&items[i], &place.namespace);
            i = i + 1;
        }
    }

    fn register_item(&mut self, item: &'a Item, namespace: &Option<String>)
        ensures
            stays(old(self)@, final(self)@),
            known(old(self)@) ==> known(final(self)@),
            final(self)@ == register_item(old(self)@, *item, maybe_text(*namespace)),
    {
        match item {
            Item::Mutual(block) => self.register_mutual(block, namespace),
            Item::Function(f) => self.register_function(f, namespace),
            Item::Interface(def) => self.register_interface(def, namespace),
            Item::Implement(block) => self.register_implement_block(block),
            Item::Struct(def) => self.register_struct(def, namespace),
            _ => {},
        }
    }

    fn register_items(&mut self, items: &'a Vec<Item>)
        ensures
            stays(old(self)@, final(self)@),
            known(old(self)@) ==> known(final(self)@),
            final(self)@ == register_items(old(self)@, items@, start_place(), 0),
    {
        let mut place = Place::new();
        let mut i: usize = 0;
        while i < items.len()
            invariant
                stays(old(self)@, self@),
                known(old(self)@) ==> known(self@),
                i <= items@.len(),
                register_items(self@, items@, place@, i as nat) == register_items(
                    old(self)@,
                    items@,
                    start_place(),
                    0,
                ),
            decreases items@.len() - i,
        {
            place.update_current_namespace(&items[i]);
            self.register_item(&items[i], &place.namespace);
            i = i + 1;
        }
    }

    fn check_item(&mut self, item: &'a Item, namespace: &Option<String>)
        ensures
            stays(old(self)@, final(self)@),
            known(old(self)@) ==> known(final(self)@),
            final(self)@ == check_item(old(self)@, *item, maybe_text(*namespace)),
    {
        match item {
            Item::TypeAlias(alias) => self.check_type_alias(alias, namespace),
            Item::Function(f) => {
                if f.type_params.len() == 0 {
                    self.check_function(f);
                }
            },
            Item::Implement(block) => self.check_implement_block(block),
            Item::Struct(def) => {
                let owner = canonical_name(namespace, &def.name.name);
                self.check_methods(&owner, &def.methods);
            },
            Item::Actor(def) => self.check_actor(def, namespace),
            Item::VarDecl(decl) => self.check_var_decl(decl, Ghost(nesting())),
            Item::Verify(block) => self.check_verify_block(block),
            Item::Property(block) => self.check_property_block(block),
            _ => {},
        }
    }

    fn check_items(&mut self, items: &'a Vec<Item>)
        ensures
            stays(old(self)@, final(self)@),
            known(old(self)@) ==> known(final(self)@),
            final(self)@ == check_items(old(self)@, items@, start_place(), 0),
    {
        let mut place = Place::new();
        let mut i: usize = 0;
        while i < items.len()
            invariant
                stays(old(self)@, self@),
                known(old(self)@) ==> known(self@),
                i <= items@.len(),
                check_items(self@, items@, place@, i as nat) == check_items(
                    old(self)@,
                    items@,
                    start_place(),
                    0,
                ),
            decreases items@.len() - i,
        {
            place.update_current_namespace(&items[i]);
            self.check_item(&items[i], &place.namespace);
            i = i + 1;
        }
    }

    /// Checks a module: all of its names are made known before a body is looked
    /// at.
    pub fn check_module(&mut self, module: &'a Module)
        ensures
            grows(old(self)@, final(self)@),
            known(old(self)@) && old(self)@.monos.len() == 0 ==> made(final(self)@),
            known(old(self)@) ==> known(final(self)@),
            final(self)@ == check_module(old(self)@, module.items@),
    {
        proof {
            reveal(check_module);
        }
        self.collect_type_aliases(&module.items);
        let ghost collected = self@;
        self.predeclare_items(&module.items);
        let ghost declared = self@;
        proof {
            collecting_makes_nothing(old(self)@, module.items@, start_place(), 0);
            predeclared_items(collected, module.items@, start_place(), 0);
        }
        self.finish_items(&module.items);
        let ghost finished = self@;
        self.register_items(&module.items);
        self.validate_mutual_blocks(&module.items);
        self.validate_implement_blocks(&module.items);
        self.check_items(&module.items);
        proof {
            if known(old(self)@) && old(self)@.monos.len() == 0 {
                nothing_made(declared);
                stays_made(declared, finished);
                stays_made(finished, self@);
            }
        }
    }
}

/// Type-checks a module whose names are resolved, and checks who owns its values. The
/// reports on ownership are those that the types in the result give.
pub fn check(module: &Module, resolve: &ResolveResult) -> (r: CheckResult)
    ensures
        exists|order: Seq<Seq<char>>| #[trigger]
            lists_keys(order, known_names(resolve@, *module)) && r@ == checked(
                resolve@,
                *module,
                order,
            ) && r@.diagnostics == type_reports(resolve@, *module, order) + resolve@.complexity
                + module_reports(
                Surroundings { types: r@.interner, facades: resolve@.view_facades },
                *module,
            ),
        forall|span: Span| #[trigger]
            r@.type_map.contains_key(span) ==> r@.type_map[span] < r@.interner.types.len(),
{
    let mut checker = TypeChecker::new(resolve);
    checker.check_module(module);
    let ghost s = checker@;
    let owned = check_ownership(module, checker.interner(), &resolve.view_facades);
    let ghost seen = Surroundings { types: s.types, facades: resolve@.view_facades };
    let ghost owned_reports = views(owned@);
    let reflection_metadata = Arc::new(checker.build_reflection_metadata());
    let ghost s1 = checker@;
    assert(has_values(s1, s1.type_map)) by {
        reveal(known);
    }
    let (mut diagnostics, type_map, interner) = checker.into_parts();
    let mut complexity = dup_vec(&resolve.complexity);
    let mut owned = owned;
    let ghost before = diagnostics@;
    let ghost between = complexity@;
    let ghost more = owned@;
    diagnostics.append(&mut complexity);
    diagnostics.append(&mut owned);
    assert(views(diagnostics@) =~= views(before) + views(between) + views(more));
    let r = CheckResult { diagnostics, type_map, interner, reflection_metadata };
    proof {
        use_type_invariant(&r.interner);
        let given = Surroundings { types: r@.interner, facades: resolve@.view_facades };
        law_more_types_change_no_report(seen, given, *module);
        let order = choose|order: Seq<Seq<char>>| #[trigger]
            lists_keys(order, s.named_types) && (s1, r@.reflection_metadata) == metadata_of(s, order);
        assert(lists_keys(order, known_names(resolve@, *module)));
        let want = checked(resolve@, *module, order);
        assert(want.diagnostics == s1.reports + resolve@.complexity + owned_reports);
        assert(r@ == want);
    }
    r
}

} // verus!
