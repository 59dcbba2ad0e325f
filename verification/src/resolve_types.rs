//! From written types to types.
use vstd::prelude::*;
use vstd::string::StringExecFns;

use crate::ast::{FieldDef, FunctionDef, Ident, Param, StructDef, TypeExpr};
use crate::diagnostics::{args1, error, Diagnostic, ErrorCode};
use crate::made::{
    filled_in, filled_stays, ground, is_instance, made, made_is_found, stands_for, written_for,
};
use crate::reflect_types::{id_of_primitive, primitive_by_name};
use crate::reflection::FieldList;
use crate::span::Span;
use crate::state::{Mono, MonoV, State, TypeChecker};
use crate::steady::{
    has, has_all, has_fields, has_maybe, has_values, keeps, keeps_around, keeps_ground, keeps_made,
    keeps_scopes, keeps_unresolved, known, made_another, older,
};
use crate::table::{views, Table};
use crate::text::{contains_text, decimal_text, join2, join3, same_text};
use crate::type_names::{lemma_names_stay, more_structs, name_of};
use crate::types::{
    dup_ids, intern, intern_function, intern_refinement, same_ids, sound, ty, FunctionSig,
    NamedType, SigParam, StructShape, Type, TypeId, TypeInterner, Types,
};
use crate::written_types::{
    alias_at, applied_name, apply_one, apply_two, bind_params, can_be_made, can_open, fields_at,
    generic_at, list_at, machine_state_type, made_earlier, method_at, method_signature, methods_at,
    mono_named, named_at, names_joined, nesting, new_struct, one_arg_named, params_at, resolve_at,
    resolve_fields, resolve_param_ids, resolve_params, resolve_return, resolve_type, resolve_types,
    return_at, struct_at, two_args_named, unknown_type, wrong_count, OneArg, TwoArgs,
};

verus! {

broadcast use crate::steady::group_steady;

pub fn wrong_count_text(name: &str, expected: &str, got: usize) -> (r: String)
    ensures
        r@ == wrong_count(name@, expected@, got as nat),
{
    let mut r = join3(name, " (expected ", expected);
    r.append(", got ");
    r.append(decimal_text(got).as_str());
    r.append(")");
    r
}

/// Whether the type is a struct that is named after the arguments.
pub open spec fn is_named(types: Types, id: TypeId, name: Seq<char>, args: Seq<TypeId>) -> bool {
    ty(types, id) matches Type::Struct(sid) && sid.0 < types.structs.len() && types.structs[sid.0 as int].name
        == applied_name(types, name, args)
}

proof fn lemma_joined_names_stay(a: Types, b: Types, ids: Seq<TypeId>, i: nat)
    requires
        sound(a),
        sound(b),
        more_structs(a, b),
        forall|j: int| 0 <= j < ids.len() ==> #[trigger] ids[j] < a.types.len(),
    ensures
        names_joined(a, ids, i) == names_joined(b, ids, i),
    decreases ids.len() - i,
{
    if i < ids.len() {
        lemma_names_stay(a, b, ids[i as int]);
        lemma_joined_names_stay(a, b, ids, i + 1);
    }
}

fn one_arg(name: &str) -> (r: Option<OneArg>)
    ensures
        r == one_arg_named(name@),
{
    if same_text(name, "list") {
        Some(OneArg::List)
    } else if same_text(name, "set") {
        Some(OneArg::SetOf)
    } else if same_text(name, "optional") {
        Some(OneArg::Optional)
    } else if same_text(name, "secret") {
        Some(OneArg::Secret)
    } else {
        None
    }
}

fn two_args(name: &str) -> (r: Option<TwoArgs>)
    ensures
        r == two_args_named(name@),
{
    if same_text(name, "map") {
        Some(TwoArgs::MapOf)
    } else if same_text(name, "result") {
        Some(TwoArgs::Result)
    } else {
        None
    }
}

fn wrap_one(w: OneArg, x: TypeId) -> (r: Type)
    ensures
        r == apply_one(w, x),
{
    match w {
        OneArg::List => Type::List(x),
        OneArg::SetOf => Type::SetOf(x),
        OneArg::Optional => Type::Optional(x),
        OneArg::Secret => Type::Secret(x),
    }
}

fn wrap_two(w: TwoArgs, x: TypeId, y: TypeId) -> (r: Type)
    ensures
        r == apply_two(w, x, y),
{
    match w {
        TwoArgs::MapOf => Type::MapOf(x, y),
        TwoArgs::Result => Type::Result(x, y),
    }
}

fn find_mono(monos: &Vec<Mono>, name: &String, args: &Vec<TypeId>) -> (r: Option<TypeId>)
    ensures
        r == mono_named(views(monos@), name@, args@, monos@.len()),
{
    let ghost vs = views(monos@);
    let mut n: usize = monos.len();
    while n > 0
        invariant
            n <= monos@.len(),
            vs == views(monos@),
            mono_named(vs, name@, args@, monos@.len()) == mono_named(vs, name@, args@, n as nat),
        decreases n,
    {
        assert(vs[n - 1] == monos@[n - 1]@);
        if monos[n - 1].name == *name && same_ids(&monos[n - 1].args, args) {
            return Some(monos[n - 1].ty);
        }
        n = n - 1;
    }
    None
}

proof fn known_mono(s: State, name: Seq<char>, args: Seq<TypeId>, n: nat)
    requires
        known(s),
    ensures
        has_maybe(s, mono_named(s.monos, name, args, n)),
        mono_named(s.monos, name, args, n) matches Some(id) ==> older(args, id),
    decreases n,
{
    reveal(known);
    if 0 < n <= s.monos.len() && !(s.monos[n - 1].name == name && s.monos[n - 1].args == args) {
        known_mono(s, name, args, (n - 1) as nat);
    }
}

/// Type parameters stand for stored types where their arguments are stored.
pub proof fn known_bindings(
    s: State,
    m: Map<Seq<char>, TypeId>,
    params: Seq<Ident>,
    args: Seq<TypeId>,
    i: nat,
)
    requires
        has_values(s, m),
        has_all(s, args),
    ensures
        has_values(s, bind_params(m, params, args, i)),
    decreases params.len() - i,
{
    if i < params.len() && i < args.len() {
        known_bindings(s, m.insert(params[i as int].name@, args[i as int]), params, args, i + 1);
    }
}

/// The type parameters, each with its argument.
pub fn bind_type_params(params: &Vec<Ident>, args: &Vec<TypeId>) -> (r: Table<String, TypeId>)
    ensures
        r@ == bind_params(Map::empty(), params@, args@, 0),
{
    let mut r: Table<String, TypeId> = Table::new();
    let mut i: usize = 0;
    while i < params.len() && i < args.len()
        invariant
            i <= params@.len(),
            i <= args@.len(),
            bind_params(r@, params@, args@, i as nat) == bind_params(
                Map::empty(),
                params@,
                args@,
                0,
            ),
        decreases params@.len() - i,
    {
        r.insert(params[i].name.clone(), args[i]);
        i = i + 1;
    }
    r
}

/// `name[args]`
pub fn apply_name(interner: &TypeInterner, name: &String, args: &Vec<TypeId>) -> (r: String)
    ensures
        r@ == applied_name(interner@, name@, args@),
{
    let mut r = join2(name.as_str(), "[");
    let ghost start = r@;
    assert(r@ + names_joined(interner@, args@, 0) =~= start + names_joined(interner@, args@, 0));
    let mut i: usize = 0;
    while i < args.len()
        invariant
            i <= args@.len(),
            r@ + names_joined(interner@, args@, i as nat) == start + names_joined(
                interner@,
                args@,
                0,
            ),
        decreases args@.len() - i,
    {
        let ghost before = r@;
        r.append(interner.name_of(args[i]).as_str());
        if i + 1 < args.len() {
            r.append(", ");
        }
        proof {
            let rest = names_joined(interner@, args@, (i + 1) as nat);
            assert(r@ + rest =~= before + names_joined(interner@, args@, i as nat));
        }
        i = i + 1;
    }
    assert(r@ + Seq::<char>::empty() =~= r@);
    r.append("]");
    r
}

impl<'a> TypeChecker<'a> {
    pub(crate) fn emit_unknown_type(&mut self, what: String, span: Span)
        ensures
            keeps(old(self)@, final(self)@),
            known(old(self)@) ==> known(final(self)@),
            final(self)@ == unknown_type(old(self)@, what@, span),
    {
        self.emit(Diagnostic::error(ErrorCode::UnknownType, span, args1(what)));
    }

    /// The type that a written type stands for.
    pub fn resolve_type_expr(&mut self, t: &TypeExpr) -> (r: TypeId)
        ensures
            keeps(old(self)@, final(self)@),
            known(old(self)@) ==> known(final(self)@) && has(final(self)@, r),
            (final(self)@, r) == resolve_type(old(self)@, *t),
    {
        self.resolve_within(t, Ghost(nesting()))
    }

    pub(crate) fn resolve_type_list(&mut self, ts: &Vec<TypeExpr>) -> (r: Vec<TypeId>)
        ensures
            keeps(old(self)@, final(self)@),
            known(old(self)@) ==> known(final(self)@) && has_all(final(self)@, r@),
            (final(self)@, r@) == resolve_types(old(self)@, ts@, 0, Seq::empty()),
    {
        let mut ids: Vec<TypeId> = Vec::new();
        let mut i: usize = 0;
        while i < ts.len()
            invariant
                keeps(old(self)@, self@),
                known(old(self)@) ==> known(self@) && has_all(self@, ids@),
                i <= ts@.len(),
                resolve_types(self@, ts@, i as nat, ids@) == resolve_types(
                    old(self)@,
                    ts@,
                    0,
                    Seq::empty(),
                ),
            decreases ts@.len() - i,
        {
            let id: usize = self.resolve_type_expr(&ts[i]);
            ids.push(id);
            i = i + 1;
        }
        ids
    }

    pub(crate) fn resolve_param_ids(&mut self, params: &Vec<Param>) -> (r: Vec<TypeId>)
        ensures
            keeps(old(self)@, final(self)@),
            known(old(self)@) ==> known(final(self)@) && has_all(final(self)@, r@),
            (final(self)@, r@) == resolve_param_ids(old(self)@, params@, 0, Seq::empty()),
    {
        let mut ids: Vec<TypeId> = Vec::new();
        let mut i: usize = 0;
        while i < params.len()
            invariant
                keeps(old(self)@, self@),
                known(old(self)@) ==> known(self@) && has_all(self@, ids@),
                i <= params@.len(),
                resolve_param_ids(self@, params@, i as nat, ids@) == resolve_param_ids(
                    old(self)@,
                    params@,
                    0,
                    Seq::empty(),
                ),
            decreases params@.len() - i,
        {
            let id: usize = self.resolve_type_expr(&params[i].ty);
            ids.push(id);
            i = i + 1;
        }
        ids
    }

    pub(crate) fn resolve_return_type(&mut self, t: &Option<TypeExpr>) -> (r: TypeId)
        ensures
            keeps(old(self)@, final(self)@),
            known(old(self)@) ==> known(final(self)@) && has(final(self)@, r),
            (final(self)@, r) == resolve_return(old(self)@, *t),
    {
        self.return_within(t, Ghost(nesting()))
    }

    pub(crate) fn resolve_field_types(&mut self, defs: &Vec<FieldDef>) -> (r: Vec<NamedType>)
        ensures
            keeps(old(self)@, final(self)@),
            known(old(self)@) ==> known(final(self)@) && has_fields(final(self)@, views(r@)),
            (final(self)@, views(r@)) == resolve_fields(old(self)@, *defs),
    {
        self.fields_within(defs, Ghost(nesting()))
    }

    pub(crate) fn resolve_param_types(&mut self, params: &Vec<Param>) -> (r: Vec<SigParam>)
        ensures
            keeps(old(self)@, final(self)@),
            known(old(self)@) ==> known(final(self)@),
            (final(self)@, views(r@)) == resolve_params(old(self)@, *params),
    {
        self.params_within(params, Ghost(nesting()))
    }

    pub(crate) fn method_signature(&mut self, f: &FunctionDef) -> (r: FunctionSig)
        ensures
            keeps(old(self)@, final(self)@),
            known(old(self)@) ==> known(final(self)@),
            (final(self)@, r@) == method_signature(old(self)@, *f),
    {
        self.method_within(f, Ghost(nesting()))
    }

    pub(crate) fn method_signatures(&mut self, fs: &Vec<FunctionDef>) -> (r: Vec<FunctionSig>)
        ensures
            keeps(old(self)@, final(self)@),
            known(old(self)@) ==> known(final(self)@),
            (final(self)@, views(r@)) == methods_at(
                old(self)@,
                *fs,
                0,
                Seq::empty(),
                nesting(),
            ),
    {
        self.methods_within(fs, Ghost(nesting()))
    }

    /// The type that a name stands for.
    pub fn resolve_named_type(&mut self, name: &String, span: Span) -> (r: TypeId)
        ensures
            keeps(old(self)@, final(self)@),
            known(old(self)@) ==> known(final(self)@) && has(final(self)@, r),
            (final(self)@, r) == named_at(old(self)@, name@, span, nesting()),
    {
        self.named_within(name, span, Ghost(nesting()))
    }

    /// The type that a generic name stands for with its arguments.
    pub fn resolve_generic_type(&mut self, name: &String, args: &Vec<TypeExpr>, span: Span) -> (r:
        TypeId)
        ensures
            keeps(old(self)@, final(self)@),
            known(old(self)@) ==> known(final(self)@) && has(final(self)@, r),
            (final(self)@, r) == generic_at(old(self)@, name@, *args, span, nesting()),
    {
        self.generic_within(name, args, span, Ghost(nesting()))
    }

    pub(crate) fn resolve_type_alias(&mut self, name: &String, span: Span) -> (r: TypeId)
        ensures
            keeps(old(self)@, final(self)@),
            known(old(self)@) ==> known(final(self)@) && has(final(self)@, r),
            (final(self)@, r) == alias_at(old(self)@, name@, span, nesting()),
    {
        self.alias_within(name, span, Ghost(nesting()))
    }

    /// The generic struct of that name with these arguments: it is named after the
    /// arguments and has the written fields with the arguments in them. The first call
    /// makes it. A later call gives the same type and changes nothing.
    pub fn monomorphize_struct(&mut self, name: &String, args: &Vec<TypeId>, span: Span) -> (r:
        TypeId)
        ensures
            made(old(self)@) && (made_earlier(old(self)@, name@, args@) is Some || can_be_made(
                old(self)@,
                name@,
                args@,
            )) ==> made(final(self)@) && is_instance(ground(final(self)@), r, name@, args@),
            made_earlier(old(self)@, name@, args@) is None && can_be_made(
                old(self)@,
                name@,
                args@,
            ) && has_all(old(self)@, args@) ==> is_named(final(self)@.types, r, name@, args@),
            made_earlier(old(self)@, name@, args@) is Some || can_be_made(old(self)@, name@, args@)
                ==> forall|later: Span| #[trigger]
                struct_at(final(self)@, name@, args@, later, nesting()) == (final(self)@, r),
            known(old(self)@) && has_all(old(self)@, args@) && (made_earlier(
                old(self)@,
                name@,
                args@,
            ) is Some || can_be_made(old(self)@, name@, args@)) ==> older(args@, r),
            final(self)@.subst == old(self)@.subst,
            keeps(old(self)@, final(self)@),
            known(old(self)@) && has_all(old(self)@, args@)
                ==> known(final(self)@) && has(final(self)@, r),
            (final(self)@, r) == struct_at(old(self)@, name@, args@, span, nesting()),
    {
        let r: usize = self.struct_within(name, args, span, Ghost(nesting()));
        proof {
            keeps_scopes(old(self)@, self@);
            if known(self@) {
                known_mono(self@, name@, args@, self@.monos.len());
            }
            if made(old(self)@) {
                keeps_made(old(self)@, self@);
                made_is_found(ground(self@), self@.monos, name@, args@, self@.monos.len());
            }
        }
        r
    }

    pub(crate) fn resolve_machine_state_type(&mut self, base: TypeId, state: &Ident) -> (r: TypeId)
        ensures
            keeps(old(self)@, final(self)@),
            known(old(self)@) && has(old(self)@, base)
                ==> known(final(self)@) && has(final(self)@, r),
            (final(self)@, r) == machine_state_type(old(self)@, base, *state),
    {
        let machine = match self.interner().resolve(base) {
            Type::Machine(m) => m,
            Type::MachineState { machine, state: _ } => machine,
            Type::Error => {
                return TypeInterner::ERROR;
            },
            _ => {
                let name = self.interner().name_of(base);
                self.emit_unknown_type(
                    join3(name.as_str(), " at ", state.name.as_str()),
                    state.span,
                );
                return TypeInterner::ERROR;
            },
        };
        let def = self.interner().resolve_machine(machine);
        match def.state_id(&state.name) {
            Some(id) => self.intern(Type::MachineState { machine, state: id }),
            None => {
                let what = join3(def.name.as_str(), " at ", state.name.as_str());
                self.emit_unknown_type(what, state.span);
                TypeInterner::ERROR
            },
        }
    }

    fn resolve_within(&mut self, t: &TypeExpr, Ghost(depth): Ghost<nat>) -> (r: TypeId)
        requires
            can_open(old(self)@, depth),
        ensures
            keeps(old(self)@, final(self)@),
            known(old(self)@) ==> known(final(self)@) && has(final(self)@, r),
            (final(self)@, r) == resolve_at(old(self)@, *t, depth),
        decreases 4 * depth + 1, t, 0nat,
    {
        match t {
            TypeExpr::Named(ident) => self.named_within(&ident.name, ident.span, Ghost(depth)),
            TypeExpr::Generic(name, args, _) => self.generic_within(
                &name.name,
                args,
                name.span,
                Ghost(depth),
            ),
            TypeExpr::View(inner, _) => self.resolve_within(inner, Ghost(depth)),
            TypeExpr::Function(params, ret, _) => {
                let ids = self.list_within(params, Ghost(depth));
                let r: usize = self.resolve_within(ret, Ghost(depth));
                self.intern_function(ids, r)
            },
            TypeExpr::StateQualified(base, state, _) => {
                let b: usize = self.resolve_within(base, Ghost(depth));
                self.resolve_machine_state_type(b, state)
            },
        }
    }

    fn list_within(&mut self, ts: &Vec<TypeExpr>, Ghost(depth): Ghost<nat>) -> (r: Vec<TypeId>)
        requires
            can_open(old(self)@, depth),
        ensures
            keeps(old(self)@, final(self)@),
            known(old(self)@) ==> known(final(self)@) && has_all(final(self)@, r@),
            (final(self)@, r@) == list_at(old(self)@, *ts, 0, Seq::empty(), depth),
        decreases 4 * depth + 1, ts, ts@.len() + 1,
    {
        let mut ids: Vec<TypeId> = Vec::new();
        let mut i: usize = 0;
        while i < ts.len()
            invariant
                can_open(self@, depth),
                keeps(old(self)@, self@),
                known(old(self)@) ==> known(self@) && has_all(self@, ids@),
                i <= ts@.len(),
                list_at(self@, *ts, i as nat, ids@, depth) == list_at(
                    old(self)@,
                    *ts,
                    0,
                    Seq::empty(),
                    depth,
                ),
            decreases ts@.len() - i,
        {
            let x: usize = self.resolve_within(&ts[i], Ghost(depth));
            ids.push(x);
            i = i + 1;
        }
        ids
    }

    fn named_within(&mut self, name: &String, span: Span, Ghost(depth): Ghost<nat>) -> (r: TypeId)
        requires
            can_open(old(self)@, depth),
        ensures
            keeps(old(self)@, final(self)@),
            known(old(self)@) ==> known(final(self)@) && has(final(self)@, r),
            (final(self)@, r) == named_at(old(self)@, name@, span, depth),
        decreases 4 * depth, span, 1nat,
    {
        if let Some(id) = self.get_subst(name) {
            return id;
        }
        let full = self.names().resolved_or_expanded_name(name, span);
        if let Some(t) = primitive_by_name(name.as_str()) {
            return id_of_primitive(t);
        }
        if let Some(id) = self.get_named_types(&full) {
            return id;
        }
        if self.get_aliases(&full).is_some() {
            return self.alias_within(&full, span, Ghost(depth));
        }
        if contains_text(&self.names().capabilities, name) {
            return TypeInterner::ERROR;
        }
        self.emit_unknown_type(name.clone(), span);
        TypeInterner::ERROR
    }

    fn is_resolving(&self, name: &String) -> (r: bool)
        ensures
            r == self@.resolving.contains(name@),
    {
        contains_text(self.all_resolving(), name)
    }

    fn alias_within(&mut self, name: &String, span: Span, Ghost(depth): Ghost<nat>) -> (r: TypeId)
        requires
            can_open(old(self)@, depth),
        ensures
            keeps(old(self)@, final(self)@),
            known(old(self)@) ==> known(final(self)@) && has(final(self)@, r),
            (final(self)@, r) == alias_at(old(self)@, name@, span, depth),
        decreases 4 * depth, span, 0nat,
    {
        if let Some(id) = self.get_named_types(name) {
            return id;
        }
        if self.is_resolving(name) {
            self.emit_unknown_type(name.clone(), span);
            return TypeInterner::ERROR;
        }
        match self.get_aliases(name) {
            None => TypeInterner::ERROR,
            Some(alias) => {
                self.push_resolving(name.clone());
                let ghost opened = self@;
                let base: usize = self.resolve_within(&alias.base_type, Ghost((depth - 1) as nat));
                let ghost inner = self@;
                self.pop_resolving();
                proof {
                    keeps_scopes(opened, inner);
                    assert(self@.resolving =~= old(self)@.resolving);
                    assert(opened.resolving.last() == name@);
                    keeps_unresolved(opened, inner, name@);
                    keeps_around(old(self)@, opened, inner, self@);
                }
                let id: usize = if alias.constraint.is_some() {
                    self.intern_refinement(name.clone(), base)
                } else {
                    base
                };
                self.put_named_types(name.clone(), id);
                if alias.name.span.file.is_stdlib() {
                    self.put_trusted_types(name.clone(), id);
                }
                id
            },
        }
    }

    fn generic_within(&mut self, name: &String, args: &Vec<TypeExpr>, span: Span, Ghost(depth): Ghost<nat>) -> (r:
        TypeId)
        requires
            can_open(old(self)@, depth),
        ensures
            keeps(old(self)@, final(self)@),
            known(old(self)@) ==> known(final(self)@) && has(final(self)@, r),
            (final(self)@, r) == generic_at(old(self)@, name@, *args, span, depth),
        decreases 4 * depth + 1, args, args@.len() + 2,
    {
        if let Some(w) = one_arg(name.as_str()) {
            if args.len() == 1 {
                let x: usize = self.resolve_within(&args[0], Ghost(depth));
                return self.intern(wrap_one(w, x));
            }
            self.emit_unknown_type(
                wrong_count_text(name.as_str(), "1 type argument", args.len()),
                span,
            );
            return TypeInterner::ERROR;
        }
        if let Some(w) = two_args(name.as_str()) {
            if args.len() == 2 {
                let x: usize = self.resolve_within(&args[0], Ghost(depth));
                let y: usize = self.resolve_within(&args[1], Ghost(depth));
                return self.intern(wrap_two(w, x, y));
            }
            self.emit_unknown_type(
                wrong_count_text(name.as_str(), "2 type arguments", args.len()),
                span,
            );
            return TypeInterner::ERROR;
        }
        let full = self.names().resolved_or_expanded_name(name, span);
        if self.get_generic_struct_templates(&full).is_some() {
            let ids = self.list_within(args, Ghost(depth));
            return self.struct_within(&full, &ids, span, Ghost(depth));
        }
        self.emit_unknown_type(name.clone(), span);
        TypeInterner::ERROR
    }

    fn struct_within(&mut self, name: &String, args: &Vec<TypeId>, span: Span, Ghost(depth): Ghost<nat>) -> (r:
        TypeId)
        requires
            can_open(old(self)@, depth),
        ensures
            keeps(old(self)@, final(self)@),
            known(old(self)@) && has_all(old(self)@, args@)
                ==> known(final(self)@) && has(final(self)@, r),
            (final(self)@, r) == struct_at(old(self)@, name@, args@, span, depth),
            made_earlier(old(self)@, name@, args@) is None && can_be_made(
                old(self)@,
                name@,
                args@,
            ) && has_all(old(self)@, args@) ==> is_named(final(self)@.types, r, name@, args@),
        decreases 4 * depth, span, 0nat,
    {
        if let Some(id) = find_mono(self.all_monos(), name, args) {
            proof {
                if known(self@) {
                    known_mono(self@, name@, args@, self@.monos.len());
                }
            }
            return id;
        }
        match self.get_generic_struct_templates(name) {
            None => TypeInterner::ERROR,
            Some(template) => {
                if template.type_params.len() != args.len() {
                    let expected = join2(
                        decimal_text(template.type_params.len()).as_str(),
                        " type argument(s)",
                    );
                    self.emit_unknown_type(
                        wrong_count_text(name.as_str(), expected.as_str(), args.len()),
                        span,
                    );
                    return TypeInterner::ERROR;
                }
                let subst = bind_type_params(&template.type_params, args);
                proof {
                    if has_all(self@, args@) {
                        known_bindings(self@, Map::empty(), template.type_params@, args@, 0);
                    }
                }
                let outer = self.swap_subst(subst);
                self.push_nested(name.clone());
                let ghost opened = self@;
                let fields = self.fields_within(&template.fields, Ghost((depth - 1) as nat));
                let ghost filled = self@;
                let methods = self.methods_within(&template.methods, Ghost((depth - 1) as nat));
                let ghost inner = self@;
                self.pop_nested();
                let _ = self.swap_subst(outer);
                proof {
                    keeps_scopes(opened, inner);
                    assert(self@.nested =~= old(self)@.nested);
                    keeps_around(old(self)@, opened, inner, self@);
                    keeps_ground(opened, filled);
                    keeps_ground(filled, inner);
                    filled_stays(
                        ground(filled),
                        ground(inner),
                        opened.subst,
                        template.fields@,
                        views(fields@),
                    );
                    assert(ground(self@) == ground(inner));
                }
                self.new_struct(name, args, template, fields, methods)
            },
        }
    }

    fn new_struct(
        &mut self,
        name: &String,
        args: &Vec<TypeId>,
        template: &StructDef,
        fields: Vec<NamedType>,
        methods: Vec<FunctionSig>,
    ) -> (r: TypeId)
        requires
            can_be_made(old(self)@, name@, args@),
            *template == old(self)@.generic_struct_templates[name@],
            fields@.len() == template.fields@.len(),
            filled_in(
                ground(old(self)@),
                bind_params(Map::empty(), template.type_params@, args@, 0),
                template.fields@,
                views(fields@),
            ),
        ensures
            keeps(old(self)@, final(self)@),
            known(old(self)@) && has_all(old(self)@, args@) && has_fields(old(self)@, views(fields@))
                ==> known(final(self)@) && has(final(self)@, r),
            (final(self)@, r) == new_struct(
                old(self)@,
                name@,
                args@,
                *template,
                views(fields@),
                views(methods@),
            ),
            has_all(old(self)@, args@) ==> is_named(final(self)@.types, r, name@, args@),
    {
        let interner = self.interner();
        let full = apply_name(interner, name, args);
        let infos = interner.reflection_fields_for_resolved_struct(
            self.all_monos(),
            &template.fields,
            &fields,
        );
        let ghost full_name = full@;
        let id: usize = self.add_struct_type(StructShape { name: full.clone(), fields, methods });
        proof {
            if has_all(old(self)@, args@) {
                lemma_joined_names_stay(old(self)@.types, self@.types, args@, 0);
            }
        }
        self.put_reflection_fields(id, FieldList { owner: full, fields: infos });
        let ghost stored = self@;
        self.push_monos(Mono { name: name.clone(), args: dup_ids(args), ty: id });
        proof {
            keeps_ground(old(self)@, stored);
            filled_stays(
                ground(old(self)@),
                ground(stored),
                bind_params(Map::empty(), template.type_params@, args@, 0),
                template.fields@,
                views(fields@),
            );
            assert(written_for(ground(stored), id, full_name, name@, args@));
            made_another(old(self)@, stored, MonoV { name: name@, args: args@, ty: id });
        }
        id
    }

    fn fields_within(&mut self, defs: &Vec<FieldDef>, Ghost(depth): Ghost<nat>) -> (r: Vec<NamedType>)
        requires
            can_open(old(self)@, depth),
        ensures
            keeps(old(self)@, final(self)@),
            known(old(self)@) ==> known(final(self)@) && has_fields(final(self)@, views(r@)),
            r@.len() == defs@.len(),
            filled_in(ground(final(self)@), old(self)@.subst, defs@, views(r@)),
            (final(self)@, views(r@)) == fields_at(
                old(self)@,
                *defs,
                0,
                Seq::empty(),
                depth,
            ),
        decreases 4 * depth + 2, defs, defs@.len() + 1,
    {
        let mut r: Vec<NamedType> = Vec::new();
        assert(views(r@) =~= Seq::empty());
        assert(filled_in(ground(self@), self@.subst, defs@, views(r@))) by {
            reveal(filled_in);
        }
        let mut i: usize = 0;
        while i < defs.len()
            invariant
                can_open(self@, depth),
                keeps(old(self)@, self@),
                known(old(self)@) ==> known(self@) && has_fields(self@, views(r@)),
                i <= defs@.len(),
                r@.len() == i,
                filled_in(ground(self@), old(self)@.subst, defs@, views(r@)),
                fields_at(self@, *defs, i as nat, views(r@), depth) == fields_at(
                    old(self)@,
                    *defs,
                    0,
                    Seq::empty(),
                    depth,
                ),
            decreases defs@.len() - i,
        {
            let ghost here = self@;
            let ty: usize = self.resolve_within(&defs[i].ty, Ghost(depth));
            let ghost before = views(r@);
            let entry = NamedType { name: defs[i].name.name.clone(), ty };
            let ghost shown = entry@;
            r.push(entry);
            assert(views(r@) =~= before.push(shown));
            assert(filled_in(ground(self@), old(self)@.subst, defs@, views(r@))) by {
                keeps_scopes(old(self)@, here);
                keeps_ground(here, self@);
                filled_stays(ground(here), ground(self@), old(self)@.subst, defs@, before);
                reveal(filled_in);
                assert(resolve_at(here, defs@[i as int].ty, depth).1 == ty);
                assert(stands_for(ground(self@), old(self)@.subst, defs@[i as int].ty, ty));
            }
            i = i + 1;
        }
        r
    }

    fn params_within(&mut self, params: &Vec<Param>, Ghost(depth): Ghost<nat>) -> (r: Vec<SigParam>)
        requires
            can_open(old(self)@, depth),
        ensures
            keeps(old(self)@, final(self)@),
            known(old(self)@) ==> known(final(self)@),
            (final(self)@, views(r@)) == params_at(
                old(self)@,
                *params,
                0,
                Seq::empty(),
                depth,
            ),
        decreases 4 * depth + 2, params, params@.len() + 1,
    {
        let mut r: Vec<SigParam> = Vec::new();
        assert(views(r@) =~= Seq::empty());
        let mut i: usize = 0;
        while i < params.len()
            invariant
                can_open(self@, depth),
                keeps(old(self)@, self@),
                known(old(self)@) ==> known(self@),
                i <= params@.len(),
                params_at(self@, *params, i as nat, views(r@), depth) == params_at(
                    old(self)@,
                    *params,
                    0,
                    Seq::empty(),
                    depth,
                ),
            decreases params@.len() - i,
        {
            let p = &params[i];
            let ty: usize = self.resolve_within(&p.ty, Ghost(depth));
            let ghost before = views(r@);
            let entry = SigParam { name: p.name.name.clone(), ty, view: p.view };
            let ghost shown = entry@;
            r.push(entry);
            assert(views(r@) =~= before.push(shown));
            i = i + 1;
        }
        r
    }

    fn return_within(&mut self, t: &Option<TypeExpr>, Ghost(depth): Ghost<nat>) -> (r: TypeId)
        requires
            can_open(old(self)@, depth),
        ensures
            keeps(old(self)@, final(self)@),
            known(old(self)@) ==> known(final(self)@) && has(final(self)@, r),
            (final(self)@, r) == return_at(old(self)@, *t, depth),
        decreases 4 * depth + 2, t, 0nat,
    {
        match t {
            Some(x) => self.resolve_within(x, Ghost(depth)),
            None => TypeInterner::NOTHING,
        }
    }

    fn method_within(&mut self, f: &FunctionDef, Ghost(depth): Ghost<nat>) -> (r: FunctionSig)
        requires
            can_open(old(self)@, depth),
        ensures
            keeps(old(self)@, final(self)@),
            known(old(self)@) ==> known(final(self)@),
            (final(self)@, r@) == method_at(old(self)@, *f, depth),
        decreases 4 * depth + 3, f, 0nat,
    {
        let params = self.params_within(&f.params, Ghost(depth));
        let return_type: usize = self.return_within(&f.return_type, Ghost(depth));
        FunctionSig {
            name: f.name.name.clone(),
            params,
            return_type,
            is_pure: self.names().params_are_pure(&f.params),
        }
    }

    fn methods_within(&mut self, fs: &Vec<FunctionDef>, Ghost(depth): Ghost<nat>) -> (r: Vec<FunctionSig>)
        requires
            can_open(old(self)@, depth),
        ensures
            keeps(old(self)@, final(self)@),
            known(old(self)@) ==> known(final(self)@),
            (final(self)@, views(r@)) == methods_at(
                old(self)@,
                *fs,
                0,
                Seq::empty(),
                depth,
            ),
        decreases 4 * depth + 3, fs, fs@.len() + 1,
    {
        let mut r: Vec<FunctionSig> = Vec::new();
        assert(views(r@) =~= Seq::empty());
        let mut i: usize = 0;
        while i < fs.len()
            invariant
                can_open(self@, depth),
                keeps(old(self)@, self@),
                known(old(self)@) ==> known(self@),
                i <= fs@.len(),
                methods_at(self@, *fs, i as nat, views(r@), depth) == methods_at(
                    old(self)@,
                    *fs,
                    0,
                    Seq::empty(),
                    depth,
                ),
            decreases fs@.len() - i,
        {
            let ghost before = views(r@);
            let sig = self.method_within(&fs[i], Ghost(depth));
            let ghost shown = sig@;
            r.push(sig);
            assert(views(r@) =~= before.push(shown));
            i = i + 1;
        }
        r
    }
}

} // verus!
