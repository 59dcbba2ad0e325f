//! The types that written types stand for.
use vstd::prelude::*;

use crate::ast::{FieldDef, FunctionDef, Ident, Param, StructDef, TypeExpr};
use crate::diagnostics::{error, ErrorCode};
use crate::names::pure_params;
use crate::reflect_types::{fields_info, primitive_id, primitive_named};
use crate::reflection::FieldListV;
use crate::resolution::full_name;
use crate::span::Span;
use crate::state::{intern_type, report, with_types, without_last, MonoV, State};
use crate::text::decimal;
use crate::type_names::name_of;
use crate::types::{
    intern_function, intern_refinement, state_named, ty, FunctionShapeV, FunctionSigV, MachineId,
    NamedTypeV, RefinementShapeV, SigParamV, StructId, StructShapeV, Type, TypeId, TypeInterner,
    Types,
};

verus! {

/// How many aliases and generic structs can be open at a time. They are kept in two
/// lists, and the length of a list fits in `usize`: there are never more, so a depth of
/// none is never met, and nothing is said of it.
pub open spec fn nesting() -> nat {
    2 * usize::MAX as nat
}

/// Whether `depth` more aliases and generic structs are all that can be opened.
pub open spec fn can_open(s: State, depth: nat) -> bool {
    depth + s.resolving.len() + s.nested.len() >= nesting()
}

/// The builtin types with one argument.
#[derive(Debug, Clone, Copy, PartialEq, Eq, Structural)]
pub enum OneArg {
    List,
    SetOf,
    Optional,
    Secret,
}

/// The builtin types with two arguments.
#[derive(Debug, Clone, Copy, PartialEq, Eq, Structural)]
pub enum TwoArgs {
    MapOf,
    Result,
}

pub open spec fn one_arg_named(name: Seq<char>) -> Option<OneArg> {
    if name == "list"@ {
        Some(OneArg::List)
    } else if name == "set"@ {
        Some(OneArg::SetOf)
    } else if name == "optional"@ {
        Some(OneArg::Optional)
    } else if name == "secret"@ {
        Some(OneArg::Secret)
    } else {
        None
    }
}

pub open spec fn two_args_named(name: Seq<char>) -> Option<TwoArgs> {
    if name == "map"@ {
        Some(TwoArgs::MapOf)
    } else if name == "result"@ {
        Some(TwoArgs::Result)
    } else {
        None
    }
}

pub open spec fn apply_one(w: OneArg, x: TypeId) -> Type {
    match w {
        OneArg::List => Type::List(x),
        OneArg::SetOf => Type::SetOf(x),
        OneArg::Optional => Type::Optional(x),
        OneArg::Secret => Type::Secret(x),
    }
}

pub open spec fn apply_two(w: TwoArgs, x: TypeId, y: TypeId) -> Type {
    match w {
        TwoArgs::MapOf => Type::MapOf(x, y),
        TwoArgs::Result => Type::Result(x, y),
    }
}

pub open spec fn unknown_type(s: State, what: Seq<char>, span: Span) -> State {
    report(s, error(ErrorCode::UnknownType, span, seq![what]))
}

/// `name (expected <expected>, got <got>)`
pub open spec fn wrong_count(name: Seq<char>, expected: Seq<char>, got: nat) -> Seq<char> {
    name + " (expected "@ + expected + ", got "@ + decimal(got) + ")"@
}

/// A state of a machine, named on a written type.
pub open spec fn machine_state_type(s: State, base: TypeId, state: Ident) -> (State, TypeId) {
    match ty(s.types, base) {
        Type::Machine(m) => machine_state_of(s, m.0, state),
        Type::MachineState { machine, state: _ } => machine_state_of(s, machine.0, state),
        Type::Error => (s, TypeInterner::ERROR),
        _ => (
            unknown_type(s, name_of(s.types, base) + " at "@ + state.name@, state.span),
            TypeInterner::ERROR,
        ),
    }
}

pub open spec fn machine_state_of(s: State, machine: usize, state: Ident) -> (State, TypeId) {
    let def = s.types.machines[machine as int];
    match state_named(def, state.name@) {
        Some(id) => intern_type(
            s,
            Type::MachineState { machine: MachineId(machine), state: id },
        ),
        None => (
            unknown_type(s, def.name + " at "@ + state.name@, state.span),
            TypeInterner::ERROR,
        ),
    }
}

/// The type that a written type stands for. `depth` bounds how far aliases and
/// generic structs are followed.
pub open spec fn resolve_at(s: State, t: TypeExpr, depth: nat) -> (State, TypeId)
    decreases 4 * depth + 1, t, 0nat,
{
    match t {
        TypeExpr::Named(ident) => named_at(s, ident.name@, ident.span, depth),
        TypeExpr::Generic(name, args, _) => generic_at(s, name.name@, args, name.span, depth),
        TypeExpr::View(inner, _) => resolve_at(s, *inner, depth),
        TypeExpr::Function(params, ret, _) => {
            let (s1, ids) = list_at(s, params, 0, Seq::empty(), depth);
            let (s2, r) = resolve_at(s1, *ret, depth);
            with_types(s2, intern_function(s2.types, FunctionShapeV { params: ids, return_type: r }))
        },
        TypeExpr::StateQualified(base, state, _) => {
            let (s1, b) = resolve_at(s, *base, depth);
            machine_state_type(s1, b, state)
        },
    }
}

pub open spec fn list_at(s: State, ts: Vec<TypeExpr>, i: nat, found: Seq<TypeId>, depth: nat) -> (
    State,
    Seq<TypeId>,
)
    decreases 4 * depth + 1, ts, ts@.len() - i,
{
    if i >= ts@.len() {
        (s, found)
    } else {
        let (s1, x) = resolve_at(s, ts@[i as int], depth);
        list_at(s1, ts, i + 1, found.push(x), depth)
    }
}

/// A type parameter in scope goes first, then the primitive types, then what
/// the module declares, then the capability types, which stand for no type.
pub open spec fn named_at(s: State, name: Seq<char>, span: Span, depth: nat) -> (State, TypeId)
    decreases 4 * depth, span, 1nat,
{
    let full = full_name(s.names, name, span);
    if s.subst.contains_key(name) {
        (s, s.subst[name])
    } else if primitive_named(name) is Some {
        (s, primitive_id(primitive_named(name)->0))
    } else if s.named_types.contains_key(full) {
        (s, s.named_types[full])
    } else if s.aliases.contains_key(full) {
        alias_at(s, full, span, depth)
    } else if s.names.capabilities.contains(name) {
        (s, TypeInterner::ERROR)
    } else {
        (unknown_type(s, name, span), TypeInterner::ERROR)
    }
}

/// An alias is another name for its base, or with a constraint a refinement
/// of it. One that goes back to itself is unknown.
pub open spec fn alias_at(s: State, name: Seq<char>, span: Span, depth: nat) -> (State, TypeId)
    decreases 4 * depth, span, 0nat,
{
    if s.named_types.contains_key(name) {
        (s, s.named_types[name])
    } else if s.resolving.contains(name) {
        (unknown_type(s, name, span), TypeInterner::ERROR)
    } else if !s.aliases.contains_key(name) {
        (s, TypeInterner::ERROR)
    } else if depth == 0 {
        arbitrary()
    } else {
        let alias = s.aliases[name];
        let (s1, base) = resolve_at(
            State { resolving: s.resolving.push(name), ..s },
            alias.base_type,
            (depth - 1) as nat,
        );
        let (s2, id) = if alias.constraint is Some {
            with_types(s1, intern_refinement(s1.types, RefinementShapeV { name, base }))
        } else {
            (s1, base)
        };
        let s3 = State {
            named_types: s2.named_types.insert(name, id),
            trusted_types: if alias.name.span.file.stdlib() {
                s2.trusted_types.insert(name, id)
            } else {
                s2.trusted_types
            },
            resolving: without_last(s2.resolving),
            ..s2
        };
        (s3, id)
    }
}

pub open spec fn generic_at(
    s: State,
    name: Seq<char>,
    args: Vec<TypeExpr>,
    span: Span,
    depth: nat,
) -> (State, TypeId)
    decreases 4 * depth + 1, args, args@.len() + 1,
{
    match one_arg_named(name) {
        Some(w) => if args@.len() == 1 {
            let (s1, x) = resolve_at(s, args@[0], depth);
            intern_type(s1, apply_one(w, x))
        } else {
            (
                unknown_type(s, wrong_count(name, "1 type argument"@, args@.len()), span),
                TypeInterner::ERROR,
            )
        },
        None => match two_args_named(name) {
            Some(w) => if args@.len() == 2 {
                let (s1, x) = resolve_at(s, args@[0], depth);
                let (s2, y) = resolve_at(s1, args@[1], depth);
                intern_type(s2, apply_two(w, x, y))
            } else {
                (
                    unknown_type(s, wrong_count(name, "2 type arguments"@, args@.len()), span),
                    TypeInterner::ERROR,
                )
            },
            None => {
                let full = full_name(s.names, name, span);
                if s.generic_struct_templates.contains_key(full) {
                    let (s1, ids) = list_at(s, args, 0, Seq::empty(), depth);
                    struct_at(s1, full, ids, span, depth)
                } else {
                    (unknown_type(s, name, span), TypeInterner::ERROR)
                }
            },
        },
    }
}

/// The type that a generic struct became with these arguments, the last time among
/// the first `n`.
pub open spec fn mono_named(monos: Seq<MonoV>, name: Seq<char>, args: Seq<TypeId>, n: nat) -> Option<
    TypeId,
>
    decreases n,
{
    if n == 0 || n > monos.len() {
        None
    } else if monos[n - 1].name == name && monos[n - 1].args == args {
        Some(monos[n - 1].ty)
    } else {
        mono_named(monos, name, args, (n - 1) as nat)
    }
}

/// The type that a generic struct became earlier with these arguments.
pub open spec fn made_earlier(s: State, name: Seq<char>, args: Seq<TypeId>) -> Option<TypeId> {
    mono_named(s.monos, name, args, s.monos.len())
}

/// Whether there is a generic struct of that name with as many parameters.
pub open spec fn can_be_made(s: State, name: Seq<char>, args: Seq<TypeId>) -> bool {
    s.generic_struct_templates.contains_key(name)
        && s.generic_struct_templates[name].type_params@.len() == args.len()
}

/// The type parameters from `i` on, each with its argument.
pub open spec fn bind_params(
    m: Map<Seq<char>, TypeId>,
    params: Seq<Ident>,
    args: Seq<TypeId>,
    i: nat,
) -> Map<Seq<char>, TypeId>
    decreases params.len() - i,
{
    if i >= params.len() || i >= args.len() {
        m
    } else {
        bind_params(m.insert(params[i as int].name@, args[i as int]), params, args, i + 1)
    }
}

/// The written forms of types from `i` on, with commas between.
pub open spec fn names_joined(ts: Types, ids: Seq<TypeId>, i: nat) -> Seq<char>
    decreases ids.len() - i,
{
    if i >= ids.len() {
        Seq::empty()
    } else if i + 1 == ids.len() {
        name_of(ts, ids[i as int])
    } else {
        name_of(ts, ids[i as int]) + ", "@ + names_joined(ts, ids, i + 1)
    }
}

/// `name[args]`
pub open spec fn applied_name(ts: Types, name: Seq<char>, args: Seq<TypeId>) -> Seq<char> {
    name + "["@ + names_joined(ts, args, 0) + "]"@
}

/// A generic struct with its arguments: the same type each time.
pub open spec fn struct_at(s: State, name: Seq<char>, args: Seq<TypeId>, span: Span, depth: nat) -> (
    State,
    TypeId,
)
    decreases 4 * depth, span, 0nat,
{
    match made_earlier(s, name, args) {
        Some(id) => (s, id),
        None => if !s.generic_struct_templates.contains_key(name) {
            (s, TypeInterner::ERROR)
        } else {
            let template = s.generic_struct_templates[name];
            if template.type_params@.len() != args.len() {
                (
                    unknown_type(
                        s,
                        wrong_count(
                            name,
                            decimal(template.type_params@.len()) + " type argument(s)"@,
                            args.len(),
                        ),
                        span,
                    ),
                    TypeInterner::ERROR,
                )
            } else if depth == 0 {
                arbitrary()
            } else {
                let inside = State {
                    subst: bind_params(Map::empty(), template.type_params@, args, 0),
                    nested: s.nested.push(name),
                    ..s
                };
                let (s1, fields) = fields_at(
                    inside,
                    template.fields,
                    0,
                    Seq::empty(),
                    (depth - 1) as nat,
                );
                let (s2, methods) = methods_at(
                    s1,
                    template.methods,
                    0,
                    Seq::empty(),
                    (depth - 1) as nat,
                );
                let s3 = State { subst: s.subst, nested: s.nested, ..s2 };
                new_struct(s3, name, args, template, fields, methods)
            }
        },
    }
}

pub open spec fn new_struct(
    s: State,
    name: Seq<char>,
    args: Seq<TypeId>,
    template: StructDef,
    fields: Seq<NamedTypeV>,
    methods: Seq<FunctionSigV>,
) -> (State, TypeId) {
    let full = applied_name(s.types, name, args);
    let infos = fields_info(s.types, s.monos, template.fields@, fields);
    let sid = StructId(s.types.structs.len() as usize);
    let s1 = State {
        types: Types {
            structs: s.types.structs.push(StructShapeV { name: full, fields, methods }),
            ..s.types
        },
        ..s
    };
    let (s2, id) = intern_type(s1, Type::Struct(sid));
    (
        State {
            reflection_fields: s2.reflection_fields.insert(
                id,
                FieldListV { owner: full, fields: infos },
            ),
            monos: s2.monos.push(MonoV { name, args, ty: id }),
            ..s2
        },
        id,
    )
}

pub open spec fn fields_at(
    s: State,
    defs: Vec<FieldDef>,
    i: nat,
    found: Seq<NamedTypeV>,
    depth: nat,
) -> (State, Seq<NamedTypeV>)
    decreases 4 * depth + 2, defs, defs@.len() - i,
{
    if i >= defs@.len() {
        (s, found)
    } else {
        let (s1, x) = resolve_at(s, defs@[i as int].ty, depth);
        fields_at(
            s1,
            defs,
            i + 1,
            found.push(NamedTypeV { name: defs@[i as int].name.name@, ty: x }),
            depth,
        )
    }
}

pub open spec fn params_at(
    s: State,
    params: Vec<Param>,
    i: nat,
    found: Seq<SigParamV>,
    depth: nat,
) -> (State, Seq<SigParamV>)
    decreases 4 * depth + 2, params, params@.len() - i,
{
    if i >= params@.len() {
        (s, found)
    } else {
        let p = params@[i as int];
        let (s1, x) = resolve_at(s, p.ty, depth);
        params_at(
            s1,
            params,
            i + 1,
            found.push(SigParamV { name: p.name.name@, ty: x, view: p.view }),
            depth,
        )
    }
}

/// A result type that is not written is `nothing`.
pub open spec fn return_at(s: State, t: Option<TypeExpr>, depth: nat) -> (State, TypeId)
    decreases 4 * depth + 2, t, 0nat,
{
    match t {
        Some(x) => resolve_at(s, x, depth),
        None => (s, TypeInterner::NOTHING),
    }
}

pub open spec fn method_at(s: State, f: FunctionDef, depth: nat) -> (State, FunctionSigV)
    decreases 4 * depth + 3, f, 0nat,
{
    let (s1, params) = params_at(s, f.params, 0, Seq::empty(), depth);
    let (s2, ret) = return_at(s1, f.return_type, depth);
    (
        s2,
        FunctionSigV {
            name: f.name.name@,
            params,
            return_type: ret,
            is_pure: pure_params(s2.names, f.params@),
        },
    )
}

pub open spec fn methods_at(
    s: State,
    fs: Vec<FunctionDef>,
    i: nat,
    found: Seq<FunctionSigV>,
    depth: nat,
) -> (State, Seq<FunctionSigV>)
    decreases 4 * depth + 3, fs, fs@.len() - i,
{
    if i >= fs@.len() {
        (s, found)
    } else {
        let (s1, m) = method_at(s, fs@[i as int], depth);
        methods_at(s1, fs, i + 1, found.push(m), depth)
    }
}

/// The type that a written type stands for.
pub open spec fn resolve_type(s: State, t: TypeExpr) -> (State, TypeId) {
    resolve_at(s, t, nesting())
}

/// The types that written types stand for, from `i` on.
pub open spec fn resolve_types(s: State, ts: Seq<TypeExpr>, i: nat, found: Seq<TypeId>) -> (
    State,
    Seq<TypeId>,
)
    decreases ts.len() - i,
{
    if i >= ts.len() {
        (s, found)
    } else {
        let (s1, id) = resolve_type(s, ts[i as int]);
        resolve_types(s1, ts, i + 1, found.push(id))
    }
}

/// The types of parameters from `i` on.
pub open spec fn resolve_param_ids(s: State, params: Seq<Param>, i: nat, found: Seq<TypeId>) -> (
    State,
    Seq<TypeId>,
)
    decreases params.len() - i,
{
    if i >= params.len() {
        (s, found)
    } else {
        let (s1, id) = resolve_type(s, params[i as int].ty);
        resolve_param_ids(s1, params, i + 1, found.push(id))
    }
}

pub open spec fn resolve_return(s: State, t: Option<TypeExpr>) -> (State, TypeId) {
    return_at(s, t, nesting())
}

pub open spec fn resolve_fields(s: State, defs: Vec<FieldDef>) -> (State, Seq<NamedTypeV>) {
    fields_at(s, defs, 0, Seq::empty(), nesting())
}

pub open spec fn resolve_params(s: State, params: Vec<Param>) -> (State, Seq<SigParamV>) {
    params_at(s, params, 0, Seq::empty(), nesting())
}

pub open spec fn method_signature(s: State, f: FunctionDef) -> (State, FunctionSigV) {
    method_at(s, f, nesting())
}

} // verus!
