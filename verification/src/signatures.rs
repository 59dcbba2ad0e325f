//! Signatures of functions and methods, and whether two of them agree.
use vstd::prelude::*;

use crate::ast::{
    FunctionDecl, FunctionDef, Ident, ImplementBlock, InterfaceDecl, Item, MutualBlock, Param,
    StructDef, TypeExpr,
};
use crate::check_rules::{declare, report1, report2, report3};
use crate::diagnostics::ErrorCode;
use crate::names::{canonical, canonical_name, next_place, pure_params, start_place, Place, PlaceV};
use crate::state::{with_types, State, TypeChecker};
use crate::steady::{has_shape, known, stays};
use crate::table::{look, views, Dup, Table};
use crate::text::{join3, maybe_text, same_text};
use crate::type_names::name_of;
use crate::type_rules::compatible;
use crate::types::{
    intern_function, ty, FunctionShape, FunctionShapeV, FunctionSig, FunctionSigV, InterfaceShape,
    InterfaceShapeV, SigParam, SigParamV, Type, TypeId, TypeInterner,
};
use crate::written_types::{
    methods_at, named_at, nesting, resolve_param_ids, resolve_return, resolve_type,
};

verus! {

broadcast use {crate::steady::group_staying, crate::steady::group_steady};

// ---------------------------------------------------------------------------
// Functions
// ---------------------------------------------------------------------------

/// The parameter types and the result type of a function header.
pub open spec fn header_types(s: State, params: Seq<Param>, ret: Option<TypeExpr>) -> (State, FunctionShapeV) {
    let (s1, ids) = resolve_param_ids(s, params, 0, Seq::empty());
    let (s2, return_type) = resolve_return(s1, ret);
    (s2, FunctionShapeV { params: ids, return_type })
}

/// Gives the name of a function its type.
pub open spec fn register_header(s: State, name: Ident, params: Seq<Param>, ret: Option<TypeExpr>) -> State {
    let (s1, shape) = header_types(s, params, ret);
    let (s2, id) = with_types(s1, intern_function(s1.types, shape));
    declare(s2, name.span, id)
}

/// Makes the signature of a function known by its full name, and as trusted
/// where the function is declared in a file shipped with the compiler.
pub open spec fn register_signature(
    s: State,
    full: Seq<char>,
    name: Ident,
    params: Seq<Param>,
    ret: Option<TypeExpr>,
    trusted: bool,
) -> State {
    let s1 = register_header(s, name, params, ret);
    let (s2, shape) = header_types(s1, params, ret);
    State {
        signatures: s2.signatures.insert(full, shape),
        trusted_signatures: if trusted {
            s2.trusted_signatures.insert(full, shape)
        } else {
            s2.trusted_signatures
        },
        ..s2
    }
}

pub open spec fn note_purity(s: State, name: Seq<char>, pure: bool) -> State {
    State { purity_map: s.purity_map.insert(name, pure), ..s }
}

/// A generic function is kept as a template; another one gets its signature.
pub open spec fn register_function(s: State, f: FunctionDef, namespace: Option<Seq<char>>) -> State {
    let full = canonical(namespace, f.name.name@);
    let s1 = if f.type_params@.len() == 0 {
        register_signature(s, full, f.name, f.params@, f.return_type, f.span.file.stdlib())
    } else {
        State { function_templates: s.function_templates.insert(full, f), ..s }
    };
    note_purity(s1, full, pure_params(s1.names, f.params@))
}

pub open spec fn register_decl(s: State, f: FunctionDecl, namespace: Option<Seq<char>>) -> State {
    let full = canonical(namespace, f.name.name@);
    let s1 = note_purity(s, full, pure_params(s.names, f.params@));
    if f.type_params@.len() == 0 {
        register_signature(s1, full, f.name, f.params@, f.return_type, f.span.file.stdlib())
    } else {
        s1
    }
}

pub open spec fn register_mutual(s: State, fs: Seq<FunctionDecl>, namespace: Option<Seq<char>>, i: nat) -> State
    decreases fs.len() - i,
{
    if i >= fs.len() {
        s
    } else {
        register_mutual(register_decl(s, fs[i as int], namespace), fs, namespace, i + 1)
    }
}

/// Notes the purity of the methods of an interface from `i` on.
pub open spec fn interface_purity(s: State, owner: Seq<char>, fs: Seq<FunctionDecl>, i: nat) -> State
    decreases fs.len() - i,
{
    if i >= fs.len() {
        s
    } else {
        let f = fs[i as int];
        let s1 = note_purity(s, owner + "."@ + f.name.name@, pure_params(s.names, f.params@));
        interface_purity(s1, owner, fs, i + 1)
    }
}

/// Notes the purity of the methods of a struct from `i` on.
pub open spec fn struct_purity(s: State, owner: Seq<char>, fs: Seq<FunctionDef>, i: nat) -> State
    decreases fs.len() - i,
{
    if i >= fs.len() {
        s
    } else {
        let f = fs[i as int];
        let s1 = note_purity(s, owner + "."@ + f.name.name@, pure_params(s.names, f.params@));
        struct_purity(s1, owner, fs, i + 1)
    }
}

// ---------------------------------------------------------------------------
// Implementations
// ---------------------------------------------------------------------------

/// Adds signatures from `i` on under their names.
pub open spec fn add_methods(m: Map<Seq<char>, FunctionSigV>, sigs: Seq<FunctionSigV>, i: nat) -> Map<
    Seq<char>,
    FunctionSigV,
>
    decreases sigs.len() - i,
{
    if i >= sigs.len() {
        m
    } else {
        add_methods(m.insert(sigs[i as int].name, sigs[i as int]), sigs, i + 1)
    }
}

/// Notes the purity of methods from `i` on under both names of their owner.
pub open spec fn implement_purity(
    m: Map<Seq<char>, bool>,
    owner: Seq<char>,
    interface: Seq<char>,
    sigs: Seq<FunctionSigV>,
    i: nat,
) -> Map<Seq<char>, bool>
    decreases sigs.len() - i,
{
    if i >= sigs.len() {
        m
    } else {
        let sig = sigs[i as int];
        implement_purity(
            m.insert(owner + "."@ + sig.name, sig.is_pure).insert(
                interface + "."@ + sig.name,
                sig.is_pure,
            ),
            owner,
            interface,
            sigs,
            i + 1,
        )
    }
}

pub open spec fn methods_or_none(m: Option<Map<Seq<char>, FunctionSigV>>) -> Map<Seq<char>, FunctionSigV> {
    match m {
        Some(x) => x,
        None => Map::empty(),
    }
}

/// The types that an implementation speaks of: the interface, and who has it.
pub open spec fn implement_types(s: State, block: ImplementBlock) -> (State, TypeId, TypeId) {
    let (s1, interface) = named_at(
        s,
        block.interface_name.name@,
        block.interface_name.span,
        nesting(),
    );
    let (s2, owner) = resolve_type(s1, block.for_type);
    (s2, interface, owner)
}

pub open spec fn register_implement(s: State, block: ImplementBlock) -> State {
    let (s1, interface, owner) = implement_types(s, block);
    if interface == TypeInterner::ERROR || owner == TypeInterner::ERROR {
        s1
    } else {
        let owner_name = name_of(s1.types, owner);
        let interface_name = name_of(s1.types, interface);
        let (s2, sigs) = methods_at(s1, block.methods, 0, Seq::empty(), nesting());
        State {
            impl_methods: s2.impl_methods.insert(
                owner,
                add_methods(methods_or_none(look(s2.impl_methods, owner)), sigs, 0),
            ),
            impls: s2.impls.insert(
                (interface, owner),
                add_methods(methods_or_none(look(s2.impls, (interface, owner))), sigs, 0),
            ),
            purity_map: implement_purity(s2.purity_map, owner_name, interface_name, sigs, 0),
            ..s2
        }
    }
}

pub open spec fn same_types(s: State, a: TypeId, b: TypeId) -> bool {
    compatible(s.types, s.impls, a, b) && compatible(s.types, s.impls, b, a)
}

/// Whether a parameter of an implementation is what the interface asks for. Its
/// first one, where the interface names an interface, is the owner.
pub open spec fn param_implements(s: State, owner: TypeId, given: SigParamV, asked: SigParamV, first: bool) -> bool {
    let expected = if first && ty(s.types, asked.ty) is Interface {
        owner
    } else {
        asked.ty
    };
    given.name == asked.name && given.view == asked.view && same_types(s, expected, given.ty)
}

/// Whether an implementation is what the interface asks for.
pub open spec fn implements(s: State, owner: TypeId, given: FunctionSigV, asked: FunctionSigV) -> bool {
    given.params.len() == asked.params.len() && (forall|i: int|
        0 <= i < given.params.len() ==> param_implements(
            s,
            owner,
            #[trigger] given.params[i],
            asked.params[i],
            i == 0,
        )) && same_types(s, asked.return_type, given.return_type)
}

/// Whether a method before `n` has the name.
pub open spec fn method_before(methods: Seq<FunctionDef>, name: Seq<char>, n: int) -> bool {
    exists|j: int| 0 <= j < n && (#[trigger] methods[j]).name.name@ == name
}

/// The first method of the name from `i` on.
pub open spec fn sig_named(sigs: Seq<FunctionSigV>, name: Seq<char>, i: nat) -> Option<FunctionSigV>
    decreases sigs.len() - i,
{
    if i >= sigs.len() {
        None
    } else if sigs[i as int].name == name {
        Some(sigs[i as int])
    } else {
        sig_named(sigs, name, i + 1)
    }
}

/// What is wrong with an implemented method.
pub open spec fn validate_method(
    s: State,
    interface: InterfaceShapeV,
    impls: Map<Seq<char>, FunctionSigV>,
    owner: TypeId,
    methods: Seq<FunctionDef>,
    i: nat,
) -> State {
    let name = methods[i as int].name;
    if method_before(methods, name.name@, i as int) {
        report2(
            s,
            ErrorCode::DuplicateImplementedMethod,
            name.span,
            name_of(s.types, owner),
            name.name@,
        )
    } else {
        match sig_named(interface.methods, name.name@, 0) {
            None => report2(
                s,
                ErrorCode::InterfaceHasNoMember,
                name.span,
                interface.name,
                name.name@,
            ),
            Some(asked) => if impls.contains_key(name.name@) && implements(
                s,
                owner,
                impls[name.name@],
                asked,
            ) {
                s
            } else {
                report3(
                    s,
                    ErrorCode::ImplementedMethodSignatureMismatch,
                    name.span,
                    interface.name,
                    name_of(s.types, owner),
                    name.name@,
                )
            },
        }
    }
}

pub open spec fn validate_methods(
    s: State,
    interface: InterfaceShapeV,
    impls: Map<Seq<char>, FunctionSigV>,
    owner: TypeId,
    methods: Seq<FunctionDef>,
    i: nat,
) -> State
    decreases methods.len() - i,
{
    if i >= methods.len() {
        s
    } else {
        validate_methods(
            validate_method(s, interface, impls, owner, methods, i),
            interface,
            impls,
            owner,
            methods,
            i + 1,
        )
    }
}

/// Reports the methods of the interface from `i` on that have no implementation.
pub open spec fn missing_methods(
    s: State,
    interface: InterfaceShapeV,
    owner: TypeId,
    block: ImplementBlock,
    i: nat,
) -> State
    decreases interface.methods.len() - i,
{
    if i >= interface.methods.len() {
        s
    } else {
        let name = interface.methods[i as int].name;
        let s1 = if method_before(block.methods@, name, block.methods@.len() as int) {
            s
        } else {
            report3(
                s,
                ErrorCode::MissingImplementedMethod,
                block.span,
                interface.name,
                name_of(s.types, owner),
                name,
            )
        };
        missing_methods(s1, interface, owner, block, i + 1)
    }
}

pub open spec fn validate_implement(s: State, block: ImplementBlock) -> State {
    let (s1, id, owner) = implement_types(s, block);
    if id == TypeInterner::ERROR || owner == TypeInterner::ERROR {
        s1
    } else {
        match ty(s1.types, id) {
            Type::Interface(iid) => if s1.impls.contains_key((id, owner)) {
                let interface = s1.types.interfaces[iid.0 as int];
                let s2 = validate_methods(
                    s1,
                    interface,
                    s1.impls[(id, owner)],
                    owner,
                    block.methods@,
                    0,
                );
                missing_methods(s2, interface, owner, block, 0)
            } else {
                s1
            },
            _ => report1(
                s1,
                ErrorCode::ExpectedInterface,
                block.interface_name.span,
                block.interface_name.name@,
            ),
        }
    }
}

pub open spec fn validate_implements(s: State, items: Seq<Item>, i: nat) -> State
    decreases items.len() - i,
{
    if i >= items.len() {
        s
    } else {
        let s1 = match items[i as int] {
            Item::Implement(block) => validate_implement(s, block),
            _ => s,
        };
        validate_implements(s1, items, i + 1)
    }
}

// ---------------------------------------------------------------------------
// Mutual blocks
// ---------------------------------------------------------------------------

/// The functions of a module from `i` on by their full names. Of two with the
/// same name the later one counts.
pub open spec fn functions_from(
    items: Seq<Item>,
    place: PlaceV,
    i: nat,
    found: Map<Seq<char>, FunctionDef>,
) -> Map<Seq<char>, FunctionDef>
    decreases items.len() - i,
{
    if i >= items.len() {
        found
    } else {
        let here = next_place(place, items[i as int]);
        let more = match items[i as int] {
            Item::Function(f) => found.insert(canonical(here.namespace, f.name.name@), f),
            _ => found,
        };
        functions_from(items, here, i + 1, more)
    }
}

/// Whether the names and modifiers of two parameters agree.
pub open spec fn same_param(a: Param, b: Param) -> bool {
    a.name.name@ == b.name.name@ && a.view == b.view && a.mutable == b.mutable
}

/// Whether parameters from `i` on agree; types are looked at up to the first that
/// does not.
pub open spec fn params_agree(s: State, f: Seq<Param>, decl: Seq<Param>, i: nat) -> (State, bool)
    decreases f.len() - i,
{
    if i >= f.len() || i >= decl.len() {
        (s, true)
    } else if !same_param(f[i as int], decl[i as int]) {
        (s, false)
    } else {
        let (s1, a) = resolve_type(s, f[i as int].ty);
        let (s2, b) = resolve_type(s1, decl[i as int].ty);
        if same_types(s2, b, a) {
            params_agree(s2, f, decl, i + 1)
        } else {
            (s2, false)
        }
    }
}

/// Whether a written type is that of the declaration, with the declaration's type
/// parameters renamed.
pub open spec fn written_alike(f: TypeExpr, decl: TypeExpr, renamed: Map<Seq<char>, Seq<char>>) -> bool
    decreases f, 0nat,
{
    match (f, decl) {
        (TypeExpr::Named(a), TypeExpr::Named(b)) => a.name@ == match look(renamed, b.name@) {
            Some(n) => n,
            None => b.name@,
        },
        (TypeExpr::Generic(a, a_args, _), TypeExpr::Generic(b, b_args, _)) => a.name@ == b.name@
            && all_written_alike(a_args, b_args, renamed),
        (TypeExpr::View(a, _), TypeExpr::View(b, _)) => written_alike(*a, *b, renamed),
        (TypeExpr::StateQualified(a, a_state, _), TypeExpr::StateQualified(b, b_state, _)) =>
            a_state.name@ == b_state.name@ && written_alike(*a, *b, renamed),
        (TypeExpr::Function(a, a_ret, _), TypeExpr::Function(b, b_ret, _)) => all_written_alike(
            a,
            b,
            renamed,
        ) && written_alike(*a_ret, *b_ret, renamed),
        _ => false,
    }
}

pub open spec fn all_written_alike(
    f: Vec<TypeExpr>,
    decl: Vec<TypeExpr>,
    renamed: Map<Seq<char>, Seq<char>>,
) -> bool
    decreases f, 0nat,
{
    f@.len() == decl@.len() && forall|i: int|
        0 <= i < f@.len() ==> written_alike(#[trigger] f@[i], decl@[i], renamed)
}

pub open spec fn written_nothing(t: TypeExpr) -> bool {
    t matches TypeExpr::Named(ident) && ident.name@ == "nothing"@
}

pub open spec fn returns_alike(f: Option<TypeExpr>, decl: Option<TypeExpr>, renamed: Map<Seq<char>, Seq<char>>) -> bool {
    match (f, decl) {
        (None, None) => true,
        (Some(a), Some(b)) => written_alike(a, b, renamed),
        (None, Some(b)) => written_nothing(b),
        (Some(a), None) => written_nothing(a),
    }
}

/// The names of a declaration's type parameters from `i` on in the function.
pub open spec fn renamed_from(decl: Seq<Ident>, f: Seq<Ident>, i: nat, m: Map<Seq<char>, Seq<char>>) -> Map<
    Seq<char>,
    Seq<char>,
>
    decreases decl.len() - i,
{
    if i >= decl.len() || i >= f.len() {
        m
    } else {
        renamed_from(decl, f, i + 1, m.insert(decl[i as int].name@, f[i as int].name@))
    }
}

/// Whether a generic function is written like its declaration.
pub open spec fn generic_agrees(f: FunctionDef, decl: FunctionDecl) -> bool {
    let renamed = renamed_from(decl.type_params@, f.type_params@, 0, Map::empty());
    f.type_params@.len() == decl.type_params@.len() && f.params@.len() == decl.params@.len() && (
    forall|i: int|
        0 <= i < f.params@.len() ==> same_param(#[trigger] f.params@[i], decl.params@[i])
            && written_alike(f.params@[i].ty, decl.params@[i].ty, renamed)) && returns_alike(
        f.return_type,
        decl.return_type,
        renamed,
    )
}

/// Whether a function is what was declared.
pub open spec fn function_agrees(s: State, f: FunctionDef, decl: FunctionDecl) -> (State, bool) {
    if f.type_params@.len() > 0 || decl.type_params@.len() > 0 {
        (s, generic_agrees(f, decl))
    } else if f.params@.len() != decl.params@.len() {
        (s, false)
    } else {
        let (s1, agree) = params_agree(s, f.params@, decl.params@, 0);
        if !agree {
            (s1, false)
        } else {
            let (s2, a) = resolve_return(s1, f.return_type);
            let (s3, b) = resolve_return(s2, decl.return_type);
            (s3, same_types(s3, b, a))
        }
    }
}

pub open spec fn validate_decl(
    s: State,
    decl: FunctionDecl,
    namespace: Option<Seq<char>>,
    functions: Map<Seq<char>, FunctionDef>,
) -> State {
    match look(functions, canonical(namespace, decl.name.name@)) {
        None => report1(
            s,
            ErrorCode::MutualFunctionMissingDefinition,
            decl.name.span,
            decl.name.name@,
        ),
        Some(f) => {
            let (s1, agrees) = function_agrees(s, f, decl);
            if agrees {
                s1
            } else {
                report1(s1, ErrorCode::MutualSignatureMismatch, f.name.span, decl.name.name@)
            }
        },
    }
}

pub open spec fn validate_decls(
    s: State,
    decls: Seq<FunctionDecl>,
    namespace: Option<Seq<char>>,
    functions: Map<Seq<char>, FunctionDef>,
    i: nat,
) -> State
    decreases decls.len() - i,
{
    if i >= decls.len() {
        s
    } else {
        validate_decls(
            validate_decl(s, decls[i as int], namespace, functions),
            decls,
            namespace,
            functions,
            i + 1,
        )
    }
}

pub open spec fn validate_mutuals(
    s: State,
    items: Seq<Item>,
    functions: Map<Seq<char>, FunctionDef>,
    place: PlaceV,
    i: nat,
) -> State
    decreases items.len() - i,
{
    if i >= items.len() {
        s
    } else {
        let here = next_place(place, items[i as int]);
        let s1 = match items[i as int] {
            Item::Mutual(block) => validate_decls(
                s,
                block.declarations@,
                here.namespace,
                functions,
                0,
            ),
            _ => s,
        };
        validate_mutuals(s1, items, functions, here, i + 1)
    }
}

fn has_method_before(methods: &Vec<FunctionDef>, name: &String, n: usize) -> (r: bool)
    requires
        n <= methods@.len(),
    ensures
        r == method_before(methods@, name@, n as int),
{
    let mut i: usize = 0;
    while i < n
        invariant
            i <= n <= methods@.len(),
            forall|j: int| 0 <= j < i ==> (#[trigger] methods@[j]).name.name@ != name@,
        decreases n - i,
    {
        if methods[i].name.name == *name {
            assert(methods@[i as int].name.name@ == name@);
            return true;
        }
        i = i + 1;
    }
    false
}

fn find_sig<'b>(sigs: &'b Vec<FunctionSig>, name: &String) -> (r: Option<&'b FunctionSig>)
    ensures
        r is Some <==> sig_named(views(sigs@), name@, 0) is Some,
        r matches Some(x) ==> sig_named(views(sigs@), name@, 0) == Some(x@),
{
    let ghost vs = views(sigs@);
    let mut i: usize = 0;
    while i < sigs.len()
        invariant
            i <= sigs@.len(),
            vs == views(sigs@),
            sig_named(vs, name@, 0) == sig_named(vs, name@, i as nat),
        decreases sigs@.len() - i,
    {
        assert(vs[i as int] == sigs@[i as int]@);
        if sigs[i].name == *name {
            return Some(&sigs[i]);
        }
        i = i + 1;
    }
    None
}

fn with_methods(m: Table<String, FunctionSig>, sigs: &Vec<FunctionSig>) -> (r: Table<String, FunctionSig>)
    ensures
        r@ == add_methods(m@, views(sigs@), 0),
{
    let ghost start = m@;
    let ghost vs = views(sigs@);
    let mut r = m;
    let mut i: usize = 0;
    while i < sigs.len()
        invariant
            i <= sigs@.len(),
            vs == views(sigs@),
            add_methods(r@, vs, i as nat) == add_methods(start, vs, 0),
        decreases sigs@.len() - i,
    {
        assert(vs[i as int] == sigs@[i as int]@);
        r.insert(sigs[i].name.clone(), sigs[i].dup());
        i = i + 1;
    }
    r
}

fn methods_or_new(m: Option<&Table<String, FunctionSig>>) -> (r: Table<String, FunctionSig>)
    ensures
        m matches Some(x) ==> r@ == x@,
        m is None ==> r@ == Map::<Seq<char>, FunctionSigV>::empty(),
{
    match m {
        Some(x) => x.dup(),
        None => Table::new(),
    }
}

fn is_same_param(a: &Param, b: &Param) -> (r: bool)
    ensures
        r == same_param(*a, *b),
{
    a.name.name == b.name.name && a.view == b.view && a.mutable == b.mutable
}

fn type_expr_matches_decl(f: &TypeExpr, decl: &TypeExpr, renamed: &Table<String, String>) -> (r: bool)
    ensures
        r == written_alike(*f, *decl, renamed@),
    decreases f, 0nat,
{
    match (f, decl) {
        (TypeExpr::Named(a), TypeExpr::Named(b)) => match renamed.get(&b.name) {
            Some(n) => a.name == *n,
            None => a.name == b.name,
        },
        (TypeExpr::Generic(a, a_args, _), TypeExpr::Generic(b, b_args, _)) => a.name == b.name
            && type_exprs_match_decl(a_args, b_args, renamed),
        (TypeExpr::View(a, _), TypeExpr::View(b, _)) => type_expr_matches_decl(a, b, renamed),
        (TypeExpr::StateQualified(a, a_state, _), TypeExpr::StateQualified(b, b_state, _)) =>
            a_state.name == b_state.name && type_expr_matches_decl(a, b, renamed),
        (TypeExpr::Function(a, a_ret, _), TypeExpr::Function(b, b_ret, _)) => type_exprs_match_decl(
            a,
            b,
            renamed,
        ) && type_expr_matches_decl(a_ret, b_ret, renamed),
        _ => false,
    }
}

fn type_exprs_match_decl(f: &Vec<TypeExpr>, decl: &Vec<TypeExpr>, renamed: &Table<String, String>) -> (r: bool)
    ensures
        r == all_written_alike(*f, *decl, renamed@),
    decreases f, 0nat,
{
    if f.len() != decl.len() {
        return false;
    }
    let mut i: usize = 0;
    while i < f.len()
        invariant
            i <= f@.len() == decl@.len(),
            forall|j: int| 0 <= j < i ==> written_alike(#[trigger] f@[j], decl@[j], renamed@),
        decreases f@.len() - i,
    {
        if !type_expr_matches_decl(&f[i], &decl[i], renamed) {
            assert(!written_alike(f@[i as int], decl@[i as int], renamed@));
            return false;
        }
        i = i + 1;
    }
    true
}

fn type_expr_is_nothing(t: &TypeExpr) -> (r: bool)
    ensures
        r == written_nothing(*t),
{
    match t {
        TypeExpr::Named(ident) => same_text(ident.name.as_str(), "nothing"),
        _ => false,
    }
}

fn return_type_matches_decl(f: &Option<TypeExpr>, decl: &Option<TypeExpr>, renamed: &Table<String, String>) -> (r:
    bool)
    ensures
        r == returns_alike(*f, *decl, renamed@),
{
    match (f, decl) {
        (None, None) => true,
        (Some(a), Some(b)) => type_expr_matches_decl(a, b, renamed),
        (None, Some(b)) => type_expr_is_nothing(b),
        (Some(a), None) => type_expr_is_nothing(a),
    }
}

fn renamed_type_params(decl: &Vec<Ident>, f: &Vec<Ident>) -> (r: Table<String, String>)
    ensures
        r@ == renamed_from(decl@, f@, 0, Map::empty()),
{
    let mut r: Table<String, String> = Table::new();
    let mut i: usize = 0;
    while i < decl.len() && i < f.len()
        invariant
            i <= decl@.len(),
            i <= f@.len(),
            renamed_from(decl@, f@, i as nat, r@) == renamed_from(decl@, f@, 0, Map::empty()),
        decreases decl@.len() - i,
    {
        r.insert(decl[i].name.clone(), f[i].name.clone());
        i = i + 1;
    }
    r
}

fn generic_function_matches_decl(f: &FunctionDef, decl: &FunctionDecl) -> (r: bool)
    ensures
        r == generic_agrees(*f, *decl),
{
    if f.type_params.len() != decl.type_params.len() || f.params.len() != decl.params.len() {
        return false;
    }
    let renamed = renamed_type_params(&decl.type_params, &f.type_params);
    let mut i: usize = 0;
    while i < f.params.len()
        invariant
            i <= f.params@.len() == decl.params@.len(),
            renamed@ == renamed_from(decl.type_params@, f.type_params@, 0, Map::empty()),
            forall|j: int|
                0 <= j < i ==> same_param(#[trigger] f.params@[j], decl.params@[j]) && written_alike(
                    f.params@[j].ty,
                    decl.params@[j].ty,
                    renamed@,
                ),
        decreases f.params@.len() - i,
    {
        if !is_same_param(&f.params[i], &decl.params[i]) || !type_expr_matches_decl(
            &f.params[i].ty,
            &decl.params[i].ty,
            &renamed,
        ) {
            assert(!(same_param(f.params@[i as int], decl.params@[i as int]) && written_alike(
                f.params@[i as int].ty,
                decl.params@[i as int].ty,
                renamed@,
            )));
            return false;
        }
        i = i + 1;
    }
    return_type_matches_decl(&f.return_type, &decl.return_type, &renamed)
}

impl<'a> TypeChecker<'a> {
    fn header_types(&mut self, params: &Vec<Param>, ret: &Option<TypeExpr>) -> (r: FunctionShape)
        ensures
            stays(old(self)@, final(self)@),
            known(old(self)@) ==> known(final(self)@) && has_shape(final(self)@, r@),
            (final(self)@, r@) == header_types(old(self)@, params@, *ret),
    {
        let ids = self.resolve_param_ids(params);
        let return_type: usize = self.resolve_return_type(ret);
        FunctionShape { params: ids, return_type }
    }

    fn register_header(&mut self, name: &Ident, params: &Vec<Param>, ret: &Option<TypeExpr>)
        ensures
            stays(old(self)@, final(self)@),
            known(old(self)@) ==> known(final(self)@),
            final(self)@ == register_header(old(self)@, *name, params@, *ret),
    {
        let shape = self.header_types(params, ret);
        let id: usize = self.intern_function(shape.params, shape.return_type);
        self.declare(name.span, id);
    }

    fn register_signature(
        &mut self,
        full: &String,
        name: &Ident,
        params: &Vec<Param>,
        ret: &Option<TypeExpr>,
        trusted: bool,
    )
        ensures
            stays(old(self)@, final(self)@),
            known(old(self)@) ==> known(final(self)@),
            final(self)@ == register_signature(old(self)@, full@, *name, params@, *ret, trusted),
    {
        self.register_header(name, params, ret);
        let shape = self.header_types(params, ret);
        if trusted {
            self.put_trusted_signatures(full.clone(), shape.dup());
        }
        self.put_signatures(full.clone(), shape);
    }

    pub(crate) fn register_function(&mut self, f: &'a FunctionDef, namespace: &Option<String>)
        ensures
            stays(old(self)@, final(self)@),
            known(old(self)@) ==> known(final(self)@),
            final(self)@ == register_function(old(self)@, *f, maybe_text(*namespace)),
    {
        let full = canonical_name(namespace, &f.name.name);
        if f.type_params.len() == 0 {
            self.register_signature(
                &full,
                &f.name,
                &f.params,
                &f.return_type,
                f.span.file.is_stdlib(),
            );
        } else {
            self.put_function_templates(full.clone(), f);
        }
        let pure = self.names().params_are_pure(&f.params);
        self.put_purity_map(full, pure);
    }

    fn register_decl(&mut self, f: &FunctionDecl, namespace: &Option<String>)
        ensures
            stays(old(self)@, final(self)@),
            known(old(self)@) ==> known(final(self)@),
            final(self)@ == register_decl(old(self)@, *f, maybe_text(*namespace)),
    {
        let full = canonical_name(namespace, &f.name.name);
        let pure = self.names().params_are_pure(&f.params);
        self.put_purity_map(full.clone(), pure);
        if f.type_params.len() == 0 {
            self.register_signature(
                &full,
                &f.name,
                &f.params,
                &f.return_type,
                f.span.file.is_stdlib(),
            );
        }
    }

    pub(crate) fn register_mutual(&mut self, block: &MutualBlock, namespace: &Option<String>)
        ensures
            stays(old(self)@, final(self)@),
            known(old(self)@) ==> known(final(self)@),
            final(self)@ == register_mutual(
                old(self)@,
                block.declarations@,
                maybe_text(*namespace),
                0,
            ),
    {
        let ghost ns = maybe_text(*namespace);
        let mut i: usize = 0;
        while i < block.declarations.len()
            invariant
                stays(old(self)@, self@),
                known(old(self)@) ==> known(self@),
                i <= block.declarations@.len(),
                ns == maybe_text(*namespace),
                register_mutual(self@, block.declarations@, ns, i as nat) == register_mutual(
                    old(self)@,
                    block.declarations@,
                    ns,
                    0,
                ),
            decreases block.declarations@.len() - i,
        {
            self.register_decl(&block.declarations[i], namespace);
            i = i + 1;
        }
    }

    pub(crate) fn register_interface(&mut self, def: &InterfaceDecl, namespace: &Option<String>)
        ensures
            stays(old(self)@, final(self)@),
            known(old(self)@) ==> known(final(self)@),
            final(self)@ == interface_purity(
                old(self)@,
                canonical(maybe_text(*namespace), def.name.name@),
                def.methods@,
                0,
            ),
    {
        let owner = canonical_name(namespace, &def.name.name);
        let mut i: usize = 0;
        while i < def.methods.len()
            invariant
                stays(old(self)@, self@),
                known(old(self)@) ==> known(self@),
                i <= def.methods@.len(),
                interface_purity(self@, owner@, def.methods@, i as nat) == interface_purity(
                    old(self)@,
                    owner@,
                    def.methods@,
                    0,
                ),
            decreases def.methods@.len() - i,
        {
            let f = &def.methods[i];
            let pure = self.names().params_are_pure(&f.params);
            self.put_purity_map(join3(owner.as_str(), ".", f.name.name.as_str()), pure);
            i = i + 1;
        }
    }

    pub(crate) fn register_struct(&mut self, def: &StructDef, namespace: &Option<String>)
        ensures
            stays(old(self)@, final(self)@),
            known(old(self)@) ==> known(final(self)@),
            final(self)@ == struct_purity(
                old(self)@,
                canonical(maybe_text(*namespace), def.name.name@),
                def.methods@,
                0,
            ),
    {
        let owner = canonical_name(namespace, &def.name.name);
        let mut i: usize = 0;
        while i < def.methods.len()
            invariant
                stays(old(self)@, self@),
                known(old(self)@) ==> known(self@),
                i <= def.methods@.len(),
                struct_purity(self@, owner@, def.methods@, i as nat) == struct_purity(
                    old(self)@,
                    owner@,
                    def.methods@,
                    0,
                ),
            decreases def.methods@.len() - i,
        {
            let f = &def.methods[i];
            let pure = self.names().params_are_pure(&f.params);
            self.put_purity_map(join3(owner.as_str(), ".", f.name.name.as_str()), pure);
            i = i + 1;
        }
    }

    fn implement_types(&mut self, block: &ImplementBlock) -> (r: (TypeId, TypeId))
        ensures
            stays(old(self)@, final(self)@),
            known(old(self)@) ==> known(final(self)@),
            (final(self)@, r.0, r.1) == implement_types(old(self)@, *block),
    {
        let interface: usize = self.resolve_named_type(
            &block.interface_name.name,
            block.interface_name.span,
        );
        let owner: usize = self.resolve_type_expr(&block.for_type);
        (interface, owner)
    }

    fn implement_purity(&mut self, owner: &String, interface: &String, sigs: &Vec<FunctionSig>)
        ensures
            stays(old(self)@, final(self)@),
            known(old(self)@) ==> known(final(self)@),
            final(self)@ == (State {
                purity_map: implement_purity(
                    old(self)@.purity_map,
                    owner@,
                    interface@,
                    views(sigs@),
                    0,
                ),
                ..old(self)@
            }),
    {
        let ghost vs = views(sigs@);
        let mut i: usize = 0;
        while i < sigs.len()
            invariant
                stays(old(self)@, self@),
                known(old(self)@) ==> known(self@),
                i <= sigs@.len(),
                vs == views(sigs@),
                self@ == (State { purity_map: self@.purity_map, ..old(self)@ }),
                implement_purity(self@.purity_map, owner@, interface@, vs, i as nat)
                    == implement_purity(old(self)@.purity_map, owner@, interface@, vs, 0),
            decreases sigs@.len() - i,
        {
            assert(vs[i as int] == sigs@[i as int]@);
            let pure = sigs[i].is_pure;
            self.put_purity_map(join3(owner.as_str(), ".", sigs[i].name.as_str()), pure);
            self.put_purity_map(join3(interface.as_str(), ".", sigs[i].name.as_str()), pure);
            i = i + 1;
        }
    }

    pub(crate) fn register_implement_block(&mut self, block: &ImplementBlock)
        ensures
            stays(old(self)@, final(self)@),
            known(old(self)@) ==> known(final(self)@),
            final(self)@ == register_implement(old(self)@, *block),
    {
        let (interface, owner): (TypeId, TypeId) = self.implement_types(block);
        if interface == TypeInterner::ERROR || owner == TypeInterner::ERROR {
            return;
        }
        let owner_name = self.name_of(owner);
        let interface_name = self.name_of(interface);
        let sigs = self.method_signatures(&block.methods);
        let methods = with_methods(methods_or_new(self.get_impl_methods(owner)), &sigs);
        self.put_impl_methods(owner, methods);
        let methods = with_methods(methods_or_new(self.get_impls((interface, owner))), &sigs);
        self.put_impls((interface, owner), methods);
        self.implement_purity(&owner_name, &interface_name, &sigs);
    }

    fn is_same_types(&self, a: TypeId, b: TypeId) -> (r: bool)
        ensures
            r == same_types(self@, a, b),
    {
        self.types_compatible(a, b) && self.types_compatible(b, a)
    }

    fn param_implements(&self, owner: TypeId, given: &SigParam, asked: &SigParam, first: bool) -> (r: bool)
        ensures
            r == param_implements(self@, owner, given@, asked@, first),
    {
        let mut expected: usize = asked.ty;
        if first {
            if let Type::Interface(_) = self.interner().resolve(asked.ty) {
                expected = owner;
            }
        }
        given.name == asked.name && given.view == asked.view && self.is_same_types(expected, given.ty)
    }

    fn implementation_matches_interface(&self, owner: TypeId, given: &FunctionSig, asked: &FunctionSig) -> (r:
        bool)
        ensures
            r == implements(self@, owner, given@, asked@),
    {
        if given.params.len() != asked.params.len() {
            return false;
        }
        let ghost gs = given@.params;
        let ghost xs = asked@.params;
        let mut i: usize = 0;
        while i < given.params.len()
            invariant
                i <= given.params@.len() == asked.params@.len(),
                gs == views(given.params@),
                xs == views(asked.params@),
                forall|j: int|
                    0 <= j < i ==> param_implements(
                        self@,
                        owner,
                        #[trigger] gs[j],
                        xs[j],
                        j == 0,
                    ),
            decreases given.params@.len() - i,
        {
            assert(gs[i as int] == given.params@[i as int]@);
            assert(xs[i as int] == asked.params@[i as int]@);
            if !self.param_implements(owner, &given.params[i], &asked.params[i], i == 0) {
                assert(!param_implements(self@, owner, gs[i as int], xs[i as int], i == 0));
                return false;
            }
            i = i + 1;
        }
        self.is_same_types(asked.return_type, given.return_type)
    }

    fn validate_method(
        &mut self,
        interface: &InterfaceShape,
        impls: &Table<String, FunctionSig>,
        owner: TypeId,
        methods: &Vec<FunctionDef>,
        i: usize,
    )
        requires
            i < methods@.len(),
        ensures
            stays(old(self)@, final(self)@),
            known(old(self)@) ==> known(final(self)@),
            final(self)@ == validate_method(
                old(self)@,
                interface@,
                impls@,
                owner,
                methods@,
                i as nat,
            ),
    {
        let name = &methods[i].name;
        if has_method_before(methods, &name.name, i) {
            let owner_name = self.name_of(owner);
            self.report2(
                ErrorCode::DuplicateImplementedMethod,
                name.span,
                owner_name,
                name.name.clone(),
            );
            return;
        }
        match find_sig(&interface.methods, &name.name) {
            None => {
                self.report2(
                    ErrorCode::InterfaceHasNoMember,
                    name.span,
                    interface.name.clone(),
                    name.name.clone(),
                );
            },
            Some(asked) => {
                let agrees = match impls.get(&name.name) {
                    Some(given) => self.implementation_matches_interface(owner, given, asked),
                    None => false,
                };
                if !agrees {
                    let owner_name = self.name_of(owner);
                    self.report3(
                        ErrorCode::ImplementedMethodSignatureMismatch,
                        name.span,
                        interface.name.clone(),
                        owner_name,
                        name.name.clone(),
                    );
                }
            },
        }
    }

    fn validate_methods(
        &mut self,
        interface: &InterfaceShape,
        impls: &Table<String, FunctionSig>,
        owner: TypeId,
        methods: &Vec<FunctionDef>,
    )
        ensures
            stays(old(self)@, final(self)@),
            known(old(self)@) ==> known(final(self)@),
            final(self)@ == validate_methods(
                old(self)@,
                interface@,
                impls@,
                owner,
                methods@,
                0,
            ),
    {
        let mut i: usize = 0;
        while i < methods.len()
            invariant
                stays(old(self)@, self@),
                known(old(self)@) ==> known(self@),
                i <= methods@.len(),
                validate_methods(self@, interface@, impls@, owner, methods@, i as nat)
                    == validate_methods(old(self)@, interface@, impls@, owner, methods@, 0),
            decreases methods@.len() - i,
        {
            self.validate_method(interface, impls, owner, methods, i);
            i = i + 1;
        }
    }

    fn missing_methods(&mut self, interface: &InterfaceShape, owner: TypeId, block: &ImplementBlock)
        ensures
            stays(old(self)@, final(self)@),
            known(old(self)@) ==> known(final(self)@),
            final(self)@ == missing_methods(old(self)@, interface@, owner, *block, 0),
    {
        let ghost sigs = interface@.methods;
        let mut i: usize = 0;
        while i < interface.methods.len()
            invariant
                stays(old(self)@, self@),
                known(old(self)@) ==> known(self@),
                i <= interface.methods@.len(),
                sigs == interface@.methods,
                sigs == views(interface.methods@),
                missing_methods(self@, interface@, owner, *block, i as nat) == missing_methods(
                    old(self)@,
                    interface@,
                    owner,
                    *block,
                    0,
                ),
            decreases interface.methods@.len() - i,
        {
            assert(sigs[i as int] == interface.methods@[i as int]@);
            let name = &interface.methods[i].name;
            if !has_method_before(&block.methods, name, block.methods.len()) {
                let owner_name = self.name_of(owner);
                self.report3(
                    ErrorCode::MissingImplementedMethod,
                    block.span,
                    interface.name.clone(),
                    owner_name,
                    name.clone(),
                );
            }
            i = i + 1;
        }
    }

    fn validate_implement(&mut self, block: &ImplementBlock)
        ensures
            stays(old(self)@, final(self)@),
            known(old(self)@) ==> known(final(self)@),
            final(self)@ == validate_implement(old(self)@, *block),
    {
        let (id, owner): (TypeId, TypeId) = self.implement_types(block);
        if id == TypeInterner::ERROR || owner == TypeInterner::ERROR {
            return;
        }
        match self.interner().resolve(id) {
            Type::Interface(iid) => {
                let interface = self.interner().resolve_interface(iid).dup();
                let impls = match self.get_impls((id, owner)) {
                    Some(m) => m.dup(),
                    None => {
                        return;
                    },
                };
                self.validate_methods(&interface, &impls, owner, &block.methods);
                self.missing_methods(&interface, owner, block);
            },
            _ => {
                self.report1(
                    ErrorCode::ExpectedInterface,
                    block.interface_name.span,
                    block.interface_name.name.clone(),
                );
            },
        }
    }

    pub(crate) fn validate_implement_blocks(&mut self, items: &Vec<Item>)
        ensures
            stays(old(self)@, final(self)@),
            known(old(self)@) ==> known(final(self)@),
            final(self)@ == validate_implements(old(self)@, items@, 0),
    {
        let mut i: usize = 0;
        while i < items.len()
            invariant
                stays(old(self)@, self@),
                known(old(self)@) ==> known(self@),
                i <= items@.len(),
                validate_implements(self@, items@, i as nat) == validate_implements(
                    old(self)@,
                    items@,
                    0,
                ),
            decreases items@.len() - i,
        {
            if let Item::Implement(block) = &items[i] {
                self.validate_implement(block);
            }
            i = i + 1;
        }
    }

    fn params_agree(&mut self, f: &Vec<Param>, decl: &Vec<Param>) -> (r: bool)
        ensures
            stays(old(self)@, final(self)@),
            known(old(self)@) ==> known(final(self)@),
            (final(self)@, r) == params_agree(old(self)@, f@, decl@, 0),
    {
        let mut i: usize = 0;
        while i < f.len() && i < decl.len()
            invariant
                stays(old(self)@, self@),
                known(old(self)@) ==> known(self@),
                i <= f@.len(),
                i <= decl@.len(),
                params_agree(self@, f@, decl@, i as nat) == params_agree(
                    old(self)@,
                    f@,
                    decl@,
                    0,
                ),
            decreases f@.len() - i,
        {
            if !is_same_param(&f[i], &decl[i]) {
                return false;
            }
            let a: usize = self.resolve_type_expr(&f[i].ty);
            let b: usize = self.resolve_type_expr(&decl[i].ty);
            if !self.is_same_types(b, a) {
                return false;
            }
            i = i + 1;
        }
        true
    }

    fn function_matches_decl(&mut self, f: &FunctionDef, decl: &FunctionDecl) -> (r: bool)
        ensures
            stays(old(self)@, final(self)@),
            known(old(self)@) ==> known(final(self)@),
            (final(self)@, r) == function_agrees(old(self)@, *f, *decl),
    {
        if f.type_params.len() > 0 || decl.type_params.len() > 0 {
            return generic_function_matches_decl(f, decl);
        }
        if f.params.len() != decl.params.len() {
            return false;
        }
        if !self.params_agree(&f.params, &decl.params) {
            return false;
        }
        let a: usize = self.resolve_return_type(&f.return_type);
        let b: usize = self.resolve_return_type(&decl.return_type);
        self.is_same_types(b, a)
    }

    fn validate_decl(
        &mut self,
        decl: &FunctionDecl,
        namespace: &Option<String>,
        functions: &Table<String, &'a FunctionDef>,
    )
        ensures
            stays(old(self)@, final(self)@),
            known(old(self)@) ==> known(final(self)@),
            final(self)@ == validate_decl(
                old(self)@,
                *decl,
                maybe_text(*namespace),
                functions@,
            ),
    {
        match functions.get(&canonical_name(namespace, &decl.name.name)) {
            None => {
                self.report1(
                    ErrorCode::MutualFunctionMissingDefinition,
                    decl.name.span,
                    decl.name.name.clone(),
                );
            },
            Some(f) => {
                if !self.function_matches_decl(f, decl) {
                    self.report1(
                        ErrorCode::MutualSignatureMismatch,
                        f.name.span,
                        decl.name.name.clone(),
                    );
                }
            },
        }
    }

    fn validate_decls(
        &mut self,
        decls: &Vec<FunctionDecl>,
        namespace: &Option<String>,
        functions: &Table<String, &'a FunctionDef>,
    )
        ensures
            stays(old(self)@, final(self)@),
            known(old(self)@) ==> known(final(self)@),
            final(self)@ == validate_decls(
                old(self)@,
                decls@,
                maybe_text(*namespace),
                functions@,
                0,
            ),
    {
        let ghost ns = maybe_text(*namespace);
        let mut i: usize = 0;
        while i < decls.len()
            invariant
                stays(old(self)@, self@),
                known(old(self)@) ==> known(self@),
                i <= decls@.len(),
                ns == maybe_text(*namespace),
                validate_decls(self@, decls@, ns, functions@, i as nat) == validate_decls(
                    old(self)@,
                    decls@,
                    ns,
                    functions@,
                    0,
                ),
            decreases decls@.len() - i,
        {
            self.validate_decl(&decls[i], namespace, functions);
            i = i + 1;
        }
    }

    pub(crate) fn validate_mutual_blocks(&mut self, items: &'a Vec<Item>)
        ensures
            stays(old(self)@, final(self)@),
            known(old(self)@) ==> known(final(self)@),
            final(self)@ == validate_mutuals(
                old(self)@,
                items@,
                functions_from(items@, start_place(), 0, Map::empty()),
                start_place(),
                0,
            ),
    {
        let functions = functions_of(items);
        let mut place = Place::new();
        let mut i: usize = 0;
        while i < items.len()
            invariant
                stays(old(self)@, self@),
                known(old(self)@) ==> known(self@),
                i <= items@.len(),
                validate_mutuals(self@, items@, functions@, place@, i as nat) == validate_mutuals(
                    old(self)@,
                    items@,
                    functions@,
                    start_place(),
                    0,
                ),
            decreases items@.len() - i,
        {
            place.update_current_namespace(&items[i]);
            if let Item::Mutual(block) = &items[i] {
                self.validate_decls(&block.declarations, &place.namespace, &functions);
            }
            i = i + 1;
        }
    }
}

fn functions_of<'b>(items: &'b Vec<Item>) -> (r: Table<String, &'b FunctionDef>)
    ensures
        r@ == functions_from(items@, start_place(), 0, Map::empty()),
{
    let mut found: Table<String, &'b FunctionDef> = Table::new();
    let mut place = Place::new();
    let mut i: usize = 0;
    while i < items.len()
        invariant
            i <= items@.len(),
            functions_from(items@, place@, i as nat, found@) == functions_from(
                items@,
                start_place(),
                0,
                Map::empty(),
            ),
        decreases items@.len() - i,
    {
        place.update_current_namespace(&items[i]);
        if let Item::Function(f) = &items[i] {
            found.insert(canonical_name(&place.namespace, &f.name.name), f);
        }
        i = i + 1;
    }
    found
}

} // verus!
