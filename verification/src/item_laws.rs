//! What the items of a module make known, and in which order a module is looked at.
use vstd::prelude::*;

use crate::ast::{
    expr_span, ActorDef, ActorStateField, FunctionDecl, FunctionDef, ImplementBlock, Item, Module,
    Param, PropertyBlock, PropertyGiven, ReceiveHandler, TypeAlias, TypeExpr, VerifyBlock,
};
use crate::check_blocks::{check_block, check_var_decl};
use crate::check_calls::function_body;
use crate::check_exprs::{check_expected, check_expr};
use crate::check_items::{
    check_actor, check_function, check_handler, check_initial, check_methods, check_property,
    check_type_alias, check_verify, declare_capabilities, declare_fields, declare_givens,
    declare_known,
};
use crate::check_module::{
    check_item, check_items, check_module, checked, collect_aliases, finish_item, finish_items,
    predeclare_item, predeclare_items, register_item, register_items,
};
use crate::declare::{
    finish_actor, finish_bitfield, finish_enum, finish_interface, finish_machine, finish_struct,
    predeclare_actor, predeclare_bitfield, predeclare_enum, predeclare_interface,
    predeclare_machine, predeclare_struct,
};
use crate::diagnostics::ErrorCode;
use crate::handling_laws::{with_report, with_variable};
use crate::metadata::metadata_of;
use crate::metadata_types::first_state;
use crate::names::{canonical, next_place, pure_params, start_place, PlaceV};
use crate::ownership::{module_reports, Surroundings};
use crate::resolution::{definition_at, Names};
use crate::signatures::{
    add_methods, function_agrees, functions_from, header_types, implement_types, implements,
    interface_purity, methods_or_none, missing_methods, param_implements, params_agree,
    register_decl, register_function, register_implement, register_mutual, register_signature,
    same_types, sig_named, struct_purity, validate_decl, validate_decls, validate_implement,
    validate_implements, validate_methods, validate_mutuals,
};
use crate::state::{ContextV, State};
use crate::table::look;
use crate::type_names::name_of;
use crate::type_rules::{compatible, refinement_base, refinement_boundary_input};
use crate::types::{
    intern_function, ty, ActorMessageShapeV, FunctionShapeV, FunctionSigV, InterfaceShapeV,
    NamedTypeV, Type, TypeId, TypeInterner,
};
use crate::written_types::{
    alias_at, methods_at, named_at, nesting, resolve_param_ids, resolve_return, resolve_type,
};

verus! {

// ---------------------------------------------------------------------------
// Functions
// ---------------------------------------------------------------------------

/// A function is known by its full name with the types of its parameters and its result, and
/// its name has that function type. A generic function is kept as a template instead. Either is
/// pure where no parameter is a capability.
pub proof fn law_functions_are_known(s: State, f: FunctionDef, namespace: Option<Seq<char>>)
    ensures
        ({
            let full = canonical(namespace, f.name.name@);
            let after = register_function(s, f, namespace);
            let (s1, shape) = header_types(s, f.params@, f.return_type);
            let (ts, id) = intern_function(s1.types, shape);
            let (s2, known) = header_types(
                with_variable(State { types: ts, ..s1 }, f.name.span, id),
                f.params@,
                f.return_type,
            );
            &&& after.purity_map.contains_key(full) && after.purity_map[full] == pure_params(
                after.names,
                f.params@,
            )
            &&& f.type_params@.len() == 0 ==> after.signatures == s2.signatures.insert(full, known) && after.reports
                == s2.reports
            &&& f.type_params@.len() > 0 ==> after.function_templates.contains_key(full)
                && after.function_templates[full] == f && after.signatures == s.signatures && after.reports
                == s.reports
        }),
{
}

/// The header of a function: the types of its parameters in their order, and its result type.
pub proof fn law_headers(s: State, params: Seq<Param>, ret: Option<TypeExpr>)
    ensures
        ({
            let (s1, ids) = resolve_param_ids(s, params, 0, Seq::empty());
            let (s2, r) = resolve_return(s1, ret);
            header_types(s, params, ret) == (s2, FunctionShapeV { params: ids, return_type: r })
        }),
        resolve_return(s, None) == (s, TypeInterner::NOTHING),
{
}

/// A declaration in a mutual block makes the function known before it is written; each is
/// taken in its turn.
pub proof fn law_mutual_declarations(s: State, f: FunctionDecl, fs: Seq<FunctionDecl>, namespace: Option<Seq<char>>, i: nat)
    ensures
        ({
            let full = canonical(namespace, f.name.name@);
            let s1 = State {
                purity_map: s.purity_map.insert(full, pure_params(s.names, f.params@)),
                ..s
            };
            register_decl(s, f, namespace) == if f.type_params@.len() == 0 {
                register_signature(
                    s1,
                    full,
                    f.name,
                    f.params@,
                    f.return_type,
                    f.span.file.stdlib(),
                )
            } else {
                s1
            }
        }),
        register_mutual(s, fs, namespace, i) == if i >= fs.len() {
            s
        } else {
            register_mutual(register_decl(s, fs[i as int], namespace), fs, namespace, i + 1)
        },
{
}

/// Methods of interfaces and structs are pure where no parameter is a capability, each by its
/// owner's name and its own.
pub proof fn law_purity_of_methods(
    s: State,
    owner: Seq<char>,
    decls: Seq<FunctionDecl>,
    defs: Seq<FunctionDef>,
    i: nat,
)
    ensures
        interface_purity(s, owner, decls, i) == if i >= decls.len() {
            s
        } else {
            let f = decls[i as int];
            interface_purity(
                State {
                    purity_map: s.purity_map.insert(
                        owner + "."@ + f.name.name@,
                        pure_params(s.names, f.params@),
                    ),
                    ..s
                },
                owner,
                decls,
                i + 1,
            )
        },
        struct_purity(s, owner, defs, i) == if i >= defs.len() {
            s
        } else {
            let f = defs[i as int];
            struct_purity(
                State {
                    purity_map: s.purity_map.insert(
                        owner + "."@ + f.name.name@,
                        pure_params(s.names, f.params@),
                    ),
                    ..s
                },
                owner,
                defs,
                i + 1,
            )
        },
{
}

// ---------------------------------------------------------------------------
// Implementations
// ---------------------------------------------------------------------------

/// An implementation makes its methods known for the pair of interface and type, and for the
/// type alone; earlier ones stay. Nothing is made known where either is unknown.
pub proof fn law_implementations_are_known(s: State, block: ImplementBlock)
    ensures
        ({
            let (s1, interface, owner) = implement_types(s, block);
            let (s2, sigs) = methods_at(s1, block.methods, 0, Seq::empty(), nesting());
            let after = register_implement(s, block);
            if interface == TypeInterner::ERROR || owner == TypeInterner::ERROR {
                after == s1
            } else {
                &&& after.reports == s2.reports
                &&& after.impls.contains_key((interface, owner))
                &&& after.impl_methods.contains_key(owner)
                &&& forall|k: int|
                    0 <= k < sigs.len() && (forall|j: int| k < j < sigs.len() ==> (#[trigger] sigs[j]).name != sigs[k].name)
                        ==> after.impls[(interface, owner)].contains_key((#[trigger] sigs[k]).name)
                        && after.impls[(interface, owner)][sigs[k].name] == sigs[k]
                        && after.impl_methods[owner].contains_key(sigs[k].name)
                        && after.impl_methods[owner][sigs[k].name] == sigs[k]
            }
        }),
{
    let (s1, interface, owner) = implement_types(s, block);
    let (s2, sigs) = methods_at(s1, block.methods, 0, Seq::empty(), nesting());
    let mine = methods_or_none(look(s2.impl_methods, owner));
    let pair = methods_or_none(look(s2.impls, (interface, owner)));
    assert forall|k: int|
        0 <= k < sigs.len() && (forall|j: int| k < j < sigs.len() ==> (#[trigger] sigs[j]).name != sigs[k].name)
        implies add_methods(mine, sigs, 0).contains_key((#[trigger] sigs[k]).name) && add_methods(mine, sigs, 0)[sigs[k].name]
        == sigs[k] && add_methods(pair, sigs, 0).contains_key(sigs[k].name) && add_methods(pair, sigs, 0)[sigs[k].name]
        == sigs[k] by {
        added_method(mine, sigs, 0, k);
        added_method(pair, sigs, 0, k);
    }
}

proof fn added_method(m: Map<Seq<char>, FunctionSigV>, sigs: Seq<FunctionSigV>, from: nat, k: int)
    requires
        0 <= k < sigs.len(),
        forall|j: int| k < j < sigs.len() ==> (#[trigger] sigs[j]).name != sigs[k].name,
        from > k ==> m.contains_key(sigs[k].name) && m[sigs[k].name] == sigs[k],
    ensures
        add_methods(m, sigs, from).contains_key(sigs[k].name),
        add_methods(m, sigs, from)[sigs[k].name] == sigs[k],
    decreases sigs.len() - from,
{
    if from < sigs.len() {
        added_method(m.insert(sigs[from as int].name, sigs[from as int]), sigs, from + 1, k);
    }
}

/// Two types are the same where each fits the other.
pub proof fn law_same_types(s: State, a: TypeId, b: TypeId)
    ensures
        same_types(s, a, b) <==> compatible(s.types, s.impls, a, b) && compatible(s.types, s.impls, b, a),
        same_types(s, a, b) == same_types(s, b, a),
{
}

/// A method implements what the interface asks for where it has as many parameters, each of the
/// same name, type and view, and the same result type. The first parameter is of the type
/// itself where the interface has an interface there.
pub proof fn law_methods_implement(s: State, owner: TypeId, given: FunctionSigV, asked: FunctionSigV)
    ensures
        implements(s, owner, given, asked) <==> given.params.len() == asked.params.len() && same_types(
            s,
            asked.return_type,
            given.return_type,
        ) && forall|i: int|
            0 <= i < given.params.len() ==> ({
                let expected = if i == 0 && ty(s.types, asked.params[i].ty) is Interface {
                    owner
                } else {
                    asked.params[i].ty
                };
                &&& (#[trigger] given.params[i]).name == asked.params[i].name
                &&& given.params[i].view == asked.params[i].view
                &&& same_types(s, expected, given.params[i].ty)
            }),
{
    if implements(s, owner, given, asked) {
        assert forall|i: int| 0 <= i < given.params.len() implies ({
            let expected = if i == 0 && ty(s.types, asked.params[i].ty) is Interface {
                owner
            } else {
                asked.params[i].ty
            };
            &&& (#[trigger] given.params[i]).name == asked.params[i].name
            &&& given.params[i].view == asked.params[i].view
            &&& same_types(s, expected, given.params[i].ty)
        }) by {
            assert(param_implements(s, owner, given.params[i], asked.params[i], i == 0));
        }
    }
}

/// A method that is implemented twice, that the interface does not have, or that is not what
/// the interface asks for is reported; any other is not.
pub proof fn law_implemented_methods(
    s: State,
    interface: InterfaceShapeV,
    impls: Map<Seq<char>, FunctionSigV>,
    owner: TypeId,
    methods: Seq<FunctionDef>,
    i: nat,
)
    requires
        i < methods.len(),
    ensures
        ({
            let name = methods[i as int].name;
            let twice = exists|j: int| 0 <= j < i && (#[trigger] methods[j]).name.name@ == name.name@;
            let asked = sig_named(interface.methods, name.name@, 0);
            validate_methods(s, interface, impls, owner, methods, i) == validate_methods(
                if twice {
                    with_report(
                        s,
                        ErrorCode::DuplicateImplementedMethod,
                        name.span,
                        seq![name_of(s.types, owner), name.name@],
                    )
                } else if asked is None {
                    with_report(
                        s,
                        ErrorCode::InterfaceHasNoMember,
                        name.span,
                        seq![interface.name, name.name@],
                    )
                } else if !impls.contains_key(name.name@) || !implements(
                    s,
                    owner,
                    impls[name.name@],
                    asked->0,
                ) {
                    with_report(
                        s,
                        ErrorCode::ImplementedMethodSignatureMismatch,
                        name.span,
                        seq![interface.name, name_of(s.types, owner), name.name@],
                    )
                } else {
                    s
                },
                interface,
                impls,
                owner,
                methods,
                i + 1,
            )
        }),
        validate_methods(s, interface, impls, owner, methods, methods.len()) == s,
{
}

/// Each method of the interface that the block does not hold is reported.
pub proof fn law_missing_methods(s: State, interface: InterfaceShapeV, owner: TypeId, block: ImplementBlock, i: nat)
    ensures
        missing_methods(s, interface, owner, block, i) == if i >= interface.methods.len() {
            s
        } else {
            let name = interface.methods[i as int].name;
            let there = exists|j: int|
                0 <= j < block.methods@.len() && (#[trigger] block.methods@[j]).name.name@ == name;
            missing_methods(
                if there {
                    s
                } else {
                    with_report(
                        s,
                        ErrorCode::MissingImplementedMethod,
                        block.span,
                        seq![interface.name, name_of(s.types, owner), name],
                    )
                },
                interface,
                owner,
                block,
                i + 1,
            )
        },
{
}

/// Only an interface is implemented. Its methods are looked at first, then what is missing.
pub proof fn law_implement_blocks(s: State, block: ImplementBlock)
    ensures
        ({
            let (s1, id, owner) = implement_types(s, block);
            let after = validate_implement(s, block);
            if id == TypeInterner::ERROR || owner == TypeInterner::ERROR {
                after == s1
            } else {
                match ty(s1.types, id) {
                    Type::Interface(iid) => {
                        let interface = s1.types.interfaces[iid.0 as int];
                        s1.impls.contains_key((id, owner)) ==> after == missing_methods(
                            validate_methods(
                                s1,
                                interface,
                                s1.impls[(id, owner)],
                                owner,
                                block.methods@,
                                0,
                            ),
                            interface,
                            owner,
                            block,
                            0,
                        )
                    },
                    _ => after == with_report(
                        s1,
                        ErrorCode::ExpectedInterface,
                        block.interface_name.span,
                        seq![block.interface_name.name@],
                    ),
                }
            }
        }),
        ({
            let (s1, interface) = named_at(
                s,
                block.interface_name.name@,
                block.interface_name.span,
                nesting(),
            );
            let (s2, owner) = resolve_type(s1, block.for_type);
            implement_types(s, block) == (s2, interface, owner)
        }),
{
}

// ---------------------------------------------------------------------------
// Mutual blocks
// ---------------------------------------------------------------------------

/// A declared function has to be written, and to be what was declared. What is not so is
/// reported.
pub proof fn law_declared_functions_are_written(
    s: State,
    decl: FunctionDecl,
    namespace: Option<Seq<char>>,
    functions: Map<Seq<char>, FunctionDef>,
)
    ensures
        ({
            let full = canonical(namespace, decl.name.name@);
            let after = validate_decl(s, decl, namespace, functions);
            if !functions.contains_key(full) {
                after == with_report(
                    s,
                    ErrorCode::MutualFunctionMissingDefinition,
                    decl.name.span,
                    seq![decl.name.name@],
                )
            } else {
                let (s1, agrees) = function_agrees(s, functions[full], decl);
                if agrees {
                    after == s1
                } else {
                    after == with_report(
                        s1,
                        ErrorCode::MutualSignatureMismatch,
                        functions[full].name.span,
                        seq![decl.name.name@],
                    )
                }
            }
        }),
{
}

/// Every mutual block of a module is looked at under its namespace, and each of its
/// declarations in turn.
pub proof fn law_mutual_blocks_are_looked_at(
    s: State,
    items: Seq<Item>,
    functions: Map<Seq<char>, FunctionDef>,
    place: PlaceV,
    decls: Seq<FunctionDecl>,
    ns: Option<Seq<char>>,
    i: nat,
)
    ensures
        i >= items.len() ==> validate_mutuals(s, items, functions, place, i) == s,
        i < items.len() ==> ({
            let here = next_place(place, items[i as int]);
            validate_mutuals(s, items, functions, place, i) == validate_mutuals(
                match items[i as int] {
                    Item::Mutual(block) => validate_decls(
                        s,
                        block.declarations@,
                        here.namespace,
                        functions,
                        0,
                    ),
                    _ => s,
                },
                items,
                functions,
                here,
                i + 1,
            )
        }),
        validate_decls(s, decls, ns, functions, i) == if i >= decls.len() {
            s
        } else {
            validate_decls(validate_decl(s, decls[i as int], ns, functions), decls, ns, functions, i + 1)
        },
{
    reveal_with_fuel(validate_mutuals, 2);
    reveal_with_fuel(validate_decls, 2);
}

/// The reports of a module are those on types, those on the size of its functions and those on
/// ownership, none of them lost, in this order.
pub proof fn law_reports_of_a_module(names: Names, module: Module, order: Seq<Seq<char>>)
    ensures
        ({
            let s = check_module(first_state(names), module.items@);
            let (s1, told) = metadata_of(s, order);
            let owned = module_reports(
                Surroundings { types: s.types, facades: names.view_facades },
                module,
            );
            let r = checked(names, module, order);
            let (a, b) = (s1.reports.len(), names.complexity.len());
            &&& r.diagnostics.len() == a + b + owned.len()
            &&& forall|i: int| 0 <= i < a ==> r.diagnostics[i] == #[trigger] s1.reports[i]
            &&& forall|i: int| 0 <= i < b ==> r.diagnostics[a + i] == #[trigger] names.complexity[i]
            &&& forall|i: int| 0 <= i < owned.len() ==> r.diagnostics[a + b + i] == #[trigger] owned[i]
            &&& r.type_map == s1.type_map
            &&& r.interner == s1.types
            &&& r.reflection_metadata == told
        }),
{
}

/// A function that is not generic is what was declared where it has as many parameters, each of
/// the same name, type, view and mutability, and the same result type.
pub proof fn law_functions_agree(s: State, f: FunctionDef, decl: FunctionDecl)
    requires
        f.type_params@.len() == 0,
        decl.type_params@.len() == 0,
    ensures
        ({
            let (s1, params) = params_agree(s, f.params@, decl.params@, 0);
            let (s2, a) = resolve_return(s1, f.return_type);
            let (s3, b) = resolve_return(s2, decl.return_type);
            &&& f.params@.len() != decl.params@.len() ==> function_agrees(s, f, decl) == (s, false)
            &&& f.params@.len() == decl.params@.len() && !params ==> function_agrees(s, f, decl) == (s1, false)
            &&& f.params@.len() == decl.params@.len() && params ==> function_agrees(s, f, decl) == (
                s3,
                same_types(s3, b, a),
            )
        }),
{
}

/// Parameters agree where all do, up to the first that does not.
pub proof fn law_parameters_agree(s: State, f: Seq<Param>, decl: Seq<Param>, i: nat)
    ensures
        params_agree(s, f, decl, i) == if i >= f.len() || i >= decl.len() {
            (s, true)
        } else if f[i as int].name.name@ != decl[i as int].name.name@ || f[i as int].view != decl[i as int].view
            || f[i as int].mutable != decl[i as int].mutable {
            (s, false)
        } else {
            let (s1, a) = resolve_type(s, f[i as int].ty);
            let (s2, b) = resolve_type(s1, decl[i as int].ty);
            if same_types(s2, b, a) {
                params_agree(s2, f, decl, i + 1)
            } else {
                (s2, false)
            }
        },
{
}

// ---------------------------------------------------------------------------
// Bodies
// ---------------------------------------------------------------------------

/// The constraint of a refinement is checked as a pure function over a value of the lowest
/// type, and has to be a boolean.
pub proof fn law_constraints_are_booleans(s: State, alias: TypeAlias, namespace: Option<Seq<char>>)
    requires
        !alias.root_exported,
        alias.constraint is Some,
        ({
            let (s1, id) = alias_at(
                s,
                canonical(namespace, alias.name.name@),
                alias.name.span,
                nesting(),
            );
            refinement_base(s1.types, id) is Some
        }),
    ensures
        ({
            let full = canonical(namespace, alias.name.name@);
            let constraint = alias.constraint->0;
            let (s1, id) = alias_at(s, full, alias.name.span, nesting());
            let inside = with_variable(
                State {
                    context: ContextV {
                        function_name: Some("type "@ + full),
                        function_pure: true,
                        ..s1.context
                    },
                    ..s1
                },
                expr_span(constraint),
                refinement_boundary_input(s1.types, id),
            );
            let (s2, t) = check_expr(inside, constraint, nesting());
            let after = check_type_alias(s, alias, namespace);
            &&& after.context.function_name == s1.context.function_name
            &&& after.context.function_pure == s1.context.function_pure
            &&& after.reports == if t == TypeInterner::BOOL || t == TypeInterner::ERROR {
                s2.reports
            } else {
                with_report(
                    s2,
                    ErrorCode::RefinementConstraintNotBool,
                    expr_span(constraint),
                    seq![full, name_of(s2.types, t)],
                ).reports
            }
        }),
{
}

/// Functions and methods are checked under their names; methods under their owner's too, each
/// in its turn.
pub proof fn law_bodies_are_checked(s: State, f: FunctionDef, owner: Seq<char>, fs: Seq<FunctionDef>, i: nat)
    ensures
        check_function(s, f) == function_body(s, f, f.name.name@, nesting()),
        check_methods(s, owner, fs, i) == if i >= fs.len() {
            s
        } else {
            check_methods(
                function_body(s, fs[i as int], owner + "."@ + fs[i as int].name.name@, nesting()),
                owner,
                fs,
                i + 1,
            )
        },
{
}

/// Inside of a verify block assertions are allowed and impure calls are not; inside of a
/// property block assertions are, and what is given has its written type. Behind them neither
/// is so.
pub proof fn law_verify_and_property_blocks(
    s: State,
    verify: VerifyBlock,
    property: PropertyBlock,
    givens: Seq<PropertyGiven>,
    i: nat,
)
    ensures
        ({
            let left = check_block(
                State {
                    context: ContextV {
                        in_verify: true,
                        verify_name: Some(verify.name.name@),
                        ..s.context
                    },
                    ..s
                },
                verify.body,
                nesting(),
            );
            let after = check_verify(s, verify);
            &&& after.reports == left.reports
            &&& !after.context.in_verify
            &&& after.context.verify_name is None
        }),
        ({
            let entered = declare_givens(
                State { context: ContextV { in_property: true, ..s.context }, ..s },
                property.givens@,
                0,
            );
            let after = check_property(s, property);
            &&& after.reports == check_block(entered, property.body, nesting()).reports
            &&& !after.context.in_property
        }),
        declare_givens(s, givens, i) == if i >= givens.len() {
            s
        } else {
            let (s1, id) = resolve_type(s, givens[i as int].ty);
            declare_givens(with_variable(s1, givens[i as int].name.span, id), givens, i + 1)
        },
{
}

/// The first value of each state field is held against the field's type. A handler is checked
/// with its message's parameters, the actor's state and its capabilities declared, as a function
/// that responds what the message asks for, and nothing where it asks for `nothing`.
pub proof fn law_actors_are_checked(
    s: State,
    def: ActorDef,
    actor: Seq<char>,
    handler: ReceiveHandler,
    message: ActorMessageShapeV,
    fields: Seq<ActorStateField>,
    i: nat,
)
    ensures
        check_initial(s, fields, i) == if i >= fields.len() {
            s
        } else {
            let f = fields[i as int];
            let (s1, declared) = resolve_type(s, f.ty);
            let (s2, init) = check_expected(s1, f.value, declared, true, nesting());
            check_initial(
                if compatible(s2.types, s2.impls, declared, init) {
                    s2
                } else {
                    with_report(
                        s2,
                        ErrorCode::TypeMismatch,
                        expr_span(f.value),
                        seq![name_of(s2.types, declared), name_of(s2.types, init)],
                    )
                },
                fields,
                i + 1,
            )
        },
        ({
            let entered = State {
                context: ContextV {
                    respond_type: if message.responds == TypeInterner::NOTHING {
                        None
                    } else {
                        Some(message.responds)
                    },
                    return_type: None,
                    function_name: Some(actor + "."@ + handler.name.name@),
                    ..s.context
                },
                ..s
            };
            let s1 = declare_known(entered, handler.params@, message.params, 0);
            let s2 = declare_fields(s1, def.state_fields@, 0);
            let s3 = declare_capabilities(s2, def.capability_params@, 0);
            check_handler(s, def, actor, handler, message) == check_block(s3, handler.body, nesting())
        }),
{
}

/// Parameters whose types are known get them, each at its place; state fields and capabilities
/// get the types that are written.
pub proof fn law_actor_variables(
    s: State,
    params: Seq<Param>,
    known: Seq<NamedTypeV>,
    fields: Seq<ActorStateField>,
    i: nat,
)
    ensures
        declare_known(s, params, known, i) == if i >= params.len() || i >= known.len() {
            s
        } else {
            declare_known(
                with_variable(s, params[i as int].name.span, known[i as int].ty),
                params,
                known,
                i + 1,
            )
        },
        i < fields.len() && definition_at(s.names, fields[i as int].name.span) is Some
            ==> declare_fields(s, fields, i) == ({
            let (s1, id) = resolve_type(s, fields[i as int].ty);
            let def = definition_at(s.names, fields[i as int].name.span)->0;
            declare_fields(
                State { type_env: s1.type_env.insert(def, id), ..s1 },
                fields,
                i + 1,
            )
        }),
        i < params.len() && definition_at(s.names, params[i as int].name.span) is Some
            ==> declare_capabilities(s, params, i) == ({
            let (s1, id) = resolve_type(s, params[i as int].ty);
            let def = definition_at(s.names, params[i as int].name.span)->0;
            declare_capabilities(
                State { type_env: s1.type_env.insert(def, id), ..s1 },
                params,
                i + 1,
            )
        }),
{
}

// ---------------------------------------------------------------------------
// Modules
// ---------------------------------------------------------------------------

/// A module is looked at in turns: aliases are noted, types declared, types filled in,
/// functions and implementations made known, mutual and implement blocks held against what they
/// say, and only then are bodies checked. So an item may use one that stands behind it.
pub proof fn law_modules_are_checked_in_turns(s: State, items: Seq<Item>)
    ensures
        ({
            let s1 = collect_aliases(s, items, start_place(), 0);
            let s2 = predeclare_items(s1, items, start_place(), 0);
            let s3 = finish_items(s2, items, start_place(), 0);
            let s4 = register_items(s3, items, start_place(), 0);
            let written = functions_from(items, start_place(), 0, Map::empty());
            let s5 = validate_mutuals(s4, items, written, start_place(), 0);
            let s6 = validate_implements(s5, items, 0);
            check_module(s, items) == check_items(s6, items, start_place(), 0)
        }),
{
    reveal(check_module);
}

/// In each turn every item is come to once, in its order, under its namespace.
pub proof fn law_every_item_is_come_to(s: State, items: Seq<Item>, place: PlaceV, i: nat)
    requires
        i < items.len(),
    ensures
        ({
            let item = items[i as int];
            let here = next_place(place, item);
            let ns = here.namespace;
            &&& collect_aliases(s, items, place, i) == collect_aliases(
                match item {
                    Item::TypeAlias(a) => State {
                        aliases: s.aliases.insert(
                            if a.root_exported {
                                a.name.name@
                            } else {
                                canonical(ns, a.name.name@)
                            },
                            a,
                        ),
                        ..s
                    },
                    _ => s,
                },
                items,
                here,
                i + 1,
            )
            &&& predeclare_items(s, items, place, i) == predeclare_items(
                predeclare_item(s, item, ns),
                items,
                here,
                i + 1,
            )
            &&& finish_items(s, items, place, i) == finish_items(
                finish_item(s, item, ns),
                items,
                here,
                i + 1,
            )
            &&& register_items(s, items, place, i) == register_items(
                register_item(s, item, ns),
                items,
                here,
                i + 1,
            )
            &&& check_items(s, items, place, i) == check_items(
                check_item(s, item, ns),
                items,
                here,
                i + 1,
            )
        }),
        validate_implements(s, items, i) == validate_implements(
            match items[i as int] {
                Item::Implement(block) => validate_implement(s, block),
                _ => s,
            },
            items,
            i + 1,
        ),
{
}

/// Each kind of item has its own part in each turn.
pub proof fn law_items_by_kind(s: State, item: Item, ns: Option<Seq<char>>)
    ensures
        predeclare_item(s, item, ns) == match item {
            Item::Interface(def) => predeclare_interface(s, def, ns),
            Item::Struct(def) => predeclare_struct(s, def, ns),
            Item::Bitfield(def) => predeclare_bitfield(s, def, ns),
            Item::Enum(def) => predeclare_enum(s, def, ns),
            Item::Machine(def) => predeclare_machine(s, def, ns),
            Item::Actor(def) => predeclare_actor(s, def, ns),
            _ => s,
        },
        finish_item(s, item, ns) == match item {
            Item::Interface(def) => finish_interface(s, def, ns),
            Item::Struct(def) => finish_struct(s, def, ns),
            Item::Bitfield(def) => finish_bitfield(s, def, ns),
            Item::Enum(def) => finish_enum(s, def, ns),
            Item::Machine(def) => finish_machine(s, def, ns),
            Item::Actor(def) => finish_actor(s, def, ns),
            _ => s,
        },
        register_item(s, item, ns) == match item {
            Item::Mutual(block) => register_mutual(s, block.declarations@, ns, 0),
            Item::Function(f) => register_function(s, f, ns),
            Item::Interface(def) => interface_purity(
                s,
                canonical(ns, def.name.name@),
                def.methods@,
                0,
            ),
            Item::Implement(block) => register_implement(s, block),
            Item::Struct(def) => struct_purity(s, canonical(ns, def.name.name@), def.methods@, 0),
            _ => s,
        },
        check_item(s, item, ns) == match item {
            Item::TypeAlias(alias) => check_type_alias(s, alias, ns),
            Item::Function(f) => if f.type_params@.len() == 0 {
                check_function(s, f)
            } else {
                s
            },
            Item::Implement(block) => {
                let (s1, owner) = resolve_type(s, block.for_type);
                check_methods(s1, name_of(s1.types, owner), block.methods@, 0)
            },
            Item::Struct(def) => check_methods(s, canonical(ns, def.name.name@), def.methods@, 0),
            Item::Actor(def) => check_actor(s, def, ns),
            Item::VarDecl(decl) => check_var_decl(s, decl, nesting()),
            Item::Verify(block) => check_verify(s, block),
            Item::Property(block) => check_property(s, block),
            _ => s,
        },
{
}

} // verus!
