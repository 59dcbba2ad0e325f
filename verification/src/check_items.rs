//! Items of a module: aliases, actors, implementations, verify and property blocks.
use vstd::prelude::*;

use crate::ast::{
    expr_span, ActorDef, ActorStateField, FunctionDef, ImplementBlock, Param, PropertyBlock,
    PropertyGiven, ReceiveHandler, TypeAlias, VerifyBlock,
};
use crate::check_blocks::check_block;
use crate::check_calls::function_body;
use crate::check_exprs::{check_expected, check_expr};
use crate::check_rules::{declare, expect_type, report2};
use crate::declare::{declared_type, same_messages};
use crate::diagnostics::ErrorCode;
use crate::names::{canonical, canonical_name};
use crate::resolution::definition_at;
use crate::state::{ContextV, State, TypeChecker};
use crate::steady::{has, has_fields, has_messages, known, known_definitions, stays, stays_rescoped};
use crate::table::{views, Dup};
use crate::text::{dup_text, join2, join3, maybe_text};
use crate::type_names::name_of;
use crate::type_rules::{refinement_base, refinement_boundary_input};
use crate::types::{
    ActorMessageShape, ActorMessageShapeV, NamedType, NamedTypeV, Type, TypeInterner,
};
use crate::written_types::{alias_at, nesting, resolve_type};

verus! {

broadcast use {crate::steady::group_staying, crate::steady::group_steady};

/// The full name of an alias. One that is exported from the root has no
/// namespace.
pub open spec fn alias_name(alias: TypeAlias, namespace: Option<Seq<char>>) -> Seq<char> {
    if alias.root_exported {
        alias.name.name@
    } else {
        canonical(namespace, alias.name.name@)
    }
}

pub fn type_alias_canonical_name(alias: &TypeAlias, namespace: &Option<String>) -> (r: String)
    ensures
        r@ == alias_name(*alias, maybe_text(*namespace)),
{
    if alias.root_exported {
        alias.name.name.clone()
    } else {
        canonical_name(namespace, &alias.name.name)
    }
}

/// The constraint of a refinement is a pure `bool` over its value.
pub open spec fn check_type_alias(s: State, alias: TypeAlias, namespace: Option<Seq<char>>) -> State {
    let full = alias_name(alias, namespace);
    let (s1, id) = alias_at(s, full, alias.name.span, nesting());
    if alias.root_exported || alias.constraint is None || refinement_base(s1.types, id) is None {
        s1
    } else {
        let constraint = alias.constraint->0;
        let s2 = State {
            context: ContextV {
                function_name: Some("type "@ + full),
                function_pure: true,
                ..s1.context
            },
            ..s1
        };
        let s3 = declare(s2, expr_span(constraint), refinement_boundary_input(s1.types, id));
        let (s4, t) = check_expr(s3, constraint, nesting());
        let s5 = if t == TypeInterner::ERROR || t == TypeInterner::BOOL {
            s4
        } else {
            report2(
                s4,
                ErrorCode::RefinementConstraintNotBool,
                expr_span(constraint),
                full,
                name_of(s4.types, t),
            )
        };
        State {
            context: ContextV {
                function_name: s1.context.function_name,
                function_pure: s1.context.function_pure,
                ..s5.context
            },
            ..s5
        }
    }
}

// ---------------------------------------------------------------------------
// Actors
// ---------------------------------------------------------------------------

/// Declares parameters from `i` on with types that are known.
pub open spec fn declare_known(s: State, params: Seq<Param>, known: Seq<NamedTypeV>, i: nat) -> State
    decreases params.len() - i,
{
    if i >= params.len() || i >= known.len() {
        s
    } else {
        declare_known(
            declare(s, params[i as int].name.span, known[i as int].ty),
            params,
            known,
            i + 1,
        )
    }
}

/// The first values of state fields from `i` on.
pub open spec fn check_initial(s: State, fields: Seq<ActorStateField>, i: nat) -> State
    decreases fields.len() - i,
{
    if i >= fields.len() {
        s
    } else {
        let f = fields[i as int];
        let (s1, declared) = resolve_type(s, f.ty);
        let (s2, init) = check_expected(s1, f.value, declared, true, nesting());
        check_initial(expect_type(s2, declared, init, expr_span(f.value)), fields, i + 1)
    }
}

/// Declares state fields from `i` on that have a definition.
pub open spec fn declare_fields(s: State, fields: Seq<ActorStateField>, i: nat) -> State
    decreases fields.len() - i,
{
    if i >= fields.len() {
        s
    } else {
        let f = fields[i as int];
        let s2 = if definition_at(s.names, f.name.span) is Some {
            let (s1, id) = resolve_type(s, f.ty);
            State {
                type_env: s1.type_env.insert(definition_at(s.names, f.name.span)->0, id),
                ..s1
            }
        } else {
            s
        };
        declare_fields(s2, fields, i + 1)
    }
}

/// Declares parameters from `i` on that have a definition.
pub open spec fn declare_capabilities(s: State, params: Seq<Param>, i: nat) -> State
    decreases params.len() - i,
{
    if i >= params.len() {
        s
    } else {
        let p = params[i as int];
        let s2 = if definition_at(s.names, p.name.span) is Some {
            let (s1, id) = resolve_type(s, p.ty);
            State {
                type_env: s1.type_env.insert(definition_at(s.names, p.name.span)->0, id),
                ..s1
            }
        } else {
            s
        };
        declare_capabilities(s2, params, i + 1)
    }
}

/// A handler answers with the type that its message asks for.
pub open spec fn check_handler(
    s: State,
    def: ActorDef,
    actor: Seq<char>,
    handler: ReceiveHandler,
    message: ActorMessageShapeV,
) -> State {
    let s1 = State {
        context: ContextV {
            respond_type: if message.responds == TypeInterner::NOTHING {
                None
            } else {
                Some(message.responds)
            },
            return_type: None,
            function_name: Some(actor + "."@ + handler.name.name@),
            ..s.context
        },
        ..s
    };
    let s2 = declare_known(s1, handler.params@, message.params, 0);
    let s3 = declare_fields(s2, def.state_fields@, 0);
    let s4 = declare_capabilities(s3, def.capability_params@, 0);
    check_block(s4, handler.body, nesting())
}

pub open spec fn check_handlers(
    s: State,
    def: ActorDef,
    actor: Seq<char>,
    messages: Seq<ActorMessageShapeV>,
    i: nat,
) -> State
    decreases def.handlers@.len() - i,
{
    if i >= def.handlers@.len() || i >= messages.len() {
        s
    } else {
        check_handlers(
            check_handler(s, def, actor, def.handlers@[i as int], messages[i as int]),
            def,
            actor,
            messages,
            i + 1,
        )
    }
}

pub open spec fn check_actor(s: State, def: ActorDef, namespace: Option<Seq<char>>) -> State {
    match declared_type(s, canonical(namespace, def.name.name@)) {
        Some(Type::Actor(aid)) => {
            let actor = s.types.actors[aid.0 as int];
            let s1 = declare_known(s, def.capability_params@, actor.capability_params, 0);
            let s2 = check_initial(s1, def.state_fields@, 0);
            let s3 = check_handlers(s2, def, actor.name, actor.messages, 0);
            State {
                context: ContextV {
                    return_type: s2.context.return_type,
                    respond_type: s2.context.respond_type,
                    function_name: s2.context.function_name,
                    ..s3.context
                },
                ..s3
            }
        },
        _ => s,
    }
}

// ---------------------------------------------------------------------------
// Functions and blocks
// ---------------------------------------------------------------------------

pub open spec fn check_function(s: State, f: FunctionDef) -> State {
    function_body(s, f, f.name.name@, nesting())
}

/// The bodies of methods from `i` on.
pub open spec fn check_methods(s: State, owner: Seq<char>, fs: Seq<FunctionDef>, i: nat) -> State
    decreases fs.len() - i,
{
    if i >= fs.len() {
        s
    } else {
        let f = fs[i as int];
        check_methods(
            function_body(s, f, owner + "."@ + f.name.name@, nesting()),
            owner,
            fs,
            i + 1,
        )
    }
}

pub open spec fn check_implement(s: State, block: ImplementBlock) -> State {
    let (s1, owner) = resolve_type(s, block.for_type);
    check_methods(s1, name_of(s1.types, owner), block.methods@, 0)
}

pub open spec fn check_verify(s: State, block: VerifyBlock) -> State {
    let s1 = State {
        context: ContextV {
            in_verify: true,
            verify_name: Some(block.name.name@),
            ..s.context
        },
        ..s
    };
    let s2 = check_block(s1, block.body, nesting());
    State { context: ContextV { in_verify: false, verify_name: None, ..s2.context }, ..s2 }
}

pub open spec fn declare_givens(s: State, givens: Seq<PropertyGiven>, i: nat) -> State
    decreases givens.len() - i,
{
    if i >= givens.len() {
        s
    } else {
        let (s1, id) = resolve_type(s, givens[i as int].ty);
        declare_givens(declare(s1, givens[i as int].name.span, id), givens, i + 1)
    }
}

pub open spec fn check_property(s: State, block: PropertyBlock) -> State {
    let s1 = State { context: ContextV { in_property: true, ..s.context }, ..s };
    let s2 = declare_givens(s1, block.givens@, 0);
    let s3 = check_block(s2, block.body, nesting());
    State { context: ContextV { in_property: false, ..s3.context }, ..s3 }
}

impl<'a> TypeChecker<'a> {
    pub(crate) fn check_type_alias(&mut self, alias: &TypeAlias, namespace: &Option<String>)
        ensures
            stays(old(self)@, final(self)@),
            known(old(self)@) ==> known(final(self)@),
            final(self)@ == check_type_alias(old(self)@, *alias, maybe_text(*namespace)),
    {
        let full = type_alias_canonical_name(alias, namespace);
        let id: usize = self.resolve_type_alias(&full, alias.name.span);
        if alias.root_exported {
            return;
        }
        let constraint = match &alias.constraint {
            Some(c) => c,
            None => {
                return;
            },
        };
        if self.interner().refinement_base_type(id).is_none() {
            return;
        }
        let value: usize = self.interner().refinement_boundary_input_type(id);
        let saved_name = dup_text(&self.get_context().function_name);
        let saved_pure = self.get_context().function_pure;
        let mut context = self.get_context().dup();
        context.function_name = Some(join2("type ", full.as_str()));
        context.function_pure = true;
        self.set_context(context);
        self.declare(constraint.span(), value);
        let t: usize = self.check_expr(constraint, Ghost(nesting()));
        if t != TypeInterner::ERROR && t != TypeInterner::BOOL {
            let got = self.name_of(t);
            self.report2(ErrorCode::RefinementConstraintNotBool, constraint.span(), full, got);
        }
        let mut context = self.get_context().dup();
        context.function_name = saved_name;
        context.function_pure = saved_pure;
        self.set_context(context);
    }

    fn declare_known(&mut self, params: &Vec<Param>, types: &Vec<NamedType>)
        ensures
            stays(old(self)@, final(self)@),
            known(old(self)@) && has_fields(old(self)@, views(types@)) ==> known(final(self)@),
            final(self)@ == declare_known(old(self)@, params@, views(types@), 0),
    {
        let ghost ks = views(types@);
        let mut i: usize = 0;
        while i < params.len() && i < types.len()
            invariant
                stays(old(self)@, self@),
                known(old(self)@) && has_fields(old(self)@, views(types@)) ==> known(self@),
                i <= params@.len(),
                i <= types@.len(),
                ks == views(types@),
                declare_known(self@, params@, ks, i as nat) == declare_known(
                    old(self)@,
                    params@,
                    ks,
                    0,
                ),
            decreases params@.len() - i,
        {
            assert(ks[i as int] == types@[i as int]@);
            self.declare(params[i].name.span, types[i].ty);
            i = i + 1;
        }
    }

    fn check_initial(&mut self, fields: &Vec<ActorStateField>)
        ensures
            stays(old(self)@, final(self)@),
            known(old(self)@) ==> known(final(self)@),
            final(self)@ == check_initial(old(self)@, fields@, 0),
    {
        let mut i: usize = 0;
        while i < fields.len()
            invariant
                stays(old(self)@, self@),
                known(old(self)@) ==> known(self@),
                i <= fields@.len(),
                check_initial(self@, fields@, i as nat) == check_initial(old(self)@, fields@, 0),
            decreases fields@.len() - i,
        {
            let f = &fields[i];
            let declared: usize = self.resolve_type_expr(&f.ty);
            let init: usize = self.check_expr_for_expected(&f.value, declared, true, Ghost(nesting()));
            self.expect_type(declared, init, f.value.span());
            i = i + 1;
        }
    }

    fn declare_fields(&mut self, fields: &Vec<ActorStateField>)
        ensures
            stays(old(self)@, final(self)@),
            known(old(self)@) ==> known(final(self)@),
            final(self)@ == declare_fields(old(self)@, fields@, 0),
    {
        let mut i: usize = 0;
        while i < fields.len()
            invariant
                stays(old(self)@, self@),
                known(old(self)@) ==> known(self@),
                i <= fields@.len(),
                declare_fields(self@, fields@, i as nat) == declare_fields(old(self)@, fields@, 0),
            decreases fields@.len() - i,
        {
            let f = &fields[i];
            if let Some(def) = self.names().declaration_def_id(f.name.span) {
                let id: usize = self.resolve_type_expr(&f.ty);
                self.put_type_env(def, id);
            }
            i = i + 1;
        }
    }

    fn declare_capabilities(&mut self, params: &Vec<Param>)
        ensures
            stays(old(self)@, final(self)@),
            known(old(self)@) ==> known(final(self)@),
            final(self)@ == declare_capabilities(old(self)@, params@, 0),
    {
        let mut i: usize = 0;
        while i < params.len()
            invariant
                stays(old(self)@, self@),
                known(old(self)@) ==> known(self@),
                i <= params@.len(),
                declare_capabilities(self@, params@, i as nat) == declare_capabilities(
                    old(self)@,
                    params@,
                    0,
                ),
            decreases params@.len() - i,
        {
            let p = &params[i];
            if let Some(def) = self.names().declaration_def_id(p.name.span) {
                let id: usize = self.resolve_type_expr(&p.ty);
                self.put_type_env(def, id);
            }
            i = i + 1;
        }
    }

    fn check_handler(
        &mut self,
        def: &ActorDef,
        actor: &String,
        handler: &ReceiveHandler,
        message: &ActorMessageShape,
    )
        ensures
            stays(old(self)@, final(self)@),
            known(old(self)@) && has(old(self)@, message.responds) && has_fields(old(self)@, views(message.params@))
                ==> known(final(self)@),
            final(self)@ == check_handler(old(self)@, *def, actor@, *handler, message@),
    {
        let mut context = self.get_context().dup();
        context.respond_type =
        if message.responds == TypeInterner::NOTHING {
            None
        } else {
            Some(message.responds)
        };
        context.return_type = None;
        context.function_name = Some(join3(actor.as_str(), ".", handler.name.name.as_str()));
        self.set_context(context);
        self.declare_known(&handler.params, &message.params);
        self.declare_fields(&def.state_fields);
        self.declare_capabilities(&def.capability_params);
        self.check_block(&handler.body, Ghost(nesting()));
    }

    fn check_handlers(&mut self, def: &ActorDef, actor: &String, messages: &Vec<ActorMessageShape>)
        ensures
            stays(old(self)@, final(self)@),
            known(old(self)@) && has_messages(old(self)@, views(messages@)) ==> known(final(self)@),
            final(self)@ == check_handlers(old(self)@, *def, actor@, views(messages@), 0),
    {
        let ghost ms = views(messages@);
        let mut i: usize = 0;
        while i < def.handlers.len() && i < messages.len()
            invariant
                stays(old(self)@, self@),
                known(old(self)@) && has_messages(old(self)@, views(messages@)) ==> known(self@),
                i <= def.handlers@.len(),
                i <= messages@.len(),
                ms == views(messages@),
                check_handlers(self@, *def, actor@, ms, i as nat) == check_handlers(
                    old(self)@,
                    *def,
                    actor@,
                    ms,
                    0,
                ),
            decreases def.handlers@.len() - i,
        {
            assert(ms[i as int] == messages@[i as int]@);
            proof {
                if has_messages(old(self)@, ms) {
                    same_messages(old(self)@, self@, ms);
                }
            }
            self.check_handler(def, actor, &def.handlers[i], &messages[i]);
            i = i + 1;
        }
    }

    pub(crate) fn check_actor(&mut self, def: &ActorDef, namespace: &Option<String>)
        ensures
            stays(old(self)@, final(self)@),
            known(old(self)@) ==> known(final(self)@),
            final(self)@ == check_actor(old(self)@, *def, maybe_text(*namespace)),
    {
        let full = canonical_name(namespace, &def.name.name);
        let id: usize = match self.get_named_types(&full) {
            Some(id) => id,
            None => {
                return;
            },
        };
        if let Type::Actor(aid) = self.interner().resolve(id) {
            let actor = self.interner().resolve_actor(aid).dup();
            let ghost start = self@;
            proof {
                if known(start) {
                    known_definitions(start);
                }
            }
            self.declare_known(&def.capability_params, &actor.capability_params);
            self.check_initial(&def.state_fields);
            let before = self.get_context().dup();
            proof {
                if known(start) {
                    same_messages(start, self@, actor@.messages);
                }
            }
            self.check_handlers(def, &actor.name, &actor.messages);
            let mut context = self.get_context().dup();
            context.return_type = before.return_type;
            context.respond_type = before.respond_type;
            context.function_name = before.function_name;
            self.set_context(context);
        }
    }

    pub(crate) fn check_function(&mut self, f: &FunctionDef)
        ensures
            stays(old(self)@, final(self)@),
            known(old(self)@) ==> known(final(self)@),
            final(self)@ == check_function(old(self)@, *f),
    {
        self.check_function_impl(f, f.name.name.clone(), Ghost(nesting()));
        proof {
            let inside = State { context: old(self)@.context, ..self@ };
            stays_rescoped(old(self)@, inside, self@);
        }
    }

    fn check_method(&mut self, owner: &String, f: &FunctionDef)
        ensures
            stays(old(self)@, final(self)@),
            known(old(self)@) ==> known(final(self)@),
            final(self)@ == function_body(
                old(self)@,
                *f,
                owner@ + "."@ + f.name.name@,
                nesting(),
            ),
    {
        self.check_function_impl(
            f,
            join3(owner.as_str(), ".", f.name.name.as_str()),
            Ghost(nesting()),
        );
        proof {
            let inside = State { context: old(self)@.context, ..self@ };
            stays_rescoped(old(self)@, inside, self@);
        }
    }

    pub(crate) fn check_methods(&mut self, owner: &String, fs: &Vec<FunctionDef>)
        ensures
            stays(old(self)@, final(self)@),
            known(old(self)@) ==> known(final(self)@),
            final(self)@ == check_methods(old(self)@, owner@, fs@, 0),
    {
        let mut i: usize = 0;
        while i < fs.len()
            invariant
                stays(old(self)@, self@),
                known(old(self)@) ==> known(self@),
                i <= fs@.len(),
                check_methods(self@, owner@, fs@, i as nat) == check_methods(
                    old(self)@,
                    owner@,
                    fs@,
                    0,
                ),
            decreases fs@.len() - i,
        {
            self.check_method(owner, &fs[i]);
            i = i + 1;
        }
    }

    pub(crate) fn check_implement_block(&mut self, block: &ImplementBlock)
        ensures
            stays(old(self)@, final(self)@),
            known(old(self)@) ==> known(final(self)@),
            final(self)@ == check_implement(old(self)@, *block),
    {
        let owner: usize = self.resolve_type_expr(&block.for_type);
        let name = self.name_of(owner);
        self.check_methods(&name, &block.methods);
    }

    pub(crate) fn check_verify_block(&mut self, block: &VerifyBlock)
        ensures
            stays(old(self)@, final(self)@),
            known(old(self)@) ==> known(final(self)@),
            final(self)@ == check_verify(old(self)@, *block),
    {
        let mut context = self.get_context().dup();
        context.in_verify = true;
        context.verify_name = Some(block.name.name.clone());
        self.set_context(context);
        self.check_block(&block.body, Ghost(nesting()));
        let mut context = self.get_context().dup();
        context.in_verify = false;
        context.verify_name = None;
        self.set_context(context);
    }

    fn declare_givens(&mut self, givens: &Vec<PropertyGiven>)
        ensures
            stays(old(self)@, final(self)@),
            known(old(self)@) ==> known(final(self)@),
            final(self)@ == declare_givens(old(self)@, givens@, 0),
    {
        let mut i: usize = 0;
        while i < givens.len()
            invariant
                stays(old(self)@, self@),
                known(old(self)@) ==> known(self@),
                i <= givens@.len(),
                declare_givens(self@, givens@, i as nat) == declare_givens(old(self)@, givens@, 0),
            decreases givens@.len() - i,
        {
            let id: usize = self.resolve_type_expr(&givens[i].ty);
            self.declare(givens[i].name.span, id);
            i = i + 1;
        }
    }

    pub(crate) fn check_property_block(&mut self, block: &PropertyBlock)
        ensures
            stays(old(self)@, final(self)@),
            known(old(self)@) ==> known(final(self)@),
            final(self)@ == check_property(old(self)@, *block),
    {
        let mut context = self.get_context().dup();
        context.in_property = true;
        self.set_context(context);
        self.declare_givens(&block.givens);
        self.check_block(&block.body, Ghost(nesting()));
        let mut context = self.get_context().dup();
        context.in_property = false;
        self.set_context(context);
    }
}

} // verus!
