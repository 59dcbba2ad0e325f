//! Pipelines: a value goes through one function after the other.
use vstd::prelude::*;

use crate::ast::{expr_span, CallArg, Expr, FunctionDef, PipelineStep, TypeExpr};
use crate::builtin_calls::{builtin_signature, maybe_shape};
use crate::check_calls::{
    absolute, args_match, bind_kinds, can_enter, expect_no_types, generic_signature, instantiate,
    or_words, smaller_or_greater, type_param_count, Generic, GenericUse,
};
use crate::check_exprs::{check_expected, check_expr, each_arg, handle};
use crate::check_rules::{
    call_result, callee_pure, compare_report, expect_type, json_policy, piped_argument,
    place_label, place_text, purity_reports, report1, wrong_argument_count,
};
use crate::diagnostics::ErrorCode;
use crate::facts::{no_facts, ReflectionParamFacts};
use crate::names::expr_name;
use crate::resolve_types::{bind_type_params, known_bindings};
use crate::span::Span;
use crate::state::{State, TypeChecker};
use crate::steady::{has, has_all, has_maybe, has_shape, has_values, keeps, known};
use crate::table::{look, Dup};
use crate::text::{maybe_text, same_text, text};
use crate::type_rules::compatible;
use crate::types::{FunctionShape, FunctionShapeV, TypeId, TypeInterner};
use crate::written_types::{bind_params, resolve_types};

verus! {

broadcast use crate::steady::group_steady;

/// The function of a step, without the `view` before it.
pub open spec fn step_function(step: PipelineStep) -> Expr {
    match step.function {
        Expr::View(inner, _) => *inner,
        f => f,
    }
}

pub open spec fn step_callee(step: PipelineStep) -> Expr {
    match step_function(step) {
        Expr::GenericCall(callee, _, _, _) => *callee,
        f => f,
    }
}

pub open spec fn step_type_args(step: PipelineStep) -> Seq<TypeExpr> {
    match step_function(step) {
        Expr::GenericCall(_, type_args, _, _) => type_args@,
        _ => Seq::empty(),
    }
}

/// The arguments of a step besides the value that goes in.
pub open spec fn step_args(step: PipelineStep) -> Vec<CallArg> {
    match step_function(step) {
        Expr::GenericCall(_, _, args, _) => args,
        _ => step.extra_args,
    }
}

pub open spec fn check_steps(s: State, current: TypeId, steps: Vec<PipelineStep>, i: nat, d: nat) -> (
    State,
    TypeId,
)
    decreases 3 * d + 1, steps, steps@.len() - i,
{
    if i >= steps@.len() {
        (s, current)
    } else {
        let (s1, t) = check_step(s, current, steps@[i as int], d);
        check_steps(s1, t, steps, i + 1, d)
    }
}

pub open spec fn check_step(s: State, current: TypeId, step: PipelineStep, d: nat) -> (State, TypeId)
    decreases 3 * d + 1, step, 3nat,
{
    let (s1, t) = step_call(s, current, step, d);
    match step.handle {
        Some(h) => handle(s1, t, h.error_name, h.body, h.span, d),
        None => (s1, t),
    }
}

pub open spec fn abs_step(
    s: State,
    name: Seq<char>,
    current: TypeId,
    type_args: Seq<TypeExpr>,
    args: Vec<CallArg>,
    span: Span,
    d: nat,
) -> (State, TypeId)
    decreases 3 * d + 1, args, args@.len() + 3,
{
    let s1 = expect_no_types(s, name, type_args, span);
    if args@.len() != 0 {
        (
            each_arg(wrong_argument_count(s1, name, 1, args@.len() + 1, span), args, 0, d),
            TypeInterner::ERROR,
        )
    } else {
        absolute(s1, "#1"@, current, span)
    }
}

pub open spec fn min_max_step(
    s: State,
    name: Seq<char>,
    current: TypeId,
    type_args: Seq<TypeExpr>,
    args: Vec<CallArg>,
    span: Span,
    d: nat,
) -> (State, TypeId)
    decreases 3 * d + 1, args, args@.len() + 3,
{
    let s1 = expect_no_types(s, name, type_args, span);
    if args@.len() != 1 {
        (
            each_arg(wrong_argument_count(s1, name, 2, args@.len() + 1, span), args, 0, d),
            TypeInterner::ERROR,
        )
    } else {
        smaller_or_greater(s1, current, "#1"@, span, args@[0].value, "#2"@, d)
    }
}

/// `value |> name[T](args)` where `name` is a generic function.
pub open spec fn generic_step(
    s: State,
    name: Seq<char>,
    f: FunctionDef,
    current: TypeId,
    type_args: Seq<TypeExpr>,
    args: Vec<CallArg>,
    span: Span,
    d: nat,
) -> (State, TypeId)
    decreases 3 * d + 1, args, args@.len() + 3,
{
    let (s1, ids) = resolve_types(s, type_args, 0, Seq::empty());
    if f.type_params@.len() != ids.len() {
        (
            each_arg(
                type_param_count(s1, name, f.type_params@.len(), ids.len(), span),
                args,
                0,
                d,
            ),
            TypeInterner::ERROR,
        )
    } else {
        let subst = bind_params(Map::empty(), f.type_params@, ids, 0);
        let kinds = bind_kinds(s1, Map::empty(), f.type_params@, type_args, ids, 0);
        let (s2, sig) = generic_signature(s1, f, subst);
        if args@.len() + 1 != sig.params.len() {
            (
                each_arg(
                    wrong_argument_count(s2, name, sig.params.len(), args@.len() + 1, span),
                    args,
                    0,
                    d,
                ),
                TypeInterner::ERROR,
            )
        } else {
            let first = compatible(s2.types, s2.impls, sig.params[0], current);
            let s3 = expect_type(s2, sig.params[0], current, span);
            let (s4, fits) = args_match(s3, args, sig.params, 1, 0, first, d);
            if fits {
                (
                    instantiate(
                        s4,
                        f,
                        Generic { name, args: ids, subst, kinds, facts: no_facts() },
                        d,
                    ),
                    sig.return_type,
                )
            } else {
                (s4, sig.return_type)
            }
        }
    }
}

/// The arguments of a step from `i` on, behind the value that goes in.
pub open spec fn piped_args(
    s: State,
    name: Option<Seq<char>>,
    pure: bool,
    params: Seq<TypeId>,
    args: Vec<CallArg>,
    i: nat,
    found: Seq<TypeId>,
    tainted: bool,
    d: nat,
) -> (State, Seq<TypeId>, bool)
    decreases 3 * d + 1, args, args@.len() - i,
{
    if i >= args@.len() || i + 1 >= params.len() {
        (s, found, tainted)
    } else {
        let value = args@[i as int].value;
        let param = params[i as int + 1];
        let (s1, t) = check_expected(s, value, param, false, d);
        let (s2, lifted) = piped_argument(
            s1,
            name,
            pure,
            place_label(i + 2),
            param,
            t,
            expr_span(value),
        );
        piped_args(s2, name, pure, params, args, i + 1, found.push(t), tainted || lifted, d)
    }
}

/// A step through a function with a known signature.
pub open spec fn signature_step(
    s: State,
    name: Option<Seq<char>>,
    pure: bool,
    sig: FunctionShapeV,
    current: TypeId,
    viewed: bool,
    args: Vec<CallArg>,
    span: Span,
    d: nat,
) -> (State, TypeId)
    decreases 3 * d + 1, args, args@.len() + 3,
{
    if args@.len() + 1 != sig.params.len() {
        (
            each_arg(
                wrong_argument_count(
                    s,
                    or_words(name, "<pipeline step>"@),
                    sig.params.len(),
                    args@.len() + 1,
                    span,
                ),
                args,
                0,
                d,
            ),
            sig.return_type,
        )
    } else {
        let (s1, first) = piped_argument(s, name, pure, "#1"@, sig.params[0], current, span);
        let (s2, types, tainted) = piped_args(
            s1,
            name,
            pure,
            sig.params,
            args,
            0,
            seq![current],
            first,
            d,
        );
        let s3 = compare_report(s2, name, types, span);
        let s4 = json_policy(s3, name, current, viewed, span, sig.return_type);
        call_result(s4, name, pure, tainted, sig.return_type)
    }
}

/// A step whose function has type arguments and is no builtin, where a module
/// function of that name makes sense of them.
pub open spec fn typed_step(
    s: State,
    name: Option<Seq<char>>,
    current: TypeId,
    type_args: Seq<TypeExpr>,
    args: Vec<CallArg>,
    span: Span,
    d: nat,
) -> Option<(State, TypeId)>
    decreases 3 * d + 1, args, args@.len() + 4,
{
    match name {
        None => None,
        Some(n) => if s.function_templates.contains_key(n) {
            Some(
                generic_step(s, n, s.function_templates[n], current, type_args, args, span, d),
            )
        } else if s.signatures.contains_key(n) {
            Some(
                (
                    each_arg(type_param_count(s, n, 0, type_args.len(), span), args, 0, d),
                    TypeInterner::ERROR,
                ),
            )
        } else {
            None
        },
    }
}

/// The signature of the function that a step calls: a builtin's goes before the
/// module's own.
pub open spec fn step_signature(s: State, name: Option<Seq<char>>, builtin: Option<FunctionShapeV>) -> Option<
    FunctionShapeV,
> {
    match builtin {
        Some(sig) => Some(sig),
        None => match name {
            Some(n) => look(s.signatures, n),
            None => None,
        },
    }
}

/// A step through something that has no type arguments that say more.
pub open spec fn plain_step(
    s: State,
    step: PipelineStep,
    name: Option<Seq<char>>,
    pure: bool,
    builtin: Option<FunctionShapeV>,
    current: TypeId,
    d: nat,
) -> (State, TypeId)
    decreases 3 * d + 1, step, 0nat,
{
    let args = step_args(step);
    match step_signature(s, name, builtin) {
        Some(sig) => signature_step(
            s,
            name,
            pure,
            sig,
            current,
            step.function is View,
            args,
            step.span,
            d,
        ),
        None => {
            let (s1, _) = check_expr(s, step_callee(step), d);
            (
                report1(
                    each_arg(s1, args, 0, d),
                    ErrorCode::NotCallable,
                    step.span,
                    or_words(name, "pipeline step"@),
                ),
                TypeInterner::ERROR,
            )
        },
    }
}

pub open spec fn step_call(s: State, current: TypeId, step: PipelineStep, d: nat) -> (State, TypeId)
    decreases 3 * d + 1, step, 1nat,
{
    let callee = step_callee(step);
    let type_args = step_type_args(step);
    let args = step_args(step);
    let name = expr_name(s.names, callee);
    let pure = callee_pure(s, name);
    let s1 = purity_reports(s, name, pure, step.span);
    if name == Some("math.abs"@) {
        abs_step(s1, name->0, current, type_args, args, step.span, d)
    } else if name == Some("math.min"@) || name == Some("math.max"@) {
        min_max_step(s1, name->0, current, type_args, args, step.span, d)
    } else {
        let (s2, builtin) = builtin_signature(s1, callee, type_args, step.span);
        if builtin is None && type_args.len() != 0 {
            match typed_step(s2, name, current, type_args, args, step.span, d) {
                Some(r) => r,
                None => plain_step(s2, step, name, pure, builtin, current, d),
            }
        } else {
            plain_step(s2, step, name, pure, builtin, current, d)
        }
    }
}

impl<'a> TypeChecker<'a> {
    pub(crate) fn check_pipeline(&mut self, initial: TypeId, steps: &Vec<PipelineStep>, Ghost(d): Ghost<nat>) -> (r: TypeId)
        requires
            can_enter(old(self)@, d),
        ensures
            keeps(old(self)@, final(self)@),
            known(old(self)@) && has(old(self)@, initial)
                ==> known(final(self)@) && has(final(self)@, r),
            (final(self)@, r) == check_steps(old(self)@, initial, *steps, 0, d),
        decreases 3 * d + 1, steps, steps@.len() + 1,
    {
        let mut current: usize = initial;
        let mut i: usize = 0;
        while i < steps.len()
            invariant
                can_enter(self@, d),
                keeps(old(self)@, self@),
                known(old(self)@) && has(old(self)@, initial)
                    ==> known(self@) && has(self@, current),
                i <= steps@.len(),
                check_steps(self@, current, *steps, i as nat, d) == check_steps(
                    old(self)@,
                    initial,
                    *steps,
                    0,
                    d,
                ),
            decreases steps@.len() - i,
        {
            current = self.check_pipeline_step(current, &steps[i], Ghost(d));
            i = i + 1;
        }
        current
    }

    fn check_pipeline_step(&mut self, current: TypeId, step: &PipelineStep, Ghost(d): Ghost<nat>) -> (r: TypeId)
        requires
            can_enter(old(self)@, d),
        ensures
            keeps(old(self)@, final(self)@),
            known(old(self)@) && has(old(self)@, current)
                ==> known(final(self)@) && has(final(self)@, r),
            (final(self)@, r) == check_step(old(self)@, current, *step, d),
        decreases 3 * d + 1, step, 3nat,
    {
        let t: usize = self.check_pipeline_step_call(current, step, Ghost(d));
        match &step.handle {
            Some(h) => self.check_handle_with_target_type(t, &h.error_name, &h.body, h.span, Ghost(d)),
            None => t,
        }
    }

    fn check_math_abs_pipeline_step(
        &mut self,
        name: &String,
        current: TypeId,
        type_args: &Vec<TypeExpr>,
        args: &Vec<CallArg>,
        span: Span,
        Ghost(d): Ghost<nat>,
    ) -> (r: TypeId)
        requires
            can_enter(old(self)@, d),
        ensures
            keeps(old(self)@, final(self)@),
            known(old(self)@) && has(old(self)@, current)
                ==> known(final(self)@) && has(final(self)@, r),
            (final(self)@, r) == abs_step(
                old(self)@,
                name@,
                current,
                type_args@,
                *args,
                span,
                d,
            ),
        decreases 3 * d + 1, args, args@.len() + 3,
    {
        self.expect_no_type_args(name, type_args, span);
        if args.len() != 0 {
            self.wrong_argument_count(name.as_str(), 1, args.len() as u128 + 1, span);
            self.check_each_arg(args, 0, Ghost(d));
            return TypeInterner::ERROR;
        }
        self.absolute("#1", current, span)
    }

    fn check_math_min_max_pipeline_step(
        &mut self,
        name: &String,
        current: TypeId,
        type_args: &Vec<TypeExpr>,
        args: &Vec<CallArg>,
        span: Span,
        Ghost(d): Ghost<nat>,
    ) -> (r: TypeId)
        requires
            can_enter(old(self)@, d),
        ensures
            keeps(old(self)@, final(self)@),
            known(old(self)@) && has(old(self)@, current)
                ==> known(final(self)@) && has(final(self)@, r),
            (final(self)@, r) == min_max_step(
                old(self)@,
                name@,
                current,
                type_args@,
                *args,
                span,
                d,
            ),
        decreases 3 * d + 1, args, args@.len() + 3,
    {
        self.expect_no_type_args(name, type_args, span);
        if args.len() != 1 {
            self.wrong_argument_count(name.as_str(), 2, args.len() as u128 + 1, span);
            self.check_each_arg(args, 0, Ghost(d));
            return TypeInterner::ERROR;
        }
        self.smaller_or_greater(current, "#1", span, &args[0].value, "#2", Ghost(d))
    }

    fn check_generic_function_pipeline_step(
        &mut self,
        name: &String,
        f: &FunctionDef,
        current: TypeId,
        type_args: &Vec<TypeExpr>,
        args: &Vec<CallArg>,
        span: Span,
        Ghost(d): Ghost<nat>,
    ) -> (r: TypeId)
        requires
            can_enter(old(self)@, d),
        ensures
            keeps(old(self)@, final(self)@),
            known(old(self)@) && has(old(self)@, current)
                ==> known(final(self)@) && has(final(self)@, r),
            (final(self)@, r) == generic_step(
                old(self)@,
                name@,
                *f,
                current,
                type_args@,
                *args,
                span,
                d,
            ),
        decreases 3 * d + 1, args, args@.len() + 3,
    {
        let ids = self.resolve_type_list(type_args);
        if f.type_params.len() != ids.len() {
            self.type_param_count(name, f.type_params.len(), ids.len(), span);
            self.check_each_arg(args, 0, Ghost(d));
            return TypeInterner::ERROR;
        }
        let kinds = self.bind_kinds(&f.type_params, type_args, &ids);
        let ghost bindings = bind_params(Map::empty(), f.type_params@, ids@, 0);
        let ghost resolved = self@;
        proof {
            if has_all(resolved, ids@) {
                known_bindings(resolved, Map::empty(), f.type_params@, ids@, 0);
            }
        }
        let sig = self.generic_signature(f, bind_type_params(&f.type_params, &ids));
        if sig.params.len() == 0 || args.len() != sig.params.len() - 1 {
            self.wrong_argument_count(
                name.as_str(),
                sig.params.len() as u128,
                args.len() as u128 + 1,
                span,
            );
            self.check_each_arg(args, 0, Ghost(d));
            return TypeInterner::ERROR;
        }
        let first = self.types_compatible(sig.params[0], current);
        self.expect_type(sig.params[0], current, span);
        if self.args_match(args, &sig.params, 1, first, Ghost(d)) {
            let subst = bind_type_params(&f.type_params, &ids);
            let g = GenericUse {
                name: name.clone(),
                args: ids,
                subst,
                kinds,
                facts: ReflectionParamFacts::new(),
            };
            assert(has_values(resolved, bindings) ==> has_values(self@, bindings));
            self.check_generic_function_instantiation(f, g, Ghost(d));
        }
        sig.return_type
    }

    fn piped_args(
        &mut self,
        name: &Option<String>,
        pure: bool,
        params: &Vec<TypeId>,
        args: &Vec<CallArg>,
        current: TypeId,
        first: bool,
        Ghost(d): Ghost<nat>,
    ) -> (r: (Vec<TypeId>, bool))
        requires
            can_enter(old(self)@, d),
            args@.len() < params@.len(),
        ensures
            keeps(old(self)@, final(self)@),
            known(old(self)@) && has_all(old(self)@, params@) ==> known(final(self)@),
            (final(self)@, r.0@, r.1) == piped_args(
                old(self)@,
                maybe_text(*name),
                pure,
                params@,
                *args,
                0,
                seq![current],
                first,
                d,
            ),
        decreases 3 * d + 1, args, args@.len() + 1,
    {
        let mut found = crate::builtin_calls::ids1(current);
        let mut tainted = first;
        let mut i: usize = 0;
        while i < args.len()
            invariant
                can_enter(self@, d),
                keeps(old(self)@, self@),
                known(old(self)@) && has_all(old(self)@, params@) ==> known(self@),
                i <= args@.len(),
                args@.len() < params@.len(),
                piped_args(
                    self@,
                    maybe_text(*name),
                    pure,
                    params@,
                    *args,
                    i as nat,
                    found@,
                    tainted,
                    d,
                ) == piped_args(
                    old(self)@,
                    maybe_text(*name),
                    pure,
                    params@,
                    *args,
                    0,
                    seq![current],
                    first,
                    d,
                ),
            decreases args@.len() - i,
        {
            let param: usize = params[i + 1];
            let t: usize = self.check_expr_for_expected(&args[i].value, param, false, Ghost(d));
            let label = place_text(i as u128 + 2);
            let lifted = self.check_argument_against_param_type(
                name,
                pure,
                label.as_str(),
                param,
                t,
                args[i].value.span(),
            );
            found.push(t);
            tainted = tainted || lifted;
            i = i + 1;
        }
        (found, tainted)
    }

    fn signature_step(
        &mut self,
        name: &Option<String>,
        pure: bool,
        sig: &FunctionShape,
        current: TypeId,
        viewed: bool,
        args: &Vec<CallArg>,
        span: Span,
        Ghost(d): Ghost<nat>,
    ) -> (r: TypeId)
        requires
            can_enter(old(self)@, d),
        ensures
            keeps(old(self)@, final(self)@),
            known(old(self)@) && has_shape(old(self)@, sig@) && has(old(self)@, current)
                ==> known(final(self)@) && has(final(self)@, r),
            (final(self)@, r) == signature_step(
                old(self)@,
                maybe_text(*name),
                pure,
                sig@,
                current,
                viewed,
                *args,
                span,
                d,
            ),
        decreases 3 * d + 1, args, args@.len() + 3,
    {
        if sig.params.len() == 0 || args.len() != sig.params.len() - 1 {
            let label = match name {
                Some(n) => n.clone(),
                None => text("<pipeline step>"),
            };
            self.wrong_argument_count(
                label.as_str(),
                sig.params.len() as u128,
                args.len() as u128 + 1,
                span,
            );
            self.check_each_arg(args, 0, Ghost(d));
            return sig.return_type;
        }
        let first = self.check_argument_against_param_type(
            name,
            pure,
            "#1",
            sig.params[0],
            current,
            span,
        );
        let (types, tainted) = self.piped_args(name, pure, &sig.params, args, current, first, Ghost(d));
        self.compare_report(name, &types, span);
        self.json_policy(name, current, viewed, span, sig.return_type);
        self.call_result(name, pure, tainted, sig.return_type)
    }

    fn typed_step(
        &mut self,
        name: &Option<String>,
        current: TypeId,
        type_args: &Vec<TypeExpr>,
        args: &Vec<CallArg>,
        span: Span,
        Ghost(d): Ghost<nat>,
    ) -> (r: Option<TypeId>)
        requires
            can_enter(old(self)@, d),
        ensures
            keeps(old(self)@, final(self)@),
            known(old(self)@) && has(old(self)@, current)
                ==> known(final(self)@) && has_maybe(final(self)@, r),
            r is Some <==> typed_step(
                old(self)@,
                maybe_text(*name),
                current,
                type_args@,
                *args,
                span,
                d,
            ) is Some,
            r matches Some(t) ==> typed_step(
                old(self)@,
                maybe_text(*name),
                current,
                type_args@,
                *args,
                span,
                d,
            ) == Some((final(self)@, t)),
            r is None ==> final(self)@ == old(self)@,
        decreases 3 * d + 1, args, args@.len() + 4,
    {
        match name {
            None => None,
            Some(n) => {
                if let Some(f) = self.get_function_templates(n) {
                    let t: usize = self.check_generic_function_pipeline_step(
                        n,
                        f,
                        current,
                        type_args,
                        args,
                        span,
                        Ghost(d),
                    );
                    return Some(t);
                }
                if self.get_signatures(n).is_some() {
                    self.type_param_count(n, 0, type_args.len(), span);
                    self.check_each_arg(args, 0, Ghost(d));
                    return Some(TypeInterner::ERROR);
                }
                None
            },
        }
    }

    fn step_signature(&self, name: &Option<String>, builtin: Option<FunctionShape>) -> (r: Option<
        FunctionShape,
    >)
        ensures
            maybe_shape(r) == step_signature(self@, maybe_text(*name), maybe_shape(builtin)),
            known(self@) && (builtin matches Some(x) ==> has_shape(self@, x@)) ==> (r matches Some(x)
                ==> has_shape(self@, x@)),
    {
        if builtin.is_some() {
            return builtin;
        }
        match name {
            Some(n) => match self.get_signatures(n) {
                Some(sig) => Some(sig.dup()),
                None => None,
            },
            None => None,
        }
    }

    fn plain_step(
        &mut self,
        step: &PipelineStep,
        callee: &Expr,
        args: &Vec<CallArg>,
        name: &Option<String>,
        pure: bool,
        builtin: Option<FunctionShape>,
        current: TypeId,
        Ghost(d): Ghost<nat>,
    ) -> (r: TypeId)
        requires
            can_enter(old(self)@, d),
            *callee == step_callee(*step),
            *args == step_args(*step),
        ensures
            keeps(old(self)@, final(self)@),
            known(old(self)@) && has(old(self)@, current) && (builtin matches Some(x)
                ==> has_shape(old(self)@, x@)) ==> known(final(self)@) && has(final(self)@, r),
            (final(self)@, r) == plain_step(
                old(self)@,
                *step,
                maybe_text(*name),
                pure,
                maybe_shape(builtin),
                current,
                d,
            ),
        decreases 3 * d + 1, step, 0nat,
    {
        let viewed = match &step.function {
            Expr::View(_, _) => true,
            _ => false,
        };
        if let Some(sig) = self.step_signature(name, builtin) {
            return self.signature_step(name, pure, &sig, current, viewed, args, step.span, Ghost(d));
        }
        let t: usize = self.check_expr(callee, Ghost(d));
        self.check_each_arg(args, 0, Ghost(d));
        let label = match name {
            Some(n) => n.clone(),
            None => text("pipeline step"),
        };
        self.report1(ErrorCode::NotCallable, step.span, label);
        TypeInterner::ERROR
    }

    fn step_with(
        &mut self,
        current: TypeId,
        step: &PipelineStep,
        callee: &Expr,
        type_args: &Vec<TypeExpr>,
        args: &Vec<CallArg>,
        Ghost(d): Ghost<nat>,
    ) -> (r: TypeId)
        requires
            can_enter(old(self)@, d),
            *callee == step_callee(*step),
            type_args@ == step_type_args(*step),
            *args == step_args(*step),
        ensures
            keeps(old(self)@, final(self)@),
            known(old(self)@) && has(old(self)@, current)
                ==> known(final(self)@) && has(final(self)@, r),
            (final(self)@, r) == step_call(old(self)@, current, *step, d),
        decreases 3 * d + 1, step, 1nat,
    {
        let name = self.names().resolved_expr_name(callee);
        let pure = self.callee_is_pure(&name);
        self.purity_reports(&name, pure, step.span);
        if let Some(n) = &name {
            if same_text(n.as_str(), "math.abs") {
                return self.check_math_abs_pipeline_step(
                    n,
                    current,
                    type_args,
                    args,
                    step.span,
                    Ghost(d),
                );
            }
            if same_text(n.as_str(), "math.min") || same_text(n.as_str(), "math.max") {
                return self.check_math_min_max_pipeline_step(
                    n,
                    current,
                    type_args,
                    args,
                    step.span,
                    Ghost(d),
                );
            }
        }
        let builtin = self.builtin_signature(callee, type_args, step.span);
        if builtin.is_none() && type_args.len() != 0 {
            if let Some(t) = self.typed_step(&name, current, type_args, args, step.span, Ghost(d)) {
                return t;
            }
        }
        self.plain_step(step, callee, args, &name, pure, builtin, current, Ghost(d))
    }

    fn check_pipeline_step_call(&mut self, current: TypeId, step: &PipelineStep, Ghost(d): Ghost<nat>) -> (r: TypeId)
        requires
            can_enter(old(self)@, d),
        ensures
            keeps(old(self)@, final(self)@),
            known(old(self)@) && has(old(self)@, current)
                ==> known(final(self)@) && has(final(self)@, r),
            (final(self)@, r) == step_call(old(self)@, current, *step, d),
        decreases 3 * d + 1, step, 2nat,
    {
        let function = match &step.function {
            Expr::View(inner, _) => &**inner,
            _ => &step.function,
        };
        match function {
            Expr::GenericCall(callee, type_args, args, _) => self.step_with(
                current,
                step,
                callee,
                type_args,
                args,
                Ghost(d),
            ),
            _ => {
                let none: Vec<TypeExpr> = Vec::new();
                assert(none@ =~= Seq::empty());
                self.step_with(current, step, function, &none, &step.extra_args, Ghost(d))
            },
        }
    }
}

} // verus!
