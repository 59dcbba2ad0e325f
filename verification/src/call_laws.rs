//! What is reported of calls, and which types they give.
use vstd::prelude::*;

use crate::ast::{expr_span, CallArg, Expr, FunctionDef, Ident, PipelineStep, TypeExpr};
use crate::builtin_calls::builtin_signature;
use crate::check_blocks::{check_block, declare_params};
use crate::check_calls::{
    abs_call, absolute, args_match, beside, bind_kinds, check_call, construct, constructor_named,
    function_body, generic_call, generic_construct, generic_signature, instantiate,
    json_call_policy, metadata_type, min_max_call, named_construct, names_type, plain_call,
    printed_args, range_call, same_typed_args, signature_args, signature_call, smaller_or_greater,
    special_call, special_named, typed_builtin_call, typed_call, value_call, Generic, Special,
};
use crate::check_construct::{
    bitfield_constructor, machine_constructor, struct_constructor, transition_call,
};
use crate::check_exprs::{check_expected, check_expr, each_arg, expr_type, handle};
use crate::check_pipeline::{
    abs_step, check_step, check_steps, generic_step, min_max_step, piped_args, plain_step,
    signature_step, step_args, step_call, step_callee, step_type_args, typed_step,
};
use crate::check_rules::{
    argument, call_result, callee_pure, compare_report, json_policy, parse_policy, piped_argument,
    purity_reports, report_each, secret_data, serialize_policy, set_type, transition_owner,
};
use crate::diagnostics::{error, ErrorCode};
use crate::expression_laws::{has_room, is_secret, is_tainted, laid_open, nothing_reported};
use crate::facts::no_facts;
use crate::handling_laws::{does_once_handled, with_report};
use crate::names::{expr_name, pure_params};
use crate::span::Span;
use crate::state::{intern_type, report, ContextV, State};
use crate::static_eval::argument_facts;
use crate::text::decimal;
use crate::type_laws::law_stored_types_are_found_again;
use crate::type_names::name_of;
use crate::type_rules::{
    can_refine, compatible, contains_secret, impure_builtin, json_needs_view, json_odd_keys,
    json_unsupported_in, names_of, output_boundary, public_projection, secret_fields,
    secret_liftable, secret_safe_builtin,
};
use crate::types::{lemma_basics, ty, FunctionShapeV, Type, TypeId, TypeInterner};
use crate::written_types::{
    bind_params, nesting, resolve_param_ids, resolve_return, resolve_types, struct_at, wrong_count,
};

verus! {

// ---------------------------------------------------------------------------
// Arguments
// ---------------------------------------------------------------------------

/// The functions that hand what they get to the outside.
pub proof fn law_what_goes_to_the_outside(name: Seq<char>)
    ensures
        output_boundary(name) <==> name == "Stdout.write"@ || name == "print"@ || name == "println"@ || name
            == "json.serialize"@ || name == "json.serialize_public"@ || name == "json.serialize_raw"@ || name
            == "Filesystem.write_file"@ || name == "log"@ || name == "http.respond"@,
        impure_builtin(name) <==> name == "Stdout.write"@ || name == "Environment.args"@ || name
            == "Filesystem.read_file"@ || name == "Filesystem.write_file"@,
        secret_safe_builtin(name) <==> name == "secret.redact"@ || name == "secret.compare"@,
{
}

/// Whether the argument may go in as what it holds in secret, so that what comes out is
/// secret: the call is pure, hands nothing to the outside, and is none that is made for
/// secrets.
pub open spec fn may_be_lifted(name: Option<Seq<char>>, pure: bool) -> bool {
    pure && match name {
        Some(n) => !output_boundary(n) && !secret_safe_builtin(n),
        None => true,
    }
}

/// How a call is named in a report.
pub open spec fn shown_callee(name: Option<Seq<char>>) -> Seq<char> {
    match name {
        Some(n) => n,
        None => "<call>"@,
    }
}

/// The name of a function, or other words where it has none.
pub open spec fn named_or(name: Option<Seq<char>>, words: Seq<char>) -> Seq<char> {
    match name {
        Some(n) => n,
        None => words,
    }
}

/// An argument that fits its parameter goes in without a word, and the result is as it is.
pub proof fn law_fitting_arguments(
    s: State,
    name: Option<Seq<char>>,
    pure: bool,
    label: Seq<char>,
    param: TypeId,
    arg: TypeId,
    span: Span,
)
    requires
        compatible(s.types, s.impls, param, arg),
        !(ty(s.types, param) is Refinement && arg != TypeInterner::ERROR && can_refine(s.types, arg, param)),
        name matches Some(n) ==> !output_boundary(n) || !is_secret(s.types, arg),
        name matches Some(n) ==> !secret_safe_builtin(n) || is_secret(s.types, arg),
    ensures
        argument(s, name, pure, label, param, arg, span) == (s, false),
{
    reveal(argument);
}

/// An argument that does not fit is reported with its place and both types, unless it is a
/// secret that may go in as what it holds; then the result is secret.
pub proof fn law_arguments_that_do_not_fit(
    s: State,
    name: Option<Seq<char>>,
    pure: bool,
    label: Seq<char>,
    param: TypeId,
    arg: TypeId,
    span: Span,
)
    requires
        !compatible(s.types, s.impls, param, arg),
        !(ty(s.types, param) is Refinement && arg != TypeInterner::ERROR && can_refine(s.types, arg, param)),
        name matches Some(n) ==> !output_boundary(n) || !is_secret(s.types, arg),
        name matches Some(n) ==> !secret_safe_builtin(n) || is_secret(s.types, arg),
    ensures
        ({
            let (after, lifted) = argument(s, name, pure, label, param, arg, span);
            if is_secret(s.types, arg) && compatible(s.types, s.impls, param, laid_open(s.types, arg)) {
                if may_be_lifted(name, pure) {
                    lifted && after == s
                } else {
                    !lifted && after == with_report(
                        s,
                        ErrorCode::SecretExposure,
                        span,
                        seq![shown_callee(name), name_of(s.types, arg)],
                    )
                }
            } else {
                !lifted && after == with_report(
                    s,
                    ErrorCode::ArgumentTypeMismatch,
                    span,
                    seq![label, name_of(s.types, param), name_of(s.types, arg)],
                )
            }
        }),
{
    reveal(argument);
    match name {
        Some(n) => {
            assert(secret_liftable(n, pure) == may_be_lifted(name, pure));
        },
        None => {},
    }
}

/// An argument that has to be tested against a refinement, one that is no secret where a
/// secret is needed, and a secret that would go to the outside are reported, and nothing else
/// is said of them.
pub proof fn law_arguments_that_are_refused(
    s: State,
    name: Option<Seq<char>>,
    pure: bool,
    label: Seq<char>,
    param: TypeId,
    arg: TypeId,
    span: Span,
)
    ensures
        ({
            let (after, lifted) = argument(s, name, pure, label, param, arg, span);
            let tested = ty(s.types, param) is Refinement && arg != TypeInterner::ERROR && can_refine(
                s.types,
                arg,
                param,
            );
            &&& tested ==> !lifted && after == with_report(
                s,
                ErrorCode::RefinementRequiresHandleError,
                span,
                seq![name_of(s.types, param), name_of(s.types, arg)],
            )
            &&& !tested && is_secret(s.types, arg) && name is Some && output_boundary(name->0) ==> !lifted
                && after == with_report(
                s,
                ErrorCode::SecretExposure,
                span,
                seq![name->0, name_of(s.types, arg)],
            )
            &&& !tested && !is_secret(s.types, arg) && name is Some && secret_safe_builtin(name->0)
                ==> !lifted && after == with_report(
                s,
                ErrorCode::SecretOperationRequiresSecret,
                span,
                seq![name->0, name_of(s.types, arg)],
            )
        }),
{
    reveal(argument);
}

/// A value that goes in through a pipeline and would do once it is handled is reported with
/// how to handle it. Any other is an argument like others.
pub proof fn law_piped_arguments(
    s: State,
    name: Option<Seq<char>>,
    pure: bool,
    label: Seq<char>,
    param: TypeId,
    arg: TypeId,
    span: Span,
)
    ensures
        if arg != TypeInterner::ERROR && does_once_handled(s, param, arg) {
            piped_argument(s, name, pure, label, param, arg, span) == (
                with_report(
                    s,
                    if ty(s.types, arg) is Result {
                        ErrorCode::ResultRequiresHandleError
                    } else {
                        ErrorCode::OptionalRequiresBareHandle
                    },
                    span,
                    Seq::empty(),
                ),
                false,
            )
        } else {
            piped_argument(s, name, pure, label, param, arg, span) == argument(
                s,
                name,
                pure,
                label,
                param,
                arg,
                span,
            )
        },
{
    reveal(piped_argument);
}

/// Each argument is checked once, in its turn, where its parameter's type is asked for, and
/// is told by its place, counted from one.
pub proof fn law_arguments_in_turn(
    s: State,
    name: Option<Seq<char>>,
    pure: bool,
    params: Seq<TypeId>,
    args: Vec<CallArg>,
    i: nat,
    found: Seq<TypeId>,
    tainted: bool,
    d: nat,
)
    requires
        i < args@.len() == params.len(),
    ensures
        ({
            let value = args@[i as int].value;
            let (s1, t) = check_expected(s, value, params[i as int], false, d);
            let (s2, lifted) = argument(
                s1,
                name,
                pure,
                "#"@ + decimal(i + 1),
                params[i as int],
                t,
                expr_span(value),
            );
            signature_args(s, name, pure, params, args, i, found, tainted, d) == signature_args(
                s2,
                name,
                pure,
                params,
                args,
                i + 1,
                found.push(t),
                tainted || lifted,
                d,
            )
        }),
        signature_args(s, name, pure, params, args, args@.len(), found, tainted, d) == (s, found, tainted),
{
    reveal_with_fuel(signature_args, 2);
}

/// Arguments that are held against nothing are checked each by itself.
pub proof fn law_arguments_by_themselves(s: State, args: Vec<CallArg>, i: nat, d: nat)
    ensures
        each_arg(s, args, i, d) == if i >= args@.len() {
            s
        } else {
            each_arg(check_expr(s, args@[i as int].value, d).0, args, i + 1, d)
        },
{
    reveal_with_fuel(each_arg, 2);
}

// ---------------------------------------------------------------------------
// Calls of known functions
// ---------------------------------------------------------------------------

/// A call with another number of arguments than the function has parameters is reported, its
/// arguments are looked at, and it gives the function's result.
pub proof fn law_wrong_numbers_of_arguments(
    s: State,
    name: Option<Seq<char>>,
    pure: bool,
    sig: FunctionShapeV,
    args: Vec<CallArg>,
    span: Span,
    d: nat,
)
    requires
        args@.len() != sig.params.len(),
    ensures
        signature_call(s, name, pure, sig, args, span, d) == (
            each_arg(
                with_report(
                    s,
                    ErrorCode::ArgumentCountMismatch,
                    span,
                    seq![
                        named_or(name, "<anonymous>"@),
                        decimal(sig.params.len()),
                        decimal(args@.len()),
                    ],
                ),
                args,
                0,
                d,
            ),
            sig.return_type,
        ),
{
}

/// A call with the right number of arguments gives the function's result, secret where a
/// secret went in as what it holds. The rules of secrets and of JSON are held to on the way.
pub proof fn law_calls_give_the_result(
    s: State,
    name: Option<Seq<char>>,
    pure: bool,
    sig: FunctionShapeV,
    args: Vec<CallArg>,
    span: Span,
    d: nat,
)
    requires
        args@.len() == sig.params.len(),
        has_room(signature_args(s, name, pure, sig.params, args, 0, Seq::empty(), false, d).0),
        sig.return_type < signature_args(s, name, pure, sig.params, args, 0, Seq::empty(), false, d).0.types.types.len(),
    ensures
        ({
            let (s1, types, tainted) = signature_args(
                s,
                name,
                pure,
                sig.params,
                args,
                0,
                Seq::empty(),
                false,
                d,
            );
            let s2 = compare_report(
                s1,
                name,
                types,
                if args@.len() > 1 {
                    expr_span(args@[1].value)
                } else {
                    span
                },
            );
            let s3 = json_call_policy(s2, name, types, args@, sig.return_type);
            let (after, t) = signature_call(s, name, pure, sig, args, span, d);
            let plain = sig.return_type == TypeInterner::ERROR || sig.return_type == TypeInterner::NOTHING
                || is_secret(s1.types, sig.return_type);
            &&& after.reports == s3.reports
            &&& is_tainted(
                after.types,
                t,
                sig.return_type,
                name is Some && tainted && may_be_lifted(name, pure) && !plain,
            )
        }),
{
    reveal(compare_report);
    let (s1, types, tainted) = signature_args(s, name, pure, sig.params, args, 0, Seq::empty(), false, d);
    lemma_basics(s1.types);
    json_rules_change_no_type(s1, name, types, args, sig.return_type, span);
    law_stored_types_are_found_again(s1.types, Type::Secret(sig.return_type));
}

proof fn reports_change_no_type(
    s: State,
    code: ErrorCode,
    span: Span,
    first: Option<Seq<char>>,
    names: Seq<Seq<char>>,
    i: nat,
)
    ensures
        report_each(s, code, span, first, names, i).types == s.types,
    decreases names.len() - i,
{
    if i < names.len() {
        let args = match first {
            Some(f) => seq![f, names[i as int]],
            None => seq![names[i as int]],
        };
        reports_change_no_type(
            report(s, error(code, span, args)),
            code,
            span,
            first,
            names,
            i + 1,
        );
    }
}

proof fn serializing_changes_no_type(s: State, function: Seq<char>, id: TypeId, viewed: bool, span: Span)
    ensures
        serialize_policy(s, function, id, viewed, span).types == s.types,
{
    reveal(serialize_policy);
    let s1 = if !viewed && json_needs_view(s.types, id) {
        with_report(
            s,
            ErrorCode::JsonSerializeRequiresView,
            span,
            seq![function, name_of(s.types, id)],
        )
    } else {
        s
    };
    let odd = names_of(s.types, json_odd_keys(s.types, id));
    reports_change_no_type(s1, ErrorCode::JsonMapKeyMustBeString, span, None, odd, 0);
    let s2 = report_each(s1, ErrorCode::JsonMapKeyMustBeString, span, None, odd, 0);
    reports_change_no_type(
        s2,
        ErrorCode::JsonUnsupportedSerializeType,
        span,
        Some(function),
        names_of(s.types, json_unsupported_in(s.types, id, false, true)),
        0,
    );
}

proof fn parsing_changes_no_type(s: State, function: Seq<char>, ret: TypeId, span: Span)
    ensures
        parse_policy(s, function, ret, span).types == s.types,
{
    reveal(parse_policy);
    match ty(s.types, ret) {
        Type::Result(parsed, _) => {
            let odd = names_of(s.types, json_odd_keys(s.types, parsed));
            reports_change_no_type(s, ErrorCode::JsonMapKeyMustBeString, span, None, odd, 0);
            let s1 = report_each(s, ErrorCode::JsonMapKeyMustBeString, span, None, odd, 0);
            reports_change_no_type(
                s1,
                ErrorCode::JsonUnsupportedParseType,
                span,
                Some(function),
                names_of(s.types, json_unsupported_in(s.types, parsed, true, true)),
                0,
            );
        },
        _ => {},
    }
}

proof fn json_rules_change_no_type(
    s: State,
    name: Option<Seq<char>>,
    types: Seq<TypeId>,
    args: Vec<CallArg>,
    ret: TypeId,
    span: Span,
)
    ensures
        forall|place: Span| #[trigger]
            json_call_policy(compare_report(s, name, types, place), name, types, args@, ret).types == s.types,
{
    assert forall|place: Span| #[trigger]
        json_call_policy(compare_report(s, name, types, place), name, types, args@, ret).types
            == s.types by {
        reveal(compare_report);
        reveal(json_policy);
        reveal(secret_data);
        let t = compare_report(s, name, types, place);
        if types.len() > 0 && args@.len() > 0 && name is Some {
            let n = name->0;
            let viewed = args@[0].value is View;
            let at = expr_span(args@[0].value);
            let told = secret_data(t, n, types[0], at);
            serializing_changes_no_type(t, n, types[0], viewed, at);
            serializing_changes_no_type(told, n, types[0], viewed, at);
            parsing_changes_no_type(t, n, ret, at);
        }
    }
}

// ---------------------------------------------------------------------------
// Secrets and JSON
// ---------------------------------------------------------------------------

/// `secret.compare` compares secrets that hold the same type; others are reported.
pub proof fn law_compared_secrets_hold_the_same(s: State, a: TypeId, b: TypeId, span: Span)
    requires
        is_secret(s.types, a),
        is_secret(s.types, b),
    ensures
        ({
            let (x, y) = (laid_open(s.types, a), laid_open(s.types, b));
            let after = compare_report(s, Some("secret.compare"@), seq![a, b], span);
            if compatible(s.types, s.impls, x, y) && compatible(s.types, s.impls, y, x) {
                after == s
            } else {
                after == with_report(
                    s,
                    ErrorCode::ArgumentTypeMismatch,
                    span,
                    seq!["#2"@, name_of(s.types, a), name_of(s.types, b)],
                )
            }
        }),
        forall|name: Seq<char>, types: Seq<TypeId>|
            name != "secret.compare"@ ==> #[trigger] compare_report(s, Some(name), types, span) == s,
{
    reveal(compare_report);
}

/// A value with a secret inside is reported where it is serialized, with the fields that are
/// secret. `json.serialize_public` leaves out secret fields and reports only what it cannot
/// leave out. The rules on what JSON can say come behind.
pub proof fn law_serialized_values_hold_no_secret(
    s: State,
    value: TypeId,
    viewed: bool,
    span: Span,
    ret: TypeId,
)
    ensures
        ({
            let all = "json.serialize"@;
            let public = "json.serialize_public"@;
            &&& json_policy(s, Some(all), value, viewed, span, ret) == serialize_policy(
                if contains_secret(s.types, value) {
                    with_report(
                        s,
                        ErrorCode::TypeContainsSecretData,
                        span,
                        seq![all, name_of(s.types, value)] + secret_fields(s.types, value),
                    )
                } else {
                    s
                },
                all,
                value,
                viewed,
                span,
            )
            &&& json_policy(s, Some(public), value, viewed, span, ret) == serialize_policy(
                if !is_secret(s.types, value) && contains_secret(s.types, value) && !public_projection(
                    s.types,
                    value,
                ) {
                    with_report(
                        s,
                        ErrorCode::TypeContainsSecretData,
                        span,
                        seq![public, name_of(s.types, value)] + secret_fields(s.types, value),
                    )
                } else {
                    s
                },
                public,
                value,
                viewed,
                span,
            )
        }),
{
    reveal(json_policy);
    reveal(secret_data);
    reveal_strlit("json.serialize");
    reveal_strlit("json.serialize_public");
    assert("json.serialize"@.len() != "json.serialize_public"@.len());
}

/// A value is serialized through a view, unless it is plain. Keys of maps have to be texts,
/// and every type inside one that JSON can say; each that is not so is reported.
pub proof fn law_what_json_can_say(s: State, function: Seq<char>, id: TypeId, viewed: bool, span: Span)
    ensures
        ({
            let s1 = if viewed || !json_needs_view(s.types, id) {
                s
            } else {
                with_report(
                    s,
                    ErrorCode::JsonSerializeRequiresView,
                    span,
                    seq![function, name_of(s.types, id)],
                )
            };
            let s2 = report_each(
                s1,
                ErrorCode::JsonMapKeyMustBeString,
                span,
                None,
                names_of(s.types, json_odd_keys(s.types, id)),
                0,
            );
            serialize_policy(s, function, id, viewed, span) == report_each(
                s2,
                ErrorCode::JsonUnsupportedSerializeType,
                span,
                Some(function),
                names_of(s.types, json_unsupported_in(s.types, id, false, true)),
                0,
            )
        }),
{
    reveal(serialize_policy);
}

/// What is parsed has to be of a type that JSON can say, too: the value of the result that
/// parsing gives.
pub proof fn law_what_json_can_be_parsed_to(
    s: State,
    name: Seq<char>,
    value: TypeId,
    viewed: bool,
    span: Span,
    ret: TypeId,
)
    requires
        name == "json.parse"@ || name == "json.parse_exact"@,
        ty(s.types, ret) is Result,
    ensures
        ({
            let parsed = match ty(s.types, ret) {
                Type::Result(x, _) => x,
                _ => ret,
            };
            let s1 = report_each(
                s,
                ErrorCode::JsonMapKeyMustBeString,
                span,
                None,
                names_of(s.types, json_odd_keys(s.types, parsed)),
                0,
            );
            json_policy(s, Some(name), value, viewed, span, ret) == report_each(
                s1,
                ErrorCode::JsonUnsupportedParseType,
                span,
                Some(name),
                names_of(s.types, json_unsupported_in(s.types, parsed, true, true)),
                0,
            )
        }),
{
    reveal(json_policy);
    reveal(parse_policy);
    reveal_strlit("json.serialize");
    reveal_strlit("json.serialize_public");
    reveal_strlit("json.parse");
    reveal_strlit("json.parse_exact");
    assert("json.serialize"@.len() == 14 && "json.serialize_public"@.len() == 21 && "json.parse"@.len() == 10
        && "json.parse_exact"@.len() == 16);
}

/// Each name is reported once, in its order, behind the name of the function where there is
/// one.
pub proof fn law_each_name_is_reported(
    s: State,
    code: ErrorCode,
    span: Span,
    first: Option<Seq<char>>,
    names: Seq<Seq<char>>,
    i: nat,
    k: int,
)
    requires
        i <= k < names.len(),
    ensures
        ({
            let after = report_each(s, code, span, first, names, i);
            &&& after.reports.len() == s.reports.len() + (names.len() - i)
            &&& after.reports[s.reports.len() + (k - i)] == error(
                code,
                span,
                match first {
                    Some(f) => seq![f, names[k]],
                    None => seq![names[k]],
                },
            )
        }),
    decreases names.len() - i,
{
    let args = match first {
        Some(f) => seq![f, names[i as int]],
        None => seq![names[i as int]],
    };
    let next = report(s, error(code, span, args));
    let after = report_each(s, code, span, first, names, i);
    assert(after == report_each(next, code, span, first, names, i + 1));
    each_report_stays(next, code, span, first, names, i + 1, s.reports.len() as int);
    if i + 1 < names.len() {
        if k == i {
            law_each_name_is_reported(next, code, span, first, names, i + 1, k + 1);
        } else {
            law_each_name_is_reported(next, code, span, first, names, i + 1, k);
        }
    } else {
        assert(after == next) by {
            reveal_with_fuel(report_each, 2);
        }
    }
}

proof fn each_report_stays(
    s: State,
    code: ErrorCode,
    span: Span,
    first: Option<Seq<char>>,
    names: Seq<Seq<char>>,
    i: nat,
    at: int,
)
    requires
        0 <= at < s.reports.len(),
    ensures
        report_each(s, code, span, first, names, i).reports.len() >= s.reports.len(),
        report_each(s, code, span, first, names, i).reports[at] == s.reports[at],
    decreases names.len() - i,
{
    if i < names.len() {
        let args = match first {
            Some(f) => seq![f, names[i as int]],
            None => seq![names[i as int]],
        };
        each_report_stays(
            report(s, error(code, span, args)),
            code,
            span,
            first,
            names,
            i + 1,
            at,
        );
    }
}

// ---------------------------------------------------------------------------
// Builtins with rules of their own
// ---------------------------------------------------------------------------

/// `range` makes a list of `int64` from one to three of them. Each argument is held against
/// `int64`; another number of arguments is reported.
pub proof fn law_ranges(s: State, name: Seq<char>, args: Vec<CallArg>, span: Span, d: nat)
    requires
        has_room(s),
    ensures
        ({
            let (after, t) = range_call(s, name, Seq::empty(), args, span, d);
            exists|s1: State| #[trigger]
                nothing_reported(s, s1) && ty(s1.types, t) == Type::List(TypeInterner::INT64) && after == if 1
                    <= args@.len() <= 3 {
                    same_typed_args(s1, name + " argument"@, TypeInterner::INT64, args, 0, d)
                } else {
                    each_arg(
                        with_report(
                            s1,
                            ErrorCode::ArgumentCountRangeMismatch,
                            span,
                            seq![name, decimal(1), decimal(3), decimal(args@.len())],
                        ),
                        args,
                        0,
                        d,
                    )
                }
        }),
{
    lemma_basics(s.types);
    law_stored_types_are_found_again(s.types, Type::List(TypeInterner::INT64));
    reveal_with_fuel(range_call, 2);
    let (s1, list) = intern_type(s, Type::List(TypeInterner::INT64));
    assert(nothing_reported(s, s1));
}

/// Arguments of one type are each held against it, in their turn.
pub proof fn law_arguments_of_one_type(
    s: State,
    label: Seq<char>,
    expected: TypeId,
    args: Vec<CallArg>,
    i: nat,
    d: nat,
)
    ensures
        same_typed_args(s, label, expected, args, i, d) == if i >= args@.len() {
            s
        } else {
            let value = args@[i as int].value;
            let (s1, got) = check_expected(s, value, expected, false, d);
            same_typed_args(
                if compatible(s1.types, s1.impls, expected, got) {
                    s1
                } else {
                    with_report(
                        s1,
                        ErrorCode::ArgumentTypeMismatch,
                        expr_span(value),
                        seq![label, name_of(s1.types, expected), name_of(s1.types, got)],
                    )
                },
                label,
                expected,
                args,
                i + 1,
                d,
            )
        },
{
    reveal_with_fuel(same_typed_args, 2);
}

/// Everything but secrets is printed, and printing gives nothing. Each secret is reported.
pub proof fn law_printing(s: State, name: Seq<char>, args: Vec<CallArg>, i: nat, d: nat)
    ensures
        printed_args(s, name, args, i, d) == if i >= args@.len() {
            s
        } else {
            let value = args@[i as int].value;
            let (s1, got) = check_expr(s, value, d);
            printed_args(
                if is_secret(s1.types, got) {
                    with_report(
                        s1,
                        ErrorCode::SecretExposure,
                        expr_span(value),
                        seq![name, name_of(s1.types, got)],
                    )
                } else {
                    s1
                },
                name,
                args,
                i + 1,
                d,
            )
        },
        special_call(s, Special::Print, name, Seq::empty(), args, expr_span(args@[0].value), d) == (
            printed_args(s, name, args, 0, d),
            TypeInterner::NOTHING,
        ),
{
    reveal_with_fuel(printed_args, 2);
    reveal_with_fuel(special_call, 2);
}

/// The number type that a value stands for: `int64` or else `float64`, secrets laid open.
pub open spec fn number_of(s: State, id: TypeId) -> Option<TypeId> {
    let base = laid_open(s.types, id);
    if compatible(s.types, s.impls, TypeInterner::INT64, base) {
        Some(TypeInterner::INT64)
    } else if compatible(s.types, s.impls, TypeInterner::FLOAT64, base) {
        Some(TypeInterner::FLOAT64)
    } else {
        None
    }
}

/// The absolute value of an `int64` or `float64` is one, secret where the number is. Of
/// anything else there is none, and it is reported.
pub proof fn law_absolute_values(s: State, label: Seq<char>, id: TypeId, span: Span)
    requires
        has_room(s),
        id != TypeInterner::ERROR,
    ensures
        ({
            let (after, t) = absolute(s, label, id, span);
            match number_of(s, id) {
                Some(base) => nothing_reported(s, after) && is_tainted(
                    after.types,
                    t,
                    base,
                    is_secret(s.types, id),
                ),
                None => t == TypeInterner::ERROR && after == with_report(
                    s,
                    ErrorCode::ArgumentTypeMismatch,
                    span,
                    seq![label, "int64 or float64"@, name_of(s.types, id)],
                ),
            }
        }),
        absolute(s, label, TypeInterner::ERROR, span) == (s, TypeInterner::ERROR),
{
    reveal(absolute);
    lemma_basics(s.types);
    law_stored_types_are_found_again(s.types, Type::Secret(TypeInterner::INT64));
    law_stored_types_are_found_again(s.types, Type::Secret(TypeInterner::FLOAT64));
}

/// `min` and `max` take two numbers of one type and give one, secret where either is. A right
/// side that is no such number is reported.
pub proof fn law_smaller_or_greater(
    s: State,
    label: Seq<char>,
    base: TypeId,
    tainted: bool,
    right: TypeId,
    span: Span,
)
    requires
        has_room(s),
        base == TypeInterner::INT64 || base == TypeInterner::FLOAT64,
        right != TypeInterner::ERROR,
    ensures
        ({
            let (after, t) = beside(s, label, base, tainted, right, span);
            if number_of(s, right) == Some(base) {
                nothing_reported(s, after) && is_tainted(
                    after.types,
                    t,
                    base,
                    tainted || is_secret(s.types, right),
                )
            } else {
                t == TypeInterner::ERROR && after == with_report(
                    s,
                    ErrorCode::ArgumentTypeMismatch,
                    span,
                    seq![label, name_of(s.types, base), name_of(s.types, right)],
                )
            }
        }),
        beside(s, label, base, tainted, TypeInterner::ERROR, span) == (s, TypeInterner::ERROR),
{
    reveal(beside);
    lemma_basics(s.types);
    law_stored_types_are_found_again(s.types, Type::Secret(base));
}

/// The right side of `min` or `max` is checked where the left side's number type is asked
/// for. A left side that is no number is reported.
pub proof fn law_sides_of_min_and_max(
    s: State,
    left: TypeId,
    left_label: Seq<char>,
    left_span: Span,
    right: Expr,
    right_label: Seq<char>,
    d: nat,
)
    requires
        left != TypeInterner::ERROR,
    ensures
        ({
            let (after, t) = smaller_or_greater(s, left, left_label, left_span, right, right_label, d);
            match number_of(s, left) {
                Some(base) => {
                    let (s1, got) = check_expected(s, right, base, false, d);
                    (after, t) == beside(
                        s1,
                        right_label,
                        base,
                        is_secret(s.types, left),
                        got,
                        expr_span(right),
                    )
                },
                None => t == TypeInterner::ERROR && after == check_expr(
                    with_report(
                        s,
                        ErrorCode::ArgumentTypeMismatch,
                        left_span,
                        seq![left_label, "int64 or float64"@, name_of(s.types, left)],
                    ),
                    right,
                    d,
                ).0,
            }
        }),
{
    reveal_with_fuel(smaller_or_greater, 2);
}

/// Which builtins have rules of their own, and how many arguments they take.
pub proof fn law_builtins_with_rules_of_their_own(s: State, name: Seq<char>, args: Vec<CallArg>, span: Span, d: nat)
    ensures
        special_named(Some(name)) == Some(Special::Range) <==> name == "range"@ || name == "list.range"@,
        special_named(Some(name)) == Some(Special::Print) <==> name == "print"@ || name == "println"@,
        special_named(Some(name)) == Some(Special::Abs) <==> name == "math.abs"@,
        special_named(Some(name)) == Some(Special::MinMax) <==> name == "math.min"@ || name == "math.max"@,
        special_named(None) is None,
        abs_call(s, name, Seq::empty(), args, span, d) == if args@.len() == 1 {
            let (s1, t) = check_expr(s, args@[0].value, d);
            absolute(s1, "value"@, t, expr_span(args@[0].value))
        } else {
            (
                each_arg(
                    with_report(
                        s,
                        ErrorCode::ArgumentCountMismatch,
                        span,
                        seq![name, decimal(1), decimal(args@.len())],
                    ),
                    args,
                    0,
                    d,
                ),
                TypeInterner::ERROR,
            )
        },
        min_max_call(s, name, Seq::empty(), args, span, d) == if args@.len() == 2 {
            let (s1, left) = check_expr(s, args@[0].value, d);
            smaller_or_greater(
                s1,
                left,
                "left"@,
                expr_span(args@[0].value),
                args@[1].value,
                "right"@,
                d,
            )
        } else {
            (
                each_arg(
                    with_report(
                        s,
                        ErrorCode::ArgumentCountMismatch,
                        span,
                        seq![name, decimal(2), decimal(args@.len())],
                    ),
                    args,
                    0,
                    d,
                ),
                TypeInterner::ERROR,
            )
        },
        special_call(s, Special::Range, name, Seq::empty(), args, span, d) == range_call(
            s,
            name,
            Seq::empty(),
            args,
            span,
            d,
        ),
        special_call(s, Special::Abs, name, Seq::empty(), args, span, d) == abs_call(
            s,
            name,
            Seq::empty(),
            args,
            span,
            d,
        ),
        special_call(s, Special::MinMax, name, Seq::empty(), args, span, d) == min_max_call(
            s,
            name,
            Seq::empty(),
            args,
            span,
            d,
        ),
{
    reveal(special_named);
    special_names_differ();
    reveal_with_fuel(abs_call, 2);
    reveal_with_fuel(min_max_call, 2);
    reveal_with_fuel(special_call, 2);
}

proof fn special_names_differ()
    ensures
        "range"@ != "print"@,
        "range"@ != "println"@,
        "range"@ != "math.abs"@,
        "range"@ != "math.min"@,
        "range"@ != "math.max"@,
        "list.range"@ != "print"@,
        "list.range"@ != "println"@,
        "list.range"@ != "math.abs"@,
        "list.range"@ != "math.min"@,
        "list.range"@ != "math.max"@,
        "print"@ != "math.abs"@,
        "print"@ != "math.min"@,
        "print"@ != "math.max"@,
        "println"@ != "math.abs"@,
        "println"@ != "math.min"@,
        "println"@ != "math.max"@,
        "math.abs"@ != "math.min"@,
        "math.abs"@ != "math.max"@,
{
    reveal_strlit("range");
    reveal_strlit("list.range");
    reveal_strlit("print");
    reveal_strlit("println");
    reveal_strlit("math.abs");
    reveal_strlit("math.min");
    reveal_strlit("math.max");
    assert("range"@[0] == 'r' && "list.range"@[0] == 'l' && "print"@[0] == 'p' && "println"@[0] == 'p');
    assert("math.abs"@[0] == 'm' && "math.min"@[0] == 'm' && "math.max"@[0] == 'm');
    assert("math.abs"@[5] == 'a' && "math.min"@[5] == 'm' && "math.max"@[5] == 'm');
}

// ---------------------------------------------------------------------------
// Where a call goes
// ---------------------------------------------------------------------------

/// A call by name without type arguments: what is called and how.
pub struct PlainCall {
    pub callee: Box<Expr>,
    pub args: Vec<CallArg>,
    pub span: Span,
}

/// The state in which the arguments of a call are looked at, and the signature where a builtin
/// is called. A call of an impure function from a pure one was reported by then.
pub open spec fn entered_call(s: State, callee: Expr, type_args: Seq<TypeExpr>, span: Span) -> (
    State,
    Option<FunctionShapeV>,
) {
    let name = expr_name(s.names, callee);
    let (s1, builtin) = builtin_signature(s, callee, type_args, span);
    (purity_reports(s1, name, callee_pure(s, name), span), builtin)
}

/// A function counts as pure where it is no impure builtin and was not found to be impure.
pub proof fn law_pure_callees(s: State, name: Seq<char>)
    ensures
        callee_pure(s, Some(name)) <==> !impure_builtin(name) && !(s.purity_map.contains_key(name)
            && !s.purity_map[name]),
        !callee_pure(s, None),
{
}

/// A call without type arguments goes, in this order, to a builtin with rules of its own, to a
/// transition, to a constructor, to a builtin, to a function of the module, or to whatever the
/// callee turns out to be.
pub proof fn law_where_calls_go(s: State, c: PlainCall, d: nat)
    ensures
        ({
            let e = Expr::Call(c.callee, c.args, c.span);
            let name = expr_name(s.names, *c.callee);
            let pure = callee_pure(s, name);
            let (s1, builtin) = entered_call(s, *c.callee, Seq::empty(), c.span);
            let (after, t) = check_expr(s, e, d);
            let (s2, t2) = if special_named(name) is Some {
                special_call(s1, special_named(name)->0, name->0, Seq::empty(), c.args, c.span, d)
            } else if transition_owner(s1, *c.callee) is Some {
                transition_call(s1, transition_owner(s1, *c.callee)->0, c.args, c.span, d)
            } else if constructor_named(s1, name) is Some {
                named_construct(s1, name->0, constructor_named(s1, name)->0, c.args, c.span, d)
            } else if builtin is Some {
                signature_call(s1, name, pure, builtin->0, c.args, c.span, d)
            } else if name is Some && s1.signatures.contains_key(name->0) {
                signature_call(s1, name, pure, s1.signatures[name->0], c.args, c.span, d)
            } else {
                value_call(s1, e, name, pure, d)
            };
            t == t2 && after == set_type(s2, c.span, t)
        }),
{
    let e = Expr::Call(c.callee, c.args, c.span);
    assert(expr_type(s, e, d) == check_call(s, e, d)) by {
        reveal_with_fuel(expr_type, 2);
    }
    let name = expr_name(s.names, *c.callee);
    let (s1, builtin) = entered_call(s, *c.callee, Seq::empty(), c.span);
    if special_named(name) is None {
        assert(check_call(s, e, d) == plain_call(s1, e, name, callee_pure(s, name), builtin, d));
    }
}

/// A call with type arguments goes, in this order, to a builtin with rules of its own, to a
/// generic struct or a builtin, to a generic function, to a function that is not generic, which
/// is reported, to a generic struct, or to whatever the callee turns out to be.
pub proof fn law_where_typed_calls_go(s: State, c: PlainCall, type_args: Vec<TypeExpr>, d: nat)
    requires
        type_args@.len() > 0,
    ensures
        ({
            let e = Expr::GenericCall(c.callee, type_args, c.args, c.span);
            let name = expr_name(s.names, *c.callee);
            let pure = callee_pure(s, name);
            let (s1, builtin) = entered_call(s, *c.callee, type_args@, c.span);
            let (after, t) = check_expr(s, e, d);
            let template = name is Some && s1.generic_struct_templates.contains_key(name->0);
            let (s2, t2) = if special_named(name) is Some {
                special_call(s1, special_named(name)->0, name->0, type_args@, c.args, c.span, d)
            } else if builtin is Some && template {
                generic_construct(s1, name->0, type_args@, c.args, c.span, d)
            } else if builtin is Some {
                signature_call(s1, name, pure, builtin->0, c.args, c.span, d)
            } else if name is Some && s1.function_templates.contains_key(name->0) {
                generic_call(
                    s1,
                    name->0,
                    s1.function_templates[name->0],
                    type_args@,
                    c.args,
                    c.span,
                    d,
                )
            } else if name is Some && s1.signatures.contains_key(name->0) {
                (
                    each_arg(
                        with_report(
                            s1,
                            ErrorCode::UnknownType,
                            c.span,
                            seq![
                                wrong_count(
                                    name->0,
                                    decimal(0) + " type argument(s)"@,
                                    type_args@.len(),
                                ),
                            ],
                        ),
                        c.args,
                        0,
                        d,
                    ),
                    TypeInterner::ERROR,
                )
            } else if template {
                generic_construct(s1, name->0, type_args@, c.args, c.span, d)
            } else {
                value_call(s1, e, name, pure, d)
            };
            t == t2 && after == set_type(s2, c.span, t)
        }),
{
    let e = Expr::GenericCall(c.callee, type_args, c.args, c.span);
    assert(expr_type(s, e, d) == check_call(s, e, d)) by {
        reveal_with_fuel(expr_type, 2);
    }
    let name = expr_name(s.names, *c.callee);
    let pure = callee_pure(s, name);
    let (s1, builtin) = entered_call(s, *c.callee, type_args@, c.span);
    if special_named(name) is None {
        if builtin is Some {
            assert(check_call(s, e, d) == typed_builtin_call(s1, e, name, pure, builtin->0, d));
        } else {
            assert(check_call(s, e, d) == typed_call(s1, e, name, pure, d));
        }
    }
}

/// A value is called where it is a function, or the name of a type that is built by calling it.
/// Anything else is reported, unless it was before, and the arguments are looked at.
pub proof fn law_calls_of_values(s: State, c: PlainCall, name: Option<Seq<char>>, pure: bool, d: nat)
    ensures
        ({
            let e = Expr::Call(c.callee, c.args, c.span);
            let (s1, callee) = check_expr(s, *c.callee, d);
            let t = ty(s1.types, callee);
            value_call(s, e, name, pure, d) == if callee == TypeInterner::ERROR {
                (each_arg(s1, c.args, 0, d), TypeInterner::ERROR)
            } else if t is Function {
                signature_call(
                    s1,
                    name,
                    pure,
                    s1.types.functions[t->Function_0.0 as int],
                    c.args,
                    c.span,
                    d,
                )
            } else if t is Machine || ((t is Struct || t is Bitfield) && names_type(s1, *c.callee, t)) {
                construct(s1, t, c.args, c.span, d)
            } else {
                (
                    each_arg(
                        with_report(
                            s1,
                            ErrorCode::NotCallable,
                            c.span,
                            seq![name_of(s1.types, callee)],
                        ),
                        c.args,
                        0,
                        d,
                    ),
                    TypeInterner::ERROR,
                )
            }
        }),
{
}

/// A declared struct, bitfield or machine is built by its name, except for the types that
/// describe types: those are reported.
pub proof fn law_constructors(s: State, name: Seq<char>, t: Type, args: Vec<CallArg>, span: Span, d: nat)
    ensures
        metadata_type(name) <==> name == "TypeInfo"@ || name == "TypeField"@ || name == "TypeBitfield"@ || name
            == "TypeBitfieldField"@ || name == "TypeMachine"@ || name == "TypeMachineState"@ || name
            == "TypeMachineTransition"@ || name == "TypeVariant"@,
        named_construct(s, name, t, args, span, d) == if t is Struct && metadata_type(name) {
            (
                each_arg(
                    with_report(
                        s,
                        ErrorCode::ReflectionMetadataConstructor,
                        span,
                        seq![name],
                    ),
                    args,
                    0,
                    d,
                ),
                TypeInterner::ERROR,
            )
        } else {
            match t {
                Type::Struct(sid) => struct_constructor(s, sid, args, span, d),
                Type::Bitfield(bid) => bitfield_constructor(s, bid, args, span, d),
                Type::Machine(mid) => machine_constructor(s, mid, args, span, d),
                _ => (s, TypeInterner::ERROR),
            }
        },
        constructor_named(s, Some(name)) is Some <==> s.named_types.contains_key(name) && (ty(
            s.types,
            s.named_types[name],
        ) is Struct || ty(s.types, s.named_types[name]) is Bitfield || ty(s.types, s.named_types[name]) is Machine),
        constructor_named(s, Some(name)) matches Some(built) ==> built == ty(s.types, s.named_types[name]),
        constructor_named(s, None) is None,
{
    reveal(metadata_type);
    reveal(constructor_named);
    assert(named_construct(s, name, t, args, span, d) == if t is Struct && metadata_type(name) {
        (
            each_arg(
                with_report(s, ErrorCode::ReflectionMetadataConstructor, span, seq![name]),
                args,
                0,
                d,
            ),
            TypeInterner::ERROR,
        )
    } else {
        construct(s, t, args, span, d)
    });
}

/// A generic struct is built by its name and type arguments, as the struct that it is with them.
pub proof fn law_generic_constructors(
    s: State,
    name: Seq<char>,
    type_args: Seq<TypeExpr>,
    args: Vec<CallArg>,
    span: Span,
    d: nat,
)
    ensures
        ({
            let (s1, ids) = resolve_types(s, type_args, 0, Seq::empty());
            let (s2, id) = struct_at(s1, name, ids, span, nesting());
            generic_construct(s, name, type_args, args, span, d) == match ty(s2.types, id) {
                Type::Struct(sid) if id != TypeInterner::ERROR => struct_constructor(
                    s2,
                    sid,
                    args,
                    span,
                    d,
                ),
                _ => (s2, TypeInterner::ERROR),
            }
        }),
{
}

// ---------------------------------------------------------------------------
// Generic functions
// ---------------------------------------------------------------------------

/// A call of a generic function gives its result type under the type arguments. Another number
/// of type arguments or arguments is reported and gives the error type. Where all arguments
/// fit, the body is checked for these type arguments.
pub proof fn law_calls_of_generic_functions(
    s: State,
    name: Seq<char>,
    f: FunctionDef,
    type_args: Seq<TypeExpr>,
    args: Vec<CallArg>,
    span: Span,
    d: nat,
)
    ensures
        ({
            let (s1, ids) = resolve_types(s, type_args, 0, Seq::empty());
            let subst = bind_params(Map::empty(), f.type_params@, ids, 0);
            let kinds = bind_kinds(s1, Map::empty(), f.type_params@, type_args, ids, 0);
            let (s2, sig) = generic_signature(s1, f, subst);
            let (s3, fits) = args_match(s2, args, sig.params, 0, 0, true, d);
            let (s4, facts) = argument_facts(s3, f.params@, sig.params, args@, 0, no_facts());
            let (after, t) = generic_call(s, name, f, type_args, args, span, d);
            if f.type_params@.len() != ids.len() {
                t == TypeInterner::ERROR && after == with_report(
                    s1,
                    ErrorCode::UnknownType,
                    span,
                    seq![
                        wrong_count(
                            name,
                            decimal(f.type_params@.len()) + " type argument(s)"@,
                            ids.len(),
                        ),
                    ],
                )
            } else if args@.len() != sig.params.len() {
                t == TypeInterner::ERROR && after == each_arg(
                    with_report(
                        s2,
                        ErrorCode::ArgumentCountMismatch,
                        span,
                        seq![name, decimal(sig.params.len()), decimal(args@.len())],
                    ),
                    args,
                    0,
                    d,
                )
            } else {
                &&& t == sig.return_type
                &&& !fits ==> after == s3
                &&& fits ==> after == instantiate(
                    s4,
                    f,
                    Generic { name, args: ids, subst, kinds, facts },
                    d,
                )
            }
        }),
{
}

/// The parameters and the result of a generic function are resolved with its type parameters
/// standing for the arguments, and only there.
pub proof fn law_signatures_of_generic_functions(s: State, f: FunctionDef, subst: Map<Seq<char>, TypeId>)
    ensures
        ({
            let (s1, params) = resolve_param_ids(State { subst, ..s }, f.params@, 0, Seq::empty());
            let (s2, return_type) = resolve_return(s1, f.return_type);
            generic_signature(s, f, subst) == (
                State { subst: s.subst, ..s2 },
                FunctionShapeV { params, return_type },
            )
        }),
{
    reveal(generic_signature);
}

/// Each type parameter stands for the argument at its place, and the last of a name counts.
pub proof fn law_type_parameters_stand_for_their_arguments(
    params: Seq<Ident>,
    args: Seq<TypeId>,
    i: int,
)
    requires
        0 <= i < params.len() == args.len(),
        forall|j: int| i < j < params.len() ==> (#[trigger] params[j]).name@ != params[i].name@,
    ensures
        bind_params(Map::empty(), params, args, 0).contains_key(params[i].name@),
        bind_params(Map::empty(), params, args, 0)[params[i].name@] == args[i],
{
    bound_from(Map::empty(), params, args, 0, i);
}

proof fn bound_from(
    m: Map<Seq<char>, TypeId>,
    params: Seq<Ident>,
    args: Seq<TypeId>,
    from: nat,
    i: int,
)
    requires
        0 <= i < params.len() == args.len(),
        forall|j: int| i < j < params.len() ==> (#[trigger] params[j]).name@ != params[i].name@,
        from > i ==> m.contains_key(params[i].name@) && m[params[i].name@] == args[i],
    ensures
        bind_params(m, params, args, from).contains_key(params[i].name@),
        bind_params(m, params, args, from)[params[i].name@] == args[i],
    decreases params.len() - from,
{
    if from < params.len() {
        bound_from(m.insert(params[from as int].name@, args[from as int]), params, args, from + 1, i);
    }
}

/// The arguments of a generic call are each held against their parameter, in their turn; all of
/// them fit only where each does.
pub proof fn law_generic_arguments_fit(
    s: State,
    args: Vec<CallArg>,
    params: Seq<TypeId>,
    skip: nat,
    i: nat,
    fits: bool,
    d: nat,
)
    ensures
        args_match(s, args, params, skip, i, fits, d) == if i >= args@.len() || i + skip >= params.len() {
            (s, fits)
        } else {
            let expected = params[(i + skip) as int];
            let value = args@[i as int].value;
            let (s1, got) = check_expected(s, value, expected, false, d);
            let here = compatible(s1.types, s1.impls, expected, got);
            args_match(
                if here {
                    s1
                } else {
                    with_report(
                        s1,
                        ErrorCode::TypeMismatch,
                        expr_span(value),
                        seq![name_of(s1.types, expected), name_of(s1.types, got)],
                    )
                },
                args,
                params,
                skip,
                i + 1,
                fits && here,
                d,
            )
        },
{
    reveal_with_fuel(args_match, 2);
}

/// The body of a function is checked with its parameters declared, its result type asked for,
/// and as pure exactly where no parameter is a capability. Behind it no function is around.
pub proof fn law_function_bodies(s: State, f: FunctionDef, name: Seq<char>, d: nat)
    ensures
        ({
            let (s1, ret) = resolve_return(s, f.return_type);
            let entered = declare_params(
                State {
                    context: ContextV {
                        return_type: Some(ret),
                        function_name: Some(name),
                        function_pure: pure_params(s1.names, f.params@),
                        ..s1.context
                    },
                    ..s1
                },
                f.params@,
                0,
            );
            let left = check_block(entered, f.body, d);
            function_body(s, f, name, d) == (State {
                context: ContextV {
                    return_type: None,
                    function_name: None,
                    function_pure: false,
                    ..left.context
                },
                ..left
            })
        }),
        f.return_type is None ==> resolve_return(s, f.return_type) == (s, TypeInterner::NOTHING),
{
}

// ---------------------------------------------------------------------------
// Pipelines
// ---------------------------------------------------------------------------

/// A pipeline sends its first value through its steps, and gives what they give.
pub proof fn law_pipelines(s: State, initial: Box<Expr>, steps: Vec<PipelineStep>, span: Span, d: nat)
    ensures
        ({
            let (s1, t1) = check_expr(s, *initial, d);
            let (after, t) = check_expr(s, Expr::Pipeline(initial, steps, span), d);
            t == check_steps(s1, t1, steps, 0, d).1 && after == set_type(
                check_steps(s1, t1, steps, 0, d).0,
                span,
                t,
            )
        }),
{
    let e = Expr::Pipeline(initial, steps, span);
    let (s1, t1) = check_expr(s, *initial, d);
    assert(expr_type(s, e, d) == check_steps(s1, t1, steps, 0, d)) by {
        reveal_with_fuel(expr_type, 2);
    }
}

/// The steps of a pipeline come one after the other: what one gives, handled where it says so,
/// goes into the next.
pub proof fn law_steps_in_turn(s: State, current: TypeId, steps: Vec<PipelineStep>, i: nat, d: nat)
    ensures
        i >= steps@.len() ==> check_steps(s, current, steps, i, d) == (s, current),
        i < steps@.len() ==> ({
            let (s1, t1) = check_step(s, current, steps@[i as int], d);
            check_steps(s, current, steps, i, d) == check_steps(s1, t1, steps, i + 1, d)
        }),
{
}

pub proof fn law_steps_are_handled(s: State, current: TypeId, step: PipelineStep, d: nat)
    ensures
        ({
            let (s1, t) = step_call(s, current, step, d);
            match step.handle {
                Some(h) => check_step(s, current, step, d) == handle(
                    s1,
                    t,
                    h.error_name,
                    h.body,
                    h.span,
                    d,
                ),
                None => check_step(s, current, step, d) == (s1, t),
            }
        }),
{
}

/// A step through a function with a known signature: the value that goes in is its first
/// argument, the written ones follow, and the step gives the function's result. Another number
/// of arguments is reported.
pub proof fn law_steps_through_known_functions(
    s: State,
    name: Option<Seq<char>>,
    pure: bool,
    sig: FunctionShapeV,
    current: TypeId,
    viewed: bool,
    args: Vec<CallArg>,
    span: Span,
    d: nat,
)
    ensures
        ({
            let (after, t) = signature_step(s, name, pure, sig, current, viewed, args, span, d);
            if args@.len() + 1 != sig.params.len() {
                t == sig.return_type && after == each_arg(
                    with_report(
                        s,
                        ErrorCode::ArgumentCountMismatch,
                        span,
                        seq![
                            named_or(name, "<pipeline step>"@),
                            decimal(sig.params.len()),
                            decimal(args@.len() + 1),
                        ],
                    ),
                    args,
                    0,
                    d,
                )
            } else {
                let (s1, first) = piped_argument(s, name, pure, "#1"@, sig.params[0], current, span);
                let (s2, types, tainted) = piped_args(
                    s1,
                    name,
                    pure,
                    sig.params,
                    args,
                    0,
                    seq![current],
                    first,
                    d,
                );
                let s3 = compare_report(s2, name, types, span);
                (after, t) == call_result(
                    json_policy(s3, name, current, viewed, span, sig.return_type),
                    name,
                    pure,
                    tainted,
                    sig.return_type,
                )
            }
        }),
{
}

/// The written arguments of a step are held against the parameters behind the first, in their
/// turn.
pub proof fn law_written_arguments_of_a_step(
    s: State,
    name: Option<Seq<char>>,
    pure: bool,
    params: Seq<TypeId>,
    args: Vec<CallArg>,
    i: nat,
    found: Seq<TypeId>,
    tainted: bool,
    d: nat,
)
    ensures
        piped_args(s, name, pure, params, args, i, found, tainted, d) == if i >= args@.len() || i + 1
            >= params.len() {
            (s, found, tainted)
        } else {
            let value = args@[i as int].value;
            let (s1, t) = check_expected(s, value, params[i as int + 1], false, d);
            let (s2, lifted) = piped_argument(
                s1,
                name,
                pure,
                "#"@ + decimal(i + 2),
                params[i as int + 1],
                t,
                expr_span(value),
            );
            piped_args(
                s2,
                name,
                pure,
                params,
                args,
                i + 1,
                found.push(t),
                tainted || lifted,
                d,
            )
        },
{
    reveal_with_fuel(piped_args, 2);
}

/// What a step calls, without `view` before it, and with which type arguments and arguments.
pub open spec fn called_in(step: PipelineStep) -> (Expr, Seq<TypeExpr>, Vec<CallArg>) {
    let function = match step.function {
        Expr::View(inner, _) => *inner,
        f => f,
    };
    match function {
        Expr::GenericCall(callee, type_args, args, _) => (*callee, type_args@, args),
        f => (f, Seq::empty(), step.extra_args),
    }
}

/// A step goes, in this order, to `math.abs`, `math.min` or `math.max`, to a builtin, to a
/// generic function where it has type arguments, or to a function of the module. Anything else
/// is reported. A call of an impure function from a pure one is reported first.
pub proof fn law_where_steps_go(s: State, current: TypeId, step: PipelineStep, d: nat)
    requires
        ({
            let (callee, _, _) = called_in(step);
            let name = expr_name(s.names, callee);
            name != Some("math.abs"@) && name != Some("math.min"@) && name != Some("math.max"@)
        }),
    ensures
        ({
            let (callee, type_args, args) = called_in(step);
            let name = expr_name(s.names, callee);
            let pure = callee_pure(s, name);
            let s1 = purity_reports(s, name, pure, step.span);
            let (s2, builtin) = builtin_signature(s1, callee, type_args, step.span);
            let generic = builtin is None && type_args.len() != 0 && name is Some;
            step_call(s, current, step, d) == if builtin is Some {
                signature_step(
                    s2,
                    name,
                    pure,
                    builtin->0,
                    current,
                    step.function is View,
                    args,
                    step.span,
                    d,
                )
            } else if generic && s2.function_templates.contains_key(name->0) {
                generic_step(
                    s2,
                    name->0,
                    s2.function_templates[name->0],
                    current,
                    type_args,
                    args,
                    step.span,
                    d,
                )
            } else if generic && s2.signatures.contains_key(name->0) {
                (
                    each_arg(
                        with_report(
                            s2,
                            ErrorCode::UnknownType,
                            step.span,
                            seq![
                                wrong_count(
                                    name->0,
                                    decimal(0) + " type argument(s)"@,
                                    type_args.len(),
                                ),
                            ],
                        ),
                        args,
                        0,
                        d,
                    ),
                    TypeInterner::ERROR,
                )
            } else if name is Some && s2.signatures.contains_key(name->0) {
                signature_step(
                    s2,
                    name,
                    pure,
                    s2.signatures[name->0],
                    current,
                    step.function is View,
                    args,
                    step.span,
                    d,
                )
            } else {
                (
                    with_report(
                        each_arg(check_expr(s2, callee, d).0, args, 0, d),
                        ErrorCode::NotCallable,
                        step.span,
                        seq![named_or(name, "pipeline step"@)],
                    ),
                    TypeInterner::ERROR,
                )
            }
        }),
{
    let (callee, type_args, args) = called_in(step);
    let name = expr_name(s.names, callee);
    let pure = callee_pure(s, name);
    let s1 = purity_reports(s, name, pure, step.span);
    let (s2, builtin) = builtin_signature(s1, callee, type_args, step.span);
    assert(step_callee(step) == callee);
    assert(step_type_args(step) == type_args);
    assert(step_args(step) == args);
    if builtin is None && type_args.len() != 0 {
        let r = typed_step(s2, name, current, type_args, args, step.span, d);
        if r is None {
            assert(step_call(s, current, step, d) == plain_step(s2, step, name, pure, builtin, current, d));
        } else {
            assert(step_call(s, current, step, d) == r->0);
        }
    } else {
        assert(step_call(s, current, step, d) == plain_step(s2, step, name, pure, builtin, current, d));
    }
}

/// `value |> min(other)` and the like take the value as their left side.
pub proof fn law_steps_to_min_and_max(
    s: State,
    name: Seq<char>,
    current: TypeId,
    args: Vec<CallArg>,
    span: Span,
    d: nat,
)
    ensures
        min_max_step(s, name, current, Seq::empty(), args, span, d) == if args@.len() == 1 {
            smaller_or_greater(s, current, "#1"@, span, args@[0].value, "#2"@, d)
        } else {
            (
                each_arg(
                    with_report(
                        s,
                        ErrorCode::ArgumentCountMismatch,
                        span,
                        seq![name, decimal(2), decimal(args@.len() + 1)],
                    ),
                    args,
                    0,
                    d,
                ),
                TypeInterner::ERROR,
            )
        },
        abs_step(s, name, current, Seq::empty(), args, span, d) == if args@.len()
            == 0 {
            absolute(s, "#1"@, current, span)
        } else {
            (
                each_arg(
                    with_report(
                        s,
                        ErrorCode::ArgumentCountMismatch,
                        span,
                        seq![name, decimal(1), decimal(args@.len() + 1)],
                    ),
                    args,
                    0,
                    d,
                ),
                TypeInterner::ERROR,
            )
        },
{
}

/// A step through a generic function: the value that goes in is held against the first
/// parameter under the type arguments, the written arguments against the others.
pub proof fn law_steps_through_generic_functions(
    s: State,
    name: Seq<char>,
    f: FunctionDef,
    current: TypeId,
    type_args: Seq<TypeExpr>,
    args: Vec<CallArg>,
    span: Span,
    d: nat,
)
    ensures
        ({
            let (s1, ids) = resolve_types(s, type_args, 0, Seq::empty());
            let subst = bind_params(Map::empty(), f.type_params@, ids, 0);
            let kinds = bind_kinds(s1, Map::empty(), f.type_params@, type_args, ids, 0);
            let (s2, sig) = generic_signature(s1, f, subst);
            let (after, t) = generic_step(s, name, f, current, type_args, args, span, d);
            if f.type_params@.len() != ids.len() {
                t == TypeInterner::ERROR && after == each_arg(
                    with_report(
                        s1,
                        ErrorCode::UnknownType,
                        span,
                        seq![
                            wrong_count(
                                name,
                                decimal(f.type_params@.len()) + " type argument(s)"@,
                                ids.len(),
                            ),
                        ],
                    ),
                    args,
                    0,
                    d,
                )
            } else if args@.len() + 1 != sig.params.len() {
                t == TypeInterner::ERROR && after == each_arg(
                    with_report(
                        s2,
                        ErrorCode::ArgumentCountMismatch,
                        span,
                        seq![name, decimal(sig.params.len()), decimal(args@.len() + 1)],
                    ),
                    args,
                    0,
                    d,
                )
            } else {
                let first = compatible(s2.types, s2.impls, sig.params[0], current);
                let s3 = if first {
                    s2
                } else {
                    with_report(
                        s2,
                        ErrorCode::TypeMismatch,
                        span,
                        seq![name_of(s2.types, sig.params[0]), name_of(s2.types, current)],
                    )
                };
                let (s4, fits) = args_match(s3, args, sig.params, 1, 0, first, d);
                &&& t == sig.return_type
                &&& !fits ==> after == s4
                &&& fits ==> after == instantiate(
                    s4,
                    f,
                    Generic { name, args: ids, subst, kinds, facts: no_facts() },
                    d,
                )
            }
        }),
{
}

} // verus!
