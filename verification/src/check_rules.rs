//! Rules that look at one place at a time: names, operators, arguments, members.
use vstd::prelude::*;
use vstd::string::StringExecFns;

use crate::ast::{BinOp, Expr, Ident};
use crate::builtin_calls::{ids1, or_error};
use crate::diagnostics::{args0, args1, args2, args3, error, warning, Diagnostic, ErrorCode};
use crate::names::expanded_name;
use crate::ownership::{dotted_name, dotted_name_str};
use crate::resolution::{definition_at, full_name, kind_at, DefKind};
use crate::span::Span;
use crate::state::{intern_type, report, with_types, State, TypeChecker};
use crate::steady::{has, has_fields, has_maybe, has_slots, has_states, keeps, known};
use crate::table::{look, views, Dup};
use crate::text::{decimal, decimal_text_wide, dup_text, join2, join3, maybe_text, same_text, text};
use crate::type_names::name_of;
use crate::type_rules::{
    can_refine, compatible, contains_secret, impure_builtin, is_impure_builtin,
    is_secret_liftable_call, is_secret_output_boundary, is_secret_safe_builtin, json_needs_view,
    json_odd_keys, json_unsupported_in, names_of, numeric, output_boundary, public_projection,
    requires_bare_handle, requires_handle_error, revealed, secret_argument, secret_fields,
    secret_liftable, secret_safe_builtin, wrap_secret,
};
use crate::type_walk::named_ids;
use crate::types::{
    grounded, intern_function, sound, state_named, ty, BitfieldFieldShape, BitfieldFieldShapeV,
    FunctionShapeV, FunctionSig, FunctionSigV, MachineId, MachineShapeV, NamedType, NamedTypeV,
    SigParam, SigParamV, Type, TypeId, TypeInterner, Types, VariantShape, VariantShapeV,
};

verus! {

broadcast use crate::steady::group_steady;

// ---------------------------------------------------------------------------
// Reports
// ---------------------------------------------------------------------------

pub open spec fn report0(s: State, code: ErrorCode, span: Span) -> State {
    report(s, error(code, span, Seq::empty()))
}

pub open spec fn warn0(s: State, code: ErrorCode, span: Span) -> State {
    report(s, warning(code, span, Seq::empty()))
}

pub open spec fn report1(s: State, code: ErrorCode, span: Span, a: Seq<char>) -> State {
    report(s, error(code, span, seq![a]))
}

pub open spec fn report2(s: State, code: ErrorCode, span: Span, a: Seq<char>, b: Seq<char>) -> State {
    report(s, error(code, span, seq![a, b]))
}

pub open spec fn report3(
    s: State,
    code: ErrorCode,
    span: Span,
    a: Seq<char>,
    b: Seq<char>,
    c: Seq<char>,
) -> State {
    report(s, error(code, span, seq![a, b, c]))
}

/// Reports `code` with the two types by name.
pub open spec fn report_types(s: State, code: ErrorCode, span: Span, a: TypeId, b: TypeId) -> State {
    report2(s, code, span, name_of(s.types, a), name_of(s.types, b))
}

/// Reports `got` where `expected` is asked for, unless it fits.
pub open spec fn expect_type(s: State, expected: TypeId, got: TypeId, span: Span) -> State {
    if compatible(s.types, s.impls, expected, got) {
        s
    } else {
        report_types(s, ErrorCode::TypeMismatch, span, expected, got)
    }
}

/// Reports an argument that does not fit its parameter.
pub open spec fn expect_argument(
    s: State,
    label: Seq<char>,
    expected: TypeId,
    got: TypeId,
    span: Span,
) -> State {
    if compatible(s.types, s.impls, expected, got) {
        s
    } else {
        report3(
            s,
            ErrorCode::ArgumentTypeMismatch,
            span,
            label,
            name_of(s.types, expected),
            name_of(s.types, got),
        )
    }
}

pub open spec fn wrong_argument_count(
    s: State,
    name: Seq<char>,
    expected: nat,
    got: nat,
    span: Span,
) -> State {
    report3(s, ErrorCode::ArgumentCountMismatch, span, name, decimal(expected), decimal(got))
}

pub open spec fn no_member(s: State, owner: Seq<char>, member: Seq<char>, span: Span) -> State {
    report2(s, ErrorCode::TypeHasNoMember, span, owner, member)
}

/// Reports a condition that is not a `bool`.
pub open spec fn expect_bool(s: State, code: ErrorCode, id: TypeId, span: Span) -> State {
    if id == TypeInterner::ERROR || id == TypeInterner::BOOL {
        s
    } else {
        report1(s, code, span, name_of(s.types, id))
    }
}

pub open spec fn set_type(s: State, span: Span, id: TypeId) -> State {
    State { type_map: s.type_map.insert(span, id), ..s }
}

/// Gives the variable declared at a place its type.
pub open spec fn declare(s: State, span: Span, id: TypeId) -> State {
    match definition_at(s.names, span) {
        Some(def) => State { type_env: s.type_env.insert(def, id), ..s },
        None => s,
    }
}

/// The type of a name.
pub open spec fn ident_type(s: State, span: Span) -> TypeId {
    match definition_at(s.names, span) {
        Some(def) => or_error(look(s.type_env, def)),
        None => TypeInterner::ERROR,
    }
}

// ---------------------------------------------------------------------------
// Operators
// ---------------------------------------------------------------------------

pub open spec fn operator_word(op: BinOp) -> Seq<char> {
    match op {
        BinOp::Add => "+"@,
        BinOp::Sub => "-"@,
        BinOp::Mul => "*"@,
        BinOp::Div => "/"@,
        BinOp::Modulo => "modulo"@,
        BinOp::Eq => "=="@,
        BinOp::NotEq => "!="@,
        BinOp::Lt => "<"@,
        BinOp::Gt => ">"@,
        BinOp::LtEq => "<="@,
        BinOp::GtEq => ">="@,
        BinOp::And => "&&"@,
        BinOp::Or => "||"@,
    }
}

pub fn binop_str(op: BinOp) -> (r: &'static str)
    ensures
        r@ == operator_word(op),
{
    match op {
        BinOp::Add => "+",
        BinOp::Sub => "-",
        BinOp::Mul => "*",
        BinOp::Div => "/",
        BinOp::Modulo => "modulo",
        BinOp::Eq => "==",
        BinOp::NotEq => "!=",
        BinOp::Lt => "<",
        BinOp::Gt => ">",
        BinOp::LtEq => "<=",
        BinOp::GtEq => ">=",
        BinOp::And => "&&",
        BinOp::Or => "||",
    }
}

pub open spec fn arithmetic(op: BinOp) -> bool {
    match op {
        BinOp::Add | BinOp::Sub | BinOp::Mul | BinOp::Div | BinOp::Modulo => true,
        _ => false,
    }
}

pub fn is_arithmetic(op: BinOp) -> (r: bool)
    ensures
        r == arithmetic(op),
{
    match op {
        BinOp::Add | BinOp::Sub | BinOp::Mul | BinOp::Div | BinOp::Modulo => true,
        _ => false,
    }
}

/// Whether the operator takes operands of these types, secrets laid open.
pub open spec fn operands_fit(ts: Types, op: BinOp, l: TypeId, r: TypeId) -> bool {
    match op {
        BinOp::And | BinOp::Or => l == TypeInterner::BOOL && r == TypeInterner::BOOL,
        _ => l == r && (arithmetic(op) ==> numeric(ty(ts, l))),
    }
}

/// The type of an operation. It is secret where an operand is.
#[verifier::opaque]
pub open spec fn operation(s: State, op: BinOp, l: TypeId, r: TypeId, span: Span) -> (State, TypeId) {
    if l == TypeInterner::ERROR || r == TypeInterner::ERROR {
        (s, TypeInterner::ERROR)
    } else if !operands_fit(s.types, op, revealed(s.types, l), revealed(s.types, r)) {
        (
            report3(
                s,
                ErrorCode::BinaryOpMismatch,
                span,
                operator_word(op),
                name_of(s.types, l),
                name_of(s.types, r),
            ),
            TypeInterner::ERROR,
        )
    } else {
        with_types(
            s,
            wrap_secret(
                s.types,
                if arithmetic(op) {
                    revealed(s.types, l)
                } else {
                    TypeInterner::BOOL
                },
                ty(s.types, l) is Secret || ty(s.types, r) is Secret,
            ),
        )
    }
}

/// `int64` or `float64`, whichever the type stands for, and whether it is secret.
pub open spec fn math_base(s: State, id: TypeId) -> Option<(TypeId, bool)> {
    let base = revealed(s.types, id);
    if compatible(s.types, s.impls, TypeInterner::INT64, base) {
        Some((TypeInterner::INT64, ty(s.types, id) is Secret))
    } else if compatible(s.types, s.impls, TypeInterner::FLOAT64, base) {
        Some((TypeInterner::FLOAT64, ty(s.types, id) is Secret))
    } else {
        None
    }
}

// ---------------------------------------------------------------------------
// Calls
// ---------------------------------------------------------------------------

/// Whether the function that a call goes to is known to be pure.
pub open spec fn callee_pure(s: State, name: Option<Seq<char>>) -> bool {
    match name {
        Some(n) => !impure_builtin(n) && (s.purity_map.contains_key(n) ==> s.purity_map[n]),
        None => false,
    }
}

/// Reports a call of an impure function from a pure one or from a verify block.
#[verifier::opaque]
pub open spec fn purity_reports(s: State, name: Option<Seq<char>>, pure: bool, span: Span) -> State {
    match name {
        Some(callee) => if pure {
            s
        } else {
            let s1 = if s.context.function_pure && s.context.function_name is Some {
                report2(
                    s,
                    ErrorCode::PureCallsImpure,
                    span,
                    s.context.function_name->0,
                    callee,
                )
            } else {
                s
            };
            if s1.context.in_verify && s1.context.verify_name is Some {
                report2(
                    s1,
                    ErrorCode::VerifyCallsImpure,
                    span,
                    s1.context.verify_name->0,
                    callee,
                )
            } else {
                s1
            }
        },
        None => s,
    }
}

pub open spec fn or_call(name: Option<Seq<char>>) -> Seq<char> {
    match name {
        Some(n) => n,
        None => "<call>"@,
    }
}

/// Reports what is wrong with an argument. The flag tells whether the argument
/// is a secret passed as its public form, so that the result is secret too.
#[verifier::opaque]
pub open spec fn argument(
    s: State,
    name: Option<Seq<char>>,
    pure: bool,
    label: Seq<char>,
    param: TypeId,
    arg: TypeId,
    span: Span,
) -> (State, bool) {
    if ty(s.types, param) is Refinement && arg != TypeInterner::ERROR && can_refine(s.types, arg, param) {
        (report_types(s, ErrorCode::RefinementRequiresHandleError, span, param, arg), false)
    } else if name is Some && output_boundary(name->0) && ty(s.types, arg) is Secret {
        (report2(s, ErrorCode::SecretExposure, span, name->0, name_of(s.types, arg)), false)
    } else if name is Some && secret_safe_builtin(name->0) && !(ty(s.types, arg) is Secret) {
        (
            report2(
                s,
                ErrorCode::SecretOperationRequiresSecret,
                span,
                name->0,
                name_of(s.types, arg),
            ),
            false,
        )
    } else {
        let (fits, lifted) = secret_argument(s.types, s.impls, param, arg);
        if fits && lifted {
            let allowed = match name {
                Some(n) => secret_liftable(n, pure),
                None => pure,
            };
            if allowed {
                (s, true)
            } else {
                (
                    report2(s, ErrorCode::SecretExposure, span, or_call(name), name_of(s.types, arg)),
                    false,
                )
            }
        } else if fits {
            (s, false)
        } else {
            (expect_argument(s, label, param, arg, span), false)
        }
    }
}

/// The same for a value that goes into a call through a pipeline, which has not
/// been held against the parameter before.
#[verifier::opaque]
pub open spec fn piped_argument(
    s: State,
    name: Option<Seq<char>>,
    pure: bool,
    label: Seq<char>,
    param: TypeId,
    arg: TypeId,
    span: Span,
) -> (State, bool) {
    if arg != TypeInterner::ERROR && requires_handle_error(s.types, s.impls, param, arg) {
        (report0(s, ErrorCode::ResultRequiresHandleError, span), false)
    } else if arg != TypeInterner::ERROR && requires_bare_handle(s.types, s.impls, param, arg) {
        (report0(s, ErrorCode::OptionalRequiresBareHandle, span), false)
    } else {
        argument(s, name, pure, label, param, arg, span)
    }
}

/// `#n`
pub open spec fn place_label(n: nat) -> Seq<char> {
    "#"@ + decimal(n)
}

/// Both sides of `secret.compare` hold the same type in secret.
#[verifier::opaque]
pub open spec fn compare_report(s: State, name: Option<Seq<char>>, args: Seq<TypeId>, span: Span) -> State {
    if name == Some("secret.compare"@) && args.len() == 2 && ty(s.types, args[0]) is Secret && ty(
        s.types,
        args[1],
    ) is Secret && (!compatible(
        s.types,
        s.impls,
        revealed(s.types, args[0]),
        revealed(s.types, args[1]),
    ) || !compatible(
        s.types,
        s.impls,
        revealed(s.types, args[1]),
        revealed(s.types, args[0]),
    )) {
        report3(
            s,
            ErrorCode::ArgumentTypeMismatch,
            span,
            "#2"@,
            name_of(s.types, args[0]),
            name_of(s.types, args[1]),
        )
    } else {
        s
    }
}

/// A report for each name from `i` on.
pub open spec fn report_each(
    s: State,
    code: ErrorCode,
    span: Span,
    first: Option<Seq<char>>,
    names: Seq<Seq<char>>,
    i: nat,
) -> State
    decreases names.len() - i,
{
    if i >= names.len() {
        s
    } else {
        let args = match first {
            Some(f) => seq![f, names[i as int]],
            None => seq![names[i as int]],
        };
        report_each(report(s, error(code, span, args)), code, span, first, names, i + 1)
    }
}

/// What may not go out as JSON: a value read without a view, maps with other
/// keys than strings, types that JSON has no form for.
#[verifier::opaque]
pub open spec fn serialize_policy(
    s: State,
    function: Seq<char>,
    id: TypeId,
    viewed: bool,
    span: Span,
) -> State {
    let s1 = if !viewed && json_needs_view(s.types, id) {
        report2(s, ErrorCode::JsonSerializeRequiresView, span, function, name_of(s.types, id))
    } else {
        s
    };
    let s2 = report_each(
        s1,
        ErrorCode::JsonMapKeyMustBeString,
        span,
        None,
        names_of(s.types, json_odd_keys(s.types, id)),
        0,
    );
    report_each(
        s2,
        ErrorCode::JsonUnsupportedSerializeType,
        span,
        Some(function),
        names_of(s.types, json_unsupported_in(s.types, id, false, true)),
        0,
    )
}

/// What may not come in as JSON.
#[verifier::opaque]
pub open spec fn parse_policy(s: State, function: Seq<char>, ret: TypeId, span: Span) -> State {
    match ty(s.types, ret) {
        Type::Result(parsed, _) => {
            let s1 = report_each(
                s,
                ErrorCode::JsonMapKeyMustBeString,
                span,
                None,
                names_of(s.types, json_odd_keys(s.types, parsed)),
                0,
            );
            report_each(
                s1,
                ErrorCode::JsonUnsupportedParseType,
                span,
                Some(function),
                names_of(s.types, json_unsupported_in(s.types, parsed, true, true)),
                0,
            )
        },
        _ => s,
    }
}

#[verifier::opaque]
pub open spec fn secret_data(s: State, function: Seq<char>, id: TypeId, span: Span) -> State {
    report(
        s,
        error(
            ErrorCode::TypeContainsSecretData,
            span,
            seq![function, name_of(s.types, id)] + secret_fields(s.types, id),
        ),
    )
}

/// The rules of the JSON functions on the value that goes in or out.
#[verifier::opaque]
pub open spec fn json_policy(
    s: State,
    name: Option<Seq<char>>,
    value: TypeId,
    viewed: bool,
    span: Span,
    ret: TypeId,
) -> State {
    match name {
        None => s,
        Some(n) => if n == "json.serialize"@ {
            let s1 = if contains_secret(s.types, value) {
                secret_data(s, n, value, span)
            } else {
                s
            };
            serialize_policy(s1, n, value, viewed, span)
        } else if n == "json.serialize_public"@ {
            let s1 = if !(ty(s.types, value) is Secret) && contains_secret(s.types, value)
                && !public_projection(s.types, value) {
                secret_data(s, n, value, span)
            } else {
                s
            };
            serialize_policy(s1, n, value, viewed, span)
        } else if n == "json.parse"@ || n == "json.parse_exact"@ {
            parse_policy(s, n, ret, span)
        } else {
            s
        },
    }
}

/// What a call gives: secret where a secret went in as its public form.
pub open spec fn call_result(
    s: State,
    name: Option<Seq<char>>,
    pure: bool,
    tainted: bool,
    ret: TypeId,
) -> (State, TypeId) {
    if name is Some && tainted && secret_liftable(name->0, pure) {
        with_types(s, wrap_secret(s.types, ret, true))
    } else {
        (s, ret)
    }
}

// ---------------------------------------------------------------------------
// Members
// ---------------------------------------------------------------------------

pub open spec fn field_type(fields: Seq<NamedTypeV>, name: Seq<char>, i: nat) -> Option<TypeId>
    decreases fields.len() - i,
{
    if i >= fields.len() {
        None
    } else if fields[i as int].name == name {
        Some(fields[i as int].ty)
    } else {
        field_type(fields, name, i + 1)
    }
}

pub open spec fn slot_type(fields: Seq<BitfieldFieldShapeV>, name: Seq<char>, i: nat) -> Option<TypeId>
    decreases fields.len() - i,
{
    if i >= fields.len() {
        None
    } else if fields[i as int].name == name {
        Some(fields[i as int].ty)
    } else {
        slot_type(fields, name, i + 1)
    }
}

pub open spec fn method_named(methods: Seq<FunctionSigV>, name: Seq<char>, i: nat) -> Option<FunctionSigV>
    decreases methods.len() - i,
{
    if i >= methods.len() {
        None
    } else if methods[i as int].name == name {
        Some(methods[i as int])
    } else {
        method_named(methods, name, i + 1)
    }
}

pub open spec fn variant_named(variants: Seq<VariantShapeV>, name: Seq<char>, i: nat) -> Option<
    VariantShapeV,
>
    decreases variants.len() - i,
{
    if i >= variants.len() {
        None
    } else if variants[i as int].name == name {
        Some(variants[i as int])
    } else {
        variant_named(variants, name, i + 1)
    }
}

pub open spec fn sig_types(params: Seq<SigParamV>) -> Seq<TypeId> {
    params.map_values(|p: SigParamV| p.ty)
}

/// The function type of a method.
pub open spec fn method_type(s: State, m: FunctionSigV) -> (State, TypeId) {
    with_types(
        s,
        intern_function(
            s.types,
            FunctionShapeV { params: sig_types(m.params), return_type: m.return_type },
        ),
    )
}

/// A method of an interface; `None` where the type is no interface.
#[verifier::opaque]
pub open spec fn interface_method(s: State, id: TypeId, field: Ident, span: Span) -> (State, Option<
    TypeId,
>) {
    match ty(s.types, id) {
        Type::Interface(i) => {
            let def = s.types.interfaces[i.0 as int];
            match method_named(def.methods, field.name@, 0) {
                Some(m) => {
                    let (s1, t) = method_type(s, m);
                    (s1, Some(t))
                },
                None => (
                    report2(s, ErrorCode::InterfaceHasNoMember, span, def.name, field.name@),
                    Some(TypeInterner::ERROR),
                ),
            }
        },
        _ => (s, None),
    }
}

/// A method of the struct itself.
pub open spec fn own_method(s: State, id: TypeId, name: Seq<char>) -> Option<FunctionSigV> {
    match ty(s.types, id) {
        Type::Struct(sid) => method_named(s.types.structs[sid.0 as int].methods, name, 0),
        _ => None,
    }
}

pub open spec fn implemented_method(s: State, id: TypeId, name: Seq<char>) -> Option<FunctionSigV> {
    match look(s.impl_methods, id) {
        Some(methods) => look(methods, name),
        None => None,
    }
}

/// A function called by the name of a type: one of its own, one that every
/// bitfield has, or one that an interface brings.
#[verifier::opaque]
pub open spec fn type_method(s: State, id: TypeId, field: Ident, span: Span) -> (State, Option<TypeId>) {
    match own_method(s, id, field.name@) {
        Some(m) => {
            let (s1, t) = method_type(s, m);
            (s1, Some(t))
        },
        None => if ty(s.types, id) is Bitfield && field.name@ == "to_bytes"@ {
            let (s1, t) = with_types(
                s,
                intern_function(
                    s.types,
                    FunctionShapeV { params: seq![id], return_type: TypeInterner::BYTES },
                ),
            );
            (s1, Some(t))
        } else if ty(s.types, id) is Bitfield && field.name@ == "from_bytes"@ {
            let (s1, r) = intern_type(s, Type::Result(id, TypeInterner::STRING));
            let (s2, t) = with_types(
                s1,
                intern_function(
                    s1.types,
                    FunctionShapeV { params: seq![TypeInterner::BYTES], return_type: r },
                ),
            );
            (s2, Some(t))
        } else {
            match implemented_method(s, id, field.name@) {
                Some(m) => {
                    let (s1, t) = method_type(s, m);
                    (s1, Some(t))
                },
                None => (no_member(s, name_of(s.types, id), field.name@, span), None),
            }
        },
    }
}

/// A variant by itself: a value, or a function from the fields to one.
#[verifier::opaque]
pub open spec fn variant_of(s: State, id: TypeId, variant: Ident, span: Span) -> (State, TypeId) {
    match ty(s.types, id) {
        Type::Enum(eid) => {
            let def = s.types.enums[eid.0 as int];
            match variant_named(def.variants, variant.name@, 0) {
                None => (no_member(s, def.name, variant.name@, span), TypeInterner::ERROR),
                Some(v) => if v.fields.len() == 0 {
                    (s, id)
                } else {
                    with_types(
                        s,
                        intern_function(
                            s.types,
                            FunctionShapeV {
                                params: named_ids(v.fields),
                                return_type: id,
                            },
                        ),
                    )
                },
            }
        },
        _ => (
            no_member(s, name_of(s.types, id), variant.name@, span),
            TypeInterner::ERROR,
        ),
    }
}

pub open spec fn enum_variant(s: State, owner: Ident, variant: Ident, span: Span) -> (State, TypeId) {
    let id = ident_type(s, owner.span);
    if id == TypeInterner::ERROR {
        (s, TypeInterner::ERROR)
    } else {
        variant_of(s, id, variant, span)
    }
}

/// The type of a field of a value, or the owner's name where it has none such.
#[verifier::opaque]
pub open spec fn value_field(ts: Types, id: TypeId, name: Seq<char>) -> Result<TypeId, Seq<char>> {
    match ty(ts, id) {
        Type::Struct(sid) => match field_type(ts.structs[sid.0 as int].fields, name, 0) {
            Some(t) => Ok(t),
            None => Err(ts.structs[sid.0 as int].name),
        },
        Type::Bitfield(bid) => match slot_type(ts.bitfields[bid.0 as int].fields, name, 0) {
            Some(t) => Ok(t),
            None => Err(ts.bitfields[bid.0 as int].name),
        },
        Type::MachineState { machine, state } => {
            let def = ts.machines[machine.0 as int];
            if state.0 < def.states.len() {
                match field_type(def.states[state.0 as int].fields, name, 0) {
                    Some(t) => Ok(t),
                    None => Err(name_of(ts, id)),
                }
            } else {
                Err(name_of(ts, id))
            }
        },
        _ => Err(name_of(ts, id)),
    }
}

/// A field of a value. What is inside a secret is secret.
#[verifier::opaque]
pub open spec fn field_of(s: State, id: TypeId, field: Ident, span: Span) -> (State, TypeId) {
    if id == TypeInterner::ERROR {
        (s, TypeInterner::ERROR)
    } else {
        match ty(s.types, id) {
            Type::Secret(inner) => match value_field(s.types, inner, field.name@) {
                Ok(t) => with_types(s, wrap_secret(s.types, t, true)),
                Err(owner) => (
                    no_member(s, "secret["@ + owner + "]"@, field.name@, span),
                    TypeInterner::ERROR,
                ),
            },
            _ => match value_field(s.types, id, field.name@) {
                Ok(t) => (s, t),
                Err(owner) => (no_member(s, owner, field.name@, span), TypeInterner::ERROR),
            },
        }
    }
}

/// What `Owner.field` is where `Owner` is the declared type `id`.
#[verifier::opaque]
pub open spec fn static_member(s: State, id: TypeId, field: Ident, span: Span) -> (State, Option<TypeId>) {
    if ty(s.types, id) is Enum {
        let (s1, t) = variant_of(s, id, field, span);
        (s1, Some(t))
    } else {
        let (s1, m) = interface_method(s, id, field, span);
        match m {
            Some(t) => (s1, Some(t)),
            None => type_method(s1, id, field, span),
        }
    }
}

/// What `base.field` is where `base` is the name of a type.
#[verifier::opaque]
pub open spec fn member_of_name(s: State, base: Ident, field: Ident, span: Span) -> (State, Option<TypeId>) {
    let kind = kind_at(s.names, base.span);
    if kind == Some(DefKind::Enum) {
        let (s1, t) = enum_variant(s, base, field, span);
        (s1, Some(t))
    } else {
        let id = ident_type(s, base.span);
        let (s1, m) = if kind == Some(DefKind::Interface) {
            interface_method(s, id, field, span)
        } else if kind == Some(DefKind::Struct) || kind == Some(DefKind::Bitfield) {
            type_method(s, id, field, span)
        } else {
            (s, None)
        };
        match m {
            Some(t) => (s1, Some(t)),
            None => match look(s1.named_types, base.name@) {
                None => (s1, None),
                Some(named) => if ty(s1.types, named) is Enum {
                    let (s2, t) = enum_variant(s1, base, field, span);
                    (s2, Some(t))
                } else {
                    static_member(s1, named, field, span)
                },
            },
        }
    }
}

/// What `a.b.field` is where `a.b` is the name of a type.
#[verifier::opaque]
pub open spec fn member_of_path(s: State, base: Expr, field: Ident, span: Span) -> (State, Option<TypeId>) {
    match dotted_name(base) {
        None => (s, None),
        Some(name) => match look(s.named_types, full_name(s.names, name, span)) {
            None => (s, None),
            Some(id) => static_member(s, id, field, span),
        },
    }
}

/// The machine whose `transition` function a callee is.
#[verifier::opaque]
pub open spec fn transition_owner(s: State, callee: Expr) -> Option<MachineId> {
    match callee {
        Expr::FieldAccess(base, field, span) => if field.name@ != "transition"@ {
            None
        } else {
            match declared_machine(s, span) {
                Some(m) => Some(m),
                None => match expanded_name(s.names, *base) {
                    Some(owner) => machine_named(s, owner),
                    None => None,
                },
            }
        },
        _ => None,
    }
}

pub open spec fn machine_named(s: State, name: Seq<char>) -> Option<MachineId> {
    match look(s.named_types, name) {
        Some(id) => match ty(s.types, id) {
            Type::Machine(m) => Some(m),
            _ => None,
        },
        None => None,
    }
}

/// The machine that the name at a place refers to.
pub open spec fn declared_machine(s: State, span: Span) -> Option<MachineId> {
    match definition_at(s.names, span) {
        Some(id) => if id.0 < s.names.definitions.len() && s.names.definitions[id.0 as int].kind
            == DefKind::Machine {
            machine_named(s, s.names.definitions[id.0 as int].name)
        } else {
            None
        },
        None => None,
    }
}

/// Types that can stand in an interpolated string.
#[verifier::opaque]
pub open spec fn displayable(s: State, id: TypeId) -> bool {
    match ty(s.types, id) {
        Type::Int8 | Type::Int16 | Type::Int32 | Type::Int64 => true,
        Type::Uint8 | Type::Uint16 | Type::Uint32 | Type::Uint64 => true,
        Type::Float32 | Type::Float64 | Type::String | Type::Bool => true,
        _ => match look(s.named_types, "Displayable"@) {
            Some(interface) => ty(s.types, interface) is Interface && s.impls.contains_key(
                (interface, id),
            ),
            None => false,
        },
    }
}

/// `x at state` where `x` has the type.
#[verifier::opaque]
pub open spec fn state_check(s: State, id: TypeId, state: Ident, span: Span) -> (State, TypeId) {
    match ty(s.types, id) {
        Type::Machine(m) => state_check_on(s, s.types.machines[m.0 as int], state),
        Type::MachineState { machine, state: _ } => state_check_on(
            s,
            s.types.machines[machine.0 as int],
            state,
        ),
        Type::Error => (s, TypeInterner::BOOL),
        _ => (
            report3(
                s,
                ErrorCode::InvalidMachineStateCheck,
                span,
                name_of(s.types, id),
                state.name@,
                "value is not a machine"@,
            ),
            TypeInterner::ERROR,
        ),
    }
}

pub open spec fn state_check_on(s: State, m: MachineShapeV, state: Ident) -> (State, TypeId) {
    if state_named(m, state.name@) is Some {
        (s, TypeInterner::BOOL)
    } else {
        (
            report3(
                s,
                ErrorCode::InvalidMachineStateCheck,
                state.span,
                m.name,
                state.name@,
                "state is not declared on this machine"@,
            ),
            TypeInterner::ERROR,
        )
    }
}

/// The greatest value that a field of that many bits takes.
pub open spec fn greatest_of_width(width: nat) -> int {
    if width == 64 {
        0xffff_ffff_ffff_ffff
    } else if width >= 63 {
        0x7fff_ffff_ffff_ffff
    } else {
        vstd::arithmetic::power2::pow2(width) - 1
    }
}

// ---------------------------------------------------------------------------
// The same, on a checker
// ---------------------------------------------------------------------------

/// The greatest value that a field of that many bits takes.
pub fn greatest_value(width: u16) -> (r: i128)
    ensures
        r == greatest_of_width(width as nat),
{
    if width == 64 {
        return 0xffff_ffff_ffff_ffff;
    }
    if width >= 63 {
        return 0x7fff_ffff_ffff_ffff;
    }
    let mut power: i128 = 1;
    let mut i: u16 = 0;
    proof {
        vstd::arithmetic::power2::lemma2_to64();
        vstd::arithmetic::power2::lemma2_to64_rest();
    }
    while i < width
        invariant
            i <= width < 63,
            power == vstd::arithmetic::power2::pow2(i as nat),
            vstd::arithmetic::power2::pow2(63) == 0x8000_0000_0000_0000,
        decreases width - i,
    {
        proof {
            vstd::arithmetic::power2::lemma_pow2_unfold((i + 1) as nat);
            vstd::arithmetic::power2::lemma_pow2_strictly_increases(i as nat, 63);
        }
        power = power * 2;
        i = i + 1;
    }
    power - 1
}

pub fn find_field_type(fields: &Vec<NamedType>, name: &String) -> (r: Option<TypeId>)
    ensures
        r == field_type(views(fields@), name@, 0),
{
    let ghost vs = views(fields@);
    let mut i: usize = 0;
    while i < fields.len()
        invariant
            i <= fields@.len(),
            vs == views(fields@),
            field_type(vs, name@, 0) == field_type(vs, name@, i as nat),
        decreases fields@.len() - i,
    {
        assert(vs[i as int] == fields@[i as int]@);
        if fields[i].name == *name {
            return Some(fields[i].ty);
        }
        i = i + 1;
    }
    None
}

pub fn find_slot_type(fields: &Vec<BitfieldFieldShape>, name: &String) -> (r: Option<TypeId>)
    ensures
        r == slot_type(views(fields@), name@, 0),
{
    let ghost vs = views(fields@);
    let mut i: usize = 0;
    while i < fields.len()
        invariant
            i <= fields@.len(),
            vs == views(fields@),
            slot_type(vs, name@, 0) == slot_type(vs, name@, i as nat),
        decreases fields@.len() - i,
    {
        assert(vs[i as int] == fields@[i as int]@);
        if fields[i].name == *name {
            return Some(fields[i].ty);
        }
        i = i + 1;
    }
    None
}

pub fn find_method<'m>(methods: &'m Vec<FunctionSig>, name: &String) -> (r: Option<&'m FunctionSig>)
    ensures
        r is Some <==> method_named(views(methods@), name@, 0) is Some,
        r matches Some(m) ==> method_named(views(methods@), name@, 0) == Some(m@),
{
    let ghost vs = views(methods@);
    let mut i: usize = 0;
    while i < methods.len()
        invariant
            i <= methods@.len(),
            vs == views(methods@),
            method_named(vs, name@, 0) == method_named(vs, name@, i as nat),
        decreases methods@.len() - i,
    {
        assert(vs[i as int] == methods@[i as int]@);
        if methods[i].name == *name {
            return Some(&methods[i]);
        }
        i = i + 1;
    }
    None
}

pub fn find_variant<'m>(variants: &'m Vec<VariantShape>, name: &String) -> (r: Option<&'m VariantShape>)
    ensures
        r is Some <==> variant_named(views(variants@), name@, 0) is Some,
        r matches Some(v) ==> variant_named(views(variants@), name@, 0) == Some(v@),
{
    let ghost vs = views(variants@);
    let mut i: usize = 0;
    while i < variants.len()
        invariant
            i <= variants@.len(),
            vs == views(variants@),
            variant_named(vs, name@, 0) == variant_named(vs, name@, i as nat),
        decreases variants@.len() - i,
    {
        assert(vs[i as int] == variants@[i as int]@);
        if variants[i].name == *name {
            return Some(&variants[i]);
        }
        i = i + 1;
    }
    None
}

pub fn sig_type_ids(params: &Vec<SigParam>) -> (r: Vec<TypeId>)
    ensures
        r@ == sig_types(views(params@)),
{
    let mut r: Vec<TypeId> = Vec::new();
    let mut i: usize = 0;
    while i < params.len()
        invariant
            i <= params@.len(),
            r@ =~= sig_types(views(params@)).take(i as int),
        decreases params@.len() - i,
    {
        r.push(params[i].ty);
        i = i + 1;
    }
    assert(r@ =~= sig_types(views(params@)));
    r
}

pub fn named_type_ids(fields: &Vec<NamedType>) -> (r: Vec<TypeId>)
    ensures
        r@ == named_ids(views(fields@)),
{
    let mut r: Vec<TypeId> = Vec::new();
    let mut i: usize = 0;
    while i < fields.len()
        invariant
            i <= fields@.len(),
            r@ =~= named_ids(views(fields@)).take(i as int),
        decreases fields@.len() - i,
    {
        r.push(fields[i].ty);
        i = i + 1;
    }
    assert(r@ =~= named_ids(views(fields@)));
    r
}

pub fn place_text(n: u128) -> (r: String)
    ensures
        r@ == place_label(n as nat),
{
    join2("#", decimal_text_wide(n).as_str())
}

/// The outcome of looking for a field.
pub enum Found {
    Type(TypeId),
    Owner(String),
}

pub open spec fn found_view(f: Found) -> Result<TypeId, Seq<char>> {
    match f {
        Found::Type(t) => Ok(t),
        Found::Owner(n) => Err(n@),
    }
}

proof fn known_field_type(s: State, fields: Seq<NamedTypeV>, name: Seq<char>, i: nat)
    requires
        has_fields(s, fields),
    ensures
        has_maybe(s, field_type(fields, name, i)),
    decreases fields.len() - i,
{
    if i < fields.len() && fields[i as int].name != name {
        known_field_type(s, fields, name, i + 1);
    }
}

proof fn known_slot_type(s: State, fields: Seq<BitfieldFieldShapeV>, name: Seq<char>, i: nat)
    requires
        has_slots(s, fields),
    ensures
        has_maybe(s, slot_type(fields, name, i)),
    decreases fields.len() - i,
{
    if i < fields.len() && fields[i as int].name != name {
        known_slot_type(s, fields, name, i + 1);
    }
}

proof fn known_field(s: State, id: TypeId, name: Seq<char>)
    requires
        known(s),
        sound(s.types),
    ensures
        value_field(s.types, id, name) matches Ok(t) ==> has(s, t),
{
    reveal(known);
    reveal(value_field);
    if id < s.types.types.len() {
        assert(grounded(s.types, s.types.types[id as int], id as nat));
    }
    match ty(s.types, id) {
        Type::Struct(sid) => known_field_type(s, s.types.structs[sid.0 as int].fields, name, 0),
        Type::Bitfield(bid) => known_slot_type(s, s.types.bitfields[bid.0 as int].fields, name, 0),
        Type::MachineState { machine, state } => {
            let states = s.types.machines[machine.0 as int].states;
            if state.0 < states.len() {
                assert(has_states(s, states));
                known_field_type(s, states[state.0 as int].fields, name, 0);
            }
        },
        _ => {},
    }
}

impl TypeInterner {
    /// The type of a field of a value, or the owner's name.
    pub fn value_field(&self, id: TypeId, name: &String) -> (r: Found)
        ensures
            found_view(r) == value_field(self@, id, name@),
    {
        proof {
            reveal(value_field);
        }
        match self.resolve(id) {
            Type::Struct(sid) => {
                let def = self.resolve_struct(sid);
                match find_field_type(&def.fields, name) {
                    Some(t) => Found::Type(t),
                    None => Found::Owner(def.name.clone()),
                }
            },
            Type::Bitfield(bid) => {
                let def = self.resolve_bitfield(bid);
                match find_slot_type(&def.fields, name) {
                    Some(t) => Found::Type(t),
                    None => Found::Owner(def.name.clone()),
                }
            },
            Type::MachineState { machine, state } => {
                let def = self.resolve_machine(machine);
                match def.state(state) {
                    Some(state_def) => match find_field_type(&state_def.fields, name) {
                        Some(t) => Found::Type(t),
                        None => Found::Owner(self.name_of(id)),
                    },
                    None => Found::Owner(self.name_of(id)),
                }
            },
            _ => Found::Owner(self.name_of(id)),
        }
    }
}

impl<'a> TypeChecker<'a> {
    pub(crate) fn report0(&mut self, code: ErrorCode, span: Span)
        ensures
            keeps(old(self)@, final(self)@),
            known(old(self)@) ==> known(final(self)@),
            final(self)@ == report0(old(self)@, code, span),
    {
        self.emit(Diagnostic::error(code, span, args0()));
    }

    pub(crate) fn warn0(&mut self, code: ErrorCode, span: Span)
        ensures
            keeps(old(self)@, final(self)@),
            known(old(self)@) ==> known(final(self)@),
            final(self)@ == warn0(old(self)@, code, span),
    {
        self.emit(Diagnostic::warning(code, span, args0()));
    }

    pub(crate) fn report1(&mut self, code: ErrorCode, span: Span, a: String)
        ensures
            keeps(old(self)@, final(self)@),
            known(old(self)@) ==> known(final(self)@),
            final(self)@ == report1(old(self)@, code, span, a@),
    {
        self.emit(Diagnostic::error(code, span, args1(a)));
    }

    pub(crate) fn report2(&mut self, code: ErrorCode, span: Span, a: String, b: String)
        ensures
            keeps(old(self)@, final(self)@),
            known(old(self)@) ==> known(final(self)@),
            final(self)@ == report2(old(self)@, code, span, a@, b@),
    {
        self.emit(Diagnostic::error(code, span, args2(a, b)));
    }

    pub(crate) fn report3(&mut self, code: ErrorCode, span: Span, a: String, b: String, c: String)
        ensures
            keeps(old(self)@, final(self)@),
            known(old(self)@) ==> known(final(self)@),
            final(self)@ == report3(old(self)@, code, span, a@, b@, c@),
    {
        self.emit(Diagnostic::error(code, span, args3(a, b, c)));
    }

    pub(crate) fn name_of(&self, id: TypeId) -> (r: String)
        ensures
            r@ == name_of(self@.types, id),
    {
        self.interner().name_of(id)
    }

    pub(crate) fn resolve(&self, id: TypeId) -> (r: Type)
        ensures
            r == ty(self@.types, id),
            grounded(self@.types, r, id as nat),
    {
        self.interner().resolve(id)
    }

    pub(crate) fn report_types(&mut self, code: ErrorCode, span: Span, a: TypeId, b: TypeId)
        ensures
            keeps(old(self)@, final(self)@),
            known(old(self)@) ==> known(final(self)@),
            final(self)@ == report_types(old(self)@, code, span, a, b),
    {
        let left = self.name_of(a);
        let right = self.name_of(b);
        self.report2(code, span, left, right);
    }

    pub(crate) fn expect_type(&mut self, expected: TypeId, got: TypeId, span: Span)
        ensures
            keeps(old(self)@, final(self)@),
            known(old(self)@) ==> known(final(self)@),
            final(self)@ == expect_type(old(self)@, expected, got, span),
    {
        if !self.types_compatible(expected, got) {
            self.report_types(ErrorCode::TypeMismatch, span, expected, got);
        }
    }

    pub(crate) fn expect_argument(&mut self, label: &str, expected: TypeId, got: TypeId, span: Span)
        ensures
            keeps(old(self)@, final(self)@),
            known(old(self)@) ==> known(final(self)@),
            final(self)@ == expect_argument(old(self)@, label@, expected, got, span),
    {
        if !self.types_compatible(expected, got) {
            let left = self.name_of(expected);
            let right = self.name_of(got);
            self.report3(ErrorCode::ArgumentTypeMismatch, span, text(label), left, right);
        }
    }

    pub(crate) fn wrong_argument_count(&mut self, name: &str, expected: u128, got: u128, span: Span)
        ensures
            keeps(old(self)@, final(self)@),
            known(old(self)@) ==> known(final(self)@),
            final(self)@ == wrong_argument_count(
                old(self)@,
                name@,
                expected as nat,
                got as nat,
                span,
            ),
    {
        self.report3(
            ErrorCode::ArgumentCountMismatch,
            span,
            text(name),
            decimal_text_wide(expected),
            decimal_text_wide(got),
        );
    }

    pub(crate) fn no_member(&mut self, owner: String, member: &String, span: Span)
        ensures
            keeps(old(self)@, final(self)@),
            known(old(self)@) ==> known(final(self)@),
            final(self)@ == no_member(old(self)@, owner@, member@, span),
    {
        self.report2(ErrorCode::TypeHasNoMember, span, owner, member.clone());
    }

    pub(crate) fn expect_bool(&mut self, code: ErrorCode, id: TypeId, span: Span)
        ensures
            keeps(old(self)@, final(self)@),
            known(old(self)@) ==> known(final(self)@),
            final(self)@ == expect_bool(old(self)@, code, id, span),
    {
        if id != TypeInterner::ERROR && id != TypeInterner::BOOL {
            let name = self.name_of(id);
            self.report1(code, span, name);
        }
    }

    pub(crate) fn declare(&mut self, span: Span, id: TypeId)
        ensures
            keeps(old(self)@, final(self)@),
            known(old(self)@) && has(old(self)@, id) ==> known(final(self)@),
            final(self)@ == declare(old(self)@, span, id),
    {
        if let Some(def) = self.names().declaration_def_id(span) {
            self.put_type_env(def, id);
        }
    }

    pub(crate) fn check_ident(&self, span: Span) -> (r: TypeId)
        ensures
            known(self@) ==> has(self@, r),
            r == ident_type(self@, span),
    {
        match self.names().declaration_def_id(span) {
            Some(def) => match self.get_type_env(def) {
                Some(id) => id,
                None => TypeInterner::ERROR,
            },
            None => TypeInterner::ERROR,
        }
    }

    pub(crate) fn operation(&mut self, op: BinOp, l: TypeId, r: TypeId, span: Span) -> (t: TypeId)
        ensures
            keeps(old(self)@, final(self)@),
            known(old(self)@) && has(old(self)@, l) && has(old(self)@, r)
                ==> known(final(self)@) && has(final(self)@, t),
            (final(self)@, t) == operation(old(self)@, op, l, r, span),
    {
        proof {
            reveal(operation);
        }
        if l == TypeInterner::ERROR || r == TypeInterner::ERROR {
            return TypeInterner::ERROR;
        }
        let (l_base, l_secret) = self.interner().strip_secret_type(l);
        let (r_base, r_secret) = self.interner().strip_secret_type(r);
        let fits = match op {
            BinOp::And | BinOp::Or => l_base == TypeInterner::BOOL && r_base == TypeInterner::BOOL,
            _ => l_base == r_base && (!is_arithmetic(op) || self.interner().is_numeric(l_base)),
        };
        if !fits {
            let left = self.name_of(l);
            let right = self.name_of(r);
            self.report3(ErrorCode::BinaryOpMismatch, span, text(binop_str(op)), left, right);
            return TypeInterner::ERROR;
        }
        let base: usize = if is_arithmetic(op) {
            l_base
        } else {
            TypeInterner::BOOL
        };
        self.maybe_wrap_secret(base, l_secret || r_secret)
    }

    pub(crate) fn math_numeric_builtin_base(&self, id: TypeId) -> (r: Option<(TypeId, bool)>)
        ensures
            known(self@) && has(self@, id) ==> (r matches Some((x, _)) ==> has(self@, x)),
            r == math_base(self@, id),
    {
        let (base, tainted) = self.interner().strip_secret_type(id);
        if self.types_compatible(TypeInterner::INT64, base) {
            Some((TypeInterner::INT64, tainted))
        } else if self.types_compatible(TypeInterner::FLOAT64, base) {
            Some((TypeInterner::FLOAT64, tainted))
        } else {
            None
        }
    }

    pub(crate) fn callee_is_pure(&self, name: &Option<String>) -> (r: bool)
        ensures
            r == callee_pure(self@, maybe_text(*name)),
    {
        match name {
            Some(n) => !is_impure_builtin(n.as_str()) && (match self.get_purity_map(n) {
                Some(pure) => pure,
                None => true,
            }),
            None => false,
        }
    }

    pub(crate) fn purity_reports(&mut self, name: &Option<String>, pure: bool, span: Span)
        ensures
            keeps(old(self)@, final(self)@),
            known(old(self)@) ==> known(final(self)@),
            final(self)@ == purity_reports(old(self)@, maybe_text(*name), pure, span),
    {
        proof {
            reveal(purity_reports);
        }
        match name {
            Some(callee) => {
                if pure {
                    return;
                }
                if self.get_context().function_pure {
                    let caller = dup_text(&self.get_context().function_name);
                    if let Some(caller) = caller {
                        self.report2(ErrorCode::PureCallsImpure, span, caller, callee.clone());
                    }
                }
                if self.get_context().in_verify {
                    let verify = dup_text(&self.get_context().verify_name);
                    if let Some(verify) = verify {
                        self.report2(ErrorCode::VerifyCallsImpure, span, verify, callee.clone());
                    }
                }
            },
            None => {},
        }
    }

    pub(crate) fn argument(
        &mut self,
        name: &Option<String>,
        pure: bool,
        label: &str,
        param: TypeId,
        arg: TypeId,
        span: Span,
    ) -> (r: bool)
        ensures
            keeps(old(self)@, final(self)@),
            known(old(self)@) ==> known(final(self)@),
            (final(self)@, r) == argument(
                old(self)@,
                maybe_text(*name),
                pure,
                label@,
                param,
                arg,
                span,
            ),
    {
        proof {
            reveal(argument);
        }
        if self.interner().is_refinement_type(param) && arg != TypeInterner::ERROR
            && self.interner().can_refine_from(arg, param) {
            self.report_types(ErrorCode::RefinementRequiresHandleError, span, param, arg);
            return false;
        }
        if let Some(callee) = name {
            if is_secret_output_boundary(callee.as_str()) && self.interner().is_secret_type(arg) {
                let shown = self.name_of(arg);
                self.report2(ErrorCode::SecretExposure, span, callee.clone(), shown);
                return false;
            }
            if is_secret_safe_builtin(callee.as_str())
                && !self.interner().is_secret_type(arg) {
                let shown = self.name_of(arg);
                self.report2(
                    ErrorCode::SecretOperationRequiresSecret,
                    span,
                    callee.clone(),
                    shown,
                );
                return false;
            }
        }
        let (fits, lifted) = self.interner().secret_argument_matches_param(
            self.all_impls(),
            param,
            arg,
        );
        if fits {
            if lifted {
                let allowed = match name {
                    Some(n) => is_secret_liftable_call(n.as_str(), pure),
                    None => pure,
                };
                if !allowed {
                    let shown = self.name_of(arg);
                    let callee = match name {
                        Some(n) => n.clone(),
                        None => text("<call>"),
                    };
                    self.report2(ErrorCode::SecretExposure, span, callee, shown);
                    return false;
                }
                return true;
            }
            return false;
        }
        self.expect_argument(label, param, arg, span);
        false
    }

    pub(crate) fn check_argument_against_param_type(
        &mut self,
        name: &Option<String>,
        pure: bool,
        label: &str,
        param: TypeId,
        arg: TypeId,
        span: Span,
    ) -> (r: bool)
        ensures
            keeps(old(self)@, final(self)@),
            known(old(self)@) ==> known(final(self)@),
            (final(self)@, r) == piped_argument(
                old(self)@,
                maybe_text(*name),
                pure,
                label@,
                param,
                arg,
                span,
            ),
    {
        proof {
            reveal(piped_argument);
        }
        if arg != TypeInterner::ERROR && self.interner().type_requires_handle_error(
            self.all_impls(),
            param,
            arg,
        ) {
            self.report0(ErrorCode::ResultRequiresHandleError, span);
            return false;
        }
        if arg != TypeInterner::ERROR && self.interner().type_requires_bare_handle(
            self.all_impls(),
            param,
            arg,
        ) {
            self.report0(ErrorCode::OptionalRequiresBareHandle, span);
            return false;
        }
        self.argument(name, pure, label, param, arg, span)
    }

    pub(crate) fn compare_report(&mut self, name: &Option<String>, args: &Vec<TypeId>, span: Span)
        ensures
            keeps(old(self)@, final(self)@),
            known(old(self)@) ==> known(final(self)@),
            final(self)@ == compare_report(old(self)@, maybe_text(*name), args@, span),
    {
        proof {
            reveal(compare_report);
        }
        if let Some(n) = name {
            if same_text(n.as_str(), "secret.compare") && args.len() == 2 {
                if let Some(l) = self.interner().secret_inner_type(args[0]) {
                    if let Some(r) = self.interner().secret_inner_type(args[1]) {
                        if !self.types_compatible(l, r) || !self.types_compatible(r, l) {
                            let left = self.name_of(args[0]);
                            let right = self.name_of(args[1]);
                            self.report3(
                                ErrorCode::ArgumentTypeMismatch,
                                span,
                                text("#2"),
                                left,
                                right,
                            );
                        }
                    }
                }
            }
        }
    }

    fn report_each(&mut self, code: ErrorCode, span: Span, first: Option<&str>, names: &Vec<String>)
        ensures
            keeps(old(self)@, final(self)@),
            known(old(self)@) ==> known(final(self)@),
            final(self)@ == report_each(
                old(self)@,
                code,
                span,
                match first {
                    Some(f) => Some(f@),
                    None => None,
                },
                views(names@),
                0,
            ),
    {
        let ghost shown = match first {
            Some(f) => Some(f@),
            None => None,
        };
        let mut i: usize = 0;
        while i < names.len()
            invariant
                keeps(old(self)@, self@),
                known(old(self)@) ==> known(self@),
                i <= names@.len(),
                shown == (match first {
                    Some(f) => Some(f@),
                    None => None,
                }),
                report_each(self@, code, span, shown, views(names@), i as nat) == report_each(
                    old(self)@,
                    code,
                    span,
                    shown,
                    views(names@),
                    0,
                ),
            decreases names@.len() - i,
        {
            match first {
                Some(f) => self.report2(code, span, text(f), names[i].clone()),
                None => self.report1(code, span, names[i].clone()),
            }
            i = i + 1;
        }
    }

    fn serialize_policy(&mut self, function: &str, id: TypeId, viewed: bool, span: Span)
        ensures
            keeps(old(self)@, final(self)@),
            known(old(self)@) ==> known(final(self)@),
            final(self)@ == serialize_policy(old(self)@, function@, id, viewed, span),
    {
        proof {
            reveal(serialize_policy);
        }
        if !viewed && self.interner().json_read_requires_view(id) {
            let shown = self.name_of(id);
            self.report2(ErrorCode::JsonSerializeRequiresView, span, text(function), shown);
        }
        let keys = self.interner().json_non_string_map_key_types(id);
        let unsupported = self.interner().json_unsupported_serialize_types(id);
        self.report_each(ErrorCode::JsonMapKeyMustBeString, span, None, &keys);
        self.report_each(
            ErrorCode::JsonUnsupportedSerializeType,
            span,
            Some(function),
            &unsupported,
        );
    }

    fn secret_data(&mut self, function: &str, id: TypeId, span: Span)
        ensures
            keeps(old(self)@, final(self)@),
            known(old(self)@) ==> known(final(self)@),
            final(self)@ == secret_data(old(self)@, function@, id, span),
    {
        proof {
            reveal(secret_data);
        }
        let mut args = args2(text(function), self.name_of(id));
        let ghost start = views(args@);
        let fields = self.interner().secret_field_names(id);
        let mut i: usize = 0;
        while i < fields.len()
            invariant
                keeps(old(self)@, self@),
                known(old(self)@) ==> known(self@),
                i <= fields@.len(),
                views(args@) =~= start + views(fields@).take(i as int),
            decreases fields@.len() - i,
        {
            let ghost before = views(args@);
            args.push(fields[i].clone());
            assert(views(args@) =~= before.push(fields@[i as int]@));
            i = i + 1;
        }
        assert(views(fields@).take(i as int) =~= views(fields@));
        self.emit(Diagnostic::error(ErrorCode::TypeContainsSecretData, span, args));
    }

    pub(crate) fn json_policy(
        &mut self,
        name: &Option<String>,
        value: TypeId,
        viewed: bool,
        span: Span,
        ret: TypeId,
    )
        ensures
            keeps(old(self)@, final(self)@),
            known(old(self)@) ==> known(final(self)@),
            final(self)@ == json_policy(
                old(self)@,
                maybe_text(*name),
                value,
                viewed,
                span,
                ret,
            ),
    {
        proof {
            reveal(json_policy);
            reveal(parse_policy);
        }
        if let Some(n) = name {
            let n = n.as_str();
            if same_text(n, "json.serialize") {
                if self.interner().type_contains_secret_data(value) {
                    self.secret_data(n, value, span);
                }
                self.serialize_policy(n, value, viewed, span);
            } else if same_text(n, "json.serialize_public") {
                if !self.interner().is_secret_type(value)
                    && self.interner().type_contains_secret_data(value)
                    && !self.interner().json_public_projection_allows_secret_data(value) {
                    self.secret_data(n, value, span);
                }
                self.serialize_policy(n, value, viewed, span);
            } else if same_text(n, "json.parse") || same_text(n, "json.parse_exact") {
                if let Type::Result(parsed, _) = self.resolve(ret) {
                    let keys = self.interner().json_non_string_map_key_types(parsed);
                    let unsupported = self.interner().json_unsupported_parse_types(parsed);
                    self.report_each(ErrorCode::JsonMapKeyMustBeString, span, None, &keys);
                    self.report_each(
                        ErrorCode::JsonUnsupportedParseType,
                        span,
                        Some(n),
                        &unsupported,
                    );
                }
            }
        }
    }

    pub(crate) fn call_result(&mut self, name: &Option<String>, pure: bool, tainted: bool, ret: TypeId) -> (
    r: TypeId)
        ensures
            keeps(old(self)@, final(self)@),
            known(old(self)@) ==> known(final(self)@),
            (final(self)@, r) == call_result(old(self)@, maybe_text(*name), pure, tainted, ret),
    {
        if let Some(n) = name {
            if tainted && is_secret_liftable_call(n.as_str(), pure) {
                return self.maybe_wrap_secret(ret, true);
            }
        }
        ret
    }

    fn method_type(&mut self, params: Vec<TypeId>, return_type: TypeId) -> (r: TypeId)
        ensures
            keeps(old(self)@, final(self)@),
            known(old(self)@) ==> known(final(self)@) && has(final(self)@, r),
            (final(self)@, r) == with_types(
                old(self)@,
                intern_function(
                    old(self)@.types,
                    FunctionShapeV { params: params@, return_type },
                ),
            ),
    {
        self.intern_function(params, return_type)
    }

    pub(crate) fn check_interface_method(&mut self, id: TypeId, field: &Ident, span: Span) -> (r: Option<
        TypeId,
    >)
        ensures
            keeps(old(self)@, final(self)@),
            known(old(self)@) && has(old(self)@, id)
                ==> known(final(self)@) && has_maybe(final(self)@, r),
            (final(self)@, r) == interface_method(old(self)@, id, *field, span),
    {
        proof {
            reveal(interface_method);
        }
        match self.resolve(id) {
            Type::Interface(i) => {
                let def = self.interner().resolve_interface(i);
                match find_method(&def.methods, &field.name) {
                    Some(m) => {
                        let params = sig_type_ids(&m.params);
                        let ret: usize = m.return_type;
                        let t: usize = self.method_type(params, ret);
                        Some(t)
                    },
                    None => {
                        let owner = def.name.clone();
                        self.report2(
                            ErrorCode::InterfaceHasNoMember,
                            span,
                            owner,
                            field.name.clone(),
                        );
                        Some(TypeInterner::ERROR)
                    },
                }
            },
            _ => None,
        }
    }

    fn implemented_method(&self, id: TypeId, name: &String) -> (r: Option<FunctionSig>)
        ensures
            r is Some <==> implemented_method(self@, id, name@) is Some,
            r matches Some(m) ==> implemented_method(self@, id, name@) == Some(m@),
    {
        match self.get_impl_methods(id) {
            Some(methods) => match methods.get(name) {
                Some(m) => Some(m.dup()),
                None => None,
            },
            None => None,
        }
    }

    pub(crate) fn check_type_module_method(&mut self, id: TypeId, field: &Ident, span: Span) -> (r: Option<
        TypeId,
    >)
        ensures
            keeps(old(self)@, final(self)@),
            known(old(self)@) && has(old(self)@, id)
                ==> known(final(self)@) && has_maybe(final(self)@, r),
            (final(self)@, r) == type_method(old(self)@, id, *field, span),
    {
        proof {
            reveal(type_method);
        }
        if let Type::Struct(sid) = self.resolve(id) {
            let def = self.interner().resolve_struct(sid);
            if let Some(m) = find_method(&def.methods, &field.name) {
                let params = sig_type_ids(&m.params);
                let ret: usize = m.return_type;
                let t: usize = self.method_type(params, ret);
                return Some(t);
            }
        }
        if let Type::Bitfield(_) = self.resolve(id) {
            if same_text(field.name.as_str(), "to_bytes") {
                let t: usize = self.method_type(ids1(id), TypeInterner::BYTES);
                return Some(t);
            }
            if same_text(field.name.as_str(), "from_bytes") {
                let result: usize = self.intern(Type::Result(id, TypeInterner::STRING));
                let t: usize = self.method_type(ids1(TypeInterner::BYTES), result);
                return Some(t);
            }
        }
        if let Some(m) = self.implemented_method(id, &field.name) {
            let params = sig_type_ids(&m.params);
            let t: usize = self.method_type(params, m.return_type);
            return Some(t);
        }
        let owner = self.name_of(id);
        self.no_member(owner, &field.name, span);
        None
    }

    pub(crate) fn check_enum_variant_by_type(&mut self, id: TypeId, variant: &Ident, span: Span) -> (r:
        TypeId)
        ensures
            keeps(old(self)@, final(self)@),
            known(old(self)@) && has(old(self)@, id)
                ==> known(final(self)@) && has(final(self)@, r),
            (final(self)@, r) == variant_of(old(self)@, id, *variant, span),
    {
        proof {
            reveal(variant_of);
        }
        match self.resolve(id) {
            Type::Enum(eid) => {
                let def = self.interner().resolve_enum(eid);
                match find_variant(&def.variants, &variant.name) {
                    None => {
                        let owner = def.name.clone();
                        self.no_member(owner, &variant.name, span);
                        TypeInterner::ERROR
                    },
                    Some(v) => {
                        if v.fields.len() == 0 {
                            return id;
                        }
                        let params = named_type_ids(&v.fields);
                        self.intern_function(params, id)
                    },
                }
            },
            _ => {
                let owner = self.name_of(id);
                self.no_member(owner, &variant.name, span);
                TypeInterner::ERROR
            },
        }
    }

    pub(crate) fn check_enum_variant(&mut self, owner: &Ident, variant: &Ident, span: Span) -> (r: TypeId)
        ensures
            keeps(old(self)@, final(self)@),
            known(old(self)@) ==> known(final(self)@) && has(final(self)@, r),
            (final(self)@, r) == enum_variant(old(self)@, *owner, *variant, span),
    {
        let id: usize = self.check_ident(owner.span);
        if id == TypeInterner::ERROR {
            return TypeInterner::ERROR;
        }
        self.check_enum_variant_by_type(id, variant, span)
    }

    pub(crate) fn field_of(&mut self, id: TypeId, field: &Ident, span: Span) -> (r: TypeId)
        ensures
            keeps(old(self)@, final(self)@),
            known(old(self)@) && has(old(self)@, id)
                ==> known(final(self)@) && has(final(self)@, r),
            (final(self)@, r) == field_of(old(self)@, id, *field, span),
    {
        proof {
            reveal(field_of);
        }
        if id == TypeInterner::ERROR {
            return TypeInterner::ERROR;
        }
        let t = self.interner().resolve(id);
        proof {
            if known(self@) {
                known_field(self@, id, field.name@);
                known_field(self@, revealed(self@.types, id), field.name@);
            }
        }
        match t {
            Type::Secret(inner) => match self.interner().value_field(inner, &field.name) {
                Found::Type(t) => self.maybe_wrap_secret(t, true),
                Found::Owner(owner) => {
                    self.no_member(
                        join3("secret[", owner.as_str(), "]"),
                        &field.name,
                        span,
                    );
                    TypeInterner::ERROR
                },
            },
            _ => match self.interner().value_field(id, &field.name) {
                Found::Type(t) => t,
                Found::Owner(owner) => {
                    self.no_member(owner, &field.name, span);
                    TypeInterner::ERROR
                },
            },
        }
    }

    fn static_member(&mut self, id: TypeId, field: &Ident, span: Span) -> (r: Option<TypeId>)
        ensures
            keeps(old(self)@, final(self)@),
            known(old(self)@) && has(old(self)@, id)
                ==> known(final(self)@) && has_maybe(final(self)@, r),
            (final(self)@, r) == static_member(old(self)@, id, *field, span),
    {
        proof {
            reveal(static_member);
        }
        if let Type::Enum(_) = self.resolve(id) {
            let t: usize = self.check_enum_variant_by_type(id, field, span);
            return Some(t);
        }
        if let Some(t) = self.check_interface_method(id, field, span) {
            return Some(t);
        }
        self.check_type_module_method(id, field, span)
    }

    pub(crate) fn member_of_name(&mut self, base: &Ident, field: &Ident, span: Span) -> (r: Option<TypeId>)
        ensures
            keeps(old(self)@, final(self)@),
            known(old(self)@) ==> known(final(self)@) && has_maybe(final(self)@, r),
            (final(self)@, r) == member_of_name(old(self)@, *base, *field, span),
    {
        proof {
            reveal(member_of_name);
        }
        let kind = self.names().ident_def_kind(base);
        match kind {
            Some(DefKind::Enum) => {
                let t: usize = self.check_enum_variant(base, field, span);
                return Some(t);
            },
            Some(DefKind::Interface) => {
                let id: usize = self.check_ident(base.span);
                if let Some(t) = self.check_interface_method(id, field, span) {
                    return Some(t);
                }
            },
            Some(DefKind::Struct) | Some(DefKind::Bitfield) => {
                let id: usize = self.check_ident(base.span);
                if let Some(t) = self.check_type_module_method(id, field, span) {
                    return Some(t);
                }
            },
            _ => {},
        }
        match self.get_named_types(&base.name) {
            None => None,
            Some(named) => {
                if let Type::Enum(_) = self.resolve(named) {
                    let t: usize = self.check_enum_variant(base, field, span);
                    return Some(t);
                }
                self.static_member(named, field, span)
            },
        }
    }

    pub(crate) fn member_of_path(&mut self, base: &Expr, field: &Ident, span: Span) -> (r: Option<TypeId>)
        ensures
            keeps(old(self)@, final(self)@),
            known(old(self)@) ==> known(final(self)@) && has_maybe(final(self)@, r),
            (final(self)@, r) == member_of_path(old(self)@, *base, *field, span),
    {
        proof {
            reveal(member_of_path);
        }
        match dotted_name_str(base) {
            None => None,
            Some(name) => {
                let full = self.names().resolved_or_expanded_name(&name, span);
                match self.get_named_types(&full) {
                    None => None,
                    Some(id) => self.static_member(id, field, span),
                }
            },
        }
    }

    fn machine_named(&self, name: &String) -> (r: Option<MachineId>)
        ensures
            r == machine_named(self@, name@),
            r matches Some(m) ==> m.0 < self@.types.machines.len(),
    {
        match self.get_named_types(name) {
            Some(id) => match self.resolve(id) {
                Type::Machine(m) => Some(m),
                _ => None,
            },
            None => None,
        }
    }

    pub(crate) fn machine_transition_owner(&self, callee: &Expr) -> (r: Option<MachineId>)
        ensures
            r == transition_owner(self@, *callee),
            r matches Some(m) ==> m.0 < self@.types.machines.len(),
    {
        proof {
            reveal(transition_owner);
        }
        match callee {
            Expr::FieldAccess(base, field, span) => {
                if !same_text(field.name.as_str(), "transition") {
                    return None;
                }
                let names = self.names();
                if let Some(id) = names.declaration_def_id(*span) {
                    if id.0 < names.scope_table.definitions.len() {
                        let def = &names.scope_table.definitions[id.0];
                        if def.kind == DefKind::Machine {
                            assert(self@.names.definitions[id.0 as int] == def@);
                            if let Some(m) = self.machine_named(&def.name) {
                                return Some(m);
                            }
                        }
                    }
                }
                match names.expanded_dotted_expr_name(base) {
                    Some(owner) => self.machine_named(&owner),
                    None => None,
                }
            },
            _ => None,
        }
    }

    pub(crate) fn is_displayable_type(&self, id: TypeId) -> (r: bool)
        ensures
            r == displayable(self@, id),
    {
        proof {
            reveal(displayable);
        }
        match self.resolve(id) {
            Type::Int8 | Type::Int16 | Type::Int32 | Type::Int64 => true,
            Type::Uint8 | Type::Uint16 | Type::Uint32 | Type::Uint64 => true,
            Type::Float32 | Type::Float64 | Type::String | Type::Bool => true,
            _ => {
                let key = text("Displayable");
                match self.get_named_types(&key) {
                    Some(interface) => (match self.resolve(interface) {
                        Type::Interface(_) => true,
                        _ => false,
                    }) && self.all_impls().contains(&(interface, id)),
                    None => false,
                }
            },
        }
    }

    pub(crate) fn state_check(&mut self, id: TypeId, state: &Ident, span: Span) -> (r: TypeId)
        ensures
            keeps(old(self)@, final(self)@),
            known(old(self)@) && has(old(self)@, id)
                ==> known(final(self)@) && has(final(self)@, r),
            (final(self)@, r) == state_check(old(self)@, id, *state, span),
    {
        proof {
            reveal(state_check);
        }
        let machine = match self.resolve(id) {
            Type::Machine(m) => m,
            Type::MachineState { machine, state: _ } => machine,
            Type::Error => {
                return TypeInterner::BOOL;
            },
            _ => {
                let shown = self.name_of(id);
                self.report3(
                    ErrorCode::InvalidMachineStateCheck,
                    span,
                    shown,
                    state.name.clone(),
                    text("value is not a machine"),
                );
                return TypeInterner::ERROR;
            },
        };
        let def = self.interner().resolve_machine(machine);
        if def.state_id(&state.name).is_some() {
            return TypeInterner::BOOL;
        }
        let owner = def.name.clone();
        self.report3(
            ErrorCode::InvalidMachineStateCheck,
            state.span,
            owner,
            state.name.clone(),
            text("state is not declared on this machine"),
        );
        TypeInterner::ERROR
    }
}

} // verus!
