//! What is reported about a module.
use vstd::prelude::*;
use vstd::string::StringExecFns;

use crate::span::Span;
use crate::table::{dup_vec, views, Dup};
use crate::text::{join3, text};

verus! {

#[derive(Debug, Clone, Copy, PartialEq, Eq, Structural)]
pub enum Severity {
    Error,
    Warning,
}

#[derive(Debug, Clone, Copy, PartialEq, Eq, Structural)]
pub enum ErrorCode {
    TypeMismatch,
    BinaryOpMismatch,
    UnaryOpMismatch,
    ArgumentCountMismatch,
    ArgumentCountRangeMismatch,
    ArgumentTypeMismatch,
    ReturnTypeMismatch,
    ConditionNotBool,
    NotIterable,
    NotCallable,
    UnknownType,
    VarDeclTypeMismatch,
    IntegerLiteralOutOfRange,
    AssignTypeMismatch,
    UnhandledResult,
    UnhandledOptional,
    HandleRequiresResultOrOptional,
    ResultRequiresHandleError,
    OptionalRequiresBareHandle,
    HandleBlockRequiresReturnOrDefault,
    DefaultOutsideHandle,
    TypeHasNoMember,
    MissingConstructorField,
    DuplicateConstructorField,
    VariantBindingCountMismatch,
    MatchRequiresEnum,
    NonExhaustiveMatch,
    MutualFunctionMissingDefinition,
    MutualSignatureMismatch,
    ExpectedInterface,
    InterfaceHasNoMember,
    DuplicateImplementedMethod,
    ImplementedMethodSignatureMismatch,
    MissingImplementedMethod,
    TypeDoesNotImplementInterface,
    RefinementRequiresHandleError,
    CoarsenRequiresRefinement,
    RefinementConstraintNotBool,
    InvalidBitfieldField,
    BitfieldLiteralOutOfRange,
    EnumDiscriminantRequiresUnitVariant,
    DuplicateEnumDiscriminant,
    AssertOutsideTestBlock,
    AssertConditionNotBool,
    RespondOutsideHandler,
    DuplicateMachineState,
    InvalidMachineTransition,
    InvalidMachineConstruction,
    InvalidMachineTransitionCall,
    InvalidMachineStateCheck,
    InvalidComptimeTypeBinding,
    ReflectionMetadataConstructor,
    JsonUnsupportedSerializeType,
    JsonUnsupportedParseType,
    JsonMapKeyMustBeString,
    JsonSerializeRequiresView,
    DuplicateJsonSerializeName,
    UseAfterMove,
    CannotConsumeView,
    PureCallsImpure,
    VerifyCallsImpure,
    SecretExposure,
    DeclassifyRequiresSecret,
    SecretOperationRequiresSecret,
    TypeContainsSecretData,
    /// A function that does too much, found by a pass of its own.
    TooComplex,
}

impl ErrorCode {
    /// The published number of the code, where it has one.
    pub open spec fn published(self) -> Option<u32> {
        match self {
            ErrorCode::TypeMismatch => Some(300u32),
            ErrorCode::BinaryOpMismatch => Some(301u32),
            ErrorCode::UnaryOpMismatch => Some(302u32),
            ErrorCode::ArgumentCountMismatch => Some(303u32),
            ErrorCode::ArgumentTypeMismatch => Some(304u32),
            ErrorCode::ReturnTypeMismatch => Some(305u32),
            ErrorCode::ConditionNotBool => Some(306u32),
            ErrorCode::NotIterable => Some(307u32),
            ErrorCode::UnknownType => Some(309u32),
            ErrorCode::VarDeclTypeMismatch => Some(311u32),
            ErrorCode::IntegerLiteralOutOfRange => Some(311u32),
            ErrorCode::AssignTypeMismatch => Some(312u32),
            ErrorCode::ResultRequiresHandleError => Some(316u32),
            ErrorCode::OptionalRequiresBareHandle => Some(317u32),
            ErrorCode::HandleBlockRequiresReturnOrDefault => Some(318u32),
            ErrorCode::TypeHasNoMember => Some(319u32),
            ErrorCode::MissingConstructorField => Some(321u32),
            ErrorCode::VariantBindingCountMismatch => Some(323u32),
            ErrorCode::NonExhaustiveMatch => Some(324u32),
            ErrorCode::MutualFunctionMissingDefinition => Some(325u32),
            ErrorCode::MutualSignatureMismatch => Some(326u32),
            ErrorCode::ImplementedMethodSignatureMismatch => Some(330u32),
            ErrorCode::MissingImplementedMethod => Some(331u32),
            ErrorCode::TypeDoesNotImplementInterface => Some(332u32),
            ErrorCode::RefinementRequiresHandleError => Some(333u32),
            ErrorCode::RefinementConstraintNotBool => Some(335u32),
            ErrorCode::InvalidBitfieldField => Some(336u32),
            ErrorCode::BitfieldLiteralOutOfRange => Some(337u32),
            ErrorCode::EnumDiscriminantRequiresUnitVariant => Some(338u32),
            ErrorCode::DuplicateEnumDiscriminant => Some(339u32),
            ErrorCode::UseAfterMove => Some(400u32),
            ErrorCode::CannotConsumeView => Some(401u32),
            ErrorCode::PureCallsImpure => Some(500u32),
            ErrorCode::VerifyCallsImpure => Some(501u32),
            ErrorCode::SecretExposure => Some(600u32),
            ErrorCode::DeclassifyRequiresSecret => Some(601u32),
            ErrorCode::SecretOperationRequiresSecret => Some(602u32),
            ErrorCode::TypeContainsSecretData => Some(603u32),
            _ => None,
        }
    }

    /// The published number of the code, where it has one.
    pub fn code(self) -> (r: Option<u32>)
        ensures
            r == self.published(),
    {
        match self {
            ErrorCode::TypeMismatch => Some(300u32),
            ErrorCode::BinaryOpMismatch => Some(301u32),
            ErrorCode::UnaryOpMismatch => Some(302u32),
            ErrorCode::ArgumentCountMismatch => Some(303u32),
            ErrorCode::ArgumentTypeMismatch => Some(304u32),
            ErrorCode::ReturnTypeMismatch => Some(305u32),
            ErrorCode::ConditionNotBool => Some(306u32),
            ErrorCode::NotIterable => Some(307u32),
            ErrorCode::UnknownType => Some(309u32),
            ErrorCode::VarDeclTypeMismatch => Some(311u32),
            ErrorCode::IntegerLiteralOutOfRange => Some(311u32),
            ErrorCode::AssignTypeMismatch => Some(312u32),
            ErrorCode::ResultRequiresHandleError => Some(316u32),
            ErrorCode::OptionalRequiresBareHandle => Some(317u32),
            ErrorCode::HandleBlockRequiresReturnOrDefault => Some(318u32),
            ErrorCode::TypeHasNoMember => Some(319u32),
            ErrorCode::MissingConstructorField => Some(321u32),
            ErrorCode::VariantBindingCountMismatch => Some(323u32),
            ErrorCode::NonExhaustiveMatch => Some(324u32),
            ErrorCode::MutualFunctionMissingDefinition => Some(325u32),
            ErrorCode::MutualSignatureMismatch => Some(326u32),
            ErrorCode::ImplementedMethodSignatureMismatch => Some(330u32),
            ErrorCode::MissingImplementedMethod => Some(331u32),
            ErrorCode::TypeDoesNotImplementInterface => Some(332u32),
            ErrorCode::RefinementRequiresHandleError => Some(333u32),
            ErrorCode::RefinementConstraintNotBool => Some(335u32),
            ErrorCode::InvalidBitfieldField => Some(336u32),
            ErrorCode::BitfieldLiteralOutOfRange => Some(337u32),
            ErrorCode::EnumDiscriminantRequiresUnitVariant => Some(338u32),
            ErrorCode::DuplicateEnumDiscriminant => Some(339u32),
            ErrorCode::UseAfterMove => Some(400u32),
            ErrorCode::CannotConsumeView => Some(401u32),
            ErrorCode::PureCallsImpure => Some(500u32),
            ErrorCode::VerifyCallsImpure => Some(501u32),
            ErrorCode::SecretExposure => Some(600u32),
            ErrorCode::DeclassifyRequiresSecret => Some(601u32),
            ErrorCode::SecretOperationRequiresSecret => Some(602u32),
            ErrorCode::TypeContainsSecretData => Some(603u32),
            _ => None,
        }
    }
}

impl ErrorCode {
    /// What the code stands for, in words.
    pub fn headline(self) -> (r: &'static str)
        ensures
            r@ == headline_words(self)@,
    {
        match self {
            ErrorCode::TypeMismatch => "type mismatch",
            ErrorCode::BinaryOpMismatch => "binary op mismatch",
            ErrorCode::UnaryOpMismatch => "unary op mismatch",
            ErrorCode::ArgumentCountMismatch => "argument count mismatch",
            ErrorCode::ArgumentCountRangeMismatch => "argument count range mismatch",
            ErrorCode::ArgumentTypeMismatch => "argument type mismatch",
            ErrorCode::ReturnTypeMismatch => "return type mismatch",
            ErrorCode::ConditionNotBool => "condition not bool",
            ErrorCode::NotIterable => "not iterable",
            ErrorCode::NotCallable => "not callable",
            ErrorCode::UnknownType => "unknown type",
            ErrorCode::VarDeclTypeMismatch => "var decl type mismatch",
            ErrorCode::IntegerLiteralOutOfRange => "integer literal must fit in `int64` or `uint64`",
            ErrorCode::AssignTypeMismatch => "assign type mismatch",
            ErrorCode::UnhandledResult => "unhandled result",
            ErrorCode::UnhandledOptional => "unhandled optional",
            ErrorCode::HandleRequiresResultOrOptional => "handle requires result or optional",
            ErrorCode::ResultRequiresHandleError => "result requires handle error",
            ErrorCode::OptionalRequiresBareHandle => "optional requires bare handle",
            ErrorCode::HandleBlockRequiresReturnOrDefault => "handle block requires return or default",
            ErrorCode::DefaultOutsideHandle => "default outside handle",
            ErrorCode::TypeHasNoMember => "type has no member",
            ErrorCode::MissingConstructorField => "missing constructor field",
            ErrorCode::DuplicateConstructorField => "duplicate constructor field",
            ErrorCode::VariantBindingCountMismatch => "variant binding count mismatch",
            ErrorCode::MatchRequiresEnum => "match requires enum",
            ErrorCode::NonExhaustiveMatch => "non exhaustive match",
            ErrorCode::MutualFunctionMissingDefinition => "mutual function missing definition",
            ErrorCode::MutualSignatureMismatch => "mutual signature mismatch",
            ErrorCode::ExpectedInterface => "expected interface",
            ErrorCode::InterfaceHasNoMember => "interface has no member",
            ErrorCode::DuplicateImplementedMethod => "duplicate implemented method",
            ErrorCode::ImplementedMethodSignatureMismatch => "implemented method signature mismatch",
            ErrorCode::MissingImplementedMethod => "missing implemented method",
            ErrorCode::TypeDoesNotImplementInterface => "type does not implement interface",
            ErrorCode::RefinementRequiresHandleError => "refinement requires handle error",
            ErrorCode::CoarsenRequiresRefinement => "coarsen requires refinement",
            ErrorCode::RefinementConstraintNotBool => "refinement constraint not bool",
            ErrorCode::InvalidBitfieldField => "invalid bitfield field",
            ErrorCode::BitfieldLiteralOutOfRange => "bitfield literal out of range",
            ErrorCode::EnumDiscriminantRequiresUnitVariant => "enum discriminant requires unit variant",
            ErrorCode::DuplicateEnumDiscriminant => "duplicate enum discriminant",
            ErrorCode::AssertOutsideTestBlock => "assert outside test block",
            ErrorCode::AssertConditionNotBool => "assert condition not bool",
            ErrorCode::RespondOutsideHandler => "respond outside handler",
            ErrorCode::DuplicateMachineState => "duplicate machine state",
            ErrorCode::InvalidMachineTransition => "invalid machine transition",
            ErrorCode::InvalidMachineConstruction => "invalid machine construction",
            ErrorCode::InvalidMachineTransitionCall => "invalid machine transition call",
            ErrorCode::InvalidMachineStateCheck => "invalid machine state check",
            ErrorCode::InvalidComptimeTypeBinding => "invalid comptime type binding",
            ErrorCode::ReflectionMetadataConstructor => "reflection metadata constructor",
            ErrorCode::JsonUnsupportedSerializeType => "json unsupported serialize type",
            ErrorCode::JsonUnsupportedParseType => "json unsupported parse type",
            ErrorCode::JsonMapKeyMustBeString => "json map key must be string",
            ErrorCode::JsonSerializeRequiresView => "json serialize requires view",
            ErrorCode::DuplicateJsonSerializeName => "duplicate json serialize name",
            ErrorCode::UseAfterMove => "use after move",
            ErrorCode::CannotConsumeView => "cannot consume view",
            ErrorCode::PureCallsImpure => "pure calls impure",
            ErrorCode::VerifyCallsImpure => "verify calls impure",
            ErrorCode::SecretExposure => "secret exposure",
            ErrorCode::DeclassifyRequiresSecret => "declassify requires secret",
            ErrorCode::SecretOperationRequiresSecret => "secret operation requires secret",
            ErrorCode::TypeContainsSecretData => "type contains secret data",
            ErrorCode::TooComplex => "too complex",
        }
    }
}

pub open spec fn headline_words(code: ErrorCode) -> &'static str {
    match code {
        ErrorCode::TypeMismatch => "type mismatch",
        ErrorCode::BinaryOpMismatch => "binary op mismatch",
        ErrorCode::UnaryOpMismatch => "unary op mismatch",
        ErrorCode::ArgumentCountMismatch => "argument count mismatch",
        ErrorCode::ArgumentCountRangeMismatch => "argument count range mismatch",
        ErrorCode::ArgumentTypeMismatch => "argument type mismatch",
        ErrorCode::ReturnTypeMismatch => "return type mismatch",
        ErrorCode::ConditionNotBool => "condition not bool",
        ErrorCode::NotIterable => "not iterable",
        ErrorCode::NotCallable => "not callable",
        ErrorCode::UnknownType => "unknown type",
        ErrorCode::VarDeclTypeMismatch => "var decl type mismatch",
        ErrorCode::IntegerLiteralOutOfRange => "integer literal must fit in `int64` or `uint64`",
        ErrorCode::AssignTypeMismatch => "assign type mismatch",
        ErrorCode::UnhandledResult => "unhandled result",
        ErrorCode::UnhandledOptional => "unhandled optional",
        ErrorCode::HandleRequiresResultOrOptional => "handle requires result or optional",
        ErrorCode::ResultRequiresHandleError => "result requires handle error",
        ErrorCode::OptionalRequiresBareHandle => "optional requires bare handle",
        ErrorCode::HandleBlockRequiresReturnOrDefault => "handle block requires return or default",
        ErrorCode::DefaultOutsideHandle => "default outside handle",
        ErrorCode::TypeHasNoMember => "type has no member",
        ErrorCode::MissingConstructorField => "missing constructor field",
        ErrorCode::DuplicateConstructorField => "duplicate constructor field",
        ErrorCode::VariantBindingCountMismatch => "variant binding count mismatch",
        ErrorCode::MatchRequiresEnum => "match requires enum",
        ErrorCode::NonExhaustiveMatch => "non exhaustive match",
        ErrorCode::MutualFunctionMissingDefinition => "mutual function missing definition",
        ErrorCode::MutualSignatureMismatch => "mutual signature mismatch",
        ErrorCode::ExpectedInterface => "expected interface",
        ErrorCode::InterfaceHasNoMember => "interface has no member",
        ErrorCode::DuplicateImplementedMethod => "duplicate implemented method",
        ErrorCode::ImplementedMethodSignatureMismatch => "implemented method signature mismatch",
        ErrorCode::MissingImplementedMethod => "missing implemented method",
        ErrorCode::TypeDoesNotImplementInterface => "type does not implement interface",
        ErrorCode::RefinementRequiresHandleError => "refinement requires handle error",
        ErrorCode::CoarsenRequiresRefinement => "coarsen requires refinement",
        ErrorCode::RefinementConstraintNotBool => "refinement constraint not bool",
        ErrorCode::InvalidBitfieldField => "invalid bitfield field",
        ErrorCode::BitfieldLiteralOutOfRange => "bitfield literal out of range",
        ErrorCode::EnumDiscriminantRequiresUnitVariant => "enum discriminant requires unit variant",
        ErrorCode::DuplicateEnumDiscriminant => "duplicate enum discriminant",
        ErrorCode::AssertOutsideTestBlock => "assert outside test block",
        ErrorCode::AssertConditionNotBool => "assert condition not bool",
        ErrorCode::RespondOutsideHandler => "respond outside handler",
        ErrorCode::DuplicateMachineState => "duplicate machine state",
        ErrorCode::InvalidMachineTransition => "invalid machine transition",
        ErrorCode::InvalidMachineConstruction => "invalid machine construction",
        ErrorCode::InvalidMachineTransitionCall => "invalid machine transition call",
        ErrorCode::InvalidMachineStateCheck => "invalid machine state check",
        ErrorCode::InvalidComptimeTypeBinding => "invalid comptime type binding",
        ErrorCode::ReflectionMetadataConstructor => "reflection metadata constructor",
        ErrorCode::JsonUnsupportedSerializeType => "json unsupported serialize type",
        ErrorCode::JsonUnsupportedParseType => "json unsupported parse type",
        ErrorCode::JsonMapKeyMustBeString => "json map key must be string",
        ErrorCode::JsonSerializeRequiresView => "json serialize requires view",
        ErrorCode::DuplicateJsonSerializeName => "duplicate json serialize name",
        ErrorCode::UseAfterMove => "use after move",
        ErrorCode::CannotConsumeView => "cannot consume view",
        ErrorCode::PureCallsImpure => "pure calls impure",
        ErrorCode::VerifyCallsImpure => "verify calls impure",
        ErrorCode::SecretExposure => "secret exposure",
        ErrorCode::DeclassifyRequiresSecret => "declassify requires secret",
        ErrorCode::SecretOperationRequiresSecret => "secret operation requires secret",
        ErrorCode::TypeContainsSecretData => "type contains secret data",
        ErrorCode::TooComplex => "too complex",
    }
}

/// A report: what is wrong (`code` and the names in `args`), where, and an
/// earlier place that it goes back to.
#[derive(Debug)]
pub struct Diagnostic {
    pub severity: Severity,
    pub code: ErrorCode,
    pub args: Vec<String>,
    pub span: Span,
    pub related: Option<Span>,
}

pub struct DiagnosticV {
    pub severity: Severity,
    pub code: ErrorCode,
    pub args: Seq<Seq<char>>,
    pub span: Span,
    pub related: Option<Span>,
}

impl View for Diagnostic {
    type V = DiagnosticV;

    open spec fn view(&self) -> DiagnosticV {
        DiagnosticV {
            severity: self.severity,
            code: self.code,
            args: views(self.args@),
            span: self.span,
            related: self.related,
        }
    }
}

impl Dup for Diagnostic {
    fn dup(&self) -> (r: Self) {
        Diagnostic {
            severity: self.severity,
            code: self.code,
            args: dup_vec(&self.args),
            span: self.span,
            related: self.related,
        }
    }
}

/// An error with nothing earlier to point at.
pub open spec fn error(code: ErrorCode, span: Span, args: Seq<Seq<char>>) -> DiagnosticV {
    DiagnosticV { severity: Severity::Error, code, args, span, related: None }
}

pub open spec fn error_after(
    code: ErrorCode,
    span: Span,
    args: Seq<Seq<char>>,
    related: Span,
) -> DiagnosticV {
    DiagnosticV { severity: Severity::Error, code, args, span, related: Some(related) }
}

/// A warning with nothing earlier to point at.
pub open spec fn warning(code: ErrorCode, span: Span, args: Seq<Seq<char>>) -> DiagnosticV {
    DiagnosticV { severity: Severity::Warning, code, args, span, related: None }
}

pub open spec fn arg_or_empty(args: Seq<Seq<char>>, i: int) -> Seq<char> {
    if 0 <= i < args.len() {
        args[i]
    } else {
        Seq::empty()
    }
}

/// The names in a row, each between backquotes.
pub open spec fn quoted_from(args: Seq<Seq<char>>, i: nat) -> Seq<char>
    decreases args.len() - i,
{
    if i >= args.len() {
        Seq::empty()
    } else {
        " `"@ + args[i as int] + "`"@ + quoted_from(args, i + 1)
    }
}

/// The sentence that a report is shown with.
pub open spec fn message_text(d: DiagnosticV) -> Seq<char> {
    match d.code {
        ErrorCode::UseAfterMove => "`"@ + arg_or_empty(d.args, 0)
            + "` was consumed and cannot be used again"@,
        ErrorCode::CannotConsumeView => "cannot consume `"@ + arg_or_empty(d.args, 0)
            + "` because it is a view parameter"@,
        _ => headline_words(d.code)@ + quoted_from(d.args, 0),
    }
}

/// The note at the earlier place, where there is one.
pub open spec fn label_text(d: DiagnosticV) -> Option<Seq<char>> {
    match d.related {
        None => None,
        Some(_) => if d.code == ErrorCode::UseAfterMove {
            Some("`"@ + arg_or_empty(d.args, 0) + "` was consumed here"@)
        } else {
            Some("first given here"@)
        },
    }
}

impl Diagnostic {
    pub fn error(code: ErrorCode, span: Span, args: Vec<String>) -> (r: Self)
        ensures
            r@ == error(code, span, views(args@)),
    {
        Diagnostic { severity: Severity::Error, code, args, span, related: None }
    }

    pub fn error_after(code: ErrorCode, span: Span, args: Vec<String>, related: Span) -> (r: Self)
        ensures
            r@ == error_after(code, span, views(args@), related),
    {
        Diagnostic { severity: Severity::Error, code, args, span, related: Some(related) }
    }

    pub fn warning(code: ErrorCode, span: Span, args: Vec<String>) -> (r: Self)
        ensures
            r@ == warning(code, span, views(args@)),
    {
        Diagnostic { severity: Severity::Warning, code, args, span, related: None }
    }

    fn first_arg(&self) -> (r: &str)
        ensures
            r@ == arg_or_empty(self@.args, 0),
    {
        if self.args.len() > 0 {
            self.args[0].as_str()
        } else {
            let r = "";
            proof {
                reveal_strlit("");
                assert(r@ =~= Seq::<char>::empty());
            }
            r
        }
    }

    /// The sentence that the report is shown with.
    pub fn message(&self) -> (r: String)
        ensures
            r@ == message_text(self@),
    {
        match self.code {
            ErrorCode::UseAfterMove => join3(
                "`",
                self.first_arg(),
                "` was consumed and cannot be used again",
            ),
            ErrorCode::CannotConsumeView => join3(
                "cannot consume `",
                self.first_arg(),
                "` because it is a view parameter",
            ),
            _ => {
                let mut r = text(self.code.headline());
                let mut i: usize = 0;
                while i < self.args.len()
                    invariant
                        i <= self.args@.len(),
                        r@ + quoted_from(self@.args, i as nat) == headline_words(self.code)@
                            + quoted_from(self@.args, 0),
                    decreases self.args@.len() - i,
                {
                    let ghost before = r@;
                    r.append(" `");
                    r.append(self.args[i].as_str());
                    r.append("`");
                    proof {
                        let rest = quoted_from(self@.args, (i + 1) as nat);
                        assert(r@ + rest =~= before + (" `"@ + self@.args[i as int] + "`"@ + rest));
                    }
                    i = i + 1;
                }
                assert(r@ + Seq::<char>::empty() =~= r@);
                r
            },
        }
    }

    /// The note at the earlier place, where there is one.
    pub fn label(&self) -> (r: Option<String>)
        ensures
            r is Some <==> label_text(self@) is Some,
            r matches Some(t) ==> label_text(self@) == Some(t@),
    {
        match self.related {
            None => None,
            Some(_) => if self.code == ErrorCode::UseAfterMove {
                Some(join3("`", self.first_arg(), "` was consumed here"))
            } else {
                Some(text("first given here"))
            },
        }
    }
}

/// A list of one text.
pub fn args1(a: String) -> (r: Vec<String>)
    ensures
        views(r@) == seq![a@],
{
    let mut r: Vec<String> = Vec::new();
    r.push(a);
    assert(views(r@) =~= seq![a@]);
    r
}

pub fn args2(a: String, b: String) -> (r: Vec<String>)
    ensures
        views(r@) == seq![a@, b@],
{
    let mut r: Vec<String> = Vec::new();
    r.push(a);
    r.push(b);
    assert(views(r@) =~= seq![a@, b@]);
    r
}

pub fn args3(a: String, b: String, c: String) -> (r: Vec<String>)
    ensures
        views(r@) == seq![a@, b@, c@],
{
    let mut r: Vec<String> = Vec::new();
    r.push(a);
    r.push(b);
    r.push(c);
    assert(views(r@) =~= seq![a@, b@, c@]);
    r
}

pub fn args4(a: String, b: String, c: String, d: String) -> (r: Vec<String>)
    ensures
        views(r@) == seq![a@, b@, c@, d@],
{
    let mut r: Vec<String> = Vec::new();
    r.push(a);
    r.push(b);
    r.push(c);
    r.push(d);
    assert(views(r@) =~= seq![a@, b@, c@, d@]);
    r
}

pub fn args0() -> (r: Vec<String>)
    ensures
        views(r@) == Seq::<Seq<char>>::empty(),
{
    let r: Vec<String> = Vec::new();
    assert(views(r@) =~= Seq::<Seq<char>>::empty());
    r
}

} // verus!
