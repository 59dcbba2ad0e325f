//! The syntax tree of a module.
use vstd::prelude::*;

use crate::span::{FileId, Span};

verus! {

#[derive(Debug)]
pub struct Ident {
    pub name: String,
    pub span: Span,
}

#[derive(Debug)]
pub struct Module {
    pub items: Vec<Item>,
    pub span: Span,
}

#[derive(Debug)]
pub enum Item {
    Namespace(NamespaceDecl),
    Function(FunctionDef),
    Mutual(MutualBlock),
    Interface(InterfaceDecl),
    Implement(ImplementBlock),
    Struct(StructDef),
    Bitfield(BitfieldDef),
    Enum(EnumDef),
    Machine(MachineDef),
    Actor(ActorDef),
    VarDecl(VarDecl),
    Verify(VerifyBlock),
    Property(PropertyBlock),
    TypeAlias(TypeAlias),
}

#[derive(Debug)]
pub struct NamespaceDecl {
    pub name: Ident,
    pub span: Span,
}

#[derive(Debug)]
pub struct Param {
    pub view: bool,
    pub mutable: bool,
    pub name: Ident,
    pub ty: TypeExpr,
    pub span: Span,
}

#[derive(Debug)]
pub struct FunctionDef {
    pub name: Ident,
    pub type_params: Vec<Ident>,
    pub params: Vec<Param>,
    pub return_type: Option<TypeExpr>,
    pub body: Block,
    pub exported: bool,
    pub span: Span,
}

/// A function header without a body.
#[derive(Debug)]
pub struct FunctionDecl {
    pub name: Ident,
    pub type_params: Vec<Ident>,
    pub params: Vec<Param>,
    pub return_type: Option<TypeExpr>,
    pub exported: bool,
    pub span: Span,
}

#[derive(Debug)]
pub struct MutualBlock {
    pub declarations: Vec<FunctionDecl>,
    pub span: Span,
}

#[derive(Debug)]
pub struct InterfaceDecl {
    pub name: Ident,
    pub methods: Vec<FunctionDecl>,
    pub span: Span,
}

#[derive(Debug)]
pub struct ImplementBlock {
    pub interface_name: Ident,
    pub for_type: TypeExpr,
    pub methods: Vec<FunctionDef>,
    pub span: Span,
}

#[derive(Debug)]
pub struct FieldDef {
    pub name: Ident,
    pub ty: TypeExpr,
    pub serialize_name: Option<String>,
    pub span: Span,
}

#[derive(Debug)]
pub struct StructDef {
    pub name: Ident,
    pub type_params: Vec<Ident>,
    pub fields: Vec<FieldDef>,
    pub methods: Vec<FunctionDef>,
    pub exported: bool,
    pub span: Span,
}

#[derive(Debug)]
pub enum BitfieldFieldKind {
    Bits { width: u16, as_type: Option<TypeExpr> },
    Payload(TypeExpr),
}

#[derive(Debug)]
pub struct BitfieldField {
    pub name: Ident,
    pub kind: BitfieldFieldKind,
    pub span: Span,
}

#[derive(Debug)]
pub struct BitfieldDef {
    pub name: Ident,
    pub network_order: bool,
    pub fields: Vec<BitfieldField>,
    pub span: Span,
}

#[derive(Debug)]
pub struct EnumVariantDef {
    pub name: Ident,
    pub fields: Vec<FieldDef>,
    pub discriminant: Option<i64>,
    pub span: Span,
}

#[derive(Debug)]
pub struct EnumDef {
    pub name: Ident,
    pub variants: Vec<EnumVariantDef>,
    pub span: Span,
}

#[derive(Debug)]
pub struct MachineStateDef {
    pub name: Ident,
    pub fields: Vec<FieldDef>,
    pub span: Span,
}

#[derive(Debug)]
pub struct MachineTransitionDef {
    pub from: Ident,
    pub to: Ident,
    pub span: Span,
}

#[derive(Debug)]
pub struct MachineDef {
    pub name: Ident,
    pub states: Vec<MachineStateDef>,
    pub transitions: Vec<MachineTransitionDef>,
    pub span: Span,
}

#[derive(Debug)]
pub struct ActorStateField {
    pub name: Ident,
    pub ty: TypeExpr,
    pub value: Expr,
    pub span: Span,
}

#[derive(Debug)]
pub struct ReceiveHandler {
    pub name: Ident,
    pub params: Vec<Param>,
    pub responds: Option<TypeExpr>,
    pub body: Block,
    pub span: Span,
}

#[derive(Debug)]
pub struct ActorDef {
    pub name: Ident,
    pub capability_params: Vec<Param>,
    pub state_fields: Vec<ActorStateField>,
    pub handlers: Vec<ReceiveHandler>,
    pub span: Span,
}

#[derive(Debug)]
pub struct VerifyBlock {
    pub name: Ident,
    pub body: Block,
    pub span: Span,
}

#[derive(Debug)]
pub struct PropertyGiven {
    pub name: Ident,
    pub ty: TypeExpr,
    pub span: Span,
}

#[derive(Debug)]
pub struct PropertyBlock {
    pub name: Ident,
    pub givens: Vec<PropertyGiven>,
    pub body: Block,
    pub span: Span,
}

#[derive(Debug)]
pub struct TypeAlias {
    pub name: Ident,
    pub base_type: TypeExpr,
    pub constraint: Option<Expr>,
    pub root_exported: bool,
    pub span: Span,
}

#[derive(Debug)]
pub enum TypeExpr {
    Named(Ident),
    Generic(Ident, Vec<TypeExpr>, Span),
    View(Box<TypeExpr>, Span),
    StateQualified(Box<TypeExpr>, Ident, Span),
    Function(Vec<TypeExpr>, Box<TypeExpr>, Span),
}

#[derive(Debug)]
pub struct Block {
    pub stmts: Vec<Stmt>,
    pub span: Span,
}

#[derive(Debug)]
pub enum Stmt {
    VarDecl(VarDecl),
    Assign(AssignStmt),
    Return(ReturnStmt),
    ComptimeTypeBind(ComptimeTypeBindStmt),
    If(IfStmt),
    For(ForStmt),
    While(WhileStmt),
    Match(MatchStmt),
    Expr(ExprStmt),
    Use(UseStmt),
    Assert(AssertStmt),
    Trace(TraceStmt),
    Breakpoint(BreakpointStmt),
    Respond(RespondStmt),
    Break(Span),
    Continue(Span),
}

#[derive(Debug)]
pub struct VarDecl {
    pub mutable: bool,
    pub ty: TypeExpr,
    pub name: Ident,
    pub value: Expr,
    pub span: Span,
}

#[derive(Debug)]
pub struct AssignStmt {
    pub target: Expr,
    pub value: Expr,
    pub span: Span,
}

#[derive(Debug)]
pub struct ReturnStmt {
    pub value: Option<Expr>,
    pub span: Span,
}

#[derive(Debug)]
pub struct ComptimeTypeBindStmt {
    pub name: Ident,
    pub value: Expr,
    pub body: Block,
    pub span: Span,
}

#[derive(Debug)]
pub struct IfStmt {
    pub condition: Expr,
    pub then_block: Block,
    pub else_ifs: Vec<(Expr, Block)>,
    pub else_block: Option<Block>,
    pub span: Span,
}

#[derive(Debug)]
pub struct ForStmt {
    pub variable: Ident,
    pub value_variable: Option<Ident>,
    pub view: bool,
    pub iterable: Expr,
    pub body: Block,
    pub span: Span,
}

#[derive(Debug)]
pub struct WhileStmt {
    pub condition: Expr,
    pub body: Block,
    pub span: Span,
}

#[derive(Debug)]
pub enum Pattern {
    Ident(Ident),
    Variant(Ident, Vec<Ident>),
    Other(Span),
}

#[derive(Debug)]
pub struct MatchArm {
    pub pattern: Pattern,
    pub body: Block,
    pub span: Span,
}

#[derive(Debug)]
pub struct MatchStmt {
    pub expr: Expr,
    pub arms: Vec<MatchArm>,
    pub span: Span,
}

#[derive(Debug)]
pub struct ExprStmt {
    pub expr: Expr,
    pub span: Span,
}

#[derive(Debug)]
pub struct UseStmt {
    pub path: Ident,
    pub alias: Option<Ident>,
    pub span: Span,
}

#[derive(Debug)]
pub struct AssertStmt {
    pub condition: Expr,
    pub message: Option<Expr>,
    pub span: Span,
}

#[derive(Debug)]
pub struct TraceStmt {
    pub name: Ident,
    pub span: Span,
}

#[derive(Debug)]
pub struct BreakpointStmt {
    pub condition: Option<Expr>,
    pub span: Span,
}

#[derive(Debug)]
pub struct RespondStmt {
    pub value: Expr,
    pub span: Span,
}

#[derive(Debug, Clone, Copy, PartialEq, Eq, Structural)]
pub enum BinOp {
    Add,
    Sub,
    Mul,
    Div,
    Modulo,
    Eq,
    NotEq,
    Lt,
    Gt,
    LtEq,
    GtEq,
    And,
    Or,
}

#[derive(Debug, Clone, Copy, PartialEq, Eq, Structural)]
pub enum UnaryOp {
    Not,
    Neg,
}

#[derive(Debug)]
pub struct CallArg {
    pub name: Option<Ident>,
    pub value: Expr,
    pub span: Span,
}

#[derive(Debug)]
pub enum StringPart {
    Literal(String),
    Expr(Expr),
}

#[derive(Debug)]
pub struct PipelineHandle {
    pub error_name: Option<Ident>,
    pub body: Block,
    pub span: Span,
}

#[derive(Debug)]
pub struct PipelineStep {
    pub function: Expr,
    pub extra_args: Vec<CallArg>,
    pub handle: Option<PipelineHandle>,
    pub span: Span,
}

/// An expression. A float literal keeps its source text.
#[derive(Debug)]
pub enum Expr {
    IntLiteral(i128, Span),
    FloatLiteral(String, Span),
    StringLiteral(String, Span),
    BoolLiteral(bool, Span),
    Nothing(Span),
    Ident(Ident),
    Binary(Box<Expr>, BinOp, Box<Expr>, Span),
    Unary(UnaryOp, Box<Expr>, Span),
    Call(Box<Expr>, Vec<CallArg>, Span),
    GenericCall(Box<Expr>, Vec<TypeExpr>, Vec<CallArg>, Span),
    Paren(Box<Expr>, Span),
    FieldAccess(Box<Expr>, Ident, Span),
    View(Box<Expr>, Span),
    ListConstruct(Vec<Expr>, Span),
    MapConstruct(Vec<(Expr, Expr)>, Span),
    Handle(Box<Expr>, Option<Ident>, Block, Span),
    OkOf(Box<Expr>, Span),
    FailOf(Box<Expr>, Span),
    SomeOf(Box<Expr>, Span),
    NoneOf(Span),
    Default(Box<Expr>, Span),
    StringInterpolation(Vec<StringPart>, Span),
    Declassify(Box<Expr>, Span),
    Coarsen(Box<Expr>, Span),
    Pipeline(Box<Expr>, Vec<PipelineStep>, Span),
    At(Box<Expr>, Ident, Span),
    Spawn(Box<Expr>, Span),
    Send(Box<Expr>, Span),
    Ask(Box<Expr>, Span),
    Clone(Box<Expr>, Span),
    Run(Box<Expr>, Span),
    Join(Box<Expr>, Span),
    Cancel(Box<Expr>, Span),
    InlineFn(Vec<Param>, Option<TypeExpr>, Block, Span),
    EnumVariant(Ident, Ident, Span),
    Error(Span),
}

impl View for TypeAlias {
    type V = TypeAlias;

    open spec fn view(&self) -> TypeAlias {
        *self
    }
}

impl View for StructDef {
    type V = StructDef;

    open spec fn view(&self) -> StructDef {
        *self
    }
}

impl View for FunctionDef {
    type V = FunctionDef;

    open spec fn view(&self) -> FunctionDef {
        *self
    }
}

pub open spec fn expr_span(e: Expr) -> Span {
    match e {
        Expr::IntLiteral(_, s) => s,
        Expr::FloatLiteral(_, s) => s,
        Expr::StringLiteral(_, s) => s,
        Expr::BoolLiteral(_, s) => s,
        Expr::Nothing(s) => s,
        Expr::Ident(i) => i.span,
        Expr::Binary(_, _, _, s) => s,
        Expr::Unary(_, _, s) => s,
        Expr::Call(_, _, s) => s,
        Expr::GenericCall(_, _, _, s) => s,
        Expr::Paren(_, s) => s,
        Expr::FieldAccess(_, _, s) => s,
        Expr::View(_, s) => s,
        Expr::ListConstruct(_, s) => s,
        Expr::MapConstruct(_, s) => s,
        Expr::Handle(_, _, _, s) => s,
        Expr::OkOf(_, s) => s,
        Expr::FailOf(_, s) => s,
        Expr::SomeOf(_, s) => s,
        Expr::NoneOf(s) => s,
        Expr::Default(_, s) => s,
        Expr::StringInterpolation(_, s) => s,
        Expr::Declassify(_, s) => s,
        Expr::Coarsen(_, s) => s,
        Expr::Pipeline(_, _, s) => s,
        Expr::At(_, _, s) => s,
        Expr::Spawn(_, s) => s,
        Expr::Send(_, s) => s,
        Expr::Ask(_, s) => s,
        Expr::Clone(_, s) => s,
        Expr::Run(_, s) => s,
        Expr::Join(_, s) => s,
        Expr::Cancel(_, s) => s,
        Expr::InlineFn(_, _, _, s) => s,
        Expr::EnumVariant(_, _, s) => s,
        Expr::Error(s) => s,
    }
}

impl Expr {
    /// The stretch of text that the expression covers.
    pub fn span(&self) -> (r: Span)
        ensures
            r == expr_span(*self),
    {
        match self {
            Expr::IntLiteral(_, s) => *s,
            Expr::FloatLiteral(_, s) => *s,
            Expr::StringLiteral(_, s) => *s,
            Expr::BoolLiteral(_, s) => *s,
            Expr::Nothing(s) => *s,
            Expr::Ident(i) => i.span,
            Expr::Binary(_, _, _, s) => *s,
            Expr::Unary(_, _, s) => *s,
            Expr::Call(_, _, s) => *s,
            Expr::GenericCall(_, _, _, s) => *s,
            Expr::Paren(_, s) => *s,
            Expr::FieldAccess(_, _, s) => *s,
            Expr::View(_, s) => *s,
            Expr::ListConstruct(_, s) => *s,
            Expr::MapConstruct(_, s) => *s,
            Expr::Handle(_, _, _, s) => *s,
            Expr::OkOf(_, s) => *s,
            Expr::FailOf(_, s) => *s,
            Expr::SomeOf(_, s) => *s,
            Expr::NoneOf(s) => *s,
            Expr::Default(_, s) => *s,
            Expr::StringInterpolation(_, s) => *s,
            Expr::Declassify(_, s) => *s,
            Expr::Coarsen(_, s) => *s,
            Expr::Pipeline(_, _, s) => *s,
            Expr::At(_, _, s) => *s,
            Expr::Spawn(_, s) => *s,
            Expr::Send(_, s) => *s,
            Expr::Ask(_, s) => *s,
            Expr::Clone(_, s) => *s,
            Expr::Run(_, s) => *s,
            Expr::Join(_, s) => *s,
            Expr::Cancel(_, s) => *s,
            Expr::InlineFn(_, _, _, s) => *s,
            Expr::EnumVariant(_, _, s) => *s,
            Expr::Error(s) => *s,
        }
    }
}

pub open spec fn type_expr_span(t: TypeExpr) -> Span {
    match t {
        TypeExpr::Named(i) => i.span,
        TypeExpr::Generic(_, _, s) => s,
        TypeExpr::View(_, s) => s,
        TypeExpr::StateQualified(_, _, s) => s,
        TypeExpr::Function(_, _, s) => s,
    }
}

impl TypeExpr {
    /// The stretch of text that the type covers.
    pub fn span(&self) -> (r: Span)
        ensures
            r == type_expr_span(*self),
    {
        match self {
            TypeExpr::Named(i) => i.span,
            TypeExpr::Generic(_, _, s) => *s,
            TypeExpr::View(_, s) => *s,
            TypeExpr::StateQualified(_, _, s) => *s,
            TypeExpr::Function(_, _, s) => *s,
        }
    }
}

pub open spec fn stmt_span(s: Stmt) -> Span {
    match s {
        Stmt::VarDecl(d) => d.span,
        Stmt::Assign(a) => a.span,
        Stmt::Return(r) => r.span,
        Stmt::ComptimeTypeBind(b) => b.span,
        Stmt::If(i) => i.span,
        Stmt::For(f) => f.span,
        Stmt::While(w) => w.span,
        Stmt::Match(m) => m.span,
        Stmt::Expr(e) => e.span,
        Stmt::Use(u) => u.span,
        Stmt::Assert(a) => a.span,
        Stmt::Trace(t) => t.span,
        Stmt::Breakpoint(b) => b.span,
        Stmt::Respond(r) => r.span,
        Stmt::Break(s) => s,
        Stmt::Continue(s) => s,
    }
}

impl Stmt {
    /// The stretch of text that the statement covers.
    pub fn span(&self) -> (r: Span)
        ensures
            r == stmt_span(*self),
    {
        match self {
            Stmt::VarDecl(d) => d.span,
            Stmt::Assign(a) => a.span,
            Stmt::Return(r) => r.span,
            Stmt::ComptimeTypeBind(b) => b.span,
            Stmt::If(i) => i.span,
            Stmt::For(f) => f.span,
            Stmt::While(w) => w.span,
            Stmt::Match(m) => m.span,
            Stmt::Expr(e) => e.span,
            Stmt::Use(u) => u.span,
            Stmt::Assert(a) => a.span,
            Stmt::Trace(t) => t.span,
            Stmt::Breakpoint(b) => b.span,
            Stmt::Respond(r) => r.span,
            Stmt::Break(s) => *s,
            Stmt::Continue(s) => *s,
        }
    }
}

pub open spec fn item_file(item: Item) -> FileId {
    match item {
        Item::Namespace(x) => x.span.file,
        Item::Function(x) => x.span.file,
        Item::Mutual(x) => x.span.file,
        Item::Interface(x) => x.span.file,
        Item::Implement(x) => x.span.file,
        Item::Struct(x) => x.span.file,
        Item::Bitfield(x) => x.span.file,
        Item::Enum(x) => x.span.file,
        Item::Machine(x) => x.span.file,
        Item::Actor(x) => x.span.file,
        Item::VarDecl(x) => x.span.file,
        Item::Verify(x) => x.span.file,
        Item::Property(x) => x.span.file,
        Item::TypeAlias(x) => x.span.file,
    }
}

impl Item {
    /// The file that the item stands in.
    pub fn item_file(&self) -> (r: FileId)
        ensures
            r == item_file(*self),
    {
        match self {
            Item::Namespace(x) => x.span.file,
            Item::Function(x) => x.span.file,
            Item::Mutual(x) => x.span.file,
            Item::Interface(x) => x.span.file,
            Item::Implement(x) => x.span.file,
            Item::Struct(x) => x.span.file,
            Item::Bitfield(x) => x.span.file,
            Item::Enum(x) => x.span.file,
            Item::Machine(x) => x.span.file,
            Item::Actor(x) => x.span.file,
            Item::VarDecl(x) => x.span.file,
            Item::Verify(x) => x.span.file,
            Item::Property(x) => x.span.file,
            Item::TypeAlias(x) => x.span.file,
        }
    }
}

} // verus!
