//! Ownership analysis: which variables still hold a value at each point.
use vstd::prelude::*;

use crate::ast::{
    expr_span, Block, CallArg, Expr, ForStmt, FunctionDef, Ident, IfStmt, Item, MatchStmt, Module,
    Param, PipelineStep, Stmt, StringPart, TypeExpr, VarDecl,
};
use crate::diagnostics::{args1, error, error_after, Diagnostic, DiagnosticV, ErrorCode};
use crate::ownership_laws::law_code_behind_an_exit_is_ignored;
use crate::span::Span;
use crate::table::{views, Dup, Table};
use crate::text::{contains_text, join3, same_text};
use crate::types::{sound, ty, Type, TypeId, TypeInterner, Types};

verus! {

// ---------------------------------------------------------------------------
// States of variables
// ---------------------------------------------------------------------------

/// The ownership state of a variable.
#[derive(Debug, Clone, Copy, PartialEq, Eq, Structural)]
pub enum OwnershipState {
    /// The variable holds an owned value.
    Owned,
    /// The variable is a `view` (read-only borrow).
    Viewed,
    /// The variable has been moved and is no longer valid.
    Consumed,
    /// The variable was produced by `run` and cannot be used until `join`ed.
    Pending,
    /// The variable has not been assigned yet.
    Uninitialized,
}

/// What is known of a variable. `consumed_span` is where it was consumed.
#[derive(Debug, Clone, Copy, PartialEq, Eq, Structural)]
pub struct VarInfo {
    pub state: OwnershipState,
    pub mutable: bool,
    pub type_id: TypeId,
    pub consumed_span: Option<Span>,
}

impl View for VarInfo {
    type V = VarInfo;

    open spec fn view(&self) -> VarInfo {
        *self
    }
}

impl Dup for VarInfo {
    fn dup(&self) -> (r: Self) {
        *self
    }
}

pub type Vars = Map<Seq<char>, VarInfo>;

/// Where the analysis stands: the variables in scope and the reports so far.
pub struct Standing {
    pub vars: Vars,
    pub reports: Seq<DiagnosticV>,
}

/// What the analysis looks up and never changes: the types, and the names of
/// the calls beside the collection builtins that view their first argument.
pub struct Surroundings {
    pub types: Types,
    pub facades: Seq<Seq<char>>,
}

pub open spec fn report(s: Standing, d: DiagnosticV) -> Standing {
    Standing { reports: s.reports.push(d), ..s }
}

pub open spec fn bind(s: Standing, name: Seq<char>, info: VarInfo) -> Standing {
    Standing { vars: s.vars.insert(name, info), ..s }
}

pub open spec fn fresh_info(viewed: bool, mutable: bool, type_id: TypeId) -> VarInfo {
    VarInfo {
        state: if viewed {
            OwnershipState::Viewed
        } else {
            OwnershipState::Owned
        },
        mutable,
        type_id,
        consumed_span: None,
    }
}

/// Values of these types are copied, never moved.
pub open spec fn copyable(t: Type) -> bool {
    match t {
        Type::Int8 | Type::Int16 | Type::Int32 | Type::Int64 => true,
        Type::Uint8 | Type::Uint16 | Type::Uint32 | Type::Uint64 => true,
        Type::Float32 | Type::Float64 => true,
        Type::String | Type::Bool | Type::Nothing | Type::Error => true,
        _ => false,
    }
}

/// The id that stands for a written type here: its own for a primitive, that
/// of `bytes` for everything that moves.
pub open spec fn ownership_type(t: TypeExpr) -> TypeId
    decreases t,
{
    match t {
        TypeExpr::Named(ident) => primitive_stand_in(ident.name@),
        TypeExpr::View(inner, _) => ownership_type(*inner),
        _ => TypeInterner::BYTES,
    }
}

pub open spec fn primitive_stand_in(name: Seq<char>) -> TypeId {
    if name == "int8"@ {
        TypeInterner::INT8
    } else if name == "int16"@ {
        TypeInterner::INT16
    } else if name == "int32"@ {
        TypeInterner::INT32
    } else if name == "int64"@ || name == "TypeKind"@ || name == "TypePrimitive"@ {
        TypeInterner::INT64
    } else if name == "uint8"@ {
        TypeInterner::UINT8
    } else if name == "uint16"@ {
        TypeInterner::UINT16
    } else if name == "uint32"@ {
        TypeInterner::UINT32
    } else if name == "uint64"@ {
        TypeInterner::UINT64
    } else if name == "float32"@ {
        TypeInterner::FLOAT32
    } else if name == "float64"@ {
        TypeInterner::FLOAT64
    } else if name == "string"@ {
        TypeInterner::STRING
    } else if name == "bool"@ {
        TypeInterner::BOOL
    } else if name == "nothing"@ {
        TypeInterner::NOTHING
    } else if name == "TypeConstruction"@ {
        TypeInterner::TYPE_CONSTRUCTION
    } else {
        TypeInterner::BYTES
    }
}

/// The name that a chain of field accesses on an identifier spells.
pub open spec fn dotted_name(e: Expr) -> Option<Seq<char>>
    decreases e,
{
    match e {
        Expr::Ident(ident) => Some(ident.name@),
        Expr::FieldAccess(inner, field, _) => match dotted_name(*inner) {
            Some(prefix) => Some(prefix + "."@ + field.name@),
            None => None,
        },
        _ => None,
    }
}

/// The collection builtins, whose first argument is viewed without saying so.
pub open spec fn views_collection(name: Seq<char>) -> bool {
    views_map(name) || views_list(name) || views_sample(name)
}

pub open spec fn views_map(name: Seq<char>) -> bool {
    ||| name == "map.length"@
    ||| name == "map.has"@
    ||| name == "map.get"@
    ||| name == "map.insert"@
    ||| name == "map.remove"@
    ||| name == "map.keys"@
    ||| name == "map.values"@
    ||| name == "map.is_empty"@
    ||| name == "map.get_or"@
    ||| name == "map.merge"@
    ||| name == "map.contains_key"@
    ||| name == "map.set"@
}

pub open spec fn views_list(name: Seq<char>) -> bool {
    ||| name == "list.length"@
    ||| name == "list.get"@
    ||| name == "list.first"@
    ||| name == "list.last"@
    ||| name == "list.append"@
    ||| name == "list.is_empty"@
    ||| name == "list.skip"@
    ||| name == "list.take"@
    ||| name == "list.reverse"@
    ||| name == "list.sort"@
    ||| name == "list.contains"@
    ||| name == "list.index_of"@
    ||| name == "list.remove"@
    ||| name == "list.concat"@
    ||| name == "list.flatten"@
    ||| name == "list.unique"@
    ||| name == "list.zip"@
    ||| name == "list.filter"@
    ||| name == "list.map"@
    ||| name == "list.find"@
    ||| name == "list.sort_by"@
    ||| name == "list.all"@
    ||| name == "list.any"@
    ||| name == "list.count"@
    ||| name == "list.sum"@
    ||| name == "list.group_by"@
    ||| name == "list.chunk"@
    ||| name == "list.sort_by_index"@
    ||| name == "list.is_sorted"@
    ||| name == "list.all_elements_in"@
}

pub open spec fn views_sample(name: Seq<char>) -> bool {
    ||| name == "random.choice"@
    ||| name == "random.shuffle"@
    ||| name == "math.average"@
    ||| name == "math.median"@
}

/// Whether a call of `callee` views its first argument without saying so.
pub open spec fn views_first_argument(w: Surroundings, callee: Expr) -> bool {
    match dotted_name(callee) {
        Some(name) => views_collection(name) || w.facades.contains(name),
        None => false,
    }
}

// ---------------------------------------------------------------------------
// Leaving a block
// ---------------------------------------------------------------------------

/// Whether control never goes past the statement.
pub open spec fn exits(s: Stmt) -> bool
    decreases s,
{
    match s {
        Stmt::Return(_) => true,
        Stmt::Respond(_) => true,
        Stmt::If(i) => match i.else_block {
            None => false,
            Some(e) => {
                &&& block_exits(i.then_block)
                &&& forall|j: int|
                    0 <= j < i.else_ifs@.len() ==> block_exits((#[trigger] i.else_ifs@[j]).1)
                &&& block_exits(e)
            },
        },
        _ => false,
    }
}

pub open spec fn block_exits(b: Block) -> bool
    decreases b,
{
    exists|i: int| 0 <= i < b.stmts@.len() && exits(#[trigger] b.stmts@[i])
}

/// Whether `short` is `b` without what stands behind a statement that control does
/// not pass.
pub open spec fn cut_at_exit(b: Block, short: Block) -> bool {
    exists|k: int|
        0 <= k < b.stmts@.len() && exits(#[trigger] b.stmts@[k]) && short.stmts@ == b.stmts@.take(k + 1)
}

// ---------------------------------------------------------------------------
// Joining branches
// ---------------------------------------------------------------------------

/// The first branch from `i` on that consumes `name`, or the number of branches.
pub open spec fn first_consuming(branches: Seq<Vars>, name: Seq<char>, i: nat) -> nat
    decreases branches.len() - i,
{
    if i >= branches.len() {
        branches.len()
    } else if branches[i as int][name].state == OwnershipState::Consumed {
        i
    } else {
        first_consuming(branches, name, i + 1)
    }
}

/// A variable after the branches meet. It is consumed where any branch
/// consumes it, at the place of the first such branch; else it is as the last
/// branch leaves it. One that some branch does not know stays as it was.
pub open spec fn joined_info(before: VarInfo, branches: Seq<Vars>, name: Seq<char>) -> VarInfo {
    if exists|i: int| 0 <= i < branches.len() && !(#[trigger] branches[i]).contains_key(name) {
        before
    } else {
        let consuming = first_consuming(branches, name, 0);
        let from = if consuming < branches.len() {
            branches[consuming as int][name]
        } else {
            branches.last()[name]
        };
        VarInfo {
            state: from.state,
            consumed_span: from.consumed_span,
            ..branches[0][name]
        }
    }
}

/// The variables after those branches meet that control can leave at the end.
pub open spec fn join(before: Vars, branches: Seq<Vars>) -> Vars {
    if branches.len() == 0 {
        before
    } else {
        Map::new(
            |name: Seq<char>| before.contains_key(name),
            |name: Seq<char>| joined_info(before[name], branches, name),
        )
    }
}

// ---------------------------------------------------------------------------
// The analysis
// ---------------------------------------------------------------------------

pub open spec fn read(s: Standing, ident: Ident) -> Standing {
    if s.vars.contains_key(ident.name@) && s.vars[ident.name@].state == OwnershipState::Consumed
        && s.vars[ident.name@].consumed_span is Some {
        report(
            s,
            error_after(
                ErrorCode::UseAfterMove,
                ident.span,
                seq![ident.name@],
                s.vars[ident.name@].consumed_span->0,
            ),
        )
    } else {
        s
    }
}

pub open spec fn consume_name(
    w: Surroundings,
    s: Standing,
    name: Seq<char>,
    name_span: Span,
    consume_span: Span,
) -> Standing {
    if !s.vars.contains_key(name) || copyable(ty(w.types, s.vars[name].type_id)) {
        s
    } else {
        let info = s.vars[name];
        match info.state {
            OwnershipState::Consumed => match info.consumed_span {
                Some(earlier) => report(
                    s,
                    error_after(ErrorCode::UseAfterMove, name_span, seq![name], earlier),
                ),
                None => s,
            },
            OwnershipState::Viewed => report(
                s,
                error(ErrorCode::CannotConsumeView, name_span, seq![name]),
            ),
            OwnershipState::Owned => bind(
                s,
                name,
                VarInfo {
                    state: OwnershipState::Consumed,
                    consumed_span: Some(consume_span),
                    ..info
                },
            ),
            _ => s,
        }
    }
}

pub open spec fn rebind(s: Standing, name: Seq<char>) -> Standing {
    if s.vars.contains_key(name) && s.vars[name].mutable {
        bind(
            s,
            name,
            VarInfo { state: OwnershipState::Owned, consumed_span: None, ..s.vars[name] },
        )
    } else {
        s
    }
}

proof fn cut_makes_no_difference(w: Surroundings, s: Standing, b: Block)
    ensures
        forall|short: Block| #[trigger]
            cut_at_exit(b, short) ==> after_block(w, s, b, 0) == after_block(w, s, short, 0),
{
    assert forall|short: Block| #[trigger] cut_at_exit(b, short) implies after_block(w, s, b, 0)
        == after_block(w, s, short, 0) by {
        let k = choose|k: int|
            0 <= k < b.stmts@.len() && exits(#[trigger] b.stmts@[k]) && short.stmts@ == b.stmts@.take(k + 1);
        law_code_behind_an_exit_is_ignored(w, s, b, short, 0, k as nat);
    }
}

/// Passing on the value of `e`.
pub open spec fn after_consuming(w: Surroundings, s: Standing, e: Expr, span: Span) -> Standing
    decreases e, 1nat,
{
    match e {
        Expr::Ident(ident) => consume_name(w, s, ident.name@, ident.span, span),
        Expr::View(inner, _) => after_expr(w, s, *inner),
        _ => after_expr(w, s, e),
    }
}

pub open spec fn after_args(
    w: Surroundings,
    s: Standing,
    args: Vec<CallArg>,
    view_first: bool,
    i: nat,
) -> Standing
    decreases args, args@.len() - i,
{
    if i >= args@.len() {
        s
    } else {
        let arg = args@[i as int];
        let next = match arg.value {
            Expr::View(inner, _) => after_expr(w, s, *inner),
            _ => if view_first && i == 0 {
                after_expr(w, s, arg.value)
            } else {
                after_consuming(w, s, arg.value, arg.span)
            },
        };
        after_args(w, next, args, view_first, i + 1)
    }
}

pub open spec fn after_read_args(w: Surroundings, s: Standing, args: Vec<CallArg>, i: nat) -> Standing
    decreases args, args@.len() - i,
{
    if i >= args@.len() {
        s
    } else {
        after_read_args(w, after_expr(w, s, args@[i as int].value), args, i + 1)
    }
}

pub open spec fn after_exprs(w: Surroundings, s: Standing, es: Vec<Expr>, i: nat) -> Standing
    decreases es, es@.len() - i,
{
    if i >= es@.len() {
        s
    } else {
        after_exprs(w, after_expr(w, s, es@[i as int]), es, i + 1)
    }
}

pub open spec fn after_entries(w: Surroundings, s: Standing, es: Vec<(Expr, Expr)>, i: nat) -> Standing
    decreases es, es@.len() - i,
{
    if i >= es@.len() {
        s
    } else {
        let s1 = after_expr(w, s, es@[i as int].0);
        after_entries(w, after_expr(w, s1, es@[i as int].1), es, i + 1)
    }
}

pub open spec fn after_parts(w: Surroundings, s: Standing, ps: Vec<StringPart>, i: nat) -> Standing
    decreases ps, ps@.len() - i,
{
    if i >= ps@.len() {
        s
    } else {
        let next = match ps@[i as int] {
            StringPart::Expr(e) => after_expr(w, s, e),
            _ => s,
        };
        after_parts(w, next, ps, i + 1)
    }
}

pub open spec fn after_steps(w: Surroundings, s: Standing, ps: Vec<PipelineStep>, i: nat) -> Standing
    decreases ps, ps@.len() - i,
{
    if i >= ps@.len() {
        s
    } else {
        let s1 = after_expr(w, s, ps@[i as int].function);
        let s2 = after_read_args(w, s1, ps@[i as int].extra_args, 0);
        after_steps(w, s2, ps, i + 1)
    }
}

/// Evaluating `e`. The body of an inline function is looked at in a scope of its
/// own: it captures the variables outside by view and consumes none of them.
pub open spec fn after_expr(w: Surroundings, s: Standing, e: Expr) -> Standing
    decreases e, 0nat,
{
    match e {
        Expr::Ident(ident) => read(s, ident),
        Expr::Binary(l, _, r, _) => after_expr(w, after_expr(w, s, *l), *r),
        Expr::Unary(_, x, _) => after_expr(w, s, *x),
        Expr::Call(callee, args, _) => after_args(
            w,
            after_expr(w, s, *callee),
            args,
            views_first_argument(w, *callee),
            0,
        ),
        Expr::GenericCall(callee, _, args, _) => after_args(
            w,
            after_expr(w, s, *callee),
            args,
            views_first_argument(w, *callee),
            0,
        ),
        Expr::Paren(x, _) => after_expr(w, s, *x),
        Expr::View(x, _) => after_expr(w, s, *x),
        Expr::FieldAccess(x, _, _) => after_expr(w, s, *x),
        Expr::ListConstruct(es, _) => after_exprs(w, s, es, 0),
        Expr::MapConstruct(es, _) => after_entries(w, s, es, 0),
        Expr::Handle(target, _, body, _) => after_block(w, after_expr(w, s, *target), body, 0),
        Expr::OkOf(x, _) => after_expr(w, s, *x),
        Expr::FailOf(x, _) => after_expr(w, s, *x),
        Expr::SomeOf(x, _) => after_expr(w, s, *x),
        Expr::Default(x, _) => after_expr(w, s, *x),
        Expr::StringInterpolation(ps, _) => after_parts(w, s, ps, 0),
        Expr::Declassify(x, _) => after_expr(w, s, *x),
        Expr::Coarsen(x, _) => after_expr(w, s, *x),
        Expr::Pipeline(initial, steps, _) => after_steps(w, after_expr(w, s, *initial), steps, 0),
        Expr::At(x, _, _) => after_expr(w, s, *x),
        Expr::Spawn(x, _) => after_expr(w, s, *x),
        Expr::Send(x, _) => after_expr(w, s, *x),
        Expr::Ask(x, _) => after_expr(w, s, *x),
        Expr::Clone(x, _) => after_expr(w, s, *x),
        Expr::Run(x, _) => after_expr(w, s, *x),
        Expr::Join(x, _) => after_expr(w, s, *x),
        Expr::Cancel(x, _) => after_expr(w, s, *x),
        Expr::InlineFn(_, _, body, _) => Standing {
            vars: s.vars,
            reports: after_block(w, s, body, 0).reports,
        },
        _ => s,
    }
}

/// The statements from `i` on, up to the first that control does not pass.
pub open spec fn after_block(w: Surroundings, s: Standing, b: Block, i: nat) -> Standing
    decreases b, b.stmts@.len() - i,
{
    if i >= b.stmts@.len() {
        s
    } else {
        let next = after_stmt(w, s, b.stmts@[i as int]);
        if exits(b.stmts@[i as int]) {
            next
        } else {
            after_block(w, next, b, i + 1)
        }
    }
}

pub open spec fn after_decl(w: Surroundings, s: Standing, d: VarDecl) -> Standing
    decreases d, 0nat,
{
    bind(
        after_expr(w, s, d.value),
        d.name.name@,
        fresh_info(false, d.mutable, ownership_type(d.ty)),
    )
}

pub open spec fn after_optional(w: Surroundings, s: Standing, e: Option<Expr>) -> Standing
    decreases e, 0nat,
{
    match e {
        Some(x) => after_expr(w, s, x),
        None => s,
    }
}

/// What a chain of conditions leaves: the variables once every condition so far
/// was evaluated, and those of each branch whose end can be reached.
pub struct Branching {
    pub conditions: Vars,
    pub reached: Seq<Vars>,
    pub reports: Seq<DiagnosticV>,
}

pub open spec fn branch(w: Surroundings, b: Branching, block: Block) -> Branching
    decreases block, block.stmts@.len() + 1,
{
    let s = after_block(w, Standing { vars: b.conditions, reports: b.reports }, block, 0);
    Branching {
        conditions: b.conditions,
        reached: if block_exits(block) {
            b.reached
        } else {
            b.reached.push(s.vars)
        },
        reports: s.reports,
    }
}

pub open spec fn after_else_ifs(
    w: Surroundings,
    b: Branching,
    else_ifs: Vec<(Expr, Block)>,
    i: nat,
) -> Branching
    decreases else_ifs, else_ifs@.len() - i,
{
    if i >= else_ifs@.len() {
        b
    } else {
        let (condition, block) = else_ifs@[i as int];
        let s = after_expr(w, Standing { vars: b.conditions, reports: b.reports }, condition);
        let evaluated = Branching { conditions: s.vars, reached: b.reached, reports: s.reports };
        after_else_ifs(w, branch(w, evaluated, block), else_ifs, i + 1)
    }
}

pub open spec fn after_if(w: Surroundings, s: Standing, i: IfStmt) -> Standing
    decreases i, 0nat,
{
    let s1 = after_expr(w, s, i.condition);
    let b1 = branch(
        w,
        Branching { conditions: s1.vars, reached: Seq::empty(), reports: s1.reports },
        i.then_block,
    );
    let b2 = after_else_ifs(w, b1, i.else_ifs, 0);
    let b3 = match i.else_block {
        Some(block) => branch(w, b2, block),
        None => Branching { reached: b2.reached.push(b2.conditions), ..b2 },
    };
    Standing { vars: join(b3.conditions, b3.reached), reports: b3.reports }
}

pub open spec fn after_for(w: Surroundings, s: Standing, f: ForStmt) -> Standing
    decreases f, 0nat,
{
    let s1 = if f.view {
        after_expr(w, s, f.iterable)
    } else {
        after_consuming(w, s, f.iterable, expr_span(f.iterable))
    };
    let s2 = bind(s1, f.variable.name@, fresh_info(f.view, false, TypeInterner::ERROR));
    after_block(w, s2, f.body, 0)
}

pub open spec fn after_arms(w: Surroundings, s: Standing, m: MatchStmt, i: nat) -> Standing
    decreases m, m.arms@.len() - i,
{
    if i >= m.arms@.len() {
        s
    } else {
        after_arms(w, after_block(w, s, m.arms@[i as int].body, 0), m, i + 1)
    }
}

pub open spec fn after_stmt(w: Surroundings, s: Standing, stmt: Stmt) -> Standing
    decreases stmt, 0nat,
{
    match stmt {
        Stmt::VarDecl(d) => after_decl(w, s, d),
        Stmt::Assign(a) => {
            let s1 = after_expr(w, s, a.value);
            match a.target {
                Expr::Ident(ident) => rebind(s1, ident.name@),
                _ => after_expr(w, s1, a.target),
            }
        },
        Stmt::Return(r) => after_optional(w, s, r.value),
        Stmt::ComptimeTypeBind(b) => after_block(w, s, b.body, 0),
        Stmt::If(i) => after_if(w, s, i),
        Stmt::For(f) => after_for(w, s, f),
        Stmt::While(l) => after_block(w, after_expr(w, s, l.condition), l.body, 0),
        Stmt::Expr(e) => after_expr(w, s, e.expr),
        Stmt::Assert(a) => after_optional(w, after_expr(w, s, a.condition), a.message),
        Stmt::Trace(t) => read(s, t.name),
        Stmt::Breakpoint(b) => after_optional(w, s, b.condition),
        Stmt::Match(m) => after_arms(w, after_expr(w, s, m.expr), m, 0),
        Stmt::Respond(r) => after_expr(w, s, r.value),
        _ => s,
    }
}

pub open spec fn with_params(vars: Vars, params: Seq<Param>, i: nat) -> Vars
    decreases params.len() - i,
{
    if i >= params.len() {
        vars
    } else {
        let p = params[i as int];
        with_params(
            vars.insert(p.name.name@, fresh_info(p.view, p.mutable, ownership_type(p.ty))),
            params,
            i + 1,
        )
    }
}

/// A function starts from its parameters alone and leaves the variables
/// outside as they were.
pub open spec fn after_function(w: Surroundings, s: Standing, f: FunctionDef) -> Standing {
    let inside = Standing { vars: with_params(Map::empty(), f.params@, 0), reports: s.reports };
    Standing { vars: s.vars, reports: after_block(w, inside, f.body, 0).reports }
}

/// Only functions and variables are followed.
pub open spec fn after_item(w: Surroundings, s: Standing, item: Item) -> Standing {
    match item {
        Item::Function(f) => after_function(w, s, f),
        Item::VarDecl(d) => after_decl(w, s, d),
        _ => s,
    }
}

pub open spec fn after_items(w: Surroundings, s: Standing, items: Seq<Item>, i: nat) -> Standing
    decreases items.len() - i,
{
    if i >= items.len() {
        s
    } else {
        after_items(w, after_item(w, s, items[i as int]), items, i + 1)
    }
}

/// The reports on a list of items.
pub open spec fn items_reports(w: Surroundings, items: Seq<Item>) -> Seq<DiagnosticV> {
    after_items(w, Standing { vars: Map::empty(), reports: Seq::empty() }, items, 0).reports
}

/// The reports on a module.
pub open spec fn module_reports(w: Surroundings, m: Module) -> Seq<DiagnosticV> {
    items_reports(w, m.items@)
}

// ---------------------------------------------------------------------------
// The checker
// ---------------------------------------------------------------------------

/// Follows each variable through a module and reports a use of one whose value
/// is gone.
pub struct OwnershipChecker<'a> {
    states: Table<String, VarInfo>,
    diagnostics: Vec<Diagnostic>,
    interner: &'a TypeInterner,
    facades: &'a Vec<String>,
}

/// The view is what changes while a module is followed. `around` is the rest.
impl<'a> View for OwnershipChecker<'a> {
    type V = Standing;

    closed spec fn view(&self) -> Standing {
        Standing { vars: self.states@, reports: views(self.diagnostics@) }
    }
}

fn use_after_move(name: &String, use_span: Span, consumed_span: Span) -> (r: Diagnostic)
    ensures
        r@ == error_after(ErrorCode::UseAfterMove, use_span, seq![name@], consumed_span),
{
    Diagnostic::error_after(ErrorCode::UseAfterMove, use_span, args1(name.clone()), consumed_span)
}

fn cannot_consume_view(name: &String, span: Span) -> (r: Diagnostic)
    ensures
        r@ == error(ErrorCode::CannotConsumeView, span, seq![name@]),
{
    Diagnostic::error(ErrorCode::CannotConsumeView, span, args1(name.clone()))
}

fn stand_in(name: &str) -> (r: TypeId)
    ensures
        r == primitive_stand_in(name@),
{
    if same_text(name, "int8") {
        TypeInterner::INT8
    } else if same_text(name, "int16") {
        TypeInterner::INT16
    } else if same_text(name, "int32") {
        TypeInterner::INT32
    } else if same_text(name, "int64") || same_text(name, "TypeKind") || same_text(
        name,
        "TypePrimitive",
    ) {
        TypeInterner::INT64
    } else if same_text(name, "uint8") {
        TypeInterner::UINT8
    } else if same_text(name, "uint16") {
        TypeInterner::UINT16
    } else if same_text(name, "uint32") {
        TypeInterner::UINT32
    } else if same_text(name, "uint64") {
        TypeInterner::UINT64
    } else if same_text(name, "float32") {
        TypeInterner::FLOAT32
    } else if same_text(name, "float64") {
        TypeInterner::FLOAT64
    } else if same_text(name, "string") {
        TypeInterner::STRING
    } else if same_text(name, "bool") {
        TypeInterner::BOOL
    } else if same_text(name, "nothing") {
        TypeInterner::NOTHING
    } else if same_text(name, "TypeConstruction") {
        TypeInterner::TYPE_CONSTRUCTION
    } else {
        TypeInterner::BYTES
    }
}

fn is_map_view(n: &str) -> (r: bool)
    ensures
        r == views_map(n@),
{
    same_text(n, "map.length") || same_text(n, "map.has") || same_text(n, "map.get") || same_text(
        n,
        "map.insert",
    ) || same_text(n, "map.remove") || same_text(n, "map.keys") || same_text(n, "map.values")
        || same_text(n, "map.is_empty") || same_text(n, "map.get_or") || same_text(n, "map.merge")
        || same_text(n, "map.contains_key") || same_text(n, "map.set")
}

fn is_list_view(n: &str) -> (r: bool)
    ensures
        r == views_list(n@),
{
    same_text(n, "list.length") || same_text(n, "list.get") || same_text(n, "list.first")
        || same_text(n, "list.last") || same_text(n, "list.append") || same_text(n, "list.is_empty")
        || same_text(n, "list.skip") || same_text(n, "list.take") || same_text(n, "list.reverse")
        || same_text(n, "list.sort") || same_text(n, "list.contains") || same_text(n, "list.index_of")
        || same_text(n, "list.remove") || same_text(n, "list.concat") || same_text(n, "list.flatten")
        || same_text(n, "list.unique") || same_text(n, "list.zip") || same_text(n, "list.filter")
        || same_text(n, "list.map") || same_text(n, "list.find") || same_text(n, "list.sort_by")
        || same_text(n, "list.all") || same_text(n, "list.any") || same_text(n, "list.count")
        || same_text(n, "list.sum") || same_text(n, "list.group_by") || same_text(n, "list.chunk")
        || same_text(n, "list.sort_by_index") || same_text(n, "list.is_sorted") || same_text(
        n,
        "list.all_elements_in",
    )
}

fn is_sample_view(n: &str) -> (r: bool)
    ensures
        r == views_sample(n@),
{
    same_text(n, "random.choice") || same_text(n, "random.shuffle") || same_text(n, "math.average")
        || same_text(n, "math.median")
}

/// The name that a chain of field accesses on an identifier spells.
pub fn dotted_name_str(expr: &Expr) -> (r: Option<String>)
    ensures
        r is Some <==> dotted_name(*expr) is Some,
        r matches Some(n) ==> dotted_name(*expr) == Some(n@),
    decreases expr,
{
    match expr {
        Expr::Ident(ident) => Some(ident.name.clone()),
        Expr::FieldAccess(inner, field, _) => {
            match dotted_name_str(inner) {
                Some(prefix) => Some(join3(prefix.as_str(), ".", field.name.as_str())),
                None => None,
            }
        },
        _ => None,
    }
}

/// The information on one variable after the branches meet.
fn join_info(before: &VarInfo, branches: &Vec<Table<String, VarInfo>>, name: &String) -> (r: VarInfo)
    requires
        branches@.len() > 0,
    ensures
        r == joined_info(*before, views(branches@), name@),
{
    let ghost maps = views(branches@);
    let mut picked: Option<VarInfo> = None;
    let mut first: VarInfo = *before;
    let mut last: VarInfo = *before;
    let mut i: usize = 0;
    while i < branches.len()
        invariant
            i <= branches@.len(),
            maps == views(branches@),
            branches@.len() > 0,
            forall|j: int| 0 <= j < i ==> (#[trigger] maps[j]).contains_key(name@),
            i > 0 ==> first == maps[0][name@] && last == maps[i - 1][name@],
            picked is None ==> first_consuming(maps, name@, 0) == first_consuming(
                maps,
                name@,
                i as nat,
            ),
            picked matches Some(p) ==> first_consuming(maps, name@, 0) < maps.len() && p
                == maps[first_consuming(maps, name@, 0) as int][name@],
        decreases branches@.len() - i,
    {
        match branches[i].get(name) {
            None => {
                assert(!maps[i as int].contains_key(name@));
                return *before;
            },
            Some(info) => {
                assert(maps[i as int] == branches@[i as int]@);
                if picked.is_none() && info.state == OwnershipState::Consumed {
                    picked = Some(*info);
                }
                if i == 0 {
                    first = *info;
                }
                last = *info;
            },
        }
        i = i + 1;
    }
    let from = match picked {
        Some(info) => info,
        None => last,
    };
    VarInfo { state: from.state, consumed_span: from.consumed_span, ..first }
}

/// The variables after the branches meet.
fn merge_fallthrough_states(
    baseline: &Table<String, VarInfo>,
    branches: &Vec<Table<String, VarInfo>>,
) -> (r: Table<String, VarInfo>)
    ensures
        r@ == join(baseline@, views(branches@)),
{
    let ghost maps = views(branches@);
    let mut merged = baseline.dup();
    if branches.len() == 0 {
        return merged;
    }
    let names = baseline.keys();
    let ghost keys = views(names@);
    let mut i: usize = 0;
    while i < names.len()
        invariant
            i <= names@.len(),
            maps == views(branches@),
            branches@.len() > 0,
            keys == views(names@),
            keys.no_duplicates(),
            forall|k: Seq<char>| #[trigger] baseline@.contains_key(k) <==> keys.contains(k),
            forall|k: Seq<char>| #[trigger] merged@.contains_key(k) <==> baseline@.contains_key(k),
            forall|j: int|
                0 <= j < i ==> merged@[#[trigger] keys[j]] == joined_info(
                    baseline@[keys[j]],
                    maps,
                    keys[j],
                ),
        decreases names@.len() - i,
    {
        let name = &names[i];
        assert(keys[i as int] == name@);
        assert(keys.contains(name@));
        match baseline.get(name) {
            Some(info) => {
                let joined = join_info(info, branches, name);
                merged.insert(name.clone(), joined);
            },
            None => {},
        }
        i = i + 1;
    }
    proof {
        assert forall|k: Seq<char>| #[trigger] merged@.contains_key(k) implies merged@[k]
            == join(baseline@, maps)[k] by {
            assert(keys.contains(k));
            let j = choose|j: int| 0 <= j < keys.len() && keys[j] == k;
            assert(merged@[keys[j]] == joined_info(baseline@[keys[j]], maps, keys[j]));
        }
        assert(merged@ =~= join(baseline@, maps));
    }
    merged
}

pub fn block_can_fall_through(block: &Block) -> (r: bool)
    ensures
        r == !block_exits(*block),
    decreases block,
{
    let mut i: usize = 0;
    while i < block.stmts.len()
        invariant
            i <= block.stmts@.len(),
            forall|j: int| 0 <= j < i ==> !exits(#[trigger] block.stmts@[j]),
        decreases block.stmts@.len() - i,
    {
        if stmt_definitely_exits(&block.stmts[i]) {
            return false;
        }
        i = i + 1;
    }
    true
}

fn all_exit(else_ifs: &Vec<(Expr, Block)>) -> (r: bool)
    ensures
        r == (forall|j: int|
            0 <= j < else_ifs@.len() ==> block_exits((#[trigger] else_ifs@[j]).1)),
    decreases else_ifs,
{
    let mut i: usize = 0;
    while i < else_ifs.len()
        invariant
            i <= else_ifs@.len(),
            forall|j: int| 0 <= j < i ==> block_exits((#[trigger] else_ifs@[j]).1),
        decreases else_ifs@.len() - i,
    {
        if block_can_fall_through(&else_ifs[i].1) {
            assert(!block_exits(else_ifs@[i as int].1));
            return false;
        }
        i = i + 1;
    }
    true
}

/// Whether control never goes past the statement.
pub fn stmt_definitely_exits(stmt: &Stmt) -> (r: bool)
    ensures
        r == exits(*stmt),
    decreases stmt,
{
    match stmt {
        Stmt::Return(_) | Stmt::Respond(_) => true,
        Stmt::If(if_stmt) => {
            match &if_stmt.else_block {
                None => false,
                Some(else_block) => {
                    if block_can_fall_through(&if_stmt.then_block) {
                        return false;
                    }
                    if !all_exit(&if_stmt.else_ifs) {
                        return false;
                    }
                    !block_can_fall_through(else_block)
                },
            }
        },
        _ => false,
    }
}

impl<'a> OwnershipChecker<'a> {
    /// What is looked up and never changes.
    pub closed spec fn around(&self) -> Surroundings {
        Surroundings { types: self.interner@, facades: views(self.facades@) }
    }

    /// A checker that has seen nothing yet. `facades` are the calls beside the
    /// collection builtins that view their first argument.
    pub fn new(interner: &'a TypeInterner, facades: &'a Vec<String>) -> (r: Self)
        ensures
            r@ == (Standing { vars: Map::empty(), reports: Seq::empty() }),
            r.around() == (Surroundings { types: interner@, facades: views(facades@) }),
            sound(interner@),
    {
        proof {
            use_type_invariant(interner);
        }
        let r = OwnershipChecker { states: Table::new(), diagnostics: Vec::new(), interner, facades };
        assert(r@.reports =~= Seq::<DiagnosticV>::empty());
        r
    }

    /// Follows the module to its end and gives the reports.
    pub fn check_module(self, module: &Module) -> (r: Vec<Diagnostic>)
        ensures
            views(r@) == after_items(self.around(), self@, module.items@, 0).reports,
    {
        let mut checker = self;
        let mut i: usize = 0;
        while i < module.items.len()
            invariant
                i <= module.items@.len(),
                checker.around() == self.around(),
                after_items(self.around(), checker@, module.items@, i as nat) == after_items(
                    self.around(),
                    self@,
                    module.items@,
                    0,
                ),
            decreases module.items@.len() - i,
        {
            match &module.items[i] {
                Item::Function(func) => checker.check_function(func),
                Item::VarDecl(decl) => checker.check_var_decl(decl),
                _ => {},
            }
            i = i + 1;
        }
        checker.diagnostics
    }

    fn emit(&mut self, d: Diagnostic)
        ensures
            final(self).around() == old(self).around(),
            final(self)@ == report(old(self)@, d@),
    {
        self.diagnostics.push(d);
        assert(self@.reports =~= old(self)@.reports.push(d@));
    }

    fn is_copyable(&self, type_id: TypeId) -> (r: bool)
        ensures
            r == copyable(ty(self.around().types, type_id)),
    {
        match self.interner.resolve(type_id) {
            Type::Int8 | Type::Int16 | Type::Int32 | Type::Int64 => true,
            Type::Uint8 | Type::Uint16 | Type::Uint32 | Type::Uint64 => true,
            Type::Float32 | Type::Float64 => true,
            Type::String | Type::Bool | Type::Nothing | Type::Error => true,
            _ => false,
        }
    }

    fn set(&mut self, name: &String, info: VarInfo)
        ensures
            final(self).around() == old(self).around(),
            final(self)@ == bind(old(self)@, name@, info),
    {
        self.states.insert(name.clone(), info);
    }

    fn lookup(&self, name: &String) -> (r: Option<VarInfo>)
        ensures
            r is Some <==> self@.vars.contains_key(name@),
            r matches Some(info) ==> info == self@.vars[name@],
    {
        match self.states.get(name) {
            Some(info) => Some(*info),
            None => None,
        }
    }

    fn check_function(&mut self, func: &FunctionDef)
        ensures
            final(self).around() == old(self).around(),
            final(self)@ == after_function(old(self).around(), old(self)@, *func),
    {
        let mut saved: Table<String, VarInfo> = Table::new();
        core::mem::swap(&mut self.states, &mut saved);
        let mut i: usize = 0;
        while i < func.params.len()
            invariant
                i <= func.params@.len(),
                self.around() == old(self).around(),
                self@.reports == old(self)@.reports,
                saved@ == old(self)@.vars,
                with_params(self@.vars, func.params@, i as nat) == with_params(
                    Map::empty(),
                    func.params@,
                    0,
                ),
            decreases func.params@.len() - i,
        {
            let param = &func.params[i];
            let type_id = Self::resolve_type_for_ownership(&param.ty);
            let state = if param.view {
                OwnershipState::Viewed
            } else {
                OwnershipState::Owned
            };
            self.set(
                &param.name.name,
                VarInfo { state, mutable: param.mutable, type_id, consumed_span: None },
            );
            i = i + 1;
        }
        self.check_block(&func.body);
        self.states = saved;
    }

    /// Follows a block up to the first statement that control does not pass. What
    /// stands behind it makes no difference.
    pub fn check_block(&mut self, block: &Block)
        ensures
            final(self).around() == old(self).around(),
            final(self)@ == after_block(old(self).around(), old(self)@, *block, 0),
            forall|short: Block| #[trigger]
                cut_at_exit(*block, short) ==> final(self)@ == after_block(
                    old(self).around(),
                    old(self)@,
                    short,
                    0,
                ),
        decreases block, block.stmts@.len() + 1,
    {
        let mut i: usize = 0;
        while i < block.stmts.len()
            invariant
                i <= block.stmts@.len(),
                self.around() == old(self).around(),
                after_block(self.around(), self@, *block, i as nat) == after_block(
                    old(self).around(),
                    old(self)@,
                    *block,
                    0,
                ),
            decreases block.stmts@.len() - i,
        {
            self.check_stmt(&block.stmts[i]);
            if stmt_definitely_exits(&block.stmts[i]) {
                proof {
                    cut_makes_no_difference(old(self).around(), old(self)@, *block);
                }
                return;
            }
            i = i + 1;
        }
        proof {
            cut_makes_no_difference(old(self).around(), old(self)@, *block);
        }
    }

    fn check_stmt(&mut self, stmt: &Stmt)
        ensures
            final(self).around() == old(self).around(),
            final(self)@ == after_stmt(old(self).around(), old(self)@, *stmt),
        decreases stmt, 0nat,
    {
        match stmt {
            Stmt::VarDecl(decl) => self.check_var_decl(decl),
            Stmt::Assign(assign) => {
                self.check_expr_ownership(&assign.value);
                match &assign.target {
                    Expr::Ident(ident) => self.rebind_variable(&ident.name),
                    _ => self.check_expr_ownership(&assign.target),
                }
            },
            Stmt::Return(ret) => self.check_optional(&ret.value),
            Stmt::ComptimeTypeBind(bind) => self.check_block(&bind.body),
            Stmt::If(if_stmt) => self.check_if(if_stmt),
            Stmt::For(for_stmt) => self.check_for(for_stmt),
            Stmt::While(while_stmt) => {
                self.check_expr_ownership(&while_stmt.condition);
                self.check_block(&while_stmt.body);
            },
            Stmt::Expr(expr_stmt) => self.check_expr_ownership(&expr_stmt.expr),
            Stmt::Assert(assert_stmt) => {
                self.check_expr_ownership(&assert_stmt.condition);
                self.check_optional(&assert_stmt.message);
            },
            Stmt::Trace(trace_stmt) => self.read_variable(&trace_stmt.name),
            Stmt::Breakpoint(breakpoint_stmt) => self.check_optional(&breakpoint_stmt.condition),
            Stmt::Match(match_stmt) => self.check_match(match_stmt),
            Stmt::Respond(resp) => self.check_expr_ownership(&resp.value),
            Stmt::Use(_) | Stmt::Break(_) | Stmt::Continue(_) => {},
        }
    }

    fn check_optional(&mut self, value: &Option<Expr>)
        ensures
            final(self).around() == old(self).around(),
            final(self)@ == after_optional(old(self).around(), old(self)@, *value),
        decreases value, 0nat,
    {
        match value {
            Some(expr) => self.check_expr_ownership(expr),
            None => {},
        }
    }

    fn rebind_variable(&mut self, name: &String)
        ensures
            final(self).around() == old(self).around(),
            final(self)@ == rebind(old(self)@, name@),
    {
        match self.lookup(name) {
            Some(info) => {
                if info.mutable {
                    self.set(
                        name,
                        VarInfo { state: OwnershipState::Owned, consumed_span: None, ..info },
                    );
                }
            },
            None => {},
        }
    }

    fn check_var_decl(&mut self, decl: &VarDecl)
        ensures
            final(self).around() == old(self).around(),
            final(self)@ == after_decl(old(self).around(), old(self)@, *decl),
        decreases decl, 0nat,
    {
        self.check_expr_ownership(&decl.value);
        let type_id = Self::resolve_type_for_ownership(&decl.ty);
        self.set(
            &decl.name.name,
            VarInfo {
                state: OwnershipState::Owned,
                mutable: decl.mutable,
                type_id,
                consumed_span: None,
            },
        );
    }

    fn check_if(&mut self, if_stmt: &IfStmt)
        ensures
            final(self).around() == old(self).around(),
            final(self)@ == after_if(old(self).around(), old(self)@, *if_stmt),
        decreases if_stmt, 0nat,
    {
        let ghost w = self.around();
        self.check_expr_ownership(&if_stmt.condition);
        let mut condition_state = self.states.dup();
        let mut reached: Vec<Table<String, VarInfo>> = Vec::new();
        let ghost b0 = Branching {
            conditions: self@.vars,
            reached: Seq::empty(),
            reports: self@.reports,
        };
        assert(views(reached@) =~= Seq::<Vars>::empty());
        self.check_branch(&condition_state, &mut reached, &if_stmt.then_block);
        let ghost b1 = branch(w, b0, if_stmt.then_block);
        let mut i: usize = 0;
        while i < if_stmt.else_ifs.len()
            invariant
                i <= if_stmt.else_ifs@.len(),
                w == old(self).around(),
                self.around() == w,
                after_else_ifs(
                    w,
                    Branching {
                        conditions: condition_state@,
                        reached: views(reached@),
                        reports: self@.reports,
                    },
                    if_stmt.else_ifs,
                    i as nat,
                ) == after_else_ifs(w, b1, if_stmt.else_ifs, 0),
            decreases if_stmt.else_ifs@.len() - i,
        {
            let pair = &if_stmt.else_ifs[i];
            self.states = condition_state.dup();
            self.check_expr_ownership(&pair.0);
            condition_state = self.states.dup();
            self.check_branch(&condition_state, &mut reached, &pair.1);
            i = i + 1;
        }
        match &if_stmt.else_block {
            Some(else_block) => self.check_branch(&condition_state, &mut reached, else_block),
            None => {
                let ghost before = views(reached@);
                reached.push(condition_state.dup());
                assert(views(reached@) =~= before.push(condition_state@));
            },
        }
        self.states = merge_fallthrough_states(&condition_state, &reached);
    }

    /// Checks a block from the variables given, and keeps how it leaves them
    /// where its end can be reached.
    fn check_branch(
        &mut self,
        state: &Table<String, VarInfo>,
        reached: &mut Vec<Table<String, VarInfo>>,
        block: &Block,
    )
        ensures
            final(self).around() == old(self).around(),
            ({
                let b = branch(
                    old(self).around(),
                    Branching {
                        conditions: state@,
                        reached: views(old(reached)@),
                        reports: old(self)@.reports,
                    },
                    *block,
                );
                views(final(reached)@) == b.reached && final(self)@.reports == b.reports
            }),
        decreases block, block.stmts@.len() + 2,
    {
        self.states = state.dup();
        self.check_block(block);
        if block_can_fall_through(block) {
            reached.push(self.states.dup());
            assert(views(reached@) =~= views(old(reached)@).push(self@.vars));
        }
    }

    fn check_for(&mut self, for_stmt: &ForStmt)
        ensures
            final(self).around() == old(self).around(),
            final(self)@ == after_for(old(self).around(), old(self)@, *for_stmt),
        decreases for_stmt, 0nat,
    {
        if for_stmt.view {
            self.check_expr_ownership(&for_stmt.iterable);
        } else {
            self.consume_expr(&for_stmt.iterable, for_stmt.iterable.span());
        }
        let state = if for_stmt.view {
            OwnershipState::Viewed
        } else {
            OwnershipState::Owned
        };
        self.set(
            &for_stmt.variable.name,
            VarInfo { state, mutable: false, type_id: TypeInterner::ERROR, consumed_span: None },
        );
        self.check_block(&for_stmt.body);
    }

    fn check_match(&mut self, match_stmt: &MatchStmt)
        ensures
            final(self).around() == old(self).around(),
            final(self)@ == after_arms(
                old(self).around(),
                after_expr(old(self).around(), old(self)@, match_stmt.expr),
                *match_stmt,
                0,
            ),
        decreases match_stmt, match_stmt.arms@.len() + 1,
    {
        self.check_expr_ownership(&match_stmt.expr);
        let ghost s1 = self@;
        let mut i: usize = 0;
        while i < match_stmt.arms.len()
            invariant
                i <= match_stmt.arms@.len(),
                self.around() == old(self).around(),
                after_arms(self.around(), self@, *match_stmt, i as nat) == after_arms(
                    old(self).around(),
                    s1,
                    *match_stmt,
                    0,
                ),
            decreases match_stmt.arms@.len() - i,
        {
            self.check_block(&match_stmt.arms[i].body);
            i = i + 1;
        }
    }

    fn read_variable(&mut self, ident: &Ident)
        ensures
            final(self).around() == old(self).around(),
            final(self)@ == read(old(self)@, *ident),
    {
        match self.lookup(&ident.name) {
            Some(info) => {
                if info.state == OwnershipState::Consumed {
                    match info.consumed_span {
                        Some(consumed_span) => {
                            self.emit(use_after_move(&ident.name, ident.span, consumed_span));
                        },
                        None => {},
                    }
                }
            },
            None => {},
        }
    }

    /// Checks the uses of variables in an expression. Reading consumes nothing;
    /// only what is passed on in a call is consumed.
    pub fn check_expr_ownership(&mut self, expr: &Expr)
        ensures
            final(self).around() == old(self).around(),
            final(self)@ == after_expr(old(self).around(), old(self)@, *expr),
        decreases expr, 0nat,
    {
        match expr {
            Expr::Ident(ident) => self.read_variable(ident),
            Expr::Binary(lhs, _, rhs, _) => {
                self.check_expr_ownership(lhs);
                self.check_expr_ownership(rhs);
            },
            Expr::Unary(_, operand, _) => self.check_expr_ownership(operand),
            Expr::Call(callee, args, _) => {
                self.check_expr_ownership(callee);
                let view_first = self.first_arg_is_view(callee);
                self.check_args(args, view_first);
            },
            Expr::GenericCall(callee, _, args, _) => {
                self.check_expr_ownership(callee);
                let view_first = self.first_arg_is_view(callee);
                self.check_args(args, view_first);
            },
            Expr::Paren(inner, _) => self.check_expr_ownership(inner),
            Expr::View(inner, _) => self.check_expr_ownership(inner),
            Expr::FieldAccess(base, _, _) => self.check_expr_ownership(base),
            Expr::ListConstruct(elems, _) => self.check_exprs(elems),
            Expr::MapConstruct(entries, _) => self.check_entries(entries),
            Expr::Handle(target, _, body, _) => {
                self.check_expr_ownership(target);
                self.check_block(body);
            },
            Expr::OkOf(inner, _) | Expr::FailOf(inner, _) | Expr::SomeOf(inner, _) => {
                self.check_expr_ownership(inner);
            },
            Expr::Default(inner, _) => self.check_expr_ownership(inner),
            Expr::StringInterpolation(parts, _) => self.check_parts(parts),
            Expr::Declassify(inner, _) => self.check_expr_ownership(inner),
            Expr::Coarsen(inner, _) => self.check_expr_ownership(inner),
            Expr::Pipeline(initial, steps, _) => {
                self.check_expr_ownership(initial);
                self.check_steps(steps);
            },
            Expr::At(inner, _, _) => self.check_expr_ownership(inner),
            Expr::Spawn(inner, _) | Expr::Send(inner, _) | Expr::Ask(inner, _)
            | Expr::Clone(inner, _) | Expr::Run(inner, _) | Expr::Join(inner, _)
            | Expr::Cancel(inner, _) => self.check_expr_ownership(inner),
            Expr::InlineFn(_, _, body, _) => {
                let outer = self.states.dup();
                self.check_block(body);
                self.states = outer;
            },
            Expr::IntLiteral(_, _) | Expr::FloatLiteral(_, _) | Expr::StringLiteral(_, _)
            | Expr::BoolLiteral(_, _) | Expr::Nothing(_) | Expr::NoneOf(_)
            | Expr::EnumVariant(_, _, _) | Expr::Error(_) => {},
        }
    }

    fn check_exprs(&mut self, elems: &Vec<Expr>)
        ensures
            final(self).around() == old(self).around(),
            final(self)@ == after_exprs(old(self).around(), old(self)@, *elems, 0),
        decreases elems, elems@.len() + 1,
    {
        let mut i: usize = 0;
        while i < elems.len()
            invariant
                i <= elems@.len(),
                self.around() == old(self).around(),
                after_exprs(self.around(), self@, *elems, i as nat) == after_exprs(
                    old(self).around(),
                    old(self)@,
                    *elems,
                    0,
                ),
            decreases elems@.len() - i,
        {
            self.check_expr_ownership(&elems[i]);
            i = i + 1;
        }
    }

    fn check_entries(&mut self, entries: &Vec<(Expr, Expr)>)
        ensures
            final(self).around() == old(self).around(),
            final(self)@ == after_entries(old(self).around(), old(self)@, *entries, 0),
        decreases entries, entries@.len() + 1,
    {
        let mut i: usize = 0;
        while i < entries.len()
            invariant
                i <= entries@.len(),
                self.around() == old(self).around(),
                after_entries(self.around(), self@, *entries, i as nat) == after_entries(
                    old(self).around(),
                    old(self)@,
                    *entries,
                    0,
                ),
            decreases entries@.len() - i,
        {
            let entry = &entries[i];
            self.check_expr_ownership(&entry.0);
            self.check_expr_ownership(&entry.1);
            i = i + 1;
        }
    }

    fn check_parts(&mut self, parts: &Vec<StringPart>)
        ensures
            final(self).around() == old(self).around(),
            final(self)@ == after_parts(old(self).around(), old(self)@, *parts, 0),
        decreases parts, parts@.len() + 1,
    {
        let mut i: usize = 0;
        while i < parts.len()
            invariant
                i <= parts@.len(),
                self.around() == old(self).around(),
                after_parts(self.around(), self@, *parts, i as nat) == after_parts(
                    old(self).around(),
                    old(self)@,
                    *parts,
                    0,
                ),
            decreases parts@.len() - i,
        {
            match &parts[i] {
                StringPart::Expr(inner) => self.check_expr_ownership(inner),
                StringPart::Literal(_) => {},
            }
            i = i + 1;
        }
    }

    fn check_steps(&mut self, steps: &Vec<PipelineStep>)
        ensures
            final(self).around() == old(self).around(),
            final(self)@ == after_steps(old(self).around(), old(self)@, *steps, 0),
        decreases steps, steps@.len() + 1,
    {
        let mut i: usize = 0;
        while i < steps.len()
            invariant
                i <= steps@.len(),
                self.around() == old(self).around(),
                after_steps(self.around(), self@, *steps, i as nat) == after_steps(
                    old(self).around(),
                    old(self)@,
                    *steps,
                    0,
                ),
            decreases steps@.len() - i,
        {
            let step = &steps[i];
            self.check_expr_ownership(&step.function);
            self.check_read_args(&step.extra_args);
            i = i + 1;
        }
    }

    fn check_read_args(&mut self, args: &Vec<CallArg>)
        ensures
            final(self).around() == old(self).around(),
            final(self)@ == after_read_args(old(self).around(), old(self)@, *args, 0),
        decreases args, args@.len() + 1,
    {
        let mut i: usize = 0;
        while i < args.len()
            invariant
                i <= args@.len(),
                self.around() == old(self).around(),
                after_read_args(self.around(), self@, *args, i as nat) == after_read_args(
                    old(self).around(),
                    old(self)@,
                    *args,
                    0,
                ),
            decreases args@.len() - i,
        {
            self.check_expr_ownership(&args[i].value);
            i = i + 1;
        }
    }

    fn first_arg_is_view(&self, callee: &Expr) -> (r: bool)
        ensures
            r == views_first_argument(self.around(), *callee),
    {
        match dotted_name_str(callee) {
            Some(name) => {
                is_map_view(name.as_str()) || is_list_view(name.as_str()) || is_sample_view(
                    name.as_str(),
                ) || contains_text(self.facades, &name)
            },
            None => false,
        }
    }

    /// The arguments of a call: one passed with `view`, or viewed by the builtin,
    /// keeps its value; any other passes it on.
    fn check_args(&mut self, args: &Vec<CallArg>, view_first: bool)
        ensures
            final(self).around() == old(self).around(),
            final(self)@ == after_args(old(self).around(), old(self)@, *args, view_first, 0),
        decreases args, args@.len() + 1,
    {
        let mut i: usize = 0;
        while i < args.len()
            invariant
                i <= args@.len(),
                self.around() == old(self).around(),
                after_args(self.around(), self@, *args, view_first, i as nat) == after_args(
                    old(self).around(),
                    old(self)@,
                    *args,
                    view_first,
                    0,
                ),
            decreases args@.len() - i,
        {
            let arg = &args[i];
            match &arg.value {
                Expr::View(inner, _) => self.check_expr_ownership(inner),
                _ => {
                    if view_first && i == 0 {
                        self.check_expr_ownership(&arg.value);
                    } else {
                        self.consume_expr(&arg.value, arg.span);
                    }
                },
            }
            i = i + 1;
        }
    }

    fn consume_expr(&mut self, expr: &Expr, span: Span)
        ensures
            final(self).around() == old(self).around(),
            final(self)@ == after_consuming(old(self).around(), old(self)@, *expr, span),
        decreases expr, 1nat,
    {
        match expr {
            Expr::Ident(ident) => self.consume_variable(&ident.name, ident.span, span),
            Expr::View(inner, _) => self.check_expr_ownership(inner),
            _ => self.check_expr_ownership(expr),
        }
    }

    fn consume_variable(&mut self, name: &String, name_span: Span, consume_span: Span)
        ensures
            final(self).around() == old(self).around(),
            final(self)@ == consume_name(
                old(self).around(),
                old(self)@,
                name@,
                name_span,
                consume_span,
            ),
    {
        match self.lookup(name) {
            Some(info) => {
                if self.is_copyable(info.type_id) {
                    return;
                }
                match info.state {
                    OwnershipState::Consumed => {
                        match info.consumed_span {
                            Some(prev_span) => {
                                self.emit(use_after_move(name, name_span, prev_span));
                            },
                            None => {},
                        }
                    },
                    OwnershipState::Viewed => {
                        self.emit(cannot_consume_view(name, name_span));
                    },
                    OwnershipState::Owned => {
                        self.set(
                            name,
                            VarInfo {
                                state: OwnershipState::Consumed,
                                consumed_span: Some(consume_span),
                                ..info
                            },
                        );
                    },
                    OwnershipState::Pending | OwnershipState::Uninitialized => {},
                }
            },
            None => {},
        }
    }

    fn resolve_type_for_ownership(type_expr: &TypeExpr) -> (r: TypeId)
        ensures
            r == ownership_type(*type_expr),
        decreases type_expr,
    {
        match type_expr {
            TypeExpr::Named(ident) => stand_in(ident.name.as_str()),
            TypeExpr::View(inner, _) => Self::resolve_type_for_ownership(inner),
            _ => TypeInterner::BYTES,
        }
    }
}

/// The ownership reports on a module.
pub fn check_ownership(module: &Module, interner: &TypeInterner, facades: &Vec<String>) -> (r: Vec<
    Diagnostic,
>)
    ensures
        views(r@) == module_reports(
            Surroundings { types: interner@, facades: views(facades@) },
            *module,
        ),
{
    let checker = OwnershipChecker::new(interner, facades);
    checker.check_module(module)
}

} // verus!
