//! The checker on modules that are built by hand.
use jett_typecheck::ast::{
    AssignStmt, BinOp, Block, CallArg, Expr, ExprStmt, ForStmt, FunctionDef, Ident, IfStmt, Item, Module, Param,
    ReturnStmt, Stmt, StructDef, TypeExpr, UnaryOp, VarDecl, VerifyBlock,
};
use jett_typecheck::check_module::check;
use jett_typecheck::diagnostics::Severity;
use jett_typecheck::resolution::{DefId, DefKind, ResolveResult, ScopeTable};
use jett_typecheck::span::{FileId, Span};
use jett_typecheck::state::TypeChecker;
use jett_typecheck::table::Table;
use jett_typecheck::types::{Type, TypeInterner};

/// Helper to create a span for tests.
fn sp(start: u32, end: u32) -> Span {
    Span::new(FileId::new(0), start, end)
}

/// Helper: build a resolve result manually for testing.
struct TestEnv {
    scope_table: ScopeTable,
    resolutions: Table<Span, DefId>,
}

impl TestEnv {
    fn new() -> Self {
        Self {
            scope_table: ScopeTable::new(),
            resolutions: Table::new(),
        }
    }

    fn def_var(&mut self, name: &str, span: Span) -> DefId {
        let def_id = self
            .scope_table
            .new_def(name.to_string(), DefKind::Variable, span);
        self.resolutions.insert(span, def_id);
        def_id
    }

    fn def_param(&mut self, name: &str, span: Span) -> DefId {
        let def_id = self
            .scope_table
            .new_def(name.to_string(), DefKind::Param, span);
        self.resolutions.insert(span, def_id);
        def_id
    }

    fn def_func(&mut self, name: &str, span: Span) -> DefId {
        let def_id = self
            .scope_table
            .new_def(name.to_string(), DefKind::Function, span);
        self.resolutions.insert(span, def_id);
        def_id
    }

    /// Also map an identifier reference span to a DefId.
    fn reference(&mut self, span: Span, def_id: DefId) {
        self.resolutions.insert(span, def_id);
    }

    fn into_resolve_result(self) -> ResolveResult {
        ResolveResult {
            scope_table: self.scope_table,
            resolutions: self.resolutions,
            namespace_aliases: Table::new(),
            capabilities: vec!["Stdout".to_string()],
            view_facades: vec![],
            complexity: vec![],
        }
    }
}

fn ident(name: &str, span: Span) -> Ident {
    Ident {
        name: name.to_string(),
        span,
    }
}

// simple function with parameters and return type

#[test]
fn simple_function_params_and_return() {
    // function add(a: int64, b: int64) returns int64:
    //     return a + b
    let fn_name_span = sp(0, 3);
    let param_a_span = sp(4, 5);
    let param_b_span = sp(6, 7);
    let ref_a_span = sp(10, 11);
    let ref_b_span = sp(12, 13);
    let binop_span = sp(10, 13);
    let ret_span = sp(8, 13);
    let body_span = sp(8, 14);
    let func_span = sp(0, 14);

    let mut env = TestEnv::new();
    let fn_def_id = env.def_func("add", fn_name_span);
    let a_def_id = env.def_param("a", param_a_span);
    let b_def_id = env.def_param("b", param_b_span);
    env.reference(ref_a_span, a_def_id);
    env.reference(ref_b_span, b_def_id);
    // Also reference fn name for self-registration
    env.reference(fn_name_span, fn_def_id);

    let module = Module {
        items: vec![Item::Function(FunctionDef {
            name: ident("add", fn_name_span),
            type_params: vec![],
            params: vec![
                Param {
                    view: false,
                    mutable: false,
                    name: ident("a", param_a_span),
                    ty: TypeExpr::Named(ident("int64", sp(100, 105))),
                    span: param_a_span,
                },
                Param {
                    view: false,
                    mutable: false,
                    name: ident("b", param_b_span),
                    ty: TypeExpr::Named(ident("int64", sp(106, 111))),
                    span: param_b_span,
                },
            ],
            return_type: Some(TypeExpr::Named(ident("int64", sp(112, 117)))),
            body: Block {
                stmts: vec![Stmt::Return(ReturnStmt {
                    value: Some(Expr::Binary(
                        Box::new(Expr::Ident(ident("a", ref_a_span))),
                        BinOp::Add,
                        Box::new(Expr::Ident(ident("b", ref_b_span))),
                        binop_span,
                    )),
                    span: ret_span,
                })],
                span: body_span,
            },
            exported: false,
            span: func_span,
        })],
        span: sp(0, 14),
    };

    let resolve = env.into_resolve_result();
    let result = check(&module, &resolve);

    // No errors expected.
    let errors: Vec<_> = result
        .diagnostics
        .iter()
        .filter(|d| d.severity == Severity::Error)
        .collect();
    assert!(errors.is_empty(), "unexpected errors: {:?}", errors);

    // The binary expression should be typed as int64.
    assert_eq!(*result.type_map.get(&binop_span).unwrap(), TypeInterner::INT64);
}

// type mismatch error (int64 + string)

#[test]
fn type_mismatch_int_plus_string() {
    // a: int64, b: string  →  a + b  should emit an error
    let fn_name_span = sp(0, 3);
    let param_a_span = sp(4, 5);
    let param_b_span = sp(6, 7);
    let ref_a_span = sp(10, 11);
    let ref_b_span = sp(12, 13);
    let binop_span = sp(10, 13);
    let body_span = sp(8, 14);
    let func_span = sp(0, 14);

    let mut env = TestEnv::new();
    let fn_def_id = env.def_func("bad", fn_name_span);
    let a_def_id = env.def_param("a", param_a_span);
    let b_def_id = env.def_param("b", param_b_span);
    env.reference(ref_a_span, a_def_id);
    env.reference(ref_b_span, b_def_id);
    env.reference(fn_name_span, fn_def_id);

    let module = Module {
        items: vec![Item::Function(FunctionDef {
            name: ident("bad", fn_name_span),
            type_params: vec![],
            params: vec![
                Param {
                    view: false,
                    mutable: false,
                    name: ident("a", param_a_span),
                    ty: TypeExpr::Named(ident("int64", sp(100, 105))),
                    span: param_a_span,
                },
                Param {
                    view: false,
                    mutable: false,
                    name: ident("b", param_b_span),
                    ty: TypeExpr::Named(ident("string", sp(106, 112))),
                    span: param_b_span,
                },
            ],
            return_type: Some(TypeExpr::Named(ident("nothing", sp(113, 120)))),
            body: Block {
                stmts: vec![Stmt::Expr(ExprStmt {
                    expr: Expr::Binary(
                        Box::new(Expr::Ident(ident("a", ref_a_span))),
                        BinOp::Add,
                        Box::new(Expr::Ident(ident("b", ref_b_span))),
                        binop_span,
                    ),
                    span: binop_span,
                })],
                span: body_span,
            },
            exported: false,
            span: func_span,
        })],
        span: sp(0, 14),
    };

    let resolve = env.into_resolve_result();
    let result = check(&module, &resolve);

    let errors: Vec<_> = result
        .diagnostics
        .iter()
        .filter(|d| d.severity == Severity::Error)
        .collect();
    assert_eq!(errors.len(), 1, "expected 1 error, got: {:?}", errors);
    assert_eq!(errors[0].code.code(), Some(301)); // binary_op_mismatch
    assert!(errors[0].message().contains("int64"));
    assert!(errors[0].message().contains("string"));
}

// binary operator type checking (arithmetic, comparison, logic)

#[test]
fn binary_operators_arithmetic_returns_same_type() {
    // 10 + 20 → int64
    let binop_span = sp(0, 5);

    let env = TestEnv::new();
    let module = Module {
        items: vec![Item::Function(FunctionDef {
            name: ident("test", sp(50, 54)),
            type_params: vec![],
            params: vec![],
            return_type: Some(TypeExpr::Named(ident("nothing", sp(55, 62)))),
            body: Block {
                stmts: vec![Stmt::Expr(ExprStmt {
                    expr: Expr::Binary(
                        Box::new(Expr::IntLiteral(10, sp(0, 2))),
                        BinOp::Add,
                        Box::new(Expr::IntLiteral(20, sp(3, 5))),
                        binop_span,
                    ),
                    span: binop_span,
                })],
                span: sp(0, 5),
            },
            exported: false,
            span: sp(50, 62),
        })],
        span: sp(0, 62),
    };

    let resolve = env.into_resolve_result();
    let result = check(&module, &resolve);

    assert!(
        result
            .diagnostics
            .iter()
            .all(|d| d.severity != Severity::Error),
        "unexpected errors: {:?}",
        result.diagnostics
    );
    assert_eq!(*result.type_map.get(&binop_span).unwrap(), TypeInterner::INT64);
}

#[test]
fn binary_operators_comparison_returns_bool() {
    // 10 < 20 → bool
    let binop_span = sp(0, 5);

    let env = TestEnv::new();
    let module = Module {
        items: vec![Item::Function(FunctionDef {
            name: ident("test", sp(50, 54)),
            type_params: vec![],
            params: vec![],
            return_type: Some(TypeExpr::Named(ident("nothing", sp(55, 62)))),
            body: Block {
                stmts: vec![Stmt::Expr(ExprStmt {
                    expr: Expr::Binary(
                        Box::new(Expr::IntLiteral(10, sp(0, 2))),
                        BinOp::Lt,
                        Box::new(Expr::IntLiteral(20, sp(3, 5))),
                        binop_span,
                    ),
                    span: binop_span,
                })],
                span: sp(0, 5),
            },
            exported: false,
            span: sp(50, 62),
        })],
        span: sp(0, 62),
    };

    let resolve = env.into_resolve_result();
    let result = check(&module, &resolve);

    assert!(
        result
            .diagnostics
            .iter()
            .all(|d| d.severity != Severity::Error),
        "unexpected errors: {:?}",
        result.diagnostics
    );
    assert_eq!(*result.type_map.get(&binop_span).unwrap(), TypeInterner::BOOL);
}

#[test]
fn binary_operators_logic_requires_bool() {
    // true && false → bool (ok)
    let binop_span = sp(0, 10);

    let env = TestEnv::new();
    let module = Module {
        items: vec![Item::Function(FunctionDef {
            name: ident("test", sp(50, 54)),
            type_params: vec![],
            params: vec![],
            return_type: Some(TypeExpr::Named(ident("nothing", sp(55, 62)))),
            body: Block {
                stmts: vec![Stmt::Expr(ExprStmt {
                    expr: Expr::Binary(
                        Box::new(Expr::BoolLiteral(true, sp(0, 4))),
                        BinOp::And,
                        Box::new(Expr::BoolLiteral(false, sp(5, 10))),
                        binop_span,
                    ),
                    span: binop_span,
                })],
                span: sp(0, 10),
            },
            exported: false,
            span: sp(50, 62),
        })],
        span: sp(0, 62),
    };

    let resolve = env.into_resolve_result();
    let result = check(&module, &resolve);

    assert!(
        result
            .diagnostics
            .iter()
            .all(|d| d.severity != Severity::Error),
        "unexpected errors: {:?}",
        result.diagnostics
    );
    assert_eq!(*result.type_map.get(&binop_span).unwrap(), TypeInterner::BOOL);
}

#[test]
fn binary_operators_logic_error_on_non_bool() {
    // 42 && true → error
    let binop_span = sp(0, 10);

    let env = TestEnv::new();
    let module = Module {
        items: vec![Item::Function(FunctionDef {
            name: ident("test", sp(50, 54)),
            type_params: vec![],
            params: vec![],
            return_type: Some(TypeExpr::Named(ident("nothing", sp(55, 62)))),
            body: Block {
                stmts: vec![Stmt::Expr(ExprStmt {
                    expr: Expr::Binary(
                        Box::new(Expr::IntLiteral(42, sp(0, 2))),
                        BinOp::And,
                        Box::new(Expr::BoolLiteral(true, sp(5, 10))),
                        binop_span,
                    ),
                    span: binop_span,
                })],
                span: sp(0, 10),
            },
            exported: false,
            span: sp(50, 62),
        })],
        span: sp(0, 62),
    };

    let resolve = env.into_resolve_result();
    let result = check(&module, &resolve);

    let errors: Vec<_> = result
        .diagnostics
        .iter()
        .filter(|d| d.severity == Severity::Error)
        .collect();
    assert_eq!(errors.len(), 1);
    assert_eq!(errors[0].code.code(), Some(301));
}

// variable declaration type matching

#[test]
fn var_decl_type_match_ok() {
    // int64 x = 42
    let var_name_span = sp(6, 7);
    let var_span = sp(0, 10);

    let mut env = TestEnv::new();
    env.def_var("x", var_name_span);

    let module = Module {
        items: vec![Item::Function(FunctionDef {
            name: ident("test", sp(50, 54)),
            type_params: vec![],
            params: vec![],
            return_type: Some(TypeExpr::Named(ident("nothing", sp(55, 62)))),
            body: Block {
                stmts: vec![Stmt::VarDecl(VarDecl {
                    mutable: false,
                    ty: TypeExpr::Named(ident("int64", sp(0, 5))),
                    name: ident("x", var_name_span),
                    value: Expr::IntLiteral(42, sp(8, 10)),
                    span: var_span,
                })],
                span: sp(0, 10),
            },
            exported: false,
            span: sp(50, 62),
        })],
        span: sp(0, 62),
    };

    let resolve = env.into_resolve_result();
    let result = check(&module, &resolve);

    let errors: Vec<_> = result
        .diagnostics
        .iter()
        .filter(|d| d.severity == Severity::Error)
        .collect();
    assert!(errors.is_empty(), "unexpected errors: {:?}", errors);
}

#[test]
fn var_decl_type_mismatch() {
    // string x = 42   →  error E0311
    let var_name_span = sp(7, 8);
    let var_span = sp(0, 12);

    let mut env = TestEnv::new();
    env.def_var("x", var_name_span);

    let module = Module {
        items: vec![Item::Function(FunctionDef {
            name: ident("test", sp(50, 54)),
            type_params: vec![],
            params: vec![],
            return_type: Some(TypeExpr::Named(ident("nothing", sp(55, 62)))),
            body: Block {
                stmts: vec![Stmt::VarDecl(VarDecl {
                    mutable: false,
                    ty: TypeExpr::Named(ident("string", sp(0, 6))),
                    name: ident("x", var_name_span),
                    value: Expr::IntLiteral(42, sp(9, 11)),
                    span: var_span,
                })],
                span: sp(0, 12),
            },
            exported: false,
            span: sp(50, 62),
        })],
        span: sp(0, 62),
    };

    let resolve = env.into_resolve_result();
    let result = check(&module, &resolve);

    let errors: Vec<_> = result
        .diagnostics
        .iter()
        .filter(|d| d.severity == Severity::Error)
        .collect();
    assert_eq!(errors.len(), 1, "expected 1 error, got: {:?}", errors);
    assert_eq!(errors[0].code.code(), Some(311));
    assert!(errors[0].message().contains("string"));
    assert!(errors[0].message().contains("int64"));
}

// function call argument type checking

#[test]
fn function_call_correct_args() {
    // function add(a: int64, b: int64) returns int64
    // add(1, 2)  →  no error, result is int64
    let fn_name_span = sp(0, 3);
    let param_a_span = sp(4, 5);
    let param_b_span = sp(6, 7);
    let call_ref_span = sp(20, 23);
    let call_span = sp(20, 30);

    let mut env = TestEnv::new();
    let fn_def_id = env.def_func("add", fn_name_span);
    env.def_param("a", param_a_span);
    env.def_param("b", param_b_span);
    env.reference(call_ref_span, fn_def_id);

    let module = Module {
        items: vec![Item::Function(FunctionDef {
            name: ident("add", fn_name_span),
            type_params: vec![],
            params: vec![
                Param {
                    view: false,
                    mutable: false,
                    name: ident("a", param_a_span),
                    ty: TypeExpr::Named(ident("int64", sp(100, 105))),
                    span: param_a_span,
                },
                Param {
                    view: false,
                    mutable: false,
                    name: ident("b", param_b_span),
                    ty: TypeExpr::Named(ident("int64", sp(106, 111))),
                    span: param_b_span,
                },
            ],
            return_type: Some(TypeExpr::Named(ident("int64", sp(112, 117)))),
            body: Block {
                stmts: vec![Stmt::Expr(ExprStmt {
                    expr: Expr::Call(
                        Box::new(Expr::Ident(ident("add", call_ref_span))),
                        vec![
                            CallArg {
                                name: None,
                                value: Expr::IntLiteral(1, sp(24, 25)),
                                span: sp(24, 25),
                            },
                            CallArg {
                                name: None,
                                value: Expr::IntLiteral(2, sp(27, 28)),
                                span: sp(27, 28),
                            },
                        ],
                        call_span,
                    ),
                    span: call_span,
                })],
                span: sp(20, 30),
            },
            exported: false,
            span: sp(0, 30),
        })],
        span: sp(0, 30),
    };

    let resolve = env.into_resolve_result();
    let result = check(&module, &resolve);

    let errors: Vec<_> = result
        .diagnostics
        .iter()
        .filter(|d| d.severity == Severity::Error)
        .collect();
    assert!(errors.is_empty(), "unexpected errors: {:?}", errors);
    assert_eq!(*result.type_map.get(&call_span).unwrap(), TypeInterner::INT64);
}

#[test]
fn function_call_wrong_arg_type() {
    // function add(a: int64, b: int64) returns int64
    // add(1, "hello")  →  error E0304
    let fn_name_span = sp(0, 3);
    let param_a_span = sp(4, 5);
    let param_b_span = sp(6, 7);
    let call_ref_span = sp(20, 23);
    let call_span = sp(20, 35);
    let bad_arg_span = sp(27, 34);

    let mut env = TestEnv::new();
    let fn_def_id = env.def_func("add", fn_name_span);
    env.def_param("a", param_a_span);
    env.def_param("b", param_b_span);
    env.reference(call_ref_span, fn_def_id);

    let module = Module {
        items: vec![Item::Function(FunctionDef {
            name: ident("add", fn_name_span),
            type_params: vec![],
            params: vec![
                Param {
                    view: false,
                    mutable: false,
                    name: ident("a", param_a_span),
                    ty: TypeExpr::Named(ident("int64", sp(100, 105))),
                    span: param_a_span,
                },
                Param {
                    view: false,
                    mutable: false,
                    name: ident("b", param_b_span),
                    ty: TypeExpr::Named(ident("int64", sp(106, 111))),
                    span: param_b_span,
                },
            ],
            return_type: Some(TypeExpr::Named(ident("int64", sp(112, 117)))),
            body: Block {
                stmts: vec![Stmt::Expr(ExprStmt {
                    expr: Expr::Call(
                        Box::new(Expr::Ident(ident("add", call_ref_span))),
                        vec![
                            CallArg {
                                name: None,
                                value: Expr::IntLiteral(1, sp(24, 25)),
                                span: sp(24, 25),
                            },
                            CallArg {
                                name: None,
                                value: Expr::StringLiteral("hello".to_string(), bad_arg_span),
                                span: bad_arg_span,
                            },
                        ],
                        call_span,
                    ),
                    span: call_span,
                })],
                span: sp(20, 35),
            },
            exported: false,
            span: sp(0, 35),
        })],
        span: sp(0, 35),
    };

    let resolve = env.into_resolve_result();
    let result = check(&module, &resolve);

    let errors: Vec<_> = result
        .diagnostics
        .iter()
        .filter(|d| d.severity == Severity::Error)
        .collect();
    assert_eq!(errors.len(), 1, "expected 1 error, got: {:?}", errors);
    assert_eq!(errors[0].code.code(), Some(304)); // argument_type_mismatch
    assert!(errors[0].message().contains("int64"));
    assert!(errors[0].message().contains("string"));
}

#[test]
fn function_call_wrong_arg_count() {
    // function add(a: int64, b: int64) returns int64
    // add(1)  →  error E0303
    let fn_name_span = sp(0, 3);
    let param_a_span = sp(4, 5);
    let param_b_span = sp(6, 7);
    let call_ref_span = sp(20, 23);
    let call_span = sp(20, 28);

    let mut env = TestEnv::new();
    let fn_def_id = env.def_func("add", fn_name_span);
    env.def_param("a", param_a_span);
    env.def_param("b", param_b_span);
    env.reference(call_ref_span, fn_def_id);

    let module = Module {
        items: vec![Item::Function(FunctionDef {
            name: ident("add", fn_name_span),
            type_params: vec![],
            params: vec![
                Param {
                    view: false,
                    mutable: false,
                    name: ident("a", param_a_span),
                    ty: TypeExpr::Named(ident("int64", sp(100, 105))),
                    span: param_a_span,
                },
                Param {
                    view: false,
                    mutable: false,
                    name: ident("b", param_b_span),
                    ty: TypeExpr::Named(ident("int64", sp(106, 111))),
                    span: param_b_span,
                },
            ],
            return_type: Some(TypeExpr::Named(ident("int64", sp(112, 117)))),
            body: Block {
                stmts: vec![Stmt::Expr(ExprStmt {
                    expr: Expr::Call(
                        Box::new(Expr::Ident(ident("add", call_ref_span))),
                        vec![CallArg {
                            name: None,
                            value: Expr::IntLiteral(1, sp(24, 25)),
                            span: sp(24, 25),
                        }],
                        call_span,
                    ),
                    span: call_span,
                })],
                span: sp(20, 28),
            },
            exported: false,
            span: sp(0, 28),
        })],
        span: sp(0, 28),
    };

    let resolve = env.into_resolve_result();
    let result = check(&module, &resolve);

    let errors: Vec<_> = result
        .diagnostics
        .iter()
        .filter(|d| d.severity == Severity::Error)
        .collect();
    assert_eq!(errors.len(), 1, "expected 1 error, got: {:?}", errors);
    assert_eq!(errors[0].code.code(), Some(303)); // argument_count_mismatch
}

// if condition must be bool

#[test]
fn if_condition_must_be_bool() {
    // if 42:   →  error E0306
    let cond_span = sp(3, 5);
    let if_span = sp(0, 10);

    let env = TestEnv::new();
    let module = Module {
        items: vec![Item::Function(FunctionDef {
            name: ident("test", sp(50, 54)),
            type_params: vec![],
            params: vec![],
            return_type: Some(TypeExpr::Named(ident("nothing", sp(55, 62)))),
            body: Block {
                stmts: vec![Stmt::If(IfStmt {
                    condition: Expr::IntLiteral(42, cond_span),
                    then_block: Block {
                        stmts: vec![],
                        span: sp(6, 10),
                    },
                    else_ifs: vec![],
                    else_block: None,
                    span: if_span,
                })],
                span: sp(0, 10),
            },
            exported: false,
            span: sp(50, 62),
        })],
        span: sp(0, 62),
    };

    let resolve = env.into_resolve_result();
    let result = check(&module, &resolve);

    let errors: Vec<_> = result
        .diagnostics
        .iter()
        .filter(|d| d.severity == Severity::Error)
        .collect();
    assert_eq!(errors.len(), 1, "expected 1 error, got: {:?}", errors);
    assert_eq!(errors[0].code.code(), Some(306)); // condition_not_bool
    assert!(errors[0].message().contains("int64"));
}

#[test]
fn if_condition_bool_ok() {
    // if true:   →  no error
    let cond_span = sp(3, 7);

    let env = TestEnv::new();
    let module = Module {
        items: vec![Item::Function(FunctionDef {
            name: ident("test", sp(50, 54)),
            type_params: vec![],
            params: vec![],
            return_type: Some(TypeExpr::Named(ident("nothing", sp(55, 62)))),
            body: Block {
                stmts: vec![Stmt::If(IfStmt {
                    condition: Expr::BoolLiteral(true, cond_span),
                    then_block: Block {
                        stmts: vec![],
                        span: sp(8, 10),
                    },
                    else_ifs: vec![],
                    else_block: None,
                    span: sp(0, 10),
                })],
                span: sp(0, 10),
            },
            exported: false,
            span: sp(50, 62),
        })],
        span: sp(0, 62),
    };

    let resolve = env.into_resolve_result();
    let result = check(&module, &resolve);

    let errors: Vec<_> = result
        .diagnostics
        .iter()
        .filter(|d| d.severity == Severity::Error)
        .collect();
    assert!(errors.is_empty(), "unexpected errors: {:?}", errors);
}

// return type checking

#[test]
fn return_type_mismatch() {
    // function foo() returns int64:
    //     return "hello"
    // → error E0305
    let fn_name_span = sp(0, 3);
    let ret_span = sp(10, 25);

    let mut env = TestEnv::new();
    let fn_def_id = env.def_func("foo", fn_name_span);
    env.reference(fn_name_span, fn_def_id);

    let module = Module {
        items: vec![Item::Function(FunctionDef {
            name: ident("foo", fn_name_span),
            type_params: vec![],
            params: vec![],
            return_type: Some(TypeExpr::Named(ident("int64", sp(100, 105)))),
            body: Block {
                stmts: vec![Stmt::Return(ReturnStmt {
                    value: Some(Expr::StringLiteral("hello".to_string(), sp(17, 24))),
                    span: ret_span,
                })],
                span: sp(10, 25),
            },
            exported: false,
            span: sp(0, 25),
        })],
        span: sp(0, 25),
    };

    let resolve = env.into_resolve_result();
    let result = check(&module, &resolve);

    let errors: Vec<_> = result
        .diagnostics
        .iter()
        .filter(|d| d.severity == Severity::Error)
        .collect();
    assert_eq!(errors.len(), 1, "expected 1 error, got: {:?}", errors);
    assert_eq!(errors[0].code.code(), Some(305)); // return_type_mismatch
    assert!(errors[0].message().contains("int64"));
    assert!(errors[0].message().contains("string"));
}

#[test]
fn return_type_correct() {
    // function foo() returns int64:
    //     return 42
    let fn_name_span = sp(0, 3);

    let mut env = TestEnv::new();
    let fn_def_id = env.def_func("foo", fn_name_span);
    env.reference(fn_name_span, fn_def_id);

    let module = Module {
        items: vec![Item::Function(FunctionDef {
            name: ident("foo", fn_name_span),
            type_params: vec![],
            params: vec![],
            return_type: Some(TypeExpr::Named(ident("int64", sp(100, 105)))),
            body: Block {
                stmts: vec![Stmt::Return(ReturnStmt {
                    value: Some(Expr::IntLiteral(42, sp(17, 19))),
                    span: sp(10, 19),
                })],
                span: sp(10, 19),
            },
            exported: false,
            span: sp(0, 19),
        })],
        span: sp(0, 19),
    };

    let resolve = env.into_resolve_result();
    let result = check(&module, &resolve);

    let errors: Vec<_> = result
        .diagnostics
        .iter()
        .filter(|d| d.severity == Severity::Error)
        .collect();
    assert!(errors.is_empty(), "unexpected errors: {:?}", errors);
}

// unary operators

#[test]
fn unary_not_requires_bool() {
    // not 42  →  error
    let unary_span = sp(0, 6);

    let env = TestEnv::new();
    let module = Module {
        items: vec![Item::Function(FunctionDef {
            name: ident("test", sp(50, 54)),
            type_params: vec![],
            params: vec![],
            return_type: Some(TypeExpr::Named(ident("nothing", sp(55, 62)))),
            body: Block {
                stmts: vec![Stmt::Expr(ExprStmt {
                    expr: Expr::Unary(
                        UnaryOp::Not,
                        Box::new(Expr::IntLiteral(42, sp(4, 6))),
                        unary_span,
                    ),
                    span: unary_span,
                })],
                span: sp(0, 6),
            },
            exported: false,
            span: sp(50, 62),
        })],
        span: sp(0, 62),
    };

    let resolve = env.into_resolve_result();
    let result = check(&module, &resolve);

    let errors: Vec<_> = result
        .diagnostics
        .iter()
        .filter(|d| d.severity == Severity::Error)
        .collect();
    assert_eq!(errors.len(), 1);
    assert_eq!(errors[0].code.code(), Some(302)); // unary_op_mismatch
}

// for loop iterable check

#[test]
fn for_loop_requires_list() {
    // for x in 42:  →  error E0307
    let var_span = sp(4, 5);
    let iterable_span = sp(9, 11);
    let for_span = sp(0, 15);

    let mut env = TestEnv::new();
    env.def_var("x", var_span);

    let module = Module {
        items: vec![Item::Function(FunctionDef {
            name: ident("test", sp(50, 54)),
            type_params: vec![],
            params: vec![],
            return_type: Some(TypeExpr::Named(ident("nothing", sp(55, 62)))),
            body: Block {
                stmts: vec![Stmt::For(ForStmt {
                    variable: ident("x", var_span),
                    value_variable: None,
                    view: false,
                    iterable: Expr::IntLiteral(42, iterable_span),
                    body: Block {
                        stmts: vec![],
                        span: sp(12, 15),
                    },
                    span: for_span,
                })],
                span: sp(0, 15),
            },
            exported: false,
            span: sp(50, 62),
        })],
        span: sp(0, 62),
    };

    let resolve = env.into_resolve_result();
    let result = check(&module, &resolve);

    let errors: Vec<_> = result
        .diagnostics
        .iter()
        .filter(|d| d.severity == Severity::Error)
        .collect();
    assert_eq!(errors.len(), 1, "expected 1 error, got: {:?}", errors);
    assert_eq!(errors[0].code.code(), Some(307));
}

// assignment type mismatch

#[test]
fn assignment_type_mismatch() {
    // int64 x = 42
    // x = "hello"  →  error E0312
    let var_name_span = sp(6, 7);
    let var_span = sp(0, 10);
    let ref_x_span = sp(15, 16);
    let assign_span = sp(15, 26);

    let mut env = TestEnv::new();
    let x_def = env.def_var("x", var_name_span);
    env.reference(ref_x_span, x_def);

    let module = Module {
        items: vec![Item::Function(FunctionDef {
            name: ident("test", sp(50, 54)),
            type_params: vec![],
            params: vec![],
            return_type: Some(TypeExpr::Named(ident("nothing", sp(55, 62)))),
            body: Block {
                stmts: vec![
                    Stmt::VarDecl(VarDecl {
                        mutable: true,
                        ty: TypeExpr::Named(ident("int64", sp(0, 5))),
                        name: ident("x", var_name_span),
                        value: Expr::IntLiteral(42, sp(8, 10)),
                        span: var_span,
                    }),
                    Stmt::Assign(AssignStmt {
                        target: Expr::Ident(ident("x", ref_x_span)),
                        value: Expr::StringLiteral("hello".to_string(), sp(19, 26)),
                        span: assign_span,
                    }),
                ],
                span: sp(0, 26),
            },
            exported: false,
            span: sp(50, 62),
        })],
        span: sp(0, 62),
    };

    let resolve = env.into_resolve_result();
    let result = check(&module, &resolve);

    let errors: Vec<_> = result
        .diagnostics
        .iter()
        .filter(|d| d.severity == Severity::Error)
        .collect();
    assert_eq!(errors.len(), 1, "expected 1 error, got: {:?}", errors);
    assert_eq!(errors[0].code.code(), Some(312)); // assign_type_mismatch
}

// resolve_type_expr for generic types

#[test]
fn resolve_generic_types() {
    // Verify that type expressions like list[int64], result[string, int64] resolve correctly.
    let env = TestEnv::new();
    let resolve = env.into_resolve_result();
    let mut checker = TypeChecker::new(&resolve);

    let list_int = checker.resolve_type_expr(&TypeExpr::Generic(
        ident("list", sp(0, 4)),
        vec![TypeExpr::Named(ident("int64", sp(5, 10)))],
        sp(0, 11),
    ));
    assert_eq!(
        checker.interner.resolve(list_int),
        Type::List(TypeInterner::INT64)
    );

    let result_type = checker.resolve_type_expr(&TypeExpr::Generic(
        ident("result", sp(0, 6)),
        vec![
            TypeExpr::Named(ident("string", sp(7, 13))),
            TypeExpr::Named(ident("int64", sp(15, 20))),
        ],
        sp(0, 21),
    ));
    assert_eq!(
        checker.interner.resolve(result_type),
        Type::Result(TypeInterner::STRING, TypeInterner::INT64)
    );
}

// capability-based purity enforcement

/// Helper: create a minimal function definition.
fn make_function(name: &str, name_span: Span, params: Vec<Param>, body: Block) -> FunctionDef {
    FunctionDef {
        name: ident(name, name_span),
        type_params: vec![],
        params,
        return_type: Some(TypeExpr::Named(ident("nothing", sp(200, 207)))),
        body,
        exported: false,
        span: Span::new(name_span.file, name_span.start, name_span.start + 50),
    }
}

#[test]
fn pure_function_calling_pure_function_ok() {
    // function helper() returns nothing:
    //     return nothing
    // function caller() returns nothing:
    //     helper()
    let helper_name_span = sp(0, 6);
    let caller_name_span = sp(100, 106);
    let call_ref_span = sp(110, 116);
    let call_span = sp(110, 118);

    let mut env = TestEnv::new();
    let helper_def = env.def_func("helper", helper_name_span);
    let _caller_def = env.def_func("caller", caller_name_span);
    env.reference(helper_name_span, helper_def);
    env.reference(caller_name_span, _caller_def);
    env.reference(call_ref_span, helper_def);

    let module = Module {
        items: vec![
            Item::Function(make_function(
                "helper",
                helper_name_span,
                vec![],
                Block {
                    stmts: vec![],
                    span: sp(10, 20),
                },
            )),
            Item::Function(make_function(
                "caller",
                caller_name_span,
                vec![],
                Block {
                    stmts: vec![Stmt::Expr(ExprStmt {
                        expr: Expr::Call(
                            Box::new(Expr::Ident(ident("helper", call_ref_span))),
                            vec![],
                            call_span,
                        ),
                        span: call_span,
                    })],
                    span: sp(107, 120),
                },
            )),
        ],
        span: sp(0, 200),
    };

    let resolve = env.into_resolve_result();
    let result = check(&module, &resolve);

    let errors: Vec<_> = result
        .diagnostics
        .iter()
        .filter(|d| d.severity == Severity::Error)
        .collect();
    assert!(errors.is_empty(), "unexpected errors: {:?}", errors);
}

#[test]
fn pure_function_calling_impure_function_error() {
    // function writer(view out: Stdout) returns nothing:
    //     return nothing
    // function caller() returns nothing:
    //     writer()          ← E0500
    let writer_name_span = sp(0, 6);
    let writer_param_span = sp(7, 10);
    let caller_name_span = sp(100, 106);
    let call_ref_span = sp(110, 116);
    let call_span = sp(110, 118);

    let mut env = TestEnv::new();
    let writer_def = env.def_func("writer", writer_name_span);
    let _caller_def = env.def_func("caller", caller_name_span);
    env.def_param("out", writer_param_span);
    env.reference(writer_name_span, writer_def);
    env.reference(caller_name_span, _caller_def);
    env.reference(call_ref_span, writer_def);

    let module = Module {
        items: vec![
            Item::Function(make_function(
                "writer",
                writer_name_span,
                vec![Param {
                    view: true,
                    mutable: false,
                    name: ident("out", writer_param_span),
                    ty: TypeExpr::View(
                        Box::new(TypeExpr::Named(ident("Stdout", sp(11, 17)))),
                        sp(7, 17),
                    ),
                    span: writer_param_span,
                }],
                Block {
                    stmts: vec![],
                    span: sp(20, 30),
                },
            )),
            Item::Function(make_function(
                "caller",
                caller_name_span,
                vec![],
                Block {
                    stmts: vec![Stmt::Expr(ExprStmt {
                        expr: Expr::Call(
                            Box::new(Expr::Ident(ident("writer", call_ref_span))),
                            vec![],
                            call_span,
                        ),
                        span: call_span,
                    })],
                    span: sp(107, 120),
                },
            )),
        ],
        span: sp(0, 200),
    };

    let resolve = env.into_resolve_result();
    let result = check(&module, &resolve);

    let errors: Vec<_> = result
        .diagnostics
        .iter()
        .filter(|d| d.severity == Severity::Error)
        .collect();
    // Expect E0500 (pure calls impure) and E0303 (arg count mismatch — caller
    // passes 0 args but writer expects 1).  We only assert E0500 exists.
    let purity_errors: Vec<_> = errors.iter().filter(|d| d.code.code() == Some(500)).collect();
    assert_eq!(
        purity_errors.len(),
        1,
        "expected 1 purity error (E0500), got: {:?}",
        purity_errors
    );
    assert!(purity_errors[0].message().contains("caller"));
    assert!(purity_errors[0].message().contains("writer"));
}

#[test]
fn impure_function_calling_impure_function_ok() {
    // function writer(view out: Stdout) returns nothing:
    //     return nothing
    // function caller(view out: Stdout) returns nothing:
    //     writer()          ← ok, caller is also impure
    let writer_name_span = sp(0, 6);
    let writer_param_span = sp(7, 10);
    let caller_name_span = sp(100, 106);
    let caller_param_span = sp(107, 110);
    let call_ref_span = sp(150, 156);
    let call_span = sp(150, 158);

    let mut env = TestEnv::new();
    let writer_def = env.def_func("writer", writer_name_span);
    let _caller_def = env.def_func("caller", caller_name_span);
    env.def_param("out", writer_param_span);
    env.def_param("out2", caller_param_span);
    env.reference(writer_name_span, writer_def);
    env.reference(caller_name_span, _caller_def);
    env.reference(call_ref_span, writer_def);

    let module = Module {
        items: vec![
            Item::Function(make_function(
                "writer",
                writer_name_span,
                vec![Param {
                    view: true,
                    mutable: false,
                    name: ident("out", writer_param_span),
                    ty: TypeExpr::View(
                        Box::new(TypeExpr::Named(ident("Stdout", sp(11, 17)))),
                        sp(7, 17),
                    ),
                    span: writer_param_span,
                }],
                Block {
                    stmts: vec![],
                    span: sp(20, 30),
                },
            )),
            Item::Function(make_function(
                "caller",
                caller_name_span,
                vec![Param {
                    view: true,
                    mutable: false,
                    name: ident("out2", caller_param_span),
                    ty: TypeExpr::View(
                        Box::new(TypeExpr::Named(ident("Stdout", sp(111, 117)))),
                        sp(107, 117),
                    ),
                    span: caller_param_span,
                }],
                Block {
                    stmts: vec![Stmt::Expr(ExprStmt {
                        expr: Expr::Call(
                            Box::new(Expr::Ident(ident("writer", call_ref_span))),
                            vec![],
                            call_span,
                        ),
                        span: call_span,
                    })],
                    span: sp(140, 160),
                },
            )),
        ],
        span: sp(0, 300),
    };

    let resolve = env.into_resolve_result();
    let result = check(&module, &resolve);

    // No purity errors expected (E0500).
    let purity_errors: Vec<_> = result
        .diagnostics
        .iter()
        .filter(|d| d.code.code() == Some(500))
        .collect();
    assert!(
        purity_errors.is_empty(),
        "unexpected purity errors: {:?}",
        purity_errors
    );
}

#[test]
fn function_with_stdout_param_is_impure() {
    // function printer(view out: Stdout) returns nothing
    // This is a unit-level check: the purity map marks this function as impure.
    let fn_name_span = sp(0, 7);
    let param_span = sp(8, 11);

    let mut env = TestEnv::new();
    let fn_def = env.def_func("printer", fn_name_span);
    env.def_param("out", param_span);
    env.reference(fn_name_span, fn_def);

    let func = make_function(
        "printer",
        fn_name_span,
        vec![Param {
            view: true,
            mutable: false,
            name: ident("out", param_span),
            ty: TypeExpr::View(
                Box::new(TypeExpr::Named(ident("Stdout", sp(12, 18)))),
                sp(8, 18),
            ),
            span: param_span,
        }],
        Block {
            stmts: vec![],
            span: sp(20, 30),
        },
    );

    let module = Module {
        items: vec![Item::Function(func)],
        span: sp(0, 100),
    };

    let resolve = env.into_resolve_result();
    let mut checker = TypeChecker::new(&resolve);
    checker.check_module(&module);

    // The purity map should mark "printer" as impure.
    assert_eq!(
        checker.purity_map.get(&"printer".to_string()).copied(),
        Some(false),
        "function with Stdout param should be impure"
    );
}

#[test]
fn function_without_capability_params_is_pure() {
    // function add(a: int64, b: int64) returns nothing
    let fn_name_span = sp(0, 3);
    let param_a_span = sp(4, 5);
    let param_b_span = sp(6, 7);

    let mut env = TestEnv::new();
    let fn_def = env.def_func("add", fn_name_span);
    env.def_param("a", param_a_span);
    env.def_param("b", param_b_span);
    env.reference(fn_name_span, fn_def);

    let func = make_function(
        "add",
        fn_name_span,
        vec![
            Param {
                view: false,
                mutable: false,
                name: ident("a", param_a_span),
                ty: TypeExpr::Named(ident("int64", sp(100, 105))),
                span: param_a_span,
            },
            Param {
                view: false,
                mutable: false,
                name: ident("b", param_b_span),
                ty: TypeExpr::Named(ident("int64", sp(106, 111))),
                span: param_b_span,
            },
        ],
        Block {
            stmts: vec![],
            span: sp(10, 20),
        },
    );

    let module = Module {
        items: vec![Item::Function(func)],
        span: sp(0, 100),
    };

    let resolve = env.into_resolve_result();
    let mut checker = TypeChecker::new(&resolve);
    checker.check_module(&module);

    assert_eq!(
        checker.purity_map.get(&"add".to_string()).copied(),
        Some(true),
        "function without capability params should be pure"
    );
}

#[test]
fn verify_block_calling_impure_function_error() {
    // function writer(view out: Stdout) returns nothing:
    //     return nothing
    // verify test_writer:
    //     writer()          ← E0501
    let writer_name_span = sp(0, 6);
    let writer_param_span = sp(7, 10);
    let call_ref_span = sp(110, 116);
    let call_span = sp(110, 118);
    let verify_span = sp(100, 130);

    let mut env = TestEnv::new();
    let writer_def = env.def_func("writer", writer_name_span);
    env.def_param("out", writer_param_span);
    env.reference(writer_name_span, writer_def);
    env.reference(call_ref_span, writer_def);

    let module = Module {
        items: vec![
            Item::Function(make_function(
                "writer",
                writer_name_span,
                vec![Param {
                    view: true,
                    mutable: false,
                    name: ident("out", writer_param_span),
                    ty: TypeExpr::View(
                        Box::new(TypeExpr::Named(ident("Stdout", sp(11, 17)))),
                        sp(7, 17),
                    ),
                    span: writer_param_span,
                }],
                Block {
                    stmts: vec![],
                    span: sp(20, 30),
                },
            )),
            Item::Verify(VerifyBlock {
                name: ident("test_writer", sp(100, 111)),
                body: Block {
                    stmts: vec![Stmt::Expr(ExprStmt {
                        expr: Expr::Call(
                            Box::new(Expr::Ident(ident("writer", call_ref_span))),
                            vec![],
                            call_span,
                        ),
                        span: call_span,
                    })],
                    span: sp(112, 130),
                },
                span: verify_span,
            }),
        ],
        span: sp(0, 200),
    };

    let resolve = env.into_resolve_result();
    let result = check(&module, &resolve);

    let verify_errors: Vec<_> = result
        .diagnostics
        .iter()
        .filter(|d| d.code.code() == Some(501))
        .collect();
    assert_eq!(
        verify_errors.len(),
        1,
        "expected 1 verify purity error (E0501), got: {:?}",
        verify_errors
    );
    assert!(verify_errors[0].message().contains("test_writer"));
    assert!(verify_errors[0].message().contains("writer"));
}

#[test]
fn verify_block_calling_pure_function_ok() {
    // function helper() returns nothing:
    //     return nothing
    // verify test_helper:
    //     helper()          ← ok
    let helper_name_span = sp(0, 6);
    let call_ref_span = sp(110, 116);
    let call_span = sp(110, 118);
    let verify_span = sp(100, 130);

    let mut env = TestEnv::new();
    let helper_def = env.def_func("helper", helper_name_span);
    env.reference(helper_name_span, helper_def);
    env.reference(call_ref_span, helper_def);

    let module = Module {
        items: vec![
            Item::Function(make_function(
                "helper",
                helper_name_span,
                vec![],
                Block {
                    stmts: vec![],
                    span: sp(10, 20),
                },
            )),
            Item::Verify(VerifyBlock {
                name: ident("test_helper", sp(100, 111)),
                body: Block {
                    stmts: vec![Stmt::Expr(ExprStmt {
                        expr: Expr::Call(
                            Box::new(Expr::Ident(ident("helper", call_ref_span))),
                            vec![],
                            call_span,
                        ),
                        span: call_span,
                    })],
                    span: sp(112, 130),
                },
                span: verify_span,
            }),
        ],
        span: sp(0, 200),
    };

    let resolve = env.into_resolve_result();
    let result = check(&module, &resolve);

    let purity_errors: Vec<_> = result
        .diagnostics
        .iter()
        .filter(|d| d.code.code() == Some(500) || d.code.code() == Some(501))
        .collect();
    assert!(
        purity_errors.is_empty(),
        "unexpected purity errors: {:?}",
        purity_errors
    );
}

#[test]
fn resolved_namespaced_type_lookup_does_not_fall_back_to_root_leaf() {
    let type_span = sp(0, 4);
    let mut env = TestEnv::new();
    let namespaced_type =
        env.scope_table
            .new_def("models.User".to_string(), DefKind::Struct, type_span);
    env.reference(type_span, namespaced_type);
    let resolve = env.into_resolve_result();
    let mut checker = TypeChecker::new(&resolve);
    checker.register_named_type(&None, &"User".to_string(), TypeInterner::INT64);

    assert_eq!(
        checker.resolve_named_type(&"User".to_string(), type_span),
        TypeInterner::ERROR
    );

    let generic_span = sp(10, 14);
    let mut env = TestEnv::new();
    let namespaced_generic =
        env.scope_table
            .new_def("models.Box".to_string(), DefKind::Struct, generic_span);
    env.reference(generic_span, namespaced_generic);
    let template = StructDef {
        name: ident("Box", generic_span),
        type_params: vec![ident("T", generic_span)],
        fields: Vec::new(),
        methods: Vec::new(),
        exported: false,
        span: generic_span,
    };
    let resolve = env.into_resolve_result();
    let mut checker = TypeChecker::new(&resolve);
    checker.generic_struct_templates.insert("Box".to_string(), &template);

    assert_eq!(
        checker.resolve_generic_type(
            &"Box".to_string(),
            &vec![TypeExpr::Named(ident("int64", sp(15, 20)))],
            generic_span,
        ),
        TypeInterner::ERROR
    );
}
