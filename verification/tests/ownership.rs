//! Who owns values.
use jett_typecheck::ast::{
    AssignStmt, BinOp, Block, CallArg, Expr, ExprStmt, ForStmt, FunctionDef, Ident, IfStmt, Item, Module, Param,
    ReturnStmt, Stmt, TypeExpr, VarDecl, WhileStmt,
};
use jett_typecheck::diagnostics::{Diagnostic, Severity};
use jett_typecheck::ownership::check_ownership;
use jett_typecheck::span::{FileId, Span};
use jett_typecheck::types::TypeInterner;

/// Helper to create a span for tests.
fn sp(start: u32, end: u32) -> Span {
    Span::new(FileId::new(0), start, end)
}

fn ident(name: &str, span: Span) -> Ident {
    Ident {
        name: name.to_string(),
        span,
    }
}

/// Helper to create a module with a single function.
fn module_with_func(func: FunctionDef) -> Module {
    Module {
        items: vec![Item::Function(func)],
        span: sp(0, 1000),
    }
}

/// Extract error diagnostics from a result.
fn errors(diagnostics: &[Diagnostic]) -> Vec<&Diagnostic> {
    diagnostics
        .iter()
        .filter(|d| d.severity == Severity::Error)
        .collect()
}

// Variable consumed after passing to function

#[test]
fn variable_consumed_after_passing_to_function() {
    // function process(data: list[int64]) returns nothing:
    //     return nothing
    //
    // function example() returns nothing:
    //     list[int64] items = list(1, 2, 3)
    //     process(items)
    //     # items is consumed here

    let func = FunctionDef {
        name: ident("example", sp(0, 7)),
        type_params: vec![],
        params: vec![],
        return_type: Some(TypeExpr::Named(ident("nothing", sp(8, 15)))),
        body: Block {
            stmts: vec![
                // list[int64] items = list(1, 2, 3)
                Stmt::VarDecl(VarDecl {
                    mutable: false,
                    ty: TypeExpr::Generic(
                        ident("list", sp(20, 24)),
                        vec![TypeExpr::Named(ident("int64", sp(25, 30)))],
                        sp(20, 31),
                    ),
                    name: ident("items", sp(32, 37)),
                    value: Expr::ListConstruct(
                        vec![
                            Expr::IntLiteral(1, sp(40, 41)),
                            Expr::IntLiteral(2, sp(42, 43)),
                            Expr::IntLiteral(3, sp(44, 45)),
                        ],
                        sp(39, 46),
                    ),
                    span: sp(20, 46),
                }),
                // process(items)
                Stmt::Expr(ExprStmt {
                    expr: Expr::Call(
                        Box::new(Expr::Ident(ident("process", sp(50, 57)))),
                        vec![CallArg {
                            name: None,
                            value: Expr::Ident(ident("items", sp(58, 63))),
                            span: sp(58, 63),
                        }],
                        sp(50, 64),
                    ),
                    span: sp(50, 64),
                }),
            ],
            span: sp(20, 64),
        },
        exported: false,
        span: sp(0, 64),
    };

    let interner = TypeInterner::new();
    let module = module_with_func(func);
    let diagnostics = check_ownership(&module, &interner, &vec![]);

    // items is consumed by process() — no error (it's a valid consumption).
    let errs = errors(&diagnostics);
    assert!(errs.is_empty(), "unexpected errors: {:?}", errs);
}

// Use-after-move error

#[test]
fn use_after_move_error() {
    // function example() returns nothing:
    //     list[int64] items = list(1, 2, 3)
    //     process(items)        # items consumed
    //     process(items)        # ERROR: use after move

    let func = FunctionDef {
        name: ident("example", sp(0, 7)),
        type_params: vec![],
        params: vec![],
        return_type: Some(TypeExpr::Named(ident("nothing", sp(8, 15)))),
        body: Block {
            stmts: vec![
                Stmt::VarDecl(VarDecl {
                    mutable: false,
                    ty: TypeExpr::Generic(
                        ident("list", sp(20, 24)),
                        vec![TypeExpr::Named(ident("int64", sp(25, 30)))],
                        sp(20, 31),
                    ),
                    name: ident("items", sp(32, 37)),
                    value: Expr::ListConstruct(
                        vec![Expr::IntLiteral(1, sp(40, 41))],
                        sp(39, 42),
                    ),
                    span: sp(20, 42),
                }),
                // process(items)  — first call consumes items
                Stmt::Expr(ExprStmt {
                    expr: Expr::Call(
                        Box::new(Expr::Ident(ident("process", sp(50, 57)))),
                        vec![CallArg {
                            name: None,
                            value: Expr::Ident(ident("items", sp(58, 63))),
                            span: sp(58, 63),
                        }],
                        sp(50, 64),
                    ),
                    span: sp(50, 64),
                }),
                // process(items)  — second call: items already consumed
                Stmt::Expr(ExprStmt {
                    expr: Expr::Call(
                        Box::new(Expr::Ident(ident("process", sp(70, 77)))),
                        vec![CallArg {
                            name: None,
                            value: Expr::Ident(ident("items", sp(78, 83))),
                            span: sp(78, 83),
                        }],
                        sp(70, 84),
                    ),
                    span: sp(70, 84),
                }),
            ],
            span: sp(20, 84),
        },
        exported: false,
        span: sp(0, 84),
    };

    let interner = TypeInterner::new();
    let module = module_with_func(func);
    let diagnostics = check_ownership(&module, &interner, &vec![]);

    let errs = errors(&diagnostics);
    assert_eq!(errs.len(), 1, "expected 1 error, got: {:?}", errs);
    assert_eq!(errs[0].code.code(), Some(400));
    assert!(errs[0].message().contains("items"));
    assert!(errs[0].message().contains("consumed"));
}

// View parameter allows continued use

#[test]
fn view_parameter_allows_continued_use() {
    // function example() returns nothing:
    //     list[int64] items = list(1, 2, 3)
    //     process(view items)     # items stays owned (view argument)
    //     process(view items)     # still valid

    let func = FunctionDef {
        name: ident("example", sp(0, 7)),
        type_params: vec![],
        params: vec![],
        return_type: Some(TypeExpr::Named(ident("nothing", sp(8, 15)))),
        body: Block {
            stmts: vec![
                Stmt::VarDecl(VarDecl {
                    mutable: false,
                    ty: TypeExpr::Generic(
                        ident("list", sp(20, 24)),
                        vec![TypeExpr::Named(ident("int64", sp(25, 30)))],
                        sp(20, 31),
                    ),
                    name: ident("items", sp(32, 37)),
                    value: Expr::ListConstruct(
                        vec![Expr::IntLiteral(1, sp(40, 41))],
                        sp(39, 42),
                    ),
                    span: sp(20, 42),
                }),
                // process(view items) — first call, view argument
                Stmt::Expr(ExprStmt {
                    expr: Expr::Call(
                        Box::new(Expr::Ident(ident("process", sp(50, 57)))),
                        vec![CallArg {
                            name: None,
                            value: Expr::View(
                                Box::new(Expr::Ident(ident("items", sp(63, 68)))),
                                sp(58, 68),
                            ),
                            span: sp(58, 68),
                        }],
                        sp(50, 69),
                    ),
                    span: sp(50, 69),
                }),
                // process(view items) — second call, still valid
                Stmt::Expr(ExprStmt {
                    expr: Expr::Call(
                        Box::new(Expr::Ident(ident("process", sp(75, 82)))),
                        vec![CallArg {
                            name: None,
                            value: Expr::View(
                                Box::new(Expr::Ident(ident("items", sp(88, 93)))),
                                sp(83, 93),
                            ),
                            span: sp(83, 93),
                        }],
                        sp(75, 94),
                    ),
                    span: sp(75, 94),
                }),
            ],
            span: sp(20, 94),
        },
        exported: false,
        span: sp(0, 94),
    };

    let interner = TypeInterner::new();
    let module = module_with_func(func);
    let diagnostics = check_ownership(&module, &interner, &vec![]);

    let errs = errors(&diagnostics);
    assert!(errs.is_empty(), "unexpected errors: {:?}", errs);
    assert!(
        diagnostics.is_empty(),
        "viewed values may go out of scope without warnings: {:?}",
        diagnostics
    );
}

// Primitives are copyable (no move tracking)

#[test]
fn primitives_are_copyable_no_move_tracking() {
    // function example() returns nothing:
    //     int64 x = 42
    //     process(x)
    //     process(x)    # Valid — int64 is implicitly copyable

    let func = FunctionDef {
        name: ident("example", sp(0, 7)),
        type_params: vec![],
        params: vec![],
        return_type: Some(TypeExpr::Named(ident("nothing", sp(8, 15)))),
        body: Block {
            stmts: vec![
                Stmt::VarDecl(VarDecl {
                    mutable: false,
                    ty: TypeExpr::Named(ident("int64", sp(20, 25))),
                    name: ident("x", sp(26, 27)),
                    value: Expr::IntLiteral(42, sp(30, 32)),
                    span: sp(20, 32),
                }),
                // process(x) — first call
                Stmt::Expr(ExprStmt {
                    expr: Expr::Call(
                        Box::new(Expr::Ident(ident("process", sp(40, 47)))),
                        vec![CallArg {
                            name: None,
                            value: Expr::Ident(ident("x", sp(48, 49))),
                            span: sp(48, 49),
                        }],
                        sp(40, 50),
                    ),
                    span: sp(40, 50),
                }),
                // process(x) — second call, still valid because int64 is copyable
                Stmt::Expr(ExprStmt {
                    expr: Expr::Call(
                        Box::new(Expr::Ident(ident("process", sp(55, 62)))),
                        vec![CallArg {
                            name: None,
                            value: Expr::Ident(ident("x", sp(63, 64))),
                            span: sp(63, 64),
                        }],
                        sp(55, 65),
                    ),
                    span: sp(55, 65),
                }),
            ],
            span: sp(20, 65),
        },
        exported: false,
        span: sp(0, 65),
    };

    let interner = TypeInterner::new();
    let module = module_with_func(func);
    let diagnostics = check_ownership(&module, &interner, &vec![]);

    let errs = errors(&diagnostics);
    assert!(
        errs.is_empty(),
        "primitives should be copyable, got errors: {:?}",
        errs
    );
}

// Mutable variable can be rebound after move

#[test]
fn mutable_variable_can_be_rebound_after_move() {
    // function example() returns nothing:
    //     mutable list[int64] items = list(1, 2)
    //     process(items)                 # items consumed
    //     items = list(3, 4)             # rebind: items is owned again
    //     process(items)                 # valid

    let func = FunctionDef {
        name: ident("example", sp(0, 7)),
        type_params: vec![],
        params: vec![],
        return_type: Some(TypeExpr::Named(ident("nothing", sp(8, 15)))),
        body: Block {
            stmts: vec![
                // mutable list[int64] items = list(1, 2)
                Stmt::VarDecl(VarDecl {
                    mutable: true,
                    ty: TypeExpr::Generic(
                        ident("list", sp(20, 24)),
                        vec![TypeExpr::Named(ident("int64", sp(25, 30)))],
                        sp(20, 31),
                    ),
                    name: ident("items", sp(32, 37)),
                    value: Expr::ListConstruct(
                        vec![
                            Expr::IntLiteral(1, sp(40, 41)),
                            Expr::IntLiteral(2, sp(42, 43)),
                        ],
                        sp(39, 44),
                    ),
                    span: sp(20, 44),
                }),
                // process(items) — consumes items
                Stmt::Expr(ExprStmt {
                    expr: Expr::Call(
                        Box::new(Expr::Ident(ident("process", sp(50, 57)))),
                        vec![CallArg {
                            name: None,
                            value: Expr::Ident(ident("items", sp(58, 63))),
                            span: sp(58, 63),
                        }],
                        sp(50, 64),
                    ),
                    span: sp(50, 64),
                }),
                // items = list(3, 4) — rebind
                Stmt::Assign(AssignStmt {
                    target: Expr::Ident(ident("items", sp(70, 75))),
                    value: Expr::ListConstruct(
                        vec![
                            Expr::IntLiteral(3, sp(80, 81)),
                            Expr::IntLiteral(4, sp(82, 83)),
                        ],
                        sp(79, 84),
                    ),
                    span: sp(70, 84),
                }),
                // process(items) — valid again
                Stmt::Expr(ExprStmt {
                    expr: Expr::Call(
                        Box::new(Expr::Ident(ident("process", sp(90, 97)))),
                        vec![CallArg {
                            name: None,
                            value: Expr::Ident(ident("items", sp(98, 103))),
                            span: sp(98, 103),
                        }],
                        sp(90, 104),
                    ),
                    span: sp(90, 104),
                }),
            ],
            span: sp(20, 104),
        },
        exported: false,
        span: sp(0, 104),
    };

    let interner = TypeInterner::new();
    let module = module_with_func(func);
    let diagnostics = check_ownership(&module, &interner, &vec![]);

    let errs = errors(&diagnostics);
    assert!(
        errs.is_empty(),
        "mutable rebinding should reset ownership, got errors: {:?}",
        errs
    );
}

// For loop consumes iterable

#[test]
fn for_loop_consumes_iterable() {
    // function example() returns nothing:
    //     list[int64] items = list(1, 2, 3)
    //     for item in items:
    //         pass
    //     process(items)   # ERROR: items was consumed by for loop

    let func = FunctionDef {
        name: ident("example", sp(0, 7)),
        type_params: vec![],
        params: vec![],
        return_type: Some(TypeExpr::Named(ident("nothing", sp(8, 15)))),
        body: Block {
            stmts: vec![
                // list[int64] items = list(1, 2, 3)
                Stmt::VarDecl(VarDecl {
                    mutable: false,
                    ty: TypeExpr::Generic(
                        ident("list", sp(20, 24)),
                        vec![TypeExpr::Named(ident("int64", sp(25, 30)))],
                        sp(20, 31),
                    ),
                    name: ident("items", sp(32, 37)),
                    value: Expr::ListConstruct(
                        vec![
                            Expr::IntLiteral(1, sp(40, 41)),
                            Expr::IntLiteral(2, sp(42, 43)),
                            Expr::IntLiteral(3, sp(44, 45)),
                        ],
                        sp(39, 46),
                    ),
                    span: sp(20, 46),
                }),
                // for item in items:
                Stmt::For(ForStmt {
                    variable: ident("item", sp(50, 54)),
                    value_variable: None,
                    view: false, // Not a view iteration — consumes items
                    iterable: Expr::Ident(ident("items", sp(58, 63))),
                    body: Block {
                        stmts: vec![],
                        span: sp(65, 70),
                    },
                    span: sp(47, 70),
                }),
                // process(items)  — ERROR: items consumed by for loop
                Stmt::Expr(ExprStmt {
                    expr: Expr::Call(
                        Box::new(Expr::Ident(ident("process", sp(75, 82)))),
                        vec![CallArg {
                            name: None,
                            value: Expr::Ident(ident("items", sp(83, 88))),
                            span: sp(83, 88),
                        }],
                        sp(75, 89),
                    ),
                    span: sp(75, 89),
                }),
            ],
            span: sp(20, 89),
        },
        exported: false,
        span: sp(0, 89),
    };

    let interner = TypeInterner::new();
    let module = module_with_func(func);
    let diagnostics = check_ownership(&module, &interner, &vec![]);

    let errs = errors(&diagnostics);
    assert_eq!(
        errs.len(),
        1,
        "expected 1 use-after-move error, got: {:?}",
        errs
    );
    assert_eq!(errs[0].code.code(), Some(400));
    assert!(errs[0].message().contains("items"));
}

// For loop with view does NOT consume iterable

#[test]
fn for_loop_view_does_not_consume_iterable() {
    // function example() returns nothing:
    //     list[int64] items = list(1, 2, 3)
    //     for item in view items:
    //         pass
    //     process(items)   # Valid — items was viewed, not consumed

    let func = FunctionDef {
        name: ident("example", sp(0, 7)),
        type_params: vec![],
        params: vec![],
        return_type: Some(TypeExpr::Named(ident("nothing", sp(8, 15)))),
        body: Block {
            stmts: vec![
                Stmt::VarDecl(VarDecl {
                    mutable: false,
                    ty: TypeExpr::Generic(
                        ident("list", sp(20, 24)),
                        vec![TypeExpr::Named(ident("int64", sp(25, 30)))],
                        sp(20, 31),
                    ),
                    name: ident("items", sp(32, 37)),
                    value: Expr::ListConstruct(
                        vec![Expr::IntLiteral(1, sp(40, 41))],
                        sp(39, 42),
                    ),
                    span: sp(20, 42),
                }),
                // for item in view items:
                Stmt::For(ForStmt {
                    variable: ident("item", sp(50, 54)),
                    value_variable: None,
                    view: true, // View iteration — does NOT consume items
                    iterable: Expr::Ident(ident("items", sp(63, 68))),
                    body: Block {
                        stmts: vec![],
                        span: sp(70, 75),
                    },
                    span: sp(47, 75),
                }),
                // process(items) — valid, items was not consumed
                Stmt::Expr(ExprStmt {
                    expr: Expr::Call(
                        Box::new(Expr::Ident(ident("process", sp(80, 87)))),
                        vec![CallArg {
                            name: None,
                            value: Expr::Ident(ident("items", sp(88, 93))),
                            span: sp(88, 93),
                        }],
                        sp(80, 94),
                    ),
                    span: sp(80, 94),
                }),
            ],
            span: sp(20, 94),
        },
        exported: false,
        span: sp(0, 94),
    };

    let interner = TypeInterner::new();
    let module = module_with_func(func);
    let diagnostics = check_ownership(&module, &interner, &vec![]);

    let errs = errors(&diagnostics);
    assert!(errs.is_empty(), "unexpected errors: {:?}", errs);
}

// Cannot consume a view parameter

#[test]
fn cannot_consume_view_parameter() {
    // function example(view data: list[int64]) returns nothing:
    //     process(data)    # ERROR: cannot consume a view parameter

    let func = FunctionDef {
        name: ident("example", sp(0, 7)),
        type_params: vec![],
        params: vec![Param {
            view: true,
            mutable: false,
            name: ident("data", sp(8, 12)),
            ty: TypeExpr::Generic(
                ident("list", sp(14, 18)),
                vec![TypeExpr::Named(ident("int64", sp(19, 24)))],
                sp(14, 25),
            ),
            span: sp(8, 25),
        }],
        return_type: Some(TypeExpr::Named(ident("nothing", sp(30, 37)))),
        body: Block {
            stmts: vec![
                // process(data)  — ERROR: data is a view parameter
                Stmt::Expr(ExprStmt {
                    expr: Expr::Call(
                        Box::new(Expr::Ident(ident("process", sp(40, 47)))),
                        vec![CallArg {
                            name: None,
                            value: Expr::Ident(ident("data", sp(48, 52))),
                            span: sp(48, 52),
                        }],
                        sp(40, 53),
                    ),
                    span: sp(40, 53),
                }),
            ],
            span: sp(40, 53),
        },
        exported: false,
        span: sp(0, 53),
    };

    let interner = TypeInterner::new();
    let module = module_with_func(func);
    let diagnostics = check_ownership(&module, &interner, &vec![]);

    let errs = errors(&diagnostics);
    assert_eq!(errs.len(), 1, "expected 1 error, got: {:?}", errs);
    assert_eq!(errs[0].code.code(), Some(401));
    assert!(errs[0].message().contains("data"));
    assert!(errs[0].message().contains("view"));
}

// Owned linear values may go out of scope without warnings

#[test]
fn owned_linear_value_can_exit_scope_without_warning() {
    // function example(data: list[int64]) returns nothing:
    //     return nothing
    // No warning: scope exit is a valid ownership endpoint.

    let func = FunctionDef {
        name: ident("example", sp(0, 7)),
        type_params: vec![],
        params: vec![Param {
            view: false,
            mutable: false,
            name: ident("data", sp(8, 12)),
            ty: TypeExpr::Generic(
                ident("list", sp(14, 18)),
                vec![TypeExpr::Named(ident("int64", sp(19, 24)))],
                sp(14, 25),
            ),
            span: sp(8, 25),
        }],
        return_type: Some(TypeExpr::Named(ident("nothing", sp(30, 37)))),
        body: Block {
            stmts: vec![Stmt::Return(ReturnStmt {
                value: Some(Expr::Nothing(sp(40, 47))),
                span: sp(40, 47),
            })],
            span: sp(40, 47),
        },
        exported: false,
        span: sp(0, 47),
    };

    let interner = TypeInterner::new();
    let module = module_with_func(func);
    let diagnostics = check_ownership(&module, &interner, &vec![]);

    assert!(
        diagnostics.is_empty(),
        "owned values may go out of scope without warnings: {:?}",
        diagnostics
    );
}

// View parameter for primitives — no consumption concern

#[test]
fn view_param_with_primitive_no_errors() {
    // function example(view x: int64) returns nothing:
    //     return nothing
    // No warnings — primitives are copyable, even when viewed.

    let func = FunctionDef {
        name: ident("example", sp(0, 7)),
        type_params: vec![],
        params: vec![Param {
            view: true,
            mutable: false,
            name: ident("x", sp(8, 9)),
            ty: TypeExpr::Named(ident("int64", sp(11, 16))),
            span: sp(8, 16),
        }],
        return_type: Some(TypeExpr::Named(ident("nothing", sp(20, 27)))),
        body: Block {
            stmts: vec![Stmt::Return(ReturnStmt {
                value: Some(Expr::Nothing(sp(30, 37))),
                span: sp(30, 37),
            })],
            span: sp(30, 37),
        },
        exported: false,
        span: sp(0, 37),
    };

    let interner = TypeInterner::new();
    let module = module_with_func(func);
    let diagnostics = check_ownership(&module, &interner, &vec![]);

    let errs = errors(&diagnostics);
    assert!(errs.is_empty(), "unexpected errors: {:?}", errs);
    assert!(
        diagnostics.is_empty(),
        "unexpected diagnostics: {:?}",
        diagnostics
    );
}
