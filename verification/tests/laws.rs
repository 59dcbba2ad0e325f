//! The laws of the library on chosen values.
use jett_typecheck::ast::{
    AssignStmt, Block, CallArg, Expr, ExprStmt, FunctionDef, Ident, IfStmt, Item, Module, Param, PipelineStep,
    ReturnStmt, Stmt, StringPart, TypeExpr, VarDecl,
};
use jett_typecheck::check;
use jett_typecheck::diagnostics::{Diagnostic, ErrorCode, Severity};
use jett_typecheck::facts::{ReflectionBranchContext, ReflectionParamFacts, StaticReflectionEnumValue};
use jett_typecheck::names::{canonical_name, split_last_dot};
use jett_typecheck::ownership::{check_ownership, OwnershipChecker};
use jett_typecheck::reflect_types::primitive_by_name;
use jett_typecheck::resolution::{DefKind, ResolveResult, ScopeTable};
use jett_typecheck::span::{FileId, Span, STDLIB_FILE_ID_START};
use jett_typecheck::state::TypeChecker;
use jett_typecheck::table::Table;
use jett_typecheck::text::{contains_text, decimal_text, same_text, signed_decimal_text};
use jett_typecheck::types::{NamedType, StructShape, Type, TypeInterner};

fn sp(start: u32, end: u32) -> Span {
    Span::new(FileId::new(0), start, end)
}

fn ident(name: &str, start: u32) -> Ident {
    Ident { name: name.to_string(), span: sp(start, start + name.len() as u32) }
}

fn names() -> ResolveResult {
    ResolveResult {
        scope_table: ScopeTable::new(),
        resolutions: Table::new(),
        namespace_aliases: Table::new(),
        capabilities: vec![],
        view_facades: vec![],
        complexity: vec![],
    }
}

// Text and tables

#[test]
fn texts_are_compared_by_what_they_say() {
    assert_eq!(primitive_by_name("int64"), Some(Type::Int64));
    assert_eq!(primitive_by_name("uint64"), Some(Type::Uint64));
    assert_eq!(primitive_by_name("int65"), None);
    assert_eq!(primitive_by_name("int6"), None);
    assert_eq!(primitive_by_name(""), None);
    assert!(same_text("", ""));
    assert!(same_text("Größe", "Größe"));
    assert!(!same_text("Größe", "Größen"));
    assert!(!same_text("a", "b"));
    assert!(contains_text(&vec!["a".to_string(), "b".to_string()], &"b".to_string()));
    assert!(!contains_text(&vec!["a".to_string()], &"b".to_string()));
}

#[test]
fn numbers_are_written_in_decimal() {
    assert_eq!(decimal_text(0), "0");
    assert_eq!(decimal_text(120), "120");
    assert_eq!(signed_decimal_text(-45), "-45");
    assert_eq!(signed_decimal_text(i128::MIN), "-170141183460469231731687303715884105728");
}

#[test]
fn tables_hold_the_last_value() {
    let mut t: Table<String, usize> = Table::new();
    t.insert("a".to_string(), 1);
    t.insert("b".to_string(), 2);
    t.insert("a".to_string(), 3);
    assert_eq!(t.get(&"a".to_string()), Some(&3));
    assert_eq!(t.get(&"b".to_string()), Some(&2));
    assert_eq!(t.get(&"c".to_string()), None);
    assert_eq!(t.keys().len(), 2);
    t.remove(&"a".to_string());
    assert!(!t.contains(&"a".to_string()));
    assert!(t.contains(&"b".to_string()));
}

#[test]
fn names_are_put_in_their_namespace() {
    assert_eq!(canonical_name(&Some("models".to_string()), &"User".to_string()), "models.User");
    assert_eq!(canonical_name(&None, &"User".to_string()), "User");
    assert_eq!(split_last_dot("a.b.c"), Some(("a.b".to_string(), "c".to_string())));
    assert_eq!(split_last_dot("abc"), None);
}

#[test]
fn shipped_files_have_high_ids() {
    assert!(!FileId::new(0).is_stdlib());
    assert!(!FileId::new(STDLIB_FILE_ID_START - 1).is_stdlib());
    assert!(FileId::new(STDLIB_FILE_ID_START).is_stdlib());
}

// Types

#[test]
fn stored_types_are_found_again() {
    let mut types = TypeInterner::new();
    assert_eq!(types.resolve(TypeInterner::INT64), Type::Int64);
    let list = types.intern(Type::List(TypeInterner::INT64));
    assert_eq!(types.resolve(list), Type::List(TypeInterner::INT64));
    assert_eq!(types.intern(Type::List(TypeInterner::INT64)), list);
    assert_ne!(types.intern(Type::List(TypeInterner::STRING)), list);
    assert_eq!(types.resolve(9999), Type::Error);
    let f = types.intern_function(vec![TypeInterner::INT64], TypeInterner::BOOL);
    assert_eq!(types.intern_function(vec![TypeInterner::INT64], TypeInterner::BOOL), f);
    assert_eq!(types.name_of(f), "function(int64) returns bool");
}

#[test]
fn secrets_flow_one_way() {
    let mut types = TypeInterner::new();
    let impls = Table::new();
    let secret = types.intern(Type::Secret(TypeInterner::STRING));
    let secrets = types.intern(Type::List(secret));
    let strings = types.intern(Type::List(TypeInterner::STRING));
    assert!(types.types_compatible(&impls, secret, TypeInterner::STRING));
    assert!(!types.types_compatible(&impls, TypeInterner::STRING, secret));
    assert!(types.types_compatible(&impls, secrets, strings));
    assert!(!types.types_compatible(&impls, strings, secrets));
    assert!(types.type_contains_secret_data(secrets));
    assert!(!types.type_contains_secret_data(strings));
    assert_eq!(types.maybe_wrap_secret(TypeInterner::STRING, true), secret);
    assert_eq!(types.maybe_wrap_secret(secret, true), secret);
    assert_eq!(types.maybe_wrap_secret(TypeInterner::STRING, false), TypeInterner::STRING);
    assert_eq!(types.maybe_wrap_secret(TypeInterner::NOTHING, true), TypeInterner::NOTHING);
    let maybe_secret = types.intern(Type::Optional(secret));
    let maybe_string = types.intern(Type::Optional(TypeInterner::STRING));
    assert!(types.types_compatible(&impls, maybe_secret, maybe_string));
    assert!(!types.types_compatible(&impls, maybe_string, maybe_secret));
}

#[test]
fn basic_types_keep_their_ids() {
    let mut types = TypeInterner::new();
    for t in [Type::Int8, Type::String, Type::Bytes, Type::Nothing, Type::Error] {
        types.intern(Type::List(TypeInterner::BOOL));
        let id = types.intern(t);
        assert_eq!(types.resolve(id), t);
        assert!(id <= TypeInterner::ERROR);
    }
    assert_eq!(types.resolve(TypeInterner::STRING), Type::String);
    assert_eq!(types.resolve(TypeInterner::ERROR), Type::Error);
}

#[test]
fn the_error_type_fits_everywhere() {
    let types = TypeInterner::new();
    let impls = Table::new();
    assert!(types.types_compatible(&impls, TypeInterner::ERROR, TypeInterner::BOOL));
    assert!(types.types_compatible(&impls, TypeInterner::BOOL, TypeInterner::ERROR));
    assert!(types.types_compatible(&impls, TypeInterner::BOOL, TypeInterner::BOOL));
    assert!(!types.types_compatible(&impls, TypeInterner::BOOL, TypeInterner::INT64));
}

#[test]
fn refinements_go_down_step_by_step() {
    let mut types = TypeInterner::new();
    let impls = Table::new();
    let some_text = types.intern_refinement("NonEmpty".to_string(), TypeInterner::STRING);
    let password = types.intern_refinement("Password".to_string(), some_text);
    assert_eq!(types.fully_coarsened_type(password), TypeInterner::STRING);
    assert_eq!(types.fully_coarsened_type(TypeInterner::STRING), TypeInterner::STRING);
    assert!(types.can_coarsen_to(password, some_text));
    assert!(types.can_coarsen_to(password, TypeInterner::STRING));
    assert!(!types.can_coarsen_to(some_text, password));
    assert!(types.can_refine_from(TypeInterner::STRING, password));
    assert!(types.can_refine_from(some_text, password));
    assert!(!types.can_refine_from(password, some_text));
    assert!(!types.types_compatible(&impls, password, TypeInterner::STRING));
    assert!(types.types_compatible(&impls, password, password));
}

#[test]
fn literals_fit_in_their_range() {
    let types = TypeInterner::new();
    assert!(types.int_literal_fits_type(-128, TypeInterner::INT8));
    assert!(!types.int_literal_fits_type(-129, TypeInterner::INT8));
    assert!(types.int_literal_fits_type(65535, TypeInterner::UINT16));
    assert!(!types.int_literal_fits_type(65536, TypeInterner::UINT16));
    assert!(!types.int_literal_fits_type(1, TypeInterner::FLOAT64));
}

#[test]
fn json_finds_what_it_cannot_say() {
    let mut types = TypeInterner::new();
    let f = types.intern_function(vec![], TypeInterner::NOTHING);
    let odd = types.intern(Type::MapOf(TypeInterner::INT64, f));
    let id = types.add_struct(StructShape {
        name: "Hooks".to_string(),
        fields: vec![NamedType { name: "all".to_string(), ty: odd }],
        methods: vec![],
    });
    let hooks = types.intern(Type::Struct(id));
    assert_eq!(types.json_unsupported_data_types(hooks, false, true), vec!["function() returns nothing"]);
    assert_eq!(types.json_non_string_map_key_types(hooks), vec!["int64"]);
    assert_eq!(types.json_unsupported_data_types(TypeInterner::INT64, false, true), Vec::<String>::new());
}

#[test]
fn generic_structs_are_made_once() {
    let template = jett_typecheck::ast::StructDef {
        name: ident("Box", 0),
        type_params: vec![ident("T", 4)],
        fields: vec![jett_typecheck::ast::FieldDef {
            name: ident("value", 10),
            ty: TypeExpr::Named(ident("T", 17)),
            serialize_name: None,
            span: sp(10, 18),
        }],
        methods: vec![],
        exported: false,
        span: sp(0, 18),
    };
    let names = names();
    let mut checker = TypeChecker::new(&names);
    checker.generic_struct_templates.insert("Box".to_string(), &template);
    let args = vec![TypeExpr::Named(ident("int64", 20))];
    let first = checker.resolve_generic_type(&"Box".to_string(), &args, sp(20, 30));
    let again = checker.resolve_generic_type(&"Box".to_string(), &args, sp(40, 50));
    assert_eq!(first, again);
    assert_eq!(checker.interner.name_of(first), "Box[int64]");
    let other = checker.resolve_generic_type(
        &"Box".to_string(),
        &vec![TypeExpr::Named(ident("string", 60))],
        sp(60, 70),
    );
    assert_ne!(first, other);
    let structs = match checker.interner.resolve(first) {
        Type::Struct(id) => checker.interner.resolve_struct(id),
        t => panic!("expected a struct, got {t:?}"),
    };
    assert_eq!(structs.fields.len(), 1);
    assert_eq!(structs.fields[0].name, "value");
    assert_eq!(structs.fields[0].ty, TypeInterner::INT64);
    let stored = checker.interner.len();
    let once_more = checker.monomorphize_struct(&"Box".to_string(), &vec![TypeInterner::INT64], sp(80, 90));
    assert_eq!(once_more, first);
    assert_eq!(checker.interner.len(), stored);
    assert!(checker.diagnostics.is_empty());
}

#[test]
fn reports_stay_when_more_come() {
    let names = names();
    let mut checker = TypeChecker::new(&names);
    let unknown = TypeExpr::Named(ident("Nowhere", 0));
    assert_eq!(checker.resolve_type_expr(&unknown), TypeInterner::ERROR);
    assert_eq!(checker.resolve_type_expr(&TypeExpr::Named(ident("Elsewhere", 20))), TypeInterner::ERROR);
    let found: Vec<&str> = checker.diagnostics.iter().map(|d| d.args[0].as_str()).collect();
    assert_eq!(found, vec!["Nowhere", "Elsewhere"]);
    assert!(checker.diagnostics.iter().all(|d| d.code == ErrorCode::UnknownType));
}

// Facts

#[test]
fn facts_are_told_apart() {
    assert!(ReflectionParamFacts::new().is_empty());
    assert_eq!(StaticReflectionEnumValue::TypeKind("struct_type".to_string()).variant_name(), "struct_type");
    assert_eq!(StaticReflectionEnumValue::TypePrimitive("int64_type".to_string()).variant_name(), "int64_type");
    assert!(ReflectionBranchContext::TopLevel.permits_shape_reflection());
    assert!(ReflectionBranchContext::StaticReflectionBranch.permits_shape_reflection());
    assert!(!ReflectionBranchContext::RuntimeBranch.permits_shape_reflection());
}

#[test]
fn definitions_are_counted() {
    let mut scopes = ScopeTable::new();
    assert_eq!(scopes.new_def("a".to_string(), DefKind::Variable, sp(0, 1)).0, 0);
    assert_eq!(scopes.new_def("b".to_string(), DefKind::Function, sp(2, 3)).0, 1);
    assert_eq!(scopes.definitions[1].name, "b");
}

// Ownership

fn items_type() -> TypeExpr {
    TypeExpr::Generic(ident("list", 0), vec![TypeExpr::Named(ident("int64", 5))], sp(0, 11))
}

fn declare(name: &str, mutable: bool, at: u32) -> Stmt {
    Stmt::VarDecl(VarDecl {
        mutable,
        ty: items_type(),
        name: ident(name, at),
        value: Expr::ListConstruct(vec![], sp(at + 10, at + 12)),
        span: sp(at, at + 12),
    })
}

fn take(name: &str, at: u32) -> Stmt {
    Stmt::Expr(ExprStmt {
        expr: Expr::Call(
            Box::new(Expr::Ident(ident("take", at))),
            vec![CallArg { name: None, value: Expr::Ident(ident(name, at + 5)), span: sp(at + 5, at + 9) }],
            sp(at, at + 10),
        ),
        span: sp(at, at + 10),
    })
}

fn function(params: Vec<Param>, stmts: Vec<Stmt>) -> Module {
    Module {
        items: vec![Item::Function(FunctionDef {
            name: ident("main", 0),
            type_params: vec![],
            params,
            return_type: None,
            body: Block { stmts, span: sp(0, 1000) },
            exported: false,
            span: sp(0, 1000),
        })],
        span: sp(0, 1000),
    }
}

fn ownership_codes(stmts: Vec<Stmt>) -> Vec<ErrorCode> {
    let types = TypeInterner::new();
    check_ownership(&function(vec![], stmts), &types, &vec![]).iter().map(|d| d.code).collect()
}

fn block(stmts: Vec<Stmt>) -> Block {
    Block { stmts, span: sp(0, 1000) }
}

#[test]
fn a_second_move_points_at_the_first() {
    let types = TypeInterner::new();
    let facades = vec![];
    let module = function(vec![], vec![declare("items", false, 100), take("items", 200), take("items", 300)]);
    let reports = OwnershipChecker::new(&types, &facades).check_module(&module);
    assert_eq!(reports.len(), 1);
    assert_eq!(reports[0].code, ErrorCode::UseAfterMove);
    assert_eq!(reports[0].span, sp(305, 310));
    assert_eq!(reports[0].related, Some(sp(205, 209)));
}

#[test]
fn assignment_gives_ownership_back() {
    let assign = Stmt::Assign(AssignStmt {
        target: Expr::Ident(ident("items", 250)),
        value: Expr::ListConstruct(vec![], sp(260, 262)),
        span: sp(250, 262),
    });
    let stmts = vec![declare("items", true, 100), take("items", 200), assign, take("items", 300)];
    assert_eq!(ownership_codes(stmts), vec![]);
}

#[test]
fn a_branch_that_moves_moves_after_it() {
    let branch = |then: Vec<Stmt>| {
        Stmt::If(IfStmt {
            condition: Expr::BoolLiteral(true, sp(150, 154)),
            then_block: block(then),
            else_ifs: vec![],
            else_block: None,
            span: sp(150, 190),
        })
    };
    let moved = vec![declare("items", false, 100), branch(vec![take("items", 160)]), take("items", 300)];
    assert_eq!(ownership_codes(moved), vec![ErrorCode::UseAfterMove]);
    let left = Stmt::Return(ReturnStmt { value: None, span: sp(170, 176) });
    let returned = vec![declare("items", false, 100), branch(vec![take("items", 160), left]), take("items", 300)];
    assert_eq!(ownership_codes(returned), vec![]);
}

#[test]
fn code_behind_a_return_is_ignored() {
    let left = Stmt::Return(ReturnStmt { value: None, span: sp(250, 256) });
    let stmts = vec![declare("items", false, 100), take("items", 200), left, take("items", 300)];
    assert_eq!(ownership_codes(stmts), vec![]);
}

#[test]
fn a_block_ends_where_control_leaves_it() {
    let types = TypeInterner::new();
    let facades = vec![];
    let left = Stmt::Return(ReturnStmt { value: None, span: sp(250, 256) });
    let mut checker = OwnershipChecker::new(&types, &facades);
    checker.check_block(&block(vec![declare("items", false, 100), left, take("items", 300), take("items", 400)]));
    checker.check_block(&block(vec![take("items", 500)]));
    let nothing = Module { items: vec![], span: sp(0, 1000) };
    assert!(checker.check_module(&nothing).is_empty());
}

fn inline(stmts: Vec<Stmt>, at: u32) -> Stmt {
    let expr = Expr::InlineFn(vec![], None, block(stmts), sp(at, at + 50));
    Stmt::Expr(ExprStmt { expr, span: sp(at, at + 50) })
}

#[test]
fn lists_maps_texts_and_pipelines_consume_nothing() {
    let name = |at: u32| Expr::Ident(ident("items", at));
    let exprs = vec![
        Expr::ListConstruct(vec![name(210)], sp(209, 220)),
        Expr::MapConstruct(vec![(Expr::IntLiteral(1, sp(210, 211)), name(213))], sp(209, 220)),
        Expr::StringInterpolation(vec![StringPart::Expr(name(210))], sp(209, 220)),
        Expr::Pipeline(
            Box::new(name(210)),
            vec![PipelineStep {
                function: Expr::Ident(ident("take", 220)),
                extra_args: vec![CallArg { name: None, value: name(230), span: sp(230, 235) }],
                handle: None,
                span: sp(220, 236),
            }],
            sp(210, 236),
        ),
    ];
    for expr in exprs {
        let read = Stmt::Expr(ExprStmt { expr, span: sp(200, 240) });
        assert_eq!(ownership_codes(vec![declare("items", false, 100), read, take("items", 300)]), vec![]);
    }
}

#[test]
fn reports_of_modules_add_up() {
    let spans = |m: &Module, types: &TypeInterner| {
        check_ownership(m, types, &vec![]).iter().map(|d| (d.code, d.span)).collect::<Vec<_>>()
    };
    let twice = |at: u32| function(vec![], vec![declare("items", false, at), take("items", at + 20), take("items", at + 40)]);
    let types = TypeInterner::new();
    let mut alone = spans(&twice(100), &types);
    alone.extend(spans(&twice(500), &types));
    let mut both = twice(100);
    both.items.extend(twice(500).items);
    assert_eq!(alone.len(), 2);
    assert_eq!(spans(&both, &types), alone);
    let mut more = TypeInterner::new();
    let list = more.intern(Type::List(TypeInterner::INT64));
    more.intern(Type::Secret(list));
    assert_eq!(spans(&both, &more), alone);
}

#[test]
fn inline_functions_consume_nothing_outside() {
    let stmts = vec![declare("items", false, 100), inline(vec![take("items", 210)], 200), take("items", 300)];
    assert_eq!(ownership_codes(stmts), vec![]);
    let stmts = vec![
        declare("items", false, 100),
        inline(vec![take("items", 210)], 200),
        take("items", 300),
        take("items", 400),
    ];
    assert_eq!(ownership_codes(stmts), vec![ErrorCode::UseAfterMove]);
}

#[test]
fn inline_functions_are_looked_at() {
    let stmts = vec![declare("items", false, 100), take("items", 200), inline(vec![take("items", 310)], 300)];
    assert_eq!(ownership_codes(stmts), vec![ErrorCode::UseAfterMove]);
    let stmts = vec![declare("items", false, 100), inline(vec![take("items", 210), take("items", 230)], 200)];
    assert_eq!(ownership_codes(stmts), vec![ErrorCode::UseAfterMove]);
    let stmts = vec![inline(vec![declare("items", false, 210)], 200), take("items", 300), take("items", 400)];
    assert_eq!(ownership_codes(stmts), vec![]);
}

#[test]
fn reports_on_complexity_stand_between() {
    let mut names = names();
    names.complexity = vec![Diagnostic::warning(ErrorCode::TooComplex, sp(0, 4), vec!["main".to_string()])];
    let wrong = Stmt::VarDecl(VarDecl {
        mutable: false,
        ty: TypeExpr::Named(ident("bool", 50)),
        name: ident("flag", 55),
        value: Expr::IntLiteral(1, sp(62, 63)),
        span: sp(50, 63),
    });
    let module = function(
        vec![],
        vec![declare("items", false, 100), wrong, take("items", 200), take("items", 300)],
    );
    let reports = check(&module, &names).diagnostics;
    let codes: Vec<ErrorCode> = reports.iter().map(|d| d.code).collect();
    let between = codes.iter().position(|c| *c == ErrorCode::TooComplex).expect("the given report");
    assert!(codes[..between].contains(&ErrorCode::VarDeclTypeMismatch));
    assert_eq!(codes[between..], [ErrorCode::TooComplex, ErrorCode::UseAfterMove]);
    assert_eq!(reports[between].severity, Severity::Warning);
    assert_eq!(reports[between].args, vec!["main".to_string()]);
    assert_eq!(reports[between].message(), "too complex `main`");
}

#[test]
fn collection_builtins_view_their_first_argument() {
    let length = |at: u32| {
        Stmt::Expr(ExprStmt {
            expr: Expr::Call(
                Box::new(Expr::FieldAccess(
                    Box::new(Expr::Ident(ident("list", at))),
                    ident("length", at + 5),
                    sp(at, at + 11),
                )),
                vec![CallArg {
                    name: None,
                    value: Expr::Ident(ident("items", at + 12)),
                    span: sp(at + 12, at + 17),
                }],
                sp(at, at + 18),
            ),
            span: sp(at, at + 18),
        })
    };
    let stmts = vec![declare("items", false, 100), length(200), length(300), take("items", 400)];
    assert_eq!(ownership_codes(stmts), vec![]);
}

#[test]
fn named_calls_view_their_first_argument() {
    let types = TypeInterner::new();
    let module = || function(vec![], vec![declare("items", false, 100), take("items", 200), take("items", 300)]);
    assert_eq!(check_ownership(&module(), &types, &vec![]).len(), 1);
    assert_eq!(check_ownership(&module(), &types, &vec!["take".to_string()]).len(), 0);
}
