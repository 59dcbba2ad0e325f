//! The checker on source text. A small reader of the language stands here, with a
//! resolver of its names.
use jett_typecheck::ast::{
    ActorDef, ActorStateField, AssertStmt, AssignStmt, BinOp, BitfieldDef, BitfieldField, BitfieldFieldKind, Block,
    CallArg, ComptimeTypeBindStmt, EnumDef, EnumVariantDef, Expr, ExprStmt, FieldDef, ForStmt, FunctionDecl, FunctionDef, Ident, IfStmt,
    ImplementBlock, InterfaceDecl, Item, MachineDef, MachineStateDef, MachineTransitionDef, MatchArm, MatchStmt,
    Module, MutualBlock, NamespaceDecl, Param, Pattern, PipelineHandle, PipelineStep, PropertyBlock, PropertyGiven,
    ReceiveHandler, RespondStmt, ReturnStmt, Stmt, StringPart, StructDef, TraceStmt, TypeAlias, TypeExpr, UnaryOp,
    UseStmt, VarDecl, VerifyBlock, WhileStmt,
};
use jett_typecheck::check_module::{check, CheckResult};
use jett_typecheck::diagnostics::{Diagnostic, ErrorCode, Severity};
use jett_typecheck::resolution::{DefId, DefKind, ResolveResult, ScopeTable};
use jett_typecheck::span::{FileId, Span, STDLIB_FILE_ID_START};
use jett_typecheck::state::TypeChecker;
use jett_typecheck::table::Table;
use std::collections::HashMap;

// Words

#[derive(Clone, Debug, PartialEq)]
enum Word {
    Name(String),
    Int(i128),
    Float(String),
    Text(String),
    Mark(&'static str),
    Line,
    Indent,
    Dedent,
    End,
}

#[derive(Clone, Debug)]
struct Token {
    word: Word,
    start: u32,
    end: u32,
}

const MARKS: [&str; 22] = [
    "|>", "==", "!=", "<=", ">=", "&&", "||", "(", ")", "[", "]", ":", ",", ".", "=", "<", ">", "+", "-", "*", "/", "%",
];

fn words_of_line(line: &str, base: u32, out: &mut Vec<Token>) {
    let chars: Vec<char> = line.chars().collect();
    let mut i = 0;
    while i < chars.len() {
        let c = chars[i];
        let start = base + i as u32;
        if c == ' ' {
            i += 1;
            continue;
        }
        if c == '#' {
            return;
        }
        let begin = i;
        let word = if c.is_alphabetic() || c == '_' {
            while i < chars.len() && (chars[i].is_alphanumeric() || chars[i] == '_') {
                i += 1;
            }
            Word::Name(chars[begin..i].iter().collect())
        } else if c.is_ascii_digit() {
            let mut float = false;
            while i < chars.len() && (chars[i].is_ascii_digit() || chars[i] == '.') {
                float = float || chars[i] == '.';
                i += 1;
            }
            let digits: String = chars[begin..i].iter().collect();
            if float {
                Word::Float(digits)
            } else {
                Word::Int(digits.parse().unwrap())
            }
        } else if c == '"' {
            i += 1;
            while chars[i] != '"' {
                i += 1;
            }
            i += 1;
            Word::Text(chars[begin + 1..i - 1].iter().collect())
        } else {
            let rest: String = chars[i..].iter().collect();
            let mark = MARKS
                .iter()
                .find(|m| rest.starts_with(**m))
                .unwrap_or_else(|| panic!("unexpected character in {line}"));
            i += mark.len();
            Word::Mark(mark)
        };
        out.push(Token { word, start, end: base + i as u32 });
    }
}

fn words(source: &str) -> Vec<Token> {
    let mut out = vec![];
    let mut indents = vec![0usize];
    let mut base = 0u32;
    for line in source.split('\n') {
        let trimmed = line.trim_start();
        if !trimmed.is_empty() {
            let depth = line.len() - trimmed.len();
            if depth > *indents.last().unwrap() {
                indents.push(depth);
                out.push(Token { word: Word::Indent, start: base, end: base });
            }
            while depth < *indents.last().unwrap() {
                indents.pop();
                out.push(Token { word: Word::Dedent, start: base, end: base });
            }
            words_of_line(line, base, &mut out);
            let end = base + line.len() as u32;
            out.push(Token { word: Word::Line, start: end, end });
        }
        base += line.len() as u32 + 1;
    }
    while indents.len() > 1 {
        indents.pop();
        out.push(Token { word: Word::Dedent, start: base, end: base });
    }
    out.push(Token { word: Word::End, start: base, end: base });
    out
}

// Sentences

struct Reader {
    tokens: Vec<Token>,
    at: usize,
    file: FileId,
}

impl Reader {
    fn word(&self) -> &Word {
        &self.tokens[self.at].word
    }

    fn word_after(&self, n: usize) -> &Word {
        let i = (self.at + n).min(self.tokens.len() - 1);
        &self.tokens[i].word
    }

    fn start(&self) -> u32 {
        self.tokens[self.at].start
    }

    fn span_from(&self, start: u32) -> Span {
        let last = if self.at == 0 { 0 } else { self.at - 1 };
        Span::new(self.file, start, self.tokens[last].end.max(start))
    }

    fn next(&mut self) -> Token {
        let t = self.tokens[self.at].clone();
        if self.at + 1 < self.tokens.len() {
            self.at += 1;
        }
        t
    }

    fn is_mark(&self, m: &str) -> bool {
        matches!(self.word(), Word::Mark(x) if *x == m)
    }

    fn is_name(&self, n: &str) -> bool {
        matches!(self.word(), Word::Name(x) if x == n)
    }

    fn eat_mark(&mut self, m: &str) -> bool {
        let found = self.is_mark(m);
        if found {
            self.next();
        }
        found
    }

    fn eat_name(&mut self, n: &str) -> bool {
        let found = self.is_name(n);
        if found {
            self.next();
        }
        found
    }

    fn mark(&mut self, m: &str) {
        assert!(self.eat_mark(m), "expected {m}, found {:?}", self.tokens[self.at]);
    }

    fn name(&mut self, n: &str) {
        assert!(self.eat_name(n), "expected {n}, found {:?}", self.tokens[self.at]);
    }

    fn line(&mut self) {
        if *self.word() == Word::Line {
            self.next();
        }
    }

    fn ident(&mut self) -> Ident {
        let t = self.next();
        match t.word {
            Word::Name(name) => Ident { name, span: Span::new(self.file, t.start, t.end) },
            _ => panic!("expected a name, found {t:?}"),
        }
    }

    fn dotted(&mut self) -> Ident {
        let mut r = self.ident();
        while self.is_mark(".") {
            self.next();
            let part = self.ident();
            r = Ident {
                name: format!("{}.{}", r.name, part.name),
                span: Span::new(self.file, r.span.start, part.span.end),
            };
        }
        r
    }

    fn ty(&mut self) -> TypeExpr {
        let start = self.start();
        if self.eat_name("view") {
            let inner = self.ty();
            return TypeExpr::View(Box::new(inner), self.span_from(start));
        }
        if self.is_name("function") {
            self.next();
            self.mark("(");
            let mut params = vec![];
            while !self.eat_mark(")") {
                params.push(self.ty());
                self.eat_mark(",");
            }
            self.name("returns");
            let ret = self.ty();
            return TypeExpr::Function(params, Box::new(ret), self.span_from(start));
        }
        let name = self.dotted();
        let mut t = if self.eat_mark("[") {
            let mut args = vec![];
            while !self.eat_mark("]") {
                args.push(self.ty());
                self.eat_mark(",");
            }
            TypeExpr::Generic(name, args, self.span_from(start))
        } else {
            TypeExpr::Named(name)
        };
        if self.is_name("at") {
            self.next();
            let state = self.ident();
            t = TypeExpr::StateQualified(Box::new(t), state, self.span_from(start));
        }
        t
    }

    // Expressions

    fn expr(&mut self) -> Expr {
        let start = self.start();
        let mut e = self.binary(0);
        if self.is_mark("|>") {
            let mut steps = vec![];
            while self.eat_mark("|>") {
                steps.push(self.step());
            }
            e = Expr::Pipeline(Box::new(e), steps, self.span_from(start));
        }
        if self.is_name("handle") {
            self.next();
            let name = if self.is_mark(":") { None } else { Some(self.ident()) };
            let body = self.block();
            e = Expr::Handle(Box::new(e), name, body, self.span_from(start));
        }
        e
    }

    fn step(&mut self) -> PipelineStep {
        let start = self.start();
        let mut function = Expr::Ident(self.ident());
        while self.eat_mark(".") {
            let field = self.ident();
            function = Expr::FieldAccess(Box::new(function), field, self.span_from(start));
        }
        if self.is_mark("[") {
            let args = self.type_args();
            function = Expr::GenericCall(Box::new(function), args, vec![], self.span_from(start));
        }
        let extra_args = if self.is_mark("(") { self.args() } else { vec![] };
        let span = self.span_from(start);
        let handle = if self.is_name("handle") {
            let begin = self.start();
            self.next();
            let error_name = if self.is_mark(":") { None } else { Some(self.ident()) };
            let body = self.block();
            Some(PipelineHandle { error_name, body, span: self.span_from(begin) })
        } else {
            None
        };
        PipelineStep { function, extra_args, handle, span }
    }

    fn operator(&self, level: usize) -> Option<BinOp> {
        let Word::Mark(m) = self.word() else {
            return None;
        };
        let (l, op) = match *m {
            "||" => (0, BinOp::Or),
            "&&" => (1, BinOp::And),
            "==" => (2, BinOp::Eq),
            "!=" => (2, BinOp::NotEq),
            "<" => (2, BinOp::Lt),
            ">" => (2, BinOp::Gt),
            "<=" => (2, BinOp::LtEq),
            ">=" => (2, BinOp::GtEq),
            "+" => (3, BinOp::Add),
            "-" => (3, BinOp::Sub),
            "*" => (4, BinOp::Mul),
            "/" => (4, BinOp::Div),
            "%" => (4, BinOp::Modulo),
            _ => return None,
        };
        if l == level {
            Some(op)
        } else {
            None
        }
    }

    fn binary(&mut self, level: usize) -> Expr {
        if level == 5 {
            return self.unary();
        }
        let start = self.start();
        let mut left = self.binary(level + 1);
        while let Some(op) = self.operator(level) {
            self.next();
            let right = self.binary(level + 1);
            left = Expr::Binary(Box::new(left), op, Box::new(right), self.span_from(start));
        }
        left
    }

    fn unary(&mut self) -> Expr {
        let start = self.start();
        if self.eat_mark("-") {
            let e = self.unary();
            return Expr::Unary(UnaryOp::Neg, Box::new(e), self.span_from(start));
        }
        let Word::Name(n) = self.word().clone() else {
            return self.postfix();
        };
        let prefixes = [
            "not", "view", "declassify", "coarsen", "default", "clone", "run", "join", "cancel", "spawn", "send", "ask",
        ];
        if !prefixes.contains(&n.as_str()) || matches!(self.word_after(1), Word::Mark("(") | Word::Mark(".")) {
            return self.postfix();
        }
        self.next();
        let e = Box::new(if n == "default" { self.expr() } else { self.unary() });
        let span = self.span_from(start);
        match n.as_str() {
            "not" => Expr::Unary(UnaryOp::Not, e, span),
            "view" => Expr::View(e, span),
            "declassify" => Expr::Declassify(e, span),
            "coarsen" => Expr::Coarsen(e, span),
            "default" => Expr::Default(e, span),
            "clone" => Expr::Clone(e, span),
            "run" => Expr::Run(e, span),
            "join" => Expr::Join(e, span),
            "cancel" => Expr::Cancel(e, span),
            "spawn" => Expr::Spawn(e, span),
            "send" => Expr::Send(e, span),
            _ => Expr::Ask(e, span),
        }
    }

    fn args(&mut self) -> Vec<CallArg> {
        self.mark("(");
        let mut args = vec![];
        while !self.eat_mark(")") {
            let start = self.start();
            let named = matches!(self.word(), Word::Name(_)) && *self.word_after(1) == Word::Mark(":");
            let name = if named {
                let n = self.ident();
                self.mark(":");
                Some(n)
            } else {
                None
            };
            let value = self.expr();
            args.push(CallArg { name, value, span: self.span_from(start) });
            self.eat_mark(",");
        }
        args
    }

    fn type_args(&mut self) -> Vec<TypeExpr> {
        self.mark("[");
        let mut args = vec![];
        while !self.eat_mark("]") {
            args.push(self.ty());
            self.eat_mark(",");
        }
        args
    }

    fn postfix(&mut self) -> Expr {
        let start = self.start();
        let mut e = self.primary();
        loop {
            if self.eat_mark(".") {
                let field = self.ident();
                e = Expr::FieldAccess(Box::new(e), field, self.span_from(start));
            } else if self.is_mark("[") {
                let types = self.type_args();
                let args = self.args();
                e = Expr::GenericCall(Box::new(e), types, args, self.span_from(start));
            } else if self.is_mark("(") {
                let args = self.args();
                let span = self.span_from(start);
                e = match &e {
                    Expr::Ident(i) if i.name == "list" => {
                        Expr::ListConstruct(args.into_iter().map(|a| a.value).collect(), span)
                    }
                    Expr::Ident(i) if ["some", "ok", "fail"].contains(&i.name.as_str()) => {
                        let inner = Box::new(args.into_iter().next().unwrap().value);
                        match i.name.as_str() {
                            "some" => Expr::SomeOf(inner, span),
                            "ok" => Expr::OkOf(inner, span),
                            _ => Expr::FailOf(inner, span),
                        }
                    }
                    _ => Expr::Call(Box::new(e), args, span),
                };
            } else if self.is_name("at") {
                self.next();
                let state = self.ident();
                e = Expr::At(Box::new(e), state, self.span_from(start));
            } else {
                return e;
            }
        }
    }

    fn primary(&mut self) -> Expr {
        let t = self.next();
        let span = Span::new(self.file, t.start, t.end);
        match t.word {
            Word::Int(i) => Expr::IntLiteral(i, span),
            Word::Float(f) => Expr::FloatLiteral(f, span),
            Word::Text(s) => self.text(s, t.start, span),
            Word::Mark("(") => {
                let e = self.expr();
                self.mark(")");
                Expr::Paren(Box::new(e), self.span_from(t.start))
            }
            Word::Name(n) => match n.as_str() {
                "true" => Expr::BoolLiteral(true, span),
                "false" => Expr::BoolLiteral(false, span),
                "nothing" => Expr::Nothing(span),
                "none" => Expr::NoneOf(span),
                "function" => {
                    let params = self.params();
                    let ret = if self.eat_name("returns") { Some(self.ty()) } else { None };
                    let body = self.block();
                    Expr::InlineFn(params, ret, body, self.span_from(t.start))
                }
                _ => Expr::Ident(Ident { name: n, span }),
            },
            _ => panic!("expected an expression, found {t:?}"),
        }
    }

    fn text(&self, s: String, start: u32, span: Span) -> Expr {
        if !s.contains('{') {
            return Expr::StringLiteral(s, span);
        }
        let mut parts = vec![];
        let mut rest = s.as_str();
        let mut base = start + 1;
        while let Some(open) = rest.find('{') {
            let close = rest.find('}').unwrap();
            parts.push(StringPart::Literal(rest[..open].to_string()));
            let mut tokens = vec![];
            words_of_line(&rest[open + 1..close], base + open as u32 + 1, &mut tokens);
            let end = base + close as u32;
            tokens.push(Token { word: Word::End, start: end, end });
            let mut inner = Reader { tokens, at: 0, file: self.file };
            parts.push(StringPart::Expr(inner.expr()));
            rest = &rest[close + 1..];
            base = end + 1;
        }
        parts.push(StringPart::Literal(rest.to_string()));
        Expr::StringInterpolation(parts, span)
    }

    // Statements

    fn block(&mut self) -> Block {
        self.mark(":");
        self.line();
        let start = self.start();
        assert_eq!(*self.word(), Word::Indent);
        self.next();
        let mut stmts = vec![];
        while *self.word() != Word::Dedent {
            stmts.push(self.stmt());
        }
        let end = self.start();
        self.next();
        Block { stmts, span: Span::new(self.file, start, end) }
    }

    fn var_decl(&mut self) -> Option<VarDecl> {
        let mark = self.at;
        let start = self.start();
        let mutable = self.eat_name("mutable");
        if !matches!(self.word(), Word::Name(_)) || !self.looks_like_decl() {
            self.at = mark;
            return None;
        }
        let ty = self.ty();
        let name = self.ident();
        self.mark("=");
        let value = self.expr();
        self.line();
        Some(VarDecl { mutable, ty, name, value, span: self.span_from(start) })
    }

    /// A type, a name and `=` stand here.
    fn looks_like_decl(&self) -> bool {
        let mut i = self.at;
        let mut depth = 0;
        let mut last_end = false;
        loop {
            match &self.tokens[i].word {
                Word::Mark("[") => {
                    depth += 1;
                    last_end = false;
                }
                Word::Mark("]") => {
                    depth -= 1;
                    last_end = true;
                }
                Word::Mark(".") | Word::Mark(",") => last_end = false,
                Word::Name(n) if n == "at" && depth == 0 => last_end = false,
                Word::Name(_) => {
                    if last_end && depth == 0 {
                        return self.tokens[i + 1].word == Word::Mark("=");
                    }
                    last_end = true;
                }
                _ => return false,
            }
            i += 1;
        }
    }

    fn stmt(&mut self) -> Stmt {
        let start = self.start();
        if let Word::Name(n) = self.word().clone() {
            match n.as_str() {
                "return" => {
                    self.next();
                    let value = if *self.word() == Word::Line { None } else { Some(self.expr()) };
                    self.line();
                    return Stmt::Return(ReturnStmt { value, span: self.span_from(start) });
                }
                "if" => {
                    self.next();
                    let condition = self.expr();
                    let then_block = self.block();
                    let mut else_ifs = vec![];
                    let mut else_block = None;
                    while self.is_name("else") {
                        self.next();
                        if self.eat_name("if") {
                            let c = self.expr();
                            else_ifs.push((c, self.block()));
                        } else {
                            else_block = Some(self.block());
                        }
                    }
                    let span = self.span_from(start);
                    return Stmt::If(IfStmt { condition, then_block, else_ifs, else_block, span });
                }
                "while" => {
                    self.next();
                    let condition = self.expr();
                    let body = self.block();
                    return Stmt::While(WhileStmt { condition, body, span: self.span_from(start) });
                }
                "for" => {
                    self.next();
                    let view = self.eat_name("view");
                    let variable = self.ident();
                    let value_variable = if self.eat_mark(",") { Some(self.ident()) } else { None };
                    self.name("in");
                    let iterable = self.expr();
                    let body = self.block();
                    let span = self.span_from(start);
                    return Stmt::For(ForStmt { variable, value_variable, view, iterable, body, span });
                }
                "match" => return self.match_stmt(),
                "use" => {
                    self.next();
                    let path = self.dotted();
                    let alias = if self.eat_name("as") { Some(self.ident()) } else { None };
                    self.line();
                    return Stmt::Use(UseStmt { path, alias, span: self.span_from(start) });
                }
                "trace" => {
                    self.next();
                    let name = self.ident();
                    self.line();
                    return Stmt::Trace(TraceStmt { name, span: self.span_from(start) });
                }
                "assert" => {
                    self.next();
                    let condition = self.expr();
                    let message = if self.eat_mark(",") { Some(self.expr()) } else { None };
                    self.line();
                    return Stmt::Assert(AssertStmt { condition, message, span: self.span_from(start) });
                }
                "comptime" => {
                    self.next();
                    self.name("type");
                    let name = self.ident();
                    self.mark("=");
                    let value = self.expr();
                    let body = self.block();
                    let span = self.span_from(start);
                    return Stmt::ComptimeTypeBind(ComptimeTypeBindStmt { name, value, body, span });
                }
                "respond" => {
                    self.next();
                    let value = self.expr();
                    self.line();
                    return Stmt::Respond(RespondStmt { value, span: self.span_from(start) });
                }
                _ => {}
            }
        }
        if let Some(decl) = self.var_decl() {
            return Stmt::VarDecl(decl);
        }
        let e = self.expr();
        if self.eat_mark("=") {
            let value = self.expr();
            self.line();
            return Stmt::Assign(AssignStmt { target: e, value, span: self.span_from(start) });
        }
        let span = self.span_from(start);
        self.line();
        Stmt::Expr(ExprStmt { expr: e, span })
    }

    fn match_stmt(&mut self) -> Stmt {
        let start = self.start();
        self.next();
        let expr = self.expr();
        self.mark(":");
        self.line();
        self.next();
        let mut arms = vec![];
        while *self.word() != Word::Dedent {
            let begin = self.start();
            let name = self.ident();
            let pattern = if self.eat_mark("(") {
                let mut bound = vec![];
                while !self.eat_mark(")") {
                    bound.push(self.ident());
                    self.eat_mark(",");
                }
                Pattern::Variant(name, bound)
            } else {
                Pattern::Ident(name)
            };
            let body = self.block();
            arms.push(MatchArm { pattern, body, span: self.span_from(begin) });
        }
        self.next();
        Stmt::Match(MatchStmt { expr, arms, span: self.span_from(start) })
    }

    // Items

    fn params(&mut self) -> Vec<Param> {
        self.mark("(");
        let mut params = vec![];
        while !self.eat_mark(")") {
            let start = self.start();
            let view = self.eat_name("view");
            let mutable = self.eat_name("mutable");
            let name = self.ident();
            self.mark(":");
            let ty = self.ty();
            params.push(Param { view, mutable, name, ty, span: self.span_from(start) });
            self.eat_mark(",");
        }
        params
    }

    fn type_params(&mut self) -> Vec<Ident> {
        let mut names = vec![];
        if self.eat_mark("[") {
            while !self.eat_mark("]") {
                names.push(self.ident());
                self.eat_mark(",");
            }
        }
        names
    }

    fn header(&mut self) -> FunctionDecl {
        let start = self.start();
        self.name("function");
        let name = self.ident();
        let type_params = self.type_params();
        let params = self.params();
        let return_type = if self.eat_name("returns") { Some(self.ty()) } else { None };
        FunctionDecl { name, type_params, params, return_type, exported: false, span: self.span_from(start) }
    }

    fn function(&mut self) -> FunctionDef {
        let start = self.start();
        let h = self.header();
        let body = self.block();
        FunctionDef {
            name: h.name,
            type_params: h.type_params,
            params: h.params,
            return_type: h.return_type,
            body,
            exported: false,
            span: self.span_from(start),
        }
    }

    fn open(&mut self) {
        self.mark(":");
        self.line();
        assert_eq!(*self.word(), Word::Indent);
        self.next();
    }

    fn closed(&mut self) -> bool {
        let found = *self.word() == Word::Dedent;
        if found {
            self.next();
        }
        found
    }

    fn field(&mut self) -> FieldDef {
        let start = self.start();
        let name = self.ident();
        self.mark(":");
        let ty = self.ty();
        let serialize_name = if self.eat_name("as") {
            match self.next().word {
                Word::Text(s) => Some(s),
                other => panic!("expected text, found {other:?}"),
            }
        } else {
            None
        };
        FieldDef { name, ty, serialize_name, span: self.span_from(start) }
    }

    fn fields(&mut self) -> Vec<FieldDef> {
        let mut fields = vec![];
        if self.eat_mark("(") {
            while !self.eat_mark(")") {
                fields.push(self.field());
                self.eat_mark(",");
            }
        }
        fields
    }

    fn item(&mut self) -> Item {
        let start = self.start();
        let exported = self.eat_name("export");
        let root_exported = self.eat_name("root");
        let Word::Name(word) = self.word().clone() else {
            panic!("expected an item, found {:?}", self.tokens[self.at]);
        };
        match word.as_str() {
            "namespace" => {
                self.next();
                let name = self.dotted();
                self.line();
                Item::Namespace(NamespaceDecl { name, span: self.span_from(start) })
            }
            "function" => {
                let mut f = self.function();
                f.exported = exported;
                Item::Function(f)
            }
            "mutual" => {
                self.next();
                self.open();
                let mut declarations = vec![];
                while !self.closed() {
                    declarations.push(self.header());
                    self.line();
                }
                Item::Mutual(MutualBlock { declarations, span: self.span_from(start) })
            }
            "interface" => {
                self.next();
                let name = self.ident();
                self.open();
                let mut methods = vec![];
                while !self.closed() {
                    methods.push(self.header());
                    self.line();
                }
                Item::Interface(InterfaceDecl { name, methods, span: self.span_from(start) })
            }
            "implement" => {
                self.next();
                let interface_name = self.dotted();
                self.name("for");
                let for_type = self.ty();
                self.open();
                let mut methods = vec![];
                while !self.closed() {
                    methods.push(self.function());
                }
                Item::Implement(ImplementBlock { interface_name, for_type, methods, span: self.span_from(start) })
            }
            "struct" => {
                self.next();
                let name = self.ident();
                let type_params = self.type_params();
                self.open();
                let mut fields = vec![];
                let mut methods = vec![];
                while !self.closed() {
                    if self.is_name("function") {
                        methods.push(self.function());
                    } else {
                        fields.push(self.field());
                        self.line();
                    }
                }
                Item::Struct(StructDef { name, type_params, fields, methods, exported, span: self.span_from(start) })
            }
            "bitfield" => self.bitfield(start),
            "enum" => {
                self.next();
                let name = self.ident();
                self.open();
                let mut variants = vec![];
                while !self.closed() {
                    let begin = self.start();
                    let name = self.ident();
                    let fields = self.fields();
                    let discriminant = if self.eat_mark("=") {
                        let negative = self.eat_mark("-");
                        match self.next().word {
                            Word::Int(i) => Some(if negative { -i as i64 } else { i as i64 }),
                            other => panic!("expected a number, found {other:?}"),
                        }
                    } else {
                        None
                    };
                    variants.push(EnumVariantDef { name, fields, discriminant, span: self.span_from(begin) });
                    self.line();
                }
                Item::Enum(EnumDef { name, variants, span: self.span_from(start) })
            }
            "machine" => self.machine(start),
            "actor" => self.actor(start),
            "verify" => {
                self.next();
                let name = self.ident();
                let body = self.block();
                Item::Verify(VerifyBlock { name, body, span: self.span_from(start) })
            }
            "property" => {
                self.next();
                let name = self.ident();
                self.mark("(");
                let mut givens = vec![];
                while !self.eat_mark(")") {
                    let begin = self.start();
                    let name = self.ident();
                    self.mark(":");
                    let ty = self.ty();
                    givens.push(PropertyGiven { name, ty, span: self.span_from(begin) });
                    self.eat_mark(",");
                }
                let body = self.block();
                Item::Property(PropertyBlock { name, givens, body, span: self.span_from(start) })
            }
            "type" => {
                self.next();
                let name = self.ident();
                self.mark("=");
                let base_type = self.ty();
                let constraint = if self.eat_name("where") { Some(self.expr()) } else { None };
                self.line();
                Item::TypeAlias(TypeAlias { name, base_type, constraint, root_exported, span: self.span_from(start) })
            }
            _ => Item::VarDecl(self.var_decl().expect("a declaration")),
        }
    }

    fn bitfield(&mut self, start: u32) -> Item {
        self.next();
        let network_order = self.eat_name("network");
        let name = self.ident();
        self.open();
        let mut fields = vec![];
        while !self.closed() {
            let begin = self.start();
            let name = self.ident();
            self.mark(":");
            let kind = if let Word::Int(width) = *self.word() {
                self.next();
                assert!(self.eat_name("bit") || self.eat_name("bits"));
                let as_type = if self.eat_name("as") { Some(self.ty()) } else { None };
                BitfieldFieldKind::Bits { width: width as u16, as_type }
            } else {
                BitfieldFieldKind::Payload(self.ty())
            };
            fields.push(BitfieldField { name, kind, span: self.span_from(begin) });
            self.line();
        }
        Item::Bitfield(BitfieldDef { name, network_order, fields, span: self.span_from(start) })
    }

    fn machine(&mut self, start: u32) -> Item {
        self.next();
        let name = self.ident();
        self.open();
        let mut states = vec![];
        let mut transitions = vec![];
        while !self.closed() {
            let begin = self.start();
            if self.eat_name("state") {
                let name = self.ident();
                let fields = self.fields();
                states.push(MachineStateDef { name, fields, span: self.span_from(begin) });
            } else {
                let from = self.ident();
                self.name("to");
                let to = self.ident();
                transitions.push(MachineTransitionDef { from, to, span: self.span_from(begin) });
            }
            self.line();
        }
        Item::Machine(MachineDef { name, states, transitions, span: self.span_from(start) })
    }

    fn actor(&mut self, start: u32) -> Item {
        self.next();
        let name = self.ident();
        let capability_params = if self.is_mark("(") { self.params() } else { vec![] };
        self.open();
        let mut state_fields = vec![];
        let mut handlers = vec![];
        while !self.closed() {
            let begin = self.start();
            if self.eat_name("receive") {
                let name = self.ident();
                let params = self.params();
                let responds = if self.eat_name("responds") { Some(self.ty()) } else { None };
                let body = self.block();
                handlers.push(ReceiveHandler { name, params, responds, body, span: self.span_from(begin) });
            } else {
                let decl = self.var_decl().expect("a state field");
                state_fields.push(ActorStateField {
                    name: decl.name,
                    ty: decl.ty,
                    value: decl.value,
                    span: decl.span,
                });
            }
        }
        Item::Actor(ActorDef { name, capability_params, state_fields, handlers, span: self.span_from(start) })
    }
}

fn parse(source: &str, file: FileId) -> Module {
    let mut reader = Reader { tokens: words(source), at: 0, file };
    let mut items = vec![];
    while *reader.word() != Word::End {
        items.push(reader.item());
    }
    Module { items, span: Span::new(file, 0, source.len() as u32) }
}

// Names

struct Resolver {
    scope_table: ScopeTable,
    resolutions: Table<Span, DefId>,
    namespace_aliases: Table<DefId, String>,
    globals: HashMap<String, DefId>,
    locals: Vec<HashMap<String, DefId>>,
    namespace: Option<String>,
}

impl Resolver {
    fn full(&self, name: &str) -> String {
        match &self.namespace {
            Some(ns) => format!("{ns}.{name}"),
            None => name.to_string(),
        }
    }

    fn define(&mut self, name: String, kind: DefKind, span: Span) -> DefId {
        let id = self.scope_table.new_def(name, kind, span);
        self.resolutions.insert(span, id);
        id
    }

    fn global(&mut self, ident: &Ident, kind: DefKind) {
        let full = self.full(&ident.name);
        let id = self.define(full.clone(), kind, ident.span);
        self.globals.insert(full, id);
    }

    fn local(&mut self, ident: &Ident, kind: DefKind) {
        let id = self.define(ident.name.clone(), kind, ident.span);
        self.locals.last_mut().unwrap().insert(ident.name.clone(), id);
    }

    fn find(&self, name: &str) -> Option<DefId> {
        for scope in self.locals.iter().rev() {
            if let Some(id) = scope.get(name) {
                return Some(*id);
            }
        }
        self.globals.get(&self.full(name)).or_else(|| self.globals.get(name)).copied()
    }

    fn refer(&mut self, ident: &Ident) {
        if let Some(id) = self.find(&ident.name) {
            self.resolutions.insert(ident.span, id);
        }
    }

    fn refer_dotted(&mut self, name: &str, span: Span) {
        let prefix = name.split('.').next().unwrap();
        if let Some(id) = self.find(prefix) {
            if self.scope_table.definitions[id.0].kind == DefKind::Namespace {
                self.resolutions.insert(span, id);
            }
        }
    }

    fn ty(&mut self, t: &TypeExpr) {
        match t {
            TypeExpr::Named(i) => self.type_ident(i),
            TypeExpr::Generic(i, args, _) => {
                self.type_ident(i);
                for a in args {
                    self.ty(a);
                }
            }
            TypeExpr::View(t, _) | TypeExpr::StateQualified(t, _, _) => self.ty(t),
            TypeExpr::Function(params, ret, _) => {
                for p in params {
                    self.ty(p);
                }
                self.ty(ret);
            }
        }
    }

    fn type_ident(&mut self, i: &Ident) {
        if i.name.contains('.') {
            self.refer_dotted(&i.name, i.span);
        } else {
            self.refer(i);
        }
    }

    fn params(&mut self, params: &[Param]) {
        for p in params {
            self.ty(&p.ty);
            self.local(&p.name, DefKind::Param);
        }
    }

    fn function(&mut self, f: &FunctionDef) {
        self.locals.push(HashMap::new());
        self.params(&f.params);
        if let Some(t) = &f.return_type {
            self.ty(t);
        }
        self.block(&f.body);
        self.locals.pop();
    }

    fn decl(&mut self, f: &FunctionDecl) {
        self.locals.push(HashMap::new());
        self.params(&f.params);
        if let Some(t) = &f.return_type {
            self.ty(t);
        }
        self.locals.pop();
    }

    fn block(&mut self, b: &Block) {
        self.locals.push(HashMap::new());
        for s in &b.stmts {
            self.stmt(s);
        }
        self.locals.pop();
    }

    fn bound_block(&mut self, names: &[&Ident], b: &Block) {
        self.locals.push(HashMap::new());
        for n in names {
            self.local(n, DefKind::Variable);
        }
        self.block(b);
        self.locals.pop();
    }

    fn stmt(&mut self, s: &Stmt) {
        match s {
            Stmt::VarDecl(d) => self.var_decl(d),
            Stmt::Assign(a) => {
                self.expr(&a.target);
                self.expr(&a.value);
            }
            Stmt::Return(r) => {
                if let Some(e) = &r.value {
                    self.expr(e);
                }
            }
            Stmt::If(i) => {
                self.expr(&i.condition);
                self.block(&i.then_block);
                for (c, b) in &i.else_ifs {
                    self.expr(c);
                    self.block(b);
                }
                if let Some(b) = &i.else_block {
                    self.block(b);
                }
            }
            Stmt::For(f) => {
                self.expr(&f.iterable);
                let mut names = vec![&f.variable];
                names.extend(f.value_variable.iter());
                self.bound_block(&names, &f.body);
            }
            Stmt::While(w) => {
                self.expr(&w.condition);
                self.block(&w.body);
            }
            Stmt::Match(m) => {
                self.expr(&m.expr);
                for arm in &m.arms {
                    match &arm.pattern {
                        Pattern::Variant(_, names) => {
                            let names: Vec<&Ident> = names.iter().collect();
                            self.bound_block(&names, &arm.body);
                        }
                        _ => self.block(&arm.body),
                    }
                }
            }
            Stmt::Expr(e) => self.expr(&e.expr),
            Stmt::Use(u) => {
                if let Some(alias) = &u.alias {
                    let id = self.define(alias.name.clone(), DefKind::Namespace, alias.span);
                    self.namespace_aliases.insert(id, u.path.name.clone());
                    self.locals.last_mut().unwrap().insert(alias.name.clone(), id);
                }
            }
            Stmt::Assert(a) => {
                self.expr(&a.condition);
                if let Some(e) = &a.message {
                    self.expr(e);
                }
            }
            Stmt::Trace(t) => self.refer(&t.name),
            Stmt::Respond(r) => self.expr(&r.value),
            Stmt::ComptimeTypeBind(b) => {
                self.expr(&b.value);
                self.block(&b.body);
            }
            other => panic!("not read: {other:?}"),
        }
    }

    fn var_decl(&mut self, d: &VarDecl) {
        self.ty(&d.ty);
        self.expr(&d.value);
        self.local(&d.name, DefKind::Variable);
    }

    fn args(&mut self, args: &[CallArg]) {
        for a in args {
            self.expr(&a.value);
        }
    }

    fn expr(&mut self, e: &Expr) {
        match e {
            Expr::Ident(i) => self.refer(i),
            Expr::Binary(l, _, r, _) => {
                self.expr(l);
                self.expr(r);
            }
            Expr::Call(c, args, _) => {
                self.expr(c);
                self.args(args);
            }
            Expr::GenericCall(c, types, args, _) => {
                self.expr(c);
                for t in types {
                    self.ty(t);
                }
                self.args(args);
            }
            Expr::FieldAccess(base, _, span) => {
                self.expr(base);
                if let Some(name) = jett_typecheck::ownership::dotted_name_str(e) {
                    self.refer_dotted(&name, *span);
                }
            }
            Expr::ListConstruct(es, _) => {
                for e in es {
                    self.expr(e);
                }
            }
            Expr::Handle(e, name, body, _) => {
                self.expr(e);
                let names: Vec<&Ident> = name.iter().collect();
                self.bound_block(&names, body);
            }
            Expr::StringInterpolation(parts, _) => {
                for p in parts {
                    if let StringPart::Expr(e) = p {
                        self.expr(e);
                    }
                }
            }
            Expr::Pipeline(e, steps, _) => {
                self.expr(e);
                for s in steps {
                    self.expr(&s.function);
                    self.args(&s.extra_args);
                    if let Some(h) = &s.handle {
                        let names: Vec<&Ident> = h.error_name.iter().collect();
                        self.bound_block(&names, &h.body);
                    }
                }
            }
            Expr::InlineFn(params, ret, body, _) => {
                self.locals.push(HashMap::new());
                self.params(params);
                if let Some(t) = ret {
                    self.ty(t);
                }
                self.block(body);
                self.locals.pop();
            }
            Expr::Unary(_, e, _)
            | Expr::Paren(e, _)
            | Expr::View(e, _)
            | Expr::OkOf(e, _)
            | Expr::FailOf(e, _)
            | Expr::SomeOf(e, _)
            | Expr::Default(e, _)
            | Expr::Declassify(e, _)
            | Expr::Coarsen(e, _)
            | Expr::At(e, _, _)
            | Expr::Spawn(e, _)
            | Expr::Send(e, _)
            | Expr::Ask(e, _)
            | Expr::Clone(e, _)
            | Expr::Run(e, _)
            | Expr::Join(e, _)
            | Expr::Cancel(e, _) => self.expr(e),
            _ => {}
        }
    }

    fn declare(&mut self, item: &Item) {
        match item {
            Item::Namespace(n) => self.namespace = Some(n.name.name.clone()),
            Item::Function(f) => self.global(&f.name, DefKind::Function),
            Item::Interface(d) => self.global(&d.name, DefKind::Interface),
            Item::Struct(d) => self.global(&d.name, DefKind::Struct),
            Item::Bitfield(d) => self.global(&d.name, DefKind::Bitfield),
            Item::Enum(d) => self.global(&d.name, DefKind::Enum),
            Item::Machine(d) => self.global(&d.name, DefKind::Machine),
            Item::Actor(d) => self.global(&d.name, DefKind::Actor),
            Item::VarDecl(d) => self.global(&d.name, DefKind::Variable),
            Item::TypeAlias(a) if a.root_exported => {
                let id = self.define(a.name.name.clone(), DefKind::TypeAlias, a.name.span);
                self.globals.insert(a.name.name.clone(), id);
            }
            Item::TypeAlias(a) => self.global(&a.name, DefKind::TypeAlias),
            _ => {}
        }
    }

    fn item(&mut self, item: &Item) {
        match item {
            Item::Namespace(n) => self.namespace = Some(n.name.name.clone()),
            Item::Function(f) => self.function(f),
            Item::Mutual(m) => {
                for d in &m.declarations {
                    self.decl(d);
                    self.refer(&d.name);
                }
            }
            Item::Interface(i) => {
                for m in &i.methods {
                    self.decl(m);
                }
            }
            Item::Implement(b) => {
                self.type_ident(&b.interface_name);
                self.ty(&b.for_type);
                for m in &b.methods {
                    self.function(m);
                }
            }
            Item::Struct(d) => {
                for f in &d.fields {
                    self.ty(&f.ty);
                }
                for m in &d.methods {
                    self.function(m);
                }
            }
            Item::Bitfield(d) => {
                for f in &d.fields {
                    match &f.kind {
                        BitfieldFieldKind::Bits { as_type, .. } => {
                            if let Some(t) = as_type {
                                self.ty(t);
                            }
                        }
                        BitfieldFieldKind::Payload(t) => self.ty(t),
                    }
                }
            }
            Item::Enum(d) => {
                for v in &d.variants {
                    for f in &v.fields {
                        self.ty(&f.ty);
                    }
                }
            }
            Item::Machine(d) => {
                for s in &d.states {
                    for f in &s.fields {
                        self.ty(&f.ty);
                    }
                }
            }
            Item::Actor(d) => {
                self.locals.push(HashMap::new());
                self.params(&d.capability_params);
                for f in &d.state_fields {
                    self.ty(&f.ty);
                    self.expr(&f.value);
                    self.local(&f.name, DefKind::Variable);
                }
                for h in &d.handlers {
                    self.locals.push(HashMap::new());
                    self.params(&h.params);
                    if let Some(t) = &h.responds {
                        self.ty(t);
                    }
                    self.block(&h.body);
                    self.locals.pop();
                }
                self.locals.pop();
            }
            Item::VarDecl(d) => {
                self.ty(&d.ty);
                self.expr(&d.value);
            }
            Item::Verify(v) => self.block(&v.body),
            Item::Property(p) => {
                self.locals.push(HashMap::new());
                for g in &p.givens {
                    self.ty(&g.ty);
                    self.local(&g.name, DefKind::Variable);
                }
                self.block(&p.body);
                self.locals.pop();
            }
            Item::TypeAlias(a) => {
                self.ty(&a.base_type);
                if let Some(c) = &a.constraint {
                    self.locals.push(HashMap::new());
                    self.local(&Ident { name: "value".to_string(), span: c.span() }, DefKind::Variable);
                    self.expr(c);
                    self.locals.pop();
                }
            }
        }
    }
}

fn resolve(module: &Module) -> ResolveResult {
    let mut r = Resolver {
        scope_table: ScopeTable::new(),
        resolutions: Table::new(),
        namespace_aliases: Table::new(),
        globals: HashMap::new(),
        locals: vec![],
        namespace: None,
    };
    for item in &module.items {
        r.declare(item);
    }
    r.namespace = None;
    for item in &module.items {
        r.item(item);
    }
    ResolveResult {
        scope_table: r.scope_table,
        resolutions: r.resolutions,
        namespace_aliases: r.namespace_aliases,
        capabilities: vec!["Stdout".to_string(), "Filesystem".to_string(), "Environment".to_string()],
        view_facades: vec![],
        complexity: vec![],
    }
}

fn check_source_result(source: &str) -> CheckResult {
    check_source_result_with_file_id(source, FileId::new(0))
}

fn check_source_result_with_file_id(source: &str, file_id: FileId) -> CheckResult {
    let module = parse(source, file_id);
    let resolve_result = resolve(&module);
    check(&module, &resolve_result)
}

fn check_source_errors(source: &str) -> Vec<Diagnostic> {
    check_source_result(source)
        .diagnostics
        .into_iter()
        .filter(|d| d.severity == Severity::Error)
        .collect()
}


#[test]
fn mutual_block_allows_mutual_recursion() {
    let result = check_source_result(
        "\
mutual:
    function is_even(n: int64) returns bool
    function is_odd(n: int64) returns bool

function is_even(n: int64) returns bool:
    if n == 0:
        return true
    return is_odd(n - 1)

function is_odd(n: int64) returns bool:
    if n == 0:
        return false
    return is_even(n - 1)
",
    );

    let errors: Vec<_> = result
        .diagnostics
        .iter()
        .filter(|d| d.severity == Severity::Error)
        .collect();
    assert!(errors.is_empty(), "unexpected errors: {:?}", errors);
}

#[test]
fn mutual_block_missing_definition_reports_error() {
    let errors = check_source_errors(
        "\
mutual:
    function is_even(n: int64) returns bool

function main() returns nothing:
    return nothing
",
    );

    assert!(
        errors.iter().any(|d| d.code.code() == Some(325)),
        "expected E0325, got: {:?}",
        errors
    );
}

#[test]
fn mutual_block_signature_mismatch_reports_error() {
    let errors = check_source_errors(
        "\
mutual:
    function is_even(n: int64) returns bool

function is_even(value: string) returns bool:
    return true
",
    );

    assert!(
        errors.iter().any(|d| d.code.code() == Some(326)),
        "expected E0326, got: {:?}",
        errors
    );
}

#[test]
fn user_defined_struct_constructor_and_field_access_typecheck_cleanly() {
    let result = check_source_result(
        "\
struct Point:
    x: int64
    y: int64

function sum(view point: Point) returns int64:
    return point.x + point.y

function main() returns int64:
    Point point = Point(x: 1, y: 2)
    return sum(view point)
",
    );

    let errors: Vec<_> = result
        .diagnostics
        .iter()
        .filter(|d| d.severity == Severity::Error)
        .collect();
    assert!(errors.is_empty(), "unexpected errors: {:?}", errors);
}

#[test]
fn struct_method_call_typechecks_cleanly() {
    let result = check_source_result(
        "\
struct Point:
    x: int64
    y: int64

    function total(view self: Point) returns int64:
        return self.x + self.y

function main() returns int64:
    Point point = Point(x: 1, y: 2)
    return Point.total(view point)
",
    );

    let errors: Vec<_> = result
        .diagnostics
        .iter()
        .filter(|d| d.severity == Severity::Error)
        .collect();
    assert!(errors.is_empty(), "unexpected errors: {:?}", errors);
}

#[test]
fn struct_constructor_missing_field_reports_error() {
    let errors = check_source_errors(
        "\
struct Point:
    x: int64
    y: int64

function main() returns Point:
    return Point(x: 1)
",
    );

    assert!(
        errors.iter().any(|d| d.code.code() == Some(321)),
        "expected E0321, got: {:?}",
        errors
    );
}

#[test]
fn unknown_struct_field_reports_error() {
    let errors = check_source_errors(
        "\
struct Point:
    x: int64
    y: int64

function main(view point: Point) returns int64:
    return point.z
",
    );

    assert!(
        errors.iter().any(|d| d.code.code() == Some(319)),
        "expected E0319, got: {:?}",
        errors
    );
}

#[test]
fn enum_variant_construction_and_match_typecheck_cleanly() {
    let result = check_source_result(
        "\
enum Shape:
    circle(radius: int64)
    rect(width: int64, height: int64)

function area(shape: Shape) returns int64:
    match shape:
        circle(radius):
            return radius * radius
        rect(width, height):
            return width * height

function main() returns int64:
    Shape shape = Shape.circle(3)
    return area(shape)
",
    );

    let errors: Vec<_> = result
        .diagnostics
        .iter()
        .filter(|d| d.severity == Severity::Error)
        .collect();
    assert!(errors.is_empty(), "unexpected errors: {:?}", errors);
}

#[test]
fn non_exhaustive_enum_match_reports_error() {
    let errors = check_source_errors(
        "\
enum Color:
    red
    blue

function describe(color: Color) returns int64:
    match color:
        red:
            return 1
",
    );

    assert!(
        errors.iter().any(|d| d.code.code() == Some(324)),
        "expected E0324, got: {:?}",
        errors
    );
}

#[test]
fn enum_pattern_binding_count_mismatch_reports_error() {
    let errors = check_source_errors(
        "\
enum Shape:
    rect(width: int64, height: int64)

function area(shape: Shape) returns int64:
    match shape:
        rect(width):
            return width
",
    );

    assert!(
        errors.iter().any(|d| d.code.code() == Some(323)),
        "expected E0323, got: {:?}",
        errors
    );
}

#[test]
fn reflection_metadata_owner_tables_are_type_id_backed() {
    let result = check_source_result(
        "\
namespace models

export struct User:
    name: string
    score: int64

namespace packets

export enum Protocol:
    tcp = 6
    udp = 17

export bitfield Header:
    version: 4 bits
    protocol: 8 bits as Protocol
",
    );
    let metadata = result.reflection_metadata;

    let user_id = metadata
        .type_id_for_name("models.User")
        .expect("models.User should have a canonical TypeId");
    let user_fields = metadata
        .get_type_fields_for_id(user_id)
        .expect("struct fields should be keyed by owner TypeId");
    assert_eq!(user_fields[0].name, "name");
    assert_eq!(
        metadata
            .get_type_fields("models.User")
            .expect("fields should be found by the name too")[1]
            .name,
        "score"
    );

    let header_id = metadata
        .type_id_for_name("packets.Header")
        .expect("packets.Header should have a canonical TypeId");
    let header = metadata
        .get_bitfield_for_id(header_id)
        .expect("bitfield metadata should be keyed by owner TypeId");
    assert_eq!(header.fields[1].name, "protocol");
    assert_eq!(
        metadata
            .get_bitfield("packets.Header")
            .expect("a bitfield should be found by the name too")
            .fields[0]
            .width,
        4
    );

    let protocol_id = metadata
        .type_id_for_name("packets.Protocol")
        .expect("packets.Protocol should have a canonical TypeId");
    let variants = metadata
        .get_type_variants_for_id(protocol_id)
        .expect("enum variants should be keyed by owner TypeId");
    assert_eq!(variants[0].name, "tcp");
    assert_eq!(
        metadata
            .get_type_variants("packets.Protocol")
            .expect("variants should be found by the name too")[1]
            .discriminant,
        17
    );
}

#[test]
fn reflection_metadata_generic_type_info_args_are_type_id_backed() {
    let result = check_source_result(
        "\
namespace accounts

export struct Box[T]:
    value: T

namespace audit

export struct Box[T]:
    value: T

namespace app

function use_boxes() returns string:
    use accounts as a
    use audit as au
    a.Box[int64] account = a.Box[int64](value: 1)
    au.Box[int64] audit_box = au.Box[int64](value: 2)
    TypeInfo account_info = type.info[a.Box[int64]]()
    TypeInfo audit_info = type.info[au.Box[int64]]()
    return \"{account_info.type_name}:{audit_info.type_name}:{account.value}:{audit_box.value}\"
",
    );
    let metadata = result.reflection_metadata;

    let account_info = metadata
        .get_type_info("accounts.Box[int64]")
        .expect("accounts.Box[int64] should have canonical type info");
    assert_eq!(account_info.args[0].name, "int64");

    let audit_info = metadata
        .get_type_info("audit.Box[int64]")
        .expect("audit.Box[int64] should have canonical type info");
    assert_eq!(audit_info.args[0].name, "int64");

    assert!(
        metadata.get_type_info("Box[int64]").is_none(),
        "ambiguous generic leaf metadata should not be published"
    );
}

#[test]
fn raw_json_facade_signature_prefers_trusted_stdlib_declaration() {
    let result = check_source_result_with_file_id(
        "\
namespace json

export enum JsonTree:
    null

export function kind(view value: JsonTree) returns int64:
    return 1

namespace app

function main() returns int64:
    json.JsonTree tree = json.JsonTree.null
    return json.kind(view tree)
",
        FileId::new(STDLIB_FILE_ID_START),
    );

    let errors: Vec<_> = result
        .diagnostics
        .iter()
        .filter(|d| d.severity == Severity::Error)
        .collect();
    assert!(errors.is_empty(), "unexpected errors: {:?}", errors);
}

#[test]
fn raw_json_facade_uses_ordinary_source_signature_without_trusted_stdlib() {
    let errors = check_source_errors(
        "\
namespace json

export enum JsonTree:
    null

export function kind(view value: JsonTree) returns int64:
    return 1

namespace app

function main() returns string:
    json.JsonTree tree = json.JsonTree.null
    return json.kind(view tree)
",
    );

    assert!(
        errors.iter().any(|d| d.code.code() == Some(305)),
        "expected E0305, got: {:?}",
        errors
    );
}

#[test]
fn result_handle_requires_error_keyword() {
    let errors = check_source_errors(
        "\
function main() returns int64:
    int64 parsed = int64.from_string(\"42\") handle:
        default 0
    return parsed
",
    );

    assert!(
        errors.iter().any(|d| d.code.code() == Some(316)),
        "expected E0316, got: {:?}",
        errors
    );
}

#[test]
fn optional_handle_rejects_error_keyword() {
    let errors = check_source_errors(
        "\
function main() returns int64:
    int64 value = some(1) handle error:
        default 0
    return value
",
    );

    assert!(
        errors.iter().any(|d| d.code.code() == Some(317)),
        "expected E0317, got: {:?}",
        errors
    );
}

#[test]
fn handle_block_requires_explicit_terminator() {
    let errors = check_source_errors(
        "\
function main() returns int64:
    int64 parsed = int64.from_string(\"oops\") handle error:
        int64 fallback = 0
    return parsed
",
    );

    assert!(
        errors.iter().any(|d| d.code.code() == Some(318)),
        "expected E0318, got: {:?}",
        errors
    );
}

#[test]
fn handle_default_must_match_unwrapped_type() {
    let errors = check_source_errors(
        "\
function main() returns int64:
    int64 parsed = int64.from_string(\"oops\") handle error:
        default \"bad\"
    return parsed
",
    );

    assert!(
        errors.iter().any(|d| d.code.code() == Some(300)),
        "expected E0300, got: {:?}",
        errors
    );
}

#[test]
fn handle_with_builtin_result_type_checks_cleanly() {
    let errors = check_source_errors(
        "\
function main() returns int64:
    int64 parsed = int64.from_string(\"42\") handle error:
        default 0
    return parsed
",
    );

    assert!(errors.is_empty(), "unexpected errors: {:?}", errors);
}

#[test]
fn interface_implement_call_typechecks_cleanly() {
    let result = check_source_result(
        "\
interface Speaker:
    function speak(view self: Speaker) returns string

struct Dog:
    name: string

implement Speaker for Dog:
    function speak(view self: Dog) returns string:
        return self.name

function main() returns string:
    Dog dog = Dog(name: \"woof\")
    return Speaker.speak(view dog)
",
    );

    let errors: Vec<_> = result
        .diagnostics
        .iter()
        .filter(|d| d.severity == Severity::Error)
        .collect();
    assert!(errors.is_empty(), "unexpected errors: {:?}", errors);
}

#[test]
fn implement_block_missing_method_reports_error() {
    let errors = check_source_errors(
        "\
interface Speaker:
    function speak(view self: Speaker) returns string
    function growl(view self: Speaker) returns string

struct Dog:
    name: string

implement Speaker for Dog:
    function speak(view self: Dog) returns string:
        return self.name
",
    );

    assert!(
        errors.iter().any(|d| d.code.code() == Some(331)),
        "expected E0331, got: {:?}",
        errors
    );
}

#[test]
fn implement_block_signature_mismatch_reports_error() {
    let errors = check_source_errors(
        "\
interface Speaker:
    function speak(view self: Speaker) returns string

struct Dog:
    name: string

implement Speaker for Dog:
    function speak(self: Dog) returns int64:
        return 1
",
    );

    assert!(
        errors.iter().any(|d| d.code.code() == Some(330)),
        "expected E0330, got: {:?}",
        errors
    );
}

#[test]
fn string_interpolation_accepts_user_defined_displayable_types() {
    let result = check_source_result(
        "\
interface Displayable:
    function display(view self: Displayable) returns string

struct User:
    name: string

implement Displayable for User:
    function display(view self: User) returns string:
        return self.name

function main() returns string:
    User user = User(name: \"Ada\")
    return \"user: {user}\"
",
    );

    let errors: Vec<_> = result
        .diagnostics
        .iter()
        .filter(|d| d.severity == Severity::Error)
        .collect();
    assert!(errors.is_empty(), "unexpected errors: {:?}", errors);
}

#[test]
fn secret_value_can_be_declassified() {
    let result = check_source_result(
        "\
function reveal(key: secret[string]) returns string:
    return declassify key

function main() returns string:
    secret[string] api_key = \"abc\"
    return reveal(api_key)
",
    );

    let errors: Vec<_> = result
        .diagnostics
        .iter()
        .filter(|d| d.severity == Severity::Error)
        .collect();
    assert!(errors.is_empty(), "unexpected errors: {:?}", errors);
}

#[test]
fn declassify_requires_secret_type() {
    let errors = check_source_errors(
        "\
function main() returns string:
    return declassify \"abc\"
",
    );

    assert!(
        errors.iter().any(|d| d.code.code() == Some(601)),
        "expected E0601, got: {:?}",
        errors
    );
}

#[test]
fn stdout_write_rejects_secret_values() {
    let errors = check_source_errors(
        "\
function main(view stdout: Stdout) returns nothing:
    secret[string] api_key = \"abc\"
    Stdout.write(view stdout, api_key)
",
    );

    assert!(
        errors.iter().any(|d| d.code.code() == Some(600)),
        "expected E0600, got: {:?}",
        errors
    );
}

#[test]
fn secret_values_are_not_displayable() {
    let errors = check_source_errors(
        "\
function main() returns string:
    secret[string] api_key = \"abc\"
    return \"api key: {api_key}\"
",
    );

    assert!(
        errors.iter().any(|d| d.code.code() == Some(332)),
        "expected E0332, got: {:?}",
        errors
    );
}

#[test]
fn pure_call_with_secret_argument_returns_secret() {
    let result = check_source_result(
        "\
function main() returns nothing:
    secret[string] api_key = \"abc\"
    secret[string] upper = string.upper(api_key)
    return nothing
",
    );

    let errors: Vec<_> = result
        .diagnostics
        .iter()
        .filter(|d| d.severity == Severity::Error)
        .collect();
    assert!(errors.is_empty(), "unexpected errors: {:?}", errors);
}

#[test]
fn pure_call_with_secret_argument_cannot_be_assigned_to_public_type() {
    let errors = check_source_errors(
        "\
function main() returns nothing:
    secret[string] api_key = \"abc\"
    string upper = string.upper(api_key)
    return nothing
",
    );

    assert!(
        errors.iter().any(|d| d.code.code() == Some(311)),
        "expected E0311, got: {:?}",
        errors
    );
}

#[test]
fn secret_redact_returns_public_string() {
    let result = check_source_result(
        "\
function main() returns string:
    secret[string] api_key = \"abc\"
    string masked = secret.redact(api_key)
    return masked
",
    );

    let errors: Vec<_> = result
        .diagnostics
        .iter()
        .filter(|d| d.severity == Severity::Error)
        .collect();
    assert!(errors.is_empty(), "unexpected errors: {:?}", errors);
}

#[test]
fn secret_compare_returns_bool() {
    let result = check_source_result(
        "\
function main() returns bool:
    secret[string] stored = \"abc\"
    secret[string] computed = \"abc\"
    return secret.compare(stored, computed)
",
    );

    let errors: Vec<_> = result
        .diagnostics
        .iter()
        .filter(|d| d.severity == Severity::Error)
        .collect();
    assert!(errors.is_empty(), "unexpected errors: {:?}", errors);
}

#[test]
fn secret_compare_requires_matching_secret_types() {
    let errors = check_source_errors(
        "\
function main() returns bool:
    secret[string] stored = \"abc\"
    secret[int64] computed = 1
    return secret.compare(stored, computed)
",
    );

    assert!(
        errors.iter().any(|d| d.code.code() == Some(304)),
        "expected E0304, got: {:?}",
        errors
    );
}

#[test]
fn secret_redact_requires_secret_argument() {
    let errors = check_source_errors(
        "\
function main() returns string:
    return secret.redact(\"abc\")
",
    );

    assert!(
        errors.iter().any(|d| d.code.code() == Some(602)),
        "expected E0602, got: {:?}",
        errors
    );
}

#[test]
fn field_access_on_secret_struct_stays_secret() {
    let result = check_source_result(
        "\
struct User:
    name: string

function main() returns nothing:
    secret[User] user = User(name: \"Ada\")
    secret[string] name = user.name
    return nothing
",
    );

    let errors: Vec<_> = result
        .diagnostics
        .iter()
        .filter(|d| d.severity == Severity::Error)
        .collect();
    assert!(errors.is_empty(), "unexpected errors: {:?}", errors);
}

#[test]
fn mixed_secret_and_public_list_becomes_secret_element_list() {
    let result = check_source_result(
        "\
function main() returns nothing:
    secret[string] api_key = \"abc\"
    list[secret[string]] items = list(\"prefix\", api_key, \"suffix\")
    return nothing
",
    );

    let errors: Vec<_> = result
        .diagnostics
        .iter()
        .filter(|d| d.severity == Severity::Error)
        .collect();
    assert!(errors.is_empty(), "unexpected errors: {:?}", errors);
}

#[test]
fn string_join_rejects_list_of_secret_strings() {
    let errors = check_source_errors(
        "\
function main() returns string:
    secret[string] api_key = \"abc\"
    list[secret[string]] items = list(\"prefix\", api_key, \"suffix\")
    return string.join(items, \"-\")
",
    );

    assert!(
        errors
            .iter()
            .any(|d| d.code.code() == Some(304) || d.code.code() == Some(305)),
        "expected argument/return type mismatch, got: {:?}",
        errors
    );
}

#[test]
fn filesystem_write_file_rejects_secret_string() {
    let errors = check_source_errors(
        "\
function main(view fs: Filesystem) returns nothing:
    secret[string] api_key = \"abc\"
    Filesystem.write_file(view fs, \"secret.txt\", api_key) handle error:
        return nothing
    return nothing
",
    );

    assert!(
        errors.iter().any(|d| d.code.code() == Some(600)),
        "expected E0600, got: {:?}",
        errors
    );
}

#[test]
fn json_serialize_blocks_struct_with_secret_fields() {
    let errors = check_source_errors(
        "\
struct User:
    id: string
    api_key: secret[string]

function main(view user: User) returns string:
    return json.serialize[User](view user)
",
    );

    assert!(
        errors.iter().any(|d| d.code.code() == Some(603)),
        "expected E0603, got: {:?}",
        errors
    );
}

#[test]
fn json_serialize_public_allows_struct_with_secret_fields() {
    let result = check_source_result(
        "\
struct User:
    id: string
    api_key: secret[string]

function main(view user: User) returns string:
    return json.serialize_public[User](view user)
",
    );

    let errors: Vec<_> = result
        .diagnostics
        .iter()
        .filter(|d| d.severity == Severity::Error)
        .collect();
    assert!(errors.is_empty(), "unexpected errors: {:?}", errors);
}

#[test]
fn json_serialize_public_rejects_secret_wrapped_value() {
    let errors = check_source_errors(
        "\
struct User:
    id: string

function main() returns string:
    secret[User] user = User(id: \"1\")
    return json.serialize_public[User](user)
",
    );

    assert!(
        errors.iter().any(|d| d.code.code() == Some(600)),
        "expected E0600, got: {:?}",
        errors
    );
}

#[test]
fn filesystem_read_file_returns_result_string() {
    let result = check_source_result(
        "\
function main(view fs: Filesystem) returns string:
    string raw = Filesystem.read_file(view fs, \"config.json\") handle error:
        default \"\"
    return raw
",
    );

    let errors: Vec<_> = result
        .diagnostics
        .iter()
        .filter(|d| d.severity == Severity::Error)
        .collect();
    assert!(errors.is_empty(), "unexpected errors: {:?}", errors);
}

#[test]
fn pure_function_lifts_secret_argument() {
    let result = check_source_result(
        "\
function upper(value: string) returns string:
    return string.upper(value)

function main() returns secret[string]:
    secret[string] api_key = \"abc\"
    return upper(api_key)
",
    );

    let errors: Vec<_> = result
        .diagnostics
        .iter()
        .filter(|d| d.severity == Severity::Error)
        .collect();
    assert!(errors.is_empty(), "unexpected errors: {:?}", errors);
}

#[test]
fn impure_function_rejects_secret_argument_without_secret_param() {
    let errors = check_source_errors(
        "\
function emit(view stdout: Stdout, value: string) returns nothing:
    Stdout.write(view stdout, value)
    return nothing

function main(view stdout: Stdout) returns nothing:
    secret[string] api_key = \"abc\"
    emit(view stdout, api_key)
    return nothing
",
    );

    assert!(
        errors.iter().any(|d| d.code.code() == Some(600)),
        "expected E0600, got: {:?}",
        errors
    );
}

#[test]
fn impure_function_accepts_explicit_secret_param() {
    let result = check_source_result(
        "\
function send_secret(view stdout: Stdout, value: secret[string]) returns nothing:
    string redacted = secret.redact(value)
    Stdout.write(view stdout, redacted)
    return nothing

function main(view stdout: Stdout) returns nothing:
    secret[string] api_key = \"abc\"
    send_secret(view stdout, api_key)
    return nothing
",
    );

    let errors: Vec<_> = result
        .diagnostics
        .iter()
        .filter(|d| d.severity == Severity::Error)
        .collect();
    assert!(errors.is_empty(), "unexpected errors: {:?}", errors);
}

#[test]
fn refinement_type_assignment_requires_handle_error() {
    let errors = check_source_errors(
        "\
type Port = int64 where value >= 1 && value <= 65535

function main() returns nothing:
    Port port = 8080
    return nothing
",
    );

    assert!(
        errors.iter().any(|d| d.code.code() == Some(333)),
        "expected E0333, got: {:?}",
        errors
    );
}

#[test]
fn refinement_type_assignment_with_handle_and_coarsen_typechecks() {
    let result = check_source_result(
        "\
type Port = int64 where value >= 1 && value <= 65535

function main() returns int64:
    Port port = 8080 handle error:
        return 80
    return coarsen port
",
    );

    let errors: Vec<_> = result
        .diagnostics
        .iter()
        .filter(|d| d.severity == Severity::Error)
        .collect();
    assert!(errors.is_empty(), "unexpected errors: {:?}", errors);
}

#[test]
fn simple_type_alias_behaves_like_base_type() {
    let result = check_source_result(
        "\
type UserId = int64

function id(value: UserId) returns UserId:
    return value

function main() returns int64:
    UserId user_id = 42
    return id(user_id)
",
    );

    let errors: Vec<_> = result
        .diagnostics
        .iter()
        .filter(|d| d.severity == Severity::Error)
        .collect();
    assert!(errors.is_empty(), "unexpected errors: {:?}", errors);
}

#[test]
fn stdlib_root_json_value_alias_wins_over_legacy_primitive_type() {
    let file_id = FileId::new(STDLIB_FILE_ID_START);
    let source = "\
namespace json
export enum JsonTree:
    null = 0
export type JsonValue = JsonTree
export root type JsonValue = json.JsonTree
namespace app
function main() returns JsonValue:
    return json.JsonTree.null
";
    let module = parse(source, file_id);
    let resolve_result = resolve(&module);

    let mut checker = TypeChecker::new(&resolve_result);
    checker.check_module(&module);
    let typecheck_errors: Vec<_> = checker
        .diagnostics
        .iter()
        .filter(|d| d.severity == Severity::Error)
        .collect();
    assert!(
        typecheck_errors.is_empty(),
        "unexpected type errors: {:?}",
        checker.diagnostics
    );

    let span = Span::new(file_id, 0, 0);
    let bare_ty = checker.resolve_named_type(&"JsonValue".to_string(), span);
    let tree_ty = checker.resolve_named_type(&"json.JsonTree".to_string(), span);
    assert_eq!(bare_ty, tree_ty);

    let metadata = checker.build_reflection_metadata();
    let info = metadata
        .get_type_info("JsonValue")
        .expect("root JsonValue alias should have reflection metadata");
    assert_eq!(info.kind, "alias");
    assert_eq!(info.primitive_tag, None);
    assert_eq!(info.args.len(), 1);
    assert_eq!(info.args[0].name, "json.JsonTree");
    assert_eq!(info.args[0].kind, "enum");
}

#[test]
fn bare_json_value_requires_stdlib_root_alias() {
    let errors = check_source_errors(
        "\
function main() returns JsonValue:
    return nothing
",
    );

    assert!(
        errors
            .iter()
            .any(|diag| diag.code.code() == Some(309) && diag.message().contains("JsonValue")),
        "expected JsonValue to be unknown without the stdlib root alias, got {errors:?}"
    );
}

#[test]
fn coarsen_can_target_refinement_ancestors() {
    let result = check_source_result(
        "\
type NonEmpty = string where string.char_count(value) > 0
type Password = NonEmpty where string.char_count(value) > 8

function main() returns string:
    Password password = \"hunter42!\" handle error:
        return \"\"
    NonEmpty non_empty = coarsen password
    return coarsen non_empty
",
    );

    let errors: Vec<_> = result
        .diagnostics
        .iter()
        .filter(|d| d.severity == Severity::Error)
        .collect();
    assert!(errors.is_empty(), "unexpected errors: {:?}", errors);
}

#[test]
fn refinement_constraint_must_return_bool() {
    let errors = check_source_errors(
        "\
type Broken = int64 where 42

function main() returns nothing:
    return nothing
",
    );

    assert!(
        errors.iter().any(|d| d.code.code() == Some(335)),
        "expected E0335, got: {:?}",
        errors
    );
}

#[test]
fn struct_constructor_with_refinement_field_requires_handle() {
    let errors = check_source_errors(
        "\
type Age = int64 where value >= 0 && value < 150

struct User:
    age: Age

function main() returns nothing:
    User user = User(age: 42)
    return nothing
",
    );

    assert!(
        errors.iter().any(|d| d.code.code() == Some(316)),
        "expected E0316, got: {:?}",
        errors
    );
}

#[test]
fn struct_constructor_with_refinement_field_handle_typechecks() {
    let result = check_source_result(
        "\
type Age = int64 where value >= 0 && value < 150

struct User:
    age: Age

function main() returns nothing:
    User user = User(age: 42) handle error:
        return nothing
    return nothing
",
    );

    let errors: Vec<_> = result
        .diagnostics
        .iter()
        .filter(|d| d.severity == Severity::Error)
        .collect();
    assert!(errors.is_empty(), "unexpected errors: {:?}", errors);
}

#[test]
fn refined_return_type_accepts_base_expression() {
    let result = check_source_result(
        "\
type Percentage = float64 where value >= 0.0 && value <= 100.0

function calculate_grade(score: int64, total: int64) returns Percentage:
    float64 score_f = float64.from_int64(score)
    float64 total_f = float64.from_int64(total)
    return score_f / total_f * 100.0
",
    );

    let errors: Vec<_> = result
        .diagnostics
        .iter()
        .filter(|d| d.severity == Severity::Error)
        .collect();
    assert!(errors.is_empty(), "unexpected errors: {:?}", errors);
}

#[test]
fn refined_return_type_still_requires_handle_for_result_values() {
    let errors = check_source_errors(
        "\
type Port = int64 where value >= 1 && value <= 65535

function parse_port(raw: string) returns Port:
    return int64.from_string(raw)
",
    );

    assert!(
        errors.iter().any(|d| d.code.code() == Some(316)),
        "expected E0316, got: {:?}",
        errors
    );
}

#[test]
fn function_call_into_refinement_parameter_reports_boundary_error() {
    let errors = check_source_errors(
        "\
type Password = string where string.char_count(value) > 8

function create_user(password: Password) returns nothing:
    return nothing

function main() returns nothing:
    create_user(\"hunter42!\")
    return nothing
",
    );

    assert!(
        errors.iter().any(|d| d.code.code() == Some(333)),
        "expected E0333, got: {:?}",
        errors
    );
}

#[test]
fn bitfield_constructor_with_literals_typechecks() {
    let result = check_source_result(
        "\
bitfield TcpFlags:
    syn: 1 bit
    ack: 1 bit

function main() returns int64:
    TcpFlags flags = TcpFlags(syn: 0, ack: 1)
    return flags.ack
",
    );

    let errors: Vec<_> = result
        .diagnostics
        .iter()
        .filter(|d| d.severity == Severity::Error)
        .collect();
    assert!(errors.is_empty(), "unexpected errors: {:?}", errors);
}

#[test]
fn bitfield_constructor_with_dynamic_int_requires_handle() {
    let errors = check_source_errors(
        "\
bitfield TcpFlags:
    syn: 1 bit
    ack: 1 bit

function main(bit: int64) returns nothing:
    TcpFlags flags = TcpFlags(syn: bit, ack: 0)
    return nothing
",
    );

    assert!(
        errors.iter().any(|d| d.code.code() == Some(316)),
        "expected E0316, got: {:?}",
        errors
    );
}

#[test]
fn bitfield_literal_out_of_range_reports_error() {
    let errors = check_source_errors(
        "\
bitfield ColorChannel:
    red: 8 bits
    green: 8 bits

function main() returns nothing:
    ColorChannel color = ColorChannel(red: 300, green: 1)
    return nothing
",
    );

    assert!(
        errors.iter().any(|d| d.code.code() == Some(337)),
        "expected E0337, got: {:?}",
        errors
    );
}

#[test]
fn bitfield_payload_must_be_list_of_uint8() {
    let errors = check_source_errors(
        "\
bitfield Packet:
    header: 8 bits
    payload: bytes

function main() returns nothing:
    return nothing
",
    );

    assert!(
        errors.iter().any(|d| d.code.code() == Some(336)),
        "expected E0336, got: {:?}",
        errors
    );
}

#[test]
fn bitfield_binary_roundtrip_typechecks() {
    let result = check_source_result(
        "\
bitfield network IpHeader:
    version: 4 bits
    header_length: 4 bits
    total_length: 16 bits

function main() returns int64:
    IpHeader header = IpHeader(version: 4, header_length: 5, total_length: 500)
    bytes raw = IpHeader.to_bytes(header)
    IpHeader decoded = IpHeader.from_bytes(raw) handle error:
        return 0
    return decoded.total_length
",
    );

    let errors: Vec<_> = result
        .diagnostics
        .iter()
        .filter(|d| d.severity == Severity::Error)
        .collect();
    assert!(errors.is_empty(), "unexpected errors: {:?}", errors);
}

#[test]
fn bitfield_from_bytes_requires_handle() {
    let errors = check_source_errors(
        "\
bitfield network IpHeader:
    version: 4 bits
    header_length: 4 bits
    total_length: 16 bits

function main() returns nothing:
    bytes raw = IpHeader.to_bytes(IpHeader(version: 4, header_length: 5, total_length: 500))
    IpHeader decoded = IpHeader.from_bytes(raw)
    return nothing
",
    );

    assert!(
        errors.iter().any(|d| d.code.code() == Some(316)),
        "expected E0316, got: {:?}",
        errors
    );
}

#[test]
fn trace_statement_reads_variable_without_error() {
    let result = check_source_result(
        "\
function main() returns nothing:
    int64 total = 42
    trace total
",
    );

    let errors: Vec<_> = result
        .diagnostics
        .iter()
        .filter(|d| d.severity == Severity::Error)
        .collect();
    assert!(errors.is_empty(), "unexpected errors: {:?}", errors);
}

#[test]
fn enum_with_explicit_discriminants_typechecks() {
    let result = check_source_result(
        "\
enum IpProtocol:
    icmp = 1
    tcp = 6
    udp = 17

bitfield network IpHeader:
    protocol: 8 bits as IpProtocol

function main() returns nothing:
    IpHeader header = IpHeader(protocol: IpProtocol.tcp)
    bytes raw = IpHeader.to_bytes(header)
    IpHeader decoded = IpHeader.from_bytes(raw) handle error:
        return nothing
    IpProtocol protocol = decoded.protocol
    return nothing
",
    );

    let errors: Vec<_> = result
        .diagnostics
        .iter()
        .filter(|d| d.severity == Severity::Error)
        .collect();
    assert!(errors.is_empty(), "unexpected errors: {:?}", errors);
}

#[test]
fn duplicate_enum_discriminant_reports_error() {
    let errors = check_source_errors(
        "\
enum Bad:
    first = 1
    second = 1

function main() returns nothing:
    return nothing
",
    );

    assert!(
        errors.iter().any(|d| d.code.code() == Some(339)),
        "expected E0339, got: {:?}",
        errors
    );
}

#[test]
fn enum_discriminant_requires_unit_variant() {
    let errors = check_source_errors(
        "\
enum Bad:
    named(value: int64) = 1

function main() returns nothing:
    return nothing
",
    );

    assert!(
        errors.iter().any(|d| d.code.code() == Some(338)),
        "expected E0338, got: {:?}",
        errors
    );
}

// Each error by itself

fn codes(source: &str) -> Vec<ErrorCode> {
    check_source_errors(source).into_iter().map(|d| d.code).collect()
}

/// The source with `body` as the body of a function that returns nothing.
fn codes_in_body(body: &str) -> Vec<ErrorCode> {
    codes(&format!("function main() returns nothing:\n{body}    return nothing\n"))
}

#[test]
fn range_takes_one_to_three_arguments() {
    assert_eq!(codes_in_body("    list[int64] r = range(1, 2, 3)\n"), vec![]);
    assert_eq!(
        codes_in_body("    list[int64] r = range(1, 2, 3, 4)\n"),
        vec![ErrorCode::ArgumentCountRangeMismatch]
    );
    assert_eq!(codes_in_body("    list[int64] r = range(true)\n"), vec![ErrorCode::ArgumentTypeMismatch]);
}

#[test]
fn only_functions_are_called() {
    assert_eq!(codes_in_body("    int64 x = 1\n    x(2)\n"), vec![ErrorCode::NotCallable]);
}

#[test]
fn integer_literals_fit_in_64_bits() {
    assert_eq!(codes_in_body("    int64 x = 9223372036854775807\n"), vec![]);
    assert_eq!(codes_in_body("    uint64 x = 18446744073709551615\n"), vec![]);
    let errors = check_source_errors(
        "function main() returns nothing:\n    int64 x = 18446744073709551616\n    return nothing\n",
    );
    assert_eq!(errors.len(), 1);
    assert_eq!(errors[0].code, ErrorCode::IntegerLiteralOutOfRange);
    assert_eq!(errors[0].code.code(), Some(311));
    assert_eq!(errors[0].message(), "integer literal must fit in `int64` or `uint64`");
}

#[test]
fn small_integers_take_literals_in_range() {
    assert_eq!(codes_in_body("    int8 x = 127\n"), vec![]);
    assert_eq!(codes_in_body("    int8 x = -128\n"), vec![]);
    assert_eq!(codes_in_body("    uint8 x = 255\n"), vec![]);
    assert_eq!(codes_in_body("    int8 x = 128\n"), vec![ErrorCode::VarDeclTypeMismatch]);
    assert_eq!(codes_in_body("    uint8 x = -1\n"), vec![ErrorCode::VarDeclTypeMismatch]);
}

#[test]
fn results_and_optionals_are_not_dropped() {
    let warnings = |body: &str| {
        let source = format!("function main() returns nothing:\n{body}    return nothing\n");
        let found = check_source_result(&source).diagnostics;
        found.iter().map(|d| (d.severity, d.code)).collect::<Vec<_>>()
    };
    assert_eq!(
        warnings("    int64.from_string(\"1\")\n"),
        vec![(Severity::Warning, ErrorCode::UnhandledResult)]
    );
    assert_eq!(warnings("    some(1)\n"), vec![(Severity::Warning, ErrorCode::UnhandledOptional)]);
}

#[test]
fn only_results_and_optionals_are_handled() {
    assert_eq!(
        codes_in_body("    int64 x = 1 handle:\n        default 2\n"),
        vec![ErrorCode::HandleRequiresResultOrOptional]
    );
}

#[test]
fn default_stands_in_a_handler() {
    assert_eq!(codes_in_body("    default 1\n"), vec![ErrorCode::DefaultOutsideHandle]);
}

#[test]
fn fields_are_given_once() {
    let source = "\
struct Point:
    x: int64
    y: int64

function main() returns Point:
    return Point(x: 1, x: 2, y: 3)
";
    assert_eq!(codes(source), vec![ErrorCode::DuplicateConstructorField]);
}

#[test]
fn fields_without_names_are_given_in_order() {
    let source = "\
struct Point:
    x: int64
    name: string

function good() returns Point:
    return Point(1, \"a\")

function bad() returns Point:
    return Point(\"a\", 1)
";
    assert_eq!(codes(source), vec![ErrorCode::ArgumentTypeMismatch, ErrorCode::ArgumentTypeMismatch]);
}

#[test]
fn each_missing_field_is_reported() {
    let source = "\
struct Point:
    x: int64
    y: int64
    z: int64

function main() returns Point:
    return Point(y: 1)
";
    let errors = check_source_errors(source);
    let missing: Vec<(ErrorCode, String)> = errors.iter().map(|d| (d.code, d.args[1].clone())).collect();
    assert_eq!(
        missing,
        vec![
            (ErrorCode::MissingConstructorField, "x".to_string()),
            (ErrorCode::MissingConstructorField, "z".to_string()),
        ]
    );
}

#[test]
fn match_takes_an_enum() {
    let source = "\
function main(n: int64) returns nothing:
    match n:
        one:
            return nothing
    return nothing
";
    assert_eq!(codes(source), vec![ErrorCode::MatchRequiresEnum]);
}

#[test]
fn arms_name_variants() {
    let source = "\
enum Color:
    red
    blue

function describe(color: Color) returns int64:
    match color:
        red:
            return 1
        green:
            return 2
        blue:
            return 3
";
    assert_eq!(codes(source), vec![ErrorCode::TypeHasNoMember]);
}

#[test]
fn only_interfaces_are_implemented() {
    let source = "\
struct Dog:
    name: string

implement Dog for Dog:
    function speak(view self: Dog) returns string:
        return self.name
";
    assert_eq!(codes(source), vec![ErrorCode::ExpectedInterface]);
}

#[test]
fn implementations_have_what_the_interface_has() {
    let source = "\
interface Speaker:
    function speak(view self: Speaker) returns string

struct Dog:
    name: string

implement Speaker for Dog:
    function speak(view self: Dog) returns string:
        return self.name
    function speak(view self: Dog) returns string:
        return self.name
    function run(view self: Dog) returns string:
        return self.name
";
    assert_eq!(
        codes(source),
        vec![ErrorCode::DuplicateImplementedMethod, ErrorCode::InterfaceHasNoMember]
    );
}

#[test]
fn only_refinements_are_coarsened() {
    let source = "function main() returns int64:\n    return coarsen 1\n";
    assert_eq!(codes(source), vec![ErrorCode::CoarsenRequiresRefinement]);
}

#[test]
fn assertions_stand_in_test_blocks() {
    assert_eq!(codes_in_body("    assert true\n"), vec![ErrorCode::AssertOutsideTestBlock]);
    assert_eq!(codes("verify sums:\n    assert 1 + 1 == 2\n"), vec![]);
    assert_eq!(codes("verify sums:\n    assert 1 + 1\n"), vec![ErrorCode::AssertConditionNotBool]);
    assert_eq!(codes("property sums(n: int64):\n    assert n == n\n"), vec![]);
}

#[test]
fn respond_stands_in_a_handler_of_its_type() {
    assert_eq!(codes_in_body("    respond 1\n"), vec![ErrorCode::RespondOutsideHandler]);
    let source = "\
actor Counter:
    int64 count = 0
    receive get() responds int64:
        respond count
    receive name() responds string:
        respond count
";
    assert_eq!(codes(source), vec![ErrorCode::TypeMismatch]);
}

#[test]
fn actor_state_starts_with_its_type() {
    let source = "\
actor Counter:
    int64 count = \"none\"
    receive get() responds int64:
        respond count
";
    assert_eq!(codes(source), vec![ErrorCode::TypeMismatch]);
}

// Machines

const DOOR: &str = "\
machine Door:
    state opened
    state closed(code: int64)
    opened to closed

";

#[test]
fn machine_declarations_are_checked() {
    let twice = "machine Door:\n    state opened\n    state opened\n";
    let errors = check_source_errors(twice);
    assert_eq!(errors.len(), 1);
    assert_eq!(errors[0].code, ErrorCode::DuplicateMachineState);
    assert_eq!(errors[0].related.map(|s| s.start), Some(24));
    let unknown = "machine Door:\n    state opened\n    opened to locked\n    shut to opened\n";
    let errors = check_source_errors(unknown);
    let found: Vec<(ErrorCode, &str)> = errors.iter().map(|d| (d.code, d.args[2].as_str())).collect();
    assert_eq!(
        found,
        vec![
            (ErrorCode::InvalidMachineTransition, "unknown target state `locked`"),
            (ErrorCode::InvalidMachineTransition, "unknown source state `shut`"),
        ]
    );
}

#[test]
fn machines_start_in_a_declared_state() {
    let start = |args: &str| {
        codes(&format!("{DOOR}function main() returns nothing:\n    Door door = Door({args})\n    return nothing\n"))
    };
    assert_eq!(start("opened"), vec![]);
    assert_eq!(start("closed, 7"), vec![]);
    assert_eq!(start(""), vec![ErrorCode::InvalidMachineConstruction]);
    assert_eq!(start("locked"), vec![ErrorCode::InvalidMachineConstruction]);
    assert_eq!(start("closed"), vec![ErrorCode::InvalidMachineConstruction]);
    assert_eq!(start("closed, true"), vec![ErrorCode::ArgumentTypeMismatch]);
}

#[test]
fn machines_move_along_declared_transitions() {
    let step = |from: &str, to: &str| {
        codes(&format!(
            "{DOOR}function main(door: Door at {from}) returns nothing:\n    Door moved = Door.transition(door, {to})\n    return nothing\n"
        ))
    };
    assert_eq!(step("opened", "closed, 7"), vec![]);
    assert_eq!(step("opened", "closed"), vec![ErrorCode::InvalidMachineTransitionCall]);
    assert_eq!(step("closed", "opened"), vec![ErrorCode::InvalidMachineTransitionCall]);
    assert_eq!(step("opened", "locked"), vec![ErrorCode::InvalidMachineTransitionCall]);
}

#[test]
fn states_are_asked_for_by_name() {
    let ask = |state: &str| {
        codes(&format!("{DOOR}function main(door: Door) returns bool:\n    return door at {state}\n"))
    };
    assert_eq!(ask("closed"), vec![]);
    assert_eq!(ask("locked"), vec![ErrorCode::InvalidMachineStateCheck]);
}

#[test]
fn a_tested_state_gives_its_fields() {
    let source = format!(
        "{DOOR}function main(door: Door) returns int64:\n    if door at closed:\n        return door.code\n    return 0\n"
    );
    assert_eq!(codes(&source), vec![]);
    let source = format!("{DOOR}function main(door: Door) returns int64:\n    return door.code\n");
    assert_eq!(codes(&source), vec![ErrorCode::TypeHasNoMember]);
}

#[test]
fn the_last_state_left_gives_its_fields() {
    let source = format!(
        "{DOOR}function main(door: Door) returns int64:\n    if door at opened:\n        return 0\n    else:\n        return door.code\n"
    );
    assert_eq!(codes(&source), vec![]);
    let source = format!(
        "{DOOR}function main(door: Door) returns int64:\n    if not door at closed:\n        return door.code\n    return 0\n"
    );
    assert_eq!(codes(&source), vec![ErrorCode::TypeHasNoMember]);
}

#[test]
fn a_tested_state_is_forgotten_behind_the_branch() {
    let source = format!(
        "{DOOR}function main(door: Door) returns int64:\n    if door at closed:\n        return 0\n    return door.code\n"
    );
    assert_eq!(codes(&source), vec![ErrorCode::TypeHasNoMember]);
}

#[test]
fn machines_are_told_of() {
    let result = check_source_result(DOOR);
    let machine = result.reflection_metadata.get_machine("Door").expect("a machine");
    assert_eq!(machine.states.len(), 2);
    assert_eq!(machine.states[1].name, "closed");
    assert_eq!(machine.states[1].fields[0].name, "code");
    assert_eq!(machine.transitions.len(), 1);
    assert_eq!((machine.transitions[0].source_index, machine.transitions[0].target_index), (0, 1));
    let id = result.reflection_metadata.type_id_for_name("Door").expect("an id");
    assert_eq!(result.reflection_metadata.get_machine_for_id(id).map(|m| m.owner.clone()), Some("Door".to_string()));
    assert_eq!(
        result.reflection_metadata.get_type_info_for_id(id).map(|i| i.kind.clone()),
        Some("machine".to_string())
    );
}

// Types that describe types

#[test]
fn metadata_is_not_built() {
    assert_eq!(
        codes_in_body("    TypeInfo info = TypeInfo()\n"),
        vec![ErrorCode::ReflectionMetadataConstructor]
    );
}

#[test]
fn only_reflected_types_are_bound() {
    assert_eq!(
        codes_in_body("    comptime type T = 42:\n        int64 x = 1\n"),
        vec![ErrorCode::InvalidComptimeTypeBinding]
    );
}

#[test]
fn reflection_is_typed() {
    let source = "\
struct User:
    name: string

function main() returns string:
    TypeInfo info = type.info[User]()
    return info.type_name
";
    assert_eq!(codes(source), vec![]);
}

// JSON

#[test]
fn json_reads_values_through_views() {
    let source = "\
struct User:
    id: string

function main(user: User) returns string:
    return json.serialize[User](user)
";
    assert_eq!(codes(source), vec![ErrorCode::JsonSerializeRequiresView]);
}

#[test]
fn json_keys_are_strings() {
    let serialize = |key: &str| {
        codes(&format!(
            "function main(view m: map[{key}, int64]) returns string:\n    return json.serialize[map[{key}, int64]](view m)\n"
        ))
    };
    assert_eq!(serialize("string"), vec![]);
    assert_eq!(serialize("int64"), vec![ErrorCode::JsonMapKeyMustBeString]);
}

#[test]
fn json_has_no_form_for_functions() {
    let source = "\
struct Hook:
    run: function(int64) returns int64

function main(view hook: Hook) returns string:
    return json.serialize[Hook](view hook)
";
    assert_eq!(codes(source), vec![ErrorCode::JsonUnsupportedSerializeType]);
    let source = "\
struct Hook:
    run: function(int64) returns int64

function main(raw: string) returns nothing:
    Hook hook = json.parse[Hook](raw) handle error:
        return nothing
    return nothing
";
    assert_eq!(codes(source), vec![ErrorCode::JsonUnsupportedParseType]);
}

#[test]
fn json_names_differ() {
    let source = "\
struct User:
    id: string
    name: string as \"id\"
";
    let errors = check_source_errors(source);
    assert_eq!(errors.len(), 1);
    assert_eq!(errors[0].code, ErrorCode::DuplicateJsonSerializeName);
    assert_eq!(errors[0].args, vec!["User".to_string(), "id".to_string()]);
    assert_eq!(errors[0].related.map(|s| s.start), Some(17));
}

// Generic functions and structs

#[test]
fn generic_bodies_are_checked_where_they_are_called() {
    let unused = "function bad[T](x: T) returns string:\n    return x\n";
    assert_eq!(codes(unused), vec![]);
    let called = "\
function bad[T](x: T) returns string:
    return x

function main() returns string:
    string a = bad[int64](1)
    string b = bad[int64](2)
    return bad[string](\"c\")
";
    assert_eq!(codes(called), vec![ErrorCode::ReturnTypeMismatch]);
}

#[test]
fn generic_structs_keep_their_arguments_apart() {
    let source = "\
struct Box[T]:
    value: T

function main() returns int64:
    Box[int64] a = Box[int64](value: 1)
    Box[int64] b = a
    return b.value

function other() returns int64:
    Box[int64] a = Box[string](value: \"x\")
    return 1
";
    assert_eq!(codes(source), vec![ErrorCode::VarDeclTypeMismatch]);
}

#[test]
fn type_arguments_are_counted() {
    let source = "\
struct Pair[A, B]:
    a: A
    b: B

function main(view p: Pair[int64]) returns nothing:
    return nothing
";
    let errors = check_source_errors(source);
    assert!(errors.iter().all(|d| d.code == ErrorCode::UnknownType));
    assert!(!errors.is_empty());
    assert!(errors[0].message().contains("Pair (expected 2 type argument(s), got 1)"));
}

// Pipelines

#[test]
fn pipelines_hand_on_their_value() {
    assert_eq!(codes_in_body("    string x = \"abc\" |> string.upper\n"), vec![]);
    assert_eq!(codes_in_body("    int64 x = \"abc\" |> string.upper\n"), vec![ErrorCode::VarDeclTypeMismatch]);
    assert_eq!(codes_in_body("    string x = 1 |> string.upper\n"), vec![ErrorCode::ArgumentTypeMismatch]);
}

#[test]
fn pipelines_lift_secrets() {
    let source = "\
function main() returns nothing:
    secret[string] key = \"abc\"
    secret[string] upper = key |> string.upper
    return nothing
";
    assert_eq!(codes(source), vec![]);
    let source = "\
function main() returns nothing:
    secret[string] key = \"abc\"
    string upper = key |> string.upper
    return nothing
";
    assert_eq!(codes(source), vec![ErrorCode::VarDeclTypeMismatch]);
}

// Numbers

#[test]
fn math_takes_numbers_of_one_type() {
    assert_eq!(codes_in_body("    int64 x = math.abs(-1)\n"), vec![]);
    assert_eq!(codes_in_body("    int64 x = math.abs(true)\n"), vec![ErrorCode::ArgumentTypeMismatch]);
    assert_eq!(codes_in_body("    int64 x = math.max(1, 2)\n"), vec![]);
    assert_eq!(codes_in_body("    int64 x = math.max(1, \"a\")\n"), vec![ErrorCode::ArgumentTypeMismatch]);
    assert_eq!(codes_in_body("    int64 x = math.min(1)\n"), vec![ErrorCode::ArgumentCountMismatch]);
}

#[test]
fn literals_take_the_type_beside_them() {
    let source = "function f(x: int8) returns int8:\n    return x + 1\n";
    assert_eq!(codes(source), vec![]);
    let source = "function f(x: int8) returns int8:\n    return x + 1000\n";
    assert_eq!(codes(source), vec![ErrorCode::BinaryOpMismatch]);
}

// Enums and bitfields

#[test]
fn variants_are_numbered_from_the_last_number() {
    let source = "\
enum Level:
    low
    mid
    high = 10
    top
    under = -3
    over
";
    let result = check_source_result(source);
    let variants = result.reflection_metadata.get_type_variants("Level").expect("variants");
    let numbers: Vec<i64> = variants.iter().map(|v| v.discriminant).collect();
    assert_eq!(numbers, vec![0, 1, 10, 11, -3, -2]);
}

#[test]
fn a_number_is_given_once() {
    let source = "\
enum Level:
    low = 1
    mid = 0
    high
";
    let errors = check_source_errors(source);
    assert_eq!(errors.len(), 1);
    assert_eq!(errors[0].code, ErrorCode::DuplicateEnumDiscriminant);
    assert_eq!(errors[0].args, vec!["Level".to_string(), "high".to_string(), "1".to_string()]);
    assert_eq!(errors[0].label(), Some("first given here".to_string()));
}

#[test]
fn bitfield_slots_are_checked() {
    let why = |fields: &str| {
        let errors = check_source_errors(&format!(
            "enum Flag:\n    off\n    on\n    both = 4\n\nenum Full:\n    some_value(x: int64)\n\nbitfield B:\n{fields}"
        ));
        errors.into_iter().map(|d| d.args[2].clone()).collect::<Vec<String>>()
    };
    assert_eq!(why("    a: 3 bits as Flag\n    b: 5 bits\n    rest: list[uint8]\n"), Vec::<String>::new());
    assert_eq!(why("    a: 0 bits\n"), vec!["bit width must be at least 1"]);
    assert_eq!(why("    a: 65 bits\n"), vec!["bit width must be at most 64"]);
    assert_eq!(
        why("    a: 2 bits as Flag\n"),
        vec!["enum annotation has a discriminant that does not fit in the declared bit width"]
    );
    assert_eq!(
        why("    a: 8 bits as Full\n"),
        vec!["`as` annotations require an enum with only unit variants"]
    );
    assert_eq!(why("    a: 8 bits as int64\n"), vec!["`as` annotations must name an enum type"]);
    assert_eq!(
        why("    rest: list[uint8]\n    a: 8 bits\n"),
        vec!["payload fields must be the final field"]
    );
    assert_eq!(
        why("    a: 4 bits\n    rest: list[uint8]\n"),
        vec!["payload fields must start on a byte boundary"]
    );
}

#[test]
fn bitfields_are_told_of() {
    let source = "\
enum Flag:
    off
    on

bitfield network Header:
    kind: 8 bits as Flag
    size: 64 bits
    rest: list[uint8]
";
    let result = check_source_result(source);
    let header = result.reflection_metadata.get_bitfield("Header").expect("a bitfield");
    assert!(header.network_order);
    let shapes: Vec<(&str, i64, &str)> =
        header.fields.iter().map(|f| (f.shape.as_str(), f.width, f.type_info.name.as_str())).collect();
    assert_eq!(shapes, vec![("bits", 8, "Flag"), ("bits", 64, "uint64"), ("payload", 0, "list[uint8]")]);
    assert_eq!(header.fields[0].enum_type.as_ref().map(|t| t.kind.clone()), Some("enum".to_string()));
    assert!(header.fields[1].enum_type.is_none());
    let fields = result.reflection_metadata.get_type_fields("Header").expect("fields");
    assert_eq!(fields[1].type_info.primitive_tag, Some("uint64_type".to_string()));
}

// Secrets

#[test]
fn secrets_inside_are_told_of() {
    let source = "\
struct User:
    id: string
    keys: list[secret[string]]

enum Event:
    login(user: User)
    logout
";
    let result = check_source_result(source);
    let metadata = &result.reflection_metadata;
    assert!(metadata.get_type_info("User").expect("a type").has_secret);
    let fields = metadata.get_type_fields("User").expect("fields");
    assert_eq!(fields.iter().map(|f| f.type_info.has_secret).collect::<Vec<bool>>(), vec![false, true]);
    assert_eq!(fields[1].type_info.name, "list[secret[string]]");
    let variants = metadata.get_type_variants("Event").expect("variants");
    assert_eq!(variants.iter().map(|v| v.has_secret).collect::<Vec<bool>>(), vec![true, false]);
}

#[test]
fn secrets_are_not_printed() {
    let source = "\
function main() returns nothing:
    secret[int64] key = 1
    secret[int64] other = 2
    print(key)
    println(1, other)
    return nothing
";
    assert_eq!(codes(source), vec![ErrorCode::SecretExposure, ErrorCode::SecretExposure]);
}

#[test]
fn operations_on_secrets_are_secret() {
    let source = "\
function main() returns secret[int64]:
    secret[int64] a = 1
    return a + 2
";
    assert_eq!(codes(source), vec![]);
    let source = "\
function main() returns int64:
    secret[int64] a = 1
    return a + 2
";
    assert_eq!(codes(source), vec![ErrorCode::ReturnTypeMismatch]);
}

// Aliases

#[test]
fn aliases_that_go_in_a_circle_are_unknown() {
    let errors = check_source_errors("type A = B\ntype B = A\n");
    assert!(!errors.is_empty());
    assert!(errors.iter().all(|d| d.code == ErrorCode::UnknownType));
}

#[test]
fn refinements_are_told_of() {
    let result = check_source_result("type Port = int64 where value >= 1\ntype Id = int64\n");
    let metadata = &result.reflection_metadata;
    let port = metadata.get_type_info("Port").expect("a refinement");
    assert_eq!((port.kind.as_str(), port.args[0].name.as_str()), ("refinement", "int64"));
    let id = metadata.get_type_info("Id").expect("an alias");
    assert_eq!((id.kind.as_str(), id.args[0].name.as_str()), ("alias", "int64"));
    assert!(metadata.type_id_for_name("Port").is_some());
    assert!(metadata.get_type_info("Other").is_none());
}

// Order

#[test]
fn reports_come_in_the_order_of_the_source() {
    let source = "\
function take(items: list[int64]) returns nothing:
    return nothing

function main(items: list[int64]) returns string:
    take(items)
    take(items)
    int64 x = true
    return 1
";
    let errors = check_source_errors(source);
    let found: Vec<ErrorCode> = errors.iter().map(|d| d.code).collect();
    assert_eq!(
        found,
        vec![ErrorCode::VarDeclTypeMismatch, ErrorCode::ReturnTypeMismatch, ErrorCode::UseAfterMove]
    );
    assert_eq!(errors[2].message(), "`items` was consumed and cannot be used again");
    assert_eq!(errors[2].label(), Some("`items` was consumed here".to_string()));
}

#[test]
fn views_are_not_given_away() {
    let source = "\
function take(items: list[int64]) returns nothing:
    return nothing

function main(view items: list[int64]) returns nothing:
    take(items)
    return nothing
";
    let errors = check_source_errors(source);
    assert_eq!(errors.len(), 1);
    assert_eq!(errors[0].code, ErrorCode::CannotConsumeView);
    assert_eq!(errors[0].message(), "cannot consume `items` because it is a view parameter");
}

// Types

#[test]
fn every_noted_type_is_stored() {
    let source = format!(
        "{DOOR}\
struct Box[T]:
    value: T

actor Counter:
    int64 count = 0
    receive get() responds int64:
        respond count

function first[T](items: list[T]) returns optional[T]:
    return list.first[T](items)

function main(door: Door, counter: Counter) returns nothing:
    secret[Box[string]] box = Box[string](value: \"a\")
    optional[int64] head = first[int64](list(1, 2, 3))
    int64 n = ask counter.get()
    if door at closed:
        int64 code = door.code
    for item in list(1, 2):
        map[string, int64] m = map.new[string, int64]()
    unknown(1)
    return nothing
"
    );
    let result = check_source_result(&source);
    let spans = result.type_map.keys();
    assert!(spans.len() > 20);
    for span in &spans {
        assert!(*result.type_map.get(span).unwrap() < result.interner.len());
    }
}
