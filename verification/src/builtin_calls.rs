//! The signature that a call of a builtin has.
use vstd::prelude::*;
use vstd::string::StringExecFns;

use crate::ast::{Expr, TypeExpr};
use crate::builtins::{basic_id, builtin_named, find_builtin, meta_words, Arity, Builtin, Meta, Params, Shape, Simple, Target};
use crate::names::{after_last_dot, before_last_dot, expr_name, split_last_dot};
use crate::resolve_types::wrong_count_text;
use crate::span::Span;
use crate::state::{intern_type, with_types, State, TypeChecker};
use crate::steady::{has, has_all, has_shape, keeps, known};
use crate::table::look;
use crate::text::{join3, same_text, text};
use crate::type_names::name_of;
use crate::types::{intern_function, ty, FunctionShape, FunctionShapeV, Type, TypeId, TypeInterner};
use crate::written_types::{resolve_type, unknown_type, wrong_count};

verus! {

broadcast use crate::steady::group_steady;

/// The type arguments of a call.
#[derive(Debug, Clone, Copy, PartialEq, Eq, Structural)]
pub struct Args {
    pub a: TypeId,
    pub b: TypeId,
    pub c: TypeId,
}

pub open spec fn any_types() -> Args {
    Args { a: TypeInterner::ERROR, b: TypeInterner::ERROR, c: TypeInterner::ERROR }
}

pub open spec fn has_args(s: State, args: Args) -> bool {
    has(s, args.a) && has(s, args.b) && has(s, args.c)
}

pub open spec fn or_error(o: Option<TypeId>) -> TypeId {
    match o {
        Some(id) => id,
        None => TypeInterner::ERROR,
    }
}

pub open spec fn simple_type(s: State, x: Simple, args: Args) -> TypeId {
    match x {
        Simple::A => args.a,
        Simple::B => args.b,
        Simple::C => args.c,
        Simple::Meta(m) => or_error(look(s.named_types, meta_words(m))),
        _ => basic_id(x),
    }
}

pub open spec fn function_of(s: State, params: Seq<TypeId>, return_type: TypeId) -> (State, TypeId) {
    with_types(s, intern_function(s.types, FunctionShapeV { params, return_type }))
}

/// The type that a shape stands for under the type arguments.
#[verifier::opaque]
pub open spec fn shape_type(s: State, shape: Shape, args: Args) -> (State, TypeId) {
    match shape {
        Shape::One(x) => (s, simple_type(s, x, args)),
        Shape::List(x) => intern_type(s, Type::List(simple_type(s, x, args))),
        Shape::ListOfLists(x) => {
            let (s1, inner) = intern_type(s, Type::List(simple_type(s, x, args)));
            intern_type(s1, Type::List(inner))
        },
        Shape::MapOf(x, y) => intern_type(
            s,
            Type::MapOf(simple_type(s, x, args), simple_type(s, y, args)),
        ),
        Shape::ListOfMaps(x, y) => {
            let (s1, inner) = intern_type(
                s,
                Type::MapOf(simple_type(s, x, args), simple_type(s, y, args)),
            );
            intern_type(s1, Type::List(inner))
        },
        Shape::MapToLists(x, y) => {
            let (s1, inner) = intern_type(s, Type::List(simple_type(s, y, args)));
            intern_type(s1, Type::MapOf(simple_type(s, x, args), inner))
        },
        Shape::SetOf(x) => intern_type(s, Type::SetOf(simple_type(s, x, args))),
        Shape::Optional(x) => intern_type(s, Type::Optional(simple_type(s, x, args))),
        Shape::Result(x, y) => intern_type(
            s,
            Type::Result(simple_type(s, x, args), simple_type(s, y, args)),
        ),
        Shape::Secret(x) => intern_type(s, Type::Secret(simple_type(s, x, args))),
        Shape::Fn1(x, y) => function_of(
            s,
            seq![simple_type(s, x, args)],
            simple_type(s, y, args),
        ),
        Shape::Fn2(x, y, z) => function_of(
            s,
            seq![simple_type(s, x, args), simple_type(s, y, args)],
            simple_type(s, z, args),
        ),
        Shape::Fn1ToList(x, y) => {
            let (s1, list) = intern_type(s, Type::List(simple_type(s, y, args)));
            function_of(s1, seq![simple_type(s, x, args)], list)
        },
    }
}

#[verifier::opaque]
pub open spec fn param_types(s: State, params: Params, args: Args) -> (State, Seq<TypeId>) {
    match params {
        Params::P0 => (s, seq![]),
        Params::P1(x) => {
            let (s1, a) = shape_type(s, x, args);
            (s1, seq![a])
        },
        Params::P2(x, y) => {
            let (s1, a) = shape_type(s, x, args);
            let (s2, b) = shape_type(s1, y, args);
            (s2, seq![a, b])
        },
        Params::P3(x, y, z) => {
            let (s1, a) = shape_type(s, x, args);
            let (s2, b) = shape_type(s1, y, args);
            let (s3, c) = shape_type(s2, z, args);
            (s3, seq![a, b, c])
        },
    }
}

pub open spec fn target_allows(target: Target, t: Type) -> bool {
    match target {
        Target::Any => true,
        Target::StructOrBitfield => t is Struct || t is Bitfield,
        Target::EnumOnly => t is Enum,
        Target::MachineOnly => t is Machine || t is MachineState,
        Target::Constructible => t is Struct || t is Bitfield || t is Enum || t is Machine
            || t is MachineState,
    }
}

pub open spec fn target_words(target: Target) -> Seq<char> {
    match target {
        Target::Any => "types"@,
        Target::StructOrBitfield => "structs and bitfields"@,
        Target::EnumOnly => "enums"@,
        Target::MachineOnly => "machines and machine states"@,
        Target::Constructible => "structs, bitfields, enums, and machines"@,
    }
}

/// Reports a first type argument of the wrong kind.
pub open spec fn check_target(s: State, name: Seq<char>, target: Target, a: TypeId, span: Span) -> State {
    if target_allows(target, ty(s.types, a)) {
        s
    } else {
        unknown_type(
            s,
            name + " supports only "@ + target_words(target) + ", got "@ + name_of(s.types, a),
            span,
        )
    }
}

pub open spec fn wrong_type_args(
    s: State,
    name: Seq<char>,
    expected: Seq<char>,
    type_args: Seq<TypeExpr>,
    span: Span,
) -> State {
    unknown_type(s, wrong_count(name, expected, type_args.len()), span)
}

/// The type arguments of a call, or `None` where their number is wrong and
/// nothing can be said of the call.
#[verifier::opaque]
pub open spec fn call_type_args(
    s: State,
    name: Seq<char>,
    b: Builtin,
    type_args: Seq<TypeExpr>,
    span: Span,
) -> (State, Option<Args>) {
    match b.arity {
        Arity::Nothing => if type_args.len() == 0 {
            (s, Some(any_types()))
        } else {
            (wrong_type_args(s, name, "0 type arguments"@, type_args, span), Some(any_types()))
        },
        Arity::One => if type_args.len() == 1 {
            let (s1, a) = resolve_type(s, type_args[0]);
            (check_target(s1, name, b.target, a, span), Some(Args { a, ..any_types() }))
        } else {
            (wrong_type_args(s, name, "1 type argument"@, type_args, span), None)
        },
        Arity::Two => if type_args.len() == 2 {
            let (s1, a) = resolve_type(s, type_args[0]);
            let s2 = check_target(s1, name, b.target, a, span);
            let (s3, second) = resolve_type(s2, type_args[1]);
            (s3, Some(Args { a, b: second, ..any_types() }))
        } else {
            (wrong_type_args(s, name, "2 type arguments"@, type_args, span), None)
        },
        Arity::UpToOne => if type_args.len() == 0 {
            (s, Some(any_types()))
        } else if type_args.len() == 1 {
            let (s1, a) = resolve_type(s, type_args[0]);
            (s1, Some(Args { a, ..any_types() }))
        } else {
            (
                wrong_type_args(s, name, "0 or 1 type arguments"@, type_args, span),
                Some(any_types()),
            )
        },
        Arity::UpToOneOrFloat => if type_args.len() == 0 {
            (s, Some(Args { a: TypeInterner::FLOAT64, ..any_types() }))
        } else if type_args.len() == 1 {
            let (s1, a) = resolve_type(s, type_args[0]);
            (s1, Some(Args { a, ..any_types() }))
        } else {
            (
                wrong_type_args(s, name, "0 or 1 type arguments"@, type_args, span),
                Some(any_types()),
            )
        },
        Arity::NoneOrTwo => if type_args.len() == 0 {
            (s, Some(any_types()))
        } else if type_args.len() == 2 {
            let (s1, a) = resolve_type(s, type_args[0]);
            let (s2, second) = resolve_type(s1, type_args[1]);
            (s2, Some(Args { a, b: second, ..any_types() }))
        } else {
            (
                wrong_type_args(s, name, "0 or 2 type arguments"@, type_args, span),
                Some(any_types()),
            )
        },
        Arity::NoneTwoOrThree => if type_args.len() == 0 {
            (s, Some(any_types()))
        } else if type_args.len() == 2 {
            let (s1, a) = resolve_type(s, type_args[0]);
            let (s2, second) = resolve_type(s1, type_args[1]);
            (s2, Some(Args { a, b: second, c: second }))
        } else if type_args.len() == 3 {
            let (s1, a) = resolve_type(s, type_args[0]);
            let (s2, second) = resolve_type(s1, type_args[1]);
            let (s3, third) = resolve_type(s2, type_args[2]);
            (s3, Some(Args { a, b: second, c: third }))
        } else {
            (
                wrong_type_args(s, name, "0, 2, or 3 type arguments"@, type_args, span),
                Some(any_types()),
            )
        },
    }
}

/// The signature of the builtin under the type arguments.
#[verifier::opaque]
pub open spec fn builtin_call(
    s: State,
    name: Seq<char>,
    b: Builtin,
    type_args: Seq<TypeExpr>,
    span: Span,
) -> (State, FunctionShapeV) {
    let (s1, found) = call_type_args(s, name, b, type_args, span);
    match found {
        Some(args) => {
            let (s2, params) = param_types(s1, b.params, args);
            let (s3, return_type) = shape_type(s2, b.ret, args);
            (s3, FunctionShapeV { params, return_type })
        },
        None => {
            let (s2, params) = param_types(s1, b.fallback, any_types());
            (s2, FunctionShapeV { params, return_type: TypeInterner::ERROR })
        },
    }
}

/// Every bitfield can be turned into bytes and back.
#[verifier::opaque]
pub open spec fn bitfield_call(
    s: State,
    name: Seq<char>,
    type_args: Seq<TypeExpr>,
    span: Span,
) -> Option<(State, FunctionShapeV)> {
    match (before_last_dot(name), after_last_dot(name)) {
        (Some(owner), Some(method)) => match look(s.named_types, owner) {
            Some(id) => if !(ty(s.types, id) is Bitfield) {
                None
            } else {
                let s1 = if type_args.len() == 0 {
                    s
                } else {
                    wrong_type_args(s, name, "0 type arguments"@, type_args, span)
                };
                if method == "to_bytes"@ {
                    Some((s1, FunctionShapeV { params: seq![id], return_type: TypeInterner::BYTES }))
                } else if method == "from_bytes"@ {
                    let (s2, r) = intern_type(s1, Type::Result(id, TypeInterner::STRING));
                    Some((s2, FunctionShapeV { params: seq![TypeInterner::BYTES], return_type: r }))
                } else {
                    None
                }
            },
            None => None,
        },
        _ => None,
    }
}

/// The parameter types and the result type of a call of a builtin, or `None`
/// where the callee is no builtin.
#[verifier::opaque]
pub open spec fn builtin_signature(s: State, callee: Expr, type_args: Seq<TypeExpr>, span: Span) -> (
    State,
    Option<FunctionShapeV>,
) {
    match expr_name(s.names, callee) {
        None => (s, None),
        Some(name) => match bitfield_call(s, name, type_args, span) {
            Some((s1, shape)) => (s1, Some(shape)),
            None => match builtin_named(name) {
                Some(b) => {
                    let (s1, shape) = builtin_call(s, name, b, type_args, span);
                    (s1, Some(shape))
                },
                None => (s, None),
            },
        },
    }
}

pub open spec fn maybe_shape(o: Option<FunctionShape>) -> Option<FunctionShapeV> {
    match o {
        Some(f) => Some(f@),
        None => None,
    }
}

fn no_types() -> (r: Args)
    ensures
        r == any_types(),
{
    Args { a: TypeInterner::ERROR, b: TypeInterner::ERROR, c: TypeInterner::ERROR }
}

fn target_text(target: Target) -> (r: &'static str)
    ensures
        r@ == target_words(target),
{
    match target {
        Target::Any => "types",
        Target::StructOrBitfield => "structs and bitfields",
        Target::EnumOnly => "enums",
        Target::MachineOnly => "machines and machine states",
        Target::Constructible => "structs, bitfields, enums, and machines",
    }
}

fn is_allowed(target: Target, t: Type) -> (r: bool)
    ensures
        r == target_allows(target, t),
{
    match target {
        Target::Any => true,
        Target::StructOrBitfield => match t {
            Type::Struct(_) | Type::Bitfield(_) => true,
            _ => false,
        },
        Target::EnumOnly => match t {
            Type::Enum(_) => true,
            _ => false,
        },
        Target::MachineOnly => match t {
            Type::Machine(_) => true,
            Type::MachineState { machine, state } => true,
            _ => false,
        },
        Target::Constructible => match t {
            Type::Struct(_) | Type::Bitfield(_) | Type::Enum(_) | Type::Machine(_) => true,
            Type::MachineState { machine, state } => true,
            _ => false,
        },
    }
}

pub fn ids1(a: TypeId) -> (r: Vec<TypeId>)
    ensures
        r@ == seq![a],
{
    let mut r: Vec<TypeId> = Vec::new();
    r.push(a);
    assert(r@ =~= seq![a]);
    r
}

pub fn ids2(a: TypeId, b: TypeId) -> (r: Vec<TypeId>)
    ensures
        r@ == seq![a, b],
{
    let mut r: Vec<TypeId> = Vec::new();
    r.push(a);
    r.push(b);
    assert(r@ =~= seq![a, b]);
    r
}

pub fn ids3(a: TypeId, b: TypeId, c: TypeId) -> (r: Vec<TypeId>)
    ensures
        r@ == seq![a, b, c],
{
    let mut r: Vec<TypeId> = Vec::new();
    r.push(a);
    r.push(b);
    r.push(c);
    assert(r@ =~= seq![a, b, c]);
    r
}

impl<'a> TypeChecker<'a> {
    /// The type declared under a name that may be missing.
    pub(crate) fn named_or_error(&self, name: &str) -> (r: TypeId)
        ensures
            known(self@) ==> has(self@, r),
            r == or_error(look(self@.named_types, name@)),
    {
        let key = text(name);
        match self.get_named_types(&key) {
            Some(id) => id,
            None => TypeInterner::ERROR,
        }
    }

    fn simple_type(&self, x: Simple, args: Args) -> (r: TypeId)
        ensures
            known(self@) && has_args(self@, args) ==> has(self@, r),
            r == simple_type(self@, x, args),
    {
        match x {
            Simple::A => args.a,
            Simple::B => args.b,
            Simple::C => args.c,
            Simple::Meta(m) => self.named_or_error(m.name()),
            _ => x.basic_id(),
        }
    }

    fn shape_type(&mut self, shape: Shape, args: Args) -> (r: TypeId)
        ensures
            keeps(old(self)@, final(self)@),
            known(old(self)@) && has_args(old(self)@, args)
                ==> known(final(self)@) && has(final(self)@, r),
            (final(self)@, r) == shape_type(old(self)@, shape, args),
    {
        proof {
            reveal(shape_type);
        }
        match shape {
            Shape::One(x) => self.simple_type(x, args),
            Shape::List(x) => {
                let a: usize = self.simple_type(x, args);
                self.intern(Type::List(a))
            },
            Shape::ListOfLists(x) => {
                let a: usize = self.simple_type(x, args);
                let inner: usize = self.intern(Type::List(a));
                self.intern(Type::List(inner))
            },
            Shape::MapOf(x, y) => {
                let a: usize = self.simple_type(x, args);
                let b: usize = self.simple_type(y, args);
                self.intern(Type::MapOf(a, b))
            },
            Shape::ListOfMaps(x, y) => {
                let a: usize = self.simple_type(x, args);
                let b: usize = self.simple_type(y, args);
                let inner: usize = self.intern(Type::MapOf(a, b));
                self.intern(Type::List(inner))
            },
            Shape::MapToLists(x, y) => {
                let a: usize = self.simple_type(x, args);
                let b: usize = self.simple_type(y, args);
                let inner: usize = self.intern(Type::List(b));
                self.intern(Type::MapOf(a, inner))
            },
            Shape::SetOf(x) => {
                let a: usize = self.simple_type(x, args);
                self.intern(Type::SetOf(a))
            },
            Shape::Optional(x) => {
                let a: usize = self.simple_type(x, args);
                self.intern(Type::Optional(a))
            },
            Shape::Result(x, y) => {
                let a: usize = self.simple_type(x, args);
                let b: usize = self.simple_type(y, args);
                self.intern(Type::Result(a, b))
            },
            Shape::Secret(x) => {
                let a: usize = self.simple_type(x, args);
                self.intern(Type::Secret(a))
            },
            Shape::Fn1(x, y) => {
                let a: usize = self.simple_type(x, args);
                let b: usize = self.simple_type(y, args);
                self.intern_function(ids1(a), b)
            },
            Shape::Fn2(x, y, z) => {
                let a: usize = self.simple_type(x, args);
                let b: usize = self.simple_type(y, args);
                let c: usize = self.simple_type(z, args);
                self.intern_function(ids2(a, b), c)
            },
            Shape::Fn1ToList(x, y) => {
                let a: usize = self.simple_type(x, args);
                let b: usize = self.simple_type(y, args);
                let list: usize = self.intern(Type::List(b));
                self.intern_function(ids1(a), list)
            },
        }
    }

    fn param_types(&mut self, params: Params, args: Args) -> (r: Vec<TypeId>)
        ensures
            keeps(old(self)@, final(self)@),
            known(old(self)@) && has_args(old(self)@, args) ==> known(final(self)@) && has_all(
                final(self)@,
                r@,
            ),
            (final(self)@, r@) == param_types(old(self)@, params, args),
    {
        proof {
            reveal(param_types);
        }
        match params {
            Params::P0 => {
                let r: Vec<TypeId> = Vec::new();
                assert(r@ =~= seq![]);
                r
            },
            Params::P1(x) => {
                let a: usize = self.shape_type(x, args);
                ids1(a)
            },
            Params::P2(x, y) => {
                let a: usize = self.shape_type(x, args);
                let b: usize = self.shape_type(y, args);
                ids2(a, b)
            },
            Params::P3(x, y, z) => {
                let a: usize = self.shape_type(x, args);
                let b: usize = self.shape_type(y, args);
                let c: usize = self.shape_type(z, args);
                ids3(a, b, c)
            },
        }
    }

    fn check_target(&mut self, name: &String, target: Target, a: TypeId, span: Span)
        ensures
            keeps(old(self)@, final(self)@),
            known(old(self)@) ==> known(final(self)@),
            final(self)@ == check_target(old(self)@, name@, target, a, span),
    {
        if !is_allowed(target, self.interner().resolve(a)) {
            let mut what = join3(name.as_str(), " supports only ", target_text(target));
            what.append(", got ");
            what.append(self.interner().name_of(a).as_str());
            self.emit_unknown_type(what, span);
        }
    }

    pub(crate) fn wrong_type_args(&mut self, name: &String, expected: &str, type_args: &Vec<TypeExpr>, span: Span)
        ensures
            keeps(old(self)@, final(self)@),
            known(old(self)@) ==> known(final(self)@),
            final(self)@ == wrong_type_args(old(self)@, name@, expected@, type_args@, span),
    {
        self.emit_unknown_type(wrong_count_text(name.as_str(), expected, type_args.len()), span);
    }

    fn call_type_args(&mut self, name: &String, b: Builtin, type_args: &Vec<TypeExpr>, span: Span) -> (r:
        Option<Args>)
        ensures
            keeps(old(self)@, final(self)@),
            known(old(self)@) ==> known(final(self)@) && (r matches Some(args) ==> has_args(
                final(self)@,
                args,
            )),
            (final(self)@, r) == call_type_args(old(self)@, name@, b, type_args@, span),
    {
        proof {
            reveal(call_type_args);
        }
        let n: usize = type_args.len();
        match b.arity {
            Arity::Nothing => {
                if n != 0 {
                    self.wrong_type_args(name, "0 type arguments", type_args, span);
                }
                Some(no_types())
            },
            Arity::One => {
                if n == 1 {
                    let a: usize = self.resolve_type_expr(&type_args[0]);
                    self.check_target(name, b.target, a, span);
                    Some(Args { a, ..no_types() })
                } else {
                    self.wrong_type_args(name, "1 type argument", type_args, span);
                    None
                }
            },
            Arity::Two => {
                if n == 2 {
                    let a: usize = self.resolve_type_expr(&type_args[0]);
                    self.check_target(name, b.target, a, span);
                    let second: usize = self.resolve_type_expr(&type_args[1]);
                    Some(Args { a, b: second, ..no_types() })
                } else {
                    self.wrong_type_args(name, "2 type arguments", type_args, span);
                    None
                }
            },
            Arity::UpToOne => {
                if n == 0 {
                    Some(no_types())
                } else if n == 1 {
                    let a: usize = self.resolve_type_expr(&type_args[0]);
                    Some(Args { a, ..no_types() })
                } else {
                    self.wrong_type_args(name, "0 or 1 type arguments", type_args, span);
                    Some(no_types())
                }
            },
            Arity::UpToOneOrFloat => {
                if n == 0 {
                    Some(Args { a: TypeInterner::FLOAT64, ..no_types() })
                } else if n == 1 {
                    let a: usize = self.resolve_type_expr(&type_args[0]);
                    Some(Args { a, ..no_types() })
                } else {
                    self.wrong_type_args(name, "0 or 1 type arguments", type_args, span);
                    Some(no_types())
                }
            },
            Arity::NoneOrTwo => {
                if n == 0 {
                    Some(no_types())
                } else if n == 2 {
                    let a: usize = self.resolve_type_expr(&type_args[0]);
                    let second: usize = self.resolve_type_expr(&type_args[1]);
                    Some(Args { a, b: second, ..no_types() })
                } else {
                    self.wrong_type_args(name, "0 or 2 type arguments", type_args, span);
                    Some(no_types())
                }
            },
            Arity::NoneTwoOrThree => {
                if n == 0 {
                    Some(no_types())
                } else if n == 2 {
                    let a: usize = self.resolve_type_expr(&type_args[0]);
                    let second: usize = self.resolve_type_expr(&type_args[1]);
                    Some(Args { a, b: second, c: second })
                } else if n == 3 {
                    let a: usize = self.resolve_type_expr(&type_args[0]);
                    let second: usize = self.resolve_type_expr(&type_args[1]);
                    let third: usize = self.resolve_type_expr(&type_args[2]);
                    Some(Args { a, b: second, c: third })
                } else {
                    self.wrong_type_args(name, "0, 2, or 3 type arguments", type_args, span);
                    Some(no_types())
                }
            },
        }
    }

    fn builtin_call(&mut self, name: &String, b: Builtin, type_args: &Vec<TypeExpr>, span: Span) -> (r:
        FunctionShape)
        ensures
            keeps(old(self)@, final(self)@),
            known(old(self)@) ==> known(final(self)@) && has_shape(final(self)@, r@),
            (final(self)@, r@) == builtin_call(old(self)@, name@, b, type_args@, span),
    {
        proof {
            reveal(builtin_call);
        }
        match self.call_type_args(name, b, type_args, span) {
            Some(args) => {
                let params = self.param_types(b.params, args);
                let return_type: usize = self.shape_type(b.ret, args);
                FunctionShape { params, return_type }
            },
            None => {
                let params = self.param_types(b.fallback, no_types());
                FunctionShape { params, return_type: TypeInterner::ERROR }
            },
        }
    }

    fn bitfield_call(&mut self, name: &String, type_args: &Vec<TypeExpr>, span: Span) -> (r: Option<
        FunctionShape,
    >)
        ensures
            keeps(old(self)@, final(self)@),
            known(old(self)@)
                ==> known(final(self)@) && (r matches Some(x) ==> has_shape(final(self)@, x@)),
            r is Some <==> bitfield_call(old(self)@, name@, type_args@, span) is Some,
            r matches Some(f) ==> bitfield_call(old(self)@, name@, type_args@, span) == Some(
                (final(self)@, f@),
            ),
            r is None ==> final(self)@ == old(self)@,
    {
        proof {
            reveal(bitfield_call);
        }
        match split_last_dot(name.as_str()) {
            Some((owner, method)) => match self.get_named_types(&owner) {
                Some(id) => {
                    match self.interner().resolve(id) {
                        Type::Bitfield(_) => {
                            if same_text(method.as_str(), "to_bytes") {
                                if type_args.len() != 0 {
                                    self.wrong_type_args(name, "0 type arguments", type_args, span);
                                }
                                Some(
                                    FunctionShape {
                                        params: ids1(id),
                                        return_type: TypeInterner::BYTES,
                                    },
                                )
                            } else if same_text(method.as_str(), "from_bytes") {
                                if type_args.len() != 0 {
                                    self.wrong_type_args(name, "0 type arguments", type_args, span);
                                }
                                let return_type: usize = self.intern(
                                    Type::Result(id, TypeInterner::STRING),
                                );
                                Some(FunctionShape { params: ids1(TypeInterner::BYTES), return_type })
                            } else {
                                None
                            }
                        },
                        _ => None,
                    }
                },
                None => None,
            },
            None => None,
        }
    }

    /// The parameter types and the result type of a call of a builtin, or
    /// `None` where the callee is no builtin.
    pub fn builtin_signature(&mut self, callee: &Expr, type_args: &Vec<TypeExpr>, span: Span) -> (r:
        Option<FunctionShape>)
        ensures
            keeps(old(self)@, final(self)@),
            known(old(self)@)
                ==> known(final(self)@) && (r matches Some(x) ==> has_shape(final(self)@, x@)),
            (final(self)@, maybe_shape(r)) == builtin_signature(
                old(self)@,
                *callee,
                type_args@,
                span,
            ),
    {
        proof {
            reveal(builtin_signature);
        }
        match self.names().resolved_expr_name(callee) {
            None => None,
            Some(name) => {
                if let Some(f) = self.bitfield_call(&name, type_args, span) {
                    return Some(f);
                }
                match find_builtin(name.as_str()) {
                    Some(b) => Some(self.builtin_call(&name, b, type_args, span)),
                    None => None,
                }
            },
        }
    }
}

} // verus!
