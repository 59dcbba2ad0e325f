//! The signatures of the builtin functions.
use vstd::prelude::*;

use crate::text::same_text;
use crate::types::{TypeId, TypeInterner};

verus! {

/// The types that describe types to a running program.
#[derive(Debug, Clone, Copy, PartialEq, Eq, Structural)]
pub enum Meta {
    TypeKind,
    TypePrimitive,
    TypeInfo,
    TypeField,
    TypeBitfield,
    TypeBitfieldField,
    TypeVariant,
    TypeMachine,
    TypeMachineState,
    TypeMachineTransition,
}

pub open spec fn meta_words(m: Meta) -> Seq<char> {
    match m {
        Meta::TypeKind => "TypeKind"@,
        Meta::TypePrimitive => "TypePrimitive"@,
        Meta::TypeInfo => "TypeInfo"@,
        Meta::TypeField => "TypeField"@,
        Meta::TypeBitfield => "TypeBitfield"@,
        Meta::TypeBitfieldField => "TypeBitfieldField"@,
        Meta::TypeVariant => "TypeVariant"@,
        Meta::TypeMachine => "TypeMachine"@,
        Meta::TypeMachineState => "TypeMachineState"@,
        Meta::TypeMachineTransition => "TypeMachineTransition"@,
    }
}

impl Meta {
    /// The name that the type is declared under.
    pub fn name(self) -> (r: &'static str)
        ensures
            r@ == meta_words(self),
    {
        match self {
            Meta::TypeKind => "TypeKind",
            Meta::TypePrimitive => "TypePrimitive",
            Meta::TypeInfo => "TypeInfo",
            Meta::TypeField => "TypeField",
            Meta::TypeBitfield => "TypeBitfield",
            Meta::TypeBitfieldField => "TypeBitfieldField",
            Meta::TypeVariant => "TypeVariant",
            Meta::TypeMachine => "TypeMachine",
            Meta::TypeMachineState => "TypeMachineState",
            Meta::TypeMachineTransition => "TypeMachineTransition",
        }
    }
}

/// A type in a signature: a basic one, one of the type arguments, or one that
/// describes types.
#[derive(Debug, Clone, Copy, PartialEq, Eq, Structural)]
pub enum Simple {
    Int64,
    Uint64,
    Float64,
    String,
    Bool,
    Bytes,
    Nothing,
    TypeConstruction,
    /// Any type will do.
    Any,
    A,
    B,
    C,
    Meta(Meta),
}

/// The id of a basic type.
pub open spec fn basic_id(x: Simple) -> TypeId {
    match x {
        Simple::Int64 => TypeInterner::INT64,
        Simple::Uint64 => TypeInterner::UINT64,
        Simple::Float64 => TypeInterner::FLOAT64,
        Simple::String => TypeInterner::STRING,
        Simple::Bool => TypeInterner::BOOL,
        Simple::Bytes => TypeInterner::BYTES,
        Simple::Nothing => TypeInterner::NOTHING,
        Simple::TypeConstruction => TypeInterner::TYPE_CONSTRUCTION,
        _ => TypeInterner::ERROR,
    }
}

impl Simple {
    /// The id of a basic type.
    pub fn basic_id(self) -> (r: TypeId)
        ensures
            r == basic_id(self),
    {
        match self {
            Simple::Int64 => TypeInterner::INT64,
            Simple::Uint64 => TypeInterner::UINT64,
            Simple::Float64 => TypeInterner::FLOAT64,
            Simple::String => TypeInterner::STRING,
            Simple::Bool => TypeInterner::BOOL,
            Simple::Bytes => TypeInterner::BYTES,
            Simple::Nothing => TypeInterner::NOTHING,
            Simple::TypeConstruction => TypeInterner::TYPE_CONSTRUCTION,
            _ => TypeInterner::ERROR,
        }
    }
}

/// A type in a signature, built from simple ones.
#[derive(Debug, Clone, Copy, PartialEq, Eq, Structural)]
pub enum Shape {
    One(Simple),
    List(Simple),
    ListOfLists(Simple),
    MapOf(Simple, Simple),
    ListOfMaps(Simple, Simple),
    MapToLists(Simple, Simple),
    SetOf(Simple),
    Optional(Simple),
    Result(Simple, Simple),
    Secret(Simple),
    /// A function of one parameter.
    Fn1(Simple, Simple),
    /// A function of two parameters.
    Fn2(Simple, Simple, Simple),
    /// A function of one parameter that gives a list.
    Fn1ToList(Simple, Simple),
}

#[derive(Debug, Clone, Copy, PartialEq, Eq, Structural)]
pub enum Params {
    P0,
    P1(Shape),
    P2(Shape, Shape),
    P3(Shape, Shape, Shape),
}

/// How many type arguments a builtin takes.
#[derive(Debug, Clone, Copy, PartialEq, Eq, Structural)]
pub enum Arity {
    Nothing,
    One,
    Two,
    /// One, or none, and then any type will do.
    UpToOne,
    /// One, or none, and then it is `float64`.
    UpToOneOrFloat,
    /// Two, or none, and then any types will do.
    NoneOrTwo,
    /// Three; or two, and then the third is as the second; or none.
    NoneTwoOrThree,
}

/// What the first type argument has to be.
#[derive(Debug, Clone, Copy, PartialEq, Eq, Structural)]
pub enum Target {
    Any,
    StructOrBitfield,
    EnumOnly,
    MachineOnly,
    Constructible,
}

/// A builtin: its type arguments, parameters and result, and the parameters
/// it is taken to have where the type arguments are wrong.
#[derive(Debug, Clone, Copy, PartialEq, Eq, Structural)]
pub struct Builtin {
    pub arity: Arity,
    pub params: Params,
    pub ret: Shape,
    pub target: Target,
    pub fallback: Params,
}

pub open spec fn plain(params: Params, ret: Shape) -> Builtin {
    Builtin { arity: Arity::Nothing, params, ret, target: Target::Any, fallback: Params::P0 }
}

pub open spec fn of_types(arity: Arity, params: Params, ret: Shape) -> Builtin {
    Builtin { arity, params, ret, target: Target::Any, fallback: Params::P0 }
}

pub open spec fn exact(
    arity: Arity,
    params: Params,
    ret: Shape,
    target: Target,
    fallback: Params,
) -> Builtin {
    Builtin { arity, params, ret, target, fallback }
}

fn new_plain(params: Params, ret: Shape) -> (r: Builtin)
    ensures
        r == plain(params, ret),
{
    Builtin { arity: Arity::Nothing, params, ret, target: Target::Any, fallback: Params::P0 }
}

fn new_of_types(arity: Arity, params: Params, ret: Shape) -> (r: Builtin)
    ensures
        r == of_types(arity, params, ret),
{
    Builtin { arity, params, ret, target: Target::Any, fallback: Params::P0 }
}

fn new_exact(arity: Arity, params: Params, ret: Shape, target: Target, fallback: Params) -> (r: Builtin)
    ensures
        r == exact(arity, params, ret, target, fallback),
{
    Builtin { arity, params, ret, target, fallback }
}

#[verifier::opaque]
pub open spec fn string_builtin_named(name: Seq<char>) -> Option<Builtin> {
    if name == "string.from_int64"@ {
        Some(plain(Params::P1(Shape::One(Simple::Int64)), Shape::One(Simple::String)))
    } else if name == "string.from_uint64"@ {
        Some(plain(Params::P1(Shape::One(Simple::Uint64)), Shape::One(Simple::String)))
    } else if name == "string.from_float64"@ {
        Some(plain(Params::P1(Shape::One(Simple::Float64)), Shape::One(Simple::String)))
    } else if name == "string.from_bool"@ {
        Some(plain(Params::P1(Shape::One(Simple::Bool)), Shape::One(Simple::String)))
    } else if name == "string.length"@ || name == "string.char_count"@ {
        Some(plain(Params::P1(Shape::One(Simple::String)), Shape::One(Simple::Int64)))
    } else if name == "string.contains"@ || name == "string.starts_with"@
        || name == "string.ends_with"@ {
        Some(plain(
            Params::P2(Shape::One(Simple::String), Shape::One(Simple::String)),
            Shape::One(Simple::Bool),
        ))
    } else if name == "string.trim"@ || name == "string.upper"@ || name == "string.lower"@
        || name == "string.reverse"@ || name == "string.trim_start"@ || name == "string.trim_end"@
        || name == "string.slugify"@ || name == "string.to_upper_first"@
        || name == "string.to_lower_first"@ {
        Some(plain(Params::P1(Shape::One(Simple::String)), Shape::One(Simple::String)))
    } else if name == "string.replace"@ || name == "string.between"@ {
        Some(plain(
            Params::P3(
                Shape::One(Simple::String),
                Shape::One(Simple::String),
                Shape::One(Simple::String),
            ),
            Shape::One(Simple::String),
        ))
    } else if name == "string.split"@ {
        Some(plain(
            Params::P2(Shape::One(Simple::String), Shape::One(Simple::String)),
            Shape::List(Simple::String),
        ))
    } else if name == "string.join"@ {
        Some(plain(
            Params::P2(Shape::List(Simple::String), Shape::One(Simple::String)),
            Shape::One(Simple::String),
        ))
    } else if name == "string.after"@ || name == "string.before"@
        || name == "string.remove_prefix"@ || name == "string.remove_suffix"@ {
        Some(plain(
            Params::P2(Shape::One(Simple::String), Shape::One(Simple::String)),
            Shape::One(Simple::String),
        ))
    } else if name == "string.chars"@ || name == "string.words"@ || name == "string.lines"@ {
        Some(plain(Params::P1(Shape::One(Simple::String)), Shape::List(Simple::String)))
    } else if name == "string.is_empty"@ || name == "string.is_not_empty"@
        || name == "string.is_numeric"@ || name == "string.is_alpha"@ {
        Some(plain(Params::P1(Shape::One(Simple::String)), Shape::One(Simple::Bool)))
    } else if name == "string.repeat"@ || name == "string.take_chars"@
        || name == "string.take_last_chars"@ || name == "string.drop_chars"@
        || name == "string.center"@ || name == "string.ljust"@ || name == "string.rjust"@
        || name == "string.zfill"@ {
        Some(plain(
            Params::P2(Shape::One(Simple::String), Shape::One(Simple::Int64)),
            Shape::One(Simple::String),
        ))
    } else if name == "string.slice"@ {
        Some(plain(
            Params::P3(
                Shape::One(Simple::String),
                Shape::One(Simple::Int64),
                Shape::One(Simple::Int64),
            ),
            Shape::One(Simple::String),
        ))
    } else if name == "string.pad_left"@ || name == "string.pad_start"@
        || name == "string.pad_end"@ || name == "string.truncate"@ {
        Some(plain(
            Params::P3(
                Shape::One(Simple::String),
                Shape::One(Simple::Int64),
                Shape::One(Simple::String),
            ),
            Shape::One(Simple::String),
        ))
    } else if name == "string.char_at"@ {
        Some(plain(
            Params::P2(Shape::One(Simple::String), Shape::One(Simple::Int64)),
            Shape::Optional(Simple::String),
        ))
    } else if name == "string.index_of"@ {
        Some(plain(
            Params::P2(Shape::One(Simple::String), Shape::One(Simple::String)),
            Shape::Optional(Simple::Int64),
        ))
    } else if name == "string.count"@ {
        Some(plain(
            Params::P2(Shape::One(Simple::String), Shape::One(Simple::String)),
            Shape::One(Simple::Int64),
        ))
    } else {
        None
    }
}

fn string_builtin(name: &str) -> (r: Option<Builtin>)
    ensures
        r == string_builtin_named(name@),
{
    proof {
        reveal(string_builtin_named);
    }
    if same_text(name, "string.from_int64") {
        Some(new_plain(Params::P1(Shape::One(Simple::Int64)), Shape::One(Simple::String)))
    } else if same_text(name, "string.from_uint64") {
        Some(new_plain(Params::P1(Shape::One(Simple::Uint64)), Shape::One(Simple::String)))
    } else if same_text(name, "string.from_float64") {
        Some(new_plain(Params::P1(Shape::One(Simple::Float64)), Shape::One(Simple::String)))
    } else if same_text(name, "string.from_bool") {
        Some(new_plain(Params::P1(Shape::One(Simple::Bool)), Shape::One(Simple::String)))
    } else if same_text(name, "string.length") || same_text(name, "string.char_count") {
        Some(new_plain(Params::P1(Shape::One(Simple::String)), Shape::One(Simple::Int64)))
    } else if same_text(name, "string.contains") || same_text(name, "string.starts_with")
        || same_text(name, "string.ends_with") {
        Some(new_plain(
            Params::P2(Shape::One(Simple::String), Shape::One(Simple::String)),
            Shape::One(Simple::Bool),
        ))
    } else if same_text(name, "string.trim") || same_text(name, "string.upper")
        || same_text(name, "string.lower") || same_text(name, "string.reverse")
        || same_text(name, "string.trim_start") || same_text(name, "string.trim_end")
        || same_text(name, "string.slugify") || same_text(name, "string.to_upper_first")
        || same_text(name, "string.to_lower_first") {
        Some(new_plain(Params::P1(Shape::One(Simple::String)), Shape::One(Simple::String)))
    } else if same_text(name, "string.replace") || same_text(name, "string.between") {
        Some(new_plain(
            Params::P3(
                Shape::One(Simple::String),
                Shape::One(Simple::String),
                Shape::One(Simple::String),
            ),
            Shape::One(Simple::String),
        ))
    } else if same_text(name, "string.split") {
        Some(new_plain(
            Params::P2(Shape::One(Simple::String), Shape::One(Simple::String)),
            Shape::List(Simple::String),
        ))
    } else if same_text(name, "string.join") {
        Some(new_plain(
            Params::P2(Shape::List(Simple::String), Shape::One(Simple::String)),
            Shape::One(Simple::String),
        ))
    } else if same_text(name, "string.after") || same_text(name, "string.before")
        || same_text(name, "string.remove_prefix") || same_text(name, "string.remove_suffix") {
        Some(new_plain(
            Params::P2(Shape::One(Simple::String), Shape::One(Simple::String)),
            Shape::One(Simple::String),
        ))
    } else if same_text(name, "string.chars") || same_text(name, "string.words")
        || same_text(name, "string.lines") {
        Some(new_plain(Params::P1(Shape::One(Simple::String)), Shape::List(Simple::String)))
    } else if same_text(name, "string.is_empty") || same_text(name, "string.is_not_empty")
        || same_text(name, "string.is_numeric") || same_text(name, "string.is_alpha") {
        Some(new_plain(Params::P1(Shape::One(Simple::String)), Shape::One(Simple::Bool)))
    } else if same_text(name, "string.repeat") || same_text(name, "string.take_chars")
        || same_text(name, "string.take_last_chars") || same_text(name, "string.drop_chars")
        || same_text(name, "string.center") || same_text(name, "string.ljust")
        || same_text(name, "string.rjust") || same_text(name, "string.zfill") {
        Some(new_plain(
            Params::P2(Shape::One(Simple::String), Shape::One(Simple::Int64)),
            Shape::One(Simple::String),
        ))
    } else if same_text(name, "string.slice") {
        Some(new_plain(
            Params::P3(
                Shape::One(Simple::String),
                Shape::One(Simple::Int64),
                Shape::One(Simple::Int64),
            ),
            Shape::One(Simple::String),
        ))
    } else if same_text(name, "string.pad_left") || same_text(name, "string.pad_start")
        || same_text(name, "string.pad_end") || same_text(name, "string.truncate") {
        Some(new_plain(
            Params::P3(
                Shape::One(Simple::String),
                Shape::One(Simple::Int64),
                Shape::One(Simple::String),
            ),
            Shape::One(Simple::String),
        ))
    } else if same_text(name, "string.char_at") {
        Some(new_plain(
            Params::P2(Shape::One(Simple::String), Shape::One(Simple::Int64)),
            Shape::Optional(Simple::String),
        ))
    } else if same_text(name, "string.index_of") {
        Some(new_plain(
            Params::P2(Shape::One(Simple::String), Shape::One(Simple::String)),
            Shape::Optional(Simple::Int64),
        ))
    } else if same_text(name, "string.count") {
        Some(new_plain(
            Params::P2(Shape::One(Simple::String), Shape::One(Simple::String)),
            Shape::One(Simple::Int64),
        ))
    } else {
        None
    }
}

#[verifier::opaque]
pub open spec fn list_builtin_named(name: Seq<char>) -> Option<Builtin> {
    if name == "list.new"@ {
        Some(of_types(Arity::One, Params::P0, Shape::List(Simple::A)))
    } else if name == "list.append"@ {
        Some(exact(
            Arity::One,
            Params::P2(Shape::List(Simple::A), Shape::One(Simple::A)),
            Shape::List(Simple::A),
            Target::Any,
            Params::P2(Shape::One(Simple::Any), Shape::One(Simple::Any)),
        ))
    } else if name == "list.length"@ {
        Some(of_types(Arity::UpToOne, Params::P1(Shape::List(Simple::A)), Shape::One(Simple::Int64)))
    } else if name == "list.get"@ {
        Some(exact(
            Arity::One,
            Params::P2(Shape::List(Simple::A), Shape::One(Simple::Int64)),
            Shape::Optional(Simple::A),
            Target::Any,
            Params::P2(Shape::One(Simple::Any), Shape::One(Simple::Int64)),
        ))
    } else if name == "list.reverse"@ || name == "list.sort"@ || name == "list.unique"@
        || name == "list.flatten"@ {
        Some(of_types(Arity::UpToOne, Params::P1(Shape::List(Simple::A)), Shape::List(Simple::A)))
    } else if name == "list.is_empty"@ || name == "list.is_sorted"@ {
        Some(of_types(Arity::UpToOne, Params::P1(Shape::List(Simple::A)), Shape::One(Simple::Bool)))
    } else if name == "list.skip"@ || name == "list.take"@ || name == "list.remove"@
        || name == "list.sort_by_index"@ || name == "list.remove_at"@ {
        Some(of_types(
            Arity::UpToOne,
            Params::P2(Shape::List(Simple::A), Shape::One(Simple::Int64)),
            Shape::List(Simple::A),
        ))
    } else if name == "list.contains"@ {
        Some(of_types(
            Arity::UpToOne,
            Params::P2(Shape::List(Simple::A), Shape::One(Simple::A)),
            Shape::One(Simple::Bool),
        ))
    } else if name == "list.index_of"@ || name == "list.last_index_of"@ {
        Some(of_types(
            Arity::UpToOne,
            Params::P2(Shape::List(Simple::A), Shape::One(Simple::A)),
            Shape::Optional(Simple::Int64),
        ))
    } else if name == "list.concat"@ {
        Some(of_types(
            Arity::UpToOne,
            Params::P2(Shape::List(Simple::A), Shape::List(Simple::A)),
            Shape::List(Simple::A),
        ))
    } else if name == "list.zip"@ {
        Some(of_types(
            Arity::NoneOrTwo,
            Params::P2(Shape::List(Simple::A), Shape::List(Simple::B)),
            Shape::ListOfLists(Simple::Any),
        ))
    } else if name == "list.first"@ || name == "list.last"@ {
        Some(of_types(Arity::UpToOne, Params::P1(Shape::List(Simple::A)), Shape::Optional(Simple::A)))
    } else if name == "list.filter"@ {
        Some(of_types(
            Arity::UpToOne,
            Params::P2(Shape::List(Simple::A), Shape::Fn1(Simple::A, Simple::Bool)),
            Shape::List(Simple::A),
        ))
    } else if name == "list.map"@ {
        Some(of_types(
            Arity::NoneOrTwo,
            Params::P2(Shape::List(Simple::A), Shape::Fn1(Simple::A, Simple::B)),
            Shape::List(Simple::B),
        ))
    } else if name == "list.find"@ {
        Some(of_types(
            Arity::UpToOne,
            Params::P2(Shape::List(Simple::A), Shape::Fn1(Simple::A, Simple::Bool)),
            Shape::Optional(Simple::A),
        ))
    } else if name == "list.sort_by"@ {
        Some(of_types(
            Arity::UpToOne,
            Params::P2(Shape::List(Simple::A), Shape::Fn1(Simple::A, Simple::Int64)),
            Shape::List(Simple::A),
        ))
    } else if name == "list.all"@ || name == "list.any"@ {
        Some(of_types(
            Arity::UpToOne,
            Params::P2(Shape::List(Simple::A), Shape::Fn1(Simple::A, Simple::Bool)),
            Shape::One(Simple::Bool),
        ))
    } else if name == "list.count"@ {
        Some(of_types(
            Arity::UpToOne,
            Params::P2(Shape::List(Simple::A), Shape::Fn1(Simple::A, Simple::Bool)),
            Shape::One(Simple::Int64),
        ))
    } else if name == "list.sum"@ {
        Some(of_types(Arity::UpToOne, Params::P1(Shape::List(Simple::A)), Shape::One(Simple::A)))
    } else if name == "list.group_by"@ {
        Some(of_types(
            Arity::UpToOne,
            Params::P2(Shape::List(Simple::A), Shape::Fn1(Simple::A, Simple::String)),
            Shape::MapToLists(Simple::String, Simple::A),
        ))
    } else if name == "list.reduce"@ {
        Some(of_types(
            Arity::NoneOrTwo,
            Params::P3(
                Shape::List(Simple::A),
                Shape::One(Simple::B),
                Shape::Fn2(Simple::B, Simple::A, Simple::B),
            ),
            Shape::One(Simple::B),
        ))
    } else if name == "list.chunk"@ {
        Some(of_types(
            Arity::UpToOne,
            Params::P2(Shape::List(Simple::A), Shape::One(Simple::Int64)),
            Shape::ListOfLists(Simple::A),
        ))
    } else if name == "list.all_elements_in"@ {
        Some(of_types(
            Arity::UpToOne,
            Params::P2(Shape::List(Simple::A), Shape::List(Simple::A)),
            Shape::One(Simple::Bool),
        ))
    } else if name == "list.enumerate"@ {
        Some(of_types(
            Arity::UpToOne,
            Params::P1(Shape::List(Simple::A)),
            Shape::ListOfLists(Simple::Any),
        ))
    } else if name == "list.from_set"@ {
        Some(of_types(Arity::UpToOne, Params::P1(Shape::SetOf(Simple::A)), Shape::List(Simple::A)))
    } else if name == "list.repeat"@ {
        Some(of_types(
            Arity::UpToOne,
            Params::P2(Shape::One(Simple::A), Shape::One(Simple::Int64)),
            Shape::List(Simple::A),
        ))
    } else if name == "list.insert_at"@ {
        Some(of_types(
            Arity::UpToOne,
            Params::P3(Shape::List(Simple::A), Shape::One(Simple::Int64), Shape::One(Simple::A)),
            Shape::List(Simple::A),
        ))
    } else if name == "list.swap"@ {
        Some(of_types(
            Arity::UpToOne,
            Params::P3(Shape::List(Simple::A), Shape::One(Simple::Int64), Shape::One(Simple::Int64)),
            Shape::List(Simple::A),
        ))
    } else if name == "list.flat_map"@ {
        Some(of_types(
            Arity::NoneOrTwo,
            Params::P2(Shape::List(Simple::A), Shape::Fn1ToList(Simple::A, Simple::B)),
            Shape::List(Simple::B),
        ))
    } else {
        None
    }
}

fn list_builtin(name: &str) -> (r: Option<Builtin>)
    ensures
        r == list_builtin_named(name@),
{
    proof {
        reveal(list_builtin_named);
    }
    if same_text(name, "list.new") {
        Some(new_of_types(Arity::One, Params::P0, Shape::List(Simple::A)))
    } else if same_text(name, "list.append") {
        Some(new_exact(
            Arity::One,
            Params::P2(Shape::List(Simple::A), Shape::One(Simple::A)),
            Shape::List(Simple::A),
            Target::Any,
            Params::P2(Shape::One(Simple::Any), Shape::One(Simple::Any)),
        ))
    } else if same_text(name, "list.length") {
        Some(new_of_types(Arity::UpToOne, Params::P1(Shape::List(Simple::A)), Shape::One(Simple::Int64)))
    } else if same_text(name, "list.get") {
        Some(new_exact(
            Arity::One,
            Params::P2(Shape::List(Simple::A), Shape::One(Simple::Int64)),
            Shape::Optional(Simple::A),
            Target::Any,
            Params::P2(Shape::One(Simple::Any), Shape::One(Simple::Int64)),
        ))
    } else if same_text(name, "list.reverse") || same_text(name, "list.sort")
        || same_text(name, "list.unique") || same_text(name, "list.flatten") {
        Some(new_of_types(Arity::UpToOne, Params::P1(Shape::List(Simple::A)), Shape::List(Simple::A)))
    } else if same_text(name, "list.is_empty") || same_text(name, "list.is_sorted") {
        Some(new_of_types(Arity::UpToOne, Params::P1(Shape::List(Simple::A)), Shape::One(Simple::Bool)))
    } else if same_text(name, "list.skip") || same_text(name, "list.take")
        || same_text(name, "list.remove") || same_text(name, "list.sort_by_index")
        || same_text(name, "list.remove_at") {
        Some(new_of_types(
            Arity::UpToOne,
            Params::P2(Shape::List(Simple::A), Shape::One(Simple::Int64)),
            Shape::List(Simple::A),
        ))
    } else if same_text(name, "list.contains") {
        Some(new_of_types(
            Arity::UpToOne,
            Params::P2(Shape::List(Simple::A), Shape::One(Simple::A)),
            Shape::One(Simple::Bool),
        ))
    } else if same_text(name, "list.index_of") || same_text(name, "list.last_index_of") {
        Some(new_of_types(
            Arity::UpToOne,
            Params::P2(Shape::List(Simple::A), Shape::One(Simple::A)),
            Shape::Optional(Simple::Int64),
        ))
    } else if same_text(name, "list.concat") {
        Some(new_of_types(
            Arity::UpToOne,
            Params::P2(Shape::List(Simple::A), Shape::List(Simple::A)),
            Shape::List(Simple::A),
        ))
    } else if same_text(name, "list.zip") {
        Some(new_of_types(
            Arity::NoneOrTwo,
            Params::P2(Shape::List(Simple::A), Shape::List(Simple::B)),
            Shape::ListOfLists(Simple::Any),
        ))
    } else if same_text(name, "list.first") || same_text(name, "list.last") {
        Some(new_of_types(Arity::UpToOne, Params::P1(Shape::List(Simple::A)), Shape::Optional(Simple::A)))
    } else if same_text(name, "list.filter") {
        Some(new_of_types(
            Arity::UpToOne,
            Params::P2(Shape::List(Simple::A), Shape::Fn1(Simple::A, Simple::Bool)),
            Shape::List(Simple::A),
        ))
    } else if same_text(name, "list.map") {
        Some(new_of_types(
            Arity::NoneOrTwo,
            Params::P2(Shape::List(Simple::A), Shape::Fn1(Simple::A, Simple::B)),
            Shape::List(Simple::B),
        ))
    } else if same_text(name, "list.find") {
        Some(new_of_types(
            Arity::UpToOne,
            Params::P2(Shape::List(Simple::A), Shape::Fn1(Simple::A, Simple::Bool)),
            Shape::Optional(Simple::A),
        ))
    } else if same_text(name, "list.sort_by") {
        Some(new_of_types(
            Arity::UpToOne,
            Params::P2(Shape::List(Simple::A), Shape::Fn1(Simple::A, Simple::Int64)),
            Shape::List(Simple::A),
        ))
    } else if same_text(name, "list.all") || same_text(name, "list.any") {
        Some(new_of_types(
            Arity::UpToOne,
            Params::P2(Shape::List(Simple::A), Shape::Fn1(Simple::A, Simple::Bool)),
            Shape::One(Simple::Bool),
        ))
    } else if same_text(name, "list.count") {
        Some(new_of_types(
            Arity::UpToOne,
            Params::P2(Shape::List(Simple::A), Shape::Fn1(Simple::A, Simple::Bool)),
            Shape::One(Simple::Int64),
        ))
    } else if same_text(name, "list.sum") {
        Some(new_of_types(Arity::UpToOne, Params::P1(Shape::List(Simple::A)), Shape::One(Simple::A)))
    } else if same_text(name, "list.group_by") {
        Some(new_of_types(
            Arity::UpToOne,
            Params::P2(Shape::List(Simple::A), Shape::Fn1(Simple::A, Simple::String)),
            Shape::MapToLists(Simple::String, Simple::A),
        ))
    } else if same_text(name, "list.reduce") {
        Some(new_of_types(
            Arity::NoneOrTwo,
            Params::P3(
                Shape::List(Simple::A),
                Shape::One(Simple::B),
                Shape::Fn2(Simple::B, Simple::A, Simple::B),
            ),
            Shape::One(Simple::B),
        ))
    } else if same_text(name, "list.chunk") {
        Some(new_of_types(
            Arity::UpToOne,
            Params::P2(Shape::List(Simple::A), Shape::One(Simple::Int64)),
            Shape::ListOfLists(Simple::A),
        ))
    } else if same_text(name, "list.all_elements_in") {
        Some(new_of_types(
            Arity::UpToOne,
            Params::P2(Shape::List(Simple::A), Shape::List(Simple::A)),
            Shape::One(Simple::Bool),
        ))
    } else if same_text(name, "list.enumerate") {
        Some(new_of_types(
            Arity::UpToOne,
            Params::P1(Shape::List(Simple::A)),
            Shape::ListOfLists(Simple::Any),
        ))
    } else if same_text(name, "list.from_set") {
        Some(new_of_types(Arity::UpToOne, Params::P1(Shape::SetOf(Simple::A)), Shape::List(Simple::A)))
    } else if same_text(name, "list.repeat") {
        Some(new_of_types(
            Arity::UpToOne,
            Params::P2(Shape::One(Simple::A), Shape::One(Simple::Int64)),
            Shape::List(Simple::A),
        ))
    } else if same_text(name, "list.insert_at") {
        Some(new_of_types(
            Arity::UpToOne,
            Params::P3(Shape::List(Simple::A), Shape::One(Simple::Int64), Shape::One(Simple::A)),
            Shape::List(Simple::A),
        ))
    } else if same_text(name, "list.swap") {
        Some(new_of_types(
            Arity::UpToOne,
            Params::P3(Shape::List(Simple::A), Shape::One(Simple::Int64), Shape::One(Simple::Int64)),
            Shape::List(Simple::A),
        ))
    } else if same_text(name, "list.flat_map") {
        Some(new_of_types(
            Arity::NoneOrTwo,
            Params::P2(Shape::List(Simple::A), Shape::Fn1ToList(Simple::A, Simple::B)),
            Shape::List(Simple::B),
        ))
    } else {
        None
    }
}

#[verifier::opaque]
pub open spec fn map_builtin_named(name: Seq<char>) -> Option<Builtin> {
    if name == "map.new"@ {
        Some(of_types(Arity::NoneOrTwo, Params::P0, Shape::MapOf(Simple::A, Simple::B)))
    } else if name == "map.length"@ {
        Some(of_types(
            Arity::NoneOrTwo,
            Params::P1(Shape::MapOf(Simple::A, Simple::B)),
            Shape::One(Simple::Int64),
        ))
    } else if name == "map.is_empty"@ {
        Some(of_types(
            Arity::NoneOrTwo,
            Params::P1(Shape::MapOf(Simple::A, Simple::B)),
            Shape::One(Simple::Bool),
        ))
    } else if name == "map.has"@ || name == "map.contains_key"@ {
        Some(of_types(
            Arity::NoneOrTwo,
            Params::P2(Shape::MapOf(Simple::A, Simple::B), Shape::One(Simple::A)),
            Shape::One(Simple::Bool),
        ))
    } else if name == "map.get"@ {
        Some(of_types(
            Arity::NoneOrTwo,
            Params::P2(Shape::MapOf(Simple::A, Simple::B), Shape::One(Simple::A)),
            Shape::Optional(Simple::B),
        ))
    } else if name == "map.insert"@ || name == "map.set"@ {
        Some(of_types(
            Arity::NoneOrTwo,
            Params::P3(
                Shape::MapOf(Simple::A, Simple::B),
                Shape::One(Simple::A),
                Shape::One(Simple::B),
            ),
            Shape::MapOf(Simple::A, Simple::B),
        ))
    } else if name == "map.remove"@ {
        Some(of_types(
            Arity::NoneOrTwo,
            Params::P2(Shape::MapOf(Simple::A, Simple::B), Shape::One(Simple::A)),
            Shape::MapOf(Simple::A, Simple::B),
        ))
    } else if name == "map.keys"@ {
        Some(of_types(
            Arity::NoneOrTwo,
            Params::P1(Shape::MapOf(Simple::A, Simple::B)),
            Shape::List(Simple::A),
        ))
    } else if name == "map.values"@ {
        Some(of_types(
            Arity::NoneOrTwo,
            Params::P1(Shape::MapOf(Simple::A, Simple::B)),
            Shape::List(Simple::B),
        ))
    } else if name == "map.get_or"@ {
        Some(of_types(
            Arity::NoneOrTwo,
            Params::P3(
                Shape::MapOf(Simple::A, Simple::B),
                Shape::One(Simple::A),
                Shape::One(Simple::B),
            ),
            Shape::One(Simple::B),
        ))
    } else if name == "map.merge"@ {
        Some(of_types(
            Arity::NoneOrTwo,
            Params::P2(Shape::MapOf(Simple::A, Simple::B), Shape::MapOf(Simple::A, Simple::B)),
            Shape::MapOf(Simple::A, Simple::B),
        ))
    } else if name == "map.from_lists"@ {
        Some(of_types(
            Arity::NoneOrTwo,
            Params::P2(Shape::List(Simple::A), Shape::List(Simple::B)),
            Shape::MapOf(Simple::A, Simple::B),
        ))
    } else if name == "map.entries"@ {
        Some(of_types(
            Arity::NoneOrTwo,
            Params::P1(Shape::MapOf(Simple::A, Simple::B)),
            Shape::ListOfLists(Simple::Any),
        ))
    } else if name == "map.filter"@ {
        Some(of_types(
            Arity::NoneOrTwo,
            Params::P2(
                Shape::MapOf(Simple::A, Simple::B),
                Shape::Fn2(Simple::A, Simple::B, Simple::Bool),
            ),
            Shape::MapOf(Simple::A, Simple::B),
        ))
    } else if name == "map.map_values"@ {
        Some(of_types(
            Arity::NoneTwoOrThree,
            Params::P2(Shape::MapOf(Simple::A, Simple::B), Shape::Fn1(Simple::B, Simple::C)),
            Shape::MapOf(Simple::A, Simple::C),
        ))
    } else if name == "map.for_each"@ {
        Some(of_types(
            Arity::NoneOrTwo,
            Params::P2(
                Shape::MapOf(Simple::A, Simple::B),
                Shape::Fn2(Simple::A, Simple::B, Simple::Any),
            ),
            Shape::One(Simple::Nothing),
        ))
    } else {
        None
    }
}

fn map_builtin(name: &str) -> (r: Option<Builtin>)
    ensures
        r == map_builtin_named(name@),
{
    proof {
        reveal(map_builtin_named);
    }
    if same_text(name, "map.new") {
        Some(new_of_types(Arity::NoneOrTwo, Params::P0, Shape::MapOf(Simple::A, Simple::B)))
    } else if same_text(name, "map.length") {
        Some(new_of_types(
            Arity::NoneOrTwo,
            Params::P1(Shape::MapOf(Simple::A, Simple::B)),
            Shape::One(Simple::Int64),
        ))
    } else if same_text(name, "map.is_empty") {
        Some(new_of_types(
            Arity::NoneOrTwo,
            Params::P1(Shape::MapOf(Simple::A, Simple::B)),
            Shape::One(Simple::Bool),
        ))
    } else if same_text(name, "map.has") || same_text(name, "map.contains_key") {
        Some(new_of_types(
            Arity::NoneOrTwo,
            Params::P2(Shape::MapOf(Simple::A, Simple::B), Shape::One(Simple::A)),
            Shape::One(Simple::Bool),
        ))
    } else if same_text(name, "map.get") {
        Some(new_of_types(
            Arity::NoneOrTwo,
            Params::P2(Shape::MapOf(Simple::A, Simple::B), Shape::One(Simple::A)),
            Shape::Optional(Simple::B),
        ))
    } else if same_text(name, "map.insert") || same_text(name, "map.set") {
        Some(new_of_types(
            Arity::NoneOrTwo,
            Params::P3(
                Shape::MapOf(Simple::A, Simple::B),
                Shape::One(Simple::A),
                Shape::One(Simple::B),
            ),
            Shape::MapOf(Simple::A, Simple::B),
        ))
    } else if same_text(name, "map.remove") {
        Some(new_of_types(
            Arity::NoneOrTwo,
            Params::P2(Shape::MapOf(Simple::A, Simple::B), Shape::One(Simple::A)),
            Shape::MapOf(Simple::A, Simple::B),
        ))
    } else if same_text(name, "map.keys") {
        Some(new_of_types(
            Arity::NoneOrTwo,
            Params::P1(Shape::MapOf(Simple::A, Simple::B)),
            Shape::List(Simple::A),
        ))
    } else if same_text(name, "map.values") {
        Some(new_of_types(
            Arity::NoneOrTwo,
            Params::P1(Shape::MapOf(Simple::A, Simple::B)),
            Shape::List(Simple::B),
        ))
    } else if same_text(name, "map.get_or") {
        Some(new_of_types(
            Arity::NoneOrTwo,
            Params::P3(
                Shape::MapOf(Simple::A, Simple::B),
                Shape::One(Simple::A),
                Shape::One(Simple::B),
            ),
            Shape::One(Simple::B),
        ))
    } else if same_text(name, "map.merge") {
        Some(new_of_types(
            Arity::NoneOrTwo,
            Params::P2(Shape::MapOf(Simple::A, Simple::B), Shape::MapOf(Simple::A, Simple::B)),
            Shape::MapOf(Simple::A, Simple::B),
        ))
    } else if same_text(name, "map.from_lists") {
        Some(new_of_types(
            Arity::NoneOrTwo,
            Params::P2(Shape::List(Simple::A), Shape::List(Simple::B)),
            Shape::MapOf(Simple::A, Simple::B),
        ))
    } else if same_text(name, "map.entries") {
        Some(new_of_types(
            Arity::NoneOrTwo,
            Params::P1(Shape::MapOf(Simple::A, Simple::B)),
            Shape::ListOfLists(Simple::Any),
        ))
    } else if same_text(name, "map.filter") {
        Some(new_of_types(
            Arity::NoneOrTwo,
            Params::P2(
                Shape::MapOf(Simple::A, Simple::B),
                Shape::Fn2(Simple::A, Simple::B, Simple::Bool),
            ),
            Shape::MapOf(Simple::A, Simple::B),
        ))
    } else if same_text(name, "map.map_values") {
        Some(new_of_types(
            Arity::NoneTwoOrThree,
            Params::P2(Shape::MapOf(Simple::A, Simple::B), Shape::Fn1(Simple::B, Simple::C)),
            Shape::MapOf(Simple::A, Simple::C),
        ))
    } else if same_text(name, "map.for_each") {
        Some(new_of_types(
            Arity::NoneOrTwo,
            Params::P2(
                Shape::MapOf(Simple::A, Simple::B),
                Shape::Fn2(Simple::A, Simple::B, Simple::Any),
            ),
            Shape::One(Simple::Nothing),
        ))
    } else {
        None
    }
}

#[verifier::opaque]
pub open spec fn set_builtin_named(name: Seq<char>) -> Option<Builtin> {
    if name == "set.new"@ {
        Some(of_types(Arity::UpToOne, Params::P0, Shape::SetOf(Simple::A)))
    } else if name == "set.add"@ || name == "set.remove"@ {
        Some(of_types(
            Arity::UpToOne,
            Params::P2(Shape::SetOf(Simple::A), Shape::One(Simple::A)),
            Shape::SetOf(Simple::A),
        ))
    } else if name == "set.contains"@ {
        Some(of_types(
            Arity::UpToOne,
            Params::P2(Shape::SetOf(Simple::A), Shape::One(Simple::A)),
            Shape::One(Simple::Bool),
        ))
    } else if name == "set.length"@ {
        Some(of_types(Arity::UpToOne, Params::P1(Shape::SetOf(Simple::A)), Shape::One(Simple::Int64)))
    } else if name == "set.is_empty"@ {
        Some(of_types(Arity::UpToOne, Params::P1(Shape::SetOf(Simple::A)), Shape::One(Simple::Bool)))
    } else if name == "set.to_list"@ {
        Some(of_types(Arity::UpToOne, Params::P1(Shape::SetOf(Simple::A)), Shape::List(Simple::A)))
    } else if name == "set.union"@ || name == "set.intersection"@ || name == "set.difference"@ {
        Some(of_types(
            Arity::UpToOne,
            Params::P2(Shape::SetOf(Simple::A), Shape::SetOf(Simple::A)),
            Shape::SetOf(Simple::A),
        ))
    } else {
        None
    }
}

fn set_builtin(name: &str) -> (r: Option<Builtin>)
    ensures
        r == set_builtin_named(name@),
{
    proof {
        reveal(set_builtin_named);
    }
    if same_text(name, "set.new") {
        Some(new_of_types(Arity::UpToOne, Params::P0, Shape::SetOf(Simple::A)))
    } else if same_text(name, "set.add") || same_text(name, "set.remove") {
        Some(new_of_types(
            Arity::UpToOne,
            Params::P2(Shape::SetOf(Simple::A), Shape::One(Simple::A)),
            Shape::SetOf(Simple::A),
        ))
    } else if same_text(name, "set.contains") {
        Some(new_of_types(
            Arity::UpToOne,
            Params::P2(Shape::SetOf(Simple::A), Shape::One(Simple::A)),
            Shape::One(Simple::Bool),
        ))
    } else if same_text(name, "set.length") {
        Some(new_of_types(Arity::UpToOne, Params::P1(Shape::SetOf(Simple::A)), Shape::One(Simple::Int64)))
    } else if same_text(name, "set.is_empty") {
        Some(new_of_types(Arity::UpToOne, Params::P1(Shape::SetOf(Simple::A)), Shape::One(Simple::Bool)))
    } else if same_text(name, "set.to_list") {
        Some(new_of_types(Arity::UpToOne, Params::P1(Shape::SetOf(Simple::A)), Shape::List(Simple::A)))
    } else if same_text(name, "set.union") || same_text(name, "set.intersection")
        || same_text(name, "set.difference") {
        Some(new_of_types(
            Arity::UpToOne,
            Params::P2(Shape::SetOf(Simple::A), Shape::SetOf(Simple::A)),
            Shape::SetOf(Simple::A),
        ))
    } else {
        None
    }
}

#[verifier::opaque]
pub open spec fn math_builtin_named(name: Seq<char>) -> Option<Builtin> {
    if name == "math.sqrt"@ || name == "math.log"@ || name == "math.log2"@
        || name == "math.log10"@ || name == "math.floor"@ || name == "math.ceil"@
        || name == "math.round"@ || name == "math.sin"@ || name == "math.cos"@
        || name == "math.tan"@ || name == "math.to_radians"@ || name == "math.to_degrees"@ {
        Some(plain(Params::P1(Shape::One(Simple::Float64)), Shape::One(Simple::Float64)))
    } else if name == "math.pow"@ {
        Some(plain(
            Params::P2(Shape::One(Simple::Float64), Shape::One(Simple::Float64)),
            Shape::One(Simple::Float64),
        ))
    } else if name == "math.clamp"@ {
        Some(plain(
            Params::P3(
                Shape::One(Simple::Float64),
                Shape::One(Simple::Float64),
                Shape::One(Simple::Float64),
            ),
            Shape::One(Simple::Float64),
        ))
    } else if name == "math.average"@ || name == "math.median"@ {
        Some(of_types(
            Arity::UpToOneOrFloat,
            Params::P1(Shape::List(Simple::A)),
            Shape::One(Simple::Float64),
        ))
    } else if name == "math.pi"@ || name == "math.e"@ {
        Some(plain(Params::P0, Shape::One(Simple::Float64)))
    } else if name == "math.mod"@ || name == "math.gcd"@ || name == "math.lcm"@ {
        Some(plain(
            Params::P2(Shape::One(Simple::Int64), Shape::One(Simple::Int64)),
            Shape::One(Simple::Int64),
        ))
    } else if name == "math.is_even"@ || name == "math.is_odd"@ {
        Some(plain(Params::P1(Shape::One(Simple::Int64)), Shape::One(Simple::Bool)))
    } else if name == "math.factorial"@ || name == "math.sign"@ {
        Some(plain(Params::P1(Shape::One(Simple::Int64)), Shape::One(Simple::Int64)))
    } else if name == "math.sum"@ {
        Some(plain(Params::P1(Shape::List(Simple::Int64)), Shape::One(Simple::Int64)))
    } else {
        None
    }
}

fn math_builtin(name: &str) -> (r: Option<Builtin>)
    ensures
        r == math_builtin_named(name@),
{
    proof {
        reveal(math_builtin_named);
    }
    if same_text(name, "math.sqrt") || same_text(name, "math.log") || same_text(name, "math.log2")
        || same_text(name, "math.log10") || same_text(name, "math.floor")
        || same_text(name, "math.ceil") || same_text(name, "math.round")
        || same_text(name, "math.sin") || same_text(name, "math.cos")
        || same_text(name, "math.tan") || same_text(name, "math.to_radians")
        || same_text(name, "math.to_degrees") {
        Some(new_plain(Params::P1(Shape::One(Simple::Float64)), Shape::One(Simple::Float64)))
    } else if same_text(name, "math.pow") {
        Some(new_plain(
            Params::P2(Shape::One(Simple::Float64), Shape::One(Simple::Float64)),
            Shape::One(Simple::Float64),
        ))
    } else if same_text(name, "math.clamp") {
        Some(new_plain(
            Params::P3(
                Shape::One(Simple::Float64),
                Shape::One(Simple::Float64),
                Shape::One(Simple::Float64),
            ),
            Shape::One(Simple::Float64),
        ))
    } else if same_text(name, "math.average") || same_text(name, "math.median") {
        Some(new_of_types(
            Arity::UpToOneOrFloat,
            Params::P1(Shape::List(Simple::A)),
            Shape::One(Simple::Float64),
        ))
    } else if same_text(name, "math.pi") || same_text(name, "math.e") {
        Some(new_plain(Params::P0, Shape::One(Simple::Float64)))
    } else if same_text(name, "math.mod") || same_text(name, "math.gcd")
        || same_text(name, "math.lcm") {
        Some(new_plain(
            Params::P2(Shape::One(Simple::Int64), Shape::One(Simple::Int64)),
            Shape::One(Simple::Int64),
        ))
    } else if same_text(name, "math.is_even") || same_text(name, "math.is_odd") {
        Some(new_plain(Params::P1(Shape::One(Simple::Int64)), Shape::One(Simple::Bool)))
    } else if same_text(name, "math.factorial") || same_text(name, "math.sign") {
        Some(new_plain(Params::P1(Shape::One(Simple::Int64)), Shape::One(Simple::Int64)))
    } else if same_text(name, "math.sum") {
        Some(new_plain(Params::P1(Shape::List(Simple::Int64)), Shape::One(Simple::Int64)))
    } else {
        None
    }
}

#[verifier::opaque]
pub open spec fn bytes_builtin_named(name: Seq<char>) -> Option<Builtin> {
    if name == "bytes.new"@ {
        Some(plain(Params::P0, Shape::One(Simple::Bytes)))
    } else if name == "bytes.length"@ {
        Some(plain(Params::P1(Shape::One(Simple::Bytes)), Shape::One(Simple::Int64)))
    } else if name == "bytes.slice"@ {
        Some(plain(
            Params::P3(
                Shape::One(Simple::Bytes),
                Shape::One(Simple::Int64),
                Shape::One(Simple::Int64),
            ),
            Shape::One(Simple::Bytes),
        ))
    } else if name == "bytes.concat"@ {
        Some(plain(
            Params::P2(Shape::One(Simple::Bytes), Shape::One(Simple::Bytes)),
            Shape::One(Simple::Bytes),
        ))
    } else if name == "bytes.from_string"@ {
        Some(plain(Params::P1(Shape::One(Simple::String)), Shape::One(Simple::Bytes)))
    } else if name == "bytes.to_string"@ {
        Some(plain(Params::P1(Shape::One(Simple::Bytes)), Shape::Result(Simple::String, Simple::String)))
    } else if name == "bytes.get"@ {
        Some(plain(
            Params::P2(Shape::One(Simple::Bytes), Shape::One(Simple::Int64)),
            Shape::Optional(Simple::Int64),
        ))
    } else if name == "bytes.to_hex"@ {
        Some(plain(Params::P1(Shape::One(Simple::Bytes)), Shape::One(Simple::String)))
    } else if name == "bytes.from_hex"@ {
        Some(plain(Params::P1(Shape::One(Simple::String)), Shape::Result(Simple::Bytes, Simple::String)))
    } else {
        None
    }
}

fn bytes_builtin(name: &str) -> (r: Option<Builtin>)
    ensures
        r == bytes_builtin_named(name@),
{
    proof {
        reveal(bytes_builtin_named);
    }
    if same_text(name, "bytes.new") {
        Some(new_plain(Params::P0, Shape::One(Simple::Bytes)))
    } else if same_text(name, "bytes.length") {
        Some(new_plain(Params::P1(Shape::One(Simple::Bytes)), Shape::One(Simple::Int64)))
    } else if same_text(name, "bytes.slice") {
        Some(new_plain(
            Params::P3(
                Shape::One(Simple::Bytes),
                Shape::One(Simple::Int64),
                Shape::One(Simple::Int64),
            ),
            Shape::One(Simple::Bytes),
        ))
    } else if same_text(name, "bytes.concat") {
        Some(new_plain(
            Params::P2(Shape::One(Simple::Bytes), Shape::One(Simple::Bytes)),
            Shape::One(Simple::Bytes),
        ))
    } else if same_text(name, "bytes.from_string") {
        Some(new_plain(Params::P1(Shape::One(Simple::String)), Shape::One(Simple::Bytes)))
    } else if same_text(name, "bytes.to_string") {
        Some(new_plain(
            Params::P1(Shape::One(Simple::Bytes)),
            Shape::Result(Simple::String, Simple::String),
        ))
    } else if same_text(name, "bytes.get") {
        Some(new_plain(
            Params::P2(Shape::One(Simple::Bytes), Shape::One(Simple::Int64)),
            Shape::Optional(Simple::Int64),
        ))
    } else if same_text(name, "bytes.to_hex") {
        Some(new_plain(Params::P1(Shape::One(Simple::Bytes)), Shape::One(Simple::String)))
    } else if same_text(name, "bytes.from_hex") {
        Some(new_plain(
            Params::P1(Shape::One(Simple::String)),
            Shape::Result(Simple::Bytes, Simple::String),
        ))
    } else {
        None
    }
}

#[verifier::opaque]
pub open spec fn type_builtin_named(name: Seq<char>) -> Option<Builtin> {
    if name == "type.name"@ || name == "type.kind"@ {
        Some(of_types(Arity::One, Params::P0, Shape::One(Simple::String)))
    } else if name == "type.kind_tag"@ {
        Some(of_types(Arity::One, Params::P0, Shape::One(Simple::Meta(Meta::TypeKind))))
    } else if name == "type.primitive_tag"@ {
        Some(of_types(Arity::One, Params::P0, Shape::Optional(Simple::Meta(Meta::TypePrimitive))))
    } else if name == "type.has_secret"@ {
        Some(of_types(Arity::One, Params::P0, Shape::One(Simple::Bool)))
    } else if name == "type.info"@ {
        Some(of_types(Arity::One, Params::P0, Shape::One(Simple::Meta(Meta::TypeInfo))))
    } else if name == "type.arg"@ {
        Some(exact(
            Arity::One,
            Params::P1(Shape::One(Simple::Int64)),
            Shape::One(Simple::Meta(Meta::TypeInfo)),
            Target::Any,
            Params::P1(Shape::One(Simple::Int64)),
        ))
    } else if name == "type.construct_start"@ {
        Some(exact(
            Arity::One,
            Params::P0,
            Shape::One(Simple::TypeConstruction),
            Target::StructOrBitfield,
            Params::P0,
        ))
    } else if name == "type.construct_variant_start"@ {
        Some(exact(
            Arity::One,
            Params::P1(Shape::One(Simple::Meta(Meta::TypeVariant))),
            Shape::Result(Simple::TypeConstruction, Simple::String),
            Target::EnumOnly,
            Params::P1(Shape::One(Simple::Any)),
        ))
    } else if name == "type.construct_machine_start"@ {
        Some(exact(
            Arity::One,
            Params::P1(Shape::One(Simple::Meta(Meta::TypeMachineState))),
            Shape::Result(Simple::TypeConstruction, Simple::String),
            Target::MachineOnly,
            Params::P1(Shape::One(Simple::Any)),
        ))
    } else if name == "type.construct_put"@ {
        Some(exact(
            Arity::Two,
            Params::P3(
                Shape::One(Simple::TypeConstruction),
                Shape::One(Simple::Meta(Meta::TypeField)),
                Shape::One(Simple::B),
            ),
            Shape::Result(Simple::TypeConstruction, Simple::String),
            Target::Constructible,
            Params::P3(
                Shape::One(Simple::TypeConstruction),
                Shape::One(Simple::Meta(Meta::TypeField)),
                Shape::One(Simple::Any),
            ),
        ))
    } else if name == "type.construct_finish"@ {
        Some(exact(
            Arity::One,
            Params::P1(Shape::One(Simple::TypeConstruction)),
            Shape::Result(Simple::A, Simple::String),
            Target::Constructible,
            Params::P1(Shape::One(Simple::TypeConstruction)),
        ))
    } else if name == "type.fields"@ {
        Some(of_types(Arity::One, Params::P0, Shape::List(Simple::Meta(Meta::TypeField))))
    } else if name == "type.bitfield_layout"@ {
        Some(of_types(Arity::One, Params::P0, Shape::One(Simple::Meta(Meta::TypeBitfield))))
    } else if name == "type.bitfield_fields"@ {
        Some(of_types(Arity::One, Params::P0, Shape::List(Simple::Meta(Meta::TypeBitfieldField))))
    } else if name == "type.machine_layout"@ {
        Some(of_types(Arity::One, Params::P0, Shape::One(Simple::Meta(Meta::TypeMachine))))
    } else if name == "type.machine_states"@ {
        Some(of_types(Arity::One, Params::P0, Shape::List(Simple::Meta(Meta::TypeMachineState))))
    } else if name == "type.machine_transitions"@ {
        Some(of_types(Arity::One, Params::P0, Shape::List(Simple::Meta(Meta::TypeMachineTransition))))
    } else if name == "type.machine_state_value"@ {
        Some(exact(
            Arity::One,
            Params::P1(Shape::One(Simple::A)),
            Shape::One(Simple::Meta(Meta::TypeMachineState)),
            Target::Any,
            Params::P1(Shape::One(Simple::Any)),
        ))
    } else if name == "type.variants"@ {
        Some(of_types(Arity::One, Params::P0, Shape::List(Simple::Meta(Meta::TypeVariant))))
    } else if name == "type.variant_value"@ {
        Some(exact(
            Arity::One,
            Params::P1(Shape::One(Simple::A)),
            Shape::One(Simple::Meta(Meta::TypeVariant)),
            Target::Any,
            Params::P1(Shape::One(Simple::Any)),
        ))
    } else if name == "type.field_value"@ || name == "type.machine_field_value"@
        || name == "type.variant_field_value"@ {
        Some(exact(
            Arity::Two,
            Params::P2(Shape::One(Simple::A), Shape::One(Simple::Meta(Meta::TypeField))),
            Shape::One(Simple::B),
            Target::Any,
            Params::P1(Shape::One(Simple::Any)),
        ))
    } else {
        None
    }
}

fn type_builtin(name: &str) -> (r: Option<Builtin>)
    ensures
        r == type_builtin_named(name@),
{
    proof {
        reveal(type_builtin_named);
    }
    if same_text(name, "type.name") || same_text(name, "type.kind") {
        Some(new_of_types(Arity::One, Params::P0, Shape::One(Simple::String)))
    } else if same_text(name, "type.kind_tag") {
        Some(new_of_types(Arity::One, Params::P0, Shape::One(Simple::Meta(Meta::TypeKind))))
    } else if same_text(name, "type.primitive_tag") {
        Some(new_of_types(Arity::One, Params::P0, Shape::Optional(Simple::Meta(Meta::TypePrimitive))))
    } else if same_text(name, "type.has_secret") {
        Some(new_of_types(Arity::One, Params::P0, Shape::One(Simple::Bool)))
    } else if same_text(name, "type.info") {
        Some(new_of_types(Arity::One, Params::P0, Shape::One(Simple::Meta(Meta::TypeInfo))))
    } else if same_text(name, "type.arg") {
        Some(new_exact(
            Arity::One,
            Params::P1(Shape::One(Simple::Int64)),
            Shape::One(Simple::Meta(Meta::TypeInfo)),
            Target::Any,
            Params::P1(Shape::One(Simple::Int64)),
        ))
    } else if same_text(name, "type.construct_start") {
        Some(new_exact(
            Arity::One,
            Params::P0,
            Shape::One(Simple::TypeConstruction),
            Target::StructOrBitfield,
            Params::P0,
        ))
    } else if same_text(name, "type.construct_variant_start") {
        Some(new_exact(
            Arity::One,
            Params::P1(Shape::One(Simple::Meta(Meta::TypeVariant))),
            Shape::Result(Simple::TypeConstruction, Simple::String),
            Target::EnumOnly,
            Params::P1(Shape::One(Simple::Any)),
        ))
    } else if same_text(name, "type.construct_machine_start") {
        Some(new_exact(
            Arity::One,
            Params::P1(Shape::One(Simple::Meta(Meta::TypeMachineState))),
            Shape::Result(Simple::TypeConstruction, Simple::String),
            Target::MachineOnly,
            Params::P1(Shape::One(Simple::Any)),
        ))
    } else if same_text(name, "type.construct_put") {
        Some(new_exact(
            Arity::Two,
            Params::P3(
                Shape::One(Simple::TypeConstruction),
                Shape::One(Simple::Meta(Meta::TypeField)),
                Shape::One(Simple::B),
            ),
            Shape::Result(Simple::TypeConstruction, Simple::String),
            Target::Constructible,
            Params::P3(
                Shape::One(Simple::TypeConstruction),
                Shape::One(Simple::Meta(Meta::TypeField)),
                Shape::One(Simple::Any),
            ),
        ))
    } else if same_text(name, "type.construct_finish") {
        Some(new_exact(
            Arity::One,
            Params::P1(Shape::One(Simple::TypeConstruction)),
            Shape::Result(Simple::A, Simple::String),
            Target::Constructible,
            Params::P1(Shape::One(Simple::TypeConstruction)),
        ))
    } else if same_text(name, "type.fields") {
        Some(new_of_types(Arity::One, Params::P0, Shape::List(Simple::Meta(Meta::TypeField))))
    } else if same_text(name, "type.bitfield_layout") {
        Some(new_of_types(Arity::One, Params::P0, Shape::One(Simple::Meta(Meta::TypeBitfield))))
    } else if same_text(name, "type.bitfield_fields") {
        Some(new_of_types(Arity::One, Params::P0, Shape::List(Simple::Meta(Meta::TypeBitfieldField))))
    } else if same_text(name, "type.machine_layout") {
        Some(new_of_types(Arity::One, Params::P0, Shape::One(Simple::Meta(Meta::TypeMachine))))
    } else if same_text(name, "type.machine_states") {
        Some(new_of_types(Arity::One, Params::P0, Shape::List(Simple::Meta(Meta::TypeMachineState))))
    } else if same_text(name, "type.machine_transitions") {
        Some(new_of_types(Arity::One, Params::P0, Shape::List(Simple::Meta(Meta::TypeMachineTransition))))
    } else if same_text(name, "type.machine_state_value") {
        Some(new_exact(
            Arity::One,
            Params::P1(Shape::One(Simple::A)),
            Shape::One(Simple::Meta(Meta::TypeMachineState)),
            Target::Any,
            Params::P1(Shape::One(Simple::Any)),
        ))
    } else if same_text(name, "type.variants") {
        Some(new_of_types(Arity::One, Params::P0, Shape::List(Simple::Meta(Meta::TypeVariant))))
    } else if same_text(name, "type.variant_value") {
        Some(new_exact(
            Arity::One,
            Params::P1(Shape::One(Simple::A)),
            Shape::One(Simple::Meta(Meta::TypeVariant)),
            Target::Any,
            Params::P1(Shape::One(Simple::Any)),
        ))
    } else if same_text(name, "type.field_value") || same_text(name, "type.machine_field_value")
        || same_text(name, "type.variant_field_value") {
        Some(new_exact(
            Arity::Two,
            Params::P2(Shape::One(Simple::A), Shape::One(Simple::Meta(Meta::TypeField))),
            Shape::One(Simple::B),
            Target::Any,
            Params::P1(Shape::One(Simple::Any)),
        ))
    } else {
        None
    }
}

#[verifier::opaque]
pub open spec fn other_builtin_named(name: Seq<char>) -> Option<Builtin> {
    if name == "int64.from_string"@ {
        Some(plain(Params::P1(Shape::One(Simple::String)), Shape::Result(Simple::Int64, Simple::String)))
    } else if name == "uint64.from_string"@ {
        Some(plain(Params::P1(Shape::One(Simple::String)), Shape::Result(Simple::Uint64, Simple::String)))
    } else if name == "float64.from_string"@ {
        Some(plain(
            Params::P1(Shape::One(Simple::String)),
            Shape::Result(Simple::Float64, Simple::String),
        ))
    } else if name == "float64.from_int64"@ {
        Some(plain(Params::P1(Shape::One(Simple::Int64)), Shape::One(Simple::Float64)))
    } else if name == "Environment.args"@ {
        Some(plain(Params::P1(Shape::One(Simple::Any)), Shape::List(Simple::String)))
    } else if name == "Filesystem.read_file"@ {
        Some(plain(
            Params::P2(Shape::One(Simple::Any), Shape::One(Simple::String)),
            Shape::Result(Simple::String, Simple::String),
        ))
    } else if name == "Filesystem.write_file"@ {
        Some(plain(
            Params::P3(
                Shape::One(Simple::Any),
                Shape::One(Simple::String),
                Shape::One(Simple::String),
            ),
            Shape::Result(Simple::Nothing, Simple::String),
        ))
    } else if name == "Stdout.write"@ {
        Some(plain(
            Params::P2(Shape::One(Simple::Any), Shape::One(Simple::String)),
            Shape::One(Simple::Nothing),
        ))
    } else if name == "json.parse"@ || name == "json.parse_exact"@ {
        Some(exact(
            Arity::One,
            Params::P1(Shape::One(Simple::String)),
            Shape::Result(Simple::A, Simple::String),
            Target::Any,
            Params::P1(Shape::One(Simple::String)),
        ))
    } else if name == "json.serialize"@ || name == "json.serialize_public"@ {
        Some(exact(
            Arity::One,
            Params::P1(Shape::One(Simple::A)),
            Shape::One(Simple::String),
            Target::Any,
            Params::P1(Shape::One(Simple::Any)),
        ))
    } else if name == "secret.redact"@ {
        Some(plain(Params::P1(Shape::Secret(Simple::Any)), Shape::One(Simple::String)))
    } else if name == "secret.compare"@ {
        Some(plain(
            Params::P2(Shape::Secret(Simple::Any), Shape::Secret(Simple::Any)),
            Shape::One(Simple::Bool),
        ))
    } else if name == "random.int64"@ {
        Some(plain(
            Params::P2(Shape::One(Simple::Int64), Shape::One(Simple::Int64)),
            Shape::One(Simple::Int64),
        ))
    } else if name == "random.float64"@ {
        Some(plain(Params::P0, Shape::One(Simple::Float64)))
    } else if name == "random.bool"@ {
        Some(plain(Params::P0, Shape::One(Simple::Bool)))
    } else if name == "random.choice"@ {
        Some(of_types(Arity::UpToOne, Params::P1(Shape::List(Simple::A)), Shape::Optional(Simple::A)))
    } else if name == "random.shuffle"@ {
        Some(of_types(Arity::UpToOne, Params::P1(Shape::List(Simple::A)), Shape::List(Simple::A)))
    } else if name == "uuid.new"@ {
        Some(plain(Params::P0, Shape::One(Simple::String)))
    } else if name == "encoding.base64_encode"@ || name == "encoding.base64_decode"@
        || name == "encoding.hex_encode"@ || name == "encoding.hex_decode"@
        || name == "encoding.url_encode"@ || name == "encoding.url_decode"@
        || name == "crypto.sha256"@ || name == "crypto.md5"@ {
        Some(plain(Params::P1(Shape::One(Simple::String)), Shape::One(Simple::String)))
    } else if name == "time.now_ms"@ || name == "time.now_s"@ {
        Some(plain(Params::P0, Shape::One(Simple::Int64)))
    } else if name == "os.args"@ {
        Some(plain(Params::P0, Shape::List(Simple::String)))
    } else if name == "os.env"@ {
        Some(plain(Params::P1(Shape::One(Simple::String)), Shape::Optional(Simple::String)))
    } else if name == "csv.parse"@ {
        Some(plain(Params::P1(Shape::One(Simple::String)), Shape::ListOfLists(Simple::String)))
    } else if name == "csv.stringify"@ {
        Some(plain(Params::P1(Shape::ListOfLists(Simple::String)), Shape::One(Simple::String)))
    } else if name == "csv.parse_with_header"@ {
        Some(plain(
            Params::P1(Shape::One(Simple::String)),
            Shape::ListOfMaps(Simple::String, Simple::String),
        ))
    } else {
        None
    }
}

fn other_builtin(name: &str) -> (r: Option<Builtin>)
    ensures
        r == other_builtin_named(name@),
{
    proof {
        reveal(other_builtin_named);
    }
    if same_text(name, "int64.from_string") {
        Some(new_plain(
            Params::P1(Shape::One(Simple::String)),
            Shape::Result(Simple::Int64, Simple::String),
        ))
    } else if same_text(name, "uint64.from_string") {
        Some(new_plain(
            Params::P1(Shape::One(Simple::String)),
            Shape::Result(Simple::Uint64, Simple::String),
        ))
    } else if same_text(name, "float64.from_string") {
        Some(new_plain(
            Params::P1(Shape::One(Simple::String)),
            Shape::Result(Simple::Float64, Simple::String),
        ))
    } else if same_text(name, "float64.from_int64") {
        Some(new_plain(Params::P1(Shape::One(Simple::Int64)), Shape::One(Simple::Float64)))
    } else if same_text(name, "Environment.args") {
        Some(new_plain(Params::P1(Shape::One(Simple::Any)), Shape::List(Simple::String)))
    } else if same_text(name, "Filesystem.read_file") {
        Some(new_plain(
            Params::P2(Shape::One(Simple::Any), Shape::One(Simple::String)),
            Shape::Result(Simple::String, Simple::String),
        ))
    } else if same_text(name, "Filesystem.write_file") {
        Some(new_plain(
            Params::P3(
                Shape::One(Simple::Any),
                Shape::One(Simple::String),
                Shape::One(Simple::String),
            ),
            Shape::Result(Simple::Nothing, Simple::String),
        ))
    } else if same_text(name, "Stdout.write") {
        Some(new_plain(
            Params::P2(Shape::One(Simple::Any), Shape::One(Simple::String)),
            Shape::One(Simple::Nothing),
        ))
    } else if same_text(name, "json.parse") || same_text(name, "json.parse_exact") {
        Some(new_exact(
            Arity::One,
            Params::P1(Shape::One(Simple::String)),
            Shape::Result(Simple::A, Simple::String),
            Target::Any,
            Params::P1(Shape::One(Simple::String)),
        ))
    } else if same_text(name, "json.serialize") || same_text(name, "json.serialize_public") {
        Some(new_exact(
            Arity::One,
            Params::P1(Shape::One(Simple::A)),
            Shape::One(Simple::String),
            Target::Any,
            Params::P1(Shape::One(Simple::Any)),
        ))
    } else if same_text(name, "secret.redact") {
        Some(new_plain(Params::P1(Shape::Secret(Simple::Any)), Shape::One(Simple::String)))
    } else if same_text(name, "secret.compare") {
        Some(new_plain(
            Params::P2(Shape::Secret(Simple::Any), Shape::Secret(Simple::Any)),
            Shape::One(Simple::Bool),
        ))
    } else if same_text(name, "random.int64") {
        Some(new_plain(
            Params::P2(Shape::One(Simple::Int64), Shape::One(Simple::Int64)),
            Shape::One(Simple::Int64),
        ))
    } else if same_text(name, "random.float64") {
        Some(new_plain(Params::P0, Shape::One(Simple::Float64)))
    } else if same_text(name, "random.bool") {
        Some(new_plain(Params::P0, Shape::One(Simple::Bool)))
    } else if same_text(name, "random.choice") {
        Some(new_of_types(Arity::UpToOne, Params::P1(Shape::List(Simple::A)), Shape::Optional(Simple::A)))
    } else if same_text(name, "random.shuffle") {
        Some(new_of_types(Arity::UpToOne, Params::P1(Shape::List(Simple::A)), Shape::List(Simple::A)))
    } else if same_text(name, "uuid.new") {
        Some(new_plain(Params::P0, Shape::One(Simple::String)))
    } else if same_text(name, "encoding.base64_encode")
        || same_text(name, "encoding.base64_decode") || same_text(name, "encoding.hex_encode")
        || same_text(name, "encoding.hex_decode") || same_text(name, "encoding.url_encode")
        || same_text(name, "encoding.url_decode") || same_text(name, "crypto.sha256")
        || same_text(name, "crypto.md5") {
        Some(new_plain(Params::P1(Shape::One(Simple::String)), Shape::One(Simple::String)))
    } else if same_text(name, "time.now_ms") || same_text(name, "time.now_s") {
        Some(new_plain(Params::P0, Shape::One(Simple::Int64)))
    } else if same_text(name, "os.args") {
        Some(new_plain(Params::P0, Shape::List(Simple::String)))
    } else if same_text(name, "os.env") {
        Some(new_plain(Params::P1(Shape::One(Simple::String)), Shape::Optional(Simple::String)))
    } else if same_text(name, "csv.parse") {
        Some(new_plain(Params::P1(Shape::One(Simple::String)), Shape::ListOfLists(Simple::String)))
    } else if same_text(name, "csv.stringify") {
        Some(new_plain(Params::P1(Shape::ListOfLists(Simple::String)), Shape::One(Simple::String)))
    } else if same_text(name, "csv.parse_with_header") {
        Some(new_plain(
            Params::P1(Shape::One(Simple::String)),
            Shape::ListOfMaps(Simple::String, Simple::String),
        ))
    } else {
        None
    }
}

/// The builtin function of that name.
#[verifier::opaque]
pub open spec fn builtin_named(name: Seq<char>) -> Option<Builtin> {
    if string_builtin_named(name) is Some {
        string_builtin_named(name)
    } else if list_builtin_named(name) is Some {
        list_builtin_named(name)
    } else if map_builtin_named(name) is Some {
        map_builtin_named(name)
    } else if set_builtin_named(name) is Some {
        set_builtin_named(name)
    } else if math_builtin_named(name) is Some {
        math_builtin_named(name)
    } else if bytes_builtin_named(name) is Some {
        bytes_builtin_named(name)
    } else if type_builtin_named(name) is Some {
        type_builtin_named(name)
    } else if other_builtin_named(name) is Some {
        other_builtin_named(name)
    } else {
        None
    }
}

/// The builtin function of that name.
pub fn find_builtin(name: &str) -> (r: Option<Builtin>)
    ensures
        r == builtin_named(name@),
{
    proof {
        reveal(builtin_named);
    }
    if let Some(b) = string_builtin(name) {
        return Some(b);
    }
    if let Some(b) = list_builtin(name) {
        return Some(b);
    }
    if let Some(b) = map_builtin(name) {
        return Some(b);
    }
    if let Some(b) = set_builtin(name) {
        return Some(b);
    }
    if let Some(b) = math_builtin(name) {
        return Some(b);
    }
    if let Some(b) = bytes_builtin(name) {
        return Some(b);
    }
    if let Some(b) = type_builtin(name) {
        return Some(b);
    }
    if let Some(b) = other_builtin(name) {
        return Some(b);
    }
    None
}

} // verus!
