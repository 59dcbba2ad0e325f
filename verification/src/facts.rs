//! Facts about reflected types that are known while a function is checked.
use vstd::prelude::*;

use crate::resolution::DefId;
use crate::table::{dup_vec, views, Dup, Table};
use crate::text::{dup_text, maybe_text, same_maybe_text};

verus! {

/// A primitive tag, or that there is none.
#[derive(Debug)]
pub struct MaybeTag {
    pub tag: Option<String>,
}

impl View for MaybeTag {
    type V = Option<Seq<char>>;

    open spec fn view(&self) -> Option<Seq<char>> {
        maybe_text(self.tag)
    }
}

impl Dup for MaybeTag {
    fn dup(&self) -> (r: Self) {
        MaybeTag { tag: dup_text(&self.tag) }
    }
}

/// A tag of the parameter at a place.
#[derive(Debug)]
pub struct ParamTag {
    pub index: usize,
    pub tag: String,
}

pub struct ParamTagV {
    pub index: usize,
    pub tag: Seq<char>,
}

impl View for ParamTag {
    type V = ParamTagV;

    open spec fn view(&self) -> ParamTagV {
        ParamTagV { index: self.index, tag: self.tag@ }
    }
}

impl Dup for ParamTag {
    fn dup(&self) -> (r: Self) {
        ParamTag { index: self.index, tag: self.tag.clone() }
    }
}

#[derive(Debug)]
pub struct ParamMaybeTag {
    pub index: usize,
    pub tag: Option<String>,
}

pub struct ParamMaybeTagV {
    pub index: usize,
    pub tag: Option<Seq<char>>,
}

impl View for ParamMaybeTag {
    type V = ParamMaybeTagV;

    open spec fn view(&self) -> ParamMaybeTagV {
        ParamMaybeTagV { index: self.index, tag: maybe_text(self.tag) }
    }
}

impl Dup for ParamMaybeTag {
    fn dup(&self) -> (r: Self) {
        ParamMaybeTag { index: self.index, tag: dup_text(&self.tag) }
    }
}

/// What is known of the arguments that a generic function is called with.
#[derive(Debug)]
pub struct ReflectionParamFacts {
    pub type_info_kinds: Vec<ParamTag>,
    pub type_info_primitives: Vec<ParamMaybeTag>,
    pub type_kind_values: Vec<ParamTag>,
    pub type_primitive_values: Vec<ParamTag>,
}

pub struct ParamFacts {
    pub type_info_kinds: Seq<ParamTagV>,
    pub type_info_primitives: Seq<ParamMaybeTagV>,
    pub type_kind_values: Seq<ParamTagV>,
    pub type_primitive_values: Seq<ParamTagV>,
}

impl View for ReflectionParamFacts {
    type V = ParamFacts;

    open spec fn view(&self) -> ParamFacts {
        ParamFacts {
            type_info_kinds: views(self.type_info_kinds@),
            type_info_primitives: views(self.type_info_primitives@),
            type_kind_values: views(self.type_kind_values@),
            type_primitive_values: views(self.type_primitive_values@),
        }
    }
}

pub open spec fn no_facts() -> ParamFacts {
    ParamFacts {
        type_info_kinds: Seq::empty(),
        type_info_primitives: Seq::empty(),
        type_kind_values: Seq::empty(),
        type_primitive_values: Seq::empty(),
    }
}

impl Dup for ReflectionParamFacts {
    fn dup(&self) -> (r: Self) {
        ReflectionParamFacts {
            type_info_kinds: dup_vec(&self.type_info_kinds),
            type_info_primitives: dup_vec(&self.type_info_primitives),
            type_kind_values: dup_vec(&self.type_kind_values),
            type_primitive_values: dup_vec(&self.type_primitive_values),
        }
    }
}

impl ReflectionParamFacts {
    pub fn new() -> (r: Self)
        ensures
            r@ == no_facts(),
    {
        let r = ReflectionParamFacts {
            type_info_kinds: Vec::new(),
            type_info_primitives: Vec::new(),
            type_kind_values: Vec::new(),
            type_primitive_values: Vec::new(),
        };
        assert(r@.type_info_kinds =~= no_facts().type_info_kinds);
        assert(r@.type_info_primitives =~= no_facts().type_info_primitives);
        assert(r@.type_kind_values =~= no_facts().type_kind_values);
        assert(r@.type_primitive_values =~= no_facts().type_primitive_values);
        r
    }

    /// Whether nothing is known.
    pub fn is_empty(&self) -> (r: bool)
        ensures
            r == (self@ == no_facts()),
    {
        let r = self.type_info_kinds.len() == 0 && self.type_info_primitives.len() == 0
            && self.type_kind_values.len() == 0 && self.type_primitive_values.len() == 0;
        proof {
            if r {
                assert(self@.type_info_kinds =~= no_facts().type_info_kinds);
                assert(self@.type_info_primitives =~= no_facts().type_info_primitives);
                assert(self@.type_kind_values =~= no_facts().type_kind_values);
                assert(self@.type_primitive_values =~= no_facts().type_primitive_values);
            } else {
                assert(self@.type_info_kinds.len() > 0 || self@.type_info_primitives.len() > 0
                    || self@.type_kind_values.len() > 0 || self@.type_primitive_values.len() > 0);
            }
        }
        r
    }

    /// Whether both say the same.
    pub fn same(&self, other: &Self) -> (r: bool)
        ensures
            r == (self@ == other@),
    {
        same_tags(&self.type_info_kinds, &other.type_info_kinds) && same_maybe_tags(
            &self.type_info_primitives,
            &other.type_info_primitives,
        ) && same_tags(&self.type_kind_values, &other.type_kind_values) && same_tags(
            &self.type_primitive_values,
            &other.type_primitive_values,
        )
    }
}

fn same_tags(a: &Vec<ParamTag>, b: &Vec<ParamTag>) -> (r: bool)
    ensures
        r == (views(a@) == views(b@)),
{
    if a.len() != b.len() {
        assert(views(a@).len() != views(b@).len());
        return false;
    }
    let mut i: usize = 0;
    while i < a.len()
        invariant
            i <= a@.len(),
            a@.len() == b@.len(),
            forall|j: int| 0 <= j < i ==> views(a@)[j] == views(b@)[j],
        decreases a@.len() - i,
    {
        if a[i].index != b[i].index || a[i].tag != b[i].tag {
            assert(views(a@)[i as int] != views(b@)[i as int]);
            return false;
        }
        i = i + 1;
    }
    assert(views(a@) =~= views(b@));
    true
}

fn same_maybe_tags(a: &Vec<ParamMaybeTag>, b: &Vec<ParamMaybeTag>) -> (r: bool)
    ensures
        r == (views(a@) == views(b@)),
{
    if a.len() != b.len() {
        assert(views(a@).len() != views(b@).len());
        return false;
    }
    let mut i: usize = 0;
    while i < a.len()
        invariant
            i <= a@.len(),
            a@.len() == b@.len(),
            forall|j: int| 0 <= j < i ==> views(a@)[j] == views(b@)[j],
        decreases a@.len() - i,
    {
        if a[i].index != b[i].index || !same_maybe_text(&a[i].tag, &b[i].tag) {
            assert(views(a@)[i as int] != views(b@)[i as int]);
            return false;
        }
        i = i + 1;
    }
    assert(views(a@) =~= views(b@));
    true
}

/// A value of one of the two reflection enums, by the name of its variant.
#[derive(Debug)]
pub enum StaticReflectionEnumValue {
    TypeKind(String),
    TypePrimitive(String),
}

pub enum ReflectionValue {
    TypeKind(Seq<char>),
    TypePrimitive(Seq<char>),
}

impl View for StaticReflectionEnumValue {
    type V = ReflectionValue;

    open spec fn view(&self) -> ReflectionValue {
        match self {
            StaticReflectionEnumValue::TypeKind(n) => ReflectionValue::TypeKind(n@),
            StaticReflectionEnumValue::TypePrimitive(n) => ReflectionValue::TypePrimitive(n@),
        }
    }
}

pub open spec fn value_variant(v: ReflectionValue) -> Seq<char> {
    match v {
        ReflectionValue::TypeKind(n) => n,
        ReflectionValue::TypePrimitive(n) => n,
    }
}

impl StaticReflectionEnumValue {
    /// The name of the variant.
    pub fn variant_name(&self) -> (r: &String)
        ensures
            r@ == value_variant(self@),
    {
        match self {
            StaticReflectionEnumValue::TypeKind(name) => name,
            StaticReflectionEnumValue::TypePrimitive(name) => name,
        }
    }

    /// Whether both are the same variant of the same enum.
    pub fn same(&self, other: &Self) -> (r: bool)
        ensures
            r == (self@ == other@),
    {
        match (self, other) {
            (StaticReflectionEnumValue::TypeKind(a), StaticReflectionEnumValue::TypeKind(b)) => *a == *b,
            (
                StaticReflectionEnumValue::TypePrimitive(a),
                StaticReflectionEnumValue::TypePrimitive(b),
            ) => *a == *b,
            _ => false,
        }
    }
}

/// Where in a generic function a reflection stands.
#[derive(Debug, Clone, Copy, PartialEq, Eq, Structural)]
pub enum ReflectionBranchContext {
    TopLevel,
    StaticReflectionBranch,
    RuntimeBranch,
}

impl ReflectionBranchContext {
    pub open spec fn permits(self) -> bool {
        self == ReflectionBranchContext::TopLevel || self
            == ReflectionBranchContext::StaticReflectionBranch
    }

    /// Whether the shape of a type parameter may be looked at there.
    pub fn permits_shape_reflection(self) -> (r: bool)
        ensures
            r == self.permits(),
    {
        match self {
            ReflectionBranchContext::TopLevel | ReflectionBranchContext::StaticReflectionBranch => true,
            ReflectionBranchContext::RuntimeBranch => false,
        }
    }
}

/// What is known of the local variables of one block.
pub struct FactScope {
    pub info_kinds: Table<DefId, String>,
    pub info_primitives: Table<DefId, MaybeTag>,
    pub kind_values: Table<DefId, String>,
    pub primitive_values: Table<DefId, String>,
}

pub struct FactScopeV {
    pub info_kinds: Map<DefId, Seq<char>>,
    pub info_primitives: Map<DefId, Option<Seq<char>>>,
    pub kind_values: Map<DefId, Seq<char>>,
    pub primitive_values: Map<DefId, Seq<char>>,
}

impl View for FactScope {
    type V = FactScopeV;

    open spec fn view(&self) -> FactScopeV {
        FactScopeV {
            info_kinds: self.info_kinds@,
            info_primitives: self.info_primitives@,
            kind_values: self.kind_values@,
            primitive_values: self.primitive_values@,
        }
    }
}

pub open spec fn empty_scope() -> FactScopeV {
    FactScopeV {
        info_kinds: Map::empty(),
        info_primitives: Map::empty(),
        kind_values: Map::empty(),
        primitive_values: Map::empty(),
    }
}

/// A scope that knows nothing of a variable any more.
pub open spec fn forget(s: FactScopeV, id: DefId) -> FactScopeV {
    FactScopeV {
        info_kinds: s.info_kinds.remove(id),
        info_primitives: s.info_primitives.remove(id),
        kind_values: s.kind_values.remove(id),
        primitive_values: s.primitive_values.remove(id),
    }
}

impl FactScope {
    pub fn new() -> (r: Self)
        ensures
            r@ == empty_scope(),
    {
        FactScope {
            info_kinds: Table::new(),
            info_primitives: Table::new(),
            kind_values: Table::new(),
            primitive_values: Table::new(),
        }
    }
}

} // verus!
