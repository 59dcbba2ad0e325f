//! What a program can ask about its types while it runs.
use vstd::prelude::*;

use crate::table::{dup_vec, views, Dup};
use crate::text::{dup_text, maybe_text};

verus! {

/// A type as a running program sees it.
#[derive(Debug)]
pub struct TypeInfo {
    pub name: String,
    pub kind: String,
    pub primitive_tag: Option<String>,
    pub has_secret: bool,
    pub args: Vec<TypeInfo>,
}

pub struct TypeInfoV {
    pub name: Seq<char>,
    pub kind: Seq<char>,
    pub primitive_tag: Option<Seq<char>>,
    pub has_secret: bool,
    pub args: Seq<TypeInfoV>,
}

pub open spec fn info_view(i: TypeInfo) -> TypeInfoV
    decreases i,
{
    TypeInfoV {
        name: i.name@,
        kind: i.kind@,
        primitive_tag: maybe_text(i.primitive_tag),
        has_secret: i.has_secret,
        args: Seq::new(
            i.args@.len(),
            |k: int|
                if 0 <= k < i.args@.len() {
                    info_view(i.args@[k])
                } else {
                    arbitrary()
                },
        ),
    }
}

impl View for TypeInfo {
    type V = TypeInfoV;

    open spec fn view(&self) -> TypeInfoV {
        info_view(*self)
    }
}

pub fn dup_info(i: &TypeInfo) -> (r: TypeInfo)
    ensures
        r@ == i@,
    decreases i,
{
    let args = dup_infos(&i.args);
    let r = TypeInfo {
        name: i.name.clone(),
        kind: i.kind.clone(),
        primitive_tag: dup_text(&i.primitive_tag),
        has_secret: i.has_secret,
        args,
    };
    assert(r@.args =~= i@.args);
    r
}

fn dup_infos(v: &Vec<TypeInfo>) -> (r: Vec<TypeInfo>)
    ensures
        r@.len() == v@.len(),
        forall|k: int| 0 <= k < v@.len() ==> (#[trigger] r@[k])@ == v@[k]@,
    decreases v,
{
    let mut r: Vec<TypeInfo> = Vec::new();
    let mut i: usize = 0;
    while i < v.len()
        invariant
            i <= v@.len(),
            r@.len() == i,
            forall|k: int| 0 <= k < i ==> (#[trigger] r@[k])@ == v@[k]@,
        decreases v@.len() - i,
    {
        r.push(dup_info(&v[i]));
        i = i + 1;
    }
    r
}

impl Dup for TypeInfo {
    fn dup(&self) -> (r: Self) {
        dup_info(self)
    }
}

/// A type information built from its parts.
pub fn new_info(
    name: String,
    kind: String,
    primitive_tag: Option<String>,
    has_secret: bool,
    args: Vec<TypeInfo>,
) -> (r: TypeInfo)
    ensures
        r@ == (TypeInfoV {
            name: name@,
            kind: kind@,
            primitive_tag: maybe_text(primitive_tag),
            has_secret,
            args: views(args@),
        }),
{
    let r = TypeInfo { name, kind, primitive_tag, has_secret, args };
    assert(r@.args =~= views(args@));
    r
}

#[derive(Debug)]
pub struct FieldInfo {
    pub index: usize,
    pub name: String,
    pub serialize_name: String,
    pub type_info: TypeInfo,
}

pub struct FieldInfoV {
    pub index: usize,
    pub name: Seq<char>,
    pub serialize_name: Seq<char>,
    pub type_info: TypeInfoV,
}

impl View for FieldInfo {
    type V = FieldInfoV;

    open spec fn view(&self) -> FieldInfoV {
        FieldInfoV {
            index: self.index,
            name: self.name@,
            serialize_name: self.serialize_name@,
            type_info: self.type_info@,
        }
    }
}

impl Dup for FieldInfo {
    fn dup(&self) -> (r: Self) {
        FieldInfo {
            index: self.index,
            name: self.name.clone(),
            serialize_name: self.serialize_name.clone(),
            type_info: self.type_info.dup(),
        }
    }
}

/// The fields of a named type.
#[derive(Debug)]
pub struct FieldList {
    pub owner: String,
    pub fields: Vec<FieldInfo>,
}

pub struct FieldListV {
    pub owner: Seq<char>,
    pub fields: Seq<FieldInfoV>,
}

impl View for FieldList {
    type V = FieldListV;

    open spec fn view(&self) -> FieldListV {
        FieldListV { owner: self.owner@, fields: views(self.fields@) }
    }
}

impl Dup for FieldList {
    fn dup(&self) -> (r: Self) {
        FieldList { owner: self.owner.clone(), fields: dup_vec(&self.fields) }
    }
}

#[derive(Debug)]
pub struct BitfieldFieldInfo {
    pub index: usize,
    pub name: String,
    pub shape: String,
    pub width: i64,
    pub type_info: TypeInfo,
    pub enum_type: Option<TypeInfo>,
}

pub struct BitfieldFieldInfoV {
    pub index: usize,
    pub name: Seq<char>,
    pub shape: Seq<char>,
    pub width: i64,
    pub type_info: TypeInfoV,
    pub enum_type: Option<TypeInfoV>,
}

pub open spec fn maybe_info(o: Option<TypeInfo>) -> Option<TypeInfoV> {
    match o {
        Some(i) => Some(i@),
        None => None,
    }
}

impl View for BitfieldFieldInfo {
    type V = BitfieldFieldInfoV;

    open spec fn view(&self) -> BitfieldFieldInfoV {
        BitfieldFieldInfoV {
            index: self.index,
            name: self.name@,
            shape: self.shape@,
            width: self.width,
            type_info: self.type_info@,
            enum_type: maybe_info(self.enum_type),
        }
    }
}

impl Dup for BitfieldFieldInfo {
    fn dup(&self) -> (r: Self) {
        BitfieldFieldInfo {
            index: self.index,
            name: self.name.clone(),
            shape: self.shape.clone(),
            width: self.width,
            type_info: self.type_info.dup(),
            enum_type: match &self.enum_type {
                Some(i) => Some(i.dup()),
                None => None,
            },
        }
    }
}

/// The layout of a named bitfield.
#[derive(Debug)]
pub struct BitfieldInfo {
    pub owner: String,
    pub network_order: bool,
    pub fields: Vec<BitfieldFieldInfo>,
}

pub struct BitfieldInfoV {
    pub owner: Seq<char>,
    pub network_order: bool,
    pub fields: Seq<BitfieldFieldInfoV>,
}

impl View for BitfieldInfo {
    type V = BitfieldInfoV;

    open spec fn view(&self) -> BitfieldInfoV {
        BitfieldInfoV {
            owner: self.owner@,
            network_order: self.network_order,
            fields: views(self.fields@),
        }
    }
}

impl Dup for BitfieldInfo {
    fn dup(&self) -> (r: Self) {
        BitfieldInfo {
            owner: self.owner.clone(),
            network_order: self.network_order,
            fields: dup_vec(&self.fields),
        }
    }
}

#[derive(Debug)]
pub struct VariantInfo {
    pub index: usize,
    pub name: String,
    pub discriminant: i64,
    pub has_secret: bool,
    pub fields: Vec<FieldInfo>,
}

pub struct VariantInfoV {
    pub index: usize,
    pub name: Seq<char>,
    pub discriminant: i64,
    pub has_secret: bool,
    pub fields: Seq<FieldInfoV>,
}

impl View for VariantInfo {
    type V = VariantInfoV;

    open spec fn view(&self) -> VariantInfoV {
        VariantInfoV {
            index: self.index,
            name: self.name@,
            discriminant: self.discriminant,
            has_secret: self.has_secret,
            fields: views(self.fields@),
        }
    }
}

impl Dup for VariantInfo {
    fn dup(&self) -> (r: Self) {
        VariantInfo {
            index: self.index,
            name: self.name.clone(),
            discriminant: self.discriminant,
            has_secret: self.has_secret,
            fields: dup_vec(&self.fields),
        }
    }
}

/// The variants of a named enum.
#[derive(Debug)]
pub struct VariantList {
    pub owner: String,
    pub variants: Vec<VariantInfo>,
}

pub struct VariantListV {
    pub owner: Seq<char>,
    pub variants: Seq<VariantInfoV>,
}

impl View for VariantList {
    type V = VariantListV;

    open spec fn view(&self) -> VariantListV {
        VariantListV { owner: self.owner@, variants: views(self.variants@) }
    }
}

impl Dup for VariantList {
    fn dup(&self) -> (r: Self) {
        VariantList { owner: self.owner.clone(), variants: dup_vec(&self.variants) }
    }
}

#[derive(Debug)]
pub struct MachineStateInfo {
    pub index: usize,
    pub name: String,
    pub has_secret: bool,
    pub fields: Vec<FieldInfo>,
}

pub struct MachineStateInfoV {
    pub index: usize,
    pub name: Seq<char>,
    pub has_secret: bool,
    pub fields: Seq<FieldInfoV>,
}

impl View for MachineStateInfo {
    type V = MachineStateInfoV;

    open spec fn view(&self) -> MachineStateInfoV {
        MachineStateInfoV {
            index: self.index,
            name: self.name@,
            has_secret: self.has_secret,
            fields: views(self.fields@),
        }
    }
}

impl Dup for MachineStateInfo {
    fn dup(&self) -> (r: Self) {
        MachineStateInfo {
            index: self.index,
            name: self.name.clone(),
            has_secret: self.has_secret,
            fields: dup_vec(&self.fields),
        }
    }
}

#[derive(Debug)]
pub struct MachineTransitionInfo {
    pub index: usize,
    pub source_index: usize,
    pub source: String,
    pub target_index: usize,
    pub target: String,
}

pub struct MachineTransitionInfoV {
    pub index: usize,
    pub source_index: usize,
    pub source: Seq<char>,
    pub target_index: usize,
    pub target: Seq<char>,
}

impl View for MachineTransitionInfo {
    type V = MachineTransitionInfoV;

    open spec fn view(&self) -> MachineTransitionInfoV {
        MachineTransitionInfoV {
            index: self.index,
            source_index: self.source_index,
            source: self.source@,
            target_index: self.target_index,
            target: self.target@,
        }
    }
}

impl Dup for MachineTransitionInfo {
    fn dup(&self) -> (r: Self) {
        MachineTransitionInfo {
            index: self.index,
            source_index: self.source_index,
            source: self.source.clone(),
            target_index: self.target_index,
            target: self.target.clone(),
        }
    }
}

/// The states of a named machine and the steps between them.
#[derive(Debug)]
pub struct MachineInfo {
    pub owner: String,
    pub states: Vec<MachineStateInfo>,
    pub transitions: Vec<MachineTransitionInfo>,
}

pub struct MachineInfoV {
    pub owner: Seq<char>,
    pub states: Seq<MachineStateInfoV>,
    pub transitions: Seq<MachineTransitionInfoV>,
}

impl View for MachineInfo {
    type V = MachineInfoV;

    open spec fn view(&self) -> MachineInfoV {
        MachineInfoV {
            owner: self.owner@,
            states: views(self.states@),
            transitions: views(self.transitions@),
        }
    }
}

impl Dup for MachineInfo {
    fn dup(&self) -> (r: Self) {
        MachineInfo {
            owner: self.owner.clone(),
            states: dup_vec(&self.states),
            transitions: dup_vec(&self.transitions),
        }
    }
}

} // verus!
