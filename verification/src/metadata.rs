//! What a running program can ask about the types of a checked module.
use vstd::prelude::*;

use crate::ast::TypeAlias;
use crate::reflect_types::{info_named, type_info};
use crate::reflection::{
    new_info, BitfieldInfo, BitfieldInfoV, FieldInfo, FieldList, FieldListV, MachineInfo,
    MachineInfoV, TypeInfo, TypeInfoV, VariantInfo, VariantList, VariantListV,
};
use crate::state::{State, TypeChecker};
use crate::steady::{keeps, keeps_aliases, known};
use crate::table::{look, views, Dup, Table};
use crate::text::text;
use crate::type_rules::contains_secret;
use crate::types::{TypeId, TypeInterner};
use crate::written_types::resolve_type;

verus! {

broadcast use crate::steady::group_steady;

/// What is told of types, by name and by id.
#[derive(Debug)]
pub struct ReflectionMetadata {
    info_by_id: Table<TypeId, TypeInfo>,
    info_by_name: Table<String, TypeInfo>,
    id_by_name: Table<String, TypeId>,
    fields: Table<TypeId, FieldList>,
    bitfields: Table<TypeId, BitfieldInfo>,
    machines: Table<TypeId, MachineInfo>,
    variants: Table<TypeId, VariantList>,
}

pub struct MetadataV {
    pub info_by_id: Map<TypeId, TypeInfoV>,
    pub info_by_name: Map<Seq<char>, TypeInfoV>,
    pub id_by_name: Map<Seq<char>, TypeId>,
    pub fields: Map<TypeId, FieldListV>,
    pub bitfields: Map<TypeId, BitfieldInfoV>,
    pub machines: Map<TypeId, MachineInfoV>,
    pub variants: Map<TypeId, VariantListV>,
}

impl View for ReflectionMetadata {
    type V = MetadataV;

    closed spec fn view(&self) -> MetadataV {
        MetadataV {
            info_by_id: self.info_by_id@,
            info_by_name: self.info_by_name@,
            id_by_name: self.id_by_name@,
            fields: self.fields@,
            bitfields: self.bitfields@,
            machines: self.machines@,
            variants: self.variants@,
        }
    }
}

/// Tells `info` of the type `id`.
pub open spec fn told(m: MetadataV, id: TypeId, info: TypeInfoV) -> MetadataV {
    MetadataV {
        info_by_id: m.info_by_id.insert(id, info),
        info_by_name: m.info_by_name.insert(info.name, info),
        id_by_name: m.id_by_name.insert(info.name, id),
        ..m
    }
}

/// Tells of all types from `i` on.
pub open spec fn told_ids(s: State, m: MetadataV, i: nat) -> MetadataV
    decreases s.types.types.len() - i,
{
    if i >= s.types.types.len() {
        m
    } else {
        told_ids(s, told(m, i as usize, type_info(s.types, s.monos, i as usize)), i + 1)
    }
}

/// What is told of an alias: the type that it stands for.
pub open spec fn alias_info(s: State, name: Seq<char>, alias: TypeAlias) -> (State, TypeInfoV) {
    let (s1, base) = resolve_type(s, alias.base_type);
    (
        s1,
        TypeInfoV {
            name,
            kind: if alias.constraint is Some {
                "refinement"@
            } else {
                "alias"@
            },
            primitive_tag: None,
            has_secret: base != TypeInterner::ERROR && contains_secret(s1.types, base),
            args: if base == TypeInterner::ERROR {
                Seq::empty()
            } else {
                seq![type_info(s1.types, s1.monos, base)]
            },
        },
    )
}

/// Tells of the type of a name. A plain alias has no type of its own.
pub open spec fn told_name(s: State, m: MetadataV, name: Seq<char>, id: TypeId) -> (State, MetadataV) {
    if s.aliases.contains_key(name) {
        let alias = s.aliases[name];
        let (s1, info) = alias_info(s, name, alias);
        if alias.constraint is Some {
            (s1, told(m, id, info))
        } else {
            (s1, MetadataV { info_by_name: m.info_by_name.insert(name, info), ..m })
        }
    } else {
        (s, told(m, id, info_named(s.types, s.monos, id, name)))
    }
}

/// Tells of the names from `i` on.
pub open spec fn told_names(
    s: State,
    m: MetadataV,
    order: Seq<Seq<char>>,
    ids: Map<Seq<char>, TypeId>,
    i: nat,
) -> (State, MetadataV)
    decreases order.len() - i,
{
    if i >= order.len() {
        (s, m)
    } else {
        let (s1, m1) = told_name(s, m, order[i as int], ids[order[i as int]]);
        told_names(s1, m1, order, ids, i + 1)
    }
}

/// What is told of a checked module, with the names taken in the given order.
#[verifier::opaque]
pub open spec fn metadata_of(s: State, order: Seq<Seq<char>>) -> (State, MetadataV) {
    let none = MetadataV {
        info_by_id: Map::empty(),
        info_by_name: Map::empty(),
        id_by_name: Map::empty(),
        fields: s.reflection_fields,
        bitfields: s.reflection_bitfields,
        machines: s.reflection_machines,
        variants: s.reflection_variants,
    };
    told_names(s, told_ids(s, none, 0), order, s.named_types, 0)
}

/// Whether a declared name is told of, under the type that it names.
pub open spec fn is_told(m: MetadataV, name: Seq<char>, id: TypeId) -> bool {
    &&& m.id_by_name.contains_key(name)
    &&& m.id_by_name[name] == id
    &&& m.info_by_name.contains_key(name)
    &&& m.info_by_name[name].name == name
}

/// Whether the list holds each key once.
pub open spec fn lists_keys<K, V>(order: Seq<K>, m: Map<K, V>) -> bool {
    order.no_duplicates() && forall|k: K| #[trigger] m.contains_key(k) <==> order.contains(k)
}

impl ReflectionMetadata {
    fn insert_type_info(&mut self, info: TypeInfo)
        ensures
            final(self)@ == (MetadataV {
                info_by_name: old(self)@.info_by_name.insert(info@.name, info@),
                ..old(self)@
            }),
    {
        self.info_by_name.insert(info.name.clone(), info);
    }

    fn insert_type_info_for_id(&mut self, id: TypeId, info: TypeInfo)
        ensures
            final(self)@ == told(old(self)@, id, info@),
    {
        self.info_by_id.insert(id, info.dup());
        self.id_by_name.insert(info.name.clone(), id);
        self.info_by_name.insert(info.name.clone(), info);
    }

    pub fn type_id_for_name(&self, name: &str) -> (r: Option<TypeId>)
        ensures
            r == look(self@.id_by_name, name@),
    {
        match self.id_by_name.get(&text(name)) {
            Some(id) => Some(*id),
            None => None,
        }
    }

    pub fn get_type_info(&self, name: &str) -> (r: Option<&TypeInfo>)
        ensures
            r is Some <==> self@.info_by_name.contains_key(name@),
            r matches Some(x) ==> x@ == self@.info_by_name[name@],
    {
        self.info_by_name.get(&text(name))
    }

    pub fn get_type_info_for_id(&self, id: TypeId) -> (r: Option<&TypeInfo>)
        ensures
            r is Some <==> self@.info_by_id.contains_key(id),
            r matches Some(x) ==> x@ == self@.info_by_id[id],
    {
        self.info_by_id.get(&id)
    }

    pub fn get_type_fields_for_id(&self, id: TypeId) -> (r: Option<&Vec<FieldInfo>>)
        ensures
            r is Some <==> self@.fields.contains_key(id),
            r matches Some(x) ==> views(x@) == self@.fields[id].fields,
    {
        match self.fields.get(&id) {
            Some(l) => Some(&l.fields),
            None => None,
        }
    }

    pub fn get_bitfield_for_id(&self, id: TypeId) -> (r: Option<&BitfieldInfo>)
        ensures
            r is Some <==> self@.bitfields.contains_key(id),
            r matches Some(x) ==> x@ == self@.bitfields[id],
    {
        self.bitfields.get(&id)
    }

    pub fn get_machine_for_id(&self, id: TypeId) -> (r: Option<&MachineInfo>)
        ensures
            r is Some <==> self@.machines.contains_key(id),
            r matches Some(x) ==> x@ == self@.machines[id],
    {
        self.machines.get(&id)
    }

    pub fn get_type_variants_for_id(&self, id: TypeId) -> (r: Option<&Vec<VariantInfo>>)
        ensures
            r is Some <==> self@.variants.contains_key(id),
            r matches Some(x) ==> views(x@) == self@.variants[id].variants,
    {
        match self.variants.get(&id) {
            Some(l) => Some(&l.variants),
            None => None,
        }
    }

    /// The fields of the type of a name.
    pub fn get_type_fields(&self, name: &str) -> (r: Option<&Vec<FieldInfo>>)
        ensures
            r is Some <==> self@.id_by_name.contains_key(name@) && self@.fields.contains_key(
                self@.id_by_name[name@],
            ),
            r matches Some(x) ==> views(x@) == self@.fields[self@.id_by_name[name@]].fields,
    {
        match self.type_id_for_name(name) {
            Some(id) => self.get_type_fields_for_id(id),
            None => None,
        }
    }

    /// The layout of the bitfield of a name.
    pub fn get_bitfield(&self, name: &str) -> (r: Option<&BitfieldInfo>)
        ensures
            r is Some <==> self@.id_by_name.contains_key(name@) && self@.bitfields.contains_key(
                self@.id_by_name[name@],
            ),
            r matches Some(x) ==> x@ == self@.bitfields[self@.id_by_name[name@]],
    {
        match self.type_id_for_name(name) {
            Some(id) => self.get_bitfield_for_id(id),
            None => None,
        }
    }

    /// The states and transitions of the machine of a name.
    pub fn get_machine(&self, name: &str) -> (r: Option<&MachineInfo>)
        ensures
            r is Some <==> self@.id_by_name.contains_key(name@) && self@.machines.contains_key(
                self@.id_by_name[name@],
            ),
            r matches Some(x) ==> x@ == self@.machines[self@.id_by_name[name@]],
    {
        match self.type_id_for_name(name) {
            Some(id) => self.get_machine_for_id(id),
            None => None,
        }
    }

    /// The variants of the enum of a name.
    pub fn get_type_variants(&self, name: &str) -> (r: Option<&Vec<VariantInfo>>)
        ensures
            r is Some <==> self@.id_by_name.contains_key(name@) && self@.variants.contains_key(
                self@.id_by_name[name@],
            ),
            r matches Some(x) ==> views(x@) == self@.variants[self@.id_by_name[name@]].variants,
    {
        match self.type_id_for_name(name) {
            Some(id) => self.get_type_variants_for_id(id),
            None => None,
        }
    }
}

impl<'a> TypeChecker<'a> {
    fn reflection_type_info_for_alias(&mut self, name: &String, alias: &TypeAlias) -> (r: TypeInfo)
        ensures
            keeps(old(self)@, final(self)@),
            known(old(self)@) ==> known(final(self)@),
            (final(self)@, r@) == alias_info(old(self)@, name@, *alias),
    {
        let base: usize = self.resolve_type_expr(&alias.base_type);
        let mut args: Vec<TypeInfo> = Vec::new();
        assert(views(args@) =~= Seq::empty());
        let mut secret = false;
        if base != TypeInterner::ERROR {
            let info = self.interner().reflection_type_info_for_type(self.all_monos(), base);
            let ghost shown = info@;
            args.push(info);
            assert(views(args@) =~= seq![shown]);
            secret = self.interner().type_contains_secret_data(base);
        }
        let kind = if alias.constraint.is_some() {
            text("refinement")
        } else {
            text("alias")
        };
        new_info(name.clone(), kind, None, secret, args)
    }

    fn told_name(&mut self, m: &mut ReflectionMetadata, name: &String, id: TypeId)
        ensures
            keeps(old(self)@, final(self)@),
            known(old(self)@) ==> known(final(self)@),
            (final(self)@, final(m)@) == told_name(old(self)@, old(m)@, name@, id),
    {
        match self.get_aliases(name) {
            Some(alias) => {
                let info = self.reflection_type_info_for_alias(name, alias);
                if alias.constraint.is_some() {
                    m.insert_type_info_for_id(id, info);
                } else {
                    m.insert_type_info(info);
                }
            },
            None => {
                let info = self.interner().reflection_type_info_for_type_named(
                    self.all_monos(),
                    id,
                    name.clone(),
                );
                m.insert_type_info_for_id(id, info);
            },
        }
    }

    /// Collects what is told of the module's types. The names are taken in no
    /// particular order.
    pub fn build_reflection_metadata(&mut self) -> (r: ReflectionMetadata)
        ensures
            keeps(old(self)@, final(self)@),
            known(old(self)@) ==> known(final(self)@),
            exists|order: Seq<Seq<char>>| #[trigger]
                lists_keys(order, old(self)@.named_types) && (final(self)@, r@) == metadata_of(
                    old(self)@,
                    order,
                ),
            forall|name: Seq<char>| #[trigger]
                old(self)@.named_types.contains_key(name) && !old(self)@.aliases.contains_key(name)
                    ==> is_told(r@, name, old(self)@.named_types[name]),
    {
        proof {
            reveal(metadata_of);
        }
        let mut m = ReflectionMetadata {
            info_by_id: Table::new(),
            info_by_name: Table::new(),
            id_by_name: Table::new(),
            fields: self.all_reflection_fields().dup(),
            bitfields: self.all_reflection_bitfields().dup(),
            machines: self.all_reflection_machines().dup(),
            variants: self.all_reflection_variants().dup(),
        };
        let ghost none = m@;
        let n: usize = self.interner().len();
        let mut i: usize = 0;
        while i < n
            invariant
                keeps(old(self)@, self@),
                known(old(self)@) ==> known(self@),
                i <= n,
                n == self@.types.types.len(),
                self@ == old(self)@,
                told_ids(self@, m@, i as nat) == told_ids(self@, none, 0),
            decreases n - i,
        {
            let info = self.interner().reflection_type_info_for_type(self.all_monos(), i);
            m.insert_type_info_for_id(i, info);
            i = i + 1;
        }
        let ghost all = m@;
        let names = self.all_named_types().dup();
        let keys = names.keys();
        let ghost order = views(keys@);
        assert(lists_keys(order, names@));
        let mut k: usize = 0;
        while k < keys.len()
            invariant
                k <= keys@.len(),
                order == views(keys@),
                lists_keys(order, names@),
                names@ == old(self)@.named_types,
                keeps(old(self)@, self@),
                known(old(self)@) ==> known(self@),
                forall|j: int|
                    0 <= j < k && !old(self)@.aliases.contains_key(order[j]) ==> is_told(
                        m@,
                        #[trigger] order[j],
                        names@[order[j]],
                    ),
                told_names(self@, m@, order, names@, k as nat) == told_names(
                    old(self)@,
                    all,
                    order,
                    names@,
                    0,
                ),
            decreases keys@.len() - k,
        {
            assert(order[k as int] == keys@[k as int]@);
            assert(order.contains(order[k as int]));
            let ghost before = self@;
            let ghost m_before = m@;
            if let Some(id) = names.get(&keys[k]) {
                self.told_name(&mut m, &keys[k], *id);
            }
            proof {
                keeps_aliases(old(self)@, before);
                assert forall|j: int|
                    0 <= j < k + 1 && !old(self)@.aliases.contains_key(order[j]) implies is_told(
                    m@,
                    #[trigger] order[j],
                    names@[order[j]],
                ) by {
                    if j < k {
                        assert(is_told(m_before, order[j], names@[order[j]]));
                        assert(order[j] != order[k as int]);
                    }
                }
            }
            k = k + 1;
        }
        proof {
            assert forall|name: Seq<char>| #[trigger]
                old(self)@.named_types.contains_key(name) && !old(self)@.aliases.contains_key(
                    name,
                ) implies is_told(m@, name, old(self)@.named_types[name]) by {
                assert(order.contains(name));
                let j = choose|j: int| 0 <= j < order.len() && order[j] == name;
                assert(is_told(m@, order[j], names@[order[j]]));
            }
        }
        m
    }
}

} // verus!
