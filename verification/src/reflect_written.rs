//! What a running program can ask about a type, given how it is written.
use vstd::prelude::*;
use vstd::string::StringExecFns;

use crate::ast::{FieldDef, TypeExpr};
use crate::names::{before_last_dot, has_dot, split_last_dot};
use crate::reflect_types::{
    args_info, kind_of, kind_word, primitive_by_name, primitive_named, serialize_name,
    serialized_name,
};
use crate::reflection::{new_info, FieldInfo, FieldInfoV, TypeInfo, TypeInfoV};
use crate::resolution::first_dot;
use crate::span::Span;
use crate::state::{State, TypeChecker};
use crate::static_eval::{named_primitive, written_primitive};
use crate::steady::{keeps, keeps_around, keeps_scopes, known};
use crate::table::views;
use crate::text::{dup_text, join2, join3, maybe_text, same_text, text};
use crate::type_rules::contains_secret;
use crate::types::{ty, NamedType, NamedTypeV, TypeId, TypeInterner};
use crate::written_types::{can_open, nesting, resolve_type};

verus! {

broadcast use crate::steady::group_steady;

pub open spec fn registered(s: State, name: Seq<char>) -> bool {
    s.named_types.contains_key(name) || s.aliases.contains_key(name)
        || s.generic_struct_templates.contains_key(name)
}

/// A type name as it is shown: with the namespace it is declared in.
pub open spec fn shown_name(s: State, name: Seq<char>, namespace: Option<Seq<char>>) -> Seq<char> {
    if first_dot(name, 0) is Some || primitive_named(name) is Some {
        name
    } else {
        match namespace {
            Some(ns) => if registered(s, ns + "."@ + name) {
                ns + "."@ + name
            } else {
                name
            },
            None => name,
        }
    }
}

/// A written type as it is shown.
pub open spec fn shown_type(s: State, t: TypeExpr, namespace: Option<Seq<char>>) -> Seq<char>
    decreases t, 0nat,
{
    match t {
        TypeExpr::Named(ident) => shown_name(s, ident.name@, namespace),
        TypeExpr::Generic(ident, args, _) => shown_name(s, ident.name@, namespace) + "["@
            + shown_types(s, args, 0, namespace) + "]"@,
        TypeExpr::View(inner, _) => "view "@ + shown_type(s, *inner, namespace),
        TypeExpr::StateQualified(inner, state, _) => shown_type(s, *inner, namespace) + " at "@
            + state.name@,
        TypeExpr::Function(params, ret, _) => "function("@ + shown_types(s, params, 0, namespace)
            + ") returns "@ + shown_type(s, *ret, namespace),
    }
}

/// Written types from `i` on, with commas between.
pub open spec fn shown_types(s: State, ts: Vec<TypeExpr>, i: nat, namespace: Option<Seq<char>>) -> Seq<char>
    decreases ts, ts@.len() - i,
{
    if i >= ts@.len() {
        Seq::empty()
    } else if i + 1 == ts@.len() {
        shown_type(s, ts@[i as int], namespace)
    } else {
        shown_type(s, ts@[i as int], namespace) + ", "@ + shown_types(s, ts, i + 1, namespace)
    }
}

/// The kind of a name that stands for `id`, in one word.
pub open spec fn named_word(s: State, name: Seq<char>, namespace: Option<Seq<char>>, id: TypeId) -> Seq<char> {
    let shown = shown_name(s, name, namespace);
    if s.aliases.contains_key(shown) {
        if s.aliases[shown].constraint is Some {
            "refinement"@
        } else {
            "alias"@
        }
    } else if primitive_named(shown) is Some {
        "primitive"@
    } else {
        kind_word(ty(s.types, id))
    }
}

/// The kind of a written type that stands for `id`, in one word.
pub open spec fn written_word(s: State, t: TypeExpr, namespace: Option<Seq<char>>, id: TypeId) -> Seq<char>
    decreases t,
{
    match t {
        TypeExpr::View(inner, _) => written_word(s, *inner, namespace, id),
        TypeExpr::StateQualified(_, _, _) => kind_word(ty(s.types, id)),
        TypeExpr::Named(ident) => named_word(s, ident.name@, namespace, id),
        TypeExpr::Generic(ident, _, _) => {
            let shown = shown_name(s, ident.name@, namespace);
            if shown == "list"@ || shown == "map"@ || shown == "set"@ || shown == "optional"@ || shown
                == "result"@ || shown == "secret"@ {
                shown
            } else if s.generic_struct_templates.contains_key(shown) {
                "struct"@
            } else {
                kind_word(ty(s.types, id))
            }
        },
        TypeExpr::Function(_, _, _) => "function"@,
    }
}

pub open spec fn holds_secret(s: State, id: TypeId) -> bool {
    id != TypeInterner::ERROR && contains_secret(s.types, id)
}

/// What is told of a written type that stands for `id`. `depth` is how many more
/// names can be opened.
pub open spec fn written_info(
    s: State,
    t: TypeExpr,
    namespace: Option<Seq<char>>,
    id: TypeId,
    depth: nat,
) -> (State, TypeInfoV)
    decreases 2 * depth + 1, t, 1nat,
{
    match t {
        TypeExpr::View(inner, _) => written_info(s, *inner, namespace, id, depth),
        _ => {
            let (s1, args) = written_args_info(s, t, namespace, id, depth);
            (
                s1,
                TypeInfoV {
                    name: shown_type(s, t, namespace),
                    kind: written_word(s1, t, namespace, id),
                    primitive_tag: written_primitive(s1, t, id),
                    has_secret: holds_secret(s1, id),
                    args,
                },
            )
        },
    }
}

pub open spec fn written_args_info(
    s: State,
    t: TypeExpr,
    namespace: Option<Seq<char>>,
    id: TypeId,
    depth: nat,
) -> (State, Seq<TypeInfoV>)
    decreases 2 * depth + 1, t, 0nat,
{
    match t {
        TypeExpr::View(inner, _) => written_args_info(s, *inner, namespace, id, depth),
        TypeExpr::StateQualified(_, _, _) => (s, Seq::empty()),
        TypeExpr::Named(ident) => named_args_info(s, ident.name@, ident.span, namespace, id, depth),
        TypeExpr::Generic(_, args, _) => infos_from(s, args, 0, namespace, Seq::empty(), depth),
        TypeExpr::Function(params, ret, _) => {
            let (s1, infos) = infos_from(s, params, 0, namespace, Seq::empty(), depth);
            let (s2, r) = resolve_type(s1, *ret);
            let (s3, info) = written_info(s2, *ret, namespace, r, depth);
            (s3, infos.push(info))
        },
    }
}

pub open spec fn infos_from(
    s: State,
    ts: Vec<TypeExpr>,
    i: nat,
    namespace: Option<Seq<char>>,
    found: Seq<TypeInfoV>,
    depth: nat,
) -> (State, Seq<TypeInfoV>)
    decreases 2 * depth + 1, ts, ts@.len() - i,
{
    if i >= ts@.len() {
        (s, found)
    } else {
        let (s1, id) = resolve_type(s, ts@[i as int]);
        let (s2, info) = written_info(s1, ts@[i as int], namespace, id, depth);
        infos_from(s2, ts, i + 1, namespace, found.push(info), depth)
    }
}

/// An alias tells of its base; any other name of the arguments of its type.
pub open spec fn named_args_info(
    s: State,
    name: Seq<char>,
    span: Span,
    namespace: Option<Seq<char>>,
    id: TypeId,
    depth: nat,
) -> (State, Seq<TypeInfoV>)
    decreases 2 * depth, span, 0nat,
{
    let shown = shown_name(s, name, namespace);
    if s.aliases.contains_key(shown) {
        let base_type = s.aliases[shown].base_type;
        let inside = match before_last_dot(shown) {
            Some(ns) => Some(ns),
            None => namespace,
        };
        let (s1, base) = resolve_type(s, base_type);
        if base == TypeInterner::ERROR {
            (s1, Seq::empty())
        } else if depth == 0 {
            arbitrary()
        } else {
            let (s2, info) = written_info(
                State { nested: s1.nested.push(shown), ..s1 },
                base_type,
                inside,
                base,
                (depth - 1) as nat,
            );
            (State { nested: s1.nested, ..s2 }, seq![info])
        }
    } else {
        (s, args_info(s.types, s.monos, id))
    }
}

/// What is told of a type that is written as a bare name.
pub open spec fn named_info(
    s: State,
    name: Seq<char>,
    span: Span,
    namespace: Option<Seq<char>>,
    id: TypeId,
) -> (State, TypeInfoV) {
    let (s1, args) = named_args_info(s, name, span, namespace, id, nesting());
    (
        s1,
        TypeInfoV {
            name: shown_name(s, name, namespace),
            kind: named_word(s1, name, namespace, id),
            primitive_tag: named_primitive(s1, name, span, id),
            has_secret: holds_secret(s1, id),
            args,
        },
    )
}

pub open spec fn type_expr_info(s: State, t: TypeExpr, namespace: Option<Seq<char>>, id: TypeId) -> (
    State,
    TypeInfoV,
) {
    written_info(s, t, namespace, id, nesting())
}

/// What is told of declared fields from `i` on, given their types.
pub open spec fn declared_fields(
    s: State,
    defs: Seq<FieldDef>,
    fields: Seq<NamedTypeV>,
    namespace: Option<Seq<char>>,
    i: nat,
    found: Seq<FieldInfoV>,
) -> (State, Seq<FieldInfoV>)
    decreases defs.len() - i,
{
    if i >= defs.len() || i >= fields.len() {
        (s, found)
    } else {
        let def = defs[i as int];
        let (s1, type_info) = type_expr_info(s, def.ty, namespace, fields[i as int].ty);
        let field = FieldInfoV {
            index: i as usize,
            name: def.name.name@,
            serialize_name: serialized_name(def),
            type_info,
        };
        declared_fields(s1, defs, fields, namespace, i + 1, found.push(field))
    }
}

/// Whether a field among them holds something secret.
pub open spec fn any_secret(fields: Seq<FieldInfoV>) -> bool {
    exists|i: int| 0 <= i < fields.len() && (#[trigger] fields[i]).type_info.has_secret
}

pub fn has_secret_field(fields: &Vec<FieldInfo>) -> (r: bool)
    ensures
        r == any_secret(views(fields@)),
{
    let ghost vs = views(fields@);
    let mut i: usize = 0;
    while i < fields.len()
        invariant
            i <= fields@.len(),
            vs == views(fields@),
            forall|j: int| 0 <= j < i ==> !(#[trigger] vs[j]).type_info.has_secret,
        decreases fields@.len() - i,
    {
        assert(vs[i as int] == fields@[i as int]@);
        if fields[i].type_info.has_secret {
            assert(vs[i as int].type_info.has_secret);
            return true;
        }
        i = i + 1;
    }
    false
}

impl<'a> TypeChecker<'a> {
    fn reflection_type_name_is_registered(&self, name: &String) -> (r: bool)
        ensures
            r == registered(self@, name@),
    {
        self.get_named_types(name).is_some() || self.get_aliases(name).is_some()
            || self.get_generic_struct_templates(name).is_some()
    }

    fn reflection_type_name_in_namespace(&self, name: &String, namespace: &Option<String>) -> (r: String)
        ensures
            r@ == shown_name(self@, name@, maybe_text(*namespace)),
    {
        if has_dot(name.as_str()) || primitive_by_name(name.as_str()).is_some() {
            return name.clone();
        }
        if let Some(ns) = namespace {
            let qualified = join3(ns.as_str(), ".", name.as_str());
            if self.reflection_type_name_is_registered(&qualified) {
                return qualified;
            }
        }
        name.clone()
    }

    fn reflection_type_expr_display(&self, t: &TypeExpr, namespace: &Option<String>) -> (r: String)
        ensures
            r@ == shown_type(self@, *t, maybe_text(*namespace)),
        decreases t, 0nat,
    {
        match t {
            TypeExpr::Named(ident) => self.reflection_type_name_in_namespace(
                &ident.name,
                namespace,
            ),
            TypeExpr::Generic(ident, args, _) => {
                let name = self.reflection_type_name_in_namespace(&ident.name, namespace);
                let shown = self.shown_types(args, namespace);
                let mut r = join3(name.as_str(), "[", shown.as_str());
                r.append("]");
                r
            },
            TypeExpr::View(inner, _) => join2(
                "view ",
                self.reflection_type_expr_display(inner, namespace).as_str(),
            ),
            TypeExpr::StateQualified(inner, state, _) => join3(
                self.reflection_type_expr_display(inner, namespace).as_str(),
                " at ",
                state.name.as_str(),
            ),
            TypeExpr::Function(params, ret, _) => {
                let shown = self.shown_types(params, namespace);
                let mut r = join3("function(", shown.as_str(), ") returns ");
                r.append(self.reflection_type_expr_display(ret, namespace).as_str());
                r
            },
        }
    }

    fn shown_types(&self, ts: &Vec<TypeExpr>, namespace: &Option<String>) -> (r: String)
        ensures
            r@ == shown_types(self@, *ts, 0, maybe_text(*namespace)),
        decreases ts, ts@.len() + 1,
    {
        let ghost ns = maybe_text(*namespace);
        let mut r = String::new();
        assert(r@ + shown_types(self@, *ts, 0, ns) =~= shown_types(self@, *ts, 0, ns));
        let mut i: usize = 0;
        while i < ts.len()
            invariant
                i <= ts@.len(),
                ns == maybe_text(*namespace),
                r@ + shown_types(self@, *ts, i as nat, ns) == shown_types(self@, *ts, 0, ns),
            decreases ts@.len() - i,
        {
            let ghost before = r@;
            r.append(self.reflection_type_expr_display(&ts[i], namespace).as_str());
            if i + 1 < ts.len() {
                r.append(", ");
            }
            proof {
                let rest = shown_types(self@, *ts, (i + 1) as nat, ns);
                assert(r@ + rest =~= before + shown_types(self@, *ts, i as nat, ns));
            }
            i = i + 1;
        }
        assert(r@ + Seq::<char>::empty() =~= r@);
        r
    }

    fn named_word(&self, name: &String, namespace: &Option<String>, id: TypeId) -> (r: String)
        ensures
            r@ == named_word(self@, name@, maybe_text(*namespace), id),
    {
        let shown = self.reflection_type_name_in_namespace(name, namespace);
        match self.get_aliases(&shown) {
            Some(alias) => {
                if alias.constraint.is_some() {
                    text("refinement")
                } else {
                    text("alias")
                }
            },
            None => {
                if primitive_by_name(shown.as_str()).is_some() {
                    text("primitive")
                } else {
                    text(kind_of(self.interner().resolve(id)))
                }
            },
        }
    }

    fn reflection_kind_for_type_expr(&self, t: &TypeExpr, namespace: &Option<String>, id: TypeId) -> (r:
        String)
        ensures
            r@ == written_word(self@, *t, maybe_text(*namespace), id),
        decreases t,
    {
        match t {
            TypeExpr::View(inner, _) => self.reflection_kind_for_type_expr(inner, namespace, id),
            TypeExpr::StateQualified(_, _, _) => text(kind_of(self.interner().resolve(id))),
            TypeExpr::Named(ident) => self.named_word(&ident.name, namespace, id),
            TypeExpr::Generic(ident, _, _) => {
                let shown = self.reflection_type_name_in_namespace(&ident.name, namespace);
                let n = shown.as_str();
                if same_text(n, "list") || same_text(n, "map") || same_text(n, "set") || same_text(
                    n,
                    "optional",
                ) || same_text(n, "result") || same_text(n, "secret") {
                    return shown;
                }
                if self.get_generic_struct_templates(&shown).is_some() {
                    text("struct")
                } else {
                    text(kind_of(self.interner().resolve(id)))
                }
            },
            TypeExpr::Function(_, _, _) => text("function"),
        }
    }

    fn holds_secret(&self, id: TypeId) -> (r: bool)
        ensures
            r == holds_secret(self@, id),
    {
        id != TypeInterner::ERROR && self.interner().type_contains_secret_data(id)
    }

    fn written_info(&mut self, t: &TypeExpr, namespace: &Option<String>, id: TypeId, Ghost(depth): Ghost<nat>) -> (r:
        TypeInfo)
        requires
            can_open(old(self)@, depth),
        ensures
            keeps(old(self)@, final(self)@),
            known(old(self)@) ==> known(final(self)@),
            (final(self)@, r@) == written_info(
                old(self)@,
                *t,
                maybe_text(*namespace),
                id,
                depth,
            ),
        decreases 2 * depth + 1, t, 1nat,
    {
        if let TypeExpr::View(inner, _) = t {
            return self.written_info(inner, namespace, id, Ghost(depth));
        }
        let name = self.reflection_type_expr_display(t, namespace);
        let args = self.written_args_info(t, namespace, id, Ghost(depth));
        let kind = self.reflection_kind_for_type_expr(t, namespace, id);
        let tag = self.reflection_primitive_tag_for_type_expr_static(t, id);
        let secret = self.holds_secret(id);
        new_info(name, kind, tag, secret, args)
    }

    fn written_args_info(&mut self, t: &TypeExpr, namespace: &Option<String>, id: TypeId, Ghost(depth): Ghost<nat>) -> (r:
        Vec<TypeInfo>)
        requires
            can_open(old(self)@, depth),
        ensures
            keeps(old(self)@, final(self)@),
            known(old(self)@) ==> known(final(self)@),
            (final(self)@, views(r@)) == written_args_info(
                old(self)@,
                *t,
                maybe_text(*namespace),
                id,
                depth,
            ),
        decreases 2 * depth + 1, t, 0nat,
    {
        match t {
            TypeExpr::View(inner, _) => self.written_args_info(inner, namespace, id, Ghost(depth)),
            TypeExpr::StateQualified(_, _, _) => {
                let r: Vec<TypeInfo> = Vec::new();
                assert(views(r@) =~= Seq::empty());
                r
            },
            TypeExpr::Named(ident) => self.named_args_info(
                &ident.name,
                ident.span,
                namespace,
                id,
                Ghost(depth),
            ),
            TypeExpr::Generic(_, args, _) => self.infos_from(args, namespace, Ghost(depth)),
            TypeExpr::Function(params, ret, _) => {
                let mut r = self.infos_from(params, namespace, Ghost(depth));
                let ghost before = views(r@);
                let ret_id: usize = self.resolve_type_expr(ret);
                let info = self.written_info(ret, namespace, ret_id, Ghost(depth));
                let ghost shown = info@;
                r.push(info);
                assert(views(r@) =~= before.push(shown));
                r
            },
        }
    }

    fn infos_from(&mut self, ts: &Vec<TypeExpr>, namespace: &Option<String>, Ghost(depth): Ghost<nat>) -> (r: Vec<TypeInfo>)
        requires
            can_open(old(self)@, depth),
        ensures
            keeps(old(self)@, final(self)@),
            known(old(self)@) ==> known(final(self)@),
            (final(self)@, views(r@)) == infos_from(
                old(self)@,
                *ts,
                0,
                maybe_text(*namespace),
                Seq::empty(),
                depth,
            ),
        decreases 2 * depth + 1, ts, ts@.len() + 1,
    {
        let ghost ns = maybe_text(*namespace);
        let mut r: Vec<TypeInfo> = Vec::new();
        assert(views(r@) =~= Seq::empty());
        let mut i: usize = 0;
        while i < ts.len()
            invariant
                can_open(self@, depth),
                keeps(old(self)@, self@),
                known(old(self)@) ==> known(self@),
                i <= ts@.len(),
                ns == maybe_text(*namespace),
                infos_from(self@, *ts, i as nat, ns, views(r@), depth) == infos_from(
                    old(self)@,
                    *ts,
                    0,
                    ns,
                    Seq::empty(),
                    depth,
                ),
            decreases ts@.len() - i,
        {
            let id: usize = self.resolve_type_expr(&ts[i]);
            let info = self.written_info(&ts[i], namespace, id, Ghost(depth));
            let ghost before = views(r@);
            let ghost shown = info@;
            r.push(info);
            assert(views(r@) =~= before.push(shown));
            i = i + 1;
        }
        r
    }

    fn named_args_info(
        &mut self,
        name: &String,
        span: Span,
        namespace: &Option<String>,
        id: TypeId,
        Ghost(depth): Ghost<nat>,
    ) -> (r: Vec<TypeInfo>)
        requires
            can_open(old(self)@, depth),
        ensures
            keeps(old(self)@, final(self)@),
            known(old(self)@) ==> known(final(self)@),
            (final(self)@, views(r@)) == named_args_info(
                old(self)@,
                name@,
                span,
                maybe_text(*namespace),
                id,
                depth,
            ),
        decreases 2 * depth, span, 0nat,
    {
        let shown = self.reflection_type_name_in_namespace(name, namespace);
        match self.get_aliases(&shown) {
            Some(alias) => {
                let inside = match split_last_dot(shown.as_str()) {
                    Some((front, _)) => Some(front),
                    None => dup_text(namespace),
                };
                let base: usize = self.resolve_type_expr(&alias.base_type);
                let mut r: Vec<TypeInfo> = Vec::new();
                assert(views(r@) =~= Seq::empty());
                if base == TypeInterner::ERROR {
                    return r;
                }
                let ghost outside = self@;
                self.push_nested(shown);
                let ghost opened = self@;
                let info = self.written_info(&alias.base_type, &inside, base, Ghost((depth - 1) as nat));
                let ghost told = info@;
                let ghost inner = self@;
                self.pop_nested();
                proof {
                    keeps_scopes(opened, inner);
                    assert(self@.nested =~= outside.nested);
                    keeps_around(outside, opened, inner, self@);
                }
                r.push(info);
                assert(views(r@) =~= seq![told]);
                r
            },
            None => self.interner().reflection_args(self.all_monos(), id),
        }
    }

    /// What is told of a type that is written as a bare name.
    pub(crate) fn named_info(
        &mut self,
        name: &String,
        span: Span,
        namespace: &Option<String>,
        id: TypeId,
    ) -> (r: TypeInfo)
        ensures
            keeps(old(self)@, final(self)@),
            known(old(self)@) ==> known(final(self)@),
            (final(self)@, r@) == named_info(
                old(self)@,
                name@,
                span,
                maybe_text(*namespace),
                id,
            ),
    {
        let shown = self.reflection_type_name_in_namespace(name, namespace);
        let args = self.named_args_info(name, span, namespace, id, Ghost(nesting()));
        let kind = self.named_word(name, namespace, id);
        let tag = self.named_primitive(name, span, id);
        let secret = self.holds_secret(id);
        new_info(shown, kind, tag, secret, args)
    }

    pub(crate) fn reflection_type_info_for_type_expr(
        &mut self,
        t: &TypeExpr,
        namespace: &Option<String>,
        id: TypeId,
    ) -> (r: TypeInfo)
        ensures
            keeps(old(self)@, final(self)@),
            known(old(self)@) ==> known(final(self)@),
            (final(self)@, r@) == type_expr_info(old(self)@, *t, maybe_text(*namespace), id),
    {
        self.written_info(t, namespace, id, Ghost(nesting()))
    }

    /// What is told of declared fields, given their types.
    pub(crate) fn declared_fields(
        &mut self,
        defs: &Vec<FieldDef>,
        fields: &Vec<NamedType>,
        namespace: &Option<String>,
    ) -> (r: Vec<FieldInfo>)
        ensures
            keeps(old(self)@, final(self)@),
            known(old(self)@) ==> known(final(self)@),
            (final(self)@, views(r@)) == declared_fields(
                old(self)@,
                defs@,
                views(fields@),
                maybe_text(*namespace),
                0,
                Seq::empty(),
            ),
    {
        let ghost ns = maybe_text(*namespace);
        let ghost fs = views(fields@);
        let mut r: Vec<FieldInfo> = Vec::new();
        assert(views(r@) =~= Seq::empty());
        let mut i: usize = 0;
        while i < defs.len() && i < fields.len()
            invariant
                keeps(old(self)@, self@),
                known(old(self)@) ==> known(self@),
                i <= defs@.len(),
                i <= fields@.len(),
                ns == maybe_text(*namespace),
                fs == views(fields@),
                declared_fields(self@, defs@, fs, ns, i as nat, views(r@)) == declared_fields(
                    old(self)@,
                    defs@,
                    fs,
                    ns,
                    0,
                    Seq::empty(),
                ),
            decreases defs@.len() - i,
        {
            assert(fs[i as int] == fields@[i as int]@);
            let type_info = self.reflection_type_info_for_type_expr(
                &defs[i].ty,
                namespace,
                fields[i].ty,
            );
            let field = FieldInfo {
                index: i,
                name: defs[i].name.name.clone(),
                serialize_name: serialize_name(&defs[i]),
                type_info,
            };
            let ghost before = views(r@);
            let ghost shown = field@;
            r.push(field);
            assert(views(r@) =~= before.push(shown));
            i = i + 1;
        }
        r
    }
}

} // verus!
