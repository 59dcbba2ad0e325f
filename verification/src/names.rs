//! Finding the full names that a module means.
use vstd::prelude::*;
use vstd::string::{StrSliceExecFns, StringExecFns};

use crate::ast::{expr_span, item_file, Expr, Ident, Item, Param, TypeExpr};
use crate::ownership::{dotted_name, dotted_name_str};
use crate::resolution::{
    declared_at, definition_at, first_dot, full_name, is_capability, kind_at, last_dot,
    symbol_name, DefId, DefKind, Names, ResolveResult,
};
use crate::span::{FileId, Span};
use crate::text::{contains_text, join3, maybe_text, text};

verus! {

/// A name inside a namespace, where there is one.
pub open spec fn canonical(namespace: Option<Seq<char>>, name: Seq<char>) -> Seq<char> {
    match namespace {
        Some(ns) => ns + "."@ + name,
        None => name,
    }
}

pub fn canonical_name(namespace: &Option<String>, name: &String) -> (r: String)
    ensures
        r@ == canonical(maybe_text(*namespace), name@),
{
    match namespace {
        Some(ns) => join3(ns.as_str(), ".", name.as_str()),
        None => name.clone(),
    }
}

/// The file and namespace at hand while the items of a module are gone through.
pub struct Place {
    pub file: Option<FileId>,
    pub namespace: Option<String>,
}

pub struct PlaceV {
    pub file: Option<FileId>,
    pub namespace: Option<Seq<char>>,
}

impl View for Place {
    type V = PlaceV;

    open spec fn view(&self) -> PlaceV {
        PlaceV { file: self.file, namespace: maybe_text(self.namespace) }
    }
}

pub open spec fn start_place() -> PlaceV {
    PlaceV { file: None, namespace: None }
}

/// A namespace lasts up to the next one, or to the end of the file.
pub open spec fn next_place(p: PlaceV, item: Item) -> PlaceV {
    PlaceV {
        file: Some(item_file(item)),
        namespace: match item {
            Item::Namespace(ns) => Some(ns.name.name@),
            _ => if p.file is Some && p.file->0 != item_file(item) {
                None
            } else {
                p.namespace
            },
        },
    }
}

impl Place {
    pub fn new() -> (r: Self)
        ensures
            r@ == start_place(),
    {
        Place { file: None, namespace: None }
    }

    /// Goes on to the next item.
    pub fn update_current_namespace(&mut self, item: &Item)
        ensures
            final(self)@ == next_place(old(self)@, *item),
    {
        let file = item.item_file();
        match self.file {
            Some(current) => {
                if current != file {
                    self.namespace = None;
                }
            },
            None => {},
        }
        self.file = Some(file);
        match item {
            Item::Namespace(ns) => {
                self.namespace = Some(ns.name.name.clone());
            },
            _ => {},
        }
    }
}

/// The part of a name up to its last dot.
pub open spec fn before_last_dot(name: Seq<char>) -> Option<Seq<char>> {
    match last_dot(name, name.len()) {
        Some(dot) => Some(name.subrange(0, dot as int)),
        None => None,
    }
}

/// The part of a name behind its last dot.
pub open spec fn after_last_dot(name: Seq<char>) -> Option<Seq<char>> {
    match last_dot(name, name.len()) {
        Some(dot) => Some(name.subrange(dot as int + 1, name.len() as int)),
        None => None,
    }
}

fn find_first_dot(name: &str) -> (r: Option<usize>)
    ensures
        r is Some <==> first_dot(name@, 0) is Some,
        r matches Some(i) ==> first_dot(name@, 0) == Some(i as nat) && i < name@.len(),
{
    let n: usize = name.unicode_len();
    let mut i: usize = 0;
    while i < n
        invariant
            i <= n,
            n == name@.len(),
            first_dot(name@, 0) == first_dot(name@, i as nat),
        decreases n - i,
    {
        if name.get_char(i) == '.' {
            return Some(i);
        }
        i = i + 1;
    }
    None
}

/// Whether the name has a dot in it.
pub fn has_dot(name: &str) -> (r: bool)
    ensures
        r == first_dot(name@, 0) is Some,
{
    find_first_dot(name).is_some()
}

fn find_last_dot(name: &str) -> (r: Option<usize>)
    ensures
        r is Some <==> last_dot(name@, name@.len()) is Some,
        r matches Some(i) ==> last_dot(name@, name@.len()) == Some(i as nat) && i < name@.len(),
{
    let mut n: usize = name.unicode_len();
    while n > 0
        invariant
            n <= name@.len(),
            last_dot(name@, name@.len()) == last_dot(name@, n as nat),
        decreases n,
    {
        if name.get_char(n - 1) == '.' {
            return Some(n - 1);
        }
        n = n - 1;
    }
    None
}

/// The parts of a name around its last dot.
pub fn split_last_dot(name: &str) -> (r: Option<(String, String)>)
    ensures
        r is Some <==> before_last_dot(name@) is Some,
        r matches Some((a, b)) ==> before_last_dot(name@) == Some(a@) && after_last_dot(name@) == Some(
            b@,
        ),
{
    match find_last_dot(name) {
        Some(dot) => {
            let n: usize = name.unicode_len();
            Some((text(name.substring_char(0, dot)), text(name.substring_char(dot + 1, n))))
        },
        None => None,
    }
}

impl ResolveResult {
    /// The definition that the name at a place refers to, or else the one that
    /// is declared there.
    pub fn declaration_def_id(&self, span: Span) -> (r: Option<DefId>)
        ensures
            r == definition_at(self@, span),
    {
        match self.resolutions.get(&span) {
            Some(id) => Some(*id),
            None => {
                let mut n: usize = self.scope_table.definitions.len();
                while n > 0
                    invariant
                        n <= self@.definitions.len(),
                        !self@.resolutions.contains_key(span),
                        declared_at(self@.definitions, span, self@.definitions.len()) == declared_at(
                            self@.definitions,
                            span,
                            n as nat,
                        ),
                    decreases n,
                {
                    if self.scope_table.definitions[n - 1].span == span {
                        return Some(DefId(n - 1));
                    }
                    n = n - 1;
                }
                None
            },
        }
    }

    pub fn ident_def_kind(&self, ident: &Ident) -> (r: Option<DefKind>)
        ensures
            r == kind_at(self@, ident.span),
    {
        match self.declaration_def_id(ident.span) {
            Some(id) => if id.0 < self.scope_table.definitions.len() {
                Some(self.scope_table.definitions[id.0].kind)
            } else {
                None
            },
            None => None,
        }
    }

    pub fn resolved_symbol_name(&self, name: &String, span: Span) -> (r: String)
        ensures
            r@ == symbol_name(self@, name@, span),
    {
        match self.declaration_def_id(span) {
            Some(id) => if id.0 < self.scope_table.definitions.len() {
                self.scope_table.definitions[id.0].name.clone()
            } else {
                name.clone()
            },
            None => name.clone(),
        }
    }

    pub fn resolved_or_expanded_name(&self, name: &String, span: Span) -> (r: String)
        ensures
            r@ == full_name(self@, name@, span),
    {
        match find_first_dot(name.as_str()) {
            None => self.resolved_symbol_name(name, span),
            Some(dot) => match self.declaration_def_id(span) {
                None => name.clone(),
                Some(id) => {
                    if id.0 >= self.scope_table.definitions.len() {
                        return name.clone();
                    }
                    let def = &self.scope_table.definitions[id.0];
                    if def.kind != DefKind::Namespace {
                        return def.name.clone();
                    }
                    let n: usize = name.as_str().unicode_len();
                    let prefix = text(name.as_str().substring_char(0, dot));
                    if def.name == prefix {
                        match self.namespace_aliases.get(&id) {
                            Some(target) => join3(
                                target.as_str(),
                                ".",
                                name.as_str().substring_char(dot + 1, n),
                            ),
                            None => name.clone(),
                        }
                    } else {
                        name.clone()
                    }
                },
            },
        }
    }

    pub fn type_expr_is_capability(&self, t: &TypeExpr) -> (r: bool)
        ensures
            r == is_capability(self@, *t),
        decreases t,
    {
        match t {
            TypeExpr::Named(ident) => contains_text(&self.capabilities, &ident.name),
            TypeExpr::View(inner, _) => self.type_expr_is_capability(inner),
            _ => false,
        }
    }

    /// The full name that a chain of field accesses spells.
    pub fn expanded_dotted_expr_name(&self, expr: &Expr) -> (r: Option<String>)
        ensures
            r is Some <==> expanded_name(self@, *expr) is Some,
            r matches Some(n) ==> expanded_name(self@, *expr) == Some(n@),
    {
        match dotted_name_str(expr) {
            Some(name) => Some(self.resolved_or_expanded_name(&name, expr.span())),
            None => None,
        }
    }

    /// The full name of an identifier or a chain of field accesses.
    pub fn resolved_expr_name(&self, expr: &Expr) -> (r: Option<String>)
        ensures
            r is Some <==> expr_name(self@, *expr) is Some,
            r matches Some(n) ==> expr_name(self@, *expr) == Some(n@),
    {
        match expr {
            Expr::Ident(ident) => Some(self.resolved_symbol_name(&ident.name, ident.span)),
            Expr::FieldAccess(_, _, _) => self.expanded_dotted_expr_name(expr),
            _ => None,
        }
    }

    /// Whether no parameter is a capability.
    pub fn params_are_pure(&self, params: &Vec<Param>) -> (r: bool)
        ensures
            r == pure_params(self@, params@),
    {
        let mut i: usize = 0;
        while i < params.len()
            invariant
                i <= params@.len(),
                forall|j: int| 0 <= j < i ==> !is_capability(self@, (#[trigger] params@[j]).ty),
            decreases params@.len() - i,
        {
            if self.type_expr_is_capability(&params[i].ty) {
                assert(is_capability(self@, params@[i as int].ty));
                return false;
            }
            i = i + 1;
        }
        true
    }
}

pub open spec fn expanded_name(names: Names, e: Expr) -> Option<Seq<char>> {
    match dotted_name(e) {
        Some(name) => Some(full_name(names, name, expr_span(e))),
        None => None,
    }
}

pub open spec fn expr_name(names: Names, e: Expr) -> Option<Seq<char>> {
    match e {
        Expr::Ident(ident) => Some(symbol_name(names, ident.name@, ident.span)),
        Expr::FieldAccess(_, _, _) => expanded_name(names, e),
        _ => None,
    }
}

/// A function is pure where no parameter gives it a capability.
pub open spec fn pure_params(names: Names, params: Seq<Param>) -> bool {
    forall|i: int| 0 <= i < params.len() ==> !is_capability(names, (#[trigger] params[i]).ty)
}

} // verus!
