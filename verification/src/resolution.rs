//! What the names in a module refer to.
use vstd::prelude::*;

use crate::ast::TypeExpr;
use crate::diagnostics::{Diagnostic, DiagnosticV};
use crate::span::Span;
use crate::table::{views, Dup, Key, Table};

verus! {

/// A definition, by its place in the scope table.
#[derive(Debug, Clone, Copy, PartialEq, Eq, Structural)]
pub struct DefId(pub usize);

impl View for DefId {
    type V = DefId;

    open spec fn view(&self) -> DefId {
        *self
    }
}

impl Dup for DefId {
    fn dup(&self) -> (r: Self) {
        *self
    }
}

impl Key for DefId {
    fn same(&self, other: &Self) -> (r: bool) {
        *self == *other
    }
}

#[derive(Debug, Clone, Copy, PartialEq, Eq, Structural)]
pub enum DefKind {
    Variable,
    Param,
    Function,
    Struct,
    Enum,
    Interface,
    Bitfield,
    Machine,
    Actor,
    TypeAlias,
    TypeParam,
    Namespace,
}

#[derive(Debug)]
pub struct Definition {
    pub name: String,
    pub kind: DefKind,
    pub span: Span,
}

pub struct DefinitionV {
    pub name: Seq<char>,
    pub kind: DefKind,
    pub span: Span,
}

impl View for Definition {
    type V = DefinitionV;

    open spec fn view(&self) -> DefinitionV {
        DefinitionV { name: self.name@, kind: self.kind, span: self.span }
    }
}

/// Every definition of a module.
#[derive(Debug)]
pub struct ScopeTable {
    pub definitions: Vec<Definition>,
}

impl ScopeTable {
    pub fn new() -> (r: Self)
        ensures
            r.definitions@.len() == 0,
    {
        ScopeTable { definitions: Vec::new() }
    }

    /// Adds a definition and gives its id.
    pub fn new_def(&mut self, name: String, kind: DefKind, span: Span) -> (r: DefId)
        ensures
            final(self).definitions@ == old(self).definitions@.push(
                Definition { name, kind, span },
            ),
            r.0 == old(self).definitions@.len(),
    {
        let id = DefId(self.definitions.len());
        self.definitions.push(Definition { name, kind, span });
        id
    }
}

/// The resolved names of a module, and what is fixed by the language around
/// it: the names of the capability types, and of the calls beside the
/// collection builtins that view their first argument. `complexity` holds what
/// was found about the size of the module's functions.
pub struct ResolveResult {
    pub scope_table: ScopeTable,
    pub resolutions: Table<Span, DefId>,
    pub namespace_aliases: Table<DefId, String>,
    pub capabilities: Vec<String>,
    pub view_facades: Vec<String>,
    pub complexity: Vec<Diagnostic>,
}

pub struct Names {
    pub definitions: Seq<DefinitionV>,
    pub resolutions: Map<Span, DefId>,
    pub namespace_aliases: Map<DefId, Seq<char>>,
    pub capabilities: Seq<Seq<char>>,
    pub view_facades: Seq<Seq<char>>,
    pub complexity: Seq<DiagnosticV>,
}

impl View for ResolveResult {
    type V = Names;

    open spec fn view(&self) -> Names {
        Names {
            definitions: views(self.scope_table.definitions@),
            resolutions: self.resolutions@,
            namespace_aliases: self.namespace_aliases@,
            capabilities: views(self.capabilities@),
            view_facades: views(self.view_facades@),
            complexity: views(self.complexity@),
        }
    }
}

/// The last definition among the first `n` that was declared at the place.
pub open spec fn declared_at(defs: Seq<DefinitionV>, span: Span, n: nat) -> Option<DefId>
    decreases n,
{
    if n == 0 || n > defs.len() {
        None
    } else if defs[n - 1].span == span {
        Some(DefId((n - 1) as usize))
    } else {
        declared_at(defs, span, (n - 1) as nat)
    }
}

/// The definition that the name at a place refers to, or else the one that is
/// declared there.
pub open spec fn definition_at(names: Names, span: Span) -> Option<DefId> {
    if names.resolutions.contains_key(span) {
        Some(names.resolutions[span])
    } else {
        declared_at(names.definitions, span, names.definitions.len())
    }
}

pub open spec fn kind_at(names: Names, span: Span) -> Option<DefKind> {
    match definition_at(names, span) {
        Some(id) => if id.0 < names.definitions.len() {
            Some(names.definitions[id.0 as int].kind)
        } else {
            None
        },
        None => None,
    }
}

/// The name that a definition was declared with; one that is not there keeps
/// the name as written.
pub open spec fn symbol_name(names: Names, name: Seq<char>, span: Span) -> Seq<char> {
    match definition_at(names, span) {
        Some(id) => if id.0 < names.definitions.len() {
            names.definitions[id.0 as int].name
        } else {
            name
        },
        None => name,
    }
}

/// The place of the first dot from `i` on.
pub open spec fn first_dot(name: Seq<char>, i: nat) -> Option<nat>
    decreases name.len() - i,
{
    if i >= name.len() {
        None
    } else if name[i as int] == '.' {
        Some(i)
    } else {
        first_dot(name, i + 1)
    }
}

/// The place of the last dot before `n`.
pub open spec fn last_dot(name: Seq<char>, n: nat) -> Option<nat>
    decreases n,
{
    if n == 0 || n > name.len() {
        None
    } else if name[n - 1] == '.' {
        Some((n - 1) as nat)
    } else {
        last_dot(name, (n - 1) as nat)
    }
}

/// The full name behind a name as written: a symbol's declared name, or a
/// dotted name with the namespace alias at its front written out.
pub open spec fn full_name(names: Names, name: Seq<char>, span: Span) -> Seq<char> {
    match first_dot(name, 0) {
        None => symbol_name(names, name, span),
        Some(dot) => match definition_at(names, span) {
            None => name,
            Some(id) => if id.0 >= names.definitions.len() {
                name
            } else {
                let def = names.definitions[id.0 as int];
                if def.kind != DefKind::Namespace {
                    def.name
                } else if def.name == name.subrange(0, dot as int)
                    && names.namespace_aliases.contains_key(id) {
                    names.namespace_aliases[id] + "."@ + name.subrange(
                        dot as int + 1,
                        name.len() as int,
                    )
                } else {
                    name
                }
            },
        },
    }
}

/// Whether a written type is a capability, viewed or not.
pub open spec fn is_capability(names: Names, t: TypeExpr) -> bool
    decreases t,
{
    match t {
        TypeExpr::Named(ident) => names.capabilities.contains(ident.name@),
        TypeExpr::View(inner, _) => is_capability(names, *inner),
        _ => false,
    }
}

} // verus!
