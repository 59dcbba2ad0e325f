//! A type checker for Jett, with an analysis of who owns values.
//!
//! [`check`] takes a module whose names are resolved. It finds the type of every
//! expression, reports what is wrong, follows each value that moves, and collects
//! what a running program can ask about types.
pub mod ast;
pub mod builtin_calls;
pub mod builtin_laws;
pub mod builtins;
pub mod call_laws;
pub mod check_blocks;
pub mod check_calls;
pub mod check_construct;
pub mod check_exprs;
pub mod check_items;
pub mod check_module;
pub mod check_pipeline;
pub mod check_rules;
pub mod checking_laws;
pub mod construct_laws;
pub mod declaration_laws;
pub mod declare;
pub mod describing_laws;
pub mod diagnostics;
pub mod expression_laws;
pub mod facts;
pub mod handling_laws;
pub mod item_laws;
pub mod made;
pub mod member_laws;
pub mod metadata;
pub mod metadata_types;
pub mod names;
pub mod naming_laws;
pub mod narrowing;
pub mod narrowing_laws;
pub mod ownership;
pub mod ownership_branches;
pub mod ownership_laws;
pub mod ownership_steps;
pub mod ownership_uses;
pub mod reflect_types;
pub mod reflect_written;
pub mod reflection;
pub mod resolution;
pub mod resolve_types;
pub mod scope_laws;
pub mod signatures;
pub mod span;
pub mod reflection_laws;
pub mod reflection_use;
pub mod state;
pub mod statement_laws;
pub mod static_eval;
pub mod static_laws;
pub mod steady;
pub mod table;
pub mod text;
pub mod type_laws;
pub mod type_names;
pub mod type_rules;
pub mod type_walk;
pub mod types;
pub mod written_laws;
pub mod written_types;

pub use check_module::{check, CheckResult};
pub use ownership::{check_ownership, OwnershipChecker, OwnershipState};
pub use state::TypeChecker;
