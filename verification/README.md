# jett_typecheck

A type checker for the Jett language, with an analysis of who owns values, written in
Verus. Every function is verified against its contract, and no contract is taken on trust.

`check` takes a module whose names are resolved. It

- finds the type of every expression,
- reports what is wrong, in the order in which it is found,
- puts the reports on complexity that come with the resolved names behind its own,
- follows each value that moves through the functions of the module, and
- collects what a running program can ask about types.

## How it is laid out

| Modules | What they hold |
| --- | --- |
| `ast`, `span`, `resolution` | a module with its resolved names |
| `types`, `type_names`, `type_walk`, `type_rules` | types, and what holds between them |
| `diagnostics` | reports |
| `state` | where the checking of a module stands, as a value that contracts speak of |
| `names`, `written_types`, `resolve_types`, `builtins`, `builtin_calls` | the types that names, written types and builtins stand for |
| `reflection`, `reflect_types`, `reflect_written`, `metadata`, `metadata_types` | what is told of types |
| `facts`, `reflection_use`, `static_eval`, `narrowing` | what is known of types inside a branch |
| `check_rules`, `check_exprs`, `check_construct`, `check_calls`, `check_pipeline`, `check_blocks` | expressions and statements |
| `declare`, `signatures`, `check_items`, `check_module` | declarations, and a module as a whole |
| `ownership` | who owns values |
| `steady`, `made`, `type_laws`, `checking_laws`, `reflection_laws`, `ownership_laws`, `ownership_steps` | what holds of all of it |

A checker is a value of `State` to its contracts. Each step of checking is a function from
one state to the next, and the executable method of the same name computes it.

Three things are proved of every step on top of that: what was reported or stored stays as
it is (`keeps`, `stays` and `grows` in `steady`), every id that is noted is that of a stored
type (`known`), and every generic struct that was made is an instance of its template
(`made`).

Checking goes as deep as the types and calls of a module lie inside each other. No limit is
set: the lists of what is open grow with the depth, and a list that fits in memory is what
ends it.
