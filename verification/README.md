# pine_sema

Verified building blocks of a semantic analyzer for Pine Script: the rules
by which calls, arguments, operators, conditions, assignments and function
defaults are checked, each with a contract, proved with Verus, that states
what it reports and returns.  Where a rule depends on what the rest of an
analyzer knows (symbol scopes, built-in tables, the values of constant
expressions), that knowledge is an input of the function.

## Layout

- `types`, `accepts`, `signatures`, `registry`: the type vocabulary, what a
  built-in parameter admits, built-in signatures and their lookup.
- `syntax`, `diagnostics`, `text`, `name_set`: the syntax tree, diagnostics,
  string helpers and a set of names.
- `names`, `call_parts`, `dialect`, `operators`, `strategy`: name tables,
  the shapes of callees, language-version allowances, operator spellings,
  strategy names and script-mode checks.
- `call_checks`, `builtin_args`, `drawing_options`, `map_templates`:
  checking the arguments of built-in calls.
- `udf_args`, `udf_calls`, `overloads`, `defaults`: binding and completing
  the arguments of user-defined functions, checking them against the
  parameters' declared types, choosing an overload, checking parameter
  defaults.
- `type_rules`, `bindings`, `switch_selection`, `const_selection`,
  `domains`, `limits`: typing of operators, branches and loops; declaration
  and reassignment types; compile-time selection of `switch` arms and the
  values of branches; string value domains; analysis depth limits.
- `known_args`, `strategy_declaration`, `strategy_exit`, `strategy_orders`:
  the arguments of `strategy(...)` and of the order, exit and risk calls,
  with what is known of their values at compile time.
- `const_fold`: one step of compile-time integer folding.
- `statement_rules`, `legacy_calls`, `legacy_na`: where statements may stand, loop
  counters and reassignment targets; the legacy `iff`, `offset` and
  two-series `rsi`; pending untyped `na` declarations of Pine v3.
- `effects`, `yields`, `reassigned`, `local_arrays`: walks over statements
  and expressions.
- `analyzer`: an analyzer state (scopes, dialect, diagnostics, unsupported
  constructs, features used) with expression analysis, type queries (with
  parameter types and tuple aliases), statement analysis, and the entry into
  a call of a user-defined function (refusals, side effects, defaults,
  binding, the parameters' types) and the analysis of an expression body
  in a scope of its parameters, over the fragment of the language whose
  rules the modules above state.
- `function_registry`: registering the user-defined functions of a script,
  with their parameter types and defaults.

Each module states its laws as public proof functions next to the code
they are about.
