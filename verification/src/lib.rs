use vstd::prelude::*;

pub mod text;
pub mod types;
pub mod accepts;
pub mod syntax;
pub mod diagnostics;
pub mod names;
pub mod signatures;
pub mod call_parts;
pub mod call_checks;
pub mod dialect;
pub mod operators;
pub mod domains;
pub mod strategy;
pub mod udf_args;
pub mod effects;
pub mod yields;
pub mod name_set;
pub mod reassigned;
pub mod local_arrays;
pub mod bindings;
pub mod map_templates;
pub mod registry;
pub mod defaults;
pub mod builtin_args;
pub mod type_rules;
pub mod drawing_options;
pub mod overloads;
pub mod switch_selection;
pub mod udf_calls;
pub mod limits;
pub mod const_selection;
pub mod const_fold;
pub mod known_args;
pub mod strategy_declaration;
pub mod strategy_exit;
pub mod strategy_orders;
pub mod statement_rules;
pub mod legacy_calls;
pub mod legacy_na;
pub mod analyzer;
pub mod function_registry;

verus! {

} // verus!
