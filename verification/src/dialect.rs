//! Pine language versions and the version-dependent allowances for side
//! effects inside user-defined functions.
use vstd::prelude::*;
use crate::text::str_eq;

verus! {

/// The Pine language version a script is written in.
#[derive(Clone, Copy, Debug, PartialEq, Eq, Structural)]
pub enum PineDialect {
    V1,
    V2,
    V3,
    V4,
    V5,
    V6,
}

/// The version number of a dialect.
pub open spec fn dialect_version(d: PineDialect) -> int {
    match d {
        PineDialect::V1 => 1,
        PineDialect::V2 => 2,
        PineDialect::V3 => 3,
        PineDialect::V4 => 4,
        PineDialect::V5 => 5,
        PineDialect::V6 => 6,
    }
}

pub fn dialect_number(d: PineDialect) -> (r: u8)
    ensures
        r == dialect_version(d),
{
    match d {
        PineDialect::V1 => 1,
        PineDialect::V2 => 2,
        PineDialect::V3 => 3,
        PineDialect::V4 => 4,
        PineDialect::V5 => 5,
        PineDialect::V6 => 6,
    }
}

/// Reference-type built-ins that a v4 user-defined function may call for
/// their side effect.
pub open spec fn legacy_v4_udf_side_effect_names() -> Set<Seq<char>> {
    set![
        "array.set"@, "array.pop"@, "array.unshift"@, "array.clear"@, "label.new"@,
        "label.delete"@, "line.new"@, "line.set_x2"@, "line.set_extend"@, "line.delete"@,
    ]
}

/// Whether a v4 user-defined function may call `name` for its side effect.
pub fn allows_legacy_v4_udf_reference_side_effect(dialect: PineDialect, name: &str) -> (r: bool)
    ensures
        r == (dialect == PineDialect::V4 && legacy_v4_udf_side_effect_names().contains(name@)),
{
    if dialect != PineDialect::V4 {
        return false;
    }
    str_eq(name, "array.set") || str_eq(name, "array.pop") || str_eq(name, "array.unshift")
        || str_eq(name, "array.clear") || str_eq(name, "label.new") || str_eq(name, "label.delete")
        || str_eq(name, "line.new") || str_eq(name, "line.set_x2") || str_eq(name, "line.set_extend")
        || str_eq(name, "line.delete")
}

/// Whether a user-defined function may call the output or declaration
/// built-in `name`: the v4 allowances, and `box.new` from v5 on.
pub fn allows_udf_output_or_declaration_side_effect(dialect: PineDialect, name: &str) -> (r: bool)
    ensures
        r == ((dialect == PineDialect::V4 && legacy_v4_udf_side_effect_names().contains(name@)) || (
        dialect_version(dialect) >= 5 && name@ == "box.new"@)),
{
    if allows_legacy_v4_udf_reference_side_effect(dialect, name) {
        return true;
    }
    dialect_number(dialect) >= 5 && str_eq(name, "box.new")
}

/// Whether a user-defined function may call the collection mutation
/// `name`: the v4 allowances, and `array.unshift` from v5 on.
pub fn allows_udf_collection_mutation_side_effect(dialect: PineDialect, name: &str) -> (r: bool)
    ensures
        r == ((dialect == PineDialect::V4 && legacy_v4_udf_side_effect_names().contains(name@)) || (
        dialect_version(dialect) >= 5 && name@ == "array.unshift"@)),
{
    if allows_legacy_v4_udf_reference_side_effect(dialect, name) {
        return true;
    }
    dialect_number(dialect) >= 5 && str_eq(name, "array.unshift")
}

} // verus!
