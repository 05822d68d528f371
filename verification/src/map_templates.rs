//! The `map.new<K, V>` constructor name and the scalar types a map may hold.
use vstd::prelude::*;
use vstd::string::*;
use crate::text::{has_char, is_prefix, split_once, str_eq, strip_prefix, strip_suffix};

verus! {

/// The text between `map.new<` and a closing `>`, when the name has that shape.
pub open spec fn template_inner(name: Seq<char>) -> Option<Seq<char>> {
    if name.len() >= 9 && is_prefix("map.new<"@, name) && name[name.len() - 1] == '>' {
        Some(name.subrange(8, name.len() - 1))
    } else {
        None
    }
}

/// The key and value template names of a `map.new<K,V>` call name, split at
/// the first comma between the angle brackets.
pub fn map_new_template_types(name: &str) -> (r: Option<(&str, &str)>)
    ensures
        r is Some <==> (template_inner(name@) matches Some(inner) && has_char(inner, ',')),
        r matches Some((key, value)) ==> template_inner(name@) == Some(key@ + seq![','] + value@)
            && !has_char(key@, ','),
{
    proof {
        reveal_strlit("map.new<");
        reveal_strlit(">");
    }
    let rest = match strip_prefix(name, "map.new<") {
        Some(rest) => rest,
        None => {
            assert(template_inner(name@) is None);
            return None;
        },
    };
    assert(name@.subrange(0, 8) == "map.new<"@);
    assert(rest@ =~= name@.subrange(8, name@.len() as int));
    let inner = match strip_suffix(rest, ">") {
        Some(inner) => inner,
        None => {
            assert(template_inner(name@) is None) by {
                if name@.len() >= 9 && name@[name@.len() - 1] == '>' {
                    assert(rest@.subrange(rest@.len() - 1, rest@.len() as int) =~= ">"@);
                }
            }
            return None;
        },
    };
    assert(inner@ =~= name@.subrange(8, name@.len() - 1));
    assert(template_inner(name@) == Some(inner@));
    split_once(inner, ',')
}

pub open spec fn map_scalar_template(name: Seq<char>) -> bool {
    name == "int"@ || name == "float"@ || name == "bool"@ || name == "string"@ || name
        == "color"@
}

/// Whether a map template names a scalar type a map may hold.
pub fn is_supported_map_scalar_type(name: &str) -> (r: bool)
    ensures
        r == map_scalar_template(name@),
{
    str_eq(name, "int") || str_eq(name, "float") || str_eq(name, "bool") || str_eq(name, "string")
        || str_eq(name, "color")
}

} // verus!
