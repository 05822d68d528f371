//! Finite domains of string values that a constant may take.
use vstd::prelude::*;

verus! {

/// The most values a string domain may hold before it is given up.
pub const MAX_STRING_VALUE_DOMAIN_VALUES: usize = 64;

/// The views of a vector of strings.
pub open spec fn views(v: Seq<String>) -> Seq<Seq<char>> {
    v.map_values(|s: String| s@)
}

/// `left` followed by the values of `right` that are not already present,
/// in order, each kept once.
pub open spec fn merged_domain(left: Seq<Seq<char>>, right: Seq<Seq<char>>) -> Seq<Seq<char>>
    decreases right.len(),
{
    if right.len() == 0 {
        left
    } else {
        let prefix = merged_domain(left, right.drop_last());
        if prefix.contains(right.last()) {
            prefix
        } else {
            prefix.push(right.last())
        }
    }
}

/// Adding the value at `k` of `right` to the merge of `left` with the values
/// before it would exceed the domain limit.
pub open spec fn overflows_at(left: Seq<Seq<char>>, right: Seq<Seq<char>>, k: int) -> bool {
    &&& 0 <= k < right.len()
    &&& merged_domain(left, right.subrange(0, k)).len() == MAX_STRING_VALUE_DOMAIN_VALUES
    &&& !merged_domain(left, right.subrange(0, k)).contains(right[k])
}

fn contains_string(v: &Vec<String>, s: &String) -> (r: bool)
    ensures
        r == views(v@).contains(s@),
{
    let mut i: usize = 0;
    while i < v.len()
        invariant
            i <= v@.len(),
            forall|j: int| 0 <= j < i ==> v@[j]@ != s@,
        decreases v@.len() - i,
    {
        if v[i] == *s {
            assert(views(v@)[i as int] == s@);
            return true;
        }
        i = i + 1;
    }
    assert forall|j: int| 0 <= j < views(v@).len() implies views(v@)[j] != s@ by {
        assert(views(v@)[j] == v@[j]@);
    }
    false
}

/// Merges two domains of possible string values: `left`, then each value of
/// `right` not yet present.  It gives up (`None`) exactly when, at some value
/// of `right`, the merge so far holds `MAX_STRING_VALUE_DOMAIN_VALUES` values
/// and that value is new; a `left` within the limit then stays within it.
pub fn merge_string_value_domains(left: Vec<String>, right: Vec<String>) -> (r: Option<Vec<String>>)
    ensures
        r is None <==> exists|k: int| overflows_at(views(left@), views(right@), k),
        r matches Some(merged) ==> views(merged@) == merged_domain(views(left@), views(right@)),
        r matches Some(merged) ==> (left@.len() <= MAX_STRING_VALUE_DOMAIN_VALUES ==> merged@.len()
            <= MAX_STRING_VALUE_DOMAIN_VALUES),
{
    let ghost left_len = left@.len();
    let mut merged = left;
    let ghost left0 = views(merged@);
    let mut i: usize = 0;
    while i < right.len()
        invariant
            i <= right@.len(),
            left0 == views(left@),
            views(merged@) == merged_domain(left0, views(right@.subrange(0, i as int))),
            forall|k: int| 0 <= k < i ==> !overflows_at(left0, views(right@), k),
            left_len <= MAX_STRING_VALUE_DOMAIN_VALUES ==> merged@.len() <= MAX_STRING_VALUE_DOMAIN_VALUES,
        decreases right@.len() - i,
    {
        proof {
            assert(views(right@.subrange(0, i + 1)).drop_last() =~= views(right@.subrange(0, i as int)));
            assert(views(right@.subrange(0, i + 1)).last() == right@[i as int]@);
            assert(views(right@).subrange(0, i as int) =~= views(right@.subrange(0, i as int)));
            assert(views(right@)[i as int] == right@[i as int]@);
            assert(views(merged@).len() == merged@.len());
        }
        let value = &right[i];
        if contains_string(&merged, value) {
            proof {
                assert(!overflows_at(left0, views(right@), i as int));
            }
            i = i + 1;
            continue;
        }
        if merged.len() == MAX_STRING_VALUE_DOMAIN_VALUES {
            proof {
                assert(overflows_at(left0, views(right@), i as int));
            }
            return None;
        }
        proof {
            assert(!overflows_at(left0, views(right@), i as int));
        }
        merged.push(value.clone());
        proof {
            assert(views(merged@) =~= merged_domain(left0, views(right@.subrange(0, i as int))).push(
                right@[i as int]@,
            ));
        }
        i = i + 1;
    }
    proof {
        assert(right@.subrange(0, right@.len() as int) =~= right@);
    }
    Some(merged)
}

pub open spec fn no_repeats(s: Seq<Seq<char>>) -> bool {
    forall|i: int, j: int| 0 <= i < j < s.len() ==> s[i] != s[j]
}

/// Merging two domains gives their union: the left domain, unchanged, then
/// the values only the right one has; a domain without repeats stays
/// without repeats.
pub proof fn lemma_merged_domain_is_union(left: Seq<Seq<char>>, right: Seq<Seq<char>>)
    ensures
        forall|x: Seq<char>|
            #[trigger] merged_domain(left, right).contains(x) <==> left.contains(x) || right.contains(x),
        merged_domain(left, right).len() >= left.len(),
        merged_domain(left, right).subrange(0, left.len() as int) == left,
        no_repeats(left) ==> no_repeats(merged_domain(left, right)),
    decreases right.len(),
{
    if right.len() > 0 {
        let rest = right.drop_last();
        lemma_merged_domain_is_union(left, rest);
        let prefix = merged_domain(left, rest);
        let last = right.last();
        let m = merged_domain(left, right);
        assert forall|x: Seq<char>| #[trigger] m.contains(x) <==> left.contains(x) || right.contains(x) by {
            if right.contains(x) && !rest.contains(x) {
                let i = choose|i: int| 0 <= i < right.len() && right[i] == x;
                if i < rest.len() {
                    assert(rest[i] == x);
                }
                assert(x == last);
                if !prefix.contains(last) {
                    assert(m[prefix.len() as int] == x);
                }
            }
            if rest.contains(x) {
                let i = choose|i: int| 0 <= i < rest.len() && rest[i] == x;
                assert(right[i] == x);
            }
            if m.contains(x) && !prefix.contains(x) {
                let i = choose|i: int| 0 <= i < m.len() && m[i] == x;
                if i < prefix.len() {
                    assert(prefix[i] == x);
                }
                assert(x == last);
                assert(right[right.len() - 1] == x);
            }
            if prefix.contains(x) {
                let i = choose|i: int| 0 <= i < prefix.len() && prefix[i] == x;
                assert(m[i] == x);
            }
        }
        assert(m.subrange(0, left.len() as int) =~= prefix.subrange(0, left.len() as int));
    }
}

} // verus!
