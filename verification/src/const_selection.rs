//! The value a `switch`, an `if` or a ternary takes at compile time, given
//! what is known of its conditions and of the values of its arms.
use vstd::prelude::*;
use crate::switch_selection::ArmTest;

verus! {

/// A compile-time scalar value of a branch or an arm.
#[derive(Clone, Copy, Debug, PartialEq, Eq, Structural)]
pub enum ConstScalar {
    Int(i64),
    Bool(bool),
    Color(u32),
}

/// Some arm from `from` on is the default arm.
pub open spec fn has_default_from(tests: Seq<ArmTest>, from: int) -> bool {
    exists|i: int| from <= i < tests.len() && #[trigger] tests[i] == ArmTest::Default
}

/// The value every arm from `from` on takes, when there is a default arm
/// among them and all their values are known and equal.
pub open spec fn agreed_value(tests: Seq<ArmTest>, values: Seq<Option<ConstScalar>>, from: int) -> Option<ConstScalar> {
    if has_default_from(tests, from) && forall|i: int|
        from <= i < values.len() ==> #[trigger] values[i] is Some && values[i] == values[from] {
        values[from]
    } else {
        None
    }
}

/// The value of a switch from arm `k` on: the first arm whose test is known
/// to pass, or the default, gives its value; an arm known to fail is
/// skipped; an arm whose test is unknown leaves only the value all the
/// remaining arms agree on.
pub open spec fn picked_value(tests: Seq<ArmTest>, values: Seq<Option<ConstScalar>>, k: int) -> Option<ConstScalar>
    decreases tests.len() - k,
{
    if k < 0 || k >= tests.len() {
        None
    } else {
        match tests[k] {
            ArmTest::Default | ArmTest::Known(true) => values[k],
            ArmTest::Known(false) => picked_value(tests, values, k + 1),
            ArmTest::Unknown => agreed_value(tests, values, k),
        }
    }
}

/// The value all arms from `from` on agree on, with a default among them.
pub fn all_switch_results_with_default(tests: &[ArmTest], values: &[Option<ConstScalar>], from: usize) -> (r: Option<
    ConstScalar,
>)
    requires
        tests@.len() == values@.len(),
        from <= tests@.len(),
    ensures
        r == agreed_value(tests@, values@, from as int),
{
    let n = tests.len();
    let mut has_default = false;
    let mut i: usize = from;
    while i < n
        invariant
            n == tests@.len(),
            from <= i <= n,
            has_default == exists|j: int| from <= j < i && #[trigger] tests@[j] == ArmTest::Default,
        decreases n - i,
    {
        if tests[i] == ArmTest::Default {
            has_default = true;
        }
        i = i + 1;
    }
    if !has_default {
        return None;
    }
    let mut expected: Option<ConstScalar> = None;
    let mut k: usize = from;
    while k < n
        invariant
            n == tests@.len(),
            n == values@.len(),
            from <= k <= n,
            has_default_from(tests@, from as int),
            k == from ==> expected is None,
            k > from ==> expected == values@[from as int] && expected is Some,
            forall|j: int| from <= j < k ==> #[trigger] values@[j] is Some && values@[j] == values@[from as int],
        decreases n - k,
    {
        let value = match values[k] {
            Some(v) => v,
            None => return None,
        };
        match expected {
            Some(e) => {
                if e != value {
                    return None;
                }
            },
            None => {
                expected = Some(value);
            },
        }
        k = k + 1;
    }
    expected
}

/// The value a switch takes at compile time.  `selector_unknown` tells that
/// the switch has a selector whose value is not known, in which case only
/// the value all arms agree on remains.
pub fn known_switch_result(selector_unknown: bool, tests: &[ArmTest], values: &[Option<ConstScalar>]) -> (r: Option<
    ConstScalar,
>)
    requires
        tests@.len() == values@.len(),
    ensures
        r == if selector_unknown {
            agreed_value(tests@, values@, 0)
        } else {
            picked_value(tests@, values@, 0)
        },
{
    if selector_unknown {
        return all_switch_results_with_default(tests, values, 0);
    }
    let n = tests.len();
    let mut k: usize = 0;
    while k < n
        invariant
            n == tests@.len(),
            n == values@.len(),
            k <= n,
            !selector_unknown,
            picked_value(tests@, values@, 0) == picked_value(tests@, values@, k as int),
        decreases n - k,
    {
        match tests[k] {
            ArmTest::Default | ArmTest::Known(true) => return values[k],
            ArmTest::Known(false) => {},
            ArmTest::Unknown => return all_switch_results_with_default(tests, values, k),
        }
        k = k + 1;
    }
    None
}

/// The value of `if`/ternary branches: the branch taken when the condition
/// is known, else the value both branches agree on.
pub open spec fn branch_value(condition: Option<bool>, then_value: Option<ConstScalar>, else_value: Option<ConstScalar>) -> Option<
    ConstScalar,
> {
    match condition {
        Some(true) => then_value,
        Some(false) => else_value,
        None => if then_value is Some && then_value == else_value {
            then_value
        } else {
            None
        },
    }
}

pub fn known_branch_result(
    condition: Option<bool>,
    then_value: Option<ConstScalar>,
    else_value: Option<ConstScalar>,
) -> (r: Option<ConstScalar>)
    ensures
        r == branch_value(condition, then_value, else_value),
{
    match condition {
        Some(true) => then_value,
        Some(false) => else_value,
        None => match (then_value, else_value) {
            (Some(a), Some(b)) => if a == b {
                Some(a)
            } else {
                None
            },
            _ => None,
        },
    }
}

/// The value a switch takes at compile time is the value of one of the arms
/// it walked to.
pub proof fn lemma_switch_value_is_an_arm_value(tests: Seq<ArmTest>, values: Seq<Option<ConstScalar>>, k: int)
    requires
        tests.len() == values.len(),
        0 <= k,
    ensures
        picked_value(tests, values, k) matches Some(v) ==> exists|i: int| k <= i < values.len() && values[i] == Some(v),
    decreases tests.len() - k,
{
    if k < tests.len() {
        match tests[k] {
            ArmTest::Known(false) => lemma_switch_value_is_an_arm_value(tests, values, k + 1),
            _ => {},
        }
    }
}

} // verus!
