//! Which arms of a `switch` the analyzer takes as selected, reachable, or
//! executed for their effects, when the selector or the conditions have
//! values known at compile time.
use vstd::prelude::*;

verus! {

/// What is known of an arm's test before its result is analyzed: no
/// condition (the default arm), a condition whose outcome is known (a
/// condition's value without a selector, or whether the case equals the
/// selector with one), or a condition whose outcome is not known.
#[derive(Clone, Copy, Debug, PartialEq, Eq, Structural)]
pub enum ArmTest {
    Default,
    Known(bool),
    Unknown,
}

/// Where the walk over the arms stands: whether an arm may still be
/// selected at compile time, and whether the arms from here on depend on
/// values known only at run time.
#[derive(Clone, Copy, Debug, PartialEq, Eq, Structural)]
pub struct SwitchSelection {
    pub static_selection_open: bool,
    pub dynamic_tail: bool,
}

/// What the walk decides for one arm.
#[derive(Clone, Copy, Debug, PartialEq, Eq, Structural)]
pub struct ArmOutcome {
    /// The arm may run.
    pub reachable: bool,
    /// The arm's effects on symbols are kept.
    pub commit: bool,
    /// The arm is the one selected at compile time.
    pub selected: bool,
}

/// The walk before the first arm: open when there is no selector or its
/// value is known; dynamic from the start when a selector's value is not.
pub open spec fn initial_selection(has_selector: bool, selector_known: bool) -> SwitchSelection {
    SwitchSelection {
        static_selection_open: !has_selector || selector_known,
        dynamic_tail: has_selector && !selector_known,
    }
}

pub fn start_switch_selection(has_selector: bool, selector_known: bool) -> (r: SwitchSelection)
    ensures
        r == initial_selection(has_selector, selector_known),
{
    SwitchSelection { static_selection_open: !has_selector || selector_known, dynamic_tail: has_selector && !selector_known }
}

/// One arm of the walk: once the tail is dynamic every arm runs; once an arm
/// was selected no later arm does; while the selection is open, an arm known
/// to fail is skipped, a default or an arm known to match is selected, and an
/// arm whose outcome is unknown makes the rest dynamic.
pub open spec fn arm_step(s: SwitchSelection, test: ArmTest) -> (SwitchSelection, ArmOutcome) {
    let reachable = s.dynamic_tail || s.static_selection_open;
    if s.dynamic_tail {
        (s, ArmOutcome { reachable, commit: true, selected: false })
    } else if !s.static_selection_open {
        (s, ArmOutcome { reachable, commit: false, selected: false })
    } else {
        match test {
            ArmTest::Known(false) => (s, ArmOutcome { reachable, commit: false, selected: false }),
            ArmTest::Known(true) | ArmTest::Default => (
                SwitchSelection { static_selection_open: false, dynamic_tail: false },
                ArmOutcome { reachable, commit: true, selected: true },
            ),
            ArmTest::Unknown => (
                SwitchSelection { static_selection_open: false, dynamic_tail: true },
                ArmOutcome { reachable, commit: true, selected: false },
            ),
        }
    }
}

/// Decides one arm and moves the walk past it.
pub fn next_switch_arm(state: &mut SwitchSelection, test: ArmTest) -> (r: ArmOutcome)
    ensures
        (*final(state), r) == arm_step(*old(state), test),
{
    let reachable = state.dynamic_tail || state.static_selection_open;
    if state.dynamic_tail {
        return ArmOutcome { reachable, commit: true, selected: false };
    }
    if !state.static_selection_open {
        return ArmOutcome { reachable, commit: false, selected: false };
    }
    match test {
        ArmTest::Known(false) => ArmOutcome { reachable, commit: false, selected: false },
        ArmTest::Known(true) | ArmTest::Default => {
            state.static_selection_open = false;
            ArmOutcome { reachable, commit: true, selected: true }
        },
        ArmTest::Unknown => {
            state.static_selection_open = false;
            state.dynamic_tail = true;
            ArmOutcome { reachable, commit: true, selected: false }
        },
    }
}

/// The walk over the arms with tests `tests`: where it stands after them,
/// and what it decided for each.
pub open spec fn walk(start: SwitchSelection, tests: Seq<ArmTest>) -> (SwitchSelection, Seq<ArmOutcome>)
    decreases tests.len(),
{
    if tests.len() == 0 {
        (start, Seq::empty())
    } else {
        let (s, outs) = walk(start, tests.drop_last());
        let (s2, o) = arm_step(s, tests.last());
        (s2, outs.push(o))
    }
}

/// A walk never has the selection open and the tail dynamic at once.
pub open spec fn consistent(s: SwitchSelection) -> bool {
    !(s.static_selection_open && s.dynamic_tail)
}

proof fn lemma_walk_facts(start: SwitchSelection, tests: Seq<ArmTest>)
    requires
        consistent(start),
    ensures
        ({
            let (s, outs) = walk(start, tests);
            &&& consistent(s)
            &&& outs.len() == tests.len()
            &&& (start.dynamic_tail ==> s.dynamic_tail)
            &&& (!start.static_selection_open ==> !s.static_selection_open)
            &&& (exists|i: int| 0 <= i < outs.len() && #[trigger] outs[i].selected) ==> !s.static_selection_open
                && !s.dynamic_tail
            &&& (exists|i: int| 0 <= i < outs.len() && #[trigger] outs[i].selected) ==> !start.dynamic_tail
        }),
    decreases tests.len(),
{
    if tests.len() > 0 {
        lemma_walk_facts(start, tests.drop_last());
        let (s, outs) = walk(start, tests.drop_last());
        let (s2, o) = arm_step(s, tests.last());
        let all = outs.push(o);
        if exists|i: int| 0 <= i < all.len() && #[trigger] all[i].selected {
            let i = choose|i: int| 0 <= i < all.len() && #[trigger] all[i].selected;
            if i < outs.len() {
                assert(outs[i].selected);
            }
        }
    }
}

/// At most one arm of a switch is selected at compile time; no arm after it
/// can run or keeps its effects; and an arm whose outcome is unknown makes
/// every later arm run and keep its effects.
pub proof fn lemma_switch_selection(has_selector: bool, selector_known: bool, tests: Seq<ArmTest>)
    ensures
        ({
            let outs = walk(initial_selection(has_selector, selector_known), tests).1;
            &&& outs.len() == tests.len()
            &&& forall|i: int, j: int|
                0 <= i < j < outs.len() && (#[trigger] outs[i]).selected ==> !(#[trigger] outs[j]).selected
                    && !outs[j].reachable && !outs[j].commit
            &&& forall|i: int, j: int|
                0 <= i < j < outs.len() && (#[trigger] outs[i]).reachable && tests[i] == ArmTest::Unknown
                    ==> (#[trigger] outs[j]).reachable && outs[j].commit
            &&& has_selector && !selector_known ==> forall|i: int|
                0 <= i < outs.len() ==> (#[trigger] outs[i]).reachable && outs[i].commit && !outs[i].selected
        }),
{
    let start = initial_selection(has_selector, selector_known);
    lemma_walk_prefixes(start, tests);
    lemma_walk_facts(start, tests);
}

proof fn lemma_walk_prefixes(start: SwitchSelection, tests: Seq<ArmTest>)
    requires
        consistent(start),
    ensures
        ({
            let outs = walk(start, tests).1;
            &&& forall|i: int, j: int|
                0 <= i < j < outs.len() && (#[trigger] outs[i]).selected ==> !(#[trigger] outs[j]).selected
                    && !outs[j].reachable && !outs[j].commit
            &&& forall|i: int, j: int|
                0 <= i < j < outs.len() && (#[trigger] outs[i]).reachable && tests[i] == ArmTest::Unknown
                    ==> (#[trigger] outs[j]).reachable && outs[j].commit
            &&& start.dynamic_tail ==> forall|i: int|
                0 <= i < outs.len() ==> (#[trigger] outs[i]).reachable && outs[i].commit && !outs[i].selected
            &&& forall|i: int|
                0 <= i < outs.len() && (#[trigger] outs[i]).reachable && tests[i] == ArmTest::Unknown
                    ==> walk(start, tests).0.dynamic_tail
        }),
    decreases tests.len(),
{
    lemma_walk_facts(start, tests);
    if tests.len() > 0 {
        let prev_tests = tests.drop_last();
        lemma_walk_prefixes(start, prev_tests);
        lemma_walk_facts(start, prev_tests);
        let (s, outs) = walk(start, prev_tests);
        let (s2, o) = arm_step(s, tests.last());
        let all = outs.push(o);
        assert(walk(start, tests).1 == all);
        let n = outs.len() as int;
        assert forall|i: int| 0 <= i < n implies #[trigger] tests[i] == prev_tests[i] by {}
        assert forall|i: int, j: int|
            0 <= i < j < all.len() && (#[trigger] all[i]).selected implies !(#[trigger] all[j]).selected
                && !all[j].reachable && !all[j].commit by {
            assert(all[i] == outs[i]);
            if j == n {
                assert(outs[i].selected);
                assert(!s.static_selection_open && !s.dynamic_tail);
            } else {
                assert(all[j] == outs[j]);
            }
        }
        assert forall|i: int, j: int|
            0 <= i < j < all.len() && (#[trigger] all[i]).reachable && tests[i] == ArmTest::Unknown
                implies (#[trigger] all[j]).reachable && all[j].commit by {
            assert(all[i] == outs[i]);
            assert(tests[i] == prev_tests[i]);
            if j == n {
                assert(s.dynamic_tail);
            } else {
                assert(all[j] == outs[j]);
            }
        }
        assert forall|i: int|
            0 <= i < all.len() && (#[trigger] all[i]).reachable && tests[i] == ArmTest::Unknown
                implies s2.dynamic_tail by {
            if i < n {
                assert(all[i] == outs[i]);
                assert(tests[i] == prev_tests[i]);
                assert(s.dynamic_tail);
            }
        }
        if start.dynamic_tail {
            assert forall|i: int| 0 <= i < all.len() implies (#[trigger] all[i]).reachable && all[i].commit
                && !all[i].selected by {
                if i < n {
                    assert(all[i] == outs[i]);
                }
            }
        }
    }
}

} // verus!
