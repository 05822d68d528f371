//! Pine v3 untyped `na` declarations that never received a scalar value:
//! each is reported once, in source order.
use vstd::prelude::*;
use vstd::string::*;
use crate::builtin_args::DiagView;
use crate::diagnostics::{Diagnostic, Severity, diag_view, diag_views};
use crate::syntax::Span;

verus! {

/// Whether `a` comes before `b` in source order: by start, then by end.
pub open spec fn span_before(a: Span, b: Span) -> bool {
    a.start < b.start || (a.start == b.start && a.end < b.end)
}

/// Each span comes before the next one: sorted, with no span twice.
pub open spec fn strictly_sorted(s: Seq<Span>) -> bool {
    forall|i: int, j: int| 0 <= i < j < s.len() ==> span_before(#[trigger] s[i], #[trigger] s[j])
}

/// `a` and `b` hold the same spans.
pub open spec fn same_spans(a: Seq<Span>, b: Seq<Span>) -> bool {
    forall|x: Span| a.contains(x) <==> b.contains(x)
}

pub open spec fn pending_na_diag(span: Span) -> DiagView {
    (
        Severity::Error,
        "E_LEGACY_V3_NA_INFERENCE"@,
        "Pine v3 untyped `na` declaration has no stable scalar assignment from which to infer its type"@,
        span,
    )
}

pub open spec fn pending_na_diags(spans: Seq<Span>) -> Seq<DiagView> {
    spans.map_values(|s: Span| pending_na_diag(s))
}

fn before(a: Span, b: Span) -> (r: bool)
    ensures
        r == span_before(a, b),
{
    a.start < b.start || (a.start == b.start && a.end < b.end)
}

/// Adds `s` to a sorted list of spans, where it is not there yet.
fn sorted_insert(out: &mut Vec<Span>, s: Span)
    requires
        strictly_sorted(old(out)@),
    ensures
        strictly_sorted(final(out)@),
        forall|x: Span| final(out)@.contains(x) <==> (old(out)@.contains(x) || x == s),
{
    let mut i: usize = 0;
    while i < out.len()
        invariant
            i <= out@.len(),
            strictly_sorted(out@),
            forall|j: int| 0 <= j < i ==> span_before(#[trigger] out@[j], s),
        ensures
            i <= out@.len(),
            forall|j: int| 0 <= j < i ==> span_before(#[trigger] out@[j], s),
            i < out@.len() ==> !span_before(out@[i as int], s),
        decreases out@.len() - i,
    {
        if !before(out[i], s) {
            break;
        }
        i = i + 1;
    }
    if i < out.len() && out[i] == s {
        return;
    }
    let ghost old_out = out@;
    out.insert(i, s);
    proof {
        old_out.insert_ensures(i as int, s);
        assert forall|a: int, b: int| 0 <= a < b < out@.len() implies span_before(
            #[trigger] out@[a],
            #[trigger] out@[b],
        ) by {
            if b < i {
            } else if b == i {
            } else if a < i {
                assert(out@[b] == old_out[b - 1]);
                if i < old_out.len() {
                    assert(!span_before(old_out[i as int], s));
                    assert(old_out[i as int] != s);
                    if b - 1 > i {
                        assert(span_before(old_out[i as int], old_out[b - 1]));
                    }
                }
            } else if a == i {
                assert(out@[b] == old_out[b - 1]);
                assert(!span_before(old_out[i as int], s));
                assert(old_out[i as int] != s);
                if b - 1 > i {
                    assert(span_before(old_out[i as int], old_out[b - 1]));
                }
            } else {
                assert(out@[a] == old_out[a - 1]);
                assert(out@[b] == old_out[b - 1]);
            }
        }
        assert forall|x: Span| out@.contains(x) <==> (old_out.contains(x) || x == s) by {
            if out@.contains(x) {
                let k = choose|k: int| 0 <= k < out@.len() && out@[k] == x;
                if k < i {
                    assert(old_out[k] == x);
                } else if k > i {
                    assert(old_out[k - 1] == x);
                }
            }
            if old_out.contains(x) {
                let k = choose|k: int| 0 <= k < old_out.len() && old_out[k] == x;
                if k < i {
                    assert(out@[k] == x);
                } else {
                    assert(out@[k + 1] == x);
                }
            }
            if x == s {
                assert(out@[i as int] == x);
            }
        }
    }
}

/// Reports each pending untyped `na` declaration once, in source order,
/// whatever the order in which `spans` lists them.  The result is the
/// reported spans.
pub fn validate_pending_legacy_v3_na_declarations(spans: &Vec<Span>, diagnostics: &mut Vec<Diagnostic>) -> (r: Vec<
    Span,
>)
    ensures
        strictly_sorted(r@),
        same_spans(r@, spans@),
        diag_views(final(diagnostics)@) == diag_views(old(diagnostics)@) + pending_na_diags(r@),
{
    let mut out: Vec<Span> = Vec::new();
    let mut i: usize = 0;
    while i < spans.len()
        invariant
            i <= spans@.len(),
            strictly_sorted(out@),
            forall|x: Span| out@.contains(x) <==> spans@.take(i as int).contains(x),
        decreases spans@.len() - i,
    {
        sorted_insert(&mut out, spans[i]);
        proof {
            let t0 = spans@.take(i as int);
            let t1 = spans@.take(i as int + 1);
            assert forall|x: Span| out@.contains(x) <==> t1.contains(x) by {
                if t1.contains(x) {
                    let k = choose|k: int| 0 <= k < t1.len() && t1[k] == x;
                    if k < i {
                        assert(t0[k] == x);
                    }
                }
                if t0.contains(x) {
                    let k = choose|k: int| 0 <= k < t0.len() && t0[k] == x;
                    assert(t1[k] == x);
                }
                if x == spans@[i as int] {
                    assert(t1[i as int] == x);
                }
            }
        }
        i = i + 1;
    }
    assert(spans@.take(spans@.len() as int) =~= spans@);
    let ghost start = diag_views(diagnostics@);
    let mut k: usize = 0;
    while k < out.len()
        invariant
            k <= out@.len(),
            diag_views(diagnostics@) == start + pending_na_diags(out@.take(k as int)),
        decreases out@.len() - k,
    {
        let ghost before = diag_views(diagnostics@);
        let d = Diagnostic::error(
            "E_LEGACY_V3_NA_INFERENCE",
            String::from_str(
                "Pine v3 untyped `na` declaration has no stable scalar assignment from which to infer its type",
            ),
            out[k],
        );
        diagnostics.push(d);
        proof {
            assert(diag_views(diagnostics@) =~= before.push(diag_view(d)));
            assert(pending_na_diags(out@.take(k as int + 1)) =~= pending_na_diags(out@.take(k as int)).push(
                pending_na_diag(out@[k as int]),
            ));
        }
        k = k + 1;
    }
    assert(out@.take(out@.len() as int) =~= out@);
    out
}

/// Two sorted listings of the same spans are one and the same: what is
/// reported depends only on which declarations are pending, not on the
/// order in which they were recorded.
pub proof fn lemma_sorted_listing_is_unique(a: Seq<Span>, b: Seq<Span>)
    requires
        strictly_sorted(a),
        strictly_sorted(b),
        same_spans(a, b),
    ensures
        a == b,
    decreases a.len(),
{
    if a.len() == 0 {
        if b.len() > 0 {
            assert(b.contains(b[0]));
        }
        assert(a =~= b);
    } else {
        assert(a.contains(a[0]));
        assert(b.len() > 0);
        assert(b.contains(b[0]));
        let k = choose|k: int| 0 <= k < b.len() && b[k] == a[0];
        let m = choose|m: int| 0 <= m < a.len() && a[m] == b[0];
        if k > 0 && m > 0 {
            assert(span_before(b[0], b[k]));
            assert(span_before(a[0], a[m]));
        }
        assert(a[0] == b[0]);
        let ta = a.drop_first();
        let tb = b.drop_first();
        assert forall|x: Span| ta.contains(x) <==> tb.contains(x) by {
            if ta.contains(x) {
                let i = choose|i: int| 0 <= i < ta.len() && ta[i] == x;
                assert(a[i + 1] == x);
                assert(span_before(a[0], a[i + 1]));
                assert(b.contains(x));
                let j = choose|j: int| 0 <= j < b.len() && b[j] == x;
                assert(j != 0);
                assert(tb[j - 1] == x);
            }
            if tb.contains(x) {
                let i = choose|i: int| 0 <= i < tb.len() && tb[i] == x;
                assert(b[i + 1] == x);
                assert(span_before(b[0], b[i + 1]));
                assert(a.contains(x));
                let j = choose|j: int| 0 <= j < a.len() && a[j] == x;
                assert(j != 0);
                assert(ta[j - 1] == x);
            }
        }
        assert(strictly_sorted(ta)) by {
            assert forall|i: int, j: int| 0 <= i < j < ta.len() implies span_before(#[trigger] ta[i], #[trigger] ta[j]) by {
                assert(ta[i] == a[i + 1]);
                assert(ta[j] == a[j + 1]);
            }
        }
        assert(strictly_sorted(tb)) by {
            assert forall|i: int, j: int| 0 <= i < j < tb.len() implies span_before(#[trigger] tb[i], #[trigger] tb[j]) by {
                assert(tb[i] == b[i + 1]);
                assert(tb[j] == b[j + 1]);
            }
        }
        lemma_sorted_listing_is_unique(ta, tb);
        assert(a =~= seq![a[0]] + ta);
        assert(b =~= seq![b[0]] + tb);
    }
}

} // verus!
