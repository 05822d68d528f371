use pine_sema::dialect::PineDialect;
use pine_sema::legacy_calls::{analyze_legacy_iff, analyze_legacy_offset, analyze_legacy_rsi_series};
use pine_sema::legacy_na::validate_pending_legacy_v3_na_declarations;
use pine_sema::syntax::Span;
use pine_sema::type_rules::HistoryOffsetIssue;
use pine_sema::types::{PineType, Qualifier, ValueKind};

fn at(start: usize) -> Span {
    Span { start, end: start + 1 }
}

fn ty(qualifier: Qualifier, kind: ValueKind) -> PineType {
    PineType { qualifier, kind }
}

#[test]
fn legacy_iff_merges_scalar_branches() {
    let mut diags = Vec::new();
    let r = analyze_legacy_iff(
        PineDialect::V3,
        ty(Qualifier::Series, ValueKind::Bool),
        ty(Qualifier::Const, ValueKind::Int),
        ty(Qualifier::Simple, ValueKind::Float),
        at(0),
        None,
        at(9),
        &mut diags,
    );
    assert!(diags.is_empty());
    assert_eq!(r.ok(), Some(Some(ty(Qualifier::Series, ValueKind::Float))));
}

#[test]
fn legacy_iff_rejects_non_scalar_branches_after_checking_the_condition() {
    let mut diags = Vec::new();
    let r = analyze_legacy_iff(
        PineDialect::V6,
        ty(Qualifier::Const, ValueKind::String),
        ty(Qualifier::Series, ValueKind::Label),
        ty(Qualifier::Series, ValueKind::Int),
        at(0),
        None,
        at(9),
        &mut diags,
    );
    assert_eq!(diags.len(), 1);
    assert_eq!(diags[0].code, "E_CONDITION_TYPE");
    let u = r.err().unwrap();
    assert_eq!(u.feature, "iff.result");
    assert_eq!(u.span, at(9));
}

#[test]
fn legacy_iff_reports_incompatible_branches() {
    let mut diags = Vec::new();
    let r = analyze_legacy_iff(
        PineDialect::V4,
        ty(Qualifier::Series, ValueKind::Bool),
        ty(Qualifier::Const, ValueKind::String),
        ty(Qualifier::Const, ValueKind::Int),
        at(0),
        Some(true),
        at(9),
        &mut diags,
    );
    assert_eq!(r.ok(), Some(None));
    assert_eq!(diags[0].code, "E_BRANCH_TYPE");
}

#[test]
fn legacy_offset_types() {
    let r = analyze_legacy_offset(ty(Qualifier::Const, ValueKind::Float), at(0), Some(2), ty(Qualifier::Const, ValueKind::Int));
    assert_eq!(r.ok(), Some((ty(Qualifier::Series, ValueKind::Float), None)));
    let r = analyze_legacy_offset(ty(Qualifier::Series, ValueKind::Int), at(0), Some(-1), ty(Qualifier::Const, ValueKind::Int));
    assert_eq!(r.ok(), Some((ty(Qualifier::Series, ValueKind::Int), Some(HistoryOffsetIssue::Negative))));
    let r = analyze_legacy_offset(ty(Qualifier::Series, ValueKind::Tuple), at(3), Some(1), ty(Qualifier::Const, ValueKind::Int));
    let u = r.err().unwrap();
    assert_eq!((u.feature, u.span), ("offset.source", at(3)));
}

#[test]
fn legacy_rsi_series_overload() {
    let mut diags = Vec::new();
    let ok = analyze_legacy_rsi_series(ty(Qualifier::Series, ValueKind::Float), ty(Qualifier::Const, ValueKind::Int), at(0), &mut diags);
    assert_eq!(ok, Some(ty(Qualifier::Series, ValueKind::Float)));
    assert!(diags.is_empty());
    let bad = analyze_legacy_rsi_series(ty(Qualifier::Simple, ValueKind::Float), ty(Qualifier::Const, ValueKind::Int), at(5), &mut diags);
    assert_eq!(bad, None);
    assert_eq!(diags[0].code, "E_LEGACY_RSI_OVERLOAD");
    assert_eq!(diags[0].span, at(5));
}

#[test]
fn pending_na_declarations_are_reported_once_in_source_order() {
    let spans = vec![
        Span { start: 9, end: 12 },
        Span { start: 2, end: 5 },
        Span { start: 9, end: 10 },
        Span { start: 2, end: 5 },
    ];
    let mut diags = Vec::new();
    let reported = validate_pending_legacy_v3_na_declarations(&spans, &mut diags);
    let expected = vec![Span { start: 2, end: 5 }, Span { start: 9, end: 10 }, Span { start: 9, end: 12 }];
    assert_eq!(reported, expected);
    assert_eq!(diags.iter().map(|d| d.span).collect::<Vec<_>>(), expected);
    assert!(diags.iter().all(|d| d.code == "E_LEGACY_V3_NA_INFERENCE"));
    let mut reversed = spans.clone();
    reversed.reverse();
    let mut again = Vec::new();
    assert_eq!(validate_pending_legacy_v3_na_declarations(&reversed, &mut again), expected);
}
