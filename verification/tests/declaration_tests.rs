use pine_sema::diagnostics::Diagnostic;
use pine_sema::dialect::PineDialect;
use pine_sema::strategy_declaration::{
    strategy_positional_param, validate_strategy_declaration_args, BoundCheck, CloseEntriesRule,
    CommissionKind, QuantityKind,
};
use pine_sema::known_args::{KnownArg, NumberFacts};
use pine_sema::syntax::Span;

fn at(start: usize) -> Span {
    Span { start, end: start + 1 }
}

fn blank(name: Option<&str>, start: usize) -> KnownArg {
    KnownArg {
        name: name.map(|n| n.to_string()),
        span: at(start),
        number: None,
        text: None,
        flag: None,
        int_value: None,
    }
}

fn facts(v: f64) -> NumberFacts {
    NumberFacts {
        finite: v.is_finite(),
        positive: v > 0.0,
        negative: v < 0.0,
        integral: v.fract() == 0.0,
        fits_usize: v <= usize::MAX as f64,
        over_hundred: v > 100.0,
    }
}

fn number(name: &str, start: usize, v: f64) -> KnownArg {
    KnownArg { number: Some(facts(v)), ..blank(Some(name), start) }
}

fn text(name: &str, start: usize, s: &str) -> KnownArg {
    KnownArg { text: Some(s.to_string()), ..blank(Some(name), start) }
}

fn messages(diags: &[Diagnostic]) -> Vec<String> {
    diags.iter().map(|d| d.message.clone()).collect()
}

#[test]
fn declaration_positional_parameters_follow_the_signature() {
    assert_eq!(strategy_positional_param(0), Some("title"));
    assert_eq!(strategy_positional_param(4), Some("initial_capital"));
    assert_eq!(strategy_positional_param(25), Some("precision"));
    assert_eq!(strategy_positional_param(26), None);
}

#[test]
fn declaration_accepts_valid_settings() {
    let args = vec![
        number("initial_capital", 1, 5000.0),
        text("default_qty_type", 2, "strategy.percent_of_equity"),
        number("default_qty_value", 3, 10.0),
        text("commission_type", 4, "strategy.commission.percent"),
        number("commission_value", 5, 0.1),
        number("slippage", 6, 2.0),
        number("pyramiding", 7, 3.0),
        text("close_entries_rule", 8, "ANY"),
        KnownArg { flag: Some(true), ..blank(Some("calc_on_every_tick"), 9) },
    ];
    let mut diags = Vec::new();
    let plan = validate_strategy_declaration_args(&args, PineDialect::V5, &mut diags);
    assert!(diags.is_empty());
    assert_eq!(plan.settings.initial_capital, Some(0));
    assert_eq!(plan.settings.slippage, Some(5));
    assert_eq!(plan.settings.pyramiding, Some(6));
    assert_eq!(plan.settings.close_entries_rule, Some(CloseEntriesRule::Any));
    assert_eq!(plan.settings.calc_on_every_tick, Some(true));
    assert_eq!(plan.default_qty, Some((QuantityKind::PercentOfEquity, Some(2))));
    assert_eq!(plan.commission, Some((CommissionKind::Percent, Some(4))));
    assert!(plan.checks.is_empty());
}

#[test]
fn declaration_rejects_out_of_range_numbers() {
    let args = vec![
        number("initial_capital", 1, 0.0),
        number("slippage", 2, 1.5),
        number("margin_short", 3, -1.0),
        number("pyramiding", 4, 0.0),
        number("backtest_fill_limits_assumption", 5, f64::INFINITY),
    ];
    let mut diags = Vec::new();
    let plan = validate_strategy_declaration_args(&args, PineDialect::V6, &mut diags);
    assert_eq!(
        messages(&diags),
        vec![
            "`strategy` argument `initial_capital` must be positive",
            "`strategy` argument `slippage` must be a non-negative integer",
            "`strategy` argument `margin_short` must be non-negative",
            "`strategy` argument `pyramiding` must be a positive integer",
            "`strategy` argument `backtest_fill_limits_assumption` must be a non-negative integer",
        ]
    );
    assert!(diags.iter().all(|d| d.code == "E_CALL_ARG_VALUE"));
    assert_eq!(diags[2].span, at(3));
    assert_eq!(plan.settings.initial_capital, None);
    assert_eq!(plan.settings.margin_short, None);
}

#[test]
fn declaration_rejects_unsupported_strings() {
    let args = vec![
        text("currency", 1, "USD"),
        text("default_qty_type", 2, "strategy.lots"),
        text("commission_type", 3, "strategy.commission.flat"),
        text("close_entries_rule", 4, "LIFO"),
        text("format", 5, "format.mintick"),
        text("format", 6, "format.price"),
        text("currency", 7, "NONE"),
    ];
    let mut diags = Vec::new();
    let plan = validate_strategy_declaration_args(&args, PineDialect::V6, &mut diags);
    assert_eq!(diags.len(), 5);
    assert_eq!(
        diags[3].message,
        "`strategy` argument `close_entries_rule` only supports \"FIFO\" or \"ANY\""
    );
    assert_eq!(plan.default_qty, None);
    assert_eq!(plan.commission, None);
}

#[test]
fn declaration_default_quantity_rules() {
    let mut diags = Vec::new();
    let only_type = vec![text("default_qty_type", 1, "strategy.cash")];
    let plan = validate_strategy_declaration_args(&only_type, PineDialect::V6, &mut diags);
    assert_eq!(plan.default_qty, Some((QuantityKind::Cash, None)));

    let only_value = vec![number("default_qty_value", 1, 2.0)];
    let plan = validate_strategy_declaration_args(&only_value, PineDialect::V6, &mut diags);
    assert_eq!(plan.default_qty, Some((QuantityKind::Fixed, Some(0))));

    let unknown_value = vec![text("default_qty_type", 1, "strategy.fixed"), blank(Some("default_qty_value"), 2)];
    let plan = validate_strategy_declaration_args(&unknown_value, PineDialect::V6, &mut diags);
    assert_eq!(plan.default_qty, None);
    assert!(diags.is_empty());
}

#[test]
fn declaration_commission_value_needs_a_type() {
    let args = vec![number("commission_value", 7, 1.0)];
    let mut diags = Vec::new();
    let plan = validate_strategy_declaration_args(&args, PineDialect::V6, &mut diags);
    assert_eq!(
        messages(&diags),
        vec!["`strategy` argument `commission_value` requires a supported commission_type"]
    );
    assert_eq!(diags[0].span, at(7));
    assert_eq!(plan.commission, None);

    let typed = vec![text("commission_type", 1, "strategy.commission.cash_per_order")];
    let plan = validate_strategy_declaration_args(&typed, PineDialect::V6, &mut diags);
    assert_eq!(plan.commission, Some((CommissionKind::CashPerOrder, None)));
}

#[test]
fn declaration_bar_magnifier_and_precision() {
    let mut args: Vec<KnownArg> = (0..23).map(|i| blank(None, i)).collect();
    args.push(KnownArg { flag: Some(true), ..blank(None, 23) });
    let mut diags = Vec::new();
    let plan = validate_strategy_declaration_args(&args, PineDialect::V6, &mut diags);
    assert_eq!(diags.len(), 1);
    assert_eq!(diags[0].code, "E_CALL_ARG_NAME");
    assert_eq!(plan.settings.use_bar_magnifier, None);
    assert_eq!(plan.checks, vec![(3, BoundCheck::MaxBarsBack), (15, BoundCheck::DrawingCount(500)),
        (16, BoundCheck::DrawingCount(500)), (17, BoundCheck::DrawingCount(500)), (18, BoundCheck::DrawingCount(100))]);

    let named = vec![KnownArg { flag: Some(false), ..blank(Some("use_bar_magnifier"), 1) }];
    let mut diags = Vec::new();
    let plan = validate_strategy_declaration_args(&named, PineDialect::V4, &mut diags);
    assert_eq!(plan.checks, vec![(0, BoundCheck::UnavailableBefore(5))]);
    let plan = validate_strategy_declaration_args(&named, PineDialect::V5, &mut diags);
    assert_eq!(plan.settings.use_bar_magnifier, Some(false));
    assert!(diags.is_empty());

    let precision = vec![
        KnownArg { int_value: Some(Ok(17)), ..blank(Some("precision"), 1) },
        KnownArg { int_value: Some(Err(())), ..blank(Some("precision"), 2) },
        KnownArg { int_value: Some(Ok(16)), ..blank(Some("precision"), 3) },
    ];
    validate_strategy_declaration_args(&precision, PineDialect::V6, &mut diags);
    assert_eq!(
        messages(&diags),
        vec![
            "`strategy` argument `precision` must be between 0 and 16",
            "`strategy` argument `precision` must be between 0 and 16",
        ]
    );
}

#[test]
fn declaration_arguments_past_the_parameters_are_ignored() {
    let mut n = 0;
    while strategy_positional_param(n).is_some() {
        n += 1;
    }
    let mut args: Vec<KnownArg> = (0..n).map(|i| blank(None, i)).collect();
    let mut d1 = Vec::new();
    let plan1 = validate_strategy_declaration_args(&args, PineDialect::V5, &mut d1);
    args.push(KnownArg { number: Some(facts(-5.0)), int_value: Some(Ok(-5)), ..blank(None, n) });
    let mut d2 = Vec::new();
    let plan2 = validate_strategy_declaration_args(&args, PineDialect::V5, &mut d2);
    assert_eq!(messages(&d1), messages(&d2));
    assert_eq!(plan1.checks.len(), plan2.checks.len());
}
