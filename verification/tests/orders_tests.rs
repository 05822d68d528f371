use pine_sema::diagnostics::Diagnostic;
use pine_sema::known_args::{KnownArg, NumberFacts};
use pine_sema::strategy_orders::{
    validate_strategy_close_args, validate_strategy_entry_args, validate_strategy_order_args,
    validate_strategy_risk_allow_entry_in_args, validate_strategy_risk_max_cons_loss_days_args,
    validate_strategy_risk_max_drawdown_args, validate_strategy_risk_max_intraday_filled_orders_args,
    validate_strategy_risk_max_intraday_loss_args, validate_strategy_risk_max_position_size_args,
};
use pine_sema::syntax::Span;

fn at(start: usize) -> Span {
    Span { start, end: start + 1 }
}

fn blank(name: Option<&str>, start: usize) -> KnownArg {
    KnownArg { name: name.map(|n| n.to_string()), span: at(start), number: None, text: None, flag: None, int_value: None }
}

fn facts(v: f64) -> NumberFacts {
    NumberFacts {
        finite: v.is_finite(),
        positive: v > 0.0,
        negative: v < 0.0,
        integral: v.fract() == 0.0,
        fits_usize: v <= usize::MAX as f64,
        over_hundred: v > 100.0,
    }
}

fn number(name: Option<&str>, start: usize, v: f64) -> KnownArg {
    KnownArg { number: Some(facts(v)), ..blank(name, start) }
}

fn text(name: Option<&str>, start: usize, s: &str) -> KnownArg {
    KnownArg { text: Some(s.to_string()), ..blank(name, start) }
}

fn messages(diags: &[Diagnostic]) -> Vec<&str> {
    diags.iter().map(|d| d.message.as_str()).collect()
}

#[test]
fn entry_direction_and_quantities() {
    let args = vec![
        blank(None, 0),
        text(None, 1, "strategy.sideways"),
        number(None, 2, -1.0),
        number(None, 3, f64::INFINITY),
        number(Some("stop"), 4, 2.0),
        text(Some("oca_type"), 5, "strategy.oca.cancel"),
    ];
    let mut diags = Vec::new();
    validate_strategy_entry_args(&args, &mut diags);
    assert_eq!(
        messages(&diags),
        vec![
            "`strategy.entry` argument `direction` only supports strategy.long or strategy.short",
            "`strategy.entry` argument `qty` must be positive",
            "`strategy.entry` argument `limit` must be positive",
        ]
    );
    assert_eq!(diags[1].span, at(2));
}

#[test]
fn entry_quantity_rule_lets_infinity_and_nan_through() {
    let args = vec![number(Some("qty"), 0, f64::INFINITY), number(Some("qty"), 1, f64::NAN), number(Some("qty"), 2, 0.0)];
    let mut diags = Vec::new();
    validate_strategy_entry_args(&args, &mut diags);
    assert_eq!(diags.len(), 1);
    assert_eq!(diags[0].span, at(2));
}

#[test]
fn entry_oca_type_must_be_known_and_supported() {
    let args = vec![blank(Some("oca_type"), 0), text(Some("oca_type"), 1, "strategy.oca.reduce")];
    let mut diags = Vec::new();
    validate_strategy_entry_args(&args, &mut diags);
    assert_eq!(
        messages(&diags),
        vec!["`strategy.entry` argument `oca_type` only supports strategy.oca.none, strategy.oca.cancel, or strategy.oca.reduce"]
    );
}

#[test]
fn order_short_without_quantity_is_reported_first() {
    let args = vec![blank(None, 0), text(None, 1, "strategy.short"), number(Some("limit"), 2, -3.0)];
    let mut diags = Vec::new();
    validate_strategy_order_args(&args, &mut diags);
    assert_eq!(
        messages(&diags),
        vec![
            "`strategy.order` reduce-only strategy.short requires an explicit positive qty",
            "`strategy.order` argument `limit` must be positive",
        ]
    );
    assert_eq!(diags[0].span, at(1));
    let with_qty = vec![blank(None, 0), text(None, 1, "strategy.short"), number(None, 2, f64::INFINITY)];
    let mut diags = Vec::new();
    validate_strategy_order_args(&with_qty, &mut diags);
    assert_eq!(messages(&diags), vec!["`strategy.order` argument `qty` must be finite and positive"]);
}

#[test]
fn close_extra_positional_arguments_must_be_named() {
    let args = vec![blank(None, 0), blank(None, 1), number(Some("qty_percent"), 2, 0.0)];
    let mut diags = Vec::new();
    validate_strategy_close_args(&args, &mut diags);
    assert_eq!(
        messages(&diags),
        vec![
            "`strategy.close` partial quantity arguments must be named arguments",
            "`strategy.close` argument `qty_percent` must be finite and positive",
        ]
    );
    assert_eq!(diags[0].code, "E_CALL_ARG_NAME");
}

#[test]
fn risk_checks() {
    let mut diags = Vec::new();
    validate_strategy_risk_allow_entry_in_args(&vec![text(None, 0, "strategy.direction.up")], &mut diags);
    validate_strategy_risk_max_drawdown_args(
        &vec![number(None, 1, 150.0), text(None, 2, "strategy.percent_of_equity")],
        &mut diags,
    );
    validate_strategy_risk_max_intraday_loss_args(
        &vec![number(None, 3, 150.0), text(None, 4, "strategy.pips")],
        &mut diags,
    );
    validate_strategy_risk_max_cons_loss_days_args(&vec![number(None, 5, 2.5)], &mut diags);
    validate_strategy_risk_max_intraday_filled_orders_args(&vec![number(None, 6, 3.0)], &mut diags);
    validate_strategy_risk_max_position_size_args(&vec![number(None, 7, 0.0)], &mut diags);
    assert_eq!(
        messages(&diags),
        vec![
            "`strategy.risk.allow_entry_in` argument `value` only supports strategy.direction.all, strategy.direction.long, or strategy.direction.short",
            "`strategy.risk.max_drawdown` percent `value` must be at most 100",
            "`strategy.risk.max_intraday_loss` argument `type` only supports strategy.cash or strategy.percent_of_equity",
            "`strategy.risk.max_cons_loss_days` argument `count` must be a finite positive integer",
            "`strategy.risk.max_position_size` argument `contracts` must be finite and positive",
        ]
    );
    assert_eq!(diags[2].span, at(4));
}
