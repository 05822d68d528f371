//! The arguments of a `strategy(...)` declaration: which parameter each
//! argument stands for, which known values are refused, and which settings
//! the accepted ones fix.
use vstd::prelude::*;
use vstd::string::*;
use crate::builtin_args::DiagView;
use crate::diagnostics::{Diagnostic, Severity, diag_view, diag_views};
use crate::dialect::{PineDialect, dialect_number, dialect_version};
use crate::syntax::Span;
use crate::known_args::{
    KnownArg, NumberFacts, is_non_negative, is_non_negative_whole, is_positive, is_positive_count,
};
use crate::text::str_eq;

verus! {

#[derive(Clone, Copy, Debug, PartialEq, Eq, Structural)]
pub enum QuantityKind {
    Fixed,
    Cash,
    PercentOfEquity,
}

#[derive(Clone, Copy, Debug, PartialEq, Eq, Structural)]
pub enum CommissionKind {
    CashPerContract,
    CashPerOrder,
    Percent,
}

#[derive(Clone, Copy, Debug, PartialEq, Eq, Structural)]
pub enum CloseEntriesRule {
    Fifo,
    Any,
}

/// A check of an argument that other rules of the analyzer make: the bound
/// of `max_bars_back`, the limit of a drawing count, or a parameter that is
/// not available before a language version.
#[derive(Clone, Copy, Debug, PartialEq, Eq, Structural)]
pub enum BoundCheck {
    MaxBarsBack,
    DrawingCount(u32),
    UnavailableBefore(u8),
}

/// What the arguments read so far have fixed.  A setting holds the index of
/// the argument whose value it takes; the `_arg` fields record that such an
/// argument was given at all, known or not.
#[derive(Clone, Copy, Debug, PartialEq, Eq, Structural)]
pub struct DeclarationScan {
    pub initial_capital: Option<usize>,
    pub slippage: Option<usize>,
    pub backtest_fill_limits: Option<usize>,
    pub margin_long: Option<usize>,
    pub margin_short: Option<usize>,
    pub pyramiding: Option<usize>,
    pub close_entries_rule: Option<CloseEntriesRule>,
    pub process_orders_on_close: Option<bool>,
    pub calc_on_order_fills: Option<bool>,
    pub calc_on_every_tick: Option<bool>,
    pub use_bar_magnifier: Option<bool>,
    pub qty_type_arg: Option<usize>,
    pub qty_kind: Option<QuantityKind>,
    pub qty_value_arg: Option<usize>,
    pub qty_value: Option<usize>,
    pub commission_type_arg: Option<usize>,
    pub commission_kind: Option<CommissionKind>,
    pub commission_value_arg: Option<usize>,
    pub commission_value: Option<usize>,
}

/// The outcome of a declaration's arguments: the settings they fix, the
/// default quantity and the commission (with the index of the argument that
/// gives the amount; none stands for one unit of quantity and for no
/// commission), and the checks left to other rules, in argument order.
pub struct StrategyDeclarationPlan {
    pub settings: DeclarationScan,
    pub default_qty: Option<(QuantityKind, Option<usize>)>,
    pub commission: Option<(CommissionKind, Option<usize>)>,
    pub checks: Vec<(usize, BoundCheck)>,
}

/// The parameters of `strategy(...)` in positional order.
pub open spec fn strategy_declaration_params() -> Seq<Seq<char>> {
    seq![
        "title"@, "shorttitle"@, "overlay"@, "max_bars_back"@, "initial_capital"@,
        "default_qty_type"@, "default_qty_value"@, "commission_type"@, "commission_value"@,
        "slippage"@, "backtest_fill_limits_assumption"@, "margin_long"@, "margin_short"@,
        "pyramiding"@, "close_entries_rule"@, "max_labels_count"@, "max_boxes_count"@,
        "max_lines_count"@, "max_polylines_count"@, "currency"@, "process_orders_on_close"@,
        "calc_on_order_fills"@, "calc_on_every_tick"@, "use_bar_magnifier"@, "format"@,
        "precision"@,
    ]
}

/// The parameter a positional argument at `index` stands for.
pub fn strategy_positional_param(index: usize) -> (r: Option<&'static str>)
    ensures
        match r {
            Some(p) => index < strategy_declaration_params().len() && p@ == strategy_declaration_params()[
                index as int],
            None => index >= strategy_declaration_params().len(),
        },
{
    match index {
        0 => Some("title"),
        1 => Some("shorttitle"),
        2 => Some("overlay"),
        3 => Some("max_bars_back"),
        4 => Some("initial_capital"),
        5 => Some("default_qty_type"),
        6 => Some("default_qty_value"),
        7 => Some("commission_type"),
        8 => Some("commission_value"),
        9 => Some("slippage"),
        10 => Some("backtest_fill_limits_assumption"),
        11 => Some("margin_long"),
        12 => Some("margin_short"),
        13 => Some("pyramiding"),
        14 => Some("close_entries_rule"),
        15 => Some("max_labels_count"),
        16 => Some("max_boxes_count"),
        17 => Some("max_lines_count"),
        18 => Some("max_polylines_count"),
        19 => Some("currency"),
        20 => Some("process_orders_on_close"),
        21 => Some("calc_on_order_fills"),
        22 => Some("calc_on_every_tick"),
        23 => Some("use_bar_magnifier"),
        24 => Some("format"),
        25 => Some("precision"),
        _ => None,
    }
}

/// The parameter an argument stands for: its own name, or its position.
pub open spec fn declaration_arg_name(index: int, arg: KnownArg) -> Option<Seq<char>> {
    match arg.name {
        Some(n) => Some(n@),
        None => if 0 <= index < strategy_declaration_params().len() {
            Some(strategy_declaration_params()[index])
        } else {
            None
        },
    }
}

pub open spec fn value_diag(message: Seq<char>, span: Span) -> DiagView {
    (Severity::Error, "E_CALL_ARG_VALUE"@, message, span)
}

/// What one argument gives: the new state, what it reports, and which
/// checks it leaves to other rules.
pub type ScanStep = (DeclarationScan, Seq<DiagView>, Seq<(usize, BoundCheck)>);

pub open spec fn unchanged(scan: DeclarationScan) -> ScanStep {
    (scan, Seq::empty(), Seq::empty())
}

pub open spec fn refused(scan: DeclarationScan, message: Seq<char>, span: Span) -> ScanStep {
    (scan, seq![value_diag(message, span)], Seq::empty())
}

pub open spec fn checked_by_rule(scan: DeclarationScan, index: int, check: BoundCheck) -> ScanStep {
    (scan, Seq::empty(), seq![(index as usize, check)])
}

pub open spec fn quantity_kind_named(s: Seq<char>) -> Option<QuantityKind> {
    if s == "strategy.fixed"@ {
        Some(QuantityKind::Fixed)
    } else if s == "strategy.cash"@ {
        Some(QuantityKind::Cash)
    } else if s == "strategy.percent_of_equity"@ {
        Some(QuantityKind::PercentOfEquity)
    } else {
        None
    }
}

pub open spec fn commission_kind_named(s: Seq<char>) -> Option<CommissionKind> {
    if s == "strategy.commission.cash_per_contract"@ {
        Some(CommissionKind::CashPerContract)
    } else if s == "strategy.commission.cash_per_order"@ {
        Some(CommissionKind::CashPerOrder)
    } else if s == "strategy.commission.percent"@ {
        Some(CommissionKind::Percent)
    } else {
        None
    }
}

pub open spec fn close_rule_named(s: Seq<char>) -> Option<CloseEntriesRule> {
    if s == "FIFO"@ {
        Some(CloseEntriesRule::Fifo)
    } else if s == "ANY"@ {
        Some(CloseEntriesRule::Any)
    } else {
        None
    }
}

pub open spec fn is_supported_format(s: Seq<char>) -> bool {
    s == "format.inherit"@ || s == "format.price"@ || s == "format.percent"@ || s == "format.volume"@
}

/// The arguments whose known value is a number.
pub open spec fn number_step(scan: DeclarationScan, index: int, arg: KnownArg, name: Seq<char>) -> ScanStep {
    let i = index as usize;
    if name == "initial_capital"@ {
        match arg.number {
            None => unchanged(scan),
            Some(f) => if is_positive(f) {
                unchanged(DeclarationScan { initial_capital: Some(i), ..scan })
            } else {
                refused(scan, "`strategy` argument `initial_capital` must be positive"@, arg.span)
            },
        }
    } else if name == "default_qty_value"@ {
        let scan = DeclarationScan { qty_value_arg: Some(i), ..scan };
        match arg.number {
            None => unchanged(scan),
            Some(f) => if is_positive(f) {
                unchanged(DeclarationScan { qty_value: Some(i), ..scan })
            } else {
                refused(scan, "`strategy` argument `default_qty_value` must be positive"@, arg.span)
            },
        }
    } else if name == "commission_value"@ {
        let scan = DeclarationScan { commission_value_arg: Some(i), ..scan };
        match arg.number {
            None => unchanged(scan),
            Some(f) => if is_non_negative(f) {
                unchanged(DeclarationScan { commission_value: Some(i), ..scan })
            } else {
                refused(scan, "`strategy` argument `commission_value` must be non-negative"@, arg.span)
            },
        }
    } else if name == "slippage"@ {
        match arg.number {
            None => unchanged(scan),
            Some(f) => if is_non_negative_whole(f) {
                unchanged(DeclarationScan { slippage: Some(i), ..scan })
            } else {
                refused(scan, "`strategy` argument `slippage` must be a non-negative integer"@, arg.span)
            },
        }
    } else if name == "backtest_fill_limits_assumption"@ {
        match arg.number {
            None => unchanged(scan),
            Some(f) => if is_non_negative_whole(f) {
                unchanged(DeclarationScan { backtest_fill_limits: Some(i), ..scan })
            } else {
                refused(
                    scan,
                    "`strategy` argument `backtest_fill_limits_assumption` must be a non-negative integer"@,
                    arg.span,
                )
            },
        }
    } else if name == "margin_long"@ || name == "margin_short"@ {
        match arg.number {
            None => unchanged(scan),
            Some(f) => if is_non_negative(f) {
                if name == "margin_long"@ {
                    unchanged(DeclarationScan { margin_long: Some(i), ..scan })
                } else {
                    unchanged(DeclarationScan { margin_short: Some(i), ..scan })
                }
            } else {
                refused(scan, "`strategy` argument `"@ + name + "` must be non-negative"@, arg.span)
            },
        }
    } else {
        // pyramiding
        match arg.number {
            None => unchanged(scan),
            Some(f) => if is_positive_count(f) {
                unchanged(DeclarationScan { pyramiding: Some(i), ..scan })
            } else {
                refused(scan, "`strategy` argument `pyramiding` must be a positive integer"@, arg.span)
            },
        }
    }
}

/// Whether `name` is one of the arguments of `number_step`.
pub open spec fn is_number_param(name: Seq<char>) -> bool {
    name == "initial_capital"@ || name == "default_qty_value"@ || name == "commission_value"@
        || name == "slippage"@ || name == "backtest_fill_limits_assumption"@ || name == "margin_long"@
        || name == "margin_short"@ || name == "pyramiding"@
}

/// The arguments whose known value is a string.
pub open spec fn text_step(scan: DeclarationScan, index: int, arg: KnownArg, name: Seq<char>) -> ScanStep {
    let i = index as usize;
    if name == "currency"@ {
        match arg.text {
            Some(s) => if s@ != "NONE"@ {
                refused(
                    scan,
                    "`strategy` argument `currency` only supports currency.NONE in the current no-conversion subset"@,
                    arg.span,
                )
            } else {
                unchanged(scan)
            },
            None => unchanged(scan),
        }
    } else if name == "default_qty_type"@ {
        let scan = DeclarationScan { qty_type_arg: Some(i), ..scan };
        match arg.text {
            None => unchanged(scan),
            Some(s) => match quantity_kind_named(s@) {
                Some(k) => unchanged(DeclarationScan { qty_kind: Some(k), ..scan }),
                None => refused(
                    scan,
                    "`strategy` argument `default_qty_type` only supports strategy.fixed, strategy.cash, or strategy.percent_of_equity"@,
                    arg.span,
                ),
            },
        }
    } else if name == "commission_type"@ {
        let scan = DeclarationScan { commission_type_arg: Some(i), ..scan };
        match arg.text {
            None => unchanged(scan),
            Some(s) => match commission_kind_named(s@) {
                Some(k) => unchanged(DeclarationScan { commission_kind: Some(k), ..scan }),
                None => refused(
                    scan,
                    "`strategy` argument `commission_type` only supports strategy.commission.cash_per_contract, strategy.commission.cash_per_order, or strategy.commission.percent"@,
                    arg.span,
                ),
            },
        }
    } else if name == "close_entries_rule"@ {
        match arg.text {
            None => unchanged(scan),
            Some(s) => match close_rule_named(s@) {
                Some(rule) => unchanged(DeclarationScan { close_entries_rule: Some(rule), ..scan }),
                None => refused(
                    scan,
                    "`strategy` argument `close_entries_rule` only supports \"FIFO\" or \"ANY\""@,
                    arg.span,
                ),
            },
        }
    } else {
        // format
        match arg.text {
            Some(s) => if !is_supported_format(s@) {
                refused(
                    scan,
                    "`strategy` argument `format` only supports format.inherit, format.price, format.percent, format.volume"@,
                    arg.span,
                )
            } else {
                unchanged(scan)
            },
            None => unchanged(scan),
        }
    }
}

pub open spec fn is_text_param(name: Seq<char>) -> bool {
    name == "currency"@ || name == "default_qty_type"@ || name == "commission_type"@
        || name == "close_entries_rule"@ || name == "format"@
}

/// The remaining arguments: those checked by other rules, the flags and the
/// precision.
pub open spec fn other_step(
    scan: DeclarationScan,
    index: int,
    arg: KnownArg,
    name: Seq<char>,
    dialect: PineDialect,
) -> ScanStep {
    if name == "max_bars_back"@ {
        checked_by_rule(scan, index, BoundCheck::MaxBarsBack)
    } else if name == "max_labels_count"@ || name == "max_boxes_count"@ || name == "max_lines_count"@ {
        checked_by_rule(scan, index, BoundCheck::DrawingCount(500))
    } else if name == "max_polylines_count"@ {
        checked_by_rule(scan, index, BoundCheck::DrawingCount(100))
    } else if name == "process_orders_on_close"@ {
        match arg.flag {
            Some(b) => unchanged(DeclarationScan { process_orders_on_close: Some(b), ..scan }),
            None => unchanged(scan),
        }
    } else if name == "calc_on_order_fills"@ {
        match arg.flag {
            Some(b) => unchanged(DeclarationScan { calc_on_order_fills: Some(b), ..scan }),
            None => unchanged(scan),
        }
    } else if name == "calc_on_every_tick"@ {
        match arg.flag {
            Some(b) => unchanged(DeclarationScan { calc_on_every_tick: Some(b), ..scan }),
            None => unchanged(scan),
        }
    } else if name == "use_bar_magnifier"@ {
        if arg.name is None {
            (
                scan,
                seq![
                    (
                        Severity::Error,
                        "E_CALL_ARG_NAME"@,
                        "`strategy` argument `use_bar_magnifier` must be named in the current subset"@,
                        arg.span,
                    ),
                ],
                Seq::empty(),
            )
        } else if dialect_version(dialect) < 5 {
            checked_by_rule(scan, index, BoundCheck::UnavailableBefore(5))
        } else {
            match arg.flag {
                Some(b) => unchanged(DeclarationScan { use_bar_magnifier: Some(b), ..scan }),
                None => unchanged(scan),
            }
        }
    } else if name == "precision"@ {
        match arg.int_value {
            Some(Ok(v)) => if !(0 <= v <= 16) {
                refused(scan, "`strategy` argument `precision` must be between 0 and 16"@, arg.span)
            } else {
                unchanged(scan)
            },
            Some(Err(_)) => refused(scan, "`strategy` argument `precision` must be between 0 and 16"@, arg.span),
            None => unchanged(scan),
        }
    } else {
        unchanged(scan)
    }
}

/// What the argument at `index` gives.
pub open spec fn scan_step(scan: DeclarationScan, index: int, arg: KnownArg, dialect: PineDialect) -> ScanStep {
    match declaration_arg_name(index, arg) {
        None => unchanged(scan),
        Some(name) => if is_number_param(name) {
            number_step(scan, index, arg, name)
        } else if is_text_param(name) {
            text_step(scan, index, arg, name)
        } else {
            other_step(scan, index, arg, name, dialect)
        },
    }
}

pub open spec fn empty_scan() -> DeclarationScan {
    DeclarationScan {
        initial_capital: None,
        slippage: None,
        backtest_fill_limits: None,
        margin_long: None,
        margin_short: None,
        pyramiding: None,
        close_entries_rule: None,
        process_orders_on_close: None,
        calc_on_order_fills: None,
        calc_on_every_tick: None,
        use_bar_magnifier: None,
        qty_type_arg: None,
        qty_kind: None,
        qty_value_arg: None,
        qty_value: None,
        commission_type_arg: None,
        commission_kind: None,
        commission_value_arg: None,
        commission_value: None,
    }
}

/// The state, the reports and the checks left to other rules after all of
/// `args`, in order.
pub open spec fn scan_fold(args: Seq<KnownArg>, dialect: PineDialect) -> ScanStep
    decreases args.len(),
{
    if args.len() == 0 {
        (empty_scan(), Seq::empty(), Seq::empty())
    } else {
        let (scan, diags, checks) = scan_fold(args.drop_last(), dialect);
        let (next, more_diags, more_checks) = scan_step(scan, args.len() - 1, args.last(), dialect);
        (next, diags + more_diags, checks + more_checks)
    }
}

/// The default quantity the declaration fixes: its kind, given by a known
/// `default_qty_type`, with a known `default_qty_value` or, when that
/// argument is absent, one unit; or, without a `default_qty_type`, a fixed
/// quantity of a known `default_qty_value`.
pub open spec fn declared_default_qty(scan: DeclarationScan) -> Option<(QuantityKind, Option<usize>)> {
    if scan.qty_type_arg is Some {
        let amount: Option<Option<usize>> = if scan.qty_value_arg is Some {
            match scan.qty_value {
                Some(i) => Some(Some(i)),
                None => None,
            }
        } else {
            Some(None)
        };
        match (scan.qty_kind, amount) {
            (Some(k), Some(a)) => Some((k, a)),
            _ => None,
        }
    } else {
        match scan.qty_value {
            Some(i) => Some((QuantityKind::Fixed, Some(i))),
            None => None,
        }
    }
}

/// A `commission_value` without a `commission_type` is refused.
pub open spec fn commission_without_type(scan: DeclarationScan) -> bool {
    scan.commission_value_arg is Some && scan.commission_type_arg is None
}

/// The commission the declaration fixes: the known kind with the known
/// amount, or none.
pub open spec fn declared_commission(scan: DeclarationScan) -> Option<(CommissionKind, Option<usize>)> {
    if commission_without_type(scan) {
        None
    } else {
        match scan.commission_kind {
            Some(k) => Some((k, scan.commission_value)),
            None => None,
        }
    }
}

/// What is reported on the declaration as a whole.
pub open spec fn closing_diags(scan: DeclarationScan, args: Seq<KnownArg>) -> Seq<DiagView> {
    if commission_without_type(scan) {
        seq![
            value_diag(
                "`strategy` argument `commission_value` requires a supported commission_type"@,
                args[scan.commission_value_arg->0 as int].span,
            ),
        ]
    } else {
        Seq::empty()
    }
}

fn push_error(code: &str, message: String, span: Span, diagnostics: &mut Vec<Diagnostic>)
    ensures
        diag_views(final(diagnostics)@) == diag_views(old(diagnostics)@).push(
            (Severity::Error, code@, message@, span),
        ),
{
    let ghost before = diagnostics@;
    let d = Diagnostic::error(code, message, span);
    diagnostics.push(d);
    assert(diag_views(diagnostics@) =~= diag_views(before).push(diag_view(d)));
}

fn push_value_error(message: &str, span: Span, diagnostics: &mut Vec<Diagnostic>)
    ensures
        diag_views(final(diagnostics)@) == diag_views(old(diagnostics)@).push(value_diag(message@, span)),
{
    push_error("E_CALL_ARG_VALUE", String::from_str(message), span, diagnostics);
}

/// The effect of a step on the state, the reports and the checks.
pub open spec fn applied(
    step: ScanStep,
    diags: Seq<DiagView>,
    checks: Seq<(usize, BoundCheck)>,
) -> ScanStep {
    (step.0, diags + step.1, checks + step.2)
}

fn scan_number_arg(
    scan: &mut DeclarationScan,
    index: usize,
    arg: &KnownArg,
    name: &str,
    diagnostics: &mut Vec<Diagnostic>,
)
    requires
        is_number_param(name@),
    ensures
        ({
            let step = number_step(*old(scan), index as int, *arg, name@);
            &&& *final(scan) == step.0
            &&& diag_views(final(diagnostics)@) == diag_views(old(diagnostics)@) + step.1
            &&& step.2 == Seq::<(usize, BoundCheck)>::empty()
        }),
{
    let ghost start = diag_views(diagnostics@);
    if str_eq(name, "initial_capital") {
        if let Some(f) = arg.number {
            if f.finite && f.positive {
                scan.initial_capital = Some(index);
            } else {
                push_value_error("`strategy` argument `initial_capital` must be positive", arg.span, diagnostics);
            }
        }
    } else if str_eq(name, "default_qty_value") {
        scan.qty_value_arg = Some(index);
        if let Some(f) = arg.number {
            if f.finite && f.positive {
                scan.qty_value = Some(index);
            } else {
                push_value_error("`strategy` argument `default_qty_value` must be positive", arg.span, diagnostics);
            }
        }
    } else if str_eq(name, "commission_value") {
        scan.commission_value_arg = Some(index);
        if let Some(f) = arg.number {
            if f.finite && !f.negative {
                scan.commission_value = Some(index);
            } else {
                push_value_error("`strategy` argument `commission_value` must be non-negative", arg.span, diagnostics);
            }
        }
    } else if str_eq(name, "slippage") {
        if let Some(f) = arg.number {
            if f.finite && !f.negative && f.integral {
                scan.slippage = Some(index);
            } else {
                push_value_error("`strategy` argument `slippage` must be a non-negative integer", arg.span, diagnostics);
            }
        }
    } else if str_eq(name, "backtest_fill_limits_assumption") {
        if let Some(f) = arg.number {
            if f.finite && !f.negative && f.integral {
                scan.backtest_fill_limits = Some(index);
            } else {
                push_value_error(
                    "`strategy` argument `backtest_fill_limits_assumption` must be a non-negative integer",
                    arg.span,
                    diagnostics,
                );
            }
        }
    } else if str_eq(name, "margin_long") || str_eq(name, "margin_short") {
        if let Some(f) = arg.number {
            if f.finite && !f.negative {
                if str_eq(name, "margin_long") {
                    scan.margin_long = Some(index);
                } else {
                    scan.margin_short = Some(index);
                }
            } else {
                let mut message = String::from_str("`strategy` argument `");
                message.append(name);
                message.append("` must be non-negative");
                push_error("E_CALL_ARG_VALUE", message, arg.span, diagnostics);
            }
        }
    } else {
        if let Some(f) = arg.number {
            if f.finite && f.positive && f.integral && f.fits_usize {
                scan.pyramiding = Some(index);
            } else {
                push_value_error("`strategy` argument `pyramiding` must be a positive integer", arg.span, diagnostics);
            }
        }
    }
    proof {
        let step = number_step(*old(scan), index as int, *arg, name@);
        assert(diag_views(diagnostics@) =~= start + step.1);
    }
}

fn scan_text_arg(
    scan: &mut DeclarationScan,
    index: usize,
    arg: &KnownArg,
    name: &str,
    diagnostics: &mut Vec<Diagnostic>,
)
    requires
        is_text_param(name@),
    ensures
        ({
            let step = text_step(*old(scan), index as int, *arg, name@);
            &&& *final(scan) == step.0
            &&& diag_views(final(diagnostics)@) == diag_views(old(diagnostics)@) + step.1
            &&& step.2 == Seq::<(usize, BoundCheck)>::empty()
        }),
{
    let ghost start = diag_views(diagnostics@);
    if str_eq(name, "currency") {
        if let Some(s) = &arg.text {
            if !str_eq(s.as_str(), "NONE") {
                push_value_error(
                    "`strategy` argument `currency` only supports currency.NONE in the current no-conversion subset",
                    arg.span,
                    diagnostics,
                );
            }
        }
    } else if str_eq(name, "default_qty_type") {
        scan.qty_type_arg = Some(index);
        if let Some(s) = &arg.text {
            let t = s.as_str();
            if str_eq(t, "strategy.fixed") {
                scan.qty_kind = Some(QuantityKind::Fixed);
            } else if str_eq(t, "strategy.cash") {
                scan.qty_kind = Some(QuantityKind::Cash);
            } else if str_eq(t, "strategy.percent_of_equity") {
                scan.qty_kind = Some(QuantityKind::PercentOfEquity);
            } else {
                push_value_error(
                    "`strategy` argument `default_qty_type` only supports strategy.fixed, strategy.cash, or strategy.percent_of_equity",
                    arg.span,
                    diagnostics,
                );
            }
        }
    } else if str_eq(name, "commission_type") {
        scan.commission_type_arg = Some(index);
        if let Some(s) = &arg.text {
            let t = s.as_str();
            if str_eq(t, "strategy.commission.cash_per_contract") {
                scan.commission_kind = Some(CommissionKind::CashPerContract);
            } else if str_eq(t, "strategy.commission.cash_per_order") {
                scan.commission_kind = Some(CommissionKind::CashPerOrder);
            } else if str_eq(t, "strategy.commission.percent") {
                scan.commission_kind = Some(CommissionKind::Percent);
            } else {
                push_value_error(
                    "`strategy` argument `commission_type` only supports strategy.commission.cash_per_contract, strategy.commission.cash_per_order, or strategy.commission.percent",
                    arg.span,
                    diagnostics,
                );
            }
        }
    } else if str_eq(name, "close_entries_rule") {
        if let Some(s) = &arg.text {
            let t = s.as_str();
            if str_eq(t, "FIFO") {
                scan.close_entries_rule = Some(CloseEntriesRule::Fifo);
            } else if str_eq(t, "ANY") {
                scan.close_entries_rule = Some(CloseEntriesRule::Any);
            } else {
                push_value_error(
                    "`strategy` argument `close_entries_rule` only supports \"FIFO\" or \"ANY\"",
                    arg.span,
                    diagnostics,
                );
            }
        }
    } else {
        if let Some(s) = &arg.text {
            let t = s.as_str();
            if !(str_eq(t, "format.inherit") || str_eq(t, "format.price") || str_eq(t, "format.percent")
                || str_eq(t, "format.volume")) {
                push_value_error(
                    "`strategy` argument `format` only supports format.inherit, format.price, format.percent, format.volume",
                    arg.span,
                    diagnostics,
                );
            }
        }
    }
    proof {
        let step = text_step(*old(scan), index as int, *arg, name@);
        assert(diag_views(diagnostics@) =~= start + step.1);
    }
}

fn scan_other_arg(
    scan: &mut DeclarationScan,
    index: usize,
    arg: &KnownArg,
    name: &str,
    dialect: PineDialect,
    diagnostics: &mut Vec<Diagnostic>,
    checks: &mut Vec<(usize, BoundCheck)>,
)
    ensures
        ({
            let step = other_step(*old(scan), index as int, *arg, name@, dialect);
            &&& *final(scan) == step.0
            &&& diag_views(final(diagnostics)@) == diag_views(old(diagnostics)@) + step.1
            &&& final(checks)@ == old(checks)@ + step.2
        }),
{
    let ghost start = diag_views(diagnostics@);
    let ghost start_checks = checks@;
    if str_eq(name, "max_bars_back") {
        checks.push((index, BoundCheck::MaxBarsBack));
    } else if str_eq(name, "max_labels_count") || str_eq(name, "max_boxes_count") || str_eq(name, "max_lines_count") {
        checks.push((index, BoundCheck::DrawingCount(500)));
    } else if str_eq(name, "max_polylines_count") {
        checks.push((index, BoundCheck::DrawingCount(100)));
    } else if str_eq(name, "process_orders_on_close") {
        if let Some(b) = arg.flag {
            scan.process_orders_on_close = Some(b);
        }
    } else if str_eq(name, "calc_on_order_fills") {
        if let Some(b) = arg.flag {
            scan.calc_on_order_fills = Some(b);
        }
    } else if str_eq(name, "calc_on_every_tick") {
        if let Some(b) = arg.flag {
            scan.calc_on_every_tick = Some(b);
        }
    } else if str_eq(name, "use_bar_magnifier") {
        if arg.name.is_none() {
            push_error(
                "E_CALL_ARG_NAME",
                String::from_str("`strategy` argument `use_bar_magnifier` must be named in the current subset"),
                arg.span,
                diagnostics,
            );
        } else if dialect_number(dialect) < 5 {
            checks.push((index, BoundCheck::UnavailableBefore(5)));
        } else if let Some(b) = arg.flag {
            scan.use_bar_magnifier = Some(b);
        }
    } else if str_eq(name, "precision") {
        let out_of_range = match arg.int_value {
            Some(Ok(v)) => v < 0 || v > 16,
            Some(Err(_)) => true,
            None => false,
        };
        if out_of_range {
            push_value_error("`strategy` argument `precision` must be between 0 and 16", arg.span, diagnostics);
        }
    }
    proof {
        let step = other_step(*old(scan), index as int, *arg, name@, dialect);
        assert(diag_views(diagnostics@) =~= start + step.1);
        assert(checks@ =~= start_checks + step.2);
    }
}

fn is_number_param_name(name: &str) -> (r: bool)
    ensures
        r == is_number_param(name@),
{
    str_eq(name, "initial_capital") || str_eq(name, "default_qty_value") || str_eq(name, "commission_value")
        || str_eq(name, "slippage") || str_eq(name, "backtest_fill_limits_assumption") || str_eq(
        name,
        "margin_long",
    ) || str_eq(name, "margin_short") || str_eq(name, "pyramiding")
}

fn is_text_param_name(name: &str) -> (r: bool)
    ensures
        r == is_text_param(name@),
{
    str_eq(name, "currency") || str_eq(name, "default_qty_type") || str_eq(name, "commission_type") || str_eq(
        name,
        "close_entries_rule",
    ) || str_eq(name, "format")
}

/// Reads the argument at `index`.
fn scan_arg(
    scan: &mut DeclarationScan,
    index: usize,
    arg: &KnownArg,
    dialect: PineDialect,
    diagnostics: &mut Vec<Diagnostic>,
    checks: &mut Vec<(usize, BoundCheck)>,
)
    ensures
        ({
            let step = scan_step(*old(scan), index as int, *arg, dialect);
            &&& *final(scan) == step.0
            &&& diag_views(final(diagnostics)@) == diag_views(old(diagnostics)@) + step.1
            &&& final(checks)@ == old(checks)@ + step.2
        }),
{
    let ghost start = diag_views(diagnostics@);
    let ghost start_checks = checks@;
    let name: &str = match &arg.name {
        Some(n) => n.as_str(),
        None => match strategy_positional_param(index) {
            Some(p) => p,
            None => {
                proof {
                    assert(diag_views(diagnostics@) =~= start + Seq::<DiagView>::empty());
                    assert(checks@ =~= start_checks + Seq::<(usize, BoundCheck)>::empty());
                }
                return;
            },
        },
    };
    assert(declaration_arg_name(index as int, *arg) == Some(name@));
    if is_number_param_name(name) {
        scan_number_arg(scan, index, arg, name, diagnostics);
        proof {
            assert(checks@ =~= start_checks + Seq::<(usize, BoundCheck)>::empty());
        }
    } else if is_text_param_name(name) {
        scan_text_arg(scan, index, arg, name, diagnostics);
        proof {
            assert(checks@ =~= start_checks + Seq::<(usize, BoundCheck)>::empty());
        }
    } else {
        scan_other_arg(scan, index, arg, name, dialect, diagnostics, checks);
    }
}

/// Checks the arguments of a `strategy(...)` declaration: each argument
/// stands for the parameter it names or, unnamed, for the parameter at its
/// position; a known value that the parameter does not admit is reported,
/// and an admitted one fixes its setting, a later one overriding an earlier
/// one.  A `commission_value` without a `commission_type` is reported at the
/// end, and then no commission is fixed.
pub fn validate_strategy_declaration_args(
    args: &Vec<KnownArg>,
    dialect: PineDialect,
    diagnostics: &mut Vec<Diagnostic>,
) -> (r: StrategyDeclarationPlan)
    ensures
        ({
            let (scan, diags, checks) = scan_fold(args@, dialect);
            &&& r.settings == scan
            &&& r.default_qty == declared_default_qty(scan)
            &&& r.commission == declared_commission(scan)
            &&& r.checks@ == checks
            &&& diag_views(final(diagnostics)@) == diag_views(old(diagnostics)@) + diags + closing_diags(
                scan,
                args@,
            )
        }),
{
    let ghost start = diag_views(diagnostics@);
    let mut scan = DeclarationScan {
        initial_capital: None,
        slippage: None,
        backtest_fill_limits: None,
        margin_long: None,
        margin_short: None,
        pyramiding: None,
        close_entries_rule: None,
        process_orders_on_close: None,
        calc_on_order_fills: None,
        calc_on_every_tick: None,
        use_bar_magnifier: None,
        qty_type_arg: None,
        qty_kind: None,
        qty_value_arg: None,
        qty_value: None,
        commission_type_arg: None,
        commission_kind: None,
        commission_value_arg: None,
        commission_value: None,
    };
    let mut checks: Vec<(usize, BoundCheck)> = Vec::new();
    assert(args@.take(0) =~= Seq::<KnownArg>::empty());
    assert(diag_views(diagnostics@) =~= start + Seq::<DiagView>::empty());
    let mut i: usize = 0;
    while i < args.len()
        invariant
            i <= args@.len(),
            (scan, diag_views(diagnostics@).skip(start.len() as int), checks@) == scan_fold(
                args@.take(i as int),
                dialect,
            ),
            diag_views(diagnostics@).take(start.len() as int) == start,
            diag_views(diagnostics@).len() >= start.len(),
            scan.commission_value_arg matches Some(j) ==> j < i,
        decreases args@.len() - i,
    {
        let ghost before = diag_views(diagnostics@);
        proof {
            assert(args@.take(i as int + 1).drop_last() =~= args@.take(i as int));
            assert(args@.take(i as int + 1).last() == args@[i as int]);
        }
        scan_arg(&mut scan, i, &args[i], dialect, diagnostics, &mut checks);
        proof {
            let step = scan_step(scan_fold(args@.take(i as int), dialect).0, i as int, args@[i as int], dialect);
            assert(diag_views(diagnostics@).skip(start.len() as int) =~= before.skip(start.len() as int)
                + step.1);
            assert(diag_views(diagnostics@).take(start.len() as int) =~= before.take(start.len() as int));
        }
        i = i + 1;
    }
    assert(args@.take(args@.len() as int) =~= args@);
    let ghost scanned = diag_views(diagnostics@);
    assert(scanned =~= start + scanned.skip(start.len() as int));
    let default_qty = if scan.qty_type_arg.is_some() {
        let amount: Option<Option<usize>> = if scan.qty_value_arg.is_some() {
            match scan.qty_value {
                Some(v) => Some(Some(v)),
                None => None,
            }
        } else {
            Some(None)
        };
        match (scan.qty_kind, amount) {
            (Some(k), Some(a)) => Some((k, a)),
            _ => None,
        }
    } else {
        match scan.qty_value {
            Some(v) => Some((QuantityKind::Fixed, Some(v))),
            None => None,
        }
    };
    let commission = if scan.commission_value_arg.is_some() && scan.commission_type_arg.is_none() {
        let j = scan.commission_value_arg.unwrap();
        push_value_error(
            "`strategy` argument `commission_value` requires a supported commission_type",
            args[j].span,
            diagnostics,
        );
        None
    } else {
        match scan.commission_kind {
            Some(k) => Some((k, scan.commission_value)),
            None => None,
        }
    };
    proof {
        assert(diag_views(diagnostics@) =~= scanned + closing_diags(scan, args@));
    }
    StrategyDeclarationPlan { settings: scan, default_qty, commission, checks }
}

/// The setting `setting`, where fixed, takes the known value of an argument
/// that stands for `param`.
pub open spec fn takes_value_for(args: Seq<KnownArg>, setting: Option<usize>, param: Seq<char>) -> bool {
    setting matches Some(i) ==> {
        &&& i < args.len()
        &&& declaration_arg_name(i as int, args[i as int]) == Some(param)
        &&& args[i as int].number is Some
    }
}

/// The known value a fixed setting takes.
pub open spec fn value_of(args: Seq<KnownArg>, setting: Option<usize>) -> NumberFacts {
    args[setting->0 as int].number->0
}

/// A setting after one argument: as before, or taken from that argument
/// when it stands for `param`.
pub open spec fn kept_or_set(before: Option<usize>, after: Option<usize>, k: int, arg: KnownArg, param: Seq<char>) -> bool {
    after == before || (after == Some(k as usize) && declaration_arg_name(k, arg) == Some(param)
        && arg.number is Some)
}

proof fn lemma_step_settings(before: DeclarationScan, k: int, arg: KnownArg, dialect: PineDialect)
    ensures
        ({
            let after = scan_step(before, k, arg, dialect).0;
            let f = arg.number->0;
            &&& kept_or_set(before.initial_capital, after.initial_capital, k, arg, "initial_capital"@)
            &&& after.initial_capital != before.initial_capital ==> is_positive(f)
            &&& kept_or_set(before.qty_value, after.qty_value, k, arg, "default_qty_value"@)
            &&& after.qty_value != before.qty_value ==> is_positive(f)
            &&& kept_or_set(before.commission_value, after.commission_value, k, arg, "commission_value"@)
            &&& after.commission_value != before.commission_value ==> is_non_negative(f)
            &&& kept_or_set(before.slippage, after.slippage, k, arg, "slippage"@)
            &&& after.slippage != before.slippage ==> is_non_negative_whole(f)
            &&& kept_or_set(before.backtest_fill_limits, after.backtest_fill_limits, k, arg, "backtest_fill_limits_assumption"@)
            &&& after.backtest_fill_limits != before.backtest_fill_limits ==> is_non_negative_whole(f)
            &&& kept_or_set(before.margin_long, after.margin_long, k, arg, "margin_long"@)
            &&& after.margin_long != before.margin_long ==> is_non_negative(f)
            &&& kept_or_set(before.margin_short, after.margin_short, k, arg, "margin_short"@)
            &&& after.margin_short != before.margin_short ==> is_non_negative(f)
            &&& kept_or_set(before.pyramiding, after.pyramiding, k, arg, "pyramiding"@)
            &&& after.pyramiding != before.pyramiding ==> is_positive_count(f)
        }),
{
    match declaration_arg_name(k, arg) {
        None => {},
        Some(name) => {
            if is_number_param(name) && name != "initial_capital"@ && name != "default_qty_value"@
                && name != "commission_value"@ && name != "slippage"@
                && name != "backtest_fill_limits_assumption"@ && name != "margin_long"@
                && name != "margin_short"@ {
                assert(name == "pyramiding"@);
            }
        },
    }
}

/// Every numeric setting that the declaration fixes takes the known value of
/// an argument for its own parameter, and a value that parameter admits.
pub proof fn lemma_settings_take_admitted_values(args: Seq<KnownArg>, dialect: PineDialect)
    requires
        args.len() <= usize::MAX,
    ensures
        ({
            let scan = scan_fold(args, dialect).0;
            &&& takes_value_for(args, scan.initial_capital, "initial_capital"@)
            &&& scan.initial_capital is Some ==> is_positive(value_of(args, scan.initial_capital))
            &&& takes_value_for(args, scan.qty_value, "default_qty_value"@)
            &&& scan.qty_value is Some ==> is_positive(value_of(args, scan.qty_value))
            &&& takes_value_for(args, scan.commission_value, "commission_value"@)
            &&& scan.commission_value is Some ==> is_non_negative(value_of(args, scan.commission_value))
            &&& takes_value_for(args, scan.slippage, "slippage"@)
            &&& scan.slippage is Some ==> is_non_negative_whole(value_of(args, scan.slippage))
            &&& takes_value_for(args, scan.backtest_fill_limits, "backtest_fill_limits_assumption"@)
            &&& scan.backtest_fill_limits is Some ==> is_non_negative_whole(value_of(args, scan.backtest_fill_limits))
            &&& takes_value_for(args, scan.margin_long, "margin_long"@)
            &&& scan.margin_long is Some ==> is_non_negative(value_of(args, scan.margin_long))
            &&& takes_value_for(args, scan.margin_short, "margin_short"@)
            &&& scan.margin_short is Some ==> is_non_negative(value_of(args, scan.margin_short))
            &&& takes_value_for(args, scan.pyramiding, "pyramiding"@)
            &&& scan.pyramiding is Some ==> is_positive_count(value_of(args, scan.pyramiding))
        }),
    decreases args.len(),
{
    if args.len() > 0 {
        let prev = args.drop_last();
        lemma_settings_take_admitted_values(prev, dialect);
        assert forall|i: int| 0 <= i < prev.len() implies prev[i] == args[i] by {}
        let k = args.len() - 1;
        assert(args.last() == args[k]);
        lemma_step_settings(scan_fold(prev, dialect).0, k, args.last(), dialect);
    }
}

/// An unnamed argument past the parameters of `strategy(...)` gives no
/// parameter, so it leaves the scan, its reports and its checks as they were.
pub proof fn lemma_scan_skips_args_past_the_parameters(args: Seq<KnownArg>, arg: KnownArg, dialect: PineDialect)
    requires
        arg.name is None,
        args.len() >= strategy_declaration_params().len(),
    ensures
        scan_fold(args.push(arg), dialect) == scan_fold(args, dialect),
{
    assert(args.push(arg).drop_last() =~= args);
    let (scan, diags, checks) = scan_fold(args, dialect);
    assert(diags + Seq::<DiagView>::empty() =~= diags);
    assert(checks + Seq::<(usize, BoundCheck)>::empty() =~= checks);
}

/// A `format` argument of `strategy(...)` whose known value is
/// format.inherit, format.price, format.percent or format.volume reports
/// nothing and leaves the scan as it was; any other known value is refused.
pub proof fn lemma_supported_formats_pass(scan: DeclarationScan, index: int, arg: KnownArg, dialect: PineDialect)
    requires
        declaration_arg_name(index, arg) == Some("format"@),
    ensures
        (arg.text matches Some(s) && (s@ == "format.inherit"@ || s@ == "format.price"@ || s@ == "format.percent"@
            || s@ == "format.volume"@)) ==> scan_step(scan, index, arg, dialect) == unchanged(scan),
        (arg.text matches Some(s) && !(s@ == "format.inherit"@ || s@ == "format.price"@ || s@ == "format.percent"@
            || s@ == "format.volume"@)) ==> scan_step(scan, index, arg, dialect).1.len() == 1,
{
    reveal_strlit("format");
    reveal_strlit("initial_capital");
    reveal_strlit("default_qty_value");
    reveal_strlit("commission_value");
    reveal_strlit("slippage");
    reveal_strlit("backtest_fill_limits_assumption");
    reveal_strlit("margin_long");
    reveal_strlit("margin_short");
    reveal_strlit("pyramiding");
    reveal_strlit("currency");
    reveal_strlit("default_qty_type");
    reveal_strlit("commission_type");
    reveal_strlit("close_entries_rule");
    assert("format"@ != "initial_capital"@) by {
        assert("format"@[0] != "initial_capital"@[0]);
    }
    assert("format"@ != "default_qty_value"@) by {
        assert("format"@[0] != "default_qty_value"@[0]);
    }
    assert("format"@ != "commission_value"@) by {
        assert("format"@[0] != "commission_value"@[0]);
    }
    assert("format"@ != "slippage"@) by {
        assert("format"@[0] != "slippage"@[0]);
    }
    assert("format"@ != "backtest_fill_limits_assumption"@) by {
        assert("format"@[0] != "backtest_fill_limits_assumption"@[0]);
    }
    assert("format"@ != "margin_long"@) by {
        assert("format"@[0] != "margin_long"@[0]);
    }
    assert("format"@ != "margin_short"@) by {
        assert("format"@[0] != "margin_short"@[0]);
    }
    assert("format"@ != "pyramiding"@) by {
        assert("format"@[0] != "pyramiding"@[0]);
    }
    assert("format"@ != "currency"@) by {
        assert("format"@[0] != "currency"@[0]);
    }
    assert("format"@ != "default_qty_type"@) by {
        assert("format"@[0] != "default_qty_type"@[0]);
    }
    assert("format"@ != "commission_type"@) by {
        assert("format"@[0] != "commission_type"@[0]);
    }
    assert("format"@ != "close_entries_rule"@) by {
        assert("format"@[0] != "close_entries_rule"@[0]);
    }
    assert(!is_number_param("format"@));
    assert(is_text_param("format"@));
}

/// Each quantity kind, commission kind and close-entries rule has exactly
/// one name the declaration accepts for it: every kind is named, and two
/// names of one kind are the same name.
pub proof fn lemma_declaration_kinds_are_named_once()
    ensures
        exists|s: Seq<char>| #[trigger] quantity_kind_named(s) == Some(QuantityKind::Fixed),
        exists|s: Seq<char>| #[trigger] quantity_kind_named(s) == Some(QuantityKind::Cash),
        exists|s: Seq<char>| #[trigger] quantity_kind_named(s) == Some(QuantityKind::PercentOfEquity),
        forall|s: Seq<char>, t: Seq<char>|
            #[trigger] quantity_kind_named(s) is Some && quantity_kind_named(s) == #[trigger] quantity_kind_named(t)
                ==> s == t,
        exists|s: Seq<char>| #[trigger] commission_kind_named(s) == Some(CommissionKind::CashPerContract),
        exists|s: Seq<char>| #[trigger] commission_kind_named(s) == Some(CommissionKind::CashPerOrder),
        exists|s: Seq<char>| #[trigger] commission_kind_named(s) == Some(CommissionKind::Percent),
        forall|s: Seq<char>, t: Seq<char>|
            #[trigger] commission_kind_named(s) is Some && commission_kind_named(s) == #[trigger] commission_kind_named(
                t,
            ) ==> s == t,
        exists|s: Seq<char>| #[trigger] close_rule_named(s) == Some(CloseEntriesRule::Fifo),
        exists|s: Seq<char>| #[trigger] close_rule_named(s) == Some(CloseEntriesRule::Any),
        forall|s: Seq<char>, t: Seq<char>|
            #[trigger] close_rule_named(s) is Some && close_rule_named(s) == #[trigger] close_rule_named(t) ==> s == t,
{
    reveal_strlit("strategy.fixed");
    reveal_strlit("strategy.cash");
    reveal_strlit("strategy.percent_of_equity");
    reveal_strlit("strategy.commission.cash_per_contract");
    reveal_strlit("strategy.commission.cash_per_order");
    reveal_strlit("strategy.commission.percent");
    reveal_strlit("FIFO");
    reveal_strlit("ANY");
    assert("strategy.fixed"@[9] != "strategy.cash"@[9]);
    assert("strategy.fixed"@[9] != "strategy.percent_of_equity"@[9]);
    assert("strategy.cash"@[9] != "strategy.percent_of_equity"@[9]);
    assert("strategy.commission.cash_per_contract"@.len() != "strategy.commission.cash_per_order"@.len());
    assert("strategy.commission.cash_per_contract"@[20] != "strategy.commission.percent"@[20]);
    assert("strategy.commission.cash_per_order"@[20] != "strategy.commission.percent"@[20]);
    assert("FIFO"@[0] != "ANY"@[0]);
    assert(quantity_kind_named("strategy.fixed"@) == Some(QuantityKind::Fixed));
    assert(quantity_kind_named("strategy.cash"@) == Some(QuantityKind::Cash));
    assert(quantity_kind_named("strategy.percent_of_equity"@) == Some(QuantityKind::PercentOfEquity));
    assert(commission_kind_named("strategy.commission.cash_per_contract"@) == Some(CommissionKind::CashPerContract));
    assert(commission_kind_named("strategy.commission.cash_per_order"@) == Some(CommissionKind::CashPerOrder));
    assert(commission_kind_named("strategy.commission.percent"@) == Some(CommissionKind::Percent));
    assert(close_rule_named("FIFO"@) == Some(CloseEntriesRule::Fifo));
    assert(close_rule_named("ANY"@) == Some(CloseEntriesRule::Any));
}

} // verus!
