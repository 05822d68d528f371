//! Strategy built-ins: state variables, trade-field functions, and the
//! families of `strategy.exit` arguments.
use vstd::prelude::*;
use vstd::string::*;
use crate::builtin_args::DiagView;
use crate::diagnostics::{Diagnostic, Severity, diag_view, diag_views};
use crate::syntax::Span;
use crate::text::str_eq;

verus! {

/// The `strategy.*` variables that describe the strategy state.
pub open spec fn strategy_state_variables() -> Set<Seq<char>> {
    set![
        "strategy.account_currency"@, "strategy.position_size"@, "strategy.position_avg_price"@,
        "strategy.position_entry_name"@, "strategy.initial_capital"@, "strategy.openprofit"@,
        "strategy.openprofit_percent"@, "strategy.netprofit"@, "strategy.netprofit_percent"@,
        "strategy.grossprofit"@, "strategy.grossprofit_percent"@, "strategy.grossloss"@,
        "strategy.grossloss_percent"@, "strategy.buy_and_hold_return_percent"@, "strategy.avg_trade"@,
        "strategy.avg_trade_percent"@, "strategy.avg_winning_trade"@, "strategy.avg_winning_trade_percent"@,
        "strategy.avg_losing_trade"@, "strategy.avg_losing_trade_percent"@, "strategy.max_runup"@,
        "strategy.max_runup_percent"@, "strategy.max_drawdown"@, "strategy.max_drawdown_percent"@,
        "strategy.max_contracts_held_all"@, "strategy.max_contracts_held_long"@, "strategy.max_contracts_held_short"@,
        "strategy.equity"@, "strategy.closedtrades"@, "strategy.closedtrades.first_index"@,
        "strategy.wintrades"@, "strategy.losstrades"@, "strategy.eventrades"@,
        "strategy.opentrades"@, "strategy.opentrades.capital_held"@, "strategy.margin_liquidation_price"@,
    ]
}

/// Whether `name` is a strategy state variable.
pub fn is_strategy_state_variable(name: &str) -> (r: bool)
    ensures
        r == strategy_state_variables().contains(name@),
{
    str_eq(name, "strategy.account_currency") ||
        str_eq(name, "strategy.position_size") ||
        str_eq(name, "strategy.position_avg_price") ||
        str_eq(name, "strategy.position_entry_name") ||
        str_eq(name, "strategy.initial_capital") ||
        str_eq(name, "strategy.openprofit") ||
        str_eq(name, "strategy.openprofit_percent") ||
        str_eq(name, "strategy.netprofit") ||
        str_eq(name, "strategy.netprofit_percent") ||
        str_eq(name, "strategy.grossprofit") ||
        str_eq(name, "strategy.grossprofit_percent") ||
        str_eq(name, "strategy.grossloss") ||
        str_eq(name, "strategy.grossloss_percent") ||
        str_eq(name, "strategy.buy_and_hold_return_percent") ||
        str_eq(name, "strategy.avg_trade") ||
        str_eq(name, "strategy.avg_trade_percent") ||
        str_eq(name, "strategy.avg_winning_trade") ||
        str_eq(name, "strategy.avg_winning_trade_percent") ||
        str_eq(name, "strategy.avg_losing_trade") ||
        str_eq(name, "strategy.avg_losing_trade_percent") ||
        str_eq(name, "strategy.max_runup") ||
        str_eq(name, "strategy.max_runup_percent") ||
        str_eq(name, "strategy.max_drawdown") ||
        str_eq(name, "strategy.max_drawdown_percent") ||
        str_eq(name, "strategy.max_contracts_held_all") ||
        str_eq(name, "strategy.max_contracts_held_long") ||
        str_eq(name, "strategy.max_contracts_held_short") ||
        str_eq(name, "strategy.equity") ||
        str_eq(name, "strategy.closedtrades") ||
        str_eq(name, "strategy.closedtrades.first_index") ||
        str_eq(name, "strategy.wintrades") ||
        str_eq(name, "strategy.losstrades") ||
        str_eq(name, "strategy.eventrades") ||
        str_eq(name, "strategy.opentrades") ||
        str_eq(name, "strategy.opentrades.capital_held") ||
        str_eq(name, "strategy.margin_liquidation_price")
}

/// Functions that read a field of a closed trade.
pub open spec fn closed_trade_field_functions() -> Set<Seq<char>> {
    set![
        "strategy.closedtrades.entry_price"@, "strategy.closedtrades.entry_comment"@, "strategy.closedtrades.entry_id"@,
        "strategy.closedtrades.exit_price"@, "strategy.closedtrades.exit_comment"@, "strategy.closedtrades.exit_id"@,
        "strategy.closedtrades.entry_bar_index"@, "strategy.closedtrades.exit_bar_index"@, "strategy.closedtrades.entry_time"@,
        "strategy.closedtrades.exit_time"@, "strategy.closedtrades.commission"@, "strategy.closedtrades.size"@,
        "strategy.closedtrades.profit"@, "strategy.closedtrades.profit_percent"@, "strategy.closedtrades.max_runup"@,
        "strategy.closedtrades.max_runup_percent"@, "strategy.closedtrades.max_drawdown"@, "strategy.closedtrades.max_drawdown_percent"@,
    ]
}

/// Whether `name` reads a field of a closed trade.
fn is_closed_trade_field_function(name: &str) -> (r: bool)
    ensures
        r == closed_trade_field_functions().contains(name@),
{
    str_eq(name, "strategy.closedtrades.entry_price") ||
        str_eq(name, "strategy.closedtrades.entry_comment") ||
        str_eq(name, "strategy.closedtrades.entry_id") ||
        str_eq(name, "strategy.closedtrades.exit_price") ||
        str_eq(name, "strategy.closedtrades.exit_comment") ||
        str_eq(name, "strategy.closedtrades.exit_id") ||
        str_eq(name, "strategy.closedtrades.entry_bar_index") ||
        str_eq(name, "strategy.closedtrades.exit_bar_index") ||
        str_eq(name, "strategy.closedtrades.entry_time") ||
        str_eq(name, "strategy.closedtrades.exit_time") ||
        str_eq(name, "strategy.closedtrades.commission") ||
        str_eq(name, "strategy.closedtrades.size") ||
        str_eq(name, "strategy.closedtrades.profit") ||
        str_eq(name, "strategy.closedtrades.profit_percent") ||
        str_eq(name, "strategy.closedtrades.max_runup") ||
        str_eq(name, "strategy.closedtrades.max_runup_percent") ||
        str_eq(name, "strategy.closedtrades.max_drawdown") ||
        str_eq(name, "strategy.closedtrades.max_drawdown_percent")
}

/// Functions that read a field of an open trade.
pub open spec fn open_trade_field_functions() -> Set<Seq<char>> {
    set![
        "strategy.opentrades.entry_price"@, "strategy.opentrades.entry_comment"@, "strategy.opentrades.entry_id"@,
        "strategy.opentrades.entry_bar_index"@, "strategy.opentrades.entry_time"@, "strategy.opentrades.size"@,
        "strategy.opentrades.profit"@, "strategy.opentrades.profit_percent"@, "strategy.opentrades.commission"@,
        "strategy.opentrades.max_runup"@, "strategy.opentrades.max_runup_percent"@, "strategy.opentrades.max_drawdown"@,
        "strategy.opentrades.max_drawdown_percent"@,
    ]
}

/// Whether `name` reads a field of an open trade.
fn is_open_trade_field_function(name: &str) -> (r: bool)
    ensures
        r == open_trade_field_functions().contains(name@),
{
    str_eq(name, "strategy.opentrades.entry_price") ||
        str_eq(name, "strategy.opentrades.entry_comment") ||
        str_eq(name, "strategy.opentrades.entry_id") ||
        str_eq(name, "strategy.opentrades.entry_bar_index") ||
        str_eq(name, "strategy.opentrades.entry_time") ||
        str_eq(name, "strategy.opentrades.size") ||
        str_eq(name, "strategy.opentrades.profit") ||
        str_eq(name, "strategy.opentrades.profit_percent") ||
        str_eq(name, "strategy.opentrades.commission") ||
        str_eq(name, "strategy.opentrades.max_runup") ||
        str_eq(name, "strategy.opentrades.max_runup_percent") ||
        str_eq(name, "strategy.opentrades.max_drawdown") ||
        str_eq(name, "strategy.opentrades.max_drawdown_percent")
}

/// Whether `name` reads a field of a closed or an open trade.
pub fn is_supported_strategy_trade_field_function(name: &str) -> (r: bool)
    ensures
        r == (closed_trade_field_functions().contains(name@) || open_trade_field_functions().contains(name@)),
{
    is_closed_trade_field_function(name) || is_open_trade_field_function(name)
}

/// Conversion and quantity functions of a strategy.
pub open spec fn strategy_conversion_functions() -> Set<Seq<char>> {
    set!["strategy.convert_to_account"@, "strategy.convert_to_symbol"@, "strategy.default_entry_qty"@]
}

/// Whether `name` is a value function of a strategy: a conversion, the
/// default entry quantity, or a trade field.
pub fn is_supported_strategy_value_function(name: &str) -> (r: bool)
    ensures
        r == (strategy_conversion_functions().contains(name@) || closed_trade_field_functions().contains(name@)
            || open_trade_field_functions().contains(name@)),
{
    str_eq(name, "strategy.convert_to_account") || str_eq(name, "strategy.convert_to_symbol")
        || str_eq(name, "strategy.default_entry_qty") || is_supported_strategy_trade_field_function(name)
}

/// What an argument of `strategy.exit` controls.
#[derive(Clone, Copy, Debug, PartialEq, Eq, Structural)]
pub enum StrategyExitArgFamily {
    Identity,
    DownsidePriceTrigger,
    DownsideTickTrigger,
    UpsidePriceTrigger,
    UpsideTickTrigger,
    TrailingActivation,
    TrailingOffset,
    Quantity,
    PercentQuantity,
    Metadata,
    OcaName,
    UnsupportedOption,
}

/// Metadata arguments of `strategy.exit`: comments and alerts.
pub open spec fn exit_metadata_args() -> Set<Seq<char>> {
    set![
        "comment"@, "comment_profit"@, "comment_loss"@, "comment_trailing"@, "alert_message"@,
        "alert_profit"@, "alert_loss"@, "alert_trailing"@, "disable_alert"@,
    ]
}

/// The family of a `strategy.exit` argument name.
pub open spec fn exit_arg_family(name: Seq<char>) -> Option<StrategyExitArgFamily> {
    if name == "id"@ || name == "from_entry"@ {
        Some(StrategyExitArgFamily::Identity)
    } else if name == "stop"@ {
        Some(StrategyExitArgFamily::DownsidePriceTrigger)
    } else if name == "loss"@ {
        Some(StrategyExitArgFamily::DownsideTickTrigger)
    } else if name == "limit"@ {
        Some(StrategyExitArgFamily::UpsidePriceTrigger)
    } else if name == "profit"@ {
        Some(StrategyExitArgFamily::UpsideTickTrigger)
    } else if name == "trail_price"@ || name == "trail_points"@ {
        Some(StrategyExitArgFamily::TrailingActivation)
    } else if name == "trail_offset"@ {
        Some(StrategyExitArgFamily::TrailingOffset)
    } else if name == "qty"@ {
        Some(StrategyExitArgFamily::Quantity)
    } else if name == "qty_percent"@ {
        Some(StrategyExitArgFamily::PercentQuantity)
    } else if exit_metadata_args().contains(name) {
        Some(StrategyExitArgFamily::Metadata)
    } else if name == "oca_name"@ {
        Some(StrategyExitArgFamily::OcaName)
    } else {
        None
    }
}

pub fn strategy_exit_arg_family(name: &str) -> (r: Option<StrategyExitArgFamily>)
    ensures
        r == exit_arg_family(name@),
{
    if str_eq(name, "id") || str_eq(name, "from_entry") {
        Some(StrategyExitArgFamily::Identity)
    } else if str_eq(name, "stop") {
        Some(StrategyExitArgFamily::DownsidePriceTrigger)
    } else if str_eq(name, "loss") {
        Some(StrategyExitArgFamily::DownsideTickTrigger)
    } else if str_eq(name, "limit") {
        Some(StrategyExitArgFamily::UpsidePriceTrigger)
    } else if str_eq(name, "profit") {
        Some(StrategyExitArgFamily::UpsideTickTrigger)
    } else if str_eq(name, "trail_price") || str_eq(name, "trail_points") {
        Some(StrategyExitArgFamily::TrailingActivation)
    } else if str_eq(name, "trail_offset") {
        Some(StrategyExitArgFamily::TrailingOffset)
    } else if str_eq(name, "qty") {
        Some(StrategyExitArgFamily::Quantity)
    } else if str_eq(name, "qty_percent") {
        Some(StrategyExitArgFamily::PercentQuantity)
    } else if str_eq(name, "comment") || str_eq(name, "comment_profit") || str_eq(name, "comment_loss")
        || str_eq(name, "comment_trailing") || str_eq(name, "alert_message") || str_eq(name, "alert_profit")
        || str_eq(name, "alert_loss") || str_eq(name, "alert_trailing") || str_eq(name, "disable_alert") {
        Some(StrategyExitArgFamily::Metadata)
    } else if str_eq(name, "oca_name") {
        Some(StrategyExitArgFamily::OcaName)
    } else {
        None
    }
}

/// What a script declares itself to be.
#[derive(Clone, Copy, Debug, PartialEq, Eq, Structural)]
pub enum ScriptMode {
    Indicator,
    Strategy,
}

pub open spec fn script_mode_label(m: ScriptMode) -> Seq<char> {
    match m {
        ScriptMode::Indicator => "Indicator"@,
        ScriptMode::Strategy => "Strategy"@,
    }
}

fn script_mode_name(m: ScriptMode) -> (r: &'static str)
    ensures
        r@ == script_mode_label(m),
{
    match m {
        ScriptMode::Indicator => "Indicator",
        ScriptMode::Strategy => "Strategy",
    }
}

/// The mode a declaration call declares.
pub open spec fn declared_mode(name: Seq<char>) -> Option<ScriptMode> {
    if name == "indicator"@ {
        Some(ScriptMode::Indicator)
    } else if name == "strategy"@ {
        Some(ScriptMode::Strategy)
    } else {
        None
    }
}

pub open spec fn declaration_location_diag(name: Seq<char>, span: Span) -> DiagView {
    (Severity::Error, "E_SCRIPT_DECL_LOCATION"@, "`"@ + name + "` declarations must be top-level"@, span)
}

pub open spec fn declaration_duplicate_diag(existing: ScriptMode, span: Span) -> DiagView {
    (
        Severity::Error,
        "E_SCRIPT_DECL_DUPLICATE"@,
        "script already has a "@ + script_mode_label(existing)
            + " declaration; only one indicator(...) or strategy(...) declaration is allowed"@,
        span,
    )
}

/// Checks an `indicator(...)` or `strategy(...)` declaration: it must stand
/// at the top level and be the script's only one; the first that does
/// becomes the script's declaration.  The result tells whether the
/// arguments of a strategy declaration are to be checked next.
pub fn validate_script_declaration_call(
    name: &str,
    span: Span,
    block_depth: u32,
    function_depth: u32,
    script_declaration: &mut Option<(ScriptMode, Span)>,
    diagnostics: &mut Vec<Diagnostic>,
) -> (r: bool)
    ensures
        match declared_mode(name@) {
            None => {
                &&& !r
                &&& *final(script_declaration) == *old(script_declaration)
                &&& final(diagnostics)@ == old(diagnostics)@
            },
            Some(mode) => if block_depth > 0 || function_depth > 0 {
                &&& !r
                &&& *final(script_declaration) == *old(script_declaration)
                &&& diag_views(final(diagnostics)@) == diag_views(old(diagnostics)@).push(
                    declaration_location_diag(name@, span),
                )
            } else if let Some((existing, _)) = *old(script_declaration) {
                &&& !r
                &&& *final(script_declaration) == *old(script_declaration)
                &&& diag_views(final(diagnostics)@) == diag_views(old(diagnostics)@).push(
                    declaration_duplicate_diag(existing, span),
                )
            } else {
                &&& r == (mode == ScriptMode::Strategy)
                &&& *final(script_declaration) == Some((mode, span))
                &&& final(diagnostics)@ == old(diagnostics)@
            },
        },
{
    let mode = if str_eq(name, "indicator") {
        ScriptMode::Indicator
    } else if str_eq(name, "strategy") {
        ScriptMode::Strategy
    } else {
        return false;
    };
    let ghost before = diagnostics@;
    if block_depth > 0 || function_depth > 0 {
        let mut message = String::from_str("`");
        message.append(name);
        message.append("` declarations must be top-level");
        let d = Diagnostic::error("E_SCRIPT_DECL_LOCATION", message, span);
        diagnostics.push(d);
        assert(diag_views(diagnostics@) =~= diag_views(before).push(diag_view(d)));
        return false;
    }
    if let Some((existing, _)) = *script_declaration {
        let mut message = String::from_str("script already has a ");
        message.append(script_mode_name(existing));
        message.append(" declaration; only one indicator(...) or strategy(...) declaration is allowed");
        let d = Diagnostic::error("E_SCRIPT_DECL_DUPLICATE", message, span);
        diagnostics.push(d);
        assert(diag_views(diagnostics@) =~= diag_views(before).push(diag_view(d)));
        return false;
    }
    *script_declaration = Some((mode, span));
    mode == ScriptMode::Strategy
}

pub open spec fn strategy_mode_diag(name: Seq<char>, span: Span) -> DiagView {
    (
        Severity::Error,
        "E_STRATEGY_MODE"@,
        "`"@ + name + "` is only supported in scripts declared with strategy(...)"@,
        span,
    )
}

pub open spec fn declared_strategy(script_declaration: Option<(ScriptMode, Span)>) -> bool {
    script_declaration matches Some((mode, _)) && mode == ScriptMode::Strategy
}

fn push_strategy_mode_error(name: &str, span: Span, diagnostics: &mut Vec<Diagnostic>)
    ensures
        diag_views(final(diagnostics)@) == diag_views(old(diagnostics)@).push(strategy_mode_diag(name@, span)),
{
    let mut message = String::from_str("`");
    message.append(name);
    message.append("` is only supported in scripts declared with strategy(...)");
    let ghost before = diagnostics@;
    let d = Diagnostic::error("E_STRATEGY_MODE", message, span);
    diagnostics.push(d);
    assert(diag_views(diagnostics@) =~= diag_views(before).push(diag_view(d)));
}

/// The order and risk calls of a strategy.
pub open spec fn strategy_order_calls() -> Set<Seq<char>> {
    set![
        "strategy.entry"@, "strategy.order"@, "strategy.close"@, "strategy.close_all"@,
        "strategy.cancel"@, "strategy.cancel_all"@, "strategy.exit"@,
        "strategy.risk.allow_entry_in"@, "strategy.risk.max_position_size"@,
        "strategy.risk.max_drawdown"@, "strategy.risk.max_intraday_loss"@,
        "strategy.risk.max_intraday_filled_orders"@, "strategy.risk.max_cons_loss_days"@,
    ]
}

fn is_strategy_order_call(name: &str) -> (r: bool)
    ensures
        r == strategy_order_calls().contains(name@),
{
    let a = str_eq(name, "strategy.entry") || str_eq(name, "strategy.order") || str_eq(name, "strategy.close")
        || str_eq(name, "strategy.close_all") || str_eq(name, "strategy.cancel")
        || str_eq(name, "strategy.cancel_all") || str_eq(name, "strategy.exit");
    let b = str_eq(name, "strategy.risk.allow_entry_in") || str_eq(name, "strategy.risk.max_position_size")
        || str_eq(name, "strategy.risk.max_drawdown") || str_eq(name, "strategy.risk.max_intraday_loss")
        || str_eq(name, "strategy.risk.max_intraday_filled_orders")
        || str_eq(name, "strategy.risk.max_cons_loss_days");
    a || b
}

/// Checks that an order or risk call stands in a strategy, reporting one
/// that does not.  The result tells whether `name` is such a call, whose
/// arguments are to be checked next.
pub fn validate_strategy_order_call(
    name: &str,
    span: Span,
    script_declaration: Option<(ScriptMode, Span)>,
    diagnostics: &mut Vec<Diagnostic>,
) -> (r: bool)
    ensures
        r == strategy_order_calls().contains(name@),
        r && !declared_strategy(script_declaration) ==> diag_views(final(diagnostics)@) == diag_views(
            old(diagnostics)@,
        ).push(strategy_mode_diag(name@, span)),
        !(r && !declared_strategy(script_declaration)) ==> final(diagnostics)@ == old(diagnostics)@,
{
    if !is_strategy_order_call(name) {
        return false;
    }
    let in_strategy = match script_declaration {
        Some((ScriptMode::Strategy, _)) => true,
        _ => false,
    };
    if !in_strategy {
        push_strategy_mode_error(name, span, diagnostics);
    }
    true
}

/// Reports a strategy value function used outside a strategy.
pub fn validate_strategy_value_function_call(
    name: &str,
    span: Span,
    script_declaration: Option<(ScriptMode, Span)>,
    diagnostics: &mut Vec<Diagnostic>,
)
    ensures
        ({
            let is_value_function = strategy_conversion_functions().contains(name@)
                || closed_trade_field_functions().contains(name@) || open_trade_field_functions().contains(
                name@,
            );
            &&& is_value_function && !declared_strategy(script_declaration) ==> diag_views(
                final(diagnostics)@,
            ) == diag_views(old(diagnostics)@).push(strategy_mode_diag(name@, span))
            &&& !(is_value_function && !declared_strategy(script_declaration)) ==> final(diagnostics)@
                == old(diagnostics)@
        }),
{
    if !is_supported_strategy_value_function(name) {
        return;
    }
    let in_strategy = match script_declaration {
        Some((ScriptMode::Strategy, _)) => true,
        _ => false,
    };
    if !in_strategy {
        push_strategy_mode_error(name, span, diagnostics);
    }
}

/// Reports a strategy state variable read outside a strategy; the result
/// tells whether it was reported.
pub fn validate_strategy_state_variable(
    name: &str,
    span: Span,
    script_declaration: Option<(ScriptMode, Span)>,
    diagnostics: &mut Vec<Diagnostic>,
) -> (r: bool)
    ensures
        r == (strategy_state_variables().contains(name@) && !declared_strategy(script_declaration)),
        r ==> diag_views(final(diagnostics)@) == diag_views(old(diagnostics)@).push(
            strategy_mode_diag(name@, span),
        ),
        !r ==> final(diagnostics)@ == old(diagnostics)@,
{
    if !is_strategy_state_variable(name) {
        return false;
    }
    let in_strategy = match script_declaration {
        Some((ScriptMode::Strategy, _)) => true,
        _ => false,
    };
    if !in_strategy {
        push_strategy_mode_error(name, span, diagnostics);
        return true;
    }
    false
}

} // verus!
