//! The known argument values of the order and risk calls of a strategy:
//! `strategy.entry`, `strategy.order`, `strategy.close` and the
//! `strategy.risk.*` calls.
use vstd::prelude::*;
use vstd::string::*;
use crate::builtin_args::DiagView;
use crate::diagnostics::{Diagnostic, Severity, diag_view, diag_views};
use crate::known_args::{KnownArg, is_at_most_zero, is_positive};
use crate::syntax::Span;
use crate::text::str_eq;

verus! {

/// A strategy call whose argument values are checked.
#[derive(Clone, Copy, Debug, PartialEq, Eq, Structural)]
pub enum StrategyCall {
    Entry,
    Order,
    Close,
    RiskAllowEntryIn,
    RiskMaxDrawdown,
    RiskMaxIntradayLoss,
    RiskMaxConsLossDays,
    RiskMaxIntradayFilledOrders,
    RiskMaxPositionSize,
}

pub open spec fn call_label(c: StrategyCall) -> Seq<char> {
    match c {
        StrategyCall::Entry => "strategy.entry"@,
        StrategyCall::Order => "strategy.order"@,
        StrategyCall::Close => "strategy.close"@,
        StrategyCall::RiskAllowEntryIn => "strategy.risk.allow_entry_in"@,
        StrategyCall::RiskMaxDrawdown => "strategy.risk.max_drawdown"@,
        StrategyCall::RiskMaxIntradayLoss => "strategy.risk.max_intraday_loss"@,
        StrategyCall::RiskMaxConsLossDays => "strategy.risk.max_cons_loss_days"@,
        StrategyCall::RiskMaxIntradayFilledOrders => "strategy.risk.max_intraday_filled_orders"@,
        StrategyCall::RiskMaxPositionSize => "strategy.risk.max_position_size"@,
    }
}

fn call_label_str(c: StrategyCall) -> (r: &'static str)
    ensures
        r@ == call_label(c),
{
    match c {
        StrategyCall::Entry => "strategy.entry",
        StrategyCall::Order => "strategy.order",
        StrategyCall::Close => "strategy.close",
        StrategyCall::RiskAllowEntryIn => "strategy.risk.allow_entry_in",
        StrategyCall::RiskMaxDrawdown => "strategy.risk.max_drawdown",
        StrategyCall::RiskMaxIntradayLoss => "strategy.risk.max_intraday_loss",
        StrategyCall::RiskMaxConsLossDays => "strategy.risk.max_cons_loss_days",
        StrategyCall::RiskMaxIntradayFilledOrders => "strategy.risk.max_intraday_filled_orders",
        StrategyCall::RiskMaxPositionSize => "strategy.risk.max_position_size",
    }
}

/// The parameters of a call that may be given by position.
pub open spec fn call_params(c: StrategyCall) -> Seq<Seq<char>> {
    match c {
        StrategyCall::Entry | StrategyCall::Order => seq![
            "id"@, "direction"@, "qty"@, "limit"@, "stop"@, "oca_name"@, "oca_type"@, "comment"@,
            "alert_message"@, "disable_alert"@,
        ],
        StrategyCall::Close => seq!["id"@],
        StrategyCall::RiskAllowEntryIn => seq!["value"@],
        StrategyCall::RiskMaxDrawdown | StrategyCall::RiskMaxIntradayLoss => seq![
            "value"@, "type"@, "alert_message"@,
        ],
        StrategyCall::RiskMaxConsLossDays | StrategyCall::RiskMaxIntradayFilledOrders => seq![
            "count"@, "alert_message"@,
        ],
        StrategyCall::RiskMaxPositionSize => seq!["contracts"@],
    }
}

fn call_param(c: StrategyCall, index: usize) -> (r: Option<&'static str>)
    ensures
        match r {
            Some(p) => index < call_params(c).len() && p@ == call_params(c)[index as int],
            None => index >= call_params(c).len(),
        },
{
    match c {
        StrategyCall::Entry | StrategyCall::Order => match index {
            0 => Some("id"),
            1 => Some("direction"),
            2 => Some("qty"),
            3 => Some("limit"),
            4 => Some("stop"),
            5 => Some("oca_name"),
            6 => Some("oca_type"),
            7 => Some("comment"),
            8 => Some("alert_message"),
            9 => Some("disable_alert"),
            _ => None,
        },
        StrategyCall::Close => if index == 0 {
            Some("id")
        } else {
            None
        },
        StrategyCall::RiskAllowEntryIn => if index == 0 {
            Some("value")
        } else {
            None
        },
        StrategyCall::RiskMaxDrawdown | StrategyCall::RiskMaxIntradayLoss => match index {
            0 => Some("value"),
            1 => Some("type"),
            2 => Some("alert_message"),
            _ => None,
        },
        StrategyCall::RiskMaxConsLossDays | StrategyCall::RiskMaxIntradayFilledOrders => match index {
            0 => Some("count"),
            1 => Some("alert_message"),
            _ => None,
        },
        StrategyCall::RiskMaxPositionSize => if index == 0 {
            Some("contracts")
        } else {
            None
        },
    }
}

/// The parameter an argument stands for: its own name, or its position.
pub open spec fn call_arg_name(c: StrategyCall, index: int, arg: KnownArg) -> Option<Seq<char>> {
    match arg.name {
        Some(n) => Some(n@),
        None => if 0 <= index < call_params(c).len() {
            Some(call_params(c)[index])
        } else {
            None
        },
    }
}

pub open spec fn value_error(message: Seq<char>, span: Span) -> DiagView {
    (Severity::Error, "E_CALL_ARG_VALUE"@, message, span)
}

pub open spec fn arg_message(c: StrategyCall, param: Seq<char>, rest: Seq<char>) -> Seq<char> {
    "`"@ + call_label(c) + "` argument `"@ + param + "` "@ + rest
}

pub open spec fn is_order_direction(s: Seq<char>) -> bool {
    s == "strategy.long"@ || s == "strategy.short"@
}

pub open spec fn is_oca_type(s: Seq<char>) -> bool {
    s == "strategy.oca.none"@ || s == "strategy.oca.cancel"@ || s == "strategy.oca.reduce"@
}

pub open spec fn is_risk_direction(s: Seq<char>) -> bool {
    s == "strategy.direction.all"@ || s == "strategy.direction.long"@ || s == "strategy.direction.short"@
}

pub open spec fn is_risk_amount_type(s: Seq<char>) -> bool {
    s == "strategy.cash"@ || s == "strategy.percent_of_equity"@
}

pub open spec fn text_view(t: Option<String>) -> Option<Seq<char>> {
    match t {
        Some(s) => Some(s@),
        None => None,
    }
}

/// What is reported on one argument, if anything.  `context` is the
/// direction of a `strategy.entry` or the amount type of a drawdown or loss
/// limit, as the first argument for that parameter with a known value
/// gives it.
pub open spec fn call_arg_diag(
    c: StrategyCall,
    index: int,
    arg: KnownArg,
    context: Option<Seq<char>>,
) -> Option<DiagView> {
    match call_arg_name(c, index, arg) {
        None => if c == StrategyCall::Close {
            Some(
                (
                    Severity::Error,
                    "E_CALL_ARG_NAME"@,
                    "`strategy.close` partial quantity arguments must be named arguments"@,
                    arg.span,
                ),
            )
        } else {
            None
        },
        Some(name) => named_arg_diag(c, name, arg, context),
    }
}

pub open spec fn named_arg_diag(c: StrategyCall, name: Seq<char>, arg: KnownArg, context: Option<Seq<char>>) -> Option<
    DiagView,
> {
    match c {
        StrategyCall::Entry | StrategyCall::Order => {
            let direction = if c == StrategyCall::Entry {
                context
            } else {
                text_view(arg.text)
            };
            if name == "direction"@ {
                match direction {
                    Some(d) => if !is_order_direction(d) {
                        Some(
                            value_error(
                                arg_message(c, name, "only supports strategy.long or strategy.short"@),
                                arg.span,
                            ),
                        )
                    } else {
                        None
                    },
                    None => None,
                }
            } else if name == "qty"@ {
                match arg.number {
                    Some(f) => if c == StrategyCall::Entry && is_at_most_zero(f) {
                        Some(value_error(arg_message(c, name, "must be positive"@), arg.span))
                    } else if c == StrategyCall::Order && !is_positive(f) {
                        Some(value_error(arg_message(c, name, "must be finite and positive"@), arg.span))
                    } else {
                        None
                    },
                    None => None,
                }
            } else if name == "limit"@ || name == "stop"@ {
                match arg.number {
                    Some(f) => if !is_positive(f) {
                        Some(value_error(arg_message(c, name, "must be positive"@), arg.span))
                    } else {
                        None
                    },
                    None => None,
                }
            } else if name == "oca_type"@ {
                match text_view(arg.text) {
                    Some(t) => if is_oca_type(t) {
                        None
                    } else {
                        Some(
                            value_error(
                                arg_message(
                                    c,
                                    name,
                                    "only supports strategy.oca.none, strategy.oca.cancel, or strategy.oca.reduce"@,
                                ),
                                arg.span,
                            ),
                        )
                    },
                    None => Some(
                        value_error(
                            arg_message(
                                c,
                                name,
                                "only supports strategy.oca.none, strategy.oca.cancel, or strategy.oca.reduce"@,
                            ),
                            arg.span,
                        ),
                    ),
                }
            } else {
                None
            }
        },
        StrategyCall::Close => if name == "qty"@ || name == "qty_percent"@ {
            match arg.number {
                Some(f) => if !is_positive(f) {
                    Some(value_error(arg_message(c, name, "must be finite and positive"@), arg.span))
                } else {
                    None
                },
                None => None,
            }
        } else {
            None
        },
        StrategyCall::RiskAllowEntryIn => if name == "value"@ {
            match text_view(arg.text) {
                Some(t) => if !is_risk_direction(t) {
                    Some(
                        value_error(
                            arg_message(
                                c,
                                name,
                                "only supports strategy.direction.all, strategy.direction.long, or strategy.direction.short"@,
                            ),
                            arg.span,
                        ),
                    )
                } else {
                    None
                },
                None => None,
            }
        } else {
            None
        },
        StrategyCall::RiskMaxDrawdown | StrategyCall::RiskMaxIntradayLoss => if name == "value"@ {
            match arg.number {
                Some(f) => if !is_positive(f) {
                    Some(value_error(arg_message(c, name, "must be finite and positive"@), arg.span))
                } else if context == Some("strategy.percent_of_equity"@) && f.over_hundred {
                    Some(value_error("`"@ + call_label(c) + "` percent `value` must be at most 100"@, arg.span))
                } else {
                    None
                },
                None => None,
            }
        } else if name == "type"@ {
            match context {
                Some(k) => if is_risk_amount_type(k) {
                    None
                } else {
                    Some(
                        value_error(
                            arg_message(c, name, "only supports strategy.cash or strategy.percent_of_equity"@),
                            arg.span,
                        ),
                    )
                },
                None => None,
            }
        } else {
            None
        },
        StrategyCall::RiskMaxConsLossDays | StrategyCall::RiskMaxIntradayFilledOrders => if name == "count"@ {
            match arg.number {
                Some(f) => if !(is_positive(f) && f.integral) {
                    Some(value_error(arg_message(c, name, "must be a finite positive integer"@), arg.span))
                } else {
                    None
                },
                None => None,
            }
        } else {
            None
        },
        StrategyCall::RiskMaxPositionSize => if name == "contracts"@ {
            match arg.number {
                Some(f) => if !is_positive(f) {
                    Some(value_error(arg_message(c, name, "must be finite and positive"@), arg.span))
                } else {
                    None
                },
                None => None,
            }
        } else {
            None
        },
    }
}

pub open spec fn opt_seq(d: Option<DiagView>) -> Seq<DiagView> {
    match d {
        Some(v) => seq![v],
        None => Seq::empty(),
    }
}

/// What is reported on all of `args`, in order.
pub open spec fn call_arg_diags(c: StrategyCall, args: Seq<KnownArg>, context: Option<Seq<char>>) -> Seq<DiagView>
    decreases args.len(),
{
    if args.len() == 0 {
        Seq::empty()
    } else {
        call_arg_diags(c, args.drop_last(), context) + opt_seq(
            call_arg_diag(c, args.len() - 1, args.last(), context),
        )
    }
}

/// The known string value of the first argument from `k` on that stands for
/// `param` and has one.
pub open spec fn first_known_text(c: StrategyCall, args: Seq<KnownArg>, param: Seq<char>, k: int) -> Option<Seq<char>>
    decreases args.len() - k,
{
    if k < 0 || k >= args.len() {
        None
    } else if call_arg_name(c, k, args[k]) == Some(param) && args[k].text is Some {
        text_view(args[k].text)
    } else {
        first_known_text(c, args, param, k + 1)
    }
}

/// The first argument from `k` on that stands for `param`.
pub open spec fn first_for_param(c: StrategyCall, args: Seq<KnownArg>, param: Seq<char>, k: int) -> Option<int>
    decreases args.len() - k,
{
    if k < 0 || k >= args.len() {
        None
    } else if call_arg_name(c, k, args[k]) == Some(param) {
        Some(k)
    } else {
        first_for_param(c, args, param, k + 1)
    }
}

fn arg_name_of<'a>(c: StrategyCall, index: usize, arg: &'a KnownArg) -> (r: Option<&'a str>)
    ensures
        match r {
            Some(n) => call_arg_name(c, index as int, *arg) == Some(n@),
            None => call_arg_name(c, index as int, *arg) is None,
        },
{
    match &arg.name {
        Some(n) => Some(n.as_str()),
        None => call_param(c, index),
    }
}

fn find_known_text<'a>(c: StrategyCall, args: &'a Vec<KnownArg>, param: &str) -> (r: Option<&'a str>)
    ensures
        match r {
            Some(t) => first_known_text(c, args@, param@, 0) == Some(t@),
            None => first_known_text(c, args@, param@, 0) is None,
        },
{
    let mut k: usize = 0;
    while k < args.len()
        invariant
            k <= args@.len(),
            first_known_text(c, args@, param@, 0) == first_known_text(c, args@, param@, k as int),
        decreases args@.len() - k,
    {
        let arg = &args[k];
        if let Some(n) = arg_name_of(c, k, arg) {
            if str_eq(n, param) {
                if let Some(t) = &arg.text {
                    return Some(t.as_str());
                }
            }
        }
        k = k + 1;
    }
    None
}

fn find_for_param(c: StrategyCall, args: &Vec<KnownArg>, param: &str) -> (r: Option<usize>)
    ensures
        match r {
            Some(i) => i < args@.len() && first_for_param(c, args@, param@, 0) == Some(i as int),
            None => first_for_param(c, args@, param@, 0) is None,
        },
{
    let mut k: usize = 0;
    while k < args.len()
        invariant
            k <= args@.len(),
            first_for_param(c, args@, param@, 0) == first_for_param(c, args@, param@, k as int),
        decreases args@.len() - k,
    {
        if let Some(n) = arg_name_of(c, k, &args[k]) {
            if str_eq(n, param) {
                return Some(k);
            }
        }
        k = k + 1;
    }
    None
}

pub open spec fn opt_text(t: Option<&str>) -> Option<Seq<char>> {
    match t {
        Some(s) => Some(s@),
        None => None,
    }
}

fn arg_message_str(c: StrategyCall, param: &str, rest: &str) -> (r: String)
    ensures
        r@ == arg_message(c, param@, rest@),
{
    let mut m = String::from_str("`");
    m.append(call_label_str(c));
    m.append("` argument `");
    m.append(param);
    m.append("` ");
    m.append(rest);
    m
}

fn value_diagnostic(message: String, span: Span) -> (r: Diagnostic)
    ensures
        diag_view(r) == value_error(message@, span),
{
    Diagnostic::error("E_CALL_ARG_VALUE", message, span)
}

fn named_arg_diagnostic(c: StrategyCall, name: &str, arg: &KnownArg, context: Option<&str>) -> (r: Option<Diagnostic>)
    ensures
        match r {
            Some(d) => named_arg_diag(c, name@, *arg, opt_text(context)) == Some(diag_view(d)),
            None => named_arg_diag(c, name@, *arg, opt_text(context)) is None,
        },
{
    match c {
        StrategyCall::Entry | StrategyCall::Order => {
            let direction: Option<&str> = if c == StrategyCall::Entry {
                context
            } else {
                match &arg.text {
                    Some(t) => Some(t.as_str()),
                    None => None,
                }
            };
            if str_eq(name, "direction") {
                match direction {
                    Some(d) => if !(str_eq(d, "strategy.long") || str_eq(d, "strategy.short")) {
                        Some(
                            value_diagnostic(
                                arg_message_str(c, name, "only supports strategy.long or strategy.short"),
                                arg.span,
                            ),
                        )
                    } else {
                        None
                    },
                    None => None,
                }
            } else if str_eq(name, "qty") {
                match arg.number {
                    Some(f) => if c == StrategyCall::Entry && !f.positive && (f.negative || f.finite) {
                        Some(value_diagnostic(arg_message_str(c, name, "must be positive"), arg.span))
                    } else if c == StrategyCall::Order && !(f.finite && f.positive) {
                        Some(value_diagnostic(arg_message_str(c, name, "must be finite and positive"), arg.span))
                    } else {
                        None
                    },
                    None => None,
                }
            } else if str_eq(name, "limit") || str_eq(name, "stop") {
                match arg.number {
                    Some(f) => if !(f.finite && f.positive) {
                        Some(value_diagnostic(arg_message_str(c, name, "must be positive"), arg.span))
                    } else {
                        None
                    },
                    None => None,
                }
            } else if str_eq(name, "oca_type") {
                let ok = match &arg.text {
                    Some(t) => str_eq(t.as_str(), "strategy.oca.none") || str_eq(t.as_str(), "strategy.oca.cancel")
                        || str_eq(t.as_str(), "strategy.oca.reduce"),
                    None => false,
                };
                if ok {
                    None
                } else {
                    Some(
                        value_diagnostic(
                            arg_message_str(
                                c,
                                name,
                                "only supports strategy.oca.none, strategy.oca.cancel, or strategy.oca.reduce",
                            ),
                            arg.span,
                        ),
                    )
                }
            } else {
                None
            }
        },
        StrategyCall::Close => if str_eq(name, "qty") || str_eq(name, "qty_percent") {
            match arg.number {
                Some(f) => if !(f.finite && f.positive) {
                    Some(value_diagnostic(arg_message_str(c, name, "must be finite and positive"), arg.span))
                } else {
                    None
                },
                None => None,
            }
        } else {
            None
        },
        StrategyCall::RiskAllowEntryIn => if str_eq(name, "value") {
            match &arg.text {
                Some(t) => {
                    let t = t.as_str();
                    if !(str_eq(t, "strategy.direction.all") || str_eq(t, "strategy.direction.long") || str_eq(
                        t,
                        "strategy.direction.short",
                    )) {
                        Some(
                            value_diagnostic(
                                arg_message_str(
                                    c,
                                    name,
                                    "only supports strategy.direction.all, strategy.direction.long, or strategy.direction.short",
                                ),
                                arg.span,
                            ),
                        )
                    } else {
                        None
                    }
                },
                None => None,
            }
        } else {
            None
        },
        StrategyCall::RiskMaxDrawdown | StrategyCall::RiskMaxIntradayLoss => if str_eq(name, "value") {
            match arg.number {
                Some(f) => if !(f.finite && f.positive) {
                    Some(value_diagnostic(arg_message_str(c, name, "must be finite and positive"), arg.span))
                } else {
                    let percent = match context {
                        Some(k) => str_eq(k, "strategy.percent_of_equity"),
                        None => false,
                    };
                    if percent && f.over_hundred {
                        let mut m = String::from_str("`");
                        m.append(call_label_str(c));
                        m.append("` percent `value` must be at most 100");
                        Some(value_diagnostic(m, arg.span))
                    } else {
                        None
                    }
                },
                None => None,
            }
        } else if str_eq(name, "type") {
            match context {
                Some(k) => if str_eq(k, "strategy.cash") || str_eq(k, "strategy.percent_of_equity") {
                    None
                } else {
                    Some(
                        value_diagnostic(
                            arg_message_str(c, name, "only supports strategy.cash or strategy.percent_of_equity"),
                            arg.span,
                        ),
                    )
                },
                None => None,
            }
        } else {
            None
        },
        StrategyCall::RiskMaxConsLossDays | StrategyCall::RiskMaxIntradayFilledOrders => if str_eq(name, "count") {
            match arg.number {
                Some(f) => if !(f.finite && f.positive && f.integral) {
                    Some(value_diagnostic(arg_message_str(c, name, "must be a finite positive integer"), arg.span))
                } else {
                    None
                },
                None => None,
            }
        } else {
            None
        },
        StrategyCall::RiskMaxPositionSize => if str_eq(name, "contracts") {
            match arg.number {
                Some(f) => if !(f.finite && f.positive) {
                    Some(value_diagnostic(arg_message_str(c, name, "must be finite and positive"), arg.span))
                } else {
                    None
                },
                None => None,
            }
        } else {
            None
        },
    }
}

fn call_arg_diagnostic(c: StrategyCall, index: usize, arg: &KnownArg, context: Option<&str>) -> (r: Option<
    Diagnostic,
>)
    ensures
        match r {
            Some(d) => call_arg_diag(c, index as int, *arg, opt_text(context)) == Some(diag_view(d)),
            None => call_arg_diag(c, index as int, *arg, opt_text(context)) is None,
        },
{
    match arg_name_of(c, index, arg) {
        None => if c == StrategyCall::Close {
            Some(
                Diagnostic::error(
                    "E_CALL_ARG_NAME",
                    String::from_str("`strategy.close` partial quantity arguments must be named arguments"),
                    arg.span,
                ),
            )
        } else {
            None
        },
        Some(name) => named_arg_diagnostic(c, name, arg, context),
    }
}

/// Reports each argument of a call of `c` whose known value is refused.
fn report_call_args(c: StrategyCall, args: &Vec<KnownArg>, context: Option<&str>, diagnostics: &mut Vec<Diagnostic>)
    ensures
        diag_views(final(diagnostics)@) == diag_views(old(diagnostics)@) + call_arg_diags(
            c,
            args@,
            opt_text(context),
        ),
{
    let ghost start = diag_views(diagnostics@);
    let ghost ctx = opt_text(context);
    assert(args@.take(0) =~= Seq::<KnownArg>::empty());
    assert(diag_views(diagnostics@) =~= start + Seq::<DiagView>::empty());
    let mut i: usize = 0;
    while i < args.len()
        invariant
            i <= args@.len(),
            ctx == opt_text(context),
            diag_views(diagnostics@) == start + call_arg_diags(c, args@.take(i as int), ctx),
        decreases args@.len() - i,
    {
        let ghost before = diag_views(diagnostics@);
        proof {
            assert(args@.take(i as int + 1).drop_last() =~= args@.take(i as int));
            assert(args@.take(i as int + 1).last() == args@[i as int]);
        }
        match call_arg_diagnostic(c, i, &args[i], context) {
            Some(d) => {
                diagnostics.push(d);
                assert(diag_views(diagnostics@) =~= before.push(diag_view(d)));
            },
            None => {},
        }
        proof {
            assert(diag_views(diagnostics@) =~= start + call_arg_diags(c, args@.take(i as int + 1), ctx));
        }
        i = i + 1;
    }
    assert(args@.take(args@.len() as int) =~= args@);
}

/// Checks the known values of the arguments of `strategy.entry`.  The
/// direction is the first known one, and each `direction` argument is
/// reported when it is not long or short.
pub fn validate_strategy_entry_args(args: &Vec<KnownArg>, diagnostics: &mut Vec<Diagnostic>)
    ensures
        diag_views(final(diagnostics)@) == diag_views(old(diagnostics)@) + call_arg_diags(
            StrategyCall::Entry,
            args@,
            first_known_text(StrategyCall::Entry, args@, "direction"@, 0),
        ),
{
    let direction = find_known_text(StrategyCall::Entry, args, "direction");
    report_call_args(StrategyCall::Entry, args, direction, diagnostics);
}

/// A `strategy.order` that reduces a long position (known direction short)
/// needs an explicit quantity: reported at the first `direction` argument.
pub open spec fn reduce_only_diags(args: Seq<KnownArg>) -> Seq<DiagView> {
    let c = StrategyCall::Order;
    if first_known_text(c, args, "direction"@, 0) == Some("strategy.short"@) && first_for_param(
        c,
        args,
        "qty"@,
        0,
    ) is None && first_for_param(c, args, "direction"@, 0) is Some {
        seq![
            value_error(
                "`strategy.order` reduce-only strategy.short requires an explicit positive qty"@,
                args[first_for_param(c, args, "direction"@, 0)->0].span,
            ),
        ]
    } else {
        Seq::empty()
    }
}

/// Checks the known values of the arguments of `strategy.order`.
pub fn validate_strategy_order_args(args: &Vec<KnownArg>, diagnostics: &mut Vec<Diagnostic>)
    ensures
        diag_views(final(diagnostics)@) == diag_views(old(diagnostics)@) + reduce_only_diags(args@)
            + call_arg_diags(StrategyCall::Order, args@, None),
{
    let ghost start = diag_views(diagnostics@);
    let c = StrategyCall::Order;
    let direction = find_known_text(c, args, "direction");
    let has_qty = find_for_param(c, args, "qty").is_some();
    let short = match direction {
        Some(d) => str_eq(d, "strategy.short"),
        None => false,
    };
    if short && !has_qty {
        if let Some(j) = find_for_param(c, args, "direction") {
            let d = value_diagnostic(
                String::from_str("`strategy.order` reduce-only strategy.short requires an explicit positive qty"),
                args[j].span,
            );
            diagnostics.push(d);
            assert(diag_views(diagnostics@) =~= start.push(diag_view(d)));
        }
    }
    assert(diag_views(diagnostics@) =~= start + reduce_only_diags(args@));
    report_call_args(c, args, None, diagnostics);
}

/// Checks the arguments of `strategy.close`: all but the first must be
/// named, and known quantities must be finite and positive.
pub fn validate_strategy_close_args(args: &Vec<KnownArg>, diagnostics: &mut Vec<Diagnostic>)
    ensures
        diag_views(final(diagnostics)@) == diag_views(old(diagnostics)@) + call_arg_diags(
            StrategyCall::Close,
            args@,
            None,
        ),
{
    report_call_args(StrategyCall::Close, args, None, diagnostics);
}

/// Checks the direction `strategy.risk.allow_entry_in` allows.
pub fn validate_strategy_risk_allow_entry_in_args(args: &Vec<KnownArg>, diagnostics: &mut Vec<Diagnostic>)
    ensures
        diag_views(final(diagnostics)@) == diag_views(old(diagnostics)@) + call_arg_diags(
            StrategyCall::RiskAllowEntryIn,
            args@,
            None,
        ),
{
    report_call_args(StrategyCall::RiskAllowEntryIn, args, None, diagnostics);
}

/// Checks a drawdown or intraday loss limit: a finite positive value, at
/// most one hundred for a percentage, and a cash or percentage type, the
/// type being the first known one.
pub fn validate_strategy_risk_loss_limit_args(
    c: StrategyCall,
    args: &Vec<KnownArg>,
    diagnostics: &mut Vec<Diagnostic>,
)
    requires
        c == StrategyCall::RiskMaxDrawdown || c == StrategyCall::RiskMaxIntradayLoss,
    ensures
        diag_views(final(diagnostics)@) == diag_views(old(diagnostics)@) + call_arg_diags(
            c,
            args@,
            first_known_text(c, args@, "type"@, 0),
        ),
{
    let kind = find_known_text(c, args, "type");
    report_call_args(c, args, kind, diagnostics);
}

/// Checks the known values of the arguments of `strategy.risk.max_drawdown`.
pub fn validate_strategy_risk_max_drawdown_args(args: &Vec<KnownArg>, diagnostics: &mut Vec<Diagnostic>)
    ensures
        diag_views(final(diagnostics)@) == diag_views(old(diagnostics)@) + call_arg_diags(
            StrategyCall::RiskMaxDrawdown,
            args@,
            first_known_text(StrategyCall::RiskMaxDrawdown, args@, "type"@, 0),
        ),
{
    validate_strategy_risk_loss_limit_args(StrategyCall::RiskMaxDrawdown, args, diagnostics);
}

/// Checks the known values of the arguments of `strategy.risk.max_intraday_loss`.
pub fn validate_strategy_risk_max_intraday_loss_args(args: &Vec<KnownArg>, diagnostics: &mut Vec<Diagnostic>)
    ensures
        diag_views(final(diagnostics)@) == diag_views(old(diagnostics)@) + call_arg_diags(
            StrategyCall::RiskMaxIntradayLoss,
            args@,
            first_known_text(StrategyCall::RiskMaxIntradayLoss, args@, "type"@, 0),
        ),
{
    validate_strategy_risk_loss_limit_args(StrategyCall::RiskMaxIntradayLoss, args, diagnostics);
}

/// Checks the count of `strategy.risk.max_cons_loss_days`.
pub fn validate_strategy_risk_max_cons_loss_days_args(args: &Vec<KnownArg>, diagnostics: &mut Vec<Diagnostic>)
    ensures
        diag_views(final(diagnostics)@) == diag_views(old(diagnostics)@) + call_arg_diags(
            StrategyCall::RiskMaxConsLossDays,
            args@,
            None,
        ),
{
    report_call_args(StrategyCall::RiskMaxConsLossDays, args, None, diagnostics);
}

/// Checks the count of `strategy.risk.max_intraday_filled_orders`.
pub fn validate_strategy_risk_max_intraday_filled_orders_args(
    args: &Vec<KnownArg>,
    diagnostics: &mut Vec<Diagnostic>,
)
    ensures
        diag_views(final(diagnostics)@) == diag_views(old(diagnostics)@) + call_arg_diags(
            StrategyCall::RiskMaxIntradayFilledOrders,
            args@,
            None,
        ),
{
    report_call_args(StrategyCall::RiskMaxIntradayFilledOrders, args, None, diagnostics);
}

/// Checks the contracts of `strategy.risk.max_position_size`.
pub fn validate_strategy_risk_max_position_size_args(args: &Vec<KnownArg>, diagnostics: &mut Vec<Diagnostic>)
    ensures
        diag_views(final(diagnostics)@) == diag_views(old(diagnostics)@) + call_arg_diags(
            StrategyCall::RiskMaxPositionSize,
            args@,
            None,
        ),
{
    report_call_args(StrategyCall::RiskMaxPositionSize, args, None, diagnostics);
}

/// Every report on the arguments of a strategy call points at one of them.
pub proof fn lemma_reports_point_at_arguments(c: StrategyCall, args: Seq<KnownArg>, context: Option<Seq<char>>)
    ensures
        forall|j: int|
            0 <= j < call_arg_diags(c, args, context).len() ==> exists|i: int|
                0 <= i < args.len() && (#[trigger] call_arg_diags(c, args, context)[j]).3 == args[i].span,
    decreases args.len(),
{
    if args.len() > 0 {
        let prev = args.drop_last();
        lemma_reports_point_at_arguments(c, prev, context);
        let k = args.len() - 1;
        assert(args.last() == args[k]);
        let all = call_arg_diags(c, args, context);
        let before = call_arg_diags(c, prev, context);
        assert forall|j: int| 0 <= j < all.len() implies exists|i: int|
            0 <= i < args.len() && (#[trigger] all[j]).3 == args[i].span by {
            if j < before.len() {
                assert(all[j] == before[j]);
                let i = choose|i: int| 0 <= i < prev.len() && before[j].3 == prev[i].span;
                assert(prev[i] == args[i]);
            } else {
                assert(all[j].3 == args[k].span);
            }
        }
    }
}

/// A known direction of `strategy.long` or `strategy.short` is never
/// reported on a `direction` argument of `strategy.entry` (the first known
/// direction of the call) or of `strategy.order` (the argument's own);
/// any other known direction is.
pub proof fn lemma_long_and_short_directions_pass(c: StrategyCall, arg: KnownArg, context: Option<Seq<char>>)
    requires
        c == StrategyCall::Entry || c == StrategyCall::Order,
    ensures
        ({
            let direction = if c == StrategyCall::Entry { context } else { text_view(arg.text) };
            &&& (direction == Some("strategy.long"@) || direction == Some("strategy.short"@)) ==> named_arg_diag(
                c,
                "direction"@,
                arg,
                context,
            ) is None
            &&& (direction matches Some(d) && d != "strategy.long"@ && d != "strategy.short"@) ==> named_arg_diag(
                c,
                "direction"@,
                arg,
                context,
            ) is Some
        }),
{
}

/// A known `oca_type` of strategy.oca.none, strategy.oca.cancel or
/// strategy.oca.reduce is never reported on `strategy.entry` or
/// `strategy.order`; any other known value is.
pub proof fn lemma_oca_types_pass(c: StrategyCall, arg: KnownArg, context: Option<Seq<char>>)
    requires
        c == StrategyCall::Entry || c == StrategyCall::Order,
    ensures
        (text_view(arg.text) matches Some(t) && (t == "strategy.oca.none"@ || t == "strategy.oca.cancel"@ || t
            == "strategy.oca.reduce"@)) ==> named_arg_diag(c, "oca_type"@, arg, context) is None,
        (text_view(arg.text) matches Some(t) && !(t == "strategy.oca.none"@ || t == "strategy.oca.cancel"@ || t
            == "strategy.oca.reduce"@)) ==> named_arg_diag(c, "oca_type"@, arg, context) is Some,
{
    reveal_strlit("oca_type");
    reveal_strlit("direction");
    reveal_strlit("qty");
    reveal_strlit("limit");
    reveal_strlit("stop");
    assert("oca_type"@[0] != "direction"@[0]);
    assert("oca_type"@[0] != "qty"@[0]);
    assert("oca_type"@[0] != "limit"@[0]);
    assert("oca_type"@[0] != "stop"@[0]);
}

/// `strategy.risk.allow_entry_in` allows strategy.direction.all,
/// strategy.direction.long and strategy.direction.short without a report,
/// and reports any other known value.
pub proof fn lemma_risk_directions_pass(arg: KnownArg, context: Option<Seq<char>>)
    ensures
        (text_view(arg.text) matches Some(t) && (t == "strategy.direction.all"@ || t == "strategy.direction.long"@
            || t == "strategy.direction.short"@)) ==> named_arg_diag(
            StrategyCall::RiskAllowEntryIn,
            "value"@,
            arg,
            context,
        ) is None,
        (text_view(arg.text) matches Some(t) && !(t == "strategy.direction.all"@ || t == "strategy.direction.long"@
            || t == "strategy.direction.short"@)) ==> named_arg_diag(
            StrategyCall::RiskAllowEntryIn,
            "value"@,
            arg,
            context,
        ) is Some,
{
}

/// A drawdown or intraday-loss limit takes strategy.cash or
/// strategy.percent_of_equity as its known amount type without a report,
/// and reports any other known one.
pub proof fn lemma_risk_amount_types_pass(c: StrategyCall, arg: KnownArg, context: Option<Seq<char>>)
    requires
        c == StrategyCall::RiskMaxDrawdown || c == StrategyCall::RiskMaxIntradayLoss,
    ensures
        (context == Some("strategy.cash"@) || context == Some("strategy.percent_of_equity"@)) ==> named_arg_diag(
            c,
            "type"@,
            arg,
            context,
        ) is None,
        (context matches Some(k) && k != "strategy.cash"@ && k != "strategy.percent_of_equity"@) ==> named_arg_diag(
            c,
            "type"@,
            arg,
            context,
        ) is Some,
{
    reveal_strlit("type");
    reveal_strlit("value");
    assert("type"@[0] != "value"@[0]);
}

} // verus!
