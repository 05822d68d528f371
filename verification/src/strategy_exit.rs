//! The shape of a `strategy.exit` call: which triggers its arguments set,
//! and which combinations of them the strategy subset supports.
use vstd::prelude::*;
use vstd::string::*;
use crate::builtin_args::DiagView;
use crate::diagnostics::{Diagnostic, Severity, diag_view, diag_views};
use crate::strategy::{StrategyExitArgFamily, exit_arg_family, strategy_exit_arg_family};
use crate::syntax::{CallArg, Span};
use crate::text::str_eq;

verus! {

/// Which kinds of arguments a `strategy.exit` call has.
#[derive(Clone, Copy, Debug, PartialEq, Eq, Structural)]
pub struct ExitShape {
    pub has_stop: bool,
    pub has_limit: bool,
    pub has_profit: bool,
    pub has_loss: bool,
    pub has_trail_price: bool,
    pub has_trail_points: bool,
    pub has_trail_offset: bool,
    pub has_id: bool,
    pub has_unsupported_arg: bool,
}

/// The parameters of `strategy.exit` that may be given by position.
pub open spec fn exit_positional_params() -> Seq<Seq<char>> {
    seq!["id"@, "from_entry"@, "stop"@, "limit"@]
}

/// The parameter an argument of `strategy.exit` stands for.
pub open spec fn exit_arg_name(index: int, arg: CallArg) -> Option<Seq<char>> {
    match arg.name {
        Some(n) => Some(n@),
        None => if 0 <= index < exit_positional_params().len() {
            Some(exit_positional_params()[index])
        } else {
            None
        },
    }
}

pub open spec fn exit_arg_error(message: Seq<char>, span: Span) -> DiagView {
    (Severity::Error, "E_CALL_ARG_NAME"@, message, span)
}

pub open spec fn unnamed_exit_arg_diag(span: Span) -> DiagView {
    exit_arg_error("`strategy.exit` profit and loss arguments must be named arguments"@, span)
}

pub open spec fn unsupported_exit_arg_diag(name: Seq<char>, span: Span) -> DiagView {
    exit_arg_error(
        "`strategy.exit` argument `"@ + name + "` is not supported in the current strategy subset"@,
        span,
    )
}

/// What an argument for parameter `name`, of family `family`, adds to the
/// shape, and what it reports.
pub open spec fn family_step(
    shape: ExitShape,
    name: Seq<char>,
    family: Option<StrategyExitArgFamily>,
    span: Span,
) -> (ExitShape, Seq<DiagView>) {
    match family {
        None => (ExitShape { has_unsupported_arg: true, ..shape }, Seq::empty()),
        Some(family) => match family {
            StrategyExitArgFamily::Identity => (
                ExitShape { has_id: shape.has_id || name == "id"@, ..shape },
                Seq::empty(),
            ),
            StrategyExitArgFamily::DownsidePriceTrigger => (ExitShape { has_stop: true, ..shape }, Seq::empty()),
            StrategyExitArgFamily::DownsideTickTrigger => (ExitShape { has_loss: true, ..shape }, Seq::empty()),
            StrategyExitArgFamily::UpsidePriceTrigger => (ExitShape { has_limit: true, ..shape }, Seq::empty()),
            StrategyExitArgFamily::UpsideTickTrigger => (ExitShape { has_profit: true, ..shape }, Seq::empty()),
            StrategyExitArgFamily::TrailingActivation => if name == "trail_price"@ {
                (ExitShape { has_trail_price: true, ..shape }, Seq::empty())
            } else {
                (ExitShape { has_trail_points: true, ..shape }, Seq::empty())
            },
            StrategyExitArgFamily::TrailingOffset => (ExitShape { has_trail_offset: true, ..shape }, Seq::empty()),
            StrategyExitArgFamily::UnsupportedOption => (
                ExitShape { has_unsupported_arg: true, ..shape },
                seq![unsupported_exit_arg_diag(name, span)],
            ),
            _ => (shape, Seq::empty()),
        },
    }
}

/// What the argument at `index` adds to the shape, and what it reports.
pub open spec fn exit_step(shape: ExitShape, index: int, arg: CallArg) -> (ExitShape, Seq<DiagView>) {
    match exit_arg_name(index, arg) {
        None => (shape, seq![unnamed_exit_arg_diag(arg.span)]),
        Some(name) => family_step(shape, name, exit_arg_family(name), arg.span),
    }
}

pub open spec fn empty_exit_shape() -> ExitShape {
    ExitShape {
        has_stop: false,
        has_limit: false,
        has_profit: false,
        has_loss: false,
        has_trail_price: false,
        has_trail_points: false,
        has_trail_offset: false,
        has_id: false,
        has_unsupported_arg: false,
    }
}

/// The shape of all of `args` and what reading them reports, in order.
pub open spec fn exit_fold(args: Seq<CallArg>) -> (ExitShape, Seq<DiagView>)
    decreases args.len(),
{
    if args.len() == 0 {
        (empty_exit_shape(), Seq::empty())
    } else {
        let (shape, diags) = exit_fold(args.drop_last());
        let (next, more) = exit_step(shape, args.len() - 1, args.last());
        (next, diags + more)
    }
}

pub open spec fn count(b: bool) -> int {
    if b { 1 } else { 0 }
}

pub open spec fn trigger_count(s: ExitShape) -> int {
    count(s.has_stop) + count(s.has_limit) + count(s.has_profit) + count(s.has_loss)
}

pub open spec fn trailing_activation_count(s: ExitShape) -> int {
    count(s.has_trail_price) + count(s.has_trail_points)
}

pub open spec fn has_trailing_args(s: ExitShape) -> bool {
    trailing_activation_count(s) > 0 || s.has_trail_offset
}

/// At most one trigger, or one downside and one upside trigger.
pub open spec fn supported_trigger_shape(s: ExitShape) -> bool {
    trigger_count(s) <= 1 || (trigger_count(s) == 2 && count(s.has_stop) + count(s.has_loss) == 1
        && count(s.has_limit) + count(s.has_profit) == 1)
}

/// Groups of argument names, by which a report finds the argument it
/// points at.
#[derive(Clone, Copy, Debug, PartialEq, Eq, Structural)]
pub enum ExitNameGroup {
    TriggersAndTrailing,
    Trailing,
    LimitProfitLoss,
}

pub open spec fn exit_group_names(g: ExitNameGroup) -> Set<Seq<char>> {
    match g {
        ExitNameGroup::TriggersAndTrailing => set![
            "stop"@, "limit"@, "profit"@, "loss"@, "trail_price"@, "trail_points"@, "trail_offset"@,
        ],
        ExitNameGroup::Trailing => set!["trail_price"@, "trail_points"@, "trail_offset"@],
        ExitNameGroup::LimitProfitLoss => set!["limit"@, "profit"@, "loss"@],
    }
}

/// The first argument from `k` on that is named with a name of group `g`.
pub open spec fn first_named_in_group(args: Seq<CallArg>, g: ExitNameGroup, k: int) -> Option<int>
    decreases args.len() - k,
{
    if k < 0 || k >= args.len() {
        None
    } else if args[k].name matches Some(n) && exit_group_names(g).contains(n@) {
        Some(k)
    } else {
        first_named_in_group(args, g, k + 1)
    }
}

pub open spec fn span_at(args: Seq<CallArg>, i: Option<int>) -> Span {
    match i {
        Some(k) => args[k].span,
        None => Span { start: 0, end: 0 },
    }
}

/// What is reported on the call as a whole: trailing exits alone and in
/// their one supported form, and otherwise a supported combination of
/// triggers, at least one of them where the call names its entry.
pub open spec fn exit_closing_diags(s: ExitShape, args: Seq<CallArg>) -> Seq<DiagView> {
    if has_trailing_args(s) {
        let mixed: Seq<DiagView> = if trigger_count(s) > 0 {
            seq![
                exit_arg_error(
                    "`strategy.exit` cannot combine trailing exits with fixed stop, limit, profit, or loss triggers in the current strategy subset"@,
                    span_at(args, first_named_in_group(args, ExitNameGroup::TriggersAndTrailing, 0)),
                ),
            ]
        } else {
            Seq::empty()
        };
        let malformed: Seq<DiagView> = if trailing_activation_count(s) != 1 || !s.has_trail_offset {
            seq![
                exit_arg_error(
                    "`strategy.exit` trailing exits require exactly one of `trail_price` or `trail_points` plus `trail_offset`"@,
                    span_at(args, first_named_in_group(args, ExitNameGroup::Trailing, 0)),
                ),
            ]
        } else {
            Seq::empty()
        };
        mixed + malformed
    } else if !supported_trigger_shape(s) {
        let at = match first_named_in_group(args, ExitNameGroup::LimitProfitLoss, 0) {
            Some(k) => Some(k),
            None => if args.len() > 3 {
                Some(3int)
            } else {
                None
            },
        };
        seq![
            exit_arg_error(
                "`strategy.exit` combined trigger families are not supported in the current strategy subset"@,
                span_at(args, at),
            ),
        ]
    } else if trigger_count(s) == 0 && s.has_id && !s.has_unsupported_arg {
        seq![
            (
                Severity::Error,
                "E_CALL_ARITY"@,
                "`strategy.exit` requires one of `stop`, `limit`, `profit`, or `loss`"@,
                span_at(args, if args.len() > 0 { Some(0int) } else { None }),
            ),
        ]
    } else {
        Seq::empty()
    }
}

fn push_exit_error(message: String, span: Span, diagnostics: &mut Vec<Diagnostic>)
    ensures
        diag_views(final(diagnostics)@) == diag_views(old(diagnostics)@).push(exit_arg_error(message@, span)),
{
    let ghost before = diagnostics@;
    let d = Diagnostic::error("E_CALL_ARG_NAME", message, span);
    diagnostics.push(d);
    assert(diag_views(diagnostics@) =~= diag_views(before).push(diag_view(d)));
}

fn exit_positional_param(index: usize) -> (r: Option<&'static str>)
    ensures
        match r {
            Some(p) => index < exit_positional_params().len() && p@ == exit_positional_params()[index as int],
            None => index >= exit_positional_params().len(),
        },
{
    match index {
        0 => Some("id"),
        1 => Some("from_entry"),
        2 => Some("stop"),
        3 => Some("limit"),
        _ => None,
    }
}

fn in_exit_group(name: &str, g: ExitNameGroup) -> (r: bool)
    ensures
        r == exit_group_names(g).contains(name@),
{
    match g {
        ExitNameGroup::TriggersAndTrailing => str_eq(name, "stop") || str_eq(name, "limit") || str_eq(name, "profit")
            || str_eq(name, "loss") || str_eq(name, "trail_price") || str_eq(name, "trail_points") || str_eq(
            name,
            "trail_offset",
        ),
        ExitNameGroup::Trailing => str_eq(name, "trail_price") || str_eq(name, "trail_points") || str_eq(
            name,
            "trail_offset",
        ),
        ExitNameGroup::LimitProfitLoss => str_eq(name, "limit") || str_eq(name, "profit") || str_eq(name, "loss"),
    }
}

fn find_named_in_group(args: &Vec<CallArg>, g: ExitNameGroup) -> (r: Option<usize>)
    ensures
        match r {
            Some(i) => i < args@.len() && first_named_in_group(args@, g, 0) == Some(i as int),
            None => first_named_in_group(args@, g, 0) is None,
        },
{
    let mut k: usize = 0;
    while k < args.len()
        invariant
            k <= args@.len(),
            first_named_in_group(args@, g, 0) == first_named_in_group(args@, g, k as int),
        decreases args@.len() - k,
    {
        if let Some(n) = &args[k].name {
            if in_exit_group(n.as_str(), g) {
                return Some(k);
            }
        }
        k = k + 1;
    }
    None
}

/// Reads the argument at `index` into the shape.
fn read_exit_arg(shape: &mut ExitShape, index: usize, arg: &CallArg, diagnostics: &mut Vec<Diagnostic>)
    ensures
        ({
            let (next, more) = exit_step(*old(shape), index as int, *arg);
            &&& *final(shape) == next
            &&& diag_views(final(diagnostics)@) == diag_views(old(diagnostics)@) + more
        }),
{
    let ghost start = diag_views(diagnostics@);
    let name: &str = match &arg.name {
        Some(n) => n.as_str(),
        None => match exit_positional_param(index) {
            Some(p) => p,
            None => {
                push_exit_error(
                    String::from_str("`strategy.exit` profit and loss arguments must be named arguments"),
                    arg.span,
                    diagnostics,
                );
                proof {
                    assert(diag_views(diagnostics@) =~= start + seq![unnamed_exit_arg_diag(arg.span)]);
                }
                return;
            },
        },
    };
    assert(exit_arg_name(index as int, *arg) == Some(name@));
    let family = strategy_exit_arg_family(name);
    apply_family(shape, name, family, arg.span, diagnostics);
}

fn apply_family(
    shape: &mut ExitShape,
    name: &str,
    family: Option<StrategyExitArgFamily>,
    span: Span,
    diagnostics: &mut Vec<Diagnostic>,
)
    ensures
        ({
            let (next, more) = family_step(*old(shape), name@, family, span);
            &&& *final(shape) == next
            &&& diag_views(final(diagnostics)@) == diag_views(old(diagnostics)@) + more
        }),
{
    let ghost start = diag_views(diagnostics@);
    match family {
        None => {
            shape.has_unsupported_arg = true;
        },
        Some(family) => match family {
            StrategyExitArgFamily::Identity => {
                shape.has_id = shape.has_id || str_eq(name, "id");
            },
            StrategyExitArgFamily::DownsidePriceTrigger => {
                shape.has_stop = true;
            },
            StrategyExitArgFamily::DownsideTickTrigger => {
                shape.has_loss = true;
            },
            StrategyExitArgFamily::UpsidePriceTrigger => {
                shape.has_limit = true;
            },
            StrategyExitArgFamily::UpsideTickTrigger => {
                shape.has_profit = true;
            },
            StrategyExitArgFamily::TrailingActivation => {
                if str_eq(name, "trail_price") {
                    shape.has_trail_price = true;
                } else {
                    shape.has_trail_points = true;
                }
            },
            StrategyExitArgFamily::TrailingOffset => {
                shape.has_trail_offset = true;
            },
            StrategyExitArgFamily::UnsupportedOption => {
                shape.has_unsupported_arg = true;
                let mut message = String::from_str("`strategy.exit` argument `");
                message.append(name);
                message.append("` is not supported in the current strategy subset");
                push_exit_error(message, span, diagnostics);
            },
            _ => {},
        },
    }
    proof {
        let (next, more) = family_step(*old(shape), name@, family, span);
        assert(diag_views(diagnostics@) =~= start + more);
    }
}

fn span_of(args: &Vec<CallArg>, i: Option<usize>) -> (r: Span)
    requires
        i matches Some(k) ==> k < args@.len(),
    ensures
        r == span_at(
            args@,
            match i {
                Some(k) => Some(k as int),
                None => None,
            },
        ),
{
    match i {
        Some(k) => args[k].span,
        None => Span { start: 0, end: 0 },
    }
}

/// Checks the arguments of a `strategy.exit` call: arguments past the
/// positional ones must be named; trailing exits stand alone, with exactly
/// one activation and an offset; fixed triggers may pair only a downside
/// with an upside one; and a call that names its entry needs a trigger.
pub fn validate_strategy_exit_args(args: &Vec<CallArg>, diagnostics: &mut Vec<Diagnostic>)
    ensures
        ({
            let (shape, diags) = exit_fold(args@);
            diag_views(final(diagnostics)@) == diag_views(old(diagnostics)@) + diags + exit_closing_diags(
                shape,
                args@,
            )
        }),
{
    let ghost start = diag_views(diagnostics@);
    let mut shape = ExitShape {
        has_stop: false,
        has_limit: false,
        has_profit: false,
        has_loss: false,
        has_trail_price: false,
        has_trail_points: false,
        has_trail_offset: false,
        has_id: false,
        has_unsupported_arg: false,
    };
    assert(args@.take(0) =~= Seq::<CallArg>::empty());
    assert(diag_views(diagnostics@).skip(start.len() as int) =~= Seq::<DiagView>::empty());
    let mut i: usize = 0;
    while i < args.len()
        invariant
            i <= args@.len(),
            (shape, diag_views(diagnostics@).skip(start.len() as int)) == exit_fold(args@.take(i as int)),
            diag_views(diagnostics@).take(start.len() as int) == start,
            diag_views(diagnostics@).len() >= start.len(),
        decreases args@.len() - i,
    {
        let ghost before = diag_views(diagnostics@);
        proof {
            assert(args@.take(i as int + 1).drop_last() =~= args@.take(i as int));
            assert(args@.take(i as int + 1).last() == args@[i as int]);
        }
        read_exit_arg(&mut shape, i, &args[i], diagnostics);
        proof {
            let (next, more) = exit_step(exit_fold(args@.take(i as int)).0, i as int, args@[i as int]);
            assert(diag_views(diagnostics@).skip(start.len() as int) =~= before.skip(start.len() as int)
                + more);
            assert(diag_views(diagnostics@).take(start.len() as int) =~= before.take(start.len() as int));
        }
        i = i + 1;
    }
    assert(args@.take(args@.len() as int) =~= args@);
    let ghost read = diag_views(diagnostics@);
    assert(read =~= start + read.skip(start.len() as int));
    report_exit_shape(shape, args, diagnostics);
    proof {
        assert(diag_views(diagnostics@) =~= read + exit_closing_diags(shape, args@));
    }
}

/// Reports what is wrong with the shape of the call as a whole.
fn report_exit_shape(shape: ExitShape, args: &Vec<CallArg>, diagnostics: &mut Vec<Diagnostic>)
    ensures
        diag_views(final(diagnostics)@) == diag_views(old(diagnostics)@) + exit_closing_diags(shape, args@),
{
    let ghost read = diag_views(diagnostics@);
    let triggers: usize = (if shape.has_stop { 1 } else { 0 }) + (if shape.has_limit { 1 } else { 0 }) + (
    if shape.has_profit {
        1
    } else {
        0
    }) + (if shape.has_loss { 1 } else { 0 });
    let activations: usize = (if shape.has_trail_price { 1 } else { 0 }) + (if shape.has_trail_points {
        1
    } else {
        0
    });
    if activations > 0 || shape.has_trail_offset {
        if triggers > 0 {
            let at = find_named_in_group(args, ExitNameGroup::TriggersAndTrailing);
            push_exit_error(
                String::from_str(
                    "`strategy.exit` cannot combine trailing exits with fixed stop, limit, profit, or loss triggers in the current strategy subset",
                ),
                span_of(args, at),
                diagnostics,
            );
        }
        let ghost mid = diag_views(diagnostics@);
        if activations != 1 || !shape.has_trail_offset {
            let at = find_named_in_group(args, ExitNameGroup::Trailing);
            push_exit_error(
                String::from_str(
                    "`strategy.exit` trailing exits require exactly one of `trail_price` or `trail_points` plus `trail_offset`",
                ),
                span_of(args, at),
                diagnostics,
            );
        }
        proof {
            assert(diag_views(diagnostics@) =~= read + exit_closing_diags(shape, args@));
        }
        return;
    }
    let downside: usize = (if shape.has_stop { 1 } else { 0 }) + (if shape.has_loss { 1 } else { 0 });
    let upside: usize = (if shape.has_limit { 1 } else { 0 }) + (if shape.has_profit { 1 } else { 0 });
    let supported = triggers <= 1 || (triggers == 2 && downside == 1 && upside == 1);
    if !supported {
        let found = find_named_in_group(args, ExitNameGroup::LimitProfitLoss);
        let at = match found {
            Some(k) => Some(k),
            None => if args.len() > 3 {
                Some(3)
            } else {
                None
            },
        };
        push_exit_error(
            String::from_str(
                "`strategy.exit` combined trigger families are not supported in the current strategy subset",
            ),
            span_of(args, at),
            diagnostics,
        );
    } else if triggers == 0 && shape.has_id && !shape.has_unsupported_arg {
        let span = if args.len() > 0 {
            args[0].span
        } else {
            Span { start: 0, end: 0 }
        };
        let ghost before = diagnostics@;
        let d = Diagnostic::error(
            "E_CALL_ARITY",
            String::from_str("`strategy.exit` requires one of `stop`, `limit`, `profit`, or `loss`"),
            span,
        );
        diagnostics.push(d);
        assert(diag_views(diagnostics@) =~= diag_views(before).push(diag_view(d)));
    }
    proof {
        assert(diag_views(diagnostics@) =~= read + exit_closing_diags(shape, args@));
    }
}

/// A `strategy.exit` call whose shape draws no report uses trailing exits
/// alone, with exactly one activation and an offset, or else at most one
/// trigger or one downside and one upside trigger; and where it names its
/// entry and no unsupported argument, it has a trigger.
pub proof fn lemma_unreported_exit_shape_is_supported(args: Seq<CallArg>)
    ensures
        ({
            let shape = exit_fold(args).0;
            exit_closing_diags(shape, args).len() == 0 ==> {
                &&& has_trailing_args(shape) ==> trigger_count(shape) == 0 && trailing_activation_count(shape) == 1
                    && shape.has_trail_offset
                &&& !has_trailing_args(shape) ==> supported_trigger_shape(shape)
                &&& !has_trailing_args(shape) && shape.has_id && !shape.has_unsupported_arg ==> trigger_count(
                    shape,
                ) > 0
            }
        }),
{
}

} // verus!
