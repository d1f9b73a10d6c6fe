//! Trend, stop and extreme-point decisions of the Parabolic SAR.
//!
//! The caller runs the series: for each row it computes the unclamped stop
//! `sar + af * (ep - sar)` (in a downtrend `sar - af * (sar - ep)`) in floating
//! point, hands its key here, and applies the returned change to its
//! acceleration factor. Everything else the indicator decides is decided here.

use vstd::prelude::*;

verus! {

/// Where the indicator stands after a row.
#[derive(Debug, Clone, Copy, PartialEq, Eq)]
pub struct PsarState {
    /// Whether the trend is up.
    pub up: bool,
    /// The current stop.
    pub sar: i64,
    /// The extreme point of the trend: its highest high, or its lowest low.
    pub ep: i64,
}

/// What the caller does to its acceleration factor after a row.
#[derive(Debug, Clone, Copy, PartialEq, Eq)]
pub enum AfChange {
    /// Leave it as it is.
    Keep,
    /// Set it back to the step (the trend reversed).
    Reset,
    /// Add the step, up to the maximum (the trend reached a new extreme).
    Raise,
}

/// The prices a row is decided on: its own high and low and those of the two
/// rows before it.
#[derive(Debug, Clone, Copy, PartialEq, Eq)]
pub struct PsarBar {
    pub high: Option<i64>,
    pub low: Option<i64>,
    pub high_prev: Option<i64>,
    pub low_prev: Option<i64>,
    pub high_prev2: Option<i64>,
    pub low_prev2: Option<i64>,
}

/// The outcome of one row: the new state, the stop shown for the row (missing
/// when the row could not be decided) and the change to the acceleration factor.
#[derive(Debug, Clone, Copy, PartialEq, Eq)]
pub struct PsarStep {
    pub state: PsarState,
    pub output: Option<i64>,
    pub af: AfChange,
}

pub open spec fn min_key(a: int, b: int) -> int {
    if a <= b { a } else { b }
}

pub open spec fn max_key(a: int, b: int) -> int {
    if a >= b { a } else { b }
}

/// All six prices of the row are known.
pub open spec fn bar_complete(bar: PsarBar) -> bool {
    &&& bar.high is Some
    &&& bar.low is Some
    &&& bar.high_prev is Some
    &&& bar.low_prev is Some
    &&& bar.high_prev2 is Some
    &&& bar.low_prev2 is Some
}

/// The state after the first two rows: the trend is up when the second close
/// is above the first; the extreme point is the higher of the two highs (the
/// lower of the two lows in a downtrend); the stop is the first low (the first
/// high in a downtrend). Missing when one of the six prices is.
pub open spec fn start_state(
    close0: Option<i64>,
    close1: Option<i64>,
    high0: Option<i64>,
    high1: Option<i64>,
    low0: Option<i64>,
    low1: Option<i64>,
) -> Option<PsarState> {
    if close0 is Some && close1 is Some && high0 is Some && high1 is Some && low0 is Some
        && low1 is Some {
        let up = close1->0 > close0->0;
        Some(
            PsarState {
                up,
                sar: if up { low0->0 } else { high0->0 },
                ep: if up {
                    max_key(high1->0 as int, high0->0 as int) as i64
                } else {
                    min_key(low1->0 as int, low0->0 as int) as i64
                },
            },
        )
    } else {
        None
    }
}

/// The stop after clamping: in an uptrend no higher than the two previous
/// lows, in a downtrend no lower than the two previous highs. An unclamped
/// stop that is not a number (`None`) gives way to the prices.
pub open spec fn clamped_sar(up: bool, raw: Option<i64>, bar: PsarBar) -> int {
    if up {
        let lows = min_key(bar.low_prev->0 as int, bar.low_prev2->0 as int);
        if raw is Some { min_key(raw->0 as int, lows) } else { lows }
    } else {
        let highs = max_key(bar.high_prev->0 as int, bar.high_prev2->0 as int);
        if raw is Some { max_key(raw->0 as int, highs) } else { highs }
    }
}

/// The outcome of one row (see the module documentation).
pub open spec fn step_outcome(s: PsarState, bar: PsarBar, raw: Option<i64>) -> PsarStep {
    if !bar_complete(bar) {
        PsarStep { state: s, output: None, af: AfChange::Keep }
    } else {
        let c = clamped_sar(s.up, raw, bar) as i64;
        if s.up {
            let low = bar.low->0;
            let high = bar.high->0;
            if low < c {
                PsarStep {
                    state: PsarState { up: false, sar: s.ep, ep: low },
                    output: Some(s.ep),
                    af: AfChange::Reset,
                }
            } else if high > s.ep {
                PsarStep {
                    state: PsarState { up: true, sar: c, ep: high },
                    output: Some(c),
                    af: AfChange::Raise,
                }
            } else {
                PsarStep {
                    state: PsarState { up: true, sar: c, ep: s.ep },
                    output: Some(c),
                    af: AfChange::Keep,
                }
            }
        } else {
            let low = bar.low->0;
            let high = bar.high->0;
            if high > c {
                PsarStep {
                    state: PsarState { up: true, sar: s.ep, ep: high },
                    output: Some(s.ep),
                    af: AfChange::Reset,
                }
            } else if low < s.ep {
                PsarStep {
                    state: PsarState { up: false, sar: c, ep: low },
                    output: Some(c),
                    af: AfChange::Raise,
                }
            } else {
                PsarStep {
                    state: PsarState { up: false, sar: c, ep: s.ep },
                    output: Some(c),
                    af: AfChange::Keep,
                }
            }
        }
    }
}

fn min_of(a: i64, b: i64) -> (r: i64)
    ensures
        r == min_key(a as int, b as int),
{
    if a <= b { a } else { b }
}

fn max_of(a: i64, b: i64) -> (r: i64)
    ensures
        r == max_key(a as int, b as int),
{
    if a >= b { a } else { b }
}

/// The state after the first two rows, if their prices are all known.
pub fn psar_start(
    close0: Option<i64>,
    close1: Option<i64>,
    high0: Option<i64>,
    high1: Option<i64>,
    low0: Option<i64>,
    low1: Option<i64>,
) -> (r: Option<PsarState>)
    ensures
        r == start_state(close0, close1, high0, high1, low0, low1),
{
    match (close0, close1, high0, high1, low0, low1) {
        (Some(c0), Some(c1), Some(h0), Some(h1), Some(l0), Some(l1)) => {
            let up = c1 > c0;
            if up {
                Some(PsarState { up, sar: l0, ep: max_of(h1, h0) })
            } else {
                Some(PsarState { up, sar: h0, ep: min_of(l1, l0) })
            }
        },
        _ => None,
    }
}

/// Decides one row from the state before it, its prices and the key of the
/// unclamped stop.
pub fn psar_step(state: PsarState, bar: &PsarBar, raw: Option<i64>) -> (r: PsarStep)
    ensures
        r == step_outcome(state, *bar, raw),
{
    match (bar.high, bar.low, bar.high_prev, bar.low_prev, bar.high_prev2, bar.low_prev2) {
        (Some(high), Some(low), Some(hp), Some(lp), Some(hp2), Some(lp2)) => {
            if state.up {
                let lows = min_of(lp, lp2);
                let c = match raw {
                    Some(x) => min_of(x, lows),
                    None => lows,
                };
                if low < c {
                    PsarStep {
                        state: PsarState { up: false, sar: state.ep, ep: low },
                        output: Some(state.ep),
                        af: AfChange::Reset,
                    }
                } else if high > state.ep {
                    PsarStep {
                        state: PsarState { up: true, sar: c, ep: high },
                        output: Some(c),
                        af: AfChange::Raise,
                    }
                } else {
                    PsarStep {
                        state: PsarState { up: true, sar: c, ep: state.ep },
                        output: Some(c),
                        af: AfChange::Keep,
                    }
                }
            } else {
                let highs = max_of(hp, hp2);
                let c = match raw {
                    Some(x) => max_of(x, highs),
                    None => highs,
                };
                if high > c {
                    PsarStep {
                        state: PsarState { up: true, sar: state.ep, ep: high },
                        output: Some(state.ep),
                        af: AfChange::Reset,
                    }
                } else if low < state.ep {
                    PsarStep {
                        state: PsarState { up: false, sar: c, ep: low },
                        output: Some(c),
                        af: AfChange::Raise,
                    }
                } else {
                    PsarStep {
                        state: PsarState { up: false, sar: c, ep: state.ep },
                        output: Some(c),
                        af: AfChange::Keep,
                    }
                }
            }
        },
        _ => PsarStep { state, output: None, af: AfChange::Keep },
    }
}

/// A row that lacks one of its six prices shows no stop and changes nothing.
pub proof fn lemma_incomplete_row_changes_nothing(s: PsarState, bar: PsarBar, raw: Option<i64>)
    requires
        !bar_complete(bar),
    ensures
        step_outcome(s, bar, raw).state == s,
        step_outcome(s, bar, raw).output is None,
        step_outcome(s, bar, raw).af == AfChange::Keep,
{
}

/// While an uptrend lasts, the stop stays at or below the row's low and the two
/// lows before it, the extreme point never falls, and the stop shown is the
/// stop kept.
pub proof fn lemma_uptrend_stop_below_lows(s: PsarState, bar: PsarBar, raw: Option<i64>)
    requires
        s.up,
        bar_complete(bar),
        step_outcome(s, bar, raw).state.up,
    ensures
        ({
            let r = step_outcome(s, bar, raw);
            &&& r.state.sar <= bar.low->0
            &&& r.state.sar <= bar.low_prev->0
            &&& r.state.sar <= bar.low_prev2->0
            &&& r.state.ep >= s.ep
            &&& r.state.ep >= bar.high->0
            &&& r.output == Some(r.state.sar)
        }),
{
}

/// While a downtrend lasts, the stop stays at or above the row's high and the
/// two highs before it, the extreme point never rises, and the stop shown is
/// the stop kept.
pub proof fn lemma_downtrend_stop_above_highs(s: PsarState, bar: PsarBar, raw: Option<i64>)
    requires
        !s.up,
        bar_complete(bar),
        !step_outcome(s, bar, raw).state.up,
    ensures
        ({
            let r = step_outcome(s, bar, raw);
            &&& r.state.sar >= bar.high->0
            &&& r.state.sar >= bar.high_prev->0
            &&& r.state.sar >= bar.high_prev2->0
            &&& r.state.ep <= s.ep
            &&& r.state.ep <= bar.low->0
            &&& r.output == Some(r.state.sar)
        }),
{
}

/// A reversal happens exactly when the row's price crosses the clamped stop;
/// the new stop is the extreme point of the trend that ended, the new extreme
/// point is the row's own extreme, and the acceleration factor starts over.
pub proof fn lemma_reversal(s: PsarState, bar: PsarBar, raw: Option<i64>)
    requires
        bar_complete(bar),
    ensures
        ({
            let r = step_outcome(s, bar, raw);
            let c = clamped_sar(s.up, raw, bar);
            &&& (r.state.up != s.up) == (if s.up { bar.low->0 < c } else { bar.high->0 > c })
            &&& r.state.up != s.up ==> {
                &&& r.state.sar == s.ep
                &&& r.output == Some(s.ep)
                &&& r.state.ep == (if s.up { bar.low->0 } else { bar.high->0 })
                &&& r.af == AfChange::Reset
            }
        }),
{
}

/// The acceleration factor is raised only when the trend goes on to a new
/// extreme, and then the extreme point moves to the row's price.
pub proof fn lemma_raise_only_on_new_extreme(s: PsarState, bar: PsarBar, raw: Option<i64>)
    ensures
        step_outcome(s, bar, raw).af == AfChange::Raise ==> {
            &&& bar_complete(bar)
            &&& step_outcome(s, bar, raw).state.up == s.up
            &&& (s.up ==> bar.high->0 > s.ep && step_outcome(s, bar, raw).state.ep == bar.high->0)
            &&& (!s.up ==> bar.low->0 < s.ep && step_outcome(s, bar, raw).state.ep == bar.low->0)
        },
{
}


/// The start takes its trend from the first two closes and bounds both first
/// rows: in an uptrend the extreme point is the higher of the two highs and the
/// stop the first low; in a downtrend the extreme point is the lower of the two
/// lows and the stop the first high.
pub proof fn lemma_start_bounds_first_rows(c0: i64, c1: i64, h0: i64, h1: i64, l0: i64, l1: i64)
    ensures
        ({
            let r = start_state(Some(c0), Some(c1), Some(h0), Some(h1), Some(l0), Some(l1));
            &&& r is Some
            &&& r->0.up == (c1 > c0)
            &&& r->0.up ==> {
                &&& r->0.sar == l0
                &&& r->0.ep >= h0 && r->0.ep >= h1
                &&& (r->0.ep == h0 || r->0.ep == h1)
            }
            &&& !r->0.up ==> {
                &&& r->0.sar == h0
                &&& r->0.ep <= l0 && r->0.ep <= l1
                &&& (r->0.ep == l0 || r->0.ep == l1)
            }
        }),
{
}

/// Without all six first prices there is no start.
pub proof fn lemma_start_needs_all_prices(
    close0: Option<i64>,
    close1: Option<i64>,
    high0: Option<i64>,
    high1: Option<i64>,
    low0: Option<i64>,
    low1: Option<i64>,
)
    ensures
        start_state(close0, close1, high0, high1, low0, low1) is Some <==> (close0 is Some && close1
            is Some && high0 is Some && high1 is Some && low0 is Some && low1 is Some),
{
}

/// The clamped stop of an uptrend is the lowest of the unclamped stop (when it
/// is a number) and the two previous lows; of a downtrend, the highest of it
/// and the two previous highs.
pub proof fn lemma_clamp_is_extreme(up: bool, raw: Option<i64>, bar: PsarBar)
    requires
        bar_complete(bar),
    ensures
        ({
            let c = clamped_sar(up, raw, bar);
            let (p, q) = if up {
                (bar.low_prev->0 as int, bar.low_prev2->0 as int)
            } else {
                (bar.high_prev->0 as int, bar.high_prev2->0 as int)
            };
            &&& up ==> c <= p && c <= q && (raw is Some ==> c <= raw->0)
            &&& !up ==> c >= p && c >= q && (raw is Some ==> c >= raw->0)
            &&& (c == p || c == q || (raw is Some && c == raw->0))
        }),
{
}

/// On a complete row where the trend goes on, the stop shown and kept is the
/// clamped stop, and the extreme point moves to the row's high (low) exactly
/// when that is beyond it, raising the acceleration factor; otherwise both stay.
pub proof fn lemma_continuing_trend(s: PsarState, bar: PsarBar, raw: Option<i64>)
    requires
        bar_complete(bar),
        step_outcome(s, bar, raw).state.up == s.up,
    ensures
        ({
            let r = step_outcome(s, bar, raw);
            let c = clamped_sar(s.up, raw, bar);
            let x = if s.up { bar.high->0 } else { bar.low->0 };
            let beyond = if s.up { x > s.ep } else { x < s.ep };
            &&& r.state.sar == c
            &&& r.output == Some(r.state.sar)
            &&& (s.up ==> bar.low->0 >= c)
            &&& (!s.up ==> bar.high->0 <= c)
            &&& beyond ==> r.state.ep == x && r.af == AfChange::Raise
            &&& !beyond ==> r.state.ep == s.ep && r.af == AfChange::Keep
        }),
{
}

} // verus!
