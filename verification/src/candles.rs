//! Candlestick patterns: doji, hammer, engulfing and morning/evening star.
//!
//! The patterns read prices and measures of the candles (body sizes, shadows,
//! the bounds they are held to) as order keys and decide by comparing them.

use vstd::prelude::*;

verus! {

/// Why a pattern could not be computed.
#[derive(Debug, Clone, Copy, PartialEq, Eq)]
pub enum PatternError {
    /// The open and close columns do not have the same number of rows.
    LengthMismatch { open_len: usize, close_len: usize },
}

/// Lower end of a candle body.
pub open spec fn body_low(open: int, close: int) -> int {
    if open < close { open } else { close }
}

/// Upper end of a candle body.
pub open spec fn body_high(open: int, close: int) -> int {
    if open > close { open } else { close }
}

/// Signal of the candle `(co, cc)` against the candle before it `(po, pc)`:
/// `1` when a bullish candle engulfs the body of a non-bullish one, `-1` when a
/// non-bullish candle engulfs the body of a bullish one, `0` otherwise. A body
/// engulfs another when it reaches at least as low and at least as high.
pub open spec fn engulfing_signal(po: int, pc: int, co: int, cc: int) -> int {
    let bullish_now = co < cc;
    let bullish_before = po < pc;
    let engulfs = body_low(co, cc) <= body_low(po, pc) && body_high(co, cc) >= body_high(po, pc);
    if bullish_now && !bullish_before && engulfs {
        1
    } else if !bullish_now && bullish_before && engulfs {
        -1
    } else {
        0
    }
}

/// The engulfing value of row `i`: row 0, and every row where one of the four
/// prices involved is missing, gives `0`.
pub open spec fn engulfing_at(open: Seq<Option<i64>>, close: Seq<Option<i64>>, i: int) -> int {
    if 1 <= i && open[i - 1] is Some && close[i - 1] is Some && open[i] is Some && close[i] is Some {
        engulfing_signal(
            open[i - 1]->0 as int,
            close[i - 1]->0 as int,
            open[i]->0 as int,
            close[i]->0 as int,
        )
    } else {
        0
    }
}

fn engulfing_one(po: i64, pc: i64, co: i64, cc: i64) -> (r: i32)
    ensures
        r == engulfing_signal(po as int, pc as int, co as int, cc as int),
{
    let bullish_now = co < cc;
    let bullish_before = po < pc;
    let low_now = if co < cc { co } else { cc };
    let high_now = if co > cc { co } else { cc };
    let low_before = if po < pc { po } else { pc };
    let high_before = if po > pc { po } else { pc };
    let engulfs = low_now <= low_before && high_now >= high_before;
    if bullish_now && !bullish_before && engulfs {
        1
    } else if !bullish_now && bullish_before && engulfs {
        -1
    } else {
        0
    }
}

/// Engulfing pattern of every row: `1` bullish engulfing, `-1` bearish
/// engulfing, `0` none. The two columns must have the same length.
pub fn engulfing(open: &Vec<Option<i64>>, close: &Vec<Option<i64>>) -> (r: Result<Vec<i32>, PatternError>)
    ensures
        match r {
            Ok(signals) => {
                &&& open.len() == close.len()
                &&& signals.len() == open.len()
                &&& forall|i: int|
                    0 <= i < signals.len() ==> signals[i] == engulfing_at(open@, close@, i)
            },
            Err(e) => {
                &&& open.len() != close.len()
                &&& e == PatternError::LengthMismatch { open_len: open.len(), close_len: close.len() }
            },
        },
{
    if open.len() != close.len() {
        return Err(PatternError::LengthMismatch { open_len: open.len(), close_len: close.len() });
    }
    let n = open.len();
    let mut signals: Vec<i32> = Vec::new();
    let mut i: usize = 0;
    while i < n
        invariant
            n == open.len(),
            n == close.len(),
            i <= n,
            signals.len() == i,
            forall|k: int| 0 <= k < i ==> signals[k] == engulfing_at(open@, close@, k),
        decreases n - i,
    {
        let s: i32 = if i == 0 {
            0
        } else {
            match (open[i - 1], close[i - 1], open[i], close[i]) {
                (Some(po), Some(pc), Some(co), Some(cc)) => engulfing_one(po, pc, co, cc),
                _ => 0,
            }
        };
        signals.push(s);
        i = i + 1;
    }
    Ok(signals)
}

/// Three-valued conjunction, as a column expression combines conditions: false
/// wins, then unknown, then true.
pub open spec fn and3(a: Option<bool>, b: Option<bool>) -> Option<bool> {
    if a == Some(false) || b == Some(false) {
        Some(false)
    } else if a == Some(true) && b == Some(true) {
        Some(true)
    } else {
        None
    }
}

/// `a < b`, unknown when either side is missing.
pub open spec fn less(a: Option<i64>, b: Option<i64>) -> Option<bool> {
    if a is Some && b is Some { Some(a->0 < b->0) } else { None }
}

/// Lower end of every body: the open when it is known to be below the close,
/// the close otherwise (also when the comparison cannot be made).
pub open spec fn body_low_at(open: Option<i64>, close: Option<i64>) -> Option<i64> {
    if open is Some && close is Some && open->0 < close->0 { open } else { close }
}

/// Upper end of every body: the open when it is known to be above the close,
/// the close otherwise.
pub open spec fn body_high_at(open: Option<i64>, close: Option<i64>) -> Option<i64> {
    if open is Some && close is Some && open->0 > close->0 { open } else { close }
}

/// Lower and upper ends of the body of every candle.
pub fn body_bounds(open: &Vec<Option<i64>>, close: &Vec<Option<i64>>) -> (r: (Vec<Option<i64>>, Vec<Option<i64>>))
    requires
        open.len() == close.len(),
    ensures
        r.0.len() == open.len(),
        r.1.len() == open.len(),
        forall|i: int| 0 <= i < open.len() ==> r.0[i] == body_low_at(open[i], close[i]),
        forall|i: int| 0 <= i < open.len() ==> r.1[i] == body_high_at(open[i], close[i]),
{
    let n = open.len();
    let mut lows: Vec<Option<i64>> = Vec::new();
    let mut highs: Vec<Option<i64>> = Vec::new();
    let mut i: usize = 0;
    while i < n
        invariant
            n == open.len(),
            n == close.len(),
            i <= n,
            lows.len() == i,
            highs.len() == i,
            forall|k: int| 0 <= k < i ==> lows[k] == body_low_at(open[k], close[k]),
            forall|k: int| 0 <= k < i ==> highs[k] == body_high_at(open[k], close[k]),
        decreases n - i,
    {
        let (lo, hi) = match (open[i], close[i]) {
            (Some(o), Some(c)) => (if o < c { Some(o) } else { Some(c) }, if o > c { Some(o) } else { Some(c) }),
            _ => (close[i], close[i]),
        };
        lows.push(lo);
        highs.push(hi);
        i = i + 1;
    }
    (lows, highs)
}

/// Whether a candle is a hammer, from its body, the largest body it may have
/// (`body_threshold` times its range), its lower and upper shadows, and the
/// size the lower shadow must exceed (`shadow_ratio` times the upper shadow):
/// a small body, a lower shadow, and, when there is an upper shadow, a lower
/// shadow longer than the bound. Unknown when the known parts do not decide it.
pub open spec fn hammer_row(
    body: Option<i64>,
    body_limit: Option<i64>,
    lower: Option<i64>,
    upper: Option<i64>,
    lower_limit: Option<i64>,
) -> Option<bool> {
    let shadow_ok = if upper is Some && upper->0 > 0 { less(lower_limit, lower) } else { Some(true) };
    and3(and3(less(body, body_limit), less(Some(0), lower)), shadow_ok)
}

fn less_exec(a: Option<i64>, b: Option<i64>) -> (r: Option<bool>)
    ensures
        r == less(a, b),
{
    match (a, b) {
        (Some(x), Some(y)) => Some(x < y),
        _ => None,
    }
}

fn and3_exec(a: Option<bool>, b: Option<bool>) -> (r: Option<bool>)
    ensures
        r == and3(a, b),
{
    if a == Some(false) || b == Some(false) {
        Some(false)
    } else if a == Some(true) && b == Some(true) {
        Some(true)
    } else {
        None
    }
}

/// Hammer flag of every candle from the per-candle measures of `hammer_row`.
pub fn hammer(
    body: &Vec<Option<i64>>,
    body_limit: &Vec<Option<i64>>,
    lower: &Vec<Option<i64>>,
    upper: &Vec<Option<i64>>,
    lower_limit: &Vec<Option<i64>>,
) -> (r: Vec<Option<bool>>)
    requires
        body_limit.len() == body.len(),
        lower.len() == body.len(),
        upper.len() == body.len(),
        lower_limit.len() == body.len(),
    ensures
        r.len() == body.len(),
        forall|i: int|
            0 <= i < r.len() ==> r[i] == hammer_row(body[i], body_limit[i], lower[i], upper[i], lower_limit[i]),
{
    let n = body.len();
    let mut r: Vec<Option<bool>> = Vec::new();
    let mut i: usize = 0;
    while i < n
        invariant
            n == body.len(),
            n == body_limit.len(),
            n == lower.len(),
            n == upper.len(),
            n == lower_limit.len(),
            i <= n,
            r.len() == i,
            forall|k: int|
                0 <= k < i ==> r[k] == hammer_row(body[k], body_limit[k], lower[k], upper[k], lower_limit[k]),
        decreases n - i,
    {
        let shadow_ok = match upper[i] {
            Some(u) if u > 0 => less_exec(lower_limit[i], lower[i]),
            _ => Some(true),
        };
        let flag = and3_exec(and3_exec(less_exec(body[i], body_limit[i]), less_exec(Some(0), lower[i])), shadow_ok);
        r.push(flag);
        i = i + 1;
    }
    r
}

/// A candle with a known lower shadow that is not positive is never a hammer.
pub proof fn lemma_hammer_needs_lower_shadow(
    body: Option<i64>,
    body_limit: Option<i64>,
    lower: i64,
    upper: Option<i64>,
    lower_limit: Option<i64>,
)
    requires
        lower <= 0,
    ensures
        hammer_row(body, body_limit, Some(lower), upper, lower_limit) == Some(false),
{
}

/// Doji flag of every candle from the ratio of its body to its mid price: the
/// ratio is below the threshold; unknown when the ratio is missing.
pub fn doji(body_ratio: &Vec<Option<i64>>, threshold: i64) -> (r: Vec<Option<bool>>)
    ensures
        r.len() == body_ratio.len(),
        forall|i: int| 0 <= i < r.len() ==> r[i] == less(body_ratio[i], Some(threshold)),
{
    let n = body_ratio.len();
    let mut r: Vec<Option<bool>> = Vec::new();
    let mut i: usize = 0;
    while i < n
        invariant
            n == body_ratio.len(),
            i <= n,
            r.len() == i,
            forall|k: int| 0 <= k < i ==> r[k] == less(body_ratio[k], Some(threshold)),
        decreases n - i,
    {
        r.push(less_exec(body_ratio[i], Some(threshold)));
        i = i + 1;
    }
    r
}

/// Star pattern shown on the middle candle `i` of three: `1` for a morning star
/// (a bearish first candle, a middle body below the bound `body_limit` of the
/// first candle, a bullish third candle closing above the first candle's
/// midpoint), `-1` for an evening star (bullish, small, bearish closing below
/// the midpoint), `0` otherwise, on the first and the last candle, and where a
/// condition cannot be decided.
pub open spec fn star_at(
    open: Seq<Option<i64>>,
    close: Seq<Option<i64>>,
    body: Seq<Option<i64>>,
    body_limit: Seq<Option<i64>>,
    midpoint: Seq<Option<i64>>,
    i: int,
) -> int {
    if 1 <= i && i + 1 < open.len() {
        let first_bullish = less(open[i - 1], close[i - 1]);
        let third_bullish = less(open[i + 1], close[i + 1]);
        let small_middle = less(body[i], body_limit[i - 1]);
        if first_bullish == Some(false) && small_middle == Some(true) && third_bullish == Some(true)
            && less(midpoint[i - 1], close[i + 1]) == Some(true) {
            1
        } else if first_bullish == Some(true) && small_middle == Some(true) && third_bullish == Some(
            false,
        ) && less(close[i + 1], midpoint[i - 1]) == Some(true) {
            -1
        } else {
            0
        }
    } else {
        0
    }
}

/// Star pattern of every candle (see `star_at`), from the opens, closes, body
/// sizes, body bounds and body midpoints of the candles.
pub fn star(
    open: &Vec<Option<i64>>,
    close: &Vec<Option<i64>>,
    body: &Vec<Option<i64>>,
    body_limit: &Vec<Option<i64>>,
    midpoint: &Vec<Option<i64>>,
) -> (r: Vec<i32>)
    requires
        close.len() == open.len(),
        body.len() == open.len(),
        body_limit.len() == open.len(),
        midpoint.len() == open.len(),
    ensures
        r.len() == open.len(),
        forall|i: int| 0 <= i < r.len() ==> r[i] == star_at(open@, close@, body@, body_limit@, midpoint@, i),
{
    let n = open.len();
    let mut r: Vec<i32> = Vec::new();
    let mut i: usize = 0;
    while i < n
        invariant
            n == open.len(),
            n == close.len(),
            n == body.len(),
            n == body_limit.len(),
            n == midpoint.len(),
            i <= n,
            r.len() == i,
            forall|k: int| 0 <= k < i ==> r[k] == star_at(open@, close@, body@, body_limit@, midpoint@, k),
        decreases n - i,
    {
        let v: i32 = if i >= 1 && i + 1 < n {
            let first_bullish = less_exec(open[i - 1], close[i - 1]);
            let third_bullish = less_exec(open[i + 1], close[i + 1]);
            let small_middle = less_exec(body[i], body_limit[i - 1]);
            if first_bullish == Some(false) && small_middle == Some(true) && third_bullish == Some(true)
                && less_exec(midpoint[i - 1], close[i + 1]) == Some(true) {
                1
            } else if first_bullish == Some(true) && small_middle == Some(true) && third_bullish == Some(false)
                && less_exec(close[i + 1], midpoint[i - 1]) == Some(true) {
                -1
            } else {
                0
            }
        } else {
            0
        };
        r.push(v);
        i = i + 1;
    }
    r
}

/// Every present key negated (prices mirrored around zero).
pub open spec fn mirrored(keys: Seq<Option<i64>>) -> Seq<Option<i64>> {
    keys.map_values(|k: Option<i64>| if k is Some { Some((-k->0) as i64) } else { None })
}

/// Every present key can be negated.
pub open spec fn mirrorable(keys: Seq<Option<i64>>) -> bool {
    forall|i: int| 0 <= i < keys.len() && #[trigger] keys[i] is Some ==> keys[i]->0 > i64::MIN
}

/// Mirroring the prices (and with them the body midpoints) turns a morning star
/// into an evening star and back, when the outer candles have non-empty bodies;
/// body sizes and their bounds do not change under mirroring.
pub proof fn lemma_star_mirror(
    open: Seq<Option<i64>>,
    close: Seq<Option<i64>>,
    body: Seq<Option<i64>>,
    body_limit: Seq<Option<i64>>,
    midpoint: Seq<Option<i64>>,
    i: int,
)
    requires
        close.len() == open.len(),
        body.len() == open.len(),
        body_limit.len() == open.len(),
        midpoint.len() == open.len(),
        mirrorable(open),
        mirrorable(close),
        mirrorable(midpoint),
        1 <= i && i + 1 < open.len() ==> {
            &&& open[i - 1] != close[i - 1]
            &&& open[i + 1] != close[i + 1]
        },
    ensures
        star_at(mirrored(open), mirrored(close), body, body_limit, mirrored(midpoint), i)
            == -star_at(open, close, body, body_limit, midpoint, i),
{
    if 1 <= i && i + 1 < open.len() {
        assert(open[i - 1] is Some ==> open[i - 1]->0 > i64::MIN);
        assert(close[i - 1] is Some ==> close[i - 1]->0 > i64::MIN);
        assert(open[i + 1] is Some ==> open[i + 1]->0 > i64::MIN);
        assert(close[i + 1] is Some ==> close[i + 1]->0 > i64::MIN);
        assert(midpoint[i - 1] is Some ==> midpoint[i - 1]->0 > i64::MIN);
    }
}

/// The first and the last candle have no neighbour on one side and never show a star.
pub proof fn lemma_star_needs_both_neighbours(
    open: Seq<Option<i64>>,
    close: Seq<Option<i64>>,
    body: Seq<Option<i64>>,
    body_limit: Seq<Option<i64>>,
    midpoint: Seq<Option<i64>>,
)
    ensures
        star_at(open, close, body, body_limit, midpoint, 0) == 0,
        open.len() >= 1 ==> star_at(open, close, body, body_limit, midpoint, open.len() - 1) == 0,
{
}

/// Mirroring every price (negating it) turns a bullish engulfing into a bearish
/// one and back, provided that neither candle has an empty body.
pub proof fn lemma_engulfing_mirror(po: int, pc: int, co: int, cc: int)
    requires
        po != pc,
        co != cc,
    ensures
        engulfing_signal(-po, -pc, -co, -cc) == -engulfing_signal(po, pc, co, cc),
{
}

/// The first row never shows the pattern: it has no candle before it.
pub proof fn lemma_engulfing_first_row(open: Seq<Option<i64>>, close: Seq<Option<i64>>)
    ensures
        engulfing_at(open, close, 0) == 0,
{
}


/// A bullish engulfing is a rising candle after a candle that did not rise,
/// opening at or below the earlier close and closing at or above the earlier
/// open; a bearish engulfing is a candle that did not rise after a rising one,
/// closing at or below the earlier open and opening at or above the earlier
/// close. The signal is one of `1`, `-1`, `0`.
pub proof fn lemma_engulfing_cases(po: int, pc: int, co: int, cc: int)
    ensures
        engulfing_signal(po, pc, co, cc) == 1 <==> (co < cc && pc <= po && co <= pc && cc >= po),
        engulfing_signal(po, pc, co, cc) == -1 <==> (cc <= co && po < pc && cc <= po && co >= pc),
        engulfing_signal(po, pc, co, cc) == 1 ==> !(po < pc),
        engulfing_signal(po, pc, co, cc) == -1 ==> po < pc,
        engulfing_signal(po, pc, co, cc) == 0 || engulfing_signal(po, pc, co, cc) == 1
            || engulfing_signal(po, pc, co, cc) == -1,
{
}

/// A row shows a bullish engulfing exactly when its four prices are known, it
/// rises, the row before it does not, it opens at or below the earlier close
/// and closes at or above the earlier open; a bearish engulfing exactly when
/// the four prices are known, it does not rise, the row before it does, it
/// closes at or below the earlier open and opens at or above the earlier close.
pub proof fn lemma_engulfing_rows(open: Seq<Option<i64>>, close: Seq<Option<i64>>, i: int)
    requires
        1 <= i < open.len(),
        open.len() == close.len(),
    ensures
        engulfing_at(open, close, i) == 1 <==> {
            &&& open[i - 1] is Some && close[i - 1] is Some && open[i] is Some && close[i] is Some
            &&& open[i]->0 < close[i]->0 && close[i - 1]->0 <= open[i - 1]->0
            &&& open[i]->0 <= close[i - 1]->0 && close[i]->0 >= open[i - 1]->0
        },
        engulfing_at(open, close, i) == -1 <==> {
            &&& open[i - 1] is Some && close[i - 1] is Some && open[i] is Some && close[i] is Some
            &&& close[i]->0 <= open[i]->0 && open[i - 1]->0 < close[i - 1]->0
            &&& close[i]->0 <= open[i - 1]->0 && open[i]->0 >= close[i - 1]->0
        },
{
    if open[i - 1] is Some && close[i - 1] is Some && open[i] is Some && close[i] is Some {
        lemma_engulfing_cases(
            open[i - 1]->0 as int,
            close[i - 1]->0 as int,
            open[i]->0 as int,
            close[i]->0 as int,
        );
    }
}

/// A hammer is decided from its known measures: it is one exactly when the body
/// is below its bound, the lower shadow is positive and, if there is an upper
/// shadow, the lower shadow is above its bound. A known body at or above its
/// known bound, or a known non-positive lower shadow, makes it not a hammer.
pub proof fn lemma_hammer_cases(body: i64, body_limit: i64, lower: i64, upper: i64, lower_limit: i64)
    ensures
        hammer_row(Some(body), Some(body_limit), Some(lower), Some(upper), Some(lower_limit))
            == Some(body < body_limit && lower > 0 && (upper > 0 ==> lower > lower_limit)),
        body >= body_limit ==> hammer_row(
            Some(body),
            Some(body_limit),
            Some(lower),
            Some(upper),
            Some(lower_limit),
        ) == Some(false),
{
}

/// Whatever else is unknown, a known body at or above its known bound is never
/// a hammer, and a hammer always has its body below its bound and a positive
/// lower shadow.
pub proof fn lemma_hammer_body_bound(
    body: Option<i64>,
    body_limit: Option<i64>,
    lower: Option<i64>,
    upper: Option<i64>,
    lower_limit: Option<i64>,
)
    ensures
        body is Some && body_limit is Some && body->0 >= body_limit->0 ==> hammer_row(
            body,
            body_limit,
            lower,
            upper,
            lower_limit,
        ) == Some(false),
        hammer_row(body, body_limit, lower, upper, lower_limit) == Some(true) ==> {
            &&& body is Some && body_limit is Some && body->0 < body_limit->0
            &&& lower is Some && lower->0 > 0
            &&& (upper is Some && upper->0 > 0) ==> (lower_limit is Some && lower->0 > lower_limit->0)
        },
{
}

/// A star on row `i` is exactly the three-candle pattern around it: a morning
/// star (`1`) has a falling-or-flat first candle, a middle body below the first
/// candle's bound, a rising third candle and a third close above the first
/// candle's midpoint; an evening star (`-1`) has a rising first candle, the
/// small middle body, a third candle that does not rise, and a third close
/// below the first candle's midpoint.
pub proof fn lemma_star_cases(
    open: Seq<Option<i64>>,
    close: Seq<Option<i64>>,
    body: Seq<Option<i64>>,
    body_limit: Seq<Option<i64>>,
    midpoint: Seq<Option<i64>>,
    i: int,
)
    requires
        1 <= i && i + 1 < open.len(),
    ensures
        star_at(open, close, body, body_limit, midpoint, i) == 1 <==> {
            &&& open[i - 1] is Some && close[i - 1] is Some && open[i - 1]->0 >= close[i - 1]->0
            &&& body[i] is Some && body_limit[i - 1] is Some && body[i]->0 < body_limit[i - 1]->0
            &&& open[i + 1] is Some && close[i + 1] is Some && open[i + 1]->0 < close[i + 1]->0
            &&& midpoint[i - 1] is Some && close[i + 1]->0 > midpoint[i - 1]->0
        },
        star_at(open, close, body, body_limit, midpoint, i) == -1 <==> {
            &&& open[i - 1] is Some && close[i - 1] is Some && open[i - 1]->0 < close[i - 1]->0
            &&& body[i] is Some && body_limit[i - 1] is Some && body[i]->0 < body_limit[i - 1]->0
            &&& open[i + 1] is Some && close[i + 1] is Some && open[i + 1]->0 >= close[i + 1]->0
            &&& midpoint[i - 1] is Some && close[i + 1]->0 < midpoint[i - 1]->0
        },
        star_at(open, close, body, body_limit, midpoint, i) == 0 || star_at(
            open,
            close,
            body,
            body_limit,
            midpoint,
            i,
        ) == 1 || star_at(open, close, body, body_limit, midpoint, i) == -1,
{
}

/// The body bounds of a candle with both prices known are its two prices, the
/// lower first; with the open missing both are the close.
pub proof fn lemma_body_bounds_order(open: Option<i64>, close: Option<i64>)
    ensures
        (open is Some && close is Some) ==> {
            let (lo, hi) = (body_low_at(open, close), body_high_at(open, close));
            &&& lo is Some && hi is Some
            &&& lo->0 <= hi->0
            &&& lo->0 == (if open->0 <= close->0 { open->0 } else { close->0 })
            &&& hi->0 == (if open->0 >= close->0 { open->0 } else { close->0 })
        },
        open is None ==> body_low_at(open, close) == close && body_high_at(open, close) == close,
{
}

/// The doji flag is unknown exactly when the ratio is, and true exactly when
/// the ratio is below the threshold.
pub proof fn lemma_doji_cases(ratio: Option<i64>, threshold: i64)
    ensures
        less(ratio, Some(threshold)) is None <==> ratio is None,
        less(ratio, Some(threshold)) == Some(true) <==> (ratio is Some && ratio->0 < threshold),
{
}

} // verus!
