//! Per-row selections that several indicators make on derived columns:
//! the true range, the directional movements and the gain/loss split.

use vstd::prelude::*;

verus! {

/// A key that can be negated without leaving `i64`.
pub open spec fn negatable(k: i64) -> bool {
    k > i64::MIN
}

/// Every present key of the column can be negated.
pub open spec fn all_negatable(col: Seq<Option<i64>>) -> bool {
    forall|i: int| 0 <= i < col.len() && #[trigger] col[i] is Some ==> negatable(col[i]->0)
}

pub open spec fn abs_key(k: int) -> int {
    if k < 0 { -k } else { k }
}

/// The true range of a row from its three candidates `hl = high - low`,
/// `hc = |high - previous close|` and `lc = |low - previous close|`: the first
/// that is known and at least as large as the others is taken, in the order
/// `hl`, `hc`; when that cannot be decided the row takes `lc`, which may be
/// missing.
pub open spec fn true_range_choice(hl: Option<i64>, hc: Option<i64>, lc: Option<i64>) -> Option<i64> {
    if hl is Some && hc is Some && lc is Some && hl->0 >= hc->0 && hl->0 >= lc->0 {
        hl
    } else if hc is Some && lc is Some && hc->0 >= lc->0 {
        hc
    } else {
        lc
    }
}

/// True range of every row, from the three candidate columns.
pub fn true_range_select(
    hl: &Vec<Option<i64>>,
    hc: &Vec<Option<i64>>,
    lc: &Vec<Option<i64>>,
) -> (tr: Vec<Option<i64>>)
    requires
        hl.len() == hc.len(),
        hl.len() == lc.len(),
    ensures
        tr.len() == hl.len(),
        forall|i: int| 0 <= i < tr.len() ==> tr[i] == true_range_choice(hl[i], hc[i], lc[i]),
{
    let n = hl.len();
    let mut tr: Vec<Option<i64>> = Vec::new();
    let mut i: usize = 0;
    while i < n
        invariant
            n == hl.len(),
            n == hc.len(),
            n == lc.len(),
            i <= n,
            tr.len() == i,
            forall|k: int| 0 <= k < i ==> tr[k] == true_range_choice(hl[k], hc[k], lc[k]),
        decreases n - i,
    {
        let pick = match (hl[i], hc[i], lc[i]) {
            (Some(a), Some(b), Some(c)) if a >= b && a >= c => Some(a),
            (_, Some(b), Some(c)) if b >= c => Some(b),
            _ => lc[i],
        };
        tr.push(pick);
        i = i + 1;
    }
    tr
}

/// When all three candidates are known the true range is their maximum, and it
/// is never negative when the two candidates that are absolute values are not.
pub proof fn lemma_true_range_is_max(hl: i64, hc: i64, lc: i64)
    ensures
        ({
            let tr = true_range_choice(Some(hl), Some(hc), Some(lc));
            &&& tr is Some
            &&& tr->0 >= hl && tr->0 >= hc && tr->0 >= lc
            &&& (tr->0 == hl || tr->0 == hc || tr->0 == lc)
            &&& (hc >= 0 && lc >= 0 ==> tr->0 >= 0)
        }),
{
}

/// The first row of an indicator has no previous close: its true range is
/// missing, whatever the high and the low are.
pub proof fn lemma_true_range_without_previous_close(hl: Option<i64>)
    ensures
        true_range_choice(hl, None, None) is None,
{
}

/// Positive directional movement of a row from the change of the high `up`
/// and the change of the low `down`.
pub open spec fn plus_dm(up: Option<i64>, down: Option<i64>) -> int {
    if up is Some && down is Some && up->0 > 0 && up->0 > abs_key(down->0 as int) {
        up->0 as int
    } else {
        0
    }
}

/// Negative directional movement of a row from the change of the high `up`
/// and the change of the low `down`.
pub open spec fn minus_dm(up: Option<i64>, down: Option<i64>) -> int {
    if up is Some && down is Some && down->0 < 0 && abs_key(down->0 as int) > up->0 {
        abs_key(down->0 as int)
    } else {
        0
    }
}

/// Directional movements `(+DM, -DM)` of every row from the changes of the
/// highs and of the lows.
pub fn directional_movement(up: &Vec<Option<i64>>, down: &Vec<Option<i64>>) -> (r: (Vec<i64>, Vec<i64>))
    requires
        up.len() == down.len(),
        all_negatable(down@),
    ensures
        r.0.len() == up.len(),
        r.1.len() == up.len(),
        forall|i: int| 0 <= i < up.len() ==> r.0[i] == plus_dm(up[i], down[i]),
        forall|i: int| 0 <= i < up.len() ==> r.1[i] == minus_dm(up[i], down[i]),
{
    let n = up.len();
    let mut plus: Vec<i64> = Vec::new();
    let mut minus: Vec<i64> = Vec::new();
    let mut i: usize = 0;
    while i < n
        invariant
            n == up.len(),
            n == down.len(),
            all_negatable(down@),
            i <= n,
            plus.len() == i,
            minus.len() == i,
            forall|k: int| 0 <= k < i ==> plus[k] == plus_dm(up[k], down[k]),
            forall|k: int| 0 <= k < i ==> minus[k] == minus_dm(up[k], down[k]),
        decreases n - i,
    {
        let (p, m): (i64, i64) = match (up[i], down[i]) {
            (Some(u), Some(d)) => {
                assert(down[i as int] is Some);
                let d_abs: i64 = if d < 0 { -d } else { d };
                let p: i64 = if u > 0 && u > d_abs { u } else { 0 };
                let m: i64 = if d < 0 && d_abs > u { d_abs } else { 0 };
                (p, m)
            },
            _ => (0, 0),
        };
        plus.push(p);
        minus.push(m);
        i = i + 1;
    }
    (plus, minus)
}

/// Directional movements are never negative and at most one of them is
/// positive on any row.
pub proof fn lemma_directional_movement_exclusive(up: Option<i64>, down: Option<i64>)
    ensures
        plus_dm(up, down) >= 0,
        minus_dm(up, down) >= 0,
        plus_dm(up, down) == 0 || minus_dm(up, down) == 0,
{
}

/// Gain of a row from its price change: the change when it is positive.
pub open spec fn gain(change: Option<i64>) -> int {
    if change is Some && change->0 > 0 { change->0 as int } else { 0 }
}

/// Loss of a row from its price change: the size of the change when it is negative.
pub open spec fn loss(change: Option<i64>) -> int {
    if change is Some && change->0 < 0 { -(change->0 as int) } else { 0 }
}

/// Gains and losses of every row from the price changes; a missing change
/// counts as neither.
pub fn gain_loss(change: &Vec<Option<i64>>) -> (r: (Vec<i64>, Vec<i64>))
    requires
        all_negatable(change@),
    ensures
        r.0.len() == change.len(),
        r.1.len() == change.len(),
        forall|i: int| 0 <= i < change.len() ==> r.0[i] == gain(change[i]),
        forall|i: int| 0 <= i < change.len() ==> r.1[i] == loss(change[i]),
{
    let n = change.len();
    let mut gains: Vec<i64> = Vec::new();
    let mut losses: Vec<i64> = Vec::new();
    let mut i: usize = 0;
    while i < n
        invariant
            n == change.len(),
            all_negatable(change@),
            i <= n,
            gains.len() == i,
            losses.len() == i,
            forall|k: int| 0 <= k < i ==> gains[k] == gain(change[k]),
            forall|k: int| 0 <= k < i ==> losses[k] == loss(change[k]),
        decreases n - i,
    {
        let (g, l): (i64, i64) = match change[i] {
            Some(c) => {
                assert(change[i as int] is Some);
                if c > 0 {
                    (c, 0)
                } else if c < 0 {
                    (0, -c)
                } else {
                    (0, 0)
                }
            },
            None => (0, 0),
        };
        gains.push(g);
        losses.push(l);
        i = i + 1;
    }
    (gains, losses)
}

/// Gain and loss of a row are never negative, never both positive, and their
/// difference is the price change itself.
pub proof fn lemma_gain_loss_split(change: i64)
    ensures
        gain(Some(change)) >= 0,
        loss(Some(change)) >= 0,
        gain(Some(change)) == 0 || loss(Some(change)) == 0,
        gain(Some(change)) - loss(Some(change)) == change,
{
}


/// +DM is the rise of the high when it is positive and larger than the size of
/// the change of the low; otherwise (or when a change is missing) it is 0.
pub proof fn lemma_plus_dm_cases(up: i64, down: i64)
    ensures
        up > 0 && (up > down && up > -down) ==> plus_dm(Some(up), Some(down)) == up,
        !(up > 0 && up > down && up > -down) ==> plus_dm(Some(up), Some(down)) == 0,
        plus_dm(None, Some(down)) == 0,
        plus_dm(Some(up), None) == 0,
{
}

/// -DM is the size of the fall of the low when the low fell and that size is
/// larger than the change of the high (in particular whenever the high did not
/// rise); otherwise (or when a change is missing) it is 0.
pub proof fn lemma_minus_dm_cases(up: i64, down: i64)
    ensures
        down < 0 && -down > up ==> minus_dm(Some(up), Some(down)) == -down,
        up <= 0 && down < 0 ==> minus_dm(Some(up), Some(down)) == -down,
        !(down < 0 && -down > up) ==> minus_dm(Some(up), Some(down)) == 0,
        minus_dm(None, Some(down)) == 0,
        minus_dm(Some(up), None) == 0,
{
}

/// A missing change is neither a gain nor a loss.
pub proof fn lemma_gain_loss_missing()
    ensures
        gain(None) == 0,
        loss(None) == 0,
{
}

/// When the range cannot be compared but both distances to the previous close
/// are known, the true range is the larger of them.
pub proof fn lemma_true_range_without_range(hc: i64, lc: i64)
    ensures
        ({
            let tr = true_range_choice(None, Some(hc), Some(lc));
            &&& tr is Some
            &&& tr->0 >= hc && tr->0 >= lc
            &&& (tr->0 == hc || tr->0 == lc)
        }),
{
}

} // verus!
