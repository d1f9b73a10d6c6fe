//! Direction of consecutive values, as On-Balance Volume and the Money Flow
//! Index read it, and the windows of flows that the Money Flow Index sums.

use vstd::prelude::*;

verus! {

/// Direction of row `i` against row `i - 1`: `1` when the value rose, `-1`
/// when it fell, `0` when it stayed, when either value is missing, and on the
/// first row.
pub open spec fn direction(values: Seq<Option<i64>>, i: int) -> int {
    if 1 <= i < values.len() && values[i] is Some && values[i - 1] is Some {
        if values[i]->0 > values[i - 1]->0 {
            1
        } else if values[i]->0 < values[i - 1]->0 {
            -1
        } else {
            0
        }
    } else {
        0
    }
}

fn direction_at(values: &Vec<Option<i64>>, i: usize) -> (d: i32)
    requires
        i < values.len(),
    ensures
        d == direction(values@, i as int),
{
    if i == 0 {
        return 0;
    }
    match (values[i - 1], values[i]) {
        (Some(prev), Some(curr)) => {
            if curr > prev {
                1
            } else if curr < prev {
                -1
            } else {
                0
            }
        },
        _ => 0,
    }
}

/// Direction of every row. On-Balance Volume adds the row's volume on `1`,
/// subtracts it on `-1` and keeps its total on `0`.
pub fn price_directions(values: &Vec<Option<i64>>) -> (d: Vec<i32>)
    ensures
        d.len() == values.len(),
        forall|i: int| 0 <= i < d.len() ==> d[i] == direction(values@, i),
{
    let n = values.len();
    let mut d: Vec<i32> = Vec::new();
    let mut i: usize = 0;
    while i < n
        invariant
            n == values.len(),
            i <= n,
            d.len() == i,
            forall|k: int| 0 <= k < i ==> d[k] == direction(values@, k),
        decreases n - i,
    {
        d.push(direction_at(values, i));
        i = i + 1;
    }
    d
}

/// Every value is known and each one after the first is above the one before it.
pub open spec fn strictly_rising(values: Seq<Option<i64>>) -> bool {
    &&& forall|i: int| 0 <= i < values.len() ==> #[trigger] values[i] is Some
    &&& forall|i: int| 1 <= i < values.len() ==> #[trigger] rises_at(values, i)
}

/// Every value is known and each one after the first is below the one before it.
pub open spec fn strictly_falling(values: Seq<Option<i64>>) -> bool {
    &&& forall|i: int| 0 <= i < values.len() ==> #[trigger] values[i] is Some
    &&& forall|i: int| 1 <= i < values.len() ==> #[trigger] falls_at(values, i)
}

pub open spec fn falls_at(values: Seq<Option<i64>>, i: int) -> bool {
    values[i]->0 < values[i - 1]->0
}

pub open spec fn rises_at(values: Seq<Option<i64>>, i: int) -> bool {
    values[i]->0 > values[i - 1]->0
}

/// A rising series moves up on every row but the first.
pub proof fn lemma_rising_moves_up(values: Seq<Option<i64>>)
    requires
        strictly_rising(values),
    ensures
        forall|i: int| 1 <= i < values.len() ==> #[trigger] direction(values, i) == 1,
{
    assert forall|i: int| 1 <= i < values.len() implies #[trigger] direction(values, i) == 1 by {
        assert(values[i] is Some && values[i - 1] is Some && rises_at(values, i));
    }
}

/// A falling series moves down on every row but the first.
pub proof fn lemma_falling_moves_down(values: Seq<Option<i64>>)
    requires
        strictly_falling(values),
    ensures
        forall|i: int| 1 <= i < values.len() ==> #[trigger] direction(values, i) == -1,
{
    assert forall|i: int| 1 <= i < values.len() implies #[trigger] direction(values, i) == -1 by {
        assert(values[i] is Some && values[i - 1] is Some && falls_at(values, i));
    }
}

/// First row of the window that the Money Flow Index of row `i` looks at:
/// the last `period` rows, but never row 0, which has no row before it.
pub open spec fn flow_window_start(i: int, period: int) -> int {
    if i + 1 - period >= 1 { i + 1 - period } else { 1 }
}

/// The rows of the money-flow window of row `i` whose typical price moved in
/// direction `dir`, in increasing order.
pub open spec fn flows_in_window(tp: Seq<Option<i64>>, i: int, period: int, dir: int, rows: Seq<usize>) -> bool {
    &&& forall|a: int, b: int| 0 <= a < b < rows.len() ==> rows[a] < rows[b]
    &&& forall|a: int|
        0 <= a < rows.len() ==> flow_window_start(i, period) <= #[trigger] rows[a] <= i
            && direction(tp, rows[a] as int) == dir
    &&& forall|j: int|
        flow_window_start(i, period) <= j <= i && #[trigger] direction(tp, j) == dir
            ==> rows.contains(j as usize)
}

/// The flows that the Money Flow Index of one row sums: the rows of its window
/// whose typical price rose and those whose typical price fell.
#[derive(Debug, PartialEq, Eq)]
pub struct FlowWindow {
    pub positive: Vec<usize>,
    pub negative: Vec<usize>,
}

fn flow_window(tp: &Vec<Option<i64>>, i: usize, period: usize) -> (w: FlowWindow)
    requires
        i < tp.len(),
    ensures
        flows_in_window(tp@, i as int, period as int, 1, w.positive@),
        flows_in_window(tp@, i as int, period as int, -1, w.negative@),
{
    let start: usize = if i >= period { i + 1 - period } else { 1 };
    let mut positive: Vec<usize> = Vec::new();
    let mut negative: Vec<usize> = Vec::new();
    let mut j: usize = start;
    while j <= i
        invariant
            i < tp.len(),
            start == flow_window_start(i as int, period as int),
            1 <= start,
            start <= j <= i + 1,
            forall|a: int, b: int| 0 <= a < b < positive.len() ==> positive[a] < positive[b],
            forall|a: int, b: int| 0 <= a < b < negative.len() ==> negative[a] < negative[b],
            forall|a: int|
                0 <= a < positive.len() ==> start <= #[trigger] positive[a] < j && direction(
                    tp@,
                    positive[a] as int,
                ) == 1,
            forall|a: int|
                0 <= a < negative.len() ==> start <= #[trigger] negative[a] < j && direction(
                    tp@,
                    negative[a] as int,
                ) == -1,
            forall|k: int| start <= k < j && #[trigger] direction(tp@, k) == 1 ==> positive@.contains(k as usize),
            forall|k: int| start <= k < j && #[trigger] direction(tp@, k) == -1 ==> negative@.contains(k as usize),
        decreases i + 1 - j,
    {
        let d = direction_at(tp, j);
        let ghost old_pos = positive@;
        let ghost old_neg = negative@;
        if d == 1 {
            positive.push(j);
        } else if d == -1 {
            negative.push(j);
        }
        proof {
            broadcast use vstd::seq_lib::lemma_seq_contains_after_push;
            assert forall|k: int| start <= k < j + 1 && #[trigger] direction(tp@, k) == 1 implies positive@.contains(k as usize) by {
                if k < j {
                    assert(old_pos.contains(k as usize));
                }
            }
            assert forall|k: int| start <= k < j + 1 && #[trigger] direction(tp@, k) == -1 implies negative@.contains(k as usize) by {
                if k < j {
                    assert(old_neg.contains(k as usize));
                }
            }
        }
        j = j + 1;
    }
    FlowWindow { positive, negative }
}

/// The flows of every row of the Money Flow Index: rows before `period` have
/// none (their index is missing), every later row has the rows of its window
/// whose typical price rose and fell.
pub fn money_flow_windows(tp: &Vec<Option<i64>>, period: usize) -> (r: Vec<Option<FlowWindow>>)
    ensures
        r.len() == tp.len(),
        forall|i: int| 0 <= i < period && i < r.len() ==> r[i] is None,
        forall|i: int|
            period <= i < r.len() ==> {
                &&& #[trigger] r[i] is Some
                &&& flows_in_window(tp@, i, period as int, 1, r[i]->0.positive@)
                &&& flows_in_window(tp@, i, period as int, -1, r[i]->0.negative@)
            },
{
    let n = tp.len();
    let mut r: Vec<Option<FlowWindow>> = Vec::new();
    let mut i: usize = 0;
    while i < n
        invariant
            n == tp.len(),
            i <= n,
            r.len() == i,
            forall|k: int| 0 <= k < period && k < i ==> r[k] is None,
            forall|k: int|
                period <= k < i ==> {
                    &&& #[trigger] r[k] is Some
                    &&& flows_in_window(tp@, k, period as int, 1, r[k]->0.positive@)
                    &&& flows_in_window(tp@, k, period as int, -1, r[k]->0.negative@)
                },
        decreases n - i,
    {
        if i < period {
            r.push(None);
        } else {
            let w = flow_window(tp, i, period);
            r.push(Some(w));
        }
        i = i + 1;
    }
    r
}

/// When the typical price rises on every row, no row of any window carries a
/// negative flow, so the index reads 100 wherever it is defined.
pub proof fn lemma_rising_has_no_negative_flow(tp: Seq<Option<i64>>, i: int, period: int, rows: Seq<usize>)
    requires
        strictly_rising(tp),
        0 <= i < tp.len(),
        flows_in_window(tp, i, period, -1, rows),
    ensures
        rows.len() == 0,
{
    if rows.len() > 0 {
        let j = rows[0] as int;
        assert(flow_window_start(i, period) <= j <= i);
        assert(tp[j] is Some && tp[j - 1] is Some);
        assert(rises_at(tp, j));
        assert(direction(tp, j) == 1);
    }
}


/// A row moves up exactly when both it and the row before it are known and it
/// is the larger, down exactly when it is the smaller, and otherwise not at all.
pub proof fn lemma_direction_cases(values: Seq<Option<i64>>, i: int)
    requires
        1 <= i < values.len(),
    ensures
        direction(values, i) == 1 <==> (values[i] is Some && values[i - 1] is Some && values[i]->0
            > values[i - 1]->0),
        direction(values, i) == -1 <==> (values[i] is Some && values[i - 1] is Some && values[i]->0
            < values[i - 1]->0),
        direction(values, i) == 0 || direction(values, i) == 1 || direction(values, i) == -1,
{
}

/// The first row never moves.
pub proof fn lemma_first_row_does_not_move(values: Seq<Option<i64>>)
    ensures
        direction(values, 0) == 0,
{
}

/// The money-flow window of row `i` never includes row 0 and ends at row `i`;
/// it holds `period` rows, or all `i` rows after row 0 when there are fewer.
pub proof fn lemma_flow_window_size(i: int, period: int)
    requires
        0 <= i,
        0 <= period,
    ensures
        flow_window_start(i, period) >= 1,
        i + 1 - flow_window_start(i, period) == (if period <= i { period } else { i }),
{
}


/// When the typical price rises on every row, the positive flows of row `i`
/// are exactly the rows of its window, in order.
pub proof fn lemma_rising_flows_fill_window(tp: Seq<Option<i64>>, i: int, period: int, rows: Seq<usize>)
    requires
        strictly_rising(tp),
        0 <= i < tp.len(),
        i < usize::MAX,
        0 <= period,
        flows_in_window(tp, i, period, 1, rows),
    ensures
        rows.len() == i + 1 - flow_window_start(i, period),
        forall|a: int| 0 <= a < rows.len() ==> rows[a] == flow_window_start(i, period) + a,
{
    let start = flow_window_start(i, period);
    assert(start >= 1);
    assert forall|j: int| start <= j <= i implies #[trigger] rows.contains(j as usize) by {
        assert(tp[j] is Some && tp[j - 1] is Some && rises_at(tp, j));
        assert(direction(tp, j) == 1);
    }
    assert forall|a: int| 0 <= a < rows.len() implies rows[a] == start + a by {
        lemma_sorted_window_prefix(rows, start, i, a);
    }
    if rows.len() < i + 1 - start {
        let j: int = start + rows.len();
        assert(rows.contains(j as usize));
        let b = choose|b: int| 0 <= b < rows.len() && rows[b] == j as usize;
        lemma_sorted_window_prefix(rows, start, i, b);
        assert(false);
    }
    if rows.len() > i + 1 - start {
        let a = i + 1 - start;
        lemma_sorted_window_prefix(rows, start, i, a);
        assert(start <= rows[a] <= i);
        assert(false);
    }
}

proof fn lemma_sorted_window_prefix(rows: Seq<usize>, start: int, i: int, a: int)
    requires
        forall|x: int, y: int| 0 <= x < y < rows.len() ==> rows[x] < rows[y],
        forall|x: int| 0 <= x < rows.len() ==> start <= #[trigger] rows[x] <= i,
        forall|j: int| start <= j <= i ==> #[trigger] rows.contains(j as usize),
        0 <= start,
        i < usize::MAX,
        0 <= a < rows.len(),
    ensures
        rows[a] == start + a,
    decreases a,
{
    if a > 0 {
        lemma_sorted_window_prefix(rows, start, i, a - 1);
        assert(rows[a - 1] < rows[a]);
    }
    assert(rows[a] as int >= start + a);
    let v = start + a;
    assert(start <= v <= i);
    assert(rows.contains(v as usize));
    let b = choose|b: int| 0 <= b < rows.len() && rows[b] == v as usize;
    if b > a {
        assert(rows[a] < rows[b]);
    } else if b < a {
        lemma_sorted_window_prefix(rows, start, i, b);
    }
}

} // verus!
