// Prices are written as order keys: each price times ten, which orders the
// candles exactly as the prices do.

use polars_ta::candles::{engulfing, PatternError};

fn keys(prices: &[i64]) -> Vec<Option<i64>> {
    prices.iter().map(|p| Some(*p)).collect()
}

#[test]
fn test_bullish_engulfing() {
    let open = keys(&[1000, 990, 980]);
    let close = keys(&[990, 980, 1005]);
    let values = engulfing(&open, &close).unwrap();
    assert_eq!(values.get(2), Some(&1));
    assert_eq!(values.get(0), Some(&0));
    assert_eq!(values.get(1), Some(&0));
}

#[test]
fn test_bearish_engulfing() {
    let open = keys(&[1000, 1010, 1020]);
    let close = keys(&[1010, 1020, 990]);
    let values = engulfing(&open, &close).unwrap();
    assert_eq!(values.get(2), Some(&-1));
}

#[test]
fn test_no_pattern() {
    let open = keys(&[1000, 1010, 1020]);
    let close = keys(&[1010, 1020, 1030]);
    let values = engulfing(&open, &close).unwrap();
    for i in 0..3 {
        assert_eq!(values.get(i), Some(&0));
    }
}

#[test]
fn engulfing_strict_inside_body_is_not_a_pattern() {
    // The current body lies inside the previous one.
    let open = keys(&[1000, 995]);
    let close = keys(&[990, 998]);
    assert_eq!(engulfing(&open, &close).unwrap(), vec![0, 0]);
}

#[test]
fn engulfing_missing_price_gives_zero() {
    let open = vec![Some(1000), None, Some(980)];
    let close = vec![Some(990), Some(980), Some(1005)];
    assert_eq!(engulfing(&open, &close).unwrap(), vec![0, 0, 0]);
}

#[test]
fn engulfing_length_mismatch_is_an_error() {
    let open = keys(&[1000, 990]);
    let close = keys(&[990]);
    assert_eq!(
        engulfing(&open, &close),
        Err(PatternError::LengthMismatch { open_len: 2, close_len: 1 })
    );
}

#[test]
fn engulfing_empty_input() {
    assert_eq!(engulfing(&vec![], &vec![]).unwrap(), Vec::<i32>::new());
}

#[test]
fn engulfing_mirror_swaps_direction() {
    let open = keys(&[1000, 990, 980]);
    let close = keys(&[990, 980, 1005]);
    let mirrored_open: Vec<Option<i64>> = open.iter().map(|k| k.map(|v| -v)).collect();
    let mirrored_close: Vec<Option<i64>> = close.iter().map(|k| k.map(|v| -v)).collect();
    let straight = engulfing(&open, &close).unwrap();
    let mirrored = engulfing(&mirrored_open, &mirrored_close).unwrap();
    for i in 0..3 {
        assert_eq!(mirrored[i], -straight[i]);
    }
}

use polars_ta::candles::{body_bounds, hammer, star};

// Stand-in keys for computed measures: the value in thousandths, rounded.
fn k(x: f64) -> Option<i64> {
    Some((x * 1000.0).round() as i64)
}

fn star_inputs(open: &[f64], close: &[f64]) -> Vec<i32> {
    let body: Vec<f64> = open.iter().zip(close).map(|(o, c)| (o - c).abs()).collect();
    let mid: Vec<f64> = open.iter().zip(close).map(|(o, c)| (o.min(*c) + o.max(*c)) / 2.0).collect();
    star(
        &open.iter().map(|x| k(*x)).collect(),
        &close.iter().map(|x| k(*x)).collect(),
        &body.iter().map(|x| k(*x)).collect(),
        &body.iter().map(|x| k(x * 0.3)).collect(),
        &mid.iter().map(|x| k(*x)).collect(),
    )
}

#[test]
fn test_morning_star() {
    let open = [105.0, 100.0, 98.0, 97.0, 96.0];
    let close = [100.0, 98.0, 98.2, 101.0, 95.0];
    let values = star_inputs(&open, &close);
    assert_eq!(values.get(2), Some(&1));
}

#[test]
fn test_evening_star() {
    let open = [95.0, 96.0, 101.0, 100.5, 102.0];
    let close = [96.5, 101.0, 100.5, 97.5, 96.5];
    let values = star_inputs(&open, &close);
    assert_eq!(values.get(2), Some(&-1));
}

#[test]
fn star_outer_candles_are_zero() {
    let values = star_inputs(&[95.0, 96.0, 101.0], &[96.5, 101.0, 100.5]);
    assert_eq!(values[0], 0);
    assert_eq!(values[2], 0);
}

#[test]
fn test_hammer_detection() {
    let open = [100.0, 101.0, 102.0];
    let high = [100.5, 101.5, 102.2];
    let low = [95.0, 96.0, 97.0];
    let close = [100.3, 101.3, 102.1];
    let body: Vec<Option<i64>> = (0..3).map(|i| k((open[i] - close[i]) as f64).map(i64::abs)).collect();
    let limit: Vec<Option<i64>> = (0..3).map(|i| k((high[i] - low[i]) * 0.3)).collect();
    let top: Vec<f64> = (0..3).map(|i| f64::max(open[i], close[i])).collect();
    let bottom: Vec<f64> = (0..3).map(|i| f64::min(open[i], close[i])).collect();
    let upper: Vec<Option<i64>> = (0..3).map(|i| k(high[i] - top[i])).collect();
    let lower: Vec<Option<i64>> = (0..3).map(|i| k(bottom[i] - low[i])).collect();
    let lower_limit: Vec<Option<i64>> = (0..3).map(|i| k((high[i] - top[i]) * 2.0)).collect();
    let values = hammer(&body, &limit, &lower, &upper, &lower_limit);
    for i in 0..3 {
        assert!(values.get(i).copied().flatten().unwrap_or(false), "Candle {} should be a hammer", i);
    }
}

#[test]
fn hammer_unknown_and_false_rows() {
    // Missing body: unknown unless another condition is false.
    let r = hammer(&vec![None, None], &vec![Some(10), Some(10)], &vec![Some(5), Some(0)], &vec![Some(0), Some(0)], &vec![Some(0), Some(0)]);
    assert_eq!(r, vec![None, Some(false)]);
    // No upper shadow: the shadow ratio is not checked.
    let r = hammer(&vec![Some(1)], &vec![Some(10)], &vec![Some(5)], &vec![Some(0)], &vec![Some(100)]);
    assert_eq!(r, vec![Some(true)]);
    // Upper shadow too long against the lower one.
    let r = hammer(&vec![Some(1)], &vec![Some(10)], &vec![Some(5)], &vec![Some(3)], &vec![Some(6)]);
    assert_eq!(r, vec![Some(false)]);
}

#[test]
fn body_bounds_of_candles() {
    let (low, high) = body_bounds(&vec![Some(3), Some(5), None], &vec![Some(5), Some(3), Some(4)]);
    assert_eq!(low, vec![Some(3), Some(3), Some(4)]);
    assert_eq!(high, vec![Some(5), Some(5), Some(4)]);
}

use polars_ta::candles::doji;

// Stand-in keys for ratios: the value in billionths, rounded.
fn k9(x: f64) -> Option<i64> {
    Some((x * 1e9).round() as i64)
}

#[test]
fn test_doji_detection() {
    let open = [100.0, 101.0, 102.0, 103.0, 104.0];
    let close = [100.0, 100.999, 102.001, 103.5, 104.0];
    let ratio: Vec<Option<i64>> = (0..5).map(|i| {
        let (o, c): (f64, f64) = (open[i], close[i]);
        k9((o - c).abs() / ((o + c) / 2.0))
    }).collect();
    let values = doji(&ratio, k9(0.001).unwrap());
    assert!(values[0].unwrap_or(false));
    assert!(values[4].unwrap_or(false));
    assert!(values[1].unwrap_or(false));
    assert!(values[2].unwrap_or(false));
    assert!(!values[3].unwrap_or(true));
}

#[test]
fn doji_missing_ratio_is_unknown() {
    assert_eq!(doji(&vec![None, Some(5)], 3), vec![None, Some(false)]);
}

#[test]
fn star_mirror_swaps_morning_and_evening() {
    let open = [105.0, 100.0, 98.0, 97.0, 96.0];
    let close = [100.0, 98.0, 98.2, 101.0, 95.0];
    let neg_open: Vec<f64> = open.iter().map(|x| -x).collect();
    let neg_close: Vec<f64> = close.iter().map(|x| -x).collect();
    let straight = star_inputs(&open, &close);
    let mirrored = star_inputs(&neg_open, &neg_close);
    for i in 0..5 {
        assert_eq!(mirrored[i], -straight[i]);
    }
    assert_eq!(mirrored[2], -1);
}
