// Prices are written as order keys (each price times ten).

use polars_ta::flow::{money_flow_windows, price_directions};

fn keys(prices: &[i64]) -> Vec<Option<i64>> {
    prices.iter().map(|p| Some(*p)).collect()
}

fn obv_of(close: &[i64], volume: &[f64]) -> Vec<f64> {
    let directions = price_directions(&keys(close));
    let mut total = 0.0;
    directions
        .iter()
        .zip(volume)
        .map(|(d, v)| {
            total += *d as f64 * v;
            total
        })
        .collect()
}

#[test]
fn test_obv_cumulative() {
    let close = [1000, 1010, 1005, 1020, 1015];
    let volume = [1000.0, 500.0, 300.0, 400.0, 200.0];
    let obv = obv_of(&close, &volume);
    assert_eq!(obv[0], 0.0, "First OBV should be 0");
    assert_eq!(obv[1], 500.0, "Second OBV should be 500");
    assert_eq!(obv[2], 200.0, "Third OBV should be 200");
    assert_eq!(obv[3], 600.0, "Fourth OBV should be 600");
    assert_eq!(obv[4], 400.0, "Fifth OBV should be 400");
}

#[test]
fn test_obv_increases_on_up_days() {
    let obv = obv_of(&[1000, 1010, 1020, 1030, 1040], &[1000.0; 5]);
    assert!(obv[4] > obv[1], "OBV should increase on all up days");
}

#[test]
fn test_obv_decreases_on_down_days() {
    let obv = obv_of(&[1050, 1040, 1030, 1020, 1010], &[1000.0; 5]);
    assert!(obv[4] < obv[1], "OBV should decrease on all down days");
}

#[test]
fn directions_with_missing_and_flat_values() {
    let values = vec![Some(1), Some(1), None, Some(3), Some(2)];
    assert_eq!(price_directions(&values), vec![0, 0, 0, 0, -1]);
    assert_eq!(price_directions(&vec![]), Vec::<i32>::new());
}

fn rising(n: usize) -> Vec<Option<i64>> {
    (0..n).map(|i| Some(990 + 15 * i as i64)).collect()
}

#[test]
fn test_mfi_initial_nulls() {
    let windows = money_flow_windows(&rising(20), 14);
    assert_eq!(windows.len(), 20);
    for i in 0..14 {
        assert!(windows[i].is_none(), "Expected null at index {}", i);
    }
}

#[test]
fn test_mfi_all_up_trend() {
    let windows = money_flow_windows(&rising(20), 14);
    for i in 14..20 {
        let w = windows[i].as_ref().expect("Expected non-null value");
        assert!(w.negative.is_empty());
        let expected: Vec<usize> = (i + 1 - 14..=i).collect();
        assert_eq!(w.positive, expected);
    }
}

#[test]
fn mfi_windows_split_rises_and_falls() {
    let tp = keys(&[10, 12, 11, 11, 15]);
    let windows = money_flow_windows(&tp, 3);
    assert!(windows[2].is_none());
    let w3 = windows[3].as_ref().unwrap();
    assert_eq!(w3.positive, vec![1]);
    assert_eq!(w3.negative, vec![2]);
    let w4 = windows[4].as_ref().unwrap();
    assert_eq!(w4.positive, vec![4]);
    assert_eq!(w4.negative, vec![2]);
}

#[test]
fn mfi_zero_period_has_empty_windows() {
    let windows = money_flow_windows(&keys(&[1, 2, 3]), 0);
    for w in windows {
        let w = w.unwrap();
        assert!(w.positive.is_empty() && w.negative.is_empty());
    }
}
