use polars_ta::selection::{directional_movement, gain_loss, true_range_select};

#[test]
fn true_range_picks_largest_candidate() {
    let hl = vec![Some(50), Some(30), Some(10)];
    let hc = vec![None, Some(40), Some(5)];
    let lc = vec![None, Some(20), Some(60)];
    // Row 0 has no previous close; row 1 takes |high - prev close|; row 2 takes |low - prev close|.
    assert_eq!(true_range_select(&hl, &hc, &lc), vec![None, Some(40), Some(60)]);
}

#[test]
fn true_range_prefers_high_low_on_ties() {
    let hl = vec![Some(7)];
    let hc = vec![Some(7)];
    let lc = vec![Some(7)];
    assert_eq!(true_range_select(&hl, &hc, &lc), vec![Some(7)]);
}

#[test]
fn true_range_unknown_range_falls_back_to_closes() {
    assert_eq!(true_range_select(&vec![None], &vec![Some(3)], &vec![Some(9)]), vec![Some(9)]);
    assert_eq!(true_range_select(&vec![None], &vec![Some(9)], &vec![Some(3)]), vec![Some(9)]);
}

#[test]
fn directional_movement_rows() {
    let up = vec![None, Some(5), Some(-2), Some(3), Some(4)];
    let down = vec![None, Some(-1), Some(-6), Some(-3), None];
    let (plus, minus) = directional_movement(&up, &down);
    assert_eq!(plus, vec![0, 5, 0, 0, 0]);
    assert_eq!(minus, vec![0, 0, 6, 0, 0]);
}

#[test]
fn gain_loss_split() {
    let change = vec![None, Some(4), Some(-3), Some(0)];
    let (gains, losses) = gain_loss(&change);
    assert_eq!(gains, vec![0, 4, 0, 0]);
    assert_eq!(losses, vec![0, 0, 3, 0]);
    for i in 0..change.len() {
        assert!(gains[i] == 0 || losses[i] == 0);
    }
}
