use riskless::yield_calc::{compute_yield, pro_rata_share};

#[test]
fn compound_interest_test() {
    let yield_ = compute_yield(1000, 365);
    assert_eq!(yield_, Some(221));
}

#[test]
fn yield_is_zero_on_day_zero() {
    assert_eq!(compute_yield(1_000_000, 0), Some(0));
    assert_eq!(compute_yield(0, 365), Some(0));
}

#[test]
fn yield_non_decreasing_in_days() {
    let mut previous = 0u128;
    for days in [0u64, 1, 10, 100, 200, 365, 730] {
        let y = compute_yield(1_000_000_000, days).unwrap();
        assert!(y >= previous);
        previous = y;
    }
    // a spot value along the way
    assert_eq!(compute_yield(1_000_000_000, 100), Some(56_307_687));
}

#[test]
fn yield_overflows_to_none() {
    assert_eq!(compute_yield(u128::MAX, 1), None);
}

#[test]
fn pro_rata_shares_reassemble_within_one_unit() {
    // 300 + 700 backers of a 1000-unit principal splitting 221 of yield
    let s1 = pro_rata_share(300, 1000, 221);
    let s2 = pro_rata_share(700, 1000, 221);
    assert_eq!(s1, 66);
    assert_eq!(s2, 154);
    assert_eq!(s1 + s2, 220);
    assert!(221 - (s1 + s2) <= 1);

    // an even split divides exactly
    assert_eq!(pro_rata_share(500, 1000, 220), 110);
    // the full principal takes the full amount
    assert_eq!(pro_rata_share(1000, 1000, 221), 221);
    // an empty whole yields nothing
    assert_eq!(pro_rata_share(0, 0, 221), 0);
}
