use booster_swap::curve::{swap_exact_input, swap_exact_output};

const D: u64 = 1_000_000;

#[test]
fn scenario_input_ten_thousand_at_thirty_ppm() {
    // reserves (curve = 900_000, base = 100_000), rate 30 (0.3%), input 10_000.
    let o = swap_exact_input(10_000, 900_000, 100_000, 30, 500_000, 250_000).unwrap();
    assert_eq!(o.source_amount_consumed, 10_000);
    assert_eq!(o.trade_fee, 1); // ceil(10_000 * 30 / 10^6)
    assert_eq!(o.destination_amount_produced, 1_098);
    assert_eq!(o.new_source_reserve, 910_000);
    assert_eq!(o.new_destination_reserve, 98_902);
    // Strictly less than the naive fee-free quotient 10_000*100_000/910_000.
    assert!(
        (o.destination_amount_produced as u128) * 910_000u128 < 10_000u128 * 100_000u128
    );
    // The protocol and fund shares are exactly the configured split of the fee.
    assert_eq!(o.protocol_fee, o.trade_fee * 500_000 / D);
    assert_eq!(o.fund_fee, o.trade_fee * 250_000 / D);
}

#[test]
fn fee_split_exact_on_larger_trade() {
    let o = swap_exact_input(1_000_000, 900_000, 100_000, 30, 500_000, 250_000).unwrap();
    assert_eq!(o.trade_fee, 30);
    assert_eq!(o.protocol_fee, 15);
    assert_eq!(o.fund_fee, 7); // floor(30 * 0.25)
    assert!(o.protocol_fee + o.fund_fee <= o.trade_fee);
}

#[test]
fn constant_product_never_decreases_samples() {
    let cases: Vec<(u64, u64, u64, u64)> = vec![
        (1, 1, 1, 0),
        (10_000, 900_000, 100_000, 30),
        (123_456_789, 987_654_321, 12_345, 999_999),
        (u64::MAX / 2, u64::MAX / 2, u64::MAX / 2, 500),
        (7, 3, 1_000_000_000, 100_000),
    ];
    for (amount_in, rin, rout, rate) in cases {
        if let Some(o) = swap_exact_input(amount_in, rin, rout, rate, 120_000, 40_000) {
            let before = (rin as u128) * (rout as u128);
            let after =
                (o.new_source_reserve as u128) * (o.new_destination_reserve as u128);
            assert!(after >= before, "product shrank for input {amount_in}");
        }
    }
}

#[test]
fn fee_split_invariant_across_rates() {
    for &(pr, fr) in &[(0, 0), (1, 1), (500_000, 500_000), (999_999, 1), (250_000, 750_000)] {
        let o = swap_exact_input(50_000, 900_000, 100_000, 2_500, pr, fr).unwrap();
        assert!(o.protocol_fee + o.fund_fee <= o.trade_fee);
    }
}

#[test]
fn round_trip_is_lossy() {
    let forward = swap_exact_input(10_000, 900_000, 100_000, 30, 500_000, 250_000).unwrap();
    let back = swap_exact_output(
        forward.destination_amount_produced,
        900_000,
        100_000,
        30,
        500_000,
        250_000,
    )
    .unwrap();
    assert_eq!(back.destination_amount_produced, forward.destination_amount_produced);
    assert!(back.source_amount_consumed <= 10_000);
}

#[test]
fn round_trip_is_lossy_with_zero_fee() {
    let forward = swap_exact_input(10_000, 900_000, 100_000, 0, 0, 0).unwrap();
    let back =
        swap_exact_output(forward.destination_amount_produced, 900_000, 100_000, 0, 0, 0)
            .unwrap();
    assert!(back.source_amount_consumed <= 10_000);
}

#[test]
fn exact_input_rejects_zero_amount() {
    assert!(swap_exact_input(0, 900_000, 100_000, 30, 0, 0).is_none());
}

#[test]
fn exact_input_rejects_fee_swallowing_input() {
    // ceil(1 * 900_000 / 10^6) == 1, so nothing is left to trade.
    assert!(swap_exact_input(1, 900_000, 100_000, 900_000, 0, 0).is_none());
}

#[test]
fn exact_input_rejects_vanishing_output() {
    // A dust input against a huge input-side reserve rounds to no output.
    assert!(swap_exact_input(2, 1_000_000_000_000_000_000, 10, 0, 0, 0).is_none());
}

#[test]
fn exact_input_rejects_source_reserve_overflow() {
    assert!(swap_exact_input(u64::MAX, u64::MAX, 100, 0, 0, 0).is_none());
}

#[test]
fn exact_output_rejects_undeliverable_amount() {
    assert!(swap_exact_output(100_000, 900_000, 100_000, 30, 0, 0).is_none());
    assert!(swap_exact_output(100_001, 900_000, 100_000, 30, 0, 0).is_none());
}

#[test]
fn exact_output_rejects_overflowing_gross_input() {
    // Draining the destination reserve to one unit needs an input beyond u64.
    assert!(swap_exact_output(u64::MAX - 1, u64::MAX, u64::MAX, 0, 0, 0).is_none());
}

#[test]
fn exact_output_exact_values() {
    // Deliver 1_000 from (curve in = 900_000, base out = 100_000), zero fee:
    // needed = ceil(900_000*100_000 / 99_000) = 909_091, net in = 9_091.
    let o = swap_exact_output(1_000, 900_000, 100_000, 0, 0, 0).unwrap();
    assert_eq!(o.source_amount_consumed, 9_091);
    assert_eq!(o.trade_fee, 0);
    assert_eq!(o.new_source_reserve, 909_091);
    assert_eq!(o.new_destination_reserve, 99_000);
    let before = 900_000u128 * 100_000u128;
    let after = (o.new_source_reserve as u128) * (o.new_destination_reserve as u128);
    assert!(after >= before);
}

#[test]
fn exact_output_grosses_up_for_fee() {
    let net_only = swap_exact_output(1_000, 900_000, 100_000, 0, 0, 0).unwrap();
    let with_fee = swap_exact_output(1_000, 900_000, 100_000, 30, 500_000, 250_000).unwrap();
    assert!(with_fee.source_amount_consumed > net_only.source_amount_consumed);
    assert_eq!(
        with_fee.trade_fee,
        with_fee.source_amount_consumed - net_only.source_amount_consumed
    );
}
