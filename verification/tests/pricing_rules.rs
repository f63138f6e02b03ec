use lbp::pricing::{
    buy_outcome, calculate_buy, calculate_fee, calculate_sell, sell_outcome, spot_price,
};
use lbp::types::{Error, MAX_IN_RATIO, MAX_OUT_RATIO};

#[test]
fn fee_is_two_thousandths_rounded_down() {
    assert_eq!(calculate_fee(0), 0);
    assert_eq!(calculate_fee(499), 0);
    assert_eq!(calculate_fee(500), 1);
    assert_eq!(calculate_fee(999), 1);
    assert_eq!(calculate_fee(1_000), 2);
    assert_eq!(calculate_fee(10_000_000), 20_000);
    assert_eq!(calculate_fee(1_000_000_000_000), 2_000_000_000);
    assert_eq!(calculate_fee(u128::MAX), 680564733841876926926749214863536422);
}

#[test]
fn sale_is_decided_by_the_first_rule_that_refuses() {
    let reserve_in = 3_000u128;
    let reserve_out = 6_000u128;
    // too much paid in, whatever the quote
    assert_eq!(
        sell_outcome(reserve_in, reserve_out, 1_001, 0, Some(1)),
        Err(Error::MaxInRatioExceeded)
    );
    assert_eq!(
        sell_outcome(reserve_in, reserve_out, 1_001, 0, None),
        Err(Error::MaxInRatioExceeded)
    );
    // no quote
    assert_eq!(sell_outcome(reserve_in, reserve_out, 1_000, 0, None), Err(Error::Overflow));
    // too much taken out, before the trader's limit is looked at
    assert_eq!(
        sell_outcome(reserve_in, reserve_out, 1_000, 5_000, Some(2_001)),
        Err(Error::MaxOutRatioExceeded)
    );
    // less than the trader asked for
    assert_eq!(
        sell_outcome(reserve_in, reserve_out, 1_000, 1_501, Some(1_500)),
        Err(Error::AssetBalanceLimitExceeded)
    );
    // all rules met, at each limit
    assert_eq!(sell_outcome(reserve_in, reserve_out, 1_000, 1_500, Some(1_500)), Ok(1_500));
    assert_eq!(sell_outcome(reserve_in, reserve_out, 1_000, 0, Some(2_000)), Ok(2_000));
    assert_eq!(sell_outcome(reserve_in, reserve_out, 1, 0, Some(0)), Ok(0));
}

#[test]
fn purchase_is_decided_by_the_first_rule_that_refuses() {
    let reserve_in = 3_000u128;
    let reserve_out = 6_000u128;
    // too much taken out, whatever the quote
    assert_eq!(
        buy_outcome(reserve_in, reserve_out, 2_001, u128::MAX, Some(1)),
        Err(Error::MaxOutRatioExceeded)
    );
    assert_eq!(
        buy_outcome(reserve_in, reserve_out, 2_001, u128::MAX, None),
        Err(Error::MaxOutRatioExceeded)
    );
    // no quote
    assert_eq!(buy_outcome(reserve_in, reserve_out, 2_000, u128::MAX, None), Err(Error::Overflow));
    // too much paid in, before the trader's limit is looked at
    assert_eq!(
        buy_outcome(reserve_in, reserve_out, 2_000, 10, Some(1_001)),
        Err(Error::MaxInRatioExceeded)
    );
    // more than the trader allowed
    assert_eq!(
        buy_outcome(reserve_in, reserve_out, 2_000, 999, Some(1_000)),
        Err(Error::AssetBalanceLimitExceeded)
    );
    // all rules met, at each limit
    assert_eq!(buy_outcome(reserve_in, reserve_out, 2_000, 1_000, Some(1_000)), Ok(1_000));
    assert_eq!(buy_outcome(reserve_in, reserve_out, 1, 0, Some(0)), Ok(0));
}

#[test]
fn sale_is_priced_on_the_amount_less_the_fee() {
    // 10_000_000 less the fee of 20_000
    assert_eq!(
        calculate_sell(1_000_000_000, 2_000_000_000, 27, 73, 10_000_000, 2_000),
        Ok(7_332_274)
    );
    // 10_020_040 less the fee of 20_040 is 10_000_000
    assert_eq!(
        calculate_sell(1_000_000_000, 2_000_000_000, 20, 80, 10_020_040, 0),
        Ok(4_968_876)
    );
    assert_eq!(
        calculate_sell(1_000_000_000, 2_000_000_000, 27, 73, 10_000_000, 7_332_274),
        Ok(7_332_274)
    );
    assert_eq!(
        calculate_sell(1_000_000_000, 2_000_000_000, 27, 73, 10_000_000, 7_332_275),
        Err(Error::AssetBalanceLimitExceeded)
    );
}

#[test]
fn purchase_is_priced_on_the_amount_plus_the_fee() {
    // 10_000_000 plus the fee of 20_000
    assert_eq!(
        calculate_buy(1_000_000_000, 2_000_000_000, 27, 73, 10_000_000, 2_000_000_000),
        Ok(13_672_217)
    );
    // 9_980_040 plus the fee of 19_960 is 10_000_000
    assert_eq!(
        calculate_buy(1_000_000_000, 2_000_000_000, 20, 80, 9_980_040, u128::MAX),
        Ok(20_252_522)
    );
    assert_eq!(
        calculate_buy(1_000_000_000, 2_000_000_000, 27, 73, 10_000_000, 13_672_217),
        Ok(13_672_217)
    );
    assert_eq!(
        calculate_buy(1_000_000_000, 2_000_000_000, 27, 73, 10_000_000, 13_672_216),
        Err(Error::AssetBalanceLimitExceeded)
    );
}

#[test]
fn size_limits_hold_at_the_boundary() {
    let reserve_in = 1_000_000_000u128;
    let reserve_out = 2_000_000_000u128;
    assert!(calculate_sell(reserve_in, reserve_out, 27, 73, reserve_in / MAX_IN_RATIO, 0).is_ok());
    assert_eq!(
        calculate_sell(reserve_in, reserve_out, 27, 73, reserve_in / MAX_IN_RATIO + 1, 0),
        Err(Error::MaxInRatioExceeded)
    );
    assert!(
        calculate_buy(reserve_in, reserve_out, 73, 27, reserve_out / MAX_OUT_RATIO, u128::MAX)
            .is_ok()
    );
    assert_eq!(
        calculate_buy(reserve_in, reserve_out, 73, 27, reserve_out / MAX_OUT_RATIO + 1, u128::MAX),
        Err(Error::MaxOutRatioExceeded)
    );
}

#[test]
fn sale_that_would_drain_the_pool_is_refused() {
    // with a heavy input weight a sale within the input limit takes too much out
    assert_eq!(
        calculate_sell(1_000_000_000, 2_000_000_000, 90, 10, 333_333_333, 0),
        Err(Error::MaxOutRatioExceeded)
    );
    // and a purchase within the output limit costs too much
    assert_eq!(
        calculate_buy(1_000_000_000, 2_000_000_000, 10, 90, 666_666_666, u128::MAX),
        Err(Error::MaxInRatioExceeded)
    );
}

#[test]
fn swap_without_a_result_is_an_overflow() {
    // a weight of zero has no ratio
    assert_eq!(calculate_sell(1_000_000_000, 2_000_000_000, 27, 0, 1_000, 0), Err(Error::Overflow));
    assert_eq!(
        calculate_buy(1_000_000_000, 2_000_000_000, 0, 73, 1_000, u128::MAX),
        Err(Error::Overflow)
    );
    // empty reserves admit no trade at all
    assert_eq!(calculate_sell(0, 0, 27, 73, 1, 0), Err(Error::MaxInRatioExceeded));
    assert_eq!(calculate_buy(0, 0, 27, 73, 1, u128::MAX), Err(Error::MaxOutRatioExceeded));
}

#[test]
fn spot_price_is_the_weighted_quotient_of_the_reserves() {
    assert_eq!(spot_price(1_000, 2_000, 500, 500, 100), 200);
    assert_eq!(spot_price(1_000_000_000, 2_000_000_000, 20, 80, 1_000), 500);
    assert_eq!(spot_price(1_000_000_000, 2_000_000_000, 80, 20, 1_000), 8_000);
    // rounded down
    assert_eq!(spot_price(3, 1, 1, 1, 2), 0);
    assert_eq!(spot_price(3, 1, 1, 1, 5), 1);
    assert_eq!(spot_price(u128::MAX, u128::MAX - 1, 1, 1, 1), 0);
    // nothing is worth nothing, and an empty output reserve gives nothing
    assert_eq!(spot_price(1, 1, 1, 1, 0), 0);
    assert_eq!(spot_price(1, 0, 1, 1, 1), 0);
    assert_eq!(spot_price(1, 1, 0, 1, 1), 0);
    // no price: empty input reserve, no output weight, numbers too large
    assert_eq!(spot_price(0, 1, 1, 1, 1), 0);
    assert_eq!(spot_price(0, 0, 0, 0, 100), 0);
    assert_eq!(spot_price(5, 5, 5, 0, 5), 0);
    assert_eq!(spot_price(1, u128::MAX, u128::MAX, u128::MAX, u128::MAX), 0);
    assert_eq!(spot_price(1, u128::MAX, 1, 1, 2), 0);
    // the largest price that fits
    assert_eq!(spot_price(1, u128::MAX, 1, 1, 1), u128::MAX);
    assert_eq!(spot_price(2, u128::MAX, 1, 1, 2), u128::MAX);
    // a product of three that just fits in 256 bits
    assert_eq!(spot_price(u128::MAX, u128::MAX, 1, 1, u128::MAX), u128::MAX);
    assert_eq!(spot_price(u128::MAX, u128::MAX, 1, u128::MAX, u128::MAX), 1);
    // one that does not, though the quotient would
    assert_eq!(spot_price(u128::MAX, u128::MAX, 2, u128::MAX, u128::MAX), 0);
    assert_eq!(spot_price(u128::MAX, u128::MAX, u128::MAX, u128::MAX, u128::MAX), 0);
}
