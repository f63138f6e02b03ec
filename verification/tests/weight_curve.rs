use lbp::pool::{validate_pool_data, LBPAssetInfo, Phase, Pool};
use lbp::types::{Error, MAX_SALE_DURATION};
use lbp::weights::{calculate_weight, WeightCurveType};

const LINEAR: WeightCurveType = WeightCurveType::Linear;
const CONSTANT: WeightCurveType = WeightCurveType::Constant;

fn sample_pool(start: u64, end: u64, curve: WeightCurveType, pausable: bool) -> Pool {
    Pool::new(
        LBPAssetInfo { id: 1, amount: 5, initial_weight: 20, final_weight: 90 },
        LBPAssetInfo { id: 2, amount: 7, initial_weight: 80, final_weight: 10 },
        (start, end),
        curve,
        pausable,
    )
}

#[test]
fn linear_weight_is_exact_at_both_ends_of_the_window() {
    assert_eq!(calculate_weight(LINEAR, 10, 20, 20, 90, 10), 20);
    assert_eq!(calculate_weight(LINEAR, 10, 20, 20, 90, 20), 90);
    assert_eq!(calculate_weight(LINEAR, 10, 20, 80, 10, 10), 80);
    assert_eq!(calculate_weight(LINEAR, 10, 20, 80, 10, 20), 10);
}

#[test]
fn linear_weight_clamps_outside_the_window() {
    assert_eq!(calculate_weight(LINEAR, 10, 20, 20, 90, 0), 20);
    assert_eq!(calculate_weight(LINEAR, 10, 20, 20, 90, 9), 20);
    assert_eq!(calculate_weight(LINEAR, 10, 20, 20, 90, 21), 90);
    assert_eq!(calculate_weight(LINEAR, 10, 20, 20, 90, u64::MAX), 90);
}

#[test]
fn linear_weight_inside_the_window() {
    assert_eq!(calculate_weight(LINEAR, 10, 20, 20, 90, 11), 27);
    assert_eq!(calculate_weight(LINEAR, 10, 20, 80, 10, 11), 73);
    assert_eq!(calculate_weight(LINEAR, 10, 20, 20, 90, 13), 41);
    assert_eq!(calculate_weight(LINEAR, 10, 20, 80, 10, 13), 59);
    assert_eq!(calculate_weight(LINEAR, 10, 19, 20, 80, 13), 40);
    assert_eq!(calculate_weight(LINEAR, 10, 19, 80, 20, 13), 60);
}

#[test]
fn linear_weight_rounds_the_step_towards_zero() {
    // a third of ten is three, whichever way the weight moves
    assert_eq!(calculate_weight(LINEAR, 0, 3, 0, 10, 1), 3);
    assert_eq!(calculate_weight(LINEAR, 0, 3, 0, 10, 2), 6);
    assert_eq!(calculate_weight(LINEAR, 0, 3, 10, 0, 1), 7);
    assert_eq!(calculate_weight(LINEAR, 0, 3, 10, 0, 2), 4);
}

#[test]
fn weights_of_both_assets_keep_their_sum() {
    for now in 0..40u64 {
        let a = calculate_weight(LINEAR, 7, 30, 20, 90, now);
        let b = calculate_weight(LINEAR, 7, 30, 80, 10, now);
        assert_eq!(a + b, 100, "at {}", now);
    }
}

#[test]
fn linear_weight_moves_one_way_only() {
    let mut up = 0u128;
    let mut down = u128::MAX;
    for now in 0..60u64 {
        let a = calculate_weight(LINEAR, 5, 50, 3, 1_000, now);
        let b = calculate_weight(LINEAR, 5, 50, 1_000, 3, now);
        assert!(a >= up && (3..=1_000).contains(&a));
        assert!(b <= down && (3..=1_000).contains(&b));
        up = a;
        down = b;
    }
    assert_eq!(up, 1_000);
    assert_eq!(down, 3);
}

#[test]
fn constant_weight_ignores_the_time() {
    for now in [0u64, 9, 10, 15, 20, 21, u64::MAX] {
        assert_eq!(calculate_weight(CONSTANT, 10, 20, 20, 90, now), 20);
    }
}

#[test]
fn window_without_width_is_over_once_it_is_reached() {
    assert_eq!(calculate_weight(LINEAR, 10, 10, 20, 90, 9), 20);
    assert_eq!(calculate_weight(LINEAR, 10, 10, 20, 90, 10), 90);
    assert_eq!(calculate_weight(LINEAR, 10, 10, 20, 90, 11), 90);
    // the window without a date
    assert_eq!(calculate_weight(LINEAR, 0, 0, 20, 90, 0), 90);
    assert_eq!(calculate_weight(LINEAR, 0, 0, 20, 90, 1), 90);
}

#[test]
fn largest_weights_and_longest_window_do_not_overflow() {
    let half = 1u64 << 63;
    assert_eq!(
        calculate_weight(LINEAR, 0, u64::MAX, 0, u128::MAX, half),
        170141183460469231740910675752738881536
    );
    assert_eq!(
        calculate_weight(LINEAR, 0, u64::MAX, u128::MAX, 0, half),
        170141183460469231722463931679029329919
    );
    assert_eq!(calculate_weight(LINEAR, 0, u64::MAX, 0, u128::MAX, 1), 18446744073709551617);
    assert_eq!(
        calculate_weight(LINEAR, 0, u64::MAX, u128::MAX, 0, 1),
        340282366920938463444927863358058659838
    );
    assert_eq!(calculate_weight(LINEAR, 0, u64::MAX, 0, u128::MAX, u64::MAX - 1), u128::MAX - 18446744073709551617);
}

#[test]
fn new_pool_starts_from_its_initial_weights() {
    let pool = sample_pool(10, 20, LINEAR, true);
    assert_eq!(
        pool,
        Pool {
            start: 10,
            end: 20,
            initial_weights: ((1, 20), (2, 80)),
            final_weights: ((1, 90), (2, 10)),
            last_weight_update: 0,
            last_weights: ((1, 20), (2, 80)),
            curve: LINEAR,
            pausable: true,
            paused: true,
        }
    );
    assert_eq!(sample_pool(10, 20, CONSTANT, false).paused, false);
    assert_eq!(sample_pool(10, 20, CONSTANT, false).pausable, false);
}

#[test]
fn phase_follows_the_clock_and_the_pause_flag() {
    let mut pool = sample_pool(10, 20, LINEAR, true);
    assert_eq!(pool.phase(9), Phase::NotStarted);
    assert_eq!(pool.phase(10), Phase::Paused);
    assert_eq!(pool.phase(19), Phase::Paused);
    assert_eq!(pool.phase(20), Phase::Ended);
    assert!(!pool.is_running(15));
    pool.paused = false;
    assert_eq!(pool.phase(9), Phase::NotStarted);
    assert_eq!(pool.phase(10), Phase::Running);
    assert_eq!(pool.phase(19), Phase::Running);
    assert_eq!(pool.phase(20), Phase::Ended);
    assert!(!pool.is_running(9));
    assert!(pool.is_running(10));
    assert!(pool.is_running(19));
    assert!(!pool.is_running(20));
    assert!(!pool.has_started(9) && pool.has_started(10));
    assert!(!pool.has_ended(19) && pool.has_ended(20));
}

#[test]
fn pool_without_a_date_never_trades() {
    let mut pool = sample_pool(0, 0, LINEAR, false);
    assert_eq!(validate_pool_data(&pool), Ok(()));
    for now in [0u64, 1, 1_000, u64::MAX] {
        assert_eq!(pool.phase(now), Phase::Ended);
        assert!(!pool.is_running(now));
    }
    pool.update_weights(5);
    assert_eq!(pool.last_weights, ((1, 90), (2, 10)));
}

#[test]
fn sale_window_is_checked_at_its_limits() {
    assert_eq!(validate_pool_data(&sample_pool(7, 7, LINEAR, true)), Ok(()));
    assert_eq!(validate_pool_data(&sample_pool(7, 7 + MAX_SALE_DURATION, LINEAR, true)), Ok(()));
    assert_eq!(
        validate_pool_data(&sample_pool(7, 8 + MAX_SALE_DURATION, LINEAR, true)),
        Err(Error::MaxDurationExceeded)
    );
    assert_eq!(
        validate_pool_data(&sample_pool(0, u64::MAX, LINEAR, true)),
        Err(Error::MaxDurationExceeded)
    );
    assert_eq!(validate_pool_data(&sample_pool(8, 7, LINEAR, true)), Err(Error::InvalidTimeRange));
    assert_eq!(
        validate_pool_data(&sample_pool(u64::MAX, 0, LINEAR, true)),
        Err(Error::InvalidTimeRange)
    );
}

#[test]
fn refreshing_weights_twice_is_refreshing_them_once() {
    let mut once = sample_pool(10, 20, LINEAR, true);
    once.update_weights(14);
    let mut twice = once;
    twice.update_weights(14);
    assert_eq!(once, twice);
    assert_eq!(once.last_weight_update, 14);
    assert_eq!(once.last_weights, ((1, 48), (2, 52)));
}

#[test]
fn refresh_never_turns_the_clock_back() {
    let mut pool = sample_pool(10, 20, LINEAR, true);
    pool.update_weights(14);
    let at_14 = pool;
    pool.update_weights(12);
    assert_eq!(pool, at_14);
    pool.update_weights(0);
    assert_eq!(pool, at_14);
    pool.update_weights(15);
    assert_eq!(pool.last_weight_update, 15);
    assert_eq!(pool.last_weights, ((1, 55), (2, 45)));
    // nothing but the cached weights and their time has changed
    assert_eq!(
        Pool { last_weight_update: 0, last_weights: ((1, 20), (2, 80)), ..pool },
        sample_pool(10, 20, LINEAR, true)
    );
}

#[test]
fn refresh_at_time_zero_changes_nothing() {
    let mut pool = sample_pool(0, 0, LINEAR, true);
    pool.update_weights(0);
    assert_eq!(pool, sample_pool(0, 0, LINEAR, true));
}
