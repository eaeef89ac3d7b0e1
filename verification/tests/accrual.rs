use creator_pool::pool::{Address, ErrorCode, Pool, User, PRECISION, SECONDS_IN_YEAR};
use creator_pool::wide::Wide;

fn pool_with(stored: u128, last: u64, end: u64, rate: u64, duration: u64) -> Pool {
    let mut pool = Pool::default();
    pool.reward_per_token_stored = stored;
    pool.last_update_time = last;
    pool.reward_duration_end = end;
    pool.reward_rate = rate;
    pool.reward_duration = duration;
    pool
}

fn position(balance: u64, complete: u128, pending: u64) -> User {
    let mut user = User::default();
    user.balance_staked = balance;
    user.reward_per_token_complete = complete;
    user.reward_per_token_pending = pending;
    user
}

#[test]
fn constants_have_their_values() {
    assert_eq!(PRECISION, u64::MAX as u128);
    assert_eq!(SECONDS_IN_YEAR, 365 * 24 * 60 * 60);
}

#[test]
fn wide_from_u64_fills_the_low_limb() {
    let w = Wide::from_u64(77);
    assert_eq!((w.lo, w.mid, w.hi), (77, 0, 0));
    assert_eq!(w.to_u128(), Some(77));
}

#[test]
fn wide_from_u128_splits_into_two_limbs() {
    let w = Wide::from_u128((1u128 << 64) + 5);
    assert_eq!((w.lo, w.mid, w.hi), (5, 1, 0));
    let m = Wide::from_u128(u128::MAX);
    assert_eq!((m.lo, m.mid, m.hi), (u64::MAX, u64::MAX, 0));
    assert_eq!(m.to_u128(), Some(u128::MAX));
}

#[test]
fn wide_to_u128_refuses_what_does_not_fit() {
    let w = Wide { lo: 0, mid: 0, hi: 1 };
    assert_eq!(w.to_u128(), None);
}

#[test]
fn last_time_reward_applicable_is_the_earlier_time() {
    assert_eq!(Pool::last_time_reward_applicable(100, 50), 50);
    assert_eq!(Pool::last_time_reward_applicable(100, 100), 100);
    assert_eq!(Pool::last_time_reward_applicable(100, 150), 100);
    assert_eq!(Pool::last_time_reward_applicable(0, 1), 0);
}

#[test]
fn reward_per_token_with_nothing_staked_stays() {
    let pool = pool_with(7, 10, 100, 315_360_000, 100);
    assert_eq!(pool.calc_reward_per_token(0, 50), Some(7));
    // even where time would run backwards
    assert_eq!(pool.calc_reward_per_token(0, 5), Some(7));
}

#[test]
fn reward_per_token_follows_the_formula() {
    let pool = pool_with(0, 1_000, 1_100, 315_360_000, 100);
    assert_eq!(pool.calc_reward_per_token(50, 1_050), Some(10 * PRECISION));
    let pool = pool_with(3, 0, 100, 1000, 100);
    assert_eq!(pool.calc_reward_per_token(3, 7), Some(3 + 1_364_865_640_495_168));
}

#[test]
fn reward_per_token_rounds_each_division_down() {
    let pool = pool_with(0, 0, 10, 1, 10);
    assert_eq!(pool.calc_reward_per_token(1, 1), Some(584_942_417_355));
    assert_eq!(pool.calc_reward_per_token(584_942_417_355, 1), Some(1));
    assert_eq!(pool.calc_reward_per_token(584_942_417_356, 1), Some(0));
}

#[test]
fn reward_per_token_over_a_year_at_rate_one_is_the_precision() {
    let pool = pool_with(0, 0, SECONDS_IN_YEAR, 1, SECONDS_IN_YEAR);
    assert_eq!(pool.calc_reward_per_token(1, SECONDS_IN_YEAR), Some(PRECISION));
}

#[test]
fn reward_per_token_carries_products_beyond_128_bits() {
    let pool = pool_with(5, 0, u64::MAX, 1 << 63, 100);
    assert_eq!(
        pool.calc_reward_per_token(1 << 40, 1 << 32),
        Some(21_074_771_622_667_996_461_690_599_101)
    );
}

#[test]
fn reward_per_token_is_undefined_when_time_runs_backwards() {
    let pool = pool_with(7, 10, 100, 315_360_000, 100);
    assert_eq!(pool.calc_reward_per_token(5, 9), None);
    assert_eq!(pool.calc_reward_per_token(5, 10), Some(7));
}

#[test]
fn reward_per_token_is_undefined_when_it_does_not_fit() {
    let pool = pool_with(0, 0, u64::MAX, 1 << 63, 100);
    assert_eq!(pool.calc_reward_per_token(1, 1 << 63), None);
    let pool = pool_with(u128::MAX, 0, 10, 1, 10);
    assert_eq!(pool.calc_reward_per_token(584_942_417_355, 1), None);
    assert_eq!(pool.calc_reward_per_token(584_942_417_356, 1), Some(u128::MAX));
}

#[test]
fn earned_follows_the_formula() {
    let pool = pool_with(10 * PRECISION, 0, 0, 0, 0);
    assert_eq!(pool.calc_user_earned_amount(&position(50, 0, 0)), Some(500));
    assert_eq!(pool.calc_user_earned_amount(&position(50, 4 * PRECISION, 11)), Some(311));
    assert_eq!(pool.calc_user_earned_amount(&position(0, 0, 9)), Some(9));
}

#[test]
fn earned_rounds_down() {
    let pool = pool_with(27_670_116_110_564_327_422, 0, 0, 0, 0);
    assert_eq!(pool.calc_user_earned_amount(&position(3, 0, 1)), Some(5));
    let pool = pool_with(PRECISION - 1, 0, 0, 0, 0);
    assert_eq!(pool.calc_user_earned_amount(&position(1, 0, 0)), Some(0));
}

#[test]
fn earned_is_undefined_when_the_snapshot_is_ahead() {
    let pool = pool_with(10, 0, 0, 0, 0);
    assert_eq!(pool.calc_user_earned_amount(&position(1, 11, 0)), None);
}

#[test]
fn earned_is_undefined_when_it_does_not_fit() {
    let pool = pool_with(1 << 65, 0, 0, 0, 0);
    assert_eq!(pool.calc_user_earned_amount(&position(u64::MAX, 0, 0)), None);
    let pool = pool_with(3 * PRECISION, 0, 0, 0, 0);
    assert_eq!(
        pool.calc_user_earned_amount(&position(1 << 62, 0, 0)),
        Some(3 * (1u64 << 62))
    );
    assert_eq!(pool.calc_user_earned_amount(&position(1 << 62, 0, 1 << 63)), None);
}

#[test]
fn rate_after_funding_an_idle_pool() {
    let pool = pool_with(0, 0, 0, 0, 100);
    assert_eq!(pool.calc_rate_after_funding(1000, 1_000), Some(315_360_000));
    assert_eq!(pool.calc_rate_after_funding(0, 1_000), Some(0));
    // at the very end of the window nothing is left
    let pool = pool_with(0, 1_000, 1_100, 315_360_000, 100);
    assert_eq!(pool.calc_rate_after_funding(1000, 1_100), Some(315_360_000));
}

#[test]
fn rate_after_funding_a_running_window_carries_the_leftover() {
    let pool = pool_with(0, 1_000, 1_100, 315_360_000, 100);
    assert_eq!(pool.calc_rate_after_funding(1000, 1_050), Some(473_040_000));
    assert_eq!(pool.calc_rate_after_funding(0, 1_050), Some(157_680_000));
    // a leftover below one unit is rounded away
    let pool = pool_with(0, 0, 1, 31_535_999, 100);
    assert_eq!(pool.calc_rate_after_funding(10, 0), Some(3_153_600));
}

#[test]
fn rate_after_funding_rounds_the_multiplier_down() {
    let pool = pool_with(0, 0, 0, 0, 7);
    assert_eq!(pool.calc_rate_after_funding(10, 5), Some(45_051_420));
    let pool = pool_with(0, 0, 0, 0, SECONDS_IN_YEAR + 1);
    assert_eq!(pool.calc_rate_after_funding(10, 5), Some(0));
}

#[test]
fn rate_after_funding_is_undefined_without_a_window_or_beyond_64_bits() {
    let pool = pool_with(0, 0, 0, 0, 0);
    assert_eq!(pool.calc_rate_after_funding(10, 5), None);
    let pool = pool_with(0, 0, 0, 0, 100);
    assert_eq!(pool.calc_rate_after_funding(u64::MAX, 5), None);
    // the leftover alone is beyond 64 bits
    let pool = pool_with(0, 0, u64::MAX, u64::MAX, SECONDS_IN_YEAR + 1);
    assert_eq!(pool.calc_rate_after_funding(0, 0), None);
    // deposit and leftover together are beyond 64 bits
    let pool = pool_with(0, 0, SECONDS_IN_YEAR, 5, SECONDS_IN_YEAR + 1);
    assert_eq!(pool.calc_rate_after_funding(u64::MAX - 4, 0), None);
    assert_eq!(pool.calc_rate_after_funding(u64::MAX - 5, 0), Some(0));
}

#[test]
fn update_rewards_without_a_position_advances_the_pool() {
    let mut pool = pool_with(0, 1_000, 1_100, 315_360_000, 100);
    assert_eq!(pool.update_rewards(None, 50, 1_050), Ok(()));
    assert_eq!(pool.reward_per_token_stored, 10 * PRECISION);
    assert_eq!(pool.last_update_time, 1_050);
    assert_eq!(pool.reward_rate, 315_360_000);
    assert_eq!(pool.reward_duration_end, 1_100);
}

#[test]
fn update_rewards_stops_at_the_end_of_the_window() {
    let mut pool = pool_with(0, 1_000, 1_100, 315_360_000, 100);
    let mut user = position(50, 0, 0);
    assert_eq!(pool.update_rewards(Some(&mut user), 50, 1_200), Ok(()));
    assert_eq!(pool.reward_per_token_stored, 20 * PRECISION);
    assert_eq!(pool.last_update_time, 1_100);
    assert_eq!(user.reward_per_token_pending, 1000);
    assert_eq!(user.reward_per_token_complete, 20 * PRECISION);
    assert_eq!(user.balance_staked, 50);
}

#[test]
fn update_rewards_that_fails_on_the_pool_changes_nothing() {
    let mut pool = pool_with(7, 1_000, 1_100, 315_360_000, 100);
    let mut user = position(50, 0, 3);
    let (pool_before, user_before) = (pool, user);
    assert_eq!(pool.update_rewards(Some(&mut user), 50, 999), Err(ErrorCode::ArithmeticFault));
    assert_eq!(pool, pool_before);
    assert_eq!(user, user_before);
}

#[test]
fn update_rewards_that_fails_on_the_position_changes_nothing() {
    let mut pool = pool_with(0, 1_000, 1_100, 315_360_000, 100);
    let mut user = position(50, 11 * PRECISION, 3);
    let (pool_before, user_before) = (pool, user);
    assert_eq!(pool.update_rewards(Some(&mut user), 50, 1_050), Err(ErrorCode::ArithmeticFault));
    assert_eq!(pool, pool_before);
    assert_eq!(user, user_before);
}

#[test]
fn addresses_compare_byte_for_byte() {
    let a = Address { bytes: [1; 32] };
    let mut b = Address { bytes: [1; 32] };
    assert!(a.same(&b));
    b.bytes[31] = 2;
    assert!(!a.same(&b));
    assert!(Address::default().same(&Address { bytes: [0; 32] }));
}

#[test]
fn error_messages_are_in_words() {
    assert_eq!(
        ErrorCode::AmountMustBeGreaterThanZero.message(),
        "Amount must be greater than zero."
    );
    assert_eq!(ErrorCode::InsufficientFundUnstake.message(), "Insufficient funds to unstake.");
    assert_eq!(
        ErrorCode::UnauthorizedFunder.message(),
        "Only the pool authority may fund the pool."
    );
    assert_eq!(ErrorCode::ArithmeticFault.message(), "Arithmetic fault in reward accounting.");
}
