use creator_pool::instructions::{
    claim_reward, fund, stake, unstake, ClaimReward, Fund, Stake, TokenAccount,
};
use creator_pool::pool::{Address, Pool, User, PRECISION};

fn key(b: u8) -> Address {
    Address { bytes: [b; 32] }
}

fn fresh_pool() -> Pool {
    let mut pool = Pool::default();
    pool.authority = key(1);
    pool.reward_duration = 100;
    pool
}

fn participant(n: u8) -> User {
    let mut user = User::default();
    user.pool = key(9);
    user.owner = key(n);
    user
}

/// A pool, two positions and the two vaults, with transfers carried out as asked.
struct World {
    pool: Pool,
    users: [User; 2],
    staking_vault: u64,
    reward_vault: u64,
}

impl World {
    fn new() -> World {
        World {
            pool: fresh_pool(),
            users: [participant(10), participant(11)],
            staking_vault: 0,
            reward_vault: 0,
        }
    }

    fn stake_accounts(&self, who: usize) -> Stake {
        Stake {
            pool: self.pool,
            staking_vault: TokenAccount { key: key(3), amount: self.staking_vault },
            user: self.users[who],
            owner: self.users[who].owner,
            stake_from_account: key(20),
            pool_signer: key(12),
        }
    }

    fn stake(&mut self, who: usize, amount: u64, now: u64) -> bool {
        let mut ctx = self.stake_accounts(who);
        let asked = stake(&mut ctx, amount, now);
        self.pool = ctx.pool;
        self.users[who] = ctx.user;
        if let Ok(t) = asked {
            self.staking_vault += t.amount;
        }
        asked.is_ok()
    }

    fn unstake(&mut self, who: usize, amount: u64, now: u64) -> bool {
        let mut ctx = self.stake_accounts(who);
        let asked = unstake(&mut ctx, amount, now);
        self.pool = ctx.pool;
        self.users[who] = ctx.user;
        if let Ok(t) = asked {
            self.staking_vault -= t.amount;
        }
        asked.is_ok()
    }

    fn fund(&mut self, amount: u64, now: u64) -> bool {
        let mut ctx = Fund {
            pool: self.pool,
            staking_vault: TokenAccount { key: key(3), amount: self.staking_vault },
            reward_vault: TokenAccount { key: key(5), amount: self.reward_vault },
            funder: key(1),
            from: key(21),
        };
        let asked = fund(&mut ctx, amount, now);
        self.pool = ctx.pool;
        if let Ok(Some(t)) = asked {
            self.reward_vault += t.amount;
        }
        asked.is_ok()
    }

    fn claim(&mut self, who: usize, now: u64) -> u64 {
        let mut ctx = ClaimReward {
            pool: self.pool,
            staking_vault: TokenAccount { key: key(3), amount: self.staking_vault },
            reward_vault: TokenAccount { key: key(5), amount: self.reward_vault },
            user: self.users[who],
            owner: self.users[who].owner,
            to_reward_account: key(22),
            pool_signer: key(12),
        };
        let asked = claim_reward(&mut ctx, now);
        self.pool = ctx.pool;
        self.users[who] = ctx.user;
        match asked {
            Ok(Some(t)) => {
                self.reward_vault -= t.amount;
                t.amount
            }
            _ => 0,
        }
    }

    fn staked_in_all(&self) -> u128 {
        self.users.iter().map(|u| u.balance_staked as u128).sum()
    }
}

#[test]
fn running_total_and_update_time_never_decrease() {
    let mut w = World::new();
    let mut seen = (w.pool.reward_per_token_stored, w.pool.last_update_time);
    let mut check = |w: &World| {
        assert!(w.pool.reward_per_token_stored >= seen.0);
        assert!(w.pool.last_update_time >= seen.1);
        assert!(w.pool.last_update_time <= w.pool.reward_duration_end);
        seen = (w.pool.reward_per_token_stored, w.pool.last_update_time);
    };
    assert!(w.fund(1000, 1_000));
    check(&w);
    assert!(w.stake(0, 50, 1_010));
    check(&w);
    assert!(w.stake(1, 150, 1_020));
    check(&w);
    assert!(!w.unstake(0, 51, 1_030));
    check(&w);
    assert!(w.unstake(0, 20, 1_040));
    check(&w);
    w.claim(1, 1_060);
    check(&w);
    assert!(w.fund(500, 1_080));
    check(&w);
    w.claim(0, 1_500);
    check(&w);
    assert!(w.stake(0, 1, 1_500));
    check(&w);
    assert!(w.pool.reward_per_token_stored > 0);
}

#[test]
fn stakes_stay_within_the_staking_vault() {
    let mut w = World::new();
    assert!(w.fund(1000, 1_000));
    assert!(w.staked_in_all() <= w.staking_vault as u128);
    assert!(w.stake(0, 50, 1_010));
    assert!(w.staked_in_all() <= w.staking_vault as u128);
    assert!(w.stake(1, 150, 1_020));
    assert!(w.staked_in_all() <= w.staking_vault as u128);
    assert!(!w.unstake(1, 151, 1_030));
    assert!(w.staked_in_all() <= w.staking_vault as u128);
    assert!(w.unstake(1, 150, 1_040));
    assert!(w.staked_in_all() <= w.staking_vault as u128);
    w.claim(0, 1_050);
    assert!(w.staked_in_all() <= w.staking_vault as u128);
    assert!(!w.stake(0, 0, 1_060));
    assert_eq!(w.staked_in_all(), 50);
    assert_eq!(w.staking_vault, 50);
}

#[test]
fn rewards_are_shared_by_stake_and_paid_once() {
    let mut w = World::new();
    assert!(w.fund(1000, 1_000));
    assert!(w.stake(0, 50, 1_000));
    assert!(w.stake(1, 150, 1_000));
    // 40 seconds at 10 units a second, shared 1 to 3
    assert_eq!(w.claim(0, 1_040), 100);
    assert_eq!(w.claim(1, 1_040), 300);
    assert_eq!(w.claim(0, 1_040), 0);
    assert_eq!(w.claim(1, 1_040), 0);
    assert_eq!(w.reward_vault, 600);
    // the rest of the window, and nothing after it
    assert_eq!(w.claim(0, 2_000), 150);
    assert_eq!(w.claim(1, 3_000), 450);
    assert_eq!(w.reward_vault, 0);
    assert_eq!(w.pool.reward_per_token_stored, 5 * PRECISION);
}

#[test]
fn settling_twice_at_the_same_time_credits_once() {
    let mut pool = fresh_pool();
    pool.reward_rate = 315_360_000;
    pool.last_update_time = 1_000;
    pool.reward_duration_end = 1_100;
    let mut user = participant(10);
    user.balance_staked = 50;
    user.reward_per_token_pending = 3;
    assert_eq!(pool.update_rewards(Some(&mut user), 50, 1_050), Ok(()));
    assert_eq!(user.reward_per_token_pending, 503);
    let (pool_once, user_once) = (pool, user);
    assert_eq!(pool.update_rewards(Some(&mut user), 50, 1_050), Ok(()));
    assert_eq!(user.reward_per_token_pending, 503);
    assert_eq!(pool, pool_once);
    assert_eq!(user, user_once);
}

#[test]
fn advancing_with_nothing_staked_keeps_the_running_total() {
    let mut pool = fresh_pool();
    pool.reward_rate = 315_360_000;
    pool.reward_per_token_stored = 12_345;
    pool.last_update_time = 1_000;
    pool.reward_duration_end = 1_100;
    assert_eq!(pool.update_rewards(None, 0, 1_050), Ok(()));
    assert_eq!(pool.reward_per_token_stored, 12_345);
    assert_eq!(pool.last_update_time, 1_050);
    assert_eq!(pool.update_rewards(None, 0, 5_000), Ok(()));
    assert_eq!(pool.reward_per_token_stored, 12_345);
    assert_eq!(pool.last_update_time, 1_100);
}

#[test]
fn funding_a_running_window_never_yields_less_than_the_deposit_alone() {
    let mut pool = fresh_pool();
    pool.reward_rate = 315_360_000;
    pool.last_update_time = 1_000;
    pool.reward_duration_end = 1_100;
    let multiplier: u64 = 315_360;
    let mut now: u64 = 1_000;
    while now < 1_100 {
        for amount in [0u64, 1, 999, 1000, 123_456] {
            let rate = pool.calc_rate_after_funding(amount, now).unwrap();
            assert!(rate >= amount * multiplier);
            assert_eq!(rate, (amount + (1_100 - now) * 10) * multiplier);
        }
        now += 7;
    }
}

#[test]
fn a_claim_leaves_nothing_pending() {
    for rewards in [0u64, 1, 499, 500, 501, u64::MAX] {
        let mut w = World::new();
        assert!(w.fund(1000, 1_000));
        assert!(w.stake(0, 50, 1_000));
        w.reward_vault = rewards;
        let paid = w.claim(0, 1_050);
        assert_eq!(paid, rewards.min(500));
        assert_eq!(w.users[0].reward_per_token_pending, 0);
    }
}
