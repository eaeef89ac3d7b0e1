//! The operations on a pool.
//!
//! Each operation takes a context, the accounts it works on as it finds them,
//! and the current time. It first advances the pool and settles the acting
//! position, then applies its own effect, and hands back the token transfer
//! that is to follow. The transfer itself is the caller's to carry out. An
//! operation that fails leaves its context as it was.

use crate::pool::{ErrorCode, Pool, User, Address};
use vstd::prelude::*;

verus! {

/// A token account as an operation reads it: where it is and what it holds.
#[derive(Clone, Copy, Debug, PartialEq, Eq)]
pub struct TokenAccount {
    pub key: Address,
    pub amount: u64,
}

/// A token transfer that an operation asks for. The amount is never zero.
#[derive(Clone, Copy, Debug, PartialEq, Eq)]
pub struct Transfer {
    pub from: Address,
    pub to: Address,
    pub authority: Address,
    pub amount: u64,
}

/// The accounts of `stake` and of `unstake`.
#[derive(Clone, Copy, Debug, PartialEq, Eq)]
pub struct Stake {
    pub pool: Pool,
    /// The vault of staked tokens; its balance is the total staked.
    pub staking_vault: TokenAccount,
    pub user: User,
    pub owner: Address,
    /// The participant's token account: source of a stake, target of an unstake.
    pub stake_from_account: Address,
    /// The address that owns the vaults.
    pub pool_signer: Address,
}

impl Stake {
    /// Whether `stake` of a positive `amount` at `now` goes through: the
    /// update is defined and the new balance fits its field.
    pub open spec fn stake_defined(self, amount: u64, now: u64) -> bool {
        &&& self.pool.update_defined(Some(self.user), self.staking_vault.amount, now)
        &&& self.user.balance_staked + amount <= u64::MAX
    }

    /// Whether `stake` of `amount` at `now` goes through.
    pub open spec fn stake_succeeds(self, amount: u64, now: u64) -> bool {
        amount != 0 && self.stake_defined(amount, now)
    }

    /// Whether `unstake` of `amount` at `now` goes through.
    pub open spec fn unstake_succeeds(self, amount: u64, now: u64) -> bool {
        &&& amount != 0
        &&& amount <= self.user.balance_staked
        &&& self.pool.update_defined(Some(self.user), self.staking_vault.amount, now)
    }

    /// The context that `stake` leaves: changed only if it goes through.
    pub open spec fn after_stake(self, amount: u64, now: u64) -> Stake {
        if self.stake_succeeds(amount, now) {
            self.staked(amount, now)
        } else {
            self
        }
    }

    /// The context that `unstake` leaves: changed only if it goes through.
    pub open spec fn after_unstake(self, amount: u64, now: u64) -> Stake {
        if self.unstake_succeeds(amount, now) {
            self.unstaked(amount, now)
        } else {
            self
        }
    }

    /// The context after a stake of `amount` at `now` that went through.
    pub open spec fn staked(self, amount: u64, now: u64) -> Stake {
        let pool = self.pool.advanced(self.staking_vault.amount, now);
        Stake {
            pool,
            user: User {
                balance_staked: (self.user.balance_staked + amount) as u64,
                ..pool.settled(self.user)
            },
            ..self
        }
    }

    /// The context after an unstake of `amount` at `now` that went through.
    pub open spec fn unstaked(self, amount: u64, now: u64) -> Stake {
        let pool = self.pool.advanced(self.staking_vault.amount, now);
        Stake {
            pool,
            user: User {
                balance_staked: (self.user.balance_staked - amount) as u64,
                ..pool.settled(self.user)
            },
            ..self
        }
    }
}

/// Adds `amount` to the participant's stake, after advancing the pool to
/// `now` and settling the position under the stake it had until now.
///
/// Asks for a transfer of `amount` from the participant into the staking
/// vault. Fails on an amount of zero, and with `ArithmeticFault` where the
/// update or the new balance is not defined.
pub fn stake(ctx: &mut Stake, amount: u64, now: u64) -> (r: Result<Transfer, ErrorCode>)
    ensures
        *final(ctx) == old(ctx).after_stake(amount, now),
        r.is_ok() <==> old(ctx).stake_succeeds(amount, now),
        r matches Ok(t) ==> t == (Transfer {
            from: old(ctx).stake_from_account,
            to: old(ctx).staking_vault.key,
            authority: old(ctx).owner,
            amount,
        }),
        r matches Err(e) ==> e == (if amount == 0 {
            ErrorCode::AmountMustBeGreaterThanZero
        } else {
            ErrorCode::ArithmeticFault
        }),
{
    if amount == 0 {
        return Err(ErrorCode::AmountMustBeGreaterThanZero);
    }
    let total_staked: u64 = ctx.staking_vault.amount;
    let new_balance: u64 = match ctx.user.balance_staked.checked_add(amount) {
        Some(b) => b,
        None => { return Err(ErrorCode::ArithmeticFault); },
    };
    match ctx.pool.update_rewards(Some(&mut ctx.user), total_staked, now) {
        Ok(()) => {},
        Err(e) => { return Err(e); },
    }
    ctx.user.balance_staked = new_balance;
    Ok(
        Transfer {
            from: ctx.stake_from_account,
            to: ctx.staking_vault.key,
            authority: ctx.owner,
            amount,
        },
    )
}

/// Takes `amount` from the participant's stake, after advancing the pool to
/// `now` and settling the position under the stake it had until now.
///
/// Asks for a transfer of `amount` from the staking vault back to the
/// participant, signed by the pool's signer. Fails on an amount of zero, on
/// an amount above the staked balance, and with `ArithmeticFault` where the
/// update is not defined.
pub fn unstake(ctx: &mut Stake, amount: u64, now: u64) -> (r: Result<Transfer, ErrorCode>)
    ensures
        *final(ctx) == old(ctx).after_unstake(amount, now),
        r.is_ok() <==> old(ctx).unstake_succeeds(amount, now),
        r matches Ok(t) ==> t == (Transfer {
            from: old(ctx).staking_vault.key,
            to: old(ctx).stake_from_account,
            authority: old(ctx).pool_signer,
            amount,
        }),
        r matches Err(e) ==> e == (if amount == 0 {
            ErrorCode::AmountMustBeGreaterThanZero
        } else if old(ctx).user.balance_staked < amount {
            ErrorCode::InsufficientFundUnstake
        } else {
            ErrorCode::ArithmeticFault
        }),
{
    if amount == 0 {
        return Err(ErrorCode::AmountMustBeGreaterThanZero);
    }
    let total_staked: u64 = ctx.staking_vault.amount;
    if ctx.user.balance_staked < amount {
        return Err(ErrorCode::InsufficientFundUnstake);
    }
    match ctx.pool.update_rewards(Some(&mut ctx.user), total_staked, now) {
        Ok(()) => {},
        Err(e) => { return Err(e); },
    }
    ctx.user.balance_staked = ctx.user.balance_staked - amount;
    Ok(
        Transfer {
            from: ctx.staking_vault.key,
            to: ctx.stake_from_account,
            authority: ctx.pool_signer,
            amount,
        },
    )
}

/// The accounts of `fund`.
#[derive(Clone, Copy, Debug, PartialEq, Eq)]
pub struct Fund {
    pub pool: Pool,
    /// The vault of staked tokens; its balance is the total staked.
    pub staking_vault: TokenAccount,
    /// The vault that the deposit goes to.
    pub reward_vault: TokenAccount,
    /// Who funds; must be the pool's authority.
    pub funder: Address,
    /// The funder's token account.
    pub from: Address,
}

impl Fund {
    /// Whether `fund` by the pool's authority goes through: the pool can be
    /// advanced, the new rate is defined, and the new window's end fits its
    /// field.
    pub open spec fn fund_defined(self, amount: u64, now: u64) -> bool {
        &&& self.pool.update_defined(None, self.staking_vault.amount, now)
        &&& self.pool.rate_after_funding_defined(amount, now)
        &&& now + self.pool.reward_duration <= u64::MAX
    }

    /// Whether `fund` of `amount` at `now` goes through.
    pub open spec fn fund_succeeds(self, amount: u64, now: u64) -> bool {
        self.funder@ == self.pool.authority@ && self.fund_defined(amount, now)
    }

    /// The context that `fund` leaves: changed only if it goes through.
    pub open spec fn after_fund(self, amount: u64, now: u64) -> Fund {
        if self.fund_succeeds(amount, now) {
            self.funded(amount, now)
        } else {
            self
        }
    }

    /// The context after a funding of `amount` at `now` that went through: the
    /// pool is advanced, gets the new rate, and starts a full window at `now`.
    pub open spec fn funded(self, amount: u64, now: u64) -> Fund {
        Fund {
            pool: Pool {
                reward_rate: self.pool.rate_after_funding(amount, now) as u64,
                last_update_time: now,
                reward_duration_end: (now + self.pool.reward_duration) as u64,
                ..self.pool.advanced(self.staking_vault.amount, now)
            },
            ..self
        }
    }
}

/// Funds the pool with `amount` at `now`: advances the pool, spreads the
/// deposit and what the running window had left over a new full window, and
/// starts that window at `now`.
///
/// Asks for a transfer of `amount` from the funder into the reward vault,
/// unless the amount is zero. Fails with `UnauthorizedFunder` when the funder
/// is not the pool's authority, and with `ArithmeticFault` where the funding
/// is not defined.
pub fn fund(ctx: &mut Fund, amount: u64, now: u64) -> (r: Result<Option<Transfer>, ErrorCode>)
    ensures
        *final(ctx) == old(ctx).after_fund(amount, now),
        r.is_ok() <==> old(ctx).fund_succeeds(amount, now),
        r matches Ok(t) ==> t == (if amount > 0 {
            Some(
                Transfer {
                    from: old(ctx).from,
                    to: old(ctx).reward_vault.key,
                    authority: old(ctx).funder,
                    amount,
                },
            )
        } else {
            None
        }),
        r matches Err(e) ==> e == (if old(ctx).funder@ != old(ctx).pool.authority@ {
            ErrorCode::UnauthorizedFunder
        } else {
            ErrorCode::ArithmeticFault
        }),
{
    if !ctx.funder.same(&ctx.pool.authority) {
        return Err(ErrorCode::UnauthorizedFunder);
    }
    let total_staked: u64 = ctx.staking_vault.amount;
    let reward_rate: u64 = match ctx.pool.calc_rate_after_funding(amount, now) {
        Some(rate) => rate,
        None => { return Err(ErrorCode::ArithmeticFault); },
    };
    let reward_duration_end: u64 = match now.checked_add(ctx.pool.reward_duration) {
        Some(end) => end,
        None => { return Err(ErrorCode::ArithmeticFault); },
    };
    match ctx.pool.update_rewards(None, total_staked, now) {
        Ok(()) => {},
        Err(e) => { return Err(e); },
    }
    ctx.pool.reward_rate = reward_rate;
    ctx.pool.last_update_time = now;
    ctx.pool.reward_duration_end = reward_duration_end;
    if amount > 0 {
        Ok(
            Some(
                Transfer {
                    from: ctx.from,
                    to: ctx.reward_vault.key,
                    authority: ctx.funder,
                    amount,
                },
            ),
        )
    } else {
        Ok(None)
    }
}

/// The accounts of `claim_reward`.
#[derive(Clone, Copy, Debug, PartialEq, Eq)]
pub struct ClaimReward {
    pub pool: Pool,
    /// The vault of staked tokens; its balance is the total staked.
    pub staking_vault: TokenAccount,
    /// The vault that pays; its balance caps the payout.
    pub reward_vault: TokenAccount,
    pub user: User,
    pub owner: Address,
    /// The participant's token account for rewards.
    pub to_reward_account: Address,
    /// The address that owns the vaults.
    pub pool_signer: Address,
}

impl ClaimReward {
    /// What a claim at `now` pays: the settled pending reward, or the reward
    /// vault's balance if that is less.
    pub open spec fn payout(self, now: u64) -> int {
        let pending = self.pool.advanced(self.staking_vault.amount, now).earned(self.user);
        if self.reward_vault.amount < pending {
            self.reward_vault.amount as int
        } else {
            pending
        }
    }

    /// Whether `claim_reward` at `now` goes through.
    pub open spec fn claim_succeeds(self, now: u64) -> bool {
        self.pool.update_defined(Some(self.user), self.staking_vault.amount, now)
    }

    /// The context that `claim_reward` leaves: changed only if it goes through.
    pub open spec fn after_claim(self, now: u64) -> ClaimReward {
        if self.claim_succeeds(now) {
            self.claimed(now)
        } else {
            self
        }
    }

    /// The context after a claim at `now` that went through: the pool is
    /// advanced, the position settled, and its pending reward is zero.
    pub open spec fn claimed(self, now: u64) -> ClaimReward {
        let pool = self.pool.advanced(self.staking_vault.amount, now);
        ClaimReward {
            pool,
            user: User { reward_per_token_pending: 0, ..pool.settled(self.user) },
            ..self
        }
    }
}

/// Pays the participant's reward at `now`: advances the pool, settles the
/// position, and sets its pending reward to zero.
///
/// Asks for a transfer of the pending reward, or of the reward vault's
/// balance if that is less, from the reward vault to the participant, signed
/// by the pool's signer; for no transfer if that amount is zero. What the
/// vault could not cover is not kept. Fails with `ArithmeticFault` where the
/// update is not defined.
pub fn claim_reward(ctx: &mut ClaimReward, now: u64) -> (r: Result<Option<Transfer>, ErrorCode>)
    ensures
        *final(ctx) == old(ctx).after_claim(now),
        r.is_ok() <==> old(ctx).claim_succeeds(now),
        r.is_ok() ==> final(ctx).user.reward_per_token_pending == 0,
        r matches Ok(t) ==> t == (if old(ctx).payout(now) > 0 {
            Some(
                Transfer {
                    from: old(ctx).reward_vault.key,
                    to: old(ctx).to_reward_account,
                    authority: old(ctx).pool_signer,
                    amount: old(ctx).payout(now) as u64,
                },
            )
        } else {
            None
        }),
        r matches Err(e) ==> e == ErrorCode::ArithmeticFault,
{
    let total_staked: u64 = ctx.staking_vault.amount;
    match ctx.pool.update_rewards(Some(&mut ctx.user), total_staked, now) {
        Ok(()) => {},
        Err(e) => { return Err(e); },
    }
    if ctx.user.reward_per_token_pending > 0 {
        let mut reward_amount: u64 = ctx.user.reward_per_token_pending;
        let vault_balance: u64 = ctx.reward_vault.amount;
        ctx.user.reward_per_token_pending = 0;
        if vault_balance < reward_amount {
            reward_amount = vault_balance;
        }
        if reward_amount > 0 {
            return Ok(
                Some(
                    Transfer {
                        from: ctx.reward_vault.key,
                        to: ctx.to_reward_account,
                        authority: ctx.pool_signer,
                        amount: reward_amount,
                    },
                ),
            );
        }
    }
    Ok(None)
}

/// The accounts of `initialize_pool`.
#[derive(Clone, Copy, Debug, PartialEq, Eq)]
pub struct InitializePool {
    /// Who creates the pool and may fund it.
    pub authority: Address,
    pub staking_mint: Address,
    pub staking_vault: Address,
    pub reward_mint: Address,
    pub reward_vault: Address,
    /// The pool's account, to be filled.
    pub pool: Pool,
}

/// Sets up the pool with its accounts, its signer's seed byte and the length
/// of its funding windows. The pool starts with rate zero and a window that
/// ended at time zero: nothing accrues until it is funded.
pub fn initialize_pool(ctx: &mut InitializePool, pool_nonce: u8, reward_duration: u64)
    ensures
        *final(ctx) == (InitializePool {
            pool: Pool {
                authority: old(ctx).authority,
                nonce: pool_nonce,
                staking_mint: old(ctx).staking_mint,
                staking_vault: old(ctx).staking_vault,
                reward_mint: old(ctx).reward_mint,
                reward_vault: old(ctx).reward_vault,
                reward_duration,
                reward_duration_end: 0,
                last_update_time: 0,
                reward_rate: 0,
                reward_per_token_stored: 0,
                user_stake_count: 0,
            },
            ..*old(ctx)
        }),
        final(ctx).pool.wf(),
{
    ctx.pool.authority = ctx.authority;
    ctx.pool.nonce = pool_nonce;
    ctx.pool.staking_mint = ctx.staking_mint;
    ctx.pool.staking_vault = ctx.staking_vault;
    ctx.pool.reward_mint = ctx.reward_mint;
    ctx.pool.reward_vault = ctx.reward_vault;
    ctx.pool.reward_duration = reward_duration;
    ctx.pool.reward_duration_end = 0;
    ctx.pool.last_update_time = 0;
    ctx.pool.reward_rate = 0;
    ctx.pool.reward_per_token_stored = 0;
    ctx.pool.user_stake_count = 0;
}

/// The accounts of `create_user`.
#[derive(Clone, Copy, Debug, PartialEq, Eq)]
pub struct CreateUser {
    pub pool: Pool,
    /// The address of the pool's account.
    pub pool_key: Address,
    /// The position's account, to be filled.
    pub user: User,
    pub owner: Address,
}

/// Opens the owner's position in the pool, with nothing staked and nothing
/// earned, and counts it in the pool.
///
/// Fails with `ArithmeticFault` when the pool's count of positions is at its
/// maximum.
pub fn create_user(ctx: &mut CreateUser, nonce: u8) -> (r: Result<(), ErrorCode>)
    ensures
        old(ctx).pool.user_stake_count == u32::MAX ==> r == Err::<(), ErrorCode>(
            ErrorCode::ArithmeticFault,
        ) && *final(ctx) == *old(ctx),
        old(ctx).pool.user_stake_count < u32::MAX ==> r == Ok::<(), ErrorCode>(()) && *final(ctx)
            == (CreateUser {
            pool: Pool {
                user_stake_count: (old(ctx).pool.user_stake_count + 1) as u32,
                ..old(ctx).pool
            },
            user: User {
                pool: old(ctx).pool_key,
                owner: old(ctx).owner,
                reward_per_token_complete: 0,
                reward_per_token_pending: 0,
                balance_staked: 0,
                nonce,
            },
            ..*old(ctx)
        }),
{
    let count: u32 = match ctx.pool.user_stake_count.checked_add(1) {
        Some(c) => c,
        None => { return Err(ErrorCode::ArithmeticFault); },
    };
    ctx.user.pool = ctx.pool_key;
    ctx.user.owner = ctx.owner;
    ctx.user.reward_per_token_complete = 0;
    ctx.user.reward_per_token_pending = 0;
    ctx.user.balance_staked = 0;
    ctx.user.nonce = nonce;
    ctx.pool.user_stake_count = count;
    Ok(())
}

} // verus!
