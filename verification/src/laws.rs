//! What holds of the accounting whatever the inputs.
//!
//! The proofs here speak of the same functions as the contracts of the
//! operations: `advanced`, `settled`, and the contexts that the operations
//! leave.

use crate::instructions::{ClaimReward, Fund, Stake};
use crate::pool::{accrued_per_token, applicable_time, Pool, User, PRECISION, SECONDS_IN_YEAR};
use vstd::prelude::*;

verus! {

/// Accrual is never negative, and nothing accrues in no time.
pub proof fn lemma_accrued_nonnegative(elapsed: int, rate: int, total_staked: int)
    requires
        0 <= elapsed,
        0 <= rate,
        0 < total_staked,
    ensures
        accrued_per_token(elapsed, rate, total_staked) >= 0,
        elapsed == 0 ==> accrued_per_token(elapsed, rate, total_staked) == 0,
{
    let emitted: int = elapsed * rate;
    assert(emitted >= 0 && (elapsed == 0 ==> emitted == 0)) by (nonlinear_arith)
        requires
            emitted == elapsed * rate,
            0 <= elapsed,
            0 <= rate,
    ;
    let scaled: int = emitted * (PRECISION as int);
    let per_year: int = scaled / (SECONDS_IN_YEAR as int);
    assert(per_year >= 0 && (emitted == 0 ==> per_year == 0));
    assert(per_year / total_staked >= 0 && (per_year == 0 ==> per_year / total_staked == 0))
        by (nonlinear_arith)
        requires
            per_year >= 0,
            total_staked > 0,
    ;
}

/// With nothing staked the pool can always be advanced, and advancing it
/// leaves the running total where it was.
pub proof fn lemma_zero_stake_keeps_total(pool: Pool, now: u64)
    ensures
        pool.advance_defined(0, now),
        pool.advanced(0, now).reward_per_token_stored == pool.reward_per_token_stored,
{
}

/// Advancing a pool never lowers its running total, never moves its time
/// past `now` or past the end of the window, and, where the window's end and
/// `now` are not before the time of the last update, never moves its time
/// back.
pub proof fn lemma_advance_monotonic(pool: Pool, total_staked: u64, now: u64)
    requires
        pool.advance_defined(total_staked, now),
    ensures
        pool.advanced(total_staked, now).reward_per_token_stored >= pool.reward_per_token_stored,
        pool.advanced(total_staked, now).wf(),
        pool.advanced(total_staked, now).last_update_time <= now,
        pool.wf() && pool.last_update_time <= now ==> pool.advanced(
            total_staked,
            now,
        ).last_update_time >= pool.last_update_time,
{
    let t = applicable_time(now, pool.reward_duration_end);
    if total_staked != 0 {
        lemma_accrued_nonnegative(
            t - pool.last_update_time,
            pool.reward_rate as int,
            total_staked as int,
        );
    }
}

/// Settling a position twice against the same pool credits it once: the
/// second settlement finds nothing new and leaves the position as the first
/// left it.
pub proof fn lemma_settle_idempotent(pool: Pool, user: User)
    requires
        pool.earned_defined(user),
    ensures
        pool.earned_defined(pool.settled(user)),
        pool.settled(pool.settled(user)) == pool.settled(user),
{
    let once = pool.settled(user);
    let growth: int = pool.reward_per_token_stored - once.reward_per_token_complete;
    assert(once.balance_staked * growth == 0) by (nonlinear_arith)
        requires
            growth == 0,
    ;
}

/// An update repeated at the same time and under the same stake changes
/// nothing: the pool stays as the first update left it, and so does the
/// position.
pub proof fn lemma_update_idempotent(pool: Pool, user: User, total_staked: u64, now: u64)
    requires
        pool.update_defined(Some(user), total_staked, now),
    ensures
        ({
            let once = pool.advanced(total_staked, now);
            &&& once.update_defined(Some(once.settled(user)), total_staked, now)
            &&& once.advanced(total_staked, now) == once
            &&& once.advanced(total_staked, now).settled(once.settled(user)) == once.settled(user)
        }),
{
    let once = pool.advanced(total_staked, now);
    if total_staked != 0 {
        lemma_accrued_nonnegative(0, once.reward_rate as int, total_staked as int);
    }
    assert(once.advanced(total_staked, now) == once);
    lemma_settle_idempotent(once, user);
}

/// A funding before the window has ended never yields less than the deposit
/// alone would: what the window had left is carried into the new rate.
pub proof fn lemma_funding_rolls_leftover_over(pool: Pool, amount: u64, now: u64)
    requires
        now < pool.reward_duration_end,
        pool.reward_duration != 0,
    ensures
        pool.leftover(now) >= 0,
        pool.rate_after_funding(amount, now) >= amount * pool.annual_multiplier(),
{
    let remaining: int = pool.reward_duration_end - now;
    let rate: int = pool.reward_rate as int;
    assert(remaining * rate >= 0) by (nonlinear_arith)
        requires
            remaining >= 0,
            rate >= 0,
    ;
    let leftover: int = pool.leftover(now);
    assert(leftover >= 0);
    let multiplier: int = pool.annual_multiplier();
    assert(multiplier >= 0) by (nonlinear_arith)
        requires
            multiplier == (SECONDS_IN_YEAR as int) / (pool.reward_duration as int),
            pool.reward_duration > 0,
    ;
    assert((amount + leftover) * multiplier >= amount * multiplier) by (nonlinear_arith)
        requires
            leftover >= 0,
            multiplier >= 0,
    ;
}

/// A claim that goes through leaves no pending reward, whether or not the
/// reward vault could cover what was pending.
pub proof fn lemma_claim_zeroes_pending(ctx: ClaimReward, now: u64)
    requires
        ctx.claim_succeeds(now),
    ensures
        ctx.after_claim(now).user.reward_per_token_pending == 0,
        ctx.payout(now) <= ctx.reward_vault.amount,
        ctx.payout(now) <= ctx.pool.advanced(ctx.staking_vault.amount, now).earned(ctx.user),
{
}

/// Settlement rounds down: the reward credited for the growth of the running
/// total is the largest whole number of units within the position's exact
/// share, so a position is never credited more than its share.
pub proof fn lemma_earned_rounds_down(pool: Pool, user: User)
    requires
        user.reward_per_token_complete <= pool.reward_per_token_stored,
    ensures
        ({
            let credited = pool.earned(user) - user.reward_per_token_pending;
            let share = user.balance_staked * (pool.reward_per_token_stored
                - user.reward_per_token_complete);
            &&& credited >= 0
            &&& credited * PRECISION <= share
            &&& share < (credited + 1) * PRECISION
        }),
{
    let growth: int = pool.reward_per_token_stored - user.reward_per_token_complete;
    let share: int = user.balance_staked * growth;
    assert(share >= 0) by (nonlinear_arith)
        requires
            share == user.balance_staked * growth,
            growth >= 0,
    ;
    let credited: int = share / (PRECISION as int);
    assert(credited == pool.earned(user) - user.reward_per_token_pending);
}

/// One operation on a pool, with the accounts it is given and its amount.
pub enum Operation {
    Stake(Stake, u64),
    Unstake(Stake, u64),
    Fund(Fund, u64),
    ClaimReward(ClaimReward),
}

/// The pool that `op` at `now` leaves when it finds the pool as `pool`.
pub open spec fn pool_after(pool: Pool, op: Operation, now: u64) -> Pool {
    match op {
        Operation::Stake(ctx, amount) => (Stake { pool, ..ctx }).after_stake(amount, now).pool,
        Operation::Unstake(ctx, amount) => (Stake { pool, ..ctx }).after_unstake(
            amount,
            now,
        ).pool,
        Operation::Fund(ctx, amount) => (Fund { pool, ..ctx }).after_fund(amount, now).pool,
        Operation::ClaimReward(ctx) => (ClaimReward { pool, ..ctx }).after_claim(now).pool,
    }
}

/// The pool after a history of operations, each with its time, oldest first.
pub open spec fn pool_after_all(pool: Pool, history: Seq<(Operation, u64)>) -> Pool
    decreases history.len(),
{
    if history.len() == 0 {
        pool
    } else {
        pool_after(pool_after_all(pool, history.drop_last()), history.last().0, history.last().1)
    }
}

/// The clock of a history never goes back: no operation comes before the
/// pool's last update, nor before an earlier operation.
pub open spec fn clock_never_goes_back(pool: Pool, history: Seq<(Operation, u64)>) -> bool {
    &&& forall|i: int| 0 <= i < history.len() ==> pool.last_update_time <= (#[trigger] history[i]).1
    &&& forall|i: int, j: int|
        0 <= i <= j < history.len() ==> (#[trigger] history[i]).1 <= (#[trigger] history[j]).1
}

/// No operation lowers the pool's running total. Every operation leaves the
/// pool's time within its window and not after `now`; on a pool whose time is
/// within its window and not after `now`, none moves that time back.
pub proof fn lemma_operation_monotonic(pool: Pool, op: Operation, now: u64)
    ensures
        pool_after(pool, op, now).reward_per_token_stored >= pool.reward_per_token_stored,
        pool.wf() ==> pool_after(pool, op, now).wf(),
        pool.last_update_time <= now ==> pool_after(pool, op, now).last_update_time <= now,
        pool.wf() && pool.last_update_time <= now ==> pool_after(pool, op, now).last_update_time
            >= pool.last_update_time,
{
    match op {
        Operation::Stake(ctx, amount) => {
            let c = Stake { pool, ..ctx };
            if c.stake_succeeds(amount, now) {
                lemma_advance_monotonic(pool, c.staking_vault.amount, now);
            }
        },
        Operation::Unstake(ctx, amount) => {
            let c = Stake { pool, ..ctx };
            if c.unstake_succeeds(amount, now) {
                lemma_advance_monotonic(pool, c.staking_vault.amount, now);
            }
        },
        Operation::Fund(ctx, amount) => {
            let c = Fund { pool, ..ctx };
            if c.fund_succeeds(amount, now) {
                lemma_advance_monotonic(pool, c.staking_vault.amount, now);
            }
        },
        Operation::ClaimReward(ctx) => {
            let c = ClaimReward { pool, ..ctx };
            if c.claim_succeeds(now) {
                lemma_advance_monotonic(pool, c.staking_vault.amount, now);
            }
        },
    }
}

/// Only a funding changes the pool's schedule: every other operation leaves
/// the rate, the window's length and the window's end as they were. No
/// operation changes the pool's accounts or its count of positions.
pub proof fn lemma_only_funding_changes_schedule(pool: Pool, op: Operation, now: u64)
    ensures
        !(op is Fund) ==> {
            &&& pool_after(pool, op, now).reward_rate == pool.reward_rate
            &&& pool_after(pool, op, now).reward_duration_end == pool.reward_duration_end
        },
        pool_after(pool, op, now).reward_duration == pool.reward_duration,
        pool_after(pool, op, now).authority == pool.authority,
        pool_after(pool, op, now).nonce == pool.nonce,
        pool_after(pool, op, now).staking_mint == pool.staking_mint,
        pool_after(pool, op, now).staking_vault == pool.staking_vault,
        pool_after(pool, op, now).reward_mint == pool.reward_mint,
        pool_after(pool, op, now).reward_vault == pool.reward_vault,
        pool_after(pool, op, now).user_stake_count == pool.user_stake_count,
{
}

/// Over any history of operations whose clock never goes back, on a pool
/// whose time is within its window, the running total and the time of the
/// last update never decrease, and the time stays within the window.
pub proof fn lemma_history_monotonic(pool: Pool, history: Seq<(Operation, u64)>)
    requires
        pool.wf(),
        clock_never_goes_back(pool, history),
    ensures
        pool_after_all(pool, history).reward_per_token_stored >= pool.reward_per_token_stored,
        pool_after_all(pool, history).last_update_time >= pool.last_update_time,
        pool_after_all(pool, history).wf(),
        history.len() > 0 ==> pool_after_all(pool, history).last_update_time <= history.last().1,
    decreases history.len(),
{
    if history.len() > 0 {
        let earlier = history.drop_last();
        let (op, now) = history.last();
        assert(clock_never_goes_back(pool, earlier)) by {
            assert forall|i: int| 0 <= i < earlier.len() implies pool.last_update_time <= (
            #[trigger] earlier[i]).1 by {
                assert(earlier[i] == history[i]);
            }
            assert forall|i: int, j: int| 0 <= i <= j < earlier.len() implies (
            #[trigger] earlier[i]).1 <= (#[trigger] earlier[j]).1 by {
                assert(earlier[i] == history[i]);
                assert(earlier[j] == history[j]);
            }
        }
        lemma_history_monotonic(pool, earlier);
        let before = pool_after_all(pool, earlier);
        assert(before.last_update_time <= now) by {
            if earlier.len() > 0 {
                assert(earlier.last() == history[earlier.len() - 1]);
                assert(history.last() == history[history.len() - 1]);
            } else {
                assert(history.last() == history[0]);
            }
        }
        lemma_operation_monotonic(before, op, now);
    }
}

/// The sum of what the positions of a pool have staked.
pub open spec fn total_staked_balance(positions: Seq<User>) -> int
    decreases positions.len(),
{
    if positions.len() == 0 {
        0
    } else {
        total_staked_balance(positions.drop_last()) + positions.last().balance_staked
    }
}

/// Replacing one position changes the sum by the change of its stake.
pub proof fn lemma_total_after_change(positions: Seq<User>, i: int, user: User)
    requires
        0 <= i < positions.len(),
    ensures
        total_staked_balance(positions.update(i, user)) == total_staked_balance(positions)
            - positions[i].balance_staked + user.balance_staked,
    decreases positions.len(),
{
    let changed = positions.update(i, user);
    if i == positions.len() - 1 {
        assert(changed.drop_last() =~= positions.drop_last());
    } else {
        assert(changed.drop_last() =~= positions.drop_last().update(i, user));
        lemma_total_after_change(positions.drop_last(), i, user);
    }
}

/// No position has staked more than all of them together.
pub proof fn lemma_total_covers_each(positions: Seq<User>, i: int)
    requires
        0 <= i < positions.len(),
    ensures
        positions[i].balance_staked <= total_staked_balance(positions),
    decreases positions.len(),
{
    lemma_total_nonnegative(positions.drop_last());
    if i < positions.len() - 1 {
        lemma_total_covers_each(positions.drop_last(), i);
    }
}

/// The sum of the stakes is never negative.
pub proof fn lemma_total_nonnegative(positions: Seq<User>)
    ensures
        total_staked_balance(positions) >= 0,
    decreases positions.len(),
{
    if positions.len() > 0 {
        lemma_total_nonnegative(positions.drop_last());
    }
}

/// Staking keeps the positions covered by the staking vault: if the stakes
/// of all positions together were within the vault's balance, they are within
/// the balance that the vault has once the transfer that `stake` asks for has
/// been made.
pub proof fn lemma_stake_conserves(
    positions: Seq<User>,
    i: int,
    ctx: Stake,
    amount: u64,
    now: u64,
)
    requires
        0 <= i < positions.len(),
        positions[i] == ctx.user,
        total_staked_balance(positions) <= ctx.staking_vault.amount,
    ensures
        ({
            let moved: int = if ctx.stake_succeeds(amount, now) {
                amount as int
            } else {
                0
            };
            total_staked_balance(positions.update(i, ctx.after_stake(amount, now).user))
                <= ctx.staking_vault.amount + moved
        }),
{
    lemma_total_after_change(positions, i, ctx.after_stake(amount, now).user);
}

/// Unstaking keeps the positions covered by the staking vault: the vault
/// holds what `unstake` asks to be paid out, and the stakes of all positions
/// together are within what is left.
pub proof fn lemma_unstake_conserves(
    positions: Seq<User>,
    i: int,
    ctx: Stake,
    amount: u64,
    now: u64,
)
    requires
        0 <= i < positions.len(),
        positions[i] == ctx.user,
        total_staked_balance(positions) <= ctx.staking_vault.amount,
    ensures
        ({
            let moved: int = if ctx.unstake_succeeds(amount, now) {
                amount as int
            } else {
                0
            };
            &&& moved <= ctx.staking_vault.amount
            &&& total_staked_balance(positions.update(i, ctx.after_unstake(amount, now).user))
                <= ctx.staking_vault.amount - moved
        }),
{
    lemma_total_after_change(positions, i, ctx.after_unstake(amount, now).user);
    lemma_total_covers_each(positions, i);
}

/// Claiming changes no stake, so it keeps the positions covered by the
/// staking vault, from which it moves nothing.
pub proof fn lemma_claim_conserves(positions: Seq<User>, i: int, ctx: ClaimReward, now: u64)
    requires
        0 <= i < positions.len(),
        positions[i] == ctx.user,
        total_staked_balance(positions) <= ctx.staking_vault.amount,
    ensures
        total_staked_balance(positions.update(i, ctx.after_claim(now).user))
            <= ctx.staking_vault.amount,
{
    lemma_total_after_change(positions, i, ctx.after_claim(now).user);
}

} // verus!
