//! The pool, a participant's position, and the accrual arithmetic.
//!
//! A pool keeps one running total, the reward emitted so far per staked
//! unit, scaled by `PRECISION`. Advancing the pool integrates the current
//! rate over the time that has passed; settling a position credits it with
//! its stake times the growth of the running total since it was last settled.

use crate::laws::lemma_advance_monotonic;
use crate::wide::Wide;
use vstd::prelude::*;

verus! {

/// Scale of the running total: one staked unit's reward is stored times this.
pub const PRECISION: u128 = 18_446_744_073_709_551_615;

/// Seconds in a year of 365 days; rates are quoted per year.
pub const SECONDS_IN_YEAR: u64 = 31_536_000;

/// What an operation can fail with.
#[derive(Clone, Copy, Debug, PartialEq, Eq, Structural)]
pub enum ErrorCode {
    /// A stake or unstake of nothing.
    AmountMustBeGreaterThanZero,
    /// An unstake of more than the position holds.
    InsufficientFundUnstake,
    /// A funding by anyone but the pool's authority.
    UnauthorizedFunder,
    /// A step of the arithmetic left its range: time ran backwards, a result
    /// did not fit its field, or the funding window has no length.
    ArithmeticFault,
}

impl ErrorCode {
    /// The error in words.
    pub fn message(&self) -> (text: String)
        ensures
            text@ == (match *self {
                ErrorCode::AmountMustBeGreaterThanZero => "Amount must be greater than zero."@,
                ErrorCode::InsufficientFundUnstake => "Insufficient funds to unstake."@,
                ErrorCode::UnauthorizedFunder => "Only the pool authority may fund the pool."@,
                ErrorCode::ArithmeticFault => "Arithmetic fault in reward accounting."@,
            }),
    {
        match self {
            ErrorCode::AmountMustBeGreaterThanZero => "Amount must be greater than zero.".to_string(),
            ErrorCode::InsufficientFundUnstake => "Insufficient funds to unstake.".to_string(),
            ErrorCode::UnauthorizedFunder => "Only the pool authority may fund the pool.".to_string(),
            ErrorCode::ArithmeticFault => "Arithmetic fault in reward accounting.".to_string(),
        }
    }
}

/// The identity of an account: 32 bytes.
#[derive(Clone, Copy, Debug, PartialEq, Eq)]
pub struct Address {
    pub bytes: [u8; 32],
}

impl View for Address {
    type V = Seq<u8>;

    open spec fn view(&self) -> Seq<u8> {
        self.bytes@
    }
}

impl Default for Address {
    /// The identity of 32 zero bytes.
    fn default() -> (a: Address)
        ensures
            a.is_zero(),
    {
        let a = Address { bytes: [0u8; 32] };
        assert(a@ =~= Seq::new(32, |i: int| 0u8));
        a
    }
}

impl Address {
    /// Whether the identity is 32 zero bytes.
    pub open spec fn is_zero(self) -> bool {
        self@ == Seq::new(32, |i: int| 0u8)
    }

    /// Whether two identities are the same, byte for byte.
    pub fn same(&self, other: &Address) -> (r: bool)
        ensures
            r == (self@ == other@),
    {
        let mut i: usize = 0;
        while i < 32
            invariant
                i <= 32,
                forall|k: int| 0 <= k < i ==> self.bytes[k] == other.bytes[k],
            decreases 32 - i,
        {
            if self.bytes[i] != other.bytes[i] {
                return false;
            }
            i = i + 1;
        }
        assert(self@ =~= other@);
        true
    }
}

/// The shared state of one staking pool.
#[derive(Clone, Copy, Debug, PartialEq, Eq)]
pub struct Pool {
    /// Who may fund the pool.
    pub authority: Address,
    /// Seed byte of the address that owns both vaults.
    pub nonce: u8,
    /// The asset that is staked.
    pub staking_mint: Address,
    /// Where staked tokens are held.
    pub staking_vault: Address,
    /// The asset that is paid as reward.
    pub reward_mint: Address,
    /// Where reward tokens are held.
    pub reward_vault: Address,
    /// Length in seconds of every funding window.
    pub reward_duration: u64,
    /// When the current window ends.
    pub reward_duration_end: u64,
    /// The time up to which the running total has been integrated.
    pub last_update_time: u64,
    /// Reward units emitted per staked unit per year in the current window.
    pub reward_rate: u64,
    /// The running total, scaled by `PRECISION`.
    pub reward_per_token_stored: u128,
    /// How many positions have been opened.
    pub user_stake_count: u32,
}

/// One participant's position in one pool.
#[derive(Clone, Copy, Debug, PartialEq, Eq)]
pub struct User {
    /// The pool that the position belongs to.
    pub pool: Address,
    /// The participant.
    pub owner: Address,
    /// The pool's running total when the position was last settled.
    pub reward_per_token_complete: u128,
    /// Reward earned and not yet claimed.
    pub reward_per_token_pending: u64,
    /// The amount staked.
    pub balance_staked: u64,
    /// Seed byte of the position's address.
    pub nonce: u8,
}

impl Default for Pool {
    /// A pool with every field zero: no accounts, no window, no rate.
    fn default() -> (p: Pool)
        ensures
            p.authority.is_zero(),
            p.staking_mint.is_zero(),
            p.staking_vault.is_zero(),
            p.reward_mint.is_zero(),
            p.reward_vault.is_zero(),
            p.nonce == 0,
            p.reward_duration == 0,
            p.reward_duration_end == 0,
            p.last_update_time == 0,
            p.reward_rate == 0,
            p.reward_per_token_stored == 0,
            p.user_stake_count == 0,
    {
        Pool {
            authority: Address::default(),
            nonce: 0,
            staking_mint: Address::default(),
            staking_vault: Address::default(),
            reward_mint: Address::default(),
            reward_vault: Address::default(),
            reward_duration: 0,
            reward_duration_end: 0,
            last_update_time: 0,
            reward_rate: 0,
            reward_per_token_stored: 0,
            user_stake_count: 0,
        }
    }
}

impl Default for User {
    /// A position with every field zero: no pool, no owner, nothing staked.
    fn default() -> (u: User)
        ensures
            u.pool.is_zero(),
            u.owner.is_zero(),
            u.reward_per_token_complete == 0,
            u.reward_per_token_pending == 0,
            u.balance_staked == 0,
            u.nonce == 0,
    {
        User {
            pool: Address::default(),
            owner: Address::default(),
            reward_per_token_complete: 0,
            reward_per_token_pending: 0,
            balance_staked: 0,
            nonce: 0,
        }
    }
}

/// The earlier of `now` and the end of the funding window.
pub open spec fn applicable_time(now: u64, reward_duration_end: u64) -> u64 {
    if now <= reward_duration_end {
        now
    } else {
        reward_duration_end
    }
}

/// Growth of the running total over `elapsed` seconds at `rate`, shared among
/// `total_staked` units: each division rounds down.
pub open spec fn accrued_per_token(elapsed: int, rate: int, total_staked: int) -> int {
    elapsed * rate * (PRECISION as int) / (SECONDS_IN_YEAR as int) / total_staked
}

impl Pool {
    /// The pool's invariant: the running total is never integrated past the
    /// end of the window.
    pub open spec fn wf(self) -> bool {
        self.last_update_time <= self.reward_duration_end
    }

    /// The running total brought forward to time `t`. With nothing staked it
    /// stays where it is.
    pub open spec fn reward_per_token_at(self, total_staked: u64, t: u64) -> int {
        if total_staked == 0 {
            self.reward_per_token_stored as int
        } else {
            self.reward_per_token_stored + accrued_per_token(
                t - self.last_update_time,
                self.reward_rate as int,
                total_staked as int,
            )
        }
    }

    /// Whether the running total can be brought forward to `t`: with a stake,
    /// `t` is not before the last update and the new total fits its field.
    pub open spec fn reward_per_token_defined(self, total_staked: u64, t: u64) -> bool {
        total_staked == 0 || (self.last_update_time <= t && self.reward_per_token_at(
            total_staked,
            t,
        ) <= u128::MAX)
    }

    /// The earlier of `now` and the end of the funding window: rewards are
    /// emitted up to that time and no further.
    pub fn last_time_reward_applicable(reward_duration_end: u64, now: u64) -> (t: u64)
        ensures
            t == applicable_time(now, reward_duration_end),
    {
        if now <= reward_duration_end {
            now
        } else {
            reward_duration_end
        }
    }

    /// Brings the running total forward to `last_time_reward_applicable`
    /// without storing it. `None` exactly when that is not defined.
    pub fn calc_reward_per_token(&self, total_staked: u64, last_time_reward_applicable: u64) -> (r:
        Option<u128>)
        ensures
            r == (if self.reward_per_token_defined(total_staked, last_time_reward_applicable) {
                Some(self.reward_per_token_at(total_staked, last_time_reward_applicable) as u128)
            } else {
                None
            }),
            total_staked == 0 ==> r == Some(self.reward_per_token_stored),
    {
        if total_staked == 0 {
            return Some(self.reward_per_token_stored);
        }
        let time_period: Wide = match Wide::from_u64(last_time_reward_applicable).checked_sub(
            Wide::from_u64(self.last_update_time),
        ) {
            Some(d) => d,
            None => { return None; },
        };
        let ghost elapsed: int = last_time_reward_applicable - self.last_update_time;
        let ghost rate: int = self.reward_rate as int;
        proof {
            lemma_triple_product_fits(elapsed, rate, PRECISION as int);
        }
        let emitted: Wide = match time_period.checked_mul(Wide::from_u64(self.reward_rate)) {
            Some(p) => p,
            None => { return None; },
        };
        let scaled: Wide = match emitted.checked_mul(Wide::from_u128(PRECISION)) {
            Some(p) => p,
            None => { return None; },
        };
        let per_year: Wide = match scaled.checked_div(Wide::from_u64(SECONDS_IN_YEAR)) {
            Some(q) => q,
            None => { return None; },
        };
        let per_token: Wide = match per_year.checked_div(Wide::from_u64(total_staked)) {
            Some(q) => q,
            None => { return None; },
        };
        assert(per_token.value() == accrued_per_token(elapsed, rate, total_staked as int));
        match per_token.to_u128() {
            Some(q) => self.reward_per_token_stored.checked_add(q),
            None => None,
        }
    }

    /// What a position has earned up to the pool's running total: its pending
    /// reward, and its stake times the growth of the total since the position
    /// was last settled, scaled down by `PRECISION` and rounded down.
    pub open spec fn earned(self, user: User) -> int {
        user.balance_staked * (self.reward_per_token_stored - user.reward_per_token_complete) / (
        PRECISION as int) + user.reward_per_token_pending
    }

    /// Whether `earned` is defined: the position's snapshot is not ahead of the
    /// pool, the product fits 128 bits, and the result fits 64 bits.
    pub open spec fn earned_defined(self, user: User) -> bool {
        &&& user.reward_per_token_complete <= self.reward_per_token_stored
        &&& user.balance_staked * (self.reward_per_token_stored - user.reward_per_token_complete)
            <= u128::MAX
        &&& self.earned(user) <= u64::MAX
    }

    /// The position's reward up to the pool's running total. `None` exactly
    /// when that is not defined.
    pub fn calc_user_earned_amount(&self, user: &User) -> (r: Option<u64>)
        ensures
            r == (if self.earned_defined(*user) {
                Some(self.earned(*user) as u64)
            } else {
                None
            }),
    {
        let growth: u128 = match self.reward_per_token_stored.checked_sub(
            user.reward_per_token_complete,
        ) {
            Some(d) => d,
            None => { return None; },
        };
        let product: u128 = match (user.balance_staked as u128).checked_mul(growth) {
            Some(p) => p,
            None => { return None; },
        };
        let share: u128 = product / PRECISION;
        let total: u128 = share + user.reward_per_token_pending as u128;
        if total > u64::MAX as u128 {
            None
        } else {
            Some(total as u64)
        }
    }

    /// How many funding windows make a year, rounded down.
    pub open spec fn annual_multiplier(self) -> int {
        (SECONDS_IN_YEAR as int) / (self.reward_duration as int)
    }

    /// The reward that the current window would still emit after `now`,
    /// rounded down.
    pub open spec fn leftover(self, now: u64) -> int {
        (self.reward_duration_end - now) * self.reward_rate / (SECONDS_IN_YEAR as int)
    }

    /// The amount that a funding of `amount` at `now` spreads over the new
    /// window: the deposit alone once the old window has ended, else the
    /// deposit and what the old window had left.
    pub open spec fn funded_amount(self, amount: u64, now: u64) -> int {
        if now >= self.reward_duration_end {
            amount as int
        } else {
            amount + self.leftover(now)
        }
    }

    /// The yearly rate after a funding of `amount` at `now`.
    pub open spec fn rate_after_funding(self, amount: u64, now: u64) -> int {
        self.funded_amount(amount, now) * self.annual_multiplier()
    }

    /// Whether the new rate is defined: the window has a length, and the
    /// funded amount and the rate each fit 64 bits.
    pub open spec fn rate_after_funding_defined(self, amount: u64, now: u64) -> bool {
        &&& self.reward_duration != 0
        &&& self.funded_amount(amount, now) <= u64::MAX
        &&& self.rate_after_funding(amount, now) <= u64::MAX
    }

    /// The yearly rate after a funding of `amount` at `now`. `None` exactly
    /// when that is not defined.
    pub fn calc_rate_after_funding(&self, amount: u64, now: u64) -> (r: Option<u64>)
        ensures
            r == (if self.rate_after_funding_defined(amount, now) {
                Some(self.rate_after_funding(amount, now) as u64)
            } else {
                None
            }),
            now < self.reward_duration_end ==> (r matches Some(rate) ==> rate >= amount
                * self.annual_multiplier()),
    {
        let reward_period_end: u64 = self.reward_duration_end;
        let annual_multiplier: u64 = match SECONDS_IN_YEAR.checked_div(self.reward_duration) {
            Some(m) => m,
            None => { return None; },
        };
        if now >= reward_period_end {
            amount.checked_mul(annual_multiplier)
        } else {
            let remaining_seconds: u64 = reward_period_end - now;
            proof {
                lemma_triple_product_fits(remaining_seconds as int, self.reward_rate as int, 1);
            }
            let owed: u128 = (remaining_seconds as u128) * (self.reward_rate as u128) / (
            SECONDS_IN_YEAR as u128);
            if owed > u64::MAX as u128 {
                return None;
            }
            let leftover: u64 = owed as u64;
            match amount.checked_add(leftover) {
                Some(sum) => {
                    assert(sum * annual_multiplier >= amount * annual_multiplier)
                        by (nonlinear_arith)
                        requires
                            sum >= amount,
                            annual_multiplier >= 0,
                    ;
                    sum.checked_mul(annual_multiplier)
                },
                None => None,
            }
        }
    }

    /// The pool after its running total has been brought forward to `now`,
    /// or to the end of the window if that came first.
    pub open spec fn advanced(self, total_staked: u64, now: u64) -> Pool {
        let t = applicable_time(now, self.reward_duration_end);
        Pool {
            reward_per_token_stored: self.reward_per_token_at(total_staked, t) as u128,
            last_update_time: t,
            ..self
        }
    }

    /// Whether the pool can be advanced to `now`.
    pub open spec fn advance_defined(self, total_staked: u64, now: u64) -> bool {
        self.reward_per_token_defined(total_staked, applicable_time(now, self.reward_duration_end))
    }

    /// A position settled against this pool: what it has earned becomes its
    /// pending reward, and its snapshot becomes the pool's running total.
    pub open spec fn settled(self, user: User) -> User {
        User {
            reward_per_token_pending: self.earned(user) as u64,
            reward_per_token_complete: self.reward_per_token_stored,
            ..user
        }
    }

    /// Whether advancing to `now` and then settling `user`, if there is one,
    /// is defined.
    pub open spec fn update_defined(self, user: Option<User>, total_staked: u64, now: u64) -> bool {
        &&& self.advance_defined(total_staked, now)
        &&& user matches Some(u) ==> self.advanced(total_staked, now).earned_defined(u)
    }

    /// Advances the pool to `now` and settles `user` against it, if there is
    /// one. Every operation on a pool begins with this, before it changes a
    /// stake or the rate, so that the time that has passed is accounted under
    /// the stake and rate that held during it.
    ///
    /// Fails with `ArithmeticFault` exactly when the update is not defined, and
    /// then leaves the pool and the position as they were.
    pub fn update_rewards(&mut self, user: Option<&mut User>, total_staked: u64, now: u64) -> (r:
        Result<(), ErrorCode>)
        ensures
            match user {
                Some(u) => if old(self).update_defined(Some(*u), total_staked, now) {
                    &&& r == Ok::<(), ErrorCode>(())
                    &&& *final(self) == old(self).advanced(total_staked, now)
                    &&& *final(u) == old(self).advanced(total_staked, now).settled(*u)
                } else {
                    &&& r == Err::<(), ErrorCode>(ErrorCode::ArithmeticFault)
                    &&& *final(self) == *old(self)
                    &&& *final(u) == *u
                },
                None => if old(self).update_defined(None, total_staked, now) {
                    &&& r == Ok::<(), ErrorCode>(())
                    &&& *final(self) == old(self).advanced(total_staked, now)
                } else {
                    &&& r == Err::<(), ErrorCode>(ErrorCode::ArithmeticFault)
                    &&& *final(self) == *old(self)
                },
            },
            final(self).reward_per_token_stored >= old(self).reward_per_token_stored,
            total_staked == 0 ==> final(self).reward_per_token_stored == old(
                self,
            ).reward_per_token_stored,
            old(self).wf() ==> final(self).wf(),
            old(self).wf() && old(self).last_update_time <= now ==> final(self).last_update_time
                >= old(self).last_update_time,
    {
        let last_time_reward_applicable: u64 = Pool::last_time_reward_applicable(
            self.reward_duration_end,
            now,
        );
        let reward: u128 = match self.calc_reward_per_token(
            total_staked,
            last_time_reward_applicable,
        ) {
            Some(v) => v,
            None => { return Err(ErrorCode::ArithmeticFault); },
        };
        proof {
            lemma_advance_monotonic(*self, total_staked, now);
        }
        match user {
            Some(user) => {
                let mut next: Pool = *self;
                next.reward_per_token_stored = reward;
                next.last_update_time = last_time_reward_applicable;
                let earned_amount: u64 = match next.calc_user_earned_amount(user) {
                    Some(v) => v,
                    None => { return Err(ErrorCode::ArithmeticFault); },
                };
                *self = next;
                user.reward_per_token_pending = earned_amount;
                user.reward_per_token_complete = self.reward_per_token_stored;
            },
            None => {
                self.reward_per_token_stored = reward;
                self.last_update_time = last_time_reward_applicable;
            },
        }
        Ok(())
    }
}

/// Three factors below two to the power 64 have a product below two to the
/// power 192, whichever way it is bracketed.
pub proof fn lemma_triple_product_fits(a: int, b: int, c: int)
    requires
        0 <= a < 0x1_0000_0000_0000_0000,
        0 <= b < 0x1_0000_0000_0000_0000,
        0 <= c < 0x1_0000_0000_0000_0000,
    ensures
        0 <= a * b < 0x1_0000_0000_0000_0000_0000_0000_0000_0000,
        0 <= a * b * c < 0x1_0000_0000_0000_0000_0000_0000_0000_0000_0000_0000_0000_0000,
{
    assert(0 <= a * b <= 0xffff_ffff_ffff_ffff * 0xffff_ffff_ffff_ffff) by (nonlinear_arith)
        requires
            0 <= a <= 0xffff_ffff_ffff_ffff,
            0 <= b <= 0xffff_ffff_ffff_ffff,
    ;
    let ab: int = a * b;
    assert(0 <= ab * c <= 0xffff_ffff_ffff_ffff * 0xffff_ffff_ffff_ffff * 0xffff_ffff_ffff_ffff)
        by (nonlinear_arith)
        requires
            0 <= ab <= 0xffff_ffff_ffff_ffff * 0xffff_ffff_ffff_ffff,
            0 <= c <= 0xffff_ffff_ffff_ffff,
    ;
}

} // verus!
