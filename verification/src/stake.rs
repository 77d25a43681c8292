use crate::error::ErrorCode;
use crate::identity::Identity;
use crate::state::{StakeAccount, StakeModel};
use vstd::arithmetic::mul::lemma_mul_upper_bound;
use vstd::prelude::*;

verus! {

/// One token unit of reward is earned per this many staked-unit-seconds.
pub const REWARD_DIVISOR: u64 = 1_000_000_000;

/// The seconds from `last_update_time` to `current_time`, and zero where
/// the clock reads earlier than the checkpoint.
pub open spec fn elapsed(last_update_time: int, current_time: int) -> nat {
    if current_time > last_update_time {
        (current_time - last_update_time) as nat
    } else {
        0
    }
}

/// The reward that `staked_amount` has earned from `last_update_time` to
/// `current_time`: amount times seconds over `REWARD_DIVISOR`, rounded
/// down. What the rounding cuts off is not carried forward.
pub open spec fn reward_accrued(staked_amount: nat, last_update_time: int, current_time: int) -> nat {
    (staked_amount * elapsed(last_update_time, current_time)) / (REWARD_DIVISOR as nat)
}

impl StakeModel {
    /// The rule of staking: the amount is added and the checkpoint set to
    /// `current_time`; no reward is paid. Refused with `Overflow` where the
    /// sum leaves `u64`.
    pub open spec fn stake(self, amount: nat, current_time: int) -> Result<StakeModel, ErrorCode> {
        if self.staked_amount + amount > u64::MAX {
            Err(ErrorCode::Overflow)
        } else {
            Ok(
                StakeModel {
                    staked_amount: self.staked_amount + amount,
                    last_update_time: current_time,
                    ..self
                },
            )
        }
    }

    /// The rule of unstaking: the record after it and the reward paid, or
    /// the reason for which it is refused. More than is staked is refused
    /// with `InsufficientStakedAmount` before anything else is looked at; a
    /// reward that does not fit in `u64` with `Overflow`. The reward is the
    /// one that the whole stake has earned since the checkpoint, whatever
    /// part of it is taken back.
    pub open spec fn unstake(self, amount: nat, current_time: int) -> Result<
        (StakeModel, nat),
        ErrorCode,
    > {
        let reward = reward_accrued(self.staked_amount, self.last_update_time, current_time);
        if amount > self.staked_amount {
            Err(ErrorCode::InsufficientStakedAmount)
        } else if reward > u64::MAX {
            Err(ErrorCode::Overflow)
        } else {
            Ok(
                (
                    StakeModel {
                        staked_amount: (self.staked_amount - amount) as nat,
                        last_update_time: current_time,
                        ..self
                    },
                    reward,
                ),
            )
        }
    }
}

/// The reward that the record has earned up to `current_time`, or
/// `Overflow` where it does not fit in `u64`. The product is taken in
/// `u128`, where it always fits.
pub fn calculate_rewards(stake_account: &StakeAccount, current_time: i64) -> (reward: Result<
    u64,
    ErrorCode,
>)
    ensures
        reward matches Ok(amount) ==> amount == reward_accrued(
            stake_account.staked_amount as nat,
            stake_account.last_update_time as int,
            current_time as int,
        ),
        reward matches Err(e) ==> e == ErrorCode::Overflow && reward_accrued(
            stake_account.staked_amount as nat,
            stake_account.last_update_time as int,
            current_time as int,
        ) > u64::MAX,
{
    let seconds: u128 = if current_time > stake_account.last_update_time {
        (current_time as i128 - stake_account.last_update_time as i128) as u128
    } else {
        0
    };
    assert(seconds == elapsed(stake_account.last_update_time as int, current_time as int));
    proof {
        lemma_mul_upper_bound(
            stake_account.staked_amount as int,
            u64::MAX as int,
            seconds as int,
            u64::MAX as int,
        );
        assert(u64::MAX * u64::MAX <= u128::MAX) by (nonlinear_arith);
    }
    let earned: u128 = (stake_account.staked_amount as u128 * seconds) / (REWARD_DIVISOR as u128);
    if earned > u64::MAX as u128 {
        Err(ErrorCode::Overflow)
    } else {
        Ok(earned as u64)
    }
}

impl StakeAccount {
    /// The record that a staker's first stake starts from: nothing staked.
    pub fn new(owner: Identity) -> (record: StakeAccount)
        ensures
            record == (StakeAccount { owner, staked_amount: 0, last_update_time: 0 }),
    {
        StakeAccount { owner, staked_amount: 0, last_update_time: 0 }
    }

    /// Adds `amount` to the stake and sets the checkpoint to
    /// `current_time`. With `Overflow` the record is left as it was.
    pub fn stake(&mut self, amount: u64, current_time: i64) -> (done: Result<(), ErrorCode>)
        ensures
            done matches Ok(_) ==> old(self)@.stake(amount as nat, current_time as int) == Ok::<
                StakeModel,
                ErrorCode,
            >(final(self)@),
            done matches Err(e) ==> old(self)@.stake(amount as nat, current_time as int) == Err::<
                StakeModel,
                ErrorCode,
            >(e) && *final(self) == *old(self),
    {
        match self.staked_amount.checked_add(amount) {
            Some(sum) => {
                self.staked_amount = sum;
                self.last_update_time = current_time;
                Ok(())
            },
            None => Err(ErrorCode::Overflow),
        }
    }

    /// Takes `amount` out of the stake, sets the checkpoint to
    /// `current_time` and returns the reward earned up to then. On every
    /// refusal the record is left as it was.
    pub fn unstake(&mut self, amount: u64, current_time: i64) -> (paid: Result<u64, ErrorCode>)
        ensures
            paid matches Ok(reward) ==> old(self)@.unstake(amount as nat, current_time as int)
                == Ok::<(StakeModel, nat), ErrorCode>((final(self)@, reward as nat)),
            paid matches Err(e) ==> old(self)@.unstake(amount as nat, current_time as int) == Err::<
                (StakeModel, nat),
                ErrorCode,
            >(e) && *final(self) == *old(self),
    {
        if amount > self.staked_amount {
            return Err(ErrorCode::InsufficientStakedAmount);
        }
        let reward: u64 = match calculate_rewards(self, current_time) {
            Ok(earned) => earned,
            Err(e) => {
                return Err(e);
            },
        };
        let rest: u64 = match self.staked_amount.checked_sub(amount) {
            Some(rest) => rest,
            None => {
                return Err(ErrorCode::InsufficientStakedAmount);
            },
        };
        self.staked_amount = rest;
        self.last_update_time = current_time;
        Ok(reward)
    }
}

/// Staking and taking the same amount back at once earns nothing and
/// leaves the stake where it was: for every record and amount, `stake`
/// followed by `unstake` of that amount at the same clock reading pays a
/// reward of zero and restores `staked_amount`.
pub proof fn lemma_stake_unstake_round_trip(record: StakeAccount, amount: u64, current_time: i64)
    ensures
        record@.stake(amount as nat, current_time as int) matches Ok(staked) ==> staked.unstake(
            amount as nat,
            current_time as int,
        ) == Ok::<(StakeModel, nat), ErrorCode>(
            (StakeModel { last_update_time: current_time as int, ..record@ }, 0nat),
        ),
{
    if record@.stake(amount as nat, current_time as int) is Ok {
        assert(elapsed(current_time as int, current_time as int) == 0);
        assert((record.staked_amount + amount) * 0 == 0);
    }
}

/// Taking back more than is staked is refused with
/// `InsufficientStakedAmount`, at every clock reading.
pub proof fn lemma_unstake_more_than_staked(record: StakeAccount, amount: u64, current_time: i64)
    requires
        amount > record.staked_amount,
    ensures
        record@.unstake(amount as nat, current_time as int) == Err::<(StakeModel, nat), ErrorCode>(
            ErrorCode::InsufficientStakedAmount,
        ),
{
}

/// How the two operations move a record. `stake` adds exactly `amount`
/// and `unstake` removes exactly `amount`, never below zero; both leave the
/// owner alone and set the checkpoint to the clock reading, so that under a
/// clock that does not run backwards the checkpoint does not either.
pub proof fn lemma_stake_record_moves(record: StakeAccount, amount: u64, current_time: i64)
    ensures
        record@.stake(amount as nat, current_time as int) matches Ok(next) ==> {
            &&& next.staked_amount == record.staked_amount + amount
            &&& next.staked_amount <= u64::MAX
            &&& next.owner == record.owner
            &&& next.last_update_time == current_time
        },
        record@.unstake(amount as nat, current_time as int) matches Ok((next, reward)) ==> {
            &&& next.staked_amount == record.staked_amount - amount
            &&& next.staked_amount >= 0
            &&& next.owner == record.owner
            &&& next.last_update_time == current_time
            &&& reward == reward_accrued(
                record.staked_amount as nat,
                record.last_update_time as int,
                current_time as int,
            )
            &&& current_time <= record.last_update_time ==> reward == 0
        },
{
    if current_time <= record.last_update_time {
        assert(record.staked_amount * 0 == 0);
    }
}

/// Taking a stake back in two steps never earns more than taking it back
/// whole at the end. Of a stake held since `start`, a part taken back at
/// `middle` and the rest at `end` earn together at most what the whole
/// stake earns from `start` to `end`: the part stops earning, and each
/// payout is rounded down on its own.
pub proof fn lemma_split_withdrawal_earns_no_more(
    staked_amount: nat,
    part: nat,
    start: int,
    middle: int,
    end: int,
)
    requires
        part <= staked_amount,
        start <= middle <= end,
    ensures
        reward_accrued(staked_amount, start, middle) + reward_accrued(
            (staked_amount - part) as nat,
            middle,
            end,
        ) <= reward_accrued(staked_amount, start, end),
{
    let first = staked_amount * elapsed(start, middle);
    let second = (staked_amount - part) as nat * elapsed(middle, end);
    let whole = staked_amount * elapsed(start, end);
    assert(first + second <= whole) by (nonlinear_arith)
        requires
            first == staked_amount * (middle - start),
            second == (staked_amount - part) * (end - middle),
            whole == staked_amount * (end - start),
            part <= staked_amount,
            start <= middle <= end,
    ;
}

} // verus!
