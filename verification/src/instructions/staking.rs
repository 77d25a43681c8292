use crate::context::{Settlement, StakeCocoTokens, Transfer, UnstakeCocoTokens};
use crate::error::ErrorCode;
use crate::identity::Identity;
use crate::state::{StakeAccount, StakeModel};
use vstd::prelude::*;

verus! {

/// Published when tokens were staked.
#[derive(Clone, Copy, Debug, PartialEq, Eq)]
pub struct TokensStaked {
    pub user: Identity,
    pub amount: u64,
}

/// Published when tokens were taken back, with the reward paid on top.
#[derive(Clone, Copy, Debug, PartialEq, Eq)]
pub struct TokensUnstaked {
    pub user: Identity,
    pub amount: u64,
    pub rewards: u64,
}

/// The record that a stake is added to: the one on the ledger or, where the
/// staker has none yet, a new one of theirs with nothing staked.
pub open spec fn record_or_new(record: Option<StakeAccount>, staker: Identity) -> StakeAccount {
    match record {
        Some(existing) => existing,
        None => StakeAccount { owner: staker, staked_amount: 0, last_update_time: 0 },
    }
}

/// The transfer of a stake: out of the staker's token account into the
/// stake account, signed for by the staker.
pub open spec fn stake_transfers(ctx: StakeCocoTokens, amount: u64) -> Seq<Transfer> {
    seq![
        Transfer {
            from: ctx.token_account.key,
            to: ctx.stake_account.key,
            authority: ctx.staker,
            amount,
        },
    ]
}

/// Stakes `amount` at the clock reading `current_time`. The staker's
/// record, made first where there is none, follows `StakeModel::stake`; the
/// settlement orders the one transfer and carries the event. With
/// `Overflow` nothing changes, no record is made and no transfer is
/// ordered. Nothing but the record is ever changed.
pub fn stake_coco_tokens(ctx: &mut StakeCocoTokens, amount: u64, current_time: i64) -> (done:
    Result<Settlement<TokensStaked>, ErrorCode>)
    ensures
        final(ctx).staker == old(ctx).staker,
        final(ctx).token_account == old(ctx).token_account,
        final(ctx).stake_account.key == old(ctx).stake_account.key,
        done matches Ok(settlement) ==> {
            &&& final(ctx).stake_account.data matches Some(record)
            &&& record_or_new(old(ctx).stake_account.data, old(ctx).staker)@.stake(
                amount as nat,
                current_time as int,
            ) == Ok::<StakeModel, ErrorCode>(record@)
            &&& settlement.transfers@ == stake_transfers(*old(ctx), amount)
            &&& settlement.event == (TokensStaked { user: old(ctx).staker, amount })
        },
        done matches Err(e) ==> {
            &&& record_or_new(old(ctx).stake_account.data, old(ctx).staker)@.stake(
                amount as nat,
                current_time as int,
            ) == Err::<StakeModel, ErrorCode>(e)
            &&& *final(ctx) == *old(ctx)
        },
{
    let mut record: StakeAccount = match ctx.stake_account.data {
        Some(existing) => existing,
        None => StakeAccount::new(ctx.staker),
    };
    match record.stake(amount, current_time) {
        Ok(_) => {},
        Err(e) => {
            return Err(e);
        },
    }
    ctx.stake_account.data = Some(record);
    let deposit = Transfer {
        from: ctx.token_account.key,
        to: ctx.stake_account.key,
        authority: ctx.staker,
        amount,
    };
    let mut transfers: Vec<Transfer> = Vec::new();
    transfers.push(deposit);
    Ok(Settlement { transfers, event: TokensStaked { user: ctx.staker, amount } })
}

/// The two transfers of an unstake, in their order: the amount taken back,
/// then the reward, both out of the stake account into the staker's token
/// account and signed for by the stake account.
pub open spec fn unstake_transfers(ctx: UnstakeCocoTokens, amount: u64, rewards: u64) -> Seq<
    Transfer,
> {
    seq![
        Transfer {
            from: ctx.stake_account.key,
            to: ctx.token_account.key,
            authority: ctx.stake_account.key,
            amount,
        },
        Transfer {
            from: ctx.stake_account.key,
            to: ctx.token_account.key,
            authority: ctx.stake_account.key,
            amount: rewards,
        },
    ]
}

/// Takes `amount` back at the clock reading `current_time`. The record and
/// the reward follow `StakeModel::unstake`; the settlement orders the two
/// transfers and carries the event. On every refusal nothing changes and no
/// transfer is ordered. Nothing but the record is ever changed.
pub fn unstake_coco_tokens(ctx: &mut UnstakeCocoTokens, amount: u64, current_time: i64) -> (done:
    Result<Settlement<TokensUnstaked>, ErrorCode>)
    ensures
        final(ctx).staker == old(ctx).staker,
        final(ctx).token_account == old(ctx).token_account,
        final(ctx).stake_account.key == old(ctx).stake_account.key,
        done matches Ok(settlement) ==> {
            &&& old(ctx).stake_account.data@.unstake(amount as nat, current_time as int) == Ok::<
                (StakeModel, nat),
                ErrorCode,
            >((final(ctx).stake_account.data@, settlement.event.rewards as nat))
            &&& settlement.transfers@ == unstake_transfers(
                *old(ctx),
                amount,
                settlement.event.rewards,
            )
            &&& settlement.event == (TokensUnstaked {
                user: old(ctx).staker,
                amount,
                rewards: settlement.event.rewards,
            })
        },
        done matches Err(e) ==> {
            &&& old(ctx).stake_account.data@.unstake(amount as nat, current_time as int) == Err::<
                (StakeModel, nat),
                ErrorCode,
            >(e)
            &&& *final(ctx) == *old(ctx)
        },
{
    let rewards: u64 = match ctx.stake_account.data.unstake(amount, current_time) {
        Ok(paid) => paid,
        Err(e) => {
            return Err(e);
        },
    };
    let principal = Transfer {
        from: ctx.stake_account.key,
        to: ctx.token_account.key,
        authority: ctx.stake_account.key,
        amount,
    };
    let reward = Transfer {
        from: ctx.stake_account.key,
        to: ctx.token_account.key,
        authority: ctx.stake_account.key,
        amount: rewards,
    };
    let mut transfers: Vec<Transfer> = Vec::new();
    transfers.push(principal);
    transfers.push(reward);
    Ok(Settlement { transfers, event: TokensUnstaked { user: ctx.staker, amount, rewards } })
}

} // verus!
