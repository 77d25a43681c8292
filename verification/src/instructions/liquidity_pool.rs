use crate::context::{AddLiquidity, CreateLiquidityPool, Settlement, SwapTokens, Transfer};
use crate::error::ErrorCode;
use crate::identity::Identity;
use crate::pool::SwapSide;
use crate::state::{LiquidityPool, PoolModel};
use vstd::prelude::*;

verus! {

/// Published when a pool was created.
#[derive(Clone, Copy, Debug, PartialEq, Eq)]
pub struct LiquidityPoolCreated {
    pub pool: Identity,
    pub creator: Identity,
    pub initial_liquidity: u64,
}

/// Published when liquidity was added to a pool.
#[derive(Clone, Copy, Debug, PartialEq, Eq)]
pub struct LiquidityAdded {
    pub pool: Identity,
    pub user: Identity,
    pub coco_amount: u64,
    pub usdc_amount: u64,
}

/// Published when a swap went through.
#[derive(Clone, Copy, Debug, PartialEq, Eq)]
pub struct TokensSwapped {
    pub pool: Identity,
    pub user: Identity,
    pub amount_in: u64,
    pub amount_out: u64,
}

/// Sets the pool record up for the two assets of the context: empty
/// reserves and `initial_liquidity` shares. No token moves. There is no
/// input on which this is refused.
pub fn create_liquidity_pool(ctx: &mut CreateLiquidityPool, initial_liquidity: u64) -> (event:
    LiquidityPoolCreated)
    ensures
        final(ctx).liquidity_pool.data == (LiquidityPool {
            total_liquidity: initial_liquidity,
            coco_reserve: 0,
            usdc_reserve: 0,
            coco_mint: old(ctx).coco_mint,
            usdc_mint: old(ctx).usdc_mint,
        }),
        final(ctx).liquidity_pool.key == old(ctx).liquidity_pool.key,
        final(ctx).creator == old(ctx).creator,
        final(ctx).coco_mint == old(ctx).coco_mint,
        final(ctx).usdc_mint == old(ctx).usdc_mint,
        event == (LiquidityPoolCreated {
            pool: old(ctx).liquidity_pool.key,
            creator: old(ctx).creator,
            initial_liquidity,
        }),
{
    ctx.liquidity_pool.data = LiquidityPool::new(initial_liquidity, ctx.coco_mint, ctx.usdc_mint);
    LiquidityPoolCreated {
        pool: ctx.liquidity_pool.key,
        creator: ctx.creator,
        initial_liquidity,
    }
}

/// The two transfers of a deposit, COCO first: out of the user's token
/// accounts into the pool, signed for by the user.
pub open spec fn deposit_transfers(ctx: AddLiquidity, coco_amount: u64, usdc_amount: u64) -> Seq<
    Transfer,
> {
    seq![
        Transfer {
            from: ctx.coco_token_account.key,
            to: ctx.liquidity_pool.key,
            authority: ctx.user,
            amount: coco_amount,
        },
        Transfer {
            from: ctx.usdc_token_account.key,
            to: ctx.liquidity_pool.key,
            authority: ctx.user,
            amount: usdc_amount,
        },
    ]
}

/// Deposits `coco_amount` and `usdc_amount` into the pool. On success the
/// pool record follows `PoolModel::add_liquidity`, and the settlement
/// orders the two transfers and carries the event. With `Overflow` nothing
/// changes and no transfer is ordered. Nothing but the pool record is ever
/// changed.
pub fn add_liquidity(ctx: &mut AddLiquidity, coco_amount: u64, usdc_amount: u64) -> (done: Result<
    Settlement<LiquidityAdded>,
    ErrorCode,
>)
    ensures
        final(ctx).liquidity_pool.key == old(ctx).liquidity_pool.key,
        final(ctx).user == old(ctx).user,
        final(ctx).coco_token_account == old(ctx).coco_token_account,
        final(ctx).usdc_token_account == old(ctx).usdc_token_account,
        done matches Ok(settlement) ==> {
            &&& old(ctx).liquidity_pool.data@.add_liquidity(coco_amount as nat, usdc_amount as nat)
                == Ok::<PoolModel, ErrorCode>(final(ctx).liquidity_pool.data@)
            &&& settlement.transfers@ == deposit_transfers(*old(ctx), coco_amount, usdc_amount)
            &&& settlement.event == (LiquidityAdded {
                pool: old(ctx).liquidity_pool.key,
                user: old(ctx).user,
                coco_amount,
                usdc_amount,
            })
        },
        done matches Err(e) ==> {
            &&& old(ctx).liquidity_pool.data@.add_liquidity(coco_amount as nat, usdc_amount as nat)
                == Err::<PoolModel, ErrorCode>(e)
            &&& *final(ctx) == *old(ctx)
        },
{
    match ctx.liquidity_pool.data.add_liquidity(coco_amount, usdc_amount) {
        Ok(_) => {},
        Err(e) => {
            return Err(e);
        },
    }
    let coco = Transfer {
        from: ctx.coco_token_account.key,
        to: ctx.liquidity_pool.key,
        authority: ctx.user,
        amount: coco_amount,
    };
    let usdc = Transfer {
        from: ctx.usdc_token_account.key,
        to: ctx.liquidity_pool.key,
        authority: ctx.user,
        amount: usdc_amount,
    };
    let mut transfers: Vec<Transfer> = Vec::new();
    transfers.push(coco);
    transfers.push(usdc);
    Ok(
        Settlement {
            transfers,
            event: LiquidityAdded {
                pool: ctx.liquidity_pool.key,
                user: ctx.user,
                coco_amount,
                usdc_amount,
            },
        },
    )
}

/// The two transfers of a swap, in their order: the amount sold, out of the
/// user's token account into the pool and signed for by the user; then the
/// payout, out of the pool into the user's other token account and signed
/// for by the pool.
pub open spec fn swap_transfers(ctx: SwapTokens, amount_in: u64, amount_out: u64) -> Seq<Transfer> {
    seq![
        Transfer {
            from: ctx.token_account_in.key,
            to: ctx.liquidity_pool.key,
            authority: ctx.user,
            amount: amount_in,
        },
        Transfer {
            from: ctx.liquidity_pool.key,
            to: ctx.token_account_out.key,
            authority: ctx.liquidity_pool.key,
            amount: amount_out,
        },
    ]
}

/// Sells `amount_in` of the asset of `token_account_in` to the pool. The
/// side is the one that `PoolModel::side_of` gives for that asset; the pool
/// record and the payout follow `PoolModel::swap`. On success the
/// settlement orders the two transfers and carries the event. On every
/// refusal nothing changes and no transfer is ordered. Nothing but the pool
/// record is ever changed.
pub fn swap_tokens(ctx: &mut SwapTokens, amount_in: u64, min_amount_out: u64) -> (done: Result<
    Settlement<TokensSwapped>,
    ErrorCode,
>)
    ensures
        final(ctx).liquidity_pool.key == old(ctx).liquidity_pool.key,
        final(ctx).user == old(ctx).user,
        final(ctx).token_account_in == old(ctx).token_account_in,
        final(ctx).token_account_out == old(ctx).token_account_out,
        done matches Ok(settlement) ==> {
            &&& old(ctx).liquidity_pool.data@.swap(
                old(ctx).liquidity_pool.data@.side_of(old(ctx).token_account_in.mint),
                amount_in as nat,
                min_amount_out as nat,
            ) == Ok::<(PoolModel, nat), ErrorCode>(
                (final(ctx).liquidity_pool.data@, settlement.event.amount_out as nat),
            )
            &&& settlement.transfers@ == swap_transfers(
                *old(ctx),
                amount_in,
                settlement.event.amount_out,
            )
            &&& settlement.event == (TokensSwapped {
                pool: old(ctx).liquidity_pool.key,
                user: old(ctx).user,
                amount_in,
                amount_out: settlement.event.amount_out,
            })
        },
        done matches Err(e) ==> {
            &&& old(ctx).liquidity_pool.data@.swap(
                old(ctx).liquidity_pool.data@.side_of(old(ctx).token_account_in.mint),
                amount_in as nat,
                min_amount_out as nat,
            ) == Err::<(PoolModel, nat), ErrorCode>(e)
            &&& *final(ctx) == *old(ctx)
        },
{
    let side: SwapSide = ctx.liquidity_pool.data.side_of(&ctx.token_account_in.mint);
    let amount_out: u64 = match ctx.liquidity_pool.data.swap(side, amount_in, min_amount_out) {
        Ok(paid) => paid,
        Err(e) => {
            return Err(e);
        },
    };
    let sold = Transfer {
        from: ctx.token_account_in.key,
        to: ctx.liquidity_pool.key,
        authority: ctx.user,
        amount: amount_in,
    };
    let bought = Transfer {
        from: ctx.liquidity_pool.key,
        to: ctx.token_account_out.key,
        authority: ctx.liquidity_pool.key,
        amount: amount_out,
    };
    let mut transfers: Vec<Transfer> = Vec::new();
    transfers.push(sold);
    transfers.push(bought);
    Ok(
        Settlement {
            transfers,
            event: TokensSwapped {
                pool: ctx.liquidity_pool.key,
                user: ctx.user,
                amount_in,
                amount_out,
            },
        },
    )
}

} // verus!
