use crate::context::{IssueCococTokens, MintTo};
use crate::error::ErrorCode;
use crate::identity::Identity;
use crate::state::CocoMint;
use vstd::prelude::*;

verus! {

/// Published when COCO tokens were issued.
#[derive(Clone, Copy, Debug, PartialEq, Eq)]
pub struct CocoTokensIssued {
    pub amount: u64,
    pub recipient: Identity,
}

/// What a successful issuance leaves for its host to do: the minting, and
/// the event to publish once it went through.
#[derive(Clone, Copy, Debug, PartialEq, Eq)]
pub struct Issuance {
    pub mint_to: MintTo,
    pub event: CocoTokensIssued,
}

/// Issues `amount` COCO into the token account of the context. Only the
/// authority of the issuer's record may do so: anyone else is refused with
/// `Unauthorized`. The total supply grows by `amount`; where it would leave
/// `u64` the call is refused with `Overflow`. On both refusals nothing
/// changes and no minting is ordered. Nothing but the total supply is ever
/// changed.
pub fn issue_coco_tokens(ctx: &mut IssueCococTokens, amount: u64) -> (done: Result<
    Issuance,
    ErrorCode,
>)
    ensures
        final(ctx).coco_mint.key == old(ctx).coco_mint.key,
        final(ctx).token_account == old(ctx).token_account,
        final(ctx).coco_token_mint == old(ctx).coco_token_mint,
        final(ctx).authority == old(ctx).authority,
        done matches Ok(issuance) ==> {
            &&& old(ctx).authority == old(ctx).coco_mint.data.authority
            &&& old(ctx).coco_mint.data.total_supply + amount <= u64::MAX
            &&& final(ctx).coco_mint.data == (CocoMint {
                authority: old(ctx).coco_mint.data.authority,
                total_supply: (old(ctx).coco_mint.data.total_supply + amount) as u64,
            })
            &&& issuance == (Issuance {
                mint_to: MintTo {
                    mint: old(ctx).coco_token_mint,
                    to: old(ctx).token_account.key,
                    authority: old(ctx).authority,
                    amount,
                },
                event: CocoTokensIssued { amount, recipient: old(ctx).token_account.key },
            })
        },
        done matches Err(e) ==> {
            &&& *final(ctx) == *old(ctx)
            &&& e == if old(ctx).authority != old(ctx).coco_mint.data.authority {
                ErrorCode::Unauthorized
            } else {
                ErrorCode::Overflow
            }
            &&& old(ctx).authority != old(ctx).coco_mint.data.authority || old(
                ctx,
            ).coco_mint.data.total_supply + amount > u64::MAX
        },
{
    if ctx.authority != ctx.coco_mint.data.authority {
        return Err(ErrorCode::Unauthorized);
    }
    let total_supply: u64 = match ctx.coco_mint.data.total_supply.checked_add(amount) {
        Some(sum) => sum,
        None => {
            return Err(ErrorCode::Overflow);
        },
    };
    ctx.coco_mint.data.total_supply = total_supply;
    Ok(
        Issuance {
            mint_to: MintTo {
                mint: ctx.coco_token_mint,
                to: ctx.token_account.key,
                authority: ctx.authority,
                amount,
            },
            event: CocoTokensIssued { amount, recipient: ctx.token_account.key },
        },
    )
}

} // verus!
