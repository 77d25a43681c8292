use crate::context::{ConfidentialTransfer, Transfer};
use crate::error::{Error, ErrorCode};
use crate::identity::Identity;
use spl_token_2022::extension::confidential_transfer::{
    ConfidentialTransferAccount, ConfidentialTransferMint,
};
use spl_token_2022::extension::{BaseStateWithExtensions, StateWithExtensions};
use vstd::prelude::*;

verus! {

/// Published when a confidential transfer went through.
#[derive(Clone, Copy, Debug, PartialEq, Eq)]
pub struct ConfidentialTransferEvent {
    pub sender: Identity,
    pub recipient: Identity,
    pub mint: Identity,
}

/// The amount that stands in for the encrypted one, as long as the amount
/// is not derived from it.
pub const PLACEHOLDER_AMOUNT: u64 = 1;

/// What the token program makes of `data` read as a token account with the
/// confidential-transfer extension: nothing where the account unpacks and
/// carries the extension, else the number of the program error.
pub uninterp spec fn confidential_account_fault(data: Seq<u8>) -> Option<u64>;

/// What the token program makes of `data` read as a mint with the
/// confidential-transfer extension: nothing where the mint unpacks and
/// carries the extension, else the number of the program error.
pub uninterp spec fn confidential_mint_fault(data: Seq<u8>) -> Option<u64>;

/// Calls `StateWithExtensions::<Account>::unpack` of spl-token-2022 on the
/// bytes and `get_extension::<ConfidentialTransferAccount>` on what it
/// gives. Trusted: that the outcome depends on the bytes alone, and that
/// neither call panics on any input. An error comes back as the number that
/// solana-program's `u64::from` gives it.
#[verifier::external_body]
fn check_confidential_account(data: &[u8]) -> (fault: Option<u64>)
    ensures
        fault == confidential_account_fault(data@),
{
    StateWithExtensions::<spl_token_2022::state::Account>::unpack(data)
        .and_then(|state| state.get_extension::<ConfidentialTransferAccount>().map(|_| ()))
        .err()
        .map(u64::from)
}

/// Calls `StateWithExtensions::<Mint>::unpack` of spl-token-2022 on the
/// bytes and `get_extension::<ConfidentialTransferMint>` on what it gives.
/// Trusted: that the outcome depends on the bytes alone, and that neither
/// call panics on any input. An error comes back as the number that
/// solana-program's `u64::from` gives it.
#[verifier::external_body]
fn check_confidential_mint(data: &[u8]) -> (fault: Option<u64>)
    ensures
        fault == confidential_mint_fault(data@),
{
    StateWithExtensions::<spl_token_2022::state::Mint>::unpack(data)
        .and_then(|state| state.get_extension::<ConfidentialTransferMint>().map(|_| ()))
        .err()
        .map(u64::from)
}

/// The transfer that stands in for the confidential one: the placeholder
/// amount out of the sender's token account into the recipient's, signed
/// for by the sender's token account.
pub open spec fn placeholder_transfer(ctx: ConfidentialTransfer) -> Transfer {
    Transfer {
        from: ctx.sender_token_account.key,
        to: ctx.recipient_token_account.key,
        authority: ctx.sender_token_account.key,
        amount: PLACEHOLDER_AMOUNT,
    }
}

/// The rule of the checks before a confidential transfer. The three
/// accounts are looked at in the order sender, recipient, mint; the first
/// fault refuses the transfer and is handed on as it is. Without a fault
/// the placeholder transfer is ordered.
pub open spec fn transfer_plan(
    ctx: ConfidentialTransfer,
    sender_fault: Option<u64>,
    recipient_fault: Option<u64>,
    mint_fault: Option<u64>,
) -> Result<Transfer, Error> {
    match (sender_fault, recipient_fault, mint_fault) {
        (Some(code), _, _) => Err(Error::Program(code)),
        (None, Some(code), _) => Err(Error::Program(code)),
        (None, None, Some(code)) => Err(Error::Program(code)),
        (None, None, None) => Ok(placeholder_transfer(ctx)),
    }
}

/// Decides from the outcome of the three account checks whether the
/// transfer may be made, and orders it.
pub fn plan_confidential_transfer(
    ctx: &ConfidentialTransfer,
    sender_fault: Option<u64>,
    recipient_fault: Option<u64>,
    mint_fault: Option<u64>,
) -> (plan: Result<Transfer, Error>)
    ensures
        plan == transfer_plan(*ctx, sender_fault, recipient_fault, mint_fault),
{
    if let Some(code) = sender_fault {
        return Err(Error::Program(code));
    }
    if let Some(code) = recipient_fault {
        return Err(Error::Program(code));
    }
    if let Some(code) = mint_fault {
        return Err(Error::Program(code));
    }
    Ok(
        Transfer {
            from: ctx.sender_token_account.key,
            to: ctx.recipient_token_account.key,
            authority: ctx.sender_token_account.key,
            amount: PLACEHOLDER_AMOUNT,
        },
    )
}

/// Checks that both token accounts and the mint support confidential
/// transfers, and orders the transfer. The encrypted amount is carried but
/// not read: no proof over it is checked and no encrypted balance is kept.
/// The result is the one that `transfer_plan` gives for what the token
/// program makes of the three accounts' bytes.
pub fn confidential_transfer(ctx: &ConfidentialTransfer, encrypted_amount: [u8; 32]) -> (plan:
    Result<Transfer, Error>)
    ensures
        plan == transfer_plan(
            *ctx,
            confidential_account_fault(ctx.sender_token_account.data@),
            confidential_account_fault(ctx.recipient_token_account.data@),
            confidential_mint_fault(ctx.mint.data@),
        ),
{
    let sender_fault = check_confidential_account(ctx.sender_token_account.data.as_slice());
    let recipient_fault = check_confidential_account(ctx.recipient_token_account.data.as_slice());
    let mint_fault = check_confidential_mint(ctx.mint.data.as_slice());
    plan_confidential_transfer(ctx, sender_fault, recipient_fault, mint_fault)
}

/// Closes a confidential transfer once the token transfer service has
/// answered. A transfer that failed, for whatever reason, is reported as
/// `ConfidentialTransferFailed`; one that went through gives the event.
pub fn conclude_confidential_transfer(ctx: &ConfidentialTransfer, transfer_succeeded: bool) -> (done:
    Result<ConfidentialTransferEvent, ErrorCode>)
    ensures
        done == if transfer_succeeded {
            Ok::<ConfidentialTransferEvent, ErrorCode>(
                ConfidentialTransferEvent {
                    sender: ctx.sender,
                    recipient: ctx.recipient_token_account.key,
                    mint: ctx.mint.key,
                },
            )
        } else {
            Err::<ConfidentialTransferEvent, ErrorCode>(ErrorCode::ConfidentialTransferFailed)
        },
{
    if !transfer_succeeded {
        return Err(ErrorCode::ConfidentialTransferFailed);
    }
    Ok(
        ConfidentialTransferEvent {
            sender: ctx.sender,
            recipient: ctx.recipient_token_account.key,
            mint: ctx.mint.key,
        },
    )
}

} // verus!
