use crate::identity::Identity;
use crate::state::{CocoMint, Hotel, LiquidityPool, RentalListing, StakeAccount};
use vstd::prelude::*;

verus! {

/// A record of the ledger together with the address it is kept under.
#[derive(Clone, Debug, PartialEq, Eq)]
pub struct Account<T> {
    pub key: Identity,
    pub data: T,
}

/// A token account, as far as the instructions read it: its own address and
/// the asset it holds.
#[derive(Clone, Copy, Debug, PartialEq, Eq)]
pub struct TokenAccount {
    pub key: Identity,
    pub mint: Identity,
}

/// An account whose bytes are read as they lie on the ledger.
#[derive(Clone, Debug, PartialEq, Eq)]
pub struct RawAccount {
    pub key: Identity,
    pub data: Vec<u8>,
}

/// One movement of tokens that an instruction asks the token transfer
/// service for: `amount` out of the token account `from` into `to`, signed
/// for by `authority`.
#[derive(Clone, Copy, Debug, PartialEq, Eq)]
pub struct Transfer {
    pub from: Identity,
    pub to: Identity,
    pub authority: Identity,
    pub amount: u64,
}

/// The creation of `amount` new tokens of `mint` into the token account
/// `to`, signed for by `authority`.
#[derive(Clone, Copy, Debug, PartialEq, Eq)]
pub struct MintTo {
    pub mint: Identity,
    pub to: Identity,
    pub authority: Identity,
    pub amount: u64,
}

/// What a successful instruction leaves for its host to do: the transfers,
/// in the order in which they are to be made, and the event to publish once
/// all of them went through.
#[derive(Clone, Debug, PartialEq, Eq)]
pub struct Settlement<E> {
    pub transfers: Vec<Transfer>,
    pub event: E,
}

/// The accounts of `initialize_hotel`.
#[derive(Clone, Debug, PartialEq, Eq)]
pub struct InitializeHotel {
    pub hotel: Account<Hotel>,
    pub owner: Identity,
}

/// The accounts of `verify_hotel`.
#[derive(Clone, Debug, PartialEq, Eq)]
pub struct VerifyHotel {
    pub hotel: Account<Hotel>,
    pub owner: Identity,
    pub authority: Identity,
}

/// The accounts of `issue_coco_tokens`.
#[derive(Clone, Debug, PartialEq, Eq)]
pub struct IssueCococTokens {
    pub coco_mint: Account<CocoMint>,
    pub token_account: TokenAccount,
    pub coco_token_mint: Identity,
    pub authority: Identity,
}

/// The accounts of `create_liquidity_pool`: the record to fill, who creates
/// it, and the two assets the pool is to trade.
#[derive(Clone, Debug, PartialEq, Eq)]
pub struct CreateLiquidityPool {
    pub liquidity_pool: Account<LiquidityPool>,
    pub creator: Identity,
    pub coco_mint: Identity,
    pub usdc_mint: Identity,
}

/// The accounts of `add_liquidity`.
#[derive(Clone, Debug, PartialEq, Eq)]
pub struct AddLiquidity {
    pub liquidity_pool: Account<LiquidityPool>,
    pub user: Identity,
    pub coco_token_account: TokenAccount,
    pub usdc_token_account: TokenAccount,
}

/// The accounts of `swap_tokens`. The asset of `token_account_in` decides
/// which reserve is sold into.
#[derive(Clone, Debug, PartialEq, Eq)]
pub struct SwapTokens {
    pub liquidity_pool: Account<LiquidityPool>,
    pub user: Identity,
    pub token_account_in: TokenAccount,
    pub token_account_out: TokenAccount,
}

/// The accounts of `stake_coco_tokens`. The stake account's address is
/// derived from the staker, so there is one per staker; its record is absent
/// until the staker's first stake.
#[derive(Clone, Debug, PartialEq, Eq)]
pub struct StakeCocoTokens {
    pub staker: Identity,
    pub token_account: TokenAccount,
    pub stake_account: Account<Option<StakeAccount>>,
}

/// The accounts of `unstake_coco_tokens`.
#[derive(Clone, Debug, PartialEq, Eq)]
pub struct UnstakeCocoTokens {
    pub staker: Identity,
    pub token_account: TokenAccount,
    pub stake_account: Account<StakeAccount>,
}

/// The accounts of `rent_room`.
#[derive(Clone, Debug, PartialEq, Eq)]
pub struct RentRoom {
    pub hotel: Account<Hotel>,
    pub renter: Identity,
    pub renter_usdc_account: TokenAccount,
    pub hotel_owner_usdc_account: TokenAccount,
}

/// The accounts of `create_rental_listing`.
#[derive(Clone, Debug, PartialEq, Eq)]
pub struct CreateRentalListing {
    pub rental_listing: Account<RentalListing>,
    pub owner: Identity,
}

/// The accounts of `confidential_transfer`, the token accounts and the mint
/// with the bytes they hold.
#[derive(Clone, Debug, PartialEq, Eq)]
pub struct ConfidentialTransfer {
    pub sender: Identity,
    pub sender_token_account: RawAccount,
    pub recipient_token_account: RawAccount,
    pub mint: RawAccount,
}

} // verus!
