use crate::identity::Identity;
use vstd::prelude::*;

verus! {

/// A hotel whose rooms are offered on the platform.
#[derive(Clone, Debug, PartialEq, Eq)]
pub struct Hotel {
    pub owner: Identity,
    pub name: String,
    pub room_count: u16,
    pub is_verified: bool,
}

/// What a `Hotel` record says.
pub struct HotelModel {
    pub owner: Identity,
    pub name: Seq<char>,
    pub room_count: nat,
    pub is_verified: bool,
}

impl View for Hotel {
    type V = HotelModel;

    open spec fn view(&self) -> HotelModel {
        HotelModel {
            owner: self.owner,
            name: self.name@,
            room_count: self.room_count as nat,
            is_verified: self.is_verified,
        }
    }
}

/// The one COCO/USDC pool: the two reserves that mirror the pool's custody
/// balances, the running count of liquidity shares and the two assets the
/// pool was set up for.
#[derive(Clone, Copy, Debug, PartialEq, Eq)]
pub struct LiquidityPool {
    pub total_liquidity: u64,
    pub coco_reserve: u64,
    pub usdc_reserve: u64,
    pub coco_mint: Identity,
    pub usdc_mint: Identity,
}

/// A pool over the natural numbers. The rules of the pool are stated on this
/// model; `LiquidityPool` is a model whose three amounts fit in `u64`.
pub struct PoolModel {
    pub total_liquidity: nat,
    pub coco_reserve: nat,
    pub usdc_reserve: nat,
    pub coco_mint: Identity,
    pub usdc_mint: Identity,
}

impl View for LiquidityPool {
    type V = PoolModel;

    open spec fn view(&self) -> PoolModel {
        PoolModel {
            total_liquidity: self.total_liquidity as nat,
            coco_reserve: self.coco_reserve as nat,
            usdc_reserve: self.usdc_reserve as nat,
            coco_mint: self.coco_mint,
            usdc_mint: self.usdc_mint,
        }
    }
}

impl PoolModel {
    /// Whether the three amounts fit in `u64`, as those of every
    /// `LiquidityPool` do.
    pub open spec fn fits(self) -> bool {
        &&& self.total_liquidity <= u64::MAX
        &&& self.coco_reserve <= u64::MAX
        &&& self.usdc_reserve <= u64::MAX
    }
}

impl LiquidityPool {
    /// The view loses nothing: two pools with the same model are the same
    /// pool, and every pool's model fits.
    pub proof fn lemma_view(a: LiquidityPool, b: LiquidityPool)
        ensures
            a@.fits(),
            (a@ == b@) <==> (a == b),
    {
    }
}

/// One staker's record: what is held for them and when it last changed.
#[derive(Clone, Copy, Debug, PartialEq, Eq)]
pub struct StakeAccount {
    pub owner: Identity,
    pub staked_amount: u64,
    pub last_update_time: i64,
}

/// A stake record over the mathematical integers.
pub struct StakeModel {
    pub owner: Identity,
    pub staked_amount: nat,
    pub last_update_time: int,
}

impl View for StakeAccount {
    type V = StakeModel;

    open spec fn view(&self) -> StakeModel {
        StakeModel {
            owner: self.owner,
            staked_amount: self.staked_amount as nat,
            last_update_time: self.last_update_time as int,
        }
    }
}

impl StakeAccount {
    /// The view loses nothing: two records with the same model are the same
    /// record.
    pub proof fn lemma_view(a: StakeAccount, b: StakeAccount)
        ensures
            (a@ == b@) <==> (a == b),
    {
    }
}

/// A room put up for rent at a price.
#[derive(Clone, Copy, Debug, PartialEq, Eq)]
pub struct RentalListing {
    pub owner: Identity,
    pub room_number: u16,
    pub price: u64,
    pub is_active: bool,
}

/// The issuer's record of the COCO token: who may issue, and how much has
/// been issued.
#[derive(Clone, Copy, Debug, PartialEq, Eq)]
pub struct CocoMint {
    pub authority: Identity,
    pub total_supply: u64,
}

} // verus!
