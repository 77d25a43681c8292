use crate::error::ErrorCode;
use crate::identity::Identity;
use crate::state::{LiquidityPool, PoolModel};
use vstd::arithmetic::div_mod::{lemma_multiply_divide_le, lemma_multiply_divide_lt};
use vstd::arithmetic::mul::{
    lemma_mul_inequality, lemma_mul_is_distributive_add_other_way, lemma_mul_strictly_positive,
    lemma_mul_upper_bound,
};
use vstd::prelude::*;

verus! {

/// Which of the two assets a swap sells to the pool.
#[derive(Clone, Copy, Debug, PartialEq, Eq, Structural)]
pub enum SwapSide {
    /// COCO goes in, USDC comes out.
    CocoForUsdc,
    /// USDC goes in, COCO comes out.
    UsdcForCoco,
}

/// What the constant-product rule pays, without a fee, for `amount_in` sold
/// into `reserve_in` against `reserve_out`: the quotient rounded down. It
/// has no meaning where `reserve_in + amount_in` is zero.
pub open spec fn swap_output(reserve_in: nat, reserve_out: nat, amount_in: nat) -> nat
    recommends
        reserve_in + amount_in > 0,
{
    (amount_in * reserve_out) / (reserve_in + amount_in)
}

/// The smaller of two amounts.
pub open spec fn smaller(a: nat, b: nat) -> nat {
    if a <= b {
        a
    } else {
        b
    }
}

impl PoolModel {
    /// The reserve that a swap on `side` pays into.
    pub open spec fn reserve_in(self, side: SwapSide) -> nat {
        match side {
            SwapSide::CocoForUsdc => self.coco_reserve,
            SwapSide::UsdcForCoco => self.usdc_reserve,
        }
    }

    /// The reserve that a swap on `side` is paid out of.
    pub open spec fn reserve_out(self, side: SwapSide) -> nat {
        match side {
            SwapSide::CocoForUsdc => self.usdc_reserve,
            SwapSide::UsdcForCoco => self.coco_reserve,
        }
    }

    /// This pool with the reserves of `side` replaced.
    pub open spec fn with_reserves(
        self,
        side: SwapSide,
        reserve_in: nat,
        reserve_out: nat,
    ) -> PoolModel {
        match side {
            SwapSide::CocoForUsdc => PoolModel {
                coco_reserve: reserve_in,
                usdc_reserve: reserve_out,
                ..self
            },
            SwapSide::UsdcForCoco => PoolModel {
                coco_reserve: reserve_out,
                usdc_reserve: reserve_in,
                ..self
            },
        }
    }

    /// The side on which a holder of `mint` sells: COCO for the pool's COCO
    /// asset, USDC for every other asset.
    pub open spec fn side_of(self, mint: Identity) -> SwapSide {
        if mint == self.coco_mint {
            SwapSide::CocoForUsdc
        } else {
            SwapSide::UsdcForCoco
        }
    }

    /// The rule of `add_liquidity`: both reserves grow by what was
    /// deposited, and the share count by the smaller deposit. The call is
    /// refused with `Overflow` as soon as one of the three sums leaves
    /// `u64`.
    pub open spec fn add_liquidity(self, coco_amount: nat, usdc_amount: nat) -> Result<
        PoolModel,
        ErrorCode,
    > {
        if self.coco_reserve + coco_amount > u64::MAX
            || self.usdc_reserve + usdc_amount > u64::MAX
            || self.total_liquidity + smaller(coco_amount, usdc_amount) > u64::MAX {
            Err(ErrorCode::Overflow)
        } else {
            Ok(
                PoolModel {
                    total_liquidity: self.total_liquidity + smaller(coco_amount, usdc_amount),
                    coco_reserve: self.coco_reserve + coco_amount,
                    usdc_reserve: self.usdc_reserve + usdc_amount,
                    ..self
                },
            )
        }
    }

    /// The rule of a swap: the pool after it and the amount paid out, or
    /// the reason for which it is refused. The tests are made in this
    /// order: a swap of nothing into an empty reserve has no price and is
    /// refused with `InsufficientLiquidity`; one that would pay less than
    /// `min_amount_out` with `SlippageExceeded`; one whose input does not
    /// fit into the reserve with `Overflow`.
    pub open spec fn swap(self, side: SwapSide, amount_in: nat, min_amount_out: nat) -> Result<
        (PoolModel, nat),
        ErrorCode,
    > {
        let reserve_in = self.reserve_in(side);
        let reserve_out = self.reserve_out(side);
        let amount_out = swap_output(reserve_in, reserve_out, amount_in);
        if reserve_in + amount_in == 0 {
            Err(ErrorCode::InsufficientLiquidity)
        } else if amount_out < min_amount_out {
            Err(ErrorCode::SlippageExceeded)
        } else if reserve_in + amount_in > u64::MAX {
            Err(ErrorCode::Overflow)
        } else {
            Ok(
                (
                    self.with_reserves(
                        side,
                        reserve_in + amount_in,
                        (reserve_out - amount_out) as nat,
                    ),
                    amount_out,
                ),
            )
        }
    }
}

/// A swap never pays out more than the reserve it draws on.
pub proof fn lemma_swap_output_at_most_reserve(reserve_in: nat, reserve_out: nat, amount_in: nat)
    requires
        reserve_in + amount_in > 0,
    ensures
        swap_output(reserve_in, reserve_out, amount_in) <= reserve_out,
{
    let d = (reserve_in + amount_in) as int;
    assert(amount_in * reserve_out <= d * reserve_out) by {
        lemma_mul_inequality(amount_in as int, d, reserve_out as int);
    }
    lemma_multiply_divide_le((amount_in * reserve_out) as int, d, reserve_out as int);
}

/// Against a reserve that is not empty, a swap pays out strictly less than
/// the reserve it draws on: that reserve is never emptied.
pub proof fn lemma_swap_output_below_reserve(reserve_in: nat, reserve_out: nat, amount_in: nat)
    requires
        reserve_in > 0,
        reserve_out > 0,
    ensures
        swap_output(reserve_in, reserve_out, amount_in) < reserve_out,
{
    let d = (reserve_in + amount_in) as int;
    assert(amount_in * reserve_out < d * reserve_out) by {
        lemma_mul_is_distributive_add_other_way(
            reserve_out as int,
            reserve_in as int,
            amount_in as int,
        );
        lemma_mul_strictly_positive(reserve_in as int, reserve_out as int);
    }
    lemma_multiply_divide_lt((amount_in * reserve_out) as int, d, reserve_out as int);
}

/// The product of two `u64` amounts fits in `u128`.
proof fn lemma_product_fits(a: u64, b: u64)
    ensures
        a * b <= u128::MAX,
{
    lemma_mul_upper_bound(a as int, u64::MAX as int, b as int, u64::MAX as int);
    assert(u64::MAX * u64::MAX <= u128::MAX) by (nonlinear_arith);
}

impl LiquidityPool {
    /// A new pool for the two assets: empty reserves, and the share count
    /// seeded with `initial_liquidity`. Nothing is deposited by this.
    pub fn new(initial_liquidity: u64, coco_mint: Identity, usdc_mint: Identity) -> (pool:
        LiquidityPool)
        ensures
            pool == (LiquidityPool {
                total_liquidity: initial_liquidity,
                coco_reserve: 0,
                usdc_reserve: 0,
                coco_mint,
                usdc_mint,
            }),
    {
        LiquidityPool {
            total_liquidity: initial_liquidity,
            coco_reserve: 0,
            usdc_reserve: 0,
            coco_mint,
            usdc_mint,
        }
    }

    /// The side on which a token account of asset `mint` sells to this
    /// pool.
    pub fn side_of(&self, mint: &Identity) -> (side: SwapSide)
        ensures
            side == self@.side_of(*mint),
    {
        if *mint == self.coco_mint {
            SwapSide::CocoForUsdc
        } else {
            SwapSide::UsdcForCoco
        }
    }

    /// Records a deposit of `coco_amount` and `usdc_amount`. Either all
    /// three counters are updated or, on `Overflow`, none.
    pub fn add_liquidity(&mut self, coco_amount: u64, usdc_amount: u64) -> (done: Result<
        (),
        ErrorCode,
    >)
        ensures
            done matches Ok(_) ==> old(self)@.add_liquidity(coco_amount as nat, usdc_amount as nat)
                == Ok::<PoolModel, ErrorCode>(final(self)@),
            done matches Err(e) ==> old(self)@.add_liquidity(coco_amount as nat, usdc_amount as nat)
                == Err::<PoolModel, ErrorCode>(e) && *final(self) == *old(self),
    {
        let minted = if coco_amount <= usdc_amount {
            coco_amount
        } else {
            usdc_amount
        };
        let coco_reserve = match self.coco_reserve.checked_add(coco_amount) {
            Some(sum) => sum,
            None => {
                return Err(ErrorCode::Overflow);
            },
        };
        let usdc_reserve = match self.usdc_reserve.checked_add(usdc_amount) {
            Some(sum) => sum,
            None => {
                return Err(ErrorCode::Overflow);
            },
        };
        let total_liquidity = match self.total_liquidity.checked_add(minted) {
            Some(sum) => sum,
            None => {
                return Err(ErrorCode::Overflow);
            },
        };
        self.coco_reserve = coco_reserve;
        self.usdc_reserve = usdc_reserve;
        self.total_liquidity = total_liquidity;
        Ok(())
    }

    /// Sells `amount_in` to the pool on `side` and returns what the pool
    /// pays out. The price is computed in `u128`, so no intermediate value
    /// is cut; the payout never exceeds the reserve it is taken from. On
    /// every refusal the pool is left as it was.
    pub fn swap(&mut self, side: SwapSide, amount_in: u64, min_amount_out: u64) -> (paid: Result<
        u64,
        ErrorCode,
    >)
        ensures
            paid matches Ok(amount_out) ==> old(self)@.swap(
                side,
                amount_in as nat,
                min_amount_out as nat,
            ) == Ok::<(PoolModel, nat), ErrorCode>((final(self)@, amount_out as nat)),
            paid matches Err(e) ==> old(self)@.swap(side, amount_in as nat, min_amount_out as nat)
                == Err::<(PoolModel, nat), ErrorCode>(e) && *final(self) == *old(self),
    {
        let (reserve_in, reserve_out) = match side {
            SwapSide::CocoForUsdc => (self.coco_reserve, self.usdc_reserve),
            SwapSide::UsdcForCoco => (self.usdc_reserve, self.coco_reserve),
        };
        if reserve_in == 0 && amount_in == 0 {
            return Err(ErrorCode::InsufficientLiquidity);
        }
        proof {
            lemma_product_fits(amount_in, reserve_out);
            lemma_swap_output_at_most_reserve(
                reserve_in as nat,
                reserve_out as nat,
                amount_in as nat,
            );
        }
        let product: u128 = (amount_in as u128) * (reserve_out as u128);
        let total_in: u128 = reserve_in as u128 + amount_in as u128;
        let amount_out: u64 = (product / total_in) as u64;
        assert(amount_out == swap_output(reserve_in as nat, reserve_out as nat, amount_in as nat));
        if amount_out < min_amount_out {
            return Err(ErrorCode::SlippageExceeded);
        }
        let new_reserve_in = match reserve_in.checked_add(amount_in) {
            Some(sum) => sum,
            None => {
                return Err(ErrorCode::Overflow);
            },
        };
        let new_reserve_out = match reserve_out.checked_sub(amount_out) {
            Some(rest) => rest,
            None => {
                return Err(ErrorCode::InsufficientFunds);
            },
        };
        match side {
            SwapSide::CocoForUsdc => {
                self.coco_reserve = new_reserve_in;
                self.usdc_reserve = new_reserve_out;
            },
            SwapSide::UsdcForCoco => {
                self.usdc_reserve = new_reserve_in;
                self.coco_reserve = new_reserve_out;
            },
        }
        Ok(amount_out)
    }
}

/// One call made on a pool, with its arguments.
pub enum PoolCall {
    AddLiquidity { coco_amount: u64, usdc_amount: u64 },
    Swap { side: SwapSide, amount_in: u64, min_amount_out: u64 },
}

/// What a call moved into the pool's custody, asset by asset. An amount
/// below zero was paid out of custody.
pub struct Flow {
    pub coco: int,
    pub usdc: int,
}

impl PoolModel {
    /// The pool after `call`. A call that is refused leaves the pool as it
    /// was: the ledger drops whatever a refused operation did.
    pub open spec fn step(self, call: PoolCall) -> PoolModel {
        match call {
            PoolCall::AddLiquidity { coco_amount, usdc_amount } => match self.add_liquidity(
                coco_amount as nat,
                usdc_amount as nat,
            ) {
                Ok(next) => next,
                Err(_) => self,
            },
            PoolCall::Swap { side, amount_in, min_amount_out } => match self.swap(
                side,
                amount_in as nat,
                min_amount_out as nat,
            ) {
                Ok((next, _)) => next,
                Err(_) => self,
            },
        }
    }

    /// The transfers of `call` on this pool, netted per asset: a deposit
    /// brings both amounts in; a swap brings `amount_in` in on the side
    /// sold and pays the output on the other. A refused call moves nothing.
    pub open spec fn flow(self, call: PoolCall) -> Flow {
        match call {
            PoolCall::AddLiquidity { coco_amount, usdc_amount } => match self.add_liquidity(
                coco_amount as nat,
                usdc_amount as nat,
            ) {
                Ok(_) => Flow { coco: coco_amount as int, usdc: usdc_amount as int },
                Err(_) => Flow { coco: 0, usdc: 0 },
            },
            PoolCall::Swap { side, amount_in, min_amount_out } => match self.swap(
                side,
                amount_in as nat,
                min_amount_out as nat,
            ) {
                Ok((_, amount_out)) => match side {
                    SwapSide::CocoForUsdc => Flow { coco: amount_in as int, usdc: -amount_out },
                    SwapSide::UsdcForCoco => Flow { coco: -amount_out, usdc: amount_in as int },
                },
                Err(_) => Flow { coco: 0, usdc: 0 },
            },
        }
    }

    /// The pool after the calls, made one after the other.
    pub open spec fn run(self, calls: Seq<PoolCall>) -> PoolModel
        decreases calls.len(),
    {
        if calls.len() == 0 {
            self
        } else {
            self.run(calls.drop_last()).step(calls.last())
        }
    }

    /// The sum of what the calls moved, each taken on the pool as the calls
    /// before it left it.
    pub open spec fn net_flow(self, calls: Seq<PoolCall>) -> Flow
        decreases calls.len(),
    {
        if calls.len() == 0 {
            Flow { coco: 0, usdc: 0 }
        } else {
            let before = self.net_flow(calls.drop_last());
            let last = self.run(calls.drop_last()).flow(calls.last());
            Flow { coco: before.coco + last.coco, usdc: before.usdc + last.usdc }
        }
    }
}

/// One call changes each reserve by exactly what it moved in that asset,
/// keeps the amounts within `u64`, never lowers the share count and leaves
/// the pool's two assets as they were.
pub proof fn lemma_step_conserves(pool: PoolModel, call: PoolCall)
    requires
        pool.fits(),
    ensures
        pool.step(call).fits(),
        pool.step(call).coco_reserve == pool.coco_reserve + pool.flow(call).coco,
        pool.step(call).usdc_reserve == pool.usdc_reserve + pool.flow(call).usdc,
        pool.step(call).total_liquidity >= pool.total_liquidity,
        pool.step(call).coco_mint == pool.coco_mint,
        pool.step(call).usdc_mint == pool.usdc_mint,
{
    match call {
        PoolCall::AddLiquidity { .. } => {},
        PoolCall::Swap { side, amount_in, min_amount_out } => {
            if pool.reserve_in(side) + amount_in > 0 {
                lemma_swap_output_at_most_reserve(
                    pool.reserve_in(side),
                    pool.reserve_out(side),
                    amount_in as nat,
                );
            }
        },
    }
}

/// Conservation. Whatever calls are made on a pool, in whatever order and
/// whether they go through or are refused, each reserve ends as it began
/// plus the net of all transfers into custody in that asset. The share
/// count never falls.
pub proof fn lemma_conservation(pool: LiquidityPool, calls: Seq<PoolCall>)
    ensures
        pool@.run(calls).fits(),
        pool@.run(calls).coco_reserve == pool.coco_reserve + pool@.net_flow(calls).coco,
        pool@.run(calls).usdc_reserve == pool.usdc_reserve + pool@.net_flow(calls).usdc,
        pool@.run(calls).total_liquidity >= pool.total_liquidity,
        pool@.run(calls).coco_mint == pool.coco_mint,
        pool@.run(calls).usdc_mint == pool.usdc_mint,
    decreases calls.len(),
{
    if calls.len() > 0 {
        lemma_conservation(pool, calls.drop_last());
        lemma_step_conserves(pool@.run(calls.drop_last()), calls.last());
    }
}

/// Conservation from the start: on a pool as `LiquidityPool::new` makes it,
/// each reserve is at all times the sum of the net transfers so far.
pub proof fn lemma_conservation_from_creation(
    initial_liquidity: u64,
    coco_mint: Identity,
    usdc_mint: Identity,
    calls: Seq<PoolCall>,
)
    ensures
        ({
            let pool = LiquidityPool {
                total_liquidity: initial_liquidity,
                coco_reserve: 0,
                usdc_reserve: 0,
                coco_mint,
                usdc_mint,
            };
            &&& pool@.run(calls).coco_reserve == pool@.net_flow(calls).coco
            &&& pool@.run(calls).usdc_reserve == pool@.net_flow(calls).usdc
        }),
{
    lemma_conservation(
        LiquidityPool {
            total_liquidity: initial_liquidity,
            coco_reserve: 0,
            usdc_reserve: 0,
            coco_mint,
            usdc_mint,
        },
        calls,
    );
}

/// What a swap that goes through does to the two reserves. The reserve
/// sold into grows by `amount_in`, strictly unless nothing was sold. The
/// reserve drawn on shrinks by the payout, strictly unless nothing was
/// paid, and stays at zero or above. It ends above zero exactly when both
/// reserves were above zero before: no amount, however large, empties a
/// funded pool.
pub proof fn lemma_swap_moves_reserves(
    pool: LiquidityPool,
    side: SwapSide,
    amount_in: u64,
    min_amount_out: u64,
)
    ensures
        pool@.swap(side, amount_in as nat, min_amount_out as nat) matches Ok((next, amount_out))
            ==> {
            &&& amount_out == swap_output(
                pool@.reserve_in(side),
                pool@.reserve_out(side),
                amount_in as nat,
            )
            &&& amount_out >= min_amount_out
            &&& next.reserve_in(side) == pool@.reserve_in(side) + amount_in
            &&& next.reserve_out(side) == pool@.reserve_out(side) - amount_out
            &&& next.reserve_in(side) > pool@.reserve_in(side) <==> amount_in > 0
            &&& next.reserve_out(side) < pool@.reserve_out(side) <==> amount_out > 0
            &&& next.reserve_out(side) > 0 <==> pool@.reserve_in(side) > 0 && pool@.reserve_out(
                side,
            ) > 0
            &&& next.total_liquidity == pool.total_liquidity
        },
{
    let reserve_in = pool@.reserve_in(side);
    let reserve_out = pool@.reserve_out(side);
    if reserve_in + amount_in > 0 {
        lemma_swap_output_at_most_reserve(reserve_in, reserve_out, amount_in as nat);
        if reserve_in > 0 && reserve_out > 0 {
            lemma_swap_output_below_reserve(reserve_in, reserve_out, amount_in as nat);
        }
        if reserve_in == 0 {
            lemma_swap_into_empty_reserve(reserve_out, amount_in as nat);
        }
    }
}

/// Sold into an empty reserve, any amount buys the whole of the other
/// reserve.
pub proof fn lemma_swap_into_empty_reserve(reserve_out: nat, amount_in: nat)
    requires
        amount_in > 0,
    ensures
        swap_output(0, reserve_out, amount_in) == reserve_out,
{
    vstd::arithmetic::div_mod::lemma_div_multiples_vanish(reserve_out as int, amount_in as int);
}

/// The slippage guard. Where a price exists and the caller's floor lies
/// above what the rule pays, the swap is refused with `SlippageExceeded`,
/// and the pool stays as it was.
pub proof fn lemma_slippage_guard(
    pool: LiquidityPool,
    side: SwapSide,
    amount_in: u64,
    min_amount_out: u64,
)
    requires
        pool@.reserve_in(side) + amount_in > 0,
        min_amount_out > swap_output(
            pool@.reserve_in(side),
            pool@.reserve_out(side),
            amount_in as nat,
        ),
    ensures
        pool@.swap(side, amount_in as nat, min_amount_out as nat) == Err::<
            (PoolModel, nat),
            ErrorCode,
        >(ErrorCode::SlippageExceeded),
        pool@.step(PoolCall::Swap { side, amount_in, min_amount_out }) == pool@,
{
}

/// The overflow boundary of deposits. A deposit of `u64::MAX` COCO into a
/// pool that already holds COCO is refused with `Overflow`, whatever the
/// USDC amount, and the pool stays as it was.
pub proof fn lemma_add_liquidity_overflow_boundary(pool: LiquidityPool, usdc_amount: u64)
    requires
        pool.coco_reserve > 0,
    ensures
        pool@.add_liquidity(u64::MAX as nat, usdc_amount as nat) == Err::<PoolModel, ErrorCode>(
            ErrorCode::Overflow,
        ),
        pool@.step(PoolCall::AddLiquidity { coco_amount: u64::MAX, usdc_amount }) == pool@,
{
}

} // verus!
