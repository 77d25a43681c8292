use coconut::context::{
    Account, StakeCocoTokens, TokenAccount, Transfer, UnstakeCocoTokens,
};
use coconut::error::ErrorCode;
use coconut::identity::Identity;
use coconut::instructions::staking::{
    stake_coco_tokens, unstake_coco_tokens, TokensStaked, TokensUnstaked,
};
use coconut::state::StakeAccount;

fn stk_id(tag: u8) -> Identity {
    Identity::new([tag; 32])
}

const STAKER: u8 = 31;
const WALLET: u8 = 32;
const VAULT: u8 = 33;

fn wallet() -> TokenAccount {
    TokenAccount { key: stk_id(WALLET), mint: stk_id(1) }
}

fn stake_ctx(record: Option<StakeAccount>) -> StakeCocoTokens {
    StakeCocoTokens {
        staker: stk_id(STAKER),
        token_account: wallet(),
        stake_account: Account { key: stk_id(VAULT), data: record },
    }
}

fn unstake_ctx(staked_amount: u64, last_update_time: i64) -> UnstakeCocoTokens {
    UnstakeCocoTokens {
        staker: stk_id(STAKER),
        token_account: wallet(),
        stake_account: Account {
            key: stk_id(VAULT),
            data: StakeAccount { owner: stk_id(STAKER), staked_amount, last_update_time },
        },
    }
}

#[test]
fn first_stake_makes_the_record_of_the_staker() {
    let mut ctx = stake_ctx(None);
    let settlement = stake_coco_tokens(&mut ctx, 100, 77).unwrap();
    assert_eq!(
        ctx.stake_account.data,
        Some(StakeAccount { owner: stk_id(STAKER), staked_amount: 100, last_update_time: 77 })
    );
    assert_eq!(
        settlement.transfers,
        vec![Transfer {
            from: stk_id(WALLET),
            to: stk_id(VAULT),
            authority: stk_id(STAKER),
            amount: 100
        }]
    );
    assert_eq!(settlement.event, TokensStaked { user: stk_id(STAKER), amount: 100 });
}

#[test]
fn later_stakes_add_to_the_record_and_keep_its_owner() {
    let owner = stk_id(55);
    let mut ctx =
        stake_ctx(Some(StakeAccount { owner, staked_amount: 5, last_update_time: 1 }));
    assert!(stake_coco_tokens(&mut ctx, 6, 9).is_ok());
    assert_eq!(
        ctx.stake_account.data,
        Some(StakeAccount { owner, staked_amount: 11, last_update_time: 9 })
    );
}

#[test]
fn stake_overflow_orders_nothing_and_makes_no_record() {
    let mut ctx = stake_ctx(Some(StakeAccount {
        owner: stk_id(STAKER),
        staked_amount: u64::MAX,
        last_update_time: 1,
    }));
    let before = ctx.clone();
    assert_eq!(stake_coco_tokens(&mut ctx, 1, 9), Err(ErrorCode::Overflow));
    assert_eq!(ctx, before);

    let mut fresh = stake_ctx(None);
    assert!(stake_coco_tokens(&mut fresh, u64::MAX, 9).is_ok());
    assert_eq!(stake_coco_tokens(&mut fresh, 1, 10), Err(ErrorCode::Overflow));
}

#[test]
fn stake_and_unstake_through_the_instructions_round_trip() {
    let mut staking = stake_ctx(None);
    assert!(stake_coco_tokens(&mut staking, 100, 42).is_ok());
    let mut ctx = UnstakeCocoTokens {
        staker: staking.staker,
        token_account: staking.token_account,
        stake_account: Account {
            key: staking.stake_account.key,
            data: staking.stake_account.data.unwrap(),
        },
    };
    let settlement = unstake_coco_tokens(&mut ctx, 100, 42).unwrap();
    assert_eq!(settlement.event, TokensUnstaked { user: stk_id(STAKER), amount: 100, rewards: 0 });
    assert_eq!(ctx.stake_account.data.staked_amount, 0);
}

#[test]
fn unstake_orders_the_principal_and_then_the_reward() {
    let mut ctx = unstake_ctx(1_000_000_000, 0);
    let settlement = unstake_coco_tokens(&mut ctx, 400_000_000, 3).unwrap();
    assert_eq!(
        settlement.transfers,
        vec![
            Transfer {
                from: stk_id(VAULT),
                to: stk_id(WALLET),
                authority: stk_id(VAULT),
                amount: 400_000_000
            },
            Transfer { from: stk_id(VAULT), to: stk_id(WALLET), authority: stk_id(VAULT), amount: 3 },
        ]
    );
    assert_eq!(
        settlement.event,
        TokensUnstaked { user: stk_id(STAKER), amount: 400_000_000, rewards: 3 }
    );
    assert_eq!(ctx, unstake_ctx(600_000_000, 3));
}

#[test]
fn unstake_refusals_order_nothing_and_change_nothing() {
    let mut ctx = unstake_ctx(10, 0);
    assert_eq!(unstake_coco_tokens(&mut ctx, 11, 5), Err(ErrorCode::InsufficientStakedAmount));
    assert_eq!(ctx, unstake_ctx(10, 0));

    let mut rich = unstake_ctx(u64::MAX, 0);
    assert_eq!(unstake_coco_tokens(&mut rich, 1, i64::MAX), Err(ErrorCode::Overflow));
    assert_eq!(rich, unstake_ctx(u64::MAX, 0));
}
