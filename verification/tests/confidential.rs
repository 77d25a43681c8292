use coconut::context::{ConfidentialTransfer, RawAccount, Transfer};
use coconut::error::{Error, ErrorCode};
use coconut::identity::Identity;
use coconut::instructions::confidential_transfer::{
    conclude_confidential_transfer, confidential_transfer, plan_confidential_transfer,
    ConfidentialTransferEvent, PLACEHOLDER_AMOUNT,
};
use solana_program::program_error::ProgramError;
use solana_program::program_option::COption;
use solana_program::program_pack::Pack;
use solana_program::pubkey::Pubkey;
use spl_token_2022::error::TokenError;
use spl_token_2022::extension::confidential_transfer::{
    ConfidentialTransferAccount, ConfidentialTransferMint,
};
use spl_token_2022::extension::immutable_owner::ImmutableOwner;
use spl_token_2022::extension::{BaseStateWithExtensionsMut, ExtensionType, StateWithExtensionsMut};
use spl_token_2022::state::{Account, AccountState, Mint};

const INVALID_ACCOUNT_DATA: u64 = 4 << 32;
const UNINITIALIZED_ACCOUNT: u64 = 10 << 32;

fn conf_id(tag: u8) -> Identity {
    Identity::new([tag; 32])
}

fn token_state() -> Account {
    Account {
        mint: Pubkey::new_from_array([1; 32]),
        owner: Pubkey::new_from_array([2; 32]),
        amount: 5,
        delegate: COption::None,
        state: AccountState::Initialized,
        is_native: COption::None,
        delegated_amount: 0,
        close_authority: COption::None,
    }
}

fn plain_account_bytes() -> Vec<u8> {
    let mut data = vec![0u8; Account::LEN];
    Account::pack(token_state(), &mut data).unwrap();
    data
}

fn confidential_account_bytes() -> Vec<u8> {
    let len = ExtensionType::try_calculate_account_len::<Account>(&[
        ExtensionType::ConfidentialTransferAccount,
    ])
    .unwrap();
    let mut data = vec![0u8; len];
    let mut state = StateWithExtensionsMut::<Account>::unpack_uninitialized(&mut data).unwrap();
    state.init_extension::<ConfidentialTransferAccount>(true).unwrap();
    state.base = token_state();
    state.pack_base();
    state.init_account_type().unwrap();
    data
}

fn immutable_owner_account_bytes() -> Vec<u8> {
    let len =
        ExtensionType::try_calculate_account_len::<Account>(&[ExtensionType::ImmutableOwner])
            .unwrap();
    let mut data = vec![0u8; len + 8];
    let mut state = StateWithExtensionsMut::<Account>::unpack_uninitialized(&mut data).unwrap();
    state.init_extension::<ImmutableOwner>(true).unwrap();
    state.base = token_state();
    state.pack_base();
    state.init_account_type().unwrap();
    data
}

fn confidential_mint_bytes() -> Vec<u8> {
    let len =
        ExtensionType::try_calculate_account_len::<Mint>(&[ExtensionType::ConfidentialTransferMint])
            .unwrap();
    let mut data = vec![0u8; len];
    let mut state = StateWithExtensionsMut::<Mint>::unpack_uninitialized(&mut data).unwrap();
    state.init_extension::<ConfidentialTransferMint>(true).unwrap();
    state.base = Mint {
        mint_authority: COption::None,
        supply: 9,
        decimals: 6,
        is_initialized: true,
        freeze_authority: COption::None,
    };
    state.pack_base();
    state.init_account_type().unwrap();
    data
}

fn conf_ctx(sender: Vec<u8>, recipient: Vec<u8>, mint: Vec<u8>) -> ConfidentialTransfer {
    ConfidentialTransfer {
        sender: conf_id(40),
        sender_token_account: RawAccount { key: conf_id(41), data: sender },
        recipient_token_account: RawAccount { key: conf_id(42), data: recipient },
        mint: RawAccount { key: conf_id(43), data: mint },
    }
}

fn placeholder() -> Transfer {
    Transfer { from: conf_id(41), to: conf_id(42), authority: conf_id(41), amount: 1 }
}

#[test]
fn placeholder_amount_is_one() {
    assert_eq!(PLACEHOLDER_AMOUNT, 1);
}

#[test]
fn plan_without_faults_orders_the_placeholder_transfer() {
    let ctx = conf_ctx(vec![], vec![], vec![]);
    assert_eq!(plan_confidential_transfer(&ctx, None, None, None), Ok(placeholder()));
}

#[test]
fn plan_hands_on_the_first_fault_in_account_order() {
    let ctx = conf_ctx(vec![], vec![], vec![]);
    assert_eq!(
        plan_confidential_transfer(&ctx, Some(7), Some(8), Some(9)),
        Err(Error::Program(7))
    );
    assert_eq!(plan_confidential_transfer(&ctx, None, Some(8), Some(9)), Err(Error::Program(8)));
    assert_eq!(plan_confidential_transfer(&ctx, None, None, Some(9)), Err(Error::Program(9)));
    assert_eq!(plan_confidential_transfer(&ctx, Some(7), None, None), Err(Error::Program(7)));
}

#[test]
fn accounts_with_the_extension_are_accepted() {
    let ctx = conf_ctx(
        confidential_account_bytes(),
        confidential_account_bytes(),
        confidential_mint_bytes(),
    );
    assert_eq!(confidential_transfer(&ctx, [0; 32]), Ok(placeholder()));
    assert_eq!(confidential_transfer(&ctx, [255; 32]), Ok(placeholder()));
}

#[test]
fn empty_sender_bytes_are_refused_as_invalid_account_data() {
    let ctx = conf_ctx(vec![], confidential_account_bytes(), confidential_mint_bytes());
    assert_eq!(confidential_transfer(&ctx, [0; 32]), Err(Error::Program(INVALID_ACCOUNT_DATA)));
    assert_eq!(u64::from(ProgramError::InvalidAccountData), INVALID_ACCOUNT_DATA);
}

#[test]
fn a_token_account_without_extensions_is_refused() {
    let ctx =
        conf_ctx(confidential_account_bytes(), plain_account_bytes(), confidential_mint_bytes());
    assert_eq!(confidential_transfer(&ctx, [0; 32]), Err(Error::Program(INVALID_ACCOUNT_DATA)));
}

#[test]
fn a_token_account_with_another_extension_is_refused_as_not_found() {
    let ctx = conf_ctx(
        immutable_owner_account_bytes(),
        confidential_account_bytes(),
        confidential_mint_bytes(),
    );
    let expected = u64::from(ProgramError::from(TokenError::ExtensionNotFound));
    assert_eq!(confidential_transfer(&ctx, [0; 32]), Err(Error::Program(expected)));
}

#[test]
fn an_uninitialized_sender_is_reported_before_a_bad_recipient() {
    let ctx = conf_ctx(vec![0u8; Account::LEN], vec![], confidential_mint_bytes());
    assert_eq!(confidential_transfer(&ctx, [0; 32]), Err(Error::Program(UNINITIALIZED_ACCOUNT)));
    assert_eq!(u64::from(ProgramError::UninitializedAccount), UNINITIALIZED_ACCOUNT);
}

#[test]
fn a_token_account_in_place_of_the_mint_is_refused() {
    let ctx = conf_ctx(
        confidential_account_bytes(),
        confidential_account_bytes(),
        confidential_account_bytes(),
    );
    assert_eq!(confidential_transfer(&ctx, [0; 32]), Err(Error::Program(INVALID_ACCOUNT_DATA)));
}

#[test]
fn a_mint_in_place_of_a_token_account_is_refused() {
    let ctx = conf_ctx(
        confidential_account_bytes(),
        confidential_mint_bytes(),
        confidential_mint_bytes(),
    );
    assert!(matches!(confidential_transfer(&ctx, [0; 32]), Err(Error::Program(_))));
}

#[test]
fn a_transfer_that_went_through_gives_the_event() {
    let ctx = conf_ctx(vec![], vec![], vec![]);
    assert_eq!(
        conclude_confidential_transfer(&ctx, true),
        Ok(ConfidentialTransferEvent {
            sender: conf_id(40),
            recipient: conf_id(42),
            mint: conf_id(43)
        })
    );
}

#[test]
fn a_transfer_that_failed_is_reported_as_failed() {
    let ctx = conf_ctx(vec![], vec![], vec![]);
    assert_eq!(
        conclude_confidential_transfer(&ctx, false),
        Err(ErrorCode::ConfidentialTransferFailed)
    );
}
