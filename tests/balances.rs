use anchor_lang::solana_program::program_pack::Pack;
use anchor_spl::token::spl_token::state::{Account, AccountState};
use assert_balances::account::{AccountRef, SignerAccount, TOKEN_ACCOUNT_LEN};
use assert_balances::engine::{assert_balances, AssertBalances, Context};
use assert_balances::error::{AssertError, ErrorCode};

const TOKEN_PROGRAM: [u8; 32] = [
    6, 221, 246, 225, 215, 101, 161, 147, 217, 203, 225, 70, 206, 235, 121, 172, 28, 180, 133,
    237, 95, 91, 55, 145, 58, 140, 245, 133, 126, 255, 0, 169,
];
const USER: [u8; 32] = [7; 32];
const OTHER: [u8; 32] = [9; 32];

/// Packed token account data held by `owner` with `amount`, in `state`.
fn token_data(owner: [u8; 32], amount: u64, state: u8) -> Vec<u8> {
    let mut d = vec![0u8; TOKEN_ACCOUNT_LEN];
    d[0..32].copy_from_slice(&[3u8; 32]);
    d[32..64].copy_from_slice(&owner);
    d[64..72].copy_from_slice(&amount.to_le_bytes());
    d[108] = state;
    d
}

fn token_account(owner: [u8; 32], amount: u64) -> AccountRef {
    AccountRef { owner: TOKEN_PROGRAM, data: token_data(owner, amount, 1) }
}

fn ctx(lamports: u64, accs: Vec<AccountRef>) -> Context {
    Context {
        accounts: AssertBalances { user: SignerAccount { key: USER, lamports } },
        remaining_accounts: accs,
    }
}

fn code(c: ErrorCode) -> Result<(), AssertError> {
    Err(AssertError::Code(c))
}

#[test]
fn native_above_floor_without_tokens_passes() {
    assert_eq!(assert_balances(ctx(150, vec![]), 100, vec![]), Ok(()));
}

#[test]
fn native_below_floor_fails() {
    assert_eq!(assert_balances(ctx(50, vec![]), 100, vec![]), code(ErrorCode::InvalidSolBalance));
}

#[test]
fn native_equal_to_floor_passes() {
    assert_eq!(assert_balances(ctx(100, vec![]), 100, vec![]), Ok(()));
}

#[test]
fn more_balances_than_accounts_fails_on_length() {
    let accs = vec![token_account(USER, 50)];
    assert_eq!(assert_balances(ctx(150, accs), 100, vec![10, 20]), code(ErrorCode::InvalidBalanceLen));
}

#[test]
fn more_accounts_than_balances_fails_on_length() {
    let accs = vec![token_account(USER, 50), token_account(USER, 50)];
    assert_eq!(assert_balances(ctx(150, accs), 0, vec![10]), code(ErrorCode::InvalidBalanceLen));
}

#[test]
fn length_is_checked_before_native_balance() {
    assert_eq!(assert_balances(ctx(0, vec![]), 100, vec![1]), code(ErrorCode::InvalidBalanceLen));
}

#[test]
fn token_below_floor_fails() {
    let accs = vec![token_account(USER, 5)];
    assert_eq!(assert_balances(ctx(150, accs), 100, vec![10]), code(ErrorCode::InvalidTokenBalance));
}

#[test]
fn token_equal_to_floor_passes() {
    let accs = vec![token_account(USER, 10)];
    assert_eq!(assert_balances(ctx(150, accs), 100, vec![10]), Ok(()));
}

#[test]
fn token_amount_is_read_little_endian() {
    let accs = vec![token_account(USER, 0x0102)];
    assert_eq!(assert_balances(ctx(0, accs), 0, vec![258]), Ok(()));
    let accs = vec![token_account(USER, 0x0102)];
    assert_eq!(assert_balances(ctx(0, accs), 0, vec![259]), code(ErrorCode::InvalidTokenBalance));
}

#[test]
fn several_tokens_all_above_floor_pass() {
    let accs = vec![token_account(USER, 10), token_account(USER, 30), token_account(USER, u64::MAX)];
    assert_eq!(assert_balances(ctx(u64::MAX, accs), u64::MAX, vec![10, 20, u64::MAX]), Ok(()));
}

#[test]
fn account_of_another_program_fails_on_owner() {
    let accs = vec![AccountRef { owner: OTHER, data: token_data(USER, 50, 1) }];
    assert_eq!(assert_balances(ctx(150, accs), 100, vec![10]), code(ErrorCode::InvalidOwner));
}

#[test]
fn account_of_zero_program_fails_on_owner() {
    let accs = vec![AccountRef { owner: [0; 32], data: token_data(USER, 50, 1) }];
    assert_eq!(assert_balances(ctx(150, accs), 0, vec![0]), code(ErrorCode::InvalidOwner));
}

#[test]
fn token_held_by_someone_else_fails_on_owner() {
    let accs = vec![token_account(OTHER, 50)];
    assert_eq!(assert_balances(ctx(150, accs), 100, vec![10]), code(ErrorCode::InvalidOwner));
}

#[test]
fn owner_is_checked_before_amount() {
    let accs = vec![AccountRef { owner: OTHER, data: token_data(OTHER, 5, 1) }];
    assert_eq!(assert_balances(ctx(150, accs), 100, vec![10]), code(ErrorCode::InvalidOwner));
}

#[test]
fn frozen_token_account_is_readable() {
    let accs = vec![AccountRef { owner: TOKEN_PROGRAM, data: token_data(USER, 50, 2) }];
    assert_eq!(assert_balances(ctx(150, accs), 100, vec![10]), Ok(()));
}

#[test]
fn uninitialized_token_account_does_not_deserialize() {
    let accs = vec![AccountRef { owner: TOKEN_PROGRAM, data: token_data(USER, 50, 0) }];
    assert_eq!(
        assert_balances(ctx(150, accs), 100, vec![10]),
        Err(AssertError::AccountDidNotDeserialize)
    );
}

#[test]
fn short_data_does_not_deserialize() {
    let mut data = token_data(USER, 50, 1);
    data.pop();
    let accs = vec![AccountRef { owner: TOKEN_PROGRAM, data }];
    assert_eq!(
        assert_balances(ctx(150, accs), 100, vec![10]),
        Err(AssertError::AccountDidNotDeserialize)
    );
}

#[test]
fn bad_option_tag_does_not_deserialize() {
    let mut data = token_data(USER, 50, 1);
    data[72] = 2;
    let accs = vec![AccountRef { owner: TOKEN_PROGRAM, data }];
    assert_eq!(
        assert_balances(ctx(150, accs), 100, vec![10]),
        Err(AssertError::AccountDidNotDeserialize)
    );
}

#[test]
fn first_failing_account_is_reported() {
    let accs = vec![
        token_account(USER, 50),
        token_account(OTHER, 50),
        token_account(USER, 1),
    ];
    assert_eq!(assert_balances(ctx(150, accs), 100, vec![10, 10, 10]), code(ErrorCode::InvalidOwner));
    let accs = vec![
        token_account(USER, 50),
        token_account(USER, 1),
        token_account(OTHER, 50),
    ];
    assert_eq!(
        assert_balances(ctx(150, accs), 100, vec![10, 10, 10]),
        code(ErrorCode::InvalidTokenBalance)
    );
}

#[test]
fn accounts_after_a_failure_are_not_read() {
    let accs = vec![token_account(USER, 1), AccountRef { owner: TOKEN_PROGRAM, data: vec![1, 2, 3] }];
    assert_eq!(
        assert_balances(ctx(150, accs), 100, vec![10, 10]),
        code(ErrorCode::InvalidTokenBalance)
    );
}

#[test]
fn same_inputs_give_the_same_verdict() {
    let make = || ctx(150, vec![token_account(USER, 5), token_account(USER, 50)]);
    let first = assert_balances(make(), 100, vec![10, 10]);
    let second = assert_balances(make(), 100, vec![10, 10]);
    assert_eq!(first, second);
    assert_eq!(first, code(ErrorCode::InvalidTokenBalance));
    let first = assert_balances(ctx(150, vec![]), 100, vec![]);
    let second = assert_balances(ctx(150, vec![]), 100, vec![]);
    assert_eq!(first, second);
}

#[test]
fn data_packed_by_the_token_program_types_is_read() {
    let account = Account {
        owner: USER.into(),
        amount: 77,
        state: AccountState::Initialized,
        ..Default::default()
    };
    let mut data = vec![0u8; TOKEN_ACCOUNT_LEN];
    Account::pack(account, &mut data).unwrap();
    let accs = vec![AccountRef { owner: anchor_spl::token::ID.to_bytes(), data }];
    assert_eq!(assert_balances(ctx(0, accs.clone()), 0, vec![77]), Ok(()));
    assert_eq!(assert_balances(ctx(0, accs), 0, vec![78]), code(ErrorCode::InvalidTokenBalance));
}

#[test]
fn token_program_address_matches_the_framework() {
    assert_eq!(anchor_spl::token::ID.to_bytes(), TOKEN_PROGRAM);
}

#[test]
fn error_codes_have_messages_and_numbers() {
    assert_eq!(ErrorCode::InvalidOwner.msg(), "Owner doesn't match the SPL token program");
    assert_eq!(ErrorCode::InvalidAuthority.msg(), "Authority doesn't match the user");
    assert_eq!(
        ErrorCode::InvalidBalanceLen.msg(),
        "Accounts length must match the given instruction balance length."
    );
    assert_eq!(ErrorCode::InvalidSolBalance.msg(), "Unexpected SOL balance");
    assert_eq!(ErrorCode::InvalidTokenBalance.msg(), "Unexpected token balance");
    assert_eq!(ErrorCode::InvalidOwner.number(), 6000);
    assert_eq!(ErrorCode::InvalidTokenBalance.number(), 6004);
}
