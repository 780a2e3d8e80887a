use vstd::prelude::*;

use crate::account::{
    deserialize_token_account, is_token_account, token_amount_of, token_owner_of,
    token_program_id, token_program_key, AccountRef, SignerAccount,
};
use crate::error::{AssertError, ErrorCode};

verus! {

/// The accounts that the guard declares by name: the signing user.
#[derive(Clone, Copy, Debug)]
pub struct AssertBalances {
    pub user: SignerAccount,
}

/// One invocation's accounts: the declared ones and, in order, the extra
/// accounts that pair with the expected token balances.
#[derive(Clone, Debug)]
pub struct Context {
    pub accounts: AssertBalances,
    pub remaining_accounts: Vec<AccountRef>,
}

/// What checking one token account against its floor reports, if it fails:
/// unreadable data, then the owning program, then the spending owner, then
/// the amount.
pub open spec fn account_failure(acc: AccountRef, floor: u64, user_key: Seq<u8>) -> Option<
    AssertError,
> {
    if !is_token_account(acc.data@) {
        Some(AssertError::AccountDidNotDeserialize)
    } else if acc.owner@ != token_program_key() {
        Some(AssertError::Code(ErrorCode::InvalidOwner))
    } else if token_owner_of(acc.data@) != user_key {
        Some(AssertError::Code(ErrorCode::InvalidOwner))
    } else if token_amount_of(acc.data@) < floor {
        Some(AssertError::Code(ErrorCode::InvalidTokenBalance))
    } else {
        None
    }
}

/// The verdict on the token accounts from index `i` on: the failure of the
/// first one that fails, or success.
pub open spec fn tokens_outcome_from(
    accs: Seq<AccountRef>,
    floors: Seq<u64>,
    user_key: Seq<u8>,
    i: int,
) -> Result<(), AssertError>
    decreases accs.len() - i,
{
    if i < 0 || i >= accs.len() {
        Ok(())
    } else {
        match account_failure(accs[i], floors[i], user_key) {
            Some(e) => Err(e),
            None => tokens_outcome_from(accs, floors, user_key, i + 1),
        }
    }
}

/// The result of a balance check: the two lists have one length, the native
/// balance is at least its floor, and each token account passes, in order.
pub open spec fn assert_outcome(
    user: SignerAccount,
    expected_sol_balance: u64,
    expected_token_balances: Seq<u64>,
    accs: Seq<AccountRef>,
) -> Result<(), AssertError> {
    if expected_token_balances.len() != accs.len() {
        Err(AssertError::Code(ErrorCode::InvalidBalanceLen))
    } else if user.lamports < expected_sol_balance {
        Err(AssertError::Code(ErrorCode::InvalidSolBalance))
    } else {
        tokens_outcome_from(accs, expected_token_balances, user.key@, 0)
    }
}

/// Whether two addresses are equal, byte by byte.
fn keys_equal(a: &[u8; 32], b: &[u8; 32]) -> (r: bool)
    ensures
        r == (a@ == b@),
{
    let mut i: usize = 0;
    while i < 32
        invariant
            0 <= i <= 32,
            a@.len() == 32,
            b@.len() == 32,
            forall|j: int| 0 <= j < i ==> a@[j] == b@[j],
        decreases 32 - i,
    {
        if a[i] != b[i] {
            return false;
        }
        i = i + 1;
    }
    assert(a@ =~= b@);
    true
}

/// Checks one token account against its floor, for the given token program
/// and user addresses.
fn check_token_account(acc: &AccountRef, floor: u64, token_program: &[u8; 32], user_key: &[u8; 32]) -> (r:
    Option<AssertError>)
    requires
        token_program@ == token_program_key(),
    ensures
        r == account_failure(*acc, floor, user_key@),
{
    let token = match deserialize_token_account(acc.data.as_slice()) {
        Ok(t) => t,
        Err(_) => {
            return Some(AssertError::AccountDidNotDeserialize);
        },
    };
    if !keys_equal(&acc.owner, token_program) {
        return Some(AssertError::Code(ErrorCode::InvalidOwner));
    }
    if !keys_equal(&token.owner, user_key) {
        return Some(AssertError::Code(ErrorCode::InvalidOwner));
    }
    if token.amount < floor {
        return Some(AssertError::Code(ErrorCode::InvalidTokenBalance));
    }
    None
}

/// Asserts that the user's native balance and the balances of the remaining
/// token accounts are at least the amounts given.
///
/// Each item of `expected_token_balances` pairs with the account at the same
/// index of `ctx.remaining_accounts`. Checking stops at the first failure.
pub fn assert_balances(ctx: Context, expected_sol_balance: u64, expected_token_balances: Vec<u64>) -> (r:
    Result<(), AssertError>)
    ensures
        r == assert_outcome(
            ctx.accounts.user,
            expected_sol_balance,
            expected_token_balances@,
            ctx.remaining_accounts@,
        ),
{
    let accs = &ctx.remaining_accounts;
    let user = &ctx.accounts.user;
    if expected_token_balances.len() != accs.len() {
        return Err(AssertError::Code(ErrorCode::InvalidBalanceLen));
    }
    if user.lamports < expected_sol_balance {
        return Err(AssertError::Code(ErrorCode::InvalidSolBalance));
    }
    let token_program = token_program_id();
    let ghost floors = expected_token_balances@;
    let mut i: usize = 0;
    while i < accs.len()
        invariant
            0 <= i <= accs.len(),
            *accs == ctx.remaining_accounts,
            *user == ctx.accounts.user,
            floors == expected_token_balances@,
            floors.len() == accs@.len(),
            token_program@ == token_program_key(),
            user.lamports >= expected_sol_balance,
            tokens_outcome_from(accs@, floors, user.key@, 0) == tokens_outcome_from(
                accs@,
                floors,
                user.key@,
                i as int,
            ),
        decreases accs.len() - i,
    {
        let failure = check_token_account(&accs[i], expected_token_balances[i], &token_program, &user.key);
        match failure {
            Some(e) => {
                assert(tokens_outcome_from(accs@, floors, user.key@, i as int) == Err::<(), _>(e));
                return Err(e);
            },
            None => {},
        }
        i = i + 1;
    }
    Ok(())
}

} // verus!
