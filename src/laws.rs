use vstd::prelude::*;

use crate::account::{is_token_account, token_amount_of, token_owner_of, token_program_key, AccountRef, SignerAccount};
use crate::engine::{account_failure, assert_outcome, tokens_outcome_from};
use crate::error::{AssertError, ErrorCode};

verus! {

/// The token checks never report a native-balance or length failure.
proof fn lemma_tokens_outcome_kind(accs: Seq<AccountRef>, floors: Seq<u64>, user_key: Seq<u8>, i: int)
    ensures
        tokens_outcome_from(accs, floors, user_key, i) != Err::<(), AssertError>(
            AssertError::Code(ErrorCode::InvalidSolBalance),
        ),
        tokens_outcome_from(accs, floors, user_key, i) != Err::<(), AssertError>(
            AssertError::Code(ErrorCode::InvalidBalanceLen),
        ),
    decreases accs.len() - i,
{
    if 0 <= i < accs.len() && account_failure(accs[i], floors[i], user_key) is None {
        lemma_tokens_outcome_kind(accs, floors, user_key, i + 1);
    }
}

/// When the token account at `k` is the first to fail, the verdict from any
/// earlier index is its failure.
proof fn lemma_first_failure_from(
    accs: Seq<AccountRef>,
    floors: Seq<u64>,
    user_key: Seq<u8>,
    k: int,
    i: int,
)
    requires
        0 <= i <= k < accs.len(),
        account_failure(accs[k], floors[k], user_key) is Some,
        forall|j: int| 0 <= j < k ==> account_failure(#[trigger] accs[j], floors[j], user_key) is None,
    ensures
        tokens_outcome_from(accs, floors, user_key, i) == Err::<(), AssertError>(
            account_failure(accs[k], floors[k], user_key).unwrap(),
        ),
    decreases k - i,
{
    if i < k {
        assert(account_failure(accs[i], floors[i], user_key) is None);
        lemma_first_failure_from(accs, floors, user_key, k, i + 1);
    }
}

/// Whenever the number of expected token balances differs from the number of
/// supplied accounts, the verdict is a length failure, whatever they hold.
pub proof fn law_length_mismatch(
    user: SignerAccount,
    expected_sol_balance: u64,
    expected_token_balances: Seq<u64>,
    accs: Seq<AccountRef>,
)
    requires
        expected_token_balances.len() != accs.len(),
    ensures
        assert_outcome(user, expected_sol_balance, expected_token_balances, accs) == Err::<
            (),
            AssertError,
        >(AssertError::Code(ErrorCode::InvalidBalanceLen)),
{
}

/// With matching lengths, the native check fails exactly when the user's
/// balance is below the floor; a balance equal to the floor passes.
pub proof fn law_native_floor(
    user: SignerAccount,
    expected_sol_balance: u64,
    expected_token_balances: Seq<u64>,
    accs: Seq<AccountRef>,
)
    requires
        expected_token_balances.len() == accs.len(),
    ensures
        (assert_outcome(user, expected_sol_balance, expected_token_balances, accs) == Err::<
            (),
            AssertError,
        >(AssertError::Code(ErrorCode::InvalidSolBalance))) <==> user.lamports
            < expected_sol_balance,
{
    lemma_tokens_outcome_kind(accs, expected_token_balances, user.key@, 0);
}

/// A readable token account held by the token program and by the user passes
/// its own check exactly when its amount reaches the floor, equality
/// included; otherwise it reports a token-balance failure.
pub proof fn law_token_floor(acc: AccountRef, floor: u64, user_key: Seq<u8>)
    requires
        is_token_account(acc.data@),
        acc.owner@ == token_program_key(),
        token_owner_of(acc.data@) == user_key,
    ensures
        (account_failure(acc, floor, user_key) is None) <==> token_amount_of(acc.data@) >= floor,
        token_amount_of(acc.data@) < floor ==> account_failure(acc, floor, user_key) == Some(
            AssertError::Code(ErrorCode::InvalidTokenBalance),
        ),
{
}

/// Checking stops at the first failing account: its failure is the verdict,
/// and the accounts and floors after it have no bearing on the result.
pub proof fn law_fail_fast(
    user: SignerAccount,
    expected_sol_balance: u64,
    expected_token_balances: Seq<u64>,
    accs: Seq<AccountRef>,
    other_balances: Seq<u64>,
    other_accs: Seq<AccountRef>,
    k: int,
)
    requires
        expected_token_balances.len() == accs.len(),
        other_balances.len() == other_accs.len(),
        user.lamports >= expected_sol_balance,
        0 <= k < accs.len(),
        k < other_accs.len(),
        account_failure(accs[k], expected_token_balances[k], user.key@) is Some,
        forall|j: int|
            0 <= j < k ==> account_failure(
                #[trigger] accs[j],
                expected_token_balances[j],
                user.key@,
            ) is None,
        forall|j: int| 0 <= j <= k ==> other_accs[j] == accs[j] && other_balances[j] == expected_token_balances[j],
    ensures
        assert_outcome(user, expected_sol_balance, expected_token_balances, accs) == Err::<
            (),
            AssertError,
        >(account_failure(accs[k], expected_token_balances[k], user.key@).unwrap()),
        assert_outcome(user, expected_sol_balance, other_balances, other_accs) == assert_outcome(
            user,
            expected_sol_balance,
            expected_token_balances,
            accs,
        ),
{
    lemma_first_failure_from(accs, expected_token_balances, user.key@, k, 0);
    assert forall|j: int| 0 <= j < k implies account_failure(
        #[trigger] other_accs[j],
        other_balances[j],
        user.key@,
    ) is None by {
        assert(other_accs[j] == accs[j]);
    }
    assert(other_accs[k] == accs[k]);
    lemma_first_failure_from(other_accs, other_balances, user.key@, k, 0);
}

/// A readable token account whose owning program is not the token program
/// fails with an owner error, whatever its amount and spending owner; when all
/// accounts before it pass, that is the verdict.
pub proof fn law_owner_program(
    user: SignerAccount,
    expected_sol_balance: u64,
    expected_token_balances: Seq<u64>,
    accs: Seq<AccountRef>,
    k: int,
)
    requires
        expected_token_balances.len() == accs.len(),
        user.lamports >= expected_sol_balance,
        0 <= k < accs.len(),
        is_token_account(accs[k].data@),
        accs[k].owner@ != token_program_key(),
        forall|j: int|
            0 <= j < k ==> account_failure(
                #[trigger] accs[j],
                expected_token_balances[j],
                user.key@,
            ) is None,
    ensures
        account_failure(accs[k], expected_token_balances[k], user.key@) == Some(
            AssertError::Code(ErrorCode::InvalidOwner),
        ),
        assert_outcome(user, expected_sol_balance, expected_token_balances, accs) == Err::<
            (),
            AssertError,
        >(AssertError::Code(ErrorCode::InvalidOwner)),
{
    lemma_first_failure_from(accs, expected_token_balances, user.key@, k, 0);
}

/// The verdict is a function of the inputs alone: two checks of the same
/// user, floors and accounts agree.
pub proof fn law_idempotent(
    user: SignerAccount,
    expected_sol_balance: u64,
    expected_token_balances: Seq<u64>,
    accs: Seq<AccountRef>,
    first: Result<(), AssertError>,
    second: Result<(), AssertError>,
)
    requires
        first == assert_outcome(user, expected_sol_balance, expected_token_balances, accs),
        second == assert_outcome(user, expected_sol_balance, expected_token_balances, accs),
    ensures
        first == second,
{
}

} // verus!
