use vstd::prelude::*;

verus! {

/// The packed size of a token account.
pub const TOKEN_ACCOUNT_LEN: usize = 165;

/// The signing user: its address and its native-currency balance.
#[derive(Clone, Copy, Debug, PartialEq, Eq)]
pub struct SignerAccount {
    pub key: [u8; 32],
    pub lamports: u64,
}

/// An account handed to the guard beside its declared ones: the program that
/// owns it and its raw data.
#[derive(Clone, Debug)]
pub struct AccountRef {
    pub owner: [u8; 32],
    pub data: Vec<u8>,
}

/// The fields of a deserialized token account that the guard reads.
#[derive(Clone, Copy, Debug, PartialEq, Eq)]
pub struct TokenAccountView {
    /// The address entitled to spend the balance.
    pub owner: [u8; 32],
    /// The token balance.
    pub amount: u64,
}

/// The address of the SPL token program.
pub open spec fn token_program_key() -> Seq<u8> {
    seq![
        6u8, 221, 246, 225, 215, 101, 161, 147, 217, 203, 225, 70, 206, 235, 121, 172,
        28, 180, 133, 237, 95, 91, 55, 145, 58, 140, 245, 133, 126, 255, 0, 169,
    ]
}

/// The little-endian value of a byte sequence.
pub open spec fn le_value(b: Seq<u8>) -> nat
    decreases b.len(),
{
    if b.len() == 0 {
        0
    } else {
        b[0] as nat + 256 * le_value(b.drop_first())
    }
}

/// A four-byte option tag: zero for none, one for some.
pub open spec fn option_tag_ok(d: Seq<u8>, at: int) -> bool {
    d[at + 1] == 0 && d[at + 2] == 0 && d[at + 3] == 0 && (d[at] == 0 || d[at] == 1)
}

/// Whether `d` is a packed, initialized token account: the packed size, valid
/// option tags for the delegate (offset 72), the native reserve (109) and the
/// close authority (129), and a state byte (108) of initialized or frozen.
pub open spec fn is_token_account(d: Seq<u8>) -> bool {
    &&& d.len() == TOKEN_ACCOUNT_LEN
    &&& option_tag_ok(d, 72)
    &&& option_tag_ok(d, 109)
    &&& option_tag_ok(d, 129)
    &&& (d[108] == 1 || d[108] == 2)
}

/// The spending owner stored in packed token account data.
pub open spec fn token_owner_of(d: Seq<u8>) -> Seq<u8> {
    d.subrange(32, 64)
}

/// The balance stored in packed token account data.
pub open spec fn token_amount_of(d: Seq<u8>) -> nat {
    le_value(d.subrange(64, 72))
}

#[verifier::external_type_specification]
#[verifier::external_body]
pub struct ExAnchorError(anchor_lang::error::Error);

/// Relies on `anchor_spl::token::ID`: the address of the SPL token program.
#[verifier::external_body]
pub(crate) fn token_program_id() -> (r: [u8; 32])
    ensures
        r@ == token_program_key(),
{
    anchor_spl::token::ID.to_bytes()
}

/// Relies on `anchor_spl::token::TokenAccount::try_deserialize`, which unpacks
/// the SPL token account layout: it succeeds exactly on packed, initialized
/// accounts and then yields the owner and amount fields.
#[verifier::external_body]
pub(crate) fn deserialize_token_account(data: &[u8]) -> (r: Result<
    TokenAccountView,
    anchor_lang::error::Error,
>)
    ensures
        r is Ok <==> is_token_account(data@),
        r matches Ok(v) ==> v.owner@ == token_owner_of(data@) && v.amount == token_amount_of(
            data@,
        ),
{
    let mut buf = data;
    <anchor_spl::token::TokenAccount as anchor_lang::AccountDeserialize>::try_deserialize(&mut buf)
        .map(|t| TokenAccountView { owner: t.owner.to_bytes(), amount: t.amount })
}

} // verus!
