use vstd::prelude::*;
use crate::error::ErrorCode;
use crate::identity::Identity;
use anchor_lang::solana_program::program_option::COption;

verus! {

/// Size of a token mint account's data.
pub const MINT_ACCOUNT_LEN: usize = 82;

/// Whether the four bytes at `at` hold a valid optional-key tag (0 or 1, little endian).
pub open spec fn valid_option_tag(data: Seq<u8>, at: int) -> bool {
    (data[at] == 0 || data[at] == 1) && data[at + 1] == 0 && data[at + 2] == 0 && data[at + 3] == 0
}

/// The mint authority recorded in a token mint account, or `None` when the
/// data is not an initialized mint. The layout is: optional mint authority
/// (4-byte tag, 32-byte key), supply (8), decimals (1), initialized flag (1),
/// optional freeze authority (4-byte tag, 32-byte key).
pub open spec fn spec_mint_authority(data: Seq<u8>) -> Option<Option<Seq<u8>>> {
    if data.len() == MINT_ACCOUNT_LEN && valid_option_tag(data, 0) && data[45] == 1
        && valid_option_tag(data, 46) {
        if data[0] == 1 {
            Some(Some(data.subrange(4, 36)))
        } else {
            Some(None)
        }
    } else {
        None
    }
}

pub open spec fn authority_view(a: Option<Option<Identity>>) -> Option<Option<Seq<u8>>> {
    match a {
        None => None,
        Some(None) => Some(None),
        Some(Some(key)) => Some(Some(key@)),
    }
}

/// Relies on anchor_spl::token::Mint::try_deserialize, which unpacks
/// spl_token::state::Mint: it accepts exactly 82 bytes with valid option tags
/// and an initialized flag of 1, and yields the mint authority.
#[verifier::external_body]
fn read_mint_authority(data: &[u8]) -> (r: Option<Option<Identity>>)
    ensures
        authority_view(r) == spec_mint_authority(data@),
{
    let mut buf: &[u8] = data;
    match <anchor_spl::token::Mint as anchor_lang::AccountDeserialize>::try_deserialize(&mut buf) {
        Ok(mint) => match mint.mint_authority {
            COption::Some(key) => Some(Some(Identity { bytes: key.to_bytes() })),
            COption::None => Some(None),
        },
        Err(_) => None,
    }
}

/// The outcome of checking that the mint in `data` has `expected` as its mint
/// authority, failing with `mismatch` when it has another or none.
pub open spec fn spec_check_mint_authority(data: Seq<u8>, expected: Identity, mismatch: ErrorCode) -> Result<(), ErrorCode> {
    match spec_mint_authority(data) {
        None => Err(ErrorCode::InvalidMintAccount),
        Some(Some(key)) => if key == expected@ { Ok(()) } else { Err(mismatch) },
        Some(None) => Err(mismatch),
    }
}

pub(crate) fn check_mint_authority(data: &[u8], expected: Identity, mismatch: ErrorCode) -> (r: Result<(), ErrorCode>)
    ensures
        r == spec_check_mint_authority(data@, expected, mismatch),
{
    match read_mint_authority(data) {
        None => Err(ErrorCode::InvalidMintAccount),
        Some(None) => Err(mismatch),
        Some(Some(key)) => {
            if key == expected {
                Ok(())
            } else {
                proof {
                    if key@ == expected@ {
                        assert(key.bytes =~= expected.bytes);
                    }
                }
                Err(mismatch)
            }
        },
    }
}

/// Confirms, after the reward mint's authority was handed to the vault, that
/// the mint now records `vault_key` as its authority.
pub fn verify_mint_authority_transfer(mint_data: &[u8], vault_key: Identity) -> (r: Result<(), ErrorCode>)
    ensures
        r == spec_check_mint_authority(mint_data@, vault_key, ErrorCode::MintAuthorityTransferFailed),
{
    check_mint_authority(mint_data, vault_key, ErrorCode::MintAuthorityTransferFailed)
}

} // verus!
