use vstd::prelude::*;
use crate::address::{address_of, lemma_address_of, Address};
use crate::constants::{VAULT_ACCOUNT_SEED, VAULT_AUTHORITY_SEED};

verus! {

/// The program address derived from one seed and a program identity, with the
/// bump that makes it fall off the signing curve; `None` when no bump does.
pub uninterp spec fn program_address(seed: Seq<u8>, program_id: Seq<u8>) -> Option<(Seq<u8>, u8)>;

/// Relies on `Pubkey::try_find_program_address` of anchor_lang (solana-program):
/// off-chain it scans the bumps from 255 down and depends on the seed and the
/// program identity alone.
#[verifier::external_body]
fn find_program_address(seed: &[u8], program_id: &Address) -> (r: Option<(Address, u8)>)
    ensures
        match r {
            Some(found) => program_address(seed@, program_id@) == Some((found.0@, found.1)),
            None => program_address(seed@, program_id@) is None,
        },
{
    let id = anchor_lang::prelude::Pubkey::new_from_array(program_id.bytes);
    match anchor_lang::prelude::Pubkey::try_find_program_address(&[seed], &id) {
        Some((key, bump)) => Some((Address { bytes: key.to_bytes() }, bump)),
        None => None,
    }
}

/// The keyless identity that alone may move the custody holder's balance.
pub open spec fn spec_vault_authority(program_id: Seq<u8>) -> Option<Address> {
    match program_address(VAULT_AUTHORITY_SEED@, program_id) {
        Some(found) => Some(address_of(found.0)),
        None => None,
    }
}

/// The address at which the custody holder is allocated.
pub open spec fn spec_vault_account(program_id: Seq<u8>) -> Option<Address> {
    match program_address(VAULT_ACCOUNT_SEED@, program_id) {
        Some(found) => Some(address_of(found.0)),
        None => None,
    }
}

/// Derives the custody authority for `program_id`.
pub fn vault_authority(program_id: &Address) -> (r: Option<Address>)
    ensures
        match r {
            Some(a) => spec_vault_authority(program_id@) == Some(a),
            None => spec_vault_authority(program_id@) is None,
        },
{
    match find_program_address(VAULT_AUTHORITY_SEED.as_slice(), program_id) {
        Some(found) => {
            proof {
                lemma_address_of(found.0);
            }
            Some(found.0)
        },
        None => None,
    }
}

/// Derives the custody holder's address for `program_id`.
pub fn vault_account(program_id: &Address) -> (r: Option<Address>)
    ensures
        match r {
            Some(a) => spec_vault_account(program_id@) == Some(a),
            None => spec_vault_account(program_id@) is None,
        },
{
    match find_program_address(VAULT_ACCOUNT_SEED.as_slice(), program_id) {
        Some(found) => {
            proof {
                lemma_address_of(found.0);
            }
            Some(found.0)
        },
        None => None,
    }
}

} // verus!
