use vstd::prelude::*;
use crate::address::{lemma_address_of, Address};
use crate::authority::{spec_vault_authority, vault_authority};
use crate::error::EscrowError;
use crate::ledger::{
    applied, reached, spec_close_account, spec_release_record, spec_transfer, EscrowAccount, Ledger,
    LedgerView,
};

verus! {

/// The accounts an initializer names to call a swap off.
#[derive(Clone, Copy, Debug)]
pub struct Cancel {
    pub initializer: Address,
    pub initializer_is_signer: bool,
    pub vault_account: Address,
    pub vault_authority: Address,
    pub initializer_deposit_token_account: Address,
    pub escrow_account: Address,
}

/// The refund itself, once every check has passed: custody pays the deposit
/// back, and the custody holder and the record are released.
pub open spec fn spec_refund(
    v: LedgerView,
    a: Cancel,
    terms: EscrowAccount,
    authority: Seq<u8>,
) -> Result<LedgerView, EscrowError> {
    match spec_transfer(
        v,
        a.vault_account@,
        a.initializer_deposit_token_account@,
        terms.initializer_amount,
        authority,
    ) {
        Err(e) => Err(e),
        Ok(v1) => match spec_close_account(v1, a.vault_account@, authority) {
            Err(e) => Err(e),
            Ok(v2) => Ok(spec_release_record(v2, a.escrow_account@)),
        },
    }
}

/// What calling off with accounts `a` does to the ledger `v`.
pub open spec fn spec_cancel(v: LedgerView, program_id: Seq<u8>, a: Cancel) -> Result<
    LedgerView,
    EscrowError,
> {
    if !a.initializer_is_signer {
        Err(EscrowError::MissingSignature)
    } else if !v.tokens.contains_key(a.vault_account@) || !v.tokens.contains_key(
        a.initializer_deposit_token_account@,
    ) || !v.records.contains_key(a.escrow_account@) {
        Err(EscrowError::AccountNotFound)
    } else {
        match v.records[a.escrow_account@] {
            None => Err(EscrowError::RecordNotInitialized),
            Some(terms) => if terms.initializer_key@ != a.initializer@ {
                Err(EscrowError::IdentityMismatch)
            } else if terms.initializer_deposit_token_account@ != a.initializer_deposit_token_account@ {
                Err(EscrowError::AccountMismatch)
            } else {
                match spec_vault_authority(program_id) {
                    None => Err(EscrowError::NoProgramAddress),
                    Some(authority) => if a.vault_authority != authority {
                        Err(EscrowError::MissingSignature)
                    } else {
                        spec_refund(v, a, terms, authority@)
                    },
                }
            },
        }
    }
}

fn cancel_steps(work: &mut Ledger, program_id: &Address, accounts: &Cancel) -> (r: Result<
    (),
    EscrowError,
>)
    requires
        old(work).wf(),
    ensures
        final(work).wf(),
        reached(r, final(work)@, spec_cancel(old(work)@, program_id@, *accounts)),
{
    if !accounts.initializer_is_signer {
        return Err(EscrowError::MissingSignature);
    }
    if work.token_account(&accounts.vault_account).is_none() || work.token_account(
        &accounts.initializer_deposit_token_account,
    ).is_none() {
        return Err(EscrowError::AccountNotFound);
    }
    let terms = match work.record(&accounts.escrow_account) {
        None => return Err(EscrowError::AccountNotFound),
        Some(None) => return Err(EscrowError::RecordNotInitialized),
        Some(Some(terms)) => terms,
    };
    if !terms.initializer_key.same(&accounts.initializer) {
        return Err(EscrowError::IdentityMismatch);
    }
    if !terms.initializer_deposit_token_account.same(&accounts.initializer_deposit_token_account) {
        return Err(EscrowError::AccountMismatch);
    }
    let authority = match vault_authority(program_id) {
        Some(a) => a,
        None => return Err(EscrowError::NoProgramAddress),
    };
    proof {
        lemma_address_of(authority);
        lemma_address_of(accounts.vault_authority);
    }
    if !accounts.vault_authority.same(&authority) {
        return Err(EscrowError::MissingSignature);
    }
    let r1 = work.transfer(
        &accounts.vault_account,
        &accounts.initializer_deposit_token_account,
        terms.initializer_amount,
        &authority,
    );
    if r1.is_err() {
        return r1;
    }
    let r2 = work.close_account(&accounts.vault_account, &authority);
    if r2.is_err() {
        return r2;
    }
    work.release_record(&accounts.escrow_account);
    Ok(())
}

/// Calls off the swap recorded at `accounts.escrow_account` atomically: on any
/// rejection the ledger is left exactly as it was.
pub fn process_cancel(ledger: &mut Ledger, program_id: &Address, accounts: &Cancel) -> (r: Result<
    (),
    EscrowError,
>)
    requires
        old(ledger).wf(),
    ensures
        final(ledger).wf(),
        applied(old(ledger)@, r, final(ledger)@, spec_cancel(old(ledger)@, program_id@, *accounts)),
{
    let mut work = ledger.duplicate();
    let r = cancel_steps(&mut work, program_id, accounts);
    if r.is_ok() {
        *ledger = work;
    }
    r
}

} // verus!
