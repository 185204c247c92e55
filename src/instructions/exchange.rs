use vstd::prelude::*;
use crate::address::{lemma_address_of, Address};
use crate::authority::{spec_vault_authority, vault_authority};
use crate::error::EscrowError;
use crate::ledger::{
    applied, reached, spec_close_account, spec_transfer, EscrowAccount, Ledger, LedgerView,
};

verus! {

/// The accounts a taker names to settle a swap.
#[derive(Clone, Copy, Debug)]
pub struct Exchange {
    pub taker: Address,
    pub taker_is_signer: bool,
    pub taker_deposit_token_account: Address,
    pub taker_receive_token_account: Address,
    pub initializer_deposit_token_account: Address,
    pub initializer_receive_token_account: Address,
    pub initializer: Address,
    pub escrow_account: Address,
    pub vault_account: Address,
    pub vault_authority: Address,
}

/// The settlement itself, once every check has passed: the taker pays the
/// initializer, custody pays the taker, and the custody holder is released.
pub open spec fn spec_settle(
    v: LedgerView,
    a: Exchange,
    terms: EscrowAccount,
    authority: Seq<u8>,
) -> Result<LedgerView, EscrowError> {
    match spec_transfer(
        v,
        a.taker_deposit_token_account@,
        a.initializer_receive_token_account@,
        terms.taker_amount,
        a.taker@,
    ) {
        Err(e) => Err(e),
        Ok(v1) => match spec_transfer(
            v1,
            a.vault_account@,
            a.taker_receive_token_account@,
            terms.initializer_amount,
            authority,
        ) {
            Err(e) => Err(e),
            Ok(v2) => spec_close_account(v2, a.vault_account@, authority),
        },
    }
}

/// What settling with accounts `a` does to the ledger `v`.
pub open spec fn spec_exchange(v: LedgerView, program_id: Seq<u8>, a: Exchange) -> Result<
    LedgerView,
    EscrowError,
> {
    if !a.taker_is_signer {
        Err(EscrowError::MissingSignature)
    } else if !v.tokens.contains_key(a.taker_deposit_token_account@) || !v.tokens.contains_key(
        a.taker_receive_token_account@,
    ) || !v.tokens.contains_key(a.initializer_deposit_token_account@) || !v.tokens.contains_key(
        a.initializer_receive_token_account@,
    ) || !v.tokens.contains_key(a.vault_account@) || !v.records.contains_key(a.escrow_account@) {
        Err(EscrowError::AccountNotFound)
    } else {
        match v.records[a.escrow_account@] {
            None => Err(EscrowError::RecordNotInitialized),
            Some(terms) => if terms.taker_amount > v.tokens[a.taker_deposit_token_account@].amount {
                Err(EscrowError::BalanceTooLow)
            } else if terms.initializer_deposit_token_account@ != a.initializer_deposit_token_account@
                || terms.initializer_receive_token_account@ != a.initializer_receive_token_account@ {
                Err(EscrowError::AccountMismatch)
            } else if terms.initializer_key@ != a.initializer@ {
                Err(EscrowError::IdentityMismatch)
            } else {
                match spec_vault_authority(program_id) {
                    None => Err(EscrowError::NoProgramAddress),
                    Some(authority) => if a.vault_authority != authority {
                        Err(EscrowError::MissingSignature)
                    } else {
                        spec_settle(v, a, terms, authority@)
                    },
                }
            },
        }
    }
}

fn exchange_steps(work: &mut Ledger, program_id: &Address, accounts: &Exchange) -> (r: Result<
    (),
    EscrowError,
>)
    requires
        old(work).wf(),
    ensures
        final(work).wf(),
        reached(r, final(work)@, spec_exchange(old(work)@, program_id@, *accounts)),
{
    if !accounts.taker_is_signer {
        return Err(EscrowError::MissingSignature);
    }
    let taker_deposit = match work.token_account(&accounts.taker_deposit_token_account) {
        Some(t) => t,
        None => return Err(EscrowError::AccountNotFound),
    };
    if work.token_account(&accounts.taker_receive_token_account).is_none()
        || work.token_account(&accounts.initializer_deposit_token_account).is_none()
        || work.token_account(&accounts.initializer_receive_token_account).is_none()
        || work.token_account(&accounts.vault_account).is_none() {
        return Err(EscrowError::AccountNotFound);
    }
    let terms = match work.record(&accounts.escrow_account) {
        None => return Err(EscrowError::AccountNotFound),
        Some(None) => return Err(EscrowError::RecordNotInitialized),
        Some(Some(terms)) => terms,
    };
    if terms.taker_amount > taker_deposit.amount {
        return Err(EscrowError::BalanceTooLow);
    }
    if !terms.initializer_deposit_token_account.same(&accounts.initializer_deposit_token_account)
        || !terms.initializer_receive_token_account.same(
        &accounts.initializer_receive_token_account,
    ) {
        return Err(EscrowError::AccountMismatch);
    }
    if !terms.initializer_key.same(&accounts.initializer) {
        return Err(EscrowError::IdentityMismatch);
    }
    let authority = match vault_authority(program_id) {
        Some(a) => a,
        None => return Err(EscrowError::NoProgramAddress),
    };
    proof {
        lemma_address_of(authority);
        lemma_address_of(accounts.vault_authority);
    }
    if !accounts.vault_authority.same(&authority) {
        return Err(EscrowError::MissingSignature);
    }
    let r1 = work.transfer(
        &accounts.taker_deposit_token_account,
        &accounts.initializer_receive_token_account,
        terms.taker_amount,
        &accounts.taker,
    );
    if r1.is_err() {
        return r1;
    }
    let r2 = work.transfer(
        &accounts.vault_account,
        &accounts.taker_receive_token_account,
        terms.initializer_amount,
        &authority,
    );
    if r2.is_err() {
        return r2;
    }
    work.close_account(&accounts.vault_account, &authority)
}

/// Settles the swap recorded at `accounts.escrow_account` atomically: on any
/// rejection the ledger is left exactly as it was.
pub fn process_exchange(ledger: &mut Ledger, program_id: &Address, accounts: &Exchange) -> (r:
    Result<(), EscrowError>)
    requires
        old(ledger).wf(),
    ensures
        final(ledger).wf(),
        applied(old(ledger)@, r, final(ledger)@, spec_exchange(old(ledger)@, program_id@, *accounts)),
{
    let mut work = ledger.duplicate();
    let r = exchange_steps(&mut work, program_id, accounts);
    if r.is_ok() {
        *ledger = work;
    }
    r
}

} // verus!
