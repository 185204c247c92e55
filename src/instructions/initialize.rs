use vstd::prelude::*;
use crate::address::{lemma_address_of, Address};
use crate::authority::{spec_vault_account, spec_vault_authority, vault_account, vault_authority};
use crate::error::EscrowError;
use crate::ledger::{
    applied, reached, spec_create_account, spec_set_authority, spec_transfer, spec_write_record,
    EscrowAccount, Ledger, LedgerView,
};

verus! {

/// The accounts an initializer names to open a swap.
#[derive(Clone, Copy, Debug)]
pub struct Initialize {
    pub initializer: Address,
    pub initializer_is_signer: bool,
    pub vault_account: Address,
    pub initializer_deposit_token_account: Address,
    pub initializer_receive_token_account: Address,
    pub escrow_account: Address,
}

/// The terms recorded for a swap opened with accounts `a`.
pub open spec fn spec_terms(a: Initialize, initializer_amount: u64, taker_amount: u64) -> EscrowAccount {
    EscrowAccount {
        initializer_key: a.initializer,
        initializer_deposit_token_account: a.initializer_deposit_token_account,
        initializer_receive_token_account: a.initializer_receive_token_account,
        initializer_amount,
        taker_amount,
    }
}

/// Opening the swap once every check has passed: the custody holder is
/// allocated, the terms recorded, custody handed to `authority`, and the
/// deposit moved in.
pub open spec fn spec_open(
    v: LedgerView,
    a: Initialize,
    initializer_amount: u64,
    taker_amount: u64,
    authority: Address,
) -> Result<LedgerView, EscrowError> {
    match spec_create_account(v, a.vault_account@, a.initializer) {
        Err(e) => Err(e),
        Ok(v1) => {
            let v2 = spec_write_record(v1, a.escrow_account@, spec_terms(a, initializer_amount, taker_amount));
            match spec_set_authority(v2, a.vault_account@, authority, a.initializer@) {
                Err(e) => Err(e),
                Ok(v3) => spec_transfer(
                    v3,
                    a.initializer_deposit_token_account@,
                    a.vault_account@,
                    initializer_amount,
                    a.initializer@,
                ),
            }
        },
    }
}

/// What opening a swap with accounts `a` does to the ledger `v`.
pub open spec fn spec_initialize(
    v: LedgerView,
    program_id: Seq<u8>,
    a: Initialize,
    initializer_amount: u64,
    taker_amount: u64,
) -> Result<LedgerView, EscrowError> {
    if !a.initializer_is_signer {
        Err(EscrowError::MissingSignature)
    } else if spec_vault_account(program_id) is None {
        Err(EscrowError::NoProgramAddress)
    } else if spec_vault_account(program_id) != Some(a.vault_account) {
        Err(EscrowError::InvalidVaultAddress)
    } else if !v.tokens.contains_key(a.initializer_deposit_token_account@) {
        Err(EscrowError::AccountNotFound)
    } else if v.tokens[a.initializer_deposit_token_account@].amount < initializer_amount {
        Err(EscrowError::BalanceTooLow)
    } else if !v.tokens.contains_key(a.initializer_receive_token_account@) || !v.records.contains_key(
        a.escrow_account@,
    ) {
        Err(EscrowError::AccountNotFound)
    } else if v.records[a.escrow_account@] is Some {
        Err(EscrowError::RecordNotZeroed)
    } else {
        match spec_vault_authority(program_id) {
            None => Err(EscrowError::NoProgramAddress),
            Some(authority) => {
                spec_open(v, a, initializer_amount, taker_amount, authority)
            },
        }
    }
}

fn initialize_steps(
    work: &mut Ledger,
    program_id: &Address,
    accounts: &Initialize,
    initializer_amount: u64,
    taker_amount: u64,
) -> (r: Result<(), EscrowError>)
    requires
        old(work).wf(),
    ensures
        final(work).wf(),
        reached(
            r,
            final(work)@,
            spec_initialize(old(work)@, program_id@, *accounts, initializer_amount, taker_amount),
        ),
{
    if !accounts.initializer_is_signer {
        return Err(EscrowError::MissingSignature);
    }
    let vault = match vault_account(program_id) {
        Some(a) => a,
        None => return Err(EscrowError::NoProgramAddress),
    };
    if !vault.same(&accounts.vault_account) {
        return Err(EscrowError::InvalidVaultAddress);
    }
    proof {
        lemma_address_of(vault);
        lemma_address_of(accounts.vault_account);
    }
    let deposit = match work.token_account(&accounts.initializer_deposit_token_account) {
        Some(t) => t,
        None => return Err(EscrowError::AccountNotFound),
    };
    if deposit.amount < initializer_amount {
        return Err(EscrowError::BalanceTooLow);
    }
    if work.token_account(&accounts.initializer_receive_token_account).is_none() {
        return Err(EscrowError::AccountNotFound);
    }
    match work.record(&accounts.escrow_account) {
        None => return Err(EscrowError::AccountNotFound),
        Some(Some(_)) => return Err(EscrowError::RecordNotZeroed),
        Some(None) => {},
    }
    let authority = match vault_authority(program_id) {
        Some(a) => a,
        None => return Err(EscrowError::NoProgramAddress),
    };
    let r1 = work.create_account(&accounts.vault_account, accounts.initializer);
    if r1.is_err() {
        return r1;
    }
    let terms = EscrowAccount {
        initializer_key: accounts.initializer,
        initializer_deposit_token_account: accounts.initializer_deposit_token_account,
        initializer_receive_token_account: accounts.initializer_receive_token_account,
        initializer_amount,
        taker_amount,
    };
    work.write_record(&accounts.escrow_account, terms);
    let r2 = work.set_authority(&accounts.vault_account, authority, &accounts.initializer);
    if r2.is_err() {
        return r2;
    }
    work.transfer(
        &accounts.initializer_deposit_token_account,
        &accounts.vault_account,
        initializer_amount,
        &accounts.initializer,
    )
}

/// Opens a swap: records its terms at `accounts.escrow_account`, allocates the
/// custody holder, hands it to the custody authority and moves
/// `initializer_amount` into it. `_vault_account_bump` is accepted and unused:
/// the custody holder's address is derived afresh. On any rejection the
/// ledger is left exactly as it was.
pub fn process_initialize(
    ledger: &mut Ledger,
    program_id: &Address,
    accounts: &Initialize,
    _vault_account_bump: u8,
    initializer_amount: u64,
    taker_amount: u64,
) -> (r: Result<(), EscrowError>)
    requires
        old(ledger).wf(),
    ensures
        final(ledger).wf(),
        applied(
            old(ledger)@,
            r,
            final(ledger)@,
            spec_initialize(old(ledger)@, program_id@, *accounts, initializer_amount, taker_amount),
        ),
{
    let mut work = ledger.duplicate();
    let r = initialize_steps(&mut work, program_id, accounts, initializer_amount, taker_amount);
    if r.is_ok() {
        *ledger = work;
    }
    r
}

} // verus!
