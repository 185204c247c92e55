//! A two-party asset-swap escrow over an explicit ledger model: an initializer
//! deposits an amount into a custody holder that only a keyless program
//! authority can move, and names the amount it wants back; a taker settles
//! by paying it, or the initializer calls the swap off. Every operation is
//! all-or-nothing.
use vstd::prelude::*;

pub mod address;
pub mod authority;
pub mod constants;
pub mod error;
pub mod instructions;
pub mod laws;
pub mod ledger;
pub mod table;

use crate::address::Address;
use crate::error::EscrowError;
use crate::instructions::cancel::{process_cancel, spec_cancel, Cancel};
use crate::instructions::exchange::{process_exchange, spec_exchange, Exchange};
use crate::instructions::initialize::{process_initialize, spec_initialize, Initialize};
use crate::ledger::{applied, Ledger};

verus! {

/// Opens a swap (see [`process_initialize`]).
pub fn initialize(
    ledger: &mut Ledger,
    program_id: &Address,
    accounts: &Initialize,
    vault_account_bump: u8,
    initializer_amount: u64,
    taker_amount: u64,
) -> (r: Result<(), EscrowError>)
    requires
        old(ledger).wf(),
    ensures
        final(ledger).wf(),
        applied(
            old(ledger)@,
            r,
            final(ledger)@,
            spec_initialize(old(ledger)@, program_id@, *accounts, initializer_amount, taker_amount),
        ),
{
    process_initialize(ledger, program_id, accounts, vault_account_bump, initializer_amount, taker_amount)
}

/// Calls a swap off (see [`process_cancel`]).
pub fn cancel(ledger: &mut Ledger, program_id: &Address, accounts: &Cancel) -> (r: Result<
    (),
    EscrowError,
>)
    requires
        old(ledger).wf(),
    ensures
        final(ledger).wf(),
        applied(old(ledger)@, r, final(ledger)@, spec_cancel(old(ledger)@, program_id@, *accounts)),
{
    process_cancel(ledger, program_id, accounts)
}

/// Settles a swap (see [`process_exchange`]).
pub fn exchange(ledger: &mut Ledger, program_id: &Address, accounts: &Exchange) -> (r: Result<
    (),
    EscrowError,
>)
    requires
        old(ledger).wf(),
    ensures
        final(ledger).wf(),
        applied(old(ledger)@, r, final(ledger)@, spec_exchange(old(ledger)@, program_id@, *accounts)),
{
    process_exchange(ledger, program_id, accounts)
}

} // verus!
