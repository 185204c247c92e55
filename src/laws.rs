use vstd::prelude::*;
use crate::authority::spec_vault_authority;
use crate::instructions::cancel::{spec_cancel, Cancel};
use crate::instructions::exchange::{spec_exchange, Exchange};
use crate::instructions::initialize::{spec_initialize, Initialize};
use crate::ledger::{EscrowAccount, LedgerView};

verus! {

/// The swap recorded at `escrow` is pending, and the custody holder at
/// `vault` holds exactly its deposit under the program's custody authority.
pub open spec fn active(v: LedgerView, program_id: Seq<u8>, escrow: Seq<u8>, vault: Seq<u8>) -> bool {
    &&& v.records.contains_key(escrow)
    &&& v.records[escrow] is Some
    &&& v.tokens.contains_key(vault)
    &&& v.tokens[vault].amount == v.records[escrow]->Some_0.initializer_amount
    &&& spec_vault_authority(program_id) == Some(v.tokens[vault].authority)
}

/// After a successful opening with deposit `d` and request `r`, the custody
/// holder holds `d` under the custody authority, the source account holds
/// exactly `d` less, and the record holds the five terms.
pub proof fn lemma_creation(
    v: LedgerView,
    program_id: Seq<u8>,
    a: Initialize,
    d: u64,
    r: u64,
)
    requires
        spec_initialize(v, program_id, a, d, r) is Ok,
    ensures
        ({
            let w = spec_initialize(v, program_id, a, d, r)->Ok_0;
            &&& w.tokens[a.vault_account@].amount == d
            &&& w.tokens[a.initializer_deposit_token_account@].amount
                == v.tokens[a.initializer_deposit_token_account@].amount - d
            &&& w.records[a.escrow_account@] == Some(
                EscrowAccount {
                    initializer_key: a.initializer,
                    initializer_deposit_token_account: a.initializer_deposit_token_account,
                    initializer_receive_token_account: a.initializer_receive_token_account,
                    initializer_amount: d,
                    taker_amount: r,
                },
            )
            &&& spec_vault_authority(program_id) == Some(w.tokens[a.vault_account@].authority)
            &&& active(w, program_id, a.escrow_account@, a.vault_account@)
        }),
{
}

/// For a pending swap whose taker signs, owns the payment account, names the
/// custody authority, and names distinct accounts that can take the credits,
/// settling succeeds exactly when the payment account covers the request and
/// the initializer's accounts and identity are the recorded ones. It then
/// credits the initializer the request, credits the taker the deposit, and
/// releases the custody holder.
pub proof fn lemma_settlement(v: LedgerView, program_id: Seq<u8>, a: Exchange)
    requires
        active(v, program_id, a.escrow_account@, a.vault_account@),
        a.taker_is_signer,
        v.tokens.contains_key(a.taker_deposit_token_account@),
        v.tokens.contains_key(a.taker_receive_token_account@),
        v.tokens.contains_key(a.initializer_deposit_token_account@),
        v.tokens.contains_key(a.initializer_receive_token_account@),
        spec_vault_authority(program_id) == Some(a.vault_authority),
        v.tokens[a.taker_deposit_token_account@].authority@ == a.taker@,
        a.taker_deposit_token_account@ != a.initializer_receive_token_account@,
        a.taker_deposit_token_account@ != a.vault_account@,
        a.taker_deposit_token_account@ != a.taker_receive_token_account@,
        a.initializer_receive_token_account@ != a.vault_account@,
        a.initializer_receive_token_account@ != a.taker_receive_token_account@,
        a.vault_account@ != a.taker_receive_token_account@,
        v.tokens[a.initializer_receive_token_account@].amount
            + v.records[a.escrow_account@]->Some_0.taker_amount <= u64::MAX,
        v.tokens[a.taker_receive_token_account@].amount
            + v.records[a.escrow_account@]->Some_0.initializer_amount <= u64::MAX,
    ensures
        ({
            let terms = v.records[a.escrow_account@]->Some_0;
            let result = spec_exchange(v, program_id, a);
            &&& result is Ok <==> {
                &&& terms.taker_amount <= v.tokens[a.taker_deposit_token_account@].amount
                &&& terms.initializer_deposit_token_account@ == a.initializer_deposit_token_account@
                &&& terms.initializer_receive_token_account@ == a.initializer_receive_token_account@
                &&& terms.initializer_key@ == a.initializer@
            }
            &&& result is Ok ==> {
                let w = result->Ok_0;
                &&& w.tokens[a.initializer_receive_token_account@].amount
                    == v.tokens[a.initializer_receive_token_account@].amount + terms.taker_amount
                &&& w.tokens[a.taker_receive_token_account@].amount
                    == v.tokens[a.taker_receive_token_account@].amount + terms.initializer_amount
                &&& w.tokens[a.taker_deposit_token_account@].amount
                    == v.tokens[a.taker_deposit_token_account@].amount - terms.taker_amount
                &&& !w.tokens.contains_key(a.vault_account@)
            }
        }),
{
}

/// For a pending swap whose caller signs and names the custody authority and
/// a source account, distinct from the custody holder, that can take the
/// refund, calling off succeeds exactly when the caller is the recorded
/// initializer and the source account is the recorded one. It then refunds
/// the deposit and releases both the custody holder and the record.
pub proof fn lemma_cancellation(v: LedgerView, program_id: Seq<u8>, a: Cancel)
    requires
        active(v, program_id, a.escrow_account@, a.vault_account@),
        a.initializer_is_signer,
        v.tokens.contains_key(a.initializer_deposit_token_account@),
        spec_vault_authority(program_id) == Some(a.vault_authority),
        a.vault_account@ != a.initializer_deposit_token_account@,
        v.tokens[a.initializer_deposit_token_account@].amount
            + v.records[a.escrow_account@]->Some_0.initializer_amount <= u64::MAX,
    ensures
        ({
            let terms = v.records[a.escrow_account@]->Some_0;
            let result = spec_cancel(v, program_id, a);
            &&& result is Ok <==> {
                &&& terms.initializer_key@ == a.initializer@
                &&& terms.initializer_deposit_token_account@ == a.initializer_deposit_token_account@
            }
            &&& result is Ok ==> {
                let w = result->Ok_0;
                &&& w.tokens[a.initializer_deposit_token_account@].amount
                    == v.tokens[a.initializer_deposit_token_account@].amount + terms.initializer_amount
                &&& !w.tokens.contains_key(a.vault_account@)
                &&& !w.records.contains_key(a.escrow_account@)
            }
        }),
{
}

/// Once a settlement has succeeded, no later settlement or call-off naming
/// the same custody holder can succeed: the holder is gone.
pub proof fn lemma_settled_once(
    v: LedgerView,
    program_id: Seq<u8>,
    a: Exchange,
    again: Exchange,
    off: Cancel,
)
    requires
        spec_exchange(v, program_id, a) is Ok,
        again.vault_account@ == a.vault_account@,
        off.vault_account@ == a.vault_account@,
    ensures
        spec_exchange(spec_exchange(v, program_id, a)->Ok_0, program_id, again) is Err,
        spec_cancel(spec_exchange(v, program_id, a)->Ok_0, program_id, off) is Err,
{
}

/// Once a call-off has succeeded, no later settlement or call-off naming the
/// same custody holder can succeed: the holder is gone.
pub proof fn lemma_cancelled_once(
    v: LedgerView,
    program_id: Seq<u8>,
    a: Cancel,
    again: Cancel,
    settle: Exchange,
)
    requires
        spec_cancel(v, program_id, a) is Ok,
        again.vault_account@ == a.vault_account@,
        settle.vault_account@ == a.vault_account@,
    ensures
        spec_cancel(spec_cancel(v, program_id, a)->Ok_0, program_id, again) is Err,
        spec_exchange(spec_cancel(v, program_id, a)->Ok_0, program_id, settle) is Err,
{
}

} // verus!
