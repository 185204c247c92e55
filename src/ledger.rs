use vstd::prelude::*;
use crate::address::Address;
use crate::error::EscrowError;
use crate::table::Table;

verus! {

/// A holding account of the asset: who may move it, and how much it holds.
#[derive(Clone, Copy, Debug)]
pub struct TokenAccount {
    pub authority: Address,
    pub amount: u64,
}

/// The terms of one pending swap.
#[derive(Clone, Copy, Debug)]
pub struct EscrowAccount {
    pub initializer_key: Address,
    pub initializer_deposit_token_account: Address,
    pub initializer_receive_token_account: Address,
    pub initializer_amount: u64,
    pub taker_amount: u64,
}

/// The shared ledger state: holding accounts, and escrow record slots
/// (`None` for an allocated, zeroed slot).
pub struct Ledger {
    pub tokens: Table<TokenAccount>,
    pub records: Table<Option<EscrowAccount>>,
}

pub struct LedgerView {
    pub tokens: Map<Seq<u8>, TokenAccount>,
    pub records: Map<Seq<u8>, Option<EscrowAccount>>,
}

impl View for Ledger {
    type V = LedgerView;

    open spec fn view(&self) -> LedgerView {
        LedgerView { tokens: self.tokens@, records: self.records@ }
    }
}

/// `r` and `after` are what an atomic step with outcome `expected` leaves:
/// the new state on success, the old state and the error otherwise.
pub open spec fn applied(
    before: LedgerView,
    r: Result<(), EscrowError>,
    after: LedgerView,
    expected: Result<LedgerView, EscrowError>,
) -> bool {
    match expected {
        Ok(v) => r is Ok && after == v,
        Err(e) => r == Err::<(), EscrowError>(e) && after == before,
    }
}

/// `r` and `after` match `expected` on success, and the error on failure.
pub open spec fn reached(
    r: Result<(), EscrowError>,
    after: LedgerView,
    expected: Result<LedgerView, EscrowError>,
) -> bool {
    match expected {
        Ok(v) => r is Ok && after == v,
        Err(e) => r == Err::<(), EscrowError>(e),
    }
}

pub open spec fn with_amount(t: TokenAccount, amount: int) -> TokenAccount {
    TokenAccount { authority: t.authority, amount: amount as u64 }
}

pub open spec fn with_tokens(v: LedgerView, tokens: Map<Seq<u8>, TokenAccount>) -> LedgerView {
    LedgerView { tokens, records: v.records }
}

/// Moving `amount` from `from` to `to` on the authority of `signer`.
pub open spec fn spec_transfer(
    v: LedgerView,
    from: Seq<u8>,
    to: Seq<u8>,
    amount: u64,
    signer: Seq<u8>,
) -> Result<LedgerView, EscrowError> {
    if !v.tokens.contains_key(from) || !v.tokens.contains_key(to) {
        Err(EscrowError::AccountNotFound)
    } else if v.tokens[from].amount < amount {
        Err(EscrowError::InsufficientFunds)
    } else if v.tokens[from].authority@ != signer {
        Err(EscrowError::OwnerMismatch)
    } else if from == to {
        Ok(v)
    } else if v.tokens[to].amount + amount > u64::MAX {
        Err(EscrowError::Overflow)
    } else {
        let tokens = v.tokens.insert(from, with_amount(v.tokens[from], v.tokens[from].amount - amount));
        Ok(with_tokens(v, tokens.insert(to, with_amount(v.tokens[to], v.tokens[to].amount + amount))))
    }
}

/// Handing the authority over `account` to `new_authority`, signed by the current one.
pub open spec fn spec_set_authority(
    v: LedgerView,
    account: Seq<u8>,
    new_authority: Address,
    signer: Seq<u8>,
) -> Result<LedgerView, EscrowError> {
    if !v.tokens.contains_key(account) {
        Err(EscrowError::AccountNotFound)
    } else if v.tokens[account].authority@ != signer {
        Err(EscrowError::OwnerMismatch)
    } else {
        let t = TokenAccount { authority: new_authority, amount: v.tokens[account].amount };
        Ok(with_tokens(v, v.tokens.insert(account, t)))
    }
}

/// Releasing an empty holding account, signed by its authority.
pub open spec fn spec_close_account(v: LedgerView, account: Seq<u8>, signer: Seq<u8>) -> Result<
    LedgerView,
    EscrowError,
> {
    if !v.tokens.contains_key(account) {
        Err(EscrowError::AccountNotFound)
    } else if v.tokens[account].amount != 0 {
        Err(EscrowError::NonZeroAccount)
    } else if v.tokens[account].authority@ != signer {
        Err(EscrowError::OwnerMismatch)
    } else {
        Ok(with_tokens(v, v.tokens.remove(account)))
    }
}

/// Allocating an empty holding account at a free address.
pub open spec fn spec_create_account(v: LedgerView, account: Seq<u8>, authority: Address) -> Result<
    LedgerView,
    EscrowError,
> {
    if v.tokens.contains_key(account) {
        Err(EscrowError::AccountInUse)
    } else {
        Ok(with_tokens(v, v.tokens.insert(account, TokenAccount { authority, amount: 0 })))
    }
}

pub open spec fn spec_write_record(v: LedgerView, key: Seq<u8>, terms: EscrowAccount) -> LedgerView {
    LedgerView { tokens: v.tokens, records: v.records.insert(key, Some(terms)) }
}

pub open spec fn spec_release_record(v: LedgerView, key: Seq<u8>) -> LedgerView {
    LedgerView { tokens: v.tokens, records: v.records.remove(key) }
}

impl Ledger {
    pub open spec fn wf(&self) -> bool {
        self.tokens.wf() && self.records.wf()
    }

    pub fn new() -> (r: Ledger)
        ensures
            r.wf(),
            r@.tokens == Map::<Seq<u8>, TokenAccount>::empty(),
            r@.records == Map::<Seq<u8>, Option<EscrowAccount>>::empty(),
    {
        Ledger { tokens: Table::new(), records: Table::new() }
    }

    /// Places a holding account at `key`, replacing any there.
    pub fn put_token_account(&mut self, key: Address, authority: Address, amount: u64)
        requires
            old(self).wf(),
        ensures
            final(self).wf(),
            final(self)@.tokens == old(self)@.tokens.insert(key@, TokenAccount { authority, amount }),
            final(self)@.records == old(self)@.records,
    {
        self.tokens.set(key, TokenAccount { authority, amount });
    }

    /// Allocates a zeroed record slot at `key`, replacing any there.
    pub fn allocate_record(&mut self, key: Address)
        requires
            old(self).wf(),
        ensures
            final(self).wf(),
            final(self)@.records == old(self)@.records.insert(key@, None),
            final(self)@.tokens == old(self)@.tokens,
    {
        self.records.set(key, None);
    }

    pub fn token_account(&self, key: &Address) -> (r: Option<TokenAccount>)
        requires
            self.wf(),
        ensures
            r == self@.tokens.get(key@),
    {
        self.tokens.get(key)
    }

    /// The balance of the holding account at `key`, if it exists.
    pub fn balance(&self, key: &Address) -> (r: Option<u64>)
        requires
            self.wf(),
        ensures
            r == (if self@.tokens.contains_key(key@) {
                Some(self@.tokens[key@].amount)
            } else {
                None
            }),
    {
        match self.tokens.get(key) {
            Some(t) => Some(t.amount),
            None => None,
        }
    }

    /// The record slot at `key`: `None` when absent, `Some(None)` when zeroed.
    pub fn record(&self, key: &Address) -> (r: Option<Option<EscrowAccount>>)
        requires
            self.wf(),
        ensures
            r == self@.records.get(key@),
    {
        self.records.get(key)
    }

    /// A copy of the whole state, to work on before committing.
    pub fn duplicate(&self) -> (r: Ledger)
        requires
            self.wf(),
        ensures
            r.wf(),
            r@ == self@,
    {
        Ledger { tokens: self.tokens.duplicate(), records: self.records.duplicate() }
    }

    /// Fills the record slot at `key` with `terms`.
    pub fn write_record(&mut self, key: &Address, terms: EscrowAccount)
        requires
            old(self).wf(),
        ensures
            final(self).wf(),
            final(self)@ == spec_write_record(old(self)@, key@, terms),
    {
        self.records.set(*key, Some(terms));
    }

    /// Releases the record slot at `key`.
    pub fn release_record(&mut self, key: &Address)
        requires
            old(self).wf(),
        ensures
            final(self).wf(),
            final(self)@ == spec_release_record(old(self)@, key@),
    {
        self.records.remove(key);
    }

    pub fn transfer(&mut self, from: &Address, to: &Address, amount: u64, signer: &Address) -> (r:
        Result<(), EscrowError>)
        requires
            old(self).wf(),
        ensures
            final(self).wf(),
            applied(old(self)@, r, final(self)@, spec_transfer(old(self)@, from@, to@, amount, signer@)),
    {
        let src = match self.tokens.get(from) {
            Some(t) => t,
            None => return Err(EscrowError::AccountNotFound),
        };
        let dst = match self.tokens.get(to) {
            Some(t) => t,
            None => return Err(EscrowError::AccountNotFound),
        };
        if src.amount < amount {
            return Err(EscrowError::InsufficientFunds);
        }
        if !src.authority.same(signer) {
            return Err(EscrowError::OwnerMismatch);
        }
        if from.same(to) {
            return Ok(());
        }
        if dst.amount > u64::MAX - amount {
            return Err(EscrowError::Overflow);
        }
        self.tokens.set(*from, TokenAccount { authority: src.authority, amount: src.amount - amount });
        self.tokens.set(*to, TokenAccount { authority: dst.authority, amount: dst.amount + amount });
        Ok(())
    }

    pub fn set_authority(&mut self, account: &Address, new_authority: Address, signer: &Address) -> (r:
        Result<(), EscrowError>)
        requires
            old(self).wf(),
        ensures
            final(self).wf(),
            applied(
                old(self)@,
                r,
                final(self)@,
                spec_set_authority(old(self)@, account@, new_authority, signer@),
            ),
    {
        let t = match self.tokens.get(account) {
            Some(t) => t,
            None => return Err(EscrowError::AccountNotFound),
        };
        if !t.authority.same(signer) {
            return Err(EscrowError::OwnerMismatch);
        }
        self.tokens.set(*account, TokenAccount { authority: new_authority, amount: t.amount });
        Ok(())
    }

    pub fn close_account(&mut self, account: &Address, signer: &Address) -> (r: Result<(), EscrowError>)
        requires
            old(self).wf(),
        ensures
            final(self).wf(),
            applied(old(self)@, r, final(self)@, spec_close_account(old(self)@, account@, signer@)),
    {
        let t = match self.tokens.get(account) {
            Some(t) => t,
            None => return Err(EscrowError::AccountNotFound),
        };
        if t.amount != 0 {
            return Err(EscrowError::NonZeroAccount);
        }
        if !t.authority.same(signer) {
            return Err(EscrowError::OwnerMismatch);
        }
        self.tokens.remove(account);
        Ok(())
    }

    pub fn create_account(&mut self, account: &Address, authority: Address) -> (r: Result<(), EscrowError>)
        requires
            old(self).wf(),
        ensures
            final(self).wf(),
            applied(old(self)@, r, final(self)@, spec_create_account(old(self)@, account@, authority)),
    {
        if let Some(i) = self.tokens.find(account) {
            proof {
                self.tokens.lemma_entry(i as int);
            }
            return Err(EscrowError::AccountInUse);
        }
        self.tokens.set(*account, TokenAccount { authority, amount: 0 });
        Ok(())
    }
}

} // verus!
