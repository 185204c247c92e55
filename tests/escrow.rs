use escrow_anchor::address::Address;
use escrow_anchor::authority::{vault_account, vault_authority};
use escrow_anchor::error::EscrowError;
use escrow_anchor::instructions::cancel::Cancel;
use escrow_anchor::instructions::exchange::Exchange;
use escrow_anchor::instructions::initialize::Initialize;
use escrow_anchor::ledger::Ledger;
use escrow_anchor::{cancel, exchange, initialize};

fn addr(n: u8) -> Address {
    Address::new([n; 32])
}

struct World {
    ledger: Ledger,
    program: Address,
    vault: Address,
    authority: Address,
}

const INITIALIZER: u8 = 1;
const SOURCE: u8 = 2;
const DESTINATION: u8 = 3;
const RECORD: u8 = 4;
const TAKER: u8 = 5;
const TAKER_PAY: u8 = 6;
const TAKER_RECEIVE: u8 = 7;

fn world(source_balance: u64, taker_balance: u64) -> World {
    let program = addr(200);
    let vault = vault_account(&program).unwrap();
    let authority = vault_authority(&program).unwrap();
    let mut ledger = Ledger::new();
    ledger.put_token_account(addr(SOURCE), addr(INITIALIZER), source_balance);
    ledger.put_token_account(addr(DESTINATION), addr(INITIALIZER), 0);
    ledger.put_token_account(addr(TAKER_PAY), addr(TAKER), taker_balance);
    ledger.put_token_account(addr(TAKER_RECEIVE), addr(TAKER), 0);
    ledger.allocate_record(addr(RECORD));
    World { ledger, program, vault, authority }
}

fn init_accounts(w: &World) -> Initialize {
    Initialize {
        initializer: addr(INITIALIZER),
        initializer_is_signer: true,
        vault_account: w.vault,
        initializer_deposit_token_account: addr(SOURCE),
        initializer_receive_token_account: addr(DESTINATION),
        escrow_account: addr(RECORD),
    }
}

fn exchange_accounts(w: &World) -> Exchange {
    Exchange {
        taker: addr(TAKER),
        taker_is_signer: true,
        taker_deposit_token_account: addr(TAKER_PAY),
        taker_receive_token_account: addr(TAKER_RECEIVE),
        initializer_deposit_token_account: addr(SOURCE),
        initializer_receive_token_account: addr(DESTINATION),
        initializer: addr(INITIALIZER),
        escrow_account: addr(RECORD),
        vault_account: w.vault,
        vault_authority: w.authority,
    }
}

fn cancel_accounts(w: &World) -> Cancel {
    Cancel {
        initializer: addr(INITIALIZER),
        initializer_is_signer: true,
        vault_account: w.vault,
        vault_authority: w.authority,
        initializer_deposit_token_account: addr(SOURCE),
        escrow_account: addr(RECORD),
    }
}

fn opened(source_balance: u64, taker_balance: u64) -> World {
    let mut w = world(source_balance, taker_balance);
    let a = init_accounts(&w);
    let program = w.program;
    assert_eq!(initialize(&mut w.ledger, &program, &a, 0, 100, 50), Ok(()));
    w
}

fn balances(w: &World) -> Vec<Option<u64>> {
    [SOURCE, DESTINATION, TAKER_PAY, TAKER_RECEIVE]
        .iter()
        .map(|k| w.ledger.balance(&addr(*k)))
        .chain(std::iter::once(w.ledger.balance(&w.vault)))
        .collect()
}

#[test]
fn derived_addresses_are_deterministic_and_distinct() {
    let program = addr(200);
    let a1 = vault_authority(&program).unwrap();
    let a2 = vault_authority(&program).unwrap();
    let v = vault_account(&program).unwrap();
    assert_eq!(a1.bytes, a2.bytes);
    assert_ne!(a1.bytes, program.bytes);
    assert_ne!(v.bytes, program.bytes);
    assert_ne!(a1.bytes, v.bytes);
    let other = vault_authority(&addr(201)).unwrap();
    assert_ne!(a1.bytes, other.bytes);
}

#[test]
fn initialize_then_exchange_settles_both_sides() {
    let mut w = opened(100, 50);
    assert_eq!(w.ledger.balance(&addr(SOURCE)), Some(0));
    assert_eq!(w.ledger.balance(&w.vault), Some(100));
    let vault = w.ledger.token_account(&w.vault).unwrap();
    assert_eq!(vault.authority.bytes, w.authority.bytes);
    let terms = w.ledger.record(&addr(RECORD)).unwrap().unwrap();
    assert_eq!(terms.initializer_amount, 100);
    assert_eq!(terms.taker_amount, 50);
    assert_eq!(terms.initializer_key.bytes, addr(INITIALIZER).bytes);
    assert_eq!(terms.initializer_deposit_token_account.bytes, addr(SOURCE).bytes);
    assert_eq!(terms.initializer_receive_token_account.bytes, addr(DESTINATION).bytes);

    let e = exchange_accounts(&w);
    let program = w.program;
    assert_eq!(exchange(&mut w.ledger, &program, &e), Ok(()));
    assert_eq!(w.ledger.balance(&addr(TAKER_PAY)), Some(0));
    assert_eq!(w.ledger.balance(&addr(DESTINATION)), Some(50));
    assert_eq!(w.ledger.balance(&addr(TAKER_RECEIVE)), Some(100));
    assert_eq!(w.ledger.balance(&w.vault), None);

    assert_eq!(exchange(&mut w.ledger, &program, &e), Err(EscrowError::AccountNotFound));
    let c = cancel_accounts(&w);
    assert_eq!(cancel(&mut w.ledger, &program, &c), Err(EscrowError::AccountNotFound));
}

#[test]
fn initialize_then_cancel_refunds() {
    let mut w = opened(100, 50);
    let c = cancel_accounts(&w);
    let program = w.program;
    assert_eq!(cancel(&mut w.ledger, &program, &c), Ok(()));
    assert_eq!(w.ledger.balance(&addr(SOURCE)), Some(100));
    assert_eq!(w.ledger.balance(&w.vault), None);
    assert!(w.ledger.record(&addr(RECORD)).is_none());
    let e = exchange_accounts(&w);
    assert_eq!(exchange(&mut w.ledger, &program, &e), Err(EscrowError::AccountNotFound));
    assert_eq!(cancel(&mut w.ledger, &program, &c), Err(EscrowError::AccountNotFound));
}

#[test]
fn exchange_short_payment_changes_nothing() {
    let mut w = opened(100, 49);
    let before = balances(&w);
    let e = exchange_accounts(&w);
    let program = w.program;
    assert_eq!(exchange(&mut w.ledger, &program, &e), Err(EscrowError::BalanceTooLow));
    assert_eq!(balances(&w), before);
    assert!(w.ledger.record(&addr(RECORD)).unwrap().is_some());
}

#[test]
fn initialize_insufficient_source_rejected() {
    let mut w = world(99, 50);
    let a = init_accounts(&w);
    let program = w.program;
    assert_eq!(initialize(&mut w.ledger, &program, &a, 0, 100, 50), Err(EscrowError::BalanceTooLow));
    assert_eq!(w.ledger.balance(&addr(SOURCE)), Some(99));
    assert_eq!(w.ledger.balance(&w.vault), None);
    assert!(w.ledger.record(&addr(RECORD)).unwrap().is_none());
}

#[test]
fn initialize_twice_rejected() {
    let mut w = opened(200, 50);
    let a = init_accounts(&w);
    let program = w.program;
    assert_eq!(initialize(&mut w.ledger, &program, &a, 0, 100, 50), Err(EscrowError::RecordNotZeroed));
    assert_eq!(w.ledger.balance(&addr(SOURCE)), Some(100));
}

#[test]
fn initialize_vault_in_use_rejected() {
    let mut w = world(100, 50);
    w.ledger.allocate_record(addr(9));
    let mut a = init_accounts(&w);
    let program = w.program;
    assert_eq!(initialize(&mut w.ledger, &program, &a, 0, 40, 50), Ok(()));
    a.escrow_account = addr(9);
    assert_eq!(initialize(&mut w.ledger, &program, &a, 0, 40, 50), Err(EscrowError::AccountInUse));
    assert!(w.ledger.record(&addr(9)).unwrap().is_none());
    assert_eq!(w.ledger.balance(&addr(SOURCE)), Some(60));
}

#[test]
fn initialize_errors() {
    let mut w = world(100, 50);
    let program = w.program;
    let mut a = init_accounts(&w);
    a.initializer_is_signer = false;
    assert_eq!(initialize(&mut w.ledger, &program, &a, 0, 100, 50), Err(EscrowError::MissingSignature));
    let mut a = init_accounts(&w);
    a.vault_account = addr(42);
    assert_eq!(initialize(&mut w.ledger, &program, &a, 0, 100, 50), Err(EscrowError::InvalidVaultAddress));
    let mut a = init_accounts(&w);
    a.escrow_account = addr(43);
    assert_eq!(initialize(&mut w.ledger, &program, &a, 0, 100, 50), Err(EscrowError::AccountNotFound));
    let mut a = init_accounts(&w);
    a.initializer_receive_token_account = addr(44);
    assert_eq!(initialize(&mut w.ledger, &program, &a, 0, 100, 50), Err(EscrowError::AccountNotFound));
    // the source account is not the initializer's to move
    let mut a = init_accounts(&w);
    a.initializer = addr(TAKER);
    a.initializer_deposit_token_account = addr(SOURCE);
    assert_eq!(initialize(&mut w.ledger, &program, &a, 0, 100, 50), Err(EscrowError::OwnerMismatch));
    assert_eq!(w.ledger.balance(&w.vault), None);
    assert!(w.ledger.record(&addr(RECORD)).unwrap().is_none());
}

#[test]
fn exchange_mismatches_rejected() {
    let mut w = opened(100, 50);
    let program = w.program;
    let before = balances(&w);
    let mut e = exchange_accounts(&w);
    e.taker_is_signer = false;
    assert_eq!(exchange(&mut w.ledger, &program, &e), Err(EscrowError::MissingSignature));
    let mut e = exchange_accounts(&w);
    e.initializer_receive_token_account = addr(TAKER_RECEIVE);
    assert_eq!(exchange(&mut w.ledger, &program, &e), Err(EscrowError::AccountMismatch));
    let mut e = exchange_accounts(&w);
    e.initializer_deposit_token_account = addr(DESTINATION);
    assert_eq!(exchange(&mut w.ledger, &program, &e), Err(EscrowError::AccountMismatch));
    let mut e = exchange_accounts(&w);
    e.initializer = addr(TAKER);
    assert_eq!(exchange(&mut w.ledger, &program, &e), Err(EscrowError::IdentityMismatch));
    let mut e = exchange_accounts(&w);
    e.vault_authority = addr(TAKER);
    assert_eq!(exchange(&mut w.ledger, &program, &e), Err(EscrowError::MissingSignature));
    let mut e = exchange_accounts(&w);
    e.taker = addr(8);
    assert_eq!(exchange(&mut w.ledger, &program, &e), Err(EscrowError::OwnerMismatch));
    assert_eq!(balances(&w), before);
}

#[test]
fn exchange_zeroed_record_rejected() {
    let mut w = opened(100, 50);
    w.ledger.allocate_record(addr(10));
    let mut e = exchange_accounts(&w);
    e.escrow_account = addr(10);
    let program = w.program;
    assert_eq!(exchange(&mut w.ledger, &program, &e), Err(EscrowError::RecordNotInitialized));
}

#[test]
fn exchange_overflow_rolls_back_first_transfer() {
    let mut w = opened(100, 50);
    w.ledger.put_token_account(addr(TAKER_RECEIVE), addr(TAKER), u64::MAX - 10);
    let before = balances(&w);
    let e = exchange_accounts(&w);
    let program = w.program;
    assert_eq!(exchange(&mut w.ledger, &program, &e), Err(EscrowError::Overflow));
    assert_eq!(balances(&w), before);
    assert_eq!(w.ledger.balance(&addr(TAKER_PAY)), Some(50));
}

#[test]
fn cancel_mismatches_rejected() {
    let mut w = opened(100, 50);
    let program = w.program;
    let before = balances(&w);
    let mut c = cancel_accounts(&w);
    c.initializer_is_signer = false;
    assert_eq!(cancel(&mut w.ledger, &program, &c), Err(EscrowError::MissingSignature));
    let mut c = cancel_accounts(&w);
    c.initializer = addr(TAKER);
    assert_eq!(cancel(&mut w.ledger, &program, &c), Err(EscrowError::IdentityMismatch));
    let mut c = cancel_accounts(&w);
    c.initializer_deposit_token_account = addr(DESTINATION);
    assert_eq!(cancel(&mut w.ledger, &program, &c), Err(EscrowError::AccountMismatch));
    let mut c = cancel_accounts(&w);
    c.vault_authority = addr(INITIALIZER);
    assert_eq!(cancel(&mut w.ledger, &program, &c), Err(EscrowError::MissingSignature));
    assert_eq!(balances(&w), before);
    assert!(w.ledger.record(&addr(RECORD)).unwrap().is_some());
}

#[test]
fn ledger_transfer_rules() {
    let mut l = Ledger::new();
    l.put_token_account(addr(1), addr(11), 10);
    l.put_token_account(addr(2), addr(12), 0);
    assert_eq!(l.transfer(&addr(1), &addr(3), 1, &addr(11)), Err(EscrowError::AccountNotFound));
    assert_eq!(l.transfer(&addr(1), &addr(2), 11, &addr(11)), Err(EscrowError::InsufficientFunds));
    assert_eq!(l.transfer(&addr(1), &addr(2), 1, &addr(12)), Err(EscrowError::OwnerMismatch));
    assert_eq!(l.transfer(&addr(1), &addr(1), 5, &addr(11)), Ok(()));
    assert_eq!(l.balance(&addr(1)), Some(10));
    assert_eq!(l.transfer(&addr(1), &addr(2), 4, &addr(11)), Ok(()));
    assert_eq!(l.balance(&addr(1)), Some(6));
    assert_eq!(l.balance(&addr(2)), Some(4));
    assert_eq!(l.close_account(&addr(2), &addr(12)), Err(EscrowError::NonZeroAccount));
    assert_eq!(l.set_authority(&addr(2), addr(13), &addr(11)), Err(EscrowError::OwnerMismatch));
    assert_eq!(l.set_authority(&addr(2), addr(13), &addr(12)), Ok(()));
    assert_eq!(l.transfer(&addr(2), &addr(1), 4, &addr(13)), Ok(()));
    assert_eq!(l.close_account(&addr(2), &addr(13)), Ok(()));
    assert_eq!(l.balance(&addr(2)), None);
    assert_eq!(l.create_account(&addr(1), addr(11)), Err(EscrowError::AccountInUse));
}
