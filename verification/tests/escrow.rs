use anchor_escrow::addr_eq;
use anchor_escrow::derive_custody;
use anchor_escrow::make;
use anchor_escrow::refund;
use anchor_escrow::take;
use anchor_escrow::Address;
use anchor_escrow::EscrowError;
use anchor_escrow::Ledger;
use anchor_escrow::TokenAccount;

fn addr(n: u8) -> Address {
    Address { bytes: [n; 32] }
}

fn account(mint: Address, authority: Address, amount: u64) -> TokenAccount {
    TokenAccount { mint, authority, amount }
}

const PROGRAM: u8 = 9;
const MAKER: u8 = 1;
const TAKER: u8 = 2;
const ASSET_A: u8 = 3;
const ASSET_B: u8 = 4;

fn setup() -> (Ledger, Address, Address, Address, Address) {
    let ledger = Ledger::new(addr(PROGRAM));
    (ledger, addr(MAKER), addr(TAKER), addr(ASSET_A), addr(ASSET_B))
}

#[test]
fn make_deposits_and_records_inputs() {
    let (mut ledger, m, _t, a, b) = setup();
    let mut m_ata_a = account(a, m, 1000);
    let r = make(&mut ledger, &m, 1, &a, &b, 500, 1000, &mut m_ata_a);
    assert_eq!(r, Ok(()));
    assert_eq!(m_ata_a.amount, 0);
    assert_eq!(ledger.escrows.len(), 1);
    let e = &ledger.escrows[0];
    assert_eq!(e.vault.amount, 1000);
    assert_eq!(e.vault.mint, a);
    assert_eq!(e.vault.authority, e.address);
    assert_eq!(e.record.maker, m);
    assert_eq!(e.record.nonce, 1);
    assert_eq!(e.record.asset_a, a);
    assert_eq!(e.record.asset_b, b);
    assert_eq!(e.record.receive_amount, 500);
}

#[test]
fn take_settles_swap_and_closes_escrow() {
    let (mut ledger, m, t, a, b) = setup();
    let mut m_ata_a = account(a, m, 1000);
    assert_eq!(make(&mut ledger, &m, 1, &a, &b, 500, 1000, &mut m_ata_a), Ok(()));
    let mut t_ata_b = account(b, t, 500);
    let mut m_ata_b = account(b, m, 0);
    let mut t_ata_a = account(a, t, 0);
    let r = take(&mut ledger, &t, &m, 1, &a, &b, &mut t_ata_b, &mut m_ata_b, &mut t_ata_a);
    assert_eq!(r, Ok(()));
    assert_eq!(m_ata_b.amount, 500);
    assert_eq!(t_ata_a.amount, 1000);
    assert_eq!(t_ata_b.amount, 0);
    assert_eq!(ledger.escrows.len(), 0);
}

#[test]
fn refund_returns_deposit_and_closes_escrow() {
    let (mut ledger, m, t, a, b) = setup();
    let mut m_ata_a = account(a, m, 1000);
    assert_eq!(make(&mut ledger, &m, 1, &a, &b, 500, 1000, &mut m_ata_a), Ok(()));
    assert_eq!(m_ata_a.amount, 0);
    let r = refund(&mut ledger, &m, &m, 1, &a, &b, &mut m_ata_a);
    assert_eq!(r, Ok(()));
    assert_eq!(m_ata_a.amount, 1000);
    assert_eq!(ledger.escrows.len(), 0);
    let mut t_ata_b = account(b, t, 500);
    let mut m_ata_b = account(b, m, 0);
    let mut t_ata_a = account(a, t, 0);
    let r = take(&mut ledger, &t, &m, 1, &a, &b, &mut t_ata_b, &mut m_ata_b, &mut t_ata_a);
    assert_eq!(r, Err(EscrowError::NotFound));
}

#[test]
fn make_rejects_zero_receive_amount() {
    let (mut ledger, m, _t, a, b) = setup();
    let mut m_ata_a = account(a, m, 1000);
    let r = make(&mut ledger, &m, 1, &a, &b, 0, 1000, &mut m_ata_a);
    assert_eq!(r, Err(EscrowError::InvalidArgument));
    assert_eq!(m_ata_a.amount, 1000);
    assert_eq!(ledger.escrows.len(), 0);
}

#[test]
fn make_rejects_zero_deposit_amount() {
    let (mut ledger, m, _t, a, b) = setup();
    let mut m_ata_a = account(a, m, 1000);
    let r = make(&mut ledger, &m, 1, &a, &b, 500, 0, &mut m_ata_a);
    assert_eq!(r, Err(EscrowError::InvalidArgument));
}

#[test]
fn make_rejects_identical_assets() {
    let (mut ledger, m, _t, a, _b) = setup();
    let mut m_ata_a = account(a, m, 1000);
    let r = make(&mut ledger, &m, 1, &a, &a, 500, 1000, &mut m_ata_a);
    assert_eq!(r, Err(EscrowError::ConstraintMismatch));
}

#[test]
fn make_rejects_wrong_holding_mint() {
    let (mut ledger, m, _t, a, b) = setup();
    let mut m_ata_b = account(b, m, 1000);
    let r = make(&mut ledger, &m, 1, &a, &b, 500, 1000, &mut m_ata_b);
    assert_eq!(r, Err(EscrowError::ConstraintMismatch));
}

#[test]
fn make_rejects_foreign_holding_account() {
    let (mut ledger, m, t, a, b) = setup();
    let mut t_ata_a = account(a, t, 1000);
    let r = make(&mut ledger, &m, 1, &a, &b, 500, 1000, &mut t_ata_a);
    assert_eq!(r, Err(EscrowError::AuthorizationError));
}

#[test]
fn make_rejects_insufficient_balance() {
    let (mut ledger, m, _t, a, b) = setup();
    let mut m_ata_a = account(a, m, 999);
    let r = make(&mut ledger, &m, 1, &a, &b, 500, 1000, &mut m_ata_a);
    assert_eq!(r, Err(EscrowError::InsufficientFunds));
    assert_eq!(m_ata_a.amount, 999);
    assert_eq!(ledger.escrows.len(), 0);
}

#[test]
fn make_rejects_duplicate_nonce() {
    let (mut ledger, m, _t, a, b) = setup();
    let mut m_ata_a = account(a, m, 2000);
    assert_eq!(make(&mut ledger, &m, 1, &a, &b, 500, 1000, &mut m_ata_a), Ok(()));
    let before = ledger.escrows[0];
    let r = make(&mut ledger, &m, 1, &a, &b, 700, 800, &mut m_ata_a);
    assert_eq!(r, Err(EscrowError::ConstraintMismatch));
    assert_eq!(m_ata_a.amount, 1000);
    assert_eq!(ledger.escrows.len(), 1);
    assert_eq!(ledger.escrows[0], before);
}

#[test]
fn take_rejects_missing_escrow() {
    let (mut ledger, m, t, a, b) = setup();
    let mut t_ata_b = account(b, t, 500);
    let mut m_ata_b = account(b, m, 0);
    let mut t_ata_a = account(a, t, 0);
    let r = take(&mut ledger, &t, &m, 7, &a, &b, &mut t_ata_b, &mut m_ata_b, &mut t_ata_a);
    assert_eq!(r, Err(EscrowError::NotFound));
}

#[test]
fn take_rejects_mismatched_assets() {
    let (mut ledger, m, t, a, b) = setup();
    let mut m_ata_a = account(a, m, 1000);
    assert_eq!(make(&mut ledger, &m, 1, &a, &b, 500, 1000, &mut m_ata_a), Ok(()));
    let wrong = addr(8);
    let mut t_ata_b = account(b, t, 500);
    let mut m_ata_b = account(b, m, 0);
    let mut t_ata_a = account(wrong, t, 0);
    let r = take(&mut ledger, &t, &m, 1, &wrong, &b, &mut t_ata_b, &mut m_ata_b, &mut t_ata_a);
    assert_eq!(r, Err(EscrowError::ConstraintMismatch));
    assert_eq!(ledger.escrows.len(), 1);
}

#[test]
fn take_rejects_foreign_paying_account() {
    let (mut ledger, m, t, a, b) = setup();
    let mut m_ata_a = account(a, m, 1000);
    assert_eq!(make(&mut ledger, &m, 1, &a, &b, 500, 1000, &mut m_ata_a), Ok(()));
    let other = addr(8);
    let mut other_ata_b = account(b, other, 500);
    let mut m_ata_b = account(b, m, 0);
    let mut t_ata_a = account(a, t, 0);
    let r = take(&mut ledger, &t, &m, 1, &a, &b, &mut other_ata_b, &mut m_ata_b, &mut t_ata_a);
    assert_eq!(r, Err(EscrowError::AuthorizationError));
}

#[test]
fn take_rejects_underfunded_taker_and_changes_nothing() {
    let (mut ledger, m, t, a, b) = setup();
    let mut m_ata_a = account(a, m, 1000);
    assert_eq!(make(&mut ledger, &m, 1, &a, &b, 500, 1000, &mut m_ata_a), Ok(()));
    let escrow_before = ledger.escrows[0];
    let mut t_ata_b = account(b, t, 499);
    let mut m_ata_b = account(b, m, 7);
    let mut t_ata_a = account(a, t, 11);
    let r = take(&mut ledger, &t, &m, 1, &a, &b, &mut t_ata_b, &mut m_ata_b, &mut t_ata_a);
    assert_eq!(r, Err(EscrowError::InsufficientFunds));
    assert_eq!(t_ata_b, account(b, t, 499));
    assert_eq!(m_ata_b, account(b, m, 7));
    assert_eq!(t_ata_a, account(a, t, 11));
    assert_eq!(ledger.escrows.len(), 1);
    assert_eq!(ledger.escrows[0], escrow_before);
}

#[test]
fn refund_rejects_foreign_signer() {
    let (mut ledger, m, t, a, b) = setup();
    let mut m_ata_a = account(a, m, 1000);
    assert_eq!(make(&mut ledger, &m, 1, &a, &b, 500, 1000, &mut m_ata_a), Ok(()));
    let r = refund(&mut ledger, &t, &m, 1, &a, &b, &mut m_ata_a);
    assert_eq!(r, Err(EscrowError::AuthorizationError));
    assert_eq!(ledger.escrows.len(), 1);
    assert_eq!(m_ata_a.amount, 0);
}

#[test]
fn refund_rejects_wrong_receiving_account() {
    let (mut ledger, m, _t, a, b) = setup();
    let mut m_ata_a = account(a, m, 1000);
    assert_eq!(make(&mut ledger, &m, 1, &a, &b, 500, 1000, &mut m_ata_a), Ok(()));
    let mut m_ata_b = account(b, m, 0);
    let r = refund(&mut ledger, &m, &m, 1, &a, &b, &mut m_ata_b);
    assert_eq!(r, Err(EscrowError::ConstraintMismatch));
}

#[test]
fn second_refund_rejected_after_first() {
    let (mut ledger, m, _t, a, b) = setup();
    let mut m_ata_a = account(a, m, 1000);
    assert_eq!(make(&mut ledger, &m, 1, &a, &b, 500, 1000, &mut m_ata_a), Ok(()));
    assert_eq!(refund(&mut ledger, &m, &m, 1, &a, &b, &mut m_ata_a), Ok(()));
    let r = refund(&mut ledger, &m, &m, 1, &a, &b, &mut m_ata_a);
    assert_eq!(r, Err(EscrowError::NotFound));
    assert_eq!(m_ata_a.amount, 1000);
}

#[test]
fn refund_rejected_after_take() {
    let (mut ledger, m, t, a, b) = setup();
    let mut m_ata_a = account(a, m, 1000);
    assert_eq!(make(&mut ledger, &m, 1, &a, &b, 500, 1000, &mut m_ata_a), Ok(()));
    let mut t_ata_b = account(b, t, 500);
    let mut m_ata_b = account(b, m, 0);
    let mut t_ata_a = account(a, t, 0);
    assert_eq!(
        take(&mut ledger, &t, &m, 1, &a, &b, &mut t_ata_b, &mut m_ata_b, &mut t_ata_a),
        Ok(())
    );
    let r = refund(&mut ledger, &m, &m, 1, &a, &b, &mut m_ata_a);
    assert_eq!(r, Err(EscrowError::NotFound));
}

#[test]
fn independent_nonces_settle_independently() {
    let (mut ledger, m, t, a, b) = setup();
    let mut m_ata_a = account(a, m, 300);
    assert_eq!(make(&mut ledger, &m, 1, &a, &b, 50, 100, &mut m_ata_a), Ok(()));
    assert_eq!(make(&mut ledger, &m, 2, &a, &b, 60, 200, &mut m_ata_a), Ok(()));
    assert_eq!(ledger.escrows.len(), 2);
    let mut t_ata_b = account(b, t, 60);
    let mut m_ata_b = account(b, m, 0);
    let mut t_ata_a = account(a, t, 0);
    assert_eq!(
        take(&mut ledger, &t, &m, 2, &a, &b, &mut t_ata_b, &mut m_ata_b, &mut t_ata_a),
        Ok(())
    );
    assert_eq!(t_ata_a.amount, 200);
    assert_eq!(m_ata_b.amount, 60);
    assert_eq!(ledger.escrows.len(), 1);
    assert_eq!(ledger.escrows[0].record.nonce, 1);
    assert_eq!(refund(&mut ledger, &m, &m, 1, &a, &b, &mut m_ata_a), Ok(()));
    assert_eq!(m_ata_a.amount, 100);
}

#[test]
fn make_rejected_after_refund_with_same_nonce() {
    let (mut ledger, m, _t, a, b) = setup();
    let mut m_ata_a = account(a, m, 1000);
    assert_eq!(make(&mut ledger, &m, 1, &a, &b, 500, 1000, &mut m_ata_a), Ok(()));
    assert_eq!(refund(&mut ledger, &m, &m, 1, &a, &b, &mut m_ata_a), Ok(()));
    assert_eq!(m_ata_a.amount, 1000);
    let r = make(&mut ledger, &m, 1, &a, &b, 500, 1000, &mut m_ata_a);
    assert_eq!(r, Err(EscrowError::ConstraintMismatch));
    assert_eq!(m_ata_a.amount, 1000);
    assert_eq!(ledger.escrows.len(), 0);
    assert_eq!(make(&mut ledger, &m, 2, &a, &b, 500, 1000, &mut m_ata_a), Ok(()));
    assert_eq!(ledger.escrows.len(), 1);
    assert_eq!(ledger.escrows[0].record.nonce, 2);
}

#[test]
fn make_rejected_after_take_with_same_nonce() {
    let (mut ledger, m, t, a, b) = setup();
    let mut m_ata_a = account(a, m, 1000);
    assert_eq!(make(&mut ledger, &m, 1, &a, &b, 500, 1000, &mut m_ata_a), Ok(()));
    let mut t_ata_b = account(b, t, 500);
    let mut m_ata_b = account(b, m, 0);
    let mut t_ata_a = account(a, t, 0);
    assert_eq!(
        take(&mut ledger, &t, &m, 1, &a, &b, &mut t_ata_b, &mut m_ata_b, &mut t_ata_a),
        Ok(())
    );
    m_ata_a.amount = 1000;
    let r = make(&mut ledger, &m, 1, &a, &b, 500, 1000, &mut m_ata_a);
    assert_eq!(r, Err(EscrowError::ConstraintMismatch));
    assert_eq!(ledger.escrows.len(), 0);
}

#[test]
fn custody_derivation_is_deterministic_and_not_an_input() {
    let program = addr(PROGRAM);
    let m = addr(MAKER);
    let first = derive_custody(&program, &m, 1).expect("a bump should exist");
    let second = derive_custody(&program, &m, 1).expect("a bump should exist");
    assert_eq!(first.0, second.0);
    assert_eq!(first.1, second.1);
    assert!(!addr_eq(&first.0, &m));
    assert!(!addr_eq(&first.0, &program));
    let other_nonce = derive_custody(&program, &m, 2).expect("a bump should exist");
    assert!(!addr_eq(&first.0, &other_nonce.0));
}

#[test]
fn make_stores_the_derived_custody_address() {
    let (mut ledger, m, _t, a, b) = setup();
    let mut m_ata_a = account(a, m, 1000);
    assert_eq!(make(&mut ledger, &m, 1, &a, &b, 500, 1000, &mut m_ata_a), Ok(()));
    let derived = derive_custody(&addr(PROGRAM), &m, 1).expect("a bump should exist");
    assert!(addr_eq(&ledger.escrows[0].address, &derived.0));
    assert_eq!(ledger.escrows[0].record.custody_proof, derived.1);
}
