use anchor_escrow::address::{derive_escrow_authority, Address};
use anchor_escrow::escrow::{EscrowError, EscrowProgram};
use anchor_escrow::ledger::{Ledger, LedgerError};

fn addr(b: u8) -> Address {
    Address::new([b; 32])
}

struct World {
    program: EscrowProgram,
    maker: Address,
    taker: Address,
    mint_a: Address,
    mint_b: Address,
}

fn world() -> World {
    let maker = addr(1);
    let taker = addr(2);
    let mint_a = addr(10);
    let mint_b = addr(11);
    let mut ledger = Ledger::new();
    ledger.open_account(&maker, &mint_a).unwrap();
    ledger.open_account(&taker, &mint_b).unwrap();
    ledger.mint_token(&maker, &mint_a, 1_000).unwrap();
    ledger.mint_token(&taker, &mint_b, 1_000).unwrap();
    World { program: EscrowProgram::new(addr(200), ledger), maker, taker, mint_a, mint_b }
}

fn bal(w: &World, owner: &Address, mint: &Address) -> u64 {
    w.program.ledger.balance(owner, mint)
}

#[test]
fn scenario_a_take_settles_both_legs() {
    let mut w = world();
    let (maker, taker, mint_a, mint_b) = (w.maker, w.taker, w.mint_a, w.mint_b);
    let escrow = w.program.make(&maker, &mint_a, &mint_b, 1, 100, 50, 1000, 0).unwrap();
    assert_eq!(bal(&w, &escrow, &mint_a), 100);
    let maker_b = bal(&w, &maker, &mint_b);
    let taker_a = bal(&w, &taker, &mint_a);
    w.program.take(&taker, &escrow, 10).unwrap();
    assert_eq!(bal(&w, &maker, &mint_b), maker_b + 50);
    assert_eq!(bal(&w, &taker, &mint_a), taker_a + 100);
    assert_eq!(bal(&w, &taker, &mint_b), 950);
    assert_eq!(bal(&w, &maker, &mint_a), 900);
    assert!(!w.program.ledger.has_token_account(&escrow, &mint_a));
    assert!(!w.program.records.contains(&escrow));
}

#[test]
fn scenario_b_expired_take_fails_then_refund() {
    let mut w = world();
    let (maker, taker, mint_a, mint_b) = (w.maker, w.taker, w.mint_a, w.mint_b);
    let escrow = w.program.make(&maker, &mint_a, &mint_b, 2, 10, 5, 1, 100).unwrap();
    let maker_a = bal(&w, &maker, &mint_a);
    assert_eq!(w.program.take(&taker, &escrow, 101), Err(EscrowError::Expired));
    assert!(w.program.records.contains(&escrow));
    w.program.refund(&maker, &escrow).unwrap();
    assert_eq!(bal(&w, &maker, &mint_a), maker_a + 10);
    assert!(!w.program.records.contains(&escrow));
    assert!(!w.program.ledger.has_token_account(&escrow, &mint_a));
}

#[test]
fn scenario_c_second_take_finds_nothing() {
    let mut w = world();
    let (maker, taker, mint_a, mint_b) = (w.maker, w.taker, w.mint_a, w.mint_b);
    let other = addr(3);
    w.program.ledger.open_account(&other, &mint_b).unwrap();
    w.program.ledger.mint_token(&other, &mint_b, 500).unwrap();
    let escrow = w.program.make(&maker, &mint_a, &mint_b, 7, 100, 50, 0, 0).unwrap();
    assert_eq!(w.program.take(&taker, &escrow, 5), Ok(()));
    assert_eq!(w.program.take(&other, &escrow, 5), Err(EscrowError::NotFound));
    assert_eq!(bal(&w, &other, &mint_b), 500);
    assert_eq!(bal(&w, &maker, &mint_b), 50);
    assert_eq!(w.program.refund(&maker, &escrow), Err(EscrowError::NotFound));
}

#[test]
fn make_creates_one_funded_custody_account() {
    let mut w = world();
    let (maker, mint_a, mint_b) = (w.maker, w.mint_a, w.mint_b);
    let before = w.program.records.entries.len();
    let escrow = w.program.make(&maker, &mint_a, &mint_b, 3, 250, 9, 60, 1000).unwrap();
    assert_eq!(w.program.records.entries.len(), before + 1);
    let rec = w.program.records.get(&escrow).unwrap();
    assert_eq!(rec.maker, maker);
    assert_eq!(rec.seed, 3);
    assert_eq!(rec.mint_a, mint_a);
    assert_eq!(rec.mint_b, mint_b);
    assert_eq!(rec.receive, 9);
    assert_eq!(rec.expires_at, Some(1060));
    assert_eq!(bal(&w, &escrow, &mint_a), 250);
    assert_eq!(bal(&w, &maker, &mint_a), 750);
    let (derived, bump) = derive_escrow_authority(&addr(200), &maker, 3).unwrap();
    assert_eq!(derived, escrow);
    assert_eq!(rec.bump, bump);
}

#[test]
fn make_twice_with_same_seed_fails() {
    let mut w = world();
    let (maker, mint_a, mint_b) = (w.maker, w.mint_a, w.mint_b);
    let escrow = w.program.make(&maker, &mint_a, &mint_b, 4, 10, 10, 0, 0).unwrap();
    assert_eq!(w.program.make(&maker, &mint_a, &mint_b, 4, 20, 5, 0, 0), Err(EscrowError::AlreadyExists));
    assert_eq!(w.program.make(&maker, &mint_b, &mint_a, 4, 20, 5, 0, 0), Err(EscrowError::AlreadyExists));
    assert_eq!(bal(&w, &escrow, &mint_a), 10);
    assert_eq!(bal(&w, &maker, &mint_a), 990);
    assert!(w.program.make(&maker, &mint_a, &mint_b, 5, 10, 10, 0, 0).is_ok());
}

#[test]
fn make_refused_when_custody_account_exists() {
    let mut w = world();
    let (maker, mint_a, mint_b) = (w.maker, w.mint_a, w.mint_b);
    let (escrow, _) = derive_escrow_authority(&addr(200), &maker, 9).unwrap();
    w.program.ledger.open_account(&escrow, &mint_a).unwrap();
    assert_eq!(w.program.make(&maker, &mint_a, &mint_b, 9, 10, 10, 0, 0), Err(EscrowError::AlreadyExists));
    assert_eq!(bal(&w, &maker, &mint_a), 1000);
}

#[test]
fn take_refused_by_whitelist_keeps_everything() {
    let mut w = world();
    let (maker, taker, mint_a, mint_b) = (w.maker, w.taker, w.mint_a, w.mint_b);
    let escrow = w.program.make(&maker, &mint_a, &mint_b, 1, 100, 50, 0, 0).unwrap();
    w.program.ledger.restrict_mint(&mint_b);
    assert_eq!(w.program.take(&taker, &escrow, 0), Err(EscrowError::Transfer(LedgerError::NotWhitelisted)));
    assert_eq!(bal(&w, &escrow, &mint_a), 100);
    assert_eq!(bal(&w, &taker, &mint_b), 1000);
    assert!(!w.program.ledger.has_token_account(&taker, &mint_a));
    assert!(!w.program.ledger.has_token_account(&maker, &mint_b));
    assert!(w.program.records.contains(&escrow));
    w.program.ledger.initialize_whitelist(&taker).unwrap();
    assert_eq!(w.program.take(&taker, &escrow, 0), Ok(()));
    assert_eq!(bal(&w, &taker, &mint_a), 100);
}

#[test]
fn take_with_too_little_to_pay_fails() {
    let mut w = world();
    let (maker, taker, mint_a, mint_b) = (w.maker, w.taker, w.mint_a, w.mint_b);
    let escrow = w.program.make(&maker, &mint_a, &mint_b, 1, 100, 5000, 0, 0).unwrap();
    assert_eq!(w.program.take(&taker, &escrow, 0), Err(EscrowError::Transfer(LedgerError::InsufficientFunds)));
    assert_eq!(bal(&w, &escrow, &mint_a), 100);
    assert!(w.program.records.contains(&escrow));
}

#[test]
fn refund_by_someone_else_is_refused() {
    let mut w = world();
    let (maker, taker, mint_a, mint_b) = (w.maker, w.taker, w.mint_a, w.mint_b);
    let escrow = w.program.make(&maker, &mint_a, &mint_b, 1, 100, 50, 0, 0).unwrap();
    assert_eq!(w.program.refund(&taker, &escrow), Err(EscrowError::Unauthorized));
    assert_eq!(w.program.refund(&escrow, &escrow), Err(EscrowError::Unauthorized));
    assert_eq!(bal(&w, &escrow, &mint_a), 100);
    assert_eq!(bal(&w, &maker, &mint_a), 900);
    assert!(w.program.records.contains(&escrow));
}

#[test]
fn expiry_boundary_and_refund_before_expiry() {
    let mut w = world();
    let (maker, taker, mint_a, mint_b) = (w.maker, w.taker, w.mint_a, w.mint_b);
    let first = w.program.make(&maker, &mint_a, &mint_b, 1, 100, 50, 10, 0).unwrap();
    assert_eq!(w.program.take(&taker, &first, 10), Err(EscrowError::Expired));
    assert_eq!(w.program.take(&taker, &first, 9), Ok(()));
    let second = w.program.make(&maker, &mint_a, &mint_b, 2, 30, 5, 10, 0).unwrap();
    assert_eq!(w.program.refund(&maker, &second), Ok(()));
    assert_eq!(bal(&w, &maker, &mint_a), 900);
}

#[test]
fn zero_offset_never_expires() {
    let mut w = world();
    let (maker, taker, mint_a, mint_b) = (w.maker, w.taker, w.mint_a, w.mint_b);
    let escrow = w.program.make(&maker, &mint_a, &mint_b, 1, 100, 50, 0, 5).unwrap();
    assert_eq!(w.program.records.get(&escrow).unwrap().expires_at, None);
    assert_eq!(w.program.take(&taker, &escrow, i64::MAX), Ok(()));
}

#[test]
fn make_rejects_bad_terms() {
    let mut w = world();
    let (maker, mint_a, mint_b) = (w.maker, w.mint_a, w.mint_b);
    assert_eq!(w.program.make(&maker, &mint_a, &mint_b, 1, 0, 50, 0, 0), Err(EscrowError::InvalidAmount));
    assert_eq!(w.program.make(&maker, &mint_a, &mint_b, 1, 10, 0, 0, 0), Err(EscrowError::InvalidAmount));
    assert_eq!(w.program.make(&maker, &mint_a, &mint_b, 1, 10, 5, -1, 0), Err(EscrowError::InvalidExpiry));
    assert_eq!(w.program.make(&maker, &mint_a, &mint_b, 1, 10, 5, 2, i64::MAX - 1), Err(EscrowError::InvalidExpiry));
    assert_eq!(w.program.records.entries.len(), 0);
    assert_eq!(bal(&w, &maker, &mint_a), 1000);
}

#[test]
fn make_fails_on_the_deposit_leg() {
    let mut w = world();
    let (maker, taker, mint_a, mint_b) = (w.maker, w.taker, w.mint_a, w.mint_b);
    assert_eq!(
        w.program.make(&maker, &mint_a, &mint_b, 1, 1001, 5, 0, 0),
        Err(EscrowError::Transfer(LedgerError::InsufficientFunds))
    );
    assert_eq!(
        w.program.make(&taker, &mint_a, &mint_b, 1, 10, 5, 0, 0),
        Err(EscrowError::Transfer(LedgerError::AccountNotFound))
    );
    w.program.ledger.set_frozen(&maker, &mint_a, true).unwrap();
    assert_eq!(
        w.program.make(&maker, &mint_a, &mint_b, 1, 10, 5, 0, 0),
        Err(EscrowError::Transfer(LedgerError::AccountFrozen))
    );
    let (escrow, _) = derive_escrow_authority(&addr(200), &maker, 1).unwrap();
    assert!(!w.program.ledger.has_token_account(&escrow, &mint_a));
    assert!(!w.program.records.contains(&escrow));
}

#[test]
fn take_fails_when_maker_cannot_receive() {
    let mut w = world();
    let (maker, taker, mint_a, mint_b) = (w.maker, w.taker, w.mint_a, w.mint_b);
    w.program.ledger.open_account(&maker, &mint_b).unwrap();
    w.program.ledger.mint_token(&maker, &mint_b, u64::MAX - 10).unwrap();
    let escrow = w.program.make(&maker, &mint_a, &mint_b, 1, 100, 50, 0, 0).unwrap();
    assert_eq!(w.program.take(&taker, &escrow, 0), Err(EscrowError::Transfer(LedgerError::Overflow)));
    assert_eq!(bal(&w, &taker, &mint_b), 1000);
    assert!(w.program.records.contains(&escrow));
}

#[test]
fn unknown_escrow_is_not_found() {
    let mut w = world();
    let (maker, taker) = (w.maker, w.taker);
    assert_eq!(w.program.take(&taker, &addr(99), 0), Err(EscrowError::NotFound));
    assert_eq!(w.program.refund(&maker, &addr(99)), Err(EscrowError::NotFound));
}

#[test]
fn make_with_authority_opens_at_the_given_authority() {
    let mut w = world();
    let (maker, taker, mint_a, mint_b) = (w.maker, w.taker, w.mint_a, w.mint_b);
    let auth = addr(77);
    assert_eq!(
        w.program.make_with_authority(&auth, 250, &maker, &mint_a, &mint_b, 8, 2000, 5, 0, 0),
        Err(EscrowError::Transfer(LedgerError::InsufficientFunds))
    );
    assert_eq!(w.program.make_with_authority(&auth, 250, &maker, &mint_a, &mint_b, 8, 60, 5, 10, 3), Ok(()));
    assert_eq!(
        w.program.make_with_authority(&auth, 250, &maker, &mint_a, &mint_b, 8, 60, 5, 10, 3),
        Err(EscrowError::AlreadyExists)
    );
    let rec = w.program.records.get(&auth).unwrap();
    assert_eq!(rec.bump, 250);
    assert_eq!(rec.expires_at, Some(13));
    assert_eq!(bal(&w, &auth, &mint_a), 60);
    assert_eq!(w.program.take(&taker, &auth, 13), Err(EscrowError::Expired));
    assert_eq!(w.program.take(&taker, &auth, 12), Ok(()));
    assert_eq!(bal(&w, &taker, &mint_a), 60);
    assert_eq!(bal(&w, &maker, &mint_b), 5);
}
