//! Laws of the escrow lifecycle, stated over the outcomes that `make`,
//! `take` and `refund` follow exactly.
use crate::address::{escrow_authority, Address};
use crate::escrow::{expired, EscrowError, EscrowState};
use crate::ledger::{account_key, LedgerError};
use vstd::prelude::*;

verus! {

/// A successful `make` adds exactly one record, at the derived authority,
/// and exactly one custody account, which holds exactly the deposit, all of
/// it taken from the maker.
pub proof fn lemma_make_opens_one_funded_escrow(
    s: EscrowState,
    maker: Address,
    mint_a: Address,
    mint_b: Address,
    seed: u64,
    deposit: u64,
    receive: u64,
    open_in: i64,
    now: i64,
)
    requires
        deposit > 0,
        receive > 0,
        s.make_outcome(maker, mint_a, mint_b, seed, deposit, receive, open_in, now) is Ok,
    ensures
        ({
            let next = s.make_outcome(maker, mint_a, mint_b, seed, deposit, receive, open_in, now)->Ok_0;
            let auth = escrow_authority(s.program_id, maker, seed)->Some_0.0;
            &&& !s.records.contains_key(auth)
            &&& next.records.dom() == s.records.dom().insert(auth)
            &&& next.records[auth].maker == maker
            &&& next.records[auth].mint_a == mint_a
            &&& next.records[auth].mint_b == mint_b
            &&& next.records[auth].receive == receive
            &&& !s.ledger.has_account(auth, mint_a)
            &&& next.ledger.accounts.dom() == s.ledger.accounts.dom().insert(account_key(auth, mint_a))
            &&& next.custody_balance(auth) == deposit
            &&& next.ledger.balance_of(maker, mint_a) + deposit == s.ledger.balance_of(maker, mint_a)
        }),
{
    let next = s.make_outcome(maker, mint_a, mint_b, seed, deposit, receive, open_in, now)->Ok_0;
    let auth = escrow_authority(s.program_id, maker, seed)->Some_0.0;
    let opened = s.ledger.opened(auth, mint_a);
    assert(maker != auth) by {
        if maker == auth {
            assert(opened.balance_of(maker, mint_a) == 0);
        }
    }
    assert(next.records.dom() =~= s.records.dom().insert(auth));
    assert(next.ledger.accounts.dom() =~= s.ledger.accounts.dom().insert(account_key(auth, mint_a)));
}

/// `make` with valid terms succeeds whenever the authority can be derived,
/// nothing is open there yet, and the maker can pay the deposit (an
/// unfrozen account holding enough, whitelisted where the mint asks it).
pub proof fn lemma_make_succeeds_when_funded(
    s: EscrowState,
    maker: Address,
    mint_a: Address,
    mint_b: Address,
    seed: u64,
    deposit: u64,
    receive: u64,
    open_in: i64,
    now: i64,
)
    requires
        deposit > 0,
        receive > 0,
        open_in >= 0,
        now + open_in <= i64::MAX,
        escrow_authority(s.program_id, maker, seed) is Some,
        ({
            let auth = escrow_authority(s.program_id, maker, seed)->Some_0.0;
            &&& auth != maker
            &&& !s.records.contains_key(auth)
            &&& !s.ledger.has_account(auth, mint_a)
        }),
        s.ledger.has_account(maker, mint_a),
        !s.ledger.is_frozen(maker, mint_a),
        s.ledger.balance_of(maker, mint_a) >= deposit,
        s.ledger.may_send(mint_a, maker),
    ensures
        s.make_outcome(maker, mint_a, mint_b, seed, deposit, receive, open_in, now) is Ok,
{
}

/// A second `make` with the same maker and seed fails, whatever else it
/// asks: with `AlreadyExists` when its amounts and expiry are valid.
pub proof fn lemma_make_twice_fails(
    s: EscrowState,
    maker: Address,
    seed: u64,
    first: (Address, Address, u64, u64, i64, i64),
    second: (Address, Address, u64, u64, i64, i64),
)
    requires
        s.make_outcome(maker, first.0, first.1, seed, first.2, first.3, first.4, first.5) is Ok,
    ensures
        ({
            let next = s.make_outcome(maker, first.0, first.1, seed, first.2, first.3, first.4, first.5)->Ok_0;
            let again = next.make_outcome(maker, second.0, second.1, seed, second.2, second.3, second.4, second.5);
            &&& again is Err
            &&& second.2 > 0 && second.3 > 0 && second.4 >= 0 && second.5 + second.4 <= i64::MAX ==> again
                == Err::<EscrowState, EscrowError>(EscrowError::AlreadyExists)
        }),
{
}

/// When the ledger refuses the taker's payment to the maker, `take` fails
/// with that refusal, so nothing moves out of custody and the escrow stays open.
pub proof fn lemma_take_payment_refused(s: EscrowState, taker: Address, escrow: Address, now: i64)
    requires
        s.records.contains_key(escrow),
        !expired(s.records[escrow], now),
        ({
            let rec = s.records[escrow];
            s.ledger.ensured(rec.maker, rec.mint_b).ensured(taker, rec.mint_a).transfer_error(
                rec.mint_b,
                taker,
                rec.maker,
                rec.receive,
            ) is Some
        }),
    ensures
        ({
            let rec = s.records[escrow];
            let e = s.ledger.ensured(rec.maker, rec.mint_b).ensured(taker, rec.mint_a).transfer_error(
                rec.mint_b,
                taker,
                rec.maker,
                rec.receive,
            )->Some_0;
            s.take_outcome(taker, escrow, now) == Err::<EscrowState, EscrowError>(EscrowError::Transfer(e))
        }),
{
}

/// A `take` before expiry that the ledger allows (no frozen account, the
/// taker holding the amount asked, both senders whitelisted where the mints
/// ask it, no overflow) pays the maker exactly the amount asked, gives the
/// taker the whole custody balance, and closes the escrow.
pub proof fn lemma_take_settles(s: EscrowState, taker: Address, escrow: Address, now: i64)
    requires
        s.custody_held(),
        s.records.contains_key(escrow),
        !expired(s.records[escrow], now),
        ({
            let rec = s.records[escrow];
            &&& taker != rec.maker
            &&& taker != escrow
            &&& rec.maker != escrow
            &&& rec.mint_a != rec.mint_b
            &&& s.ledger.has_account(taker, rec.mint_b)
            &&& !s.ledger.is_frozen(taker, rec.mint_b)
            &&& !s.ledger.is_frozen(rec.maker, rec.mint_b)
            &&& !s.ledger.is_frozen(taker, rec.mint_a)
            &&& !s.ledger.is_frozen(escrow, rec.mint_a)
            &&& s.ledger.balance_of(taker, rec.mint_b) >= rec.receive
            &&& s.ledger.balance_of(rec.maker, rec.mint_b) + rec.receive <= u64::MAX
            &&& s.ledger.balance_of(taker, rec.mint_a) + s.custody_balance(escrow) <= u64::MAX
            &&& s.ledger.may_send(rec.mint_b, taker)
            &&& s.ledger.may_send(rec.mint_a, escrow)
        }),
    ensures
        ({
            let rec = s.records[escrow];
            let out = s.take_outcome(taker, escrow, now);
            &&& out is Ok
            &&& out->Ok_0.records == s.records.remove(escrow)
            &&& out->Ok_0.ledger.balance_of(rec.maker, rec.mint_b) == s.ledger.balance_of(rec.maker, rec.mint_b)
                + rec.receive
            &&& out->Ok_0.ledger.balance_of(taker, rec.mint_b) + rec.receive == s.ledger.balance_of(taker, rec.mint_b)
            &&& out->Ok_0.ledger.balance_of(taker, rec.mint_a) == s.ledger.balance_of(taker, rec.mint_a)
                + s.custody_balance(escrow)
            &&& !out->Ok_0.ledger.has_account(escrow, rec.mint_a)
        }),
{
    let rec = s.records[escrow];
    assert(s.ledger.has_account(escrow, rec.mint_a));
}

/// `refund` by anyone but the escrow's maker fails with `Unauthorized`.
pub proof fn lemma_refund_only_by_maker(s: EscrowState, caller: Address, escrow: Address)
    requires
        s.records.contains_key(escrow),
        caller != s.records[escrow].maker,
    ensures
        s.refund_outcome(caller, escrow) == Err::<EscrowState, EscrowError>(EscrowError::Unauthorized),
{
}

/// `take` at or after the expiry fails with `Expired`.
pub proof fn lemma_take_after_expiry_fails(s: EscrowState, taker: Address, escrow: Address, now: i64)
    requires
        s.records.contains_key(escrow),
        s.records[escrow].expires_at matches Some(t) && now >= t,
    ensures
        s.take_outcome(taker, escrow, now) == Err::<EscrowState, EscrowError>(EscrowError::Expired),
{
}

/// The maker's `refund` succeeds whenever the ledger lets the custody
/// balance reach the maker (neither account frozen, the custody authority
/// whitelisted where the mint asks it, no overflow): the maker gets the
/// whole custody balance back and the escrow is gone. The outcome takes no
/// time, so expiry never blocks it.
pub proof fn lemma_refund_by_maker_succeeds(s: EscrowState, escrow: Address)
    requires
        s.custody_held(),
        s.records.contains_key(escrow),
        ({
            let rec = s.records[escrow];
            &&& rec.maker != escrow
            &&& !s.ledger.is_frozen(escrow, rec.mint_a)
            &&& !s.ledger.is_frozen(rec.maker, rec.mint_a)
            &&& s.ledger.may_send(rec.mint_a, escrow)
            &&& s.ledger.balance_of(rec.maker, rec.mint_a) + s.custody_balance(escrow) <= u64::MAX
        }),
    ensures
        ({
            let rec = s.records[escrow];
            let out = s.refund_outcome(rec.maker, escrow);
            &&& out is Ok
            &&& !out->Ok_0.records.contains_key(escrow)
            &&& out->Ok_0.ledger.balance_of(rec.maker, rec.mint_a) == s.ledger.balance_of(rec.maker, rec.mint_a)
                + s.custody_balance(escrow)
            &&& !out->Ok_0.ledger.has_account(escrow, rec.mint_a)
        }),
{
    let rec = s.records[escrow];
    assert(s.ledger.has_account(escrow, rec.mint_a));
}

/// Once an escrow is settled or cancelled it is gone: a later `take` or
/// `refund` on it fails with `NotFound`.
pub proof fn lemma_closed_escrow_is_gone(
    s: EscrowState,
    escrow: Address,
    closer: Address,
    now: i64,
    later: Address,
    later_now: i64,
    by_take: bool,
)
    requires
        by_take ==> s.take_outcome(closer, escrow, now) is Ok,
        !by_take ==> s.refund_outcome(closer, escrow) is Ok,
    ensures
        ({
            let next = if by_take {
                s.take_outcome(closer, escrow, now)->Ok_0
            } else {
                s.refund_outcome(closer, escrow)->Ok_0
            };
            &&& next.take_outcome(later, escrow, later_now) == Err::<EscrowState, EscrowError>(EscrowError::NotFound)
            &&& next.refund_outcome(later, escrow) == Err::<EscrowState, EscrowError>(EscrowError::NotFound)
        }),
{
}

} // verus!
