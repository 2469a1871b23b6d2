//! The escrow state machine: `make` opens a record and funds its custody
//! account, `take` settles it, `refund` cancels it. Each operation runs on
//! a working copy of the ledger that is committed only when every step
//! succeeded, so a failed operation leaves the program exactly as it was.
use crate::address::{derive_escrow_authority, escrow_authority, Address};
use crate::ledger::{Ledger, LedgerError, LedgerState};
use crate::table::Table;
use vstd::prelude::*;

verus! {

/// The terms of one open escrow. The deposit itself is not recorded: it is
/// whatever the custody account holds.
#[derive(Clone, Copy, Debug)]
pub struct EscrowRecord {
    pub maker: Address,
    pub seed: u64,
    pub mint_a: Address,
    pub mint_b: Address,
    pub receive: u64,
    /// The time from which the escrow can no longer be taken; `None` when it never expires.
    pub expires_at: Option<i64>,
    pub bump: u8,
}

#[derive(Clone, Copy, Debug, PartialEq, Eq, Structural)]
pub enum EscrowError {
    /// A zero deposit or a zero amount to receive.
    InvalidAmount,
    /// A negative expiry offset, or one that puts the expiry past the largest time.
    InvalidExpiry,
    /// No custody authority can be derived from the maker and the seed.
    DerivationFailed,
    /// An escrow, or its custody account, already exists at the derived authority.
    AlreadyExists,
    /// No open escrow at the given authority.
    NotFound,
    /// The caller is not the escrow's maker.
    Unauthorized,
    /// The escrow is past its expiry.
    Expired,
    /// The ledger refused a step of the operation.
    Transfer(LedgerError),
}

/// The abstract state of an escrow program.
pub ghost struct EscrowState {
    pub program_id: Address,
    /// The open escrows, by custody authority.
    pub records: Map<Address, EscrowRecord>,
    pub ledger: LedgerState,
}

/// The expiry that an offset from `now` gives; an offset of zero sets none.
pub open spec fn expiry_from(now: i64, open_in: i64) -> Option<i64> {
    if open_in == 0 {
        None
    } else {
        Some((now + open_in) as i64)
    }
}

/// Whether a record has expired at `now`.
pub open spec fn expired(rec: EscrowRecord, now: i64) -> bool {
    match rec.expires_at {
        Some(t) => now >= t,
        None => false,
    }
}

impl EscrowState {
    /// Every open escrow has its custody account.
    pub open spec fn custody_held(self) -> bool {
        forall|a: Address| #[trigger] self.records.contains_key(a) ==> self.ledger.has_account(a, self.records[a].mint_a)
    }

    /// What the custody account of the escrow at `escrow` holds.
    pub open spec fn custody_balance(self, escrow: Address) -> nat {
        self.ledger.balance_of(escrow, self.records[escrow].mint_a)
    }

    /// Whether the terms of a new escrow are acceptable: amounts above zero
    /// and an expiry that fits.
    pub open spec fn terms_error(deposit: u64, receive: u64, open_in: i64, now: i64) -> Option<EscrowError> {
        if deposit == 0 || receive == 0 {
            Some(EscrowError::InvalidAmount)
        } else if open_in < 0 || now + open_in > i64::MAX {
            Some(EscrowError::InvalidExpiry)
        } else {
            None
        }
    }

    /// The outcome of `make_with_authority` at `auth`, with bump `bump`: the
    /// next state, or the error it stops with.
    pub open spec fn make_at_outcome(
        self,
        auth: Address,
        bump: u8,
        maker: Address,
        mint_a: Address,
        mint_b: Address,
        seed: u64,
        deposit: u64,
        receive: u64,
        open_in: i64,
        now: i64,
    ) -> Result<EscrowState, EscrowError> {
        match EscrowState::terms_error(deposit, receive, open_in, now) {
            Some(e) => Err(e),
            None => {
                if self.records.contains_key(auth) || self.ledger.has_account(auth, mint_a) {
                    Err(EscrowError::AlreadyExists)
                } else {
                    let opened = self.ledger.opened(auth, mint_a);
                    match opened.transfer_error(mint_a, maker, auth, deposit) {
                        Some(e) => Err(EscrowError::Transfer(e)),
                        None => Ok(
                            EscrowState {
                                records: self.records.insert(
                                    auth,
                                    EscrowRecord {
                                        maker,
                                        seed,
                                        mint_a,
                                        mint_b,
                                        receive,
                                        expires_at: expiry_from(now, open_in),
                                        bump,
                                    },
                                ),
                                ledger: opened.transferred(mint_a, maker, auth, deposit),
                                ..self
                            },
                        ),
                    }
                }
            },
        }
    }

    /// The outcome of `make`: the terms are checked, the custody authority
    /// is derived, and the escrow is opened there.
    pub open spec fn make_outcome(
        self,
        maker: Address,
        mint_a: Address,
        mint_b: Address,
        seed: u64,
        deposit: u64,
        receive: u64,
        open_in: i64,
        now: i64,
    ) -> Result<EscrowState, EscrowError> {
        match EscrowState::terms_error(deposit, receive, open_in, now) {
            Some(e) => Err(e),
            None => match escrow_authority(self.program_id, maker, seed) {
                None => Err(EscrowError::DerivationFailed),
                Some((auth, bump)) => self.make_at_outcome(
                    auth,
                    bump,
                    maker,
                    mint_a,
                    mint_b,
                    seed,
                    deposit,
                    receive,
                    open_in,
                    now,
                ),
            },
        }
    }

    /// The state after the custody account of `escrow` was emptied into the
    /// account of `to` and closed, with the record gone; or the error that
    /// stopped it. `ledger` is the ledger the release starts from.
    pub open spec fn release_outcome(self, ledger: LedgerState, escrow: Address, to: Address) -> Result<EscrowState, EscrowError> {
        let mint_a = self.records[escrow].mint_a;
        let held = ledger.balance_of(escrow, mint_a) as u64;
        match ledger.transfer_error(mint_a, escrow, to, held) {
            Some(e) => Err(EscrowError::Transfer(e)),
            None => {
                let emptied = ledger.transferred(mint_a, escrow, to, held);
                if emptied.balance_of(escrow, mint_a) != 0 {
                    Err(EscrowError::Transfer(LedgerError::NonZeroBalance))
                } else {
                    Ok(EscrowState { records: self.records.remove(escrow), ledger: emptied.closed(escrow, mint_a), ..self })
                }
            },
        }
    }

    /// The outcome of `take` by `taker` at `now`: the taker pays the maker,
    /// then receives the whole custody balance, and the escrow is closed.
    pub open spec fn take_outcome(self, taker: Address, escrow: Address, now: i64) -> Result<EscrowState, EscrowError> {
        if !self.records.contains_key(escrow) {
            Err(EscrowError::NotFound)
        } else {
            let rec = self.records[escrow];
            if expired(rec, now) {
                Err(EscrowError::Expired)
            } else {
                let ready = self.ledger.ensured(rec.maker, rec.mint_b).ensured(taker, rec.mint_a);
                match ready.transfer_error(rec.mint_b, taker, rec.maker, rec.receive) {
                    Some(e) => Err(EscrowError::Transfer(e)),
                    None => self.release_outcome(
                        ready.transferred(rec.mint_b, taker, rec.maker, rec.receive),
                        escrow,
                        taker,
                    ),
                }
            }
        }
    }

    /// The outcome of `refund` asked by `caller`: the maker gets the whole
    /// custody balance back and the escrow is closed, whatever the time.
    pub open spec fn refund_outcome(self, caller: Address, escrow: Address) -> Result<EscrowState, EscrowError> {
        if !self.records.contains_key(escrow) {
            Err(EscrowError::NotFound)
        } else {
            let rec = self.records[escrow];
            if caller != rec.maker {
                Err(EscrowError::Unauthorized)
            } else {
                self.release_outcome(self.ledger.ensured(rec.maker, rec.mint_a), escrow, rec.maker)
            }
        }
    }
}

/// The escrow program: its id, the open escrows by custody authority, and
/// the ledger they hold funds on.
pub struct EscrowProgram {
    pub program_id: Address,
    pub records: Table<Address, EscrowRecord>,
    pub ledger: Ledger,
}

impl View for EscrowProgram {
    type V = EscrowState;

    open spec fn view(&self) -> EscrowState {
        EscrowState { program_id: self.program_id, records: self.records.view(), ledger: self.ledger@ }
    }
}

impl EscrowProgram {
    pub open spec fn wf(&self) -> bool {
        &&& self.records.wf()
        &&& self.ledger.wf()
        &&& self@.custody_held()
    }

    /// A program with no escrows, over the given ledger.
    pub fn new(program_id: Address, ledger: Ledger) -> (r: EscrowProgram)
        requires
            ledger.wf(),
        ensures
            r.wf(),
            r@.program_id == program_id,
            r@.records == Map::<Address, EscrowRecord>::empty(),
            r@.ledger == ledger@,
    {
        EscrowProgram { program_id, records: Table::new(), ledger }
    }

    /// Opens an escrow: `maker` locks `deposit` of `mint_a` in a new custody
    /// account controlled by the authority derived from `maker` and `seed`,
    /// asking `receive` of `mint_b` in return. An `open_in` of zero sets no
    /// expiry; otherwise the escrow expires at `now + open_in`. Returns the
    /// custody authority, which is also where the record lives.
    pub fn make(
        &mut self,
        maker: &Address,
        mint_a: &Address,
        mint_b: &Address,
        seed: u64,
        deposit: u64,
        receive: u64,
        open_in: i64,
        now: i64,
    ) -> (r: Result<Address, EscrowError>)
        requires
            old(self).wf(),
        ensures
            final(self).wf(),
            match old(self)@.make_outcome(*maker, *mint_a, *mint_b, seed, deposit, receive, open_in, now) {
                Ok(next) => final(self)@ == next && r == Ok::<Address, EscrowError>(
                    escrow_authority(old(self)@.program_id, *maker, seed)->Some_0.0,
                ),
                Err(e) => r == Err::<Address, EscrowError>(e) && final(self)@ == old(self)@,
            },
    {
        if deposit == 0 || receive == 0 {
            return Err(EscrowError::InvalidAmount);
        }
        if open_in < 0 || now > i64::MAX - open_in {
            return Err(EscrowError::InvalidExpiry);
        }
        let (auth, bump) = match derive_escrow_authority(&self.program_id, maker, seed) {
            None => return Err(EscrowError::DerivationFailed),
            Some(found) => found,
        };
        match self.make_with_authority(&auth, bump, maker, mint_a, mint_b, seed, deposit, receive, open_in, now) {
            Err(e) => Err(e),
            Ok(()) => Ok(auth),
        }
    }

    /// Opens an escrow at `auth`, the custody authority derived for `maker`
    /// and `seed` with bump `bump`: checks the terms, creates the custody
    /// account and moves the deposit into it. `make` derives the authority
    /// and calls this.
    pub fn make_with_authority(
        &mut self,
        auth: &Address,
        bump: u8,
        maker: &Address,
        mint_a: &Address,
        mint_b: &Address,
        seed: u64,
        deposit: u64,
        receive: u64,
        open_in: i64,
        now: i64,
    ) -> (r: Result<(), EscrowError>)
        requires
            old(self).wf(),
        ensures
            final(self).wf(),
            match old(self)@.make_at_outcome(*auth, bump, *maker, *mint_a, *mint_b, seed, deposit, receive, open_in, now) {
                Ok(next) => r is Ok && final(self)@ == next,
                Err(e) => r == Err::<(), EscrowError>(e) && final(self)@ == old(self)@,
            },
    {
        if deposit == 0 || receive == 0 {
            return Err(EscrowError::InvalidAmount);
        }
        if open_in < 0 || now > i64::MAX - open_in {
            return Err(EscrowError::InvalidExpiry);
        }
        let expires_at = if open_in == 0 { None } else { Some(now + open_in) };
        if self.records.contains(auth) || self.ledger.has_token_account(auth, mint_a) {
            return Err(EscrowError::AlreadyExists);
        }
        let mut work = self.ledger.snapshot();
        match work.open_account(auth, mint_a) {
            Err(e) => return Err(EscrowError::Transfer(e)),
            Ok(()) => {},
        }
        match work.transfer(mint_a, maker, auth, deposit) {
            Err(e) => return Err(EscrowError::Transfer(e)),
            Ok(()) => {},
        }
        let rec = EscrowRecord {
            maker: *maker,
            seed,
            mint_a: *mint_a,
            mint_b: *mint_b,
            receive,
            expires_at,
            bump,
        };
        self.ledger = work;
        self.records.set(*auth, rec);
        proof {
            let s = old(self)@;
            assert(self@.records == s.records.insert(*auth, rec));
            assert forall|a: Address| #[trigger] self@.records.contains_key(a) implies self@.ledger.has_account(
                a,
                self@.records[a].mint_a,
            ) by {
                if a != *auth {
                    assert(s.records.contains_key(a));
                }
            }
        }
        Ok(())
    }

    /// Empties the custody account of `escrow` into the account of `to` on
    /// `work`, closes it, and commits `work` and the removal of the record.
    fn release(&mut self, work: Ledger, escrow: &Address, rec: EscrowRecord, to: &Address) -> (r: Result<(), EscrowError>)
        requires
            old(self).wf(),
            work.wf(),
            old(self)@.records.contains_key(*escrow),
            old(self)@.records[*escrow] == rec,
            forall|a: Address| #[trigger] old(self)@.records.contains_key(a) ==> work@.has_account(a, old(self)@.records[a].mint_a),
        ensures
            final(self).wf(),
            match old(self)@.release_outcome(work@, *escrow, *to) {
                Ok(next) => r is Ok && final(self)@ == next,
                Err(e) => r == Err::<(), EscrowError>(e) && final(self)@ == old(self)@,
            },
    {
        let mut work = work;
        let held = work.balance(escrow, &rec.mint_a);
        match work.transfer(&rec.mint_a, escrow, to, held) {
            Err(e) => return Err(EscrowError::Transfer(e)),
            Ok(()) => {},
        }
        match work.close_account(escrow, &rec.mint_a) {
            Err(e) => return Err(EscrowError::Transfer(e)),
            Ok(()) => {},
        }
        self.ledger = work;
        self.records.remove(escrow);
        proof {
            let s = old(self)@;
            assert forall|a: Address| #[trigger] self@.records.contains_key(a) implies self@.ledger.has_account(
                a,
                self@.records[a].mint_a,
            ) by {
                assert(s.records.contains_key(a) && a != *escrow);
            }
        }
        Ok(())
    }

    /// Settles the escrow at `escrow`: `taker` pays the maker the amount
    /// asked and receives everything in custody, and the escrow is closed.
    /// Refused once the escrow has expired at `now`.
    pub fn take(&mut self, taker: &Address, escrow: &Address, now: i64) -> (r: Result<(), EscrowError>)
        requires
            old(self).wf(),
        ensures
            final(self).wf(),
            match old(self)@.take_outcome(*taker, *escrow, now) {
                Ok(next) => r is Ok && final(self)@ == next,
                Err(e) => r == Err::<(), EscrowError>(e) && final(self)@ == old(self)@,
            },
    {
        let rec = match self.records.get(escrow) {
            None => return Err(EscrowError::NotFound),
            Some(rec) => rec,
        };
        match rec.expires_at {
            Some(t) => {
                if now >= t {
                    return Err(EscrowError::Expired);
                }
            },
            None => {},
        }
        let mut work = self.ledger.snapshot();
        work.ensure_account(&rec.maker, &rec.mint_b);
        work.ensure_account(taker, &rec.mint_a);
        match work.transfer(&rec.mint_b, taker, &rec.maker, rec.receive) {
            Err(e) => return Err(EscrowError::Transfer(e)),
            Ok(()) => {},
        }
        self.release(work, escrow, rec, taker)
    }

    /// Cancels the escrow at `escrow`: its maker, and only its maker, gets
    /// everything in custody back, at any time, and the escrow is closed.
    pub fn refund(&mut self, caller: &Address, escrow: &Address) -> (r: Result<(), EscrowError>)
        requires
            old(self).wf(),
        ensures
            final(self).wf(),
            match old(self)@.refund_outcome(*caller, *escrow) {
                Ok(next) => r is Ok && final(self)@ == next,
                Err(e) => r == Err::<(), EscrowError>(e) && final(self)@ == old(self)@,
            },
    {
        let rec = match self.records.get(escrow) {
            None => return Err(EscrowError::NotFound),
            Some(rec) => rec,
        };
        if !caller.same(&rec.maker) {
            return Err(EscrowError::Unauthorized);
        }
        let mut work = self.ledger.snapshot();
        work.ensure_account(&rec.maker, &rec.mint_a);
        self.release(work, escrow, rec, &rec.maker)
    }
}

} // verus!
