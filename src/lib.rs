//! A trustless two-party escrow: a maker locks tokens of one mint under an
//! authority derived from the program, the maker and a seed, and a taker
//! settles by paying the requested amount of another mint, or the maker
//! takes the deposit back.
pub mod address;
pub mod escrow;
pub mod ledger;
pub mod lifecycle;
pub mod table;
