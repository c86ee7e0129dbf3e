//! A verified raffle core.
//!
//! A creator opens a sale window, participants buy numbered tickets by
//! depositing funds into an escrow custodian, a weak pseudo-random draw
//! selects a winning ticket after the window closes, the winner claims a
//! majority share of the escrowed funds, and the creator later sweeps the
//! remainder and retires the raffle.
//!
//! This crate holds the state machine and its escrow arithmetic as pure,
//! verified functions over plain values. The host environment (signer
//! authentication, account storage, the clock, and the fund-transfer
//! primitive) supplies the inputs — current time, slot counter, escrow
//! balance, retained minimum — and performs the transfers and record
//! writes that the functions here decide on.

pub mod codec;
pub mod errors;
pub mod laws;
pub mod ops;
pub mod state;
