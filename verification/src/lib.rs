//! Settlement engine of a two-phase token offering.
//!
//! The offering alternates between a sale round, in which the treasury
//! sells freshly minted tokens at a price set by formula, and a trade
//! round, in which holders escrow tokens into listings that buyers redeem
//! at the listing's price. Every payment is split between the counterparty,
//! the treasury and up to two tiers of referrers.
//!
//! All records are plain values. The host stores them, reads the clock and
//! moves the real balances; this crate decides what is legal and how much
//! goes where.

pub mod account;
pub mod config;
pub mod context_admin;
pub mod context_user;
pub mod error;
pub mod event;
pub mod helpers;
pub mod instructions;
pub mod laws;
pub mod referral;
