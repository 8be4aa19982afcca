//! Escrow and settlement engine for multi-party token sales.
//!
//! A seller lists an amount of a sold token; buyers pay with NEAR or a
//! payment token during a funding window; after the release date buyers
//! claim the sold token (or a refund when the seller did not cover the sale)
//! and the seller collects payments, fees and any excess sold token.
//! Every operation that moves an asset out of the escrow mutates the ledger
//! first and returns a transfer request; the outcome of that transfer is fed
//! back to a resolve operation that keeps or exactly reverses the mutation.

pub mod arith;
pub mod types;
pub mod parse;
pub mod ledger;
pub mod buyer;
pub mod sale;
pub mod laws;
pub mod contract;
pub mod now;
