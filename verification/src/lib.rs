//! A crowdfunding program: a maker opens a fundraiser for a token mint,
//! contributors transfer tokens into its vault, the maker collects once the
//! target is reached, and contributors take their tokens back once the
//! fundraiser has ended without reaching it.
//!
//! The library decides every instruction over plain snapshots of the accounts
//! it is given and answers with the ordered effects to apply.

pub mod account;
pub mod behaviour;
pub mod accounting;
pub mod address;
pub mod bytes;
pub mod effects;
pub mod entrypoint;
pub mod error;
pub mod guarantees;
pub mod instructions;
pub mod laws;
pub mod state;
