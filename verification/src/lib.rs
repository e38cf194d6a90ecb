//! The accounting and authorization core of a custodial token vault.
//!
//! One owner sets up a vault for one token type. Other parties deposit into
//! it and withdraw from it, each up to what that party has deposited. The
//! vault's address, its signing authority and its custody account are
//! identities derived from seeds (`identity`, `seeds`). The records are in
//! `state`, the accounts of an operation and their rules in `accounts`, the
//! three operations in `instructions`, and the ledger as a whole in `ledger`.

pub mod accounts;
pub mod identity;
pub mod instructions;
pub mod ledger;
pub mod seeds;
pub mod state;
