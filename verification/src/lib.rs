//! A crowdfunding escrow: campaigns with a goal and a deadline, donations held in
//! escrow at a program-derived address, and withdrawal by the campaign's authority.
//!
//! `model` states what each operation does to the ledger as a mathematical
//! value, `operations` carries it out on the `ledger` held in memory, and `laws`
//! proves what follows for every ledger and every sequence of calls.

pub mod address;
pub mod campaign;
pub mod derivation;
pub mod error;
pub mod laws;
pub mod ledger;
pub mod model;
pub mod operations;
