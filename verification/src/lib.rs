//! An order escrow: a buyer locks the price of an order in the contract, and
//! the funds go to the seller on release, back to the buyer on refund, or
//! either way by the admin's decision once a party disputes the escrow.
//!
//! `rules` decides each operation from the storage entries it reads;
//! `contract` runs those decisions over the whole storage; `laws` states
//! what holds across operations.
use vstd::prelude::*;

pub mod errors;
pub mod types;
pub mod events;
pub mod rules;
pub mod contract;
pub mod laws;
pub mod operation_laws;

verus! {

} // verus!
