use vstd::prelude::*;

use crate::types::Address;

verus! {

/// What the contract publishes after an operation takes effect.
#[derive(Debug)]
pub enum EscrowEvent {
    /// An escrow was opened for an order.
    Created { escrow_id: u64, order_id: u64, buyer: Address, seller: Address, amount: i128 },
    /// The buyer paid the escrowed amount into the contract.
    Funded { escrow_id: u64, buyer: Address, amount: i128 },
    /// The escrowed amount was paid out to the seller.
    Released { escrow_id: u64, seller: Address, amount: i128 },
    /// The escrowed amount was paid back to the buyer.
    Refunded { escrow_id: u64, buyer: Address, amount: i128 },
    /// One of the parties disputed the escrow.
    Disputed { escrow_id: u64, caller: Address },
}

} // verus!
