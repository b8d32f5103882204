use vstd::prelude::*;

verus! {

/// Every way an escrow operation can be refused.
#[derive(Clone, Copy, Debug, PartialEq, Eq, Structural, PartialOrd, Ord)]
pub enum EscrowError {
    AlreadyInitialized,
    NotInitialized,
    AlreadyExists,
    NotFound,
    InvalidAmount,
    InvalidState,
    Unauthorized,
    SameBuyerSeller,
    OrderEscrowExists,
}

} // verus!
