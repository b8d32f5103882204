//! What each operation of the escrow contract decides from the entries of
//! contract storage that it reads. The host performs what is decided: it
//! demands the authorization, moves the tokens, writes the record and
//! publishes the event.
use vstd::prelude::*;

use crate::errors::EscrowError;
use crate::events::EscrowEvent;
use crate::types::{Address, DataKey, EscrowRecord, EscrowState};

verus! {

/// One side of a token transfer.
#[derive(Debug)]
pub enum Party {
    /// The escrow contract itself.
    Contract,
    /// An outside account or contract.
    Account(Address),
}

/// A movement of `amount` units of the token `token` from `from` to `to`.
#[derive(Debug)]
pub struct Transfer {
    pub token: Address,
    pub from: Party,
    pub to: Party,
    pub amount: i128,
}

/// One entry written to contract storage: a key and the value stored
/// under it.
#[derive(Debug)]
pub enum StorageWrite {
    /// The admin, under `DataKey::Admin`.
    Admin(Address),
    /// The record of escrow `escrow_id`, under `DataKey::Escrow(escrow_id)`.
    Escrow(u64, EscrowRecord),
    /// The escrow id of the order `order_id`, under
    /// `DataKey::OrderEscrow(order_id)`.
    OrderEscrow(u64, u64),
}

impl StorageWrite {
    /// The key written.
    pub open spec fn spec_key(self) -> DataKey {
        match self {
            StorageWrite::Admin(_) => DataKey::Admin,
            StorageWrite::Escrow(escrow_id, _) => DataKey::Escrow(escrow_id),
            StorageWrite::OrderEscrow(order_id, _) => DataKey::OrderEscrow(order_id),
        }
    }

    /// The key written.
    pub fn key(&self) -> (k: DataKey)
        ensures
            k == self.spec_key(),
    {
        match self {
            StorageWrite::Admin(_) => DataKey::Admin,
            StorageWrite::Escrow(escrow_id, _) => DataKey::Escrow(*escrow_id),
            StorageWrite::OrderEscrow(order_id, _) => DataKey::OrderEscrow(*order_id),
        }
    }
}

/// What an operation that touches an escrow does once it succeeds: the
/// record of escrow `escrow_id` that it stores (and returns), whether it
/// also indexes the record's order to the escrow, the tokens to move (if
/// any) and the event to publish.
#[derive(Debug)]
pub struct Settlement {
    pub escrow_id: u64,
    pub record: EscrowRecord,
    pub indexes_order: bool,
    pub transfer: Option<Transfer>,
    pub event: EscrowEvent,
}

impl Settlement {
    /// The storage entries written, in order: the record under its escrow
    /// id, then, for a new escrow, the index from its order to its id.
    pub open spec fn spec_writes(self) -> Seq<StorageWrite> {
        let record_write = seq![StorageWrite::Escrow(self.escrow_id, self.record)];
        if self.indexes_order {
            record_write.push(StorageWrite::OrderEscrow(self.record.order_id, self.escrow_id))
        } else {
            record_write
        }
    }

    /// The storage entries written, in order.
    pub fn writes(&self) -> (ws: Vec<StorageWrite>)
        ensures
            ws@ == self.spec_writes(),
    {
        let mut ws = Vec::new();
        ws.push(StorageWrite::Escrow(self.escrow_id, self.record.clone()));
        if self.indexes_order {
            ws.push(StorageWrite::OrderEscrow(self.record.order_id, self.escrow_id));
        }
        assert(ws@ =~= self.spec_writes());
        ws
    }
}

/// The decision of one operation. When `auth` names an address, the
/// operation demands that address's authorization before `result` takes
/// effect, and the whole call aborts if it is not given.
#[derive(Debug)]
pub struct Step<T> {
    pub auth: Option<Address>,
    pub result: Result<T, EscrowError>,
}

/// A step that demands no authorization and fails with `e`.
pub open spec fn refused<T>(e: EscrowError) -> Step<T> {
    Step { auth: None, result: Err(e) }
}

/// The entry that was read, or `NotFound` where there is none.
pub open spec fn found_rule<T>(stored: Option<T>) -> Result<T, EscrowError> {
    match stored {
        Some(v) => Ok(v),
        None => Err(EscrowError::NotFound),
    }
}

/// The admin, or `NotInitialized` where none was set.
pub open spec fn admin_rule(stored_admin: Option<Address>) -> Result<Address, EscrowError> {
    match stored_admin {
        Some(a) => Ok(a),
        None => Err(EscrowError::NotInitialized),
    }
}

/// Setting the first admin: demanded of the new admin, refused once an admin
/// is set.
pub open spec fn initialize_rule(stored_admin: Option<Address>, admin: Address) -> Step<
    StorageWrite,
> {
    Step {
        auth: Some(admin),
        result: if stored_admin is Some {
            Err(EscrowError::AlreadyInitialized)
        } else {
            Ok(StorageWrite::Admin(admin))
        },
    }
}

/// Replacing the admin with `new_admin`: demanded of the current admin.
pub open spec fn set_admin_rule(stored_admin: Option<Address>, new_admin: Address) -> Step<
    StorageWrite,
> {
    match stored_admin {
        Some(a) => Step { auth: Some(a), result: Ok(StorageWrite::Admin(new_admin)) },
        None => refused(EscrowError::NotInitialized),
    }
}

/// The record of a newly created escrow.
pub open spec fn new_record(
    escrow_id: u64,
    order_id: u64,
    buyer: Address,
    seller: Address,
    token: Address,
    amount: i128,
    now: u64,
) -> EscrowRecord {
    EscrowRecord {
        escrow_id,
        order_id,
        buyer,
        seller,
        token,
        amount,
        state: EscrowState::Created,
        created_at: now,
        funded_at: 0,
        released_at: 0,
        refunded_at: 0,
    }
}

/// Creating an escrow: demanded of the buyer. The checks come in this order:
/// a positive amount, two distinct parties, a free escrow id, an order
/// without an escrow.
pub open spec fn create_rule(
    escrow_id: u64,
    order_id: u64,
    buyer: Address,
    seller: Address,
    token: Address,
    amount: i128,
    escrow_taken: bool,
    order_taken: bool,
    now: u64,
) -> Step<Settlement> {
    Step {
        auth: Some(buyer),
        result: if amount <= 0 {
            Err(EscrowError::InvalidAmount)
        } else if buyer@ == seller@ {
            Err(EscrowError::SameBuyerSeller)
        } else if escrow_taken {
            Err(EscrowError::AlreadyExists)
        } else if order_taken {
            Err(EscrowError::OrderEscrowExists)
        } else {
            Ok(
                Settlement {
                    escrow_id,
                    record: new_record(escrow_id, order_id, buyer, seller, token, amount, now),
                    indexes_order: true,
                    transfer: None,
                    event: EscrowEvent::Created { escrow_id, order_id, buyer, seller, amount },
                },
            )
        },
    }
}

/// Funding a created escrow: the buyer pays the amount into the contract.
pub open spec fn fund_rule(escrow_id: u64, stored: Option<EscrowRecord>, now: u64) -> Step<
    Settlement,
> {
    match stored {
        None => refused(EscrowError::NotFound),
        Some(r) => if r.state != EscrowState::Created {
            refused(EscrowError::InvalidState)
        } else {
            Step {
                auth: Some(r.buyer),
                result: Ok(
                    Settlement {
                        escrow_id,
                        record: EscrowRecord { state: EscrowState::Funded, funded_at: now, ..r },
                        indexes_order: false,
                        transfer: Some(
                            Transfer {
                                token: r.token,
                                from: Party::Account(r.buyer),
                                to: Party::Contract,
                                amount: r.amount,
                            },
                        ),
                        event: EscrowEvent::Funded { escrow_id, buyer: r.buyer, amount: r.amount },
                    },
                ),
            }
        },
    }
}

/// Paying a held escrow out to the seller.
pub open spec fn release_payout(escrow_id: u64, r: EscrowRecord, now: u64) -> Settlement {
    Settlement {
        escrow_id,
        record: EscrowRecord { state: EscrowState::Released, released_at: now, ..r },
        indexes_order: false,
        transfer: Some(
            Transfer {
                token: r.token,
                from: Party::Contract,
                to: Party::Account(r.seller),
                amount: r.amount,
            },
        ),
        event: EscrowEvent::Released { escrow_id, seller: r.seller, amount: r.amount },
    }
}

/// Paying a held escrow back to the buyer.
pub open spec fn refund_payout(escrow_id: u64, r: EscrowRecord, now: u64) -> Settlement {
    Settlement {
        escrow_id,
        record: EscrowRecord { state: EscrowState::Refunded, refunded_at: now, ..r },
        indexes_order: false,
        transfer: Some(
            Transfer {
                token: r.token,
                from: Party::Contract,
                to: Party::Account(r.buyer),
                amount: r.amount,
            },
        ),
        event: EscrowEvent::Refunded { escrow_id, buyer: r.buyer, amount: r.amount },
    }
}

/// Releasing to the seller: demanded of the buyer while funded, of the admin
/// while disputed.
pub open spec fn release_rule(
    escrow_id: u64,
    stored: Option<EscrowRecord>,
    stored_admin: Option<Address>,
    now: u64,
) -> Step<Settlement> {
    match stored {
        None => refused(EscrowError::NotFound),
        Some(r) => match r.state {
            EscrowState::Funded => Step {
                auth: Some(r.buyer),
                result: Ok(release_payout(escrow_id, r, now)),
            },
            EscrowState::Disputed => match stored_admin {
                Some(a) => Step { auth: Some(a), result: Ok(release_payout(escrow_id, r, now)) },
                None => refused(EscrowError::NotInitialized),
            },
            _ => refused(EscrowError::InvalidState),
        },
    }
}

/// Refunding the buyer: demanded of the seller while funded, of the admin
/// while disputed.
pub open spec fn refund_rule(
    escrow_id: u64,
    stored: Option<EscrowRecord>,
    stored_admin: Option<Address>,
    now: u64,
) -> Step<Settlement> {
    match stored {
        None => refused(EscrowError::NotFound),
        Some(r) => match r.state {
            EscrowState::Funded => Step {
                auth: Some(r.seller),
                result: Ok(refund_payout(escrow_id, r, now)),
            },
            EscrowState::Disputed => match stored_admin {
                Some(a) => Step { auth: Some(a), result: Ok(refund_payout(escrow_id, r, now)) },
                None => refused(EscrowError::NotInitialized),
            },
            _ => refused(EscrowError::InvalidState),
        },
    }
}

/// Disputing a funded escrow: demanded of the caller, who must be its buyer
/// or its seller.
pub open spec fn dispute_rule(escrow_id: u64, caller: Address, stored: Option<EscrowRecord>) -> Step<
    Settlement,
> {
    Step {
        auth: Some(caller),
        result: match stored {
            None => Err(EscrowError::NotFound),
            Some(r) => if caller@ != r.buyer@ && caller@ != r.seller@ {
                Err(EscrowError::Unauthorized)
            } else if r.state != EscrowState::Funded {
                Err(EscrowError::InvalidState)
            } else {
                Ok(
                    Settlement {
                        escrow_id,
                        record: EscrowRecord { state: EscrowState::Disputed, ..r },
                        indexes_order: false,
                        transfer: None,
                        event: EscrowEvent::Disputed { escrow_id, caller },
                    },
                )
            },
        },
    }
}

/// Resolving a disputed escrow: demanded of the admin, who sends the funds
/// to the seller or back to the buyer.
pub open spec fn resolve_rule(
    escrow_id: u64,
    release_to_seller: bool,
    stored_admin: Option<Address>,
    stored: Option<EscrowRecord>,
    now: u64,
) -> Step<Settlement> {
    match stored_admin {
        None => refused(EscrowError::NotInitialized),
        Some(a) => Step {
            auth: Some(a),
            result: match stored {
                None => Err(EscrowError::NotFound),
                Some(r) => if r.state != EscrowState::Disputed {
                    Err(EscrowError::InvalidState)
                } else if release_to_seller {
                    Ok(release_payout(escrow_id, r, now))
                } else {
                    Ok(refund_payout(escrow_id, r, now))
                },
            },
        },
    }
}

/// The entry that was read, or `NotFound` where there is none.
pub fn found<T>(stored: Option<T>) -> (r: Result<T, EscrowError>)
    ensures
        r == found_rule(stored),
{
    match stored {
        Some(v) => Ok(v),
        None => Err(EscrowError::NotFound),
    }
}

/// The admin, or `NotInitialized` where none was set.
pub fn admin_step(stored_admin: Option<Address>) -> (r: Result<Address, EscrowError>)
    ensures
        r == admin_rule(stored_admin),
{
    match stored_admin {
        Some(a) => Ok(a),
        None => Err(EscrowError::NotInitialized),
    }
}

/// Setting the first admin.
pub fn initialize_step(stored_admin: &Option<Address>, admin: Address) -> (step: Step<
    StorageWrite,
>)
    ensures
        step == initialize_rule(*stored_admin, admin),
{
    let result = if stored_admin.is_some() {
        Err(EscrowError::AlreadyInitialized)
    } else {
        Ok(StorageWrite::Admin(admin.clone()))
    };
    Step { auth: Some(admin), result }
}

/// Replacing the admin.
pub fn set_admin_step(stored_admin: Option<Address>, new_admin: Address) -> (step: Step<
    StorageWrite,
>)
    ensures
        step == set_admin_rule(stored_admin, new_admin),
{
    match stored_admin {
        Some(a) => Step { auth: Some(a), result: Ok(StorageWrite::Admin(new_admin)) },
        None => Step { auth: None, result: Err(EscrowError::NotInitialized) },
    }
}

/// Creating an escrow.
pub fn create_step(
    escrow_id: u64,
    order_id: u64,
    buyer: Address,
    seller: Address,
    token: Address,
    amount: i128,
    escrow_taken: bool,
    order_taken: bool,
    now: u64,
) -> (step: Step<Settlement>)
    ensures
        step == create_rule(
            escrow_id,
            order_id,
            buyer,
            seller,
            token,
            amount,
            escrow_taken,
            order_taken,
            now,
        ),
{
    let result = if amount <= 0 {
        Err(EscrowError::InvalidAmount)
    } else if buyer.same_as(&seller) {
        Err(EscrowError::SameBuyerSeller)
    } else if escrow_taken {
        Err(EscrowError::AlreadyExists)
    } else if order_taken {
        Err(EscrowError::OrderEscrowExists)
    } else {
        let event = EscrowEvent::Created {
            escrow_id,
            order_id,
            buyer: buyer.clone(),
            seller: seller.clone(),
            amount,
        };
        let record = EscrowRecord {
            escrow_id,
            order_id,
            buyer: buyer.clone(),
            seller,
            token,
            amount,
            state: EscrowState::Created,
            created_at: now,
            funded_at: 0,
            released_at: 0,
            refunded_at: 0,
        };
        Ok(Settlement { escrow_id, record, indexes_order: true, transfer: None, event })
    };
    Step { auth: Some(buyer), result }
}

/// Funding a created escrow.
pub fn fund_step(escrow_id: u64, stored: Option<EscrowRecord>, now: u64) -> (step: Step<
    Settlement,
>)
    ensures
        step == fund_rule(escrow_id, stored, now),
{
    match stored {
        None => Step { auth: None, result: Err(EscrowError::NotFound) },
        Some(r) => {
            if r.state != EscrowState::Created {
                Step { auth: None, result: Err(EscrowError::InvalidState) }
            } else {
                let transfer = Transfer {
                    token: r.token.clone(),
                    from: Party::Account(r.buyer.clone()),
                    to: Party::Contract,
                    amount: r.amount,
                };
                let event = EscrowEvent::Funded {
                    escrow_id,
                    buyer: r.buyer.clone(),
                    amount: r.amount,
                };
                let auth = Some(r.buyer.clone());
                let record = EscrowRecord { state: EscrowState::Funded, funded_at: now, ..r };
                Step { auth, result: Ok(
                        Settlement {
                            escrow_id,
                            record,
                            indexes_order: false,
                            transfer: Some(transfer),
                            event,
                        },
                    ) }
            }
        },
    }
}

/// Paying a held escrow out to the seller.
fn release_payout_of(escrow_id: u64, r: EscrowRecord, now: u64) -> (s: Settlement)
    ensures
        s == release_payout(escrow_id, r, now),
{
    let transfer = Transfer {
        token: r.token.clone(),
        from: Party::Contract,
        to: Party::Account(r.seller.clone()),
        amount: r.amount,
    };
    let event = EscrowEvent::Released { escrow_id, seller: r.seller.clone(), amount: r.amount };
    let record = EscrowRecord { state: EscrowState::Released, released_at: now, ..r };
    Settlement { escrow_id, record, indexes_order: false, transfer: Some(transfer), event }
}

/// Paying a held escrow back to the buyer.
fn refund_payout_of(escrow_id: u64, r: EscrowRecord, now: u64) -> (s: Settlement)
    ensures
        s == refund_payout(escrow_id, r, now),
{
    let transfer = Transfer {
        token: r.token.clone(),
        from: Party::Contract,
        to: Party::Account(r.buyer.clone()),
        amount: r.amount,
    };
    let event = EscrowEvent::Refunded { escrow_id, buyer: r.buyer.clone(), amount: r.amount };
    let record = EscrowRecord { state: EscrowState::Refunded, refunded_at: now, ..r };
    Settlement { escrow_id, record, indexes_order: false, transfer: Some(transfer), event }
}

/// Releasing an escrow to the seller.
pub fn release_step(
    escrow_id: u64,
    stored: Option<EscrowRecord>,
    stored_admin: Option<Address>,
    now: u64,
) -> (step: Step<Settlement>)
    ensures
        step == release_rule(escrow_id, stored, stored_admin, now),
{
    match stored {
        None => Step { auth: None, result: Err(EscrowError::NotFound) },
        Some(r) => match r.state {
            EscrowState::Funded => {
                let auth = Some(r.buyer.clone());
                Step { auth, result: Ok(release_payout_of(escrow_id, r, now)) }
            },
            EscrowState::Disputed => match stored_admin {
                Some(a) => Step { auth: Some(a), result: Ok(release_payout_of(escrow_id, r, now)) },
                None => Step { auth: None, result: Err(EscrowError::NotInitialized) },
            },
            _ => Step { auth: None, result: Err(EscrowError::InvalidState) },
        },
    }
}

/// Refunding an escrow to the buyer.
pub fn refund_step(
    escrow_id: u64,
    stored: Option<EscrowRecord>,
    stored_admin: Option<Address>,
    now: u64,
) -> (step: Step<Settlement>)
    ensures
        step == refund_rule(escrow_id, stored, stored_admin, now),
{
    match stored {
        None => Step { auth: None, result: Err(EscrowError::NotFound) },
        Some(r) => match r.state {
            EscrowState::Funded => {
                let auth = Some(r.seller.clone());
                Step { auth, result: Ok(refund_payout_of(escrow_id, r, now)) }
            },
            EscrowState::Disputed => match stored_admin {
                Some(a) => Step { auth: Some(a), result: Ok(refund_payout_of(escrow_id, r, now)) },
                None => Step { auth: None, result: Err(EscrowError::NotInitialized) },
            },
            _ => Step { auth: None, result: Err(EscrowError::InvalidState) },
        },
    }
}

/// Disputing a funded escrow.
pub fn dispute_step(escrow_id: u64, caller: Address, stored: Option<EscrowRecord>) -> (step: Step<
    Settlement,
>)
    ensures
        step == dispute_rule(escrow_id, caller, stored),
{
    let result = match stored {
        None => Err(EscrowError::NotFound),
        Some(r) => {
            if !caller.same_as(&r.buyer) && !caller.same_as(&r.seller) {
                Err(EscrowError::Unauthorized)
            } else if r.state != EscrowState::Funded {
                Err(EscrowError::InvalidState)
            } else {
                let event = EscrowEvent::Disputed { escrow_id, caller: caller.clone() };
                let record = EscrowRecord { state: EscrowState::Disputed, ..r };
                Ok(Settlement { escrow_id, record, indexes_order: false, transfer: None, event })
            }
        },
    };
    Step { auth: Some(caller), result }
}

/// Resolving a disputed escrow.
pub fn resolve_step(
    escrow_id: u64,
    release_to_seller: bool,
    stored_admin: Option<Address>,
    stored: Option<EscrowRecord>,
    now: u64,
) -> (step: Step<Settlement>)
    ensures
        step == resolve_rule(escrow_id, release_to_seller, stored_admin, stored, now),
{
    match stored_admin {
        None => Step { auth: None, result: Err(EscrowError::NotInitialized) },
        Some(a) => {
            let result = match stored {
                None => Err(EscrowError::NotFound),
                Some(r) => {
                    if r.state != EscrowState::Disputed {
                        Err(EscrowError::InvalidState)
                    } else if release_to_seller {
                        Ok(release_payout_of(escrow_id, r, now))
                    } else {
                        Ok(refund_payout_of(escrow_id, r, now))
                    }
                },
            };
            Step { auth: Some(a), result }
        },
    }
}

} // verus!
