//! What each operation of the escrow contract does, stated over its inputs,
//! the storage it finds, and what it returns and leaves behind.
use vstd::prelude::*;

use crate::contract::ContractView;
use crate::errors::EscrowError;
use crate::events::EscrowEvent;
use crate::rules::{Party, StorageWrite, Transfer};
use crate::types::{Address, EscrowRecord, EscrowState};

verus! {

/// `initialize` succeeds exactly when no admin is set, always demands the
/// new admin's own authorization, and on success sets that admin and
/// touches no escrow.
pub proof fn lemma_initialize_behaviour(s: ContractView, admin: Address)
    ensures
        ({
            let (after, step) = s.initialize(admin);
            &&& step.auth == Some(admin)
            &&& (step.result is Ok <==> s.admin is None)
            &&& s.admin is Some ==> step.result == Err::<StorageWrite, EscrowError>(
                EscrowError::AlreadyInitialized,
            ) && after == s
            &&& s.admin is None ==> step.result == Ok::<StorageWrite, EscrowError>(
                StorageWrite::Admin(admin),
            ) && after == ContractView { admin: Some(admin), ..s }
        }),
{
}

/// `set_admin` succeeds exactly when an admin is set, and then demands that
/// admin's authorization and replaces it; without an admin it demands
/// nothing and fails with `NotInitialized`.
pub proof fn lemma_set_admin_behaviour(s: ContractView, new_admin: Address)
    ensures
        ({
            let (after, step) = s.set_admin(new_admin);
            &&& (step.result is Ok <==> s.admin is Some)
            &&& s.admin is Some ==> step.auth == s.admin && step.result == Ok::<
                StorageWrite,
                EscrowError,
            >(StorageWrite::Admin(new_admin)) && after == ContractView {
                admin: Some(new_admin),
                ..s
            }
            &&& s.admin is None ==> step.auth is None && step.result == Err::<
                StorageWrite,
                EscrowError,
            >(EscrowError::NotInitialized) && after == s
        }),
{
}

/// `get_admin` reports the stored admin, or `NotInitialized` when none is
/// set.
pub proof fn lemma_get_admin_behaviour(s: ContractView)
    ensures
        s.admin matches Some(a) ==> s.get_admin() == Ok::<Address, EscrowError>(a),
        s.admin is None ==> s.get_admin() == Err::<Address, EscrowError>(
            EscrowError::NotInitialized,
        ),
{
}

/// `create_escrow` always demands the buyer's authorization. It fails with
/// `InvalidAmount` exactly when the amount is not positive; otherwise with
/// `SameBuyerSeller` exactly when the parties are the same; otherwise with
/// `AlreadyExists` exactly when the escrow id is taken; otherwise with
/// `OrderEscrowExists` exactly when the order already has an escrow; and it
/// succeeds in every other case. On success it stores a `Created` record of
/// exactly the given terms under the escrow id, indexes the order to it,
/// moves no tokens, and publishes the creation.
pub proof fn lemma_create_escrow_behaviour(
    s: ContractView,
    escrow_id: u64,
    order_id: u64,
    buyer: Address,
    seller: Address,
    token: Address,
    amount: i128,
    now: u64,
)
    ensures
        ({
            let (after, step) = s.create_escrow(
                escrow_id,
                order_id,
                buyer,
                seller,
                token,
                amount,
                now,
            );
            &&& step.auth == Some(buyer)
            &&& amount <= 0 ==> step.result == Err::<crate::rules::Settlement, EscrowError>(
                EscrowError::InvalidAmount,
            )
            &&& amount > 0 && buyer@ == seller@ ==> step.result == Err::<
                crate::rules::Settlement,
                EscrowError,
            >(EscrowError::SameBuyerSeller)
            &&& amount > 0 && buyer@ != seller@ && s.escrows.contains_key(escrow_id)
                ==> step.result == Err::<crate::rules::Settlement, EscrowError>(
                EscrowError::AlreadyExists,
            )
            &&& amount > 0 && buyer@ != seller@ && !s.escrows.contains_key(escrow_id)
                && s.orders.contains_key(order_id) ==> step.result == Err::<
                crate::rules::Settlement,
                EscrowError,
            >(EscrowError::OrderEscrowExists)
            &&& (step.result is Ok <==> (amount > 0 && buyer@ != seller@
                && !s.escrows.contains_key(escrow_id) && !s.orders.contains_key(order_id)))
            &&& step.result is Err ==> after == s
            &&& step.result matches Ok(st) ==> {
                let r = st.record;
                &&& r.escrow_id == escrow_id
                &&& r.order_id == order_id
                &&& r.buyer == buyer
                &&& r.seller == seller
                &&& r.token == token
                &&& r.amount == amount
                &&& r.state == EscrowState::Created
                &&& r.created_at == now
                &&& r.funded_at == 0
                &&& r.released_at == 0
                &&& r.refunded_at == 0
                &&& st.transfer is None
                &&& st.event == EscrowEvent::Created {
                    escrow_id,
                    order_id,
                    buyer,
                    seller,
                    amount,
                }
                &&& st.spec_writes() == seq![
                    StorageWrite::Escrow(escrow_id, r),
                    StorageWrite::OrderEscrow(order_id, escrow_id),
                ]
                &&& after == ContractView {
                    escrows: s.escrows.insert(escrow_id, r),
                    orders: s.orders.insert(order_id, escrow_id),
                    ..s
                }
            }
        }),
{
    let (after, step) = s.create_escrow(escrow_id, order_id, buyer, seller, token, amount, now);
    if let Ok(st) = step.result {
        let r = st.record;
        assert(st.spec_writes() =~= seq![
            StorageWrite::Escrow(escrow_id, r),
            StorageWrite::OrderEscrow(order_id, escrow_id),
        ]);
    }
}

/// `fund_escrow` fails with `NotFound`, demanding nothing, when there is no
/// such escrow, and with `InvalidState`, demanding nothing and changing
/// nothing, unless the escrow is `Created`. A `Created` escrow is always
/// funded: on the buyer's authorization, the buyer pays exactly the amount,
/// in the escrow's token, into the contract, and the record becomes `Funded`
/// at `now` with every other field kept.
pub proof fn lemma_fund_escrow_behaviour(s: ContractView, escrow_id: u64, now: u64)
    ensures
        ({
            let (after, step) = s.fund_escrow(escrow_id, now);
            &&& !s.escrows.contains_key(escrow_id) ==> step.auth is None && step.result == Err::<
                crate::rules::Settlement,
                EscrowError,
            >(EscrowError::NotFound) && after == s
            &&& s.escrows.contains_key(escrow_id) && s.escrows[escrow_id].state
                != EscrowState::Created ==> step.auth is None && step.result == Err::<
                crate::rules::Settlement,
                EscrowError,
            >(EscrowError::InvalidState) && after == s
            &&& s.escrows.contains_key(escrow_id) && s.escrows[escrow_id].state
                == EscrowState::Created ==> {
                let r = s.escrows[escrow_id];
                let funded = EscrowRecord { state: EscrowState::Funded, funded_at: now, ..r };
                &&& step.auth == Some(r.buyer)
                &&& step.result matches Ok(st) && {
                    &&& st.record == funded
                    &&& st.transfer == Some(
                        Transfer {
                            token: r.token,
                            from: Party::Account(r.buyer),
                            to: Party::Contract,
                            amount: r.amount,
                        },
                    )
                    &&& st.event == EscrowEvent::Funded { escrow_id, buyer: r.buyer, amount: r.amount }
                    &&& st.spec_writes() == seq![StorageWrite::Escrow(escrow_id, funded)]
                }
                &&& after == ContractView { escrows: s.escrows.insert(escrow_id, funded), ..s }
            }
        }),
{
    let (after, step) = s.fund_escrow(escrow_id, now);
    if let Ok(st) = step.result {
        assert(st.spec_writes() =~= seq![StorageWrite::Escrow(escrow_id, st.record)]);
    }
}

/// Who may release and what a release does: with no such escrow it fails
/// with `NotFound`; a `Funded` escrow is released on its buyer's
/// authorization; a `Disputed` escrow is released on exactly the admin's
/// authorization, or, with no admin set, refused with `NotInitialized`
/// demanding nothing; any other escrow is refused with `InvalidState`. A
/// release pays exactly the amount, in the escrow's token, from the contract
/// to the seller, and the record becomes `Released` at `now` with every other
/// field kept. Refusals change nothing.
pub proof fn lemma_release_escrow_behaviour(s: ContractView, escrow_id: u64, now: u64)
    ensures
        ({
            let (after, step) = s.release_escrow(escrow_id, now);
            let r = s.escrows[escrow_id];
            let released = EscrowRecord { state: EscrowState::Released, released_at: now, ..r };
            &&& step.result is Err ==> after == s
            &&& !s.escrows.contains_key(escrow_id) ==> step.auth is None && step.result == Err::<
                crate::rules::Settlement,
                EscrowError,
            >(EscrowError::NotFound)
            &&& s.escrows.contains_key(escrow_id) && !r.state.holds_funds() ==> step.auth is None
                && step.result == Err::<crate::rules::Settlement, EscrowError>(
                EscrowError::InvalidState,
            )
            &&& s.escrows.contains_key(escrow_id) && r.state == EscrowState::Funded ==> step.auth
                == Some(r.buyer) && step.result is Ok
            &&& s.escrows.contains_key(escrow_id) && r.state == EscrowState::Disputed
                && s.admin is Some ==> step.auth == s.admin && step.result is Ok
            &&& s.escrows.contains_key(escrow_id) && r.state == EscrowState::Disputed
                && s.admin is None ==> step.auth is None && step.result == Err::<
                crate::rules::Settlement,
                EscrowError,
            >(EscrowError::NotInitialized)
            &&& step.result matches Ok(st) ==> {
                &&& s.escrows.contains_key(escrow_id)
                &&& st.record == released
                &&& st.transfer == Some(
                    Transfer {
                        token: r.token,
                        from: Party::Contract,
                        to: Party::Account(r.seller),
                        amount: r.amount,
                    },
                )
                &&& st.event == EscrowEvent::Released {
                    escrow_id,
                    seller: r.seller,
                    amount: r.amount,
                }
                &&& st.spec_writes() == seq![StorageWrite::Escrow(escrow_id, released)]
                &&& after == ContractView { escrows: s.escrows.insert(escrow_id, released), ..s }
            }
        }),
{
    let (after, step) = s.release_escrow(escrow_id, now);
    if let Ok(st) = step.result {
        assert(st.spec_writes() =~= seq![StorageWrite::Escrow(escrow_id, st.record)]);
    }
}

/// Who may refund and what a refund does: with no such escrow it fails with
/// `NotFound`; a `Funded` escrow is refunded on its seller's authorization;
/// a `Disputed` escrow is refunded on exactly the admin's authorization, or,
/// with no admin set, refused with `NotInitialized` demanding nothing; any
/// other escrow is refused with `InvalidState`. A refund pays exactly the
/// amount, in the escrow's token, from the contract back to the buyer, and
/// the record becomes `Refunded` at `now` with every other field kept.
/// Refusals change nothing.
pub proof fn lemma_refund_escrow_behaviour(s: ContractView, escrow_id: u64, now: u64)
    ensures
        ({
            let (after, step) = s.refund_escrow(escrow_id, now);
            let r = s.escrows[escrow_id];
            let refunded = EscrowRecord { state: EscrowState::Refunded, refunded_at: now, ..r };
            &&& step.result is Err ==> after == s
            &&& !s.escrows.contains_key(escrow_id) ==> step.auth is None && step.result == Err::<
                crate::rules::Settlement,
                EscrowError,
            >(EscrowError::NotFound)
            &&& s.escrows.contains_key(escrow_id) && !r.state.holds_funds() ==> step.auth is None
                && step.result == Err::<crate::rules::Settlement, EscrowError>(
                EscrowError::InvalidState,
            )
            &&& s.escrows.contains_key(escrow_id) && r.state == EscrowState::Funded ==> step.auth
                == Some(r.seller) && step.result is Ok
            &&& s.escrows.contains_key(escrow_id) && r.state == EscrowState::Disputed
                && s.admin is Some ==> step.auth == s.admin && step.result is Ok
            &&& s.escrows.contains_key(escrow_id) && r.state == EscrowState::Disputed
                && s.admin is None ==> step.auth is None && step.result == Err::<
                crate::rules::Settlement,
                EscrowError,
            >(EscrowError::NotInitialized)
            &&& step.result matches Ok(st) ==> {
                &&& s.escrows.contains_key(escrow_id)
                &&& st.record == refunded
                &&& st.transfer == Some(
                    Transfer {
                        token: r.token,
                        from: Party::Contract,
                        to: Party::Account(r.buyer),
                        amount: r.amount,
                    },
                )
                &&& st.event == EscrowEvent::Refunded { escrow_id, buyer: r.buyer, amount: r.amount }
                &&& st.spec_writes() == seq![StorageWrite::Escrow(escrow_id, refunded)]
                &&& after == ContractView { escrows: s.escrows.insert(escrow_id, refunded), ..s }
            }
        }),
{
    let (after, step) = s.refund_escrow(escrow_id, now);
    if let Ok(st) = step.result {
        assert(st.spec_writes() =~= seq![StorageWrite::Escrow(escrow_id, st.record)]);
    }
}

/// `dispute_escrow` always demands the caller's authorization. It fails with
/// `NotFound` when there is no such escrow, with `Unauthorized` when the
/// caller is neither its buyer nor its seller, and otherwise with
/// `InvalidState` unless the escrow is `Funded` (an escrow already disputed
/// included). A `Funded` escrow disputed by its buyer or seller always
/// becomes `Disputed`, with every other field kept and no tokens moved.
pub proof fn lemma_dispute_escrow_behaviour(s: ContractView, escrow_id: u64, caller: Address)
    ensures
        ({
            let (after, step) = s.dispute_escrow(escrow_id, caller);
            let r = s.escrows[escrow_id];
            let party = caller@ == r.buyer@ || caller@ == r.seller@;
            let disputed = EscrowRecord { state: EscrowState::Disputed, ..r };
            &&& step.auth == Some(caller)
            &&& step.result is Err ==> after == s
            &&& !s.escrows.contains_key(escrow_id) ==> step.result == Err::<
                crate::rules::Settlement,
                EscrowError,
            >(EscrowError::NotFound)
            &&& s.escrows.contains_key(escrow_id) && !party ==> step.result == Err::<
                crate::rules::Settlement,
                EscrowError,
            >(EscrowError::Unauthorized)
            &&& s.escrows.contains_key(escrow_id) && party && r.state != EscrowState::Funded
                ==> step.result == Err::<crate::rules::Settlement, EscrowError>(
                EscrowError::InvalidState,
            )
            &&& (step.result is Ok <==> (s.escrows.contains_key(escrow_id) && party && r.state
                == EscrowState::Funded))
            &&& step.result matches Ok(st) ==> {
                &&& st.record == disputed
                &&& st.transfer is None
                &&& st.event == EscrowEvent::Disputed { escrow_id, caller }
                &&& st.spec_writes() == seq![StorageWrite::Escrow(escrow_id, disputed)]
                &&& after == ContractView { escrows: s.escrows.insert(escrow_id, disputed), ..s }
            }
        }),
{
    let (after, step) = s.dispute_escrow(escrow_id, caller);
    if let Ok(st) = step.result {
        assert(st.spec_writes() =~= seq![StorageWrite::Escrow(escrow_id, st.record)]);
    }
}

/// `resolve_dispute` needs an admin: without one it demands nothing and
/// fails with `NotInitialized`; with one it always demands exactly the
/// admin's authorization. It succeeds exactly on a stored escrow in state
/// `Disputed`: with no such escrow it fails with `NotFound`, and on an
/// escrow in any other state (`Funded` included) with `InvalidState`,
/// changing nothing. A resolution pays exactly the amount, in the escrow's
/// token, from the contract to the seller (`Released`) when
/// `release_to_seller`, else back to the buyer (`Refunded`), at `now`, with
/// every other field kept.
pub proof fn lemma_resolve_dispute_behaviour(
    s: ContractView,
    escrow_id: u64,
    release_to_seller: bool,
    now: u64,
)
    ensures
        ({
            let (after, step) = s.resolve_dispute(escrow_id, release_to_seller, now);
            let r = s.escrows[escrow_id];
            let released = EscrowRecord { state: EscrowState::Released, released_at: now, ..r };
            let refunded = EscrowRecord { state: EscrowState::Refunded, refunded_at: now, ..r };
            &&& step.result is Err ==> after == s
            &&& s.admin is None ==> step.auth is None && step.result == Err::<
                crate::rules::Settlement,
                EscrowError,
            >(EscrowError::NotInitialized)
            &&& s.admin is Some ==> step.auth == s.admin
            &&& s.admin is Some && !s.escrows.contains_key(escrow_id) ==> step.result == Err::<
                crate::rules::Settlement,
                EscrowError,
            >(EscrowError::NotFound)
            &&& s.admin is Some && s.escrows.contains_key(escrow_id) && r.state
                != EscrowState::Disputed ==> step.result == Err::<
                crate::rules::Settlement,
                EscrowError,
            >(EscrowError::InvalidState)
            &&& (step.result is Ok <==> (s.admin is Some && s.escrows.contains_key(escrow_id)
                && r.state == EscrowState::Disputed))
            &&& release_to_seller ==> (step.result matches Ok(st) ==> {
                &&& st.record == released
                &&& st.transfer == Some(
                    Transfer {
                        token: r.token,
                        from: Party::Contract,
                        to: Party::Account(r.seller),
                        amount: r.amount,
                    },
                )
                &&& st.event == EscrowEvent::Released {
                    escrow_id,
                    seller: r.seller,
                    amount: r.amount,
                }
                &&& st.spec_writes() == seq![StorageWrite::Escrow(escrow_id, released)]
                &&& after == ContractView { escrows: s.escrows.insert(escrow_id, released), ..s }
            })
            &&& !release_to_seller ==> (step.result matches Ok(st) ==> {
                &&& st.record == refunded
                &&& st.transfer == Some(
                    Transfer {
                        token: r.token,
                        from: Party::Contract,
                        to: Party::Account(r.buyer),
                        amount: r.amount,
                    },
                )
                &&& st.event == EscrowEvent::Refunded { escrow_id, buyer: r.buyer, amount: r.amount }
                &&& st.spec_writes() == seq![StorageWrite::Escrow(escrow_id, refunded)]
                &&& after == ContractView { escrows: s.escrows.insert(escrow_id, refunded), ..s }
            })
        }),
{
    let (after, step) = s.resolve_dispute(escrow_id, release_to_seller, now);
    if let Ok(st) = step.result {
        assert(st.spec_writes() =~= seq![StorageWrite::Escrow(escrow_id, st.record)]);
    }
}

/// `get_escrow` returns the record stored under the id, or `NotFound` when
/// there is none.
pub proof fn lemma_get_escrow_behaviour(s: ContractView, escrow_id: u64)
    ensures
        s.escrows.contains_key(escrow_id) ==> s.get_escrow(escrow_id) == Ok::<
            EscrowRecord,
            EscrowError,
        >(s.escrows[escrow_id]),
        !s.escrows.contains_key(escrow_id) ==> s.get_escrow(escrow_id) == Err::<
            EscrowRecord,
            EscrowError,
        >(EscrowError::NotFound),
{
}

/// On well-formed storage, `get_escrow_by_order` finds exactly the escrow
/// created for the order: the record it returns belongs to that order and is
/// the one stored under its id, and it fails with `NotFound` exactly when no
/// stored escrow belongs to the order.
pub proof fn lemma_get_escrow_by_order_behaviour(s: ContractView, order_id: u64)
    requires
        s.wf(),
    ensures
        s.get_escrow_by_order(order_id) matches Ok(r) ==> {
            &&& r.order_id == order_id
            &&& s.escrows.contains_key(r.escrow_id)
            &&& s.escrows[r.escrow_id] == r
        },
        (forall|e: u64| #[trigger]
            s.escrows.contains_key(e) ==> s.escrows[e].order_id != order_id)
            ==> s.get_escrow_by_order(order_id) == Err::<EscrowRecord, EscrowError>(
            EscrowError::NotFound,
        ),
        forall|e: u64| #[trigger]
            s.escrows.contains_key(e) && s.escrows[e].order_id == order_id
                ==> s.get_escrow_by_order(order_id) == Ok::<EscrowRecord, EscrowError>(
                s.escrows[e],
            ),
{
    if s.orders.contains_key(order_id) {
        let e = s.orders[order_id];
        assert(s.escrows.contains_key(e));
    }
}

} // verus!
