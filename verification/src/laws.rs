//! What holds of the escrow contract across operations.
use vstd::prelude::*;

use crate::contract::{lookup, ContractView};
use crate::errors::EscrowError;
use crate::rules::{Party, Settlement, Step, StorageWrite, Transfer};
use crate::types::{Address, EscrowRecord, EscrowState};

verus! {

/// A call of one of the contract's state-changing operations.
pub enum Operation {
    Initialize { admin: Address },
    SetAdmin { new_admin: Address },
    CreateEscrow {
        escrow_id: u64,
        order_id: u64,
        buyer: Address,
        seller: Address,
        token: Address,
        amount: i128,
        now: u64,
    },
    FundEscrow { escrow_id: u64, now: u64 },
    ReleaseEscrow { escrow_id: u64, now: u64 },
    RefundEscrow { escrow_id: u64, now: u64 },
    DisputeEscrow { escrow_id: u64, caller: Address },
    ResolveDispute { escrow_id: u64, release_to_seller: bool, now: u64 },
}

impl ContractView {
    /// Storage after `op`.
    pub open spec fn apply(self, op: Operation) -> ContractView {
        match op {
            Operation::Initialize { admin } => self.initialize(admin).0,
            Operation::SetAdmin { new_admin } => self.set_admin(new_admin).0,
            Operation::CreateEscrow { escrow_id, order_id, buyer, seller, token, amount, now } =>
                self.create_escrow(escrow_id, order_id, buyer, seller, token, amount, now).0,
            Operation::FundEscrow { escrow_id, now } => self.fund_escrow(escrow_id, now).0,
            Operation::ReleaseEscrow { escrow_id, now } => self.release_escrow(escrow_id, now).0,
            Operation::RefundEscrow { escrow_id, now } => self.refund_escrow(escrow_id, now).0,
            Operation::DisputeEscrow { escrow_id, caller } => self.dispute_escrow(
                escrow_id,
                caller,
            ).0,
            Operation::ResolveDispute { escrow_id, release_to_seller, now } => self.resolve_dispute(
                escrow_id,
                release_to_seller,
                now,
            ).0,
        }
    }

    /// The decision of `op` when it is an operation on one escrow: that
    /// escrow's id and the step.
    pub open spec fn escrow_step(self, op: Operation) -> Option<(u64, Step<Settlement>)> {
        match op {
            Operation::Initialize { .. } => None,
            Operation::SetAdmin { .. } => None,
            Operation::CreateEscrow { escrow_id, order_id, buyer, seller, token, amount, now } =>
                Some(
                (
                    escrow_id,
                    self.create_escrow(escrow_id, order_id, buyer, seller, token, amount, now).1,
                ),
            ),
            Operation::FundEscrow { escrow_id, now } => Some(
                (escrow_id, self.fund_escrow(escrow_id, now).1),
            ),
            Operation::ReleaseEscrow { escrow_id, now } => Some(
                (escrow_id, self.release_escrow(escrow_id, now).1),
            ),
            Operation::RefundEscrow { escrow_id, now } => Some(
                (escrow_id, self.refund_escrow(escrow_id, now).1),
            ),
            Operation::DisputeEscrow { escrow_id, caller } => Some(
                (escrow_id, self.dispute_escrow(escrow_id, caller).1),
            ),
            Operation::ResolveDispute { escrow_id, release_to_seller, now } => Some(
                (escrow_id, self.resolve_dispute(escrow_id, release_to_seller, now).1),
            ),
        }
    }

    /// Whether `op` succeeds on this storage.
    pub open spec fn succeeds(self, op: Operation) -> bool {
        match op {
            Operation::Initialize { admin } => self.initialize(admin).1.result is Ok,
            Operation::SetAdmin { new_admin } => self.set_admin(new_admin).1.result is Ok,
            _ => self.escrow_step(op).unwrap().1.result is Ok,
        }
    }

    /// The address whose authorization `op` demands here, if any.
    pub open spec fn demanded_auth(self, op: Operation) -> Option<Address> {
        match op {
            Operation::Initialize { admin } => self.initialize(admin).1.auth,
            Operation::SetAdmin { new_admin } => self.set_admin(new_admin).1.auth,
            _ => self.escrow_step(op).unwrap().1.auth,
        }
    }
}

/// Storage after running `ops`, in order, from empty storage.
pub open spec fn run(ops: Seq<Operation>) -> ContractView
    decreases ops.len(),
{
    if ops.len() == 0 {
        ContractView::empty()
    } else {
        run(ops.drop_last()).apply(ops.last())
    }
}

/// The amount that the contract holds for an escrow in its state.
pub open spec fn held(r: EscrowRecord) -> int {
    if r.state.holds_funds() {
        r.amount as int
    } else {
        0
    }
}

/// The amount held for escrow `e` in storage `s` (none where there is no
/// such escrow).
pub open spec fn held_in(s: ContractView, e: u64) -> int {
    match lookup(s.escrows, e) {
        Some(r) => held(r),
        None => 0,
    }
}

/// The net amount that a transfer moves into the contract.
pub open spec fn inflow(t: Option<Transfer>) -> int {
    match t {
        None => 0,
        Some(t) => match (t.from, t.to) {
            (Party::Account(_), Party::Contract) => t.amount as int,
            (Party::Contract, Party::Account(_)) => -t.amount,
            _ => 0,
        },
    }
}

/// Whether a state may follow another in one operation.
pub open spec fn allowed_transition(from: EscrowState, to: EscrowState) -> bool {
    ||| from == to
    ||| (from == EscrowState::Created && to == EscrowState::Funded)
    ||| (from == EscrowState::Funded && to == EscrowState::Released)
    ||| (from == EscrowState::Funded && to == EscrowState::Refunded)
    ||| (from == EscrowState::Funded && to == EscrowState::Disputed)
    ||| (from == EscrowState::Disputed && to == EscrowState::Released)
    ||| (from == EscrowState::Disputed && to == EscrowState::Refunded)
}

/// Every operation keeps the storage well formed: each record stays under its
/// own id and indexed by its own order, orders stay unique, and amounts stay
/// positive with distinct parties.
pub proof fn lemma_operation_keeps_wf(s: ContractView, op: Operation)
    requires
        s.wf(),
    ensures
        s.apply(op).wf(),
{
}

/// Every storage reachable from empty storage by any sequence of operations
/// is well formed.
pub proof fn lemma_reachable_wf(ops: Seq<Operation>)
    ensures
        run(ops).wf(),
    decreases ops.len(),
{
    if ops.len() == 0 {
    } else {
        lemma_reachable_wf(ops.drop_last());
        lemma_operation_keeps_wf(run(ops.drop_last()), ops.last());
    }
}

/// An operation that is refused changes nothing.
pub proof fn lemma_refusal_changes_nothing(s: ContractView, op: Operation)
    requires
        !s.succeeds(op),
    ensures
        s.apply(op) == s,
{
}

/// An escrow is never removed, and the terms it was created with (its ids,
/// parties, token, amount and creation time) never change.
pub proof fn lemma_terms_never_change(s: ContractView, op: Operation, e: u64)
    requires
        s.escrows.contains_key(e),
    ensures
        s.apply(op).escrows.contains_key(e),
        s.apply(op).escrows[e].same_terms(s.escrows[e]),
{
}

/// An operation touches only its own escrow: every other escrow keeps its
/// record, setting the admin touches no escrow, and no escrow operation
/// touches the admin.
pub proof fn lemma_operations_are_local(s: ContractView, op: Operation, e: u64)
    requires
        s.escrows.contains_key(e),
        s.escrow_step(op) matches Some((id, _)) ==> id != e,
    ensures
        s.apply(op).escrows.contains_key(e),
        s.apply(op).escrows[e] == s.escrows[e],
        s.escrow_step(op) is Some ==> s.apply(op).admin == s.admin,
{
}

/// Once released or refunded, an escrow's record never changes again.
pub proof fn lemma_settled_is_final(s: ContractView, op: Operation, e: u64)
    requires
        s.escrows.contains_key(e),
        s.escrows[e].state.is_settled(),
    ensures
        s.apply(op).escrows[e] == s.escrows[e],
{
}

/// An escrow's state only moves along Created -> Funded -> (Released |
/// Refunded | Disputed), and Disputed -> (Released | Refunded).
pub proof fn lemma_state_transitions(s: ContractView, op: Operation, e: u64)
    requires
        s.escrows.contains_key(e),
    ensures
        allowed_transition(s.escrows[e].state, s.apply(op).escrows[e].state),
{
}

/// A newly created escrow starts in `Created`.
pub proof fn lemma_created_state(s: ContractView, op: Operation, e: u64)
    requires
        !s.escrows.contains_key(e),
        s.apply(op).escrows.contains_key(e),
    ensures
        s.apply(op).escrows[e].state == EscrowState::Created,
        s.apply(op).escrows[e].escrow_id == e,
{
}

/// The tokens that an operation moves match what the contract holds for the
/// escrow: an operation on escrow `e` moves into the contract exactly the
/// increase of what it holds for `e`, in `e`'s token, and nothing when it is
/// refused.
pub proof fn lemma_custody(s: ContractView, op: Operation)
    requires
        s.escrow_step(op) is Some,
    ensures
        ({
            let (e, step) = s.escrow_step(op).unwrap();
            &&& step.result is Err ==> held_in(s.apply(op), e) == held_in(s, e)
            &&& step.result matches Ok(st) ==> inflow(st.transfer) == held_in(s.apply(op), e)
                - held_in(s, e)
            &&& step.result matches Ok(st) ==> (st.transfer matches Some(t) ==> t.token
                == st.record.token)
        }),
{
}

/// Tokens leave the contract only to the buyer or the seller of the escrow,
/// and enter it only from the buyer.
pub proof fn lemma_payments_go_to_parties(s: ContractView, op: Operation)
    requires
        s.escrow_step(op) matches Some((_, step)) && step.result is Ok,
    ensures
        ({
            let st = s.escrow_step(op).unwrap().1.result.unwrap();
            &&& st.transfer matches Some(t) ==> (t.to matches Party::Account(p) ==> p
                == st.record.seller || p == st.record.buyer)
            &&& st.transfer matches Some(t) ==> (t.from matches Party::Account(p) ==> p
                == st.record.buyer)
        }),
{
}

/// Nothing changes without the authorization of someone entitled to it:
/// every successful operation on an escrow demands the authorization of its
/// buyer, its seller or the admin; setting the admin demands the current
/// admin's, and the first admin's own.
pub proof fn lemma_changes_are_authorized(s: ContractView, op: Operation)
    requires
        s.succeeds(op),
    ensures
        s.demanded_auth(op) is Some,
        ({
            let a = s.demanded_auth(op).unwrap();
            match op {
                Operation::Initialize { admin } => a == admin,
                Operation::SetAdmin { .. } => s.admin == Some(a),
                _ => {
                    let r = s.escrow_step(op).unwrap().1.result.unwrap().record;
                    a@ == r.buyer@ || a@ == r.seller@ || s.admin == Some(a)
                },
            }
        }),
{
}

/// An escrow is paid out only from a funded or disputed state: releasing or
/// refunding one that is not yet funded, or already released or refunded, is
/// refused with `InvalidState` and changes nothing.
pub proof fn lemma_payout_needs_held_funds(s: ContractView, e: u64, now: u64)
    requires
        s.escrows.contains_key(e),
        !s.escrows[e].state.holds_funds(),
    ensures
        s.release_escrow(e, now).1.result == Err::<Settlement, EscrowError>(
            EscrowError::InvalidState,
        ),
        s.refund_escrow(e, now).1.result == Err::<Settlement, EscrowError>(
            EscrowError::InvalidState,
        ),
        s.release_escrow(e, now).0 == s,
        s.refund_escrow(e, now).0 == s,
{
}

/// The admin can be set only once by `initialize`: once an admin is set, a
/// second initialization is refused and changes nothing.
pub proof fn lemma_initialize_once(s: ContractView, admin: Address, other: Address)
    requires
        s.initialize(admin).1.result is Ok,
    ensures
        s.initialize(admin).0.get_admin() == Ok::<Address, EscrowError>(admin),
        s.initialize(admin).0.initialize(other).1.result == Err::<StorageWrite, EscrowError>(
            EscrowError::AlreadyInitialized,
        ),
        s.initialize(admin).0.initialize(other).0 == s.initialize(admin).0,
{
}

/// After the admin is replaced, the new admin is the one reported.
pub proof fn lemma_set_admin_then_get(s: ContractView, new_admin: Address)
    requires
        s.set_admin(new_admin).1.result is Ok,
    ensures
        s.set_admin(new_admin).0.get_admin() == Ok::<Address, EscrowError>(new_admin),
{
}

/// After an escrow is created, it is found both by its id and by its order,
/// and a second escrow with the same id or for the same order is refused.
pub proof fn lemma_create_then_get(
    s: ContractView,
    escrow_id: u64,
    order_id: u64,
    buyer: Address,
    seller: Address,
    token: Address,
    amount: i128,
    now: u64,
    other: Operation,
)
    requires
        s.create_escrow(escrow_id, order_id, buyer, seller, token, amount, now).1.result is Ok,
        other matches Operation::CreateEscrow { escrow_id: e2, order_id: o2, .. } && (e2
            == escrow_id || o2 == order_id),
    ensures
        ({
            let (after, step) = s.create_escrow(
                escrow_id,
                order_id,
                buyer,
                seller,
                token,
                amount,
                now,
            );
            let r = step.result.unwrap().record;
            &&& after.get_escrow(escrow_id) == Ok::<EscrowRecord, EscrowError>(r)
            &&& after.get_escrow_by_order(order_id) == Ok::<EscrowRecord, EscrowError>(r)
            &&& !after.succeeds(other)
        }),
{
}

/// Each order has at most one escrow, and looking an escrow up by its order
/// finds the same record as looking it up by its id.
pub proof fn lemma_one_escrow_per_order(s: ContractView, e1: u64, e2: u64)
    requires
        s.wf(),
        s.escrows.contains_key(e1),
        s.escrows.contains_key(e2),
        e1 != e2,
    ensures
        s.escrows[e1].order_id != s.escrows[e2].order_id,
        s.get_escrow_by_order(s.escrows[e1].order_id) == s.get_escrow(e1),
{
}

/// What escrow `r` holds of the token `token` (by strkey).
pub open spec fn held_of(r: EscrowRecord, token: Seq<char>) -> int {
    if r.token@ == token {
        held(r)
    } else {
        0
    }
}

/// Adds what the escrow under each id holds of `token`.
pub open spec fn add_held(escrows: Map<u64, EscrowRecord>, token: Seq<char>) -> spec_fn(int, u64) -> int {
    |acc: int, e: u64| acc + held_of(escrows[e], token)
}

/// The total that the contract holds of `token` for the escrows `escrows`.
pub open spec fn total_held(escrows: Map<u64, EscrowRecord>, token: Seq<char>) -> int {
    escrows.dom().fold(0int, add_held(escrows, token))
}

/// The net amount of `token` that `op` moves into the contract.
pub open spec fn inflow_of(s: ContractView, op: Operation, token: Seq<char>) -> int {
    match s.escrow_step(op) {
        Some((_, step)) => match step.result {
            Ok(st) => match st.transfer {
                Some(t) => if t.token@ == token {
                    inflow(st.transfer)
                } else {
                    0
                },
                None => 0,
            },
            Err(_) => 0,
        },
        None => 0,
    }
}

/// The net amount of `token` that running `ops` from empty storage moves
/// into the contract.
pub open spec fn run_inflow(ops: Seq<Operation>, token: Seq<char>) -> int
    decreases ops.len(),
{
    if ops.len() == 0 {
        0
    } else {
        run_inflow(ops.drop_last(), token) + inflow_of(run(ops.drop_last()), ops.last(), token)
    }
}

proof fn lemma_add_held_commutative(escrows: Map<u64, EscrowRecord>, token: Seq<char>)
    ensures
        vstd::set::fold::is_fun_commutative(add_held(escrows, token)),
{
}

/// Summing over ids on which two maps hold the same gives the same total.
proof fn lemma_sum_congruent(
    m1: Map<u64, EscrowRecord>,
    m2: Map<u64, EscrowRecord>,
    ids: Set<u64>,
    token: Seq<char>,
)
    requires
        ids.finite(),
        forall|e: u64| ids.contains(e) ==> held_of(m1[e], token) == held_of(m2[e], token),
    ensures
        ids.fold(0int, add_held(m1, token)) == ids.fold(0int, add_held(m2, token)),
    decreases ids.len(),
{
    if ids.len() == 0 {
        assert(ids =~= Set::empty());
        vstd::set::fold::lemma_fold_empty(0int, add_held(m1, token));
        vstd::set::fold::lemma_fold_empty(0int, add_held(m2, token));
    } else {
        let x = ids.choose();
        let rest = ids.remove(x);
        lemma_sum_congruent(m1, m2, rest, token);
        assert(rest.insert(x) =~= ids);
        lemma_add_held_commutative(m1, token);
        lemma_add_held_commutative(m2, token);
        vstd::set::fold::lemma_fold_insert(rest, 0int, add_held(m1, token), x);
        vstd::set::fold::lemma_fold_insert(rest, 0int, add_held(m2, token), x);
    }
}

/// Storing `v` under `k` changes the total by what `v` holds less what the
/// replaced record held.
proof fn lemma_total_after_insert(
    m: Map<u64, EscrowRecord>,
    k: u64,
    v: EscrowRecord,
    token: Seq<char>,
)
    requires
        m.dom().finite(),
    ensures
        total_held(m.insert(k, v), token) == total_held(m, token) - (if m.contains_key(k) {
            held_of(m[k], token)
        } else {
            0
        }) + held_of(v, token),
{
    let m2 = m.insert(k, v);
    let rest = m.dom().remove(k);
    assert(m2.dom() =~= rest.insert(k));
    lemma_add_held_commutative(m, token);
    lemma_add_held_commutative(m2, token);
    vstd::set::fold::lemma_fold_insert(rest, 0int, add_held(m2, token), k);
    lemma_sum_congruent(m, m2, rest, token);
    if m.contains_key(k) {
        assert(m.dom() =~= rest.insert(k));
        vstd::set::fold::lemma_fold_insert(rest, 0int, add_held(m, token), k);
    } else {
        assert(m.dom() =~= rest);
    }
}

/// One operation changes what the contract holds of a token by exactly the
/// net amount of that token that it moves into the contract.
pub proof fn lemma_operation_custody_total(s: ContractView, op: Operation, token: Seq<char>)
    requires
        s.wf(),
    ensures
        total_held(s.apply(op).escrows, token) == total_held(s.escrows, token) + inflow_of(
            s,
            op,
            token,
        ),
{
    match s.escrow_step(op) {
        None => {
            assert(s.apply(op).escrows == s.escrows);
        },
        Some((e, step)) => {
            lemma_custody(s, op);
            match step.result {
                Err(_) => {
                    assert(s.apply(op).escrows == s.escrows);
                },
                Ok(st) => {
                    assert(st.escrow_id == e);
                    assert(s.apply(op).escrows == s.escrows.insert(e, st.record));
                    if s.escrows.contains_key(e) {
                        lemma_terms_never_change(s, op, e);
                    }
                    lemma_total_after_insert(s.escrows, e, st.record, token);
                },
            }
        },
    }
}

/// Custody over a whole run: for every token, what the contract holds for
/// the escrows of that token equals the net amount of it that all the
/// operations so far moved into the contract. Each escrow's amount comes in
/// once, when it is funded, and goes out once, when it is released or
/// refunded.
pub proof fn lemma_solvency(ops: Seq<Operation>, token: Seq<char>)
    ensures
        run_inflow(ops, token) == total_held(run(ops).escrows, token),
    decreases ops.len(),
{
    if ops.len() == 0 {
        assert(run(ops).escrows.dom() =~= Set::empty());
        vstd::set::fold::lemma_fold_empty(0int, add_held(run(ops).escrows, token));
    } else {
        lemma_solvency(ops.drop_last(), token);
        lemma_reachable_wf(ops.drop_last());
        lemma_operation_custody_total(run(ops.drop_last()), ops.last(), token);
    }
}

} // verus!
