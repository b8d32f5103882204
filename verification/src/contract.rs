//! The escrow contract as a state machine over its storage: the admin slot,
//! the escrow records by escrow id, and the escrow id of each order.
use vstd::prelude::*;

use std::collections::HashMap;

use crate::errors::EscrowError;
use crate::rules::{
    admin_rule, admin_step, create_rule, create_step, dispute_rule, dispute_step, found, found_rule,
    fund_rule, fund_step, initialize_rule, initialize_step, refund_rule, refund_step, release_rule,
    release_step, resolve_rule, resolve_step, set_admin_rule, set_admin_step, Settlement, Step,
    StorageWrite,
};
use crate::types::{Address, DataKey, EscrowRecord};

verus! {

broadcast use vstd::std_specs::hash::group_hash_axioms;

/// The entry of `m` under `k`, if there is one.
pub open spec fn lookup<V>(m: Map<u64, V>, k: u64) -> Option<V> {
    if m.contains_key(k) {
        Some(m[k])
    } else {
        None
    }
}

/// The contents of the contract's storage.
#[verifier::ext_equal]
pub struct ContractView {
    /// What is stored under `DataKey::Admin`.
    pub admin: Option<Address>,
    /// What is stored under `DataKey::Escrow(id)`, by id.
    pub escrows: Map<u64, EscrowRecord>,
    /// What is stored under `DataKey::OrderEscrow(order)`, by order.
    pub orders: Map<u64, u64>,
}

impl ContractView {
    /// Storage before any operation.
    pub open spec fn empty() -> ContractView {
        ContractView { admin: None, escrows: Map::empty(), orders: Map::empty() }
    }

    /// What every reachable storage satisfies: finitely many escrows, each
    /// record stored under its own id and indexed under its own order, each
    /// indexed order pointing at a record of that order, and every record
    /// with a positive amount and two distinct parties.
    pub open spec fn wf(self) -> bool {
        &&& self.escrows.dom().finite()
        &&& forall|e: u64| #[trigger]
            self.escrows.contains_key(e) ==> {
                let r = self.escrows[e];
                &&& r.escrow_id == e
                &&& self.orders.contains_key(r.order_id)
                &&& self.orders[r.order_id] == e
                &&& r.amount > 0
                &&& r.buyer@ != r.seller@
            }
        &&& forall|o: u64| #[trigger]
            self.orders.contains_key(o) ==> {
                &&& self.escrows.contains_key(self.orders[o])
                &&& self.escrows[self.orders[o]].order_id == o
            }
    }

    /// Whether storage holds an entry under `key`.
    pub open spec fn has(self, key: DataKey) -> bool {
        match key {
            DataKey::Admin => self.admin is Some,
            DataKey::Escrow(escrow_id) => self.escrows.contains_key(escrow_id),
            DataKey::OrderEscrow(order_id) => self.orders.contains_key(order_id),
        }
    }

    /// Storage after writing one entry.
    pub open spec fn write(self, w: StorageWrite) -> ContractView {
        match w {
            StorageWrite::Admin(admin) => ContractView { admin: Some(admin), ..self },
            StorageWrite::Escrow(escrow_id, record) => ContractView {
                escrows: self.escrows.insert(escrow_id, record),
                ..self
            },
            StorageWrite::OrderEscrow(order_id, escrow_id) => ContractView {
                orders: self.orders.insert(order_id, escrow_id),
                ..self
            },
        }
    }

    /// Storage after writing the entries `ws`, in order.
    pub open spec fn write_all(self, ws: Seq<StorageWrite>) -> ContractView
        decreases ws.len(),
    {
        if ws.len() == 0 {
            self
        } else {
            self.write_all(ws.drop_last()).write(ws.last())
        }
    }

    /// Storage after a settled operation: its record replaces the stored
    /// one, and a new escrow's order is indexed to it.
    pub open spec fn settled(self, st: Settlement) -> ContractView {
        ContractView {
            escrows: self.escrows.insert(st.escrow_id, st.record),
            orders: if st.indexes_order {
                self.orders.insert(st.record.order_id, st.escrow_id)
            } else {
                self.orders
            },
            ..self
        }
    }

    /// Storage after `step`: settled on success, unchanged on failure.
    pub open spec fn settle(self, step: Step<Settlement>) -> ContractView {
        match step.result {
            Ok(st) => self.settled(st),
            Err(_) => self,
        }
    }

    /// What `get_admin` returns.
    pub open spec fn get_admin(self) -> Result<Address, EscrowError> {
        admin_rule(self.admin)
    }

    /// What `get_escrow` returns.
    pub open spec fn get_escrow(self, escrow_id: u64) -> Result<EscrowRecord, EscrowError> {
        found_rule(lookup(self.escrows, escrow_id))
    }

    /// What `get_escrow_by_order` returns: the escrow that the order is
    /// indexed to.
    pub open spec fn get_escrow_by_order(self, order_id: u64) -> Result<EscrowRecord, EscrowError> {
        match lookup(self.orders, order_id) {
            None => Err(EscrowError::NotFound),
            Some(escrow_id) => self.get_escrow(escrow_id),
        }
    }

    /// Storage after `initialize`, and its decision.
    pub open spec fn initialize(self, admin: Address) -> (ContractView, Step<StorageWrite>) {
        let step = initialize_rule(self.admin, admin);
        (
            match step.result {
                Ok(w) => self.write(w),
                Err(_) => self,
            },
            step,
        )
    }

    /// Storage after `set_admin`, and its decision.
    pub open spec fn set_admin(self, new_admin: Address) -> (ContractView, Step<StorageWrite>) {
        let step = set_admin_rule(self.admin, new_admin);
        (
            match step.result {
                Ok(w) => self.write(w),
                Err(_) => self,
            },
            step,
        )
    }

    /// Storage after `create_escrow`, and its decision: on success the record
    /// is stored under its id and the order is indexed to it.
    pub open spec fn create_escrow(
        self,
        escrow_id: u64,
        order_id: u64,
        buyer: Address,
        seller: Address,
        token: Address,
        amount: i128,
        now: u64,
    ) -> (ContractView, Step<Settlement>) {
        let step = create_rule(
            escrow_id,
            order_id,
            buyer,
            seller,
            token,
            amount,
            self.has(DataKey::Escrow(escrow_id)),
            self.has(DataKey::OrderEscrow(order_id)),
            now,
        );
        (self.settle(step), step)
    }

    /// Storage after `fund_escrow`, and its decision.
    pub open spec fn fund_escrow(self, escrow_id: u64, now: u64) -> (ContractView, Step<Settlement>) {
        let step = fund_rule(escrow_id, lookup(self.escrows, escrow_id), now);
        (self.settle(step), step)
    }

    /// Storage after `release_escrow`, and its decision.
    pub open spec fn release_escrow(self, escrow_id: u64, now: u64) -> (ContractView, Step<
        Settlement,
    >) {
        let step = release_rule(escrow_id, lookup(self.escrows, escrow_id), self.admin, now);
        (self.settle(step), step)
    }

    /// Storage after `refund_escrow`, and its decision.
    pub open spec fn refund_escrow(self, escrow_id: u64, now: u64) -> (ContractView, Step<
        Settlement,
    >) {
        let step = refund_rule(escrow_id, lookup(self.escrows, escrow_id), self.admin, now);
        (self.settle(step), step)
    }

    /// Storage after `dispute_escrow`, and its decision.
    pub open spec fn dispute_escrow(self, escrow_id: u64, caller: Address) -> (ContractView, Step<
        Settlement,
    >) {
        let step = dispute_rule(escrow_id, caller, lookup(self.escrows, escrow_id));
        (self.settle(step), step)
    }

    /// Storage after `resolve_dispute`, and its decision.
    pub open spec fn resolve_dispute(self, escrow_id: u64, release_to_seller: bool, now: u64) -> (
        ContractView,
        Step<Settlement>,
    ) {
        let step = resolve_rule(
            escrow_id,
            release_to_seller,
            self.admin,
            lookup(self.escrows, escrow_id),
            now,
        );
        (self.settle(step), step)
    }
}

/// Writing the entries that a settlement names gives the settled storage.
pub proof fn lemma_writes_settle(s: ContractView, st: Settlement)
    ensures
        s.write_all(st.spec_writes()) == s.settled(st),
{
    let record_write = seq![StorageWrite::Escrow(st.escrow_id, st.record)];
    assert(record_write.drop_last() =~= Seq::<StorageWrite>::empty());
    if st.indexes_order {
        assert(st.spec_writes().drop_last() =~= record_write);
    }
    reveal_with_fuel(ContractView::write_all, 3);
    assert(s.write_all(st.spec_writes()) =~= s.settled(st));
}

/// The storage entries, held in memory.
struct Storage {
    admin: Option<Address>,
    escrows: HashMap<u64, EscrowRecord>,
    order_escrows: HashMap<u64, u64>,
}

impl View for Storage {
    type V = ContractView;

    closed spec fn view(&self) -> ContractView {
        ContractView { admin: self.admin, escrows: self.escrows@, orders: self.order_escrows@ }
    }
}

impl Storage {
    fn empty() -> (st: Storage)
        ensures
            st@ == ContractView::empty(),
    {
        let st = Storage { admin: None, escrows: HashMap::new(), order_escrows: HashMap::new() };
        assert(st@ =~= ContractView::empty());
        st
    }

    fn has(&self, key: DataKey) -> (r: bool)
        ensures
            r == self@.has(key),
    {
        match key {
            DataKey::Admin => self.admin.is_some(),
            DataKey::Escrow(escrow_id) => self.escrows.contains_key(&escrow_id),
            DataKey::OrderEscrow(order_id) => self.order_escrows.contains_key(&order_id),
        }
    }

    fn stored_admin(&self) -> (a: Option<Address>)
        ensures
            a == self@.admin,
    {
        match &self.admin {
            Some(a) => Some(a.clone()),
            None => None,
        }
    }

    fn stored_escrow(&self, escrow_id: u64) -> (r: Option<EscrowRecord>)
        ensures
            r == lookup(self@.escrows, escrow_id),
    {
        match self.escrows.get(&escrow_id) {
            Some(r) => Some(r.clone()),
            None => None,
        }
    }

    fn stored_order(&self, order_id: u64) -> (r: Option<u64>)
        ensures
            r == lookup(self@.orders, order_id),
    {
        match self.order_escrows.get(&order_id) {
            Some(e) => Some(*e),
            None => None,
        }
    }

    fn perform(&mut self, w: &StorageWrite)
        ensures
            final(self)@ == old(self)@.write(*w),
    {
        match w {
            StorageWrite::Admin(admin) => {
                self.admin = Some(admin.clone());
            },
            StorageWrite::Escrow(escrow_id, record) => {
                self.escrows.insert(*escrow_id, record.clone());
            },
            StorageWrite::OrderEscrow(order_id, escrow_id) => {
                self.order_escrows.insert(*order_id, *escrow_id);
            },
        }
    }

    fn perform_all(&mut self, ws: &Vec<StorageWrite>)
        ensures
            final(self)@ == old(self)@.write_all(ws@),
    {
        let ghost start = self@;
        let mut i: usize = 0;
        while i < ws.len()
            invariant
                i <= ws.len(),
                self@ == start.write_all(ws@.take(i as int)),
            decreases ws.len() - i,
        {
            assert(ws@.take(i + 1).drop_last() =~= ws@.take(i as int));
            self.perform(&ws[i]);
            i += 1;
        }
        assert(ws@.take(ws.len() as int) =~= ws@);
    }
}

/// The escrow contract, holding its storage in memory. Every operation
/// returns its decision: whose authorization it demands, and what it
/// returns, transfers, writes and publishes; the storage changes, by exactly
/// the decided writes, only when the operation succeeds, as though the
/// demanded authorization was given. Its storage is always well formed.
pub struct TroitEscrowContract {
    storage: Storage,
}

impl View for TroitEscrowContract {
    type V = ContractView;

    closed spec fn view(&self) -> ContractView {
        self.storage@
    }
}

impl TroitEscrowContract {
    #[verifier::type_invariant]
    spec fn well_formed(self) -> bool {
        self.storage@.wf()
    }

    /// A contract with empty storage.
    pub fn new() -> (c: TroitEscrowContract)
        ensures
            c@ == ContractView::empty(),
            c@.wf(),
    {
        TroitEscrowContract { storage: Storage::empty() }
    }

    /// Whether storage holds an entry under `key`.
    pub fn has(&self, key: DataKey) -> (r: bool)
        ensures
            r == self@.has(key),
    {
        self.storage.has(key)
    }

    /// Performs the writes `ws`, which leave the storage well formed.
    fn perform_all(&mut self, ws: &Vec<StorageWrite>)
        requires
            old(self)@.write_all(ws@).wf(),
        ensures
            final(self)@ == old(self)@.write_all(ws@),
    {
        let mut storage = Storage::empty();
        std::mem::swap(&mut storage, &mut self.storage);
        storage.perform_all(ws);
        self.storage = storage;
    }

    /// Performs the writes of `step`, on success.
    fn settle(&mut self, step: &Step<Settlement>)
        requires
            old(self)@.settle(*step).wf(),
        ensures
            final(self)@ == old(self)@.settle(*step),
    {
        if let Ok(st) = &step.result {
            proof {
                lemma_writes_settle(self@, *st);
            }
            self.perform_all(&st.writes());
        }
    }

    /// Sets the first admin. Can only be called once.
    pub fn initialize(&mut self, admin: Address) -> (step: Step<StorageWrite>)
        ensures
            (final(self)@, step) == old(self)@.initialize(admin),
            final(self)@.wf(),
    {
        proof {
            use_type_invariant(&*self);
        }
        let step = initialize_step(&self.storage.admin, admin);
        if let Ok(w) = &step.result {
            let mut storage = Storage::empty();
            std::mem::swap(&mut storage, &mut self.storage);
            storage.perform(w);
            self.storage = storage;
        }
        step
    }

    /// The current admin.
    pub fn get_admin(&self) -> (r: Result<Address, EscrowError>)
        ensures
            r == self@.get_admin(),
    {
        admin_step(self.storage.stored_admin())
    }

    /// Replaces the admin; demanded of the current admin.
    pub fn set_admin(&mut self, new_admin: Address) -> (step: Step<StorageWrite>)
        ensures
            (final(self)@, step) == old(self)@.set_admin(new_admin),
            final(self)@.wf(),
    {
        proof {
            use_type_invariant(&*self);
        }
        let step = set_admin_step(self.storage.stored_admin(), new_admin);
        if let Ok(w) = &step.result {
            let mut storage = Storage::empty();
            std::mem::swap(&mut storage, &mut self.storage);
            storage.perform(w);
            self.storage = storage;
        }
        step
    }

    /// Creates a new escrow for an order, in state `Created`, at time `now`.
    pub fn create_escrow(
        &mut self,
        escrow_id: u64,
        order_id: u64,
        buyer: Address,
        seller: Address,
        token: Address,
        amount: i128,
        now: u64,
    ) -> (step: Step<Settlement>)
        ensures
            (final(self)@, step) == old(self)@.create_escrow(
                escrow_id,
                order_id,
                buyer,
                seller,
                token,
                amount,
                now,
            ),
            final(self)@.wf(),
    {
        proof {
            use_type_invariant(&*self);
        }
        let escrow_taken = self.has(DataKey::Escrow(escrow_id));
        let order_taken = self.has(DataKey::OrderEscrow(order_id));
        let step = create_step(
            escrow_id,
            order_id,
            buyer,
            seller,
            token,
            amount,
            escrow_taken,
            order_taken,
            now,
        );
        self.settle(&step);
        step
    }

    /// Funds a created escrow from the buyer, at time `now`.
    pub fn fund_escrow(&mut self, escrow_id: u64, now: u64) -> (step: Step<Settlement>)
        ensures
            (final(self)@, step) == old(self)@.fund_escrow(escrow_id, now),
            final(self)@.wf(),
    {
        proof {
            use_type_invariant(&*self);
        }
        let step = fund_step(escrow_id, self.storage.stored_escrow(escrow_id), now);
        self.settle(&step);
        step
    }

    /// Releases a funded or disputed escrow to the seller, at time `now`.
    pub fn release_escrow(&mut self, escrow_id: u64, now: u64) -> (step: Step<Settlement>)
        ensures
            (final(self)@, step) == old(self)@.release_escrow(escrow_id, now),
            final(self)@.wf(),
    {
        proof {
            use_type_invariant(&*self);
        }
        let step = release_step(
            escrow_id,
            self.storage.stored_escrow(escrow_id),
            self.storage.stored_admin(),
            now,
        );
        self.settle(&step);
        step
    }

    /// Refunds a funded or disputed escrow to the buyer, at time `now`.
    pub fn refund_escrow(&mut self, escrow_id: u64, now: u64) -> (step: Step<Settlement>)
        ensures
            (final(self)@, step) == old(self)@.refund_escrow(escrow_id, now),
            final(self)@.wf(),
    {
        proof {
            use_type_invariant(&*self);
        }
        let step = refund_step(
            escrow_id,
            self.storage.stored_escrow(escrow_id),
            self.storage.stored_admin(),
            now,
        );
        self.settle(&step);
        step
    }

    /// Flags a funded escrow as disputed, on behalf of its buyer or seller.
    pub fn dispute_escrow(&mut self, escrow_id: u64, caller: Address) -> (step: Step<Settlement>)
        ensures
            (final(self)@, step) == old(self)@.dispute_escrow(escrow_id, caller),
            final(self)@.wf(),
    {
        proof {
            use_type_invariant(&*self);
        }
        let step = dispute_step(escrow_id, caller, self.storage.stored_escrow(escrow_id));
        self.settle(&step);
        step
    }

    /// Resolves a disputed escrow: to the seller if `release_to_seller`,
    /// else back to the buyer, at time `now`.
    pub fn resolve_dispute(&mut self, escrow_id: u64, release_to_seller: bool, now: u64) -> (step:
        Step<Settlement>)
        ensures
            (final(self)@, step) == old(self)@.resolve_dispute(escrow_id, release_to_seller, now),
            final(self)@.wf(),
    {
        proof {
            use_type_invariant(&*self);
        }
        let step = resolve_step(
            escrow_id,
            release_to_seller,
            self.storage.stored_admin(),
            self.storage.stored_escrow(escrow_id),
            now,
        );
        self.settle(&step);
        step
    }

    /// The escrow stored under `escrow_id`.
    pub fn get_escrow(&self, escrow_id: u64) -> (r: Result<EscrowRecord, EscrowError>)
        ensures
            r == self@.get_escrow(escrow_id),
    {
        found(self.storage.stored_escrow(escrow_id))
    }

    /// The escrow created for the order `order_id`.
    pub fn get_escrow_by_order(&self, order_id: u64) -> (r: Result<EscrowRecord, EscrowError>)
        ensures
            r == self@.get_escrow_by_order(order_id),
    {
        let escrow_id = found(self.storage.stored_order(order_id))?;
        self.get_escrow(escrow_id)
    }
}

} // verus!
