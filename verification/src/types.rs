use vstd::prelude::*;

verus! {

/// An account or contract address, identified by its strkey text
/// (`G...` for accounts, `C...` for contracts). Two addresses are the same
/// party exactly when their strkeys are equal.
#[derive(Debug)]
pub struct Address {
    strkey: String,
}

impl View for Address {
    type V = Seq<char>;

    closed spec fn view(&self) -> Seq<char> {
        self.strkey@
    }
}

impl Address {
    /// The address whose strkey is `strkey`.
    pub fn from_strkey(strkey: &str) -> (a: Address)
        ensures
            a@ == strkey@,
    {
        Address { strkey: strkey.to_owned() }
    }

    /// The strkey text of this address.
    pub fn as_str(&self) -> (s: &str)
        ensures
            s@ == self@,
    {
        self.strkey.as_str()
    }

    /// Whether `self` and `other` name the same party.
    pub fn same_as(&self, other: &Address) -> (r: bool)
        ensures
            r == (self@ == other@),
    {
        self.strkey == other.strkey
    }
}

impl Clone for Address {
    fn clone(&self) -> (r: Self)
        ensures
            r == *self,
    {
        Address { strkey: self.strkey.clone() }
    }
}

impl PartialEq for Address {
    fn eq(&self, other: &Self) -> (r: bool) {
        self.strkey == other.strkey
    }
}

impl vstd::std_specs::cmp::PartialEqSpecImpl for Address {
    open spec fn obeys_eq_spec() -> bool {
        true
    }

    open spec fn eq_spec(&self, other: &Self) -> bool {
        self@ == other@
    }
}

impl Eq for Address {

}

/// Where an escrow is in its life.
#[derive(Clone, Copy, Debug, PartialEq, Eq, Structural)]
pub enum EscrowState {
    Created,
    Funded,
    Released,
    Refunded,
    Disputed,
}

impl EscrowState {
    /// Whether the escrow has been paid out, to either side; no operation
    /// moves an escrow out of such a state.
    pub open spec fn is_settled(self) -> bool {
        self == EscrowState::Released || self == EscrowState::Refunded
    }

    /// Whether the contract holds the escrowed tokens in this state.
    pub open spec fn holds_funds(self) -> bool {
        self == EscrowState::Funded || self == EscrowState::Disputed
    }
}

/// The stored terms and progress of one escrow.
#[derive(Debug)]
pub struct EscrowRecord {
    pub escrow_id: u64,
    pub order_id: u64,
    pub buyer: Address,
    pub seller: Address,
    pub token: Address,
    pub amount: i128,
    pub state: EscrowState,
    pub created_at: u64,
    pub funded_at: u64,
    pub released_at: u64,
    pub refunded_at: u64,
}

impl EscrowRecord {
    /// The two records agree on every field, addresses compared as parties.
    pub open spec fn same_record(self, other: EscrowRecord) -> bool {
        &&& self.escrow_id == other.escrow_id
        &&& self.order_id == other.order_id
        &&& self.buyer@ == other.buyer@
        &&& self.seller@ == other.seller@
        &&& self.token@ == other.token@
        &&& self.amount == other.amount
        &&& self.state == other.state
        &&& self.created_at == other.created_at
        &&& self.funded_at == other.funded_at
        &&& self.released_at == other.released_at
        &&& self.refunded_at == other.refunded_at
    }

    /// The two records agree on the terms fixed at creation: the ids, the
    /// parties, the token, the amount and the creation time.
    pub open spec fn same_terms(self, other: EscrowRecord) -> bool {
        &&& self.escrow_id == other.escrow_id
        &&& self.order_id == other.order_id
        &&& self.buyer == other.buyer
        &&& self.seller == other.seller
        &&& self.token == other.token
        &&& self.amount == other.amount
        &&& self.created_at == other.created_at
    }
}

impl Clone for EscrowRecord {
    fn clone(&self) -> (r: Self)
        ensures
            r == *self,
    {
        EscrowRecord {
            escrow_id: self.escrow_id,
            order_id: self.order_id,
            buyer: self.buyer.clone(),
            seller: self.seller.clone(),
            token: self.token.clone(),
            amount: self.amount,
            state: self.state,
            created_at: self.created_at,
            funded_at: self.funded_at,
            released_at: self.released_at,
            refunded_at: self.refunded_at,
        }
    }
}

impl PartialEq for EscrowRecord {
    fn eq(&self, other: &Self) -> (r: bool) {
        self.escrow_id == other.escrow_id && self.order_id == other.order_id
            && self.buyer.same_as(&other.buyer) && self.seller.same_as(&other.seller)
            && self.token.same_as(&other.token) && self.amount == other.amount
            && self.state == other.state && self.created_at == other.created_at
            && self.funded_at == other.funded_at && self.released_at == other.released_at
            && self.refunded_at == other.refunded_at
    }
}

impl vstd::std_specs::cmp::PartialEqSpecImpl for EscrowRecord {
    open spec fn obeys_eq_spec() -> bool {
        true
    }

    open spec fn eq_spec(&self, other: &Self) -> bool {
        self.same_record(*other)
    }
}

impl Eq for EscrowRecord {

}

/// The keys under which the contract keeps its state.
#[derive(Clone, Copy, Debug, PartialEq, Eq, Structural)]
pub enum DataKey {
    Admin,
    Escrow(u64),
    OrderEscrow(u64),
}

} // verus!
