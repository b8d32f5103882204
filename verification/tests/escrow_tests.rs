use troit_escrow::contract::TroitEscrowContract;
use troit_escrow::errors::EscrowError;
use troit_escrow::events::EscrowEvent;
use troit_escrow::rules::{Party, Settlement, Step, StorageWrite, Transfer};
use troit_escrow::types::DataKey;
use troit_escrow::types::{Address, EscrowState};

const NOW: u64 = 1000;

const ADMIN: &str = "GADMINXXXXXXXXXXXXXXXXXXXXXXXXXXXXXXXXXXXXXXXXXXXXXXXXXX";
const BUYER: &str = "GBUYERXXXXXXXXXXXXXXXXXXXXXXXXXXXXXXXXXXXXXXXXXXXXXXXXXX";
const SELLER: &str = "GSELLERXXXXXXXXXXXXXXXXXXXXXXXXXXXXXXXXXXXXXXXXXXXXXXXXX";
const STRANGER: &str = "GSTRANGERXXXXXXXXXXXXXXXXXXXXXXXXXXXXXXXXXXXXXXXXXXXXXXX";
const TOKEN: &str = "CTOKENXXXXXXXXXXXXXXXXXXXXXXXXXXXXXXXXXXXXXXXXXXXXXXXXXX";

fn addr(s: &str) -> Address {
    Address::from_strkey(s)
}

/// A contract with its admin set, and the parties of the tests.
fn create_test_env() -> (TroitEscrowContract, Address, Address, Address, Address, Address) {
    let mut client = TroitEscrowContract::new();
    let admin = addr(ADMIN);
    assert!(client.initialize(admin.clone()).result.is_ok());
    (client, admin, addr(BUYER), addr(SELLER), addr(STRANGER), addr(TOKEN))
}

fn ok(step: Step<Settlement>) -> Settlement {
    match step.result {
        Ok(s) => s,
        Err(e) => panic!("operation refused: {:?}", e),
    }
}

fn err<T>(step: Step<T>) -> EscrowError {
    match step.result {
        Ok(_) => panic!("operation succeeded"),
        Err(e) => e,
    }
}

fn assert_transfer(t: &Option<Transfer>, from: Option<&Address>, to: Option<&Address>, amount: i128) {
    let t = t.as_ref().expect("a transfer");
    assert_eq!(t.token, addr(TOKEN));
    assert_eq!(t.amount, amount);
    match (&t.from, from) {
        (Party::Contract, None) => {}
        (Party::Account(a), Some(b)) => assert_eq!(a, b),
        _ => panic!("wrong payer"),
    }
    match (&t.to, to) {
        (Party::Contract, None) => {}
        (Party::Account(a), Some(b)) => assert_eq!(a, b),
        _ => panic!("wrong payee"),
    }
}

fn create_and_fund(
    client: &mut TroitEscrowContract,
    buyer: &Address,
    seller: &Address,
    token: &Address,
) {
    ok(client.create_escrow(1, 100, buyer.clone(), seller.clone(), token.clone(), 500, NOW));
    ok(client.fund_escrow(1, NOW));
}

#[test]
fn test_initialization() {
    let mut client = TroitEscrowContract::new();
    let admin = addr(ADMIN);

    // Get admin before init fails
    assert_eq!(client.get_admin(), Err(EscrowError::NotInitialized));

    // Init admin succeeds
    let step = client.initialize(admin.clone());
    assert!(step.result.is_ok());
    assert_eq!(step.auth, Some(admin.clone()));
    assert_eq!(client.get_admin(), Ok(admin.clone()));

    // Double init fails
    let another_admin = addr(STRANGER);
    assert_eq!(err(client.initialize(another_admin.clone())), EscrowError::AlreadyInitialized);

    // Set new admin, authorized by the current one
    let step = client.set_admin(another_admin.clone());
    assert!(step.result.is_ok());
    assert_eq!(step.auth, Some(admin));
    assert_eq!(client.get_admin(), Ok(another_admin));
}

#[test]
fn test_create_escrow_success() {
    let (mut client, _admin, buyer, seller, _stranger, token_id) = create_test_env();

    let escrow_id = 1u64;
    let order_id = 100u64;
    let amount = 500i128;

    let step = client.create_escrow(
        escrow_id,
        order_id,
        buyer.clone(),
        seller.clone(),
        token_id.clone(),
        amount,
        NOW,
    );
    assert_eq!(step.auth, Some(buyer.clone()));
    let record = ok(step).record;

    assert_eq!(record.escrow_id, escrow_id);
    assert_eq!(record.order_id, order_id);
    assert_eq!(record.buyer, buyer);
    assert_eq!(record.seller, seller);
    assert_eq!(record.amount, amount);
    assert_eq!(record.state, EscrowState::Created);

    // Lookup by escrow ID and order ID
    let fetched = client.get_escrow(escrow_id);
    assert_eq!(fetched, Ok(record.clone()));

    let fetched_by_order = client.get_escrow_by_order(order_id);
    assert_eq!(fetched_by_order, Ok(record));
}

#[test]
fn test_create_escrow_validations() {
    let (mut client, _admin, buyer, seller, _stranger, token_id) = create_test_env();

    // Amount <= 0 fails
    assert_eq!(
        err(client.create_escrow(1, 100, buyer.clone(), seller.clone(), token_id.clone(), 0, NOW)),
        EscrowError::InvalidAmount
    );
    assert_eq!(
        err(client.create_escrow(1, 100, buyer.clone(), seller.clone(), token_id.clone(), -50, NOW)),
        EscrowError::InvalidAmount
    );

    // Buyer == Seller fails
    assert_eq!(
        err(client.create_escrow(1, 100, buyer.clone(), buyer.clone(), token_id.clone(), 100, NOW)),
        EscrowError::SameBuyerSeller
    );

    // Successful creation
    ok(client.create_escrow(1, 100, buyer.clone(), seller.clone(), token_id.clone(), 100, NOW));

    // Duplicate escrow ID fails
    assert_eq!(
        err(client.create_escrow(1, 101, buyer.clone(), seller.clone(), token_id.clone(), 100, NOW)),
        EscrowError::AlreadyExists
    );

    // Duplicate order ID fails
    assert_eq!(
        err(client.create_escrow(2, 100, buyer.clone(), seller.clone(), token_id.clone(), 100, NOW)),
        EscrowError::OrderEscrowExists
    );
}

#[test]
fn test_fund_escrow_success() {
    let (mut client, _admin, buyer, seller, _stranger, token_id) = create_test_env();

    let escrow_id = 1u64;
    let order_id = 100u64;
    let amount = 500i128;

    ok(client.create_escrow(escrow_id, order_id, buyer.clone(), seller.clone(), token_id.clone(), amount, NOW));

    let step = client.fund_escrow(escrow_id, NOW);
    assert_eq!(step.auth, Some(buyer.clone()));
    let funded = ok(step);
    assert_eq!(funded.record.state, EscrowState::Funded);
    assert!(funded.record.funded_at > 0);

    // Tokens move from the buyer to the contract
    assert_transfer(&funded.transfer, Some(&buyer), None, amount);
}

#[test]
fn test_fund_escrow_failures() {
    let (mut client, _admin, buyer, seller, _stranger, token_id) = create_test_env();

    // Fund non-existent escrow fails
    assert_eq!(err(client.fund_escrow(999, NOW)), EscrowError::NotFound);

    let escrow_id = 1u64;
    let order_id = 100u64;
    let amount = 500i128;

    ok(client.create_escrow(escrow_id, order_id, buyer, seller, token_id, amount, NOW));

    // First funding succeeds
    ok(client.fund_escrow(escrow_id, NOW));

    // Double funding fails
    assert_eq!(err(client.fund_escrow(escrow_id, NOW)), EscrowError::InvalidState);
}

#[test]
fn test_release_escrow_success() {
    let (mut client, _admin, buyer, seller, _stranger, token_id) = create_test_env();

    let escrow_id = 1u64;
    let amount = 500i128;
    create_and_fund(&mut client, &buyer, &seller, &token_id);

    let step = client.release_escrow(escrow_id, NOW);
    assert_eq!(step.auth, Some(buyer.clone()));
    let released = ok(step);
    assert_eq!(released.record.state, EscrowState::Released);
    assert!(released.record.released_at > 0);

    // Funds move from the contract to the seller
    assert_transfer(&released.transfer, None, Some(&seller), amount);
}

#[test]
fn test_release_escrow_invariants() {
    let (mut client, _admin, buyer, seller, _stranger, token_id) = create_test_env();

    let escrow_id = 1u64;
    let order_id = 100u64;
    let amount = 500i128;

    ok(client.create_escrow(escrow_id, order_id, buyer, seller, token_id, amount, NOW));

    // Release before funding fails
    assert_eq!(err(client.release_escrow(escrow_id, NOW)), EscrowError::InvalidState);

    ok(client.fund_escrow(escrow_id, NOW));
    ok(client.release_escrow(escrow_id, NOW));

    // Double release fails
    assert_eq!(err(client.release_escrow(escrow_id, NOW)), EscrowError::InvalidState);

    // Refund after release fails
    assert_eq!(err(client.refund_escrow(escrow_id, NOW)), EscrowError::InvalidState);
}

#[test]
fn test_refund_escrow_success() {
    let (mut client, _admin, buyer, seller, _stranger, token_id) = create_test_env();

    let escrow_id = 1u64;
    let amount = 500i128;
    create_and_fund(&mut client, &buyer, &seller, &token_id);

    let step = client.refund_escrow(escrow_id, NOW);
    assert_eq!(step.auth, Some(seller.clone()));
    let refunded = ok(step);
    assert_eq!(refunded.record.state, EscrowState::Refunded);
    assert!(refunded.record.refunded_at > 0);

    // Funds move back from the contract to the buyer
    assert_transfer(&refunded.transfer, None, Some(&buyer), amount);
}

#[test]
fn test_refund_escrow_invariants() {
    let (mut client, _admin, buyer, seller, _stranger, token_id) = create_test_env();

    let escrow_id = 1u64;
    let order_id = 100u64;
    let amount = 500i128;

    ok(client.create_escrow(escrow_id, order_id, buyer, seller, token_id, amount, NOW));

    // Refund before funding fails
    assert_eq!(err(client.refund_escrow(escrow_id, NOW)), EscrowError::InvalidState);

    ok(client.fund_escrow(escrow_id, NOW));
    ok(client.refund_escrow(escrow_id, NOW));

    // Double refund fails
    assert_eq!(err(client.refund_escrow(escrow_id, NOW)), EscrowError::InvalidState);

    // Release after refund fails
    assert_eq!(err(client.release_escrow(escrow_id, NOW)), EscrowError::InvalidState);
}

#[test]
fn test_dispute_and_resolution() {
    let (mut client, admin, buyer, seller, stranger, token_id) = create_test_env();

    let escrow_id = 1u64;
    let amount = 500i128;
    create_and_fund(&mut client, &buyer, &seller, &token_id);

    // Stranger cannot dispute
    assert_eq!(err(client.dispute_escrow(escrow_id, stranger)), EscrowError::Unauthorized);

    // Buyer disputes
    let step = client.dispute_escrow(escrow_id, buyer.clone());
    assert_eq!(step.auth, Some(buyer.clone()));
    let disputed = ok(step);
    assert_eq!(disputed.record.state, EscrowState::Disputed);
    assert!(disputed.transfer.is_none());

    // Admin resolves dispute in favor of buyer
    let step = client.resolve_dispute(escrow_id, false, NOW);
    assert_eq!(step.auth, Some(admin));
    let resolved = ok(step);
    assert_eq!(resolved.record.state, EscrowState::Refunded);
    assert_transfer(&resolved.transfer, None, Some(&buyer), amount);
}

#[test]
fn test_dispute_resolution_seller() {
    let (mut client, _admin, buyer, seller, _stranger, token_id) = create_test_env();

    let escrow_id = 1u64;
    let amount = 500i128;
    create_and_fund(&mut client, &buyer, &seller, &token_id);

    // Seller disputes
    ok(client.dispute_escrow(escrow_id, seller.clone()));

    // Admin resolves dispute in favor of seller
    let resolved = ok(client.resolve_dispute(escrow_id, true, NOW));
    assert_eq!(resolved.record.state, EscrowState::Released);
    assert_transfer(&resolved.transfer, None, Some(&seller), amount);
}

#[test]
fn events_carry_the_operation_details() {
    let (mut client, _admin, buyer, seller, _stranger, token_id) = create_test_env();

    let created = ok(client.create_escrow(7, 70, buyer.clone(), seller.clone(), token_id, 250, 11));
    match created.event {
        EscrowEvent::Created { escrow_id, order_id, buyer: b, seller: s, amount } => {
            assert_eq!((escrow_id, order_id, amount), (7, 70, 250));
            assert_eq!(b, buyer);
            assert_eq!(s, seller);
        }
        other => panic!("unexpected event {:?}", other),
    }
    assert_eq!(created.record.created_at, 11);
    assert_eq!(created.record.funded_at, 0);
    assert!(created.transfer.is_none());

    let funded = ok(client.fund_escrow(7, 12));
    match funded.event {
        EscrowEvent::Funded { escrow_id, buyer: b, amount } => {
            assert_eq!((escrow_id, amount), (7, 250));
            assert_eq!(b, buyer);
        }
        other => panic!("unexpected event {:?}", other),
    }
    assert_eq!(funded.record.funded_at, 12);
    assert_eq!(funded.record.created_at, 11);

    let disputed = ok(client.dispute_escrow(7, seller.clone()));
    match disputed.event {
        EscrowEvent::Disputed { escrow_id, caller } => {
            assert_eq!(escrow_id, 7);
            assert_eq!(caller, seller);
        }
        other => panic!("unexpected event {:?}", other),
    }

    let released = ok(client.release_escrow(7, 13));
    match released.event {
        EscrowEvent::Released { escrow_id, seller: s, amount } => {
            assert_eq!((escrow_id, amount), (7, 250));
            assert_eq!(s, seller);
        }
        other => panic!("unexpected event {:?}", other),
    }
    assert_eq!(released.record.released_at, 13);
    assert_eq!(released.record.refunded_at, 0);
}

#[test]
fn disputed_release_and_refund_need_the_admin() {
    let (mut client, admin, buyer, seller, _stranger, token_id) = create_test_env();
    create_and_fund(&mut client, &buyer, &seller, &token_id);
    ok(client.dispute_escrow(1, buyer.clone()));

    // A disputed escrow is refunded on the admin's authorization
    let step = client.refund_escrow(1, 20);
    assert_eq!(step.auth, Some(admin));
    let refunded = ok(step);
    assert_eq!(refunded.record.refunded_at, 20);
    match refunded.event {
        EscrowEvent::Refunded { escrow_id, buyer: b, amount } => {
            assert_eq!((escrow_id, amount), (1, 500));
            assert_eq!(b, buyer);
        }
        other => panic!("unexpected event {:?}", other),
    }

    // Settled escrows cannot be disputed or resolved
    assert_eq!(err(client.dispute_escrow(1, buyer)), EscrowError::InvalidState);
    assert_eq!(err(client.resolve_dispute(1, true, 21)), EscrowError::InvalidState);
}

#[test]
fn operations_without_an_admin_are_refused() {
    let mut client = TroitEscrowContract::new();
    let buyer = addr(BUYER);
    let seller = addr(SELLER);

    // Setting or resolving needs an admin; neither demands any authorization
    let step = client.set_admin(addr(ADMIN));
    assert!(step.auth.is_none());
    assert_eq!(err(step), EscrowError::NotInitialized);
    let step = client.resolve_dispute(1, true, NOW);
    assert!(step.auth.is_none());
    assert_eq!(err(step), EscrowError::NotInitialized);

    // Escrows work without an admin until a dispute needs one
    ok(client.create_escrow(1, 100, buyer.clone(), seller.clone(), addr(TOKEN), 500, NOW));
    ok(client.fund_escrow(1, NOW));
    ok(client.dispute_escrow(1, seller));
    let step = client.release_escrow(1, NOW);
    assert!(step.auth.is_none());
    assert_eq!(err(step), EscrowError::NotInitialized);
    assert_eq!(err(client.refund_escrow(1, NOW)), EscrowError::NotInitialized);

    // The refusals changed nothing
    assert_eq!(client.get_escrow(1).map(|r| r.state), Ok(EscrowState::Disputed));
    assert_eq!(client.get_admin(), Err(EscrowError::NotInitialized));
}

#[test]
fn lookups_of_missing_escrows_fail() {
    let (mut client, admin, buyer, seller, _stranger, token_id) = create_test_env();
    assert_eq!(client.get_escrow(1), Err(EscrowError::NotFound));
    assert_eq!(client.get_escrow_by_order(100), Err(EscrowError::NotFound));
    assert_eq!(err(client.release_escrow(1, NOW)), EscrowError::NotFound);
    assert_eq!(err(client.refund_escrow(1, NOW)), EscrowError::NotFound);

    // Disputing and resolving demand authorization before looking the escrow up
    let step = client.dispute_escrow(1, buyer.clone());
    assert_eq!(step.auth, Some(buyer.clone()));
    assert_eq!(err(step), EscrowError::NotFound);
    let step = client.resolve_dispute(1, false, NOW);
    assert_eq!(step.auth, Some(admin));
    assert_eq!(err(step), EscrowError::NotFound);

    // A refused creation stores nothing
    assert_eq!(
        err(client.create_escrow(1, 100, buyer.clone(), seller, token_id, 0, NOW)),
        EscrowError::InvalidAmount
    );
    assert_eq!(client.get_escrow(1), Err(EscrowError::NotFound));
    assert_eq!(client.get_escrow_by_order(100), Err(EscrowError::NotFound));
}

#[test]
fn terms_survive_the_whole_life_of_an_escrow() {
    let (mut client, _admin, buyer, seller, _stranger, token_id) = create_test_env();
    let created = ok(client.create_escrow(3, 30, buyer.clone(), seller.clone(), token_id, 42, 5)).record;
    ok(client.fund_escrow(3, 6));
    ok(client.dispute_escrow(3, buyer));
    ok(client.resolve_dispute(3, true, 7));
    let last = client.get_escrow_by_order(30).unwrap();
    assert_eq!(last.escrow_id, created.escrow_id);
    assert_eq!(last.buyer, created.buyer);
    assert_eq!(last.seller, created.seller);
    assert_eq!(last.token, created.token);
    assert_eq!(last.amount, created.amount);
    assert_eq!(last.created_at, 5);
    assert_eq!(last.funded_at, 6);
    assert_eq!(last.released_at, 7);
    assert_eq!(last.state, EscrowState::Released);
    assert_eq!(client.get_escrow(3), Ok(last));

    // A second order cannot reuse the escrow, a new escrow can be opened for it
    assert_eq!(
        err(client.create_escrow(3, 31, addr(BUYER), addr(SELLER), addr(TOKEN), 1, 8)),
        EscrowError::AlreadyExists
    );
    ok(client.create_escrow(4, 31, addr(BUYER), addr(SELLER), addr(TOKEN), 1, 8));
    assert_eq!(client.get_escrow_by_order(31).map(|r| r.escrow_id), Ok(4));
}

#[test]
fn operations_touch_only_their_own_escrow() {
    let (mut client, _admin, buyer, seller, _stranger, token_id) = create_test_env();
    ok(client.create_escrow(1, 100, buyer.clone(), seller.clone(), token_id.clone(), 500, NOW));
    let other = ok(client.create_escrow(2, 200, buyer.clone(), seller.clone(), token_id, 700, NOW)).record;

    ok(client.fund_escrow(1, NOW + 1));
    ok(client.dispute_escrow(1, seller));
    ok(client.resolve_dispute(1, false, NOW + 2));

    assert_eq!(client.get_escrow(2), Ok(other));
    assert_eq!(client.get_escrow(1).map(|r| r.state), Ok(EscrowState::Refunded));
    assert_eq!(client.get_admin(), Ok(addr(ADMIN)));
}

#[test]
fn decided_writes_name_the_stored_entries() {
    let (mut client, admin, buyer, seller, _stranger, token_id) = create_test_env();

    let created = ok(client.create_escrow(1, 100, buyer.clone(), seller.clone(), token_id, 500, NOW));
    let writes = created.writes();
    assert_eq!(writes.len(), 2);
    assert_eq!(writes[0].key(), DataKey::Escrow(1));
    match &writes[0] {
        StorageWrite::Escrow(1, r) => assert_eq!(r, &created.record),
        other => panic!("unexpected write {:?}", other),
    }
    assert_eq!(writes[1].key(), DataKey::OrderEscrow(100));
    assert!(matches!(writes[1], StorageWrite::OrderEscrow(100, 1)));

    let funded = ok(client.fund_escrow(1, NOW));
    let writes = funded.writes();
    assert_eq!(writes.len(), 1);
    match &writes[0] {
        StorageWrite::Escrow(1, r) => assert_eq!(r.state, EscrowState::Funded),
        other => panic!("unexpected write {:?}", other),
    }
    assert_eq!(client.get_escrow(1), Ok(funded.record));

    let step = client.set_admin(buyer.clone());
    assert_eq!(step.auth, Some(admin));
    match step.result {
        Ok(w) => {
            assert_eq!(w.key(), DataKey::Admin);
            assert!(matches!(w, StorageWrite::Admin(a) if a == buyer));
        }
        Err(e) => panic!("refused: {:?}", e),
    }
}

fn net_inflow(t: &Option<Transfer>) -> i128 {
    match t {
        Some(Transfer { from: Party::Account(_), to: Party::Contract, amount, .. }) => *amount,
        Some(Transfer { from: Party::Contract, to: Party::Account(_), amount, .. }) => -*amount,
        _ => 0,
    }
}

#[test]
fn inflows_match_what_the_contract_holds() {
    let (mut client, _admin, buyer, seller, _stranger, token_id) = create_test_env();
    let mut inflow = 0i128;
    inflow += net_inflow(&ok(client.create_escrow(1, 100, buyer.clone(), seller.clone(), token_id.clone(), 500, NOW)).transfer);
    inflow += net_inflow(&ok(client.create_escrow(2, 200, buyer.clone(), seller.clone(), token_id.clone(), 300, NOW)).transfer);
    inflow += net_inflow(&ok(client.create_escrow(3, 300, buyer.clone(), seller.clone(), token_id, 200, NOW)).transfer);
    assert_eq!(inflow, 0);
    inflow += net_inflow(&ok(client.fund_escrow(1, NOW)).transfer);
    inflow += net_inflow(&ok(client.fund_escrow(2, NOW)).transfer);
    inflow += net_inflow(&ok(client.fund_escrow(3, NOW)).transfer);
    assert_eq!(inflow, 1000);
    inflow += net_inflow(&ok(client.release_escrow(1, NOW)).transfer);
    inflow += net_inflow(&ok(client.dispute_escrow(2, seller.clone())).transfer);
    assert_eq!(inflow, 500);
    inflow += net_inflow(&ok(client.resolve_dispute(2, false, NOW)).transfer);
    assert_eq!(inflow, 200);
    // Only escrow 3 is still held
    assert_eq!(client.get_escrow(3).map(|r| (r.state, r.amount)), Ok((EscrowState::Funded, 200)));
}
