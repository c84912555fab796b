use ticketing::models::event::Event;
use ticketing::models::order::{CreateOrderPayload, OrderStatus};
use ticketing::routes::public::{
    begin_order, external_reference, finish_order, midtrans_webhook, open_order, reconcile,
    reference_from_token, Compensation, OrderError, Reconciliation,
};
use ticketing::store::{EventCatalog, OrderStore};
use ticketing::utils::midtrans::MidtransChargeResponse;

const E1: &str = "0101010101010101010101ab";

fn event(id_text: &str, price: i64, total: i32, available: i32) -> Event {
    Event {
        id: bson::oid::ObjectId::parse_str(id_text).unwrap().bytes().to_vec(),
        name: "Rust Conf".to_string(),
        description: "A day of talks".to_string(),
        date: 1_700_000_000_000,
        location: "Jakarta".to_string(),
        price,
        total_tickets: total,
        available_tickets: available,
    }
}

fn catalog_with(e: Event) -> EventCatalog {
    let mut c = EventCatalog::new();
    assert!(c.insert(e));
    c
}

fn payload(event_id: &str, name: &str) -> CreateOrderPayload {
    CreateOrderPayload {
        event_id: event_id.to_string(),
        buyer_name: name.to_string(),
        buyer_email: format!("{}@example.com", name.to_lowercase()),
        buyer_phone: "08123456789".to_string(),
    }
}

fn session() -> Result<MidtransChargeResponse, String> {
    Ok(MidtransChargeResponse {
        token: "tok-1".to_string(),
        redirect_url: "https://pay.example/tok-1".to_string(),
    })
}

#[test]
fn sold_out_event_refuses_order_and_writes_nothing() {
    let mut catalog = catalog_with(event(E1, 150_000, 10, 0));
    let mut store = OrderStore::new();
    let r = begin_order(&mut catalog, &mut store, &payload(E1, "Alice"));
    assert!(matches!(r, Err(OrderError::SoldOut)));
    assert_eq!(store.len(), 0);
    assert_eq!(catalog.get(0).available_tickets, 0);
}

#[test]
fn unknown_and_malformed_event_references_fail() {
    let mut catalog = catalog_with(event(E1, 150_000, 10, 5));
    let mut store = OrderStore::new();
    let r = begin_order(&mut catalog, &mut store, &payload("0101010101010101010101ac", "Bob"));
    assert!(matches!(r, Err(OrderError::NotFound)));
    let r = begin_order(&mut catalog, &mut store, &payload("not-an-id", "Bob"));
    assert!(matches!(r, Err(OrderError::InvalidEventId)));
    assert_eq!(store.len(), 0);
    assert_eq!(catalog.get(0).available_tickets, 5);
}

#[test]
fn created_order_is_pending_with_fresh_reference() {
    let mut catalog = catalog_with(event(E1, 150_000, 10, 5));
    let mut store = OrderStore::new();
    let p = begin_order(&mut catalog, &mut store, &payload(E1, "Alice")).unwrap();
    let q = begin_order(&mut catalog, &mut store, &payload(E1, "Bob")).unwrap();
    assert_eq!(store.len(), 2);
    let a = store.get(0);
    assert_eq!(a.status, OrderStatus::Pending);
    assert_eq!(a.id, p.order_id);
    assert_eq!(a.buyer_name, "Alice");
    assert!(a.midtrans_order_id.starts_with("ORDER-"));
    assert_eq!(a.midtrans_order_id.len(), 42);
    assert_ne!(a.midtrans_order_id, store.get(1).midtrans_order_id);
    assert_ne!(p.order_id, q.order_id);
    assert_eq!(store.find_by_id(&p.order_id), Some(0));
    assert_eq!(catalog.get(0).available_tickets, 3);

    let (created, compensation) = finish_order(&mut catalog, &mut store, &p, session());
    assert!(compensation.is_none());
    let created = created.unwrap();
    assert_eq!(created.order_id, bson::oid::ObjectId::from_bytes(p.order_id.clone().try_into().unwrap()).to_hex());
    assert_eq!(created.midtrans_token, "tok-1");
    assert_eq!(created.redirect_url, "https://pay.example/tok-1");
    assert_eq!(store.len(), 2);
}

#[test]
fn charge_request_carries_order_and_price() {
    let mut catalog = catalog_with(event(E1, 150_000, 10, 5));
    let mut store = OrderStore::new();
    let p = begin_order(&mut catalog, &mut store, &payload(E1, "Alice")).unwrap();
    let req = &p.request;
    assert_eq!(req.payment_type, "snap");
    assert_eq!(req.transaction_details.order_id, store.get(0).midtrans_order_id);
    assert_eq!(req.transaction_details.gross_amount, 150_000);
    assert_eq!(req.item_details.len(), 1);
    assert_eq!(req.item_details[0].id, E1);
    assert_eq!(req.item_details[0].price, 150_000);
    assert_eq!(req.item_details[0].quantity, 1);
    assert_eq!(req.item_details[0].name, "Rust Conf");
    assert_eq!(req.customer_details.first_name, "Alice");
    assert_eq!(req.customer_details.email, "alice@example.com");
    assert_eq!(req.customer_details.phone, "08123456789");
}

#[test]
fn gateway_failure_deletes_order_and_returns_ticket() {
    let mut catalog = catalog_with(event(E1, 150_000, 10, 5));
    let mut store = OrderStore::new();
    let p = begin_order(&mut catalog, &mut store, &payload(E1, "Alice")).unwrap();
    assert_eq!(catalog.get(0).available_tickets, 4);
    let (r, compensation) = finish_order(&mut catalog, &mut store, &p, Err("timeout".to_string()));
    assert_eq!(compensation, Some(Compensation { order_deleted: true, ticket_released: true }));
    match r {
        Err(OrderError::PaymentSessionError(d)) => assert_eq!(d, "Payment service error: timeout"),
        _ => panic!("expected a payment session error"),
    }
    assert_eq!(store.find_by_id(&p.order_id), None);
    assert_eq!(store.len(), 0);
    assert_eq!(catalog.get(0).available_tickets, 5);
}

#[test]
fn settlement_twice_keeps_paid_and_late_deny_is_ignored() {
    let mut catalog = catalog_with(event(E1, 150_000, 10, 5));
    let mut store = OrderStore::new();
    let p = begin_order(&mut catalog, &mut store, &payload(E1, "Alice")).unwrap();
    let id = p.order_id_hex.clone();
    assert_eq!(reconcile(&mut store, &id, "settlement"), Reconciliation::Applied);
    assert_eq!(store.get(0).status, OrderStatus::Paid);
    assert_eq!(reconcile(&mut store, &id, "settlement"), Reconciliation::Unchanged);
    assert_eq!(store.get(0).status, OrderStatus::Paid);
    assert_eq!(reconcile(&mut store, &id, "deny"), Reconciliation::Unchanged);
    assert_eq!(store.get(0).status, OrderStatus::Paid);
}

#[test]
fn notification_by_external_reference_transitions_order() {
    let mut catalog = catalog_with(event(E1, 150_000, 10, 5));
    let mut store = OrderStore::new();
    begin_order(&mut catalog, &mut store, &payload(E1, "Alice")).unwrap();
    let reference = store.get(0).midtrans_order_id.clone();
    assert_eq!(reconcile(&mut store, &reference, "settlement"), Reconciliation::Applied);
    assert_eq!(store.get(0).status, OrderStatus::Paid);
}

#[test]
fn notification_outcomes_for_unknown_references_and_codes() {
    let mut catalog = catalog_with(event(E1, 150_000, 10, 5));
    let mut store = OrderStore::new();
    let p = begin_order(&mut catalog, &mut store, &payload(E1, "Alice")).unwrap();
    assert_eq!(reconcile(&mut store, "ORDER-unknown", "settlement"), Reconciliation::Unmatched);
    assert_eq!(reconcile(&mut store, "aaaaaaaaaaaaaaaaaaaaaaaa", "expire"), Reconciliation::Unmatched);
    assert_eq!(reconcile(&mut store, &p.order_id_hex, "pending"), Reconciliation::Ignored);
    assert_eq!(store.get(0).status, OrderStatus::Pending);
    let upper = p.order_id_hex.to_uppercase();
    assert_eq!(reconcile(&mut store, &upper, "cancel"), Reconciliation::Applied);
    assert_eq!(store.get(0).status, OrderStatus::Failed);
    assert_eq!(reconcile(&mut store, &upper, "settlement"), Reconciliation::Unchanged);
    assert_eq!(store.get(0).status, OrderStatus::Failed);
}

#[test]
fn end_to_end_last_ticket_paid_by_webhook() {
    let mut catalog = catalog_with(event(E1, 150_000, 1, 1));
    let mut store = OrderStore::new();
    let p = begin_order(&mut catalog, &mut store, &payload(E1, "Alice")).unwrap();
    let (created, compensation) = finish_order(&mut catalog, &mut store, &p, session());
    assert!(compensation.is_none());
    let created = created.unwrap();
    assert_eq!(store.get(0).status, OrderStatus::Pending);
    assert_eq!(catalog.get(0).available_tickets, 0);
    let id = created.order_id.as_str();
    assert_eq!(midtrans_webhook(&mut store, Some(id), Some("settlement")), Reconciliation::Applied);
    assert_eq!(store.get(0).status, OrderStatus::Paid);
    assert_eq!(midtrans_webhook(&mut store, Some(id), Some("settlement")), Reconciliation::Unchanged);
    assert_eq!(store.get(0).status, OrderStatus::Paid);
}

#[test]
fn webhook_without_fields_changes_nothing() {
    let mut catalog = catalog_with(event(E1, 150_000, 1, 1));
    let mut store = OrderStore::new();
    let p = begin_order(&mut catalog, &mut store, &payload(E1, "Alice")).unwrap();
    let id = p.order_id_hex.as_str();
    assert_eq!(midtrans_webhook(&mut store, Some(id), None), Reconciliation::Ignored);
    assert_eq!(midtrans_webhook(&mut store, None, Some("settlement")), Reconciliation::Ignored);
    assert_eq!(midtrans_webhook(&mut store, None, None), Reconciliation::Ignored);
    assert_eq!(midtrans_webhook(&mut store, Some(id), Some("capture")), Reconciliation::Ignored);
    assert_eq!(store.get(0).status, OrderStatus::Pending);
}

#[test]
fn open_order_uses_the_drawn_values() {
    let mut catalog = catalog_with(event(E1, 150_000, 2, 2));
    let mut store = OrderStore::new();
    let id = vec![7u8; 12];
    let p = open_order(&mut catalog, &mut store, &payload(E1, "Alice"), id.clone(), "tok", 42).unwrap();
    assert_eq!(p.order_id, id);
    assert_eq!(p.order_id_hex, "070707070707070707070707");
    let o = store.get(0);
    assert_eq!(o.midtrans_order_id, "ORDER-tok");
    assert_eq!(o.created_at, 42);
    assert_eq!(o.event_id, bson::oid::ObjectId::parse_str(E1).unwrap().bytes().to_vec());
    let same_id = open_order(&mut catalog, &mut store, &payload(E1, "Bob"), id.clone(), "other", 43);
    assert!(matches!(same_id, Err(OrderError::PersistenceError)));
    let same_ref = open_order(&mut catalog, &mut store, &payload(E1, "Bob"), vec![8u8; 12], "tok", 43);
    assert!(matches!(same_ref, Err(OrderError::PersistenceError)));
    let short_id = open_order(&mut catalog, &mut store, &payload(E1, "Bob"), vec![8u8; 3], "new", 43);
    assert!(matches!(short_id, Err(OrderError::PersistenceError)));
    assert_eq!(store.len(), 1);
    assert_eq!(catalog.get(0).available_tickets, 1);
}

#[test]
fn references_are_prefixed_tokens() {
    assert_eq!(reference_from_token("abc"), "ORDER-abc");
    assert_eq!(reference_from_token(""), "ORDER-");
    let r = external_reference();
    assert_eq!(r.len(), 42);
    assert!(r.starts_with("ORDER-"));
    assert!(uuid::Uuid::parse_str(&r[6..]).is_ok());
    assert_ne!(r, external_reference());
}

#[test]
fn compensation_records_what_was_already_gone() {
    let mut catalog = catalog_with(event(E1, 150_000, 2, 2));
    let mut store = OrderStore::new();
    let p = begin_order(&mut catalog, &mut store, &payload(E1, "Alice")).unwrap();
    assert!(store.delete(&p.order_id));
    let (r, compensation) = finish_order(&mut catalog, &mut store, &p, Err("late".to_string()));
    assert!(matches!(r, Err(OrderError::PaymentSessionError(_))));
    assert_eq!(compensation, Some(Compensation { order_deleted: false, ticket_released: true }));
    assert_eq!(catalog.get(0).available_tickets, 2);
    let (_, again) = finish_order(&mut catalog, &mut store, &p, Err("late".to_string()));
    assert_eq!(again, Some(Compensation { order_deleted: false, ticket_released: false }));
}

#[test]
fn two_orders_for_the_last_ticket_admit_one() {
    let mut catalog = catalog_with(event(E1, 150_000, 1, 1));
    let mut store = OrderStore::new();
    let first = begin_order(&mut catalog, &mut store, &payload(E1, "Alice"));
    let second = begin_order(&mut catalog, &mut store, &payload(E1, "Bob"));
    assert!(first.is_ok());
    assert!(matches!(second, Err(OrderError::SoldOut)));
    assert_eq!(store.len(), 1);
    assert_eq!(catalog.get(0).available_tickets, 0);
}

#[test]
fn failed_payment_frees_the_last_ticket_for_another_buyer() {
    let mut catalog = catalog_with(event(E1, 150_000, 1, 1));
    let mut store = OrderStore::new();
    let first = begin_order(&mut catalog, &mut store, &payload(E1, "Alice")).unwrap();
    assert!(finish_order(&mut catalog, &mut store, &first, Err("declined".to_string())).0.is_err());
    let second = begin_order(&mut catalog, &mut store, &payload(E1, "Bob"));
    assert!(second.is_ok());
    assert_eq!(store.len(), 1);
    assert_eq!(store.get(0).buyer_name, "Bob");
}

#[test]
fn order_errors_have_kind_and_detail() {
    assert_eq!(OrderError::SoldOut.kind(), "SoldOut");
    assert_eq!(OrderError::SoldOut.detail(), "No tickets available");
    assert_eq!(OrderError::NotFound.kind(), "NotFound");
    assert_eq!(OrderError::NotFound.detail(), "Event not found");
    assert_eq!(OrderError::InvalidEventId.kind(), "InvalidEventId");
    assert_eq!(OrderError::PersistenceError.kind(), "PersistenceError");
    assert_eq!(OrderError::PersistenceError.detail(), "Failed to create order");
    let e = OrderError::PaymentSessionError("Payment service error: x".to_string());
    assert_eq!(e.kind(), "PaymentSessionError");
    assert_eq!(e.detail(), "Payment service error: x");
}
