use ticketing::cors::CORS;
use ticketing::models::admin::Admin;
use ticketing::models::event::Event;
use ticketing::models::order::{CreateOrderPayload, Order, OrderStatus};
use ticketing::routes::admin::{
    create_event, get_event, get_orders, store_event, login, me, routes, send_ticket, ticket_delivered, CreateEventError,
    LoginError, LoginPayload, LookupError, SendTicketError, SendTicketPayload,
};
use ticketing::routes::public::{begin_order, reconcile, Reconciliation};
use ticketing::routes::{public, Method};
use ticketing::store::{EventCatalog, OrderStore};
use ticketing::utils::auth::{
    bearer_token, create_jwt, expiry_after, hash_password, verify_password, AdminAuth,
};
use ticketing::utils::midtrans::{authorization_header, create_midtrans_transaction, gateway_error_detail, MIDTRANS_URL};

fn new_event(total: i32) -> Event {
    Event {
        id: vec![9; 12],
        name: "Jazz Night".to_string(),
        description: "Live music".to_string(),
        date: 1_700_000_000_000,
        location: "Bandung".to_string(),
        price: 75_000,
        total_tickets: total,
        available_tickets: 0,
    }
}

#[test]
fn me_names_the_admin() {
    let a = AdminAuth { email: "root@example.com".to_string() };
    assert_eq!(me(a), "Admin email: root@example.com");
}

#[test]
fn route_tables() {
    let a = routes();
    assert_eq!(a.len(), 6);
    assert_eq!(a[1].method, Method::Post);
    assert_eq!(a[1].path, "/login");
    assert_eq!(a[5].path, "/orders/<id>/send_ticket");
    let p = public::routes();
    assert_eq!(p.len(), 4);
    assert_eq!(p[3].method, Method::Post);
    assert_eq!(p[3].path, "/orders/notify");
}

#[test]
fn cors_headers() {
    let h = CORS.headers();
    assert_eq!(h.len(), 4);
    assert_eq!(h[0], ("Access-Control-Allow-Origin", "*"));
    assert_eq!(h[3], ("Access-Control-Allow-Credentials", "true"));
}

#[test]
fn basic_credential_has_empty_password() {
    assert_eq!(authorization_header("abc"), "Basic YWJjOg==");
    assert_eq!(authorization_header(""), "Basic Og==");
}

#[test]
fn gateway_call_and_error_detail() {
    let mut catalog = EventCatalog::new();
    let i = create_event(&mut catalog, new_event(3)).unwrap();
    let e = catalog.get(i);
    let mut store = OrderStore::new();
    let id_text = bson::oid::ObjectId::from_bytes(e.id.clone().try_into().unwrap()).to_hex();
    let payload = CreateOrderPayload {
        event_id: id_text,
        buyer_name: "Dewi".to_string(),
        buyer_email: "dewi@example.com".to_string(),
        buyer_phone: "0800".to_string(),
    };
    begin_order(&mut catalog, &mut store, &payload).unwrap();
    let call = create_midtrans_transaction(store.get(0), catalog.get(0), "SECRET-REDACTED");
    assert_eq!(call.url, MIDTRANS_URL);
    assert_eq!(call.authorization, authorization_header("SECRET-REDACTED"));
    assert_eq!(call.request.transaction_details.gross_amount, 75_000);
    assert_eq!(gateway_error_detail("bad key"), "Midtrans API error: bad key");
}

#[test]
fn created_event_has_all_tickets_available() {
    let mut catalog = EventCatalog::new();
    let i = create_event(&mut catalog, new_event(40)).unwrap();
    let e = catalog.get(i);
    assert_eq!(e.available_tickets, 40);
    assert_eq!(e.total_tickets, 40);
    assert_eq!(e.id.len(), 12);
    assert_ne!(e.id, vec![9; 12]);
    assert_eq!(create_event(&mut catalog, new_event(-1)), Err(CreateEventError::InvalidTicketCount));
    assert_eq!(catalog.len(), 1);
    let id_text = bson::oid::ObjectId::from_bytes(catalog.get(0).id.clone().try_into().unwrap()).to_hex();
    assert_eq!(get_event(&catalog, &id_text), Ok(0));
    assert_eq!(get_event(&catalog, "zz"), Err(LookupError::BadRequest));
    assert_eq!(get_event(&catalog, "000000000000000000000000"), Err(LookupError::NotFound));
}

#[test]
fn ticket_goes_only_to_paid_orders_and_marks_them_sent() {
    let mut catalog = EventCatalog::new();
    create_event(&mut catalog, new_event(2)).unwrap();
    let id_text = bson::oid::ObjectId::from_bytes(catalog.get(0).id.clone().try_into().unwrap()).to_hex();
    let mut store = OrderStore::new();
    let payload = CreateOrderPayload {
        event_id: id_text,
        buyer_name: "Budi".to_string(),
        buyer_email: "budi@example.com".to_string(),
        buyer_phone: "0811".to_string(),
    };
    let p = begin_order(&mut catalog, &mut store, &payload).unwrap();
    let msg = SendTicketPayload { subject: "Your ticket".to_string(), message: "Seat A1".to_string() };
    assert!(matches!(send_ticket(&store, &p.order_id_hex, &msg, "tickets@example.com"), Err(SendTicketError::NotPaid)));
    assert!(matches!(send_ticket(&store, "xyz", &msg, "tickets@example.com"), Err(SendTicketError::InvalidOrderId)));
    assert!(matches!(send_ticket(&store, "000000000000000000000000", &msg, "t@example.com"), Err(SendTicketError::NotFound)));
    reconcile(&mut store, &p.order_id_hex, "settlement");
    let (id, email) = send_ticket(&store, &p.order_id_hex, &msg, "tickets@example.com").unwrap();
    assert_eq!(email.from, "tickets@example.com");
    assert_eq!(email.to, "budi@example.com");
    assert_eq!(email.subject, "Your ticket");
    assert_eq!(email.text, "Halo Budi,\n\nSeat A1\n\nTerima kasih atas pembelian tiket Anda.");
    match ticket_delivered(&mut store, &id, Err("quota".to_string())) {
        Err(SendTicketError::EmailError(d)) => assert_eq!(d, "quota"),
        _ => panic!("expected an email error"),
    }
    assert_eq!(store.get(0).status, OrderStatus::Paid);
    assert!(ticket_delivered(&mut store, &id, Ok(())).is_ok());
    assert_eq!(store.get(0).status, OrderStatus::Sent);
    assert_eq!(reconcile(&mut store, &p.order_id_hex, "deny"), Reconciliation::Unchanged);
    assert_eq!(store.get(0).status, OrderStatus::Sent);
}

#[test]
fn bearer_prefix_is_required() {
    assert_eq!(bearer_token("Bearer abc.def"), Some("abc.def"));
    assert_eq!(bearer_token("Bearer "), Some(""));
    assert_eq!(bearer_token("Basic abc"), None);
    assert_eq!(bearer_token("Bear"), None);
}

#[test]
fn expiry_is_one_day_later() {
    assert_eq!(expiry_after(1_000), Some(87_400));
    assert_eq!(expiry_after(-1), None);
    assert_eq!(expiry_after(i64::MAX), None);
}

#[test]
fn password_and_token_round_trip() {
    let hash = hash_password("hunter2").unwrap();
    assert!(hash.starts_with("$2b$12$"));
    assert!(verify_password("hunter2", &hash));
    assert!(!verify_password("hunter3", &hash));
    assert!(!verify_password("hunter2", "not a hash"));
    let admin = Admin {
        id: None,
        email: "root@example.com".to_string(),
        password_hash: hash,
        created_at: 0,
    };
    let ok = LoginPayload { email: "root@example.com".to_string(), password: "hunter2".to_string() };
    let bad = LoginPayload { email: "root@example.com".to_string(), password: "nope".to_string() };
    assert_eq!(login(None, &ok, "s3cret"), Err(LoginError::InvalidCredentials));
    assert_eq!(login(Some(&admin), &bad, "s3cret"), Err(LoginError::InvalidCredentials));
    let token = login(Some(&admin), &ok, "s3cret").unwrap();
    let header = format!("Bearer {}", token);
    let who = AdminAuth::from_authorization(Some(&header), "s3cret").unwrap();
    assert_eq!(who.email, "root@example.com");
    assert!(AdminAuth::from_authorization(Some(&header), "other").is_none());
    assert!(AdminAuth::from_authorization(Some(&token), "s3cret").is_none());
    assert!(AdminAuth::from_authorization(None, "s3cret").is_none());
    let direct = create_jwt("a@example.com", "k").unwrap();
    assert_eq!(direct.split('.').count(), 3);
}

fn stored_order(tag: u8, created_at: i64) -> Order {
    Order {
        id: vec![tag; 12],
        event_id: vec![9; 12],
        buyer_name: format!("buyer{}", tag),
        buyer_email: format!("buyer{}@example.com", tag),
        buyer_phone: "0800".to_string(),
        status: OrderStatus::Pending,
        midtrans_order_id: format!("ORDER-{}", tag),
        created_at,
    }
}

#[test]
fn orders_are_listed_newest_first() {
    let mut store = OrderStore::new();
    assert!(store.insert(stored_order(1, 300)));
    assert!(store.insert(stored_order(2, 100)));
    assert!(store.insert(stored_order(3, 500)));
    assert!(store.insert(stored_order(4, 300)));
    assert!(!store.insert(stored_order(4, 900)));
    let listed = get_orders(&store);
    assert_eq!(listed.len(), 4);
    let times: Vec<i64> = listed.iter().map(|&i| store.get(i).created_at).collect();
    assert_eq!(times, vec![500, 300, 300, 100]);
    assert_eq!(listed[0], 2);
    assert_eq!(listed[3], 1);
    assert!(get_orders(&OrderStore::new()).is_empty());
}

#[test]
fn stored_event_takes_the_given_identifier() {
    let mut catalog = EventCatalog::new();
    assert_eq!(store_event(&mut catalog, new_event(5), vec![3u8; 12]), Ok(0));
    let e = catalog.get(0);
    assert_eq!(e.id, vec![3u8; 12]);
    assert_eq!(e.available_tickets, 5);
    assert_eq!(e.name, "Jazz Night");
    assert_eq!(store_event(&mut catalog, new_event(5), vec![3u8; 12]), Err(CreateEventError::PersistenceError));
    assert_eq!(store_event(&mut catalog, new_event(5), vec![3u8; 2]), Err(CreateEventError::PersistenceError));
    assert_eq!(store_event(&mut catalog, new_event(-2), vec![4u8; 12]), Err(CreateEventError::InvalidTicketCount));
    assert_eq!(catalog.len(), 1);
}

#[test]
fn subject_names_the_admin() {
    let a = AdminAuth::from_subject(Some("ops@example.com".to_string())).unwrap();
    assert_eq!(a.email, "ops@example.com");
    assert!(AdminAuth::from_subject(None).is_none());
}
