//! Order creation with admission control and compensation, and reconciliation
//! of payment notifications.
use vstd::prelude::*;

use crate::models::event::{with_available, Event};
use crate::models::order::{may_advance, status_for_code, CreateOrderPayload, Order, OrderStatus};
use crate::routes::{Method, Route};
use crate::store::{
    guarded_update, has_event_id, has_order_id, has_reference, index_of_event, index_of_id,
    index_of_reference, EventCatalog, OrderStore,
};
use crate::utils::midtrans::{build_charge_request, is_charge_for, ChargeRequest, MidtransChargeResponse};
use crate::utils::object_id::{
    bytes_of_hex, hex_lower, is_object_id_text, new_object_id, object_id_hex, parse_object_id,
    ID_LEN,
};

verus! {

/// Length of the text of a random UUID in hyphenated form.
pub const UUID_TEXT_LEN: usize = 36;

/// Prefix of every gateway reference.
pub const REFERENCE_PREFIX: &'static str = "ORDER-";

/// Relies on uuid's `Uuid::new_v4` and its hyphenated `Display` form,
/// `xxxxxxxx-xxxx-xxxx-xxxx-xxxxxxxxxxxx`: 36 characters, random otherwise.
#[verifier::external_body]
fn random_uuid_text() -> (r: String)
    ensures
        r@.len() == UUID_TEXT_LEN,
{
    uuid::Uuid::new_v4().to_string()
}

/// Relies on chrono's `Utc::now` and `DateTime::timestamp_millis`: the current
/// time, of which nothing is known here.
#[verifier::external_body]
fn now_millis() -> (r: i64) {
    chrono::Utc::now().timestamp_millis()
}

/// The gateway reference made from a token: `ORDER-<token>`.
pub fn reference_from_token(token: &str) -> (r: String)
    ensures
        r@ == REFERENCE_PREFIX@ + token@,
{
    String::from_str(REFERENCE_PREFIX).concat(token)
}

/// A fresh gateway reference, `ORDER-` followed by a random UUID.
pub fn external_reference() -> (r: String)
    ensures
        exists|token: Seq<char>| token.len() == UUID_TEXT_LEN && r@ == REFERENCE_PREFIX@ + token,
{
    let token = random_uuid_text();
    reference_from_token(token.as_str())
}

/// Why an order could not be created.
#[derive(Debug)]
pub enum OrderError {
    /// The event reference is not 24 hexadecimal digits.
    InvalidEventId,
    /// No event has that identifier.
    NotFound,
    /// The event has no ticket left.
    SoldOut,
    /// The gateway refused or failed to open a payment session; the detail says why.
    PaymentSessionError(String),
    /// The order could not be stored.
    PersistenceError,
}

/// Machine-readable name of each kind of order-creation failure.
pub open spec fn error_kind(e: OrderError) -> Seq<char> {
    match e {
        OrderError::InvalidEventId => "InvalidEventId"@,
        OrderError::NotFound => "NotFound"@,
        OrderError::SoldOut => "SoldOut"@,
        OrderError::PaymentSessionError(_) => "PaymentSessionError"@,
        OrderError::PersistenceError => "PersistenceError"@,
    }
}

impl OrderError {
    /// The machine-readable kind of the failure.
    pub fn kind(&self) -> (r: &'static str)
        ensures
            r@ == error_kind(*self),
    {
        match self {
            OrderError::InvalidEventId => "InvalidEventId",
            OrderError::NotFound => "NotFound",
            OrderError::SoldOut => "SoldOut",
            OrderError::PaymentSessionError(_) => "PaymentSessionError",
            OrderError::PersistenceError => "PersistenceError",
        }
    }

    /// A human-readable account of the failure; for a payment session failure,
    /// the gateway's detail.
    pub fn detail(&self) -> (r: String)
        ensures
            self matches OrderError::PaymentSessionError(d) ==> r@ == d@,
            *self is InvalidEventId ==> r@ == "Invalid event ID"@,
            *self is NotFound ==> r@ == "Event not found"@,
            *self is SoldOut ==> r@ == "No tickets available"@,
            *self is PersistenceError ==> r@ == "Failed to create order"@,
    {
        match self {
            OrderError::InvalidEventId => String::from_str("Invalid event ID"),
            OrderError::NotFound => String::from_str("Event not found"),
            OrderError::SoldOut => String::from_str("No tickets available"),
            OrderError::PaymentSessionError(d) => d.clone(),
            OrderError::PersistenceError => String::from_str("Failed to create order"),
        }
    }
}

/// The identifier of the event that a request names.
pub open spec fn requested_event(payload: CreateOrderPayload) -> Seq<u8> {
    bytes_of_hex(payload.event_id@)
}

/// The events after one ticket of the event `id` was taken.
pub open spec fn after_reservation(c: Seq<Event>, id: Seq<u8>) -> Seq<Event> {
    let k = index_of_event(c, id);
    c.update(k, with_available(c[k], c[k].available_tickets - 1))
}

/// The events after one ticket of the event `id` was given back, where the
/// event is there and below its total.
pub open spec fn after_release(c: Seq<Event>, id: Seq<u8>) -> Seq<Event> {
    let k = index_of_event(c, id);
    if has_event_id(c, id) && c[k].available_tickets < c[k].total_tickets {
        c.update(k, with_available(c[k], c[k].available_tickets + 1))
    } else {
        c
    }
}

/// Admission control: the event exists and has a ticket left.
pub open spec fn admits(c: Seq<Event>, id: Seq<u8>) -> bool {
    has_event_id(c, id) && c[index_of_event(c, id)].available_tickets > 0
}

/// A freshly created order for `payload` and event `id`: pending, with the
/// request's buyer, and a gateway reference `ORDER-` followed by 36 characters.
pub open spec fn is_new_order(o: Order, payload: CreateOrderPayload, id: Seq<u8>) -> bool {
    &&& o.id@.len() == ID_LEN
    &&& o.event_id@ == id
    &&& o.buyer_name@ == payload.buyer_name@
    &&& o.buyer_email@ == payload.buyer_email@
    &&& o.buyer_phone@ == payload.buyer_phone@
    &&& o.status == OrderStatus::Pending
    &&& o.midtrans_order_id@.len() == 42
    &&& o.midtrans_order_id@.subrange(0, 6) == REFERENCE_PREFIX@
}

/// An order that is stored and waits for its payment session.
pub struct PendingOrder {
    /// The order's identifier.
    pub order_id: Vec<u8>,
    /// The same identifier as 24 lowercase hexadecimal digits.
    pub order_id_hex: String,
    /// The event whose ticket the order holds.
    pub event_id: Vec<u8>,
    /// The session request to send to the gateway.
    pub request: ChargeRequest,
}

/// What the buyer receives once the payment session is open.
pub struct OrderCreated {
    pub order_id: String,
    pub midtrans_token: String,
    pub redirect_url: String,
}

fn copy_bytes(v: &Vec<u8>) -> (r: Vec<u8>)
    ensures
        r@ == v@,
{
    let mut r: Vec<u8> = Vec::new();
    let mut i: usize = 0;
    while i < v.len()
        invariant
            i <= v@.len(),
            r@ == v@.subrange(0, i as int),
        decreases v@.len() - i,
    {
        r.push(v[i]);
        i = i + 1;
        assert(r@ =~= v@.subrange(0, i as int));
    }
    assert(v@.subrange(0, v@.len() as int) =~= v@);
    r
}

/// Order creation with the identifier, token and time already drawn:
/// admission control, then the pending order (identifier `id`, gateway
/// reference `ORDER-<token>`, created at `created_at`) is stored and one ticket
/// of the event is taken, in the same step, so that no two orders hold the
/// last ticket.
///
/// Fails with `InvalidEventId` where the event reference is not an identifier,
/// `NotFound` where no event has it, `SoldOut` where it has no ticket left, and
/// `PersistenceError` exactly where `id` is not twelve bytes or the identifier
/// or the reference is already stored; in each of these cases neither the
/// store nor the catalogue changes.
pub fn open_order(
    catalog: &mut EventCatalog,
    store: &mut OrderStore,
    payload: &CreateOrderPayload,
    id: Vec<u8>,
    token: &str,
    created_at: i64,
) -> (r: Result<PendingOrder, OrderError>)
    requires
        old(catalog).wf(),
        old(store).wf(),
    ensures
        final(catalog).wf(),
        final(store).wf(),
        !is_object_id_text(payload.event_id@) ==> r matches Err(OrderError::InvalidEventId),
        is_object_id_text(payload.event_id@) && !has_event_id(
            old(catalog)@,
            requested_event(*payload),
        ) ==> r matches Err(OrderError::NotFound),
        is_object_id_text(payload.event_id@) && has_event_id(
            old(catalog)@,
            requested_event(*payload),
        ) && !admits(old(catalog)@, requested_event(*payload)) ==> r matches Err(
            OrderError::SoldOut,
        ),
        is_object_id_text(payload.event_id@) && admits(old(catalog)@, requested_event(*payload))
            ==> (r matches Err(OrderError::PersistenceError) <==> (id@.len() != ID_LEN
            || has_order_id(old(store)@, id@) || has_reference(
            old(store)@,
            REFERENCE_PREFIX@ + token@,
        ))),
        is_object_id_text(payload.event_id@) && admits(old(catalog)@, requested_event(*payload))
            ==> (r is Ok || r matches Err(OrderError::PersistenceError)),
        r is Err ==> final(catalog)@ == old(catalog)@ && final(store)@ == old(store)@,
        r matches Ok(p) ==> {
            let ev = requested_event(*payload);
            let o = final(store)@.last();
            &&& is_object_id_text(payload.event_id@)
            &&& admits(old(catalog)@, ev)
            &&& final(catalog)@ == after_reservation(old(catalog)@, ev)
            &&& final(store)@ == old(store)@.push(o)
            &&& o.id@ == id@
            &&& o.id@.len() == ID_LEN
            &&& o.event_id@ == ev
            &&& o.buyer_name@ == payload.buyer_name@
            &&& o.buyer_email@ == payload.buyer_email@
            &&& o.buyer_phone@ == payload.buyer_phone@
            &&& o.status == OrderStatus::Pending
            &&& o.midtrans_order_id@ == REFERENCE_PREFIX@ + token@
            &&& o.created_at == created_at
            &&& !has_order_id(old(store)@, o.id@)
            &&& !has_reference(old(store)@, o.midtrans_order_id@)
            &&& p.order_id@ == o.id@
            &&& p.order_id_hex@ == hex_lower(o.id@)
            &&& p.event_id@ == ev
            &&& is_charge_for(p.request, o, old(catalog)@[index_of_event(old(catalog)@, ev)])
        },
{
    let event_id = match parse_object_id(payload.event_id.as_str()) {
        Some(b) => b,
        None => return Err(OrderError::InvalidEventId),
    };
    let k = match catalog.find_by_id(&event_id) {
        Some(k) => k,
        None => return Err(OrderError::NotFound),
    };
    if catalog.get(k).available_tickets <= 0 {
        return Err(OrderError::SoldOut);
    }
    if id.len() != ID_LEN {
        return Err(OrderError::PersistenceError);
    }
    let order = Order {
        id: copy_bytes(&id),
        event_id: copy_bytes(&event_id),
        buyer_name: payload.buyer_name.clone(),
        buyer_email: payload.buyer_email.clone(),
        buyer_phone: payload.buyer_phone.clone(),
        status: OrderStatus::Pending,
        midtrans_order_id: reference_from_token(token),
        created_at,
    };
    let request = build_charge_request(&order, catalog.get(k));
    if !store.insert(order) {
        return Err(OrderError::PersistenceError);
    }
    let reserved = catalog.reserve_ticket(k);
    assert(reserved);
    let order_id_hex = object_id_hex(&id);
    Ok(PendingOrder { order_id: id, order_id_hex, event_id, request })
}

/// First step of order creation: draws a fresh identifier, a fresh gateway
/// reference and the current time, and opens the order with them (see
/// `open_order`). `PersistenceError` comes only where a drawn identifier or
/// reference is already stored.
pub fn begin_order(
    catalog: &mut EventCatalog,
    store: &mut OrderStore,
    payload: &CreateOrderPayload,
) -> (r: Result<PendingOrder, OrderError>)
    requires
        old(catalog).wf(),
        old(store).wf(),
    ensures
        final(catalog).wf(),
        final(store).wf(),
        !is_object_id_text(payload.event_id@) ==> r matches Err(OrderError::InvalidEventId),
        is_object_id_text(payload.event_id@) && !has_event_id(
            old(catalog)@,
            requested_event(*payload),
        ) ==> r matches Err(OrderError::NotFound),
        is_object_id_text(payload.event_id@) && has_event_id(
            old(catalog)@,
            requested_event(*payload),
        ) && !admits(old(catalog)@, requested_event(*payload)) ==> r matches Err(
            OrderError::SoldOut,
        ),
        is_object_id_text(payload.event_id@) && admits(old(catalog)@, requested_event(*payload))
            ==> (r is Ok || r matches Err(OrderError::PersistenceError)),
        r matches Err(OrderError::PersistenceError) ==> exists|oid: Seq<u8>, reference: Seq<char>|
            oid.len() == ID_LEN && reference.len() == 42 && reference.subrange(0, 6)
                == REFERENCE_PREFIX@ && (has_order_id(old(store)@, oid) || has_reference(
                old(store)@,
                reference,
            )),
        r is Err ==> final(catalog)@ == old(catalog)@ && final(store)@ == old(store)@,
        r matches Ok(p) ==> {
            let ev = requested_event(*payload);
            let o = final(store)@.last();
            &&& is_object_id_text(payload.event_id@)
            &&& admits(old(catalog)@, ev)
            &&& final(catalog)@ == after_reservation(old(catalog)@, ev)
            &&& final(store)@ == old(store)@.push(o)
            &&& is_new_order(o, *payload, ev)
            &&& !has_order_id(old(store)@, o.id@)
            &&& !has_reference(old(store)@, o.midtrans_order_id@)
            &&& p.order_id@ == o.id@
            &&& p.order_id_hex@ == hex_lower(o.id@)
            &&& p.event_id@ == ev
            &&& is_charge_for(p.request, o, old(catalog)@[index_of_event(old(catalog)@, ev)])
        },
{
    let id = new_object_id();
    let token = random_uuid_text();
    let created_at = now_millis();
    let ghost oid = id@;
    let ghost reference = REFERENCE_PREFIX@ + token@;
    proof {
        reveal_strlit("ORDER-");
        assert(reference.subrange(0, 6) =~= REFERENCE_PREFIX@);
    }
    let ghost s0 = store@;
    let r = open_order(catalog, store, payload, id, token.as_str(), created_at);
    proof {
        if r matches Err(OrderError::PersistenceError) {
            assert(has_order_id(s0, oid) || has_reference(s0, reference));
            assert(reference.len() == 42);
        }
    }
    r
}

/// What the compensation for a failed payment session managed to undo.
/// Either part fails only where what it undoes is already gone (the order
/// deleted, the event removed, or its tickets all back); such a record is for
/// operators to look at, and never changes what the buyer is told.
#[derive(Debug, Clone, Copy, PartialEq, Eq, Structural)]
pub struct Compensation {
    /// The pending order was found and deleted.
    pub order_deleted: bool,
    /// The order's ticket was given back to its event.
    pub ticket_released: bool,
}

/// Whether the ticket of event `id` can be given back in `c`.
pub open spec fn releasable(c: Seq<Event>, id: Seq<u8>) -> bool {
    has_event_id(c, id) && c[index_of_event(c, id)].available_tickets < c[index_of_event(
        c,
        id,
    )].total_tickets
}

/// Second step of order creation, given what the gateway answered for the
/// pending order: the buyer's credentials on success; on failure the order is
/// deleted and its ticket given back (compensation), the caller receives
/// `PaymentSessionError` with the gateway's detail, and the second part of the
/// result records what the compensation did.
pub fn finish_order(
    catalog: &mut EventCatalog,
    store: &mut OrderStore,
    pending: &PendingOrder,
    outcome: Result<MidtransChargeResponse, String>,
) -> (r: (Result<OrderCreated, OrderError>, Option<Compensation>))
    requires
        old(catalog).wf(),
        old(store).wf(),
    ensures
        final(catalog).wf(),
        final(store).wf(),
        outcome is Ok <==> r.0 is Ok,
        outcome is Ok <==> r.1 is None,
        outcome matches Ok(resp) ==> {
            &&& final(catalog)@ == old(catalog)@
            &&& final(store)@ == old(store)@
            &&& r.0 matches Ok(c) && c.order_id@ == pending.order_id_hex@
                && c.midtrans_token@ == resp.token@ && c.redirect_url@ == resp.redirect_url@
        },
        outcome matches Err(detail) ==> {
            &&& !has_order_id(final(store)@, pending.order_id@)
            &&& final(store)@ == if has_order_id(old(store)@, pending.order_id@) {
                old(store)@.remove(index_of_id(old(store)@, pending.order_id@))
            } else {
                old(store)@
            }
            &&& final(catalog)@ == after_release(old(catalog)@, pending.event_id@)
            &&& r.0 matches Err(OrderError::PaymentSessionError(d)) && d@
                == "Payment service error: "@ + detail@
        },
        r.1 matches Some(c) ==> c.order_deleted == has_order_id(old(store)@, pending.order_id@)
            && c.ticket_released == releasable(old(catalog)@, pending.event_id@),
{
    match outcome {
        Ok(resp) => (
            Ok(
                OrderCreated {
                    order_id: pending.order_id_hex.clone(),
                    midtrans_token: resp.token,
                    redirect_url: resp.redirect_url,
                },
            ),
            None,
        ),
        Err(detail) => {
            let order_deleted = store.delete(&pending.order_id);
            let ticket_released = match catalog.find_by_id(&pending.event_id) {
                Some(k) => catalog.release_ticket(k),
                None => false,
            };
            let d = String::from_str("Payment service error: ").concat(detail.as_str());
            (
                Err(OrderError::PaymentSessionError(d)),
                Some(Compensation { order_deleted, ticket_released }),
            )
        },
    }
}

/// The position of the order that a gateway reference names: first as an
/// internal identifier, where the text is one and an order has it, else as a
/// stored gateway reference.
pub open spec fn resolve(s: Seq<Order>, reference: Seq<char>) -> Option<int> {
    if is_object_id_text(reference) && has_order_id(s, bytes_of_hex(reference)) {
        Some(index_of_id(s, bytes_of_hex(reference)))
    } else if has_reference(s, reference) {
        Some(index_of_reference(s, reference))
    } else {
        None
    }
}

/// The orders after a notification with gateway reference `reference` and
/// transaction status `code`: the named order takes the status that the code
/// asks for, where the state machine permits it; otherwise nothing changes.
pub open spec fn reconciled(s: Seq<Order>, reference: Seq<char>, code: Seq<char>) -> Seq<Order> {
    match (status_for_code(code), resolve(s, reference)) {
        (Some(to), Some(i)) => guarded_update(s, i, to),
        _ => s,
    }
}

/// What a notification did. Every outcome is acknowledged to the gateway.
#[derive(Debug, Clone, Copy, PartialEq, Eq, Structural)]
pub enum Reconciliation {
    /// The transaction status asks for no change.
    Ignored,
    /// No order has that reference.
    Unmatched,
    /// The order's status was updated.
    Applied,
    /// The order was found, but its status already is, or is past, the one asked for.
    Unchanged,
}

/// The outcome that `reconciled` reports.
pub open spec fn reconciliation_of(s: Seq<Order>, reference: Seq<char>, code: Seq<char>) -> Reconciliation {
    match (status_for_code(code), resolve(s, reference)) {
        (None, _) => Reconciliation::Ignored,
        (Some(_), None) => Reconciliation::Unmatched,
        (Some(to), Some(i)) => if may_advance(s[i].status, to) {
            Reconciliation::Applied
        } else {
            Reconciliation::Unchanged
        },
    }
}

/// Applies a payment notification to the order it names: the reference is
/// tried as an internal identifier, then as a gateway reference; the update is
/// a guarded transition, so repeated or late notifications never move an order
/// back.
pub fn reconcile(store: &mut OrderStore, reference: &str, transaction_status: &str) -> (r:
    Reconciliation)
    requires
        old(store).wf(),
    ensures
        final(store).wf(),
        final(store)@ == reconciled(old(store)@, reference@, transaction_status@),
        r == reconciliation_of(old(store)@, reference@, transaction_status@),
{
    let to = match OrderStatus::from_transaction_status(transaction_status) {
        Some(to) => to,
        None => return Reconciliation::Ignored,
    };
    let by_id = match parse_object_id(reference) {
        Some(id) => store.find_by_id(&id),
        None => None,
    };
    let found = match by_id {
        Some(i) => Some(i),
        None => store.find_by_external_reference(reference),
    };
    match found {
        Some(i) => {
            if store.advance_status(i, to) {
                Reconciliation::Applied
            } else {
                Reconciliation::Unchanged
            }
        },
        None => Reconciliation::Unmatched,
    }
}

/// Handles a gateway notification, given the `order_id` and
/// `transaction_status` strings read from its payload: with both present it
/// reconciles them; a payload without either changes nothing. The caller
/// acknowledges whatever the outcome.
pub fn midtrans_webhook(
    store: &mut OrderStore,
    order_id: Option<&str>,
    transaction_status: Option<&str>,
) -> (r: Reconciliation)
    requires
        old(store).wf(),
    ensures
        final(store).wf(),
        match (order_id, transaction_status) {
            (Some(a), Some(b)) => final(store)@ == reconciled(old(store)@, a@, b@) && r
                == reconciliation_of(old(store)@, a@, b@),
            _ => final(store)@ == old(store)@ && r == Reconciliation::Ignored,
        },
{
    match (order_id, transaction_status) {
        (Some(a), Some(b)) => reconcile(store, a, b),
        _ => Reconciliation::Ignored,
    }
}

/// The routes served to the public, below their mount point.
pub fn routes() -> (r: Vec<Route>)
    ensures
        r@.len() == 4,
        r@[0].method == Method::Get && r@[0].path@ == "/events"@,
        r@[1].method == Method::Get && r@[1].path@ == "/events/<id>"@,
        r@[2].method == Method::Post && r@[2].path@ == "/orders"@,
        r@[3].method == Method::Post && r@[3].path@ == "/orders/notify"@,
{
    let mut r: Vec<Route> = Vec::new();
    r.push(Route { method: Method::Get, path: "/events" });
    r.push(Route { method: Method::Get, path: "/events/<id>" });
    r.push(Route { method: Method::Post, path: "/orders" });
    r.push(Route { method: Method::Post, path: "/orders/notify" });
    r
}

} // verus!
