//! The payment gateway's session request: what is sent for an order, and the
//! credential that authenticates it.
use base64::Engine;
use vstd::prelude::*;

use crate::models::event::Event;
use crate::models::order::Order;
use crate::utils::object_id::{hex_lower, object_id_hex, ID_LEN};

verus! {

/// Endpoint that creates a payment session.
pub const MIDTRANS_URL: &'static str = "https://app.sandbox.midtrans.com/snap/v1/transactions";

/// What the gateway hands back for a created session.
pub struct MidtransChargeResponse {
    pub token: String,
    pub redirect_url: String,
}

/// Reference and amount of the transaction.
pub struct TransactionDetail {
    pub order_id: String,
    pub gross_amount: i64,
}

/// One line of the bill.
pub struct ItemDetail {
    pub id: String,
    pub price: i64,
    pub quantity: i32,
    pub name: String,
}

/// Who pays.
pub struct CustomerDetail {
    pub first_name: String,
    pub email: String,
    pub phone: String,
}

/// The body of a session request.
pub struct ChargeRequest {
    pub payment_type: String,
    pub transaction_details: TransactionDetail,
    pub item_details: Vec<ItemDetail>,
    pub customer_details: CustomerDetail,
}

/// A session request for one ticket of event `e` for order `o`: the gross amount
/// is the unit price, one item line carries the event, and the buyer is the
/// customer.
pub open spec fn is_charge_for(req: ChargeRequest, o: Order, e: Event) -> bool {
    &&& req.payment_type@ == "snap"@
    &&& req.transaction_details.order_id@ == o.midtrans_order_id@
    &&& req.transaction_details.gross_amount == e.price
    &&& req.item_details@.len() == 1
    &&& req.item_details@[0].id@ == hex_lower(e.id@)
    &&& req.item_details@[0].price == e.price
    &&& req.item_details@[0].quantity == 1
    &&& req.item_details@[0].name@ == e.name@
    &&& req.customer_details.first_name@ == o.buyer_name@
    &&& req.customer_details.email@ == o.buyer_email@
    &&& req.customer_details.phone@ == o.buyer_phone@
}

/// Builds the session request for one ticket of `event` bought by `order`.
pub fn build_charge_request(order: &Order, event: &Event) -> (r: ChargeRequest)
    requires
        event.id@.len() == ID_LEN,
    ensures
        is_charge_for(r, *order, *event),
{
    let transaction_details = TransactionDetail {
        order_id: order.midtrans_order_id.clone(),
        gross_amount: event.price,
    };
    let mut item_details: Vec<ItemDetail> = Vec::new();
    item_details.push(
        ItemDetail {
            id: object_id_hex(&event.id),
            price: event.price,
            quantity: 1,
            name: event.name.clone(),
        },
    );
    let customer_details = CustomerDetail {
        first_name: order.buyer_name.clone(),
        email: order.buyer_email.clone(),
        phone: order.buyer_phone.clone(),
    };
    ChargeRequest {
        payment_type: String::from_str("snap"),
        transaction_details,
        item_details,
        customer_details,
    }
}

/// Standard base64 (RFC 4648 alphabet, with padding) of the UTF-8 bytes of a text.
pub uninterp spec fn base64_text(s: Seq<char>) -> Seq<char>;

/// Relies on base64's `STANDARD.encode`: the result depends on the bytes alone.
#[verifier::external_body]
fn base64_encode(s: &str) -> (r: String)
    ensures
        r@ == base64_text(s@),
        s@.len() == 0 ==> r@.len() == 0,
{
    base64::engine::general_purpose::STANDARD.encode(s)
}

/// HTTP Basic credential for the gateway: the server key as user name and an
/// empty password, `Basic base64("<key>:")`.
pub fn authorization_header(server_key: &str) -> (r: String)
    ensures
        r@ == "Basic "@ + base64_text(server_key@ + ":"@),
{
    let credentials = String::from_str(server_key).concat(":");
    let encoded = base64_encode(credentials.as_str());
    String::from_str("Basic ").concat(encoded.as_str())
}

/// A session request ready to send: where, with which credential, and what.
pub struct ChargeCall {
    pub url: String,
    pub authorization: String,
    pub request: ChargeRequest,
}

/// Prepares the gateway call that opens a payment session for one ticket of
/// `event` bought by `order`, authenticated with `server_key`.
pub fn create_midtrans_transaction(order: &Order, event: &Event, server_key: &str) -> (r:
    ChargeCall)
    requires
        event.id@.len() == ID_LEN,
    ensures
        r.url@ == MIDTRANS_URL@,
        r.authorization@ == "Basic "@ + base64_text(server_key@ + ":"@),
        is_charge_for(r.request, *order, *event),
{
    ChargeCall {
        url: String::from_str(MIDTRANS_URL),
        authorization: authorization_header(server_key),
        request: build_charge_request(order, event),
    }
}

/// The detail reported when the gateway answers a session request with a
/// failure status and body `body`.
pub fn gateway_error_detail(body: &str) -> (r: String)
    ensures
        r@ == "Midtrans API error: "@ + body@,
{
    String::from_str("Midtrans API error: ").concat(body)
}

} // verus!
