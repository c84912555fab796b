//! Orders, their status state machine and the order-creation request.
use vstd::prelude::*;

use crate::utils::text::text_eq;

verus! {

/// Lifecycle status of an order.
///
/// `Pending -> Paid -> Sent` and `Pending -> Failed`; `Sent` and `Failed` are terminal.
#[derive(Debug, Clone, Copy, PartialEq, Eq, Structural)]
pub enum OrderStatus {
    Pending,
    Paid,
    Sent,
    Failed,
}

/// The transitions of the state machine: a status update from `from` to `to`
/// is applied only when this holds, so that no update ever moves an order back.
pub open spec fn may_advance(from: OrderStatus, to: OrderStatus) -> bool {
    match (from, to) {
        (OrderStatus::Pending, OrderStatus::Paid) => true,
        (OrderStatus::Pending, OrderStatus::Failed) => true,
        (OrderStatus::Paid, OrderStatus::Sent) => true,
        _ => false,
    }
}

/// Position of a status along the lifecycle; every permitted transition raises it.
pub open spec fn rank(s: OrderStatus) -> int {
    match s {
        OrderStatus::Pending => 0,
        OrderStatus::Paid => 1,
        OrderStatus::Sent => 2,
        OrderStatus::Failed => 1,
    }
}

/// The status that a gateway transaction status code asks for, if any.
pub open spec fn status_for_code(code: Seq<char>) -> Option<OrderStatus> {
    if code == "settlement"@ {
        Some(OrderStatus::Paid)
    } else if code == "deny"@ || code == "cancel"@ || code == "expire"@ {
        Some(OrderStatus::Failed)
    } else {
        None
    }
}

/// The lowercase name under which a status is stored and shown.
pub open spec fn status_name(s: OrderStatus) -> Seq<char> {
    match s {
        OrderStatus::Pending => "pending"@,
        OrderStatus::Paid => "paid"@,
        OrderStatus::Sent => "sent"@,
        OrderStatus::Failed => "failed"@,
    }
}

pub proof fn lemma_advance_raises_rank(from: OrderStatus, to: OrderStatus)
    requires
        may_advance(from, to),
    ensures
        rank(from) < rank(to),
{
}

impl OrderStatus {
    /// Whether an update from this status to `to` is a permitted transition.
    pub fn can_advance_to(&self, to: OrderStatus) -> (r: bool)
        ensures
            r == may_advance(*self, to),
    {
        match (*self, to) {
            (OrderStatus::Pending, OrderStatus::Paid) => true,
            (OrderStatus::Pending, OrderStatus::Failed) => true,
            (OrderStatus::Paid, OrderStatus::Sent) => true,
            _ => false,
        }
    }

    /// The statuses from which an update to `to` is permitted, for use as the
    /// filter of a conditional write.
    pub fn predecessors(to: OrderStatus) -> (r: Vec<OrderStatus>)
        ensures
            forall|s: OrderStatus| r@.contains(s) <==> may_advance(s, to),
    {
        let mut r: Vec<OrderStatus> = Vec::new();
        match to {
            OrderStatus::Paid | OrderStatus::Failed => r.push(OrderStatus::Pending),
            OrderStatus::Sent => r.push(OrderStatus::Paid),
            OrderStatus::Pending => {},
        }
        proof {
            assert forall|s: OrderStatus| r@.contains(s) <==> may_advance(s, to) by {
                if may_advance(s, to) {
                    assert(r@[0] == s);
                }
            }
        }
        r
    }

    /// The lowercase name of the status (`"pending"`, `"paid"`, `"sent"`, `"failed"`).
    pub fn to_string(&self) -> (r: String)
        ensures
            r@ == status_name(*self),
    {
        match self {
            OrderStatus::Pending => String::from_str("pending"),
            OrderStatus::Paid => String::from_str("paid"),
            OrderStatus::Sent => String::from_str("sent"),
            OrderStatus::Failed => String::from_str("failed"),
        }
    }

    /// Maps a gateway transaction status code to the status it asks for:
    /// `settlement` to `Paid`; `deny`, `cancel` and `expire` to `Failed`;
    /// anything else to `None`.
    pub fn from_transaction_status(code: &str) -> (r: Option<OrderStatus>)
        ensures
            r == status_for_code(code@),
    {
        if text_eq(code, "settlement") {
            Some(OrderStatus::Paid)
        } else if text_eq(code, "deny") || text_eq(code, "cancel") || text_eq(code, "expire") {
            Some(OrderStatus::Failed)
        } else {
            None
        }
    }
}

/// A ticket order as kept in the order store.
pub struct Order {
    /// Twelve-byte document identifier, assigned at creation.
    pub id: Vec<u8>,
    /// Identifier of the event the ticket is for.
    pub event_id: Vec<u8>,
    pub buyer_name: String,
    pub buyer_email: String,
    pub buyer_phone: String,
    pub status: OrderStatus,
    /// The reference shared with the payment gateway, `ORDER-<token>`.
    pub midtrans_order_id: String,
    /// Creation time, in milliseconds since the Unix epoch.
    pub created_at: i64,
}

/// The same order with another status.
pub open spec fn with_status(o: Order, s: OrderStatus) -> Order {
    Order { status: s, ..o }
}

/// A request to buy one ticket for an event.
pub struct CreateOrderPayload {
    /// The event's identifier in text form (24 hexadecimal digits).
    pub event_id: String,
    pub buyer_name: String,
    pub buyer_email: String,
    pub buyer_phone: String,
}

} // verus!
