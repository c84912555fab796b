//! Events and their ticket pool.
use vstd::prelude::*;

verus! {

/// An event with a finite pool of tickets.
pub struct Event {
    /// Twelve-byte document identifier.
    pub id: Vec<u8>,
    pub name: String,
    pub description: String,
    /// Start of the event, in milliseconds since the Unix epoch.
    pub date: i64,
    pub location: String,
    /// Price of one ticket in the payment gateway's integer unit
    /// (one thousandth of the catalogue price).
    pub price: i64,
    pub total_tickets: i32,
    pub available_tickets: i32,
}

impl Event {
    /// A well-formed event has a twelve-byte identifier and
    /// `0 <= available_tickets <= total_tickets`.
    pub open spec fn wf(&self) -> bool {
        &&& self.id@.len() == crate::utils::object_id::ID_LEN
        &&& 0 <= self.available_tickets <= self.total_tickets
    }
}

/// The same event with another count of available tickets.
pub open spec fn with_available(e: Event, n: int) -> Event {
    Event { available_tickets: n as i32, ..e }
}

} // verus!
