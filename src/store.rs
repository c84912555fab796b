//! The order store and the event catalogue: in-memory document collections
//! with the lookups and single-document conditional writes the workflows use.
use vstd::prelude::*;

use crate::models::event::{with_available, Event};
use crate::models::order::{may_advance, with_status, Order, OrderStatus};
use crate::utils::text::text_eq;
use crate::utils::object_id::{same_id, ID_LEN};

verus! {

/// Identifiers are twelve bytes, and both identifiers and gateway references
/// are unique across the store.
pub open spec fn orders_wf(s: Seq<Order>) -> bool {
    &&& forall|i: int| 0 <= i < s.len() ==> (#[trigger] s[i]).id@.len() == ID_LEN
    &&& forall|i: int, j: int|
        0 <= i < s.len() && 0 <= j < s.len() && i != j ==> (#[trigger] s[i]).id@ != (
        #[trigger] s[j]).id@
    &&& forall|i: int, j: int|
        0 <= i < s.len() && 0 <= j < s.len() && i != j ==> (#[trigger] s[i]).midtrans_order_id@
            != (#[trigger] s[j]).midtrans_order_id@
}

/// Some order of `s` has identifier `id`.
pub open spec fn has_order_id(s: Seq<Order>, id: Seq<u8>) -> bool {
    exists|i: int| 0 <= i < s.len() && (#[trigger] s[i]).id@ == id
}

/// Some order of `s` has gateway reference `r`.
pub open spec fn has_reference(s: Seq<Order>, r: Seq<char>) -> bool {
    exists|i: int| 0 <= i < s.len() && (#[trigger] s[i]).midtrans_order_id@ == r
}

/// The position of the order with identifier `id` (meaningful where `has_order_id`).
pub open spec fn index_of_id(s: Seq<Order>, id: Seq<u8>) -> int {
    choose|i: int| 0 <= i < s.len() && (#[trigger] s[i]).id@ == id
}

/// The position of the order with gateway reference `r` (meaningful where `has_reference`).
pub open spec fn index_of_reference(s: Seq<Order>, r: Seq<char>) -> int {
    choose|i: int| 0 <= i < s.len() && (#[trigger] s[i]).midtrans_order_id@ == r
}

/// The orders after the guarded status update of position `i` to `to`: applied
/// only where the state machine permits it, otherwise nothing changes.
pub open spec fn guarded_update(s: Seq<Order>, i: int, to: OrderStatus) -> Seq<Order> {
    if may_advance(s[i].status, to) {
        s.update(i, with_status(s[i], to))
    } else {
        s
    }
}

/// Every event has a twelve-byte identifier, a ticket count within its total,
/// and identifiers are unique.
pub open spec fn events_wf(s: Seq<Event>) -> bool {
    &&& forall|i: int| 0 <= i < s.len() ==> (#[trigger] s[i]).wf()
    &&& forall|i: int, j: int|
        0 <= i < s.len() && 0 <= j < s.len() && i != j ==> (#[trigger] s[i]).id@ != (
        #[trigger] s[j]).id@
}

/// Some event of `s` has identifier `id`.
pub open spec fn has_event_id(s: Seq<Event>, id: Seq<u8>) -> bool {
    exists|i: int| 0 <= i < s.len() && (#[trigger] s[i]).id@ == id
}

/// The position of the event with identifier `id` (meaningful where `has_event_id`).
pub open spec fn index_of_event(s: Seq<Event>, id: Seq<u8>) -> int {
    choose|i: int| 0 <= i < s.len() && (#[trigger] s[i]).id@ == id
}

/// A collection of orders, keyed by identifier and by gateway reference.
pub struct OrderStore {
    orders: Vec<Order>,
}

impl View for OrderStore {
    type V = Seq<Order>;

    closed spec fn view(&self) -> Seq<Order> {
        self.orders@
    }
}

impl OrderStore {
    pub open spec fn wf(&self) -> bool {
        orders_wf(self@)
    }

    /// An empty store.
    pub fn new() -> (r: OrderStore)
        ensures
            r.wf(),
            r@ == Seq::<Order>::empty(),
    {
        let r = OrderStore { orders: Vec::new() };
        assert(r@ =~= Seq::<Order>::empty());
        r
    }

    pub fn len(&self) -> (r: usize)
        ensures
            r == self@.len(),
    {
        self.orders.len()
    }

    /// The order at position `i`.
    pub fn get(&self, i: usize) -> (r: &Order)
        requires
            i < self@.len(),
        ensures
            *r == self@[i as int],
    {
        &self.orders[i]
    }

    /// The position of the order with identifier `id`, if any.
    pub fn find_by_id(&self, id: &Vec<u8>) -> (r: Option<usize>)
        requires
            self.wf(),
        ensures
            r.is_some() == has_order_id(self@, id@),
            r matches Some(i) ==> i == index_of_id(self@, id@) && i < self@.len()
                && self@[i as int].id@ == id@,
    {
        let mut i: usize = 0;
        while i < self.orders.len()
            invariant
                self.wf(),
                i <= self.orders@.len(),
                forall|j: int| 0 <= j < i ==> (#[trigger] self.orders@[j]).id@ != id@,
            decreases self.orders@.len() - i,
        {
            if same_id(&self.orders[i].id, id) {
                proof {
                    self.lemma_unique_id(i as int);
                }
                return Some(i);
            }
            i = i + 1;
        }
        None
    }

    /// The position of the order with gateway reference `reference`, if any.
    pub fn find_by_external_reference(&self, reference: &str) -> (r: Option<usize>)
        requires
            self.wf(),
        ensures
            r.is_some() == has_reference(self@, reference@),
            r matches Some(i) ==> i == index_of_reference(self@, reference@) && i < self@.len()
                && self@[i as int].midtrans_order_id@ == reference@,
    {
        let mut i: usize = 0;
        while i < self.orders.len()
            invariant
                self.wf(),
                i <= self.orders@.len(),
                forall|j: int|
                    0 <= j < i ==> (#[trigger] self.orders@[j]).midtrans_order_id@ != reference@,
            decreases self.orders@.len() - i,
        {
            if text_eq(self.orders[i].midtrans_order_id.as_str(), reference) {
                proof {
                    self.lemma_unique_reference(i as int);
                }
                return Some(i);
            }
            i = i + 1;
        }
        None
    }

    proof fn lemma_unique_id(&self, i: int)
        requires
            self.wf(),
            0 <= i < self@.len(),
        ensures
            index_of_id(self@, self@[i].id@) == i,
    {
        let k = index_of_id(self@, self@[i].id@);
        assert(0 <= k < self@.len() && self@[k].id@ == self@[i].id@);
    }

    proof fn lemma_unique_reference(&self, i: int)
        requires
            self.wf(),
            0 <= i < self@.len(),
        ensures
            index_of_reference(self@, self@[i].midtrans_order_id@) == i,
    {
        let k = index_of_reference(self@, self@[i].midtrans_order_id@);
        assert(0 <= k < self@.len() && self@[k].midtrans_order_id@
            == self@[i].midtrans_order_id@);
    }

    /// Stores a new order. The write is refused, and nothing changes, where its
    /// identifier or its gateway reference is already taken.
    pub fn insert(&mut self, order: Order) -> (ok: bool)
        requires
            old(self).wf(),
            order.id@.len() == ID_LEN,
        ensures
            final(self).wf(),
            ok == (!has_order_id(old(self)@, order.id@) && !has_reference(
                old(self)@,
                order.midtrans_order_id@,
            )),
            ok ==> final(self)@ == old(self)@.push(order),
            !ok ==> final(self)@ == old(self)@,
    {
        if self.find_by_id(&order.id).is_some() {
            return false;
        }
        if self.find_by_external_reference(order.midtrans_order_id.as_str()).is_some() {
            return false;
        }
        self.orders.push(order);
        true
    }

    /// Removes the order with identifier `id`; reports whether there was one.
    pub fn delete(&mut self, id: &Vec<u8>) -> (removed: bool)
        requires
            old(self).wf(),
        ensures
            final(self).wf(),
            removed == has_order_id(old(self)@, id@),
            removed ==> final(self)@ == old(self)@.remove(index_of_id(old(self)@, id@)),
            !removed ==> final(self)@ == old(self)@,
            !has_order_id(final(self)@, id@),
    {
        match self.find_by_id(id) {
            Some(i) => {
                let ghost s = self@;
                self.orders.remove(i);
                proof {
                    let t = self@;
                    assert forall|k: int| 0 <= k < t.len() implies (#[trigger] t[k]).id@ != id@ by {
                        if k < i {
                            assert(t[k] == s[k]);
                        } else {
                            assert(t[k] == s[k + 1]);
                        }
                    }
                }
                true
            },
            None => false,
        }
    }

    /// Conditional status write on the order at position `i`: the status becomes
    /// `to` only where the state machine permits the transition. Reports whether
    /// it was applied.
    pub fn advance_status(&mut self, i: usize, to: OrderStatus) -> (applied: bool)
        requires
            old(self).wf(),
            i < old(self)@.len(),
        ensures
            final(self).wf(),
            applied == may_advance(old(self)@[i as int].status, to),
            final(self)@ == guarded_update(old(self)@, i as int, to),
    {
        if !self.orders[i].status.can_advance_to(to) {
            return false;
        }
        let ghost s = self@;
        let mut o = self.orders.remove(i);
        o.status = to;
        self.orders.insert(i, o);
        assert(self@ =~= s.update(i as int, with_status(s[i as int], to)));
        true
    }
}

/// A collection of events with their ticket pools.
pub struct EventCatalog {
    events: Vec<Event>,
}

impl View for EventCatalog {
    type V = Seq<Event>;

    closed spec fn view(&self) -> Seq<Event> {
        self.events@
    }
}

impl EventCatalog {
    pub open spec fn wf(&self) -> bool {
        events_wf(self@)
    }

    /// An empty catalogue.
    pub fn new() -> (r: EventCatalog)
        ensures
            r.wf(),
            r@ == Seq::<Event>::empty(),
    {
        let r = EventCatalog { events: Vec::new() };
        assert(r@ =~= Seq::<Event>::empty());
        r
    }

    pub fn len(&self) -> (r: usize)
        ensures
            r == self@.len(),
    {
        self.events.len()
    }

    /// The event at position `i`.
    pub fn get(&self, i: usize) -> (r: &Event)
        requires
            i < self@.len(),
        ensures
            *r == self@[i as int],
    {
        &self.events[i]
    }

    /// Adds an event; refused, with nothing changed, where the event is not
    /// well formed or its identifier is taken.
    pub fn insert(&mut self, event: Event) -> (ok: bool)
        requires
            old(self).wf(),
        ensures
            final(self).wf(),
            ok == (event.wf() && !has_event_id(old(self)@, event.id@)),
            ok ==> final(self)@ == old(self)@.push(event),
            !ok ==> final(self)@ == old(self)@,
    {
        if event.id.len() != ID_LEN || event.available_tickets < 0 || event.available_tickets
            > event.total_tickets {
            return false;
        }
        if self.find_by_id(&event.id).is_some() {
            return false;
        }
        self.events.push(event);
        true
    }

    /// The position of the event with identifier `id`, if any.
    pub fn find_by_id(&self, id: &Vec<u8>) -> (r: Option<usize>)
        requires
            self.wf(),
        ensures
            r.is_some() == has_event_id(self@, id@),
            r matches Some(i) ==> i == index_of_event(self@, id@) && i < self@.len()
                && self@[i as int].id@ == id@,
    {
        let mut i: usize = 0;
        while i < self.events.len()
            invariant
                self.wf(),
                i <= self.events@.len(),
                forall|j: int| 0 <= j < i ==> (#[trigger] self.events@[j]).id@ != id@,
            decreases self.events@.len() - i,
        {
            if same_id(&self.events[i].id, id) {
                proof {
                    let k = index_of_event(self@, id@);
                    assert(0 <= k < self@.len() && self@[k].id@ == id@);
                }
                return Some(i);
            }
            i = i + 1;
        }
        None
    }

    /// Atomic conditional decrement: takes one ticket from the event at position
    /// `i` where one is left, else changes nothing. Reports whether it took one.
    pub fn reserve_ticket(&mut self, i: usize) -> (ok: bool)
        requires
            old(self).wf(),
            i < old(self)@.len(),
        ensures
            final(self).wf(),
            ok == (old(self)@[i as int].available_tickets > 0),
            ok ==> final(self)@ == old(self)@.update(
                i as int,
                with_available(old(self)@[i as int], old(self)@[i as int].available_tickets - 1),
            ),
            !ok ==> final(self)@ == old(self)@,
    {
        if self.events[i].available_tickets <= 0 {
            return false;
        }
        let ghost s = self@;
        let mut e = self.events.remove(i);
        e.available_tickets = e.available_tickets - 1;
        self.events.insert(i, e);
        assert(self@ =~= s.update(i as int, with_available(s[i as int], s[i as int].available_tickets - 1)));
        true
    }

    /// Gives one ticket back to the event at position `i`, where that keeps the
    /// count within the total, else changes nothing. Reports whether it did.
    pub fn release_ticket(&mut self, i: usize) -> (ok: bool)
        requires
            old(self).wf(),
            i < old(self)@.len(),
        ensures
            final(self).wf(),
            ok == (old(self)@[i as int].available_tickets < old(self)@[i as int].total_tickets),
            ok ==> final(self)@ == old(self)@.update(
                i as int,
                with_available(old(self)@[i as int], old(self)@[i as int].available_tickets + 1),
            ),
            !ok ==> final(self)@ == old(self)@,
    {
        if self.events[i].available_tickets >= self.events[i].total_tickets {
            return false;
        }
        let ghost s = self@;
        let mut e = self.events.remove(i);
        e.available_tickets = e.available_tickets + 1;
        self.events.insert(i, e);
        assert(self@ =~= s.update(i as int, with_available(s[i as int], s[i as int].available_tickets + 1)));
        true
    }
}

} // verus!
