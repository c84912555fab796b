//! Laws of the order lifecycle and of payment reconciliation, stated over the
//! models that the workflows' contracts use.
use vstd::prelude::*;

use crate::models::event::Event;
use crate::models::order::{rank, status_for_code, Order, OrderStatus};
use crate::routes::public::{admits, after_reservation, reconciled, resolve};
use crate::store::{
    events_wf, guarded_update, has_event_id, has_order_id, has_reference, index_of_event,
    index_of_id, index_of_reference, orders_wf,
};
use crate::utils::object_id::{bytes_of_hex, hex_lower, is_object_id_text, lemma_hex_round_trip};

verus! {

/// A guarded update keeps every identifier and gateway reference, and the
/// store's invariant.
proof fn lemma_guarded_update_keeps_keys(s: Seq<Order>, i: int, to: OrderStatus)
    requires
        orders_wf(s),
        0 <= i < s.len(),
    ensures
        guarded_update(s, i, to).len() == s.len(),
        forall|k: int|
            0 <= k < s.len() ==> (#[trigger] guarded_update(s, i, to)[k]).id@ == s[k].id@
                && guarded_update(s, i, to)[k].midtrans_order_id@ == s[k].midtrans_order_id@,
        orders_wf(guarded_update(s, i, to)),
{
}

/// Resolution is unchanged by a guarded update.
proof fn lemma_resolve_after_update(s: Seq<Order>, i: int, to: OrderStatus, reference: Seq<char>)
    requires
        orders_wf(s),
        0 <= i < s.len(),
    ensures
        resolve(guarded_update(s, i, to), reference) == resolve(s, reference),
{
    let t = guarded_update(s, i, to);
    lemma_guarded_update_keeps_keys(s, i, to);
    let id = bytes_of_hex(reference);
    if has_order_id(s, id) {
        let k = index_of_id(s, id);
        assert(t[k].id@ == id);
        let k2 = index_of_id(t, id);
        assert(t[k2].id@ == id);
    }
    if has_order_id(t, id) {
        let k2 = index_of_id(t, id);
        assert(s[k2].id@ == id);
    }
    if has_reference(s, reference) {
        let k = index_of_reference(s, reference);
        assert(t[k].midtrans_order_id@ == reference);
        let k2 = index_of_reference(t, reference);
        assert(t[k2].midtrans_order_id@ == reference);
    }
    if has_reference(t, reference) {
        let k2 = index_of_reference(t, reference);
        assert(s[k2].midtrans_order_id@ == reference);
    }
}

/// A resolved position lies within the store.
proof fn lemma_resolve_in_bounds(s: Seq<Order>, reference: Seq<char>)
    ensures
        resolve(s, reference) matches Some(i) ==> 0 <= i < s.len(),
{
    let id = bytes_of_hex(reference);
    if is_object_id_text(reference) && has_order_id(s, id) {
        let k = index_of_id(s, id);
        assert(0 <= k < s.len());
    } else if has_reference(s, reference) {
        let k = index_of_reference(s, reference);
        assert(0 <= k < s.len());
    }
}

/// Reconciliation keeps the store's invariant.
pub proof fn lemma_reconcile_keeps_wf(s: Seq<Order>, reference: Seq<char>, code: Seq<char>)
    requires
        orders_wf(s),
    ensures
        orders_wf(reconciled(s, reference, code)),
        reconciled(s, reference, code).len() == s.len(),
{
    lemma_resolve_in_bounds(s, reference);
    if let (Some(to), Some(i)) = (status_for_code(code), resolve(s, reference)) {
        lemma_guarded_update_keeps_keys(s, i, to);
    }
}

/// Delivering the same notification twice has the effect of delivering it once.
pub proof fn lemma_reconcile_idempotent(s: Seq<Order>, reference: Seq<char>, code: Seq<char>)
    requires
        orders_wf(s),
    ensures
        reconciled(reconciled(s, reference, code), reference, code) == reconciled(
            s,
            reference,
            code,
        ),
{
    lemma_resolve_in_bounds(s, reference);
    if let (Some(to), Some(i)) = (status_for_code(code), resolve(s, reference)) {
        let t = guarded_update(s, i, to);
        lemma_resolve_after_update(s, i, to, reference);
        lemma_guarded_update_keeps_keys(s, i, to);
        assert(guarded_update(t, i, to) == t);
    }
}

/// No notification moves an order back along its lifecycle: every status
/// keeps or raises its rank, and a paid or sent order keeps its status.
pub proof fn lemma_reconcile_never_regresses(
    s: Seq<Order>,
    reference: Seq<char>,
    code: Seq<char>,
    k: int,
)
    requires
        orders_wf(s),
        0 <= k < s.len(),
    ensures
        rank(reconciled(s, reference, code)[k].status) >= rank(s[k].status),
        s[k].status == OrderStatus::Paid || s[k].status == OrderStatus::Sent ==> reconciled(
            s,
            reference,
            code,
        )[k].status == s[k].status,
{
    lemma_resolve_in_bounds(s, reference);
}

/// A notification that names an order by its internal identifier, in
/// lowercase hexadecimal, reaches that order.
pub proof fn lemma_identifier_resolves(s: Seq<Order>, i: int)
    requires
        orders_wf(s),
        0 <= i < s.len(),
    ensures
        resolve(s, hex_lower(s[i].id@)) == Some(i),
{
    let h = hex_lower(s[i].id@);
    lemma_hex_round_trip(s[i].id@);
    assert(has_order_id(s, s[i].id@));
    let k = index_of_id(s, s[i].id@);
    assert(s[k].id@ == s[i].id@);
}

/// A notification that names an order by its gateway reference reaches that
/// order, where the reference is not itself an identifier's text (as no
/// `ORDER-` reference is: those are 42 characters long).
pub proof fn lemma_reference_resolves(s: Seq<Order>, i: int)
    requires
        orders_wf(s),
        0 <= i < s.len(),
        !is_object_id_text(s[i].midtrans_order_id@),
    ensures
        resolve(s, s[i].midtrans_order_id@) == Some(i),
        forall|code: Seq<char>|
            #![trigger reconciled(s, s[i].midtrans_order_id@, code)]
            status_for_code(code) matches Some(to) ==> reconciled(s, s[i].midtrans_order_id@, code)
                == guarded_update(s, i, to),
{
    let r = s[i].midtrans_order_id@;
    assert(has_reference(s, r));
    let k = index_of_reference(s, r);
    assert(s[k].midtrans_order_id@ == r);
}

/// An order just added to the store is found again by its identifier's text,
/// at the end of the store.
pub proof fn lemma_created_order_resolves(s: Seq<Order>, o: Order)
    requires
        orders_wf(s.push(o)),
    ensures
        resolve(s.push(o), hex_lower(o.id@)) == Some(s.len() as int),
        s.push(o)[s.len() as int] == o,
{
    lemma_identifier_resolves(s.push(o), s.len() as int);
}

/// A pending order named by its identifier is paid after one `settlement`
/// notification, and stays paid after a second one.
pub proof fn lemma_settlement_twice_pays(s: Seq<Order>, i: int)
    requires
        orders_wf(s),
        0 <= i < s.len(),
        s[i].status == OrderStatus::Pending,
    ensures
        reconciled(s, hex_lower(s[i].id@), "settlement"@)[i].status == OrderStatus::Paid,
        reconciled(
            reconciled(s, hex_lower(s[i].id@), "settlement"@),
            hex_lower(s[i].id@),
            "settlement"@,
        )[i].status == OrderStatus::Paid,
{
    lemma_identifier_resolves(s, i);
    lemma_reconcile_idempotent(s, hex_lower(s[i].id@), "settlement"@);
}

/// Admission control hands out at most the tickets there are: once the last
/// ticket of an event is taken, the event admits no further order.
pub proof fn lemma_last_ticket_admits_one(c: Seq<Event>, id: Seq<u8>)
    requires
        events_wf(c),
        has_event_id(c, id),
        c[index_of_event(c, id)].available_tickets == 1,
    ensures
        admits(c, id),
        events_wf(after_reservation(c, id)),
        !admits(after_reservation(c, id), id),
{
    let k = index_of_event(c, id);
    let t = after_reservation(c, id);
    assert(t[k].id@ == id);
    let k2 = index_of_event(t, id);
    assert(t[k2].id@ == id);
    assert(k2 == k) by {
        if k2 != k {
            assert(c[k2].id@ == id);
        }
    }
    assert forall|j: int| 0 <= j < t.len() implies (#[trigger] t[j]).wf() by {
        assert(c[j].wf());
    }
}

} // verus!
