//! Administrator operations: sign-in, and delivery of tickets for paid orders.
use vstd::prelude::*;

use crate::models::admin::Admin;
use crate::models::event::Event;
use crate::models::order::{Order, OrderStatus};
use crate::routes::{Method, Route};
use crate::store::{
    guarded_update, has_event_id, has_order_id, index_of_event, index_of_id, EventCatalog,
    OrderStore,
};
use crate::utils::auth::{bcrypt_verdict, create_jwt, hs256_token, verify_password, AdminAuth};
use crate::utils::object_id::{bytes_of_hex, is_object_id_text, new_object_id, parse_object_id, ID_LEN};

verus! {

/// Sign-in request.
pub struct LoginPayload {
    pub email: String,
    pub password: String,
}

/// Why a sign-in failed.
#[derive(Debug, Clone, Copy, PartialEq, Eq, Structural)]
pub enum LoginError {
    /// No such administrator, or the wrong password.
    InvalidCredentials,
    /// The token could not be issued.
    TokenGenerationFailed,
}

/// A line naming the signed-in administrator.
pub fn me(admin: AdminAuth) -> (r: String)
    ensures
        r@ == "Admin email: "@ + admin.email@,
{
    String::from_str("Admin email: ").concat(admin.email.as_str())
}

/// Signs an administrator in: `admin` is the account stored under the request's
/// email, if any. A matching password yields a token for that account's email.
pub fn login(admin: Option<&Admin>, payload: &LoginPayload, secret: &str) -> (r: Result<
    String,
    LoginError,
>)
    ensures
        admin is None ==> r == Err::<String, LoginError>(LoginError::InvalidCredentials),
        admin matches Some(a) ==> {
            &&& bcrypt_verdict(payload.password@, a.password_hash@) != Some(true) ==> r == Err::<
                String,
                LoginError,
            >(LoginError::InvalidCredentials)
            &&& bcrypt_verdict(payload.password@, a.password_hash@) == Some(true) ==> (r is Ok
                || r == Err::<String, LoginError>(LoginError::TokenGenerationFailed))
            &&& r matches Ok(t) ==> exists|exp: u64| t@ == hs256_token(a.email@, exp, secret@)
        },
{
    let a = match admin {
        Some(a) => a,
        None => return Err(LoginError::InvalidCredentials),
    };
    if !verify_password(payload.password.as_str(), a.password_hash.as_str()) {
        return Err(LoginError::InvalidCredentials);
    }
    match create_jwt(a.email.as_str(), secret) {
        Ok(t) => Ok(t),
        Err(_) => Err(LoginError::TokenGenerationFailed),
    }
}

/// Subject and message of a ticket email.
pub struct SendTicketPayload {
    pub subject: String,
    pub message: String,
}

/// An email to deliver.
pub struct TicketEmail {
    pub from: String,
    pub to: String,
    pub subject: String,
    pub text: String,
}

/// Why a ticket could not be sent.
#[derive(Debug)]
pub enum SendTicketError {
    /// The order reference is not 24 hexadecimal digits.
    InvalidOrderId,
    /// No order has that identifier.
    NotFound,
    /// The order is not paid.
    NotPaid,
    /// The mail service refused the email; the detail says why.
    EmailError(String),
}

/// The body of a ticket email to `name` carrying `message`.
pub open spec fn ticket_text(name: Seq<char>, message: Seq<char>) -> Seq<char> {
    "Halo "@ + name + ",\n\n"@ + message + "\n\nTerima kasih atas pembelian tiket Anda."@
}

/// Status of the order whose identifier `order_ref` spells.
pub open spec fn status_of_ref(s: Seq<Order>, order_ref: Seq<char>) -> OrderStatus {
    s[index_of_id(s, bytes_of_hex(order_ref))].status
}

/// First step of sending a ticket: the order named by `order_ref` must exist
/// and be paid; the result is the email to deliver to its buyer, and the
/// order's identifier for the second step.
pub fn send_ticket(
    store: &OrderStore,
    order_ref: &str,
    payload: &SendTicketPayload,
    from: &str,
) -> (r: Result<(Vec<u8>, TicketEmail), SendTicketError>)
    requires
        store.wf(),
    ensures
        !is_object_id_text(order_ref@) ==> r matches Err(SendTicketError::InvalidOrderId),
        is_object_id_text(order_ref@) && !has_order_id(store@, bytes_of_hex(order_ref@)) ==> r matches Err(
            SendTicketError::NotFound,
        ),
        is_object_id_text(order_ref@) && has_order_id(store@, bytes_of_hex(order_ref@))
            && status_of_ref(store@, order_ref@) != OrderStatus::Paid ==> r matches Err(
            SendTicketError::NotPaid,
        ),
        is_object_id_text(order_ref@) && has_order_id(store@, bytes_of_hex(order_ref@))
            && status_of_ref(store@, order_ref@) == OrderStatus::Paid ==> r is Ok,
        r matches Ok((id, email)) ==> {
            let o = store@[index_of_id(store@, bytes_of_hex(order_ref@))];
            &&& is_object_id_text(order_ref@)
            &&& has_order_id(store@, bytes_of_hex(order_ref@))
            &&& o.status == OrderStatus::Paid
            &&& id@ == o.id@
            &&& email.from@ == from@
            &&& email.to@ == o.buyer_email@
            &&& email.subject@ == payload.subject@
            &&& email.text@ == ticket_text(o.buyer_name@, payload.message@)
        },
{
    let id = match parse_object_id(order_ref) {
        Some(id) => id,
        None => return Err(SendTicketError::InvalidOrderId),
    };
    let i = match store.find_by_id(&id) {
        Some(i) => i,
        None => return Err(SendTicketError::NotFound),
    };
    let o = store.get(i);
    if o.status != OrderStatus::Paid {
        return Err(SendTicketError::NotPaid);
    }
    let text = String::from_str("Halo ").concat(o.buyer_name.as_str()).concat(",\n\n").concat(
        payload.message.as_str(),
    ).concat("\n\nTerima kasih atas pembelian tiket Anda.");
    let email = TicketEmail {
        from: String::from_str(from),
        to: o.buyer_email.clone(),
        subject: payload.subject.clone(),
        text,
    };
    Ok((id, email))
}

/// Second step of sending a ticket, given what the mail service answered: on
/// delivery the order moves from paid to sent (a guarded transition); on
/// failure nothing changes and the detail is reported.
pub fn ticket_delivered(store: &mut OrderStore, id: &Vec<u8>, delivery: Result<(), String>) -> (r:
    Result<(), SendTicketError>)
    requires
        old(store).wf(),
    ensures
        final(store).wf(),
        delivery is Ok <==> r is Ok,
        delivery is Err ==> final(store)@ == old(store)@,
        delivery matches Err(d) ==> (r matches Err(SendTicketError::EmailError(e)) && e@ == d@),
        delivery is Ok ==> final(store)@ == if has_order_id(old(store)@, id@) {
            guarded_update(old(store)@, index_of_id(old(store)@, id@), OrderStatus::Sent)
        } else {
            old(store)@
        },
{
    match delivery {
        Ok(()) => {
            match store.find_by_id(id) {
                Some(i) => {
                    store.advance_status(i, OrderStatus::Sent);
                },
                None => {},
            }
            Ok(())
        },
        Err(d) => Err(SendTicketError::EmailError(d)),
    }
}

/// Why an event could not be created.
#[derive(Debug, Clone, Copy, PartialEq, Eq, Structural)]
pub enum CreateEventError {
    /// The ticket total is negative.
    InvalidTicketCount,
    /// The catalogue refused the write.
    PersistenceError,
}

/// The event as stored under identifier `id`: all of its tickets available,
/// everything else as given.
pub open spec fn is_stored_event(e: Event, given: Event, id: Seq<u8>) -> bool {
    &&& e.id@ == id
    &&& e.name@ == given.name@
    &&& e.description@ == given.description@
    &&& e.date == given.date
    &&& e.location@ == given.location@
    &&& e.price == given.price
    &&& e.total_tickets == given.total_tickets
    &&& e.available_tickets == given.total_tickets
}

/// Adds an event to the catalogue under identifier `id`, with all of its
/// tickets available; the identifier and available count of `event` are
/// ignored. Fails with `InvalidTicketCount` where the total is negative, and
/// with `PersistenceError` exactly where `id` is not twelve bytes or is taken.
/// Returns the stored event's position.
pub fn store_event(catalog: &mut EventCatalog, event: Event, id: Vec<u8>) -> (r: Result<
    usize,
    CreateEventError,
>)
    requires
        old(catalog).wf(),
    ensures
        final(catalog).wf(),
        event.total_tickets < 0 ==> r == Err::<usize, CreateEventError>(
            CreateEventError::InvalidTicketCount,
        ),
        event.total_tickets >= 0 ==> (r == Err::<usize, CreateEventError>(
            CreateEventError::PersistenceError,
        ) <==> (id@.len() != ID_LEN || has_event_id(old(catalog)@, id@))),
        event.total_tickets >= 0 ==> (r is Ok || r == Err::<usize, CreateEventError>(
            CreateEventError::PersistenceError,
        )),
        r is Err ==> final(catalog)@ == old(catalog)@,
        r matches Ok(i) ==> {
            &&& i == old(catalog)@.len()
            &&& final(catalog)@ == old(catalog)@.push(final(catalog)@[i as int])
            &&& is_stored_event(final(catalog)@[i as int], event, id@)
        },
{
    if event.total_tickets < 0 {
        return Err(CreateEventError::InvalidTicketCount);
    }
    let fresh = Event {
        id,
        name: event.name,
        description: event.description,
        date: event.date,
        location: event.location,
        price: event.price,
        total_tickets: event.total_tickets,
        available_tickets: event.total_tickets,
    };
    let i = catalog.len();
    if catalog.insert(fresh) {
        Ok(i)
    } else {
        Err(CreateEventError::PersistenceError)
    }
}

/// Adds an event to the catalogue under a fresh identifier (see
/// `store_event`). `PersistenceError` comes only where the drawn identifier is
/// already taken.
pub fn create_event(catalog: &mut EventCatalog, event: Event) -> (r: Result<usize, CreateEventError>)
    requires
        old(catalog).wf(),
    ensures
        final(catalog).wf(),
        event.total_tickets < 0 ==> r == Err::<usize, CreateEventError>(
            CreateEventError::InvalidTicketCount,
        ),
        event.total_tickets >= 0 ==> (r is Ok || r == Err::<usize, CreateEventError>(
            CreateEventError::PersistenceError,
        )),
        r == Err::<usize, CreateEventError>(CreateEventError::PersistenceError) ==> exists|
            id: Seq<u8>,
        | id.len() == ID_LEN && has_event_id(old(catalog)@, id),
        r is Err ==> final(catalog)@ == old(catalog)@,
        r matches Ok(i) ==> {
            let e = final(catalog)@[i as int];
            &&& i == old(catalog)@.len()
            &&& final(catalog)@ == old(catalog)@.push(e)
            &&& e.id@.len() == ID_LEN
            &&& !has_event_id(old(catalog)@, e.id@)
            &&& is_stored_event(e, event, e.id@)
        },
{
    let id = new_object_id();
    let ghost idv = id@;
    let ghost c0 = catalog@;
    let r = store_event(catalog, event, id);
    proof {
        if r == Err::<usize, CreateEventError>(CreateEventError::PersistenceError) {
            assert(has_event_id(c0, idv));
        }
    }
    r
}

/// Why an event or order lookup failed.
#[derive(Debug, Clone, Copy, PartialEq, Eq, Structural)]
pub enum LookupError {
    /// The reference is not 24 hexadecimal digits.
    BadRequest,
    /// Nothing has that identifier.
    NotFound,
}

/// The position of the event whose identifier `id` spells.
pub fn get_event(catalog: &EventCatalog, id: &str) -> (r: Result<usize, LookupError>)
    requires
        catalog.wf(),
    ensures
        !is_object_id_text(id@) ==> r == Err::<usize, LookupError>(LookupError::BadRequest),
        is_object_id_text(id@) && !has_event_id(catalog@, bytes_of_hex(id@)) ==> r == Err::<
            usize,
            LookupError,
        >(LookupError::NotFound),
        is_object_id_text(id@) && has_event_id(catalog@, bytes_of_hex(id@)) ==> r == Ok::<
            usize,
            LookupError,
        >(index_of_event(catalog@, bytes_of_hex(id@)) as usize),
        r matches Ok(i) ==> i < catalog@.len() && catalog@[i as int].id@ == bytes_of_hex(id@),
{
    let key = match parse_object_id(id) {
        Some(k) => k,
        None => return Err(LookupError::BadRequest),
    };
    match catalog.find_by_id(&key) {
        Some(i) => Ok(i),
        None => Err(LookupError::NotFound),
    }
}

/// `r` lists positions of `s` newest first: in range, each once, with
/// non-increasing creation times.
pub open spec fn newest_first(s: Seq<Order>, r: Seq<usize>) -> bool {
    &&& forall|k: int| 0 <= k < r.len() ==> (#[trigger] r[k]) < s.len()
    &&& forall|a: int, b: int| 0 <= a < b < r.len() ==> r[a] != r[b]
    &&& forall|a: int, b: int|
        0 <= a < b < r.len() ==> s[r[a] as int].created_at >= s[r[b] as int].created_at
}

/// The positions of all orders, newest first.
pub fn get_orders(store: &OrderStore) -> (r: Vec<usize>)
    ensures
        r@.len() == store@.len(),
        newest_first(store@, r@),
        forall|i: usize| i < store@.len() ==> #[trigger] r@.contains(i),
{
    let n = store.len();
    let mut r: Vec<usize> = Vec::new();
    let mut i: usize = 0;
    while i < n
        invariant
            n == store@.len(),
            i <= n,
            r@.len() == i,
            newest_first(store@, r@),
            forall|k: int| 0 <= k < r@.len() ==> (#[trigger] r@[k]) < i,
            forall|j: usize| j < i ==> #[trigger] r@.contains(j),
        decreases n - i,
    {
        let t = store.get(i).created_at;
        let mut p: usize = 0;
        while p < r.len() && store.get(r[p]).created_at >= t
            invariant
                n == store@.len(),
                i < n,
                t == store@[i as int].created_at,
                p <= r@.len(),
                newest_first(store@, r@),
                forall|k: int| 0 <= k < r@.len() ==> (#[trigger] r@[k]) < i,
                forall|k: int| 0 <= k < p ==> store@[(#[trigger] r@[k]) as int].created_at >= t,
            decreases r@.len() - p,
        {
            p = p + 1;
        }
        let ghost old_r = r@;
        r.insert(p, i);
        proof {
            assert(r@ == old_r.insert(p as int, i));
            assert forall|a: int, b: int| 0 <= a < b < r@.len() implies store@[r@[a] as int].created_at
                >= store@[r@[b] as int].created_at by {
                if b < p {
                } else if b == p {
                    assert(r@[a] == old_r[a]);
                } else if a == p {
                    assert(r@[b] == old_r[b - 1]);
                    assert(store@[old_r[p as int] as int].created_at < t);
                    if b - 1 > p {
                        assert(store@[old_r[p as int] as int].created_at >= store@[old_r[b - 1] as int].created_at);
                    }
                } else if a < p {
                    assert(r@[b] == old_r[b - 1]);
                } else {
                    assert(r@[a] == old_r[a - 1]);
                    assert(r@[b] == old_r[b - 1]);
                }
            }
            assert forall|a: int, b: int| 0 <= a < b < r@.len() implies r@[a] != r@[b] by {
                if b < p {
                } else if b == p {
                    assert(r@[a] == old_r[a]);
                } else if a == p {
                    assert(r@[b] == old_r[b - 1]);
                } else if a < p {
                    assert(r@[b] == old_r[b - 1]);
                } else {
                    assert(r@[a] == old_r[a - 1]);
                    assert(r@[b] == old_r[b - 1]);
                }
            }
            assert forall|j: usize| j < i + 1 implies #[trigger] r@.contains(j) by {
                if j < i {
                    assert(old_r.contains(j));
                    let k = choose|k: int| 0 <= k < old_r.len() && old_r[k] == j;
                    if k < p {
                        assert(r@[k] == j);
                    } else {
                        assert(r@[k + 1] == j);
                    }
                } else {
                    assert(r@[p as int] == i);
                }
            }
            assert forall|k: int| 0 <= k < r@.len() implies (#[trigger] r@[k]) < i + 1 by {
                if k < p {
                } else if k > p {
                    assert(r@[k] == old_r[k - 1]);
                }
            }
        }
        i = i + 1;
    }
    r
}

/// The routes served to administrators, below their mount point.
pub fn routes() -> (r: Vec<Route>)
    ensures
        r@.len() == 6,
        r@[0].method == Method::Get && r@[0].path@ == "/me"@,
        r@[1].method == Method::Post && r@[1].path@ == "/login"@,
        r@[2].method == Method::Get && r@[2].path@ == "/events"@,
        r@[3].method == Method::Post && r@[3].path@ == "/events"@,
        r@[4].method == Method::Get && r@[4].path@ == "/orders"@,
        r@[5].method == Method::Post && r@[5].path@ == "/orders/<id>/send_ticket"@,
{
    let mut r: Vec<Route> = Vec::new();
    r.push(Route { method: Method::Get, path: "/me" });
    r.push(Route { method: Method::Post, path: "/login" });
    r.push(Route { method: Method::Get, path: "/events" });
    r.push(Route { method: Method::Post, path: "/events" });
    r.push(Route { method: Method::Get, path: "/orders" });
    r.push(Route { method: Method::Post, path: "/orders/<id>/send_ticket" });
    r
}

} // verus!
