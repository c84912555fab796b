//! Administrator accounts.
use vstd::prelude::*;

verus! {

/// An administrator account as kept in the store.
pub struct Admin {
    /// Twelve-byte document identifier, absent before the account is stored.
    pub id: Option<Vec<u8>>,
    pub email: String,
    pub password_hash: String,
    /// Creation time, in milliseconds since the Unix epoch.
    pub created_at: i64,
}

} // verus!
