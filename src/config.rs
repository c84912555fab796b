//! Settings of the service.
use vstd::prelude::*;

verus! {

/// Connection strings and credentials the service runs with.
#[derive(Debug, Clone)]
pub struct Config {
    pub mongodb_uri: String,
    pub jwt_secret: String,
    pub admin_email: String,
    pub admin_password: String,
    pub midtrans_server_key: String,
    pub midtrans_client_key: String,
    pub resend_api_key: String,
    pub resend_from_email: String,
}

} // verus!
