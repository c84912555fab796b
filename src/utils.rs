pub mod auth;
pub mod midtrans;
pub mod object_id;
pub mod text;
