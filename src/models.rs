pub mod admin;
pub mod event;
pub mod order;
