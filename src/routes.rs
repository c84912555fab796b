use vstd::prelude::*;

pub mod admin;
pub mod public;

verus! {

/// HTTP method of a route.
#[derive(Debug, Clone, Copy, PartialEq, Eq, Structural)]
pub enum Method {
    Get,
    Post,
}

/// One entry of a routing table: a method and a path below the mount point.
pub struct Route {
    pub method: Method,
    pub path: &'static str,
}

} // verus!
