//! Plain data of the outbound test-request helper, which the application
//! performs over the network.
use vstd::prelude::*;
use std::collections::HashMap;

verus! {

/// A request to send: method, URL, header fields and an optional text body.
#[derive(Debug)]
pub struct ClientRequest {
    pub method: String,
    pub url: String,
    pub headers: HashMap<String, String>,
    pub body: Option<String>,
}

/// What came back, with the time it took.
#[derive(Debug)]
pub struct ClientResponse {
    pub status: u16,
    pub headers: HashMap<String, String>,
    pub body: String,
    pub duration_ms: u64,
}

} // verus!
