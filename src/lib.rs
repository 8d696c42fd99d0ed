//! Interception-and-rewrite engine of a local HTTP(S) debugging proxy.
//!
//! The library holds the verified logic: the rewrite rule engine, the header
//! model it edits, the correlation of responses with captured requests, the
//! decision between reusing and generating the root authority, and the rule
//! that one proxy instance runs at a time. Network, storage and the TLS
//! transport are driven from outside.
pub mod certs;
pub mod client;
pub mod control;
pub mod exchange;
pub mod external;
pub mod headers;
pub mod rules;

pub use certs::{AuthorityError, AuthorityPlan, CaManager};
pub use client::{ClientRequest, ClientResponse};
pub use control::{ControlError, ProxyControl};
pub use exchange::{
    CapturedRequest, CapturedResponse, ExchangeRecord, InterceptedRequest, InterceptedResponse,
    ProxyEventPayload, ProxyHandler, ResponseUpdate,
};
pub use headers::Headers;
pub use rules::{RewriteManager, RewriteRule};
