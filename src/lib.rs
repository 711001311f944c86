//! Decisions of a dynamic-DNS update client: which names to update, which
//! record to send for each, how the TSIG secret is loaded, and how a batch of
//! names moves through its delete and insert requests.

pub mod record;
pub mod credential;
pub mod config;
pub mod session;
pub mod plan;
