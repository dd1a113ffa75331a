//! Subgraph dispatch for a federated GraphQL router: the redirect policy and
//! the retry/redirect state machine of remote fetches, the readiness-gated
//! dispatch step, header propagation and the subgraph registry check.

pub mod dispatch;
pub mod fetch;
pub mod fetch_lemmas;
pub mod headers;
pub mod redirect;
pub mod registry;
pub mod remote;
