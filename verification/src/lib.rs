//! Credential lifecycle for an unattended OAuth2 authorization-code login:
//! the credential record and its freshness rule, the authorization URL, the
//! one-shot listener that carries the redirected code, the decoding of token
//! endpoint replies, the stored form of a record, the decisions of one run, and
//! the one action that a run ends with.

pub mod authorize;
pub mod exchange;
pub mod json;
pub mod liking;
pub mod listener;
pub mod pairs;
pub mod record;
pub mod session;
pub mod store;
