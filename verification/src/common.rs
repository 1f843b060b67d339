//! Wire-level names shared by every component, and the two authority modes.

use vstd::prelude::*;

verus! {

/// Result format asked of the endpoint, also sent as the content type.
pub const SPARQL_RESULT_CONTENT_TYPE: &'static str = "application/sparql-results+json";

/// Request header that asserts elevated authority.
pub const HEADER_MU_AUTH_SUDO: &'static str = "mu-auth-sudo";

/// Request header that carries the call identifier.
pub const HEADER_MU_CALL_ID: &'static str = "mu-call-id";

/// Request header that carries the session identifier.
pub const HEADER_MU_SESSION_ID: &'static str = "mu-session-id";

/// Name of the environment variable that holds the endpoint URL.
pub const SPARQL_ENDPOINT: &'static str = "SPARQL_ENDPOINT";

/// Response header listing the access-control groups the store allowed.
pub const HEADER_MU_AUTH_ALLOWED_GROUPS: &'static str = "mu-auth-allowed-groups";

/// Response header listing the access-control groups the store used.
pub const HEADER_MU_AUTH_USED_GROUPS: &'static str = "mu-auth-used-groups";

/// Name of the request header that announces the body's media type.
pub const HEADER_CONTENT_TYPE: &'static str = "content-type";

/// The identifiers of an end-user session. Either may be absent.
#[derive(Debug, Default, Clone, PartialEq, Eq)]
pub struct SessionQueryHeaders {
    pub call_id: Option<String>,
    pub session_id: Option<String>,
}

/// On whose authority a request is made.
#[derive(Debug, Clone, PartialEq, Eq)]
pub enum AuthorityContext {
    /// Forward the identity of an end-user session.
    Session(SessionQueryHeaders),
    /// Bypass authorization at the store.
    Sudo,
}

/// The text of an optional string, the empty text where it is absent.
pub open spec fn text_or_empty(s: Option<String>) -> Seq<char> {
    match s {
        Some(t) => t@,
        None => Seq::empty(),
    }
}

} // verus!
