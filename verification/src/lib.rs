//! A sans-I/O core for talking to a SPARQL endpoint on behalf of a session or
//! with elevated ("sudo") authority: template rendering, request planning,
//! and the handling of what the endpoint answers.
//!
//! The library never touches the network. It says which request to send and
//! what a response means; the caller sends and receives.

pub mod client;
pub mod common;
pub mod config;
pub mod headers;
pub mod ids;
pub mod request;
pub mod response;
pub mod session;
pub mod template;
mod text;

pub use client::{CompileError, SparqlClient};
pub use common::{
    AuthorityContext, SessionQueryHeaders, HEADER_CONTENT_TYPE, HEADER_MU_AUTH_ALLOWED_GROUPS,
    HEADER_MU_AUTH_SUDO, HEADER_MU_AUTH_USED_GROUPS, HEADER_MU_CALL_ID, HEADER_MU_SESSION_ID,
    SPARQL_ENDPOINT, SPARQL_RESULT_CONTENT_TYPE,
};
pub use config::{
    parse_seconds, Config, ConfigError, ProcessDefaults, Timeout, DEFAULT_ENDPOINT,
    DEFAULT_TIMEOUT_SECONDS, REQUEST_TIMEOUT_SECONDS,
};
pub use headers::{extract_mu_headers, MuResponseHeaders};
pub use ids::IdGenerator;
pub use request::{plan_request, settle, ExecError, RawResponse, RequestPlan};
pub use response::{Binding, EnvelopeKind, Head, SparqlResponse, SparqlResult};
pub use session::{blank, identifier, ExtractSession};
pub use template::{render, RenderContext, RenderError};
