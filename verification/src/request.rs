//! Planning of the one HTTP request that carries a query or an update, and
//! the judgement of what came back for it.

use vstd::prelude::*;
use vstd::string::*;
use crate::config::Timeout;
use crate::common::{
    text_or_empty, AuthorityContext, HEADER_CONTENT_TYPE, HEADER_MU_AUTH_SUDO, HEADER_MU_CALL_ID,
    HEADER_MU_SESSION_ID, SPARQL_RESULT_CONTENT_TYPE,
};

verus! {

/// A request, ready to be sent with the POST method.
#[derive(Debug, Clone, PartialEq, Eq)]
pub struct RequestPlan {
    /// Where to send it.
    pub url: String,
    /// The query-string parameters, in order.
    pub params: Vec<(String, String)>,
    /// The request headers, in order.
    pub headers: Vec<(String, String)>,
    /// How long to wait for the response.
    pub timeout: Timeout,
}

/// What the transport hands back for a request that got an answer.
#[derive(Debug, Clone, PartialEq, Eq)]
pub struct RawResponse {
    /// The HTTP status code.
    pub status: u16,
    /// The response headers, in the order in which they arrived.
    pub headers: Vec<(String, Vec<u8>)>,
    /// The body, undecoded.
    pub body: Vec<u8>,
}

/// Why a request brought no usable response.
#[derive(Debug, Clone, PartialEq, Eq)]
pub enum ExecError {
    /// The transport failed: no connection, or no answer in time.
    Transport(String),
    /// The endpoint answered with a status other than success.
    RemoteRejected(u16),
}

/// Name and value pairs as mathematical values.
pub open spec fn pairs_view(pairs: Seq<(String, String)>) -> Seq<(Seq<char>, Seq<char>)> {
    Seq::new(pairs.len(), |i: int| (pairs[i].0@, pairs[i].1@))
}

/// The query-string parameters that carry the query text `query`.
pub open spec fn request_params(query: Seq<char>) -> Seq<(Seq<char>, Seq<char>)> {
    seq![("query"@, query), ("format"@, SPARQL_RESULT_CONTENT_TYPE@)]
}

/// The headers of a request made on the authority `authority`.
pub open spec fn request_headers(authority: AuthorityContext) -> Seq<(Seq<char>, Seq<char>)> {
    match authority {
        AuthorityContext::Session(session) => seq![
            (HEADER_CONTENT_TYPE@, SPARQL_RESULT_CONTENT_TYPE@),
            (HEADER_MU_SESSION_ID@, text_or_empty(session.session_id)),
            (HEADER_MU_CALL_ID@, text_or_empty(session.call_id)),
        ],
        AuthorityContext::Sudo => seq![
            (HEADER_CONTENT_TYPE@, SPARQL_RESULT_CONTENT_TYPE@),
            (HEADER_MU_AUTH_SUDO@, "true"@),
        ],
    }
}

/// Some header of `headers` is named `name`.
pub open spec fn has_header(headers: Seq<(Seq<char>, Seq<char>)>, name: Seq<char>) -> bool {
    exists|i: int| 0 <= i < headers.len() && #[trigger] headers[i].0 == name
}

/// `status` is a success status.
pub open spec fn is_success(status: u16) -> bool {
    200 <= status <= 299
}

/// The text of `s`, or the empty text where there is none.
fn owned_or_empty(s: Option<String>) -> (text: String)
    ensures
        text@ == text_or_empty(s),
{
    match s {
        Some(t) => t,
        None => String::new(),
    }
}

/// Plans the request that sends `query` to `endpoint` on the authority
/// `authority`, to be answered within `timeout`: the query text and the
/// result format as parameters, the content type, and either the two
/// identity headers of a session or the one header that asserts elevated
/// authority.
pub fn plan_request(
    endpoint: &str,
    timeout: Timeout,
    query: String,
    authority: AuthorityContext,
) -> (plan: RequestPlan)
    ensures
        plan.url@ == endpoint@,
        plan.timeout == timeout,
        pairs_view(plan.params@) == request_params(query@),
        pairs_view(plan.headers@) == request_headers(authority),
{
    let mut params: Vec<(String, String)> = Vec::new();
    params.push((String::from_str("query"), query));
    params.push((String::from_str("format"), String::from_str(SPARQL_RESULT_CONTENT_TYPE)));
    let mut headers: Vec<(String, String)> = Vec::new();
    headers.push(
        (String::from_str(HEADER_CONTENT_TYPE), String::from_str(SPARQL_RESULT_CONTENT_TYPE)),
    );
    match authority {
        AuthorityContext::Session(session) => {
            headers.push(
                (String::from_str(HEADER_MU_SESSION_ID), owned_or_empty(session.session_id)),
            );
            headers.push((String::from_str(HEADER_MU_CALL_ID), owned_or_empty(session.call_id)));
        },
        AuthorityContext::Sudo => {
            headers.push((String::from_str(HEADER_MU_AUTH_SUDO), String::from_str("true")));
        },
    }
    assert(pairs_view(params@) =~= request_params(query@));
    assert(pairs_view(headers@) =~= request_headers(authority));
    RequestPlan { url: String::from_str(endpoint), params, headers, timeout }
}

/// Judges what the transport brought for a request: a failure of the
/// transport and a status other than success are errors, and only a
/// response with a success status is handed on, unchanged.
pub fn settle(outcome: Result<RawResponse, String>) -> (r: Result<RawResponse, ExecError>)
    ensures
        match outcome {
            Err(reason) => r == Err::<RawResponse, ExecError>(ExecError::Transport(reason)),
            Ok(response) => if is_success(response.status) {
                r == Ok::<RawResponse, ExecError>(response)
            } else {
                r == Err::<RawResponse, ExecError>(ExecError::RemoteRejected(response.status))
            },
        },
{
    match outcome {
        Err(reason) => Err(ExecError::Transport(reason)),
        Ok(response) => {
            if 200 <= response.status && response.status <= 299 {
                Ok(response)
            } else {
                Err(ExecError::RemoteRejected(response.status))
            }
        },
    }
}

/// A request carries the identity headers of a session or the header that
/// asserts elevated authority, never both and never neither; the two
/// identity headers come together.
pub proof fn lemma_authority_exclusive(authority: AuthorityContext)
    ensures
        has_header(request_headers(authority), HEADER_MU_CALL_ID@) == (authority
            is Session),
        has_header(request_headers(authority), HEADER_MU_SESSION_ID@) == (authority
            is Session),
        has_header(request_headers(authority), HEADER_MU_AUTH_SUDO@) == (authority is Sudo),
        has_header(request_headers(authority), HEADER_MU_CALL_ID@) != has_header(
            request_headers(authority),
            HEADER_MU_AUTH_SUDO@,
        ),
{
    reveal_strlit("content-type");
    reveal_strlit("mu-auth-sudo");
    reveal_strlit("mu-call-id");
    reveal_strlit("mu-session-id");
    let hs = request_headers(authority);
    assert(HEADER_CONTENT_TYPE@.len() == 12);
    assert(HEADER_MU_AUTH_SUDO@.len() == 12);
    assert(HEADER_MU_CALL_ID@.len() == 10);
    assert(HEADER_MU_SESSION_ID@.len() == 13);
    assert(HEADER_CONTENT_TYPE@[0] == 'c');
    assert(HEADER_MU_AUTH_SUDO@[0] == 'm');
    match authority {
        AuthorityContext::Session(session) => {
            assert(hs[1].0 == HEADER_MU_SESSION_ID@);
            assert(hs[2].0 == HEADER_MU_CALL_ID@);
        },
        AuthorityContext::Sudo => {
            assert(hs[1].0 == HEADER_MU_AUTH_SUDO@);
        },
    }
}

} // verus!
