//! The client: built once from its configuration, then used to compile
//! templates into queries, to plan their requests and to read the responses.

use vstd::prelude::*;
use vstd::string::*;
use crate::common::{AuthorityContext, SessionQueryHeaders};
use crate::config::{
    parse_seconds, resolved_endpoint, resolved_timeout, Config, ConfigError, ProcessDefaults,
    Timeout, DEFAULT_ENDPOINT, DEFAULT_TIMEOUT_SECONDS,
};
use crate::headers::{decision_headers, extract_mu_headers, headers_view, MuResponseHeaders};
use crate::request::{
    is_success, pairs_view, plan_request, request_headers, request_params, settle, ExecError,
    RawResponse, RequestPlan,
};
use crate::template::{render, render_spec, RenderContext, RenderError, Rendering};

verus! {

/// A parsed SPARQL query, as `spargebra` holds it.
#[verifier::external_type_specification]
#[verifier::external_body]
pub struct ExQuery(spargebra::Query);

/// A parsed SPARQL update, as `spargebra` holds it.
#[verifier::external_type_specification]
#[verifier::external_body]
pub struct ExUpdate(spargebra::Update);

/// The error with which `spargebra` refuses a text.
#[verifier::external_type_specification]
#[verifier::external_body]
pub struct ExParseError(spargebra::ParseError);

/// Whether `spargebra` takes `text` for a SPARQL query.
pub uninterp spec fn is_sparql_query(text: Seq<char>) -> bool;

/// Whether `spargebra` takes `text` for a SPARQL update.
pub uninterp spec fn is_sparql_update(text: Seq<char>) -> bool;

/// Parses `text` as a SPARQL query, with no base IRI.
///
/// Calls `spargebra::Query::parse`. The contract claims only that whether
/// the parser accepts a text depends on the text alone.
#[verifier::external_body]
fn parse_query(text: &str) -> (r: Result<spargebra::Query, spargebra::ParseError>)
    ensures
        r is Ok == is_sparql_query(text@),
{
    spargebra::Query::parse(text, None)
}

/// Parses `text` as a SPARQL update, with no base IRI.
///
/// Calls `spargebra::Update::parse`. The contract claims only that whether
/// the parser accepts a text depends on the text alone.
#[verifier::external_body]
fn parse_update(text: &str) -> (r: Result<spargebra::Update, spargebra::ParseError>)
    ensures
        r is Ok == is_sparql_update(text@),
{
    spargebra::Update::parse(text, None)
}

/// Why a template gave no query.
#[derive(Debug)]
pub enum CompileError {
    /// The template could not be rendered.
    Render(RenderError),
    /// The rendered text is not what the parser accepts; holds its error.
    Parse(spargebra::ParseError),
}

/// What compiling a template came to, given what rendering gave and
/// whether the parser accepted the rendered text.
pub open spec fn compiled_as<Q>(
    r: Result<Q, CompileError>,
    rendering: Rendering,
    accepts: spec_fn(Seq<char>) -> bool,
) -> bool {
    match rendering {
        Rendering::Missing(name) => r matches Err(
            CompileError::Render(RenderError::MissingVariable(n)),
        ) && n@ == name,
        Rendering::Text(text) => match r {
            Ok(_) => accepts(text),
            Err(e) => e is Parse && !accepts(text),
        },
    }
}

/// Hands on what the parser gave: the query as it is, its error wrapped.
pub fn parsed<Q>(outcome: Result<Q, spargebra::ParseError>) -> (r: Result<Q, CompileError>)
    ensures
        match outcome {
            Ok(query) => r == Ok::<Q, CompileError>(query),
            Err(e) => r == Err::<Q, CompileError>(CompileError::Parse(e)),
        },
{
    match outcome {
        Ok(query) => Ok(query),
        Err(e) => Err(CompileError::Parse(e)),
    }
}

/// A client of one SPARQL endpoint. Nothing in it changes once it is built.
#[derive(Debug, Clone)]
pub struct SparqlClient {
    endpoint: String,
    timeout: Timeout,
}

impl SparqlClient {
    /// The endpoint that requests go to.
    pub closed spec fn endpoint_view(&self) -> Seq<char> {
        self.endpoint@
    }

    /// How long a request may take.
    pub closed spec fn timeout_view(&self) -> Timeout {
        self.timeout
    }

    /// Builds a client. What `config` leaves out is taken from `defaults`,
    /// and what both leave out is the built-in endpoint and a timeout of
    /// sixty seconds. Fails where the timeout has to come from `defaults`
    /// and its text there is no number of seconds.
    pub fn new(config: Config, defaults: ProcessDefaults) -> (r: Result<SparqlClient, ConfigError>)
        ensures
            match resolved_timeout(config, defaults) {
                Some(timeout) => r matches Ok(client) && client.endpoint_view()
                    == resolved_endpoint(config, defaults) && client.timeout_view() == timeout,
                None => r matches Err(ConfigError::InvalidTimeout(text)) && Some(text)
                    == defaults.timeout_seconds,
            },
    {
        let endpoint = match config.endpoint {
            Some(endpoint) => endpoint,
            None => match defaults.endpoint {
                Some(endpoint) => endpoint,
                None => String::from_str(DEFAULT_ENDPOINT),
            },
        };
        let timeout = match config.timeout {
            Some(timeout) => timeout,
            None => match defaults.timeout_seconds {
                Some(text) => match parse_seconds(text.as_str()) {
                    Some(secs) => Timeout { secs, nanos: 0 },
                    None => {
                        return Err(ConfigError::InvalidTimeout(text));
                    },
                },
                None => Timeout { secs: DEFAULT_TIMEOUT_SECONDS, nanos: 0 },
            },
        };
        Ok(SparqlClient { endpoint, timeout })
    }

    /// The endpoint that requests go to.
    pub fn endpoint(&self) -> (e: &str)
        ensures
            e@ == self.endpoint_view(),
    {
        self.endpoint.as_str()
    }

    /// How long a request may take.
    pub fn timeout(&self) -> (t: Timeout)
        ensures
            t == self.timeout_view(),
    {
        self.timeout
    }

    /// Renders `templ` under `context` and parses the text as an update.
    /// Fails where a placeholder has no value, and where the parser refuses
    /// the rendered text.
    pub fn make_update_query_from_template(&self, templ: &str, context: &RenderContext) -> (r:
        Result<spargebra::Update, CompileError>)
        ensures
            compiled_as(r, render_spec(templ@, context@), |text: Seq<char>| is_sparql_update(text)),
    {
        match render(templ, context) {
            Ok(text) => parsed(parse_update(text.as_str())),
            Err(e) => Err(CompileError::Render(e)),
        }
    }

    /// Renders `templ` under `context` and parses the text as a query.
    /// Fails where a placeholder has no value, and where the parser refuses
    /// the rendered text.
    pub fn make_query_from_template(&self, templ: &str, context: &RenderContext) -> (r: Result<
        spargebra::Query,
        CompileError,
    >)
        ensures
            compiled_as(r, render_spec(templ@, context@), |text: Seq<char>| is_sparql_query(text)),
    {
        match render(templ, context) {
            Ok(text) => parsed(parse_query(text.as_str())),
            Err(e) => Err(CompileError::Render(e)),
        }
    }

    /// The request for the query or update whose text is `text`, made on
    /// the authority `authority`.
    pub fn execute(&self, text: String, authority: AuthorityContext) -> (plan: RequestPlan)
        ensures
            plan.url@ == self.endpoint_view(),
            plan.timeout == self.timeout_view(),
            pairs_view(plan.params@) == request_params(text@),
            pairs_view(plan.headers@) == request_headers(authority),
    {
        plan_request(self.endpoint.as_str(), self.timeout, text, authority)
    }

    /// The request that sends the update `query` for the session `headers`:
    /// its parameters carry the update's text, as its `Display` writes it.
    pub fn update(&self, query: &spargebra::Update, headers: SessionQueryHeaders) -> (plan: RequestPlan)
        ensures
            plan.url@ == self.endpoint_view(),
            plan.timeout == self.timeout_view(),
            exists|text: String| #[trigger]
                to_string_from_display_ensures(query, text) && pairs_view(plan.params@)
                    == request_params(text@),
            pairs_view(plan.headers@) == request_headers(AuthorityContext::Session(headers)),
    {
        let text = query.to_string();
        assert(to_string_from_display_ensures(query, text));
        self.execute(text, AuthorityContext::Session(headers))
    }

    /// The request that sends `query` for the session `headers`: its
    /// parameters carry the query's text, as its `Display` writes it.
    pub fn query(&self, query: &spargebra::Query, headers: SessionQueryHeaders) -> (plan: RequestPlan)
        ensures
            plan.url@ == self.endpoint_view(),
            plan.timeout == self.timeout_view(),
            exists|text: String| #[trigger]
                to_string_from_display_ensures(query, text) && pairs_view(plan.params@)
                    == request_params(text@),
            pairs_view(plan.headers@) == request_headers(AuthorityContext::Session(headers)),
    {
        let text = query.to_string();
        assert(to_string_from_display_ensures(query, text));
        self.execute(text, AuthorityContext::Session(headers))
    }

    /// The request that sends the update `query` with elevated authority.
    pub fn update_sudo(&self, query: &spargebra::Update) -> (plan: RequestPlan)
        ensures
            plan.url@ == self.endpoint_view(),
            plan.timeout == self.timeout_view(),
            exists|text: String| #[trigger]
                to_string_from_display_ensures(query, text) && pairs_view(plan.params@)
                    == request_params(text@),
            pairs_view(plan.headers@) == request_headers(AuthorityContext::Sudo),
    {
        let text = query.to_string();
        assert(to_string_from_display_ensures(query, text));
        self.execute(text, AuthorityContext::Sudo)
    }

    /// The request that sends `query` with elevated authority.
    pub fn query_sudo(&self, query: &spargebra::Query) -> (plan: RequestPlan)
        ensures
            plan.url@ == self.endpoint_view(),
            plan.timeout == self.timeout_view(),
            exists|text: String| #[trigger]
                to_string_from_display_ensures(query, text) && pairs_view(plan.params@)
                    == request_params(text@),
            pairs_view(plan.headers@) == request_headers(AuthorityContext::Sudo),
    {
        let text = query.to_string();
        assert(to_string_from_display_ensures(query, text));
        self.execute(text, AuthorityContext::Sudo)
    }

    /// The first half of a query made from a template: renders `templ`
    /// under `context`, parses the text as a query and plans its request on
    /// the authority `authority`. No request is planned for a template that
    /// does not render or a text that does not parse.
    pub fn plan_query(
        &self,
        templ: &str,
        context: &RenderContext,
        authority: AuthorityContext,
    ) -> (r: Result<RequestPlan, CompileError>)
        ensures
            compiled_as(r, render_spec(templ@, context@), |text: Seq<char>| is_sparql_query(text)),
            r matches Ok(plan) ==> {
                &&& plan.url@ == self.endpoint_view()
                &&& plan.timeout == self.timeout_view()
                &&& exists|text: Seq<char>| pairs_view(plan.params@) == request_params(text)
                &&& pairs_view(plan.headers@) == request_headers(authority)
            },
    {
        match self.make_query_from_template(templ, context) {
            Ok(query) => Ok(self.execute(query.to_string(), authority)),
            Err(e) => Err(e),
        }
    }

    /// The first half of an update made from a template: renders `templ`
    /// under `context`, parses the text as an update and plans its request
    /// on the authority `authority`. No request is planned for a template
    /// that does not render or a text that does not parse.
    pub fn plan_update(
        &self,
        templ: &str,
        context: &RenderContext,
        authority: AuthorityContext,
    ) -> (r: Result<RequestPlan, CompileError>)
        ensures
            compiled_as(r, render_spec(templ@, context@), |text: Seq<char>| is_sparql_update(text)),
            r matches Ok(plan) ==> {
                &&& plan.url@ == self.endpoint_view()
                &&& plan.timeout == self.timeout_view()
                &&& exists|text: Seq<char>| pairs_view(plan.params@) == request_params(text)
                &&& pairs_view(plan.headers@) == request_headers(authority)
            },
    {
        match self.make_update_query_from_template(templ, context) {
            Ok(update) => Ok(self.execute(update.to_string(), authority)),
            Err(e) => Err(e),
        }
    }

    /// Reads what came back for an update: the authorization-decision
    /// headers of a response with a success status. A failure of the
    /// transport and any other status are errors, and then no header is
    /// looked at.
    pub fn finish_update(&self, outcome: Result<RawResponse, String>) -> (r: Result<
        MuResponseHeaders,
        ExecError,
    >)
        ensures
            match outcome {
                Err(reason) => r == Err::<MuResponseHeaders, ExecError>(
                    ExecError::Transport(reason),
                ),
                Ok(response) => if is_success(response.status) {
                    r matches Ok(found) && headers_view(found@) == decision_headers(
                        headers_view(response.headers@),
                    )
                } else {
                    r == Err::<MuResponseHeaders, ExecError>(
                        ExecError::RemoteRejected(response.status),
                    )
                },
            },
    {
        match settle(outcome) {
            Ok(response) => Ok(extract_mu_headers(&response)),
            Err(e) => Err(e),
        }
    }

    /// Reads what came back for a query: the authorization-decision headers
    /// of a response with a success status, and its body, still to be
    /// decoded. A failure of the transport and any other status are errors,
    /// and then neither header nor body is looked at.
    pub fn finish_query(&self, outcome: Result<RawResponse, String>) -> (r: Result<
        (MuResponseHeaders, Vec<u8>),
        ExecError,
    >)
        ensures
            match outcome {
                Err(reason) => r == Err::<(MuResponseHeaders, Vec<u8>), ExecError>(
                    ExecError::Transport(reason),
                ),
                Ok(response) => if is_success(response.status) {
                    r matches Ok(found) && headers_view(found.0@) == decision_headers(
                        headers_view(response.headers@),
                    ) && found.1 == response.body
                } else {
                    r == Err::<(MuResponseHeaders, Vec<u8>), ExecError>(
                        ExecError::RemoteRejected(response.status),
                    )
                },
            },
    {
        match settle(outcome) {
            Ok(response) => {
                let found = extract_mu_headers(&response);
                Ok((found, response.body))
            },
            Err(e) => Err(e),
        }
    }
}

} // verus!
