use spargebra::algebra::GraphPattern;
use spargebra::term::{
    GraphNamePattern, GroundQuadPattern, GroundTermPattern, Literal, NamedNode, NamedNodePattern,
    TermPattern, TriplePattern, Variable,
};
use spargebra::{GraphUpdateOperation, Query, Update};
use sparql_client::{
    Binding, CompileError, Config, EnvelopeKind, ExecError, Head, ProcessDefaults, RawResponse,
    RenderContext, RenderError, SessionQueryHeaders, SparqlClient, SparqlResponse, SparqlResult,
};

fn client() -> SparqlClient {
    SparqlClient::new(Config::default(), ProcessDefaults::default()).unwrap()
}

fn context(pairs: &[(&str, &str)]) -> RenderContext {
    let mut ctx = RenderContext::new();
    for (name, value) in pairs {
        ctx.insert(name, value.to_string());
    }
    ctx
}

fn pair(name: &str, value: &str) -> (String, String) {
    (name.to_string(), value.to_string())
}

fn header(name: &str, value: &str) -> (String, Vec<u8>) {
    (name.to_string(), value.as_bytes().to_vec())
}

#[test]
fn test_select_query() {
    let client = client();
    let query = client
        .make_query_from_template(
            "SELECT ?o ?p WHERE {\n  <${bestuurUri}> ?p ?o .\n}\n",
            &context(&[("bestuurUri", "http://xxx.com/bestuur/x")]),
        )
        .unwrap();

    assert_eq!(
        query,
        Query::Select {
            dataset: None,
            base_iri: None,
            pattern: GraphPattern::Project {
                inner: Box::new(GraphPattern::Bgp {
                    patterns: vec![TriplePattern {
                        subject: TermPattern::NamedNode(
                            NamedNode::new("http://xxx.com/bestuur/x").unwrap()
                        ),
                        predicate: NamedNodePattern::Variable(Variable::new("p").unwrap()),
                        object: TermPattern::Variable(Variable::new("o").unwrap()),
                    }]
                }),
                variables: vec![Variable::new("o").unwrap(), Variable::new("p").unwrap()]
            }
        }
    );

    let update_query = client
        .make_update_query_from_template(
            "DELETE {\n  GRAPH <${someGraph}> {\n    <${someUri}> <http://some-predicate/pred> \"${someValue}\" .\n  }\n}\nWHERE {\n  GRAPH <${someGraph}> {\n    <${someUri}> <http://some-predicate/pred> \"${someValue}\" .\n  }\n}\n",
            &context(&[
                ("someGraph", "http://mygraph.com/public"),
                ("someValue", "Hello"),
                ("someUri", "http://xxx.com/x"),
            ]),
        )
        .unwrap();

    assert_eq!(
        update_query,
        Update {
            base_iri: None,
            operations: vec![GraphUpdateOperation::DeleteInsert {
                delete: vec![GroundQuadPattern {
                    subject: GroundTermPattern::NamedNode(
                        NamedNode::new("http://xxx.com/x").unwrap()
                    ),
                    predicate: NamedNodePattern::NamedNode(
                        NamedNode::new("http://some-predicate/pred").unwrap()
                    ),
                    object: GroundTermPattern::Literal(Literal::new_simple_literal("Hello")),
                    graph_name: GraphNamePattern::NamedNode(
                        NamedNode::new("http://mygraph.com/public").unwrap()
                    ),
                }],
                insert: vec![],
                using: None,
                pattern: Box::new(GraphPattern::Graph {
                    name: NamedNodePattern::NamedNode(
                        NamedNode::new("http://mygraph.com/public").unwrap()
                    ),
                    inner: Box::new(GraphPattern::Bgp {
                        patterns: vec![TriplePattern {
                            subject: TermPattern::NamedNode(
                                NamedNode::new("http://xxx.com/x").unwrap()
                            ),
                            predicate: NamedNodePattern::NamedNode(
                                NamedNode::new("http://some-predicate/pred").unwrap()
                            ),
                            object: TermPattern::Literal(Literal::new_simple_literal("Hello")),
                        }],
                    }),
                }),
            }],
        }
    );
}

#[test]
fn select_template_round_trip() {
    let query = client()
        .make_query_from_template(
            "SELECT ?p ?o WHERE { <${uri}> ?p ?o }",
            &context(&[("uri", "http://xxx.com/bestuur/x")]),
        )
        .unwrap();
    match query {
        Query::Select { pattern: GraphPattern::Project { inner, variables }, .. } => {
            let mut names: Vec<String> =
                variables.iter().map(|v| v.as_str().to_string()).collect();
            names.sort();
            assert_eq!(names, vec!["o".to_string(), "p".to_string()]);
            match *inner {
                GraphPattern::Bgp { patterns } => {
                    assert_eq!(patterns.len(), 1);
                    assert_eq!(
                        patterns[0].subject,
                        TermPattern::NamedNode(
                            NamedNode::new("http://xxx.com/bestuur/x").unwrap()
                        )
                    );
                }
                other => panic!("unexpected pattern {other:?}"),
            }
        }
        other => panic!("unexpected query {other:?}"),
    }
}

#[test]
fn compile_fails_on_missing_variable() {
    let r = client().make_query_from_template("SELECT * WHERE { <${x}> ?p ?o }", &context(&[]));
    assert!(matches!(
        r,
        Err(CompileError::Render(RenderError::MissingVariable(ref n))) if n == "x"
    ));
    let u = client().make_update_query_from_template("DELETE WHERE { <${x}> ?p ?o }", &context(&[]));
    assert!(matches!(
        u,
        Err(CompileError::Render(RenderError::MissingVariable(ref n))) if n == "x"
    ));
}

#[test]
fn compile_surfaces_the_parse_error() {
    let ctx = context(&[("x", "not an iri> ?p ?o } garbage {")]);
    let r = client().make_query_from_template("SELECT * WHERE { <${x}> ?p ?o }", &ctx);
    assert!(matches!(r, Err(CompileError::Parse(_))));
    let u = client().make_update_query_from_template("SELECT * WHERE { ?s ?p ?o }", &context(&[]));
    assert!(matches!(u, Err(CompileError::Parse(_))));
    let q = client().make_query_from_template("DELETE WHERE { ?s ?p ?o }", &context(&[]));
    assert!(matches!(q, Err(CompileError::Parse(_))));
}

#[test]
fn query_request_carries_the_query_text() {
    let client = client();
    let query = client
        .make_query_from_template("ASK { <${s}> ?p ?o }", &context(&[("s", "http://s")]))
        .unwrap();
    let session = SessionQueryHeaders { call_id: Some("c".to_string()), session_id: Some("s".to_string()) };
    let plan = client.query(&query, session);
    assert_eq!(plan.url, "http://database:8890/sparql");
    assert_eq!(
        plan.params,
        vec![pair("query", &query.to_string()), pair("format", "application/sparql-results+json")]
    );
    assert!(plan.params[0].1.contains("http://s"));
    assert_eq!(
        plan.headers,
        vec![
            pair("content-type", "application/sparql-results+json"),
            pair("mu-session-id", "s"),
            pair("mu-call-id", "c"),
        ]
    );
    let sudo = client.query_sudo(&query);
    assert_eq!(sudo.params, plan.params);
    assert_eq!(
        sudo.headers,
        vec![pair("content-type", "application/sparql-results+json"), pair("mu-auth-sudo", "true")]
    );
}

#[test]
fn update_request_carries_the_update_text() {
    let client = client();
    let update = client
        .make_update_query_from_template(
            "INSERT DATA { <${s}> <http://p> \"v\" }",
            &context(&[("s", "http://s")]),
        )
        .unwrap();
    let plan = client.update(&update, SessionQueryHeaders::default());
    assert_eq!(
        plan.params,
        vec![pair("query", &update.to_string()), pair("format", "application/sparql-results+json")]
    );
    assert_eq!(
        plan.headers,
        vec![
            pair("content-type", "application/sparql-results+json"),
            pair("mu-session-id", ""),
            pair("mu-call-id", ""),
        ]
    );
    let sudo = client.update_sudo(&update);
    assert_eq!(sudo.params, plan.params);
    assert_eq!(
        sudo.headers,
        vec![pair("content-type", "application/sparql-results+json"), pair("mu-auth-sudo", "true")]
    );
}

#[test]
fn execute_plans_for_either_authority() {
    let client = client();
    let plan = client.execute("ASK {}".to_string(), sparql_client::AuthorityContext::Sudo);
    assert_eq!(plan.url, client.endpoint());
    assert_eq!(plan.timeout, client.timeout());
    assert_eq!(plan.params[0], pair("query", "ASK {}"));
    assert_eq!(plan.headers[1], pair("mu-auth-sudo", "true"));
}

#[test]
fn status_500_short_circuits() {
    let client = client();
    let resp = RawResponse {
        status: 500,
        headers: vec![header("mu-auth-used-groups", "g1")],
        body: b"{\"head\":{}}".to_vec(),
    };
    assert_eq!(client.finish_update(Ok(resp.clone())), Err(ExecError::RemoteRejected(500)));
    assert_eq!(client.finish_query(Ok(resp)), Err(ExecError::RemoteRejected(500)));
}

#[test]
fn finish_hands_out_headers_and_body() {
    let client = client();
    let resp = RawResponse {
        status: 200,
        headers: vec![
            header("mu-auth-used-groups", "g1"),
            header("mu-auth-allowed-groups", "g2"),
            header("x-other", "z"),
        ],
        body: b"{\"head\":{},\"boolean\":true}".to_vec(),
    };
    let expected = vec![header("mu-auth-used-groups", "g1"), header("mu-auth-allowed-groups", "g2")];
    assert_eq!(client.finish_update(Ok(resp.clone())), Ok(expected.clone()));
    assert_eq!(
        client.finish_query(Ok(resp)),
        Ok((expected, b"{\"head\":{},\"boolean\":true}".to_vec()))
    );
}

#[test]
fn finish_reports_transport_failure() {
    let client = client();
    assert_eq!(
        client.finish_update(Err("connection refused".to_string())),
        Err(ExecError::Transport("connection refused".to_string()))
    );
    assert_eq!(
        client.finish_query(Err("connection refused".to_string())),
        Err(ExecError::Transport("connection refused".to_string()))
    );
}

#[test]
fn envelope_kind_tells_select_from_ask() {
    let head = Head { link: None, vars: Some(vec!["s".to_string()]) };
    let mut row = std::collections::BTreeMap::new();
    row.insert(
        "s".to_string(),
        Binding {
            datatype: None,
            rdf_type: "uri".to_string(),
            value: "http://s".to_string(),
            lang: None,
        },
    );
    let rows = SparqlResult { distinct: None, bindings: vec![row] };
    let select = SparqlResponse { head: head.clone(), results: Some(rows.clone()), boolean: None };
    assert_eq!(select.kind(), Some(EnvelopeKind::Select));
    let ask = SparqlResponse { head: head.clone(), results: None, boolean: Some(false) };
    assert_eq!(ask.kind(), Some(EnvelopeKind::Ask));
    let both = SparqlResponse { head: head.clone(), results: Some(rows), boolean: Some(true) };
    assert_eq!(both.kind(), None);
    let neither = SparqlResponse { head, results: None, boolean: None };
    assert_eq!(neither.kind(), None);
}

#[test]
fn plan_from_template_goes_through_every_step() {
    let client = client();
    let ctx = context(&[("s", "http://s")]);
    let session = SessionQueryHeaders { call_id: Some("c1".to_string()), session_id: None };
    let plan = client
        .plan_query(
            "SELECT ?p ?o WHERE { <${s}> ?p ?o }",
            &ctx,
            sparql_client::AuthorityContext::Session(session.clone()),
        )
        .unwrap();
    let query = client.make_query_from_template("SELECT ?p ?o WHERE { <${s}> ?p ?o }", &ctx).unwrap();
    assert_eq!(plan, client.query(&query, session));

    let plan = client
        .plan_update(
            "INSERT DATA { <${s}> <http://p> <http://o> }",
            &ctx,
            sparql_client::AuthorityContext::Sudo,
        )
        .unwrap();
    let update = client
        .make_update_query_from_template("INSERT DATA { <${s}> <http://p> <http://o> }", &ctx)
        .unwrap();
    assert_eq!(plan, client.update_sudo(&update));
}

#[test]
fn plan_from_template_stops_at_the_first_failure() {
    let client = client();
    let none = context(&[]);
    let r = client.plan_query("ASK { <${s}> ?p ?o }", &none, sparql_client::AuthorityContext::Sudo);
    assert!(matches!(
        r,
        Err(CompileError::Render(RenderError::MissingVariable(ref n))) if n == "s"
    ));
    let r = client.plan_update("ASK { ?s ?p ?o }", &none, sparql_client::AuthorityContext::Sudo);
    assert!(matches!(r, Err(CompileError::Parse(_))));
}
