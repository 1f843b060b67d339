//! The results envelope that the endpoint answers a query with.

use vstd::prelude::*;
use std::collections::BTreeMap;

verus! {

/// What a query came back with: the head, and either the rows of a SELECT
/// or the truth value of an ASK.
#[derive(Debug, Clone, PartialEq, Eq)]
pub struct SparqlResponse {
    pub head: Head,
    pub results: Option<SparqlResult>,
    pub boolean: Option<bool>,
}

/// The head of an envelope.
#[derive(Debug, Clone, PartialEq, Eq)]
pub struct Head {
    pub link: Option<Vec<String>>,
    pub vars: Option<Vec<String>>,
}

/// The rows of a SELECT: each maps variable names to what they are bound to.
#[derive(Debug, Clone, PartialEq, Eq)]
pub struct SparqlResult {
    pub distinct: Option<bool>,
    pub bindings: Vec<BTreeMap<String, Binding>>,
}

/// What one variable is bound to in one row.
#[derive(Debug, Clone, PartialEq, Eq)]
pub struct Binding {
    pub datatype: Option<String>,
    pub rdf_type: String,
    pub value: String,
    pub lang: Option<String>,
}

/// Which of the two kinds of query an envelope answers.
#[derive(Debug, Clone, Copy, PartialEq, Eq, Structural)]
pub enum EnvelopeKind {
    /// Rows and no truth value.
    Select,
    /// A truth value and no rows.
    Ask,
}

impl SparqlResponse {
    /// The kind of query that this envelope answers, where it is the
    /// envelope of one.
    pub open spec fn kind_spec(&self) -> Option<EnvelopeKind> {
        if self.results is Some && self.boolean is None {
            Some(EnvelopeKind::Select)
        } else if self.results is None && self.boolean is Some {
            Some(EnvelopeKind::Ask)
        } else {
            None
        }
    }

    /// The kind of query that this envelope answers: SELECT where it holds
    /// rows and no truth value, ASK where it holds a truth value and no
    /// rows, and none where it holds both or neither.
    pub fn kind(&self) -> (k: Option<EnvelopeKind>)
        ensures
            k == self.kind_spec(),
    {
        if self.results.is_some() && self.boolean.is_none() {
            Some(EnvelopeKind::Select)
        } else if self.results.is_none() && self.boolean.is_some() {
            Some(EnvelopeKind::Ask)
        } else {
            None
        }
    }
}

} // verus!
