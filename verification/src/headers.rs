//! The authorization-decision headers of a response.

use vstd::prelude::*;
use vstd::string::*;
use crate::common::{HEADER_MU_AUTH_ALLOWED_GROUPS, HEADER_MU_AUTH_USED_GROUPS};
use crate::request::RawResponse;

verus! {

/// The authorization-decision headers of a response, each with its value as
/// it arrived, in the order in which they arrived.
pub type MuResponseHeaders = Vec<(String, Vec<u8>)>;

/// `name` is one of the two authorization-decision headers. Names are
/// compared as they stand.
pub open spec fn is_decision_header(name: Seq<char>) -> bool {
    name == HEADER_MU_AUTH_USED_GROUPS@ || name == HEADER_MU_AUTH_ALLOWED_GROUPS@
}

/// Response headers as mathematical values.
pub open spec fn headers_view(headers: Seq<(String, Vec<u8>)>) -> Seq<(Seq<char>, Seq<u8>)> {
    Seq::new(headers.len(), |i: int| (headers[i].0@, headers[i].1@))
}

/// The test that a header passes where it is an authorization-decision
/// header.
pub open spec fn decision_test() -> spec_fn((Seq<char>, Seq<u8>)) -> bool {
    |h: (Seq<char>, Seq<u8>)| is_decision_header(h.0)
}

/// Those of `headers` that are authorization-decision headers, in order.
pub open spec fn decision_headers(headers: Seq<(Seq<char>, Seq<u8>)>) -> Seq<
    (Seq<char>, Seq<u8>),
> {
    headers.filter(decision_test())
}

/// Copies out of `response` the authorization-decision headers, in the order
/// in which the response holds them, and nothing else.
pub fn extract_mu_headers(response: &RawResponse) -> (found: MuResponseHeaders)
    ensures
        headers_view(found@) == decision_headers(headers_view(response.headers@)),
{
    let used = String::from_str(HEADER_MU_AUTH_USED_GROUPS);
    let allowed = String::from_str(HEADER_MU_AUTH_ALLOWED_GROUPS);
    let mut found: Vec<(String, Vec<u8>)> = Vec::new();
    let n = response.headers.len();
    let mut i: usize = 0;
    proof {
        reveal(Seq::filter);
        assert(headers_view(response.headers@.subrange(0, 0)) =~= Seq::empty());
        assert(headers_view(found@) =~= Seq::empty());
    }
    while i < n
        invariant
            i <= n,
            n == response.headers@.len(),
            used@ == HEADER_MU_AUTH_USED_GROUPS@,
            allowed@ == HEADER_MU_AUTH_ALLOWED_GROUPS@,
            headers_view(found@) == decision_headers(
                headers_view(response.headers@.subrange(0, i as int)),
            ),
        decreases n - i,
    {
        let ghost before = headers_view(response.headers@.subrange(0, i as int));
        let ghost after = headers_view(response.headers@.subrange(0, i + 1));
        let ghost kept = headers_view(found@);
        proof {
            reveal(Seq::filter);
            assert(after.drop_last() =~= before);
            assert(after.last() == (
                response.headers@[i as int].0@,
                response.headers@[i as int].1@,
            ));
        }
        let header = &response.headers[i];
        if header.0 == used || header.0 == allowed {
            let name = header.0.clone();
            let value = header.1.clone();
            assert(value@ =~= header.1@);
            found.push((name, value));
            assert(headers_view(found@) =~= kept.push(after.last()));
        }
        i = i + 1;
    }
    assert(response.headers@.subrange(0, n as int) == response.headers@);
    found
}

/// Extraction is an allow-list: every header that it gives is an
/// authorization-decision header of the response, and every
/// authorization-decision header of the response is among those it gives.
pub proof fn lemma_extraction_is_allow_list(headers: Seq<(Seq<char>, Seq<u8>)>)
    ensures
        forall|i: int|
            0 <= i < decision_headers(headers).len() ==> is_decision_header(
                (#[trigger] decision_headers(headers)[i]).0,
            ) && headers.contains(decision_headers(headers)[i]),
        forall|i: int|
            0 <= i < headers.len() && is_decision_header(headers[i].0) ==> decision_headers(
                headers,
            ).contains(#[trigger] headers[i]),
        decision_headers(headers).len() <= headers.len(),
{
    let found = decision_headers(headers);
    headers.lemma_filter_len(decision_test());
    assert forall|i: int| 0 <= i < found.len() implies is_decision_header((#[trigger] found[i]).0)
        && headers.contains(found[i]) by {
        headers.lemma_filter_pred(decision_test(), i);
        assert(found.contains(found[i]));
        headers.lemma_filter_contains_rev(decision_test(), found[i]);
    }
    assert forall|i: int|
        0 <= i < headers.len() && is_decision_header(headers[i].0) implies found.contains(
        #[trigger] headers[i],
    ) by {
        headers.lemma_filter_contains(decision_test(), i);
    }
}

} // verus!
