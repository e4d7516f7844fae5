//! The request handler's decision tree: which address a request asks about,
//! and which response each outcome of the balance lookup earns.
//!
//! The lookup itself is the caller's business: [`extract_address`] either
//! answers the request outright or names the address to look up, and
//! [`balance_response`] turns the lookup's outcome into the final response.

use vstd::prelude::*;
use vstd::string::StringExecFns;
use crate::body::{BodyModel, RequestBody, json_member, json_string_member, decode_lossy,
    utf8_lossy};
use crate::query::{first_value, form_pairs, find_first, parse_query_pairs};
use crate::response::{HttpResponse, SpecResponse, error_response, lamports_body,
    spec_error_response, spec_lamports_body};

verus! {

/// What a request needs next: an immediate response, or a balance lookup for
/// the extracted address.
pub enum Step {
    Respond(HttpResponse),
    Lookup(String),
}

/// The mathematical model of a [`Step`].
pub enum SpecStep {
    Respond(SpecResponse),
    Lookup(Seq<char>),
}

impl View for Step {
    type V = SpecStep;

    open spec fn view(&self) -> SpecStep {
        match self {
            Step::Respond(r) => SpecStep::Respond(r@),
            Step::Lookup(a) => SpecStep::Lookup(a@),
        }
    }
}

/// Relies on `<str as PartialEq>::eq`: true exactly when the two strings hold
/// the same characters.
#[verifier::external_body]
pub(crate) fn str_eq(a: &str, b: &str) -> (r: bool)
    ensures
        r == (a@ == b@),
{
    a == b
}

/// The view of an optional borrowed string.
pub open spec fn query_view(query: Option<&str>) -> Option<Seq<char>> {
    match query {
        Some(q) => Some(q@),
        None => None,
    }
}

/// What extraction does with a POST body's text: the request's `address`
/// member, or the invalid-JSON reply.
pub open spec fn spec_post_step(text: Seq<char>) -> SpecStep {
    match json_string_member(text, "address"@) {
        Some(a) => SpecStep::Lookup(a),
        None => SpecStep::Respond(spec_error_response("Invalid JSON"@, 400)),
    }
}

/// What extraction does with a whole request. GET reads the first `address`
/// query parameter; POST reads the JSON body's `address` member, after a
/// lossy UTF-8 decode when the body is raw bytes; every other method is
/// answered 405 with a plain-text body.
pub open spec fn spec_extract(method: Seq<char>, query: Option<Seq<char>>, body: BodyModel) -> SpecStep {
    if method == "GET"@ {
        let q = match query {
            Some(q) => q,
            None => Seq::empty(),
        };
        match first_value(form_pairs(q), "address"@) {
            Some(a) => SpecStep::Lookup(a),
            None => SpecStep::Respond(spec_error_response("Missing address"@, 400)),
        }
    } else if method == "POST"@ {
        match body {
            BodyModel::Empty => SpecStep::Respond(spec_error_response("Empty body"@, 400)),
            BodyModel::Text(t) => spec_post_step(t),
            BodyModel::Binary(b) => spec_post_step(utf8_lossy(b)),
        }
    } else {
        SpecStep::Respond(SpecResponse { status: 405, json: false, body: "Method Not Allowed"@ })
    }
}

/// The response that a lookup outcome earns: the lamports body on success,
/// the generic failure reply otherwise.
pub open spec fn spec_balance_response(lookup: Option<u64>) -> SpecResponse {
    match lookup {
        Some(n) => SpecResponse { status: 200, json: true, body: spec_lamports_body(n) },
        None => spec_error_response("Failed to get balance"@, 500),
    }
}

/// The whole exchange: a request, and the lookup's outcome where one happens.
pub open spec fn spec_handle(
    method: Seq<char>,
    query: Option<Seq<char>>,
    body: BodyModel,
    lookup: Option<u64>,
) -> SpecResponse {
    match spec_extract(method, query, body) {
        SpecStep::Respond(r) => r,
        SpecStep::Lookup(_) => spec_balance_response(lookup),
    }
}

fn post_step(text: &str) -> (r: Step)
    ensures
        r@ == spec_post_step(text@),
{
    match json_member(text, "address") {
        Some(a) => Step::Lookup(a),
        None => Step::Respond(error_response("Invalid JSON", 400)),
    }
}

/// Decides a request: either the response itself, or the address whose
/// balance the caller must look up.
pub fn extract_address(method: &str, query: Option<&str>, body: &RequestBody) -> (r: Step)
    ensures
        r@ == spec_extract(method@, query_view(query), body@),
{
    if str_eq(method, "GET") {
        let q: &str = match query {
            Some(q) => q,
            None => "",
        };
        proof {
            reveal_strlit("");
            assert(""@ =~= Seq::<char>::empty());
        }
        let pairs = parse_query_pairs(q);
        match find_first(&pairs, "address") {
            Some(a) => Step::Lookup(a),
            None => Step::Respond(error_response("Missing address", 400)),
        }
    } else if str_eq(method, "POST") {
        match body {
            RequestBody::Empty => Step::Respond(error_response("Empty body", 400)),
            RequestBody::Text(t) => post_step(t.as_str()),
            RequestBody::Binary(b) => {
                let t = decode_lossy(b);
                post_step(t.as_str())
            },
        }
    } else {
        Step::Respond(
            HttpResponse { status: 405, json: false, body: String::from_str("Method Not Allowed") },
        )
    }
}

/// Builds the final response from the lookup's outcome: 200 with
/// `{"lamports":<n>}` on success, 500 with the generic error otherwise.
pub fn balance_response(lookup: Option<u64>) -> (r: HttpResponse)
    ensures
        r@ == spec_balance_response(lookup),
{
    match lookup {
        Some(n) => HttpResponse { status: 200, json: true, body: lamports_body(n) },
        None => error_response("Failed to get balance", 500),
    }
}

/// Two requests that ask about the same address are answered alike: with any
/// one balance the lookup returns, both get 200 and the same lamports body.
/// In particular a GET query and a POST body naming the same address cannot
/// be told apart from the response.
pub proof fn lemma_same_address_same_response(
    m1: Seq<char>,
    q1: Option<Seq<char>>,
    b1: BodyModel,
    m2: Seq<char>,
    q2: Option<Seq<char>>,
    b2: BodyModel,
    a: Seq<char>,
    n: u64,
)
    requires
        spec_extract(m1, q1, b1) == SpecStep::Lookup(a),
        spec_extract(m2, q2, b2) == SpecStep::Lookup(a),
    ensures
        spec_handle(m1, q1, b1, Some(n)) == spec_handle(m2, q2, b2, Some(n)),
        spec_handle(m1, q1, b1, Some(n)) == (SpecResponse {
            status: 200,
            json: true,
            body: spec_lamports_body(n),
        }),
{
}

/// Handling is deterministic: a repeated request with an unchanged lookup
/// outcome gets the identical response.
pub proof fn lemma_handle_deterministic(
    method: Seq<char>,
    query: Option<Seq<char>>,
    body: BodyModel,
    l1: Option<u64>,
    l2: Option<u64>,
)
    requires
        l1 == l2,
    ensures
        spec_handle(method, query, body, l1) == spec_handle(method, query, body, l2),
{
}

/// A GET whose query names no `address` is answered 400 with the
/// missing-address body, whatever the lookup would have returned.
pub proof fn lemma_missing_address(
    query: Option<Seq<char>>,
    body: BodyModel,
    lookup: Option<u64>,
)
    requires
        first_value(
            form_pairs(
                match query {
                    Some(q) => q,
                    None => Seq::empty(),
                },
            ),
            "address"@,
        ) is None,
    ensures
        spec_handle("GET"@, query, body, lookup) == spec_error_response("Missing address"@, 400),
{
}

/// Any method other than GET and POST is answered 405 with the plain-text
/// body, whatever the query, body and lookup hold.
pub proof fn lemma_method_not_allowed(
    method: Seq<char>,
    query: Option<Seq<char>>,
    body: BodyModel,
    lookup: Option<u64>,
)
    requires
        method != "GET"@,
        method != "POST"@,
    ensures
        spec_handle(method, query, body, lookup) == (SpecResponse {
            status: 405,
            json: false,
            body: "Method Not Allowed"@,
        }),
{
}

/// When the lookup fails, every request that reached it is answered 500 with
/// the generic failure body: parse failures and network failures look alike.
pub proof fn lemma_lookup_failure(
    method: Seq<char>,
    query: Option<Seq<char>>,
    body: BodyModel,
    a: Seq<char>,
)
    requires
        spec_extract(method, query, body) == SpecStep::Lookup(a),
    ensures
        spec_handle(method, query, body, None) == spec_error_response("Failed to get balance"@, 500),
{
}

} // verus!
