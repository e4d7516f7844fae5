//! Query-string handling: the URL-encoded pairs come from the `url` crate;
//! picking the first pair with a given name is verified here.

use vstd::prelude::*;

verus! {

/// The (name, value) pairs that URL-decoding a query string yields, in order.
pub uninterp spec fn form_pairs(query: Seq<char>) -> Seq<(Seq<char>, Seq<char>)>;

/// The views of a sequence of owned string pairs.
pub open spec fn pairs_view(pairs: Seq<(String, String)>) -> Seq<(Seq<char>, Seq<char>)> {
    pairs.map_values(|p: (String, String)| (p.0@, p.1@))
}

/// The view of an optional owned string.
pub open spec fn opt_view(o: Option<String>) -> Option<Seq<char>> {
    match o {
        Some(s) => Some(s@),
        None => None,
    }
}

/// Relies on `url::form_urlencoded::parse`: it splits the query on `&` and
/// `=`, percent-decodes each side with `+` standing for a space, and yields
/// the pairs in order; the result depends on the query text alone.
#[verifier::external_body]
pub(crate) fn parse_query_pairs(query: &str) -> (r: Vec<(String, String)>)
    ensures
        pairs_view(r@) == form_pairs(query@),
{
    url::form_urlencoded::parse(query.as_bytes()).into_owned().collect()
}

/// The value of the first pair named `key`, if any.
pub open spec fn first_value(pairs: Seq<(Seq<char>, Seq<char>)>, key: Seq<char>) -> Option<
    Seq<char>,
>
    decreases pairs.len(),
{
    if pairs.len() == 0 {
        None
    } else if pairs[0].0 == key {
        Some(pairs[0].1)
    } else {
        first_value(pairs.drop_first(), key)
    }
}

/// Searching from some index onward is searching the dropped prefix's rest:
/// skipping pairs that do not match `key` does not change the answer.
proof fn lemma_first_value_skip(pairs: Seq<(Seq<char>, Seq<char>)>, key: Seq<char>, i: int)
    requires
        0 <= i <= pairs.len(),
        forall|j: int| 0 <= j < i ==> (#[trigger] pairs[j]).0 != key,
    ensures
        first_value(pairs, key) == first_value(pairs.skip(i), key),
    decreases i,
{
    if i > 0 {
        lemma_first_value_skip(pairs, key, i - 1);
        assert(pairs.skip(i - 1).drop_first() =~= pairs.skip(i));
        assert(pairs.skip(i - 1)[0] == pairs[i - 1]);
    } else {
        assert(pairs.skip(0) =~= pairs);
    }
}

/// `first_value` really does take the first occurrence: when it answers, some
/// pair carries the answer and every earlier pair has another name; when it
/// does not, no pair is named `key`.
pub proof fn lemma_first_value_is_first_match(pairs: Seq<(Seq<char>, Seq<char>)>, key: Seq<char>)
    ensures
        match first_value(pairs, key) {
            Some(v) => exists|i: int|
                0 <= i < pairs.len() && (#[trigger] pairs[i]).0 == key && pairs[i].1 == v
                    && (forall|j: int| 0 <= j < i ==> (#[trigger] pairs[j]).0 != key),
            None => forall|j: int| 0 <= j < pairs.len() ==> (#[trigger] pairs[j]).0 != key,
        },
    decreases pairs.len(),
{
    if pairs.len() > 0 && pairs[0].0 != key {
        lemma_first_value_is_first_match(pairs.drop_first(), key);
        let rest = pairs.drop_first();
        match first_value(rest, key) {
            Some(v) => {
                let i = choose|i: int|
                    0 <= i < rest.len() && (#[trigger] rest[i]).0 == key && rest[i].1 == v
                        && (forall|j: int| 0 <= j < i ==> (#[trigger] rest[j]).0 != key);
                assert(pairs[i + 1] == rest[i]);
                assert(forall|j: int| 1 <= j < i + 1 ==> (#[trigger] pairs[j]).0 == rest[j - 1].0);
            },
            None => {
                assert(forall|j: int|
                    1 <= j < pairs.len() ==> (#[trigger] pairs[j]).0 == rest[j - 1].0);
            },
        }
    }
}

/// Finds the value of the first pair named `key`, cloning it out.
pub fn find_first(pairs: &Vec<(String, String)>, key: &str) -> (r: Option<String>)
    ensures
        opt_view(r) == first_value(pairs_view(pairs@), key@),
{
    let ghost gpairs = pairs_view(pairs@);
    let mut i: usize = 0;
    while i < pairs.len()
        invariant
            0 <= i <= pairs.len(),
            gpairs == pairs_view(pairs@),
            gpairs.len() == pairs@.len(),
            forall|j: int| 0 <= j < i ==> (#[trigger] gpairs[j]).0 != key@,
        decreases pairs.len() - i,
    {
        proof {
            assert(gpairs[i as int] == (pairs@[i as int].0@, pairs@[i as int].1@));
        }
        if crate::handler::str_eq(pairs[i].0.as_str(), key) {
            proof {
                lemma_first_value_skip(gpairs, key@, i as int);
                assert(gpairs.skip(i as int)[0] == gpairs[i as int]);
            }
            return Some(pairs[i].1.clone());
        }
        i += 1;
    }
    proof {
        lemma_first_value_skip(gpairs, key@, i as int);
        assert(gpairs.skip(i as int).len() == 0);
    }
    None
}

} // verus!
