//! The HTTP transport's decisions: who may send a request, and where a
//! session posts its messages.
//!
//! Serving HTTP and server-sent events is done outside the verified
//! library.
use vstd::prelude::*;
use crate::text::str_eq;

verus! {

/// The key/value pairs of an `application/x-www-form-urlencoded` text, in
/// order, as `url::form_urlencoded::parse` decodes them.
pub uninterp spec fn form_urlencoded_pairs(query: Seq<char>) -> Seq<(Seq<char>, Seq<char>)>;

/// Decodes the query text `query` with `url::form_urlencoded::parse`.
/// The pairs are the name applied to the text: the crate splits at `&`,
/// skips empty parts, splits each at its first `=`, turns `+` into a space
/// and decodes percent escapes, replacing invalid UTF-8; none of that is
/// stated here.
#[verifier::external_body]
fn query_pairs(query: &str) -> (res: Vec<(String, String)>)
    ensures
        res.deep_view() == form_urlencoded_pairs(query@),
{
    url::form_urlencoded::parse(query.as_bytes()).into_owned().collect()
}

/// Whether the value of the last pair keyed `token` is `token`; a map
/// built from the pairs keeps that value for the key.
pub open spec fn token_in_pairs(pairs: Seq<(Seq<char>, Seq<char>)>, token: Seq<char>) -> bool {
    exists|i: int|
        #![trigger pairs[i]]
        0 <= i < pairs.len() && pairs[i].0 == "token"@ && pairs[i].1 == token && forall|j: int|
            i < j < pairs.len() ==> (#[trigger] pairs[j]).0 != "token"@
}

/// Whether a request may pass: every request when no token is configured;
/// otherwise one whose `Authorization` header is `Bearer <token>`, or whose
/// query carries the token under the key `token`.
pub open spec fn authorized(
    token: Option<Seq<char>>,
    header: Option<Seq<char>>,
    query: Option<Seq<char>>,
) -> bool {
    match token {
        None => true,
        Some(t) => header == Some("Bearer "@ + t) || (query matches Some(q) && token_in_pairs(
            form_urlencoded_pairs(q),
            t,
        )),
    }
}

/// Whether the value of the last pair of `pairs` keyed `token` is `token`.
pub fn token_matches(pairs: &Vec<(String, String)>, token: &str) -> (res: bool)
    ensures
        res == token_in_pairs(pairs.deep_view(), token@),
{
    let ghost ps = pairs.deep_view();
    let mut i = pairs.len();
    while i > 0
        invariant
            ps == pairs.deep_view(),
            i <= ps.len(),
            forall|j: int| i <= j < ps.len() ==> (#[trigger] ps[j]).0 != "token"@,
        decreases i,
    {
        i = i - 1;
        assert(ps[i as int] == (pairs[i as int].0@, pairs[i as int].1@));
        if str_eq(pairs[i].0.as_str(), "token") {
            let found = str_eq(pairs[i].1.as_str(), token);
            proof {
                if found {
                    assert(ps[i as int].1 == token@);
                } else if token_in_pairs(ps, token@) {
                    let k = choose|k: int|
                        #![trigger ps[k]]
                        0 <= k < ps.len() && ps[k].0 == "token"@ && ps[k].1 == token@ && forall|
                            j: int,
                        | k < j < ps.len() ==> (#[trigger] ps[j]).0 != "token"@;
                    if k < i {
                        assert(ps[i as int].0 != "token"@);
                    }
                }
            }
            return found;
        }
    }
    proof {
        if token_in_pairs(ps, token@) {
            let k = choose|k: int|
                #![trigger ps[k]]
                0 <= k < ps.len() && ps[k].0 == "token"@ && ps[k].1 == token@ && forall|j: int|
                    k < j < ps.len() ==> (#[trigger] ps[j]).0 != "token"@;
            assert(ps[k].0 != "token"@);
        }
    }
    false
}

/// Whether a request may pass, given the configured token, the request's
/// `Authorization` header and its query text.
pub fn is_authorized(token: Option<&str>, header: Option<&str>, query: Option<&str>) -> (res: bool)
    ensures
        res == authorized(
            match token {
                Some(t) => Some(t@),
                None => None,
            },
            match header {
                Some(h) => Some(h@),
                None => None,
            },
            match query {
                Some(q) => Some(q@),
                None => None,
            },
        ),
{
    let t = match token {
        None => {
            return true;
        },
        Some(t) => t,
    };
    if let Some(h) = header {
        let mut expected = String::from_str("Bearer ");
        expected.append(t);
        if str_eq(h, expected.as_str()) {
            return true;
        }
    }
    match query {
        Some(q) => {
            let pairs = query_pairs(q);
            token_matches(&pairs, t)
        },
        None => false,
    }
}

/// The URL a session posts its messages to.
pub fn endpoint_url(session_id: &str) -> (res: String)
    ensures
        res@ == "/message?session_id="@ + session_id@,
{
    let mut res = String::from_str("/message?session_id=");
    res.append(session_id);
    res
}

} // verus!
