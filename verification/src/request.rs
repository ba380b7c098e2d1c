//! From a request target, as it stands on the request line, to an answer.
//!
//! Reading the target is rocket's work: it checks the text, cuts the path at
//! the slashes, drops empty segments and undoes percent-encoding. The route
//! table then decides on the segments that come back.

use crate::route::{reply_of, reply_to, route, texts, Method, Reply, Response};
use vstd::prelude::*;

verus! {

/// The path segments that rocket reads from a request target in origin form,
/// or `None` where rocket does not take the text for one.
pub uninterp spec fn origin_segments(target: Seq<char>) -> Option<Seq<Seq<char>>>;

/// Calls `rocket::http::uri::Origin::parse` on `target` and, where that
/// succeeds, hands out what `Path::segments` yields for the parsed path: the
/// non-empty segments, percent-decoded, in order. Not verified: the contract
/// only gives this result its name, [`origin_segments`], which claims that it
/// depends on the text of `target` and on nothing else.
#[verifier::external_body]
fn path_segments(target: &str) -> (segments: Option<Vec<String>>)
    ensures
        match segments {
            Some(found) => origin_segments(target@) == Some(texts(found@)),
            None => origin_segments(target@) is None,
        },
{
    match rocket::http::uri::Origin::parse(target) {
        Ok(origin) => Some(origin.path().segments().map(String::from).collect()),
        Err(_) => None,
    }
}

/// What this service answers to a request for `target`: what the route table
/// answers to its segments. A target that cannot be read has no answer here.
pub open spec fn answer_to(method: Method, target: Seq<char>) -> Option<Reply> {
    match origin_segments(target) {
        Some(segments) => reply_to(method, segments),
        None => None,
    }
}

/// Answers the request for `target`, or returns `None` where the target
/// cannot be read or no route accepts it.
pub fn respond(method: Method, target: &str) -> (response: Option<Response>)
    ensures
        reply_of(response) == answer_to(method, target@),
{
    match path_segments(target) {
        Some(segments) => route(method, &segments),
        None => None,
    }
}

} // verus!
