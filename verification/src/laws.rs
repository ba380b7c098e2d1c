//! What holds of every request.

use crate::greeting::hello_text;
use crate::request::{answer_to, origin_segments};
use crate::route::{plain_text, reply_of, reply_to, Method, Reply, Response};
use vstd::prelude::*;

verus! {

/// Every `GET` request whose path has no segments is answered with status
/// 200 and the plain-text body `Hello, world!`.
pub proof fn root_is_greeted(target: Seq<char>)
    requires
        origin_segments(target) == Some(Seq::<Seq<char>>::empty()),
    ensures
        answer_to(Method::Get, target) == Some(
            Reply { status: 200, content_type: plain_text(), body: "Hello, world!"@ },
        ),
{
}

/// Every `GET` request whose path is `hello` and then one more segment is
/// answered with status 200 and the plain-text body `Hello, `, the decoded
/// segment, `!`.
pub proof fn name_is_greeted(target: Seq<char>, name: Seq<char>)
    requires
        origin_segments(target) == Some(seq!["hello"@, name]),
        name.len() > 0,
    ensures
        answer_to(Method::Get, target) == Some(
            Reply { status: 200, content_type: plain_text(), body: "Hello, "@ + name + "!"@ },
        ),
{
}

/// The same request gets the same answer: two responses to one method and
/// one target have the same status, the same content type and the same body.
pub proof fn same_request_same_answer(
    method: Method,
    target: Seq<char>,
    first: Option<Response>,
    second: Option<Response>,
)
    requires
        reply_of(first) == answer_to(method, target),
        reply_of(second) == answer_to(method, target),
    ensures
        first is Some <==> second is Some,
        first is Some ==> {
            &&& first->0.status == second->0.status
            &&& first->0.content_type@ == second->0.content_type@
            &&& first->0.body@ == second->0.body@
        },
{
}

/// A path that ends after `hello` is not answered, whatever the method.
pub proof fn missing_name_is_refused(method: Method, target: Seq<char>)
    requires
        origin_segments(target) == Some(seq!["hello"@]),
    ensures
        answer_to(method, target) is None,
{
    reveal_strlit("hello");
}

/// No request is answered with an empty name: the body `Hello, !` never
/// leaves this service, and a second segment that is empty is refused.
pub proof fn nobody_is_not_greeted(method: Method, segments: Seq<Seq<char>>)
    ensures
        reply_to(method, segments) matches Some(reply) ==> reply.body != "Hello, !"@,
        segments.len() == 2 && segments[1].len() == 0 ==> reply_to(method, segments) is None,
{
    reveal_strlit("Hello, ");
    reveal_strlit("!");
    reveal_strlit("Hello, !");
    reveal_strlit("Hello, world!");
    assert("Hello, !"@.len() == 8);
    assert("Hello, world!"@.len() == 13);
    if segments.len() == 2 {
        assert(hello_text(segments[1]).len() == 8 + segments[1].len());
    }
}

/// Only a `GET` request is answered, and each answer has status 200 and is
/// plain text.
pub proof fn answers_are_ok(method: Method, segments: Seq<Seq<char>>)
    ensures
        reply_to(method, segments) matches Some(reply) ==> {
            &&& method == Method::Get
            &&& reply.status == 200
            &&& reply.content_type == plain_text()
        },
{
}

} // verus!
