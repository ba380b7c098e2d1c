//! The route table: which handler answers which request.
//!
//! A request is seen here as a method and the decoded, non-empty segments of
//! its path. A route binds a method and a path pattern to a handler; the
//! table is walked in order and the first route that accepts the request
//! answers it.

use crate::greeting::{hello, hello_text, index, index_text};
use vstd::prelude::*;

verus! {

/// A request method.
#[derive(Clone, Copy, Debug, PartialEq, Eq, Structural)]
pub enum Method {
    Get,
    Put,
    Post,
    Delete,
    Options,
    Head,
    Trace,
    Connect,
    Patch,
}

/// The handlers that a route can be bound to.
#[derive(Clone, Copy, Debug, PartialEq, Eq, Structural)]
pub enum Handler {
    /// Serves the fixed greeting.
    Index,
    /// Serves the greeting for the name captured from the path.
    Hello,
}

/// One piece of a path pattern.
#[derive(Clone, Debug, PartialEq, Eq)]
pub enum Piece {
    /// Accepts the segment that equals this text.
    Exact(String),
    /// Accepts any non-empty segment; the text is the parameter's name.
    Param(String),
}

/// A method and a path pattern bound to a handler.
#[derive(Clone, Debug, PartialEq, Eq)]
pub struct Route {
    pub method: Method,
    pub pattern: Vec<Piece>,
    pub handler: Handler,
}

/// What a handler answers: a status code, the content type of the body, and
/// the body.
#[derive(Clone, Debug, PartialEq, Eq)]
pub struct Response {
    pub status: u16,
    pub content_type: String,
    pub body: String,
}

/// The mathematical value of a [`Piece`].
pub enum PieceModel {
    Exact(Seq<char>),
    Param(Seq<char>),
}

/// The mathematical value of a [`Route`].
pub struct RouteModel {
    pub method: Method,
    pub pattern: Seq<PieceModel>,
    pub handler: Handler,
}

/// The mathematical value of a [`Response`].
pub struct Reply {
    pub status: u16,
    pub content_type: Seq<char>,
    pub body: Seq<char>,
}

impl View for Piece {
    type V = PieceModel;

    open spec fn view(&self) -> PieceModel {
        match self {
            Piece::Exact(text) => PieceModel::Exact(text@),
            Piece::Param(name) => PieceModel::Param(name@),
        }
    }
}

impl View for Route {
    type V = RouteModel;

    open spec fn view(&self) -> RouteModel {
        RouteModel {
            method: self.method,
            pattern: pieces(self.pattern@),
            handler: self.handler,
        }
    }
}

impl View for Response {
    type V = Reply;

    open spec fn view(&self) -> Reply {
        Reply { status: self.status, content_type: self.content_type@, body: self.body@ }
    }
}

/// The segments as sequences of characters.
pub open spec fn texts(segments: Seq<String>) -> Seq<Seq<char>> {
    Seq::new(segments.len(), |i: int| segments[i]@)
}

/// The pieces of a pattern as mathematical values.
pub open spec fn pieces(pattern: Seq<Piece>) -> Seq<PieceModel> {
    Seq::new(pattern.len(), |i: int| pattern[i]@)
}

/// The routes of a table as mathematical values.
pub open spec fn routes(table: Seq<Route>) -> Seq<RouteModel> {
    Seq::new(table.len(), |i: int| table[i]@)
}

/// The reply of an optional response.
pub open spec fn reply_of(response: Option<Response>) -> Option<Reply> {
    match response {
        Some(r) => Some(r@),
        None => None,
    }
}

/// The status of every answer that a handler gives.
pub const OK: u16 = 200;

/// The content type of every answer that a handler gives: plain text.
pub open spec fn plain_text() -> Seq<char> {
    "text/plain; charset=utf-8"@
}

/// The answer with status 200 and a plain-text body.
pub open spec fn ok(body: Seq<char>) -> Reply {
    Reply { status: OK, content_type: plain_text(), body }
}

impl PieceModel {
    /// Whether this piece accepts `segment`. A parameter never captures the
    /// empty text.
    pub open spec fn accepts(self, segment: Seq<char>) -> bool {
        match self {
            PieceModel::Exact(text) => segment == text,
            PieceModel::Param(_) => segment.len() > 0,
        }
    }
}

impl RouteModel {
    /// Whether this route accepts a request: the method is the route's, there
    /// are as many segments as pieces, and each piece accepts the segment at
    /// its place.
    pub open spec fn accepts(self, method: Method, segments: Seq<Seq<char>>) -> bool {
        &&& self.method == method
        &&& self.pattern.len() == segments.len()
        &&& forall|i: int|
            0 <= i < self.pattern.len() ==> (#[trigger] self.pattern[i]).accepts(segments[i])
    }
}

impl Handler {
    /// How many leading segments of the request the handler needs: it reads
    /// the last of them.
    pub open spec fn reads(self) -> nat {
        match self {
            Handler::Index => 0,
            Handler::Hello => 2,
        }
    }

    /// The body that the handler answers with.
    pub open spec fn text(self, segments: Seq<Seq<char>>) -> Seq<char> {
        match self {
            Handler::Index => index_text(),
            Handler::Hello => hello_text(segments[1]),
        }
    }
}

/// The table of this service: the root path goes to [`Handler::Index`], and
/// `hello` followed by one more segment goes to [`Handler::Hello`].
pub open spec fn table() -> Seq<RouteModel> {
    seq![
        RouteModel { method: Method::Get, pattern: seq![], handler: Handler::Index },
        RouteModel {
            method: Method::Get,
            pattern: seq![PieceModel::Exact("hello"@), PieceModel::Param("name"@)],
            handler: Handler::Hello,
        },
    ]
}

/// What this service answers to a request, if anything. `None` means that no
/// route accepts the request, which is then left to whatever serves requests
/// around this table.
pub open spec fn reply_to(method: Method, segments: Seq<Seq<char>>) -> Option<Reply> {
    if method != Method::Get {
        None
    } else if segments.len() == 0 {
        Some(ok(index_text()))
    } else if segments.len() == 2 && segments[0] == "hello"@ && segments[1].len() > 0 {
        Some(ok(hello_text(segments[1])))
    } else {
        None
    }
}

/// Builds the table of this service.
pub fn rocket() -> (table: Vec<Route>)
    ensures
        routes(table@) == self::table(),
{
    let mut table: Vec<Route> = Vec::new();
    table.push(Route { method: Method::Get, pattern: Vec::new(), handler: Handler::Index });
    let mut greeting: Vec<Piece> = Vec::new();
    greeting.push(Piece::Exact(String::from_str("hello")));
    greeting.push(Piece::Param(String::from_str("name")));
    table.push(Route { method: Method::Get, pattern: greeting, handler: Handler::Hello });
    proof {
        assert(pieces(table@[0].pattern@) =~= seq![]);
        assert(pieces(table@[1].pattern@) =~= seq![
            PieceModel::Exact("hello"@),
            PieceModel::Param("name"@),
        ]);
        assert(routes(table@) =~= self::table());
    }
    table
}

impl Piece {
    /// Tells whether this piece accepts `segment`.
    pub fn accepts(&self, segment: &String) -> (accepted: bool)
        ensures
            accepted == self@.accepts(segment@),
    {
        match self {
            Piece::Exact(text) => *text == *segment,
            Piece::Param(_) => !segment.as_str().is_empty(),
        }
    }
}

impl Route {
    /// Tells whether this route accepts the request.
    pub fn matches(&self, method: Method, segments: &Vec<String>) -> (accepted: bool)
        ensures
            accepted == self@.accepts(method, texts(segments@)),
    {
        if self.method != method || self.pattern.len() != segments.len() {
            return false;
        }
        let mut i: usize = 0;
        while i < self.pattern.len()
            invariant
                i <= self.pattern.len(),
                self.pattern.len() == segments.len(),
                forall|j: int|
                    0 <= j < i ==> (#[trigger] self@.pattern[j]).accepts(texts(segments@)[j]),
            decreases self.pattern.len() - i,
        {
            if !self.pattern[i].accepts(&segments[i]) {
                assert(!self@.pattern[i as int].accepts(texts(segments@)[i as int]));
                return false;
            }
            i = i + 1;
        }
        true
    }
}

/// Runs `handler` on a request that a route bound to it has accepted.
pub fn serve(handler: Handler, segments: &Vec<String>) -> (response: Response)
    requires
        handler.reads() <= segments.len(),
    ensures
        response@ == ok(handler.text(texts(segments@))),
{
    let body = match handler {
        Handler::Index => String::from_str(index()),
        Handler::Hello => hello(segments[1].as_str()),
    };
    Response { status: OK, content_type: String::from_str("text/plain; charset=utf-8"), body }
}

/// Answers a request with the first route of the table that accepts it, or
/// with `None` where none does.
pub fn route(method: Method, segments: &Vec<String>) -> (response: Option<Response>)
    ensures
        reply_of(response) == reply_to(method, texts(segments@)),
{
    let table = rocket();
    let ghost request = texts(segments@);
    let mut i: usize = 0;
    while i < table.len()
        invariant
            i <= table.len(),
            routes(table@) == self::table(),
            request == texts(segments@),
            forall|j: int| 0 <= j < i ==> !(#[trigger] self::table()[j]).accepts(method, request),
        decreases table.len() - i,
    {
        proof {
            assert(table@[i as int]@ == self::table()[i as int]);
            lemma_table_accepts(method, request);
        }
        if table[i].matches(method, segments) {
            let response = serve(table[i].handler, segments);
            return Some(response);
        }
        i = i + 1;
    }
    proof {
        lemma_table_accepts(method, request);
    }
    None
}

/// When the routes of [`table`] accept a request.
pub proof fn lemma_table_accepts(method: Method, segments: Seq<Seq<char>>)
    ensures
        table().len() == 2,
        table()[0].accepts(method, segments) <==> method == Method::Get && segments.len() == 0,
        table()[1].accepts(method, segments) <==> method == Method::Get && segments.len() == 2
            && segments[0] == "hello"@ && segments[1].len() > 0,
{
    let greeting = table()[1];
    if greeting.accepts(method, segments) {
        assert(greeting.pattern[0].accepts(segments[0]));
        assert(greeting.pattern[1].accepts(segments[1]));
    }
}

} // verus!
