//! The shape every endpoint reduces to before it is sent: a method, a path,
//! a query string and a body.

use crate::client::{execution, started_view, OsuView};
use crate::error::{ErrorView, OsuError};
use crate::routing::{Method, Route};
use crate::text::{decimal, push_decimal};
use crate::transport::{Action, ActionView, Exchange, ExchangeView};
use vstd::prelude::*;
use vstd::string::StringExecFns;

pub mod ranking;

verus! {

/// The query string with one more parameter: `?key=value` on an empty
/// query, `&key=value` otherwise.
pub open spec fn query_with(query: Seq<char>, key: Seq<char>, value: Seq<char>) -> Seq<char> {
    if query.len() == 0 {
        "?"@ + key + "="@ + value
    } else {
        query + "&"@ + key + "="@ + value
    }
}

/// A query string under construction.
#[derive(Debug)]
pub struct Query {
    query: String,
}

impl View for Query {
    type V = Seq<char>;

    closed spec fn view(&self) -> Seq<char> {
        self.query@
    }
}

impl Query {
    /// The empty query.
    pub fn new() -> (q: Query)
        ensures
            q@ == Seq::<char>::empty(),
    {
        Query { query: String::new() }
    }

    /// Adds `key=value`. Neither part is escaped.
    pub fn push(&mut self, key: &str, value: &str)
        ensures
            final(self)@ == query_with(old(self)@, key@, value@),
    {
        if self.query.as_str().is_empty() {
            self.query.append("?");
        } else {
            self.query.append("&");
        }
        self.query.append(key);
        self.query.append("=");
        self.query.append(value);
        assert(self.query@ =~= query_with(old(self)@, key@, value@));
    }

    /// Adds `key=n`, the number in decimal.
    pub fn push_number(&mut self, key: &str, n: u64)
        ensures
            final(self)@ == query_with(old(self)@, key@, decimal(n as nat)),
    {
        if self.query.as_str().is_empty() {
            self.query.append("?");
        } else {
            self.query.append("&");
        }
        self.query.append(key);
        self.query.append("=");
        push_decimal(&mut self.query, n);
        assert(self.query@ =~= query_with(old(self)@, key@, decimal(n as nat)));
    }

    /// The query string: empty, or `?` and the parameters joined by `&`.
    pub fn as_str(&self) -> (s: &str)
        ensures
            s@ == self@,
    {
        self.query.as_str()
    }
}

/// The text of a JSON object under construction with one more member whose
/// value text is `value`: opened by `{` on the empty text, continued by `,`
/// otherwise.
pub open spec fn body_with(body: Seq<char>, key: Seq<char>, value: Seq<char>) -> Seq<char> {
    if body.len() == 0 {
        "{\""@ + key + "\":"@ + value
    } else {
        body + ",\""@ + key + "\":"@ + value
    }
}

/// `text` between double quotes.
pub open spec fn quoted(text: Seq<char>) -> Seq<char> {
    "\""@ + text + "\""@
}

/// The finished text of a body: empty if nothing was pushed, else closed
/// by `}`.
pub open spec fn body_closed(body: Seq<char>) -> Seq<char> {
    if body.len() == 0 {
        body
    } else {
        body + "}"@
    }
}

/// A JSON object under construction, written member by member.
#[derive(Debug)]
pub struct Body {
    inner: String,
}

impl View for Body {
    type V = Seq<char>;

    closed spec fn view(&self) -> Seq<char> {
        self.inner@
    }
}

impl Body {
    /// The body without members.
    pub fn new() -> (b: Body)
        ensures
            b@ == Seq::<char>::empty(),
    {
        Body { inner: String::new() }
    }

    fn push_prefix(&mut self, key: &str)
        ensures
            final(self)@ == body_with(old(self)@, key@, Seq::<char>::empty()),
    {
        if self.inner.as_str().is_empty() {
            self.inner.append("{\"");
        } else {
            self.inner.append(",\"");
        }
        self.inner.append(key);
        self.inner.append("\":");
        assert(self.inner@ =~= body_with(old(self)@, key@, Seq::<char>::empty()));
    }

    /// Adds the member `"key":"value"`. The value is written as it is,
    /// without escaping.
    pub fn push_with_quotes(&mut self, key: &str, value: &str)
        ensures
            final(self)@ == body_with(old(self)@, key@, quoted(value@)),
    {
        self.push_prefix(key);
        self.inner.append("\"");
        self.inner.append(value);
        self.inner.append("\"");
        assert(self.inner@ =~= body_with(old(self)@, key@, quoted(value@)));
    }

    /// Adds the member `"key":n`, the number in decimal.
    pub fn push_without_quotes(&mut self, key: &str, n: u64)
        ensures
            final(self)@ == body_with(old(self)@, key@, decimal(n as nat)),
    {
        self.push_prefix(key);
        push_decimal(&mut self.inner, n);
        assert(self.inner@ =~= body_with(old(self)@, key@, decimal(n as nat)));
    }

    /// The bytes of the body: none if it has no member, else the UTF-8
    /// encoding of the object's text.
    pub fn into_bytes(self) -> (bytes: Vec<u8>)
        ensures
            bytes@ == vstd::utf8::encode_utf8(body_closed(self@)),
    {
        let mut inner = self.inner;
        if !inner.as_str().is_empty() {
            inner.append("}");
        }
        assert(inner@ =~= body_closed(self@));
        inner.as_str().as_bytes_vec()
    }
}

/// A request as an endpoint describes it.
#[derive(Debug)]
pub struct Request {
    pub query: Query,
    pub method: Method,
    pub path: String,
    pub body: Body,
}

/// What a [`Request`] holds.
pub struct RequestView {
    pub query: Seq<char>,
    pub method: Method,
    pub path: Seq<char>,
    pub body: Seq<char>,
}

impl View for Request {
    type V = RequestView;

    open spec fn view(&self) -> RequestView {
        RequestView {
            query: self.query@,
            method: self.method,
            path: self.path@,
            body: self.body@,
        }
    }
}

impl Request {
    /// The request for a route with a query and without a body.
    pub fn with_query(query: Query, route: Route) -> (req: Request)
        ensures
            req@ == (RequestView {
                query: query@,
                method: route.spec_method(),
                path: route.spec_path(),
                body: Seq::<char>::empty(),
            }),
    {
        let (method, path) = route.into_parts();
        Request { query, method, path, body: Body::new() }
    }

    /// The request for a route without query and body.
    pub fn from_route(route: Route) -> (req: Request)
        ensures
            req@ == (RequestView {
                query: Seq::<char>::empty(),
                method: route.spec_method(),
                path: route.spec_path(),
                body: Seq::<char>::empty(),
            }),
    {
        Request::with_query(Query::new(), route)
    }
}

/// Whether an awaitable request was started. A request is started by the
/// first poll and by no later one.
#[derive(Clone, Copy, Debug, PartialEq, Eq, Structural)]
pub struct Lazy {
    pub started: bool,
}

impl Lazy {
    /// The state of a request that was not polled yet.
    pub fn new() -> (lazy: Lazy)
        ensures
            !lazy.started,
    {
        Lazy { started: false }
    }

    /// The state after a poll, and whether that poll starts the request.
    pub open spec fn spec_poll(self) -> (Lazy, bool) {
        (Lazy { started: true }, !self.started)
    }

    /// How many times the request is started by `polls` polls in a row.
    pub open spec fn starts(self, polls: nat) -> nat
        decreases polls,
    {
        if polls == 0 {
            0
        } else {
            let (next, first) = self.spec_poll();
            next.starts((polls - 1) as nat) + if first {
                1nat
            } else {
                0nat
            }
        }
    }

    /// Records a poll and says whether it is the one that starts the
    /// request.
    pub fn poll(&mut self) -> (first: bool)
        ensures
            (*final(self), first) == old(self).spec_poll(),
    {
        let first = !self.started;
        self.started = true;
        first
    }
}

/// However often a request is polled, it is started exactly once, by the
/// first poll; a request that was started is not started again.
pub proof fn law_started_once(lazy: Lazy, polls: nat)
    ensures
        lazy.starts(polls) == if !lazy.started && polls > 0 {
            1nat
        } else {
            0nat
        },
    decreases polls,
{
    if polls > 0 {
        law_started_once(lazy.spec_poll().0, (polls - 1) as nat);
    }
}

/// What a poll of an awaitable request asks the caller to do.
#[derive(Debug)]
pub enum Drive {
    /// The request was started by this poll: run the exchange, or hand out
    /// the error where the request could not be built.
    Start(Result<(Exchange, Action), OsuError>),
    /// The request was started by an earlier poll: go on with its
    /// exchange.
    Resume,
}

/// What a [`Drive`] holds.
pub enum DriveView {
    Start(Result<(ExchangeView, ActionView), ErrorView>),
    Resume,
}

impl View for Drive {
    type V = DriveView;

    open spec fn view(&self) -> DriveView {
        match self {
            Drive::Start(started) => DriveView::Start(started_view(*started)),
            Drive::Resume => DriveView::Resume,
        }
    }
}

/// What a poll gives on a request that stands for `req` at the client
/// `osu`: the execution of the request if it was not started before, and
/// nothing new otherwise.
pub open spec fn driven(started: bool, osu: OsuView, req: RequestView) -> DriveView {
    if started {
        DriveView::Resume
    } else {
        DriveView::Start(execution(osu, req))
    }
}

/// The query with the page of a ranking, where one was asked for.
pub open spec fn with_page(query: Seq<char>, page: Option<u32>) -> Seq<char> {
    match page {
        Some(page) => query_with(query, "cursor[page]"@, decimal(page as nat)),
        None => query,
    }
}

/// Adds the page of a ranking to a query, where one was asked for.
pub fn push_page(query: &mut Query, page: Option<u32>)
    ensures
        final(query)@ == with_page(old(query)@, page),
{
    if let Some(page) = page {
        query.push_number("cursor[page]", page as u64);
    }
}

} // verus!
