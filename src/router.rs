//! Routing of requests to the handlers, and the shape of each reply.
//!
//! `GET /health` goes to the health handler and `GET /balance/{address}` to
//! the balance handler; anything else is not found. Both handler errors are
//! answered with status 500.

use vstd::prelude::*;
use crate::address::{AccountIdentifier, hex_decode, is_address_text};
use crate::balance::{Balance, BalanceResponse, balance_json, decimal_text};
use crate::handler::{
    BalanceStep, HandlerError, ProviderError, finish_balance, health_check, health_text,
    start_balance,
};

verus! {

pub const STATUS_OK: u16 = 200;

pub const STATUS_NOT_FOUND: u16 = 404;

pub const STATUS_SERVER_ERROR: u16 = 500;

pub open spec fn get_method() -> Seq<char> {
    seq!['G', 'E', 'T']
}

pub open spec fn health_path() -> Seq<char> {
    seq!['/', 'h', 'e', 'a', 'l', 't', 'h']
}

pub open spec fn balance_prefix() -> Seq<char> {
    seq!['/', 'b', 'a', 'l', 'a', 'n', 'c', 'e', '/']
}

/// The address segment of a balance path: what follows `/balance/`, when it
/// is one non-empty path segment.
pub open spec fn balance_segment(path: Seq<char>) -> Option<Seq<char>> {
    if path.len() > balance_prefix().len() && path.subrange(0, balance_prefix().len() as int)
        == balance_prefix() && !path.subrange(balance_prefix().len() as int, path.len() as int).contains('/') {
        Some(path.subrange(balance_prefix().len() as int, path.len() as int))
    } else {
        None
    }
}

/// The handler that a method and path go to.
#[derive(Clone, Debug, PartialEq, Eq)]
pub enum Route {
    Health,
    /// The balance handler, with the raw address segment.
    Balance(String),
    NotFound,
}

/// What `route` returns for a method and a path.
pub open spec fn route_result(method: Seq<char>, path: Seq<char>, r: Route) -> bool {
    if method == get_method() && path == health_path() {
        r is Health
    } else if method == get_method() && balance_segment(path) is Some {
        r matches Route::Balance(seg) && seg@ == balance_segment(path).unwrap()
    } else {
        r is NotFound
    }
}

/// The body of a reply.
#[derive(Clone, Debug, PartialEq, Eq)]
pub enum ReplyBody {
    Empty,
    /// Plain text.
    Text(String),
    /// A JSON document.
    Json(String),
}

/// A reply: a status code and a body.
#[derive(Clone, Debug, PartialEq, Eq)]
pub struct HttpReply {
    pub status: u16,
    pub body: ReplyBody,
}

/// What the router decides for a request.
#[derive(Debug)]
pub enum Dispatch {
    /// Answer with this reply.
    Reply(HttpReply),
    /// Query the node for this identifier's balance, then answer with
    /// `balance_reply` of the outcome.
    FetchBalance(AccountIdentifier),
}

/// An empty reply with the given status.
pub open spec fn is_empty_reply(r: HttpReply, status: u16) -> bool {
    r.status == status && r.body is Empty
}

/// A plain-text reply with the given status and text.
pub open spec fn is_text_reply(r: HttpReply, status: u16, text: Seq<char>) -> bool {
    r.status == status && (r.body matches ReplyBody::Text(t) && t@ == text)
}

/// A JSON reply with the given status and document.
pub open spec fn is_json_reply(r: HttpReply, status: u16, doc: Seq<char>) -> bool {
    r.status == status && (r.body matches ReplyBody::Json(j) && j@ == doc)
}

/// What `dispatch` returns for a method and a path.
pub open spec fn dispatch_result(method: Seq<char>, path: Seq<char>, d: Dispatch) -> bool {
    if method == get_method() && path == health_path() {
        d matches Dispatch::Reply(r) && is_text_reply(r, STATUS_OK, health_text())
    } else if method == get_method() && balance_segment(path) is Some {
        let seg = balance_segment(path).unwrap();
        if is_address_text(seg) {
            d matches Dispatch::FetchBalance(id) && id@ == hex_decode(seg.subrange(2, 42))
        } else {
            d matches Dispatch::Reply(r) && is_empty_reply(r, STATUS_SERVER_ERROR)
        }
    } else {
        d matches Dispatch::Reply(r) && is_empty_reply(r, STATUS_NOT_FOUND)
    }
}

/// Whether two texts are equal.
fn text_eq(a: &str, b: &str) -> (r: bool)
    ensures
        r == (a@ == b@),
{
    let n = a.unicode_len();
    if n != b.unicode_len() {
        return false;
    }
    let mut i: usize = 0;
    while i < n
        invariant
            i <= n,
            n == a@.len(),
            n == b@.len(),
            forall|k: int| 0 <= k < i ==> a@[k] == b@[k],
        decreases n - i,
    {
        if a.get_char(i) != b.get_char(i) {
            return false;
        }
        i += 1;
    }
    assert(a@ =~= b@);
    true
}

/// Whether `s` holds the character `c`.
fn contains_char(s: &str, c: char) -> (r: bool)
    ensures
        r == s@.contains(c),
{
    let n = s.unicode_len();
    let mut i: usize = 0;
    while i < n
        invariant
            i <= n,
            n == s@.len(),
            forall|k: int| 0 <= k < i ==> s@[k] != c,
        decreases n - i,
    {
        if s.get_char(i) == c {
            assert(s@[i as int] == c);
            return true;
        }
        i += 1;
    }
    false
}

/// The handler for a method and a path.
pub fn route(method: &str, path: &str) -> (r: Route)
    ensures
        route_result(method@, path@, r),
{
    proof {
        reveal_strlit("GET");
        reveal_strlit("/health");
        reveal_strlit("/balance/");
        assert("GET"@ =~= get_method());
        assert("/health"@ =~= health_path());
        assert("/balance/"@ =~= balance_prefix());
    }
    if !text_eq(method, "GET") {
        return Route::NotFound;
    }
    if text_eq(path, "/health") {
        return Route::Health;
    }
    let n = path.unicode_len();
    let p: usize = 9;
    if n <= p {
        return Route::NotFound;
    }
    if !text_eq(path.substring_char(0, p), "/balance/") {
        return Route::NotFound;
    }
    let seg = path.substring_char(p, n);
    if contains_char(seg, '/') {
        return Route::NotFound;
    }
    Route::Balance(String::from_str(seg))
}

/// The status code for a handler error: 500 for both kinds.
pub fn error_status(e: HandlerError) -> (r: u16)
    ensures
        r == STATUS_SERVER_ERROR,
{
    match e {
        HandlerError::InvalidAddress => STATUS_SERVER_ERROR,
        HandlerError::UpstreamUnavailable => STATUS_SERVER_ERROR,
    }
}

/// The reply for a balance handler's result: 200 with the JSON body, or the
/// error's status with an empty body.
pub fn handler_reply(result: Result<BalanceResponse, HandlerError>) -> (r: HttpReply)
    ensures
        result matches Ok(resp) ==> is_json_reply(r, STATUS_OK, balance_json(resp.balance@)),
        result is Err ==> is_empty_reply(r, STATUS_SERVER_ERROR),
{
    match result {
        Ok(resp) => HttpReply { status: STATUS_OK, body: ReplyBody::Json(resp.to_json()) },
        Err(e) => HttpReply { status: error_status(e), body: ReplyBody::Empty },
    }
}

/// The reply once the node has answered a balance query.
pub fn balance_reply(outcome: Result<Balance, ProviderError>) -> (r: HttpReply)
    ensures
        outcome matches Ok(b) ==> is_json_reply(
            r,
            STATUS_OK,
            balance_json(decimal_text(b.value())),
        ),
        outcome is Err ==> is_empty_reply(r, STATUS_SERVER_ERROR),
{
    handler_reply(finish_balance(outcome))
}

/// Routes a request and runs what needs no node: the health probe, a
/// rejected address, a path that is not found.
pub fn dispatch(method: &str, path: &str) -> (d: Dispatch)
    ensures
        dispatch_result(method@, path@, d),
{
    match route(method, path) {
        Route::Health => Dispatch::Reply(
            HttpReply { status: STATUS_OK, body: ReplyBody::Text(health_check()) },
        ),
        Route::Balance(raw) => match start_balance(raw.as_str()) {
            BalanceStep::Query(id) => Dispatch::FetchBalance(id),
            BalanceStep::Done(result) => Dispatch::Reply(handler_reply(result)),
        },
        Route::NotFound => Dispatch::Reply(
            HttpReply { status: STATUS_NOT_FOUND, body: ReplyBody::Empty },
        ),
    }
}

/// How loudly a finished request is logged.
#[derive(Clone, Copy, Debug, PartialEq, Eq, Structural)]
pub enum Severity {
    Info,
    Error,
}

/// Successes (2xx) are logged as information, everything else as errors.
pub fn request_severity(status: u16) -> (r: Severity)
    ensures
        r == (if 200 <= status <= 299 {
            Severity::Info
        } else {
            Severity::Error
        }),
{
    if 200 <= status && status <= 299 {
        Severity::Info
    } else {
        Severity::Error
    }
}

} // verus!
