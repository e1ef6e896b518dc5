//! The middleware chain: identity, logging and timing hooks, each a pure step
//! over an explicit per-request context.
use vstd::prelude::*;
use vstd::string::*;
use crate::text::{decimal, decimal_string};

verus! {

/// The unique identifier of one request.
pub struct RequestIdValue(pub String);

impl RequestIdValue {
    /// The identifier's text.
    pub fn as_string(&self) -> (r: String)
        ensures
            r@ == self.0@,
    {
        self.0.clone()
    }
}

/// Per-request state: the identifier and the monotonic start time, fixed at
/// the start of the request phase.
pub struct RequestContext {
    pub id: RequestIdValue,
    pub started_at: u64,
}

/// The name of a hook and the phases it takes part in.
pub struct HookInfo {
    pub name: &'static str,
    pub on_request: bool,
    pub on_response: bool,
}

/// Relies on `uuid::Uuid::new_v4` and its hyphenated text form, which is
/// always 36 characters long.
#[verifier::external_body]
fn fresh_uuid() -> (r: String)
    ensures
        r@.len() == 36,
{
    uuid::Uuid::new_v4().to_string()
}

/// The request-phase log line: `[id] METHOD path`.
pub open spec fn request_line(id: Seq<char>, method: Seq<char>, path: Seq<char>) -> Seq<char> {
    "["@ + id + "] "@ + method + " "@ + path
}

/// The response-phase log line: the request line, then `=> status`.
pub open spec fn response_line(id: Seq<char>, method: Seq<char>, path: Seq<char>, status: u16) -> Seq<char> {
    request_line(id, method, path) + " => "@ + decimal(status as nat)
}

/// Time from `start` to `now`, never negative: a clock read before the start
/// counts as no time.
pub open spec fn elapsed_between(start: u64, now: u64) -> nat {
    if now >= start { (now - start) as nat } else { 0 }
}

/// Assigns each request its identifier.
pub struct RequestId;

/// Logs each request and each response with the request's identifier.
pub struct RequestLogger;

/// Measures how long each request took.
pub struct ResponseTime;

impl RequestId {
    pub fn info(&self) -> (r: HookInfo)
        ensures
            r.name@ == "Request ID"@,
            r.on_request && r.on_response,
    {
        HookInfo { name: "Request ID", on_request: true, on_response: true }
    }

    /// Starts a request: a fresh identifier and the start time `now`.
    pub fn on_request(&self, now: u64) -> (r: RequestContext)
        ensures
            r.id.0@.len() == 36,
            r.started_at == now,
    {
        RequestContext { id: RequestIdValue(fresh_uuid()), started_at: now }
    }

    /// The identifier that the response phase reports: the one that the
    /// request phase assigned.
    pub fn on_response(&self, ctx: &RequestContext) -> (r: String)
        ensures
            r@ == ctx.id.0@,
    {
        ctx.id.as_string()
    }
}

impl RequestLogger {
    pub fn info(&self) -> (r: HookInfo)
        ensures
            r.name@ == "Request Logger"@,
            r.on_request && r.on_response,
    {
        HookInfo { name: "Request Logger", on_request: true, on_response: true }
    }

    /// The request-phase log line; bodies are never logged.
    pub fn on_request(&self, ctx: &RequestContext, method: &str, path: &str) -> (r: String)
        ensures
            r@ == request_line(ctx.id.0@, method@, path@),
    {
        let mut line = String::from_str("[");
        line.append(ctx.id.0.as_str());
        line.append("] ");
        line.append(method);
        line.append(" ");
        line.append(path);
        line
    }

    /// The response-phase log line, with the final status.
    pub fn on_response(&self, ctx: &RequestContext, method: &str, path: &str, status: u16) -> (r: String)
        ensures
            r@ == response_line(ctx.id.0@, method@, path@, status),
    {
        let mut line = self.on_request(ctx, method, path);
        line.append(" => ");
        let code = decimal_string(status as u64);
        line.append(code.as_str());
        line
    }
}

impl ResponseTime {
    pub fn info(&self) -> (r: HookInfo)
        ensures
            r.name@ == "Response Time"@,
            r.on_request && r.on_response,
    {
        HookInfo { name: "Response Time", on_request: true, on_response: true }
    }

    /// The start time that the request phase records.
    pub fn on_request(&self, ctx: &RequestContext) -> (r: u64)
        ensures
            r == ctx.started_at,
    {
        ctx.started_at
    }

    /// The one observation that the response phase gives the histogram.
    pub fn on_response(&self, ctx: &RequestContext, now: u64) -> (r: u64)
        ensures
            r == elapsed_between(ctx.started_at, now),
    {
        if now >= ctx.started_at {
            now - ctx.started_at
        } else {
            0
        }
    }
}

} // verus!
