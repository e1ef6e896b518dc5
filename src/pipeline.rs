//! The whole middleware chain for one request: what the request phase and the
//! response phase emit, and the laws that tie the two together.
use vstd::prelude::*;
use crate::middleware::{
    elapsed_between, request_line, response_line, RequestContext, RequestId, RequestLogger,
    ResponseTime,
};

verus! {

/// What the request phase produces: the request's context and its log line.
pub struct RequestTrace {
    pub context: RequestContext,
    pub log_line: String,
}

/// What the response phase produces: its log line and the single
/// response-time observation.
pub struct ResponseTrace {
    pub log_line: String,
    pub elapsed: u64,
}

/// The hooks, in registration order.
pub struct Chain {
    pub identity: RequestId,
    pub logger: RequestLogger,
    pub timing: ResponseTime,
}

impl Chain {
    pub fn new() -> (r: Chain) {
        Chain { identity: RequestId, logger: RequestLogger, timing: ResponseTime }
    }

    /// The request phase: the identity hook creates the context, which the
    /// logger and the timer then read.
    pub fn begin(&self, now: u64, method: &str, path: &str) -> (r: RequestTrace)
        ensures
            r.context.id.0@.len() == 36,
            r.context.started_at == now,
            r.log_line@ == request_line(r.context.id.0@, method@, path@),
    {
        let context = self.identity.on_request(now);
        let log_line = self.logger.on_request(&context, method, path);
        RequestTrace { context, log_line }
    }

    /// The response phase, over the context that the request phase created.
    pub fn finish(&self, ctx: &RequestContext, method: &str, path: &str, status: u16, now: u64) -> (r: ResponseTrace)
        ensures
            r.log_line@ == response_line(ctx.id.0@, method@, path@, status),
            r.elapsed == elapsed_between(ctx.started_at, now),
    {
        let log_line = self.logger.on_response(ctx, method, path, status);
        let elapsed = self.timing.on_response(ctx, now);
        ResponseTrace { log_line, elapsed }
    }
}

/// Both log lines of a request carry its one identifier, at the same place,
/// and the response line extends the request line.
pub proof fn lemma_identifier_in_both_lines(
    id: Seq<char>,
    method: Seq<char>,
    path: Seq<char>,
    status: u16,
)
    ensures
        request_line(id, method, path).subrange(1, id.len() as int + 1) == id,
        response_line(id, method, path, status).subrange(1, id.len() as int + 1) == id,
        response_line(id, method, path, status).subrange(0, request_line(id, method, path).len() as int)
            == request_line(id, method, path),
{
    reveal_strlit("[");
    let q = request_line(id, method, path);
    let s = response_line(id, method, path, status);
    assert(q.subrange(1, id.len() as int + 1) =~= id);
    assert(s.subrange(0, q.len() as int) =~= q);
    assert(s.subrange(1, id.len() as int + 1) =~= q.subrange(1, id.len() as int + 1));
}

/// The response-time observation is never negative, and is the time since the
/// context's start whenever the clock has not gone back.
pub proof fn lemma_observation_non_negative(ctx: RequestContext, now: u64)
    ensures
        elapsed_between(ctx.started_at, now) >= 0,
        now >= ctx.started_at ==> elapsed_between(ctx.started_at, now) == now - ctx.started_at,
{
}

} // verus!
