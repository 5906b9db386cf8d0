//! Request lifecycle tracing.
//!
//! Each request gets a `RequestContext` (identifier, client address, method,
//! path, start time) and a `Scope` opened from it. The scope records
//! best-effort per-chunk events while the body is relayed and emits exactly
//! one "stream ended" record when it is released, whether the stream drained
//! cleanly, errored, or the client went away.

use vstd::prelude::*;
use crate::rqid::RqId;

verus! {

/// What one request looks like to the tracer: drawn once per inbound
/// request and owned by that request's handling alone.
pub struct RequestContext {
    /// Per-process identifier, unique to this request.
    pub id: u64,
    /// Client network address, or "unknown" when none was available.
    pub client: String,
    /// HTTP method of the inbound request.
    pub method: String,
    /// Path of the inbound request.
    pub path: String,
    /// Start timestamp, in whatever unit the caller keeps time in.
    pub start: u64,
}

/// Observability scope of one request.
///
/// The scope is opened when the response begins and must emit its
/// completion record exactly once, on release; per-chunk events are
/// best-effort and kept as a ghost log of chunk sizes.
pub struct Scope {
    ctx: RequestContext,
    end_records: u64,
    chunk_log: Ghost<Seq<usize>>,
}

impl Scope {
    /// The context this scope was opened for.
    pub closed spec fn ctx(self) -> RequestContext {
        self.ctx
    }

    /// How many "stream ended" records this scope has emitted.
    pub closed spec fn end_record_count(self) -> u64 {
        self.end_records
    }

    /// Sizes of the chunks reported so far, oldest first.
    pub closed spec fn chunk_log(self) -> Seq<usize> {
        self.chunk_log@
    }

    /// A scope never emits its completion record more than once.
    pub open spec fn wf(self) -> bool {
        self.end_record_count() <= 1
    }

    /// A closed scope has emitted its completion record.
    pub open spec fn closed(self) -> bool {
        self.end_record_count() == 1
    }

    /// Opens the scope for one request: the open record is the context
    /// itself; no completion record has been emitted yet.
    pub fn open_scope(ctx: RequestContext) -> (s: Scope)
        ensures
            s.wf(),
            !s.closed(),
            s.end_record_count() == 0,
            s.ctx() == ctx,
            s.chunk_log() == Seq::<usize>::empty(),
    {
        Scope { ctx, end_records: 0, chunk_log: Ghost(Seq::empty()) }
    }

    /// Records one relayed chunk. Best-effort observability: it only
    /// appends to the ghost log and can never block the relay.
    pub fn on_chunk(&mut self, size: usize)
        requires
            old(self).wf(),
            !old(self).closed(),
        ensures
            final(self).wf(),
            !final(self).closed(),
            final(self).end_record_count() == 0,
            final(self).ctx() == old(self).ctx(),
            final(self).chunk_log() == old(self).chunk_log().push(size),
    {
        self.chunk_log = Ghost(self.chunk_log@.push(size));
    }

    /// Releases the scope: after this call exactly one completion record
    /// has been emitted, no matter how often release is reached.
    pub fn release(&mut self)
        requires
            old(self).wf(),
        ensures
            final(self).wf(),
            final(self).closed(),
            final(self).end_record_count() == 1,
            final(self).ctx() == old(self).ctx(),
            final(self).chunk_log() == old(self).chunk_log(),
    {
        if self.end_records == 0 {
            self.end_records = 1;
        }
    }

    /// Number of completion records emitted so far, observably.
    pub fn recorded_ends(&self) -> (n: u64)
        ensures
            n == self.end_record_count(),
    {
        self.end_records
    }

    /// The identifier of the request this scope belongs to.
    pub fn request_id(&self) -> (id: u64)
        ensures
            id == self.ctx().id,
    {
        self.ctx.id
    }
}

/// Builds the context of one inbound request, drawing its identifier from
/// the process-wide counter. A request without a known peer address is
/// recorded as coming from "unknown".
pub fn make_context(
    ids: &mut RqId,
    client: Option<String>,
    method: String,
    path: String,
    start: u64,
) -> (ctx: RequestContext)
    requires
        old(ids).wf(),
        old(ids).counter() < u64::MAX,
    ensures
        final(ids).wf(),
        ctx.id == old(ids).counter(),
        final(ids).issued() == old(ids).issued().push(ctx.id),
        ctx.client@ == (match client {
            Some(c) => c@,
            None => "unknown"@,
        }),
        ctx.method@ == method@,
        ctx.path@ == path@,
        ctx.start == start,
{
    let id = ids.next();
    let client = match client {
        Some(c) => c,
        None => "unknown".to_string(),
    };
    RequestContext { id, client, method, path, start }
}

} // verus!
