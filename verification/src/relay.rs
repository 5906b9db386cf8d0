//! Streaming relay with a logged end.
//!
//! `StreamWithLoggedEnd` wraps an upstream body stream together with the
//! request's lifecycle scope. Each downstream pull forwards exactly one
//! upstream chunk, unchanged and in order; when the stream reaches a
//! terminal event — clean end, transport error, or the consumer going away
//! mid-stream — the upstream connection is released and the scope emits
//! its completion record exactly once.

use vstd::prelude::*;
use crate::stream::{BodyEvent, ByteStream};
use crate::trace::Scope;

verus! {

/// All the bytes of a chunk sequence, in order.
pub open spec fn bytes_of(chunks: Seq<Seq<u8>>) -> Seq<u8> {
    chunks.flatten()
}

/// An upstream body stream bound to the lifecycle scope of its request.
pub struct StreamWithLoggedEnd {
    inner: ByteStream,
    scope: Scope,
    done: bool,
}

impl StreamWithLoggedEnd {
    /// The upstream chunks not yet forwarded downstream.
    pub closed spec fn pending(self) -> Seq<Seq<u8>> {
        self.inner.remaining()
    }

    /// Whether the upstream stream ends in a transport error.
    pub closed spec fn source_fails(self) -> bool {
        self.inner.fails_at_end()
    }

    /// Whether a terminal event has been reached.
    pub closed spec fn is_done(self) -> bool {
        self.done
    }

    /// The lifecycle scope this stream reports to.
    pub closed spec fn scope(self) -> Scope {
        self.scope
    }

    /// Whether the upstream connection is still held.
    pub closed spec fn upstream_open(self) -> bool {
        self.inner.is_open()
    }

    /// While the stream is live the upstream connection is held and no
    /// completion record has been emitted; once it is done the connection
    /// is released and exactly one completion record exists.
    pub open spec fn wf(self) -> bool {
        &&& self.scope().wf()
        &&& !self.is_done() ==> self.upstream_open() && self.scope().end_record_count() == 0
        &&& self.is_done() ==> !self.upstream_open() && self.scope().end_record_count() == 1
    }

    /// Wraps an upstream body in the given lifecycle scope. Nothing has
    /// been forwarded yet and the scope is still open.
    pub fn new(inner: ByteStream, scope: Scope) -> (s: Self)
        requires
            inner.is_open(),
            scope.wf(),
            !scope.closed(),
            scope.end_record_count() == 0,
        ensures
            s.wf(),
            !s.is_done(),
            s.pending() == inner.remaining(),
            s.source_fails() == inner.fails_at_end(),
            s.scope() == scope,
    {
        StreamWithLoggedEnd { inner, scope, done: false }
    }

    /// One downstream pull: forwards the next upstream chunk as-is, or, on
    /// the terminal event, releases the upstream connection and emits the
    /// completion record. A transport error is surfaced to the consumer
    /// unchanged; nothing is retried or substituted mid-stream.
    pub fn poll_next(&mut self) -> (e: BodyEvent)
        requires
            old(self).wf(),
            !old(self).is_done(),
        ensures
            final(self).wf(),
            final(self).scope().ctx() == old(self).scope().ctx(),
            final(self).source_fails() == old(self).source_fails(),
            old(self).pending().len() > 0 ==> (
                e matches BodyEvent::Chunk(c) && c@ == old(self).pending()[0]
                    && final(self).pending() == old(self).pending().skip(1)
                    && !final(self).is_done()
                    && final(self).scope().chunk_log()
                        == old(self).scope().chunk_log().push(c@.len() as usize)
            ),
            old(self).pending().len() == 0 ==> (
                final(self).is_done()
                    && final(self).pending() == old(self).pending()
                    && (e matches BodyEvent::End <==> !old(self).source_fails())
                    && (e matches BodyEvent::Error <==> old(self).source_fails())
                    && final(self).scope().end_record_count() == 1
            ),
    {
        match self.inner.pull() {
            BodyEvent::Chunk(c) => {
                self.scope.on_chunk(c.len());
                BodyEvent::Chunk(c)
            },
            BodyEvent::End => {
                self.inner.close();
                self.scope.release();
                self.done = true;
                BodyEvent::End
            },
            BodyEvent::Error => {
                self.inner.close();
                self.scope.release();
                self.done = true;
                BodyEvent::Error
            },
        }
    }

    /// The consumer is gone (client disconnect) or the response is being
    /// discarded: release the upstream connection and make sure exactly
    /// one completion record exists, however often this is reached.
    pub fn abort(&mut self)
        requires
            old(self).wf(),
        ensures
            final(self).wf(),
            final(self).is_done(),
            !final(self).upstream_open(),
            final(self).scope().end_record_count() == 1,
            final(self).scope().ctx() == old(self).scope().ctx(),
            final(self).pending() == old(self).pending(),
    {
        if !self.done {
            self.inner.close();
            self.scope.release();
            self.done = true;
        }
    }

    /// Drains the whole stream: what comes out downstream is exactly what
    /// the upstream had left, byte for byte and chunk for chunk, and the
    /// completion record has been emitted exactly once afterwards.
    pub fn drain(&mut self) -> (out: Vec<Vec<u8>>)
        requires
            old(self).wf(),
            !old(self).is_done(),
        ensures
            final(self).wf(),
            final(self).is_done(),
            !final(self).upstream_open(),
            out.deep_view() == old(self).pending(),
            bytes_of(out.deep_view()) == bytes_of(old(self).pending()),
            final(self).scope().end_record_count() == 1,
            final(self).scope().ctx() == old(self).scope().ctx(),
    {
        let mut out: Vec<Vec<u8>> = Vec::new();
        proof {
            assert(out.deep_view() + self.pending() =~= self.pending());
        }
        loop
            invariant
                self.wf(),
                self.scope().ctx() == old(self).scope().ctx(),
                out.deep_view() + self.pending() == old(self).pending(),
                self.is_done() ==> self.pending().len() == 0,
            ensures
                self.wf(),
                self.is_done(),
                self.scope().ctx() == old(self).scope().ctx(),
                out.deep_view() + self.pending() == old(self).pending(),
                self.pending().len() == 0,
            decreases self.pending().len() + (if self.is_done() { 0int } else { 1 }),
        {
            if self.done {
                break;
            }
            let ghost out0 = out.deep_view();
            let ghost pend0 = self.pending();
            match self.poll_next() {
                BodyEvent::Chunk(c) => {
                    let ghost cv = c@;
                    out.push(c);
                    proof {
                        assert(out.deep_view() =~~= out0.push(cv));
                        assert(out0.push(cv) + pend0.skip(1) =~= out0 + pend0);
                    }
                },
                BodyEvent::End => {},
                BodyEvent::Error => {},
            }
        }
        proof {
            assert(out.deep_view() =~= out.deep_view() + self.pending());
        }
        out
    }

    /// Whether a terminal event has been reached, observably.
    pub fn finished(&self) -> (b: bool)
        ensures
            b == self.is_done(),
    {
        self.done
    }

    /// Whether the upstream connection has been released, observably.
    pub fn upstream_released(&self) -> (b: bool)
        ensures
            b == !self.upstream_open(),
    {
        !self.inner.connection_open()
    }

    /// Number of completion records the scope has emitted, observably.
    pub fn recorded_ends(&self) -> (n: u64)
        ensures
            n == self.scope().end_record_count(),
    {
        self.scope.recorded_ends()
    }
}

} // verus!
