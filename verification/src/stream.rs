//! Lazy pull-based byte stream.
//!
//! Models the body of an HTTP response as a finite sequence of chunks that
//! can only be pulled once, in order: the stream is not restartable, and
//! closing it stands for releasing the underlying connection. A stream may
//! end cleanly or with a transport error after its last data chunk.

use vstd::prelude::*;

verus! {

/// One pull from a byte stream: a data chunk, a clean end, or a transport
/// error ending the stream.
#[derive(PartialEq, Eq, Debug)]
pub enum BodyEvent {
    /// The next chunk of the body, exactly as the producer framed it.
    Chunk(Vec<u8>),
    /// The stream is exhausted.
    End,
    /// The transport failed; no further data will come.
    Error,
}

/// A finite, pull-once byte stream with an open/released connection state.
pub struct ByteStream {
    chunks: Vec<Vec<u8>>,
    error_at_end: bool,
    open: bool,
}

impl ByteStream {
    /// The chunks not yet pulled, in the order they will be pulled.
    pub closed spec fn remaining(self) -> Seq<Seq<u8>> {
        self.chunks.deep_view()
    }

    /// Whether the underlying connection is still held.
    pub closed spec fn is_open(self) -> bool {
        self.open
    }

    /// Whether the stream ends in a transport error instead of a clean end.
    pub closed spec fn fails_at_end(self) -> bool {
        self.error_at_end
    }

    /// A stream over the given chunks that ends cleanly.
    pub fn from_chunks(chunks: Vec<Vec<u8>>) -> (s: ByteStream)
        ensures
            s.remaining() == chunks.deep_view(),
            s.is_open(),
            !s.fails_at_end(),
    {
        ByteStream { chunks, error_at_end: false, open: true }
    }

    /// A stream over the given chunks that ends in a transport error.
    pub fn from_chunks_failing(chunks: Vec<Vec<u8>>) -> (s: ByteStream)
        ensures
            s.remaining() == chunks.deep_view(),
            s.is_open(),
            s.fails_at_end(),
    {
        ByteStream { chunks, error_at_end: true, open: true }
    }

    /// A stream with no data at all, ending cleanly.
    pub fn empty() -> (s: ByteStream)
        ensures
            s.remaining() == Seq::<Seq<u8>>::empty(),
            s.is_open(),
            !s.fails_at_end(),
    {
        ByteStream { chunks: Vec::new(), error_at_end: false, open: true }
    }

    /// Pulls the next event: the first remaining chunk, or the terminal
    /// event once the data is exhausted. Pulling never reorders, drops or
    /// rewrites a chunk, and a pulled chunk is gone from the stream.
    pub fn pull(&mut self) -> (e: BodyEvent)
        requires
            old(self).is_open(),
        ensures
            final(self).is_open(),
            final(self).fails_at_end() == old(self).fails_at_end(),
            old(self).remaining().len() > 0 ==> (
                e matches BodyEvent::Chunk(c) && c@ == old(self).remaining()[0]
                    && final(self).remaining() == old(self).remaining().skip(1)
            ),
            old(self).remaining().len() == 0 ==> (
                final(self).remaining() == old(self).remaining()
                    && (e matches BodyEvent::End <==> !old(self).fails_at_end())
                    && (e matches BodyEvent::Error <==> old(self).fails_at_end())
            ),
    {
        if self.chunks.len() > 0 {
            let c = self.chunks.remove(0);
            proof {
                assert(self.chunks.deep_view() =~= old(self).chunks.deep_view().skip(1));
            }
            BodyEvent::Chunk(c)
        } else if self.error_at_end {
            BodyEvent::Error
        } else {
            BodyEvent::End
        }
    }

    /// Releases the underlying connection: no further pulls are possible,
    /// so a producer being consumed no longer holds its connection.
    pub fn close(&mut self)
        ensures
            !final(self).is_open(),
            final(self).remaining() == old(self).remaining(),
            final(self).fails_at_end() == old(self).fails_at_end(),
    {
        self.open = false;
    }

    /// Whether the underlying connection is still held, observably.
    pub fn connection_open(&self) -> (b: bool)
        ensures
            b == self.is_open(),
    {
        self.open
    }
}

} // verus!
