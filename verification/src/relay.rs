//! One direction of the bidirectional byte relay: what is forwarded after
//! each read, and when the peer's write side must be shut down.
//!
//! The surrounding process owns the sockets and performs the blocking
//! reads and writes; this module decides, for each read outcome, what to
//! write and when to half-close, and carries the model of the bytes
//! forwarded so far.

use vstd::prelude::*;

verus! {

/// What the driving process must do with one read outcome.
pub enum RelayCommand {
    /// Write exactly these bytes to the destination socket (retrying
    /// partial writes until all are written), then read again.
    Forward(Vec<u8>),
    /// The source closed (or failed): shut down the destination socket's
    /// write side so the peer direction unblocks, then terminate this
    /// direction.
    ShutdownPeer,
}

/// One relay direction: the bytes forwarded so far, and whether the
/// direction has terminated.
pub struct RelayDirection {
    /// Everything forwarded to the destination so far, in order.
    pub forwarded: Ghost<Seq<u8>>,
    /// Set once the direction has delivered `ShutdownPeer`; no further
    /// reads are fed in.
    pub done: bool,
}

/// The first `n` bytes of the read buffer, copied out for writing.
pub fn chunk_to_forward(buffer: &Vec<u8>, n: usize) -> (out: Vec<u8>)
    requires
        n <= buffer.len(),
    ensures
        out@ == buffer@.take(n as int),
{
    let mut out: Vec<u8> = Vec::new();
    let mut i: usize = 0;
    while i < n
        invariant
            i <= n,
            n <= buffer.len(),
            out@ =~= buffer@.take(i as int),
        decreases n - i,
    {
        out.push(buffer[i]);
        i = i + 1;
    }
    assert(out@ =~= buffer@.take(n as int));
    out
}

impl RelayDirection {
    /// A fresh direction: nothing forwarded, still running.
    pub fn new() -> (d: RelayDirection)
        ensures
            d.forwarded@ == Seq::<u8>::empty(),
            !d.done,
    {
        RelayDirection { forwarded: Ghost(Seq::empty()), done: false }
    }

    /// Feeds one read outcome in: `n` is the byte count the read returned
    /// into `buffer` (zero for an orderly close; a read error is reported
    /// the same way). A zero read terminates the direction and orders the
    /// peer's write side shut; a positive read forwards exactly the bytes
    /// read, unchanged and in order.
    pub fn on_read(&mut self, buffer: &Vec<u8>, n: usize) -> (cmd: RelayCommand)
        requires
            !old(self).done,
            n <= buffer.len(),
        ensures
            n == 0 ==> cmd is ShutdownPeer && final(self).done && final(self).forwarded@ == old(
                self,
            ).forwarded@,
            n > 0 ==> (cmd matches RelayCommand::Forward(data) && data@ == buffer@.take(n as int)
                && !final(self).done && final(self).forwarded@ == old(self).forwarded@
                + buffer@.take(n as int)),
    {
        if n == 0 {
            self.done = true;
            RelayCommand::ShutdownPeer
        } else {
            let data = chunk_to_forward(buffer, n);
            proof {
                self.forwarded@ = self.forwarded@ + buffer@.take(n as int);
            }
            RelayCommand::Forward(data)
        }
    }
}

/// The bytes a direction has forwarded after reading the given chunks in
/// order, starting from `already`.
pub open spec fn feed_all(already: Seq<u8>, chunks: Seq<Seq<u8>>) -> Seq<u8>
    decreases chunks.len(),
{
    if chunks.len() == 0 {
        already
    } else {
        feed_all(already + chunks.first(), chunks.drop_first())
    }
}

/// Feeding chunks forwards their concatenation after what was already
/// forwarded.
pub proof fn lemma_feed_all_flatten(already: Seq<u8>, chunks: Seq<Seq<u8>>)
    ensures
        feed_all(already, chunks) == already + chunks.flatten(),
    decreases chunks.len(),
{
    if chunks.len() == 0 {
        assert(feed_all(already, chunks) =~= already + chunks.flatten());
    } else {
        lemma_feed_all_flatten(already + chunks.first(), chunks.drop_first());
        assert((already + chunks.first()) + chunks.drop_first().flatten() =~= already + (
        chunks.first() + chunks.drop_first().flatten()));
    }
}

/// The relay is transparent: a direction that reads a stream in any chunks
/// forwards exactly that stream — the concatenation of the chunks, with no
/// byte added, dropped, or reordered.
pub proof fn lemma_relay_forwards_stream_unchanged(chunks: Seq<Seq<u8>>)
    ensures
        feed_all(Seq::empty(), chunks) == chunks.flatten(),
{
    lemma_feed_all_flatten(Seq::empty(), chunks);
    assert(Seq::<u8>::empty() + chunks.flatten() =~= chunks.flatten());
}

/// What is forwarded does not depend on how the stream was chunked: two
/// chunkings of the same byte stream forward the same bytes.
pub proof fn lemma_relay_independent_of_chunking(
    chunks1: Seq<Seq<u8>>,
    chunks2: Seq<Seq<u8>>,
)
    requires
        chunks1.flatten() == chunks2.flatten(),
    ensures
        feed_all(Seq::empty(), chunks1) == feed_all(Seq::empty(), chunks2),
{
    lemma_relay_forwards_stream_unchanged(chunks1);
    lemma_relay_forwards_stream_unchanged(chunks2);
}

} // verus!
