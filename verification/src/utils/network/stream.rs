//! An in-memory duplex byte stream: what the peer has sent waits to be
//! read, and what is written is kept for the peer.

use crate::wire::append_bytes;
use vstd::prelude::*;

verus! {

/// What one read of an exact number of bytes can end in.
#[derive(Debug, PartialEq, Eq)]
pub enum ReadEvent {
    /// The bytes asked for.
    Data(Vec<u8>),
    /// The stream ended before the bytes asked for had arrived.
    Closed,
    /// The read did not finish within its deadline.
    TimedOut,
}

/// What a [`ReadEvent`] holds.
pub ghost enum ReadEventView {
    Data(Seq<u8>),
    Closed,
    TimedOut,
}

impl View for ReadEvent {
    type V = ReadEventView;

    open spec fn view(&self) -> ReadEventView {
        match self {
            ReadEvent::Data(d) => ReadEventView::Data(d@),
            ReadEvent::Closed => ReadEventView::Closed,
            ReadEvent::TimedOut => ReadEventView::TimedOut,
        }
    }
}

/// A stream held in memory. Reading past the end of `incoming` finds the
/// stream closed.
#[derive(Debug)]
pub struct ByteStream {
    pub incoming: Vec<u8>,
    pub position: usize,
    pub outgoing: Vec<u8>,
}

impl ByteStream {
    /// The read position lies within the bytes.
    pub open spec fn wf(&self) -> bool {
        self.position <= self.incoming@.len()
    }

    /// The bytes that have not been read yet.
    pub open spec fn remaining(&self) -> Seq<u8> {
        self.incoming@.skip(self.position as int)
    }

    /// A stream on which `incoming` waits to be read.
    pub fn new(incoming: Vec<u8>) -> (stream: ByteStream)
        ensures
            stream.wf(),
            stream.incoming@ == incoming@,
            stream.position == 0,
            stream.outgoing@ == Seq::<u8>::empty(),
            stream.remaining() == incoming@,
    {
        assert(incoming@.skip(0) =~= incoming@);
        ByteStream { incoming, position: 0, outgoing: Vec::new() }
    }

    /// Reads exactly `count` bytes. Where fewer are left, the stream is at
    /// its end afterwards and the read reports it closed.
    pub fn read_exact(&mut self, count: usize) -> (event: ReadEvent)
        requires
            old(self).wf(),
        ensures
            final(self).wf(),
            final(self).incoming@ == old(self).incoming@,
            final(self).outgoing@ == old(self).outgoing@,
            old(self).remaining().len() >= count ==> event@ == ReadEventView::Data(
                old(self).remaining().take(count as int),
            ) && final(self).position == old(self).position + count,
            old(self).remaining().len() < count ==> event@ == ReadEventView::Closed
                && final(self).position == old(self).incoming@.len(),
    {
        let left: usize = self.incoming.len() - self.position;
        if left < count {
            self.position = self.incoming.len();
            ReadEvent::Closed
        } else {
            let end: usize = self.position + count;
            let data = vstd::slice::slice_to_vec(
                vstd::slice::slice_subrange(self.incoming.as_slice(), self.position, end),
            );
            assert(data@ =~= old(self).remaining().take(count as int));
            self.position = end;
            ReadEvent::Data(data)
        }
    }

    /// Writes `bytes` for the peer.
    pub fn write_all(&mut self, bytes: &[u8])
        ensures
            final(self).incoming@ == old(self).incoming@,
            final(self).position == old(self).position,
            final(self).outgoing@ == old(self).outgoing@ + bytes@,
    {
        append_bytes(&mut self.outgoing, bytes);
    }
}

} // verus!
