//! The state that one capture session carries from block to block: the
//! samples that do not yet fill a chunk, and the state of the outbound link.

use vstd::prelude::*;
use crate::accumulator::{chunk_at, remainder, whole_chunks, Accumulator};
use crate::chunk::{PcmChunk, CHUNK_SAMPLES};
use crate::quantize::quantized;
use crate::transport::{next_action, next_link, step, Action, Event, Link};

verus! {

/// One capture session. A new session holds nothing back, and after every
/// block fewer than [`CHUNK_SAMPLES`] samples are held back.
#[derive(Debug)]
pub struct Session {
    acc: Accumulator,
    link: Link,
}

impl Session {
    /// The samples held back, oldest first.
    pub closed spec fn residual(&self) -> Seq<i16> {
        self.acc@
    }

    /// The state of the outbound link.
    pub closed spec fn link(&self) -> Link {
        self.link
    }

    /// A session that has seen no sample and holds no connection.
    pub fn new() -> (session: Session)
        ensures
            session.residual() == Seq::<i16>::empty(),
            session.link() == Link::Disconnected,
    {
        Session { acc: Accumulator::new(), link: Link::Disconnected }
    }

    /// Number of samples held back.
    pub fn residual_len(&self) -> (n: usize)
        ensures
            n == self.residual().len(),
    {
        self.acc.len()
    }

    /// Whether the session holds a live connection.
    pub fn is_connected(&self) -> (connected: bool)
        ensures
            connected <==> self.link() == Link::Connected,
    {
        self.link == Link::Connected
    }

    /// Takes in one block of scaled and rounded samples and hands out, oldest
    /// first, every chunk that it completes. The chunks are cut from the
    /// samples held back followed by the quantised block; what is left over is
    /// held back in turn.
    pub fn on_block(&mut self, rounded: &[i64]) -> (chunks: Vec<PcmChunk>)
        ensures
            chunks@.len() == whole_chunks(old(self).residual().len() + rounded@.len()),
            forall|k: int|
                0 <= k < chunks@.len() ==> (#[trigger] chunks@[k])@ == chunk_at(
                    old(self).residual() + quantized(rounded@),
                    k,
                ),
            forall|k: int| 0 <= k < chunks@.len() ==> (#[trigger] chunks@[k])@.len() == CHUNK_SAMPLES,
            final(self).residual() == remainder(old(self).residual() + quantized(rounded@)),
            final(self).residual().len() < CHUNK_SAMPLES,
            final(self).link() == old(self).link(),
    {
        self.acc.absorb(rounded)
    }

    /// Advances the outbound link by one event and says what to do next.
    /// The samples held back are not touched.
    pub fn on_transport(&mut self, event: Event) -> (action: Action)
        ensures
            final(self).link() == next_link(old(self).link(), event),
            action == next_action(old(self).link(), event),
            final(self).residual() == old(self).residual(),
    {
        let (link, action) = step(self.link, event);
        self.link = link;
        action
    }
}

} // verus!
