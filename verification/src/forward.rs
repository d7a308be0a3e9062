//! Event Forwarder: one per operation, origin-agnostic. It renders each
//! produced item to its canonical serialized form and hands the payload to
//! the caller for delivery to the UI event sink, recording the emission
//! order. Exactly one payload per item, in arrival order: the ghost log of
//! emissions grows by one at the tail on every call, so the sink observes
//! items in exactly the order they were produced.

use vstd::prelude::*;

use crate::frame::{encode_error, encode_frame, render_error, render_item, StreamItem};

verus! {

/// Renders items for one operation's sink and records their order.
pub struct Forwarder {
    log: Ghost<Seq<Seq<u8>>>,
}

impl Forwarder {
    /// The payloads handed out for emission so far, oldest first.
    pub closed spec fn emitted(&self) -> Seq<Seq<u8>> {
        self.log@
    }

    pub fn new() -> (f: Forwarder)
        ensures
            f.emitted() == Seq::<Seq<u8>>::empty(),
    {
        Forwarder { log: Ghost(Seq::empty()) }
    }

    /// Renders one item; the payload is the next emission, appended at the
    /// tail of the log.
    pub fn forward(&mut self, item: StreamItem) -> (payload: Vec<u8>)
        ensures
            payload@ == render_item(item@),
            final(self).emitted() == old(self).emitted().push(payload@),
    {
        let payload = match item {
            StreamItem::Line(l) => l,
            StreamItem::Frame(f) => encode_frame(&f),
        };
        proof {
            self.log@ = self.log@.push(payload@);
        }
        payload
    }

    /// Renders a terminal transport error as the operation's last emission.
    pub fn forward_error(&mut self, error: &[u8]) -> (payload: Vec<u8>)
        ensures
            payload@ == render_error(error@),
            final(self).emitted() == old(self).emitted().push(payload@),
    {
        let payload = encode_error(error);
        proof {
            self.log@ = self.log@.push(payload@);
        }
        payload
    }
}

/// Forwarding is order-preserving within one operation: whatever the log
/// held before, after forwarding item `a` and then item `b` the log holds
/// `a`'s payload at some position strictly before `b`'s, and everything that
/// stood in the log before is untouched. Concurrent operations each own
/// their Forwarder, so no interleaving of other operations can reorder one
/// operation's own emissions.
pub proof fn lemma_forward_order(log0: Seq<Seq<u8>>, a: Seq<u8>, b: Seq<u8>)
    ensures
        ({
            let log2 = log0.push(a).push(b);
            &&& log2.len() == log0.len() + 2
            &&& log2[log0.len() as int] == a
            &&& log2[log0.len() as int + 1] == b
            &&& forall|i: int| 0 <= i < log0.len() ==> log2[i] == log0[i]
        }),
{
}

} // verus!
