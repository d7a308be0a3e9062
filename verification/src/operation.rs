//! One bridge invocation's lifecycle: `Starting` on creation, `Streaming`
//! once the worker is up, then `Completed` on clean stream end, `Failed` on
//! a spawn/connect or transport error, or `Cancelled` on an explicit stop.
//!
//! The operation owns its Forwarder, so its emissions cannot interleave with
//! another operation's. Items are forwarded only while the operation is
//! `Streaming`; every other phase is quiescent: whatever the worker still
//! produces is dropped and the emission log stays as it is.

use vstd::prelude::*;

use crate::forward::Forwarder;
use crate::frame::{render_error, render_item, ItemView, StreamItem};

verus! {

/// The phase of one operation. A fresh operation is `Starting`; the idle
/// state before `start()` is the absence of an operation.
#[derive(Clone, Copy, PartialEq, Eq, Structural, Debug)]
pub enum OpPhase {
    Starting,
    Streaming,
    Completed,
    Failed,
    Cancelled,
}

/// How one produced item advances an operation: only a `Streaming`
/// operation forwards; every other phase drops the item.
pub open spec fn step_item(ph: OpPhase, log: Seq<Seq<u8>>, it: ItemView) -> (OpPhase, Seq<Seq<u8>>) {
    if ph is Streaming {
        (OpPhase::Streaming, log.push(render_item(it)))
    } else {
        (ph, log)
    }
}

/// A whole produced sequence, item by item.
pub open spec fn run_items(ph: OpPhase, log: Seq<Seq<u8>>, items: Seq<ItemView>) -> (OpPhase, Seq<
    Seq<u8>,
>)
    decreases items.len(),
{
    if items.len() == 0 {
        (ph, log)
    } else {
        let st = step_item(ph, log, items[0]);
        run_items(st.0, st.1, items.drop_first())
    }
}

/// A clean end of stream completes a streaming operation and touches
/// nothing else.
pub open spec fn step_end(ph: OpPhase) -> OpPhase {
    if ph is Streaming {
        OpPhase::Completed
    } else {
        ph
    }
}

/// One bridge invocation, from start to completion, failure or
/// cancellation. The tag names the operation on the sink channel, so that
/// concurrent operations' emissions cannot be confused by the UI.
pub struct Operation {
    phase: OpPhase,
    fwd: Forwarder,
    tag: Vec<u8>,
}

impl Operation {
    /// The current phase.
    pub closed spec fn phase(&self) -> OpPhase {
        self.phase
    }

    /// The payloads this operation has emitted to its sink, oldest first.
    pub closed spec fn emitted(&self) -> Seq<Seq<u8>> {
        self.fwd.emitted()
    }

    /// The tag that every emission of this operation carries on the sink
    /// channel.
    pub closed spec fn tag(&self) -> Seq<u8> {
        self.tag@
    }

    /// A fresh operation, about to spawn or connect; nothing emitted yet.
    /// The tag — typically the conversation identifier — must accompany
    /// every emission, so concurrent operations stay apart at the sink.
    pub fn new(tag: Vec<u8>) -> (op: Operation)
        ensures
            op.phase() is Starting,
            op.emitted() == Seq::<Seq<u8>>::empty(),
            op.tag() == tag@,
    {
        Operation { phase: OpPhase::Starting, fwd: Forwarder::new(), tag }
    }

    /// The current phase, for callers outside the proof.
    pub fn phase_of(&self) -> (p: OpPhase)
        ensures
            p == self.phase(),
    {
        self.phase
    }

    /// The tag to attach to an emission.
    pub fn tag_bytes(&self) -> (t: &Vec<u8>)
        ensures
            t@ == self.tag(),
    {
        &self.tag
    }

    /// The subprocess spawned or the call connected: streaming begins.
    pub fn start_ok(&mut self)
        requires
            old(self).phase() is Starting,
        ensures
            final(self).phase() is Streaming,
            final(self).emitted() == old(self).emitted(),
            final(self).tag() == old(self).tag(),
    {
        self.phase = OpPhase::Streaming;
    }

    /// The spawn or connect failed: the operation fails before anything was
    /// emitted, and stays quiescent.
    pub fn start_failed(&mut self)
        requires
            old(self).phase() is Starting,
        ensures
            final(self).phase() is Failed,
            final(self).emitted() == old(self).emitted(),
            final(self).tag() == old(self).tag(),
    {
        self.phase = OpPhase::Failed;
    }

    /// One item produced by the worker: forwarded iff the operation is
    /// still streaming. The payload, when one is returned, is what the
    /// caller must deliver to the sink.
    pub fn on_item(&mut self, item: StreamItem) -> (payload: Option<Vec<u8>>)
        ensures
            ({
                let st = step_item(old(self).phase(), old(self).emitted(), item@);
                &&& final(self).phase() == st.0
                &&& final(self).emitted() == st.1
                &&& final(self).tag() == old(self).tag()
                &&& match payload {
                    Some(p) => old(self).phase() is Streaming && p@ == render_item(item@),
                    None => !(old(self).phase() is Streaming),
                }
            }),
    {
        match self.phase {
            OpPhase::Streaming => Some(self.fwd.forward(item)),
            _ => None,
        }
    }

    /// Clean end of stream: a streaming operation completes; any other
    /// phase is left as it is.
    pub fn on_end(&mut self)
        ensures
            final(self).phase() == step_end(old(self).phase()),
            final(self).emitted() == old(self).emitted(),
            final(self).tag() == old(self).tag(),
    {
        if let OpPhase::Streaming = self.phase {
            self.phase = OpPhase::Completed;
        }
    }

    /// A transport error after streaming began: the operation fails and the
    /// error is rendered as its terminal emission. In any other phase
    /// nothing is emitted and nothing changes.
    pub fn on_error(&mut self, error: &[u8]) -> (payload: Option<Vec<u8>>)
        ensures
            final(self).tag() == old(self).tag(),
            match payload {
                Some(p) => {
                    &&& old(self).phase() is Streaming
                    &&& final(self).phase() is Failed
                    &&& p@ == render_error(error@)
                    &&& final(self).emitted() == old(self).emitted().push(p@)
                },
                None => {
                    &&& !(old(self).phase() is Streaming)
                    &&& final(self).phase() == old(self).phase()
                    &&& final(self).emitted() == old(self).emitted()
                },
            },
    {
        match self.phase {
            OpPhase::Streaming => {
                self.phase = OpPhase::Failed;
                Some(self.fwd.forward_error(error))
            },
            _ => None,
        }
    }

    /// An explicit stop request. A starting or streaming operation becomes
    /// `Cancelled` and the caller is told to release the underlying
    /// resource (kill the subprocess, close the call) promptly; a finished
    /// operation is left as it is and holds no resource.
    pub fn cancel(&mut self) -> (release: bool)
        ensures
            release == (old(self).phase() is Starting || old(self).phase() is Streaming),
            final(self).phase() == (if old(self).phase() is Starting || old(self).phase()
                is Streaming {
                OpPhase::Cancelled
            } else {
                old(self).phase()
            }),
            final(self).emitted() == old(self).emitted(),
            final(self).tag() == old(self).tag(),
    {
        match self.phase {
            OpPhase::Starting | OpPhase::Streaming => {
                self.phase = OpPhase::Cancelled;
                true
            },
            _ => false,
        }
    }
}

/// Exact delivery in order: a streaming operation that receives items
/// `items` and then a clean end of stream emits exactly the canonical
/// renderings of `items`, in production order, after what it had already
/// emitted, and completes. In particular a server stream of N frames yields
/// exactly N emissions.
pub proof fn lemma_stream_delivery(log: Seq<Seq<u8>>, items: Seq<ItemView>)
    ensures
        ({
            let r = run_items(OpPhase::Streaming, log, items);
            &&& r.0 is Streaming
            &&& r.1 == log + items.map_values(|it: ItemView| render_item(it))
            &&& step_end(r.0) is Completed
        }),
    decreases items.len(),
{
    let f = |it: ItemView| render_item(it);
    if items.len() == 0 {
        assert(log + items.map_values(f) =~= log);
    } else {
        let st = step_item(OpPhase::Streaming, log, items[0]);
        lemma_stream_delivery(st.1, items.drop_first());
        let r = run_items(OpPhase::Streaming, log, items);
        assert(r.1 == st.1 + items.drop_first().map_values(f));
        assert(r.1 =~= log + items.map_values(f));
    }
}

/// Every phase but `Streaming` is quiescent: whatever the worker still
/// produces, the phase and the emission log stay exactly as they are.
pub proof fn lemma_inactive_phase_is_quiescent(ph: OpPhase, log: Seq<Seq<u8>>, items: Seq<ItemView>)
    requires
        !(ph is Streaming),
    ensures
        run_items(ph, log, items) == (ph, log),
    decreases items.len(),
{
    if items.len() > 0 {
        lemma_inactive_phase_is_quiescent(ph, log, items.drop_first());
    }
}

/// Cancellation stops forwarding: once an operation is `Cancelled`, no
/// later item reaches the sink and the emission log never changes again.
pub proof fn lemma_cancel_stops_forwarding(log: Seq<Seq<u8>>, items: Seq<ItemView>)
    ensures
        run_items(OpPhase::Cancelled, log, items) == (OpPhase::Cancelled, log),
{
    lemma_inactive_phase_is_quiescent(OpPhase::Cancelled, log, items);
}

/// A failed start emits nothing, then or ever: an operation whose spawn or
/// connect failed holds an empty emission log, and no later item changes
/// that. The start error reaches the caller directly, not the sink.
pub proof fn lemma_failed_start_emits_nothing(items: Seq<ItemView>)
    ensures
        run_items(OpPhase::Failed, Seq::empty(), items) == (
            OpPhase::Failed,
            Seq::<Seq<u8>>::empty(),
        ),
{
    lemma_inactive_phase_is_quiescent(OpPhase::Failed, Seq::empty(), items);
}

} // verus!
