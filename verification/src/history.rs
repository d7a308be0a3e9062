//! The non-streaming history call: one request (conversation, limit,
//! offset), one complete response. The request is a pure value of its
//! inputs, and the window of stored messages the response must hold is a
//! pure function of the stored conversation and the request bounds — so a
//! repeated identical request against an unchanged conversation yields the
//! same messages, and the call is safe to retry.

use vstd::prelude::*;

use crate::frame::Frame;

verus! {

/// One history request: a bounded page of a conversation's stored
/// messages.
pub struct HistoryRequest {
    pub conversation_id: Vec<u8>,
    pub limit: u64,
    pub offset: u64,
}

/// Builds the history request. A pure value of its inputs: building it
/// twice from the same inputs gives the same request, so the caller may
/// retry the call safely.
pub fn build_history_request(conversation_id: Vec<u8>, limit: u64, offset: u64) -> (r:
    HistoryRequest)
    ensures
        r.conversation_id@ == conversation_id@,
        r.limit == limit,
        r.offset == offset,
{
    HistoryRequest { conversation_id, limit, offset }
}

/// The page of stored messages a history response holds: up to `limit`
/// messages starting at `offset`, in stored order.
pub open spec fn history_window(msgs: Seq<Frame>, limit: nat, offset: nat) -> Seq<Frame> {
    if offset >= msgs.len() {
        Seq::empty()
    } else if offset + limit >= msgs.len() {
        msgs.skip(offset as int)
    } else {
        msgs.subrange(offset as int, (offset + limit) as int)
    }
}

/// Selects the requested page from the stored conversation. Deterministic:
/// the result is exactly `history_window` of the inputs, so identical calls
/// against an unchanged conversation return identical pages.
pub fn select_history(msgs: Vec<Frame>, limit: u64, offset: u64) -> (out: Vec<Frame>)
    ensures
        out@ == history_window(msgs@, limit as nat, offset as nat),
{
    let ghost orig = msgs@;
    let mut v = msgs;
    let len = v.len();
    let lo: usize = if offset >= len as u64 {
        len
    } else {
        offset as usize
    };
    proof {
        assert(lo as int == if offset as int >= orig.len() {
            orig.len() as int
        } else {
            offset as int
        });
    }
    let remaining: usize = len - lo;
    let take: usize = if limit >= remaining as u64 {
        remaining
    } else {
        limit as usize
    };
    let hi: usize = lo + take;
    v.truncate(hi);
    let mut i: usize = 0;
    while i < lo
        invariant
            i <= lo,
            hi <= orig.len(),
            lo <= hi,
            v@ == orig.subrange(0, hi as int).skip(i as int),
        decreases lo - i,
    {
        v.remove(0);
        proof {
            assert(orig.subrange(0, hi as int).skip(i as int).remove(0) =~= orig.subrange(
                0,
                hi as int,
            ).skip(i as int + 1));
        }
        i += 1;
    }
    proof {
        assert(v@ =~= history_window(orig, limit as nat, offset as nat));
    }
    v
}

/// A request that covers the whole conversation — offset zero and a limit
/// at least its length — returns exactly the stored messages, in stored
/// order. In particular a limit of 200 against 5 stored messages returns
/// those 5 and nothing else.
pub proof fn lemma_history_window_covers(msgs: Seq<Frame>, limit: nat)
    requires
        msgs.len() <= limit,
    ensures
        history_window(msgs, limit, 0) == msgs,
{
    assert(history_window(msgs, limit, 0) =~= msgs);
}

/// What any page holds, element by element: the page starts at `offset`,
/// keeps stored order, and is as long as the request bounds and the
/// conversation allow.
pub proof fn lemma_history_window_elements(msgs: Seq<Frame>, limit: nat, offset: nat)
    ensures
        ({
            let w = history_window(msgs, limit, offset);
            &&& w.len() == (if offset >= msgs.len() {
                0nat
            } else if offset + limit >= msgs.len() {
                (msgs.len() - offset) as nat
            } else {
                limit
            })
            &&& forall|i: int| 0 <= i < w.len() ==> w[i] == msgs[offset + i]
        }),
{
}

} // verus!
