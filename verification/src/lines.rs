//! Line Stream Reader core: turns a stream of byte chunks, delivered with
//! arbitrary chunk boundaries, into the newline-delimited lines of the
//! underlying byte sequence, incrementally and in order.
//!
//! Policy for a trailing unterminated line at stream close: it is emitted as
//! a final line if non-empty, discarded if empty (see [`LineBuffer::finish`]).

use vstd::prelude::*;

verus! {

/// The byte that terminates a line; it is stripped from the emitted lines.
pub open spec fn newline() -> u8 {
    10
}

/// One byte advances the splitter state: a newline completes the pending
/// line (possibly empty); any other byte extends it.
pub open spec fn feed_byte(emitted: Seq<Seq<u8>>, pending: Seq<u8>, b: u8) -> (Seq<
    Seq<u8>,
>, Seq<u8>) {
    if b == newline() {
        (emitted.push(pending), Seq::empty())
    } else {
        (emitted, pending.push(b))
    }
}

/// Feeding a whole chunk, byte by byte from the front.
pub open spec fn feed(emitted: Seq<Seq<u8>>, pending: Seq<u8>, s: Seq<u8>) -> (Seq<
    Seq<u8>,
>, Seq<u8>)
    decreases s.len(),
{
    if s.len() == 0 {
        (emitted, pending)
    } else {
        let st = feed_byte(emitted, pending, s[0]);
        feed(st.0, st.1, s.drop_first())
    }
}

/// The complete lines of a whole input, starting from an empty splitter.
pub open spec fn split_lines(s: Seq<u8>) -> Seq<Seq<u8>> {
    feed(Seq::empty(), Seq::empty(), s).0
}

/// Splitting distributes over concatenation: feeding `a + b` in one piece
/// leaves the splitter exactly where feeding `a` and then `b` leaves it.
pub proof fn lemma_feed_concat(emitted: Seq<Seq<u8>>, pending: Seq<u8>, a: Seq<u8>, b: Seq<u8>)
    ensures
        feed(emitted, pending, a + b) == ({
            let st = feed(emitted, pending, a);
            feed(st.0, st.1, b)
        }),
    decreases a.len(),
{
    if a.len() == 0 {
        assert(a + b =~= b);
    } else {
        let st = feed_byte(emitted, pending, a[0]);
        assert((a + b)[0] == a[0]);
        assert((a + b).drop_first() =~= a.drop_first() + b);
        lemma_feed_concat(st.0, st.1, a.drop_first(), b);
    }
}

/// The concatenation of a sequence of chunks.
pub open spec fn concat_chunks(chunks: Seq<Seq<u8>>) -> Seq<u8>
    decreases chunks.len(),
{
    if chunks.len() == 0 {
        Seq::empty()
    } else {
        chunks[0] + concat_chunks(chunks.drop_first())
    }
}

/// Feeding a sequence of chunks, one after the other.
pub open spec fn feed_chunks(emitted: Seq<Seq<u8>>, pending: Seq<u8>, chunks: Seq<Seq<u8>>) -> (Seq<
    Seq<u8>,
>, Seq<u8>)
    decreases chunks.len(),
{
    if chunks.len() == 0 {
        (emitted, pending)
    } else {
        let st = feed(emitted, pending, chunks[0]);
        feed_chunks(st.0, st.1, chunks.drop_first())
    }
}

/// Chunk-boundary independence: however a byte stream is cut into chunks,
/// feeding the chunks one at a time yields exactly the lines of the whole
/// stream, in their original order, with the same bytes left pending.
pub proof fn lemma_chunk_boundary_independence(
    emitted: Seq<Seq<u8>>,
    pending: Seq<u8>,
    chunks: Seq<Seq<u8>>,
)
    ensures
        feed_chunks(emitted, pending, chunks) == feed(emitted, pending, concat_chunks(chunks)),
    decreases chunks.len(),
{
    if chunks.len() == 0 {
    } else {
        let st = feed(emitted, pending, chunks[0]);
        lemma_chunk_boundary_independence(st.0, st.1, chunks.drop_first());
        lemma_feed_concat(emitted, pending, chunks[0], concat_chunks(chunks.drop_first()));
    }
}

/// Chunk-boundary independence from a fresh splitter: the complete lines
/// that come out of feeding any chunking of a byte stream are exactly
/// `split_lines` of the whole stream.
pub proof fn lemma_split_lines_of_chunks(chunks: Seq<Seq<u8>>)
    ensures
        feed_chunks(Seq::empty(), Seq::empty(), chunks).0 == split_lines(concat_chunks(chunks)),
{
    lemma_chunk_boundary_independence(Seq::empty(), Seq::empty(), chunks);
}

/// Incremental splitter over a subprocess's output channel: holds the bytes
/// of the current, not yet terminated line.
pub struct LineBuffer {
    pending: Vec<u8>,
}

impl LineBuffer {
    /// The bytes received since the last newline.
    pub closed spec fn view(&self) -> Seq<u8> {
        self.pending@
    }

    pub fn new() -> (r: LineBuffer)
        ensures
            r@ == Seq::<u8>::empty(),
    {
        LineBuffer { pending: Vec::new() }
    }

    /// Feed one chunk as it arrives off the channel; returns the lines the
    /// chunk completes, in order. Never waits for the stream to end.
    pub fn push_chunk(&mut self, chunk: &[u8]) -> (out: Vec<Vec<u8>>)
        ensures
            ({
                let st = feed(Seq::empty(), old(self)@, chunk@);
                out.deep_view() == st.0 && final(self)@ == st.1
            }),
    {
        let mut out: Vec<Vec<u8>> = Vec::new();
        let mut i: usize = 0;
        while i < chunk.len()
            invariant
                i <= chunk.len(),
                ({
                    let st = feed(Seq::empty(), old(self)@, chunk@.take(i as int));
                    out.deep_view() == st.0 && self@ == st.1
                }),
            decreases chunk.len() - i,
        {
            let ghost prefix = chunk@.take(i as int);
            let b = chunk[i];
            if b == 10 {
                let mut line: Vec<u8> = Vec::new();
                core::mem::swap(&mut line, &mut self.pending);
                out.push(line);
            } else {
                self.pending.push(b);
            }
            proof {
                let one = seq![chunk@[i as int]];
                assert(chunk@.take(i as int + 1) =~= prefix + one);
                lemma_feed_concat(Seq::empty(), old(self)@, prefix, one);
                let st = feed(Seq::empty(), old(self)@, prefix);
                let stb = feed_byte(st.0, st.1, chunk@[i as int]);
                assert(one[0] == chunk@[i as int]);
                assert(one.drop_first() =~= Seq::<u8>::empty());
                assert(feed(stb.0, stb.1, one.drop_first()) == (stb.0, stb.1));
                assert(feed(st.0, st.1, one) == (stb.0, stb.1));
                assert(out.deep_view() =~~= stb.0);
                assert(out.deep_view() =~~= feed(Seq::empty(), old(self)@, chunk@.take(
                    i as int + 1,
                )).0);
            }
            i += 1;
        }
        proof {
            assert(chunk@.take(chunk@.len() as int) =~= chunk@);
        }
        out
    }

    /// Stream close: the trailing bytes after the last newline are emitted
    /// as a final line if non-empty, discarded if empty; the buffer is left
    /// empty either way.
    pub fn finish(&mut self) -> (tail: Option<Vec<u8>>)
        ensures
            final(self)@ == Seq::<u8>::empty(),
            match tail {
                Some(line) => line@ == old(self)@ && old(self)@.len() > 0,
                None => old(self)@.len() == 0,
            },
    {
        if self.pending.len() == 0 {
            None
        } else {
            let mut line: Vec<u8> = Vec::new();
            core::mem::swap(&mut line, &mut self.pending);
            Some(line)
        }
    }
}

} // verus!
