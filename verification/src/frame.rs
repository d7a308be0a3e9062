//! The units a running bridge operation produces, and their canonical
//! serialized form.
//!
//! A `StreamItem` is either a raw line from a subprocess or a structured
//! frame from the remote service. Both are rendered to one canonical byte
//! string before they reach the UI event sink, so the sink need not
//! distinguish origin: lines pass through unchanged, frames are rendered as
//! a JSON object with a fixed field order, and a terminal transport error is
//! rendered as a one-field JSON object.

use vstd::prelude::*;

verus! {

/// A structured response frame, mirroring the worker's message schema in
/// plain values. Textual fields are held as UTF-8 bytes; the confidence
/// score is carried in thousandths so that it stays an integer.
pub struct Frame {
    pub id: Vec<u8>,
    pub conversation_id: Vec<u8>,
    pub sender: Vec<u8>,
    pub text: Vec<u8>,
    pub created_at: u64,
    pub confidence_milli: u32,
    pub needs_clarification: bool,
    pub attachments: Vec<Vec<u8>>,
    pub metadata: Vec<u8>,
}

/// The mathematical value of a `Frame`.
pub struct FrameView {
    pub id: Seq<u8>,
    pub conversation_id: Seq<u8>,
    pub sender: Seq<u8>,
    pub text: Seq<u8>,
    pub created_at: u64,
    pub confidence_milli: u32,
    pub needs_clarification: bool,
    pub attachments: Seq<Seq<u8>>,
    pub metadata: Seq<u8>,
}

impl View for Frame {
    type V = FrameView;

    open spec fn view(&self) -> FrameView {
        FrameView {
            id: self.id@,
            conversation_id: self.conversation_id@,
            sender: self.sender@,
            text: self.text@,
            created_at: self.created_at,
            confidence_milli: self.confidence_milli,
            needs_clarification: self.needs_clarification,
            attachments: self.attachments.deep_view(),
            metadata: self.metadata@,
        }
    }
}

/// One unit produced by a running operation.
pub enum StreamItem {
    /// Raw text from a subprocess's output, one line, newline stripped.
    Line(Vec<u8>),
    /// A typed frame from the remote service.
    Frame(Frame),
}

/// The mathematical value of a `StreamItem`.
pub enum ItemView {
    Line(Seq<u8>),
    Frame(FrameView),
}

impl View for StreamItem {
    type V = ItemView;

    open spec fn view(&self) -> ItemView {
        match self {
            StreamItem::Line(l) => ItemView::Line(l@),
            StreamItem::Frame(f) => ItemView::Frame(f@),
        }
    }
}

/// The hex digit (lower case) for a value below 16.
pub open spec fn hex_digit(n: u8) -> u8 {
    if n < 10 {
        (48 + n) as u8
    } else {
        (87 + n) as u8
    }
}

/// JSON escape of one byte: quote and backslash get a leading backslash,
/// control bytes become `\u00XX`, every other byte passes through.
pub open spec fn esc_byte(b: u8) -> Seq<u8> {
    if b == 34 {
        seq![92u8, 34u8]
    } else if b == 92 {
        seq![92u8, 92u8]
    } else if b < 32 {
        seq![92u8, 117u8, 48u8, 48u8, hex_digit(b / 16), hex_digit(b % 16)]
    } else {
        seq![b]
    }
}

/// JSON escape of a byte string.
pub open spec fn esc(s: Seq<u8>) -> Seq<u8>
    decreases s.len(),
{
    if s.len() == 0 {
        Seq::empty()
    } else {
        esc(s.drop_last()) + esc_byte(s.last())
    }
}

/// `s` escaped and wrapped in double quotes.
pub open spec fn quoted(s: Seq<u8>) -> Seq<u8> {
    seq![34u8] + esc(s) + seq![34u8]
}

/// A quoted key followed by a colon.
pub open spec fn key(name: Seq<u8>) -> Seq<u8> {
    seq![34u8] + name + seq![34u8, 58u8]
}

/// The decimal digits of `n`, most significant first.
pub open spec fn dec(n: nat) -> Seq<u8>
    decreases n,
{
    if n < 10 {
        seq![(48 + n) as u8]
    } else {
        dec(n / 10).push((48 + n % 10) as u8)
    }
}

/// `true` or `false`.
pub open spec fn bool_lit(b: bool) -> Seq<u8> {
    if b {
        seq![116u8, 114u8, 117u8, 101u8]
    } else {
        seq![102u8, 97u8, 108u8, 115u8, 101u8]
    }
}

/// The members of a JSON array of quoted strings, comma separated.
pub open spec fn join_quoted(items: Seq<Seq<u8>>) -> Seq<u8>
    decreases items.len(),
{
    if items.len() == 0 {
        Seq::empty()
    } else if items.len() == 1 {
        quoted(items[0])
    } else {
        join_quoted(items.drop_last()) + seq![44u8] + quoted(items.last())
    }
}

/// A JSON array of quoted strings.
pub open spec fn render_array(items: Seq<Seq<u8>>) -> Seq<u8> {
    seq![91u8] + join_quoted(items) + seq![93u8]
}

/// bytes of `id`
pub open spec fn k_id() -> Seq<u8> {
    seq![105u8, 100u8]
}

/// bytes of `conversation_id`
pub open spec fn k_conversation_id() -> Seq<u8> {
    seq![99u8, 111u8, 110u8, 118u8, 101u8, 114u8, 115u8, 97u8, 116u8, 105u8, 111u8, 110u8, 95u8, 105u8, 100u8]
}

/// bytes of `sender`
pub open spec fn k_sender() -> Seq<u8> {
    seq![115u8, 101u8, 110u8, 100u8, 101u8, 114u8]
}

/// bytes of `text`
pub open spec fn k_text() -> Seq<u8> {
    seq![116u8, 101u8, 120u8, 116u8]
}

/// bytes of `created_at`
pub open spec fn k_created_at() -> Seq<u8> {
    seq![99u8, 114u8, 101u8, 97u8, 116u8, 101u8, 100u8, 95u8, 97u8, 116u8]
}

/// bytes of `confidence_milli`
pub open spec fn k_confidence_milli() -> Seq<u8> {
    seq![99u8, 111u8, 110u8, 102u8, 105u8, 100u8, 101u8, 110u8, 99u8, 101u8, 95u8, 109u8, 105u8, 108u8, 108u8, 105u8]
}

/// bytes of `needs_clarification`
pub open spec fn k_needs_clarification() -> Seq<u8> {
    seq![110u8, 101u8, 101u8, 100u8, 115u8, 95u8, 99u8, 108u8, 97u8, 114u8, 105u8, 102u8, 105u8, 99u8, 97u8, 116u8, 105u8, 111u8, 110u8]
}

/// bytes of `attachments`
pub open spec fn k_attachments() -> Seq<u8> {
    seq![97u8, 116u8, 116u8, 97u8, 99u8, 104u8, 109u8, 101u8, 110u8, 116u8, 115u8]
}

/// bytes of `metadata`
pub open spec fn k_metadata() -> Seq<u8> {
    seq![109u8, 101u8, 116u8, 97u8, 100u8, 97u8, 116u8, 97u8]
}

/// bytes of `error`
pub open spec fn k_error() -> Seq<u8> {
    seq![101u8, 114u8, 114u8, 111u8, 114u8]
}

/// The canonical rendering of a frame: a JSON object with the fields in a
/// fixed order, string fields escaped, numbers in decimal.
pub open spec fn render_frame(f: FrameView) -> Seq<u8> {
    seq![123u8] + key(k_id()) + quoted(f.id) + seq![44u8] + key(k_conversation_id()) + quoted(
        f.conversation_id,
    ) + seq![44u8] + key(k_sender()) + quoted(f.sender) + seq![44u8] + key(k_text()) + quoted(
        f.text,
    ) + seq![44u8] + key(k_created_at()) + dec(f.created_at as nat) + seq![44u8] + key(
        k_confidence_milli(),
    ) + dec(f.confidence_milli as nat) + seq![44u8] + key(k_needs_clarification()) + bool_lit(
        f.needs_clarification,
    ) + seq![44u8] + key(k_attachments()) + render_array(f.attachments) + seq![44u8] + key(
        k_metadata(),
    ) + quoted(f.metadata) + seq![125u8]
}

/// The canonical rendering of one item: a line passes through unchanged, a
/// frame is rendered as JSON.
pub open spec fn render_item(it: ItemView) -> Seq<u8> {
    match it {
        ItemView::Line(l) => l,
        ItemView::Frame(f) => render_frame(f),
    }
}

/// The canonical rendering of a terminal transport error.
pub open spec fn render_error(e: Seq<u8>) -> Seq<u8> {
    seq![123u8] + key(k_error()) + quoted(e) + seq![125u8]
}

/// Appends one byte.
fn push_byte(out: &mut Vec<u8>, b: u8)
    ensures
        final(out)@ == old(out)@ + seq![b],
{
    out.push(b);
    proof {
        assert(out@ =~= old(out)@ + seq![b]);
    }
}

/// Appends a byte slice unchanged.
fn append_bytes(out: &mut Vec<u8>, s: &[u8])
    ensures
        final(out)@ == old(out)@ + s@,
{
    let mut i: usize = 0;
    while i < s.len()
        invariant
            i <= s.len(),
            out@ == old(out)@ + s@.take(i as int),
        decreases s.len() - i,
    {
        out.push(s[i]);
        proof {
            assert(s@.take(i as int + 1) =~= s@.take(i as int).push(s@[i as int]));
            assert(out@ =~= old(out)@ + s@.take(i as int + 1));
        }
        i += 1;
    }
    proof {
        assert(s@.take(s@.len() as int) =~= s@);
    }
}

/// Appends the JSON escape of `s`.
fn append_escaped(out: &mut Vec<u8>, s: &[u8])
    ensures
        final(out)@ == old(out)@ + esc(s@),
{
    let mut i: usize = 0;
    while i < s.len()
        invariant
            i <= s.len(),
            out@ == old(out)@ + esc(s@.take(i as int)),
        decreases s.len() - i,
    {
        let b = s[i];
        if b == 34 {
            out.push(92);
            out.push(34);
        } else if b == 92 {
            out.push(92);
            out.push(92);
        } else if b < 32 {
            out.push(92);
            out.push(117);
            out.push(48);
            out.push(48);
            out.push(48 + b / 16);
            let low = b % 16;
            if low < 10 {
                out.push(48 + low);
            } else {
                out.push(87 + low);
            }
        } else {
            out.push(b);
        }
        proof {
            assert(s@.take(i as int + 1).drop_last() =~= s@.take(i as int));
            assert(s@.take(i as int + 1).last() == s@[i as int]);
            assert(out@ =~= old(out)@ + esc(s@.take(i as int + 1)));
        }
        i += 1;
    }
    proof {
        assert(s@.take(s@.len() as int) =~= s@);
    }
}

/// Appends `s` escaped and quoted.
fn append_quoted(out: &mut Vec<u8>, s: &[u8])
    ensures
        final(out)@ == old(out)@ + quoted(s@),
{
    out.push(34);
    proof {
        assert(out@ =~= old(out)@ + seq![34u8]);
    }
    append_escaped(out, s);
    out.push(34);
    proof {
        assert(out@ =~= old(out)@ + quoted(s@));
    }
}

/// Appends a quoted key and a colon.
fn append_key(out: &mut Vec<u8>, name: &[u8])
    ensures
        final(out)@ == old(out)@ + key(name@),
{
    out.push(34);
    proof {
        assert(out@ =~= old(out)@ + seq![34u8]);
    }
    append_bytes(out, name);
    out.push(34);
    out.push(58);
    proof {
        assert(out@ =~= old(out)@ + key(name@));
    }
}

/// The decimal digits of `n`, most significant first.
pub fn u64_to_dec(n: u64) -> (out: Vec<u8>)
    ensures
        out@ == dec(n as nat),
    decreases n,
{
    if n < 10 {
        let mut out: Vec<u8> = Vec::new();
        out.push(48 + (n as u8));
        proof {
            assert(out@ =~= dec(n as nat));
        }
        out
    } else {
        proof {
            assert((n as nat) / 10 < n as nat) by (nonlinear_arith)
                requires
                    n >= 10,
            ;
        }
        let mut out = u64_to_dec(n / 10);
        out.push(48 + ((n % 10) as u8));
        out
    }
}

/// Appends the decimal rendering of `n`.
fn append_dec(out: &mut Vec<u8>, n: u64)
    ensures
        final(out)@ == old(out)@ + dec(n as nat),
{
    let digits = u64_to_dec(n);
    append_bytes(out, digits.as_slice());
}

/// Appends `true` or `false`.
fn append_bool(out: &mut Vec<u8>, b: bool)
    ensures
        final(out)@ == old(out)@ + bool_lit(b),
{
    if b {
        append_bytes(out, &[116, 114, 117, 101]);
        proof {
            assert([116u8, 114u8, 117u8, 101u8]@ =~= bool_lit(true));
        }
    } else {
        append_bytes(out, &[102, 97, 108, 115, 101]);
        proof {
            assert([102u8, 97u8, 108u8, 115u8, 101u8]@ =~= bool_lit(false));
        }
    }
}

/// Appends a JSON array of the quoted, escaped items.
fn append_array(out: &mut Vec<u8>, items: &Vec<Vec<u8>>)
    ensures
        final(out)@ == old(out)@ + render_array(items.deep_view()),
{
    let ghost all = items.deep_view();
    out.push(91);
    proof {
        assert(out@ =~= old(out)@ + seq![91u8]);
    }
    let mut i: usize = 0;
    while i < items.len()
        invariant
            i <= items.len(),
            all == items.deep_view(),
            out@ == old(out)@ + seq![91u8] + join_quoted(all.take(i as int)),
        decreases items.len() - i,
    {
        if i > 0 {
            push_byte(out, 44);
        }
        append_quoted(out, items[i].as_slice());
        proof {
            assert(all[i as int] == items@[i as int]@);
            assert(all.take(i as int + 1).drop_last() =~= all.take(i as int));
            assert(all.take(i as int + 1).last() == all[i as int]);
            if i == 0 {
                assert(join_quoted(all.take(1)) == quoted(all[0]));
            }
            assert(out@ =~= old(out)@ + seq![91u8] + join_quoted(all.take(i as int + 1)));
        }
        i += 1;
    }
    proof {
        assert(all.take(all.len() as int) =~= all);
    }
    out.push(93);
    proof {
        assert(out@ =~= old(out)@ + render_array(all));
    }
}

/// Renders a frame to its canonical JSON form.
pub fn encode_frame(f: &Frame) -> (out: Vec<u8>)
    ensures
        out@ == render_frame(f@),
{
    let mut out: Vec<u8> = Vec::new();
    proof {
        assert(out@ + seq![123u8] =~= seq![123u8]);
    }
    push_byte(&mut out, 123);
    append_key(&mut out, &[105, 100]);
    proof {
        assert([105u8, 100u8]@ =~= k_id());
    }
    append_quoted(&mut out, f.id.as_slice());
    push_byte(&mut out, 44);
    append_key(
        &mut out,
        &[99, 111, 110, 118, 101, 114, 115, 97, 116, 105, 111, 110, 95, 105, 100],
    );
    proof {
        assert([99u8, 111u8, 110u8, 118u8, 101u8, 114u8, 115u8, 97u8, 116u8, 105u8, 111u8, 110u8, 95u8, 105u8, 100u8]@ =~= k_conversation_id());
    }
    append_quoted(&mut out, f.conversation_id.as_slice());
    push_byte(&mut out, 44);
    append_key(&mut out, &[115, 101, 110, 100, 101, 114]);
    proof {
        assert([115u8, 101u8, 110u8, 100u8, 101u8, 114u8]@ =~= k_sender());
    }
    append_quoted(&mut out, f.sender.as_slice());
    push_byte(&mut out, 44);
    append_key(&mut out, &[116, 101, 120, 116]);
    proof {
        assert([116u8, 101u8, 120u8, 116u8]@ =~= k_text());
    }
    append_quoted(&mut out, f.text.as_slice());
    push_byte(&mut out, 44);
    append_key(&mut out, &[99, 114, 101, 97, 116, 101, 100, 95, 97, 116]);
    proof {
        assert([99u8, 114u8, 101u8, 97u8, 116u8, 101u8, 100u8, 95u8, 97u8, 116u8]@ =~= k_created_at());
    }
    append_dec(&mut out, f.created_at);
    push_byte(&mut out, 44);
    append_key(
        &mut out,
        &[99, 111, 110, 102, 105, 100, 101, 110, 99, 101, 95, 109, 105, 108, 108, 105],
    );
    proof {
        assert([99u8, 111u8, 110u8, 102u8, 105u8, 100u8, 101u8, 110u8, 99u8, 101u8, 95u8, 109u8, 105u8, 108u8, 108u8, 105u8]@ =~= k_confidence_milli());
    }
    append_dec(&mut out, f.confidence_milli as u64);
    push_byte(&mut out, 44);
    append_key(
        &mut out,
        &[110, 101, 101, 100, 115, 95, 99, 108, 97, 114, 105, 102, 105, 99, 97, 116, 105, 111, 110],
    );
    proof {
        assert([110u8, 101u8, 101u8, 100u8, 115u8, 95u8, 99u8, 108u8, 97u8, 114u8, 105u8, 102u8, 105u8, 99u8, 97u8, 116u8, 105u8, 111u8, 110u8]@ =~= k_needs_clarification());
    }
    append_bool(&mut out, f.needs_clarification);
    push_byte(&mut out, 44);
    append_key(&mut out, &[97, 116, 116, 97, 99, 104, 109, 101, 110, 116, 115]);
    proof {
        assert([97u8, 116u8, 116u8, 97u8, 99u8, 104u8, 109u8, 101u8, 110u8, 116u8, 115u8]@ =~= k_attachments());
    }
    append_array(&mut out, &f.attachments);
    push_byte(&mut out, 44);
    append_key(&mut out, &[109, 101, 116, 97, 100, 97, 116, 97]);
    proof {
        assert([109u8, 101u8, 116u8, 97u8, 100u8, 97u8, 116u8, 97u8]@ =~= k_metadata());
    }
    append_quoted(&mut out, f.metadata.as_slice());
    push_byte(&mut out, 125);
    out
}

/// Renders a terminal transport error to its canonical JSON form.
pub fn encode_error(e: &[u8]) -> (out: Vec<u8>)
    ensures
        out@ == render_error(e@),
{
    let mut out: Vec<u8> = Vec::new();
    proof {
        assert(out@ + seq![123u8] =~= seq![123u8]);
    }
    push_byte(&mut out, 123);
    append_key(&mut out, &[101, 114, 114, 111, 114]);
    proof {
        assert([101u8, 114u8, 114u8, 111u8, 114u8]@ =~= k_error());
    }
    append_quoted(&mut out, e);
    push_byte(&mut out, 125);
    out
}

} // verus!
