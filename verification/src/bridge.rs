//! Bridge Orchestrator: the public entry point's decision core. It resolves
//! the configured transport into a concrete launch plan — the argument list
//! for a spawned worker subprocess, or the one streaming request for the
//! remote service — failing synchronously on a configuration error, before
//! any operation exists. It also drives the subprocess pump: one stdout
//! chunk in, the completed lines forwarded in order.
//!
//! The surrounding process executes the plan (spawn, connect, read) and
//! feeds what the worker produces back through [`crate::operation`]; the
//! decisions here involve no I/O.

use vstd::prelude::*;

use crate::frame::{render_item, Frame, FrameView, ItemView, StreamItem};
use crate::lines::{concat_chunks, feed, split_lines, LineBuffer};
use crate::operation::{run_items, OpPhase, Operation};

verus! {

/// Which worker transport a start request selects.
pub enum Transport {
    /// Spawn an external worker process and read its output lines.
    Subprocess { program: Vec<u8> },
    /// Open one streaming call to the remote service at the configured
    /// backend address.
    Rpc,
}

/// The configuration snapshot an operation starts from. The backend
/// address is copied in when the start is requested, so later
/// reconfiguration cannot race a running operation.
pub struct BridgeConfig {
    pub transport: Transport,
    pub backend_addr: Vec<u8>,
}

/// The chat message a start request carries, in plain values.
pub struct MessageInput {
    pub conversation_id: Vec<u8>,
    pub sender: Vec<u8>,
    pub text: Vec<u8>,
    pub attachments: Vec<Vec<u8>>,
}

/// The mathematical value of a `MessageInput`.
pub struct MessageInputView {
    pub conversation_id: Seq<u8>,
    pub sender: Seq<u8>,
    pub text: Seq<u8>,
    pub attachments: Seq<Seq<u8>>,
}

impl View for MessageInput {
    type V = MessageInputView;

    open spec fn view(&self) -> MessageInputView {
        MessageInputView {
            conversation_id: self.conversation_id@,
            sender: self.sender@,
            text: self.text@,
            attachments: self.attachments.deep_view(),
        }
    }
}

/// The one streaming request sent over the remote call.
pub struct SendRequest {
    pub conversation_id: Vec<u8>,
    pub message: Frame,
    pub stream_responses: bool,
}

/// What the caller must launch for this operation.
pub enum StartPlan {
    /// Spawn `program` with `args`, pipe its standard output.
    Spawn { program: Vec<u8>, args: Vec<Vec<u8>> },
    /// Connect to `addr` and issue `request` as one streaming call.
    Connect { addr: Vec<u8>, request: SendRequest },
}

/// A configuration error: the start request fails synchronously and no
/// operation is created.
#[derive(Clone, Copy, PartialEq, Eq, Structural, Debug)]
pub enum StartError {
    /// Subprocess transport with an empty program path.
    EmptyProgram,
    /// An empty backend address.
    EmptyAddress,
}

/// A configuration can start an operation iff the backend address is
/// non-empty and, in subprocess mode, the program path is non-empty too.
pub open spec fn config_valid(c: BridgeConfig) -> bool {
    c.backend_addr@.len() > 0 && match c.transport {
        Transport::Subprocess { program } => program@.len() > 0,
        Transport::Rpc => true,
    }
}

/// bytes of `--addr`
pub open spec fn a_addr() -> Seq<u8> {
    seq![45u8, 45u8, 97u8, 100u8, 100u8, 114u8]
}

/// bytes of `--conversation`
pub open spec fn a_conversation() -> Seq<u8> {
    seq![45u8, 45u8, 99u8, 111u8, 110u8, 118u8, 101u8, 114u8, 115u8, 97u8, 116u8, 105u8, 111u8, 110u8]
}

/// bytes of `--sender`
pub open spec fn a_sender() -> Seq<u8> {
    seq![45u8, 45u8, 115u8, 101u8, 110u8, 100u8, 101u8, 114u8]
}

/// bytes of `--text`
pub open spec fn a_text() -> Seq<u8> {
    seq![45u8, 45u8, 116u8, 101u8, 120u8, 116u8]
}

/// The worker subprocess's argument list: flag/value pairs for the backend
/// address, the conversation, the sender and the text, in that order.
pub open spec fn subprocess_args(addr: Seq<u8>, m: MessageInputView) -> Seq<Seq<u8>> {
    seq![a_addr(), addr, a_conversation(), m.conversation_id, a_sender(), m.sender, a_text(), m.text]
}

/// The message frame a streaming request carries: the caller's fields,
/// everything the worker fills in later left zero or empty.
pub open spec fn request_frame(m: MessageInputView) -> FrameView {
    FrameView {
        id: Seq::empty(),
        conversation_id: m.conversation_id,
        sender: m.sender,
        text: m.text,
        created_at: 0,
        confidence_milli: 0,
        needs_clarification: false,
        attachments: m.attachments,
        metadata: Seq::empty(),
    }
}

/// A fresh byte vector holding exactly `s`.
fn bytes_of(s: &[u8]) -> (out: Vec<u8>)
    ensures
        out@ == s@,
{
    let mut out: Vec<u8> = Vec::new();
    let mut i: usize = 0;
    while i < s.len()
        invariant
            i <= s.len(),
            out@ == s@.take(i as int),
        decreases s.len() - i,
    {
        out.push(s[i]);
        proof {
            assert(s@.take(i as int + 1) =~= s@.take(i as int).push(s@[i as int]));
        }
        i += 1;
    }
    proof {
        assert(s@.take(s@.len() as int) =~= s@);
    }
    out
}

/// Resolves a start request into the transport-specific launch plan, or a
/// configuration error. Purely a decision: no process is spawned and no
/// connection is opened here, so a rejected request has no side effect.
pub fn prepare(config: BridgeConfig, message: MessageInput) -> (r: Result<StartPlan, StartError>)
    ensures
        r is Ok <==> config_valid(config),
        match r {
            Ok(plan) => match plan {
                StartPlan::Spawn { program, args } => {
                    &&& config.transport matches Transport::Subprocess { program: p0 }
                        && program@ == p0@
                    &&& args.deep_view() == subprocess_args(config.backend_addr@, message@)
                },
                StartPlan::Connect { addr, request } => {
                    &&& config.transport is Rpc
                    &&& addr@ == config.backend_addr@
                    &&& request.conversation_id@ == message.conversation_id@
                    &&& request.message@ == request_frame(message@)
                    &&& request.stream_responses
                },
            },
            Err(e) => match config.transport {
                Transport::Subprocess { program } => if program@.len() == 0 {
                    e is EmptyProgram
                } else {
                    e is EmptyAddress
                },
                Transport::Rpc => e is EmptyAddress,
            },
        },
{
    let BridgeConfig { transport, backend_addr } = config;
    match transport {
        Transport::Subprocess { program } => {
            if program.len() == 0 {
                Err(StartError::EmptyProgram)
            } else if backend_addr.len() == 0 {
                Err(StartError::EmptyAddress)
            } else {
                let MessageInput { conversation_id, sender, text, attachments: _ } = message;
                let mut args: Vec<Vec<u8>> = Vec::new();
                args.push(bytes_of(&[45, 45, 97, 100, 100, 114]));
                args.push(backend_addr);
                args.push(bytes_of(&[45, 45, 99, 111, 110, 118, 101, 114, 115, 97, 116, 105, 111, 110]));
                args.push(conversation_id);
                args.push(bytes_of(&[45, 45, 115, 101, 110, 100, 101, 114]));
                args.push(sender);
                args.push(bytes_of(&[45, 45, 116, 101, 120, 116]));
                args.push(text);
                proof {
                    assert(args.deep_view() =~~= subprocess_args(
                        config.backend_addr@,
                        message@,
                    ));
                }
                Ok(StartPlan::Spawn { program, args })
            }
        },
        Transport::Rpc => {
            if backend_addr.len() == 0 {
                Err(StartError::EmptyAddress)
            } else {
                let MessageInput { conversation_id, sender, text, attachments } = message;
                let id_field = bytes_of(&[]);
                let cid_copy = bytes_of(conversation_id.as_slice());
                let metadata = bytes_of(&[]);
                let frame = Frame {
                    id: id_field,
                    conversation_id: conversation_id,
                    sender: sender,
                    text: text,
                    created_at: 0,
                    confidence_milli: 0,
                    needs_clarification: false,
                    attachments: attachments,
                    metadata: metadata,
                };
                let request = SendRequest {
                    conversation_id: cid_copy,
                    message: frame,
                    stream_responses: true,
                };
                proof {
                    assert(request.message@.id =~= Seq::<u8>::empty());
                    assert(request.message@.metadata =~= Seq::<u8>::empty());
                    assert(request.message@ == request_frame(message@));
                }
                Ok(StartPlan::Connect { addr: backend_addr, request })
            }
        },
    }
}

/// Subprocess pump step: feeds one stdout chunk through the operation's
/// line splitter and forwards every line the chunk completes, in order.
/// Returns the payloads actually emitted — all of the completed lines while
/// the operation is streaming, none once it is cancelled or finished.
pub fn pump_chunk(op: &mut Operation, buf: &mut LineBuffer, chunk: &[u8]) -> (payloads: Vec<
    Vec<u8>,
>)
    ensures
        ({
            let st = feed(Seq::empty(), old(buf)@, chunk@);
            let items = st.0.map_values(|l: Seq<u8>| ItemView::Line(l));
            let r = run_items(old(op).phase(), old(op).emitted(), items);
            &&& final(buf)@ == st.1
            &&& final(op).phase() == r.0
            &&& final(op).emitted() == r.1
            &&& final(op).emitted() == old(op).emitted() + payloads.deep_view()
        }),
{
    let ghost ph0 = old(op).phase();
    let ghost log0 = old(op).emitted();
    let mut rest = buf.push_chunk(chunk);
    let ghost all_lines = rest.deep_view();
    let ghost items = all_lines.map_values(|l: Seq<u8>| ItemView::Line(l));
    let mut payloads: Vec<Vec<u8>> = Vec::new();
    let ghost mut done: int = 0;
    proof {
        assert(items.skip(0) =~= items);
    }
    while rest.len() > 0
        invariant
            0 <= done <= all_lines.len(),
            all_lines.len() == items.len(),
            rest.len() == all_lines.len() - done,
            items == all_lines.map_values(|l: Seq<u8>| ItemView::Line(l)),
            rest.deep_view() == all_lines.skip(done),
            run_items(ph0, log0, items) == run_items(op.phase(), op.emitted(), items.skip(done)),
            op.emitted() == log0 + payloads.deep_view(),
        decreases rest.len(),
    {
        let ghost cur_ph = op.phase();
        let ghost cur_log = op.emitted();
        let ghost restpre = rest@;
        let ghost restpre_deep = rest.deep_view();
        let line = rest.remove(0);
        proof {
            assert(line.deep_view() == restpre_deep[0]);
            assert(line@ =~= line.deep_view());
            assert(restpre_deep[0] == all_lines.skip(done)[0]);
            assert(all_lines.skip(done)[0] == all_lines[done]);
            assert(line@ == all_lines[done]);
            assert forall|j: int| 0 <= j < rest@.len() implies #[trigger] rest.deep_view()[j]
                == all_lines.skip(done + 1)[j] by {
                assert(rest@[j] == restpre[j + 1]);
                assert(rest.deep_view()[j] == rest@[j].deep_view());
                assert(restpre_deep[j + 1] == restpre[j + 1].deep_view());
                assert(restpre_deep[j + 1] == all_lines.skip(done)[j + 1]);
                assert(all_lines.skip(done)[j + 1] == all_lines[done + 1 + j]);
            }
            assert(rest.deep_view() =~= all_lines.skip(done + 1));
        }
        let payload = op.on_item(StreamItem::Line(line));
        proof {
            assert(items.skip(done)[0] == items[done]);
            assert(items[done] == ItemView::Line(all_lines[done]));
            assert(items.skip(done).drop_first() =~= items.skip(done + 1));
            assert(run_items(cur_ph, cur_log, items.skip(done)) == run_items(
                op.phase(),
                op.emitted(),
                items.skip(done + 1),
            ));
        }
        match payload {
            Some(p) => {
                payloads.push(p);
                proof {
                    assert(op.emitted() =~~= log0 + payloads.deep_view());
                }
            },
            None => {},
        }
        proof {
            done = done + 1;
        }
    }
    proof {
        assert(items.skip(done) =~= Seq::<ItemView>::empty());
        assert(run_items(op.phase(), op.emitted(), items.skip(done)) == (
            op.phase(),
            op.emitted(),
        ));
        assert(all_lines.map_values(|l: Seq<u8>| ItemView::Line(l)) == items);
    }
    payloads
}

/// End to end for the subprocess transport: however the worker's output
/// stream is cut into chunks, a streaming operation emits exactly the
/// lines of the whole stream, unchanged and in order, and is still
/// streaming when the channel closes.
pub proof fn lemma_subprocess_end_to_end(log: Seq<Seq<u8>>, chunks: Seq<Seq<u8>>)
    ensures
        ({
            let lines = split_lines(concat_chunks(chunks));
            let r = run_items(
                OpPhase::Streaming,
                log,
                lines.map_values(|l: Seq<u8>| ItemView::Line(l)),
            );
            &&& r.0 is Streaming
            &&& r.1 == log + lines
        }),
{
    let lines = split_lines(concat_chunks(chunks));
    let items = lines.map_values(|l: Seq<u8>| ItemView::Line(l));
    crate::operation::lemma_stream_delivery(log, items);
    assert(items.map_values(|it: ItemView| render_item(it)) =~= lines);
}

} // verus!
