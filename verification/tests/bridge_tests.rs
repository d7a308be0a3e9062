use stream_bridge::bridge::{
    prepare, pump_chunk, BridgeConfig, MessageInput, StartError, StartPlan, Transport,
};
use stream_bridge::frame::{encode_error, encode_frame, u64_to_dec, Frame, StreamItem};
use stream_bridge::history::{build_history_request, select_history};
use stream_bridge::lines::LineBuffer;
use stream_bridge::operation::{OpPhase, Operation};
use stream_bridge::upload::{decode_upload, UploadError};

fn sample_frame() -> Frame {
    Frame {
        id: b"m1".to_vec(),
        conversation_id: b"c1".to_vec(),
        sender: b"worker".to_vec(),
        text: b"hi".to_vec(),
        created_at: 5,
        confidence_milli: 950,
        needs_clarification: false,
        attachments: vec![b"a.pdf".to_vec()],
        metadata: b"".to_vec(),
    }
}

fn history_frame(i: usize) -> Frame {
    Frame {
        id: format!("m{}", i).into_bytes(),
        conversation_id: b"c1".to_vec(),
        sender: b"user".to_vec(),
        text: format!("message {}", i).into_bytes(),
        created_at: i as u64,
        confidence_milli: 0,
        needs_clarification: false,
        attachments: vec![],
        metadata: b"".to_vec(),
    }
}

#[test]
fn lines_single_chunk() {
    let mut buf = LineBuffer::new();
    let out = buf.push_chunk(b"a\nb\nc\n");
    assert_eq!(out, vec![b"a".to_vec(), b"b".to_vec(), b"c".to_vec()]);
    assert_eq!(buf.finish(), None);
}

#[test]
fn lines_chunk_boundaries_do_not_matter() {
    // The same byte stream, cut three different ways, yields the same lines.
    let whole: &[u8] = b"first line\nsecond\n\nlast";
    let cuts: [&[usize]; 3] = [&[], &[3, 11, 12], &[1, 2, 3, 4, 5, 6, 7]];
    let mut results: Vec<Vec<Vec<u8>>> = Vec::new();
    for cut in cuts {
        let mut buf = LineBuffer::new();
        let mut lines: Vec<Vec<u8>> = Vec::new();
        let mut prev = 0usize;
        for &at in cut {
            lines.extend(buf.push_chunk(&whole[prev..at]));
            prev = at;
        }
        lines.extend(buf.push_chunk(&whole[prev..]));
        if let Some(tail) = buf.finish() {
            lines.push(tail);
        }
        results.push(lines);
    }
    assert_eq!(results[0], results[1]);
    assert_eq!(results[1], results[2]);
    assert_eq!(
        results[0],
        vec![
            b"first line".to_vec(),
            b"second".to_vec(),
            b"".to_vec(),
            b"last".to_vec()
        ]
    );
}

#[test]
fn lines_trailing_partial_is_emitted_if_nonempty() {
    let mut buf = LineBuffer::new();
    let out = buf.push_chunk(b"done\npartial");
    assert_eq!(out, vec![b"done".to_vec()]);
    assert_eq!(buf.finish(), Some(b"partial".to_vec()));
    assert_eq!(buf.finish(), None);
}

#[test]
fn frame_encoding_exact() {
    let payload = encode_frame(&sample_frame());
    let expected = "{\"id\":\"m1\",\"conversation_id\":\"c1\",\"sender\":\"worker\",\"text\":\"hi\",\"created_at\":5,\"confidence_milli\":950,\"needs_clarification\":false,\"attachments\":[\"a.pdf\"],\"metadata\":\"\"}";
    assert_eq!(payload, expected.as_bytes().to_vec());
    // And it is real JSON with the same values.
    let v: serde_json::Value = serde_json::from_slice(&payload).unwrap();
    assert_eq!(v["id"].as_str(), Some("m1"));
    assert_eq!(v["created_at"].as_u64(), Some(5));
    assert_eq!(v["needs_clarification"].as_bool(), Some(false));
    assert_eq!(v["attachments"][0].as_str(), Some("a.pdf"));
}

#[test]
fn frame_encoding_escapes() {
    let mut f = sample_frame();
    f.text = b"say \"hi\"\\\n\tdone".to_vec();
    f.attachments = vec![];
    let payload = encode_frame(&f);
    let v: serde_json::Value = serde_json::from_slice(&payload).unwrap();
    assert_eq!(v["text"].as_str(), Some("say \"hi\"\\\n\tdone"));
    assert_eq!(v["attachments"].as_array().map(|a| a.len()), Some(0));
}

#[test]
fn error_encoding_exact() {
    let payload = encode_error(b"connect refused");
    assert_eq!(payload, b"{\"error\":\"connect refused\"}".to_vec());
}

#[test]
fn decimal_rendering_exact() {
    assert_eq!(u64_to_dec(0), b"0".to_vec());
    assert_eq!(u64_to_dec(7), b"7".to_vec());
    assert_eq!(u64_to_dec(1234567890), b"1234567890".to_vec());
    assert_eq!(
        u64_to_dec(u64::MAX),
        b"18446744073709551615".to_vec()
    );
}

#[test]
fn operation_streams_lines_in_order() {
    // A worker that emits "a", "b", "c" and closes: exactly three emissions,
    // in that order, then none.
    let mut op = Operation::new(b"c1".to_vec());
    assert_eq!(op.tag_bytes(), &b"c1".to_vec());
    op.start_ok();
    let mut buf = LineBuffer::new();
    let payloads = pump_chunk(&mut op, &mut buf, b"a\nb\nc\n");
    assert_eq!(payloads, vec![b"a".to_vec(), b"b".to_vec(), b"c".to_vec()]);
    op.on_end();
    assert_eq!(op.phase_of(), OpPhase::Completed);
    assert_eq!(op.on_item(StreamItem::Line(b"late".to_vec())), None);
}

#[test]
fn operation_forwards_frames_in_order() {
    let mut op = Operation::new(b"c1".to_vec());
    op.start_ok();
    let first = op.on_item(StreamItem::Line(b"ready".to_vec())).unwrap();
    let second = op.on_item(StreamItem::Frame(sample_frame())).unwrap();
    assert_eq!(first, b"ready".to_vec());
    assert_eq!(second, encode_frame(&sample_frame()));
}

#[test]
fn failed_start_emits_nothing() {
    let mut op = Operation::new(b"c1".to_vec());
    op.start_failed();
    assert_eq!(op.phase_of(), OpPhase::Failed);
    assert_eq!(op.on_item(StreamItem::Line(b"x".to_vec())), None);
    let mut buf = LineBuffer::new();
    let payloads = pump_chunk(&mut op, &mut buf, b"a\nb\n");
    assert_eq!(payloads, Vec::<Vec<u8>>::new());
}

#[test]
fn cancel_stops_forwarding_and_releases() {
    let mut op = Operation::new(b"c1".to_vec());
    op.start_ok();
    let emitted = op.on_item(StreamItem::Line(b"one".to_vec()));
    assert_eq!(emitted, Some(b"one".to_vec()));
    let release = op.cancel();
    assert!(release);
    assert_eq!(op.phase_of(), OpPhase::Cancelled);
    assert_eq!(op.on_item(StreamItem::Line(b"two".to_vec())), None);
    // A second stop request finds no resource left to release.
    assert!(!op.cancel());
}

#[test]
fn transport_error_is_terminal_emission() {
    let mut op = Operation::new(b"c1".to_vec());
    op.start_ok();
    let terminal = op.on_error(b"pipe broken").unwrap();
    assert_eq!(terminal, b"{\"error\":\"pipe broken\"}".to_vec());
    assert_eq!(op.phase_of(), OpPhase::Failed);
    assert_eq!(op.on_item(StreamItem::Line(b"x".to_vec())), None);
    assert_eq!(op.on_error(b"again"), None);
}

#[test]
fn prepare_builds_subprocess_plan() {
    let config = BridgeConfig {
        transport: Transport::Subprocess {
            program: b"worker.py".to_vec(),
        },
        backend_addr: b"127.0.0.1:50051".to_vec(),
    };
    let message = MessageInput {
        conversation_id: b"c1".to_vec(),
        sender: b"user".to_vec(),
        text: b"hello".to_vec(),
        attachments: vec![],
    };
    match prepare(config, message).unwrap() {
        StartPlan::Spawn { program, args } => {
            assert_eq!(program, b"worker.py".to_vec());
            assert_eq!(
                args,
                vec![
                    b"--addr".to_vec(),
                    b"127.0.0.1:50051".to_vec(),
                    b"--conversation".to_vec(),
                    b"c1".to_vec(),
                    b"--sender".to_vec(),
                    b"user".to_vec(),
                    b"--text".to_vec(),
                    b"hello".to_vec(),
                ]
            );
        }
        StartPlan::Connect { .. } => panic!("expected a subprocess plan"),
    }
}

#[test]
fn prepare_builds_rpc_request() {
    let config = BridgeConfig {
        transport: Transport::Rpc,
        backend_addr: b"http://127.0.0.1:50051".to_vec(),
    };
    let message = MessageInput {
        conversation_id: b"c7".to_vec(),
        sender: b"user".to_vec(),
        text: b"question".to_vec(),
        attachments: vec![b"in.pdf".to_vec()],
    };
    match prepare(config, message).unwrap() {
        StartPlan::Connect { addr, request } => {
            assert_eq!(addr, b"http://127.0.0.1:50051".to_vec());
            assert!(request.stream_responses);
            assert_eq!(request.conversation_id, b"c7".to_vec());
            assert_eq!(request.message.id, b"".to_vec());
            assert_eq!(request.message.conversation_id, b"c7".to_vec());
            assert_eq!(request.message.sender, b"user".to_vec());
            assert_eq!(request.message.text, b"question".to_vec());
            assert_eq!(request.message.created_at, 0);
            assert_eq!(request.message.confidence_milli, 0);
            assert!(!request.message.needs_clarification);
            assert_eq!(request.message.attachments, vec![b"in.pdf".to_vec()]);
        }
        StartPlan::Spawn { .. } => panic!("expected an rpc plan"),
    }
}

#[test]
fn prepare_rejects_empty_program() {
    let config = BridgeConfig {
        transport: Transport::Subprocess { program: vec![] },
        backend_addr: b"127.0.0.1:50051".to_vec(),
    };
    let message = MessageInput {
        conversation_id: b"c1".to_vec(),
        sender: b"user".to_vec(),
        text: b"hello".to_vec(),
        attachments: vec![],
    };
    match prepare(config, message) {
        Err(e) => assert_eq!(e, StartError::EmptyProgram),
        Ok(_) => panic!("expected a configuration error"),
    }
}

#[test]
fn prepare_rejects_empty_address() {
    let config = BridgeConfig {
        transport: Transport::Rpc,
        backend_addr: vec![],
    };
    let message = MessageInput {
        conversation_id: b"c1".to_vec(),
        sender: b"user".to_vec(),
        text: b"hello".to_vec(),
        attachments: vec![],
    };
    match prepare(config, message) {
        Err(e) => assert_eq!(e, StartError::EmptyAddress),
        Ok(_) => panic!("expected a configuration error"),
    }
}

#[test]
fn history_returns_all_five_and_is_idempotent() {
    let limit = 200u64;
    let offset = 0u64;
    let first = select_history((0..5).map(history_frame).collect(), limit, offset);
    let second = select_history((0..5).map(history_frame).collect(), limit, offset);
    assert_eq!(first.len(), 5);
    assert_eq!(second.len(), 5);
    for i in 0..5 {
        assert_eq!(first[i].id, format!("m{}", i).into_bytes());
        assert_eq!(first[i].id, second[i].id);
        assert_eq!(first[i].text, second[i].text);
        assert_eq!(first[i].created_at, i as u64);
    }
}

#[test]
fn history_window_respects_limit_and_offset() {
    let page = select_history((0..5).map(history_frame).collect(), 2, 2);
    assert_eq!(page.len(), 2);
    assert_eq!(page[0].id, b"m2".to_vec());
    assert_eq!(page[1].id, b"m3".to_vec());
    let empty = select_history((0..5).map(history_frame).collect(), 2, 9);
    assert_eq!(empty.len(), 0);
}

#[test]
fn history_request_carries_its_inputs() {
    let r = build_history_request(b"c1".to_vec(), 200, 0);
    assert_eq!(r.conversation_id, b"c1".to_vec());
    assert_eq!(r.limit, 200);
    assert_eq!(r.offset, 0);
}

#[test]
fn upload_decodes_base64() {
    assert_eq!(decode_upload(b"aGVsbG8="), Ok(b"hello".to_vec()));
    assert_eq!(decode_upload(b""), Ok(vec![]));
}

#[test]
fn upload_rejects_invalid_base64() {
    assert_eq!(decode_upload(b"!!!"), Err(UploadError::InvalidBase64));
    assert_eq!(decode_upload(b"aGVsbG8"), Err(UploadError::InvalidBase64));
}
