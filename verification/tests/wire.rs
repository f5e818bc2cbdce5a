use quicrepl::channel::{greeting, outcome_error, run_channel, ChannelOutcome};
use quicrepl::errors::ProtocolError;
use quicrepl::frame::{
    decode_prefix, encode_frame, encode_prefix, parse_frame, terminator_frame, FrameParse,
};

fn frame_of(payload: &[u8]) -> Vec<u8> {
    let mut f = encode_prefix(payload.len() as u32);
    f.extend_from_slice(payload);
    f
}

#[test]
fn prefix_encodes_big_endian() {
    assert_eq!(encode_prefix(0x01020304), vec![1, 2, 3, 4]);
    assert_eq!(encode_prefix(0), vec![0, 0, 0, 0]);
    assert_eq!(encode_prefix(u32::MAX), vec![255, 255, 255, 255]);
    assert_eq!(encode_prefix(4), vec![0, 0, 0, 4]);
}

#[test]
fn prefix_decodes_back() {
    assert_eq!(decode_prefix(&[1, 2, 3, 4]), 0x01020304);
    assert_eq!(decode_prefix(&[0, 0, 0, 0]), 0);
    assert_eq!(decode_prefix(&encode_prefix(0xdeadbeef)), 0xdeadbeef);
}

#[test]
fn frame_encodes_prefix_then_payload() {
    let f = encode_frame(b"ping");
    assert_eq!(f, vec![0, 0, 0, 4, 112, 105, 110, 103]);
}

#[test]
fn empty_payload_encodes_terminator() {
    assert_eq!(encode_frame(b""), vec![0, 0, 0, 0]);
    assert_eq!(terminator_frame(), vec![0, 0, 0, 0]);
}

#[test]
fn frame_round_trip() {
    let payload = b"the quick brown fox";
    let encoded = encode_frame(payload);
    match parse_frame(&encoded) {
        FrameParse::Frame(p, consumed) => {
            assert_eq!(p, payload.to_vec());
            assert_eq!(consumed, encoded.len());
        },
        _ => panic!("a non-empty payload must parse back as a frame"),
    }
}

#[test]
fn parse_reports_incomplete_frames() {
    assert!(matches!(parse_frame(&vec![0, 0]), FrameParse::NeedMore));
    assert!(matches!(parse_frame(&vec![0, 0, 0, 9, 1, 2]), FrameParse::NeedMore));
    assert!(matches!(parse_frame(&vec![0, 0, 0, 0, 7, 7]), FrameParse::Terminator));
}

#[test]
fn greeting_names_the_peer() {
    let g = greeting(&b"127.0.0.1:4433".to_vec());
    assert_eq!(g, b"Hello, 127.0.0.1:4433!".to_vec());
}

#[test]
fn terminator_ends_exchange_without_response() {
    let remote = b"127.0.0.1:4433".to_vec();
    let (responses, outcome) = run_channel(&vec![0, 0, 0, 0], false, &remote);
    assert_eq!(responses.len(), 0);
    assert_eq!(outcome, ChannelOutcome::TerminatorEnd);
    assert_eq!(outcome_error(outcome), None);
}

#[test]
fn terminator_ignores_trailing_bytes() {
    let remote = b"127.0.0.1:4433".to_vec();
    let mut input = vec![0, 0, 0, 0];
    input.extend_from_slice(&frame_of(b"late"));
    let (responses, outcome) = run_channel(&input, true, &remote);
    assert_eq!(responses.len(), 0);
    assert_eq!(outcome, ChannelOutcome::TerminatorEnd);
}

#[test]
fn short_prefix_on_closed_channel_is_truncated() {
    let remote = b"peer".to_vec();
    let (responses, outcome) = run_channel(&vec![0, 0, 9], true, &remote);
    assert_eq!(responses.len(), 0);
    assert_eq!(outcome, ChannelOutcome::Truncated);
    assert_eq!(outcome_error(outcome), Some(ProtocolError::Truncated));
}

#[test]
fn short_payload_on_closed_channel_is_truncated() {
    let remote = b"peer".to_vec();
    let (responses, outcome) = run_channel(&vec![0, 0, 0, 10, 1, 2, 3], true, &remote);
    assert_eq!(responses.len(), 0);
    assert_eq!(outcome, ChannelOutcome::Truncated);
}

#[test]
fn short_payload_on_open_channel_awaits_peer() {
    let remote = b"peer".to_vec();
    let (responses, outcome) = run_channel(&vec![0, 0, 0, 10, 1, 2, 3], false, &remote);
    assert_eq!(responses.len(), 0);
    assert_eq!(outcome, ChannelOutcome::AwaitingPeer);
}

#[test]
fn clean_end_between_frames() {
    let remote = b"peer".to_vec();
    let input = frame_of(b"hi");
    let (responses, outcome) = run_channel(&input, true, &remote);
    assert_eq!(responses.len(), 1);
    assert_eq!(outcome, ChannelOutcome::CleanEnd);
}

#[test]
fn invalid_utf8_request_reports_invalid_encoding() {
    let remote = b"peer".to_vec();
    let input = frame_of(&[0xff, 0xfe]);
    let (responses, outcome) = run_channel(&input, true, &remote);
    assert_eq!(responses.len(), 0);
    assert_eq!(outcome, ChannelOutcome::InvalidEncoding);
    assert_eq!(outcome_error(outcome), Some(ProtocolError::InvalidEncoding));
}

#[test]
fn ping_exchange_end_to_end() {
    // A client sends the four request bytes "ping" on one channel, then the
    // zero-length terminator; the server side answers with one framed
    // greeting naming the client's address and ends without error.
    let remote = b"127.0.0.1:52814".to_vec();
    let mut input = frame_of(b"ping");
    input.extend_from_slice(&terminator_frame());
    let (responses, outcome) = run_channel(&input, true, &remote);
    assert_eq!(responses.len(), 1);
    assert_eq!(responses[0], frame_of(b"Hello, 127.0.0.1:52814!"));
    assert_eq!(outcome, ChannelOutcome::TerminatorEnd);
    assert_eq!(outcome_error(outcome), None);
}

#[test]
fn fifty_channels_no_cross_talk() {
    // Fifty independent channels on one connection, each carrying its own
    // request: every one gets exactly its own greeting back.
    let remote = b"10.1.2.3:40000".to_vec();
    let expected = frame_of(b"Hello, 10.1.2.3:40000!");
    let mut runs: Vec<(Vec<Vec<u8>>, ChannelOutcome)> = Vec::new();
    for i in 0..50u32 {
        let payload = format!("request number {i}");
        let mut input = frame_of(payload.as_bytes());
        input.extend_from_slice(&terminator_frame());
        runs.push(run_channel(&input, true, &remote));
    }
    assert_eq!(runs.len(), 50);
    for (responses, outcome) in runs {
        assert_eq!(responses.len(), 1);
        assert_eq!(responses[0], expected);
        assert_eq!(outcome, ChannelOutcome::TerminatorEnd);
    }
}

#[test]
fn multiple_requests_get_one_response_each() {
    let remote = b"[::1]:4433".to_vec();
    let mut input = frame_of(b"one");
    input.extend_from_slice(&frame_of(b"two"));
    input.extend_from_slice(&frame_of(b"three"));
    input.extend_from_slice(&terminator_frame());
    let (responses, outcome) = run_channel(&input, true, &remote);
    assert_eq!(responses.len(), 3);
    for r in &responses {
        assert_eq!(*r, frame_of(b"Hello, [::1]:4433!"));
    }
    assert_eq!(outcome, ChannelOutcome::TerminatorEnd);
}
