//! Server-sent-event framing and scanning on bytes.

use multilink::sse::{sse_frame, sse_line_data, take_line};

#[test]
fn frame_shape() {
    let payload = b"{\"result\":{\"character\":\"H\"},\"error\":null}".to_vec();
    let frame = sse_frame(&payload);
    let mut expected = b"data: ".to_vec();
    expected.extend_from_slice(&payload);
    expected.extend_from_slice(b"\n\n");
    assert_eq!(frame, expected);
}

#[test]
fn empty_payload_frame() {
    let frame = sse_frame(&Vec::new());
    assert_eq!(frame, b"data: \n\n".to_vec());
}

#[test]
fn scanning_two_frames_yields_both_payloads_in_order() {
    let first = b"{\"result\":{\"character\":\"H\"},\"error\":null}".to_vec();
    let second = b"{\"result\":{\"character\":\"i\"},\"error\":null}".to_vec();
    let mut body = sse_frame(&first);
    body.extend_from_slice(&sse_frame(&second));

    let mut recovered: Vec<Vec<u8>> = Vec::new();
    let mut buffer = body;
    while let Some(line) = take_line(&mut buffer) {
        if let Some(data) = sse_line_data(&line) {
            recovered.push(data);
        }
    }
    assert!(buffer.is_empty());
    assert_eq!(recovered, vec![first, second]);
}

#[test]
fn take_line_splits_at_first_newline() {
    let mut buffer = b"one\ntwo\n".to_vec();
    assert_eq!(take_line(&mut buffer), Some(b"one\n".to_vec()));
    assert_eq!(buffer, b"two\n".to_vec());
    assert_eq!(take_line(&mut buffer), Some(b"two\n".to_vec()));
    assert!(buffer.is_empty());
    assert_eq!(take_line(&mut buffer), None);
}

#[test]
fn partial_line_waits_for_more_bytes() {
    let mut buffer = b"data: {\"res".to_vec();
    assert_eq!(take_line(&mut buffer), None);
    assert_eq!(buffer, b"data: {\"res".to_vec());
    buffer.extend_from_slice(b"t\":1}\n");
    let line = take_line(&mut buffer).expect("line should complete");
    assert_eq!(sse_line_data(&line), Some(b"{\"rest\":1}".to_vec()));
}

#[test]
fn non_data_lines_are_ignored() {
    assert_eq!(sse_line_data(&b"\n".to_vec()), None);
    assert_eq!(sse_line_data(&b"event: tick\n".to_vec()), None);
    assert_eq!(sse_line_data(&b"dat\n".to_vec()), None);
    assert_eq!(sse_line_data(&b"data:x\n".to_vec()), None);
}

#[test]
fn data_line_payload_is_exact() {
    assert_eq!(sse_line_data(&b"data: \n".to_vec()), Some(Vec::new()));
    assert_eq!(sse_line_data(&b"data: x\n".to_vec()), Some(b"x".to_vec()));
}
