use minion::msg::{encode, encode_exec, Envelope, ExecRequest, OpKind};
use minion::protocol::{Connection, Frame, Step};

fn new_ready_connection() -> Connection {
    let mut conn = Connection::new(vec![7u8; 16], b"http://127.0.0.1:3000".to_vec());
    let auth = conn.on_handshake();
    // The unsolicited first message is the Auth envelope carrying the identity.
    assert_eq!(auth, {
        let mut expect = vec![0u8];
        expect.extend_from_slice(&[7u8; 16]);
        expect
    });
    assert!(conn.is_ready());
    conn
}

fn exec_frame(req: &ExecRequest) -> Frame {
    Frame::Binary(encode(&Envelope {
        op: OpKind::Exec,
        payload: encode_exec(req),
    }))
}

fn wat(src: &str) -> Vec<u8> {
    wasmer::wat2wasm(src.as_bytes()).unwrap().to_vec()
}

const RETURNS_TWO: &str =
    r#"(module (func (export "run") (result i32 i32) i32.const 1 i32.const -1))"#;
const NEEDS_IMPORT: &str = r#"(module (import "env" "f" (func)) (func (export "run")))"#;
const NO_ENTRY: &str = r#"(module (func (export "other")))"#;
const TRAPS: &str = r#"(module (func (export "run") unreachable))"#;
const RETURNS_I64: &str = r#"(module (func (export "run") (result i64) i64.const 5))"#;

#[test]
fn handshake_sends_auth_first() {
    let mut conn = Connection::new(vec![3u8; 16], b"http://base".to_vec());
    assert!(!conn.is_ready());
    let auth = conn.on_handshake();
    assert_eq!(auth[0], 0); // the Auth tag
    assert_eq!(&auth[1..], &[3u8; 16]);
    assert!(conn.is_ready());
}

#[test]
fn inline_module_runs_and_returns_values() {
    let mut conn = new_ready_connection();
    let step = conn.on_frame(exec_frame(&ExecRequest::Inline(wat(RETURNS_TWO))));
    match step {
        Step::Reply(bytes) => {
            // Ret tag, then 1 and -1 in fixed-width native-endian form.
            assert_eq!(
                bytes,
                vec![2u8, 0x01, 0x00, 0x00, 0x00, 0xFF, 0xFF, 0xFF, 0xFF]
            );
        }
        _ => panic!("expected a reply"),
    }
    assert!(conn.is_ready());
}

#[test]
fn inline_bad_bytes_reply_bad_code() {
    let mut conn = new_ready_connection();
    let step = conn.on_frame(exec_frame(&ExecRequest::Inline(vec![9, 9, 9])));
    match step {
        Step::Reply(bytes) => assert_eq!(bytes, vec![3, 0]),
        _ => panic!("expected a reply"),
    }
    assert!(conn.is_ready());
}

#[test]
fn unmet_import_replies_error_and_keeps_connection() {
    let mut conn = new_ready_connection();
    let step = conn.on_frame(exec_frame(&ExecRequest::Inline(wat(NEEDS_IMPORT))));
    match step {
        Step::Reply(bytes) => assert_eq!(bytes, vec![3, 0]),
        _ => panic!("expected a reply"),
    }
    // Not a connection close: the next request is still answered.
    assert!(conn.is_ready());
    match conn.on_frame(exec_frame(&ExecRequest::Inline(wat(RETURNS_TWO)))) {
        Step::Reply(bytes) => assert_eq!(bytes[0], 2),
        _ => panic!("expected a reply"),
    }
}

#[test]
fn missing_entry_point_replies_bad_run() {
    let mut conn = new_ready_connection();
    match conn.on_frame(exec_frame(&ExecRequest::Inline(wat(NO_ENTRY)))) {
        Step::Reply(bytes) => assert_eq!(bytes, vec![3, 1]),
        _ => panic!("expected a reply"),
    }
    assert!(conn.is_ready());
}

#[test]
fn trapping_entry_point_replies_bad_run() {
    let mut conn = new_ready_connection();
    match conn.on_frame(exec_frame(&ExecRequest::Inline(wat(TRAPS)))) {
        Step::Reply(bytes) => assert_eq!(bytes, vec![3, 1]),
        _ => panic!("expected a reply"),
    }
    assert!(conn.is_ready());
}

#[test]
fn non_integer_result_replies_bad_run() {
    let mut conn = new_ready_connection();
    match conn.on_frame(exec_frame(&ExecRequest::Inline(wat(RETURNS_I64)))) {
        Step::Reply(bytes) => assert_eq!(bytes, vec![3, 1]),
        _ => panic!("expected a reply"),
    }
    assert!(conn.is_ready());
}

#[test]
fn malformed_envelope_closes_without_reply() {
    let mut conn = new_ready_connection();
    match conn.on_frame(Frame::Binary(vec![9, 1, 2, 3])) {
        Step::Closed => {}
        _ => panic!("expected the connection to close"),
    }
    assert!(!conn.is_ready());
}

#[test]
fn empty_frame_closes_without_reply() {
    let mut conn = new_ready_connection();
    match conn.on_frame(Frame::Binary(vec![])) {
        Step::Closed => {}
        _ => panic!("expected the connection to close"),
    }
    assert!(!conn.is_ready());
}

#[test]
fn malformed_exec_discriminator_closes_without_reply() {
    let mut conn = new_ready_connection();
    match conn.on_frame(Frame::Binary(vec![1, 9, 1, 2])) {
        Step::Closed => {}
        _ => panic!("expected the connection to close"),
    }
    assert!(!conn.is_ready());
}

#[test]
fn non_exec_operations_are_ignored() {
    let mut conn = new_ready_connection();
    for op in [OpKind::Auth, OpKind::Ret, OpKind::Error] {
        let frame = Frame::Binary(encode(&Envelope {
            op,
            payload: vec![1, 2],
        }));
        match conn.on_frame(frame) {
            Step::Ignore => {}
            _ => panic!("expected the envelope to be ignored"),
        }
        assert!(conn.is_ready());
    }
}

#[test]
fn control_and_text_frames_are_ignored() {
    let mut conn = new_ready_connection();
    for frame in [Frame::Text, Frame::Ping, Frame::Pong] {
        match conn.on_frame(frame) {
            Step::Ignore => {}
            _ => panic!("expected the frame to be ignored"),
        }
        assert!(conn.is_ready());
    }
}

#[test]
fn close_frame_ends_the_connection() {
    let mut conn = new_ready_connection();
    match conn.on_frame(Frame::Close) {
        Step::Closed => {}
        _ => panic!("expected the connection to close"),
    }
    assert!(!conn.is_ready());
}

#[test]
fn uri_request_fetches_once_then_serves_from_cache() {
    let mut conn = new_ready_connection();
    let mut fetches = 0;

    // First request: a fetch is asked for, prefixed with the base address.
    let addr = match conn.on_frame(exec_frame(&ExecRequest::Uri(b"/m.wat".to_vec()))) {
        Step::Fetch(addr) => {
            fetches += 1;
            addr
        }
        _ => panic!("expected a fetch"),
    };
    assert_eq!(addr, b"http://127.0.0.1:3000/m.wat".to_vec());

    // The fetched body arrives; the one reply for the first request.
    let reply = conn.on_fetch_result(Some(RETURNS_TWO.as_bytes().to_vec()));
    assert_eq!(reply[0], 2);
    assert!(conn.is_ready());

    // Second request for the same reference: answered from the cache, no fetch.
    match conn.on_frame(exec_frame(&ExecRequest::Uri(b"/m.wat".to_vec()))) {
        Step::Reply(bytes) => assert_eq!(
            bytes,
            vec![2u8, 0x01, 0x00, 0x00, 0x00, 0xFF, 0xFF, 0xFF, 0xFF]
        ),
        Step::Fetch(_) => panic!("a second fetch was issued for a cached reference"),
        _ => panic!("expected a reply"),
    }
    assert_eq!(fetches, 1);
}

#[test]
fn failed_fetch_is_cached_and_not_retried() {
    let mut conn = new_ready_connection();
    match conn.on_frame(exec_frame(&ExecRequest::Uri(b"/gone".to_vec()))) {
        Step::Fetch(_) => {}
        _ => panic!("expected a fetch"),
    }
    // The fetch fails: the failure is recorded and answered as bad code.
    let reply = conn.on_fetch_result(None);
    assert_eq!(reply, vec![3, 0]);
    assert!(conn.is_ready());

    // Each later request for the same reference is answered from the cached
    // failure, with no re-fetch.
    for _ in 0..2 {
        match conn.on_frame(exec_frame(&ExecRequest::Uri(b"/gone".to_vec()))) {
            Step::Reply(bytes) => assert_eq!(bytes, vec![3, 0]),
            Step::Fetch(_) => panic!("a failed reference was fetched again"),
            _ => panic!("expected a reply"),
        }
    }
}

#[test]
fn fetched_body_that_does_not_compile_is_cached_as_failure() {
    let mut conn = new_ready_connection();
    match conn.on_frame(exec_frame(&ExecRequest::Uri(b"/bad".to_vec()))) {
        Step::Fetch(_) => {}
        _ => panic!("expected a fetch"),
    }
    let reply = conn.on_fetch_result(Some(b"not a module".to_vec()));
    assert_eq!(reply, vec![3, 0]);
    match conn.on_frame(exec_frame(&ExecRequest::Uri(b"/bad".to_vec()))) {
        Step::Reply(bytes) => assert_eq!(bytes, vec![3, 0]),
        _ => panic!("expected a cached failure reply"),
    }
}

#[test]
fn distinct_references_are_fetched_separately() {
    let mut conn = new_ready_connection();
    match conn.on_frame(exec_frame(&ExecRequest::Uri(b"/a".to_vec()))) {
        Step::Fetch(addr) => assert_eq!(addr, b"http://127.0.0.1:3000/a".to_vec()),
        _ => panic!("expected a fetch"),
    }
    conn.on_fetch_result(Some(RETURNS_TWO.as_bytes().to_vec()));
    match conn.on_frame(exec_frame(&ExecRequest::Uri(b"/b".to_vec()))) {
        Step::Fetch(addr) => assert_eq!(addr, b"http://127.0.0.1:3000/b".to_vec()),
        _ => panic!("expected a fetch for the distinct reference"),
    }
}

#[test]
fn entry_with_no_results_yields_empty_ret_payload() {
    let mut conn = new_ready_connection();
    let empty_run = r#"(module (func (export "run")))"#;
    match conn.on_frame(exec_frame(&ExecRequest::Inline(wat(empty_run)))) {
        Step::Reply(bytes) => assert_eq!(bytes, vec![2u8]),
        _ => panic!("expected a reply"),
    }
    assert!(conn.is_ready());
}
