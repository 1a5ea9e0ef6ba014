use minion::msg::{
    decode, decode_exec, encode, encode_exec, error_reply, DecodeError, Envelope, ErrorKind,
    ExecRequest, OpKind,
};

#[test]
fn envelope_round_trip_each_kind() {
    let kinds = [OpKind::Auth, OpKind::Exec, OpKind::Ret, OpKind::Error];
    for op in kinds {
        let env = Envelope {
            op,
            payload: vec![9, 8, 7, 0, 255],
        };
        let wire = encode(&env);
        let back = decode(&wire).unwrap();
        assert_eq!(back.op, op);
        assert_eq!(back.payload, vec![9, 8, 7, 0, 255]);
    }
}

#[test]
fn envelope_round_trip_empty_payload() {
    let env = Envelope {
        op: OpKind::Ret,
        payload: vec![],
    };
    let wire = encode(&env);
    assert_eq!(wire, vec![2]);
    let back = decode(&wire).unwrap();
    assert_eq!(back.op, OpKind::Ret);
    assert!(back.payload.is_empty());
}

#[test]
fn encode_layout_is_tag_then_payload() {
    let env = Envelope {
        op: OpKind::Auth,
        payload: vec![1, 2, 3],
    };
    assert_eq!(encode(&env), vec![0, 1, 2, 3]);
    let env = Envelope {
        op: OpKind::Exec,
        payload: vec![42],
    };
    assert_eq!(encode(&env), vec![1, 42]);
}

#[test]
fn decode_rejects_empty_frame() {
    assert_eq!(decode(&vec![]).unwrap_err(), DecodeError::Empty);
}

#[test]
fn decode_rejects_unknown_tag() {
    assert_eq!(decode(&vec![4, 1, 2]).unwrap_err(), DecodeError::BadTag);
    assert_eq!(decode(&vec![255]).unwrap_err(), DecodeError::BadTag);
}

#[test]
fn exec_payload_round_trip_uri() {
    let wire = encode_exec(&ExecRequest::Uri(b"/mods/a.wasm".to_vec()));
    assert_eq!(wire[0], 0);
    match decode_exec(&wire).unwrap() {
        ExecRequest::Uri(u) => assert_eq!(u, b"/mods/a.wasm".to_vec()),
        ExecRequest::Inline(_) => panic!("decoded as inline"),
    }
}

#[test]
fn exec_payload_round_trip_inline() {
    let wire = encode_exec(&ExecRequest::Inline(vec![0, 97, 115, 109]));
    assert_eq!(wire[0], 1);
    match decode_exec(&wire).unwrap() {
        ExecRequest::Inline(b) => assert_eq!(b, vec![0, 97, 115, 109]),
        ExecRequest::Uri(_) => panic!("decoded as uri"),
    }
}

#[test]
fn exec_payload_rejects_empty_and_unknown_discriminator() {
    assert_eq!(decode_exec(&vec![]).unwrap_err(), DecodeError::Empty);
    assert_eq!(decode_exec(&vec![2, 1]).unwrap_err(), DecodeError::BadTag);
}

#[test]
fn error_reply_wire_form() {
    assert_eq!(error_reply(ErrorKind::BadCode), vec![3, 0]);
    assert_eq!(error_reply(ErrorKind::BadRun), vec![3, 1]);
}
