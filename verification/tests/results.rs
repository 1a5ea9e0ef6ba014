use minion::sandbox::{settle_call, CallOutcome, ExecError};
use minion::values::{collect_i32s, encode_results};

#[test]
fn results_concatenate_fixed_width_bytes_in_call_order() {
    // The documented example: [1, -1] on a little-endian host.
    let payload = encode_results(&vec![1, -1]);
    assert_eq!(payload, vec![0x01, 0x00, 0x00, 0x00, 0xFF, 0xFF, 0xFF, 0xFF]);
}

#[test]
fn results_match_native_byte_order() {
    let vals: Vec<i32> = vec![7, -2, 0x1234_5678, i32::MIN, i32::MAX];
    let payload = encode_results(&vals);
    let mut expect: Vec<u8> = Vec::new();
    for v in &vals {
        expect.extend_from_slice(&v.to_ne_bytes());
    }
    assert_eq!(payload, expect);
}

#[test]
fn results_empty_sequence_is_empty_payload() {
    assert!(encode_results(&vec![]).is_empty());
}

#[test]
fn collect_accepts_all_integers() {
    let vals = vec![Some(1), Some(-5), Some(0)];
    assert_eq!(collect_i32s(&vals).unwrap(), vec![1, -5, 0]);
}

#[test]
fn collect_rejects_any_non_integer() {
    let vals = vec![Some(1), None, Some(3)];
    assert!(collect_i32s(&vals).is_none());
}

#[test]
fn settle_reports_trap() {
    match settle_call(CallOutcome::Trapped) {
        Err(ExecError::Trapped) => {}
        other => panic!("expected a trap error, got {:?}", other.err()),
    }
}

#[test]
fn settle_reports_non_integer_result() {
    match settle_call(CallOutcome::Returned(vec![Some(1), None])) {
        Err(ExecError::NonIntegerResult) => {}
        other => panic!("expected a non-integer error, got {:?}", other.err()),
    }
}

#[test]
fn settle_returns_values_in_order() {
    let got = settle_call(CallOutcome::Returned(vec![Some(3), Some(1), Some(2)])).unwrap();
    assert_eq!(got, vec![3, 1, 2]);
}
