use dxil_sign::error::SignError;
use dxil_sign::header::{get_digest, has_digest};
use dxil_sign::signing::{accept_reply, plan_signing, sign_buffer, Outcome, Plan, ValidatorReply};

fn signed_input() -> Vec<u8> {
    let mut buffer = vec![0u8; 24];
    buffer[4] = 1;
    buffer[20..24].copy_from_slice(&[5, 6, 7, 8]);
    buffer
}

fn signed_output() -> Vec<u8> {
    let mut buffer = vec![0u8; 20];
    buffer[8..12].copy_from_slice(&[0xde, 0xad, 0xbe, 0xef]);
    buffer
}

#[test]
fn unsigned_input_is_submitted_unchanged() {
    let input = vec![0u8; 20];
    match plan_signing(input.clone(), false) {
        Ok(Plan::Submit(bytes)) => assert_eq!(bytes, input),
        other => panic!("unexpected plan {:?}", other),
    }
    let reply = ValidatorReply::Completed { output: signed_output(), diagnostics: Vec::new() };
    assert_eq!(accept_reply(reply), Ok(signed_output()));
}

#[test]
fn signed_input_without_force_is_left_alone() {
    match plan_signing(signed_input(), false) {
        Ok(Plan::AlreadySigned(digest)) => assert_eq!(digest, [1, 0, 0, 0]),
        other => panic!("unexpected plan {:?}", other),
    }
    match sign_buffer(signed_input(), false) {
        Ok(Outcome::AlreadySigned(digest)) => assert_eq!(digest, [1, 0, 0, 0]),
        other => panic!("unexpected outcome {:?}", other),
    }
}

#[test]
fn signed_input_with_force_is_cleared_before_submission() {
    match plan_signing(signed_input(), true) {
        Ok(Plan::Submit(bytes)) => {
            assert_eq!(has_digest(&bytes), Ok(false));
            assert_eq!(get_digest(&bytes), Ok([0, 0, 0, 0]));
            assert_eq!(&bytes[20..], &[5, 6, 7, 8]);
            assert_eq!(bytes.len(), 24);
        }
        other => panic!("unexpected plan {:?}", other),
    }
}

#[test]
fn unsigned_input_with_force_is_submitted_unchanged() {
    let mut input = vec![0u8; 22];
    input[0] = 3;
    input[21] = 4;
    match plan_signing(input.clone(), true) {
        Ok(Plan::Submit(bytes)) => assert_eq!(bytes, input),
        other => panic!("unexpected plan {:?}", other),
    }
}

#[test]
fn short_input_is_rejected_before_validation() {
    assert!(matches!(plan_signing(vec![0u8; 19], false), Err(SignError::InvalidData)));
    assert!(matches!(plan_signing(Vec::new(), true), Err(SignError::InvalidData)));
    assert!(matches!(sign_buffer(vec![1u8; 5], true), Err(SignError::InvalidData)));
}

#[test]
fn diagnostics_reject_the_result() {
    let reply = ValidatorReply::Completed {
        output: signed_output(),
        diagnostics: vec!["error: bad container".to_string()],
    };
    assert_eq!(accept_reply(reply), Err(SignError::InvalidData));
}

#[test]
fn unsigned_result_is_an_other_error() {
    let reply = ValidatorReply::Completed { output: vec![0u8; 20], diagnostics: Vec::new() };
    assert_eq!(accept_reply(reply), Err(SignError::Other));
}

#[test]
fn failed_call_is_an_other_error() {
    assert_eq!(accept_reply(ValidatorReply::CallFailed), Err(SignError::Other));
}

#[test]
fn short_result_is_invalid_data() {
    let reply = ValidatorReply::Completed { output: vec![1u8; 12], diagnostics: Vec::new() };
    assert_eq!(accept_reply(reply), Err(SignError::InvalidData));
}
