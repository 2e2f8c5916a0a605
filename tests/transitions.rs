use calculator::auth::{authorize, AuthError, Identity};
use calculator::codec::{
    decode_operation, decode_state, encode_state, CalculatorElement, CodecError, Operation,
};
use calculator::eval::{apply, EvalError};
use calculator::processor::{handle, process_instruction, HandleError};

fn identity(b: u8) -> Identity {
    Identity { bytes: [b; 32] }
}

#[test]
fn state_round_trip() {
    for v in [0u32, 1, 10, 255, 256, 0x0102_0304, 0x8000_0000, u32::MAX] {
        let e = CalculatorElement { value: v };
        let bytes = encode_state(&e);
        assert_eq!(bytes.len(), 4);
        assert_eq!(decode_state(&bytes), Ok(e));
    }
}

#[test]
fn state_encoding_is_little_endian() {
    assert_eq!(encode_state(&CalculatorElement { value: 0x0403_0201 }), vec![1u8, 2, 3, 4]);
    assert_eq!(encode_state(&CalculatorElement { value: 15 }), vec![15u8, 0, 0, 0]);
}

#[test]
fn state_decoding_is_little_endian() {
    assert_eq!(decode_state(&[1u8, 2, 3, 4]), Ok(CalculatorElement { value: 0x0403_0201 }));
    assert_eq!(decode_state(&[255u8, 255, 255, 255]), Ok(CalculatorElement { value: u32::MAX }));
}

#[test]
fn state_length_is_checked() {
    assert_eq!(decode_state(&[]), Err(CodecError::TruncatedInput));
    assert_eq!(decode_state(&[1u8, 2, 3]), Err(CodecError::TruncatedInput));
    assert_eq!(decode_state(&[1u8, 2, 3, 4, 5]), Err(CodecError::TrailingInput));
}

#[test]
fn operation_tags() {
    assert_eq!(decode_operation(&[0u8, 5, 0, 0, 0]), Ok(Operation::Add(5)));
    assert_eq!(decode_operation(&[1u8, 6, 0, 0, 0]), Ok(Operation::Subtract(6)));
    assert_eq!(decode_operation(&[2u8, 7, 0, 0, 0]), Ok(Operation::Multiply(7)));
    assert_eq!(decode_operation(&[3u8, 0, 1, 0, 0]), Ok(Operation::Divide(256)));
    assert_eq!(decode_operation(&[4u8, 42, 0, 0, 0]), Ok(Operation::Assign(42)));
}

#[test]
fn unknown_tags_rejected() {
    for tag in 5u8..=255 {
        assert_eq!(decode_operation(&[tag, 5, 0, 0, 0]), Err(CodecError::UnknownDiscriminant));
        assert_eq!(decode_operation(&[tag]), Err(CodecError::UnknownDiscriminant));
    }
}

#[test]
fn operation_length_is_checked() {
    assert_eq!(decode_operation(&[]), Err(CodecError::TruncatedInput));
    assert_eq!(decode_operation(&[0u8]), Err(CodecError::TruncatedInput));
    assert_eq!(decode_operation(&[0u8, 5, 0, 0]), Err(CodecError::TruncatedInput));
    assert_eq!(decode_operation(&[0u8, 5, 0, 0, 0, 0]), Err(CodecError::TrailingInput));
}

#[test]
fn arithmetic_examples() {
    assert_eq!(apply(10, &Operation::Add(5)), Ok(15));
    assert_eq!(apply(10, &Operation::Subtract(15)), Err(EvalError::Underflow));
    assert_eq!(apply(10, &Operation::Divide(0)), Err(EvalError::DivideByZero));
    assert_eq!(apply(7, &Operation::Assign(42)), Ok(42));
}

#[test]
fn arithmetic_edges() {
    assert_eq!(apply(u32::MAX, &Operation::Add(0)), Ok(u32::MAX));
    assert_eq!(apply(u32::MAX, &Operation::Add(1)), Err(EvalError::Overflow));
    assert_eq!(apply(10, &Operation::Subtract(10)), Ok(0));
    assert_eq!(apply(0x1_0000, &Operation::Multiply(0xffff)), Ok(0xffff_0000));
    assert_eq!(apply(0x1_0000, &Operation::Multiply(0x1_0000)), Err(EvalError::Overflow));
    assert_eq!(apply(17, &Operation::Divide(5)), Ok(3));
    assert_eq!(apply(0, &Operation::Divide(0)), Err(EvalError::DivideByZero));
}

#[test]
fn assign_twice_is_assign_once() {
    for (v, x) in [(7u32, 42u32), (0, 0), (u32::MAX, 1)] {
        let once = apply(v, &Operation::Assign(x)).unwrap();
        let twice = apply(once, &Operation::Assign(x)).unwrap();
        assert_eq!(once, twice);
        assert_eq!(once, x);
    }
}

#[test]
fn authorization_gate() {
    assert_eq!(authorize(&identity(1), &identity(1)), Ok(()));
    assert_eq!(authorize(&identity(1), &identity(2)), Err(AuthError::IncorrectOwner));
    let mut b = [0u8; 32];
    b[31] = 1;
    assert_eq!(authorize(&identity(0), &Identity { bytes: b }), Err(AuthError::IncorrectOwner));
}

#[test]
fn end_to_end_authorized() {
    let a = identity(0xaa);
    let mut data = vec![10u8, 0, 0, 0];
    assert_eq!(process_instruction(&a, &a, &mut data, &[0u8, 5, 0, 0, 0]), Ok(()));
    assert_eq!(data, vec![15u8, 0, 0, 0]);
}

#[test]
fn end_to_end_wrong_caller() {
    let a = identity(0xaa);
    let b = identity(0xbb);
    let mut data = vec![10u8, 0, 0, 0];
    assert_eq!(
        process_instruction(&a, &b, &mut data, &[0u8, 5, 0, 0, 0]),
        Err(HandleError::Auth(AuthError::IncorrectOwner))
    );
    assert_eq!(data, vec![10u8, 0, 0, 0]);
}

#[test]
fn wrong_caller_wins_over_bad_input() {
    let a = identity(1);
    let b = identity(2);
    assert_eq!(handle(&a, &b, &[1u8], &[9u8]), Err(HandleError::Auth(AuthError::IncorrectOwner)));
}

#[test]
fn failures_leave_storage_unchanged() {
    let a = identity(3);
    let mut data = vec![10u8, 0, 0, 0];
    assert_eq!(
        process_instruction(&a, &a, &mut data, &[1u8, 15, 0, 0, 0]),
        Err(HandleError::Eval(EvalError::Underflow))
    );
    assert_eq!(
        process_instruction(&a, &a, &mut data, &[3u8, 0, 0, 0, 0]),
        Err(HandleError::Eval(EvalError::DivideByZero))
    );
    assert_eq!(
        process_instruction(&a, &a, &mut data, &[7u8, 0, 0, 0, 0]),
        Err(HandleError::Instruction(CodecError::UnknownDiscriminant))
    );
    assert_eq!(data, vec![10u8, 0, 0, 0]);
    let mut short = vec![10u8, 0, 0];
    assert_eq!(
        process_instruction(&a, &a, &mut short, &[0u8, 5, 0, 0, 0]),
        Err(HandleError::State(CodecError::TruncatedInput))
    );
    assert_eq!(short, vec![10u8, 0, 0]);
}

#[test]
fn handle_sequence() {
    let a = identity(4);
    let s1 = handle(&a, &a, &[10u8, 0, 0, 0], &[2u8, 3, 0, 0, 0]).unwrap();
    assert_eq!(s1, vec![30u8, 0, 0, 0]);
    let s2 = handle(&a, &a, &s1, &[3u8, 4, 0, 0, 0]).unwrap();
    assert_eq!(s2, vec![7u8, 0, 0, 0]);
    let s3 = handle(&a, &a, &s2, &[4u8, 0, 1, 0, 0]).unwrap();
    assert_eq!(s3, vec![0u8, 1, 0, 0]);
}
