//! One transition from stored bytes and instruction bytes to new stored bytes.
use vstd::prelude::*;
use crate::auth::{authorize, AuthError, Identity};
use crate::codec::{
    decode_operation, decode_operation_spec, decode_state, decode_state_spec, encode_state,
    le_bytes, CalculatorElement, CodecError,
};
use crate::eval::{apply, apply_spec, EvalError};

verus! {

/// Why a transition was refused; the stored bytes are then left as they were.
#[derive(Debug, Clone, Copy, PartialEq, Eq, Structural)]
pub enum HandleError {
    /// The caller is not the record's owner.
    Auth(AuthError),
    /// The stored bytes are not a record.
    State(CodecError),
    /// The instruction bytes are not an operation.
    Instruction(CodecError),
    /// The operation cannot be applied to the stored value.
    Eval(EvalError),
}

/// The outcome of one transition: the owner check, then the stored record,
/// then the instruction, then the arithmetic, the first failure winning; on
/// success, the new value's four stored bytes.
pub open spec fn handle_spec(owner: Seq<u8>, caller: Seq<u8>, state: Seq<u8>, instruction: Seq<u8>)
    -> Result<Seq<u8>, HandleError> {
    if owner != caller {
        Err(HandleError::Auth(AuthError::IncorrectOwner))
    } else {
        match decode_state_spec(state) {
            Err(e) => Err(HandleError::State(e)),
            Ok(rec) => match decode_operation_spec(instruction) {
                Err(e) => Err(HandleError::Instruction(e)),
                Ok(op) => match apply_spec(rec.value, op) {
                    Err(e) => Err(HandleError::Eval(e)),
                    Ok(v) => Ok(le_bytes(v)),
                },
            },
        }
    }
}

/// Computes the new stored bytes for `instruction` applied to `state` on
/// behalf of `caller`, without touching `state`.
pub fn handle(owner: &Identity, caller: &Identity, state: &[u8], instruction: &[u8]) -> (r: Result<
    Vec<u8>,
    HandleError,
>)
    ensures
        r is Ok <==> handle_spec(owner@, caller@, state@, instruction@) is Ok,
        r matches Ok(b) ==> handle_spec(owner@, caller@, state@, instruction@) == Ok::<
            Seq<u8>,
            HandleError,
        >(b@),
        r matches Err(e) ==> handle_spec(owner@, caller@, state@, instruction@) == Err::<
            Seq<u8>,
            HandleError,
        >(e),
{
    match authorize(owner, caller) {
        Ok(()) => {},
        Err(e) => return Err(HandleError::Auth(e)),
    }
    let rec = match decode_state(state) {
        Ok(rec) => rec,
        Err(e) => return Err(HandleError::State(e)),
    };
    let op = match decode_operation(instruction) {
        Ok(op) => op,
        Err(e) => return Err(HandleError::Instruction(e)),
    };
    match apply(rec.value, &op) {
        Ok(v) => Ok(encode_state(&CalculatorElement { value: v })),
        Err(e) => Err(HandleError::Eval(e)),
    }
}

/// Runs one transition on the stored bytes in place: on success they become
/// the new value's encoding; on any failure they are left byte for byte as
/// they were.
pub fn process_instruction(
    owner: &Identity,
    caller: &Identity,
    data: &mut Vec<u8>,
    instruction: &[u8],
) -> (r: Result<(), HandleError>)
    ensures
        r is Ok <==> handle_spec(owner@, caller@, old(data)@, instruction@) is Ok,
        r is Ok ==> final(data)@ == handle_spec(owner@, caller@, old(data)@, instruction@)->Ok_0,
        r matches Err(e) ==> final(data)@ == old(data)@ && handle_spec(
            owner@,
            caller@,
            old(data)@,
            instruction@,
        ) == Err::<Seq<u8>, HandleError>(e),
{
    match handle(owner, caller, data.as_slice(), instruction) {
        Ok(bytes) => {
            *data = bytes;
            Ok(())
        },
        Err(e) => Err(e),
    }
}

/// A caller other than the owner is refused with the authorization error,
/// whatever the stored bytes and the instruction hold.
pub proof fn lemma_unauthorized_rejected(
    owner: Seq<u8>,
    caller: Seq<u8>,
    state: Seq<u8>,
    instruction: Seq<u8>,
)
    requires
        owner != caller,
    ensures
        handle_spec(owner, caller, state, instruction) == Err::<Seq<u8>, HandleError>(
            HandleError::Auth(AuthError::IncorrectOwner),
        ),
{
}

} // verus!
