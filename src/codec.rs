//! The fixed binary formats of the stored record and of an instruction.
use vstd::prelude::*;
use borsh::BorshDeserialize;

verus! {

/// The number of bytes that a stored value occupies.
pub const STATE_LEN: usize = 4;

/// The persisted record: one unsigned 32-bit value.
#[derive(Debug, Clone, Copy, PartialEq, Eq, Structural)]
pub struct CalculatorElement {
    pub value: u32,
}

/// Why a byte buffer could not be decoded.
#[derive(Debug, Clone, Copy, PartialEq, Eq, Structural)]
pub enum CodecError {
    /// Fewer bytes than the encoding needs.
    TruncatedInput,
    /// More bytes than the encoding holds.
    TrailingInput,
    /// An operation tag outside the known set.
    UnknownDiscriminant,
}

/// The value of four bytes read least significant first.
pub open spec fn le_value(b: Seq<u8>) -> int
    recommends
        b.len() == 4,
{
    b[0] as int + 256 * (b[1] as int) + 65536 * (b[2] as int) + 16777216 * (b[3] as int)
}

/// The four bytes of `v`, least significant first.
pub open spec fn le_bytes(v: u32) -> Seq<u8> {
    seq![
        (v & 0xff) as u8,
        ((v >> 8u32) & 0xff) as u8,
        ((v >> 16u32) & 0xff) as u8,
        ((v >> 24u32) & 0xff) as u8,
    ]
}

/// What decoding a stored record yields: exactly four bytes, little-endian.
pub open spec fn decode_state_spec(b: Seq<u8>) -> Result<CalculatorElement, CodecError> {
    if b.len() < 4 {
        Err(CodecError::TruncatedInput)
    } else if b.len() > 4 {
        Err(CodecError::TrailingInput)
    } else {
        Ok(CalculatorElement { value: le_value(b) as u32 })
    }
}

/// Four bytes read least significant first always fit in a `u32`, and
/// reading back the bytes of `v` gives `v`.
pub proof fn lemma_le_bytes_value(v: u32)
    ensures
        le_bytes(v).len() == 4,
        le_value(le_bytes(v)) == v as int,
{
    let b0 = v & 0xff;
    let b1 = (v >> 8u32) & 0xff;
    let b2 = (v >> 16u32) & 0xff;
    let b3 = (v >> 24u32) & 0xff;
    assert(b0 + 256 * b1 + 65536 * b2 + 16777216 * b3 == v && b0 < 256 && b1 < 256 && b2 < 256
        && b3 < 256) by (bit_vector)
        requires
            b0 == v & 0xff,
            b1 == (v >> 8u32) & 0xff,
            b2 == (v >> 16u32) & 0xff,
            b3 == (v >> 24u32) & 0xff,
    ;
}

/// Relies on borsh's `u32::try_from_slice`: it reads four bytes
/// little-endian with `read_exact`, then fails unless the slice is used up,
/// so it succeeds exactly on slices of length four.
#[verifier::external_body]
fn borsh_u32(bytes: &[u8]) -> (r: Option<u32>)
    ensures
        r is Some <==> bytes@.len() == 4,
        r matches Some(v) ==> v as int == le_value(bytes@),
{
    <u32 as BorshDeserialize>::try_from_slice(bytes).ok()
}

/// Writes a value as its four stored bytes.
pub fn encode_state(e: &CalculatorElement) -> (r: Vec<u8>)
    ensures
        r@ == le_bytes(e.value),
{
    let v = e.value;
    let mut r: Vec<u8> = Vec::with_capacity(STATE_LEN);
    r.push((v & 0xff) as u8);
    r.push(((v >> 8u32) & 0xff) as u8);
    r.push(((v >> 16u32) & 0xff) as u8);
    r.push(((v >> 24u32) & 0xff) as u8);
    assert(r@ =~= le_bytes(v));
    r
}

/// Reads a stored record; exactly four bytes are accepted.
pub fn decode_state(bytes: &[u8]) -> (r: Result<CalculatorElement, CodecError>)
    ensures
        r == decode_state_spec(bytes@),
{
    if bytes.len() < STATE_LEN {
        Err(CodecError::TruncatedInput)
    } else if bytes.len() > STATE_LEN {
        Err(CodecError::TrailingInput)
    } else {
        match borsh_u32(bytes) {
            Some(v) => Ok(CalculatorElement { value: v }),
            None => Err(CodecError::TruncatedInput),
        }
    }
}

/// Decoding the encoding of a record gives the record back.
pub proof fn lemma_state_round_trip(e: CalculatorElement)
    ensures
        decode_state_spec(le_bytes(e.value)) == Ok::<CalculatorElement, CodecError>(e),
{
    lemma_le_bytes_value(e.value);
}

/// One decoded instruction: an arithmetic kind and its operand.
#[derive(Debug, Clone, Copy, PartialEq, Eq, Structural)]
pub enum Operation {
    Add(u32),
    Subtract(u32),
    Multiply(u32),
    Divide(u32),
    Assign(u32),
}

/// The number of operation kinds; tags run from zero up to this, exclusive.
pub const OPERATION_KINDS: u8 = 5;

/// The operation that `tag` selects, with operand `v`.
pub open spec fn operation_of(tag: u8, v: u32) -> Operation
    recommends
        tag < OPERATION_KINDS,
{
    if tag == 0 {
        Operation::Add(v)
    } else if tag == 1 {
        Operation::Subtract(v)
    } else if tag == 2 {
        Operation::Multiply(v)
    } else if tag == 3 {
        Operation::Divide(v)
    } else {
        Operation::Assign(v)
    }
}

/// What decoding an instruction yields: a known tag byte, then exactly four
/// operand bytes, little-endian.
pub open spec fn decode_operation_spec(b: Seq<u8>) -> Result<Operation, CodecError> {
    if b.len() == 0 {
        Err(CodecError::TruncatedInput)
    } else if b[0] >= OPERATION_KINDS {
        Err(CodecError::UnknownDiscriminant)
    } else {
        match decode_state_spec(b.subrange(1, b.len() as int)) {
            Ok(e) => Ok(operation_of(b[0], e.value)),
            Err(err) => Err(err),
        }
    }
}

/// Reads an instruction: a tag byte, then the operand as four bytes.
pub fn decode_operation(bytes: &[u8]) -> (r: Result<Operation, CodecError>)
    ensures
        r == decode_operation_spec(bytes@),
{
    if bytes.len() == 0 {
        return Err(CodecError::TruncatedInput);
    }
    let tag = bytes[0];
    if tag >= OPERATION_KINDS {
        return Err(CodecError::UnknownDiscriminant);
    }
    let (_, operand) = bytes.split_at(1);
    assert(operand@ == bytes@.subrange(1, bytes@.len() as int));
    match decode_state(operand) {
        Ok(e) => {
            let v = e.value;
            if tag == 0 {
                Ok(Operation::Add(v))
            } else if tag == 1 {
                Ok(Operation::Subtract(v))
            } else if tag == 2 {
                Ok(Operation::Multiply(v))
            } else if tag == 3 {
                Ok(Operation::Divide(v))
            } else {
                Ok(Operation::Assign(v))
            }
        },
        Err(err) => Err(err),
    }
}

/// Every first byte outside the known tags is refused as unknown, whatever
/// follows it.
pub proof fn lemma_unknown_tag_rejected(b: Seq<u8>)
    requires
        b.len() > 0,
        b[0] >= OPERATION_KINDS,
    ensures
        decode_operation_spec(b) == Err::<Operation, CodecError>(CodecError::UnknownDiscriminant),
{
}

} // verus!
