//! Integer payloads in the binary encoding.
//!
//! A signed integer is first folded onto the unsigned ones, so that values
//! near zero stay small, and then written in a form of variable length: one
//! byte for the values up to 250, else a marker byte and the value in two,
//! four or eight bytes, least significant byte first.

use vstd::prelude::*;
use vstd::bytes::*;
use crate::codec::{Payload, PayloadView};
use crate::error::WorkerError;

verus! {

/// The greatest value that is written as a single byte.
pub const SINGLE_BYTE_MAX: u8 = 250;

/// The marker of a value in two bytes.
pub const U16_MARKER: u8 = 251;

/// The marker of a value in four bytes.
pub const U32_MARKER: u8 = 252;

/// The marker of a value in eight bytes.
pub const U64_MARKER: u8 = 253;

/// The unsigned integer that stands for `value`: the non-negative values go
/// to the even numbers, the negative ones to the odd numbers.
pub open spec fn zigzag(value: i64) -> u64 {
    if value < 0 {
        (-2 * (value as int) - 1) as u64
    } else {
        (2 * (value as int)) as u64
    }
}

/// The signed integer that `n` stands for.
pub open spec fn unzigzag(n: u64) -> i64 {
    if n % 2 == 0 {
        (n / 2) as i64
    } else {
        (-((n / 2) as int) - 1) as i64
    }
}

/// The bytes of `n` in the form of variable length.
pub open spec fn varint(n: u64) -> Seq<u8> {
    if n <= SINGLE_BYTE_MAX {
        seq![n as u8]
    } else if n <= u16::MAX {
        seq![U16_MARKER] + spec_u16_to_le_bytes(n as u16)
    } else if n <= u32::MAX {
        seq![U32_MARKER] + spec_u32_to_le_bytes(n as u32)
    } else {
        seq![U64_MARKER] + spec_u64_to_le_bytes(n)
    }
}

/// The value at the start of `bytes` and the number of bytes that it takes;
/// `None` where `bytes` ends too early or starts with no known marker.
/// A value is read from any of the wider forms, not only from its shortest.
pub open spec fn varint_read(bytes: Seq<u8>) -> Option<(u64, nat)> {
    if bytes.len() == 0 {
        None
    } else if bytes[0] <= SINGLE_BYTE_MAX {
        Some((bytes[0] as u64, 1))
    } else if bytes[0] == U16_MARKER {
        if bytes.len() < 3 {
            None
        } else {
            Some((spec_u16_from_le_bytes(bytes.subrange(1, 3)) as u64, 3))
        }
    } else if bytes[0] == U32_MARKER {
        if bytes.len() < 5 {
            None
        } else {
            Some((spec_u32_from_le_bytes(bytes.subrange(1, 5)) as u64, 5))
        }
    } else if bytes[0] == U64_MARKER {
        if bytes.len() < 9 {
            None
        } else {
            Some((spec_u64_from_le_bytes(bytes.subrange(1, 9)), 9))
        }
    } else {
        None
    }
}

/// The binary encoding of `value`.
pub open spec fn encoded_i64(value: i64) -> Seq<u8> {
    varint(zigzag(value))
}

/// The integer at the start of `bytes` and the number of bytes that it
/// takes; `None` where `bytes` starts with no integer.
pub open spec fn decoded_i64(bytes: Seq<u8>) -> Option<(i64, nat)> {
    match varint_read(bytes) {
        Some((n, used)) => Some((unzigzag(n), used)),
        None => None,
    }
}

/// The integer that a payload holds: the one at the start of its bytes.
/// A text payload holds none.
pub open spec fn payload_i64(payload: PayloadView) -> Option<i64> {
    match payload {
        PayloadView::Binary(bytes) => match decoded_i64(bytes) {
            Some((value, _)) => Some(value),
            None => None,
        },
        PayloadView::Text(_) => None,
    }
}

/// Calls `bincode::encode_to_vec` on an `i64` with `bincode::config::standard()`,
/// that is little endian with integers of variable length. The contract
/// states the bytes as bincode documents them: the value folded by `zigzag`
/// and written by `varint`. The call cannot fail, since the writer is a
/// vector and the configuration sets no limit.
#[verifier::external_body]
fn bincode_encode_i64(value: i64) -> (bytes: Vec<u8>)
    ensures
        bytes@ == encoded_i64(value),
{
    bincode::encode_to_vec(value, bincode::config::standard()).unwrap()
}

/// Calls `bincode::decode_from_slice` at the type `i64` with
/// `bincode::config::standard()`. The contract states what bincode reads: the
/// first byte alone up to 250, or the two, four or eight bytes that follow
/// the markers 251, 252 and 253, unfolded to a signed value, together with
/// the number of bytes read. It fails where the slice ends too early and on
/// the markers 254 and 255. Bytes after the value are left unread.
#[verifier::external_body]
fn bincode_decode_i64(bytes: &[u8]) -> (result: Option<(i64, usize)>)
    ensures
        match result {
            Some((value, used)) => decoded_i64(bytes@) == Some((value, used as nat)),
            None => decoded_i64(bytes@) is None,
        },
{
    bincode::decode_from_slice::<i64, _>(bytes, bincode::config::standard()).ok()
}

/// Encodes an integer as a binary payload.
pub fn encode_i64(value: i64) -> (payload: Payload)
    ensures
        payload@ == PayloadView::Binary(encoded_i64(value)),
{
    Payload::Binary(bincode_encode_i64(value))
}

/// Decodes the integer that a binary payload starts with.
///
/// Bytes after the integer are ignored. A payload that starts with no
/// integer, and any text payload, is a decode failure.
pub fn decode_i64(payload: &Payload) -> (value: Result<i64, WorkerError>)
    ensures
        match value {
            Ok(v) => payload_i64(payload@) == Some(v),
            Err(e) => e == WorkerError::DecodeFailure && payload_i64(payload@) is None,
        },
{
    match payload {
        Payload::Binary(bytes) => match bincode_decode_i64(bytes.as_slice()) {
            Some((value, _)) => Ok(value),
            None => Err(WorkerError::DecodeFailure),
        },
        Payload::Text(_) => Err(WorkerError::DecodeFailure),
    }
}

/// Folding a signed integer and unfolding it gives the integer back.
pub proof fn lemma_zigzag_round_trip(value: i64)
    ensures
        unzigzag(zigzag(value)) == value,
{
}

/// Reading what was written for `n` gives `n` back, and takes all the bytes.
pub proof fn lemma_varint_round_trip(n: u64)
    ensures
        varint_read(varint(n)) == Some((n, varint(n).len())),
{
    let bytes = varint(n);
    lemma_auto_spec_u16_to_from_le_bytes();
    lemma_auto_spec_u32_to_from_le_bytes();
    lemma_auto_spec_u64_to_from_le_bytes();
    if n <= SINGLE_BYTE_MAX {
    } else if n <= u16::MAX {
        assert(bytes.subrange(1, 3) =~= spec_u16_to_le_bytes(n as u16));
    } else if n <= u32::MAX {
        assert(bytes.subrange(1, 5) =~= spec_u32_to_le_bytes(n as u32));
    } else {
        assert(bytes.subrange(1, 9) =~= spec_u64_to_le_bytes(n));
    }
}

/// Decoding the encoding of an integer gives the integer back, and takes all
/// the bytes.
pub proof fn law_integer_round_trip(value: i64)
    ensures
        decoded_i64(encoded_i64(value)) == Some((value, encoded_i64(value).len())),
        payload_i64(PayloadView::Binary(encoded_i64(value))) == Some(value),
{
    lemma_zigzag_round_trip(value);
    lemma_varint_round_trip(zigzag(value));
}

/// The response of a context that runs `task` on `request`: the encoding of
/// what the task returns on the integer that the request holds; `None` where
/// the request holds no integer.
pub open spec fn answer(task: spec_fn(i64) -> i64, request: PayloadView) -> Option<PayloadView> {
    match payload_i64(request) {
        Some(argument) => Some(PayloadView::Binary(encoded_i64(task(argument)))),
        None => None,
    }
}

/// Answers a request inside the context: decodes the integer that the payload
/// holds, calls the task with it and encodes what the task returns.
///
/// A payload that holds no integer is a decode failure, and the task is not
/// called.
pub fn answer_i64<F: Fn(i64) -> i64>(task: F, request: &Payload) -> (response: Result<
    Payload,
    WorkerError,
>)
    requires
        forall|argument: i64| task.requires((argument,)),
    ensures
        match response {
            Ok(payload) => payload_i64(request@) matches Some(argument) && payload_i64(payload@)
                matches Some(result) && task.ensures((argument,), result) && payload@
                == PayloadView::Binary(encoded_i64(result)),
            Err(e) => e == WorkerError::DecodeFailure && payload_i64(request@) is None,
        },
{
    match decode_i64(request) {
        Ok(argument) => {
            let result: i64 = task(argument);
            proof {
                law_integer_round_trip(result);
            }
            Ok(encode_i64(result))
        },
        Err(e) => Err(e),
    }
}

/// An answer computed inside a context reaches the caller unchanged: the
/// context answers the encoding of an integer, and what the caller decodes
/// from the answer is what the task returns on that integer.
pub proof fn law_task_result_round_trip(task: spec_fn(i64) -> i64, payload: i64)
    ensures
        answer(task, PayloadView::Binary(encoded_i64(payload))) matches Some(response)
            && payload_i64(response) == Some(task(payload)),
{
    law_integer_round_trip(payload);
    law_integer_round_trip(task(payload));
}

} // verus!
