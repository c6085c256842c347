//! The wire codec: one [`InputEvent`] to and from a compact binary payload.
//!
//! The payload is fixed-width little-endian: 8 bytes of seconds, 8 bytes of
//! microseconds, a 2-byte event-class enumerant, the 2-byte key code, and
//! the 4-byte signed value — 24 bytes in all, comfortably under the 255-byte
//! ceiling that the one-byte frame length prefix imposes.

use crate::input::{EventType, EventValue, InputEvent, TimeVal};
use vstd::bytes::{
    lemma_auto_spec_u16_to_from_le_bytes, lemma_auto_spec_u32_to_from_le_bytes,
    lemma_auto_spec_u64_to_from_le_bytes, spec_u16_from_le_bytes, spec_u16_to_le_bytes,
    spec_u32_from_le_bytes, spec_u32_to_le_bytes, spec_u64_from_le_bytes, spec_u64_to_le_bytes,
    u16_from_le_bytes, u16_to_le_bytes, u32_from_le_bytes, u32_to_le_bytes, u64_from_le_bytes,
    u64_to_le_bytes,
};
use vstd::prelude::*;
use vstd::slice::slice_subrange;

verus! {

/// Number of bytes every encoded payload occupies.
pub const PAYLOAD_LEN: usize = 24;

/// Why a byte sequence failed to decode into an [`InputEvent`].
#[derive(Clone, Copy, Debug, PartialEq, Eq, Structural)]
pub enum DecodeError {
    /// The payload is not exactly [`PAYLOAD_LEN`] bytes long.
    WrongLength,
    /// The event-class enumerant names no known event class.
    UnknownEventType,
}

/// The byte sequence [`encode`] produces for an event.
pub open spec fn spec_encode(e: InputEvent) -> Seq<u8> {
    spec_u64_to_le_bytes(e.time.tv_sec as u64) + spec_u64_to_le_bytes(e.time.tv_usec as u64)
        + spec_u16_to_le_bytes(e.event_type.spec_wire_code()) + spec_u16_to_le_bytes(e.code)
        + spec_u32_to_le_bytes(e.value.0 as u32)
}

/// The event a byte sequence decodes to, or `None` where the length or the
/// event-class enumerant is wrong.
pub open spec fn spec_decode(b: Seq<u8>) -> Option<InputEvent> {
    if b.len() != PAYLOAD_LEN {
        None
    } else {
        match EventType::spec_from_wire_code(spec_u16_from_le_bytes(b.subrange(16, 18))) {
            Some(event_type) => Some(
                InputEvent {
                    time: TimeVal {
                        tv_sec: spec_u64_from_le_bytes(b.subrange(0, 8)) as i64,
                        tv_usec: spec_u64_from_le_bytes(b.subrange(8, 16)) as i64,
                    },
                    event_type,
                    code: spec_u16_from_le_bytes(b.subrange(18, 20)),
                    value: EventValue(spec_u32_from_le_bytes(b.subrange(20, 24)) as i32),
                },
            ),
            None => None,
        }
    }
}

/// Serialize one event into its payload bytes. Deterministic, and never
/// larger than the one-byte length prefix can describe.
pub fn encode(e: &InputEvent) -> (r: Vec<u8>)
    ensures
        r@ == spec_encode(*e),
        r@.len() == PAYLOAD_LEN,
{
    proof {
        lemma_auto_spec_u64_to_from_le_bytes();
        lemma_auto_spec_u16_to_from_le_bytes();
        lemma_auto_spec_u32_to_from_le_bytes();
    }
    let mut out = u64_to_le_bytes(#[verifier::truncate] (e.time.tv_sec as u64));
    let mut rest = u64_to_le_bytes(#[verifier::truncate] (e.time.tv_usec as u64));
    out.append(&mut rest);
    let mut rest = u16_to_le_bytes(e.event_type.wire_code());
    out.append(&mut rest);
    let mut rest = u16_to_le_bytes(e.code);
    out.append(&mut rest);
    let mut rest = u32_to_le_bytes(#[verifier::truncate] (e.value.0 as u32));
    out.append(&mut rest);
    out
}

/// Deserialize payload bytes into the event they encode. A truncated,
/// padded, or structurally invalid payload is rejected with a distinct
/// error and never yields a garbage value.
pub fn decode(bytes: &[u8]) -> (r: Result<InputEvent, DecodeError>)
    ensures
        ({
            match r {
                Ok(ev) => spec_decode(bytes@) == Some(ev),
                Err(DecodeError::WrongLength) => bytes@.len() != PAYLOAD_LEN,
                Err(DecodeError::UnknownEventType) => bytes@.len() == PAYLOAD_LEN
                    && EventType::spec_from_wire_code(
                    spec_u16_from_le_bytes(bytes@.subrange(16, 18)),
                ) is None,
            }
        }),
        r is Ok <==> spec_decode(bytes@) is Some,
{
    if bytes.len() != PAYLOAD_LEN {
        return Err(DecodeError::WrongLength);
    }
    let sec = u64_from_le_bytes(slice_subrange(bytes, 0, 8));
    let usec = u64_from_le_bytes(slice_subrange(bytes, 8, 16));
    let class = u16_from_le_bytes(slice_subrange(bytes, 16, 18));
    let code = u16_from_le_bytes(slice_subrange(bytes, 18, 20));
    let value = u32_from_le_bytes(slice_subrange(bytes, 20, 24));
    match EventType::from_wire_code(class) {
        Some(event_type) => Ok(
            InputEvent {
                time: TimeVal {
                    tv_sec: #[verifier::truncate] (sec as i64),
                    tv_usec: #[verifier::truncate] (usec as i64),
                },
                event_type,
                code,
                value: EventValue(#[verifier::truncate] (value as i32)),
            },
        ),
        None => Err(DecodeError::UnknownEventType),
    }
}

/// The wire frame for one event: a one-byte length prefix followed by
/// exactly that many payload bytes.
pub open spec fn spec_frame(e: InputEvent) -> Seq<u8> {
    seq![PAYLOAD_LEN as u8] + spec_encode(e)
}

/// Build the complete wire frame for one event, ready to send: the payload
/// length in one byte, then the payload.
pub fn encode_frame(e: &InputEvent) -> (r: Vec<u8>)
    ensures
        r@ == spec_frame(*e),
        r@.len() == PAYLOAD_LEN + 1,
{
    let payload = encode(e);
    let mut out: Vec<u8> = Vec::new();
    out.push(PAYLOAD_LEN as u8);
    let mut j: usize = 0;
    #[verifier::loop_isolation(false)]
    while j < payload.len()
        invariant
            j <= payload@.len(),
            out@ == seq![PAYLOAD_LEN as u8] + payload@.take(j as int),
        decreases payload@.len() - j,
    {
        out.push(payload[j]);
        j = j + 1;
        proof {
            assert(seq![PAYLOAD_LEN as u8] + payload@.take(j as int) =~= (seq![PAYLOAD_LEN as u8]
                + payload@.take(j - 1 as int)).push(payload@[j - 1 as int]));
        }
    }
    proof {
        assert(payload@.take(payload@.len() as int) =~= payload@);
    }
    out
}

/// A negative number survives the trip through its unsigned twin.
pub proof fn lemma_i64_u64_round_trip(x: i64)
    ensures
        (x as u64) as i64 == x,
{
    assert((x as u64) as i64 == x) by (bit_vector);
}

pub proof fn lemma_i32_u32_round_trip(x: i32)
    ensures
        (x as u32) as i32 == x,
{
    assert((x as u32) as i32 == x) by (bit_vector);
}

/// Round trip: decoding an encoded event yields the event itself, for every
/// representable event.
pub proof fn lemma_codec_round_trip(e: InputEvent)
    ensures
        spec_decode(spec_encode(e)) == Some(e),
{
    lemma_auto_spec_u64_to_from_le_bytes();
    lemma_auto_spec_u16_to_from_le_bytes();
    lemma_auto_spec_u32_to_from_le_bytes();
    let s = spec_encode(e);
    assert(s.subrange(0, 8) =~= spec_u64_to_le_bytes(e.time.tv_sec as u64));
    assert(s.subrange(8, 16) =~= spec_u64_to_le_bytes(e.time.tv_usec as u64));
    assert(s.subrange(16, 18) =~= spec_u16_to_le_bytes(e.event_type.spec_wire_code()));
    assert(s.subrange(18, 20) =~= spec_u16_to_le_bytes(e.code));
    assert(s.subrange(20, 24) =~= spec_u32_to_le_bytes(e.value.0 as u32));
    lemma_i64_u64_round_trip(e.time.tv_sec);
    lemma_i64_u64_round_trip(e.time.tv_usec);
    lemma_i32_u32_round_trip(e.value.0);
    crate::input::lemma_event_type_wire_round_trip(e.event_type);
}

} // verus!
