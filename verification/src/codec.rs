//! Encoding a command record into a frame and decoding a frame into a record.

use vstd::prelude::*;
use bytes::Bytes;
use bytes::BytesMut;
use crate::buffer::{bytes_as_slice, bytes_contents, put_slice, put_u16_le, put_u8};
use crate::error::EnttecError;
use crate::packet::{fault, payload_of, wire_frame, EnttecPacket, END, OVERHEAD, START};

verus! {

/// The frame that a record is sent as.
pub open spec fn encoding<T: EnttecPacket>(packet: T) -> Seq<u8> {
    wire_frame(T::spec_label(), packet.payload())
}

/// What reading `bytes` as a `T` gives: the first failed check, or the record that the
/// payload bytes stand for.
pub open spec fn decoding<T: EnttecPacket>(bytes: Seq<u8>) -> Result<T, EnttecError> {
    match fault(T::spec_label(), T::spec_size(), bytes) {
        Some(e) => Err(e),
        None => Ok(T::parse(payload_of(bytes))),
    }
}

/// A packet type whose conversions to and from `Bytes` follow its payload layout: `into`
/// gives the payload bytes, and `try_from` decodes a whole frame.
pub trait CommandRecord: EnttecPacket + TryFrom<Bytes, Error = EnttecError> + Into<Bytes> {
    /// Whatever `into` returns for a record holds the record's payload.
    proof fn into_writes_payload(self, out: Bytes)
        requires
            call_ensures(<Self as Into<Bytes>>::into, (self, ), out),
        ensures
            bytes_contents(out) == self.payload(),
    ;

    /// Whatever `try_from` returns for a buffer is the decoding of the buffer's bytes.
    proof fn try_from_decodes(value: Bytes, out: Result<Self, EnttecError>)
        requires
            call_ensures(<Self as TryFrom<Bytes>>::try_from, (value, ), out),
        ensures
            out == decoding::<Self>(bytes_contents(value)),
    ;
}

/// Builds the frame for a record.
pub fn encode<S: CommandRecord>(packet: S) -> (frame: Bytes)
    ensures
        bytes_contents(frame) == encoding(packet),
{
    let size = S::size();
    let mut data = BytesMut::with_capacity(size + OVERHEAD);
    put_u8(&mut data, START);
    put_u8(&mut data, S::label());
    put_u16_le(&mut data, size as u16);
    let payload: Bytes = packet.into();
    proof {
        packet.into_writes_payload(payload);
        packet.payload_reads_back();
    }
    put_slice(&mut data, bytes_as_slice(&payload));
    put_u8(&mut data, END);
    data.freeze()
}

/// Reads a buffer as a record of type `R`.
pub fn decode<R: CommandRecord>(bytes: Bytes) -> (decoded: Result<R, EnttecError>)
    ensures
        decoded == decoding::<R>(bytes_contents(bytes)),
{
    let decoded = R::try_from(bytes);
    proof {
        R::try_from_decodes(bytes, decoded);
    }
    decoded
}

/// Round trip: the frame that a record is sent as decodes to that record.
pub proof fn lemma_round_trip<T: EnttecPacket>(packet: T)
    ensures
        decoding::<T>(encoding(packet)) == Ok::<T, EnttecError>(packet),
{
    packet.payload_reads_back();
    let frame = encoding(packet);
    assert(payload_of(frame) =~= packet.payload());
}

/// An encoded frame is the record's payload with five bytes around it.
pub proof fn lemma_encoding_len<T: EnttecPacket>(packet: T)
    ensures
        encoding(packet).len() == T::spec_size() + OVERHEAD,
{
    packet.payload_reads_back();
}

/// Length guard: a buffer of any other length than the payload size plus five is
/// rejected as `Length`, whatever it holds.
pub proof fn lemma_length_guard<T: EnttecPacket>(bytes: Seq<u8>)
    requires
        bytes.len() != T::spec_size() + OVERHEAD,
    ensures
        decoding::<T>(bytes) == Err::<T, EnttecError>(EnttecError::Length),
{
}

/// Frame guard: a buffer of the right length whose first byte is not the start marker,
/// or whose last byte is not the end marker, is rejected as `Frame`.
pub proof fn lemma_frame_guard<T: EnttecPacket>(bytes: Seq<u8>)
    requires
        bytes.len() == T::spec_size() + OVERHEAD,
        bytes[0] != START || bytes[bytes.len() - 1] != END,
    ensures
        decoding::<T>(bytes) == Err::<T, EnttecError>(EnttecError::Frame),
{
}

/// Label guard: a buffer of the right length with both markers in place and another
/// label than the record type's is rejected as `Label`.
pub proof fn lemma_label_guard<T: EnttecPacket>(bytes: Seq<u8>)
    requires
        bytes.len() == T::spec_size() + OVERHEAD,
        bytes[0] == START,
        bytes[bytes.len() - 1] == END,
        bytes[1] != T::spec_label(),
    ensures
        decoding::<T>(bytes) == Err::<T, EnttecError>(EnttecError::Label),
{
}

/// A buffer decodes to a record exactly when it has the right length, both markers and
/// the record type's label; the record is then what its payload bytes stand for.
pub proof fn lemma_decodes_when_valid<T: EnttecPacket>(bytes: Seq<u8>)
    ensures
        decoding::<T>(bytes) is Ok <==> (bytes.len() == T::spec_size() + OVERHEAD && bytes[0]
            == START && bytes[bytes.len() - 1] == END && bytes[1] == T::spec_label()),
        decoding::<T>(bytes) is Ok ==> decoding::<T>(bytes) == Ok::<T, EnttecError>(
            T::parse(payload_of(bytes)),
        ),
{
}

} // verus!
