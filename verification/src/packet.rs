//! The wire frame, and what a command record must provide to travel in one.
//!
//! A frame is `START | LABEL | LENGTH_LE (2) | PAYLOAD (N) | END`. Each command record
//! fixes its label and its payload size; a buffer is read as a record only after its
//! length, its markers and its label have been checked, in that order.

use vstd::prelude::*;
use bytes::Bytes;
use crate::buffer::{bytes_as_slice, bytes_contents};
use crate::error::EnttecError;

verus! {

/// The first byte of every frame.
pub const START: u8 = 0x7E;

/// The last byte of every frame.
pub const END: u8 = 0xE7;

/// The bytes of a frame that are not payload: start, label, two of length, end.
pub const OVERHEAD: usize = 5;

/// The frame that carries `payload` under `label`.
pub open spec fn wire_frame(label: u8, payload: Seq<u8>) -> Seq<u8> {
    seq![START, label, (payload.len() % 256) as u8, (payload.len() / 256) as u8] + payload
        + seq![END]
}

/// The first check that `bytes` fails when read as a frame with the given label and
/// payload size: length, then markers, then label. `None` when it passes all three.
pub open spec fn fault(label: u8, size: nat, bytes: Seq<u8>) -> Option<EnttecError> {
    if bytes.len() != size + OVERHEAD {
        Some(EnttecError::Length)
    } else if bytes[0] != START || bytes[bytes.len() - 1] != END {
        Some(EnttecError::Frame)
    } else if bytes[1] != label {
        Some(EnttecError::Label)
    } else {
        None
    }
}

/// Whether `bytes` is long enough for a frame and has both markers in place.
pub open spec fn well_framed(bytes: Seq<u8>) -> bool {
    &&& bytes.len() >= OVERHEAD
    &&& bytes[0] == START
    &&& bytes[bytes.len() - 1] == END
}

/// The payload bytes of a frame: what lies between the length field and the end marker.
pub open spec fn payload_of(bytes: Seq<u8>) -> Seq<u8> {
    bytes.subrange(4, bytes.len() - 1)
}

/// A buffer that has passed the structural checks. Only `EnttecPacket::frame_check`
/// makes one, and payload bytes are handed out from one only.
pub struct ValidFrame(Bytes);

impl View for ValidFrame {
    type V = Seq<u8>;

    closed spec fn view(&self) -> Seq<u8> {
        bytes_contents(self.0)
    }
}

impl ValidFrame {
    #[verifier::type_invariant]
    spec fn framed(&self) -> bool {
        well_framed(self@)
    }
}

/// A command record: a label, a fixed payload size, and the layout of its fields in the
/// payload.
pub trait EnttecPacket: Sized {
    /// The label byte of the command family.
    spec fn spec_label() -> u8;

    /// The number of payload bytes of this record type.
    spec fn spec_size() -> nat;

    /// The payload bytes that this record is written as.
    spec fn payload(self) -> Seq<u8>;

    /// The record that `spec_size()` payload bytes are read as.
    spec fn parse(payload: Seq<u8>) -> Self;

    /// The label byte of the command family.
    fn label() -> (l: u8)
        ensures
            l == Self::spec_label(),
    ;

    /// The number of payload bytes of this record type. It fits the frame's 16-bit
    /// length field.
    fn size() -> (n: usize)
        ensures
            n == Self::spec_size(),
            n <= u16::MAX,
    ;

    /// A record's payload has the record type's size, and reads back as the record.
    proof fn payload_reads_back(self)
        ensures
            self.payload().len() == Self::spec_size(),
            Self::parse(self.payload()) == self,
    ;

    /// Checks length, start marker, end marker and label, in that order, and wraps the
    /// buffer if all are right.
    fn frame_check(packet: Bytes) -> (checked: Result<ValidFrame, EnttecError>)
        ensures
            match checked {
                Ok(frame) => frame@ == bytes_contents(packet) && fault(
                    Self::spec_label(),
                    Self::spec_size(),
                    frame@,
                ) is None,
                Err(e) => fault(Self::spec_label(), Self::spec_size(), bytes_contents(packet)) == Some(
                    e,
                ),
            },
    {
        if packet.len() != Self::size() + OVERHEAD {
            Err(EnttecError::Length)
        } else {
            let bytes = bytes_as_slice(&packet);
            if bytes[0] != START {
                Err(EnttecError::Frame)
            } else if bytes[packet.len() - 1] != END {
                Err(EnttecError::Frame)
            } else if bytes[1] != Self::label() {
                Err(EnttecError::Label)
            } else {
                Ok(ValidFrame(packet))
            }
        }
    }

    /// The payload bytes of a checked frame.
    fn frame_data(packet: &ValidFrame) -> (data: &[u8])
        ensures
            well_framed(packet@),
            data@ == payload_of(packet@),
    {
        proof {
            use_type_invariant(packet);
        }
        let bytes = &packet.0;
        &bytes_as_slice(bytes)[4..bytes.len() - 1]
    }
}

} // verus!
