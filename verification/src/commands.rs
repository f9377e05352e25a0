//! The command records: what each request and reply holds, and how it lies in a payload.
//!
//! A request and its reply share a label. Which of the two a frame is read as is the
//! caller's choice of type; nothing in the frame tells them apart.

use vstd::prelude::*;
use bytes::Bytes;
use bytes::BytesMut;
use crate::buffer::{bytes_contents, put_slice, put_u16_le, put_u8};
use crate::error::EnttecError;
use crate::codec::{decoding, CommandRecord};
use crate::packet::EnttecPacket;
use vstd::std_specs::convert::{IntoSpecImpl, TryFromSpecImpl};

verus! {

/// Asks the widget for its parameters, with room for `param_size` bytes of user data.
#[derive(Debug, Clone, Copy, PartialEq, Eq)]
pub struct GetParameters {
    pub param_size: u16,
}

impl EnttecPacket for GetParameters {
    open spec fn spec_label() -> u8 {
        3
    }

    open spec fn spec_size() -> nat {
        2
    }

    open spec fn payload(self) -> Seq<u8> {
        seq![(self.param_size % 256) as u8, (self.param_size / 256) as u8]
    }

    open spec fn parse(payload: Seq<u8>) -> Self {
        GetParameters { param_size: (payload[0] + 256 * payload[1]) as u16 }
    }

    fn label() -> (l: u8) {
        3
    }

    fn size() -> (n: usize) {
        2
    }

    proof fn payload_reads_back(self) {
    }
}

impl TryFrom<Bytes> for GetParameters {
    type Error = EnttecError;

    /// Decodes a whole frame: checks it, then reads the fields from its payload.
    fn try_from(value: Bytes) -> (decoded: Result<GetParameters, EnttecError>)
        ensures
            decoded == decoding::<Self>(bytes_contents(value)),
    {
        match Self::frame_check(value) {
            Ok(frame) => {
                let slice = Self::frame_data(&frame);
                let low: u8 = slice[0];
                let high: u8 = slice[1];
                assert((low as u16) | (high as u16) << 8 == low + 256 * high) by (bit_vector);
                Ok(GetParameters { param_size: (low as u16) | (high as u16) << 8 })
            },
            Err(e) => Err(e),
        }
    }
}

impl TryFromSpecImpl<Bytes> for GetParameters {
    open spec fn obeys_try_from_spec() -> bool {
        true
    }

    open spec fn try_from_spec(value: Bytes) -> Result<Self, EnttecError> {
        decoding::<Self>(bytes_contents(value))
    }
}

impl Into<Bytes> for GetParameters {
    /// Writes the payload bytes; the frame around them is the codec's.
    fn into(self) -> (payload: Bytes)
        ensures
            bytes_contents(payload) == self.payload(),
    {
        let mut bytes = BytesMut::with_capacity(2);
        put_u16_le(&mut bytes, self.param_size);
        bytes.freeze()
    }
}

/// `into` is described by the bytes of its result, not by the result as a value: two
/// buffers that hold the same bytes are still two handles.
impl IntoSpecImpl<Bytes> for GetParameters {
    open spec fn obeys_into_spec() -> bool {
        false
    }

    open spec fn into_spec(self) -> Bytes {
        arbitrary()
    }
}

impl CommandRecord for GetParameters {
    proof fn into_writes_payload(self, out: Bytes) {
    }

    proof fn try_from_decodes(value: Bytes, out: Result<Self, EnttecError>) {
    }
}

/// The widget's parameters.
#[derive(Debug, Clone, Copy, PartialEq, Eq)]
pub struct GetParametersReply {
    pub firm_lsb: u8,
    pub firm_msb: u8,
    pub dmx_break: u8,
    pub dmx_mab: u8,
    pub dmx_rate: u8,
}

impl EnttecPacket for GetParametersReply {
    open spec fn spec_label() -> u8 {
        3
    }

    open spec fn spec_size() -> nat {
        5
    }

    open spec fn payload(self) -> Seq<u8> {
        seq![self.firm_lsb, self.firm_msb, self.dmx_break, self.dmx_mab, self.dmx_rate]
    }

    open spec fn parse(payload: Seq<u8>) -> Self {
        GetParametersReply {
            firm_lsb: payload[0],
            firm_msb: payload[1],
            dmx_break: payload[2],
            dmx_mab: payload[3],
            dmx_rate: payload[4],
        }
    }

    fn label() -> (l: u8) {
        3
    }

    fn size() -> (n: usize) {
        5
    }

    proof fn payload_reads_back(self) {
    }
}

impl TryFrom<Bytes> for GetParametersReply {
    type Error = EnttecError;

    /// Decodes a whole frame: checks it, then reads the fields from its payload.
    fn try_from(value: Bytes) -> (decoded: Result<GetParametersReply, EnttecError>)
        ensures
            decoded == decoding::<Self>(bytes_contents(value)),
    {
        match Self::frame_check(value) {
            Ok(frame) => {
                let slice = Self::frame_data(&frame);
                Ok(
                    GetParametersReply {
                        firm_lsb: slice[0],
                        firm_msb: slice[1],
                        dmx_break: slice[2],
                        dmx_mab: slice[3],
                        dmx_rate: slice[4],
                    },
                )
            },
            Err(e) => Err(e),
        }
    }
}

impl TryFromSpecImpl<Bytes> for GetParametersReply {
    open spec fn obeys_try_from_spec() -> bool {
        true
    }

    open spec fn try_from_spec(value: Bytes) -> Result<Self, EnttecError> {
        decoding::<Self>(bytes_contents(value))
    }
}

impl Into<Bytes> for GetParametersReply {
    /// Writes the payload bytes; the frame around them is the codec's.
    fn into(self) -> (payload: Bytes)
        ensures
            bytes_contents(payload) == self.payload(),
    {
        let mut bytes = BytesMut::with_capacity(Self::size());
        put_u8(&mut bytes, self.firm_lsb);
        put_u8(&mut bytes, self.firm_msb);
        put_u8(&mut bytes, self.dmx_break);
        put_u8(&mut bytes, self.dmx_mab);
        put_u8(&mut bytes, self.dmx_rate);
        bytes.freeze()
    }
}

/// `into` is described by the bytes of its result, not by the result as a value: two
/// buffers that hold the same bytes are still two handles.
impl IntoSpecImpl<Bytes> for GetParametersReply {
    open spec fn obeys_into_spec() -> bool {
        false
    }

    open spec fn into_spec(self) -> Bytes {
        arbitrary()
    }
}

impl CommandRecord for GetParametersReply {
    proof fn into_writes_payload(self, out: Bytes) {
    }

    proof fn try_from_decodes(value: Bytes, out: Result<Self, EnttecError>) {
    }
}

/// Asks the widget for its serial number. It has no payload.
#[derive(Debug, Clone, Copy, PartialEq, Eq)]
pub struct GetSerialNumber;

impl EnttecPacket for GetSerialNumber {
    open spec fn spec_label() -> u8 {
        10
    }

    open spec fn spec_size() -> nat {
        0
    }

    open spec fn payload(self) -> Seq<u8> {
        Seq::empty()
    }

    open spec fn parse(payload: Seq<u8>) -> Self {
        GetSerialNumber {  }
    }

    fn label() -> (l: u8) {
        10
    }

    fn size() -> (n: usize) {
        0
    }

    proof fn payload_reads_back(self) {
    }
}

impl TryFrom<Bytes> for GetSerialNumber {
    type Error = EnttecError;

    /// Decodes a whole frame: checks it, then reads the fields from its payload.
    fn try_from(value: Bytes) -> (decoded: Result<GetSerialNumber, EnttecError>)
        ensures
            decoded == decoding::<Self>(bytes_contents(value)),
    {
        match Self::frame_check(value) {
            Ok(_) => Ok(GetSerialNumber {  }),
            Err(e) => Err(e),
        }
    }
}

impl TryFromSpecImpl<Bytes> for GetSerialNumber {
    open spec fn obeys_try_from_spec() -> bool {
        true
    }

    open spec fn try_from_spec(value: Bytes) -> Result<Self, EnttecError> {
        decoding::<Self>(bytes_contents(value))
    }
}

impl Into<Bytes> for GetSerialNumber {
    /// Writes the payload bytes; the frame around them is the codec's.
    fn into(self) -> (payload: Bytes)
        ensures
            bytes_contents(payload) == self.payload(),
    {
        BytesMut::with_capacity(Self::size()).freeze()
    }
}

/// `into` is described by the bytes of its result, not by the result as a value: two
/// buffers that hold the same bytes are still two handles.
impl IntoSpecImpl<Bytes> for GetSerialNumber {
    open spec fn obeys_into_spec() -> bool {
        false
    }

    open spec fn into_spec(self) -> Bytes {
        arbitrary()
    }
}

impl CommandRecord for GetSerialNumber {
    proof fn into_writes_payload(self, out: Bytes) {
    }

    proof fn try_from_decodes(value: Bytes, out: Result<Self, EnttecError>) {
    }
}

/// The widget's serial number, as the four bytes it sends.
#[derive(Debug, Clone, Copy, PartialEq, Eq)]
pub struct GetSerialNumberReply {
    pub serial: [u8; 4],
}

impl EnttecPacket for GetSerialNumberReply {
    open spec fn spec_label() -> u8 {
        10
    }

    open spec fn spec_size() -> nat {
        4
    }

    open spec fn payload(self) -> Seq<u8> {
        self.serial@
    }

    open spec fn parse(payload: Seq<u8>) -> Self {
        GetSerialNumberReply { serial: [payload[0], payload[1], payload[2], payload[3]] }
    }

    fn label() -> (l: u8) {
        10
    }

    fn size() -> (n: usize) {
        4
    }

    proof fn payload_reads_back(self) {
        assert(Self::parse(self.payload()).serial =~= self.serial);
    }
}

impl TryFrom<Bytes> for GetSerialNumberReply {
    type Error = EnttecError;

    /// Decodes a whole frame: checks it, then reads the fields from its payload.
    fn try_from(value: Bytes) -> (decoded: Result<GetSerialNumberReply, EnttecError>)
        ensures
            decoded == decoding::<Self>(bytes_contents(value)),
    {
        match Self::frame_check(value) {
            Ok(frame) => {
                let slice = Self::frame_data(&frame);
                Ok(GetSerialNumberReply { serial: [slice[0], slice[1], slice[2], slice[3]] })
            },
            Err(e) => Err(e),
        }
    }
}

impl TryFromSpecImpl<Bytes> for GetSerialNumberReply {
    open spec fn obeys_try_from_spec() -> bool {
        true
    }

    open spec fn try_from_spec(value: Bytes) -> Result<Self, EnttecError> {
        decoding::<Self>(bytes_contents(value))
    }
}

impl Into<Bytes> for GetSerialNumberReply {
    /// Writes the payload bytes; the frame around them is the codec's.
    fn into(self) -> (payload: Bytes)
        ensures
            bytes_contents(payload) == self.payload(),
    {
        let mut bytes = BytesMut::with_capacity(Self::size());
        put_slice(&mut bytes, self.serial.as_slice());
        bytes.freeze()
    }
}

/// `into` is described by the bytes of its result, not by the result as a value: two
/// buffers that hold the same bytes are still two handles.
impl IntoSpecImpl<Bytes> for GetSerialNumberReply {
    open spec fn obeys_into_spec() -> bool {
        false
    }

    open spec fn into_spec(self) -> Bytes {
        arbitrary()
    }
}

impl CommandRecord for GetSerialNumberReply {
    proof fn into_writes_payload(self, out: Bytes) {
    }

    proof fn try_from_decodes(value: Bytes, out: Result<Self, EnttecError>) {
    }
}

} // verus!
