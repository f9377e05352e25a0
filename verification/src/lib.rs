//! Framing codec and request/reply exchange for an Enttec serial lighting widget.
//!
//! `packet` describes the wire frame and what a command record provides; `commands`
//! holds the records; `codec` encodes and decodes them; `widget` decides the steps of
//! one exchange; `buffer` states what is taken on trust from the `bytes` crate.

pub mod buffer;
pub mod codec;
pub mod commands;
pub mod error;
pub mod packet;
pub mod widget;

pub use crate::codec::{decode, encode, CommandRecord};
pub use crate::commands::{GetParameters, GetParametersReply, GetSerialNumber, GetSerialNumberReply};
pub use crate::error::EnttecError;
pub use crate::packet::{EnttecPacket, ValidFrame};
pub use crate::widget::{begin, Receiving, Sending};
