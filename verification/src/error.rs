//! The ways an exchange with the widget can fail.

use vstd::prelude::*;

verus! {

/// `std::io::Error`, carried through as the transport reported it and never looked into.
#[verifier::external_type_specification]
#[verifier::external_body]
pub struct ExIoError(std::io::Error);

/// Why a frame was rejected or an exchange was abandoned.
#[derive(Debug)]
pub enum EnttecError {
    /// The start or the end marker is wrong: the stream is out of step or corrupted.
    Frame,
    /// The buffer does not have the length of the packet that was asked for, or a write
    /// did not take the whole frame.
    Length,
    /// Markers and length are right, but the label belongs to another command.
    Label,
    /// The transport failed; the cause is kept as it was reported.
    Serial(std::io::Error),
}

} // verus!
