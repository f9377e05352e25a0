//! One request/reply exchange with the widget, as the decisions between the transport's
//! calls.
//!
//! The transport is not in this library. Its owner writes the frame that `begin` hands
//! out, reports the count to `Sending::written`, reads exactly `Receiving::reply_len`
//! bytes, and reports them to `Receiving::received`. Each step consumes the state of the
//! step before, so a read can only follow a write that took the whole frame.

use vstd::prelude::*;
use bytes::Bytes;
use std::marker::PhantomData;
use crate::buffer::{bytes_contents, bytes_from_vec};
use crate::codec::{decode, decoding, encode, encoding, lemma_encoding_len, CommandRecord};
use crate::error::EnttecError;
use crate::packet::{EnttecPacket, OVERHEAD};

verus! {

/// An exchange whose request frame has been handed to the transport. `R` is the reply
/// that the caller expects.
pub struct Sending<R> {
    frame_len: usize,
    reply: PhantomData<R>,
}

/// An exchange whose request went out whole and whose reply has not come yet.
pub struct Receiving<R> {
    reply: PhantomData<R>,
}

impl<R: CommandRecord> Sending<R> {
    /// The number of bytes of the request frame.
    pub closed spec fn frame_len(&self) -> nat {
        self.frame_len as nat
    }

    /// Takes what the transport's write reported. A failed write ends the exchange with
    /// the transport's error, a count other than the frame's length ends it with
    /// `Length`, and in neither case is there anything to read. Only a write of the
    /// whole frame leads on to the reply.
    pub fn written(self, outcome: Result<usize, std::io::Error>) -> (next: Result<
        Receiving<R>,
        EnttecError,
    >)
        ensures
            match outcome {
                Err(cause) => next matches Err(e) && e == EnttecError::Serial(cause),
                Ok(count) => if count == self.frame_len() {
                    next is Ok
                } else {
                    next matches Err(e) && e == EnttecError::Length
                },
            },
    {
        match outcome {
            Ok(count) => {
                if count == self.frame_len {
                    Ok(Receiving { reply: PhantomData })
                } else {
                    Err(EnttecError::Length)
                }
            },
            Err(err) => Err(EnttecError::Serial(err)),
        }
    }
}

impl<R: CommandRecord> Receiving<R> {
    /// The number of bytes to read from the transport: the reply's whole frame.
    pub fn reply_len(&self) -> (n: usize)
        ensures
            n == R::spec_size() + OVERHEAD,
    {
        R::size() + OVERHEAD
    }

    /// Takes what the transport's read gave. A failed or short read ends the exchange
    /// with the transport's error and nothing is decoded; a filled buffer is decoded as
    /// `R`, and a decoding error is passed on as it is.
    pub fn received(self, outcome: Result<Vec<u8>, std::io::Error>) -> (reply: Result<
        R,
        EnttecError,
    >)
        ensures
            match outcome {
                Err(cause) => reply matches Err(e) && e == EnttecError::Serial(cause),
                Ok(data) => reply == decoding::<R>(data@),
            },
    {
        match outcome {
            Ok(data) => decode(bytes_from_vec(data)),
            Err(err) => Err(EnttecError::Serial(err)),
        }
    }
}

/// Starts an exchange: encodes the request and hands out the frame to write, with the
/// state that waits for the write's outcome.
pub fn begin<S: CommandRecord, R: CommandRecord>(packet: S) -> (out: (Bytes, Sending<R>))
    ensures
        bytes_contents(out.0) == encoding(packet),
        out.1.frame_len() == encoding(packet).len(),
        out.1.frame_len() == S::spec_size() + OVERHEAD,
{
    let frame = encode(packet);
    proof {
        lemma_encoding_len(packet);
    }
    let sending = Sending { frame_len: S::size() + OVERHEAD, reply: PhantomData };
    (frame, sending)
}

} // verus!
