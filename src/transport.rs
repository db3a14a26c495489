//! The transport contract: one request/reply exchange over the half-duplex
//! channel, with a bounded number of attempts.
//!
//! The caller owns the channel. Before each attempt it discards the
//! channel's pending input and output, writes the request, and reports the
//! outcome here; this module decides whether to read the reply, retry, or
//! stop.
use crate::codec::{payload_of, reply_payload, REPLY_LEN};
use crate::error::DriverError;
use vstd::prelude::*;

verus! {

/// Attempts made before an I/O failure is final.
pub const MAX_ATTEMPTS: u32 = 10;

/// What the caller does next in an exchange.
#[derive(Clone, Copy, Debug, PartialEq, Eq, Structural)]
pub enum ExchangeStep {
    /// Discard pending input and output, then write the request again.
    Retry,
    /// Wait the settle delay, then read one reply buffer of `REPLY_LEN` bytes.
    AwaitReply,
    /// The request went out; no reply is wanted.
    Delivered,
    /// The reply arrived and carries this register payload.
    Payload(u32),
    /// The exchange failed for good.
    Failed(DriverError),
}

/// The state of one exchange: how many attempts have been made, how long the
/// request is, and whether a reply is wanted.
#[derive(Clone, Copy, Debug, PartialEq, Eq, Structural)]
pub struct Exchange {
    pub attempt: u32,
    pub request_len: usize,
    pub reply_expected: bool,
}

impl Exchange {
    pub open spec fn wf(self) -> bool {
        1 <= self.attempt <= MAX_ATTEMPTS
    }

    /// Starts an exchange for a request of `request_len` bytes; its first
    /// attempt is about to be made.
    pub fn new(request_len: usize, reply_expected: bool) -> (r: Exchange)
        ensures
            r == (Exchange { attempt: 1, request_len, reply_expected }),
            r.wf(),
    {
        Exchange { attempt: 1, request_len, reply_expected }
    }

    /// The step after an I/O failure of the channel, on the write or on the
    /// read: another attempt while attempts remain, else failure.
    pub fn on_io_error(&mut self) -> (r: ExchangeStep)
        requires
            old(self).wf(),
        ensures
            final(self).wf(),
            old(self).attempt < MAX_ATTEMPTS ==> r == ExchangeStep::Retry && *final(self) == (
            Exchange { attempt: (old(self).attempt + 1) as u32, ..*old(self) }),
            old(self).attempt >= MAX_ATTEMPTS ==> r == ExchangeStep::Failed(
                DriverError::TransportIoError,
            ) && *final(self) == *old(self),
    {
        if self.attempt < MAX_ATTEMPTS {
            self.attempt = self.attempt + 1;
            ExchangeStep::Retry
        } else {
            ExchangeStep::Failed(DriverError::TransportIoError)
        }
    }

    /// The step after the channel accepted `written` bytes of the request.
    pub fn on_written(&self, written: usize) -> (r: ExchangeStep)
        ensures
            written != self.request_len ==> r == ExchangeStep::Failed(
                DriverError::FrameLengthMismatch,
            ),
            written == self.request_len && self.reply_expected ==> r == ExchangeStep::AwaitReply,
            written == self.request_len && !self.reply_expected ==> r == ExchangeStep::Delivered,
    {
        if written != self.request_len {
            ExchangeStep::Failed(DriverError::FrameLengthMismatch)
        } else if self.reply_expected {
            ExchangeStep::AwaitReply
        } else {
            ExchangeStep::Delivered
        }
    }

    /// The step after a reply buffer was read in full or in part: the first
    /// `received` bytes of `reply` are what arrived.
    pub fn on_reply(&self, reply: &Vec<u8>, received: usize) -> (r: ExchangeStep)
        ensures
            (received != REPLY_LEN || reply@.len() != REPLY_LEN) ==> r == ExchangeStep::Failed(
                DriverError::FrameLengthMismatch,
            ),
            (received == REPLY_LEN && reply@.len() == REPLY_LEN) ==> r == ExchangeStep::Payload(
                payload_of(reply@),
            ),
    {
        if received != REPLY_LEN || reply.len() != REPLY_LEN {
            ExchangeStep::Failed(DriverError::FrameLengthMismatch)
        } else {
            ExchangeStep::Payload(reply_payload(reply))
        }
    }
}

} // verus!
