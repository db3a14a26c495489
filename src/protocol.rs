//! The read-modify-write-verify protocol.
//!
//! The bus has no write acknowledgment, so a register write is checked by
//! reading the write counter (IFCNT) before and after it. A `RegisterWrite`
//! walks through the phases of one such transaction: it says which frame to
//! exchange next and takes the replies.
use crate::codec::{encode_read, encode_write, read_frame, write_frame};
use crate::current::{current_scale, ihold_irun_word, pack_ihold_irun, spec_ihold, spec_irun,
    HOLD_CURRENT_DELAY};
use crate::error::DriverError;
use crate::registers::{has_bits, with_field, CHOPCONF, IFCNT, VSENSE};
use vstd::prelude::*;

verus! {

/// Whether the write counter advanced by exactly one, modulo 256, from
/// `before` to `after`.
pub open spec fn write_accepted(before: u32, after: u32) -> bool {
    after % 256 == (before + 1) % 256
}

/// Checks a write by the write counter read before and after it.
pub fn write_check(ifcnt_before: u32, ifcnt_after: u32) -> (r: Result<(), DriverError>)
    ensures
        r is Ok <==> write_accepted(ifcnt_before, ifcnt_after),
        r is Err ==> r == Err::<(), DriverError>(DriverError::WriteVerificationFailure),
{
    if ifcnt_after % 256 == ((ifcnt_before % 256) + 1) % 256 {
        Ok(())
    } else {
        Err(DriverError::WriteVerificationFailure)
    }
}

/// How the value to write is obtained.
#[derive(Clone, Copy, Debug, PartialEq, Eq, Structural)]
pub enum Edit {
    /// The target's current value with the bits of the mask set.
    SetBits(u32),
    /// The target's current value with the bits of the mask cleared.
    ClearBits(u32),
    /// The target's current value with the bits under `mask` replaced by
    /// those of `bits`.
    Field { mask: u32, bits: u32 },
    /// A value fixed in advance; nothing is read first.
    Assign(u32),
    /// The IHOLD_IRUN word for a run current in milliamps, with the
    /// full-scale voltage chosen by the VSENSE bit of CHOPCONF.
    Current(u16),
}

/// The register read before the write, if any.
pub open spec fn source_of(target: u8, edit: Edit) -> Option<u8> {
    match edit {
        Edit::Assign(_) => None,
        Edit::Current(_) => Some(CHOPCONF),
        _ => Some(target),
    }
}

/// The value written, given the value read from the source register.
pub open spec fn edited(edit: Edit, read: u32) -> u32 {
    match edit {
        Edit::SetBits(m) => read | m,
        Edit::ClearBits(m) => read & !m,
        Edit::Field { mask, bits } => with_field(read, mask, bits),
        Edit::Assign(v) => v,
        Edit::Current(ma) => {
            let vsense = has_bits(read, VSENSE);
            ihold_irun_word(
                spec_ihold(ma as int, vsense) as u32,
                spec_irun(ma as int, vsense) as u32,
                HOLD_CURRENT_DELAY,
            )
        },
    }
}

fn edit_value(edit: Edit, read: u32) -> (r: u32)
    ensures
        r == edited(edit, read),
{
    match edit {
        Edit::SetBits(m) => read | m,
        Edit::ClearBits(m) => read & !m,
        Edit::Field { mask, bits } => (read & !mask) | (bits & mask),
        Edit::Assign(v) => v,
        Edit::Current(ma) => {
            let scale = current_scale(ma, read & VSENSE != 0);
            pack_ihold_irun(scale.ihold, scale.irun, HOLD_CURRENT_DELAY)
        },
    }
}

/// Where a transaction stands.
#[derive(Clone, Copy, Debug, PartialEq, Eq, Structural)]
pub enum Phase {
    /// Reading the register the new value is computed from.
    ReadSource,
    /// Reading the write counter before the write.
    CountBefore,
    /// Writing the new value.
    Write,
    /// Reading the write counter after the write.
    CountAfter,
    /// Finished; `accepted` says whether the write took effect.
    Complete,
}

/// What the caller exchanges on the bus next.
#[derive(Debug, PartialEq, Eq)]
pub enum BusRequest {
    /// Send this read frame and hand the reply's payload to `on_reply`.
    Query(Vec<u8>),
    /// Send this write frame and report it to `on_sent`.
    Send(Vec<u8>),
    /// The transaction is over, with this outcome.
    Finished(Result<(), DriverError>),
}

/// One verified register write: read the source register if the edit needs
/// it, read IFCNT, write, read IFCNT again, and compare.
#[derive(Clone, Copy, Debug, PartialEq, Eq, Structural)]
pub struct RegisterWrite {
    pub target: u8,
    pub edit: Edit,
    pub phase: Phase,
    /// The value to write, once known.
    pub value: u32,
    /// IFCNT before the write, once read.
    pub count_before: u32,
    /// Whether IFCNT advanced, once read after the write.
    pub accepted: bool,
}

impl RegisterWrite {
    /// A transaction that has not started.
    pub open spec fn spec_new(target: u8, edit: Edit) -> RegisterWrite {
        match edit {
            Edit::Assign(v) => RegisterWrite {
                target,
                edit,
                phase: Phase::CountBefore,
                value: v,
                count_before: 0,
                accepted: false,
            },
            _ => RegisterWrite {
                target,
                edit,
                phase: Phase::ReadSource,
                value: 0,
                count_before: 0,
                accepted: false,
            },
        }
    }

    /// The state after the reply payload `payload` to the current query.
    pub open spec fn spec_on_reply(self, payload: u32) -> RegisterWrite {
        match self.phase {
            Phase::ReadSource => RegisterWrite {
                phase: Phase::CountBefore,
                value: edited(self.edit, payload),
                ..self
            },
            Phase::CountBefore => RegisterWrite {
                phase: Phase::Write,
                count_before: payload,
                ..self
            },
            Phase::CountAfter => RegisterWrite {
                phase: Phase::Complete,
                accepted: write_accepted(self.count_before, payload),
                ..self
            },
            _ => self,
        }
    }

    /// The state after the write frame went out.
    pub open spec fn spec_on_sent(self) -> RegisterWrite {
        match self.phase {
            Phase::Write => RegisterWrite { phase: Phase::CountAfter, ..self },
            _ => self,
        }
    }

    /// Whether `r` is the request for this state.
    pub open spec fn requests(self, r: BusRequest) -> bool {
        match self.phase {
            Phase::ReadSource => match source_of(self.target, self.edit) {
                Some(src) => r is Query && r->Query_0@ == read_frame(src),
                None => r is Query && r->Query_0@ == read_frame(self.target),
            },
            Phase::CountBefore => r is Query && r->Query_0@ == read_frame(IFCNT),
            Phase::Write => r is Send && r->Send_0@ == write_frame(self.target, self.value),
            Phase::CountAfter => r is Query && r->Query_0@ == read_frame(IFCNT),
            Phase::Complete => r == BusRequest::Finished(
                if self.accepted {
                    Ok(())
                } else {
                    Err(DriverError::WriteVerificationFailure)
                },
            ),
        }
    }

    /// Starts a transaction that writes `target` with the value `edit`
    /// produces.
    pub fn new(target: u8, edit: Edit) -> (r: RegisterWrite)
        ensures
            r == RegisterWrite::spec_new(target, edit),
    {
        match edit {
            Edit::Assign(v) => RegisterWrite {
                target,
                edit,
                phase: Phase::CountBefore,
                value: v,
                count_before: 0,
                accepted: false,
            },
            _ => RegisterWrite {
                target,
                edit,
                phase: Phase::ReadSource,
                value: 0,
                count_before: 0,
                accepted: false,
            },
        }
    }

    /// The frame to exchange next, or the outcome once complete.
    pub fn request(&self) -> (r: BusRequest)
        ensures
            self.requests(r),
    {
        match self.phase {
            Phase::ReadSource => match self.edit {
                Edit::Current(_) => BusRequest::Query(encode_read(CHOPCONF)),
                _ => BusRequest::Query(encode_read(self.target)),
            },
            Phase::CountBefore => BusRequest::Query(encode_read(IFCNT)),
            Phase::Write => BusRequest::Send(encode_write(self.target, self.value)),
            Phase::CountAfter => BusRequest::Query(encode_read(IFCNT)),
            Phase::Complete => BusRequest::Finished(
                if self.accepted {
                    Ok(())
                } else {
                    Err(DriverError::WriteVerificationFailure)
                },
            ),
        }
    }

    /// Takes the payload of the reply to the current query. In a phase
    /// without a query the state stays as it is.
    pub fn on_reply(&mut self, payload: u32)
        ensures
            *final(self) == old(self).spec_on_reply(payload),
    {
        match self.phase {
            Phase::ReadSource => {
                self.value = edit_value(self.edit, payload);
                self.phase = Phase::CountBefore;
            },
            Phase::CountBefore => {
                self.count_before = payload;
                self.phase = Phase::Write;
            },
            Phase::CountAfter => {
                self.accepted = write_check(self.count_before, payload).is_ok();
                self.phase = Phase::Complete;
            },
            _ => {},
        }
    }

    /// Notes that the write frame went out. In another phase the state stays
    /// as it is.
    pub fn on_sent(&mut self)
        ensures
            *final(self) == old(self).spec_on_sent(),
    {
        match self.phase {
            Phase::Write => {
                self.phase = Phase::CountAfter;
            },
            _ => {},
        }
    }
}

/// What the write counter says of a write: a counter that stayed at `n` means the
/// write was lost; one that moved to the successor of `n` modulo 256 means
/// it was accepted, also where it wrapped from 255 to 0.
pub proof fn lemma_write_counter(n: u32)
    ensures
        !write_accepted(n, n),
        write_accepted(n, ((n + 1) % 256) as u32),
        write_accepted(255, 0),
{
}

/// The state of a transaction after the replies `source_value` (when the
/// edit reads a source register) and `before`, and before the write.
pub open spec fn ready_to_write(target: u8, edit: Edit, source_value: u32, before: u32) -> RegisterWrite {
    let s0 = RegisterWrite::spec_new(target, edit);
    let s1 = if source_of(target, edit) is Some {
        s0.spec_on_reply(source_value)
    } else {
        s0
    };
    s1.spec_on_reply(before)
}

/// A whole transaction: after the source reply (if any) and the first
/// counter reply it asks to write the edited value to the target; after the
/// write and the second counter reply it is complete, and it reports success
/// exactly when the counter advanced by one.
pub proof fn lemma_transaction_run(
    target: u8,
    edit: Edit,
    source_value: u32,
    before: u32,
    after: u32,
)
    ensures
        ({
            let w = ready_to_write(target, edit, source_value, before);
            let done = w.spec_on_sent().spec_on_reply(after);
            &&& w.phase == Phase::Write
            &&& w.count_before == before
            &&& w.value == if source_of(target, edit) is Some {
                edited(edit, source_value)
            } else {
                edited(edit, 0)
            }
            &&& done.phase == Phase::Complete
            &&& done.accepted == write_accepted(before, after)
            &&& done.target == target
        }),
{
}

} // verus!
