//! Checking for errors on the bus.

use vstd::prelude::*;

use super::register::{Register, AF, ARLO, BERR, OVR, PECERR, TIMEOUT};
use super::Error;
use crate::operation::{Access, Operation, Progress};

verus! {

/// A flag that the hardware raises in SR1 when something went wrong.
#[derive(Clone, Copy, PartialEq, Eq, Structural, Debug)]
pub enum Flag {
    Timeout,
    PecError,
    Overrun,
    AcknowledgeFailure,
    ArbitrationLost,
    /// May be raised although nothing went wrong, so it is cleared and otherwise ignored.
    BusError,
}

impl Flag {
    /// The bit of the flag in SR1.
    pub open spec fn bit(self) -> u32 {
        match self {
            Flag::Timeout => TIMEOUT,
            Flag::PecError => PECERR,
            Flag::Overrun => OVR,
            Flag::AcknowledgeFailure => AF,
            Flag::ArbitrationLost => ARLO,
            Flag::BusError => BERR,
        }
    }

    /// The error that the flag stands for, if it stands for one.
    pub open spec fn error(self) -> Option<Error> {
        match self {
            Flag::Timeout => Some(Error::TIMEOUT),
            Flag::PecError => Some(Error::CRC),
            Flag::Overrun => Some(Error::OVERRUN),
            Flag::AcknowledgeFailure => Some(Error::NACK),
            Flag::ArbitrationLost => Some(Error::ARBITRATION),
            Flag::BusError => None,
        }
    }

    /// The flag that a value of SR1 is taken to report: of those that are raised, the first in the
    /// order in which they are declared.
    pub open spec fn registered(status: u32) -> Option<Flag> {
        if status & TIMEOUT != 0 {
            Some(Flag::Timeout)
        } else if status & PECERR != 0 {
            Some(Flag::PecError)
        } else if status & OVR != 0 {
            Some(Flag::Overrun)
        } else if status & AF != 0 {
            Some(Flag::AcknowledgeFailure)
        } else if status & ARLO != 0 {
            Some(Flag::ArbitrationLost)
        } else if status & BERR != 0 {
            Some(Flag::BusError)
        } else {
            None
        }
    }

    /// Returns the bit of the flag in SR1.
    pub fn mask(self) -> (bit: u32)
        ensures
            bit == self.bit(),
    {
        match self {
            Flag::Timeout => TIMEOUT,
            Flag::PecError => PECERR,
            Flag::Overrun => OVR,
            Flag::AcknowledgeFailure => AF,
            Flag::ArbitrationLost => ARLO,
            Flag::BusError => BERR,
        }
    }

    /// Returns the flag that a value of SR1 is taken to report.
    pub fn find(status: u32) -> (flag: Option<Flag>)
        ensures
            flag == Flag::registered(status),
    {
        if status & TIMEOUT != 0 {
            Some(Flag::Timeout)
        } else if status & PECERR != 0 {
            Some(Flag::PecError)
        } else if status & OVR != 0 {
            Some(Flag::Overrun)
        } else if status & AF != 0 {
            Some(Flag::AcknowledgeFailure)
        } else if status & ARLO != 0 {
            Some(Flag::ArbitrationLost)
        } else if status & BERR != 0 {
            Some(Flag::BusError)
        } else {
            None
        }
    }
}

/// What a check of SR1 comes to: the error that is reported, or else the value itself.
pub open spec fn verdict(status: u32) -> Result<u32, Error> {
    match Flag::registered(status) {
        Some(flag) => match flag.error() {
            Some(error) => Err(error),
            None => Ok(status),
        },
        None => Ok(status),
    }
}

/// The bit that has to be cleared in SR1 once `status` was read from it; 0 if there is none.
pub open spec fn bit_to_clear(status: u32) -> u32 {
    match Flag::registered(status) {
        Some(flag) => flag.bit(),
        None => 0,
    }
}

/// The next step of a check of SR1 for errors.
#[derive(Clone, Copy, PartialEq, Eq, Structural, Debug)]
pub enum Check {
    /// SR1 has to be read.
    Read,
    /// `status` reports a flag, and SR1 has to be read once more to clear it.
    ReadAgain { status: u32 },
    /// `current` has to be written back to SR1 without the flag that `status` reports.
    Clear { status: u32, current: u32 },
}

/// A check of SR1 for errors. The flag that it finds is cleared, by reading SR1 once more and
/// writing the value back without the flag; the flags that it does not find stay as they are, so
/// that none is missed.
#[derive(Clone, Copy, PartialEq, Eq, Structural, Debug)]
pub enum CheckFlags {
    /// The check has a step to take.
    Checking(Check),
    /// The check is over; it found `status` in SR1.
    Checked { status: u32 },
}

impl Check {
    /// The access that the step asks for.
    pub open spec fn request(self) -> Access<Register> {
        match self {
            Check::Read => Access::Read(Register::Sr1),
            Check::ReadAgain { status: _ } => Access::Read(Register::Sr1),
            Check::Clear { status, current } => Access::Write(
                Register::Sr1,
                current & !bit_to_clear(status),
            ),
        }
    }

    /// The check after the step was answered with `value`.
    pub open spec fn next(self, value: u32) -> CheckFlags {
        match self {
            Check::Read => if Flag::registered(value) is Some {
                CheckFlags::Checking(Check::ReadAgain { status: value })
            } else {
                CheckFlags::Checked { status: value }
            },
            Check::ReadAgain { status } => CheckFlags::Checking(
                Check::Clear { status, current: value },
            ),
            Check::Clear { status, current: _ } => CheckFlags::Checked { status },
        }
    }

    /// Returns the access that the step asks for.
    pub fn access(self) -> (access: Access<Register>)
        ensures
            access == self.request(),
    {
        match self {
            Check::Read => Access::Read(Register::Sr1),
            Check::ReadAgain { .. } => Access::Read(Register::Sr1),
            Check::Clear { status, current } => {
                let bit: u32 = match Flag::find(status) {
                    Some(flag) => flag.mask(),
                    None => 0,
                };
                Access::Write(Register::Sr1, current & !bit)
            },
        }
    }

    /// Takes the answer to the step.
    pub fn advance(self, value: u32) -> (check: CheckFlags)
        ensures
            check == self.next(value),
    {
        match self {
            Check::Read => match Flag::find(value) {
                Some(_) => CheckFlags::Checking(Check::ReadAgain { status: value }),
                None => CheckFlags::Checked { status: value },
            },
            Check::ReadAgain { status } => CheckFlags::Checking(
                Check::Clear { status, current: value },
            ),
            Check::Clear { status, .. } => CheckFlags::Checked { status },
        }
    }
}

/// Returns what a check of SR1 comes to once it found `status` there.
pub fn judge(status: u32) -> (result: Result<u32, Error>)
    ensures
        result == verdict(status),
{
    match Flag::find(status) {
        Some(Flag::Timeout) => Err(Error::TIMEOUT),
        Some(Flag::PecError) => Err(Error::CRC),
        Some(Flag::Overrun) => Err(Error::OVERRUN),
        Some(Flag::AcknowledgeFailure) => Err(Error::NACK),
        Some(Flag::ArbitrationLost) => Err(Error::ARBITRATION),
        Some(Flag::BusError) | None => Ok(status),
    }
}

impl Operation for CheckFlags {
    type Request = Access<Register>;

    type Output = Result<u32, Error>;

    open spec fn progress(self) -> Progress<Access<Register>, Result<u32, Error>> {
        match self {
            CheckFlags::Checking(check) => Progress::Pending(check.request()),
            CheckFlags::Checked { status } => Progress::Finished(verdict(status)),
        }
    }

    open spec fn after(self, value: u32) -> Self {
        match self {
            CheckFlags::Checking(check) => check.next(value),
            CheckFlags::Checked { status } => CheckFlags::Checked { status },
        }
    }

    fn poll(&self) -> (progress: Progress<Access<Register>, Result<u32, Error>>) {
        match *self {
            CheckFlags::Checking(check) => Progress::Pending(check.access()),
            CheckFlags::Checked { status } => Progress::Finished(judge(status)),
        }
    }

    fn reply(&mut self, value: u32) {
        if let CheckFlags::Checking(check) = *self {
            *self = check.advance(value);
        }
    }

    proof fn lemma_finished_is_final(self, value: u32) {
    }
}

/// A bus error, if nothing else is raised, is cleared and otherwise ignored.
pub proof fn law_bus_error_is_ignored(status: u32)
    requires
        Flag::registered(status) == Some(Flag::BusError),
    ensures
        bit_to_clear(status) == BERR,
        verdict(status) == Ok::<u32, Error>(status),
{
}

/// Whether `bit` is the highest of the flags that are raised in `status`: one bit, which is set there
/// and is one of those of the flags, with no flag set above it.
pub open spec fn is_highest_flag(status: u32, bit: u32) -> bool {
    &&& bit == 0x4000 || bit == 0x1000 || bit == 0x0800 || bit == 0x0400 || bit == 0x0200 || bit
        == 0x0100
    &&& status & bit == bit
    &&& status & 0x5f00 < 2 * bit
}

/// A check reports a flag only if it is raised, and none only if none is: of the flags that are
/// raised in SR1 it takes the one of the highest bit.
pub proof fn law_find_takes_the_highest(status: u32, flag: Option<Flag>, bit: u32)
    requires
        call_ensures(Flag::find, (status,), flag),
        flag matches Some(flag) ==> call_ensures(Flag::mask, (flag,), bit),
    ensures
        flag is None <==> status & 0x5f00 == 0,
        flag is Some ==> is_highest_flag(status, bit),
{
    lemma_flag_bits(status);
}

/// What each flag stands for in SR1: it is reported if and only if its bit is set and the bit of no
/// flag above it is.
pub proof fn law_find(status: u32, flag: Option<Flag>)
    requires
        call_ensures(Flag::find, (status,), flag),
    ensures
        flag == Some(Flag::Timeout) <==> status & 0x4000 == 0x4000,
        flag == Some(Flag::PecError) <==> status & 0x5000 == 0x1000,
        flag == Some(Flag::Overrun) <==> status & 0x5800 == 0x0800,
        flag == Some(Flag::AcknowledgeFailure) <==> status & 0x5c00 == 0x0400,
        flag == Some(Flag::ArbitrationLost) <==> status & 0x5e00 == 0x0200,
        flag == Some(Flag::BusError) <==> status & 0x5f00 == 0x0100,
        flag == None::<Flag> <==> status & 0x5f00 == 0,
{
    lemma_flag_bits(status);
}

/// What a check of SR1 comes to, by the bits of the value: the value itself is returned if and only
/// if no bit stands for an error, and each error comes if and only if its bit is set and none above
/// it.
pub proof fn law_verdict(status: u32)
    ensures
        verdict(status) == Err::<u32, Error>(Error::TIMEOUT) <==> status & 0x4000 == 0x4000,
        verdict(status) == Err::<u32, Error>(Error::CRC) <==> status & 0x5000 == 0x1000,
        verdict(status) == Err::<u32, Error>(Error::OVERRUN) <==> status & 0x5800 == 0x0800,
        verdict(status) == Err::<u32, Error>(Error::NACK) <==> status & 0x5c00 == 0x0400,
        verdict(status) == Err::<u32, Error>(Error::ARBITRATION) <==> status & 0x5e00 == 0x0200,
        verdict(status) is Ok <==> status & 0x5e00 == 0,
        verdict(status) matches Ok(value) ==> value == status,
        verdict(status) matches Err(error) ==> error != Error::BUS && error != Error::NACK_ADDR
            && error != Error::NACK_DATA,
        Flag::registered(status) is None <==> status & 0x5f00 == 0,
{
    lemma_flag_bits(status);
}

/// Judging a value of SR1 returns what [`law_verdict`] says.
pub proof fn law_judge(status: u32, result: Result<u32, Error>)
    requires
        call_ensures(judge, (status,), result),
    ensures
        result == Err::<u32, Error>(Error::TIMEOUT) <==> status & 0x4000 == 0x4000,
        result == Err::<u32, Error>(Error::CRC) <==> status & 0x5000 == 0x1000,
        result == Err::<u32, Error>(Error::OVERRUN) <==> status & 0x5800 == 0x0800,
        result == Err::<u32, Error>(Error::NACK) <==> status & 0x5c00 == 0x0400,
        result == Err::<u32, Error>(Error::ARBITRATION) <==> status & 0x5e00 == 0x0200,
        result == Ok::<u32, Error>(status) <==> status & 0x5e00 == 0,
{
    law_verdict(status);
}

/// The bit that is cleared once `status` was read is 0 if no flag is raised there, and else the
/// highest that is: clearing it leaves every other bit as it was.
pub proof fn law_bit_to_clear(status: u32, current: u32)
    ensures
        status & 0x5f00 == 0 ==> bit_to_clear(status) == 0,
        status & 0x5f00 != 0 ==> is_highest_flag(status, bit_to_clear(status)),
        (current & !bit_to_clear(status)) & bit_to_clear(status) == 0,
        (current & !bit_to_clear(status)) | (current & bit_to_clear(status)) == current,
{
    lemma_flag_bits(status);
    let bit = bit_to_clear(status);
    assert((current & !bit) & bit == 0 && (current & !bit) | (current & bit) == current)
        by (bit_vector);
}

/// The bits of SR1 in two ways: one by one from the top, and all those down to each at once.
proof fn lemma_flag_bits(status: u32)
    ensures
        status & 0x4000 == 0x4000 <==> status & 0x4000 != 0,
        status & 0x5000 == 0x1000 <==> status & 0x4000 == 0 && status & 0x1000 != 0,
        status & 0x5800 == 0x0800 <==> status & 0x4000 == 0 && status & 0x1000 == 0 && status
            & 0x0800 != 0,
        status & 0x5c00 == 0x0400 <==> status & 0x4000 == 0 && status & 0x1000 == 0 && status
            & 0x0800 == 0 && status & 0x0400 != 0,
        status & 0x5e00 == 0x0200 <==> status & 0x4000 == 0 && status & 0x1000 == 0 && status
            & 0x0800 == 0 && status & 0x0400 == 0 && status & 0x0200 != 0,
        status & 0x5f00 == 0x0100 <==> status & 0x4000 == 0 && status & 0x1000 == 0 && status
            & 0x0800 == 0 && status & 0x0400 == 0 && status & 0x0200 == 0 && status & 0x0100 != 0,
        status & 0x5e00 == 0 <==> status & 0x4000 == 0 && status & 0x1000 == 0 && status & 0x0800
            == 0 && status & 0x0400 == 0 && status & 0x0200 == 0,
        status & 0x5f00 == 0 <==> status & 0x5e00 == 0 && status & 0x0100 == 0,
        status & 0x4000 == 0x4000 ==> 0x4000 <= status & 0x5f00 < 0x8000,
        status & 0x5000 == 0x1000 ==> 0x1000 <= status & 0x5f00 < 0x2000,
        status & 0x5800 == 0x0800 ==> 0x0800 <= status & 0x5f00 < 0x1000,
        status & 0x5c00 == 0x0400 ==> 0x0400 <= status & 0x5f00 < 0x0800,
        status & 0x5e00 == 0x0200 ==> 0x0200 <= status & 0x5f00 < 0x0400,
        forall|bit: u32|
            (bit == 0x4000 || bit == 0x1000 || bit == 0x0800 || bit == 0x0400 || bit == 0x0200
                || bit == 0x0100) && status & bit != 0 ==> #[trigger] (status & bit) == bit,
{
    assert(status & 0x4000 == 0x4000 <==> status & 0x4000 != 0) by (bit_vector);
    assert(status & 0x5000 == 0x1000 <==> status & 0x4000 == 0 && status & 0x1000 != 0)
        by (bit_vector);
    assert(status & 0x5800 == 0x0800 <==> status & 0x4000 == 0 && status & 0x1000 == 0 && status
        & 0x0800 != 0) by (bit_vector);
    assert(status & 0x5c00 == 0x0400 <==> status & 0x4000 == 0 && status & 0x1000 == 0 && status
        & 0x0800 == 0 && status & 0x0400 != 0) by (bit_vector);
    assert(status & 0x5e00 == 0x0200 <==> status & 0x4000 == 0 && status & 0x1000 == 0 && status
        & 0x0800 == 0 && status & 0x0400 == 0 && status & 0x0200 != 0) by (bit_vector);
    assert(status & 0x5f00 == 0x0100 <==> status & 0x4000 == 0 && status & 0x1000 == 0 && status
        & 0x0800 == 0 && status & 0x0400 == 0 && status & 0x0200 == 0 && status & 0x0100 != 0)
        by (bit_vector);
    assert(status & 0x5e00 == 0 <==> status & 0x4000 == 0 && status & 0x1000 == 0 && status & 0x0800
        == 0 && status & 0x0400 == 0 && status & 0x0200 == 0) by (bit_vector);
    assert(status & 0x5f00 == 0 <==> status & 0x5e00 == 0 && status & 0x0100 == 0) by (bit_vector);
    assert(status & 0x4000 == 0x4000 ==> 0x4000 <= status & 0x5f00 < 0x8000) by (bit_vector);
    assert(status & 0x5000 == 0x1000 ==> 0x1000 <= status & 0x5f00 < 0x2000) by (bit_vector);
    assert(status & 0x5800 == 0x0800 ==> 0x0800 <= status & 0x5f00 < 0x1000) by (bit_vector);
    assert(status & 0x5c00 == 0x0400 ==> 0x0400 <= status & 0x5f00 < 0x0800) by (bit_vector);
    assert(status & 0x5e00 == 0x0200 ==> 0x0200 <= status & 0x5f00 < 0x0400) by (bit_vector);
    assert forall|bit: u32|
        (bit == 0x4000 || bit == 0x1000 || bit == 0x0800 || bit == 0x0400 || bit == 0x0200 || bit
            == 0x0100) && status & bit != 0 implies #[trigger] (status & bit) == bit by {
        assert(status & bit == bit) by (bit_vector)
            requires
                bit == 0x4000 || bit == 0x1000 || bit == 0x0800 || bit == 0x0400 || bit == 0x0200
                    || bit == 0x0100,
                status & bit != 0,
        ;
    }
}

} // verus!
