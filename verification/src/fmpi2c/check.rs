//! Checking for errors on the bus.

use vstd::prelude::*;

use super::register::{Register, NACKCF, NACKF, STOPCF};
use crate::i2c::Error;
use crate::operation::{Access, Operation, Progress};

verus! {

/// The access that clears a missing acknowledge, and the stop condition that comes with it.
pub open spec fn clear_nack() -> Access<Register> {
    Access::Write(Register::Icr, (STOPCF + NACKCF) as u32)
}

/// Returns the access that clears a missing acknowledge.
pub fn clear_nack_access() -> (access: Access<Register>)
    ensures
        access == clear_nack(),
{
    Access::Write(Register::Icr, STOPCF + NACKCF)
}

/// A check of a value of ISR for errors.
#[derive(Clone, Copy, PartialEq, Eq, Debug)]
pub enum CheckFlags {
    /// An acknowledge is missing, and the flag that says so has to be cleared.
    Clear,
    /// The check is over.
    Checked(Result<(), Error>),
}

impl CheckFlags {
    /// The check of `isr`, before its first access.
    pub open spec fn start(isr: u32) -> Self {
        if isr & NACKF != 0 {
            CheckFlags::Clear
        } else {
            CheckFlags::Checked(Ok(()))
        }
    }

    /// Prepares to check `isr`.
    pub fn new(isr: u32) -> (check: Self)
        ensures
            check == CheckFlags::start(isr),
    {
        if isr & NACKF != 0 {
            CheckFlags::Clear
        } else {
            CheckFlags::Checked(Ok(()))
        }
    }
}

impl Operation for CheckFlags {
    type Request = Access<Register>;

    type Output = Result<(), Error>;

    open spec fn progress(self) -> Progress<Access<Register>, Result<(), Error>> {
        match self {
            CheckFlags::Clear => Progress::Pending(clear_nack()),
            CheckFlags::Checked(result) => Progress::Finished(result),
        }
    }

    open spec fn after(self, value: u32) -> Self {
        match self {
            CheckFlags::Clear => CheckFlags::Checked(Err(Error::NACK)),
            CheckFlags::Checked(result) => CheckFlags::Checked(result),
        }
    }

    fn poll(&self) -> (progress: Progress<Access<Register>, Result<(), Error>>) {
        match *self {
            CheckFlags::Clear => Progress::Pending(clear_nack_access()),
            CheckFlags::Checked(result) => Progress::Finished(result),
        }
    }

    fn reply(&mut self, value: u32) {
        if let CheckFlags::Clear = *self {
            *self = CheckFlags::Checked(Err(Error::NACK));
        }
    }

    proof fn lemma_finished_is_final(self, value: u32) {
    }
}

} // verus!
