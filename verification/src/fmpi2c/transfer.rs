//! Transfers over the bus.

use vstd::prelude::*;

use super::check::{clear_nack, clear_nack_access, CheckFlags};
use super::register::{Register, RXNE, TXIS};
use crate::i2c::Error;
use crate::operation::{Access, Operation, Progress};

verus! {

/// Sending one byte of data.
#[derive(Clone, Copy, PartialEq, Eq, Debug)]
pub struct SendByte {
    pub byte: u8,
    pub phase: SendPhase,
}

/// How far the byte has come.
#[derive(Clone, Copy, PartialEq, Eq, Debug)]
pub enum SendPhase {
    /// ISR has to be read to see whether a byte is asked for.
    AwaitReady,
    /// The byte has to be written to the transmit data register.
    Push,
    /// ISR has to be read to see whether an acknowledge is missing.
    Confirm,
    /// An acknowledge is missing, and the flag that says so has to be cleared.
    Clear,
    /// The byte is sent, or an error was found.
    Done(Result<(), Error>),
}

impl SendByte {
    /// Sending `byte`, before the first access.
    pub open spec fn start(byte: u8) -> Self {
        SendByte { byte, phase: SendPhase::AwaitReady }
    }

    /// Prepares to send `byte`.
    pub fn new(byte: u8) -> (send: Self)
        ensures
            send == SendByte::start(byte),
    {
        SendByte { byte, phase: SendPhase::AwaitReady }
    }
}

impl Operation for SendByte {
    type Request = Access<Register>;

    type Output = Result<(), Error>;

    open spec fn progress(self) -> Progress<Access<Register>, Result<(), Error>> {
        match self.phase {
            SendPhase::AwaitReady => Progress::Pending(Access::Read(Register::Isr)),
            SendPhase::Push => Progress::Pending(Access::Write(Register::Txdr, self.byte as u32)),
            SendPhase::Confirm => Progress::Pending(Access::Read(Register::Isr)),
            SendPhase::Clear => Progress::Pending(clear_nack()),
            SendPhase::Done(result) => Progress::Finished(result),
        }
    }

    open spec fn after(self, value: u32) -> Self {
        SendByte {
            byte: self.byte,
            phase: match self.phase {
                SendPhase::AwaitReady => if CheckFlags::start(value) is Clear {
                    SendPhase::Clear
                } else if value & TXIS != 0 {
                    SendPhase::Push
                } else {
                    SendPhase::AwaitReady
                },
                SendPhase::Push => SendPhase::Confirm,
                SendPhase::Confirm => if CheckFlags::start(value) is Clear {
                    SendPhase::Clear
                } else {
                    SendPhase::Done(Ok(()))
                },
                SendPhase::Clear => SendPhase::Done(Err(Error::NACK)),
                SendPhase::Done(result) => SendPhase::Done(result),
            },
        }
    }

    fn poll(&self) -> (progress: Progress<Access<Register>, Result<(), Error>>) {
        match self.phase {
            SendPhase::AwaitReady => Progress::Pending(Access::Read(Register::Isr)),
            SendPhase::Push => Progress::Pending(Access::Write(Register::Txdr, self.byte as u32)),
            SendPhase::Confirm => Progress::Pending(Access::Read(Register::Isr)),
            SendPhase::Clear => Progress::Pending(clear_nack_access()),
            SendPhase::Done(result) => Progress::Finished(result),
        }
    }

    fn reply(&mut self, value: u32) {
        self.phase = match self.phase {
            SendPhase::AwaitReady => match CheckFlags::new(value) {
                CheckFlags::Clear => SendPhase::Clear,
                CheckFlags::Checked(_) => if value & TXIS != 0 {
                    SendPhase::Push
                } else {
                    SendPhase::AwaitReady
                },
            },
            SendPhase::Push => SendPhase::Confirm,
            SendPhase::Confirm => match CheckFlags::new(value) {
                CheckFlags::Clear => SendPhase::Clear,
                CheckFlags::Checked(_) => SendPhase::Done(Ok(())),
            },
            SendPhase::Clear => SendPhase::Done(Err(Error::NACK)),
            SendPhase::Done(result) => SendPhase::Done(result),
        };
    }

    proof fn lemma_finished_is_final(self, value: u32) {
    }
}

/// Receiving one byte of data.
#[derive(Clone, Copy, PartialEq, Eq, Debug)]
pub enum RecvByte {
    /// ISR has to be read to see whether a byte has come.
    AwaitByte,
    /// The receive data register has to be read.
    Pull,
    /// An acknowledge is missing, and the flag that says so has to be cleared.
    Clear,
    /// The byte has come, or an error was found.
    Done(Result<u8, Error>),
}

impl RecvByte {
    /// Receiving a byte, before the first access.
    pub open spec fn start() -> Self {
        RecvByte::AwaitByte
    }

    /// Prepares to receive a byte.
    pub fn new() -> (recv: Self)
        ensures
            recv == RecvByte::start(),
    {
        RecvByte::AwaitByte
    }
}

impl Operation for RecvByte {
    type Request = Access<Register>;

    type Output = Result<u8, Error>;

    open spec fn progress(self) -> Progress<Access<Register>, Result<u8, Error>> {
        match self {
            RecvByte::AwaitByte => Progress::Pending(Access::Read(Register::Isr)),
            RecvByte::Pull => Progress::Pending(Access::Read(Register::Rxdr)),
            RecvByte::Clear => Progress::Pending(clear_nack()),
            RecvByte::Done(result) => Progress::Finished(result),
        }
    }

    open spec fn after(self, value: u32) -> Self {
        match self {
            RecvByte::AwaitByte => if CheckFlags::start(value) is Clear {
                RecvByte::Clear
            } else if value & RXNE != 0 {
                RecvByte::Pull
            } else {
                RecvByte::AwaitByte
            },
            RecvByte::Pull => RecvByte::Done(Ok((value % 256) as u8)),
            RecvByte::Clear => RecvByte::Done(Err(Error::NACK)),
            RecvByte::Done(result) => RecvByte::Done(result),
        }
    }

    fn poll(&self) -> (progress: Progress<Access<Register>, Result<u8, Error>>) {
        match *self {
            RecvByte::AwaitByte => Progress::Pending(Access::Read(Register::Isr)),
            RecvByte::Pull => Progress::Pending(Access::Read(Register::Rxdr)),
            RecvByte::Clear => Progress::Pending(clear_nack_access()),
            RecvByte::Done(result) => Progress::Finished(result),
        }
    }

    fn reply(&mut self, value: u32) {
        *self = match *self {
            RecvByte::AwaitByte => match CheckFlags::new(value) {
                CheckFlags::Clear => RecvByte::Clear,
                CheckFlags::Checked(_) => if value & RXNE != 0 {
                    RecvByte::Pull
                } else {
                    RecvByte::AwaitByte
                },
            },
            RecvByte::Pull => RecvByte::Done(Ok((value % 256) as u8)),
            RecvByte::Clear => RecvByte::Done(Err(Error::NACK)),
            RecvByte::Done(result) => RecvByte::Done(result),
        };
    }

    proof fn lemma_finished_is_final(self, value: u32) {
    }
}

} // verus!
