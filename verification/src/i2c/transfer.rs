//! Transfers over the bus.

use vstd::prelude::*;

use super::check::{judge, verdict, Check, CheckFlags};
use super::register::{Register, ADDR, BTF, BUSY, MSL, RXNE, SB, START, TXE};
use super::Error;
use crate::operation::{Access, Operation, Progress};

verus! {

/// Sending one byte of data.
#[derive(Clone, Copy, PartialEq, Eq, Debug)]
pub struct SendByte {
    pub byte: u8,
    pub phase: SendPhase,
}

/// How far the byte has come.
#[derive(Clone, Copy, PartialEq, Eq, Debug)]
pub enum SendPhase {
    /// The byte is on its way.
    Sending(SendStep),
    /// The byte is sent, or an error was found.
    Done(Result<(), Error>),
}

/// The next step of sending a byte.
#[derive(Clone, Copy, PartialEq, Eq, Debug)]
pub enum SendStep {
    /// SR1 is checked until the data register is empty.
    AwaitEmpty(Check),
    /// The byte has to be written to the data register.
    Push,
    /// SR1 is checked until the byte is transferred.
    AwaitTransfer(Check),
}

impl SendStep {
    /// The access that the step asks for.
    pub open spec fn request(self, byte: u8) -> Access<Register> {
        match self {
            SendStep::AwaitEmpty(check) => check.request(),
            SendStep::Push => Access::Write(Register::Dr, byte as u32),
            SendStep::AwaitTransfer(check) => check.request(),
        }
    }

    /// The phase after the step was answered with `value`.
    pub open spec fn next(self, value: u32) -> SendPhase {
        match self {
            SendStep::AwaitEmpty(check) => match check.next(value) {
                CheckFlags::Checking(next) => SendPhase::Sending(SendStep::AwaitEmpty(next)),
                CheckFlags::Checked { status } => match verdict(status) {
                    Err(error) => SendPhase::Done(Err(error.on_address())),
                    Ok(sr1) => if sr1 & TXE != 0 {
                        SendPhase::Sending(SendStep::Push)
                    } else {
                        SendPhase::Sending(SendStep::AwaitEmpty(Check::Read))
                    },
                },
            },
            SendStep::Push => SendPhase::Sending(SendStep::AwaitTransfer(Check::Read)),
            SendStep::AwaitTransfer(check) => match check.next(value) {
                CheckFlags::Checking(next) => SendPhase::Sending(SendStep::AwaitTransfer(next)),
                CheckFlags::Checked { status } => match verdict(status) {
                    Err(error) => SendPhase::Done(Err(error.on_data())),
                    Ok(sr1) => if sr1 & BTF != 0 {
                        SendPhase::Done(Ok(()))
                    } else {
                        SendPhase::Sending(SendStep::AwaitTransfer(Check::Read))
                    },
                },
            },
        }
    }

    /// Returns the access that the step asks for.
    pub fn access(self, byte: u8) -> (access: Access<Register>)
        ensures
            access == self.request(byte),
    {
        match self {
            SendStep::AwaitEmpty(check) => check.access(),
            SendStep::Push => Access::Write(Register::Dr, byte as u32),
            SendStep::AwaitTransfer(check) => check.access(),
        }
    }

    /// Takes the answer to the step.
    pub fn advance(self, value: u32) -> (phase: SendPhase)
        ensures
            phase == self.next(value),
    {
        match self {
            SendStep::AwaitEmpty(check) => match check.advance(value) {
                CheckFlags::Checking(next) => SendPhase::Sending(SendStep::AwaitEmpty(next)),
                CheckFlags::Checked { status } => match judge(status) {
                    Err(error) => SendPhase::Done(Err(error.nack_addr())),
                    Ok(sr1) => if sr1 & TXE != 0 {
                        SendPhase::Sending(SendStep::Push)
                    } else {
                        SendPhase::Sending(SendStep::AwaitEmpty(Check::Read))
                    },
                },
            },
            SendStep::Push => SendPhase::Sending(SendStep::AwaitTransfer(Check::Read)),
            SendStep::AwaitTransfer(check) => match check.advance(value) {
                CheckFlags::Checking(next) => SendPhase::Sending(SendStep::AwaitTransfer(next)),
                CheckFlags::Checked { status } => match judge(status) {
                    Err(error) => SendPhase::Done(Err(error.nack_data())),
                    Ok(sr1) => if sr1 & BTF != 0 {
                        SendPhase::Done(Ok(()))
                    } else {
                        SendPhase::Sending(SendStep::AwaitTransfer(Check::Read))
                    },
                },
            },
        }
    }
}

impl SendByte {
    /// Sending `byte`, before the first access.
    pub open spec fn start(byte: u8) -> Self {
        SendByte { byte, phase: SendPhase::Sending(SendStep::AwaitEmpty(Check::Read)) }
    }

    /// Prepares to send `byte`.
    pub fn new(byte: u8) -> (send: Self)
        ensures
            send == SendByte::start(byte),
    {
        SendByte { byte, phase: SendPhase::Sending(SendStep::AwaitEmpty(Check::Read)) }
    }
}

impl Operation for SendByte {
    type Request = Access<Register>;

    type Output = Result<(), Error>;

    open spec fn progress(self) -> Progress<Access<Register>, Result<(), Error>> {
        match self.phase {
            SendPhase::Sending(step) => Progress::Pending(step.request(self.byte)),
            SendPhase::Done(result) => Progress::Finished(result),
        }
    }

    open spec fn after(self, value: u32) -> Self {
        match self.phase {
            SendPhase::Sending(step) => SendByte { byte: self.byte, phase: step.next(value) },
            SendPhase::Done(_) => self,
        }
    }

    fn poll(&self) -> (progress: Progress<Access<Register>, Result<(), Error>>) {
        match self.phase {
            SendPhase::Sending(step) => Progress::Pending(step.access(self.byte)),
            SendPhase::Done(result) => Progress::Finished(result),
        }
    }

    fn reply(&mut self, value: u32) {
        if let SendPhase::Sending(step) = self.phase {
            self.phase = step.advance(value);
        }
    }

    proof fn lemma_finished_is_final(self, value: u32) {
    }
}

/// Receiving one byte of data.
#[derive(Clone, Copy, PartialEq, Eq, Debug)]
pub enum RecvByte {
    /// SR1 is checked for errors.
    CheckErrors(Check),
    /// SR1 has to be read to see whether a byte has come.
    ReadStatus,
    /// The data register has to be read.
    Pull,
    /// The byte has come, or an error was found.
    Done(Result<u8, Error>),
}

impl RecvByte {
    /// Receiving a byte, before the first access.
    pub open spec fn start() -> Self {
        RecvByte::CheckErrors(Check::Read)
    }

    /// Prepares to receive a byte.
    pub fn new() -> (recv: Self)
        ensures
            recv == RecvByte::start(),
    {
        RecvByte::CheckErrors(Check::Read)
    }
}

impl Operation for RecvByte {
    type Request = Access<Register>;

    type Output = Result<u8, Error>;

    open spec fn progress(self) -> Progress<Access<Register>, Result<u8, Error>> {
        match self {
            RecvByte::CheckErrors(check) => Progress::Pending(check.request()),
            RecvByte::ReadStatus => Progress::Pending(Access::Read(Register::Sr1)),
            RecvByte::Pull => Progress::Pending(Access::Read(Register::Dr)),
            RecvByte::Done(result) => Progress::Finished(result),
        }
    }

    open spec fn after(self, value: u32) -> Self {
        match self {
            RecvByte::CheckErrors(check) => match check.next(value) {
                CheckFlags::Checking(next) => RecvByte::CheckErrors(next),
                CheckFlags::Checked { status } => match verdict(status) {
                    Err(error) => RecvByte::Done(Err(error.on_data())),
                    Ok(_) => RecvByte::ReadStatus,
                },
            },
            RecvByte::ReadStatus => if value & RXNE != 0 {
                RecvByte::Pull
            } else {
                RecvByte::CheckErrors(Check::Read)
            },
            RecvByte::Pull => RecvByte::Done(Ok((value % 256) as u8)),
            RecvByte::Done(result) => RecvByte::Done(result),
        }
    }

    fn poll(&self) -> (progress: Progress<Access<Register>, Result<u8, Error>>) {
        match *self {
            RecvByte::CheckErrors(check) => Progress::Pending(check.access()),
            RecvByte::ReadStatus => Progress::Pending(Access::Read(Register::Sr1)),
            RecvByte::Pull => Progress::Pending(Access::Read(Register::Dr)),
            RecvByte::Done(result) => Progress::Finished(result),
        }
    }

    fn reply(&mut self, value: u32) {
        *self = match *self {
            RecvByte::CheckErrors(check) => match check.advance(value) {
                CheckFlags::Checking(next) => RecvByte::CheckErrors(next),
                CheckFlags::Checked { status } => match judge(status) {
                    Err(error) => RecvByte::Done(Err(error.nack_data())),
                    Ok(_) => RecvByte::ReadStatus,
                },
            },
            RecvByte::ReadStatus => if value & RXNE != 0 {
                RecvByte::Pull
            } else {
                RecvByte::CheckErrors(Check::Read)
            },
            RecvByte::Pull => RecvByte::Done(Ok((value % 256) as u8)),
            RecvByte::Done(result) => RecvByte::Done(result),
        };
    }

    proof fn lemma_finished_is_final(self, value: u32) {
    }
}

/// Writing bytes to the device at an address.
#[derive(Clone, Copy, PartialEq, Eq, Debug)]
pub struct WriteBytes {
    pub addr: u8,
    pub phase: WritePhase,
}

/// What writing bytes asks for.
#[derive(PartialEq, Eq, Debug)]
pub enum WriteRequest {
    /// Access a register of the peripheral.
    Bus(Access<Register>),
    /// Give the next byte to write, or say that there is none, in the form that
    /// [`WriteBytes::answer`] returns.
    NextByte,
}

/// How far the bytes have come.
#[derive(Clone, Copy, PartialEq, Eq, Debug)]
pub enum WritePhase {
    /// CR1 has to be read.
    Start,
    /// CR1, which holds `cr1`, has to be written with the start bit.
    WriteStart { cr1: u32 },
    /// SR1 is checked until the start condition was generated.
    AwaitStart(Check),
    /// SR1 is checked for errors before SR2 is read.
    AwaitMaster(Check),
    /// SR2 has to be read to see whether the peripheral is master or the bus is busy.
    ReadMaster,
    /// The address has to be written to the data register.
    PushAddress,
    /// SR1 is checked until the address was acknowledged.
    AwaitAddress(Check),
    /// SR2 has to be read, which ends the address phase.
    ClearAddress,
    /// The next byte has to be given.
    NextByte,
    /// `byte` is on its way.
    Send { byte: u8, step: SendStep },
    /// The bytes are written, or an error was found.
    Done(Result<(), Error>),
}

/// The answer to a request for the next byte when there is none.
pub const NO_BYTE: u32 = 0x100;

impl WriteBytes {
    /// Writing to the device at `addr`, before the first access.
    pub open spec fn start(addr: u8) -> Self {
        WriteBytes { addr, phase: WritePhase::Start }
    }

    /// The byte that a request for the next byte is answered with: `value`, if it is one.
    pub open spec fn answered_byte(value: u32) -> Option<u8> {
        if value < NO_BYTE {
            Some(value as u8)
        } else {
            None
        }
    }

    /// The phase after the pending request was answered with `value`.
    pub open spec fn next_phase(self, value: u32) -> WritePhase {
        match self.phase {
            WritePhase::Start => WritePhase::WriteStart { cr1: value },
            WritePhase::WriteStart { cr1: _ } => WritePhase::AwaitStart(Check::Read),
            WritePhase::AwaitStart(check) => match check.next(value) {
                CheckFlags::Checking(next) => WritePhase::AwaitStart(next),
                CheckFlags::Checked { status } => match verdict(status) {
                    Err(error) => WritePhase::Done(Err(error)),
                    Ok(sr1) => if sr1 & SB != 0 {
                        WritePhase::AwaitMaster(Check::Read)
                    } else {
                        WritePhase::AwaitStart(Check::Read)
                    },
                },
            },
            WritePhase::AwaitMaster(check) => match check.next(value) {
                CheckFlags::Checking(next) => WritePhase::AwaitMaster(next),
                CheckFlags::Checked { status } => match verdict(status) {
                    Err(error) => WritePhase::Done(Err(error)),
                    Ok(_) => WritePhase::ReadMaster,
                },
            },
            WritePhase::ReadMaster => if value & MSL != 0 || value & BUSY != 0 {
                WritePhase::PushAddress
            } else {
                WritePhase::AwaitMaster(Check::Read)
            },
            WritePhase::PushAddress => WritePhase::AwaitAddress(Check::Read),
            WritePhase::AwaitAddress(check) => match check.next(value) {
                CheckFlags::Checking(next) => WritePhase::AwaitAddress(next),
                CheckFlags::Checked { status } => match verdict(status) {
                    Err(error) => WritePhase::Done(Err(error.on_address())),
                    Ok(sr1) => if sr1 & ADDR != 0 {
                        WritePhase::ClearAddress
                    } else {
                        WritePhase::AwaitAddress(Check::Read)
                    },
                },
            },
            WritePhase::ClearAddress => WritePhase::NextByte,
            WritePhase::NextByte => match WriteBytes::answered_byte(value) {
                Some(byte) => WritePhase::Send { byte, step: SendStep::AwaitEmpty(Check::Read) },
                None => WritePhase::Done(Ok(())),
            },
            WritePhase::Send { byte, step } => match step.next(value) {
                SendPhase::Sending(next) => WritePhase::Send { byte, step: next },
                SendPhase::Done(Err(error)) => WritePhase::Done(Err(error)),
                SendPhase::Done(Ok(_)) => WritePhase::NextByte,
            },
            WritePhase::Done(result) => WritePhase::Done(result),
        }
    }

    /// Prepares to write to the device at `addr`.
    pub fn new(addr: u8) -> (write: Self)
        ensures
            write == WriteBytes::start(addr),
    {
        WriteBytes { addr, phase: WritePhase::Start }
    }

    /// Returns the answer to a request for the next byte, from the byte if there is one.
    pub fn answer(byte: Option<u8>) -> (value: u32)
        ensures
            WriteBytes::answered_byte(value) == byte,
            byte is None ==> value == NO_BYTE,
    {
        match byte {
            Some(byte) => byte as u32,
            None => NO_BYTE,
        }
    }
}

impl Operation for WriteBytes {
    type Request = WriteRequest;

    type Output = Result<(), Error>;

    open spec fn progress(self) -> Progress<WriteRequest, Result<(), Error>> {
        match self.phase {
            WritePhase::Start => Progress::Pending(
                WriteRequest::Bus(Access::Read(Register::Cr1)),
            ),
            WritePhase::WriteStart { cr1 } => Progress::Pending(
                WriteRequest::Bus(Access::Write(Register::Cr1, cr1 | START)),
            ),
            WritePhase::AwaitStart(check) => Progress::Pending(WriteRequest::Bus(check.request())),
            WritePhase::AwaitMaster(check) => Progress::Pending(WriteRequest::Bus(check.request())),
            WritePhase::ReadMaster => Progress::Pending(
                WriteRequest::Bus(Access::Read(Register::Sr2)),
            ),
            WritePhase::PushAddress => Progress::Pending(
                WriteRequest::Bus(Access::Write(Register::Dr, (self.addr * 2) as u32)),
            ),
            WritePhase::AwaitAddress(check) => Progress::Pending(
                WriteRequest::Bus(check.request()),
            ),
            WritePhase::ClearAddress => Progress::Pending(
                WriteRequest::Bus(Access::Read(Register::Sr2)),
            ),
            WritePhase::NextByte => Progress::Pending(WriteRequest::NextByte),
            WritePhase::Send { byte, step } => Progress::Pending(
                WriteRequest::Bus(step.request(byte)),
            ),
            WritePhase::Done(result) => Progress::Finished(result),
        }
    }

    open spec fn after(self, value: u32) -> Self {
        WriteBytes { addr: self.addr, phase: self.next_phase(value) }
    }

    fn poll(&self) -> (progress: Progress<WriteRequest, Result<(), Error>>) {
        match self.phase {
            WritePhase::Start => Progress::Pending(
                WriteRequest::Bus(Access::Read(Register::Cr1)),
            ),
            WritePhase::WriteStart { cr1 } => Progress::Pending(
                WriteRequest::Bus(Access::Write(Register::Cr1, cr1 | START)),
            ),
            WritePhase::AwaitStart(check) => Progress::Pending(WriteRequest::Bus(check.access())),
            WritePhase::AwaitMaster(check) => Progress::Pending(WriteRequest::Bus(check.access())),
            WritePhase::ReadMaster => Progress::Pending(
                WriteRequest::Bus(Access::Read(Register::Sr2)),
            ),
            WritePhase::PushAddress => Progress::Pending(
                WriteRequest::Bus(Access::Write(Register::Dr, self.addr as u32 * 2)),
            ),
            WritePhase::AwaitAddress(check) => Progress::Pending(WriteRequest::Bus(check.access())),
            WritePhase::ClearAddress => Progress::Pending(
                WriteRequest::Bus(Access::Read(Register::Sr2)),
            ),
            WritePhase::NextByte => Progress::Pending(WriteRequest::NextByte),
            WritePhase::Send { byte, step } => Progress::Pending(
                WriteRequest::Bus(step.access(byte)),
            ),
            WritePhase::Done(result) => Progress::Finished(result),
        }
    }

    fn reply(&mut self, value: u32) {
        self.phase = match self.phase {
            WritePhase::Start => WritePhase::WriteStart { cr1: value },
            WritePhase::WriteStart { .. } => WritePhase::AwaitStart(Check::Read),
            WritePhase::AwaitStart(check) => match check.advance(value) {
                CheckFlags::Checking(next) => WritePhase::AwaitStart(next),
                CheckFlags::Checked { status } => match judge(status) {
                    Err(error) => WritePhase::Done(Err(error)),
                    Ok(sr1) => if sr1 & SB != 0 {
                        WritePhase::AwaitMaster(Check::Read)
                    } else {
                        WritePhase::AwaitStart(Check::Read)
                    },
                },
            },
            WritePhase::AwaitMaster(check) => match check.advance(value) {
                CheckFlags::Checking(next) => WritePhase::AwaitMaster(next),
                CheckFlags::Checked { status } => match judge(status) {
                    Err(error) => WritePhase::Done(Err(error)),
                    Ok(_) => WritePhase::ReadMaster,
                },
            },
            WritePhase::ReadMaster => if value & MSL != 0 || value & BUSY != 0 {
                WritePhase::PushAddress
            } else {
                WritePhase::AwaitMaster(Check::Read)
            },
            WritePhase::PushAddress => WritePhase::AwaitAddress(Check::Read),
            WritePhase::AwaitAddress(check) => match check.advance(value) {
                CheckFlags::Checking(next) => WritePhase::AwaitAddress(next),
                CheckFlags::Checked { status } => match judge(status) {
                    Err(error) => WritePhase::Done(Err(error.nack_addr())),
                    Ok(sr1) => if sr1 & ADDR != 0 {
                        WritePhase::ClearAddress
                    } else {
                        WritePhase::AwaitAddress(Check::Read)
                    },
                },
            },
            WritePhase::ClearAddress => WritePhase::NextByte,
            WritePhase::NextByte => if value < NO_BYTE {
                WritePhase::Send { byte: value as u8, step: SendStep::AwaitEmpty(Check::Read) }
            } else {
                WritePhase::Done(Ok(()))
            },
            WritePhase::Send { byte, step } => match step.advance(value) {
                SendPhase::Sending(next) => WritePhase::Send { byte, step: next },
                SendPhase::Done(Err(error)) => WritePhase::Done(Err(error)),
                SendPhase::Done(Ok(_)) => WritePhase::NextByte,
            },
            WritePhase::Done(result) => WritePhase::Done(result),
        };
    }

    proof fn lemma_finished_is_final(self, value: u32) {
    }
}

/// A byte is answered with its own number, and the end of the bytes with one that no byte has.
pub proof fn law_answer(byte: Option<u8>, value: u32)
    requires
        call_ensures(WriteBytes::answer, (byte,), value),
    ensures
        byte matches Some(byte) ==> value == byte,
        byte is None ==> 256 <= value,
{
    law_answered_byte(value);
}

/// An answer is a byte if and only if it is less than 256, and then it is that byte.
pub proof fn law_answered_byte(value: u32)
    ensures
        WriteBytes::answered_byte(value) is Some <==> value < 256,
        WriteBytes::answered_byte(value) matches Some(byte) ==> byte == value,
{
}

} // verus!
