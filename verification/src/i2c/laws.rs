//! What holds of checks and of transfers of one byte, whatever the peripheral answers.

use vstd::prelude::*;

use super::check::{
    bit_to_clear, is_highest_flag, law_bit_to_clear, law_verdict, verdict, Check, CheckFlags, Flag,
};
use super::init::Init;
use super::observe::{
    checking, clears_what_it_saw, data_writes, ends_checked, ends_checking, error_in, finding,
    finds, follows_checks, is_on_status, lemma_check_step, lemma_never_fails, lemma_observe_push,
    never_fails, stops_on_error, Trace,
};
use super::register::{Register, BTF, RXNE, TXE};
use super::transfer::{RecvByte, SendByte, SendPhase, SendStep, WriteBytes, WriteRequest};
use super::Error;
use crate::operation::{
    each, lemma_each_push, run, trace, Access, Exchange, Operation, Progress,
};

verus! {

/// A check reads SR1, and is over after that unless a flag is raised; if one is, SR1 is read once
/// more and written back without the flag. What the check comes to rests on the first value alone.
pub proof fn law_check(replies: Seq<u32>)
    ensures
        ({
            let start = CheckFlags::Checking(Check::Read);
            let exchanged = trace(start, replies);
            &&& each(exchanged, |b, e| clears_what_it_saw(b, e))
            &&& exchanged.len() <= 3
            &&& run(start, replies).progress() matches Progress::Finished(result) ==> {
                &&& result == verdict(exchanged[0].reply)
                &&& ends_checked(exchanged, exchanged[0].reply)
                &&& exchanged.len() == (if Flag::registered(exchanged[0].reply) is Some {
                    3int
                } else {
                    1int
                })
            }
            &&& replies.len() >= 3 ==> run(start, replies).progress() is Finished
        }),
{
    lemma_check_run(replies);
}

proof fn lemma_check_run(replies: Seq<u32>)
    ensures
        ({
            let start = CheckFlags::Checking(Check::Read);
            let exchanged = trace(start, replies);
            &&& each(exchanged, |b, e| clears_what_it_saw(b, e))
            &&& match run(start, replies) {
                CheckFlags::Checking(check) => {
                    &&& ends_checking(exchanged, check)
                    &&& replies.len() == exchanged.len()
                    &&& exchanged.len() == (match check {
                        Check::Read => 0int,
                        Check::ReadAgain { status: _ } => 1int,
                        Check::Clear { status: _, current: _ } => 2int,
                    })
                },
                CheckFlags::Checked { status } => {
                    &&& ends_checked(exchanged, status)
                    &&& exchanged.len() == (if Flag::registered(status) is Some {
                        3int
                    } else {
                        1int
                    })
                },
            }
        }),
    decreases replies.len(),
{
    let start = CheckFlags::Checking(Check::Read);
    if replies.len() > 0 {
        lemma_check_run(replies.drop_last());
        let before = run(start, replies.drop_last());
        if let CheckFlags::Checking(check) = before {
            let exchange = Exchange { request: check.request(), reply: replies.last() };
            lemma_check_step(trace(start, replies.drop_last()), check, replies.last());
            lemma_each_push(
                trace(start, replies.drop_last()),
                exchange,
                |b, e| clears_what_it_saw(b, e),
            );
        }
    }
}

/// Data is only written right after a check that has found the data register empty and no error.
pub open spec fn waits_for_empty(before: Trace, exchange: Exchange<Access<Register>>) -> bool {
    exchange.request matches Access::Write(Register::Dr, _) ==> finds(before, TXE)
}

/// While a byte is sent, SR1 is checked until the data register is found empty, the byte is written
/// right after that, and then SR1 is checked again; no other register is accessed.
pub open spec fn sends(byte: u8, before: Trace, exchange: Exchange<Access<Register>>) -> bool {
    exchange.request == if data_writes(before).len() == 0 && finds(before, TXE) {
        Access::Write(Register::Dr, byte as u32)
    } else {
        checking(before).request()
    }
}

/// Whether `trace` ends with what `check` has done so far, and no error was found before.
pub open spec fn is_checking(trace: Trace, check: Check) -> bool {
    &&& ends_checking(trace, check)
    &&& checking(trace) == check
    &&& error_in(finding(trace)) is None
}

/// Whether `trace` ends with what `step` has done so far of sending a byte.
pub open spec fn is_sending(trace: Trace, step: SendStep) -> bool {
    match step {
        SendStep::AwaitEmpty(check) => is_checking(trace, check),
        SendStep::Push => is_checking(trace, Check::Read) && finds(trace, TXE),
        SendStep::AwaitTransfer(check) => is_checking(trace, check),
    }
}

/// One step of a check that is part of a transfer.
pub proof fn lemma_checking_step(trace: Trace, check: Check, value: u32)
    requires
        is_checking(trace, check),
    ensures
        ({
            let exchange = Exchange { request: check.request(), reply: value };
            let longer = trace.push(exchange);
            &&& is_on_status(exchange.request)
            &&& clears_what_it_saw(trace, exchange)
            &&& follows_checks(trace, exchange)
            &&& stops_on_error(trace, exchange)
            &&& data_writes(longer) == data_writes(trace)
            &&& match check.next(value) {
                CheckFlags::Checking(next) => is_checking(longer, next) && finding(longer)
                    == None::<u32>,
                CheckFlags::Checked { status } => {
                    &&& finding(longer) == Some(status)
                    &&& ends_checked(longer, status)
                    &&& checking(longer) == Check::Read
                },
            }
        }),
{
    lemma_check_step(trace, check, value);
    lemma_observe_push(trace, Exchange { request: check.request(), reply: value });
}

/// One step of sending a byte.
pub proof fn lemma_send_step(trace: Trace, byte: u8, step: SendStep, value: u32)
    requires
        is_sending(trace, step),
    ensures
        ({
            let exchange = Exchange { request: step.request(byte), reply: value };
            let longer = trace.push(exchange);
            &&& clears_what_it_saw(trace, exchange)
            &&& follows_checks(trace, exchange)
            &&& stops_on_error(trace, exchange)
            &&& waits_for_empty(trace, exchange)
            &&& exchange.request matches Access::Write(Register::Dr, _) ==> step is Push
            &&& exchange.request matches Access::Write(register, _) ==> register == Register::Sr1
                || register == Register::Dr
            &&& exchange.request matches Access::Read(register) ==> register == Register::Sr1
            &&& data_writes(longer) == (if step is Push {
                data_writes(trace).push(byte as u32)
            } else {
                data_writes(trace)
            })
            &&& match step.next(value) {
                SendPhase::Sending(next) => {
                    &&& is_sending(longer, next)
                    &&& next is AwaitTransfer <==> (step is Push || step is AwaitTransfer)
                    &&& next is AwaitEmpty ==> !finds(longer, TXE)
                    &&& step is AwaitTransfer ==> !finds(longer, BTF)
                    &&& step is Push ==> finding(longer) is None
                },
                SendPhase::Done(Ok(_)) => {
                    &&& step is AwaitTransfer
                    &&& finds(longer, BTF)
                    &&& is_checking(longer, Check::Read)
                },
                SendPhase::Done(Err(error)) => {
                    &&& finding(longer) matches Some(status)
                    &&& ends_checked(longer, status)
                    &&& verdict(status) matches Err(raw)
                    &&& step is AwaitEmpty || step is AwaitTransfer
                    &&& error == if step is AwaitTransfer {
                        raw.on_data()
                    } else {
                        raw.on_address()
                    }
                },
            }
        }),
{
    match step {
        SendStep::AwaitEmpty(check) => {
            lemma_checking_step(trace, check, value);
        },
        SendStep::Push => {
            lemma_observe_push(trace, Exchange { request: step.request(byte), reply: value });
        },
        SendStep::AwaitTransfer(check) => {
            lemma_checking_step(trace, check, value);
        },
    }
}

/// The error that sending a byte ends with once a check reports `raw`: a missing acknowledge is
/// that of the address before the byte was written, and that of the data after it.
pub open spec fn send_error(trace: Trace, raw: Error) -> Error {
    if data_writes(trace).len() == 0 {
        raw.on_address()
    } else {
        raw.on_data()
    }
}

/// Sending a byte writes that byte to the data register, once, as soon as a check has found the
/// register empty, and writes no other data. All it does besides is to check SR1 for errors.
///
/// It succeeds if and only if a check after that write finds the transfer finished, as soon as that
/// check is over, and then no check has ever found an error. It fails if and only if a check finds an error, as soon as that
/// check is over and its flag cleared: with [`Error::NACK_ADDR`] in place of [`Error::NACK`] before
/// the write, with [`Error::NACK_DATA`] after it, and with [`Error::BUS`] never.
pub proof fn law_send_byte(byte: u8, replies: Seq<u32>)
    ensures
        ({
            let start = SendByte::start(byte);
            let exchanged = trace(start, replies);
            &&& each(exchanged, |b, e| clears_what_it_saw(b, e))
            &&& each(exchanged, |b, e| follows_checks(b, e))
            &&& each(exchanged, |b, e| stops_on_error(b, e))
            &&& each(exchanged, |b, e| waits_for_empty(b, e))
            &&& each(exchanged, |b, e| sends(byte, b, e))
            &&& data_writes(exchanged) == Seq::<u32>::empty() || data_writes(exchanged) == seq![
                byte as u32,
            ]
            &&& data_writes(exchanged).len() == 1 && finds(exchanged, BTF) ==> (run(
                start,
                replies,
            ).progress() matches Progress::Finished(Ok(_)))
            &&& error_in(finding(exchanged)) matches Some(raw) ==> {
                &&& finding(exchanged) matches Some(status) && ends_checked(exchanged, status)
                &&& run(start, replies).progress() == Progress::<Access<Register>, _>::Finished(
                    Err::<(), Error>(send_error(exchanged, raw)),
                )
            }
            &&& match run(start, replies).progress() {
                Progress::Pending(_) => true,
                Progress::Finished(Ok(_)) => {
                    &&& data_writes(exchanged) == seq![byte as u32]
                    &&& finds(exchanged, BTF)
                    &&& never_fails(exchanged)
                },
                Progress::Finished(Err(error)) => {
                    &&& error != Error::BUS
                    &&& error_in(finding(exchanged)) is Some
                },
            }
        }),
{
    lemma_send_run(byte, replies);
    let exchanged = trace(SendByte::start(byte), replies);
    if error_in(finding(exchanged)) is None {
        let rule = |b: Trace, e: Exchange<Access<Register>>| stops_on_error(b, e);
        assert forall|i: int| 0 <= i < exchanged.len() implies stops_on_error(
            exchanged.take(i),
            #[trigger] exchanged[i],
        ) by {
            assert(rule(exchanged.take(i), exchanged[i]));
        }
        lemma_never_fails(exchanged);
    }
}

proof fn lemma_send_run(byte: u8, replies: Seq<u32>)
    ensures
        ({
            let start = SendByte::start(byte);
            let exchanged = trace(start, replies);
            &&& run(start, replies).byte == byte
            &&& each(exchanged, |b, e| clears_what_it_saw(b, e))
            &&& each(exchanged, |b, e| follows_checks(b, e))
            &&& each(exchanged, |b, e| stops_on_error(b, e))
            &&& each(exchanged, |b, e| waits_for_empty(b, e))
            &&& each(exchanged, |b, e| sends(byte, b, e))
            &&& match run(start, replies).phase {
                SendPhase::Sending(step) => {
                    &&& is_sending(exchanged, step)
                    &&& step is AwaitEmpty ==> !finds(exchanged, TXE)
                    &&& step is AwaitTransfer ==> !finds(exchanged, BTF)
                    &&& data_writes(exchanged) == (if step is AwaitTransfer {
                        seq![byte as u32]
                    } else {
                        Seq::<u32>::empty()
                    })
                },
                SendPhase::Done(Ok(_)) => {
                    &&& data_writes(exchanged) == seq![byte as u32]
                    &&& finds(exchanged, BTF)
                },
                SendPhase::Done(Err(error)) => {
                    &&& data_writes(exchanged) == Seq::<u32>::empty() || data_writes(exchanged)
                        == seq![byte as u32]
                    &&& finding(exchanged) matches Some(status)
                    &&& ends_checked(exchanged, status)
                    &&& verdict(status) matches Err(raw)
                    &&& error == send_error(exchanged, raw)
                },
            }
        }),
    decreases replies.len(),
{
    let start = SendByte::start(byte);
    if replies.len() > 0 {
        let shorter = replies.drop_last();
        lemma_send_run(byte, shorter);
        let before = trace(start, shorter);
        if let SendPhase::Sending(step) = run(start, shorter).phase {
            let exchange = Exchange { request: step.request(byte), reply: replies.last() };
            lemma_send_step(before, byte, step, replies.last());
            lemma_each_push(before, exchange, |b, e| clears_what_it_saw(b, e));
            lemma_each_push(before, exchange, |b, e| follows_checks(b, e));
            lemma_each_push(before, exchange, |b, e| stops_on_error(b, e));
            lemma_each_push(before, exchange, |b, e| waits_for_empty(b, e));
            lemma_each_push(before, exchange, |b, e| sends(byte, b, e));
            assert(trace(start, replies) == before.push(exchange));
            assert(Seq::<u32>::empty().push(byte as u32) =~= seq![byte as u32]);
        }
    }
}

/// The step that the check at the end of `trace` has to take next, where SR1 is read once more after
/// each check; none if that read comes next.
pub open spec fn recv_checking(trace: Trace) -> Option<Check>
    decreases trace.len(),
{
    if trace.len() == 0 {
        Some(Check::Read)
    } else {
        let check = recv_checking(trace.drop_last());
        if is_on_status(trace.last().request) {
            match check {
                Some(check) => match check.next(trace.last().reply) {
                    CheckFlags::Checking(next) => Some(next),
                    CheckFlags::Checked { status: _ } => None,
                },
                None => Some(Check::Read),
            }
        } else {
            check
        }
    }
}

/// The value of SR1 that was found by the check that the last access of `trace` completes, if it
/// completes one, where SR1 is read once more after each check.
pub open spec fn recv_finding(trace: Trace) -> Option<u32> {
    if trace.len() > 0 && is_on_status(trace.last().request) {
        match recv_checking(trace.drop_last()) {
            Some(check) => match check.next(trace.last().reply) {
                CheckFlags::Checking(_) => None,
                CheckFlags::Checked { status } => Some(status),
            },
            None => None,
        }
    } else {
        None
    }
}

/// SR1 is checked for errors and then read once more, over and over, and nothing else is accessed
/// until that read shows that a byte has come; the data register is read right after it.
pub open spec fn awaits_byte(before: Trace, exchange: Exchange<Access<Register>>) -> bool {
    exchange.request == if before.len() > 0 && recv_checking(before.drop_last()) is None
        && before.last().reply & RXNE != 0 {
        Access::<Register>::Read(Register::Dr)
    } else {
        match recv_checking(before) {
            Some(check) => check.request(),
            None => Access::<Register>::Read(Register::Sr1),
        }
    }
}

/// No access follows a check that has found an error.
pub open spec fn recv_stops_on_error(before: Trace, exchange: Exchange<Access<Register>>) -> bool {
    error_in(recv_finding(before)) is None
}

/// Whether no check has found an error at any time, where SR1 is read once more after each check.
pub open spec fn recv_never_fails(trace: Trace) -> bool {
    forall|k: int|
        0 <= k <= trace.len() ==> error_in(recv_finding(#[trigger] trace.take(k))) is None
}

/// Whether the data register was never read.
pub open spec fn reads_no_data(trace: Trace) -> bool {
    forall|i: int|
        0 <= i < trace.len() ==> (#[trigger] trace[i]).request != Access::<Register>::Read(
            Register::Dr,
        )
}

/// Receiving a byte writes no data, and reads the data register only once a byte has come.
///
/// It succeeds with the byte that it read there, in its last access and never before, so that no
/// byte is lost, and only if no check has ever found an error. It fails if and only if a check
/// finds an error, as soon as that check is over and its flag cleared, with [`Error::NACK_DATA`] in
/// place of [`Error::NACK`] and with [`Error::BUS`] never, and then it has read no data.
pub proof fn law_recv_byte(replies: Seq<u32>)
    ensures
        ({
            let start = RecvByte::start();
            let exchanged = trace(start, replies);
            &&& each(exchanged, |b, e| clears_what_it_saw(b, e))
            &&& each(exchanged, |b, e| awaits_byte(b, e))
            &&& each(exchanged, |b, e| recv_stops_on_error(b, e))
            &&& data_writes(exchanged) == Seq::<u32>::empty()
            &&& exchanged.len() > 0 && exchanged.last().request == Access::<Register>::Read(
                Register::Dr,
            ) ==> (run(start, replies).progress() matches Progress::Finished(Ok(_)))
            &&& error_in(recv_finding(exchanged)) matches Some(raw) ==> {
                &&& recv_finding(exchanged) matches Some(status) && ends_checked(exchanged, status)
                &&& run(start, replies).progress() == Progress::<Access<Register>, _>::Finished(
                    Err::<u8, Error>(raw.on_data()),
                )
            }
            &&& match run(start, replies).progress() {
                Progress::Pending(_) => reads_no_data(exchanged),
                Progress::Finished(Ok(byte)) => {
                    &&& exchanged.len() > 0
                    &&& exchanged.last().request == Access::<Register>::Read(Register::Dr)
                    &&& byte == exchanged.last().reply % 256
                    &&& reads_no_data(exchanged.drop_last())
                    &&& recv_never_fails(exchanged)
                },
                Progress::Finished(Err(error)) => {
                    &&& error != Error::BUS
                    &&& reads_no_data(exchanged)
                    &&& error_in(recv_finding(exchanged)) is Some
                },
            }
        }),
{
    lemma_recv_run(replies);
    let exchanged = trace(RecvByte::start(), replies);
    if error_in(recv_finding(exchanged)) is None {
        let rule = |b: Trace, e: Exchange<Access<Register>>| recv_stops_on_error(b, e);
        assert forall|k: int| 0 <= k <= exchanged.len() implies error_in(
            recv_finding(#[trigger] exchanged.take(k)),
        ) is None by {
            if k < exchanged.len() {
                assert(rule(exchanged.take(k), exchanged[k]));
            } else {
                assert(exchanged.take(k) =~= exchanged);
            }
        }
    }
}

/// One access more while a byte is received.
proof fn lemma_recv_push(trace: Trace, exchange: Exchange<Access<Register>>)
    ensures
        ({
            let longer = trace.push(exchange);
            &&& longer.drop_last() == trace
            &&& longer.last() == exchange
            &&& if is_on_status(exchange.request) {
                match recv_checking(trace) {
                    Some(check) => match check.next(exchange.reply) {
                        CheckFlags::Checking(next) => recv_checking(longer) == Some(next)
                            && recv_finding(longer) == None::<u32>,
                        CheckFlags::Checked { status } => recv_checking(longer) == None::<Check>
                            && recv_finding(longer) == Some(status),
                    },
                    None => recv_checking(longer) == Some(Check::Read) && recv_finding(longer)
                        == None::<u32>,
                }
            } else {
                recv_checking(longer) == recv_checking(trace) && recv_finding(longer) == None::<u32>
            }
        }),
{
    assert(trace.push(exchange).drop_last() =~= trace);
}

/// Whether `trace` is what led to `recv`.
spec fn is_receiving(trace: Trace, recv: RecvByte) -> bool {
    match recv {
        RecvByte::CheckErrors(check) => {
            &&& reads_no_data(trace)
            &&& ends_checking(trace, check)
            &&& recv_checking(trace) == Some(check)
            &&& error_in(recv_finding(trace)) is None
            &&& trace.len() > 0 && recv_checking(trace.drop_last()) is None ==> trace.last().reply
                & RXNE == 0
        },
        RecvByte::ReadStatus => {
            &&& reads_no_data(trace)
            &&& recv_checking(trace) is None
            &&& error_in(recv_finding(trace)) is None
            &&& trace.len() > 0 && recv_checking(trace.drop_last()) is Some
        },
        RecvByte::Pull => {
            &&& reads_no_data(trace)
            &&& trace.len() > 0
            &&& recv_checking(trace.drop_last()) is None
            &&& recv_finding(trace) is None
            &&& trace.last().reply & RXNE != 0
        },
        RecvByte::Done(Ok(byte)) => {
            &&& trace.len() > 0
            &&& trace.last().request == Access::<Register>::Read(Register::Dr)
            &&& byte == trace.last().reply % 256
            &&& recv_finding(trace) is None
            &&& reads_no_data(trace.drop_last())
        },
        RecvByte::Done(Err(error)) => {
            &&& reads_no_data(trace)
            &&& recv_finding(trace) matches Some(status)
            &&& ends_checked(trace, status)
            &&& verdict(status) matches Err(raw)
            &&& error == raw.on_data()
        },
    }
}

/// One step of receiving a byte.
proof fn lemma_recv_step(trace: Trace, recv: RecvByte, request: Access<Register>, value: u32)
    requires
        is_receiving(trace, recv),
        recv.progress() == Progress::<_, Result<u8, Error>>::Pending(request),
    ensures
        clears_what_it_saw(trace, Exchange { request, reply: value }),
        awaits_byte(trace, Exchange { request, reply: value }),
        recv_stops_on_error(trace, Exchange { request, reply: value }),
        data_writes(trace.push(Exchange { request, reply: value })) == data_writes(trace),
        is_receiving(trace.push(Exchange { request, reply: value }), recv.after(value)),
{
    let exchange = Exchange { request, reply: value };
    lemma_recv_push(trace, exchange);
    lemma_observe_push(trace, exchange);
    if let RecvByte::CheckErrors(check) = recv {
        lemma_check_step(trace, check, value);
    }
}

proof fn lemma_recv_run(replies: Seq<u32>)
    ensures
        ({
            let start = RecvByte::start();
            let exchanged = trace(start, replies);
            &&& each(exchanged, |b, e| clears_what_it_saw(b, e))
            &&& each(exchanged, |b, e| awaits_byte(b, e))
            &&& each(exchanged, |b, e| recv_stops_on_error(b, e))
            &&& data_writes(exchanged) == Seq::<u32>::empty()
            &&& is_receiving(exchanged, run(start, replies))
        }),
    decreases replies.len(),
{
    let start = RecvByte::start();
    if replies.len() > 0 {
        let shorter = replies.drop_last();
        lemma_recv_run(shorter);
        let before = trace(start, shorter);
        let state = run(start, shorter);
        if let Progress::Pending(request) = state.progress() {
            let exchange = Exchange { request, reply: replies.last() };
            assert(trace(start, replies) == before.push(exchange));
            lemma_recv_step(before, state, request, replies.last());
            lemma_each_push(before, exchange, |b, e| clears_what_it_saw(b, e));
            lemma_each_push(before, exchange, |b, e| awaits_byte(b, e));
            lemma_each_push(before, exchange, |b, e| recv_stops_on_error(b, e));
        }
    }
}

/// Whether a value of SR1 shows `bit` and no flag that a check would report or clear.
pub open spec fn shows(status: u32, bit: u32) -> bool {
    Flag::registered(status) is None && status & bit != 0
}

/// Sending a byte takes three accesses if the data register is empty and the byte is transferred at
/// once, and then succeeds.
pub proof fn law_send_byte_completes(byte: u8, replies: Seq<u32>)
    requires
        replies.len() == 3,
        shows(replies[0], TXE),
        shows(replies[2], BTF),
    ensures
        run(SendByte::start(byte), replies).progress() == Progress::<Access<Register>, _>::Finished(
            Ok::<(), Error>(()),
        ),
{
    let start = SendByte::start(byte);
    let two = replies.drop_last();
    let one = two.drop_last();
    assert(run(start, one.drop_last()) == start);
    assert(run(start, one) == start.after(replies[0]));
    assert(run(start, two) == run(start, one).after(replies[1]));
}

/// Receiving a byte takes three accesses if there is no error and a byte has come, and then succeeds
/// with the byte in the last answer.
pub proof fn law_recv_byte_completes(replies: Seq<u32>)
    requires
        replies.len() == 3,
        Flag::registered(replies[0]) is None,
        replies[1] & RXNE != 0,
    ensures
        run(RecvByte::start(), replies).progress() == Progress::<Access<Register>, _>::Finished(
            Ok::<u8, Error>((replies[2] % 256) as u8),
        ),
{
    let start = RecvByte::start();
    let two = replies.drop_last();
    let one = two.drop_last();
    assert(run(start, one.drop_last()) == start);
    assert(run(start, one) == start.after(replies[0]));
    assert(run(start, two) == run(start, one).after(replies[1]));
}

/// Whether the operation waits for a write.
pub open spec fn is_writing<O: Operation<Request = Access<Register>>>(operation: O) -> bool {
    operation.progress() matches Progress::Pending(Access::Write(_, _))
}

/// It makes no difference what a write is answered with.
pub proof fn law_write_answers_are_ignored(
    init: Init,
    check: CheckFlags,
    send: SendByte,
    recv: RecvByte,
    write: WriteBytes,
    one: u32,
    other: u32,
)
    ensures
        is_writing(init) ==> init.after(one) == init.after(other),
        is_writing(check) ==> check.after(one) == check.after(other),
        is_writing(send) ==> send.after(one) == send.after(other),
        is_writing(recv) ==> recv.after(one) == recv.after(other),
        write.progress() matches Progress::Pending(WriteRequest::Bus(Access::Write(_, _)))
            ==> write.after(one) == write.after(other),
{
}

/// A check by the bits of SR1. If none of its flags is raised, SR1 is read once and the value is
/// returned. Else SR1 is read twice and the second value is written back without the highest flag
/// that is raised in the first one; an error is returned if and only if a flag other than that of a
/// bus error is raised.
pub proof fn law_check_by_bits(replies: Seq<u32>)
    requires
        replies.len() >= 3,
    ensures
        ({
            let start = CheckFlags::Checking(Check::Read);
            let exchanged = trace(start, replies);
            let status = replies[0];
            &&& exchanged[0] == (Exchange { request: Access::Read(Register::Sr1), reply: status })
            &&& status & 0x5f00 == 0 ==> exchanged.len() == 1
            &&& status & 0x5f00 != 0 ==> {
                &&& exchanged.len() == 3
                &&& exchanged[1] == (Exchange {
                    request: Access::Read(Register::Sr1),
                    reply: replies[1],
                })
                &&& exchanged[2].request matches Access::Write(Register::Sr1, value)
                &&& exists|bit: u32| #[trigger]
                    is_highest_flag(status, bit) && value == replies[1] & !bit
            }
            &&& run(start, replies).progress() matches Progress::Finished(result)
            &&& result is Err <==> status & 0x5e00 != 0
            &&& result matches Ok(value) ==> value == status
        }),
{
    let start = CheckFlags::Checking(Check::Read);
    let status = replies[0];
    law_verdict(status);
    law_bit_to_clear(status, replies[1]);
    law_check(replies);
    lemma_check_replies(replies);
    if status & 0x5f00 != 0 {
        assert(is_highest_flag(status, bit_to_clear(status)));
    }
}

/// The replies in the trace of a check are the first of those that were given.
proof fn lemma_check_replies(replies: Seq<u32>)
    ensures
        ({
            let exchanged = trace(CheckFlags::Checking(Check::Read), replies);
            &&& exchanged.len() <= replies.len()
            &&& replies.len() > 0 ==> exchanged.len() > 0
            &&& forall|i: int|
                0 <= i < exchanged.len() ==> (#[trigger] exchanged[i]).reply == replies[i]
        }),
    decreases replies.len(),
{
    if replies.len() > 0 {
        lemma_check_replies(replies.drop_last());
        lemma_check_run(replies.drop_last());
    }
}

} // verus!
