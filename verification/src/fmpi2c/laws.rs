//! What holds of whole transfers, whatever the peripheral answers.

use vstd::prelude::*;

use super::check::{clear_nack, CheckFlags};
use super::init::Init;
use super::register::{Register, NACKF, RXNE, TXIS};
use super::transfer::{RecvByte, SendByte, SendPhase};
use crate::i2c::Error;
use crate::operation::{
    each, lemma_each_push, run, trace, Access, Exchange, Operation, Progress,
};

verus! {

/// What was exchanged with the peripheral.
pub type Trace = Seq<Exchange<Access<Register>>>;

/// Whether `trace` ends with a read of ISR that answered `isr`.
pub open spec fn ends_reading(trace: Trace, isr: u32) -> bool {
    &&& trace.len() > 0
    &&& trace.last() == (Exchange { request: Access::Read(Register::Isr), reply: isr })
}

/// The missing acknowledge is only cleared right after it was read in ISR, and ICR is written for
/// nothing else.
pub open spec fn clears_what_it_saw(before: Trace, exchange: Exchange<Access<Register>>) -> bool {
    exchange.request matches Access::Write(Register::Icr, _) ==> {
        &&& exchange.request == clear_nack()
        &&& ends_reading(before, before.last().reply)
        &&& before.last().reply & NACKF != 0
    }
}

/// Data is only written right after a read of ISR has asked for it and shown no missing acknowledge.
pub open spec fn writes_when_asked(before: Trace, exchange: Exchange<Access<Register>>) -> bool {
    exchange.request matches Access::Write(Register::Txdr, _) ==> {
        &&& ends_reading(before, before.last().reply)
        &&& before.last().reply & TXIS != 0
        &&& before.last().reply & NACKF == 0
    }
}

/// Data is only read right after a read of ISR has shown that a byte has come and no missing
/// acknowledge.
pub open spec fn reads_what_came(before: Trace, exchange: Exchange<Access<Register>>) -> bool {
    exchange.request == Access::<Register>::Read(Register::Rxdr) ==> {
        &&& ends_reading(before, before.last().reply)
        &&& before.last().reply & RXNE != 0
        &&& before.last().reply & NACKF == 0
    }
}

/// Whether `trace` ends with a read of ISR that has shown a missing acknowledge.
pub open spec fn ends_nacked(trace: Trace) -> bool {
    ends_reading(trace, trace.last().reply) && trace.last().reply & NACKF != 0
}

/// Whether `trace` ends with the flag of a missing acknowledge being cleared.
pub open spec fn ends_cleared(trace: Trace) -> bool {
    trace.len() > 0 && trace.last().request == clear_nack()
}

/// Once ISR has shown a missing acknowledge, that is cleared and nothing else is done any more.
pub open spec fn stops_on_nack(before: Trace, exchange: Exchange<Access<Register>>) -> bool {
    &&& ends_nacked(before) ==> exchange.request == clear_nack()
    &&& !ends_cleared(before)
}

/// Whether no read of ISR has shown a missing acknowledge.
pub open spec fn is_never_nacked(trace: Trace) -> bool {
    forall|i: int|
        0 <= i < trace.len() ==> {
            (#[trigger] trace[i]).request == Access::<Register>::Read(Register::Isr)
                ==> trace[i].reply & NACKF == 0
        }
}

/// While a byte is sent, ISR is read until it asks for the byte, the byte is written right after
/// that, and then ISR is read; no other register is accessed but to clear a missing acknowledge.
pub open spec fn sends(byte: u8, before: Trace, exchange: Exchange<Access<Register>>) -> bool {
    exchange.request == if ends_nacked(before) {
        clear_nack()
    } else if data_writes(before).len() == 0 && ends_reading(before, before.last().reply)
        && before.last().reply & TXIS != 0 {
        Access::Write(Register::Txdr, byte as u32)
    } else {
        Access::Read(Register::Isr)
    }
}

/// While a byte is received, ISR is read until it shows that a byte has come, and the byte is read
/// right after that; no other register is accessed but to clear a missing acknowledge.
pub open spec fn receives(before: Trace, exchange: Exchange<Access<Register>>) -> bool {
    exchange.request == if ends_nacked(before) {
        clear_nack()
    } else if ends_reading(before, before.last().reply) && before.last().reply & RXNE != 0 {
        Access::Read(Register::Rxdr)
    } else {
        Access::Read(Register::Isr)
    }
}

/// The values that were written to the transmit data register, in order.
pub open spec fn data_writes(trace: Trace) -> Seq<u32>
    decreases trace.len(),
{
    if trace.len() == 0 {
        Seq::empty()
    } else {
        let before = data_writes(trace.drop_last());
        match trace.last().request {
            Access::Write(Register::Txdr, value) => before.push(value),
            _ => before,
        }
    }
}

/// Whether the receive data register was never read.
pub open spec fn reads_no_data(trace: Trace) -> bool {
    forall|i: int|
        0 <= i < trace.len() ==> (#[trigger] trace[i]).request != Access::<Register>::Read(
            Register::Rxdr,
        )
}

/// Sending a byte writes that byte to the transmit data register, once, when it is asked for, and
/// writes no other data.
///
/// It succeeds if and only if ISR is read after that write and shows no missing acknowledge, as soon
/// as it is read, and then no read of ISR has ever shown one. It fails if and only if a read of ISR
/// shows a missing acknowledge, as soon as it has cleared that, and with [`Error::NACK`] only.
pub proof fn law_send_byte(byte: u8, replies: Seq<u32>)
    ensures
        ({
            let start = SendByte::start(byte);
            let exchanged = trace(start, replies);
            &&& each(exchanged, |b, e| clears_what_it_saw(b, e))
            &&& each(exchanged, |b, e| writes_when_asked(b, e))
            &&& each(exchanged, |b, e| stops_on_nack(b, e))
            &&& each(exchanged, |b, e| sends(byte, b, e))
            &&& data_writes(exchanged) == Seq::<u32>::empty() || data_writes(exchanged) == seq![
                byte as u32,
            ]
            &&& data_writes(exchanged).len() == 1 && ends_reading(exchanged, exchanged.last().reply)
                && exchanged.last().reply & NACKF == 0 ==> (run(
                start,
                replies,
            ).progress() matches Progress::Finished(Ok(_)))
            &&& ends_cleared(exchanged) ==> run(start, replies).progress() == Progress::<
                Access<Register>,
                _,
            >::Finished(Err::<(), Error>(Error::NACK))
            &&& ends_nacked(exchanged) ==> run(start, replies).progress() == Progress::<
                _,
                Result<(), Error>,
            >::Pending(clear_nack())
            &&& match run(start, replies).progress() {
                Progress::Pending(_) => true,
                Progress::Finished(Ok(_)) => {
                    &&& data_writes(exchanged) == seq![byte as u32]
                    &&& exchanged.len() >= 2
                    &&& exchanged[exchanged.len() - 2].request == Access::Write(
                        Register::Txdr,
                        byte as u32,
                    )
                    &&& ends_reading(exchanged, exchanged.last().reply)
                    &&& is_never_nacked(exchanged)
                },
                Progress::Finished(Err(error)) => {
                    &&& error == Error::NACK
                    &&& ends_cleared(exchanged)
                },
            }
        }),
{
    lemma_send_run(byte, replies);
}

proof fn lemma_send_run(byte: u8, replies: Seq<u32>)
    ensures
        ({
            let start = SendByte::start(byte);
            let exchanged = trace(start, replies);
            let sent = data_writes(exchanged);
            &&& run(start, replies).byte == byte
            &&& each(exchanged, |b, e| clears_what_it_saw(b, e))
            &&& each(exchanged, |b, e| writes_when_asked(b, e))
            &&& each(exchanged, |b, e| stops_on_nack(b, e))
            &&& each(exchanged, |b, e| sends(byte, b, e))
            &&& sent == Seq::<u32>::empty() || sent == seq![byte as u32]
            &&& match run(start, replies).phase {
                SendPhase::AwaitReady => {
                    &&& sent == Seq::<u32>::empty()
                    &&& is_never_nacked(exchanged)
                    &&& !ends_cleared(exchanged)
                    &&& ends_reading(exchanged, exchanged.last().reply)
                        ==> exchanged.last().reply & TXIS == 0
                },
                SendPhase::Push => {
                    &&& sent == Seq::<u32>::empty()
                    &&& ends_reading(exchanged, exchanged.last().reply)
                    &&& exchanged.last().reply & TXIS != 0
                    &&& exchanged.last().reply & NACKF == 0
                    &&& is_never_nacked(exchanged)
                },
                SendPhase::Confirm => {
                    &&& sent == seq![byte as u32]
                    &&& exchanged.len() >= 1
                    &&& exchanged.last().request == Access::Write(Register::Txdr, byte as u32)
                    &&& is_never_nacked(exchanged)
                },
                SendPhase::Clear => {
                    &&& ends_reading(exchanged, exchanged.last().reply)
                    &&& exchanged.last().reply & NACKF != 0
                },
                SendPhase::Done(Ok(_)) => {
                    &&& sent == seq![byte as u32]
                    &&& exchanged.len() >= 2
                    &&& exchanged[exchanged.len() - 2].request == Access::Write(
                        Register::Txdr,
                        byte as u32,
                    )
                    &&& ends_reading(exchanged, exchanged.last().reply)
                    &&& is_never_nacked(exchanged)
                },
                SendPhase::Done(Err(error)) => {
                    &&& error == Error::NACK
                    &&& ends_cleared(exchanged)
                },
            }
        }),
    decreases replies.len(),
{
    let start = SendByte::start(byte);
    if replies.len() > 0 {
        let shorter = replies.drop_last();
        lemma_send_run(byte, shorter);
        let before = trace(start, shorter);
        if let Progress::Pending(request) = run(start, shorter).progress() {
            let exchange = Exchange { request, reply: replies.last() };
            assert(trace(start, replies) == before.push(exchange));
            assert(before.push(exchange).drop_last() =~= before);
            assert(Seq::<u32>::empty().push(byte as u32) =~= seq![byte as u32]);
            lemma_each_push(before, exchange, |b, e| clears_what_it_saw(b, e));
            lemma_each_push(before, exchange, |b, e| writes_when_asked(b, e));
            lemma_each_push(before, exchange, |b, e| stops_on_nack(b, e));
            lemma_each_push(before, exchange, |b, e| sends(byte, b, e));
        }
    }
}

/// Receiving a byte writes no data, and reads the receive data register only once a byte has come.
///
/// It succeeds with the byte that it read there, in its last access and never before, so that no
/// byte is lost, and only if no read of ISR has ever shown a missing acknowledge. It fails if and
/// only if a read of ISR shows a missing acknowledge, as soon as it has cleared that, and with
/// [`Error::NACK`] only, and then it has read no data.
pub proof fn law_recv_byte(replies: Seq<u32>)
    ensures
        ({
            let start = RecvByte::start();
            let exchanged = trace(start, replies);
            &&& each(exchanged, |b, e| clears_what_it_saw(b, e))
            &&& each(exchanged, |b, e| reads_what_came(b, e))
            &&& each(exchanged, |b, e| stops_on_nack(b, e))
            &&& each(exchanged, |b, e| receives(b, e))
            &&& data_writes(exchanged) == Seq::<u32>::empty()
            &&& exchanged.len() > 0 && exchanged.last().request == Access::<Register>::Read(
                Register::Rxdr,
            ) ==> (run(start, replies).progress() matches Progress::Finished(Ok(_)))
            &&& ends_cleared(exchanged) ==> run(start, replies).progress() == Progress::<
                Access<Register>,
                _,
            >::Finished(Err::<u8, Error>(Error::NACK))
            &&& ends_nacked(exchanged) ==> run(start, replies).progress() == Progress::<
                _,
                Result<u8, Error>,
            >::Pending(clear_nack())
            &&& match run(start, replies).progress() {
                Progress::Pending(_) => reads_no_data(exchanged),
                Progress::Finished(Ok(byte)) => {
                    &&& exchanged.len() > 0
                    &&& exchanged.last().request == Access::<Register>::Read(Register::Rxdr)
                    &&& byte == exchanged.last().reply % 256
                    &&& reads_no_data(exchanged.drop_last())
                    &&& is_never_nacked(exchanged)
                },
                Progress::Finished(Err(error)) => {
                    &&& error == Error::NACK
                    &&& ends_cleared(exchanged)
                    &&& reads_no_data(exchanged)
                },
            }
        }),
{
    lemma_recv_run(replies);
}

proof fn lemma_recv_run(replies: Seq<u32>)
    ensures
        ({
            let start = RecvByte::start();
            let exchanged = trace(start, replies);
            &&& each(exchanged, |b, e| clears_what_it_saw(b, e))
            &&& each(exchanged, |b, e| reads_what_came(b, e))
            &&& each(exchanged, |b, e| stops_on_nack(b, e))
            &&& each(exchanged, |b, e| receives(b, e))
            &&& data_writes(exchanged) == Seq::<u32>::empty()
            &&& match run(start, replies) {
                RecvByte::AwaitByte => {
                    &&& reads_no_data(exchanged)
                    &&& is_never_nacked(exchanged)
                    &&& !ends_cleared(exchanged)
                    &&& ends_reading(exchanged, exchanged.last().reply)
                        ==> exchanged.last().reply & RXNE == 0
                },
                RecvByte::Pull => {
                    &&& reads_no_data(exchanged)
                    &&& ends_reading(exchanged, exchanged.last().reply)
                    &&& exchanged.last().reply & RXNE != 0
                    &&& exchanged.last().reply & NACKF == 0
                    &&& is_never_nacked(exchanged)
                },
                RecvByte::Clear => {
                    &&& reads_no_data(exchanged)
                    &&& ends_reading(exchanged, exchanged.last().reply)
                    &&& exchanged.last().reply & NACKF != 0
                },
                RecvByte::Done(Ok(byte)) => {
                    &&& exchanged.len() > 0
                    &&& exchanged.last().request == Access::<Register>::Read(Register::Rxdr)
                    &&& byte == exchanged.last().reply % 256
                    &&& reads_no_data(exchanged.drop_last())
                    &&& is_never_nacked(exchanged)
                },
                RecvByte::Done(Err(error)) => {
                    &&& error == Error::NACK
                    &&& ends_cleared(exchanged)
                    &&& reads_no_data(exchanged)
                },
            }
        }),
    decreases replies.len(),
{
    let start = RecvByte::start();
    if replies.len() > 0 {
        let shorter = replies.drop_last();
        lemma_recv_run(shorter);
        let before = trace(start, shorter);
        if let Progress::Pending(request) = run(start, shorter).progress() {
            let exchange = Exchange { request, reply: replies.last() };
            assert(trace(start, replies) == before.push(exchange));
            assert(before.push(exchange).drop_last() =~= before);
            lemma_each_push(before, exchange, |b, e| clears_what_it_saw(b, e));
            lemma_each_push(before, exchange, |b, e| reads_what_came(b, e));
            lemma_each_push(before, exchange, |b, e| stops_on_nack(b, e));
            lemma_each_push(before, exchange, |b, e| receives(b, e));
        }
    }
}

/// Sending a byte takes three accesses if the byte is asked for at once and acknowledged, and then
/// succeeds.
pub proof fn law_send_byte_completes(byte: u8, replies: Seq<u32>)
    requires
        replies.len() == 3,
        replies[0] & NACKF == 0,
        replies[0] & TXIS != 0,
        replies[2] & NACKF == 0,
    ensures
        run(SendByte::start(byte), replies).progress() == Progress::<Access<Register>, _>::Finished(
            Ok::<(), Error>(()),
        ),
{
    let start = SendByte::start(byte);
    let two = replies.drop_last();
    let one = two.drop_last();
    assert(run(start, one.drop_last()) == start);
    assert(run(start, one) == start.after(replies[0]));
    assert(run(start, two) == run(start, one).after(replies[1]));
}

/// Receiving a byte takes two accesses if one has come, and then succeeds with the byte in the last
/// answer.
pub proof fn law_recv_byte_completes(replies: Seq<u32>)
    requires
        replies.len() == 2,
        replies[0] & NACKF == 0,
        replies[0] & RXNE != 0,
    ensures
        run(RecvByte::start(), replies).progress() == Progress::<Access<Register>, _>::Finished(
            Ok::<u8, Error>((replies[1] % 256) as u8),
        ),
{
    let start = RecvByte::start();
    let one = replies.drop_last();
    assert(run(start, one.drop_last()) == start);
    assert(run(start, one) == start.after(replies[0]));
}

/// A check of a value of ISR is over at once unless that value shows a missing acknowledge; then it
/// clears that in one access and fails with [`Error::NACK`].
pub proof fn law_check(isr: u32, replies: Seq<u32>)
    ensures
        ({
            let start = CheckFlags::start(isr);
            let exchanged = trace(start, replies);
            if isr & NACKF == 0 {
                &&& exchanged.len() == 0
                &&& run(start, replies).progress() == Progress::<Access<Register>, _>::Finished(
                    Ok::<(), Error>(()),
                )
            } else if replies.len() == 0 {
                run(start, replies).progress() is Pending
            } else {
                &&& exchanged.len() == 1
                &&& exchanged[0].request == clear_nack()
                &&& run(start, replies).progress() == Progress::<Access<Register>, _>::Finished(
                    Err::<(), Error>(Error::NACK),
                )
            }
        }),
    decreases replies.len(),
{
    if replies.len() > 0 {
        law_check(isr, replies.drop_last());
    }
}

/// Whether the operation waits for a write.
pub open spec fn is_writing<O: Operation<Request = Access<Register>>>(operation: O) -> bool {
    operation.progress() matches Progress::Pending(Access::Write(_, _))
}

/// It makes no difference what a write is answered with.
pub proof fn law_write_answers_are_ignored(
    init: Init,
    check: CheckFlags,
    send: SendByte,
    recv: RecvByte,
    one: u32,
    other: u32,
)
    ensures
        is_writing(init) ==> init.after(one) == init.after(other),
        is_writing(check) ==> check.after(one) == check.after(other),
        is_writing(send) ==> send.after(one) == send.after(other),
        is_writing(recv) ==> recv.after(one) == recv.after(other),
{
}

} // verus!
