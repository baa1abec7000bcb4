//! What holds of writing bytes, whatever the peripheral answers and whatever the bytes are.

use vstd::prelude::*;

use super::check::{verdict, Check, Flag};
use super::laws::{is_checking, is_sending, lemma_checking_step, lemma_send_step, shows};
use super::observe::{
    address_cleared, checking, clears_what_it_saw, data_writes, ends_checked, error_in, finding,
    finds, follows_checks, is_on_status, lemma_cleared_after_address, lemma_never_fails,
    lemma_observe_push, never_fails, started, stops_on_error, transferred, Trace,
};
use super::register::{Register, ADDR, BTF, BUSY, MSL, SB, START, TXE};
use super::transfer::{SendStep, WriteBytes, WritePhase, WriteRequest, NO_BYTE};
use super::Error;
use crate::operation::{
    each, lemma_each_push, run, trace, Access, Exchange, Operation, Progress,
};

verus! {

/// What was exchanged while bytes were written.
pub type WriteTrace = Seq<Exchange<WriteRequest>>;

/// What was exchanged with the peripheral while bytes were written.
pub open spec fn bus(trace: WriteTrace) -> Trace
    decreases trace.len(),
{
    if trace.len() == 0 {
        Seq::empty()
    } else {
        let before = bus(trace.drop_last());
        match trace.last().request {
            WriteRequest::Bus(access) => before.push(
                Exchange { request: access, reply: trace.last().reply },
            ),
            WriteRequest::NextByte => before,
        }
    }
}

/// The bytes that were given, in order.
pub open spec fn taken(trace: WriteTrace) -> Seq<u8>
    decreases trace.len(),
{
    if trace.len() == 0 {
        Seq::empty()
    } else {
        let before = taken(trace.drop_last());
        match (trace.last().request, WriteBytes::answered_byte(trace.last().reply)) {
            (WriteRequest::NextByte, Some(byte)) => before.push(byte),
            _ => before,
        }
    }
}

/// Whether the last answer was that there are no more bytes.
pub open spec fn is_told_the_end(trace: WriteTrace) -> bool {
    &&& trace.len() > 0
    &&& trace.last().request is NextByte
    &&& WriteBytes::answered_byte(trace.last().reply) is None
}

proof fn lemma_write_push(trace: WriteTrace, exchange: Exchange<WriteRequest>)
    ensures
        trace.push(exchange).drop_last() == trace,
        trace.push(exchange).last() == exchange,
        bus(trace.push(exchange)) == (match exchange.request {
            WriteRequest::Bus(access) => bus(trace).push(
                Exchange { request: access, reply: exchange.reply },
            ),
            WriteRequest::NextByte => bus(trace),
        }),
        taken(trace.push(exchange)) == (match (
            exchange.request,
            WriteBytes::answered_byte(exchange.reply),
        ) {
            (WriteRequest::NextByte, Some(byte)) => taken(trace).push(byte),
            _ => taken(trace),
        }),
{
    assert(trace.push(exchange).drop_last() =~= trace);
}

/// What writing `bytes` to the device at `addr` puts into the data register: the address, with the
/// write bit below it, and the bytes.
pub open spec fn message(addr: u8, bytes: Seq<u8>) -> Seq<u32> {
    seq![(addr * 2) as u32] + bytes.map_values(|byte: u8| byte as u32)
}

/// The address is only written once a check has found that the start condition was generated, and
/// right after a read of SR2 has shown that the peripheral is master or that the bus is busy. Data
/// is only written once the address phase is over and the byte before it, if there is one, was
/// transferred, and right after a check that has found the data register empty and no error. SR2 is
/// only read right after a check.
pub open spec fn waits_its_turn(before: Trace, exchange: Exchange<Access<Register>>) -> bool {
    match exchange.request {
        Access::Write(Register::Dr, _) => if data_writes(before).len() == 0 {
            &&& started(before)
            &&& has_the_bus(before)
        } else {
            &&& address_cleared(before)
            &&& data_writes(before).len() > 1 ==> transferred(before)
            &&& finds(before, TXE)
        },
        Access::Read(Register::Sr2) => finding(before) is Some,
        _ => true,
    }
}

/// CR1 is accessed twice, before anything else: it is read and written back with the start bit.
pub open spec fn starts_first(before: Trace, exchange: Exchange<Access<Register>>) -> bool {
    if before.len() == 0 {
        exchange.request == Access::<Register>::Read(Register::Cr1)
    } else if before.len() == 1 {
        exchange.request == Access::Write(Register::Cr1, before[0].reply | START)
    } else {
        match exchange.request {
            Access::Read(register) => register == Register::Sr1 || register == Register::Sr2,
            Access::Write(register, _) => register == Register::Sr1 || register == Register::Dr,
        }
    }
}

/// A byte is only asked for once the address phase is over, and once every byte that was given
/// before is in the data register and was transferred.
pub open spec fn asks_in_turn(
    addr: u8,
    before: WriteTrace,
    exchange: Exchange<WriteRequest>,
) -> bool {
    exchange.request is NextByte ==> {
        &&& address_cleared(bus(before))
        &&& data_writes(bus(before)) == message(addr, taken(before))
        &&& taken(before).len() > 0 ==> transferred(bus(before))
    }
}

/// Whether SR2 was just read and has shown that the peripheral is master or that the bus is busy.
pub open spec fn has_the_bus(trace: Trace) -> bool {
    &&& trace.len() > 0
    &&& trace.last().request == Access::<Register>::Read(Register::Sr2)
    &&& trace.last().reply & MSL != 0 || trace.last().reply & BUSY != 0
}

/// The access that comes next before the address is written, once the start condition was asked
/// for: SR1 is checked until the start condition was generated; then SR1 is checked and SR2 read, in
/// turn, until the peripheral has the bus, and then the address is written.
pub open spec fn next_before_address(addr: u8, before: Trace) -> Access<Register> {
    if has_the_bus(before) {
        Access::Write(Register::Dr, (addr * 2) as u32)
    } else if finding(before) is Some && started(before.drop_last()) {
        Access::Read(Register::Sr2)
    } else {
        checking(before).request()
    }
}

/// The request that comes next while bytes are written, as long as no error was found and there
/// are bytes left. CR1 is read and written with the start bit, the address is written in its turn,
/// SR1 is checked until the address was acknowledged, and SR2 is read right after that. Then, for
/// each byte: it is asked for, SR1 is checked until the data register is found empty, the byte is
/// written right after that, and SR1 is checked until the byte was transferred.
pub open spec fn next_request(addr: u8, before: WriteTrace) -> WriteRequest {
    let accesses = bus(before);
    let sent = data_writes(accesses).len();
    let bytes = taken(before);
    if accesses.len() == 0 {
        WriteRequest::Bus(Access::Read(Register::Cr1))
    } else if accesses.len() == 1 {
        WriteRequest::Bus(Access::Write(Register::Cr1, accesses[0].reply | START))
    } else if sent == 0 {
        WriteRequest::Bus(next_before_address(addr, accesses))
    } else if !address_cleared(accesses) {
        WriteRequest::Bus(
            if finds(accesses, ADDR) {
                Access::Read(Register::Sr2)
            } else {
                checking(accesses).request()
            },
        )
    } else if sent <= bytes.len() {
        WriteRequest::Bus(
            if finds(accesses, TXE) && !(before.last().request is NextByte) {
                Access::Write(Register::Dr, bytes.last() as u32)
            } else {
                checking(accesses).request()
            },
        )
    } else if bytes.len() == 0 || transferred(accesses) {
        WriteRequest::NextByte
    } else {
        WriteRequest::Bus(checking(accesses).request())
    }
}

/// Every request is the one that comes next.
pub open spec fn takes_next_step(
    addr: u8,
    before: WriteTrace,
    exchange: Exchange<WriteRequest>,
) -> bool {
    exchange.request == next_request(addr, before)
}

/// Nothing is asked for any more once a check has found an error or there are no more bytes.
pub open spec fn stops_in_time(before: WriteTrace, exchange: Exchange<WriteRequest>) -> bool {
    error_in(finding(bus(before))) is None && !is_told_the_end(before)
}

/// The error that writing bytes ends with once a check reports `raw`. A missing acknowledge is not
/// told apart as long as nothing was put on the bus. After that it is the data's while a byte is
/// being transferred, and the address's otherwise.
pub open spec fn write_error(trace: Trace, raw: Error) -> Error {
    if data_writes(trace).len() == 0 {
        raw
    } else if data_writes(trace).len() == 1 || transferred(trace) {
        raw.on_address()
    } else {
        raw.on_data()
    }
}

/// Whether every access of `trace` obeys the rules of writing bytes.
#[verifier::opaque]
spec fn obeys(trace: Trace) -> bool {
    &&& each(trace, |b, e| clears_what_it_saw(b, e))
    &&& each(trace, |b, e| follows_checks(b, e))
    &&& each(trace, |b, e| stops_on_error(b, e))
    &&& each(trace, |b, e| waits_its_turn(b, e))
    &&& each(trace, |b, e| starts_first(b, e))
}

proof fn lemma_obeys_push(trace: Trace, exchange: Exchange<Access<Register>>)
    requires
        obeys(trace),
        clears_what_it_saw(trace, exchange),
        follows_checks(trace, exchange),
        stops_on_error(trace, exchange),
        waits_its_turn(trace, exchange),
        starts_first(trace, exchange),
    ensures
        obeys(trace.push(exchange)),
{
    reveal(obeys);
    lemma_each_push(trace, exchange, |b, e| clears_what_it_saw(b, e));
    lemma_each_push(trace, exchange, |b, e| follows_checks(b, e));
    lemma_each_push(trace, exchange, |b, e| stops_on_error(b, e));
    lemma_each_push(trace, exchange, |b, e| waits_its_turn(b, e));
    lemma_each_push(trace, exchange, |b, e| starts_first(b, e));
}

/// Whether every request of `trace`, bytes included, obeys the rules of writing bytes.
#[verifier::opaque]
spec fn asks_properly(addr: u8, trace: WriteTrace) -> bool {
    &&& each(trace, |b, e| asks_in_turn(addr, b, e))
    &&& each(trace, |b, e| stops_in_time(b, e))
    &&& each(trace, |b, e| takes_next_step(addr, b, e))
}

proof fn lemma_asks_push(addr: u8, trace: WriteTrace, exchange: Exchange<WriteRequest>)
    requires
        asks_properly(addr, trace),
        asks_in_turn(addr, trace, exchange),
        stops_in_time(trace, exchange),
        takes_next_step(addr, trace, exchange),
    ensures
        asks_properly(addr, trace.push(exchange)),
{
    reveal(asks_properly);
    lemma_each_push(trace, exchange, |b, e| asks_in_turn(addr, b, e));
    lemma_each_push(trace, exchange, |b, e| stops_in_time(b, e));
    lemma_each_push(trace, exchange, |b, e| takes_next_step(addr, b, e));
}

/// Whether `trace` is what led to `phase`, with `bytes` given so far, while bytes are written to
/// the device at `addr`.
#[verifier::opaque]
spec fn leads_to(addr: u8, bytes: Seq<u8>, trace: Trace, phase: WritePhase) -> bool {
    let sent = data_writes(trace);
    let whole = message(addr, bytes);
    match phase {
        WritePhase::Start => trace.len() == 0 && bytes.len() == 0,
        WritePhase::WriteStart { cr1 } => {
            &&& trace.len() == 1
            &&& trace[0].reply == cr1
            &&& is_checking(trace, Check::Read)
            &&& sent.len() == 0
            &&& bytes.len() == 0
        },
        WritePhase::AwaitStart(check) => {
            &&& trace.len() >= 2
            &&& is_checking(trace, check)
            &&& sent.len() == 0
            &&& bytes.len() == 0
        },
        WritePhase::AwaitMaster(check) => {
            &&& trace.len() >= 2
            &&& is_checking(trace, check)
            &&& started(trace)
            &&& sent.len() == 0
            &&& bytes.len() == 0
        },
        WritePhase::ReadMaster => {
            &&& trace.len() >= 2
            &&& is_checking(trace, Check::Read)
            &&& finding(trace) is Some
            &&& started(trace)
            &&& sent.len() == 0
            &&& bytes.len() == 0
        },
        WritePhase::PushAddress => {
            &&& trace.len() >= 2
            &&& is_checking(trace, Check::Read)
            &&& started(trace)
            &&& has_the_bus(trace)
            &&& sent.len() == 0
            &&& bytes.len() == 0
        },
        WritePhase::AwaitAddress(check) => {
            &&& trace.len() >= 2
            &&& is_checking(trace, check)
            &&& sent == whole
            &&& bytes.len() == 0
        },
        WritePhase::ClearAddress => {
            &&& trace.len() >= 2
            &&& is_checking(trace, Check::Read)
            &&& finds(trace, ADDR)
            &&& sent == whole
            &&& bytes.len() == 0
        },
        WritePhase::NextByte => {
            &&& trace.len() >= 2
            &&& is_checking(trace, Check::Read)
            &&& address_cleared(trace)
            &&& sent == whole
            &&& bytes.len() > 0 ==> transferred(trace)
        },
        WritePhase::Send { byte, step } => {
            &&& trace.len() >= 2
            &&& is_sending(trace, step)
            &&& address_cleared(trace)
            &&& bytes.len() > 0
            &&& byte == bytes.last()
            &&& if step is AwaitTransfer {
                sent == whole && !transferred(trace)
            } else {
                sent == whole.drop_last() && (sent.len() > 1 ==> transferred(trace))
            }
        },
        WritePhase::Done(Ok(_)) => {
            &&& error_in(finding(trace)) is None
            &&& address_cleared(trace)
            &&& sent == whole
            &&& bytes.len() > 0 ==> transferred(trace)
        },
        WritePhase::Done(Err(error)) => {
            &&& finding(trace) matches Some(status)
            &&& ends_checked(trace, status)
            &&& verdict(status) matches Err(raw)
            &&& error == write_error(trace, raw)
            &&& if sent.len() == 0 {
                bytes.len() == 0
            } else {
                sent == whole || bytes.len() > 0 && sent == whole.drop_last()
            }
        },
    }
}

/// One access of writing bytes.
proof fn lemma_access_step(
    write: WriteBytes,
    bytes: Seq<u8>,
    before: Trace,
    request: Access<Register>,
    value: u32,
)
    requires
        write.progress() == Progress::<_, Result<(), Error>>::Pending(WriteRequest::Bus(request)),
        leads_to(write.addr, bytes, before, write.phase),
    ensures
        clears_what_it_saw(before, Exchange { request, reply: value }),
        follows_checks(before, Exchange { request, reply: value }),
        stops_on_error(before, Exchange { request, reply: value }),
        waits_its_turn(before, Exchange { request, reply: value }),
        starts_first(before, Exchange { request, reply: value }),
        leads_to(
            write.addr,
            bytes,
            before.push(Exchange { request, reply: value }),
            write.after(value).phase,
        ),
{
    reveal(leads_to);
    let exchange = Exchange { request, reply: value };
    let whole = message(write.addr, bytes);
    lemma_observe_push(before, exchange);
    match write.phase {
        WritePhase::AwaitStart(check) => {
            lemma_checking_step(before, check, value);
        },
        WritePhase::AwaitMaster(check) => {
            lemma_checking_step(before, check, value);
        },
        WritePhase::PushAddress => {
            assert(data_writes(before).push((write.addr * 2) as u32) =~= whole);
        },
        WritePhase::AwaitAddress(check) => {
            lemma_checking_step(before, check, value);
        },
        WritePhase::Send { byte, step } => {
            lemma_send_step(before, byte, step, value);
            assert(whole.drop_last().push(byte as u32) =~= whole);
        },
        _ => {},
    }
}

/// One byte more, or the end of the bytes.
proof fn lemma_byte_step(write: WriteBytes, bytes: Seq<u8>, before: Trace, value: u32)
    requires
        write.phase is NextByte,
        leads_to(write.addr, bytes, before, write.phase),
    ensures
        address_cleared(before),
        data_writes(before) == message(write.addr, bytes),
        bytes.len() > 0 ==> transferred(before),
        error_in(finding(before)) is None,
        leads_to(
            write.addr,
            match WriteBytes::answered_byte(value) {
                Some(byte) => bytes.push(byte),
                None => bytes,
            },
            before,
            write.after(value).phase,
        ),
{
    reveal(leads_to);
    if let Some(byte) = WriteBytes::answered_byte(value) {
        assert(message(write.addr, bytes.push(byte)).drop_last() =~= message(write.addr, bytes));
    }
}

/// While a write goes on, no error was found.
proof fn lemma_no_error_yet(addr: u8, bytes: Seq<u8>, trace: Trace, phase: WritePhase)
    requires
        leads_to(addr, bytes, trace, phase),
    ensures
        !(phase matches WritePhase::Done(Err(_))) ==> error_in(finding(trace)) is None,
        phase matches WritePhase::Done(Err(error)) ==> {
            &&& finding(trace) matches Some(status)
            &&& ends_checked(trace, status)
            &&& verdict(status) matches Err(raw)
            &&& error == write_error(trace, raw)
        },
{
    reveal(leads_to);
}

/// What `trace`, which led to `phase`, has not shown yet: what is waited for there.
#[verifier::opaque]
spec fn still_awaits(trace: WriteTrace, phase: WritePhase) -> bool {
    let accesses = bus(trace);
    match phase {
        WritePhase::WriteStart { cr1: _ } => !started(accesses),
        WritePhase::AwaitStart(_) => !started(accesses) && !has_the_bus(accesses),
        WritePhase::AwaitMaster(_) => {
            &&& !has_the_bus(accesses)
            &&& finding(accesses) is None || !started(accesses.drop_last())
        },
        WritePhase::ReadMaster => started(accesses.drop_last()) && is_on_status(
            accesses.last().request,
        ),
        WritePhase::AwaitAddress(_) => !address_cleared(accesses) && !finds(accesses, ADDR),
        WritePhase::ClearAddress => !address_cleared(accesses),
        WritePhase::Send { byte: _, step: SendStep::AwaitEmpty(_) } => {
            ||| trace.last().request is NextByte
            ||| !finds(accesses, TXE)
        },
        WritePhase::Send { byte: _, step: SendStep::Push } => !(trace.last().request is NextByte),
        _ => true,
    }
}

/// The pending request is the one that comes next.
proof fn lemma_next_request(write: WriteBytes, before: WriteTrace, request: WriteRequest)
    requires
        write.progress() == Progress::<_, Result<(), Error>>::Pending(request),
        leads_to(write.addr, taken(before), bus(before), write.phase),
        still_awaits(before, write.phase),
    ensures
        request == next_request(write.addr, before),
{
    reveal(leads_to);
    reveal(still_awaits);
}

/// One access of writing bytes, as to what is waited for after it.
proof fn lemma_awaits_access(
    write: WriteBytes,
    before: WriteTrace,
    request: Access<Register>,
    value: u32,
)
    requires
        write.progress() == Progress::<_, Result<(), Error>>::Pending(WriteRequest::Bus(request)),
        leads_to(write.addr, taken(before), bus(before), write.phase),
        still_awaits(before, write.phase),
    ensures
        still_awaits(
            before.push(Exchange { request: WriteRequest::Bus(request), reply: value }),
            write.after(value).phase,
        ),
{
    reveal(leads_to);
    reveal(still_awaits);
    lemma_write_push(before, Exchange { request: WriteRequest::Bus(request), reply: value });
    lemma_observe_push(bus(before), Exchange { request, reply: value });
    match write.phase {
        WritePhase::AwaitStart(check) => {
            lemma_checking_step(bus(before), check, value);
        },
        WritePhase::AwaitMaster(check) => {
            lemma_checking_step(bus(before), check, value);
        },
        WritePhase::PushAddress => {
            lemma_cleared_after_address(bus(before));
        },
        WritePhase::AwaitAddress(check) => {
            lemma_checking_step(bus(before), check, value);
        },
        WritePhase::Send { byte, step } => {
            lemma_send_step(bus(before), byte, step, value);
        },
        _ => {},
    }
}

/// One request for a byte, as to what is waited for after it.
proof fn lemma_awaits_byte(write: WriteBytes, before: WriteTrace, value: u32)
    requires
        write.phase is NextByte,
    ensures
        still_awaits(
            before.push(Exchange { request: WriteRequest::NextByte, reply: value }),
            write.after(value).phase,
        ),
{
    reveal(still_awaits);
}

/// Whether `trace` is what led to `phase` while bytes are written to the device at `addr`, and
/// every request of it obeys the rules.
#[verifier::opaque]
spec fn has_led_to(addr: u8, trace: WriteTrace, phase: WritePhase) -> bool {
    &&& obeys(bus(trace))
    &&& asks_properly(addr, trace)
    &&& still_awaits(trace, phase)
    &&& leads_to(addr, taken(trace), bus(trace), phase)
    &&& is_told_the_end(trace) <==> phase == WritePhase::Done(Ok(()))
}

/// One access of writing bytes, as to all the rules.
proof fn lemma_access(
    write: WriteBytes,
    before: WriteTrace,
    request: Access<Register>,
    value: u32,
)
    requires
        write.progress() == Progress::<_, Result<(), Error>>::Pending(WriteRequest::Bus(request)),
        has_led_to(write.addr, before, write.phase),
    ensures
        has_led_to(
            write.addr,
            before.push(Exchange { request: WriteRequest::Bus(request), reply: value }),
            write.after(value).phase,
        ),
{
    reveal(has_led_to);
    let exchange = Exchange { request: WriteRequest::Bus(request), reply: value };
    let addr = write.addr;
    lemma_write_push(before, exchange);
    lemma_no_error_yet(addr, taken(before), bus(before), write.phase);
    lemma_access_step(write, taken(before), bus(before), request, value);
    lemma_obeys_push(bus(before), Exchange { request, reply: value });
    lemma_only_the_end_succeeds(write, request, value);
    lemma_next_request(write, before, WriteRequest::Bus(request));
    lemma_awaits_access(write, before, request, value);
    lemma_asks_push(addr, before, exchange);
}

/// One request for a byte, as to all the rules.
proof fn lemma_byte(write: WriteBytes, before: WriteTrace, value: u32)
    requires
        write.phase is NextByte,
        has_led_to(write.addr, before, write.phase),
    ensures
        has_led_to(
            write.addr,
            before.push(Exchange { request: WriteRequest::NextByte, reply: value }),
            write.after(value).phase,
        ),
{
    reveal(has_led_to);
    let exchange = Exchange { request: WriteRequest::NextByte, reply: value };
    let addr = write.addr;
    lemma_write_push(before, exchange);
    lemma_byte_step(write, taken(before), bus(before), value);
    lemma_next_request(write, before, WriteRequest::NextByte);
    lemma_awaits_byte(write, before, value);
    lemma_asks_push(addr, before, exchange);
}

/// What a write has come to, without the rules of its requests.
proof fn lemma_write_led(addr: u8, replies: Seq<u32>)
    ensures
        ({
            let exchanged = trace(WriteBytes::start(addr), replies);
            let phase = run(WriteBytes::start(addr), replies).phase;
            &&& obeys(bus(exchanged))
            &&& leads_to(addr, taken(exchanged), bus(exchanged), phase)
            &&& is_told_the_end(exchanged) <==> phase == WritePhase::Done(Ok(()))
        }),
{
    reveal(has_led_to);
    lemma_write_run(addr, replies);
}

proof fn lemma_write_start(addr: u8)
    ensures
        has_led_to(addr, Seq::empty(), WritePhase::Start),
{
    reveal(has_led_to);
    reveal(leads_to);
    reveal(still_awaits);
    reveal(asks_properly);
    reveal(obeys);
}

proof fn lemma_write_run(addr: u8, replies: Seq<u32>)
    ensures
        run(WriteBytes::start(addr), replies).addr == addr,
        has_led_to(
            addr,
            trace(WriteBytes::start(addr), replies),
            run(WriteBytes::start(addr), replies).phase,
        ),
    decreases replies.len(),
{
    let start = WriteBytes::start(addr);
    if replies.len() == 0 {
        lemma_write_start(addr);
    } else {
        let shorter = replies.drop_last();
        lemma_write_run(addr, shorter);
        let before = trace(start, shorter);
        let state = run(start, shorter);
        match state.progress() {
            Progress::Pending(WriteRequest::Bus(access)) => {
                lemma_access(state, before, access, replies.last());
            },
            Progress::Pending(WriteRequest::NextByte) => {
                lemma_asking_phase(state);
                lemma_byte(state, before, replies.last());
            },
            Progress::Finished(_) => {
                state.lemma_finished_is_final(replies.last());
            },
        }
    }
}

/// A byte is asked for in one phase only.
proof fn lemma_asking_phase(write: WriteBytes)
    requires
        write.progress() == Progress::<_, Result<(), Error>>::Pending(WriteRequest::NextByte),
    ensures
        write.phase is NextByte,
{
}

/// No access makes a write succeed.
proof fn lemma_only_the_end_succeeds(write: WriteBytes, request: Access<Register>, value: u32)
    requires
        write.progress() == Progress::<_, Result<(), Error>>::Pending(WriteRequest::Bus(request)),
    ensures
        write.after(value).phase != WritePhase::Done(Ok(())),
{
}

/// What was sent on the way to `phase`.
proof fn lemma_what_was_sent(addr: u8, bytes: Seq<u8>, trace: Trace, phase: WritePhase)
    requires
        leads_to(addr, bytes, trace, phase),
    ensures
        ({
            let sent = data_writes(trace);
            let whole = message(addr, bytes);
            &&& sent.len() <= whole.len()
            &&& sent == whole.take(sent.len() as int)
            &&& sent.len() + 1 >= whole.len()
            &&& phase matches WritePhase::Done(Ok(_)) ==> {
                &&& sent == whole
                &&& address_cleared(trace)
                &&& bytes.len() > 0 ==> transferred(trace)
                &&& error_in(finding(trace)) is None
            }
        }),
{
    reveal(leads_to);
    let whole = message(addr, bytes);
    assert(whole.take(0) =~= Seq::<u32>::empty());
    assert(whole.take(whole.len() as int) =~= whole);
    assert(whole.take(whole.len() - 1) =~= whole.drop_last());
    if data_writes(trace).len() == 0 {
        assert(data_writes(trace) =~= whole.take(0));
    }
}

/// Writing bytes puts the address and then the bytes into the data register, in order and each of
/// them once, and nothing else: at any time what was put there is a beginning of that message, and
/// at most one byte that was given is not there yet. Nothing is put there before its turn: the
/// address waits for the start condition and for the bus, the data for the end of the address
/// phase, and each byte for the one before it to be transferred.
///
/// The write succeeds if and only if it is told that there are no more bytes. Then all of the
/// message was sent, the address phase is over, the last byte was transferred, and no check has
/// ever found an error.
pub proof fn law_write_bytes_delivers(addr: u8, replies: Seq<u32>)
    ensures
        ({
            let start = WriteBytes::start(addr);
            let exchanged = trace(start, replies);
            let sent = data_writes(bus(exchanged));
            let whole = message(addr, taken(exchanged));
            &&& each(bus(exchanged), |b, e| waits_its_turn(b, e))
            &&& sent.len() <= whole.len() <= sent.len() + 1
            &&& sent == whole.take(sent.len() as int)
            &&& run(start, replies).progress() == Progress::<WriteRequest, _>::Finished(
                Ok::<(), Error>(()),
            ) <==> is_told_the_end(exchanged)
            &&& is_told_the_end(exchanged) ==> {
                &&& sent == whole
                &&& address_cleared(bus(exchanged))
                &&& taken(exchanged).len() > 0 ==> transferred(bus(exchanged))
                &&& never_fails(bus(exchanged))
            }
        }),
{
    reveal(obeys);
    let start = WriteBytes::start(addr);
    let exchanged = trace(start, replies);
    lemma_write_led(addr, replies);
    lemma_what_was_sent(addr, taken(exchanged), bus(exchanged), run(start, replies).phase);
    if is_told_the_end(exchanged) {
        let rule = |b: Trace, e: Exchange<Access<Register>>| stops_on_error(b, e);
        assert forall|i: int| 0 <= i < bus(exchanged).len() implies stops_on_error(
            bus(exchanged).take(i),
            #[trigger] bus(exchanged)[i],
        ) by {
            assert(rule(bus(exchanged).take(i), bus(exchanged)[i]));
        }
        lemma_never_fails(bus(exchanged));
    }
}

/// Every request of writing bytes is fixed by what went before it: it is the one that
/// [`next_request`] names, so that each step is taken as soon as what it waits for was found.
pub proof fn law_write_bytes_goes_on(addr: u8, replies: Seq<u32>)
    ensures
        ({
            let start = WriteBytes::start(addr);
            let exchanged = trace(start, replies);
            &&& each(exchanged, |b, e| takes_next_step(addr, b, e))
            &&& run(start, replies).progress() matches Progress::Pending(request) ==> request
                == next_request(addr, exchanged)
        }),
{
    reveal(has_led_to);
    reveal(asks_properly);
    lemma_write_run(addr, replies);
    let state = run(WriteBytes::start(addr), replies);
    if let Progress::Pending(request) = state.progress() {
        lemma_next_request(state, trace(WriteBytes::start(addr), replies), request);
    }
}

/// Writing bytes asks for one byte at a time: not before the address was acknowledged and SR2 read,
/// not before the byte that it was given last was transferred, and not after an error or after it
/// was told that there are no more.
pub proof fn law_write_bytes_asks_in_turn(addr: u8, replies: Seq<u32>)
    ensures
        ({
            let exchanged = trace(WriteBytes::start(addr), replies);
            &&& each(exchanged, |b, e| asks_in_turn(addr, b, e))
            &&& each(exchanged, |b, e| stops_in_time(b, e))
        }),
{
    reveal(has_led_to);
    reveal(asks_properly);
    lemma_write_run(addr, replies);
}

/// Writing bytes starts with a start condition and asks for no other: CR1 is read, written back
/// with the start bit, and left alone after that. SR1 is accessed to check it for errors and for
/// nothing else, and is only written to clear a flag that was read there.
pub proof fn law_write_bytes_starts_once(addr: u8, replies: Seq<u32>)
    ensures
        ({
            let exchanged = trace(WriteBytes::start(addr), replies);
            &&& each(bus(exchanged), |b, e| starts_first(b, e))
            &&& each(bus(exchanged), |b, e| follows_checks(b, e))
            &&& each(bus(exchanged), |b, e| clears_what_it_saw(b, e))
        }),
{
    reveal(obeys);
    lemma_write_led(addr, replies);
}

/// Writing bytes fails if and only if a check finds an error, as soon as that check is over and its
/// flag cleared. The error is the one that the flag stands for, except that a missing acknowledge
/// is told apart. It is [`Error::NACK`] before the address was put on the bus, and
/// [`Error::NACK_ADDR`] before any data was. After that it is [`Error::NACK_DATA`] as long as no
/// check has found that the byte was transferred, and [`Error::NACK_ADDR`] from then on until the
/// next byte is put on the bus. It is never [`Error::BUS`].
pub proof fn law_write_bytes_fails(addr: u8, replies: Seq<u32>)
    ensures
        ({
            let start = WriteBytes::start(addr);
            let exchanged = trace(start, replies);
            &&& each(bus(exchanged), |b, e| stops_on_error(b, e))
            &&& error_in(finding(bus(exchanged))) matches Some(raw) ==> {
                &&& finding(bus(exchanged)) matches Some(status) && ends_checked(
                    bus(exchanged),
                    status,
                )
                &&& run(start, replies).progress() == Progress::<WriteRequest, _>::Finished(
                    Err::<(), Error>(write_error(bus(exchanged), raw)),
                )
            }
            &&& run(start, replies).progress() matches Progress::Finished(Err(error)) ==> {
                &&& error != Error::BUS
                &&& error_in(finding(bus(exchanged))) is Some
            }
        }),
{
    reveal(obeys);
    lemma_write_led(addr, replies);
    let exchanged = trace(WriteBytes::start(addr), replies);
    lemma_no_error_yet(
        addr,
        taken(exchanged),
        bus(exchanged),
        run(WriteBytes::start(addr), replies).phase,
    );
}

/// Whether `replies` serves a write of `bytes` without delay: each answer shows what is waited for at
/// that point, and the bytes are given in order and then the end of them.
pub open spec fn serves(bytes: Seq<u8>, replies: Seq<u32>) -> bool {
    &&& replies.len() == 9 + 4 * bytes.len()
    &&& shows(replies[2], SB)
    &&& Flag::registered(replies[3]) is None
    &&& replies[4] & MSL != 0 || replies[4] & BUSY != 0
    &&& shows(replies[6], ADDR)
    &&& forall|i: int|
        0 <= i < bytes.len() ==> {
            &&& replies[8 + 4 * i] == #[trigger] bytes[i]
            &&& shows(replies[9 + 4 * i], TXE)
            &&& shows(replies[11 + 4 * i], BTF)
        }
    &&& replies[8 + 4 * bytes.len() as int] >= NO_BYTE
}

/// The phase of a write that is served without delay, after so many answers.
#[verifier::opaque]
spec fn served_phase(bytes: Seq<u8>, answers: int, phase: WritePhase) -> bool {
    if answers == 0 {
        phase is Start
    } else if answers == 1 {
        phase is WriteStart
    } else if answers == 2 {
        phase == WritePhase::AwaitStart(Check::Read)
    } else if answers == 3 {
        phase == WritePhase::AwaitMaster(Check::Read)
    } else if answers == 4 {
        phase is ReadMaster
    } else if answers == 5 {
        phase is PushAddress
    } else if answers == 6 {
        phase == WritePhase::AwaitAddress(Check::Read)
    } else if answers == 7 {
        phase is ClearAddress
    } else {
        let index = (answers - 8) / 4;
        let turn = (answers - 8) % 4;
        if turn == 0 {
            phase is NextByte
        } else if index < bytes.len() {
            &&& phase matches WritePhase::Send { byte, step }
            &&& byte == bytes[index]
            &&& step == if turn == 1 {
                SendStep::AwaitEmpty(Check::Read)
            } else if turn == 2 {
                SendStep::Push
            } else {
                SendStep::AwaitTransfer(Check::Read)
            }
        } else {
            phase == WritePhase::Done(Ok(()))
        }
    }
}

/// The number of bytes that were given after so many answers.
#[verifier::opaque]
spec fn given(bytes: Seq<u8>, answers: int) -> int {
    if answers <= 8 {
        0
    } else if (answers - 5) / 4 <= bytes.len() {
        (answers - 5) / 4
    } else {
        bytes.len() as int
    }
}

/// One answer to a write that is served without delay.
proof fn lemma_served_step(write: WriteBytes, bytes: Seq<u8>, replies: Seq<u32>, answers: int)
    requires
        serves(bytes, replies),
        0 <= answers < replies.len(),
        served_phase(bytes, answers, write.phase),
    ensures
        served_phase(bytes, answers + 1, write.after(replies[answers]).phase),
        write.phase is NextByte ==> {
            let index = given(bytes, answers);
            &&& index < bytes.len() ==> WriteBytes::answered_byte(replies[answers]) == Some(
                bytes[index],
            ) && given(bytes, answers + 1) == index + 1
            &&& index >= bytes.len() ==> WriteBytes::answered_byte(replies[answers]) is None
                && given(bytes, answers + 1) == index
        },
        !(write.phase is NextByte) ==> given(bytes, answers + 1) == given(bytes, answers),
        0 <= given(bytes, answers + 1) <= bytes.len(),
{
    reveal(served_phase);
    reveal(given);
    if answers >= 8 {
        let k = answers - 8;
        assert(k == 4 * (k / 4) + k % 4);
        if k % 4 == 3 {
            assert((k + 1) / 4 == k / 4 + 1 && (k + 1) % 4 == 0);
        } else {
            assert((k + 1) / 4 == k / 4 && (k + 1) % 4 == k % 4 + 1);
        }
        if k % 4 == 0 {
            assert((k + 3) / 4 == k / 4);
        } else {
            assert((k + 3) / 4 == k / 4 + 1);
        }
        assert((k + 1 + 3) / 4 == k / 4 + 1);
        if k / 4 < bytes.len() {
            let byte = bytes[k / 4];
            assert(replies[8 + 4 * (k / 4)] == byte);
        }
    }
}

/// The bytes that were given, one answer later.
proof fn lemma_given_step(
    write: WriteBytes,
    bytes: Seq<u8>,
    before: WriteTrace,
    request: WriteRequest,
    value: u32,
    answers: int,
)
    requires
        write.progress() == Progress::<_, Result<(), Error>>::Pending(request),
        taken(before) == bytes.take(given(bytes, answers)),
        0 <= given(bytes, answers) <= bytes.len(),
        write.phase is NextByte ==> {
            let index = given(bytes, answers);
            &&& index < bytes.len() ==> WriteBytes::answered_byte(value) == Some(bytes[index])
                && given(bytes, answers + 1) == index + 1
            &&& index >= bytes.len() ==> WriteBytes::answered_byte(value) is None && given(
                bytes,
                answers + 1,
            ) == index
        },
        !(write.phase is NextByte) ==> given(bytes, answers + 1) == given(bytes, answers),
    ensures
        taken(before.push(Exchange { request, reply: value })) == bytes.take(
            given(bytes, answers + 1),
        ),
{
    lemma_write_push(before, Exchange { request, reply: value });
    let index = given(bytes, answers);
    if request is NextByte {
        lemma_asking_phase(write);
        if index < bytes.len() {
            assert(bytes.take(index).push(bytes[index]) =~= bytes.take(index + 1));
        }
    }
}

proof fn lemma_write_served(addr: u8, bytes: Seq<u8>, replies: Seq<u32>, answers: int)
    requires
        serves(bytes, replies),
        0 <= answers <= replies.len(),
    ensures
        served_phase(bytes, answers, run(WriteBytes::start(addr), replies.take(answers)).phase),
        0 <= given(bytes, answers) <= bytes.len(),
        taken(trace(WriteBytes::start(addr), replies.take(answers))) == bytes.take(
            given(bytes, answers),
        ),
    decreases answers,
{
    let start = WriteBytes::start(addr);
    let some = replies.take(answers);
    if answers == 0 {
        reveal(served_phase);
        reveal(given);
        assert(taken(trace(start, some)) =~= bytes.take(0));
    } else {
        let fewer = replies.take(answers - 1);
        assert(some.drop_last() =~= fewer);
        assert(some.last() == replies[answers - 1]);
        lemma_write_served(addr, bytes, replies, answers - 1);
        let state = run(start, fewer);
        lemma_served_step(state, bytes, replies, answers - 1);
        match state.progress() {
            Progress::Pending(request) => {
                let before = trace(start, fewer);
                lemma_given_step(state, bytes, before, request, some.last(), answers - 1);
            },
            Progress::Finished(_) => {
                assert(!(state.phase is NextByte));
            },
        }
    }
}

/// A write that has succeeded has sent all of its message.
proof fn lemma_all_was_sent(addr: u8, replies: Seq<u32>)
    requires
        run(WriteBytes::start(addr), replies).phase == WritePhase::Done(Ok(())),
    ensures
        data_writes(bus(trace(WriteBytes::start(addr), replies))) == message(
            addr,
            taken(trace(WriteBytes::start(addr), replies)),
        ),
{
    law_write_bytes_delivers(addr, replies);
}

/// The end of a write that is served without delay.
proof fn lemma_served_end(bytes: Seq<u8>, phase: WritePhase)
    requires
        served_phase(bytes, 9 + 4 * bytes.len() as int, phase),
    ensures
        phase == WritePhase::Done(Ok(())),
        given(bytes, 9 + 4 * bytes.len() as int) == bytes.len(),
{
    reveal(served_phase);
    reveal(given);
    let n = bytes.len() as int;
    assert((4 * n + 1) / 4 == n && (4 * n + 1) % 4 == 1);
    assert((4 * n + 4) / 4 == n + 1);
}

/// A write that is served without delay takes nine answers, and four for each byte: then it succeeds,
/// and has sent the address and the bytes.
pub proof fn law_write_bytes_completes(addr: u8, bytes: Seq<u8>, replies: Seq<u32>)
    requires
        serves(bytes, replies),
    ensures
        run(WriteBytes::start(addr), replies).progress() == Progress::<WriteRequest, _>::Finished(
            Ok::<(), Error>(()),
        ),
        data_writes(bus(trace(WriteBytes::start(addr), replies))) == message(addr, bytes),
{
    let answers = replies.len() as int;
    assert(replies.take(answers) =~= replies);
    lemma_write_served(addr, bytes, replies, answers);
    lemma_served_end(bytes, run(WriteBytes::start(addr), replies).phase);
    lemma_all_was_sent(addr, replies);
    assert(bytes.take(bytes.len() as int) =~= bytes);
}

/// A write that is made for an address puts, of all that it puts into the data register, twice that
/// address first, and then the numbers that it was answered with when it asked for a byte, up to the
/// first that is no byte.
pub proof fn law_new_write(addr: u8, write: WriteBytes, replies: Seq<u32>, i: int)
    requires
        call_ensures(WriteBytes::new, (addr,), write),
        0 <= i < data_writes(bus(trace(write, replies))).len(),
    ensures
        ({
            let exchanged = trace(write, replies);
            let sent = data_writes(bus(exchanged));
            &&& sent[0] == 2 * addr
            &&& sent.len() <= taken(exchanged).len() + 1
            &&& i > 0 ==> sent[i] == taken(exchanged)[i - 1]
            &&& i > 0 ==> is_answer(exchanged, sent[i])
        }),
{
    law_write_bytes_delivers(addr, replies);
    let exchanged = trace(write, replies);
    if i > 0 {
        lemma_taken_was_answered(exchanged, i - 1);
    }
}

/// Whether a request for a byte was answered with `value`.
pub open spec fn is_answer(trace: WriteTrace, value: u32) -> bool {
    exists|k: int|
        0 <= k < trace.len() && (#[trigger] trace[k]).request is NextByte && trace[k].reply
            == value && value < 256
}

/// Every byte that was given is the answer to some request for one.
proof fn lemma_taken_was_answered(trace: WriteTrace, i: int)
    requires
        0 <= i < taken(trace).len(),
    ensures
        is_answer(trace, taken(trace)[i] as u32),
    decreases trace.len(),
{
    if trace.len() > 0 {
        let before = trace.drop_last();
        let last = trace.len() - 1;
        if i < taken(before).len() {
            lemma_taken_was_answered(before, i);
            let value = taken(before)[i] as u32;
            let k = choose|k: int|
                0 <= k < before.len() && (#[trigger] before[k]).request is NextByte
                    && before[k].reply == value && value < 256;
            assert(trace[k] == before[k]);
        } else {
            assert(trace[last] == trace.last());
            assert(trace[last].request is NextByte);
        }
    }
}

} // verus!
