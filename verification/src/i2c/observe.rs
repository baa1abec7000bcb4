//! What can be told of a transfer from its accesses alone.

use vstd::prelude::*;

use super::check::{bit_to_clear, verdict, Check, CheckFlags, Flag};
use super::register::{Register, ADDR, BTF, SB};
use super::Error;
use crate::operation::{Access, Exchange};

verus! {

/// What was exchanged with the peripheral.
pub type Trace = Seq<Exchange<Access<Register>>>;

/// Whether the access is one to SR1.
pub open spec fn is_on_status(access: Access<Register>) -> bool {
    match access {
        Access::Read(register) => register == Register::Sr1,
        Access::Write(register, _) => register == Register::Sr1,
    }
}

/// The step that the check at the end of `trace` has to take next, where every access to SR1 is
/// part of a check.
pub open spec fn checking(trace: Trace) -> Check
    decreases trace.len(),
{
    if trace.len() == 0 {
        Check::Read
    } else {
        let check = checking(trace.drop_last());
        if is_on_status(trace.last().request) {
            match check.next(trace.last().reply) {
                CheckFlags::Checking(next) => next,
                CheckFlags::Checked { status: _ } => Check::Read,
            }
        } else {
            check
        }
    }
}

/// The value of SR1 that was found by the check that the last access of `trace` completes, if it
/// completes one, where every access to SR1 is part of a check.
pub open spec fn finding(trace: Trace) -> Option<u32> {
    if trace.len() > 0 && is_on_status(trace.last().request) {
        match checking(trace.drop_last()).next(trace.last().reply) {
            CheckFlags::Checking(_) => None,
            CheckFlags::Checked { status } => Some(status),
        }
    } else {
        None
    }
}

/// The error that a check reports, if it found one.
pub open spec fn error_in(finding: Option<u32>) -> Option<Error> {
    match finding {
        Some(status) => match verdict(status) {
            Err(error) => Some(error),
            Ok(_) => None,
        },
        None => None,
    }
}

/// Whether the last access of `trace` completes a check that found `bit` in SR1 and no error.
pub open spec fn finds(trace: Trace, bit: u32) -> bool {
    finding(trace) matches Some(status) && verdict(status) is Ok && status & bit != 0
}

/// Whether no check has found an error at any time.
pub open spec fn never_fails(trace: Trace) -> bool {
    forall|k: int| 0 <= k <= trace.len() ==> error_in(finding(#[trigger] trace.take(k))) is None
}

/// Every access to SR1 is the next step of a check, and a check that has begun is followed through
/// before anything else is accessed.
pub open spec fn follows_checks(before: Trace, exchange: Exchange<Access<Register>>) -> bool {
    is_on_status(exchange.request) || checking(before) != Check::Read ==> exchange.request
        == checking(before).request()
}

/// Nothing is accessed any more once a check has found an error.
pub open spec fn stops_on_error(before: Trace, exchange: Exchange<Access<Register>>) -> bool {
    error_in(finding(before)) is None
}

/// SR1 is only written to clear a flag, and only after the flag was read there: it is read, it is
/// read once more, and the second value is written back with nothing changed but the flag that the
/// first one reports.
pub open spec fn clears_what_it_saw(before: Trace, exchange: Exchange<Access<Register>>) -> bool {
    exchange.request matches Access::Write(Register::Sr1, value) ==> {
        &&& before.len() >= 2
        &&& before[before.len() - 2].request == Access::<Register>::Read(Register::Sr1)
        &&& before.last().request == Access::<Register>::Read(Register::Sr1)
        &&& Flag::registered(before[before.len() - 2].reply) matches Some(flag)
        &&& value == before.last().reply & !flag.bit()
    }
}

/// Whether `trace` ends with a check that found `status`, with the flag that it reports cleared.
pub open spec fn ends_checked(trace: Trace, status: u32) -> bool {
    if Flag::registered(status) is Some {
        &&& trace.len() >= 3
        &&& trace[trace.len() - 3] == (Exchange {
            request: Access::Read(Register::Sr1),
            reply: status,
        })
        &&& trace[trace.len() - 2].request == Access::<Register>::Read(Register::Sr1)
        &&& trace.last().request == Access::Write(
            Register::Sr1,
            trace[trace.len() - 2].reply & !bit_to_clear(status),
        )
    } else {
        &&& trace.len() >= 1
        &&& trace.last() == (Exchange { request: Access::Read(Register::Sr1), reply: status })
    }
}

/// Whether `trace` ends with what `check` has done so far.
pub open spec fn ends_checking(trace: Trace, check: Check) -> bool {
    match check {
        Check::Read => true,
        Check::ReadAgain { status } => {
            &&& Flag::registered(status) is Some
            &&& trace.len() >= 1
            &&& trace.last() == (Exchange { request: Access::Read(Register::Sr1), reply: status })
        },
        Check::Clear { status, current } => {
            &&& Flag::registered(status) is Some
            &&& trace.len() >= 2
            &&& trace[trace.len() - 2] == (Exchange {
                request: Access::Read(Register::Sr1),
                reply: status,
            })
            &&& trace.last() == (Exchange { request: Access::Read(Register::Sr1), reply: current })
        },
    }
}

/// The values that were written to the data register, in order.
pub open spec fn data_writes(trace: Trace) -> Seq<u32>
    decreases trace.len(),
{
    if trace.len() == 0 {
        Seq::empty()
    } else {
        let before = data_writes(trace.drop_last());
        match trace.last().request {
            Access::Write(Register::Dr, value) => before.push(value),
            _ => before,
        }
    }
}

/// Whether a check has found that the start condition was generated.
pub open spec fn started(trace: Trace) -> bool
    decreases trace.len(),
{
    trace.len() > 0 && (started(trace.drop_last()) || finds(trace, SB))
}

/// Whether the address phase is over: after the address, and nothing else, was written to the data
/// register, a check has found that the address was acknowledged, and SR2 was read right after it.
pub open spec fn address_cleared(trace: Trace) -> bool
    decreases trace.len(),
{
    &&& trace.len() > 0
    &&& {
        ||| address_cleared(trace.drop_last())
        ||| {
            &&& trace.last().request == Access::<Register>::Read(Register::Sr2)
            &&& finds(trace.drop_last(), ADDR)
            &&& data_writes(trace.drop_last()).len() == 1
        }
    }
}

/// Whether a check has found, since the data register was last written, that the byte in it was
/// transferred.
pub open spec fn transferred(trace: Trace) -> bool
    decreases trace.len(),
{
    &&& trace.len() > 0
    &&& !(trace.last().request matches Access::Write(Register::Dr, _))
    &&& transferred(trace.drop_last()) || finds(trace, BTF)
}

/// One more access, as to what can be told from it.
pub proof fn lemma_observe_push(trace: Trace, exchange: Exchange<Access<Register>>)
    ensures
        ({
            let longer = trace.push(exchange);
            let check = checking(trace);
            &&& longer.drop_last() == trace
            &&& longer.last() == exchange
            &&& data_writes(longer) == (match exchange.request {
                Access::Write(Register::Dr, value) => data_writes(trace).push(value),
                _ => data_writes(trace),
            })
            &&& !is_on_status(exchange.request) ==> checking(longer) == check && finding(longer)
                == None::<u32>
            &&& is_on_status(exchange.request) ==> match check.next(exchange.reply) {
                CheckFlags::Checking(next) => checking(longer) == next && finding(longer) == None::<
                    u32,
                >,
                CheckFlags::Checked { status } => checking(longer) == Check::Read && finding(longer)
                    == Some(status),
            }
            &&& started(longer) == (started(trace) || finds(longer, SB))
            &&& address_cleared(longer) == (address_cleared(trace) || (exchange.request
                == Access::<Register>::Read(Register::Sr2) && finds(trace, ADDR) && data_writes(
                trace,
            ).len() == 1))
            &&& transferred(longer) == (!(exchange.request matches Access::Write(Register::Dr, _))
                && (transferred(trace) || finds(longer, BTF)))
        }),
{
    assert(trace.push(exchange).drop_last() =~= trace);
}

/// The address phase is not over before the address was written.
pub proof fn lemma_cleared_after_address(trace: Trace)
    requires
        data_writes(trace).len() == 0,
    ensures
        !address_cleared(trace),
    decreases trace.len(),
{
    if trace.len() > 0 {
        lemma_cleared_after_address(trace.drop_last());
    }
}

/// One step of a check, as to the accesses at the end.
pub proof fn lemma_check_step(trace: Trace, check: Check, value: u32)
    requires
        ends_checking(trace, check),
    ensures
        is_on_status(check.request()),
        clears_what_it_saw(trace, Exchange { request: check.request(), reply: value }),
        match check.next(value) {
            CheckFlags::Checking(next) => ends_checking(
                trace.push(Exchange { request: check.request(), reply: value }),
                next,
            ),
            CheckFlags::Checked { status } => ends_checked(
                trace.push(Exchange { request: check.request(), reply: value }),
                status,
            ),
        },
{
}

/// If nothing was accessed after an error, and there is none in the end, there never was one.
pub proof fn lemma_never_fails(trace: Trace)
    requires
        forall|i: int|
            0 <= i < trace.len() ==> stops_on_error(trace.take(i), #[trigger] trace[i]),
        error_in(finding(trace)) is None,
    ensures
        never_fails(trace),
{
    assert forall|k: int| 0 <= k <= trace.len() implies error_in(
        finding(#[trigger] trace.take(k)),
    ) is None by {
        if k < trace.len() {
            assert(stops_on_error(trace.take(k), trace[k]));
        } else {
            assert(trace.take(k) =~= trace);
        }
    }
}

} // verus!
