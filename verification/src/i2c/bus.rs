//! The driver of one peripheral.

use vstd::prelude::*;

use super::check::{Check, CheckFlags};
use super::init::{
    configures, law_init, lemma_timing_of, sets_speed, Init, InitPhase, Timing,
};
use super::laws::{awaits_byte, law_check_by_bits, law_recv_byte, law_send_byte, sends};
use super::mode::Mode;
use super::observe::data_writes;
use super::register::{Register, PE};
use super::release::{law_release, Release, ReleaseState};
use super::transfer::{RecvByte, SendByte, WriteBytes};
use super::write_laws::{
    bus as accesses, law_write_bytes_delivers, law_write_bytes_goes_on, message, taken,
    takes_next_step,
};
use super::{Line, Pins};
use crate::operation::{
    each, lemma_each_push, run, trace, Access, Exchange, Operation, Progress,
};
use crate::rcc::Clocks;
use crate::sealed::Sealed;
use crate::time::Hertz;

verus! {

/// A peripheral that this driver can drive.
pub trait Instance: Sealed {

}

/// The first I2C peripheral.
#[derive(Debug)]
pub struct I2C1;

/// The second I2C peripheral.
#[derive(Debug)]
pub struct I2C2;

/// The third I2C peripheral.
#[derive(Debug)]
pub struct I2C3;

impl Sealed for I2C1 {

}

impl Instance for I2C1 {

}

impl Sealed for I2C2 {

}

impl Instance for I2C2 {

}

impl Sealed for I2C3 {

}

impl Instance for I2C3 {

}

/// I2C abstraction
#[derive(Debug)]
pub struct I2c<I2C: Instance, PINS> {
    i2c: I2C,
    pins: PINS,
}

impl<I2C, PINS> I2c<I2C, PINS> where I2C: Instance {
    /// The peripheral that is driven.
    pub closed spec fn peripheral(self) -> I2C {
        self.i2c
    }

    /// The pins that the peripheral drives.
    pub closed spec fn lines(self) -> PINS {
        self.pins
    }
}

impl<I2C, PINS> I2c<I2C, PINS> where I2C: Instance, PINS: Pins<I2C> {
    /// Sets up a bus: the clock of the peripheral is enabled, the peripheral is reset, the pins are
    /// handed to it, and it is configured for `mode`. The bus is there once the setup is carried
    /// out; see [`Setup::finish`].
    pub fn new(i2c: I2C, pins: PINS, mode: Mode, clocks: &Clocks) -> (setup: Setup<I2C, PINS>)
        requires
            mode.supported(clocks.pclk1),
        ensures
            setup@ == SetupState::<I2C, PINS>::start(i2c, pins, Timing::of(mode, clocks.pclk1)),
    {
        let init = Init::new(Timing::new(&mode, clocks.pclk1()));
        Setup { state: SetupState { i2c, pins, init, stage: SetupStage::EnableClock } }
    }

    /// Takes the bus apart: the pins go back to the modes that they were configured in, and the
    /// peripheral and the pins are returned; see [`Release::finish`].
    pub fn release(self) -> (release: Release<I2C, PINS>)
        ensures
            release@ == ReleaseState::<I2C, PINS>::start(self.peripheral(), self.lines()),
    {
        Release::new(self.i2c, self.pins)
    }
}

impl<I2C, PINS> I2c<I2C, PINS> where I2C: Instance {
    /// Configures the peripheral for `mode` while its bus runs at `pclk`.
    pub fn i2c_init(&self, mode: Mode, pclk: Hertz) -> (init: Init)
        requires
            mode.supported(pclk),
        ensures
            init == Init::start(Timing::of(mode, pclk)),
    {
        Init::new(Timing::new(&mode, pclk))
    }

    /// Checks for errors, and clears the flag of the one that is found.
    pub fn check_and_clear_error_flags(&self) -> (check: CheckFlags)
        ensures
            check == CheckFlags::Checking(Check::Read),
    {
        CheckFlags::Checking(Check::Read)
    }

    /// Writes bytes to the device at `addr`, after a start condition. The bytes are asked for one
    /// at a time, each when its turn comes.
    pub fn write_bytes(&mut self, addr: u8) -> (write: WriteBytes)
        ensures
            write == WriteBytes::start(addr),
            *final(self) == *old(self),
    {
        WriteBytes::new(addr)
    }

    /// Sends one byte of data.
    pub fn send_byte(&self, byte: u8) -> (send: SendByte)
        ensures
            send == SendByte::start(byte),
    {
        SendByte::new(byte)
    }

    /// Receives one byte of data.
    pub fn recv_byte(&self) -> (recv: RecvByte)
        ensures
            recv == RecvByte::start(),
    {
        RecvByte::new()
    }
}

/// What setting up a bus asks for.
#[derive(PartialEq, Eq, Debug)]
pub enum SetupRequest {
    /// Enable the clock of the peripheral.
    EnableClock,
    /// Reset the peripheral.
    Reset,
    /// Switch the pin of the line to its alternate function.
    SetAltMode(Line),
    /// Access a register of the peripheral.
    Bus(Access<Register>),
}

/// How far a setup has come.
#[derive(Clone, Copy, PartialEq, Eq, Structural, Debug)]
pub enum SetupStage {
    /// The clock of the peripheral has to be enabled.
    EnableClock,
    /// The peripheral has to be reset.
    Reset,
    /// The pin of this line has to be switched.
    SetAltMode(Line),
    /// The pins are handed over, and the peripheral is being configured.
    Configure,
}

/// A bus that is being set up.
#[derive(Debug)]
pub struct Setup<I2C: Instance, PINS: Pins<I2C>> {
    state: SetupState<I2C, PINS>,
}

/// What a bus that is being set up consists of.
#[derive(Debug)]
pub struct SetupState<I2C: Instance, PINS: Pins<I2C>> {
    pub i2c: I2C,
    pub pins: PINS,
    pub init: Init,
    pub stage: SetupStage,
}

impl<I2C, PINS> SetupState<I2C, PINS> where I2C: Instance, PINS: Pins<I2C> {
    /// The setup before its first request.
    pub open spec fn start(i2c: I2C, pins: PINS, timing: Timing) -> Self {
        SetupState { i2c, pins, init: Init::start(timing), stage: SetupStage::EnableClock }
    }

    /// The pending request, or the end.
    pub open spec fn progress(self) -> Progress<SetupRequest, ()> {
        match self.stage {
            SetupStage::EnableClock => Progress::Pending(SetupRequest::EnableClock),
            SetupStage::Reset => Progress::Pending(SetupRequest::Reset),
            SetupStage::SetAltMode(line) => Progress::Pending(SetupRequest::SetAltMode(line)),
            SetupStage::Configure => match self.init.progress() {
                Progress::Pending(access) => Progress::Pending(SetupRequest::Bus(access)),
                Progress::Finished(_) => Progress::Finished(()),
            },
        }
    }

    /// The setup after the pending request was answered with `value`.
    pub open spec fn next(self, value: u32) -> Self {
        match self.stage {
            SetupStage::EnableClock => SetupState { stage: SetupStage::Reset, ..self },
            SetupStage::Reset => SetupState { stage: SetupStage::SetAltMode(Line::Scl), ..self },
            SetupStage::SetAltMode(Line::Scl) => SetupState {
                pins: self.pins.alternate(Line::Scl),
                stage: SetupStage::SetAltMode(Line::Sda),
                ..self
            },
            SetupStage::SetAltMode(Line::Sda) => SetupState {
                pins: self.pins.alternate(Line::Sda),
                stage: SetupStage::Configure,
                ..self
            },
            SetupStage::Configure => SetupState { init: self.init.after(value), ..self },
        }
    }
}

impl<I2C, PINS> View for Setup<I2C, PINS> where I2C: Instance, PINS: Pins<I2C> {
    type V = SetupState<I2C, PINS>;

    closed spec fn view(&self) -> SetupState<I2C, PINS> {
        self.state
    }
}

impl<I2C, PINS> Setup<I2C, PINS> where I2C: Instance, PINS: Pins<I2C> {
    /// Returns the pins.
    pub fn pins(&self) -> (pins: &PINS)
        ensures
            *pins == self@.pins,
    {
        &self.state.pins
    }

    /// Returns the bus, or the setup itself as long as it is not carried out.
    pub fn finish(self) -> (bus: Result<I2c<I2C, PINS>, Self>)
        ensures
            bus is Ok <==> self.progress() is Finished,
            bus matches Ok(bus) ==> bus.peripheral() == self@.i2c && bus.lines() == self@.pins,
            bus matches Err(setup) ==> setup == self,
    {
        match (self.state.stage, self.state.init.phase) {
            (SetupStage::Configure, InitPhase::Done) => Ok(
                I2c { i2c: self.state.i2c, pins: self.state.pins },
            ),
            _ => Err(self),
        }
    }
}

impl<I2C, PINS> Operation for Setup<I2C, PINS> where I2C: Instance, PINS: Pins<I2C> {
    type Request = SetupRequest;

    type Output = ();

    open spec fn progress(self) -> Progress<SetupRequest, ()> {
        self@.progress()
    }

    closed spec fn after(self, value: u32) -> Self {
        Setup { state: self.state.next(value) }
    }

    fn poll(&self) -> (progress: Progress<SetupRequest, ()>) {
        match self.state.stage {
            SetupStage::EnableClock => Progress::Pending(SetupRequest::EnableClock),
            SetupStage::Reset => Progress::Pending(SetupRequest::Reset),
            SetupStage::SetAltMode(line) => Progress::Pending(SetupRequest::SetAltMode(line)),
            SetupStage::Configure => match self.state.init.poll() {
                Progress::Pending(access) => Progress::Pending(SetupRequest::Bus(access)),
                Progress::Finished(_) => Progress::Finished(()),
            },
        }
    }

    fn reply(&mut self, value: u32)
        ensures
            final(self)@ == old(self)@.next(value),
    {
        match self.state.stage {
            SetupStage::EnableClock => {
                self.state.stage = SetupStage::Reset;
            },
            SetupStage::Reset => {
                self.state.stage = SetupStage::SetAltMode(Line::Scl);
            },
            SetupStage::SetAltMode(Line::Scl) => {
                self.state.pins.set_line_alt_mode(Line::Scl);
                self.state.stage = SetupStage::SetAltMode(Line::Sda);
            },
            SetupStage::SetAltMode(Line::Sda) => {
                self.state.pins.set_line_alt_mode(Line::Sda);
                self.state.stage = SetupStage::Configure;
            },
            SetupStage::Configure => {
                self.state.init.reply(value);
            },
        }
    }

    proof fn lemma_finished_is_final(self, value: u32) {
    }
}

/// The requests that set up a bus, in order: the clock of the peripheral is enabled, the peripheral
/// is reset, the clock line and then the data line are handed to it, and it is configured by the
/// accesses of [`super::init::configures`].
pub open spec fn sets_up(
    timing: Timing,
    before: Seq<Exchange<SetupRequest>>,
    exchange: Exchange<SetupRequest>,
) -> bool {
    exchange.request == (if before.len() == 0 {
        SetupRequest::EnableClock
    } else if before.len() == 1 {
        SetupRequest::Reset
    } else if before.len() == 2 {
        SetupRequest::SetAltMode(Line::Scl)
    } else if before.len() == 3 {
        SetupRequest::SetAltMode(Line::Sda)
    } else {
        SetupRequest::Bus(
            if before.len() == 4 {
                Access::Read(Register::Cr1)
            } else if before.len() == 5 {
                Access::Write(Register::Cr1, before[4].reply & !PE)
            } else if before.len() == 6 {
                Access::Write(Register::Cr2, timing.cr2)
            } else if before.len() == 7 {
                Access::Write(Register::Trise, timing.trise)
            } else if before.len() == 8 {
                Access::Write(Register::Ccr, timing.ccr)
            } else if before.len() == 9 {
                Access::Read(Register::Cr1)
            } else {
                Access::Write(Register::Cr1, before[9].reply | PE)
            },
        )
    })
}

/// The number of requests that were made, as the setup tells it.
spec fn requests(stage: SetupStage, phase: InitPhase) -> int {
    match stage {
        SetupStage::EnableClock => 0,
        SetupStage::Reset => 1,
        SetupStage::SetAltMode(Line::Scl) => 2,
        SetupStage::SetAltMode(Line::Sda) => 3,
        SetupStage::Configure => match phase {
            InitPhase::Disable => 4,
            InitPhase::WriteDisabled { cr1: _ } => 5,
            InitPhase::Frequency => 6,
            InitPhase::RiseTime => 7,
            InitPhase::ClockControl => 8,
            InitPhase::Enable => 9,
            InitPhase::WriteEnabled { cr1: _ } => 10,
            InitPhase::Done => 11,
        },
    }
}

/// The pins after so many requests.
pub open spec fn pins_after<I2C, PINS: Pins<I2C>>(pins: PINS, requests: nat) -> PINS {
    if requests < 3 {
        pins
    } else if requests == 3 {
        pins.alternate(Line::Scl)
    } else {
        pins.alternate(Line::Scl).alternate(Line::Sda)
    }
}

/// What a setup consists of goes through the stages of [`SetupState::next`].
pub proof fn law_setup_step<I2C: Instance, PINS: Pins<I2C>>(setup: Setup<I2C, PINS>, value: u32)
    ensures
        setup.after(value)@ == setup@.next(value),
{
}

/// Setting up a bus takes eleven requests, which are those of [`sets_up`], whatever the peripheral
/// answers. Each pin is handed over when its turn comes, after the reset and before the peripheral
/// is configured. The peripheral is kept.
pub proof fn law_setup<I2C: Instance, PINS: Pins<I2C>>(
    setup: Setup<I2C, PINS>,
    i2c: I2C,
    pins: PINS,
    timing: Timing,
    replies: Seq<u32>,
)
    requires
        setup@ == SetupState::<I2C, PINS>::start(i2c, pins, timing),
    ensures
        ({
            let state = run(setup, replies);
            let exchanged = trace(setup, replies);
            &&& each(exchanged, |b, e| sets_up(timing, b, e))
            &&& exchanged.len() == if replies.len() < 11 {
                replies.len() as int
            } else {
                11
            }
            &&& state.progress() is Finished <==> replies.len() >= 11
            &&& state@.i2c == i2c
            &&& state@.pins == pins_after::<I2C, PINS>(pins, replies.len())
        }),
{
    lemma_setup_run(setup, i2c, pins, timing, replies);
}

proof fn lemma_setup_run<I2C: Instance, PINS: Pins<I2C>>(
    setup: Setup<I2C, PINS>,
    i2c: I2C,
    pins: PINS,
    timing: Timing,
    replies: Seq<u32>,
)
    requires
        setup@ == SetupState::<I2C, PINS>::start(i2c, pins, timing),
    ensures
        ({
            let state = run(setup, replies)@;
            let exchanged = trace(setup, replies);
            &&& state.i2c == i2c
            &&& state.pins == pins_after::<I2C, PINS>(pins, replies.len())
            &&& state.init.timing == timing
            &&& state.stage != SetupStage::Configure ==> state.init.phase == InitPhase::Disable
            &&& each(exchanged, |b, e| sets_up(timing, b, e))
            &&& exchanged.len() == requests(state.stage, state.init.phase)
            &&& exchanged.len() == if replies.len() < 11 {
                replies.len() as int
            } else {
                11
            }
            &&& state.init.phase matches InitPhase::WriteDisabled { cr1 } ==> cr1
                == exchanged[4].reply
            &&& state.init.phase matches InitPhase::WriteEnabled { cr1 } ==> cr1
                == exchanged[9].reply
        }),
    decreases replies.len(),
{
    if replies.len() > 0 {
        let shorter = replies.drop_last();
        lemma_setup_run(setup, i2c, pins, timing, shorter);
        if let Progress::Pending(request) = run(setup, shorter).progress() {
            lemma_each_push(
                trace(setup, shorter),
                Exchange { request, reply: replies.last() },
                |b, e| sets_up(timing, b, e),
            );
        }
    }
}

/// A bus that was set up and is taken apart gives back the peripheral and the pins that it was made
/// of, the pins switched to the peripheral and back.
pub proof fn law_release_undoes_new<I2C: Instance, PINS: Pins<I2C>>(
    i2c: I2C,
    pins: PINS,
    timing: Timing,
    setup: Setup<I2C, PINS>,
    setup_replies: Seq<u32>,
    bus: I2c<I2C, PINS>,
    release: Release<I2C, PINS>,
    release_replies: Seq<u32>,
    parts: (I2C, PINS),
)
    requires
        setup@ == SetupState::<I2C, PINS>::start(i2c, pins, timing),
        call_ensures(
            Setup::<I2C, PINS>::finish,
            (run(setup, setup_replies),),
            Ok::<I2c<I2C, PINS>, Setup<I2C, PINS>>(bus),
        ),
        call_ensures(I2c::<I2C, PINS>::release, (bus,), release),
        call_ensures(
            Release::<I2C, PINS>::finish,
            (run(release, release_replies),),
            Ok::<(I2C, PINS), Release<I2C, PINS>>(parts),
        ),
    ensures
        parts.0 == i2c,
        parts.1 == pins.alternate(Line::Scl).alternate(Line::Sda).restored(Line::Scl).restored(
            Line::Sda,
        ),
{
    law_setup(setup, i2c, pins, timing, setup_replies);
    law_release(release, bus.peripheral(), bus.lines(), release_replies);
}

/// Whether the three accesses write to CR2, TRISE and CCR what `mode` asks for at a bus frequency of
/// `pclk`.
pub open spec fn write_speed(
    mode: Mode,
    pclk: Hertz,
    first: Access<Register>,
    second: Access<Register>,
    third: Access<Register>,
) -> bool {
    match (first, second, third) {
        (
            Access::Write(Register::Cr2, cr2),
            Access::Write(Register::Trise, trise),
            Access::Write(Register::Ccr, ccr),
        ) => sets_speed(mode, pclk.0 as int, cr2 as int, trise as int, ccr as int),
        _ => false,
    }
}

/// Configuring the peripheral clears its enable bit, writes what the mode asks for at the frequency
/// that is given, and sets the enable bit again.
pub proof fn law_i2c_init<I2C: Instance, PINS: Pins<I2C>>(
    bus: I2c<I2C, PINS>,
    mode: Mode,
    pclk: Hertz,
    init: Init,
    replies: Seq<u32>,
)
    requires
        mode.supported(pclk),
        call_ensures(I2c::<I2C, PINS>::i2c_init, (&bus, mode, pclk), init),
        replies.len() >= 7,
    ensures
        ({
            let exchanged = trace(init, replies);
            &&& exchanged.len() == 7
            &&& exchanged[0].request == Access::<Register>::Read(Register::Cr1)
            &&& exchanged[1].request == Access::Write(
                Register::Cr1,
                exchanged[0].reply & 0xffff_fffe,
            )
            &&& write_speed(
                mode,
                pclk,
                exchanged[2].request,
                exchanged[3].request,
                exchanged[4].request,
            )
            &&& exchanged[5].request == Access::<Register>::Read(Register::Cr1)
            &&& exchanged[6].request == Access::Write(Register::Cr1, exchanged[5].reply | 1)
        }),
{
    let timing = Timing::of(mode, pclk);
    lemma_timing_of(mode, pclk);
    law_init(timing, replies);
    let exchanged = trace(init, replies);
    let rule = |b: Seq<Exchange<Access<Register>>>, e: Exchange<Access<Register>>|
        configures(timing, b, e);
    assert(rule(exchanged.take(0), exchanged[0]));
    assert(rule(exchanged.take(1), exchanged[1]));
    assert(rule(exchanged.take(2), exchanged[2]));
    assert(rule(exchanged.take(3), exchanged[3]));
    assert(rule(exchanged.take(4), exchanged[4]));
    assert(rule(exchanged.take(5), exchanged[5]));
    assert(rule(exchanged.take(6), exchanged[6]));
    assert(!1u32 == 0xffff_fffe) by (bit_vector);
}

/// Setting up a bus enables the clock of the peripheral, resets it, hands over the clock line and
/// the data line, clears the enable bit, writes what the mode asks for at the frequency of the APB1
/// bus, and sets the enable bit.
pub proof fn law_new<I2C: Instance, PINS: Pins<I2C>>(
    i2c: I2C,
    pins: PINS,
    mode: Mode,
    clocks: Clocks,
    setup: Setup<I2C, PINS>,
    replies: Seq<u32>,
)
    requires
        mode.supported(clocks.pclk1),
        call_ensures(I2c::<I2C, PINS>::new, (i2c, pins, mode, &clocks), setup),
        replies.len() >= 11,
    ensures
        ({
            let exchanged = trace(setup, replies);
            let state = run(setup, replies)@;
            &&& exchanged.len() == 11
            &&& exchanged[0].request == SetupRequest::EnableClock
            &&& exchanged[1].request == SetupRequest::Reset
            &&& exchanged[2].request == SetupRequest::SetAltMode(Line::Scl)
            &&& exchanged[3].request == SetupRequest::SetAltMode(Line::Sda)
            &&& exchanged[4].request == SetupRequest::Bus(Access::Read(Register::Cr1))
            &&& exchanged[5].request == SetupRequest::Bus(
                Access::Write(Register::Cr1, exchanged[4].reply & 0xffff_fffe),
            )
            &&& match (exchanged[6].request, exchanged[7].request, exchanged[8].request) {
                (
                    SetupRequest::Bus(first),
                    SetupRequest::Bus(second),
                    SetupRequest::Bus(third),
                ) => write_speed(mode, clocks.pclk1, first, second, third),
                _ => false,
            }
            &&& exchanged[9].request == SetupRequest::Bus(Access::Read(Register::Cr1))
            &&& exchanged[10].request == SetupRequest::Bus(
                Access::Write(Register::Cr1, exchanged[9].reply | 1),
            )
            &&& state.i2c == i2c
            &&& state.pins == pins.alternate(Line::Scl).alternate(Line::Sda)
        }),
{
    let timing = Timing::of(mode, clocks.pclk1);
    lemma_timing_of(mode, clocks.pclk1);
    law_setup(setup, i2c, pins, timing, replies);
    let exchanged = trace(setup, replies);
    let rule = |b: Seq<Exchange<SetupRequest>>, e: Exchange<SetupRequest>| sets_up(timing, b, e);
    assert(rule(exchanged.take(0), exchanged[0]));
    assert(rule(exchanged.take(1), exchanged[1]));
    assert(rule(exchanged.take(2), exchanged[2]));
    assert(rule(exchanged.take(3), exchanged[3]));
    assert(rule(exchanged.take(4), exchanged[4]));
    assert(rule(exchanged.take(5), exchanged[5]));
    assert(rule(exchanged.take(6), exchanged[6]));
    assert(rule(exchanged.take(7), exchanged[7]));
    assert(rule(exchanged.take(8), exchanged[8]));
    assert(rule(exchanged.take(9), exchanged[9]));
    assert(rule(exchanged.take(10), exchanged[10]));
    assert(!1u32 == 0xffff_fffe) by (bit_vector);
}

/// The operations that a bus gives out are those that the laws of transfers speak of: sending sends
/// the byte that is given and no other, receiving returns the byte that was read, and a check goes by
/// the status that is read first.
pub proof fn law_bus_operations<I2C: Instance, PINS: Pins<I2C>>(
    bus: I2c<I2C, PINS>,
    byte: u8,
    send: SendByte,
    recv: RecvByte,
    check: CheckFlags,
    replies: Seq<u32>,
)
    requires
        call_ensures(I2c::<I2C, PINS>::send_byte, (&bus, byte), send),
        call_ensures(I2c::<I2C, PINS>::recv_byte, (&bus,), recv),
        call_ensures(I2c::<I2C, PINS>::check_and_clear_error_flags, (&bus,), check),
    ensures
        each(trace(send, replies), |b, e| sends(byte, b, e)),
        each(trace(recv, replies), |b, e| awaits_byte(b, e)),
        run(recv, replies).progress() matches Progress::Finished(Ok(received)) ==> received
            == trace(recv, replies).last().reply % 256,
        replies.len() >= 3 ==> {
            &&& run(check, replies).progress() matches Progress::Finished(result)
            &&& result is Err <==> replies[0] & 0x5e00 != 0
            &&& result matches Ok(status) ==> status == replies[0]
        },
{
    law_send_byte(byte, replies);
    law_recv_byte(replies);
    if replies.len() >= 3 {
        law_check_by_bits(replies);
    }
}

/// A write over a bus is one to the address that is given: every request of it is the one that comes
/// next in such a write, and what it puts into the data register is a beginning of twice that address
/// and the bytes that it was given.
pub proof fn law_bus_writes<I2C: Instance, PINS: Pins<I2C>>(
    bus: &mut I2c<I2C, PINS>,
    addr: u8,
    write: WriteBytes,
    replies: Seq<u32>,
)
    requires
        call_ensures(I2c::<I2C, PINS>::write_bytes, (bus, addr), write),
    ensures
        ({
            let exchanged = trace(write, replies);
            let sent = data_writes(accesses(exchanged));
            &&& each(exchanged, |b, e| takes_next_step(addr, b, e))
            &&& sent == message(addr, taken(exchanged)).take(sent.len() as int)
            &&& sent.len() > 0 ==> sent[0] == 2 * addr
        }),
{
    law_write_bytes_goes_on(addr, replies);
    law_write_bytes_delivers(addr, replies);
}

/// A setup that was begun becomes a bus if and only if all eleven of its requests were answered; the
/// bus has the peripheral that was given and the pins, both switched. Before that the setup is
/// returned as it stands.
pub proof fn law_finish<I2C: Instance, PINS: Pins<I2C>>(
    i2c: I2C,
    pins: PINS,
    mode: Mode,
    clocks: Clocks,
    setup: Setup<I2C, PINS>,
    replies: Seq<u32>,
    result: Result<I2c<I2C, PINS>, Setup<I2C, PINS>>,
)
    requires
        mode.supported(clocks.pclk1),
        call_ensures(I2c::<I2C, PINS>::new, (i2c, pins, mode, &clocks), setup),
        call_ensures(Setup::<I2C, PINS>::finish, (run(setup, replies),), result),
    ensures
        result is Ok <==> replies.len() >= 11,
        result matches Ok(bus) ==> bus.peripheral() == i2c && bus.lines() == pins.alternate(
            Line::Scl,
        ).alternate(Line::Sda),
        result matches Err(unfinished) ==> unfinished == run(setup, replies),
{
    law_setup(setup, i2c, pins, Timing::of(mode, clocks.pclk1), replies);
}

} // verus!
