//! The driver of the peripheral.

use vstd::prelude::*;

use super::check::CheckFlags;
use super::init::{configures, law_init, lemma_timing_of, sets_speed, timing, Init, InitPhase};
use super::laws::{law_check, law_recv_byte, law_send_byte, receives, sends};
use super::mode::FmpMode;
use super::register::{Register, FMPI2C1SEL, FMPI2C1SEL_HSI, PE};
use super::transfer::{RecvByte, SendByte};
use crate::i2c::release::{law_release, Release, ReleaseState};
use crate::i2c::{Error, Line, Pins};
use crate::operation::{
    each, lemma_each_push, run, trace, Access, Exchange, Operation, Progress,
};

verus! {

/// The FMPI2C peripheral.
#[derive(Debug)]
pub struct FMPI2C1;

/// I2C FastMode+ abstraction
#[derive(Debug)]
pub struct FMPI2c<I2C, PINS> {
    i2c: I2C,
    pins: PINS,
}

impl<I2C, PINS> FMPI2c<I2C, PINS> {
    /// The peripheral that is driven.
    pub closed spec fn peripheral(self) -> I2C {
        self.i2c
    }

    /// The pins that the peripheral drives.
    pub closed spec fn lines(self) -> PINS {
        self.pins
    }
}

impl<PINS> FMPI2c<FMPI2C1, PINS> where PINS: Pins<FMPI2C1> {
    /// Sets up a bus: the clock of the peripheral is enabled, the peripheral is reset and put on
    /// the internal oscillator, the pins are handed to it, and it is configured for `mode`. The bus
    /// is there once the setup is carried out; see [`Setup::finish`].
    pub fn new(i2c: FMPI2C1, pins: PINS, mode: FmpMode) -> (setup: Setup<PINS>)
        requires
            mode.supported(),
        ensures
            setup@ == SetupState::<PINS>::start(i2c, pins, mode.timing() as u32),
    {
        let init = Init::new(timing(&mode));
        Setup { state: SetupState { i2c, pins, init, stage: SetupStage::EnableClock } }
    }

    /// Takes the bus apart: the pins go back to the modes that they were configured in, and the
    /// peripheral and the pins are returned; see [`Release::finish`].
    pub fn release(self) -> (release: Release<FMPI2C1, PINS>)
        ensures
            release@ == ReleaseState::<FMPI2C1, PINS>::start(self.peripheral(), self.lines()),
    {
        Release::new(self.i2c, self.pins)
    }
}

impl<I2C, PINS> FMPI2c<I2C, PINS> {
    /// Configures the peripheral for `mode`.
    pub fn i2c_init(&self, mode: FmpMode) -> (init: Init)
        requires
            mode.supported(),
        ensures
            init == Init::start(mode.timing() as u32),
    {
        Init::new(timing(&mode))
    }

    /// Checks `isr`, a value of ISR, for a missing acknowledge, and clears the flag of it.
    pub fn check_and_clear_error_flags(&self, isr: u32) -> (check: CheckFlags)
        ensures
            check == CheckFlags::start(isr),
    {
        CheckFlags::new(isr)
    }

    /// Sends one byte of data.
    pub fn send_byte(&self, byte: u8) -> (send: SendByte)
        ensures
            send == SendByte::start(byte),
    {
        SendByte::new(byte)
    }

    /// Receives one byte of data.
    pub fn recv_byte(&self) -> (recv: RecvByte)
        ensures
            recv == RecvByte::start(),
    {
        RecvByte::new()
    }
}

/// What setting up a bus asks for.
#[derive(PartialEq, Eq, Debug)]
pub enum SetupRequest {
    /// Enable the clock of the peripheral.
    EnableClock,
    /// Reset the peripheral.
    Reset,
    /// Read DCKCFGR2, a clock configuration register of the chip.
    ReadDckcfgr2,
    /// Write the value to DCKCFGR2.
    WriteDckcfgr2(u32),
    /// Switch the pin of the line to its alternate function.
    SetAltMode(Line),
    /// Access a register of the peripheral.
    Bus(Access<Register>),
}

/// How far a setup has come.
#[derive(Clone, Copy, PartialEq, Eq, Structural, Debug)]
pub enum SetupStage {
    /// The clock of the peripheral has to be enabled.
    EnableClock,
    /// The peripheral has to be reset.
    Reset,
    /// DCKCFGR2 has to be read.
    ReadClock,
    /// DCKCFGR2, which holds `dckcfgr2`, has to be written with the internal oscillator selected.
    SelectClock { dckcfgr2: u32 },
    /// The pin of this line has to be switched.
    SetAltMode(Line),
    /// The pins are handed over, and the peripheral is being configured.
    Configure,
}

/// A bus that is being set up.
#[derive(Debug)]
pub struct Setup<PINS: Pins<FMPI2C1>> {
    state: SetupState<PINS>,
}

/// What a bus that is being set up consists of.
#[derive(Debug)]
pub struct SetupState<PINS: Pins<FMPI2C1>> {
    pub i2c: FMPI2C1,
    pub pins: PINS,
    pub init: Init,
    pub stage: SetupStage,
}

/// The value of DCKCFGR2 that selects the internal oscillator and is `dckcfgr2` otherwise.
pub open spec fn select_hsi(dckcfgr2: u32) -> u32 {
    (dckcfgr2 & !FMPI2C1SEL) | FMPI2C1SEL_HSI
}

impl<PINS> SetupState<PINS> where PINS: Pins<FMPI2C1> {
    /// The setup before its first request.
    pub open spec fn start(i2c: FMPI2C1, pins: PINS, timingr: u32) -> Self {
        SetupState { i2c, pins, init: Init::start(timingr), stage: SetupStage::EnableClock }
    }

    /// The pending request, or the end.
    pub open spec fn progress(self) -> Progress<SetupRequest, ()> {
        match self.stage {
            SetupStage::EnableClock => Progress::Pending(SetupRequest::EnableClock),
            SetupStage::Reset => Progress::Pending(SetupRequest::Reset),
            SetupStage::ReadClock => Progress::Pending(SetupRequest::ReadDckcfgr2),
            SetupStage::SelectClock { dckcfgr2 } => Progress::Pending(
                SetupRequest::WriteDckcfgr2(select_hsi(dckcfgr2)),
            ),
            SetupStage::SetAltMode(line) => Progress::Pending(SetupRequest::SetAltMode(line)),
            SetupStage::Configure => match self.init.progress() {
                Progress::Pending(access) => Progress::Pending(SetupRequest::Bus(access)),
                Progress::Finished(_) => Progress::Finished(()),
            },
        }
    }

    /// The setup after the pending request was answered with `value`.
    pub open spec fn next(self, value: u32) -> Self {
        match self.stage {
            SetupStage::EnableClock => SetupState { stage: SetupStage::Reset, ..self },
            SetupStage::Reset => SetupState { stage: SetupStage::ReadClock, ..self },
            SetupStage::ReadClock => SetupState {
                stage: SetupStage::SelectClock { dckcfgr2: value },
                ..self
            },
            SetupStage::SelectClock { dckcfgr2: _ } => SetupState {
                stage: SetupStage::SetAltMode(Line::Scl),
                ..self
            },
            SetupStage::SetAltMode(Line::Scl) => SetupState {
                pins: self.pins.alternate(Line::Scl),
                stage: SetupStage::SetAltMode(Line::Sda),
                ..self
            },
            SetupStage::SetAltMode(Line::Sda) => SetupState {
                pins: self.pins.alternate(Line::Sda),
                stage: SetupStage::Configure,
                ..self
            },
            SetupStage::Configure => SetupState { init: self.init.after(value), ..self },
        }
    }
}

impl<PINS> View for Setup<PINS> where PINS: Pins<FMPI2C1> {
    type V = SetupState<PINS>;

    closed spec fn view(&self) -> SetupState<PINS> {
        self.state
    }
}

impl<PINS> Setup<PINS> where PINS: Pins<FMPI2C1> {
    /// Returns the pins.
    pub fn pins(&self) -> (pins: &PINS)
        ensures
            *pins == self@.pins,
    {
        &self.state.pins
    }

    /// Returns the bus, or the setup itself as long as it is not carried out.
    pub fn finish(self) -> (bus: Result<FMPI2c<FMPI2C1, PINS>, Self>)
        ensures
            bus is Ok <==> self.progress() is Finished,
            bus matches Ok(bus) ==> bus.peripheral() == self@.i2c && bus.lines() == self@.pins,
            bus matches Err(setup) ==> setup == self,
    {
        match (self.state.stage, self.state.init.phase) {
            (SetupStage::Configure, InitPhase::Done) => Ok(
                FMPI2c { i2c: self.state.i2c, pins: self.state.pins },
            ),
            _ => Err(self),
        }
    }
}

impl<PINS> Operation for Setup<PINS> where PINS: Pins<FMPI2C1> {
    type Request = SetupRequest;

    type Output = ();

    open spec fn progress(self) -> Progress<SetupRequest, ()> {
        self@.progress()
    }

    closed spec fn after(self, value: u32) -> Self {
        Setup { state: self.state.next(value) }
    }

    fn poll(&self) -> (progress: Progress<SetupRequest, ()>) {
        match self.state.stage {
            SetupStage::EnableClock => Progress::Pending(SetupRequest::EnableClock),
            SetupStage::Reset => Progress::Pending(SetupRequest::Reset),
            SetupStage::ReadClock => Progress::Pending(SetupRequest::ReadDckcfgr2),
            SetupStage::SelectClock { dckcfgr2 } => Progress::Pending(
                SetupRequest::WriteDckcfgr2((dckcfgr2 & !FMPI2C1SEL) | FMPI2C1SEL_HSI),
            ),
            SetupStage::SetAltMode(line) => Progress::Pending(SetupRequest::SetAltMode(line)),
            SetupStage::Configure => match self.state.init.poll() {
                Progress::Pending(access) => Progress::Pending(SetupRequest::Bus(access)),
                Progress::Finished(_) => Progress::Finished(()),
            },
        }
    }

    fn reply(&mut self, value: u32)
        ensures
            final(self)@ == old(self)@.next(value),
    {
        match self.state.stage {
            SetupStage::EnableClock => {
                self.state.stage = SetupStage::Reset;
            },
            SetupStage::Reset => {
                self.state.stage = SetupStage::ReadClock;
            },
            SetupStage::ReadClock => {
                self.state.stage = SetupStage::SelectClock { dckcfgr2: value };
            },
            SetupStage::SelectClock { .. } => {
                self.state.stage = SetupStage::SetAltMode(Line::Scl);
            },
            SetupStage::SetAltMode(Line::Scl) => {
                self.state.pins.set_line_alt_mode(Line::Scl);
                self.state.stage = SetupStage::SetAltMode(Line::Sda);
            },
            SetupStage::SetAltMode(Line::Sda) => {
                self.state.pins.set_line_alt_mode(Line::Sda);
                self.state.stage = SetupStage::Configure;
            },
            SetupStage::Configure => {
                self.state.init.reply(value);
            },
        }
    }

    proof fn lemma_finished_is_final(self, value: u32) {
    }
}

/// The requests that set up a bus, in order: the clock of the peripheral is enabled, the peripheral
/// is reset and put on the internal oscillator, the clock line and then the data line are handed to
/// it, and it is configured by the accesses of [`super::init::configures`].
pub open spec fn sets_up(
    timingr: u32,
    before: Seq<Exchange<SetupRequest>>,
    exchange: Exchange<SetupRequest>,
) -> bool {
    exchange.request == (if before.len() == 0 {
        SetupRequest::EnableClock
    } else if before.len() == 1 {
        SetupRequest::Reset
    } else if before.len() == 2 {
        SetupRequest::ReadDckcfgr2
    } else if before.len() == 3 {
        SetupRequest::WriteDckcfgr2(select_hsi(before[2].reply))
    } else if before.len() == 4 {
        SetupRequest::SetAltMode(Line::Scl)
    } else if before.len() == 5 {
        SetupRequest::SetAltMode(Line::Sda)
    } else {
        SetupRequest::Bus(
            if before.len() == 6 {
                Access::Read(Register::Cr1)
            } else if before.len() == 7 {
                Access::Write(Register::Cr1, before[6].reply & !PE)
            } else if before.len() == 8 {
                Access::Write(Register::Timingr, timingr)
            } else if before.len() == 9 {
                Access::Read(Register::Cr1)
            } else {
                Access::Write(Register::Cr1, before[9].reply | PE)
            },
        )
    })
}

/// The number of requests that were made, as the setup tells it.
spec fn requests(stage: SetupStage, phase: InitPhase) -> int {
    match stage {
        SetupStage::EnableClock => 0,
        SetupStage::Reset => 1,
        SetupStage::ReadClock => 2,
        SetupStage::SelectClock { dckcfgr2: _ } => 3,
        SetupStage::SetAltMode(Line::Scl) => 4,
        SetupStage::SetAltMode(Line::Sda) => 5,
        SetupStage::Configure => match phase {
            InitPhase::Disable => 6,
            InitPhase::WriteDisabled { cr1: _ } => 7,
            InitPhase::Timing => 8,
            InitPhase::Enable => 9,
            InitPhase::WriteEnabled { cr1: _ } => 10,
            InitPhase::Done => 11,
        },
    }
}

/// The pins after so many requests.
pub open spec fn pins_after<PINS: Pins<FMPI2C1>>(pins: PINS, requests: nat) -> PINS {
    if requests < 5 {
        pins
    } else if requests == 5 {
        pins.alternate(Line::Scl)
    } else {
        pins.alternate(Line::Scl).alternate(Line::Sda)
    }
}

/// What a setup consists of goes through the stages of [`SetupState::next`].
pub proof fn law_setup_step<PINS: Pins<FMPI2C1>>(setup: Setup<PINS>, value: u32)
    ensures
        setup.after(value)@ == setup@.next(value),
{
}

/// Setting up a bus takes eleven requests, which are those of [`sets_up`], whatever the peripheral
/// answers. Each pin is handed over when its turn comes, after the clock is selected and before the
/// peripheral is configured. The peripheral is kept.
pub proof fn law_setup<PINS: Pins<FMPI2C1>>(
    setup: Setup<PINS>,
    i2c: FMPI2C1,
    pins: PINS,
    timingr: u32,
    replies: Seq<u32>,
)
    requires
        setup@ == SetupState::<PINS>::start(i2c, pins, timingr),
    ensures
        ({
            let state = run(setup, replies);
            let exchanged = trace(setup, replies);
            &&& each(exchanged, |b, e| sets_up(timingr, b, e))
            &&& exchanged.len() == if replies.len() < 11 {
                replies.len() as int
            } else {
                11
            }
            &&& state.progress() is Finished <==> replies.len() >= 11
            &&& state@.i2c == i2c
            &&& state@.pins == pins_after(pins, replies.len())
        }),
{
    lemma_setup_run(setup, i2c, pins, timingr, replies);
}

proof fn lemma_setup_run<PINS: Pins<FMPI2C1>>(
    setup: Setup<PINS>,
    i2c: FMPI2C1,
    pins: PINS,
    timingr: u32,
    replies: Seq<u32>,
)
    requires
        setup@ == SetupState::<PINS>::start(i2c, pins, timingr),
    ensures
        ({
            let state = run(setup, replies)@;
            let exchanged = trace(setup, replies);
            &&& state.i2c == i2c
            &&& state.pins == pins_after(pins, replies.len())
            &&& state.init.timingr == timingr
            &&& state.stage != SetupStage::Configure ==> state.init.phase == InitPhase::Disable
            &&& each(exchanged, |b, e| sets_up(timingr, b, e))
            &&& exchanged.len() == requests(state.stage, state.init.phase)
            &&& exchanged.len() == if replies.len() < 11 {
                replies.len() as int
            } else {
                11
            }
            &&& state.stage matches SetupStage::SelectClock { dckcfgr2 } ==> dckcfgr2
                == exchanged[2].reply
            &&& state.init.phase matches InitPhase::WriteDisabled { cr1 } ==> cr1
                == exchanged[6].reply
            &&& state.init.phase matches InitPhase::WriteEnabled { cr1 } ==> cr1
                == exchanged[9].reply
        }),
    decreases replies.len(),
{
    if replies.len() > 0 {
        let shorter = replies.drop_last();
        lemma_setup_run(setup, i2c, pins, timingr, shorter);
        if let Progress::Pending(request) = run(setup, shorter).progress() {
            lemma_each_push(
                trace(setup, shorter),
                Exchange { request, reply: replies.last() },
                |b, e| sets_up(timingr, b, e),
            );
        }
    }
}

/// Selecting the internal oscillator changes no other bit of DCKCFGR2.
pub proof fn law_select_hsi(dckcfgr2: u32)
    ensures
        select_hsi(dckcfgr2) & FMPI2C1SEL == FMPI2C1SEL_HSI,
        select_hsi(dckcfgr2) & !FMPI2C1SEL == dckcfgr2 & !FMPI2C1SEL,
{
    assert(((dckcfgr2 & !0x00c0_0000u32) | 0x0080_0000) & 0x00c0_0000 == 0x0080_0000)
        by (bit_vector);
    assert(((dckcfgr2 & !0x00c0_0000u32) | 0x0080_0000) & !0x00c0_0000u32 == dckcfgr2
        & !0x00c0_0000u32) by (bit_vector);
}

/// A bus that was set up and is taken apart gives back the peripheral and the pins that it was made
/// of, the pins switched to the peripheral and back.
pub proof fn law_release_undoes_new<PINS: Pins<FMPI2C1>>(
    i2c: FMPI2C1,
    pins: PINS,
    timingr: u32,
    setup: Setup<PINS>,
    setup_replies: Seq<u32>,
    bus: FMPI2c<FMPI2C1, PINS>,
    release: Release<FMPI2C1, PINS>,
    release_replies: Seq<u32>,
    parts: (FMPI2C1, PINS),
)
    requires
        setup@ == SetupState::<PINS>::start(i2c, pins, timingr),
        call_ensures(
            Setup::<PINS>::finish,
            (run(setup, setup_replies),),
            Ok::<FMPI2c<FMPI2C1, PINS>, Setup<PINS>>(bus),
        ),
        call_ensures(FMPI2c::<FMPI2C1, PINS>::release, (bus,), release),
        call_ensures(
            Release::<FMPI2C1, PINS>::finish,
            (run(release, release_replies),),
            Ok::<(FMPI2C1, PINS), Release<FMPI2C1, PINS>>(parts),
        ),
    ensures
        parts.0 == i2c,
        parts.1 == pins.alternate(Line::Scl).alternate(Line::Sda).restored(Line::Scl).restored(
            Line::Sda,
        ),
{
    law_setup(setup, i2c, pins, timingr, setup_replies);
    law_release(release, bus.peripheral(), bus.lines(), release_replies);
}

/// Configuring the peripheral clears its enable bit, writes what the mode asks for to TIMINGR, and
/// sets the enable bit again.
pub proof fn law_i2c_init<I2C, PINS>(
    bus: FMPI2c<I2C, PINS>,
    mode: FmpMode,
    init: Init,
    replies: Seq<u32>,
)
    requires
        mode.supported(),
        call_ensures(FMPI2c::<I2C, PINS>::i2c_init, (&bus, mode), init),
        replies.len() >= 5,
    ensures
        ({
            let exchanged = trace(init, replies);
            &&& exchanged.len() == 5
            &&& exchanged[0].request == Access::<Register>::Read(Register::Cr1)
            &&& exchanged[1].request == Access::Write(
                Register::Cr1,
                exchanged[0].reply & 0xffff_fffe,
            )
            &&& exchanged[2].request matches Access::Write(Register::Timingr, timingr)
                && sets_speed(mode, timingr as int)
            &&& exchanged[3].request == Access::<Register>::Read(Register::Cr1)
            &&& exchanged[4].request == Access::Write(Register::Cr1, exchanged[3].reply | 1)
        }),
{
    let timingr = mode.timing() as u32;
    lemma_timing_of(mode);
    law_init(timingr, replies);
    let exchanged = trace(init, replies);
    let rule = |b: Seq<Exchange<Access<Register>>>, e: Exchange<Access<Register>>|
        configures(timingr, b, e);
    assert(rule(exchanged.take(0), exchanged[0]));
    assert(rule(exchanged.take(1), exchanged[1]));
    assert(rule(exchanged.take(2), exchanged[2]));
    assert(rule(exchanged.take(3), exchanged[3]));
    assert(rule(exchanged.take(4), exchanged[4]));
    assert(!1u32 == 0xffff_fffe) by (bit_vector);
}

/// Setting up a bus enables the clock of the peripheral, resets it, changes the two bits of DCKCFGR2
/// that select its clock to those of the internal oscillator, hands over the clock line and the data
/// line, clears the enable bit, writes what the mode asks for to TIMINGR, and sets the enable bit.
pub proof fn law_new<PINS: Pins<FMPI2C1>>(
    i2c: FMPI2C1,
    pins: PINS,
    mode: FmpMode,
    setup: Setup<PINS>,
    replies: Seq<u32>,
)
    requires
        mode.supported(),
        call_ensures(FMPI2c::<FMPI2C1, PINS>::new, (i2c, pins, mode), setup),
        replies.len() >= 11,
    ensures
        ({
            let exchanged = trace(setup, replies);
            let state = run(setup, replies)@;
            &&& exchanged.len() == 11
            &&& exchanged[0].request == SetupRequest::EnableClock
            &&& exchanged[1].request == SetupRequest::Reset
            &&& exchanged[2].request == SetupRequest::ReadDckcfgr2
            &&& exchanged[3].request matches SetupRequest::WriteDckcfgr2(value) && value
                & 0x00c0_0000 == 0x0080_0000 && value & 0xff3f_ffff == exchanged[2].reply
                & 0xff3f_ffff
            &&& exchanged[4].request == SetupRequest::SetAltMode(Line::Scl)
            &&& exchanged[5].request == SetupRequest::SetAltMode(Line::Sda)
            &&& exchanged[6].request == SetupRequest::Bus(Access::Read(Register::Cr1))
            &&& exchanged[7].request == SetupRequest::Bus(
                Access::Write(Register::Cr1, exchanged[6].reply & 0xffff_fffe),
            )
            &&& exchanged[8].request matches SetupRequest::Bus(
                Access::Write(Register::Timingr, timingr),
            ) && sets_speed(mode, timingr as int)
            &&& exchanged[9].request == SetupRequest::Bus(Access::Read(Register::Cr1))
            &&& exchanged[10].request == SetupRequest::Bus(
                Access::Write(Register::Cr1, exchanged[9].reply | 1),
            )
            &&& state.i2c == i2c
            &&& state.pins == pins.alternate(Line::Scl).alternate(Line::Sda)
        }),
{
    let timingr = mode.timing() as u32;
    lemma_timing_of(mode);
    law_setup(setup, i2c, pins, timingr, replies);
    let exchanged = trace(setup, replies);
    let rule = |b: Seq<Exchange<SetupRequest>>, e: Exchange<SetupRequest>| sets_up(timingr, b, e);
    assert(rule(exchanged.take(0), exchanged[0]));
    assert(rule(exchanged.take(1), exchanged[1]));
    assert(rule(exchanged.take(2), exchanged[2]));
    assert(rule(exchanged.take(3), exchanged[3]));
    assert(rule(exchanged.take(4), exchanged[4]));
    assert(rule(exchanged.take(5), exchanged[5]));
    assert(rule(exchanged.take(6), exchanged[6]));
    assert(rule(exchanged.take(7), exchanged[7]));
    assert(rule(exchanged.take(8), exchanged[8]));
    assert(rule(exchanged.take(9), exchanged[9]));
    assert(rule(exchanged.take(10), exchanged[10]));
    law_select_hsi(exchanged[2].reply);
    assert(!1u32 == 0xffff_fffe && !0x00c0_0000u32 == 0xff3f_ffff) by (bit_vector);
}

/// The operations that a bus gives out are those that the laws of transfers speak of: sending sends
/// the byte that is given and no other, receiving returns the byte that was read, and a check fails,
/// once it has cleared the flag, if and only if the value that it is given shows a missing
/// acknowledge.
pub proof fn law_bus_operations<I2C, PINS>(
    bus: FMPI2c<I2C, PINS>,
    byte: u8,
    isr: u32,
    send: SendByte,
    recv: RecvByte,
    check: CheckFlags,
    replies: Seq<u32>,
)
    requires
        call_ensures(FMPI2c::<I2C, PINS>::send_byte, (&bus, byte), send),
        call_ensures(FMPI2c::<I2C, PINS>::recv_byte, (&bus,), recv),
        call_ensures(FMPI2c::<I2C, PINS>::check_and_clear_error_flags, (&bus, isr), check),
    ensures
        each(trace(send, replies), |b, e| sends(byte, b, e)),
        each(trace(recv, replies), |b, e| receives(b, e)),
        run(recv, replies).progress() matches Progress::Finished(Ok(received)) ==> received
            == trace(recv, replies).last().reply % 256,
        replies.len() >= 1 ==> {
            &&& run(check, replies).progress() matches Progress::Finished(result)
            &&& result is Err <==> isr & 0x10 != 0
            &&& result matches Err(error) ==> error == Error::NACK
            &&& trace(check, replies).len() == 1 <==> isr & 0x10 != 0
            &&& trace(check, replies).len() <= 1
        },
{
    law_send_byte(byte, replies);
    law_recv_byte(replies);
    law_check(isr, replies);
}

/// A setup that was begun becomes a bus if and only if all eleven of its requests were answered; the
/// bus has the peripheral that was given and the pins, both switched. Before that the setup is
/// returned as it stands.
pub proof fn law_finish<PINS: Pins<FMPI2C1>>(
    i2c: FMPI2C1,
    pins: PINS,
    mode: FmpMode,
    setup: Setup<PINS>,
    replies: Seq<u32>,
    result: Result<FMPI2c<FMPI2C1, PINS>, Setup<PINS>>,
)
    requires
        mode.supported(),
        call_ensures(FMPI2c::<FMPI2C1, PINS>::new, (i2c, pins, mode), setup),
        call_ensures(Setup::<PINS>::finish, (run(setup, replies),), result),
    ensures
        result is Ok <==> replies.len() >= 11,
        result matches Ok(bus) ==> bus.peripheral() == i2c && bus.lines() == pins.alternate(
            Line::Scl,
        ).alternate(Line::Sda),
        result matches Err(unfinished) ==> unfinished == run(setup, replies),
{
    law_setup(setup, i2c, pins, mode.timing() as u32, replies);
}

} // verus!
