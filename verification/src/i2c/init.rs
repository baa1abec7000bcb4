//! Configuring the peripheral.

use vstd::prelude::*;

use super::mode::{DutyCycle, Mode};
use super::register::{Register, CCR_FIELD, DUTY, F_S, PE};
use crate::operation::{
    each, lemma_each_push, run, trace, Access, Exchange, Operation, Progress,
};
use crate::time::Hertz;

verus! {

/// One megahertz, in hertz.
pub const MEGAHERTZ: u32 = 1_000_000;

impl Mode {
    /// The frequency that one unit of the clock control field stands for: the frequency of the mode
    /// times the number of clock ticks in one period of the clock line.
    pub open spec fn unit(self) -> int {
        match self {
            Mode::Standard { frequency } => frequency.0 * 2,
            Mode::Fast { frequency, duty_cycle: DutyCycle::Ratio2to1 } => frequency.0 * 3,
            Mode::Fast { frequency, duty_cycle: DutyCycle::Ratio16to9 } => frequency.0 * 25,
        }
    }

    /// The smallest value that the clock control field is given.
    pub open spec fn least_divider(self) -> int {
        match self {
            Mode::Standard { frequency: _ } => 4,
            Mode::Fast { frequency: _, duty_cycle: _ } => 1,
        }
    }

    /// Whether the peripheral can be set to this mode while its bus runs at `pclk`: the bus has to
    /// run at 2 to 50 whole megahertz, and the unit of the clock control field has to be positive and
    /// to fit its type.
    pub open spec fn supported(self, pclk: Hertz) -> bool {
        &&& 2 <= pclk.0 / MEGAHERTZ <= 50
        &&& 0 < self.unit() <= u32::MAX
    }

    /// The clock divider of the mode.
    pub open spec fn divider(self, pclk: Hertz) -> int {
        let quotient = pclk.0 as int / self.unit();
        if quotient < self.least_divider() {
            self.least_divider()
        } else {
            quotient
        }
    }

    /// The bits of CCR that select the mode.
    pub open spec fn selector(self) -> int {
        match self {
            Mode::Standard { frequency: _ } => 0,
            Mode::Fast { frequency: _, duty_cycle: DutyCycle::Ratio2to1 } => F_S as int,
            Mode::Fast { frequency: _, duty_cycle: DutyCycle::Ratio16to9 } => F_S + DUTY,
        }
    }

    /// Returns whether the peripheral can be set to this mode while its bus runs at `pclk`.
    pub fn is_supported(&self, pclk: Hertz) -> (supported: bool)
        ensures
            supported == self.supported(pclk),
    {
        let megahertz: u32 = pclk.0 / MEGAHERTZ;
        let (frequency, ticks): (u32, u32) = match *self {
            Mode::Standard { frequency } => (frequency.0, 2),
            Mode::Fast { frequency, duty_cycle: DutyCycle::Ratio2to1 } => (frequency.0, 3),
            Mode::Fast { frequency, duty_cycle: DutyCycle::Ratio16to9 } => (frequency.0, 25),
        };
        2 <= megahertz && megahertz <= 50 && 0 < frequency && frequency <= u32::MAX / ticks
    }
}

/// The values that set the speed of the peripheral.
#[derive(Clone, Copy, PartialEq, Eq, Structural, Debug)]
pub struct Timing {
    /// The value of CR2: the bus frequency in megahertz.
    pub cr2: u32,
    /// The value of TRISE: the longest rise time that the mode allows, in clock ticks, plus one.
    pub trise: u32,
    /// The value of CCR: the mode, and the clock divider as far as its field can hold it.
    pub ccr: u32,
}

impl Timing {
    /// The values for `mode` at a bus frequency of `pclk`.
    pub open spec fn of(mode: Mode, pclk: Hertz) -> Self {
        let megahertz = pclk.0 as int / MEGAHERTZ as int;
        Timing {
            cr2: megahertz as u32,
            trise: (match mode {
                Mode::Standard { frequency: _ } => megahertz + 1,
                Mode::Fast { frequency: _, duty_cycle: _ } => megahertz * 300 / 1000 + 1,
            }) as u32,
            ccr: (mode.selector() + mode.divider(pclk) % CCR_FIELD as int) as u32,
        }
    }

    /// Computes the values for `mode` at a bus frequency of `pclk`.
    pub fn new(mode: &Mode, pclk: Hertz) -> (timing: Self)
        requires
            mode.supported(pclk),
        ensures
            timing == Timing::of(*mode, pclk),
    {
        let clock: u32 = pclk.0;
        let megahertz: u32 = clock / MEGAHERTZ;
        match *mode {
            Mode::Standard { frequency } => {
                let quotient: u32 = clock / (frequency.0 * 2);
                let divider: u32 = if quotient < 4 { 4 } else { quotient };
                Timing { cr2: megahertz, trise: megahertz + 1, ccr: divider % CCR_FIELD }
            },
            Mode::Fast { frequency, duty_cycle: DutyCycle::Ratio2to1 } => {
                let quotient: u32 = clock / (frequency.0 * 3);
                let divider: u32 = if quotient < 1 { 1 } else { quotient };
                Timing {
                    cr2: megahertz,
                    trise: megahertz * 300 / 1000 + 1,
                    ccr: F_S + divider % CCR_FIELD,
                }
            },
            Mode::Fast { frequency, duty_cycle: DutyCycle::Ratio16to9 } => {
                let quotient: u32 = clock / (frequency.0 * 25);
                let divider: u32 = if quotient < 1 { 1 } else { quotient };
                Timing {
                    cr2: megahertz,
                    trise: megahertz * 300 / 1000 + 1,
                    ccr: F_S + DUTY + divider % CCR_FIELD,
                }
            },
        }
    }
}

/// Configuring the peripheral: it is disabled, set up and enabled again.
#[derive(Clone, Copy, PartialEq, Eq, Structural, Debug)]
pub struct Init {
    pub timing: Timing,
    pub phase: InitPhase,
}

/// How far the configuration has come.
#[derive(Clone, Copy, PartialEq, Eq, Structural, Debug)]
pub enum InitPhase {
    /// CR1 has to be read.
    Disable,
    /// CR1, which holds `cr1`, has to be written without the enable bit.
    WriteDisabled { cr1: u32 },
    /// CR2 has to be written.
    Frequency,
    /// TRISE has to be written.
    RiseTime,
    /// CCR has to be written.
    ClockControl,
    /// CR1 has to be read.
    Enable,
    /// CR1, which holds `cr1`, has to be written with the enable bit.
    WriteEnabled { cr1: u32 },
    /// The peripheral is configured.
    Done,
}

impl Init {
    /// The configuration before its first access.
    pub open spec fn start(timing: Timing) -> Self {
        Init { timing, phase: InitPhase::Disable }
    }

    /// Prepares the configuration.
    pub fn new(timing: Timing) -> (init: Self)
        ensures
            init == Init::start(timing),
    {
        Init { timing, phase: InitPhase::Disable }
    }
}

impl Operation for Init {
    type Request = Access<Register>;

    type Output = ();

    open spec fn progress(self) -> Progress<Access<Register>, ()> {
        match self.phase {
            InitPhase::Disable => Progress::Pending(Access::Read(Register::Cr1)),
            InitPhase::WriteDisabled { cr1 } => Progress::Pending(
                Access::Write(Register::Cr1, cr1 & !PE),
            ),
            InitPhase::Frequency => Progress::Pending(
                Access::Write(Register::Cr2, self.timing.cr2),
            ),
            InitPhase::RiseTime => Progress::Pending(
                Access::Write(Register::Trise, self.timing.trise),
            ),
            InitPhase::ClockControl => Progress::Pending(
                Access::Write(Register::Ccr, self.timing.ccr),
            ),
            InitPhase::Enable => Progress::Pending(Access::Read(Register::Cr1)),
            InitPhase::WriteEnabled { cr1 } => Progress::Pending(
                Access::Write(Register::Cr1, cr1 | PE),
            ),
            InitPhase::Done => Progress::Finished(()),
        }
    }

    open spec fn after(self, value: u32) -> Self {
        Init {
            timing: self.timing,
            phase: match self.phase {
                InitPhase::Disable => InitPhase::WriteDisabled { cr1: value },
                InitPhase::WriteDisabled { cr1: _ } => InitPhase::Frequency,
                InitPhase::Frequency => InitPhase::RiseTime,
                InitPhase::RiseTime => InitPhase::ClockControl,
                InitPhase::ClockControl => InitPhase::Enable,
                InitPhase::Enable => InitPhase::WriteEnabled { cr1: value },
                InitPhase::WriteEnabled { cr1: _ } => InitPhase::Done,
                InitPhase::Done => InitPhase::Done,
            },
        }
    }

    fn poll(&self) -> (progress: Progress<Access<Register>, ()>) {
        match self.phase {
            InitPhase::Disable => Progress::Pending(Access::Read(Register::Cr1)),
            InitPhase::WriteDisabled { cr1 } => Progress::Pending(
                Access::Write(Register::Cr1, cr1 & !PE),
            ),
            InitPhase::Frequency => Progress::Pending(
                Access::Write(Register::Cr2, self.timing.cr2),
            ),
            InitPhase::RiseTime => Progress::Pending(
                Access::Write(Register::Trise, self.timing.trise),
            ),
            InitPhase::ClockControl => Progress::Pending(
                Access::Write(Register::Ccr, self.timing.ccr),
            ),
            InitPhase::Enable => Progress::Pending(Access::Read(Register::Cr1)),
            InitPhase::WriteEnabled { cr1 } => Progress::Pending(
                Access::Write(Register::Cr1, cr1 | PE),
            ),
            InitPhase::Done => Progress::Finished(()),
        }
    }

    fn reply(&mut self, value: u32) {
        self.phase = match self.phase {
            InitPhase::Disable => InitPhase::WriteDisabled { cr1: value },
            InitPhase::WriteDisabled { .. } => InitPhase::Frequency,
            InitPhase::Frequency => InitPhase::RiseTime,
            InitPhase::RiseTime => InitPhase::ClockControl,
            InitPhase::ClockControl => InitPhase::Enable,
            InitPhase::Enable => InitPhase::WriteEnabled { cr1: value },
            InitPhase::WriteEnabled { .. } => InitPhase::Done,
            InitPhase::Done => InitPhase::Done,
        };
    }

    proof fn lemma_finished_is_final(self, value: u32) {
    }
}

/// The accesses that configure the peripheral, in order: CR1 is read and written back without the
/// enable bit, the three values are written, and CR1 is read and written back with the enable bit.
pub open spec fn configures(
    timing: Timing,
    before: Seq<Exchange<Access<Register>>>,
    exchange: Exchange<Access<Register>>,
) -> bool {
    exchange.request == (if before.len() == 0 {
        Access::Read(Register::Cr1)
    } else if before.len() == 1 {
        Access::Write(Register::Cr1, before[0].reply & !PE)
    } else if before.len() == 2 {
        Access::Write(Register::Cr2, timing.cr2)
    } else if before.len() == 3 {
        Access::Write(Register::Trise, timing.trise)
    } else if before.len() == 4 {
        Access::Write(Register::Ccr, timing.ccr)
    } else if before.len() == 5 {
        Access::Read(Register::Cr1)
    } else {
        Access::Write(Register::Cr1, before[5].reply | PE)
    })
}

/// The number of accesses that were made, as the phase tells it.
spec fn accesses(phase: InitPhase) -> int {
    match phase {
        InitPhase::Disable => 0,
        InitPhase::WriteDisabled { cr1: _ } => 1,
        InitPhase::Frequency => 2,
        InitPhase::RiseTime => 3,
        InitPhase::ClockControl => 4,
        InitPhase::Enable => 5,
        InitPhase::WriteEnabled { cr1: _ } => 6,
        InitPhase::Done => 7,
    }
}

/// Configuring the peripheral takes seven accesses, which are those of [`configures`], whatever the
/// peripheral answers.
pub proof fn law_init(timing: Timing, replies: Seq<u32>)
    ensures
        each(trace(Init::start(timing), replies), |b, e| configures(timing, b, e)),
        trace(Init::start(timing), replies).len() == (if replies.len() < 7 {
            replies.len() as int
        } else {
            7
        }),
        run(Init::start(timing), replies).progress() is Finished <==> replies.len() >= 7,
{
    lemma_init_run(timing, replies);
}

proof fn lemma_init_run(timing: Timing, replies: Seq<u32>)
    ensures
        ({
            let state = run(Init::start(timing), replies);
            let exchanged = trace(Init::start(timing), replies);
            &&& state.timing == timing
            &&& each(exchanged, |b, e| configures(timing, b, e))
            &&& exchanged.len() == accesses(state.phase)
            &&& accesses(state.phase) == if replies.len() < 7 {
                replies.len() as int
            } else {
                7
            }
            &&& state.phase matches InitPhase::WriteDisabled { cr1 } ==> cr1 == exchanged[0].reply
            &&& state.phase matches InitPhase::WriteEnabled { cr1 } ==> cr1 == exchanged[5].reply
        }),
    decreases replies.len(),
{
    let start = Init::start(timing);
    if replies.len() > 0 {
        let shorter = replies.drop_last();
        lemma_init_run(timing, shorter);
        if let Progress::Pending(request) = run(start, shorter).progress() {
            lemma_each_push(
                trace(start, shorter),
                Exchange { request, reply: replies.last() },
                |b, e| configures(timing, b, e),
            );
        }
    }
}

/// The peripheral is disabled while it is configured and enabled afterwards, and no other bit of
/// CR1 is changed.
pub proof fn law_enable_bit(cr1: u32)
    ensures
        (cr1 & !PE) & PE == 0,
        (cr1 & !PE) & !PE == cr1 & !PE,
        (cr1 | PE) & PE == PE,
        (cr1 | PE) & !PE == cr1 & !PE,
{
    assert((cr1 & !1u32) & 1u32 == 0) by (bit_vector);
    assert((cr1 & !1u32) & !1u32 == cr1 & !1u32) by (bit_vector);
    assert((cr1 | 1u32) & 1u32 == 1u32) by (bit_vector);
    assert((cr1 | 1u32) & !1u32 == cr1 & !1u32) by (bit_vector);
}

/// The clock divider is the largest for which the clock line does not run slower than asked, unless
/// that falls below the least that the mode allows, which is then used.
pub proof fn law_divider(mode: Mode, pclk: Hertz)
    requires
        mode.supported(pclk),
    ensures
        mode.divider(pclk) * mode.unit() <= pclk.0 || mode.divider(pclk) == mode.least_divider(),
        pclk.0 < (mode.divider(pclk) + 1) * mode.unit(),
        mode.divider(pclk) >= mode.least_divider(),
{
    let clock = pclk.0 as int;
    let unit = mode.unit();
    let quotient = clock / unit;
    let divider = mode.divider(pclk);
    assert(quotient * unit <= clock < (quotient + 1) * unit) by (nonlinear_arith)
        requires
            unit > 0,
            quotient == clock / unit,
    ;
    assert((quotient + 1) * unit <= (divider + 1) * unit) by (nonlinear_arith)
        requires
            unit > 0,
            quotient <= divider,
    ;
}

/// Every value fits its field, the mode bits of CCR tell the mode, and the rest of CCR is the clock
/// divider as long as that fits.
pub proof fn law_timing_fits(mode: Mode, pclk: Hertz)
    requires
        mode.supported(pclk),
    ensures
        2 <= Timing::of(mode, pclk).cr2 <= 50,
        1 <= Timing::of(mode, pclk).trise <= 51,
        Timing::of(mode, pclk).ccr & F_S != 0 <==> mode is Fast,
        Timing::of(mode, pclk).ccr & DUTY != 0 <==> (mode matches Mode::Fast {
            frequency: _,
            duty_cycle,
        } && duty_cycle == DutyCycle::Ratio16to9),
        mode.divider(pclk) < CCR_FIELD ==> Timing::of(mode, pclk).ccr % CCR_FIELD == mode.divider(
            pclk,
        ),
{
    let field = (mode.divider(pclk) % CCR_FIELD as int) as u32;
    law_divider(mode, pclk);
    assert(field < 0x1000);
    let standard = field;
    let fast = (0x8000 + field) as u32;
    let fast_duty = (0xc000 + field) as u32;
    assert(standard & 0x8000 == 0 && standard & 0x4000 == 0) by (bit_vector)
        requires
            standard < 0x1000,
    ;
    assert(fast & 0x8000 != 0 && fast & 0x4000 == 0) by (bit_vector)
        requires
            0x8000 <= fast < 0x9000,
    ;
    assert(fast_duty & 0x8000 != 0 && fast_duty & 0x4000 != 0) by (bit_vector)
        requires
            0xc000 <= fast_duty < 0xd000,
    ;
}

/// Whether `count` is how often `period` fits into `clock`, but at least `least`.
pub open spec fn fits_so_often(clock: int, period: int, least: int, count: int) -> bool {
    &&& least <= count
    &&& count * period <= clock || count == least
    &&& clock < (count + 1) * period
}

/// What CCR has to hold at a bus frequency of `clock` hertz: in its upper four bits the number
/// `selector`, and below them how often `period` fits into `clock`, but at least `least`, as far as
/// twelve bits can hold it.
pub open spec fn ccr_holds(ccr: int, selector: int, clock: int, period: int, least: int) -> bool {
    &&& ccr / 4096 == selector
    &&& exists|count: int| #[trigger]
        fits_so_often(clock, period, least, count) && count % 4096 == ccr % 4096
}

/// What the registers have to hold for `mode` at a bus frequency of `clock` hertz.
///
/// CR2 is the frequency in whole megahertz. TRISE is one more than the number of whole clock ticks in
/// the longest rise time of the mode, which is 1000 ns in standard mode and 300 ns in fast mode. A
/// period of the clock line takes two units of the field of CCR in standard mode, three in fast mode
/// at a duty cycle of 2:1, and 25 at one of 16:9.
pub open spec fn sets_speed(mode: Mode, clock: int, cr2: int, trise: int, ccr: int) -> bool {
    &&& cr2 * 1_000_000 <= clock < (cr2 + 1) * 1_000_000
    &&& match mode {
        Mode::Standard { frequency } => {
            &&& (trise - 1) * 1000 <= cr2 * 1000 < trise * 1000
            &&& ccr_holds(ccr, 0, clock, frequency.0 * 2, 4)
        },
        Mode::Fast { frequency, duty_cycle } => {
            &&& (trise - 1) * 1000 <= cr2 * 300 < trise * 1000
            &&& match duty_cycle {
                DutyCycle::Ratio2to1 => ccr_holds(ccr, 8, clock, frequency.0 * 3, 1),
                DutyCycle::Ratio16to9 => ccr_holds(ccr, 12, clock, frequency.0 * 25, 1),
            }
        },
    }
}

/// The values of [`Timing::of`] are those that [`sets_speed`] asks for.
pub proof fn lemma_timing_of(mode: Mode, pclk: Hertz)
    requires
        mode.supported(pclk),
    ensures
        ({
            let timing = Timing::of(mode, pclk);
            sets_speed(
                mode,
                pclk.0 as int,
                timing.cr2 as int,
                timing.trise as int,
                timing.ccr as int,
            )
        }),
{
    let timing = Timing::of(mode, pclk);
    law_divider(mode, pclk);
    let divider = mode.divider(pclk);
    let clock = pclk.0 as int;
    assert(fits_so_often(clock, mode.unit(), mode.least_divider(), divider));
    assert(0 <= divider % 4096 < 4096);
    assert(timing.ccr == mode.selector() + divider % 4096);
    assert(timing.ccr as int / 4096 == mode.selector() / 4096);
    assert(timing.ccr as int % 4096 == divider % 4096);
}

/// For every mode and bus frequency that are supported, the values that are computed are those that
/// [`sets_speed`] asks for.
pub proof fn law_timing(mode: Mode, pclk: Hertz, timing: Timing)
    requires
        mode.supported(pclk),
        call_ensures(Timing::new, (&mode, pclk), timing),
    ensures
        sets_speed(mode, pclk.0 as int, timing.cr2 as int, timing.trise as int, timing.ccr as int),
{
    lemma_timing_of(mode, pclk);
}

/// A mode is supported if and only if the bus runs at 2 MHz or more and below 51 MHz, the frequency
/// is positive, and a period of the clock line in units of the field of CCR fits 32 bits.
pub proof fn law_supported(mode: Mode, pclk: Hertz, supported: bool)
    requires
        call_ensures(Mode::is_supported, (&mode, pclk), supported),
    ensures
        supported <==> {
            &&& 2_000_000 <= pclk.0 < 51_000_000
            &&& match mode {
                Mode::Standard { frequency } => 0 < frequency.0 * 2 < 0x1_0000_0000,
                Mode::Fast { frequency, duty_cycle: DutyCycle::Ratio2to1 } => 0 < frequency.0 * 3
                    < 0x1_0000_0000,
                Mode::Fast { frequency, duty_cycle: DutyCycle::Ratio16to9 } => 0 < frequency.0 * 25
                    < 0x1_0000_0000,
            }
        },
        supported <==> mode.supported(pclk),
{
}

} // verus!
