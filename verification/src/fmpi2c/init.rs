//! Configuring the peripheral.

use vstd::arithmetic::div_mod::lemma_fundamental_div_mod_converse;
use vstd::arithmetic::power2::{lemma2_to64, pow2};
use vstd::prelude::*;

use super::mode::FmpMode;
use super::register::{Register, PE};
use crate::operation::{
    each, lemma_each_push, run, trace, Access, Exchange, Operation, Progress,
};

verus! {

/// The frequency of the internal oscillator, which the peripheral runs on, in hertz.
pub const HSI: u32 = 16_000_000;

impl FmpMode {
    /// The prescaler of the mode: the clock is divided by two to the power of it.
    pub open spec fn prescaler(self) -> int {
        match self {
            FmpMode::Standard { frequency: _ } => 3,
            FmpMode::Fast { frequency: _ } => 1,
            FmpMode::FastPlus { frequency: _ } => 0,
        }
    }

    /// Half the frequency that is left after the prescaler.
    pub open spec fn half_clock(self) -> int {
        match self {
            FmpMode::Standard { frequency: _ } => HSI as int / 8 / 2,
            FmpMode::Fast { frequency: _ } => HSI as int / 2 / 2,
            FmpMode::FastPlus { frequency: _ } => HSI as int / 2,
        }
    }

    /// What is taken off the length of half a period to allow for delays.
    pub open spec fn allowance(self) -> int {
        match self {
            FmpMode::Standard { frequency: _ } => 1,
            FmpMode::Fast { frequency: _ } => 1,
            FmpMode::FastPlus { frequency: _ } => 4,
        }
    }

    /// By how much the clock line is longer low than high.
    pub open spec fn skew(self) -> int {
        match self {
            FmpMode::Standard { frequency: _ } => 4,
            FmpMode::Fast { frequency: _ } => 6,
            FmpMode::FastPlus { frequency: _ } => 2,
        }
    }

    /// The length of half a period, less the allowance.
    pub open spec fn half_period(self) -> int {
        self.half_clock() / (self.frequency().0 as int) - self.allowance()
    }

    /// How long the clock line is low: the length of half a period, but at least 255, as far as its
    /// field of eight bits can hold it.
    pub open spec fn low(self) -> int {
        (if self.half_period() < 255 {
            255
        } else {
            self.half_period()
        }) % 256
    }

    /// How long the clock line is high.
    pub open spec fn high(self) -> int {
        self.low() - self.skew()
    }

    /// The data hold time.
    pub open spec fn hold(self) -> int {
        match self {
            FmpMode::Standard { frequency: _ } => 2,
            FmpMode::Fast { frequency: _ } => 2,
            FmpMode::FastPlus { frequency: _ } => 0,
        }
    }

    /// The data setup time.
    pub open spec fn setup(self) -> int {
        match self {
            FmpMode::Standard { frequency: _ } => 4,
            FmpMode::Fast { frequency: _ } => 3,
            FmpMode::FastPlus { frequency: _ } => 2,
        }
    }

    /// Whether the peripheral can be set to this mode: its frequency has to be positive, and neither
    /// the length of half a period nor how long the clock line is high may fall below zero.
    pub open spec fn supported(self) -> bool {
        &&& 0 < self.frequency().0
        &&& 0 <= self.half_period()
        &&& 0 <= self.high()
    }

    /// The value of TIMINGR for the mode.
    pub open spec fn timing(self) -> int {
        self.prescaler() * 0x1000_0000 + self.setup() * 0x10_0000 + self.hold() * 0x1_0000
            + self.high() * 0x100 + self.low()
    }

    /// Returns whether the peripheral can be set to this mode.
    pub fn is_supported(&self) -> (supported: bool)
        ensures
            supported == self.supported(),
    {
        let (half_clock, frequency, allowance, skew): (u32, u32, u32, u8) = match *self {
            FmpMode::Standard { frequency } => (HSI / 8 / 2, frequency.0, 1, 4),
            FmpMode::Fast { frequency } => (HSI / 2 / 2, frequency.0, 1, 6),
            FmpMode::FastPlus { frequency } => (HSI / 2, frequency.0, 4, 2),
        };
        if frequency == 0 || half_clock / frequency < allowance {
            false
        } else {
            skew <= low_period(half_clock / frequency - allowance)
        }
    }
}

/// Returns `half_period`, but at least 255, as far as eight bits can hold it.
fn low_period(half_period: u32) -> (low: u8)
    ensures
        low == (if half_period < 255 {
            255
        } else {
            half_period as int
        }) % 256,
{
    let length: u32 = if half_period < 255 {
        255
    } else {
        half_period
    };
    (length % 256) as u8
}

/// Packs the fields of TIMINGR.
fn pack(presc: u8, scldel: u8, sdadel: u8, sclh: u8, scll: u8) -> (timingr: u32)
    requires
        presc < 16,
        scldel < 16,
        sdadel < 16,
    ensures
        timingr == presc * 0x1000_0000 + scldel * 0x10_0000 + sdadel * 0x1_0000 + sclh * 0x100
            + scll,
{
    presc as u32 * 0x1000_0000 + scldel as u32 * 0x10_0000 + sdadel as u32 * 0x1_0000 + sclh as u32
        * 0x100 + scll as u32
}

/// Computes the value of TIMINGR for `mode`.
pub fn timing(mode: &FmpMode) -> (timingr: u32)
    requires
        mode.supported(),
    ensures
        timingr == mode.timing(),
{
    match *mode {
        FmpMode::Standard { frequency } => {
            let half_period: u32 = HSI / 8 / 2 / frequency.0 - 1;
            let scll: u8 = low_period(half_period);
            pack(3, 4, 2, scll - 4, scll)
        },
        FmpMode::Fast { frequency } => {
            let half_period: u32 = HSI / 2 / 2 / frequency.0 - 1;
            let scll: u8 = low_period(half_period);
            pack(1, 3, 2, scll - 6, scll)
        },
        FmpMode::FastPlus { frequency } => {
            let half_period: u32 = HSI / 2 / frequency.0 - 4;
            let scll: u8 = low_period(half_period);
            pack(0, 2, 0, scll - 2, scll)
        },
    }
}

/// Configuring the peripheral: it is disabled, set up and enabled again.
#[derive(Clone, Copy, PartialEq, Eq, Structural, Debug)]
pub struct Init {
    /// The value of TIMINGR.
    pub timingr: u32,
    pub phase: InitPhase,
}

/// How far the configuration has come.
#[derive(Clone, Copy, PartialEq, Eq, Structural, Debug)]
pub enum InitPhase {
    /// CR1 has to be read.
    Disable,
    /// CR1, which holds `cr1`, has to be written without the enable bit.
    WriteDisabled { cr1: u32 },
    /// TIMINGR has to be written.
    Timing,
    /// CR1 has to be read.
    Enable,
    /// CR1, which holds `cr1`, has to be written with the enable bit.
    WriteEnabled { cr1: u32 },
    /// The peripheral is configured.
    Done,
}

impl Init {
    /// The configuration before its first access.
    pub open spec fn start(timingr: u32) -> Self {
        Init { timingr, phase: InitPhase::Disable }
    }

    /// Prepares the configuration.
    pub fn new(timingr: u32) -> (init: Self)
        ensures
            init == Init::start(timingr),
    {
        Init { timingr, phase: InitPhase::Disable }
    }
}

impl Operation for Init {
    type Request = Access<Register>;

    type Output = ();

    open spec fn progress(self) -> Progress<Access<Register>, ()> {
        match self.phase {
            InitPhase::Disable => Progress::Pending(Access::Read(Register::Cr1)),
            InitPhase::WriteDisabled { cr1 } => Progress::Pending(
                Access::Write(Register::Cr1, cr1 & !PE),
            ),
            InitPhase::Timing => Progress::Pending(Access::Write(Register::Timingr, self.timingr)),
            InitPhase::Enable => Progress::Pending(Access::Read(Register::Cr1)),
            InitPhase::WriteEnabled { cr1 } => Progress::Pending(
                Access::Write(Register::Cr1, cr1 | PE),
            ),
            InitPhase::Done => Progress::Finished(()),
        }
    }

    open spec fn after(self, value: u32) -> Self {
        Init {
            timingr: self.timingr,
            phase: match self.phase {
                InitPhase::Disable => InitPhase::WriteDisabled { cr1: value },
                InitPhase::WriteDisabled { cr1: _ } => InitPhase::Timing,
                InitPhase::Timing => InitPhase::Enable,
                InitPhase::Enable => InitPhase::WriteEnabled { cr1: value },
                InitPhase::WriteEnabled { cr1: _ } => InitPhase::Done,
                InitPhase::Done => InitPhase::Done,
            },
        }
    }

    fn poll(&self) -> (progress: Progress<Access<Register>, ()>) {
        match self.phase {
            InitPhase::Disable => Progress::Pending(Access::Read(Register::Cr1)),
            InitPhase::WriteDisabled { cr1 } => Progress::Pending(
                Access::Write(Register::Cr1, cr1 & !PE),
            ),
            InitPhase::Timing => Progress::Pending(Access::Write(Register::Timingr, self.timingr)),
            InitPhase::Enable => Progress::Pending(Access::Read(Register::Cr1)),
            InitPhase::WriteEnabled { cr1 } => Progress::Pending(
                Access::Write(Register::Cr1, cr1 | PE),
            ),
            InitPhase::Done => Progress::Finished(()),
        }
    }

    fn reply(&mut self, value: u32) {
        self.phase = match self.phase {
            InitPhase::Disable => InitPhase::WriteDisabled { cr1: value },
            InitPhase::WriteDisabled { .. } => InitPhase::Timing,
            InitPhase::Timing => InitPhase::Enable,
            InitPhase::Enable => InitPhase::WriteEnabled { cr1: value },
            InitPhase::WriteEnabled { .. } => InitPhase::Done,
            InitPhase::Done => InitPhase::Done,
        };
    }

    proof fn lemma_finished_is_final(self, value: u32) {
    }
}

/// The accesses that configure the peripheral, in order: CR1 is read and written back without the
/// enable bit, TIMINGR is written, and CR1 is read and written back with the enable bit.
pub open spec fn configures(
    timingr: u32,
    before: Seq<Exchange<Access<Register>>>,
    exchange: Exchange<Access<Register>>,
) -> bool {
    exchange.request == (if before.len() == 0 {
        Access::Read(Register::Cr1)
    } else if before.len() == 1 {
        Access::Write(Register::Cr1, before[0].reply & !PE)
    } else if before.len() == 2 {
        Access::Write(Register::Timingr, timingr)
    } else if before.len() == 3 {
        Access::Read(Register::Cr1)
    } else {
        Access::Write(Register::Cr1, before[3].reply | PE)
    })
}

/// The number of accesses that were made, as the phase tells it.
spec fn accesses(phase: InitPhase) -> int {
    match phase {
        InitPhase::Disable => 0,
        InitPhase::WriteDisabled { cr1: _ } => 1,
        InitPhase::Timing => 2,
        InitPhase::Enable => 3,
        InitPhase::WriteEnabled { cr1: _ } => 4,
        InitPhase::Done => 5,
    }
}

/// Configuring the peripheral takes five accesses, which are those of [`configures`], whatever the
/// peripheral answers.
pub proof fn law_init(timingr: u32, replies: Seq<u32>)
    ensures
        each(trace(Init::start(timingr), replies), |b, e| configures(timingr, b, e)),
        trace(Init::start(timingr), replies).len() == (if replies.len() < 5 {
            replies.len() as int
        } else {
            5
        }),
        run(Init::start(timingr), replies).progress() is Finished <==> replies.len() >= 5,
{
    lemma_init_run(timingr, replies);
}

proof fn lemma_init_run(timingr: u32, replies: Seq<u32>)
    ensures
        ({
            let state = run(Init::start(timingr), replies);
            let exchanged = trace(Init::start(timingr), replies);
            &&& state.timingr == timingr
            &&& each(exchanged, |b, e| configures(timingr, b, e))
            &&& exchanged.len() == accesses(state.phase)
            &&& accesses(state.phase) == if replies.len() < 5 {
                replies.len() as int
            } else {
                5
            }
            &&& state.phase matches InitPhase::WriteDisabled { cr1 } ==> cr1 == exchanged[0].reply
            &&& state.phase matches InitPhase::WriteEnabled { cr1 } ==> cr1 == exchanged[3].reply
        }),
    decreases replies.len(),
{
    let start = Init::start(timingr);
    if replies.len() > 0 {
        let shorter = replies.drop_last();
        lemma_init_run(timingr, shorter);
        if let Progress::Pending(request) = run(start, shorter).progress() {
            lemma_each_push(
                trace(start, shorter),
                Exchange { request, reply: replies.last() },
                |b, e| configures(timingr, b, e),
            );
        }
    }
}

/// The clock line is low for 255 units, whatever the frequency, as long as half a period is no
/// longer than that.
pub proof fn law_low_period(mode: FmpMode)
    requires
        mode.supported(),
        mode.half_period() <= 255,
    ensures
        mode.low() == 255,
        mode.high() == 255 - mode.skew(),
{
}

/// Fields that are laid side by side can be read back from the whole, the lowest two of eight bits
/// and the others of four.
proof fn lemma_fields(whole: int, top: int, third: int, second: int, high: int, low: int)
    requires
        whole == top * 0x1000_0000 + third * 0x10_0000 + second * 0x1_0000 + high * 0x100 + low,
        0 <= top < 16,
        0 <= third < 16,
        0 <= second < 16,
        0 <= high < 256,
        0 <= low < 256,
    ensures
        0 <= whole <= u32::MAX,
        whole / 0x1000_0000 == top,
        whole / 0x100_0000 == top * 16,
        whole / 0x10_0000 == top * 256 + third,
        whole / 0x1_0000 == top * 4096 + third * 16 + second,
        whole / 0x100 == top * 0x10_0000 + third * 0x1000 + second * 0x100 + high,
        whole % 256 == low,
{
    lemma_split(whole, 0x1000_0000, top, whole - top * 0x1000_0000);
    lemma_split(whole, 0x100_0000, top * 16, whole - top * 0x1000_0000);
    let upper = top * 256 + third;
    lemma_split(whole, 0x10_0000, upper, whole - upper * 0x10_0000);
    let upper = top * 4096 + third * 16 + second;
    lemma_split(whole, 0x1_0000, upper, whole - upper * 0x1_0000);
    let upper = top * 0x10_0000 + third * 0x1000 + second * 0x100 + high;
    lemma_split(whole, 0x100, upper, low);
}

/// The quotient and the remainder are what makes up the whole.
proof fn lemma_split(whole: int, divisor: int, quotient: int, remainder: int)
    requires
        whole == quotient * divisor + remainder,
        0 <= remainder < divisor,
    ensures
        whole / divisor == quotient,
        whole % divisor == remainder,
{
    lemma_fundamental_div_mod_converse(whole, divisor, quotient, remainder);
}

/// Every value can be read back from its field of TIMINGR, and TIMINGR holds nothing else.
pub proof fn law_timing_fields(mode: FmpMode)
    requires
        mode.supported(),
    ensures
        0 <= mode.timing() <= u32::MAX,
        mode.timing() / 0x1000_0000 == mode.prescaler(),
        mode.timing() / 0x100_0000 % 16 == 0,
        mode.timing() / 0x10_0000 % 16 == mode.setup(),
        mode.timing() / 0x1_0000 % 16 == mode.hold(),
        mode.timing() / 0x100 % 256 == mode.high(),
        mode.timing() % 256 == mode.low(),
{
    let (top, third, second) = (mode.prescaler(), mode.setup(), mode.hold());
    let (high, low) = (mode.high(), mode.low());
    lemma_fields(mode.timing(), top, third, second, high, low);
    lemma_split(top * 16, 16, top, 0);
    lemma_split(top * 256 + third, 16, top * 16, third);
    lemma_split(top * 4096 + third * 16 + second, 16, top * 256 + third, second);
    lemma_split(
        top * 0x10_0000 + third * 0x1000 + second * 0x100 + high,
        256,
        top * 0x1000 + third * 16 + second,
        high,
    );
}

/// Whether `count` is the number of whole ticks of `clock` in half a period of `frequency`, less
/// `allowance`, but at least 255.
pub open spec fn is_half_period(clock: int, frequency: int, allowance: int, count: int) -> bool {
    &&& 255 <= count
    &&& 2 * frequency * (count + allowance) <= clock || count == 255
    &&& clock < 2 * frequency * (count + allowance + 1)
}

/// What TIMINGR has to hold, field by field: the prescaler, the data setup time, the data hold time,
/// and how long the clock line is high and low. The clock line is low for half a period, in ticks of
/// the 16 MHz oscillator as the prescaler field divides it (so that a period takes two to the power
/// of that field times fewer of them), and `skew` longer than it is high.
pub open spec fn timingr_holds(
    timingr: int,
    presc: int,
    scldel: int,
    sdadel: int,
    skew: int,
    frequency: int,
    allowance: int,
) -> bool {
    let scll = timingr % 256;
    let sclh = timingr / 256 % 256;
    let ticks = frequency * pow2((timingr / 0x1000_0000) as nat);
    &&& timingr / 0x1000_0000 == presc
    &&& timingr / 0x100_0000 % 16 == 0
    &&& timingr / 0x10_0000 % 16 == scldel
    &&& timingr / 0x1_0000 % 16 == sdadel
    &&& scll - sclh == skew
    &&& exists|count: int| #[trigger]
        is_half_period(16_000_000, ticks, allowance, count) && count % 256 == scll
}

/// What TIMINGR has to hold for `mode`, in numbers.
pub open spec fn sets_speed(mode: FmpMode, timingr: int) -> bool {
    match mode {
        FmpMode::Standard { frequency } => timingr_holds(
            timingr,
            3,
            4,
            2,
            4,
            frequency.0 as int,
            1,
        ),
        FmpMode::Fast { frequency } => timingr_holds(timingr, 1, 3, 2, 6, frequency.0 as int, 1),
        FmpMode::FastPlus { frequency } => timingr_holds(
            timingr,
            0,
            2,
            0,
            2,
            frequency.0 as int,
            4,
        ),
    }
}

/// How often a frequency fits into half a clock, less an allowance but at least 255.
proof fn lemma_half_period(clock: int, half: int, frequency: int, allowance: int, count: int)
    requires
        0 < frequency,
        clock == 2 * half,
        0 <= half / frequency - allowance,
        count == if half / frequency - allowance < 255 {
            255
        } else {
            half / frequency - allowance
        },
    ensures
        is_half_period(clock, frequency, allowance, count),
{
    let quotient = half / frequency;
    assert(quotient * frequency <= half < (quotient + 1) * frequency) by (nonlinear_arith)
        requires
            0 < frequency,
            quotient == half / frequency,
    ;
    if quotient - allowance < 255 {
        assert(clock < 2 * frequency * (count + allowance + 1)) by (nonlinear_arith)
            requires
                clock == 2 * half,
                half < (quotient + 1) * frequency,
                0 < frequency,
                quotient < count + allowance,
        ;
    } else {
        assert(2 * frequency * (count + allowance) <= clock) by (nonlinear_arith)
            requires
                clock == 2 * half,
                quotient * frequency <= half,
                quotient == count + allowance,
        ;
        assert(clock < 2 * frequency * (count + allowance + 1)) by (nonlinear_arith)
            requires
                clock == 2 * half,
                half < (quotient + 1) * frequency,
                quotient == count + allowance,
        ;
    }
}

/// For every mode that is supported, whatever its frequency, the value of TIMINGR is the one that
/// [`sets_speed`] asks for.
pub proof fn law_timing(mode: FmpMode, timingr: u32)
    requires
        mode.supported(),
        call_ensures(timing, (&mode,), timingr),
    ensures
        sets_speed(mode, timingr as int),
{
    lemma_timing_of(mode);
}

/// The value of [`FmpMode::timing`] is the one that [`sets_speed`] asks for, and fits its register.
pub proof fn lemma_timing_of(mode: FmpMode)
    requires
        mode.supported(),
    ensures
        sets_speed(mode, mode.timing()),
        0 <= mode.timing() <= u32::MAX,
{
    let timingr = mode.timing();
    law_timing_fields(mode);
    lemma2_to64();
    let power = pow2((timingr / 0x1000_0000) as nat) as int;
    assert(power == pow2(mode.prescaler() as nat));
    assert(power * (2 * mode.half_clock()) == 16_000_000) by {
        match mode {
            FmpMode::Standard { frequency: _ } => {
                assert(power == 8 && mode.half_clock() == 1_000_000);
                assert(8int * 2_000_000 == 16_000_000);
            },
            FmpMode::Fast { frequency: _ } => {
                assert(power == 2 && mode.half_clock() == 4_000_000);
                assert(2int * 8_000_000 == 16_000_000);
            },
            FmpMode::FastPlus { frequency: _ } => {
                assert(power == 1 && mode.half_clock() == 8_000_000);
            },
        }
    }
    let count = if mode.half_period() < 255 {
        255
    } else {
        mode.half_period()
    };
    let frequency = mode.frequency().0 as int;
    let (half, allowance) = (mode.half_clock(), mode.allowance());
    lemma_half_period(2 * half, half, frequency, allowance, count);
    lemma_half_period_scales(2 * half, frequency, allowance, count, power);
    assert(is_half_period(16_000_000, frequency * power, allowance, count));
    assert(count % 256 == timingr % 256);
}

/// A clock and a frequency that are both multiplied keep their ratio.
proof fn lemma_half_period_scales(
    clock: int,
    frequency: int,
    allowance: int,
    count: int,
    factor: int,
)
    requires
        0 < factor,
        is_half_period(clock, frequency, allowance, count),
    ensures
        is_half_period(factor * clock, frequency * factor, allowance, count),
{
    let fewer = 2 * frequency * (count + allowance);
    let more = 2 * frequency * (count + allowance + 1);
    assert(2 * (frequency * factor) * (count + allowance) == factor * fewer) by (nonlinear_arith)
        requires
            fewer == 2 * frequency * (count + allowance),
    ;
    assert(2 * (frequency * factor) * (count + allowance + 1) == factor * more)
        by (nonlinear_arith)
        requires
            more == 2 * frequency * (count + allowance + 1),
    ;
    assert(factor * clock < factor * more) by (nonlinear_arith)
        requires
            0 < factor,
            clock < more,
    ;
    if fewer <= clock {
        assert(factor * fewer <= factor * clock) by (nonlinear_arith)
            requires
                0 < factor,
                fewer <= clock,
        ;
    }
}

/// Whether the clock line can be low long enough: half a period of `clock` at `frequency` is no
/// shorter than `allowance`, and what eight bits hold of it is no shorter than `skew`.
pub open spec fn is_in_range(clock: int, frequency: int, allowance: int, skew: int) -> bool {
    &&& 0 < frequency
    &&& 2 * frequency * allowance <= clock
    &&& forall|count: int| #[trigger]
        is_half_period(clock, frequency, allowance, count) ==> skew <= count % 256
}

/// No two counts are the same half period.
proof fn lemma_half_period_is_unique(
    clock: int,
    frequency: int,
    allowance: int,
    one: int,
    other: int,
)
    requires
        0 < frequency,
        is_half_period(clock, frequency, allowance, one),
        is_half_period(clock, frequency, allowance, other),
    ensures
        one == other,
{
    if one < other {
        assert(2 * frequency * (one + allowance + 1) <= 2 * frequency * (other + allowance))
            by (nonlinear_arith)
            requires
                0 < frequency,
                one < other,
        ;
    } else if other < one {
        assert(2 * frequency * (other + allowance + 1) <= 2 * frequency * (one + allowance))
            by (nonlinear_arith)
            requires
                0 < frequency,
                other < one,
        ;
    }
}

/// A quotient is no less than a number if that many times the divisor fit.
proof fn lemma_quotient_reaches(half: int, frequency: int, allowance: int)
    requires
        0 < frequency,
        0 <= half,
    ensures
        allowance <= half / frequency <==> frequency * allowance <= half,
{
    let quotient = half / frequency;
    assert(quotient * frequency <= half < (quotient + 1) * frequency) by (nonlinear_arith)
        requires
            0 < frequency,
            quotient == half / frequency,
    ;
    if allowance <= quotient {
        assert(frequency * allowance <= quotient * frequency) by (nonlinear_arith)
            requires
                0 < frequency,
                allowance <= quotient,
        ;
    } else {
        assert((quotient + 1) * frequency <= frequency * allowance) by (nonlinear_arith)
            requires
                0 < frequency,
                quotient + 1 <= allowance,
        ;
    }
}

/// A mode is supported if and only if its frequency is in the range of the oscillator as the
/// prescaler divides it: 2 MHz in standard mode, 8 MHz in fast mode and 16 MHz in fast mode plus.
pub proof fn law_supported(mode: FmpMode, supported: bool)
    requires
        call_ensures(FmpMode::is_supported, (&mode,), supported),
    ensures
        supported <==> match mode {
            FmpMode::Standard { frequency } => is_in_range(2_000_000, frequency.0 as int, 1, 4),
            FmpMode::Fast { frequency } => is_in_range(8_000_000, frequency.0 as int, 1, 6),
            FmpMode::FastPlus { frequency } => is_in_range(16_000_000, frequency.0 as int, 4, 2),
        },
        supported <==> mode.supported(),
{
    let frequency = mode.frequency().0 as int;
    let half = mode.half_clock();
    let allowance = mode.allowance();
    if 0 < frequency {
        lemma_quotient_reaches(half, frequency, allowance);
        if 0 <= mode.half_period() {
            let count = if mode.half_period() < 255 {
                255
            } else {
                mode.half_period()
            };
            lemma_half_period(2 * half, half, frequency, allowance, count);
            assert forall|other: int| #[trigger]
                is_half_period(2 * half, frequency, allowance, other) implies other == count by {
                lemma_half_period_is_unique(2 * half, frequency, allowance, other, count);
            }
        }
    }
}

} // verus!
