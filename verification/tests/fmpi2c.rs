use stm32f4_i2c::fmpi2c::bus::{Setup, SetupRequest};
use stm32f4_i2c::fmpi2c::check::CheckFlags;
use stm32f4_i2c::fmpi2c::init::timing;
use stm32f4_i2c::fmpi2c::register::Register;
use stm32f4_i2c::fmpi2c::transfer::{RecvByte, SendByte};
use stm32f4_i2c::fmpi2c::{FMPI2c, FmpMode, FMPI2C1};
use stm32f4_i2c::gpio::{Pin, PinMode, Port};
use stm32f4_i2c::i2c::release::ReleaseRequest;
use stm32f4_i2c::i2c::{Error, Line, Scl, Sda};
use stm32f4_i2c::operation::{Access, Operation, Progress};
use stm32f4_i2c::time::Hertz;

const READ_CR1: Access<Register> = Access::Read(Register::Cr1);
const READ_ISR: Access<Register> = Access::Read(Register::Isr);
const READ_RXDR: Access<Register> = Access::Read(Register::Rxdr);

fn write(register: Register, value: u32) -> Access<Register> {
    Access::Write(register, value)
}

/// Answers the requests of `operation` with `replies` and returns what it asked for.
fn drive<O: Operation>(operation: &mut O, replies: &[u32]) -> Vec<O::Request> {
    let mut requests = Vec::new();
    for reply in replies {
        match operation.poll() {
            Progress::Pending(request) => requests.push(request),
            Progress::Finished(_) => break,
        }
        operation.reply(*reply);
    }
    requests
}

type Pair = (Pin<Scl, FMPI2C1, 9>, Pin<Sda, FMPI2C1, 4>);

fn pair() -> Pair {
    (Pin::new(Port::C, 6, PinMode::Analog), Pin::new(Port::C, 7, PinMode::Input))
}

/// The modes that the pins are in.
fn modes(pins: &Pair) -> (PinMode, PinMode) {
    (pins.0.mode, pins.1.mode)
}

const HOME: (PinMode, PinMode) = (PinMode::Analog, PinMode::Input);
const ALTERNATE: (PinMode, PinMode) =
    (PinMode::AlternateOpenDrain(9), PinMode::AlternateOpenDrain(4));

fn set_up() -> Setup<Pair> {
    FMPI2c::new(FMPI2C1, pair(), FmpMode::fast_plus(Hertz(1_000_000)))
}

fn bus() -> FMPI2c<FMPI2C1, Pair> {
    let mut setup = set_up();
    drive(&mut setup, &[0; 11]);
    match setup.finish() {
        Ok(bus) => bus,
        Err(_) => panic!("the setup takes eleven requests"),
    }
}

#[test]
fn fmp_modes_hold_what_they_are_given() {
    assert_eq!(FmpMode::standard(Hertz(1)), FmpMode::Standard { frequency: Hertz(1) });
    assert_eq!(FmpMode::fast(Hertz(2)), FmpMode::Fast { frequency: Hertz(2) });
    assert_eq!(FmpMode::fast_plus(Hertz(3)), FmpMode::FastPlus { frequency: Hertz(3) });
    assert_eq!(FmpMode::standard(Hertz(1)).get_frequency(), Hertz(1));
    assert_eq!(FmpMode::fast(Hertz(2)).get_frequency(), Hertz(2));
    assert_eq!(FmpMode::fast_plus(Hertz(3)).get_frequency(), Hertz(3));
}

#[test]
fn fmp_frequency_selects_mode() {
    assert_eq!(FmpMode::from(Hertz(100_000)), FmpMode::standard(Hertz(100_000)));
    assert_eq!(FmpMode::from(Hertz(100_001)), FmpMode::fast(Hertz(100_001)));
    assert_eq!(FmpMode::from(Hertz(400_000)), FmpMode::fast(Hertz(400_000)));
    assert_eq!(FmpMode::from(Hertz(400_001)), FmpMode::fast_plus(Hertz(400_001)));
}

#[test]
fn fmp_timing_of_each_mode() {
    assert_eq!(timing(&FmpMode::standard(Hertz(100_000))), 0x3042_fbff);
    assert_eq!(timing(&FmpMode::fast(Hertz(400_000))), 0x1032_f9ff);
    assert_eq!(timing(&FmpMode::fast_plus(Hertz(1_000_000))), 0x0020_fdff);
}

#[test]
fn fmp_long_periods_are_cut_to_their_field() {
    // 1 MHz / 1 kHz - 1 is 999, which is 231 above three times 256.
    assert_eq!(timing(&FmpMode::standard(Hertz(1_000))), 0x3042_e3e7);
    // 8 MHz / 10 kHz - 4 is 796, which is 28 above three times 256.
    assert_eq!(timing(&FmpMode::fast_plus(Hertz(10_000))), 0x0020_1a1c);
}

#[test]
fn fmp_unsupported_modes() {
    assert!(!FmpMode::standard(Hertz(0)).is_supported());
    assert!(FmpMode::standard(Hertz(1_000_000)).is_supported());
    assert!(!FmpMode::standard(Hertz(1_000_001)).is_supported());
    assert!(FmpMode::fast(Hertz(4_000_000)).is_supported());
    assert!(!FmpMode::fast(Hertz(4_000_001)).is_supported());
    assert!(FmpMode::fast_plus(Hertz(2_000_000)).is_supported());
    assert!(!FmpMode::fast_plus(Hertz(2_000_001)).is_supported());
    // 1 MHz / 3891 - 1 is 256, of which the field holds 0: too little to take four off.
    assert!(!FmpMode::standard(Hertz(3_891)).is_supported());
    // 1 MHz / 3831 - 1 is 260.
    assert!(FmpMode::standard(Hertz(3_831)).is_supported());
    assert_eq!(timing(&FmpMode::standard(Hertz(3_831))), 0x3042_0004);
}

#[test]
fn fmp_init_disables_configures_and_enables() {
    let mut init = bus().i2c_init(FmpMode::fast(Hertz(400_000)));
    let requests = drive(&mut init, &[0x11, 0, 0, 0x20, 0]);
    assert_eq!(
        requests,
        vec![
            READ_CR1,
            write(Register::Cr1, 0x10),
            write(Register::Timingr, 0x1032_f9ff),
            READ_CR1,
            write(Register::Cr1, 0x21),
        ]
    );
    assert_eq!(init.poll(), Progress::Finished(()));
}

#[test]
fn fmp_setup_selects_the_internal_oscillator() {
    let mut setup = set_up();
    let requests = drive(&mut setup, &[0, 0, 0xffff_ffff]);
    assert_eq!(
        requests,
        vec![SetupRequest::EnableClock, SetupRequest::Reset, SetupRequest::ReadDckcfgr2]
    );
    assert_eq!(drive(&mut setup, &[0]), vec![SetupRequest::WriteDckcfgr2(0xffbf_ffff)]);
    assert_eq!(modes(setup.pins()), HOME);
    assert_eq!(drive(&mut setup, &[0]), vec![SetupRequest::SetAltMode(Line::Scl)]);
    assert_eq!(modes(setup.pins()), (ALTERNATE.0, HOME.1));
    assert_eq!(drive(&mut setup, &[0]), vec![SetupRequest::SetAltMode(Line::Sda)]);
    assert_eq!(modes(setup.pins()), ALTERNATE);
    let requests = drive(&mut setup, &[0x01, 0, 0, 0, 0, 0]);
    assert_eq!(
        requests,
        vec![
            SetupRequest::Bus(READ_CR1),
            SetupRequest::Bus(write(Register::Cr1, 0)),
            SetupRequest::Bus(write(Register::Timingr, 0x0020_fdff)),
            SetupRequest::Bus(READ_CR1),
            SetupRequest::Bus(write(Register::Cr1, 1)),
        ]
    );
    assert!(setup.finish().is_ok());
}

#[test]
fn fmp_clock_selection_from_zero() {
    let mut setup = set_up();
    drive(&mut setup, &[0, 0, 0]);
    assert_eq!(setup.poll(), Progress::Pending(SetupRequest::WriteDckcfgr2(0x0080_0000)));
}

#[test]
fn fmp_unfinished_setup_is_no_bus() {
    let mut setup = set_up();
    drive(&mut setup, &[0; 10]);
    assert!(setup.finish().is_err());
}

#[test]
fn fmp_release_gives_back_the_parts() {
    let mut release = bus().release();
    assert_eq!(modes(release.pins()), ALTERNATE);
    assert_eq!(drive(&mut release, &[0]), vec![ReleaseRequest::RestoreMode(Line::Scl)]);
    assert_eq!(modes(release.pins()), (HOME.0, ALTERNATE.1));
    assert_eq!(drive(&mut release, &[0, 0]), vec![ReleaseRequest::RestoreMode(Line::Sda)]);
    match release.finish() {
        Ok((FMPI2C1, pins)) => {
            assert_eq!(modes(&pins), HOME);
            assert_eq!((pins.0.port, pins.0.number), (Port::C, 6));
            assert_eq!((pins.1.port, pins.1.number), (Port::C, 7));
        }
        Err(_) => panic!("the release takes two requests"),
    }
}

#[test]
fn fmp_check_clears_a_missing_acknowledge() {
    let mut check = bus().check_and_clear_error_flags(0xffff_ffef);
    assert_eq!(check.poll(), Progress::Finished(Ok(())));
    assert!(drive(&mut check, &[0]).is_empty());

    let mut check = bus().check_and_clear_error_flags(0x10);
    assert_eq!(check, CheckFlags::Clear);
    assert_eq!(drive(&mut check, &[0]), vec![write(Register::Icr, 0x30)]);
    assert_eq!(check.poll(), Progress::Finished(Err(Error::NACK)));
}

#[test]
fn fmp_send_byte_waits_until_asked() {
    let mut send = bus().send_byte(0x5a);
    let requests = drive(&mut send, &[0x01, 0x02, 0, 0x00]);
    assert_eq!(requests, vec![READ_ISR, READ_ISR, write(Register::Txdr, 0x5a), READ_ISR]);
    assert_eq!(send.poll(), Progress::Finished(Ok(())));
}

#[test]
fn fmp_send_byte_fails_before_and_after_the_write() {
    let mut send = SendByte::new(0x5a);
    let requests = drive(&mut send, &[0x12, 0]);
    assert_eq!(requests, vec![READ_ISR, write(Register::Icr, 0x30)]);
    assert_eq!(send.poll(), Progress::Finished(Err(Error::NACK)));

    let mut send = SendByte::new(0x5a);
    let requests = drive(&mut send, &[0x02, 0, 0x10, 0, 0]);
    assert_eq!(
        requests,
        vec![READ_ISR, write(Register::Txdr, 0x5a), READ_ISR, write(Register::Icr, 0x30)]
    );
    assert_eq!(send.poll(), Progress::Finished(Err(Error::NACK)));
}

#[test]
fn fmp_send_byte_needs_no_second_request() {
    // The read after the write is for the acknowledge alone.
    let mut send = bus().send_byte(0x5a);
    let requests = drive(&mut send, &[0x02, 0, 0x02, 0, 0]);
    assert_eq!(requests, vec![READ_ISR, write(Register::Txdr, 0x5a), READ_ISR]);
    assert_eq!(send.poll(), Progress::Finished(Ok(())));
}

#[test]
fn fmp_recv_byte_waits_for_a_byte() {
    let mut recv = bus().recv_byte();
    let requests = drive(&mut recv, &[0x02, 0x04, 0xffff_ff3c]);
    assert_eq!(requests, vec![READ_ISR, READ_ISR, READ_RXDR]);
    assert_eq!(recv.poll(), Progress::Finished(Ok(0x3c)));
}

#[test]
fn fmp_recv_byte_reports_a_missing_acknowledge() {
    let mut recv = RecvByte::new();
    let requests = drive(&mut recv, &[0x14, 0, 0]);
    assert_eq!(requests, vec![READ_ISR, write(Register::Icr, 0x30)]);
    assert_eq!(recv.poll(), Progress::Finished(Err(Error::NACK)));
}

#[test]
fn fmp_transfers_take_few_accesses_when_ready() {
    let mut send = SendByte::new(1);
    assert_eq!(drive(&mut send, &[0x06; 10]).len(), 3);
    assert_eq!(send.poll(), Progress::Finished(Ok(())));
    let mut recv = RecvByte::new();
    assert_eq!(drive(&mut recv, &[0x06; 10]).len(), 2);
    assert_eq!(recv.poll(), Progress::Finished(Ok(0x06)));
}
