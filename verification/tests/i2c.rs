use stm32f4_i2c::gpio::{Pin, PinMode, Port};
use stm32f4_i2c::i2c::bus::{Setup, SetupRequest};
use stm32f4_i2c::i2c::check::{Check, CheckFlags, Flag};
use stm32f4_i2c::i2c::init::{Init, Timing};
use stm32f4_i2c::i2c::register::Register;
use stm32f4_i2c::i2c::release::{Release, ReleaseRequest};
use stm32f4_i2c::i2c::transfer::{RecvByte, SendByte, WriteBytes, WriteRequest, NO_BYTE};
use stm32f4_i2c::i2c::{DutyCycle, Error, I2c, Line, Mode, Pins, Scl, Sda, I2C1, I2C2};
use stm32f4_i2c::operation::{Access, Operation, Progress};
use stm32f4_i2c::rcc::Clocks;
use stm32f4_i2c::time::Hertz;

const READ_CR1: Access<Register> = Access::Read(Register::Cr1);
const READ_SR1: Access<Register> = Access::Read(Register::Sr1);
const READ_SR2: Access<Register> = Access::Read(Register::Sr2);
const READ_DR: Access<Register> = Access::Read(Register::Dr);

/// A status with nothing raised but SB, ADDR, BTF, RXNE and TXE.
const READY: u32 = 0x00c7;

fn write(register: Register, value: u32) -> Access<Register> {
    Access::Write(register, value)
}

/// Answers the requests of `operation` with `replies` and returns what it asked for.
fn drive<O: Operation>(operation: &mut O, replies: &[u32]) -> Vec<O::Request> {
    let mut requests = Vec::new();
    for reply in replies {
        match operation.poll() {
            Progress::Pending(request) => requests.push(request),
            Progress::Finished(_) => break,
        }
        operation.reply(*reply);
    }
    requests
}

type Pair = (Pin<Scl, I2C1, 4>, Pin<Sda, I2C1, 4>);

fn pair() -> Pair {
    (Pin::new(Port::B, 8, PinMode::Input), Pin::new(Port::B, 9, PinMode::Output))
}

/// The modes that the pins are in.
fn modes(pins: &Pair) -> (PinMode, PinMode) {
    (pins.0.mode, pins.1.mode)
}

const HOME: (PinMode, PinMode) = (PinMode::Input, PinMode::Output);
const ALTERNATE: PinMode = PinMode::AlternateOpenDrain(4);

fn on_bus(access: Access<Register>) -> WriteRequest {
    WriteRequest::Bus(access)
}

/// Carries `write_bytes` on with `bytes` for as long as there are `replies` of the peripheral, and
/// returns the accesses that were made.
fn write_all(
    write_bytes: &mut WriteBytes,
    bytes: &mut dyn Iterator<Item = u8>,
    replies: &[u32],
) -> Vec<Access<Register>> {
    let mut accesses = Vec::new();
    let mut replies = replies.iter();
    loop {
        match write_bytes.poll() {
            Progress::Pending(WriteRequest::NextByte) => {
                write_bytes.reply(WriteBytes::answer(bytes.next()))
            }
            Progress::Pending(WriteRequest::Bus(access)) => match replies.next() {
                Some(reply) => {
                    accesses.push(access);
                    write_bytes.reply(*reply);
                }
                None => return accesses,
            },
            Progress::Finished(_) => return accesses,
        }
    }
}

fn at(megahertz: u32) -> Clocks {
    Clocks { pclk1: Hertz(megahertz * 1_000_000) }
}

fn set_up() -> Setup<I2C1, Pair> {
    I2c::new(I2C1, pair(), Mode::standard(Hertz(100_000)), &at(42))
}

fn bus() -> I2c<I2C1, Pair> {
    let mut setup = set_up();
    drive(&mut setup, &[0; 11]);
    match setup.finish() {
        Ok(bus) => bus,
        Err(_) => panic!("the setup takes eleven requests"),
    }
}

#[test]
fn modes_hold_what_they_are_given() {
    assert_eq!(Mode::standard(Hertz(90_000)), Mode::Standard { frequency: Hertz(90_000) });
    assert_eq!(
        Mode::fast(Hertz(300_000), DutyCycle::Ratio16to9),
        Mode::Fast { frequency: Hertz(300_000), duty_cycle: DutyCycle::Ratio16to9 }
    );
    assert_eq!(Mode::standard(Hertz(7)).get_frequency(), Hertz(7));
    assert_eq!(Mode::fast(Hertz(8), DutyCycle::Ratio2to1).get_frequency(), Hertz(8));
}

#[test]
fn frequency_selects_mode() {
    assert_eq!(Mode::from(Hertz(0)), Mode::standard(Hertz(0)));
    assert_eq!(Mode::from(Hertz(100_000)), Mode::standard(Hertz(100_000)));
    assert_eq!(Mode::from(Hertz(100_001)), Mode::fast(Hertz(100_001), DutyCycle::Ratio2to1));
    assert_eq!(Mode::from(Hertz(400_000)).get_frequency(), Hertz(400_000));
}

#[test]
fn nack_is_told_apart() {
    assert_eq!(Error::NACK.nack_addr(), Error::NACK_ADDR);
    assert_eq!(Error::NACK.nack_data(), Error::NACK_DATA);
    for error in [
        Error::OVERRUN,
        Error::NACK_ADDR,
        Error::NACK_DATA,
        Error::TIMEOUT,
        Error::BUS,
        Error::CRC,
        Error::ARBITRATION,
    ] {
        assert_eq!(error.nack_addr(), error);
        assert_eq!(error.nack_data(), error);
    }
}

#[test]
fn timing_of_standard_mode() {
    let timing = Timing::new(&Mode::standard(Hertz(100_000)), Hertz(42_000_000));
    assert_eq!(timing, Timing { cr2: 42, trise: 43, ccr: 210 });
    let timing = Timing::new(&Mode::standard(Hertz(90_000)), Hertz(16_999_999));
    assert_eq!(timing, Timing { cr2: 16, trise: 17, ccr: 94 });
}

#[test]
fn timing_of_fast_mode() {
    let mode = Mode::fast(Hertz(400_000), DutyCycle::Ratio2to1);
    let timing = Timing::new(&mode, Hertz(42_000_000));
    assert_eq!(timing, Timing { cr2: 42, trise: 13, ccr: 0x8000 + 35 });
    let mode = Mode::fast(Hertz(400_000), DutyCycle::Ratio16to9);
    let timing = Timing::new(&mode, Hertz(50_000_000));
    assert_eq!(timing, Timing { cr2: 50, trise: 16, ccr: 0xc000 + 5 });
}

#[test]
fn divider_has_a_least_value() {
    let timing = Timing::new(&Mode::standard(Hertz(1_000_000)), Hertz(2_000_000));
    assert_eq!(timing, Timing { cr2: 2, trise: 3, ccr: 4 });
    let mode = Mode::fast(Hertz(1_000_000), DutyCycle::Ratio2to1);
    assert_eq!(Timing::new(&mode, Hertz(2_000_000)).ccr, 0x8001);
    let mode = Mode::fast(Hertz(1_000_000), DutyCycle::Ratio16to9);
    assert_eq!(Timing::new(&mode, Hertz(2_000_000)).ccr, 0xc001);
}

#[test]
fn divider_is_cut_to_its_field() {
    // 42 MHz / (2 * 1 kHz) is 21000, which is 520 above five times 4096.
    let timing = Timing::new(&Mode::standard(Hertz(1_000)), Hertz(42_000_000));
    assert_eq!(timing.ccr, 520);
    let mode = Mode::fast(Hertz(1_000), DutyCycle::Ratio2to1);
    assert_eq!(Timing::new(&mode, Hertz(42_000_000)).ccr, 0x8000 + 14_000 - 3 * 4096);
}

#[test]
fn unsupported_modes() {
    let standard = Mode::standard(Hertz(100_000));
    assert!(!standard.is_supported(Hertz(1_999_999)));
    assert!(standard.is_supported(Hertz(2_000_000)));
    assert!(standard.is_supported(Hertz(50_999_999)));
    assert!(!standard.is_supported(Hertz(51_000_000)));
    assert!(!Mode::standard(Hertz(0)).is_supported(Hertz(42_000_000)));
    assert!(Mode::standard(Hertz(0x7fff_ffff)).is_supported(Hertz(42_000_000)));
    assert!(!Mode::standard(Hertz(0x8000_0000)).is_supported(Hertz(42_000_000)));
    let fast = |hertz| Mode::fast(Hertz(hertz), DutyCycle::Ratio2to1);
    assert!(fast(u32::MAX / 3).is_supported(Hertz(42_000_000)));
    assert!(!fast(u32::MAX / 3 + 1).is_supported(Hertz(42_000_000)));
    let fast = |hertz| Mode::fast(Hertz(hertz), DutyCycle::Ratio16to9);
    assert!(fast(u32::MAX / 25).is_supported(Hertz(42_000_000)));
    assert!(!fast(u32::MAX / 25 + 1).is_supported(Hertz(42_000_000)));
}

#[test]
fn init_disables_configures_and_enables() {
    let mut init = bus().i2c_init(Mode::standard(Hertz(100_000)), Hertz(42_000_000));
    let requests = drive(&mut init, &[0x0401, 9, 9, 9, 9, 0x0400, 9]);
    assert_eq!(
        requests,
        vec![
            READ_CR1,
            write(Register::Cr1, 0x0400),
            write(Register::Cr2, 42),
            write(Register::Trise, 43),
            write(Register::Ccr, 210),
            READ_CR1,
            write(Register::Cr1, 0x0401),
        ]
    );
    assert_eq!(init.poll(), Progress::Finished(()));
    init.reply(3);
    assert_eq!(init.poll(), Progress::Finished(()));
}

#[test]
fn setup_enables_resets_and_configures() {
    let mut setup = set_up();
    assert_eq!(
        drive(&mut setup, &[0, 0, 0, 0]),
        vec![
            SetupRequest::EnableClock,
            SetupRequest::Reset,
            SetupRequest::SetAltMode(Line::Scl),
            SetupRequest::SetAltMode(Line::Sda),
        ]
    );
    assert_eq!(modes(setup.pins()), (ALTERNATE, ALTERNATE));
    let requests = drive(&mut setup, &[0xffff, 0, 0, 0, 0, 0x0100, 0, 0]);
    assert_eq!(
        requests,
        vec![
            SetupRequest::Bus(READ_CR1),
            SetupRequest::Bus(write(Register::Cr1, 0xfffe)),
            SetupRequest::Bus(write(Register::Cr2, 42)),
            SetupRequest::Bus(write(Register::Trise, 43)),
            SetupRequest::Bus(write(Register::Ccr, 210)),
            SetupRequest::Bus(READ_CR1),
            SetupRequest::Bus(write(Register::Cr1, 0x0101)),
        ]
    );
    assert_eq!(setup.poll(), Progress::Finished(()));
    assert!(setup.finish().is_ok());
}

#[test]
fn pins_are_switched_after_the_reset_clock_line_first() {
    let mut setup = set_up();
    assert_eq!(modes(setup.pins()), HOME);
    drive(&mut setup, &[0, 0]);
    assert_eq!(modes(setup.pins()), HOME);
    drive(&mut setup, &[0]);
    assert_eq!(modes(setup.pins()), (ALTERNATE, PinMode::Output));
    drive(&mut setup, &[0]);
    assert_eq!(modes(setup.pins()), (ALTERNATE, ALTERNATE));
}

#[test]
fn unfinished_setup_is_no_bus() {
    let mut setup = set_up();
    drive(&mut setup, &[0; 10]);
    match setup.finish() {
        Ok(_) => panic!("the last write is missing"),
        Err(mut setup) => {
            drive(&mut setup, &[0]);
            assert!(setup.finish().is_ok());
        }
    }
}

#[test]
fn release_gives_back_the_parts() {
    let mut release: Release<I2C1, Pair> = bus().release();
    assert_eq!(
        drive(&mut release, &[0; 10]),
        vec![ReleaseRequest::RestoreMode(Line::Scl), ReleaseRequest::RestoreMode(Line::Sda)]
    );
    assert_eq!(release.poll(), Progress::Finished(()));
    match release.finish() {
        Ok((I2C1, pins)) => {
            assert_eq!(modes(&pins), HOME);
            assert_eq!((pins.0.port, pins.0.number), (Port::B, 8));
            assert_eq!((pins.1.port, pins.1.number), (Port::B, 9));
        }
        Err(_) => panic!("the release takes two requests"),
    }
}

#[test]
fn pins_are_restored_clock_line_first() {
    let mut release = bus().release();
    assert_eq!(modes(release.pins()), (ALTERNATE, ALTERNATE));
    drive(&mut release, &[0]);
    assert_eq!(modes(release.pins()), (PinMode::Input, ALTERNATE));
    match release.finish() {
        Ok(_) => panic!("the data line is not restored"),
        Err(mut release) => {
            drive(&mut release, &[0]);
            assert_eq!(modes(release.pins()), HOME);
            assert!(release.finish().is_ok());
        }
    }
}

#[test]
fn pins_keep_their_own_functions_and_modes() {
    let scl: Pin<Scl, I2C2, 4> = Pin::new(Port::B, 10, PinMode::Analog);
    let sda: Pin<Sda, I2C2, 9> = Pin::new(Port::B, 3, PinMode::Output);
    let mut setup = I2c::new(I2C2, (scl, sda), Mode::from(Hertz(400_000)), &at(30));
    drive(&mut setup, &[0; 20]);
    assert_eq!(setup.pins().0.mode, PinMode::AlternateOpenDrain(4));
    assert_eq!(setup.pins().1.mode, PinMode::AlternateOpenDrain(9));
    let mut release = match setup.finish() {
        Ok(bus) => bus.release(),
        Err(_) => panic!("the setup takes eleven requests"),
    };
    drive(&mut release, &[0; 2]);
    assert_eq!(release.pins().0.mode, PinMode::Analog);
    assert_eq!(release.pins().1.mode, PinMode::Output);
}

#[test]
fn pins_switch_there_and_back() {
    let mut pins = pair();
    Pins::<I2C1>::set_line_alt_mode(&mut pins, Line::Sda);
    assert_eq!(modes(&pins), (PinMode::Input, ALTERNATE));
    Pins::<I2C1>::set_line_alt_mode(&mut pins, Line::Scl);
    assert_eq!(modes(&pins), (ALTERNATE, ALTERNATE));
    Pins::<I2C1>::restore_line_mode(&mut pins, Line::Sda);
    assert_eq!(modes(&pins), (ALTERNATE, PinMode::Output));
    Pins::<I2C1>::restore_line_mode(&mut pins, Line::Scl);
    assert_eq!(modes(&pins), HOME);
}

#[test]
fn both_pins_switch_at_once() {
    let mut pins = pair();
    Pins::<I2C1>::set_alt_mode(&mut pins);
    assert_eq!(modes(&pins), (ALTERNATE, ALTERNATE));
    Pins::<I2C1>::restore_mode(&mut pins);
    assert_eq!(modes(&pins), HOME);
}

#[test]
fn flags_have_their_bits() {
    assert_eq!(Flag::Timeout.mask(), 0x4000);
    assert_eq!(Flag::PecError.mask(), 0x1000);
    assert_eq!(Flag::Overrun.mask(), 0x0800);
    assert_eq!(Flag::AcknowledgeFailure.mask(), 0x0400);
    assert_eq!(Flag::ArbitrationLost.mask(), 0x0200);
    assert_eq!(Flag::BusError.mask(), 0x0100);
}

#[test]
fn quiet_check_takes_one_access() {
    let mut check = bus().check_and_clear_error_flags();
    assert_eq!(check, CheckFlags::Checking(Check::Read));
    // Every bit but those of the six flags.
    let status: u32 = !0x5f00;
    assert_eq!(drive(&mut check, &[status, 0]), vec![READ_SR1]);
    assert_eq!(check.poll(), Progress::Finished(Ok(status)));
}

#[test]
fn each_flag_is_cleared_and_reported() {
    for (bit, error) in [
        (0x4000, Error::TIMEOUT),
        (0x1000, Error::CRC),
        (0x0800, Error::OVERRUN),
        (0x0400, Error::NACK),
        (0x0200, Error::ARBITRATION),
    ] {
        let mut check = bus().check_and_clear_error_flags();
        let requests = drive(&mut check, &[bit | 0x81, 0xffff, 0]);
        assert_eq!(requests, vec![READ_SR1, READ_SR1, write(Register::Sr1, 0xffff & !bit)]);
        assert_eq!(check.poll(), Progress::Finished(Err(error)));
    }
}

#[test]
fn flags_are_reported_in_order() {
    let ranked = [
        (0x4000, Error::TIMEOUT),
        (0x1000, Error::CRC),
        (0x0800, Error::OVERRUN),
        (0x0400, Error::NACK),
        (0x0200, Error::ARBITRATION),
    ];
    let mut status: u32 = 0x5f00;
    for (bit, error) in ranked {
        let mut check = bus().check_and_clear_error_flags();
        let requests = drive(&mut check, &[status, status, 0]);
        assert_eq!(requests[2], write(Register::Sr1, status & !bit));
        assert_eq!(check.poll(), Progress::Finished(Err(error)));
        status &= !bit;
    }
    assert_eq!(status, 0x0100);
}

#[test]
fn bus_error_is_cleared_and_ignored() {
    let mut check = bus().check_and_clear_error_flags();
    let requests = drive(&mut check, &[0x0180, 0x01c0, 0]);
    assert_eq!(requests, vec![READ_SR1, READ_SR1, write(Register::Sr1, 0x00c0)]);
    assert_eq!(check.poll(), Progress::Finished(Ok(0x0180)));
}

#[test]
fn send_byte_waits_for_both_flags() {
    let mut send = bus().send_byte(0xa5);
    let requests = drive(&mut send, &[0x04, 0x80, 0, 0x80, 0x04]);
    assert_eq!(
        requests,
        vec![READ_SR1, READ_SR1, write(Register::Dr, 0xa5), READ_SR1, READ_SR1]
    );
    assert_eq!(send.poll(), Progress::Finished(Ok(())));
}

#[test]
fn send_byte_takes_three_accesses_when_ready() {
    let mut send = SendByte::new(0x01);
    drive(&mut send, &[READY, 0, READY]);
    assert_eq!(send.poll(), Progress::Finished(Ok(())));
}

#[test]
fn send_byte_tells_nacks_apart() {
    let mut send = bus().send_byte(0xa5);
    drive(&mut send, &[0x0480, 0x0480, 0]);
    assert_eq!(send.poll(), Progress::Finished(Err(Error::NACK_ADDR)));

    let mut send = bus().send_byte(0xa5);
    drive(&mut send, &[0x80, 0, 0x0404, 0x0404, 0]);
    assert_eq!(send.poll(), Progress::Finished(Err(Error::NACK_DATA)));

    let mut send = bus().send_byte(0xa5);
    drive(&mut send, &[0x80, 0, 0x0200, 0x0200, 0]);
    assert_eq!(send.poll(), Progress::Finished(Err(Error::ARBITRATION)));
}

#[test]
fn send_byte_goes_on_after_a_bus_error() {
    let mut send = bus().send_byte(0x7e);
    let requests = drive(&mut send, &[0x0180, 0x0180, 0, 0, READY]);
    assert_eq!(
        requests,
        vec![
            READ_SR1,
            READ_SR1,
            write(Register::Sr1, 0x80),
            write(Register::Dr, 0x7e),
            READ_SR1,
        ]
    );
    assert_eq!(send.poll(), Progress::Finished(Ok(())));
}

#[test]
fn recv_byte_reads_status_twice() {
    let mut recv = bus().recv_byte();
    let requests = drive(&mut recv, &[0x40, 0, 0, 0x40, 0x1234_56c3]);
    assert_eq!(requests, vec![READ_SR1, READ_SR1, READ_SR1, READ_SR1, READ_DR]);
    assert_eq!(recv.poll(), Progress::Finished(Ok(0xc3)));
}

#[test]
fn recv_byte_reports_errors_without_reading_data() {
    let mut recv = RecvByte::new();
    let requests = drive(&mut recv, &[0x0440, 0x0440, 0, 0, 0]);
    assert_eq!(requests, vec![READ_SR1, READ_SR1, write(Register::Sr1, 0x40)]);
    assert_eq!(recv.poll(), Progress::Finished(Err(Error::NACK_DATA)));

    let mut recv = RecvByte::new();
    drive(&mut recv, &[0, 0, 0x0800, 0x0800, 0]);
    assert_eq!(recv.poll(), Progress::Finished(Err(Error::OVERRUN)));
}

#[test]
fn transfers_end_with_the_first_error_that_is_found() {
    // The errors come with everything else that the transfers wait for.
    let mut send = bus().send_byte(0xa5);
    let requests = drive(&mut send, &[READY, 0, 0x1000 | READY, 0xffff, 0, READY]);
    assert_eq!(requests.len(), 5);
    assert_eq!(requests[4], write(Register::Sr1, 0xefff));
    assert_eq!(send.poll(), Progress::Finished(Err(Error::CRC)));

    let mut recv = bus().recv_byte();
    let requests = drive(&mut recv, &[0, 0, 0x0200 | READY, 0xffff, 0, READY, READY]);
    assert_eq!(requests.len(), 5);
    assert_eq!(requests[4], write(Register::Sr1, 0xfdff));
    assert_eq!(recv.poll(), Progress::Finished(Err(Error::ARBITRATION)));
}

#[test]
fn recv_byte_does_not_check_the_second_read() {
    let mut recv = bus().recv_byte();
    let requests = drive(&mut recv, &[0, 0x0440, 0x55]);
    assert_eq!(requests, vec![READ_SR1, READ_SR1, READ_DR]);
    assert_eq!(recv.poll(), Progress::Finished(Ok(0x55)));
}

#[test]
fn write_bytes_delivers_the_message() {
    let mut write_bytes = bus().write_bytes(0x50);
    let requests = write_all(
        &mut write_bytes,
        &mut [0x12, 0xfe].into_iter(),
        &[
            0x0401, 0, // start
            0x00, 0x01, // start condition
            0x01, 0x00, 0x01, 0x01, // not master yet, then master
            0, 0x00, 0x02, 0x03, // address
            0x00, 0x80, 0, 0x80, 0x84, // first byte
            0x80, 0, 0x04, // second byte
        ],
    );
    assert_eq!(
        requests,
        vec![
            READ_CR1,
            write(Register::Cr1, 0x0501),
            READ_SR1,
            READ_SR1,
            READ_SR1,
            READ_SR2,
            READ_SR1,
            READ_SR2,
            write(Register::Dr, 0xa0),
            READ_SR1,
            READ_SR1,
            READ_SR2,
            READ_SR1,
            READ_SR1,
            write(Register::Dr, 0x12),
            READ_SR1,
            READ_SR1,
            READ_SR1,
            write(Register::Dr, 0xfe),
            READ_SR1,
        ]
    );
    assert_eq!(write_bytes.poll(), Progress::Finished(Ok(())));
}

#[test]
fn bytes_are_asked_for_one_at_a_time() {
    let mut write_bytes = bus().write_bytes(0x50);
    // Nothing is asked for before the address phase is over.
    let requests = drive(&mut write_bytes, &[0, 0, 0x01, 0, 0x01, 0, 0x02, 0]);
    assert!(!requests.contains(&WriteRequest::NextByte));
    assert_eq!(requests[7], on_bus(READ_SR2));
    assert_eq!(write_bytes.poll(), Progress::Pending(WriteRequest::NextByte));
    // Nor before the byte that was given is transferred.
    let requests = drive(&mut write_bytes, &[0x33, 0x80, 0, 0x80, 0x80]);
    assert_eq!(
        requests,
        vec![
            WriteRequest::NextByte,
            on_bus(READ_SR1),
            on_bus(write(Register::Dr, 0x33)),
            on_bus(READ_SR1),
            on_bus(READ_SR1),
        ]
    );
    assert_eq!(write_bytes.poll(), Progress::Pending(on_bus(READ_SR1)));
    write_bytes.reply(0x04);
    assert_eq!(write_bytes.poll(), Progress::Pending(WriteRequest::NextByte));
    write_bytes.reply(NO_BYTE);
    assert_eq!(write_bytes.poll(), Progress::Finished(Ok(())));
}

#[test]
fn no_byte_is_taken_without_an_acknowledge() {
    let mut bytes = 1..=9u8;
    let mut write_bytes = bus().write_bytes(0x50);
    write_all(&mut write_bytes, &mut bytes, &[0, 0, 1, 0, 1, 0, 0x0400, 0x0400, 0]);
    assert_eq!(write_bytes.poll(), Progress::Finished(Err(Error::NACK_ADDR)));
    assert_eq!(bytes.next(), Some(1));
}

#[test]
fn no_byte_is_taken_after_an_error() {
    let mut bytes = 1..=9u8;
    let mut write_bytes = bus().write_bytes(0x50);
    write_all(
        &mut write_bytes,
        &mut bytes,
        &[0, 0, 1, 0, 1, 0, 2, 0, 0x80, 0, 4, 0x80, 0, 0x0404, 0x0404, 0],
    );
    assert_eq!(write_bytes.poll(), Progress::Finished(Err(Error::NACK_DATA)));
    assert_eq!(bytes.next(), Some(3));
}

#[test]
fn answers_say_whether_there_is_a_byte() {
    assert_eq!(WriteBytes::answer(Some(0)), 0);
    assert_eq!(WriteBytes::answer(Some(0xff)), 0xff);
    assert_eq!(WriteBytes::answer(None), 0x100);
}

#[test]
fn write_bytes_takes_nine_answers_and_four_for_each_byte() {
    for count in 0..4usize {
        let mut write_bytes = WriteBytes::new(0x7f);
        let mut replies = vec![READY; 8];
        for index in 0..count {
            replies.extend([index as u32, READY, READY, READY]);
        }
        replies.push(NO_BYTE);
        let requests = drive(&mut write_bytes, &replies);
        assert_eq!(requests.len(), 9 + 4 * count);
        assert_eq!(requests[5], on_bus(write(Register::Dr, 0xfe)));
        for index in 0..count {
            assert_eq!(requests[10 + 4 * index], on_bus(write(Register::Dr, index as u32)));
        }
        assert_eq!(write_bytes.poll(), Progress::Finished(Ok(())));
    }
}

#[test]
fn transfers_go_on_when_nothing_but_the_awaited_bit_is_shown() {
    let mut send = bus().send_byte(0xa5);
    assert_eq!(drive(&mut send, &[0x80, 0, 0x04, 0]).len(), 3);
    assert_eq!(send.poll(), Progress::Finished(Ok(())));

    let mut recv = bus().recv_byte();
    assert_eq!(drive(&mut recv, &[0, 0x40, 0x77, 0]).len(), 3);
    assert_eq!(recv.poll(), Progress::Finished(Ok(0x77)));

    let mut write_bytes = bus().write_bytes(0x10);
    let replies = [0, 0, 0x01, 0, 0x01, 0, 0x02, 0, 0x66, 0x80, 0, 0x04, NO_BYTE, 0];
    let requests = drive(&mut write_bytes, &replies);
    assert_eq!(requests.len(), 13);
    assert_eq!(requests[10], on_bus(write(Register::Dr, 0x66)));
    assert_eq!(write_bytes.poll(), Progress::Finished(Ok(())));
}

#[test]
fn each_byte_waits_for_a_check_of_its_own() {
    // The check that ends the first byte shows the data register empty as well.
    let mut write_bytes = bus().write_bytes(0x10);
    drive(&mut write_bytes, &[0, 0, 0x01, 0, 0x01, 0, 0x02, 0, 0x66, 0x80, 0, 0x84]);
    let requests = drive(&mut write_bytes, &[0x67, 0x00, 0x80, 0]);
    assert_eq!(
        requests,
        vec![
            WriteRequest::NextByte,
            on_bus(READ_SR1),
            on_bus(READ_SR1),
            on_bus(write(Register::Dr, 0x67)),
        ]
    );
}

#[test]
fn write_of_nothing_sends_the_address_alone() {
    let mut write_bytes = bus().write_bytes(0xff);
    let requests = write_all(&mut write_bytes, &mut std::iter::empty(), &[READY; 100]);
    assert_eq!(requests.len(), 8);
    assert_eq!(requests[5], write(Register::Dr, 0x01fe));
    assert_eq!(requests[7], READ_SR2);
    assert_eq!(write_bytes.poll(), Progress::Finished(Ok(())));
}

#[test]
fn busy_bus_is_enough_to_go_on() {
    let mut write_bytes = bus().write_bytes(0x10);
    let requests = drive(&mut write_bytes, &[0, 0, 0x01, 0, 0x02, 0]);
    assert_eq!(requests[5], on_bus(write(Register::Dr, 0x20)));
}

#[test]
fn write_bytes_tells_nacks_apart() {
    let started = [0, 0, 0x01, 0, 0x01, 0, 0x02, 0];
    let nack = [0x0400, 0x0400, 0];
    // While the start condition, the bus and the address are waited for.
    for (accesses, error) in [(2, Error::NACK), (3, Error::NACK), (6, Error::NACK_ADDR)] {
        let mut write_bytes = bus().write_bytes(0x10);
        drive(&mut write_bytes, &started[..accesses]);
        drive(&mut write_bytes, &nack);
        assert_eq!(write_bytes.poll(), Progress::Finished(Err(error)));
    }
    // While the first byte waits for the data register, while it is transferred, while the second
    // byte waits for the data register as the first one did, and while that is transferred.
    for (replies, error) in [
        (vec![], Error::NACK_ADDR),
        (vec![0x80, 0], Error::NACK_DATA),
        (vec![0x80, 0, 0x80], Error::NACK_DATA),
        (vec![0x80, 0, 0x04], Error::NACK_ADDR),
        (vec![0x80, 0, 0x04, 0x04], Error::NACK_ADDR),
        (vec![0x80, 0, 0x04, 0x84, 0], Error::NACK_DATA),
    ] {
        let mut write_bytes = bus().write_bytes(0x10);
        let all: Vec<u32> = started.iter().chain(&replies).chain(&nack).copied().collect();
        let requests = write_all(&mut write_bytes, &mut [1, 2].into_iter(), &all);
        assert_eq!(requests.len(), all.len());
        assert_eq!(write_bytes.poll(), Progress::Finished(Err(error)));
    }
}

#[test]
fn write_bytes_stops_at_any_error() {
    let mut write_bytes = bus().write_bytes(0x10);
    let requests = drive(&mut write_bytes, &[0, 0, 0x4001, 0x4001, 0, 0, 0, 0]);
    assert_eq!(requests.len(), 5);
    assert_eq!(write_bytes.poll(), Progress::Finished(Err(Error::TIMEOUT)));
    write_bytes.reply(READY);
    assert_eq!(write_bytes.poll(), Progress::Finished(Err(Error::TIMEOUT)));
}

#[test]
fn init_can_be_prepared_by_hand() {
    let mut init = Init::new(Timing { cr2: 1, trise: 2, ccr: 3 });
    let requests = drive(&mut init, &[0; 7]);
    assert_eq!(requests[2], write(Register::Cr2, 1));
    assert_eq!(requests[3], write(Register::Trise, 2));
    assert_eq!(requests[4], write(Register::Ccr, 3));
}
