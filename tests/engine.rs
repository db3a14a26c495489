use stepper_rs::codec::{crc8, encode_read, encode_write, reply_payload};
use stepper_rs::current::{current_scale, pack_ihold_irun, CurrentScale};
use stepper_rs::error::{DriverError, NoStepsRemaining};
use stepper_rs::protocol::{write_check, BusRequest, Edit, Phase, RegisterWrite};
use stepper_rs::registers::{
    decode_microsteps, ChopConfOption, GConfOption, MicrostepRes, RegisterWord, CHOPCONF, GCONF,
    IFCNT, IHOLD_IRUN, MSRES_MASK, SHAFT, VSENSE,
};
use stepper_rs::status::{decode_chopconf, decode_drvstatus, decode_gconf, decode_ioin};
use stepper_rs::stepper::{Direction, Stepper};
use stepper_rs::tmc2209::{Motor, PinLevel, Tmc2209};
use stepper_rs::transport::{Exchange, ExchangeStep, MAX_ATTEMPTS};
use stepper_rs::uart::UART;

fn driver() -> Tmc2209 {
    Tmc2209::new::<u8>((13, 19, 26))
        .set_chip(Some(0))
        .build()
        .unwrap()
        .0
}

/// Runs a transaction against a device whose registers read as `source`
/// and whose write counter reads `before`, then `after`. Returns the frames
/// sent, in order, and the outcome.
fn run(mut tx: RegisterWrite, source: u32, before: u32, after: u32) -> (Vec<Vec<u8>>, Result<(), DriverError>) {
    let mut frames = Vec::new();
    let mut counts = vec![before, after].into_iter();
    loop {
        match tx.request() {
            BusRequest::Query(frame) => {
                let payload = if frame[2] == IFCNT {
                    counts.next().unwrap()
                } else {
                    source
                };
                frames.push(frame);
                tx.on_reply(payload);
            }
            BusRequest::Send(frame) => {
                frames.push(frame);
                tx.on_sent();
            }
            BusRequest::Finished(r) => return (frames, r),
        }
    }
}

#[test]
fn crc_of_read_frames() {
    assert_eq!(crc8(&vec![0x55, 0x00, 0x00, 0x00]), 207);
    assert_eq!(crc8(&vec![0x55, 0x0F, 0x00, 0x00, 0x0D, 0x00, 0x00, 0x00]), 173);
    assert_eq!(crc8(&vec![0x42]), 0);
}

#[test]
fn read_frame_layout() {
    assert_eq!(encode_read(0x04), vec![0x55, 0x00, 0x04, 47]);
    assert_eq!(encode_read(IFCNT), vec![0x55, 0x00, 0x02, 8]);
    assert_eq!(encode_read(CHOPCONF), vec![0x55, 0x00, 0x6C, 77]);
}

#[test]
fn write_frame_layout() {
    assert_eq!(encode_write(GCONF, 5), vec![0x55, 0x00, 0x80, 0, 0, 0, 5, 115]);
    assert_eq!(
        encode_write(CHOPCONF, 0x1434_5678),
        vec![0x55, 0x00, 0xEC, 0x14, 0x34, 0x56, 0x78, 237]
    );
}

#[test]
fn reply_payload_is_last_four_bytes_big_endian() {
    let reply = vec![0x55, 0, 0x6C, 77, 0x05, 0xFF, 0x6C, 0x11, 0x12, 0x34, 0x56, 0x78];
    assert_eq!(reply_payload(&reply), 0x1234_5678);
}

#[test]
fn mask_laws_on_values() {
    let x: u32 = 0xCD02_F9E2;
    let m: u32 = 0x0000_F00F;
    assert_eq!(x.set_bits(m).set_bits(m), x.set_bits(m));
    assert_eq!(x.clear_bits(m).clear_bits(m), x.clear_bits(m));
    assert_eq!(x.set_bits(m).clear_bits(m), x.clear_bits(m));
    assert_eq!(x.set_bits(m), 0xCD02_F9EF);
    assert_eq!(x.clear_bits(m), 0xCD02_09E0);
    let y: u8 = 0x5A;
    assert_eq!(y.set_bits(0x0F).clear_bits(0x0F), y.clear_bits(0x0F));
}

#[test]
fn microstep_decoding() {
    assert_eq!(decode_microsteps(5), 8);
    assert_eq!(decode_microsteps(0), 256);
    assert_eq!(decode_microsteps(8), 1);
    assert_eq!(MicrostepRes::Sixteen.nibble(), 4);
    assert_eq!(MicrostepRes::OneTwoFive.microsteps(), 128);
    assert_eq!(MicrostepRes::OneTwoFive.nibble(), 1);
}

#[test]
fn microstep_encoding_keeps_other_bits() {
    let writes = driver().set_microstepping_resolution(MicrostepRes::Sixteen);
    assert_eq!(writes.len(), 2);
    let baseline: u32 = 0x1234_5678;
    let (frames, outcome) = run(writes[0], baseline, 3, 4);
    assert_eq!(outcome, Ok(()));
    let written = frames[2].clone();
    let value = u32::from_be_bytes([written[3], written[4], written[5], written[6]]);
    assert_eq!(value, 0x1434_5678);
    assert_eq!((value & MSRES_MASK) >> 24, 4);
    assert_eq!(value & !MSRES_MASK, baseline & !MSRES_MASK);
    assert_eq!(writes[1].target, GCONF);
    assert_eq!(writes[1].edit, Edit::SetBits(0x80));
}

#[test]
fn write_counter_check() {
    assert_eq!(write_check(7, 7), Err(DriverError::WriteVerificationFailure));
    assert_eq!(write_check(7, 8), Ok(()));
    assert_eq!(write_check(255, 0), Ok(()));
    assert_eq!(write_check(255, 255), Err(DriverError::WriteVerificationFailure));
    assert_eq!(write_check(7, 9), Err(DriverError::WriteVerificationFailure));
}

#[test]
fn gconf_option_transaction() {
    let tx = driver().enable_gconf_option(GConfOption::SpreadCycle);
    let (frames, outcome) = run(tx, 0x1, 7, 8);
    assert_eq!(outcome, Ok(()));
    assert_eq!(
        frames,
        vec![
            vec![0x55, 0x00, 0x00, 207],
            vec![0x55, 0x00, 0x02, 8],
            vec![0x55, 0x00, 0x80, 0, 0, 0, 5, 115],
            vec![0x55, 0x00, 0x02, 8],
        ]
    );
}

#[test]
fn lost_write_is_reported() {
    let tx = driver().disable_chopconf_option(ChopConfOption::Intpol);
    let (frames, outcome) = run(tx, 0x1000_0001, 42, 42);
    assert_eq!(outcome, Err(DriverError::WriteVerificationFailure));
    assert_eq!(frames.len(), 4);
    assert_eq!(frames[2], encode_write(CHOPCONF, 0x0000_0001));
}

#[test]
fn write_accepted_across_counter_wrap() {
    let tx = driver().clear_gstat();
    let (frames, outcome) = run(tx, 0, 255, 0);
    assert_eq!(outcome, Ok(()));
    assert_eq!(frames[2], encode_write(0x01, 0x3));
}

#[test]
fn transaction_phases() {
    let mut tx = RegisterWrite::new(GCONF, Edit::Assign(9));
    assert_eq!(tx.phase, Phase::CountBefore);
    tx.on_sent();
    assert_eq!(tx.phase, Phase::CountBefore);
    tx.on_reply(1);
    assert_eq!(tx.phase, Phase::Write);
    tx.on_reply(5);
    assert_eq!(tx.phase, Phase::Write);
    tx.on_sent();
    assert_eq!(tx.phase, Phase::CountAfter);
}

#[test]
fn current_at_300_milliamps() {
    assert_eq!(current_scale(300, false), CurrentScale { irun: 10, ihold: 5 });
    assert_eq!(current_scale(300, true), CurrentScale { irun: 19, ihold: 10 });
    assert_eq!(current_scale(800, false), CurrentScale { irun: 29, ihold: 15 });
}

#[test]
fn current_is_clamped() {
    assert_eq!(current_scale(0, false), CurrentScale { irun: 0, ihold: 0 });
    assert_eq!(current_scale(26, false), CurrentScale { irun: 0, ihold: 0 });
    assert_eq!(current_scale(2000, false), CurrentScale { irun: 31, ihold: 16 });
    assert_eq!(current_scale(u16::MAX, true), CurrentScale { irun: 31, ihold: 16 });
}

#[test]
fn set_current_transaction() {
    let tx = driver().set_current(300);
    let (frames, outcome) = run(tx, 0, 1, 2);
    assert_eq!(outcome, Ok(()));
    assert_eq!(frames[0], encode_read(CHOPCONF));
    assert_eq!(frames[2], vec![0x55, 0x00, 0x90, 0x00, 0x0A, 0x0A, 0x05, 66]);
    let tx = driver().set_current(300);
    let (frames, _) = run(tx, VSENSE, 1, 2);
    assert_eq!(frames[2], encode_write(IHOLD_IRUN, pack_ihold_irun(10, 19, 10)));
}

#[test]
fn irun_ihold_word() {
    assert_eq!(pack_ihold_irun(5, 10, 10), 0x000A_0A05);
    let tx = driver().set_irun_ihold(1, 2, 3);
    assert_eq!(tx.edit, Edit::Assign(0x0003_0201));
}

#[test]
fn exchange_retries_then_fails() {
    let mut e = Exchange::new(4, true);
    for _ in 1..MAX_ATTEMPTS {
        assert_eq!(e.on_io_error(), ExchangeStep::Retry);
    }
    assert_eq!(e.attempt, MAX_ATTEMPTS);
    assert_eq!(e.on_io_error(), ExchangeStep::Failed(DriverError::TransportIoError));
}

#[test]
fn exchange_outcomes() {
    let read = Exchange::new(4, true);
    assert_eq!(read.on_written(3), ExchangeStep::Failed(DriverError::FrameLengthMismatch));
    assert_eq!(read.on_written(4), ExchangeStep::AwaitReply);
    let write = Exchange::new(8, false);
    assert_eq!(write.on_written(8), ExchangeStep::Delivered);
    let reply = vec![0x55, 0, 0x02, 8, 0x05, 0xFF, 0x02, 0, 0, 0, 0x2A, 0x99];
    assert_eq!(read.on_reply(&reply, 12), ExchangeStep::Payload(0x0000_2A99));
    assert_eq!(read.on_reply(&reply, 11), ExchangeStep::Failed(DriverError::FrameLengthMismatch));
    assert_eq!(
        read.on_reply(&vec![0; 8], 8),
        ExchangeStep::Failed(DriverError::FrameLengthMismatch)
    );
}

#[test]
fn fifty_steps_out_and_back() {
    let mut tmc = driver();
    tmc.set_steps_to_move(50);
    let mut direction_writes = 0;
    for _ in 0..50 {
        let pulse = tmc.step().unwrap();
        assert_eq!(pulse.pin, 13);
        if pulse.direction_change.is_some() {
            direction_writes += 1;
        }
    }
    assert_eq!(direction_writes, 0);
    assert_eq!(tmc.current_position(), 50);
    assert_eq!(tmc.step(), Err(NoStepsRemaining));

    tmc.set_steps_to_move(-50);
    let mut changes = Vec::new();
    for _ in 0..50 {
        if let Some(change) = tmc.step().unwrap().direction_change {
            changes.push(change);
        }
    }
    assert_eq!(changes.len(), 1);
    assert_eq!(changes[0].target, GCONF);
    assert_eq!(changes[0].edit, Edit::SetBits(SHAFT));
    assert_eq!(tmc.current_position(), 0);
    assert_eq!(tmc.current_direction(), Direction::CCW);
    assert_eq!(tmc.step(), Err(NoStepsRemaining));
}

#[test]
fn direction_switch_back_clears_shaft() {
    let mut tmc = driver();
    assert_eq!(tmc.set_direction(Direction::CW), None);
    assert!(tmc.set_direction(Direction::CCW).is_some());
    let back = tmc.set_direction(Direction::CW).unwrap();
    assert_eq!(back.edit, Edit::ClearBits(SHAFT));
    let (frames, outcome) = run(back, 0x0000_000C, 1, 2);
    assert_eq!(outcome, Ok(()));
    assert_eq!(frames[2], encode_write(GCONF, 0x4));
}

#[test]
fn absolute_move_uses_delta() {
    let mut tmc = driver();
    let out = tmc.move_steps(30);
    assert_eq!(out.len(), 30);
    assert_eq!(tmc.current_position(), 30);
    assert_eq!(tmc.steps_to_move(), 0);
    let back = tmc.move_to_position(10);
    assert_eq!(back.len(), 20);
    assert_eq!(tmc.current_position(), 10);
    assert_eq!(tmc.steps_to_move(), 0);
    assert_eq!(tmc.step(), Err(NoStepsRemaining));
}

#[test]
fn move_pulses_switch_direction_once() {
    let mut tmc = driver();
    let out = tmc.move_steps(5);
    assert!(out.iter().all(|p| p.pin == 13 && p.direction_change.is_none()));
    let back = tmc.move_steps(-7);
    assert_eq!(back.len(), 7);
    assert_eq!(back[0].direction_change.map(|w| w.edit), Some(Edit::SetBits(SHAFT)));
    assert!(back[1..].iter().all(|p| p.direction_change.is_none()));
    assert_eq!(tmc.current_position(), -2);
    assert_eq!(tmc.current_direction(), Direction::CCW);
    assert!(tmc.move_steps(0).is_empty());
    assert_eq!(tmc.current_position(), -2);
}

#[test]
fn builder_requires_chip() {
    let missing = Tmc2209::new::<u8>((1, 2, 3)).build();
    assert_eq!(missing.err(), Some(DriverError::GpioConfigurationError));
    let (tmc, chip) = Tmc2209::new::<u8>((1, 2, 3)).set_chip(Some(7)).build().unwrap();
    assert_eq!(chip, 7);
    assert_eq!(tmc.pins(), (1, 2, 3));
    assert_eq!(tmc.current_position(), 0);
    assert_eq!(tmc.current_direction(), Direction::CW);
    assert_eq!(tmc.msres(), 256);
}

#[test]
fn motor_enable_line_is_active_low() {
    let tmc = driver();
    assert_eq!(tmc.set_motor_enabled(Motor::Enabled), PinLevel { pin: 26, level: 0 });
    assert_eq!(tmc.set_motor_enabled(Motor::Disabled), PinLevel { pin: 26, level: 1 });
}

#[test]
fn status_decoding() {
    assert_eq!(decode_gconf(0x02), Err(DriverError::UnsafeConfigurationDetected));
    let g = decode_gconf(0x85).unwrap();
    assert!(g.i_scale_analog && g.spread_cycle && g.mstep_reg_select);
    assert!(!g.shaft && !g.index_otpw && !g.index_step);
    let d = decode_drvstatus(0x8000_0082);
    assert!(d.standstill && d.open_load_b && d.overtemperature);
    assert!(!d.stealth_chop && !d.open_load_a && !d.short_ground_a);
    let i = decode_ioin(0x281);
    assert!(i.dir && i.step && i.enn && !i.spread);
    let c = decode_chopconf(0x1502_0000);
    assert!(c.interpolation && c.vsense);
    assert_eq!(c.microstep_nibble, 5);
}

#[test]
fn vsense_bit_and_options() {
    let tmc = driver();
    assert_eq!(tmc.get_vsense(0xFFFF_FFFF), VSENSE);
    assert_eq!(tmc.get_vsense(0), 0);
    assert_eq!(GConfOption::Direction.mask(), SHAFT);
    assert_eq!(ChopConfOption::Vsense.mask(), VSENSE);
}

#[test]
fn uart_sends_four_zero_bytes() {
    assert_eq!(UART::new().send(), vec![0, 0, 0, 0]);
}
