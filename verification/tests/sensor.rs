use bme280_driver::bus::{BusOp, Outcome, Transfer};
use bme280_driver::regs::{ConfigReg, CtrlHumReg, CtrlMeasReg, MeasurementData};
use bme280_driver::spi_sensor::{
    calibration1_from, calibration2_from, device_id_from, measurement_from, status_from,
    ReadOnce, ReadOnceAction,
};
use bme280_driver::{
    Bme280Builder, Bme280Spi, Config, Error, FilterMode, Mode, OsrsH, OsrsP, OsrsT, SpiError,
    Sleep, StatusReg, TsbMode,
};
use embassy_time::Duration;

const CAL1: [u8; 26] = [
    0xAC, 0x6B, 0x03, 0x67, 0x32, 0x00, 0x88, 0x8E, 0x56, 0xD6, 0xD0, 0x0B, 0x7A, 0x1E, 0x6D, 0x00,
    0xF9, 0xFF, 0x8D, 0x3C, 0xF9, 0xC6, 0x60, 0x0B, 0x00, 0x00,
];

const CAL2: [u8; 16] = [
    0x63, 0x01, 0x00, 0x14, 0x00, 0x00, 0x00, 0x00, 0x00, 0x00, 0x00, 0x00, 0x00, 0x00, 0x00, 0x00,
];

const BURST: [u8; 8] = [0x51, 0x93, 0x00, 0x83, 0x9C, 0x00, 0x68, 0x6C];

/// Plays the part of a bus on which every step succeeds, answering reads
/// from `answers` in turn.
fn run_ok(mut t: Transfer, answers: &[&[u8]]) -> (Transfer, Vec<BusOp>) {
    let mut seen = Vec::new();
    let mut next_answer = 0;
    while let Some(op) = t.next_op() {
        seen.push(op);
        match op {
            BusOp::Read { len, .. } => {
                let data = answers[next_answer].to_vec();
                assert_eq!(data.len(), len);
                next_answer += 1;
                t.complete(Outcome::Data(data));
            }
            _ => t.complete(Outcome::Done),
        }
    }
    (t, seen)
}

fn sleeping() -> Bme280Spi<(), Sleep> {
    Bme280Builder::new()
        .oversampling_temp(OsrsT::X1)
        .oversampling_pressure(OsrsP::X1)
        .oversampling_humidity(OsrsH::X1)
        .filter(FilterMode::Off)
        .standby(TsbMode::SB125)
        .build_spi(())
}

#[test]
fn register_addresses_carry_the_direction_bit() {
    assert_eq!(
        Bme280Spi::<(), Sleep>::read_reg_op(0x88, 26),
        BusOp::Read { addr: 0x88, len: 26 }
    );
    assert_eq!(Bme280Spi::<(), Sleep>::read_reg_op(0x70, 1), BusOp::Read { addr: 0xF0, len: 1 });
    assert_eq!(
        Bme280Spi::<(), Sleep>::write_reg_op(0xF4, 0x27),
        BusOp::Write { addr: 0x74, val: 0x27 }
    );
    assert_eq!(
        Bme280Spi::<(), Sleep>::write_reg_op(0x12, 0xAA),
        BusOp::Write { addr: 0x12, val: 0xAA }
    );
}

#[test]
fn new_sensor_has_defaults() {
    let s = Bme280Spi::new(());
    assert_eq!(s.config, Config::default());
    assert_eq!(s.timeout, Duration::from_millis(150));
    assert!(s.needs_calibration());
    assert_eq!(s.cal_refs().err(), Some(Error::CalibDataNotAvailable));
}

#[test]
fn reset_waits_for_the_trimming_reload() {
    let s = sleeping();
    let (t, seen) = run_ok(s.reset_transfer(), &[]);
    assert_eq!(seen, vec![BusOp::Write { addr: 0x60, val: 0xB6 }, BusOp::Delay { ms: 10 }]);
    assert_eq!(t.result(), Ok(()));
}

#[test]
fn init_resets_reads_trimming_and_applies_config() {
    let mut s = sleeping();
    let (t, seen) = run_ok(s.init_transfer(), &[&CAL1, &CAL2]);
    assert_eq!(
        seen,
        vec![
            BusOp::Write { addr: 0x60, val: 0xB6 },
            BusOp::Delay { ms: 10 },
            BusOp::Read { addr: 0x88, len: 26 },
            BusOp::Read { addr: 0xE1, len: 16 },
            BusOp::Write { addr: 0x72, val: 0x01 },
            BusOp::Write { addr: 0x75, val: 0x40 },
            BusOp::Write { addr: 0x74, val: 0x24 },
        ]
    );
    assert_eq!(s.finish_init(&t), Ok(()));
    assert!(!s.needs_calibration());
    let (c1, c2) = s.cal_refs().unwrap();
    assert_eq!(c1.0, CAL1);
    assert_eq!(c2.0, CAL2);
    assert_eq!(c1.dig_t2(), 26371);
    assert_eq!(c2.dig_h2(), 355);
}

#[test]
fn init_keeps_the_blocks_read_before_a_failure() {
    let mut s = sleeping();
    let mut t = s.init_transfer();
    t.complete(Outcome::Done);
    t.complete(Outcome::Done);
    t.complete(Outcome::Data(CAL1.to_vec()));
    t.complete(Outcome::Failed);
    assert_eq!(t.next_op(), None);
    assert_eq!(s.finish_init(&t), Err(Error::Spi(SpiError::Read)));
    assert!(s.needs_calibration());
    assert_eq!(s.cal_refs().err(), Some(Error::CalibDataNotAvailable));
}

#[test]
fn init_fails_when_the_reset_write_fails() {
    let mut s = sleeping();
    let mut t = s.init_transfer();
    t.complete(Outcome::Failed);
    assert_eq!(s.finish_init(&t), Err(Error::Spi(SpiError::Write)));
    assert!(s.needs_calibration());
}

#[test]
fn mode_changes_rewrite_the_configuration() {
    // The register traffic of a sleep -> normal -> sleep cycle.
    let s = sleeping();
    let n = s.enter_normal_mode();
    assert_eq!(n.config.mode, Mode::Normal);
    let (_, seen) = run_ok(n.apply_config_transfer(), &[]);
    assert_eq!(
        seen,
        vec![
            BusOp::Write { addr: 0x72, val: 0x01 },
            BusOp::Write { addr: 0x75, val: 0x40 },
            BusOp::Write { addr: 0x74, val: 0x27 },
        ]
    );
    let s = n.enter_sleep_mode();
    assert_eq!(s.config.mode, Mode::Sleep);
    let (_, seen) = run_ok(s.apply_config_transfer(), &[]);
    assert_eq!(seen[2], BusOp::Write { addr: 0x74, val: 0x24 });

    let f = s.enter_forced_mode();
    assert_eq!(f.config.mode, Mode::Sleep);
    assert_eq!(f.timeout, Duration::from_millis(150));
}

#[test]
fn transitions_keep_calibration() {
    let mut s = sleeping();
    let (t, _) = run_ok(s.init_transfer(), &[&CAL1, &CAL2]);
    s.finish_init(&t).unwrap();
    let n = s.enter_normal_mode();
    assert!(!n.needs_calibration());
    assert_eq!(n.cal_refs().unwrap().0 .0, CAL1);
}

#[test]
fn read_all_reads_the_burst() {
    let n = sleeping().enter_normal_mode();
    let (t, seen) = run_ok(n.read_all_transfer(), &[&BURST]);
    assert_eq!(seen, vec![BusOp::Read { addr: 0xF7, len: 8 }]);
    let m = measurement_from(&t).unwrap();
    assert_eq!(m.pressure(), 0x51930);
    assert_eq!(m.temperature(), 0x839C0);
    assert_eq!(m.humidity(), 0x686C);

    let mut t = n.read_all_transfer();
    t.complete(Outcome::Failed);
    assert_eq!(measurement_from(&t), Err(Error::Spi(SpiError::Read)));
}

#[test]
fn single_register_reads() {
    let s = sleeping();
    let (t, seen) = run_ok(s.device_id_transfer(), &[&[0x60]]);
    assert_eq!(seen, vec![BusOp::Read { addr: 0xD0, len: 1 }]);
    assert_eq!(device_id_from(&t), Ok(0x60));

    let (t, seen) = run_ok(s.status_transfer(), &[&[0x09]]);
    assert_eq!(seen, vec![BusOp::Read { addr: 0xF3, len: 1 }]);
    assert_eq!(status_from(&t), Ok(StatusReg(0x09)));

    let (t, _) = run_ok(s.calibration1_transfer(), &[&CAL1]);
    assert_eq!(calibration1_from(&t).unwrap().0, CAL1);
    let (t, seen) = run_ok(s.calibration2_transfer(), &[&CAL2]);
    assert_eq!(seen, vec![BusOp::Read { addr: 0xE1, len: 16 }]);
    assert_eq!(calibration2_from(&t).unwrap().0, CAL2);

    let mut t = s.device_id_transfer();
    t.complete(Outcome::Failed);
    assert_eq!(device_id_from(&t), Err(Error::Spi(SpiError::Read)));
}

#[test]
fn read_once_triggers_polls_and_fetches() {
    let f = sleeping().enter_forced_mode();
    let r = f.read_once_start();
    assert_eq!(r, ReadOnce::Trigger(BusOp::Write { addr: 0x74, val: 0x25 }));
    assert_eq!(r.action(), ReadOnceAction::Bus(BusOp::Write { addr: 0x74, val: 0x25 }));
    let r = r.on_outcome(Outcome::Done);
    assert_eq!(r, ReadOnce::Poll);
    assert_eq!(r.action(), ReadOnceAction::Bus(BusOp::Read { addr: 0xF3, len: 1 }));
    let r = r.on_outcome(Outcome::Data(vec![0x08]));
    assert_eq!(r, ReadOnce::Pause);
    assert_eq!(r.action(), ReadOnceAction::Yield);
    let r = r.on_outcome(Outcome::Done);
    assert_eq!(r, ReadOnce::Poll);
    let r = r.on_outcome(Outcome::Data(vec![0x01]));
    assert_eq!(r, ReadOnce::Fetch);
    assert_eq!(r.action(), ReadOnceAction::Bus(BusOp::Read { addr: 0xF7, len: 8 }));
    let r = r.on_outcome(Outcome::Data(BURST.to_vec()));
    assert_eq!(r.action(), ReadOnceAction::Finished);
    let m = r.result().unwrap().unwrap();
    assert_eq!(m, MeasurementData::from_burst(BURST));
}

#[test]
fn read_once_uses_configured_oversampling() {
    let f = Bme280Builder::new()
        .oversampling_temp(OsrsT::X2)
        .oversampling_pressure(OsrsP::X16)
        .build_spi(())
        .enter_forced_mode();
    assert_eq!(f.read_once_start(), ReadOnce::Trigger(BusOp::Write { addr: 0x74, val: 0x55 }));
}

#[test]
fn read_once_times_out_while_waiting() {
    let r = ReadOnce::Poll.on_timeout();
    assert_eq!(r.result(), Some(Err(Error::Timeout)));
    let r = ReadOnce::Pause.on_timeout();
    assert_eq!(r, ReadOnce::Done(Err(Error::Timeout)));
    assert_eq!(ReadOnce::Poll.result(), None);
}

#[test]
fn read_once_reports_bus_failures() {
    let f = sleeping().enter_forced_mode();
    let r = f.read_once_start().on_outcome(Outcome::Failed);
    assert_eq!(r.result(), Some(Err(Error::Spi(SpiError::Write))));
    let r = ReadOnce::Poll.on_outcome(Outcome::Failed);
    assert_eq!(r.result(), Some(Err(Error::Spi(SpiError::Read))));
    let r = ReadOnce::Fetch.on_outcome(Outcome::Failed);
    assert_eq!(r.result(), Some(Err(Error::Spi(SpiError::Read))));
}

#[test]
fn written_registers_decode_to_the_configuration() {
    let s = Bme280Builder::new()
        .oversampling_temp(OsrsT::X8)
        .oversampling_pressure(OsrsP::X2)
        .oversampling_humidity(OsrsH::X16)
        .filter(FilterMode::F16)
        .standby(TsbMode::SB4000)
        .spi3w(true)
        .build_spi(())
        .enter_normal_mode();
    let (_, seen) = run_ok(s.apply_config_transfer(), &[]);
    let vals: Vec<u8> = seen
        .iter()
        .map(|op| match op {
            BusOp::Write { val, .. } => *val,
            _ => panic!("only writes expected"),
        })
        .collect();
    assert_eq!(vals, vec![0x05, 0xF1, 0x8B]);
    assert_eq!(CtrlHumReg(vals[0]).osrs_h(), OsrsH::X16);
    let c = ConfigReg(vals[1]);
    assert_eq!(c.t_sb(), TsbMode::SB4000);
    assert_eq!(c.filter(), FilterMode::F16);
    assert_eq!(c.spi3w_enable(), 1);
    let m = CtrlMeasReg(vals[2]);
    assert_eq!(m.osrs_t(), OsrsT::X8);
    assert_eq!(m.osrs_p(), OsrsP::X2);
    assert_eq!(m.mode(), Mode::Normal);
}
