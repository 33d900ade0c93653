use bme280_driver::regs::{
    CalibrationData1, CalibrationData2, ConfigReg, CtrlHumReg, CtrlMeasReg, MeasurementData,
    Reset, StatusReg, ID,
};
use bme280_driver::{Config, FilterMode, Mode, OsrsH, OsrsP, OsrsT, TsbMode};

#[test]
fn tsb_mode_encoding_round_trips() {
    let all = [
        TsbMode::SB0p5,
        TsbMode::SB62p5,
        TsbMode::SB125,
        TsbMode::SB250,
        TsbMode::SB500,
        TsbMode::SB1000,
        TsbMode::SB2000,
        TsbMode::SB4000,
    ];
    for (i, m) in all.iter().enumerate() {
        assert_eq!(u8::from(*m), i as u8);
        assert_eq!(TsbMode::from(i as u8), *m);
    }
    assert_eq!(TsbMode::from(8), TsbMode::SB4000);
    assert_eq!(TsbMode::from(0xFF), TsbMode::SB4000);
}

#[test]
fn filter_mode_encoding_round_trips() {
    let all = [FilterMode::Off, FilterMode::F2, FilterMode::F4, FilterMode::F8, FilterMode::F16];
    for (i, m) in all.iter().enumerate() {
        assert_eq!(u8::from(*m), i as u8);
        assert_eq!(FilterMode::from(i as u8), *m);
    }
    assert_eq!(FilterMode::from(5), FilterMode::F16);
    assert_eq!(FilterMode::from(7), FilterMode::F16);
}

#[test]
fn oversampling_encoding_round_trips() {
    let t = [OsrsT::Skipped, OsrsT::X1, OsrsT::X2, OsrsT::X4, OsrsT::X8, OsrsT::X16];
    let p = [OsrsP::Skipped, OsrsP::X1, OsrsP::X2, OsrsP::X4, OsrsP::X8, OsrsP::X16];
    let h = [OsrsH::Skipped, OsrsH::X1, OsrsH::X2, OsrsH::X4, OsrsH::X8, OsrsH::X16];
    for i in 0..6usize {
        assert_eq!(u8::from(t[i]), i as u8);
        assert_eq!(u8::from(p[i]), i as u8);
        assert_eq!(u8::from(h[i]), i as u8);
        assert_eq!(OsrsT::from(i as u8), t[i]);
        assert_eq!(OsrsP::from(i as u8), p[i]);
        assert_eq!(OsrsH::from(i as u8), h[i]);
    }
    assert_eq!(OsrsT::from(6), OsrsT::X16);
    assert_eq!(OsrsP::from(7), OsrsP::X16);
    assert_eq!(OsrsH::from(200), OsrsH::X16);
}

#[test]
fn mode_encoding_round_trips() {
    assert_eq!(u8::from(Mode::Sleep), 0b00);
    assert_eq!(u8::from(Mode::Forced), 0b01);
    assert_eq!(u8::from(Mode::Normal), 0b11);
    assert_eq!(Mode::from(0), Mode::Sleep);
    assert_eq!(Mode::from(1), Mode::Forced);
    assert_eq!(Mode::from(2), Mode::Forced);
    assert_eq!(Mode::from(3), Mode::Normal);
    assert_eq!(Mode::from(4), Mode::Sleep);
}

#[test]
fn config_register_packs_fields() {
    let mut r = ConfigReg(0);
    r.set_t_sb(TsbMode::SB125);
    assert_eq!(r.0, 0x40);
    r.set_filter(FilterMode::F4);
    assert_eq!(r.0, 0x48);
    r.set_spi3w_enable(1);
    assert_eq!(r.0, 0x49);
    assert_eq!(r.t_sb(), TsbMode::SB125);
    assert_eq!(r.filter(), FilterMode::F4);
    assert_eq!(r.spi3w_enable(), 1);
    // Only the low bit of the value lands in bit 0.
    r.set_spi3w_enable(2);
    assert_eq!(r.0, 0x48);
}

#[test]
fn config_register_setters_leave_other_bits() {
    let mut r = ConfigReg(0xFF);
    r.set_filter(FilterMode::Off);
    assert_eq!(r.0, 0xE3);
    assert_eq!(r.t_sb(), TsbMode::SB4000);
    assert_eq!(r.spi3w_enable(), 1);
    r.set_t_sb(TsbMode::SB0p5);
    assert_eq!(r.0, 0x03);
    r.set_spi3w_enable(0);
    assert_eq!(r.0, 0x02);
}

#[test]
fn ctrl_meas_register_packs_fields() {
    let mut r = CtrlMeasReg(0);
    r.set_osrs_t(OsrsT::X1);
    r.set_osrs_p(OsrsP::X1);
    r.set_mode(Mode::Sleep);
    assert_eq!(r.0, 0x24);
    r.set_mode(Mode::Normal);
    assert_eq!(r.0, 0x27);
    assert_eq!(r.osrs_t(), OsrsT::X1);
    assert_eq!(r.osrs_p(), OsrsP::X1);
    assert_eq!(r.mode(), Mode::Normal);
    r.set_osrs_t(OsrsT::X2);
    r.set_osrs_p(OsrsP::X16);
    assert_eq!(r.0, 0x57);
    assert_eq!(CtrlMeasReg(0x02).mode(), Mode::Forced);
}

#[test]
fn ctrl_hum_register_keeps_upper_bits() {
    let mut r = CtrlHumReg(0xF0);
    r.set_osrs_h(OsrsH::X8);
    assert_eq!(r.0, 0xF4);
    assert_eq!(r.osrs_h(), OsrsH::X8);
    assert_eq!(CtrlHumReg(0x07).osrs_h(), OsrsH::X16);
}

#[test]
fn status_reset_and_id_registers() {
    assert_eq!(StatusReg(0x08).measuring(), 1);
    assert_eq!(StatusReg(0xF7).measuring(), 0);
    assert_eq!(StatusReg(0x01).im_update(), 1);
    assert_eq!(StatusReg(0x08).im_update(), 0);
    let mut reset = Reset(0);
    reset.set_reset(0xB6);
    assert_eq!(reset.0, 0xB6);
    assert_eq!(ID(0x60).id(), 0x60);
}

#[test]
fn measurement_burst_decodes_raw_readings() {
    let m = MeasurementData::from_burst([0x51, 0x93, 0x00, 0x83, 0x9C, 0x00, 0x68, 0x6C]);
    assert_eq!(m.0, 0x6C68_009C_8300_9351);
    assert_eq!(m.pressure(), 0x51930);
    assert_eq!(m.temperature(), 0x839C0);
    assert_eq!(m.humidity(), 0x686C);
}

#[test]
fn measurement_uses_upper_nibble_of_xlsb() {
    let m = MeasurementData::from_burst([0xFF, 0xFF, 0xFF, 0x12, 0x34, 0x5F, 0xAB, 0xCD]);
    assert_eq!(m.p_xlsb(), 0xF);
    assert_eq!(m.pressure(), 0xFFFFF);
    assert_eq!(m.t_msb(), 0x12);
    assert_eq!(m.t_lsb(), 0x34);
    assert_eq!(m.t_xlsb(), 0x5);
    assert_eq!(m.temperature(), 0x12345);
    assert_eq!(m.h_msb(), 0xAB);
    assert_eq!(m.h_lsb(), 0xCD);
    assert_eq!(m.humidity(), 0xABCD);
}

fn sample_cal1() -> CalibrationData1 {
    CalibrationData1([
        0xAC, 0x6B, 0x03, 0x67, 0x32, 0x00, 0x88, 0x8E, 0x56, 0xD6, 0xD0, 0x0B, 0x7A, 0x1E, 0x6D,
        0x00, 0xF9, 0xFF, 0x8D, 0x3C, 0xF9, 0xC6, 0x60, 0x0B, 0x00, 0x4B,
    ])
}

#[test]
fn calibration1_decodes_little_endian_words() {
    let c = sample_cal1();
    assert_eq!(c.dig_t1(), 27564);
    assert_eq!(c.dig_t2(), 26371);
    assert_eq!(c.dig_t3(), 50);
    assert_eq!(c.dig_p1(), 36488);
    assert_eq!(c.dig_p2(), -10666);
    assert_eq!(c.dig_p3(), 3024);
    assert_eq!(c.dig_p4(), 7802);
    assert_eq!(c.dig_p5(), 109);
    assert_eq!(c.dig_p6(), -7);
    assert_eq!(c.dig_p7(), 15501);
    assert_eq!(c.dig_p8(), -14599);
    assert_eq!(c.dig_p9(), 2912);
    assert_eq!(c.dig_h1(), 0x4B);
}

#[test]
fn calibration2_decodes_split_nibbles() {
    let mut bytes = [0u8; 16];
    bytes[0] = 0x63;
    bytes[1] = 0x01;
    bytes[3] = 0x14;
    let c = CalibrationData2(bytes);
    assert_eq!(c.dig_h2(), 355);
    assert_eq!(c.dig_h3(), 0);
    assert_eq!(c.dig_h4(), 320);
    assert_eq!(c.dig_h5(), 0);
    assert_eq!(c.dig_h6(), 0);

    let c = CalibrationData2([
        0x00, 0x80, 0x4B, 0x13, 0x2A, 0x03, 0x1E, 0, 0, 0, 0, 0, 0, 0, 0, 0,
    ]);
    assert_eq!(c.dig_h2(), -32768);
    assert_eq!(c.dig_h3(), 0x4B);
    assert_eq!(c.dig_h4(), 0x13 * 16 + 0xA);
    assert_eq!(c.dig_h5(), 0x03 * 16 + 0x2);
    assert_eq!(c.dig_h6(), 0x1E);
}

#[test]
fn calibration2_twelve_bit_values_are_signed() {
    let c = CalibrationData2([
        0, 0, 0, 0xFF, 0xFF, 0x80, 0xFF, 0, 0, 0, 0, 0, 0, 0, 0, 0,
    ]);
    assert_eq!(c.dig_h4(), -1);
    assert_eq!(c.dig_h5(), 0x80 * 16 + 0xF - 4096);
    assert_eq!(c.dig_h6(), -1);
    let c = CalibrationData2([
        0, 0, 0, 0x7F, 0xFF, 0x7F, 0x80, 0, 0, 0, 0, 0, 0, 0, 0, 0,
    ]);
    assert_eq!(c.dig_h4(), 2047);
    assert_eq!(c.dig_h5(), 2047);
    assert_eq!(c.dig_h6(), -128);
}

#[test]
fn config_default_and_with_methods() {
    let c = Config::default();
    assert_eq!(c.mode, Mode::Sleep);
    assert_eq!(c.osrs_t, OsrsT::X1);
    assert_eq!(c.osrs_p, OsrsP::X1);
    assert_eq!(c.osrs_h, OsrsH::X1);
    assert_eq!(c.standby, TsbMode::SB125);
    assert_eq!(c.filter, FilterMode::Off);
    assert!(!c.spi3w);
    let d = c
        .with_mode(Mode::Normal)
        .with_osrs_t(OsrsT::X2)
        .with_osrs_p(OsrsP::X16)
        .with_osrs_h(OsrsH::X4)
        .with_standby(TsbMode::SB1000)
        .with_filter(FilterMode::F8)
        .with_spi3w(true);
    assert_eq!(
        d,
        Config {
            mode: Mode::Normal,
            osrs_t: OsrsT::X2,
            osrs_p: OsrsP::X16,
            osrs_h: OsrsH::X4,
            standby: TsbMode::SB1000,
            filter: FilterMode::F8,
            spi3w: true,
        }
    );
    assert_eq!(d.with_mode(Mode::Sleep).osrs_t, OsrsT::X2);
}
