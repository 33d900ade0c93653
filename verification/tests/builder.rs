use bme280_driver::{Bme280Builder, Config, FilterMode, Mode, OsrsH, OsrsP, OsrsT, TsbMode};
use embassy_time::Duration;
use embedded_hal_mock::eh1::spi::Mock as SpiMock;

#[test]
fn test_builder_spi() {
    let spi = SpiMock::<u8>::new(&[]);
    let sensor = Bme280Builder::new()
        .oversampling_temp(OsrsT::X16)
        .oversampling_pressure(OsrsP::Skipped)
        .oversampling_humidity(OsrsH::X1)
        .filter(FilterMode::Off)
        .standby(TsbMode::SB1000)
        .spi3w(false)
        .timeout(Duration::from_millis(50))
        .build_spi(spi);

    assert_eq!(sensor.config.osrs_t, OsrsT::X16);
    assert_eq!(sensor.config.osrs_p, OsrsP::Skipped);
    assert_eq!(sensor.config.osrs_h, OsrsH::X1);
    assert_eq!(sensor.config.filter, FilterMode::Off);
    assert_eq!(sensor.config.standby, TsbMode::SB1000);
    assert_eq!(sensor.config.spi3w, false);
    assert_eq!(sensor.timeout, Duration::from_millis(50));
    sensor.into_inner().done();
}

#[test]
fn builder_defaults_match_config_default() {
    let spi = SpiMock::<u8>::new(&[]);
    let sensor = Bme280Builder::new().build_spi(spi);
    assert_eq!(sensor.config, Config::default());
    assert_eq!(sensor.config.mode, Mode::Sleep);
    assert_eq!(sensor.timeout, Duration::from_millis(150));
    sensor.into_inner().done();
}

#[test]
fn builder_from_config_and_config_replace_settings() {
    let c = Config::default().with_filter(FilterMode::F2).with_mode(Mode::Normal);
    let sensor = Bme280Builder::from_config(c).build_spi(());
    assert_eq!(sensor.config, c);
    let sensor = Bme280Builder::default()
        .timeout(Duration::from_millis(20))
        .config(c)
        .build_spi(());
    assert_eq!(sensor.config, c);
    assert_eq!(sensor.timeout, Duration::from_millis(20));
}
