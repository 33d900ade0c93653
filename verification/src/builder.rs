use vstd::prelude::*;

use embassy_time::Duration;

use crate::regs::{Config, FilterMode, OsrsH, OsrsP, OsrsT, TsbMode};
use crate::spi_sensor::{Bme280Spi, DEFAULT_TIMEOUT_MS};
use crate::states::Sleep;
use crate::time::millis_duration;

verus! {

/// Collects settings, then builds a sleeping sensor handle from them.
pub struct Bme280Builder {
    config: Config,
    timeout: Option<Duration>,
}

impl Bme280Builder {
    /// The settings the built sensor starts with.
    pub closed spec fn configuration(&self) -> Config {
        self.config
    }

    /// The forced-conversion timeout, if one was chosen.
    pub closed spec fn timeout_setting(&self) -> Option<Duration> {
        self.timeout
    }

    pub fn new() -> (b: Self)
        ensures
            b.configuration() == Config::spec_default(),
            b.timeout_setting() is None,
    {
        Self { config: Config::default(), timeout: None }
    }

    pub fn from_config(config: Config) -> (b: Self)
        ensures
            b.configuration() == config,
            b.timeout_setting() is None,
    {
        Self { config, timeout: None }
    }

    pub fn config(self, config: Config) -> (b: Self)
        ensures
            b.configuration() == config,
            b.timeout_setting() == self.timeout_setting(),
    {
        let mut b = self;
        b.config = config;
        b
    }

    pub fn oversampling_temp(self, osrs_t: OsrsT) -> (b: Self)
        ensures
            b.configuration() == (Config { osrs_t, ..self.configuration() }),
            b.timeout_setting() == self.timeout_setting(),
    {
        let mut b = self;
        b.config.osrs_t = osrs_t;
        b
    }

    pub fn oversampling_pressure(self, osrs_p: OsrsP) -> (b: Self)
        ensures
            b.configuration() == (Config { osrs_p, ..self.configuration() }),
            b.timeout_setting() == self.timeout_setting(),
    {
        let mut b = self;
        b.config.osrs_p = osrs_p;
        b
    }

    pub fn oversampling_humidity(self, osrs_h: OsrsH) -> (b: Self)
        ensures
            b.configuration() == (Config { osrs_h, ..self.configuration() }),
            b.timeout_setting() == self.timeout_setting(),
    {
        let mut b = self;
        b.config.osrs_h = osrs_h;
        b
    }

    pub fn filter(self, filter: FilterMode) -> (b: Self)
        ensures
            b.configuration() == (Config { filter, ..self.configuration() }),
            b.timeout_setting() == self.timeout_setting(),
    {
        let mut b = self;
        b.config.filter = filter;
        b
    }

    pub fn standby(self, standby: TsbMode) -> (b: Self)
        ensures
            b.configuration() == (Config { standby, ..self.configuration() }),
            b.timeout_setting() == self.timeout_setting(),
    {
        let mut b = self;
        b.config.standby = standby;
        b
    }

    pub fn spi3w(self, spi3w: bool) -> (b: Self)
        ensures
            b.configuration() == (Config { spi3w, ..self.configuration() }),
            b.timeout_setting() == self.timeout_setting(),
    {
        let mut b = self;
        b.config.spi3w = spi3w;
        b
    }

    pub fn timeout(self, timeout: Duration) -> (b: Self)
        ensures
            b.configuration() == self.configuration(),
            b.timeout_setting() == Some(timeout),
    {
        let mut b = self;
        b.timeout = Some(timeout);
        b
    }

    /// A sleeping SPI sensor with the collected settings and, unless one was
    /// chosen, the default forced-conversion timeout.
    pub fn build_spi<SPI>(self, spi: SPI) -> (s: Bme280Spi<SPI, Sleep>)
        ensures
            s.spi_device() == spi,
            s.configuration() == self.configuration(),
            s.cal1_data() is None,
            s.cal2_data() is None,
            s.timeout_value() == (match self.timeout_setting() {
                Some(t) => t,
                None => millis_duration(DEFAULT_TIMEOUT_MS),
            }),
    {
        let sensor = Bme280Spi::new_with_config(spi, self.config);
        match self.timeout {
            Some(timeout) => sensor.with_timeout(timeout),
            None => sensor,
        }
    }
}

impl Default for Bme280Builder {
    fn default() -> (b: Self)
        ensures
            b.configuration() == Config::spec_default(),
            b.timeout_setting() is None,
    {
        Self::new()
    }
}

} // verus!
