//! Driver logic for the Bosch BME280 combined humidity, pressure and
//! temperature sensor: register encodings, calibration decoding, the
//! typestate sensor model and the bus transfers each operation performs.

pub mod builder;
pub mod bus;
pub mod error;
pub mod regs;
pub mod spi_sensor;
pub mod states;
pub mod time;

pub use crate::builder::Bme280Builder;
pub use crate::error::{Error, I2cError, SpiError};
pub use crate::regs::{Config, FilterMode, Mode, OsrsH, OsrsP, OsrsT, StatusReg, TsbMode};
pub use crate::states::{Forced, Normal, SensorState, Sleep};
pub use crate::spi_sensor::Bme280Spi;
