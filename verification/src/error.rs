use vstd::prelude::*;

verus! {

/// Failures of an I2C bus operation.
#[derive(Debug, PartialEq, Eq, Structural, Copy, Clone)]
pub enum I2cError {
    Read,
    Write,
    Interrupt,
}

/// Failures of an SPI bus operation.
#[derive(Debug, PartialEq, Eq, Structural, Copy, Clone)]
pub enum SpiError {
    Read,
    Write,
    Interrupt,
}

/// Every way a driver operation can fail.
#[derive(Debug, PartialEq, Eq, Structural, Copy, Clone)]
pub enum Error {
    I2c(I2cError),
    Spi(SpiError),
    CalibDataNotAvailable,
    /// A forced-mode conversion did not finish within the sensor's timeout.
    Timeout,
}

/// The result of a driver operation.
pub type Result<T> = core::result::Result<T, Error>;

} // verus!
