use vstd::prelude::*;

use core::marker::PhantomData;
use embassy_time::Duration;

use crate::bus::{spi_read_address, spi_write_address, BusOp, Outcome, Transfer};
use crate::error::{Error, SpiError};
use crate::regs::{
    le_u64_value, CalibrationData1, CalibrationData2, Config, ConfigReg, CtrlHumReg, CtrlMeasReg,
    MeasurementData, Mode, OsrsP, OsrsT, StatusReg, CALIB1_TEMP_LEN, CALIB1_TEMP_START, CALIB2_HUM_START,
    REG_ALLDATA_START, REG_CHIP_ID, REG_CONFIG, REG_CTRL_HUM, REG_CTRL_MEAS, REG_RESET,
    REG_STATUS, RESET_COMMAND,
};
use crate::states::{Forced, Normal, SensorState, Sleep};
use crate::time::{duration_from_millis, millis_duration};

verus! {

/// Milliseconds to wait after a soft reset while the device reloads its
/// trimming parameters from NVM.
pub const RESET_SETTLE_MS: u64 = 10;

/// Milliseconds a forced-mode conversion may take before it is given up.
pub const DEFAULT_TIMEOUT_MS: u64 = 150;

/// Bytes of the humidity trimming block the driver reads (`0xE1..=0xF0`).
pub const CALIB2_READ_LEN: usize = 16;

/// Bytes of the data burst `0xF7..=0xFE`.
pub const DATA_BURST_LEN: usize = 8;

/// The bus step that reads `len` bytes starting at register `reg`.
pub open spec fn read_op(reg: u8, len: usize) -> BusOp {
    BusOp::Read { addr: spi_read_address(reg), len }
}

/// The bus step that writes `val` to register `reg`.
pub open spec fn write_op(reg: u8, val: u8) -> BusOp {
    BusOp::Write { addr: spi_write_address(reg), val }
}

/// Soft reset, then the wait for the trimming parameters to reload.
pub open spec fn reset_ops() -> Seq<BusOp> {
    seq![write_op(REG_RESET, RESET_COMMAND), BusOp::Delay { ms: RESET_SETTLE_MS }]
}

/// The writes that put a configuration into the device: `ctrl_hum` first,
/// since it only takes effect on the following `ctrl_meas` write.
pub open spec fn config_ops(c: Config) -> Seq<BusOp> {
    seq![
        write_op(REG_CTRL_HUM, c.ctrl_hum_value()),
        write_op(REG_CONFIG, c.config_value()),
        write_op(REG_CTRL_MEAS, c.ctrl_meas_value()),
    ]
}

/// Index of the temperature/pressure trimming read within `init_ops`.
pub open spec fn init_cal1_index() -> int {
    2
}

/// Index of the humidity trimming read within `init_ops`.
pub open spec fn init_cal2_index() -> int {
    3
}

/// Reset, read both trimming blocks, then write the configuration.
pub open spec fn init_ops(c: Config) -> Seq<BusOp> {
    reset_ops() + seq![
        read_op(CALIB1_TEMP_START, CALIB1_TEMP_LEN as usize),
        read_op(CALIB2_HUM_START, CALIB2_READ_LEN),
    ] + config_ops(c)
}

/// A BME280 on an SPI device `SPI`, in the power mode `MODE`.
#[derive(Debug)]
pub struct Bme280Spi<SPI, MODE = Sleep> {
    spi: SPI,
    pub config: Config,
    cal1: Option<CalibrationData1>,
    cal2: Option<CalibrationData2>,
    /// How long `read_once` waits for a forced conversion.
    pub timeout: Duration,
    _mode: PhantomData<MODE>,
}

impl<SPI, MODE: SensorState> Bme280Spi<SPI, MODE> {
    pub closed spec fn spi_device(&self) -> SPI {
        self.spi
    }

    /// The settings the driver writes to the device.
    pub closed spec fn configuration(&self) -> Config {
        self.config
    }

    /// How long a forced conversion may take.
    pub closed spec fn timeout_value(&self) -> Duration {
        self.timeout
    }

    /// The temperature/pressure trimming parameters, once read.
    pub closed spec fn cal1_data(&self) -> Option<CalibrationData1> {
        self.cal1
    }

    /// The humidity trimming parameters, once read.
    pub closed spec fn cal2_data(&self) -> Option<CalibrationData2> {
        self.cal2
    }

    /// Both trimming blocks are present.
    pub open spec fn calibrated(&self) -> bool {
        self.cal1_data() is Some && self.cal2_data() is Some
    }

    /// Everything but the power-mode marker and the configured mode agree.
    pub open spec fn same_device<M2: SensorState>(&self, other: &Bme280Spi<SPI, M2>) -> bool {
        &&& self.spi_device() == other.spi_device()
        &&& self.cal1_data() == other.cal1_data()
        &&& self.cal2_data() == other.cal2_data()
        &&& self.timeout_value() == other.timeout_value()
    }

    /// The bus step that reads `len` bytes starting at register `reg`.
    pub fn read_reg_op(reg: u8, len: usize) -> (op: BusOp)
        ensures
            op == read_op(reg, len),
    {
        BusOp::Read { addr: reg | 0x80, len }
    }

    /// The bus step that writes `val` to register `reg`.
    pub fn write_reg_op(reg: u8, val: u8) -> (op: BusOp)
        ensures
            op == write_op(reg, val),
    {
        BusOp::Write { addr: reg & 0x7F, val }
    }

    /// The SPI device, to perform bus steps on.
    pub fn spi_mut(&mut self) -> (r: &mut SPI)
        ensures
            *r == old(self).spi_device(),
            final(self).spi_device() == *final(r),
            final(self).configuration() == old(self).configuration(),
            final(self).cal1_data() == old(self).cal1_data(),
            final(self).cal2_data() == old(self).cal2_data(),
            final(self).timeout_value() == old(self).timeout_value(),
    {
        &mut self.spi
    }

    /// Gives the SPI device back.
    pub fn into_inner(self) -> (r: SPI)
        ensures
            r == self.spi_device(),
    {
        self.spi
    }
}

/// Copies a buffer of exactly `N` bytes into an array.
fn byte_array<const N: usize>(v: &Vec<u8>) -> (a: [u8; N])
    requires
        v.len() == N,
    ensures
        a@ == v@,
{
    let mut a = [0u8; N];
    let mut i: usize = 0;
    while i < N
        invariant
            v.len() == N,
            i <= N,
            a@.len() == N,
            forall|j: int| 0 <= j < i ==> a@[j] == v@[j],
        decreases N - i,
    {
        a[i] = v[i];
        i = i + 1;
    }
    assert(a@ =~= v@);
    a
}

/// The register writes that put `c` into the device.
fn config_op_list(c: &Config) -> (v: Vec<BusOp>)
    ensures
        v@ == config_ops(*c),
{
    let mut hum_reg = CtrlHumReg(0);
    hum_reg.set_osrs_h(c.osrs_h);

    let mut reg_val = ConfigReg(0);
    reg_val.set_t_sb(c.standby);
    reg_val.set_filter(c.filter);
    let spi3w: u8 = if c.spi3w {
        1
    } else {
        0
    };
    reg_val.set_spi3w_enable(spi3w);

    let mut meas_reg = CtrlMeasReg(0);
    meas_reg.set_osrs_t(c.osrs_t);
    meas_reg.set_osrs_p(c.osrs_p);
    meas_reg.set_mode(c.mode);

    let mut v: Vec<BusOp> = Vec::new();
    v.push(BusOp::Write { addr: REG_CTRL_HUM & 0x7F, val: hum_reg.0 });
    v.push(BusOp::Write { addr: REG_CONFIG & 0x7F, val: reg_val.0 });
    v.push(BusOp::Write { addr: REG_CTRL_MEAS & 0x7F, val: meas_reg.0 });
    assert(v@ =~= config_ops(*c));
    v
}

/// A transfer of `ops` that has not started.
pub open spec fn fresh(t: Transfer, ops: Seq<BusOp>) -> bool {
    &&& t.ops() == ops
    &&& t.data().len() == 0
    &&& t.error() is None
}

/// A transfer of `ops` that has run to its end.
pub open spec fn ran(t: Transfer, ops: Seq<BusOp>) -> bool {
    &&& t.finished()
    &&& t.ops() == ops
}

/// The error that stopped an unsuccessful transfer.
pub open spec fn stop_error(t: Transfer) -> Error {
    t.error().unwrap()
}

impl<SPI, MODE: SensorState> Bme280Spi<SPI, MODE> {
    /// Soft reset, followed by the wait for the trimming reload.
    pub fn reset_transfer(&self) -> (t: Transfer)
        ensures
            fresh(t, reset_ops()),
    {
        let mut v: Vec<BusOp> = Vec::new();
        v.push(Self::write_reg_op(REG_RESET, RESET_COMMAND));
        v.push(BusOp::Delay { ms: RESET_SETTLE_MS });
        assert(v@ =~= reset_ops());
        Transfer::new(v)
    }

    /// One read of the chip-id register.
    pub fn device_id_transfer(&self) -> (t: Transfer)
        ensures
            fresh(t, seq![read_op(REG_CHIP_ID, 1)]),
    {
        let mut v: Vec<BusOp> = Vec::new();
        v.push(Self::read_reg_op(REG_CHIP_ID, 1));
        assert(v@ =~= seq![read_op(REG_CHIP_ID, 1)]);
        Transfer::new(v)
    }

    /// One read of the status register.
    pub fn status_transfer(&self) -> (t: Transfer)
        ensures
            fresh(t, seq![status_op()]),
    {
        let mut v: Vec<BusOp> = Vec::new();
        v.push(Self::read_reg_op(REG_STATUS, 1));
        assert(v@ =~= seq![status_op()]);
        Transfer::new(v)
    }

    /// One read of the temperature/pressure trimming block.
    pub fn calibration1_transfer(&self) -> (t: Transfer)
        ensures
            fresh(t, seq![read_op(CALIB1_TEMP_START, CALIB1_TEMP_LEN as usize)]),
    {
        let mut v: Vec<BusOp> = Vec::new();
        v.push(Self::read_reg_op(CALIB1_TEMP_START, CALIB1_TEMP_LEN as usize));
        assert(v@ =~= seq![read_op(CALIB1_TEMP_START, CALIB1_TEMP_LEN as usize)]);
        Transfer::new(v)
    }

    /// One read of the humidity trimming block.
    pub fn calibration2_transfer(&self) -> (t: Transfer)
        ensures
            fresh(t, seq![read_op(CALIB2_HUM_START, CALIB2_READ_LEN)]),
    {
        let mut v: Vec<BusOp> = Vec::new();
        v.push(Self::read_reg_op(CALIB2_HUM_START, CALIB2_READ_LEN));
        assert(v@ =~= seq![read_op(CALIB2_HUM_START, CALIB2_READ_LEN)]);
        Transfer::new(v)
    }

    /// The writes of `ctrl_hum`, `config` and `ctrl_meas` for the current settings.
    pub fn apply_config_transfer(&self) -> (t: Transfer)
        ensures
            fresh(t, config_ops(self.configuration())),
    {
        Transfer::new(config_op_list(&self.config))
    }

    /// Reset, read both trimming blocks, then write the current settings.
    pub fn init_transfer(&self) -> (t: Transfer)
        ensures
            fresh(t, init_ops(self.configuration())),
    {
        let mut v: Vec<BusOp> = Vec::new();
        v.push(Self::write_reg_op(REG_RESET, RESET_COMMAND));
        v.push(BusOp::Delay { ms: RESET_SETTLE_MS });
        v.push(Self::read_reg_op(CALIB1_TEMP_START, CALIB1_TEMP_LEN as usize));
        v.push(Self::read_reg_op(CALIB2_HUM_START, CALIB2_READ_LEN));
        let mut rest = config_op_list(&self.config);
        v.append(&mut rest);
        assert(v@ =~= init_ops(self.configuration()));
        Transfer::new(v)
    }

    /// Takes in what an `init_transfer` read: each trimming block whose read
    /// completed replaces the stored one, even when a later step failed.
    pub fn finish_init(&mut self, t: &Transfer) -> (r: Result<(), Error>)
        requires
            ran(*t, init_ops(old(self).configuration())),
        ensures
            r == (if t.succeeded() {
                Ok(())
            } else {
                Err(stop_error(*t))
            }),
            t.data().len() > init_cal1_index() ==> final(self).cal1_data() is Some
                && final(self).cal1_data().unwrap().0@ == t.data()[init_cal1_index()],
            t.data().len() <= init_cal1_index() ==> final(self).cal1_data() == old(
                self,
            ).cal1_data(),
            t.data().len() > init_cal2_index() ==> final(self).cal2_data() is Some
                && final(self).cal2_data().unwrap().0@ == t.data()[init_cal2_index()],
            t.data().len() <= init_cal2_index() ==> final(self).cal2_data() == old(
                self,
            ).cal2_data(),
            t.succeeded() ==> final(self).calibrated(),
            !t.succeeded() ==> r == Err::<(), Error>(Error::Spi(SpiError::Read)) || r == Err::<
                (),
                Error,
            >(Error::Spi(SpiError::Write)),
            final(self).spi_device() == old(self).spi_device(),
            final(self).configuration() == old(self).configuration(),
            final(self).timeout_value() == old(self).timeout_value(),
    {
        proof {
            use_type_invariant(t);
        }
        let done = t.completed();
        if done > 2 {
            let bytes = t.data_at(2);
            self.cal1 = Some(CalibrationData1(byte_array::<26>(bytes)));
        }
        if done > 3 {
            let bytes = t.data_at(3);
            self.cal2 = Some(CalibrationData2(byte_array::<16>(bytes)));
        }
        t.result()
    }

    /// The trimming parameters are missing, so a read must `init` first.
    pub fn needs_calibration(&self) -> (r: bool)
        ensures
            r == !self.calibrated(),
    {
        self.cal1.is_none() || self.cal2.is_none()
    }

    /// Both trimming blocks, or `CalibDataNotAvailable` if either is missing.
    pub fn cal_refs(&self) -> (r: Result<(&CalibrationData1, &CalibrationData2), Error>)
        ensures
            self.calibrated() ==> r == Ok::<(&CalibrationData1, &CalibrationData2), Error>(
                (&self.cal1_data().unwrap(), &self.cal2_data().unwrap()),
            ),
            !self.calibrated() ==> r == Err::<(&CalibrationData1, &CalibrationData2), Error>(
                Error::CalibDataNotAvailable,
            ),
    {
        match (&self.cal1, &self.cal2) {
            (Some(c1), Some(c2)) => Ok((c1, c2)),
            _ => Err(Error::CalibDataNotAvailable),
        }
    }
}

/// The chip id a `device_id_transfer` read.
pub fn device_id_from(t: &Transfer) -> (r: Result<u8, Error>)
    requires
        ran(*t, seq![read_op(REG_CHIP_ID, 1)]),
    ensures
        r == (if t.succeeded() {
            Ok(t.data()[0][0])
        } else {
            Err(stop_error(*t))
        }),
        !t.succeeded() ==> r == Err::<u8, Error>(Error::Spi(SpiError::Read)),
{
    proof {
        use_type_invariant(t);
    }
    match t.result() {
        Ok(()) => Ok(t.data_at(0)[0]),
        Err(e) => Err(e),
    }
}

/// The status register a `status_transfer` read.
pub fn status_from(t: &Transfer) -> (r: Result<StatusReg, Error>)
    requires
        ran(*t, seq![status_op()]),
    ensures
        r == (if t.succeeded() {
            Ok(StatusReg(t.data()[0][0]))
        } else {
            Err(stop_error(*t))
        }),
        !t.succeeded() ==> r == Err::<StatusReg, Error>(Error::Spi(SpiError::Read)),
{
    proof {
        use_type_invariant(t);
    }
    match t.result() {
        Ok(()) => Ok(StatusReg(t.data_at(0)[0])),
        Err(e) => Err(e),
    }
}

/// The temperature/pressure trimming block a `calibration1_transfer` read.
pub fn calibration1_from(t: &Transfer) -> (r: Result<CalibrationData1, Error>)
    requires
        ran(*t, seq![read_op(CALIB1_TEMP_START, CALIB1_TEMP_LEN as usize)]),
    ensures
        t.succeeded() ==> r is Ok && r.unwrap().0@ == t.data()[0],
        !t.succeeded() ==> r == Err::<CalibrationData1, Error>(stop_error(*t)),
        !t.succeeded() ==> r == Err::<CalibrationData1, Error>(Error::Spi(SpiError::Read)),
{
    proof {
        use_type_invariant(t);
    }
    match t.result() {
        Ok(()) => Ok(CalibrationData1(byte_array::<26>(t.data_at(0)))),
        Err(e) => Err(e),
    }
}

/// The humidity trimming block a `calibration2_transfer` read.
pub fn calibration2_from(t: &Transfer) -> (r: Result<CalibrationData2, Error>)
    requires
        ran(*t, seq![read_op(CALIB2_HUM_START, CALIB2_READ_LEN)]),
    ensures
        t.succeeded() ==> r is Ok && r.unwrap().0@ == t.data()[0],
        !t.succeeded() ==> r == Err::<CalibrationData2, Error>(stop_error(*t)),
        !t.succeeded() ==> r == Err::<CalibrationData2, Error>(Error::Spi(SpiError::Read)),
{
    proof {
        use_type_invariant(t);
    }
    match t.result() {
        Ok(()) => Ok(CalibrationData2(byte_array::<16>(t.data_at(0)))),
        Err(e) => Err(e),
    }
}

/// The status read while waiting for a forced conversion.
pub open spec fn status_op() -> BusOp {
    read_op(REG_STATUS, 1)
}

/// The burst read of pressure, temperature and humidity.
pub open spec fn data_op() -> BusOp {
    read_op(REG_ALLDATA_START, DATA_BURST_LEN)
}

/// The measurement a data burst holds.
pub open spec fn burst_measurement(bytes: Seq<u8>) -> MeasurementData {
    MeasurementData(le_u64_value(bytes) as u64)
}

/// The measurement a `read_all_transfer` read.
pub fn measurement_from(t: &Transfer) -> (r: Result<MeasurementData, Error>)
    requires
        ran(*t, seq![data_op()]),
    ensures
        r == (if t.succeeded() {
            Ok(burst_measurement(t.data()[0]))
        } else {
            Err(stop_error(*t))
        }),
        !t.succeeded() ==> r == Err::<MeasurementData, Error>(Error::Spi(SpiError::Read)),
{
    proof {
        use_type_invariant(t);
    }
    match t.result() {
        Ok(()) => Ok(MeasurementData::from_burst(byte_array::<8>(t.data_at(0)))),
        Err(e) => Err(e),
    }
}

impl<SPI> Bme280Spi<SPI, Sleep> {
    /// A sleeping sensor with the default settings and no trimming data yet.
    pub fn new(spi: SPI) -> (s: Self)
        ensures
            s.spi_device() == spi,
            s.configuration() == Config::spec_default(),
            s.cal1_data() is None,
            s.cal2_data() is None,
            s.timeout_value() == millis_duration(DEFAULT_TIMEOUT_MS),
    {
        Self::new_with_config(spi, Config::default())
    }

    /// A sleeping sensor with the given settings and no trimming data yet.
    pub fn new_with_config(spi: SPI, config: Config) -> (s: Self)
        ensures
            s.spi_device() == spi,
            s.configuration() == config,
            s.cal1_data() is None,
            s.cal2_data() is None,
            s.timeout_value() == millis_duration(DEFAULT_TIMEOUT_MS),
    {
        Self {
            spi,
            config,
            cal1: None,
            cal2: None,
            timeout: duration_from_millis(DEFAULT_TIMEOUT_MS),
            _mode: PhantomData,
        }
    }

    /// The same sensor with its forced-conversion timeout replaced.
    pub(crate) fn with_timeout(self, timeout: Duration) -> (s: Self)
        ensures
            s.spi_device() == self.spi_device(),
            s.configuration() == self.configuration(),
            s.cal1_data() == self.cal1_data(),
            s.cal2_data() == self.cal2_data(),
            s.timeout_value() == timeout,
    {
        let mut s = self;
        s.timeout = timeout;
        s
    }

    /// The handle for continuous measurement: the configured mode becomes
    /// `Normal`; `apply_config_transfer` on the result writes it.
    pub fn enter_normal_mode(self) -> (r: Bme280Spi<SPI, Normal>)
        ensures
            r.configuration() == (Config { mode: Mode::Normal, ..self.configuration() }),
            r.same_device(&self),
    {
        let mut config = self.config;
        config.mode = Mode::Normal;
        Bme280Spi {
            spi: self.spi,
            config,
            cal1: self.cal1,
            cal2: self.cal2,
            timeout: self.timeout,
            _mode: PhantomData,
        }
    }

    /// The handle for single measurements: the device stays asleep between
    /// them, so the configured mode becomes `Sleep`; `apply_config_transfer`
    /// on the result writes it.
    pub fn enter_forced_mode(self) -> (r: Bme280Spi<SPI, Forced>)
        ensures
            r.configuration() == (Config { mode: Mode::Sleep, ..self.configuration() }),
            r.same_device(&self),
    {
        let mut config = self.config;
        config.mode = Mode::Sleep;
        Bme280Spi {
            spi: self.spi,
            config,
            cal1: self.cal1,
            cal2: self.cal2,
            timeout: self.timeout,
            _mode: PhantomData,
        }
    }
}

impl<SPI> Bme280Spi<SPI, Normal> {
    /// One burst read of the latest pressure, temperature and humidity.
    pub fn read_all_transfer(&self) -> (t: Transfer)
        ensures
            fresh(t, seq![data_op()]),
    {
        let mut v: Vec<BusOp> = Vec::new();
        v.push(Self::read_reg_op(REG_ALLDATA_START, DATA_BURST_LEN));
        assert(v@ =~= seq![data_op()]);
        Transfer::new(v)
    }

    /// The sleeping handle: the configured mode becomes `Sleep`;
    /// `apply_config_transfer` on the result writes it.
    pub fn enter_sleep_mode(self) -> (r: Bme280Spi<SPI, Sleep>)
        ensures
            r.configuration() == (Config { mode: Mode::Sleep, ..self.configuration() }),
            r.same_device(&self),
    {
        let mut config = self.config;
        config.mode = Mode::Sleep;
        Bme280Spi {
            spi: self.spi,
            config,
            cal1: self.cal1,
            cal2: self.cal2,
            timeout: self.timeout,
            _mode: PhantomData,
        }
    }
}

/// What a forced measurement asks of the caller next.
#[derive(Debug, PartialEq, Eq, Structural, Copy, Clone)]
pub enum ReadOnceAction {
    /// Perform this bus step.
    Bus(BusOp),
    /// Let other tasks run, then continue.
    Yield,
    /// The measurement is over; its result is in the state.
    Finished,
}

/// The progress of one forced measurement: trigger a conversion, poll the
/// status register until the conversion is over, then read the data burst.
/// The caller races the polling against the sensor's timeout.
#[derive(Debug, PartialEq, Eq)]
pub enum ReadOnce {
    /// Write `ctrl_meas` with forced mode to start a conversion.
    Trigger(BusOp),
    /// Read the status register.
    Poll,
    /// The conversion is still running: yield, then poll again.
    Pause,
    /// Read the data burst.
    Fetch,
    /// Over, with the raw measurement or the failure.
    Done(Result<MeasurementData, Error>),
}

impl ReadOnce {
    /// The step each state asks for.
    pub open spec fn spec_action(self) -> ReadOnceAction {
        match self {
            ReadOnce::Trigger(op) => ReadOnceAction::Bus(op),
            ReadOnce::Poll => ReadOnceAction::Bus(status_op()),
            ReadOnce::Pause => ReadOnceAction::Yield,
            ReadOnce::Fetch => ReadOnceAction::Bus(data_op()),
            ReadOnce::Done(_) => ReadOnceAction::Finished,
        }
    }

    /// `o` is something the step asked for can produce.
    pub open spec fn accepts(self, o: Outcome) -> bool {
        match self {
            ReadOnce::Trigger(op) => (op is Write) && (o is Done || o is Failed),
            ReadOnce::Poll => match o {
                Outcome::Data(v) => v.len() == 1,
                Outcome::Failed => true,
                Outcome::Done => false,
            },
            ReadOnce::Pause => o is Done,
            ReadOnce::Fetch => match o {
                Outcome::Data(v) => v.len() == DATA_BURST_LEN,
                Outcome::Failed => true,
                Outcome::Done => false,
            },
            ReadOnce::Done(_) => false,
        }
    }

    /// The state after the step asked for had outcome `o`.
    pub open spec fn after(self, o: Outcome) -> ReadOnce {
        match self {
            ReadOnce::Trigger(op) => match o {
                Outcome::Failed => ReadOnce::Done(Err(op.failure())),
                _ => ReadOnce::Poll,
            },
            ReadOnce::Poll => match o {
                Outcome::Data(v) => if StatusReg(v@[0]).measuring_bit() == 0 {
                    ReadOnce::Fetch
                } else {
                    ReadOnce::Pause
                },
                _ => ReadOnce::Done(Err(status_op().failure())),
            },
            ReadOnce::Pause => ReadOnce::Poll,
            ReadOnce::Fetch => match o {
                Outcome::Data(v) => ReadOnce::Done(Ok(burst_measurement(v@))),
                _ => ReadOnce::Done(Err(data_op().failure())),
            },
            ReadOnce::Done(r) => ReadOnce::Done(r),
        }
    }

    /// The conversion is being waited for, which the timeout can cut short.
    pub open spec fn waiting(self) -> bool {
        self is Poll || self is Pause
    }

    pub fn action(&self) -> (r: ReadOnceAction)
        ensures
            r == self.spec_action(),
    {
        match self {
            ReadOnce::Trigger(op) => ReadOnceAction::Bus(*op),
            ReadOnce::Poll => ReadOnceAction::Bus(BusOp::Read { addr: REG_STATUS | 0x80, len: 1 }),
            ReadOnce::Pause => ReadOnceAction::Yield,
            ReadOnce::Fetch => ReadOnceAction::Bus(
                BusOp::Read { addr: REG_ALLDATA_START | 0x80, len: DATA_BURST_LEN },
            ),
            ReadOnce::Done(_) => ReadOnceAction::Finished,
        }
    }

    /// Moves on after the step asked for had outcome `outcome`.
    pub fn on_outcome(self, outcome: Outcome) -> (r: ReadOnce)
        requires
            self.accepts(outcome),
        ensures
            r == self.after(outcome),
    {
        match self {
            ReadOnce::Trigger(op) => match outcome {
                Outcome::Failed => ReadOnce::Done(Err(op.failure_error())),
                _ => ReadOnce::Poll,
            },
            ReadOnce::Poll => match outcome {
                Outcome::Data(v) => {
                    let status = StatusReg(v[0]);
                    if status.measuring() == 0 {
                        ReadOnce::Fetch
                    } else {
                        ReadOnce::Pause
                    }
                },
                _ => ReadOnce::Done(Err(Error::Spi(SpiError::Read))),
            },
            ReadOnce::Pause => ReadOnce::Poll,
            ReadOnce::Fetch => match outcome {
                Outcome::Data(v) => ReadOnce::Done(
                    Ok(MeasurementData::from_burst(byte_array::<8>(&v))),
                ),
                _ => ReadOnce::Done(Err(Error::Spi(SpiError::Read))),
            },
            ReadOnce::Done(r) => ReadOnce::Done(r),
        }
    }

    /// The timeout expired while the conversion was being waited for.
    pub fn on_timeout(self) -> (r: ReadOnce)
        requires
            self.waiting(),
        ensures
            r == ReadOnce::Done(Err(Error::Timeout)),
    {
        ReadOnce::Done(Err(Error::Timeout))
    }

    /// The result, once the measurement is over.
    pub fn result(&self) -> (r: Option<Result<MeasurementData, Error>>)
        ensures
            r == (match self {
                ReadOnce::Done(res) => Some(*res),
                _ => None,
            }),
    {
        match self {
            ReadOnce::Done(res) => Some(*res),
            _ => None,
        }
    }
}

impl<SPI> Bme280Spi<SPI, Forced> {
    /// Starts a forced measurement with the configured oversampling.
    pub fn read_once_start(&self) -> (r: ReadOnce)
        ensures
            r == ReadOnce::Trigger(
                write_op(
                    REG_CTRL_MEAS,
                    (Config { mode: Mode::Forced, ..self.configuration() }).ctrl_meas_value(),
                ),
            ),
    {
        let mut meas_reg = CtrlMeasReg(0);
        meas_reg.set_osrs_t(self.config.osrs_t);
        meas_reg.set_osrs_p(self.config.osrs_p);
        meas_reg.set_mode(Mode::Forced);
        ReadOnce::Trigger(Self::write_reg_op(REG_CTRL_MEAS, meas_reg.0))
    }
}

/// A forced measurement reads the data burst only right after a status read
/// that found the conversion over; it reports a measurement only as the
/// value of that burst; a bus failure ends it with the failing step's error.
pub proof fn lemma_read_once_steps(s: ReadOnce, o: Outcome)
    requires
        s.accepts(o),
    ensures
        s.after(o) is Fetch ==> s is Poll && (o matches Outcome::Data(v) && StatusReg(
            v@[0],
        ).measuring_bit() == 0),
        s.after(o) is Pause ==> s is Poll && (o matches Outcome::Data(v) && StatusReg(
            v@[0],
        ).measuring_bit() == 1),
        s.after(o) matches ReadOnce::Done(Ok(m)) ==> s is Fetch && (o matches Outcome::Data(v)
            && m == burst_measurement(v@)),
        o is Failed ==> s.after(o) == ReadOnce::Done(
            Err(s.spec_action()->Bus_0.failure()),
        ),
        s is Fetch ==> s.after(o) is Done,
{
    if s is Poll {
        if let Outcome::Data(v) = o {
            let b = v@[0];
            assert((b >> 3u8) & 1 == 0 || (b >> 3u8) & 1 == 1) by (bit_vector);
        }
    }
}

/// Applying a configuration writes, in this order, `ctrl_hum` (SPI address
/// `0x72`), `config` (`0x75`) and `ctrl_meas` (`0x74`), each with the byte
/// that encodes that same configuration (see `lemma_config_register_bytes`).
pub proof fn lemma_apply_config_writes(c: Config)
    ensures
        config_ops(c) == seq![
            BusOp::Write { addr: 0x72, val: c.ctrl_hum_value() },
            BusOp::Write { addr: 0x75, val: c.config_value() },
            BusOp::Write { addr: 0x74, val: c.ctrl_meas_value() },
        ],
{
    assert(0xF2u8 & 0x7F == 0x72 && 0xF5u8 & 0x7F == 0x75 && 0xF4u8 & 0x7F == 0x74)
        by (bit_vector);
}

/// Initialisation writes the reset command, waits 10 ms, reads the 26 and
/// 16 trimming bytes at `0x88` and `0xE1`, then applies the handle's own
/// configuration, mode included.
pub proof fn lemma_init_writes(c: Config)
    ensures
        init_ops(c) == seq![
            BusOp::Write { addr: 0x60, val: 0xB6 },
            BusOp::Delay { ms: 10 },
            BusOp::Read { addr: 0x88, len: 26 },
            BusOp::Read { addr: 0xE1, len: 16 },
            BusOp::Write { addr: 0x72, val: c.ctrl_hum_value() },
            BusOp::Write { addr: 0x75, val: c.config_value() },
            BusOp::Write { addr: 0x74, val: c.ctrl_meas_value() },
        ],
        init_ops(c).subrange(4, 7) == config_ops(c),
{
    lemma_apply_config_writes(c);
    assert(0xE0u8 & 0x7F == 0x60 && 0x88u8 | 0x80 == 0x88 && 0xE1u8 | 0x80 == 0xE1)
        by (bit_vector);
    assert(init_ops(c) =~= seq![
        BusOp::Write { addr: 0x60, val: 0xB6 },
        BusOp::Delay { ms: 10 },
        BusOp::Read { addr: 0x88, len: 26 },
        BusOp::Read { addr: 0xE1, len: 16 },
        BusOp::Write { addr: 0x72, val: c.ctrl_hum_value() },
        BusOp::Write { addr: 0x75, val: c.config_value() },
        BusOp::Write { addr: 0x74, val: c.ctrl_meas_value() },
    ]);
    assert(init_ops(c).subrange(4, 7) =~= config_ops(c));
}

/// The forced-mode trigger writes `ctrl_meas` (`0x74`) with the configured
/// oversampling codes and mode `01`, whatever mode the handle holds.
pub proof fn lemma_forced_trigger_write(c: Config)
    ensures
        write_op(REG_CTRL_MEAS, (Config { mode: Mode::Forced, ..c }).ctrl_meas_value())
            == (BusOp::Write {
            addr: 0x74,
            val: ((match c.osrs_t {
                OsrsT::Skipped => 0int,
                OsrsT::X1 => 1,
                OsrsT::X2 => 2,
                OsrsT::X4 => 3,
                OsrsT::X8 => 4,
                OsrsT::X16 => 5,
            }) * 32 + (match c.osrs_p {
                OsrsP::Skipped => 0int,
                OsrsP::X1 => 1,
                OsrsP::X2 => 2,
                OsrsP::X4 => 3,
                OsrsP::X8 => 4,
                OsrsP::X16 => 5,
            }) * 4 + 1) as u8,
        }),
{
    crate::regs::lemma_config_register_bytes(Config { mode: Mode::Forced, ..c });
    assert(0xF4u8 & 0x7F == 0x74) by (bit_vector);
}

/// Each state of a forced measurement asks for its own step: the trigger
/// state performs exactly the write it holds, polling reads one status byte
/// at `0xF3`, fetching reads the eight data bytes at `0xF7`.
pub proof fn lemma_read_once_actions(op: BusOp, r: Result<MeasurementData, Error>)
    ensures
        ReadOnce::Trigger(op).spec_action() == ReadOnceAction::Bus(op),
        ReadOnce::Poll.spec_action() == ReadOnceAction::Bus((BusOp::Read { addr: 0xF3, len: 1 })),
        ReadOnce::Pause.spec_action() == ReadOnceAction::Yield,
        ReadOnce::Fetch.spec_action() == ReadOnceAction::Bus((BusOp::Read { addr: 0xF7, len: 8 })),
        ReadOnce::Done(r).spec_action() == ReadOnceAction::Finished,
{
    assert(0xF3u8 | 0x80 == 0xF3 && 0xF7u8 | 0x80 == 0xF7) by (bit_vector);
}

/// After a status read, a forced measurement fetches the data exactly when
/// bit 3 of the status byte (conversion running) is clear and waits exactly
/// when it is set, whatever the other bits hold; a failed status read ends
/// it with `Spi(Read)`.  A completed trigger and a completed wait both lead
/// to a status read.
pub proof fn lemma_read_once_poll_decision(o: Outcome, op: BusOp)
    requires
        ReadOnce::Poll.accepts(o),
    ensures
        o matches Outcome::Data(v) ==> ReadOnce::Poll.after(o) == (if v@[0] & 0x08 == 0 {
            ReadOnce::Fetch
        } else {
            ReadOnce::Pause
        }),
        o is Failed ==> ReadOnce::Poll.after(o) == ReadOnce::Done(
            Err(Error::Spi(SpiError::Read)),
        ),
        ReadOnce::Trigger(op).after(Outcome::Done) == ReadOnce::Poll,
        ReadOnce::Pause.after(Outcome::Done) == ReadOnce::Poll,
{
    if let Outcome::Data(v) = o {
        crate::regs::lemma_status_flags_are_single_bits(v@[0]);
    }
}

} // verus!
