use vstd::prelude::*;

verus! {

/// Writing `0xB6` here performs a soft reset.
pub const REG_RESET: u8 = 0xE0;
/// Chip identification number (`0x60` on a BME280).
pub const REG_CHIP_ID: u8 = 0xD0;
/// `ctrl_hum`: humidity oversampling.
pub const REG_CTRL_HUM: u8 = 0xF2;
/// `status`: measuring / im_update flags.
pub const REG_STATUS: u8 = 0xF3;
/// `ctrl_meas`: temperature and pressure oversampling, power mode.
pub const REG_CTRL_MEAS: u8 = 0xF4;
/// `config`: standby time, IIR filter, 3-wire SPI.
pub const REG_CONFIG: u8 = 0xF5;

/// First register of the burst that holds pressure, temperature and humidity.
pub const REG_ALLDATA_START: u8 = 0xF7;

pub const REG_PRESS_MSB: u8 = 0xF7;
pub const REG_PRESS_LSB: u8 = 0xF8;
pub const REG_PRESS_XLSB: u8 = 0xF9;

pub const REG_TEMP_MSB: u8 = 0xFA;
pub const REG_TEMP_LSB: u8 = 0xFB;
pub const REG_TEMP_XLSB: u8 = 0xFC;

pub const REG_HUMI_MSB: u8 = 0xFD;
pub const REG_HUMI_LSB: u8 = 0xFE;

/// First register of the temperature/pressure trimming block (`0x88..=0xA1`).
pub const CALIB1_TEMP_START: u8 = 0x88;
/// Length of the temperature/pressure trimming block.
pub const CALIB1_TEMP_LEN: u8 = 26;

/// First register of the humidity trimming block.
pub const CALIB2_HUM_START: u8 = 0xE1;
/// Number of humidity trimming registers the datasheet defines.
pub const CALIB_HUM_LEN: u8 = 7;

/// The value that, written to `REG_RESET`, resets the device.
pub const RESET_COMMAND: u8 = 0xB6;

/// Inactive duration between two measurements in normal mode (`t_sb`).
#[derive(Debug, PartialEq, Eq, Structural, PartialOrd, Copy, Clone)]
pub enum TsbMode {
    SB0p5,
    SB62p5,
    SB125,
    SB250,
    SB500,
    SB1000,
    SB2000,
    SB4000,
}

impl TsbMode {
    /// The 3-bit register field value that selects this standby time.
    pub open spec fn bits(self) -> u8 {
        match self {
            TsbMode::SB0p5 => 0,
            TsbMode::SB62p5 => 1,
            TsbMode::SB125 => 2,
            TsbMode::SB250 => 3,
            TsbMode::SB500 => 4,
            TsbMode::SB1000 => 5,
            TsbMode::SB2000 => 6,
            TsbMode::SB4000 => 7,
        }
    }

    /// The standby time a raw field value selects; values above 7 read as the longest.
    pub open spec fn from_bits(v: u8) -> TsbMode {
        if v == 0 {
            TsbMode::SB0p5
        } else if v == 1 {
            TsbMode::SB62p5
        } else if v == 2 {
            TsbMode::SB125
        } else if v == 3 {
            TsbMode::SB250
        } else if v == 4 {
            TsbMode::SB500
        } else if v == 5 {
            TsbMode::SB1000
        } else if v == 6 {
            TsbMode::SB2000
        } else {
            TsbMode::SB4000
        }
    }
}

impl From<u8> for TsbMode {
    fn from(value: u8) -> (r: Self) {
        match value {
            0b000 => TsbMode::SB0p5,
            0b001 => TsbMode::SB62p5,
            0b010 => TsbMode::SB125,
            0b011 => TsbMode::SB250,
            0b100 => TsbMode::SB500,
            0b101 => TsbMode::SB1000,
            0b110 => TsbMode::SB2000,
            0b111 => TsbMode::SB4000,
            _ => TsbMode::SB4000,
        }
    }
}

impl vstd::std_specs::convert::FromSpecImpl<u8> for TsbMode {
    open spec fn obeys_from_spec() -> bool {
        true
    }

    open spec fn from_spec(v: u8) -> TsbMode {
        TsbMode::from_bits(v)
    }
}

impl From<TsbMode> for u8 {
    fn from(value: TsbMode) -> (r: Self) {
        match value {
            TsbMode::SB0p5 => 0b000,
            TsbMode::SB62p5 => 0b001,
            TsbMode::SB125 => 0b010,
            TsbMode::SB250 => 0b011,
            TsbMode::SB500 => 0b100,
            TsbMode::SB1000 => 0b101,
            TsbMode::SB2000 => 0b110,
            TsbMode::SB4000 => 0b111,
        }
    }
}

impl vstd::std_specs::convert::FromSpecImpl<TsbMode> for u8 {
    open spec fn obeys_from_spec() -> bool {
        true
    }

    open spec fn from_spec(v: TsbMode) -> u8 {
        v.bits()
    }
}

/// Encoding a standby time and decoding the field value gives it back, and
/// the encoding fits the 3-bit field.
pub proof fn lemma_tsb_mode_round_trip(x: TsbMode)
    ensures
        x.bits() < 8,
        TsbMode::from_bits(x.bits()) == x,
{
}

/// Time constant of the IIR filter (`filter`).
#[derive(Debug, PartialEq, Eq, Structural, PartialOrd, Copy, Clone)]
pub enum FilterMode {
    Off,
    F2,
    F4,
    F8,
    F16,
}

impl FilterMode {
    /// The 3-bit register field value of this filter setting.
    pub open spec fn bits(self) -> u8 {
        match self {
            FilterMode::Off => 0,
            FilterMode::F2 => 1,
            FilterMode::F4 => 2,
            FilterMode::F8 => 3,
            FilterMode::F16 => 4,
        }
    }

    /// The filter setting a raw field value selects; 4 and above read as `F16`.
    pub open spec fn from_bits(v: u8) -> FilterMode {
        if v == 0 {
            FilterMode::Off
        } else if v == 1 {
            FilterMode::F2
        } else if v == 2 {
            FilterMode::F4
        } else if v == 3 {
            FilterMode::F8
        } else {
            FilterMode::F16
        }
    }
}

impl From<u8> for FilterMode {
    fn from(value: u8) -> (r: Self) {
        match value {
            0b000 => FilterMode::Off,
            0b001 => FilterMode::F2,
            0b010 => FilterMode::F4,
            0b011 => FilterMode::F8,
            _ => FilterMode::F16,
        }
    }
}

impl vstd::std_specs::convert::FromSpecImpl<u8> for FilterMode {
    open spec fn obeys_from_spec() -> bool {
        true
    }

    open spec fn from_spec(v: u8) -> FilterMode {
        FilterMode::from_bits(v)
    }
}

impl From<FilterMode> for u8 {
    fn from(value: FilterMode) -> (r: Self) {
        match value {
            FilterMode::Off => 0b000,
            FilterMode::F2 => 0b001,
            FilterMode::F4 => 0b010,
            FilterMode::F8 => 0b011,
            FilterMode::F16 => 0b100,
        }
    }
}

impl vstd::std_specs::convert::FromSpecImpl<FilterMode> for u8 {
    open spec fn obeys_from_spec() -> bool {
        true
    }

    open spec fn from_spec(v: FilterMode) -> u8 {
        v.bits()
    }
}

/// Encoding a filter setting and decoding the field value gives it back,
/// and the encoding fits the 3-bit field.
pub proof fn lemma_filter_mode_round_trip(x: FilterMode)
    ensures
        x.bits() < 8,
        FilterMode::from_bits(x.bits()) == x,
{
}

/// Power mode of the device (`mode` in `ctrl_meas`).
#[derive(Debug, PartialEq, Eq, Structural, PartialOrd, Copy, Clone)]
pub enum Mode {
    Sleep,
    Forced,
    Normal,
}

impl Mode {
    /// The 2-bit register field value of this mode.
    pub open spec fn bits(self) -> u8 {
        match self {
            Mode::Sleep => 0,
            Mode::Forced => 1,
            Mode::Normal => 3,
        }
    }

    /// The mode a raw field value selects: both `01` and `10` mean forced
    /// mode, and anything outside two bits reads as sleep.
    pub open spec fn from_bits(v: u8) -> Mode {
        if v == 0 {
            Mode::Sleep
        } else if v == 1 || v == 2 {
            Mode::Forced
        } else if v == 3 {
            Mode::Normal
        } else {
            Mode::Sleep
        }
    }
}

impl From<Mode> for u8 {
    fn from(value: Mode) -> (r: Self) {
        match value {
            Mode::Sleep => 0b00,
            Mode::Forced => 0b01,
            Mode::Normal => 0b11,
        }
    }
}

impl vstd::std_specs::convert::FromSpecImpl<Mode> for u8 {
    open spec fn obeys_from_spec() -> bool {
        true
    }

    open spec fn from_spec(v: Mode) -> u8 {
        v.bits()
    }
}

impl From<u8> for Mode {
    fn from(value: u8) -> (r: Self) {
        match value {
            0b00 => Mode::Sleep,
            0b01 | 0b10 => Mode::Forced,
            0b11 => Mode::Normal,
            _ => Mode::Sleep,
        }
    }
}

impl vstd::std_specs::convert::FromSpecImpl<u8> for Mode {
    open spec fn obeys_from_spec() -> bool {
        true
    }

    open spec fn from_spec(v: u8) -> Mode {
        Mode::from_bits(v)
    }
}

/// Encoding a power mode and decoding the field value gives it back, and
/// the encoding fits the 2-bit field.
pub proof fn lemma_mode_round_trip(x: Mode)
    ensures
        x.bits() < 4,
        Mode::from_bits(x.bits()) == x,
{
}

/// Oversampling of the temperature measurement (`osrs_t`).
#[derive(Debug, PartialEq, Eq, Structural, PartialOrd, Copy, Clone)]
pub enum OsrsT {
    Skipped,
    X1,
    X2,
    X4,
    X8,
    X16,
}

impl OsrsT {
    /// The 3-bit register field value of this setting.
    pub open spec fn bits(self) -> u8 {
        match self {
            OsrsT::Skipped => 0,
            OsrsT::X1 => 1,
            OsrsT::X2 => 2,
            OsrsT::X4 => 3,
            OsrsT::X8 => 4,
            OsrsT::X16 => 5,
        }
    }

    /// The setting a raw field value selects; 5 and everything above it read as `X16`.
    pub open spec fn from_bits(v: u8) -> OsrsT {
        if v == 0 {
            OsrsT::Skipped
        } else if v == 1 {
            OsrsT::X1
        } else if v == 2 {
            OsrsT::X2
        } else if v == 3 {
            OsrsT::X4
        } else if v == 4 {
            OsrsT::X8
        } else {
            OsrsT::X16
        }
    }
}

impl From<OsrsT> for u8 {
    fn from(value: OsrsT) -> (r: Self) {
        match value {
            OsrsT::Skipped => 0b000,
            OsrsT::X1 => 0b001,
            OsrsT::X2 => 0b010,
            OsrsT::X4 => 0b011,
            OsrsT::X8 => 0b100,
            OsrsT::X16 => 0b101,
        }
    }
}

impl vstd::std_specs::convert::FromSpecImpl<OsrsT> for u8 {
    open spec fn obeys_from_spec() -> bool {
        true
    }

    open spec fn from_spec(v: OsrsT) -> u8 {
        v.bits()
    }
}

impl From<u8> for OsrsT {
    fn from(value: u8) -> (r: Self) {
        match value {
            0b000 => OsrsT::Skipped,
            0b001 => OsrsT::X1,
            0b010 => OsrsT::X2,
            0b011 => OsrsT::X4,
            0b100 => OsrsT::X8,
            _ => OsrsT::X16,
        }
    }
}

impl vstd::std_specs::convert::FromSpecImpl<u8> for OsrsT {
    open spec fn obeys_from_spec() -> bool {
        true
    }

    open spec fn from_spec(v: u8) -> OsrsT {
        OsrsT::from_bits(v)
    }
}

/// Encoding a setting and decoding the field value gives the setting back,
/// and the encoding fits the register's 3-bit field.
pub proof fn lemma_osrst_round_trip(x: OsrsT)
    ensures
        x.bits() < 8,
        OsrsT::from_bits(x.bits()) == x,
{
}

/// Oversampling of the pressure measurement (`osrs_p`).
#[derive(Debug, PartialEq, Eq, Structural, PartialOrd, Copy, Clone)]
pub enum OsrsP {
    Skipped,
    X1,
    X2,
    X4,
    X8,
    X16,
}

impl OsrsP {
    /// The 3-bit register field value of this setting.
    pub open spec fn bits(self) -> u8 {
        match self {
            OsrsP::Skipped => 0,
            OsrsP::X1 => 1,
            OsrsP::X2 => 2,
            OsrsP::X4 => 3,
            OsrsP::X8 => 4,
            OsrsP::X16 => 5,
        }
    }

    /// The setting a raw field value selects; 5 and everything above it read as `X16`.
    pub open spec fn from_bits(v: u8) -> OsrsP {
        if v == 0 {
            OsrsP::Skipped
        } else if v == 1 {
            OsrsP::X1
        } else if v == 2 {
            OsrsP::X2
        } else if v == 3 {
            OsrsP::X4
        } else if v == 4 {
            OsrsP::X8
        } else {
            OsrsP::X16
        }
    }
}

impl From<OsrsP> for u8 {
    fn from(value: OsrsP) -> (r: Self) {
        match value {
            OsrsP::Skipped => 0b000,
            OsrsP::X1 => 0b001,
            OsrsP::X2 => 0b010,
            OsrsP::X4 => 0b011,
            OsrsP::X8 => 0b100,
            OsrsP::X16 => 0b101,
        }
    }
}

impl vstd::std_specs::convert::FromSpecImpl<OsrsP> for u8 {
    open spec fn obeys_from_spec() -> bool {
        true
    }

    open spec fn from_spec(v: OsrsP) -> u8 {
        v.bits()
    }
}

impl From<u8> for OsrsP {
    fn from(value: u8) -> (r: Self) {
        match value {
            0b000 => OsrsP::Skipped,
            0b001 => OsrsP::X1,
            0b010 => OsrsP::X2,
            0b011 => OsrsP::X4,
            0b100 => OsrsP::X8,
            _ => OsrsP::X16,
        }
    }
}

impl vstd::std_specs::convert::FromSpecImpl<u8> for OsrsP {
    open spec fn obeys_from_spec() -> bool {
        true
    }

    open spec fn from_spec(v: u8) -> OsrsP {
        OsrsP::from_bits(v)
    }
}

/// Encoding a setting and decoding the field value gives the setting back,
/// and the encoding fits the register's 3-bit field.
pub proof fn lemma_osrsp_round_trip(x: OsrsP)
    ensures
        x.bits() < 8,
        OsrsP::from_bits(x.bits()) == x,
{
}

/// Oversampling of the humidity measurement (`osrs_h`).
#[derive(Debug, PartialEq, Eq, Structural, PartialOrd, Copy, Clone)]
pub enum OsrsH {
    Skipped,
    X1,
    X2,
    X4,
    X8,
    X16,
}

impl OsrsH {
    /// The 3-bit register field value of this setting.
    pub open spec fn bits(self) -> u8 {
        match self {
            OsrsH::Skipped => 0,
            OsrsH::X1 => 1,
            OsrsH::X2 => 2,
            OsrsH::X4 => 3,
            OsrsH::X8 => 4,
            OsrsH::X16 => 5,
        }
    }

    /// The setting a raw field value selects; 5 and everything above it read as `X16`.
    pub open spec fn from_bits(v: u8) -> OsrsH {
        if v == 0 {
            OsrsH::Skipped
        } else if v == 1 {
            OsrsH::X1
        } else if v == 2 {
            OsrsH::X2
        } else if v == 3 {
            OsrsH::X4
        } else if v == 4 {
            OsrsH::X8
        } else {
            OsrsH::X16
        }
    }
}

impl From<OsrsH> for u8 {
    fn from(value: OsrsH) -> (r: Self) {
        match value {
            OsrsH::Skipped => 0b000,
            OsrsH::X1 => 0b001,
            OsrsH::X2 => 0b010,
            OsrsH::X4 => 0b011,
            OsrsH::X8 => 0b100,
            OsrsH::X16 => 0b101,
        }
    }
}

impl vstd::std_specs::convert::FromSpecImpl<OsrsH> for u8 {
    open spec fn obeys_from_spec() -> bool {
        true
    }

    open spec fn from_spec(v: OsrsH) -> u8 {
        v.bits()
    }
}

impl From<u8> for OsrsH {
    fn from(value: u8) -> (r: Self) {
        match value {
            0b000 => OsrsH::Skipped,
            0b001 => OsrsH::X1,
            0b010 => OsrsH::X2,
            0b011 => OsrsH::X4,
            0b100 => OsrsH::X8,
            _ => OsrsH::X16,
        }
    }
}

impl vstd::std_specs::convert::FromSpecImpl<u8> for OsrsH {
    open spec fn obeys_from_spec() -> bool {
        true
    }

    open spec fn from_spec(v: u8) -> OsrsH {
        OsrsH::from_bits(v)
    }
}

/// Encoding a setting and decoding the field value gives the setting back,
/// and the encoding fits the register's 3-bit field.
pub proof fn lemma_osrsh_round_trip(x: OsrsH)
    ensures
        x.bits() < 8,
        OsrsH::from_bits(x.bits()) == x,
{
}

/// The sensor settings the driver writes to the device.
#[derive(Debug, PartialEq, Eq, Structural, PartialOrd, Copy, Clone)]
pub struct Config {
    pub mode: Mode,
    pub osrs_t: OsrsT,
    pub osrs_p: OsrsP,
    pub osrs_h: OsrsH,
    pub standby: TsbMode,
    pub filter: FilterMode,
    pub spi3w: bool,
}

impl Config {
    /// Sleep mode, single oversampling everywhere, 125 ms standby, no IIR
    /// filter and 4-wire SPI.
    pub open spec fn spec_default() -> Config {
        Config {
            mode: Mode::Sleep,
            osrs_t: OsrsT::X1,
            osrs_p: OsrsP::X1,
            osrs_h: OsrsH::X1,
            standby: TsbMode::SB125,
            filter: FilterMode::Off,
            spi3w: false,
        }
    }
}

impl Default for Config {
    fn default() -> (r: Self)
        ensures
            r == Config::spec_default(),
    {
        Self {
            mode: Mode::Sleep,
            osrs_t: OsrsT::X1,
            osrs_p: OsrsP::X1,
            osrs_h: OsrsH::X1,
            standby: TsbMode::SB125,
            filter: FilterMode::Off,
            spi3w: false,
        }
    }
}

impl Config {
    pub fn with_mode(self, mode: Mode) -> (r: Self)
        ensures
            r == (Config { mode, ..self }),
    {
        let mut c = self;
        c.mode = mode;
        c
    }

    pub fn with_osrs_t(self, osrs_t: OsrsT) -> (r: Self)
        ensures
            r == (Config { osrs_t, ..self }),
    {
        let mut c = self;
        c.osrs_t = osrs_t;
        c
    }

    pub fn with_osrs_p(self, osrs_p: OsrsP) -> (r: Self)
        ensures
            r == (Config { osrs_p, ..self }),
    {
        let mut c = self;
        c.osrs_p = osrs_p;
        c
    }

    pub fn with_osrs_h(self, osrs_h: OsrsH) -> (r: Self)
        ensures
            r == (Config { osrs_h, ..self }),
    {
        let mut c = self;
        c.osrs_h = osrs_h;
        c
    }

    pub fn with_standby(self, standby: TsbMode) -> (r: Self)
        ensures
            r == (Config { standby, ..self }),
    {
        let mut c = self;
        c.standby = standby;
        c
    }

    pub fn with_filter(self, filter: FilterMode) -> (r: Self)
        ensures
            r == (Config { filter, ..self }),
    {
        let mut c = self;
        c.filter = filter;
        c
    }

    pub fn with_spi3w(self, spi3w: bool) -> (r: Self)
        ensures
            r == (Config { spi3w, ..self }),
    {
        let mut c = self;
        c.spi3w = spi3w;
        c
    }
}

/// The `config` register (`0xF5`): `t_sb` in bits 7..5, `filter` in bits
/// 4..2, `spi3w_en` in bit 0.
#[derive(Debug, PartialEq, Eq, Structural, Copy, Clone)]
pub struct ConfigReg(pub u8);

impl ConfigReg {
    pub open spec fn t_sb_bits(self) -> u8 {
        (self.0 >> 5u8) & 7
    }

    pub open spec fn filter_bits(self) -> u8 {
        (self.0 >> 2u8) & 7
    }

    pub open spec fn spi3w_bit(self) -> u8 {
        self.0 & 1
    }

    /// The register after writing `v` into bits 7..5.
    pub open spec fn with_t_sb(self, v: TsbMode) -> ConfigReg {
        ConfigReg((self.0 & 0x1F) | (v.bits() << 5u8))
    }

    /// The register after writing `v` into bits 4..2.
    pub open spec fn with_filter(self, v: FilterMode) -> ConfigReg {
        ConfigReg((self.0 & 0xE3) | (v.bits() << 2u8))
    }

    /// The register after writing the low bit of `v` into bit 0.
    pub open spec fn with_spi3w_enable(self, v: u8) -> ConfigReg {
        ConfigReg((self.0 & 0xFE) | (v & 1))
    }

    pub fn t_sb(&self) -> (r: TsbMode)
        ensures
            r == TsbMode::from_bits(self.t_sb_bits()),
    {
        TsbMode::from((self.0 >> 5u8) & 0b111)
    }

    pub fn set_t_sb(&mut self, value: TsbMode)
        ensures
            *final(self) == old(self).with_t_sb(value),
    {
        let bits: u8 = u8::from(value);
        proof {
            lemma_tsb_mode_round_trip(value);
        }
        let old_raw: u8 = self.0;
        assert((bits << 5u8) & 0xE0 == bits << 5u8) by (bit_vector)
            requires
                bits < 8,
        ;
        self.0 = (old_raw & 0x1F) | ((bits << 5u8) & 0xE0);
    }

    pub fn filter(&self) -> (r: FilterMode)
        ensures
            r == FilterMode::from_bits(self.filter_bits()),
    {
        FilterMode::from((self.0 >> 2u8) & 0b111)
    }

    pub fn set_filter(&mut self, value: FilterMode)
        ensures
            *final(self) == old(self).with_filter(value),
    {
        let bits: u8 = u8::from(value);
        proof {
            lemma_filter_mode_round_trip(value);
        }
        let old_raw: u8 = self.0;
        assert((bits << 2u8) & 0x1C == bits << 2u8) by (bit_vector)
            requires
                bits < 8,
        ;
        self.0 = (old_raw & 0xE3) | ((bits << 2u8) & 0x1C);
    }

    pub fn spi3w_enable(&self) -> (r: u8)
        ensures
            r == self.spi3w_bit(),
    {
        self.0 & 1
    }

    pub fn set_spi3w_enable(&mut self, value: u8)
        ensures
            *final(self) == old(self).with_spi3w_enable(value),
    {
        self.0 = (self.0 & 0xFE) | (value & 1);
    }
}

/// Each field of the `config` register reads back what was last written to
/// it, and writing one field leaves the other two as they were.
pub proof fn lemma_config_reg_fields(r: ConfigReg, t: TsbMode, f: FilterMode, s: u8)
    ensures
        r.with_t_sb(t).t_sb_bits() == t.bits(),
        r.with_t_sb(t).filter_bits() == r.filter_bits(),
        r.with_t_sb(t).spi3w_bit() == r.spi3w_bit(),
        r.with_filter(f).filter_bits() == f.bits(),
        r.with_filter(f).t_sb_bits() == r.t_sb_bits(),
        r.with_filter(f).spi3w_bit() == r.spi3w_bit(),
        r.with_spi3w_enable(s).spi3w_bit() == s & 1,
        r.with_spi3w_enable(s).t_sb_bits() == r.t_sb_bits(),
        r.with_spi3w_enable(s).filter_bits() == r.filter_bits(),
{
    lemma_tsb_mode_round_trip(t);
    lemma_filter_mode_round_trip(f);
    let x = r.0;
    let tb = t.bits();
    let fb = f.bits();
    assert((((x & 0x1F) | (tb << 5u8)) >> 5u8) & 7 == tb && (((x & 0x1F) | (tb << 5u8)) >> 2u8)
        & 7 == (x >> 2u8) & 7 && ((x & 0x1F) | (tb << 5u8)) & 1 == x & 1) by (bit_vector)
        requires
            tb < 8,
    ;
    assert((((x & 0xE3) | (fb << 2u8)) >> 2u8) & 7 == fb && (((x & 0xE3) | (fb << 2u8)) >> 5u8)
        & 7 == (x >> 5u8) & 7 && ((x & 0xE3) | (fb << 2u8)) & 1 == x & 1) by (bit_vector)
        requires
            fb < 8,
    ;
    assert(((x & 0xFE) | (s & 1)) & 1 == s & 1 && (((x & 0xFE) | (s & 1)) >> 5u8) & 7 == (x
        >> 5u8) & 7 && (((x & 0xFE) | (s & 1)) >> 2u8) & 7 == (x >> 2u8) & 7) by (bit_vector);
}

/// The `ctrl_meas` register (`0xF4`): `osrs_t` in bits 7..5, `osrs_p` in
/// bits 4..2, `mode` in bits 1..0.
#[derive(Debug, PartialEq, Eq, Structural, Copy, Clone)]
pub struct CtrlMeasReg(pub u8);

impl CtrlMeasReg {
    pub open spec fn osrs_t_bits(self) -> u8 {
        (self.0 >> 5u8) & 7
    }

    pub open spec fn osrs_p_bits(self) -> u8 {
        (self.0 >> 2u8) & 7
    }

    pub open spec fn mode_bits(self) -> u8 {
        self.0 & 3
    }

    /// The register after writing `v` into bits 7..5.
    pub open spec fn with_osrs_t(self, v: OsrsT) -> CtrlMeasReg {
        CtrlMeasReg((self.0 & 0x1F) | (v.bits() << 5u8))
    }

    /// The register after writing `v` into bits 4..2.
    pub open spec fn with_osrs_p(self, v: OsrsP) -> CtrlMeasReg {
        CtrlMeasReg((self.0 & 0xE3) | (v.bits() << 2u8))
    }

    /// The register after writing `v` into bits 1..0.
    pub open spec fn with_mode(self, v: Mode) -> CtrlMeasReg {
        CtrlMeasReg((self.0 & 0xFC) | v.bits())
    }

    pub fn osrs_t(&self) -> (r: OsrsT)
        ensures
            r == OsrsT::from_bits(self.osrs_t_bits()),
    {
        OsrsT::from((self.0 >> 5u8) & 0b111)
    }

    pub fn set_osrs_t(&mut self, value: OsrsT)
        ensures
            *final(self) == old(self).with_osrs_t(value),
    {
        let bits: u8 = u8::from(value);
        proof {
            lemma_osrst_round_trip(value);
        }
        let old_raw: u8 = self.0;
        assert((bits << 5u8) & 0xE0 == bits << 5u8) by (bit_vector)
            requires
                bits < 8,
        ;
        self.0 = (old_raw & 0x1F) | ((bits << 5u8) & 0xE0);
    }

    pub fn osrs_p(&self) -> (r: OsrsP)
        ensures
            r == OsrsP::from_bits(self.osrs_p_bits()),
    {
        OsrsP::from((self.0 >> 2u8) & 0b111)
    }

    pub fn set_osrs_p(&mut self, value: OsrsP)
        ensures
            *final(self) == old(self).with_osrs_p(value),
    {
        let bits: u8 = u8::from(value);
        proof {
            lemma_osrsp_round_trip(value);
        }
        let old_raw: u8 = self.0;
        assert((bits << 2u8) & 0x1C == bits << 2u8) by (bit_vector)
            requires
                bits < 8,
        ;
        self.0 = (old_raw & 0xE3) | ((bits << 2u8) & 0x1C);
    }

    pub fn mode(&self) -> (r: Mode)
        ensures
            r == Mode::from_bits(self.mode_bits()),
    {
        Mode::from(self.0 & 0b11)
    }

    pub fn set_mode(&mut self, value: Mode)
        ensures
            *final(self) == old(self).with_mode(value),
    {
        let bits: u8 = u8::from(value);
        proof {
            lemma_mode_round_trip(value);
        }
        let old_raw: u8 = self.0;
        assert(bits & 3 == bits) by (bit_vector)
            requires
                bits < 4,
        ;
        self.0 = (old_raw & 0xFC) | (bits & 0b11);
    }
}

/// Each field of the `ctrl_meas` register reads back what was last written
/// to it, and writing one field leaves the other two as they were.
pub proof fn lemma_ctrl_meas_reg_fields(r: CtrlMeasReg, t: OsrsT, p: OsrsP, m: Mode)
    ensures
        r.with_osrs_t(t).osrs_t_bits() == t.bits(),
        r.with_osrs_t(t).osrs_p_bits() == r.osrs_p_bits(),
        r.with_osrs_t(t).mode_bits() == r.mode_bits(),
        r.with_osrs_p(p).osrs_p_bits() == p.bits(),
        r.with_osrs_p(p).osrs_t_bits() == r.osrs_t_bits(),
        r.with_osrs_p(p).mode_bits() == r.mode_bits(),
        r.with_mode(m).mode_bits() == m.bits(),
        r.with_mode(m).osrs_t_bits() == r.osrs_t_bits(),
        r.with_mode(m).osrs_p_bits() == r.osrs_p_bits(),
{
    lemma_osrst_round_trip(t);
    lemma_osrsp_round_trip(p);
    lemma_mode_round_trip(m);
    let x = r.0;
    let tb = t.bits();
    let pb = p.bits();
    let mb = m.bits();
    assert((((x & 0x1F) | (tb << 5u8)) >> 5u8) & 7 == tb && (((x & 0x1F) | (tb << 5u8)) >> 2u8)
        & 7 == (x >> 2u8) & 7 && ((x & 0x1F) | (tb << 5u8)) & 3 == x & 3) by (bit_vector)
        requires
            tb < 8,
    ;
    assert((((x & 0xE3) | (pb << 2u8)) >> 2u8) & 7 == pb && (((x & 0xE3) | (pb << 2u8)) >> 5u8)
        & 7 == (x >> 5u8) & 7 && ((x & 0xE3) | (pb << 2u8)) & 3 == x & 3) by (bit_vector)
        requires
            pb < 8,
    ;
    assert(((x & 0xFC) | mb) & 3 == mb && (((x & 0xFC) | mb) >> 5u8) & 7 == (x >> 5u8) & 7 && (((x
        & 0xFC) | mb) >> 2u8) & 7 == (x >> 2u8) & 7) by (bit_vector)
        requires
            mb < 4,
    ;
}

/// The `ctrl_hum` register (`0xF2`): `osrs_h` in bits 2..0.
#[derive(Debug, PartialEq, Eq, Structural, Copy, Clone)]
pub struct CtrlHumReg(pub u8);

impl CtrlHumReg {
    pub open spec fn osrs_h_bits(self) -> u8 {
        self.0 & 7
    }

    /// The register after writing `v` into bits 2..0.
    pub open spec fn with_osrs_h(self, v: OsrsH) -> CtrlHumReg {
        CtrlHumReg((self.0 & 0xF8) | v.bits())
    }

    pub fn osrs_h(&self) -> (r: OsrsH)
        ensures
            r == OsrsH::from_bits(self.osrs_h_bits()),
    {
        OsrsH::from(self.0 & 0b111)
    }

    pub fn set_osrs_h(&mut self, value: OsrsH)
        ensures
            *final(self) == old(self).with_osrs_h(value),
    {
        let bits: u8 = u8::from(value);
        proof {
            lemma_osrsh_round_trip(value);
        }
        let old_raw: u8 = self.0;
        assert(bits & 7 == bits) by (bit_vector)
            requires
                bits < 8,
        ;
        self.0 = (old_raw & 0xF8) | (bits & 0b111);
    }
}

/// The humidity oversampling field reads back what was written to it, and
/// writing it leaves bits 7..3 as they were.
pub proof fn lemma_ctrl_hum_reg_fields(r: CtrlHumReg, h: OsrsH)
    ensures
        r.with_osrs_h(h).osrs_h_bits() == h.bits(),
        r.with_osrs_h(h).0 & 0xF8 == r.0 & 0xF8,
{
    lemma_osrsh_round_trip(h);
    let x = r.0;
    let hb = h.bits();
    assert(((x & 0xF8) | hb) & 7 == hb && ((x & 0xF8) | hb) & 0xF8 == x & 0xF8) by (bit_vector)
        requires
            hb < 8,
    ;
}

/// The `status` register (`0xF3`): `measuring` in bit 3, `im_update` in bit 0.
#[derive(Debug, PartialEq, Eq, Structural, Copy, Clone)]
pub struct StatusReg(pub u8);

impl StatusReg {
    pub open spec fn measuring_bit(self) -> u8 {
        (self.0 >> 3u8) & 1
    }

    pub open spec fn im_update_bit(self) -> u8 {
        self.0 & 1
    }

    /// 1 while a conversion is running, 0 when its results are in the data registers.
    pub fn measuring(&self) -> (r: u8)
        ensures
            r == self.measuring_bit(),
    {
        (self.0 >> 3u8) & 1
    }

    /// 1 while the trimming parameters are being copied from NVM.
    pub fn im_update(&self) -> (r: u8)
        ensures
            r == self.im_update_bit(),
    {
        self.0 & 1
    }
}

/// The `reset` register (`0xE0`), write-only.
#[derive(Debug, Copy, Clone)]
pub struct Reset(pub u8);

impl Reset {
    pub fn set_reset(&mut self, value: u8)
        ensures
            final(self).0 == value,
    {
        self.0 = value;
    }
}

/// The `id` register (`0xD0`), read-only.
#[derive(Debug, Copy, Clone)]
pub struct ID(pub u8);

impl ID {
    pub fn id(&self) -> (r: u8)
        ensures
            r == self.0,
    {
        self.0
    }
}

impl Config {
    /// What the driver writes to `ctrl_hum` for these settings.
    pub open spec fn ctrl_hum_value(self) -> u8 {
        CtrlHumReg(0).with_osrs_h(self.osrs_h).0
    }

    /// What the driver writes to `config` for these settings.
    pub open spec fn config_value(self) -> u8 {
        ConfigReg(0).with_t_sb(self.standby).with_filter(self.filter).with_spi3w_enable(
            if self.spi3w {
                1u8
            } else {
                0u8
            },
        ).0
    }

    /// What the driver writes to `ctrl_meas` for these settings.
    pub open spec fn ctrl_meas_value(self) -> u8 {
        CtrlMeasReg(0).with_osrs_t(self.osrs_t).with_osrs_p(self.osrs_p).with_mode(self.mode).0
    }
}

/// The three register values written for a configuration hold exactly that
/// configuration: each field decodes back to the setting it came from, the
/// unused bits are zero, and the values are the fields packed side by side.
pub proof fn lemma_config_encoding_round_trip(c: Config)
    ensures
        OsrsH::from_bits(CtrlHumReg(c.ctrl_hum_value()).osrs_h_bits()) == c.osrs_h,
        TsbMode::from_bits(ConfigReg(c.config_value()).t_sb_bits()) == c.standby,
        FilterMode::from_bits(ConfigReg(c.config_value()).filter_bits()) == c.filter,
        (ConfigReg(c.config_value()).spi3w_bit() == 1) == c.spi3w,
        OsrsT::from_bits(CtrlMeasReg(c.ctrl_meas_value()).osrs_t_bits()) == c.osrs_t,
        OsrsP::from_bits(CtrlMeasReg(c.ctrl_meas_value()).osrs_p_bits()) == c.osrs_p,
        Mode::from_bits(CtrlMeasReg(c.ctrl_meas_value()).mode_bits()) == c.mode,
        c.ctrl_hum_value() == c.osrs_h.bits(),
        c.config_value() == c.standby.bits() * 32 + c.filter.bits() * 4 + (if c.spi3w {
            1int
        } else {
            0int
        }),
        c.ctrl_meas_value() == c.osrs_t.bits() * 32 + c.osrs_p.bits() * 4 + c.mode.bits(),
{
    lemma_tsb_mode_round_trip(c.standby);
    lemma_filter_mode_round_trip(c.filter);
    lemma_mode_round_trip(c.mode);
    lemma_osrst_round_trip(c.osrs_t);
    lemma_osrsp_round_trip(c.osrs_p);
    lemma_osrsh_round_trip(c.osrs_h);
    let sb: u8 = if c.spi3w {
        1u8
    } else {
        0u8
    };
    let tb = c.standby.bits();
    let fb = c.filter.bits();
    let ob = c.osrs_t.bits();
    let pb = c.osrs_p.bits();
    let mb = c.mode.bits();
    let hb = c.osrs_h.bits();
    let z: u8 = 0;
    assert(((z & 0xF8) | hb) == hb && hb & 7 == hb) by (bit_vector)
        requires
            z == 0,
            hb < 8,
    ;
    assert({
        let v = (((((z & 0x1F) | (tb << 5u8)) & 0xE3) | (fb << 2u8)) & 0xFE) | (sb & 1);
        &&& (v >> 5u8) & 7 == tb
        &&& (v >> 2u8) & 7 == fb
        &&& v & 1 == sb
        &&& v == tb * 32 + fb * 4 + sb
    }) by (bit_vector)
        requires
            tb < 8,
            fb < 8,
            sb < 2,
            z == 0,
    ;
    assert({
        let v = (((((z & 0x1F) | (ob << 5u8)) & 0xE3) | (pb << 2u8)) & 0xFC) | mb;
        &&& (v >> 5u8) & 7 == ob
        &&& (v >> 2u8) & 7 == pb
        &&& v & 3 == mb
        &&& v == ob * 32 + pb * 4 + mb
    }) by (bit_vector)
        requires
            ob < 8,
            pb < 8,
            mb < 4,
            z == 0,
    ;
}

/// The eight data registers `0xF7..=0xFE` read in one burst, little-endian:
/// pressure in bits 23..0, temperature in bits 47..24, humidity in bits 63..48.
#[derive(Debug, PartialEq, Eq, Structural, Copy, Clone)]
pub struct MeasurementData(pub u64);

impl MeasurementData {
    pub open spec fn p_msb_bits(self) -> u8 {
        (self.0 & 0xFF) as u8
    }

    pub open spec fn p_lsb_bits(self) -> u8 {
        ((self.0 >> 8u64) & 0xFF) as u8
    }

    pub open spec fn p_xlsb_bits(self) -> u8 {
        ((self.0 >> 20u64) & 0xF) as u8
    }

    pub open spec fn t_msb_bits(self) -> u8 {
        ((self.0 >> 24u64) & 0xFF) as u8
    }

    pub open spec fn t_lsb_bits(self) -> u8 {
        ((self.0 >> 32u64) & 0xFF) as u8
    }

    pub open spec fn t_xlsb_bits(self) -> u8 {
        ((self.0 >> 44u64) & 0xF) as u8
    }

    pub open spec fn h_msb_bits(self) -> u8 {
        ((self.0 >> 48u64) & 0xFF) as u8
    }

    pub open spec fn h_lsb_bits(self) -> u8 {
        ((self.0 >> 56u64) & 0xFF) as u8
    }

    /// The 20-bit raw pressure reading.
    pub open spec fn raw_pressure(self) -> int {
        self.p_msb_bits() * 4096 + self.p_lsb_bits() * 16 + self.p_xlsb_bits()
    }

    /// The 20-bit raw temperature reading.
    pub open spec fn raw_temperature(self) -> int {
        self.t_msb_bits() * 4096 + self.t_lsb_bits() * 16 + self.t_xlsb_bits()
    }

    /// The 16-bit raw humidity reading.
    pub open spec fn raw_humidity(self) -> int {
        self.h_msb_bits() * 256 + self.h_lsb_bits()
    }

    pub fn p_msb(&self) -> (r: u8)
        ensures
            r == self.p_msb_bits(),
    {
        (self.0 & 0xFF) as u8
    }

    pub fn p_lsb(&self) -> (r: u8)
        ensures
            r == self.p_lsb_bits(),
    {
        ((self.0 >> 8u64) & 0xFF) as u8
    }

    pub fn p_xlsb(&self) -> (r: u8)
        ensures
            r == self.p_xlsb_bits(),
            r < 16,
    {
        let v: u64 = self.0;
        assert((v >> 20u64) & 0xF < 16) by (bit_vector);
        ((v >> 20u64) & 0xF) as u8
    }

    pub fn t_msb(&self) -> (r: u8)
        ensures
            r == self.t_msb_bits(),
    {
        ((self.0 >> 24u64) & 0xFF) as u8
    }

    pub fn t_lsb(&self) -> (r: u8)
        ensures
            r == self.t_lsb_bits(),
    {
        ((self.0 >> 32u64) & 0xFF) as u8
    }

    pub fn t_xlsb(&self) -> (r: u8)
        ensures
            r == self.t_xlsb_bits(),
            r < 16,
    {
        let v: u64 = self.0;
        assert((v >> 44u64) & 0xF < 16) by (bit_vector);
        ((v >> 44u64) & 0xF) as u8
    }

    pub fn h_msb(&self) -> (r: u8)
        ensures
            r == self.h_msb_bits(),
    {
        ((self.0 >> 48u64) & 0xFF) as u8
    }

    pub fn h_lsb(&self) -> (r: u8)
        ensures
            r == self.h_lsb_bits(),
    {
        ((self.0 >> 56u64) & 0xFF) as u8
    }

    pub fn pressure(&self) -> (r: u32)
        ensures
            r == self.raw_pressure(),
            r < 0x10_0000,
    {
        let m: u8 = self.p_msb();
        let l: u8 = self.p_lsb();
        let x: u8 = self.p_xlsb();
        assert(((m as u32) << 12u32) | ((l as u32) << 4u32) | (x as u32) == m * 4096 + l * 16 + x)
            by (bit_vector)
            requires
                x < 16,
        ;
        ((m as u32) << 12u32) | ((l as u32) << 4u32) | (x as u32)
    }

    pub fn temperature(&self) -> (r: u32)
        ensures
            r == self.raw_temperature(),
            r < 0x10_0000,
    {
        let m: u8 = self.t_msb();
        let l: u8 = self.t_lsb();
        let x: u8 = self.t_xlsb();
        assert(((m as u32) << 12u32) | ((l as u32) << 4u32) | (x as u32) == m * 4096 + l * 16 + x)
            by (bit_vector)
            requires
                x < 16,
        ;
        ((m as u32) << 12u32) | ((l as u32) << 4u32) | (x as u32)
    }

    pub fn humidity(&self) -> (r: u16)
        ensures
            r == self.raw_humidity(),
    {
        let m: u8 = self.h_msb();
        let l: u8 = self.h_lsb();
        assert(((m as u16) << 8u16) | (l as u16) == m * 256 + l) by (bit_vector);
        ((m as u16) << 8u16) | (l as u16)
    }
}

/// The value of eight bytes read as a little-endian unsigned integer.
pub open spec fn le_u64_value(b: Seq<u8>) -> int {
    b[0] + 0x100 * b[1] + 0x1_0000 * b[2] + 0x100_0000 * b[3] + 0x1_0000_0000 * b[4]
        + 0x100_0000_0000 * b[5] + 0x1_0000_0000_0000 * b[6] + 0x100_0000_0000_0000 * b[7]
}

impl MeasurementData {
    /// The burst read from `0xF7..=0xFE`, taken as a little-endian word.
    pub fn from_burst(data: [u8; 8]) -> (r: MeasurementData)
        ensures
            r.0 == le_u64_value(data@),
            r.p_msb_bits() == data[0],
            r.p_lsb_bits() == data[1],
            r.p_xlsb_bits() == data[2] / 16,
            r.t_msb_bits() == data[3],
            r.t_lsb_bits() == data[4],
            r.t_xlsb_bits() == data[5] / 16,
            r.h_msb_bits() == data[6],
            r.h_lsb_bits() == data[7],
    {
        let b0: u8 = data[0];
        let b1: u8 = data[1];
        let b2: u8 = data[2];
        let b3: u8 = data[3];
        let b4: u8 = data[4];
        let b5: u8 = data[5];
        let b6: u8 = data[6];
        let b7: u8 = data[7];
        let v: u64 = (b0 as u64) | ((b1 as u64) << 8u64) | ((b2 as u64) << 16u64) | ((b3 as u64)
            << 24u64) | ((b4 as u64) << 32u64) | ((b5 as u64) << 40u64) | ((b6 as u64) << 48u64)
            | ((b7 as u64) << 56u64);
        assert({
            &&& v == b0 + 0x100 * b1 + 0x1_0000 * b2 + 0x100_0000 * b3 + 0x1_0000_0000 * b4
                + 0x100_0000_0000 * b5 + 0x1_0000_0000_0000 * b6 + 0x100_0000_0000_0000 * b7
            &&& (v & 0xFF) as u8 == b0
            &&& ((v >> 8u64) & 0xFF) as u8 == b1
            &&& ((v >> 20u64) & 0xF) as u8 == b2 / 16
            &&& ((v >> 24u64) & 0xFF) as u8 == b3
            &&& ((v >> 32u64) & 0xFF) as u8 == b4
            &&& ((v >> 44u64) & 0xF) as u8 == b5 / 16
            &&& ((v >> 48u64) & 0xFF) as u8 == b6
            &&& ((v >> 56u64) & 0xFF) as u8 == b7
        }) by (bit_vector)
            requires
                v == (b0 as u64) | ((b1 as u64) << 8u64) | ((b2 as u64) << 16u64) | ((b3 as u64)
                    << 24u64) | ((b4 as u64) << 32u64) | ((b5 as u64) << 40u64) | ((b6 as u64)
                    << 48u64) | ((b7 as u64) << 56u64),
        ;
        MeasurementData(v)
    }
}

/// Two bytes read as a little-endian unsigned 16-bit value.
pub open spec fn le_u16_value(lo: u8, hi: u8) -> int {
    lo + 256 * hi
}

/// Two bytes read as a little-endian two's-complement 16-bit value.
pub open spec fn le_i16_value(lo: u8, hi: u8) -> int {
    if hi < 128 {
        le_u16_value(lo, hi)
    } else {
        le_u16_value(lo, hi) - 0x1_0000
    }
}

/// A 12-bit field read as two's complement.
pub open spec fn signed12(raw: int) -> int {
    if raw > 2047 {
        raw - 4096
    } else {
        raw
    }
}

fn u16_from_le(lo: u8, hi: u8) -> (r: u16)
    ensures
        r == le_u16_value(lo, hi),
{
    assert((lo as u16) | ((hi as u16) << 8u16) == lo + 256 * hi) by (bit_vector);
    (lo as u16) | ((hi as u16) << 8u16)
}

fn i16_from_le(lo: u8, hi: u8) -> (r: i16)
    ensures
        r == le_i16_value(lo, hi),
{
    let u: u16 = u16_from_le(lo, hi);
    assert((u as i16) == if hi < 128 {
        u as int
    } else {
        u - 0x1_0000
    }) by (bit_vector)
        requires
            u == lo + 256 * hi,
    ;
    u as i16
}

/// Trimming parameters for temperature and pressure, `0x88..=0xA1`.
#[derive(Copy, Clone, PartialEq, Debug, Default)]
pub struct CalibrationData1(pub [u8; 26]);

impl CalibrationData1 {
    pub fn dig_t1(&self) -> (r: u16)
        ensures
            r == le_u16_value(self.0[0], self.0[1]),
    {
        u16_from_le(self.0[0], self.0[1])
    }

    pub fn dig_t2(&self) -> (r: i16)
        ensures
            r == le_i16_value(self.0[2], self.0[3]),
    {
        i16_from_le(self.0[2], self.0[3])
    }

    pub fn dig_t3(&self) -> (r: i16)
        ensures
            r == le_i16_value(self.0[4], self.0[5]),
    {
        i16_from_le(self.0[4], self.0[5])
    }

    pub fn dig_p1(&self) -> (r: u16)
        ensures
            r == le_u16_value(self.0[6], self.0[7]),
    {
        u16_from_le(self.0[6], self.0[7])
    }

    pub fn dig_p2(&self) -> (r: i16)
        ensures
            r == le_i16_value(self.0[8], self.0[9]),
    {
        i16_from_le(self.0[8], self.0[9])
    }

    pub fn dig_p3(&self) -> (r: i16)
        ensures
            r == le_i16_value(self.0[10], self.0[11]),
    {
        i16_from_le(self.0[10], self.0[11])
    }

    pub fn dig_p4(&self) -> (r: i16)
        ensures
            r == le_i16_value(self.0[12], self.0[13]),
    {
        i16_from_le(self.0[12], self.0[13])
    }

    pub fn dig_p5(&self) -> (r: i16)
        ensures
            r == le_i16_value(self.0[14], self.0[15]),
    {
        i16_from_le(self.0[14], self.0[15])
    }

    pub fn dig_p6(&self) -> (r: i16)
        ensures
            r == le_i16_value(self.0[16], self.0[17]),
    {
        i16_from_le(self.0[16], self.0[17])
    }

    pub fn dig_p7(&self) -> (r: i16)
        ensures
            r == le_i16_value(self.0[18], self.0[19]),
    {
        i16_from_le(self.0[18], self.0[19])
    }

    pub fn dig_p8(&self) -> (r: i16)
        ensures
            r == le_i16_value(self.0[20], self.0[21]),
    {
        i16_from_le(self.0[20], self.0[21])
    }

    pub fn dig_p9(&self) -> (r: i16)
        ensures
            r == le_i16_value(self.0[22], self.0[23]),
    {
        i16_from_le(self.0[22], self.0[23])
    }

    pub fn dig_h1(&self) -> (r: u8)
        ensures
            r == self.0[25],
    {
        self.0[25]
    }
}

/// Trimming parameters for humidity, read as the 16 registers `0xE1..=0xF0`.
#[derive(Copy, Clone, PartialEq, Debug, Default)]
pub struct CalibrationData2(pub [u8; 16]);

impl CalibrationData2 {
    pub fn dig_h2(&self) -> (r: i16)
        ensures
            r == le_i16_value(self.0[0], self.0[1]),
    {
        i16_from_le(self.0[0], self.0[1])
    }

    pub fn dig_h3(&self) -> (r: u8)
        ensures
            r == self.0[2],
    {
        self.0[2]
    }

    /// `0xE4` holds bits 11..4 and the low nibble of `0xE5` bits 3..0 of a
    /// 12-bit two's-complement value.
    pub fn dig_h4(&self) -> (r: i16)
        ensures
            r == signed12(self.0[3] * 16 + self.0[4] % 16),
            -2048 <= r < 2048,
    {
        let hi: u8 = self.0[3];
        let lo: u8 = self.0[4];
        assert(((hi as i16) << 4i16) | ((lo as i16) & 0x0F) == hi * 16 + lo % 16) by (bit_vector);
        let val: i16 = ((hi as i16) << 4i16) | ((lo as i16) & 0x0F);
        if val > 2047 {
            val - 4096
        } else {
            val
        }
    }

    /// `0xE6` holds bits 11..4 and the high nibble of `0xE5` bits 3..0 of a
    /// 12-bit two's-complement value.
    pub fn dig_h5(&self) -> (r: i16)
        ensures
            r == signed12(self.0[5] * 16 + self.0[4] / 16),
            -2048 <= r < 2048,
    {
        let hi: u8 = self.0[5];
        let lo: u8 = self.0[4];
        assert(((hi as i16) << 4i16) | ((lo as i16) >> 4i16) == hi * 16 + lo / 16) by (bit_vector);
        let val: i16 = ((hi as i16) << 4i16) | ((lo as i16) >> 4i16);
        if val > 2047 {
            val - 4096
        } else {
            val
        }
    }

    pub fn dig_h6(&self) -> (r: i8)
        ensures
            r == (if self.0[6] < 128 {
                self.0[6] as int
            } else {
                self.0[6] - 256
            }),
    {
        let b: u8 = self.0[6];
        assert((b as i8) == if b < 128 {
            b as int
        } else {
            b - 256
        }) by (bit_vector);
        b as i8
    }
}

/// Changing only the power mode changes only the mode bits of `ctrl_meas`:
/// `ctrl_hum`, `config` and the oversampling bits are written as before.
pub proof fn lemma_mode_change_touches_only_mode_bits(c: Config, m: Mode)
    ensures
        (Config { mode: m, ..c }).ctrl_hum_value() == c.ctrl_hum_value(),
        (Config { mode: m, ..c }).config_value() == c.config_value(),
        (Config { mode: m, ..c }).ctrl_meas_value() & 0xFC == c.ctrl_meas_value() & 0xFC,
        (Config { mode: m, ..c }).ctrl_meas_value() & 3 == m.bits(),
{
    lemma_config_encoding_round_trip(c);
    lemma_config_encoding_round_trip(Config { mode: m, ..c });
    lemma_mode_round_trip(m);
    lemma_mode_round_trip(c.mode);
    lemma_osrst_round_trip(c.osrs_t);
    lemma_osrsp_round_trip(c.osrs_p);
    let ob = c.osrs_t.bits();
    let pb = c.osrs_p.bits();
    let mb = m.bits();
    let cb = c.mode.bits();
    let a: u8 = (ob * 32 + pb * 4 + mb) as u8;
    let b: u8 = (ob * 32 + pb * 4 + cb) as u8;
    assert(a & 0xFC == b & 0xFC && a & 3 == mb) by (bit_vector)
        requires
            ob < 8,
            pb < 8,
            mb < 4,
            cb < 4,
            a == ob * 32 + pb * 4 + mb,
            b == ob * 32 + pb * 4 + cb,
    ;
}

/// The `measuring` flag is bit 3 of the status byte and nothing else, and
/// `im_update` is bit 0 and nothing else: flipping one flag's bit never
/// changes how the other reads.
pub proof fn lemma_status_flags_are_single_bits(b: u8)
    ensures
        StatusReg(b).measuring_bit() == 1 <==> b & 0x08 == 0x08,
        StatusReg(b).measuring_bit() == 0 <==> b & 0x08 == 0,
        StatusReg(b).measuring_bit() == StatusReg(b ^ 0x01).measuring_bit(),
        StatusReg(b).im_update_bit() == 1 <==> b & 0x01 == 0x01,
        StatusReg(b).im_update_bit() == 0 <==> b & 0x01 == 0,
        StatusReg(b).im_update_bit() == StatusReg(b ^ 0x08).im_update_bit(),
{
    let x = b ^ 0x01;
    let y = b ^ 0x08;
    assert({
        &&& ((b >> 3u8) & 1 == 1 <==> b & 0x08 == 0x08)
        &&& ((b >> 3u8) & 1 == 0 <==> b & 0x08 == 0)
        &&& (b >> 3u8) & 1 == (x >> 3u8) & 1
        &&& (b & 1 == 1 <==> b & 0x01 == 0x01)
        &&& (b & 1 == 0 <==> b & 0x01 == 0)
        &&& b & 1 == y & 1
    }) by (bit_vector)
        requires
            x == b ^ 0x01,
            y == b ^ 0x08,
    ;
}

/// The bytes written for a configuration, by the datasheet's field tables:
/// `ctrl_hum` = osrs_h code; `config` = t_sb code in bits 7..5, filter code
/// in bits 4..2, 3-wire SPI in bit 0; `ctrl_meas` = osrs_t code in bits
/// 7..5, osrs_p code in bits 4..2, mode code in bits 1..0.
pub proof fn lemma_config_register_bytes(c: Config)
    ensures
        c.ctrl_hum_value() == (match c.osrs_h {
            OsrsH::Skipped => 0int,
            OsrsH::X1 => 1,
            OsrsH::X2 => 2,
            OsrsH::X4 => 3,
            OsrsH::X8 => 4,
            OsrsH::X16 => 5,
        }),
        c.config_value() == (match c.standby {
            TsbMode::SB0p5 => 0int,
            TsbMode::SB62p5 => 1,
            TsbMode::SB125 => 2,
            TsbMode::SB250 => 3,
            TsbMode::SB500 => 4,
            TsbMode::SB1000 => 5,
            TsbMode::SB2000 => 6,
            TsbMode::SB4000 => 7,
        }) * 32 + (match c.filter {
            FilterMode::Off => 0int,
            FilterMode::F2 => 1,
            FilterMode::F4 => 2,
            FilterMode::F8 => 3,
            FilterMode::F16 => 4,
        }) * 4 + (if c.spi3w {
            1int
        } else {
            0
        }),
        c.ctrl_meas_value() == (match c.osrs_t {
            OsrsT::Skipped => 0int,
            OsrsT::X1 => 1,
            OsrsT::X2 => 2,
            OsrsT::X4 => 3,
            OsrsT::X8 => 4,
            OsrsT::X16 => 5,
        }) * 32 + (match c.osrs_p {
            OsrsP::Skipped => 0int,
            OsrsP::X1 => 1,
            OsrsP::X2 => 2,
            OsrsP::X4 => 3,
            OsrsP::X8 => 4,
            OsrsP::X16 => 5,
        }) * 4 + (match c.mode {
            Mode::Sleep => 0int,
            Mode::Forced => 1,
            Mode::Normal => 3,
        }),
{
    lemma_config_encoding_round_trip(c);
}

} // verus!
