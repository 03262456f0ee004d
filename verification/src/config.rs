//! Configuration types read from and written to the ADS1110

use crate::time::{duration_from_micros, span_of_micros};
use embassy_time::Duration;
use vstd::arithmetic::power2::{lemma2_to64, pow2};
use vstd::prelude::*;
use vstd::std_specs::convert::FromSpecImpl;

verus! {

/// The ADS1110 comes in one of eight variants, with the address bits
/// set in the factory. The part number names the variant:
///
/// ```text
/// ADS1110A0IDBVR  | Full Name
/// -------         | - Common family name (ADS1110)
///        --       | - Address (A0)
///          -----  | - Other packaging info (IDBVR)
/// ```
///
/// | Address/Part | Address (binary) | Address (hex, right aligned)    |
/// | :---         | :---             | :---                            |
/// | ADS1110A0    | `0b1001_000x`    | `0x48`                          |
/// | ADS1110A1    | `0b1001_001x`    | `0x49`                          |
/// | ADS1110A2    | `0b1001_010x`    | `0x4A`                          |
/// | ADS1110A3    | `0b1001_011x`    | `0x4B`                          |
/// | ADS1110A4    | `0b1001_100x`    | `0x4C`                          |
/// | ADS1110A5    | `0b1001_101x`    | `0x4D`                          |
/// | ADS1110A6    | `0b1001_110x`    | `0x4E`                          |
/// | ADS1110A7    | `0b1001_111x`    | `0x4F`                          |
#[derive(Debug, PartialEq, Eq, Clone, Copy, Structural)]
pub enum Address {
    /// Address 0, marked as `ED0` on-package
    A0,
    /// Address 1, marked as `ED1` on-package
    A1,
    /// Address 2, marked as `ED2` on-package
    A2,
    /// Address 3, marked as `ED3` on-package
    A3,
    /// Address 4, marked as `ED4` on-package
    A4,
    /// Address 5, marked as `ED5` on-package
    A5,
    /// Address 6, marked as `ED6` on-package
    A6,
    /// Address 7, marked as `ED7` on-package
    A7,
}

impl Address {
    /// The number of the variant, 0 for `A0` up to 7 for `A7`.
    pub open spec fn index(self) -> int {
        match self {
            Address::A0 => 0,
            Address::A1 => 1,
            Address::A2 => 2,
            Address::A3 => 3,
            Address::A4 => 4,
            Address::A5 => 5,
            Address::A6 => 6,
            Address::A7 => 7,
        }
    }

    /// The right-aligned 7-bit bus address of the variant: `0b1001_000` with
    /// the variant's number in the three low bits.
    pub open spec fn bus_address(self) -> u8 {
        (0x48 + self.index()) as u8
    }

    /// Convert into the right-aligned 7-bit address
    pub fn into_addr(&self) -> (addr: u8)
        ensures
            addr == self.bus_address(),
            0x48 <= addr <= 0x4F,
    {
        match self {
            Address::A0 => 0x48,
            Address::A1 => 0x49,
            Address::A2 => 0x4A,
            Address::A3 => 0x4B,
            Address::A4 => 0x4C,
            Address::A5 => 0x4D,
            Address::A6 => 0x4E,
            Address::A7 => 0x4F,
        }
    }

    /// No two variants share a bus address.
    pub proof fn bus_address_is_one_to_one(a: Address, b: Address)
        requires
            a.bus_address() == b.bus_address(),
        ensures
            a == b,
    {
    }
}

/// The signed 16-bit number whose bits are the low 16 bits of `x` in two's
/// complement.
pub open spec fn truncate_i16(x: int) -> i16 {
    let low = x % 0x1_0000;
    if low >= 0x8000 {
        (low - 0x1_0000) as i16
    } else {
        low as i16
    }
}

/// How many conversions the device makes per second. A slower rate gives a
/// result of more bits.
#[derive(Debug, PartialEq, Eq, Clone, Copy, Structural)]
pub enum DataRate {
    /// 15 samples per second - every 66.7ms
    Sps15,
    /// 30 samples per second - every 33.3ms
    Sps30,
    /// 60 samples per second - every 16.7ms
    Sps60,
    /// 240 samples per second - every 4.2ms
    Sps240,
}

impl DataRate {
    /// The rate as it stands in bits 3:2 of the configuration register.
    pub open spec fn bits(self) -> u8 {
        match self {
            DataRate::Sps15 => 0b0000_1100,
            DataRate::Sps30 => 0b0000_1000,
            DataRate::Sps60 => 0b0000_0100,
            DataRate::Sps240 => 0b0000_0000,
        }
    }

    /// The rate that bits 3:2 of a register value select, `bits` being the
    /// value with every other bit cleared.
    pub open spec fn of_bits(bits: u8) -> DataRate {
        if bits == 0b0000_1100 {
            DataRate::Sps15
        } else if bits == 0b0000_1000 {
            DataRate::Sps30
        } else if bits == 0b0000_0100 {
            DataRate::Sps60
        } else {
            DataRate::Sps240
        }
    }

    /// Conversions per second.
    pub open spec fn samples_per_second(self) -> int {
        match self {
            DataRate::Sps15 => 15,
            DataRate::Sps30 => 30,
            DataRate::Sps60 => 60,
            DataRate::Sps240 => 240,
        }
    }

    /// Microseconds between two samples, to the nearest microsecond.
    pub open spec fn interval_micros(self) -> u64 {
        match self {
            DataRate::Sps15 => 66_667,
            DataRate::Sps30 => 33_333,
            DataRate::Sps60 => 16_667,
            DataRate::Sps240 => 4_167,
        }
    }

    /// Microseconds in a quarter of the time between two samples, to the
    /// nearest microsecond.
    pub open spec fn quarter_interval_micros(self) -> u64 {
        match self {
            DataRate::Sps15 => 16_667,
            DataRate::Sps30 => 8_333,
            DataRate::Sps60 => 4_167,
            DataRate::Sps240 => 1_042,
        }
    }

    /// How many bits a conversion result has at this rate.
    pub open spec fn resolution_bits(self) -> int {
        match self {
            DataRate::Sps15 => 16,
            DataRate::Sps30 => 15,
            DataRate::Sps60 => 14,
            DataRate::Sps240 => 12,
        }
    }

    /// By how many bits a result is shifted to the left to fill 16 bits.
    pub open spec fn shift(self) -> nat {
        (16 - self.resolution_bits()) as nat
    }

    /// A result moved to the left until its bits fill the 16: `raw` times
    /// two to the power of `shift()`, with what leaves the 16 bits cut off.
    pub open spec fn normalized(self, raw: i16) -> i16 {
        truncate_i16(raw * pow2(self.shift()))
    }

    /// Extend a raw result at this rate to the full `i16` range, whatever
    /// bits it holds above its resolution.
    pub fn normalize(&self, raw: i16) -> (value: i16)
        ensures
            value == self.normalized(raw),
    {
        proof {
            Self::normalized_is_a_left_shift(raw);
        }
        match self {
            // 15sps has full 16-bit range already
            DataRate::Sps15 => raw,
            // 30sps is 15-bits
            DataRate::Sps30 => raw << 1,
            // 60sps is 14-bits
            DataRate::Sps60 => raw << 2,
            // 240sps is 12-bits
            DataRate::Sps240 => raw << 4,
        }
    }

    /// Normalizing shifts a result to the left by 0, 1, 2 or 4 bits, as the
    /// rate is 15, 30, 60 or 240 samples per second, and drops the bits that
    /// leave the 16.
    pub proof fn normalized_is_a_left_shift(raw: i16)
        ensures
            DataRate::Sps15.shift() == 0 && DataRate::Sps15.normalized(raw) == raw,
            DataRate::Sps30.shift() == 1 && DataRate::Sps30.normalized(raw) == raw << 1,
            DataRate::Sps60.shift() == 2 && DataRate::Sps60.normalized(raw) == raw << 2,
            DataRate::Sps240.shift() == 4 && DataRate::Sps240.normalized(raw) == raw << 4,
    {
        lemma2_to64();
        assert(raw == truncate_i16(raw * 1)) by (bit_vector);
        assert(raw << 1 == truncate_i16(raw * 2)) by (bit_vector);
        assert(raw << 2 == truncate_i16(raw * 4)) by (bit_vector);
        assert(raw << 4 == truncate_i16(raw * 16)) by (bit_vector);
    }

    /// Get the interval between samples as a [`Duration`].
    pub fn interval(&self) -> (span: Duration)
        ensures
            span == duration_from_micros(self.interval_micros()),
    {
        match self {
            DataRate::Sps15 => span_of_micros(66_667),
            DataRate::Sps30 => span_of_micros(33_333),
            DataRate::Sps60 => span_of_micros(16_667),
            DataRate::Sps240 => span_of_micros(4_167),
        }
    }

    /// Get 1/4 of the interval between samples as a [`Duration`].
    pub fn quarter_interval(&self) -> (span: Duration)
        ensures
            span == duration_from_micros(self.quarter_interval_micros()),
    {
        match self {
            DataRate::Sps15 => span_of_micros(16_667),
            DataRate::Sps30 => span_of_micros(8_333),
            DataRate::Sps60 => span_of_micros(4_167),
            DataRate::Sps240 => span_of_micros(1_042),
        }
    }

    /// The interval is a second divided by the rate, and the quarter interval
    /// a quarter of a second divided by the rate, each within half a
    /// microsecond.
    pub proof fn intervals_follow_the_rate(rate: DataRate)
        ensures
            -rate.samples_per_second() < 2 * (rate.interval_micros() * rate.samples_per_second()
                - 1_000_000) <= rate.samples_per_second(),
            -rate.samples_per_second() < 2 * (rate.quarter_interval_micros()
                * rate.samples_per_second() - 250_000) <= rate.samples_per_second(),
    {
        match rate {
            DataRate::Sps15 => {
                assert(66_667 * 15 == 1_000_005 && 16_667 * 15 == 250_005);
            },
            DataRate::Sps30 => {
                assert(33_333 * 30 == 999_990 && 8_333 * 30 == 249_990);
            },
            DataRate::Sps60 => {
                assert(16_667 * 60 == 1_000_020 && 4_167 * 60 == 250_020);
            },
            DataRate::Sps240 => {
                assert(4_167 * 240 == 1_000_080 && 1_042 * 240 == 250_080);
            },
        }
    }
}

/// What a write asks of the device besides its configuration.
#[derive(Debug, PartialEq, Eq, Clone, Copy, Structural)]
pub enum Start {
    /// Write: 0, nothing happens
    DontStart,
    /// Write: 1, conversion started
    StartConversion,
}

impl Start {
    /// The flag as it stands in bit 7 of a written register value.
    pub open spec fn bits(self) -> u8 {
        match self {
            Start::DontStart => 0b0000_0000,
            Start::StartConversion => 0b1000_0000,
        }
    }
}

/// Whether the conversion result that came with a read was new.
#[derive(Debug, PartialEq, Eq, Clone, Copy, Structural)]
pub enum DataReady {
    /// Read: 0, New unread data
    FreshData,
    /// Read: 1, Data has been read
    StaleData,
}

impl DataReady {
    /// The flag as it stands in bit 7 of a register value that was read.
    pub open spec fn bits(self) -> u8 {
        match self {
            DataReady::FreshData => 0b0000_0000,
            DataReady::StaleData => 0b1000_0000,
        }
    }

    /// The flag that bit 7 of a register value gives, `bits` being the value
    /// with every other bit cleared.
    pub open spec fn of_bits(bits: u8) -> DataReady {
        if bits == 0 {
            DataReady::FreshData
        } else {
            DataReady::StaleData
        }
    }
}

/// Whether the device converts all the time or once on request.
#[derive(Debug, PartialEq, Eq, Clone, Copy, Structural)]
pub enum ConversionMode {
    /// R/W: 0
    Continuous,
    /// R/W: 1
    OneShot,
}

impl ConversionMode {
    /// The mode as it stands in bit 4 of the configuration register.
    pub open spec fn bits(self) -> u8 {
        match self {
            ConversionMode::Continuous => 0b0000_0000,
            ConversionMode::OneShot => 0b0001_0000,
        }
    }

    /// The mode that bit 4 of a register value selects, `bits` being the
    /// value with every other bit cleared.
    pub open spec fn of_bits(bits: u8) -> ConversionMode {
        if bits == 0 {
            ConversionMode::Continuous
        } else {
            ConversionMode::OneShot
        }
    }
}

/// The setting of the programmable gain amplifier.
#[derive(Debug, PartialEq, Eq, Clone, Copy, Structural)]
pub enum Gain {
    /// R/W: 00
    X1,
    /// R/W: 01
    X2,
    /// R/W: 10
    X4,
    /// R/W: 11
    X8,
}

impl Gain {
    /// The gain as it stands in bits 1:0 of the configuration register.
    pub open spec fn bits(self) -> u8 {
        match self {
            Gain::X1 => 0b0000_0000,
            Gain::X2 => 0b0000_0001,
            Gain::X4 => 0b0000_0010,
            Gain::X8 => 0b0000_0011,
        }
    }

    /// The gain that bits 1:0 of a register value select, `bits` being the
    /// value with every other bit cleared.
    pub open spec fn of_bits(bits: u8) -> Gain {
        if bits == 0b0000_0000 {
            Gain::X1
        } else if bits == 0b0000_0001 {
            Gain::X2
        } else if bits == 0b0000_0010 {
            Gain::X4
        } else {
            Gain::X8
        }
    }
}

/// Everything that can be programmed into the device with one write.
#[derive(Debug, PartialEq, Eq, Clone, Copy, Structural)]
pub struct WriteSettings {
    pub start: Start,
    pub sc: ConversionMode,
    pub dr: DataRate,
    pub pga: Gain,
}

impl Default for WriteSettings {
    fn default() -> (settings: Self)
        ensures
            settings == (WriteSettings {
                start: Start::DontStart,
                sc: ConversionMode::Continuous,
                dr: DataRate::Sps15,
                pga: Gain::X1,
            }),
    {
        Self {
            start: Start::DontStart,
            sc: ConversionMode::Continuous,
            dr: DataRate::Sps15,
            pga: Gain::X1,
        }
    }
}

impl WriteSettings {
    /// The register value that programs these settings:
    ///
    /// | bits | field | encoding                                    |
    /// | :--- | :---  | :---                                        |
    /// | 7    | start | 0 = don't start, 1 = start a conversion     |
    /// | 6:5  | none  | 0                                           |
    /// | 4    | mode  | 0 = continuous, 1 = one-shot                |
    /// | 3:2  | rate  | 11 = 15sps, 10 = 30sps, 01 = 60sps, 00 = 240sps |
    /// | 1:0  | gain  | 00 = x1, 01 = x2, 10 = x4, 11 = x8          |
    pub open spec fn encode(self) -> u8 {
        self.start.bits() | self.sc.bits() | self.dr.bits() | self.pga.bits()
    }

    /// Encode the settings as the byte that is written to the device.
    pub fn to_value(&self) -> (value: u8)
        ensures
            value == self.encode(),
            value & 0b1000_0000 == self.start.bits(),
            value & 0b0110_0000 == 0,
            value & 0b0001_0000 == self.sc.bits(),
            value & 0b0000_1100 == self.dr.bits(),
            value & 0b0000_0011 == self.pga.bits(),
    {
        let start: u8 = match self.start {
            Start::DontStart => 0b0000_0000,
            Start::StartConversion => 0b1000_0000,
        };
        let sc: u8 = match self.sc {
            ConversionMode::Continuous => 0b0000_0000,
            ConversionMode::OneShot => 0b0001_0000,
        };
        let dr: u8 = match self.dr {
            DataRate::Sps15 => 0b0000_1100,
            DataRate::Sps30 => 0b0000_1000,
            DataRate::Sps60 => 0b0000_0100,
            DataRate::Sps240 => 0b0000_0000,
        };
        let pga: u8 = match self.pga {
            Gain::X1 => 0b0000_0000,
            Gain::X2 => 0b0000_0001,
            Gain::X4 => 0b0000_0010,
            Gain::X8 => 0b0000_0011,
        };
        proof {
            Self::encoded_fields_stay_apart(*self);
        }
        start | sc | dr | pga
    }

    /// In an encoded value each field is found in its own bits, untouched by
    /// the others, and bits 6:5 are clear.
    pub proof fn encoded_fields_stay_apart(settings: WriteSettings)
        ensures
            settings.encode() & 0b1000_0000 == settings.start.bits(),
            settings.encode() & 0b0110_0000 == 0,
            settings.encode() & 0b0001_0000 == settings.sc.bits(),
            settings.encode() & 0b0000_1100 == settings.dr.bits(),
            settings.encode() & 0b0000_0011 == settings.pga.bits(),
    {
        let s = settings.start.bits();
        let m = settings.sc.bits();
        let r = settings.dr.bits();
        let g = settings.pga.bits();
        assert({
            &&& (s | m | r | g) & 0b1000_0000 == s
            &&& (s | m | r | g) & 0b0110_0000 == 0
            &&& (s | m | r | g) & 0b0001_0000 == m
            &&& (s | m | r | g) & 0b0000_1100 == r
            &&& (s | m | r | g) & 0b0000_0011 == g
        }) by (bit_vector)
            requires
                s == 0 || s == 0b1000_0000,
                m == 0 || m == 0b0001_0000,
                r == 0 || r == 0b0000_0100 || r == 0b0000_1000 || r == 0b0000_1100,
                g == 0 || g == 0b0000_0001 || g == 0b0000_0010 || g == 0b0000_0011,
        ;
    }

    /// Reading back what was written gives the mode, rate and gain that went
    /// in. The start flag has no place in what is read.
    pub proof fn decode_inverts_encode(settings: WriteSettings)
        ensures
            ReadSettings::decode(settings.encode()).sc == settings.sc,
            ReadSettings::decode(settings.encode()).dr == settings.dr,
            ReadSettings::decode(settings.encode()).pga == settings.pga,
    {
        Self::encoded_fields_stay_apart(settings);
    }
}

/// Everything that the device reports of itself in the last byte of a read.
#[derive(Debug, PartialEq, Eq, Clone, Copy, Structural)]
pub struct ReadSettings {
    pub n_drdy: DataReady,
    pub sc: ConversionMode,
    pub dr: DataRate,
    pub pga: Gain,
}

impl ReadSettings {
    /// The settings that a register value stands for. The layout is that of
    /// [`WriteSettings::encode`], but bit 7 tells whether the data is stale.
    /// Bits 6:5 are ignored.
    pub open spec fn decode(value: u8) -> ReadSettings {
        ReadSettings {
            n_drdy: DataReady::of_bits(value & 0b1000_0000),
            sc: ConversionMode::of_bits(value & 0b0001_0000),
            dr: DataRate::of_bits(value & 0b0000_1100),
            pga: Gain::of_bits(value & 0b0000_0011),
        }
    }

    /// Every byte decodes, and each decoded field is the one whose bits the
    /// byte holds in that field's place.
    pub proof fn decode_is_exhaustive(value: u8)
        ensures
            Self::decode(value).n_drdy.bits() == value & 0b1000_0000,
            Self::decode(value).sc.bits() == value & 0b0001_0000,
            Self::decode(value).dr.bits() == value & 0b0000_1100,
            Self::decode(value).pga.bits() == value & 0b0000_0011,
    {
        assert({
            &&& (value & 0b1000_0000 == 0 || value & 0b1000_0000 == 0b1000_0000)
            &&& (value & 0b0001_0000 == 0 || value & 0b0001_0000 == 0b0001_0000)
            &&& (value & 0b0000_1100 == 0 || value & 0b0000_1100 == 0b0000_0100
                || value & 0b0000_1100 == 0b0000_1000 || value & 0b0000_1100 == 0b0000_1100)
            &&& (value & 0b0000_0011 == 0 || value & 0b0000_0011 == 0b0000_0001
                || value & 0b0000_0011 == 0b0000_0010 || value & 0b0000_0011 == 0b0000_0011)
        }) by (bit_vector);
    }
}

impl From<u8> for ReadSettings {
    /// Decode the status and configuration byte of a read. No byte fails.
    fn from(value: u8) -> (settings: Self)
        ensures
            settings == ReadSettings::decode(value),
    {
        let n_drdy = if (value & 0b1000_0000) == 0 {
            DataReady::FreshData
        } else {
            DataReady::StaleData
        };
        let sc = if (value & 0b0001_0000) == 0 {
            ConversionMode::Continuous
        } else {
            ConversionMode::OneShot
        };
        let rate_bits: u8 = value & 0b0000_1100;
        let dr = if rate_bits == 0b0000_1100 {
            DataRate::Sps15
        } else if rate_bits == 0b0000_1000 {
            DataRate::Sps30
        } else if rate_bits == 0b0000_0100 {
            DataRate::Sps60
        } else {
            DataRate::Sps240
        };
        let gain_bits: u8 = value & 0b0000_0011;
        let pga = if gain_bits == 0b0000_0000 {
            Gain::X1
        } else if gain_bits == 0b0000_0001 {
            Gain::X2
        } else if gain_bits == 0b0000_0010 {
            Gain::X4
        } else {
            Gain::X8
        };
        Self { n_drdy, sc, dr, pga }
    }
}

impl FromSpecImpl<u8> for ReadSettings {
    open spec fn obeys_from_spec() -> bool {
        true
    }

    open spec fn from_spec(value: u8) -> Self {
        ReadSettings::decode(value)
    }
}

} // verus!
