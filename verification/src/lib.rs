//! A driver core for the ADS1110 family of delta-sigma converters from TI.
//!
//! The crate holds the register codec, the address table and the protocol
//! that retrieves a fresh conversion result. It performs no bus transfer and
//! never sleeps: it tells its caller which transfer or pause comes next, and
//! takes the outcome back.

use config::{Address, ConversionMode, DataReady, ReadSettings, Start, WriteSettings};
use conversion::{raw_value, Action, Device, Event, PollState};
use vstd::prelude::*;

pub mod config;
pub mod conversion;
pub mod time;

verus! {

/// Driver error type
#[derive(Debug, PartialEq)]
pub enum Error<E> {
    /// A timeout occurred while waiting to read the ADC
    Timeout,
    /// An error with the underlying I2C bus
    I2c(E),
}

/// Driver for the ADS1110 ADC. It owns the bus handle for as long as it
/// lives, and remembers the configuration of the device.
pub struct Ads1110<I> {
    i2c: I,
    device: Device,
}

/// What a driver stands for in contracts.
pub struct Ads1110View<I> {
    /// The bus handle that the driver owns.
    pub i2c: I,
    /// The address of the device and its configuration, as it was last read
    /// from the device or written to it with success.
    pub device: Device,
}

impl<I> View for Ads1110<I> {
    type V = Ads1110View<I>;

    closed spec fn view(&self) -> Ads1110View<I> {
        Ads1110View { i2c: self.i2c, device: self.device }
    }
}

impl<I> Ads1110<I> {
    /// Create a new [Ads1110] with the given [Address] and bus handle, from
    /// the outcome of reading three bytes from the device at that address.
    ///
    /// A read that failed gives the handle back together with its error.
    pub fn new<E>(i2c: I, addr: Address, bootstrap: Result<[u8; 3], E>) -> (created: Result<
        Self,
        (I, E),
    >)
        ensures
            match bootstrap {
                Ok(bytes) => created matches Ok(driver) && driver@ == (Ads1110View {
                    i2c,
                    device: Device::discovered(addr, bytes[2]),
                }),
                Err(e) => created == Err::<Self, (I, E)>((i2c, e)),
            },
    {
        let addru8 = addr.into_addr();
        let config = match bootstrap {
            Ok(bytes) => bytes[2],
            Err(e) => return Err((i2c, e)),
        };
        let ReadSettings { n_drdy: _, sc, dr, pga } = ReadSettings::from(config);
        Ok(Self { i2c, device: Device { addr: addru8, sc, dr, pga } })
    }

    /// The address of the device and the configuration that the driver
    /// remembers of it.
    pub fn device(&self) -> (device: Device)
        ensures
            device == self@.device,
    {
        self.device
    }

    /// Lend the bus handle out for a transfer. Nothing else of the driver
    /// changes meanwhile.
    pub fn bus(&mut self) -> (i2c: &mut I)
        ensures
            *i2c == old(self)@.i2c,
            final(self)@ == (Ads1110View { i2c: *final(i2c), device: old(self)@.device }),
    {
        &mut self.i2c
    }

    /// Take note of how writing `settings.to_value()` to the device ended.
    /// After a write that succeeded the driver remembers the mode, rate and
    /// gain of `settings`; after one that failed it remembers what it did
    /// before. The result is `outcome`.
    pub fn write_settings<E>(&mut self, settings: WriteSettings, outcome: Result<(), E>) -> (written:
        Result<(), E>)
        ensures
            written == outcome,
            final(self)@.i2c == old(self)@.i2c,
            final(self)@.device == if outcome is Ok {
                old(self)@.device.programmed(settings)
            } else {
                old(self)@.device
            },
    {
        let WriteSettings { start: _, sc, dr, pga } = settings;
        match outcome {
            Ok(done) => {
                self.device = Device { addr: self.device.addr, sc, dr, pga };
                Ok(done)
            },
            Err(e) => Err(e),
        }
    }

    /// One step on the way to a raw value from the ADC: given how far the
    /// attempt has come and how the last request ended, says how far it has
    /// come now and what to do next. `None` if `event` is no answer to what
    /// was requested.
    ///
    /// An attempt begins in [`PollState::Idle`] with [`Event::Start`] and is
    /// over with [`Action::Finish`]. If the ADC is configured in "OneShot"
    /// mode, a conversion is started first and given one sampling interval.
    /// The value is then read, for up to 5/4 of a typical sampling interval
    /// in all, until the data is reported as "Fresh", or previously unread.
    ///
    /// For example, at 15sps, a sample is due every 66.7ms. The attempt
    /// waits up to 83.3ms (5/4) for a fresh sample.
    ///
    /// Also note that the raw value is dependent on the sample rate:
    ///
    /// | Data Rate     | Number of Bits    | Min Value     | Max Value     |
    /// | ---:          | :--:              | ---:          | ---:          |
    /// | 15sps         | 16                | -32,768       | 32,767        |
    /// | 30sps         | 15                | -16,384       | 16,383        |
    /// | 60sps         | 14                | -8,192        | 8,191         |
    /// | 240sps        | 12                | -2,048        | 2,047         |
    ///
    /// This function does not consider `gain`, and returns only raw ADC counts
    pub fn read_value_raw<E>(&self, state: PollState, event: Event<E>) -> (next: Option<
        (PollState, Action<E>),
    >)
        ensures
            next == self@.device.step(state, event),
    {
        let addr = self.device.addr;
        match (state, event) {
            (PollState::Idle, Event::Start) => match self.device.sc {
                ConversionMode::OneShot => {
                    // Start a conversion, which takes a whole interval
                    let write = WriteSettings {
                        start: Start::StartConversion,
                        sc: self.device.sc,
                        dr: self.device.dr,
                        pga: self.device.pga,
                    };
                    Some(
                        (
                            PollState::ConversionTriggered,
                            Action::Write { addr, byte: write.to_value() },
                        ),
                    )
                },
                ConversionMode::Continuous => Some((PollState::Polling(0), Action::Read { addr })),
            },
            (PollState::ConversionTriggered, Event::Written(Ok(_))) => {
                // No use polling before the conversion can be finished
                Some((PollState::CoarseWait, Action::SleepInterval(self.device.dr.interval())))
            },
            (PollState::ConversionTriggered, Event::Written(Err(e))) => Some(
                (PollState::Failed, Action::Finish(Err(Error::I2c(e)))),
            ),
            (PollState::CoarseWait, Event::Slept) => Some(
                (PollState::Polling(4), Action::Read { addr }),
            ),
            (PollState::Polling(quarter_waits), Event::Sampled(Ok(bytes))) => {
                let read = ReadSettings::from(bytes[2]);
                match read.n_drdy {
                    DataReady::FreshData => Some(
                        (PollState::Succeeded, Action::Finish(Ok(raw_value(bytes[0], bytes[1])))),
                    ),
                    DataReady::StaleData => {
                        if quarter_waits >= 5 {
                            Some((PollState::TimedOut, Action::Finish(Err(Error::Timeout))))
                        } else {
                            Some(
                                (
                                    PollState::QuarterWait(quarter_waits + 1),
                                    Action::SleepQuarter(self.device.dr.quarter_interval()),
                                ),
                            )
                        }
                    },
                }
            },
            (PollState::Polling(_), Event::Sampled(Err(e))) => Some(
                (PollState::Failed, Action::Finish(Err(Error::I2c(e)))),
            ),
            (PollState::QuarterWait(quarter_waits), Event::Slept) => Some(
                (PollState::Polling(quarter_waits), Action::Read { addr }),
            ),
            _ => None,
        }
    }

    /// One step on the way to a value from the ADC, with the contents
    /// extended to the full `i16` range.
    ///
    /// This compensates for the fact that different sample rates have
    /// different min/max values. See [Self::read_value_raw] for more details:
    /// the steps are the same, but for the value that ends the attempt.
    ///
    /// The value is shifted to the left by the bits that the rate leaves
    /// unused. This takes for granted that the device repeats the sign in the
    /// bits above the resolution, which is an assumption about the device:
    /// whatever stands in those bits is shifted out.
    ///
    /// This function does not consider `gain`, and returns only ADC counts
    pub fn read_value_normalized<E>(&self, state: PollState, event: Event<E>) -> (next: Option<
        (PollState, Action<E>),
    >)
        ensures
            next == self@.device.step_normalized(state, event),
    {
        match self.read_value_raw(state, event) {
            Some((next, Action::Finish(Ok(raw)))) => Some(
                (next, Action::Finish(Ok(self.device.dr.normalize(raw)))),
            ),
            other => other,
        }
    }

    /// Give back the I2C bus
    pub fn release(self) -> (i2c: I)
        ensures
            i2c == self@.i2c,
    {
        self.i2c
    }
}

} // verus!
