//! The protocol that fetches one conversion result.
//!
//! A device in one-shot mode is told to convert and is given one sampling
//! interval to do so. The result is then read, and read again after a quarter
//! of an interval for as long as the device reports data that was read
//! before, until five quarters are spent. The protocol is a state machine:
//! [`Device::step`] maps a state and the outcome of the last request to the
//! next state and the next request. [`Device::run`] plays it against a bus
//! whose replies are given, which is what the laws at the end speak of.

use crate::config::{
    Address, ConversionMode, DataRate, DataReady, Gain, ReadSettings, Start, WriteSettings,
};
use crate::time::duration_from_micros;
use crate::Error;
use embassy_time::Duration;
use vstd::prelude::*;

verus! {

/// What a driver knows of its device: where it is on the bus, and the
/// configuration that was last read from it or written to it.
#[derive(Debug, PartialEq, Eq, Clone, Copy, Structural)]
pub struct Device {
    /// Right-aligned 7-bit bus address
    pub addr: u8,
    pub sc: ConversionMode,
    pub dr: DataRate,
    pub pga: Gain,
}

/// How far one attempt to fetch a value has come. The number in `Polling`
/// and `QuarterWait` counts the quarter intervals that are spent.
#[derive(Debug, PartialEq, Eq, Clone, Copy, Structural)]
pub enum PollState {
    /// Nothing was asked of the device yet.
    Idle,
    /// The command that starts a conversion is on its way.
    ConversionTriggered,
    /// The conversion was started; its sampling interval is passing.
    CoarseWait,
    /// A read is on its way.
    Polling(u8),
    /// The last read was stale; a quarter interval is passing.
    QuarterWait(u8),
    /// A fresh value was read.
    Succeeded,
    /// No fresh value came in time.
    TimedOut,
    /// The bus failed.
    Failed,
}

/// How the last request ended.
#[derive(Debug, PartialEq)]
pub enum Event<E> {
    /// Nothing was requested yet: a value is wanted.
    Start,
    /// The write ended, well or with the error of the bus.
    Written(Result<(), E>),
    /// The pause is over.
    Slept,
    /// The read ended, with the three bytes of the device (data high, data
    /// low, status and configuration) or with the error of the bus.
    Sampled(Result<[u8; 3], E>),
}

/// What is to be done next.
#[derive(Debug, PartialEq)]
pub enum Action<E> {
    /// Write the one byte to the device at `addr`, and answer with
    /// [`Event::Written`].
    Write { addr: u8, byte: u8 },
    /// Pause for the sampling interval given, and answer with [`Event::Slept`].
    SleepInterval(Duration),
    /// Read three bytes from the device at `addr`, and answer with
    /// [`Event::Sampled`].
    Read { addr: u8 },
    /// Pause for the quarter interval given, and answer with [`Event::Slept`].
    SleepQuarter(Duration),
    /// The attempt is over, and this is its result.
    Finish(Result<i16, Error<E>>),
}

/// The signed 16-bit number that two bytes hold in two's complement, the
/// high byte first.
pub open spec fn big_endian_i16(hi: u8, lo: u8) -> i16 {
    let unsigned = hi as int * 256 + lo as int;
    if unsigned >= 0x8000 {
        (unsigned - 0x1_0000) as i16
    } else {
        unsigned as i16
    }
}

/// Put the two data bytes of a read together.
pub fn raw_value(hi: u8, lo: u8) -> (value: i16)
    ensures
        value == big_endian_i16(hi, lo),
{
    let unsigned: u16 = ((hi as u16) << 8) | (lo as u16);
    assert(unsigned == hi as int * 256 + lo as int) by (bit_vector)
        requires
            unsigned == ((hi as u16) << 8) | (lo as u16),
    ;
    let value: i16 = #[verifier::truncate] (unsigned as i16);
    assert(value == (if unsigned >= 0x8000 {
        unsigned - 0x1_0000
    } else {
        unsigned as int
    })) by (bit_vector)
        requires
            value == unsigned as i16,
    ;
    value
}

impl PollState {
    /// An upper bound on the requests that can still follow.
    pub open spec fn rank(self) -> nat {
        match self {
            PollState::Idle => 15,
            PollState::ConversionTriggered => 14,
            PollState::CoarseWait => 13,
            PollState::Polling(k) => if k < 5 { (11 - 2 * k) as nat } else { 1 },
            PollState::QuarterWait(k) => if k < 5 { (12 - 2 * k) as nat } else { 2 },
            PollState::Succeeded => 0,
            PollState::TimedOut => 0,
            PollState::Failed => 0,
        }
    }
}

impl Device {
    /// What is known of the device at `addr` once it has reported `config`,
    /// the status and configuration byte of a read.
    pub open spec fn discovered(addr: Address, config: u8) -> Device {
        Device {
            addr: addr.bus_address(),
            sc: ReadSettings::decode(config).sc,
            dr: ReadSettings::decode(config).dr,
            pga: ReadSettings::decode(config).pga,
        }
    }

    /// What is known of the device once `settings` are written to it.
    pub open spec fn programmed(self, settings: WriteSettings) -> Device {
        Device { addr: self.addr, sc: settings.sc, dr: settings.dr, pga: settings.pga }
    }

    /// [`Device::step`], with a value that was read extended to the full
    /// range of 16 bits.
    pub open spec fn step_normalized<E>(self, state: PollState, event: Event<E>) -> Option<
        (PollState, Action<E>),
    > {
        match self.step(state, event) {
            Some((next, Action::Finish(Ok(raw)))) => Some(
                (next, Action::Finish(Ok(self.dr.normalized(raw)))),
            ),
            other => other,
        }
    }

    /// The byte that starts a conversion and leaves the configuration as it
    /// is known.
    pub open spec fn trigger(self) -> u8 {
        (WriteSettings {
            start: Start::StartConversion,
            sc: self.sc,
            dr: self.dr,
            pga: self.pga,
        }).encode()
    }

    /// The pause of one sampling interval at the known rate.
    pub open spec fn interval(self) -> Duration {
        duration_from_micros(self.dr.interval_micros())
    }

    /// The pause of a quarter of a sampling interval at the known rate.
    pub open spec fn quarter_interval(self) -> Duration {
        duration_from_micros(self.dr.quarter_interval_micros())
    }

    /// One transition: the state that follows `state` on `event`, and the
    /// request that goes with it. `None` where `event` does not answer what
    /// was requested in `state`, and in a state that ends an attempt.
    pub open spec fn step<E>(self, state: PollState, event: Event<E>) -> Option<
        (PollState, Action<E>),
    > {
        match (state, event) {
            (PollState::Idle, Event::Start) => match self.sc {
                ConversionMode::OneShot => Some(
                    (
                        PollState::ConversionTriggered,
                        Action::Write { addr: self.addr, byte: self.trigger() },
                    ),
                ),
                ConversionMode::Continuous => Some(
                    (PollState::Polling(0), Action::Read { addr: self.addr }),
                ),
            },
            (PollState::ConversionTriggered, Event::Written(Ok(_))) => Some(
                (PollState::CoarseWait, Action::SleepInterval(self.interval())),
            ),
            (PollState::ConversionTriggered, Event::Written(Err(e))) => Some(
                (PollState::Failed, Action::Finish(Err(Error::I2c(e)))),
            ),
            (PollState::CoarseWait, Event::Slept) => Some(
                (PollState::Polling(4), Action::Read { addr: self.addr }),
            ),
            (PollState::Polling(k), Event::Sampled(Ok(bytes))) => {
                if ReadSettings::decode(bytes[2]).n_drdy == DataReady::FreshData {
                    Some(
                        (
                            PollState::Succeeded,
                            Action::Finish(Ok(big_endian_i16(bytes[0], bytes[1]))),
                        ),
                    )
                } else if k >= 5 {
                    Some((PollState::TimedOut, Action::Finish(Err(Error::Timeout))))
                } else {
                    Some(
                        (
                            PollState::QuarterWait((k + 1) as u8),
                            Action::SleepQuarter(self.quarter_interval()),
                        ),
                    )
                }
            },
            (PollState::Polling(_), Event::Sampled(Err(e))) => Some(
                (PollState::Failed, Action::Finish(Err(Error::I2c(e)))),
            ),
            (PollState::QuarterWait(k), Event::Slept) => Some(
                (PollState::Polling(k), Action::Read { addr: self.addr }),
            ),
            _ => None,
        }
    }
}

/// A bus whose replies are known beforehand: how the write that starts a
/// conversion ends, and how each read ends, the first being read 0.
pub struct Script<E> {
    pub write: Result<(), E>,
    pub reads: spec_fn(nat) -> Result<[u8; 3], E>,
}

impl<E> Script<E> {
    /// Read `i` succeeds and reports data that was read before.
    pub open spec fn stale_at(self, i: nat) -> bool {
        (self.reads)(i) matches Ok(bytes) && ReadSettings::decode(bytes[2]).n_drdy
            == DataReady::StaleData
    }

    /// How the attempt ends if read `i` ends it: with the value of new data,
    /// or with the error of the bus. `None` for a read that is stale.
    pub open spec fn settles(self, i: nat) -> Option<Result<i16, Error<E>>> {
        match (self.reads)(i) {
            Ok(bytes) => if ReadSettings::decode(bytes[2]).n_drdy == DataReady::FreshData {
                Some(Ok(big_endian_i16(bytes[0], bytes[1])))
            } else {
                None
            },
            Err(e) => Some(Err(Error::I2c(e))),
        }
    }

    /// Read `i` succeeds and reports new data, which is `value`.
    pub open spec fn fresh_at(self, i: nat, value: i16) -> bool {
        (self.reads)(i) matches Ok(bytes) && ReadSettings::decode(bytes[2]).n_drdy
            == DataReady::FreshData && value == big_endian_i16(bytes[0], bytes[1])
    }
}

/// What an attempt asked of the bus and of the timer, and how it ended.
pub struct Tally<E> {
    /// Write transactions
    pub writes: nat,
    /// Pauses of a whole sampling interval
    pub interval_sleeps: nat,
    /// Read transactions
    pub reads: nat,
    /// Pauses of a quarter of a sampling interval
    pub quarter_sleeps: nat,
    /// The result, or `None` where the attempt did not come to an end.
    pub outcome: Option<Result<i16, Error<E>>>,
}

impl<E> Tally<E> {
    /// No request and no result.
    pub open spec fn nothing() -> Tally<E> {
        Tally { writes: 0, interval_sleeps: 0, reads: 0, quarter_sleeps: 0, outcome: None }
    }

    /// No request, and the result given.
    pub open spec fn finished(outcome: Result<i16, Error<E>>) -> Tally<E> {
        Tally { writes: 0, interval_sleeps: 0, reads: 0, quarter_sleeps: 0, outcome: Some(outcome) }
    }
}

impl Device {
    /// Plays the protocol against `script` from `state` on, `event` being the
    /// answer to what was last requested and `reads_done` the number of reads
    /// answered so far, and counts the requests made from here to the end.
    pub open spec fn run<E>(
        self,
        state: PollState,
        event: Event<E>,
        script: Script<E>,
        reads_done: nat,
    ) -> Tally<E>
        decreases state.rank(),
    {
        match self.step(state, event) {
            None => Tally::nothing(),
            Some((_, Action::Finish(outcome))) => Tally::finished(outcome),
            Some((next, Action::Write { .. })) => {
                let rest = self.run(next, Event::Written(script.write), script, reads_done);
                Tally { writes: rest.writes + 1, ..rest }
            },
            Some((next, Action::SleepInterval(_))) => {
                let rest = self.run(next, Event::Slept, script, reads_done);
                Tally { interval_sleeps: rest.interval_sleeps + 1, ..rest }
            },
            Some((next, Action::Read { .. })) => {
                let rest = self.run(
                    next,
                    Event::Sampled((script.reads)(reads_done)),
                    script,
                    reads_done + 1,
                );
                Tally { reads: rest.reads + 1, ..rest }
            },
            Some((next, Action::SleepQuarter(_))) => {
                let rest = self.run(next, Event::Slept, script, reads_done);
                Tally { quarter_sleeps: rest.quarter_sleeps + 1, ..rest }
            },
        }
    }

    /// A whole attempt to fetch a value over the bus that `script` describes.
    pub open spec fn attempt<E>(self, script: Script<E>) -> Tally<E> {
        self.run(PollState::Idle, Event::Start, script, 0)
    }
}

impl Device {
    /// From a read with `k` quarter intervals spent: if the next `n` reads
    /// are stale, the one after them is not, and the quarters suffice, the
    /// attempt ends with that read, after `n` more reads and pauses.
    proof fn polling_ends_with_the_first_settled_read<E>(
        self,
        script: Script<E>,
        k: u8,
        i: nat,
        n: nat,
        outcome: Result<i16, Error<E>>,
    )
        requires
            k + n <= 5,
            forall|j: nat| i <= j < i + n ==> script.stale_at(j),
            script.settles(i + n) == Some(outcome),
        ensures
            self.run(PollState::Polling(k), Event::Sampled((script.reads)(i)), script, i + 1) == (
            Tally {
                writes: 0,
                interval_sleeps: 0,
                reads: n,
                quarter_sleeps: n,
                outcome: Some(outcome),
            }),
        decreases n,
    {
        if n > 0 {
            assert(script.stale_at(i));
            let waiting = PollState::QuarterWait((k + 1) as u8);
            let polling = PollState::Polling((k + 1) as u8);
            self.polling_ends_with_the_first_settled_read(
                script,
                (k + 1) as u8,
                i + 1,
                (n - 1) as nat,
                outcome,
            );
            let rest = self.run(polling, Event::Sampled((script.reads)(i + 1)), script, i + 2);
            assert(self.run(waiting, Event::<E>::Slept, script, i + 1) == (Tally {
                reads: rest.reads + 1,
                ..rest
            }));
        }
    }

    /// From a read with `k` quarter intervals spent, over a bus that is
    /// stale for ever: the attempt runs out of time when all five are spent.
    proof fn polling_times_out<E>(self, script: Script<E>, k: u8, i: nat)
        requires
            k <= 5,
            forall|j: nat| i <= j ==> script.stale_at(j),
        ensures
            self.run(PollState::Polling(k), Event::Sampled((script.reads)(i)), script, i + 1) == (
            Tally {
                writes: 0,
                interval_sleeps: 0,
                reads: (5 - k) as nat,
                quarter_sleeps: (5 - k) as nat,
                outcome: Some(Err(Error::<E>::Timeout)),
            }),
        decreases 5 - k,
    {
        assert(script.stale_at(i));
        if k < 5 {
            let waiting = PollState::QuarterWait((k + 1) as u8);
            let polling = PollState::Polling((k + 1) as u8);
            self.polling_times_out(script, (k + 1) as u8, i + 1);
            let rest = self.run(polling, Event::Sampled((script.reads)(i + 1)), script, i + 2);
            assert(self.run(waiting, Event::<E>::Slept, script, i + 1) == (Tally {
                reads: rest.reads + 1,
                ..rest
            }));
        }
    }

    /// From a read with `k` quarter intervals spent, over any bus: the
    /// attempt ends, and asks for no more than the quarters that are left.
    proof fn polling_is_bounded<E>(self, script: Script<E>, k: u8, i: nat)
        requires
            k <= 5,
        ensures
            ({
                let rest = self.run(
                    PollState::Polling(k),
                    Event::Sampled((script.reads)(i)),
                    script,
                    i + 1,
                );
                &&& rest.outcome is Some
                &&& rest.writes == 0
                &&& rest.interval_sleeps == 0
                &&& rest.reads == rest.quarter_sleeps
                &&& rest.quarter_sleeps <= 5 - k
            }),
        decreases 5 - k,
    {
        if k < 5 && script.settles(i) is None {
            let waiting = PollState::QuarterWait((k + 1) as u8);
            let polling = PollState::Polling((k + 1) as u8);
            self.polling_is_bounded(script, (k + 1) as u8, i + 1);
            let rest = self.run(polling, Event::Sampled((script.reads)(i + 1)), script, i + 2);
            assert(self.run(waiting, Event::<E>::Slept, script, i + 1) == (Tally {
                reads: rest.reads + 1,
                ..rest
            }));
        }
    }

    /// Where the converter runs continuously and the bus reports stale data
    /// `n` times, with `n` up to five, and new data the next time, the value
    /// is had after exactly `n + 1` reads and `n` pauses of a quarter
    /// interval, with no write and no longer pause.
    pub proof fn fresh_value_after_stale_reads<E>(
        device: Device,
        script: Script<E>,
        n: nat,
        value: i16,
    )
        requires
            device.sc == ConversionMode::Continuous,
            n <= 5,
            forall|i: nat| i < n ==> script.stale_at(i),
            script.fresh_at(n, value),
        ensures
            device.attempt(script) == (Tally {
                writes: 0,
                interval_sleeps: 0,
                reads: n + 1,
                quarter_sleeps: n,
                outcome: Some(Ok::<i16, Error<E>>(value)),
            }),
    {
        device.polling_ends_with_the_first_settled_read(script, 0, 0, n, Ok(value));
    }

    /// Where a conversion has to be started first, the write and the pause
    /// of a whole interval come before the first read, and that pause counts
    /// for four of the five quarters: with stale data `n` times, `n` being 0
    /// or 1, and new data the next time, the value is had after one write,
    /// one pause of a whole interval, `n + 1` reads and `n` pauses of a
    /// quarter interval.
    pub proof fn one_shot_fresh_value_after_stale_reads<E>(
        device: Device,
        script: Script<E>,
        n: nat,
        value: i16,
    )
        requires
            device.sc == ConversionMode::OneShot,
            script.write is Ok,
            n <= 1,
            forall|i: nat| i < n ==> script.stale_at(i),
            script.fresh_at(n, value),
        ensures
            device.attempt(script) == (Tally {
                writes: 1,
                interval_sleeps: 1,
                reads: n + 1,
                quarter_sleeps: n,
                outcome: Some(Ok::<i16, Error<E>>(value)),
            }),
    {
        device.polling_ends_with_the_first_settled_read(script, 4, 0, n, Ok(value));
        device.one_shot_attempt_unfolds(script);
    }

    /// Where the converter runs continuously and the bus reports stale data
    /// for ever, the attempt runs out of time after exactly six reads and
    /// five pauses of a quarter interval. Where a conversion has to be
    /// started first, that costs one write and one pause of a whole interval,
    /// which counts for four of the five quarters: the attempt runs out of
    /// time after two reads with one pause of a quarter interval between
    /// them.
    pub proof fn stale_bus_times_out<E>(device: Device, script: Script<E>)
        requires
            forall|i: nat| script.stale_at(i),
            device.sc == ConversionMode::OneShot ==> script.write is Ok,
        ensures
            device.sc == ConversionMode::Continuous ==> device.attempt(script) == (Tally {
                writes: 0,
                interval_sleeps: 0,
                reads: 6,
                quarter_sleeps: 5,
                outcome: Some(Err(Error::<E>::Timeout)),
            }),
            device.sc == ConversionMode::OneShot ==> device.attempt(script) == (Tally {
                writes: 1,
                interval_sleeps: 1,
                reads: 2,
                quarter_sleeps: 1,
                outcome: Some(Err(Error::<E>::Timeout)),
            }),
    {
        match device.sc {
            ConversionMode::Continuous => {
                device.polling_times_out(script, 0, 0);
            },
            ConversionMode::OneShot => {
                device.polling_times_out(script, 4, 0);
                device.one_shot_attempt_unfolds(script);
            },
        }
    }

    /// An attempt in one-shot mode whose write succeeds is one write, one
    /// pause of a whole interval, the first read, and what follows it with
    /// four quarter intervals spent.
    proof fn one_shot_attempt_unfolds<E>(self, script: Script<E>)
        requires
            self.sc == ConversionMode::OneShot,
            script.write is Ok,
        ensures
            ({
                let rest = self.run(
                    PollState::Polling(4),
                    Event::Sampled((script.reads)(0)),
                    script,
                    1,
                );
                self.attempt(script) == (Tally {
                    writes: rest.writes + 1,
                    interval_sleeps: rest.interval_sleeps + 1,
                    reads: rest.reads + 1,
                    ..rest
                })
            }),
    {
        let rest = self.run(PollState::Polling(4), Event::Sampled((script.reads)(0)), script, 1);
        assert(self.run(PollState::CoarseWait, Event::<E>::Slept, script, 0) == (Tally {
            reads: rest.reads + 1,
            ..rest
        }));
        assert(self.run(
            PollState::ConversionTriggered,
            Event::Written(script.write),
            script,
            0,
        ) == (Tally { interval_sleeps: rest.interval_sleeps + 1, reads: rest.reads + 1, ..rest }));
    }

    /// An attempt in one-shot mode whose write fails is that write, and ends
    /// with its error.
    proof fn failed_trigger_unfolds<E>(self, script: Script<E>)
        requires
            self.sc == ConversionMode::OneShot,
            script.write is Err,
        ensures
            self.attempt(script) == (Tally {
                writes: 1,
                ..Tally::finished(Err(Error::I2c(script.write->Err_0)))
            }),
    {
        assert(self.run(
            PollState::ConversionTriggered,
            Event::Written(script.write),
            script,
            0,
        ) == Tally::finished(Err(Error::I2c(script.write->Err_0))));
    }

    /// Every attempt ends, whatever the bus does: after at most one write
    /// and six reads, and with pauses that add up to no more than five
    /// quarter intervals, a whole interval counting for four. Only a
    /// converter in one-shot mode is written to, and only after a write that
    /// succeeded is a whole interval spent.
    pub proof fn attempt_is_bounded<E>(device: Device, script: Script<E>)
        ensures
            device.attempt(script).outcome is Some,
            device.attempt(script).writes == (if device.sc == ConversionMode::OneShot {
                1nat
            } else {
                0nat
            }),
            device.attempt(script).interval_sleeps == (if device.sc == ConversionMode::OneShot
                && script.write is Ok {
                1nat
            } else {
                0nat
            }),
            device.attempt(script).reads <= 6,
            4 * device.attempt(script).interval_sleeps + device.attempt(script).quarter_sleeps <= 5,
    {
        match device.sc {
            ConversionMode::Continuous => {
                device.polling_is_bounded(script, 0, 0);
            },
            ConversionMode::OneShot => {
                if script.write is Ok {
                    device.polling_is_bounded(script, 4, 0);
                    device.one_shot_attempt_unfolds(script);
                } else {
                    device.failed_trigger_unfolds(script);
                }
            },
        }
    }

    /// A bus error is handed on at once: where the write that starts a
    /// conversion fails, nothing more is asked of the bus or the timer.
    pub proof fn failed_trigger_ends_the_attempt<E>(device: Device, script: Script<E>, e: E)
        requires
            device.sc == ConversionMode::OneShot,
            script.write == Err::<(), E>(e),
        ensures
            device.attempt(script) == (Tally {
                writes: 1,
                interval_sleeps: 0,
                reads: 0,
                quarter_sleeps: 0,
                outcome: Some(Err(Error::I2c(e))),
            }),
    {
        device.failed_trigger_unfolds(script);
    }

    /// A bus error is handed on at once: where a read fails after `n` stale
    /// reads, with `n` up to five in continuous mode, the attempt ends with
    /// that error and the failed read is its last request.
    pub proof fn failed_read_ends_the_attempt<E>(device: Device, script: Script<E>, n: nat, e: E)
        requires
            device.sc == ConversionMode::Continuous,
            n <= 5,
            forall|i: nat| i < n ==> script.stale_at(i),
            (script.reads)(n) == Err::<[u8; 3], E>(e),
        ensures
            device.attempt(script) == (Tally {
                writes: 0,
                interval_sleeps: 0,
                reads: n + 1,
                quarter_sleeps: n,
                outcome: Some(Err(Error::I2c(e))),
            }),
    {
        device.polling_ends_with_the_first_settled_read(script, 0, 0, n, Err(Error::I2c(e)));
    }
}

} // verus!
