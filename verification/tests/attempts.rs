use ads1110::config::{Address, ConversionMode, DataRate, Gain, Start, WriteSettings};
use ads1110::conversion::{Action, Event, PollState};
use ads1110::{Ads1110, Error};
use embassy_time::Duration;

#[derive(Debug, PartialEq, Clone, Copy)]
struct Nack(u8);

/// What was asked of the bus and of the timer, in order.
#[derive(Debug, PartialEq, Clone, Copy)]
enum Request {
    Write(u8, u8),
    SleepInterval(Duration),
    Read(u8),
    SleepQuarter(Duration),
}

/// A bus that answers from a list, and with `later` once the list is used up.
struct Bus {
    write: Result<(), Nack>,
    reads: Vec<Result<[u8; 3], Nack>>,
    later: Result<[u8; 3], Nack>,
    log: Vec<Request>,
}

impl Bus {
    fn read(&mut self, addr: u8) -> Result<[u8; 3], Nack> {
        self.log.push(Request::Read(addr));
        if self.reads.is_empty() {
            self.later
        } else {
            self.reads.remove(0)
        }
    }

    fn write(&mut self, addr: u8, byte: u8) -> Result<(), Nack> {
        self.log.push(Request::Write(addr, byte));
        self.write
    }

    fn count(&self, wanted: fn(&Request) -> bool) -> usize {
        self.log.iter().filter(|r| wanted(r)).count()
    }

    fn reads_made(&self) -> usize {
        self.count(|r| matches!(r, Request::Read(_)))
    }

    fn writes_made(&self) -> usize {
        self.count(|r| matches!(r, Request::Write(..)))
    }

    fn quarter_sleeps(&self) -> usize {
        self.count(|r| matches!(r, Request::SleepQuarter(_)))
    }

    fn interval_sleeps(&self) -> usize {
        self.count(|r| matches!(r, Request::SleepInterval(_)))
    }
}

const CONTINUOUS_15: u8 = 0b0000_1100;
const ONE_SHOT_60_X4: u8 = 0b0001_0110;
const STALE: u8 = 0b1000_0000;

fn driver(config: u8, reads: Vec<Result<[u8; 3], Nack>>, later: Result<[u8; 3], Nack>) -> Ads1110<Bus> {
    let bus = Bus { write: Ok(()), reads, later, log: Vec::new() };
    match Ads1110::new::<Nack>(bus, Address::A1, Ok([0, 0, config])) {
        Ok(driver) => driver,
        Err(_) => panic!("a read that succeeded makes a driver"),
    }
}

/// Does what the driver asks for until the attempt is over.
fn attempt(driver: &mut Ads1110<Bus>, normalized: bool) -> Result<i16, Error<Nack>> {
    let mut state = PollState::Idle;
    let mut event = Event::Start;
    for _ in 0..100 {
        let step = if normalized {
            driver.read_value_normalized(state, event)
        } else {
            driver.read_value_raw(state, event)
        };
        let (next, action) = match step {
            Some(step) => step,
            None => panic!("the event answers the request before it"),
        };
        state = next;
        event = match action {
            Action::Write { addr, byte } => Event::Written(driver.bus().write(addr, byte)),
            Action::SleepInterval(span) => {
                driver.bus().log.push(Request::SleepInterval(span));
                Event::Slept
            }
            Action::Read { addr } => Event::Sampled(driver.bus().read(addr)),
            Action::SleepQuarter(span) => {
                driver.bus().log.push(Request::SleepQuarter(span));
                Event::Slept
            }
            Action::Finish(result) => return result,
        };
    }
    panic!("the attempt did not end");
}

fn stale(config: u8) -> Result<[u8; 3], Nack> {
    Ok([0x7F, 0xFF, config | STALE])
}

#[test]
fn continuous_fresh_at_once() {
    let mut d = driver(CONTINUOUS_15, vec![Ok([0x12, 0x34, CONTINUOUS_15])], stale(CONTINUOUS_15));
    assert_eq!(attempt(&mut d, false), Ok(0x1234));
    assert_eq!(d.release().log, vec![Request::Read(0x49)]);
}

#[test]
fn continuous_fresh_after_n_stale_reads() {
    for n in 0..=5usize {
        let mut reads = vec![stale(CONTINUOUS_15); n];
        reads.push(Ok([0xFF, 0x85, CONTINUOUS_15]));
        let mut d = driver(CONTINUOUS_15, reads, stale(CONTINUOUS_15));
        assert_eq!(attempt(&mut d, false), Ok(-123));
        let bus = d.release();
        assert_eq!(bus.reads_made(), n + 1);
        assert_eq!(bus.quarter_sleeps(), n);
        assert_eq!(bus.writes_made(), 0);
        assert_eq!(bus.interval_sleeps(), 0);
        assert_eq!(bus.log.len(), 2 * n + 1);
    }
}

#[test]
fn continuous_requests_alternate_read_and_quarter_sleep() {
    let reads = vec![stale(CONTINUOUS_15), stale(CONTINUOUS_15), Ok([0, 5, CONTINUOUS_15])];
    let mut d = driver(CONTINUOUS_15, reads, stale(CONTINUOUS_15));
    assert_eq!(attempt(&mut d, false), Ok(5));
    let quarter = Duration::from_micros(16_667);
    assert_eq!(
        d.release().log,
        vec![
            Request::Read(0x49),
            Request::SleepQuarter(quarter),
            Request::Read(0x49),
            Request::SleepQuarter(quarter),
            Request::Read(0x49),
        ]
    );
}

#[test]
fn continuous_times_out_after_six_reads_and_five_sleeps() {
    let mut d = driver(CONTINUOUS_15, Vec::new(), stale(CONTINUOUS_15));
    assert_eq!(attempt(&mut d, false), Err(Error::Timeout));
    let before = d.device();
    let bus = d.release();
    assert_eq!(bus.reads_made(), 6);
    assert_eq!(bus.quarter_sleeps(), 5);
    assert_eq!(bus.writes_made(), 0);
    assert_eq!(bus.interval_sleeps(), 0);
    assert_eq!(bus.log.last(), Some(&Request::Read(0x49)));
    assert_eq!(before.sc, ConversionMode::Continuous);
}

#[test]
fn continuous_fresh_on_the_seventh_read_comes_too_late() {
    let mut reads = vec![stale(CONTINUOUS_15); 6];
    reads.push(Ok([0, 1, CONTINUOUS_15]));
    let mut d = driver(CONTINUOUS_15, reads, stale(CONTINUOUS_15));
    assert_eq!(attempt(&mut d, false), Err(Error::Timeout));
    assert_eq!(d.release().reads_made(), 6);
}

#[test]
fn one_shot_starts_a_conversion_and_waits_an_interval() {
    let mut d = driver(ONE_SHOT_60_X4, vec![Ok([0x01, 0x00, ONE_SHOT_60_X4])], stale(ONE_SHOT_60_X4));
    assert_eq!(attempt(&mut d, false), Ok(256));
    let start = WriteSettings {
        start: Start::StartConversion,
        sc: ConversionMode::OneShot,
        dr: DataRate::Sps60,
        pga: Gain::X4,
    };
    assert_eq!(start.to_value(), 0b1001_0110);
    assert_eq!(
        d.release().log,
        vec![
            Request::Write(0x49, 0b1001_0110),
            Request::SleepInterval(Duration::from_micros(16_667)),
            Request::Read(0x49),
        ]
    );
}

#[test]
fn one_shot_has_one_quarter_left_after_its_interval() {
    let reads = vec![stale(ONE_SHOT_60_X4), Ok([0x00, 0x07, ONE_SHOT_60_X4])];
    let mut d = driver(ONE_SHOT_60_X4, reads, stale(ONE_SHOT_60_X4));
    assert_eq!(attempt(&mut d, false), Ok(7));
    assert_eq!(
        d.release().log,
        vec![
            Request::Write(0x49, 0b1001_0110),
            Request::SleepInterval(Duration::from_micros(16_667)),
            Request::Read(0x49),
            Request::SleepQuarter(Duration::from_micros(4_167)),
            Request::Read(0x49),
        ]
    );
}

#[test]
fn one_shot_times_out_after_its_interval_and_one_quarter() {
    let mut d = driver(ONE_SHOT_60_X4, Vec::new(), stale(ONE_SHOT_60_X4));
    assert_eq!(attempt(&mut d, false), Err(Error::Timeout));
    let bus = d.release();
    assert_eq!(bus.writes_made(), 1);
    assert_eq!(bus.interval_sleeps(), 1);
    assert_eq!(bus.reads_made(), 2);
    assert_eq!(bus.quarter_sleeps(), 1);
    assert_eq!(bus.log[0], Request::Write(0x49, 0b1001_0110));
    assert_eq!(bus.log[1], Request::SleepInterval(Duration::from_micros(16_667)));
}

#[test]
fn one_shot_write_failure_ends_the_attempt_at_once() {
    let mut d = driver(ONE_SHOT_60_X4, Vec::new(), Ok([0, 1, ONE_SHOT_60_X4]));
    d.bus().write = Err(Nack(3));
    let before = d.device();
    assert_eq!(attempt(&mut d, false), Err(Error::I2c(Nack(3))));
    assert_eq!(d.device(), before);
    assert_eq!(d.release().log, vec![Request::Write(0x49, 0b1001_0110)]);
}

#[test]
fn read_failure_ends_the_attempt_at_once() {
    let reads = vec![stale(CONTINUOUS_15), stale(CONTINUOUS_15), Err(Nack(9))];
    let mut d = driver(CONTINUOUS_15, reads, Ok([0, 1, CONTINUOUS_15]));
    let before = d.device();
    assert_eq!(attempt(&mut d, false), Err(Error::I2c(Nack(9))));
    assert_eq!(d.device(), before);
    let bus = d.release();
    assert_eq!(bus.reads_made(), 3);
    assert_eq!(bus.quarter_sleeps(), 2);
}

#[test]
fn first_read_failure_is_not_retried() {
    let mut d = driver(CONTINUOUS_15, vec![Err(Nack(1))], Ok([0, 1, CONTINUOUS_15]));
    assert_eq!(attempt(&mut d, false), Err(Error::I2c(Nack(1))));
    assert_eq!(d.release().log, vec![Request::Read(0x49)]);
}

#[test]
fn the_cache_decides_not_what_a_read_reports() {
    // The device answers as if it were in one-shot mode; the driver goes by
    // what it remembers.
    let reads = vec![stale(ONE_SHOT_60_X4), Ok([0, 2, ONE_SHOT_60_X4])];
    let mut d = driver(CONTINUOUS_15, reads, stale(CONTINUOUS_15));
    let before = d.device();
    assert_eq!(attempt(&mut d, false), Ok(2));
    assert_eq!(d.device(), before);
    let bus = d.release();
    assert_eq!(bus.writes_made(), 0);
    assert_eq!(bus.log[1], Request::SleepQuarter(Duration::from_micros(16_667)));
}

#[test]
fn the_trigger_carries_the_settings_last_written() {
    let mut d = driver(CONTINUOUS_15, vec![Ok([0, 3, 0])], stale(0));
    let settings = WriteSettings {
        start: Start::DontStart,
        sc: ConversionMode::OneShot,
        dr: DataRate::Sps240,
        pga: Gain::X2,
    };
    assert_eq!(d.write_settings::<Nack>(settings, Ok(())), Ok(()));
    assert_eq!(attempt(&mut d, false), Ok(3));
    assert_eq!(
        d.release().log,
        vec![
            Request::Write(0x49, 0b1001_0001),
            Request::SleepInterval(Duration::from_micros(4_167)),
            Request::Read(0x49),
        ]
    );
}

#[test]
fn a_failed_write_of_settings_leaves_the_next_attempt_as_it_was() {
    let mut d = driver(CONTINUOUS_15, vec![Ok([0, 4, 0])], stale(0));
    let settings = WriteSettings {
        start: Start::DontStart,
        sc: ConversionMode::OneShot,
        dr: DataRate::Sps240,
        pga: Gain::X2,
    };
    assert_eq!(d.write_settings(settings, Err(Nack(5))), Err(Nack(5)));
    assert_eq!(attempt(&mut d, false), Ok(4));
    assert_eq!(d.release().log, vec![Request::Read(0x49)]);
}

#[test]
fn normalized_shifts_by_rate() {
    let table: [(u8, i16); 4] = [
        (0b0000_1100, 0x0123),
        (0b0000_1000, 0x0246),
        (0b0000_0100, 0x048C),
        (0b0000_0000, 0x1230),
    ];
    for (config, expected) in table {
        let mut d = driver(config, vec![Ok([0x01, 0x23, config])], stale(config));
        assert_eq!(attempt(&mut d, true), Ok(expected));
        let mut d = driver(config, vec![Ok([0x01, 0x23, config])], stale(config));
        assert_eq!(attempt(&mut d, false), Ok(0x0123));
    }
}

#[test]
fn normalized_drops_the_bits_that_leave_the_sixteen() {
    let mut d = driver(0, vec![Ok([0x10, 0x00, 0])], stale(0));
    assert_eq!(attempt(&mut d, true), Ok(0));
    let mut d = driver(0, vec![Ok([0xF8, 0x00, 0])], stale(0));
    assert_eq!(attempt(&mut d, true), Ok(-32_768));
    let mut d = driver(0, vec![Ok([0x07, 0xFF, 0])], stale(0));
    assert_eq!(attempt(&mut d, true), Ok(32_752));
}

#[test]
fn normalized_makes_the_same_requests_as_raw() {
    let script = || vec![stale(ONE_SHOT_60_X4), Ok([0x00, 0x07, ONE_SHOT_60_X4])];
    let mut raw = driver(ONE_SHOT_60_X4, script(), stale(ONE_SHOT_60_X4));
    let mut normalized = driver(ONE_SHOT_60_X4, script(), stale(ONE_SHOT_60_X4));
    assert_eq!(attempt(&mut raw, false), Ok(7));
    assert_eq!(attempt(&mut normalized, true), Ok(28));
    assert_eq!(raw.release().log, normalized.release().log);
}

#[test]
fn normalized_hands_errors_on() {
    let mut d = driver(0, Vec::new(), stale(0));
    assert_eq!(attempt(&mut d, true), Err(Error::Timeout));
    let mut d = driver(0, vec![Err(Nack(2))], stale(0));
    assert_eq!(attempt(&mut d, true), Err(Error::I2c(Nack(2))));
}

#[test]
fn step_from_idle_depends_on_the_mode() {
    let d = driver(CONTINUOUS_15, Vec::new(), stale(0));
    assert_eq!(
        d.read_value_raw::<Nack>(PollState::Idle, Event::Start),
        Some((PollState::Polling(0), Action::Read { addr: 0x49 }))
    );
    let d = driver(0b0001_1111, Vec::new(), stale(0));
    assert_eq!(
        d.read_value_raw::<Nack>(PollState::Idle, Event::Start),
        Some((PollState::ConversionTriggered, Action::Write { addr: 0x49, byte: 0b1001_1111 }))
    );
}

#[test]
fn step_after_the_trigger() {
    let d = driver(0b0001_1000, Vec::new(), stale(0));
    assert_eq!(
        d.read_value_raw::<Nack>(PollState::ConversionTriggered, Event::Written(Ok(()))),
        Some((PollState::CoarseWait, Action::SleepInterval(Duration::from_micros(33_333))))
    );
    assert_eq!(
        d.read_value_raw(PollState::ConversionTriggered, Event::Written(Err(Nack(8)))),
        Some((PollState::Failed, Action::Finish(Err(Error::I2c(Nack(8))))))
    );
    assert_eq!(
        d.read_value_raw::<Nack>(PollState::CoarseWait, Event::Slept),
        Some((PollState::Polling(4), Action::Read { addr: 0x49 }))
    );
}

#[test]
fn step_on_a_sample() {
    let d = driver(0b0000_1000, Vec::new(), stale(0));
    for k in 0..5u8 {
        assert_eq!(
            d.read_value_raw::<Nack>(PollState::Polling(k), Event::Sampled(Ok([1, 2, STALE]))),
            Some((
                PollState::QuarterWait(k + 1),
                Action::SleepQuarter(Duration::from_micros(8_333))
            ))
        );
        assert_eq!(
            d.read_value_raw::<Nack>(PollState::QuarterWait(k + 1), Event::Slept),
            Some((PollState::Polling(k + 1), Action::Read { addr: 0x49 }))
        );
    }
    for k in [5u8, 6, 200, 255] {
        assert_eq!(
            d.read_value_raw::<Nack>(PollState::Polling(k), Event::Sampled(Ok([1, 2, STALE]))),
            Some((PollState::TimedOut, Action::Finish(Err(Error::Timeout))))
        );
    }
    for k in [0u8, 4, 5, 255] {
        assert_eq!(
            d.read_value_raw::<Nack>(PollState::Polling(k), Event::Sampled(Ok([1, 2, 0x7F]))),
            Some((PollState::Succeeded, Action::Finish(Ok(0x0102))))
        );
        assert_eq!(
            d.read_value_raw(PollState::Polling(k), Event::Sampled(Err(Nack(k)))),
            Some((PollState::Failed, Action::Finish(Err(Error::I2c(Nack(k))))))
        );
    }
}

#[test]
fn step_refuses_an_event_that_answers_nothing() {
    let d = driver(CONTINUOUS_15, Vec::new(), stale(0));
    let states = [
        PollState::Idle,
        PollState::ConversionTriggered,
        PollState::CoarseWait,
        PollState::Polling(0),
        PollState::QuarterWait(1),
        PollState::Succeeded,
        PollState::TimedOut,
        PollState::Failed,
    ];
    let events = || {
        [
            Event::Start,
            Event::Written(Ok(())),
            Event::Written(Err(Nack(0))),
            Event::Slept,
            Event::Sampled(Ok([0, 0, 0])),
            Event::Sampled(Err(Nack(0))),
        ]
    };
    // which events answer the request made in each state
    let answers = [
        [true, false, false, false, false, false],
        [false, true, true, false, false, false],
        [false, false, false, true, false, false],
        [false, false, false, false, true, true],
        [false, false, false, true, false, false],
        [false; 6],
        [false; 6],
        [false; 6],
    ];
    for (state, row) in states.into_iter().zip(answers) {
        for (event, answered) in events().into_iter().zip(row) {
            assert_eq!(d.read_value_raw(state, event).is_some(), answered);
        }
    }
    for (state, row) in states.into_iter().zip(answers) {
        for (event, answered) in events().into_iter().zip(row) {
            assert_eq!(d.read_value_normalized(state, event).is_some(), answered);
        }
    }
}
