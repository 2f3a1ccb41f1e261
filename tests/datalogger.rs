use datalogger::args::Args;
use datalogger::error::ErrorKind;
use datalogger::measure::{Measure, Reading, Stamp};
use datalogger::sampler::{
    acquire_cycle, handle_read, retry, sleep_nanos, CycleEnd, SensorOutcome, MAX_RETRIES,
};
use datalogger::sink::{csv_chunk, csv_file_stem, Sink};

fn stamp(year: i32, month: u32, day: u32, hour: u32, minute: u32, second: u32) -> Stamp {
    Stamp { year, month, day, hour, minute, second, nanosecond: 0, offset: 3600 }
}

fn measure(humidity: u16, temperature: i16, st: Stamp) -> Measure {
    Measure::new(Reading { humidity, temperature }, st)
}

fn args(csv: bool, pipe: bool, quiet: bool) -> Args {
    Args {
        pin: 4,
        interval: 2,
        pipe,
        directory: String::from("/tmp/x"),
        format: String::from("%Y%m%d"),
        csv,
        quiet,
    }
}

/// Appends as the sink does: open, look at the size, write the chunk.
fn append(file: &mut String, m: &Measure) {
    let chunk = csv_chunk(m, file.len() as u64);
    file.push_str(&chunk);
}

#[test]
fn retry_counts_until_the_bound() {
    let mut retries: u8 = 0;
    assert!(retry(&mut retries).is_ok());
    assert_eq!(retries, 1);
    let mut retries: u8 = MAX_RETRIES - 2;
    assert!(retry(&mut retries).is_ok());
    assert_eq!(retries, MAX_RETRIES - 1);
    assert!(matches!(retry(&mut retries), Err(ErrorKind::MaxRetries)));
    assert_eq!(retries, MAX_RETRIES);
    assert!(matches!(retry(&mut retries), Err(ErrorKind::MaxRetries)));
    assert_eq!(retries, MAX_RETRIES);
}

#[test]
fn always_timeout_fails_after_twenty_reads() {
    let outs: Vec<SensorOutcome> = (0..30).map(|_| SensorOutcome::Timeout).collect();
    let (end, reads) = acquire_cycle(&outs);
    assert!(matches!(end, CycleEnd::Failed(ErrorKind::MaxRetries)));
    assert_eq!(reads, 20);
}

#[test]
fn mixed_transient_failures_share_one_bound() {
    let outs: Vec<SensorOutcome> = (0..30)
        .map(|i| if i % 2 == 0 { SensorOutcome::Timeout } else { SensorOutcome::Checksum })
        .collect();
    let (end, reads) = acquire_cycle(&outs);
    assert!(matches!(end, CycleEnd::Failed(ErrorKind::MaxRetries)));
    assert_eq!(reads, 20);
}

#[test]
fn reading_on_the_twentieth_read_is_too_late() {
    let mut outs: Vec<SensorOutcome> = (0..19).map(|_| SensorOutcome::Timeout).collect();
    outs.push(SensorOutcome::Measured(Reading { humidity: 500, temperature: 200 }));
    let (end, reads) = acquire_cycle(&outs);
    assert!(matches!(end, CycleEnd::Sampled(Reading { humidity: 500, temperature: 200 })));
    assert_eq!(reads, 20);
}

#[test]
fn gpio_fault_is_fatal_at_once() {
    let outs = vec![
        SensorOutcome::Gpio(String::from("no such pin")),
        SensorOutcome::Measured(Reading { humidity: 450, temperature: 220 }),
    ];
    let (end, reads) = acquire_cycle(&outs);
    match end {
        CycleEnd::Failed(ErrorKind::GpioError(cause)) => assert_eq!(cause, "no such pin"),
        other => panic!("unexpected end {:?}", other),
    }
    assert_eq!(reads, 1);
    let mut retries: u8 = 0;
    let r = handle_read(&mut retries, &SensorOutcome::Gpio(String::from("busy")));
    assert!(matches!(r, Err(ErrorKind::GpioError(_))));
    assert_eq!(retries, 0);
}

#[test]
fn transient_then_reading_is_sampled() {
    let outs = vec![
        SensorOutcome::Checksum,
        SensorOutcome::Timeout,
        SensorOutcome::Measured(Reading { humidity: 451, temperature: -35 }),
    ];
    let (end, reads) = acquire_cycle(&outs);
    assert!(matches!(end, CycleEnd::Sampled(Reading { humidity: 451, temperature: -35 })));
    assert_eq!(reads, 3);
    let (end, reads) = acquire_cycle(&vec![SensorOutcome::Timeout]);
    assert!(matches!(end, CycleEnd::Exhausted));
    assert_eq!(reads, 1);
}

#[test]
fn handle_read_counts_transient_failures() {
    let mut retries: u8 = 3;
    assert!(matches!(handle_read(&mut retries, &SensorOutcome::Timeout), Ok(None)));
    assert_eq!(retries, 4);
    let got = handle_read(&mut retries, &SensorOutcome::Measured(Reading { humidity: 1, temperature: 2 }));
    assert!(matches!(got, Ok(Some(Reading { humidity: 1, temperature: 2 }))));
    assert_eq!(retries, 4);
    let mut last: u8 = MAX_RETRIES - 1;
    assert!(matches!(handle_read(&mut last, &SensorOutcome::Checksum), Err(ErrorKind::MaxRetries)));
    assert_eq!(last, MAX_RETRIES);
    assert!(matches!(handle_read(&mut last, &SensorOutcome::Timeout), Err(ErrorKind::MaxRetries)));
    assert_eq!(last, MAX_RETRIES);
}

#[test]
fn sleep_is_interval_less_elapsed() {
    assert_eq!(sleep_nanos(2, 500_000_000), 1_500_000_000);
    assert_eq!(sleep_nanos(120, 0), 120_000_000_000);
    assert_eq!(sleep_nanos(2, 2_000_000_000), 0);
    assert_eq!(sleep_nanos(2, 3_500_000_000), 0);
    assert_eq!(sleep_nanos(u16::MAX, u64::MAX), 0);
    // Two cycles of 300 ms: the stamps are one interval apart.
    let d: u64 = 300_000_000;
    let first = d;
    let second = first + sleep_nanos(2, d) + d;
    assert_eq!(second - first, 2_000_000_000);
    // Two cycles of 2.5 s: the stamps are one cycle apart.
    let d: u64 = 2_500_000_000;
    let second = d + sleep_nanos(2, d) + d;
    assert_eq!(second - d, d);
}

#[test]
fn one_signal_flips_from_the_next_measure_on() {
    let mut sink = Sink::new(&args(false, false, false));
    let signals = [false, false, true, false, false];
    let persisted: Vec<bool> = signals.iter().map(|s| sink.observe_toggle(*s)).collect();
    assert_eq!(persisted, vec![false, false, true, true, true]);
    let mut sink = Sink::new(&args(true, false, false));
    assert!(sink.observe_toggle(false));
    assert!(!sink.observe_toggle(true));
    assert!(!sink.observe_toggle(false));
    assert!(sink.observe_toggle(true));
    assert!(sink.csv);
}

#[test]
fn header_only_for_an_empty_file() {
    let m = measure(450, 220, stamp(2024, 1, 2, 3, 4, 5));
    assert_eq!(csv_chunk(&m, 0), "DATE,TIME,HUMIDITY,TEMPERATURE\n2024-01-02,03:04:05,45,22\n");
    assert_eq!(csv_chunk(&m, 1), "2024-01-02,03:04:05,45,22\n");
    assert_eq!(csv_chunk(&m, 5000), "2024-01-02,03:04:05,45,22\n");
}

#[test]
fn many_append_sessions_keep_one_header() {
    let mut file = String::new();
    for i in 0..5u32 {
        append(&mut file, &measure(400 + i as u16, 200, stamp(2024, 1, 2, 3, 4, i)));
    }
    let headers = file.lines().filter(|l| *l == "DATE,TIME,HUMIDITY,TEMPERATURE").count();
    assert_eq!(headers, 1);
    assert!(file.starts_with("DATE,TIME,HUMIDITY,TEMPERATURE\n"));
    assert_eq!(file.lines().count(), 6);
    let mut old = String::from("2024-01-01,23:59:58,50,10\n");
    append(&mut old, &measure(451, 221, stamp(2024, 1, 2, 0, 0, 0)));
    assert_eq!(old, "2024-01-01,23:59:58,50,10\n2024-01-02,00:00:00,45.1,22.1\n");
}

#[test]
fn row_formats() {
    let m = measure(465, 225, stamp(2024, 12, 31, 23, 59, 7));
    assert_eq!(m.to_csv(), "2024-12-31,23:59:07,46.5,22.5\n");
    assert_eq!(m.to_pipe(), "46.5,22.5");
    assert_eq!(
        m.to_display(),
        "Date: 2024-12-31,  Time: 23:59:07, Humidity: 46.5%, Temperature: 22.5\u{b0}C"
    );
    let cold = measure(1000, -5, stamp(42, 3, 9, 0, 0, 0));
    assert_eq!(cold.to_csv(), "0042-03-09,00:00:00,100,-0.5\n");
    let colder = measure(0, -123, stamp(-7, 1, 1, 1, 1, 1));
    assert_eq!(colder.to_pipe(), "0,-12.3");
    assert_eq!(colder.to_csv(), "-0007-01-01,01:01:01,0,-12.3\n");
    let far = measure(9, 10, stamp(12345, 6, 7, 8, 9, 10));
    assert_eq!(far.to_csv(), "+12345-06-07,08:09:10,0.9,1\n");
    let mut leap = stamp(2016, 12, 31, 23, 59, 59);
    leap.nanosecond = 1_200_000_000;
    assert_eq!(measure(655, 32767, leap).to_csv(), "2016-12-31,23:59:60,65.5,3276.7\n");
}

#[test]
fn file_stem_follows_the_pattern() {
    let now = stamp(2024, 1, 2, 3, 4, 5);
    assert_eq!(csv_file_stem("%Y%m%d", &now).unwrap(), "20240102");
    assert_eq!(csv_file_stem("log-%H%M", &now).unwrap(), "log-0304");
    assert_eq!(csv_file_stem("%z", &now).unwrap(), "+0100");
    match csv_file_stem("%Q", &now) {
        Err(e) => assert_eq!(e.message(), "invalid file name format '%Q'"),
        Ok(s) => panic!("accepted a bad pattern: {}", s),
    }
    assert!(csv_file_stem("%Y", &stamp(2024, 13, 1, 0, 0, 0)).is_err());
}

#[test]
fn console_lines() {
    let m = measure(450, 220, stamp(2024, 1, 2, 3, 4, 5));
    assert_eq!(Sink::new(&args(false, true, false)).console_line(&m), Some(String::from("45,22")));
    assert_eq!(
        Sink::new(&args(false, false, false)).console_line(&m),
        Some(String::from("Date: 2024-01-02,  Time: 03:04:05, Humidity: 45%, Temperature: 22\u{b0}C"))
    );
    assert_eq!(Sink::new(&args(true, true, true)).console_line(&m), None);
}

#[test]
fn error_messages() {
    let p = || String::from("/tmp/x/a.csv");
    let c = || String::from("denied");
    assert_eq!(ErrorKind::GpioError(c()).message(), "unable to access GPIO pins denied");
    assert_eq!(ErrorKind::MaxRetries.message(), "reached max retries while reading DHT22 sensor");
    assert_eq!(ErrorKind::FileOpenErr(p(), c()).message(), "unable to open '/tmp/x/a.csv': denied");
    assert_eq!(
        ErrorKind::FileWriteErr(p(), c()).message(),
        "unable to write to '/tmp/x/a.csv': denied"
    );
    assert_eq!(
        ErrorKind::FileMetadataErr(p(), c()).message(),
        "unable to access '/tmp/x/a.csv' metadata: denied"
    );
    assert_eq!(ErrorKind::MsgPassingErr.message(), "unable to send messages between threads");
    assert_eq!(
        ErrorKind::MkDirErr(p(), c()).message(),
        "unable to create directory '/tmp/x/a.csv': denied"
    );
    assert_eq!(ErrorKind::Other(String::from("boom")).message(), "boom");
}

#[test]
fn three_readings_end_to_end() {
    let a = args(true, false, false);
    let mut sink = Sink::new(&a);
    let readings = [(450u16, 220i16), (460, 225), (445, 218)];
    let mut file = String::new();
    let mut stem = String::new();
    for (i, (h, t)) in readings.iter().enumerate() {
        let outs = vec![SensorOutcome::Timeout, SensorOutcome::Measured(Reading { humidity: *h, temperature: *t })];
        let (end, _) = acquire_cycle(&outs);
        let reading = match end {
            CycleEnd::Sampled(r) => r,
            other => panic!("unexpected end {:?}", other),
        };
        let now = stamp(2024, 5, 6, 7, 8, 10 + 2 * i as u32);
        let m = Measure::new(reading, now);
        if sink.observe_toggle(false) {
            stem = csv_file_stem(&a.format, &now).unwrap();
            append(&mut file, &m);
        }
    }
    assert_eq!(stem, "20240506");
    assert_eq!(
        file,
        "DATE,TIME,HUMIDITY,TEMPERATURE\n\
         2024-05-06,07:08:10,45,22\n\
         2024-05-06,07:08:12,46,22.5\n\
         2024-05-06,07:08:14,44.5,21.8\n"
    );
}
