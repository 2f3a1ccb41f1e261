//! One sensor reading with the local date and time at which it was taken, and
//! the texts that the log file and the console show for it.

use crate::text::{padded, push_padded, push_tenths, tenths_text};
use vstd::prelude::*;

verus! {

/// A reading of the sensor, both values in tenths: the sensor reports
/// humidity (percent) and temperature (degrees Celsius) with one decimal.
#[derive(Clone, Copy, Debug)]
pub struct Reading {
    pub humidity: u16,
    pub temperature: i16,
}

/// A local date and time, as the clock gives it, with the offset of the local
/// zone from UTC in seconds (positive east of Greenwich).
#[derive(Clone, Copy, Debug)]
pub struct Stamp {
    pub year: i32,
    pub month: u32,
    pub day: u32,
    pub hour: u32,
    pub minute: u32,
    pub second: u32,
    /// Nanoseconds past the second; one second or more marks a leap second.
    pub nanosecond: u32,
    pub offset: i32,
}

/// A reading and the moment it was taken.
#[derive(Clone, Copy, Debug)]
pub struct Measure {
    pub reading: Reading,
    pub stamp: Stamp,
}

/// The year with at least four digits; outside `0..=9999` with its sign.
pub open spec fn year_text(y: int) -> Seq<char> {
    if 0 <= y <= 9999 {
        padded(y as nat, 4)
    } else if y < 0 {
        seq!['-'] + padded((-y) as nat, 4)
    } else {
        seq!['+'] + padded(y as nat, 4)
    }
}

/// `YYYY-MM-DD`.
pub open spec fn date_text(s: Stamp) -> Seq<char> {
    year_text(s.year as int) + seq!['-'] + padded(s.month as nat, 2) + seq!['-'] + padded(
        s.day as nat,
        2,
    )
}

/// The second as the clock shows it: 60 during a leap second.
pub open spec fn shown_second(s: Stamp) -> nat {
    (s.second + s.nanosecond / 1_000_000_000) as nat
}

/// `HH:MM:SS`.
pub open spec fn time_text(s: Stamp) -> Seq<char> {
    padded(s.hour as nat, 2) + seq![':'] + padded(s.minute as nat, 2) + seq![':'] + padded(
        shown_second(s),
        2,
    )
}

/// The first row of every log file.
pub open spec fn header_line() -> Seq<char> {
    "DATE,TIME,HUMIDITY,TEMPERATURE\n"@
}

/// One data row of a log file: `date,time,humidity,temperature`.
pub open spec fn csv_row(m: Measure) -> Seq<char> {
    date_text(m.stamp) + seq![','] + time_text(m.stamp) + seq![','] + tenths_text(
        m.reading.humidity as int,
    ) + seq![','] + tenths_text(m.reading.temperature as int) + seq!['\n']
}

/// `humidity,temperature`, for use in a pipeline.
pub open spec fn pipe_text(m: Measure) -> Seq<char> {
    tenths_text(m.reading.humidity as int) + seq![','] + tenths_text(
        m.reading.temperature as int,
    )
}

/// The line shown on the console with labels and units.
pub open spec fn display_text(m: Measure) -> Seq<char> {
    "Date: "@ + date_text(m.stamp) + ",  Time: "@ + time_text(m.stamp) + ", Humidity: "@
        + tenths_text(m.reading.humidity as int) + "%, Temperature: "@ + tenths_text(
        m.reading.temperature as int,
    ) + "\u{b0}C"@
}

/// What chrono writes for the stamp under a strftime pattern; `None` where
/// it rejects the pattern or the stamp is no date and time of its calendar.
pub uninterp spec fn strftime_text(pattern: Seq<char>, stamp: Stamp) -> Option<Seq<char>>;

/// Relies on chrono: `FixedOffset::east_opt`, `NaiveDate::from_ymd_opt`,
/// `NaiveDate::and_hms_nano_opt` and `TimeZone::from_local_datetime` build the
/// date and time, and `DateTime::format(pattern)` written with
/// `DelayedFormat::write_to` gives the text, or an error for a bad pattern.
/// The outcome depends on the pattern and the stamp alone.
#[verifier::external_body]
pub(crate) fn format_stamp(pattern: &str, stamp: &Stamp) -> (r: Option<String>)
    ensures
        strftime_text(pattern@, *stamp) == match r {
            Some(s) => Some(s@),
            None => None::<Seq<char>>,
        },
{
    let offset = chrono::FixedOffset::east_opt(stamp.offset)?;
    let date = chrono::NaiveDate::from_ymd_opt(stamp.year, stamp.month, stamp.day)?;
    let local = date.and_hms_nano_opt(stamp.hour, stamp.minute, stamp.second, stamp.nanosecond)?;
    let when = chrono::TimeZone::from_local_datetime(&offset, &local).single()?;
    let mut text = String::new();
    when.format(pattern).write_to(&mut text).ok()?;
    Some(text)
}

fn push_year(out: &mut String, y: i32)
    ensures
        final(out)@ == old(out)@ + year_text(y as int),
{
    let ghost start = out@;
    if 0 <= y && y <= 9999 {
        push_padded(out, y as u64, 4);
    } else {
        let m: u64 = if y < 0 {
            proof {
                reveal_strlit("-");
            }
            out.append("-");
            (-(y as i64)) as u64
        } else {
            proof {
                reveal_strlit("+");
            }
            out.append("+");
            y as u64
        };
        push_padded(out, m, 4);
        assert(out@ =~= start + year_text(y as int));
    }
}

fn push_date(out: &mut String, s: &Stamp)
    ensures
        final(out)@ == old(out)@ + date_text(*s),
{
    let ghost start = out@;
    proof {
        reveal_strlit("-");
    }
    push_year(out, s.year);
    out.append("-");
    push_padded(out, s.month as u64, 2);
    out.append("-");
    push_padded(out, s.day as u64, 2);
    assert(out@ =~= start + date_text(*s));
}

fn push_time(out: &mut String, s: &Stamp)
    ensures
        final(out)@ == old(out)@ + time_text(*s),
{
    let ghost start = out@;
    proof {
        reveal_strlit(":");
    }
    push_padded(out, s.hour as u64, 2);
    out.append(":");
    push_padded(out, s.minute as u64, 2);
    out.append(":");
    push_padded(out, s.second as u64 + (s.nanosecond / 1_000_000_000) as u64, 2);
    assert(out@ =~= start + time_text(*s));
}

impl Measure {
    pub fn new(reading: Reading, stamp: Stamp) -> (r: Measure)
        ensures
            r.reading == reading,
            r.stamp == stamp,
    {
        Measure { reading, stamp }
    }

    /// The log-file row for this measure, newline included.
    pub fn to_csv(&self) -> (r: String)
        ensures
            r@ == csv_row(*self),
    {
        proof {
            reveal_strlit(",");
            reveal_strlit("\n");
        }
        let mut out = String::new();
        push_date(&mut out, &self.stamp);
        out.append(",");
        push_time(&mut out, &self.stamp);
        out.append(",");
        push_tenths(&mut out, self.reading.humidity as i32);
        out.append(",");
        push_tenths(&mut out, self.reading.temperature as i32);
        out.append("\n");
        assert(out@ =~= csv_row(*self));
        out
    }

    /// `humidity,temperature`.
    pub fn to_pipe(&self) -> (r: String)
        ensures
            r@ == pipe_text(*self),
    {
        proof {
            reveal_strlit(",");
        }
        let mut out = String::new();
        push_tenths(&mut out, self.reading.humidity as i32);
        out.append(",");
        push_tenths(&mut out, self.reading.temperature as i32);
        assert(out@ =~= pipe_text(*self));
        out
    }

    /// The labelled console line: date, time, humidity in `%`, temperature in
    /// degrees Celsius.
    pub fn to_display(&self) -> (r: String)
        ensures
            r@ == display_text(*self),
    {
        let mut out = String::new();
        out.append("Date: ");
        push_date(&mut out, &self.stamp);
        out.append(",  Time: ");
        push_time(&mut out, &self.stamp);
        out.append(", Humidity: ");
        push_tenths(&mut out, self.reading.humidity as i32);
        out.append("%, Temperature: ");
        push_tenths(&mut out, self.reading.temperature as i32);
        out.append("\u{b0}C");
        assert(out@ =~= display_text(*self));
        out
    }
}

} // verus!
