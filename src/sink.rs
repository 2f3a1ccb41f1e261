//! The sink: what happens to each delivered measure.
//!
//! Opening, measuring and writing the log file, reading the toggle flag and
//! printing are done outside; the sink decides the persistence mode, the text
//! to append and the line to print.

use crate::args::Args;
use crate::error::ErrorKind;
use crate::measure::{
    csv_row,
    date_text,
    display_text,
    format_stamp,
    header_line,
    pipe_text,
    strftime_text,
    year_text,
    Measure,
    Stamp,
};
use crate::text::{decimal, padded};
use vstd::prelude::*;

verus! {

/// Output settings of the sink, with the persistence mode that the toggle
/// flips at runtime.
#[derive(Debug)]
pub struct Sink {
    /// Measures are appended to the log file.
    pub csv: bool,
    /// The console shows `humidity,temperature`.
    pub pipe: bool,
    /// The console shows nothing.
    pub quiet: bool,
}

/// The persistence mode after the toggle checks of successive measures, each
/// entry telling whether the toggle was found set at that check.
pub open spec fn mode_after(init: bool, signals: Seq<bool>) -> bool
    decreases signals.len(),
{
    if signals.len() == 0 {
        init
    } else {
        mode_after(init, signals.drop_last()) != signals.last()
    }
}

/// The text appended to a log file for a measure: the header row first when
/// the file is empty.
pub open spec fn chunk_text(m: Measure, empty: bool) -> Seq<char> {
    if empty {
        header_line() + csv_row(m)
    } else {
        csv_row(m)
    }
}

/// A log file's text after appending the measures one by one, each append
/// opening the file anew.
pub open spec fn log_after(file: Seq<char>, ms: Seq<Measure>) -> Seq<char>
    decreases ms.len(),
{
    if ms.len() == 0 {
        file
    } else {
        log_after(file + chunk_text(ms[0], file.len() == 0), ms.drop_first())
    }
}

/// The data rows of the measures, in order.
pub open spec fn rows(ms: Seq<Measure>) -> Seq<char>
    decreases ms.len(),
{
    if ms.len() == 0 {
        Seq::empty()
    } else {
        csv_row(ms[0]) + rows(ms.drop_first())
    }
}

/// The text of the error for a file-name pattern that chrono rejects.
pub open spec fn bad_format_text(format: Seq<char>) -> Seq<char> {
    "invalid file name format '"@ + format + "'"@
}

impl Sink {
    pub fn new(args: &Args) -> (r: Sink)
        ensures
            r.csv == args.csv,
            r.pipe == args.pipe,
            r.quiet == args.quiet,
    {
        Sink { csv: args.csv, pipe: args.pipe, quiet: args.quiet }
    }

    /// The toggle check made for each measure: a set flag flips the
    /// persistence mode. Returns whether this measure is persisted.
    pub fn observe_toggle(&mut self, signalled: bool) -> (persist: bool)
        ensures
            final(self).csv == (old(self).csv != signalled),
            final(self).pipe == old(self).pipe,
            final(self).quiet == old(self).quiet,
            persist == final(self).csv,
    {
        if signalled {
            self.csv = !self.csv;
        }
        self.csv
    }

    /// The console line for a measure, if any.
    pub fn console_line(&self, m: &Measure) -> (r: Option<String>)
        ensures
            self.quiet ==> r is None,
            !self.quiet && self.pipe ==> (r matches Some(s) && s@ == pipe_text(*m)),
            !self.quiet && !self.pipe ==> (r matches Some(s) && s@ == display_text(*m)),
    {
        if self.quiet {
            None
        } else if self.pipe {
            Some(m.to_pipe())
        } else {
            Some(m.to_display())
        }
    }
}

/// The text to append for a measure to a log file that holds `file_len`
/// bytes when opened: the header row comes first exactly when it is empty.
pub fn csv_chunk(m: &Measure, file_len: u64) -> (r: String)
    ensures
        r@ == chunk_text(*m, file_len == 0),
{
    let row = m.to_csv();
    if file_len == 0 {
        let mut out = String::from_str("DATE,TIME,HUMIDITY,TEMPERATURE\n");
        out.append(row.as_str());
        out
    } else {
        row
    }
}

/// The name of the log file, without directory or extension: the local time
/// `now` under the strftime pattern `format`.
pub fn csv_file_stem(format: &str, now: &Stamp) -> (r: Result<String, ErrorKind>)
    ensures
        r is Ok <==> strftime_text(format@, *now) is Some,
        r matches Ok(s) ==> strftime_text(format@, *now) == Some(s@),
        r matches Err(e) ==> (e matches ErrorKind::Other(msg) && msg@ == bad_format_text(format@)),
{
    match format_stamp(format, now) {
        Some(stem) => Ok(stem),
        None => {
            let mut msg = String::from_str("invalid file name format '");
            msg.append(format);
            msg.append("'");
            Err(ErrorKind::Other(msg))
        },
    }
}

proof fn lemma_mode_prefix(init: bool, signals: Seq<bool>, k: int, i: int)
    requires
        0 <= k < signals.len(),
        forall|j: int| 0 <= j < signals.len() && j != k ==> !#[trigger] signals[j],
        signals[k],
        0 <= i <= signals.len(),
    ensures
        mode_after(init, signals.take(i)) == if i <= k {
            init
        } else {
            !init
        },
    decreases i,
{
    if i > 0 {
        lemma_mode_prefix(init, signals, k, i - 1);
        assert(signals.take(i).drop_last() =~= signals.take(i - 1));
    } else {
        assert(signals.take(0) =~= Seq::<bool>::empty());
    }
}

/// One toggle signal, found at the check for measure `k`, flips the
/// persistence mode once: measures before `k` keep the initial mode, and
/// measure `k` and all after it have the other one.
pub proof fn lemma_single_toggle(init: bool, signals: Seq<bool>, k: int, i: int)
    requires
        0 <= k < signals.len(),
        signals[k],
        forall|j: int| 0 <= j < signals.len() && j != k ==> !#[trigger] signals[j],
        0 <= i < signals.len(),
    ensures
        mode_after(init, signals.take(i + 1)) == if i < k {
            init
        } else {
            !init
        },
{
    lemma_mode_prefix(init, signals, k, i + 1);
}

proof fn lemma_decimal_starts_with_digit(n: nat)
    ensures
        decimal(n).len() >= 1,
        '0' <= decimal(n)[0] <= '9',
    decreases n,
{
    if n >= 10 {
        lemma_decimal_starts_with_digit(n / 10);
    }
}

proof fn lemma_row_is_no_header(m: Measure)
    ensures
        csv_row(m) != header_line(),
{
    reveal_strlit("DATE,TIME,HUMIDITY,TEMPERATURE\n");
    let y = m.stamp.year as int;
    if 0 <= y <= 9999 {
        lemma_decimal_starts_with_digit(y as nat);
        assert(padded(y as nat, 4)[0] != 'D');
    }
    assert(year_text(y)[0] != 'D');
    assert(date_text(m.stamp)[0] == year_text(y)[0]);
    assert(csv_row(m)[0] == date_text(m.stamp)[0]);
}

/// However many times measures are appended to a log file, it holds at most
/// one header row: an empty file gets the header with its first row and never
/// again, a file with content gets data rows only, and no data row reads as
/// the header.
pub proof fn lemma_single_header(file: Seq<char>, ms: Seq<Measure>)
    ensures
        log_after(file, ms) == if file.len() == 0 && ms.len() > 0 {
            header_line() + rows(ms)
        } else {
            file + rows(ms)
        },
        forall|i: int| 0 <= i < ms.len() ==> csv_row(#[trigger] ms[i]) != header_line(),
    decreases ms.len(),
{
    assert forall|i: int| 0 <= i < ms.len() implies csv_row(#[trigger] ms[i]) != header_line() by {
        lemma_row_is_no_header(ms[i]);
    }
    if ms.len() == 0 {
        assert(file + rows(ms) =~= file);
    } else {
        let next = file + chunk_text(ms[0], file.len() == 0);
        reveal_strlit("DATE,TIME,HUMIDITY,TEMPERATURE\n");
        assert(next.len() > 0);
        lemma_single_header(next, ms.drop_first());
        if file.len() == 0 {
            assert(header_line() + csv_row(ms[0]) + rows(ms.drop_first()) =~= header_line() + rows(
                ms,
            ));
        } else {
            assert(file + csv_row(ms[0]) + rows(ms.drop_first()) =~= file + rows(ms));
        }
    }
}

} // verus!
