//! The settings that the datalogger runs with.

use vstd::prelude::*;

verus! {

/// Humidity & temperature datalogger settings, resolved before sampling starts.
#[derive(Debug)]
pub struct Args {
    /// GPIO pin of the sensor's data line.
    pub pin: u8,
    /// Seconds between consecutive measures (at least 2).
    pub interval: u16,
    /// Print `humidity,temperature` for use in a pipeline.
    pub pipe: bool,
    /// Directory of the log files.
    pub directory: String,
    /// strftime pattern of the log files' names.
    pub format: String,
    /// Write each measure to a log file (toggled at runtime).
    pub csv: bool,
    /// Print nothing to the console.
    pub quiet: bool,
}

/// The shortest interval between measures that the sensor supports.
pub const MIN_INTERVAL: u16 = 2;

impl Args {
    /// Settings that the sampler can run with.
    pub open spec fn valid(&self) -> bool {
        self.interval >= MIN_INTERVAL
    }
}

} // verus!
