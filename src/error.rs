//! The errors that stop the datalogger.

use vstd::prelude::*;

verus! {

/// A fatal condition. Paths and causes are carried as the text that names them.
#[derive(Debug)]
pub enum ErrorKind {
    /// The GPIO pins could not be used to read the sensor.
    GpioError(String),
    /// The sensor gave no valid reading within the retry bound.
    MaxRetries,
    /// A log file could not be opened: path and cause.
    FileOpenErr(String, String),
    /// A log file could not be written: path and cause.
    FileWriteErr(String, String),
    /// A log file's metadata could not be read: path and cause.
    FileMetadataErr(String, String),
    /// Measures could not be handed from the sampler to the sink.
    MsgPassingErr,
    /// The log directory could not be created: path and cause.
    MkDirErr(String, String),
    /// Any other error.
    Other(String),
}

/// The one-line description of an error.
pub open spec fn message_text(e: ErrorKind) -> Seq<char> {
    match e {
        ErrorKind::GpioError(cause) => "unable to access GPIO pins "@ + cause@,
        ErrorKind::MaxRetries => "reached max retries while reading DHT22 sensor"@,
        ErrorKind::FileOpenErr(path, cause) => "unable to open '"@ + path@ + "': "@ + cause@,
        ErrorKind::FileWriteErr(path, cause) => "unable to write to '"@ + path@ + "': "@ + cause@,
        ErrorKind::FileMetadataErr(path, cause) => "unable to access '"@ + path@ + "' metadata: "@
            + cause@,
        ErrorKind::MsgPassingErr => "unable to send messages between threads"@,
        ErrorKind::MkDirErr(path, cause) => "unable to create directory '"@ + path@ + "': "@
            + cause@,
        ErrorKind::Other(msg) => msg@,
    }
}

fn quoted(lead: &str, path: &String, mid: &str, cause: &String) -> (r: String)
    ensures
        r@ == lead@ + path@ + mid@ + cause@,
{
    let mut out = String::from_str(lead);
    out.append(path.as_str());
    out.append(mid);
    out.append(cause.as_str());
    out
}

impl ErrorKind {
    /// The one-line description of this error.
    pub fn message(&self) -> (r: String)
        ensures
            r@ == message_text(*self),
    {
        match self {
            ErrorKind::GpioError(cause) => {
                let mut out = String::from_str("unable to access GPIO pins ");
                out.append(cause.as_str());
                out
            },
            ErrorKind::MaxRetries => String::from_str(
                "reached max retries while reading DHT22 sensor",
            ),
            ErrorKind::FileOpenErr(path, cause) => quoted("unable to open '", path, "': ", cause),
            ErrorKind::FileWriteErr(path, cause) => quoted(
                "unable to write to '",
                path,
                "': ",
                cause,
            ),
            ErrorKind::FileMetadataErr(path, cause) => quoted(
                "unable to access '",
                path,
                "' metadata: ",
                cause,
            ),
            ErrorKind::MsgPassingErr => String::from_str("unable to send messages between threads"),
            ErrorKind::MkDirErr(path, cause) => quoted(
                "unable to create directory '",
                path,
                "': ",
                cause,
            ),
            ErrorKind::Other(msg) => msg.clone(),
        }
    }
}

} // verus!
