//! How the process writes its log events, chosen once at startup.

use vstd::prelude::*;
use crate::text::str_equal;

verus! {

/// Layout of written events.
#[derive(Clone, Debug, PartialEq, Eq)]
pub enum LogFormat {
    Json,
    Pretty,
}

/// Destination of written events.
#[derive(Clone, Debug, PartialEq, Eq)]
pub enum LogOutput {
    Stdout,
    File { directory: String },
}

/// The logging settings of the process.
#[derive(Clone, Debug, PartialEq, Eq)]
pub struct LoggingConfig {
    pub level: String,
    pub format: LogFormat,
    pub output: LogOutput,
}

impl LoggingConfig {
    /// Settings from the values of the level, format and output variables
    /// (`None` where unset): the level defaults to `info`; the format is
    /// JSON only for exactly `json`, else pretty; the output is a directory
    /// for any value but `stdout`, else standard output.
    pub fn from_vars(level: Option<String>, format: Option<String>, output: Option<String>) -> (r: LoggingConfig)
        ensures
            r.level@ == match level {
                Some(l) => l@,
                None => "info"@,
            },
            r.format == if format matches Some(f) && f@ == "json"@ {
                LogFormat::Json
            } else {
                LogFormat::Pretty
            },
            r.output == match output {
                Some(o) => if o@ == "stdout"@ {
                    LogOutput::Stdout
                } else {
                    LogOutput::File { directory: o }
                },
                None => LogOutput::Stdout,
            },
    {
        let level = match level {
            Some(l) => l,
            None => String::from_str("info"),
        };
        let format = match format {
            Some(f) => if str_equal(f.as_str(), "json") {
                LogFormat::Json
            } else {
                LogFormat::Pretty
            },
            None => LogFormat::Pretty,
        };
        let output = match output {
            Some(o) => if str_equal(o.as_str(), "stdout") {
                LogOutput::Stdout
            } else {
                LogOutput::File { directory: o }
            },
            None => LogOutput::Stdout,
        };
        LoggingConfig { level, format, output }
    }

    /// Whether events are also written to a file.
    pub fn writes_file(&self) -> (r: bool)
        ensures
            r == (self.output is File),
    {
        match self.output {
            LogOutput::File { .. } => true,
            LogOutput::Stdout => false,
        }
    }
}

} // verus!
