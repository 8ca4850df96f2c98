//! Where the tool's log goes.
use vstd::prelude::*;

verus! {

/// The log file name used in the home directory when none is given.
pub const DEFAULT_LOG_NAME: &'static str = ".at.log";

/// The logging options of the command line.
pub struct Logger {
    /// The log file; empty for `DEFAULT_LOG_NAME` in the home directory.
    pub log_file: String,
    pub log_to_stdout: bool,
    pub log_to_stderr: bool,
}

/// The file the log is written to.
#[derive(Debug, PartialEq, Eq)]
pub enum LogFile {
    /// `DEFAULT_LOG_NAME` in the user's home directory.
    HomeDefault,
    /// The given path.
    Path(String),
}

/// How logging is set up: every level is logged to `file`, and also to the
/// console where `console` holds.
pub struct LogPlan {
    pub file: LogFile,
    pub console: bool,
}

impl Logger {
    /// The logging set-up: the given file, or the default one in the home
    /// directory when none is given; the console too exactly when logging
    /// to both standard output and standard error is asked for.
    pub fn logger_parse(&self) -> (r: LogPlan)
        ensures
            self.log_file@.len() == 0 ==> r.file == LogFile::HomeDefault,
            self.log_file@.len() != 0 ==> (r.file matches LogFile::Path(p) && p@ == self.log_file@),
            r.console == (self.log_to_stdout && self.log_to_stderr),
    {
        let file = if self.log_file.as_str().unicode_len() == 0 {
            LogFile::HomeDefault
        } else {
            LogFile::Path(self.log_file.clone())
        };
        LogPlan { file, console: self.log_to_stdout && self.log_to_stderr }
    }
}

/// A log line: `[<time> <level>] <message>`.
pub fn log_line(time: &str, level: &str, message: &str) -> (r: String)
    ensures
        r@ == "["@ + time@ + " "@ + level@ + "] "@ + message@,
{
    let mut r = String::from_str("[");
    r.append(time);
    r.append(" ");
    r.append(level);
    r.append("] ");
    r.append(message);
    r
}

} // verus!
