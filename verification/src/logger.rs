//! The logger: a configured instance bound to one configuration, exposing
//! the four terminal message operations and the rendering behind the four
//! file-sink operations.
//!
//! The terminal operations print their rendered line to standard output.
//! File appends and environment reads cannot be performed here; a caller
//! that owns the file sink renders the line, the failure notices, and the
//! echo decision through this type and does the writing itself.

use std::io::Write;
use vstd::prelude::*;
use vstd::string::StringExecFns;
use crate::message::{Severity, Sink};
use crate::options::{LoggerOptions, OptionsView, is_default_options};
use crate::render::{notice_line, render_message, rendered_line};

verus! {

/// A logger bound to one configuration. Its view is the view of that
/// configuration.
pub struct Logger {
    options: LoggerOptions,
}

impl View for Logger {
    type V = OptionsView;

    closed spec fn view(&self) -> OptionsView {
        self.options@
    }
}

/// Relies on std::io::Stdout::write_fmt (through `writeln`): writes the
/// line and a trailing newline to standard output.
#[verifier::external_body]
fn print_line(line: &str) {
    let _ = writeln!(std::io::stdout(), "{}", line);
}

impl Logger {
    /// A logger with the default configuration.
    pub fn new() -> (l: Logger)
        ensures
            is_default_options(l@),
    {
        Logger { options: LoggerOptions::new() }
    }

    /// A logger bound to the supplied configuration, which it consumes.
    pub fn new_from_opts(options: LoggerOptions) -> (l: Logger)
        ensures
            l@ == options@,
    {
        Logger { options }
    }

    /// The line `msg` renders to for `sink` under this logger's
    /// configuration. The terminal operations print exactly this line; a
    /// file-sink caller appends exactly these bytes.
    pub fn render_line(&self, msg: &str, severity: Severity, sink: Sink) -> (line: String)
        ensures
            line@ == rendered_line(self@, severity, sink, msg@),
    {
        render_message(&self.options, msg, severity, sink)
    }

    /// Prints the warning-severity terminal line for `msg` to standard
    /// output: `terminal_line(self@, Severity::Warning, msg@)` and a newline.
    pub fn warn(&self, msg: &str) {
        let line = self.render_line(msg, Severity::Warning, Sink::Terminal);
        print_line(line.as_str());
    }

    /// Prints the success-severity terminal line for `msg` to standard
    /// output: `terminal_line(self@, Severity::Success, msg@)` and a newline.
    pub fn success(&self, msg: &str) {
        let line = self.render_line(msg, Severity::Success, Sink::Terminal);
        print_line(line.as_str());
    }

    /// Prints the info-severity terminal line for `msg` to standard
    /// output: `terminal_line(self@, Severity::Info, msg@)` and a newline.
    pub fn info(&self, msg: &str) {
        let line = self.render_line(msg, Severity::Info, Sink::Terminal);
        print_line(line.as_str());
    }

    /// Prints the error-severity terminal line for `msg` to standard
    /// output: `terminal_line(self@, Severity::Error, msg@)` and a newline.
    /// Errors go to standard output like every other severity, on purpose:
    /// all terminal rendering shares one stream.
    pub fn error(&self, msg: &str) {
        let line = self.render_line(msg, Severity::Error, Sink::Terminal);
        print_line(line.as_str());
    }

    /// The notice a file-sink caller prints when the log file cannot be
    /// opened: red-colored label and the underlying error text.
    pub fn open_failure_notice(&self, detail: &str) -> (line: String)
        ensures
            line@ == notice_line(self@.colors, "Cannot open log file : "@, detail@),
    {
        let mut line = self.options.colors.red.clone();
        line.append("Cannot open log file : ");
        line.append(detail);
        line.append(self.options.colors.reset.as_str());
        line
    }

    /// The notice a file-sink caller prints when the append to the log
    /// file fails: red-colored label and the underlying error text.
    pub fn write_failure_notice(&self, detail: &str) -> (line: String)
        ensures
            line@ == notice_line(self@.colors, "Cannot write to log file : "@, detail@),
    {
        let mut line = self.options.colors.red.clone();
        line.append("Cannot write to log file : ");
        line.append(detail);
        line.append(self.options.colors.reset.as_str());
        line
    }

    /// The log-file path of this logger's configuration, for the caller
    /// that opens the file.
    pub fn log_file(&self) -> (path: &String)
        ensures
            path@ == self@.log_file,
    {
        &self.options.log_file
    }
}

/// Whether a successful file-sink write must additionally echo the raw
/// message to standard output: exactly when the `LOG` environment variable
/// was read as the literal `print`. An absent variable suppresses the echo.
pub fn echo_requested(env_value: &Option<String>) -> (echo: bool)
    ensures
        echo == match env_value {
            Option::Some(v) => v@ == "print"@,
            Option::None => false,
        },
{
    match env_value {
        Option::Some(v) => {
            let pattern: String = "print".to_owned();
            *v == pattern
        },
        Option::None => false,
    }
}

} // verus!
