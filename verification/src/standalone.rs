//! The standalone formatter: free functions over one fixed configuration —
//! always-active colors, the default icons and connector, highlighting on,
//! and `myProgram.log` as the log file. Each terminal function prints one
//! severity-colored line per call; the fixed configuration is also what a
//! file-sink caller renders with.

use vstd::prelude::*;
use crate::options::{LoggerOptions, OptionsView};
use crate::palette::{Colors, active_palette};
use crate::logger::Logger;

verus! {

/// The fixed configuration of the standalone formatter: default icons and
/// connector, highlighting on, always-active colors, log file
/// `myProgram.log`.
pub open spec fn standalone_options() -> OptionsView {
    OptionsView {
        icon_connector: "->"@,
        error_icon: "[ x ]"@,
        info_icon: "[ i ]"@,
        warning_icon: "[ ! ]"@,
        success_icon: "[ v ]"@,
        highlight: true,
        log_file: "myProgram.log"@,
        colors: active_palette(),
    }
}

/// The fixed configuration as a value, for rendering and for the caller
/// that owns the file sink.
pub fn options() -> (o: LoggerOptions)
    ensures
        o@ == standalone_options(),
{
    LoggerOptions {
        icon_connector: "->".to_owned(),
        error_icon: "[ x ]".to_owned(),
        info_icon: "[ i ]".to_owned(),
        warning_icon: "[ ! ]".to_owned(),
        success_icon: "[ v ]".to_owned(),
        highlight: true,
        log_file: "myProgram.log".to_owned(),
        colors: Colors::new_with(true),
    }
}

/// Prints the warning-severity terminal line for `msg` to standard output:
/// `terminal_line(standalone_options(), Severity::Warning, msg@)`.
pub fn warn(msg: &str) {
    Logger::new_from_opts(options()).warn(msg);
}

/// Prints the success-severity terminal line for `msg` to standard output:
/// `terminal_line(standalone_options(), Severity::Success, msg@)`.
pub fn success(msg: &str) {
    Logger::new_from_opts(options()).success(msg);
}

/// Prints the info-severity terminal line for `msg` to standard output:
/// `terminal_line(standalone_options(), Severity::Info, msg@)`.
pub fn info(msg: &str) {
    Logger::new_from_opts(options()).info(msg);
}

/// Prints the error-severity terminal line for `msg` to standard output:
/// `terminal_line(standalone_options(), Severity::Error, msg@)`. Like the
/// other severities it writes to standard output, on purpose.
pub fn error(msg: &str) {
    Logger::new_from_opts(options()).error(msg);
}

} // verus!
