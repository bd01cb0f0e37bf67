//! The logger configuration: connector, per-severity icons, highlight flag,
//! log-file path, and the color palette. Immutable once a logger owns it.

use vstd::prelude::*;
use vstd::string::StringExecFns;
use crate::message::Severity;
use crate::palette::{Colors, ColorsView, active_palette, empty_palette};
use crate::logger::Logger;

verus! {

/// The mathematical value of a configuration.
pub struct OptionsView {
    pub icon_connector: Seq<char>,
    pub error_icon: Seq<char>,
    pub info_icon: Seq<char>,
    pub warning_icon: Seq<char>,
    pub success_icon: Seq<char>,
    pub highlight: bool,
    pub log_file: Seq<char>,
    pub colors: ColorsView,
}

/// The icon of a severity under a configuration.
pub open spec fn icon_for(o: OptionsView, severity: Severity) -> Seq<char> {
    match severity {
        Severity::Error => o.error_icon,
        Severity::Info => o.info_icon,
        Severity::Success => o.success_icon,
        Severity::Warning => o.warning_icon,
    }
}

/// The default configuration over a given palette: connector `->`, the four
/// bracketed icons, highlighting on, log file `logs.log`.
pub open spec fn default_options(c: ColorsView) -> OptionsView {
    OptionsView {
        icon_connector: "->"@,
        error_icon: "[ x ]"@,
        info_icon: "[ i ]"@,
        warning_icon: "[ ! ]"@,
        success_icon: "[ v ]"@,
        highlight: true,
        log_file: "logs.log"@,
        colors: c,
    }
}

/// A configuration as default construction yields it: every field at its
/// default, and the palette freshly detected (so either fully active or
/// fully empty).
pub open spec fn is_default_options(o: OptionsView) -> bool {
    &&& o == default_options(o.colors)
    &&& (o.colors == active_palette() || o.colors == empty_palette())
}

/// The text of the human-readable `true`/`false` rendering of a flag.
pub open spec fn bool_text(b: bool) -> Seq<char> {
    if b {
        "true"@
    } else {
        "false"@
    }
}

/// The multi-line human-readable description of a configuration: one
/// labeled line per field, ending in a newline.
pub open spec fn options_text(o: OptionsView) -> Seq<char> {
    "Icon connector : "@ + o.icon_connector + "\nError Icon : "@ + o.error_icon
        + "\nInfo Icon : "@ + o.info_icon + "\nWarning Icon : "@ + o.warning_icon
        + "\nSuccess Icon : "@ + o.success_icon + "\nHighlight : "@ + bool_text(o.highlight)
        + "\nLog File : "@ + o.log_file + "\n"@
}

/// The configuration record a logger is built from. All fields may be
/// overridden before the logger is built; the logger consumes the record
/// and exposes no setters afterwards.
pub struct LoggerOptions {
    pub icon_connector: String,
    pub error_icon: String,
    pub info_icon: String,
    pub warning_icon: String,
    pub success_icon: String,
    pub highlight: bool,
    pub log_file: String,
    pub colors: Colors,
}

impl View for LoggerOptions {
    type V = OptionsView;

    open spec fn view(&self) -> OptionsView {
        OptionsView {
            icon_connector: self.icon_connector@,
            error_icon: self.error_icon@,
            info_icon: self.info_icon@,
            warning_icon: self.warning_icon@,
            success_icon: self.success_icon@,
            highlight: self.highlight,
            log_file: self.log_file@,
            colors: self.colors@,
        }
    }
}

impl LoggerOptions {
    /// The default configuration, with the palette detected from the
    /// standard streams.
    pub fn new() -> (o: LoggerOptions)
        ensures
            is_default_options(o@),
    {
        LoggerOptions {
            icon_connector: "->".to_owned(),
            error_icon: "[ x ]".to_owned(),
            info_icon: "[ i ]".to_owned(),
            warning_icon: "[ ! ]".to_owned(),
            success_icon: "[ v ]".to_owned(),
            highlight: true,
            log_file: "logs.log".to_owned(),
            colors: Colors::new(),
        }
    }

    /// Consumes this configuration and hands back the logger bound to it.
    pub fn get_logger(self) -> (l: Logger)
        ensures
            l@ == self@,
    {
        Logger::new_from_opts(self)
    }

    /// The multi-line description of this configuration, one labeled line
    /// per field. For diagnostics; nothing parses it back.
    pub fn describe(&self) -> (text: String)
        ensures
            text@ == options_text(self@),
    {
        let mut text: String = "Icon connector : ".to_owned();
        text.append(self.icon_connector.as_str());
        text.append("\nError Icon : ");
        text.append(self.error_icon.as_str());
        text.append("\nInfo Icon : ");
        text.append(self.info_icon.as_str());
        text.append("\nWarning Icon : ");
        text.append(self.warning_icon.as_str());
        text.append("\nSuccess Icon : ");
        text.append(self.success_icon.as_str());
        text.append("\nHighlight : ");
        if self.highlight {
            text.append("true");
        } else {
            text.append("false");
        }
        text.append("\nLog File : ");
        text.append(self.log_file.as_str());
        text.append("\n");
        proof {
            assert(text@ =~= options_text(self@));
        }
        text
    }
}

impl Default for LoggerOptions {
    /// The same values as `LoggerOptions::new`.
    fn default() -> (o: LoggerOptions)
        ensures
            is_default_options(o@),
    {
        LoggerOptions::new()
    }
}

} // verus!
