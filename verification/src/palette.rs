//! The color palette: ten named color-control strings, either all populated
//! with their fixed ANSI values (interactive terminal) or all empty
//! (colors disabled).

use vstd::prelude::*;
use crate::message::Severity;

verus! {

/// The mathematical value of a palette: the ten control strings as
/// character sequences.
pub struct ColorsView {
    pub red: Seq<char>,
    pub green: Seq<char>,
    pub yellow: Seq<char>,
    pub cyan: Seq<char>,
    pub white: Seq<char>,
    pub reset: Seq<char>,
    pub bg_red: Seq<char>,
    pub bg_cyan: Seq<char>,
    pub bg_green: Seq<char>,
    pub bg_yellow: Seq<char>,
}

/// The palette of an interactive terminal: the fixed ANSI control sequences.
pub open spec fn active_palette() -> ColorsView {
    ColorsView {
        red: "\x1b[91m"@,
        green: "\x1b[92m"@,
        yellow: "\x1b[93m"@,
        cyan: "\x1b[96m"@,
        white: "\x1b[97m"@,
        reset: "\x1b[0m"@,
        bg_red: "\x1b[41m"@,
        bg_cyan: "\x1b[46m"@,
        bg_green: "\x1b[42m"@,
        bg_yellow: "\x1b[43m"@,
    }
}

/// The palette of a non-interactive stream: every entry is empty, so no
/// control sequence ever reaches the output.
pub open spec fn empty_palette() -> ColorsView {
    ColorsView {
        red: Seq::<char>::empty(),
        green: Seq::<char>::empty(),
        yellow: Seq::<char>::empty(),
        cyan: Seq::<char>::empty(),
        white: Seq::<char>::empty(),
        reset: Seq::<char>::empty(),
        bg_red: Seq::<char>::empty(),
        bg_cyan: Seq::<char>::empty(),
        bg_green: Seq::<char>::empty(),
        bg_yellow: Seq::<char>::empty(),
    }
}

/// The palette that `colors_enabled` selects.
pub open spec fn palette(colors_enabled: bool) -> ColorsView {
    if colors_enabled {
        active_palette()
    } else {
        empty_palette()
    }
}

/// The foreground color of a severity: error is red, info cyan, success
/// green, warning yellow.
pub open spec fn fg_for(c: ColorsView, severity: Severity) -> Seq<char> {
    match severity {
        Severity::Error => c.red,
        Severity::Info => c.cyan,
        Severity::Success => c.green,
        Severity::Warning => c.yellow,
    }
}

/// The background color of a severity, matching its foreground.
pub open spec fn bg_for(c: ColorsView, severity: Severity) -> Seq<char> {
    match severity {
        Severity::Error => c.bg_red,
        Severity::Info => c.bg_cyan,
        Severity::Success => c.bg_green,
        Severity::Warning => c.bg_yellow,
    }
}

/// The ten color-control strings a logger renders with. Constructed either
/// from live terminal detection (`new`) or from an explicit switch
/// (`new_with`), so tests need no real terminal.
pub struct Colors {
    pub red: String,
    pub green: String,
    pub yellow: String,
    pub cyan: String,
    pub white: String,
    pub reset: String,
    pub bg_red: String,
    pub bg_cyan: String,
    pub bg_green: String,
    pub bg_yellow: String,
}

impl View for Colors {
    type V = ColorsView;

    open spec fn view(&self) -> ColorsView {
        ColorsView {
            red: self.red@,
            green: self.green@,
            yellow: self.yellow@,
            cyan: self.cyan@,
            white: self.white@,
            reset: self.reset@,
            bg_red: self.bg_red@,
            bg_cyan: self.bg_cyan@,
            bg_green: self.bg_green@,
            bg_yellow: self.bg_yellow@,
        }
    }
}

/// Relies on isatty::stdout_isatty: whether standard output is attached to
/// an interactive terminal. The answer depends on how the process was
/// started, so nothing is promised of it.
#[verifier::external_body]
fn stdout_is_terminal() -> bool {
    isatty::stdout_isatty()
}

/// Relies on isatty::stderr_isatty: whether standard error is attached to
/// an interactive terminal. The answer depends on how the process was
/// started, so nothing is promised of it.
#[verifier::external_body]
fn stderr_is_terminal() -> bool {
    isatty::stderr_isatty()
}

impl Colors {
    /// The palette for an explicitly chosen capability: the fixed ANSI
    /// values when `colors_enabled`, all-empty strings otherwise.
    pub fn new_with(colors_enabled: bool) -> (c: Colors)
        ensures
            c@ == palette(colors_enabled),
    {
        if colors_enabled {
            Colors {
                red: "\x1b[91m".to_owned(),
                green: "\x1b[92m".to_owned(),
                yellow: "\x1b[93m".to_owned(),
                cyan: "\x1b[96m".to_owned(),
                white: "\x1b[97m".to_owned(),
                reset: "\x1b[0m".to_owned(),
                bg_red: "\x1b[41m".to_owned(),
                bg_cyan: "\x1b[46m".to_owned(),
                bg_green: "\x1b[42m".to_owned(),
                bg_yellow: "\x1b[43m".to_owned(),
            }
        } else {
            let c = Colors {
                red: "".to_owned(),
                green: "".to_owned(),
                yellow: "".to_owned(),
                cyan: "".to_owned(),
                white: "".to_owned(),
                reset: "".to_owned(),
                bg_red: "".to_owned(),
                bg_cyan: "".to_owned(),
                bg_green: "".to_owned(),
                bg_yellow: "".to_owned(),
            };
            proof {
                reveal_strlit("");
                assert(""@ =~= Seq::<char>::empty());
            }
            c
        }
    }

    /// The palette for this process: colors are active exactly when both
    /// standard output and standard error are interactive terminals.
    pub fn new() -> (c: Colors)
        ensures
            c@ == active_palette() || c@ == empty_palette(),
    {
        Colors::new_with(stderr_is_terminal() && stdout_is_terminal())
    }
}

} // verus!
