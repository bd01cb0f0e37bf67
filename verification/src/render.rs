//! Rendering a message for a sink. A terminal line carries the severity's
//! color and icon, the connector, the head of the message, and — when the
//! message contains a `:` — the tail, optionally highlighted with the
//! severity's background color. A file line is the plain icon, connector,
//! and message.

use vstd::prelude::*;
use vstd::string::{StrSliceExecFns, StringExecFns};
use crate::message::{Severity, Sink, first_colon, has_colon, head_of, tail_of};
use crate::message::{lemma_first_colon, lemma_first_colon_is};
use crate::palette::{ColorsView, fg_for, bg_for};
use crate::options::{LoggerOptions, OptionsView, icon_for};

verus! {

/// What highlighting inserts before the tail: a space, the severity's
/// background color, and the white foreground — or nothing when
/// highlighting is off.
pub open spec fn highlight_section(o: OptionsView, severity: Severity) -> Seq<char> {
    if o.highlight {
        " "@ + bg_for(o.colors, severity) + o.colors.white
    } else {
        Seq::<char>::empty()
    }
}

/// The part of a terminal line after the head: empty for a message without
/// `:`, otherwise the `: ` separator, the highlight section, the tail, and
/// a trailing space.
pub open spec fn tail_section(o: OptionsView, severity: Severity, m: Seq<char>) -> Seq<char> {
    if has_colon(m) {
        ": "@ + highlight_section(o, severity) + tail_of(m) + " "@
    } else {
        Seq::<char>::empty()
    }
}

/// The full terminal line for a message (without the trailing newline that
/// printing appends).
pub open spec fn terminal_line(o: OptionsView, severity: Severity, m: Seq<char>) -> Seq<char> {
    fg_for(o.colors, severity) + icon_for(o, severity) + " "@ + o.icon_connector + " "@
        + head_of(m) + tail_section(o, severity, m) + o.colors.reset
}

/// The full log-file line for a message, newline included: the bytes a
/// file-sink call appends.
pub open spec fn file_line(o: OptionsView, severity: Severity, m: Seq<char>) -> Seq<char> {
    icon_for(o, severity) + " "@ + o.icon_connector + " "@ + m + "\n"@
}

/// The line a message renders to for a given sink.
pub open spec fn rendered_line(o: OptionsView, severity: Severity, sink: Sink, m: Seq<char>) -> Seq<char> {
    match sink {
        Sink::Terminal => terminal_line(o, severity, m),
        Sink::File => file_line(o, severity, m),
    }
}

/// The red-colored notice printed when a file-sink call fails: the label,
/// then the underlying error text.
pub open spec fn notice_line(c: ColorsView, label: Seq<char>, detail: Seq<char>) -> Seq<char> {
    c.red + label + detail + c.reset
}

/// The icon the configuration assigns to a severity.
fn severity_icon<'a>(opts: &'a LoggerOptions, severity: Severity) -> (icon: &'a String)
    ensures
        icon@ == icon_for(opts@, severity),
{
    match severity {
        Severity::Error => &opts.error_icon,
        Severity::Info => &opts.info_icon,
        Severity::Success => &opts.success_icon,
        Severity::Warning => &opts.warning_icon,
    }
}

/// The index of the first `:` of `msg`, or its length if it has none.
fn find_first_colon(msg: &str) -> (i: usize)
    ensures
        i as int == first_colon(msg@),
        i <= msg@.len(),
{
    let n: usize = msg.unicode_len();
    let mut i: usize = 0;
    while i < n
        invariant
            0 <= i <= n,
            n == msg@.len(),
            forall|j: int| 0 <= j < i ==> msg@[j] != ':',
        decreases n - i,
    {
        if msg.get_char(i) == ':' {
            proof {
                lemma_first_colon_is(msg@, i as int);
            }
            return i;
        }
        i = i + 1;
    }
    proof {
        lemma_first_colon_is(msg@, i as int);
    }
    i
}

/// Renders `msg` for `sink` under `opts`: the unified routine behind every
/// message operation of the logger and of the standalone formatter.
pub fn render_message(opts: &LoggerOptions, msg: &str, severity: Severity, sink: Sink) -> (line:
    String)
    ensures
        line@ == rendered_line(opts@, severity, sink, msg@),
{
    let icon = severity_icon(opts, severity);
    match sink {
        Sink::File => {
            let mut line = icon.clone();
            line.append(" ");
            line.append(opts.icon_connector.as_str());
            line.append(" ");
            line.append(msg);
            line.append("\n");
            line
        },
        Sink::Terminal => {
            let fg = match severity {
                Severity::Error => &opts.colors.red,
                Severity::Info => &opts.colors.cyan,
                Severity::Success => &opts.colors.green,
                Severity::Warning => &opts.colors.yellow,
            };
            let n: usize = msg.unicode_len();
            let k: usize = find_first_colon(msg);
            proof {
                lemma_first_colon(msg@);
            }
            let head = msg.substring_char(0, k);
            let mut line = fg.clone();
            line.append(icon.as_str());
            line.append(" ");
            line.append(opts.icon_connector.as_str());
            line.append(" ");
            line.append(head);
            if k < n {
                line.append(": ");
                if opts.highlight {
                    line.append(" ");
                    let bg = match severity {
                        Severity::Error => &opts.colors.bg_red,
                        Severity::Info => &opts.colors.bg_cyan,
                        Severity::Success => &opts.colors.bg_green,
                        Severity::Warning => &opts.colors.bg_yellow,
                    };
                    line.append(bg.as_str());
                    line.append(opts.colors.white.as_str());
                }
                let tail = msg.substring_char(k + 1, n);
                line.append(tail);
                line.append(" ");
            }
            line.append(opts.colors.reset.as_str());
            proof {
                assert(line@ =~= terminal_line(opts@, severity, msg@));
            }
            line
        },
    }
}

} // verus!
