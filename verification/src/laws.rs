//! The laws of the rendering: what holds of every rendered line, proved
//! once over the spec functions that the executable contracts use.

use vstd::prelude::*;
use crate::message::{Severity, first_colon, has_colon, head_of, tail_of, lemma_first_colon};
use crate::palette::{active_palette, empty_palette, fg_for, bg_for};
use crate::options::{OptionsView, default_options, icon_for, is_default_options};
use crate::render::{file_line, terminal_line};

verus! {

/// A character sequence free of the escape character that opens every ANSI
/// control sequence.
pub open spec fn escape_free(s: Seq<char>) -> bool {
    forall|i: int| 0 <= i < s.len() ==> s[i] != '\x1b'
}

/// Concatenation preserves escape-freedom.
proof fn lemma_escape_free_concat(a: Seq<char>, b: Seq<char>)
    requires
        escape_free(a),
        escape_free(b),
    ensures
        escape_free(a + b),
{
    assert forall|i: int| 0 <= i < (a + b).len() implies (a + b)[i] != '\x1b' by {
        if i < a.len() {
            assert((a + b)[i] == a[i]);
        } else {
            assert((a + b)[i] == b[i - a.len()]);
        }
    }
}

/// A message without `:` renders with the whole message as its head and no
/// tail section at all: color, icon, connector, message, reset — nothing
/// else, and in particular no highlight segment and no added `:`.
pub proof fn lemma_plain_message_line(o: OptionsView, severity: Severity, m: Seq<char>)
    requires
        forall|i: int| 0 <= i < m.len() ==> m[i] != ':',
    ensures
        !has_colon(m),
        head_of(m) == m,
        terminal_line(o, severity, m) == fg_for(o.colors, severity) + icon_for(o, severity)
            + " "@ + o.icon_connector + " "@ + m + o.colors.reset,
{
    lemma_first_colon(m);
    assert(first_colon(m) == m.len());
    assert(head_of(m) =~= m);
    assert(terminal_line(o, severity, m) =~= fg_for(o.colors, severity) + icon_for(o, severity)
        + " "@ + o.icon_connector + " "@ + m + o.colors.reset);
}

/// Splitting a message at its first `:` loses nothing: the head is the part
/// before the first `:` and holds no `:` itself, and head, `:`, tail
/// concatenated reproduce the message.
pub proof fn lemma_split_round_trip(m: Seq<char>)
    requires
        exists|i: int| 0 <= i < m.len() && m[i] == ':',
    ensures
        has_colon(m),
        head_of(m).len() == first_colon(m),
        forall|j: int| 0 <= j < head_of(m).len() ==> head_of(m)[j] != ':',
        head_of(m) + ":"@ + tail_of(m) == m,
{
    lemma_first_colon(m);
    let w = choose|i: int| 0 <= i < m.len() && m[i] == ':';
    assert(first_colon(m) <= w);
    reveal_strlit(":");
    assert(":"@.len() == 1 && ":"@[0] == ':');
    assert(head_of(m) + ":"@ + tail_of(m) =~= m);
}

/// With highlighting disabled, no background color and no white foreground
/// enter the line: the tail renders as the `: ` separator, the tail text,
/// and a trailing space.
pub proof fn lemma_no_highlight_no_background(o: OptionsView, severity: Severity, m: Seq<char>)
    requires
        !o.highlight,
    ensures
        terminal_line(o, severity, m) == fg_for(o.colors, severity) + icon_for(o, severity)
            + " "@ + o.icon_connector + " "@ + head_of(m) + (if has_colon(m) {
            ": "@ + tail_of(m) + " "@
        } else {
            Seq::<char>::empty()
        }) + o.colors.reset,
{
    if has_colon(m) {
        assert((": "@ + Seq::<char>::empty() + tail_of(m) + " "@) =~= (": "@ + tail_of(m) + " "@));
    }
}

/// With the empty palette — a non-interactive standard stream — a terminal
/// line holds no ANSI control sequence at all, for every severity, as long
/// as the configured icon, the connector and the message are themselves
/// free of the escape character.
pub proof fn lemma_non_interactive_line_plain(o: OptionsView, severity: Severity, m: Seq<char>)
    requires
        o.colors == empty_palette(),
        escape_free(icon_for(o, severity)),
        escape_free(o.icon_connector),
        escape_free(m),
    ensures
        escape_free(terminal_line(o, severity, m)),
{
    lemma_first_colon(m);
    reveal_strlit(" ");
    reveal_strlit(": ");
    assert(escape_free(" "@)) by {
        assert(" "@.len() == 1 && " "@[0] == ' ');
    }
    assert(escape_free(": "@)) by {
        assert(": "@.len() == 2 && ": "@[0] == ':' && ": "@[1] == ' ');
    }
    assert(escape_free(head_of(m))) by {
        assert forall|j: int| 0 <= j < head_of(m).len() implies head_of(m)[j] != '\x1b' by {
            assert(head_of(m)[j] == m[j]);
        }
    }
    let fg = fg_for(o.colors, severity);
    let ic = icon_for(o, severity);
    lemma_escape_free_concat(fg, ic);
    lemma_escape_free_concat(fg + ic, " "@);
    lemma_escape_free_concat(fg + ic + " "@, o.icon_connector);
    lemma_escape_free_concat(fg + ic + " "@ + o.icon_connector, " "@);
    lemma_escape_free_concat(fg + ic + " "@ + o.icon_connector + " "@, head_of(m));
    let prefix = fg + ic + " "@ + o.icon_connector + " "@ + head_of(m);
    if has_colon(m) {
        assert(escape_free(tail_of(m))) by {
            assert forall|j: int| 0 <= j < tail_of(m).len() implies tail_of(m)[j] != '\x1b' by {
                assert(tail_of(m)[j] == m[j + first_colon(m) + 1]);
            }
        }
        if o.highlight {
            lemma_escape_free_concat(" "@, bg_for(o.colors, severity));
            lemma_escape_free_concat(" "@ + bg_for(o.colors, severity), o.colors.white);
        }
        let hl = crate::render::highlight_section(o, severity);
        lemma_escape_free_concat(": "@, hl);
        lemma_escape_free_concat(": "@ + hl, tail_of(m));
        lemma_escape_free_concat(": "@ + hl + tail_of(m), " "@);
    }
    lemma_escape_free_concat(prefix, crate::render::tail_section(o, severity, m));
    lemma_escape_free_concat(prefix + crate::render::tail_section(o, severity, m), o.colors.reset);
}

/// Under the default configuration with active colors, every severity has
/// its own icon and its own foreground color, exactly as documented —
/// error `[ x ]` in red, info `[ i ]` in cyan, success `[ v ]` in green,
/// warning `[ ! ]` in yellow — and no two severities share an icon or a
/// color.
pub proof fn lemma_default_severities_distinct(o: OptionsView)
    requires
        o == default_options(active_palette()),
    ensures
        icon_for(o, Severity::Error) == "[ x ]"@,
        icon_for(o, Severity::Info) == "[ i ]"@,
        icon_for(o, Severity::Success) == "[ v ]"@,
        icon_for(o, Severity::Warning) == "[ ! ]"@,
        fg_for(o.colors, Severity::Error) == "\x1b[91m"@,
        fg_for(o.colors, Severity::Info) == "\x1b[96m"@,
        fg_for(o.colors, Severity::Success) == "\x1b[92m"@,
        fg_for(o.colors, Severity::Warning) == "\x1b[93m"@,
        forall|s1: Severity, s2: Severity|
            s1 != s2 ==> #[trigger] icon_for(o, s1) != #[trigger] icon_for(o, s2),
        forall|s1: Severity, s2: Severity|
            s1 != s2 ==> #[trigger] fg_for(o.colors, s1) != #[trigger] fg_for(o.colors, s2),
{
    reveal_strlit("[ x ]");
    reveal_strlit("[ i ]");
    reveal_strlit("[ v ]");
    reveal_strlit("[ ! ]");
    reveal_strlit("\x1b[91m");
    reveal_strlit("\x1b[96m");
    reveal_strlit("\x1b[92m");
    reveal_strlit("\x1b[93m");
    assert("[ x ]"@[2] == 'x' && "[ i ]"@[2] == 'i' && "[ v ]"@[2] == 'v' && "[ ! ]"@[2] == '!');
    assert("\x1b[91m"@[2] == '9' && "\x1b[91m"@[3] == '1');
    assert("\x1b[96m"@[3] == '6' && "\x1b[92m"@[3] == '2' && "\x1b[93m"@[3] == '3');
}

/// A file-sink call appends exactly one line: when the icon, the connector
/// and the message hold no newline themselves, the appended bytes end in a
/// newline and hold no other.
pub proof fn lemma_file_line_is_one_line(o: OptionsView, severity: Severity, m: Seq<char>)
    requires
        forall|i: int|
            0 <= i < icon_for(o, severity).len() ==> icon_for(o, severity)[i] != '\n',
        forall|i: int| 0 <= i < o.icon_connector.len() ==> o.icon_connector[i] != '\n',
        forall|i: int| 0 <= i < m.len() ==> m[i] != '\n',
    ensures
        file_line(o, severity, m).len() >= 1,
        file_line(o, severity, m)[file_line(o, severity, m).len() - 1] == '\n',
        forall|i: int|
            0 <= i < file_line(o, severity, m).len() - 1 ==> file_line(o, severity, m)[i] != '\n',
{
    reveal_strlit(" ");
    reveal_strlit("\n");
    assert(" "@.len() == 1 && " "@[0] == ' ');
    assert("\n"@.len() == 1 && "\n"@[0] == '\n');
    let t = file_line(o, severity, m);
    let ic = icon_for(o, severity);
    let p2 = ic + " "@;
    let p3 = ic + " "@ + o.icon_connector;
    let p4 = ic + " "@ + o.icon_connector + " "@;
    let p5 = ic + " "@ + o.icon_connector + " "@ + m;
    assert(t[t.len() - 1] == '\n');
    assert forall|i: int| 0 <= i < t.len() - 1 implies t[i] != '\n' by {
        assert(t[i] == p5[i]);
        if i < ic.len() {
            assert(p5[i] == ic[i]);
        } else if i < p2.len() {
            assert(p5[i] == ' ');
        } else if i < p3.len() {
            assert(p5[i] == o.icon_connector[i - p2.len()]);
        } else if i < p4.len() {
            assert(p5[i] == ' ');
        } else {
            assert(p5[i] == m[i - p4.len()]);
        }
    }
}

/// Two loggers built from two independently defaulted configurations that
/// detected the same terminal capability render byte-identical lines for
/// the same message and severity, on both sinks.
pub proof fn lemma_default_loggers_agree(
    o1: OptionsView,
    o2: OptionsView,
    severity: Severity,
    m: Seq<char>,
)
    requires
        is_default_options(o1),
        is_default_options(o2),
        o1.colors == o2.colors,
    ensures
        terminal_line(o1, severity, m) == terminal_line(o2, severity, m),
        file_line(o1, severity, m) == file_line(o2, severity, m),
{
    assert(o1 == o2);
}

} // verus!
