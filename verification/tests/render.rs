use rust_logging::{Colors, Logger, LoggerOptions, Severity, Sink};

fn default_opts_with(colors: Colors) -> LoggerOptions {
    LoggerOptions {
        icon_connector: "->".to_string(),
        error_icon: "[ x ]".to_string(),
        info_icon: "[ i ]".to_string(),
        warning_icon: "[ ! ]".to_string(),
        success_icon: "[ v ]".to_string(),
        highlight: true,
        log_file: "logs.log".to_string(),
        colors,
    }
}

#[test]
fn plain_message_has_no_tail_segment() {
    let logger = Logger::new_from_opts(default_opts_with(Colors::new_with(true)));
    let line = logger.render_line("hello", Severity::Warning, Sink::Terminal);
    assert_eq!(line, "\x1b[93m[ ! ] -> hello\x1b[0m");
}

#[test]
fn plain_message_has_no_extra_colon() {
    let logger = Logger::new_from_opts(default_opts_with(Colors::new_with(false)));
    let line = logger.render_line("no split here", Severity::Info, Sink::Terminal);
    assert_eq!(line, "[ i ] -> no split here");
    assert_eq!(line.matches(':').count(), 0);
}

#[test]
fn head_is_before_first_colon_and_tail_is_rest() {
    let logger = Logger::new_from_opts(default_opts_with(Colors::new_with(true)));
    let line = logger.render_line("I am an : error message", Severity::Error, Sink::Terminal);
    assert_eq!(line, "\x1b[91m[ x ] -> I am an :  \x1b[41m\x1b[97m error message \x1b[0m");
}

#[test]
fn tail_with_more_colons_is_kept_unchanged() {
    let logger = Logger::new_from_opts(default_opts_with(Colors::new_with(true)));
    let line = logger.render_line("a:b:c", Severity::Warning, Sink::Terminal);
    assert_eq!(line, "\x1b[93m[ ! ] -> a:  \x1b[43m\x1b[97mb:c \x1b[0m");
}

#[test]
fn highlight_disabled_renders_no_background() {
    let mut opts = default_opts_with(Colors::new_with(true));
    opts.highlight = false;
    let logger = Logger::new_from_opts(opts);
    let line = logger.render_line("I am an : error message", Severity::Error, Sink::Terminal);
    assert_eq!(line, "\x1b[91m[ x ] -> I am an :  error message \x1b[0m");
    assert!(!line.contains("\x1b[41m"));
    assert!(!line.contains("\x1b[97m"));
}

#[test]
fn non_interactive_line_has_no_ansi_sequences() {
    let logger = Logger::new_from_opts(default_opts_with(Colors::new_with(false)));
    let severities = [Severity::Error, Severity::Info, Severity::Success, Severity::Warning];
    for severity in severities {
        let line = logger.render_line("I am a : message", severity, Sink::Terminal);
        assert!(!line.contains('\u{1b}'));
    }
    let line = logger.render_line("a:b", Severity::Warning, Sink::Terminal);
    assert_eq!(line, "[ ! ] -> a:  b ");
}

#[test]
fn each_severity_has_its_own_icon_and_color() {
    let logger = Logger::new_from_opts(default_opts_with(Colors::new_with(true)));
    let error = logger.render_line("m", Severity::Error, Sink::Terminal);
    let info = logger.render_line("m", Severity::Info, Sink::Terminal);
    let success = logger.render_line("m", Severity::Success, Sink::Terminal);
    let warning = logger.render_line("m", Severity::Warning, Sink::Terminal);
    assert_eq!(error, "\x1b[91m[ x ] -> m\x1b[0m");
    assert_eq!(info, "\x1b[96m[ i ] -> m\x1b[0m");
    assert_eq!(success, "\x1b[92m[ v ] -> m\x1b[0m");
    assert_eq!(warning, "\x1b[93m[ ! ] -> m\x1b[0m");
    let lines = [&error, &info, &success, &warning];
    for i in 0..lines.len() {
        for j in 0..lines.len() {
            if i != j {
                assert_ne!(lines[i], lines[j]);
            }
        }
    }
}

#[test]
fn empty_message_renders_head_only() {
    let logger = Logger::new_from_opts(default_opts_with(Colors::new_with(true)));
    let line = logger.render_line("", Severity::Warning, Sink::Terminal);
    assert_eq!(line, "\x1b[93m[ ! ] -> \x1b[0m");
}

#[test]
fn lone_colon_splits_into_empty_head_and_tail() {
    let logger = Logger::new_from_opts(default_opts_with(Colors::new_with(true)));
    let line = logger.render_line(":", Severity::Warning, Sink::Terminal);
    assert_eq!(line, "\x1b[93m[ ! ] -> :  \x1b[43m\x1b[97m \x1b[0m");
}

#[test]
fn file_line_is_icon_connector_message() {
    let logger = Logger::new_from_opts(default_opts_with(Colors::new_with(true)));
    let line = logger.render_line("all good", Severity::Success, Sink::File);
    assert_eq!(line, "[ v ] -> all good\n");
}

#[test]
fn file_line_keeps_colons_untouched() {
    let logger = Logger::new_from_opts(default_opts_with(Colors::new_with(true)));
    let line = logger.render_line("key: value", Severity::Info, Sink::File);
    assert_eq!(line, "[ i ] -> key: value\n");
}

#[test]
fn custom_configuration_is_used_exactly() {
    let opts = LoggerOptions {
        icon_connector: "=>".to_string(),
        error_icon: "\u{1f525}".to_string(),
        info_icon: "\u{1f4a1}".to_string(),
        warning_icon: "\u{26a0}\u{fe0f} ".to_string(),
        success_icon: "\u{2705}".to_string(),
        highlight: false,
        log_file: "logs.log".to_string(),
        colors: Colors::new_with(true),
    };
    let logger = opts.get_logger();
    let line = logger.render_line("I am an : error message", Severity::Error, Sink::Terminal);
    assert_eq!(line, "\x1b[91m\u{1f525} => I am an :  error message \x1b[0m");
    let line = logger.render_line("I am a : warning message", Severity::Warning, Sink::Terminal);
    assert_eq!(
        line,
        "\x1b[93m\u{26a0}\u{fe0f}  => I am a :  warning message \x1b[0m"
    );
    assert_eq!(logger.log_file().as_str(), "logs.log");
}

#[test]
fn failure_notices_wrap_the_error_in_red() {
    let logger = Logger::new_from_opts(default_opts_with(Colors::new_with(true)));
    let notice = logger.open_failure_notice("No such file or directory");
    assert_eq!(notice, "\x1b[91mCannot open log file : No such file or directory\x1b[0m");
    let notice = logger.write_failure_notice("disk full");
    assert_eq!(notice, "\x1b[91mCannot write to log file : disk full\x1b[0m");
}

#[test]
fn failure_notices_without_colors_are_plain() {
    let logger = Logger::new_from_opts(default_opts_with(Colors::new_with(false)));
    let notice = logger.open_failure_notice("denied");
    assert_eq!(notice, "Cannot open log file : denied");
}

#[test]
fn echo_is_requested_only_for_print() {
    assert!(rust_logging::echo_requested(&Some("print".to_string())));
    assert!(!rust_logging::echo_requested(&Some("PRINT".to_string())));
    assert!(!rust_logging::echo_requested(&Some("".to_string())));
    assert!(!rust_logging::echo_requested(&Some("printx".to_string())));
    assert!(!rust_logging::echo_requested(&None));
}

#[test]
fn standalone_configuration_logs_to_its_own_file() {
    let opts = rust_logging::standalone::options();
    assert_eq!(opts.log_file, "myProgram.log");
    assert_eq!(opts.icon_connector, "->");
    assert!(opts.highlight);
    assert_eq!(opts.colors.red, "\x1b[91m");
    let logger = opts.get_logger();
    let line = logger.render_line("ready", Severity::Success, Sink::Terminal);
    assert_eq!(line, "\x1b[92m[ v ] -> ready\x1b[0m");
    let line = logger.render_line("saved", Severity::Warning, Sink::File);
    assert_eq!(line, "[ ! ] -> saved\n");
}
