use rust_logging::{Colors, Logger, LoggerOptions, Severity, Sink};

#[test]
fn two_default_loggers_render_identically() {
    let first = Logger::new();
    let second = Logger::new();
    let severities = [Severity::Error, Severity::Info, Severity::Success, Severity::Warning];
    for severity in severities {
        let a = first.render_line("I am a : message", severity, Sink::Terminal);
        let b = second.render_line("I am a : message", severity, Sink::Terminal);
        assert_eq!(a, b);
        let a = first.render_line("plain", severity, Sink::File);
        let b = second.render_line("plain", severity, Sink::File);
        assert_eq!(a, b);
    }
}

#[test]
fn default_paths_agree() {
    let from_new = LoggerOptions::new();
    let from_default = LoggerOptions::default();
    assert_eq!(from_new.icon_connector, from_default.icon_connector);
    assert_eq!(from_new.error_icon, from_default.error_icon);
    assert_eq!(from_new.info_icon, from_default.info_icon);
    assert_eq!(from_new.warning_icon, from_default.warning_icon);
    assert_eq!(from_new.success_icon, from_default.success_icon);
    assert_eq!(from_new.highlight, from_default.highlight);
    assert_eq!(from_new.log_file, from_default.log_file);
    let a = from_new.get_logger();
    let b = from_default.get_logger();
    let msg = "I am an : info message";
    assert_eq!(
        a.render_line(msg, Severity::Info, Sink::Terminal),
        b.render_line(msg, Severity::Info, Sink::Terminal)
    );
}

#[test]
fn default_values_match_the_documentation() {
    let opts = LoggerOptions::new();
    assert_eq!(opts.icon_connector, "->");
    assert_eq!(opts.error_icon, "[ x ]");
    assert_eq!(opts.info_icon, "[ i ]");
    assert_eq!(opts.warning_icon, "[ ! ]");
    assert_eq!(opts.success_icon, "[ v ]");
    assert!(opts.highlight);
    assert_eq!(opts.log_file, "logs.log");
}

#[test]
fn get_logger_keeps_every_field() {
    let opts = LoggerOptions {
        icon_connector: "::".to_string(),
        error_icon: "E".to_string(),
        info_icon: "I".to_string(),
        warning_icon: "W".to_string(),
        success_icon: "S".to_string(),
        highlight: true,
        log_file: "other.log".to_string(),
        colors: Colors::new_with(false),
    };
    let logger = opts.get_logger();
    assert_eq!(logger.log_file().as_str(), "other.log");
    let line = logger.render_line("x:y", Severity::Error, Sink::Terminal);
    assert_eq!(line, "E :: x:  y ");
    let line = logger.render_line("x:y", Severity::Error, Sink::File);
    assert_eq!(line, "E :: x:y\n");
}

#[test]
fn describe_lists_every_field_on_its_own_line() {
    let mut opts = LoggerOptions::new();
    opts.highlight = false;
    let text = opts.describe();
    assert_eq!(
        text,
        "Icon connector : ->\nError Icon : [ x ]\nInfo Icon : [ i ]\nWarning Icon : [ ! ]\n\
         Success Icon : [ v ]\nHighlight : false\nLog File : logs.log\n"
    );
}

#[test]
fn palette_is_all_or_nothing() {
    let active = Colors::new_with(true);
    assert_eq!(active.red, "\x1b[91m");
    assert_eq!(active.green, "\x1b[92m");
    assert_eq!(active.yellow, "\x1b[93m");
    assert_eq!(active.cyan, "\x1b[96m");
    assert_eq!(active.white, "\x1b[97m");
    assert_eq!(active.reset, "\x1b[0m");
    assert_eq!(active.bg_red, "\x1b[41m");
    assert_eq!(active.bg_cyan, "\x1b[46m");
    assert_eq!(active.bg_green, "\x1b[42m");
    assert_eq!(active.bg_yellow, "\x1b[43m");
    let inactive = Colors::new_with(false);
    assert_eq!(inactive.red, "");
    assert_eq!(inactive.green, "");
    assert_eq!(inactive.yellow, "");
    assert_eq!(inactive.cyan, "");
    assert_eq!(inactive.white, "");
    assert_eq!(inactive.reset, "");
    assert_eq!(inactive.bg_red, "");
    assert_eq!(inactive.bg_cyan, "");
    assert_eq!(inactive.bg_green, "");
    assert_eq!(inactive.bg_yellow, "");
}

#[test]
fn detected_palette_is_one_of_the_two() {
    let detected = Colors::new();
    let all_active = detected.red == "\x1b[91m" && detected.reset == "\x1b[0m"
        && detected.bg_yellow == "\x1b[43m" && detected.white == "\x1b[97m";
    let all_empty = detected.red.is_empty() && detected.reset.is_empty()
        && detected.bg_yellow.is_empty() && detected.white.is_empty();
    assert!(all_active || all_empty);
}
