use topohedral_tracing::{
    decimal_text, format_record, init, layout_line, level_from_token, pad_right, split_on,
    thread_number, FilterConfig, Logger, Severity,
};

const LEVELS: [Severity; 5] = [
    Severity::Error,
    Severity::Warn,
    Severity::Info,
    Severity::Debug,
    Severity::Trace,
];

fn configured(text: &str) -> Logger {
    let mut logger = Logger::new();
    assert!(init(&mut logger, Some(text)).is_ok());
    logger
}

#[test]
fn test_topo_log() {
    let logger = configured("all=5");
    for level in LEVELS {
        let first = logger.render(
            "tracing",
            level,
            "tracing",
            360,
            "1",
            "Hello, world! This is a test 1 5",
        );
        let second = logger.render(
            "test",
            level,
            "tracing",
            361,
            "1",
            "Hello, world! This is a test 2 5",
        );
        assert!(first.unwrap().ends_with("1   - tracing:360] Hello, world! This is a test 1 5"));
        assert!(second.unwrap().ends_with("1   - tracing:361] Hello, world! This is a test 2 5"));
    }
}

#[test]
fn uninitialized_logger_emits_nothing() {
    let logger = Logger::new();
    for level in LEVELS {
        assert!(!logger.enabled("any", level));
        assert!(logger.render("any", level, "m", 1, "1", "x").is_none());
    }
}

#[test]
fn no_configuration_text_is_silent() {
    let mut logger = Logger::new();
    assert!(init(&mut logger, None).is_ok());
    for level in LEVELS {
        assert!(!logger.enabled("any", level));
        assert!(!logger.enabled("", level));
        assert!(logger.render("any", level, "m", 1, "1", "x").is_none());
    }
}

#[test]
fn all_debug_enables_up_to_debug_everywhere() {
    let logger = configured("all=debug");
    for target in ["a", "mytarget", "crate::module", ""] {
        assert!(logger.enabled(target, Severity::Error));
        assert!(logger.enabled(target, Severity::Warn));
        assert!(logger.enabled(target, Severity::Info));
        assert!(logger.enabled(target, Severity::Debug));
        assert!(!logger.enabled(target, Severity::Trace));
    }
}

#[test]
fn global_default_is_a_floor() {
    let logger = configured("mytarget=error,all=debug");
    assert!(logger.enabled("mytarget", Severity::Error));
    assert!(logger.enabled("mytarget", Severity::Warn));
    assert!(logger.enabled("mytarget", Severity::Info));
    assert!(logger.enabled("mytarget", Severity::Debug));
    assert!(!logger.enabled("mytarget", Severity::Trace));
    let plain = configured("all=debug");
    for level in LEVELS {
        assert_eq!(logger.enabled("mytarget", level), plain.enabled("mytarget", level));
    }
}

#[test]
fn more_verbose_target_level_wins() {
    let logger = configured("net=trace,all=warn");
    assert!(logger.enabled("net", Severity::Trace));
    assert!(logger.enabled("other", Severity::Warn));
    assert!(!logger.enabled("other", Severity::Info));
}

#[test]
fn target_entry_isolates_target() {
    let logger = configured("mod1=debug");
    assert!(logger.enabled("mod1", Severity::Error));
    assert!(logger.enabled("mod1", Severity::Debug));
    assert!(!logger.enabled("mod1", Severity::Trace));
    for level in LEVELS {
        assert!(!logger.enabled("mod2", level));
        assert!(!logger.enabled("mod", level));
        assert!(!logger.enabled("mod1x", level));
    }
}

#[test]
fn unknown_level_token_means_info() {
    let bogus = configured("foo=bogus");
    let info = configured("foo=info");
    for level in LEVELS {
        assert_eq!(bogus.enabled("foo", level), info.enabled("foo", level));
    }
    assert!(bogus.enabled("foo", Severity::Info));
    assert!(!bogus.enabled("foo", Severity::Debug));
}

#[test]
fn second_initialization_replaces_first() {
    let mut logger = Logger::new();
    assert!(init(&mut logger, Some("a=trace,all=warn")).is_ok());
    assert!(logger.enabled("a", Severity::Trace));
    assert!(init(&mut logger, Some("b=debug")).is_ok());
    assert!(!logger.enabled("a", Severity::Error));
    assert!(logger.enabled("b", Severity::Debug));
    assert!(!logger.enabled("c", Severity::Error));
}

#[test]
fn level_tokens() {
    assert_eq!(level_from_token("trace"), Severity::Trace);
    assert_eq!(level_from_token("5"), Severity::Trace);
    assert_eq!(level_from_token("debug"), Severity::Debug);
    assert_eq!(level_from_token("4"), Severity::Debug);
    assert_eq!(level_from_token("info"), Severity::Info);
    assert_eq!(level_from_token("3"), Severity::Info);
    assert_eq!(level_from_token("warn"), Severity::Warn);
    assert_eq!(level_from_token("2"), Severity::Warn);
    assert_eq!(level_from_token("error"), Severity::Error);
    assert_eq!(level_from_token("1"), Severity::Error);
    assert_eq!(level_from_token("TRACE"), Severity::Info);
    assert_eq!(level_from_token("0"), Severity::Info);
    assert_eq!(level_from_token(""), Severity::Info);
}

#[test]
fn parse_entries() {
    let cfg = FilterConfig::parse(Some("net,db=warn,all=error,all=2,db=trace,=debug,,x=debug=junk"));
    assert_eq!(cfg.all, Severity::Warn);
    assert_eq!(cfg.threshold("net"), Severity::Info);
    assert_eq!(cfg.threshold("db"), Severity::Trace);
    assert_eq!(cfg.threshold("x"), Severity::Debug);
    assert_eq!(cfg.threshold(""), Severity::Warn);
    assert_eq!(cfg.threshold("other"), Severity::Warn);
    let none = FilterConfig::parse(None);
    assert_eq!(none.all, Severity::Off);
    assert!(none.targets.is_empty());
    let empty = FilterConfig::parse(Some(""));
    assert_eq!(empty.all, Severity::Off);
    assert!(empty.targets.is_empty());
}

#[test]
fn off_never_passes() {
    let logger = configured("all=trace");
    assert!(!logger.enabled("x", Severity::Off));
    assert!(Severity::Trace.passes(Severity::Trace));
    assert!(!Severity::Trace.passes(Severity::Debug));
    assert_eq!(Severity::Warn.most_verbose(Severity::Debug), Severity::Debug);
    assert_eq!(Severity::Trace.verbosity(), 5);
}

#[test]
fn split_pieces() {
    assert_eq!(split_on("a,b,,c", ','), vec!["a", "b", "", "c"]);
    assert_eq!(split_on("", ','), vec![""]);
    assert_eq!(split_on(",", ','), vec!["", ""]);
    assert_eq!(split_on("é=ü", '='), vec!["é", "ü"]);
}

#[test]
fn padding_and_numbers() {
    assert_eq!(pad_right("7", 3), "7  ");
    assert_eq!(pad_right("12345", 3), "12345");
    assert_eq!(pad_right("", 2), "  ");
    assert_eq!(pad_right("WARN", 5), "WARN ");
    assert_eq!(decimal_text(0), "0");
    assert_eq!(decimal_text(42), "42");
    assert_eq!(decimal_text(u64::MAX), "18446744073709551615");
}

#[test]
fn thread_numbers() {
    assert_eq!(thread_number("ThreadId(12)"), "12");
    assert_eq!(thread_number("ThreadId(1)"), "1");
    assert_eq!(thread_number("main"), "Unknown");
    assert_eq!(thread_number("x)(y"), "Unknown");
    assert_eq!(thread_number("()"), "");
}

#[test]
fn line_layout() {
    assert_eq!(
        layout_line("WARN ", "7", "app::net", 42, "hello"),
        "[WARN  - 7   - app::net:42] hello"
    );
    assert_eq!(
        layout_line("ERROR", "1234", "m", 0, ""),
        "[ERROR - 1234 - m:0] "
    );
}

#[test]
fn record_holds_padded_name() {
    let line = format_record(Severity::Info, "3", "m", 9, "msg");
    assert!(
        line == "[INFO  - 3   - m:9] msg" || line == "[\u{1b}[32mINFO \u{1b}[0m - 3   - m:9] msg"
    );
    let line = format_record(Severity::Error, "3", "m", 9, "msg");
    assert!(
        line == "[ERROR - 3   - m:9] msg" || line == "[\u{1b}[31mERROR\u{1b}[0m - 3   - m:9] msg"
    );
}

#[test]
fn record_colors_follow_severity() {
    let cases = [
        (Severity::Error, "ERROR", "31"),
        (Severity::Warn, "WARN ", "33"),
        (Severity::Info, "INFO ", "32"),
        (Severity::Debug, "DEBUG", "34"),
        (Severity::Trace, "TRACE", "35"),
    ];
    for (severity, name, code) in cases {
        let line = format_record(severity, "12", "m", 361, "Hello, world! This is a test 2 5");
        let bare = format!("[{} - 12  - m:361] Hello, world! This is a test 2 5", name);
        let painted = format!(
            "[\u{1b}[{}m{}\u{1b}[0m - 12  - m:361] Hello, world! This is a test 2 5",
            code, name
        );
        assert!(line == bare || line == painted, "{}", line);
    }
}
