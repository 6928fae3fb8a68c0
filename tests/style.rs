use my_env_logger_style::{
    get_set_max_module_len, plain_text, set_arg_formatter, set_timestamp_precision, show_emoji,
    show_module, Level, LogRecord, Segment, StyleConfig, TimestampPrecision,
};

fn record(level: Level, module: Option<&str>, message: &str) -> LogRecord {
    LogRecord {
        level,
        module: module.map(|m| m.to_string()),
        message: message.to_string(),
    }
}

fn quiet_config() -> StyleConfig<&'static str> {
    let mut cfg = StyleConfig::new();
    set_timestamp_precision(&mut cfg, TimestampPrecision::Disable);
    cfg
}

#[test]
fn defaults() {
    let cfg: StyleConfig<()> = StyleConfig::new();
    assert!(cfg.module_shown());
    assert!(cfg.emoji_shown());
    assert_eq!(cfg.timestamp_precision(), TimestampPrecision::Seconds);
    assert_eq!(cfg.max_module_len(), 0);
    assert!(cfg.arg_formatter().is_none());
}

#[test]
fn warn_line_with_tracked_width() {
    let mut cfg = quiet_config();
    get_set_max_module_len(&mut cfg, 8);
    let segs = my_env_logger_style::line::format(&mut cfg, &record(Level::Warn, Some("db::pool"), "conn lost"));
    assert_eq!(plain_text(&segs, ""), " ⚠ WARN  db::pool > conn lost\n");
    assert_eq!(cfg.max_module_len(), 8);
}

#[test]
fn segment_styles() {
    let mut cfg = quiet_config();
    let segs = my_env_logger_style::line::format(&mut cfg, &record(Level::Info, Some("app"), "hi"));
    assert_eq!(segs.len(), 8);
    assert!(matches!(&segs[0], Segment::Plain(t) if t == " ℹ "));
    assert!(matches!(&segs[1], Segment::Level(Level::Info, t) if t == "INFO "));
    assert!(matches!(&segs[2], Segment::Plain(t) if t == " "));
    assert!(matches!(&segs[3], Segment::Dimmed(t) if t == "app"));
    assert!(matches!(&segs[4], Segment::Plain(t) if t == " "));
    assert!(matches!(&segs[5], Segment::Bold(t) if t == ">"));
    assert!(matches!(&segs[6], Segment::Plain(t) if t == " "));
    assert!(matches!(&segs[7], Segment::Plain(t) if t == "hi\n"));
}

#[test]
fn module_hidden() {
    let mut cfg = quiet_config();
    show_module(&mut cfg, false);
    let segs = my_env_logger_style::line::format(&mut cfg, &record(Level::Warn, Some("db::pool"), "conn lost"));
    assert_eq!(plain_text(&segs, ""), " ⚠ WARN  conn lost\n");
    assert!(!segs.iter().any(|s| matches!(s, Segment::Dimmed(_) | Segment::Bold(_))));
    assert_eq!(cfg.max_module_len(), 0);
}

#[test]
fn emoji_hidden() {
    let mut cfg = quiet_config();
    show_emoji(&mut cfg, false);
    show_module(&mut cfg, false);
    let segs = my_env_logger_style::line::format(&mut cfg, &record(Level::Info, None, "ready"));
    assert_eq!(plain_text(&segs, ""), " INFO  ready\n");
    let segs = my_env_logger_style::line::format(&mut cfg, &record(Level::Error, None, "boom"));
    assert_eq!(plain_text(&segs, ""), " ERROR boom\n");
}

#[test]
fn glyph_for_each_level() {
    let mut cfg = quiet_config();
    show_module(&mut cfg, false);
    let cases = [
        (Level::Trace, "🔬 TRACE m\n"),
        (Level::Debug, " ⚙️ DEBUG m\n"),
        (Level::Info, " ℹ INFO  m\n"),
        (Level::Warn, " ⚠ WARN  m\n"),
        (Level::Error, "💥 ERROR m\n"),
    ];
    for (level, expected) in cases {
        let segs = my_env_logger_style::line::format(&mut cfg, &record(level, None, "m"));
        assert_eq!(plain_text(&segs, ""), expected);
    }
}

#[test]
fn timestamp_disabled() {
    let mut cfg = quiet_config();
    let segs = my_env_logger_style::line::format(&mut cfg, &record(Level::Info, Some("a"), "x"));
    assert!(!segs.iter().any(|s| matches!(s, Segment::Timestamp(_))));
    assert_eq!(plain_text(&segs, "2024-01-01T00:00:00Z"), " ℹ INFO  a > x\n");
}

#[test]
fn timestamp_at_precision() {
    let mut cfg: StyleConfig<()> = StyleConfig::new();
    let segs = my_env_logger_style::line::format(&mut cfg, &record(Level::Info, Some("a"), "x"));
    assert!(matches!(segs[0], Segment::Timestamp(TimestampPrecision::Seconds)));
    assert_eq!(plain_text(&segs, "T"), "T  ℹ INFO  a > x\n");
    set_timestamp_precision(&mut cfg, TimestampPrecision::Millis);
    let segs = my_env_logger_style::line::format(&mut cfg, &record(Level::Info, Some("a"), "x"));
    assert!(matches!(segs[0], Segment::Timestamp(TimestampPrecision::Millis)));
}

#[test]
fn module_padded_to_previous_width() {
    let mut cfg = quiet_config();
    show_emoji(&mut cfg, false);
    let segs = my_env_logger_style::line::format(&mut cfg, &record(Level::Info, Some("long::module"), "a"));
    assert_eq!(plain_text(&segs, ""), " INFO  long::module > a\n");
    assert_eq!(cfg.max_module_len(), 12);
    let segs = my_env_logger_style::line::format(&mut cfg, &record(Level::Info, Some("short"), "b"));
    assert_eq!(plain_text(&segs, ""), " INFO  short        > b\n");
    let segs = my_env_logger_style::line::format(&mut cfg, &record(Level::Info, None, "c"));
    assert_eq!(plain_text(&segs, ""), " INFO               > c\n");
    assert_eq!(cfg.max_module_len(), 12);
}

#[test]
fn longer_module_not_padded_on_first_sight() {
    let mut cfg = quiet_config();
    show_emoji(&mut cfg, false);
    get_set_max_module_len(&mut cfg, 3);
    let segs = my_env_logger_style::line::format(&mut cfg, &record(Level::Info, Some("abcdef"), "a"));
    assert_eq!(plain_text(&segs, ""), " INFO  abcdef > a\n");
    assert_eq!(cfg.max_module_len(), 6);
}

#[test]
fn width_returns_previous_value() {
    let mut cfg: StyleConfig<()> = StyleConfig::new();
    assert_eq!(get_set_max_module_len(&mut cfg, 5), 0);
    assert_eq!(get_set_max_module_len(&mut cfg, 3), 5);
    assert_eq!(get_set_max_module_len(&mut cfg, 9), 5);
    assert_eq!(cfg.max_module_len(), 9);
}

#[test]
fn width_non_increasing_calls() {
    let mut cfg: StyleConfig<()> = StyleConfig::new();
    get_set_max_module_len(&mut cfg, 10);
    for n in [10, 7, 7, 3, 0] {
        get_set_max_module_len(&mut cfg, n);
        assert_eq!(cfg.max_module_len(), 10);
    }
}

#[test]
fn width_increasing_calls() {
    let mut cfg: StyleConfig<()> = StyleConfig::new();
    for n in [1, 4, 6, 20] {
        get_set_max_module_len(&mut cfg, n);
        assert_eq!(cfg.max_module_len(), n);
    }
}

#[test]
fn width_is_max_of_all_lengths() {
    let mut cfg: StyleConfig<()> = StyleConfig::new();
    let lens = [4, 17, 2, 9, 17, 16, 0];
    let mut last = 0;
    for n in lens {
        get_set_max_module_len(&mut cfg, n);
        assert!(cfg.max_module_len() >= last);
        last = cfg.max_module_len();
    }
    assert_eq!(cfg.max_module_len(), 17);
}

#[test]
fn formatter_installed_once() {
    let mut cfg: StyleConfig<&'static str> = StyleConfig::new();
    assert_eq!(set_arg_formatter(&mut cfg, "first"), Ok(()));
    assert_eq!(set_arg_formatter(&mut cfg, "second"), Err(()));
    assert_eq!(set_arg_formatter(&mut cfg, "third"), Err(()));
    assert_eq!(cfg.arg_formatter(), Some(&"first"));
}

#[test]
fn delegated_message_gets_no_line_end() {
    let mut cfg = quiet_config();
    show_module(&mut cfg, false);
    show_emoji(&mut cfg, false);
    set_arg_formatter(&mut cfg, "payload").unwrap();
    let segs = my_env_logger_style::line::format(&mut cfg, &record(Level::Warn, Some("db"), "conn lost"));
    let head = plain_text(&segs, "");
    assert_eq!(head, " WARN  ");
    let payload = "line one\nline two";
    let line = format!("{}{}", head, payload);
    assert_eq!(line, " WARN  line one\nline two");
    assert!(!line.ends_with('\n'));
}

#[test]
fn delegated_message_keeps_module() {
    let mut cfg = quiet_config();
    set_arg_formatter(&mut cfg, "f").unwrap();
    let segs = my_env_logger_style::line::format(&mut cfg, &record(Level::Debug, Some("net"), "ignored"));
    assert_eq!(plain_text(&segs, ""), " ⚙️ DEBUG net > ");
    assert!(matches!(segs.last(), Some(Segment::Plain(t)) if t == " "));
}

#[test]
fn level_names() {
    assert_eq!(Level::Trace.as_str(), "TRACE");
    assert_eq!(Level::Info.as_str(), "INFO");
    assert_eq!(Level::Error.glyph(true), "💥");
    assert_eq!(Level::Error.glyph(false), "");
}
