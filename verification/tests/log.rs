use obs_rs::log::{
    to_native_level, Level, LevelFilter, Logger, LOG_DEBUG, LOG_ERROR, LOG_INFO, LOG_WARNING,
};

#[test]
fn logger_defaults() {
    let logger = Logger::new();
    assert_eq!(logger.max_level(), LevelFilter::Trace);
    assert!(!logger.promote_debug());
    let d = Logger::default();
    assert_eq!(d.max_level(), LevelFilter::Trace);
    assert!(!d.promote_debug());
}

#[test]
fn logger_builders_keep_other_setting() {
    let logger = Logger::new().with_promote_debug(true).with_max_level(LevelFilter::Warn);
    assert_eq!(logger.max_level(), LevelFilter::Warn);
    assert!(logger.promote_debug());
}

#[test]
fn native_levels() {
    assert_eq!(to_native_level(Level::Error, false), LOG_ERROR);
    assert_eq!(to_native_level(Level::Warn, false), LOG_WARNING);
    assert_eq!(to_native_level(Level::Info, false), LOG_INFO);
    assert_eq!(to_native_level(Level::Debug, false), LOG_DEBUG);
    assert_eq!(to_native_level(Level::Trace, false), LOG_DEBUG);
    assert_eq!(to_native_level(Level::Debug, true), LOG_INFO);
    assert_eq!(to_native_level(Level::Trace, true), LOG_INFO);
    assert_eq!(to_native_level(Level::Error, true), LOG_ERROR);
    assert_eq!((LOG_ERROR, LOG_WARNING, LOG_INFO, LOG_DEBUG), (100, 200, 300, 400));
}

#[test]
fn promotion_moves_only_debug_and_trace() {
    for level in [Level::Error, Level::Warn, Level::Info] {
        assert_eq!(to_native_level(level, true), to_native_level(level, false));
    }
    for level in [Level::Error, Level::Warn, Level::Info, Level::Debug, Level::Trace] {
        assert_ne!(to_native_level(level, true), LOG_DEBUG);
    }
}

#[test]
fn enabled_follows_max_level() {
    let logger = Logger::new().with_max_level(LevelFilter::Info);
    assert!(logger.enabled(Level::Error));
    assert!(logger.enabled(Level::Info));
    assert!(!logger.enabled(Level::Debug));
    let off = Logger::new().with_max_level(LevelFilter::Off);
    assert!(!off.enabled(Level::Error));
}

#[test]
fn render_plain_line() {
    let logger = Logger::new();
    assert_eq!(
        logger.render(Level::Info, "my_plugin", None, "hello"),
        Some((LOG_INFO, String::from("[my_plugin] hello\0")))
    );
}

#[test]
fn render_falls_back_to_module_path() {
    let logger = Logger::new();
    assert_eq!(
        logger.render(Level::Warn, "", Some("crate::module"), "careful"),
        Some((LOG_WARNING, String::from("[crate::module] careful\0")))
    );
    assert_eq!(
        logger.render(Level::Warn, "", None, "x"),
        Some((LOG_WARNING, String::from("[] x\0")))
    );
}

#[test]
fn render_with_promotion_prefixes_level() {
    let logger = Logger::new().with_promote_debug(true);
    assert_eq!(
        logger.render(Level::Debug, "t", None, "m"),
        Some((LOG_INFO, String::from("(DEBUG) [t] m\0")))
    );
    assert_eq!(
        logger.render(Level::Error, "t", None, "m"),
        Some((LOG_ERROR, String::from("(ERROR) [t] m\0")))
    );
    // trace records are promoted but carry no prefix
    assert_eq!(
        logger.render(Level::Trace, "t", None, "m"),
        Some((LOG_INFO, String::from("[t] m\0")))
    );
}

#[test]
fn render_drops_records_above_max_level() {
    let logger = Logger::new().with_max_level(LevelFilter::Warn);
    assert_eq!(logger.render(Level::Info, "t", None, "m"), None);
    assert!(logger.render(Level::Warn, "t", None, "m").is_some());
}

#[test]
fn level_names_and_ranks() {
    assert_eq!(Level::Error.as_str(), "ERROR");
    assert_eq!(Level::Warn.as_str(), "WARN");
    assert_eq!(Level::Info.as_str(), "INFO");
    assert_eq!(Level::Debug.as_str(), "DEBUG");
    assert_eq!(Level::Trace.as_str(), "TRACE");
    assert_eq!(Level::Trace.to_rank(), 5);
    assert_eq!(LevelFilter::Off.to_rank(), 0);
}
