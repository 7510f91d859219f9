use ntfy_log::logger::{GlobalLogger, LogLevel, Logger};

#[test]
fn test_instances() {
    let high_verbosity = Some(LogLevel::Trace);
    let local_logger = Logger::new(high_verbosity);
    let prefixxed_logger = Logger::new_with_prefix(high_verbosity, "! hi !");

    let global_logger = GlobalLogger::default();

    assert!(global_logger.logger.verbosity != local_logger.verbosity);

    local_logger.log("Log 1");
    global_logger.logger.log("Log 2");
    global_logger.log("Log 3");
    prefixxed_logger.log("Log 4");

    local_logger.error("Err 1");
    global_logger.logger.error("Err 2");
    global_logger.error("Err 3");

    local_logger.warn("Warn 1");
    global_logger.logger.warn("Warn 2");
    global_logger.warn("Warn 3");

    local_logger.info("Info 1");
    global_logger.logger.info("Info 2");
    global_logger.info("Info 3");

    local_logger.debug("Dbg 1");
    global_logger.logger.debug("Dbg 2");
    global_logger.debug("Dbg 3");

    local_logger.success("Success 1");
    global_logger.logger.success("Success 2");
    global_logger.success("Success 3");

    local_logger.stdout("stdout 1");
    global_logger.logger.stdout("stdout 2");
    local_logger.stdout("stdout 3");

    local_logger.stderr("stderr 1");
    global_logger.logger.stderr("stderr 2");
    local_logger.stderr("stderr 3");
}

#[test]
fn rendered_lines_are_exact() {
    let l = Logger::new(Some(LogLevel::Trace));
    assert_eq!(l.log("hello"), Some(">> ntfy | hello".to_string()));
    assert_eq!(l.error("boom"), Some(">> ntfy | error | boom".to_string()));
    assert_eq!(l.warn("careful"), Some(">> ntfy | warn | careful".to_string()));
    assert_eq!(l.info("fyi"), Some(">> ntfy | info | fyi".to_string()));
    assert_eq!(l.debug("dbg"), Some(">> ntfy | debug | dbg".to_string()));
    assert_eq!(l.success("done"), Some(">> ntfy | success | done".to_string()));
    assert_eq!(l.important("note", "read me"), Some(">> ntfy | note | read me".to_string()));
    assert_eq!(l.stdout("raw out"), Some("raw out".to_string()));
    assert_eq!(l.stderr("raw err"), Some("raw err".to_string()));
}

#[test]
fn prefixless_lines_drop_the_prefix() {
    let l = Logger { prefix: None, verbosity: Some(LogLevel::Trace) };
    assert_eq!(l.log("hello"), Some("hello".to_string()));
    assert_eq!(l.error("boom"), Some("error | boom".to_string()));
}

#[test]
fn quiet_logger_suppresses_everything() {
    let l = Logger::new(None);
    assert_eq!(l.log("hello"), None);
    assert_eq!(l.error("boom"), None);
    assert_eq!(l.warn("careful"), None);
    assert_eq!(l.info("fyi"), None);
    assert_eq!(l.debug("dbg"), None);
    assert_eq!(l.success("done"), None);
    assert_eq!(l.important("note", "read me"), None);
    assert_eq!(l.stdout("raw out"), None);
    assert_eq!(l.stderr("raw err"), None);
}

#[test]
fn levels_gate_progressively() {
    let error_only = Logger::new(Some(LogLevel::Error));
    assert!(error_only.error("e").is_some());
    assert!(error_only.important("tag", "t").is_some());
    assert!(error_only.warn("w").is_none());
    assert!(error_only.info("i").is_none());
    assert!(error_only.debug("d").is_none());
    assert!(error_only.log("l").is_some());
    assert!(error_only.success("s").is_some());

    let warnish = Logger::new(Some(LogLevel::Warn));
    assert!(warnish.warn("w").is_some());
    assert!(warnish.info("i").is_none());

    let info = Logger::new(Some(LogLevel::Info));
    assert!(info.info("i").is_some());
    assert!(info.debug("d").is_none());

    let debug = Logger::new(Some(LogLevel::Debug));
    assert!(debug.debug("d").is_some());
}

#[test]
fn custom_prefix_carries_through() {
    let l = Logger::new_with_prefix(Some(LogLevel::Trace), "! hi !");
    assert_eq!(l.log("Log 4"), Some("! hi ! | Log 4".to_string()));
}

#[test]
fn global_logger_delegates_and_reports_verbosity() {
    let g = GlobalLogger::new(Logger::new(Some(LogLevel::Info)));
    assert_eq!(g.get_verbosity(), Some(LogLevel::Info));
    assert_eq!(g.info("fyi"), Some(">> ntfy | info | fyi".to_string()));
    assert_eq!(g.debug("dbg"), None);

    let quiet = GlobalLogger::default();
    assert_eq!(quiet.get_verbosity(), None);
    assert_eq!(quiet.log("anything"), None);
}
