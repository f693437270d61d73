use filter_rss_feed::telemetry::{
    pad_decimal, Environment, LogConfig, LogFormat, LogLevel, TracingError, UtcDate, WebTime,
    WorkerConfig,
};

fn environment(log_format: Option<&str>, rust_log: Option<&str>) -> Environment {
    Environment {
        log_format: log_format.map(String::from),
        rust_log: rust_log.map(String::from),
        on_terminal: false,
    }
}

#[test]
fn test_worker_config_default() {
    let config = WorkerConfig::default();
    assert_eq!(config.log_format, None);
    assert_eq!(config.rust_log, None);
}

#[test]
fn test_worker_config_debug_clone() {
    let config = WorkerConfig {
        log_format: Some("json".to_string()),
        rust_log: Some("debug".to_string()),
    };

    let cloned = config.clone();
    assert_eq!(config.log_format, cloned.log_format);
    assert_eq!(config.rust_log, cloned.rust_log);

    let debug_str = format!("{config:?}");
    assert!(debug_str.contains("json"));
    assert!(debug_str.contains("debug"));
}

#[test]
fn test_log_format_from_str_valid() {
    assert_eq!(LogFormat::from_str("pretty").unwrap(), LogFormat::Pretty);
    assert_eq!(LogFormat::from_str("PRETTY").unwrap(), LogFormat::Pretty);
    assert_eq!(LogFormat::from_str("json").unwrap(), LogFormat::Json);
    assert_eq!(LogFormat::from_str("JSON").unwrap(), LogFormat::Json);
    assert_eq!(LogFormat::from_str("Json").unwrap(), LogFormat::Json);
}

#[test]
fn test_log_format_from_str_invalid() {
    for input in ["invalid", "", "xml", " json"] {
        assert!(LogFormat::from_str(input).is_err());
    }
    assert_eq!(
        LogFormat::from_str("XML").unwrap_err(),
        "Invalid log format: 'XML'. Valid options are 'pretty' or 'json'"
    );
}

#[test]
fn from_lower_goes_by_the_lower_case_form() {
    assert_eq!(LogFormat::from_lower("json", "JSON"), Ok(LogFormat::Json));
    assert_eq!(LogFormat::from_lower("pretty", "x"), Ok(LogFormat::Pretty));
    assert_eq!(
        LogFormat::from_lower("JSON", "JSON"),
        Err("Invalid log format: 'JSON'. Valid options are 'pretty' or 'json'".to_string())
    );
}

#[test]
fn format_defaults_to_pretty_on_a_terminal_only() {
    assert_eq!(LogFormat::default_for(true), LogFormat::Pretty);
    assert_eq!(LogFormat::default_for(false), LogFormat::Json);
    let mut env = environment(None, None);
    assert_eq!(LogConfig::from_env(&env).log_format, LogFormat::Json);
    env.on_terminal = true;
    assert_eq!(LogConfig::from_env(&env).log_format, LogFormat::Pretty);
    env.log_format = Some("nonsense".to_string());
    assert_eq!(LogConfig::from_env(&env).log_format, LogFormat::Pretty);
}

#[test]
fn level_is_read_by_name_or_by_number() {
    assert_eq!(LogLevel::from_str("error"), Some(LogLevel::Error));
    assert_eq!(LogLevel::from_str("WARN"), Some(LogLevel::Warn));
    assert_eq!(LogLevel::from_str("Info"), Some(LogLevel::Info));
    assert_eq!(LogLevel::from_str("debug"), Some(LogLevel::Debug));
    assert_eq!(LogLevel::from_str("trace"), Some(LogLevel::Trace));
    assert_eq!(LogLevel::from_str("1"), Some(LogLevel::Error));
    assert_eq!(LogLevel::from_str("2"), Some(LogLevel::Warn));
    assert_eq!(LogLevel::from_str("3"), Some(LogLevel::Info));
    assert_eq!(LogLevel::from_str("4"), Some(LogLevel::Debug));
    assert_eq!(LogLevel::from_str("5"), Some(LogLevel::Trace));
    assert_eq!(LogLevel::from_str("0"), None);
    assert_eq!(LogLevel::from_str("6"), None);
    assert_eq!(LogLevel::from_str(""), None);
    assert_eq!(LogLevel::from_str("invalid"), None);
    assert_eq!(LogLevel::from_str("info,h2=warn"), None);
}

#[test]
fn test_log_config_worker_precedence() {
    let cases: Vec<(Option<&str>, Option<&str>, Option<&str>, Option<&str>, LogFormat, LogLevel)> = vec![
        (None, None, None, None, LogFormat::Json, LogLevel::Info),
        (Some("json"), Some("debug"), None, None, LogFormat::Json, LogLevel::Debug),
        (None, None, Some("pretty"), Some("warn"), LogFormat::Pretty, LogLevel::Warn),
        (Some("json"), Some("debug"), Some("pretty"), Some("warn"), LogFormat::Pretty, LogLevel::Warn),
        (Some("json"), Some("debug"), Some("pretty"), None, LogFormat::Pretty, LogLevel::Debug),
        (Some("json"), Some("debug"), None, Some("warn"), LogFormat::Json, LogLevel::Warn),
        (Some("invalid"), Some("invalid"), Some("json"), Some("error"), LogFormat::Json, LogLevel::Error),
        (Some("json"), Some("debug"), Some("invalid"), Some("invalid"), LogFormat::Json, LogLevel::Debug),
        (Some("pretty"), Some("trace"), Some("invalid"), Some("invalid"), LogFormat::Pretty, LogLevel::Trace),
    ];
    for (env_format, env_level, worker_format, worker_level, format, level) in cases {
        let worker_config = WorkerConfig {
            log_format: worker_format.map(String::from),
            rust_log: worker_level.map(String::from),
        };
        let config = LogConfig::new(worker_config.clone(), &environment(env_format, env_level));
        assert_eq!(config.log_format, format);
        assert_eq!(config.log_level, level);
        assert_eq!(
            LogConfig::resolve_log_format(&worker_config, &environment(env_format, env_level)),
            format
        );
        assert_eq!(
            LogConfig::resolve_log_level(&worker_config, &environment(env_format, env_level)),
            level
        );
    }
}

#[test]
fn from_env_reads_the_environment_alone() {
    let config = LogConfig::from_env(&environment(Some("PRETTY"), Some("4")));
    assert_eq!(config, LogConfig { log_format: LogFormat::Pretty, log_level: LogLevel::Debug });
}

#[test]
fn test_tracing_error_display() {
    let error = TracingError::OtlpError("test error".to_string());
    assert_eq!(error.to_string(), "OTLP error: test error");
    let error = TracingError::ExporterBuild("no endpoint".to_string());
    assert_eq!(error.to_string(), "Failed to create OTLP exporter: no endpoint");
}

#[test]
fn moment_is_written_with_fixed_widths() {
    let date = UtcDate { year: 2024, month: 0, day: 5, hours: 3, minutes: 4, seconds: 9 };
    assert_eq!(WebTime.format_time(&date, 7_000_000), "2024-01-05T03:04:09.007Z");
    let date = UtcDate { year: 1999, month: 11, day: 31, hours: 23, minutes: 59, seconds: 59 };
    assert_eq!(WebTime.format_time(&date, 999_999_999), "1999-12-31T23:59:59.999Z");
    let date = UtcDate { year: 12345, month: 5, day: 0, hours: 0, minutes: 0, seconds: 0 };
    assert_eq!(WebTime.format_time(&date, 0), "12345-06-00T00:00:00.000Z");
    let date = UtcDate { year: 7, month: 122, day: 345, hours: 0, minutes: 0, seconds: 0 };
    assert_eq!(WebTime.format_time(&date, 999_999), "0007-123-345T00:00:00.000Z");

    for (value, width) in [(0u64, 0usize), (0, 1), (0, 3), (9, 2), (10, 2), (99, 3), (100, 2), (u64::MAX, 4), (u64::MAX, 25)] {
        assert_eq!(pad_decimal(value, width), format!("{:0width$}", value, width = width));
    }
}
