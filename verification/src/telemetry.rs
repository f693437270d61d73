//! How the front ends log: the format and the level, as a worker's
//! configuration and the environment ask for them.

use crate::text::{joined, lowercase_of, same_text, string_of};
use vstd::prelude::*;
use vstd::string::StrSliceExecFns;

verus! {

/// The level that `tracing` reads from a text: by its number from 1 to 5
/// or by its name.
pub uninterp spec fn parsed_level(text: Seq<char>) -> Option<LogLevel>;

/// The form in which log lines are written.
#[derive(Debug, Clone, Copy, PartialEq, Eq, Structural)]
pub enum LogFormat {
    Pretty,
    Json,
}

/// How much is logged.
#[derive(Debug, Clone, Copy, PartialEq, Eq, Structural)]
pub enum LogLevel {
    Trace,
    Debug,
    Info,
    Warn,
    Error,
}

/// Why no telemetry could be set up.
#[derive(Debug)]
pub enum TracingError {
    /// The exporter reported a failure.
    OtlpError(String),
    /// The exporter could not be built.
    ExporterBuild(String),
}

impl TracingError {
    /// The error in words.
    pub open spec fn text(self) -> Seq<char> {
        match self {
            TracingError::OtlpError(message) => "OTLP error: "@ + message@,
            TracingError::ExporterBuild(message) => "Failed to create OTLP exporter: "@ + message@,
        }
    }

    /// The error in words.
    pub fn to_string(&self) -> (out: String)
        ensures
            out@ == self.text(),
    {
        match self {
            TracingError::OtlpError(message) => joined("OTLP error: ", message.as_str()),
            TracingError::ExporterBuild(message) => joined(
                "Failed to create OTLP exporter: ",
                message.as_str(),
            ),
        }
    }
}

/// The format that a text names, whatever the case of its letters.
pub open spec fn format_of(text: Seq<char>) -> Option<LogFormat> {
    if lowercase_of(text) == "pretty"@ {
        Some(LogFormat::Pretty)
    } else if lowercase_of(text) == "json"@ {
        Some(LogFormat::Json)
    } else {
        None
    }
}

/// The format that is used where none is asked for: pretty on a terminal,
/// JSON elsewhere.
pub open spec fn default_format(on_terminal: bool) -> LogFormat {
    if on_terminal {
        LogFormat::Pretty
    } else {
        LogFormat::Json
    }
}

/// `Level::from_str`: the level that the text names, by its number from 1
/// (error) to 5 (trace) or by its name, or the failure to read one. Each of
/// the five levels of `tracing` is handed on as the level of the same name.
#[verifier::external_body]
pub(crate) fn read_level(text: &str) -> (level: Option<LogLevel>)
    ensures
        level == parsed_level(text@),
{
    match text.parse::<tracing::Level>() {
        Ok(tracing::Level::TRACE) => Some(LogLevel::Trace),
        Ok(tracing::Level::DEBUG) => Some(LogLevel::Debug),
        Ok(tracing::Level::INFO) => Some(LogLevel::Info),
        Ok(tracing::Level::WARN) => Some(LogLevel::Warn),
        Ok(tracing::Level::ERROR) => Some(LogLevel::Error),
        Err(_) => None,
    }
}

impl LogFormat {
    /// The format for a process whose standard output is, or is not, a
    /// terminal.
    pub fn default_for(on_terminal: bool) -> (format: LogFormat)
        ensures
            format == default_format(on_terminal),
    {
        if on_terminal {
            LogFormat::Pretty
        } else {
            LogFormat::Json
        }
    }

    /// Tells the format from a text and the lower-case form of that text:
    /// `pretty` or `json`. Any other text is refused, with a message that
    /// quotes it.
    pub fn from_lower(lower: &str, text: &str) -> (parsed: Result<LogFormat, String>)
        ensures
            lower@ == "pretty"@ ==> parsed == Ok::<LogFormat, String>(LogFormat::Pretty),
            lower@ != "pretty"@ && lower@ == "json"@ ==> parsed == Ok::<LogFormat, String>(
                LogFormat::Json,
            ),
            lower@ != "pretty"@ && lower@ != "json"@ ==> parsed is Err && parsed->Err_0@
                == "Invalid log format: '"@ + text@ + "'. Valid options are 'pretty' or 'json'"@,
    {
        if same_text(lower, "pretty") {
            Ok(LogFormat::Pretty)
        } else if same_text(lower, "json") {
            Ok(LogFormat::Json)
        } else {
            let head = joined("Invalid log format: '", text);
            Err(joined(head.as_str(), "'. Valid options are 'pretty' or 'json'"))
        }
    }

    /// Parses a format, whatever the case of its letters.
    pub fn from_str(text: &str) -> (parsed: Result<LogFormat, String>)
        ensures
            match format_of(text@) {
                Some(format) => parsed == Ok::<LogFormat, String>(format),
                None => parsed is Err && parsed->Err_0@ == "Invalid log format: '"@ + text@
                    + "'. Valid options are 'pretty' or 'json'"@,
            },
    {
        let lower = text.to_lowercase();
        LogFormat::from_lower(lower.as_str(), text)
    }
}

impl LogLevel {
    /// Parses a level: its number from 1 (error) to 5 (trace), or its name,
    /// whatever the case of its letters.
    pub fn from_str(text: &str) -> (parsed: Option<LogLevel>)
        ensures
            parsed == parsed_level(text@),
    {
        read_level(text)
    }
}

/// What a worker's bindings ask for.
#[derive(Clone, Debug)]
pub struct WorkerConfig {
    pub log_format: Option<String>,
    pub rust_log: Option<String>,
}

impl Default for WorkerConfig {
    /// A configuration that asks for nothing.
    fn default() -> (config: WorkerConfig)
        ensures
            config.log_format is None,
            config.rust_log is None,
    {
        WorkerConfig { log_format: None, rust_log: None }
    }
}

/// What the process found around it: the variables `LOG_FORMAT` and
/// `RUST_LOG`, and whether its standard output is a terminal.
#[derive(Clone, Debug)]
pub struct Environment {
    pub log_format: Option<String>,
    pub rust_log: Option<String>,
    pub on_terminal: bool,
}

/// The first of two optional texts that names a format, as that format.
pub open spec fn first_format(first: Option<Seq<char>>, second: Option<Seq<char>>) -> Option<LogFormat> {
    if first is Some && format_of(first->0) is Some {
        format_of(first->0)
    } else if second is Some {
        format_of(second->0)
    } else {
        None
    }
}

/// The first of two optional texts that names a level, as that level.
pub open spec fn first_level(first: Option<Seq<char>>, second: Option<Seq<char>>) -> Option<LogLevel> {
    if first is Some && parsed_level(first->0) is Some {
        parsed_level(first->0)
    } else if second is Some {
        parsed_level(second->0)
    } else {
        None
    }
}

/// The format and the level in which a front end logs.
#[derive(Debug, Clone, Copy, PartialEq, Eq, Structural)]
pub struct LogConfig {
    pub log_format: LogFormat,
    pub log_level: LogLevel,
}

impl LogConfig {
    /// The format to log in: what the worker asks for if that is a format,
    /// else what the environment asks for if that is one, else the default.
    pub fn resolve_log_format(config: &WorkerConfig, environment: &Environment) -> (format:
        LogFormat)
        ensures
            format == match first_format(
                string_of(config.log_format),
                string_of(environment.log_format),
            ) {
                Some(asked) => asked,
                None => default_format(environment.on_terminal),
            },
    {
        if let Some(text) = &config.log_format {
            if let Ok(format) = LogFormat::from_str(text.as_str()) {
                return format;
            }
        }
        if let Some(text) = &environment.log_format {
            if let Ok(format) = LogFormat::from_str(text.as_str()) {
                return format;
            }
        }
        LogFormat::default_for(environment.on_terminal)
    }

    /// The level to log at: what the worker asks for if that is a level, else
    /// what the environment asks for if that is one, else `Info`.
    pub fn resolve_log_level(config: &WorkerConfig, environment: &Environment) -> (level: LogLevel)
        ensures
            level == match first_level(string_of(config.rust_log), string_of(environment.rust_log)) {
                Some(asked) => asked,
                None => LogLevel::Info,
            },
    {
        if let Some(text) = &config.rust_log {
            if let Some(level) = LogLevel::from_str(text.as_str()) {
                return level;
            }
        }
        if let Some(text) = &environment.rust_log {
            if let Some(level) = LogLevel::from_str(text.as_str()) {
                return level;
            }
        }
        LogLevel::Info
    }

    /// The configuration for a worker in an environment: the worker's
    /// bindings go before the variables of the environment.
    pub fn new(worker_config: WorkerConfig, environment: &Environment) -> (config: Self)
        ensures
            config.log_format == match first_format(
                string_of(worker_config.log_format),
                string_of(environment.log_format),
            ) {
                Some(asked) => asked,
                None => default_format(environment.on_terminal),
            },
            config.log_level == match first_level(
                string_of(worker_config.rust_log),
                string_of(environment.rust_log),
            ) {
                Some(asked) => asked,
                None => LogLevel::Info,
            },
    {
        Self {
            log_format: Self::resolve_log_format(&worker_config, environment),
            log_level: Self::resolve_log_level(&worker_config, environment),
        }
    }

    /// The configuration that the environment alone asks for.
    pub fn from_env(environment: &Environment) -> (config: Self)
        ensures
            config.log_format == match first_format(None, string_of(environment.log_format)) {
                Some(asked) => asked,
                None => default_format(environment.on_terminal),
            },
            config.log_level == match first_level(None, string_of(environment.rust_log)) {
                Some(asked) => asked,
                None => LogLevel::Info,
            },
    {
        Self::new(WorkerConfig::default(), environment)
    }
}

/// The character of a decimal digit.
pub open spec fn digit(d: nat) -> char {
    if d == 0 {
        '0'
    } else if d == 1 {
        '1'
    } else if d == 2 {
        '2'
    } else if d == 3 {
        '3'
    } else if d == 4 {
        '4'
    } else if d == 5 {
        '5'
    } else if d == 6 {
        '6'
    } else if d == 7 {
        '7'
    } else if d == 8 {
        '8'
    } else {
        '9'
    }
}

/// A number in decimal digits.
pub open spec fn decimal(n: nat) -> Seq<char>
    decreases n,
{
    if n < 10 {
        Seq::empty().push(digit(n))
    } else {
        decimal(n / 10).push(digit(n % 10))
    }
}

/// `count` zeros.
pub open spec fn zeros(count: nat) -> Seq<char> {
    Seq::new(count, |i: int| '0')
}

/// A number in decimal digits, with zeros before it where it has fewer than
/// `width` digits.
pub open spec fn padded(n: nat, width: nat) -> Seq<char> {
    if decimal(n).len() >= width {
        decimal(n)
    } else {
        zeros((width - decimal(n).len()) as nat) + decimal(n)
    }
}

/// A date and a time of day in UTC, as a browser's clock gives them: the
/// month counts from 0.
#[derive(Debug, Clone, Copy, PartialEq, Eq, Structural)]
pub struct UtcDate {
    pub year: u32,
    pub month: u32,
    pub day: u32,
    pub hours: u32,
    pub minutes: u32,
    pub seconds: u32,
}

/// A moment as it is written in a log line: the date, `T`, the time with
/// milliseconds, and `Z`.
pub open spec fn timestamp(date: UtcDate, nanos: u32) -> Seq<char> {
    padded(date.year as nat, 4) + "-"@ + padded((date.month + 1) as nat, 2) + "-"@ + padded(
        date.day as nat,
        2,
    ) + "T"@ + padded(date.hours as nat, 2) + ":"@ + padded(date.minutes as nat, 2) + ":"@ + padded(
        date.seconds as nat,
        2,
    ) + "."@ + padded((nanos / 1_000_000) as nat, 3) + "Z"@
}

/// The text of one decimal digit.
pub fn digit_text(d: u64) -> (text: &'static str)
    requires
        d < 10,
    ensures
        text@ == Seq::<char>::empty().push(digit(d as nat)),
{
    proof {
        reveal_strlit("0");
        reveal_strlit("1");
        reveal_strlit("2");
        reveal_strlit("3");
        reveal_strlit("4");
        reveal_strlit("5");
        reveal_strlit("6");
        reveal_strlit("7");
        reveal_strlit("8");
        reveal_strlit("9");
    }
    let text = if d == 0 {
        "0"
    } else if d == 1 {
        "1"
    } else if d == 2 {
        "2"
    } else if d == 3 {
        "3"
    } else if d == 4 {
        "4"
    } else if d == 5 {
        "5"
    } else if d == 6 {
        "6"
    } else if d == 7 {
        "7"
    } else if d == 8 {
        "8"
    } else {
        "9"
    };
    assert(text@ =~= Seq::<char>::empty().push(digit(d as nat)));
    text
}

/// Writes a number in decimal digits, with zeros before it where it has
/// fewer than `width` digits.
pub fn pad_decimal(value: u64, width: usize) -> (text: String)
    ensures
        text@ == padded(value as nat, width as nat),
{
    let mut text = digit_text(value % 10).to_owned();
    let mut rest = value / 10;
    while rest > 0
        invariant
            rest > 0 ==> decimal(value as nat) == decimal(rest as nat) + text@,
            rest == 0 ==> decimal(value as nat) == text@,
        decreases rest,
    {
        let ghost before = text@;
        text = crate::text::joined(digit_text(rest % 10), text.as_str());
        proof {
            let d = Seq::<char>::empty().push(digit((rest % 10) as nat));
            if rest < 10 {
                assert(decimal(rest as nat) == d);
            } else {
                assert(decimal(rest as nat) == decimal((rest / 10) as nat).push(
                    digit((rest % 10) as nat),
                ));
                assert(decimal((rest / 10) as nat).push(digit((rest % 10) as nat)) + before
                    =~= decimal((rest / 10) as nat) + (d + before));
            }
        }
        rest = rest / 10;
    }
    let ghost digits = text@;
    let mut count: usize = text.as_str().unicode_len();
    proof {
        assert(zeros(0) + digits =~= digits);
    }
    while count < width
        invariant
            count == text@.len(),
            count >= digits.len(),
            count > digits.len() ==> count <= width,
            digits == decimal(value as nat),
            text@ == zeros((count - digits.len()) as nat) + digits,
        decreases width - count,
    {
        let ghost before = text@;
        text = crate::text::joined("0", text.as_str());
        proof {
            reveal_strlit("0");
            assert("0"@ + before =~= zeros((count + 1 - digits.len()) as nat) + digits);
        }
        count = count + 1;
    }
    text
}

/// The clock of log lines where the platform has none of its own.
#[derive(Debug, Clone, Copy, PartialEq, Eq, Structural)]
pub struct WebTime;

impl WebTime {
    /// Writes a moment as it stands in a log line: the year in four digits,
    /// month, day, hours, minutes and seconds in two, and the milliseconds of
    /// `nanos` in three.
    pub fn format_time(&self, date: &UtcDate, nanos: u32) -> (text: String)
        requires
            date.month < u32::MAX,
        ensures
            text@ == timestamp(*date, nanos),
    {
        let year = pad_decimal(date.year as u64, 4);
        let month = pad_decimal((date.month + 1) as u64, 2);
        let day = pad_decimal(date.day as u64, 2);
        let hours = pad_decimal(date.hours as u64, 2);
        let minutes = pad_decimal(date.minutes as u64, 2);
        let seconds = pad_decimal(date.seconds as u64, 2);
        let millis = pad_decimal((nanos / 1_000_000) as u64, 3);
        let text = joined(year.as_str(), "-");
        let text = joined(text.as_str(), month.as_str());
        let text = joined(text.as_str(), "-");
        let text = joined(text.as_str(), day.as_str());
        let text = joined(text.as_str(), "T");
        let text = joined(text.as_str(), hours.as_str());
        let text = joined(text.as_str(), ":");
        let text = joined(text.as_str(), minutes.as_str());
        let text = joined(text.as_str(), ":");
        let text = joined(text.as_str(), seconds.as_str());
        let text = joined(text.as_str(), ".");
        let text = joined(text.as_str(), millis.as_str());
        joined(text.as_str(), "Z")
    }
}

} // verus!
