//! The error and diagnostics subsystem.
//!
//! Two complementary mechanisms surface driver-side failures: polling the
//! driver's error flag after state-changing calls, and an asynchronous
//! debug-message stream the driver pushes through a callback. Both decode
//! closed sets of driver-reported codes into structured kinds and route a
//! text record to a leveled log sink. The sink itself only accepts and
//! records; unverified glue forwards its entries to wherever they are
//! shown.

use vstd::prelude::*;
use vstd::string::StringExecFns;

verus! {

/// Severity level of a recorded log message.
#[derive(Clone, Copy, Debug, PartialEq, Eq, Structural)]
pub enum LogLevel {
    Error,
    Warn,
    Info,
    Debug,
}

/// One recorded log message.
#[derive(Clone, Debug)]
pub struct LogEntry {
    /// The level the message was routed to.
    pub level: LogLevel,
    /// The message text.
    pub text: String,
}

/// A log sink: accepts leveled text messages and records them in order.
/// Its view is the sequence of recorded (level, text) pairs.
pub struct LogSink {
    entries: Vec<LogEntry>,
}

impl View for LogSink {
    type V = Seq<(LogLevel, Seq<char>)>;

    closed spec fn view(&self) -> Seq<(LogLevel, Seq<char>)> {
        self.entries@.map(|i: int, e: LogEntry| (e.level, e.text@))
    }
}

impl LogSink {
    /// An empty sink.
    pub fn new() -> (sink: LogSink)
        ensures
            sink@ == Seq::<(LogLevel, Seq<char>)>::empty(),
    {
        let sink = LogSink { entries: Vec::new() };
        proof {
            assert(sink@ =~= Seq::<(LogLevel, Seq<char>)>::empty());
        }
        sink
    }

    /// Appends one message at `level`.
    fn record(&mut self, level: LogLevel, text: String)
        ensures
            final(self)@ == old(self)@.push((level, text@)),
    {
        let ghost text_view = text@;
        self.entries.push(LogEntry { level, text });
        proof {
            assert(final(self)@ =~= old(self)@.push((level, text_view)));
        }
    }

    /// The recorded entries, oldest first.
    pub fn entries(&self) -> (entries: &Vec<LogEntry>)
        ensures
            entries@.len() == self@.len(),
            forall|i: int|
                0 <= i < self@.len() ==> entries@[i].level == self@[i].0 && entries@[i].text@
                    == self@[i].1,
    {
        &self.entries
    }
}

/// Records `message` at the error level.
pub fn print_err(sink: &mut LogSink, message: &str)
    ensures
        final(sink)@ == old(sink)@.push((LogLevel::Error, message@)),
{
    sink.record(LogLevel::Error, String::from_str(message));
}

/// Records `message` at the warning level.
pub fn print_warn(sink: &mut LogSink, message: &str)
    ensures
        final(sink)@ == old(sink)@.push((LogLevel::Warn, message@)),
{
    sink.record(LogLevel::Warn, String::from_str(message));
}

/// Records `message` at the informational level.
pub fn print_info(sink: &mut LogSink, message: &str)
    ensures
        final(sink)@ == old(sink)@.push((LogLevel::Info, message@)),
{
    sink.record(LogLevel::Info, String::from_str(message));
}

/// Records `message` at the debug level.
pub fn print_debug(sink: &mut LogSink, message: &str)
    ensures
        final(sink)@ == old(sink)@.push((LogLevel::Debug, message@)),
{
    sink.record(LogLevel::Debug, String::from_str(message));
}

/// The closed set of error kinds the driver's error flag reports.
#[derive(Clone, Copy, Debug, PartialEq, Eq, Structural)]
pub enum ErrorKind {
    InvalidEnum,
    InvalidValue,
    InvalidOperation,
    StackOverflow,
    StackUnderflow,
    OutOfMemory,
    Unknown,
}

/// Decoding of the driver's error codes. Any code outside the documented
/// set is `Unknown`.
pub open spec fn spec_decode_error(code: u32) -> ErrorKind {
    if code == 0x0500 {
        ErrorKind::InvalidEnum
    } else if code == 0x0501 {
        ErrorKind::InvalidValue
    } else if code == 0x0502 {
        ErrorKind::InvalidOperation
    } else if code == 0x0503 {
        ErrorKind::StackOverflow
    } else if code == 0x0504 {
        ErrorKind::StackUnderflow
    } else if code == 0x0505 {
        ErrorKind::OutOfMemory
    } else {
        ErrorKind::Unknown
    }
}

/// Decodes a non-zero driver error code into its kind.
pub fn decode_error(code: u32) -> (kind: ErrorKind)
    ensures
        kind == spec_decode_error(code),
{
    match code {
        0x0500 => ErrorKind::InvalidEnum,
        0x0501 => ErrorKind::InvalidValue,
        0x0502 => ErrorKind::InvalidOperation,
        0x0503 => ErrorKind::StackOverflow,
        0x0504 => ErrorKind::StackUnderflow,
        0x0505 => ErrorKind::OutOfMemory,
        _ => ErrorKind::Unknown,
    }
}

/// The display label of each error kind.
pub open spec fn spec_error_label(kind: ErrorKind) -> Seq<char> {
    match kind {
        ErrorKind::InvalidEnum => "Invalid Enum"@,
        ErrorKind::InvalidValue => "Invalid Value"@,
        ErrorKind::InvalidOperation => "Invalid Operation"@,
        ErrorKind::StackOverflow => "Stack Overflow"@,
        ErrorKind::StackUnderflow => "Stack Underflow"@,
        ErrorKind::OutOfMemory => "Out of Memory"@,
        ErrorKind::Unknown => "Unknown Error"@,
    }
}

/// The display label of an error kind.
pub fn error_string(kind: ErrorKind) -> (label: &'static str)
    ensures
        label@ == spec_error_label(kind),
{
    match kind {
        ErrorKind::InvalidEnum => "Invalid Enum",
        ErrorKind::InvalidValue => "Invalid Value",
        ErrorKind::InvalidOperation => "Invalid Operation",
        ErrorKind::StackOverflow => "Stack Overflow",
        ErrorKind::StackUnderflow => "Stack Underflow",
        ErrorKind::OutOfMemory => "Out of Memory",
        ErrorKind::Unknown => "Unknown Error",
    }
}

/// The text recorded for a non-zero driver error code.
pub open spec fn spec_gl_error_text(code: u32) -> Seq<char> {
    "OpenGL Error: "@ + spec_error_label(spec_decode_error(code))
}

/// Handles the result of polling the driver's error flag after a
/// state-changing call: a zero code means no error and records nothing;
/// any other code is decoded and recorded at the error level. Purely
/// diagnostic: nothing is raised or retried.
pub fn check_gl_error(sink: &mut LogSink, error_code: u32)
    ensures
        error_code == 0 ==> final(sink)@ == old(sink)@,
        error_code != 0 ==> final(sink)@ == old(sink)@.push(
            (LogLevel::Error, spec_gl_error_text(error_code)),
        ),
{
    if error_code != 0 {
        let kind = decode_error(error_code);
        let text = String::from_str("OpenGL Error: ").concat(error_string(kind));
        sink.record(LogLevel::Error, text);
    }
}

/// The origin a debug message reports.
#[derive(Clone, Copy, Debug, PartialEq, Eq, Structural)]
pub enum DebugSource {
    Api,
    WindowSystem,
    ShaderCompiler,
    ThirdParty,
    Application,
    Unknown,
}

/// The category a debug message reports.
#[derive(Clone, Copy, Debug, PartialEq, Eq, Structural)]
pub enum DebugType {
    Error,
    DeprecatedBehavior,
    UndefinedBehavior,
    Portability,
    Performance,
    Marker,
    PushGroup,
    PopGroup,
    Other,
    Unknown,
}

/// The severity a debug message reports.
#[derive(Clone, Copy, Debug, PartialEq, Eq, Structural)]
pub enum DebugSeverity {
    High,
    Medium,
    Low,
    Notification,
    Unknown,
}

/// Decoding of the driver's debug-source codes.
pub open spec fn spec_decode_source(code: u32) -> DebugSource {
    if code == 0x8246 {
        DebugSource::Api
    } else if code == 0x8247 {
        DebugSource::WindowSystem
    } else if code == 0x8248 {
        DebugSource::ShaderCompiler
    } else if code == 0x8249 {
        DebugSource::ThirdParty
    } else if code == 0x824A {
        DebugSource::Application
    } else {
        DebugSource::Unknown
    }
}

/// Decodes a driver debug-source code.
pub fn decode_source(code: u32) -> (source: DebugSource)
    ensures
        source == spec_decode_source(code),
{
    match code {
        0x8246 => DebugSource::Api,
        0x8247 => DebugSource::WindowSystem,
        0x8248 => DebugSource::ShaderCompiler,
        0x8249 => DebugSource::ThirdParty,
        0x824A => DebugSource::Application,
        _ => DebugSource::Unknown,
    }
}

/// Decoding of the driver's debug-type codes.
pub open spec fn spec_decode_type(code: u32) -> DebugType {
    if code == 0x824C {
        DebugType::Error
    } else if code == 0x824D {
        DebugType::DeprecatedBehavior
    } else if code == 0x824E {
        DebugType::UndefinedBehavior
    } else if code == 0x824F {
        DebugType::Portability
    } else if code == 0x8250 {
        DebugType::Performance
    } else if code == 0x8268 {
        DebugType::Marker
    } else if code == 0x8269 {
        DebugType::PushGroup
    } else if code == 0x826A {
        DebugType::PopGroup
    } else if code == 0x8251 {
        DebugType::Other
    } else {
        DebugType::Unknown
    }
}

/// Decodes a driver debug-type code.
pub fn decode_type(code: u32) -> (message_type: DebugType)
    ensures
        message_type == spec_decode_type(code),
{
    match code {
        0x824C => DebugType::Error,
        0x824D => DebugType::DeprecatedBehavior,
        0x824E => DebugType::UndefinedBehavior,
        0x824F => DebugType::Portability,
        0x8250 => DebugType::Performance,
        0x8268 => DebugType::Marker,
        0x8269 => DebugType::PushGroup,
        0x826A => DebugType::PopGroup,
        0x8251 => DebugType::Other,
        _ => DebugType::Unknown,
    }
}

/// Decoding of the driver's debug-severity codes.
pub open spec fn spec_decode_severity(code: u32) -> DebugSeverity {
    if code == 0x9146 {
        DebugSeverity::High
    } else if code == 0x9147 {
        DebugSeverity::Medium
    } else if code == 0x9148 {
        DebugSeverity::Low
    } else if code == 0x826B {
        DebugSeverity::Notification
    } else {
        DebugSeverity::Unknown
    }
}

/// Decodes a driver debug-severity code.
pub fn decode_severity(code: u32) -> (severity: DebugSeverity)
    ensures
        severity == spec_decode_severity(code),
{
    match code {
        0x9146 => DebugSeverity::High,
        0x9147 => DebugSeverity::Medium,
        0x9148 => DebugSeverity::Low,
        0x826B => DebugSeverity::Notification,
        _ => DebugSeverity::Unknown,
    }
}

/// The log level each debug-message category routes to: errors and
/// undefined behavior to the error sink, deprecation and portability to
/// the warning sink, grouping markers to the debug sink, everything else
/// to the informational sink.
pub open spec fn spec_route_level(message_type: DebugType) -> LogLevel {
    match message_type {
        DebugType::Error | DebugType::UndefinedBehavior => LogLevel::Error,
        DebugType::DeprecatedBehavior | DebugType::Portability => LogLevel::Warn,
        DebugType::Marker | DebugType::PushGroup | DebugType::PopGroup => LogLevel::Debug,
        _ => LogLevel::Info,
    }
}

/// The log level a debug-message category routes to.
pub fn route_level(message_type: DebugType) -> (level: LogLevel)
    ensures
        level == spec_route_level(message_type),
{
    match message_type {
        DebugType::Error | DebugType::UndefinedBehavior => LogLevel::Error,
        DebugType::DeprecatedBehavior | DebugType::Portability => LogLevel::Warn,
        DebugType::Marker | DebugType::PushGroup | DebugType::PopGroup => LogLevel::Debug,
        _ => LogLevel::Info,
    }
}

/// The display label of each debug source.
pub open spec fn spec_source_label(source: DebugSource) -> Seq<char> {
    match source {
        DebugSource::Api => "API"@,
        DebugSource::WindowSystem => "Window System"@,
        DebugSource::ShaderCompiler => "Shader Compiler"@,
        DebugSource::ThirdParty => "Third Party"@,
        DebugSource::Application => "Application"@,
        DebugSource::Unknown => "Unknown"@,
    }
}

/// The display label of a debug source.
pub fn source_label(source: DebugSource) -> (label: &'static str)
    ensures
        label@ == spec_source_label(source),
{
    match source {
        DebugSource::Api => "API",
        DebugSource::WindowSystem => "Window System",
        DebugSource::ShaderCompiler => "Shader Compiler",
        DebugSource::ThirdParty => "Third Party",
        DebugSource::Application => "Application",
        DebugSource::Unknown => "Unknown",
    }
}

/// The display label of each debug-message category.
pub open spec fn spec_type_label(message_type: DebugType) -> Seq<char> {
    match message_type {
        DebugType::Error => "Error"@,
        DebugType::DeprecatedBehavior => "Deprecated Behavior"@,
        DebugType::UndefinedBehavior => "Undefined Behavior"@,
        DebugType::Portability => "Portability"@,
        DebugType::Performance => "Performance"@,
        DebugType::Marker => "Marker"@,
        DebugType::PushGroup => "Push Group"@,
        DebugType::PopGroup => "Pop Group"@,
        DebugType::Other => "Other"@,
        DebugType::Unknown => "Unknown"@,
    }
}

/// The display label of a debug-message category.
pub fn type_label(message_type: DebugType) -> (label: &'static str)
    ensures
        label@ == spec_type_label(message_type),
{
    match message_type {
        DebugType::Error => "Error",
        DebugType::DeprecatedBehavior => "Deprecated Behavior",
        DebugType::UndefinedBehavior => "Undefined Behavior",
        DebugType::Portability => "Portability",
        DebugType::Performance => "Performance",
        DebugType::Marker => "Marker",
        DebugType::PushGroup => "Push Group",
        DebugType::PopGroup => "Pop Group",
        DebugType::Other => "Other",
        DebugType::Unknown => "Unknown",
    }
}

/// The display label of each debug severity.
pub open spec fn spec_severity_label(severity: DebugSeverity) -> Seq<char> {
    match severity {
        DebugSeverity::High => "High"@,
        DebugSeverity::Medium => "Medium"@,
        DebugSeverity::Low => "Low"@,
        DebugSeverity::Notification => "Notification"@,
        DebugSeverity::Unknown => "Unknown"@,
    }
}

/// The display label of a debug severity.
pub fn severity_label(severity: DebugSeverity) -> (label: &'static str)
    ensures
        label@ == spec_severity_label(severity),
{
    match severity {
        DebugSeverity::High => "High",
        DebugSeverity::Medium => "Medium",
        DebugSeverity::Low => "Low",
        DebugSeverity::Notification => "Notification",
        DebugSeverity::Unknown => "Unknown",
    }
}

/// The digit character of one decimal digit.
pub open spec fn spec_digit_char(d: int) -> char {
    if d == 0 {
        '0'
    } else if d == 1 {
        '1'
    } else if d == 2 {
        '2'
    } else if d == 3 {
        '3'
    } else if d == 4 {
        '4'
    } else if d == 5 {
        '5'
    } else if d == 6 {
        '6'
    } else if d == 7 {
        '7'
    } else if d == 8 {
        '8'
    } else {
        '9'
    }
}

/// The decimal rendering of a non-negative number, most significant
/// digit first, without leading zeros (except for zero itself).
pub open spec fn spec_decimal(n: int) -> Seq<char>
    decreases n,
{
    if n < 10 {
        seq![spec_digit_char(n)]
    } else {
        spec_decimal(n / 10).push(spec_digit_char(n % 10))
    }
}

/// The digit character of one decimal digit.
fn digit_str(d: u32) -> (s: &'static str)
    requires
        d < 10,
    ensures
        s@ == seq![spec_digit_char(d as int)],
{
    match d {
        0 => {
            proof {
                reveal_strlit("0");
                assert("0"@ =~= seq![spec_digit_char(0)]);
            }
            "0"
        },
        1 => {
            proof {
                reveal_strlit("1");
                assert("1"@ =~= seq![spec_digit_char(1)]);
            }
            "1"
        },
        2 => {
            proof {
                reveal_strlit("2");
                assert("2"@ =~= seq![spec_digit_char(2)]);
            }
            "2"
        },
        3 => {
            proof {
                reveal_strlit("3");
                assert("3"@ =~= seq![spec_digit_char(3)]);
            }
            "3"
        },
        4 => {
            proof {
                reveal_strlit("4");
                assert("4"@ =~= seq![spec_digit_char(4)]);
            }
            "4"
        },
        5 => {
            proof {
                reveal_strlit("5");
                assert("5"@ =~= seq![spec_digit_char(5)]);
            }
            "5"
        },
        6 => {
            proof {
                reveal_strlit("6");
                assert("6"@ =~= seq![spec_digit_char(6)]);
            }
            "6"
        },
        7 => {
            proof {
                reveal_strlit("7");
                assert("7"@ =~= seq![spec_digit_char(7)]);
            }
            "7"
        },
        8 => {
            proof {
                reveal_strlit("8");
                assert("8"@ =~= seq![spec_digit_char(8)]);
            }
            "8"
        },
        _ => {
            proof {
                reveal_strlit("9");
                assert("9"@ =~= seq![spec_digit_char(9)]);
            }
            "9"
        },
    }
}

/// Renders `n` in decimal.
pub fn decimal_string(n: u32) -> (s: String)
    ensures
        s@ == spec_decimal(n as int),
    decreases n,
{
    if n < 10 {
        String::from_str(digit_str(n))
    } else {
        let mut s = decimal_string(n / 10);
        s.append(digit_str(n % 10));
        proof {
            assert(s@ =~= spec_decimal(n as int));
        }
        s
    }
}

/// The text recorded for one debug message: every decoded field's label
/// and the driver-supplied message text.
pub open spec fn spec_debug_text(
    source: u32,
    message_type: u32,
    id: u32,
    severity: u32,
    message: Seq<char>,
) -> Seq<char> {
    "debug message: source = "@ + spec_source_label(spec_decode_source(source)) + ", type = "@
        + spec_type_label(spec_decode_type(message_type)) + ", id = "@ + spec_decimal(id as int)
        + ", severity = "@ + spec_severity_label(spec_decode_severity(severity)) + ", message = "@
        + message
}

/// Handles one message of the driver's asynchronous debug stream. The
/// raw `source`, `message_type` and `severity` codes are decoded into
/// their closed sets, the record is rendered as text, and the text is
/// recorded at the level the message's category routes to.
pub fn debug_callback(
    sink: &mut LogSink,
    source: u32,
    message_type: u32,
    id: u32,
    severity: u32,
    message: &str,
)
    ensures
        final(sink)@ == old(sink)@.push(
            (
                spec_route_level(spec_decode_type(message_type)),
                spec_debug_text(source, message_type, id, severity, message@),
            ),
        ),
{
    let decoded_source = decode_source(source);
    let decoded_type = decode_type(message_type);
    let decoded_severity = decode_severity(severity);

    let mut text = String::from_str("debug message: source = ");
    text.append(source_label(decoded_source));
    text.append(", type = ");
    text.append(type_label(decoded_type));
    text.append(", id = ");
    let id_text = decimal_string(id);
    text.append(id_text.as_str());
    text.append(", severity = ");
    text.append(severity_label(decoded_severity));
    text.append(", message = ");
    text.append(message);
    proof {
        assert(text@ =~= spec_debug_text(source, message_type, id, severity, message@));
    }

    let level = route_level(decoded_type);
    match level {
        LogLevel::Error => print_err(sink, text.as_str()),
        LogLevel::Warn => print_warn(sink, text.as_str()),
        LogLevel::Debug => print_debug(sink, text.as_str()),
        LogLevel::Info => print_info(sink, text.as_str()),
    }
}

} // verus!
