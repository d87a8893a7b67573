use vstd::prelude::*;

verus! {

/// How severe a diagnostic is, from least to most.
#[derive(Clone, Copy, Debug, PartialEq, Eq, Structural)]
pub enum Level {
    Trace,
    Debug,
    Info,
    Warn,
    Error,
}

/// One diagnostic, ready for whichever logger the program installed.
#[derive(Clone, Debug, PartialEq, Eq)]
pub struct LogRecord {
    pub level: Level,
    /// Where the record goes: statistics go to their own log.
    pub target: String,
    pub message: String,
}

/// The target of the statistics log.
pub open spec fn stat_target() -> Seq<char> {
    "stat"@
}

/// The target of the application log.
pub open spec fn app_target() -> Seq<char> {
    "scg"@
}

pub open spec fn is_record(r: LogRecord, level: Level, target: Seq<char>, message: Seq<char>) -> bool {
    r.level == level && r.target@ == target && r.message@ == message
}

/// A record of `message` at `level` for the application log.
pub fn app_record(level: Level, message: &str) -> (r: LogRecord)
    ensures
        is_record(r, level, app_target(), message@),
{
    LogRecord { level, target: "scg".to_owned(), message: message.to_owned() }
}

/// A record of `msg` for the statistics log, at level info.
pub fn log_stat(msg: &str) -> (r: LogRecord)
    ensures
        is_record(r, Level::Info, stat_target(), msg@),
{
    LogRecord { level: Level::Info, target: "stat".to_owned(), message: msg.to_owned() }
}

/// One record at each level of the application log, from trace to error,
/// then one of the statistics log.
pub fn test_log() -> (r: Vec<LogRecord>)
    ensures
        r@.len() == 6,
        is_record(r@[0], Level::Trace, app_target(), "This is a trace message"@),
        is_record(r@[1], Level::Debug, app_target(), "This is a debug message"@),
        is_record(r@[2], Level::Info, app_target(), "This is an info message"@),
        is_record(r@[3], Level::Warn, app_target(), "This is an warn message"@),
        is_record(r@[4], Level::Error, app_target(), "This is an error message"@),
        is_record(r@[5], Level::Info, stat_target(), "This is a stat message"@),
{
    let mut records: Vec<LogRecord> = Vec::new();
    records.push(app_record(Level::Trace, "This is a trace message"));
    records.push(app_record(Level::Debug, "This is a debug message"));
    records.push(app_record(Level::Info, "This is an info message"));
    records.push(app_record(Level::Warn, "This is an warn message"));
    records.push(app_record(Level::Error, "This is an error message"));
    records.push(log_stat("This is a stat message"));
    records
}

} // verus!
