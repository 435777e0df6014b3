use vstd::prelude::*;

verus! {

/// The verbosity levels that the prover's log accepts, from silent to most detailed.
#[derive(Debug, Clone, Copy, PartialEq, Eq, Structural)]
pub enum LogLevel {
    Off,
    Error,
    Warn,
    Info,
    Debug,
    Trace,
}

/// `s` spells the upper-case `name`, each letter in either case.
pub open spec fn name_matches(s: Seq<char>, name: Seq<char>) -> bool {
    &&& s.len() == name.len()
    &&& forall|i: int|
        0 <= i < s.len() ==> s[i] == name[i] || ('A' <= name[i] <= 'Z' && s[i] as u32 == name[i]
            as u32 + 32)
}

/// The level that `s` names, ignoring ASCII case; `None` when it names none.
pub open spec fn level_named(s: Seq<char>) -> Option<LogLevel> {
    if name_matches(s, "OFF"@) {
        Some(LogLevel::Off)
    } else if name_matches(s, "ERROR"@) {
        Some(LogLevel::Error)
    } else if name_matches(s, "WARN"@) {
        Some(LogLevel::Warn)
    } else if name_matches(s, "INFO"@) {
        Some(LogLevel::Info)
    } else if name_matches(s, "DEBUG"@) {
        Some(LogLevel::Debug)
    } else if name_matches(s, "TRACE"@) {
        Some(LogLevel::Trace)
    } else {
        None
    }
}

/// Relies on log's `FromStr for LevelFilter`: it accepts the six names OFF,
/// ERROR, WARN, INFO, DEBUG and TRACE, compared ignoring ASCII case, and
/// rejects every other text.
#[verifier::external_body]
pub(crate) fn parse_level(s: &str) -> (r: Option<LogLevel>)
    ensures
        r == level_named(s@),
{
    match <log::LevelFilter as std::str::FromStr>::from_str(s) {
        Ok(log::LevelFilter::Off) => Some(LogLevel::Off),
        Ok(log::LevelFilter::Error) => Some(LogLevel::Error),
        Ok(log::LevelFilter::Warn) => Some(LogLevel::Warn),
        Ok(log::LevelFilter::Info) => Some(LogLevel::Info),
        Ok(log::LevelFilter::Debug) => Some(LogLevel::Debug),
        Ok(log::LevelFilter::Trace) => Some(LogLevel::Trace),
        Err(_) => None,
    }
}

} // verus!
