//! Severity levels and their four-letter codes.

use vstd::prelude::*;

verus! {

/// The severity of a record, from the most to the least severe.
#[derive(Clone, Copy, Debug, PartialEq, Eq, Structural)]
pub enum Level {
    Critical,
    Error,
    Warning,
    Info,
    Debug,
    Trace,
}

/// The four-letter code of each level.
pub open spec fn short_code(level: Level) -> Seq<char> {
    match level {
        Level::Critical => seq!['C', 'R', 'I', 'T'],
        Level::Error => seq!['E', 'R', 'R', 'O'],
        Level::Warning => seq!['W', 'A', 'R', 'N'],
        Level::Info => seq!['I', 'N', 'F', 'O'],
        Level::Debug => seq!['D', 'E', 'B', 'G'],
        Level::Trace => seq!['T', 'R', 'C', 'E'],
    }
}

/// Calls `slog::Level::as_short_str` on the slog level of the same name. That method looks
/// the level up in slog's table of short names, which holds `CRIT`, `ERRO`, `WARN`, `INFO`,
/// `DEBG` and `TRCE` for the six levels, in this order.
#[verifier::external_body]
pub(crate) fn level_short_str(level: Level) -> (code: &'static str)
    ensures
        code@ == short_code(level),
{
    let outside = match level {
        Level::Critical => slog::Level::Critical,
        Level::Error => slog::Level::Error,
        Level::Warning => slog::Level::Warning,
        Level::Info => slog::Level::Info,
        Level::Debug => slog::Level::Debug,
        Level::Trace => slog::Level::Trace,
    };
    outside.as_short_str()
}

} // verus!
