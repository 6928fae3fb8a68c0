use vstd::prelude::*;

verus! {

/// Severity of a log record, from the least to the most severe.
#[derive(Clone, Copy, Debug, PartialEq, Eq, Structural)]
pub enum Level {
    Trace,
    Debug,
    Info,
    Warn,
    Error,
}

/// The upper-case name of a level, as the `log` crate prints it.
pub open spec fn level_name(level: Level) -> Seq<char> {
    match level {
        Level::Trace => "TRACE"@,
        Level::Debug => "DEBUG"@,
        Level::Info => "INFO"@,
        Level::Warn => "WARN"@,
        Level::Error => "ERROR"@,
    }
}

/// The glyph written before the level name: empty when emojis are off.
pub open spec fn level_glyph(level: Level, emoji: bool) -> Seq<char> {
    if !emoji {
        ""@
    } else {
        match level {
            Level::Trace => "🔬"@,
            Level::Debug => " ⚙️"@,
            Level::Info => " ℹ"@,
            Level::Warn => " ⚠"@,
            Level::Error => "💥"@,
        }
    }
}

impl Level {
    /// The upper-case name of this level.
    pub fn as_str(&self) -> (r: &'static str)
        ensures
            r@ == level_name(*self),
    {
        match self {
            Level::Trace => "TRACE",
            Level::Debug => "DEBUG",
            Level::Info => "INFO",
            Level::Warn => "WARN",
            Level::Error => "ERROR",
        }
    }

    /// The glyph written before this level's name when `emoji` is set, else
    /// the empty string.
    pub fn glyph(&self, emoji: bool) -> (r: &'static str)
        ensures
            r@ == level_glyph(*self, emoji),
    {
        if !emoji {
            ""
        } else {
            match self {
                Level::Trace => "🔬",
                Level::Debug => " ⚙️",
                Level::Info => " ℹ",
                Level::Warn => " ⚠",
                Level::Error => "💥",
            }
        }
    }
}

} // verus!
