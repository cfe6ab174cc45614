use vstd::prelude::*;

verus! {

/// The different levels of importance of a message.
/// Also used as the threshold that decides which messages are displayed.
#[derive(Clone, Copy, Debug, PartialEq, Eq, Structural)]
pub enum Level {
    /// Display absolutely nothing
    Silent,
    /// Messages indicating that an operation cannot proceed
    Error,
    /// Messages indicating that an operation will proceed but may not do
    /// what the user wanted
    Warn,
    /// The usual messages that indicate what an operation is doing
    Status,
    /// Messages that the user might find useful but are not essential
    Info,
    /// Messages that are useful for the developer, or in bug reports
    Debug,
    /// Low level messages on what the operation is doing
    Trace,
}

/// A foreground colour of the terminal.
#[derive(Clone, Copy, Debug, PartialEq, Eq, Structural)]
pub enum Fg {
    /// The terminal's own foreground colour
    Plain,
    Red,
    Yellow,
    White,
    Cyan,
    Magenta,
}

/// The text style that a message is written in.
#[derive(Clone, Copy, Debug, PartialEq, Eq, Structural)]
pub struct Style {
    pub fg: Fg,
    pub bold: bool,
}

/// The position of a level in the order
/// `Silent < Error < Warn < Status < Info < Debug < Trace`.
pub open spec fn rank(l: Level) -> nat {
    match l {
        Level::Silent => 0,
        Level::Error => 1,
        Level::Warn => 2,
        Level::Status => 3,
        Level::Info => 4,
        Level::Debug => 5,
        Level::Trace => 6,
    }
}

/// Whether a message at `level` is displayed under `threshold`: the threshold
/// is at least as verbose as the message, and `Silent` is never a message level.
pub open spec fn shows(threshold: Level, level: Level) -> bool {
    level != Level::Silent && rank(level) <= rank(threshold)
}

/// The style of each message level.
pub open spec fn style_of(l: Level) -> Style {
    match l {
        Level::Silent => Style { fg: Fg::Plain, bold: false },
        Level::Error => Style { fg: Fg::Red, bold: true },
        Level::Warn => Style { fg: Fg::Yellow, bold: true },
        Level::Status => Style { fg: Fg::Plain, bold: false },
        Level::Info => Style { fg: Fg::White, bold: false },
        Level::Debug => Style { fg: Fg::Cyan, bold: false },
        Level::Trace => Style { fg: Fg::Magenta, bold: false },
    }
}

impl Level {
    /// The position of this level in the order of levels.
    pub fn rank(&self) -> (r: u8)
        ensures
            r as nat == rank(*self),
    {
        match self {
            Level::Silent => 0,
            Level::Error => 1,
            Level::Warn => 2,
            Level::Status => 3,
            Level::Info => 4,
            Level::Debug => 5,
            Level::Trace => 6,
        }
    }

    /// Whether a message at `level` is displayed when `self` is the threshold.
    pub fn shows(&self, level: &Level) -> (r: bool)
        ensures
            r == shows(*self, *level),
    {
        match level {
            Level::Silent => false,
            _ => level.rank() <= self.rank(),
        }
    }

    /// The style that a message at this level is written in.
    pub fn get_color(&self) -> (r: Style)
        ensures
            r == style_of(*self),
    {
        match self {
            Level::Silent => Style { fg: Fg::Plain, bold: false },
            Level::Error => Style { fg: Fg::Red, bold: true },
            Level::Warn => Style { fg: Fg::Yellow, bold: true },
            Level::Status => Style { fg: Fg::Plain, bold: false },
            Level::Info => Style { fg: Fg::White, bold: false },
            Level::Debug => Style { fg: Fg::Cyan, bold: false },
            Level::Trace => Style { fg: Fg::Magenta, bold: false },
        }
    }
}

/// The order of levels by their rank.
pub open spec fn compare(a: Level, b: Level) -> Option<core::cmp::Ordering> {
    if rank(a) < rank(b) {
        Some(core::cmp::Ordering::Less)
    } else if rank(a) == rank(b) {
        Some(core::cmp::Ordering::Equal)
    } else {
        Some(core::cmp::Ordering::Greater)
    }
}

impl PartialOrd for Level {
    fn partial_cmp(&self, other: &Level) -> (r: Option<core::cmp::Ordering>)
        ensures
            r == compare(*self, *other),
    {
        let a = self.rank();
        let b = other.rank();
        if a < b {
            Some(core::cmp::Ordering::Less)
        } else if a == b {
            Some(core::cmp::Ordering::Equal)
        } else {
            Some(core::cmp::Ordering::Greater)
        }
    }
}

impl vstd::std_specs::cmp::PartialOrdSpecImpl for Level {
    open spec fn obeys_partial_cmp_spec() -> bool {
        true
    }

    open spec fn partial_cmp_spec(&self, other: &Level) -> Option<core::cmp::Ordering> {
        compare(*self, *other)
    }
}

} // verus!
