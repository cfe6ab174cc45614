use vstd::prelude::*;

verus! {

/// Whether messages are written in colour.
#[derive(Clone, Copy, Debug, PartialEq, Eq, Structural)]
pub enum UseColor {
    /// Never use colour
    Never,
    /// Always use colour (even if standard output is a pipe)
    Always,
    /// Use colour only when standard output is a terminal
    Auto,
}

/// The colour decision for `mode`, given whether standard output is a terminal.
pub open spec fn colorize(mode: UseColor, is_terminal: bool) -> bool {
    match mode {
        UseColor::Never => false,
        UseColor::Always => true,
        UseColor::Auto => is_terminal,
    }
}

/// Relies on `atty::is(atty::Stream::Stdout)`: whether the process's standard
/// output is attached to a terminal. That depends on how the process was
/// started, so nothing is stated of the result.
#[verifier::external_body]
fn stdout_is_terminal() -> (r: bool) {
    atty::is(atty::Stream::Stdout)
}

impl UseColor {
    /// Decide whether to colour, given whether standard output is a terminal.
    pub fn decide(self, is_terminal: bool) -> (r: bool)
        ensures
            r == colorize(self, is_terminal),
    {
        match self {
            UseColor::Never => false,
            UseColor::Always => true,
            UseColor::Auto => is_terminal,
        }
    }

    /// Decide whether to colour; only `Auto` asks whether standard output is a
    /// terminal.
    pub fn resolve(self) -> (r: bool)
        ensures
            self == UseColor::Never ==> !r,
            self == UseColor::Always ==> r,
    {
        match self {
            UseColor::Auto => {
                let t = stdout_is_terminal();
                self.decide(t)
            },
            _ => self.decide(false),
        }
    }
}

} // verus!
