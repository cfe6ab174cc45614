use vstd::prelude::*;
use crate::color::{colorize, UseColor};
use crate::level::Level;
use crate::output::{install_spec, Clout, CloutError, Output};

verus! {

/// Configuration of output, consumed by [`Builder::done`].
#[derive(Clone, Copy, Debug, PartialEq, Eq, Structural)]
pub struct Builder {
    pub level: Level,
    pub use_color: UseColor,
}

/// The threshold for a verbosity count: 0, 1, 2 and 3 or more give
/// `Status`, `Info`, `Debug` and `Trace`.
pub open spec fn verbosity_level(verbose: u8) -> Level {
    if verbose == 0 {
        Level::Status
    } else if verbose == 1 {
        Level::Info
    } else if verbose == 2 {
        Level::Debug
    } else {
        Level::Trace
    }
}

/// The settings that a builder makes, given whether standard output is a terminal.
pub open spec fn settings_of(b: Builder, is_terminal: bool) -> Clout {
    Clout { level: b.level, colorize: colorize(b.use_color, is_terminal) }
}

impl Builder {
    /// A builder with the defaults: `Status` level, `Auto` colour.
    pub fn new() -> (r: Builder)
        ensures
            r == (Builder { level: Level::Status, use_color: UseColor::Auto }),
    {
        Builder { level: Level::Status, use_color: UseColor::Auto }
    }

    /// Set the threshold.
    pub fn with_level(self, level: Level) -> (r: Builder)
        ensures
            r == (Builder { level, ..self }),
    {
        Builder { level, ..self }
    }

    /// Set the threshold from a verbosity count, as given by flags like `-v`
    /// and `-vv`.
    pub fn with_verbose(self, verbose: u8) -> (r: Builder)
        ensures
            r == (Builder { level: verbosity_level(verbose), ..self }),
    {
        let level = match verbose {
            0 => Level::Status,
            1 => Level::Info,
            2 => Level::Debug,
            _ => Level::Trace,
        };
        Builder { level, ..self }
    }

    /// If `quiet`, show errors only; otherwise change nothing.
    /// Meant to follow [`Builder::with_verbose`].
    pub fn with_quiet(self, quiet: bool) -> (r: Builder)
        ensures
            quiet ==> r == (Builder { level: Level::Error, ..self }),
            !quiet ==> r == self,
    {
        if quiet {
            Builder { level: Level::Error, ..self }
        } else {
            self
        }
    }

    /// If `silent`, show nothing at all, not even errors; otherwise change
    /// nothing. Meant to follow [`Builder::with_verbose`] and [`Builder::with_quiet`].
    pub fn with_silent(self, silent: bool) -> (r: Builder)
        ensures
            silent ==> r == (Builder { level: Level::Silent, ..self }),
            !silent ==> r == self,
    {
        if silent {
            Builder { level: Level::Silent, ..self }
        } else {
            self
        }
    }

    /// Set the colour mode.
    pub fn with_use_color(self, use_color: UseColor) -> (r: Builder)
        ensures
            r == (Builder { use_color, ..self }),
    {
        Builder { use_color, ..self }
    }

    /// The settings of this builder, given whether standard output is a terminal.
    pub fn build_with(self, is_terminal: bool) -> (r: Clout)
        ensures
            r == settings_of(self, is_terminal),
    {
        Clout { level: self.level, colorize: self.use_color.decide(is_terminal) }
    }

    /// The settings of this builder; the colour mode `Auto` asks whether
    /// standard output is a terminal.
    pub fn build(self) -> (r: Clout)
        ensures
            exists|t: bool| r == settings_of(self, t),
    {
        let colorize = self.use_color.resolve();
        let r = Clout { level: self.level, colorize };
        assert(r == settings_of(self, colorize));
        r
    }

    /// Finish configuring and install these settings into `out`.
    /// Fails, leaving `out` as it was, when output is already active.
    pub fn done(self, out: &mut Output) -> (r: Result<(), CloutError>)
        ensures
            exists|t: bool|
                (final(out).state, r) == #[trigger] install_spec(
                    old(out).state,
                    settings_of(self, t),
                ),
    {
        let c = self.build();
        out.install(c)
    }
}

/// A builder with the defaults, to start configuring output.
pub fn init() -> (r: Builder)
    ensures
        r == (Builder { level: Level::Status, use_color: UseColor::Auto }),
{
    Builder::new()
}

} // verus!
