use vstd::prelude::*;
use crate::builder::{settings_of, Builder};
use crate::color::UseColor;
use crate::level::{rank, shows, style_of, Level};
use crate::output::{install_spec, is_style_control, rendering, shutdown_spec, Clout, CloutError};

verus! {

/// A message is written exactly when its level is not `Silent` and is at most
/// as verbose as the threshold.
pub proof fn written_iff_within_threshold(c: Clout, level: Level, msg: String)
    ensures
        rendering(c, level, msg).len() > 0 <==> (level != Level::Silent && rank(level) <= rank(c.level)),
{
}

/// Under the threshold `Silent` no message is written, errors included.
pub proof fn silent_writes_nothing(c: Clout, level: Level, msg: String)
    requires
        c.level == Level::Silent,
    ensures
        rendering(c, level, msg).len() == 0,
{
}

/// Installing twice without a shutdown between fails the second time, and the
/// first settings stay installed.
pub proof fn second_install_fails(s: Option<Clout>, first: Clout, second: Clout)
    ensures
        install_spec(install_spec(s, first).0, second) == (install_spec(s, first).0, Err::<(), CloutError>(CloutError::AlreadyInit)),
        s is None ==> install_spec(install_spec(s, first).0, second).0 == Some(first),
{
}

/// Shutting down twice fails the second time.
pub proof fn second_shutdown_fails(s: Option<Clout>)
    ensures
        shutdown_spec(shutdown_spec(s).0).1 == Err::<(), CloutError>(CloutError::AlreadyShutdown),
{
}

/// With the colour mode `Never` no style is ever set or cleared, whether or not
/// standard output is a terminal.
pub proof fn never_sets_style(b: Builder, is_terminal: bool, level: Level, msg: String)
    requires
        b.use_color == UseColor::Never,
    ensures
        forall|i: int|
            0 <= i < rendering(settings_of(b, is_terminal), level, msg).len() ==> !is_style_control(
                #[trigger] rendering(settings_of(b, is_terminal), level, msg)[i],
            ),
{
}

/// With the colour mode `Always` every written message is framed by its
/// level's style and a reset, whether or not standard output is a terminal.
pub proof fn always_sets_style(b: Builder, is_terminal: bool, level: Level, msg: String)
    requires
        b.use_color == UseColor::Always,
        shows(b.level, level),
    ensures
        rendering(settings_of(b, is_terminal), level, msg).len() == 4,
        rendering(settings_of(b, is_terminal), level, msg)[0] == crate::output::Op::SetStyle(style_of(level)),
        rendering(settings_of(b, is_terminal), level, msg)[3] == crate::output::Op::Reset,
{
}

/// The operator `<` on levels follows the order of their ranks.
pub proof fn less_by_rank(a: Level, b: Level)
    ensures
        (crate::level::compare(a, b) == Some(core::cmp::Ordering::Less)) <==> rank(a) < rank(b),
{
}

} // verus!
