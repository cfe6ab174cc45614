use vstd::prelude::*;
use crate::level::{shows, style_of, Level, Style};

verus! {

/// Errors of the output lifecycle.
#[derive(Clone, Copy, Debug, PartialEq, Eq, Structural)]
pub enum CloutError {
    /// Tried to initialise output when it is already initialised
    AlreadyInit,
    /// Tried to shut output down when it is already shut down
    AlreadyShutdown,
}

impl CloutError {
    /// The human readable description of the error.
    pub fn message(&self) -> (r: String)
        ensures
            *self == CloutError::AlreadyInit ==> r@ == "clout already initialised"@,
            *self == CloutError::AlreadyShutdown ==> r@ == "clout already shutdown"@,
    {
        match self {
            CloutError::AlreadyInit => "clout already initialised".to_owned(),
            CloutError::AlreadyShutdown => "clout already shutdown".to_owned(),
        }
    }
}

/// The settings of active output: the threshold, and whether to colour.
#[derive(Clone, Copy, Debug, PartialEq, Eq, Structural)]
pub struct Clout {
    pub level: Level,
    pub colorize: bool,
}

/// One operation on a coloured writer.
#[derive(Debug)]
pub enum Op {
    /// Set the style of what follows
    SetStyle(Style),
    /// Write the text
    Text(String),
    /// Write a line terminator
    Newline,
    /// Clear the style
    Reset,
}

/// The output slot: `Some` while output is active, `None` otherwise.
#[derive(Clone, Copy, Debug)]
pub struct Output {
    pub state: Option<Clout>,
}

/// Installing `c` into the slot `s`: the next slot and the result.
pub open spec fn install_spec(s: Option<Clout>, c: Clout) -> (Option<Clout>, Result<(), CloutError>) {
    match s {
        Some(_) => (s, Err(CloutError::AlreadyInit)),
        None => (Some(c), Ok(())),
    }
}

/// Shutting the slot `s` down: the next slot and the result.
pub open spec fn shutdown_spec(s: Option<Clout>) -> (Option<Clout>, Result<(), CloutError>) {
    match s {
        Some(_) => (None, Ok(())),
        None => (None, Err(CloutError::AlreadyShutdown)),
    }
}

/// What a writer performs for a message `msg` at `level` under the settings `c`:
/// nothing when the message is filtered out; otherwise the text and a line
/// terminator, framed by setting the level's style and resetting it when
/// colouring.
pub open spec fn rendering(c: Clout, level: Level, msg: String) -> Seq<Op> {
    if !shows(c.level, level) {
        Seq::empty()
    } else if c.colorize {
        seq![Op::SetStyle(style_of(level)), Op::Text(msg), Op::Newline, Op::Reset]
    } else {
        seq![Op::Text(msg), Op::Newline]
    }
}

/// Whether `op` sets or clears a style.
pub open spec fn is_style_control(op: Op) -> bool {
    match op {
        Op::SetStyle(_) => true,
        Op::Reset => true,
        _ => false,
    }
}

impl Output {
    /// An output slot with nothing installed.
    pub fn new() -> (r: Output)
        ensures
            r.state is None,
    {
        Output { state: None }
    }

    /// Whether output is active.
    pub fn is_active(&self) -> (r: bool)
        ensures
            r == self.state is Some,
    {
        self.state.is_some()
    }

    /// Install the settings `c`, unless output is already active.
    pub fn install(&mut self, c: Clout) -> (r: Result<(), CloutError>)
        ensures
            (final(self).state, r) == install_spec(old(self).state, c),
    {
        if self.state.is_some() {
            Err(CloutError::AlreadyInit)
        } else {
            self.state = Some(c);
            Ok(())
        }
    }
}

/// Shut output down, unless it is not active.
pub fn shutdown(out: &mut Output) -> (r: Result<(), CloutError>)
    ensures
        (final(out).state, r) == shutdown_spec(old(out).state),
{
    if out.state.is_some() {
        out.state = None;
        Ok(())
    } else {
        Err(CloutError::AlreadyShutdown)
    }
}

/// The operations that write the message `msg` at `level` on active output.
/// Emitting before output is active is a programming error, excluded here.
pub fn emit(out: &Output, level: Level, msg: String) -> (r: Vec<Op>)
    requires
        out.state is Some,
    ensures
        r@ == rendering(out.state->0, level, msg),
{
    let c = out.state.unwrap();
    let mut ops: Vec<Op> = Vec::new();
    if !c.level.shows(&level) {
        assert(ops@ =~= rendering(c, level, msg));
        return ops;
    }
    if c.colorize {
        ops.push(Op::SetStyle(level.get_color()));
        ops.push(Op::Text(msg));
        ops.push(Op::Newline);
        ops.push(Op::Reset);
    } else {
        ops.push(Op::Text(msg));
        ops.push(Op::Newline);
    }
    assert(ops@ =~= rendering(c, level, msg));
    ops
}

} // verus!
