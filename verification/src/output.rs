use vstd::prelude::*;

verus! {

/// How much a step may say, and what it tells the helper to say.
#[derive(Clone, Copy, Debug, PartialEq, Eq, Structural)]
pub enum CommandOutput {
    /// Informational lines are printed.
    Normal,
    /// Nothing but hard errors; the helper is quieted too.
    Quiet,
    /// Extra diagnostic lines; the helper runs verbosely.
    Verbose,
}

impl CommandOutput {
    /// Whether informational lines are printed in this mode.
    pub open spec fn speaks(self) -> bool {
        self != CommandOutput::Quiet
    }

    /// Whether diagnostic lines are printed in this mode.
    pub open spec fn details(self) -> bool {
        self == CommandOutput::Verbose
    }

    pub fn is_quiet(self) -> (b: bool)
        ensures
            b == !self.speaks(),
    {
        self == CommandOutput::Quiet
    }

    pub fn is_verbose(self) -> (b: bool)
        ensures
            b == self.details(),
    {
        self == CommandOutput::Verbose
    }
}

/// Where an echoed line goes.
#[derive(Clone, Copy, Debug, PartialEq, Eq, Structural)]
pub enum EchoState {
    Stdout,
    Stderr,
    Quiet,
}

/// An output stream of the process.
#[derive(Clone, Copy, Debug, PartialEq, Eq, Structural)]
pub enum Stream {
    Stdout,
    Stderr,
}

impl EchoState {
    /// The number that stands for this state where it is kept in a byte.
    pub open spec fn code(self) -> u8 {
        match self {
            EchoState::Stdout => 0,
            EchoState::Stderr => 1,
            EchoState::Quiet => 2,
        }
    }

    /// The number that stands for this state.
    pub fn to_code(self) -> (code: u8)
        ensures
            code == self.code(),
            code <= 2,
    {
        match self {
            EchoState::Stdout => 0,
            EchoState::Stderr => 1,
            EchoState::Quiet => 2,
        }
    }

    /// The state that `code` stands for. Only the numbers that
    /// [`EchoState::to_code`] gives stand for a state.
    pub fn from_code(code: u8) -> (state: EchoState)
        requires
            code <= 2,
        ensures
            state.code() == code,
    {
        if code == 0 {
            EchoState::Stdout
        } else if code == 1 {
            EchoState::Stderr
        } else {
            EchoState::Quiet
        }
    }

    /// The stream that an echoed line is written to, or nothing where echo
    /// is silenced.
    pub fn stream(self) -> (stream: Option<Stream>)
        ensures
            stream == match self {
                EchoState::Stdout => Some(Stream::Stdout),
                EchoState::Stderr => Some(Stream::Stderr),
                EchoState::Quiet => None,
            },
    {
        match self {
            EchoState::Stdout => Some(Stream::Stdout),
            EchoState::Stderr => Some(Stream::Stderr),
            EchoState::Quiet => None,
        }
    }
}

/// Remembers the echo state that was in force before a redirection, so that
/// it can be put back with [`RedirectGuard::restore`].
#[must_use]
#[derive(Debug, PartialEq, Eq, Structural)]
pub struct RedirectGuard {
    previous: EchoState,
}

impl RedirectGuard {
    /// The echo state that this guard puts back.
    pub closed spec fn previous(&self) -> EchoState {
        self.previous
    }

    /// Ends the redirection: the echo state is what it was when the guard
    /// was made.
    pub fn restore(self, state: &mut EchoState)
        ensures
            *final(state) == self.previous(),
    {
        *state = self.previous;
    }
}

/// Until the guard is restored, echo goes to stderr (`yes`) or to stdout.
pub fn redirect_to_stderr(state: &mut EchoState, yes: bool) -> (guard: RedirectGuard)
    ensures
        guard.previous() == *old(state),
        *final(state) == if yes { EchoState::Stderr } else { EchoState::Stdout },
{
    let previous = *state;
    *state = if yes { EchoState::Stderr } else { EchoState::Stdout };
    RedirectGuard { previous }
}

/// Until the guard is restored, echo is silenced (`yes`) or goes to stdout.
pub fn quiet(state: &mut EchoState, yes: bool) -> (guard: RedirectGuard)
    ensures
        guard.previous() == *old(state),
        *final(state) == if yes { EchoState::Quiet } else { EchoState::Stdout },
{
    let previous = *state;
    *state = if yes { EchoState::Quiet } else { EchoState::Stdout };
    RedirectGuard { previous }
}

} // verus!
