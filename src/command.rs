//! The command dispatcher's decisions: which commands attach a session, which
//! of them work on one core, how a core index is checked, and the kinds of
//! failure a command can end in.

use vstd::prelude::*;

verus! {

/// The top-level commands.
#[derive(Clone, Copy, Debug, PartialEq, Eq, Structural)]
pub enum Command {
    List,
    Info,
    Reset,
    Debug,
    Dump,
    Download,
    Erase,
    Run,
    Trace,
}

/// The kinds of failure a command can end in.
#[derive(Clone, Copy, Debug, PartialEq, Eq, Structural)]
pub enum ErrorKind {
    /// No probe, an ambiguous choice of probe, or a failed handshake.
    Attach,
    /// The requested core does not exist on the target.
    InvalidCoreIndex,
    /// A read or write of target memory failed.
    MemoryAccess,
    /// The image file could not be opened or read.
    FileOpen,
    /// The image could not be parsed.
    ImageParse,
    /// Erasing, programming or verifying flash failed.
    FlashExecution,
    /// Line editing failed in the interactive shell.
    LineEditing,
}

/// What the dispatcher acquires before it hands over to the operation.
#[derive(Clone, Copy, Debug, PartialEq, Eq, Structural)]
pub struct CommandPlan {
    /// Whether a session is attached.
    pub attach: bool,
    /// The core to select, for the commands that work on one.
    pub core: Option<usize>,
}

/// Every command but `List` works through an attached session.
pub open spec fn needs_session(c: Command) -> bool {
    c != Command::List
}

/// The commands that work on one core of the target.
pub open spec fn needs_core(c: Command) -> bool {
    c == Command::Reset || c == Command::Debug || c == Command::Dump || c == Command::Trace
}

/// Whether a failure of this kind ends the command with an error; the shell
/// absorbs editing failures and ends cleanly.
pub open spec fn is_fatal_spec(k: ErrorKind) -> bool {
    k != ErrorKind::LineEditing
}

impl Command {
    /// Whether the command attaches a session.
    pub fn needs_session(self) -> (r: bool)
        ensures
            r == needs_session(self),
    {
        !matches!(self, Command::List)
    }

    /// Whether the command works on one core.
    pub fn needs_core(self) -> (r: bool)
        ensures
            r == needs_core(self),
    {
        matches!(self, Command::Reset | Command::Debug | Command::Dump | Command::Trace)
    }

    /// What to acquire for the command, given the requested core index: a
    /// session for all but `List`, and the core for those that work on one.
    pub fn plan(self, core_index: usize) -> (r: CommandPlan)
        ensures
            r.attach == needs_session(self),
            r.core == (if needs_core(self) {
                Some(core_index)
            } else {
                None::<usize>
            }),
    {
        let core = if self.needs_core() {
            Some(core_index)
        } else {
            None
        };
        CommandPlan { attach: self.needs_session(), core }
    }
}

impl ErrorKind {
    /// Whether a failure of this kind ends the command with an error.
    pub fn is_fatal(self) -> (r: bool)
        ensures
            r == is_fatal_spec(self),
    {
        !matches!(self, ErrorKind::LineEditing)
    }
}

/// Checks a requested core index against the number of cores the target
/// has: the index if it names one of them, `InvalidCoreIndex` otherwise.
pub fn select_core(requested: usize, available: usize) -> (r: Result<usize, ErrorKind>)
    ensures
        requested < available ==> r == Ok::<usize, ErrorKind>(requested),
        requested >= available ==> r == Err::<usize, ErrorKind>(ErrorKind::InvalidCoreIndex),
{
    if requested < available {
        Ok(requested)
    } else {
        Err(ErrorKind::InvalidCoreIndex)
    }
}

} // verus!
