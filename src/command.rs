use vstd::prelude::*;

verus! {

/// A user intent that waits in the work queue until the background loop
/// takes it.
#[derive(Debug, Clone, PartialEq, Eq)]
pub enum Command {
    ChatMessage(String),
}

/// The payload-free discriminant of a [`Command`], used as a dispatch key.
#[derive(Debug, Clone, Copy, PartialEq, Eq, Hash, Structural)]
pub enum CommandKind {
    ChatMessage,
    Quit,
}

/// The kind of a command: one per variant, whatever the payload.
pub open spec fn kind_of(cmd: Command) -> CommandKind {
    match cmd {
        Command::ChatMessage(_) => CommandKind::ChatMessage,
    }
}

impl Command {
    pub fn kind(&self) -> (k: CommandKind)
        ensures
            k == kind_of(*self),
    {
        match self {
            Command::ChatMessage(_) => CommandKind::ChatMessage,
        }
    }
}

} // verus!
