use crate::command::{kind_of, Command, CommandKind};
use crate::ui_event::{UiEvent, UiSink};
use vstd::prelude::*;

verus! {

/// A handler for one kind of command. It may take long, and reports what it
/// produces through the sink before it returns.
pub trait Dispatch {
    /// The events that the handler reports for `cmd`, in order.
    spec fn answers(&self, cmd: Command) -> Seq<UiEvent>;

    fn execute(&self, cmd: &Command, ui_sink: &mut UiSink)
        ensures
            final(ui_sink).sent() == old(ui_sink).sent() + self.answers(*cmd),
    ;
}

/// Answers a chat message by echoing its text as a complete answer.
#[derive(Debug, Clone, Copy, PartialEq, Eq, Structural)]
pub struct ChatMessageDispatch;

impl Dispatch for ChatMessageDispatch {
    /// One fragment that repeats the message and completes the answer.
    open spec fn answers(&self, cmd: Command) -> Seq<UiEvent> {
        match cmd {
            Command::ChatMessage(msg) => seq![UiEvent::ChatAnswer { text: msg, more_follows: false }],
        }
    }

    fn execute(&self, cmd: &Command, ui_sink: &mut UiSink) {
        match cmd {
            Command::ChatMessage(msg) => ui_sink.chat_answer(msg.clone(), false),
        }
        assert(ui_sink.sent() =~= old(ui_sink).sent() + self.answers(*cmd));
    }
}

/// The handlers that a dispatcher can route to.
#[derive(Debug, Clone, Copy, PartialEq, Eq, Structural)]
pub enum Handler {
    ChatMessage(ChatMessageDispatch),
}

impl Dispatch for Handler {
    open spec fn answers(&self, cmd: Command) -> Seq<UiEvent> {
        match self {
            Handler::ChatMessage(h) => h.answers(cmd),
        }
    }

    fn execute(&self, cmd: &Command, ui_sink: &mut UiSink) {
        match self {
            Handler::ChatMessage(h) => h.execute(cmd, ui_sink),
        }
    }
}

/// The first handler that `entries` lists for `kind`.
pub open spec fn lookup_handler(entries: Seq<(CommandKind, Handler)>, kind: CommandKind) -> Option<Handler>
    decreases entries.len(),
{
    if entries.len() == 0 {
        None
    } else if entries[0].0 == kind {
        Some(entries[0].1)
    } else {
        lookup_handler(entries.drop_first(), kind)
    }
}

/// The routing of a dispatcher built by `Dispatcher::new`: chat messages go
/// to the chat handler; no other kind has a handler.
pub open spec fn standard_handler(kind: CommandKind) -> Option<Handler> {
    match kind {
        CommandKind::ChatMessage => Some(Handler::ChatMessage(ChatMessageDispatch)),
        _ => None,
    }
}

/// The events that dispatching `cmd` to `handler` reports: the handler's
/// answers, or none when there is no handler.
pub open spec fn dispatched(handler: Option<Handler>, cmd: Command) -> Seq<UiEvent> {
    match handler {
        Some(h) => h.answers(cmd),
        None => Seq::empty(),
    }
}

/// The routing table from command kind to handler, built once.
pub struct Dispatcher {
    dispatches: Vec<(CommandKind, Handler)>,
}

impl Dispatcher {
    /// The handler that the table holds for `kind`.
    pub closed spec fn handler_of(&self, kind: CommandKind) -> Option<Handler> {
        lookup_handler(self.dispatches@, kind)
    }

    pub fn new() -> (d: Self)
        ensures
            forall|k: CommandKind| #[trigger] d.handler_of(k) == standard_handler(k),
    {
        let mut dispatches: Vec<(CommandKind, Handler)> = Vec::new();
        dispatches.push((CommandKind::ChatMessage, Handler::ChatMessage(ChatMessageDispatch)));
        let d = Self { dispatches };
        assert forall|k: CommandKind| d.handler_of(k) == standard_handler(k) by {
            reveal_with_fuel(lookup_handler, 2);
            assert(d.dispatches@.drop_first().len() == 0);
        }
        d
    }

    /// The handler for `kind`, if the table has one.
    pub fn handler(&self, kind: CommandKind) -> (r: Option<Handler>)
        ensures
            r == self.handler_of(kind),
    {
        let n = self.dispatches.len();
        let mut i: usize = 0;
        assert(self.dispatches@.subrange(0, n as int) =~= self.dispatches@);
        while i < n
            invariant
                n == self.dispatches@.len(),
                i <= n,
                lookup_handler(self.dispatches@, kind) == lookup_handler(self.dispatches@.subrange(i as int, n as int), kind),
            decreases n - i,
        {
            let ghost rest = self.dispatches@.subrange(i as int, n as int);
            assert(rest.drop_first() =~= self.dispatches@.subrange(i + 1, n as int));
            if self.dispatches[i].0 == kind {
                return Some(self.dispatches[i].1);
            }
            i = i + 1;
        }
        None
    }

    /// Runs the handler for the command's kind; a kind without one is
    /// ignored.
    pub fn dispatch(&self, cmd: &Command, ui_sink: &mut UiSink)
        ensures
            final(ui_sink).sent() == old(ui_sink).sent() + dispatched(self.handler_of(kind_of(*cmd)), *cmd),
    {
        match self.handler(cmd.kind()) {
            Some(h) => h.execute(cmd, ui_sink),
            None => {
                assert(ui_sink.sent() =~= old(ui_sink).sent() + Seq::<UiEvent>::empty());
            },
        }
    }
}

} // verus!
