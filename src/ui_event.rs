use std::sync::mpsc::Sender;
use vstd::prelude::*;

verus! {

/// `std::sync::mpsc::Sender`, the producer end of a channel, carried opaquely.
#[verifier::external_type_specification]
#[verifier::external_body]
#[verifier::reject_recursive_types(T)]
pub struct ExSender<T>(std::sync::mpsc::Sender<T>);

/// Relies on `Sender::clone`: a second handle on the same channel.
pub assume_specification<T>[ <std::sync::mpsc::Sender<T> as Clone>::clone ](
    s: &std::sync::mpsc::Sender<T>,
) -> std::sync::mpsc::Sender<T>;

/// A result that the background loop reports to the interface thread.
#[derive(Debug, Clone, PartialEq, Eq)]
pub enum UiEvent {
    /// A fragment of an answer; `more_follows` is false on the fragment that
    /// completes it.
    ChatAnswer { text: String, more_follows: bool },
}

/// The producer end of the channel from the background loop to the
/// interface thread. It keeps a ghost record of every event it handed to the
/// channel, in order.
#[derive(Clone)]
pub struct UiSink {
    tx: Sender<UiEvent>,
    sent: Ghost<Seq<UiEvent>>,
}

/// Relies on `std::sync::mpsc::Sender::send`: `ev` is queued on the
/// sink's channel behind every event sent before, or handed back when the
/// receiver is gone. Either way the outcome is dropped, so that a closed
/// interface never stops the sender; the sink's record gains `ev`.
#[verifier::external_body]
fn send_event(sink: &mut UiSink, ev: UiEvent)
    ensures
        final(sink).sent() == old(sink).sent().push(ev),
{
    let _ = sink.tx.send(ev);
}

impl UiSink {
    /// The events handed to the channel through this handle so far.
    pub closed spec fn sent(&self) -> Seq<UiEvent> {
        self.sent@
    }

    pub fn new(tx: Sender<UiEvent>) -> (s: Self)
        ensures
            s.sent() == Seq::<UiEvent>::empty(),
    {
        Self { tx, sent: Ghost(Seq::empty()) }
    }

    /// Reports one answer fragment. Fire and forget: nothing is returned,
    /// and a receiver that went away is not an error.
    pub fn chat_answer(&mut self, text: String, more_follows: bool)
        ensures
            final(self).sent() == old(self).sent().push(UiEvent::ChatAnswer { text, more_follows }),
    {
        send_event(self, UiEvent::ChatAnswer { text, more_follows });
    }
}

} // verus!
