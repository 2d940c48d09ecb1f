use nask::app_state::AppUIState;
use nask::command::{Command, CommandKind};
use nask::dispatcher::{ChatMessageDispatch, Dispatcher, Handler};
use nask::ui_event::{UiEvent, UiSink};
use std::sync::mpsc;

#[test]
fn dispatcher_routes_chat_messages() {
    let d = Dispatcher::new();
    assert_eq!(d.handler(CommandKind::ChatMessage), Some(Handler::ChatMessage(ChatMessageDispatch)));
    assert_eq!(d.handler(CommandKind::Quit), None);
}

#[test]
fn chat_message_is_echoed_through_the_sink() {
    let (tx, rx) = mpsc::channel();
    let mut sink = UiSink::new(tx);
    Dispatcher::new().dispatch(&Command::ChatMessage("ping".to_string()), &mut sink);
    assert_eq!(rx.try_recv(), Ok(UiEvent::ChatAnswer { text: "ping".to_string(), more_follows: false }));
    assert!(rx.try_recv().is_err());
}

#[test]
fn sink_survives_a_closed_receiver() {
    let (tx, rx) = mpsc::channel();
    drop(rx);
    let mut sink = UiSink::new(tx);
    sink.chat_answer("lost".to_string(), false);
    let mut copy = sink.clone();
    copy.chat_answer("also lost".to_string(), true);
}

#[test]
fn sink_sends_in_order() {
    let (tx, rx) = mpsc::channel();
    let mut sink = UiSink::new(tx);
    sink.chat_answer("a".to_string(), true);
    sink.chat_answer("b".to_string(), false);
    let got: Vec<UiEvent> = rx.try_iter().collect();
    assert_eq!(
        got,
        vec![
            UiEvent::ChatAnswer { text: "a".to_string(), more_follows: true },
            UiEvent::ChatAnswer { text: "b".to_string(), more_follows: false },
        ]
    );
}

#[test]
fn each_echo_becomes_its_own_entry() {
    let (tx, rx) = mpsc::channel();
    let mut sink = UiSink::new(tx);
    let d = Dispatcher::new();
    d.dispatch(&Command::ChatMessage("one".to_string()), &mut sink);
    d.dispatch(&Command::ChatMessage("two".to_string()), &mut sink);
    let mut state = AppUIState::new();
    for ev in rx.try_iter() {
        state.apply_ui_event(ev);
    }
    let msgs = &state.chat_state.chat_messages;
    assert_eq!(msgs.len(), 2);
    assert_eq!(msgs[0].message, "one");
    assert_eq!(msgs[1].message, "two");
    assert!(msgs[0].is_complete && msgs[1].is_complete);
}
