use nask::app_state::AppUIState;
use nask::chat::{ChatMessage, ChatState};
use nask::ui_event::UiEvent;

fn feed(state: &mut AppUIState, events: &[(&str, bool)]) {
    for (text, more_follows) in events {
        state.apply_ui_event(UiEvent::ChatAnswer { text: text.to_string(), more_follows: *more_follows });
    }
}

#[test]
fn fragments_merge_into_one_entry() {
    let mut state = AppUIState::new();
    feed(&mut state, &[("Hel", true), ("lo", false)]);
    let msgs = &state.chat_state.chat_messages;
    assert_eq!(msgs.len(), 1);
    assert_eq!(msgs[0].message, "Hello");
    assert!(msgs[0].is_complete);
    assert!(msgs[0].is_response);
}

#[test]
fn empty_fragment_is_ignored() {
    let mut state = AppUIState::new();
    feed(&mut state, &[("", true)]);
    assert!(state.chat_state.chat_messages.is_empty());
    feed(&mut state, &[("Hi", false)]);
    let msgs = &state.chat_state.chat_messages;
    assert_eq!(msgs.len(), 1);
    assert_eq!(msgs[0].message, "Hi");
    assert!(msgs[0].is_complete);
}

#[test]
fn completed_answers_stay_apart() {
    let mut state = AppUIState::new();
    feed(&mut state, &[("A", false), ("B", false)]);
    let msgs = &state.chat_state.chat_messages;
    assert_eq!(msgs.len(), 2);
    assert_eq!(msgs[0].message, "A");
    assert_eq!(msgs[1].message, "B");
    assert!(msgs[0].is_complete && msgs[1].is_complete);
}

#[test]
fn lone_final_fragment_is_a_whole_answer() {
    let mut chat = ChatState::default();
    chat.merge_answer("done".to_string(), false);
    assert_eq!(chat.chat_messages.len(), 1);
    assert!(chat.chat_messages[0].is_complete);
}

#[test]
fn open_answer_keeps_growing() {
    let mut chat = ChatState::default();
    chat.merge_answer("a".to_string(), true);
    chat.merge_answer("b".to_string(), true);
    chat.merge_answer("c".to_string(), true);
    assert_eq!(chat.chat_messages.len(), 1);
    assert_eq!(chat.chat_messages[0].message, "abc");
    assert!(!chat.chat_messages[0].is_complete);
}

#[test]
fn fragment_after_user_entry_appends_when_open() {
    let mut chat = ChatState::default();
    chat.chat_messages.push(ChatMessage::new(false, "q".to_string()));
    chat.merge_answer("x".to_string(), false);
    assert_eq!(chat.chat_messages.len(), 1);
    assert_eq!(chat.chat_messages[0].message, "qx");
    assert!(!chat.chat_messages[0].is_response);
    assert!(chat.chat_messages[0].is_complete);
}

#[test]
fn new_chat_message_is_open() {
    let m = ChatMessage::new(true, "t".to_string());
    assert!(m.is_response);
    assert!(!m.is_complete);
    assert_eq!(m.message, "t");
}
