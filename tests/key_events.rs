use nask::app_state::{AppUIState, InputMode};
use nask::panel::{get_additional_contexts, CheckBoxEntry};
use nask::command::Command;
use nask::keys::{
    DedicatedEventProcessor, EventSignal, KeyCode, KeyOperationEvent, KeyPress,
};
use crossterm::event::{KeyCode as TermKeyCode, KeyEvent, KeyModifiers};
use tui_input::Input;

fn key(code: KeyCode, alt: bool) -> KeyPress {
    let term_code = match code {
        KeyCode::Char(c) => TermKeyCode::Char(c),
        KeyCode::Esc => TermKeyCode::Esc,
        KeyCode::Enter => TermKeyCode::Enter,
        KeyCode::Up => TermKeyCode::Up,
        KeyCode::Left => TermKeyCode::Left,
        KeyCode::Right => TermKeyCode::Right,
        KeyCode::Other => TermKeyCode::Home,
    };
    let mods = if alt { KeyModifiers::ALT } else { KeyModifiers::NONE };
    KeyPress { code, alt, raw: KeyEvent::new(term_code, mods) }
}

fn panel_with_first_selected(state: &mut AppUIState) {
    state.additional_context_state.entries = (0..3)
        .map(|i| CheckBoxEntry { checked: false, selected: i == 0, entry: format!("f{i}.rs") })
        .collect();
    state.additional_context_state.collapsed = false;
}

fn selected(state: &AppUIState) -> Vec<bool> {
    state.additional_context_state.entries.iter().map(|e| e.selected).collect()
}

#[test]
fn selection_wraps_around() {
    let p = DedicatedEventProcessor::new();
    let mut state = AppUIState::new();
    panel_with_first_selected(&mut state);
    let r = p.process_key_event(key(KeyCode::Left, true), &mut state);
    assert_eq!(r.operation, KeyOperationEvent::SelectLeftBuffer);
    assert_eq!(selected(&state), vec![false, false, true]);
    let r = p.process_key_event(key(KeyCode::Right, true), &mut state);
    assert_eq!(r.operation, KeyOperationEvent::SelectRightBuffer);
    assert_eq!(selected(&state), vec![true, false, false]);
    p.process_key_event(key(KeyCode::Right, true), &mut state);
    assert_eq!(selected(&state), vec![false, true, false]);
}

#[test]
fn folded_panel_keeps_selection() {
    let p = DedicatedEventProcessor::new();
    let mut state = AppUIState::new();
    panel_with_first_selected(&mut state);
    state.additional_context_state.collapsed = true;
    let r = p.process_key_event(key(KeyCode::Left, true), &mut state);
    assert_eq!(r.operation, KeyOperationEvent::Noop);
    assert_eq!(r.signal, EventSignal::Continue);
    assert_eq!(selected(&state), vec![true, false, false]);
}

#[test]
fn normal_mode_drops_plain_characters() {
    let p = DedicatedEventProcessor::new();
    let mut state = AppUIState::new();
    state.input_box_state.mode = InputMode::Normal;
    state.input_box_state.input = Input::new("abc".to_string());
    let r = p.process_key_event(key(KeyCode::Char('z'), false), &mut state);
    assert_eq!(r.operation, KeyOperationEvent::Noop);
    assert!(r.submitted.is_none());
    assert_eq!(state.input_box_state.input.value(), "abc");
}

#[test]
fn insert_mode_forwards_plain_characters() {
    let p = DedicatedEventProcessor::new();
    let mut state = AppUIState::new();
    let r = p.process_key_event(key(KeyCode::Char('z'), false), &mut state);
    assert_eq!(r.operation, KeyOperationEvent::ForwardToInput);
    assert_eq!(r.signal, EventSignal::Continue);
    assert!(r.submitted.is_none());
    assert_eq!(state.input_box_state.input.value(), "z");
}

#[test]
fn forwarded_key_reclamps_scroll() {
    let p = DedicatedEventProcessor::new();
    let mut state = AppUIState::new();
    state.input_box_state.input = Input::new("abcdefghi".to_string());
    state.input_box_state.last_input_inner_width = 4;
    state.input_box_state.input_scroll = 0;
    p.process_key_event(key(KeyCode::Char('j'), false), &mut state);
    assert_eq!(state.input_box_state.input.value(), "abcdefghij");
    assert_eq!(state.input_box_state.input_scroll, 6);
    p.process_key_event(key(KeyCode::Other, false), &mut state);
    assert_eq!(state.input_box_state.input.cursor(), 0);
    assert_eq!(state.input_box_state.input_scroll, 0);
}

#[test]
fn enter_submits_and_clears() {
    let p = DedicatedEventProcessor::new();
    let mut state = AppUIState::new();
    state.input_box_state.input = Input::new("hello".to_string());
    state.input_box_state.last_input_inner_width = 3;
    state.input_box_state.input_scroll = 2;
    let r = p.process_key_event(key(KeyCode::Enter, false), &mut state);
    assert_eq!(r.operation, KeyOperationEvent::InputSubmitted);
    assert_eq!(r.submitted, Some(Command::ChatMessage("hello".to_string())));
    assert_eq!(state.input_box_state.input.value(), "");
    assert_eq!(state.input_box_state.input_scroll, 0);
}

#[test]
fn mode_switches() {
    let p = DedicatedEventProcessor::new();
    let mut state = AppUIState::new();
    let r = p.process_key_event(key(KeyCode::Esc, false), &mut state);
    assert_eq!(r.operation, KeyOperationEvent::InputChangeToNormalMode);
    assert!(state.input_box_state.mode == InputMode::Normal);
    let r = p.process_key_event(key(KeyCode::Char('i'), false), &mut state);
    assert_eq!(r.operation, KeyOperationEvent::InputChangeToInsertMode);
    assert!(state.input_box_state.mode == InputMode::Insert);
}

#[test]
fn q_quits_in_normal_mode_only() {
    let p = DedicatedEventProcessor::new();
    let mut state = AppUIState::new();
    let r = p.process_key_event(key(KeyCode::Char('q'), false), &mut state);
    assert_eq!(r.signal, EventSignal::Continue);
    state.input_box_state.mode = InputMode::Normal;
    let r = p.process_key_event(key(KeyCode::Char('q'), false), &mut state);
    assert_eq!(r.operation, KeyOperationEvent::Quit);
    assert_eq!(r.signal, EventSignal::Quit);
}

#[test]
fn toggle_and_check() {
    let p = DedicatedEventProcessor::new();
    let mut state = AppUIState::new();
    get_additional_contexts(&mut state.additional_context_state);
    assert!(state.additional_context_state.collapsed);
    let r = p.process_key_event(key(KeyCode::Up, true), &mut state);
    assert_eq!(r.operation, KeyOperationEvent::Noop);
    p.process_key_event(key(KeyCode::Char('x'), true), &mut state);
    assert!(!state.additional_context_state.collapsed);
    let r = p.process_key_event(key(KeyCode::Up, true), &mut state);
    assert_eq!(r.operation, KeyOperationEvent::CheckSelectedBuffer);
    let checked: Vec<bool> = state.additional_context_state.entries.iter().map(|e| e.checked).collect();
    assert_eq!(checked, vec![false, true, true]);
}

#[test]
fn check_without_selection_changes_nothing() {
    let p = DedicatedEventProcessor::new();
    let mut state = AppUIState::new();
    state.additional_context_state.collapsed = false;
    state.additional_context_state.entries =
        vec![CheckBoxEntry { checked: false, selected: false, entry: "a".to_string() }];
    p.process_key_event(key(KeyCode::Up, true), &mut state);
    p.process_key_event(key(KeyCode::Left, true), &mut state);
    assert!(!state.additional_context_state.entries[0].checked);
    assert!(!state.additional_context_state.entries[0].selected);
}
