use crate::command::Command;
use crate::chat::{merge_fragment, stamps_kept, ChatState, EntryView};
use crate::panel::AdditionalContextState;
use crate::ui_event::UiEvent;
use tui_input::Input;
use vstd::prelude::*;

verus! {

/// `tui_input::Input`, the editable text field; seen through the names below.
#[verifier::external_type_specification]
#[verifier::external_body]
pub struct ExInput(tui_input::Input);

/// The characters that a text field holds, in order.
pub uninterp spec fn field_text(i: tui_input::Input) -> Seq<char>;

/// The number of characters before a text field's cursor.
pub uninterp spec fn field_cursor(i: tui_input::Input) -> nat;

/// Relies on `Input::value`: the text the field holds.
pub assume_specification<'a>[ tui_input::Input::value ](i: &'a tui_input::Input) -> (r: &'a str)
    ensures
        r@ == field_text(*i),
;

/// Relies on `Input::cursor`: the cursor position, in characters.
pub assume_specification[ tui_input::Input::cursor ](i: &tui_input::Input) -> (r: usize)
    ensures
        r as nat == field_cursor(*i),
;

/// Relies on `Input::reset`: the text is emptied and the cursor goes home.
pub assume_specification[ tui_input::Input::reset ](i: &mut tui_input::Input)
    ensures
        field_text(*final(i)) == Seq::<char>::empty(),
        field_cursor(*final(i)) == 0,
;

/// Relies on the derived `Default` of `Input`: an empty field, cursor home.
pub assume_specification[ <tui_input::Input as Default>::default ]() -> (r: tui_input::Input)
    ensures
        field_text(r) == Seq::<char>::empty(),
        field_cursor(r) == 0,
;

/// Which widget takes the keys.
#[derive(Debug, Clone, Copy, PartialEq, Eq, Structural)]
pub enum Focus {
    Input,
}

/// Whether keys drive the interface (`Normal`) or edit the text field
/// (`Insert`).
#[derive(Debug, Clone, Copy, PartialEq, Eq, Structural)]
pub enum InputMode {
    Normal,
    Insert,
}

/// The text field and what the renderer remembers of it.
pub struct NaskInputBoxState {
    pub input: Input,
    pub focus: Focus,
    pub mode: InputMode,
    pub input_scroll: u16,
    pub last_input_inner_width: u16,
    pub cursor_pos: Option<(u16, u16)>,
    pub last_cursor_pos: Option<(u16, u16)>,
}

/// What the header shows about the answering backend.
pub struct MetaInfoState {
    pub model_name: String,
    pub endpoint: String,
}

impl Default for NaskInputBoxState {
    fn default() -> (s: Self)
        ensures
            field_text(s.input) == Seq::<char>::empty(),
            field_cursor(s.input) == 0,
            s.focus == Focus::Input,
            s.mode == InputMode::Insert,
            s.input_scroll == 0,
            s.last_input_inner_width == 0,
            s.cursor_pos is None,
            s.last_cursor_pos is None,
    {
        Self {
            input: Input::default(),
            focus: Focus::Input,
            mode: InputMode::Insert,
            input_scroll: 0,
            last_input_inner_width: 0,
            cursor_pos: None,
            last_cursor_pos: None,
        }
    }
}

impl Default for MetaInfoState {
    fn default() -> (s: Self)
        ensures
            s.model_name@ == Seq::<char>::empty(),
            s.endpoint@ == Seq::<char>::empty(),
    {
        Self { model_name: String::new(), endpoint: String::new() }
    }
}

/// Everything the interface thread shows and edits.
pub struct AppUIState {
    pub input_box_state: NaskInputBoxState,
    pub meta_info_state: MetaInfoState,
    pub additional_context_state: AdditionalContextState,
    pub chat_state: ChatState,
}

impl AppUIState {
    /// The state at start-up: an empty field in insert mode, an empty folded
    /// panel, an empty transcript.
    pub fn new() -> (s: Self)
        ensures
            field_text(s.input_box_state.input) == Seq::<char>::empty(),
            field_cursor(s.input_box_state.input) == 0,
            s.input_box_state.focus == Focus::Input,
            s.input_box_state.mode == InputMode::Insert,
            s.input_box_state.input_scroll == 0,
            s.input_box_state.last_input_inner_width == 0,
            s.input_box_state.cursor_pos is None,
            s.input_box_state.last_cursor_pos is None,
            s.meta_info_state.model_name@ == Seq::<char>::empty(),
            s.meta_info_state.endpoint@ == Seq::<char>::empty(),
            s.additional_context_state.entries@.len() == 0,
            s.additional_context_state.collapsed,
            s.chat_state@ == Seq::<EntryView>::empty(),
    {
        Self {
            input_box_state: NaskInputBoxState::default(),
            meta_info_state: MetaInfoState::default(),
            additional_context_state: AdditionalContextState::default(),
            chat_state: ChatState::default(),
        }
    }

    /// Takes in one event from the background loop.
    pub fn apply_ui_event(&mut self, ev: UiEvent)
        ensures
            match ev {
                UiEvent::ChatAnswer { text, more_follows } => final(self).chat_state@
                    == merge_fragment(old(self).chat_state@, text@, more_follows),
            },
            stamps_kept(old(self).chat_state.chat_messages@, final(self).chat_state.chat_messages@),
            final(self).input_box_state == old(self).input_box_state,
            final(self).meta_info_state == old(self).meta_info_state,
            final(self).additional_context_state == old(self).additional_context_state,
    {
        match ev {
            UiEvent::ChatAnswer { text, more_follows } => {
                self.chat_state.merge_answer(text, more_follows);
            },
        }
    }
}

impl NaskInputBoxState {
    /// Takes the field's text as a chat command and leaves the field empty,
    /// scrolled to the start.
    pub fn take_submission(&mut self) -> (cmd: Command)
        ensures
            cmd matches Command::ChatMessage(t) && t@ == field_text(old(self).input),
            field_text(final(self).input) == Seq::<char>::empty(),
            field_cursor(final(self).input) == 0,
            final(self).input_scroll == 0,
            final(self).focus == old(self).focus,
            final(self).mode == old(self).mode,
            final(self).last_input_inner_width == old(self).last_input_inner_width,
            final(self).cursor_pos == old(self).cursor_pos,
            final(self).last_cursor_pos == old(self).last_cursor_pos,
    {
        let text = self.input.value().to_owned();
        self.input.reset();
        crate::input_box::clamp_input_scroll(self);
        Command::ChatMessage(text)
    }

    /// Records the cursor position that was last shown. Returns whether the
    /// terminal cursor must now be shown (`Some(true)`) or hidden
    /// (`Some(false)`), or `None` when nothing changed.
    pub fn cursor_visibility_change(&mut self) -> (r: Option<bool>)
        ensures
            old(self).cursor_pos != old(self).last_cursor_pos ==> r == Some(old(self).cursor_pos is Some),
            old(self).cursor_pos == old(self).last_cursor_pos ==> r is None,
            final(self).last_cursor_pos == old(self).cursor_pos,
            final(self).cursor_pos == old(self).cursor_pos,
            final(self).input == old(self).input,
            final(self).focus == old(self).focus,
            final(self).mode == old(self).mode,
            final(self).input_scroll == old(self).input_scroll,
            final(self).last_input_inner_width == old(self).last_input_inner_width,
    {
        let changed = match (self.cursor_pos, self.last_cursor_pos) {
            (Some(a), Some(b)) => a.0 != b.0 || a.1 != b.1,
            (None, None) => false,
            _ => true,
        };
        if changed {
            self.last_cursor_pos = self.cursor_pos;
            Some(self.cursor_pos.is_some())
        } else {
            None
        }
    }
}

/// Fills in the backend that the header names.
pub fn get_meta_info(meta_info_state: &mut MetaInfoState)
    ensures
        final(meta_info_state).model_name@ == "qwen2.5-coder:7b"@,
        final(meta_info_state).endpoint@ == "ollama://localhost:11434"@,
{
    meta_info_state.model_name = "qwen2.5-coder:7b".to_owned();
    meta_info_state.endpoint = "ollama://localhost:11434".to_owned();
}


} // verus!
