use crate::app_state::{field_cursor, field_text, AppUIState, InputMode};
use crate::panel::{
    checked_selected, is_first_selected, lemma_first_selected_is, moved_selection, selected_left,
    selected_right, CheckBoxEntry,
};
use crate::command::Command;
use crate::input_box::{byte_len, clamp_input_scroll, clamped_scroll};
use crossterm::event::{Event, KeyEvent};
use tui_input::backend::crossterm::EventHandler;
use tui_input::Input;
use vstd::prelude::*;

verus! {

/// What the interface loop does after a key: go on, or end.
#[derive(Debug, Clone, Copy, PartialEq, Eq, Structural)]
pub enum EventSignal {
    Continue,
    Quit,
}

/// The high-level operations that a key press can resolve to.
#[derive(Debug, Clone, Copy, PartialEq, Eq, Hash, Structural)]
pub enum KeyOperationEvent {
    ToggleBuffers,
    SelectRightBuffer,
    SelectLeftBuffer,
    CheckSelectedBuffer,
    InputSubmitted,
    InputChangeToInsertMode,
    InputChangeToNormalMode,
    Quit,
    ForwardToInput,
    Noop,
}

/// The keys that the interpreter tells apart; every other key is `Other`.
#[derive(Debug, Clone, Copy, PartialEq, Eq, Structural)]
pub enum KeyCode {
    Char(char),
    Esc,
    Enter,
    Up,
    Left,
    Right,
    Other,
}

/// `crossterm::event::KeyEvent`, a terminal key press, carried opaquely.
#[verifier::external_type_specification]
#[verifier::external_body]
pub struct ExKeyEvent(crossterm::event::KeyEvent);

/// A key press: the key and whether Alt was held, which the interpreter
/// reads, and the terminal's own record of it, which goes to the text field.
#[derive(Debug, Clone, Copy)]
pub struct KeyPress {
    pub code: KeyCode,
    pub alt: bool,
    pub raw: KeyEvent,
}

/// Relies on tui-input's `EventHandler::handle_event` for `Input`: the field
/// applies its own editing to the key press. Nothing is stated of what the
/// field becomes.
#[verifier::external_body]
fn edit_field(input: &mut Input, key: &KeyEvent) {
    input.handle_event(&Event::Key(*key));
}

/// The first rule that matches `key` in `mode`, falling back to forwarding
/// the key to the text field.
pub open spec fn classify(key: KeyPress, mode: InputMode) -> KeyOperationEvent {
    if key.code == KeyCode::Char('i') && mode == InputMode::Normal {
        KeyOperationEvent::InputChangeToInsertMode
    } else if key.code == KeyCode::Char('q') && mode == InputMode::Normal {
        KeyOperationEvent::Quit
    } else if key.code == KeyCode::Esc && mode == InputMode::Insert {
        KeyOperationEvent::InputChangeToNormalMode
    } else if key.code == KeyCode::Enter && mode == InputMode::Insert {
        KeyOperationEvent::InputSubmitted
    } else if key.code == KeyCode::Char('x') && key.alt {
        KeyOperationEvent::ToggleBuffers
    } else if key.code == KeyCode::Up && key.alt {
        KeyOperationEvent::CheckSelectedBuffer
    } else if key.code == KeyCode::Left && key.alt {
        KeyOperationEvent::SelectLeftBuffer
    } else if key.code == KeyCode::Right && key.alt {
        KeyOperationEvent::SelectRightBuffer
    } else {
        KeyOperationEvent::ForwardToInput
    }
}

/// A condition that an operation needs, else it is dropped.
#[derive(Debug, Clone, Copy, PartialEq, Eq, Structural)]
pub enum KeyGuard {
    /// The side panel is open.
    PanelExpanded,
    /// The text field is in insert mode.
    InsertMode,
}

/// The guard that stands on each operation: the panel moves need the panel
/// open, forwarding needs insert mode, the rest has none.
pub open spec fn standard_guard(ev: KeyOperationEvent) -> Option<KeyGuard> {
    match ev {
        KeyOperationEvent::SelectLeftBuffer => Some(KeyGuard::PanelExpanded),
        KeyOperationEvent::SelectRightBuffer => Some(KeyGuard::PanelExpanded),
        KeyOperationEvent::CheckSelectedBuffer => Some(KeyGuard::PanelExpanded),
        KeyOperationEvent::ForwardToInput => Some(KeyGuard::InsertMode),
        _ => None,
    }
}

/// Whether `guard` holds with the panel `collapsed` and the field in `mode`.
pub open spec fn guard_holds(guard: KeyGuard, collapsed: bool, mode: InputMode) -> bool {
    match guard {
        KeyGuard::PanelExpanded => !collapsed,
        KeyGuard::InsertMode => mode == InputMode::Insert,
    }
}

/// The first guard that `entries` lists for `ev`.
pub open spec fn lookup_guard(entries: Seq<(KeyOperationEvent, KeyGuard)>, ev: KeyOperationEvent) -> Option<KeyGuard>
    decreases entries.len(),
{
    if entries.len() == 0 {
        None
    } else if entries[0].0 == ev {
        Some(entries[0].1)
    } else {
        lookup_guard(entries.drop_first(), ev)
    }
}

/// The table of guards, by operation.
pub struct GuardMap {
    entries: Vec<(KeyOperationEvent, KeyGuard)>,
}

impl GuardMap {
    /// The guard that the table holds for `ev`.
    pub closed spec fn guard_of(&self, ev: KeyOperationEvent) -> Option<KeyGuard> {
        lookup_guard(self.entries@, ev)
    }

    pub fn get(&self, ev: KeyOperationEvent) -> (r: Option<KeyGuard>)
        ensures
            r == self.guard_of(ev),
    {
        let n = self.entries.len();
        let mut i: usize = 0;
        assert(self.entries@.subrange(0, n as int) =~= self.entries@);
        while i < n
            invariant
                n == self.entries@.len(),
                i <= n,
                lookup_guard(self.entries@, ev) == lookup_guard(self.entries@.subrange(i as int, n as int), ev),
            decreases n - i,
        {
            let ghost rest = self.entries@.subrange(i as int, n as int);
            assert(rest.drop_first() =~= self.entries@.subrange(i + 1, n as int));
            if self.entries[i].0 == ev {
                return Some(self.entries[i].1);
            }
            i = i + 1;
        }
        None
    }
}

/// `ev` let through by `guard`, or `Noop` where the guard fails with the
/// panel `collapsed` and the field in `mode`. No guard lets everything pass.
pub open spec fn vetted(ev: KeyOperationEvent, guard: Option<KeyGuard>, collapsed: bool, mode: InputMode) -> KeyOperationEvent {
    match guard {
        Some(g) => if guard_holds(g, collapsed, mode) { ev } else { KeyOperationEvent::Noop },
        None => ev,
    }
}

/// The operation that `key` resolves to with the panel `collapsed` and the
/// field in `mode`: the classified operation, or `Noop` where its standard
/// guard fails.
pub open spec fn resolve(key: KeyPress, collapsed: bool, mode: InputMode) -> KeyOperationEvent {
    vetted(classify(key, mode), standard_guard(classify(key, mode)), collapsed, mode)
}

fn classify_key(key: KeyPress, mode: InputMode) -> (r: KeyOperationEvent)
    ensures
        r == classify(key, mode),
{
    match (key.code, mode) {
        (KeyCode::Char('i'), InputMode::Normal) => KeyOperationEvent::InputChangeToInsertMode,
        (KeyCode::Char('q'), InputMode::Normal) => KeyOperationEvent::Quit,
        (KeyCode::Esc, InputMode::Insert) => KeyOperationEvent::InputChangeToNormalMode,
        (KeyCode::Enter, InputMode::Insert) => KeyOperationEvent::InputSubmitted,
        (KeyCode::Char('x'), _) if key.alt => KeyOperationEvent::ToggleBuffers,
        (KeyCode::Up, _) if key.alt => KeyOperationEvent::CheckSelectedBuffer,
        (KeyCode::Left, _) if key.alt => KeyOperationEvent::SelectLeftBuffer,
        (KeyCode::Right, _) if key.alt => KeyOperationEvent::SelectRightBuffer,
        _ => KeyOperationEvent::ForwardToInput,
    }
}

fn guard_passes(guard: KeyGuard, state: &AppUIState) -> (r: bool)
    ensures
        r == guard_holds(guard, state.additional_context_state.collapsed, state.input_box_state.mode),
{
    match guard {
        KeyGuard::PanelExpanded => !state.additional_context_state.collapsed,
        KeyGuard::InsertMode => state.input_box_state.mode == InputMode::Insert,
    }
}

/// Classifies `key` against the state, then lets the guard that `guard_map`
/// holds for the result veto it.
pub fn get_key_operation_event(key: KeyPress, app_state: &AppUIState, guard_map: &GuardMap) -> (r: KeyOperationEvent)
    ensures
        r == vetted(
            classify(key, app_state.input_box_state.mode),
            guard_map.guard_of(classify(key, app_state.input_box_state.mode)),
            app_state.additional_context_state.collapsed,
            app_state.input_box_state.mode,
        ),
{
    let ev = classify_key(key, app_state.input_box_state.mode);
    match guard_map.get(ev) {
        None => ev,
        Some(guard) => if guard_passes(guard, app_state) { ev } else { KeyOperationEvent::Noop },
    }
}

/// The state after operation `op` was carried out on `pre`: the panel, the
/// mode and the field change as `op` says, and nothing else does. A key
/// forwarded to the field is edited by the field itself, which is not stated
/// here; the scroll is then clamped to the edited text.
pub open spec fn operation_applied(pre: AppUIState, post: AppUIState, op: KeyOperationEvent) -> bool {
    let pre_in = pre.input_box_state;
    let post_in = post.input_box_state;
    &&& post.meta_info_state == pre.meta_info_state
    &&& post.chat_state == pre.chat_state
    &&& post.additional_context_state.collapsed == if op == KeyOperationEvent::ToggleBuffers {
        !pre.additional_context_state.collapsed
    } else {
        pre.additional_context_state.collapsed
    }
    &&& post.additional_context_state.entries@ == match op {
        KeyOperationEvent::CheckSelectedBuffer => checked_selected(pre.additional_context_state.entries@),
        KeyOperationEvent::SelectLeftBuffer => selected_left(pre.additional_context_state.entries@),
        KeyOperationEvent::SelectRightBuffer => selected_right(pre.additional_context_state.entries@),
        _ => pre.additional_context_state.entries@,
    }
    &&& post_in.mode == match op {
        KeyOperationEvent::InputChangeToInsertMode => InputMode::Insert,
        KeyOperationEvent::InputChangeToNormalMode => InputMode::Normal,
        _ => pre_in.mode,
    }
    &&& if op == KeyOperationEvent::InputSubmitted {
        &&& field_text(post_in.input) == Seq::<char>::empty()
        &&& field_cursor(post_in.input) == 0
        &&& post_in.input_scroll == 0
    } else if op == KeyOperationEvent::ForwardToInput {
        post_in.input_scroll == clamped_scroll(
            pre_in.input_scroll,
            pre_in.last_input_inner_width,
            (byte_len(field_text(post_in.input)) as usize) as u16,
            (field_cursor(post_in.input) as usize) as u16,
        )
    } else {
        &&& post_in.input == pre_in.input
        &&& post_in.input_scroll == pre_in.input_scroll
    }
    &&& post_in.focus == pre_in.focus
    &&& post_in.last_input_inner_width == pre_in.last_input_inner_width
    &&& post_in.cursor_pos == pre_in.cursor_pos
    &&& post_in.last_cursor_pos == pre_in.last_cursor_pos
}

/// What a key press left for the caller to do.
pub struct KeyOutcome {
    /// The operation the key resolved to.
    pub operation: KeyOperationEvent,
    /// Whether the interface goes on.
    pub signal: EventSignal,
    /// The command to hand to the background loop, on a submission.
    pub submitted: Option<Command>,
}

/// The key interpreter, with its table of guards.
pub struct DedicatedEventProcessor {
    guard_map: GuardMap,
}

impl DedicatedEventProcessor {
    /// The table holds the standard guard of every operation.
    pub closed spec fn wf(&self) -> bool {
        forall|ev: KeyOperationEvent| #[trigger] self.guard_map.guard_of(ev) == standard_guard(ev)
    }

    /// The guard table: the panel moves need the panel open, forwarding a key
    /// to the field needs insert mode.
    pub fn get_key_operation_guard_map() -> (m: GuardMap)
        ensures
            forall|ev: KeyOperationEvent| #[trigger] m.guard_of(ev) == standard_guard(ev),
    {
        let mut entries: Vec<(KeyOperationEvent, KeyGuard)> = Vec::new();
        entries.push((KeyOperationEvent::SelectLeftBuffer, KeyGuard::PanelExpanded));
        entries.push((KeyOperationEvent::SelectRightBuffer, KeyGuard::PanelExpanded));
        entries.push((KeyOperationEvent::CheckSelectedBuffer, KeyGuard::PanelExpanded));
        entries.push((KeyOperationEvent::ForwardToInput, KeyGuard::InsertMode));
        let m = GuardMap { entries };
        assert forall|ev: KeyOperationEvent| m.guard_of(ev) == standard_guard(ev) by {
            reveal_with_fuel(lookup_guard, 5);
            let e = m.entries@;
            assert(e.drop_first().drop_first().drop_first().drop_first().len() == 0);
        }
        m
    }

    pub fn new() -> (p: Self)
        ensures
            p.wf(),
    {
        Self { guard_map: Self::get_key_operation_guard_map() }
    }

    /// Resolves `key` against the state and carries the operation out. A
    /// submission hands back the field's text as a command, for the caller
    /// to queue.
    pub fn process_key_event(&self, key: KeyPress, state: &mut AppUIState) -> (r: KeyOutcome)
        requires
            self.wf(),
        ensures
            r.operation == resolve(
                key,
                old(state).additional_context_state.collapsed,
                old(state).input_box_state.mode,
            ),
            r.signal == if r.operation == KeyOperationEvent::Quit {
                EventSignal::Quit
            } else {
                EventSignal::Continue
            },
            r.operation == KeyOperationEvent::InputSubmitted ==> (r.submitted matches Some(
                Command::ChatMessage(t),
            ) && t@ == field_text(old(state).input_box_state.input)),
            r.operation != KeyOperationEvent::InputSubmitted ==> r.submitted is None,
            operation_applied(*old(state), *final(state), r.operation),
    {
        let op = get_key_operation_event(key, state, &self.guard_map);
        let mut submitted: Option<Command> = None;
        let mut signal = EventSignal::Continue;
        match op {
            KeyOperationEvent::ToggleBuffers => {
                state.additional_context_state.toggle_collapsed();
            },
            KeyOperationEvent::CheckSelectedBuffer => {
                state.additional_context_state.check_selected();
            },
            KeyOperationEvent::SelectLeftBuffer => {
                state.additional_context_state.select_left();
            },
            KeyOperationEvent::SelectRightBuffer => {
                state.additional_context_state.select_right();
            },
            KeyOperationEvent::InputChangeToInsertMode => {
                state.input_box_state.mode = InputMode::Insert;
            },
            KeyOperationEvent::InputChangeToNormalMode => {
                state.input_box_state.mode = InputMode::Normal;
            },
            KeyOperationEvent::Quit => {
                signal = EventSignal::Quit;
            },
            KeyOperationEvent::InputSubmitted => {
                submitted = Some(state.input_box_state.take_submission());
            },
            KeyOperationEvent::ForwardToInput => {
                edit_field(&mut state.input_box_state.input, &key.raw);
                clamp_input_scroll(&mut state.input_box_state);
            },
            KeyOperationEvent::Noop => {},
        }
        KeyOutcome { operation: op, signal, submitted }
    }
}

/// The selection wraps around: moving left from the first entry selects the
/// last, and moving right from the last entry selects the first; the entry
/// left behind is no longer selected.
pub proof fn lemma_selection_wraps(s: Seq<CheckBoxEntry>)
    requires
        s.len() > 1,
    ensures
        is_first_selected(s, 0) ==> {
            &&& selected_left(s) == moved_selection(s, 0, s.len() - 1)
            &&& selected_left(s)[s.len() - 1].selected
            &&& !selected_left(s)[0].selected
        },
        is_first_selected(s, s.len() - 1) ==> {
            &&& selected_right(s) == moved_selection(s, s.len() - 1, 0)
            &&& selected_right(s)[0].selected
            &&& !selected_right(s)[s.len() - 1].selected
        },
{
    if is_first_selected(s, 0) {
        lemma_first_selected_is(s, 0);
    }
    if is_first_selected(s, s.len() - 1) {
        lemma_first_selected_is(s, s.len() - 1);
    }
}

/// While the panel is folded, the keys that move or check its selection do
/// nothing to its entries.
pub proof fn lemma_folded_panel_keeps_selection(key: KeyPress, pre: AppUIState, post: AppUIState)
    requires
        pre.additional_context_state.collapsed,
        classify(key, pre.input_box_state.mode) == KeyOperationEvent::SelectLeftBuffer
            || classify(key, pre.input_box_state.mode) == KeyOperationEvent::SelectRightBuffer
            || classify(key, pre.input_box_state.mode) == KeyOperationEvent::CheckSelectedBuffer,
        operation_applied(
            pre,
            post,
            resolve(key, pre.additional_context_state.collapsed, pre.input_box_state.mode),
        ),
    ensures
        resolve(key, pre.additional_context_state.collapsed, pre.input_box_state.mode)
            == KeyOperationEvent::Noop,
        post.additional_context_state.entries@ == pre.additional_context_state.entries@,
{
}

/// In normal mode a plain character key that no rule names is classified as
/// a key for the text field, and the guard drops it: the field is left as
/// it was.
pub proof fn lemma_normal_mode_ignores_text(c: char, raw: KeyEvent, pre: AppUIState, post: AppUIState)
    requires
        c != 'i',
        c != 'q',
        pre.input_box_state.mode == InputMode::Normal,
        operation_applied(
            pre,
            post,
            resolve(
                KeyPress { code: KeyCode::Char(c), alt: false, raw },
                pre.additional_context_state.collapsed,
                pre.input_box_state.mode,
            ),
        ),
    ensures
        classify(KeyPress { code: KeyCode::Char(c), alt: false, raw }, InputMode::Normal)
            == KeyOperationEvent::ForwardToInput,
        resolve(KeyPress { code: KeyCode::Char(c), alt: false, raw }, pre.additional_context_state.collapsed, InputMode::Normal)
            == KeyOperationEvent::Noop,
        post.input_box_state.input == pre.input_box_state.input,
{
}

/// Enter in insert mode is a submission: the field ends up empty. (The
/// interpreter hands back the field's former text as the one command.)
pub proof fn lemma_enter_submits(key: KeyPress, pre: AppUIState, post: AppUIState)
    requires
        key.code == KeyCode::Enter,
        pre.input_box_state.mode == InputMode::Insert,
        operation_applied(
            pre,
            post,
            resolve(key, pre.additional_context_state.collapsed, pre.input_box_state.mode),
        ),
    ensures
        resolve(key, pre.additional_context_state.collapsed, pre.input_box_state.mode)
            == KeyOperationEvent::InputSubmitted,
        field_text(post.input_box_state.input) == Seq::<char>::empty(),
{
}

} // verus!
