use crate::app_state::{field_cursor, field_text, NaskInputBoxState};
use vstd::prelude::*;

verus! {

/// The number of bytes that `text` takes in UTF-8.
pub open spec fn byte_len(text: Seq<char>) -> nat {
    vstd::utf8::encode_utf8(text).len()
}

/// The smaller of `a` and `b`.
pub open spec fn min_u16(a: u16, b: u16) -> u16 {
    if a <= b { a } else { b }
}

/// `a - b`, or zero where `b` is larger.
pub open spec fn sat_sub(a: u16, b: u16) -> u16 {
    if a >= b { (a - b) as u16 } else { 0 }
}

/// The horizontal scroll that keeps the cursor of a text of `len` columns
/// inside a window `w` columns wide, starting from `scroll`. An empty text or
/// window scrolls to the start. Otherwise the scroll is first capped so that
/// the window never runs past the end of the text, then moved just far
/// enough to bring the cursor back into view.
pub open spec fn clamped_scroll(scroll: u16, w: u16, len: u16, cursor: u16) -> u16 {
    if w == 0 || len == 0 {
        0
    } else {
        let max_scroll = sat_sub(len, w);
        let s = min_u16(scroll, max_scroll);
        if cursor < s {
            min_u16(cursor, max_scroll)
        } else if cursor > s + sat_sub(w, 1) {
            min_u16(sat_sub(cursor, sat_sub(w, 1)), max_scroll)
        } else {
            s
        }
    }
}

/// `clamped_scroll` for a field's state: widths are the field's text length
/// in bytes and its cursor, both cut to 16 bits.
pub open spec fn field_scroll(st: NaskInputBoxState) -> u16 {
    clamped_scroll(
        st.input_scroll,
        st.last_input_inner_width,
        (byte_len(field_text(st.input)) as usize) as u16,
        (field_cursor(st.input) as usize) as u16,
    )
}

/// Brings the field's scroll offset back in range after its text, cursor or
/// visible width changed.
pub fn clamp_input_scroll(state: &mut NaskInputBoxState)
    ensures
        final(state).input_scroll == field_scroll(*old(state)),
        final(state).input == old(state).input,
        final(state).focus == old(state).focus,
        final(state).mode == old(state).mode,
        final(state).last_input_inner_width == old(state).last_input_inner_width,
        final(state).cursor_pos == old(state).cursor_pos,
        final(state).last_cursor_pos == old(state).last_cursor_pos,
{
    let w = state.last_input_inner_width;
    let len = #[verifier::truncate] (state.input.value().len() as u16);
    if w == 0 || len == 0 {
        state.input_scroll = 0;
        return;
    }
    let cursor = #[verifier::truncate] (state.input.cursor() as u16);
    let max_scroll = len.saturating_sub(w);
    state.input_scroll = state.input_scroll.min(max_scroll);
    let min_visible = state.input_scroll;
    let max_visible = state.input_scroll + w.saturating_sub(1);
    if cursor < min_visible {
        state.input_scroll = cursor.min(max_scroll);
    } else if cursor > max_visible {
        state.input_scroll = cursor.saturating_sub(w.saturating_sub(1)).min(max_scroll);
    }
}

/// The byte range of a text of `len` bytes that a window `width` wide shows
/// from `scroll` on: it starts at `scroll`, or at the last byte if the text
/// is shorter, and ends a window later or at the text's end.
pub open spec fn window(len: usize, scroll: u16, width: usize) -> (usize, usize) {
    let last = if len >= 1 { (len - 1) as usize } else { 0usize };
    let start = if (scroll as usize) <= last { scroll as usize } else { last };
    let end = if start + width <= len { (start + width) as usize } else { len };
    (start, end)
}

pub fn visible_window(len: usize, scroll: u16, width: usize) -> (r: (usize, usize))
    ensures
        r == window(len, scroll, width),
        r.0 <= r.1 <= len,
{
    let start = (scroll as usize).min(len.saturating_sub(1));
    let end = start.saturating_add(width).min(len);
    (start, end)
}

} // verus!
