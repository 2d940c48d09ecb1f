use nask::app_state::{get_meta_info, MetaInfoState, NaskInputBoxState};
use nask::input_box::{clamp_input_scroll, visible_window};
use nask::layout::{
    banner_height, calculate_nask_center_rect, center_height, count_lines, Banner, MetaInfo,
    NaskInputBox, NvimBuffers, Rect,
};
use tui_input::Input;

fn rect(x: u16, y: u16, width: u16, height: u16) -> Rect {
    Rect { x, y, width, height }
}

#[test]
fn center_rect_is_centred() {
    assert_eq!(calculate_nask_center_rect(rect(0, 0, 100, 50), 70, 11), rect(15, 15, 70, 11));
    assert_eq!(calculate_nask_center_rect(rect(2, 3, 60, 8), 70, 11), rect(2, 3, 60, 8));
}

#[test]
fn lines_are_counted_like_str_lines() {
    for s in ["", "a", "a\n", "a\nb", "a\n\nb\n", "\n"] {
        assert_eq!(count_lines(s), s.lines().count());
    }
}

#[test]
fn banner_height_is_art_plus_gap() {
    assert_eq!(banner_height(), 6);
    assert_eq!(center_height(), 11);
    assert_eq!(Banner::new().area_rect(rect(1, 2, 30, 40)), rect(1, 2, 30, 6));
}

#[test]
fn side_rects() {
    assert_eq!(MetaInfo.area_rect(rect(0, 0, 200, 40)), rect(105, 0, 90, 5));
    assert_eq!(MetaInfo.area_rect(rect(0, 0, 50, 3)), rect(0, 0, 50, 3));
    assert_eq!(NvimBuffers.area_rect(rect(0, 0, 80, 24)), rect(0, 23, 80, 1));
    assert_eq!(NaskInputBox::new(5).area_rect(rect(4, 10, 70, 11)), rect(4, 16, 70, 5));
}

#[test]
fn scroll_follows_cursor() {
    let mut st = NaskInputBoxState::default();
    st.input = Input::new("abcdefghij".to_string());
    st.last_input_inner_width = 4;
    clamp_input_scroll(&mut st);
    assert_eq!(st.input_scroll, 6);
    st.input = Input::new("abcdefghij".to_string()).with_cursor(1);
    clamp_input_scroll(&mut st);
    assert_eq!(st.input_scroll, 1);
    st.last_input_inner_width = 0;
    clamp_input_scroll(&mut st);
    assert_eq!(st.input_scroll, 0);
}

#[test]
fn cursor_sits_past_scroll() {
    let mut st = NaskInputBoxState::default();
    st.input = Input::new("abcdef".to_string());
    st.input_scroll = 2;
    assert_eq!(NaskInputBox::new(5).cursor_pos(rect(10, 3, 20, 1), &st), (14, 3));
}

#[test]
fn meta_info_names_backend() {
    let mut m = MetaInfoState::default();
    get_meta_info(&mut m);
    assert_eq!(m.model_name, "qwen2.5-coder:7b");
    assert_eq!(m.endpoint, "ollama://localhost:11434");
}

#[test]
fn visible_window_stays_inside_text() {
    assert_eq!(visible_window(10, 3, 4), (3, 7));
    assert_eq!(visible_window(10, 8, 4), (8, 10));
    assert_eq!(visible_window(10, 40, 4), (9, 10));
    assert_eq!(visible_window(0, 5, 4), (0, 0));
    assert_eq!(visible_window(5, 0, usize::MAX), (0, 5));
}

#[test]
fn cursor_visibility_reports_changes_once() {
    let mut st = NaskInputBoxState::default();
    assert_eq!(st.cursor_visibility_change(), None);
    st.cursor_pos = Some((3, 4));
    assert_eq!(st.cursor_visibility_change(), Some(true));
    assert_eq!(st.cursor_visibility_change(), None);
    st.cursor_pos = Some((5, 4));
    assert_eq!(st.cursor_visibility_change(), Some(true));
    st.cursor_pos = None;
    assert_eq!(st.cursor_visibility_change(), Some(false));
    assert_eq!(st.last_cursor_pos, None);
}
