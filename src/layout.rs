use crate::app_state::{field_cursor, NaskInputBoxState};
use crate::input_box::{min_u16, sat_sub};
use vstd::prelude::*;

verus! {

/// A screen rectangle in cells.
#[derive(Debug, Clone, Copy, PartialEq, Eq, Structural)]
pub struct Rect {
    pub x: u16,
    pub y: u16,
    pub width: u16,
    pub height: u16,
}

/// `a + b`, or the largest `u16` where the sum does not fit.
pub open spec fn sat_add(a: u16, b: u16) -> u16 {
    if a + b <= u16::MAX { (a + b) as u16 } else { u16::MAX }
}

/// Height of the text field, borders included.
pub const INPUT_HEIGHT: u16 = 5;

/// Width of the centre column.
pub const CENTER_WIDTH: u16 = 70;

/// Blank rows below the banner art.
pub const GAP: u16 = 2;

/// Size and padding of the header box.
pub const META_INFO_WIDTH: u16 = 90;

pub const META_INFO_HEIGHT: u16 = 5;

pub const META_INFO_TOP_PAD: u16 = 0;

pub const META_INFO_RIGHT_PAD: u16 = 5;

/// Rows of the side panel.
pub const NVIM_BUFFERS_HEIGHT: u16 = 1;

/// The art shown above the text field.
pub const ASCII_ART_NASK_BANNER: &'static str = " _ __   __ _ ___| | __\n| '_ \\ / _` / __| |/ /\n| | | | (_| \\__ \\   <\n|_| |_|\\__,_|___/_|\\_\\\n";

/// The number of '\n' in `s`.
pub open spec fn newline_count(s: Seq<char>) -> nat
    decreases s.len(),
{
    if s.len() == 0 {
        0
    } else {
        newline_count(s.drop_last()) + if s.last() == '\n' { 1nat } else { 0nat }
    }
}

/// The number of lines of `s`: each '\n' ends one, and text after the last
/// '\n' makes one more.
pub open spec fn line_count(s: Seq<char>) -> nat {
    newline_count(s) + if s.len() > 0 && s.last() != '\n' { 1nat } else { 0nat }
}

proof fn lemma_newline_count_bound(s: Seq<char>)
    ensures
        newline_count(s) <= s.len(),
    decreases s.len(),
{
    if s.len() > 0 {
        lemma_newline_count_bound(s.drop_last());
    }
}

/// Counts the lines of `text`.
pub fn count_lines(text: &str) -> (n: usize)
    ensures
        n == line_count(text@),
{
    let len = text.unicode_len();
    let mut i: usize = 0;
    let mut n: usize = 0;
    while i < len
        invariant
            len == text@.len(),
            i <= len,
            n == newline_count(text@.subrange(0, i as int)),
            n <= i,
        decreases len - i,
    {
        assert(text@.subrange(0, i + 1).drop_last() =~= text@.subrange(0, i as int));
        if text.get_char(i) == '\n' {
            n = n + 1;
        }
        i = i + 1;
    }
    assert(text@.subrange(0, len as int) =~= text@);
    if len > 0 && text.get_char(len - 1) != '\n' {
        proof {
            lemma_newline_count_bound(text@.drop_last());
        }
        n = n + 1;
    }
    n
}

/// Rows taken by the banner: its lines and the gap below, at most the
/// largest row count.
pub open spec fn banner_rows() -> u16 {
    if line_count(ASCII_ART_NASK_BANNER@) + GAP <= u16::MAX {
        (line_count(ASCII_ART_NASK_BANNER@) + GAP) as u16
    } else {
        u16::MAX
    }
}

pub fn banner_height() -> (h: u16)
    ensures
        h == banner_rows(),
{
    let n = count_lines(ASCII_ART_NASK_BANNER);
    if n <= (u16::MAX - GAP) as usize {
        n as u16 + GAP
    } else {
        u16::MAX
    }
}

/// A box of at most `w` by `h` inside `area`: centred across, and with two
/// fifths of the spare rows above it. Positions stop at the screen's last
/// cell.
pub open spec fn center_rect(area: Rect, w: u16, h: u16) -> Rect {
    let w2 = min_u16(w, area.width);
    let h2 = min_u16(h, area.height);
    Rect {
        x: sat_add(area.x, ((area.width - w2) / 2) as u16),
        y: sat_add(area.y, ((area.height - h2) * 2 / 5) as u16),
        width: w2,
        height: h2,
    }
}

pub fn calculate_nask_center_rect(area: Rect, w: u16, h: u16) -> (r: Rect)
    ensures
        r == center_rect(area, w, h),
{
    let w = w.min(area.width);
    let h = h.min(area.height);
    let spare_rows = (area.height - h) as u32;
    Rect {
        x: area.x.saturating_add((area.width - w) / 2),
        y: area.y.saturating_add((spare_rows * 2 / 5) as u16),
        width: w,
        height: h,
    }
}

/// Height of the centre column: the banner and the text field.
pub fn center_height() -> (h: u16)
    ensures
        h == sat_add(banner_rows(), INPUT_HEIGHT),
{
    banner_height().saturating_add(INPUT_HEIGHT)
}

/// The header in the top right corner.
pub struct MetaInfo;

impl MetaInfo {
    pub fn area_rect(&self, area: Rect) -> (r: Rect)
        ensures
            r == (Rect {
                x: sat_add(area.x, sat_sub(sat_sub(area.width, META_INFO_WIDTH), META_INFO_RIGHT_PAD)),
                y: sat_add(area.y, META_INFO_TOP_PAD),
                width: min_u16(META_INFO_WIDTH, area.width),
                height: min_u16(META_INFO_HEIGHT, area.height),
            }),
    {
        Rect {
            x: area.x.saturating_add(
                area.width.saturating_sub(META_INFO_WIDTH).saturating_sub(META_INFO_RIGHT_PAD),
            ),
            y: area.y.saturating_add(META_INFO_TOP_PAD),
            width: META_INFO_WIDTH.min(area.width),
            height: META_INFO_HEIGHT.min(area.height),
        }
    }
}

/// The art above the text field.
pub struct Banner;

impl Banner {
    pub fn new() -> Self {
        Banner
    }

    pub fn area_rect(&self, area: Rect) -> (r: Rect)
        ensures
            r == (Rect { x: area.x, y: area.y, width: area.width, height: banner_rows() }),
    {
        Rect { x: area.x, y: area.y, width: area.width, height: banner_height() }
    }
}

/// The text field below the banner.
pub struct NaskInputBox {
    pub line_height: u16,
}

impl NaskInputBox {
    pub fn new(line_height: u16) -> (b: Self)
        ensures
            b.line_height == line_height,
    {
        Self { line_height }
    }

    pub fn area_rect(&self, area: Rect) -> (r: Rect)
        ensures
            r == (Rect {
                x: area.x,
                y: sat_add(area.y, banner_rows()),
                width: area.width,
                height: self.line_height,
            }),
    {
        Rect {
            x: area.x,
            y: area.y.saturating_add(banner_height()),
            width: area.width,
            height: self.line_height,
        }
    }

    /// Where the terminal cursor goes inside `inner`: on its first row, as
    /// far right as the field's cursor is past the scroll offset.
    pub fn cursor_pos(&self, inner: Rect, state: &NaskInputBoxState) -> (r: (u16, u16))
        ensures
            r == (
                sat_add(inner.x, sat_sub((field_cursor(state.input) as usize) as u16, state.input_scroll)),
                inner.y,
            ),
    {
        let cursor = #[verifier::truncate] (state.input.cursor() as u16);
        (inner.x.saturating_add(cursor.saturating_sub(state.input_scroll)), inner.y)
    }
}

/// The side panel along the bottom row.
pub struct NvimBuffers;

impl NvimBuffers {
    pub fn area_rect(&self, area: Rect) -> (r: Rect)
        ensures
            r == (Rect {
                x: area.x,
                y: sat_add(area.y, sat_sub(area.height, NVIM_BUFFERS_HEIGHT)),
                width: area.width,
                height: NVIM_BUFFERS_HEIGHT,
            }),
    {
        Rect {
            x: area.x,
            y: area.y.saturating_add(area.height.saturating_sub(NVIM_BUFFERS_HEIGHT)),
            width: area.width,
            height: NVIM_BUFFERS_HEIGHT,
        }
    }
}

} // verus!
