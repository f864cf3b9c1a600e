//! Trusted boundary around `tui_textarea::TextArea`, the external text
//! buffer capability: raw editing primitives, cursor motion and styling are
//! provided by that crate and are not reimplemented here. Each wrapper's
//! contract states, over the three uninterpreted names below, exactly what
//! the crate's source shows for the call it makes.

use vstd::prelude::*;
use crate::composer::Rect;
use crate::composer::rect_within;
use crate::key::Key;
use crate::key::KeyEvent;
use crate::render::buf_area;
use crate::render::buf_cells;
use crate::render::preserved_outside;
use crate::text::cleared;
use crate::text::insert_char_at;
use crate::text::lines_ok;
use crate::text::split_lines;
use crate::text::split_row_at;
use tui_textarea::TextArea;
use tui_textarea::Key as K;

verus! {

/// The external text buffer, held opaquely: Verus sees nothing inside; the
/// uninterpreted names below and the wrappers' contracts are all it knows.
#[verifier::external_body]
pub struct TextBuf {
    inner: TextArea<'static>,
}

/// The buffer content: the sequence of lines the textarea holds.
pub uninterp spec fn ta_lines(ta: TextBuf) -> Seq<Seq<char>>;

/// The cursor position as character-wise (row, column).
pub uninterp spec fn ta_cursor(ta: TextBuf) -> (nat, nat);

/// The anchor of the ongoing text selection, if one is ongoing.
pub uninterp spec fn ta_selection(ta: TextBuf) -> Option<(nat, nat)>;

/// The textarea's own representation invariant, as its source maintains it:
/// at least one line, no line contains a newline, and the cursor lies on a
/// line, at or before its end.
pub open spec fn ta_wf(ta: TextBuf) -> bool {
    &&& lines_ok(ta_lines(ta))
    &&& ta_cursor(ta).0 < ta_lines(ta).len()
    &&& ta_cursor(ta).1 <= ta_lines(ta)[ta_cursor(ta).0 as int].len()
}

/// Content small enough for select-all to reach its end: the row and column
/// jump that select-all performs saturates at u16::MAX.
pub open spec fn ta_small(ls: Seq<Seq<char>>) -> bool {
    ls.len() <= 0x10000 && ls.last().len() <= 0xffff
}

/// The cursor position at the very end of the content.
pub open spec fn end_cursor(ls: Seq<Seq<char>>) -> (nat, nat) {
    (((ls.len() - 1) as nat), ls.last().len())
}

/// Relies on `TextArea::default`: a fresh textarea holds one empty line,
/// with the cursor at the origin and no ongoing selection.
#[verifier::external_body]
pub(crate) fn ta_new() -> (ta: TextBuf)
    ensures
        ta_lines(ta) == cleared(),
        ta_cursor(ta) == (0nat, 0nat),
        ta_selection(ta) is None,
{
    TextBuf { inner: TextArea::default() }
}

/// Relies on `TextArea::set_placeholder_text`: it only replaces the
/// placeholder string shown while the buffer is empty.
#[verifier::external_body]
pub(crate) fn ta_set_placeholder(ta: &mut TextBuf, text: &str)
    ensures
        ta_lines(*final(ta)) == ta_lines(*old(ta)),
        ta_cursor(*final(ta)) == ta_cursor(*old(ta)),
        ta_selection(*final(ta)) == ta_selection(*old(ta)),
{
    ta.inner.set_placeholder_text(text);
}

/// Relies on `TextArea::set_cursor_line_style`: it only replaces the style
/// applied to the cursor's line when rendering.
#[verifier::external_body]
pub(crate) fn ta_clear_cursor_line_style(ta: &mut TextBuf)
    ensures
        ta_lines(*final(ta)) == ta_lines(*old(ta)),
        ta_cursor(*final(ta)) == ta_cursor(*old(ta)),
        ta_selection(*final(ta)) == ta_selection(*old(ta)),
{
    ta.inner.set_cursor_line_style(ratatui::style::Style::default());
}

/// Relies on `TextArea::set_block`: it only replaces the border block drawn
/// around the textarea when rendering. This is the focused border: a plain
/// rounded border with the keystroke hint line bottom right.
#[verifier::external_body]
pub(crate) fn ta_border_focused(ta: &mut TextBuf)
    ensures
        ta_lines(*final(ta)) == ta_lines(*old(ta)),
        ta_cursor(*final(ta)) == ta_cursor(*old(ta)),
        ta_selection(*final(ta)) == ta_selection(*old(ta)),
{
    let hint = "Enter to send | Esc Esc to clear | Ctrl+D to quit | Ctrl+J for newline";
    let title = ratatui::text::Line::from(hint).alignment(ratatui::layout::Alignment::Right);
    ta.inner.set_block(ratatui::widgets::Block::default().title_bottom(title).borders(
        ratatui::widgets::Borders::ALL,
    ).border_type(ratatui::widgets::BorderType::Rounded));
}

/// Relies on `TextArea::set_block`: it only replaces the border block drawn
/// around the textarea when rendering. This is the unfocused border: a
/// dimmed rounded border with no hint.
#[verifier::external_body]
pub(crate) fn ta_border_unfocused(ta: &mut TextBuf)
    ensures
        ta_lines(*final(ta)) == ta_lines(*old(ta)),
        ta_cursor(*final(ta)) == ta_cursor(*old(ta)),
        ta_selection(*final(ta)) == ta_selection(*old(ta)),
{
    let style = ratatui::style::Stylize::dim(ratatui::style::Style::default());
    ta.inner.set_block(ratatui::widgets::Block::default().borders(
        ratatui::widgets::Borders::ALL,
    ).border_type(ratatui::widgets::BorderType::Rounded).border_style(style));
}

/// Relies on `TextArea::input` with the default key mappings. Its source
/// shows: Escape and unknown keys match no mapping and change nothing;
/// plain movement keys only move the cursor or the selection; a plain
/// character is inserted at the cursor, which advances one column; Enter
/// (any modifiers) and a plain '\n' or '\r' character split the cursor's
/// line at the cursor; and the textarea's own invariant is kept throughout.
#[verifier::external_body]
pub(crate) fn ta_input(ta: &mut TextBuf, k: KeyEvent)
    ensures
        ta_wf(*old(ta)) ==> ta_wf(*final(ta)),
        (k.key is Esc || k.key is Null) ==> (ta_lines(*final(ta)) == ta_lines(*old(ta))
            && ta_cursor(*final(ta)) == ta_cursor(*old(ta)) && ta_selection(*final(ta))
            == ta_selection(*old(ta))),
        (k.key is Up || k.key is Down || k.key is Left || k.key is Right || k.key is Home
            || k.key is End) ==> ta_lines(*final(ta)) == ta_lines(*old(ta)),
        (k.is_plain_char() && ta_selection(*old(ta)) is None && ta_wf(*old(ta))) ==> ({
            let ls = ta_lines(*old(ta));
            let row = ta_cursor(*old(ta)).0;
            let col = ta_cursor(*old(ta)).1;
            &&& ta_lines(*final(ta)) == insert_char_at(ls, row, col, k.key->0)
            &&& ta_cursor(*final(ta)) == (row, (col + 1) as nat)
            &&& ta_selection(*final(ta)) is None
        }),
        ((k.key is Enter || (k.key matches Key::Char(c) && (c == '\n' || c == '\r') && !k.ctrl
            && !k.alt)) && ta_selection(*old(ta)) is None && ta_wf(*old(ta))) ==> ({
            let ls = ta_lines(*old(ta));
            let row = ta_cursor(*old(ta)).0;
            let col = ta_cursor(*old(ta)).1;
            &&& ta_lines(*final(ta)) == split_row_at(ls, row, col)
            &&& ta_cursor(*final(ta)) == ((row + 1) as nat, 0nat)
            &&& ta_selection(*final(ta)) is None
        }),
{
    let key = match k.key {
        Key::Char(c) => K::Char(c),
        Key::Enter => K::Enter, Key::Esc => K::Esc,
        Key::Up => K::Up, Key::Down => K::Down,
        Key::Left => K::Left, Key::Right => K::Right,
        Key::Tab => K::Tab, Key::Backspace => K::Backspace,
        Key::Delete => K::Delete, Key::Home => K::Home,
        Key::End => K::End, Key::Null => K::Null,
    };
    let _ = ta.inner.input(tui_textarea::Input { key, ctrl: k.ctrl, alt: k.alt, shift: k.shift });
}

/// Relies on `TextArea::insert_newline`: with no ongoing selection it splits
/// the cursor's line at the cursor and moves the cursor to the start of the
/// new line.
#[verifier::external_body]
pub(crate) fn ta_insert_newline(ta: &mut TextBuf)
    ensures
        ta_wf(*old(ta)) ==> ta_wf(*final(ta)),
        (ta_selection(*old(ta)) is None && ta_wf(*old(ta))) ==> ({
            let ls = ta_lines(*old(ta));
            let row = ta_cursor(*old(ta)).0;
            let col = ta_cursor(*old(ta)).1;
            &&& ta_lines(*final(ta)) == split_row_at(ls, row, col)
            &&& ta_cursor(*final(ta)) == ((row + 1) as nat, 0nat)
            &&& ta_selection(*final(ta)) is None
        }),
{
    ta.inner.insert_newline();
}

/// Relies on `TextArea::insert_str`: inserted into an empty buffer with no
/// ongoing selection, the string becomes the whole content, split at its
/// newlines, with the cursor at the end of the last line.
#[verifier::external_body]
pub(crate) fn ta_insert_str(ta: &mut TextBuf, s: &String)
    ensures
        ta_wf(*old(ta)) ==> ta_wf(*final(ta)),
        ta_selection(*final(ta)) is None,
        (ta_lines(*old(ta)) == cleared() && ta_cursor(*old(ta)) == (0nat, 0nat) && ta_selection(
            *old(ta),
        ) is None) ==> ({
            let ls = split_lines(s@);
            &&& ta_lines(*final(ta)) == ls
            &&& ta_cursor(*final(ta)) == ((ls.len() - 1) as nat, ls.last().len())
            &&& ta_selection(*final(ta)) is None
        }),
{
    let _ = ta.inner.insert_str(s.as_str());
}

/// Relies on `TextArea::select_all`: it keeps the content, anchors the
/// selection at the origin, and jumps the cursor toward the end of the
/// content (the jump saturates at row and column u16::MAX).
#[verifier::external_body]
pub(crate) fn ta_select_all(ta: &mut TextBuf)
    ensures
        ta_wf(*old(ta)) ==> ta_wf(*final(ta)),
        ta_lines(*final(ta)) == ta_lines(*old(ta)),
        ta_selection(*final(ta)) == Some((0nat, 0nat)),
        (ta_wf(*old(ta)) && ta_small(ta_lines(*old(ta)))) ==> ta_cursor(*final(ta)) == end_cursor(
            ta_lines(*old(ta)),
        ),
{
    ta.inner.select_all();
}

/// Relies on `TextArea::cut`: it removes the text between the selection
/// anchor and the cursor, leaves the cursor at the start of that range, and
/// ends the selection; with no ongoing selection it changes nothing. With
/// the anchor at the origin and the cursor at the end of the content, the
/// whole content is removed.
#[verifier::external_body]
pub(crate) fn ta_cut(ta: &mut TextBuf)
    ensures
        ta_wf(*old(ta)) ==> ta_wf(*final(ta)),
        ta_selection(*final(ta)) is None,
        ta_selection(*old(ta)) is None ==> (ta_lines(*final(ta)) == ta_lines(*old(ta))
            && ta_cursor(*final(ta)) == ta_cursor(*old(ta))),
        (ta_wf(*old(ta)) && ta_selection(*old(ta)) == Some((0nat, 0nat)) && ta_cursor(*old(ta))
            == end_cursor(ta_lines(*old(ta)))) ==> (ta_lines(*final(ta)) == cleared()
            && ta_cursor(*final(ta)) == (0nat, 0nat)),
{
    let _ = ta.inner.cut();
}

/// Relies on `TextArea::lines`: it returns the held lines; their count.
#[verifier::external_body]
pub(crate) fn ta_line_count(ta: &TextBuf) -> (n: usize)
    ensures
        n == ta_lines(*ta).len(),
{
    ta.inner.lines().len()
}

/// Relies on `TextArea::lines`: it returns the held lines; the first one.
#[verifier::external_body]
pub(crate) fn ta_first_line(ta: &TextBuf) -> (l: String)
    requires
        ta_lines(*ta).len() > 0,
    ensures
        l@ == ta_lines(*ta)[0],
{
    ta.inner.lines()[0].clone()
}

/// Relies on `TextArea::lines`: it returns the held lines; here copied
/// out as owned strings.
#[verifier::external_body]
pub(crate) fn ta_lines_vec(ta: &TextBuf) -> (r: Vec<String>)
    ensures
        crate::text::views_of(r@) == ta_lines(*ta),
{
    ta.inner.lines().to_vec()
}

impl TextBuf {
    /// Relies on ratatui's `Widget` impl for `&TextArea`: given a region
    /// inside the surface, it draws the text area (block, placeholder,
    /// content) into that region, writes no cell outside it, and leaves
    /// the surface's own region untouched.
    #[verifier::external_body]
    pub(crate) fn widget_render(&self, area: Rect, buf: &mut ratatui::buffer::Buffer)
        requires
            rect_within(area, buf_area(*old(buf))),
        ensures
            buf_area(*final(buf)) == buf_area(*old(buf)),
            preserved_outside(buf_cells(*old(buf)), buf_cells(*final(buf)), area),
    {
        ratatui::widgets::Widget::render(
            &self.inner,
            ratatui::layout::Rect { x: area.x, y: area.y, width: area.width, height: area.height },
            buf,
        );
    }
}

/// Relies on `TextArea::is_empty`: it reports whether the content is a
/// single empty line.
#[verifier::external_body]
pub(crate) fn ta_is_empty(ta: &TextBuf) -> (b: bool)
    ensures
        b == (ta_lines(*ta) == cleared()),
{
    ta.inner.is_empty()
}

} // verus!
