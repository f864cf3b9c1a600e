//! Trusted boundary around the drawing surface: ratatui's `Buffer`, named
//! by the symbols its cells hold and by the region it covers, and the call
//! that paints the popup rows into it. The drawing calls promise a frame:
//! every cell outside the region they are given keeps its symbol.

use vstd::prelude::*;
use crate::composer::Rect;
use crate::composer::rect_within;

verus! {

#[verifier::external_type_specification]
#[verifier::external_body]
pub struct ExBuffer(ratatui::buffer::Buffer);

/// The symbols the drawing surface holds, cell by (column, row) cell.
pub uninterp spec fn buf_cells(b: ratatui::buffer::Buffer) -> Map<(int, int), Seq<char>>;

/// The terminal region the drawing surface itself covers.
pub uninterp spec fn buf_area(b: ratatui::buffer::Buffer) -> Rect;

/// The cell at (col, row) lies inside region `r`.
pub open spec fn covers(r: Rect, col: int, row: int) -> bool {
    &&& r.x <= col < r.x + r.width
    &&& r.y <= row < r.y + r.height
}

/// Every cell outside `r` holds the same symbol on both surfaces.
pub open spec fn preserved_outside(
    before: Map<(int, int), Seq<char>>,
    after: Map<(int, int), Seq<char>>,
    r: Rect,
) -> bool {
    forall|col: int, row: int|
        !covers(r, col, row) ==> #[trigger] after[(col, row)] == before[(col, row)]
}

/// Relies on ratatui's `StatefulWidget` impl for `List` (and `Widget` for
/// `Block`): given a region inside the surface, they draw the candidate
/// command rows, the selected one highlighted, into that region and write
/// no cell outside it; the surface's own region is untouched.
#[verifier::external_body]
pub(crate) fn draw_popup_rows(
    names: &Vec<String>,
    selected: Option<usize>,
    area: Rect,
    buf: &mut ratatui::buffer::Buffer,
)
    requires
        rect_within(area, buf_area(*old(buf))),
    ensures
        buf_area(*final(buf)) == buf_area(*old(buf)),
        preserved_outside(buf_cells(*old(buf)), buf_cells(*final(buf)), area),
{
    let items: Vec<ratatui::widgets::ListItem> = names.iter().map(
        |n| ratatui::widgets::ListItem::new(n.clone()),
    ).collect();
    let list = ratatui::widgets::List::new(items).block(
        ratatui::widgets::Block::default().borders(ratatui::widgets::Borders::ALL),
    ).highlight_style(ratatui::style::Style::default().bg(ratatui::style::Color::LightBlue));
    let mut state = ratatui::widgets::ListState::default();
    state.select(selected);
    let rect = ratatui::layout::Rect { x: area.x, y: area.y, width: area.width, height: area.height };
    ratatui::widgets::StatefulWidget::render(list, rect, buf, &mut state);
}

} // verus!
