//! Integration with the character grid that the compositor owns.
//!
//! The grid is ratatui's `Buffer`. Its cells are modelled as a map from cell
//! coordinates to the parts this engine writes: the symbol, the skip flag
//! that excludes a cell from the compositor's flush, and the foreground and
//! background colors (`Some` exactly when they hold a plain RGB color).
//!
//! The engine's own grid rule lives here verified: a byte-stream payload is
//! written into exactly one cell, the top-left of the target area; every
//! other covered cell is suppressed; no cell outside the area is touched.

use vstd::prelude::*;

use crate::geometry::CellRect;
use crate::geometry::Rgb;

verus! {

/// What this engine reads of one grid cell: symbol, skip flag, foreground
/// and background color (`Some` exactly for a plain RGB color).
pub type CellView = (Seq<char>, bool, Option<(u8, u8, u8)>, Option<(u8, u8, u8)>);

/// ratatui's character grid, carried opaquely; its cells are reached only
/// through the trusted setters below and modelled by [`grid_cells`].
#[verifier::external_type_specification]
#[verifier::external_body]
pub struct ExBuffer(ratatui::buffer::Buffer);

/// The rectangle of cells a grid covers: x, y, width, height.
pub uninterp spec fn grid_area(buf: ratatui::buffer::Buffer) -> (u16, u16, u16, u16);

/// The cells a grid holds, keyed by cell coordinates.
pub uninterp spec fn grid_cells(buf: ratatui::buffer::Buffer) -> Map<(u16, u16), CellView>;

/// True when cell `(cx, cy)` lies inside the grid rectangle `g`.
pub open spec fn in_grid(g: (u16, u16, u16, u16), cx: u16, cy: u16) -> bool {
    &&& g.0 <= cx < g.0 + g.2
    &&& g.1 <= cy < g.1 + g.3
}

/// True when every cell of `area` lies inside the grid rectangle `g`, and
/// the area's far edges stay within the cell-coordinate range.
pub open spec fn rect_in_grid(area: CellRect, g: (u16, u16, u16, u16)) -> bool {
    &&& g.0 <= area.x
    &&& area.x + area.width <= g.0 + g.2
    &&& g.1 <= area.y
    &&& area.y + area.height <= g.1 + g.3
    &&& area.x + area.width <= u16::MAX
    &&& area.y + area.height <= u16::MAX
}

/// The cell with its symbol replaced.
pub open spec fn with_symbol(c: CellView, s: Seq<char>) -> CellView {
    (s, c.1, c.2, c.3)
}

/// The cell with its skip flag replaced.
pub open spec fn with_skip(c: CellView, skip: bool) -> CellView {
    (c.0, skip, c.2, c.3)
}

/// The cell with its foreground color replaced.
pub open spec fn with_fg(c: CellView, color: (u8, u8, u8)) -> CellView {
    (c.0, c.1, Some(color), c.3)
}

/// The cell with its background color replaced.
pub open spec fn with_bg(c: CellView, color: (u8, u8, u8)) -> CellView {
    (c.0, c.1, c.2, Some(color))
}

/// Relies on ratatui's public `area` field of `Buffer`: the rectangle of
/// cells the grid covers, so that callers can establish that a target area
/// lies inside the grid.
#[verifier::external_body]
pub fn buffer_area(buf: &ratatui::buffer::Buffer) -> (r: (u16, u16, u16, u16))
    ensures
        r == grid_area(*buf),
{
    (buf.area.x, buf.area.y, buf.area.width, buf.area.height)
}

/// Relies on ratatui's `Buffer::cell_mut` and `Cell::set_symbol`: replaces
/// the symbol of the cell at `(x, y)` and changes nothing else.
#[verifier::external_body]
pub(crate) fn grid_set_symbol(buf: &mut ratatui::buffer::Buffer, x: u16, y: u16, s: &str)
    requires
        in_grid(grid_area(*old(buf)), x, y),
    ensures
        grid_area(*final(buf)) == grid_area(*old(buf)),
        grid_cells(*final(buf)) == grid_cells(*old(buf)).insert(
            (x, y),
            with_symbol(grid_cells(*old(buf))[(x, y)], s@),
        ),
{
    if let Some(cell) = buf.cell_mut((x, y)) {
        cell.set_symbol(s);
    }
}

/// Relies on ratatui's `Buffer::cell_mut` and the public `skip` field of
/// `Cell`: replaces the skip flag of the cell at `(x, y)` and changes
/// nothing else. The field carries a deprecation note but is what the
/// buffer diff honors for cells with default diff options.
#[verifier::external_body]
#[allow(deprecated)]
pub(crate) fn grid_set_skip(buf: &mut ratatui::buffer::Buffer, x: u16, y: u16, skip: bool)
    requires
        in_grid(grid_area(*old(buf)), x, y),
    ensures
        grid_area(*final(buf)) == grid_area(*old(buf)),
        grid_cells(*final(buf)) == grid_cells(*old(buf)).insert(
            (x, y),
            with_skip(grid_cells(*old(buf))[(x, y)], skip),
        ),
{
    if let Some(cell) = buf.cell_mut((x, y)) {
        cell.skip = skip;
    }
}

/// Relies on ratatui's `Buffer::cell_mut` and `Cell::set_fg` with
/// `Color::Rgb`: replaces the foreground color of the cell at `(x, y)` with
/// the given RGB color and changes nothing else.
#[verifier::external_body]
pub(crate) fn grid_set_fg(buf: &mut ratatui::buffer::Buffer, x: u16, y: u16, color: Rgb)
    requires
        in_grid(grid_area(*old(buf)), x, y),
    ensures
        grid_area(*final(buf)) == grid_area(*old(buf)),
        grid_cells(*final(buf)) == grid_cells(*old(buf)).insert(
            (x, y),
            with_fg(grid_cells(*old(buf))[(x, y)], (color.r, color.g, color.b)),
        ),
{
    if let Some(cell) = buf.cell_mut((x, y)) {
        cell.set_fg(ratatui::style::Color::Rgb(color.r, color.g, color.b));
    }
}

/// Relies on ratatui's `Buffer::cell_mut` and `Cell::set_bg` with
/// `Color::Rgb`: replaces the background color of the cell at `(x, y)` with
/// the given RGB color and changes nothing else.
#[verifier::external_body]
pub(crate) fn grid_set_bg(buf: &mut ratatui::buffer::Buffer, x: u16, y: u16, color: Rgb)
    requires
        in_grid(grid_area(*old(buf)), x, y),
    ensures
        grid_area(*final(buf)) == grid_area(*old(buf)),
        grid_cells(*final(buf)) == grid_cells(*old(buf)).insert(
            (x, y),
            with_bg(grid_cells(*old(buf))[(x, y)], (color.r, color.g, color.b)),
        ),
{
    if let Some(cell) = buf.cell_mut((x, y)) {
        cell.set_bg(ratatui::style::Color::Rgb(color.r, color.g, color.b));
    }
}

/// The single-writer-cell rule, as a relation between the grid before and
/// after a byte-stream payload was rendered into `area`: the top-left cell
/// of `area` carries the payload and is not suppressed, every other cell of
/// `area` keeps its symbol but is suppressed, and no cell outside `area`
/// changes.
pub open spec fn payload_written(
    pre: Map<(u16, u16), CellView>,
    post: Map<(u16, u16), CellView>,
    data: Seq<char>,
    area: CellRect,
) -> bool {
    &&& forall|cx: u16, cy: u16| #![trigger post[(cx, cy)]]
        !area.covers(cx as int, cy as int) ==> post[(cx, cy)] == pre[(cx, cy)]
    &&& forall|cx: u16, cy: u16| #![trigger post[(cx, cy)]]
        area.covers(cx as int, cy as int) && !(cx == area.x && cy == area.y) ==> post[(cx, cy)]
            == with_skip(pre[(cx, cy)], true)
    &&& post[(area.x, area.y)] == with_skip(with_symbol(pre[(area.x, area.y)], data), false)
}

/// True for the cells the suppression sweep has already passed, walking the
/// area row by row: every row above `yy`, and the cells left of `xx` in row
/// `yy`.
pub open spec fn swept_before(cx: int, cy: int, yy: int, xx: int) -> bool {
    cy < yy || (cy == yy && cx < xx)
}

/// The sweep's intermediate state: the cells of `area` already passed are
/// suppressed, everything else still reads as in `base`.
pub open spec fn swept_upto(
    base: Map<(u16, u16), CellView>,
    cur: Map<(u16, u16), CellView>,
    area: CellRect,
    yy: int,
    xx: int,
) -> bool {
    &&& forall|cx: u16, cy: u16| #![trigger cur[(cx, cy)]]
        area.covers(cx as int, cy as int) && swept_before(cx as int, cy as int, yy, xx) ==> cur[(
            cx,
            cy,
        )] == with_skip(base[(cx, cy)], true)
    &&& forall|cx: u16, cy: u16| #![trigger cur[(cx, cy)]]
        !(area.covers(cx as int, cy as int) && swept_before(cx as int, cy as int, yy, xx)) ==> cur[(
            cx,
            cy,
        )] == base[(cx, cy)]
}

/// Write a byte-stream payload into the grid at `area` under the
/// single-writer-cell rule: the payload goes into the top-left cell, all
/// other covered cells are suppressed, nothing outside `area` is touched.
pub fn render_payload(data: &str, area: CellRect, buf: &mut ratatui::buffer::Buffer)
    requires
        !area.is_degenerate(),
        rect_in_grid(area, grid_area(*old(buf))),
    ensures
        grid_area(*final(buf)) == grid_area(*old(buf)),
        payload_written(grid_cells(*old(buf)), grid_cells(*final(buf)), data@, area),
{
    let ghost pre = grid_cells(*old(buf));
    let x0: u16 = area.x;
    let y0: u16 = area.y;
    let x1: u16 = area.x + area.width;
    let y1: u16 = area.y + area.height;

    grid_set_symbol(buf, x0, y0, data);
    let ghost base = grid_cells(*buf);

    let mut yy: u16 = y0;
    while yy < y1
        invariant
            x0 == area.x,
            y0 == area.y,
            x1 == area.x + area.width,
            y1 == area.y + area.height,
            y0 <= yy <= y1,
            !area.is_degenerate(),
            rect_in_grid(area, grid_area(*buf)),
            grid_area(*buf) == grid_area(*old(buf)),
            swept_upto(base, grid_cells(*buf), area, yy as int, x0 as int),
        decreases y1 - yy,
    {
        let mut xx: u16 = x0;
        while xx < x1
            invariant
                x0 == area.x,
                y0 == area.y,
                x1 == area.x + area.width,
                y1 == area.y + area.height,
                x0 <= xx <= x1,
                y0 <= yy < y1,
                !area.is_degenerate(),
                rect_in_grid(area, grid_area(*buf)),
                grid_area(*buf) == grid_area(*old(buf)),
                swept_upto(base, grid_cells(*buf), area, yy as int, xx as int),
            decreases x1 - xx,
        {
            let ghost before_step = grid_cells(*buf);
            grid_set_skip(buf, xx, yy, true);
            proof {
                assert(before_step[(xx, yy)] == base[(xx, yy)]);
                assert forall|cx: u16, cy: u16| #![trigger grid_cells(*buf)[(cx, cy)]]
                    !(cx == xx && cy == yy) implies grid_cells(*buf)[(cx, cy)] == before_step[(
                    cx,
                    cy,
                )] by {
                    vstd::map::axiom_map_insert_different(
                        before_step,
                        (cx, cy),
                        (xx, yy),
                        with_skip(before_step[(xx, yy)], true),
                    );
                }
            }
            xx = xx + 1;
        }
        proof {
            assert forall|cx: u16, cy: u16|
                area.covers(cx as int, cy as int) implies (swept_before(
                cx as int,
                cy as int,
                yy as int,
                x1 as int,
            ) <==> swept_before(cx as int, cy as int, yy as int + 1, x0 as int)) by {}
        }
        yy = yy + 1;
    }
    let ghost swept = grid_cells(*buf);
    grid_set_skip(buf, x0, y0, false);
    proof {
        assert forall|cx: u16, cy: u16| #![trigger grid_cells(*buf)[(cx, cy)]]
            !(cx == x0 && cy == y0) implies grid_cells(*buf)[(cx, cy)] == swept[(cx, cy)] by {
            vstd::map::axiom_map_insert_different(
                swept,
                (cx, cy),
                (x0, y0),
                with_skip(swept[(x0, y0)], false),
            );
        }
        assert forall|cx: u16, cy: u16| #![trigger grid_cells(*buf)[(cx, cy)]]
            !area.covers(cx as int, cy as int) implies grid_cells(*buf)[(cx, cy)] == pre[(cx, cy)] by {
            assert(swept[(cx, cy)] == base[(cx, cy)]);
            vstd::map::axiom_map_insert_different(
                pre,
                (cx, cy),
                (x0, y0),
                with_symbol(pre[(x0, y0)], data@),
            );
        }
        assert(grid_cells(*buf)[(area.x, area.y)] == with_skip(
            with_symbol(pre[(area.x, area.y)], data@),
            false,
        ));
    }
}

} // verus!
