//! Cell-grid geometry: font metrics, rectangles in character-cell units, and
//! the arithmetic that maps pixel sizes to cell footprints and fits a desired
//! footprint into an available area.

use vstd::prelude::*;

verus! {

/// Terminal font metrics: width and height of one character cell, in pixels.
pub type FontSize = (u16, u16);

/// A solid color, as the byte-stream protocols and the glyph protocol use it.
#[derive(Clone, Copy, PartialEq, Eq, Structural, Debug)]
pub struct Rgb {
    pub r: u8,
    pub g: u8,
    pub b: u8,
}

/// A rectangle in character-cell units. Used both as a desired footprint
/// (origin at zero) and as the region a payload was rendered into.
#[derive(Clone, Copy, PartialEq, Eq, Structural, Debug)]
pub struct CellRect {
    pub x: u16,
    pub y: u16,
    pub width: u16,
    pub height: u16,
}

impl CellRect {
    /// A rectangle of the given size with its origin at zero.
    pub fn sized(width: u16, height: u16) -> (r: CellRect)
        ensures
            r == (CellRect { x: 0, y: 0, width, height }),
    {
        CellRect { x: 0, y: 0, width, height }
    }

    /// The empty rectangle at the origin.
    pub fn zero() -> (r: CellRect)
        ensures
            r == (CellRect { x: 0, y: 0, width: 0, height: 0 }),
    {
        CellRect { x: 0, y: 0, width: 0, height: 0 }
    }

    /// True when the rectangle covers no cell at all.
    pub open spec fn is_degenerate(self) -> bool {
        self.width == 0 || self.height == 0
    }

    /// True when cell `(cx, cy)` lies inside the rectangle.
    pub open spec fn covers(self, cx: int, cy: int) -> bool {
        &&& self.x <= cx < self.x + self.width
        &&& self.y <= cy < self.y + self.height
    }

    /// True when every cell of `self` lies inside `outer`.
    pub open spec fn within(self, outer: CellRect) -> bool {
        &&& outer.x <= self.x
        &&& self.x + self.width <= outer.x + outer.width
        &&& outer.y <= self.y
        &&& self.y + self.height <= outer.y + outer.height
    }
}

/// Number of whole cells needed to cover `px` pixels when one cell is
/// `cell` pixels wide, rounded up and clamped to the cell-coordinate range.
/// A zero cell size (no usable font metric) saturates.
pub open spec fn cells_for(px: nat, cell: nat) -> u16 {
    if cell == 0 {
        u16::MAX
    } else if (px + cell - 1) / (cell as int) > u16::MAX {
        u16::MAX
    } else {
        (((px + cell - 1) / (cell as int)) as u16)
    }
}

/// Ceil-divide a pixel count by a cell dimension, saturating at the largest
/// cell coordinate.
pub fn cells_for_px(px: u32, cell: u16) -> (r: u16)
    ensures
        r == cells_for(px as nat, cell as nat),
{
    if cell == 0 {
        u16::MAX
    } else {
        let d: u64 = (px as u64 + cell as u64 - 1) / (cell as u64);
        if d > u16::MAX as u64 {
            u16::MAX
        } else {
            d as u16
        }
    }
}

/// The cell footprint of an image of `img_width` by `img_height` pixels under
/// the given font metrics: each dimension rounded up to whole cells, origin
/// at zero.
pub open spec fn desired_rect(img_width: nat, img_height: nat, font_size: FontSize) -> CellRect {
    CellRect {
        x: 0,
        y: 0,
        width: cells_for(img_width, font_size.0 as nat),
        height: cells_for(img_height, font_size.1 as nat),
    }
}

/// Round an image pixel size to the cell rectangle that covers it, given a
/// font size.
pub fn round_pixel_size_to_cells(img_width: u32, img_height: u32, font_size: FontSize) -> (r:
    CellRect)
    ensures
        r == desired_rect(img_width as nat, img_height as nat, font_size),
{
    CellRect {
        x: 0,
        y: 0,
        width: cells_for_px(img_width, font_size.0),
        height: cells_for_px(img_height, font_size.1),
    }
}

/// The size, in cells, that a desired footprint of `dw` by `dh` takes when
/// fitted into an available area of `aw` by `ah` cells: unchanged when it
/// already fits, otherwise scaled down preserving the aspect ratio, never
/// below one cell in either dimension.
pub open spec fn fit_size(dw: nat, dh: nat, aw: nat, ah: nat) -> (nat, nat)
    recommends
        dw > 0,
        dh > 0,
        aw > 0,
        ah > 0,
{
    if dw <= aw && dh <= ah {
        (dw, dh)
    } else if dh * aw <= dw * ah {
        (aw, if dh * aw / dw == 0 { 1nat } else { dh * aw / dw })
    } else {
        (if dw * ah / dh == 0 { 1nat } else { dw * ah / dh }, ah)
    }
}

/// The rectangle that a desired footprint occupies inside a target area:
/// the fitted size, origin at zero.
pub open spec fn fit_rect(desired: CellRect, area: CellRect) -> CellRect {
    let (w, h) = fit_size(desired.width as nat, desired.height as nat, area.width as nat, area.height as nat);
    CellRect { x: 0, y: 0, width: w as u16, height: h as u16 }
}

/// The part of `area` that a payload encoded for `rect` may be drawn into:
/// with `overdraw`, the area's corner clipped to the payload's size; without
/// it, the payload's own size at the area's corner, or nothing when the
/// payload outgrows the area.
pub open spec fn render_area_spec(rect: CellRect, area: CellRect, overdraw: bool) -> Option<
    CellRect,
> {
    if overdraw {
        Some(
            CellRect {
                x: area.x,
                y: area.y,
                width: if rect.width <= area.width {
                    rect.width
                } else {
                    area.width
                },
                height: if rect.height <= area.height {
                    rect.height
                } else {
                    area.height
                },
            },
        )
    } else if rect.width > area.width || rect.height > area.height {
        None
    } else {
        Some(CellRect { x: area.x, y: area.y, width: rect.width, height: rect.height })
    }
}

/// Clip a payload rectangle against a target area: what part of the area a
/// payload encoded for `rect` may occupy.
pub fn render_area(rect: CellRect, area: CellRect, overdraw: bool) -> (r: Option<CellRect>)
    ensures
        r == render_area_spec(rect, area, overdraw),
{
    if overdraw {
        return Some(
            CellRect {
                x: area.x,
                y: area.y,
                width: if rect.width <= area.width {
                    rect.width
                } else {
                    area.width
                },
                height: if rect.height <= area.height {
                    rect.height
                } else {
                    area.height
                },
            },
        );
    }
    if rect.width > area.width || rect.height > area.height {
        return None;
    }
    Some(CellRect { x: area.x, y: area.y, width: rect.width, height: rect.height })
}

/// The fitted size never exceeds the area and never vanishes, and a footprint
/// that already fits is kept exactly.
pub proof fn lemma_fit_size_bounds(dw: nat, dh: nat, aw: nat, ah: nat)
    requires
        dw > 0,
        dh > 0,
        aw > 0,
        ah > 0,
    ensures
        fit_size(dw, dh, aw, ah).0 <= aw,
        fit_size(dw, dh, aw, ah).1 <= ah,
        fit_size(dw, dh, aw, ah).0 > 0,
        fit_size(dw, dh, aw, ah).1 > 0,
        dw <= aw && dh <= ah ==> fit_size(dw, dh, aw, ah) == (dw, dh),
{
    if dw <= aw && dh <= ah {
    } else if dh * aw <= dw * ah {
        assert(dh * aw / dw <= ah) by (nonlinear_arith)
            requires
                dh * aw <= dw * ah,
                dw > 0,
        ;
    } else {
        assert(dw * ah / dh <= aw) by (nonlinear_arith)
            requires
                dw * ah <= dh * aw,
                dh > 0,
        ;
    }
}

/// Fit a desired cell size into an available cell size, preserving aspect
/// ratio and never exceeding the area.
pub fn fit_size_cells(dw: u16, dh: u16, aw: u16, ah: u16) -> (r: (u16, u16))
    requires
        dw > 0,
        dh > 0,
        aw > 0,
        ah > 0,
    ensures
        (r.0 as nat, r.1 as nat) == fit_size(dw as nat, dh as nat, aw as nat, ah as nat),
        r.0 <= aw,
        r.1 <= ah,
        r.0 > 0,
        r.1 > 0,
{
    proof {
        lemma_fit_size_bounds(dw as nat, dh as nat, aw as nat, ah as nat);
        assert((dh as int) * (aw as int) <= 0xffff * 0xffff && (dw as int) * (ah as int) <= 0xffff
            * 0xffff) by (nonlinear_arith)
            requires
                dh <= 0xffff,
                aw <= 0xffff,
                dw <= 0xffff,
                ah <= 0xffff,
        ;
    }
    if dw <= aw && dh <= ah {
        (dw, dh)
    } else {
        let ha: u64 = (dh as u64) * (aw as u64);
        let wa: u64 = (dw as u64) * (ah as u64);
        if ha <= wa {
            let h: u64 = ha / (dw as u64);
            (aw, if h == 0 { 1 } else { h as u16 })
        } else {
            let w: u64 = wa / (dh as u64);
            (if w == 0 { 1 } else { w as u16 }, ah)
        }
    }
}

} // verus!
