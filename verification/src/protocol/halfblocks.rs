//! The glyph-approximation protocol: each cell shows an upper-half-block
//! character whose foreground and background colors carry two vertically
//! stacked pixels of the scaled image. The payload is plain styled text,
//! one cell per character — no side-channel data, and no cell suppression
//! is needed downstream.

use vstd::prelude::*;

use crate::geometry::CellRect;
use crate::geometry::Rgb;
use crate::grid::CellView;
use crate::grid::grid_area;
use crate::grid::grid_cells;
use crate::grid::grid_set_bg;
use crate::grid::grid_set_fg;
use crate::grid::grid_set_symbol;
use crate::grid::rect_in_grid;
use crate::grid::swept_before;
use crate::protocol::ImageSource;
use crate::protocol::Protocol;
use crate::protocol::ResizeProtocol;
use crate::protocol::fixed_model;
use crate::protocol::fixed_rect;
use crate::raster::Raster;
use crate::raster::pixel_of;
use crate::raster::scaled_model;
use crate::resize::Resize;
use crate::resize::resized_model;
use vstd::arithmetic::div_mod::lemma_fundamental_div_mod_converse;

verus! {

/// A pixel triple as the color the glyph protocol shows.
pub open spec fn rgb_of(p: (u8, u8, u8)) -> Rgb {
    Rgb { r: p.0, g: p.1, b: p.2 }
}

/// The glyph cells an image encodes to for `rect`: the image scaled to one
/// pixel per cell column and two per cell row, read row-major, each cell
/// carrying its upper and lower pixel.
pub open spec fn glyph_payload(model: Seq<u8>, rect: CellRect) -> Seq<(Rgb, Rgb)> {
    let scaled = scaled_model(model, rect.width as u32, (2 * rect.height) as u32);
    Seq::new(
        (rect.width * rect.height) as nat,
        |i: int|
            {
                let cy = i / (rect.width as int);
                let cx = i % (rect.width as int);
                (
                    rgb_of(pixel_of(scaled, cx as u32, (2 * cy) as u32)),
                    rgb_of(pixel_of(scaled, cx as u32, (2 * cy + 1) as u32)),
                )
            },
    )
}

/// How many columns of the payload are visible inside `area`.
pub open spec fn visible_width(rect: CellRect, area: CellRect) -> u16 {
    if rect.width <= area.width {
        rect.width
    } else {
        area.width
    }
}

/// How many rows of the payload are visible inside `area`.
pub open spec fn visible_height(rect: CellRect, area: CellRect) -> u16 {
    if rect.height <= area.height {
        rect.height
    } else {
        area.height
    }
}

/// True when grid cell `(cx, cy)` lies in the visible `w` by `h` corner of
/// `area`.
pub open spec fn glyph_covers(area: CellRect, w: u16, h: u16, cx: int, cy: int) -> bool {
    &&& area.x <= cx < area.x + w
    &&& area.y <= cy < area.y + h
}

/// The payload entry that grid cell `(cx, cy)` shows: the payload is stored
/// row-major over the payload's own rectangle, anchored at `area`'s corner.
pub open spec fn glyph_at(
    cells: Seq<(Rgb, Rgb)>,
    rect: CellRect,
    area: CellRect,
    cx: int,
    cy: int,
) -> (Rgb, Rgb) {
    cells[(cy - area.y) * rect.width + (cx - area.x)]
}

/// One rendered glyph cell: the upper-half-block symbol, the previous skip
/// flag, and the two carried pixels as foreground and background.
pub open spec fn glyph_cell(c: CellView, px: (Rgb, Rgb)) -> CellView {
    ("\u{2580}"@, c.1, Some((px.0.r, px.0.g, px.0.b)), Some((px.1.r, px.1.g, px.1.b)))
}

/// What rendering a glyph payload into `area` does: every visible cell
/// shows its payload entry, every other cell — outside the visible corner
/// or outside `area` — is untouched. No skip flag changes anywhere.
pub open spec fn glyphs_written(
    pre: Map<(u16, u16), CellView>,
    post: Map<(u16, u16), CellView>,
    cells: Seq<(Rgb, Rgb)>,
    rect: CellRect,
    area: CellRect,
) -> bool {
    let w = visible_width(rect, area);
    let h = visible_height(rect, area);
    &&& forall|cx: u16, cy: u16| #![trigger post[(cx, cy)]]
        !glyph_covers(area, w, h, cx as int, cy as int) ==> post[(cx, cy)] == pre[(cx, cy)]
    &&& forall|cx: u16, cy: u16| #![trigger post[(cx, cy)]]
        glyph_covers(area, w, h, cx as int, cy as int) ==> post[(cx, cy)] == glyph_cell(
            pre[(cx, cy)],
            glyph_at(cells, rect, area, cx as int, cy as int),
        )
}

/// The sweep's intermediate state while rendering glyphs row by row.
pub open spec fn glyphs_upto(
    base: Map<(u16, u16), CellView>,
    cur: Map<(u16, u16), CellView>,
    cells: Seq<(Rgb, Rgb)>,
    rect: CellRect,
    area: CellRect,
    w: u16,
    h: u16,
    row: int,
    col: int,
) -> bool {
    &&& forall|cx: u16, cy: u16| #![trigger cur[(cx, cy)]]
        glyph_covers(area, w, h, cx as int, cy as int) && swept_before(
            cx as int,
            cy as int,
            row,
            col,
        ) ==> cur[(cx, cy)] == glyph_cell(
            base[(cx, cy)],
            glyph_at(cells, rect, area, cx as int, cy as int),
        )
    &&& forall|cx: u16, cy: u16| #![trigger cur[(cx, cy)]]
        !(glyph_covers(area, w, h, cx as int, cy as int) && swept_before(
            cx as int,
            cy as int,
            row,
            col,
        )) ==> cur[(cx, cy)] == base[(cx, cy)]
}

/// A fixed glyph payload: the per-cell pixel pairs, row-major, and the
/// rectangle they were encoded for.
pub struct FixedHalfblocks {
    /// Per cell, the upper and lower pixel carried as foreground and
    /// background.
    pub cells: Vec<(Rgb, Rgb)>,
    /// The rectangle the payload was encoded for.
    pub rect: CellRect,
}

impl Default for FixedHalfblocks {
    /// The empty payload for the empty rectangle.
    fn default() -> (r: Self)
        ensures
            r.cells@ == Seq::<(Rgb, Rgb)>::empty(),
            r.rect == (CellRect { x: 0, y: 0, width: 0, height: 0 }),
    {
        FixedHalfblocks { cells: Vec::new(), rect: CellRect::zero() }
    }
}

impl Clone for FixedHalfblocks {
    /// An observably equal copy.
    fn clone(&self) -> (r: Self)
        ensures
            r.cells@ == self.cells@,
            r.rect == self.rect,
    {
        let mut cells: Vec<(Rgb, Rgb)> = Vec::new();
        let mut i: usize = 0;
        while i < self.cells.len()
            invariant
                i <= self.cells@.len(),
                cells@ == self.cells@.take(i as int),
            decreases self.cells@.len() - i,
        {
            cells.push(self.cells[i]);
            proof {
                assert(self.cells@.take(i + 1) =~= self.cells@.take(i as int).push(
                    self.cells@[i as int],
                ));
            }
            i = i + 1;
        }
        proof {
            assert(self.cells@.take(self.cells@.len() as int) =~= self.cells@);
        }
        FixedHalfblocks { cells, rect: self.rect }
    }
}

/// Encode an image as glyph cells for `rect`: scale it to one pixel per
/// cell column and two pixels per cell row, then read each cell's two
/// stacked pixels. This encoder cannot fail, and the payload is exactly
/// the scaled image's pixels.
pub fn encode(img: &Raster, rect: CellRect) -> (r: FixedHalfblocks)
    requires
        img.width_px() >= 1,
        img.height_px() >= 1,
        rect.width >= 1,
        rect.height >= 1,
    ensures
        r.rect == rect,
        r.wf(),
        r.cells@ == glyph_payload(img.model(), rect),
{
    let tw: u32 = rect.width as u32;
    let th: u32 = 2 * (rect.height as u32);
    let resized = img.resize_exact(tw, th);
    let ghost target = glyph_payload(img.model(), rect);
    let mut cells: Vec<(Rgb, Rgb)> = Vec::new();
    let mut y: u16 = 0;
    while y < rect.height
        invariant
            y <= rect.height,
            cells@.len() == (y as int) * (rect.width as int),
            cells@ == target.take(cells@.len() as int),
            target == glyph_payload(img.model(), rect),
            target.len() == (rect.width * rect.height) as nat,
            rect.width >= 1,
            rect.height >= 1,
            resized.width_px() == rect.width as int,
            resized.height_px() == 2 * (rect.height as int),
            resized.model() == scaled_model(img.model(), rect.width as u32, (2 * rect.height) as u32),
        decreases rect.height - y,
    {
        let mut x: u16 = 0;
        while x < rect.width
            invariant
                x <= rect.width,
                y < rect.height,
                cells@.len() == (y as int) * (rect.width as int) + (x as int),
                cells@ == target.take(cells@.len() as int),
                target == glyph_payload(img.model(), rect),
                target.len() == (rect.width * rect.height) as nat,
                rect.width >= 1,
                rect.height >= 1,
                resized.width_px() == rect.width as int,
                resized.height_px() == 2 * (rect.height as int),
                resized.model() == scaled_model(
                    img.model(),
                    rect.width as u32,
                    (2 * rect.height) as u32,
                ),
            decreases rect.width - x,
        {
            let upper = resized.pixel(x as u32, 2 * (y as u32));
            let lower = resized.pixel(x as u32, 2 * (y as u32) + 1);
            proof {
                let i = (y as int) * (rect.width as int) + (x as int);
                assert((y as int) * (rect.width as int) + (x as int) < (rect.width as int) * (
                rect.height as int)) by (nonlinear_arith)
                    requires
                        0 <= y < rect.height,
                        0 <= x < rect.width,
                ;
                lemma_fundamental_div_mod_converse(i, rect.width as int, y as int, x as int);
                assert(upper == rgb_of(pixel_of(resized.model(), x as u32, (2 * (y as int)) as u32)));
                assert(lower == rgb_of(
                    pixel_of(resized.model(), x as u32, (2 * (y as int) + 1) as u32),
                ));
                assert(target[i] == (upper, lower));
                assert(target.take(i + 1) =~= target.take(i).push(target[i]));
            }
            cells.push((upper, lower));
            x = x + 1;
        }
        proof {
            assert((y as int) * (rect.width as int) + (rect.width as int) == (y as int + 1) * (
            rect.width as int)) by (nonlinear_arith);
        }
        y = y + 1;
    }
    proof {
        assert((rect.height as int) * (rect.width as int) == (rect.width as int) * (
        rect.height as int)) by (nonlinear_arith);
        assert(target.take(target.len() as int) =~= target);
    }
    FixedHalfblocks { cells, rect }
}

impl FixedHalfblocks {
    /// Encode a source once for the given area: run the resize policy from
    /// a blank previous rectangle and encode the produced raster. An empty
    /// image, or one whose footprint is degenerate, yields the empty
    /// payload.
    #[verifier::rlimit(30)]
    pub fn from_source(
        source: &ImageSource,
        resize: Resize,
        background_color: Option<Rgb>,
        area: CellRect,
    ) -> (r: FixedHalfblocks)
        ensures
            r.wf(),
            source.image.width_px() >= 1 && source.image.height_px() >= 1
                && !source.desired.is_degenerate() ==> r.rect == fixed_rect(
                resize,
                *source,
                area,
            ) && r.cells@ == glyph_payload(
                fixed_model(resize, *source, background_color, area),
                r.rect,
            ),
    {
        match resize.resize(source, CellRect::zero(), area, background_color, false) {
            Some((img, rect)) => {
                proof {
                    crate::geometry::lemma_fit_size_bounds(
                        source.desired.width as nat,
                        source.desired.height as nat,
                        area.width as nat,
                        area.height as nat,
                    );
                }
                let fixed = encode(&img, rect);
                proof {
                    assert(fixed.wf());
                    assert(fixed.rect == fixed_rect(resize, *source, area));
                    assert(img.model() == fixed_model(resize, *source, background_color, area));
                    assert(fixed.cells@ == glyph_payload(
                        fixed_model(resize, *source, background_color, area),
                        fixed.rect,
                    ));
                }
                fixed
            },
            None => {
                if source.image.width() >= 1 && source.image.height() >= 1
                    && source.desired.width >= 1 && source.desired.height >= 1 {
                    let img = source.image.clone();
                    let fixed = encode(&img, source.desired);
                    proof {
                        assert(img.model() == fixed_model(resize, *source, background_color, area));
                        assert(fixed.cells@ == glyph_payload(
                            fixed_model(resize, *source, background_color, area),
                            fixed.rect,
                        ));
                    }
                    fixed
                } else {
                    FixedHalfblocks::default()
                }
            },
        }
    }
}

impl Protocol for FixedHalfblocks {
    /// The payload holds exactly one entry per cell of its rectangle.
    open spec fn wf(&self) -> bool {
        self.cells@.len() == (self.rect.width as int) * (self.rect.height as int)
    }

    /// Nothing happens for a degenerate area; otherwise the visible corner
    /// of the payload is written, cell by cell, and nothing else changes.
    open spec fn render_ens(
        &self,
        area: CellRect,
        pre: Map<(u16, u16), CellView>,
        post: Map<(u16, u16), CellView>,
    ) -> bool {
        if area.is_degenerate() {
            post == pre
        } else {
            glyphs_written(pre, post, self.cells@, self.rect, area)
        }
    }

    fn render(&self, area: CellRect, buf: &mut ratatui::buffer::Buffer) {
        if area.width == 0 || area.height == 0 {
            return ;
        }
        let w: u16 = if self.rect.width <= area.width {
            self.rect.width
        } else {
            area.width
        };
        let h: u16 = if self.rect.height <= area.height {
            self.rect.height
        } else {
            area.height
        };
        let ghost base = grid_cells(*buf);
        let mut yy: u16 = 0;
        while yy < h
            invariant
                yy <= h,
                w == visible_width(self.rect, area),
                h == visible_height(self.rect, area),
                w <= area.width,
                h <= area.height,
                !area.is_degenerate(),
                self.wf(),
                rect_in_grid(area, grid_area(*buf)),
                grid_area(*buf) == grid_area(*old(buf)),
                glyphs_upto(
                    base,
                    grid_cells(*buf),
                    self.cells@,
                    self.rect,
                    area,
                    w,
                    h,
                    area.y + yy,
                    area.x as int,
                ),
            decreases h - yy,
        {
            let mut xx: u16 = 0;
            while xx < w
                invariant
                    xx <= w,
                    yy < h,
                    w == visible_width(self.rect, area),
                    h == visible_height(self.rect, area),
                    w <= area.width,
                    h <= area.height,
                    !area.is_degenerate(),
                    self.wf(),
                    rect_in_grid(area, grid_area(*buf)),
                    grid_area(*buf) == grid_area(*old(buf)),
                    glyphs_upto(
                        base,
                        grid_cells(*buf),
                        self.cells@,
                        self.rect,
                        area,
                        w,
                        h,
                        area.y + yy,
                        area.x + xx,
                    ),
                decreases w - xx,
            {
                proof {
                    assert((yy as int) * (self.rect.width as int) + (xx as int) < (
                    self.rect.width as int) * (self.rect.height as int)) by (nonlinear_arith)
                        requires
                            yy < self.rect.height,
                            xx < self.rect.width,
                    ;
                    assert((yy as int) * (self.rect.width as int) <= 0xffff * 0xffff)
                        by (nonlinear_arith)
                        requires
                            yy <= 0xffff,
                            self.rect.width <= 0xffff,
                    ;
                }
                let idx: usize = (yy as usize) * (self.rect.width as usize) + (xx as usize);
                let (upper, lower) = self.cells[idx];
                let gx: u16 = area.x + xx;
                let gy: u16 = area.y + yy;
                let ghost before = grid_cells(*buf);
                grid_set_symbol(buf, gx, gy, "\u{2580}");
                grid_set_fg(buf, gx, gy, upper);
                grid_set_bg(buf, gx, gy, lower);
                proof {
                    assert(grid_cells(*buf)[(gx, gy)] == glyph_cell(
                        before[(gx, gy)],
                        (upper, lower),
                    ));
                    assert(before[(gx, gy)] == base[(gx, gy)]);
                    assert(glyph_at(self.cells@, self.rect, area, gx as int, gy as int) == (
                    upper,
                    lower,
                    ));
                    assert forall|cx: u16, cy: u16| #![trigger grid_cells(*buf)[(cx, cy)]]
                        !(cx == gx && cy == gy) implies grid_cells(*buf)[(cx, cy)] == before[(
                        cx,
                        cy,
                    )] by {}
                }
                xx = xx + 1;
            }
            proof {
                assert forall|cx: u16, cy: u16|
                    glyph_covers(area, w, h, cx as int, cy as int) implies (swept_before(
                    cx as int,
                    cy as int,
                    area.y + yy,
                    area.x + w,
                ) <==> swept_before(cx as int, cy as int, area.y + yy + 1, area.x as int)) by {}
            }
            yy = yy + 1;
        }
    }
}

/// The resize-aware state of the glyph protocol: the shared source, the
/// last encoded payload, and the fingerprint that payload was encoded from.
pub struct HalfblocksState {
    /// The image source the payload is encoded from.
    pub source: ImageSource,
    /// The last encoded payload and its rectangle.
    pub current: FixedHalfblocks,
    /// The content fingerprint `current` was encoded from.
    pub hash: u64,
}

impl HalfblocksState {
    /// A fresh state holding the source and an empty payload, so that the
    /// first render must encode.
    pub fn new(source: ImageSource) -> (r: HalfblocksState)
        ensures
            r.source == source,
            r.current.cells@ == Seq::<(Rgb, Rgb)>::empty(),
            r.current.rect == (CellRect { x: 0, y: 0, width: 0, height: 0 }),
            r.hash == 0,
    {
        HalfblocksState { source, current: FixedHalfblocks::default(), hash: 0 }
    }
}

impl ResizeProtocol for HalfblocksState {
    /// The cached payload holds one entry per cell of its rectangle.
    open spec fn wf(&self) -> bool {
        self.current.wf()
    }

    open spec fn cached_rect(&self) -> CellRect {
        self.current.rect
    }

    /// The render state machine. A content-fingerprint mismatch forces the
    /// resize policy; when the policy asks for a re-render the new payload
    /// — the glyph cells of the policy's product — and the source's
    /// fingerprint are installed (this encoder cannot fail), and either way
    /// the cached payload is then written as glyphs.
    open spec fn render_ens(
        pre_state: Self,
        post_state: Self,
        resize: Resize,
        background_color: Option<Rgb>,
        area: CellRect,
        pre: Map<(u16, u16), CellView>,
        post: Map<(u16, u16), CellView>,
    ) -> bool {
        let force = pre_state.source.hash != pre_state.hash;
        let decision = resize.needs_resize_spec(
            pre_state.source,
            pre_state.current.rect,
            area,
            force,
        );
        if area.is_degenerate() {
            post_state == pre_state && post == pre
        } else {
            &&& post_state.source == pre_state.source
            &&& match decision {
                None => post_state == pre_state,
                Some(rect) => {
                    &&& post_state.current.rect == rect
                    &&& post_state.current.wf()
                    &&& post_state.current.cells@ == glyph_payload(
                        resized_model(pre_state.source, rect, background_color),
                        rect,
                    )
                    &&& post_state.hash == pre_state.source.hash
                },
            }
            &&& glyphs_written(pre, post, post_state.current.cells@, post_state.current.rect, area)
        }
    }

    /// After a reset the payload is empty, its rectangle blank and the
    /// fingerprint cleared, so the next render must encode.
    open spec fn reset_ens(pre_state: Self, post_state: Self) -> bool {
        &&& post_state.source == pre_state.source
        &&& post_state.current.cells@ == Seq::<(Rgb, Rgb)>::empty()
        &&& post_state.current.rect == (CellRect { x: 0, y: 0, width: 0, height: 0 })
        &&& post_state.hash == 0
    }

    fn rect(&self) -> CellRect {
        self.current.rect
    }

    fn render(
        &mut self,
        resize: &Resize,
        background_color: Option<Rgb>,
        area: CellRect,
        buf: &mut ratatui::buffer::Buffer,
    ) {
        if area.width == 0 || area.height == 0 {
            return ;
        }
        let force = self.source.hash != self.hash;
        match resize.resize(&self.source, self.current.rect, area, background_color, force) {
            Some((img, rect)) => {
                proof {
                    crate::geometry::lemma_fit_size_bounds(
                        self.source.desired.width as nat,
                        self.source.desired.height as nat,
                        area.width as nat,
                        area.height as nat,
                    );
                }
                let current = encode(&img, rect);
                self.current = current;
                self.hash = self.source.hash;
            },
            None => {},
        }
        self.current.render(area, buf);
    }

    fn reset(&mut self) {
        self.current = FixedHalfblocks::default();
        self.hash = 0;
    }
}

} // verus!
