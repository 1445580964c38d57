//! The resize policy: the pure decision whether a re-render is needed for a
//! target area, and the production of the raster that covers the chosen
//! rectangle.

use vstd::prelude::*;

use crate::geometry::CellRect;
use crate::geometry::Rgb;
use crate::geometry::fit_rect;
use crate::geometry::fit_size_cells;
use crate::protocol::ImageSource;
use crate::raster::Raster;
use crate::raster::fill_model;
use crate::raster::fitted_model;
use crate::raster::overlay_model;

verus! {

/// The content model of the raster a re-render for `rect` produces: the
/// source image scaled, aspect ratio preserved, into the rectangle's pixel
/// extent — drawn over a background-colored pad when a background is given.
pub open spec fn resized_model(
    source: ImageSource,
    rect: CellRect,
    background_color: Option<Rgb>,
) -> Seq<u8> {
    let tw = cells_to_px(rect.width, source.font_size.0);
    let th = cells_to_px(rect.height, source.font_size.1);
    match background_color {
        Some(bg) => overlay_model(
            fill_model(bg.r, bg.g, bg.b, tw, th),
            fitted_model(source.image.model(), tw, th),
        ),
        None => fitted_model(source.image.model(), tw, th),
    }
}

/// One pixel per cell column and `font_px` pixels per cell otherwise: the
/// pixel extent of `cells` cells, never below one pixel so that a raster of
/// that extent exists.
pub open spec fn cells_to_px(cells: u16, font_px: u16) -> u32 {
    if cells * font_px == 0 {
        1u32
    } else {
        (cells * font_px) as u32
    }
}

/// The resize policy. The one policy is `Fit`: preserve the aspect ratio and
/// fit within the available cells.
#[derive(Clone, Copy, PartialEq, Eq, Structural, Debug)]
pub enum Resize {
    Fit,
}

impl Resize {
    /// The decision at the heart of the policy: `None` when no re-render is
    /// needed — the target area is degenerate, the image is empty, or the
    /// fitted rectangle is the one already rendered and no re-render is
    /// forced — and otherwise the rectangle that a re-render covers.
    /// `force` overrides only the geometry comparison: an empty image or a
    /// degenerate footprint has nothing to render, so it stays `None` even
    /// under `force`.
    pub open spec fn needs_resize_spec(
        self,
        source: ImageSource,
        current: CellRect,
        area: CellRect,
        force: bool,
    ) -> Option<CellRect> {
        if area.is_degenerate() || source.image.width_px() == 0 || source.image.height_px() == 0
            || source.desired.is_degenerate() {
            None
        } else {
            let rect = fit_rect(source.desired, area);
            if !force && rect == current {
                None
            } else {
                Some(rect)
            }
        }
    }

    /// Decide whether a re-render is needed, and for which rectangle.
    pub fn needs_resize(
        &self,
        source: &ImageSource,
        current: CellRect,
        area: CellRect,
        force: bool,
    ) -> (r: Option<CellRect>)
        ensures
            r == self.needs_resize_spec(*source, current, area, force),
    {
        if area.width == 0 || area.height == 0 || source.image.width() == 0
            || source.image.height() == 0 || source.desired.width == 0
            || source.desired.height == 0 {
            None
        } else {
            let (w, h) = fit_size_cells(
                source.desired.width,
                source.desired.height,
                area.width,
                area.height,
            );
            let rect = CellRect { x: 0, y: 0, width: w, height: h };
            if !force && rect == current {
                None
            } else {
                Some(rect)
            }
        }
    }

    /// Decide, and when a re-render is needed produce the raster for it:
    /// the image scaled, aspect ratio preserved, into the pixel extent of the
    /// chosen rectangle; when a background color is given the margin the
    /// scaled image leaves inside that extent is padded with it.
    ///
    /// `force` is honored unconditionally: with it the previously rendered
    /// rectangle never suppresses the re-render. A degenerate `area` yields
    /// `None` without looking at anything else.
    pub fn resize(
        &self,
        source: &ImageSource,
        current: CellRect,
        area: CellRect,
        background_color: Option<Rgb>,
        force: bool,
    ) -> (r: Option<(Raster, CellRect)>)
        ensures
            match r {
                None => self.needs_resize_spec(*source, current, area, force) is None,
                Some(pair) => {
                    &&& self.needs_resize_spec(*source, current, area, force) == Some(pair.1)
                    &&& pair.0.model() == resized_model(*source, pair.1, background_color)
                    &&& pair.0.width_px() >= 1
                    &&& pair.0.height_px() >= 1
                    &&& pair.0.width_px() <= cells_to_px(pair.1.width, source.font_size.0)
                    &&& pair.0.height_px() <= cells_to_px(pair.1.height, source.font_size.1)
                    &&& background_color is Some ==> pair.0.width_px() == cells_to_px(
                        pair.1.width,
                        source.font_size.0,
                    ) && pair.0.height_px() == cells_to_px(pair.1.height, source.font_size.1)
                },
            },
    {
        match self.needs_resize(source, current, area, force) {
            None => None,
            Some(rect) => {
                let tw: u32 = to_px(rect.width, source.font_size.0);
                let th: u32 = to_px(rect.height, source.font_size.1);
                let scaled = source.image.resize_fit(tw, th);
                match background_color {
                    Some(bg) => {
                        let mut padded = Raster::filled(tw, th, bg);
                        padded.overlay(&scaled);
                        Some((padded, rect))
                    },
                    None => Some((scaled, rect)),
                }
            },
        }
    }
}

/// The pixel extent of `cells` cells under a font dimension, clamped to at
/// least one pixel.
fn to_px(cells: u16, font_px: u16) -> (r: u32)
    ensures
        r == cells_to_px(cells, font_px),
        r >= 1,
{
    proof {
        assert((cells as int) * (font_px as int) <= 0xffff * 0xffff) by (nonlinear_arith)
            requires
                cells <= 0xffff,
                font_px <= 0xffff,
        ;
    }
    let px: u32 = (cells as u32) * (font_px as u32);
    if px == 0 {
        1
    } else {
        px
    }
}

} // verus!
