//! Protocol backends for the widgets: the shared image source, the error an
//! encoder can raise, and the two protocol interfaces — the one-shot
//! encode-once protocol and the resize-aware stateful protocol.

use vstd::prelude::*;

use crate::fingerprint::content_fingerprint;
use crate::fingerprint::fnv1a;
use crate::geometry::CellRect;
use crate::geometry::FontSize;
use crate::geometry::Rgb;
use crate::geometry::desired_rect;
use crate::geometry::round_pixel_size_to_cells;
use crate::grid::CellView;
use crate::grid::grid_area;
use crate::grid::grid_cells;
use crate::grid::rect_in_grid;
use crate::raster::Raster;
use crate::raster::raw_bytes_of;
use crate::resize::Resize;
use crate::resize::resized_model;

pub mod iterm;
pub mod halfblocks;

verus! {

/// The failure an encoder raises when serializing the image fails. The
/// render loop recovers from it by keeping the last valid payload.
#[derive(Debug)]
pub struct EncodeError {
    /// The serialization failure as the image codec reported it.
    pub source: image::ImageError,
}

/// Image source for the resize-aware protocols.
///
/// A resize-aware protocol resizes the source to its state when the
/// available area changes. A one-shot protocol needs it only once.
pub struct ImageSource {
    /// The original image without resizing.
    pub image: Raster,
    /// The font size of the terminal.
    pub font_size: FontSize,
    /// The cell area that the image covers, but not necessarily fills.
    pub desired: CellRect,
    /// The content fingerprint over the raw pixel bytes.
    pub hash: u64,
}

impl ImageSource {
    /// The desired rectangle is the one derived from the held image's pixel
    /// dimensions and the font size; it is computed once at construction and
    /// never mutated.
    pub open spec fn wf(self) -> bool {
        self.desired == desired_rect(
            self.image.width_px() as nat,
            self.image.height_px() as nat,
            self.font_size,
        )
    }

    /// Create a new image source: record the image, derive its cell
    /// footprint from the font size, and fingerprint its raw pixel bytes.
    pub fn new(image: image::DynamicImage, font_size: FontSize) -> (r: ImageSource)
        ensures
            r.font_size == font_size,
            r.wf(),
            r.hash == fnv1a(raw_bytes_of(r.image.model())),
    {
        let raster = Raster::new(image);
        let desired = round_pixel_size_to_cells(raster.width(), raster.height(), font_size);
        let bytes = raster.bytes();
        let hash = content_fingerprint(bytes.as_slice());
        ImageSource { image: raster, font_size, desired, hash }
    }
}

impl Clone for ImageSource {
    /// A copy sharing no storage but observably the same: equal model
    /// fields, and a clone of the pixel buffer with equal dimensions.
    fn clone(&self) -> (r: Self)
        ensures
            r.image.width_px() == self.image.width_px(),
            r.image.height_px() == self.image.height_px(),
            r.image.model() == self.image.model(),
            r.font_size == self.font_size,
            r.desired == self.desired,
            r.hash == self.hash,
            self.wf() ==> r.wf(),
    {
        ImageSource {
            image: self.image.clone(),
            font_size: self.font_size,
            desired: self.desired,
            hash: self.hash,
        }
    }
}

/// The rectangle a one-shot encode covers: what the resize policy chooses
/// for the target area, or the source's desired footprint when the policy
/// sees nothing to do.
pub open spec fn fixed_rect(resize: Resize, source: ImageSource, area: CellRect) -> CellRect {
    match resize.needs_resize_spec(
        source,
        CellRect { x: 0, y: 0, width: 0, height: 0 },
        area,
        false,
    ) {
        Some(rect) => rect,
        None => source.desired,
    }
}

/// The content model of the raster a one-shot encode serializes: the
/// resize policy's product for the target area, or the unresized source
/// image when the policy sees nothing to do.
pub open spec fn fixed_model(
    resize: Resize,
    source: ImageSource,
    background_color: Option<Rgb>,
    area: CellRect,
) -> Seq<u8> {
    match resize.needs_resize_spec(
        source,
        CellRect { x: 0, y: 0, width: 0, height: 0 },
        area,
        false,
    ) {
        Some(rect) => resized_model(source, rect, background_color),
        None => source.image.model(),
    }
}

/// A fixed image protocol: encoded once, rendered many times, immutable
/// after construction.
pub trait Protocol {
    /// Well-formedness of the stored payload, as the payload type's
    /// constructors establish it.
    spec fn wf(&self) -> bool;

    /// What a render call into `area` did to the grid cells, for this
    /// payload type.
    spec fn render_ens(
        &self,
        area: CellRect,
        pre: Map<(u16, u16), CellView>,
        post: Map<(u16, u16), CellView>,
    ) -> bool;

    /// Write the stored payload into the grid at `area`. A degenerate area
    /// writes nothing; no cell outside the grid is addressed.
    fn render(&self, area: CellRect, buf: &mut ratatui::buffer::Buffer)
        requires
            self.wf(),
            !area.is_degenerate() ==> rect_in_grid(area, grid_area(*old(buf))),
        ensures
            grid_area(*final(buf)) == grid_area(*old(buf)),
            area.is_degenerate() ==> grid_cells(*final(buf)) == grid_cells(*old(buf)),
            self.render_ens(area, grid_cells(*old(buf)), grid_cells(*final(buf))),
    ;
}

/// A resizing image protocol: holds the last encoded payload and its
/// validity key, re-encodes only when the content fingerprint or the target
/// geometry changed, and renders the cached payload otherwise.
pub trait ResizeProtocol: Sized {
    /// Well-formedness of the cached payload, as the state's constructors
    /// establish and its methods preserve it.
    spec fn wf(&self) -> bool;

    /// The rectangle the cached payload was encoded for.
    spec fn cached_rect(&self) -> CellRect;

    /// What a render call did to the state and to the grid cells.
    spec fn render_ens(
        pre_state: Self,
        post_state: Self,
        resize: Resize,
        background_color: Option<Rgb>,
        area: CellRect,
        pre: Map<(u16, u16), CellView>,
        post: Map<(u16, u16), CellView>,
    ) -> bool;

    /// The relation between the state before and after `reset`.
    spec fn reset_ens(pre_state: Self, post_state: Self) -> bool;

    /// The rectangle the cached payload was encoded for.
    fn rect(&self) -> (r: CellRect)
        ensures
            r == self.cached_rect(),
    ;

    /// Render into `area`: re-encode if the content fingerprint or the
    /// geometry demands it, then write the (possibly refreshed) cached
    /// payload into the grid. A degenerate area is a complete no-op: the
    /// state is not mutated and no cell is written.
    fn render(
        &mut self,
        resize: &Resize,
        background_color: Option<Rgb>,
        area: CellRect,
        buf: &mut ratatui::buffer::Buffer,
    )
        requires
            old(self).wf(),
            !area.is_degenerate() ==> rect_in_grid(area, grid_area(*old(buf))),
        ensures
            final(self).wf(),
            grid_area(*final(buf)) == grid_area(*old(buf)),
            area.is_degenerate() ==> *final(self) == *old(self) && grid_cells(*final(buf))
                == grid_cells(*old(buf)),
            Self::render_ens(
                *old(self),
                *final(self),
                *resize,
                background_color,
                area,
                grid_cells(*old(buf)),
                grid_cells(*final(buf)),
            ),
    ;

    /// Clear the cached payload and fingerprint, forcing a full re-encode on
    /// the next render.
    fn reset(&mut self)
        ensures
            final(self).wf(),
            Self::reset_ens(*old(self), *final(self)),
    ;
}

} // verus!
