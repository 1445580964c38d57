//! A minimal inline-image widget: raw encoded image bytes with a fixed
//! declared cell size, rendered straight into the grid under the
//! single-writer-cell rule. Useful when the payload geometry is known up
//! front and no resize policy is wanted.

use vstd::prelude::*;

use crate::geometry::CellRect;
use crate::grid::grid_area;
use crate::grid::grid_cells;
use crate::grid::payload_written;
use crate::grid::rect_in_grid;
use crate::grid::render_payload;
use crate::protocol::iterm::iterm_payload;
use crate::protocol::iterm::iterm_sequence;

verus! {

/// An already-encoded image (any still-image byte format the terminal
/// accepts) shown at a fixed cell size.
#[derive(Clone)]
pub struct Im {
    /// The declared width in cells.
    pub width: u16,
    /// The declared height in cells.
    pub height: u16,
    /// The encoded image bytes to embed.
    pub img_bytes: Vec<u8>,
}

impl Im {
    /// Build the inline-images escape sequence for the held bytes and write
    /// it into the grid at `area`: the payload into `area`'s top-left cell,
    /// every other covered cell suppressed, nothing outside touched. A
    /// degenerate area writes nothing.
    pub fn render(&self, area: CellRect, buf: &mut ratatui::buffer::Buffer)
        requires
            !area.is_degenerate() ==> rect_in_grid(area, grid_area(*old(buf))),
        ensures
            grid_area(*final(buf)) == grid_area(*old(buf)),
            area.is_degenerate() ==> grid_cells(*final(buf)) == grid_cells(*old(buf)),
            !area.is_degenerate() ==> payload_written(
                grid_cells(*old(buf)),
                grid_cells(*final(buf)),
                iterm_payload(self.img_bytes@, self.width as u64, self.height as u64),
                area,
            ),
    {
        if area.width == 0 || area.height == 0 {
            return ;
        }
        let data = iterm_sequence(&self.img_bytes, self.width as u64, self.height as u64);
        proof {
            assert(data@ == iterm_payload(
                self.img_bytes@,
                self.width as u64,
                self.height as u64,
            ));
        }
        render_payload(data.as_str(), area, buf);
    }
}

} // verus!
