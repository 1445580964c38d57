//! A terminal-graphics rendering engine: it turns a decoded raster image and a
//! target character-cell region into the escape-sequence payload that displays
//! the image inline, caches that payload, and re-encodes only when the image
//! content or the target geometry actually changed.

use vstd::prelude::*;

pub mod fingerprint;
pub mod geometry;
pub mod grid;
pub mod im;
pub mod laws;
pub mod protocol;
pub mod raster;
pub mod resize;

pub use geometry::CellRect;
pub use geometry::FontSize;
pub use geometry::Rgb;
pub use im::Im;
pub use protocol::EncodeError;
pub use protocol::ImageSource;
pub use protocol::Protocol;
pub use protocol::ResizeProtocol;
pub use raster::Raster;
pub use resize::Resize;

verus! {

} // verus!
