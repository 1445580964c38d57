//! The raster image as this engine sees it: the decoded pixel buffer of the
//! image codec, carried opaquely, together with its dimensions as plain
//! values and a ghost model of its content, so that all geometry decisions
//! are made on numbers the verifier can reason about and every encoded
//! payload is tied to the image it came from.
//!
//! The pixel buffer itself comes from the `image` crate and is never
//! inspected here except through the trusted calls below. Their results are
//! deterministic functions of the decoded image — pixel layout, dimensions
//! and raw bytes — and are therefore named over the ghost model (see
//! [`Raster::model`]).

use vstd::prelude::*;

use crate::geometry::Rgb;
use image::GenericImageView;

verus! {

/// The image crate's decoded pixel buffer, carried opaquely.
#[verifier::external_type_specification]
#[verifier::external_body]
pub struct ExDynamicImage(image::DynamicImage);

/// The image crate's codec error, carried opaquely inside [`crate::EncodeError`].
#[verifier::external_type_specification]
#[verifier::external_body]
pub struct ExImageError(image::ImageError);

/// The raw pixel bytes of the image a model describes, as
/// `DynamicImage::as_bytes` returns them.
pub uninterp spec fn raw_bytes_of(model: Seq<u8>) -> Seq<u8>;

/// Whether PNG-serializing the image a model describes succeeds
/// (`DynamicImage::write_to` with the PNG format returns `Ok`).
pub uninterp spec fn png_ok(model: Seq<u8>) -> bool;

/// The PNG byte stream that serializing the image a model describes
/// produces, when it succeeds.
pub uninterp spec fn png_of(model: Seq<u8>) -> Seq<u8>;

/// The model of the image a model describes scaled to exactly
/// `nwidth` by `nheight` pixels (`DynamicImage::resize_exact`).
pub uninterp spec fn scaled_model(model: Seq<u8>, nwidth: u32, nheight: u32) -> Seq<u8>;

/// The model of the image a model describes scaled, aspect ratio
/// preserved, into the bounds `nwidth` by `nheight` (`DynamicImage::resize`).
pub uninterp spec fn fitted_model(model: Seq<u8>, nwidth: u32, nheight: u32) -> Seq<u8>;

/// The model of a `nwidth` by `nheight` image with every pixel set to the
/// given color (`ImageBuffer::from_pixel`).
pub uninterp spec fn fill_model(red: u8, green: u8, blue: u8, nwidth: u32, nheight: u32) -> Seq<
    u8,
>;

/// The model of the image obtained by drawing the image `top` describes
/// over the one `bottom` describes, at the top-left corner
/// (`imageops::overlay`).
pub uninterp spec fn overlay_model(bottom: Seq<u8>, top: Seq<u8>) -> Seq<u8>;

/// The red, green and blue channels of the pixel at `(x, y)` of the image a
/// model describes (`GenericImageView::get_pixel`).
pub uninterp spec fn pixel_of(model: Seq<u8>, x: u32, y: u32) -> (u8, u8, u8);

/// A decoded raster image together with its pixel dimensions and a ghost
/// model of its content.
///
/// The model stands for everything that determines the image's pixel data:
/// its pixel layout, its dimensions, and its raw bytes. It is never given a
/// concrete value; the trusted calls below relate their results to it, which
/// is sound because each of those results is a deterministic function of the
/// decoded image alone. The recorded dimensions are taken from the held
/// image when a `Raster` is built, and neither they, the model, nor the
/// image are ever written afterwards, so all three keep describing the same
/// image; the trusted pixel accessors lean on that to rule their panics out.
pub struct Raster {
    image: image::DynamicImage,
    width_px: u32,
    height_px: u32,
    model: Ghost<Seq<u8>>,
}

impl Raster {
    /// The width in pixels.
    pub closed spec fn width_px(&self) -> u32 {
        self.width_px
    }

    /// The height in pixels.
    pub closed spec fn height_px(&self) -> u32 {
        self.height_px
    }

    /// The ghost model of the image's content.
    pub closed spec fn model(&self) -> Seq<u8> {
        self.model@
    }

    /// Relies on image's `DynamicImage::width` and `DynamicImage::height`:
    /// takes ownership of a decoded image and records its dimensions. The
    /// model field stands for the image's content from here on.
    #[verifier::external_body]
    pub fn new(image: image::DynamicImage) -> (r: Raster) {
        let width_px = image.width();
        let height_px = image.height();
        Raster { image, width_px, height_px, model: Ghost(Seq::empty()) }
    }

    /// The width in pixels.
    pub fn width(&self) -> (w: u32)
        ensures
            w == self.width_px(),
    {
        self.width_px
    }

    /// The height in pixels.
    pub fn height(&self) -> (h: u32)
        ensures
            h == self.height_px(),
    {
        self.height_px
    }

    /// Relies on image's `DynamicImage::as_bytes`: the raw bytes of the
    /// pixel buffer, copied out. The same image always hands back the same
    /// bytes.
    #[verifier::external_body]
    pub fn bytes(&self) -> (r: Vec<u8>)
        ensures
            r@ == raw_bytes_of(self.model()),
    {
        self.image.as_bytes().to_vec()
    }

    /// Relies on image's `DynamicImage::resize_exact`, whose documentation
    /// says that `nwidth` and `nheight` are the new image's dimensions; the
    /// nearest-neighbor scaling is a function of the source image alone.
    #[verifier::external_body]
    pub fn resize_exact(&self, nwidth: u32, nheight: u32) -> (r: Raster)
        requires
            self.width_px() >= 1,
            self.height_px() >= 1,
            nwidth >= 1,
            nheight >= 1,
        ensures
            r.width_px() == nwidth,
            r.height_px() == nheight,
            r.model() == scaled_model(self.model(), nwidth, nheight),
    {
        let image = self.image.resize_exact(nwidth, nheight, image::imageops::FilterType::Nearest);
        Raster { image, width_px: nwidth, height_px: nheight, model: Ghost(Seq::empty()) }
    }

    /// Relies on image's `DynamicImage::resize`, whose documentation says the
    /// result is scaled, aspect ratio preserved, to the maximum size that
    /// fits within the bounds `nwidth` by `nheight`; its `resize_dimensions`
    /// helper clamps each scaled dimension to at least one pixel, and the
    /// whole computation is a function of the source image alone.
    #[verifier::external_body]
    pub fn resize_fit(&self, nwidth: u32, nheight: u32) -> (r: Raster)
        requires
            self.width_px() >= 1,
            self.height_px() >= 1,
            nwidth >= 1,
            nheight >= 1,
        ensures
            1 <= r.width_px() <= nwidth,
            1 <= r.height_px() <= nheight,
            r.model() == fitted_model(self.model(), nwidth, nheight),
    {
        let image = self.image.resize(nwidth, nheight, image::imageops::FilterType::Nearest);
        let width_px = image.width();
        let height_px = image.height();
        Raster { image, width_px, height_px, model: Ghost(Seq::empty()) }
    }

    /// Relies on image's `ImageBuffer::from_pixel`: a new image of the given
    /// dimensions with every pixel set to the given color.
    #[verifier::external_body]
    pub fn filled(nwidth: u32, nheight: u32, color: Rgb) -> (r: Raster)
        requires
            nwidth >= 1,
            nheight >= 1,
        ensures
            r.width_px() == nwidth,
            r.height_px() == nheight,
            r.model() == fill_model(color.r, color.g, color.b, nwidth, nheight),
    {
        let pixel = image::Rgb([color.r, color.g, color.b]);
        let buffer = image::ImageBuffer::from_pixel(nwidth, nheight, pixel);
        Raster {
            image: image::DynamicImage::ImageRgb8(buffer),
            width_px: nwidth,
            height_px: nheight,
            model: Ghost(Seq::empty()),
        }
    }

    /// Relies on image's `imageops::overlay`: draws `top` onto `self` at the
    /// top-left corner, clipped to `self`; the dimensions of `self` do not
    /// change, and the result depends on the two images alone.
    #[verifier::external_body]
    pub fn overlay(&mut self, top: &Raster)
        ensures
            final(self).width_px() == old(self).width_px(),
            final(self).height_px() == old(self).height_px(),
            final(self).model() == overlay_model(old(self).model(), top.model()),
    {
        image::imageops::overlay(&mut self.image, &top.image, 0, 0);
    }

    /// Relies on image's `GenericImageView::get_pixel`, which panics only
    /// outside the image bounds, and on the recorded dimensions being the
    /// held image's (see the type's invariant note). Returns the red, green
    /// and blue channels of the pixel at `(x, y)`, a function of the image
    /// alone.
    #[verifier::external_body]
    pub fn pixel(&self, x: u32, y: u32) -> (r: Rgb)
        requires
            x < self.width_px(),
            y < self.height_px(),
        ensures
            (r.r, r.g, r.b) == pixel_of(self.model(), x, y),
    {
        let p = self.image.get_pixel(x, y);
        Rgb { r: p[0], g: p[1], b: p[2] }
    }

    /// Relies on image's `DynamicImage::write_to` with the PNG format:
    /// serializes the pixel buffer as a PNG byte stream, or reports the
    /// codec's error, which is returned unchanged. Whether it succeeds, and
    /// which bytes it produces, are functions of the image alone: the PNG
    /// encoder reads no clock, environment or global state.
    #[verifier::external_body]
    pub fn png_bytes(&self) -> (r: Result<Vec<u8>, image::ImageError>)
        ensures
            r is Ok <==> png_ok(self.model()),
            r matches Ok(b) ==> b@ == png_of(self.model()),
    {
        let mut cursor: std::io::Cursor<Vec<u8>> = std::io::Cursor::new(Vec::new());
        self.image.write_to(&mut cursor, image::ImageFormat::Png)?;
        Ok(cursor.into_inner())
    }
}

/// Relies on image's `<DynamicImage as Clone>::clone`: an independent copy
/// of the same pixel buffer, so the copy keeps matching the recorded
/// dimensions and model of the original.
#[verifier::external_body]
fn image_clone(image: &image::DynamicImage) -> image::DynamicImage {
    image.clone()
}

impl Clone for Raster {
    /// An observably equal copy: same dimensions, same content model, and a
    /// clone of the pixel buffer.
    fn clone(&self) -> (r: Self)
        ensures
            r.width_px() == self.width_px(),
            r.height_px() == self.height_px(),
            r.model() == self.model(),
    {
        Raster {
            image: image_clone(&self.image),
            width_px: self.width_px,
            height_px: self.height_px,
            model: self.model,
        }
    }
}

} // verus!
