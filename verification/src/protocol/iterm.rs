//! The inline-images protocol: a byte-stream protocol whose payload is an
//! OSC 1337 escape sequence embedding the image as base64-encoded PNG,
//! tagged with the cell dimensions it was encoded for. The payload lands in
//! exactly one grid cell; the rest of the covered area is suppressed.

use vstd::prelude::*;

use crate::geometry::CellRect;
use crate::geometry::Rgb;
use crate::grid::CellView;
use crate::grid::payload_written;
use crate::grid::render_payload;
use crate::protocol::EncodeError;
use crate::protocol::ImageSource;
use crate::protocol::Protocol;
use crate::protocol::ResizeProtocol;
use crate::protocol::fixed_model;
use crate::protocol::fixed_rect;
use crate::raster::Raster;
use crate::raster::png_of;
use crate::raster::png_ok;
use crate::resize::Resize;
use crate::resize::resized_model;

verus! {

/// One decimal digit as a character.
pub open spec fn dec_digit(d: nat) -> char {
    ((48 + (d % 10)) as u8) as char
}

/// The decimal notation of a number, most significant digit first, no
/// leading zeroes, `0` written as one digit.
pub open spec fn dec_digits(n: nat) -> Seq<char>
    decreases n,
{
    if n < 10 {
        seq![dec_digit(n)]
    } else {
        dec_digits(n / 10) + seq![dec_digit(n % 10)]
    }
}

/// The standard base64 notation (with padding) of a byte sequence, as the
/// base64 crate's standard engine produces it.
pub uninterp spec fn base64_of(bytes: Seq<u8>) -> Seq<char>;

/// The inline-images escape sequence for a byte payload declared as `width`
/// by `height` cells, aspect ratio left to the declared cells, marked
/// inline.
pub open spec fn iterm_payload(bytes: Seq<u8>, width: u64, height: u64) -> Seq<char> {
    "\x1b]1337;File=size="@ + dec_digits(bytes.len()) + ";width="@ + dec_digits(width as nat)
        + ";height="@ + dec_digits(height as nat) + ";preserve_aspect_ratio=0;inline=1:"@
        + base64_of(bytes) + "\u{7}"@
}

/// True for the characters the decimal notation uses.
pub open spec fn is_digit(c: char) -> bool {
    48 <= c as int <= 57
}

/// The length of the run of digits a sequence starts with.
pub open spec fn digit_run_len(s: Seq<char>) -> nat
    decreases s.len(),
{
    if s.len() > 0 && is_digit(s[0]) {
        1 + digit_run_len(s.subrange(1, s.len() as int))
    } else {
        0
    }
}

/// The number a sequence of decimal digits spells.
pub open spec fn digits_to_nat(s: Seq<char>) -> nat
    decreases s.len(),
{
    if s.len() == 0 {
        0
    } else {
        digits_to_nat(s.drop_last()) * 10 + (if is_digit(s.last()) {
            (s.last() as int - 48) as nat
        } else {
            0
        })
    }
}

/// The number spelled by the digit run starting at index `i` of `p`.
pub open spec fn number_at(p: Seq<char>, i: int) -> nat {
    digits_to_nat(p.subrange(i, i + digit_run_len(p.subrange(i, p.len() as int))))
}

/// Parse the width and height an inline-images payload declares: the digit
/// runs after the `size` field's `;width=` and `;height=` markers.
pub open spec fn declared_rect_of(p: Seq<char>) -> (nat, nat) {
    let hdr = "\x1b]1337;File=size="@.len() as int;
    let size_digits = digit_run_len(p.subrange(hdr, p.len() as int)) as int;
    let wpos = hdr + size_digits + ";width="@.len() as int;
    let width_digits = digit_run_len(p.subrange(wpos, p.len() as int)) as int;
    let hpos = wpos + width_digits + ";height="@.len() as int;
    (number_at(p, wpos), number_at(p, hpos))
}

/// Every character of a decimal notation is a digit, and there is at least
/// one.
proof fn lemma_dec_digits_are_digits(n: nat)
    ensures
        dec_digits(n).len() >= 1,
        forall|i: int| 0 <= i < dec_digits(n).len() ==> is_digit(#[trigger] dec_digits(n)[i]),
    decreases n,
{
    if n >= 10 {
        lemma_dec_digits_are_digits(n / 10);
    }
}

/// The digit run of a sequence that starts with digits and then hits a
/// non-digit is exactly those digits.
proof fn lemma_digit_run_of_concat(d: Seq<char>, rest: Seq<char>)
    requires
        forall|i: int| 0 <= i < d.len() ==> is_digit(#[trigger] d[i]),
        rest.len() == 0 || !is_digit(rest[0]),
    ensures
        digit_run_len(d + rest) == d.len(),
    decreases d.len(),
{
    if d.len() == 0 {
        assert(d + rest =~= rest);
    } else {
        assert((d + rest).subrange(1, (d + rest).len() as int) =~= d.subrange(1, d.len() as int)
            + rest);
        lemma_digit_run_of_concat(d.subrange(1, d.len() as int), rest);
    }
}

/// Reading a decimal notation back gives the number it was written from.
proof fn lemma_digits_to_nat_of_dec(n: nat)
    ensures
        digits_to_nat(dec_digits(n)) == n,
    decreases n,
{
    assert(dec_digit(n % 10) as int == 48 + (n % 10));
    assert(is_digit(dec_digit(n % 10)));
    if n < 10 {
        assert(dec_digits(n).drop_last() =~= Seq::<char>::empty());
        assert(dec_digits(n).last() == dec_digit(n));
        assert(n % 10 == n);
        assert(digits_to_nat(Seq::<char>::empty()) == 0);
        assert(digits_to_nat(dec_digits(n)) == 0 * 10 + (dec_digit(n) as int - 48));
    } else {
        lemma_digits_to_nat_of_dec(n / 10);
        assert(dec_digits(n).drop_last() =~= dec_digits(n / 10));
        assert(dec_digits(n).last() == dec_digit(n % 10));
        assert(digits_to_nat(dec_digits(n)) == digits_to_nat(dec_digits(n / 10)) * 10 + (dec_digit(
            n % 10,
        ) as int - 48));
        assert(digits_to_nat(dec_digits(n)) == (n / 10) * 10 + n % 10);
        assert((n / 10) * 10 + n % 10 == n) by (nonlinear_arith);
    }
}

/// The number at a position where a decimal notation is followed by a
/// non-digit is the number it was written from.
proof fn lemma_number_at(p: Seq<char>, i: int, n: nat, rest: Seq<char>)
    requires
        0 <= i <= p.len(),
        p.subrange(i, p.len() as int) == dec_digits(n) + rest,
        rest.len() == 0 || !is_digit(rest[0]),
    ensures
        number_at(p, i) == n,
{
    lemma_dec_digits_are_digits(n);
    lemma_digit_run_of_concat(dec_digits(n), rest);
    assert(p.subrange(i, i + dec_digits(n).len()) =~= dec_digits(n));
    lemma_digits_to_nat_of_dec(n);
}

/// The round trip between encoding and parsing: an inline-images payload
/// declares exactly the width and height it was encoded with.
pub proof fn lemma_declared_rect_round_trip(bytes: Seq<u8>, width: u64, height: u64)
    ensures
        declared_rect_of(iterm_payload(bytes, width, height)) == (width as nat, height as nat),
{
    let p = iterm_payload(bytes, width, height);
    reveal_strlit("\x1b]1337;File=size=");
    reveal_strlit(";width=");
    reveal_strlit(";height=");
    reveal_strlit(";preserve_aspect_ratio=0;inline=1:");
    reveal_strlit("\u{7}");
    let hdr = "\x1b]1337;File=size="@.len() as int;
    let size = dec_digits(bytes.len());
    let tail_w = ";width="@ + dec_digits(width as nat) + ";height="@ + dec_digits(height as nat)
        + ";preserve_aspect_ratio=0;inline=1:"@ + base64_of(bytes) + "\u{7}"@;
    assert(p.subrange(hdr, p.len() as int) =~= size + tail_w);
    lemma_dec_digits_are_digits(bytes.len());
    assert(!is_digit(tail_w[0]));
    lemma_digit_run_of_concat(size, tail_w);

    let wpos = hdr + size.len() + ";width="@.len() as int;
    let tail_h = ";height="@ + dec_digits(height as nat) + ";preserve_aspect_ratio=0;inline=1:"@
        + base64_of(bytes) + "\u{7}"@;
    assert(p.subrange(wpos, p.len() as int) =~= dec_digits(width as nat) + tail_h);
    assert(!is_digit(tail_h[0]));
    lemma_number_at(p, wpos, width as nat, tail_h);
    lemma_dec_digits_are_digits(width as nat);
    lemma_digit_run_of_concat(dec_digits(width as nat), tail_h);

    let hpos = wpos + dec_digits(width as nat).len() + ";height="@.len() as int;
    let tail_p = ";preserve_aspect_ratio=0;inline=1:"@ + base64_of(bytes) + "\u{7}"@;
    assert(p.subrange(hpos, p.len() as int) =~= dec_digits(height as nat) + tail_p);
    assert(!is_digit(tail_p[0]));
    lemma_number_at(p, hpos, height as nat, tail_p);
}

/// Relies on iterm2img's builder (`from_bytes` with `inline`, `width`,
/// `height`, `preserve_aspect_ratio`, then `build`): the result is the OSC
/// 1337 File sequence with exactly these fields in this order — size, the
/// declared width and height in cells, the aspect-ratio flag off, the
/// inline flag on — followed by the bytes in base64.
#[verifier::external_body]
pub(crate) fn iterm_sequence(bytes: &Vec<u8>, width: u64, height: u64) -> (r: String)
    ensures
        r@ == "\x1b]1337;File=size="@ + dec_digits(bytes@.len()) + ";width="@ + dec_digits(
            width as nat,
        ) + ";height="@ + dec_digits(height as nat) + ";preserve_aspect_ratio=0;inline=1:"@
            + base64_of(bytes@) + "\u{7}"@,
{
    iterm2img::from_bytes(bytes.clone())
        .inline(true)
        .width(width)
        .height(height)
        .preserve_aspect_ratio(false)
        .build()
}

/// Encode an image for the inline-images protocol: serialize it as PNG and
/// wrap the bytes in the escape sequence declaring `width` by `height`
/// cells. Fails exactly when the PNG serialization fails, handing the
/// codec's error through; a success embeds exactly the image's PNG bytes,
/// so equal images at equal declared dimensions encode identically.
pub fn encode(img: &Raster, width: u64, height: u64) -> (r: Result<String, EncodeError>)
    ensures
        r is Ok <==> png_ok(img.model()),
        r matches Ok(data) ==> data@ == iterm_payload(png_of(img.model()), width, height),
{
    match img.png_bytes() {
        Ok(bytes) => {
            let data = iterm_sequence(&bytes, width, height);
            proof {
                assert(data@ == iterm_payload(bytes@, width, height));
            }
            Ok(data)
        },
        Err(source) => Err(EncodeError { source }),
    }
}

/// A fixed inline-images payload: encoded once for one rectangle, rendered
/// many times.
pub struct FixedIterm {
    /// The escape sequence to place into the single writer cell.
    pub data: String,
    /// The rectangle the payload was encoded for.
    pub rect: CellRect,
}

impl Default for FixedIterm {
    /// The empty payload for the empty rectangle.
    fn default() -> (r: Self)
        ensures
            r.data@ == Seq::<char>::empty(),
            r.rect == (CellRect { x: 0, y: 0, width: 0, height: 0 }),
    {
        FixedIterm { data: String::new(), rect: CellRect::zero() }
    }
}

impl Clone for FixedIterm {
    /// An observably equal copy.
    fn clone(&self) -> (r: Self)
        ensures
            r.data@ == self.data@,
            r.rect == self.rect,
    {
        FixedIterm { data: self.data.clone(), rect: self.rect }
    }
}

impl FixedIterm {
    /// Encode a source once for the given area: run the resize policy from
    /// a blank previous rectangle, encode the produced raster — or the
    /// unresized source image when the policy sees nothing to do — and keep
    /// the payload together with the rectangle it was encoded for. Fails
    /// exactly when PNG-serializing that raster fails, handing the codec's
    /// error through.
    pub fn from_source(
        source: &ImageSource,
        resize: Resize,
        background_color: Option<Rgb>,
        area: CellRect,
    ) -> (r: Result<FixedIterm, EncodeError>)
        ensures
            r is Ok <==> png_ok(fixed_model(resize, *source, background_color, area)),
            r matches Ok(fixed) ==> {
                &&& fixed.rect == fixed_rect(resize, *source, area)
                &&& fixed.data@ == iterm_payload(
                    png_of(fixed_model(resize, *source, background_color, area)),
                    fixed.rect.width as u64,
                    fixed.rect.height as u64,
                )
            },
    {
        let resized = resize.resize(source, CellRect::zero(), area, background_color, false);
        let (img, rect) = match resized {
            Some(pair) => pair,
            None => (source.image.clone(), source.desired),
        };
        match encode(&img, rect.width as u64, rect.height as u64) {
            Ok(data) => Ok(FixedIterm { data, rect }),
            Err(err) => Err(err),
        }
    }
}

impl Protocol for FixedIterm {
    /// Any string is a renderable payload.
    open spec fn wf(&self) -> bool {
        true
    }

    /// Nothing happens for a degenerate area; otherwise the stored payload
    /// is written under the single-writer-cell rule.
    open spec fn render_ens(
        &self,
        area: CellRect,
        pre: Map<(u16, u16), CellView>,
        post: Map<(u16, u16), CellView>,
    ) -> bool {
        if area.is_degenerate() {
            post == pre
        } else {
            payload_written(pre, post, self.data@, area)
        }
    }

    fn render(&self, area: CellRect, buf: &mut ratatui::buffer::Buffer) {
        if area.width == 0 || area.height == 0 {
            return ;
        }
        render_payload(self.data.as_str(), area, buf);
    }
}

/// The resize-aware state of the inline-images protocol: the shared source,
/// the last encoded payload, and the fingerprint that payload was encoded
/// from.
pub struct ItermState {
    /// The image source the payload is encoded from.
    pub source: ImageSource,
    /// The last encoded payload and its rectangle.
    pub current: FixedIterm,
    /// The content fingerprint `current` was encoded from. The payload is
    /// valid for the current content exactly when this equals the source's
    /// fingerprint.
    pub hash: u64,
}

impl ItermState {
    /// A fresh state holding the source and an empty payload, so that the
    /// first render must encode.
    pub fn new(source: ImageSource) -> (r: ItermState)
        ensures
            r.source == source,
            r.current.data@ == Seq::<char>::empty(),
            r.current.rect == (CellRect { x: 0, y: 0, width: 0, height: 0 }),
            r.hash == 0,
    {
        ItermState { source, current: FixedIterm::default(), hash: 0 }
    }
}

impl ResizeProtocol for ItermState {
    /// Any cached string is a renderable payload.
    open spec fn wf(&self) -> bool {
        true
    }

    open spec fn cached_rect(&self) -> CellRect {
        self.current.rect
    }

    /// The render state machine. A content-fingerprint mismatch forces the
    /// resize policy; when the policy asks for a re-render, the engine
    /// encodes the policy's product: if its PNG serialization succeeds the
    /// new payload — the escape sequence embedding exactly that PNG — and
    /// the source's fingerprint are installed, and if it fails the previous
    /// state is left untouched. Either way the cached payload is then
    /// written under the single-writer-cell rule.
    open spec fn render_ens(
        pre_state: Self,
        post_state: Self,
        resize: Resize,
        background_color: Option<Rgb>,
        area: CellRect,
        pre: Map<(u16, u16), CellView>,
        post: Map<(u16, u16), CellView>,
    ) -> bool {
        let force = pre_state.source.hash != pre_state.hash;
        let decision = resize.needs_resize_spec(
            pre_state.source,
            pre_state.current.rect,
            area,
            force,
        );
        if area.is_degenerate() {
            post_state == pre_state && post == pre
        } else {
            &&& match decision {
                None => post_state == pre_state,
                Some(rect) => {
                    let model = resized_model(pre_state.source, rect, background_color);
                    if png_ok(model) {
                        &&& post_state.source == pre_state.source
                        &&& post_state.current.rect == rect
                        &&& post_state.hash == pre_state.source.hash
                        &&& post_state.current.data@ == iterm_payload(
                            png_of(model),
                            rect.width as u64,
                            rect.height as u64,
                        )
                    } else {
                        post_state == pre_state
                    }
                },
            }
            &&& payload_written(pre, post, post_state.current.data@, area)
        }
    }

    /// After a reset the payload is empty, its rectangle blank and the
    /// fingerprint cleared, so the next render must encode.
    open spec fn reset_ens(pre_state: Self, post_state: Self) -> bool {
        &&& post_state.source == pre_state.source
        &&& post_state.current.data@ == Seq::<char>::empty()
        &&& post_state.current.rect == (CellRect { x: 0, y: 0, width: 0, height: 0 })
        &&& post_state.hash == 0
    }

    fn rect(&self) -> CellRect {
        self.current.rect
    }

    fn render(
        &mut self,
        resize: &Resize,
        background_color: Option<Rgb>,
        area: CellRect,
        buf: &mut ratatui::buffer::Buffer,
    ) {
        if area.width == 0 || area.height == 0 {
            return ;
        }
        let force = self.source.hash != self.hash;
        match resize.resize(&self.source, self.current.rect, area, background_color, force) {
            Some((img, rect)) => {
                match encode(&img, rect.width as u64, rect.height as u64) {
                    Ok(data) => {
                        self.current = FixedIterm { data, rect };
                        self.hash = self.source.hash;
                    },
                    Err(_err) => {
                        // A failed encode keeps the last valid payload; the
                        // render below falls back to it.
                    },
                }
            },
            None => {},
        }
        render_payload(self.current.data.as_str(), area, buf);
    }

    fn reset(&mut self) {
        self.current = FixedIterm::default();
        self.hash = 0;
    }
}

} // verus!
