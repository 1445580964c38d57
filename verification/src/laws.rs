//! The engine's cross-cutting laws, stated and proved over the contracts of
//! the resize policy and the resize-aware protocol states.

use vstd::prelude::*;

use crate::geometry::CellRect;
use crate::geometry::Rgb;
use crate::geometry::fit_rect;
use crate::geometry::lemma_fit_size_bounds;
use crate::grid::CellView;
use crate::grid::payload_written;
use crate::protocol::ImageSource;
use crate::protocol::ResizeProtocol;
use crate::protocol::iterm::ItermState;
use crate::protocol::iterm::declared_rect_of;
use crate::protocol::iterm::iterm_payload;
use crate::protocol::iterm::lemma_declared_rect_round_trip;
use crate::raster::png_of;
use crate::raster::png_ok;
use crate::resize::resized_model;
use crate::protocol::halfblocks::HalfblocksState;
use crate::resize::Resize;

verus! {

/// Law: when the previously rendered rectangle is already the fitted one
/// and no re-render is forced, the policy decides that nothing is to be
/// done — re-encoding work is bounded by actual change, not by how often
/// render is called.
pub proof fn lemma_no_change_no_reencode(
    resize: Resize,
    source: ImageSource,
    current: CellRect,
    area: CellRect,
)
    requires
        current == fit_rect(source.desired, area),
    ensures
        resize.needs_resize_spec(source, current, area, false) is None,
{
}

/// Law: a forced re-render is honored unconditionally — whenever anything
/// is renderable at all, the decision under `force` is the fitted
/// rectangle, no matter what was rendered before.
pub proof fn lemma_force_is_honored(
    resize: Resize,
    source: ImageSource,
    current: CellRect,
    area: CellRect,
)
    requires
        !area.is_degenerate(),
        source.image.width_px() >= 1,
        source.image.height_px() >= 1,
        !source.desired.is_degenerate(),
    ensures
        resize.needs_resize_spec(source, current, area, true) == Some(
            fit_rect(source.desired, area),
        ),
{
}

/// Law: repeated renders with unchanged content and area encode exactly
/// once. Once a state is valid for `area` — fingerprint matching, cached
/// rectangle fitted — a further render is the identity on the state, and
/// the grid receives the byte-identical cached payload.
pub proof fn lemma_repeat_render_is_identity(
    pre: ItermState,
    post: ItermState,
    resize: Resize,
    background_color: Option<Rgb>,
    area: CellRect,
    pre_cells: Map<(u16, u16), CellView>,
    post_cells: Map<(u16, u16), CellView>,
)
    requires
        !area.is_degenerate(),
        pre.hash == pre.source.hash,
        pre.current.rect == fit_rect(pre.source.desired, area),
        ItermState::render_ens(pre, post, resize, background_color, area, pre_cells, post_cells),
    ensures
        post == pre,
        payload_written(pre_cells, post_cells, pre.current.data@, area),
{
    lemma_no_change_no_reencode(resize, pre.source, pre.current.rect, area);
}

/// Law: a content-fingerprint change triggers a re-encode on the very next
/// render, the area being unchanged or not. For the glyph protocol the
/// encoder cannot fail, so the render always leaves with the new
/// fingerprint and the freshly fitted rectangle.
pub proof fn lemma_content_change_reencodes(
    pre: HalfblocksState,
    post: HalfblocksState,
    resize: Resize,
    background_color: Option<Rgb>,
    area: CellRect,
    pre_cells: Map<(u16, u16), CellView>,
    post_cells: Map<(u16, u16), CellView>,
)
    requires
        !area.is_degenerate(),
        pre.hash != pre.source.hash,
        pre.source.image.width_px() >= 1,
        pre.source.image.height_px() >= 1,
        !pre.source.desired.is_degenerate(),
        HalfblocksState::render_ens(
            pre,
            post,
            resize,
            background_color,
            area,
            pre_cells,
            post_cells,
        ),
    ensures
        post.hash == pre.source.hash,
        post.current.rect == fit_rect(pre.source.desired, area),
{
    lemma_force_is_honored(resize, pre.source, pre.current.rect, area);
}

/// Law: a content-fingerprint change triggers a re-encode on the very next
/// render of the byte-stream protocol too, the area being unchanged or
/// not: when the PNG serialization of the policy's product succeeds, the
/// render leaves with the new fingerprint, the freshly fitted rectangle,
/// and the payload embedding exactly that product's PNG.
pub proof fn lemma_content_change_installs(
    pre: ItermState,
    post: ItermState,
    resize: Resize,
    background_color: Option<Rgb>,
    area: CellRect,
    pre_cells: Map<(u16, u16), CellView>,
    post_cells: Map<(u16, u16), CellView>,
)
    requires
        !area.is_degenerate(),
        pre.hash != pre.source.hash,
        pre.source.image.width_px() >= 1,
        pre.source.image.height_px() >= 1,
        !pre.source.desired.is_degenerate(),
        png_ok(resized_model(pre.source, fit_rect(pre.source.desired, area), background_color)),
        ItermState::render_ens(pre, post, resize, background_color, area, pre_cells, post_cells),
    ensures
        post.hash == pre.source.hash,
        post.current.rect == fit_rect(pre.source.desired, area),
        post.current.data@ == iterm_payload(
            png_of(resized_model(pre.source, fit_rect(pre.source.desired, area), background_color)),
            post.current.rect.width as u64,
            post.current.rect.height as u64,
        ),
{
    lemma_force_is_honored(resize, pre.source, pre.current.rect, area);
}

/// Law: the round trip between encoding and the resize policy. A render
/// that installed a payload installed it for exactly the rectangle the
/// policy chose for the same inputs, that rectangle is recorded beside the
/// payload, and parsing the payload's declared size gives it back.
pub proof fn lemma_payload_declares_policy_rect(
    pre: ItermState,
    post: ItermState,
    resize: Resize,
    background_color: Option<Rgb>,
    area: CellRect,
    pre_cells: Map<(u16, u16), CellView>,
    post_cells: Map<(u16, u16), CellView>,
)
    requires
        !area.is_degenerate(),
        resize.needs_resize_spec(
            pre.source,
            pre.current.rect,
            area,
            pre.source.hash != pre.hash,
        ) is Some,
        png_ok(resized_model(pre.source, fit_rect(pre.source.desired, area), background_color)),
        ItermState::render_ens(pre, post, resize, background_color, area, pre_cells, post_cells),
    ensures
        post.current.rect == fit_rect(pre.source.desired, area),
        declared_rect_of(post.current.data@) == (
            post.current.rect.width as nat,
            post.current.rect.height as nat,
        ),
{
    let w = post.current.rect.width as u64;
    let h = post.current.rect.height as u64;
    lemma_declared_rect_round_trip(
        png_of(resized_model(pre.source, fit_rect(pre.source.desired, area), background_color)),
        w,
        h,
    );
}

/// Law: an encode failure on a content change leaves the reported
/// rectangle and the state untouched and renders the last good payload:
/// the display never reverts to empty on a transient failure.
pub proof fn lemma_failure_keeps_last_good(
    pre: ItermState,
    post: ItermState,
    resize: Resize,
    background_color: Option<Rgb>,
    area: CellRect,
    pre_cells: Map<(u16, u16), CellView>,
    post_cells: Map<(u16, u16), CellView>,
)
    requires
        !area.is_degenerate(),
        pre.hash != pre.source.hash,
        pre.source.image.width_px() >= 1,
        pre.source.image.height_px() >= 1,
        !pre.source.desired.is_degenerate(),
        !png_ok(resized_model(pre.source, fit_rect(pre.source.desired, area), background_color)),
        ItermState::render_ens(pre, post, resize, background_color, area, pre_cells, post_cells),
    ensures
        post == pre,
        post.cached_rect() == pre.cached_rect(),
        payload_written(pre_cells, post_cells, pre.current.data@, area),
        post.hash != post.source.hash,
{
    lemma_force_is_honored(resize, pre.source, pre.current.rect, area);
}

/// Law: the validity key is truthful. If, whenever the fingerprints
/// matched before a render, the cached payload was the encoding of the
/// current content for its cached rectangle, then the same holds after the
/// render: a matching fingerprint never vouches for a payload that does
/// not encode the current content.
pub proof fn lemma_validity_key_is_truthful(
    pre: ItermState,
    post: ItermState,
    resize: Resize,
    background_color: Option<Rgb>,
    area: CellRect,
    pre_cells: Map<(u16, u16), CellView>,
    post_cells: Map<(u16, u16), CellView>,
)
    requires
        !area.is_degenerate(),
        ItermState::render_ens(pre, post, resize, background_color, area, pre_cells, post_cells),
        pre.hash == pre.source.hash ==> pre.current.data@ == iterm_payload(
            png_of(resized_model(pre.source, pre.current.rect, background_color)),
            pre.current.rect.width as u64,
            pre.current.rect.height as u64,
        ),
    ensures
        post.hash == post.source.hash ==> post.current.data@ == iterm_payload(
            png_of(resized_model(post.source, post.current.rect, background_color)),
            post.current.rect.width as u64,
            post.current.rect.height as u64,
        ),
{
}

/// Law: after a reset, the next render must encode: the blank cached
/// rectangle can never equal a fitted rectangle, whose sides are at least
/// one cell, so the decision is a re-render whenever anything is renderable
/// at all.
pub proof fn lemma_reset_forces_reencode(
    pre: ItermState,
    post: ItermState,
    resize: Resize,
    area: CellRect,
)
    requires
        ItermState::reset_ens(pre, post),
        !area.is_degenerate(),
        post.source.image.width_px() >= 1,
        post.source.image.height_px() >= 1,
        !post.source.desired.is_degenerate(),
    ensures
        resize.needs_resize_spec(
            post.source,
            post.current.rect,
            area,
            post.source.hash != post.hash,
        ) is Some,
{
    lemma_fit_size_bounds(
        post.source.desired.width as nat,
        post.source.desired.height as nat,
        area.width as nat,
        area.height as nat,
    );
}

} // verus!
