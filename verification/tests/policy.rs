//! Tests of the pure policy layer: cell geometry, the content fingerprint,
//! and the resize decision.

use ratatui_image::ImageSource;
use ratatui_image::fingerprint::content_fingerprint;
use ratatui_image::geometry::cells_for_px;
use ratatui_image::geometry::fit_size_cells;
use ratatui_image::geometry::render_area;
use ratatui_image::geometry::round_pixel_size_to_cells;
use ratatui_image::CellRect;

fn solid_image(width: u32, height: u32, rgb: [u8; 3]) -> image::DynamicImage {
    image::DynamicImage::ImageRgb8(image::ImageBuffer::from_pixel(width, height, image::Rgb(rgb)))
}

#[test]
fn desired_rect_rounds_pixels_up_to_cells() {
    // 300x200 px at a 7x14 font: ceil(300/7) = 43, ceil(200/14) = 15.
    let source = ImageSource::new(solid_image(300, 200, [255, 0, 0]), (7, 14));
    assert_eq!(source.desired, CellRect { x: 0, y: 0, width: 43, height: 15 });
}

#[test]
fn cells_for_px_exact_and_partial() {
    assert_eq!(cells_for_px(280, 7), 40);
    assert_eq!(cells_for_px(281, 7), 41);
    assert_eq!(cells_for_px(1, 7), 1);
    assert_eq!(cells_for_px(0, 7), 0);
    assert_eq!(cells_for_px(7, 7), 1);
}

#[test]
fn cells_for_px_saturates_without_font_metric() {
    assert_eq!(cells_for_px(10, 0), u16::MAX);
    assert_eq!(cells_for_px(u32::MAX, 1), u16::MAX);
}

#[test]
fn round_pixel_size_keeps_origin_at_zero() {
    let rect = round_pixel_size_to_cells(100, 50, (10, 10));
    assert_eq!(rect, CellRect { x: 0, y: 0, width: 10, height: 5 });
}

#[test]
fn fit_keeps_a_footprint_that_already_fits() {
    assert_eq!(fit_size_cells(10, 5, 20, 20), (10, 5));
    assert_eq!(fit_size_cells(20, 20, 20, 20), (20, 20));
}

#[test]
fn fit_scales_down_preserving_aspect_ratio() {
    // Twice as wide as the area allows: halve both sides.
    assert_eq!(fit_size_cells(40, 10, 20, 20), (20, 5));
    // Twice as tall as the area allows: halve both sides.
    assert_eq!(fit_size_cells(10, 40, 20, 20), (5, 20));
}

#[test]
fn fit_never_collapses_to_zero() {
    assert_eq!(fit_size_cells(100, 1, 10, 10), (10, 1));
    assert_eq!(fit_size_cells(1, 100, 10, 10), (1, 10));
}

#[test]
fn render_area_clips_or_rejects() {
    let rect = CellRect { x: 0, y: 0, width: 8, height: 4 };
    let area = CellRect { x: 2, y: 3, width: 5, height: 6 };
    // Overdrawing clips the payload to the area.
    assert_eq!(
        render_area(rect, area, true),
        Some(CellRect { x: 2, y: 3, width: 5, height: 4 })
    );
    // Without overdraw an outgrown payload renders nowhere.
    assert_eq!(render_area(rect, area, false), None);
    // A payload that fits occupies its own size at the area's corner.
    let small = CellRect { x: 0, y: 0, width: 4, height: 2 };
    assert_eq!(
        render_area(small, area, false),
        Some(CellRect { x: 2, y: 3, width: 4, height: 2 })
    );
}

#[test]
fn fingerprint_of_empty_input_is_the_offset_basis() {
    let empty: [u8; 0] = [];
    assert_eq!(content_fingerprint(&empty), 0xcbf2_9ce4_8422_2325);
}

#[test]
fn fingerprint_matches_reference_values() {
    assert_eq!(content_fingerprint(b"a"), 0xaf63_dc4c_8601_ec8c);
    assert_eq!(content_fingerprint(&[1, 2, 3]), 0xd0aa_6218_672c_f5ab);
}

#[test]
fn fingerprint_distinguishes_changed_content() {
    let red = ImageSource::new(solid_image(8, 8, [255, 0, 0]), (2, 4));
    let blue = ImageSource::new(solid_image(8, 8, [0, 0, 255]), (2, 4));
    assert_ne!(red.hash, blue.hash);

    let red_again = ImageSource::new(solid_image(8, 8, [255, 0, 0]), (2, 4));
    assert_eq!(red.hash, red_again.hash);
}
