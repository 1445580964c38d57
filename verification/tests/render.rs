//! Tests of the protocols against a real character grid: single-writer-cell
//! suppression, render caching, force propagation, resets, and the round
//! trip between the encoded payload and the resize policy.

// The engine drives suppression through the grid cells' `skip` flag, which
// carries a deprecation note but is what the buffer diff honors.
#![allow(deprecated)]

use ratatui::buffer::Buffer;
use ratatui::layout::Rect;
use ratatui_image::CellRect;
use ratatui_image::Im;
use ratatui_image::ImageSource;
use ratatui_image::Protocol;
use ratatui_image::Raster;
use ratatui_image::Resize;
use ratatui_image::ResizeProtocol;
use ratatui_image::protocol::halfblocks;
use ratatui_image::protocol::halfblocks::HalfblocksState;
use ratatui_image::protocol::iterm::FixedIterm;
use ratatui_image::protocol::iterm::ItermState;

fn solid_image(width: u32, height: u32, rgb: [u8; 3]) -> image::DynamicImage {
    image::DynamicImage::ImageRgb8(image::ImageBuffer::from_pixel(width, height, image::Rgb(rgb)))
}

fn grid(width: u16, height: u16) -> Buffer {
    Buffer::empty(Rect::new(0, 0, width, height))
}

fn symbol_at(buf: &Buffer, x: u16, y: u16) -> String {
    buf.cell((x, y)).expect("cell in grid").symbol().to_string()
}

fn skip_at(buf: &Buffer, x: u16, y: u16) -> bool {
    buf.cell((x, y)).expect("cell in grid").skip
}

/// Read the `width=` and `height=` fields a payload declares.
fn parse_declared_size(payload: &str) -> (u64, u64) {
    let width = parse_field(payload, ";width=");
    let height = parse_field(payload, ";height=");
    (width, height)
}

fn parse_field(payload: &str, key: &str) -> u64 {
    let start = payload.find(key).expect("field present") + key.len();
    let digits: String = payload[start..].chars().take_while(|c| c.is_ascii_digit()).collect();
    digits.parse().expect("decimal field")
}

#[test]
fn payload_occupies_one_cell_and_suppresses_the_rest() {
    let mut buf = grid(10, 10);
    let fixed = FixedIterm {
        data: "PAYLOAD".to_string(),
        rect: CellRect { x: 0, y: 0, width: 3, height: 2 },
    };
    let area = CellRect { x: 2, y: 1, width: 3, height: 2 };
    fixed.render(area, &mut buf);

    // The top-left cell carries the payload and stays flushable.
    assert_eq!(symbol_at(&buf, 2, 1), "PAYLOAD");
    assert!(!skip_at(&buf, 2, 1));
    // Every other covered cell is suppressed.
    for (x, y) in [(3, 1), (4, 1), (2, 2), (3, 2), (4, 2)] {
        assert!(skip_at(&buf, x, y), "({x},{y}) must be suppressed");
        assert_eq!(symbol_at(&buf, x, y), " ");
    }
    // Cells outside the area are untouched.
    for (x, y) in [(1, 1), (5, 1), (2, 0), (2, 3)] {
        assert!(!skip_at(&buf, x, y), "({x},{y}) must be untouched");
        assert_eq!(symbol_at(&buf, x, y), " ");
    }
}

#[test]
fn repeated_renders_produce_byte_identical_payload() {
    let source = ImageSource::new(solid_image(30, 20, [0, 128, 0]), (10, 10));
    let mut state = ItermState::new(source);
    let area = CellRect { x: 0, y: 0, width: 5, height: 5 };

    let mut buf = grid(8, 8);
    state.render(&Resize::Fit, None, area, &mut buf);
    let first = symbol_at(&buf, 0, 0);
    let first_rect = state.rect();
    assert!(first.starts_with("\u{1b}]1337;File="), "payload must be an escape sequence");

    let mut buf2 = grid(8, 8);
    state.render(&Resize::Fit, None, area, &mut buf2);
    let second = symbol_at(&buf2, 0, 0);

    assert_eq!(first, second);
    assert_eq!(state.rect(), first_rect);
}

#[test]
fn content_change_triggers_reencode_with_unchanged_area() {
    let mut state = ItermState::new(ImageSource::new(solid_image(30, 20, [0, 128, 0]), (10, 10)));
    let area = CellRect { x: 0, y: 0, width: 5, height: 5 };

    let mut buf = grid(8, 8);
    state.render(&Resize::Fit, None, area, &mut buf);
    let first = symbol_at(&buf, 0, 0);

    // A new image means a new source; the widget keeps its state.
    state.source = ImageSource::new(solid_image(30, 20, [128, 0, 128]), (10, 10));
    let mut buf2 = grid(8, 8);
    state.render(&Resize::Fit, None, area, &mut buf2);
    let second = symbol_at(&buf2, 0, 0);

    assert_ne!(first, second, "a content change must re-encode at once");
}

#[test]
fn degenerate_area_is_a_complete_no_op() {
    let mut state = ItermState::new(ImageSource::new(solid_image(30, 20, [0, 128, 0]), (10, 10)));
    let area = CellRect { x: 0, y: 0, width: 6, height: 6 };
    let mut buf = grid(8, 8);
    state.render(&Resize::Fit, None, area, &mut buf);
    let rect = state.rect();
    let payload = symbol_at(&buf, 0, 0);

    let mut untouched = grid(8, 8);
    let reference = grid(8, 8);
    for degenerate in [
        CellRect { x: 0, y: 0, width: 0, height: 5 },
        CellRect { x: 0, y: 0, width: 5, height: 0 },
    ] {
        state.render(&Resize::Fit, None, degenerate, &mut untouched);
        assert_eq!(untouched, reference, "no grid write on a degenerate area");
        assert_eq!(state.rect(), rect, "no state change on a degenerate area");
    }

    // The cached payload is still the old one afterwards.
    let mut buf2 = grid(8, 8);
    state.render(&Resize::Fit, None, area, &mut buf2);
    assert_eq!(symbol_at(&buf2, 0, 0), payload);
}

#[test]
fn payload_declares_the_rect_the_policy_chose() {
    // 300x200 px at a 7x14 font: desired 43x15 does not fit a 10x10 area;
    // width-limited fit gives 10x3.
    let source = ImageSource::new(solid_image(300, 200, [9, 9, 9]), (7, 14));
    let area = CellRect { x: 0, y: 0, width: 10, height: 10 };
    let fixed = FixedIterm::from_source(&source, Resize::Fit, None, area).expect("encodes");

    assert_eq!(fixed.rect, CellRect { x: 0, y: 0, width: 10, height: 3 });
    let declared = parse_declared_size(&fixed.data);
    assert_eq!(declared, (fixed.rect.width as u64, fixed.rect.height as u64));
}

#[test]
fn state_render_declares_the_rect_it_installed() {
    let mut state = ItermState::new(ImageSource::new(solid_image(300, 200, [9, 9, 9]), (7, 14)));
    let area = CellRect { x: 0, y: 0, width: 10, height: 10 };
    let mut buf = grid(12, 12);
    state.render(&Resize::Fit, None, area, &mut buf);

    assert_eq!(state.rect(), CellRect { x: 0, y: 0, width: 10, height: 3 });
    let declared = parse_declared_size(&symbol_at(&buf, 0, 0));
    assert_eq!(declared, (10, 3));
}

#[test]
fn reset_forces_a_fresh_encode() {
    let mut state = ItermState::new(ImageSource::new(solid_image(30, 20, [0, 128, 0]), (10, 10)));
    let area = CellRect { x: 0, y: 0, width: 5, height: 5 };
    let mut buf = grid(8, 8);
    state.render(&Resize::Fit, None, area, &mut buf);
    let payload = symbol_at(&buf, 0, 0);

    state.reset();
    assert_eq!(state.rect(), CellRect { x: 0, y: 0, width: 0, height: 0 });

    let mut buf2 = grid(8, 8);
    state.render(&Resize::Fit, None, area, &mut buf2);
    assert_eq!(symbol_at(&buf2, 0, 0), payload, "same content encodes to the same payload");
    assert_ne!(state.rect().width, 0, "the render after a reset encoded again");
}

#[test]
fn halfblock_cells_carry_the_pixels() {
    let raster = Raster::new(solid_image(4, 4, [200, 10, 30]));
    let payload = halfblocks::encode(&raster, CellRect { x: 0, y: 0, width: 2, height: 1 });
    assert_eq!(payload.cells.len(), 2);

    let mut buf = grid(4, 4);
    payload.render(CellRect { x: 1, y: 1, width: 3, height: 3 }, &mut buf);

    let shown = buf.cell((1u16, 1u16)).expect("cell in grid");
    assert_eq!(shown.symbol(), "\u{2580}");
    assert_eq!(shown.fg, ratatui::style::Color::Rgb(200, 10, 30));
    assert_eq!(shown.bg, ratatui::style::Color::Rgb(200, 10, 30));
    assert!(!shown.skip, "the glyph protocol suppresses nothing");

    // Only the payload's own 2x1 corner is written.
    assert_eq!(symbol_at(&buf, 3, 1), " ");
    assert_eq!(symbol_at(&buf, 1, 2), " ");
    assert_eq!(symbol_at(&buf, 0, 0), " ");
}

#[test]
fn halfblock_encode_scales_to_the_requested_grid() {
    // A 2x2 source read as a 1x3 cell column: the encoder must first scale
    // to 1x6 pixels, or the pixel reads past the source would be impossible.
    let raster = Raster::new(solid_image(2, 2, [50, 60, 70]));
    let payload = halfblocks::encode(&raster, CellRect { x: 0, y: 0, width: 1, height: 3 });
    assert_eq!(payload.cells.len(), 3);
    for (upper, lower) in &payload.cells {
        assert_eq!((upper.r, upper.g, upper.b), (50, 60, 70));
        assert_eq!((lower.r, lower.g, lower.b), (50, 60, 70));
    }
}

#[test]
fn background_render_pads_and_still_caches() {
    let source = ImageSource::new(solid_image(35, 20, [0, 128, 0]), (10, 10));
    let mut state = ItermState::new(source);
    let area = CellRect { x: 0, y: 0, width: 5, height: 5 };
    let background = Some(ratatui_image::Rgb { r: 20, g: 20, b: 20 });

    let mut buf = grid(8, 8);
    state.render(&Resize::Fit, background, area, &mut buf);
    let first = symbol_at(&buf, 0, 0);
    assert!(first.starts_with("\u{1b}]1337;File="));

    let mut buf2 = grid(8, 8);
    state.render(&Resize::Fit, background, area, &mut buf2);
    assert_eq!(first, symbol_at(&buf2, 0, 0));
}

#[test]
fn halfblock_state_caches_like_the_byte_stream_state() {
    let source = ImageSource::new(solid_image(40, 40, [1, 2, 3]), (10, 20));
    let mut state = HalfblocksState::new(source);
    let area = CellRect { x: 0, y: 0, width: 4, height: 2 };

    let mut buf = grid(6, 6);
    state.render(&Resize::Fit, None, area, &mut buf);
    assert_eq!(state.rect(), CellRect { x: 0, y: 0, width: 4, height: 2 });
    assert_eq!(symbol_at(&buf, 0, 0), "\u{2580}");
    assert_eq!(symbol_at(&buf, 3, 1), "\u{2580}");
    assert_eq!(symbol_at(&buf, 4, 0), " ");
}

#[test]
fn fixed_halfblocks_from_source_matches_policy_rect() {
    let source = ImageSource::new(solid_image(40, 40, [7, 7, 7]), (10, 20));
    let area = CellRect { x: 0, y: 0, width: 10, height: 10 };
    let fixed = halfblocks::FixedHalfblocks::from_source(&source, Resize::Fit, None, area);
    // Desired 4x2 already fits the 10x10 area.
    assert_eq!(fixed.rect, CellRect { x: 0, y: 0, width: 4, height: 2 });
    assert_eq!(fixed.cells.len(), 8);
}

#[test]
fn encode_is_deterministic() {
    let raster = Raster::new(solid_image(12, 8, [3, 4, 5]));
    let first = ratatui_image::protocol::iterm::encode(&raster, 4, 2).expect("encodes");
    let second = ratatui_image::protocol::iterm::encode(&raster, 4, 2).expect("encodes");
    assert_eq!(first, second);
}

#[test]
fn buffer_area_reads_the_grid_rectangle() {
    let buf = grid(9, 4);
    assert_eq!(ratatui_image::grid::buffer_area(&buf), (0, 0, 9, 4));
}

#[test]
fn inline_widget_writes_its_bytes_once() {
    let im = Im { width: 10, height: 10, img_bytes: vec![1, 2, 3, 4] };
    let mut buf = grid(12, 12);
    let area = CellRect { x: 0, y: 0, width: 12, height: 2 };
    im.render(area, &mut buf);

    let payload = symbol_at(&buf, 0, 0);
    assert!(payload.starts_with("\u{1b}]1337;File=size=4;width=10;height=10;"));
    // AQIDBA== is the standard base64 of the bytes 1, 2, 3, 4.
    assert!(payload.ends_with(":AQIDBA==\u{7}"));
    assert!(!skip_at(&buf, 0, 0));
    assert!(skip_at(&buf, 5, 1));
    assert!(!skip_at(&buf, 5, 2));
}
