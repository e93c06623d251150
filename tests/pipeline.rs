use image::codecs::gif::GifEncoder;
use sparkler::canvas::Canvas;
use sparkler::layout::{layout_fits_u32, text_layout, wrap_text, PADDING, WRAP_COL};
use sparkler::outline::outline;
use sparkler::sparkle::{animate, render, sparkle_frames, sparkle_phases, sparkle_positions, Frame};
use sparkler::text::{cache_key, normalize_text, query_text};
use sparkler::Error;

fn solid(width: u32, height: u32, px: [u8; 4]) -> Canvas {
    let mut pixels = Vec::new();
    for _ in 0..(width * height) {
        pixels.extend_from_slice(&px);
    }
    Canvas { width, height, pixels }
}

fn pixel(c: &Canvas, x: u32, y: u32) -> [u8; 4] {
    let k = (4 * (y * c.width + x)) as usize;
    [c.pixels[k], c.pixels[k + 1], c.pixels[k + 2], c.pixels[k + 3]]
}

/// Sprites of one opaque pixel each, the red channel telling them apart.
fn numbered_sprites(n: usize) -> Vec<Canvas> {
    (0..n).map(|i| solid(1, 1, [i as u8 + 1, 0, 0, 255])).collect()
}

fn gif_bytes(frames: usize) -> Vec<u8> {
    let mut buf = Vec::new();
    {
        let mut enc = GifEncoder::new(&mut buf);
        for i in 0..frames {
            let img = image::RgbaImage::from_pixel(4, 4, image::Rgba([(i * 40) as u8, 0, 0, 255]));
            enc.encode_frame(image::Frame::new(img)).unwrap();
        }
    }
    buf
}

#[test]
fn short_text_is_one_line() {
    let lines = wrap_text("pigeon").unwrap();
    assert_eq!(lines, vec!["pigeon".to_string()]);
}

#[test]
fn blank_text_is_refused() {
    assert!(matches!(wrap_text("   "), Err(Error::NotEnoughText)));
    assert!(matches!(wrap_text(""), Err(Error::NotEnoughText)));
    assert!(matches!(wrap_text(" \t\n "), Err(Error::NotEnoughText)));
    assert!(matches!(wrap_text("\u{a0}"), Err(Error::NotEnoughText)));
    assert!(matches!(wrap_text("\u{3000} \u{2028}\u{85}"), Err(Error::NotEnoughText)));
    assert!(wrap_text("\u{a0}x").is_ok());
}

#[test]
fn forty_characters_wrap_to_three_lines() {
    let text = "the quick brown fox jumps over a lazy do";
    assert_eq!(text.len(), 40);
    let lines = wrap_text(text).unwrap();
    assert!(lines.len() >= 3);
    for l in &lines {
        assert!(l.chars().count() <= WRAP_COL);
    }
    let sizes: Vec<(u32, u32)> = lines.iter().map(|_| (300, 70)).collect();
    let layout = text_layout(&sizes).unwrap();
    assert_eq!(layout.height, 70 * lines.len() as u32 + 48);
}

#[test]
fn single_line_layout() {
    let layout = text_layout(&vec![(250, 64)]).unwrap();
    assert_eq!(layout.width, 298);
    assert_eq!(layout.height, 64 + 48);
    assert_eq!(layout.left, PADDING);
    assert_eq!(layout.rows, vec![24]);
}

#[test]
fn lines_advance_by_the_previous_height() {
    let layout = text_layout(&vec![(100, 50), (180, 70), (90, 40)]).unwrap();
    assert_eq!(layout.width, 228);
    assert_eq!(layout.height, 160 + 48);
    assert_eq!(layout.rows, vec![24, 74, 144]);
}

#[test]
fn empty_layout_is_refused() {
    assert!(matches!(text_layout(&vec![]), Err(Error::NotEnoughText)));
}

#[test]
fn layout_limits() {
    assert!(layout_fits_u32(&vec![(10, 10)]));
    assert!(layout_fits_u32(&vec![(u32::MAX - 48, 10)]));
    assert!(!layout_fits_u32(&vec![(u32::MAX - 47, 10)]));
    assert!(!layout_fits_u32(&vec![(1, u32::MAX / 2), (1, u32::MAX / 2)]));
}

#[test]
fn new_canvas_is_transparent() {
    let c = Canvas::new(3, 2);
    assert_eq!(c.pixels, vec![0u8; 24]);
    assert!(c.is_valid());
    let bad = Canvas { width: 3, height: 2, pixels: vec![0; 23] };
    assert!(!bad.is_valid());
}

#[test]
fn invert_flips_every_channel() {
    let mut c = Canvas { width: 2, height: 1, pixels: vec![0, 10, 255, 128, 1, 2, 3, 0] };
    c.invert();
    assert_eq!(c.pixels, vec![255, 245, 0, 127, 254, 253, 252, 255]);
}

#[test]
fn overlay_replaces_opaque_and_keeps_transparent() {
    let mut bottom = solid(4, 4, [9, 9, 9, 255]);
    let top = Canvas { width: 2, height: 1, pixels: vec![200, 100, 50, 255, 7, 7, 7, 0] };
    bottom.overlay(&top, 1, 2);
    assert_eq!(pixel(&bottom, 1, 2), [200, 100, 50, 255]);
    assert_eq!(pixel(&bottom, 2, 2), [9, 9, 9, 255]);
    assert_eq!(pixel(&bottom, 0, 0), [9, 9, 9, 255]);
    // Partly outside the canvas: the rest is clipped.
    bottom.overlay(&top, -1, 3);
    assert_eq!(pixel(&bottom, 0, 3), [9, 9, 9, 255]);
    bottom.overlay(&top, 3, 0);
    assert_eq!(pixel(&bottom, 3, 0), [200, 100, 50, 255]);
}

#[test]
fn outline_keeps_dimensions_and_shows_halo() {
    let mut text = Canvas::new(5, 3);
    text.pixels[0..4].copy_from_slice(&[0, 0, 0, 255]);
    let mut blurred = Canvas::new(5, 3);
    for k in 0..15 {
        blurred.pixels[4 * k + 3] = 100;
    }
    let out = outline(&text, blurred);
    assert_eq!((out.width, out.height), (5, 3));
    assert_eq!(pixel(&out, 0, 0), [0, 0, 0, 255]);
    assert_eq!(pixel(&out, 1, 0), [255, 255, 255, 155]);
}

#[test]
fn positions_of_the_slots() {
    assert_eq!(sparkle_positions(300, 90), [(10, 10), (258, 48), (100, 60)]);
    assert_eq!(sparkle_positions(20, 10), [(10, 10), (-22, -32), (6, 6)]);
}

#[test]
fn phases_of_the_slots() {
    assert_eq!(sparkle_phases(33), [0, 11, 30]);
    assert_eq!(sparkle_phases(10), [0, 3, 10]);
    assert_eq!(sparkle_phases(0), [0, 0, 0]);
}

#[test]
fn narrow_canvas_has_one_sparkle() {
    let base = solid(100, 100, [0, 0, 0, 0]);
    let sprites = numbered_sprites(12);
    let frames = animate(&base, &sprites);
    assert_eq!(frames.len(), 12);
    for (i, f) in frames.iter().enumerate() {
        assert_eq!((f.canvas.width, f.canvas.height), (100, 100));
        assert_eq!((f.delay_ms, f.left, f.top), (30, 0, 0));
        assert_eq!(pixel(&f.canvas, 10, 10), [i as u8 + 1, 0, 0, 255]);
        assert_eq!(pixel(&f.canvas, 26, 26), [0, 0, 0, 0]);
        assert_eq!(pixel(&f.canvas, 22, 45), [0, 0, 0, 0]);
    }
}

#[test]
fn wide_canvas_has_three_sparkles() {
    let base = solid(232, 122, [0, 0, 0, 0]);
    let sprites = numbered_sprites(33);
    let frames = animate(&base, &sprites);
    assert_eq!(frames.len(), 33);
    for (i, f) in frames.iter().enumerate() {
        assert_eq!(pixel(&f.canvas, 10, 10), [i as u8 + 1, 0, 0, 255]);
        assert_eq!(pixel(&f.canvas, 158, 48), [((i + 11) % 33) as u8 + 1, 0, 0, 255]);
        assert_eq!(pixel(&f.canvas, 66, 60), [((i + 30) % 33) as u8 + 1, 0, 0, 255]);
    }
}

#[test]
fn loop_is_seamless() {
    let n = 12;
    for phase in sparkle_phases(n) {
        let last = (n - 1 + phase) % n;
        let first = phase % n;
        assert_eq!((last + 1) % n, first);
    }
}

#[test]
fn no_sparkle_frames_no_output() {
    let base = solid(300, 100, [1, 2, 3, 4]);
    assert!(animate(&base, &vec![]).is_empty());
}

#[test]
fn malformed_sparkles_are_an_image_error() {
    assert!(matches!(sparkle_frames(b"not a gif"), Err(Error::Image(_))));
    let text = Canvas::new(64, 64);
    let blurred = Canvas::new(64, 64);
    assert!(matches!(render(&text, blurred, b"GIF89a"), Err(Error::Image(_))));
}

#[test]
fn decoded_sparkles_keep_order() {
    let data = gif_bytes(3);
    let frames = sparkle_frames(&data).unwrap();
    assert_eq!(frames.len(), 3);
    for f in &frames {
        assert_eq!((f.width, f.height), (frames[0].width, frames[0].height));
        assert_eq!((f.width, f.height), (4, 4));
        assert_eq!(pixel(f, 0, 0)[3], 255);
    }
    assert!(pixel(&frames[0], 0, 0)[0] < pixel(&frames[2], 0, 0)[0]);
}

#[test]
fn render_makes_one_frame_per_sparkle_frame() {
    let data = gif_bytes(4);
    let text = Canvas::new(80, 60);
    let blurred = Canvas::new(80, 60);
    let frames: Vec<Frame> = render(&text, blurred, &data).unwrap();
    assert_eq!(frames.len(), 4);
    for f in &frames {
        assert_eq!((f.canvas.width, f.canvas.height), (80, 60));
        assert_eq!(f.canvas.pixels.len(), 80 * 60 * 4);
    }
    let again = render(&Canvas::new(80, 60), Canvas::new(80, 60), &data).unwrap();
    for (a, b) in frames.iter().zip(again.iter()) {
        assert_eq!(a.canvas.pixels, b.canvas.pixels);
    }
}

#[test]
fn query_text_falls_back_and_trims() {
    assert_eq!(query_text(None), "pigeon");
    assert_eq!(query_text(Some("")), "pigeon");
    assert_eq!(query_text(Some("  hello world \n")), "hello world");
    assert_eq!(normalize_text("\t hi "), "hi");
    assert_eq!(normalize_text("\u{3000}a b\u{a0}"), "a b");
}

#[test]
fn cache_key_is_hex_sha256() {
    assert_eq!(cache_key("pigeon"), "9f79fd6cdc880e3914ac75b50d71222d29d4e5e8680bc14e18e5ef28c1981484");
    assert_eq!(cache_key(""), "e3b0c44298fc1c149afbf4c8996fb92427ae41e4649b934ca495991b7852b855");
    assert_eq!(cache_key("a much longer text to hash").len(), 64);
}

#[test]
fn error_messages() {
    assert_eq!(Error::LoadFont.message(), "Failed to load font data.");
    assert_eq!(Error::NotEnoughText.message(), "Not enough text.");
}

#[test]
fn pigeon_end_to_end() {
    let lines = wrap_text("pigeon").unwrap();
    assert_eq!(lines.len(), 1);
    for (measured_w, slots) in [(140u32, 1usize), (220, 3)] {
        let layout = text_layout(&vec![(measured_w, 61)]).unwrap();
        assert_eq!(layout.height, 61 + 48);
        let base = Canvas::new(layout.width, layout.height);
        let frames = animate(&base, &numbered_sprites(12));
        let changed = |x: u32, y: u32| frames.iter().any(|f| pixel(&f.canvas, x, y) != [0, 0, 0, 0]);
        let w = layout.width - 32;
        let h = layout.height - 32;
        let count = [(10, 10), (w - 42, h - 42), (w / 3, 2 * h / 3)]
            .iter()
            .filter(|&&(x, y)| changed(x, y))
            .count();
        assert_eq!(count, slots);
    }
}
