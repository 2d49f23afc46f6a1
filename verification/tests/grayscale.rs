use perceptor::engine::frame::{Frame, FrameMeta};
use perceptor::plugins::filters::grayscale::{convert_to_gray, grayscale_frame, pixel_luma};
use perceptor::pixels::PixelBuffer;

fn luma_f32(r: u8, g: u8, b: u8) -> u8 {
    (0.299 * r as f32 + 0.587 * g as f32 + 0.114 * b as f32) as u8
}

#[test]
fn white_pixel() {
    let input = PixelBuffer::from_elem((1, 1, 3), 255u8);
    let out = convert_to_gray(&input);
    assert_eq!(out.shape(), [1, 1, 1]);
    assert_eq!(out.get(0, 0, 0), 255);
}

#[test]
fn black_pixel() {
    let input = PixelBuffer::zeros((1, 1, 3));
    let out = convert_to_gray(&input);
    assert_eq!(out.get(0, 0, 0), 0);
}

#[test]
fn pure_red() {
    // R=255, G=0, B=0 → Y = 0.299 * 255 ≈ 76
    let mut input = PixelBuffer::zeros((1, 1, 3));
    input.set(0, 0, 0, 255);
    let out = convert_to_gray(&input);
    assert_eq!(out.get(0, 0, 0), (0.299f32 * 255.0) as u8); // 76
}

#[test]
fn output_shape() {
    let input = PixelBuffer::from_elem((4, 6, 3), 128u8);
    let out = convert_to_gray(&input);
    assert_eq!(out.shape(), [4, 6, 1]);
}

#[test]
fn grayscale_system_tags_entity() {
    let meta = FrameMeta { index: 0, timestamp_us: 0, source: "test".into() };
    let data = PixelBuffer::from_elem((2, 2, 3), 200u8);
    let mut frame = Frame::new(meta, data);
    let tagged = grayscale_frame(&mut frame);
    assert!(tagged);
    assert_eq!(frame.channels(), 1);
}

#[test]
fn luma_matches_binary32_formula_on_a_grid() {
    for r in 0..=255u8 {
        for g in 0..=255u8 {
            for b in [0u8, 1, 2, 3, 4, 7, 29, 64, 100, 127, 128, 200, 254, 255] {
                assert_eq!(pixel_luma(r, g, b), luma_f32(r, g, b), "rgb = ({r}, {g}, {b})");
            }
        }
    }
}

#[test]
fn luma_matches_binary32_formula_where_rounding_lands_below_integers() {
    // Inputs whose exact luminance is a whole number that binary32 misses
    // from below, so the truncated byte is one less than the exact value.
    for (r, g, b) in [(115u8, 23u8, 1u8), (184, 10, 1), (234, 160, 1), (53, 19, 0), (61, 3, 0)] {
        assert_eq!(pixel_luma(r, g, b), luma_f32(r, g, b));
    }
    assert_eq!(pixel_luma(115, 23, 1), 47);
    assert_eq!(pixel_luma(37, 37, 37), luma_f32(37, 37, 37));
}

#[test]
fn primaries_have_their_bt601_weights() {
    assert_eq!(pixel_luma(0, 255, 0), 149);
    assert_eq!(pixel_luma(0, 0, 255), 29);
    assert_eq!(pixel_luma(255, 255, 255), 255);
}

#[test]
fn conversion_keeps_pixel_positions() {
    let raw = vec![255, 0, 0, 0, 255, 0, 0, 0, 255, 255, 255, 255, 0, 0, 0, 10, 20, 30];
    let input = PixelBuffer::from_shape_vec((2, 3, 3), raw.clone()).unwrap();
    let out = convert_to_gray(&input);
    assert_eq!(out.shape(), [2, 3, 1]);
    let gray = out.into_raw_vec();
    for i in 0..6 {
        assert_eq!(gray[i], luma_f32(raw[3 * i], raw[3 * i + 1], raw[3 * i + 2]));
    }
}

#[test]
fn non_rgb_frames_are_left_alone() {
    let meta = FrameMeta { index: 3, timestamp_us: 9, source: "rgba".into() };
    let data = PixelBuffer::from_elem((2, 2, 4), 7u8);
    let mut frame = Frame::new(meta, data);
    assert!(!grayscale_frame(&mut frame));
    assert_eq!(frame.channels(), 4);
    assert_eq!(frame.data.as_slice(), &[7u8; 16][..]);
    assert_eq!(frame.meta.index, 3);
}

#[test]
fn converting_twice_equals_converting_once() {
    let meta = FrameMeta { index: 0, timestamp_us: 0, source: "twice".into() };
    let raw: Vec<u8> = (0..27u8).map(|v| v * 9).collect();
    let mut frame = Frame::new(meta, PixelBuffer::from_shape_vec((3, 3, 3), raw).unwrap());
    assert!(grayscale_frame(&mut frame));
    let once = frame.data.as_slice().to_vec();
    assert!(!grayscale_frame(&mut frame));
    assert_eq!(frame.data.as_slice(), &once[..]);
}

fn check_blue_range(lo: u8, hi: u8) {
    for b in lo..=hi {
        for r in 0..=255u8 {
            for g in 0..=255u8 {
                assert_eq!(pixel_luma(r, g, b), luma_f32(r, g, b), "rgb = ({r}, {g}, {b})");
            }
        }
    }
}

#[test]
fn luma_matches_binary32_formula_blue_0_to_63() {
    check_blue_range(0, 63);
}

#[test]
fn luma_matches_binary32_formula_blue_64_to_127() {
    check_blue_range(64, 127);
}

#[test]
fn luma_matches_binary32_formula_blue_128_to_191() {
    check_blue_range(128, 191);
}

#[test]
fn luma_matches_binary32_formula_blue_192_to_255() {
    check_blue_range(192, 255);
}

#[test]
fn brighter_input_never_gives_darker_luminance() {
    let dark = PixelBuffer::from_shape_vec((1, 3, 3), vec![10, 20, 30, 0, 0, 0, 200, 100, 50]).unwrap();
    let bright = PixelBuffer::from_shape_vec((1, 3, 3), vec![11, 20, 31, 0, 1, 0, 255, 100, 50]).unwrap();
    let d = convert_to_gray(&dark).into_raw_vec();
    let b = convert_to_gray(&bright).into_raw_vec();
    for i in 0..3 {
        assert!(d[i] <= b[i], "pixel {i}: {} > {}", d[i], b[i]);
    }
    for v in 0..255u8 {
        assert!(pixel_luma(v, v, v) <= pixel_luma(v + 1, v, v));
        assert!(pixel_luma(v, v, v) <= pixel_luma(v, v + 1, v));
        assert!(pixel_luma(v, v, v) <= pixel_luma(v, v, v + 1));
    }
}
