use perceptor::engine::frame::{Frame, FrameMeta};
use perceptor::plugins::io::config::ImageFormat;
use perceptor::plugins::io::image_writer::PixelLayout;
use perceptor::plugins::io::{io_registrations, IoConfig};
use perceptor::engine::pipeline::{PipelineState, Registration, SystemKind};
use perceptor::pixels::PixelBuffer;
use perceptor::engine::schedule::Stage;

fn test_image(width: u32, height: u32) -> image::DynamicImage {
    let mut img = image::RgbImage::new(width, height);
    for (x, y, pixel) in img.enumerate_pixels_mut() {
        *pixel = image::Rgb([(x * 40) as u8, (y * 30) as u8, 100u8]);
    }
    image::DynamicImage::ImageRgb8(img)
}

#[test]
fn reads_image_and_spawns_frame_entity() {
    let mut config = IoConfig::new("input.png".to_string(), "output_read.png".to_string(), ImageFormat::default());
    let mut state = PipelineState::default();

    assert!(config.reader_should_open(&mut state));
    let meta = config.next_frame_meta();
    let frame = Frame::from_dynamic_image(meta, test_image(4, 6));
    let spawned = config.reader_accept(&mut state, frame).expect("frame spawned");

    assert_eq!(spawned.channels(), 3, "PNG RGB deve ter 3 canais");
    assert_eq!(spawned.height(), 6);
    assert_eq!(spawned.width(), 4);
    assert_eq!(spawned.meta.index, 0);
    assert_eq!(spawned.meta.source, "input.png");
    assert_eq!(config.next_index, 1);
    assert!(!state.should_stop);
    // pixel (x = 2, y = 1) holds (80, 30, 100)
    assert_eq!(spawned.data.get(1, 2, 0), 80);
    assert_eq!(spawned.data.get(1, 2, 1), 30);
    assert_eq!(spawned.data.get(1, 2, 2), 100);
}

#[test]
fn sets_should_stop_on_invalid_path() {
    let mut config = IoConfig::new("nonexistent_xyz.png".to_string(), "output_err.png".to_string(), ImageFormat::Png);
    let mut state = PipelineState::default();
    assert!(config.reader_should_open(&mut state));
    // opening the file failed
    let spawned = config.reader_accept(&mut state, None);
    assert!(state.should_stop, "should_stop deve ser true para path inválido");
    assert!(spawned.is_none(), "nenhum frame deve ser spawned");
    assert_eq!(config.next_index, 0);
}

#[test]
fn empty_input_path_stops_without_opening() {
    let config = IoConfig::new(String::new(), "out.png".to_string(), ImageFormat::Png);
    let mut state = PipelineState::default();
    assert!(!config.reader_should_open(&mut state));
    assert!(state.should_stop);
    assert_eq!(state.tick_count, 0);
}

#[test]
fn frames_are_numbered_in_reading_order() {
    let mut config = IoConfig::new("clip.png".to_string(), "out.png".to_string(), ImageFormat::Jpeg);
    let mut state = PipelineState::default();
    for expected in 0..3u64 {
        let meta = config.next_frame_meta();
        assert_eq!(meta.index, expected);
        assert_eq!(meta.timestamp_us, 0);
        let frame = Frame::from_dynamic_image(meta, test_image(2, 2));
        let spawned = config.reader_accept(&mut state, frame).unwrap();
        assert_eq!(spawned.meta.index, expected);
    }
    assert_eq!(config.next_index, 3);
}

#[test]
fn rgba_conversion_keeps_alpha() {
    let mut img = image::RgbaImage::new(3, 2);
    for pixel in img.pixels_mut() {
        *pixel = image::Rgba([1, 2, 3, 4]);
    }
    let meta = FrameMeta { index: 0, timestamp_us: 0, source: "rgba".into() };
    let frame = Frame::from_dynamic_image_rgba(meta, image::DynamicImage::ImageRgba8(img)).unwrap();
    assert_eq!(frame.data.shape(), [2, 3, 4]);
    assert_eq!(frame.data.get(1, 2, 3), 4);
    assert!(!frame.is_grayscale());
}

#[test]
fn rgb_frame_keeps_width_and_height_apart() {
    let mut img = image::RgbImage::new(3, 1);
    img.put_pixel(2, 0, image::Rgb([9, 8, 7]));
    let meta = FrameMeta { index: 0, timestamp_us: 0, source: "wide".into() };
    let frame = Frame::from_dynamic_image(meta, image::DynamicImage::ImageRgb8(img)).unwrap();
    assert_eq!(frame.data.shape(), [1, 3, 3]);
    assert_eq!(frame.data.get(0, 2, 0), 9);
    assert_eq!(frame.data.get(0, 2, 2), 7);
}

#[test]
fn failed_read_at_the_last_index_only_stops() {
    let mut config = IoConfig::new("x.png".to_string(), "y.png".to_string(), ImageFormat::Png);
    config.next_index = u64::MAX;
    let mut state = PipelineState::default();
    assert!(config.reader_accept(&mut state, None).is_none());
    assert!(state.should_stop);
    assert_eq!(config.next_index, u64::MAX);
}

#[test]
fn luma_image_converts_to_three_equal_channels() {
    let img = image::DynamicImage::ImageLuma8(image::GrayImage::from_pixel(2, 2, image::Luma([77])));
    let meta = FrameMeta { index: 0, timestamp_us: 0, source: "luma".into() };
    let frame = Frame::from_dynamic_image(meta, img).unwrap();
    assert_eq!(frame.data.shape(), [2, 2, 3]);
    assert_eq!(frame.data.as_slice(), &[77u8; 12][..]);
}

#[test]
fn oversized_buffers_are_refused() {
    let buf = image::RgbImage::from_raw(1, 1, vec![1, 2, 3, 4]).unwrap();
    let meta = FrameMeta { index: 0, timestamp_us: 0, source: "long".into() };
    assert!(Frame::from_dynamic_image(meta, image::DynamicImage::ImageRgb8(buf)).is_none());
}

#[test]
fn raw_parts_must_match_the_shape() {
    let meta = FrameMeta { index: 5, timestamp_us: 6, source: "raw".into() };
    assert!(Frame::from_raw_parts(meta.clone(), 2, 2, 3, vec![0; 11]).is_none());
    let frame = Frame::from_raw_parts(meta, 2, 1, 3, vec![1, 2, 3, 4, 5, 6]).unwrap();
    assert_eq!(frame.data.shape(), [1, 2, 3]);
    assert_eq!(frame.data.get(0, 1, 0), 4);
    assert_eq!(frame.meta.index, 5);
}

#[test]
fn writer_needs_an_output_path_and_always_stops() {
    let meta = FrameMeta { index: 0, timestamp_us: 0, source: "w".into() };
    let frames = vec![
        Frame::new(meta.clone(), PixelBuffer::zeros((2, 3, 1))),
        Frame::new(meta, PixelBuffer::zeros((4, 5, 3))),
    ];

    let config = IoConfig::new("in.png".to_string(), String::new(), ImageFormat::Png);
    let mut state = PipelineState::default();
    assert!(config.writer_plan(&mut state, &frames).is_empty());
    assert!(state.should_stop);

    let config = IoConfig::new("in.png".to_string(), "out.png".to_string(), ImageFormat::Png);
    let mut state = PipelineState::default();
    let plan = config.writer_plan(&mut state, &frames);
    assert!(state.should_stop);
    assert_eq!(plan.len(), 2);
    assert_eq!((plan[0].width, plan[0].height, plan[0].layout), (3, 2, PixelLayout::Luma8));
    assert_eq!((plan[1].width, plan[1].height, plan[1].layout), (5, 4, PixelLayout::Rgb8));
}

#[test]
fn writer_encodes_luma_and_rgb() {
    let meta = FrameMeta { index: 0, timestamp_us: 0, source: "enc".into() };
    let gray = Frame::new(meta.clone(), PixelBuffer::zeros((8, 5, 1)));
    let req = gray.encode_request();
    assert_eq!((req.width, req.height, req.layout), (5, 8, PixelLayout::Luma8));
    let rgb = Frame::new(meta, PixelBuffer::zeros((3, 4, 3)));
    let req = rgb.encode_request();
    assert_eq!((req.width, req.height, req.layout), (4, 3, PixelLayout::Rgb8));
}

#[test]
fn io_plugin_places_reader_and_writer() {
    assert_eq!(
        io_registrations(),
        vec![
            Registration { stage: Stage::Input, system: SystemKind::ImageReader },
            Registration { stage: Stage::Output, system: SystemKind::ImageWriter },
        ]
    );
}

#[test]
fn image_format_defaults_to_png() {
    assert_eq!(ImageFormat::default(), ImageFormat::Png);
}
