//! `Frame`: the unit of data that flows through the pipeline, a
//! `[height, width, channels]` byte tensor with its stream metadata, and
//! its construction from images decoded by the `image` crate.

use vstd::prelude::*;

use crate::pixels::{PixelBuffer, PixelView};

verus! {

/// Metadata of a video or image frame.
#[derive(Debug, Clone)]
pub struct FrameMeta {
    /// Position of the frame in its stream, counted from 0.
    pub index: u64,
    /// Microseconds since the start of the stream.
    pub timestamp_us: u64,
    /// Where the frame came from (file name, device, URL).
    pub source: String,
}

/// A frame: metadata plus a `[height, width, channels]` tensor of bytes
/// (RGB has 3 channels, RGBA 4, luminance 1).
#[derive(Debug)]
pub struct Frame {
    /// Frame metadata.
    pub meta: FrameMeta,
    /// Pixel tensor `[H, W, C]`.
    pub data: PixelBuffer,
}

impl Frame {
    /// A frame made of the given metadata and tensor.
    pub fn new(meta: FrameMeta, data: PixelBuffer) -> (res: Frame)
        ensures
            res.meta == meta,
            res.data == data,
    {
        Frame { meta, data }
    }

    /// Number of rows of the tensor.
    pub fn height(&self) -> (res: usize)
        ensures
            res == self.data@.height,
            self.data@.wf(),
    {
        self.data.height()
    }

    /// Number of columns of the tensor.
    pub fn width(&self) -> (res: usize)
        ensures
            res == self.data@.width,
            self.data@.wf(),
    {
        self.data.width()
    }

    /// Number of channels per pixel.
    pub fn channels(&self) -> (res: usize)
        ensures
            res == self.data@.channels,
            self.data@.wf(),
    {
        self.data.channels()
    }

    /// `true` exactly when the frame has a single (luminance) channel.
    pub fn is_grayscale(&self) -> (res: bool)
        ensures
            res == (self.data@.channels == 1),
    {
        self.channels() == 1
    }
}


#[verifier::external_type_specification]
#[verifier::external_body]
pub struct ExDynamicImage(image::DynamicImage);

/// `(width, height, bytes)` of the RGB8 buffer that
/// `image::DynamicImage::into_rgb8` makes of an image: a function of the
/// image alone.
pub uninterp spec fn rgb8_parts_of(img: image::DynamicImage) -> (u32, u32, Seq<u8>);

/// `(width, height, bytes)` of the RGBA8 buffer that
/// `image::DynamicImage::into_rgba8` makes of an image.
pub uninterp spec fn rgba8_parts_of(img: image::DynamicImage) -> (u32, u32, Seq<u8>);

/// Calls `image::DynamicImage::into_rgb8`, then `dimensions` and
/// `into_raw` of the resulting buffer, giving `(width, height, bytes)`.
///
/// Claimed of the outside code: the result is [`rgb8_parts_of`] the image,
/// and the buffer holds at least `width * height * 3` bytes (the
/// `ImageBuffer` constructors refuse smaller containers). What the pixel
/// values are is left to the name.
#[verifier::external_body]
fn into_rgb8_parts(img: image::DynamicImage) -> (res: (u32, u32, Vec<u8>))
    ensures
        (res.0, res.1, res.2@) == rgb8_parts_of(img),
        res.0 * res.1 * 3 <= res.2@.len(),
{
    let rgb = img.into_rgb8();
    let (w, h) = rgb.dimensions();
    (w, h, rgb.into_raw())
}

/// Calls `image::DynamicImage::into_rgba8`, then `dimensions` and
/// `into_raw` of the resulting buffer, giving `(width, height, bytes)`.
///
/// Claimed of the outside code: the result is [`rgba8_parts_of`] the
/// image, and the buffer holds at least `width * height * 4` bytes. What
/// the pixel values are is left to the name.
#[verifier::external_body]
fn into_rgba8_parts(img: image::DynamicImage) -> (res: (u32, u32, Vec<u8>))
    ensures
        (res.0, res.1, res.2@) == rgba8_parts_of(img),
        res.0 * res.1 * 4 <= res.2@.len(),
{
    let rgba = img.into_rgba8();
    let (w, h) = rgba.dimensions();
    (w, h, rgba.into_raw())
}

impl Frame {
    /// A frame from an interleaved `width × height` image with `channels`
    /// bytes per pixel, rows first; refused unless `raw` holds exactly one
    /// byte per (row, column, channel).
    pub fn from_raw_parts(meta: FrameMeta, width: u32, height: u32, channels: usize, raw: Vec<u8>) -> (res: Option<Frame>)
        ensures
            res is Some <==> height * width * channels == raw@.len(),
            res matches Some(f) ==> f.meta == meta && f.data@ == (PixelView {
                height: height as nat,
                width: width as nat,
                channels: channels as nat,
                data: raw@,
            }),
    {
        match PixelBuffer::from_shape_vec((height as usize, width as usize, channels), raw) {
            Ok(data) => Some(Frame::new(meta, data)),
            Err(_) => None,
        }
    }

    /// A frame from a decoded image converted to RGB8 (3 channels): its
    /// height, width and row-major bytes are those of the converted buffer.
    ///
    /// `None` when the converted buffer holds more bytes than its pixels
    /// need, which the `image` crate allows for caller-built buffers.
    pub fn from_dynamic_image(meta: FrameMeta, img: image::DynamicImage) -> (res: Option<Frame>)
        ensures
            ({
                let (w, h, raw) = rgb8_parts_of(img);
                &&& res is Some <==> h * w * 3 == raw.len()
                &&& res matches Some(f) ==> f.meta == meta && f.data@ == (PixelView {
                    height: h as nat,
                    width: w as nat,
                    channels: 3,
                    data: raw,
                })
            }),
    {
        let (w, h, raw) = into_rgb8_parts(img);
        Frame::from_raw_parts(meta, w, h, 3, raw)
    }

    /// A frame from a decoded image converted to RGBA8 (4 channels, alpha
    /// kept): its height, width and row-major bytes are those of the
    /// converted buffer.
    ///
    /// `None` when the converted buffer holds more bytes than its pixels
    /// need.
    pub fn from_dynamic_image_rgba(meta: FrameMeta, img: image::DynamicImage) -> (res: Option<Frame>)
        ensures
            ({
                let (w, h, raw) = rgba8_parts_of(img);
                &&& res is Some <==> h * w * 4 == raw.len()
                &&& res matches Some(f) ==> f.meta == meta && f.data@ == (PixelView {
                    height: h as nat,
                    width: w as nat,
                    channels: 4,
                    data: raw,
                })
            }),
    {
        let (w, h, raw) = into_rgba8_parts(img);
        Frame::from_raw_parts(meta, w, h, 4, raw)
    }
}

} // verus!
