//! Pixel format conversion, flattening against a background, and image
//! decoding and resizing.

use crate::buffer::{checked_buffer_size, frame_len};
use crate::color::{blend_channel, lemma_blend_channel_bounds, Color};
use crate::types::DecodedImage;
use vstd::prelude::*;
use vstd::string::StringExecFns;

verus! {

/// Byte layouts of a pixel.
#[derive(Debug, Clone, Copy, PartialEq, Eq, Structural)]
pub enum PixelFormat {
    RGB,
    RGBA,
    BGRA,
    BGR,
}

/// Resampling filters.
#[derive(Debug, Clone, Copy, PartialEq, Eq, Structural)]
pub enum ResizeFilter {
    Nearest,
    Triangle,
    CatmullRom,
    Gaussian,
    Lanczos3,
}

/// How images are to be processed.
#[derive(Debug, Clone, Copy, PartialEq, Eq, Structural)]
pub struct ImageProcessingConfig {
    pub resize_filter: ResizeFilter,
    pub maintain_aspect_ratio: bool,
    pub background_color: Option<Color>,
}

impl Default for ImageProcessingConfig {
    fn default() -> (config: ImageProcessingConfig)
        ensures
            config == (ImageProcessingConfig {
                resize_filter: ResizeFilter::Lanczos3,
                maintain_aspect_ratio: true,
                background_color: None,
            }),
    {
        ImageProcessingConfig {
            resize_filter: ResizeFilter::Lanczos3,
            maintain_aspect_ratio: true,
            background_color: None,
        }
    }
}

/// The filter type of the `image` crate.
#[verifier::external_type_specification]
pub struct ExFilterType(image::imageops::FilterType);

/// The error type of the `image` crate.
#[verifier::external_type_specification]
#[verifier::external_body]
pub struct ExImageError(image::ImageError);

impl ResizeFilter {
    /// The filter of the `image` crate with the same name.
    pub fn to_image_filter(&self) -> (filter: image::imageops::FilterType)
        ensures
            filter == match *self {
                ResizeFilter::Nearest => image::imageops::FilterType::Nearest,
                ResizeFilter::Triangle => image::imageops::FilterType::Triangle,
                ResizeFilter::CatmullRom => image::imageops::FilterType::CatmullRom,
                ResizeFilter::Gaussian => image::imageops::FilterType::Gaussian,
                ResizeFilter::Lanczos3 => image::imageops::FilterType::Lanczos3,
            },
    {
        match self {
            ResizeFilter::Nearest => image::imageops::FilterType::Nearest,
            ResizeFilter::Triangle => image::imageops::FilterType::Triangle,
            ResizeFilter::CatmullRom => image::imageops::FilterType::CatmullRom,
            ResizeFilter::Gaussian => image::imageops::FilterType::Gaussian,
            ResizeFilter::Lanczos3 => image::imageops::FilterType::Lanczos3,
        }
    }
}

impl PixelFormat {
    /// The name of the format.
    pub open spec fn name_text(self) -> Seq<char> {
        match self {
            PixelFormat::RGB => "RGB"@,
            PixelFormat::RGBA => "RGBA"@,
            PixelFormat::BGRA => "BGRA"@,
            PixelFormat::BGR => "BGR"@,
        }
    }

    /// The name of the format.
    pub fn name(&self) -> (name: &'static str)
        ensures
            name@ == self.name_text(),
    {
        match self {
            PixelFormat::RGB => "RGB",
            PixelFormat::RGBA => "RGBA",
            PixelFormat::BGRA => "BGRA",
            PixelFormat::BGR => "BGR",
        }
    }
}

/// Whether pixels of format `from` can be converted to format `to`.
pub open spec fn convertible(from: PixelFormat, to: PixelFormat) -> bool {
    ||| (from is RGB && to is RGBA)
    ||| (from is RGBA && to is RGB)
    ||| (from is BGRA && to is RGBA)
}

/// The complete RGB pixels of `data`, each widened by an alpha of 255.
pub open spec fn rgb_to_rgba(data: Seq<u8>) -> Seq<u8> {
    Seq::new(
        4 * (data.len() / 3),
        |i: int|
            if i % 4 == 3 {
                255u8
            } else {
                data[3 * (i / 4) + i % 4]
            },
    )
}

/// The complete RGBA pixels of `data` without their alpha.
pub open spec fn rgba_to_rgb(data: Seq<u8>) -> Seq<u8> {
    Seq::new(3 * (data.len() / 4), |i: int| data[4 * (i / 3) + i % 3])
}

/// The complete BGRA pixels of `data` with blue and red exchanged.
pub open spec fn bgra_to_rgba(data: Seq<u8>) -> Seq<u8> {
    Seq::new(
        4 * (data.len() / 4),
        |i: int|
            if i % 4 == 0 {
                data[i + 2]
            } else if i % 4 == 2 {
                data[i - 2]
            } else {
                data[i]
            },
    )
}

/// The pixels of `data` converted from `from` to `to`, for a convertible pair.
pub open spec fn converted(data: Seq<u8>, from: PixelFormat, to: PixelFormat) -> Seq<u8> {
    if from is RGB {
        rgb_to_rgba(data)
    } else if from is RGBA {
        rgba_to_rgb(data)
    } else {
        bgra_to_rgba(data)
    }
}

/// Message of a conversion between formats that is not offered.
pub open spec fn unsupported_text(from: PixelFormat, to: PixelFormat) -> Seq<char> {
    "Unsupported format conversion: "@ + from.name_text() + " to "@ + to.name_text()
}

/// Converts the complete pixels of `data` from `from_format` to `to_format`:
/// RGB to RGBA (alpha 255), RGBA to RGB (alpha dropped) and BGRA to RGBA
/// (blue and red exchanged). Any other pair is refused. The dimensions do
/// not enter the result.
pub fn convert_pixel_format(
    data: &[u8],
    from_format: PixelFormat,
    to_format: PixelFormat,
    _width: u32,
    _height: u32,
) -> (result: Result<Vec<u8>, String>)
    ensures
        convertible(from_format, to_format) ==> {
            &&& result matches Ok(pixels)
            &&& pixels@ == converted(data@, from_format, to_format)
        },
        !convertible(from_format, to_format) ==> {
            &&& result matches Err(message)
            &&& message@ == unsupported_text(from_format, to_format)
        },
{
    match (from_format, to_format) {
        (PixelFormat::RGB, PixelFormat::RGBA) => {
            let count = data.len() / 3;
            let mut out: Vec<u8> = Vec::new();
            let mut k: usize = 0;
            while k < count
                invariant
                    k <= count,
                    count == data@.len() / 3,
                    3 * count <= data@.len() <= usize::MAX,
                    out@.len() == 4 * k,
                    forall|i: int| 0 <= i < 4 * k ==> out@[i] == rgb_to_rgba(data@)[i],
                decreases count - k,
            {
                out.push(data[3 * k]);
                out.push(data[3 * k + 1]);
                out.push(data[3 * k + 2]);
                out.push(255);
                k = k + 1;
            }
            assert(out@ =~= rgb_to_rgba(data@));
            Ok(out)
        },
        (PixelFormat::RGBA, PixelFormat::RGB) => {
            let count = data.len() / 4;
            let mut out: Vec<u8> = Vec::new();
            let mut k: usize = 0;
            while k < count
                invariant
                    k <= count,
                    count == data@.len() / 4,
                    4 * count <= data@.len() <= usize::MAX,
                    out@.len() == 3 * k,
                    forall|i: int| 0 <= i < 3 * k ==> out@[i] == rgba_to_rgb(data@)[i],
                decreases count - k,
            {
                out.push(data[4 * k]);
                out.push(data[4 * k + 1]);
                out.push(data[4 * k + 2]);
                k = k + 1;
            }
            assert(out@ =~= rgba_to_rgb(data@));
            Ok(out)
        },
        (PixelFormat::BGRA, PixelFormat::RGBA) => {
            let count = data.len() / 4;
            let mut out: Vec<u8> = Vec::new();
            let mut k: usize = 0;
            while k < count
                invariant
                    k <= count,
                    count == data@.len() / 4,
                    4 * count <= data@.len() <= usize::MAX,
                    out@.len() == 4 * k,
                    forall|i: int| 0 <= i < 4 * k ==> out@[i] == bgra_to_rgba(data@)[i],
                decreases count - k,
            {
                out.push(data[4 * k + 2]);
                out.push(data[4 * k + 1]);
                out.push(data[4 * k]);
                out.push(data[4 * k + 3]);
                k = k + 1;
            }
            assert(out@ =~= bgra_to_rgba(data@));
            Ok(out)
        },
        _ => {
            let mut message = String::from_str("Unsupported format conversion: ");
            message.append(from_format.name());
            message.append(" to ");
            message.append(to_format.name());
            Err(message)
        },
    }
}

/// `data` with every complete pixel composited over `background` and made
/// fully opaque; the bytes of a trailing partial pixel stay.
pub open spec fn flattened(data: Seq<u8>, background: Color) -> Seq<u8> {
    Seq::new(
        data.len(),
        |i: int|
            if i < data.len() - data.len() % 4 {
                if i % 4 == 3 {
                    255u8
                } else {
                    blend_channel(data[i], background.channel(i % 4), data[i - i % 4 + 3])
                }
            } else {
                data[i]
            },
    )
}

/// Composites every complete pixel of `image_data` over `background_color`
/// with the pixel's own straight alpha and sets its alpha to 255.
pub fn blend_with_background(image_data: &mut [u8], background_color: &Color)
    ensures
        final(image_data)@ == flattened(old(image_data)@, *background_color),
{
    let len = image_data.len();
    let whole = len - len % 4;
    let mut index: usize = 0;
    while index < whole
        invariant
            index <= whole,
            index % 4 == 0,
            whole == len - len % 4,
            image_data@.len() == len,
            len == old(image_data)@.len(),
            forall|i: int|
                0 <= i < index ==> image_data@[i] == flattened(
                    old(image_data)@,
                    *background_color,
                )[i],
            forall|i: int| index <= i < len ==> image_data@[i] == old(image_data)@[i],
        decreases whole - index,
    {
        let alpha = image_data[index + 3];
        let r = blend_byte(image_data[index], background_color.r, alpha);
        let g = blend_byte(image_data[index + 1], background_color.g, alpha);
        let b = blend_byte(image_data[index + 2], background_color.b, alpha);
        image_data[index] = r;
        image_data[index + 1] = g;
        image_data[index + 2] = b;
        image_data[index + 3] = 255;
        index = index + 4;
    }
    assert(image_data@ =~= flattened(old(image_data)@, *background_color));
}

/// One composited channel.
fn blend_byte(top: u8, under: u8, alpha: u8) -> (out: u8)
    ensures
        out == blend_channel(top, under, alpha),
{
    proof {
        lemma_blend_channel_bounds(top, under, alpha);
        assert(0 <= top * alpha <= 255 * 255) by (nonlinear_arith)
            requires
                0 <= top <= 255,
                0 <= alpha <= 255,
        ;
        assert(0 <= under * (255 - alpha) <= 255 * 255) by (nonlinear_arith)
            requires
                0 <= under <= 255,
                0 <= alpha <= 255,
        ;
    }
    let sum: u32 = (top as u32) * (alpha as u32) + (under as u32) * ((255 - alpha) as u32);
    (sum / 255) as u8
}

/// What `image::load_from_memory`, followed by the conversion to 8-bit RGBA,
/// makes of the encoded bytes `data`: the pixel bytes, the width and the
/// height, or `None` when the bytes do not decode.
pub uninterp spec fn decoded_image(data: Seq<u8>) -> Option<(Seq<u8>, u32, u32)>;

/// What `image::load_from_memory_with_format`, with the format that
/// `image::ImageFormat::from_extension` gives for `extension` and followed
/// by the conversion to 8-bit RGBA, makes of the encoded bytes `data`: the
/// pixel bytes, the width and the height, or `None` when the extension
/// names no format or the bytes do not decode in it.
pub uninterp spec fn decoded_image_as(data: Seq<u8>, extension: Seq<char>) -> Option<
    (Seq<u8>, u32, u32),
>;

/// Width and height of the image that `image::DynamicImage::resize` returns
/// for a source of `source_width` by `source_height` pixels and the bounds
/// `target_width` by `target_height`.
pub uninterp spec fn fitted_size(
    source_width: u32,
    source_height: u32,
    target_width: u32,
    target_height: u32,
) -> (u32, u32);

/// Message for pixel data that does not match its dimensions.
pub open spec fn invalid_image_text() -> Seq<char> {
    "Invalid image dimensions or data"@
}

/// Start of the message of a failed decoding; the decoder's detail follows.
pub open spec fn load_failure_prefix() -> Seq<char> {
    "Failed to load image: "@
}

/// The larger of `v` and one.
pub open spec fn at_least_one(v: int) -> int {
    if v < 1 {
        1
    } else {
        v
    }
}

/// Whether the buffers of a resize stay within what a vector can hold: the
/// intermediate image of `source_width` by `target_height` pixels of four
/// 32-bit channels, and the result within `target_width` by `target_height`.
pub open spec fn resize_fits(source_width: u32, target_width: u32, target_height: u32) -> bool {
    &&& 16 * source_width * at_least_one(target_height as int) <= isize::MAX
    &&& 4 * at_least_one(target_width as int) * at_least_one(target_height as int) <= isize::MAX
}

/// Calls `image::load_from_memory` on `data` and converts the image to 8-bit
/// RGBA with `to_rgba8`. The contract claims that the outcome is the one
/// named [`decoded_image`], and that a decoded image has four bytes for each
/// of its `width * height` pixels.
#[verifier::external_body]
fn decode_rgba(data: &[u8]) -> (result: Result<(Vec<u8>, u32, u32), image::ImageError>)
    ensures
        match result {
            Ok((pixels, width, height)) => {
                &&& decoded_image(data@) == Some((pixels@, width, height))
                &&& pixels@.len() == frame_len(width as int, height as int)
            },
            Err(_) => decoded_image(data@) is None,
        },
{
    let rgba = image::load_from_memory(data)?.to_rgba8();
    let (width, height) = rgba.dimensions();
    Ok((rgba.into_raw(), width, height))
}

/// Picks the format with `image::ImageFormat::from_extension`, calls
/// `image::load_from_memory_with_format` on `data` and converts the image to
/// 8-bit RGBA with `to_rgba8`. An extension that names no format gives the
/// crate's error for an unsupported path extension. The contract claims that
/// the outcome is the one named [`decoded_image_as`], and that a decoded
/// image has four bytes for each of its `width * height` pixels.
#[verifier::external_body]
fn decode_rgba_as(data: &[u8], extension: &str) -> (result: Result<
    (Vec<u8>, u32, u32),
    image::ImageError,
>)
    ensures
        match result {
            Ok((pixels, width, height)) => {
                &&& decoded_image_as(data@, extension@) == Some((pixels@, width, height))
                &&& pixels@.len() == frame_len(width as int, height as int)
            },
            Err(_) => decoded_image_as(data@, extension@) is None,
        },
{
    let unknown = image::error::ImageFormatHint::PathExtension(extension.into());
    let format = image::ImageFormat::from_extension(extension)
        .ok_or(image::ImageError::Unsupported(unknown.into()))?;
    let rgba = image::load_from_memory_with_format(data, format)?.to_rgba8();
    let (width, height) = rgba.dimensions();
    Ok((rgba.into_raw(), width, height))
}

/// The text that `image::ImageError` displays. Nothing is claimed of it.
#[verifier::external_body]
fn image_error_text(error: &image::ImageError) -> (text: String) {
    error.to_string()
}

/// Wraps `data` in an `image::RgbaImage` with `from_raw` and resizes it with
/// `image::DynamicImage::resize` and `filter`, which keeps the aspect ratio.
/// The contract claims that `from_raw` accepts the data exactly when it
/// holds four bytes for each of the `source_width * source_height` pixels,
/// and that the result has four bytes for each pixel of the size named
/// [`fitted_size`], whatever the filter. The pixel values depend on the
/// filter and, with a filter that takes a sine, on the platform; they are
/// left open.
#[verifier::external_body]
fn resample(
    data: &[u8],
    source_width: u32,
    source_height: u32,
    target_width: u32,
    target_height: u32,
    filter: image::imageops::FilterType,
) -> (result: Option<Vec<u8>>)
    requires
        resize_fits(source_width, target_width, target_height),
    ensures
        result is Some <==> frame_len(source_width as int, source_height as int) <= data@.len(),
        result matches Some(pixels) ==> pixels@.len() == frame_len(
            fitted_size(source_width, source_height, target_width, target_height).0 as int,
            fitted_size(source_width, source_height, target_width, target_height).1 as int,
        ),
{
    let source = image::RgbaImage::from_raw(source_width, source_height, data.to_vec())?;
    let resized = image::DynamicImage::ImageRgba8(source).resize(
        target_width,
        target_height,
        filter,
    );
    Some(resized.to_rgba8().into_raw())
}

impl DecodedImage {
    /// An image of `width` by `height` pixels over the RGBA bytes `data`,
    /// which must be four for each pixel; other data is refused.
    pub fn from_rgba(data: Vec<u8>, width: u32, height: u32) -> (result: Result<
        DecodedImage,
        String,
    >)
        ensures
            data@.len() == frame_len(width as int, height as int) ==> {
                &&& result matches Ok(image)
                &&& image@.data == data@
                &&& image@.width == width
                &&& image@.height == height
            },
            data@.len() != frame_len(width as int, height as int) ==> {
                &&& result matches Err(message)
                &&& message@ == invalid_image_text()
            },
    {
        let actual = data.len();
        match checked_buffer_size(width, height) {
            Some(len) => {
                if actual == len {
                    return Ok(DecodedImage { data, width, height });
                }
            },
            None => {},
        }
        Err(String::from_str("Invalid image dimensions or data"))
    }
}

/// Decodes an encoded image, of a format guessed from its first bytes, to
/// RGBA.
pub fn load_image_from_memory(data: &[u8]) -> (result: Result<DecodedImage, String>)
    ensures
        match result {
            Ok(image) => {
                &&& decoded_image(data@) == Some((image@.data, image@.width, image@.height))
                &&& image@.data.len() == frame_len(image@.width as int, image@.height as int)
            },
            Err(message) => {
                &&& decoded_image(data@) is None
                &&& message@.len() >= load_failure_prefix().len()
                &&& message@.subrange(0, load_failure_prefix().len() as int)
                    == load_failure_prefix()
            },
        },
{
    match decode_rgba(data) {
        Ok((pixels, width, height)) => {
            let image = DecodedImage::from_rgba(pixels, width, height);
            image
        },
        Err(error) => {
            let detail = image_error_text(&error);
            let mut message = String::from_str("Failed to load image: ");
            message.append(detail.as_str());
            assert(message@.subrange(0, load_failure_prefix().len() as int)
                =~= load_failure_prefix());
            Err(message)
        },
    }
}

/// Start of the message of a failed opening; the detail follows.
pub open spec fn open_failure_prefix() -> Seq<char> {
    "Failed to open image: "@
}

/// Decodes the bytes of an image file to RGBA. The format follows from
/// `extension`, the extension of the file's name without its dot and in any
/// letter case, not from the bytes.
pub fn load_image_bytes(data: &[u8], extension: &str) -> (result: Result<DecodedImage, String>)
    ensures
        match result {
            Ok(image) => {
                &&& decoded_image_as(data@, extension@) == Some(
                    (image@.data, image@.width, image@.height),
                )
                &&& image@.data.len() == frame_len(image@.width as int, image@.height as int)
            },
            Err(message) => {
                &&& decoded_image_as(data@, extension@) is None
                &&& message@.len() >= open_failure_prefix().len()
                &&& message@.subrange(0, open_failure_prefix().len() as int)
                    == open_failure_prefix()
            },
        },
{
    match decode_rgba_as(data, extension) {
        Ok((pixels, width, height)) => {
            let image = DecodedImage::from_rgba(pixels, width, height);
            image
        },
        Err(error) => {
            let detail = image_error_text(&error);
            let mut message = String::from_str("Failed to open image: ");
            message.append(detail.as_str());
            assert(message@.subrange(0, open_failure_prefix().len() as int)
                =~= open_failure_prefix());
            Err(message)
        },
    }
}

/// Whether `scale * a * b` is at most `limit`, with `a` and `b` raised to at
/// least one.
fn product_fits(a: u32, b: u32, scale: u128, limit: u128) -> (fits: bool)
    requires
        scale <= 16,
    ensures
        fits == (scale * at_least_one(a as int) * at_least_one(b as int) <= limit),
{
    let a1: u128 = if a < 1 {
        1
    } else {
        a as u128
    };
    let b1: u128 = if b < 1 {
        1
    } else {
        b as u128
    };
    assert(scale * a1 * b1 <= 16 * 0xffff_ffff * 0xffff_ffff) by (nonlinear_arith)
        requires
            0 <= scale <= 16,
            0 <= a1 <= 0xffff_ffff,
            0 <= b1 <= 0xffff_ffff,
    ;
    assert(scale * a1 <= 16 * 0xffff_ffff) by (nonlinear_arith)
        requires
            0 <= scale <= 16,
            0 <= a1 <= 0xffff_ffff,
    ;
    scale * a1 * b1 <= limit
}

/// Resizes the RGBA image `image_data` of `source_width` by `source_height`
/// pixels to fit within `target_width` by `target_height`, keeping its aspect
/// ratio, with the Lanczos3 filter. Data of fewer than four bytes for each
/// source pixel is refused, and so are dimensions whose buffers no vector can
/// hold.
pub fn resize_image(
    image_data: &[u8],
    source_width: u32,
    source_height: u32,
    target_width: u32,
    target_height: u32,
) -> (result: Result<Vec<u8>, String>)
    ensures
        result is Ok <==> (frame_len(source_width as int, source_height as int) <= image_data@.len() && resize_fits(
            source_width,
            target_width,
            target_height,
        )),
        result matches Ok(pixels) ==> pixels@.len() == frame_len(
            fitted_size(source_width, source_height, target_width, target_height).0 as int,
            fitted_size(source_width, source_height, target_width, target_height).1 as int,
        ),
        result matches Err(message) ==> message@ == invalid_image_text(),
{
    let limit: u128 = isize::MAX as u128;
    let fits = if source_width == 0 {
        true
    } else {
        product_fits(source_width, target_height, 16, limit)
    } && product_fits(target_width, target_height, 4, limit);
    proof {
        if source_width == 0 {
            assert(16 * source_width * at_least_one(target_height as int) == 0) by (nonlinear_arith)
                requires
                    source_width == 0,
            ;
        }
    }
    if !fits {
        return Err(String::from_str("Invalid image dimensions or data"));
    }
    let filter = ResizeFilter::Lanczos3.to_image_filter();
    match resample(image_data, source_width, source_height, target_width, target_height, filter) {
        Some(pixels) => Ok(pixels),
        None => Err(String::from_str("Invalid image dimensions or data")),
    }
}

} // verus!
