use overlay::color::Color;
use overlay::image::{
    blend_with_background, convert_pixel_format, load_image_bytes, load_image_from_memory,
    resize_image,
    ImageProcessingConfig, PixelFormat, ResizeFilter,
};
use overlay::types::DecodedImage;

/// A 2 by 2 bitmap: red, green / blue, white.
const BITMAP: [u8; 70] = [
    66, 77, 70, 0, 0, 0, 0, 0, 0, 0, 54, 0, 0, 0, 40, 0, 0, 0, 2, 0, 0, 0, 2, 0, 0, 0, 1, 0, 24,
    0, 0, 0, 0, 0, 16, 0, 0, 0, 19, 11, 0, 0, 19, 11, 0, 0, 0, 0, 0, 0, 0, 0, 0, 0, 255, 0, 0,
    255, 255, 255, 0, 0, 0, 0, 255, 0, 255, 0, 0, 0,
];

/// A 1 by 1 PNG with the pixel (10, 20, 30, 40).
const PNG: [u8; 70] = [
    137, 80, 78, 71, 13, 10, 26, 10, 0, 0, 0, 13, 73, 72, 68, 82, 0, 0, 0, 1, 0, 0, 0, 1, 8, 6,
    0, 0, 0, 31, 21, 196, 137, 0, 0, 0, 13, 73, 68, 65, 84, 120, 156, 99, 224, 18, 145, 211, 0,
    0, 0, 205, 0, 101, 106, 153, 132, 66, 0, 0, 0, 0, 73, 69, 78, 68, 174, 66, 96, 130,
];

#[test]
fn rgb_widens_to_rgba() {
    let out = convert_pixel_format(&[1, 2, 3, 4, 5, 6], PixelFormat::RGB, PixelFormat::RGBA, 2, 1);
    assert_eq!(out, Ok(vec![1, 2, 3, 255, 4, 5, 6, 255]));
    // an incomplete pixel is dropped
    let out = convert_pixel_format(&[1, 2, 3, 4, 5], PixelFormat::RGB, PixelFormat::RGBA, 2, 1);
    assert_eq!(out, Ok(vec![1, 2, 3, 255]));
}

#[test]
fn rgba_narrows_to_rgb() {
    let data = [1, 2, 3, 4, 5, 6, 7, 8, 9];
    let out = convert_pixel_format(&data, PixelFormat::RGBA, PixelFormat::RGB, 2, 1);
    assert_eq!(out, Ok(vec![1, 2, 3, 5, 6, 7]));
}

#[test]
fn bgra_swaps_to_rgba() {
    let data = [1, 2, 3, 4, 5, 6, 7, 8];
    let out = convert_pixel_format(&data, PixelFormat::BGRA, PixelFormat::RGBA, 2, 1);
    assert_eq!(out, Ok(vec![3, 2, 1, 4, 7, 6, 5, 8]));
    assert_eq!(
        convert_pixel_format(&[], PixelFormat::BGRA, PixelFormat::RGBA, 0, 0),
        Ok(vec![])
    );
}

#[test]
fn other_conversions_are_refused() {
    let formats = [PixelFormat::RGB, PixelFormat::RGBA, PixelFormat::BGRA, PixelFormat::BGR];
    let mut refused = 0;
    for from in formats {
        for to in formats {
            let offered = matches!(
                (from, to),
                (PixelFormat::RGB, PixelFormat::RGBA)
                    | (PixelFormat::RGBA, PixelFormat::RGB)
                    | (PixelFormat::BGRA, PixelFormat::RGBA)
            );
            let out = convert_pixel_format(&[0u8; 12], from, to, 1, 1);
            assert_eq!(out.is_ok(), offered);
            if !offered {
                refused += 1;
                assert_eq!(
                    out,
                    Err(format!("Unsupported format conversion: {:?} to {:?}", from, to))
                );
            }
        }
    }
    assert_eq!(refused, 13);
    assert_eq!(
        convert_pixel_format(&[], PixelFormat::RGBA, PixelFormat::BGRA, 0, 0),
        Err("Unsupported format conversion: RGBA to BGRA".to_string())
    );
}

#[test]
fn flattening_composites_and_makes_opaque() {
    let mut data = vec![200, 10, 128, 128, 1, 2, 3, 0, 4, 5, 6, 255, 7, 7];
    blend_with_background(&mut data, &Color::new(100, 250, 50, 9));
    assert_eq!(data, vec![150, 129, 89, 255, 100, 250, 50, 255, 4, 5, 6, 255, 7, 7]);
}

#[test]
fn filters_map_by_name() {
    assert_eq!(ResizeFilter::Nearest.to_image_filter(), image::imageops::FilterType::Nearest);
    assert_eq!(ResizeFilter::Triangle.to_image_filter(), image::imageops::FilterType::Triangle);
    assert_eq!(ResizeFilter::CatmullRom.to_image_filter(), image::imageops::FilterType::CatmullRom);
    assert_eq!(ResizeFilter::Gaussian.to_image_filter(), image::imageops::FilterType::Gaussian);
    assert_eq!(ResizeFilter::Lanczos3.to_image_filter(), image::imageops::FilterType::Lanczos3);
}

#[test]
fn default_processing_configuration() {
    let config = ImageProcessingConfig::default();
    assert_eq!(config.resize_filter, ResizeFilter::Lanczos3);
    assert!(config.maintain_aspect_ratio);
    assert_eq!(config.background_color, None);
}

#[test]
fn bitmap_decodes_to_rgba() {
    let image = load_image_from_memory(&BITMAP).unwrap();
    assert_eq!(image.width, 2);
    assert_eq!(image.height, 2);
    assert_eq!(
        image.data,
        vec![255, 0, 0, 255, 0, 255, 0, 255, 0, 0, 255, 255, 255, 255, 255, 255]
    );
}

#[test]
fn png_decodes_with_its_alpha() {
    let image = load_image_from_memory(&PNG).unwrap();
    assert_eq!((image.width, image.height), (1, 1));
    assert_eq!(image.data, vec![10, 20, 30, 40]);
}

#[test]
fn undecodable_bytes_are_refused_with_detail() {
    let message = load_image_from_memory(&[1, 2, 3, 4]).unwrap_err();
    assert!(message.starts_with("Failed to load image: "));
    assert!(message.len() > "Failed to load image: ".len());
    assert!(load_image_from_memory(&[]).is_err());
    // a bitmap cut off inside its pixels
    assert!(load_image_from_memory(&BITMAP[..60]).is_err());
}

#[test]
fn image_from_parts_checks_the_length() {
    let image = DecodedImage::from_rgba(vec![0u8; 24], 3, 2).unwrap();
    assert_eq!((image.width, image.height, image.data.len()), (3, 2, 24));
    assert_eq!(
        DecodedImage::from_rgba(vec![0u8; 23], 3, 2),
        Err("Invalid image dimensions or data".to_string())
    );
    assert!(DecodedImage::from_rgba(vec![0u8; 25], 3, 2).is_err());
    assert!(DecodedImage::from_rgba(Vec::new(), 0, 9).is_ok());
    let copy = image.clone();
    assert_eq!(copy, image);
}

#[test]
fn resize_keeps_the_aspect_ratio() {
    let source = vec![90u8; 4 * 2 * 4];
    // 4 by 2 into 2 by 2 fits as 2 by 1
    let out = resize_image(&source, 4, 2, 2, 2).unwrap();
    assert_eq!(out.len(), 2 * 1 * 4);
    // a uniform image stays uniform
    assert_eq!(out, vec![90u8; 8]);
    // enlarging: 4 by 2 into 8 by 8 fits as 8 by 4
    assert_eq!(resize_image(&source, 4, 2, 8, 8).unwrap().len(), 8 * 4 * 4);
    // the same size is a copy
    let mut ramp = Vec::new();
    for v in 0..32u8 {
        ramp.push(v);
    }
    assert_eq!(resize_image(&ramp, 4, 2, 4, 2), Ok(ramp.clone()));
}

#[test]
fn resize_refuses_short_data() {
    assert_eq!(
        resize_image(&[0u8; 31], 4, 2, 2, 2),
        Err("Invalid image dimensions or data".to_string())
    );
    assert!(resize_image(&[0u8; 16], u32::MAX, u32::MAX, 2, 2).is_err());
}

#[test]
fn resize_refuses_dimensions_beyond_memory() {
    assert_eq!(
        resize_image(&[0u8; 4], 1, 1, u32::MAX, u32::MAX),
        Err("Invalid image dimensions or data".to_string())
    );
}

#[test]
fn resize_accepts_longer_data_and_small_targets() {
    // longer data than the dimensions need is accepted
    assert_eq!(resize_image(&[7u8; 40], 2, 2, 1, 1).unwrap().len(), 4);
    // a target of zero yields at least one pixel
    assert_eq!(resize_image(&[7u8; 16], 2, 2, 0, 0).unwrap().len(), 4);
}

#[test]
fn file_bytes_decode_in_the_format_of_the_extension() {
    let image = load_image_bytes(&BITMAP, "bmp").unwrap();
    assert_eq!((image.width, image.height), (2, 2));
    assert_eq!(
        image.data,
        vec![255, 0, 0, 255, 0, 255, 0, 255, 0, 0, 255, 255, 255, 255, 255, 255]
    );
    // the letter case of the extension does not matter
    let image = load_image_bytes(&PNG, "PNG").unwrap();
    assert_eq!(image.data, vec![10, 20, 30, 40]);
}

#[test]
fn file_bytes_of_another_format_are_refused() {
    // the bytes are a bitmap, the extension says otherwise
    let message = load_image_bytes(&BITMAP, "png").unwrap_err();
    assert!(message.starts_with("Failed to open image: "));
    assert!(message.len() > "Failed to open image: ".len());
    assert!(load_image_bytes(&PNG, "bmp").is_err());
    // extensions that name no format
    assert!(load_image_bytes(&PNG, "text").unwrap_err().starts_with("Failed to open image: "));
    assert!(load_image_bytes(&PNG, "").is_err());
    assert!(load_image_bytes(&PNG, ".png").is_err());
}
