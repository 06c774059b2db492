use overlay::buffer::{
    blit, calculate_buffer_size, calculate_buffer_size_napi, checked_buffer_size,
    clear_buffer_optimized, create_rgba_buffer, draw_circle, draw_circle_optimized, draw_line,
    draw_line_optimized, draw_pixel, draw_pixel_safe, draw_rectangle_optimized,
    fill_buffer_color, fill_buffer_rgba_optimized, RectangleParams,
};
use overlay::color::Color;
use overlay::types::{LineParams, OverlayError};

const INK: Color = Color { r: 9, g: 8, b: 7, a: 6 };

fn blank(width: u32, height: u32) -> Vec<u8> {
    vec![0u8; (width * height * 4) as usize]
}

/// The pixels of a `width`-wide buffer that hold `INK`; any other pixel must be blank.
fn inked(buffer: &[u8], width: u32) -> Vec<(u32, u32)> {
    let mut found = Vec::new();
    for (k, pixel) in buffer.chunks(4).enumerate() {
        if pixel == [9, 8, 7, 6] {
            found.push((k as u32 % width, k as u32 / width));
        } else {
            assert_eq!(pixel, [0, 0, 0, 0], "pixel {} is neither ink nor blank", k);
        }
    }
    found.sort();
    found
}

fn sorted(mut points: Vec<(u32, u32)>) -> Vec<(u32, u32)> {
    points.sort();
    points
}

fn line(x1: u32, y1: u32, x2: u32, y2: u32, width: u32, height: u32) -> LineParams {
    LineParams { x1, y1, x2, y2, buffer_width: width, buffer_height: height, color: INK }
}

#[test]
fn test_frame_size_calculation() {
    // Test frame size calculation logic
    let frame_size = 1024; // 16x16 pixels
    let pixel_count = frame_size / 4;
    let width = (pixel_count as f64).sqrt() as u32;
    let height = width;

    assert_eq!(width * height * 4, frame_size);
    assert_eq!(calculate_buffer_size(width, height), frame_size as usize);
}

#[test]
fn buffer_sizes() {
    assert_eq!(calculate_buffer_size(800, 600), 1_920_000);
    assert_eq!(calculate_buffer_size(0, 600), 0);
    assert_eq!(calculate_buffer_size_napi(3, 5), 60);
    assert_eq!(overlay::calculate_buffer_size(32, 32), 4096);
    assert_eq!(checked_buffer_size(2, 3), Some(24));
    if usize::BITS == 64 {
        assert_eq!(checked_buffer_size(u32::MAX, u32::MAX), None);
        assert_eq!(checked_buffer_size(65536, 65536), Some(1usize << 34));
    }
}

#[test]
fn new_buffers_are_zeroed() {
    let buffer = create_rgba_buffer(3, 2);
    assert_eq!(buffer, vec![0u8; 24]);
    assert!(create_rgba_buffer(0, 7).is_empty());
}

#[test]
fn fill_sets_every_group_of_four_bytes() {
    for (width, height) in [(1usize, 1usize), (3, 2), (8, 8)] {
        let source = vec![77u8; width * height * 4];
        let filled = fill_buffer_rgba_optimized(&source, 1, 2, 3, 4);
        assert_eq!(filled.len(), width * height * 4);
        for group in filled.chunks(4) {
            assert_eq!(group, [1, 2, 3, 4]);
        }
    }
}

#[test]
fn fill_leaves_a_partial_pixel_zero() {
    let filled = fill_buffer_rgba_optimized(&[5u8; 6], 1, 2, 3, 4);
    assert_eq!(filled, vec![1, 2, 3, 4, 0, 0]);
    assert!(fill_buffer_rgba_optimized(&[], 1, 2, 3, 4).is_empty());
    assert_eq!(fill_buffer_color(&[5u8; 9], INK), Ok(vec![9, 8, 7, 6, 9, 8, 7, 6, 0]));
}

#[test]
fn clear_keeps_a_partial_pixel() {
    let mut frame = vec![5u8; 7];
    clear_buffer_optimized(&mut frame, 1, 1, &INK);
    assert_eq!(frame, vec![9, 8, 7, 6, 5, 5, 5]);
}

#[test]
fn pixel_is_written_at_its_index() {
    let mut buffer = blank(4, 3);
    assert_eq!(draw_pixel_safe(&mut buffer, 2, 1, 4, &INK), Ok(()));
    assert_eq!(inked(&buffer, 4), vec![(2, 1)]);
    assert_eq!(&buffer[24..28], [9, 8, 7, 6]);
}

#[test]
fn pixel_out_of_bounds_is_refused_and_changes_nothing() {
    let mut buffer = vec![3u8; 4 * 3 * 4];
    let before = buffer.clone();
    assert_eq!(
        draw_pixel_safe(&mut buffer, 0, 3, 4, &INK),
        Err("Pixel position out of bounds".to_string())
    );
    assert_eq!(buffer, before);
    // the last pixel fits, the one after it does not
    assert!(draw_pixel_safe(&mut buffer, 3, 2, 4, &INK).is_ok());
    assert!(draw_pixel_safe(&mut buffer, 4, 2, 4, &INK).is_err());
    // a buffer that ends inside the pixel
    let mut short = vec![0u8; 7];
    assert!(draw_pixel_safe(&mut short, 1, 0, 4, &INK).is_err());
    assert_eq!(short, vec![0u8; 7]);
    // coordinates whose index exceeds 32 bits
    assert!(draw_pixel_safe(&mut buffer, u32::MAX, u32::MAX, u32::MAX, &INK).is_err());
}

#[test]
fn pixel_copy_reports_invalid_argument() {
    let buffer = blank(2, 2);
    let drawn = draw_pixel(&buffer, 1, 1, 2, INK).unwrap();
    assert_eq!(inked(&drawn, 2), vec![(1, 1)]);
    assert_eq!(buffer, blank(2, 2));
    assert_eq!(
        draw_pixel(&buffer, 2, 1, 2, INK),
        Err(OverlayError::InvalidArgument("Pixel position out of bounds".to_string()))
    );
}

#[test]
fn horizontal_line_sets_exactly_its_six_pixels() {
    let mut buffer = blank(8, 8);
    draw_line_optimized(&mut buffer, line(0, 0, 5, 0, 8, 8), &INK);
    assert_eq!(inked(&buffer, 8), vec![(0, 0), (1, 0), (2, 0), (3, 0), (4, 0), (5, 0)]);
}

#[test]
fn lines_in_other_directions() {
    let mut buffer = blank(8, 8);
    draw_line_optimized(&mut buffer, line(0, 0, 4, 2, 8, 8), &INK);
    assert_eq!(inked(&buffer, 8), sorted(vec![(0, 0), (1, 1), (2, 1), (3, 2), (4, 2)]));

    let mut buffer = blank(8, 8);
    draw_line_optimized(&mut buffer, line(5, 3, 0, 1, 8, 8), &INK);
    assert_eq!(
        inked(&buffer, 8),
        sorted(vec![(5, 3), (4, 3), (3, 2), (2, 2), (1, 1), (0, 1)])
    );

    let mut buffer = blank(8, 8);
    draw_line_optimized(&mut buffer, line(1, 1, 1, 4, 8, 8), &INK);
    assert_eq!(inked(&buffer, 8), vec![(1, 1), (1, 2), (1, 3), (1, 4)]);

    let mut buffer = blank(8, 8);
    draw_line_optimized(&mut buffer, line(2, 7, 6, 0, 8, 8), &INK);
    assert_eq!(
        inked(&buffer, 8),
        sorted(vec![(2, 7), (3, 6), (3, 5), (4, 4), (4, 3), (5, 2), (5, 1), (6, 0)])
    );

    let mut buffer = blank(8, 8);
    draw_line_optimized(&mut buffer, line(3, 3, 3, 3, 8, 8), &INK);
    assert_eq!(inked(&buffer, 8), vec![(3, 3)]);
}

#[test]
fn line_is_clipped_to_the_buffer() {
    let mut buffer = blank(4, 4);
    draw_line_optimized(&mut buffer, line(0, 1, 9, 1, 4, 4), &INK);
    assert_eq!(inked(&buffer, 4), vec![(0, 1), (1, 1), (2, 1), (3, 1)]);
    // declared dimensions larger than the buffer: what does not fit is skipped
    let mut short = blank(4, 2);
    draw_line_optimized(&mut short, line(1, 0, 1, 3, 4, 4), &INK);
    assert_eq!(inked(&short, 4), vec![(1, 0), (1, 1)]);
}

#[test]
fn line_copy_leaves_its_input() {
    let buffer = blank(8, 8);
    let drawn = draw_line(&buffer, line(0, 0, 5, 0, 8, 8)).unwrap();
    assert_eq!(inked(&drawn, 8).len(), 6);
    assert_eq!(buffer, blank(8, 8));
}

#[test]
fn circle_of_radius_zero_sets_exactly_its_center() {
    let mut buffer = blank(8, 8);
    draw_circle_optimized(&mut buffer, 4, 4, 0, 8, 8, &INK);
    assert_eq!(inked(&buffer, 8), vec![(4, 4)]);
}

#[test]
fn circles_of_radius_two_and_three() {
    let mut buffer = blank(9, 9);
    draw_circle_optimized(&mut buffer, 4, 4, 2, 9, 9, &INK);
    assert_eq!(
        inked(&buffer, 9),
        vec![
            (2, 3), (2, 4), (2, 5), (3, 2), (3, 6), (4, 2), (4, 6), (5, 2), (5, 6), (6, 3),
            (6, 4), (6, 5)
        ]
    );
    let drawn = draw_circle(&blank(9, 9), 4, 4, 3, 9, 9, INK).unwrap();
    assert_eq!(
        inked(&drawn, 9),
        vec![
            (1, 3), (1, 4), (1, 5), (2, 2), (2, 6), (3, 1), (3, 7), (4, 1), (4, 7), (5, 1),
            (5, 7), (6, 2), (6, 6), (7, 3), (7, 4), (7, 5)
        ]
    );
}

#[test]
fn circle_is_clipped_at_the_edges() {
    let mut buffer = blank(4, 4);
    draw_circle_optimized(&mut buffer, 1, 1, 2, 4, 4, &INK);
    assert_eq!(inked(&buffer, 4), vec![(0, 3), (1, 3), (2, 3), (3, 0), (3, 1), (3, 2)]);
}

fn rectangle(x: u32, y: u32, width: u32, height: u32, fw: usize, fh: usize) -> RectangleParams {
    RectangleParams { x, y, width, height, frame_width: fw, frame_height: fh }
}

#[test]
fn rectangle_inside_the_frame() {
    let mut frame = blank(5, 4);
    draw_rectangle_optimized(&mut frame, rectangle(1, 1, 2, 2, 5, 4), &INK);
    assert_eq!(inked(&frame, 5), vec![(1, 1), (1, 2), (2, 1), (2, 2)]);
}

#[test]
fn rectangle_is_clipped_to_the_frame_width() {
    let mut frame = blank(5, 4);
    draw_rectangle_optimized(&mut frame, rectangle(3, 2, 10, 10, 5, 4), &INK);
    assert_eq!(inked(&frame, 5), vec![(3, 2), (3, 3), (4, 2), (4, 3)]);
    // nothing wraps into the next row
    assert_eq!(&frame[(2 * 5) * 4..(2 * 5 + 3) * 4], [0u8; 12]);
}

#[test]
fn rectangle_extent_saturates() {
    let mut frame = blank(5, 4);
    draw_rectangle_optimized(&mut frame, rectangle(4, 3, u32::MAX, u32::MAX, 5, 4), &INK);
    assert_eq!(inked(&frame, 5), vec![(4, 3)]);
    let mut frame = blank(5, 4);
    draw_rectangle_optimized(&mut frame, rectangle(7, 0, 2, 2, 5, 4), &INK);
    assert_eq!(inked(&frame, 5), vec![]);
    let mut frame = blank(5, 4);
    draw_rectangle_optimized(&mut frame, rectangle(0, 0, 0, 4, 5, 4), &INK);
    assert_eq!(inked(&frame, 5), vec![]);
}

#[test]
fn rectangle_skips_what_the_buffer_does_not_hold() {
    // the frame is declared 4 by 4 but the buffer holds two rows and a half
    let mut frame = vec![0u8; (4 * 2 + 2) * 4];
    draw_rectangle_optimized(&mut frame, rectangle(1, 1, 3, 3, 4, 4), &INK);
    assert_eq!(inked(&frame, 4), vec![(1, 1), (1, 2), (2, 1), (3, 1)]);
    let mut empty: Vec<u8> = Vec::new();
    draw_rectangle_optimized(&mut empty, rectangle(0, 0, 3, 3, 0, 0), &INK);
    assert!(empty.is_empty());
}

#[test]
fn blit_copies_and_clips() {
    // a 2 by 2 source with pixels 1, 2 / 3, 4
    let mut source = Vec::new();
    for v in 1..=4u8 {
        source.extend_from_slice(&[v, v, v, v]);
    }
    let mut frame = blank(3, 3);
    blit(&mut frame, 1, 1, &source, 2, 2, 3, 3);
    let pixels: Vec<u8> = frame.chunks(4).map(|p| p[0]).collect();
    assert_eq!(pixels, vec![0, 0, 0, 0, 1, 2, 0, 3, 4]);

    let mut frame = blank(3, 3);
    blit(&mut frame, 2, 2, &source, 2, 2, 3, 3);
    let pixels: Vec<u8> = frame.chunks(4).map(|p| p[0]).collect();
    assert_eq!(pixels, vec![0, 0, 0, 0, 0, 0, 0, 0, 1]);

    let mut frame = blank(3, 3);
    blit(&mut frame, 3, 0, &source, 2, 2, 3, 3);
    assert_eq!(frame, blank(3, 3));

    // a source that is shorter than its dimensions say
    let mut frame = blank(3, 3);
    blit(&mut frame, 0, 0, &source[..12], 2, 2, 3, 3);
    let pixels: Vec<u8> = frame.chunks(4).map(|p| p[0]).collect();
    assert_eq!(pixels, vec![1, 2, 0, 3, 0, 0, 0, 0, 0]);
}
