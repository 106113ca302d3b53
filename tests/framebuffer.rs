use bootchain::framebuffer::{pixel_write, Color, FrameBufferInfo, PixelFormat, Position};

fn info(format: PixelFormat) -> FrameBufferInfo {
    FrameBufferInfo { byte_len: 640 * 480 * 4, pixel_format: format, bytes_per_pixel: 4, stride: 640 }
}

const C: Color = Color { red: 10, green: 20, blue: 30 };

#[test]
fn rgb_and_bgr_pixels() {
    let w = pixel_write(&info(PixelFormat::Rgb), Position { x: 3, y: 2 }, C).unwrap();
    assert_eq!(w.offset, (2 * 640 + 3) * 4);
    assert_eq!(w.bytes, vec![10, 30, 20]);
    let w = pixel_write(&info(PixelFormat::Bgr), Position { x: 0, y: 0 }, C).unwrap();
    assert_eq!(w.offset, 0);
    assert_eq!(w.bytes, vec![30, 20, 10]);
}

#[test]
fn grey_pixel_is_the_mean() {
    let w = pixel_write(&info(PixelFormat::U8), Position { x: 1, y: 0 }, C).unwrap();
    assert_eq!(w.bytes, vec![20]);
    let white = Color { red: 255, green: 255, blue: 255 };
    let w = pixel_write(&info(PixelFormat::U8), Position { x: 1, y: 0 }, white).unwrap();
    assert_eq!(w.bytes, vec![255]);
}

#[test]
fn unknown_format_or_outside_pixel_is_refused() {
    assert!(pixel_write(&info(PixelFormat::Unknown), Position { x: 0, y: 0 }, C).is_none());
    assert!(pixel_write(&info(PixelFormat::Rgb), Position { x: 0, y: 480 }, C).is_none());
    assert!(pixel_write(&info(PixelFormat::Rgb), Position { x: 639, y: 479 }, C).is_some());
    assert!(pixel_write(&info(PixelFormat::Rgb), Position { x: usize::MAX, y: usize::MAX }, C).is_none());
}
