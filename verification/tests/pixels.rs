use panium::error::CaptureError;
use panium::pixels::{convert_to_rgba, FrameLayout};
use panium::shm::ShmFormat;
use wayland_client::protocol::wl_shm;

const BYTES: [u8; 4] = [10, 20, 30, 40];

fn one_pixel(format: ShmFormat) -> Vec<u8> {
    convert_to_rgba(&BYTES, 1, 1, 4, format, false).unwrap()
}

#[test]
fn every_format_finds_its_channels() {
    assert_eq!(one_pixel(ShmFormat::Argb8888), [30, 20, 10, 40]);
    assert_eq!(one_pixel(ShmFormat::Xrgb8888), [30, 20, 10, 255]);
    assert_eq!(one_pixel(ShmFormat::Abgr8888), [10, 20, 30, 40]);
    assert_eq!(one_pixel(ShmFormat::Xbgr8888), [10, 20, 30, 255]);
    assert_eq!(one_pixel(ShmFormat::Rgba8888), [40, 30, 20, 10]);
    assert_eq!(one_pixel(ShmFormat::Rgbx8888), [40, 30, 20, 255]);
    assert_eq!(one_pixel(ShmFormat::Bgra8888), [20, 30, 40, 10]);
    assert_eq!(one_pixel(ShmFormat::Bgrx8888), [20, 30, 40, 255]);
    assert_eq!(one_pixel(ShmFormat::Bgr888), [10, 20, 30, 255]);
    assert_eq!(one_pixel(ShmFormat::Rgb888), [30, 20, 10, 255]);
}

#[test]
fn padding_between_rows_is_skipped() {
    let pixels = [1, 2, 3, 4, 99, 99, 5, 6, 7, 8, 99, 99];
    let rgba = convert_to_rgba(&pixels, 1, 2, 6, ShmFormat::Abgr8888, false).unwrap();
    assert_eq!(rgba, [1, 2, 3, 4, 5, 6, 7, 8]);
}

#[test]
fn inverted_rows_are_reversed() {
    let pixels: Vec<u8> = (1..=24).collect();
    let upright = convert_to_rgba(&pixels, 2, 3, 8, ShmFormat::Abgr8888, false).unwrap();
    let inverted = convert_to_rgba(&pixels, 2, 3, 8, ShmFormat::Abgr8888, true).unwrap();
    assert_eq!(inverted[..8], upright[16..]);
    assert_eq!(inverted[8..16], upright[8..16]);
    assert_eq!(inverted[16..], upright[..8]);
}

#[test]
fn packed_abgr_is_unchanged() {
    let pixels: Vec<u8> = (0..48).collect();
    let rgba = convert_to_rgba(&pixels, 4, 3, 16, ShmFormat::Abgr8888, false).unwrap();
    assert_eq!(rgba, pixels);
}

#[test]
fn three_byte_pixels_lie_side_by_side() {
    let pixels = [1, 2, 3, 4, 5, 6, 0, 0];
    let rgba = convert_to_rgba(&pixels, 2, 1, 8, ShmFormat::Rgb888, false).unwrap();
    assert_eq!(rgba, [3, 2, 1, 255, 6, 5, 4, 255]);
}

#[test]
fn the_last_unused_byte_may_be_missing() {
    let pixels = [1, 2, 3];
    let rgba = convert_to_rgba(&pixels, 1, 1, 4, ShmFormat::Xrgb8888, false).unwrap();
    assert_eq!(rgba, [3, 2, 1, 255]);
}

#[test]
fn other_formats_are_refused() {
    let nv12 = ShmFormat::from_code(wl_shm::Format::Nv12.into());
    let error = convert_to_rgba(&BYTES, 1, 1, 4, nv12, false).unwrap_err();
    assert_eq!(error, CaptureError::UnsupportedFormat(nv12));
    assert_eq!(error.message(), "unsupported wl_shm format: Nv12");
}

#[test]
fn a_picture_without_pixels_has_no_format_to_refuse() {
    let nv12 = ShmFormat::from_code(wl_shm::Format::Nv12.into());
    assert_eq!(convert_to_rgba(&[], 0, 5, 4, nv12, false), Ok(vec![]));
    assert_eq!(convert_to_rgba(&[], 5, 0, 4, ShmFormat::Argb8888, true), Ok(vec![]));
}

#[test]
fn fitting_is_judged_by_the_bytes_read() {
    let mut frame = FrameLayout {
        width: 2,
        height: 2,
        stride: 10,
        format: ShmFormat::Argb8888,
        y_inverted: false,
    };
    assert!(frame.fits_buffer(18));
    assert!(!frame.fits_buffer(17));
    frame.format = ShmFormat::Xrgb8888;
    assert!(frame.fits_buffer(17));
    assert!(!frame.fits_buffer(16));
    frame.format = ShmFormat::Bgr888;
    assert!(frame.fits_buffer(16));
    assert!(!frame.fits_buffer(15));
    frame.height = 0;
    assert!(frame.fits_buffer(0));
    frame.width = 1 << 16;
    frame.height = 1 << 14;
    frame.stride = 0;
    assert!(!frame.fits_buffer(usize::MAX));
}

#[test]
fn codes_are_those_of_the_protocol() {
    for (format, known) in [
        (ShmFormat::Argb8888, wl_shm::Format::Argb8888),
        (ShmFormat::Xrgb8888, wl_shm::Format::Xrgb8888),
        (ShmFormat::Abgr8888, wl_shm::Format::Abgr8888),
        (ShmFormat::Xbgr8888, wl_shm::Format::Xbgr8888),
        (ShmFormat::Rgba8888, wl_shm::Format::Rgba8888),
        (ShmFormat::Rgbx8888, wl_shm::Format::Rgbx8888),
        (ShmFormat::Bgra8888, wl_shm::Format::Bgra8888),
        (ShmFormat::Bgrx8888, wl_shm::Format::Bgrx8888),
        (ShmFormat::Bgr888, wl_shm::Format::Bgr888),
        (ShmFormat::Rgb888, wl_shm::Format::Rgb888),
    ] {
        assert_eq!(format.code(), u32::from(known));
        assert_eq!(ShmFormat::from_code(format.code()), format);
        assert!(format.supported());
    }
    let nv12 = u32::from(wl_shm::Format::Nv12);
    assert_eq!(ShmFormat::from_code(nv12), ShmFormat::Other(nv12));
    assert!(!ShmFormat::Other(nv12).supported());
}

#[test]
fn separate_rows_fit_their_buffer() {
    for (format, stride) in [(ShmFormat::Argb8888, 12), (ShmFormat::Rgb888, 9)] {
        let frame = FrameLayout { width: 3, height: 5, stride, format, y_inverted: true };
        assert!(frame.fits_buffer(5 * stride as usize));
    }
}

#[test]
fn bytes_outside_the_channels_do_not_show() {
    let a = [1, 2, 3, 0, 50, 51, 4, 5, 6, 0, 52, 53];
    let b = [1, 2, 3, 9, 60, 61, 4, 5, 6, 9, 62, 63];
    let shown_a = convert_to_rgba(&a, 1, 2, 6, ShmFormat::Xrgb8888, false).unwrap();
    let shown_b = convert_to_rgba(&b, 1, 2, 6, ShmFormat::Xrgb8888, false).unwrap();
    assert_eq!(shown_a, shown_b);
    assert_eq!(shown_a, [3, 2, 1, 255, 6, 5, 4, 255]);
}

#[test]
fn channels_come_from_the_little_endian_word() {
    let word: u32 = 0xa1_b2_c3_d4;
    let bytes = word.to_le_bytes();
    let argb = convert_to_rgba(&bytes, 1, 1, 4, ShmFormat::Argb8888, false).unwrap();
    assert_eq!(argb, [0xb2, 0xc3, 0xd4, 0xa1]);
    let rgba = convert_to_rgba(&bytes, 1, 1, 4, ShmFormat::Rgba8888, false).unwrap();
    assert_eq!(rgba, [0xa1, 0xb2, 0xc3, 0xd4]);
}
