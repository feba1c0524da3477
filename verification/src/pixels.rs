//! Conversion of captured pixels to tightly packed RGBA.

use crate::error::CaptureError;
use crate::shm::{channel_letters, ShmFormat};
use vstd::arithmetic::div_mod::lemma_fundamental_div_mod_converse;
use vstd::prelude::*;

verus! {

/// A captured screen: rows from top to bottom, four bytes to a pixel, without padding.
#[derive(Debug)]
pub struct Screenshot {
    pub width: u32,
    pub height: u32,
    pub rgba: Vec<u8>,
}

/// What a screenshot holds.
pub struct Picture {
    pub width: u32,
    pub height: u32,
    pub rgba: Seq<u8>,
}

impl Picture {
    /// The pixel data is exactly as large as the dimensions say.
    pub open spec fn wf(self) -> bool {
        self.rgba.len() == 4 * self.width * self.height
    }
}

impl View for Screenshot {
    type V = Picture;

    open spec fn view(&self) -> Picture {
        Picture { width: self.width, height: self.height, rgba: self.rgba@ }
    }
}

/// A frame as the compositor describes it: `height` rows that start `stride` bytes apart.
#[derive(Clone, Copy, Debug)]
pub struct FrameLayout {
    pub width: u32,
    pub height: u32,
    pub stride: u32,
    pub format: ShmFormat,
    pub y_inverted: bool,
}

impl FrameLayout {
    /// The row of the buffer that holds row `y` of the picture.
    pub open spec fn source_row(self, y: int) -> int {
        if self.y_inverted {
            self.height - 1 - y
        } else {
            y
        }
    }

    /// Where the pixel in column `x` of row `y` of the picture starts in the buffer.
    pub open spec fn source_offset(self, x: int, y: int) -> int {
        self.source_row(y) * self.stride + x * self.format.pixel_bytes()
    }

    /// Whether a buffer of `len` bytes holds every byte of the frame that is read, and the
    /// sizes involved fit 32 bits.
    pub open spec fn fits(self, len: int) -> bool {
        &&& 4 * self.width * self.height <= u32::MAX
        &&& self.width > 0 && self.height > 0 ==> {
            let last = (self.height - 1) * self.stride + (self.width - 1)
                * self.format.pixel_bytes();
            last <= u32::MAX && last + self.format.last_offset() < len
        }
    }

    /// The four bytes red, green, blue and alpha of the pixel that starts at `at`.
    pub open spec fn rgba_pixel(self, pixels: Seq<u8>, at: int) -> Seq<u8> {
        let c = self.format.channels()->0;
        seq![
            pixels[at + c.red],
            pixels[at + c.green],
            pixels[at + c.blue],
            match c.alpha {
                Some(alpha) => pixels[at + alpha],
                None => 255u8,
            },
        ]
    }

    /// The picture that `pixels` holds.
    pub open spec fn rgba_image(self, pixels: Seq<u8>) -> Seq<u8> {
        Seq::new(
            (4 * self.width * self.height) as nat,
            |i: int|
                self.rgba_pixel(
                    pixels,
                    self.source_offset((i / 4) % (self.width as int), (i / 4) / (self.width as int)),
                )[i % 4],
        )
    }
}

impl FrameLayout {
    /// Whether the frame can be read from a buffer of `len` bytes.
    pub fn fits_buffer(&self, len: usize) -> (fits: bool)
        ensures
            fits == self.fits(len as int),
    {
        let width: u128 = self.width as u128;
        let height: u128 = self.height as u128;
        let stride: u128 = self.stride as u128;
        let pixel_bytes: u128 = match self.format {
            ShmFormat::Bgr888 | ShmFormat::Rgb888 => 3,
            _ => 4,
        };
        let last_offset: u128 = match self.format {
            ShmFormat::Xrgb8888
            | ShmFormat::Xbgr8888
            | ShmFormat::Bgr888
            | ShmFormat::Rgb888 => 2,
            _ => 3,
        };
        assert(0 <= width * height <= u32::MAX * u32::MAX) by (nonlinear_arith)
            requires
                0 <= width <= u32::MAX,
                0 <= height <= u32::MAX,
        ;
        assert(4 * (width * height) == 4 * width * height) by (nonlinear_arith);
        if 4 * (width * height) > u32::MAX as u128 {
            return false;
        }
        if width == 0 || height == 0 {
            return true;
        }
        assert(0 <= (height - 1) * stride <= u32::MAX * u32::MAX) by (nonlinear_arith)
            requires
                0 < height <= u32::MAX,
                0 <= stride <= u32::MAX,
        ;
        let last: u128 = (height - 1) * stride + (width - 1) * pixel_bytes;
        last <= u32::MAX as u128 && last + last_offset < len as u128
    }
}

/// The bytes of one pixel in the order red, green, blue, alpha.
fn pixel_at(pixels: &[u8], at: usize, frame: FrameLayout) -> (pixel: [u8; 4])
    requires
        frame.format.is_supported(),
        at + frame.format.last_offset() < pixels@.len(),
    ensures
        pixel@ == frame.rgba_pixel(pixels@, at as int),
{
    let len: usize = pixels.len();
    assert(at + frame.format.last_offset() < len);
    let pixel: [u8; 4] = match frame.format {
        ShmFormat::Argb8888 => [pixels[at + 2], pixels[at + 1], pixels[at], pixels[at + 3]],
        ShmFormat::Xrgb8888 => [pixels[at + 2], pixels[at + 1], pixels[at], 255],
        ShmFormat::Abgr8888 => [pixels[at], pixels[at + 1], pixels[at + 2], pixels[at + 3]],
        ShmFormat::Xbgr8888 => [pixels[at], pixels[at + 1], pixels[at + 2], 255],
        ShmFormat::Rgba8888 => [pixels[at + 3], pixels[at + 2], pixels[at + 1], pixels[at]],
        ShmFormat::Rgbx8888 => [pixels[at + 3], pixels[at + 2], pixels[at + 1], 255],
        ShmFormat::Bgra8888 => [pixels[at + 1], pixels[at + 2], pixels[at + 3], pixels[at]],
        ShmFormat::Bgrx8888 => [pixels[at + 1], pixels[at + 2], pixels[at + 3], 255],
        ShmFormat::Bgr888 => [pixels[at], pixels[at + 1], pixels[at + 2], 255],
        ShmFormat::Rgb888 => [pixels[at + 2], pixels[at + 1], pixels[at], 255],
        ShmFormat::Other(_) => [0, 0, 0, 0],
    };
    assert(pixel@ =~= frame.rgba_pixel(pixels@, at as int));
    pixel
}

/// The pixel in column `x` of row `y` is read from within the buffer.
proof fn lemma_source_bound(frame: FrameLayout, len: int, x: int, y: int)
    requires
        frame.fits(len),
        0 <= x < frame.width,
        0 <= y < frame.height,
    ensures
        0 <= frame.source_row(y) * frame.stride <= u32::MAX,
        0 <= x * frame.format.pixel_bytes() <= u32::MAX,
        0 <= frame.source_offset(x, y) <= u32::MAX,
        frame.source_offset(x, y) + frame.format.last_offset() < len,
{
    let row = frame.source_row(y);
    let stride = frame.stride as int;
    let bytes = frame.format.pixel_bytes() as int;
    let h = frame.height as int;
    let w = frame.width as int;
    assert(0 <= row * stride <= (h - 1) * stride) by (nonlinear_arith)
        requires
            0 <= row <= h - 1,
            0 <= stride,
    ;
    assert(0 <= x * bytes <= (w - 1) * bytes) by (nonlinear_arith)
        requires
            0 <= x <= w - 1,
            0 <= bytes,
    ;
}

/// The four bytes of the pixel in column `x` of row `y` of the picture.
proof fn lemma_image_pixel(frame: FrameLayout, pixels: Seq<u8>, x: int, y: int, k: int)
    requires
        0 <= x < frame.width,
        0 <= y < frame.height,
        0 <= k < 4,
    ensures
        0 <= 4 * (y * frame.width + x) + k < 4 * frame.width * frame.height,
        frame.rgba_image(pixels)[4 * (y * frame.width + x) + k] == frame.rgba_pixel(
            pixels,
            frame.source_offset(x, y),
        )[k],
{
    let w = frame.width as int;
    let h = frame.height as int;
    let p = y * w + x;
    assert(0 <= p < w * h) by (nonlinear_arith)
        requires
            p == y * w + x,
            0 <= x < w,
            0 <= y < h,
    ;
    assert(4 * (w * h) == 4 * w * h) by (nonlinear_arith);
    lemma_fundamental_div_mod_converse(p, w, y, x);
}

/// Converts the pixels of a frame to RGBA, row by row from the top of the picture.
pub fn convert_to_rgba(
    pixels: &[u8],
    width: u32,
    height: u32,
    stride: u32,
    format: ShmFormat,
    y_inverted: bool,
) -> (result: Result<Vec<u8>, CaptureError>)
    requires
        format.is_supported() ==> (FrameLayout { width, height, stride, format, y_inverted }).fits(
            pixels@.len() as int,
        ),
    ensures
        match result {
            Ok(rgba) => {
                &&& format.is_supported() || width == 0 || height == 0
                &&& rgba@ == (FrameLayout {
                    width,
                    height,
                    stride,
                    format,
                    y_inverted,
                }).rgba_image(pixels@)
            },
            Err(error) => {
                &&& !format.is_supported() && width > 0 && height > 0
                &&& error == CaptureError::UnsupportedFormat(format)
            },
        },
{
    let frame = FrameLayout { width, height, stride, format, y_inverted };
    let mut rgba: Vec<u8> = Vec::new();
    if width == 0 || height == 0 {
        assert(4 * width * height == 0) by (nonlinear_arith)
            requires
                width == 0 || height == 0,
        ;
        assert(rgba@ =~= frame.rgba_image(pixels@));
        return Ok(rgba);
    }
    let pixel_bytes: usize = match format {
        ShmFormat::Bgr888 | ShmFormat::Rgb888 => 3,
        ShmFormat::Other(_) => return Err(CaptureError::UnsupportedFormat(format)),
        _ => 4,
    };
    let ghost image = frame.rgba_image(pixels@);
    let mut y: u32 = 0;
    while y < height
        invariant
            y <= height,
            width > 0,
            frame == (FrameLayout { width, height, stride, format, y_inverted }),
            format.is_supported(),
            pixel_bytes == format.pixel_bytes(),
            frame.fits(pixels@.len() as int),
            image == frame.rgba_image(pixels@),
            rgba@.len() == 4 * (y * width),
            forall|i: int| 0 <= i < rgba@.len() ==> rgba@[i] == image[i],
        decreases height - y,
    {
        let source_y: u32 = if y_inverted {
            height - 1 - y
        } else {
            y
        };
        let mut x: u32 = 0;
        while x < width
            invariant
                x <= width,
                y < height,
                source_y == frame.source_row(y as int),
                frame == (FrameLayout { width, height, stride, format, y_inverted }),
                format.is_supported(),
                pixel_bytes == format.pixel_bytes(),
                frame.fits(pixels@.len() as int),
                image == frame.rgba_image(pixels@),
                rgba@.len() == 4 * (y * width + x),
                forall|i: int| 0 <= i < rgba@.len() ==> rgba@[i] == image[i],
            decreases width - x,
        {
            proof {
                lemma_source_bound(frame, pixels@.len() as int, x as int, y as int);
                lemma_image_pixel(frame, pixels@, x as int, y as int, 0);
                lemma_image_pixel(frame, pixels@, x as int, y as int, 1);
                lemma_image_pixel(frame, pixels@, x as int, y as int, 2);
                lemma_image_pixel(frame, pixels@, x as int, y as int, 3);
            }
            let source: usize = source_y as usize * stride as usize + x as usize * pixel_bytes;
            let pixel = pixel_at(pixels, source, frame);
            rgba.push(pixel[0]);
            rgba.push(pixel[1]);
            rgba.push(pixel[2]);
            rgba.push(pixel[3]);
            x += 1;
        }
        assert((y + 1) * width == y * width + width) by (nonlinear_arith);
        y += 1;
    }
    assert(4 * (height * width) == 4 * width * height) by (nonlinear_arith);
    assert(rgba@ =~= image);
    Ok(rgba)
}

/// A frame whose rows do not overlap fits the buffer that holds all of them, as long as its
/// picture can be counted with 32 bits.
pub proof fn law_separate_rows_fit(frame: FrameLayout)
    requires
        frame.width * frame.format.pixel_bytes() <= frame.stride,
        frame.stride * frame.height <= u32::MAX,
        4 * frame.width * frame.height <= u32::MAX,
        frame.format.is_supported(),
    ensures
        frame.fits(frame.stride * frame.height),
{
    let w = frame.width as int;
    let h = frame.height as int;
    let stride = frame.stride as int;
    let bytes = frame.format.pixel_bytes() as int;
    assert((h - 1) * stride + stride == stride * h) by (nonlinear_arith);
    assert((w - 1) * bytes + bytes == w * bytes) by (nonlinear_arith);
}

/// A frame that is stored upside down shows the rows of the same buffer in reverse order.
pub proof fn law_inversion_reverses_rows(
    frame: FrameLayout,
    pixels: Seq<u8>,
    x: int,
    y: int,
    k: int,
)
    requires
        0 <= x < frame.width,
        0 <= y < frame.height,
        0 <= k < 4,
    ensures
        (FrameLayout { y_inverted: !frame.y_inverted, ..frame }).rgba_image(pixels)[4 * (y
            * frame.width + x) + k] == frame.rgba_image(pixels)[4 * ((frame.height - 1 - y)
            * frame.width + x) + k],
{
    lemma_image_pixel(
        FrameLayout { y_inverted: !frame.y_inverted, ..frame },
        pixels,
        x,
        y,
        k,
    );
    lemma_image_pixel(frame, pixels, x, frame.height - 1 - y, k);
}

/// A picture in a format without an alpha channel is opaque everywhere.
pub proof fn law_no_alpha_is_opaque(frame: FrameLayout, pixels: Seq<u8>, p: int)
    requires
        frame.format.is_supported(),
        frame.format.channels()->0.alpha is None,
        0 <= p < frame.width * frame.height,
    ensures
        frame.rgba_image(pixels)[4 * p + 3] == 255,
{
    assert(4 * (frame.width * frame.height) == 4 * frame.width * frame.height)
        by (nonlinear_arith);
}

/// A buffer that already holds RGBA bytes in this order, without padding and top row first,
/// is its own picture.
pub proof fn law_packed_abgr_is_unchanged(frame: FrameLayout, pixels: Seq<u8>)
    requires
        frame.format == ShmFormat::Abgr8888,
        !frame.y_inverted,
        frame.stride == 4 * frame.width,
        pixels.len() == 4 * frame.width * frame.height,
    ensures
        frame.rgba_image(pixels) == pixels,
{
    let image = frame.rgba_image(pixels);
    let w = frame.width as int;
    assert forall|i: int| 0 <= i < pixels.len() implies image[i] == pixels[i] by {
        let p = i / 4;
        if w == 0 {
            assert(4 * w * frame.height == 0) by (nonlinear_arith)
                requires
                    w == 0,
            ;
        }
        vstd::arithmetic::div_mod::lemma_fundamental_div_mod(p, w);
        assert((p / w) * (4 * w) == 4 * (w * (p / w))) by (nonlinear_arith);
    }
    assert(image =~= pixels);
}

/// The bytes of a buffer between the rows of the picture, and those of a pixel that no
/// channel uses, do not show: buffers that agree on the channels have the same picture.
pub proof fn law_only_channels_show(frame: FrameLayout, a: Seq<u8>, b: Seq<u8>)
    requires
        forall|x: int, y: int|
            0 <= x < frame.width && 0 <= y < frame.height ==> #[trigger] frame.rgba_pixel(
                a,
                frame.source_offset(x, y),
            ) == frame.rgba_pixel(b, frame.source_offset(x, y)),
    ensures
        frame.rgba_image(a) == frame.rgba_image(b),
{
    let w = frame.width as int;
    let h = frame.height as int;
    assert forall|i: int| 0 <= i < 4 * w * h implies frame.rgba_image(a)[i]
        == frame.rgba_image(b)[i] by {
        let p = i / 4;
        assert(w > 0 && h > 0) by (nonlinear_arith)
            requires
                4 * w * h > 0,
                w >= 0,
                h >= 0,
        ;
        vstd::arithmetic::div_mod::lemma_fundamental_div_mod(p, w);
        vstd::arithmetic::div_mod::lemma_mod_bound(p, w);
        assert(4 * w * h == 4 * (w * h)) by (nonlinear_arith);
        assert(p < w * h);
        assert(0 <= p / w < h) by (nonlinear_arith)
            requires
                0 <= p < w * h,
                w > 0,
        ;
        let x = p % w;
        let y = p / w;
        assert(frame.rgba_pixel(a, frame.source_offset(x, y)) == frame.rgba_pixel(
            b,
            frame.source_offset(x, y),
        ));
    }
    assert(frame.rgba_image(a) =~= frame.rgba_image(b));
}

/// The little-endian number in the four bytes from `at` on.
pub open spec fn little_endian_word(pixels: Seq<u8>, at: int) -> int {
    pixels[at] + 0x100 * pixels[at + 1] + 0x1_0000 * pixels[at + 2] + 0x100_0000 * pixels[at + 3]
}

/// The byte of `word` that starts at bit `shift`, for a shift of whole bytes.
pub open spec fn byte_of_word(word: int, shift: int) -> int {
    if shift == 0 {
        word % 0x100
    } else if shift == 8 {
        (word / 0x100) % 0x100
    } else if shift == 16 {
        (word / 0x1_0000) % 0x100
    } else {
        (word / 0x100_0000) % 0x100
    }
}

proof fn lemma_bytes_of_word(pixels: Seq<u8>, at: int)
    ensures
        byte_of_word(little_endian_word(pixels, at), 0) == pixels[at],
        byte_of_word(little_endian_word(pixels, at), 8) == pixels[at + 1],
        byte_of_word(little_endian_word(pixels, at), 16) == pixels[at + 2],
        byte_of_word(little_endian_word(pixels, at), 24) == pixels[at + 3],
{
    let word = little_endian_word(pixels, at);
    let a = pixels[at] as int;
    let b = pixels[at + 1] as int;
    let c = pixels[at + 2] as int;
    let d = pixels[at + 3] as int;
    lemma_fundamental_div_mod_converse(word, 0x100, b + 0x100 * c + 0x1_0000 * d, a);
    lemma_fundamental_div_mod_converse(b + 0x100 * c + 0x1_0000 * d, 0x100, c + 0x100 * d, b);
    lemma_fundamental_div_mod_converse(word, 0x1_0000, c + 0x100 * d, a + 0x100 * b);
    lemma_fundamental_div_mod_converse(c + 0x100 * d, 0x100, d, c);
    lemma_fundamental_div_mod_converse(word, 0x100_0000, d, a + 0x100 * b + 0x1_0000 * c);
}

/// Channels come from where the format's name puts them in the pixel read as a
/// little-endian number: `argb8888`, for one, has alpha in the top byte and blue in the
/// lowest.
pub proof fn law_channels_follow_the_word(frame: FrameLayout, pixels: Seq<u8>, at: int)
    ensures
        ({
            let word = little_endian_word(pixels, at);
            let pixel = frame.rgba_pixel(pixels, at);
            let top = byte_of_word(word, 24);
            let second = byte_of_word(word, 16);
            let third = byte_of_word(word, 8);
            let low = byte_of_word(word, 0);
            match frame.format {
                ShmFormat::Argb8888 => pixel[3] == top && pixel[0] == second && pixel[1] == third
                    && pixel[2] == low,
                ShmFormat::Xrgb8888 => pixel[0] == second && pixel[1] == third && pixel[2] == low,
                ShmFormat::Abgr8888 => pixel[3] == top && pixel[2] == second && pixel[1] == third
                    && pixel[0] == low,
                ShmFormat::Xbgr8888 => pixel[2] == second && pixel[1] == third && pixel[0] == low,
                ShmFormat::Rgba8888 => pixel[0] == top && pixel[1] == second && pixel[2] == third
                    && pixel[3] == low,
                ShmFormat::Rgbx8888 => pixel[0] == top && pixel[1] == second && pixel[2] == third,
                ShmFormat::Bgra8888 => pixel[2] == top && pixel[1] == second && pixel[0] == third
                    && pixel[3] == low,
                ShmFormat::Bgrx8888 => pixel[2] == top && pixel[1] == second && pixel[0] == third,
                ShmFormat::Bgr888 => pixel[2] == second && pixel[1] == third && pixel[0] == low,
                ShmFormat::Rgb888 => pixel[0] == second && pixel[1] == third && pixel[2] == low,
                ShmFormat::Other(_) => true,
            }
        }),
{
    lemma_bytes_of_word(pixels, at);
}

/// Where a buffer of `height` rows, `stride` bytes apart, holds the pixel in column `x` of row
/// `y` of the picture: rows are counted from the end if they are stored upside down.
pub open spec fn pixel_start(frame: FrameLayout, x: int, y: int) -> int {
    (if frame.y_inverted {
        frame.height - 1 - y
    } else {
        y
    }) * frame.stride + x * channel_letters(frame.format).len()
}

/// Whether the four bytes of `rgba` from `to` on show the pixel that starts at `from`: each
/// channel has the byte at which the format's name has its letter, and a pixel without alpha
/// is opaque.
pub open spec fn pixel_shown(
    format: ShmFormat,
    pixels: Seq<u8>,
    from: int,
    rgba: Seq<u8>,
    to: int,
) -> bool {
    let letters = channel_letters(format);
    &&& forall|j: int|
        0 <= j < letters.len() ==> {
            let byte = pixels[from + letters.len() - 1 - j];
            &&& #[trigger] letters[j] == 'r' ==> rgba[to] == byte
            &&& letters[j] == 'g' ==> rgba[to + 1] == byte
            &&& letters[j] == 'b' ==> rgba[to + 2] == byte
            &&& letters[j] == 'a' ==> rgba[to + 3] == byte
        }
    &&& (forall|j: int| 0 <= j < letters.len() ==> letters[j] != 'a') ==> rgba[to + 3] == 255
}

/// The picture of a frame has four bytes for each pixel, row by row from the top without
/// padding, and these show the pixel that the buffer holds there.
pub proof fn law_pictures_show_every_pixel(frame: FrameLayout, pixels: Seq<u8>, x: int, y: int)
    requires
        channel_letters(frame.format).len() > 0,
        0 <= x < frame.width,
        0 <= y < frame.height,
    ensures
        frame.rgba_image(pixels).len() == 4 * frame.width * frame.height,
        4 * (y * frame.width + x) + 3 < frame.rgba_image(pixels).len(),
        pixel_shown(
            frame.format,
            pixels,
            pixel_start(frame, x, y),
            frame.rgba_image(pixels),
            4 * (y * frame.width + x),
        ),
{
    lemma_image_pixel(frame, pixels, x, y, 0);
    lemma_image_pixel(frame, pixels, x, y, 1);
    lemma_image_pixel(frame, pixels, x, y, 2);
    lemma_image_pixel(frame, pixels, x, y, 3);
    let at = frame.source_offset(x, y);
    assert(at == pixel_start(frame, x, y));
    let letters = channel_letters(frame.format);
    assert(frame.format.channels()->0.alpha is Some ==> letters[0] == 'a' || letters[3] == 'a');
}

/// Converting a frame gives that picture, whatever its size, format and direction, and fails
/// just if a pixel has a format that cannot be converted.
pub proof fn law_conversion_shows_every_pixel(
    pixels: &[u8],
    width: u32,
    height: u32,
    stride: u32,
    format: ShmFormat,
    y_inverted: bool,
    result: Result<Vec<u8>, CaptureError>,
)
    requires
        call_ensures(
            convert_to_rgba,
            (pixels, width, height, stride, format, y_inverted),
            result,
        ),
    ensures
        result is Ok <==> channel_letters(format).len() > 0 || width == 0 || height == 0,
        result matches Err(error) ==> error == CaptureError::UnsupportedFormat(format),
        result matches Ok(rgba) ==> {
            &&& rgba@.len() == 4 * width * height
            &&& forall|x: int, y: int|
                0 <= x < width && 0 <= y < height ==> pixel_shown(
                    format,
                    pixels@,
                    #[trigger] pixel_start(
                        FrameLayout { width, height, stride, format, y_inverted },
                        x,
                        y,
                    ),
                    rgba@,
                    4 * (y * width + x),
                )
        },
{
    let frame = FrameLayout { width, height, stride, format, y_inverted };
    if let Ok(rgba) = result {
        assert forall|x: int, y: int| 0 <= x < width && 0 <= y < height implies pixel_shown(
            format,
            pixels@,
            #[trigger] pixel_start(frame, x, y),
            rgba@,
            4 * (y * width + x),
        ) by {
            law_pictures_show_every_pixel(frame, pixels@, x, y);
        }
    }
}

/// A frame fits a buffer just if every byte that shows lies in it, for every pixel, and 32
/// bits can count the bytes of the picture and where each pixel starts.
pub proof fn law_frames_fit_that_are_there(frame: FrameLayout, len: usize, fits: bool)
    requires
        channel_letters(frame.format).len() > 0,
        call_ensures(FrameLayout::fits_buffer, (&frame, len), fits),
    ensures
        fits <==> {
            &&& 4 * frame.width * frame.height <= u32::MAX
            &&& forall|x: int, y: int, j: int|
                0 <= x < frame.width && 0 <= y < frame.height && 0 <= j < channel_letters(
                    frame.format,
                ).len() && #[trigger] channel_letters(frame.format)[j] != 'x' ==> {
                    &&& #[trigger] pixel_start(frame, x, y) <= u32::MAX
                    &&& pixel_start(frame, x, y) + channel_letters(frame.format).len() - 1 - j < len
                }
        },
{
    let letters = channel_letters(frame.format);
    let n = letters.len() as int;
    if fits {
        assert forall|x: int, y: int, j: int|
            0 <= x < frame.width && 0 <= y < frame.height && 0 <= j < n
                && #[trigger] channel_letters(frame.format)[j] != 'x' implies {
            &&& #[trigger] pixel_start(frame, x, y) <= u32::MAX
            &&& pixel_start(frame, x, y) + n - 1 - j < len
        } by {
            lemma_source_bound(frame, len as int, x, y);
            assert(pixel_start(frame, x, y) == frame.source_offset(x, y));
            assert(n - 1 - j <= frame.format.last_offset());
        }
    } else if frame.width > 0 && frame.height > 0 && 4 * frame.width * frame.height <= u32::MAX {
        let x = frame.width - 1;
        let y = if frame.y_inverted {
            0
        } else {
            frame.height - 1
        };
        let j = n - 1 - frame.format.last_offset();
        assert(channel_letters(frame.format)[j] != 'x');
        assert(pixel_start(frame, x, y) == (frame.height - 1) * frame.stride + (frame.width - 1)
            * frame.format.pixel_bytes());
    }
}

} // verus!
