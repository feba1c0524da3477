//! Pixel formats of shared-memory buffers.

use vstd::prelude::*;
use wayland_client::protocol::wl_shm;

verus! {

/// The code of `argb8888` in the `wl_shm` protocol.
pub const CODE_ARGB8888: u32 = 0;

/// The code of `xrgb8888`.
pub const CODE_XRGB8888: u32 = 1;

/// The code of `abgr8888`.
pub const CODE_ABGR8888: u32 = 0x3432_4241;

/// The code of `xbgr8888`.
pub const CODE_XBGR8888: u32 = 0x3432_4258;

/// The code of `rgba8888`.
pub const CODE_RGBA8888: u32 = 0x3432_4152;

/// The code of `rgbx8888`.
pub const CODE_RGBX8888: u32 = 0x3432_5852;

/// The code of `bgra8888`.
pub const CODE_BGRA8888: u32 = 0x3432_4142;

/// The code of `bgrx8888`.
pub const CODE_BGRX8888: u32 = 0x3432_5842;

/// The code of `bgr888`.
pub const CODE_BGR888: u32 = 0x3432_4742;

/// The code of `rgb888`.
pub const CODE_RGB888: u32 = 0x3432_4752;

/// A `wl_shm` pixel format: those that can be converted, and the code of any other.
#[derive(Clone, Copy, Debug, PartialEq, Eq, Structural)]
pub enum ShmFormat {
    Argb8888,
    Xrgb8888,
    Abgr8888,
    Xbgr8888,
    Rgba8888,
    Rgbx8888,
    Bgra8888,
    Bgrx8888,
    Bgr888,
    Rgb888,
    Other(u32),
}

/// Where the channels of a pixel lie, as byte offsets from its first byte. Without an alpha
/// byte the pixel is opaque.
pub struct ChannelOffsets {
    pub red: nat,
    pub green: nat,
    pub blue: nat,
    pub alpha: Option<nat>,
}

impl ShmFormat {
    /// The channel layout of a format that can be converted.
    pub open spec fn channels(self) -> Option<ChannelOffsets> {
        match self {
            ShmFormat::Argb8888 => Some(
                ChannelOffsets { red: 2, green: 1, blue: 0, alpha: Some(3) },
            ),
            ShmFormat::Xrgb8888 => Some(
                ChannelOffsets { red: 2, green: 1, blue: 0, alpha: None },
            ),
            ShmFormat::Abgr8888 => Some(
                ChannelOffsets { red: 0, green: 1, blue: 2, alpha: Some(3) },
            ),
            ShmFormat::Xbgr8888 => Some(
                ChannelOffsets { red: 0, green: 1, blue: 2, alpha: None },
            ),
            ShmFormat::Rgba8888 => Some(
                ChannelOffsets { red: 3, green: 2, blue: 1, alpha: Some(0) },
            ),
            ShmFormat::Rgbx8888 => Some(
                ChannelOffsets { red: 3, green: 2, blue: 1, alpha: None },
            ),
            ShmFormat::Bgra8888 => Some(
                ChannelOffsets { red: 1, green: 2, blue: 3, alpha: Some(0) },
            ),
            ShmFormat::Bgrx8888 => Some(
                ChannelOffsets { red: 1, green: 2, blue: 3, alpha: None },
            ),
            ShmFormat::Bgr888 => Some(
                ChannelOffsets { red: 0, green: 1, blue: 2, alpha: None },
            ),
            ShmFormat::Rgb888 => Some(
                ChannelOffsets { red: 2, green: 1, blue: 0, alpha: None },
            ),
            ShmFormat::Other(_) => None,
        }
    }

    /// Whether pixels of this format can be converted.
    pub open spec fn is_supported(self) -> bool {
        self.channels() is Some
    }

    /// The bytes that one pixel takes.
    pub open spec fn pixel_bytes(self) -> nat {
        match self {
            ShmFormat::Bgr888 | ShmFormat::Rgb888 => 3,
            _ => 4,
        }
    }

    /// The largest byte offset that a channel of this format has.
    pub open spec fn last_offset(self) -> nat {
        match self {
            ShmFormat::Xrgb8888
            | ShmFormat::Xbgr8888
            | ShmFormat::Bgr888
            | ShmFormat::Rgb888 => 2,
            _ => 3,
        }
    }

    /// The code of this format in the `wl_shm` protocol.
    pub open spec fn spec_code(self) -> u32 {
        match self {
            ShmFormat::Argb8888 => CODE_ARGB8888,
            ShmFormat::Xrgb8888 => CODE_XRGB8888,
            ShmFormat::Abgr8888 => CODE_ABGR8888,
            ShmFormat::Xbgr8888 => CODE_XBGR8888,
            ShmFormat::Rgba8888 => CODE_RGBA8888,
            ShmFormat::Rgbx8888 => CODE_RGBX8888,
            ShmFormat::Bgra8888 => CODE_BGRA8888,
            ShmFormat::Bgrx8888 => CODE_BGRX8888,
            ShmFormat::Bgr888 => CODE_BGR888,
            ShmFormat::Rgb888 => CODE_RGB888,
            ShmFormat::Other(code) => code,
        }
    }

    /// No code stands for two formats: `Other` holds none of the codes named above.
    pub open spec fn wf(self) -> bool {
        self matches ShmFormat::Other(code) ==> !supported_code(code)
    }

    /// The format with the given `wl_shm` code.
    pub open spec fn of_code(code: u32) -> ShmFormat {
        if code == CODE_ARGB8888 {
            ShmFormat::Argb8888
        } else if code == CODE_XRGB8888 {
            ShmFormat::Xrgb8888
        } else if code == CODE_ABGR8888 {
            ShmFormat::Abgr8888
        } else if code == CODE_XBGR8888 {
            ShmFormat::Xbgr8888
        } else if code == CODE_RGBA8888 {
            ShmFormat::Rgba8888
        } else if code == CODE_RGBX8888 {
            ShmFormat::Rgbx8888
        } else if code == CODE_BGRA8888 {
            ShmFormat::Bgra8888
        } else if code == CODE_BGRX8888 {
            ShmFormat::Bgrx8888
        } else if code == CODE_BGR888 {
            ShmFormat::Bgr888
        } else if code == CODE_RGB888 {
            ShmFormat::Rgb888
        } else {
            ShmFormat::Other(code)
        }
    }

    /// The code of this format in the `wl_shm` protocol.
    pub fn code(self) -> (code: u32)
        ensures
            code == self.spec_code(),
    {
        match self {
            ShmFormat::Argb8888 => CODE_ARGB8888,
            ShmFormat::Xrgb8888 => CODE_XRGB8888,
            ShmFormat::Abgr8888 => CODE_ABGR8888,
            ShmFormat::Xbgr8888 => CODE_XBGR8888,
            ShmFormat::Rgba8888 => CODE_RGBA8888,
            ShmFormat::Rgbx8888 => CODE_RGBX8888,
            ShmFormat::Bgra8888 => CODE_BGRA8888,
            ShmFormat::Bgrx8888 => CODE_BGRX8888,
            ShmFormat::Bgr888 => CODE_BGR888,
            ShmFormat::Rgb888 => CODE_RGB888,
            ShmFormat::Other(code) => code,
        }
    }

    /// The format with the given `wl_shm` code.
    pub fn from_code(code: u32) -> (format: ShmFormat)
        ensures
            format == ShmFormat::of_code(code),
            format.wf(),
            format.spec_code() == code,
    {
        match code {
            CODE_ARGB8888 => ShmFormat::Argb8888,
            CODE_XRGB8888 => ShmFormat::Xrgb8888,
            CODE_ABGR8888 => ShmFormat::Abgr8888,
            CODE_XBGR8888 => ShmFormat::Xbgr8888,
            CODE_RGBA8888 => ShmFormat::Rgba8888,
            CODE_RGBX8888 => ShmFormat::Rgbx8888,
            CODE_BGRA8888 => ShmFormat::Bgra8888,
            CODE_BGRX8888 => ShmFormat::Bgrx8888,
            CODE_BGR888 => ShmFormat::Bgr888,
            CODE_RGB888 => ShmFormat::Rgb888,
            _ => ShmFormat::Other(code),
        }
    }
}

impl ShmFormat {
    /// Whether pixels of this format can be converted.
    pub fn supported(self) -> (supported: bool)
        ensures
            supported == self.is_supported(),
    {
        match self {
            ShmFormat::Other(_) => false,
            _ => true,
        }
    }
}

/// Formats and codes stand for each other: a format's code leads back to the format, and a
/// code's format has that code.
pub proof fn law_codes_and_formats_agree(format: ShmFormat, code: u32)
    requires
        format.wf(),
    ensures
        ShmFormat::of_code(format.spec_code()) == format,
        ShmFormat::of_code(code).wf(),
        ShmFormat::of_code(code).spec_code() == code,
        ShmFormat::of_code(code).is_supported() == supported_code(code),
{
}

/// Whether `code` is that of a format that can be converted.
pub open spec fn supported_code(code: u32) -> bool {
    ||| code == CODE_ARGB8888
    ||| code == CODE_XRGB8888
    ||| code == CODE_ABGR8888
    ||| code == CODE_XBGR8888
    ||| code == CODE_RGBA8888
    ||| code == CODE_RGBX8888
    ||| code == CODE_BGRA8888
    ||| code == CODE_BGRX8888
    ||| code == CODE_BGR888
    ||| code == CODE_RGB888
}

/// The number with the characters `a`, `b`, `c` and `d` as its bytes, the lowest first.
pub open spec fn four_characters(a: char, b: char, c: char, d: char) -> int {
    a as int + 0x100 * (b as int) + 0x1_0000 * (c as int) + 0x100_0000 * (d as int)
}

/// Formats have the codes of the protocol: the two that every compositor offers have the first
/// two numbers, and the others the four characters that abbreviate their name and its size.
/// Reading such a code gives that format, and no other code gives one that can be converted.
pub proof fn law_codes_abbreviate_names(code: u32, format: ShmFormat, back: u32)
    requires
        call_ensures(ShmFormat::from_code, (code,), format),
        call_ensures(ShmFormat::code, (format,), back),
    ensures
        back == code,
        code == 0 <==> format == ShmFormat::Argb8888,
        code == 1 <==> format == ShmFormat::Xrgb8888,
        code == four_characters('A', 'B', '2', '4') <==> format == ShmFormat::Abgr8888,
        code == four_characters('X', 'B', '2', '4') <==> format == ShmFormat::Xbgr8888,
        code == four_characters('R', 'A', '2', '4') <==> format == ShmFormat::Rgba8888,
        code == four_characters('R', 'X', '2', '4') <==> format == ShmFormat::Rgbx8888,
        code == four_characters('B', 'A', '2', '4') <==> format == ShmFormat::Bgra8888,
        code == four_characters('B', 'X', '2', '4') <==> format == ShmFormat::Bgrx8888,
        code == four_characters('B', 'G', '2', '4') <==> format == ShmFormat::Bgr888,
        code == four_characters('R', 'G', '2', '4') <==> format == ShmFormat::Rgb888,
        format matches ShmFormat::Other(other) ==> other == code,
        supported_code(code) <==> !(format is Other),
{
}

/// The code of a format, whichever it is, is the one that is read as that format.
pub proof fn law_written_codes_are_read(format: ShmFormat, code: u32, read: ShmFormat)
    requires
        format.wf(),
        call_ensures(ShmFormat::code, (format,), code),
        call_ensures(ShmFormat::from_code, (code,), read),
    ensures
        read == format,
        format matches ShmFormat::Other(other) ==> code == other,
{
}

/// The channels of a pixel as a format's name lists them, from the highest byte of the
/// little-endian number to the lowest; `x` stands for a byte that is not used.
pub open spec fn channel_letters(format: ShmFormat) -> Seq<char> {
    match format {
        ShmFormat::Argb8888 => seq!['a', 'r', 'g', 'b'],
        ShmFormat::Xrgb8888 => seq!['x', 'r', 'g', 'b'],
        ShmFormat::Abgr8888 => seq!['a', 'b', 'g', 'r'],
        ShmFormat::Xbgr8888 => seq!['x', 'b', 'g', 'r'],
        ShmFormat::Rgba8888 => seq!['r', 'g', 'b', 'a'],
        ShmFormat::Rgbx8888 => seq!['r', 'g', 'b', 'x'],
        ShmFormat::Bgra8888 => seq!['b', 'g', 'r', 'a'],
        ShmFormat::Bgrx8888 => seq!['b', 'g', 'r', 'x'],
        ShmFormat::Bgr888 => seq!['b', 'g', 'r'],
        ShmFormat::Rgb888 => seq!['r', 'g', 'b'],
        ShmFormat::Other(_) => Seq::empty(),
    }
}

/// Just the formats whose channels are known can be converted, and a pixel of one takes a
/// byte for each of them.
pub proof fn law_formats_with_channels_are_supported(format: ShmFormat, supported: bool)
    requires
        call_ensures(ShmFormat::supported, (format,), supported),
    ensures
        supported <==> channel_letters(format).len() > 0,
        supported <==> format.is_supported(),
        supported ==> format.pixel_bytes() == channel_letters(format).len(),
{
}

/// The characters of a text that may be missing.
pub open spec fn optional_text(text: Option<String>) -> Option<Seq<char>> {
    match text {
        Some(text) => Some(text@),
        None => None,
    }
}

/// The debug name of the `wl_shm::Format` with a given code, if the protocol has one.
pub uninterp spec fn shm_format_name(code: u32) -> Option<Seq<char>>;

/// Calls `wl_shm::Format::try_from`, and prints the format that it finds with its derived
/// `Debug`. The protocol has a format for each of the codes that this module names; which
/// other codes it has, and how the formats print, is left to the named result.
#[verifier::external_body]
pub(crate) fn format_name(code: u32) -> (name: Option<String>)
    ensures
        optional_text(name) == shm_format_name(code),
        supported_code(code) ==> name is Some,
{
    match wl_shm::Format::try_from(code) {
        Ok(format) => Some(format!("{:?}", format)),
        Err(()) => None,
    }
}

} // verus!
