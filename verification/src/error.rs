//! Why a capture fails.

use crate::shm::{format_name, optional_text, shm_format_name, ShmFormat};
use crate::text::{decimal, decimal_text, joined};
use vstd::prelude::*;

verus! {

/// Why a screenshot could not be taken.
#[derive(Debug, PartialEq, Eq)]
pub enum CaptureError {
    /// The compositor has no output to capture.
    NoOutput,
    /// A buffer was described for a frame that was not requested.
    UnknownBufferFrame,
    /// A frame that was not requested was reported ready.
    UnknownReadyFrame,
    /// The frame's rows take more bytes than 32 bits can count.
    SizeOverflow,
    /// The frame was reported ready before its buffer was described.
    NoBuffer,
    /// The frame has a format that the protocol knows and the conversion does not.
    UnsupportedFormat(ShmFormat),
    /// The frame has a format code that the protocol does not know.
    UnknownFormat(u32),
    /// The compositor gave up on the frame.
    Rejected,
    /// The capture ended without a picture.
    NoScreenshot,
    /// A failure outside this library, in its own words.
    Outside(String),
}

/// The message for a format that cannot be converted, by its name, or by its code where it
/// has no name.
pub open spec fn unsupported_format_text(name: Option<Seq<char>>, code: u32) -> Seq<char> {
    "unsupported wl_shm format: "@ + match name {
        Some(name) => name,
        None => decimal(code as nat),
    }
}

/// Words the message for a format that cannot be converted.
pub fn unsupported_format_message(name: Option<String>, code: u32) -> (message: String)
    ensures
        message@ == unsupported_format_text(optional_text(name), code),
{
    match name {
        Some(name) => joined("unsupported wl_shm format: ", name.as_str()),
        None => joined("unsupported wl_shm format: ", decimal_text(code).as_str()),
    }
}

impl CaptureError {
    /// The message of this error.
    pub open spec fn text(self) -> Seq<char> {
        match self {
            CaptureError::NoOutput => "no Wayland outputs found"@,
            CaptureError::UnknownBufferFrame => "received buffer event for an unknown frame"@,
            CaptureError::UnknownReadyFrame => "received ready event for an unknown frame"@,
            CaptureError::SizeOverflow => "screenshot buffer size overflowed"@,
            CaptureError::NoBuffer => "compositor signaled ready before a buffer was created"@,
            CaptureError::UnsupportedFormat(format) => unsupported_format_text(
                shm_format_name(format.spec_code()),
                format.spec_code(),
            ),
            CaptureError::UnknownFormat(code) => "unsupported wl_shm format advertised: "@
                + decimal(code as nat),
            CaptureError::Rejected => "screenshot failed by compositor"@,
            CaptureError::NoScreenshot => "compositor finished without screenshot data"@,
            CaptureError::Outside(message) => message@,
        }
    }

    /// The message to show for this error.
    pub fn message(&self) -> (message: String)
        ensures
            message@ == self.text(),
    {
        match self {
            CaptureError::NoOutput => "no Wayland outputs found".to_owned(),
            CaptureError::UnknownBufferFrame =>
                "received buffer event for an unknown frame".to_owned(),
            CaptureError::UnknownReadyFrame =>
                "received ready event for an unknown frame".to_owned(),
            CaptureError::SizeOverflow => "screenshot buffer size overflowed".to_owned(),
            CaptureError::NoBuffer =>
                "compositor signaled ready before a buffer was created".to_owned(),
            CaptureError::UnsupportedFormat(format) => unsupported_format_message(
                format_name(format.code()),
                format.code(),
            ),
            CaptureError::UnknownFormat(code) => joined(
                "unsupported wl_shm format advertised: ",
                decimal_text(*code).as_str(),
            ),
            CaptureError::Rejected => "screenshot failed by compositor".to_owned(),
            CaptureError::NoScreenshot =>
                "compositor finished without screenshot data".to_owned(),
            CaptureError::Outside(message) => message.clone(),
        }
    }
}

/// The message of an unknown format ends with its code in decimal, that of an unsupported one
/// with the name that the protocol has for it, or with its code if it has none, and a failure
/// outside keeps its own words.
pub proof fn law_messages_say_which(
    code: u32,
    format: ShmFormat,
    words: String,
    unknown: String,
    unsupported: String,
    outside: String,
)
    requires
        call_ensures(CaptureError::message, (&CaptureError::UnknownFormat(code),), unknown),
        call_ensures(
            CaptureError::message,
            (&CaptureError::UnsupportedFormat(format),),
            unsupported,
        ),
        call_ensures(CaptureError::message, (&CaptureError::Outside(words),), outside),
    ensures
        unknown@ == "unsupported wl_shm format advertised: "@ + decimal(code as nat),
        shm_format_name(format.spec_code()) matches Some(name) ==> unsupported@
            == "unsupported wl_shm format: "@ + name,
        shm_format_name(format.spec_code()) is None ==> unsupported@
            == "unsupported wl_shm format: "@ + decimal(format.spec_code() as nat),
        outside@ == words@,
{
}

/// A format is named by its name where it has one, whatever its code, and by its code
/// otherwise.
pub proof fn law_names_come_before_codes(name: Option<String>, code: u32, message: String)
    requires
        call_ensures(unsupported_format_message, (name, code), message),
    ensures
        name matches Some(name) ==> message@ == "unsupported wl_shm format: "@ + name@,
        name is None ==> message@ == "unsupported wl_shm format: "@ + decimal(code as nat),
{
}

/// The other failures have one message each.
pub proof fn law_messages_are_fixed(error: CaptureError, message: String)
    requires
        call_ensures(CaptureError::message, (&error,), message),
    ensures
        error is NoOutput ==> message@ == "no Wayland outputs found"@,
        error is UnknownBufferFrame ==> message@ == "received buffer event for an unknown frame"@,
        error is UnknownReadyFrame ==> message@ == "received ready event for an unknown frame"@,
        error is SizeOverflow ==> message@ == "screenshot buffer size overflowed"@,
        error is NoBuffer ==> message@
            == "compositor signaled ready before a buffer was created"@,
        error is Rejected ==> message@ == "screenshot failed by compositor"@,
        error is NoScreenshot ==> message@ == "compositor finished without screenshot data"@,
{
}

} // verus!
