//! The course of a screen capture, from the compositor's events to a screenshot.

use crate::error::CaptureError;
use crate::pixels::{
    convert_to_rgba, law_pictures_show_every_pixel, pixel_shown, pixel_start, FrameLayout, Picture,
    Screenshot,
};
use crate::shm::{channel_letters, format_name, shm_format_name, supported_code, ShmFormat};
use crate::signed::{as_signed, signed};
use vstd::prelude::*;
use wayland_protocols_wlr::screencopy::v1::client::zwlr_screencopy_frame_v1;

verus! {

/// What the frame flags `bits` say: whether the frame is stored upside down, or nothing if a
/// bit is set that the protocol does not define.
pub open spec fn flags_meaning(bits: u32) -> Option<bool> {
    if bits == 0 {
        Some(false)
    } else if bits == 1 {
        Some(true)
    } else {
        None
    }
}

/// Calls `zwlr_screencopy_frame_v1::Flags::from_bits`, and `contains` on what it gives. The
/// only flag is `YInvert`, with the value one; `from_bits` refuses any other bit.
#[verifier::external_body]
fn frame_flags(bits: u32) -> (inverted: Option<bool>)
    ensures
        inverted == flags_meaning(bits),
{
    match zwlr_screencopy_frame_v1::Flags::from_bits(bits) {
        Some(flags) => Some(flags.contains(zwlr_screencopy_frame_v1::Flags::YInvert)),
        None => None,
    }
}

/// What the compositor reports of a frame.
#[derive(Debug)]
pub enum FrameEvent {
    /// The frame needs a buffer of this kind.
    Buffer { format: ShmFormat, width: u32, height: u32, stride: u32 },
    /// The frame needs a buffer of a format that the protocol does not know.
    UnknownBuffer { code: u32 },
    /// How the rows of the frame are stored.
    Flags { y_inverted: bool },
    /// The frame has been copied to its buffer.
    Ready,
    /// The frame could not be copied.
    Failed,
    /// Anything else, which a capture ignores.
    Other,
}

impl FrameEvent {
    /// The event that asks for a buffer, given whether the protocol knows the format's code.
    pub open spec fn buffer_event(
        known: bool,
        code: u32,
        width: u32,
        height: u32,
        stride: u32,
    ) -> FrameEvent {
        if known {
            FrameEvent::Buffer { format: ShmFormat::of_code(code), width, height, stride }
        } else {
            FrameEvent::UnknownBuffer { code }
        }
    }

    /// Makes the event that asks for a buffer, given whether the protocol knows the format's
    /// code.
    pub fn buffer(known: bool, code: u32, width: u32, height: u32, stride: u32) -> (event:
        FrameEvent)
        ensures
            event == FrameEvent::buffer_event(known, code, width, height, stride),
    {
        if known {
            FrameEvent::Buffer { format: ShmFormat::from_code(code), width, height, stride }
        } else {
            FrameEvent::UnknownBuffer { code }
        }
    }

    /// Reads the event that asks for a buffer from its arguments on the wire.
    pub fn from_buffer(code: u32, width: u32, height: u32, stride: u32) -> (event: FrameEvent)
        ensures
            event == FrameEvent::buffer_event(
                shm_format_name(code) is Some,
                code,
                width,
                height,
                stride,
            ),
            supported_code(code) ==> event == FrameEvent::buffer_event(
                true,
                code,
                width,
                height,
                stride,
            ),
    {
        FrameEvent::buffer(format_name(code).is_some(), code, width, height, stride)
    }

    /// Reads the event that reports flags from its argument on the wire.
    pub fn from_flags(bits: u32) -> (event: FrameEvent)
        ensures
            event == match flags_meaning(bits) {
                Some(y_inverted) => FrameEvent::Flags { y_inverted },
                None => FrameEvent::Other,
            },
    {
        match frame_flags(bits) {
            Some(y_inverted) => FrameEvent::Flags { y_inverted },
            None => FrameEvent::Other,
        }
    }
}

/// The bytes that `height` rows of `stride` bytes take, if 32 bits can count them.
pub fn buffer_size(stride: u32, height: u32) -> (size: Result<u32, CaptureError>)
    ensures
        match size {
            Ok(size) => size == stride * height,
            Err(error) => stride * height > u32::MAX && error == CaptureError::SizeOverflow,
        },
{
    match stride.checked_mul(height) {
        Some(size) => Ok(size),
        None => Err(CaptureError::SizeOverflow),
    }
}

/// A buffer that the compositor needs to be given.
#[derive(Clone, Copy, Debug, PartialEq, Eq, Structural)]
pub struct BufferRequest {
    pub size: u32,
    pub width: u32,
    pub height: u32,
    pub stride: u32,
    pub format: ShmFormat,
}

/// The arguments of the requests that make a buffer, as they go over the wire.
#[derive(Clone, Copy, Debug, PartialEq, Eq, Structural)]
pub struct WireBuffer {
    pub pool_size: i32,
    pub width: i32,
    pub height: i32,
    pub stride: i32,
    pub format: u32,
}

impl BufferRequest {
    /// The buffer has room for exactly the rows of the frame.
    pub open spec fn wf(self) -> bool {
        self.size == self.stride * self.height
    }

    /// The requests' arguments: the wire has signed numbers, and a number too large for one
    /// keeps its bits.
    pub fn wire(&self) -> (wire: WireBuffer)
        ensures
            wire.pool_size == signed(self.size),
            wire.width == signed(self.width),
            wire.height == signed(self.height),
            wire.stride == signed(self.stride),
            wire.format == self.format.spec_code(),
    {
        WireBuffer {
            pool_size: as_signed(self.size),
            width: as_signed(self.width),
            height: as_signed(self.height),
            stride: as_signed(self.stride),
            format: self.format.code(),
        }
    }
}

/// What has to be done after an event before the capture can go on.
#[derive(Debug)]
pub enum CaptureAction {
    /// Nothing: wait for the next event.
    Nothing,
    /// Make this buffer and have the frame copied to it, then report `buffer_created`, or
    /// `fail` with what went wrong.
    CreateBuffer(BufferRequest),
    /// Read this many bytes from the start of the buffer, then report `finish_frame`, or
    /// `fail` with what went wrong.
    ReadPixels { size: u32 },
    /// Give up the frame object.
    DestroyFrame,
}

/// The frame being captured, as far as it is known.
#[derive(Debug)]
pub struct Capture {
    /// Whether the frame has a buffer.
    pub buffered: bool,
    pub frame: FrameLayout,
    pub screenshot: Option<Screenshot>,
}

impl Capture {
    /// A frame of which nothing is known.
    pub fn new() -> (capture: Capture)
        ensures
            !capture.buffered,
            capture.frame == empty_frame(),
            capture.screenshot is None,
    {
        Capture {
            buffered: false,
            frame: FrameLayout {
                width: 0,
                height: 0,
                stride: 0,
                format: ShmFormat::Xrgb8888,
                y_inverted: false,
            },
            screenshot: None,
        }
    }

    /// How many bytes of pixels to read for the frame.
    pub fn read_size(&self) -> (size: Result<u32, CaptureError>)
        ensures
            match size {
                Ok(size) => {
                    &&& read_fault(self.buffered, self.frame) is None
                    &&& size == self.frame.stride * self.frame.height
                },
                Err(error) => read_fault(self.buffered, self.frame) == Some(error),
            },
    {
        if !self.buffered {
            return Err(CaptureError::NoBuffer);
        }
        buffer_size(self.frame.stride, self.frame.height)
    }
}

/// The layout that a frame has before its buffer is described.
pub open spec fn empty_frame() -> FrameLayout {
    FrameLayout {
        width: 0,
        height: 0,
        stride: 0,
        format: ShmFormat::Xrgb8888,
        y_inverted: false,
    }
}

/// Why the bytes of a frame cannot be read: it has no buffer, or one too large to count.
pub open spec fn read_fault(buffered: bool, frame: FrameLayout) -> Option<CaptureError> {
    if !buffered {
        Some(CaptureError::NoBuffer)
    } else if frame.stride * frame.height > u32::MAX {
        Some(CaptureError::SizeOverflow)
    } else {
        None
    }
}

/// The screenshot that the bytes of a frame's buffer hold.
pub fn read_screenshot(capture: &Capture, pixels: &[u8]) -> (result: Result<
    Screenshot,
    CaptureError,
>)
    requires
        read_fault(capture.buffered, capture.frame) is None
            && capture.frame.format.is_supported() ==> capture.frame.fits(pixels@.len() as int),
    ensures
        match result {
            Ok(screenshot) => {
                &&& read_fault(capture.buffered, capture.frame) is None
                &&& shows(capture.frame)
                &&& screenshot@ == picture_of(capture.frame, pixels@)
            },
            Err(error) => match read_fault(capture.buffered, capture.frame) {
                Some(fault) => error == fault,
                None => {
                    &&& !shows(capture.frame)
                    &&& error == CaptureError::UnsupportedFormat(capture.frame.format)
                },
            },
        },
{
    match capture.read_size() {
        Ok(_) => {},
        Err(error) => return Err(error),
    }
    let frame = capture.frame;
    match convert_to_rgba(
        pixels,
        frame.width,
        frame.height,
        frame.stride,
        frame.format,
        frame.y_inverted,
    ) {
        Ok(rgba) => Ok(Screenshot { width: frame.width, height: frame.height, rgba }),
        Err(error) => Err(error),
    }
}

/// Whether a frame can be shown: its format can be converted, or it has no pixels.
pub open spec fn shows(frame: FrameLayout) -> bool {
    frame.format.is_supported() || frame.width == 0 || frame.height == 0
}

/// The picture that the bytes of a frame's buffer hold.
pub open spec fn picture_of(frame: FrameLayout, pixels: Seq<u8>) -> Picture {
    Picture { width: frame.width, height: frame.height, rgba: frame.rgba_image(pixels) }
}

/// The state of a capture.
#[derive(Debug)]
pub struct CaptureState {
    pub capture: Capture,
    /// Whether the capture has ended.
    pub done: bool,
    pub error: Option<CaptureError>,
}

/// What the state of a capture stands for.
pub struct CaptureModel {
    pub buffered: bool,
    pub frame: FrameLayout,
    pub picture: Option<Picture>,
    pub done: bool,
    pub error: Option<CaptureError>,
}

impl View for CaptureState {
    type V = CaptureModel;

    open spec fn view(&self) -> CaptureModel {
        CaptureModel {
            buffered: self.capture.buffered,
            frame: self.capture.frame,
            picture: match self.capture.screenshot {
                Some(screenshot) => Some(screenshot@),
                None => None,
            },
            done: self.done,
            error: self.error,
        }
    }
}

impl CaptureModel {
    /// A capture that has ended has a picture or a reason why not, and one that goes on has
    /// neither. A buffer is no larger than 32 bits can count, and a picture has as many
    /// bytes as its dimensions say.
    pub open spec fn wf(self) -> bool {
        &&& self.done <==> (self.error is Some || self.picture is Some)
        &&& self.buffered ==> self.frame.stride * self.frame.height <= u32::MAX
        &&& self.picture matches Some(picture) ==> picture.wf()
    }

    /// The state of a capture of which nothing has been reported.
    pub open spec fn start() -> CaptureModel {
        CaptureModel {
            buffered: false,
            frame: empty_frame(),
            picture: None,
            done: false,
            error: None,
        }
    }

    /// The state after a failure.
    pub open spec fn failed(self, error: CaptureError) -> CaptureModel {
        CaptureModel { error: Some(error), done: true, ..self }
    }

    /// The state and the action after `event`, where `ours` says whether it concerns the
    /// frame that was requested.
    pub open spec fn on_event(self, ours: bool, event: FrameEvent) -> (
        CaptureModel,
        CaptureAction,
    ) {
        match event {
            FrameEvent::Buffer { format, width, height, stride } => if !ours {
                (self.failed(CaptureError::UnknownBufferFrame), CaptureAction::Nothing)
            } else if stride * height > u32::MAX {
                (self.failed(CaptureError::SizeOverflow), CaptureAction::Nothing)
            } else {
                let size = (stride * height) as u32;
                let request = BufferRequest { size, width, height, stride, format };
                (self, CaptureAction::CreateBuffer(request))
            },
            FrameEvent::UnknownBuffer { code } => (
                self.failed(CaptureError::UnknownFormat(code)),
                CaptureAction::Nothing,
            ),
            FrameEvent::Flags { y_inverted } => (
                CaptureModel { frame: FrameLayout { y_inverted, ..self.frame }, ..self },
                CaptureAction::Nothing,
            ),
            FrameEvent::Ready => if !ours {
                (self.failed(CaptureError::UnknownReadyFrame), CaptureAction::Nothing)
            } else {
                match read_fault(self.buffered, self.frame) {
                    Some(fault) => (self.failed(fault), CaptureAction::Nothing),
                    None => {
                        let size = (self.frame.stride * self.frame.height) as u32;
                        (self, CaptureAction::ReadPixels { size })
                    },
                }
            },
            FrameEvent::Failed => (
                self.failed(CaptureError::Rejected),
                CaptureAction::DestroyFrame,
            ),
            FrameEvent::Other => (self, CaptureAction::Nothing),
        }
    }

    /// The state once the requested buffer has been made.
    pub open spec fn on_buffer_created(self, request: BufferRequest) -> CaptureModel {
        CaptureModel {
            buffered: true,
            frame: FrameLayout {
                width: request.width,
                height: request.height,
                stride: request.stride,
                format: request.format,
                y_inverted: self.frame.y_inverted,
            },
            ..self
        }
    }

    /// The state and the action once the buffer's bytes have been read.
    pub open spec fn on_pixels(self, pixels: Seq<u8>) -> (CaptureModel, CaptureAction) {
        match read_fault(self.buffered, self.frame) {
            Some(fault) => (self.failed(fault), CaptureAction::Nothing),
            None => if shows(self.frame) {
                (
                    CaptureModel {
                        picture: Some(picture_of(self.frame, pixels)),
                        done: true,
                        ..self
                    },
                    CaptureAction::DestroyFrame,
                )
            } else {
                (
                    self.failed(CaptureError::UnsupportedFormat(self.frame.format)),
                    CaptureAction::Nothing,
                )
            },
        }
    }

    /// Whether `len` bytes are enough for what is read of the frame.
    pub open spec fn finishes_with(self, len: int) -> bool {
        read_fault(self.buffered, self.frame) is None && self.frame.format.is_supported()
            ==> self.frame.fits(len)
    }

    /// How the capture ended.
    pub open spec fn outcome(self) -> Result<Picture, CaptureError> {
        match (self.error, self.picture) {
            (Some(error), _) => Err(error),
            (None, Some(picture)) => Ok(picture),
            (None, None) => Err(CaptureError::NoScreenshot),
        }
    }
}

impl CaptureState {
    /// Checks an event that asks for a buffer: the request to serve, or why there is none.
    pub fn prepare_buffer(
        ours: bool,
        format: ShmFormat,
        width: u32,
        height: u32,
        stride: u32,
    ) -> (result: Result<BufferRequest, CaptureError>)
        ensures
            match result {
                Ok(request) => {
                    &&& ours
                    &&& request.wf()
                    &&& request.width == width
                    &&& request.height == height
                    &&& request.stride == stride
                    &&& request.format == format
                },
                Err(error) => if !ours {
                    error == CaptureError::UnknownBufferFrame
                } else {
                    stride * height > u32::MAX && error == CaptureError::SizeOverflow
                },
            },
    {
        if !ours {
            return Err(CaptureError::UnknownBufferFrame);
        }
        match buffer_size(stride, height) {
            Ok(size) => Ok(BufferRequest { size, width, height, stride, format }),
            Err(error) => Err(error),
        }
    }

    /// Takes in an event of a frame; `ours` says whether it is the frame that was requested.
    pub fn event(&mut self, ours: bool, event: FrameEvent) -> (action: CaptureAction)
        ensures
            (final(self)@, action) == old(self)@.on_event(ours, event),
    {
        match event {
            FrameEvent::Buffer { format, width, height, stride } => {
                match CaptureState::prepare_buffer(ours, format, width, height, stride) {
                    Ok(request) => CaptureAction::CreateBuffer(request),
                    Err(error) => {
                        self.fail(error);
                        CaptureAction::Nothing
                    },
                }
            },
            FrameEvent::UnknownBuffer { code } => {
                self.fail(CaptureError::UnknownFormat(code));
                CaptureAction::Nothing
            },
            FrameEvent::Flags { y_inverted } => {
                self.capture.frame.y_inverted = y_inverted;
                CaptureAction::Nothing
            },
            FrameEvent::Ready => {
                if !ours {
                    self.fail(CaptureError::UnknownReadyFrame);
                    return CaptureAction::Nothing;
                }
                match self.capture.read_size() {
                    Ok(size) => CaptureAction::ReadPixels { size },
                    Err(error) => {
                        self.fail(error);
                        CaptureAction::Nothing
                    },
                }
            },
            FrameEvent::Failed => {
                self.fail(CaptureError::Rejected);
                CaptureAction::DestroyFrame
            },
            FrameEvent::Other => CaptureAction::Nothing,
        }
    }

    /// Takes in that the requested buffer has been made and handed to the compositor.
    pub fn buffer_created(&mut self, request: BufferRequest)
        ensures
            final(self)@ == old(self)@.on_buffer_created(request),
    {
        self.capture.buffered = true;
        self.capture.frame.width = request.width;
        self.capture.frame.height = request.height;
        self.capture.frame.stride = request.stride;
        self.capture.frame.format = request.format;
    }

    /// Whether `len` bytes of pixels are enough to finish the frame.
    pub fn can_finish(&self, len: usize) -> (enough: bool)
        ensures
            enough == self@.finishes_with(len as int),
    {
        self.capture.read_size().is_err() || !self.capture.frame.format.supported()
            || self.capture.frame.fits_buffer(len)
    }

    /// Takes in the bytes of the buffer of a frame that is ready.
    pub fn finish_frame(&mut self, pixels: &[u8]) -> (action: CaptureAction)
        requires
            old(self)@.finishes_with(pixels@.len() as int),
        ensures
            (final(self)@, action) == old(self)@.on_pixels(pixels@),
    {
        match read_screenshot(&self.capture, pixels) {
            Ok(screenshot) => {
                self.capture.screenshot = Some(screenshot);
                self.done = true;
                CaptureAction::DestroyFrame
            },
            Err(error) => {
                self.fail(error);
                CaptureAction::Nothing
            },
        }
    }

    /// Ends the capture with an error.
    pub fn fail(&mut self, error: CaptureError)
        ensures
            final(self)@ == old(self)@.failed(error),
    {
        self.error = Some(error);
        self.done = true;
    }

    /// How the capture ended. An error counts for more than a screenshot.
    pub fn outcome(self) -> (result: Result<Screenshot, CaptureError>)
        ensures
            match result {
                Ok(screenshot) => self@.outcome() == Ok::<Picture, CaptureError>(screenshot@),
                Err(error) => self@.outcome() == Err::<Picture, CaptureError>(error),
            },
    {
        match self.error {
            Some(error) => Err(error),
            None => match self.capture.screenshot {
                Some(screenshot) => Ok(screenshot),
                None => Err(CaptureError::NoScreenshot),
            },
        }
    }
}

/// The output to capture: the first that the compositor has.
pub fn require_output<T>(first: Option<T>) -> (output: Result<T, CaptureError>)
    ensures
        output == match first {
            Some(output) => Ok::<T, CaptureError>(output),
            None => Err::<T, CaptureError>(CaptureError::NoOutput),
        },
{
    match first {
        Some(output) => Ok(output),
        None => Err(CaptureError::NoOutput),
    }
}

/// Captures a screen through the compositor's screencopy protocol.
#[derive(Debug)]
pub struct WaylandCapturer;

impl WaylandCapturer {
    /// Starts a capture.
    pub fn start(&self) -> (state: CaptureState)
        ensures
            state@ == CaptureModel::start(),
            state@.wf(),
    {
        CaptureState { capture: Capture::new(), done: false, error: None }
    }
}

/// Anything that a capture takes in.
pub enum Step {
    Event { ours: bool, event: FrameEvent },
    BufferCreated(BufferRequest),
    Pixels(Seq<u8>),
    Failed(CaptureError),
}

impl Step {
    /// A buffer has been made as large as its rows need.
    pub open spec fn valid(self) -> bool {
        self matches Step::BufferCreated(request) ==> request.wf()
    }
}

impl CaptureModel {
    /// The state after one step.
    pub open spec fn step(self, step: Step) -> CaptureModel {
        match step {
            Step::Event { ours, event } => self.on_event(ours, event).0,
            Step::BufferCreated(request) => self.on_buffer_created(request),
            Step::Pixels(pixels) => self.on_pixels(pixels).0,
            Step::Failed(error) => self.failed(error),
        }
    }

    /// The state after a course of steps.
    pub open spec fn after_steps(self, steps: Seq<Step>) -> CaptureModel
        decreases steps.len(),
    {
        if steps.len() == 0 {
            self
        } else {
            self.after_steps(steps.drop_last()).step(steps.last())
        }
    }
}

/// Every step keeps the state of a capture well formed, and so does every course of steps.
pub proof fn law_captures_stay_well_formed(state: CaptureModel, steps: Seq<Step>)
    requires
        state.wf(),
        forall|i: int| 0 <= i < steps.len() ==> (#[trigger] steps[i]).valid(),
    ensures
        state.after_steps(steps).wf(),
    decreases steps.len(),
{
    if steps.len() > 0 {
        assert forall|i: int| 0 <= i < steps.drop_last().len() implies (
        #[trigger] steps.drop_last()[i]).valid() by {
            assert(steps.drop_last()[i] == steps[i]);
        }
        law_captures_stay_well_formed(state, steps.drop_last());
        assert(steps.last().valid());
    }
}

/// A capture that has ended stays ended, an error is never forgotten, and neither is a
/// picture.
pub proof fn law_the_end_is_final(state: CaptureModel, steps: Seq<Step>)
    ensures
        state.done ==> state.after_steps(steps).done,
        state.error is Some ==> state.after_steps(steps).error is Some,
        state.picture is Some ==> state.after_steps(steps).picture is Some,
    decreases steps.len(),
{
    if steps.len() > 0 {
        law_the_end_is_final(state, steps.drop_last());
    }
}

/// A capture that has ended, whatever it took in, has either a picture of the right size or
/// the error that it was ended with: it never ends without either.
pub proof fn law_the_end_is_explained(steps: Seq<Step>)
    requires
        forall|i: int| 0 <= i < steps.len() ==> (#[trigger] steps[i]).valid(),
        CaptureModel::start().after_steps(steps).done,
    ensures
        match CaptureModel::start().after_steps(steps).outcome() {
            Ok(picture) => picture.wf(),
            Err(error) => CaptureModel::start().after_steps(steps).error == Some(error),
        },
{
    law_captures_stay_well_formed(CaptureModel::start(), steps);
}

/// A buffer is only ever asked for in the size that its rows need, and a frame that is ready
/// and has its buffer is read whole.
pub proof fn law_sizes_match_the_frame(state: CaptureModel, ours: bool, event: FrameEvent)
    requires
        state.wf(),
    ensures
        state.on_event(ours, event).1 matches CaptureAction::CreateBuffer(request)
            ==> request.wf(),
        state.buffered ==> state.on_event(true, FrameEvent::Ready) == (
            state,
            CaptureAction::ReadPixels { size: (state.frame.stride * state.frame.height) as u32 },
        ),
{
}

/// The course of a capture that succeeds, as it does for every format that can be converted,
/// and for a frame without pixels whatever its format: the compositor describes the buffer
/// and, before or after, how its rows are stored, and reports the frame ready. The screenshot
/// is then the picture in the bytes read, which are as many as the buffer was made for.
pub proof fn law_a_capture_shows_the_frame(
    format: ShmFormat,
    width: u32,
    height: u32,
    stride: u32,
    y_inverted: bool,
    flags_first: bool,
    pixels: Seq<u8>,
)
    requires
        shows(FrameLayout { width, height, stride, format, y_inverted }),
        stride * height <= u32::MAX,
    ensures
        ({
            let start = CaptureModel::start();
            let flags = FrameEvent::Flags { y_inverted };
            let buffer = FrameEvent::Buffer { format, width, height, stride };
            let size = (stride * height) as u32;
            let request = BufferRequest { size, width, height, stride, format };
            let asked = if flags_first {
                start.on_event(true, flags).0
            } else {
                start
            };
            let made = asked.on_event(true, buffer).0.on_buffer_created(request);
            let copied = if flags_first {
                made
            } else {
                made.on_event(true, flags).0
            };
            let read = copied.on_event(true, FrameEvent::Ready).0.on_pixels(pixels);
            let frame = FrameLayout { width, height, stride, format, y_inverted };
            &&& asked.on_event(true, buffer).1 == CaptureAction::CreateBuffer(request)
            &&& copied.on_event(true, FrameEvent::Ready).1 == CaptureAction::ReadPixels { size }
            &&& read.1 == CaptureAction::DestroyFrame
            &&& read.0.done
            &&& read.0.outcome() == Ok::<Picture, CaptureError>(picture_of(frame, pixels))
        }),
{
}

/// A capture that fails ends with that failure, whatever came before.
pub proof fn law_a_failure_is_the_outcome(state: CaptureModel, error: CaptureError)
    ensures
        state.failed(error).done,
        state.failed(error).outcome() == Err::<Picture, CaptureError>(error),
{
}

/// The event that asks for a buffer says what came over the wire: for every code that the
/// protocol knows it has the width, the height and the stride in their places, whatever they
/// are, and the format with that code. Any other code is passed on alone.
pub proof fn law_buffer_events_say_what_came(
    known: bool,
    code: u32,
    width: u32,
    height: u32,
    stride: u32,
    event: FrameEvent,
)
    requires
        call_ensures(FrameEvent::buffer, (known, code, width, height, stride), event),
    ensures
        known <==> event is Buffer,
        event matches FrameEvent::Buffer { format: f, width: w, height: h, stride: s } ==> {
            &&& w == width
            &&& h == height
            &&& s == stride
            &&& f.spec_code() == code
            &&& f.wf()
        },
        !known <==> event is UnknownBuffer,
        event matches FrameEvent::UnknownBuffer { code: c } ==> c == code,
{
}

/// The protocol decides which codes it knows; it knows those of all formats that can be
/// converted. Beyond that, what is read from the wire is the event that was sent.
pub proof fn law_wire_events_say_what_came(
    code: u32,
    width: u32,
    height: u32,
    stride: u32,
    event: FrameEvent,
)
    requires
        call_ensures(FrameEvent::from_buffer, (code, width, height, stride), event),
    ensures
        event is Buffer <==> shm_format_name(code) is Some,
        !(event is Buffer) <==> event is UnknownBuffer,
        supported_code(code) ==> event is Buffer,
        event matches FrameEvent::Buffer { format: f, width: w, height: h, stride: s } ==> {
            &&& w == width
            &&& h == height
            &&& s == stride
            &&& f.spec_code() == code
            &&& f.wf()
            &&& f.is_supported() <==> supported_code(code)
        },
        event matches FrameEvent::UnknownBuffer { code: c } ==> c == code,
{
}

/// The lowest bit of the flags says whether the rows are stored upside down; flags with any
/// other bit say nothing.
pub proof fn law_the_lowest_flag_inverts(bits: u32, event: FrameEvent)
    requires
        call_ensures(FrameEvent::from_flags, (bits,), event),
    ensures
        bits / 2 == 0 <==> event is Flags,
        bits / 2 != 0 <==> event is Other,
        event matches FrameEvent::Flags { y_inverted } ==> (y_inverted <==> bits % 2 == 1),
{
}

/// In every state a buffer that is described for the frame is asked for just as described, in
/// the size of its rows, and nothing changes until it is made. A buffer for another frame, or
/// one too large to count, ends the capture with that reason.
pub proof fn law_buffers_are_asked_for_as_described(
    ours: bool,
    format: ShmFormat,
    width: u32,
    height: u32,
    stride: u32,
)
    ensures
        forall|state: &mut CaptureState, action: CaptureAction| #[trigger]
            call_ensures(
                CaptureState::event,
                (state, ours, FrameEvent::Buffer { format, width, height, stride }),
                action,
            ) ==> {
                &&& ours && stride * height <= u32::MAX ==> {
                    &&& action matches CaptureAction::CreateBuffer(request) && request.size
                        == stride * height && request.width == width && request.height == height
                        && request.stride == stride && request.format == format
                    &&& final(state)@ == state@
                }
                &&& action is CreateBuffer <==> ours && stride * height <= u32::MAX
                &&& !(action is CreateBuffer) ==> {
                    &&& action == CaptureAction::Nothing
                    &&& final(state)@.done
                    &&& final(state)@.error == Some(
                        if ours {
                            CaptureError::SizeOverflow
                        } else {
                            CaptureError::UnknownBufferFrame
                        },
                    )
                    &&& final(state)@ == (CaptureModel {
                        error: final(state)@.error,
                        done: true,
                        ..state@
                    })
                }
            },
{
}

/// A request for a buffer is made of the numbers described, or refused for the same reasons.
pub proof fn law_requests_are_as_described(
    ours: bool,
    format: ShmFormat,
    width: u32,
    height: u32,
    stride: u32,
    result: Result<BufferRequest, CaptureError>,
)
    requires
        call_ensures(
            CaptureState::prepare_buffer,
            (ours, format, width, height, stride),
            result,
        ),
    ensures
        result is Ok <==> ours && stride * height <= u32::MAX,
        result matches Ok(request) ==> {
            &&& request.size == stride * height
            &&& request.width == width
            &&& request.height == height
            &&& request.stride == stride
            &&& request.format == format
        },
        result matches Err(error) ==> error == (if ours {
            CaptureError::SizeOverflow
        } else {
            CaptureError::UnknownBufferFrame
        }),
{
}

/// The requests over the wire carry the numbers of the request in their places, with the
/// format's code, and unchanged as long as they are small enough to be signed.
pub proof fn law_requests_cross_the_wire(request: BufferRequest, wire: WireBuffer)
    requires
        call_ensures(BufferRequest::wire, (&request,), wire),
    ensures
        request.size <= i32::MAX ==> wire.pool_size == request.size,
        request.width <= i32::MAX ==> wire.width == request.width,
        request.height <= i32::MAX ==> wire.height == request.height,
        request.stride <= i32::MAX ==> wire.stride == request.stride,
        request.size > i32::MAX ==> wire.pool_size == request.size - 0x1_0000_0000,
        request.width > i32::MAX ==> wire.width == request.width - 0x1_0000_0000,
        request.height > i32::MAX ==> wire.height == request.height - 0x1_0000_0000,
        request.stride > i32::MAX ==> wire.stride == request.stride - 0x1_0000_0000,
        request.format.wf() ==> ShmFormat::of_code(wire.format) == request.format,
        wire.format == request.format.spec_code(),
{
}

/// Sizes are products of stride and height, in full or not at all.
pub proof fn law_sizes_are_whole(
    stride: u32,
    height: u32,
    size: Result<u32, CaptureError>,
    capture: Capture,
    read: Result<u32, CaptureError>,
)
    requires
        call_ensures(buffer_size, (stride, height), size),
        call_ensures(Capture::read_size, (&capture,), read),
    ensures
        size is Ok <==> stride * height <= u32::MAX,
        size matches Ok(bytes) ==> bytes == stride * height,
        size matches Err(error) ==> error == CaptureError::SizeOverflow,
        read is Ok <==> capture.buffered && capture.frame.stride * capture.frame.height
            <= u32::MAX,
        read matches Ok(bytes) ==> bytes == capture.frame.stride * capture.frame.height,
        read matches Err(error) ==> error == (if capture.buffered {
            CaptureError::SizeOverflow
        } else {
            CaptureError::NoBuffer
        }),
{
}

/// In every state flags set the direction of the rows and nothing else, whichever frame they
/// are for.
pub proof fn law_flags_set_the_direction(ours: bool, y_inverted: bool)
    ensures
        forall|state: &mut CaptureState, action: CaptureAction| #[trigger]
            call_ensures(
                CaptureState::event,
                (state, ours, FrameEvent::Flags { y_inverted }),
                action,
            ) ==> {
                &&& action == CaptureAction::Nothing
                &&& final(state)@.frame.y_inverted == y_inverted
                &&& final(state)@ == (CaptureModel {
                    frame: FrameLayout { y_inverted, ..state@.frame },
                    ..state@
                })
            },
{
}

/// In every state a frame that is ready is read whole, which changes nothing before its bytes
/// are there. Another frame, one without a buffer, and one whose buffer is too large to count
/// end the capture with that reason, and the first of these that holds.
pub proof fn law_ready_frames_are_read(ours: bool)
    ensures
        forall|state: &mut CaptureState, action: CaptureAction| #[trigger]
            call_ensures(
                CaptureState::event,
                (state, ours, FrameEvent::Ready),
                action,
            ) ==> {
                &&& action is ReadPixels <==> ours && state@.buffered && state@.frame.stride
                    * state@.frame.height <= u32::MAX
                &&& action matches CaptureAction::ReadPixels { size } ==> size == state@.frame.stride
                    * state@.frame.height && final(state)@ == state@
                &&& !(action is ReadPixels) ==> {
                    &&& action == CaptureAction::Nothing
                    &&& final(state)@.error == Some(
                        if !ours {
                            CaptureError::UnknownReadyFrame
                        } else if !state@.buffered {
                            CaptureError::NoBuffer
                        } else {
                            CaptureError::SizeOverflow
                        },
                    )
                    &&& final(state)@ == (CaptureModel {
                        error: final(state)@.error,
                        done: true,
                        ..state@
                    })
                }
            },
{
}

/// In every state, whichever frame they are for, a format that the protocol does not know ends
/// the capture with its code, a frame that the compositor gave up ends it and is given up, and
/// other events do nothing.
pub proof fn law_other_events_end_or_pass(ours: bool, code: u32)
    ensures
        forall|state: &mut CaptureState, action: CaptureAction| #[trigger]
            call_ensures(
                CaptureState::event,
                (state, ours, FrameEvent::UnknownBuffer { code }),
                action,
            ) ==> {
                &&& action == CaptureAction::Nothing
                &&& final(state)@ == (CaptureModel {
                    error: Some(CaptureError::UnknownFormat(code)),
                    done: true,
                    ..state@
                })
            },
        forall|state: &mut CaptureState, action: CaptureAction| #[trigger]
            call_ensures(
                CaptureState::event,
                (state, ours, FrameEvent::Failed),
                action,
            ) ==> {
                &&& action == CaptureAction::DestroyFrame
                &&& final(state)@ == (CaptureModel {
                    error: Some(CaptureError::Rejected),
                    done: true,
                    ..state@
                })
            },
        forall|state: &mut CaptureState, action: CaptureAction| #[trigger]
            call_ensures(
                CaptureState::event,
                (state, ours, FrameEvent::Other),
                action,
            ) ==> {
                &&& action == CaptureAction::Nothing
                &&& final(state)@ == state@
            },
{
}

/// In every state a buffer that was made gives the frame its numbers, each in its place, and
/// keeps the direction of the rows and all else.
pub proof fn law_made_buffers_describe_the_frame(request: BufferRequest)
    ensures
        forall|state: &mut CaptureState| #[trigger]
            call_ensures(CaptureState::buffer_created, (state, request), ()) ==> {
                let made = final(state)@;
                &&& made.buffered
                &&& made.frame.width == request.width
                &&& made.frame.height == request.height
                &&& made.frame.stride == request.stride
                &&& made.frame.format == request.format
                &&& made.frame.y_inverted == state@.frame.y_inverted
                &&& made.picture == state@.picture
                &&& made.done == state@.done
                &&& made.error == state@.error
            },
{
}

/// In every state a failure ends the capture with that failure and keeps all else.
pub proof fn law_failures_end_the_capture(error: CaptureError)
    ensures
        forall|state: &mut CaptureState| #[trigger]
            call_ensures(CaptureState::fail, (state, error), ()) ==> final(state)@ == (
            CaptureModel { error: Some(error), done: true, ..state@ }),
{
}

/// Whether `picture` is what a buffer with the bytes `pixels` shows: of the frame's size, and
/// every pixel as it lies in the buffer.
pub open spec fn is_shown(frame: FrameLayout, pixels: Seq<u8>, picture: Picture) -> bool {
    &&& picture.width == frame.width
    &&& picture.height == frame.height
    &&& picture.rgba.len() == 4 * frame.width * frame.height
    &&& forall|x: int, y: int|
        0 <= x < frame.width && 0 <= y < frame.height ==> pixel_shown(
            frame.format,
            pixels,
            #[trigger] pixel_start(frame, x, y),
            picture.rgba,
            4 * (y * frame.width + x),
        )
}

proof fn lemma_pictures_are_shown(frame: FrameLayout, pixels: Seq<u8>)
    requires
        shows(frame),
    ensures
        is_shown(frame, pixels, picture_of(frame, pixels)),
{
    let picture = picture_of(frame, pixels);
    assert forall|x: int, y: int| 0 <= x < frame.width && 0 <= y < frame.height implies pixel_shown(
        frame.format,
        pixels,
        #[trigger] pixel_start(frame, x, y),
        picture.rgba,
        4 * (y * frame.width + x),
    ) by {
        law_pictures_show_every_pixel(frame, pixels, x, y);
    }
    if frame.width == 0 || frame.height == 0 {
        assert(4 * frame.width * frame.height == 0) by (nonlinear_arith)
            requires
                frame.width == 0 || frame.height == 0,
        ;
    }
}

/// Reading the bytes of a buffer gives what it shows, or says why it shows nothing.
pub proof fn law_screenshots_show_the_frame(
    capture: Capture,
    pixels: &[u8],
    result: Result<Screenshot, CaptureError>,
)
    requires
        call_ensures(read_screenshot, (&capture, pixels), result),
    ensures
        result matches Ok(screenshot) ==> is_shown(capture.frame, pixels@, screenshot@),
        result is Ok <==> {
            &&& capture.buffered
            &&& capture.frame.stride * capture.frame.height <= u32::MAX
            &&& channel_letters(capture.frame.format).len() > 0 || capture.frame.width == 0
                || capture.frame.height == 0
        },
        result matches Err(error) ==> error == (if !capture.buffered {
            CaptureError::NoBuffer
        } else if capture.frame.stride * capture.frame.height > u32::MAX {
            CaptureError::SizeOverflow
        } else {
            CaptureError::UnsupportedFormat(capture.frame.format)
        }),
{
    if result is Ok {
        lemma_pictures_are_shown(capture.frame, pixels@);
    }
}

/// In every state the bytes of a frame that has a buffer end the capture: with what the buffer
/// shows, and the frame is given up, or with the reason why it shows nothing. All else is kept.
pub proof fn law_bytes_end_the_capture(pixels: &[u8])
    ensures
        forall|state: &mut CaptureState, action: CaptureAction| #[trigger]
            call_ensures(CaptureState::finish_frame, (state, pixels), action) ==> {
                let ended = final(state)@;
                let frame = state@.frame;
                &&& ended.done
                &&& ended.buffered == state@.buffered
                &&& ended.frame == frame
                &&& action == CaptureAction::DestroyFrame || action == CaptureAction::Nothing
                &&& action == CaptureAction::DestroyFrame <==> {
                    &&& state@.buffered
                    &&& frame.stride * frame.height <= u32::MAX
                    &&& channel_letters(frame.format).len() > 0 || frame.width == 0
                        || frame.height == 0
                }
                &&& action == CaptureAction::DestroyFrame ==> {
                    &&& ended.picture matches Some(picture) && is_shown(frame, pixels@, picture)
                    &&& ended.error == state@.error
                }
                &&& action == CaptureAction::Nothing ==> {
                    &&& ended.picture == state@.picture
                    &&& ended.error == Some(
                        if !state@.buffered {
                            CaptureError::NoBuffer
                        } else if frame.stride * frame.height > u32::MAX {
                            CaptureError::SizeOverflow
                        } else {
                            CaptureError::UnsupportedFormat(frame.format)
                        },
                    )
                }
            },
{
    assert forall|state: &mut CaptureState, action: CaptureAction| #[trigger]
        call_ensures(CaptureState::finish_frame, (state, pixels), action)
            && action == CaptureAction::DestroyFrame implies (
    final(state)@.picture matches Some(picture) && is_shown(state@.frame, pixels@, picture)) by {
        lemma_pictures_are_shown(state@.frame, pixels@);
    }
}

/// Bytes are enough to finish a frame if every byte that shows is among them. For a frame that
/// cannot be read or converted any number will do.
pub proof fn law_frames_finish_with_their_bytes(state: CaptureState, len: usize, enough: bool)
    requires
        call_ensures(CaptureState::can_finish, (&state, len), enough),
    ensures
        !state@.buffered || state@.frame.stride * state@.frame.height > u32::MAX
            || channel_letters(state@.frame.format).len() == 0 ==> enough,
        state@.buffered && state@.frame.stride * state@.frame.height <= u32::MAX
            && channel_letters(state@.frame.format).len() > 0 ==> (enough <==> state@.frame.fits(
            len as int,
        )),
{
}

/// A capture ends with its error if it has one, with its screenshot if it has none, and without
/// either it says so.
pub proof fn law_errors_outweigh_screenshots(
    state: CaptureState,
    result: Result<Screenshot, CaptureError>,
)
    requires
        call_ensures(CaptureState::outcome, (state,), result),
    ensures
        state@.error matches Some(error) ==> result == Err::<Screenshot, CaptureError>(error),
        state@.error is None && state@.picture is Some ==> (result matches Ok(screenshot)
            && state@.picture == Some(screenshot@)),
        state@.error is None && state@.picture is None ==> (result matches Err(error) && error
            == CaptureError::NoScreenshot),
{
}

/// A capture starts with nothing known, nothing done and nothing wrong, its rows from the top.
pub proof fn law_captures_start_empty(state: CaptureState, capture: Capture)
    requires
        call_ensures(WaylandCapturer::start, (&WaylandCapturer,), state),
        call_ensures(Capture::new, (), capture),
    ensures
        !state.done,
        state.error is None,
        state@.picture is None,
        !state@.buffered && !capture.buffered,
        capture.screenshot is None,
        state@.frame == capture.frame,
        capture.frame.width == 0 && capture.frame.height == 0 && capture.frame.stride == 0,
        capture.frame.format == ShmFormat::Xrgb8888,
        !capture.frame.y_inverted,
{
}

/// The output that there is is captured, and without one the capture says so.
pub proof fn law_the_first_output_is_captured<T>(
    first: Option<T>,
    output: Result<T, CaptureError>,
)
    requires
        call_ensures(require_output::<T>, (first,), output),
    ensures
        first matches Some(it) ==> output == Ok::<T, CaptureError>(it),
        first is None ==> output == Err::<T, CaptureError>(CaptureError::NoOutput),
{
}

/// The whole course, from the numbers on the wire to the outcome: whatever format that can be
/// converted the compositor describes, in whatever size, and whether it says before or after
/// how the rows are stored, the capture asks for a buffer of just these numbers, reads all its
/// rows, gives up the frame, and ends with a picture of just the width and height on the wire
/// that shows every pixel as it lies in the buffer.
pub proof fn law_what_is_on_the_wire_is_shown(
    code: u32,
    width: u32,
    height: u32,
    stride: u32,
    bits: u32,
    flags_first: bool,
    pixels: Seq<u8>,
    start: CaptureState,
    buffer: FrameEvent,
    flags: FrameEvent,
)
    requires
        supported_code(code),
        stride * height <= u32::MAX,
        bits <= 1,
        call_ensures(WaylandCapturer::start, (&WaylandCapturer,), start),
        call_ensures(FrameEvent::from_buffer, (code, width, height, stride), buffer),
        call_ensures(FrameEvent::from_flags, (bits,), flags),
    ensures
        ({
            let before = if flags_first {
                start@.on_event(true, flags).0
            } else {
                start@
            };
            let asked = before.on_event(true, buffer);
            let made = asked.0.on_buffer_created(asked.1->CreateBuffer_0);
            let after = if flags_first {
                made
            } else {
                made.on_event(true, flags).0
            };
            let ready = after.on_event(true, FrameEvent::Ready);
            let read = ready.0.on_pixels(pixels);
            &&& asked.1 matches CaptureAction::CreateBuffer(request) && request.width == width
                && request.height == height && request.stride == stride && request.size == stride
                * height && request.format.spec_code() == code
            &&& ready.1 matches CaptureAction::ReadPixels { size } && size == stride * height
            &&& read.1 == CaptureAction::DestroyFrame
            &&& read.0.done
            &&& read.0.outcome() matches Ok(picture) && picture.width == width && picture.height
                == height && picture.wf() && is_shown(
                FrameLayout {
                    width,
                    height,
                    stride,
                    format: ShmFormat::of_code(code),
                    y_inverted: bits == 1,
                },
                pixels,
                picture,
            )
        }),
{
    let frame = FrameLayout {
        width,
        height,
        stride,
        format: ShmFormat::of_code(code),
        y_inverted: bits == 1,
    };
    lemma_pictures_are_shown(frame, pixels);
    law_a_capture_shows_the_frame(
        frame.format,
        width,
        height,
        stride,
        frame.y_inverted,
        flags_first,
        pixels,
    );
}

} // verus!
