//! What is shown when the magnifier opens.

use crate::capture::picture_of;
use crate::config::RenderBackend;
use crate::pipeline::{law_the_texture_is_filled, setup_commands, setup_steps, SetupCommand};
use crate::pixels::{FrameLayout, Picture, Screenshot};
use crate::program::{create_program, CompileRequest};
use crate::signed::signed;
use crate::viewer::Viewer;
use vstd::prelude::*;

verus! {

/// A window that is about to show a screenshot.
#[derive(Debug)]
pub struct ZoomWindow {
    /// How the window answers input.
    pub viewer: Viewer,
    /// The first step of building the shader program.
    pub program: CompileRequest,
    /// The steps that set up the pipeline once the program is built.
    pub setup: Vec<SetupCommand>,
}

/// Opens a screenshot in a window with a drawable area of the given size.
pub fn show_zoom_window(
    screenshot: &Screenshot,
    backend: RenderBackend,
    width: u32,
    height: u32,
) -> (window: ZoomWindow)
    ensures
        window.viewer == (Viewer {
            image_width: screenshot.width,
            image_height: screenshot.height,
            cursor_x2: width as i64,
            cursor_y2: height as i64,
            dragging: false,
            spotlight: false,
        }),
        window.program == CompileRequest::first(backend),
        window.setup@ == setup_steps(backend, screenshot.width, screenshot.height),
{
    ZoomWindow {
        viewer: Viewer::new(screenshot, width, height),
        program: create_program(backend),
        setup: setup_commands(backend, screenshot.width, screenshot.height),
    }
}

/// The texture upload takes exactly the bytes of the screenshot: four for each pixel of the
/// size that it is told.
pub proof fn law_the_upload_takes_the_screenshot(picture: Picture)
    requires
        picture.wf(),
        picture.width > 0,
        picture.height > 0,
        picture.rgba.len() <= u32::MAX,
    ensures
        signed(picture.width) > 0,
        signed(picture.height) > 0,
        4 * signed(picture.width) * signed(picture.height) == picture.rgba.len(),
{
    let w = picture.width as int;
    let h = picture.height as int;
    assert(4 * w <= 4 * w * h && 4 * h <= 4 * w * h) by (nonlinear_arith)
        requires
            w > 0,
            h > 0,
    ;
}

/// So it is for every capture: the picture in a buffer that the frame fits is small enough to
/// be uploaded at its size, and the upload takes exactly its bytes.
pub proof fn law_the_upload_takes_a_capture(frame: FrameLayout, pixels: Seq<u8>)
    requires
        frame.format.is_supported(),
        frame.fits(pixels.len() as int),
        frame.width > 0,
        frame.height > 0,
    ensures
        picture_of(frame, pixels).wf(),
        picture_of(frame, pixels).rgba.len() <= u32::MAX,
        4 * signed(frame.width) * signed(frame.height) == picture_of(frame, pixels).rgba.len(),
{
    law_the_upload_takes_the_screenshot(picture_of(frame, pixels));
}

/// A window opens on the screenshot: its viewer has the screenshot's size and the cursor in the
/// middle, its build starts with the backend's vertex shader, and its texture is filled with
/// just the bytes of the screenshot.
pub proof fn law_windows_open_on_the_screenshot(
    screenshot: Screenshot,
    backend: RenderBackend,
    width: u32,
    height: u32,
    window: ZoomWindow,
    viewer: Viewer,
    program: CompileRequest,
    setup: Vec<SetupCommand>,
    i: int,
)
    requires
        call_ensures(show_zoom_window, (&screenshot, backend, width, height), window),
        call_ensures(Viewer::new, (&screenshot, width, height), viewer),
        call_ensures(create_program, (backend,), program),
        call_ensures(setup_commands, (backend, screenshot.width, screenshot.height), setup),
        0 <= i < window.setup@.len(),
    ensures
        window.viewer == viewer,
        window.viewer.image_width == screenshot.width,
        window.viewer.image_height == screenshot.height,
        window.program == program,
        window.program.backend == backend,
        window.program.vertex is None,
        window.setup@ == setup@,
        screenshot@.wf() && screenshot.width > 0 && screenshot.height > 0 && screenshot.rgba@.len()
            <= u32::MAX ==> (window.setup@[i] matches SetupCommand::UploadImage {
            width: w,
            height: h,
        } ==> w == screenshot.width && h == screenshot.height && 4 * w * h
            == screenshot.rgba@.len()),
{
    if screenshot@.wf() && screenshot.width > 0 && screenshot.height > 0 && screenshot.rgba@.len()
        <= u32::MAX {
        law_the_upload_takes_the_screenshot(screenshot@);
        law_the_texture_is_filled(backend, screenshot.width, screenshot.height, setup);
    }
}

} // verus!
