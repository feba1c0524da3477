use panium::capture::{
    buffer_size, read_screenshot, require_output, BufferRequest, Capture, CaptureAction,
    CaptureState, FrameEvent, WaylandCapturer,
};
use panium::config::RenderBackend;
use panium::error::{unsupported_format_message, CaptureError};
use panium::pipeline::SetupCommand;
use panium::shm::ShmFormat;
use panium::signed::as_signed;
use panium::window::show_zoom_window;
use wayland_client::protocol::wl_shm;

const UNKNOWN_CODE: u32 = 0xffff_fffe;

fn buffer(format: ShmFormat, width: u32, height: u32, stride: u32) -> FrameEvent {
    FrameEvent::from_buffer(format.code(), width, height, stride)
}

fn create(state: &mut CaptureState, event: FrameEvent) -> BufferRequest {
    match state.event(true, event) {
        CaptureAction::CreateBuffer(request) => {
            state.buffer_created(request);
            request
        }
        action => panic!("no buffer was asked for: {action:?}"),
    }
}

fn error_of(state: CaptureState) -> CaptureError {
    assert!(state.done);
    state.outcome().expect_err("the capture fails")
}

#[test]
fn a_capture_gives_the_frame() {
    let mut state = WaylandCapturer.start();
    assert!(!state.done);
    let request = create(&mut state, buffer(ShmFormat::Xrgb8888, 1, 2, 4));
    assert_eq!(
        request,
        BufferRequest { size: 8, width: 1, height: 2, stride: 4, format: ShmFormat::Xrgb8888 }
    );
    assert!(matches!(state.event(true, FrameEvent::from_flags(1)), CaptureAction::Nothing));
    assert!(matches!(
        state.event(true, FrameEvent::Ready),
        CaptureAction::ReadPixels { size: 8 }
    ));
    assert!(state.can_finish(8));
    let action = state.finish_frame(&[1, 2, 3, 4, 5, 6, 7, 8]);
    assert!(matches!(action, CaptureAction::DestroyFrame));
    assert!(state.done);
    let screenshot = state.outcome().unwrap();
    assert_eq!((screenshot.width, screenshot.height), (1, 2));
    assert_eq!(screenshot.rgba, [7, 6, 5, 255, 3, 2, 1, 255]);
}

#[test]
fn flags_may_come_before_the_buffer() {
    let mut state = WaylandCapturer.start();
    state.event(true, FrameEvent::from_flags(1));
    create(&mut state, buffer(ShmFormat::Argb8888, 1, 1, 4));
    assert!(state.capture.frame.y_inverted);
    state.event(true, FrameEvent::from_flags(0));
    assert!(!state.capture.frame.y_inverted);
}

#[test]
fn flags_that_the_protocol_lacks_are_ignored() {
    let mut state = WaylandCapturer.start();
    state.event(true, FrameEvent::from_flags(1));
    assert!(matches!(FrameEvent::from_flags(2), FrameEvent::Other));
    assert!(matches!(FrameEvent::from_flags(3), FrameEvent::Other));
    state.event(true, FrameEvent::from_flags(2));
    assert!(state.capture.frame.y_inverted);
    assert!(!state.done);
}

#[test]
fn buffers_of_other_frames_are_refused() {
    let mut state = WaylandCapturer.start();
    let action = state.event(false, buffer(ShmFormat::Argb8888, 1, 1, 4));
    assert!(matches!(action, CaptureAction::Nothing));
    let error = error_of(state);
    assert_eq!(error, CaptureError::UnknownBufferFrame);
    assert_eq!(error.message(), "received buffer event for an unknown frame");
}

#[test]
fn other_frames_that_are_ready_are_refused() {
    let mut state = WaylandCapturer.start();
    create(&mut state, buffer(ShmFormat::Argb8888, 1, 1, 4));
    state.event(false, FrameEvent::Ready);
    let error = error_of(state);
    assert_eq!(error, CaptureError::UnknownReadyFrame);
    assert_eq!(error.message(), "received ready event for an unknown frame");
}

#[test]
fn sizes_that_overflow_are_refused() {
    assert_eq!(buffer_size(0xffff, 0x1_0001), Ok(u32::MAX));
    assert_eq!(buffer_size(0x1_0000, 0x1_0000), Err(CaptureError::SizeOverflow));
    let mut state = WaylandCapturer.start();
    state.event(true, buffer(ShmFormat::Argb8888, 1, 0x1_0000, 0x1_0000));
    let error = error_of(state);
    assert_eq!(error, CaptureError::SizeOverflow);
    assert_eq!(error.message(), "screenshot buffer size overflowed");
}

#[test]
fn ready_without_a_buffer_is_refused() {
    let mut state = WaylandCapturer.start();
    assert_eq!(state.capture.read_size(), Err(CaptureError::NoBuffer));
    state.event(true, FrameEvent::Ready);
    assert_eq!(
        error_of(state).message(),
        "compositor signaled ready before a buffer was created"
    );
}

#[test]
fn formats_without_a_conversion_fail_when_ready() {
    let mut state = WaylandCapturer.start();
    let code = u32::from(wl_shm::Format::Nv12);
    create(&mut state, FrameEvent::from_buffer(code, 1, 1, 4));
    assert!(!state.done);
    assert!(state.can_finish(0));
    let action = state.finish_frame(&[0, 0, 0, 0]);
    assert!(matches!(action, CaptureAction::Nothing));
    let error = error_of(state);
    assert_eq!(error, CaptureError::UnsupportedFormat(ShmFormat::Other(code)));
    assert_eq!(error.message(), "unsupported wl_shm format: Nv12");
}

#[test]
fn formats_that_the_protocol_lacks_fail_at_once() {
    assert!(wl_shm::Format::try_from(UNKNOWN_CODE).is_err());
    let mut state = WaylandCapturer.start();
    state.event(false, FrameEvent::from_buffer(UNKNOWN_CODE, 1, 1, 4));
    let error = error_of(state);
    assert_eq!(error, CaptureError::UnknownFormat(UNKNOWN_CODE));
    assert_eq!(error.message(), "unsupported wl_shm format advertised: 4294967294");
}

#[test]
fn formats_are_named_where_they_have_a_name() {
    assert_eq!(
        unsupported_format_message(Some("C8".to_string()), 7),
        "unsupported wl_shm format: C8"
    );
    assert_eq!(unsupported_format_message(None, 70), "unsupported wl_shm format: 70");
    assert_eq!(
        CaptureError::UnsupportedFormat(ShmFormat::Other(UNKNOWN_CODE)).message(),
        "unsupported wl_shm format: 4294967294"
    );
}

#[test]
fn known_codes_are_decoded() {
    assert!(matches!(
        FrameEvent::buffer(true, 0, 1, 2, 3),
        FrameEvent::Buffer { format: ShmFormat::Argb8888, width: 1, height: 2, stride: 3 }
    ));
    assert!(matches!(
        FrameEvent::buffer(false, 9, 1, 2, 3),
        FrameEvent::UnknownBuffer { code: 9 }
    ));
}

#[test]
fn the_compositor_may_give_up() {
    let mut state = WaylandCapturer.start();
    let action = state.event(false, FrameEvent::Failed);
    assert!(matches!(action, CaptureAction::DestroyFrame));
    assert_eq!(error_of(state).message(), "screenshot failed by compositor");
}

#[test]
fn an_error_outweighs_a_screenshot() {
    let mut state = WaylandCapturer.start();
    create(&mut state, buffer(ShmFormat::Abgr8888, 1, 1, 4));
    state.finish_frame(&[1, 2, 3, 4]);
    state.fail(CaptureError::Outside("the disk is full".to_string()));
    assert_eq!(error_of(state).message(), "the disk is full");
}

#[test]
fn a_capture_that_goes_on_has_no_screenshot() {
    let state = WaylandCapturer.start();
    let error = state.outcome().unwrap_err();
    assert_eq!(error, CaptureError::NoScreenshot);
    assert_eq!(error.message(), "compositor finished without screenshot data");
}

#[test]
fn other_events_change_nothing() {
    let mut state = WaylandCapturer.start();
    assert!(matches!(state.event(true, FrameEvent::Other), CaptureAction::Nothing));
    assert!(!state.done && !state.capture.buffered);
    assert_eq!(state.capture.frame.format, ShmFormat::Xrgb8888);
}

#[test]
fn screenshots_are_read_from_a_capture() {
    let mut capture = Capture::new();
    capture.buffered = true;
    capture.frame.width = 1;
    capture.frame.height = 1;
    capture.frame.stride = 4;
    assert_eq!(capture.read_size(), Ok(4));
    let screenshot = read_screenshot(&capture, &[1, 2, 3, 4]).unwrap();
    assert_eq!(screenshot.rgba, [3, 2, 1, 255]);
}

#[test]
fn short_frames_cannot_be_finished() {
    let mut state = WaylandCapturer.start();
    create(&mut state, buffer(ShmFormat::Argb8888, 100, 1, 4));
    assert!(!state.can_finish(4));
}

#[test]
fn wire_arguments_keep_their_bits() {
    let request = BufferRequest {
        size: 0x8000_0001,
        width: 7,
        height: u32::MAX,
        stride: 0x7fff_ffff,
        format: ShmFormat::Bgr888,
    };
    let wire = request.wire();
    assert_eq!(wire.pool_size, i32::MIN + 1);
    assert_eq!(wire.width, 7);
    assert_eq!(wire.height, -1);
    assert_eq!(wire.stride, i32::MAX);
    assert_eq!(wire.format, u32::from(wl_shm::Format::Bgr888));
    assert_eq!(as_signed(0x8000_0000), i32::MIN);
}

#[test]
fn an_output_is_needed() {
    assert_eq!(require_output(Some(3)), Ok(3));
    let error = require_output::<u8>(None).unwrap_err();
    assert_eq!(error, CaptureError::NoOutput);
    assert_eq!(error.message(), "no Wayland outputs found");
}

#[test]
fn the_end_is_final() {
    let mut state = WaylandCapturer.start();
    state.event(true, FrameEvent::Failed);
    create(&mut state, buffer(ShmFormat::Abgr8888, 1, 1, 4));
    state.event(true, FrameEvent::Ready);
    state.finish_frame(&[1, 2, 3, 4]);
    assert!(state.done);
    assert!(state.capture.screenshot.is_some());
    assert_eq!(error_of(state), CaptureError::Rejected);
}

#[test]
fn screenshots_are_as_large_as_they_say() {
    let mut state = WaylandCapturer.start();
    state.event(true, FrameEvent::from_flags(1));
    let request = create(&mut state, buffer(ShmFormat::Bgr888, 3, 2, 10));
    assert_eq!(request.size, 20);
    assert!(matches!(
        state.event(true, FrameEvent::Ready),
        CaptureAction::ReadPixels { size: 20 }
    ));
    let pixels: Vec<u8> = (0..20).collect();
    state.finish_frame(&pixels);
    let screenshot = state.outcome().unwrap();
    assert_eq!(screenshot.rgba.len(), 24);
    assert_eq!(screenshot.rgba[..8], [10, 11, 12, 255, 13, 14, 15, 255]);
    assert_eq!(screenshot.rgba[20..], [6, 7, 8, 255]);
}

#[test]
fn frames_without_a_buffer_cannot_be_read() {
    assert_eq!(read_screenshot(&Capture::new(), &[]).err(), Some(CaptureError::NoBuffer));
    let mut state = WaylandCapturer.start();
    assert!(state.can_finish(0));
    let action = state.finish_frame(&[]);
    assert!(matches!(action, CaptureAction::Nothing));
    assert!(state.capture.screenshot.is_none());
    assert_eq!(error_of(state), CaptureError::NoBuffer);
}

#[test]
fn buffers_that_overflow_cannot_be_read() {
    let mut capture = Capture::new();
    capture.buffered = true;
    capture.frame.height = 0x1_0000;
    capture.frame.stride = 0x1_0000;
    assert_eq!(read_screenshot(&capture, &[]).err(), Some(CaptureError::SizeOverflow));
}

#[test]
fn frames_without_pixels_need_no_conversion() {
    let mut state = WaylandCapturer.start();
    let code = u32::from(wl_shm::Format::Nv12);
    create(&mut state, FrameEvent::from_buffer(code, 0, 3, 4));
    let action = state.finish_frame(&[0; 12]);
    assert!(matches!(action, CaptureAction::DestroyFrame));
    let screenshot = state.outcome().unwrap();
    assert_eq!((screenshot.width, screenshot.height), (0, 3));
    assert!(screenshot.rgba.is_empty());
}

#[test]
fn the_upload_takes_a_captured_screenshot() {
    let mut state = WaylandCapturer.start();
    create(&mut state, buffer(ShmFormat::Xbgr8888, 2, 3, 8));
    state.finish_frame(&[9; 24]);
    let screenshot = state.outcome().unwrap();
    let window = show_zoom_window(&screenshot, RenderBackend::Gles2, 800, 600);
    assert!(window.setup.contains(&SetupCommand::UploadImage { width: 2, height: 3 }));
    assert_eq!(screenshot.rgba.len(), 4 * 2 * 3);
}
