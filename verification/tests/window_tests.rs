use gpui_ios::platform::{Appearance, Response};
use gpui_ios::window::{
    check_window_creation, frame_tick, respond_window, BackgroundAppearance, FrameRequest,
    FrameTick, WindowError, WindowRequest, WindowState, FRAME_INTERVAL_MICROS,
};

#[test]
fn frame_timer_decisions() {
    assert_eq!(frame_tick(false, true), FrameTick::Stop);
    assert_eq!(frame_tick(false, false), FrameTick::Stop);
    assert_eq!(
        frame_tick(true, true),
        FrameTick::RequestFrame(FrameRequest {
            require_presentation: false,
            force_render: false
        })
    );
    assert_eq!(frame_tick(true, false), FrameTick::Skip);
    assert_eq!(FRAME_INTERVAL_MICROS, 16_667);
}

#[test]
fn window_creation_requires_the_main_thread() {
    assert_eq!(check_window_creation(true), Ok(()));
    assert_eq!(check_window_creation(false), Err(WindowError::NotOnMainThread));
    assert_eq!(
        WindowError::NotOnMainThread.message(),
        "IosWindow must be created on the main thread"
    );
}

#[test]
fn input_handler_set_then_taken() {
    let mut w: WindowState<&str> = WindowState::new();
    assert_eq!(w.take_input_handler(), None);
    w.set_input_handler("first");
    w.set_input_handler("second");
    assert_eq!(w.take_input_handler(), Some("second"));
    assert_eq!(w.take_input_handler(), None);
}

#[test]
fn window_fixed_answers() {
    let w: WindowState<u8> = WindowState::new();
    assert!(w.is_maximized());
    assert!(w.is_fullscreen());
    assert!(!w.is_hovered());
    assert_eq!(w.appearance(), Appearance::Light);
    assert_eq!(w.background_appearance(), BackgroundAppearance::Opaque);
    assert_eq!(w.prompt::<usize>(), None);
}

#[test]
fn window_requests_log_or_do_nothing() {
    match respond_window(WindowRequest::Resize) {
        Response::LogError(m) => assert_eq!(m, "IosWindow::resize is not supported on iOS"),
        _ => panic!("resize must log"),
    }
    match respond_window(WindowRequest::Minimize) {
        Response::LogError(m) => assert_eq!(m, "IosWindow::minimize is not supported on iOS"),
        _ => panic!("minimize must log"),
    }
    match respond_window(WindowRequest::Zoom) {
        Response::LogError(m) => assert_eq!(m, "IosWindow::zoom is not supported on iOS"),
        _ => panic!("zoom must log"),
    }
    for r in [
        WindowRequest::SetTitle,
        WindowRequest::SetBackgroundAppearance,
        WindowRequest::ToggleFullscreen,
        WindowRequest::UpdateImePosition,
    ] {
        assert!(matches!(respond_window(r), Response::Nothing));
    }
}
