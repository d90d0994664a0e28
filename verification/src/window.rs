use vstd::prelude::*;
use crate::platform::{Appearance, Response};
use crate::slot::{spec_registered, spec_taken, Slot};

verus! {

/// The interval between frame requests, in microseconds (about 60 frames a
/// second).
pub const FRAME_INTERVAL_MICROS: u64 = 16_667;

/// The options a frame is requested with.
#[derive(Debug, Clone, Copy, PartialEq, Eq, Structural)]
pub struct FrameRequest {
    pub require_presentation: bool,
    pub force_render: bool,
}

/// What the frame timer does when it fires.
#[derive(Debug, Clone, Copy, PartialEq, Eq, Structural)]
pub enum FrameTick {
    /// The window is gone: stop the timer.
    Stop,
    /// Ask the window's frame callback for a frame.
    RequestFrame(FrameRequest),
    /// No frame callback is registered yet: wait for the next tick.
    Skip,
}

/// What the frame timer does when it fires, given whether the window still
/// exists and whether a frame callback is registered.
pub open spec fn spec_frame_tick(window_alive: bool, request_frame_registered: bool) -> FrameTick {
    if !window_alive {
        FrameTick::Stop
    } else if request_frame_registered {
        FrameTick::RequestFrame(FrameRequest { require_presentation: false, force_render: false })
    } else {
        FrameTick::Skip
    }
}

/// What the frame timer does when it fires.
pub fn frame_tick(window_alive: bool, request_frame_registered: bool) -> (r: FrameTick)
    ensures
        r == spec_frame_tick(window_alive, request_frame_registered),
{
    if !window_alive {
        FrameTick::Stop
    } else if request_frame_registered {
        FrameTick::RequestFrame(FrameRequest { require_presentation: false, force_render: false })
    } else {
        FrameTick::Skip
    }
}

/// The timer keeps running exactly as long as the window exists, and a frame
/// is requested on a tick exactly when a frame callback is registered.
pub proof fn lemma_frame_timer_runs_while_window_lives(
    window_alive: bool,
    request_frame_registered: bool,
)
    ensures
        spec_frame_tick(window_alive, request_frame_registered) is Stop <==> !window_alive,
        spec_frame_tick(window_alive, request_frame_registered) is RequestFrame <==> window_alive
            && request_frame_registered,
{
}

/// Why a window could not be created.
#[derive(Debug, Clone, Copy, PartialEq, Eq, Structural)]
pub enum WindowError {
    /// The window was created off the main thread, where UIKit forbids it.
    NotOnMainThread,
}

impl WindowError {
    /// The message reported for this error.
    pub fn message(&self) -> (r: &'static str)
        ensures
            r@ == "IosWindow must be created on the main thread"@,
    {
        "IosWindow must be created on the main thread"
    }
}

/// Whether a window may be created: only on the main thread.
pub fn check_window_creation(on_main_thread: bool) -> (r: Result<(), WindowError>)
    ensures
        r is Ok <==> on_main_thread,
        r matches Err(e) ==> e == WindowError::NotOnMainThread,
{
    if on_main_thread {
        Ok(())
    } else {
        Err(WindowError::NotOnMainThread)
    }
}

/// A window call that iOS does not serve the way a desktop platform does.
#[derive(Debug, Clone, Copy, PartialEq, Eq, Structural)]
pub enum WindowRequest {
    Resize,
    SetTitle,
    SetBackgroundAppearance,
    Minimize,
    Zoom,
    ToggleFullscreen,
    UpdateImePosition,
}

/// The answer to each window request that iOS does not serve.
pub open spec fn spec_window_response(request: WindowRequest) -> Response {
    match request {
        WindowRequest::Resize => Response::LogError("IosWindow::resize is not supported on iOS"),
        WindowRequest::Minimize => Response::LogError("IosWindow::minimize is not supported on iOS"),
        WindowRequest::Zoom => Response::LogError("IosWindow::zoom is not supported on iOS"),
        _ => Response::Nothing,
    }
}

/// Whether `request` asks to change the window's size or state on screen,
/// which the system owns on a phone.
pub open spec fn is_window_geometry_change(request: WindowRequest) -> bool {
    ||| request == WindowRequest::Resize
    ||| request == WindowRequest::Minimize
    ||| request == WindowRequest::Zoom
}

/// Asking to resize, minimize or zoom a window reports an error; every other
/// unsupported window call is skipped silently, and none fails or stops the
/// program.
pub proof fn lemma_window_responses(request: WindowRequest)
    ensures
        spec_window_response(request) is LogError <==> is_window_geometry_change(request),
        spec_window_response(request) is Nothing <==> !is_window_geometry_change(request),
{
}

/// How a window answers `request`: it never stops the program.
pub fn respond_window(request: WindowRequest) -> (r: Response)
    ensures
        r == spec_window_response(request),
        !(r is Panic),
        !(r is Fail),
        r is LogError <==> is_window_geometry_change(request),
{
    match request {
        WindowRequest::Resize => Response::LogError("IosWindow::resize is not supported on iOS"),
        WindowRequest::Minimize => Response::LogError("IosWindow::minimize is not supported on iOS"),
        WindowRequest::Zoom => Response::LogError("IosWindow::zoom is not supported on iOS"),
        _ => Response::Nothing,
    }
}

/// How a window's background is drawn.
#[derive(Debug, Clone, Copy, PartialEq, Eq, Structural)]
pub enum BackgroundAppearance {
    Opaque,
    Transparent,
    Blurred,
}

/// The part of a window's state that is decided here: the text input handler
/// it holds, of type `H`.
pub struct WindowState<H> {
    input_handler: Slot<H>,
}

impl<H> View for WindowState<H> {
    type V = Option<H>;

    /// The input handler the window holds.
    closed spec fn view(&self) -> Option<H> {
        self.input_handler@
    }
}

impl<H> WindowState<H> {
    /// A window that holds no input handler.
    pub fn new() -> (s: Self)
        ensures
            s@ is None,
    {
        WindowState { input_handler: Slot::new() }
    }

    /// Holds `handler`, replacing the one held before.
    pub fn set_input_handler(&mut self, handler: H)
        ensures
            final(self)@ == spec_registered(old(self)@, handler),
    {
        self.input_handler.register(handler);
    }

    /// Hands back the held input handler, if any, and holds none after.
    pub fn take_input_handler(&mut self) -> (r: Option<H>)
        ensures
            (r, final(self)@) == spec_taken(old(self)@),
    {
        self.input_handler.take()
    }

    /// A window fills the screen, so it is always maximized.
    pub fn is_maximized(&self) -> (r: bool)
        ensures
            r,
    {
        true
    }

    /// A window fills the screen, so it is always full screen.
    pub fn is_fullscreen(&self) -> (r: bool)
        ensures
            r,
    {
        true
    }

    /// A touch screen has no hover.
    pub fn is_hovered(&self) -> (r: bool)
        ensures
            !r,
    {
        false
    }

    /// The window's appearance; light until the trait collection is read.
    pub fn appearance(&self) -> (r: Appearance)
        ensures
            r == Appearance::Light,
    {
        Appearance::Light
    }

    /// The window's background is opaque.
    pub fn background_appearance(&self) -> (r: BackgroundAppearance)
        ensures
            r == BackgroundAppearance::Opaque,
    {
        BackgroundAppearance::Opaque
    }

    /// Prompts are not shown yet, so no answer ever comes.
    pub fn prompt<R>(&self) -> (r: Option<R>)
        ensures
            r is None,
    {
        None
    }
}

} // verus!
