use vstd::prelude::*;

verus! {

/// A platform call that iOS does not serve the way a desktop platform does.
#[derive(Debug, Clone, Copy, PartialEq, Eq, Structural)]
pub enum PlatformRequest {
    Quit,
    Restart,
    Activate,
    Hide,
    HideOtherApps,
    UnhideOtherApps,
    RevealPath,
    OpenWithSystem,
    SetMenus,
    SetDockMenu,
    SetCursorStyle,
    HideCursorUntilMouseMoves,
    WriteToClipboard,
    RegisterUrlScheme,
    PromptForPaths,
    PromptForNewPath,
    AppPath,
    PathForAuxiliaryExecutable,
    WriteCredentials,
    DeleteCredentials,
}

/// How the platform answers a request it does not serve.
#[derive(Debug, Clone, Copy)]
pub enum Response {
    /// The call does nothing.
    Nothing,
    /// The call reports the message as an error and otherwise does nothing.
    LogError(&'static str),
    /// The call hands the message back to its caller as an error.
    Fail(&'static str),
    /// The call stops the program with the message.
    Panic(&'static str),
}

/// The answer to each request that iOS does not serve.
pub open spec fn spec_response(request: PlatformRequest) -> Response {
    match request {
        PlatformRequest::Quit => Response::LogError("IosPlatform::quit is not supported on iOS"),
        PlatformRequest::Restart => Response::Panic("restart is not supported on iOS"),
        PlatformRequest::Activate => Response::Nothing,
        PlatformRequest::Hide => Response::LogError("IosPlatform::hide is not supported on iOS"),
        PlatformRequest::HideOtherApps => Response::Panic("hide_other_apps is not supported on iOS"),
        PlatformRequest::UnhideOtherApps => Response::Panic(
            "unhide_other_apps is not supported on iOS",
        ),
        PlatformRequest::RevealPath => Response::LogError(
            "IosPlatform::reveal_path is not supported on iOS",
        ),
        PlatformRequest::OpenWithSystem => Response::LogError(
            "IosPlatform::open_with_system is not implemented on iOS",
        ),
        PlatformRequest::SetMenus => Response::Nothing,
        PlatformRequest::SetDockMenu => Response::Nothing,
        PlatformRequest::SetCursorStyle => Response::Nothing,
        PlatformRequest::HideCursorUntilMouseMoves => Response::Nothing,
        PlatformRequest::WriteToClipboard => Response::LogError(
            "IosPlatform::write_to_clipboard is not implemented on iOS yet",
        ),
        PlatformRequest::RegisterUrlScheme => Response::Fail(
            "register_url_scheme is not supported on iOS; declare URL schemes in Info.plist",
        ),
        PlatformRequest::PromptForPaths => Response::Fail("prompt_for_paths is not implemented on iOS"),
        PlatformRequest::PromptForNewPath => Response::Fail(
            "prompt_for_new_path is not implemented on iOS",
        ),
        PlatformRequest::AppPath => Response::Fail("app_path is not supported on iOS"),
        PlatformRequest::PathForAuxiliaryExecutable => Response::Fail(
            "path_for_auxiliary_executable is not supported on iOS",
        ),
        PlatformRequest::WriteCredentials => Response::Fail(
            "credential storage is not implemented on iOS yet",
        ),
        PlatformRequest::DeleteCredentials => Response::Fail(
            "credential storage is not implemented on iOS yet",
        ),
    }
}

/// Whether the platform call behind `request` hands a `Result` back to its
/// caller (a task, a prompt's channel or a path).
pub open spec fn returns_result(request: PlatformRequest) -> bool {
    ||| request == PlatformRequest::RegisterUrlScheme
    ||| request == PlatformRequest::PromptForPaths
    ||| request == PlatformRequest::PromptForNewPath
    ||| request == PlatformRequest::AppPath
    ||| request == PlatformRequest::PathForAuxiliaryExecutable
    ||| request == PlatformRequest::WriteCredentials
    ||| request == PlatformRequest::DeleteCredentials
}

/// Whether `request` asks for something that only a desktop has and a phone
/// cannot do at all.
pub open spec fn is_desktop_only(request: PlatformRequest) -> bool {
    ||| request == PlatformRequest::Restart
    ||| request == PlatformRequest::HideOtherApps
    ||| request == PlatformRequest::UnhideOtherApps
}

/// Whether `request` only adjusts desktop chrome (activation, menus, the
/// cursor), which has no counterpart on a phone and is skipped silently.
pub open spec fn is_silently_skipped(request: PlatformRequest) -> bool {
    ||| request == PlatformRequest::Activate
    ||| request == PlatformRequest::SetMenus
    ||| request == PlatformRequest::SetDockMenu
    ||| request == PlatformRequest::SetCursorStyle
    ||| request == PlatformRequest::HideCursorUntilMouseMoves
}

/// The message a response carries, if any.
pub open spec fn response_message(response: Response) -> Option<&'static str> {
    match response {
        Response::Nothing => None,
        Response::LogError(m) => Some(m),
        Response::Fail(m) => Some(m),
        Response::Panic(m) => Some(m),
    }
}

/// How the platform answers `request`.
pub fn respond(request: PlatformRequest) -> (r: Response)
    ensures
        r == spec_response(request),
        r is Fail <==> returns_result(request),
        r is Panic <==> is_desktop_only(request),
        r is Nothing <==> is_silently_skipped(request),
        r is LogError <==> !returns_result(request) && !is_desktop_only(request)
            && !is_silently_skipped(request),
{
    match request {
        PlatformRequest::Quit => Response::LogError("IosPlatform::quit is not supported on iOS"),
        PlatformRequest::Restart => Response::Panic("restart is not supported on iOS"),
        PlatformRequest::Activate => Response::Nothing,
        PlatformRequest::Hide => Response::LogError("IosPlatform::hide is not supported on iOS"),
        PlatformRequest::HideOtherApps => Response::Panic("hide_other_apps is not supported on iOS"),
        PlatformRequest::UnhideOtherApps => Response::Panic(
            "unhide_other_apps is not supported on iOS",
        ),
        PlatformRequest::RevealPath => Response::LogError(
            "IosPlatform::reveal_path is not supported on iOS",
        ),
        PlatformRequest::OpenWithSystem => Response::LogError(
            "IosPlatform::open_with_system is not implemented on iOS",
        ),
        PlatformRequest::SetMenus => Response::Nothing,
        PlatformRequest::SetDockMenu => Response::Nothing,
        PlatformRequest::SetCursorStyle => Response::Nothing,
        PlatformRequest::HideCursorUntilMouseMoves => Response::Nothing,
        PlatformRequest::WriteToClipboard => Response::LogError(
            "IosPlatform::write_to_clipboard is not implemented on iOS yet",
        ),
        PlatformRequest::RegisterUrlScheme => Response::Fail(
            "register_url_scheme is not supported on iOS; declare URL schemes in Info.plist",
        ),
        PlatformRequest::PromptForPaths => Response::Fail("prompt_for_paths is not implemented on iOS"),
        PlatformRequest::PromptForNewPath => Response::Fail(
            "prompt_for_new_path is not implemented on iOS",
        ),
        PlatformRequest::AppPath => Response::Fail("app_path is not supported on iOS"),
        PlatformRequest::PathForAuxiliaryExecutable => Response::Fail(
            "path_for_auxiliary_executable is not supported on iOS",
        ),
        PlatformRequest::WriteCredentials => Response::Fail(
            "credential storage is not implemented on iOS yet",
        ),
        PlatformRequest::DeleteCredentials => Response::Fail(
            "credential storage is not implemented on iOS yet",
        ),
    }
}

/// Only the calls that make no sense on a phone at all (restarting the app,
/// hiding or unhiding other apps) stop the program; every other unsupported
/// call, which code shared with the desktop may well make, never does.
pub proof fn lemma_only_desktop_only_calls_panic(request: PlatformRequest)
    ensures
        spec_response(request) is Panic <==> (request == PlatformRequest::Restart
            || request == PlatformRequest::HideOtherApps || request
            == PlatformRequest::UnhideOtherApps),
{
}

/// Every call that hands a `Result` back answers with an error for its caller,
/// and no other call does: no such call is told it succeeded, and no call
/// without a result to carry it swallows an error as one.
pub proof fn lemma_result_calls_fail(request: PlatformRequest)
    ensures
        spec_response(request) is Fail <==> returns_result(request),
{
}

/// The three tiers: desktop-only calls stop the program, desktop chrome is
/// skipped silently, calls with a result fail, and every other call reports an
/// error and goes on.
pub proof fn lemma_response_tiers(request: PlatformRequest)
    ensures
        spec_response(request) is Panic <==> is_desktop_only(request),
        spec_response(request) is Nothing <==> is_silently_skipped(request),
        spec_response(request) is LogError <==> !returns_result(request) && !is_desktop_only(
            request,
        ) && !is_silently_skipped(request),
{
}

/// Every answer other than doing nothing carries a message that is not empty.
pub proof fn lemma_messages_not_empty(request: PlatformRequest)
    ensures
        response_message(spec_response(request)) matches Some(m) ==> m@.len() > 0,
{
    reveal_strlit("IosPlatform::quit is not supported on iOS");
    reveal_strlit("restart is not supported on iOS");
    reveal_strlit("IosPlatform::hide is not supported on iOS");
    reveal_strlit("hide_other_apps is not supported on iOS");
    reveal_strlit("unhide_other_apps is not supported on iOS");
    reveal_strlit("IosPlatform::reveal_path is not supported on iOS");
    reveal_strlit("IosPlatform::open_with_system is not implemented on iOS");
    reveal_strlit("IosPlatform::write_to_clipboard is not implemented on iOS yet");
    reveal_strlit(
        "register_url_scheme is not supported on iOS; declare URL schemes in Info.plist",
    );
    reveal_strlit("prompt_for_paths is not implemented on iOS");
    reveal_strlit("prompt_for_new_path is not implemented on iOS");
    reveal_strlit("app_path is not supported on iOS");
    reveal_strlit("path_for_auxiliary_executable is not supported on iOS");
    reveal_strlit("credential storage is not implemented on iOS yet");
}

/// Writing and deleting credentials fail alike: credential storage as a whole
/// is missing, so both report the same error.
pub proof fn lemma_credential_calls_fail_alike()
    ensures
        spec_response(PlatformRequest::WriteCredentials) == spec_response(
            PlatformRequest::DeleteCredentials,
        ),
        spec_response(PlatformRequest::WriteCredentials) is Fail,
{
}

/// The appearance the platform reports for its windows.
#[derive(Debug, Clone, Copy, PartialEq, Eq, Structural)]
pub enum Appearance {
    Light,
    VibrantLight,
    Dark,
    VibrantDark,
}

/// The device's thermal state as the platform reports it.
#[derive(Debug, Clone, Copy, PartialEq, Eq, Structural)]
pub enum ThermalState {
    Nominal,
    Fair,
    Serious,
    Critical,
}

/// The active window after the window `handle` was opened, successfully or
/// not, when `active` was active before.
pub open spec fn spec_after_open<W>(active: Option<W>, handle: W, opened: bool) -> Option<W> {
    if opened {
        Some(handle)
    } else {
        active
    }
}

/// The platform's own state: the window that was opened last, if any.
///
/// `W` is the type of a window handle.
pub struct PlatformState<W> {
    active_window: Option<W>,
}

impl<W> View for PlatformState<W> {
    type V = Option<W>;

    /// The active window.
    closed spec fn view(&self) -> Option<W> {
        self.active_window
    }
}

impl<W: Copy> PlatformState<W> {
    /// A platform with no window open.
    pub fn new() -> (s: Self)
        ensures
            s@ is None,
    {
        PlatformState { active_window: None }
    }

    /// The window that was opened last, if any.
    pub fn active_window(&self) -> (r: Option<W>)
        ensures
            r == self@,
    {
        self.active_window
    }

    /// Records the outcome of opening the window `handle` and hands it back:
    /// a window that was created becomes the active window; a failure leaves
    /// the state as it was.
    pub fn record_open_window<T, E>(&mut self, handle: W, opened: Result<T, E>) -> (r: Result<
        T,
        E,
    >)
        ensures
            r == opened,
            final(self)@ == spec_after_open(old(self)@, handle, opened is Ok),
    {
        if opened.is_ok() {
            self.active_window = Some(handle);
        }
        opened
    }

    /// The appearance of the system; light until the trait collection is read.
    pub fn window_appearance(&self) -> (r: Appearance)
        ensures
            r == Appearance::Light,
    {
        Appearance::Light
    }

    /// The thermal state; nominal until the process info is read.
    pub fn thermal_state(&self) -> (r: ThermalState)
        ensures
            r == ThermalState::Nominal,
    {
        ThermalState::Nominal
    }

    /// The name of the compositor.
    pub fn compositor_name(&self) -> (r: &'static str)
        ensures
            r@ == "UIKit"@,
    {
        "UIKit"
    }

    /// A path prompt cannot select files and directories together.
    pub fn can_select_mixed_files_and_dirs(&self) -> (r: bool)
        ensures
            !r,
    {
        false
    }

    /// A touch screen shows no cursor.
    pub fn is_cursor_visible(&self) -> (r: bool)
        ensures
            !r,
    {
        false
    }

    /// Scroll bars hide themselves.
    pub fn should_auto_hide_scrollbars(&self) -> (r: bool)
        ensures
            r,
    {
        true
    }

    /// The clipboard reads as empty until the pasteboard is wired up.
    pub fn read_from_clipboard<C>(&self) -> (r: Option<C>)
        ensures
            r is None,
    {
        None
    }

    /// No credentials are stored, so none are found for any URL.
    pub fn read_credentials(&self, url: &str) -> (r: Option<(String, Vec<u8>)>)
        ensures
            r is None,
    {
        None
    }
}

/// The active window is the one opened last with success: a failed attempt
/// afterwards leaves it active.
pub proof fn lemma_failed_open_keeps_active_window<W>(active: Option<W>, opened: W, failed: W)
    ensures
        spec_after_open(spec_after_open(active, opened, true), failed, false) == Some(opened),
{
}

/// The active window after the windows of `opens` were opened in turn, each
/// with its handle and whether it was created, starting from `active`.
pub open spec fn spec_after_opens<W>(active: Option<W>, opens: Seq<(W, bool)>) -> Option<W>
    decreases opens.len(),
{
    if opens.len() == 0 {
        active
    } else {
        spec_after_open(
            spec_after_opens(active, opens.drop_last()),
            opens.last().0,
            opens.last().1,
        )
    }
}

/// Over any sequence of window openings on a new platform, the active window
/// is the handle of the latest opening that succeeded, and there is none while
/// no opening has succeeded; failed openings change nothing.
pub proof fn lemma_active_window_is_latest_success<W>(opens: Seq<(W, bool)>)
    ensures
        (forall|i: int| 0 <= i < opens.len() ==> !(#[trigger] opens[i]).1) ==> spec_after_opens(
            None::<W>,
            opens,
        ) is None,
        forall|i: int|
            0 <= i < opens.len() && (#[trigger] opens[i]).1 && (forall|j: int|
                i < j < opens.len() ==> !(#[trigger] opens[j]).1) ==> spec_after_opens(
                None::<W>,
                opens,
            ) == Some(opens[i].0),
    decreases opens.len(),
{
    if opens.len() > 0 {
        let prefix = opens.drop_last();
        lemma_active_window_is_latest_success(prefix);
        assert forall|i: int| 0 <= i < prefix.len() implies #[trigger] prefix[i] == opens[i] by {}
        let last = opens.len() - 1;
        if !opens[last].1 {
            assert forall|i: int|
                0 <= i < opens.len() && (#[trigger] opens[i]).1 && (forall|j: int|
                    i < j < opens.len() ==> !(#[trigger] opens[j]).1) implies spec_after_opens(
                None::<W>,
                opens,
            ) == Some(opens[i].0) by {
                assert(i < last);
                assert(prefix[i] == opens[i]);
                assert forall|j: int| i < j < prefix.len() implies !(#[trigger] prefix[j]).1 by {
                    assert(prefix[j] == opens[j]);
                }
            }
            assert((forall|i: int| 0 <= i < opens.len() ==> !(#[trigger] opens[i]).1) ==> (
            forall|i: int| 0 <= i < prefix.len() ==> !(#[trigger] prefix[i]).1)) by {
                if forall|i: int| 0 <= i < opens.len() ==> !(#[trigger] opens[i]).1 {
                    assert forall|i: int| 0 <= i < prefix.len() implies !(#[trigger] prefix[i]).1 by {
                        assert(prefix[i] == opens[i]);
                    }
                }
            }
        } else {
            assert forall|i: int|
                0 <= i < opens.len() && (#[trigger] opens[i]).1 && (forall|j: int|
                    i < j < opens.len() ==> !(#[trigger] opens[j]).1) implies i == last by {
                if i < last {
                    assert(!opens[last].1);
                }
            }
        }
    }
}

/// The displays the platform lists, from the attempt to read the main screen:
/// that screen alone, or none when it could not be read. An app never sees
/// more than one display.
pub fn display_list<D, E>(primary: Result<D, E>) -> (r: Vec<D>)
    ensures
        r@.len() <= 1,
        r@ == (match primary {
            Ok(d) => seq![d],
            Err(_) => Seq::<D>::empty(),
        }),
{
    let mut displays: Vec<D> = Vec::new();
    match primary {
        Ok(display) => {
            displays.push(display);
        },
        Err(_) => {},
    }
    displays
}

/// The primary display, from the attempt to read the main screen.
pub fn primary_display<D, E>(primary: Result<D, E>) -> (r: Option<D>)
    ensures
        r == (match primary {
            Ok(d) => Some(d),
            Err(_) => None::<D>,
        }),
{
    match primary {
        Ok(display) => Some(display),
        Err(_) => None,
    }
}

/// Why running the application failed.
#[derive(Debug, Clone, Copy, PartialEq, Eq, Structural)]
pub enum RunError {
    /// `run` was called off the main thread.
    NotOnMainThread,
}

impl RunError {
    /// The message the program stops with.
    pub fn message(&self) -> (r: &'static str)
        ensures
            r@ == "IosPlatform::run must be called on the main thread"@,
    {
        "IosPlatform::run must be called on the main thread"
    }
}

/// Whether the application may be run: only from the main thread, which
/// UIKit's run loop takes over.
pub fn check_run(on_main_thread: bool) -> (r: Result<(), RunError>)
    ensures
        r is Ok <==> on_main_thread,
        r matches Err(e) ==> e == RunError::NotOnMainThread,
{
    if on_main_thread {
        Ok(())
    } else {
        Err(RunError::NotOnMainThread)
    }
}

/// What happened at the last step of opening a URL.
#[derive(Debug, Clone, Copy, PartialEq, Eq, Structural)]
pub enum OpenUrlEvent {
    /// Whether the call runs on the main thread.
    MainThreadChecked(bool),
    /// Whether the text parsed as a URL.
    UrlParsed(bool),
    /// Whether the application opened the URL.
    UrlOpened(bool),
}

/// Why a URL was not opened.
#[derive(Debug, Clone, Copy, PartialEq, Eq, Structural)]
pub enum OpenUrlError {
    NotOnMainThread,
    ParseFailed,
    OpenFailed,
}

impl OpenUrlError {
    /// The message reported for this error.
    pub fn message(&self) -> (r: &'static str)
        ensures
            r@ == (match self {
                OpenUrlError::NotOnMainThread => "open_url must be called on the main thread"@,
                OpenUrlError::ParseFailed => "failed to parse URL"@,
                OpenUrlError::OpenFailed => "failed to open URL"@,
            }),
    {
        match self {
            OpenUrlError::NotOnMainThread => "open_url must be called on the main thread",
            OpenUrlError::ParseFailed => "failed to parse URL",
            OpenUrlError::OpenFailed => "failed to open URL",
        }
    }
}

/// What opening a URL does next.
#[derive(Debug, Clone, Copy, PartialEq, Eq, Structural)]
pub enum OpenUrlAction {
    /// Parse the text as a URL.
    ParseUrl,
    /// Ask the application to open the parsed URL.
    OpenUrl,
    /// Report the error and stop.
    Report(OpenUrlError),
    /// Stop: the URL was opened.
    Done,
}

/// The next step of opening a URL after `event`: check the thread, then parse,
/// then open, reporting the first step that fails and stopping there.
pub fn open_url_step(event: OpenUrlEvent) -> (r: OpenUrlAction)
    ensures
        r == (match event {
            OpenUrlEvent::MainThreadChecked(true) => OpenUrlAction::ParseUrl,
            OpenUrlEvent::MainThreadChecked(false) => OpenUrlAction::Report(
                OpenUrlError::NotOnMainThread,
            ),
            OpenUrlEvent::UrlParsed(true) => OpenUrlAction::OpenUrl,
            OpenUrlEvent::UrlParsed(false) => OpenUrlAction::Report(OpenUrlError::ParseFailed),
            OpenUrlEvent::UrlOpened(true) => OpenUrlAction::Done,
            OpenUrlEvent::UrlOpened(false) => OpenUrlAction::Report(OpenUrlError::OpenFailed),
        }),
{
    match event {
        OpenUrlEvent::MainThreadChecked(on_main_thread) => {
            if on_main_thread {
                OpenUrlAction::ParseUrl
            } else {
                OpenUrlAction::Report(OpenUrlError::NotOnMainThread)
            }
        },
        OpenUrlEvent::UrlParsed(parsed) => {
            if parsed {
                OpenUrlAction::OpenUrl
            } else {
                OpenUrlAction::Report(OpenUrlError::ParseFailed)
            }
        },
        OpenUrlEvent::UrlOpened(opened) => {
            if opened {
                OpenUrlAction::Done
            } else {
                OpenUrlAction::Report(OpenUrlError::OpenFailed)
            }
        },
    }
}

} // verus!
