//! The requests that a backend asks its caller to issue, and the replies
//! that come back.
//!
//! A request names one call of a native interface together with its
//! arguments. The backends decide which requests are due; whoever drives a
//! backend performs them, in order, and hands the replies back.

use crate::geometry::Rect;
use crate::handle::NativeHandle;
use crate::state::WindowState;
use vstd::prelude::*;

verus! {

/// The native protocol that a backend speaks.
#[derive(Clone, Copy, Debug, PartialEq, Eq, Structural)]
pub enum Backend {
    /// A message queue and direct window calls.
    Windows,
    /// The host engine's own window and application commands.
    Linux,
    /// Messages sent to the application object and to window objects.
    MacOs,
}

/// A process-wide command of the host engine.
#[derive(Clone, Copy, Debug, PartialEq, Eq, Structural)]
pub enum AppCommand {
    /// Set the application up.
    Init,
    /// Run the event loop until it is stopped.
    Loop,
    /// Stop the event loop.
    Stop,
}

/// A message to the application object.
#[derive(Clone, Copy, Debug, PartialEq, Eq, Structural)]
pub enum AppSelector {
    /// `setActivationPolicy:` with the regular policy, which gives the
    /// application its place in the dock and its menu.
    SetActivationPolicyRegular,
    /// `activateIgnoringOtherApps:` with `YES`.
    ActivateIgnoringOtherApps,
    /// `finishLaunching`.
    FinishLaunching,
    /// `run`.
    Run,
    /// `terminate:` with the application itself as the sender.
    Terminate,
}

/// A message to the window that owns a view.
#[derive(Clone, Copy, Debug, PartialEq, Eq, Structural)]
pub enum WindowSelector {
    /// `orderOut:`, which takes the window off the screen at once.
    OrderOut,
    /// `performMiniaturize:` with the view as the sender.
    PerformMiniaturize,
    /// `makeKeyAndOrderFront:`.
    MakeKeyAndOrderFront,
    /// `performZoom:`.
    PerformZoom,
    /// `close`.
    Close,
}

/// What an event source hands out.
#[derive(Clone, Copy, Debug, PartialEq, Eq, Structural)]
pub enum Event {
    /// An ordinary event, to be dispatched. The number tells events apart.
    Input(u32),
    /// The signal that ends the event loop.
    Quit,
}

/// One call of a native interface.
#[allow(inconsistent_fields)]
#[derive(Debug, PartialEq, Eq)]
pub enum Request {
    /// The engine's application command entry point.
    EngineExec { command: AppCommand },
    /// The engine's window creation entry point. Without a frame the native
    /// side chooses where the window goes and how large it is. The reply
    /// carries the handle of the new window, or the null handle.
    EngineCreateWindow { flags: u32, frame: Option<Rect>, parent: NativeHandle },
    /// The engine's window command entry point, with the command that sets
    /// the state of a window.
    EngineSetState { window: NativeHandle, state: WindowState },
    /// `OleInitialize`.
    OleInitialize,
    /// `ShowWindow` with a show command.
    ShowWindow { window: NativeHandle, show: i32 },
    /// `PostMessageW`.
    PostMessage { window: NativeHandle, message: u32, wparam: usize, lparam: isize },
    /// `SetWindowTextW` with a terminated wide text.
    SetWindowText { window: NativeHandle, text: Vec<u16> },
    /// `GetWindowTextLengthW`. The reply carries the length.
    GetWindowTextLength { window: NativeHandle },
    /// `GetWindowTextW` into a buffer of `capacity` units. The reply carries
    /// the buffer.
    GetWindowText { window: NativeHandle, capacity: i32 },
    /// `GetMessageW` for any window of the thread. The reply carries its
    /// result.
    GetMessage,
    /// `TranslateMessage` on the message that was retrieved last.
    TranslateMessage,
    /// `DispatchMessageW` on the message that was retrieved last.
    DispatchMessage,
    /// `PostQuitMessage`.
    PostQuitMessage { code: i32 },
    /// A message to the shared application object.
    SendApp { selector: AppSelector },
    /// A message to the window that owns `view`.
    SendWindow { view: NativeHandle, selector: WindowSelector },
    /// `setTitle:` to the window that owns `view`.
    SendTitle { view: NativeHandle, title: String },
}

/// A request as a mathematical value: texts are sequences.
#[allow(inconsistent_fields)]
pub ghost enum RequestView {
    EngineExec { command: AppCommand },
    EngineCreateWindow { flags: u32, frame: Option<Rect>, parent: NativeHandle },
    EngineSetState { window: NativeHandle, state: WindowState },
    OleInitialize,
    ShowWindow { window: NativeHandle, show: i32 },
    PostMessage { window: NativeHandle, message: u32, wparam: usize, lparam: isize },
    SetWindowText { window: NativeHandle, text: Seq<u16> },
    GetWindowTextLength { window: NativeHandle },
    GetWindowText { window: NativeHandle, capacity: i32 },
    GetMessage,
    TranslateMessage,
    DispatchMessage,
    PostQuitMessage { code: i32 },
    SendApp { selector: AppSelector },
    SendWindow { view: NativeHandle, selector: WindowSelector },
    SendTitle { view: NativeHandle, title: Seq<char> },
}

impl View for Request {
    type V = RequestView;

    open spec fn view(&self) -> RequestView {
        match *self {
            Request::EngineExec { command } => RequestView::EngineExec { command },
            Request::EngineCreateWindow { flags, frame, parent } => RequestView::EngineCreateWindow {
                flags,
                frame,
                parent,
            },
            Request::EngineSetState { window, state } => RequestView::EngineSetState {
                window,
                state,
            },
            Request::OleInitialize => RequestView::OleInitialize,
            Request::ShowWindow { window, show } => RequestView::ShowWindow { window, show },
            Request::PostMessage { window, message, wparam, lparam } => RequestView::PostMessage {
                window,
                message,
                wparam,
                lparam,
            },
            Request::SetWindowText { window, text } => RequestView::SetWindowText {
                window,
                text: text@,
            },
            Request::GetWindowTextLength { window } => RequestView::GetWindowTextLength { window },
            Request::GetWindowText { window, capacity } => RequestView::GetWindowText {
                window,
                capacity,
            },
            Request::GetMessage => RequestView::GetMessage,
            Request::TranslateMessage => RequestView::TranslateMessage,
            Request::DispatchMessage => RequestView::DispatchMessage,
            Request::PostQuitMessage { code } => RequestView::PostQuitMessage { code },
            Request::SendApp { selector } => RequestView::SendApp { selector },
            Request::SendWindow { view, selector } => RequestView::SendWindow { view, selector },
            Request::SendTitle { view, title } => RequestView::SendTitle { view, title: title@ },
        }
    }
}

impl DeepView for Request {
    type V = RequestView;

    open spec fn deep_view(&self) -> RequestView {
        self@
    }
}

/// What comes back from a request.
#[derive(Debug, PartialEq, Eq)]
pub enum Reply {
    /// The request was issued and has nothing to report.
    Done,
    /// The handle that a creation gave; null where it failed.
    Handle(NativeHandle),
    /// The length of a window's text, in code units.
    Length(i32),
    /// The buffer that the window's text was copied into.
    Text(Vec<u16>),
    /// The result of retrieving a message: zero for the quit signal.
    Message(i32),
    /// The event source is empty: the request has not returned, and the
    /// calling thread stays suspended in it.
    Blocked,
}

/// A reply as a mathematical value.
pub ghost enum ReplyView {
    Done,
    Handle(NativeHandle),
    Length(i32),
    Text(Seq<u16>),
    Message(i32),
    Blocked,
}

impl View for Reply {
    type V = ReplyView;

    open spec fn view(&self) -> ReplyView {
        match *self {
            Reply::Done => ReplyView::Done,
            Reply::Handle(h) => ReplyView::Handle(h),
            Reply::Length(n) => ReplyView::Length(n),
            Reply::Text(units) => ReplyView::Text(units@),
            Reply::Message(result) => ReplyView::Message(result),
            Reply::Blocked => ReplyView::Blocked,
        }
    }
}

} // verus!
