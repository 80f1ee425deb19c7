//! The backend for Windows: a message queue and direct window calls.

use crate::error::WindowError;
use crate::flags::CreationFlags;
use crate::geometry::Rect;
use crate::handle::NativeHandle;
use crate::lifecycle::AppLifecycle;
use crate::request::{Backend, Request, RequestView};
use crate::wide::{from_wide, to_wide, decode, terminated, until_nul};
use crate::window::{BaseWindow, TitleStep};
use vstd::prelude::*;

verus! {

/// Show command: take the window off the screen.
pub const SW_HIDE: i32 = 0;

/// Show command: show the window at its normal size and activate it.
pub const SW_SHOWNORMAL: i32 = 1;

/// Show command: maximize the window.
pub const SW_MAXIMIZE: i32 = 3;

/// Show command: minimize the window.
pub const SW_MINIMIZE: i32 = 6;

/// The message that asks a window to close.
pub const WM_CLOSE: u32 = 0x0010;

/// The request that sets the application up: OLE is initialized.
pub open spec fn init_request() -> RequestView {
    RequestView::OleInitialize
}

pub open spec fn collapse_plan(window: NativeHandle, hide: bool) -> Seq<RequestView> {
    seq![
        RequestView::ShowWindow {
            window,
            show: if hide {
                SW_HIDE
            } else {
                SW_MINIMIZE
            },
        },
    ]
}

pub open spec fn expand_plan(window: NativeHandle, maximize: bool) -> Seq<RequestView> {
    seq![
        RequestView::ShowWindow {
            window,
            show: if maximize {
                SW_MAXIMIZE
            } else {
                SW_SHOWNORMAL
            },
        },
    ]
}

pub open spec fn dismiss_plan(window: NativeHandle) -> Seq<RequestView> {
    seq![RequestView::PostMessage { window, message: WM_CLOSE, wparam: 0, lparam: 0 }]
}

pub open spec fn set_title_plan(window: NativeHandle, title: Seq<char>) -> Seq<RequestView> {
    seq![RequestView::SetWindowText { window, text: terminated(title) }]
}

/// The loop starts by retrieving a message.
pub open spec fn run_plan() -> Seq<RequestView> {
    seq![RequestView::GetMessage]
}

pub open spec fn quit_plan() -> Seq<RequestView> {
    seq![RequestView::PostQuitMessage { code: 0 }]
}

/// How the loop goes on after a message was retrieved with the given
/// result. Zero is the quit signal and ends the loop. Anything else is
/// translated and dispatched, and the next message is retrieved.
pub open spec fn pump_plan(result: i32) -> Seq<RequestView> {
    if result != 0 {
        seq![RequestView::TranslateMessage, RequestView::DispatchMessage, RequestView::GetMessage]
    } else {
        Seq::empty()
    }
}

/// The size of the buffer for a text of `length` units: one more than the
/// length, for the terminator, within what the interface can express.
pub open spec fn spec_title_capacity(length: i32) -> i32 {
    if length < 0 {
        1
    } else if length == i32::MAX {
        i32::MAX
    } else {
        (length + 1) as i32
    }
}

/// A window of the Windows backend.
#[derive(Debug)]
pub struct OsWindow {
    hwnd: NativeHandle,
    flags: CreationFlags,
}

impl OsWindow {
    /// A window that does not exist yet: its handle is null.
    pub fn new() -> (window: OsWindow)
        ensures
            window.handle().is_null(),
            window.flags().bits == 0,
    {
        OsWindow { hwnd: NativeHandle::null(), flags: CreationFlags::empty() }
    }

    /// A window around a handle that exists already. Nothing is created.
    pub fn from(hwnd: NativeHandle) -> (window: OsWindow)
        ensures
            window.handle() == hwnd,
            window.flags().bits == 0,
    {
        OsWindow { hwnd, flags: CreationFlags::empty() }
    }

    /// The request that sets the application up.
    pub fn init_app() -> (request: Request)
        ensures
            request@ == init_request(),
    {
        Request::OleInitialize
    }

    /// How the loop of [`BaseWindow::run_app`] goes on after the reply to a
    /// retrieval: with nothing after the quit signal, else with the
    /// dispatch of the message and the next retrieval.
    pub fn pump(result: i32) -> (plan: Vec<Request>)
        ensures
            plan.deep_view() == pump_plan(result),
    {
        let mut plan: Vec<Request> = Vec::new();
        if result != 0 {
            plan.push(Request::TranslateMessage);
            plan.push(Request::DispatchMessage);
            plan.push(Request::GetMessage);
        }
        assert(plan.deep_view() =~= pump_plan(result));
        plan
    }

    /// The size of the buffer that takes a text of `length` units.
    pub fn title_capacity(length: i32) -> (capacity: i32)
        ensures
            capacity == spec_title_capacity(length),
            capacity >= 1,
    {
        if length < 0 {
            1
        } else if length == i32::MAX {
            i32::MAX
        } else {
            length + 1
        }
    }

    /// The second step of reading a title: with the length that the native
    /// side reported of the text of `window`, the request for the text
    /// itself.
    pub fn title_buffer(window: NativeHandle, length: i32) -> (request: Request)
        ensures
            request@ == (RequestView::GetWindowText {
                window,
                capacity: spec_title_capacity(length),
            }),
    {
        Request::GetWindowText { window, capacity: Self::title_capacity(length) }
    }

    /// The last step of reading a title: the text that the buffer holds in
    /// front of its terminator.
    pub fn title_text(buffer: &[u16]) -> (title: String)
        ensures
            title@ == decode(until_nul(buffer@)),
    {
        from_wide(buffer)
    }
}

impl BaseWindow for OsWindow {
    open spec fn backend() -> Backend {
        Backend::Windows
    }

    closed spec fn handle(&self) -> NativeHandle {
        self.hwnd
    }

    closed spec fn flags(&self) -> CreationFlags {
        self.flags
    }

    fn create(
        &mut self,
        rc: Rect,
        flags: CreationFlags,
        parent: NativeHandle,
        app: &mut AppLifecycle,
    ) -> (plan: Vec<Request>) {
        let mut plan: Vec<Request> = Vec::new();
        if flags.is_main() {
            if app.claim() {
                plan.push(OsWindow::init_app());
            }
        }
        self.flags = flags;
        if !flags.is_windowless() {
            plan.push(
                Request::EngineCreateWindow { flags: flags.bits(), frame: rc.frame(), parent },
            );
        }
        assert(plan.deep_view() =~= crate::window::creation_plan(
            Backend::Windows,
            rc,
            flags,
            parent,
            old(app).initialized(),
        ));
        plan
    }

    fn attach(&mut self, created: NativeHandle) -> (result: Result<NativeHandle, WindowError>) {
        self.hwnd = created;
        if created.is_null() {
            Err(WindowError::AllocationFailed)
        } else {
            Ok(created)
        }
    }

    fn get_hwnd(&self) -> (hwnd: NativeHandle) {
        self.hwnd
    }

    fn collapse(&self, hide: bool) -> (plan: Vec<Request>) {
        let show: i32 = if hide {
            SW_HIDE
        } else {
            SW_MINIMIZE
        };
        let mut plan: Vec<Request> = Vec::new();
        plan.push(Request::ShowWindow { window: self.hwnd, show });
        assert(plan.deep_view() =~= collapse_plan(self.hwnd, hide));
        plan
    }

    fn expand(&self, maximize: bool) -> (plan: Vec<Request>) {
        let show: i32 = if maximize {
            SW_MAXIMIZE
        } else {
            SW_SHOWNORMAL
        };
        let mut plan: Vec<Request> = Vec::new();
        plan.push(Request::ShowWindow { window: self.hwnd, show });
        assert(plan.deep_view() =~= expand_plan(self.hwnd, maximize));
        plan
    }

    fn dismiss(&self) -> (plan: Vec<Request>) {
        let mut plan: Vec<Request> = Vec::new();
        plan.push(
            Request::PostMessage { window: self.hwnd, message: WM_CLOSE, wparam: 0, lparam: 0 },
        );
        assert(plan.deep_view() =~= dismiss_plan(self.hwnd));
        plan
    }

    fn set_title(&mut self, title: &str) -> (result: Result<Vec<Request>, WindowError>) {
        let text = to_wide(title);
        let mut plan: Vec<Request> = Vec::new();
        plan.push(Request::SetWindowText { window: self.hwnd, text });
        assert(plan.deep_view() =~= set_title_plan(self.hwnd, title@));
        Ok(plan)
    }

    /// A title is read in three steps: the length is asked here, the text
    /// with [`OsWindow::title_buffer`], and [`OsWindow::title_text`] reads
    /// it from the buffer.
    fn get_title(&self) -> (result: Result<TitleStep, WindowError>) {
        Ok(TitleStep::Ask(Request::GetWindowTextLength { window: self.hwnd }))
    }

    fn run_app(&self) -> (plan: Vec<Request>) {
        let mut plan: Vec<Request> = Vec::new();
        plan.push(Request::GetMessage);
        assert(plan.deep_view() =~= run_plan());
        plan
    }

    fn quit_app(&self) -> (plan: Vec<Request>) {
        let mut plan: Vec<Request> = Vec::new();
        plan.push(Request::PostQuitMessage { code: 0 });
        assert(plan.deep_view() =~= quit_plan());
        plan
    }
}

} // verus!
