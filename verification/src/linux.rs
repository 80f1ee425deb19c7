//! The backend for Linux: the host engine manages the native toolkit, and
//! every operation goes through the engine's commands.

use crate::error::WindowError;
use crate::flags::CreationFlags;
use crate::geometry::Rect;
use crate::handle::NativeHandle;
use crate::lifecycle::AppLifecycle;
use crate::request::{AppCommand, Backend, Request, RequestView};
use crate::state::WindowState;
use crate::window::{BaseWindow, TitleStep};
use vstd::prelude::*;

verus! {

/// The request that sets the application up: the engine's own setup.
pub open spec fn init_request() -> RequestView {
    RequestView::EngineExec { command: AppCommand::Init }
}

/// The one request that drives `window` toward `state`.
pub open spec fn state_plan(window: NativeHandle, state: WindowState) -> Seq<RequestView> {
    seq![RequestView::EngineSetState { window, state }]
}

pub open spec fn collapse_plan(window: NativeHandle, hide: bool) -> Seq<RequestView> {
    state_plan(
        window,
        if hide {
            WindowState::Hidden
        } else {
            WindowState::Minimized
        },
    )
}

pub open spec fn expand_plan(window: NativeHandle, maximize: bool) -> Seq<RequestView> {
    state_plan(
        window,
        if maximize {
            WindowState::Maximized
        } else {
            WindowState::Shown
        },
    )
}

pub open spec fn dismiss_plan(window: NativeHandle) -> Seq<RequestView> {
    state_plan(window, WindowState::Closed)
}

/// The engine runs the whole loop.
pub open spec fn run_plan() -> Seq<RequestView> {
    seq![RequestView::EngineExec { command: AppCommand::Loop }]
}

pub open spec fn quit_plan() -> Seq<RequestView> {
    seq![RequestView::EngineExec { command: AppCommand::Stop }]
}

/// A window of the Linux backend.
#[derive(Debug)]
pub struct OsWindow {
    hwnd: NativeHandle,
    flags: CreationFlags,
}

impl OsWindow {
    /// A window that does not exist yet: its handle is null.
    pub fn new() -> (window: OsWindow)
        ensures
            window.handle().is_null(),
            window.flags().bits == 0,
    {
        OsWindow { hwnd: NativeHandle::null(), flags: CreationFlags::empty() }
    }

    /// A window around a handle that exists already. Nothing is created.
    pub fn from(hwnd: NativeHandle) -> (window: OsWindow)
        ensures
            window.handle() == hwnd,
            window.flags().bits == 0,
    {
        OsWindow { hwnd, flags: CreationFlags::empty() }
    }

    /// The request that sets the application up.
    pub fn init_app() -> (request: Request)
        ensures
            request@ == init_request(),
    {
        Request::EngineExec { command: AppCommand::Init }
    }

    /// The window that the engine's commands address.
    pub fn window(&self) -> (hwnd: NativeHandle)
        ensures
            hwnd == self.handle(),
    {
        self.get_hwnd()
    }

    /// The plan that drives the window toward `state`.
    fn set_state(&self, state: WindowState) -> (plan: Vec<Request>)
        ensures
            plan.deep_view() == state_plan(self.handle(), state),
    {
        let mut plan: Vec<Request> = Vec::new();
        plan.push(Request::EngineSetState { window: self.window(), state });
        assert(plan.deep_view() =~= state_plan(self.handle(), state));
        plan
    }
}

impl BaseWindow for OsWindow {
    open spec fn backend() -> Backend {
        Backend::Linux
    }

    closed spec fn handle(&self) -> NativeHandle {
        self.hwnd
    }

    closed spec fn flags(&self) -> CreationFlags {
        self.flags
    }

    fn create(
        &mut self,
        rc: Rect,
        flags: CreationFlags,
        parent: NativeHandle,
        app: &mut AppLifecycle,
    ) -> (plan: Vec<Request>) {
        let mut plan: Vec<Request> = Vec::new();
        if flags.is_main() {
            if app.claim() {
                plan.push(OsWindow::init_app());
            }
        }
        self.flags = flags;
        if !flags.is_windowless() {
            plan.push(
                Request::EngineCreateWindow { flags: flags.bits(), frame: rc.frame(), parent },
            );
        }
        assert(plan.deep_view() =~= crate::window::creation_plan(
            Backend::Linux,
            rc,
            flags,
            parent,
            old(app).initialized(),
        ));
        plan
    }

    fn attach(&mut self, created: NativeHandle) -> (result: Result<NativeHandle, WindowError>) {
        self.hwnd = created;
        if created.is_null() {
            Err(WindowError::AllocationFailed)
        } else {
            Ok(created)
        }
    }

    fn get_hwnd(&self) -> (hwnd: NativeHandle) {
        self.hwnd
    }

    fn collapse(&self, hide: bool) -> (plan: Vec<Request>) {
        if hide {
            self.set_state(WindowState::Hidden)
        } else {
            self.set_state(WindowState::Minimized)
        }
    }

    fn expand(&self, maximize: bool) -> (plan: Vec<Request>) {
        if maximize {
            self.set_state(WindowState::Maximized)
        } else {
            self.set_state(WindowState::Shown)
        }
    }

    fn dismiss(&self) -> (plan: Vec<Request>) {
        self.set_state(WindowState::Closed)
    }

    /// The engine offers no way to set a title: the answer is always the
    /// error that says so.
    fn set_title(&mut self, title: &str) -> (result: Result<Vec<Request>, WindowError>)
        ensures
            result matches Err(e) && e == WindowError::Unsupported,
    {
        Err(WindowError::Unsupported)
    }

    /// The engine offers no way to read a title: the answer is always the
    /// error that says so.
    fn get_title(&self) -> (result: Result<TitleStep, WindowError>)
        ensures
            result matches Err(e) && e == WindowError::Unsupported,
    {
        Err(WindowError::Unsupported)
    }

    fn run_app(&self) -> (plan: Vec<Request>) {
        let mut plan: Vec<Request> = Vec::new();
        plan.push(Request::EngineExec { command: AppCommand::Loop });
        assert(plan.deep_view() =~= run_plan());
        plan
    }

    fn quit_app(&self) -> (plan: Vec<Request>) {
        let mut plan: Vec<Request> = Vec::new();
        plan.push(Request::EngineExec { command: AppCommand::Stop });
        assert(plan.deep_view() =~= quit_plan());
        plan
    }
}

} // verus!
