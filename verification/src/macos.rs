//! The backend for macOS: messages to the application object and to the
//! window that owns the engine's view.

use crate::error::WindowError;
use crate::flags::CreationFlags;
use crate::geometry::Rect;
use crate::handle::NativeHandle;
use crate::lifecycle::AppLifecycle;
use crate::request::{AppSelector, Backend, Request, RequestView, WindowSelector};
use crate::window::{BaseWindow, TitleStep};
use vstd::prelude::*;

verus! {

/// The request that sets the application up. A process that was not
/// started from a bundle has neither dock icon nor menu until its
/// activation policy is the regular one.
pub open spec fn init_request() -> RequestView {
    RequestView::SendApp { selector: AppSelector::SetActivationPolicyRegular }
}

pub open spec fn collapse_plan(view: NativeHandle, hide: bool) -> Seq<RequestView> {
    seq![
        RequestView::SendWindow {
            view,
            selector: if hide {
                WindowSelector::OrderOut
            } else {
                WindowSelector::PerformMiniaturize
            },
        },
    ]
}

/// The application is activated first where the window has a title bar.
/// Then the window comes to the front, and is zoomed where it is to be
/// maximized.
pub open spec fn expand_plan(view: NativeHandle, flags: CreationFlags, maximize: bool) -> Seq<
    RequestView,
> {
    let activation = if flags.has_titlebar() {
        seq![RequestView::SendApp { selector: AppSelector::ActivateIgnoringOtherApps }]
    } else {
        Seq::empty()
    };
    let front = seq![
        RequestView::SendWindow { view, selector: WindowSelector::MakeKeyAndOrderFront },
    ];
    let zoom = if maximize {
        seq![RequestView::SendWindow { view, selector: WindowSelector::PerformZoom }]
    } else {
        Seq::empty()
    };
    activation + front + zoom
}

pub open spec fn dismiss_plan(view: NativeHandle) -> Seq<RequestView> {
    seq![RequestView::SendWindow { view, selector: WindowSelector::Close }]
}

pub open spec fn set_title_plan(view: NativeHandle, title: Seq<char>) -> Seq<RequestView> {
    seq![RequestView::SendTitle { view, title }]
}

/// The launch is finished, then the application runs its own loop.
pub open spec fn run_plan() -> Seq<RequestView> {
    seq![
        RequestView::SendApp { selector: AppSelector::FinishLaunching },
        RequestView::SendApp { selector: AppSelector::Run },
    ]
}

pub open spec fn quit_plan() -> Seq<RequestView> {
    seq![RequestView::SendApp { selector: AppSelector::Terminate }]
}

/// A window of the macOS backend. Its handle addresses the engine's view;
/// the window is the one that owns that view.
#[derive(Debug)]
pub struct OsWindow {
    hwnd: NativeHandle,
    flags: CreationFlags,
}

impl OsWindow {
    /// A window that does not exist yet: its handle is null.
    pub fn new() -> (window: OsWindow)
        ensures
            window.handle().is_null(),
            window.flags().bits == 0,
    {
        OsWindow { hwnd: NativeHandle::null(), flags: CreationFlags::empty() }
    }

    /// A window around a handle that exists already. Nothing is created.
    pub fn from(hwnd: NativeHandle) -> (window: OsWindow)
        ensures
            window.handle() == hwnd,
            window.flags().bits == 0,
    {
        OsWindow { hwnd, flags: CreationFlags::empty() }
    }

    /// The message to the application object with the given selector.
    pub fn get_app(selector: AppSelector) -> (request: Request)
        ensures
            request@ == (RequestView::SendApp { selector }),
    {
        Request::SendApp { selector }
    }

    /// The request that sets the application up.
    pub fn init_app() -> (request: Request)
        ensures
            request@ == init_request(),
    {
        OsWindow::get_app(AppSelector::SetActivationPolicyRegular)
    }

    /// The view that the handle addresses.
    pub fn view(&self) -> (view: NativeHandle)
        ensures
            view == self.handle(),
    {
        self.get_hwnd()
    }

    /// The message to the window that owns the view, with the given
    /// selector.
    pub fn window(&self, selector: WindowSelector) -> (request: Request)
        ensures
            request@ == (RequestView::SendWindow { view: self.handle(), selector }),
    {
        Request::SendWindow { view: self.view(), selector }
    }
}

impl BaseWindow for OsWindow {
    open spec fn backend() -> Backend {
        Backend::MacOs
    }

    closed spec fn handle(&self) -> NativeHandle {
        self.hwnd
    }

    closed spec fn flags(&self) -> CreationFlags {
        self.flags
    }

    /// The engine places a window of this backend itself: no parent is
    /// passed on.
    fn create(
        &mut self,
        rc: Rect,
        flags: CreationFlags,
        parent: NativeHandle,
        app: &mut AppLifecycle,
    ) -> (plan: Vec<Request>) {
        let mut plan: Vec<Request> = Vec::new();
        if flags.is_main() {
            if app.claim() {
                plan.push(OsWindow::init_app());
            }
        }
        self.flags = flags;
        if !flags.is_windowless() {
            plan.push(
                Request::EngineCreateWindow {
                    flags: flags.bits(),
                    frame: rc.frame(),
                    parent: NativeHandle::null(),
                },
            );
        }
        assert(plan.deep_view() =~= crate::window::creation_plan(
            Backend::MacOs,
            rc,
            flags,
            parent,
            old(app).initialized(),
        ));
        plan
    }

    fn attach(&mut self, created: NativeHandle) -> (result: Result<NativeHandle, WindowError>) {
        self.hwnd = created;
        if created.is_null() {
            Err(WindowError::AllocationFailed)
        } else {
            Ok(created)
        }
    }

    fn get_hwnd(&self) -> (hwnd: NativeHandle) {
        self.hwnd
    }

    fn collapse(&self, hide: bool) -> (plan: Vec<Request>) {
        let mut plan: Vec<Request> = Vec::new();
        if hide {
            plan.push(self.window(WindowSelector::OrderOut));
        } else {
            plan.push(self.window(WindowSelector::PerformMiniaturize));
        }
        assert(plan.deep_view() =~= collapse_plan(self.hwnd, hide));
        plan
    }

    fn expand(&self, maximize: bool) -> (plan: Vec<Request>) {
        let mut plan: Vec<Request> = Vec::new();
        if self.flags.has_titlebar() {
            plan.push(OsWindow::get_app(AppSelector::ActivateIgnoringOtherApps));
        }
        plan.push(self.window(WindowSelector::MakeKeyAndOrderFront));
        if maximize {
            plan.push(self.window(WindowSelector::PerformZoom));
        }
        assert(plan.deep_view() =~= expand_plan(self.hwnd, self.flags, maximize));
        plan
    }

    fn dismiss(&self) -> (plan: Vec<Request>) {
        let mut plan: Vec<Request> = Vec::new();
        plan.push(self.window(WindowSelector::Close));
        assert(plan.deep_view() =~= dismiss_plan(self.hwnd));
        plan
    }

    fn set_title(&mut self, title: &str) -> (result: Result<Vec<Request>, WindowError>) {
        let mut plan: Vec<Request> = Vec::new();
        plan.push(Request::SendTitle { view: self.view(), title: String::from_str(title) });
        assert(plan.deep_view() =~= set_title_plan(self.hwnd, title@));
        Ok(plan)
    }

    /// The backend has no title to read: the answer is always the empty
    /// title, and nothing is asked of the native side.
    fn get_title(&self) -> (result: Result<TitleStep, WindowError>)
        ensures
            result matches Ok(TitleStep::Title(text)) && text@.len() == 0,
    {
        Ok(TitleStep::Title(String::new()))
    }

    fn run_app(&self) -> (plan: Vec<Request>) {
        let mut plan: Vec<Request> = Vec::new();
        plan.push(OsWindow::get_app(AppSelector::FinishLaunching));
        plan.push(OsWindow::get_app(AppSelector::Run));
        assert(plan.deep_view() =~= run_plan());
        plan
    }

    fn quit_app(&self) -> (plan: Vec<Request>) {
        let mut plan: Vec<Request> = Vec::new();
        plan.push(OsWindow::get_app(AppSelector::Terminate));
        assert(plan.deep_view() =~= quit_plan());
        plan
    }
}

} // verus!
