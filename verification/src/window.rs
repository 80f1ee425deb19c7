//! The capability interface: the lifecycle operations that every backend
//! supports, and what each of them asks of the native side.

use crate::error::WindowError;
use crate::flags::CreationFlags;
use crate::geometry::Rect;
use crate::handle::NativeHandle;
use crate::lifecycle::AppLifecycle;
use crate::linux;
use crate::macos;
use crate::request::{Backend, Request, RequestView};
use crate::windows;
use vstd::prelude::*;

verus! {

/// The first step of reading a title.
#[derive(Debug, PartialEq, Eq)]
pub enum TitleStep {
    /// The title is known without asking the native side.
    Title(String),
    /// The native side has to be asked, starting with this request.
    Ask(Request),
}

/// The first step of reading a title, as a mathematical value.
pub ghost enum TitleStepView {
    Title(Seq<char>),
    Ask(RequestView),
}

impl View for TitleStep {
    type V = TitleStepView;

    open spec fn view(&self) -> TitleStepView {
        match *self {
            TitleStep::Title(text) => TitleStepView::Title(text@),
            TitleStep::Ask(request) => TitleStepView::Ask(request@),
        }
    }
}

/// A plan or an error as a mathematical value.
pub open spec fn plan_or_error(result: Result<Vec<Request>, WindowError>) -> Result<
    Seq<RequestView>,
    WindowError,
> {
    match result {
        Ok(plan) => Ok(plan.deep_view()),
        Err(e) => Err(e),
    }
}

/// A first step or an error as a mathematical value.
pub open spec fn step_or_error(result: Result<TitleStep, WindowError>) -> Result<
    TitleStepView,
    WindowError,
> {
    match result {
        Ok(step) => Ok(step@),
        Err(e) => Err(e),
    }
}

/// The request that sets the application up.
pub open spec fn init_request(backend: Backend) -> RequestView {
    match backend {
        Backend::Windows => windows::init_request(),
        Backend::Linux => linux::init_request(),
        Backend::MacOs => macos::init_request(),
    }
}

/// The parent that a creation passes on to the engine.
pub open spec fn creation_parent(backend: Backend, parent: NativeHandle) -> NativeHandle {
    match backend {
        Backend::MacOs => NativeHandle { addr: 0 },
        _ => parent,
    }
}

/// What creating a window asks of the native side.
///
/// A main window sets the application up first, unless that has been done.
/// Then the engine allocates the window, unless the window does without a
/// native surface. A rectangle without area is not passed on: the native
/// side chooses the size.
pub open spec fn creation_plan(
    backend: Backend,
    rc: Rect,
    flags: CreationFlags,
    parent: NativeHandle,
    initialized: bool,
) -> Seq<RequestView> {
    let setup = if flags.is_main() && !initialized {
        seq![init_request(backend)]
    } else {
        Seq::empty()
    };
    let allocation = if flags.is_windowless() {
        Seq::empty()
    } else {
        seq![
            RequestView::EngineCreateWindow {
                flags: flags.bits,
                frame: rc.frame(),
                parent: creation_parent(backend, parent),
            },
        ]
    };
    setup + allocation
}

/// What hiding (`hide`) or minimizing a window asks of the native side.
pub open spec fn collapse_plan(backend: Backend, window: NativeHandle, hide: bool) -> Seq<
    RequestView,
> {
    match backend {
        Backend::Windows => windows::collapse_plan(window, hide),
        Backend::Linux => linux::collapse_plan(window, hide),
        Backend::MacOs => macos::collapse_plan(window, hide),
    }
}

/// What maximizing (`maximize`) or showing a window asks of the native side.
pub open spec fn expand_plan(
    backend: Backend,
    window: NativeHandle,
    flags: CreationFlags,
    maximize: bool,
) -> Seq<RequestView> {
    match backend {
        Backend::Windows => windows::expand_plan(window, maximize),
        Backend::Linux => linux::expand_plan(window, maximize),
        Backend::MacOs => macos::expand_plan(window, flags, maximize),
    }
}

/// What closing a window asks of the native side.
pub open spec fn dismiss_plan(backend: Backend, window: NativeHandle) -> Seq<RequestView> {
    match backend {
        Backend::Windows => windows::dismiss_plan(window),
        Backend::Linux => linux::dismiss_plan(window),
        Backend::MacOs => macos::dismiss_plan(window),
    }
}

/// What setting a title asks of the native side, where the backend can set
/// titles at all.
pub open spec fn set_title_plan(backend: Backend, window: NativeHandle, title: Seq<char>) -> Result<
    Seq<RequestView>,
    WindowError,
> {
    match backend {
        Backend::Windows => Ok(windows::set_title_plan(window, title)),
        Backend::Linux => Err(WindowError::Unsupported),
        Backend::MacOs => Ok(macos::set_title_plan(window, title)),
    }
}

/// How reading a title starts: with a question to the native side, with the
/// empty title where the backend has none to read, or not at all.
pub open spec fn title_step(backend: Backend, window: NativeHandle) -> Result<
    TitleStepView,
    WindowError,
> {
    match backend {
        Backend::Windows => Ok(
            TitleStepView::Ask(RequestView::GetWindowTextLength { window }),
        ),
        Backend::Linux => Err(WindowError::Unsupported),
        Backend::MacOs => Ok(TitleStepView::Title(Seq::empty())),
    }
}

/// What running the event loop asks of the native side.
pub open spec fn run_plan(backend: Backend) -> Seq<RequestView> {
    match backend {
        Backend::Windows => windows::run_plan(),
        Backend::Linux => linux::run_plan(),
        Backend::MacOs => macos::run_plan(),
    }
}

/// What ending the event loop asks of the native side.
pub open spec fn quit_plan(backend: Backend) -> Seq<RequestView> {
    match backend {
        Backend::Windows => windows::quit_plan(),
        Backend::Linux => linux::quit_plan(),
        Backend::MacOs => macos::quit_plan(),
    }
}

/// The lifecycle of one native window.
///
/// An operation issues nothing by itself. It returns the requests that are
/// due, in the order in which they are to be issued. All operations of one
/// window belong to one thread, the one that runs the event loop.
pub trait BaseWindow: Sized {
    /// The native protocol of this backend.
    spec fn backend() -> Backend;

    /// The handle that the window holds: null until a creation succeeds or
    /// an existing handle is wrapped.
    spec fn handle(&self) -> NativeHandle;

    /// The flags that the window was created with.
    spec fn flags(&self) -> CreationFlags;

    /// Starts the creation of a window: records the flags, claims the setup
    /// of the application for a main window, and says what to ask of the
    /// native side. The reply to the engine's creation request goes to
    /// [`BaseWindow::attach`]. A window without a native surface has no such
    /// request and keeps the handle it has.
    fn create(
        &mut self,
        rc: Rect,
        flags: CreationFlags,
        parent: NativeHandle,
        app: &mut AppLifecycle,
    ) -> (plan: Vec<Request>)
        ensures
            final(self).flags() == flags,
            final(self).handle() == old(self).handle(),
            final(app).initialized() == (old(app).initialized() || flags.is_main()),
            plan.deep_view() == creation_plan(
                Self::backend(),
                rc,
                flags,
                parent,
                old(app).initialized(),
            ),
    ;

    /// Finishes a creation with the handle that the engine answered. The
    /// window holds that handle from now on. The null handle means that the
    /// engine could not allocate the window.
    fn attach(&mut self, created: NativeHandle) -> (result: Result<NativeHandle, WindowError>)
        ensures
            final(self).flags() == old(self).flags(),
            final(self).handle() == created,
            result == (if created.is_null() {
                Err::<NativeHandle, WindowError>(WindowError::AllocationFailed)
            } else {
                Ok::<NativeHandle, WindowError>(created)
            }),
    ;

    /// The handle that the window holds.
    fn get_hwnd(&self) -> (hwnd: NativeHandle)
        ensures
            hwnd == self.handle(),
    ;

    /// Hides the window (`hide`) or minimizes it.
    fn collapse(&self, hide: bool) -> (plan: Vec<Request>)
        ensures
            plan.deep_view() == collapse_plan(Self::backend(), self.handle(), hide),
    ;

    /// Maximizes the window (`maximize`) or shows it at its normal size, in
    /// front of the others.
    fn expand(&self, maximize: bool) -> (plan: Vec<Request>)
        ensures
            plan.deep_view() == expand_plan(
                Self::backend(),
                self.handle(),
                self.flags(),
                maximize,
            ),
    ;

    /// Closes the window. This does not end the event loop.
    fn dismiss(&self) -> (plan: Vec<Request>)
        ensures
            plan.deep_view() == dismiss_plan(Self::backend(), self.handle()),
    ;

    /// Sets the title of the window, where the backend can.
    fn set_title(&mut self, title: &str) -> (result: Result<Vec<Request>, WindowError>)
        ensures
            final(self).flags() == old(self).flags(),
            final(self).handle() == old(self).handle(),
            plan_or_error(result) == set_title_plan(
                Self::backend(),
                old(self).handle(),
                title@,
            ),
    ;

    /// Starts reading the title of the window, where the backend can.
    fn get_title(&self) -> (result: Result<TitleStep, WindowError>)
        ensures
            step_or_error(result) == title_step(Self::backend(), self.handle()),
    ;

    /// Runs the event loop of the application. The calling thread stays in
    /// the loop until the quit signal has been retrieved.
    fn run_app(&self) -> (plan: Vec<Request>)
        ensures
            plan.deep_view() == run_plan(Self::backend()),
    ;

    /// Posts the quit signal to the event loop. The loop ends when it
    /// retrieves the signal, not before.
    fn quit_app(&self) -> (plan: Vec<Request>)
        ensures
            plan.deep_view() == quit_plan(Self::backend()),
    ;
}

} // verus!
