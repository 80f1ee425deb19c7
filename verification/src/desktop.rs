//! A desktop that can be run: the model of the native side as a value that
//! performs requests.
//!
//! It stands in for the operating system and the host engine wherever the
//! real ones are not at hand, and does to its windows and its event source
//! exactly what [`DesktopModel`] says.

use crate::error::WindowError;
use crate::flags::CreationFlags;
use crate::geometry::Rect;
use crate::handle::NativeHandle;
use crate::laws::law_creation;
use crate::lifecycle::AppLifecycle;
use crate::model::{
    codes, lemma_posts_concat, lemma_posts_pump, lemma_quit_index_at, lemma_run_empty,
    lemma_run_one, lemma_step_pending, posts, DesktopModel, Setup, WindowModel,
};
use crate::request::{
    AppCommand, AppSelector, Event, Reply, ReplyView, Request, RequestView, WindowSelector,
};
use crate::state::WindowState;
use crate::wide::{decode, from_units, to_units, wide_len};
use crate::window::{creation_parent, creation_plan, BaseWindow, TitleStep};
use crate::windows::{
    pump_plan, OsWindow, SW_HIDE, SW_MAXIMIZE, SW_MINIMIZE, SW_SHOWNORMAL, WM_CLOSE,
};
use std::collections::VecDeque;
use vstd::prelude::*;

verus! {

/// A window of the desktop.
#[derive(Debug)]
pub struct NativeWindow {
    state: WindowState,
    title: Vec<u16>,
    flags: u32,
    frame: Option<Rect>,
    parent: NativeHandle,
}

impl View for NativeWindow {
    type V = WindowModel;

    closed spec fn view(&self) -> WindowModel {
        WindowModel {
            state: self.state,
            title: self.title@,
            flags: self.flags,
            frame: self.frame,
            parent: self.parent,
        }
    }
}

impl DeepView for NativeWindow {
    type V = WindowModel;

    open spec fn deep_view(&self) -> WindowModel {
        self@
    }
}

/// The native side, with room for a fixed number of windows.
#[derive(Debug)]
pub struct Desktop {
    windows: Vec<NativeWindow>,
    room: usize,
    setup: Setup,
    active: bool,
    pending: VecDeque<Event>,
    current: Option<u32>,
    dispatched: Vec<u32>,
}

impl View for Desktop {
    type V = DesktopModel;

    closed spec fn view(&self) -> DesktopModel {
        DesktopModel {
            windows: self.windows.deep_view(),
            room: self.room,
            setup: self.setup,
            active: self.active,
            pending: self.pending@,
            current: self.current,
            dispatched: self.dispatched@,
        }
    }
}

/// The first `n` of `units`.
fn prefix(units: &Vec<u16>, n: usize) -> (head: Vec<u16>)
    requires
        n <= units@.len(),
    ensures
        head@ == units@.take(n as int),
{
    let mut head: Vec<u16> = Vec::new();
    let mut i: usize = 0;
    while i < n
        invariant
            i <= n,
            n <= units@.len(),
            head@ == units@.take(i as int),
        decreases n - i,
    {
        head.push(units[i]);
        assert(head@ =~= units@.take(i + 1));
        i += 1;
    }
    head
}

/// The requests on a stack in the order in which they will be issued: the
/// top of the stack first.
pub open spec fn upcoming(stack: Seq<Request>) -> Seq<RequestView> {
    Seq::new(stack.len(), |i: int| stack[stack.len() - 1 - i]@)
}

/// Puts the requests of `plan` on top of `stack`, the first of them
/// uppermost.
fn stack_up(stack: &mut Vec<Request>, plan: Vec<Request>)
    ensures
        upcoming(final(stack)@) == plan.deep_view() + upcoming(old(stack)@),
{
    let ghost all = plan.deep_view();
    let ghost below = upcoming(stack@);
    let mut plan = plan;
    assert(plan.deep_view() =~= all.take(plan@.len() as int));
    assert(upcoming(stack@) =~= all.skip(plan@.len() as int) + below);
    while plan.len() > 0
        invariant
            plan@.len() <= all.len(),
            plan.deep_view() == all.take(plan@.len() as int),
            upcoming(stack@) == all.skip(plan@.len() as int) + below,
        decreases plan@.len(),
    {
        let ghost n = plan@.len() as int;
        let ghost under = stack@;
        match plan.pop() {
            Some(request) => {
                assert(request@ == all.take(n)[n - 1]);
                stack.push(request);
                assert(plan.deep_view() =~= all.take(n - 1));
                assert(upcoming(stack@) =~= seq![request@] + upcoming(under));
                assert(upcoming(stack@) =~= all.skip(n - 1) + below);
            },
            None => {},
        }
    }
    assert(all.skip(0) =~= all);
}

impl Desktop {
    /// A desktop on which nothing has happened yet. The engine can allocate
    /// `room` windows on it; one that is asked for beyond that fails.
    pub fn new(room: usize) -> (desktop: Desktop)
        ensures
            desktop@ == DesktopModel::fresh(room),
    {
        let desktop = Desktop {
            windows: Vec::new(),
            room,
            setup: Setup::Never,
            active: false,
            pending: VecDeque::new(),
            current: None,
            dispatched: Vec::new(),
        };
        assert(desktop.windows.deep_view() =~= Seq::<WindowModel>::empty());
        desktop
    }

    /// Puts an event at the end of the event source.
    pub fn post(&mut self, event: Event)
        ensures
            final(self)@ == (DesktopModel {
                pending: old(self)@.pending.push(event),
                ..old(self)@
            }),
    {
        self.pending.push_back(event);
    }

    /// The position of a live window among the windows.
    fn live_index(&self, window: NativeHandle) -> (index: Option<usize>)
        ensures
            index is Some <==> self@.is_live(window),
            index matches Some(i) ==> i == window.addr - 1 && i < self.windows@.len(),
    {
        let addr: usize = window.addr();
        if 0 < addr && addr <= self.windows.len() {
            if self.windows[addr - 1].state.is_live() {
                Some(addr - 1)
            } else {
                None
            }
        } else {
            None
        }
    }

    /// The state of `window`, if the desktop has such a window.
    pub fn state_of(&self, window: NativeHandle) -> (state: Option<WindowState>)
        ensures
            state == (if self@.knows(window) {
                Some(self@.state_of(window))
            } else {
                None
            }),
    {
        let addr: usize = window.addr();
        if 0 < addr && addr <= self.windows.len() {
            Some(self.windows[addr - 1].state)
        } else {
            None
        }
    }

    /// The title of `window` as a text, if the desktop has such a window.
    pub fn title_of(&self, window: NativeHandle) -> (title: Option<String>)
        ensures
            title is Some <==> self@.knows(window),
            title matches Some(text) ==> text@ == decode(self@.title_of(window)),
    {
        let addr: usize = window.addr();
        if 0 < addr && addr <= self.windows.len() {
            Some(from_units(self.windows[addr - 1].title.as_slice()))
        } else {
            None
        }
    }

    /// The frame that `window` was asked to take: `None` where the desktop
    /// has no such window or chose the frame itself.
    pub fn frame_of(&self, window: NativeHandle) -> (frame: Option<Rect>)
        ensures
            frame == (if self@.knows(window) {
                self@.window(window).frame
            } else {
                None
            }),
    {
        let addr: usize = window.addr();
        if 0 < addr && addr <= self.windows.len() {
            self.windows[addr - 1].frame
        } else {
            None
        }
    }

    /// The flags that `window` was created with, if the desktop has such a
    /// window.
    pub fn flags_of(&self, window: NativeHandle) -> (flags: Option<u32>)
        ensures
            flags == (if self@.knows(window) {
                Some(self@.window(window).flags)
            } else {
                None
            }),
    {
        let addr: usize = window.addr();
        if 0 < addr && addr <= self.windows.len() {
            Some(self.windows[addr - 1].flags)
        } else {
            None
        }
    }

    /// How often the application has been set up.
    pub fn setup(&self) -> (setup: Setup)
        ensures
            setup == self@.setup,
    {
        self.setup
    }

    /// Whether the application has been activated.
    pub fn is_active(&self) -> (active: bool)
        ensures
            active == self@.active,
    {
        self.active
    }

    /// The numbers of the events that were dispatched, oldest first.
    pub fn dispatched(&self) -> (log: &Vec<u32>)
        ensures
            log@ == self@.dispatched,
    {
        &self.dispatched
    }

    /// How many events the event source holds.
    pub fn pending(&self) -> (count: usize)
        ensures
            count == self@.pending.len(),
    {
        self.pending.len()
    }

    fn allocate(&mut self, flags: u32, frame: Option<Rect>, parent: NativeHandle) -> (handle:
        NativeHandle)
        ensures
            (final(self)@, handle) == old(self)@.created(flags, frame, parent),
    {
        if self.windows.len() < self.room {
            self.windows.push(
                NativeWindow { state: WindowState::Hidden, title: Vec::new(), flags, frame, parent },
            );
            assert(self.windows.deep_view() =~= old(self).windows.deep_view().push(
                WindowModel {
                    state: WindowState::Hidden,
                    title: Seq::empty(),
                    flags,
                    frame,
                    parent,
                },
            ));
            NativeHandle::from_addr(self.windows.len())
        } else {
            NativeHandle::null()
        }
    }

    fn drive(&mut self, window: NativeHandle, target: WindowState)
        ensures
            final(self)@ == old(self)@.driven(window, target),
    {
        let addr: usize = window.addr();
        if 0 < addr && addr <= self.windows.len() {
            let i: usize = addr - 1;
            let next = self.windows[i].state.toward(target);
            self.windows[i].state = next;
            assert(self.windows.deep_view() =~= old(self).windows.deep_view().update(
                i as int,
                WindowModel { state: next, ..old(self).windows.deep_view()[i as int] },
            ));
        }
    }

    fn retitle(&mut self, window: NativeHandle, title: Vec<u16>)
        ensures
            final(self)@ == old(self)@.retitled(window, title@),
    {
        match self.live_index(window) {
            Some(i) => {
                self.windows[i].title = title;
                assert(self.windows.deep_view() =~= old(self).windows.deep_view().update(
                    i as int,
                    WindowModel { title: title@, ..old(self).windows.deep_view()[i as int] },
                ));
            },
            None => {},
        }
    }

    fn length_of(&self, window: NativeHandle) -> (length: i32)
        ensures
            length == self@.length_reply(window),
    {
        match self.live_index(window) {
            Some(i) => {
                let len: usize = self.windows[i].title.len();
                if len > 0x7fff_ffff {
                    i32::MAX
                } else {
                    len as i32
                }
            },
            None => 0,
        }
    }

    fn copy_text(&self, window: NativeHandle, capacity: i32) -> (buffer: Vec<u16>)
        ensures
            buffer@ == self@.text_reply(window, capacity),
    {
        match self.live_index(window) {
            Some(i) => {
                if capacity >= 1 {
                    let title = &self.windows[i].title;
                    let room: usize = capacity as usize;
                    let fit: usize = if title.len() < room {
                        title.len()
                    } else {
                        room - 1
                    };
                    let mut buffer = prefix(title, fit);
                    buffer.push(0);
                    buffer
                } else {
                    Vec::new()
                }
            },
            None => Vec::new(),
        }
    }

    fn retrieve(&mut self) -> (reply: Reply)
        ensures
            (final(self)@, reply@) == old(self)@.retrieved(),
    {
        match self.pending.pop_front() {
            None => Reply::Blocked,
            Some(Event::Quit) => {
                self.current = None;
                assert(self.pending@ =~= old(self).pending@.drop_first());
                Reply::Message(0)
            },
            Some(Event::Input(code)) => {
                self.current = Some(code);
                assert(self.pending@ =~= old(self).pending@.drop_first());
                Reply::Message(1)
            },
        }
    }

    fn dispatch(&mut self)
        ensures
            final(self)@ == old(self)@.dispatched_current(),
    {
        match self.current {
            Some(code) => {
                self.dispatched.push(code);
                self.current = None;
            },
            None => {},
        }
    }

    fn native_loop(&mut self) -> (reply: Reply)
        ensures
            final(self)@ == old(self)@.looped(),
            reply@ == (if old(self)@.has_quit() {
                ReplyView::Done
            } else {
                ReplyView::Blocked
            }),
    {
        let ghost start = self.pending@;
        let ghost base = self.dispatched@;
        let ghost mut k: int = 0;
        self.current = None;
        assert(start.skip(0) =~= start);
        assert(base + codes(start.take(0)) =~= base);
        loop
            invariant
                0 <= k <= start.len(),
                start == old(self).pending@,
                base == old(self).dispatched@,
                self.pending@ == start.skip(k),
                forall|j: int| 0 <= j < k ==> start[j] != Event::Quit,
                self.dispatched@ == base + codes(start.take(k)),
                self.current is None,
                self.windows == old(self).windows,
                self.room == old(self).room,
                self.setup == old(self).setup,
                self.active == old(self).active,
            decreases self.pending@.len(),
        {
            match self.pending.pop_front() {
                None => {
                    proof {
                        assert(start.skip(k).len() == 0);
                        lemma_quit_index_at(start, k);
                        assert(self.pending@ =~= Seq::<Event>::empty());
                    }
                    return Reply::Blocked;
                },
                Some(Event::Quit) => {
                    proof {
                        assert(start[k] == Event::Quit);
                        lemma_quit_index_at(start, k);
                        assert(self.pending@ =~= start.skip(k + 1));
                    }
                    return Reply::Done;
                },
                Some(Event::Input(code)) => {
                    self.dispatched.push(code);
                    proof {
                        assert(start[k] == Event::Input(code));
                        assert(start.take(k + 1).drop_last() =~= start.take(k));
                        assert(start.take(k + 1).last() == start[k]);
                        assert(self.pending@ =~= start.skip(k + 1));
                        assert(self.dispatched@ =~= base + codes(start.take(k + 1)));
                        k = k + 1;
                    }
                },
            }
        }
    }

    /// Performs one request and answers it.
    pub fn perform(&mut self, request: &Request) -> (reply: Reply)
        ensures
            (final(self)@, reply@) == old(self)@.step(request@),
    {
        match request {
            Request::EngineExec { command } => match command {
                AppCommand::Init => {
                    self.setup = self.setup.again();
                    Reply::Done
                },
                AppCommand::Loop => self.native_loop(),
                AppCommand::Stop => {
                    self.pending.push_back(Event::Quit);
                    Reply::Done
                },
            },
            Request::EngineCreateWindow { flags, frame, parent } => Reply::Handle(
                self.allocate(*flags, *frame, *parent),
            ),
            Request::EngineSetState { window, state } => {
                self.drive(*window, *state);
                Reply::Done
            },
            Request::OleInitialize => {
                self.setup = self.setup.again();
                Reply::Done
            },
            Request::ShowWindow { window, show } => {
                if *show == SW_HIDE {
                    self.drive(*window, WindowState::Hidden);
                } else if *show == SW_SHOWNORMAL {
                    self.drive(*window, WindowState::Shown);
                } else if *show == SW_MAXIMIZE {
                    self.drive(*window, WindowState::Maximized);
                } else if *show == SW_MINIMIZE {
                    self.drive(*window, WindowState::Minimized);
                }
                Reply::Done
            },
            Request::PostMessage { window, message, wparam, lparam } => {
                if *message == WM_CLOSE {
                    self.drive(*window, WindowState::Closed);
                }
                Reply::Done
            },
            Request::SetWindowText { window, text } => {
                let n: usize = wide_len(text.as_slice());
                self.retitle(*window, prefix(text, n));
                Reply::Done
            },
            Request::GetWindowTextLength { window } => Reply::Length(self.length_of(*window)),
            Request::GetWindowText { window, capacity } => Reply::Text(
                self.copy_text(*window, *capacity),
            ),
            Request::GetMessage => self.retrieve(),
            Request::TranslateMessage => Reply::Done,
            Request::DispatchMessage => {
                self.dispatch();
                Reply::Done
            },
            Request::PostQuitMessage { code } => {
                self.pending.push_back(Event::Quit);
                Reply::Done
            },
            Request::SendApp { selector } => match selector {
                AppSelector::SetActivationPolicyRegular => {
                    self.setup = self.setup.again();
                    Reply::Done
                },
                AppSelector::ActivateIgnoringOtherApps => {
                    self.active = true;
                    Reply::Done
                },
                AppSelector::FinishLaunching => Reply::Done,
                AppSelector::Run => self.native_loop(),
                AppSelector::Terminate => {
                    self.pending.push_back(Event::Quit);
                    Reply::Done
                },
            },
            Request::SendWindow { view, selector } => {
                let target = match selector {
                    WindowSelector::OrderOut => WindowState::Hidden,
                    WindowSelector::PerformMiniaturize => WindowState::Minimized,
                    WindowSelector::MakeKeyAndOrderFront => WindowState::Shown,
                    WindowSelector::PerformZoom => WindowState::Maximized,
                    WindowSelector::Close => WindowState::Closed,
                };
                self.drive(*view, target);
                Reply::Done
            },
            Request::SendTitle { view, title } => {
                self.retitle(*view, to_units(title.as_str()));
                Reply::Done
            },
        }
    }

    /// Performs the requests of `plan` in order and says whether all of
    /// them returned. After a retrieval the message loop goes on as
    /// [`OsWindow::pump`] says. The run ends early, with `false`, at a
    /// request that blocks.
    #[verifier::loop_isolation(false)]
    pub fn run(&mut self, plan: Vec<Request>) -> (returned: bool)
        ensures
            (final(self)@, returned) == old(self)@.run(plan.deep_view()),
    {
        let ghost all = plan.deep_view();
        let mut stack: Vec<Request> = Vec::new();
        assert(upcoming(stack@) =~= Seq::<RequestView>::empty());
        stack_up(&mut stack, plan);
        assert(upcoming(stack@) =~= all);
        loop
            invariant
                self@.run(upcoming(stack@)) == old(self)@.run(all),
            decreases self@.pending.len() + posts(upcoming(stack@)), stack@.len(),
        {
            let ghost before = upcoming(stack@);
            let ghost here = self@;
            match stack.pop() {
                None => {
                    return true;
                },
                Some(request) => {
                    let ghost rest = upcoming(stack@);
                    proof {
                        assert(before[0] == request@);
                        assert(before.drop_first() =~= rest);
                        lemma_step_pending(here, request@);
                    }
                    let reply = self.perform(&request);
                    match reply {
                        Reply::Blocked => {
                            return false;
                        },
                        Reply::Message(result) => {
                            stack_up(&mut stack, OsWindow::pump(result));
                            proof {
                                lemma_posts_concat(pump_plan(result), rest);
                                lemma_posts_pump(result);
                            }
                        },
                        _ => {},
                    }
                },
            }
        }
    }

    /// Creates `window` on this desktop: issues what the creation asks for,
    /// and attaches the handle that the engine answers. A window without a
    /// native surface asks the engine for nothing and keeps its handle.
    pub fn create<W: BaseWindow>(
        &mut self,
        window: &mut W,
        rc: Rect,
        flags: CreationFlags,
        parent: NativeHandle,
        app: &mut AppLifecycle,
    ) -> (result: Result<NativeHandle, WindowError>)
        ensures
            final(window).flags() == flags,
            final(app).initialized() == (old(app).initialized() || flags.is_main()),
            (final(self)@, true) == old(self)@.run(
                creation_plan(W::backend(), rc, flags, parent, old(app).initialized()),
            ),
            flags.is_windowless() ==> ({
                &&& final(self)@ == old(self)@.prepared(flags, old(app).initialized())
                &&& final(window).handle() == old(window).handle()
                &&& result == Ok::<NativeHandle, WindowError>(old(window).handle())
            }),
            !flags.is_windowless() ==> ({
                let answer = old(self)@.prepared(flags, old(app).initialized()).created(
                    flags.bits,
                    rc.frame(),
                    creation_parent(W::backend(), parent),
                );
                &&& final(self)@ == answer.0
                &&& final(window).handle() == answer.1
                &&& answer.1.is_null() == !old(self)@.has_room()
                &&& result == if answer.1.is_null() {
                    Err::<NativeHandle, WindowError>(WindowError::AllocationFailed)
                } else {
                    Ok::<NativeHandle, WindowError>(answer.1)
                }
            }),
    {
        let ghost start = self@;
        let ghost initialized = app.initialized();
        let mut plan = window.create(rc, flags, parent, app);
        let ghost all = plan.deep_view();
        proof {
            law_creation(W::backend(), start, rc, flags, parent, initialized);
        }
        if flags.is_windowless() {
            let returned = self.run(plan);
            Ok(window.get_hwnd())
        } else {
            match plan.pop() {
                Some(allocation) => {
                    assert(allocation@ == all.last());
                    assert(plan.deep_view() =~= all.drop_last());
                    proof {
                        if flags.is_main() && !initialized {
                            assert(all.drop_last() =~= seq![all[0]]);
                            lemma_run_one(start, all[0]);
                        } else {
                            assert(all.drop_last() =~= Seq::<RequestView>::empty());
                            lemma_run_empty(start);
                        }
                    }
                    let returned = self.run(plan);
                    match self.perform(&allocation) {
                        Reply::Handle(created) => window.attach(created),
                        _ => window.attach(NativeHandle::null()),
                    }
                },
                None => window.attach(NativeHandle::null()),
            }
        }
    }

    /// Reads a title on from its first step, by asking this desktop. The
    /// desktop stays as it is.
    pub fn read_title(&mut self, step: TitleStep) -> (title: String)
        ensures
            final(self)@ == old(self)@,
            title@ == old(self)@.title_read(step@),
    {
        match step {
            TitleStep::Title(text) => text,
            TitleStep::Ask(request) => match request {
                Request::GetWindowTextLength { window } => {
                    match self.perform(&Request::GetWindowTextLength { window }) {
                        Reply::Length(length) => {
                            match self.perform(&OsWindow::title_buffer(window, length)) {
                                Reply::Text(buffer) => OsWindow::title_text(buffer.as_slice()),
                                _ => String::new(),
                            }
                        },
                        _ => String::new(),
                    }
                },
                _ => String::new(),
            },
        }
    }
}

} // verus!
