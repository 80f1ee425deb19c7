//! What the requests mean: a mathematical model of the native side.
//!
//! The three native protocols differ in their calls, not in what the calls
//! do. Every request has one of a dozen effects on a desktop: the windows
//! that the engine has allocated, the application's setup and activation,
//! and the event source with the events it has handed out.

use crate::flags::CreationFlags;
use crate::geometry::Rect;
use crate::handle::NativeHandle;
use crate::request::{AppCommand, AppSelector, Event, ReplyView, RequestView, WindowSelector};
use crate::state::WindowState;
use crate::wide::{decode, encode, until_nul};
use crate::window::TitleStepView;
use crate::windows::{
    pump_plan, spec_title_capacity, SW_HIDE, SW_MAXIMIZE, SW_MINIMIZE, SW_SHOWNORMAL, WM_CLOSE,
};
use vstd::prelude::*;

verus! {

/// How often the application has been set up.
#[derive(Clone, Copy, Debug, PartialEq, Eq, Structural)]
pub enum Setup {
    Never,
    Once,
    Repeated,
}

impl Setup {
    /// The count after one more setup.
    pub open spec fn spec_again(&self) -> Setup {
        match *self {
            Setup::Never => Setup::Once,
            _ => Setup::Repeated,
        }
    }

    #[verifier::when_used_as_spec(spec_again)]
    pub fn again(&self) -> (next: Setup)
        ensures
            next == self.spec_again(),
    {
        match self {
            Setup::Never => Setup::Once,
            _ => Setup::Repeated,
        }
    }
}

/// What one request does to the native side.
pub ghost enum Effect {
    /// The application is set up.
    Setup,
    /// The engine allocates a window.
    Create { flags: u32, frame: Option<Rect>, parent: NativeHandle },
    /// A window is driven toward a state.
    Drive { window: NativeHandle, target: WindowState },
    /// A window gets a title.
    Retitle { window: NativeHandle, title: Seq<u16> },
    /// The length of a window's title is read.
    Length { window: NativeHandle },
    /// A window's title is copied into a buffer.
    Text { window: NativeHandle, capacity: i32 },
    /// The next event is retrieved from the event source.
    Retrieve,
    /// The event that was retrieved last is dispatched.
    Dispatch,
    /// The quit signal is posted to the event source.
    PostQuit,
    /// The native side runs the event loop itself.
    Loop,
    /// The application is activated.
    Activate,
    /// Nothing that this model keeps track of.
    Nothing,
}

/// The effect of a request.
pub open spec fn effect_of(request: RequestView) -> Effect {
    match request {
        RequestView::EngineExec { command } => match command {
            AppCommand::Init => Effect::Setup,
            AppCommand::Loop => Effect::Loop,
            AppCommand::Stop => Effect::PostQuit,
        },
        RequestView::EngineCreateWindow { flags, frame, parent } => Effect::Create {
            flags,
            frame,
            parent,
        },
        RequestView::EngineSetState { window, state } => Effect::Drive { window, target: state },
        RequestView::OleInitialize => Effect::Setup,
        RequestView::ShowWindow { window, show } => if show == SW_HIDE {
            Effect::Drive { window, target: WindowState::Hidden }
        } else if show == SW_SHOWNORMAL {
            Effect::Drive { window, target: WindowState::Shown }
        } else if show == SW_MAXIMIZE {
            Effect::Drive { window, target: WindowState::Maximized }
        } else if show == SW_MINIMIZE {
            Effect::Drive { window, target: WindowState::Minimized }
        } else {
            Effect::Nothing
        },
        RequestView::PostMessage { window, message, wparam, lparam } => if message == WM_CLOSE {
            Effect::Drive { window, target: WindowState::Closed }
        } else {
            Effect::Nothing
        },
        RequestView::SetWindowText { window, text } => Effect::Retitle {
            window,
            title: until_nul(text),
        },
        RequestView::GetWindowTextLength { window } => Effect::Length { window },
        RequestView::GetWindowText { window, capacity } => Effect::Text { window, capacity },
        RequestView::GetMessage => Effect::Retrieve,
        RequestView::TranslateMessage => Effect::Nothing,
        RequestView::DispatchMessage => Effect::Dispatch,
        RequestView::PostQuitMessage { code } => Effect::PostQuit,
        RequestView::SendApp { selector } => match selector {
            AppSelector::SetActivationPolicyRegular => Effect::Setup,
            AppSelector::ActivateIgnoringOtherApps => Effect::Activate,
            AppSelector::FinishLaunching => Effect::Nothing,
            AppSelector::Run => Effect::Loop,
            AppSelector::Terminate => Effect::PostQuit,
        },
        RequestView::SendWindow { view, selector } => Effect::Drive {
            window: view,
            target: match selector {
                WindowSelector::OrderOut => WindowState::Hidden,
                WindowSelector::PerformMiniaturize => WindowState::Minimized,
                WindowSelector::MakeKeyAndOrderFront => WindowState::Shown,
                WindowSelector::PerformZoom => WindowState::Maximized,
                WindowSelector::Close => WindowState::Closed,
            },
        },
        RequestView::SendTitle { view, title } => Effect::Retitle {
            window: view,
            title: encode(title),
        },
    }
}

/// The position of the first quit signal among `events`, or their number
/// where there is none.
pub open spec fn quit_index(events: Seq<Event>) -> nat
    decreases events.len(),
{
    if events.len() == 0 || events[0] == Event::Quit {
        0
    } else {
        1 + quit_index(events.drop_first())
    }
}

/// The numbers of the ordinary events among `events`, in order.
pub open spec fn codes(events: Seq<Event>) -> Seq<u32>
    decreases events.len(),
{
    if events.len() == 0 {
        Seq::empty()
    } else {
        match events.last() {
            Event::Input(code) => codes(events.drop_last()).push(code),
            Event::Quit => codes(events.drop_last()),
        }
    }
}

/// How many of the requests post the quit signal.
pub open spec fn posts(plan: Seq<RequestView>) -> nat
    decreases plan.len(),
{
    if plan.len() == 0 {
        0
    } else {
        let first: nat = if effect_of(plan[0]) is PostQuit {
            1
        } else {
            0
        };
        first + posts(plan.drop_first())
    }
}

/// A native window.
pub ghost struct WindowModel {
    pub state: WindowState,
    /// The title, in code units, without a terminator.
    pub title: Seq<u16>,
    pub flags: u32,
    /// Where the window was asked to be; `None` where the native side chose.
    pub frame: Option<Rect>,
    pub parent: NativeHandle,
}

/// The native side.
pub ghost struct DesktopModel {
    /// The windows that were allocated, oldest first. The handle of a
    /// window is its position in this sequence, counted from one.
    pub windows: Seq<WindowModel>,
    /// How many windows the engine can allocate in all.
    pub room: usize,
    pub setup: Setup,
    /// Whether the application has been activated.
    pub active: bool,
    /// The events that the event source holds, oldest first.
    pub pending: Seq<Event>,
    /// The number of the event that was retrieved and not yet dispatched.
    pub current: Option<u32>,
    /// The numbers of the events that were dispatched, oldest first.
    pub dispatched: Seq<u32>,
}

impl DesktopModel {
    /// A desktop on which nothing has happened, with room for `room`
    /// windows.
    pub open spec fn fresh(room: usize) -> DesktopModel {
        DesktopModel {
            windows: Seq::empty(),
            room,
            setup: Setup::Never,
            active: false,
            pending: Seq::empty(),
            current: None,
            dispatched: Seq::empty(),
        }
    }

    /// Whether `window` is the handle of a window that was allocated.
    pub open spec fn knows(self, window: NativeHandle) -> bool {
        0 < window.addr <= self.windows.len()
    }

    pub open spec fn window(self, window: NativeHandle) -> WindowModel
        recommends
            self.knows(window),
    {
        self.windows[window.addr - 1]
    }

    /// Whether `window` was allocated and has not been closed.
    pub open spec fn is_live(self, window: NativeHandle) -> bool {
        self.knows(window) && self.window(window).state.is_live()
    }

    pub open spec fn state_of(self, window: NativeHandle) -> WindowState
        recommends
            self.knows(window),
    {
        self.window(window).state
    }

    pub open spec fn title_of(self, window: NativeHandle) -> Seq<u16>
        recommends
            self.knows(window),
    {
        self.window(window).title
    }

    /// The length of a title as the native text interface reports it.
    pub open spec fn reported_length(title: Seq<u16>) -> i32 {
        if title.len() > i32::MAX {
            i32::MAX
        } else {
            title.len() as i32
        }
    }

    /// The desktop after the application has been set up once more.
    pub open spec fn set_up(self) -> DesktopModel {
        DesktopModel { setup: self.setup.again(), ..self }
    }

    /// The desktop on which the engine is asked for a window with the
    /// given flags: the one on which the application has been set up, where
    /// the window is a main window and `initialized` says that the setup
    /// was still due.
    pub open spec fn prepared(self, flags: CreationFlags, initialized: bool) -> DesktopModel {
        if flags.is_main() && !initialized {
            self.set_up()
        } else {
            self
        }
    }

    /// Whether the engine can allocate another window.
    pub open spec fn has_room(self) -> bool {
        self.windows.len() < self.room
    }

    /// The desktop after the engine was asked for a window, and the handle
    /// that it answers: that of a new hidden window without a title, or the
    /// null handle where there is no room.
    pub open spec fn created(self, flags: u32, frame: Option<Rect>, parent: NativeHandle) -> (
        DesktopModel,
        NativeHandle,
    ) {
        if self.has_room() {
            (
                DesktopModel {
                    windows: self.windows.push(
                        WindowModel {
                            state: WindowState::Hidden,
                            title: Seq::empty(),
                            flags,
                            frame,
                            parent,
                        },
                    ),
                    ..self
                },
                NativeHandle { addr: (self.windows.len() + 1) as usize },
            )
        } else {
            (self, NativeHandle { addr: 0 })
        }
    }

    /// The desktop after `window` was driven toward `target`. A closed
    /// window stays closed, and an unknown handle changes nothing.
    pub open spec fn driven(self, window: NativeHandle, target: WindowState) -> DesktopModel {
        if self.knows(window) {
            DesktopModel {
                windows: self.windows.update(
                    window.addr - 1,
                    WindowModel {
                        state: self.window(window).state.toward(target),
                        ..self.window(window)
                    },
                ),
                ..self
            }
        } else {
            self
        }
    }

    /// The desktop after `window` got the title `title`. Only a live window
    /// takes a title.
    pub open spec fn retitled(self, window: NativeHandle, title: Seq<u16>) -> DesktopModel {
        if self.is_live(window) {
            DesktopModel {
                windows: self.windows.update(
                    window.addr - 1,
                    WindowModel { title, ..self.window(window) },
                ),
                ..self
            }
        } else {
            self
        }
    }

    /// The length that is reported of the title of `window`: zero where the
    /// window is not live.
    pub open spec fn length_reply(self, window: NativeHandle) -> i32 {
        if self.is_live(window) {
            Self::reported_length(self.title_of(window))
        } else {
            0
        }
    }

    /// The buffer that comes back when the title of `window` is copied into
    /// `capacity` units: as much of the title as fits in front of the
    /// terminator, and the terminator. Nothing is copied where the window is
    /// not live or the buffer has no room for the terminator.
    pub open spec fn text_reply(self, window: NativeHandle, capacity: i32) -> Seq<u16> {
        if self.is_live(window) && capacity >= 1 {
            let title = self.title_of(window);
            let fit = if title.len() < capacity {
                title.len() as int
            } else {
                capacity - 1
            };
            title.take(fit).push(0u16)
        } else {
            Seq::empty()
        }
    }

    /// The title that comes of reading on from `step`: the length is asked,
    /// then the text with a buffer for that length, and the buffer is read
    /// up to its terminator.
    pub open spec fn title_read(self, step: TitleStepView) -> Seq<char> {
        match step {
            TitleStepView::Title(text) => text,
            TitleStepView::Ask(request) => match request {
                RequestView::GetWindowTextLength { window } => {
                    let length = self.length_reply(window);
                    let buffer = self.text_reply(window, spec_title_capacity(length));
                    decode(until_nul(buffer))
                },
                _ => Seq::empty(),
            },
        }
    }

    /// The desktop after the next event was asked of the event source, and
    /// what the retrieval answered: blocked on an empty source, zero for the
    /// quit signal, one for any other event.
    pub open spec fn retrieved(self) -> (DesktopModel, ReplyView) {
        if self.pending.len() == 0 {
            (self, ReplyView::Blocked)
        } else {
            match self.pending[0] {
                Event::Quit => (
                    DesktopModel { pending: self.pending.drop_first(), current: None, ..self },
                    ReplyView::Message(0),
                ),
                Event::Input(code) => (
                    DesktopModel {
                        pending: self.pending.drop_first(),
                        current: Some(code),
                        ..self
                    },
                    ReplyView::Message(1),
                ),
            }
        }
    }

    /// The desktop after the event that was retrieved last has been
    /// dispatched.
    pub open spec fn dispatched_current(self) -> DesktopModel {
        match self.current {
            Some(code) => DesktopModel {
                current: None,
                dispatched: self.dispatched.push(code),
                ..self
            },
            None => self,
        }
    }

    /// The desktop after the quit signal was posted.
    pub open spec fn quit_posted(self) -> DesktopModel {
        DesktopModel { pending: self.pending.push(Event::Quit), ..self }
    }

    /// Whether the event source holds a quit signal.
    pub open spec fn has_quit(self) -> bool {
        quit_index(self.pending) < self.pending.len()
    }

    /// The desktop after the native side ran the event loop: it dispatched
    /// every event in front of the first quit signal and took the signal.
    /// Without a signal it dispatched all events and waits for more.
    pub open spec fn looped(self) -> DesktopModel {
        let k = quit_index(self.pending) as int;
        DesktopModel {
            pending: if self.has_quit() {
                self.pending.skip(k + 1)
            } else {
                Seq::empty()
            },
            current: None,
            dispatched: self.dispatched + codes(self.pending.take(k)),
            ..self
        }
    }

    /// The desktop after one effect, and the reply to the request that had
    /// the effect.
    pub open spec fn after(self, effect: Effect) -> (DesktopModel, ReplyView) {
        match effect {
            Effect::Setup => (self.set_up(), ReplyView::Done),
            Effect::Create { flags, frame, parent } => (
                self.created(flags, frame, parent).0,
                ReplyView::Handle(self.created(flags, frame, parent).1),
            ),
            Effect::Drive { window, target } => (self.driven(window, target), ReplyView::Done),
            Effect::Retitle { window, title } => (self.retitled(window, title), ReplyView::Done),
            Effect::Length { window } => (self, ReplyView::Length(self.length_reply(window))),
            Effect::Text { window, capacity } => (
                self,
                ReplyView::Text(self.text_reply(window, capacity)),
            ),
            Effect::Retrieve => self.retrieved(),
            Effect::Dispatch => (self.dispatched_current(), ReplyView::Done),
            Effect::PostQuit => (self.quit_posted(), ReplyView::Done),
            Effect::Loop => (
                self.looped(),
                if self.has_quit() {
                    ReplyView::Done
                } else {
                    ReplyView::Blocked
                },
            ),
            Effect::Activate => (DesktopModel { active: true, ..self }, ReplyView::Done),
            Effect::Nothing => (self, ReplyView::Done),
        }
    }

    /// The desktop after one request, and the reply to it.
    pub open spec fn step(self, request: RequestView) -> (DesktopModel, ReplyView) {
        self.after(effect_of(request))
    }

    /// The desktop after the requests of `plan` were issued in order, and
    /// whether all of them returned.
    ///
    /// The reply to a retrieval decides how the message loop goes on: the
    /// requests that it calls for are issued next. A request that blocks
    /// does not return, so nothing is issued after it.
    pub open spec fn run(self, plan: Seq<RequestView>) -> (DesktopModel, bool)
        decreases self.pending.len() + posts(plan), plan.len(),
    {
        if plan.len() == 0 {
            (self, true)
        } else {
            let (next, reply) = self.step(plan[0]);
            match reply {
                ReplyView::Blocked => (next, false),
                ReplyView::Message(result) => {
                    proof {
                        lemma_posts_concat(pump_plan(result), plan.drop_first());
                        lemma_posts_pump(result);
                    }
                    next.run(pump_plan(result) + plan.drop_first())
                },
                _ => next.run(plan.drop_first()),
            }
        }
    }
}

/// `quit_index` is the first position of a quit signal.
pub proof fn lemma_quit_index(events: Seq<Event>)
    ensures
        quit_index(events) <= events.len(),
        forall|j: int| 0 <= j < quit_index(events) ==> events[j] != Event::Quit,
        quit_index(events) < events.len() ==> events[quit_index(events) as int] == Event::Quit,
    decreases events.len(),
{
    if events.len() == 0 || events[0] == Event::Quit {
    } else {
        let rest = events.drop_first();
        lemma_quit_index(rest);
        assert forall|j: int| 0 <= j < quit_index(events) implies events[j] != Event::Quit by {
            if j > 0 {
                assert(events[j] == rest[j - 1]);
            }
        }
        if quit_index(events) < events.len() {
            assert(events[quit_index(events) as int] == rest[quit_index(rest) as int]);
        }
    }
}

/// A position that holds the first quit signal is `quit_index`.
pub proof fn lemma_quit_index_at(events: Seq<Event>, n: int)
    requires
        0 <= n <= events.len(),
        forall|j: int| 0 <= j < n ==> events[j] != Event::Quit,
        n < events.len() ==> events[n] == Event::Quit,
    ensures
        quit_index(events) == n,
{
    lemma_quit_index(events);
    let k = quit_index(events) as int;
    if k < n {
        assert(events[k] != Event::Quit);
    } else if k > n {
        assert(events[n] != Event::Quit);
    }
}

/// How one request changes the number of events that the event source
/// holds: a post adds one, a retrieval that returns takes one, and nothing
/// else adds any.
pub proof fn lemma_step_pending(desktop: DesktopModel, request: RequestView)
    ensures
        effect_of(request) is PostQuit ==> desktop.step(request).0.pending.len()
            == desktop.pending.len() + 1,
        desktop.step(request).1 is Message ==> effect_of(request) is Retrieve
            && desktop.step(request).0.pending.len() + 1 == desktop.pending.len(),
        !(effect_of(request) is PostQuit) ==> desktop.step(request).0.pending.len()
            <= desktop.pending.len(),
{
    lemma_quit_index(desktop.pending);
}

/// The numbers of two runs of events in a row are those of the one, then
/// those of the other.
pub proof fn lemma_codes_concat(a: Seq<Event>, b: Seq<Event>)
    ensures
        codes(a + b) == codes(a) + codes(b),
    decreases b.len(),
{
    if b.len() == 0 {
        assert(a + b =~= a);
        assert(codes(a) + codes(b) =~= codes(a));
    } else {
        lemma_codes_concat(a, b.drop_last());
        assert((a + b).drop_last() =~= a + b.drop_last());
        assert((a + b).last() == b.last());
        assert(codes(a + b) =~= codes(a) + codes(b));
    }
}

/// Issuing nothing changes nothing, and returns.
pub proof fn lemma_run_empty(desktop: DesktopModel)
    ensures
        desktop.run(Seq::empty()) == (desktop, true),
{
}

/// A run issues the first request, and goes on as the reply says.
pub proof fn lemma_run_cons(desktop: DesktopModel, first: RequestView, rest: Seq<RequestView>)
    ensures
        desktop.run(seq![first] + rest) == (match desktop.step(first).1 {
            ReplyView::Blocked => (desktop.step(first).0, false),
            ReplyView::Message(result) => desktop.step(first).0.run(pump_plan(result) + rest),
            _ => desktop.step(first).0.run(rest),
        }),
{
    let plan = seq![first] + rest;
    assert(plan[0] == first);
    assert(plan.drop_first() =~= rest);
}

/// A plan of one request that is no retrieval issues it, and returns unless
/// the request blocks.
pub proof fn lemma_run_one(desktop: DesktopModel, request: RequestView)
    requires
        !(effect_of(request) is Retrieve),
    ensures
        desktop.run(seq![request]) == (
            desktop.step(request).0,
            !(desktop.step(request).1 is Blocked),
        ),
{
    assert(seq![request] =~= seq![request] + Seq::<RequestView>::empty());
    lemma_run_cons(desktop, request, Seq::empty());
    lemma_run_empty(desktop.step(request).0);
}

/// The message loop posts no quit signal.
pub proof fn lemma_posts_pump(result: i32)
    ensures
        posts(pump_plan(result)) == 0,
{
    let plan = pump_plan(result);
    if result != 0 {
        reveal_with_fuel(posts, 4);
        assert(plan.drop_first() =~= seq![RequestView::DispatchMessage, RequestView::GetMessage]);
        assert(plan.drop_first().drop_first() =~= seq![RequestView::GetMessage]);
        assert(plan.drop_first().drop_first().drop_first() =~= Seq::<RequestView>::empty());
    }
}

/// The posts of two plans in a row are those of the one and of the other.
pub proof fn lemma_posts_concat(a: Seq<RequestView>, b: Seq<RequestView>)
    ensures
        posts(a + b) == posts(a) + posts(b),
    decreases a.len(),
{
    if a.len() == 0 {
        assert(a + b =~= b);
    } else {
        lemma_posts_concat(a.drop_first(), b);
        assert((a + b).drop_first() =~= a.drop_first() + b);
        assert((a + b)[0] == a[0]);
    }
}

} // verus!
