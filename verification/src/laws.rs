//! What holds of every backend, proved against the model of the native
//! side.

use crate::flags::CreationFlags;
use crate::geometry::Rect;
use crate::handle::NativeHandle;
use crate::error::WindowError;
use crate::model::{
    codes, effect_of, lemma_codes_concat, lemma_quit_index, lemma_run_cons, lemma_run_empty,
    lemma_run_one, quit_index, DesktopModel,
};
use crate::request::{AppSelector, Backend, Event, ReplyView, RequestView, WindowSelector};
use crate::state::WindowState;
use crate::wide::{encode, lemma_terminated_round_trip, nul_free, terminated};
use crate::window::{
    collapse_plan, creation_parent, creation_plan, dismiss_plan, expand_plan, init_request,
    quit_plan, run_plan, set_title_plan, title_step,
};
use crate::windows::pump_plan;
use vstd::prelude::*;

verus! {

/// The state that `collapse` drives a window toward.
pub open spec fn collapsed(hide: bool) -> WindowState {
    if hide {
        WindowState::Hidden
    } else {
        WindowState::Minimized
    }
}

/// The state that `expand` drives a window toward.
pub open spec fn expanded(maximize: bool) -> WindowState {
    if maximize {
        WindowState::Maximized
    } else {
        WindowState::Shown
    }
}

/// On every backend, collapsing a window drives it to the hidden state or
/// to the minimized state, and to nothing else: all other windows, the
/// application and the event source stay as they are.
pub proof fn law_collapse(
    backend: Backend,
    desktop: DesktopModel,
    window: NativeHandle,
    hide: bool,
)
    ensures
        desktop.run(collapse_plan(backend, window, hide)) == (
            desktop.driven(window, collapsed(hide)),
            true,
        ),
        desktop.is_live(window) ==> desktop.run(collapse_plan(backend, window, hide)).0.state_of(
            window,
        ) == collapsed(hide),
{
    let plan = collapse_plan(backend, window, hide);
    lemma_run_one(desktop, plan[0]);
    assert(plan =~= seq![plan[0]]);
}

/// On every backend, expanding a window drives it to the maximized state
/// or to the shown state. Where the backend has to activate the
/// application for that, it does so for a window with a title bar. Nothing
/// else changes.
pub proof fn law_expand(
    backend: Backend,
    desktop: DesktopModel,
    window: NativeHandle,
    flags: CreationFlags,
    maximize: bool,
)
    ensures
        desktop.run(expand_plan(backend, window, flags, maximize)).1,
        desktop.is_live(window) ==> desktop.run(
            expand_plan(backend, window, flags, maximize),
        ).0 == (DesktopModel {
            active: desktop.active || (backend == Backend::MacOs && flags.has_titlebar()),
            ..desktop.driven(window, expanded(maximize))
        }),
        desktop.is_live(window) ==> desktop.run(
            expand_plan(backend, window, flags, maximize),
        ).0.state_of(window) == expanded(maximize),
{
    let plan = expand_plan(backend, window, flags, maximize);
    match backend {
        Backend::MacOs => {
            let activate = RequestView::SendApp {
                selector: AppSelector::ActivateIgnoringOtherApps,
            };
            let front = RequestView::SendWindow {
                view: window,
                selector: WindowSelector::MakeKeyAndOrderFront,
            };
            let zoom = RequestView::SendWindow { view: window, selector: WindowSelector::PerformZoom };
            let start = if flags.has_titlebar() {
                DesktopModel { active: true, ..desktop }
            } else {
                desktop
            };
            let shown = start.driven(window, WindowState::Shown);
            let tail = if maximize {
                seq![zoom]
            } else {
                Seq::empty()
            };
            if flags.has_titlebar() {
                assert(plan =~= seq![activate] + (seq![front] + tail));
                lemma_run_cons(desktop, activate, seq![front] + tail);
            } else {
                assert(plan =~= seq![front] + tail);
            }
            lemma_run_cons(start, front, tail);
            if maximize {
                lemma_run_one(shown, zoom);
                if desktop.is_live(window) {
                    assert(shown.driven(window, WindowState::Maximized).windows
                        =~= start.driven(window, WindowState::Maximized).windows);
                }
            } else {
                lemma_run_empty(shown);
            }
        },
        _ => {
            lemma_run_one(desktop, plan[0]);
            assert(plan =~= seq![plan[0]]);
        },
    }
}

/// On every backend, dismissing a window closes it, and does nothing to
/// the event source: the event loop goes on until it is told to quit.
pub proof fn law_dismiss(backend: Backend, desktop: DesktopModel, window: NativeHandle)
    ensures
        desktop.run(dismiss_plan(backend, window)) == (
            desktop.driven(window, WindowState::Closed),
            true,
        ),
        desktop.knows(window) ==> desktop.run(dismiss_plan(backend, window)).0.state_of(window)
            == WindowState::Closed,
        desktop.run(dismiss_plan(backend, window)).0.pending == desktop.pending,
{
    let plan = dismiss_plan(backend, window);
    lemma_run_one(desktop, plan[0]);
    assert(plan =~= seq![plan[0]]);
}

/// No request brings a closed window back.
pub proof fn law_closed_is_final(
    desktop: DesktopModel,
    window: NativeHandle,
    request: RequestView,
)
    requires
        desktop.knows(window),
        desktop.state_of(window) == WindowState::Closed,
    ensures
        desktop.step(request).0.knows(window),
        desktop.step(request).0.state_of(window) == WindowState::Closed,
{
}

/// Hiding a window and then showing it leaves it shown, and maximizing a
/// window leaves it maximized, on every backend.
pub proof fn law_restore(
    backend: Backend,
    desktop: DesktopModel,
    window: NativeHandle,
    flags: CreationFlags,
)
    requires
        desktop.is_live(window),
    ensures
        desktop.run(collapse_plan(backend, window, true)).0.run(
            expand_plan(backend, window, flags, false),
        ).0.state_of(window) == WindowState::Shown,
        desktop.run(expand_plan(backend, window, flags, true)).0.state_of(window)
            == WindowState::Maximized,
{
    law_collapse(backend, desktop, window, true);
    let hidden = desktop.run(collapse_plan(backend, window, true)).0;
    law_expand(backend, hidden, window, flags, false);
    law_expand(backend, desktop, window, flags, true);
}

/// Collapsing twice is collapsing once, and expanding twice is expanding
/// once: the second time changes nothing.
pub proof fn law_idempotent(
    backend: Backend,
    desktop: DesktopModel,
    window: NativeHandle,
    flags: CreationFlags,
    flag: bool,
)
    requires
        desktop.is_live(window),
    ensures
        desktop.run(collapse_plan(backend, window, flag)).0.run(
            collapse_plan(backend, window, flag),
        ).0 == desktop.run(collapse_plan(backend, window, flag)).0,
        desktop.run(expand_plan(backend, window, flags, flag)).0.run(
            expand_plan(backend, window, flags, flag),
        ).0 == desktop.run(expand_plan(backend, window, flags, flag)).0,
{
    law_collapse(backend, desktop, window, flag);
    let once = desktop.run(collapse_plan(backend, window, flag)).0;
    law_collapse(backend, once, window, flag);
    assert(once.driven(window, collapsed(flag)).windows =~= once.windows);
    law_expand(backend, desktop, window, flags, flag);
    let open = desktop.run(expand_plan(backend, window, flags, flag)).0;
    law_expand(backend, open, window, flags, flag);
    assert(open.driven(window, expanded(flag)).windows =~= open.windows);
}

/// The message loop of the Windows backend does what a native loop does.
proof fn lemma_message_loop(desktop: DesktopModel)
    ensures
        desktop.run(seq![RequestView::GetMessage]).1 == desktop.has_quit(),
        desktop.run(seq![RequestView::GetMessage]).0.pending == desktop.looped().pending,
        desktop.run(seq![RequestView::GetMessage]).0.dispatched == desktop.looped().dispatched,
        desktop.run(seq![RequestView::GetMessage]).0.windows == desktop.windows,
        desktop.run(seq![RequestView::GetMessage]).0.setup == desktop.setup,
        desktop.run(seq![RequestView::GetMessage]).0.active == desktop.active,
        desktop.run(seq![RequestView::GetMessage]).0.room == desktop.room,
    decreases desktop.pending.len(),
{
    let get = RequestView::GetMessage;
    let nothing = Seq::<RequestView>::empty();
    assert(seq![get] =~= seq![get] + nothing);
    lemma_run_cons(desktop, get, nothing);
    lemma_quit_index(desktop.pending);
    let k = quit_index(desktop.pending) as int;
    if desktop.pending.len() == 0 {
        assert(desktop.pending.take(0) =~= Seq::<Event>::empty());
        assert(desktop.dispatched + codes(desktop.pending.take(0)) =~= desktop.dispatched);
    } else {
        let next = desktop.retrieved().0;
        let rest = desktop.pending.drop_first();
        match desktop.pending[0] {
            Event::Quit => {
                assert(pump_plan(0) + nothing =~= nothing);
                lemma_run_empty(next);
                assert(desktop.pending.take(0) =~= Seq::<Event>::empty());
                assert(desktop.dispatched + codes(desktop.pending.take(0)) =~= desktop.dispatched);
                assert(desktop.pending.skip(1) =~= rest);
            },
            Event::Input(code) => {
                let translate = RequestView::TranslateMessage;
                let dispatch = RequestView::DispatchMessage;
                assert(pump_plan(1) + nothing =~= seq![translate] + seq![dispatch, get]);
                lemma_run_cons(next, translate, seq![dispatch, get]);
                assert(seq![dispatch, get] =~= seq![dispatch] + seq![get]);
                lemma_run_cons(next, dispatch, seq![get]);
                let then = next.dispatched_current();
                lemma_message_loop(then);
                lemma_quit_index(rest);
                let j = quit_index(rest) as int;
                assert(k == j + 1);
                assert(desktop.pending.take(k) =~= seq![Event::Input(code)] + rest.take(j));
                lemma_codes_concat(seq![Event::Input(code)], rest.take(j));
                assert(seq![Event::Input(code)].drop_last() =~= Seq::<Event>::empty());
                assert(codes(Seq::<Event>::empty()) =~= Seq::<u32>::empty());
                assert(seq![Event::Input(code)].last() == Event::Input(code));
                assert(codes(seq![Event::Input(code)]) =~= seq![code]);
                assert(then.dispatched + codes(rest.take(j)) =~= desktop.dispatched + codes(
                    desktop.pending.take(k),
                ));
                if desktop.has_quit() {
                    assert(rest.skip(j + 1) =~= desktop.pending.skip(k + 1));
                }
            },
        }
    }
}

/// On every backend the event loop returns exactly when the event source
/// holds a quit signal. Until then it dispatches the events in front of the
/// signal, in their order, and no others, and it takes the signal. Where
/// there is no signal it dispatches what there is and does not return.
pub proof fn law_run_until_quit(backend: Backend, desktop: DesktopModel)
    ensures
        desktop.run(run_plan(backend)).1 == desktop.has_quit(),
        desktop.run(run_plan(backend)).0.dispatched == desktop.dispatched + codes(
            desktop.pending.take(quit_index(desktop.pending) as int),
        ),
        desktop.run(run_plan(backend)).0.pending == (if desktop.has_quit() {
            desktop.pending.skip(quit_index(desktop.pending) as int + 1)
        } else {
            Seq::empty()
        }),
        desktop.run(run_plan(backend)).0.windows == desktop.windows,
{
    match backend {
        Backend::Windows => {
            lemma_message_loop(desktop);
        },
        Backend::Linux => {
            lemma_run_one(desktop, run_plan(backend)[0]);
            assert(run_plan(backend) =~= seq![run_plan(backend)[0]]);
        },
        Backend::MacOs => {
            let finish = RequestView::SendApp { selector: AppSelector::FinishLaunching };
            let run = RequestView::SendApp { selector: AppSelector::Run };
            assert(run_plan(backend) =~= seq![finish] + seq![run]);
            lemma_run_cons(desktop, finish, seq![run]);
            lemma_run_one(desktop, run);
        },
    }
}

/// On every backend, quitting posts the quit signal behind the events that
/// the event source holds, and the event loop that runs afterwards
/// returns.
pub proof fn law_quit_ends_run(backend: Backend, desktop: DesktopModel)
    ensures
        desktop.run(quit_plan(backend)) == (desktop.quit_posted(), true),
        desktop.quit_posted().has_quit(),
        desktop.quit_posted().run(run_plan(backend)).1,
{
    lemma_run_one(desktop, quit_plan(backend)[0]);
    assert(quit_plan(backend) =~= seq![quit_plan(backend)[0]]);
    let posted = desktop.quit_posted();
    lemma_quit_index(posted.pending);
    let k = quit_index(posted.pending) as int;
    if k == posted.pending.len() {
        assert(posted.pending[k - 1] == Event::Quit);
    }
    law_run_until_quit(backend, posted);
}

/// On every backend, a creation sets the application up if and only if
/// the window is a main window and the setup has not been claimed before,
/// and it does so before the engine is asked for the window. The engine is
/// asked unless the window does without a native surface. Where the engine
/// has room, its answer is the handle of a new window, which is hidden and
/// was not known before. This holds whatever the rectangle is: one without
/// area is not passed on, and leaves the frame to the native side.
pub proof fn law_creation(
    backend: Backend,
    desktop: DesktopModel,
    rc: Rect,
    flags: CreationFlags,
    parent: NativeHandle,
    initialized: bool,
)
    ensures
        desktop.run(creation_plan(backend, rc, flags, parent, initialized)).1,
        flags.is_windowless() ==> desktop.run(
            creation_plan(backend, rc, flags, parent, initialized),
        ).0 == desktop.prepared(flags, initialized),
        !flags.is_windowless() ==> ({
            let plan = creation_plan(backend, rc, flags, parent, initialized);
            let before = desktop.prepared(flags, initialized);
            let answer = before.created(flags.bits, rc.frame(), creation_parent(backend, parent));
            &&& desktop.run(plan).0 == answer.0
            &&& before.step(plan.last()) == (answer.0, ReplyView::Handle(answer.1))
            &&& answer.1.is_null() == !desktop.has_room()
            &&& desktop.has_room() ==> {
                &&& !desktop.knows(answer.1)
                &&& answer.0.is_live(answer.1)
                &&& answer.0.state_of(answer.1) == WindowState::Hidden
                &&& answer.0.window(answer.1).flags == flags.bits
                &&& answer.0.window(answer.1).frame == if rc.has_area() {
                    Some(rc)
                } else {
                    None
                }
            }
        }),
{
    let plan = creation_plan(backend, rc, flags, parent, initialized);
    let before = desktop.prepared(flags, initialized);
    let init = init_request(backend);
    let create = RequestView::EngineCreateWindow {
        flags: flags.bits,
        frame: rc.frame(),
        parent: creation_parent(backend, parent),
    };
    assert(effect_of(init) is Setup);
    if flags.is_main() && !initialized {
        if flags.is_windowless() {
            assert(plan =~= seq![init]);
            lemma_run_one(desktop, init);
        } else {
            assert(plan =~= seq![init] + seq![create]);
            lemma_run_cons(desktop, init, seq![create]);
            lemma_run_one(before, create);
        }
    } else {
        if flags.is_windowless() {
            assert(plan =~= Seq::<RequestView>::empty());
            lemma_run_empty(desktop);
        } else {
            assert(plan =~= seq![create]);
            lemma_run_one(desktop, create);
        }
    }
}

/// The application is set up once: by the first creation of a main
/// window, and by no creation after it, whatever that one creates.
pub proof fn law_setup_once(
    backend: Backend,
    desktop: DesktopModel,
    rc: Rect,
    flags: CreationFlags,
    parent: NativeHandle,
    later_rc: Rect,
    later_flags: CreationFlags,
    later_parent: NativeHandle,
)
    requires
        flags.is_main(),
    ensures
        desktop.run(creation_plan(backend, rc, flags, parent, false)).0.setup
            == desktop.setup.again(),
        desktop.run(creation_plan(backend, rc, flags, parent, false)).0.run(
            creation_plan(backend, later_rc, later_flags, later_parent, true),
        ).0.setup == desktop.setup.again(),
{
    law_creation(backend, desktop, rc, flags, parent, false);
    let first = desktop.run(creation_plan(backend, rc, flags, parent, false)).0;
    law_creation(backend, first, later_rc, later_flags, later_parent, true);
}

/// On a backend that both sets and reads titles, a title that was set is
/// the title that is read, for every text without the zero character whose
/// code units and terminator fit the native length.
pub proof fn law_title_round_trip(
    backend: Backend,
    desktop: DesktopModel,
    window: NativeHandle,
    title: Seq<char>,
)
    requires
        desktop.is_live(window),
        nul_free(title),
        encode(title).len() < i32::MAX,
        set_title_plan(backend, window, title) is Ok,
        title_step(backend, window) matches Ok(step) && step is Ask,
    ensures
        desktop.run(set_title_plan(backend, window, title)->Ok_0).1,
        desktop.run(set_title_plan(backend, window, title)->Ok_0).0.title_of(window) == encode(
            title,
        ),
        desktop.run(set_title_plan(backend, window, title)->Ok_0).0.title_read(
            title_step(backend, window)->Ok_0,
        ) == title,
{
    assert(backend == Backend::Windows);
    let plan = set_title_plan(backend, window, title)->Ok_0;
    let set = RequestView::SetWindowText { window, text: terminated(title) };
    assert(plan =~= seq![set]);
    lemma_run_one(desktop, set);
    lemma_terminated_round_trip(title);
    let after = desktop.run(plan).0;
    let units = encode(title);
    assert(after.title_of(window) == units);
    let buffer = after.text_reply(window, (units.len() + 1) as i32);
    assert(units.take(units.len() as int) =~= units);
    assert(buffer =~= terminated(title));
}

/// On a backend that has no titles to read, reading a title gives the
/// empty text or the error that says so, and asks nothing of the native
/// side.
pub proof fn law_title_gap(backend: Backend, desktop: DesktopModel, window: NativeHandle)
    requires
        backend != Backend::Windows,
    ensures
        title_step(backend, window) matches Ok(step) ==> step is Title && desktop.title_read(step)
            == Seq::<char>::empty(),
        title_step(backend, window) matches Err(e) ==> e == WindowError::Unsupported,
{
}

} // verus!
