use os_window::desktop::Desktop;
use os_window::flags::{CreationFlags, SW_TITLEBAR};
use os_window::geometry::Rect;
use os_window::handle::NativeHandle;
use os_window::lifecycle::AppLifecycle;
use os_window::linux;
use os_window::macos;
use os_window::request::{AppSelector, Request, WindowSelector};
use os_window::state::WindowState;
use os_window::window::BaseWindow;
use os_window::windows;

fn open<W: BaseWindow>(desktop: &mut Desktop, window: &mut W, bits: u32) -> NativeHandle {
    let mut app = AppLifecycle::new();
    desktop
        .create(
            window,
            Rect::new(0, 0, 800, 600),
            CreationFlags::new(bits),
            NativeHandle::null(),
            &mut app,
        )
        .unwrap()
}

fn check_lifecycle<W: BaseWindow>(mut window: W, bits: u32) {
    let mut desktop = Desktop::new(2);
    let hwnd = open(&mut desktop, &mut window, bits);
    assert_eq!(desktop.state_of(hwnd), Some(WindowState::Hidden));

    assert!(desktop.run(window.collapse(true)));
    assert_eq!(desktop.state_of(hwnd), Some(WindowState::Hidden));
    assert!(desktop.run(window.expand(false)));
    assert_eq!(desktop.state_of(hwnd), Some(WindowState::Shown));

    assert!(desktop.run(window.expand(true)));
    assert_eq!(desktop.state_of(hwnd), Some(WindowState::Maximized));
    assert!(desktop.run(window.expand(true)));
    assert_eq!(desktop.state_of(hwnd), Some(WindowState::Maximized));

    assert!(desktop.run(window.collapse(false)));
    assert_eq!(desktop.state_of(hwnd), Some(WindowState::Minimized));
    assert!(desktop.run(window.collapse(false)));
    assert_eq!(desktop.state_of(hwnd), Some(WindowState::Minimized));

    assert!(desktop.run(window.expand(false)));
    assert!(desktop.run(window.expand(false)));
    assert_eq!(desktop.state_of(hwnd), Some(WindowState::Shown));

    assert!(desktop.run(window.collapse(true)));
    assert!(desktop.run(window.collapse(true)));
    assert_eq!(desktop.state_of(hwnd), Some(WindowState::Hidden));
}

#[test]
fn collapse_then_expand_restores_the_window_on_windows() {
    check_lifecycle(windows::OsWindow::new(), SW_TITLEBAR);
}

#[test]
fn collapse_then_expand_restores_the_window_on_linux() {
    check_lifecycle(linux::OsWindow::new(), SW_TITLEBAR);
}

#[test]
fn collapse_then_expand_restores_the_window_on_macos() {
    check_lifecycle(macos::OsWindow::new(), SW_TITLEBAR);
    check_lifecycle(macos::OsWindow::new(), 0);
}

fn check_dismiss<W: BaseWindow>(mut window: W) {
    let mut desktop = Desktop::new(2);
    let hwnd = open(&mut desktop, &mut window, 0);
    assert!(desktop.run(window.expand(false)));
    assert!(desktop.run(window.dismiss()));
    assert_eq!(desktop.state_of(hwnd), Some(WindowState::Closed));
    assert_eq!(desktop.pending(), 0);

    assert!(desktop.run(window.expand(true)));
    assert_eq!(desktop.state_of(hwnd), Some(WindowState::Closed));
    assert!(desktop.run(window.collapse(false)));
    assert_eq!(desktop.state_of(hwnd), Some(WindowState::Closed));
}

#[test]
fn dismissed_window_stays_closed() {
    check_dismiss(windows::OsWindow::new());
    check_dismiss(linux::OsWindow::new());
    check_dismiss(macos::OsWindow::new());
}

#[test]
fn one_window_does_not_move_another() {
    let mut desktop = Desktop::new(2);
    let mut first = linux::OsWindow::new();
    let mut second = linux::OsWindow::new();
    let a = open(&mut desktop, &mut first, 0);
    let b = open(&mut desktop, &mut second, 0);
    assert!(a != b);
    assert!(desktop.run(first.expand(true)));
    assert_eq!(desktop.state_of(a), Some(WindowState::Maximized));
    assert_eq!(desktop.state_of(b), Some(WindowState::Hidden));
    assert!(desktop.run(second.dismiss()));
    assert_eq!(desktop.state_of(a), Some(WindowState::Maximized));
    assert_eq!(desktop.state_of(b), Some(WindowState::Closed));
}

#[test]
fn requests_to_an_unknown_window_change_nothing() {
    let mut desktop = Desktop::new(1);
    let stray = windows::OsWindow::from(NativeHandle::from_addr(5));
    assert!(desktop.run(stray.expand(true)));
    assert_eq!(desktop.state_of(NativeHandle::from_addr(5)), None);
    assert_eq!(desktop.state_of(NativeHandle::null()), None);
}

#[test]
fn windows_speaks_in_show_commands() {
    let hwnd = NativeHandle::from_addr(0x1234);
    let window = windows::OsWindow::from(hwnd);
    assert_eq!(window.collapse(true), vec![Request::ShowWindow { window: hwnd, show: 0 }]);
    assert_eq!(window.collapse(false), vec![Request::ShowWindow { window: hwnd, show: 6 }]);
    assert_eq!(window.expand(true), vec![Request::ShowWindow { window: hwnd, show: 3 }]);
    assert_eq!(window.expand(false), vec![Request::ShowWindow { window: hwnd, show: 1 }]);
    assert_eq!(
        window.dismiss(),
        vec![Request::PostMessage { window: hwnd, message: 0x0010, wparam: 0, lparam: 0 }]
    );
}

#[test]
fn linux_speaks_in_engine_states() {
    let hwnd = NativeHandle::from_addr(0x1234);
    let window = linux::OsWindow::from(hwnd);
    let state = |state| vec![Request::EngineSetState { window: hwnd, state }];
    assert_eq!(window.collapse(true), state(WindowState::Hidden));
    assert_eq!(window.collapse(false), state(WindowState::Minimized));
    assert_eq!(window.expand(true), state(WindowState::Maximized));
    assert_eq!(window.expand(false), state(WindowState::Shown));
    assert_eq!(window.dismiss(), state(WindowState::Closed));
}

#[test]
fn macos_speaks_in_messages() {
    let view = NativeHandle::from_addr(0x1234);
    let window = macos::OsWindow::from(view);
    let send = |selector| Request::SendWindow { view, selector };
    assert_eq!(window.collapse(true), vec![send(WindowSelector::OrderOut)]);
    assert_eq!(window.collapse(false), vec![send(WindowSelector::PerformMiniaturize)]);
    assert_eq!(window.expand(false), vec![send(WindowSelector::MakeKeyAndOrderFront)]);
    assert_eq!(
        window.expand(true),
        vec![send(WindowSelector::MakeKeyAndOrderFront), send(WindowSelector::PerformZoom)]
    );
    assert_eq!(window.dismiss(), vec![send(WindowSelector::Close)]);
    assert_eq!(window.window(WindowSelector::Close), send(WindowSelector::Close));
}

#[test]
fn macos_activates_the_application_for_a_window_with_title_bar() {
    let mut desktop = Desktop::new(2);
    let mut bare = macos::OsWindow::new();
    let mut titled = macos::OsWindow::new();
    open(&mut desktop, &mut bare, 0);
    let view = open(&mut desktop, &mut titled, SW_TITLEBAR);

    assert!(desktop.run(bare.expand(false)));
    assert!(!desktop.is_active());

    assert_eq!(
        titled.expand(true),
        vec![
            Request::SendApp { selector: AppSelector::ActivateIgnoringOtherApps },
            Request::SendWindow { view, selector: WindowSelector::MakeKeyAndOrderFront },
            Request::SendWindow { view, selector: WindowSelector::PerformZoom },
        ]
    );
    assert!(desktop.run(titled.expand(false)));
    assert!(desktop.is_active());
}

#[test]
fn other_backends_never_activate_the_application() {
    let mut desktop = Desktop::new(2);
    let mut window = windows::OsWindow::new();
    open(&mut desktop, &mut window, SW_TITLEBAR);
    assert!(desktop.run(window.expand(false)));
    assert!(!desktop.is_active());
}

#[test]
fn unknown_show_commands_and_messages_are_left_alone() {
    let mut desktop = Desktop::new(1);
    let mut window = windows::OsWindow::new();
    let hwnd = open(&mut desktop, &mut window, 0);
    desktop.perform(&Request::ShowWindow { window: hwnd, show: 9 });
    assert_eq!(desktop.state_of(hwnd), Some(WindowState::Hidden));
    desktop.perform(&Request::PostMessage { window: hwnd, message: 0x0011, wparam: 0, lparam: 0 });
    assert_eq!(desktop.state_of(hwnd), Some(WindowState::Hidden));
}

#[test]
fn state_is_driven_toward_a_target_unless_closed() {
    assert_eq!(WindowState::Hidden.toward(WindowState::Shown), WindowState::Shown);
    assert_eq!(WindowState::Maximized.toward(WindowState::Closed), WindowState::Closed);
    assert_eq!(WindowState::Closed.toward(WindowState::Shown), WindowState::Closed);
    assert!(WindowState::Minimized.is_live());
    assert!(!WindowState::Closed.is_live());
}
