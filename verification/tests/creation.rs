use os_window::desktop::Desktop;
use os_window::error::WindowError;
use os_window::flags::{CreationFlags, SW_MAIN, SW_TITLEBAR, SW_WINDOWLESS};
use os_window::geometry::Rect;
use os_window::handle::NativeHandle;
use os_window::lifecycle::AppLifecycle;
use os_window::linux;
use os_window::macos;
use os_window::model::Setup;
use os_window::request::{AppCommand, AppSelector, Request};
use os_window::state::WindowState;
use os_window::window::BaseWindow;
use os_window::windows;

fn main_frame() -> Rect {
    Rect::new(0, 0, 800, 600)
}

#[test]
fn main_window_sets_the_application_up_exactly_once_on_windows() {
    let mut app = AppLifecycle::new();
    let mut desktop = Desktop::new(8);
    let mut first = windows::OsWindow::new();
    let mut second = windows::OsWindow::new();
    let flags = CreationFlags::new(SW_MAIN);

    let created = desktop.create(&mut first, main_frame(), flags, NativeHandle::null(), &mut app);
    assert_eq!(created, Ok(NativeHandle::from_addr(1)));
    assert_eq!(desktop.setup(), Setup::Once);
    assert!(app.is_initialized());

    let created = desktop.create(&mut second, main_frame(), flags, NativeHandle::null(), &mut app);
    assert_eq!(created, Ok(NativeHandle::from_addr(2)));
    assert_eq!(desktop.setup(), Setup::Once);
}

#[test]
fn main_window_sets_the_application_up_exactly_once_on_linux() {
    let mut app = AppLifecycle::new();
    let mut desktop = Desktop::new(8);
    let mut first = linux::OsWindow::new();
    let mut second = linux::OsWindow::new();
    let flags = CreationFlags::new(SW_MAIN);
    assert!(desktop.create(&mut first, main_frame(), flags, NativeHandle::null(), &mut app).is_ok());
    assert!(desktop.create(&mut second, main_frame(), flags, NativeHandle::null(), &mut app).is_ok());
    assert_eq!(desktop.setup(), Setup::Once);
}

#[test]
fn main_window_sets_the_application_up_exactly_once_on_macos() {
    let mut app = AppLifecycle::new();
    let mut desktop = Desktop::new(8);
    let mut first = macos::OsWindow::new();
    let mut second = macos::OsWindow::new();
    let flags = CreationFlags::new(SW_MAIN);
    assert!(desktop.create(&mut first, main_frame(), flags, NativeHandle::null(), &mut app).is_ok());
    assert!(desktop.create(&mut second, main_frame(), flags, NativeHandle::null(), &mut app).is_ok());
    assert_eq!(desktop.setup(), Setup::Once);
}

#[test]
fn setup_comes_before_the_allocation() {
    let mut app = AppLifecycle::new();
    let mut window = windows::OsWindow::new();
    let parent = NativeHandle::from_addr(3);
    let plan = window.create(main_frame(), CreationFlags::new(SW_MAIN), parent, &mut app);
    assert_eq!(
        plan,
        vec![
            Request::OleInitialize,
            Request::EngineCreateWindow { flags: SW_MAIN, frame: Some(main_frame()), parent },
        ]
    );

    let mut app = AppLifecycle::new();
    let mut window = linux::OsWindow::new();
    let plan = window.create(main_frame(), CreationFlags::new(SW_MAIN), parent, &mut app);
    assert_eq!(
        plan,
        vec![
            Request::EngineExec { command: AppCommand::Init },
            Request::EngineCreateWindow { flags: SW_MAIN, frame: Some(main_frame()), parent },
        ]
    );
}

#[test]
fn macos_creation_passes_no_parent_on() {
    let mut app = AppLifecycle::new();
    let mut window = macos::OsWindow::new();
    let plan = window.create(
        main_frame(),
        CreationFlags::new(SW_MAIN),
        NativeHandle::from_addr(3),
        &mut app,
    );
    assert_eq!(
        plan,
        vec![
            Request::SendApp { selector: AppSelector::SetActivationPolicyRegular },
            Request::EngineCreateWindow {
                flags: SW_MAIN,
                frame: Some(main_frame()),
                parent: NativeHandle::null(),
            },
        ]
    );
}

#[test]
fn second_main_window_asks_for_no_setup() {
    let mut app = AppLifecycle::new();
    let mut first = linux::OsWindow::new();
    let mut second = linux::OsWindow::new();
    let flags = CreationFlags::new(SW_MAIN | SW_TITLEBAR);
    let _ = first.create(main_frame(), flags, NativeHandle::null(), &mut app);
    let plan = second.create(main_frame(), flags, NativeHandle::null(), &mut app);
    assert_eq!(
        plan,
        vec![Request::EngineCreateWindow {
            flags: SW_MAIN | SW_TITLEBAR,
            frame: Some(main_frame()),
            parent: NativeHandle::null(),
        }]
    );
}

#[test]
fn window_that_is_not_main_leaves_the_setup_alone() {
    let mut app = AppLifecycle::new();
    let mut desktop = Desktop::new(2);
    let mut window = windows::OsWindow::new();
    let created = desktop.create(
        &mut window,
        main_frame(),
        CreationFlags::new(SW_TITLEBAR),
        NativeHandle::null(),
        &mut app,
    );
    assert!(created.is_ok());
    assert_eq!(desktop.setup(), Setup::Never);
    assert!(!app.is_initialized());
}

#[test]
fn zero_sized_geometry_lets_the_platform_choose() {
    let mut app = AppLifecycle::new();
    let mut desktop = Desktop::new(4);
    let empty = Rect::new(0, 0, 0, 0);

    let mut window = windows::OsWindow::new();
    let created = desktop.create(&mut window, empty, CreationFlags::new(0), NativeHandle::null(), &mut app);
    let hwnd = created.expect("a rectangle without area must not fail the creation");
    assert!(!hwnd.is_null());
    assert_eq!(window.get_hwnd(), hwnd);
    assert_eq!(desktop.frame_of(hwnd), None);
    assert_eq!(desktop.state_of(hwnd), Some(WindowState::Hidden));

    let mut window = linux::OsWindow::new();
    let created = desktop.create(&mut window, empty, CreationFlags::new(0), NativeHandle::null(), &mut app);
    assert!(created.is_ok());
    assert_eq!(desktop.frame_of(window.get_hwnd()), None);

    let mut window = macos::OsWindow::new();
    let created = desktop.create(&mut window, empty, CreationFlags::new(0), NativeHandle::null(), &mut app);
    assert!(created.is_ok());
    assert_eq!(desktop.frame_of(window.get_hwnd()), None);
}

#[test]
fn zero_sized_geometry_is_not_passed_on() {
    let mut app = AppLifecycle::new();
    let mut window = macos::OsWindow::new();
    let plan = window.create(
        Rect::new(0, 0, 0, 0),
        CreationFlags::new(SW_TITLEBAR),
        NativeHandle::null(),
        &mut app,
    );
    assert_eq!(
        plan,
        vec![Request::EngineCreateWindow {
            flags: SW_TITLEBAR,
            frame: None,
            parent: NativeHandle::null(),
        }]
    );
}

#[test]
fn negative_extent_lets_the_platform_choose() {
    let mut app = AppLifecycle::new();
    let mut window = windows::OsWindow::new();
    let plan = window.create(
        Rect::new(100, 100, 50, 400),
        CreationFlags::new(0),
        NativeHandle::null(),
        &mut app,
    );
    assert_eq!(
        plan,
        vec![Request::EngineCreateWindow { flags: 0, frame: None, parent: NativeHandle::null() }]
    );
}

#[test]
fn geometry_with_area_is_kept() {
    let mut app = AppLifecycle::new();
    let mut desktop = Desktop::new(1);
    let mut window = linux::OsWindow::new();
    let rc = Rect::new(10, 20, 810, 620);
    let hwnd = desktop
        .create(&mut window, rc, CreationFlags::new(SW_TITLEBAR), NativeHandle::null(), &mut app)
        .unwrap();
    assert_eq!(desktop.frame_of(hwnd), Some(rc));
    assert_eq!(desktop.flags_of(hwnd), Some(SW_TITLEBAR));
}

#[test]
fn flags_are_recorded_and_pass_through_untouched() {
    let mut app = AppLifecycle::new();
    let mut desktop = Desktop::new(1);
    let mut window = windows::OsWindow::new();
    let bits = SW_TITLEBAR | 0x0004 | 0x0010 | 0x0400;
    let hwnd = desktop
        .create(&mut window, main_frame(), CreationFlags::new(bits), NativeHandle::null(), &mut app)
        .unwrap();
    assert_eq!(desktop.flags_of(hwnd), Some(bits));
}

#[test]
fn creation_fails_when_the_engine_answers_null() {
    let mut app = AppLifecycle::new();
    let mut desktop = Desktop::new(0);

    let mut window = windows::OsWindow::new();
    let created = desktop.create(&mut window, main_frame(), CreationFlags::new(0), NativeHandle::null(), &mut app);
    assert_eq!(created, Err(WindowError::AllocationFailed));
    assert!(window.get_hwnd().is_null());

    let mut window = linux::OsWindow::new();
    let created = desktop.create(&mut window, main_frame(), CreationFlags::new(0), NativeHandle::null(), &mut app);
    assert_eq!(created, Err(WindowError::AllocationFailed));

    let mut window = macos::OsWindow::new();
    let created = desktop.create(&mut window, main_frame(), CreationFlags::new(0), NativeHandle::null(), &mut app);
    assert_eq!(created, Err(WindowError::AllocationFailed));
}

#[test]
fn creation_fails_once_the_room_is_used_up() {
    let mut app = AppLifecycle::new();
    let mut desktop = Desktop::new(1);
    let mut first = linux::OsWindow::new();
    let mut second = linux::OsWindow::new();
    assert!(desktop.create(&mut first, main_frame(), CreationFlags::new(0), NativeHandle::null(), &mut app).is_ok());
    assert_eq!(
        desktop.create(&mut second, main_frame(), CreationFlags::new(0), NativeHandle::null(), &mut app),
        Err(WindowError::AllocationFailed)
    );
}

#[test]
fn attach_rejects_the_null_handle() {
    let mut window = macos::OsWindow::from(NativeHandle::from_addr(5));
    assert_eq!(window.attach(NativeHandle::null()), Err(WindowError::AllocationFailed));
    assert!(window.get_hwnd().is_null());
}

#[test]
fn windowless_creation_allocates_nothing() {
    let mut app = AppLifecycle::new();
    let mut desktop = Desktop::new(4);
    let existing = NativeHandle::from_addr(77);
    let mut window = windows::OsWindow::from(existing);
    let flags = CreationFlags::new(SW_MAIN | SW_WINDOWLESS);

    let plan = window.create(main_frame(), flags, NativeHandle::null(), &mut app);
    assert_eq!(plan, vec![Request::OleInitialize]);

    let mut app = AppLifecycle::new();
    let created = desktop.create(&mut window, main_frame(), flags, NativeHandle::null(), &mut app);
    assert_eq!(created, Ok(existing));
    assert_eq!(window.get_hwnd(), existing);
    assert_eq!(desktop.setup(), Setup::Once);
    assert_eq!(desktop.state_of(NativeHandle::from_addr(1)), None);
}

#[test]
fn windowless_creation_of_a_new_window_keeps_the_null_handle() {
    let mut app = AppLifecycle::new();
    let mut desktop = Desktop::new(4);
    let mut window = linux::OsWindow::new();
    let created = desktop.create(
        &mut window,
        main_frame(),
        CreationFlags::new(SW_WINDOWLESS),
        NativeHandle::null(),
        &mut app,
    );
    assert_eq!(created, Ok(NativeHandle::null()));
    assert!(window.get_hwnd().is_null());
}

#[test]
fn lifecycle_is_claimed_by_the_first_only() {
    let mut app = AppLifecycle::new();
    assert!(!app.is_initialized());
    assert!(app.claim());
    assert!(app.is_initialized());
    assert!(!app.claim());
    assert!(!app.claim());
    assert!(app.is_initialized());
}

#[test]
fn flags_read_their_three_bits() {
    let flags = CreationFlags::new(SW_MAIN | SW_TITLEBAR);
    assert!(flags.is_main());
    assert!(flags.has_titlebar());
    assert!(!flags.is_windowless());
    assert_eq!(flags.bits(), 0x82);
    let flags = CreationFlags::new(SW_WINDOWLESS | 0x0100);
    assert!(!flags.is_main());
    assert!(!flags.has_titlebar());
    assert!(flags.is_windowless());
    let flags = CreationFlags::empty();
    assert_eq!(flags.bits(), 0);
    assert!(!flags.is_main() && !flags.has_titlebar() && !flags.is_windowless());
}

#[test]
fn rectangle_extents_do_not_overflow() {
    let rc = Rect::new(-1, i32::MIN, i32::MAX, i32::MAX);
    assert_eq!(rc.width(), 2_147_483_648);
    assert_eq!(rc.height(), 4_294_967_295);
    assert!(rc.has_area());
    assert_eq!(rc.frame(), Some(rc));
    let rc = Rect::new(i32::MAX, 0, i32::MIN, 10);
    assert_eq!(rc.width(), -4_294_967_295);
    assert!(!rc.has_area());
    assert_eq!(rc.frame(), None);
    let rc = Rect::new(0, 0, 800, 600);
    assert_eq!((rc.width(), rc.height()), (800, 600));
}

#[test]
fn setup_counts_to_repeated() {
    assert_eq!(Setup::Never.again(), Setup::Once);
    assert_eq!(Setup::Once.again(), Setup::Repeated);
    assert_eq!(Setup::Repeated.again(), Setup::Repeated);
}

#[test]
fn unguarded_setup_requests_are_noticed() {
    let mut desktop = Desktop::new(0);
    desktop.perform(&windows::OsWindow::init_app());
    assert_eq!(desktop.setup(), Setup::Once);
    desktop.perform(&linux::OsWindow::init_app());
    assert_eq!(desktop.setup(), Setup::Repeated);
    desktop.perform(&macos::OsWindow::init_app());
    assert_eq!(desktop.setup(), Setup::Repeated);
}

#[test]
fn errors_describe_themselves() {
    assert_eq!(WindowError::AllocationFailed.message(), "Failed to create window!");
    assert_eq!(WindowError::Unsupported.message(), "not supported on this platform");
}
