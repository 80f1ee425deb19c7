use os_window::desktop::Desktop;
use os_window::error::WindowError;
use os_window::flags::CreationFlags;
use os_window::geometry::Rect;
use os_window::handle::NativeHandle;
use os_window::lifecycle::AppLifecycle;
use os_window::linux;
use os_window::macos;
use os_window::request::{Reply, Request};
use os_window::wide::{from_units, from_wide, to_units, to_wide, wide_len, REPLACEMENT};
use os_window::window::{BaseWindow, TitleStep};
use os_window::windows;

fn open<W: BaseWindow>(desktop: &mut Desktop, window: &mut W) -> NativeHandle {
    let mut app = AppLifecycle::new();
    desktop
        .create(
            window,
            Rect::new(0, 0, 640, 480),
            CreationFlags::new(0),
            NativeHandle::null(),
            &mut app,
        )
        .unwrap()
}

fn round_trip(title: &str) -> String {
    let mut desktop = Desktop::new(1);
    let mut window = windows::OsWindow::new();
    open(&mut desktop, &mut window);
    assert!(desktop.run(window.set_title(title).unwrap()));
    desktop.read_title(window.get_title().unwrap())
}

#[test]
fn title_round_trips_on_windows() {
    assert_eq!(round_trip("Hello"), "Hello");
    assert_eq!(round_trip("a"), "a");
    assert_eq!(round_trip("Grüße, мир, 世界"), "Grüße, мир, 世界");
    assert_eq!(round_trip("clef \u{1D11E} and \u{10FFFF}"), "clef \u{1D11E} and \u{10FFFF}");
    assert_eq!(round_trip("\u{FFFF}\u{E000}\u{D7FF}"), "\u{FFFF}\u{E000}\u{D7FF}");
}

#[test]
fn empty_title_reads_back_empty() {
    assert_eq!(round_trip(""), "");
}

#[test]
fn later_title_replaces_the_earlier() {
    let mut desktop = Desktop::new(1);
    let mut window = windows::OsWindow::new();
    open(&mut desktop, &mut window);
    assert!(desktop.run(window.set_title("a long first title").unwrap()));
    assert!(desktop.run(window.set_title("short").unwrap()));
    assert_eq!(desktop.read_title(window.get_title().unwrap()), "short");
}

#[test]
fn title_ends_at_a_zero_character() {
    assert_eq!(round_trip("ab\0cd"), "ab");
}

#[test]
fn windows_title_goes_out_as_terminated_wide_text() {
    let hwnd = NativeHandle::from_addr(3);
    let mut window = windows::OsWindow::from(hwnd);
    assert_eq!(
        window.set_title("Hi\u{1F600}"),
        Ok(vec![Request::SetWindowText {
            window: hwnd,
            text: vec![0x48, 0x69, 0xD83D, 0xDE00, 0],
        }])
    );
    assert_eq!(window.get_hwnd(), hwnd);
}

#[test]
fn windows_reads_a_title_in_three_steps() {
    let mut desktop = Desktop::new(1);
    let mut window = windows::OsWindow::new();
    let hwnd = open(&mut desktop, &mut window);
    assert!(desktop.run(window.set_title("Title").unwrap()));

    let first = window.get_title();
    assert_eq!(first, Ok(TitleStep::Ask(Request::GetWindowTextLength { window: hwnd })));
    let length = desktop.perform(&Request::GetWindowTextLength { window: hwnd });
    assert_eq!(length, Reply::Length(5));

    let second = windows::OsWindow::title_buffer(hwnd, 5);
    assert_eq!(second, Request::GetWindowText { window: hwnd, capacity: 6 });
    let buffer = desktop.perform(&second);
    assert_eq!(buffer, Reply::Text(vec![0x54, 0x69, 0x74, 0x6C, 0x65, 0]));

    assert_eq!(windows::OsWindow::title_text(&[0x54, 0x69, 0x74, 0x6C, 0x65, 0]), "Title");
}

#[test]
fn buffer_has_room_for_the_text_and_its_terminator() {
    assert_eq!(windows::OsWindow::title_capacity(0), 1);
    assert_eq!(windows::OsWindow::title_capacity(5), 6);
    assert_eq!(windows::OsWindow::title_capacity(i32::MAX - 1), i32::MAX);
    assert_eq!(windows::OsWindow::title_capacity(i32::MAX), i32::MAX);
    assert_eq!(windows::OsWindow::title_capacity(-1), 1);
    assert_eq!(windows::OsWindow::title_capacity(i32::MIN), 1);
}

#[test]
fn short_buffer_cuts_the_title() {
    let mut desktop = Desktop::new(1);
    let mut window = windows::OsWindow::new();
    let hwnd = open(&mut desktop, &mut window);
    assert!(desktop.run(window.set_title("Title").unwrap()));
    assert_eq!(
        desktop.perform(&Request::GetWindowText { window: hwnd, capacity: 3 }),
        Reply::Text(vec![0x54, 0x69, 0])
    );
    assert_eq!(
        desktop.perform(&Request::GetWindowText { window: hwnd, capacity: 1 }),
        Reply::Text(vec![0])
    );
    assert_eq!(
        desktop.perform(&Request::GetWindowText { window: hwnd, capacity: 0 }),
        Reply::Text(vec![])
    );
}

#[test]
fn closed_window_has_no_title_to_read() {
    let mut desktop = Desktop::new(1);
    let mut window = windows::OsWindow::new();
    let hwnd = open(&mut desktop, &mut window);
    assert!(desktop.run(window.set_title("Title").unwrap()));
    assert!(desktop.run(window.dismiss()));
    assert_eq!(desktop.perform(&Request::GetWindowTextLength { window: hwnd }), Reply::Length(0));
    assert_eq!(desktop.read_title(window.get_title().unwrap()), "");
    assert!(desktop.run(window.set_title("Other").unwrap()));
    assert_eq!(desktop.title_of(hwnd), Some(String::from("Title")));
}

#[test]
fn linux_declares_titles_unsupported() {
    let mut window = linux::OsWindow::from(NativeHandle::from_addr(1));
    assert_eq!(window.get_title(), Err(WindowError::Unsupported));
    assert_eq!(window.set_title("Hello"), Err(WindowError::Unsupported));
    assert_eq!(window.get_title(), Err(WindowError::Unsupported));
    assert_eq!(window.get_hwnd(), NativeHandle::from_addr(1));
}

#[test]
fn macos_title_reads_empty() {
    let mut desktop = Desktop::new(1);
    let mut window = macos::OsWindow::new();
    let view = open(&mut desktop, &mut window);
    assert_eq!(window.get_title(), Ok(TitleStep::Title(String::new())));

    assert_eq!(
        window.set_title("Hello"),
        Ok(vec![Request::SendTitle { view, title: String::from("Hello") }])
    );
    assert!(desktop.run(window.set_title("Hello").unwrap()));
    assert_eq!(desktop.title_of(view), Some(String::from("Hello")));
    assert_eq!(desktop.read_title(window.get_title().unwrap()), "");
    assert_eq!(desktop.title_of(view), Some(String::from("Hello")));
}

#[test]
fn reading_on_from_a_stray_request_gives_nothing() {
    let mut desktop = Desktop::new(1);
    let mut window = windows::OsWindow::new();
    let hwnd = open(&mut desktop, &mut window);
    assert!(desktop.run(window.set_title("Title").unwrap()));
    assert_eq!(desktop.read_title(TitleStep::Ask(Request::GetMessage)), "");
    assert_eq!(desktop.read_title(TitleStep::Title(String::from("known"))), "known");
    assert_eq!(desktop.title_of(hwnd), Some(String::from("Title")));
}

#[test]
fn title_of_an_unknown_window_is_absent() {
    let desktop = Desktop::new(1);
    assert_eq!(desktop.title_of(NativeHandle::from_addr(1)), None);
    assert_eq!(desktop.title_of(NativeHandle::null()), None);
    assert_eq!(desktop.frame_of(NativeHandle::from_addr(1)), None);
    assert_eq!(desktop.flags_of(NativeHandle::from_addr(1)), None);
}

#[test]
fn text_encodes_to_utf16_units() {
    assert_eq!(to_units(""), Vec::<u16>::new());
    assert_eq!(to_units("A"), vec![0x41]);
    assert_eq!(to_units("é"), vec![0xE9]);
    assert_eq!(to_units("\u{FFFF}"), vec![0xFFFF]);
    assert_eq!(to_units("\u{10000}"), vec![0xD800, 0xDC00]);
    assert_eq!(to_units("\u{1D11E}"), vec![0xD834, 0xDD1E]);
    assert_eq!(to_units("\u{10FFFF}"), vec![0xDBFF, 0xDFFF]);
    let text = "mixed \u{1F600} text \u{20AC}";
    assert_eq!(to_units(text), text.encode_utf16().collect::<Vec<u16>>());
}

#[test]
fn wide_text_ends_with_a_zero_unit() {
    assert_eq!(to_wide(""), vec![0]);
    assert_eq!(to_wide("Hi"), vec![0x48, 0x69, 0]);
}

#[test]
fn units_decode_to_text() {
    assert_eq!(from_units(&[0x48, 0x69]), "Hi");
    assert_eq!(from_units(&[0x48]), "H");
    assert_eq!(from_units(&[]), "");
    assert_eq!(from_units(&[0xD834, 0xDD1E]), "\u{1D11E}");
    assert_eq!(from_units(&[0xDBFF, 0xDFFF, 0x41]), "\u{10FFFF}A");
    assert_eq!(from_units(&[0, 0x41]), "\0A");
}

#[test]
fn surrogate_without_partner_decodes_to_the_replacement() {
    assert_eq!(REPLACEMENT, '\u{FFFD}');
    assert_eq!(from_units(&[0xD834]), "\u{FFFD}");
    assert_eq!(from_units(&[0xD834, 0x41]), "\u{FFFD}A");
    assert_eq!(from_units(&[0xDD1E, 0xD834]), "\u{FFFD}\u{FFFD}");
    assert_eq!(from_units(&[0xD834, 0xD834, 0xDD1E]), "\u{FFFD}\u{1D11E}");
    let units = [0x61, 0xDC00, 0x62, 0xD800];
    assert_eq!(from_units(&units), String::from_utf16_lossy(&units));
}

#[test]
fn buffer_that_ends_inside_a_pair_decodes_to_the_replacement() {
    assert_eq!(from_wide(&[0x41, 0xD834, 0, 0xDD1E]), "A\u{FFFD}");
}

#[test]
fn wide_text_is_read_up_to_its_terminator() {
    assert_eq!(from_wide(&[0x48, 0x69, 0, 0x41]), "Hi");
    assert_eq!(from_wide(&[0x48, 0x69]), "Hi");
    assert_eq!(from_wide(&[0, 0x48]), "");
    assert_eq!(from_wide(&[]), "");
    assert_eq!(wide_len(&[0x48, 0x69, 0, 0x41, 0]), 2);
    assert_eq!(wide_len(&[0x48, 0x69]), 2);
    assert_eq!(wide_len(&[]), 0);
}

#[test]
fn wide_text_round_trips() {
    for text in ["", "plain", "Grüße", "\u{1F600}\u{1F601}", "a\u{D7FF}b\u{E000}c"] {
        assert_eq!(from_wide(&to_wide(text)), text);
    }
}
