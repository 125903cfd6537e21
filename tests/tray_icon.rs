use std::num::NonZeroIsize;

use raw_window_handle::{RawWindowHandle, WebWindowHandle, Win32WindowHandle};
use tray::event::{WindowId, TRAY_CALLBACK_MSG};
use tray::registrar::{Creation, InitAction, Stage};
use tray::tray::{
    encode_wide, shell_result, tooltip_buffer, Icon, OsError, Tray, TrayBuilder, NIF_ICON, NIF_MESSAGE,
    NIF_TIP, TOOLTIP_CAPACITY,
};
use tray::userdata::WindowTable;

#[test]
fn tooltip_of_128_units_is_rejected() {
    let tray = Tray::new(8);
    let text = "a".repeat(128);
    assert_eq!(tray.set_tooltip(&text).err(), Some(OsError::InputValidation));
    assert_eq!(tooltip_buffer(&text), Err(OsError::InputValidation));
}

#[test]
fn tooltip_of_127_units_is_accepted() {
    let tray = Tray::new(8);
    let text = "b".repeat(127);
    let req = tray.set_tooltip(&text).unwrap();
    assert_eq!(req.window, 8);
    assert_eq!(req.uid, 1);
    assert_eq!(req.flags, NIF_TIP);
    assert_eq!(req.tip.len(), TOOLTIP_CAPACITY);
    assert!(req.tip[..127].iter().all(|&u| u == 'b' as u16));
    assert_eq!(req.tip[127], 0);
}

#[test]
fn tooltip_counts_surrogate_pairs_as_two_units() {
    let text = format!("{}{}", "c".repeat(126), '\u{1F600}');
    assert_eq!(tooltip_buffer(&text), Err(OsError::InputValidation));
    let text = format!("{}{}", "c".repeat(125), '\u{1F600}');
    let buf = tooltip_buffer(&text).unwrap();
    assert_eq!(&buf[125..128], &[0xD83D, 0xDE00, 0]);
}

#[test]
fn empty_tooltip_is_all_zeros() {
    assert_eq!(tooltip_buffer("").unwrap(), vec![0u16; 128]);
}

#[test]
fn encode_wide_appends_terminator() {
    assert_eq!(encode_wide("ab"), vec![97, 98, 0]);
    assert_eq!(encode_wide("\u{e9}\u{1F600}"), vec![0xE9, 0xD83D, 0xDE00, 0]);
}

#[test]
fn icon_and_add_requests() {
    let tray = Tray::new(30);
    assert_eq!(tray.id(), WindowId(30));
    let req = tray.set_icon(Icon::from_handle(77));
    assert_eq!((req.window, req.uid, req.flags, req.icon), (30, 1, NIF_ICON, 77));
    let add = tray.add_request(55);
    assert_eq!(add.flags, NIF_MESSAGE | NIF_ICON);
    assert_eq!(add.callback_msg, TRAY_CALLBACK_MSG);
    assert_eq!(add.icon, 55);
}

#[test]
fn shell_status_maps_to_result() {
    assert_eq!(shell_result(0, 5), Err(OsError::Platform(5)));
    assert_eq!(shell_result(1, 5), Ok(()));
}

#[test]
fn creation_with_unregisterable_class_fails_and_attaches_nothing() {
    let table = WindowTable::new();
    let (mut c, a) = TrayBuilder::new().build().unwrap();
    assert_eq!(a, InitAction::GetModuleHandle);
    assert_eq!(c.advance(0x400000, 0, false), InitAction::RegisterClass);
    assert_eq!(c.advance(0, 1410, false), InitAction::CreateWindow { parent: 0 });
    assert_eq!(c.advance(0, 1407, false), InitAction::Fail(OsError::CreationFailure(1407)));
    assert_eq!(c.stage, Stage::Failed);
    assert!(!table.contains(0));
}

#[test]
fn creation_runs_to_completion_with_icon() {
    let builder = TrayBuilder::new().with_tooltip("hi").with_icon(Icon::from_handle(99));
    let (mut c, _) = builder.build().unwrap();
    assert_eq!(c.title, vec![104, 105, 0]);
    assert_eq!(c.advance(1, 0, false), InitAction::RegisterClass);
    assert_eq!(c.advance(1, 0, false), InitAction::CreateWindow { parent: 0 });
    assert_eq!(c.advance(500, 0, false), InitAction::LoadIcon);
    assert_eq!(c.advance(0, 0, false), InitAction::LoadStockIcon);
    assert_eq!(c.advance(600, 0, false), InitAction::AddIcon { icon: 600 });
    assert_eq!(c.advance(1, 0, false), InitAction::CreatePopupMenu);
    assert_eq!(c.advance(700, 0, false), InitAction::SetMenuInfo { menu: 700 });
    assert_eq!(c.advance(1, 0, false), InitAction::SetIcon { icon: 99 });
    assert_eq!(c.advance(1, 0, false), InitAction::Finish(Tray::new(500)));
    assert_eq!(c.stage, Stage::Done);
}

#[test]
fn creation_without_icon_finishes_after_menu() {
    let (mut c, _) = TrayBuilder::new().build().unwrap();
    let title: Vec<u16> = "rust_systray_window".encode_utf16().chain(std::iter::once(0)).collect();
    assert_eq!(c.title, title);
    c.advance(1, 0, false);
    c.advance(1, 0, false);
    c.advance(12, 0, false);
    assert_eq!(c.advance(13, 0, false), InitAction::AddIcon { icon: 13 });
    c.advance(1, 0, false);
    c.advance(14, 0, false);
    assert_eq!(c.advance(1, 0, false), InitAction::Finish(Tray::new(12)));
}

#[test]
fn creation_panic_is_resumed() {
    let (mut c, _) = TrayBuilder::new().build().unwrap();
    c.advance(1, 0, false);
    c.advance(1, 0, false);
    assert_eq!(c.advance(0, 0, true), InitAction::ResumePanic);
    assert_eq!(c.stage, Stage::Failed);
}

#[test]
fn stock_icon_failure_fails_creation() {
    let (mut c, _) = TrayBuilder::new().build().unwrap();
    c.advance(1, 0, false);
    c.advance(1, 0, false);
    c.advance(5, 0, false);
    c.advance(0, 0, false);
    assert_eq!(c.advance(0, 1813, false), InitAction::Fail(OsError::CreationFailure(1813)));
}

#[test]
fn win32_parent_is_used() {
    let handle = RawWindowHandle::Win32(Win32WindowHandle::new(NonZeroIsize::new(1234).unwrap()));
    let builder = TrayBuilder::new().parent_window(handle);
    assert_eq!(builder.parent_hwnd(), Ok(1234));
    let (c, _) = builder.build().unwrap();
    assert_eq!(c.parent, 1234);
    let mut c: Creation = c;
    c.advance(1, 0, false);
    assert_eq!(c.advance(1, 0, false), InitAction::CreateWindow { parent: 1234 });
}

#[test]
fn foreign_parent_is_rejected() {
    let handle = RawWindowHandle::Web(WebWindowHandle::new(3));
    let builder = TrayBuilder::new().parent_window(handle);
    assert_eq!(builder.parent_hwnd(), Err(OsError::InputValidation));
    assert_eq!(builder.build().err(), Some(OsError::InputValidation));
}
