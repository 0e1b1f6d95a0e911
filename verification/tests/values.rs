//! Tests for the supporting value types: geometry, buffers, events,
//! frequencies and versions.

use xplm::draw::Phase;
use xplm::ffi::StringBuffer;
use xplm::frequency::Frequency;
use xplm::menu::Separator;
use xplm::versions::VersionInfo;
use xplm::window::{Cursor, Key, KeyAction, KeyEvent, KeyEventError, ModifierKeys, MouseAction,
    MouseEvent, ScrollEvent};
use xplm::geometry::Point;
use xplm::geometry::Rect;

/// Checks that the as operator truncates values
#[test]
fn test_as_truncate() {
    let x = 0x11223344u32;
    let x8 = x as u8;
    assert_eq!(x8, 0x44u8);
}

#[test]
fn point_accessors() {
    let mut p = Point::from_xy(3, 4);
    assert_eq!(p.x(), 3);
    assert_eq!(p.y(), 4);
    p.set_x(7);
    p.set_y(8);
    assert_eq!(p.into_xy(), (7, 8));
}

#[test]
fn rect_contains_point() {
    let r = Rect::from_left_top_right_bottom(0, 10, 10, 0);
    assert!(r.contains(Point::from_xy(0, 0)));
    assert!(r.contains(Point::from_xy(9, 9)));
    assert!(!r.contains(Point::from_xy(10, 5)));
    assert!(!r.contains(Point::from_xy(5, 10)));
    assert_eq!(r.top(), 10);
    assert_eq!(r.bottom(), 0);
    assert_eq!(r.left(), 0);
    assert_eq!(r.right(), 10);
}

#[test]
fn frequency_hertz_round_trip() {
    let f = Frequency::hertz(121_500_000);
    assert_eq!(f.as_hertz(), 121_500_000);
    let negative = Frequency::hertz(-5);
    assert_eq!(negative.as_hertz(), -5);
}

#[test]
fn string_buffer_starts_zeroed() {
    let buffer = StringBuffer::new(4);
    assert_eq!(buffer.as_bytes(), &[0, 0, 0, 0]);
}

#[test]
fn string_buffer_trims_at_first_null() {
    let mut buffer = StringBuffer::new(8);
    {
        let bytes = buffer.as_bytes_mut();
        bytes[0] = b'h';
        bytes[1] = b'i';
    }
    assert_eq!(buffer.as_str().unwrap(), "hi");
    assert_eq!(buffer.into_string().unwrap(), "hi");
}

#[test]
fn string_buffer_rejects_invalid_encoding() {
    let mut buffer = StringBuffer::new(3);
    {
        let bytes = buffer.as_bytes_mut();
        bytes[0] = 0xff;
        bytes[1] = 0xfe;
    }
    assert!(buffer.as_str().is_err());
    assert!(buffer.into_string().is_err());
}

#[test]
fn string_buffer_full_length_text() {
    let mut buffer = StringBuffer::new(3);
    {
        let bytes = buffer.as_bytes_mut();
        bytes[0] = b'a';
        bytes[1] = b'b';
        bytes[2] = b'c';
    }
    assert_eq!(buffer.into_string().unwrap(), "abc");
}

#[test]
fn key_codes_map_to_keys() {
    assert_eq!(Key::from_xplm(8), Some(Key::Back));
    assert_eq!(Key::from_xplm(65), Some(Key::A));
    assert_eq!(Key::from_xplm(57), Some(Key::Key9));
    assert_eq!(Key::from_xplm(112), Some(Key::F1));
    assert_eq!(Key::from_xplm(189), Some(Key::NumpadEqual));
    assert_eq!(Key::from_xplm(7), None);
    assert_eq!(Key::from_xplm(200), None);
}

#[test]
fn key_event_from_flags() {
    let press = KeyEvent::from_xplm(b'a', 8 | 4, 65).unwrap();
    assert_eq!(press.char(), Some('a'));
    assert_eq!(press.key(), Key::A);
    assert_eq!(press.action(), KeyAction::Press);
    assert!(press.control_pressed());
    assert!(!press.shift_pressed());
    assert!(!press.option_pressed());

    let release = KeyEvent::from_xplm(0, 16 | 1, 38).unwrap();
    assert_eq!(release.char(), None);
    assert_eq!(release.key(), Key::Up);
    assert_eq!(release.action(), KeyAction::Release);
    assert!(release.shift_pressed());
}

#[test]
fn key_event_rejects_bad_inputs() {
    assert_eq!(KeyEvent::from_xplm(b'a', 4, 65).err(), Some(KeyEventError::InvalidFlags(4)));
    assert_eq!(KeyEvent::from_xplm(b'a', 8, 7).err(), Some(KeyEventError::InvalidKey(7)));
}

#[test]
fn mouse_actions_from_status() {
    assert_eq!(MouseAction::from_xplm(1), Some(MouseAction::Down));
    assert_eq!(MouseAction::from_xplm(2), Some(MouseAction::Drag));
    assert_eq!(MouseAction::from_xplm(3), Some(MouseAction::Up));
    assert_eq!(MouseAction::from_xplm(0), None);
}

#[test]
fn mouse_and_scroll_events_carry_fields() {
    let m = MouseEvent::new(Point::from_xy(2, 3), MouseAction::Down);
    assert_eq!(m.position().into_xy(), (2, 3));
    assert_eq!(m.action(), MouseAction::Down);
    let s = ScrollEvent::new(Point::from_xy(4, 5), -1, 2);
    assert_eq!(s.position().into_xy(), (4, 5));
    assert_eq!(s.scroll_x(), -1);
    assert_eq!(s.scroll_y(), 2);
}

#[test]
fn cursor_codes() {
    assert_eq!(Cursor::as_xplm(&Cursor::Default), 0);
    assert_eq!(Cursor::as_xplm(&Cursor::Hidden), 1);
    assert_eq!(Cursor::as_xplm(&Cursor::Arrow), 2);
    assert_eq!(Cursor::default(), Cursor::Default);
}

#[test]
fn drawing_phase_codes() {
    assert_eq!(Phase::AfterPanel.to_xplm(), 40);
    assert_eq!(Phase::AfterGauges.to_xplm(), 45);
    assert_eq!(Phase::AfterWindows.to_xplm(), 50);
    assert_eq!(Phase::AfterLocalMap3D.to_xplm(), 100);
    assert_eq!(Phase::AfterLocalMap2D.to_xplm(), 101);
    assert_eq!(Phase::AfterLocalMapProfile.to_xplm(), 102);
}

#[test]
fn version_info_fields() {
    let v = VersionInfo { xplane_version: 11550, xplm_version: 303, host_id: 1 };
    assert_eq!(v.xplane_version, 11550);
    assert_eq!(v.xplm_version, 303);
    assert_eq!(v.host_id, 1);
    let _separator = Separator;
}

#[test]
fn modifier_keys_from_flags() {
    let all = ModifierKeys::from_flags(1 | 2 | 4);
    assert!(all.shift && all.option && all.control);
    let none = ModifierKeys::from_flags(8);
    assert!(!none.shift && !none.option && !none.control);
}
