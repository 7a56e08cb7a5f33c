use egui_winit_platform::cursor::{map_cursor_icon, HostCursorIcon, UiCursorIcon};
use egui_winit_platform::devices::DeviceRegistry;
use egui_winit_platform::keys::{
    filter_printable, is_printable, map_char_key, map_key, map_modifiers, NativeKey,
    NativeModifiers, UiKey,
};

#[test]
fn named_keys_map_to_their_ui_keys() {
    assert_eq!(map_key(NativeKey::Escape), Some(UiKey::Escape));
    assert_eq!(map_key(NativeKey::Insert), Some(UiKey::Insert));
    assert_eq!(map_key(NativeKey::ArrowLeft), Some(UiKey::ArrowLeft));
    assert_eq!(map_key(NativeKey::Enter), Some(UiKey::Enter));
    assert_eq!(map_key(NativeKey::Space), Some(UiKey::Space));
    assert_eq!(map_key(NativeKey::F1), Some(UiKey::F1));
    assert_eq!(map_key(NativeKey::F20), Some(UiKey::F20));
}

#[test]
fn character_keys_map_case_insensitively() {
    assert_eq!(map_key(NativeKey::Character('c')), Some(UiKey::C));
    assert_eq!(map_key(NativeKey::Character('C')), Some(UiKey::C));
    assert_eq!(map_key(NativeKey::Character('0')), Some(UiKey::Num0));
    assert_eq!(map_char_key('-'), Some(UiKey::Minus));
    assert_eq!(map_char_key(' '), Some(UiKey::Space));
    assert_eq!(map_char_key('`'), Some(UiKey::Backtick));
}

#[test]
fn symbolic_character_aliases_map_like_their_ascii_names() {
    assert_eq!(map_char_key('\u{2212}'), Some(UiKey::Minus));
    assert_eq!(map_char_key('\u{23f4}'), Some(UiKey::ArrowLeft));
    assert_eq!(map_char_key('\u{23f5}'), Some(UiKey::ArrowRight));
    assert_eq!(map_char_key('\u{23f6}'), Some(UiKey::ArrowUp));
    assert_eq!(map_char_key('\u{23f7}'), Some(UiKey::ArrowDown));
    assert_eq!(map_key(NativeKey::Character('\u{2212}')), Some(UiKey::Minus));
}

#[test]
fn unmapped_keys_yield_no_key_not_an_error() {
    assert_eq!(map_key(NativeKey::Unidentified), None);
    assert_eq!(map_key(NativeKey::Character('§')), None);
    assert_eq!(map_char_key('\u{e9}'), None);
}

#[test]
fn modifiers_map_independently() {
    let ctrl_only = NativeModifiers { alt: false, ctrl: true, shift: false, logo: false };
    let m = map_modifiers(ctrl_only, false);
    assert!(m.ctrl);
    assert!(!m.alt);
    assert!(!m.shift);
    let alt_shift = NativeModifiers { alt: true, ctrl: false, shift: true, logo: false };
    let m2 = map_modifiers(alt_shift, false);
    assert!(m2.alt && m2.shift && !m2.ctrl);
}

#[test]
fn command_follows_ctrl_except_on_logo_platforms() {
    let ctrl_only = NativeModifiers { alt: false, ctrl: true, shift: false, logo: false };
    let logo_only = NativeModifiers { alt: false, ctrl: false, shift: false, logo: true };
    let plain = map_modifiers(ctrl_only, false);
    assert!(plain.command && !plain.mac_cmd);
    let plain_logo = map_modifiers(logo_only, false);
    assert!(!plain_logo.command && !plain_logo.mac_cmd);
    let mac_logo = map_modifiers(logo_only, true);
    assert!(mac_logo.command && mac_logo.mac_cmd);
    let mac_ctrl = map_modifiers(ctrl_only, true);
    assert!(!mac_ctrl.command && !mac_ctrl.mac_cmd && mac_ctrl.ctrl);
}

#[test]
fn every_visible_cursor_icon_has_a_host_shape() {
    let visible = [
        UiCursorIcon::Standard,
        UiCursorIcon::ContextMenu,
        UiCursorIcon::Help,
        UiCursorIcon::PointingHand,
        UiCursorIcon::Progress,
        UiCursorIcon::Wait,
        UiCursorIcon::Cell,
        UiCursorIcon::Crosshair,
        UiCursorIcon::Text,
        UiCursorIcon::VerticalText,
        UiCursorIcon::Alias,
        UiCursorIcon::Duplicate,
        UiCursorIcon::Move,
        UiCursorIcon::NoDrop,
        UiCursorIcon::NotAllowed,
        UiCursorIcon::Grab,
        UiCursorIcon::Grabbing,
        UiCursorIcon::AllScroll,
        UiCursorIcon::ResizeHorizontal,
        UiCursorIcon::ResizeNeSw,
        UiCursorIcon::ResizeNwSe,
        UiCursorIcon::ResizeVertical,
        UiCursorIcon::ResizeEast,
        UiCursorIcon::ResizeSouthEast,
        UiCursorIcon::ResizeSouth,
        UiCursorIcon::ResizeSouthWest,
        UiCursorIcon::ResizeWest,
        UiCursorIcon::ResizeNorthWest,
        UiCursorIcon::ResizeNorth,
        UiCursorIcon::ResizeNorthEast,
        UiCursorIcon::ResizeColumn,
        UiCursorIcon::ResizeRow,
        UiCursorIcon::ZoomIn,
        UiCursorIcon::ZoomOut,
    ];
    for icon in visible {
        assert!(map_cursor_icon(icon).is_some());
    }
    assert_eq!(map_cursor_icon(UiCursorIcon::Hidden), None);
}

#[test]
fn cursor_icon_spot_checks() {
    assert_eq!(map_cursor_icon(UiCursorIcon::Standard), Some(HostCursorIcon::Standard));
    assert_eq!(map_cursor_icon(UiCursorIcon::PointingHand), Some(HostCursorIcon::Pointer));
    assert_eq!(
        map_cursor_icon(UiCursorIcon::ResizeHorizontal),
        Some(HostCursorIcon::EwResize)
    );
    assert_eq!(map_cursor_icon(UiCursorIcon::ResizeColumn), Some(HostCursorIcon::ColResize));
}

#[test]
fn printable_filter_drops_control_and_private_use() {
    assert!(is_printable('a'));
    assert!(is_printable(' '));
    assert!(!is_printable('\u{7}'));
    assert!(!is_printable('\u{7f}'));
    assert!(!is_printable('\u{e000}'));
    assert!(!is_printable('\u{f8ff}'));
    assert!(!is_printable('\u{f0000}'));
    assert!(!is_printable('\u{100000}'));
    assert!(is_printable('\u{e9}'));
    let kept = filter_printable("a\u{7f}b\u{e000}c");
    assert_eq!(kept, vec!['a', 'b', 'c']);
}

#[test]
fn device_indices_are_dense_stable_and_start_at_one() {
    let mut reg = DeviceRegistry::new();
    assert_eq!(reg.resolve(0xdead), 1);
    assert_eq!(reg.resolve(0xbeef), 2);
    assert_eq!(reg.resolve(0xdead), 1);
    assert_eq!(reg.resolve(0xbeef), 2);
    assert_eq!(reg.resolve(7), 3);
    assert_eq!(reg.len(), 3);
}
