use egui_winit_platform::events::{
    NativeButton, NativeEvent, NativeTouch, NativeTouchPhase, ScrollDelta, UiButton,
    UiEvent, UiTouchPhase,
};
use egui_winit_platform::keys::{NativeKey, NativeModifiers};
use egui_winit_platform::platform::{Platform, PlatformDescriptor};

fn new_platform() -> Platform {
    Platform::new(PlatformDescriptor {
        physical_width: 800,
        physical_height: 600,
        scale_milli: 1000,
        mac_mode: false,
    })
}

fn touch(device: u64, id: u64, phase: NativeTouchPhase, x: i32, y: i32) -> NativeEvent {
    NativeEvent::Touch {
        touch: NativeTouch { device, id, phase, x_milli: x, y_milli: y, force_milli: None },
    }
}

fn ctrl_down() -> NativeEvent {
    NativeEvent::ModifiersChanged {
        modifiers: NativeModifiers { alt: false, ctrl: true, shift: false, logo: false },
    }
}

#[test]
fn wheel_line_delta_scales_by_line_height() {
    let mut p = new_platform();
    p.handle_event(&NativeEvent::MouseWheel {
        delta: ScrollDelta::Lines { x_milli: 1000, y_milli: 2000 },
    });
    let input = p.begin_frame();
    assert_eq!(input.events, vec![UiEvent::Scroll { x_milli: 8000, y_milli: 16000 }]);
}

#[test]
fn wheel_with_command_modifier_zooms_instead_of_scrolling() {
    let mut p = new_platform();
    p.handle_event(&ctrl_down());
    p.handle_event(&NativeEvent::MouseWheel {
        delta: ScrollDelta::Lines { x_milli: 1000, y_milli: 2000 },
    });
    let input = p.begin_frame();
    assert_eq!(input.events, vec![UiEvent::Zoom { y_milli: 16000 }]);
}

#[test]
fn wheel_pixel_delta_is_used_as_is() {
    let mut p = new_platform();
    p.handle_event(&NativeEvent::MouseWheel {
        delta: ScrollDelta::Pixels { x_milli: 500, y_milli: -250 },
    });
    let input = p.begin_frame();
    assert_eq!(input.events, vec![UiEvent::Scroll { x_milli: 500, y_milli: -250 }]);
}

#[test]
fn inverted_horizontal_platform_negates_wheel_x() {
    let mut p = Platform::new(PlatformDescriptor {
        physical_width: 800,
        physical_height: 600,
        scale_milli: 1000,
        mac_mode: true,
    });
    p.handle_event(&NativeEvent::MouseWheel {
        delta: ScrollDelta::Lines { x_milli: 1000, y_milli: 2000 },
    });
    let input = p.begin_frame();
    assert_eq!(input.events, vec![UiEvent::Scroll { x_milli: -8000, y_milli: 16000 }]);
}

#[test]
fn ctrl_c_emits_exactly_one_copy_event_and_no_key_event() {
    let mut p = new_platform();
    p.handle_event(&ctrl_down());
    let r = p.handle_event(&NativeEvent::KeyboardInput {
        key: NativeKey::Character('c'),
        pressed: true,
        text: Some("c".to_string()),
    });
    assert!(!r.wants_clipboard);
    let input = p.begin_frame();
    assert_eq!(input.events, vec![UiEvent::CopyText]);
}

#[test]
fn ctrl_x_emits_a_cut_event() {
    let mut p = new_platform();
    p.handle_event(&ctrl_down());
    p.handle_event(&NativeEvent::KeyboardInput {
        key: NativeKey::Character('x'),
        pressed: true,
        text: None,
    });
    let input = p.begin_frame();
    assert_eq!(input.events, vec![UiEvent::CutText]);
}

#[test]
fn ctrl_v_requests_the_clipboard_and_queues_nothing_itself() {
    let mut p = new_platform();
    p.handle_event(&ctrl_down());
    let r = p.handle_event(&NativeEvent::KeyboardInput {
        key: NativeKey::Character('v'),
        pressed: true,
        text: None,
    });
    assert!(r.wants_clipboard);
    p.push_pasted_text("hello");
    let input = p.begin_frame();
    assert_eq!(input.events, vec![UiEvent::Text { text: vec!['h', 'e', 'l', 'l', 'o'] }]);
}

#[test]
fn plain_key_press_emits_text_and_key_events() {
    let mut p = new_platform();
    p.handle_event(&NativeEvent::KeyboardInput {
        key: NativeKey::Character('a'),
        pressed: true,
        text: Some("a".to_string()),
    });
    let input = p.begin_frame();
    assert_eq!(input.events.len(), 2);
    assert_eq!(input.events[0], UiEvent::Text { text: vec!['a'] });
    match &input.events[1] {
        UiEvent::Key { key, pressed, repeat, .. } => {
            assert_eq!(*key, egui_winit_platform::keys::UiKey::A);
            assert!(*pressed);
            assert!(!*repeat);
        }
        other => panic!("expected a key event, got {:?}", other),
    }
}

#[test]
fn private_use_area_text_yields_no_text_event() {
    let mut p = new_platform();
    p.handle_event(&NativeEvent::KeyboardInput {
        key: NativeKey::Unidentified,
        pressed: true,
        text: Some("\u{e000}".to_string()),
    });
    let input = p.begin_frame();
    assert_eq!(input.events, Vec::<UiEvent>::new());
}

#[test]
fn key_release_emits_a_key_event_but_no_text() {
    let mut p = new_platform();
    p.handle_event(&NativeEvent::KeyboardInput {
        key: NativeKey::Character('a'),
        pressed: false,
        text: Some("a".to_string()),
    });
    let input = p.begin_frame();
    assert_eq!(input.events.len(), 1);
    assert!(matches!(input.events[0], UiEvent::Key { pressed: false, .. }));
}

#[test]
fn zero_by_zero_resize_is_ignored() {
    let mut p = new_platform();
    p.handle_event(&NativeEvent::Resized { width: 0, height: 0 });
    let input = p.begin_frame();
    let rect = input.screen_rect.expect("initial rectangle kept");
    assert_eq!(rect.width_milli, 800000);
    assert_eq!(rect.height_milli, 600000);
}

#[test]
fn resize_uses_the_current_scale_factor() {
    let mut p = new_platform();
    p.handle_event(&NativeEvent::ScaleFactorChanged { scale_milli: 2000 });
    p.handle_event(&NativeEvent::Resized { width: 400, height: 300 });
    let input = p.begin_frame();
    let rect = input.screen_rect.expect("rectangle set");
    assert_eq!(rect.width_milli, 200000);
    assert_eq!(rect.height_milli, 150000);
}

#[test]
fn button_without_tracked_pointer_is_dropped() {
    let mut p = new_platform();
    p.handle_event(&NativeEvent::CursorLeft);
    p.handle_event(&NativeEvent::MouseInput { button: NativeButton::Left, pressed: true });
    let input = p.begin_frame();
    assert_eq!(input.events, vec![UiEvent::PointerGone]);
}

#[test]
fn button_at_tracked_pointer_position() {
    let mut p = new_platform();
    p.handle_event(&NativeEvent::CursorMoved { x_milli: 100000, y_milli: 50000 });
    p.handle_event(&NativeEvent::MouseInput { button: NativeButton::Right, pressed: true });
    let input = p.begin_frame();
    assert_eq!(input.events.len(), 2);
    match &input.events[1] {
        UiEvent::PointerButton { pos, button, pressed } => {
            assert_eq!(pos.x_milli, 100000);
            assert_eq!(pos.y_milli, 50000);
            assert_eq!(*button, UiButton::Secondary);
            assert!(*pressed);
        }
        other => panic!("expected a button event, got {:?}", other),
    }
}

#[test]
fn fourth_button_is_ignored() {
    let mut p = new_platform();
    p.handle_event(&NativeEvent::MouseInput { button: NativeButton::Other, pressed: true });
    let input = p.begin_frame();
    assert_eq!(input.events, Vec::<UiEvent>::new());
}

#[test]
fn cursor_moved_scales_position() {
    let mut p = new_platform();
    p.handle_event(&NativeEvent::ScaleFactorChanged { scale_milli: 2000 });
    p.handle_event(&NativeEvent::CursorMoved { x_milli: 100000, y_milli: 50000 });
    let input = p.begin_frame();
    assert_eq!(input.events, vec![UiEvent::PointerMoved {
        pos: egui_winit_platform::events::LogicalPos { x_milli: 50000, y_milli: 25000 },
    }]);
}

#[test]
fn touch_tap_emits_the_exact_event_order() {
    let mut p = new_platform();
    p.handle_event(&touch(9, 1, NativeTouchPhase::Started, 10000, 20000));
    p.handle_event(&touch(9, 1, NativeTouchPhase::Ended, 11000, 21000));
    let input = p.begin_frame();
    assert_eq!(input.events.len(), 5);
    assert!(matches!(
        input.events[0],
        UiEvent::Touch { device_index: 1, touch_id: 1, phase: UiTouchPhase::Start, .. }
    ));
    assert!(matches!(
        input.events[1],
        UiEvent::PointerButton { button: UiButton::Primary, pressed: true, .. }
    ));
    assert!(matches!(
        input.events[2],
        UiEvent::Touch { device_index: 1, touch_id: 1, phase: UiTouchPhase::End, .. }
    ));
    assert!(matches!(
        input.events[3],
        UiEvent::PointerButton { button: UiButton::Primary, pressed: false, .. }
    ));
    assert!(matches!(input.events[4], UiEvent::PointerGone));
}

#[test]
fn multi_touch_keeps_the_pointer_pressed_until_the_last_lift() {
    let mut p = new_platform();
    p.handle_event(&touch(9, 1, NativeTouchPhase::Started, 0, 0));
    p.handle_event(&touch(9, 2, NativeTouchPhase::Started, 1000, 1000));
    p.handle_event(&touch(9, 1, NativeTouchPhase::Ended, 0, 0));
    let input = p.begin_frame();
    let presses = input
        .events
        .iter()
        .filter(|e| matches!(e, UiEvent::PointerButton { pressed: true, .. }))
        .count();
    let releases = input
        .events
        .iter()
        .filter(|e| matches!(e, UiEvent::PointerButton { pressed: false, .. }))
        .count();
    assert_eq!(presses, 1);
    assert_eq!(releases, 0);
    let mut p2 = p;
    p2.handle_event(&touch(9, 2, NativeTouchPhase::Ended, 1000, 1000));
    let input2 = p2.begin_frame();
    assert!(matches!(
        input2.events[1],
        UiEvent::PointerButton { button: UiButton::Primary, pressed: false, .. }
    ));
    assert!(matches!(input2.events[2], UiEvent::PointerGone));
}

#[test]
fn touch_move_while_active_emits_pointer_moved() {
    let mut p = new_platform();
    p.handle_event(&touch(9, 1, NativeTouchPhase::Started, 0, 0));
    p.handle_event(&touch(9, 1, NativeTouchPhase::Moved, 3000, 4000));
    let input = p.begin_frame();
    assert!(matches!(input.events[2], UiEvent::Touch { phase: UiTouchPhase::Move, .. }));
    assert!(matches!(
        input.events[3],
        UiEvent::PointerMoved { pos } if pos.x_milli == 3000 && pos.y_milli == 4000
    ));
    assert_eq!(input.events.len(), 4);
}

#[test]
fn unbalanced_touch_end_is_clamped_with_a_diagnostic() {
    let mut p = new_platform();
    let r = p.handle_event(&touch(9, 1, NativeTouchPhase::Ended, 0, 0));
    assert!(r.touch_underflow);
    let r2 = p.handle_event(&touch(9, 1, NativeTouchPhase::Ended, 0, 0));
    assert!(r2.touch_underflow);
    let input = p.begin_frame();
    assert_eq!(input.events.len(), 2);
    assert!(input.events.iter().all(|e| matches!(e, UiEvent::Touch { .. })));
}

#[test]
fn touch_devices_get_stable_dense_indices() {
    let mut p = new_platform();
    p.handle_event(&touch(100, 1, NativeTouchPhase::Started, 0, 0));
    p.handle_event(&touch(200, 2, NativeTouchPhase::Moved, 0, 0));
    p.handle_event(&touch(100, 1, NativeTouchPhase::Ended, 0, 0));
    let input = p.begin_frame();
    let indices: Vec<u64> = input
        .events
        .iter()
        .filter_map(|e| match e {
            UiEvent::Touch { device_index, .. } => Some(*device_index),
            _ => None,
        })
        .collect();
    assert_eq!(indices, vec![1, 2, 1]);
}

#[test]
fn touch_force_defaults_to_zero_when_unreported() {
    let mut p = new_platform();
    p.handle_event(&NativeEvent::Touch {
        touch: NativeTouch {
            device: 1,
            id: 1,
            phase: NativeTouchPhase::Started,
            x_milli: 0,
            y_milli: 0,
            force_milli: Some(750),
        },
    });
    p.handle_event(&touch(1, 2, NativeTouchPhase::Started, 0, 0));
    let input = p.begin_frame();
    assert!(matches!(input.events[0], UiEvent::Touch { force_milli: 750, .. }));
    assert!(matches!(input.events[2], UiEvent::Touch { force_milli: 0, .. }));
}

#[test]
fn unrecognized_events_are_ignored_without_error() {
    let mut p = new_platform();
    let r = p.handle_event(&NativeEvent::Other);
    assert!(!r.wants_clipboard && !r.touch_underflow);
    let input = p.begin_frame();
    assert_eq!(input.events, Vec::<UiEvent>::new());
}
