use egui_winit_platform::cursor::{HostCursorIcon, UiCursorIcon};
use egui_winit_platform::events::{NativeEvent, UiEvent};
use egui_winit_platform::platform::{
    capture_query, CaptureQuery, CursorAction, FrameOutput, Platform, PlatformDescriptor,
};

fn new_platform() -> Platform {
    Platform::new(PlatformDescriptor {
        physical_width: 1920,
        physical_height: 1080,
        scale_milli: 1500,
        mac_mode: false,
    })
}

#[test]
fn initial_screen_rect_is_scaled() {
    let mut p = new_platform();
    let input = p.begin_frame();
    let rect = input.screen_rect.expect("rectangle set at construction");
    assert_eq!(rect.width_milli, 1280000);
    assert_eq!(rect.height_milli, 720000);
}

#[test]
fn begin_frame_hands_events_over_exactly_once() {
    let mut p = new_platform();
    p.handle_event(&NativeEvent::CursorLeft);
    let first = p.begin_frame();
    assert_eq!(first.events, vec![UiEvent::PointerGone]);
    let second = p.begin_frame();
    assert_eq!(second.events, Vec::<UiEvent>::new());
    assert_eq!(second.screen_rect, None);
}

#[test]
fn update_time_is_delivered_then_cleared() {
    let mut p = new_platform();
    p.update_time(123456);
    let first = p.begin_frame();
    assert_eq!(first.time_micros, Some(123456));
    let second = p.begin_frame();
    assert_eq!(second.time_micros, None);
}

#[test]
fn raw_input_mut_lets_callers_inject_events() {
    let mut p = new_platform();
    p.raw_input_mut().events.push(UiEvent::CopyText);
    let input = p.begin_frame();
    assert_eq!(input.events, vec![UiEvent::CopyText]);
}

#[test]
fn end_frame_sets_the_cursor_while_the_pointer_is_inside() {
    let p = new_platform();
    let actions = p.end_frame_actions(FrameOutput {
        cursor_icon: UiCursorIcon::PointingHand,
        copied_text: String::new(),
        open_url: None,
    });
    assert_eq!(
        actions.cursor,
        CursorAction::Show { shape: HostCursorIcon::Pointer, set_shape: true }
    );
    assert_eq!(actions.clipboard_write, None);
    assert_eq!(actions.open_url, None);
}

#[test]
fn end_frame_shows_but_does_not_set_the_cursor_outside() {
    let mut p = new_platform();
    p.handle_event(&NativeEvent::CursorLeft);
    let actions = p.end_frame_actions(FrameOutput {
        cursor_icon: UiCursorIcon::Standard,
        copied_text: String::new(),
        open_url: None,
    });
    assert_eq!(
        actions.cursor,
        CursorAction::Show { shape: HostCursorIcon::Standard, set_shape: false }
    );
}

#[test]
fn end_frame_hides_the_cursor_for_the_hidden_intent() {
    let p = new_platform();
    let actions = p.end_frame_actions(FrameOutput {
        cursor_icon: UiCursorIcon::Hidden,
        copied_text: String::new(),
        open_url: None,
    });
    assert_eq!(actions.cursor, CursorAction::Hide);
}

#[test]
fn end_frame_writes_only_nonempty_copied_text() {
    let p = new_platform();
    let actions = p.end_frame_actions(FrameOutput {
        cursor_icon: UiCursorIcon::Standard,
        copied_text: "copied".to_string(),
        open_url: Some("https://example.invalid/doc".to_string()),
    });
    assert_eq!(actions.clipboard_write, Some("copied".to_string()));
    assert_eq!(actions.open_url, Some("https://example.invalid/doc".to_string()));
}

#[test]
fn capture_queries_follow_the_event_kind() {
    assert_eq!(
        capture_query(&NativeEvent::KeyboardInput {
            key: egui_winit_platform::keys::NativeKey::Unidentified,
            pressed: true,
            text: None,
        }),
        CaptureQuery::WantsKeyboard
    );
    assert_eq!(
        capture_query(&NativeEvent::MouseInput {
            button: egui_winit_platform::events::NativeButton::Left,
            pressed: true,
        }),
        CaptureQuery::WantsPointer
    );
    assert_eq!(
        capture_query(&NativeEvent::CursorMoved { x_milli: 0, y_milli: 0 }),
        CaptureQuery::PointerInUse
    );
    assert_eq!(
        capture_query(&NativeEvent::Resized { width: 1, height: 1 }),
        CaptureQuery::NotCaptured
    );
}
