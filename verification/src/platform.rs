//! The input state tracker and frame bridge: owns the scale factor, the
//! tracked pointer position, the modifier state, the touch press
//! counter, the device index registry and the queue of pending UI
//! events; consumes native events one at a time and hands the
//! accumulated input to the renderer at each frame boundary.

use vstd::prelude::*;

use crate::cursor::host_icon_of_ui;
use crate::cursor::map_cursor_icon;
use crate::cursor::HostCursorIcon;
use crate::cursor::UiCursorIcon;
use crate::devices::distinct_handles;
use crate::devices::registry_after;
use crate::devices::resolved_index;
use crate::devices::DeviceRegistry;
use crate::events::button_of_native;
use crate::events::lemma_queue_model_empty;
use crate::events::lemma_queue_model_push;
use crate::events::map_button;
use crate::events::map_touch_phase;
use crate::events::phase_of_native;
use crate::events::queue_model;
use crate::events::EventModel;
use crate::events::LogicalPos;
use crate::events::NativeButton;
use crate::events::NativeEvent;
use crate::events::NativeTouch;
use crate::events::NativeTouchPhase;
use crate::events::ScrollDelta;
use crate::events::UiButton;
use crate::events::UiEvent;
use crate::keys::chars_of;
use crate::keys::filter_printable;
use crate::keys::key_of_native;
use crate::keys::map_key;
use crate::keys::map_modifiers;
use crate::keys::modifiers_of_native;
use crate::keys::printable_filter;
use crate::keys::NativeKey;
use crate::keys::NativeModifiers;
use crate::keys::UiKey;
use crate::keys::UiModifiers;

verus! {

/// A logical screen size, in thousandths of a logical pixel.
#[derive(Clone, Copy, Debug, PartialEq, Eq, Structural)]
pub struct ScreenSize {
    pub width_milli: i64,
    pub height_milli: i64,
}

/// Creation-time configuration of the platform: the physical window
/// size, the initial scale factor (thousandths, positive) and whether
/// the platform treats the logo key as its command key and reports
/// horizontal wheel deltas inverted.
#[derive(Clone, Copy, Debug, PartialEq, Eq, Structural)]
pub struct PlatformDescriptor {
    pub physical_width: u32,
    pub physical_height: u32,
    pub scale_milli: u32,
    pub mac_mode: bool,
}

/// The raw input bundle accumulated for the next frame.
#[derive(Debug, PartialEq)]
pub struct RawInput {
    pub screen_rect: Option<ScreenSize>,
    pub time_micros: Option<u64>,
    pub modifiers: UiModifiers,
    pub events: Vec<UiEvent>,
}

/// What the event handler asks of its caller: reading the host
/// clipboard cannot happen here, so the handler reports when a paste
/// was requested; it likewise reports the touch-reconciliation
/// diagnostic instead of printing it.
#[derive(Clone, Copy, Debug, PartialEq, Eq, Structural)]
pub struct HostResponse {
    /// A paste shortcut was pressed: read the host clipboard and hand
    /// its contents to [`Platform::push_pasted_text`].
    pub wants_clipboard: bool,
    /// A touch end or cancel arrived with no matching start; the
    /// counter was clamped at zero and processing continued.
    pub touch_underflow: bool,
}

/// Which renderer question decides whether the UI captures a native
/// event exclusively.
#[derive(Clone, Copy, Debug, PartialEq, Eq, Structural)]
pub enum CaptureQuery {
    /// Ask whether the renderer wants keyboard input.
    WantsKeyboard,
    /// Ask whether the renderer wants pointer input.
    WantsPointer,
    /// Ask whether the renderer is currently using the pointer.
    PointerInUse,
    /// The event is never captured.
    NotCaptured,
}

/// The renderer output that produces host side effects.
#[derive(Debug, PartialEq)]
pub struct FrameOutput {
    pub cursor_icon: UiCursorIcon,
    pub copied_text: String,
    pub open_url: Option<String>,
}

/// What to do with the host cursor after a frame.
#[derive(Clone, Copy, Debug, PartialEq, Eq, Structural)]
pub enum CursorAction {
    /// Hide the cursor.
    Hide,
    /// Show the cursor; set its shape only when `set_shape` holds
    /// (the pointer is inside the window).
    Show { shape: HostCursorIcon, set_shape: bool },
}

/// The host side effects a frame's output asks for.
#[derive(Debug, PartialEq)]
pub struct FrameActions {
    pub cursor: CursorAction,
    /// Text to write to the host clipboard, when there is any.
    pub clipboard_write: Option<String>,
    /// A URL to open in the host browser.
    pub open_url: Option<String>,
}

/// The mathematical state of the platform.
#[verifier::ext_equal]
pub struct StateModel {
    pub scale_milli: u32,
    pub screen_rect: Option<ScreenSize>,
    pub native_mods: NativeModifiers,
    pub ui_mods: UiModifiers,
    pub pointer: Option<LogicalPos>,
    pub pressed: u32,
    pub devices: Seq<u64>,
    pub queue: Seq<EventModel>,
    pub time_micros: Option<u64>,
    pub mac_mode: bool,
}

/// A state is well formed when its scale factor is positive and no
/// device handle is registered twice.
pub open spec fn state_wf(s: StateModel) -> bool {
    &&& s.scale_milli >= 1
    &&& distinct_handles(s.devices)
}

/// Converts one physical coordinate (thousandths of a physical pixel,
/// possibly negative) to logical space by the scale ratio
/// `scale_milli / 1000`, truncating toward zero.
pub open spec fn logical_of_physical(phys_milli: i32, scale_milli: u32) -> i64 {
    let num = phys_milli * 1000;
    if num >= 0 {
        (num / scale_milli as int) as i64
    } else {
        (-((-num) / scale_milli as int)) as i64
    }
}

/// The logical point a physical position maps to.
pub open spec fn logical_pos_of(x_milli: i32, y_milli: i32, scale_milli: u32) -> LogicalPos {
    LogicalPos {
        x_milli: logical_of_physical(x_milli, scale_milli),
        y_milli: logical_of_physical(y_milli, scale_milli),
    }
}

/// Converts a physical size in whole pixels to a logical size in
/// thousandths of a logical pixel.
pub open spec fn logical_extent(pixels: u32, scale_milli: u32) -> i64 {
    ((pixels * 1000000) / scale_milli as int) as i64
}

/// The logical screen size of a physical size.
pub open spec fn screen_size_of(width: u32, height: u32, scale_milli: u32) -> ScreenSize {
    ScreenSize {
        width_milli: logical_extent(width, scale_milli),
        height_milli: logical_extent(height, scale_milli),
    }
}

/// The pixel-equivalent wheel delta: line deltas are multiplied by the
/// fixed line height of 8 logical units, pixel deltas are used as they
/// are; on the inverted-horizontal platform the horizontal component is
/// negated.
pub open spec fn wheel_delta_of(delta: ScrollDelta, mac_mode: bool) -> (i64, i64) {
    let base: (int, int) = match delta {
        ScrollDelta::Lines { x_milli, y_milli } => (x_milli * 8, y_milli * 8),
        ScrollDelta::Pixels { x_milli, y_milli } => (x_milli as int, y_milli as int),
    };
    if mac_mode {
        ((-base.0) as i64, base.1 as i64)
    } else {
        (base.0 as i64, base.1 as i64)
    }
}

/// The state after a resize: a zero-by-zero size is a minimize
/// notification and changes nothing; any other size sets the logical
/// screen rectangle computed with the current scale factor.
pub open spec fn step_resized(s: StateModel, width: u32, height: u32) -> StateModel {
    if width == 0 && height == 0 {
        s
    } else {
        StateModel { screen_rect: Some(screen_size_of(width, height, s.scale_milli)), ..s }
    }
}

/// The state after a scale change: the factor is replaced, no event is
/// queued; a non-positive factor is ignored to keep the scale positive.
pub open spec fn step_scale_changed(s: StateModel, scale_milli: u32) -> StateModel {
    if scale_milli == 0 {
        s
    } else {
        StateModel { scale_milli, ..s }
    }
}

/// The state after a mouse button change: dropped when the button has
/// no UI equivalent or no pointer position is tracked, otherwise a
/// button event at the tracked position.
pub open spec fn step_mouse_input(s: StateModel, button: NativeButton, pressed: bool) -> StateModel {
    match button_of_native(button) {
        Some(b) => match s.pointer {
            Some(p) => StateModel {
                queue: s.queue.push(EventModel::PointerButton { pos: p, button: b, pressed }),
                ..s
            },
            None => s,
        },
        None => s,
    }
}

/// The state after a wheel event: a zoom event carrying the vertical
/// delta when the command modifier (ctrl or platform command) is
/// active, a scroll event with the pixel-equivalent delta otherwise.
pub open spec fn step_mouse_wheel(s: StateModel, delta: ScrollDelta) -> StateModel {
    let d = wheel_delta_of(delta, s.mac_mode);
    if s.ui_mods.ctrl || s.ui_mods.command {
        StateModel { queue: s.queue.push(EventModel::Zoom { y_milli: d.1 }), ..s }
    } else {
        StateModel { queue: s.queue.push(EventModel::Scroll { x_milli: d.0, y_milli: d.1 }), ..s }
    }
}

/// The state after a cursor move: the logical position is tracked and a
/// pointer-moved event queued.
pub open spec fn step_cursor_moved(s: StateModel, x_milli: i32, y_milli: i32) -> StateModel {
    let p = logical_pos_of(x_milli, y_milli, s.scale_milli);
    StateModel {
        pointer: Some(p),
        queue: s.queue.push(EventModel::PointerMoved { pos: p }),
        ..s
    }
}

/// The state after the cursor leaves the window: the position becomes
/// unknown and a pointer-gone event is queued.
pub open spec fn step_cursor_left(s: StateModel) -> StateModel {
    StateModel { pointer: None, queue: s.queue.push(EventModel::PointerGone), ..s }
}

/// The state after a modifier change: both the native snapshot and the
/// derived UI modifier set are replaced.
pub open spec fn step_modifiers_changed(s: StateModel, m: NativeModifiers) -> StateModel {
    StateModel { native_mods: m, ui_mods: modifiers_of_native(m, s.mac_mode), ..s }
}

/// The queue after the text part of a keyboard event: when the key goes
/// down with neither ctrl nor logo held, the printable part of the text
/// payload is queued as a text event, unless nothing printable remains.
pub open spec fn keyboard_text_queue(s: StateModel, pressed: bool, text: Option<String>) -> Seq<
    EventModel,
> {
    if pressed && !s.native_mods.ctrl && !s.native_mods.logo {
        match text {
            Some(t) => {
                let f = printable_filter(t@);
                if f.len() > 0 {
                    s.queue.push(EventModel::Text { text: f })
                } else {
                    s.queue
                }
            },
            None => s.queue,
        }
    } else {
        s.queue
    }
}

/// The queue after the key part of a keyboard event: ctrl+C and ctrl+X
/// going down become copy and cut events, ctrl+V going down queues
/// nothing here (the clipboard is read by the caller), every other
/// mapped key becomes a generic key event with the current modifiers;
/// unmapped keys queue nothing.
pub open spec fn keyboard_key_queue(
    s: StateModel,
    q: Seq<EventModel>,
    key: NativeKey,
    pressed: bool,
) -> Seq<EventModel> {
    match key_of_native(key) {
        Some(k) => {
            if pressed && s.native_mods.ctrl && k == UiKey::C {
                q.push(EventModel::CopyText)
            } else if pressed && s.native_mods.ctrl && k == UiKey::X {
                q.push(EventModel::CutText)
            } else if pressed && s.native_mods.ctrl && k == UiKey::V {
                q
            } else {
                q.push(
                    EventModel::Key {
                        key: k,
                        pressed,
                        repeat: false,
                        modifiers: modifiers_of_native(s.native_mods, s.mac_mode),
                    },
                )
            }
        },
        None => q,
    }
}

/// The state after a keyboard event: first the text event, then the key
/// or shortcut event.
pub open spec fn step_keyboard(
    s: StateModel,
    key: NativeKey,
    pressed: bool,
    text: Option<String>,
) -> StateModel {
    let q1 = keyboard_text_queue(s, pressed, text);
    StateModel { queue: keyboard_key_queue(s, q1, key, pressed), ..s }
}

/// Whether a keyboard event is the paste shortcut: ctrl+V going down,
/// asking the caller to read the host clipboard.
pub open spec fn keyboard_wants_clipboard(s: StateModel, key: NativeKey, pressed: bool) -> bool {
    pressed && s.native_mods.ctrl && key_of_native(key) == Some(UiKey::V)
}

/// The press counter after a touch phase: a start increments (held at
/// the top of the counter's range), an end or cancel decrements but is
/// clamped at zero, a move changes nothing.
pub open spec fn pressed_after(pressed: u32, phase: NativeTouchPhase) -> u32 {
    match phase {
        NativeTouchPhase::Started => if pressed == u32::MAX {
            pressed
        } else {
            (pressed + 1) as u32
        },
        NativeTouchPhase::Ended | NativeTouchPhase::Cancelled => if pressed > 0 {
            (pressed - 1) as u32
        } else {
            0
        },
        NativeTouchPhase::Moved => pressed,
    }
}

/// The raw touch event queued for every touch report.
pub open spec fn touch_event_model(s: StateModel, t: NativeTouch) -> EventModel {
    EventModel::Touch {
        device_index: resolved_index(s.devices, t.device),
        touch_id: t.id,
        phase: phase_of_native(t.phase),
        pos: logical_pos_of(t.x_milli, t.y_milli, s.scale_milli),
        force_milli: match t.force_milli {
            Some(f) => f,
            None => 0,
        },
    }
}

/// The events a touch report appends: the raw touch event; a
/// pointer-moved event for a move while any contact is active; then,
/// when the counter leaves zero, a synthetic primary press, and when it
/// returns to zero, a synthetic primary release followed by
/// pointer-gone — in exactly that order.
pub open spec fn touch_queue(s: StateModel, t: NativeTouch) -> Seq<EventModel> {
    let p = logical_pos_of(t.x_milli, t.y_milli, s.scale_milli);
    let was_pressed = s.pressed > 0;
    let now = pressed_after(s.pressed, t.phase);
    let q1 = s.queue.push(touch_event_model(s, t));
    let q2 = if t.phase == NativeTouchPhase::Moved && s.pressed > 0 {
        q1.push(EventModel::PointerMoved { pos: p })
    } else {
        q1
    };
    if !was_pressed && now > 0 {
        q2.push(EventModel::PointerButton { pos: p, button: UiButton::Primary, pressed: true })
    } else if was_pressed && now == 0 {
        q2.push(
            EventModel::PointerButton { pos: p, button: UiButton::Primary, pressed: false },
        ).push(EventModel::PointerGone)
    } else {
        q2
    }
}

/// The state after a touch report: the device registry may grow, the
/// press counter moves as [`pressed_after`] says, and the queue grows
/// as [`touch_queue`] says.
pub open spec fn step_touch(s: StateModel, t: NativeTouch) -> StateModel {
    StateModel {
        devices: registry_after(s.devices, t.device),
        pressed: pressed_after(s.pressed, t.phase),
        queue: touch_queue(s, t),
        ..s
    }
}

/// Whether a touch report finds the counter already at zero when it
/// tries to decrement it: the reconciliation diagnostic.
pub open spec fn touch_underflows(s: StateModel, t: NativeTouch) -> bool {
    (t.phase == NativeTouchPhase::Ended || t.phase == NativeTouchPhase::Cancelled) && s.pressed
        == 0
}

/// The state transition of the input state tracker, one native event at
/// a time. Unrecognized native events change nothing.
pub open spec fn step(s: StateModel, e: NativeEvent) -> StateModel {
    match e {
        NativeEvent::Resized { width, height } => step_resized(s, width, height),
        NativeEvent::ScaleFactorChanged { scale_milli } => step_scale_changed(s, scale_milli),
        NativeEvent::MouseInput { button, pressed } => step_mouse_input(s, button, pressed),
        NativeEvent::MouseWheel { delta } => step_mouse_wheel(s, delta),
        NativeEvent::CursorMoved { x_milli, y_milli } => step_cursor_moved(s, x_milli, y_milli),
        NativeEvent::CursorLeft => step_cursor_left(s),
        NativeEvent::ModifiersChanged { modifiers } => step_modifiers_changed(s, modifiers),
        NativeEvent::KeyboardInput { key, pressed, text } => step_keyboard(s, key, pressed, text),
        NativeEvent::Touch { touch } => step_touch(s, touch),
        NativeEvent::Other => s,
    }
}

/// What the handler asks of its caller for a native event.
pub open spec fn step_response(s: StateModel, e: NativeEvent) -> HostResponse {
    HostResponse {
        wants_clipboard: match e {
            NativeEvent::KeyboardInput { key, pressed, text: _ } => keyboard_wants_clipboard(
                s,
                key,
                pressed,
            ),
            _ => false,
        },
        touch_underflow: match e {
            NativeEvent::Touch { touch } => touch_underflows(s, touch),
            _ => false,
        },
    }
}

/// The state a fresh platform starts in: the screen rectangle derived
/// from the descriptor, the pointer at the origin, no modifier held, an
/// empty queue, no touch contact, no device seen, no timestamp.
pub open spec fn initial_state(d: PlatformDescriptor) -> StateModel {
    StateModel {
        scale_milli: d.scale_milli,
        screen_rect: Some(screen_size_of(d.physical_width, d.physical_height, d.scale_milli)),
        native_mods: NativeModifiers { alt: false, ctrl: false, shift: false, logo: false },
        ui_mods: UiModifiers {
            alt: false,
            ctrl: false,
            shift: false,
            mac_cmd: false,
            command: false,
        },
        pointer: Some(LogicalPos { x_milli: 0, y_milli: 0 }),
        pressed: 0,
        devices: Seq::empty(),
        queue: Seq::empty(),
        time_micros: None,
        mac_mode: d.mac_mode,
    }
}

/// Which renderer question decides capture for a native event.
pub open spec fn capture_query_of(e: NativeEvent) -> CaptureQuery {
    match e {
        NativeEvent::KeyboardInput { .. } => CaptureQuery::WantsKeyboard,
        NativeEvent::ModifiersChanged { .. } => CaptureQuery::WantsKeyboard,
        NativeEvent::MouseWheel { .. } => CaptureQuery::WantsPointer,
        NativeEvent::MouseInput { .. } => CaptureQuery::WantsPointer,
        NativeEvent::CursorMoved { .. } => CaptureQuery::PointerInUse,
        NativeEvent::Touch { .. } => CaptureQuery::PointerInUse,
        _ => CaptureQuery::NotCaptured,
    }
}

/// Returns which renderer question decides whether the UI captures the
/// given native event exclusively; the caller asks the renderer.
pub fn capture_query(e: &NativeEvent) -> (q: CaptureQuery)
    ensures
        q == capture_query_of(*e),
{
    match e {
        NativeEvent::KeyboardInput { .. } => CaptureQuery::WantsKeyboard,
        NativeEvent::ModifiersChanged { .. } => CaptureQuery::WantsKeyboard,
        NativeEvent::MouseWheel { .. } => CaptureQuery::WantsPointer,
        NativeEvent::MouseInput { .. } => CaptureQuery::WantsPointer,
        NativeEvent::CursorMoved { .. } => CaptureQuery::PointerInUse,
        NativeEvent::Touch { .. } => CaptureQuery::PointerInUse,
        NativeEvent::Resized { .. } => CaptureQuery::NotCaptured,
        NativeEvent::ScaleFactorChanged { .. } => CaptureQuery::NotCaptured,
        NativeEvent::CursorLeft => CaptureQuery::NotCaptured,
        NativeEvent::Other => CaptureQuery::NotCaptured,
    }
}

/// The input state tracker and frame bridge.
pub struct Platform {
    scale_milli: u32,
    raw_input: RawInput,
    modifier_state: NativeModifiers,
    pointer_pos: Option<LogicalPos>,
    touch_pointer_pressed: u32,
    devices: DeviceRegistry,
    mac_mode: bool,
}

impl View for Platform {
    type V = StateModel;

    closed spec fn view(&self) -> StateModel {
        StateModel {
            scale_milli: self.scale_milli,
            screen_rect: self.raw_input.screen_rect,
            native_mods: self.modifier_state,
            ui_mods: self.raw_input.modifiers,
            pointer: self.pointer_pos,
            pressed: self.touch_pointer_pressed,
            devices: self.devices@,
            queue: queue_model(self.raw_input.events@),
            time_micros: self.raw_input.time_micros,
            mac_mode: self.mac_mode,
        }
    }
}

impl Platform {
    /// The platform's state is well formed.
    pub open spec fn wf(&self) -> bool {
        state_wf(self@)
    }

    /// Creates a new platform in the initial state the descriptor
    /// prescribes. The scale factor must be positive.
    pub fn new(descriptor: PlatformDescriptor) -> (p: Platform)
        requires
            descriptor.scale_milli >= 1,
        ensures
            p@ == initial_state(descriptor),
            p.wf(),
    {
        let p = Platform {
            scale_milli: descriptor.scale_milli,
            raw_input: RawInput {
                screen_rect: Some(
                    logical_screen_size(
                        descriptor.physical_width,
                        descriptor.physical_height,
                        descriptor.scale_milli,
                    ),
                ),
                time_micros: None,
                modifiers: UiModifiers::empty(),
                events: Vec::new(),
            },
            modifier_state: NativeModifiers::empty(),
            pointer_pos: Some(LogicalPos { x_milli: 0, y_milli: 0 }),
            touch_pointer_pressed: 0,
            devices: DeviceRegistry::new(),
            mac_mode: descriptor.mac_mode,
        };
        proof {
            lemma_queue_model_empty(p.raw_input.events@);
            assert(p@ =~= initial_state(descriptor));
        }
        p
    }

    /// Appends one event to the pending queue.
    fn push_event(&mut self, e: UiEvent)
        ensures
            final(self)@ == (StateModel { queue: old(self)@.queue.push(e@), ..old(self)@ }),
    {
        let ghost q0 = self.raw_input.events@;
        let ghost em = e@;
        self.raw_input.events.push(e);
        proof {
            lemma_queue_model_push(q0, self.raw_input.events@.last());
            assert(self@ =~= (StateModel { queue: old(self)@.queue.push(em), ..old(self)@ }));
        }
    }

    /// Consumes one native event, in arrival order, updating the
    /// tracked state and the pending queue exactly as [`step`] says,
    /// and reports what the caller must do on the platform's behalf,
    /// exactly as [`step_response`] says. Unrecognized events change
    /// nothing; no native event is ever an error.
    pub fn handle_event(&mut self, event: &NativeEvent) -> (r: HostResponse)
        requires
            old(self).wf(),
        ensures
            final(self).wf(),
            final(self)@ == step(old(self)@, *event),
            r == step_response(old(self)@, *event),
    {
        let ghost s0 = old(self)@;
        let mut response = HostResponse { wants_clipboard: false, touch_underflow: false };
        match event {
            NativeEvent::Resized { width, height } => {
                if !(*width == 0 && *height == 0) {
                    let size = logical_screen_size(*width, *height, self.scale_milli);
                    self.raw_input.screen_rect = Some(size);
                }
                proof {
                    assert(self@ =~= step(s0, *event));
                }
            },
            NativeEvent::ScaleFactorChanged { scale_milli } => {
                if *scale_milli >= 1 {
                    self.scale_milli = *scale_milli;
                }
                proof {
                    assert(self@ =~= step(s0, *event));
                }
            },
            NativeEvent::MouseInput { button, pressed } => {
                match map_button(*button) {
                    Some(b) => {
                        match self.pointer_pos {
                            Some(p) => {
                                self.push_event(
                                    UiEvent::PointerButton { pos: p, button: b, pressed: *pressed },
                                );
                            },
                            None => {},
                        }
                    },
                    None => {},
                }
                proof {
                    assert(self@ =~= step(s0, *event));
                }
            },
            NativeEvent::MouseWheel { delta } => {
                let d = wheel_delta(*delta, self.mac_mode);
                if self.raw_input.modifiers.ctrl || self.raw_input.modifiers.command {
                    self.push_event(UiEvent::Zoom { y_milli: d.1 });
                } else {
                    self.push_event(UiEvent::Scroll { x_milli: d.0, y_milli: d.1 });
                }
                proof {
                    assert(self@ =~= step(s0, *event));
                }
            },
            NativeEvent::CursorMoved { x_milli, y_milli } => {
                let p = scale_pos(*x_milli, *y_milli, self.scale_milli);
                self.pointer_pos = Some(p);
                self.push_event(UiEvent::PointerMoved { pos: p });
                proof {
                    assert(self@ =~= step(s0, *event));
                }
            },
            NativeEvent::CursorLeft => {
                self.pointer_pos = None;
                self.push_event(UiEvent::PointerGone);
                proof {
                    assert(self@ =~= step(s0, *event));
                }
            },
            NativeEvent::ModifiersChanged { modifiers } => {
                self.modifier_state = *modifiers;
                self.raw_input.modifiers = map_modifiers(*modifiers, self.mac_mode);
                proof {
                    assert(self@ =~= step(s0, *event));
                }
            },
            NativeEvent::KeyboardInput { key, pressed, text } => {
                let pr = *pressed;
                if pr && !self.modifier_state.ctrl && !self.modifier_state.logo {
                    match text {
                        Some(t) => {
                            let filtered = filter_printable(t.as_str());
                            if filtered.len() > 0 {
                                self.push_event(UiEvent::Text { text: filtered });
                            }
                        },
                        None => {},
                    }
                }
                match map_key(*key) {
                    Some(k) => {
                        if pr && self.modifier_state.ctrl && k == UiKey::C {
                            self.push_event(UiEvent::CopyText);
                        } else if pr && self.modifier_state.ctrl && k == UiKey::X {
                            self.push_event(UiEvent::CutText);
                        } else if pr && self.modifier_state.ctrl && k == UiKey::V {
                            response.wants_clipboard = true;
                        } else {
                            let m = map_modifiers(self.modifier_state, self.mac_mode);
                            self.push_event(
                                UiEvent::Key { key: k, pressed: pr, repeat: false, modifiers: m },
                            );
                        }
                    },
                    None => {},
                }
                proof {
                    assert(self@ =~= step(s0, *event));
                }
            },
            NativeEvent::Touch { touch } => {
                let t = *touch;
                let p = scale_pos(t.x_milli, t.y_milli, self.scale_milli);
                let device_index = self.devices.resolve(t.device);
                let phase = map_touch_phase(t.phase);
                let force: u32 = match t.force_milli {
                    Some(f) => f,
                    None => 0,
                };
                self.push_event(
                    UiEvent::Touch {
                        device_index,
                        touch_id: t.id,
                        phase,
                        pos: p,
                        force_milli: force,
                    },
                );
                let was_pressed = self.touch_pointer_pressed > 0;
                match t.phase {
                    NativeTouchPhase::Started => {
                        if self.touch_pointer_pressed != u32::MAX {
                            self.touch_pointer_pressed = self.touch_pointer_pressed + 1;
                        }
                    },
                    NativeTouchPhase::Ended | NativeTouchPhase::Cancelled => {
                        if self.touch_pointer_pressed > 0 {
                            self.touch_pointer_pressed = self.touch_pointer_pressed - 1;
                        } else {
                            response.touch_underflow = true;
                        }
                    },
                    NativeTouchPhase::Moved => {
                        if self.touch_pointer_pressed > 0 {
                            self.push_event(UiEvent::PointerMoved { pos: p });
                        }
                    },
                }
                if !was_pressed && self.touch_pointer_pressed > 0 {
                    self.push_event(
                        UiEvent::PointerButton {
                            pos: p,
                            button: UiButton::Primary,
                            pressed: true,
                        },
                    );
                } else if was_pressed && self.touch_pointer_pressed == 0 {
                    self.push_event(
                        UiEvent::PointerButton {
                            pos: p,
                            button: UiButton::Primary,
                            pressed: false,
                        },
                    );
                    self.push_event(UiEvent::PointerGone);
                }
                proof {
                    assert(self@ =~= step(s0, *event));
                }
            },
            NativeEvent::Other => {
                proof {
                    assert(self@ =~= step(s0, *event));
                }
            },
        }
        response
    }

    /// Stores the renderer's animation timestamp, in microseconds.
    pub fn update_time(&mut self, time_micros: u64)
        ensures
            final(self)@ == (StateModel { time_micros: Some(time_micros), ..old(self)@ }),
    {
        self.raw_input.time_micros = Some(time_micros);
        proof {
            assert(self@ =~= (StateModel { time_micros: Some(time_micros), ..old(self)@ }));
        }
    }

    /// Hands the accumulated input bundle over and resets for the next
    /// frame: the returned bundle carries the screen rectangle, the
    /// timestamp, the modifiers and every queued event; afterwards the
    /// queue is empty and the rectangle and timestamp are cleared, so
    /// no event is ever delivered twice.
    pub fn begin_frame(&mut self) -> (r: RawInput)
        ensures
            r.screen_rect == old(self)@.screen_rect,
            r.time_micros == old(self)@.time_micros,
            r.modifiers == old(self)@.ui_mods,
            queue_model(r.events@) == old(self)@.queue,
            final(self)@ == (StateModel {
                screen_rect: None,
                time_micros: None,
                queue: Seq::empty(),
                ..old(self)@
            }),
    {
        let events = self.raw_input.events.split_off(0);
        let r = RawInput {
            screen_rect: self.raw_input.screen_rect,
            time_micros: self.raw_input.time_micros,
            modifiers: self.raw_input.modifiers,
            events,
        };
        self.raw_input.screen_rect = None;
        self.raw_input.time_micros = None;
        proof {
            assert(r.events@ =~= old(self).raw_input.events@);
            lemma_queue_model_empty(self.raw_input.events@);
            assert(self@ =~= (StateModel {
                screen_rect: None,
                time_micros: None,
                queue: Seq::empty(),
                ..old(self)@
            }));
        }
        r
    }

    /// Grants direct access to the raw input bundle accumulated for the
    /// next frame, for callers that inject their own events.
    pub fn raw_input_mut(&mut self) -> (r: &mut RawInput)
        ensures
            (*r).screen_rect == old(self)@.screen_rect,
            (*r).time_micros == old(self)@.time_micros,
            (*r).modifiers == old(self)@.ui_mods,
            queue_model((*r).events@) == old(self)@.queue,
            final(self)@ == (StateModel {
                screen_rect: final(r).screen_rect,
                time_micros: final(r).time_micros,
                ui_mods: final(r).modifiers,
                queue: queue_model(final(r).events@),
                ..old(self)@
            }),
    {
        &mut self.raw_input
    }

    /// Queues clipboard contents handed back after a paste request, as
    /// one text event, exactly as received.
    pub fn push_pasted_text(&mut self, text: &str)
        ensures
            final(self)@ == (StateModel {
                queue: old(self)@.queue.push(EventModel::Text { text: text@ }),
                ..old(self)@
            }),
    {
        let chars = chars_of(text);
        self.raw_input.events.push(UiEvent::Text { text: chars });
        proof {
            lemma_queue_model_push(
                old(self).raw_input.events@,
                UiEvent::Text { text: chars },
            );
            assert(self@ =~= (StateModel {
                queue: old(self)@.queue.push(EventModel::Text { text: text@ }),
                ..old(self)@
            }));
        }
    }

    /// Turns a frame's renderer output into host actions: the cursor is
    /// hidden for the hidden intent and shown otherwise, with its shape
    /// set only while the pointer is inside the window; non-empty
    /// copied text becomes a clipboard write; a URL request passes
    /// through.
    pub fn end_frame_actions(&self, output: FrameOutput) -> (a: FrameActions)
        ensures
            a.cursor == (match host_icon_of_ui(output.cursor_icon) {
                Some(shape) => CursorAction::Show { shape, set_shape: self@.pointer is Some },
                None => CursorAction::Hide,
            }),
            a.clipboard_write == (if output.copied_text@.len() > 0 {
                Some(output.copied_text)
            } else {
                None::<String>
            }),
            a.open_url == output.open_url,
    {
        FrameActions {
            cursor: match map_cursor_icon(output.cursor_icon) {
                Some(shape) => CursorAction::Show {
                    shape,
                    set_shape: self.pointer_pos.is_some(),
                },
                None => CursorAction::Hide,
            },
            clipboard_write: if output.copied_text.as_str().unicode_len() > 0 {
                Some(output.copied_text)
            } else {
                None
            },
            open_url: output.open_url,
        }
    }
}

/// Computes the logical screen size of a physical size.
fn logical_screen_size(width: u32, height: u32, scale_milli: u32) -> (r: ScreenSize)
    requires
        scale_milli >= 1,
    ensures
        r == screen_size_of(width, height, scale_milli),
{
    ScreenSize {
        width_milli: (((width as u64) * 1000000) / (scale_milli as u64)) as i64,
        height_milli: (((height as u64) * 1000000) / (scale_milli as u64)) as i64,
    }
}

/// Converts one physical coordinate to logical space.
fn scale_coord(phys_milli: i32, scale_milli: u32) -> (r: i64)
    requires
        scale_milli >= 1,
    ensures
        r == logical_of_physical(phys_milli, scale_milli),
{
    let num: i64 = (phys_milli as i64) * 1000;
    if num >= 0 {
        (((num as u64)) / (scale_milli as u64)) as i64
    } else {
        -((((-num) as u64) / (scale_milli as u64)) as i64)
    }
}

/// Converts a physical position to a logical point.
fn scale_pos(x_milli: i32, y_milli: i32, scale_milli: u32) -> (r: LogicalPos)
    requires
        scale_milli >= 1,
    ensures
        r == logical_pos_of(x_milli, y_milli, scale_milli),
{
    LogicalPos {
        x_milli: scale_coord(x_milli, scale_milli),
        y_milli: scale_coord(y_milli, scale_milli),
    }
}

/// Computes the pixel-equivalent wheel delta.
fn wheel_delta(delta: ScrollDelta, mac_mode: bool) -> (r: (i64, i64))
    ensures
        r == wheel_delta_of(delta, mac_mode),
{
    let base: (i64, i64) = match delta {
        ScrollDelta::Lines { x_milli, y_milli } => ((x_milli as i64) * 8, (y_milli as i64) * 8),
        ScrollDelta::Pixels { x_milli, y_milli } => (x_milli as i64, y_milli as i64),
    };
    if mac_mode {
        (-base.0, base.1)
    } else {
        base
    }
}

} // verus!
