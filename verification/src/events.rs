//! The event vocabulary: native windowing events on the way in, UI-model
//! events on the way out, and the spec-level model of queued events that
//! the contracts speak about. All coordinates are fixed-point: physical
//! coordinates in thousandths of a physical pixel (`i32`), logical
//! coordinates in thousandths of a logical pixel (`i64`).

use vstd::prelude::*;

use crate::keys::NativeKey;
use crate::keys::NativeModifiers;
use crate::keys::UiKey;
use crate::keys::UiModifiers;

verus! {

/// A point in logical space, in thousandths of a logical pixel.
#[derive(Clone, Copy, Debug, PartialEq, Eq, Structural)]
pub struct LogicalPos {
    pub x_milli: i64,
    pub y_milli: i64,
}

/// A native mouse button. Buttons beyond the first three have no
/// UI-model equivalent and are ignored.
#[derive(Clone, Copy, Debug, PartialEq, Eq, Structural)]
pub enum NativeButton {
    Left,
    Right,
    Middle,
    Other,
}

/// A UI-model pointer button.
#[derive(Clone, Copy, Debug, PartialEq, Eq, Structural)]
pub enum UiButton {
    Primary,
    Secondary,
    Middle,
}

/// A native touch phase.
#[derive(Clone, Copy, Debug, PartialEq, Eq, Structural)]
pub enum NativeTouchPhase {
    Started,
    Moved,
    Ended,
    Cancelled,
}

/// A UI-model touch phase.
#[derive(Clone, Copy, Debug, PartialEq, Eq, Structural)]
pub enum UiTouchPhase {
    Start,
    Move,
    End,
    Cancel,
}

/// A native scroll delta: whole lines or pixels, both in thousandths.
#[derive(Clone, Copy, Debug, PartialEq, Eq, Structural)]
pub enum ScrollDelta {
    /// Lines, in thousandths of a line.
    Lines { x_milli: i32, y_milli: i32 },
    /// Pixels, in thousandths of a pixel.
    Pixels { x_milli: i32, y_milli: i32 },
}

/// A native touch contact report. The position is physical; the force is
/// in thousandths, `None` when the device reported none.
#[derive(Clone, Copy, Debug, PartialEq, Eq)]
pub struct NativeTouch {
    /// The opaque native device handle, carried as a plain value.
    pub device: u64,
    /// The native identifier of this finger or pen.
    pub id: u64,
    pub phase: NativeTouchPhase,
    pub x_milli: i32,
    pub y_milli: i32,
    pub force_milli: Option<u32>,
}

/// A native windowing event, as handed to the input state tracker.
/// Positions and sizes are physical; the tracker converts them to
/// logical space with its current scale factor.
#[derive(Debug, PartialEq)]
pub enum NativeEvent {
    /// A window resize in physical pixels; zero-by-zero signals a
    /// minimize and is ignored.
    Resized { width: u32, height: u32 },
    /// A new scale factor, in thousandths; a zero value would violate
    /// the scale factor's positivity and is ignored.
    ScaleFactorChanged { scale_milli: u32 },
    MouseInput { button: NativeButton, pressed: bool },
    MouseWheel { delta: ScrollDelta },
    CursorMoved { x_milli: i32, y_milli: i32 },
    CursorLeft,
    ModifiersChanged { modifiers: NativeModifiers },
    KeyboardInput { key: NativeKey, pressed: bool, text: Option<String> },
    Touch { touch: NativeTouch },
    /// Any native event kind this adapter does not translate.
    Other,
}

/// A UI-model input event, as queued for the renderer.
#[derive(Debug, PartialEq)]
pub enum UiEvent {
    PointerButton { pos: LogicalPos, button: UiButton, pressed: bool },
    PointerMoved { pos: LogicalPos },
    PointerGone,
    Scroll { x_milli: i64, y_milli: i64 },
    /// A zoom request; the UI-side zoom factor is derived from this
    /// vertical delta by the embedder.
    Zoom { y_milli: i64 },
    Touch {
        device_index: u64,
        touch_id: u64,
        phase: UiTouchPhase,
        pos: LogicalPos,
        force_milli: u32,
    },
    Text { text: Vec<char> },
    Key { key: UiKey, pressed: bool, repeat: bool, modifiers: UiModifiers },
    CopyText,
    CutText,
}

/// The mathematical model of a queued UI event: identical to [`UiEvent`]
/// except that text is a character sequence.
#[verifier::ext_equal]
pub enum EventModel {
    PointerButton { pos: LogicalPos, button: UiButton, pressed: bool },
    PointerMoved { pos: LogicalPos },
    PointerGone,
    Scroll { x_milli: i64, y_milli: i64 },
    Zoom { y_milli: i64 },
    Touch {
        device_index: u64,
        touch_id: u64,
        phase: UiTouchPhase,
        pos: LogicalPos,
        force_milli: u32,
    },
    Text { text: Seq<char> },
    Key { key: UiKey, pressed: bool, repeat: bool, modifiers: UiModifiers },
    CopyText,
    CutText,
}

impl View for UiEvent {
    type V = EventModel;

    open spec fn view(&self) -> EventModel {
        match self {
            UiEvent::PointerButton { pos, button, pressed } => EventModel::PointerButton {
                pos: *pos,
                button: *button,
                pressed: *pressed,
            },
            UiEvent::PointerMoved { pos } => EventModel::PointerMoved { pos: *pos },
            UiEvent::PointerGone => EventModel::PointerGone,
            UiEvent::Scroll { x_milli, y_milli } => EventModel::Scroll {
                x_milli: *x_milli,
                y_milli: *y_milli,
            },
            UiEvent::Zoom { y_milli } => EventModel::Zoom { y_milli: *y_milli },
            UiEvent::Touch { device_index, touch_id, phase, pos, force_milli } => EventModel::Touch {
                device_index: *device_index,
                touch_id: *touch_id,
                phase: *phase,
                pos: *pos,
                force_milli: *force_milli,
            },
            UiEvent::Text { text } => EventModel::Text { text: text@ },
            UiEvent::Key { key, pressed, repeat, modifiers } => EventModel::Key {
                key: *key,
                pressed: *pressed,
                repeat: *repeat,
                modifiers: *modifiers,
            },
            UiEvent::CopyText => EventModel::CopyText,
            UiEvent::CutText => EventModel::CutText,
        }
    }
}

/// The model of a queue of UI events.
pub open spec fn queue_model(q: Seq<UiEvent>) -> Seq<EventModel> {
    q.map_values(|e: UiEvent| e@)
}

/// Pushing one event onto the queue pushes its model onto the model
/// queue.
pub broadcast proof fn lemma_queue_model_push(q: Seq<UiEvent>, e: UiEvent)
    ensures
        #[trigger] queue_model(q.push(e)) == queue_model(q).push(e@),
{
    assert(queue_model(q.push(e)) =~= queue_model(q).push(e@));
}

/// The model of the empty queue is empty.
pub broadcast proof fn lemma_queue_model_empty(q: Seq<UiEvent>)
    requires
        q.len() == 0,
    ensures
        #[trigger] queue_model(q) == Seq::<EventModel>::empty(),
{
    assert(queue_model(q) =~= Seq::<EventModel>::empty());
}

/// Which native buttons exist in the UI model: the first three, and no
/// others.
pub open spec fn button_of_native(b: NativeButton) -> Option<UiButton> {
    match b {
        NativeButton::Left => Some(UiButton::Primary),
        NativeButton::Right => Some(UiButton::Secondary),
        NativeButton::Middle => Some(UiButton::Middle),
        NativeButton::Other => None,
    }
}

/// Translates a native mouse button; `None` means the button event is
/// dropped.
pub fn map_button(b: NativeButton) -> (r: Option<UiButton>)
    ensures
        r == button_of_native(b),
{
    match b {
        NativeButton::Left => Some(UiButton::Primary),
        NativeButton::Right => Some(UiButton::Secondary),
        NativeButton::Middle => Some(UiButton::Middle),
        NativeButton::Other => None,
    }
}

/// The touch phase translation.
pub open spec fn phase_of_native(p: NativeTouchPhase) -> UiTouchPhase {
    match p {
        NativeTouchPhase::Started => UiTouchPhase::Start,
        NativeTouchPhase::Moved => UiTouchPhase::Move,
        NativeTouchPhase::Ended => UiTouchPhase::End,
        NativeTouchPhase::Cancelled => UiTouchPhase::Cancel,
    }
}

/// Translates a native touch phase into the UI model's phase.
pub fn map_touch_phase(p: NativeTouchPhase) -> (r: UiTouchPhase)
    ensures
        r == phase_of_native(p),
{
    match p {
        NativeTouchPhase::Started => UiTouchPhase::Start,
        NativeTouchPhase::Moved => UiTouchPhase::Move,
        NativeTouchPhase::Ended => UiTouchPhase::End,
        NativeTouchPhase::Cancelled => UiTouchPhase::Cancel,
    }
}

} // verus!
