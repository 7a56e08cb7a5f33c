//! System-wide laws of the input state tracker, stated over the spec
//! transition [`step`] and proved once and for all: what minimize
//! notifications do, how the touch press counter and the synthetic
//! pointer correspond, the exact event order of a touch tap, and that
//! button events vanish without a tracked pointer.

use vstd::prelude::*;

use crate::events::EventModel;
use crate::events::LogicalPos;
use crate::events::NativeButton;
use crate::events::NativeEvent;
use crate::events::NativeTouch;
use crate::events::NativeTouchPhase;
use crate::events::UiButton;
use crate::platform::logical_pos_of;
use crate::platform::pressed_after;
use crate::platform::step;
use crate::platform::step_touch;
use crate::platform::touch_event_model;
use crate::platform::StateModel;

verus! {

/// The state after a whole sequence of native events, delivered first
/// to last.
pub open spec fn run(s: StateModel, evs: Seq<NativeEvent>) -> StateModel
    decreases evs.len(),
{
    if evs.len() == 0 {
        s
    } else {
        run(step(s, evs.first()), evs.drop_first())
    }
}

/// Law: a zero-by-zero resize is a minimize notification and changes
/// nothing — in particular not the tracked screen rectangle.
pub proof fn lemma_zero_resize_ignored(s: StateModel)
    ensures
        step(s, (NativeEvent::Resized { width: 0, height: 0 })) == s,
{
}

/// Law: any run made only of zero-by-zero resizes leaves the whole
/// state, screen rectangle included, exactly as it was.
pub proof fn lemma_zero_resize_run_ignored(s: StateModel, evs: Seq<NativeEvent>)
    requires
        forall|i: int|
            0 <= i < evs.len() ==> evs[i] == (NativeEvent::Resized { width: 0, height: 0 }),
    ensures
        run(s, evs) == s,
    decreases evs.len(),
{
    if evs.len() > 0 {
        assert(evs[0] == (NativeEvent::Resized { width: 0, height: 0 }));
        assert(step(s, evs.first()) == s);
        assert(forall|i: int|
            0 <= i < evs.drop_first().len() ==> evs.drop_first()[i] == (NativeEvent::Resized {
                width: 0,
                height: 0,
            }));
        lemma_zero_resize_run_ignored(s, evs.drop_first());
    }
}

/// Law: a mouse button change while no pointer position is tracked
/// changes nothing: no event is queued, the state stands.
pub proof fn lemma_button_without_pointer_ignored(
    s: StateModel,
    button: NativeButton,
    pressed: bool,
)
    requires
        s.pointer is None,
    ensures
        step(s, (NativeEvent::MouseInput { button, pressed })) == s,
{
}

/// Whether the synthetic primary pointer reads as pressed at the end of
/// a queue: the pressed flag of the last primary button event in it,
/// false when there is none.
pub open spec fn emulated_pressed(q: Seq<EventModel>) -> bool
    decreases q.len(),
{
    if q.len() == 0 {
        false
    } else {
        match q.last() {
            EventModel::PointerButton { pos, button, pressed } => if button
                == UiButton::Primary {
                pressed
            } else {
                emulated_pressed(q.drop_last())
            },
            _ => emulated_pressed(q.drop_last()),
        }
    }
}

proof fn lemma_emulated_push_nonbutton(q: Seq<EventModel>, e: EventModel)
    requires
        !(e is PointerButton),
    ensures
        emulated_pressed(q.push(e)) == emulated_pressed(q),
{
    assert(q.push(e).drop_last() =~= q);
}

proof fn lemma_emulated_push_primary(q: Seq<EventModel>, pos: LogicalPos, pressed: bool)
    ensures
        emulated_pressed(
            q.push((EventModel::PointerButton { pos, button: UiButton::Primary, pressed })),
        ) == pressed,
{
}

/// Law (one step): a touch report keeps the press counter and the
/// synthetic pointer in agreement: afterwards the queue reads as
/// pressed exactly when the counter is positive. The counter itself is
/// an unsigned count, so it can never be negative.
pub proof fn lemma_touch_pointer_consistent(s: StateModel, t: NativeTouch)
    requires
        emulated_pressed(s.queue) == (s.pressed > 0),
    ensures
        ({
            let s2 = step_touch(s, t);
            emulated_pressed(s2.queue) == (s2.pressed > 0)
        }),
{
    let p = logical_pos_of(t.x_milli, t.y_milli, s.scale_milli);
    let q1 = s.queue.push(touch_event_model(s, t));
    lemma_emulated_push_nonbutton(s.queue, touch_event_model(s, t));
    let q2 = if t.phase == NativeTouchPhase::Moved && s.pressed > 0 {
        q1.push(EventModel::PointerMoved { pos: p })
    } else {
        q1
    };
    if t.phase == NativeTouchPhase::Moved && s.pressed > 0 {
        lemma_emulated_push_nonbutton(q1, EventModel::PointerMoved { pos: p });
    }
    let was = s.pressed > 0;
    let now = pressed_after(s.pressed, t.phase);
    if !was && now > 0 {
        lemma_emulated_push_primary(q2, p, true);
    } else if was && now == 0 {
        lemma_emulated_push_primary(q2, p, false);
        lemma_emulated_push_nonbutton(
            q2.push((EventModel::PointerButton { pos: p, button: UiButton::Primary, pressed: false })),
            EventModel::PointerGone,
        );
    }
}

/// Law (whole runs): over any touch-only event sequence, the
/// correspondence between the press counter and the synthetic pointer
/// is preserved: at the end the queue reads as pressed exactly when
/// the counter is positive.
pub proof fn lemma_touch_run_consistent(s: StateModel, evs: Seq<NativeEvent>)
    requires
        emulated_pressed(s.queue) == (s.pressed > 0),
        forall|i: int| 0 <= i < evs.len() ==> evs[i] is Touch,
    ensures
        ({
            let s2 = run(s, evs);
            emulated_pressed(s2.queue) == (s2.pressed > 0)
        }),
    decreases evs.len(),
{
    if evs.len() > 0 {
        assert(evs[0] is Touch);
        match evs.first() {
            NativeEvent::Touch { touch } => {
                lemma_touch_pointer_consistent(s, touch);
            },
            _ => {},
        }
        assert(forall|i: int|
            0 <= i < evs.drop_first().len() ==> #[trigger] evs.drop_first()[i] is Touch);
        lemma_touch_run_consistent(step(s, evs.first()), evs.drop_first());
    }
}

/// Law: from a freshly created platform, after any touch-only event
/// sequence, the queue reads as pressed exactly when the press counter
/// is positive.
pub proof fn lemma_touch_run_from_start(
    d: crate::platform::PlatformDescriptor,
    evs: Seq<NativeEvent>,
)
    requires
        forall|i: int| 0 <= i < evs.len() ==> evs[i] is Touch,
    ensures
        ({
            let s2 = run(crate::platform::initial_state(d), evs);
            emulated_pressed(s2.queue) == (s2.pressed > 0)
        }),
{
    lemma_touch_run_consistent(crate::platform::initial_state(d), evs);
}

/// Law: with no contact active, a touch start followed by a touch end
/// (no start in between) emits exactly, in this order: the raw
/// touch-start event, a synthetic primary press, the raw touch-end
/// event, a synthetic primary release, and pointer-gone.
pub proof fn lemma_touch_start_end_order(s: StateModel, t1: NativeTouch, t2: NativeTouch)
    requires
        s.pressed == 0,
        t1.phase == NativeTouchPhase::Started,
        t2.phase == NativeTouchPhase::Ended,
    ensures
        ({
            let p1 = logical_pos_of(t1.x_milli, t1.y_milli, s.scale_milli);
            let s1 = step_touch(s, t1);
            let p2 = logical_pos_of(t2.x_milli, t2.y_milli, s1.scale_milli);
            let s2 = step_touch(s1, t2);
            s2.queue == s.queue.push(touch_event_model(s, t1)).push(
                (EventModel::PointerButton { pos: p1, button: UiButton::Primary, pressed: true }),
            ).push(touch_event_model(s1, t2)).push(
                (EventModel::PointerButton { pos: p2, button: UiButton::Primary, pressed: false }),
            ).push(EventModel::PointerGone)
        }),
{
}

} // verus!
