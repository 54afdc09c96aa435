//! Translation of gamepad events into the input views of the devices they come from.
use vstd::prelude::*;

use crate::axis::{AxisState, AxisValue};
use crate::state::PressState;
use crate::view::{
    GamepadAxisType, GamepadButtonType, InputReceiver, InputSource, InputView,
};

verus! {

/// A physical gamepad, by its slot index.
#[derive(Clone, Copy, Debug, PartialEq, Eq, Structural, Hash)]
pub struct Gamepad {
    pub id: usize,
}

impl Gamepad {
    pub fn new(id: usize) -> (r: Gamepad)
        ensures
            r.id == id,
    {
        Gamepad { id }
    }
}

/// Label of the scheduled pass that translates gamepad events.
#[derive(Clone, Copy, Debug, PartialEq, Eq, Structural, Hash)]
pub struct GamepadInputHandlingSystem;

/// Binds an input view to the physical gamepad whose events it listens to.
///
/// Binding the marker to another gamepad keeps the states already in its view; they
/// change as events of the new gamepad arrive.
#[derive(Clone, Copy, Debug, PartialEq, Eq, Structural, Hash)]
pub struct GamepadMarker(pub Gamepad);

impl Default for GamepadMarker {
    /// Bound to the gamepad in the first slot.
    fn default() -> (r: GamepadMarker)
        ensures
            r.0.id == 0,
    {
        GamepadMarker(Gamepad::new(0))
    }
}

/// What happened on a gamepad.
#[derive(Clone, Copy, Debug, PartialEq, Eq, Structural, Hash)]
pub enum GamepadEventType {
    Connected,
    Disconnected,
    ButtonChanged(GamepadButtonType, AxisValue),
    AxisChanged(GamepadAxisType, AxisValue),
}

/// An event of one gamepad.
#[derive(Clone, Copy, Debug, PartialEq, Eq, Structural, Hash)]
pub struct GamepadEvent {
    pub gamepad: Gamepad,
    pub event_type: GamepadEventType,
}

impl GamepadEvent {
    pub fn new(gamepad: Gamepad, event_type: GamepadEventType) -> (r: GamepadEvent)
        ensures
            r.gamepad == gamepad,
            r.event_type == event_type,
    {
        GamepadEvent { gamepad, event_type }
    }
}

/// A view after a gamepad reported `value` with press state `press` on `receiver`.
pub open spec fn after_gamepad_input(
    v: (Map<InputReceiver, AxisState>, Option<InputSource>),
    receiver: InputReceiver,
    value: AxisValue,
    press: PressState,
) -> (Map<InputReceiver, AxisState>, Option<InputSource>) {
    (v.0.insert(receiver, AxisState { value, press }), Some(InputSource::Gamepad))
}

/// The receiver and the reading that an event reports, if it reports one.
pub open spec fn event_reading(e: GamepadEventType) -> Option<(InputReceiver, AxisValue)> {
    match e {
        GamepadEventType::ButtonChanged(kind, value) => Some(
            (InputReceiver::GamepadButton(kind), value),
        ),
        GamepadEventType::AxisChanged(kind, value) => Some((InputReceiver::GamepadAxis(kind), value)),
        _ => None,
    }
}

/// `j` is the first marker bound to `gamepad`.
pub open spec fn is_first_match(markers: Seq<GamepadMarker>, gamepad: Gamepad, j: int) -> bool {
    &&& 0 <= j < markers.len()
    &&& markers[j].0 == gamepad
    &&& forall|k: int| 0 <= k < j ==> (#[trigger] markers[k]).0 != gamepad
}

/// The views after one event: the view of the first marker bound to the event's gamepad
/// takes the reading; with no such marker, or no reading, nothing changes.
pub open spec fn apply_event(
    views: Seq<(Map<InputReceiver, AxisState>, Option<InputSource>)>,
    markers: Seq<GamepadMarker>,
    ev: GamepadEvent,
) -> Seq<(Map<InputReceiver, AxisState>, Option<InputSource>)> {
    match event_reading(ev.event_type) {
        Some((receiver, value)) => if exists|j: int| is_first_match(markers, ev.gamepad, j) {
            let j = choose|j: int| is_first_match(markers, ev.gamepad, j);
            views.update(j, after_gamepad_input(views[j], receiver, value, value.classify_spec()))
        } else {
            views
        },
        None => views,
    }
}

/// The views after a batch of events, taken in order.
pub open spec fn apply_events(
    views: Seq<(Map<InputReceiver, AxisState>, Option<InputSource>)>,
    markers: Seq<GamepadMarker>,
    events: Seq<GamepadEvent>,
) -> Seq<(Map<InputReceiver, AxisState>, Option<InputSource>)>
    decreases events.len(),
{
    if events.len() == 0 {
        views
    } else {
        apply_event(apply_events(views, markers, events.drop_last()), markers, events.last())
    }
}

/// The models of a sequence of views.
pub open spec fn views_model(views: Seq<InputView>) -> Seq<
    (Map<InputReceiver, AxisState>, Option<InputSource>),
> {
    views.map_values(|v: InputView| v@)
}

pub open spec fn all_wf(views: Seq<InputView>) -> bool {
    forall|i: int| 0 <= i < views.len() ==> (#[trigger] views[i]).wf()
}

proof fn lemma_first_match_unique(markers: Seq<GamepadMarker>, gamepad: Gamepad, a: int, b: int)
    requires
        is_first_match(markers, gamepad, a),
        is_first_match(markers, gamepad, b),
    ensures
        a == b,
{
    if a < b {
        assert(markers[a].0 != gamepad);
    } else if b < a {
        assert(markers[b].0 != gamepad);
    }
}

/// An event of a gamepad that no marker is bound to leaves every view as it was.
pub proof fn lemma_unbound_gamepad_changes_nothing(
    views: Seq<(Map<InputReceiver, AxisState>, Option<InputSource>)>,
    markers: Seq<GamepadMarker>,
    ev: GamepadEvent,
)
    requires
        forall|j: int| 0 <= j < markers.len() ==> (#[trigger] markers[j]).0 != ev.gamepad,
    ensures
        apply_event(views, markers, ev) == views,
{
}

/// A batch of events none of which comes from a gamepad that a marker is bound to
/// leaves every view as it was.
pub proof fn lemma_unbound_events_change_nothing(
    views: Seq<(Map<InputReceiver, AxisState>, Option<InputSource>)>,
    markers: Seq<GamepadMarker>,
    events: Seq<GamepadEvent>,
)
    requires
        forall|i: int, j: int|
            #![trigger events[i], markers[j]]
            0 <= i < events.len() && 0 <= j < markers.len() ==> markers[j].0 != events[i].gamepad,
    ensures
        apply_events(views, markers, events) == views,
    decreases events.len(),
{
    if events.len() > 0 {
        let rest = events.drop_last();
        assert forall|i: int, j: int|
            #![trigger rest[i], markers[j]]
            0 <= i < rest.len() && 0 <= j < markers.len() implies markers[j].0 != rest[i].gamepad by {
            assert(rest[i] == events[i]);
        }
        lemma_unbound_events_change_nothing(views, markers, rest);
        let last = events.len() - 1;
        assert forall|j: int| 0 <= j < markers.len() implies (#[trigger] markers[j]).0
            != events.last().gamepad by {
            assert(markers[j].0 != events[last].gamepad);
        }
        lemma_unbound_gamepad_changes_nothing(views, markers, events.last());
    }
}

/// Of the views whose markers are bound to the event's gamepad, only the first one's
/// can change; every other view stays as it was.
pub proof fn lemma_only_first_bound_view_changes(
    views: Seq<(Map<InputReceiver, AxisState>, Option<InputSource>)>,
    markers: Seq<GamepadMarker>,
    ev: GamepadEvent,
    j: int,
)
    requires
        views.len() == markers.len(),
        is_first_match(markers, ev.gamepad, j),
    ensures
        apply_event(views, markers, ev).len() == views.len(),
        forall|k: int|
            0 <= k < views.len() && k != j ==> #[trigger] apply_event(views, markers, ev)[k]
                == views[k],
{
    if event_reading(ev.event_type) is Some {
        let jj = choose|jj: int| is_first_match(markers, ev.gamepad, jj);
        lemma_first_match_unique(markers, ev.gamepad, j, jj);
    }
}

impl GamepadMarker {
    /// Sets the state of `button` in `view` and records the gamepad as the view's last
    /// input source.
    pub fn set_gamepad_button_state(
        &mut self,
        view: &mut InputView,
        button: GamepadButtonType,
        state: PressState,
        duration: AxisValue,
    )
        requires
            old(view).wf(),
        ensures
            *final(self) == *old(self),
            final(view).wf(),
            final(view)@ == after_gamepad_input(
                old(view)@,
                InputReceiver::GamepadButton(button),
                duration,
                state,
            ),
    {
        view.set_last_input_source(Some(InputSource::Gamepad));
        view.set_key_receiver_state(InputReceiver::GamepadButton(button), state);
        view.set_axis_value(InputReceiver::GamepadButton(button), duration, state);
        assert(view@.0 =~= old(view)@.0.insert(
            InputReceiver::GamepadButton(button),
            AxisState { value: duration, press: state },
        ));
    }

    /// Sets the state of `axis` in `view` and records the gamepad as the view's last
    /// input source.
    pub fn set_gamepad_axis_state(
        &mut self,
        view: &mut InputView,
        axis: GamepadAxisType,
        state: PressState,
        duration: AxisValue,
    )
        requires
            old(view).wf(),
        ensures
            *final(self) == *old(self),
            final(view).wf(),
            final(view)@ == after_gamepad_input(
                old(view)@,
                InputReceiver::GamepadAxis(axis),
                duration,
                state,
            ),
    {
        view.set_last_input_source(Some(InputSource::Gamepad));
        view.set_key_receiver_state(InputReceiver::GamepadAxis(axis), state);
        view.set_axis_value(InputReceiver::GamepadAxis(axis), duration, state);
        assert(view@.0 =~= old(view)@.0.insert(
            InputReceiver::GamepadAxis(axis),
            AxisState { value: duration, press: state },
        ));
    }
}

/// The index of the first marker bound to `gamepad`, if any.
fn first_match(markers: &Vec<GamepadMarker>, gamepad: Gamepad) -> (r: Option<usize>)
    ensures
        r matches Some(j) ==> is_first_match(markers@, gamepad, j as int),
        r is None ==> !exists|j: int| is_first_match(markers@, gamepad, j),
{
    let mut i: usize = 0;
    while i < markers.len()
        invariant
            i <= markers@.len(),
            forall|k: int| 0 <= k < i ==> (#[trigger] markers@[k]).0 != gamepad,
        decreases markers@.len() - i,
    {
        if markers[i].0 == gamepad {
            return Some(i);
        }
        i = i + 1;
    }
    None
}

/// Applies one gamepad event to the views, where `views[i]` belongs to `markers[i]`.
///
/// A button or axis reading goes to the view of the first marker bound to the event's
/// gamepad: within the dead zone it reads as released, outside it as a press that starts
/// on this tick. The raw reading is kept either way. Events of gamepads that no marker is
/// bound to, and events without a reading, change nothing.
pub fn handle_gamepad_event(
    views: &mut Vec<InputView>,
    markers: &Vec<GamepadMarker>,
    ev: &GamepadEvent,
)
    requires
        old(views)@.len() == markers@.len(),
        all_wf(old(views)@),
    ensures
        final(views)@.len() == markers@.len(),
        all_wf(final(views)@),
        views_model(final(views)@) == apply_event(views_model(old(views)@), markers@, *ev),
{
    match ev.event_type {
        GamepadEventType::ButtonChanged(kind, duration) => {
            if let Some(j) = first_match(markers, ev.gamepad) {
                let state = duration.classify();
                let mut marker = markers[j];
                marker.set_gamepad_button_state(&mut views[j], kind, state, duration);
                proof {
                    let old_m = views_model(old(views)@);
                    let jj = choose|jj: int| is_first_match(markers@, ev.gamepad, jj);
                    lemma_first_match_unique(markers@, ev.gamepad, j as int, jj);
                    assert(views_model(views@) =~= apply_event(old_m, markers@, *ev));
                }
            }
        },
        GamepadEventType::AxisChanged(kind, value) => {
            if let Some(j) = first_match(markers, ev.gamepad) {
                let state = value.classify();
                let mut marker = markers[j];
                marker.set_gamepad_axis_state(&mut views[j], kind, state, value);
                proof {
                    let old_m = views_model(old(views)@);
                    let jj = choose|jj: int| is_first_match(markers@, ev.gamepad, jj);
                    lemma_first_match_unique(markers@, ev.gamepad, j as int, jj);
                    assert(views_model(views@) =~= apply_event(old_m, markers@, *ev));
                }
            }
        },
        _ => {},
    }
}

/// Applies a batch of gamepad events, in order, to the views, where `views[i]` belongs
/// to `markers[i]`.
pub fn gamepad_input_system(
    views: &mut Vec<InputView>,
    markers: &Vec<GamepadMarker>,
    events: &Vec<GamepadEvent>,
)
    requires
        old(views)@.len() == markers@.len(),
        all_wf(old(views)@),
    ensures
        final(views)@.len() == markers@.len(),
        all_wf(final(views)@),
        views_model(final(views)@) == apply_events(views_model(old(views)@), markers@, events@),
{
    let mut i: usize = 0;
    while i < events.len()
        invariant
            i <= events@.len(),
            views@.len() == markers@.len(),
            all_wf(views@),
            views_model(views@) == apply_events(
                views_model(old(views)@),
                markers@,
                events@.take(i as int),
            ),
        decreases events@.len() - i,
    {
        handle_gamepad_event(views, markers, &events[i]);
        proof {
            assert(events@.take(i + 1).drop_last() =~= events@.take(i as int));
        }
        i = i + 1;
    }
    proof {
        assert(events@.take(events@.len() as int) =~= events@);
    }
}

} // verus!
