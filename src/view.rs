//! The per-device input view: the state of each logical receiver, and the device class
//! that changed it last.
use vstd::prelude::*;

use crate::axis::{AxisState, AxisValue};
use crate::state::{Timestamp, PressState};

verus! {

/// A button of a gamepad.
#[derive(Clone, Copy, Debug, PartialEq, Eq, Structural, Hash)]
pub enum GamepadButtonType {
    South,
    East,
    North,
    West,
    C,
    Z,
    LeftTrigger,
    LeftTrigger2,
    RightTrigger,
    RightTrigger2,
    Select,
    Start,
    Mode,
    LeftThumb,
    RightThumb,
    DPadUp,
    DPadDown,
    DPadLeft,
    DPadRight,
    Other(u8),
}

/// An axis of a gamepad.
#[derive(Clone, Copy, Debug, PartialEq, Eq, Structural, Hash)]
pub enum GamepadAxisType {
    LeftStickX,
    LeftStickY,
    LeftZ,
    RightStickX,
    RightStickY,
    RightZ,
    Other(u8),
}

/// A logical receiver: one button or axis of one device class.
#[derive(Clone, Copy, Debug, PartialEq, Eq, Structural, Hash)]
pub enum InputReceiver {
    GamepadButton(GamepadButtonType),
    GamepadAxis(GamepadAxisType),
}

/// The device class that produced an input.
#[derive(Clone, Copy, Debug, PartialEq, Eq, Structural, Hash)]
pub enum InputSource {
    Gamepad,
    Keyboard,
    Mouse,
}

/// The map that a list of entries stands for; a later entry for a receiver overrides
/// an earlier one.
pub open spec fn entries_map(s: Seq<(InputReceiver, AxisState)>) -> Map<InputReceiver, AxisState>
    decreases s.len(),
{
    if s.len() == 0 {
        Map::empty()
    } else {
        entries_map(s.drop_last()).insert(s.last().0, s.last().1)
    }
}

pub open spec fn keys_unique(s: Seq<(InputReceiver, AxisState)>) -> bool {
    forall|i: int, j: int| 0 <= i < j < s.len() ==> #[trigger] s[i].0 != #[trigger] s[j].0
}

/// The state of `receiver` in a map of receivers: its entry, or the state at rest.
pub open spec fn state_in(m: Map<InputReceiver, AxisState>, receiver: InputReceiver) -> AxisState {
    if m.contains_key(receiver) {
        m[receiver]
    } else {
        AxisState::zero_spec()
    }
}

proof fn lemma_entries_map_lookup(s: Seq<(InputReceiver, AxisState)>, k: InputReceiver)
    requires
        keys_unique(s),
    ensures
        entries_map(s).contains_key(k) <==> exists|i: int| 0 <= i < s.len() && #[trigger] s[i].0 == k,
        forall|i: int| 0 <= i < s.len() && #[trigger] s[i].0 == k ==> entries_map(s)[k] == s[i].1,
    decreases s.len(),
{
    if s.len() > 0 {
        let t = s.drop_last();
        let n = s.len() - 1;
        assert(keys_unique(t));
        lemma_entries_map_lookup(t, k);
        assert forall|i: int| 0 <= i < s.len() && #[trigger] s[i].0 == k implies entries_map(
            s,
        ).contains_key(k) && entries_map(s)[k] == s[i].1 by {
            if i < n {
                assert(t[i].0 == k);
                assert(s[n].0 != s[i].0);
            }
        }
        if entries_map(s).contains_key(k) {
            if s[n].0 != k {
                let i = choose|i: int| 0 <= i < t.len() && #[trigger] t[i].0 == k;
                assert(s[i].0 == k);
            }
        }
    }
}

proof fn lemma_entries_map_update(s: Seq<(InputReceiver, AxisState)>, i: int, v: AxisState)
    requires
        keys_unique(s),
        0 <= i < s.len(),
    ensures
        entries_map(s.update(i, (s[i].0, v))) == entries_map(s).insert(s[i].0, v),
        keys_unique(s.update(i, (s[i].0, v))),
    decreases s.len(),
{
    let u = s.update(i, (s[i].0, v));
    let k = s[i].0;
    if i == s.len() - 1 {
        assert(u.drop_last() =~= s.drop_last());
        assert(entries_map(u) =~= entries_map(s).insert(k, v));
    } else {
        let t = s.drop_last();
        assert(keys_unique(t));
        assert(u.drop_last() =~= t.update(i, (t[i].0, v)));
        lemma_entries_map_update(t, i, v);
        assert(s.last().0 != k) by {
            assert(s[s.len() - 1].0 != s[i].0);
        }
        assert(entries_map(u) =~= entries_map(s).insert(k, v));
    }
    assert forall|a: int, b: int| 0 <= a < b < u.len() implies #[trigger] u[a].0 != #[trigger] u[b].0 by {
        assert(s[a].0 != s[b].0);
    }
}

/// A state after the stamping pass at `now`: a press that started on the last tick
/// takes `now` as its start.
pub open spec fn stamp_state(s: AxisState, now: Timestamp) -> AxisState {
    AxisState { value: s.value, press: s.press.stamped_spec(now) }
}

pub open spec fn stamp_entry(e: (InputReceiver, AxisState), now: Timestamp) -> (InputReceiver, AxisState) {
    (e.0, stamp_state(e.1, now))
}

proof fn lemma_entries_map_stamp(s: Seq<(InputReceiver, AxisState)>, now: Timestamp)
    ensures
        entries_map(s.map_values(|e: (InputReceiver, AxisState)| stamp_entry(e, now)))
            == entries_map(s).map_values(|a: AxisState| stamp_state(a, now)),
    decreases s.len(),
{
    let f = |e: (InputReceiver, AxisState)| stamp_entry(e, now);
    let g = |a: AxisState| stamp_state(a, now);
    if s.len() == 0 {
        assert(entries_map(s.map_values(f)) =~= entries_map(s).map_values(g));
    } else {
        let t = s.drop_last();
        assert(s.map_values(f).drop_last() =~= t.map_values(f));
        lemma_entries_map_stamp(t, now);
        assert(entries_map(s.map_values(f)) =~= entries_map(s).map_values(g));
    }
}

/// The input state of one device: the state of each receiver that has reported, and the
/// device class that changed it last.
#[derive(Clone, Debug)]
pub struct InputView {
    entries: Vec<(InputReceiver, AxisState)>,
    last_input_source: Option<InputSource>,
}

impl View for InputView {
    /// The state of each receiver that has reported, and the last source seen.
    type V = (Map<InputReceiver, AxisState>, Option<InputSource>);

    closed spec fn view(&self) -> (Map<InputReceiver, AxisState>, Option<InputSource>) {
        (entries_map(self.entries@), self.last_input_source)
    }
}

impl InputView {
    /// Each receiver has at most one entry.
    pub closed spec fn wf(&self) -> bool {
        keys_unique(self.entries@)
    }

    /// A view in which no receiver has reported and no source has been seen.
    pub fn new() -> (r: InputView)
        ensures
            r.wf(),
            r@.0 == Map::<InputReceiver, AxisState>::empty(),
            r@.1 is None,
    {
        let r = InputView { entries: Vec::new(), last_input_source: None };
        assert(r@.0 =~= Map::<InputReceiver, AxisState>::empty());
        r
    }

    fn find(&self, receiver: InputReceiver) -> (r: Option<usize>)
        requires
            self.wf(),
        ensures
            r matches Some(i) ==> i < self.entries@.len() && self.entries@[i as int].0 == receiver,
            r is None ==> !self@.0.contains_key(receiver),
    {
        let mut i: usize = 0;
        while i < self.entries.len()
            invariant
                i <= self.entries@.len(),
                forall|j: int| 0 <= j < i ==> (#[trigger] self.entries@[j]).0 != receiver,
            decreases self.entries@.len() - i,
        {
            if self.entries[i].0 == receiver {
                return Some(i);
            }
            i = i + 1;
        }
        proof {
            lemma_entries_map_lookup(self.entries@, receiver);
        }
        None
    }

    /// The device class that changed this view last.
    pub fn last_input_source(&self) -> (r: Option<InputSource>)
        ensures
            r == self@.1,
    {
        self.last_input_source
    }

    pub fn set_last_input_source(&mut self, source: Option<InputSource>)
        requires
            old(self).wf(),
        ensures
            final(self).wf(),
            final(self)@ == (old(self)@.0, source),
    {
        self.last_input_source = source;
    }

    /// The state of `receiver`: the last one set, or the state at rest if none was.
    pub fn get(&self, receiver: InputReceiver) -> (r: AxisState)
        requires
            self.wf(),
        ensures
            r == state_in(self@.0, receiver),
    {
        match self.find(receiver) {
            Some(i) => {
                proof {
                    lemma_entries_map_lookup(self.entries@, receiver);
                }
                self.entries[i].1
            },
            None => AxisState::zero(),
        }
    }

    /// The stamping pass of a tick: every press that started on the previous tick takes
    /// `now` as its start instant, which makes its duration measurable from now on.
    pub fn stamp_presses(&mut self, now: Timestamp)
        requires
            old(self).wf(),
        ensures
            final(self).wf(),
            final(self)@.0 == old(self)@.0.map_values(|a: AxisState| stamp_state(a, now)),
            final(self)@.1 == old(self)@.1,
    {
        let ghost s = self.entries@;
        let mut i: usize = 0;
        while i < self.entries.len()
            invariant
                self.entries@.len() == s.len(),
                i <= s.len(),
                self.last_input_source == old(self).last_input_source,
                s == old(self).entries@,
                keys_unique(s),
                forall|j: int| 0 <= j < i ==> #[trigger] self.entries@[j] == stamp_entry(s[j], now),
                forall|j: int| i <= j < s.len() ==> #[trigger] self.entries@[j] == s[j],
            decreases s.len() - i,
        {
            let (receiver, state) = self.entries[i];
            let stamped = AxisState::new(state.value, state.press.stamped(now));
            self.entries.set(i, (receiver, stamped));
            i = i + 1;
        }
        proof {
            assert(self.entries@ =~= s.map_values(
                |e: (InputReceiver, AxisState)| stamp_entry(e, now),
            ));
            lemma_entries_map_stamp(s, now);
            assert forall|a: int, b: int|
                0 <= a < b < self.entries@.len() implies #[trigger] self.entries@[a].0
                != #[trigger] self.entries@[b].0 by {
                assert(s[a].0 != s[b].0);
            }
        }
    }

    /// Sets the whole state of `receiver`.
    pub fn set_axis_state(&mut self, receiver: InputReceiver, state: AxisState)
        requires
            old(self).wf(),
        ensures
            final(self).wf(),
            final(self)@.0 == old(self)@.0.insert(receiver, state),
            final(self)@.1 == old(self)@.1,
    {
        match self.find(receiver) {
            Some(i) => {
                proof {
                    lemma_entries_map_update(self.entries@, i as int, state);
                }
                self.entries.set(i, (receiver, state));
            },
            None => {
                let ghost s = self.entries@;
                self.entries.push((receiver, state));
                proof {
                    assert(self.entries@.drop_last() =~= s);
                    lemma_entries_map_lookup(s, receiver);
                    assert forall|a: int, b: int|
                        0 <= a < b < self.entries@.len() implies #[trigger] self.entries@[a].0
                        != #[trigger] self.entries@[b].0 by {
                        if b == s.len() {
                            assert(s[a].0 == self.entries@[a].0);
                        }
                    }
                }
            },
        }
    }

    /// Sets the press state of `receiver`, keeping its reading.
    pub fn set_key_receiver_state(&mut self, receiver: InputReceiver, press: PressState)
        requires
            old(self).wf(),
        ensures
            final(self).wf(),
            final(self)@.0 == old(self)@.0.insert(
                receiver,
                AxisState { value: state_in(old(self)@.0, receiver).value, press },
            ),
            final(self)@.1 == old(self)@.1,
    {
        let current = self.get(receiver);
        self.set_axis_state(receiver, AxisState::new(current.value, press));
    }

    /// Sets the reading and the press state of `receiver` together.
    pub fn set_axis_value(&mut self, receiver: InputReceiver, value: AxisValue, press: PressState)
        requires
            old(self).wf(),
        ensures
            final(self).wf(),
            final(self)@.0 == old(self)@.0.insert(receiver, AxisState { value, press }),
            final(self)@.1 == old(self)@.1,
    {
        self.set_axis_state(receiver, AxisState::new(value, press));
    }
}

} // verus!
