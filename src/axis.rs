//! Axis readings: a magnitude paired with a press state, and predicates over many of them.
use vstd::prelude::*;

use crate::state::{Timestamp, PressState};

verus! {

/// Bit pattern of the single-precision number nearest to 0.1: the dead-zone threshold.
pub const DEAD_ZONE_BITS: u32 = 0x3dcc_cccd;

/// Mask that clears the sign bit of a single-precision bit pattern.
pub const MAGNITUDE_MASK: u32 = 0x7fff_ffff;

/// The raw magnitude of a reading, held as the bit pattern of an IEEE-754
/// single-precision number.
///
/// With the sign bit cleared, the bit patterns of non-negative numbers are ordered as
/// the numbers are, and every NaN lies above every number. A comparison of absolute
/// values is therefore a comparison of masked bit patterns.
#[derive(Clone, Copy, Debug, PartialEq, Eq, Structural, Hash)]
pub struct AxisValue {
    pub bits: u32,
}

/// The bit pattern of the absolute value of the number with bit pattern `bits`.
pub open spec fn magnitude_bits(bits: u32) -> u32 {
    bits & MAGNITUDE_MASK
}

impl AxisValue {
    /// A reading lies in the dead zone when its absolute value is at most 0.1; a NaN
    /// does not.
    pub open spec fn in_dead_zone_spec(self) -> bool {
        magnitude_bits(self.bits) <= DEAD_ZONE_BITS
    }

    pub fn from_bits(bits: u32) -> (r: AxisValue)
        ensures
            r.bits == bits,
    {
        AxisValue { bits }
    }

    pub fn to_bits(&self) -> (r: u32)
        ensures
            r == self.bits,
    {
        self.bits
    }

    /// Positive zero.
    pub fn zero() -> (r: AxisValue)
        ensures
            r.bits == 0,
    {
        AxisValue { bits: 0 }
    }

    pub fn in_dead_zone(&self) -> (r: bool)
        ensures
            r == self.in_dead_zone_spec(),
    {
        (self.bits & MAGNITUDE_MASK) <= DEAD_ZONE_BITS
    }

    /// The press state that a reading stands for: `Released` inside the dead zone,
    /// a press that starts on this tick outside it.
    pub open spec fn classify_spec(self) -> PressState {
        if self.in_dead_zone_spec() {
            PressState::Released
        } else {
            PressState::Pressed { started_pressing_instant: None }
        }
    }

    pub fn classify(&self) -> (r: PressState)
        ensures
            r == self.classify_spec(),
    {
        if self.in_dead_zone() {
            PressState::Released
        } else {
            PressState::Pressed { started_pressing_instant: None }
        }
    }
}

/// The current reading of an axis or a button: how far it is moved, and its press state.
#[derive(Clone, Copy, Debug, PartialEq, Eq, Structural, Hash)]
pub struct AxisState {
    pub value: AxisValue,
    pub press: PressState,
}

impl AxisState {
    /// The state at rest: a zero reading, released.
    pub open spec fn zero_spec() -> AxisState {
        AxisState { value: AxisValue { bits: 0 }, press: PressState::Released }
    }

    pub fn zero() -> (r: AxisState)
        ensures
            r == AxisState::zero_spec(),
            r.value.bits == 0,
            r.press == PressState::Released,
    {
        AxisState { value: AxisValue::zero(), press: PressState::Released }
    }

    pub fn new(value: AxisValue, press: PressState) -> (r: AxisState)
        ensures
            r.value == value,
            r.press == press,
    {
        AxisState { value, press }
    }

    /// Replaces the reading and the press state together.
    pub fn set(&mut self, value: AxisValue, press: PressState)
        ensures
            final(self).value == value,
            final(self).press == press,
    {
        self.value = value;
        self.press = press;
    }
}

impl Default for AxisState {
    fn default() -> (r: AxisState)
        ensures
            r == AxisState::zero_spec(),
    {
        AxisState::zero()
    }
}

pub open spec fn all_pressed(s: Seq<AxisState>) -> bool {
    forall|i: int| 0 <= i < s.len() ==> (#[trigger] s[i]).press.is_pressed()
}

pub open spec fn all_just_pressed(s: Seq<AxisState>, now: Timestamp) -> bool {
    forall|i: int| 0 <= i < s.len() ==> (#[trigger] s[i]).press.just_pressed_spec(now)
}

pub open spec fn all_released(s: Seq<AxisState>) -> bool {
    forall|i: int| 0 <= i < s.len() ==> (#[trigger] s[i]).press.is_released()
}

/// Predicates that hold when every reading of a collection satisfies them; an empty
/// collection satisfies all of them.
pub trait AxisStateVecExt {
    /// The readings that the predicates range over.
    spec fn axis_states(&self) -> Seq<AxisState>;

    fn is_all_pressed(&mut self) -> (r: bool)
        ensures
            r == all_pressed(old(self).axis_states()),
            final(self).axis_states() == old(self).axis_states(),
    ;

    fn is_all_just_pressed(&mut self, now: Timestamp) -> (r: bool)
        ensures
            r == all_just_pressed(old(self).axis_states(), now),
            final(self).axis_states() == old(self).axis_states(),
    ;

    fn is_all_released(&mut self) -> (r: bool)
        ensures
            r == all_released(old(self).axis_states()),
            final(self).axis_states() == old(self).axis_states(),
    ;
}

impl AxisStateVecExt for Vec<AxisState> {
    open spec fn axis_states(&self) -> Seq<AxisState> {
        self@
    }

    fn is_all_pressed(&mut self) -> (r: bool) {
        let mut i: usize = 0;
        while i < self.len()
            invariant
                i <= self@.len(),
                *self == *old(self),
                forall|j: int| 0 <= j < i ==> (#[trigger] self@[j]).press.is_pressed(),
            decreases self@.len() - i,
        {
            if !self[i].press.pressed() {
                return false;
            }
            i = i + 1;
        }
        true
    }

    fn is_all_just_pressed(&mut self, now: Timestamp) -> (r: bool) {
        let mut i: usize = 0;
        while i < self.len()
            invariant
                i <= self@.len(),
                *self == *old(self),
                forall|j: int| 0 <= j < i ==> (#[trigger] self@[j]).press.just_pressed_spec(now),
            decreases self@.len() - i,
        {
            if !self[i].press.just_pressed(now) {
                return false;
            }
            i = i + 1;
        }
        true
    }

    fn is_all_released(&mut self) -> (r: bool) {
        let mut i: usize = 0;
        while i < self.len()
            invariant
                i <= self@.len(),
                *self == *old(self),
                forall|j: int| 0 <= j < i ==> (#[trigger] self@[j]).press.is_released(),
            decreases self@.len() - i,
        {
            if !self[i].press.released() {
                return false;
            }
            i = i + 1;
        }
        true
    }
}

/// Borrowed readings, such as a part of a `Vec`.
impl AxisStateVecExt for [AxisState] {
    open spec fn axis_states(&self) -> Seq<AxisState> {
        self@
    }

    fn is_all_pressed(&mut self) -> (r: bool) {
        let mut i: usize = 0;
        while i < self.len()
            invariant
                i <= self@.len(),
                self@ == old(self)@,
                forall|j: int| 0 <= j < i ==> (#[trigger] self@[j]).press.is_pressed(),
            decreases self@.len() - i,
        {
            if !self[i].press.pressed() {
                return false;
            }
            i = i + 1;
        }
        true
    }

    fn is_all_just_pressed(&mut self, now: Timestamp) -> (r: bool) {
        let mut i: usize = 0;
        while i < self.len()
            invariant
                i <= self@.len(),
                self@ == old(self)@,
                forall|j: int| 0 <= j < i ==> (#[trigger] self@[j]).press.just_pressed_spec(now),
            decreases self@.len() - i,
        {
            if !self[i].press.just_pressed(now) {
                return false;
            }
            i = i + 1;
        }
        true
    }

    fn is_all_released(&mut self) -> (r: bool) {
        let mut i: usize = 0;
        while i < self.len()
            invariant
                i <= self@.len(),
                self@ == old(self)@,
                forall|j: int| 0 <= j < i ==> (#[trigger] self@[j]).press.is_released(),
            decreases self@.len() - i,
        {
            if !self[i].press.released() {
                return false;
            }
            i = i + 1;
        }
        true
    }
}

} // verus!
