//! The press state of a button or axis, its time bookkeeping and ordering.
use std::cmp::Ordering;

use vstd::prelude::*;
use vstd::std_specs::convert::FromSpec;

verus! {

/// Nanoseconds in one millisecond.
pub const NANOS_PER_MILLI: u64 = 1_000_000;

/// A reading of the host's monotonic clock, in nanoseconds since the clock's origin.
#[derive(Clone, Copy, Debug, PartialEq, Eq, Structural, Hash, PartialOrd, Ord)]
pub struct Timestamp {
    pub nanos: u64,
}

/// A span of time, in nanoseconds.
#[derive(Clone, Copy, Debug, PartialEq, Eq, Structural, Hash, PartialOrd, Ord)]
pub struct Duration {
    pub nanos: u64,
}

impl Timestamp {
    pub fn from_nanos(nanos: u64) -> (r: Timestamp)
        ensures
            r.nanos == nanos,
    {
        Timestamp { nanos }
    }

    /// Time from `self` to `now`; zero when `now` is not later than `self`.
    pub open spec fn elapsed_spec(self, now: Timestamp) -> Duration {
        if now.nanos >= self.nanos {
            Duration { nanos: (now.nanos - self.nanos) as u64 }
        } else {
            Duration { nanos: 0 }
        }
    }

    pub fn elapsed_at(&self, now: Timestamp) -> (r: Duration)
        ensures
            r == self.elapsed_spec(now),
    {
        if now.nanos >= self.nanos {
            Duration { nanos: now.nanos - self.nanos }
        } else {
            Duration { nanos: 0 }
        }
    }
}

impl Duration {
    pub fn from_nanos(nanos: u64) -> (r: Duration)
        ensures
            r.nanos == nanos,
    {
        Duration { nanos }
    }

    pub fn from_millis(millis: u64) -> (r: Duration)
        requires
            millis * NANOS_PER_MILLI <= u64::MAX,
        ensures
            r.nanos == millis * NANOS_PER_MILLI,
    {
        Duration { nanos: millis * NANOS_PER_MILLI }
    }

    pub fn zero() -> (r: Duration)
        ensures
            r.nanos == 0,
    {
        Duration { nanos: 0 }
    }
}

/// The two-state signal that a button reports.
#[derive(Clone, Copy, Debug, PartialEq, Eq, Structural, Hash)]
pub enum ButtonState {
    Pressed,
    Released,
}

/// The current state of an axis or a button.
///
/// `Pressed` carries the instant at which the press started. On the tick on which the
/// press begins that instant is not known yet (`None`); the surrounding schedule fills
/// it in on the following tick, which makes durations measurable from then on.
///
/// The variants are declared in their order: `Released` comes before every `Pressed`.
#[derive(Clone, Copy, Debug, PartialEq, Eq, Structural, Hash, Ord)]
pub enum PressState {
    Released,
    Pressed { started_pressing_instant: Option<Timestamp> },
}

/// Whether a press that started at `since` still counts as just pressed at `now`.
pub open spec fn within_just_pressed_window(since: Timestamp, now: Timestamp) -> bool {
    since.elapsed_spec(now).nanos <= NANOS_PER_MILLI
}

/// Order of two optional instants: an absent instant comes first.
pub open spec fn cmp_instants(a: Option<Timestamp>, b: Option<Timestamp>) -> Ordering {
    match (a, b) {
        (None, None) => Ordering::Equal,
        (None, Some(_)) => Ordering::Less,
        (Some(_), None) => Ordering::Greater,
        (Some(x), Some(y)) => if x.nanos < y.nanos {
            Ordering::Less
        } else if x.nanos == y.nanos {
            Ordering::Equal
        } else {
            Ordering::Greater
        },
    }
}

/// Order of two press states: `Released` below every `Pressed`, and two `Pressed`
/// states by their start instants.
pub open spec fn cmp_press(a: PressState, b: PressState) -> Ordering {
    match (a, b) {
        (PressState::Released, PressState::Released) => Ordering::Equal,
        (PressState::Released, PressState::Pressed { .. }) => Ordering::Less,
        (PressState::Pressed { .. }, PressState::Released) => Ordering::Greater,
        (
            PressState::Pressed { started_pressing_instant: x },
            PressState::Pressed { started_pressing_instant: y },
        ) => cmp_instants(x, y),
    }
}

impl PressState {
    pub open spec fn is_released(self) -> bool {
        self is Released
    }

    pub open spec fn is_pressed(self) -> bool {
        self is Pressed
    }

    pub open spec fn just_pressed_spec(self, now: Timestamp) -> bool {
        match self {
            PressState::Released => false,
            PressState::Pressed { started_pressing_instant: None } => true,
            PressState::Pressed { started_pressing_instant: Some(t) } => within_just_pressed_window(
                t,
                now,
            ),
        }
    }

    pub open spec fn is_pressed_for_spec(self, duration: Duration, now: Timestamp) -> bool {
        match self {
            PressState::Pressed { started_pressing_instant: Some(t) } => t.elapsed_spec(now).nanos
                >= duration.nanos,
            _ => false,
        }
    }

    pub open spec fn elapsed_spec(self, now: Timestamp) -> Option<Duration> {
        match self {
            PressState::Released => None,
            PressState::Pressed { started_pressing_instant: None } => Some(Duration { nanos: 0 }),
            PressState::Pressed { started_pressing_instant: Some(t) } => Some(t.elapsed_spec(now)),
        }
    }

    /// Whether the state is `Released`.
    pub fn released(&self) -> (r: bool)
        ensures
            r == self.is_released(),
    {
        match self {
            PressState::Released => true,
            PressState::Pressed { .. } => false,
        }
    }

    /// Whether the state is `Pressed`, with or without a start instant.
    pub fn pressed(&self) -> (r: bool)
        ensures
            r == self.is_pressed(),
    {
        match self {
            PressState::Released => false,
            PressState::Pressed { .. } => true,
        }
    }

    /// Whether the press started on this tick: either its start instant is not known
    /// yet, or at most one millisecond lies between it and `now`.
    pub fn just_pressed(&self, now: Timestamp) -> (r: bool)
        ensures
            r == self.just_pressed_spec(now),
    {
        match self {
            PressState::Released => false,
            PressState::Pressed { started_pressing_instant: None } => true,
            PressState::Pressed { started_pressing_instant: Some(t) } => t.elapsed_at(now).nanos
                <= NANOS_PER_MILLI,
        }
    }

    /// Whether the state has been pressed, with a known start, for at least `duration`
    /// at `now`.
    pub fn is_pressed_for(&self, duration: Duration, now: Timestamp) -> (r: bool)
        ensures
            r == self.is_pressed_for_spec(duration, now),
    {
        match self {
            PressState::Pressed { started_pressing_instant: Some(t) } => t.elapsed_at(now).nanos
                >= duration.nanos,
            _ => false,
        }
    }

    /// The time since the press started: zero while its start is not known yet, and
    /// `None` for `Released`.
    pub fn elapsed(&self, now: Timestamp) -> (r: Option<Duration>)
        ensures
            r == self.elapsed_spec(now),
    {
        match self {
            PressState::Released => None,
            PressState::Pressed { started_pressing_instant: None } => Some(Duration::zero()),
            PressState::Pressed { started_pressing_instant: Some(t) } => Some(t.elapsed_at(now)),
        }
    }
}

impl PressState {
    pub open spec fn stamped_spec(self, now: Timestamp) -> PressState {
        match self {
            PressState::Pressed { started_pressing_instant: None } => PressState::Pressed {
                started_pressing_instant: Some(now),
            },
            _ => self,
        }
    }

    /// The state on the tick after a press began: a press without a start instant
    /// takes `now` as its start; any other state stays as it is.
    pub fn stamped(&self, now: Timestamp) -> (r: PressState)
        ensures
            r == self.stamped_spec(now),
    {
        match self {
            PressState::Pressed { started_pressing_instant: None } => PressState::Pressed {
                started_pressing_instant: Some(now),
            },
            _ => *self,
        }
    }
}

/// The opposite of an ordering.
pub open spec fn reversed(o: Ordering) -> Ordering {
    match o {
        Ordering::Less => Ordering::Greater,
        Ordering::Equal => Ordering::Equal,
        Ordering::Greater => Ordering::Less,
    }
}

/// A pressed state whose press started at `t`, if known.
pub open spec fn pressed_since(t: Option<Timestamp>) -> PressState {
    PressState::Pressed { started_pressing_instant: t }
}

/// The `Debug` text of `Some(d)`, where `d` is a `std::time::Duration` of `nanos`
/// nanoseconds.
pub uninterp spec fn elapsed_debug_text(nanos: u64) -> Seq<char>;

/// Relies on `format!` with the `Debug` text of `Option<std::time::Duration>`; the text
/// depends on the nanoseconds alone.
#[verifier::external_body]
fn format_elapsed_debug(nanos: u64) -> (r: String)
    ensures
        r@ == elapsed_debug_text(nanos),
{
    format!("{:?}", Some(std::time::Duration::from_nanos(nanos)))
}

impl PressState {
    pub open spec fn describe_spec(self, now: Timestamp) -> Seq<char> {
        match self {
            PressState::Released => "Released"@,
            PressState::Pressed { .. } => if self.just_pressed_spec(now) {
                "Pressing since Now"@
            } else {
                "Pressing for "@ + elapsed_debug_text(self.elapsed_spec(now)->0.nanos)
            },
        }
    }

    /// A short text for the state at `now`: released, just pressed, or pressed for how
    /// long.
    pub fn describe(&self, now: Timestamp) -> (r: String)
        ensures
            r@ == self.describe_spec(now),
    {
        match self {
            PressState::Released => "Released".to_owned(),
            PressState::Pressed { started_pressing_instant: None } => "Pressing since Now".to_owned(),
            PressState::Pressed { started_pressing_instant: Some(t) } => {
                if self.just_pressed(now) {
                    "Pressing since Now".to_owned()
                } else {
                    let text = format_elapsed_debug(t.elapsed_at(now).nanos);
                    let mut out = "Pressing for ".to_owned();
                    out.append(text.as_str());
                    out
                }
            },
        }
    }
}

/// `Released` orders below every `Pressed` state, and every `Pressed` state above
/// `Released`.
pub proof fn lemma_released_below_pressed(t: Option<Timestamp>)
    ensures
        cmp_press(PressState::Released, pressed_since(t)) == Ordering::Less,
        cmp_press(pressed_since(t), PressState::Released) == Ordering::Greater,
{
}

/// A press that started earlier orders below one that started later.
pub proof fn lemma_earlier_press_below_later(t1: Timestamp, t2: Timestamp)
    requires
        t1.nanos < t2.nanos,
    ensures
        cmp_press(pressed_since(Some(t1)), pressed_since(Some(t2))) == Ordering::Less,
{
}

/// The order of press states is a total order: comparing the other way round gives the
/// reverse result, only equal states compare equal, and it is transitive.
pub proof fn lemma_press_order_total(a: PressState, b: PressState, c: PressState)
    ensures
        cmp_press(b, a) == reversed(cmp_press(a, b)),
        (cmp_press(a, b) == Ordering::Equal) <==> (a == b),
        (cmp_press(a, b) != Ordering::Greater && cmp_press(b, c) != Ordering::Greater) ==> (
        cmp_press(a, c) != Ordering::Greater),
        (cmp_press(a, b) == Ordering::Less && cmp_press(b, c) == Ordering::Less) ==> (cmp_press(
            a,
            c,
        ) == Ordering::Less),
{
}

/// A press whose start instant is not known yet is just pressed, whatever the time.
pub proof fn lemma_unstamped_press_just_pressed(now: Timestamp)
    ensures
        pressed_since(None).just_pressed_spec(now),
{
}

/// A press that started at `t` is just pressed at `now` exactly when at most one
/// millisecond has passed since `t`.
pub proof fn lemma_just_pressed_window(t: Timestamp, now: Timestamp)
    requires
        t.nanos <= now.nanos,
    ensures
        pressed_since(Some(t)).just_pressed_spec(now) <==> (now.nanos - t.nanos <= NANOS_PER_MILLI),
{
}

/// A released state is pressed for no duration, and a press whose start is not known
/// yet is pressed for no duration either.
pub proof fn lemma_pressed_for_needs_start(duration: Duration, now: Timestamp)
    ensures
        !PressState::Released.is_pressed_for_spec(duration, now),
        !pressed_since(None).is_pressed_for_spec(duration, now),
{
}

/// The conversion from a button's signal: `Pressed` becomes a press without a start
/// instant, `Released` stays released.
pub proof fn lemma_from_button_state()
    ensures
        PressState::from_spec(ButtonState::Pressed) == pressed_since(None),
        PressState::from_spec(ButtonState::Released) == PressState::Released,
{
}

impl PartialOrd for PressState {
    fn partial_cmp(&self, other: &PressState) -> (r: Option<Ordering>) {
        match (self, other) {
            (PressState::Released, PressState::Released) => Some(Ordering::Equal),
            (PressState::Released, PressState::Pressed { .. }) => Some(Ordering::Less),
            (PressState::Pressed { .. }, PressState::Released) => Some(
                Ordering::Greater,
            ),
            (
                PressState::Pressed { started_pressing_instant: a },
                PressState::Pressed { started_pressing_instant: b },
            ) => match (a, b) {
                (None, None) => Some(Ordering::Equal),
                (None, Some(_)) => Some(Ordering::Less),
                (Some(_), None) => Some(Ordering::Greater),
                (Some(x), Some(y)) => if x.nanos < y.nanos {
                    Some(Ordering::Less)
                } else if x.nanos == y.nanos {
                    Some(Ordering::Equal)
                } else {
                    Some(Ordering::Greater)
                },
            },
        }
    }
}

impl vstd::std_specs::cmp::PartialOrdSpecImpl for PressState {
    open spec fn obeys_partial_cmp_spec() -> bool {
        true
    }

    open spec fn partial_cmp_spec(&self, other: &PressState) -> Option<Ordering> {
        Some(cmp_press(*self, *other))
    }
}

impl From<ButtonState> for PressState {
    fn from(value: ButtonState) -> (r: PressState) {
        match value {
            ButtonState::Pressed => PressState::Pressed { started_pressing_instant: None },
            ButtonState::Released => PressState::Released,
        }
    }
}

impl vstd::std_specs::convert::FromSpecImpl<ButtonState> for PressState {
    open spec fn obeys_from_spec() -> bool {
        true
    }

    open spec fn from_spec(v: ButtonState) -> PressState {
        match v {
            ButtonState::Pressed => PressState::Pressed { started_pressing_instant: None },
            ButtonState::Released => PressState::Released,
        }
    }
}

} // verus!
