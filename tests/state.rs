use std::cmp::Ordering;

use ezinput::clock::saturating_reading;
use ezinput::{AxisState, AxisStateVecExt, AxisValue, ButtonState, Duration, Timestamp, PressState};

fn pressed_at(nanos: u64) -> PressState {
    PressState::Pressed { started_pressing_instant: Some(Timestamp::from_nanos(nanos)) }
}

fn fresh() -> PressState {
    PressState::Pressed { started_pressing_instant: None }
}

fn value(v: f32) -> AxisValue {
    AxisValue::from_bits(v.to_bits())
}

#[test]
fn partial_ord_press_state_test() {
    let now: u64 = 5_000_000_000;
    let a = pressed_at(now);
    let b = pressed_at(now + 342534 * 1_000_000_000);
    let value = a.cmp(&b);
    assert_eq!(value, Ordering::Less);
}

#[test]
fn released_orders_below_every_press() {
    for p in [fresh(), pressed_at(0), pressed_at(u64::MAX)] {
        assert_eq!(PressState::Released.cmp(&p), Ordering::Less);
        assert_eq!(p.cmp(&PressState::Released), Ordering::Greater);
        assert_eq!(PressState::Released.partial_cmp(&p), Some(Ordering::Less));
        assert_eq!(p.partial_cmp(&PressState::Released), Some(Ordering::Greater));
    }
    assert_eq!(PressState::Released.partial_cmp(&PressState::Released), Some(Ordering::Equal));
}

#[test]
fn earlier_press_orders_below_later() {
    assert!(pressed_at(10) < pressed_at(11));
    assert_eq!(pressed_at(10).partial_cmp(&pressed_at(11)), Some(Ordering::Less));
    assert_eq!(pressed_at(11).partial_cmp(&pressed_at(10)), Some(Ordering::Greater));
    assert_eq!(pressed_at(7).partial_cmp(&pressed_at(7)), Some(Ordering::Equal));
    assert_eq!(fresh().partial_cmp(&pressed_at(0)), Some(Ordering::Less));
    assert_eq!(fresh().cmp(&pressed_at(0)), Ordering::Less);
    let mut states = vec![pressed_at(30), PressState::Released, fresh(), pressed_at(20)];
    states.sort();
    assert_eq!(states, vec![PressState::Released, fresh(), pressed_at(20), pressed_at(30)]);
}

#[test]
fn unstamped_press_is_just_pressed() {
    assert!(fresh().just_pressed(Timestamp::from_nanos(0)));
    assert!(fresh().just_pressed(Timestamp::from_nanos(u64::MAX)));
    assert!(!PressState::Released.just_pressed(Timestamp::from_nanos(0)));
}

#[test]
fn just_pressed_within_one_millisecond() {
    let t: u64 = 1_000_000_000;
    assert!(pressed_at(t).just_pressed(Timestamp::from_nanos(t)));
    assert!(pressed_at(t).just_pressed(Timestamp::from_nanos(t + 500_000)));
    assert!(pressed_at(t).just_pressed(Timestamp::from_nanos(t + 1_000_000)));
    assert!(!pressed_at(t).just_pressed(Timestamp::from_nanos(t + 1_000_001)));
    assert!(!pressed_at(t).just_pressed(Timestamp::from_nanos(t + 2_000_000)));
    // A start after `now` has no elapsed time yet.
    assert!(pressed_at(t).just_pressed(Timestamp::from_nanos(t - 5_000_000)));
}

#[test]
fn pressed_for_needs_a_known_start() {
    let now = Timestamp::from_nanos(10_000_000);
    assert!(!PressState::Released.is_pressed_for(Duration::zero(), now));
    assert!(!PressState::Released.is_pressed_for(Duration::from_millis(3), now));
    assert!(!fresh().is_pressed_for(Duration::from_nanos(1), now));
    assert!(!fresh().is_pressed_for(Duration::from_millis(3), now));
    assert!(pressed_at(5_000_000).is_pressed_for(Duration::from_millis(5), now));
    assert!(!pressed_at(5_000_000).is_pressed_for(Duration::from_nanos(5_000_001), now));
    assert!(pressed_at(5_000_000).is_pressed_for(Duration::zero(), now));
}

#[test]
fn elapsed_time_of_each_state() {
    let now = Timestamp::from_nanos(9_000);
    assert_eq!(PressState::Released.elapsed(now), None);
    assert_eq!(fresh().elapsed(now), Some(Duration::zero()));
    assert_eq!(pressed_at(4_000).elapsed(now), Some(Duration::from_nanos(5_000)));
    assert_eq!(pressed_at(12_000).elapsed(now), Some(Duration::zero()));
    assert_eq!(Timestamp::from_nanos(4_000).elapsed_at(now), Duration::from_nanos(5_000));
}

#[test]
fn released_and_pressed_queries() {
    assert!(PressState::Released.released());
    assert!(!PressState::Released.pressed());
    assert!(fresh().pressed());
    assert!(!fresh().released());
    assert!(pressed_at(3).pressed());
    assert!(!pressed_at(3).released());
}

#[test]
fn stamping_fills_in_the_start_of_a_fresh_press() {
    let now = Timestamp::from_nanos(77);
    assert_eq!(fresh().stamped(now), pressed_at(77));
    assert_eq!(pressed_at(5).stamped(now), pressed_at(5));
    assert_eq!(PressState::Released.stamped(now), PressState::Released);
}

#[test]
fn button_signal_converts_to_press_state() {
    assert_eq!(PressState::from(ButtonState::Pressed), fresh());
    assert_eq!(PressState::from(ButtonState::Released), PressState::Released);
}

#[test]
fn axis_state_at_rest() {
    let zero = AxisState::zero();
    assert_eq!(f32::from_bits(zero.value.to_bits()), 0.0);
    assert_eq!(zero.value.to_bits(), 0.0f32.to_bits());
    assert_eq!(zero.press, PressState::Released);
    assert_eq!(AxisState::default(), zero);
}

#[test]
fn axis_state_new_and_set() {
    let mut s = AxisState::new(value(0.5), fresh());
    assert_eq!(s.value, value(0.5));
    assert_eq!(s.press, fresh());
    s.set(value(-0.25), PressState::Released);
    assert_eq!(s.value, value(-0.25));
    assert_eq!(s.press, PressState::Released);
}

#[test]
fn dead_zone_classifies_readings() {
    assert!(value(0.0).in_dead_zone());
    assert!(value(-0.0).in_dead_zone());
    assert!(value(0.05).in_dead_zone());
    assert!(value(-0.05).in_dead_zone());
    assert!(value(0.1).in_dead_zone());
    assert!(value(-0.1).in_dead_zone());
    assert!(!value(0.100_000_01).in_dead_zone());
    assert!(!value(0.9).in_dead_zone());
    assert!(!value(-0.9).in_dead_zone());
    assert!(!value(f32::INFINITY).in_dead_zone());
    assert!(!value(f32::NAN).in_dead_zone());
    assert_eq!(value(0.05).classify(), PressState::Released);
    assert_eq!(value(-0.7).classify(), fresh());
    assert_eq!(AxisValue::from_bits(0x3dcc_cccd).to_bits(), 0.1f32.to_bits());
}

#[test]
fn empty_collections_satisfy_every_aggregate() {
    let mut v: Vec<AxisState> = Vec::new();
    let now = Timestamp::from_nanos(0);
    assert!(v.is_all_pressed());
    assert!(v.is_all_just_pressed(now));
    assert!(v.is_all_released());
    let s: &mut [AxisState] = &mut [];
    assert!(s.is_all_pressed());
    assert!(s.is_all_just_pressed(now));
    assert!(s.is_all_released());
}

#[test]
fn aggregates_over_readings() {
    let now = Timestamp::from_nanos(10_000_000);
    let mut pressed = vec![
        AxisState::new(value(1.0), fresh()),
        AxisState::new(value(0.5), pressed_at(9_500_000)),
    ];
    assert!(pressed.is_all_pressed());
    assert!(pressed.is_all_just_pressed(now));
    assert!(!pressed.is_all_released());
    pressed.push(AxisState::new(value(0.5), pressed_at(1_000_000)));
    assert!(pressed.is_all_pressed());
    assert!(!pressed.is_all_just_pressed(now));
    pressed.push(AxisState::zero());
    assert!(!pressed.is_all_pressed());
    assert!(!pressed[..].is_all_pressed());
    assert!(pressed[3..].is_all_released());
    assert!(pressed[..2].is_all_just_pressed(now));
    let mut released = vec![AxisState::zero(), AxisState::new(value(0.02), PressState::Released)];
    assert!(released.is_all_released());
    assert!(!released.is_all_pressed());
    assert!(!released.is_all_just_pressed(now));
}

#[test]
fn press_state_text() {
    let now = Timestamp::from_nanos(5_000_000);
    assert_eq!(PressState::Released.describe(now), "Released");
    assert_eq!(fresh().describe(now), "Pressing since Now");
    assert_eq!(pressed_at(4_500_000).describe(now), "Pressing since Now");
    assert_eq!(pressed_at(0).describe(now), "Pressing for Some(5ms)");
    assert_eq!(pressed_at(3_500_000).describe(now), "Pressing for Some(1.5ms)");
}

#[test]
fn clock_readings_do_not_go_back() {
    let clock = ezinput::Clock::new();
    let a = clock.now();
    let b = clock.now();
    assert!(b.nanos >= a.nanos);
    assert!(fresh().stamped(b).pressed());
    assert!(pressed_at(a.nanos).is_pressed_for(Duration::zero(), b));
}

#[test]
fn clock_reading_saturates_at_the_largest_u64() {
    assert_eq!(saturating_reading(0).nanos, 0);
    assert_eq!(saturating_reading(1_234_567).nanos, 1_234_567);
    assert_eq!(saturating_reading(u64::MAX as u128).nanos, u64::MAX);
    assert_eq!(saturating_reading(u64::MAX as u128 + 1).nanos, u64::MAX);
    assert_eq!(saturating_reading(u128::MAX).nanos, u64::MAX);
}
