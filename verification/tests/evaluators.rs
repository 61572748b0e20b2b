use xrizer::custom_bindings::{
    BindingData, BindingState, BindingType, DpadActions, DpadData, DpadDirection, ExtraActionData,
    GrabActions, GrabBindingData, Measure, ThresholdBindingData, ToggleData,
};
use xrizer::fixed::Fixed;
use xrizer::runtime::{ActionState, ActionValue, Hand, Snapshot, Vector2};

fn fx(v: f32) -> Fixed {
    Fixed::from_raw((v as f64 * 4294967296.0).round() as i64)
}

fn float_state(v: f32) -> ActionState<Fixed> {
    ActionState {
        current_state: fx(v),
        changed_since_last_sync: false,
        last_change_time: 0,
        is_active: true,
    }
}

fn xy_state(x: f32, y: f32) -> ActionState<Vector2> {
    ActionState {
        current_state: Vector2 { x: fx(x), y: fx(y) },
        changed_since_last_sync: false,
        last_change_time: 7,
        is_active: true,
    }
}

fn dpad_snapshot(x: f32, y: f32, click: Option<f32>) -> Snapshot {
    let mut s = Snapshot::new();
    s.record(0, Some(Hand::Left), ActionValue::Vector2(xy_state(x, y)));
    if let Some(c) = click {
        s.record(1, Some(Hand::Left), ActionValue::Float(float_state(c)));
    }
    s
}

fn dpad(direction: DpadDirection, haptic: Option<u32>) -> DpadData {
    DpadData::new(DpadActions { xy: 0, click_or_touch: Some(1), haptic }, direction)
}

#[test]
fn fixed_conversion_is_exact_for_thresholds() {
    assert_eq!(fx(0.70).raw, xrizer::custom_bindings::DEFAULT_GRAB_THRESHOLD);
    assert_eq!(fx(0.65).raw, xrizer::custom_bindings::DEFAULT_GRAB_RELEASE_THRESHOLD);
    assert_eq!(fx(0.25).raw, xrizer::custom_bindings::DEFAULT_CLICK_THRESHOLD);
    assert_eq!(fx(0.20).raw, xrizer::custom_bindings::DEFAULT_RELEASE_THRESHOLD);
    assert_eq!(fx(0.33).raw, xrizer::custom_bindings::DPAD_CLICK_THRESHOLD);
    assert_eq!(fx(0.2).raw, xrizer::custom_bindings::DPAD_RELEASE_THRESHOLD);
    assert_eq!(fx(0.25).raw, xrizer::custom_bindings::DPAD_PULSE_AMPLITUDE);
    assert_eq!(fx(0.5).raw, xrizer::fixed::HALF);
    assert_eq!(fx(1.0).raw, xrizer::fixed::ONE);
}

#[test]
fn fixed_arithmetic() {
    assert_eq!(fx(0.5).plus_one(), fx(1.5));
    assert_eq!(Fixed::from_raw(i64::MAX).plus_one().raw, i64::MAX);
    assert_eq!(fx(0.75).minus(fx(0.5)), fx(0.25));
    assert_eq!(fx(-0.75).minus(fx(0.5)), fx(-1.25));
    assert_eq!(Fixed::from_raw(i64::MIN).minus(fx(1.0)).raw, i64::MIN);
    assert_eq!(Fixed::from_raw(i64::MAX).minus(fx(-1.0)).raw, i64::MAX);
    assert_eq!(fx(-0.5).magnitude(), 0x8000_0000);
    assert_eq!(Fixed::from_raw(i64::MIN).magnitude(), 0x8000_0000_0000_0000);
    assert!(fx(0.5).ge(fx(0.5)));
    assert!(!fx(0.5).gt(fx(0.5)));
    assert!(fx(0.5).gt(fx(-0.5)));
    assert!(Fixed::norm_at_least(fx(0.3), fx(0.4), fx(0.5)));
    assert!(!Fixed::norm_at_least(fx(0.3), fx(0.39), fx(0.5)));
    assert!(Fixed::norm_at_least(fx(-0.3), fx(-0.4), fx(0.5)));
    assert!(Fixed::norm_at_least(Fixed::zero(), Fixed::zero(), fx(-1.0)));
    assert!(Fixed::norm_at_least(
        Fixed::from_raw(i64::MIN),
        Fixed::from_raw(i64::MIN),
        Fixed::from_raw(i64::MAX)
    ));
}

#[test]
fn dpad_wedges() {
    let mut north = dpad(DpadDirection::North, None);
    let out = north.state(&dpad_snapshot(0.0, 0.5, Some(1.0)), Hand::Left);
    let s = out.state.unwrap();
    assert!(s.current_state && s.changed_since_last_sync && s.is_active);
    assert_eq!(s.last_change_time, 7);

    let mut north = dpad(DpadDirection::North, None);
    let s = north.state(&dpad_snapshot(0.5, 0.0, Some(1.0)), Hand::Left).state.unwrap();
    assert!(!s.current_state && !s.changed_since_last_sync);

    let mut west = dpad(DpadDirection::West, None);
    let s = west.state(&dpad_snapshot(-0.9, 0.1, Some(1.0)), Hand::Left).state.unwrap();
    assert!(s.current_state);

    let mut south = dpad(DpadDirection::South, None);
    assert!(south.state(&dpad_snapshot(0.2, -0.8, Some(1.0)), Hand::Left).state.unwrap().current_state);
    let mut east = dpad(DpadDirection::East, None);
    assert!(east.state(&dpad_snapshot(0.7, 0.7, Some(1.0)), Hand::Left).state.unwrap().current_state);
    let mut north = dpad(DpadDirection::North, None);
    assert!(north.state(&dpad_snapshot(0.7, 0.7, Some(1.0)), Hand::Left).state.unwrap().current_state);
    let mut center = dpad(DpadDirection::Center, None);
    assert!(center.state(&dpad_snapshot(0.3, 0.39, Some(1.0)), Hand::Left).state.unwrap().current_state);
    let mut center = dpad(DpadDirection::Center, None);
    assert!(!center.state(&dpad_snapshot(0.3, 0.4, Some(1.0)), Hand::Left).state.unwrap().current_state);
}

#[test]
fn dpad_activator_thresholds_and_pulse() {
    let mut north = dpad(DpadDirection::North, Some(9));
    // At the click threshold the activator is still closed.
    let out = north.state(&dpad_snapshot(0.0, 1.0, Some(0.33)), Hand::Left);
    assert!(out.state.is_none() && out.pulse.is_none());
    assert!(!north.last_state && !north.active && !north.changed);

    let out = north.state(&dpad_snapshot(0.0, 1.0, Some(0.34)), Hand::Left);
    assert!(out.state.unwrap().current_state);
    let pulse = out.pulse.unwrap();
    assert_eq!(pulse.action, 9);
    assert_eq!(pulse.hand, Some(Hand::Left));
    assert_eq!(pulse.amplitude, fx(0.25));
    assert_eq!(pulse.duration_nanos, None);
    assert_eq!(pulse.frequency, None);
    assert!(north.last_state && north.active && north.changed);

    // Held: the release threshold applies, and no second pulse is given.
    let out = north.state(&dpad_snapshot(0.0, 1.0, Some(0.21)), Hand::Left);
    let s = out.state.unwrap();
    assert!(s.current_state && !s.changed_since_last_sync);
    assert!(out.pulse.is_none());

    let out = north.state(&dpad_snapshot(0.0, 1.0, Some(0.2)), Hand::Left);
    assert!(out.state.is_none());
    assert!(!north.last_state && !north.active && north.changed);

    // An activator that is not bound in the profile reads as inactive and
    // lets the dpad report.
    let mut north = dpad(DpadDirection::North, None);
    let out = north.state(&dpad_snapshot(0.0, 1.0, None), Hand::Left);
    assert!(out.state.unwrap().current_state);
}

#[test]
fn grab_hysteresis_with_defaults() {
    let mut g = GrabBindingData::new(None, None);
    let grab = 0.70f32;
    let release = 0.65f32;
    let mut check = |force: f32, value: f32, state: bool, changed: bool| {
        let s = g.state(float_state(force), float_state(value)).unwrap();
        assert_eq!(s.current_state, state);
        assert!(s.is_active);
        assert_eq!(s.changed_since_last_sync, changed);
    };
    check(0.0, grab - 0.1, false, false);
    check(0.0, grab + 0.1, true, true);
    check(0.1, 0.0, true, false);
    check(0.0, 1.0, true, false);
    check(0.0, release, false, true);
    check(0.0, grab - 0.1, false, false);
    check(0.0, grab, true, true);
    check(0.0, 0.66, true, false);
}

#[test]
fn grab_needs_both_actions() {
    let mut g = GrabBindingData::new(Some(fx(0.16)), Some(fx(0.15)));
    assert_eq!(g.hold_threshold, fx(0.16));
    assert_eq!(g.release_threshold, fx(0.15));
    let s = g.state(float_state(0.17), float_state(0.0)).unwrap();
    assert!(s.current_state);
    let inactive = ActionState {
        current_state: fx(1.0),
        changed_since_last_sync: false,
        last_change_time: 0,
        is_active: false,
    };
    assert!(g.state(inactive, float_state(1.0)).is_none());
    assert!(!g.last_state);
    let mut g = GrabBindingData::new(None, None);
    assert!(g.state(float_state(1.0), inactive).is_none());
}

#[test]
fn toggle_flips_on_rising_edge_only() {
    let mut t = ToggleData::new();
    let src = |state: bool, changed: bool| ActionState {
        current_state: state,
        changed_since_last_sync: changed,
        last_change_time: 3,
        is_active: true,
    };
    let s = t.state(src(true, true)).unwrap();
    assert!(s.current_state && s.changed_since_last_sync && s.is_active);
    let s = t.state(src(false, true)).unwrap();
    assert!(s.current_state && !s.changed_since_last_sync);
    let s = t.state(src(true, true)).unwrap();
    assert!(!s.current_state && s.changed_since_last_sync);
    let s = t.state(src(true, false)).unwrap();
    assert!(!s.current_state && !s.changed_since_last_sync);
    let mut inactive = src(true, true);
    inactive.is_active = false;
    assert!(t.state(inactive).is_none());
    assert!(!t.last_state);
}

#[test]
fn threshold_hysteresis_band() {
    let mut t = ThresholdBindingData::new(None, None);
    let src = |v: f32| ActionState {
        current_state: Measure::Value(fx(v)),
        changed_since_last_sync: false,
        last_change_time: 0,
        is_active: true,
    };
    assert!(!t.state(src(0.24)).unwrap().current_state);
    let s = t.state(src(0.25)).unwrap();
    assert!(s.current_state && s.changed_since_last_sync);
    let s = t.state(src(0.21)).unwrap();
    assert!(s.current_state && !s.changed_since_last_sync);
    let s = t.state(src(0.20)).unwrap();
    assert!(s.current_state && !s.changed_since_last_sync);
    let s = t.state(src(0.19)).unwrap();
    assert!(!s.current_state && s.changed_since_last_sync);
    let s = t.state(src(0.22)).unwrap();
    assert!(!s.current_state && !s.changed_since_last_sync);
}

#[test]
fn threshold_on_vector_length() {
    let mut t = ThresholdBindingData::new(Some(fx(0.5)), Some(fx(0.25)));
    let src = |x: f32, y: f32| ActionState {
        current_state: Measure::Length(Vector2 { x: fx(x), y: fx(y) }),
        changed_since_last_sync: false,
        last_change_time: 0,
        is_active: true,
    };
    assert!(!t.state(src(0.3, 0.39)).unwrap().current_state);
    assert!(t.state(src(-0.3, 0.4)).unwrap().current_state);
    assert!(t.state(src(0.0, -0.25)).unwrap().current_state);
    assert!(!t.state(src(0.1, 0.1)).unwrap().current_state);
}

#[test]
fn binding_reads_are_memoized_until_unsync() {
    let extra = ExtraActionData {
        toggle_action: Some(5),
        analog_action: None,
        vector2_action: None,
        grab_actions: None,
    };
    let mut pressed = Snapshot::new();
    pressed.record(
        5,
        Some(Hand::Right),
        ActionValue::Bool(ActionState {
            current_state: true,
            changed_since_last_sync: true,
            last_change_time: 0,
            is_active: true,
        }),
    );
    let mut b = BindingData::new(BindingType::Toggle(ToggleData::new()), Hand::Right);
    assert_eq!(b.last_state, BindingState::Unsynced);
    // The other hand reads nothing and stores nothing.
    assert!(b.state(&pressed, &extra, Hand::Left).state.is_none());
    assert_eq!(b.last_state, BindingState::Unsynced);

    let first = b.state(&pressed, &extra, Hand::Right);
    assert!(first.state.unwrap().current_state);
    let second = b.state(&pressed, &extra, Hand::Right);
    assert_eq!(first.state, second.state);
    assert_eq!(b.ty, BindingType::Toggle(ToggleData { last_state: true }));

    b.unsync();
    let third = b.state(&pressed, &extra, Hand::Right).state.unwrap();
    assert!(!third.current_state && third.changed_since_last_sync);
}

#[test]
fn binding_without_its_extra_action_reads_nothing() {
    let extra = ExtraActionData::new();
    let snapshot = Snapshot::new();
    let mut b = BindingData::new(BindingType::Grab(GrabBindingData::new(None, None)), Hand::Left);
    assert!(b.state(&snapshot, &extra, Hand::Left).state.is_none());
    assert_eq!(b.last_state, BindingState::Unsynced);
    let with_grab = ExtraActionData {
        grab_actions: Some(GrabActions { force_action: 1, value_action: 2 }),
        ..extra
    };
    // Both actions unbound: read as inactive, stored as "no state".
    assert!(b.state(&snapshot, &with_grab, Hand::Left).state.is_none());
    assert_eq!(b.last_state, BindingState::Synced(None));
}

#[test]
fn snapshot_reads_first_entry_and_defaults_to_inactive() {
    let mut s = Snapshot::new();
    assert!(!s.bool_state(1, None).is_active);
    s.record(1, None, ActionValue::Float(float_state(0.5)));
    s.record(1, None, ActionValue::Float(float_state(0.75)));
    assert_eq!(s.float_state(1, None).current_state, fx(0.5));
    assert!(!s.bool_state(1, None).is_active);
    assert!(!s.float_state(1, Some(Hand::Left)).is_active);
    assert!(!s.vector2_state(1, None).is_active);
    assert_eq!(s.float_state(2, None).current_state, Fixed::zero());
}

#[test]
fn force_plus_one_rounds_as_single_precision() {
    // 0.15 + 1 is no single-precision number; the nearest one is 1.15.
    assert_eq!(fx(0.15).plus_one(), fx(1.15));
    assert!(fx(0.15).raw + (1i64 << 32) > fx(1.15).raw);
    assert_eq!(fx(0.25).plus_one(), fx(1.25));
    assert_eq!(fx(0.17).plus_one(), fx(0.17f32 + 1.0));
    assert_eq!(fx(3.7).plus_one(), fx(3.7f32 + 1.0));
    assert_eq!(fx(1.0e-6).plus_one(), fx(1.0e-6f32 + 1.0));
    // A number that is negative is added to exactly.
    assert_eq!(Fixed::from_raw(-5).plus_one().raw, (1i64 << 32) - 5);
}
