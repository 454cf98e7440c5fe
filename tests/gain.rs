use audio_router::gain::{GainControl, MAX_GAIN, UNITY_GAIN};

#[test]
fn gain_starts_at_unity() {
    assert_eq!(GainControl::new().get(), UNITY_GAIN);
    assert_eq!(UNITY_GAIN, 1000);
}

#[test]
fn set_adds_delta() {
    let mut g = GainControl::new();
    g.set(10_000);
    assert_eq!(g.get(), 11_000);
    g.set(-500);
    assert_eq!(g.get(), 10_500);
}

#[test]
fn set_below_zero_clamps_to_zero() {
    let mut g = GainControl::with_level(300);
    g.set(-1000);
    assert_eq!(g.get(), 0);
    g.set(250);
    assert_eq!(g.get(), 250);
}

#[test]
fn set_to_exactly_zero() {
    let mut g = GainControl::with_level(400);
    g.set(-400);
    assert_eq!(g.get(), 0);
}

#[test]
fn set_above_ceiling_clamps_to_ceiling() {
    let mut g = GainControl::with_level(MAX_GAIN - 1);
    g.set(i32::MAX);
    assert_eq!(g.get(), MAX_GAIN);
    g.set(i32::MIN);
    assert_eq!(g.get(), 0);
}
