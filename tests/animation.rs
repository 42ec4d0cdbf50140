use custom3d_glow::{AnimationState, RotatingTriangle};

fn counter_after(n: usize) -> u32 {
    let mut a = AnimationState::new();
    for _ in 0..n {
        a.advance();
    }
    a.value()
}

#[test]
fn counter_starts_at_zero() {
    assert_eq!(AnimationState::new().value(), 0);
}

#[test]
fn counter_steps_by_five_hundredths() {
    assert_eq!(counter_after(1), 5);
    assert_eq!(counter_after(2), 10);
    assert_eq!(counter_after(7), 35);
}

#[test]
fn exactly_one_does_not_reset() {
    // After 20 frames the counter is exactly 1.00; the strict check keeps it.
    assert_eq!(counter_after(20), 100);
    assert_eq!(counter_after(21), 105);
}

#[test]
fn counter_wraps_after_exceeding_one() {
    assert_eq!(counter_after(22), 5);
    assert_eq!(counter_after(23), 10);
    assert_eq!(counter_after(42), 105);
    assert_eq!(counter_after(43), 5);
}

#[test]
fn counter_matches_modulus_off_multiples_of_21() {
    for n in 0..200usize {
        let c = counter_after(n);
        if n > 0 && n % 21 == 0 {
            assert_eq!(c, 105);
        } else {
            assert_eq!(c as usize, (5 * n) % 105);
        }
        assert!(c <= 105 && c % 5 == 0);
    }
}

#[test]
fn uploaded_red_channel_exceeds_one_for_one_frame() {
    let mut t = RotatingTriangle::new(1, 2, 3, 4);
    let mut reds = Vec::new();
    for _ in 0..23 {
        let plan = t.paint();
        match plan[5] {
            custom3d_glow::GlCommand::SetColor { red, .. } => reds.push(red),
            _ => panic!("sixth command is not the colour"),
        }
    }
    assert_eq!(reds[0], 0);
    assert_eq!(reds[20], 100);
    assert_eq!(reds[21], 105);
    assert_eq!(reds[22], 5);
}
