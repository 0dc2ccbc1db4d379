use dodger::units::{try_direction, DirVec, DIR_SCALE};
use rand::Rng;

fn fixed_point_direction(angle: f32) -> (i64, i64) {
    let dx = (angle.cos() * DIR_SCALE as f32).round() as i64;
    let dy = (angle.sin() * DIR_SCALE as f32).round() as i64;
    (dx, dy)
}

#[test]
fn axis_aligned_unit_vectors_are_accepted() {
    assert_eq!(try_direction(DIR_SCALE, 0), Some(DirVec { x: DIR_SCALE, y: 0 }));
    assert_eq!(try_direction(0, -DIR_SCALE), Some(DirVec { x: 0, y: -DIR_SCALE }));
}

#[test]
fn three_four_five_direction_is_accepted() {
    assert_eq!(try_direction(600, -800), Some(DirVec { x: 600, y: -800 }));
}

#[test]
fn zero_and_oversized_vectors_are_rejected() {
    assert_eq!(try_direction(0, 0), None);
    assert_eq!(try_direction(DIR_SCALE, DIR_SCALE), None);
    assert_eq!(try_direction(2 * DIR_SCALE, 0), None);
    assert_eq!(try_direction(710, 710), None);
}

#[test]
fn diagonal_within_tolerance_is_accepted() {
    // 707^2 + 707^2 = 999_698, within tolerance of 1_000_000.
    assert_eq!(try_direction(707, 707), Some(DirVec { x: 707, y: 707 }));
}

#[test]
fn evenly_spaced_angles_give_near_unit_directions() {
    for k in 0..3600 {
        let angle = k as f32 * std::f32::consts::TAU / 3600.0;
        let (dx, dy) = fixed_point_direction(angle);
        assert!(
            try_direction(dx, dy).is_some(),
            "angle {} gave ({}, {})",
            angle,
            dx,
            dy
        );
    }
}

#[test]
fn random_angles_give_near_unit_directions() {
    let mut rng = rand::rng();
    for _ in 0..1000 {
        let angle: f32 = rng.random_range(0.0..std::f32::consts::TAU);
        let (dx, dy) = fixed_point_direction(angle);
        let got = try_direction(dx, dy);
        assert!(got.is_some(), "angle {} gave ({}, {})", angle, dx, dy);
        assert_eq!(got, Some(DirVec { x: dx, y: dy }));
    }
}
