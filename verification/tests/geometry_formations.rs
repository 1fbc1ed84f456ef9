//! Formation geometry on exact fixed-point values, and the kinematics
//! step.

use barrage::formation::Formation;
use barrage::geometry::{isqrt, length, rotate, unit_or_zero, Rot, Transform, Vec2};
use barrage::shared::{lerp, magnetise_to, move_object, Movement};
use barrage::trig::{cos_bam, sin_bam};

#[test]
fn circular_formation_of_four_lands_on_the_axes() {
    // Radius ten units, four points: angles 0, a quarter, a half and
    // three quarters of a turn, each exactly ten units from the origin.
    let f = Formation::circular(false, 10_000);
    let origin = Transform::origin();

    let expected = [
        (10_000, 0, 1000, 0),
        (0, 10_000, 0, 1000),
        (-10_000, 0, -1000, 0),
        (0, -10_000, 0, -1000),
    ];
    for i in 0..4u16 {
        let t = f.transform(i, 4, origin);
        let (x, y, c, s) = expected[i as usize];
        assert_eq!(t.pos.x, x);
        assert_eq!(t.pos.y, y);
        // The spawned bullet faces outward along the radius.
        assert_eq!(t.rot.c, c);
        assert_eq!(t.rot.s, s);
        assert_eq!(t.layer, origin.layer);
    }
}

#[test]
fn circular_formation_offsets_from_origin() {
    let f = Formation::circular(false, 10_000);
    let origin = Transform {
        pos: Vec2 { x: 5000, y: -2000 },
        layer: 300,
        rot: Rot { c: 1000, s: 0 },
    };
    let t = f.transform(0, 4, origin);
    assert_eq!(t.pos.x, 15_000);
    assert_eq!(t.pos.y, -2000);
    assert_eq!(t.layer, 300);
}

#[test]
fn randomised_circular_formation_stays_on_the_circle() {
    // The angle is drawn fresh, but the point always lands on the ring:
    // its distance from the origin is the radius, within the fixed-point
    // rounding of the sine table.
    let f = Formation::circular(true, 10_000);
    let origin = Transform::origin();
    for _ in 0..50 {
        let t = f.transform(0, 4, origin);
        let d = length(Vec2 { x: t.pos.x, y: t.pos.y });
        assert!((d - 10_000).abs() <= 100, "distance {} strayed from the ring", d);
    }
}

#[test]
fn harmonic_formation_hangs_below_its_origin() {
    // With zero amplitude the pendulum does not deflect at all: every
    // point hangs exactly one radius below the origin, facing down, on
    // the base layer.
    let f = Formation::harmonic(false, 50_000, 0, 2000);
    let origin = Transform {
        pos: Vec2 { x: 7000, y: 90_000 },
        layer: 200,
        rot: Rot { c: 1000, s: 0 },
    };
    for i in 0..8u16 {
        let t = f.transform(i, 8, origin);
        assert_eq!(t.pos.x, 7000);
        assert_eq!(t.pos.y, 90_000 - 50_000);
        assert_eq!(t.rot.c, -1000);
        assert_eq!(t.rot.s, 0);
        assert_eq!(t.layer, 0);
    }
}

#[test]
fn positional_formation_steps_one_unit_toward_target() {
    let target = Transform {
        pos: Vec2 { x: 30_000, y: 40_000 },
        layer: 0,
        rot: Rot { c: 1000, s: 0 },
    };
    let f = Formation::positional(target);
    let t = f.transform(0, 1, Transform::origin());
    // Unit direction toward (30, 40) is (0.6, 0.8).
    assert_eq!(t.pos.x, 600);
    assert_eq!(t.pos.y, 800);
    // Facing turns the y-axis onto the direction.
    assert_eq!(t.rot.c, 800);
    assert_eq!(t.rot.s, -600);
}

#[test]
fn linear_formation_chains_toward_target() {
    let target = Transform {
        pos: Vec2 { x: 0, y: 50_000 },
        layer: 0,
        rot: Rot { c: 1000, s: 0 },
    };
    let f = Formation::linear(target, Vec2 { x: 2000, y: 2000 });
    let origin = Transform::origin();
    for i in 0..5u16 {
        let t = f.transform(i, 5, origin);
        assert_eq!(t.pos.x, 0);
        // Each link stands one entity size (two units) farther along.
        assert_eq!(t.pos.y, 2000 * i as i64);
    }
}

#[test]
fn quarter_turn_trigonometry_is_exact() {
    assert_eq!(sin_bam(0), 0);
    assert_eq!(sin_bam(16_384), 1000);
    assert_eq!(sin_bam(32_768), 0);
    assert_eq!(sin_bam(49_152), -1000);
    assert_eq!(cos_bam(0), 1000);
    assert_eq!(cos_bam(16_384), 0);
    assert_eq!(cos_bam(32_768), -1000);
    assert_eq!(cos_bam(49_152), 0);
    for a in (0..65_535u16).step_by(997) {
        assert!(sin_bam(a).abs() <= 1000);
        assert!(cos_bam(a).abs() <= 1000);
    }
}

#[test]
fn integer_square_root_brackets_its_input() {
    for n in [0u64, 1, 2, 3, 4, 99, 100, 101, 2_500_000_000, u64::MAX] {
        let r = isqrt(n);
        assert!(r * r <= n);
        assert!((r + 1).checked_mul(r + 1).map(|sq| sq > n).unwrap_or(true));
    }
    assert_eq!(isqrt(50_000u64 * 50_000), 50_000);
}

#[test]
fn unit_vector_of_three_four_five_triangle() {
    let u = unit_or_zero(Vec2 { x: 30_000, y: 40_000 });
    assert_eq!(u.x, 600);
    assert_eq!(u.y, 800);
    let z = unit_or_zero(Vec2 { x: 0, y: 0 });
    assert_eq!(z.x, 0);
    assert_eq!(z.y, 0);
}

#[test]
fn rotation_turns_the_axes() {
    // A quarter-turn rotation carries the x-axis onto the y-axis.
    let quarter = Rot { c: 0, s: 1000 };
    let v = rotate(quarter, Vec2 { x: 5000, y: 0 });
    assert_eq!(v.x, 0);
    assert_eq!(v.y, 5000);
}

#[test]
fn kinematics_integrates_and_scales_for_physics() {
    // World-frame: velocity (3, 0) with acceleration (1, 0) over half a
    // second becomes (3.5, 0); the physics collaborator receives it
    // scaled by twenty.
    let mut m = Movement::absolute(Vec2 { x: 3000, y: 0 }, Vec2 { x: 1000, y: 0 });
    let linvel = move_object(&mut m, Rot { c: 1000, s: 0 }, 500);
    assert_eq!(m.velocity.x, 3500);
    assert_eq!(linvel.x, 20 * 3500);
    assert_eq!(linvel.y, 0);
}

#[test]
fn kinematics_turns_local_velocity_by_facing() {
    // Entity-frame velocity (0, 2) on an entity facing a quarter turn
    // becomes world (-2, 0).
    let mut m = Movement::relative(Vec2 { x: 0, y: 2000 }, Vec2 { x: 0, y: 0 });
    let linvel = move_object(&mut m, Rot { c: 0, s: 1000 }, 100);
    assert_eq!(linvel.x, 20 * -2000);
    assert_eq!(linvel.y, 0);
}

#[test]
fn lerp_midpoint() {
    let p = lerp(Vec2 { x: 0, y: 0 }, Vec2 { x: 10_000, y: -4000 }, 500);
    assert_eq!(p.x, 5000);
    assert_eq!(p.y, -2000);
}

#[test]
fn magnetise_points_velocity_at_target() {
    let mut m = Movement::zero();
    magnetise_to(
        &mut m,
        Vec2 { x: 0, y: 0 },
        Vec2 { x: 30_000, y: 40_000 },
        15_000,
        false,
    );
    // Strength fifteen along the (0.6, 0.8) direction.
    assert_eq!(m.velocity.x, 9000);
    assert_eq!(m.velocity.y, 12_000);
}
