//! Grid-vector and rotation-cycle behavior.
use dark_tetris::intvector::CardinalRotation;
use dark_tetris::intvector::IntVector2;

fn all_rotations() -> Vec<CardinalRotation> {
    vec![
        CardinalRotation::Rotate0,
        CardinalRotation::Rotate90,
        CardinalRotation::Rotate180,
        CardinalRotation::Rotate270,
    ]
}

#[test]
fn rotate_around_cell_four_times_is_identity() {
    let vectors = vec![(3i8, 7i8), (0, 0), (-5, 2), (9, -9)];
    let pivots = vec![(1i8, 2i8), (0, 0), (-3, -4)];
    for &(vx, vy) in &vectors {
        for &(px, py) in &pivots {
            for &rot in &all_rotations() {
                let v = IntVector2::new(vx, vy);
                let pivot = IntVector2::new(px, py);
                let mut cur = v;
                for _ in 0..4 {
                    cur = cur.rotate_around_cell(pivot, rot);
                }
                assert_eq!(cur, v);
            }
        }
    }
}

#[test]
fn rotate_around_corner_four_times_is_identity() {
    let vectors = vec![(2i8, 0i8), (0, 0), (-1, 3), (5, 5)];
    let pivots = vec![(1i8, 0i8), (0, 0), (-2, 4)];
    for &(vx, vy) in &vectors {
        for &(px, py) in &pivots {
            for &rot in &all_rotations() {
                let v = IntVector2::new(vx, vy);
                let pivot = IntVector2::new(px, py);
                let mut cur = v;
                for _ in 0..4 {
                    cur = cur.rotate_around_corner(pivot, rot);
                }
                assert_eq!(cur, v);
            }
        }
    }
}

#[test]
fn rotate_around_cell_exact_values() {
    // Relative to pivot (0, 0): (x, y) -> (x, y) / (-y, x) / (-x, -y) / (y, -x).
    let v = IntVector2::new(2, 1);
    let origin = IntVector2::zero();
    assert_eq!(v.rotate_around_cell(origin, CardinalRotation::Rotate0), IntVector2::new(2, 1));
    assert_eq!(v.rotate_around_cell(origin, CardinalRotation::Rotate90), IntVector2::new(-1, 2));
    assert_eq!(v.rotate_around_cell(origin, CardinalRotation::Rotate180), IntVector2::new(-2, -1));
    assert_eq!(v.rotate_around_cell(origin, CardinalRotation::Rotate270), IntVector2::new(1, -2));

    // A pivot away from the origin translates in and out.
    let pivot = IntVector2::new(1, 1);
    assert_eq!(v.rotate_around_cell(pivot, CardinalRotation::Rotate90), IntVector2::new(1, 2));
}

#[test]
fn rotate_around_corner_exact_values() {
    // Relative to the pivot, before translating back:
    // Rotate0 -> no change; Rotate90 -> (-y-1, x); Rotate180 -> (-x-1, -y-1);
    // Rotate270 -> (y, -x-1).
    let v = IntVector2::new(2, 0);
    let corner = IntVector2::new(1, 0);
    assert_eq!(v.rotate_around_corner(corner, CardinalRotation::Rotate0), IntVector2::new(2, 0));
    assert_eq!(v.rotate_around_corner(corner, CardinalRotation::Rotate90), IntVector2::new(0, 1));
    assert_eq!(
        v.rotate_around_corner(corner, CardinalRotation::Rotate180),
        IntVector2::new(-1, -1)
    );
    assert_eq!(v.rotate_around_corner(corner, CardinalRotation::Rotate270), IntVector2::new(1, -2));
}

#[test]
fn rotation_steps_are_mutually_inverse() {
    for &rot in &all_rotations() {
        assert_eq!(rot.rotated_left().rotated_right(), rot);
        assert_eq!(rot.rotated_right().rotated_left(), rot);
    }
}

#[test]
fn rotation_cycle_order() {
    assert_eq!(CardinalRotation::Rotate0.rotated_left(), CardinalRotation::Rotate90);
    assert_eq!(CardinalRotation::Rotate90.rotated_left(), CardinalRotation::Rotate180);
    assert_eq!(CardinalRotation::Rotate0.rotated_right(), CardinalRotation::Rotate270);
    assert_eq!(CardinalRotation::Rotate270.rotated_right(), CardinalRotation::Rotate180);
}

#[test]
fn vector_arithmetic() {
    let a = IntVector2::new(3, -2);
    let b = IntVector2::new(-1, 5);
    assert_eq!(a.plus(b), IntVector2::new(2, 3));
    assert_eq!(a.minus(b), IntVector2::new(4, -7));
    assert!(IntVector2::zero().is_zero());
    assert!(!a.is_zero());
}
