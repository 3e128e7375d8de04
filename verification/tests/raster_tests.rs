use life::raster::gen_points;

#[test]
fn degenerate_segment_is_one_point() {
    assert_eq!(gen_points(7, -3, 7, -3), vec![(7, -3)]);
    assert_eq!(gen_points(0, 0, 0, 0), vec![(0, 0)]);
}

#[test]
fn example_diagonalish_segment() {
    // Dominant axis x with 4 steps, minor axis y with 2: 5 points, the
    // minor axis advancing at most 1 per step and every point within half
    // a cell of the true line.
    let pts = gen_points(0, 0, 4, 2);
    assert_eq!(pts, vec![(0, 0), (1, 1), (2, 1), (3, 2), (4, 2)]);
}

#[test]
fn length_is_dominant_delta_plus_one() {
    let cases: [(i32, i32, i32, i32); 7] = [
        (0, 0, 4, 2),
        (0, 0, 2, 4),
        (3, 3, -5, 9),
        (-2, -2, -2, -2),
        (10, -7, -10, 7),
        (0, 0, 0, 6),
        (0, 0, 6, 0),
    ];
    for &(x0, y0, x1, y1) in cases.iter() {
        let expect = ((x1 - x0).abs().max((y1 - y0).abs()) + 1) as usize;
        assert_eq!(gen_points(x0, y0, x1, y1).len(), expect);
    }
}

#[test]
fn endpoints_always_included() {
    let cases = [(0, 0, 4, 2), (5, 5, -3, 2), (-1, -1, -1, 8), (2, 9, 9, 2)];
    for &(x0, y0, x1, y1) in cases.iter() {
        let pts = gen_points(x0, y0, x1, y1);
        assert_eq!(*pts.first().unwrap(), (x0, y0));
        assert_eq!(*pts.last().unwrap(), (x1, y1));
    }
}

#[test]
fn axis_aligned_segments() {
    assert_eq!(gen_points(0, 0, 3, 0), vec![(0, 0), (1, 0), (2, 0), (3, 0)]);
    assert_eq!(gen_points(0, 0, 0, 3), vec![(0, 0), (0, 1), (0, 2), (0, 3)]);
    assert_eq!(gen_points(0, 0, -3, 0), vec![(0, 0), (-1, 0), (-2, 0), (-3, 0)]);
    assert_eq!(gen_points(0, 0, 0, -3), vec![(0, 0), (0, -1), (0, -2), (0, -3)]);
}

#[test]
fn negative_direction_segment() {
    assert_eq!(gen_points(0, 0, -3, -1), vec![(0, 0), (-1, 0), (-2, -1), (-3, -1)]);
}

#[test]
fn reversal_matches_when_no_tie() {
    // Odd dominant delta: the accumulator never ties, so the backward
    // rasterization is exactly the forward one reversed.
    let fwd = gen_points(0, 0, 5, 2);
    assert_eq!(fwd, vec![(0, 0), (1, 0), (2, 1), (3, 1), (4, 2), (5, 2)]);
    let mut bwd = gen_points(5, 2, 0, 0);
    bwd.reverse();
    assert_eq!(fwd, bwd);
}

#[test]
fn reversal_rounds_up_at_ties() {
    // Even dominant delta with a tie halfway between rows: each direction
    // rounds the tie up along its own travel, so the two paths differ at
    // the tied steps.
    let fwd = gen_points(0, 0, 4, 2);
    let mut bwd = gen_points(4, 2, 0, 0);
    assert_eq!(bwd, vec![(4, 2), (3, 1), (2, 1), (1, 0), (0, 0)]);
    bwd.reverse();
    assert_ne!(fwd, bwd);
}

#[test]
fn stays_within_half_cell_of_true_line() {
    // For the x-dominant example, |y - x * dy/dx| <= 0.5 at every point.
    let pts = gen_points(0, 0, 4, 2);
    for &(x, y) in pts.iter() {
        let ideal = x as f64 * 2.0 / 4.0;
        assert!((y as f64 - ideal).abs() <= 0.5 + 1e-9);
    }
}

#[test]
fn zero_delta_sign_is_positive() {
    // A delta of exactly 0 counts as the positive direction: the minor
    // axis never drifts negative on a perfectly straight segment.
    for &(x, y) in gen_points(2, 5, 9, 5).iter() {
        assert_eq!(y, 5);
        assert!(x >= 2);
    }
}
