use life::grid::Grid;

fn count_alive(g: &Grid) -> usize {
    let mut n = 0;
    for r in 0..g.height {
        for c in 0..g.width {
            if g.get(r, c) {
                n += 1;
            }
        }
    }
    n
}

#[test]
fn new_dead_is_all_dead() {
    let g = Grid::new_dead(7, 5);
    assert_eq!(g.width, 7);
    assert_eq!(g.height, 5);
    assert_eq!(count_alive(&g), 0);
}

#[test]
fn set_then_get() {
    let mut g = Grid::new_dead(4, 4);
    g.set(2, 3, true);
    assert!(g.get(2, 3));
    assert!(!g.get(3, 2));
    g.set(2, 3, false);
    assert!(!g.get(2, 3));
}

#[test]
fn neighbor_count_center() {
    let mut g = Grid::new_dead(5, 5);
    g.set(1, 1, true);
    g.set(1, 2, true);
    g.set(3, 3, true);
    assert_eq!(g.neighbor_count(2, 2), 3);
    assert_eq!(g.neighbor_count(1, 1), 1);
    assert_eq!(g.neighbor_count(0, 0), 1);
}

#[test]
fn neighbor_count_wraps_around_edges() {
    let mut g = Grid::new_dead(5, 4);
    g.set(0, 0, true);
    // The cell in the opposite corner touches (0,0) through both wrapped axes.
    assert_eq!(g.neighbor_count(3, 4), 1);
    // A cell on the same row at the far edge touches it through the wrapped column.
    assert_eq!(g.neighbor_count(0, 4), 1);
    // A cell in the same column at the far edge touches it through the wrapped row.
    assert_eq!(g.neighbor_count(3, 0), 1);
    // A full row lights both row-neighbors of every cell in the wrapped row.
    let mut h = Grid::new_dead(3, 3);
    h.set(0, 0, true);
    h.set(0, 1, true);
    h.set(0, 2, true);
    assert_eq!(h.neighbor_count(1, 1), 3);
    assert_eq!(h.neighbor_count(2, 1), 3);
}

#[test]
fn neighbor_count_translation_symmetry() {
    // A small glider-like pattern, then the same pattern translated by
    // (2, 3) modulo the dimensions: every neighbor count translates too.
    let pattern = [(0usize, 1usize), (1, 2), (2, 0), (2, 1), (2, 2)];
    let (h, w) = (4usize, 5usize);
    let (dr, dc) = (2usize, 3usize);
    let mut g1 = Grid::new_dead(w, h);
    let mut g2 = Grid::new_dead(w, h);
    for &(r, c) in pattern.iter() {
        g1.set(r, c, true);
        g2.set((r + dr) % h, (c + dc) % w, true);
    }
    for r in 0..h {
        for c in 0..w {
            assert_eq!(
                g1.neighbor_count(r, c),
                g2.neighbor_count((r + dr) % h, (c + dc) % w)
            );
        }
    }
}

#[test]
fn step_of_all_dead_is_all_dead() {
    let g = Grid::new_dead(6, 6);
    let next = g.step();
    assert_eq!(next.width, 6);
    assert_eq!(next.height, 6);
    assert_eq!(count_alive(&next), 0);
}

#[test]
fn isolated_cell_dies() {
    let mut g = Grid::new_dead(6, 6);
    g.set(3, 3, true);
    let next = g.step();
    assert!(!next.get(3, 3));
    assert_eq!(count_alive(&next), 0);
}

#[test]
fn block_still_life_on_10x10() {
    let mut g = Grid::new_dead(10, 10);
    g.set(5, 5, true);
    g.set(5, 6, true);
    g.set(6, 5, true);
    g.set(6, 6, true);
    let next = g.step();
    for r in 0..10 {
        for c in 0..10 {
            let expected = (5..=6).contains(&r) && (5..=6).contains(&c);
            assert_eq!(next.get(r, c), expected, "cell ({r}, {c})");
        }
    }
}

#[test]
fn blinker_oscillates() {
    let mut g = Grid::new_dead(5, 5);
    g.set(1, 2, true);
    g.set(2, 2, true);
    g.set(3, 2, true);
    let next = g.step();
    assert!(next.get(2, 1) && next.get(2, 2) && next.get(2, 3));
    assert_eq!(count_alive(&next), 3);
    let again = next.step();
    assert!(again.get(1, 2) && again.get(2, 2) && again.get(3, 2));
    assert_eq!(count_alive(&again), 3);
}

#[test]
fn overcrowded_cell_dies_and_birth_happens() {
    let mut g = Grid::new_dead(8, 8);
    // Four neighbors around a live center: the center dies of overcrowding.
    g.set(3, 3, true);
    g.set(2, 2, true);
    g.set(2, 4, true);
    g.set(4, 2, true);
    g.set(4, 4, true);
    let next = g.step();
    assert!(!next.get(3, 3));
    // A dead cell with exactly three live neighbors is born.
    let mut h = Grid::new_dead(8, 8);
    h.set(2, 2, true);
    h.set(2, 4, true);
    h.set(4, 3, true);
    let nexth = h.step();
    assert!(nexth.get(3, 3));
}

#[test]
fn sub_grid_copies_rectangle() {
    let mut g = Grid::new_dead(6, 5);
    g.set(1, 2, true);
    g.set(2, 3, true);
    let s = g.sub_grid(1, 1, 4, 3);
    assert_eq!(s.width, 4);
    assert_eq!(s.height, 3);
    assert!(s.get(0, 1));
    assert!(s.get(1, 2));
    assert_eq!(count_alive(&s), 2);
}

#[test]
fn new_random_has_requested_dimensions() {
    let g = Grid::new_random(12, 9);
    assert_eq!(g.width, 12);
    assert_eq!(g.height, 9);
    // Every cell is readable whatever the dice said.
    let _ = count_alive(&g);
}
