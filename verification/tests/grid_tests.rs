//! Tests of the toroidal grid container.

use simslime::grid::Grid;

#[test]
fn new_dead_is_all_zero() {
    let g = Grid::new_dead(7, 3);
    assert_eq!(g.width, 7);
    assert_eq!(g.height, 3);
    assert_eq!(g.cells().len(), 21);
    assert!(g.cells().iter().all(|&c| c == 0));
}

#[test]
fn set_then_get_row_major() {
    let mut g = Grid::new_dead(4, 3);
    g.set(2, 1, 1);
    assert_eq!(g.get(2, 1), 1);
    assert_eq!(g.cells()[1 * 4 + 2], 1);
    assert_eq!(g.get(1, 2), 0);
    g.set(2, 1, 0);
    assert!(g.cells().iter().all(|&c| c == 0));
}
