use std::collections::HashSet;

use game_of_life::grid::Grid;
use game_of_life::seed::{Oscillator, Seed, Spaceship, Still};

fn live_set(grid: &Grid) -> HashSet<(usize, usize)> {
    grid.live_cells().iter().copied().collect()
}

fn preview_set(grid: &Grid) -> HashSet<(usize, usize)> {
    grid.preview_cells().iter().copied().collect()
}

#[test]
fn test_underpopulation() {
    let mut grid = Grid::new(3, 3);
    grid.add_cell((1, 1)); // Cell has no neighbors

    assert!(grid.is_live((1, 1)));
    grid.tick();
    assert!(!grid.is_live((1, 1))); // Cell should die
}

#[test]
fn test_survival() {
    let mut grid = Grid::new(3, 3);
    grid.add_cell((1, 1)); // Cell (1,1) has two neighbors
    grid.add_cell((0, 1));
    grid.add_cell((2, 1));
    grid.add_cell((11, 11)); // Cell (11,11) has three neighbors
    grid.add_cell((10, 10));
    grid.add_cell((10, 11));
    grid.add_cell((12, 11));

    assert!(grid.is_live((1, 1)));
    assert!(grid.is_live((11, 11)));
    grid.tick();
    assert!(grid.is_live((1, 1))); // Cell should survive
    assert!(grid.is_live((11, 11))); // Cell should survive
}

#[test]
fn test_overpopulation() {
    let mut grid = Grid::new(3, 3);
    grid.add_cell((1, 1)); // Cell (1,1) has > 3 neighbors
    grid.add_cell((0, 0));
    grid.add_cell((0, 1));
    grid.add_cell((1, 0));
    grid.add_cell((2, 2));

    assert!(grid.is_live((1, 1)));
    grid.tick();
    assert!(!grid.is_live((1, 1))); // Cell should die
}

#[test]
fn test_reproduction() {
    let mut grid = Grid::new(3, 3);
    grid.add_cell((0, 0));
    grid.add_cell((1, 0));
    grid.add_cell((2, 1)); // Dead cell at (1,1) has three neighbors
    grid.tick();
    assert!(grid.is_live((1, 1))); // Cell should become alive
}

#[test]
fn test_resize() {
    let mut grid = Grid::new(5, 5);
    grid.add_cell((2, 2));
    grid.add_cell((4, 4));

    assert!(grid.is_live((2, 2)));
    assert!(grid.is_live((4, 4)));
    grid.resize(3, 3);
    assert!(grid.is_live((2, 2)));
    assert!(!grid.is_live((4, 4))); // Cell should be out of bounds
}

#[test]
fn seed_membership_matches_pattern() {
    // Seeding an empty grid makes exactly the pattern's expanded cells live.
    let mut grid = Grid::new(6, 6);
    grid.seed(Oscillator::Toad, (2, 2));

    let expected = [(2, 2), (3, 2), (4, 2), (1, 3), (2, 3), (3, 3)];
    for cell in expected {
        assert!(grid.is_live(cell));
    }
    assert_eq!(live_set(&grid), HashSet::from(expected));
    assert!(!grid.is_live((0, 0)));
    assert!(!grid.is_live((4, 3)));
}

#[test]
fn seed_twice_is_idempotent() {
    let mut once = Grid::new(7, 7);
    once.seed(Still::Loaf, (2, 2));

    let mut twice = Grid::new(7, 7);
    twice.seed(Still::Loaf, (2, 2));
    twice.seed(Still::Loaf, (2, 2));

    assert_eq!(live_set(&once), live_set(&twice));
}

#[test]
fn block_still_life_unchanged_by_tick() {
    for origin in [(0, 0), (3, 3), (1, 2)] {
        let mut grid = Grid::new(10, 10);
        grid.seed(Still::Block, origin);
        let before = live_set(&grid);
        grid.tick();
        assert_eq!(live_set(&grid), before);
    }
}

#[test]
fn blinker_returns_after_two_ticks() {
    let mut grid = Grid::new(7, 7);
    grid.seed(Oscillator::Blinker, (2, 2));
    let before = live_set(&grid);
    grid.tick();
    assert_ne!(live_set(&grid), before);
    grid.tick();
    assert_eq!(live_set(&grid), before);
}

#[test]
fn glider_translates_after_four_ticks() {
    // This glider points down-left, so one full period carries every cell
    // one step along that diagonal.
    let mut grid = Grid::new(12, 12);
    grid.seed(Spaceship::Glider, (2, 2));
    let before = live_set(&grid);
    for _ in 0..4 {
        grid.tick();
    }
    let translated: HashSet<(usize, usize)> =
        before.iter().map(|&(x, y)| (x - 1, y + 1)).collect();
    assert_eq!(live_set(&grid), translated);
}

#[test]
fn resize_same_dimensions_is_noop() {
    let mut grid = Grid::new(3, 3);
    grid.add_cell((1, 1));
    grid.add_cell((11, 11)); // outside the visible area, but kept as-is
    grid.preview((0, 0), (2, 2));
    let cells_before = live_set(&grid);
    let preview_before = preview_set(&grid);

    grid.resize(3, 3);

    assert_eq!(grid.width(), 3);
    assert_eq!(grid.height(), 3);
    assert_eq!(live_set(&grid), cells_before);
    assert_eq!(preview_set(&grid), preview_before);
}

#[test]
fn resize_drops_exactly_out_of_bounds_cells() {
    let mut grid = Grid::new(8, 8);
    grid.add_cell((0, 0));
    grid.add_cell((4, 2));
    grid.add_cell((5, 2)); // x at the new width: dropped
    grid.add_cell((2, 6)); // y past the new height: dropped
    grid.preview((0, 0), (1, 1));

    grid.resize(5, 5);

    assert_eq!(grid.width(), 5);
    assert_eq!(grid.height(), 5);
    assert_eq!(live_set(&grid), HashSet::from([(0, 0), (4, 2)]));
    assert!(preview_set(&grid).is_empty()); // preview discarded on rebuild
}

#[test]
fn preview_never_affects_tick() {
    let mut plain = Grid::new(9, 9);
    plain.seed(Spaceship::Glider, (3, 3));
    plain.tick();

    let mut previewed = Grid::new(9, 9);
    previewed.seed(Spaceship::Glider, (3, 3));
    previewed.preview(Oscillator::Pulsar, (4, 4));
    previewed.tick();

    assert_eq!(live_set(&plain), live_set(&previewed));
}

#[test]
fn seed_commits_over_pending_preview() {
    let mut grid = Grid::new(6, 6);
    grid.preview(Still::Tub, (2, 2));
    assert!(!preview_set(&grid).is_empty());
    grid.seed(Still::Block, (1, 1));
    assert!(preview_set(&grid).is_empty());
}

#[test]
fn clear_empties_live_and_preview() {
    let mut grid = Grid::new(4, 3);
    grid.seed(Still::Beehive, (1, 0));
    grid.preview(Still::Boat, (0, 0));
    grid.clear();

    assert!(live_set(&grid).is_empty());
    assert!(preview_set(&grid).is_empty());
    assert_eq!(grid.width(), 4);
    assert_eq!(grid.height(), 3);
    assert_eq!(grid.render(), "⬜⬜⬜⬜\n⬜⬜⬜⬜\n⬜⬜⬜⬜\n");
}

#[test]
fn render_distinguishes_the_four_states() {
    let mut grid = Grid::new(2, 2);
    grid.add_cell((0, 0)); // live only
    grid.add_cell((1, 1)); // live, then also previewed
    let preview = Seed::Still(Still::Block);
    grid.preview(preview, (1, 0)); // covers (1,0) and (1,1); the rest is off-area
    assert_eq!(grid.render(), "⬛🟦\n⬜🟩\n");
}

#[test]
fn render_of_empty_grid_has_no_rows() {
    let grid = Grid::new(0, 5);
    assert_eq!(grid.render(), "\n\n\n\n\n");
    let grid = Grid::new(5, 0);
    assert_eq!(grid.render(), "");
}

#[test]
fn count_neighbors_matches_configuration() {
    let mut grid = Grid::new(5, 5);
    grid.add_cell((0, 0));
    grid.add_cell((1, 0));
    grid.add_cell((2, 1));
    assert_eq!(grid.count_neighbors((1, 1)), 3);
    assert_eq!(grid.count_neighbors((0, 0)), 1); // corner: only 3 coordinates exist
    assert_eq!(grid.count_neighbors((0, 1)), 2);
    assert_eq!(grid.count_neighbors((4, 4)), 0);
}

#[test]
fn preview_replaces_previous_overlay() {
    let mut grid = Grid::new(6, 6);
    grid.preview(Still::Block, (1, 1));
    assert!(grid.is_previewed((1, 1)));
    grid.preview((0, 0), (4, 4));
    assert!(grid.is_previewed((4, 4)));
    assert!(!grid.is_previewed((1, 1)));
    assert!(live_set(&grid).is_empty());
}

#[test]
fn every_still_life_is_unchanged_by_tick() {
    for still in [Still::Block, Still::Beehive, Still::Loaf, Still::Boat, Still::Tub] {
        let mut grid = Grid::new(10, 10);
        grid.seed(still, (3, 3));
        let before = live_set(&grid);
        grid.tick();
        assert_eq!(live_set(&grid), before);
    }
}
