use std::collections::HashSet;

use game_of_life::grid::Grid;
use game_of_life::seed::{
    next_seed, previous_seed, select_seed, Oscillator, Seed, Spaceship, Still,
};

fn live_set(grid: &Grid) -> HashSet<(usize, usize)> {
    grid.live_cells().iter().copied().collect()
}

#[test]
fn test_still_block_seed() {
    let mut grid = Grid::new(5, 5);
    grid.seed(Still::Block, (0, 0));

    let expected_cells = HashSet::from([
        (0, 0), (1, 0),
        (0, 1), (1, 1)
    ]);

    assert_eq!(live_set(&grid), expected_cells);
}

#[test]
fn test_still_beehive_seed() {
    let mut grid = Grid::new(7, 7);
    grid.seed(Still::Beehive, (2, 2));

    let expected_cells = HashSet::from([
                (2, 2),  (3, 2),
        (1, 3),                  (4, 3),
                (2, 4),  (3, 4)
    ]);

    assert_eq!(live_set(&grid), expected_cells);
}

#[test]
fn test_still_loaf_seed() {
    let mut grid = Grid::new(7, 7);
    grid.seed(Still::Loaf, (2, 2));

    let expected_cells = HashSet::from([
                (2, 2), (3, 2),
        (1, 3),                 (4, 3),
                (2, 4),         (4, 4),
                        (3, 5)
    ]);

    assert_eq!(live_set(&grid), expected_cells);
}

#[test]
fn test_still_boat_seed() {
    let mut grid = Grid::new(5, 5);
    grid.seed(Still::Boat, (2, 2));

    let expected_cells = HashSet::from([
        (2, 2), (3, 2),
        (2, 3),         (4, 3),
                (3, 4),
    ]);

    assert_eq!(live_set(&grid), expected_cells);
}

#[test]
fn test_still_tub_seed() {
    let mut grid = Grid::new(5, 5);
    grid.seed(Still::Tub, (2, 2));

    let expected_cells = HashSet::from([
                (2, 2),
        (1, 3),         (3, 3),
                (2, 4),
    ]);

    assert_eq!(live_set(&grid), expected_cells);
}

#[test]
fn test_oscillator_blinker_seed() {
    let mut grid = Grid::new(5, 5);
    grid.seed(Oscillator::Blinker, (2, 2));

    let expected_cells = HashSet::from([
        (2, 2), (3, 2), (4, 2)
    ]);

    assert_eq!(live_set(&grid), expected_cells);
}

#[test]
fn test_oscillator_toad_seed() {
    let mut grid = Grid::new(6, 6);
    grid.seed(Oscillator::Toad, (2, 2));

    let expected_cells = HashSet::from([
                (2, 2), (3, 2), (4, 2),
        (1, 3), (2, 3), (3, 3)
    ]);

    assert_eq!(live_set(&grid), expected_cells);
}

#[test]
fn test_oscillator_beacon_seed() {
    let mut grid = Grid::new(6, 6);
    grid.seed(Oscillator::Beacon, (2, 2));

    let expected_cells = HashSet::from([
        (2, 2), (3, 2),
        (2, 3), (3, 3),
                        (4, 4), (5, 4),
                        (4, 5), (5, 5)
    ]);

    assert_eq!(live_set(&grid), expected_cells);
}

#[test]
fn test_oscillator_pulsar_seed() {
    let mut grid = Grid::new(17, 17);
    grid.seed(Oscillator::Pulsar, (2, 2));

    //    0 1 2 3 4 5 6 7 8 9 0 1 2
    // 2      o * *       * * *
    // 3
    // 4  *         *   *         *
    // 5  *         *   *         *
    // 6  *         *   *         *
    // 7      * * *       * * *
    // 8
    // 9      * * *       * * *
    // 0  *         *   *         *
    // 1  *         *   *         *
    // 2  *         *   *         *
    // 3
    // 4      * * *       * * *
    let expected_cells = HashSet::from([
        (2, 2), (3, 2), (4, 2), (8, 2), (9, 2), (10, 2),
        // line 3 empty
        (0, 4), (5, 4), (7, 4), (12, 4),
        (0, 5), (5, 5), (7, 5), (12, 5),
        (0, 6), (5, 6), (7, 6), (12, 6),
        (2, 7), (3, 7), (4, 7), (8, 7), (9, 7), (10, 7),
        // line 8 empty
        (2, 9), (3, 9), (4, 9), (8, 9), (9, 9), (10, 9),
        (0, 10), (5, 10), (7, 10), (12, 10),
        (0, 11), (5, 11), (7, 11), (12, 11),
        (0, 12), (5, 12), (7, 12), (12, 12),
        // line 13 empty
        (2, 14), (3, 14), (4, 14), (8, 14), (9, 14), (10, 14),
    ]);

    assert_eq!(live_set(&grid), expected_cells);
}

#[test]
fn test_oscillator_penta_decathlon_seed() {
    let mut grid = Grid::new(13, 13);
    grid.seed(Oscillator::PentaDecathlon, (2, 2));

    let expected_cells = HashSet::from([
            (2, 2),
            (2, 3),
        (1, 4), (3, 4),
            (2, 5),
            (2, 6),
            (2, 7),
            (2, 8),
        (1, 9), (3, 9),
            (2, 10),
            (2, 11),
    ]);

    assert_eq!(live_set(&grid), expected_cells);
}

#[test]
fn test_spaceship_glider_seed() {
    let mut grid = Grid::new(5, 5);
    grid.seed(Spaceship::Glider, (2, 2));

    let expected_cells = HashSet::from([
                (2, 2),
        (1, 3),
        (1, 4), (2, 4), (3, 4)
    ]);

    assert_eq!(live_set(&grid), expected_cells);
}

#[test]
fn test_spaceship_lw_spaceship_seed() {
    let mut grid = Grid::new(7, 7);
    grid.seed(Spaceship::LwSpaceship, (2, 2));

    let expected_cells = HashSet::from([
                (2, 2),                (5, 2),
        (1, 3),
        (1, 4),                        (5, 4),
        (1, 5), (2, 5), (3, 5), (4, 5),
    ]);

    assert_eq!(live_set(&grid), expected_cells);
}

#[test]
fn test_spaceship_mw_spaceship_seed() {
    let mut grid = Grid::new(7, 7);
    grid.seed(Spaceship::MwSpaceship, (2, 2));

    let expected_cells = HashSet::from([
                        (2, 2),
        (0, 3),                         (4, 3),
                                                (5, 4),
        (0, 5),                                 (5, 5),
                (1, 6), (2, 6), (3, 6), (4, 6), (5, 6),
    ]);

    assert_eq!(live_set(&grid), expected_cells);
}

#[test]
fn test_spaceship_hw_spaceship_seed() {
    let mut grid = Grid::new(7, 7);
    grid.seed(Spaceship::HwSpaceship, (2, 2));

    let expected_cells = HashSet::from([
                        (2, 2), (3, 2),
        (0, 3),                                 (5, 3),
                                                        (6, 4),
        (0, 5),                                         (6, 5),
                (1, 6), (2, 6), (3, 6), (4, 6), (5, 6), (6, 6),
    ]);

    assert_eq!(live_set(&grid), expected_cells);
}

#[test]
fn test_single_cell() {
    let mut grid = Grid::new(5, 5);
    grid.seed((0, 0), (2, 2));

    let expected_cells = HashSet::from([
        (2, 2)
    ]);

    assert_eq!(live_set(&grid), expected_cells);
}

#[test]
fn patterns_fold_onto_the_axes_near_origin() {
    // Saturating arithmetic clamps offsets that would go below zero.
    let mut grid = Grid::new(6, 6);
    grid.seed(Still::Tub, (0, 0));
    assert_eq!(live_set(&grid), HashSet::from([(0, 0), (0, 1), (1, 1), (0, 2)]));
}

#[test]
fn select_seed_defaults_to_single_cell() {
    assert!(matches!(select_seed(0), Seed::Cell((0, 0))));
    assert!(matches!(select_seed(15), Seed::Cell((0, 0))));
    assert!(matches!(select_seed(100), Seed::Cell((0, 0))));
    assert!(matches!(select_seed(255), Seed::Cell((0, 0))));
}

#[test]
fn select_seed_maps_named_indices_bijectively() {
    assert!(matches!(select_seed(1), Seed::Still(Still::Block)));
    assert!(matches!(select_seed(2), Seed::Still(Still::Beehive)));
    assert!(matches!(select_seed(3), Seed::Still(Still::Loaf)));
    assert!(matches!(select_seed(4), Seed::Still(Still::Boat)));
    assert!(matches!(select_seed(5), Seed::Still(Still::Tub)));
    assert!(matches!(select_seed(6), Seed::Oscillator(Oscillator::Blinker)));
    assert!(matches!(select_seed(7), Seed::Oscillator(Oscillator::Toad)));
    assert!(matches!(select_seed(8), Seed::Oscillator(Oscillator::Beacon)));
    assert!(matches!(select_seed(9), Seed::Oscillator(Oscillator::Pulsar)));
    assert!(matches!(select_seed(10), Seed::Oscillator(Oscillator::PentaDecathlon)));
    assert!(matches!(select_seed(11), Seed::Spaceship(Spaceship::Glider)));
    assert!(matches!(select_seed(12), Seed::Spaceship(Spaceship::LwSpaceship)));
    assert!(matches!(select_seed(13), Seed::Spaceship(Spaceship::MwSpaceship)));
    assert!(matches!(select_seed(14), Seed::Spaceship(Spaceship::HwSpaceship)));
}

#[test]
fn selected_seed_stamps_its_pattern() {
    let mut by_index = Grid::new(8, 8);
    by_index.seed(select_seed(11), (3, 3));
    let mut direct = Grid::new(8, 8);
    direct.seed(Spaceship::Glider, (3, 3));
    assert_eq!(live_set(&by_index), live_set(&direct));
}

#[test]
fn seed_index_steps_wrap_around() {
    assert_eq!(next_seed(0), 1);
    assert_eq!(next_seed(13), 14);
    assert_eq!(next_seed(14), 0);
    assert_eq!(next_seed(200), 0);
    assert_eq!(previous_seed(0), 14);
    assert_eq!(previous_seed(1), 0);
    assert_eq!(previous_seed(14), 13);
}
