//! The pattern catalog: named seed patterns and the total function from a
//! pattern and an origin to the absolute cells it occupies. Offsets are
//! applied with saturating arithmetic, so a pattern placed near the axes
//! folds onto them instead of underflowing.

use vstd::prelude::*;

use crate::grid::{lives_next, neighbor_count, next_gen, Cell};

verus! {

/// The number of named pattern variants; indices 1 through `MAX_SEEDS`
/// select them, every other index selects the single cell.
pub const MAX_SEEDS: u8 = 14;

/// The pattern selected by an index, at the specification level: indices 1
/// through 14 name the four still lifes, five oscillators and four
/// spaceships in order, and every other index names the single cell.
pub open spec fn select_seed_spec(index: u8) -> Seed {
    if index == 1 {
        Seed::Still(Still::Block)
    } else if index == 2 {
        Seed::Still(Still::Beehive)
    } else if index == 3 {
        Seed::Still(Still::Loaf)
    } else if index == 4 {
        Seed::Still(Still::Boat)
    } else if index == 5 {
        Seed::Still(Still::Tub)
    } else if index == 6 {
        Seed::Oscillator(Oscillator::Blinker)
    } else if index == 7 {
        Seed::Oscillator(Oscillator::Toad)
    } else if index == 8 {
        Seed::Oscillator(Oscillator::Beacon)
    } else if index == 9 {
        Seed::Oscillator(Oscillator::Pulsar)
    } else if index == 10 {
        Seed::Oscillator(Oscillator::PentaDecathlon)
    } else if index == 11 {
        Seed::Spaceship(Spaceship::Glider)
    } else if index == 12 {
        Seed::Spaceship(Spaceship::LwSpaceship)
    } else if index == 13 {
        Seed::Spaceship(Spaceship::MwSpaceship)
    } else if index == 14 {
        Seed::Spaceship(Spaceship::HwSpaceship)
    } else {
        Seed::Cell((0usize, 0usize))
    }
}

/// Maps a discrete index to a pattern: a pure, total lookup with the single
/// cell as the default for index 0 and for any out-of-range index.
pub fn select_seed(index: u8) -> (s: Seed)
    ensures
        s == select_seed_spec(index),
{
    match index {
        // Still lifes are patterns that do not change from one generation to the next.
        1 => Seed::Still(Still::Block),
        2 => Seed::Still(Still::Beehive),
        3 => Seed::Still(Still::Loaf),
        4 => Seed::Still(Still::Boat),
        5 => Seed::Still(Still::Tub),
        // Oscillators are patterns that return to their original configuration
        6 => Seed::Oscillator(Oscillator::Blinker),
        7 => Seed::Oscillator(Oscillator::Toad),
        8 => Seed::Oscillator(Oscillator::Beacon),
        9 => Seed::Oscillator(Oscillator::Pulsar),
        10 => Seed::Oscillator(Oscillator::PentaDecathlon),
        // Spaceships are patterns that translate themselves across the grid.
        11 => Seed::Spaceship(Spaceship::Glider),
        12 => Seed::Spaceship(Spaceship::LwSpaceship),
        13 => Seed::Spaceship(Spaceship::MwSpaceship),
        14 => Seed::Spaceship(Spaceship::HwSpaceship),
        // A single cell.
        _ => Seed::Cell((0, 0)),
    }
}

/// Steps the selection index forward, wrapping back to 0 after the last
/// named variant.
pub fn next_seed(index: u8) -> (r: u8)
    ensures
        index >= MAX_SEEDS ==> r == 0,
        index < MAX_SEEDS ==> r == index + 1,
{
    if index >= MAX_SEEDS {
        0
    } else {
        index + 1
    }
}

/// Steps the selection index backward, wrapping from 0 to the last named
/// variant.
pub fn previous_seed(index: u8) -> (r: u8)
    ensures
        index == 0 ==> r == MAX_SEEDS,
        index > 0 ==> r == index - 1,
{
    match index {
        0 => MAX_SEEDS,
        _ => index - 1,
    }
}

/// Index 0, and every index past the named variants, selects the single
/// cell.
pub proof fn lemma_select_seed_default(index: u8)
    requires
        index == 0 || index > MAX_SEEDS,
    ensures
        select_seed_spec(index) == Seed::Cell((0usize, 0usize)),
{
}

/// Distinct indices in the named range select distinct patterns: the lookup
/// is a bijection between 1..=14 and the named variants.
pub proof fn lemma_select_seed_injective(i: u8, j: u8)
    requires
        1 <= i <= MAX_SEEDS,
        1 <= j <= MAX_SEEDS,
        i != j,
    ensures
        select_seed_spec(i) != select_seed_spec(j),
{
}

/// A Block still life is a fixed point of the rule at every placement that
/// does not fold at the top of the coordinate space: each of its four cells
/// has exactly three live neighbors, and no outside cell has more than two.
pub proof fn lemma_block_still_life(o: Cell)
    requires
        o.0 < usize::MAX,
        o.1 < usize::MAX,
    ensures
        next_gen(Still::Block.cells_spec(o).to_set()) == Still::Block.cells_spec(o).to_set(),
{
    let s = Still::Block.cells_spec(o).to_set();
    let a = o;
    let b = ((o.0 + 1) as usize, o.1);
    let c = (o.0, (o.1 + 1) as usize);
    let d = ((o.0 + 1) as usize, (o.1 + 1) as usize);
    assert(Still::Block.cells_spec(o) =~= seq![a, b, c, d]);
    assert(forall|m: Cell| s.contains(m) <==> (m == a || m == b || m == c || m == d));
    assert forall|m: Cell| lives_next(s, m) == s.contains(m) by {
        if m == a || m == b || m == c || m == d {
            assert(neighbor_count(s, m) == 3);
        } else {
            assert(neighbor_count(s, m) <= 2);
        }
    }
    assert(next_gen(s) =~= s);
}

#[verifier::rlimit(100)]
proof fn lemma_blinker_row_to_column(o: Cell)
    requires
        1 <= o.1,
        o.0 + 2 <= usize::MAX,
        o.1 + 1 <= usize::MAX,
    ensures
        next_gen(Oscillator::Blinker.cells_spec(o).to_set()) == set![
            (((o.0 + 1) as usize, (o.1 - 1) as usize)),
            (((o.0 + 1) as usize, o.1)),
            (((o.0 + 1) as usize, (o.1 + 1) as usize)),
        ],
{
    let s = Oscillator::Blinker.cells_spec(o).to_set();
    let a = o;
    let b = ((o.0 + 1) as usize, o.1);
    let c = ((o.0 + 2) as usize, o.1);
    assert(Oscillator::Blinker.cells_spec(o) =~= seq![a, b, c]);
    assert(forall|m: Cell| s.contains(m) <==> (m == a || m == b || m == c));
    let up = ((o.0 + 1) as usize, (o.1 - 1) as usize);
    let down = ((o.0 + 1) as usize, (o.1 + 1) as usize);
    let t = set![up, b, down];
    assert forall|m: Cell| lives_next(s, m) == t.contains(m) by {
        if m == up || m == down {
            assert(neighbor_count(s, m) == 3);
        } else if m == b {
            assert(neighbor_count(s, m) == 2);
        } else if m == a || m == c {
            assert(neighbor_count(s, m) == 1);
        } else {
            assert(neighbor_count(s, m) <= 2);
        }
    }
    assert(next_gen(s) =~= t);
}

#[verifier::rlimit(100)]
proof fn lemma_blinker_column_to_row(o: Cell)
    requires
        1 <= o.1,
        o.0 + 2 <= usize::MAX,
        o.1 + 1 <= usize::MAX,
    ensures
        next_gen(
            set![
                (((o.0 + 1) as usize, (o.1 - 1) as usize)),
                (((o.0 + 1) as usize, o.1)),
                (((o.0 + 1) as usize, (o.1 + 1) as usize)),
            ],
        ) == Oscillator::Blinker.cells_spec(o).to_set(),
{
    let s = Oscillator::Blinker.cells_spec(o).to_set();
    let a = o;
    let b = ((o.0 + 1) as usize, o.1);
    let c = ((o.0 + 2) as usize, o.1);
    assert(Oscillator::Blinker.cells_spec(o) =~= seq![a, b, c]);
    assert(forall|m: Cell| s.contains(m) <==> (m == a || m == b || m == c));
    let up = ((o.0 + 1) as usize, (o.1 - 1) as usize);
    let down = ((o.0 + 1) as usize, (o.1 + 1) as usize);
    let t = set![up, b, down];
    assert forall|m: Cell| lives_next(t, m) == s.contains(m) by {
        if m == a || m == c {
            assert(neighbor_count(t, m) == 3);
        } else if m == b {
            assert(neighbor_count(t, m) == 2);
        } else if m == up || m == down {
            assert(neighbor_count(t, m) == 1);
        } else {
            assert(neighbor_count(t, m) <= 2);
        }
    }
    assert(next_gen(t) =~= s);
}

/// A Blinker returns to its original cell set after exactly two ticks, at
/// every placement far enough from the coordinate-space edges that neither
/// phase folds: one tick turns the row into a column through its middle
/// cell, and the next turns the column back into the row.
pub proof fn lemma_blinker_period_two(o: Cell)
    requires
        1 <= o.1,
        o.0 + 2 <= usize::MAX,
        o.1 + 1 <= usize::MAX,
    ensures
        next_gen(next_gen(Oscillator::Blinker.cells_spec(o).to_set()))
            == Oscillator::Blinker.cells_spec(o).to_set(),
{
    lemma_blinker_row_to_column(o);
    lemma_blinker_column_to_row(o);
}

/// A trait for seeding a grid with a pattern of cells.
///
/// `cells_spec` is the mathematical statement of the layout; `cells` must
/// produce exactly that sequence.
pub trait IsSeed {
    /// The exact sequence of absolute cells the pattern occupies at `origin`.
    spec fn cells_spec(self, origin: Cell) -> Seq<Cell>;

    /// Expands the pattern into the absolute cells it occupies at `origin`.
    fn cells(&self, origin: Cell) -> (r: Vec<Cell>)
        ensures
            r@ == self.cells_spec(origin),
    ;
}

/// All the possible seeds.
#[derive(Debug)]
pub enum Seed {
    Cell(Cell),
    Still(Still),
    Oscillator(Oscillator),
    Spaceship(Spaceship),
}

/// Still lifes are patterns that do not change from one generation to the next.
#[derive(Debug)]
pub enum Still {
    Block,
    Beehive,
    Loaf,
    Boat,
    Tub,
}

/// Oscillators are patterns that return to their original configuration
/// after a finite number of generations.
#[derive(Debug)]
pub enum Oscillator {
    Blinker,
    Toad,
    Beacon,
    Pulsar,
    PentaDecathlon,
}

/// Spaceships are patterns that translate themselves across the grid.
#[derive(Debug)]
pub enum Spaceship {
    Glider,
    LwSpaceship,
    MwSpaceship,
    HwSpaceship,
}

impl IsSeed for Seed {
    open spec fn cells_spec(self, origin: Cell) -> Seq<Cell> {
        match self {
            Seed::Cell(cell) => cell.cells_spec(origin),
            Seed::Still(still) => still.cells_spec(origin),
            Seed::Oscillator(oscillator) => oscillator.cells_spec(origin),
            Seed::Spaceship(spaceship) => spaceship.cells_spec(origin),
        }
    }

    fn cells(&self, origin: Cell) -> (r: Vec<Cell>) {
        match self {
            Seed::Cell(cell) => cell.cells(origin),
            Seed::Still(still) => still.cells(origin),
            Seed::Oscillator(oscillator) => oscillator.cells(origin),
            Seed::Spaceship(spaceship) => spaceship.cells(origin),
        }
    }
}

/// Seeds a grid with a single cell, whatever the value of the seed itself.
impl IsSeed for Cell {
    open spec fn cells_spec(self, origin: Cell) -> Seq<Cell> {
        seq![origin]
    }

    fn cells(&self, origin: Cell) -> (r: Vec<Cell>) {
        let mut v: Vec<Cell> = Vec::new();
        v.push(origin);
        proof {
            assert(v@ =~= self.cells_spec(origin));
        }
        v
    }
}

// ```txt
// o = origin
// * = cell
// ```
impl IsSeed for Still {
    open spec fn cells_spec(self, origin: Cell) -> Seq<Cell> {
        match self {
            // o *
            // * *
            Still::Block => seq![
                origin,
                (origin.0.saturating_add(1), origin.1),
                (origin.0, origin.1.saturating_add(1)),
                (origin.0.saturating_add(1), origin.1.saturating_add(1)),
            ],
            //   o *
            // *     *
            //   * *
            Still::Beehive => seq![
                origin,
                (origin.0.saturating_add(1), origin.1),
                (origin.0.saturating_sub(1), origin.1.saturating_add(1)),
                (origin.0.saturating_add(2), origin.1.saturating_add(1)),
                (origin.0, origin.1.saturating_add(2)),
                (origin.0.saturating_add(1), origin.1.saturating_add(2)),
            ],
            //   o *
            // *     *
            //   *   *
            //     *
            Still::Loaf => seq![
                origin,
                (origin.0.saturating_add(1), origin.1),
                (origin.0.saturating_sub(1), origin.1.saturating_add(1)),
                (origin.0.saturating_add(2), origin.1.saturating_add(1)),
                (origin.0, origin.1.saturating_add(2)),
                (origin.0.saturating_add(2), origin.1.saturating_add(2)),
                (origin.0.saturating_add(1), origin.1.saturating_add(3)),
            ],
            // o *
            // *   *
            //   *
            Still::Boat => seq![
                origin,
                (origin.0.saturating_add(1), origin.1),
                (origin.0, origin.1.saturating_add(1)),
                (origin.0.saturating_add(2), origin.1.saturating_add(1)),
                (origin.0.saturating_add(1), origin.1.saturating_add(2)),
            ],
            //   o
            // *   *
            //   *
            Still::Tub => seq![
                origin,
                (origin.0.saturating_sub(1), origin.1.saturating_add(1)),
                (origin.0.saturating_add(1), origin.1.saturating_add(1)),
                (origin.0, origin.1.saturating_add(2)),
            ],
        }
    }

    fn cells(&self, origin: Cell) -> (r: Vec<Cell>) {
        let mut v: Vec<Cell> = Vec::new();
        match self {
            Still::Block => {
                v.push(origin);
                v.push((origin.0.saturating_add(1), origin.1));
                v.push((origin.0, origin.1.saturating_add(1)));
                v.push((origin.0.saturating_add(1), origin.1.saturating_add(1)));
            },
            Still::Beehive => {
                v.push(origin);
                v.push((origin.0.saturating_add(1), origin.1));
                v.push((origin.0.saturating_sub(1), origin.1.saturating_add(1)));
                v.push((origin.0.saturating_add(2), origin.1.saturating_add(1)));
                v.push((origin.0, origin.1.saturating_add(2)));
                v.push((origin.0.saturating_add(1), origin.1.saturating_add(2)));
            },
            Still::Loaf => {
                v.push(origin);
                v.push((origin.0.saturating_add(1), origin.1));
                v.push((origin.0.saturating_sub(1), origin.1.saturating_add(1)));
                v.push((origin.0.saturating_add(2), origin.1.saturating_add(1)));
                v.push((origin.0, origin.1.saturating_add(2)));
                v.push((origin.0.saturating_add(2), origin.1.saturating_add(2)));
                v.push((origin.0.saturating_add(1), origin.1.saturating_add(3)));
            },
            Still::Boat => {
                v.push(origin);
                v.push((origin.0.saturating_add(1), origin.1));
                v.push((origin.0, origin.1.saturating_add(1)));
                v.push((origin.0.saturating_add(2), origin.1.saturating_add(1)));
                v.push((origin.0.saturating_add(1), origin.1.saturating_add(2)));
            },
            Still::Tub => {
                v.push(origin);
                v.push((origin.0.saturating_sub(1), origin.1.saturating_add(1)));
                v.push((origin.0.saturating_add(1), origin.1.saturating_add(1)));
                v.push((origin.0, origin.1.saturating_add(2)));
            },
        }
        proof {
            assert(v@ =~= self.cells_spec(origin));
        }
        v
    }
}

// ```txt
// o = origin
// * = cell
// ```
impl IsSeed for Oscillator {
    open spec fn cells_spec(self, origin: Cell) -> Seq<Cell> {
        match self {
            // o * *
            Oscillator::Blinker => seq![
                origin,
                (origin.0.saturating_add(1), origin.1),
                (origin.0.saturating_add(2), origin.1),
            ],
            //   o * *
            // * * *
            Oscillator::Toad => seq![
                origin,
                (origin.0.saturating_add(1), origin.1),
                (origin.0.saturating_add(2), origin.1),
                (origin.0.saturating_sub(1), origin.1.saturating_add(1)),
                (origin.0, origin.1.saturating_add(1)),
                (origin.0.saturating_add(1), origin.1.saturating_add(1)),
            ],
            // o *
            // * *
            //     * *
            //     * *
            Oscillator::Beacon => seq![
                origin,
                (origin.0.saturating_add(1), origin.1),
                (origin.0, origin.1.saturating_add(1)),
                (origin.0.saturating_add(1), origin.1.saturating_add(1)),
                (origin.0.saturating_add(2), origin.1.saturating_add(2)),
                (origin.0.saturating_add(2), origin.1.saturating_add(3)),
                (origin.0.saturating_add(3), origin.1.saturating_add(2)),
                (origin.0.saturating_add(3), origin.1.saturating_add(3)),
            ],
            //    0 1 2 3 4 5 6 7 8 9 0 1 2
            // 0      o * *       * * *
            // 1
            // 2  *         *   *         *
            // 3  *         *   *         *
            // 4  *         *   *         *
            // 5      * * *       * * *
            // 6
            // 7      * * *       * * *
            // 8  *         *   *         *
            // 9  *         *   *         *
            // 0  *         *   *         *
            // 1
            // 2      * * *       * * *
            Oscillator::Pulsar => seq![
                origin,
                (origin.0.saturating_add(1), origin.1),
                (origin.0.saturating_add(2), origin.1),
                (origin.0.saturating_add(6), origin.1),
                (origin.0.saturating_add(7), origin.1),
                (origin.0.saturating_add(8), origin.1),
                (origin.0.saturating_sub(2), origin.1.saturating_add(2)),
                (origin.0.saturating_add(3), origin.1.saturating_add(2)),
                (origin.0.saturating_add(5), origin.1.saturating_add(2)),
                (origin.0.saturating_add(10), origin.1.saturating_add(2)),
                (origin.0.saturating_sub(2), origin.1.saturating_add(3)),
                (origin.0.saturating_add(3), origin.1.saturating_add(3)),
                (origin.0.saturating_add(5), origin.1.saturating_add(3)),
                (origin.0.saturating_add(10), origin.1.saturating_add(3)),
                (origin.0.saturating_sub(2), origin.1.saturating_add(4)),
                (origin.0.saturating_add(3), origin.1.saturating_add(4)),
                (origin.0.saturating_add(5), origin.1.saturating_add(4)),
                (origin.0.saturating_add(10), origin.1.saturating_add(4)),
                (origin.0, origin.1.saturating_add(5)),
                (origin.0.saturating_add(1), origin.1.saturating_add(5)),
                (origin.0.saturating_add(2), origin.1.saturating_add(5)),
                (origin.0.saturating_add(6), origin.1.saturating_add(5)),
                (origin.0.saturating_add(7), origin.1.saturating_add(5)),
                (origin.0.saturating_add(8), origin.1.saturating_add(5)),
                (origin.0, origin.1.saturating_add(7)),
                (origin.0.saturating_add(1), origin.1.saturating_add(7)),
                (origin.0.saturating_add(2), origin.1.saturating_add(7)),
                (origin.0.saturating_add(6), origin.1.saturating_add(7)),
                (origin.0.saturating_add(7), origin.1.saturating_add(7)),
                (origin.0.saturating_add(8), origin.1.saturating_add(7)),
                (origin.0.saturating_sub(2), origin.1.saturating_add(8)),
                (origin.0.saturating_add(3), origin.1.saturating_add(8)),
                (origin.0.saturating_add(5), origin.1.saturating_add(8)),
                (origin.0.saturating_add(10), origin.1.saturating_add(8)),
                (origin.0.saturating_sub(2), origin.1.saturating_add(9)),
                (origin.0.saturating_add(3), origin.1.saturating_add(9)),
                (origin.0.saturating_add(5), origin.1.saturating_add(9)),
                (origin.0.saturating_add(10), origin.1.saturating_add(9)),
                (origin.0.saturating_sub(2), origin.1.saturating_add(10)),
                (origin.0.saturating_add(3), origin.1.saturating_add(10)),
                (origin.0.saturating_add(5), origin.1.saturating_add(10)),
                (origin.0.saturating_add(10), origin.1.saturating_add(10)),
                (origin.0, origin.1.saturating_add(12)),
                (origin.0.saturating_add(1), origin.1.saturating_add(12)),
                (origin.0.saturating_add(2), origin.1.saturating_add(12)),
                (origin.0.saturating_add(6), origin.1.saturating_add(12)),
                (origin.0.saturating_add(7), origin.1.saturating_add(12)),
                (origin.0.saturating_add(8), origin.1.saturating_add(12)),
            ],
            // simplest of its 15 forms
            //   o
            //   *
            // *   *
            //   *
            //   *
            //   *
            //   *
            // *   *
            //   *
            //   *
            Oscillator::PentaDecathlon => seq![
                origin,
                (origin.0, origin.1.saturating_add(1)),
                (origin.0.saturating_sub(1), origin.1.saturating_add(2)),
                (origin.0.saturating_add(1), origin.1.saturating_add(2)),
                (origin.0, origin.1.saturating_add(3)),
                (origin.0, origin.1.saturating_add(4)),
                (origin.0, origin.1.saturating_add(5)),
                (origin.0, origin.1.saturating_add(6)),
                (origin.0.saturating_sub(1), origin.1.saturating_add(7)),
                (origin.0.saturating_add(1), origin.1.saturating_add(7)),
                (origin.0, origin.1.saturating_add(8)),
                (origin.0, origin.1.saturating_add(9)),
            ],
        }
    }

    #[verifier::rlimit(80)]
    fn cells(&self, origin: Cell) -> (r: Vec<Cell>) {
        let mut v: Vec<Cell> = Vec::new();
        match self {
            Oscillator::Blinker => {
                v.push(origin);
                v.push((origin.0.saturating_add(1), origin.1));
                v.push((origin.0.saturating_add(2), origin.1));
            },
            Oscillator::Toad => {
                v.push(origin);
                v.push((origin.0.saturating_add(1), origin.1));
                v.push((origin.0.saturating_add(2), origin.1));
                v.push((origin.0.saturating_sub(1), origin.1.saturating_add(1)));
                v.push((origin.0, origin.1.saturating_add(1)));
                v.push((origin.0.saturating_add(1), origin.1.saturating_add(1)));
            },
            Oscillator::Beacon => {
                // top left block
                v.push(origin);
                v.push((origin.0.saturating_add(1), origin.1));
                v.push((origin.0, origin.1.saturating_add(1)));
                v.push((origin.0.saturating_add(1), origin.1.saturating_add(1)));
                // bottom right block
                v.push((origin.0.saturating_add(2), origin.1.saturating_add(2)));
                v.push((origin.0.saturating_add(2), origin.1.saturating_add(3)));
                v.push((origin.0.saturating_add(3), origin.1.saturating_add(2)));
                v.push((origin.0.saturating_add(3), origin.1.saturating_add(3)));
            },
            Oscillator::Pulsar => {
                // line 0
                v.push(origin);
                v.push((origin.0.saturating_add(1), origin.1));
                v.push((origin.0.saturating_add(2), origin.1));
                v.push((origin.0.saturating_add(6), origin.1));
                v.push((origin.0.saturating_add(7), origin.1));
                v.push((origin.0.saturating_add(8), origin.1));
                // line 1 (empty)
                // line 2
                v.push((origin.0.saturating_sub(2), origin.1.saturating_add(2)));
                v.push((origin.0.saturating_add(3), origin.1.saturating_add(2)));
                v.push((origin.0.saturating_add(5), origin.1.saturating_add(2)));
                v.push((origin.0.saturating_add(10), origin.1.saturating_add(2)));
                // line 3
                v.push((origin.0.saturating_sub(2), origin.1.saturating_add(3)));
                v.push((origin.0.saturating_add(3), origin.1.saturating_add(3)));
                v.push((origin.0.saturating_add(5), origin.1.saturating_add(3)));
                v.push((origin.0.saturating_add(10), origin.1.saturating_add(3)));
                // line 4
                v.push((origin.0.saturating_sub(2), origin.1.saturating_add(4)));
                v.push((origin.0.saturating_add(3), origin.1.saturating_add(4)));
                v.push((origin.0.saturating_add(5), origin.1.saturating_add(4)));
                v.push((origin.0.saturating_add(10), origin.1.saturating_add(4)));
                // line 5
                v.push((origin.0, origin.1.saturating_add(5)));
                v.push((origin.0.saturating_add(1), origin.1.saturating_add(5)));
                v.push((origin.0.saturating_add(2), origin.1.saturating_add(5)));
                v.push((origin.0.saturating_add(6), origin.1.saturating_add(5)));
                v.push((origin.0.saturating_add(7), origin.1.saturating_add(5)));
                v.push((origin.0.saturating_add(8), origin.1.saturating_add(5)));
                // line 6 (empty)
                // line 7
                v.push((origin.0, origin.1.saturating_add(7)));
                v.push((origin.0.saturating_add(1), origin.1.saturating_add(7)));
                v.push((origin.0.saturating_add(2), origin.1.saturating_add(7)));
                v.push((origin.0.saturating_add(6), origin.1.saturating_add(7)));
                v.push((origin.0.saturating_add(7), origin.1.saturating_add(7)));
                v.push((origin.0.saturating_add(8), origin.1.saturating_add(7)));
                // line 8
                v.push((origin.0.saturating_sub(2), origin.1.saturating_add(8)));
                v.push((origin.0.saturating_add(3), origin.1.saturating_add(8)));
                v.push((origin.0.saturating_add(5), origin.1.saturating_add(8)));
                v.push((origin.0.saturating_add(10), origin.1.saturating_add(8)));
                // line 9
                v.push((origin.0.saturating_sub(2), origin.1.saturating_add(9)));
                v.push((origin.0.saturating_add(3), origin.1.saturating_add(9)));
                v.push((origin.0.saturating_add(5), origin.1.saturating_add(9)));
                v.push((origin.0.saturating_add(10), origin.1.saturating_add(9)));
                // line 10
                v.push((origin.0.saturating_sub(2), origin.1.saturating_add(10)));
                v.push((origin.0.saturating_add(3), origin.1.saturating_add(10)));
                v.push((origin.0.saturating_add(5), origin.1.saturating_add(10)));
                v.push((origin.0.saturating_add(10), origin.1.saturating_add(10)));
                // line 11 (empty)
                // line 12
                v.push((origin.0, origin.1.saturating_add(12)));
                v.push((origin.0.saturating_add(1), origin.1.saturating_add(12)));
                v.push((origin.0.saturating_add(2), origin.1.saturating_add(12)));
                v.push((origin.0.saturating_add(6), origin.1.saturating_add(12)));
                v.push((origin.0.saturating_add(7), origin.1.saturating_add(12)));
                v.push((origin.0.saturating_add(8), origin.1.saturating_add(12)));
            },
            Oscillator::PentaDecathlon => {
                v.push(origin);
                v.push((origin.0, origin.1.saturating_add(1)));
                v.push((origin.0.saturating_sub(1), origin.1.saturating_add(2)));
                v.push((origin.0.saturating_add(1), origin.1.saturating_add(2)));
                v.push((origin.0, origin.1.saturating_add(3)));
                v.push((origin.0, origin.1.saturating_add(4)));
                v.push((origin.0, origin.1.saturating_add(5)));
                v.push((origin.0, origin.1.saturating_add(6)));
                v.push((origin.0.saturating_sub(1), origin.1.saturating_add(7)));
                v.push((origin.0.saturating_add(1), origin.1.saturating_add(7)));
                v.push((origin.0, origin.1.saturating_add(8)));
                v.push((origin.0, origin.1.saturating_add(9)));
            },
        }
        proof {
            assert(v@ =~= self.cells_spec(origin));
        }
        v
    }
}

// ```txt
// o = origin
// * = cell
// ```
impl IsSeed for Spaceship {
    open spec fn cells_spec(self, origin: Cell) -> Seq<Cell> {
        match self {
            //   o
            // *
            // * * *
            Spaceship::Glider => seq![
                origin,
                (origin.0.saturating_sub(1), origin.1.saturating_add(1)),
                (origin.0.saturating_sub(1), origin.1.saturating_add(2)),
                (origin.0, origin.1.saturating_add(2)),
                (origin.0.saturating_add(1), origin.1.saturating_add(2)),
            ],
            // 0 1 2 3 4
            //   o     *
            // *
            // *       *
            // * * * *
            Spaceship::LwSpaceship => seq![
                origin,
                (origin.0.saturating_add(3), origin.1),
                (origin.0.saturating_sub(1), origin.1.saturating_add(1)),
                (origin.0.saturating_sub(1), origin.1.saturating_add(2)),
                (origin.0.saturating_add(3), origin.1.saturating_add(2)),
                (origin.0.saturating_sub(1), origin.1.saturating_add(3)),
                (origin.0, origin.1.saturating_add(3)),
                (origin.0.saturating_add(1), origin.1.saturating_add(3)),
                (origin.0.saturating_add(2), origin.1.saturating_add(3)),
            ],
            // 0 1 2 3 4 5
            //     o
            // *       *
            //           *
            // *         *
            //   * * * * *
            Spaceship::MwSpaceship => seq![
                origin,
                (origin.0.saturating_sub(2), origin.1.saturating_add(1)),
                (origin.0.saturating_add(2), origin.1.saturating_add(1)),
                (origin.0.saturating_add(3), origin.1.saturating_add(2)),
                (origin.0.saturating_sub(2), origin.1.saturating_add(3)),
                (origin.0.saturating_add(3), origin.1.saturating_add(3)),
                (origin.0.saturating_sub(1), origin.1.saturating_add(4)),
                (origin.0, origin.1.saturating_add(4)),
                (origin.0.saturating_add(1), origin.1.saturating_add(4)),
                (origin.0.saturating_add(2), origin.1.saturating_add(4)),
                (origin.0.saturating_add(3), origin.1.saturating_add(4)),
            ],
            // 0 1 2 3 4 5 6
            //     o *
            // *         *
            //             *
            // *           *
            //   * * * * * *
            Spaceship::HwSpaceship => seq![
                origin,
                (origin.0.saturating_add(1), origin.1),
                (origin.0.saturating_sub(2), origin.1.saturating_add(1)),
                (origin.0.saturating_add(3), origin.1.saturating_add(1)),
                (origin.0.saturating_add(4), origin.1.saturating_add(2)),
                (origin.0.saturating_sub(2), origin.1.saturating_add(3)),
                (origin.0.saturating_add(4), origin.1.saturating_add(3)),
                (origin.0.saturating_sub(1), origin.1.saturating_add(4)),
                (origin.0, origin.1.saturating_add(4)),
                (origin.0.saturating_add(1), origin.1.saturating_add(4)),
                (origin.0.saturating_add(2), origin.1.saturating_add(4)),
                (origin.0.saturating_add(3), origin.1.saturating_add(4)),
                (origin.0.saturating_add(4), origin.1.saturating_add(4)),
            ],
        }
    }

    fn cells(&self, origin: Cell) -> (r: Vec<Cell>) {
        let mut v: Vec<Cell> = Vec::new();
        match self {
            Spaceship::Glider => {
                v.push(origin);
                v.push((origin.0.saturating_sub(1), origin.1.saturating_add(1)));
                v.push((origin.0.saturating_sub(1), origin.1.saturating_add(2)));
                v.push((origin.0, origin.1.saturating_add(2)));
                v.push((origin.0.saturating_add(1), origin.1.saturating_add(2)));
            },
            Spaceship::LwSpaceship => {
                // line 0
                v.push(origin);
                v.push((origin.0.saturating_add(3), origin.1));
                // line 1
                v.push((origin.0.saturating_sub(1), origin.1.saturating_add(1)));
                // line 2
                v.push((origin.0.saturating_sub(1), origin.1.saturating_add(2)));
                v.push((origin.0.saturating_add(3), origin.1.saturating_add(2)));
                // line 3
                v.push((origin.0.saturating_sub(1), origin.1.saturating_add(3)));
                v.push((origin.0, origin.1.saturating_add(3)));
                v.push((origin.0.saturating_add(1), origin.1.saturating_add(3)));
                v.push((origin.0.saturating_add(2), origin.1.saturating_add(3)));
            },
            Spaceship::MwSpaceship => {
                // line 0
                v.push(origin);
                // line 1
                v.push((origin.0.saturating_sub(2), origin.1.saturating_add(1)));
                v.push((origin.0.saturating_add(2), origin.1.saturating_add(1)));
                // line 2
                v.push((origin.0.saturating_add(3), origin.1.saturating_add(2)));
                // line 3
                v.push((origin.0.saturating_sub(2), origin.1.saturating_add(3)));
                v.push((origin.0.saturating_add(3), origin.1.saturating_add(3)));
                // line 4
                v.push((origin.0.saturating_sub(1), origin.1.saturating_add(4)));
                v.push((origin.0, origin.1.saturating_add(4)));
                v.push((origin.0.saturating_add(1), origin.1.saturating_add(4)));
                v.push((origin.0.saturating_add(2), origin.1.saturating_add(4)));
                v.push((origin.0.saturating_add(3), origin.1.saturating_add(4)));
            },
            Spaceship::HwSpaceship => {
                // line 0
                v.push(origin);
                v.push((origin.0.saturating_add(1), origin.1));
                // line 1
                v.push((origin.0.saturating_sub(2), origin.1.saturating_add(1)));
                v.push((origin.0.saturating_add(3), origin.1.saturating_add(1)));
                // line 2
                v.push((origin.0.saturating_add(4), origin.1.saturating_add(2)));
                // line 3
                v.push((origin.0.saturating_sub(2), origin.1.saturating_add(3)));
                v.push((origin.0.saturating_add(4), origin.1.saturating_add(3)));
                // line 4
                v.push((origin.0.saturating_sub(1), origin.1.saturating_add(4)));
                v.push((origin.0, origin.1.saturating_add(4)));
                v.push((origin.0.saturating_add(1), origin.1.saturating_add(4)));
                v.push((origin.0.saturating_add(2), origin.1.saturating_add(4)));
                v.push((origin.0.saturating_add(3), origin.1.saturating_add(4)));
                v.push((origin.0.saturating_add(4), origin.1.saturating_add(4)));
            },
        }
        proof {
            assert(v@ =~= self.cells_spec(origin));
        }
        v
    }
}

} // verus!
