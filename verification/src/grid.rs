//! The grid engine: a sparse live-cell population with a preview overlay,
//! advanced one generation at a time by the standard Game of Life rule.

use vstd::prelude::*;

use crate::seed::IsSeed;

verus! {

/// A coordinate pair `(x, y)`; identity is structural.
pub type Cell = (usize, usize);

/// Two distinct cells are adjacent when they differ by at most one
/// on each axis (the 8-neighborhood, with no wrap-around).
pub open spec fn is_adjacent(c: Cell, m: Cell) -> bool {
    &&& m != c
    &&& c.0 - 1 <= m.0 <= c.0 + 1
    &&& c.1 - 1 <= m.1 <= c.1 + 1
}

/// 1 when `(x, y)` is a representable coordinate that is live in `s`, else 0.
/// The arguments range over `int` so that positions outside the coordinate
/// space (below 0 or above `usize::MAX`) simply contribute nothing.
pub open spec fn live_at(s: Set<Cell>, x: int, y: int) -> nat {
    if 0 <= x <= usize::MAX && 0 <= y <= usize::MAX && s.contains(((x as usize, y as usize))) {
        1nat
    } else {
        0nat
    }
}

/// The number of live neighbors of `c` in the population `s`:
/// the sum, over the eight surrounding positions, of their live indicators.
pub open spec fn neighbor_count(s: Set<Cell>, c: Cell) -> nat {
    live_at(s, c.0 - 1, c.1 - 1) + live_at(s, c.0 as int, c.1 - 1) + live_at(
        s,
        c.0 + 1,
        c.1 - 1,
    ) + live_at(s, c.0 - 1, c.1 as int) + live_at(s, c.0 + 1, c.1 as int) + live_at(
        s,
        c.0 - 1,
        c.1 + 1,
    ) + live_at(s, c.0 as int, c.1 + 1) + live_at(s, c.0 + 1, c.1 + 1)
}

/// The standard rule: a live cell survives with 2 or 3 live neighbors;
/// a dead cell is born with exactly 3.
pub open spec fn lives_next(s: Set<Cell>, c: Cell) -> bool {
    if s.contains(c) {
        neighbor_count(s, c) == 2 || neighbor_count(s, c) == 3
    } else {
        neighbor_count(s, c) == 3
    }
}

/// The population one generation after `s`.
pub open spec fn next_gen(s: Set<Cell>) -> Set<Cell> {
    Set::new(|c: Cell| lives_next(s, c))
}

/// Glyph for a live cell that is not under the preview overlay.
pub const ALIVE_CELL: char = '⬛';

/// Glyph for a dead cell that is not under the preview overlay.
pub const DEAD_CELL: char = '⬜';

/// Glyph for a live cell that the preview overlay also covers.
pub const ALIVE_CELL_PREVIEW: char = '🟩';

/// Glyph for a dead cell that the preview overlay covers.
pub const DEAD_CELL_PREVIEW: char = '🟦';

/// The glyph rendered for one coordinate, from its live and preview
/// membership.
pub open spec fn glyph(live: bool, previewed: bool) -> char {
    if live && previewed {
        ALIVE_CELL_PREVIEW
    } else if live {
        ALIVE_CELL
    } else if previewed {
        DEAD_CELL_PREVIEW
    } else {
        DEAD_CELL
    }
}

/// Relies on `String::push` of std: it appends the given character to the
/// end of the string, whose view is its sequence of characters.
pub assume_specification[ String::push ](s: &mut String, ch: char)
    ensures
        final(s)@ == old(s)@.push(ch),
;

/// A bounded Game of Life grid: the live population, a transient preview
/// overlay, and the visible dimensions. The preview never influences the
/// simulation rule.
#[derive(Debug)]
pub struct Grid {
    width: usize,
    height: usize,
    cells_list: Vec<Cell>,
    preview_list: Vec<Cell>,
}

impl Grid {
    /// The live population, as a set of cells.
    pub closed spec fn live_set(self) -> Set<Cell> {
        self.cells_list@.to_set()
    }

    /// The preview overlay, as a set of cells.
    pub closed spec fn preview_set(self) -> Set<Cell> {
        self.preview_list@.to_set()
    }

    /// Width of the visible area, at the specification level.
    pub closed spec fn spec_width(&self) -> usize {
        self.width
    }

    /// Height of the visible area, at the specification level.
    pub closed spec fn spec_height(&self) -> usize {
        self.height
    }

    /// Width of the visible area; cells with `x < width` are rendered.
    #[verifier::when_used_as_spec(spec_width)]
    pub fn width(&self) -> (w: usize)
        ensures
            w == self.spec_width(),
    {
        self.width
    }

    /// Height of the visible area; cells with `y < height` are rendered.
    #[verifier::when_used_as_spec(spec_height)]
    pub fn height(&self) -> (h: usize)
        ensures
            h == self.spec_height(),
    {
        self.height
    }

    /// Creates an empty grid of the given dimensions. Zero-area grids are
    /// valid and simply never hold any visible cells.
    pub fn new(width: usize, height: usize) -> (g: Grid)
        ensures
            g.width() == width,
            g.height() == height,
            g.live_set() == Set::<Cell>::empty(),
            g.preview_set() == Set::<Cell>::empty(),
    {
        let g = Grid { width, height, cells_list: Vec::new(), preview_list: Vec::new() };
        proof {
            assert(g.live_set() =~= Set::<Cell>::empty());
            assert(g.preview_set() =~= Set::<Cell>::empty());
        }
        g
    }

    /// Whether `cell` is part of the live population.
    pub fn is_live(&self, cell: Cell) -> (b: bool)
        ensures
            b == self.live_set().contains(cell),
    {
        let n = self.cells_list.len();
        for i in 0..n
            invariant
                n == self.cells_list.len(),
                forall|k: int| 0 <= k < i ==> self.cells_list@[k] != cell,
        {
            let c = self.cells_list[i];
            if c.0 == cell.0 && c.1 == cell.1 {
                return true;
            }
        }
        proof {
            assert(!self.cells_list@.contains(cell));
        }
        false
    }

    /// Whether `cell` is part of the preview overlay.
    pub fn is_previewed(&self, cell: Cell) -> (b: bool)
        ensures
            b == self.preview_set().contains(cell),
    {
        let n = self.preview_list.len();
        for i in 0..n
            invariant
                n == self.preview_list.len(),
                forall|k: int| 0 <= k < i ==> self.preview_list@[k] != cell,
        {
            let c = self.preview_list[i];
            if c.0 == cell.0 && c.1 == cell.1 {
                return true;
            }
        }
        proof {
            assert(!self.preview_list@.contains(cell));
        }
        false
    }

    /// Inserts one cell into the live population. Inserting an already-live
    /// cell leaves the whole grid untouched; a genuine insertion discards the
    /// pending preview, since placing cells commits over it.
    pub fn add_cell(&mut self, cell: Cell)
        ensures
            final(self).width() == old(self).width(),
            final(self).height() == old(self).height(),
            final(self).live_set() == old(self).live_set().insert(cell),
            old(self).live_set().contains(cell) ==> *final(self) == *old(self),
            !old(self).live_set().contains(cell) ==> final(self).preview_set() == Set::<
                Cell,
            >::empty(),
    {
        if self.is_live(cell) {
            proof {
                assert(old(self).live_set() =~= old(self).live_set().insert(cell));
            }
            return;
        }
        self.preview_list.clear();
        self.cells_list.push(cell);
        proof {
            old(self).cells_list@.lemma_push_to_set_commute(cell);
            assert(self.live_set() =~= old(self).live_set().insert(cell));
            assert(self.preview_set() =~= Set::<Cell>::empty());
        }
    }

    /// Stamps a pattern onto the live population at `origin` and commits it:
    /// every cell of the expanded pattern is inserted, and the pending
    /// preview overlay is discarded.
    pub fn seed<S: IsSeed>(&mut self, seed: S, origin: Cell)
        ensures
            final(self).width() == old(self).width(),
            final(self).height() == old(self).height(),
            final(self).live_set() == old(self).live_set().union(
                seed.cells_spec(origin).to_set(),
            ),
            final(self).preview_set() == Set::<Cell>::empty(),
    {
        self.preview_list.clear();
        proof {
            assert(self.preview_set() =~= Set::<Cell>::empty());
            assert(self.live_set() =~= old(self).live_set().union(
                seed.cells_spec(origin).take(0).to_set(),
            ));
        }
        let cs = seed.cells(origin);
        let n = cs.len();
        for i in 0..n
            invariant
                n == cs.len(),
                cs@ == seed.cells_spec(origin),
                self.spec_width() == old(self).spec_width(),
                self.spec_height() == old(self).spec_height(),
                self.preview_set() == Set::<Cell>::empty(),
                self.live_set() == old(self).live_set().union(cs@.take(i as int).to_set()),
        {
            let cell = cs[i];
            self.add_cell(cell);
            proof {
                cs@.lemma_take_succ_push(i as int);
                cs@.take(i as int).lemma_push_to_set_commute(cell);
                assert(self.live_set() =~= old(self).live_set().union(
                    cs@.take(i as int + 1).to_set(),
                ));
            }
        }
        proof {
            assert(cs@.take(n as int) =~= cs@);
        }
    }

    /// Replaces the preview overlay with the pattern's cells at `origin`,
    /// without touching the live population.
    pub fn preview<S: IsSeed>(&mut self, preview: S, origin: Cell)
        ensures
            final(self).width() == old(self).width(),
            final(self).height() == old(self).height(),
            final(self).live_set() == old(self).live_set(),
            final(self).preview_set() == preview.cells_spec(origin).to_set(),
    {
        self.preview_list = preview.cells(origin);
    }

    /// Empties both the live population and the preview overlay, keeping the
    /// dimensions.
    pub fn clear(&mut self)
        ensures
            final(self).width() == old(self).width(),
            final(self).height() == old(self).height(),
            final(self).live_set() == Set::<Cell>::empty(),
            final(self).preview_set() == Set::<Cell>::empty(),
    {
        self.cells_list.clear();
        self.preview_list.clear();
        proof {
            assert(self.live_set() =~= Set::<Cell>::empty());
            assert(self.preview_set() =~= Set::<Cell>::empty());
        }
    }

    /// The live population, in its deterministic iteration order.
    pub fn live_cells(&self) -> (r: &Vec<Cell>)
        ensures
            r@.to_set() == self.live_set(),
    {
        &self.cells_list
    }

    /// The preview overlay cells.
    pub fn preview_cells(&self) -> (r: &Vec<Cell>)
        ensures
            r@.to_set() == self.preview_set(),
    {
        &self.preview_list
    }

    /// Counts the live neighbors of `cell`: the live cells among the up to
    /// eight surrounding coordinates that exist (the grid never wraps, and
    /// coordinates below 0 or above `usize::MAX` do not exist).
    pub fn count_neighbors(&self, cell: Cell) -> (count: usize)
        ensures
            count == neighbor_count(self.live_set(), cell),
    {
        let (x, y) = cell;
        let mut count: usize = 0;
        if x > 0 && y > 0 && self.is_live((x - 1, y - 1)) {
            count += 1;
        }
        if y > 0 && self.is_live((x, y - 1)) {
            count += 1;
        }
        if x < usize::MAX && y > 0 && self.is_live((x + 1, y - 1)) {
            count += 1;
        }
        if x > 0 && self.is_live((x - 1, y)) {
            count += 1;
        }
        if x < usize::MAX && self.is_live((x + 1, y)) {
            count += 1;
        }
        if x > 0 && y < usize::MAX && self.is_live((x - 1, y + 1)) {
            count += 1;
        }
        if y < usize::MAX && self.is_live((x, y + 1)) {
            count += 1;
        }
        if x < usize::MAX && y < usize::MAX && self.is_live((x + 1, y + 1)) {
            count += 1;
        }
        count
    }

    /// Applies the birth half of the rule to one candidate position: inserts
    /// `m` into `next` exactly when it has three live neighbors in `self`.
    fn birth_check(&self, m: Cell, next: &mut Grid)
        ensures
            final(next).width() == old(next).width(),
            final(next).height() == old(next).height(),
            old(next).preview_set() == Set::<Cell>::empty() ==> final(next).preview_set()
                == Set::<Cell>::empty(),
            forall|w: Cell|
                old(next).live_set().contains(w) ==> final(next).live_set().contains(w),
            forall|w: Cell|
                #[trigger] final(next).live_set().contains(w) ==> old(next).live_set().contains(w)
                    || (w == m && neighbor_count(self.live_set(), m) == 3),
            neighbor_count(self.live_set(), m) == 3 ==> final(next).live_set().contains(m),
    {
        if self.count_neighbors(m) == 3 {
            next.add_cell(m);
        }
    }

    /// Processes one live cell of the frozen snapshot `self`: applies the
    /// survival rule to the cell itself and the birth rule to every
    /// coordinate around it, inserting the survivors and births into `next`.
    #[verifier::rlimit(100)]
    fn tick_cell(&self, cell: Cell, next: &mut Grid)
        requires
            self.live_set().contains(cell),
        ensures
            final(next).width() == old(next).width(),
            final(next).height() == old(next).height(),
            old(next).preview_set() == Set::<Cell>::empty() ==> final(next).preview_set()
                == Set::<Cell>::empty(),
            forall|m: Cell|
                old(next).live_set().contains(m) ==> final(next).live_set().contains(m),
            forall|m: Cell|
                #[trigger] final(next).live_set().contains(m) ==> old(next).live_set().contains(m)
                    || lives_next(self.live_set(), m),
            lives_next(self.live_set(), cell) ==> final(next).live_set().contains(cell),
            forall|m: Cell|
                #[trigger] is_adjacent(cell, m) && neighbor_count(self.live_set(), m) == 3
                    ==> final(next).live_set().contains(m),
    {
        let ghost s = self.live_set();
        let count = self.count_neighbors(cell);
        if count == 2 || count == 3 {
            next.add_cell(cell);
        }
        let (x, y) = cell;
        if x > 0 && y > 0 {
            self.birth_check((x - 1, y - 1), &mut *next);
        }
        if y > 0 {
            self.birth_check((x, y - 1), &mut *next);
        }
        if x < usize::MAX && y > 0 {
            self.birth_check((x + 1, y - 1), &mut *next);
        }
        if x > 0 {
            self.birth_check((x - 1, y), &mut *next);
        }
        if x < usize::MAX {
            self.birth_check((x + 1, y), &mut *next);
        }
        if x > 0 && y < usize::MAX {
            self.birth_check((x - 1, y + 1), &mut *next);
        }
        if y < usize::MAX {
            self.birth_check((x, y + 1), &mut *next);
        }
        if x < usize::MAX && y < usize::MAX {
            self.birth_check((x + 1, y + 1), &mut *next);
        }
        proof {
            assert forall|m: Cell|
                #[trigger] is_adjacent(cell, m) && neighbor_count(s, m) == 3 implies next.live_set().contains(
                m,
            ) by {
                assert(m.0 == x - 1 || m.0 == x || m.0 == x + 1);
                assert(m.1 == y - 1 || m.1 == y || m.1 == y + 1);
            }
        }
    }

    /// Advances the population by exactly one generation of the standard
    /// rule, computed from a frozen snapshot of the current population, and
    /// discards the preview overlay.
    ///
    /// Only cells that are live, or adjacent to a live cell, can be live in
    /// the next generation, so the work is bounded by the live population
    /// rather than by the grid area.
    pub fn tick(&mut self)
        ensures
            final(self).width() == old(self).width(),
            final(self).height() == old(self).height(),
            final(self).live_set() == next_gen(old(self).live_set()),
            final(self).preview_set() == Set::<Cell>::empty(),
    {
        let ghost s = self.live_set();
        let mut next = Grid::new(self.width, self.height);
        let n = self.cells_list.len();
        for i in 0..n
            invariant
                n == self.cells_list.len(),
                s == self.live_set(),
                next.spec_width() == self.spec_width(),
                next.spec_height() == self.spec_height(),
                next.preview_set() == Set::<Cell>::empty(),
                forall|m: Cell| #[trigger] next.live_set().contains(m) ==> lives_next(s, m),
                forall|k: int|
                    0 <= k < i && lives_next(s, #[trigger] self.cells_list@[k])
                        ==> next.live_set().contains(self.cells_list@[k]),
                forall|k: int, m: Cell|
                    0 <= k < i && #[trigger] is_adjacent(self.cells_list@[k], m)
                        && neighbor_count(s, m) == 3 ==> next.live_set().contains(m),
        {
            let cell = self.cells_list[i];
            proof {
                assert(self.cells_list@.contains(cell));
                assert(s.contains(cell));
            }
            self.tick_cell(cell, &mut next);
        }
        proof {
            assert forall|m: Cell| lives_next(s, m) implies next.live_set().contains(m) by {
                if s.contains(m) {
                    assert(self.cells_list@.contains(m));
                    let k = choose|k: int|
                        0 <= k < self.cells_list@.len() && self.cells_list@[k] == m;
                    assert(lives_next(s, self.cells_list@[k]));
                } else {
                    lemma_count_pos_has_adjacent(s, m);
                    let l = choose|l: Cell|
                        s.contains(l) && is_adjacent(l, m) && is_adjacent(m, l);
                    assert(self.cells_list@.contains(l));
                    let k = choose|k: int|
                        0 <= k < self.cells_list@.len() && self.cells_list@[k] == l;
                    assert(is_adjacent(self.cells_list@[k], m));
                }
            }
            assert(next.live_set() =~= next_gen(s));
        }
        *self = next;
    }

    /// Rebuilds the grid at the given dimensions, preserving exactly the
    /// live cells that are in bounds for them and silently dropping the
    /// rest; the preview overlay is discarded. Resizing to the current
    /// dimensions leaves the grid untouched.
    pub fn resize(&mut self, width: usize, height: usize)
        ensures
            final(self).width() == width,
            final(self).height() == height,
            old(self).width() == width && old(self).height() == height ==> *final(self) == *old(
                self,
            ),
            old(self).width() != width || old(self).height() != height ==> {
                &&& final(self).live_set() == old(self).live_set().filter(
                    (|c: Cell| c.0 < width && c.1 < height),
                )
                &&& final(self).preview_set() == Set::<Cell>::empty()
            },
    {
        if width == self.width && height == self.height {
            return;
        }
        let mut kept: Vec<Cell> = Vec::new();
        let n = self.cells_list.len();
        for i in 0..n
            invariant
                n == self.cells_list.len(),
                forall|m: Cell|
                    #[trigger] kept@.contains(m) ==> self.cells_list@.contains(m) && m.0 < width
                        && m.1 < height,
                forall|k: int|
                    0 <= k < i && (#[trigger] self.cells_list@[k]).0 < width
                        && self.cells_list@[k].1 < height ==> kept@.contains(self.cells_list@[k]),
        {
            let cell = self.cells_list[i];
            proof {
                assert(self.cells_list@.contains(cell));
            }
            if cell.0 < width && cell.1 < height {
                let ghost prev = kept@;
                kept.push(cell);
                proof {
                    broadcast use vstd::seq_lib::lemma_seq_contains_after_push;

                    assert(kept@ == prev.push(cell));
                }
            }
        }
        self.width = width;
        self.height = height;
        self.cells_list = kept;
        self.preview_list = Vec::new();
        proof {
            assert forall|m: Cell|
                old(self).live_set().filter((|c: Cell| c.0 < width && c.1 < height)).contains(
                    m,
                ) implies self.live_set().contains(m) by {
                let k = choose|k: int|
                    0 <= k < old(self).cells_list@.len() && old(self).cells_list@[k] == m;
                assert(old(self).cells_list@[k].0 < width && old(self).cells_list@[k].1 < height);
            }
            assert(self.live_set() =~= old(self).live_set().filter(
                (|c: Cell| c.0 < width && c.1 < height),
            ));
            assert(self.preview_set() =~= Set::<Cell>::empty());
        }
    }

    /// The glyph at coordinate `(x, y)`, from live and preview membership.
    pub open spec fn spec_glyph_at(self, x: int, y: int) -> char {
        glyph(
            self.live_set().contains(((x as usize, y as usize))),
            self.preview_set().contains(((x as usize, y as usize))),
        )
    }

    /// The first `n` glyphs of row `y` of the rendering.
    pub open spec fn spec_row(self, y: int, n: int) -> Seq<char>
        decreases n,
    {
        if n <= 0 {
            Seq::empty()
        } else {
            self.spec_row(y, n - 1).push(self.spec_glyph_at(n - 1, y))
        }
    }

    /// The first `n` rows of the rendering, each of `width` glyphs followed
    /// by a newline.
    pub open spec fn spec_rows(self, n: int) -> Seq<char>
        decreases n,
    {
        if n <= 0 {
            Seq::empty()
        } else {
            self.spec_rows(n - 1) + self.spec_row(n - 1, self.spec_width() as int).push('\n')
        }
    }

    /// The full row-major rendering of the grid, one glyph per coordinate,
    /// rows separated by newlines.
    pub open spec fn spec_render(self) -> Seq<char> {
        self.spec_rows(self.spec_height() as int)
    }

    /// Renders the visible area row by row: one glyph per coordinate, chosen
    /// from live and preview membership, each row ended by a newline. The
    /// projection reads the grid and changes nothing.
    pub fn render(&self) -> (r: String)
        ensures
            r@ == self.spec_render(),
    {
        let mut out = String::new();
        let w = self.width;
        let h = self.height;
        for y in 0..h
            invariant
                w == self.spec_width(),
                h == self.spec_height(),
                out@ == self.spec_rows(y as int),
        {
            for x in 0..w
                invariant
                    w == self.spec_width(),
                    h == self.spec_height(),
                    y < h,
                    out@ == self.spec_rows(y as int) + self.spec_row(y as int, x as int),
            {
                let live = self.is_live((x, y));
                let previewed = self.is_previewed((x, y));
                let g = if live && previewed {
                    ALIVE_CELL_PREVIEW
                } else if live {
                    ALIVE_CELL
                } else if previewed {
                    DEAD_CELL_PREVIEW
                } else {
                    DEAD_CELL
                };
                out.push(g);
                proof {
                    assert(g == self.spec_glyph_at(x as int, y as int));
                    assert(out@ =~= self.spec_rows(y as int) + self.spec_row(
                        y as int,
                        x as int + 1,
                    ));
                }
            }
            out.push('\n');
            proof {
                assert(out@ =~= self.spec_rows(y as int + 1));
            }
        }
        out
    }
}

impl Default for Grid {
    /// An empty zero-by-zero grid.
    fn default() -> (g: Grid)
        ensures
            g.width() == 0,
            g.height() == 0,
            g.live_set() == Set::<Cell>::empty(),
            g.preview_set() == Set::<Cell>::empty(),
    {
        Grid::new(0, 0)
    }
}

/// After seeding, a cell is live exactly when it was live before or the
/// expanded pattern contains it; on an empty grid, exactly when the pattern
/// contains it.
pub proof fn lemma_seed_membership(live0: Set<Cell>, pattern: Seq<Cell>, c: Cell)
    ensures
        live0.union(pattern.to_set()).contains(c) <==> live0.contains(c) || pattern.contains(c),
{
}

/// Seeding twice with the same pattern and origin yields the same live set
/// as seeding once.
pub proof fn lemma_seed_idempotent(live0: Set<Cell>, pattern: Set<Cell>)
    ensures
        live0.union(pattern).union(pattern) == live0.union(pattern),
{
    assert(live0.union(pattern).union(pattern) =~= live0.union(pattern));
}

/// The rule, cell by cell: a live cell survives one generation exactly when
/// it has 2 or 3 live neighbors, and a dead cell becomes live exactly when
/// it has 3.
pub proof fn lemma_rule_correctness(s: Set<Cell>, c: Cell)
    ensures
        s.contains(c) ==> (next_gen(s).contains(c) <==> (neighbor_count(s, c) == 2
            || neighbor_count(s, c) == 3)),
        !s.contains(c) ==> (next_gen(s).contains(c) <==> neighbor_count(s, c) == 3),
{
}

/// Underpopulation: a live cell with fewer than two live neighbors dies.
pub proof fn lemma_underpopulation(s: Set<Cell>, c: Cell)
    requires
        s.contains(c),
        neighbor_count(s, c) < 2,
    ensures
        !next_gen(s).contains(c),
{
}

/// Survival: a live cell with exactly two or three live neighbors lives on.
pub proof fn lemma_survival(s: Set<Cell>, c: Cell)
    requires
        s.contains(c),
        neighbor_count(s, c) == 2 || neighbor_count(s, c) == 3,
    ensures
        next_gen(s).contains(c),
{
}

/// Overpopulation: a live cell with four or more live neighbors dies.
pub proof fn lemma_overpopulation(s: Set<Cell>, c: Cell)
    requires
        s.contains(c),
        neighbor_count(s, c) >= 4,
    ensures
        !next_gen(s).contains(c),
{
}

/// Reproduction: a dead cell with exactly three live neighbors becomes live.
pub proof fn lemma_reproduction(s: Set<Cell>, c: Cell)
    requires
        !s.contains(c),
        neighbor_count(s, c) == 3,
    ensures
        next_gen(s).contains(c),
{
}

/// A lone live cell has no neighbors, so one generation later the grid is
/// empty: the cell starves and nothing is born.
pub proof fn lemma_lone_cell_dies(c: Cell)
    ensures
        next_gen(set![c]) == Set::<Cell>::empty(),
{
    assert forall|m: Cell| !lives_next(set![c], m) by {
        if m == c {
            assert(neighbor_count(set![c], m) == 0);
        } else {
            assert(neighbor_count(set![c], m) <= 1);
        }
    }
    assert(next_gen(set![c]) =~= Set::<Cell>::empty());
}

/// After a genuine resize, a cell is live exactly when it was live before
/// and lies strictly within the new bounds; every cell at or past a new
/// bound is dropped.
pub proof fn lemma_resize_membership(live0: Set<Cell>, width: usize, height: usize, c: Cell)
    ensures
        live0.filter((|c: Cell| c.0 < width && c.1 < height)).contains(c) <==> (live0.contains(c)
            && c.0 < width && c.1 < height),
{
}

/// The preview overlay never affects the outcome of a tick: the next
/// generation is a function of the live population alone, so two grids with
/// the same live cells tick to the same population whatever their previews.
pub proof fn lemma_preview_never_affects_tick(a: Grid, b: Grid)
    requires
        a.live_set() == b.live_set(),
    ensures
        next_gen(a.live_set()) == next_gen(b.live_set()),
{
}

proof fn lemma_row_dead(g: Grid, y: int, n: int)
    requires
        g.live_set() == Set::<Cell>::empty(),
        g.preview_set() == Set::<Cell>::empty(),
    ensures
        g.spec_row(y, n).len() == if n <= 0 {
            0int
        } else {
            n
        },
        forall|i: int| 0 <= i < g.spec_row(y, n).len() ==> g.spec_row(y, n)[i] == DEAD_CELL,
    decreases n,
{
    if n > 0 {
        lemma_row_dead(g, y, n - 1);
        let prev = g.spec_row(y, n - 1);
        let row = g.spec_row(y, n);
        assert(g.spec_glyph_at(n - 1, y) == DEAD_CELL);
        assert forall|i: int| 0 <= i < row.len() implies row[i] == DEAD_CELL by {
            if i < n - 1 {
                assert(row[i] == prev[i]);
            }
        }
    }
}

proof fn lemma_rows_dead(g: Grid, n: int)
    requires
        g.live_set() == Set::<Cell>::empty(),
        g.preview_set() == Set::<Cell>::empty(),
    ensures
        forall|i: int|
            0 <= i < g.spec_rows(n).len() ==> (g.spec_rows(n)[i] == DEAD_CELL || g.spec_rows(n)[i]
                == '\n'),
    decreases n,
{
    if n > 0 {
        lemma_rows_dead(g, n - 1);
        lemma_row_dead(g, n - 1, g.spec_width() as int);
        let prev = g.spec_rows(n - 1);
        let row = g.spec_row(n - 1, g.spec_width() as int);
        let all = g.spec_rows(n);
        assert(all == prev + row.push('\n'));
        assert forall|i: int|
            0 <= i < all.len() implies (all[i] == DEAD_CELL || all[i] == '\n') by {
            if i < prev.len() {
                assert(all[i] == prev[i]);
            } else if i < prev.len() + row.len() {
                assert(all[i] == row.push('\n')[i - prev.len()]);
                assert(row.push('\n')[i - prev.len()] == row[i - prev.len()]);
            } else {
                assert(all[i] == row.push('\n')[i - prev.len()]);
            }
        }
    }
}

/// A cleared grid renders as all-dead glyphs: every character of its
/// rendering is the dead glyph or a row-ending newline.
pub proof fn lemma_cleared_grid_renders_dead(g: Grid)
    requires
        g.live_set() == Set::<Cell>::empty(),
        g.preview_set() == Set::<Cell>::empty(),
    ensures
        forall|i: int|
            0 <= i < g.spec_render().len() ==> (g.spec_render()[i] == DEAD_CELL
                || g.spec_render()[i] == '\n'),
{
    lemma_rows_dead(g, g.spec_height() as int);
}

/// A cell with at least one live neighbor is itself adjacent to some live
/// cell: adjacency is symmetric.
proof fn lemma_count_pos_has_adjacent(s: Set<Cell>, m: Cell)
    requires
        neighbor_count(s, m) > 0,
    ensures
        exists|l: Cell| s.contains(l) && is_adjacent(l, m) && is_adjacent(m, l),
{
    let x = m.0;
    let y = m.1;
    if live_at(s, x - 1, y - 1) == 1 {
        let l = (((x - 1) as usize), ((y - 1) as usize));
        assert(s.contains(l) && is_adjacent(l, m) && is_adjacent(m, l));
    } else if live_at(s, x as int, y - 1) == 1 {
        let l = (x, ((y - 1) as usize));
        assert(s.contains(l) && is_adjacent(l, m) && is_adjacent(m, l));
    } else if live_at(s, x + 1, y - 1) == 1 {
        let l = (((x + 1) as usize), ((y - 1) as usize));
        assert(s.contains(l) && is_adjacent(l, m) && is_adjacent(m, l));
    } else if live_at(s, x - 1, y as int) == 1 {
        let l = (((x - 1) as usize), y);
        assert(s.contains(l) && is_adjacent(l, m) && is_adjacent(m, l));
    } else if live_at(s, x + 1, y as int) == 1 {
        let l = (((x + 1) as usize), y);
        assert(s.contains(l) && is_adjacent(l, m) && is_adjacent(m, l));
    } else if live_at(s, x - 1, y + 1) == 1 {
        let l = (((x - 1) as usize), ((y + 1) as usize));
        assert(s.contains(l) && is_adjacent(l, m) && is_adjacent(m, l));
    } else if live_at(s, x as int, y + 1) == 1 {
        let l = (x, ((y + 1) as usize));
        assert(s.contains(l) && is_adjacent(l, m) && is_adjacent(m, l));
    } else {
        let l = (((x + 1) as usize), ((y + 1) as usize));
        assert(live_at(s, x + 1, y + 1) == 1);
        assert(s.contains(l) && is_adjacent(l, m) && is_adjacent(m, l));
    }
}

} // verus!
