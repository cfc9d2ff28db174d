//! The cell grid and the generation engine.
//!
//! The grid is a fixed-size rectangle of boolean cells. One generation step
//! applies the standard Game-of-Life rules with hard boundaries: cells
//! outside the rectangle do not exist and are never counted. The damage
//! scan runs over the two outermost columns of the grid *before* the step:
//! a side is damaged once the scan has met `DAMAGE_THRESHOLD` live cells in
//! its column. A dead cell does not reset that tally, so the threshold is
//! over all live cells met so far in the top-to-bottom pass, not over a
//! contiguous run.

use vstd::prelude::*;

use crate::config::DAMAGE_THRESHOLD;
use crate::domain::Position;

verus! {

/// 1 if (x, y) is a live cell of `g`, 0 otherwise (out-of-range
/// coordinates count 0: the boundary is hard).
pub open spec fn occ(g: Seq<Seq<bool>>, x: int, y: int) -> int {
    if 0 <= y < g.len() && 0 <= x < g[y].len() && g[y][x] {
        1
    } else {
        0
    }
}

/// Number of live cells among the up-to-8 neighbours of (x, y).
pub open spec fn live_neighbors(g: Seq<Seq<bool>>, x: int, y: int) -> int {
    occ(g, x - 1, y - 1) + occ(g, x, y - 1) + occ(g, x + 1, y - 1)
        + occ(g, x - 1, y) + occ(g, x + 1, y)
        + occ(g, x - 1, y + 1) + occ(g, x, y + 1) + occ(g, x + 1, y + 1)
}

/// The Game-of-Life transition rule for one cell: a live cell survives
/// with two or three live neighbours; a dead cell is born with exactly
/// three; every other cell is dead in the next generation.
pub open spec fn next_cell(alive: bool, neighbors: int) -> bool {
    if alive {
        neighbors == 2 || neighbors == 3
    } else {
        neighbors == 3
    }
}

/// The whole next generation, computed cell by cell from `g`.
pub open spec fn next_gen(g: Seq<Seq<bool>>) -> Seq<Seq<bool>> {
    Seq::new(
        g.len(),
        |y: int| Seq::new(g[y].len(), |x: int| next_cell(g[y][x], live_neighbors(g, x, y))),
    )
}

/// Every cell of `g` is dead.
pub open spec fn all_dead(g: Seq<Seq<bool>>) -> bool {
    forall|y: int, x: int|
        0 <= y < g.len() && 0 <= x < g[y].len() ==> !(#[trigger] g[y][x])
}

/// Number of live cells in column `x` among the first `n` rows of `g`.
pub open spec fn column_live_count(g: Seq<Seq<bool>>, x: int, n: int) -> int
    decreases n,
{
    if n <= 0 {
        0
    } else {
        column_live_count(g, x, n - 1) + occ(g, x, n - 1)
    }
}

/// The damage signal for the side defending column `x`: the column holds
/// at least `DAMAGE_THRESHOLD` live cells.
pub open spec fn damage_at_column(g: Seq<Seq<bool>>, x: int) -> bool {
    column_live_count(g, x, g.len() as int) >= DAMAGE_THRESHOLD
}

/// Some coordinate in `coords` names the cell (x, y).
pub open spec fn covers(coords: Seq<Position>, x: int, y: int) -> bool {
    exists|i: int|
        0 <= i < coords.len() && (#[trigger] coords[i]).spec_x() == x && coords[i].spec_y() == y
}

/// The grid after committing `coords`: every named cell is alive, every
/// other cell keeps its state.
pub open spec fn committed(g: Seq<Seq<bool>>, coords: Seq<Position>) -> Seq<Seq<bool>> {
    Seq::new(g.len(), |y: int| Seq::new(g[y].len(), |x: int| g[y][x] || covers(coords, x, y)))
}

/// The fixed-size board of cells. Dimensions are set at construction and
/// never change.
#[derive(Debug)]
pub struct Grid {
    width: usize,
    height: usize,
    cells: Vec<Vec<bool>>,
}

impl View for Grid {
    type V = Seq<Seq<bool>>;

    closed spec fn view(&self) -> Seq<Seq<bool>> {
        self.cells@.map(|_i: int, row: Vec<bool>| row@)
    }
}

impl Grid {
    /// Number of columns.
    pub closed spec fn spec_width(&self) -> usize {
        self.width
    }

    /// Number of rows.
    pub closed spec fn spec_height(&self) -> usize {
        self.height
    }

    /// The grid is a non-empty rectangle: every row has the full width.
    pub open spec fn wf(&self) -> bool {
        &&& 1 <= self.spec_width()
        &&& 1 <= self.spec_height()
        &&& self@.len() == self.spec_height()
        &&& forall|y: int| 0 <= y < self@.len() ==> (#[trigger] self@[y]).len() == self.spec_width()
    }

    /// A fresh all-dead grid of the given dimensions.
    pub fn new(width: usize, height: usize) -> (r: Grid)
        requires
            1 <= width,
            1 <= height,
        ensures
            r.wf(),
            r.spec_width() == width,
            r.spec_height() == height,
            all_dead(r@),
    {
        let mut cells: Vec<Vec<bool>> = Vec::new();
        let mut y: usize = 0;
        while y < height
            invariant
                y <= height,
                cells@.len() == y,
                forall|yy: int| 0 <= yy < y ==> (#[trigger] cells@[yy])@.len() == width,
                forall|yy: int, xx: int|
                    0 <= yy < y && 0 <= xx < width ==> !(#[trigger] cells@[yy]@[xx]),
            decreases height - y,
        {
            let mut row: Vec<bool> = Vec::new();
            let mut x: usize = 0;
            while x < width
                invariant
                    x <= width,
                    row@.len() == x,
                    forall|xx: int| 0 <= xx < x ==> !(#[trigger] row@[xx]),
                decreases width - x,
            {
                row.push(false);
                x += 1;
            }
            cells.push(row);
            y += 1;
        }
        Grid { width, height, cells }
    }

    /// Number of columns.
    pub fn width(&self) -> (r: usize)
        ensures
            r == self.spec_width(),
    {
        self.width
    }

    /// Number of rows.
    pub fn height(&self) -> (r: usize)
        ensures
            r == self.spec_height(),
    {
        self.height
    }

    /// The state of the cell at column `x`, row `y`.
    pub fn get(&self, x: usize, y: usize) -> (r: bool)
        requires
            self.wf(),
            x < self.spec_width(),
            y < self.spec_height(),
        ensures
            r == self@[y as int][x as int],
    {
        proof {
            assert(self.cells@.len() == self@.len());
            assert(self@[y as int] == self.cells@[y as int]@);
        }
        let row = &self.cells[y];
        row[x]
    }

    /// Sets the cell at column `x`, row `y` alive.
    pub fn set_alive(&mut self, x: usize, y: usize)
        requires
            old(self).wf(),
            x < old(self).spec_width(),
            y < old(self).spec_height(),
        ensures
            final(self).wf(),
            final(self).spec_width() == old(self).spec_width(),
            final(self).spec_height() == old(self).spec_height(),
            final(self)@ == old(self)@.update(y as int, old(self)@[y as int].update(x as int, true)),
    {
        proof {
            assert(self.cells@.len() == self@.len());
            assert(self@[y as int] == self.cells@[y as int]@);
        }
        self.cells[y][x] = true;
        proof {
            assert(self@ =~~= old(self)@.update(
                y as int,
                old(self)@[y as int].update(x as int, true),
            ));
        }
    }

    /// Sets every cell named by `coords` alive; all other cells keep their
    /// state. A coordinate may occur more than once: the cell simply ends
    /// alive. Out-of-range coordinates are a caller error, ruled out here.
    pub fn commit(&mut self, coords: &Vec<Position>)
        requires
            old(self).wf(),
            forall|i: int|
                0 <= i < coords@.len() ==> (#[trigger] coords@[i]).spec_x()
                    < old(self).spec_width() && coords@[i].spec_y() < old(self).spec_height(),
        ensures
            final(self).wf(),
            final(self).spec_width() == old(self).spec_width(),
            final(self).spec_height() == old(self).spec_height(),
            final(self)@ == committed(old(self)@, coords@),
    {
        let n = coords.len();
        let mut i: usize = 0;
        while i < n
            invariant
                old(self).wf(),
                self.wf(),
                self.spec_width() == old(self).spec_width(),
                self.spec_height() == old(self).spec_height(),
                n == coords@.len(),
                i <= n,
                forall|j: int|
                    0 <= j < coords@.len() ==> (#[trigger] coords@[j]).spec_x()
                        < old(self).spec_width() && coords@[j].spec_y() < old(self).spec_height(),
                forall|y: int, x: int|
                    0 <= y < old(self)@.len() && 0 <= x < old(self)@[y].len()
                        ==> #[trigger] self@[y][x] == (old(self)@[y][x] || covers(
                        coords@.take(i as int),
                        x,
                        y,
                    )),
            decreases n - i,
        {
            let p = coords[i];
            let ghost prev = self@;
            proof {
                assert(coords@[i as int].spec_x() < old(self).spec_width());
            }
            self.set_alive(p.x(), p.y());
            proof {
                let px = p.spec_x() as int;
                let py = p.spec_y() as int;
                assert(self@ == prev.update(py, prev[py].update(px, true)));
                assert forall|y: int, x: int|
                    0 <= y < old(self)@.len() && 0 <= x < old(self)@[y].len()
                        implies #[trigger] self@[y][x] == (old(self)@[y][x] || covers(
                        coords@.take(i + 1),
                        x,
                        y,
                    )) by {
                    assert(prev[y][x] == (old(self)@[y][x] || covers(
                        coords@.take(i as int),
                        x,
                        y,
                    )));
                    lemma_covers_take_step(coords@, i as int, x, y);
                    if y == py {
                        assert(self@[y] == prev[py].update(px, true));
                        if x != px {
                            assert(self@[y][x] == prev[y][x]);
                        }
                    } else {
                        assert(self@[y] == prev[y]);
                    }
                }
            }
            i += 1;
        }
        proof {
            assert(coords@.take(n as int) =~= coords@);
            assert(self@ =~~= committed(old(self)@, coords@));
        }
    }
}

/// Extending the committed prefix by one coordinate covers exactly the
/// cells covered before plus the cell that coordinate names.
proof fn lemma_covers_take_step(coords: Seq<Position>, i: int, x: int, y: int)
    requires
        0 <= i < coords.len(),
    ensures
        covers(coords.take(i + 1), x, y) <==> (covers(coords.take(i), x, y) || (coords[i].spec_x()
            == x && coords[i].spec_y() == y)),
{
    let t0 = coords.take(i);
    let t1 = coords.take(i + 1);
    if covers(t1, x, y) {
        let j = choose|j: int|
            0 <= j < t1.len() && (#[trigger] t1[j]).spec_x() == x && t1[j].spec_y() == y;
        if j < i {
            assert(t0[j] == coords[j]);
            assert(covers(t0, x, y));
        } else {
            assert(t1[j] == coords[i]);
        }
    }
    if covers(t0, x, y) {
        let j = choose|j: int|
            0 <= j < t0.len() && (#[trigger] t0[j]).spec_x() == x && t0[j].spec_y() == y;
        assert(t1[j] == coords[j]);
        assert(covers(t1, x, y));
    }
    if coords[i].spec_x() == x && coords[i].spec_y() == y {
        assert(t1[i] == coords[i]);
        assert(covers(t1, x, y));
    }
}

/// Number of live cells among the up-to-8 neighbours of (x, y) in `board`,
/// with hard boundaries: offsets falling outside the grid are skipped.
pub fn count_alive_neighbours(x: usize, y: usize, board: &Grid) -> (count: usize)
    requires
        board.wf(),
        x < board.spec_width(),
        y < board.spec_height(),
    ensures
        count == live_neighbors(board@, x as int, y as int),
{
    let w = board.width();
    let h = board.height();
    let g = Ghost(board@);
    let mut count: usize = 0;
    if y > 0 {
        if x > 0 && board.get(x - 1, y - 1) {
            count += 1;
        }
        if board.get(x, y - 1) {
            count += 1;
        }
        if x + 1 < w && board.get(x + 1, y - 1) {
            count += 1;
        }
    }
    assert(count == occ(g@, x as int - 1, y as int - 1) + occ(g@, x as int, y as int - 1) + occ(
        g@,
        x as int + 1,
        y as int - 1,
    ));
    if x > 0 && board.get(x - 1, y) {
        count += 1;
    }
    if x + 1 < w && board.get(x + 1, y) {
        count += 1;
    }
    assert(count == occ(g@, x as int - 1, y as int - 1) + occ(g@, x as int, y as int - 1) + occ(
        g@,
        x as int + 1,
        y as int - 1,
    ) + occ(g@, x as int - 1, y as int) + occ(g@, x as int + 1, y as int));
    if y + 1 < h {
        if x > 0 && board.get(x - 1, y + 1) {
            count += 1;
        }
        if board.get(x, y + 1) {
            count += 1;
        }
        if x + 1 < w && board.get(x + 1, y + 1) {
            count += 1;
        }
    }
    count
}

/// Computes the next generation into a fresh grid (the input grid is read
/// only, so every neighbour count comes from the current generation), and
/// reports the damage the *current* grid inflicts on each side: the left
/// column for the first player, the right column for the second.
pub fn calculate_next_generation(board: &Grid) -> (r: (Grid, (bool, bool)))
    requires
        board.wf(),
    ensures
        r.0.wf(),
        r.0.spec_width() == board.spec_width(),
        r.0.spec_height() == board.spec_height(),
        r.0@ == next_gen(board@),
        r.1.0 == damage_at_column(board@, 0),
        r.1.1 == damage_at_column(board@, board.spec_width() - 1),
{
    let w = board.width();
    let h = board.height();
    let mut rows: Vec<Vec<bool>> = Vec::new();
    let mut y: usize = 0;
    while y < h
        invariant
            board.wf(),
            w == board.spec_width(),
            h == board.spec_height(),
            y <= h,
            rows@.len() == y,
            forall|yy: int| 0 <= yy < y ==> (#[trigger] rows@[yy])@.len() == w,
            forall|yy: int, xx: int|
                0 <= yy < y && 0 <= xx < w ==> #[trigger] rows@[yy]@[xx] == next_cell(
                    board@[yy][xx],
                    live_neighbors(board@, xx, yy),
                ),
        decreases h - y,
    {
        let mut row: Vec<bool> = Vec::new();
        let mut x: usize = 0;
        while x < w
            invariant
                board.wf(),
                w == board.spec_width(),
                h == board.spec_height(),
                y < h,
                x <= w,
                row@.len() == x,
                forall|xx: int|
                    0 <= xx < x ==> #[trigger] row@[xx] == next_cell(
                        board@[y as int][xx],
                        live_neighbors(board@, xx, y as int),
                    ),
            decreases w - x,
        {
            let alive_neighbours = count_alive_neighbours(x, y, board);
            let alive = board.get(x, y);
            let next = if alive {
                alive_neighbours == 2 || alive_neighbours == 3
            } else {
                alive_neighbours == 3
            };
            row.push(next);
            x += 1;
        }
        rows.push(row);
        y += 1;
    }
    let damage = check_for_damage(board);
    let next_grid = Grid { width: w, height: h, cells: rows };
    proof {
        assert(next_grid@ =~~= next_gen(board@));
    }
    (next_grid, damage)
}

/// Scans the rows top to bottom and reports, for each side, whether its
/// outer column (left for the first player, right for the second) holds at
/// least `DAMAGE_THRESHOLD` live cells. The tally of a side stops once it
/// reaches the threshold, and the scan stops early once both sides have;
/// neither cut-off changes the outcome.
pub fn check_for_damage(board: &Grid) -> (r: (bool, bool))
    requires
        board.wf(),
    ensures
        r.0 == damage_at_column(board@, 0),
        r.1 == damage_at_column(board@, board.spec_width() - 1),
{
    let w = board.width();
    let h = board.height();
    let ghost g = board@;
    let ghost right: int = w as int - 1;
    let mut player1_damage = false;
    let mut player2_damage = false;
    let mut consecutive_alive_count_1: usize = 0;
    let mut consecutive_alive_count_2: usize = 0;
    let mut y: usize = 0;
    while y < h
        invariant
            board.wf(),
            w == board.spec_width(),
            h == board.spec_height(),
            g == board@,
            right == w as int - 1,
            y <= h,
            !player1_damage ==> consecutive_alive_count_1 == column_live_count(g, 0, y as int)
                && consecutive_alive_count_1 < DAMAGE_THRESHOLD,
            player1_damage ==> column_live_count(g, 0, y as int) >= DAMAGE_THRESHOLD,
            !player2_damage ==> consecutive_alive_count_2 == column_live_count(g, right, y as int)
                && consecutive_alive_count_2 < DAMAGE_THRESHOLD,
            player2_damage ==> column_live_count(g, right, y as int) >= DAMAGE_THRESHOLD,
        decreases h - y,
    {
        proof {
            assert(column_live_count(g, 0, y + 1) == column_live_count(g, 0, y as int) + occ(
                g,
                0,
                y as int,
            ));
            assert(column_live_count(g, right, y + 1) == column_live_count(g, right, y as int)
                + occ(g, right, y as int));
        }
        if !player1_damage {
            if board.get(0, y) {
                consecutive_alive_count_1 += 1;
                if consecutive_alive_count_1 == DAMAGE_THRESHOLD {
                    player1_damage = true;
                }
            }
        }
        if !player2_damage {
            if board.get(w - 1, y) {
                consecutive_alive_count_2 += 1;
                if consecutive_alive_count_2 == DAMAGE_THRESHOLD {
                    player2_damage = true;
                }
            }
        }
        if player1_damage && player2_damage {
            proof {
                lemma_column_live_count_monotone(g, 0, y + 1, h as int);
                lemma_column_live_count_monotone(g, right, y + 1, h as int);
            }
            return (true, true);
        }
        y += 1;
    }
    (player1_damage, player2_damage)
}

/// The live-cell tally of a column never shrinks as the scan covers more
/// rows.
pub proof fn lemma_column_live_count_monotone(g: Seq<Seq<bool>>, x: int, n1: int, n2: int)
    requires
        0 <= n1 <= n2,
    ensures
        column_live_count(g, x, n1) <= column_live_count(g, x, n2),
    decreases n2 - n1,
{
    if n1 < n2 {
        lemma_column_live_count_monotone(g, x, n1, n2 - 1);
        assert(column_live_count(g, x, n2) == column_live_count(g, x, n2 - 1) + occ(g, x, n2 - 1));
    }
}

/// No spontaneous life: one generation step on an all-dead grid yields an
/// all-dead grid.
pub proof fn lemma_no_spontaneous_life(g: Seq<Seq<bool>>)
    requires
        all_dead(g),
    ensures
        all_dead(next_gen(g)),
{
    let ng = next_gen(g);
    assert forall|y: int, x: int|
        0 <= y < ng.len() && 0 <= x < ng[y].len() implies !(#[trigger] ng[y][x]) by {
        assert(occ(g, x - 1, y - 1) == 0);
        assert(occ(g, x, y - 1) == 0);
        assert(occ(g, x + 1, y - 1) == 0);
        assert(occ(g, x - 1, y) == 0);
        assert(occ(g, x + 1, y) == 0);
        assert(occ(g, x - 1, y + 1) == 0);
        assert(occ(g, x, y + 1) == 0);
        assert(occ(g, x + 1, y + 1) == 0);
        assert(live_neighbors(g, x, y) == 0);
        assert(!g[y][x]);
    }
}

/// Committing a coordinate set is idempotent: committing it a second time
/// leaves the grid exactly as after the first commit, however often a
/// coordinate repeats within the set.
pub proof fn lemma_commit_idempotent(g: Seq<Seq<bool>>, coords: Seq<Position>)
    ensures
        committed(committed(g, coords), coords) == committed(g, coords),
{
    assert(committed(committed(g, coords), coords) =~~= committed(g, coords));
}

/// Every committed coordinate ends alive, regardless of how often it
/// occurs in the set.
pub proof fn lemma_commit_sets_cells(g: Seq<Seq<bool>>, coords: Seq<Position>, i: int)
    requires
        0 <= i < coords.len(),
        coords[i].spec_y() < g.len(),
        coords[i].spec_x() < g[coords[i].spec_y() as int].len(),
    ensures
        committed(g, coords)[coords[i].spec_y() as int][coords[i].spec_x() as int],
{
    let x = coords[i].spec_x() as int;
    let y = coords[i].spec_y() as int;
    assert(covers(coords, x, y));
}

} // verus!
