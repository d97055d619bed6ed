use vstd::prelude::*;

use crate::window::Drawable;

verus! {

/// Side length of the square cell grid.
pub const GRID_SIZE: usize = 64;

/// Base number of frames between two state updates at speed 1.
pub const BASE_PERIOD_FRAMES: usize = 60;

/// Whether the cell at (`i`, `j`) of grid `g` is live; positions outside
/// the grid are never live, so border cells see no phantom neighbours.
pub open spec fn live(g: Seq<Seq<u8>>, i: int, j: int) -> bool {
    0 <= i < GRID_SIZE && 0 <= j < GRID_SIZE && g[i][j] > 0
}

/// One if (`i`, `j`) is live, zero otherwise.
pub open spec fn live_ind(g: Seq<Seq<u8>>, i: int, j: int) -> int {
    if live(g, i, j) {
        1
    } else {
        0
    }
}

/// The Moore-neighbourhood count of (`i`, `j`): the number of live cells
/// among the eight surrounding positions, off-grid positions counting zero.
pub open spec fn neighbor_count(g: Seq<Seq<u8>>, i: int, j: int) -> int {
    live_ind(g, i - 1, j - 1) + live_ind(g, i - 1, j) + live_ind(g, i - 1, j + 1) + live_ind(
        g,
        i,
        j - 1,
    ) + live_ind(g, i, j + 1) + live_ind(g, i + 1, j - 1) + live_ind(g, i + 1, j) + live_ind(
        g,
        i + 1,
        j + 1,
    )
}

/// The update rule: a live cell survives with two or three live
/// neighbours; a dead cell is born with exactly three; all else is dead.
pub open spec fn next_live(g: Seq<Seq<u8>>, i: int, j: int) -> bool {
    if live(g, i, j) {
        2 <= neighbor_count(g, i, j) <= 3
    } else {
        neighbor_count(g, i, j) == 3
    }
}

/// A square grid is well formed when it has `GRID_SIZE` rows of
/// `GRID_SIZE` cells each, every cell holding zero or one.
pub open spec fn grid_wf(g: Seq<Seq<u8>>) -> bool {
    &&& g.len() == GRID_SIZE
    &&& forall|i: int| 0 <= i < g.len() ==> (#[trigger] g[i]).len() == GRID_SIZE
    &&& forall|i: int, j: int| 0 <= i < g.len() && 0 <= j < g[i].len() ==> g[i][j] <= 1
}

/// The rows of a well-formed grid seen through the row vectors that hold
/// them: lengths and cell bounds transfer to the vector level.
proof fn lemma_cells_facts(g: Gol)
    requires
        grid_wf(g.grid()),
    ensures
        g.cells_view().len() == GRID_SIZE,
        forall|x: int| 0 <= x < GRID_SIZE ==> (#[trigger] g.cells_view()[x])@.len() == GRID_SIZE,
        forall|x: int, y: int|
            0 <= x < GRID_SIZE && 0 <= y < GRID_SIZE ==> #[trigger] g.cells_view()[x]@[y] <= 1
                && g.grid()[x][y] == g.cells_view()[x]@[y],
{
    assert(g.grid().len() == g.cells_view().len());
    assert forall|x: int| 0 <= x < GRID_SIZE implies (#[trigger] g.cells_view()[x])@.len()
        == GRID_SIZE by {
        assert(g.grid()[x] == g.cells_view()[x]@);
    }
    assert forall|x: int, y: int|
        0 <= x < GRID_SIZE && 0 <= y < GRID_SIZE implies #[trigger] g.cells_view()[x]@[y] <= 1
        && g.grid()[x][y] == g.cells_view()[x]@[y] by {
        assert(g.grid()[x] == g.cells_view()[x]@);
    }
}

/// A discrete cellular automaton over a fixed square grid: the reference
/// scene logic plugged into a window. Its state advances once every
/// `period_frames` draw calls — the speed multiplier times the base frame
/// count; between updates each draw call only counts frames.
pub struct Gol {
    speed: u32,
    cells: Vec<Vec<u8>>,
    frame_counter: usize,
    period_frames: usize,
}

impl Gol {
    /// The grid as a sequence of rows.
    pub closed spec fn grid(self) -> Seq<Seq<u8>> {
        self.cells@.map_values(|r: Vec<u8>| r@)
    }

    /// The row vectors backing the grid.
    closed spec fn cells_view(self) -> Seq<Vec<u8>> {
        self.cells@
    }

    /// The configured speed multiplier.
    pub closed spec fn spec_speed(self) -> u32 {
        self.speed
    }

    /// Frames counted since the last state update.
    pub closed spec fn spec_frame_counter(self) -> usize {
        self.frame_counter
    }

    /// Frames between two state updates.
    pub closed spec fn spec_period_frames(self) -> usize {
        self.period_frames
    }

    #[verifier::type_invariant]
    spec fn inv(self) -> bool {
        &&& grid_wf(self.grid())
        &&& self.speed >= 1
        &&& self.frame_counter < self.period_frames
        &&& self.period_frames == BASE_PERIOD_FRAMES * (self.speed as int)
    }

    /// Creates the automaton: speed 1, every cell dead, the frame counter
    /// at zero.
    pub fn new() -> (g: Gol)
        ensures
            g.spec_speed() == 1,
            g.spec_frame_counter() == 0,
            g.spec_period_frames() == BASE_PERIOD_FRAMES,
            forall|i: int, j: int| !live(g.grid(), i, j),
    {
        let mut cells: Vec<Vec<u8>> = Vec::new();
        let mut i: usize = 0;
        while i < GRID_SIZE
            invariant
                i <= GRID_SIZE,
                cells@.len() == i,
                forall|ii: int| 0 <= ii < i ==> (#[trigger] cells@[ii])@.len() == GRID_SIZE,
                forall|ii: int, jj: int|
                    0 <= ii < i && 0 <= jj < GRID_SIZE ==> cells@[ii]@[jj] == 0,
            decreases GRID_SIZE - i,
        {
            let mut row: Vec<u8> = Vec::new();
            let mut j: usize = 0;
            while j < GRID_SIZE
                invariant
                    j <= GRID_SIZE,
                    row@.len() == j,
                    forall|jj: int| 0 <= jj < j ==> row@[jj] == 0,
                decreases GRID_SIZE - j,
            {
                row.push(0u8);
                j += 1;
            }
            cells.push(row);
            i += 1;
        }
        let g = Gol { speed: 1, cells, frame_counter: 0, period_frames: BASE_PERIOD_FRAMES };
        proof {
            assert(grid_wf(g.grid()));
        }
        g
    }

    /// Whether the cell at (`i`, `j`) is live.
    pub fn cell(&self, i: usize, j: usize) -> (b: bool)
        requires
            i < GRID_SIZE,
            j < GRID_SIZE,
        ensures
            b == live(self.grid(), i as int, j as int),
    {
        proof {
            use_type_invariant(self);
            lemma_cells_facts(*self);
        }
        self.cells[i][j] > 0
    }

    /// Sets the cell at (`i`, `j`) live or dead, leaving every other cell,
    /// the counters and the speed unchanged.
    pub fn set_cell(&mut self, i: usize, j: usize, alive: bool)
        requires
            i < GRID_SIZE,
            j < GRID_SIZE,
        ensures
            live(final(self).grid(), i as int, j as int) == alive,
            forall|ii: int, jj: int|
                0 <= ii < GRID_SIZE && 0 <= jj < GRID_SIZE && !(ii == i as int && jj == j as int)
                    ==> live(final(self).grid(), ii, jj) == live(old(self).grid(), ii, jj),
            final(self).spec_speed() == old(self).spec_speed(),
            final(self).spec_frame_counter() == old(self).spec_frame_counter(),
            final(self).spec_period_frames() == old(self).spec_period_frames(),
    {
        proof {
            use_type_invariant(&*self);
            lemma_cells_facts(*self);
        }
        let value: u8 = if alive {
            1
        } else {
            0
        };
        let mut next: Vec<Vec<u8>> = Vec::new();
        let mut ii: usize = 0;
        while ii < GRID_SIZE
            invariant
                grid_wf(self.grid()),
                self.cells_view().len() == GRID_SIZE,
                forall|x: int|
                    0 <= x < GRID_SIZE ==> (#[trigger] self.cells_view()[x])@.len() == GRID_SIZE,
                forall|x: int, y: int|
                    0 <= x < GRID_SIZE && 0 <= y < GRID_SIZE
                        ==> #[trigger] self.cells_view()[x]@[y] <= 1 && self.grid()[x][y]
                        == self.cells_view()[x]@[y],
                i < GRID_SIZE,
                j < GRID_SIZE,
                value <= 1,
                (value > 0) == alive,
                ii <= GRID_SIZE,
                next@.len() == ii,
                forall|a: int| 0 <= a < ii ==> (#[trigger] next@[a])@.len() == GRID_SIZE,
                forall|a: int, b: int|
                    0 <= a < ii && 0 <= b < GRID_SIZE ==> next@[a]@[b] <= 1,
                forall|a: int, b: int|
                    0 <= a < ii && 0 <= b < GRID_SIZE && !(a == i as int && b == j as int)
                        ==> next@[a]@[b] == self.grid()[a][b],
                forall|a: int, b: int|
                    0 <= a < ii && 0 <= b < GRID_SIZE && a == i as int && b == j as int
                        ==> next@[a]@[b] == value,
            decreases GRID_SIZE - ii,
        {
            let mut row: Vec<u8> = Vec::new();
            let mut jj: usize = 0;
            while jj < GRID_SIZE
                invariant
                    grid_wf(self.grid()),
                    self.cells_view().len() == GRID_SIZE,
                    forall|x: int|
                        0 <= x < GRID_SIZE ==> (#[trigger] self.cells_view()[x])@.len() == GRID_SIZE,
                    forall|x: int, y: int|
                        0 <= x < GRID_SIZE && 0 <= y < GRID_SIZE
                            ==> #[trigger] self.cells_view()[x]@[y] <= 1 && self.grid()[x][y]
                            == self.cells_view()[x]@[y],
                    i < GRID_SIZE,
                    j < GRID_SIZE,
                    ii < GRID_SIZE,
                    value <= 1,
                    jj <= GRID_SIZE,
                    row@.len() == jj,
                    forall|b: int| 0 <= b < jj ==> row@[b] <= 1,
                    forall|b: int|
                        0 <= b < jj && !(ii == i && b == j as int) ==> row@[b]
                            == self.grid()[ii as int][b],
                    forall|b: int|
                        0 <= b < jj && ii == i && b == j as int ==> row@[b] == value,
                decreases GRID_SIZE - jj,
            {
                if ii == i && jj == j {
                    row.push(value);
                } else {
                    row.push(self.cells[ii][jj]);
                }
                jj += 1;
            }
            next.push(row);
            ii += 1;
        }
        self.cells = next;
        proof {
            assert forall|a: int, b: int|
                0 <= a < GRID_SIZE && 0 <= b < GRID_SIZE implies self.grid()[a][b]
                == self.cells_view()[a]@[b] by {
                assert(self.grid()[a] == self.cells_view()[a]@);
            }
        }
    }

    /// The Moore-neighbourhood count of (`i`, `j`) in the current grid.
    fn count_neighbors(&self, i: usize, j: usize) -> (n: u32)
        requires
            i < GRID_SIZE,
            j < GRID_SIZE,
        ensures
            n as int == neighbor_count(self.grid(), i as int, j as int),
    {
        proof {
            use_type_invariant(self);
            lemma_cells_facts(*self);
        }
        let mut count: u32 = 0;
        if i > 0 {
            if j > 0 {
                count += self.cells[i - 1][j - 1] as u32;
            }
            count += self.cells[i - 1][j] as u32;
            if j < GRID_SIZE - 1 {
                count += self.cells[i - 1][j + 1] as u32;
            }
        }
        if i < GRID_SIZE - 1 {
            if j > 0 {
                count += self.cells[i + 1][j - 1] as u32;
            }
            count += self.cells[i + 1][j] as u32;
            if j < GRID_SIZE - 1 {
                count += self.cells[i + 1][j + 1] as u32;
            }
        }
        if j > 0 {
            count += self.cells[i][j - 1] as u32;
        }
        if j < GRID_SIZE - 1 {
            count += self.cells[i][j + 1] as u32;
        }
        count
    }

    /// Advances the whole grid one generation: every cell's new state is
    /// the update rule applied to the old grid, all cells switching
    /// together.
    pub fn update_cells(&mut self)
        ensures
            forall|i: int, j: int|
                0 <= i < GRID_SIZE && 0 <= j < GRID_SIZE ==> live(final(self).grid(), i, j)
                    == next_live(old(self).grid(), i, j),
            final(self).spec_speed() == old(self).spec_speed(),
            final(self).spec_frame_counter() == old(self).spec_frame_counter(),
            final(self).spec_period_frames() == old(self).spec_period_frames(),
    {
        proof {
            use_type_invariant(&*self);
            lemma_cells_facts(*self);
        }
        let mut next: Vec<Vec<u8>> = Vec::new();
        let mut i: usize = 0;
        while i < GRID_SIZE
            invariant
                grid_wf(self.grid()),
                self.cells_view().len() == GRID_SIZE,
                forall|x: int|
                    0 <= x < GRID_SIZE ==> (#[trigger] self.cells_view()[x])@.len() == GRID_SIZE,
                forall|x: int, y: int|
                    0 <= x < GRID_SIZE && 0 <= y < GRID_SIZE
                        ==> #[trigger] self.cells_view()[x]@[y] <= 1 && self.grid()[x][y]
                        == self.cells_view()[x]@[y],
                i <= GRID_SIZE,
                next@.len() == i,
                forall|a: int| 0 <= a < i ==> (#[trigger] next@[a])@.len() == GRID_SIZE,
                forall|a: int, b: int| 0 <= a < i && 0 <= b < GRID_SIZE ==> next@[a]@[b] <= 1,
                forall|a: int, b: int|
                    0 <= a < i && 0 <= b < GRID_SIZE ==> ((next@[a]@[b] > 0) == next_live(
                        self.grid(),
                        a,
                        b,
                    )),
            decreases GRID_SIZE - i,
        {
            let mut row: Vec<u8> = Vec::new();
            let mut j: usize = 0;
            while j < GRID_SIZE
                invariant
                    grid_wf(self.grid()),
                    self.cells_view().len() == GRID_SIZE,
                    forall|x: int|
                        0 <= x < GRID_SIZE ==> (#[trigger] self.cells_view()[x])@.len() == GRID_SIZE,
                    forall|x: int, y: int|
                        0 <= x < GRID_SIZE && 0 <= y < GRID_SIZE
                            ==> #[trigger] self.cells_view()[x]@[y] <= 1 && self.grid()[x][y]
                            == self.cells_view()[x]@[y],
                    i < GRID_SIZE,
                    j <= GRID_SIZE,
                    row@.len() == j,
                    forall|b: int| 0 <= b < j ==> row@[b] <= 1,
                    forall|b: int|
                        0 <= b < j ==> ((row@[b] > 0) == next_live(self.grid(), i as int, b)),
                decreases GRID_SIZE - j,
            {
                let n = self.count_neighbors(i, j);
                let was_live = self.cells[i][j] > 0;
                let new_value: u8 = if was_live {
                    if n < 2 || n > 3 {
                        0
                    } else {
                        1
                    }
                } else {
                    if n == 3 {
                        1
                    } else {
                        0
                    }
                };
                row.push(new_value);
                j += 1;
            }
            next.push(row);
            i += 1;
        }
        self.cells = next;
        proof {
            assert forall|a: int, b: int|
                0 <= a < GRID_SIZE && 0 <= b < GRID_SIZE implies self.grid()[a][b]
                == self.cells_view()[a]@[b] by {
                assert(self.grid()[a] == self.cells_view()[a]@);
            }
        }
    }

    /// Frames counted since the last state update.
    pub fn current_frame_counter(&self) -> (c: usize)
        ensures
            c == self.spec_frame_counter(),
    {
        self.frame_counter
    }

    /// Frames between two state updates.
    pub fn current_period_frames(&self) -> (p: usize)
        ensures
            p == self.spec_period_frames(),
    {
        self.period_frames
    }

    /// One draw call's worth of bookkeeping: counts the frame; the call
    /// that completes the update period advances the grid one generation
    /// and restarts the count, so the state updates once every
    /// `period_frames` draw calls.
    pub fn tick(&mut self)
        ensures
            old(self).spec_frame_counter() + 1 != old(self).spec_period_frames() ==> {
                &&& final(self).grid() == old(self).grid()
                &&& final(self).spec_frame_counter() == old(self).spec_frame_counter() + 1
            },
            old(self).spec_frame_counter() + 1 == old(self).spec_period_frames() ==> {
                &&& final(self).spec_frame_counter() == 0
                &&& forall|i: int, j: int|
                    0 <= i < GRID_SIZE && 0 <= j < GRID_SIZE ==> live(final(self).grid(), i, j)
                        == next_live(old(self).grid(), i, j)
            },
            final(self).spec_speed() == old(self).spec_speed(),
            final(self).spec_period_frames() == old(self).spec_period_frames(),
    {
        proof {
            use_type_invariant(&*self);
        }
        if self.frame_counter + 1 == self.period_frames {
            self.update_cells();
            proof {
                use_type_invariant(&*self);
            }
            self.frame_counter = 0;
        } else {
            self.frame_counter = self.frame_counter + 1;
        }
    }
}

impl Drawable for Gol {
    fn draw(&mut self, timestamp_nanos: u64) {
        let _ = timestamp_nanos;
        self.tick();
    }
}

/// Law: a live cell in the grid corner has at most three neighbour
/// positions — the count at (0, 0) ranges over exactly the three in-grid
/// positions, never over a nonexistent row or column.
pub proof fn lemma_corner_neighbor_count(g: Seq<Seq<u8>>)
    ensures
        neighbor_count(g, 0, 0) == live_ind(g, 0, 1) + live_ind(g, 1, 0) + live_ind(g, 1, 1),
{
}

} // verus!
