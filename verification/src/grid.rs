//! The toroidal grid: a fixed-size 2D boolean field whose neighbor lookups
//! wrap around both edges, and the one-generation transition over it.

use vstd::prelude::*;
use vstd::arithmetic::div_mod::lemma_small_mod;
use vstd::arithmetic::div_mod::lemma_mod_self_0;

verus! {

/// The next state of a cell under the classic rule: a live cell survives
/// with 2 or 3 live neighbors, a dead cell is born with exactly 3.
pub open spec fn next_state(alive: bool, neighbors: int) -> bool {
    if alive {
        neighbors == 2 || neighbors == 3
    } else {
        neighbors == 3
    }
}

/// Wraparound successor of an index on an axis of length `m`.
pub open spec fn wrap_inc(i: int, m: int) -> int {
    if i + 1 == m { 0 } else { i + 1 }
}

/// Wraparound predecessor of an index on an axis of length `m`.
pub open spec fn wrap_dec(i: int, m: int) -> int {
    if i == 0 { m - 1 } else { i - 1 }
}

pub open spec fn b2i(b: bool) -> int {
    if b { 1 } else { 0 }
}

/// A grid viewed as a sequence of rows: nonempty, rectangular.
pub open spec fn view_wf(gv: Seq<Seq<bool>>) -> bool {
    &&& gv.len() >= 1
    &&& gv[0].len() >= 1
    &&& forall|r: int| 0 <= r < gv.len() ==> (#[trigger] gv[r]).len() == gv[0].len()
}

/// Number of live cells among the 8 toroidal neighbors of `(r, c)`.
pub open spec fn nbr_count(gv: Seq<Seq<bool>>, r: int, c: int) -> int {
    let h = gv.len() as int;
    let w = gv[0].len() as int;
    let ru = wrap_dec(r, h);
    let rd = wrap_inc(r, h);
    let cl = wrap_dec(c, w);
    let cr = wrap_inc(c, w);
    b2i(gv[ru][cl]) + b2i(gv[ru][c]) + b2i(gv[ru][cr])
        + b2i(gv[r][cl]) + b2i(gv[r][cr])
        + b2i(gv[rd][cl]) + b2i(gv[rd][c]) + b2i(gv[rd][cr])
}

/// The whole grid advanced one generation: every cell's next state is a
/// function of the current grid alone.
pub open spec fn step_spec(gv: Seq<Seq<bool>>) -> Seq<Seq<bool>> {
    Seq::new(gv.len(), |r: int| Seq::new(gv[0].len(), |c: int| next_state(gv[r][c], nbr_count(gv, r, c))))
}

/// Every cell of the grid is dead.
pub open spec fn all_dead(gv: Seq<Seq<bool>>) -> bool {
    forall|r: int, c: int| 0 <= r < gv.len() && 0 <= c < gv[0].len() ==> !(#[trigger] gv[r][c])
}

/// No spontaneous generation: one step of an all-dead grid is all dead.
pub proof fn lemma_step_all_dead(gv: Seq<Seq<bool>>)
    requires
        view_wf(gv),
        all_dead(gv),
    ensures
        all_dead(step_spec(gv)),
{
    let h = gv.len() as int;
    let w = gv[0].len() as int;
    assert forall|r: int, c: int|
        0 <= r < step_spec(gv).len() && 0 <= c < step_spec(gv)[0].len()
        implies !(#[trigger] step_spec(gv)[r][c]) by {
        let ru = wrap_dec(r, h);
        let rd = wrap_inc(r, h);
        let cl = wrap_dec(c, w);
        let cr = wrap_inc(c, w);
        assert(0 <= ru < h && 0 <= rd < h && 0 <= cl < w && 0 <= cr < w);
        assert(!gv[ru][cl] && !gv[ru][c] && !gv[ru][cr]);
        assert(!gv[r][cl] && !gv[r][c] && !gv[r][cr]);
        assert(!gv[rd][cl] && !gv[rd][c] && !gv[rd][cr]);
        assert(nbr_count(gv, r, c) == 0);
    }
}

/// A live cell with no live neighbors dies after one step.
pub proof fn lemma_isolated_cell_dies(gv: Seq<Seq<bool>>, r: int, c: int)
    requires
        view_wf(gv),
        0 <= r < gv.len(),
        0 <= c < gv[0].len(),
        gv[r][c],
        nbr_count(gv, r, c) == 0,
    ensures
        !step_spec(gv)[r][c],
{
}

/// Wraparound index shifted by `d` on an axis of length `m`, modulo `m`.
pub open spec fn wrap_add(i: int, d: int, m: int) -> int {
    if i + d < m { i + d } else { i + d - m }
}

/// Wraparound symmetry: when one grid is the other with every live cell
/// translated by `(dr, dc)` modulo the dimensions, every neighbor count is
/// translated the same way.
pub proof fn lemma_nbr_count_translation(
    gv1: Seq<Seq<bool>>,
    gv2: Seq<Seq<bool>>,
    dr: int,
    dc: int,
)
    requires
        view_wf(gv1),
        view_wf(gv2),
        gv2.len() == gv1.len(),
        gv2[0].len() == gv1[0].len(),
        0 <= dr < gv1.len(),
        0 <= dc < gv1[0].len(),
        forall|r: int, c: int| 0 <= r < gv1.len() && 0 <= c < gv1[0].len() ==>
            gv2[wrap_add(r, dr, gv1.len() as int)][wrap_add(c, dc, gv1[0].len() as int)]
                == #[trigger] gv1[r][c],
    ensures
        forall|r: int, c: int| 0 <= r < gv1.len() && 0 <= c < gv1[0].len() ==>
            nbr_count(gv2, wrap_add(r, dr, gv1.len() as int), wrap_add(c, dc, gv1[0].len() as int))
                == #[trigger] nbr_count(gv1, r, c),
{
    let h = gv1.len() as int;
    let w = gv1[0].len() as int;
    assert forall|r: int, c: int| 0 <= r < h && 0 <= c < w
        implies nbr_count(gv2, wrap_add(r, dr, h), wrap_add(c, dc, w))
            == #[trigger] nbr_count(gv1, r, c) by {
        let r2 = wrap_add(r, dr, h);
        let c2 = wrap_add(c, dc, w);
        let ru = wrap_dec(r, h);
        let rd = wrap_inc(r, h);
        let cl = wrap_dec(c, w);
        let cr = wrap_inc(c, w);
        assert(0 <= ru < h && 0 <= rd < h && 0 <= cl < w && 0 <= cr < w);
        assert(wrap_dec(r2, h) == wrap_add(ru, dr, h));
        assert(wrap_inc(r2, h) == wrap_add(rd, dr, h));
        assert(wrap_dec(c2, w) == wrap_add(cl, dc, w));
        assert(wrap_inc(c2, w) == wrap_add(cr, dc, w));
        assert(gv2[wrap_add(ru, dr, h)][wrap_add(cl, dc, w)] == gv1[ru][cl]);
        assert(gv2[wrap_add(ru, dr, h)][wrap_add(c, dc, w)] == gv1[ru][c]);
        assert(gv2[wrap_add(ru, dr, h)][wrap_add(cr, dc, w)] == gv1[ru][cr]);
        assert(gv2[wrap_add(r, dr, h)][wrap_add(cl, dc, w)] == gv1[r][cl]);
        assert(gv2[wrap_add(r, dr, h)][wrap_add(cr, dc, w)] == gv1[r][cr]);
        assert(gv2[wrap_add(rd, dr, h)][wrap_add(cl, dc, w)] == gv1[rd][cl]);
        assert(gv2[wrap_add(rd, dr, h)][wrap_add(c, dc, w)] == gv1[rd][c]);
        assert(gv2[wrap_add(rd, dr, h)][wrap_add(cr, dc, w)] == gv1[rd][cr]);
    }
}

/// The 2×2 block of live cells is a still-life: on a grid at least 4 wide
/// and 4 high whose only live cells form one such block (placed so the
/// block itself does not straddle an edge), one step changes nothing.
pub proof fn lemma_block_is_still_life(gv: Seq<Seq<bool>>, r: int, c: int)
    requires
        view_wf(gv),
        gv.len() >= 4,
        gv[0].len() >= 4,
        0 <= r,
        r + 1 < gv.len(),
        0 <= c,
        c + 1 < gv[0].len(),
        forall|i: int, j: int| 0 <= i < gv.len() && 0 <= j < gv[0].len() ==>
            (#[trigger] gv[i][j] <==> (r <= i <= r + 1 && c <= j <= c + 1)),
    ensures
        step_spec(gv) == gv,
{
    let h = gv.len() as int;
    let w = gv[0].len() as int;
    assert forall|i: int, j: int| 0 <= i < h && 0 <= j < w
        implies #[trigger] step_spec(gv)[i][j] == gv[i][j] by {
        let ru = wrap_dec(i, h);
        let rd = wrap_inc(i, h);
        let cl = wrap_dec(j, w);
        let cr = wrap_inc(j, w);
        assert(0 <= ru < h && 0 <= rd < h && 0 <= cl < w && 0 <= cr < w);
        assert(gv[ru][cl] <==> (r <= ru <= r + 1 && c <= cl <= c + 1));
        assert(gv[ru][j] <==> (r <= ru <= r + 1 && c <= j <= c + 1));
        assert(gv[ru][cr] <==> (r <= ru <= r + 1 && c <= cr <= c + 1));
        assert(gv[i][cl] <==> (r <= i <= r + 1 && c <= cl <= c + 1));
        assert(gv[i][cr] <==> (r <= i <= r + 1 && c <= cr <= c + 1));
        assert(gv[rd][cl] <==> (r <= rd <= r + 1 && c <= cl <= c + 1));
        assert(gv[rd][j] <==> (r <= rd <= r + 1 && c <= j <= c + 1));
        assert(gv[rd][cr] <==> (r <= rd <= r + 1 && c <= cr <= c + 1));
    }
    assert(step_spec(gv) =~~= gv);
}

/// Relies on rand::random: a fresh sample of the standard distribution.
/// Nothing can be promised of a random value.
pub assume_specification<T>[ rand::random::<T> ]() -> (r: T)
    where
        rand::distributions::Standard: rand::distributions::Distribution<T>,
;

pub struct Grid {
    pub width: usize,
    pub height: usize,
    pub cells: Vec<Vec<bool>>,
}

impl View for Grid {
    type V = Seq<Seq<bool>>;

    open spec fn view(&self) -> Seq<Seq<bool>> {
        self.cells@.map_values(|row: Vec<bool>| row@)
    }
}

impl Grid {
    pub open spec fn wf(self) -> bool {
        &&& self@.len() == self.height
        &&& forall|r: int| 0 <= r < self.height ==> (#[trigger] self@[r]).len() == self.width
        &&& self.width >= 1
        &&& self.height >= 1
    }

    pub open spec fn cell(self, r: int, c: int) -> bool {
        self@[r][c]
    }

    /// A grid of the given dimensions with every cell dead.
    pub fn new_dead(width: usize, height: usize) -> (g: Grid)
        requires
            width >= 1,
            height >= 1,
        ensures
            g.wf(),
            g.width == width,
            g.height == height,
            all_dead(g@),
    {
        let mut cells: Vec<Vec<bool>> = Vec::new();
        let mut r: usize = 0;
        while r < height
            invariant
                r <= height,
                cells@.len() == r,
                forall|i: int| 0 <= i < r ==> (#[trigger] cells@[i])@.len() == width,
                forall|i: int, j: int| 0 <= i < r && 0 <= j < width ==> !(#[trigger] cells@[i]@[j]),
            decreases height - r,
        {
            let mut row: Vec<bool> = Vec::new();
            let mut c: usize = 0;
            while c < width
                invariant
                    c <= width,
                    row@.len() == c,
                    forall|j: int| 0 <= j < c ==> !(#[trigger] row@[j]),
                decreases width - c,
            {
                row.push(false);
                c += 1;
            }
            cells.push(row);
            r += 1;
        }
        Grid { width, height, cells }
    }

    /// A grid of the given dimensions where each cell's state is an
    /// independent uniform random boolean; only the dimensions are known
    /// of the result.
    pub fn new_random(width: usize, height: usize) -> (g: Grid)
        requires
            width >= 1,
            height >= 1,
        ensures
            g.wf(),
            g.width == width,
            g.height == height,
    {
        let mut cells: Vec<Vec<bool>> = Vec::new();
        let mut r: usize = 0;
        while r < height
            invariant
                r <= height,
                cells@.len() == r,
                forall|i: int| 0 <= i < r ==> (#[trigger] cells@[i])@.len() == width,
            decreases height - r,
        {
            let mut row: Vec<bool> = Vec::new();
            let mut c: usize = 0;
            while c < width
                invariant
                    c <= width,
                    row@.len() == c,
                decreases width - c,
            {
                row.push(rand::random::<bool>());
                c += 1;
            }
            cells.push(row);
            r += 1;
        }
        Grid { width, height, cells }
    }

    /// The toroidal successor of an in-range index on an axis of length `m`.
    pub fn wrap_inc_idx(i: usize, m: usize) -> (r: usize)
        requires
            1 <= m,
            i < m,
        ensures
            r == wrap_inc(i as int, m as int),
            r < m,
    {
        proof {
            if i + 1 < m {
                lemma_small_mod((i + 1) as nat, m as nat);
            } else {
                lemma_mod_self_0(m as int);
            }
        }
        (i + 1) % m
    }

    /// The toroidal predecessor of an in-range index on an axis of length `m`.
    pub fn wrap_dec_idx(i: usize, m: usize) -> (r: usize)
        requires
            1 <= m,
            i < m,
        ensures
            r == wrap_dec(i as int, m as int),
            r < m,
    {
        if i == 0 { m - 1 } else { i - 1 }
    }

    /// Number of live cells among the 8 toroidal neighbors of `(r, c)`:
    /// always between 0 and 8.
    pub fn neighbor_count(&self, r: usize, c: usize) -> (n: u32)
        requires
            self.wf(),
            r < self.height,
            c < self.width,
        ensures
            n == nbr_count(self@, r as int, c as int),
            n <= 8,
    {
        let ru = Self::wrap_dec_idx(r, self.height);
        let rd = Self::wrap_inc_idx(r, self.height);
        let cl = Self::wrap_dec_idx(c, self.width);
        let cr = Self::wrap_inc_idx(c, self.width);
        let mut n: u32 = 0;
        if self.get(ru, cl) { n += 1; }
        if self.get(ru, c) { n += 1; }
        if self.get(ru, cr) { n += 1; }
        if self.get(r, cl) { n += 1; }
        if self.get(r, cr) { n += 1; }
        if self.get(rd, cl) { n += 1; }
        if self.get(rd, c) { n += 1; }
        if self.get(rd, cr) { n += 1; }
        n
    }

    /// The grid advanced by one generation: a fresh grid is built from a
    /// read-only pass over the current one, so no cell update can observe
    /// a partially advanced state.
    pub fn step(&self) -> (g: Grid)
        requires
            self.wf(),
        ensures
            g.wf(),
            g.width == self.width,
            g.height == self.height,
            g@ == step_spec(self@),
    {
        let mut cells: Vec<Vec<bool>> = Vec::new();
        let mut r: usize = 0;
        while r < self.height
            invariant
                self.wf(),
                r <= self.height,
                cells@.len() == r,
                forall|i: int| 0 <= i < r ==> (#[trigger] cells@[i])@ == step_spec(self@)[i],
            decreases self.height - r,
        {
            let mut row: Vec<bool> = Vec::new();
            let mut c: usize = 0;
            while c < self.width
                invariant
                    self.wf(),
                    r < self.height,
                    c <= self.width,
                    row@.len() == c,
                    forall|j: int| 0 <= j < c ==>
                        #[trigger] row@[j] == next_state(self@[r as int][j], nbr_count(self@, r as int, j)),
                decreases self.width - c,
            {
                let alive = self.get(r, c);
                let n = self.neighbor_count(r, c);
                let next = if alive { n == 2 || n == 3 } else { n == 3 };
                row.push(next);
                c += 1;
            }
            proof {
                assert(row@ =~= step_spec(self@)[r as int]);
            }
            cells.push(row);
            r += 1;
        }
        let g = Grid { width: self.width, height: self.height, cells };
        proof {
            assert(g@ =~~= step_spec(self@));
        }
        g
    }

    /// A read-only copy of the rectangle of `h` rows and `w` columns whose
    /// top-left corner is `(y, x)`; the rectangle must lie within bounds.
    pub fn sub_grid(&self, x: usize, y: usize, w: usize, h: usize) -> (g: Grid)
        requires
            self.wf(),
            1 <= w,
            1 <= h,
            x + w <= self.width,
            y + h <= self.height,
        ensures
            g.wf(),
            g.width == w,
            g.height == h,
            forall|r: int, c: int| 0 <= r < h && 0 <= c < w ==>
                #[trigger] g@[r][c] == self@[y + r][x + c],
    {
        let mut cells: Vec<Vec<bool>> = Vec::new();
        let mut r: usize = 0;
        while r < h
            invariant
                self.wf(),
                1 <= w,
                x + w <= self.width,
                y + h <= self.height,
                r <= h,
                cells@.len() == r,
                forall|i: int| 0 <= i < r ==> (#[trigger] cells@[i])@.len() == w,
                forall|i: int, j: int| 0 <= i < r && 0 <= j < w ==>
                    #[trigger] cells@[i]@[j] == self@[y + i][x + j],
            decreases h - r,
        {
            let mut row: Vec<bool> = Vec::new();
            let mut c: usize = 0;
            while c < w
                invariant
                    self.wf(),
                    x + w <= self.width,
                    y + h <= self.height,
                    r < h,
                    c <= w,
                    row@.len() == c,
                    forall|j: int| 0 <= j < c ==> #[trigger] row@[j] == self@[y + r][x + j],
                decreases w - c,
            {
                row.push(self.get(y + r, x + c));
                c += 1;
            }
            cells.push(row);
            r += 1;
        }
        Grid { width: w, height: h, cells }
    }

    /// The live state of the cell at `(r, c)`; indices must already be in
    /// range — direct access does not wrap.
    pub fn get(&self, r: usize, c: usize) -> (b: bool)
        requires
            self.wf(),
            r < self.height,
            c < self.width,
        ensures
            b == self.cell(r as int, c as int),
    {
        proof {
            assert(self.cells@.len() == self@.len());
            assert(self.cells@[r as int]@ == self@[r as int]);
        }
        self.cells[r][c]
    }

    /// Sets the cell at `(r, c)`; indices must already be in range.
    pub fn set(&mut self, r: usize, c: usize, alive: bool)
        requires
            old(self).wf(),
            r < old(self).height,
            c < old(self).width,
        ensures
            final(self).wf(),
            final(self).width == old(self).width,
            final(self).height == old(self).height,
            final(self)@ == old(self)@.update(r as int, old(self)@[r as int].update(c as int, alive)),
    {
        proof {
            assert(self.cells@.len() == self@.len());
            assert(self.cells@[r as int]@ == self@[r as int]);
        }
        self.cells[r][c] = alive;
        assert(self@ =~~= old(self)@.update(r as int, old(self)@[r as int].update(c as int, alive)));
    }
}

} // verus!
