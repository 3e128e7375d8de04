//! The viewport: a rectangular window over the world grid, adjusted by
//! discrete pan and zoom steps and clamped so that it never extends past
//! the grid.

use vstd::prelude::*;
use vstd::arithmetic::div_mod::lemma_div_by_self;
use vstd::arithmetic::div_mod::lemma_div_is_ordered;
use vstd::arithmetic::div_mod::lemma_div_is_ordered_by_denominator;
use vstd::arithmetic::div_mod::lemma_mod_add_multiples_vanish;
use vstd::arithmetic::div_mod::lemma_mod_self_0;
use vstd::arithmetic::div_mod::lemma_small_mod;
use vstd::arithmetic::div_mod::lemma_sub_mod_noop;

verus! {

pub struct Viewport {
    /// Window size in pixels (fixed for the viewport's lifetime).
    pub win_px_x: usize,
    pub win_px_y: usize,
    /// World grid size in cells (fixed).
    pub grid_w: usize,
    pub grid_h: usize,
    /// Zoom limits and step (fixed).
    pub min_zoom: usize,
    pub max_zoom: usize,
    pub zoom_step: usize,
    /// Current zoom level: the pixel size of one cell.
    pub cell_size: usize,
    /// Window size in cells: `win_px / cell_size`, kept recomputed.
    pub win_x: usize,
    pub win_y: usize,
    /// Top-left visible cell.
    pub loc_x: usize,
    pub loc_y: usize,
}

impl Viewport {
    pub open spec fn wf(self) -> bool {
        &&& 1 <= self.min_zoom <= self.cell_size <= self.max_zoom
        &&& 1 <= self.zoom_step
        &&& (self.cell_size - self.min_zoom) % (self.zoom_step as int) == 0
        &&& (self.max_zoom - self.min_zoom) % (self.zoom_step as int) == 0
        &&& self.win_x == self.win_px_x / self.cell_size
        &&& self.win_y == self.win_px_y / self.cell_size
        &&& self.max_zoom <= self.win_px_x
        &&& self.max_zoom <= self.win_px_y
        &&& self.win_px_x / self.min_zoom <= self.grid_w
        &&& self.win_px_y / self.min_zoom <= self.grid_h
        &&& self.loc_x < self.grid_w
        &&& self.loc_y < self.grid_h
    }

    /// The window does not extend past the grid's right or bottom edge.
    pub open spec fn clamped(self) -> bool {
        &&& self.loc_x + self.win_x <= self.grid_w
        &&& self.loc_y + self.win_y <= self.grid_h
    }

    /// The origin forced back inside the grid on each axis whose window
    /// would extend past the edge.
    pub open spec fn clamp_spec(self) -> Viewport {
        Viewport {
            loc_x: if self.loc_x + self.win_x > self.grid_w { (self.grid_w - self.win_x) as usize } else { self.loc_x },
            loc_y: if self.loc_y + self.win_y > self.grid_h { (self.grid_h - self.win_y) as usize } else { self.loc_y },
            ..self
        }
    }

    /// How one zoom-in step relates a viewport to its successor: the cell
    /// pixel size shrinks by one step unless already at the minimum, the
    /// window extent in cells is recomputed, and nothing else moves.
    pub open spec fn zoomed_in(pre: Viewport, post: Viewport) -> bool {
        &&& post.cell_size as int == if pre.cell_size == pre.min_zoom {
            pre.cell_size as int
        } else {
            pre.cell_size - pre.zoom_step
        }
        &&& post.win_x == post.win_px_x as int / post.cell_size as int
        &&& post.win_y == post.win_px_y as int / post.cell_size as int
        &&& post == (Viewport { cell_size: post.cell_size, win_x: post.win_x, win_y: post.win_y, ..pre })
    }

    /// How one zoom-out step relates a viewport to its successor.
    pub open spec fn zoomed_out(pre: Viewport, post: Viewport) -> bool {
        &&& post.cell_size as int == if pre.cell_size == pre.max_zoom {
            pre.cell_size as int
        } else {
            pre.cell_size + pre.zoom_step
        }
        &&& post.win_x == post.win_px_x as int / post.cell_size as int
        &&& post.win_y == post.win_px_y as int / post.cell_size as int
        &&& post == (Viewport { cell_size: post.cell_size, win_x: post.win_x, win_y: post.win_y, ..pre })
    }

    /// At any legal zoom the window is at least one cell and at most the
    /// whole grid on each axis.
    pub proof fn lemma_window_fits(self)
        requires
            self.wf(),
        ensures
            1 <= self.win_x <= self.grid_w,
            1 <= self.win_y <= self.grid_h,
    {
        lemma_div_by_self(self.cell_size as int);
        lemma_div_is_ordered(self.cell_size as int, self.win_px_x as int, self.cell_size as int);
        lemma_div_is_ordered(self.cell_size as int, self.win_px_y as int, self.cell_size as int);
        lemma_div_is_ordered_by_denominator(
            self.win_px_x as int,
            self.min_zoom as int,
            self.cell_size as int,
        );
        lemma_div_is_ordered_by_denominator(
            self.win_px_y as int,
            self.min_zoom as int,
            self.cell_size as int,
        );
    }

    /// Clamping is idempotent: it lands in a clamped state, and clamping a
    /// clamped viewport changes nothing.
    pub proof fn lemma_clamp_idempotent(self)
        requires
            self.wf(),
        ensures
            self.clamp_spec().clamped(),
            self.clamp_spec().clamp_spec() == self.clamp_spec(),
            self.clamped() ==> self.clamp_spec() == self,
    {
        self.lemma_window_fits();
    }

    pub fn new(
        win_px_x: usize,
        win_px_y: usize,
        grid_w: usize,
        grid_h: usize,
        min_zoom: usize,
        max_zoom: usize,
        zoom_step: usize,
        cell_size: usize,
    ) -> (v: Viewport)
        requires
            1 <= min_zoom <= cell_size <= max_zoom,
            1 <= zoom_step,
            (cell_size - min_zoom) % (zoom_step as int) == 0,
            (max_zoom - min_zoom) % (zoom_step as int) == 0,
            max_zoom <= win_px_x,
            max_zoom <= win_px_y,
            win_px_x / min_zoom <= grid_w,
            win_px_y / min_zoom <= grid_h,
        ensures
            v.wf(),
            v == (Viewport {
                win_px_x,
                win_px_y,
                grid_w,
                grid_h,
                min_zoom,
                max_zoom,
                zoom_step,
                cell_size,
                win_x: (win_px_x / cell_size) as usize,
                win_y: (win_px_y / cell_size) as usize,
                loc_x: 0,
                loc_y: 0,
            }),
    {
        proof {
            // The grid holds the window at the widest zoom, so it is nonempty.
            lemma_div_by_self(min_zoom as int);
            lemma_div_is_ordered(min_zoom as int, win_px_x as int, min_zoom as int);
            lemma_div_is_ordered(min_zoom as int, win_px_y as int, min_zoom as int);
        }
        Viewport {
            win_px_x,
            win_px_y,
            grid_w,
            grid_h,
            min_zoom,
            max_zoom,
            zoom_step,
            cell_size,
            win_x: win_px_x / cell_size,
            win_y: win_px_y / cell_size,
            loc_x: 0,
            loc_y: 0,
        }
    }

    /// One zoom step in (cells get larger): a no-op at the minimum level.
    /// The zoom level never leaves `[min_zoom, max_zoom]`.
    pub fn zoom_in(&mut self)
        requires
            old(self).wf(),
        ensures
            final(self).wf(),
            final(self).cell_size as int == if old(self).cell_size == old(self).min_zoom {
                old(self).cell_size as int
            } else {
                old(self).cell_size - old(self).zoom_step
            },
            old(self).min_zoom <= final(self).cell_size <= old(self).max_zoom,
            Viewport::zoomed_in(*old(self), *final(self)),
    {
        if self.cell_size != self.min_zoom {
            proof {
                // The gap down to the minimum is a positive multiple of the
                // step, hence at least one step.
                let s = self.zoom_step as int;
                let gap = self.cell_size - self.min_zoom;
                lemma_small_mod(0nat, self.zoom_step as nat);
                if gap < s {
                    lemma_small_mod(gap as nat, self.zoom_step as nat);
                }
                lemma_mod_self_0(s);
                lemma_sub_mod_noop(gap, s, s);
            }
            self.cell_size -= self.zoom_step;
            self.win_x = self.win_px_x / self.cell_size;
            self.win_y = self.win_px_y / self.cell_size;
        }
    }

    /// One zoom step out (cells get smaller): a no-op at the maximum level.
    /// The zoom level never leaves `[min_zoom, max_zoom]`.
    pub fn zoom_out(&mut self)
        requires
            old(self).wf(),
        ensures
            final(self).wf(),
            final(self).cell_size as int == if old(self).cell_size == old(self).max_zoom {
                old(self).cell_size as int
            } else {
                old(self).cell_size + old(self).zoom_step
            },
            old(self).min_zoom <= final(self).cell_size <= old(self).max_zoom,
            Viewport::zoomed_out(*old(self), *final(self)),
    {
        if self.cell_size != self.max_zoom {
            proof {
                // The gap up to the maximum is a positive multiple of the
                // step, hence at least one step.
                let s = self.zoom_step as int;
                let gap_max = self.max_zoom - self.min_zoom;
                let gap_cur = self.cell_size - self.min_zoom;
                lemma_small_mod(0nat, self.zoom_step as nat);
                lemma_sub_mod_noop(gap_max, gap_cur, s);
                let gap = gap_max - gap_cur;
                if gap < s {
                    lemma_small_mod(gap as nat, self.zoom_step as nat);
                }
                lemma_mod_add_multiples_vanish(gap_cur, s);
            }
            self.cell_size += self.zoom_step;
            self.win_x = self.win_px_x / self.cell_size;
            self.win_y = self.win_px_y / self.cell_size;
        }
    }

    /// Pan one cell up: a no-op at the top edge.
    pub fn pan_up(&mut self)
        requires
            old(self).wf(),
        ensures
            final(self).wf(),
            *final(self) == (Viewport {
                loc_y: if old(self).loc_y == 0 { 0usize } else { (old(self).loc_y - 1) as usize },
                ..*old(self)
            }),
    {
        if self.loc_y != 0 {
            self.loc_y -= 1;
        }
    }

    /// Pan one cell down: a no-op when the window already touches the
    /// bottom edge, checked against the vertical window extent.
    pub fn pan_down(&mut self)
        requires
            old(self).wf(),
        ensures
            final(self).wf(),
            *final(self) == (Viewport {
                loc_y: if old(self).loc_y + old(self).win_y < old(self).grid_h {
                    (old(self).loc_y + 1) as usize
                } else {
                    old(self).loc_y
                },
                ..*old(self)
            }),
    {
        proof {
            self.lemma_window_fits();
        }
        if self.loc_y < self.grid_h - self.win_y {
            self.loc_y += 1;
        }
    }

    /// Pan one cell left: a no-op at the left edge.
    pub fn pan_left(&mut self)
        requires
            old(self).wf(),
        ensures
            final(self).wf(),
            *final(self) == (Viewport {
                loc_x: if old(self).loc_x == 0 { 0usize } else { (old(self).loc_x - 1) as usize },
                ..*old(self)
            }),
    {
        if self.loc_x != 0 {
            self.loc_x -= 1;
        }
    }

    /// Pan one cell right: a no-op when the window already touches the
    /// right edge, checked against the horizontal window extent.
    pub fn pan_right(&mut self)
        requires
            old(self).wf(),
        ensures
            final(self).wf(),
            *final(self) == (Viewport {
                loc_x: if old(self).loc_x + old(self).win_x < old(self).grid_w {
                    (old(self).loc_x + 1) as usize
                } else {
                    old(self).loc_x
                },
                ..*old(self)
            }),
    {
        proof {
            self.lemma_window_fits();
        }
        if self.loc_x < self.grid_w - self.win_x {
            self.loc_x += 1;
        }
    }

    /// Forces the origin back so the window lies inside the grid; applied
    /// before every render.
    pub fn clamp_to_grid(&mut self)
        requires
            old(self).wf(),
        ensures
            final(self).wf(),
            *final(self) == old(self).clamp_spec(),
            final(self).clamped(),
    {
        proof {
            self.lemma_window_fits();
        }
        if self.loc_x > self.grid_w - self.win_x {
            self.loc_x = self.grid_w - self.win_x;
        }
        if self.loc_y > self.grid_h - self.win_y {
            self.loc_y = self.grid_h - self.win_y;
        }
    }

    /// Translates a window-local pixel position to the world cell under it:
    /// the local cell plus the origin. The result can name the cell just
    /// past the grid's edge when the window pixel size is not a multiple of
    /// the zoom level, so callers must bounds-check it.
    pub fn pixel_to_cell(&self, px: usize, py: usize) -> (cell: (usize, usize))
        requires
            self.wf(),
            self.clamped(),
            px < self.win_px_x,
            py < self.win_px_y,
        ensures
            cell.0 == self.loc_x + px as int / self.cell_size as int,
            cell.1 == self.loc_y + py as int / self.cell_size as int,
            cell.0 <= self.grid_w,
            cell.1 <= self.grid_h,
    {
        proof {
            lemma_div_is_ordered(px as int, self.win_px_x as int, self.cell_size as int);
            lemma_div_is_ordered(py as int, self.win_px_y as int, self.cell_size as int);
        }
        (self.loc_x + px / self.cell_size, self.loc_y + py / self.cell_size)
    }
}

} // verus!
