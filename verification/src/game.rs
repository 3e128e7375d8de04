//! The engine: owns the world grid, the viewport, the simulation clock, the
//! brush and the pending drag points, and exposes the command surface that
//! the input adapter drives and the visible sub-grid that the renderer
//! draws.

use vstd::prelude::*;
use crate::clock::SimulationClock;
use crate::clock::MAX_INTERVAL_MS;
use crate::grid::Grid;
use crate::grid::all_dead;
use crate::grid::step_spec;
use crate::game_event::GameEvent;
use crate::raster::gen_points;
use crate::raster::line_len;
use crate::raster::line_point;
use crate::viewport::Viewport;

verus! {

/// Window size in pixels, fixed at build time.
pub const WINDOW_PX_X: usize = 1400;
pub const WINDOW_PX_Y: usize = 800;
/// Pixel size of one cell at the base scale the world is sized for.
pub const BASE_CELL_PX: usize = 2;
/// World size in cells.
pub const WORLD_W: usize = WINDOW_PX_X / BASE_CELL_PX;
pub const WORLD_H: usize = WINDOW_PX_Y / BASE_CELL_PX;
/// Zoom limits and step, in pixels per cell.
pub const MIN_ZOOM: usize = 2;
pub const MAX_ZOOM: usize = 100;
pub const ZOOM_STEP: usize = 2;
pub const INIT_ZOOM: usize = 20;
/// Initial time between generations.
pub const INIT_INTERVAL_MS: u64 = 50;

/// One cell set to `v` where the coordinates lie in the grid; out-of-range
/// coordinates leave the grid unchanged.
pub open spec fn paint_cell(gv: Seq<Seq<bool>>, r: int, c: int, v: bool) -> Seq<Seq<bool>> {
    if 0 <= r < gv.len() && 0 <= c < gv[r].len() {
        gv.update(r, gv[r].update(c, v))
    } else {
        gv
    }
}

/// The cell under a window pixel painted: the pixel is scaled down to a
/// screen-local cell and offset by the viewport origin; negative pixel
/// coordinates fall outside the window and paint nothing.
pub open spec fn paint_pixel(
    gv: Seq<Seq<bool>>,
    loc_x: int,
    loc_y: int,
    cell_size: int,
    v: bool,
    p: (int, int),
) -> Seq<Seq<bool>> {
    if p.0 < 0 || p.1 < 0 {
        gv
    } else {
        paint_cell(gv, loc_y + p.1 / cell_size, loc_x + p.0 / cell_size, v)
    }
}

/// The first `n` rasterized points of the segment from `p0` to `p1`
/// painted, in order.
pub open spec fn paint_line_upto(
    gv: Seq<Seq<bool>>,
    loc_x: int,
    loc_y: int,
    cell_size: int,
    v: bool,
    p0: (i32, i32),
    p1: (i32, i32),
    n: int,
) -> Seq<Seq<bool>>
    decreases n,
{
    if n <= 0 {
        gv
    } else {
        paint_pixel(
            paint_line_upto(gv, loc_x, loc_y, cell_size, v, p0, p1, n - 1),
            loc_x,
            loc_y,
            cell_size,
            v,
            line_point(p0, p1, n - 1),
        )
    }
}

/// The whole rasterized segment from `p0` to `p1` painted.
pub open spec fn paint_line(
    gv: Seq<Seq<bool>>,
    loc_x: int,
    loc_y: int,
    cell_size: int,
    v: bool,
    p0: (i32, i32),
    p1: (i32, i32),
) -> Seq<Seq<bool>> {
    paint_line_upto(gv, loc_x, loc_y, cell_size, v, p0, p1, line_len(p0, p1))
}

/// The segments between the first `k` recorded drag points painted, in
/// recording order; fewer than two points paint nothing.
pub open spec fn paint_path(
    gv: Seq<Seq<bool>>,
    loc_x: int,
    loc_y: int,
    cell_size: int,
    v: bool,
    pts: Seq<(i32, i32)>,
    k: int,
) -> Seq<Seq<bool>>
    decreases k,
{
    if k <= 1 {
        gv
    } else {
        paint_line(
            paint_path(gv, loc_x, loc_y, cell_size, v, pts, k - 1),
            loc_x,
            loc_y,
            cell_size,
            v,
            pts[k - 2],
            pts[k - 1],
        )
    }
}

/// Painting never changes the grid's dimensions.
pub proof fn lemma_paint_line_upto_dims(
    gv: Seq<Seq<bool>>,
    loc_x: int,
    loc_y: int,
    cell_size: int,
    v: bool,
    p0: (i32, i32),
    p1: (i32, i32),
    n: int,
)
    ensures
        paint_line_upto(gv, loc_x, loc_y, cell_size, v, p0, p1, n).len() == gv.len(),
        forall|r: int| 0 <= r < gv.len() ==>
            (#[trigger] paint_line_upto(gv, loc_x, loc_y, cell_size, v, p0, p1, n)[r]).len()
                == gv[r].len(),
    decreases n,
{
    if n > 0 {
        lemma_paint_line_upto_dims(gv, loc_x, loc_y, cell_size, v, p0, p1, n - 1);
    }
}

/// Painting a whole drag path never changes the grid's dimensions.
pub proof fn lemma_paint_path_dims(
    gv: Seq<Seq<bool>>,
    loc_x: int,
    loc_y: int,
    cell_size: int,
    v: bool,
    pts: Seq<(i32, i32)>,
    k: int,
)
    ensures
        paint_path(gv, loc_x, loc_y, cell_size, v, pts, k).len() == gv.len(),
        forall|r: int| 0 <= r < gv.len() ==>
            (#[trigger] paint_path(gv, loc_x, loc_y, cell_size, v, pts, k)[r]).len()
                == gv[r].len(),
    decreases k,
{
    if k > 1 {
        lemma_paint_path_dims(gv, loc_x, loc_y, cell_size, v, pts, k - 1);
        let prev = paint_path(gv, loc_x, loc_y, cell_size, v, pts, k - 1);
        lemma_paint_line_upto_dims(
            prev,
            loc_x,
            loc_y,
            cell_size,
            v,
            pts[k - 2],
            pts[k - 1],
            line_len(pts[k - 2], pts[k - 1]),
        );
    }
}

pub struct Game {
    /// The world.
    pub cells: Grid,
    /// Read-only snapshot of the visible sub-grid, refreshed by
    /// `make_screen` once per frame.
    pub screen: Grid,
    pub view: Viewport,
    pub clock: SimulationClock,
    /// The brush: the value placed when the user paints a cell.
    pub block: bool,
    /// Cleared by the quit command; the host loop watches it.
    pub running: bool,
    /// Pending drag points in recording order, drained by `update`.
    pub points: Vec<(i32, i32)>,
}

impl Game {
    pub open spec fn wf(self) -> bool {
        &&& self.cells.wf()
        &&& self.screen.wf()
        &&& self.view.wf()
        &&& self.clock.wf()
        &&& self.view.grid_w == self.cells.width
        &&& self.view.grid_h == self.cells.height
    }

    /// A fresh engine: an all-dead world sized for the window at the base
    /// scale, the viewport at the top-left corner at the initial zoom, and
    /// a running clock first due one interval after `now_ms`.
    pub fn new(now_ms: u64) -> (g: Game)
        requires
            now_ms + MAX_INTERVAL_MS <= u64::MAX,
        ensures
            g.wf(),
            g.cells.width == WORLD_W && g.cells.height == WORLD_H,
            all_dead(g.cells@),
            g.view == (Viewport {
                win_px_x: WINDOW_PX_X,
                win_px_y: WINDOW_PX_Y,
                grid_w: WORLD_W,
                grid_h: WORLD_H,
                min_zoom: MIN_ZOOM,
                max_zoom: MAX_ZOOM,
                zoom_step: ZOOM_STEP,
                cell_size: INIT_ZOOM,
                win_x: (WINDOW_PX_X / INIT_ZOOM) as usize,
                win_y: (WINDOW_PX_Y / INIT_ZOOM) as usize,
                loc_x: 0,
                loc_y: 0,
            }),
            g.screen.width == g.view.win_x && g.screen.height == g.view.win_y,
            all_dead(g.screen@),
            g.clock == (SimulationClock {
                interval_ms: INIT_INTERVAL_MS,
                next_due_ms: (now_ms + INIT_INTERVAL_MS) as u64,
                running: true,
            }),
            g.block,
            g.running,
            g.points@ == Seq::<(i32, i32)>::empty(),
    {
        let cells = Grid::new_dead(WORLD_W, WORLD_H);
        let view = Viewport::new(
            WINDOW_PX_X,
            WINDOW_PX_Y,
            WORLD_W,
            WORLD_H,
            MIN_ZOOM,
            MAX_ZOOM,
            ZOOM_STEP,
            INIT_ZOOM,
        );
        let clock = SimulationClock::new(now_ms, INIT_INTERVAL_MS, true);
        let screen = cells.sub_grid(view.loc_x, view.loc_y, view.win_x, view.win_y);
        Game {
            cells,
            screen,
            view,
            clock,
            block: true,
            running: true,
            points: Vec::new(),
        }
    }

    /// Sets the world cell under window pixel `(x, y)` to the brush value;
    /// pixels outside the window or past the grid's edge place nothing.
    fn paint_point(&mut self, x: i32, y: i32)
        requires
            old(self).wf(),
        ensures
            final(self).wf(),
            final(self).cells@ == paint_pixel(
                old(self).cells@,
                old(self).view.loc_x as int,
                old(self).view.loc_y as int,
                old(self).view.cell_size as int,
                old(self).block,
                (x as int, y as int),
            ),
            final(self).cells.width == old(self).cells.width,
            final(self).cells.height == old(self).cells.height,
            *final(self) == (Game { cells: final(self).cells, ..*old(self) }),
    {
        if x < 0 || y < 0 {
            return;
        }
        let sx = (x as usize) / self.view.cell_size;
        let sy = (y as usize) / self.view.cell_size;
        if sx < self.cells.width && self.view.loc_x < self.cells.width - sx && sy
            < self.cells.height && self.view.loc_y < self.cells.height - sy {
            let wx = self.view.loc_x + sx;
            let wy = self.view.loc_y + sy;
            let block = self.block;
            self.cells.set(wy, wx, block);
            proof {
                assert(self.cells@ =~~= paint_cell(
                    old(self).cells@,
                    old(self).view.loc_y + sy,
                    old(self).view.loc_x + sx,
                    old(self).block,
                ));
            }
        }
    }

    /// Stops the clock (placing a cell always pauses the simulation) and
    /// sets the world cell under window pixel `(x, y)` to the brush value;
    /// coordinates outside the grid are silently ignored.
    pub fn place_cell(&mut self, x: i32, y: i32)
        requires
            old(self).wf(),
        ensures
            final(self).wf(),
            final(self).cells@ == paint_pixel(
                old(self).cells@,
                old(self).view.loc_x as int,
                old(self).view.loc_y as int,
                old(self).view.cell_size as int,
                old(self).block,
                (x as int, y as int),
            ),
            final(self).cells.width == old(self).cells.width,
            final(self).cells.height == old(self).cells.height,
            final(self).clock == (SimulationClock { running: false, ..old(self).clock }),
            *final(self) == (Game {
                cells: final(self).cells,
                clock: final(self).clock,
                ..*old(self)
            }),
    {
        self.clock.stop();
        self.paint_point(x, y);
    }

    /// Records one drag point; `update` drains them.
    pub fn add_point(&mut self, x: i32, y: i32)
        requires
            old(self).wf(),
        ensures
            final(self).wf(),
            final(self).points@ == old(self).points@.push((x, y)),
            *final(self) == (Game { points: final(self).points, ..*old(self) }),
    {
        self.points.push((x, y));
    }

    /// Advances the world one generation.
    fn next_gen(&mut self)
        requires
            old(self).wf(),
        ensures
            final(self).wf(),
            final(self).cells@ == step_spec(old(self).cells@),
            final(self).cells.width == old(self).cells.width,
            final(self).cells.height == old(self).cells.height,
            *final(self) == (Game { cells: final(self).cells, ..*old(self) }),
    {
        let next = self.cells.step();
        self.cells = next;
    }

    /// Toggles the clock between running and stopped.
    pub fn start_stop(&mut self)
        requires
            old(self).wf(),
        ensures
            final(self).wf(),
            *final(self) == (Game {
                clock: (SimulationClock { running: !old(self).clock.running, ..old(self).clock }),
                ..*old(self)
            }),
    {
        self.clock.start_stop();
    }

    /// One zoom step in; the zoom level never leaves the configured limits.
    pub fn zoom_in(&mut self)
        requires
            old(self).wf(),
        ensures
            final(self).wf(),
            Viewport::zoomed_in(old(self).view, final(self).view),
            old(self).view.min_zoom <= final(self).view.cell_size <= old(self).view.max_zoom,
            *final(self) == (Game { view: final(self).view, ..*old(self) }),
    {
        self.view.zoom_in();
    }

    /// One zoom step out; the zoom level never leaves the configured limits.
    pub fn zoom_out(&mut self)
        requires
            old(self).wf(),
        ensures
            final(self).wf(),
            Viewport::zoomed_out(old(self).view, final(self).view),
            old(self).view.min_zoom <= final(self).view.cell_size <= old(self).view.max_zoom,
            *final(self) == (Game { view: final(self).view, ..*old(self) }),
    {
        self.view.zoom_out();
    }

    /// Clears the host-loop flag; the quit command's only effect.
    fn quit(&mut self)
        requires
            old(self).wf(),
        ensures
            final(self).wf(),
            *final(self) == (Game { running: false, ..*old(self) }),
    {
        self.running = false;
    }

    /// Flips the brush between placing live and dead cells.
    fn swap_block(&mut self)
        requires
            old(self).wf(),
        ensures
            final(self).wf(),
            *final(self) == (Game { block: !old(self).block, ..*old(self) }),
    {
        self.block = !self.block;
    }

    /// Replaces the world with an all-dead grid of the same size.
    fn clear_board(&mut self)
        requires
            old(self).wf(),
        ensures
            final(self).wf(),
            all_dead(final(self).cells@),
            final(self).cells.width == old(self).cells.width,
            final(self).cells.height == old(self).cells.height,
            *final(self) == (Game { cells: final(self).cells, ..*old(self) }),
    {
        let w = self.cells.width;
        let h = self.cells.height;
        self.cells = Grid::new_dead(w, h);
    }

    /// Replaces the world with a uniformly random grid of the same size.
    fn spawn_random(&mut self)
        requires
            old(self).wf(),
        ensures
            final(self).wf(),
            final(self).cells.width == old(self).cells.width,
            final(self).cells.height == old(self).cells.height,
            *final(self) == (Game { cells: final(self).cells, ..*old(self) }),
    {
        let w = self.cells.width;
        let h = self.cells.height;
        self.cells = Grid::new_random(w, h);
    }

    /// Applies one abstract command to the clock, grid, viewport or brush.
    pub fn key_event(&mut self, event: GameEvent)
        requires
            old(self).wf(),
        ensures
            final(self).wf(),
            (match event {
                GameEvent::Quit => *final(self) == (Game { running: false, ..*old(self) }),
                GameEvent::SpeedUp => *final(self) == (Game {
                    clock: (SimulationClock {
                        interval_ms: if old(self).clock.interval_ms
                            >= crate::clock::MIN_INTERVAL_MS + crate::clock::INTERVAL_STEP_MS {
                            (old(self).clock.interval_ms - crate::clock::INTERVAL_STEP_MS) as u64
                        } else {
                            crate::clock::MIN_INTERVAL_MS
                        },
                        ..old(self).clock
                    }),
                    ..*old(self)
                }),
                GameEvent::SpeedDown => *final(self) == (Game {
                    clock: (SimulationClock {
                        interval_ms: if old(self).clock.interval_ms + crate::clock::INTERVAL_STEP_MS
                            <= crate::clock::MAX_INTERVAL_MS {
                            (old(self).clock.interval_ms + crate::clock::INTERVAL_STEP_MS) as u64
                        } else {
                            crate::clock::MAX_INTERVAL_MS
                        },
                        ..old(self).clock
                    }),
                    ..*old(self)
                }),
                GameEvent::SpawnRandom => {
                    &&& final(self).cells.width == old(self).cells.width
                    &&& final(self).cells.height == old(self).cells.height
                    &&& *final(self) == (Game { cells: final(self).cells, ..*old(self) })
                },
                GameEvent::ClearBoard => {
                    &&& all_dead(final(self).cells@)
                    &&& final(self).cells.width == old(self).cells.width
                    &&& final(self).cells.height == old(self).cells.height
                    &&& *final(self) == (Game { cells: final(self).cells, ..*old(self) })
                },
                GameEvent::StartStop => *final(self) == (Game {
                    clock: (SimulationClock { running: !old(self).clock.running, ..old(self).clock }),
                    ..*old(self)
                }),
                GameEvent::ScreenUp => *final(self) == (Game {
                    view: (Viewport {
                        loc_y: if old(self).view.loc_y == 0 { 0usize } else { (old(self).view.loc_y - 1) as usize },
                        ..old(self).view
                    }),
                    ..*old(self)
                }),
                GameEvent::ScreenDown => *final(self) == (Game {
                    view: (Viewport {
                        loc_y: if old(self).view.loc_y + old(self).view.win_y < old(self).view.grid_h {
                            (old(self).view.loc_y + 1) as usize
                        } else {
                            old(self).view.loc_y
                        },
                        ..old(self).view
                    }),
                    ..*old(self)
                }),
                GameEvent::ScreenLeft => *final(self) == (Game {
                    view: (Viewport {
                        loc_x: if old(self).view.loc_x == 0 { 0usize } else { (old(self).view.loc_x - 1) as usize },
                        ..old(self).view
                    }),
                    ..*old(self)
                }),
                GameEvent::ScreenRight => *final(self) == (Game {
                    view: (Viewport {
                        loc_x: if old(self).view.loc_x + old(self).view.win_x < old(self).view.grid_w {
                            (old(self).view.loc_x + 1) as usize
                        } else {
                            old(self).view.loc_x
                        },
                        ..old(self).view
                    }),
                    ..*old(self)
                }),
                GameEvent::ZoomOut => {
                    &&& Viewport::zoomed_out(old(self).view, final(self).view)
                    &&& *final(self) == (Game { view: final(self).view, ..*old(self) })
                },
                GameEvent::ZoomIn => {
                    &&& Viewport::zoomed_in(old(self).view, final(self).view)
                    &&& *final(self) == (Game { view: final(self).view, ..*old(self) })
                },
                GameEvent::SwapBlock => *final(self) == (Game { block: !old(self).block, ..*old(self) }),
            }),
    {
        match event {
            GameEvent::Quit => self.quit(),
            GameEvent::SpeedUp => self.speed_up(),
            GameEvent::SpeedDown => self.speed_down(),
            GameEvent::SpawnRandom => self.spawn_random(),
            GameEvent::ClearBoard => self.clear_board(),
            GameEvent::StartStop => self.start_stop(),
            GameEvent::ScreenUp => self.screen_up(),
            GameEvent::ScreenDown => self.screen_down(),
            GameEvent::ScreenLeft => self.screen_left(),
            GameEvent::ScreenRight => self.screen_right(),
            GameEvent::ZoomOut => self.zoom_out(),
            GameEvent::ZoomIn => self.zoom_in(),
            GameEvent::SwapBlock => self.swap_block(),
        }
    }

    /// Shortens the generation interval by one step, saturating at the
    /// fastest permitted speed.
    fn speed_up(&mut self)
        requires
            old(self).wf(),
        ensures
            final(self).wf(),
            *final(self) == (Game {
                clock: (SimulationClock {
                    interval_ms: if old(self).clock.interval_ms
                        >= crate::clock::MIN_INTERVAL_MS + crate::clock::INTERVAL_STEP_MS {
                        (old(self).clock.interval_ms - crate::clock::INTERVAL_STEP_MS) as u64
                    } else {
                        crate::clock::MIN_INTERVAL_MS
                    },
                    ..old(self).clock
                }),
                ..*old(self)
            }),
    {
        self.clock.speed_up();
    }

    /// Lengthens the generation interval by one step, saturating at the
    /// slowest permitted speed.
    fn speed_down(&mut self)
        requires
            old(self).wf(),
        ensures
            final(self).wf(),
            *final(self) == (Game {
                clock: (SimulationClock {
                    interval_ms: if old(self).clock.interval_ms + crate::clock::INTERVAL_STEP_MS
                        <= crate::clock::MAX_INTERVAL_MS {
                        (old(self).clock.interval_ms + crate::clock::INTERVAL_STEP_MS) as u64
                    } else {
                        crate::clock::MAX_INTERVAL_MS
                    },
                    ..old(self).clock
                }),
                ..*old(self)
            }),
    {
        self.clock.speed_down();
    }

    /// Pans the window one cell up; a no-op at the top edge.
    fn screen_up(&mut self)
        requires
            old(self).wf(),
        ensures
            final(self).wf(),
            *final(self) == (Game {
                view: (Viewport {
                    loc_y: if old(self).view.loc_y == 0 { 0usize } else { (old(self).view.loc_y - 1) as usize },
                    ..old(self).view
                }),
                ..*old(self)
            }),
    {
        self.view.pan_up();
    }

    /// Pans the window one cell down; a no-op at the bottom edge, checked
    /// against the vertical window extent.
    fn screen_down(&mut self)
        requires
            old(self).wf(),
        ensures
            final(self).wf(),
            *final(self) == (Game {
                view: (Viewport {
                    loc_y: if old(self).view.loc_y + old(self).view.win_y < old(self).view.grid_h {
                        (old(self).view.loc_y + 1) as usize
                    } else {
                        old(self).view.loc_y
                    },
                    ..old(self).view
                }),
                ..*old(self)
            }),
    {
        self.view.pan_down();
    }

    /// Pans the window one cell left; a no-op at the left edge.
    fn screen_left(&mut self)
        requires
            old(self).wf(),
        ensures
            final(self).wf(),
            *final(self) == (Game {
                view: (Viewport {
                    loc_x: if old(self).view.loc_x == 0 { 0usize } else { (old(self).view.loc_x - 1) as usize },
                    ..old(self).view
                }),
                ..*old(self)
            }),
    {
        self.view.pan_left();
    }

    /// Pans the window one cell right; a no-op at the right edge.
    fn screen_right(&mut self)
        requires
            old(self).wf(),
        ensures
            final(self).wf(),
            *final(self) == (Game {
                view: (Viewport {
                    loc_x: if old(self).view.loc_x + old(self).view.win_x < old(self).view.grid_w {
                        (old(self).view.loc_x + 1) as usize
                    } else {
                        old(self).view.loc_x
                    },
                    ..old(self).view
                }),
                ..*old(self)
            }),
    {
        self.view.pan_right();
    }

    /// Clamps the viewport and refreshes the visible sub-grid snapshot;
    /// called once per frame before drawing.
    pub fn make_screen(&mut self)
        requires
            old(self).wf(),
        ensures
            final(self).wf(),
            final(self).view == old(self).view.clamp_spec(),
            final(self).view.clamped(),
            final(self).screen.width == final(self).view.win_x,
            final(self).screen.height == final(self).view.win_y,
            forall|r: int, c: int|
                0 <= r < final(self).screen.height && 0 <= c < final(self).screen.width ==>
                    #[trigger] final(self).screen@[r][c] == final(self).cells@[
                        final(self).view.loc_y + r
                    ][final(self).view.loc_x + c],
            *final(self) == (Game {
                view: final(self).view,
                screen: final(self).screen,
                ..*old(self)
            }),
    {
        self.view.clamp_to_grid();
        proof {
            self.view.lemma_window_fits();
        }
        self.screen = self.cells.sub_grid(self.view.loc_x, self.view.loc_y, self.view.win_x, self.view.win_y);
    }

    /// One tick: drains the pending drag points, painting every cell on the
    /// rasterized path between each consecutive pair with the brush value,
    /// then lets the clock possibly fire one generation at time `now_ms`.
    pub fn update(&mut self, now_ms: u64)
        requires
            old(self).wf(),
            now_ms + MAX_INTERVAL_MS <= u64::MAX,
        ensures
            final(self).wf(),
            final(self).cells.width == old(self).cells.width,
            final(self).cells.height == old(self).cells.height,
            final(self).points@ == Seq::<(i32, i32)>::empty(),
            ({
                let painted = paint_path(
                    old(self).cells@,
                    old(self).view.loc_x as int,
                    old(self).view.loc_y as int,
                    old(self).view.cell_size as int,
                    old(self).block,
                    old(self).points@,
                    old(self).points@.len() as int,
                );
                let fire = old(self).clock.running && now_ms >= old(self).clock.next_due_ms;
                &&& final(self).cells@ == (if fire { step_spec(painted) } else { painted })
                &&& final(self).clock == (SimulationClock {
                    next_due_ms: if fire {
                        (now_ms + old(self).clock.interval_ms) as u64
                    } else {
                        old(self).clock.next_due_ms
                    },
                    ..old(self).clock
                })
            }),
            *final(self) == (Game {
                cells: final(self).cells,
                clock: final(self).clock,
                points: final(self).points,
                ..*old(self)
            }),
    {
        let ghost gv0 = self.cells@;
        let ghost lx = self.view.loc_x as int;
        let ghost ly = self.view.loc_y as int;
        let ghost cs = self.view.cell_size as int;
        let ghost bv = self.block;
        let ghost pts0 = self.points@;
        if self.points.len() > 1 {
            let mut k: usize = 1;
            while k < self.points.len()
                invariant
                    self.wf(),
                    1 <= k <= self.points@.len(),
                    self.points@ == pts0,
                    self.cells@ == paint_path(gv0, lx, ly, cs, bv, pts0, k as int),
                    self.cells.width == old(self).cells.width,
                    self.cells.height == old(self).cells.height,
                    self.view.loc_x == lx && self.view.loc_y == ly,
                    self.view.cell_size == cs,
                    self.block == bv,
                    *self == (Game { cells: self.cells, ..*old(self) }),
                decreases self.points@.len() - k,
            {
                let p_prev = self.points[k - 1];
                let p_cur = self.points[k];
                let seg = gen_points(p_prev.0, p_prev.1, p_cur.0, p_cur.1);
                let ghost before = self.cells@;
                let mut i: usize = 0;
                while i < seg.len()
                    invariant
                        self.wf(),
                        i <= seg@.len(),
                        p_prev == pts0[k - 1] && p_cur == pts0[k as int],
                        1 <= k < pts0.len(),
                        seg@.len() == line_len(p_prev, p_cur),
                        forall|j: int| 0 <= j < seg@.len() ==>
                            (#[trigger] seg@[j]).0 == line_point(p_prev, p_cur, j).0
                            && seg@[j].1 == line_point(p_prev, p_cur, j).1,
                        self.points@ == pts0,
                        self.cells@ == paint_line_upto(before, lx, ly, cs, bv, p_prev, p_cur, i as int),
                        self.cells.width == old(self).cells.width,
                        self.cells.height == old(self).cells.height,
                        self.view.loc_x == lx && self.view.loc_y == ly,
                        self.view.cell_size == cs,
                        self.block == bv,
                        *self == (Game { cells: self.cells, ..*old(self) }),
                    decreases seg@.len() - i,
                {
                    let p = seg[i];
                    self.paint_point(p.0, p.1);
                    proof {
                        assert(line_point(p_prev, p_cur, i as int)
                            == (p.0 as int, p.1 as int));
                        assert(paint_line_upto(before, lx, ly, cs, bv, p_prev, p_cur, i + 1)
                            == paint_pixel(
                                paint_line_upto(before, lx, ly, cs, bv, p_prev, p_cur, i as int),
                                lx,
                                ly,
                                cs,
                                bv,
                                line_point(p_prev, p_cur, i as int),
                            ));
                    }
                    i += 1;
                }
                proof {
                    assert(self.cells@ == paint_line(before, lx, ly, cs, bv, p_prev, p_cur));
                    assert(paint_path(gv0, lx, ly, cs, bv, pts0, k + 1)
                        == paint_line(
                            paint_path(gv0, lx, ly, cs, bv, pts0, k as int),
                            lx,
                            ly,
                            cs,
                            bv,
                            pts0[k - 1],
                            pts0[k as int],
                        ));
                }
                k += 1;
            }
        }
        self.points.clear();
        let fire = self.clock.poll(now_ms);
        if fire {
            self.next_gen();
        }
    }
}

} // verus!
