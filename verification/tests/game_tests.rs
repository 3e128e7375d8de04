use life::game::Game;
use life::game_event::GameEvent;

fn count_alive(g: &Game) -> usize {
    let mut n = 0;
    for r in 0..g.cells.height {
        for c in 0..g.cells.width {
            if g.cells.get(r, c) {
                n += 1;
            }
        }
    }
    n
}

#[test]
fn new_game_initial_state() {
    let g = Game::new(0);
    assert_eq!(g.cells.width, 700);
    assert_eq!(g.cells.height, 400);
    assert_eq!(count_alive(&g), 0);
    assert_eq!(g.view.cell_size, 20);
    assert_eq!(g.screen.width, 70);
    assert_eq!(g.screen.height, 40);
    assert!(g.clock.running);
    assert_eq!(g.clock.interval_ms, 50);
    assert!(g.running);
}

#[test]
fn place_cell_sets_cell_and_pauses() {
    let mut g = Game::new(0);
    g.place_cell(100, 60);
    assert!(g.cells.get(3, 5));
    assert_eq!(count_alive(&g), 1);
    assert!(!g.clock.running);
}

#[test]
fn place_cell_respects_pan_offset() {
    let mut g = Game::new(0);
    g.key_event(GameEvent::ScreenRight);
    g.key_event(GameEvent::ScreenRight);
    g.key_event(GameEvent::ScreenDown);
    g.place_cell(0, 0);
    assert!(g.cells.get(1, 2));
}

#[test]
fn place_cell_outside_is_ignored() {
    let mut g = Game::new(0);
    g.place_cell(-5, 10);
    g.place_cell(10, -5);
    // Past the grid's right edge: 700 cells at zoom 20 end at pixel 14000.
    g.place_cell(2_000_000, 10);
    assert_eq!(count_alive(&g), 0);
}

#[test]
fn swap_block_paints_dead_cells() {
    let mut g = Game::new(0);
    g.place_cell(100, 60);
    assert!(g.cells.get(3, 5));
    g.key_event(GameEvent::SwapBlock);
    g.place_cell(100, 60);
    assert!(!g.cells.get(3, 5));
    g.key_event(GameEvent::SwapBlock);
    g.place_cell(100, 60);
    assert!(g.cells.get(3, 5));
}

#[test]
fn quit_clears_running_flag() {
    let mut g = Game::new(0);
    g.key_event(GameEvent::Quit);
    assert!(!g.running);
}

#[test]
fn speed_events_adjust_clock() {
    let mut g = Game::new(0);
    g.key_event(GameEvent::SpeedUp);
    assert_eq!(g.clock.interval_ms, 40);
    for _ in 0..10 {
        g.key_event(GameEvent::SpeedDown);
    }
    assert_eq!(g.clock.interval_ms, 140);
}

#[test]
fn zoom_events_stay_in_limits() {
    let mut g = Game::new(0);
    for _ in 0..200 {
        g.key_event(GameEvent::ZoomIn);
        assert!(g.view.cell_size >= 2 && g.view.cell_size <= 100);
    }
    assert_eq!(g.view.cell_size, 2);
    for _ in 0..200 {
        g.key_event(GameEvent::ZoomOut);
        assert!(g.view.cell_size >= 2 && g.view.cell_size <= 100);
    }
    assert_eq!(g.view.cell_size, 100);
}

#[test]
fn clear_board_kills_everything() {
    let mut g = Game::new(0);
    g.place_cell(100, 60);
    g.place_cell(120, 60);
    g.key_event(GameEvent::ClearBoard);
    assert_eq!(count_alive(&g), 0);
}

#[test]
fn spawn_random_keeps_dimensions() {
    let mut g = Game::new(0);
    g.key_event(GameEvent::SpawnRandom);
    assert_eq!(g.cells.width, 700);
    assert_eq!(g.cells.height, 400);
}

#[test]
fn update_paints_drag_path() {
    let mut g = Game::new(0);
    g.key_event(GameEvent::StartStop);
    assert!(!g.clock.running);
    g.add_point(0, 0);
    g.add_point(80, 0);
    g.update(0);
    // Every pixel of the segment lands in columns 0..=4 of row 0.
    for c in 0..=4 {
        assert!(g.cells.get(0, c), "column {c}");
    }
    assert_eq!(count_alive(&g), 5);
}

#[test]
fn update_drains_pending_points() {
    let mut g = Game::new(0);
    g.key_event(GameEvent::StartStop);
    g.add_point(0, 0);
    g.add_point(40, 40);
    g.update(0);
    let painted = count_alive(&g);
    assert!(painted > 0);
    // A later tick paints nothing more: the points were drained.
    g.update(1);
    assert_eq!(count_alive(&g), painted);
}

#[test]
fn block_survives_generations_end_to_end() {
    let mut g = Game::new(0);
    // A 2x2 block at cells (5..=6, 5..=6), placed at zoom 20.
    g.place_cell(100, 100);
    g.place_cell(120, 100);
    g.place_cell(100, 120);
    g.place_cell(120, 120);
    assert_eq!(count_alive(&g), 4);
    // Placement paused the clock; resume and let a generation fire.
    g.key_event(GameEvent::StartStop);
    g.update(50);
    assert!(g.cells.get(5, 5) && g.cells.get(5, 6) && g.cells.get(6, 5) && g.cells.get(6, 6));
    assert_eq!(count_alive(&g), 4);
}

#[test]
fn update_fires_on_the_clock_only() {
    let mut g = Game::new(0);
    // A blinker at cells (1..=3, 2), vertical.
    g.place_cell(40, 20);
    g.place_cell(40, 40);
    g.place_cell(40, 60);
    g.key_event(GameEvent::StartStop);
    // First due time is 50ms after the engine was created.
    g.update(49);
    assert!(g.cells.get(2, 2));
    assert!(!g.cells.get(2, 1));
    g.update(50);
    // One generation: the blinker is horizontal now.
    assert!(g.cells.get(2, 1) && g.cells.get(2, 2) && g.cells.get(2, 3));
    assert!(!g.cells.get(1, 2));
    // The next generation is due one interval later, not sooner.
    g.update(60);
    assert!(g.cells.get(2, 1));
    g.update(100);
    assert!(g.cells.get(1, 2) && g.cells.get(2, 2) && g.cells.get(3, 2));
}

#[test]
fn make_screen_clamps_and_snapshots() {
    let mut g = Game::new(0);
    g.place_cell(100, 60);
    for _ in 0..1000 {
        g.key_event(GameEvent::ScreenRight);
        g.key_event(GameEvent::ScreenDown);
    }
    g.key_event(GameEvent::ZoomIn);
    g.make_screen();
    assert_eq!(g.screen.width, g.view.win_x);
    assert_eq!(g.screen.height, g.view.win_y);
    assert!(g.view.loc_x + g.view.win_x <= 700);
    assert!(g.view.loc_y + g.view.win_y <= 400);
    // The snapshot shows the world cells under the window.
    let mut g2 = Game::new(0);
    g2.place_cell(100, 60);
    g2.make_screen();
    assert!(g2.screen.get(3, 5));
}
