use game_of_life::{next_state, App, Cell, Msg, TimerAction};

fn all_dead(width: u32, height: u32) -> App {
    let mut app = App::with_dimensions(width, height);
    for row in 0..height {
        for column in 0..width {
            app.set_cell(row, column, Cell::Dead);
        }
    }
    app
}

fn cells_of(app: &App) -> Vec<Cell> {
    let mut cells = Vec::new();
    for row in 0..app.height() {
        for column in 0..app.width() {
            cells.push(app.cell_at(row, column));
        }
    }
    cells
}

#[test]
fn test_live_neighbor_count() {
    let mut app = App::new();
    for row in 0..64 {
        for column in 0..64 {
            app.set_cell(row, column, Cell::Dead);
        }
    }
    for i in 0..64 {
        for j in 0..64 {
            assert_eq!(app.live_neighbor_count(i, j), 0);
        }
    }
    // Top left corner.
    app.set_cell(0, 0, Cell::Alive);
    assert_eq!(app.live_neighbor_count(0, 0), 0);
    app.set_cell(0, 1, Cell::Alive);
    assert_eq!(app.live_neighbor_count(0, 0), 1);
    // The grid wraps on every side, like the surface of a torus.
    assert_eq!(app.live_neighbor_count(63, 0), 2);
    assert_eq!(app.live_neighbor_count(0, 63), 1);
    assert_eq!(app.live_neighbor_count(63, 63), 1);
    // Top right corner.
    app.set_cell(0, 63, Cell::Alive);
    assert_eq!(app.live_neighbor_count(1, 63), 2);
}

#[test]
fn all_dead_grids_have_no_live_neighbors() {
    for (width, height) in [(1, 1), (1, 5), (3, 2), (7, 9)] {
        let app = all_dead(width, height);
        for row in 0..height {
            for column in 0..width {
                assert_eq!(app.live_neighbor_count(row, column), 0);
            }
        }
    }
}

#[test]
fn single_live_cell_wraps_to_all_eight_neighbors() {
    let mut app = all_dead(64, 64);
    app.set_cell(0, 0, Cell::Alive);
    assert_eq!(app.live_neighbor_count(0, 0), 0);
    for (row, column) in [(63, 63), (63, 0), (63, 1), (0, 63), (0, 1), (1, 63), (1, 0), (1, 1)] {
        assert_eq!(app.live_neighbor_count(row, column), 1);
    }
    assert_eq!(app.live_neighbor_count(2, 0), 0);
    assert_eq!(app.live_neighbor_count(0, 62), 0);
}

#[test]
fn two_live_cells_in_the_top_row() {
    let mut app = all_dead(64, 64);
    app.set_cell(0, 0, Cell::Alive);
    app.set_cell(0, 1, Cell::Alive);
    assert_eq!(app.live_neighbor_count(0, 0), 1);
    assert_eq!(app.live_neighbor_count(63, 0), 2);
}

#[test]
fn one_by_one_grid_counts_each_offset() {
    // Five of the nine offsets are not (0, 0) by value, and all reach the
    // single cell.
    let app = App::with_dimensions(1, 1);
    assert_eq!(app.cell_at(0, 0), Cell::Alive);
    assert_eq!(app.live_neighbor_count(0, 0), 5);
}

#[test]
fn one_wide_grid_counts_left_and_right_separately() {
    let mut app = all_dead(1, 4);
    app.set_cell(1, 0, Cell::Alive);
    // From row 0 the column deltas 0 (twice, as `width - 1` and as 0) and 1
    // all reach column 0 of row 1.
    assert_eq!(app.live_neighbor_count(0, 0), 3);
    assert_eq!(app.live_neighbor_count(2, 0), 3);
    assert_eq!(app.live_neighbor_count(3, 0), 0);
}

#[test]
fn new_grid_has_the_seed_pattern() {
    let app = App::new();
    assert_eq!(app.width(), 64);
    assert_eq!(app.height(), 64);
    let cells = cells_of(&app);
    assert_eq!(cells.len(), 64 * 64);
    for (i, cell) in cells.iter().enumerate() {
        let expected = if i % 2 == 0 || i % 7 == 0 { Cell::Alive } else { Cell::Dead };
        assert_eq!(*cell, expected);
    }
    assert_eq!(app.cell_at(0, 0), Cell::Alive);
    assert_eq!(app.cell_at(0, 1), Cell::Dead);
    assert_eq!(app.cell_at(0, 7), Cell::Alive);
    assert_eq!(app.cell_at(0, 9), Cell::Dead);
    assert_eq!(app.cell_at(1, 6), Cell::Alive);
}

#[test]
fn get_index_is_row_major() {
    let app = App::with_dimensions(5, 3);
    assert_eq!(app.get_index(0, 0), 0);
    assert_eq!(app.get_index(0, 4), 4);
    assert_eq!(app.get_index(1, 0), 5);
    assert_eq!(app.get_index(2, 3), 13);
}

#[test]
fn toggle_twice_restores_every_cell() {
    let mut app = App::with_dimensions(6, 4);
    let before = cells_of(&app);
    for row in 0..4 {
        for column in 0..6 {
            let cell = app.cell_at(row, column);
            app.toggle(row, column);
            assert_ne!(app.cell_at(row, column), cell);
            app.toggle(row, column);
            assert_eq!(app.cell_at(row, column), cell);
        }
    }
    assert_eq!(cells_of(&app), before);
}

#[test]
fn cell_flip_and_count() {
    assert_eq!(Cell::Alive.flip(), Cell::Dead);
    assert_eq!(Cell::Dead.flip(), Cell::Alive);
    assert_eq!(Cell::Alive.live_count(), 1);
    assert_eq!(Cell::Dead.live_count(), 0);
}

#[test]
fn rule_table() {
    assert_eq!(next_state(Cell::Alive, 0), Cell::Dead);
    assert_eq!(next_state(Cell::Alive, 1), Cell::Dead);
    assert_eq!(next_state(Cell::Alive, 2), Cell::Alive);
    assert_eq!(next_state(Cell::Alive, 3), Cell::Alive);
    assert_eq!(next_state(Cell::Alive, 4), Cell::Dead);
    assert_eq!(next_state(Cell::Alive, 8), Cell::Dead);
    assert_eq!(next_state(Cell::Dead, 3), Cell::Alive);
    for n in [0, 1, 2, 4, 5, 6, 7, 8] {
        assert_eq!(next_state(Cell::Dead, n), Cell::Dead);
    }
}

#[test]
fn block_is_a_still_life() {
    let mut app = all_dead(16, 16);
    for (row, column) in [(5, 5), (5, 6), (6, 5), (6, 6)] {
        app.set_cell(row, column, Cell::Alive);
    }
    let before = cells_of(&app);
    app.tick();
    assert_eq!(cells_of(&app), before);
    app.tick();
    assert_eq!(cells_of(&app), before);
}

#[test]
fn blinker_oscillates() {
    let mut app = all_dead(8, 8);
    for column in 2..5 {
        app.set_cell(3, column, Cell::Alive);
    }
    app.tick();
    for row in 0..8 {
        for column in 0..8 {
            let expected = if column == 3 && (2..5).contains(&row) { Cell::Alive } else { Cell::Dead };
            assert_eq!(app.cell_at(row, column), expected);
        }
    }
    app.tick();
    for column in 2..5 {
        assert_eq!(app.cell_at(3, column), Cell::Alive);
    }
    assert_eq!(app.cell_at(2, 3), Cell::Dead);
}

#[test]
fn lone_cell_dies_and_three_make_one_born() {
    let mut app = all_dead(10, 10);
    app.set_cell(0, 0, Cell::Alive);
    app.tick();
    assert_eq!(app.cell_at(0, 0), Cell::Dead);

    let mut app = all_dead(10, 10);
    app.set_cell(4, 4, Cell::Alive);
    app.set_cell(4, 6, Cell::Alive);
    app.set_cell(6, 5, Cell::Alive);
    app.tick();
    assert_eq!(app.cell_at(5, 5), Cell::Alive);
}

#[test]
fn tick_keeps_dimensions() {
    let mut app = App::with_dimensions(7, 3);
    for _ in 0..5 {
        app.tick();
        assert_eq!(app.width(), 7);
        assert_eq!(app.height(), 3);
        assert_eq!(cells_of(&app).len(), 21);
    }
}

#[test]
fn ticks_are_deterministic() {
    let mut a = App::new();
    let mut b = App::new();
    for _ in 0..10 {
        a.tick();
        b.tick();
        assert_eq!(cells_of(&a), cells_of(&b));
    }
}

#[test]
fn update_tick_advances_one_generation() {
    let mut a = App::new();
    let mut b = App::new();
    assert_eq!(a.update(Msg::Tick, true), TimerAction::Keep);
    b.tick();
    assert_eq!(cells_of(&a), cells_of(&b));
    assert_ne!(cells_of(&a), cells_of(&App::new()));
}

#[test]
fn update_start_stop_follows_the_timer() {
    let mut app = App::new();
    assert_eq!(app.update(Msg::StartStop, true), TimerAction::Stop);
    assert_eq!(app.update(Msg::StartStop, false), TimerAction::Start);
    assert_eq!(cells_of(&app), cells_of(&App::new()));
}

#[test]
fn update_click_flips_the_clicked_cell() {
    let mut app = App::new();
    // Linear index 70 is row 1, column 6.
    assert_eq!(app.cell_at(1, 6), Cell::Alive);
    assert_eq!(app.update(Msg::Click(70), false), TimerAction::Keep);
    assert_eq!(app.cell_at(1, 6), Cell::Dead);
    assert_eq!(app.cell_at(1, 5), Cell::Dead);
    assert_eq!(app.update(Msg::Click(70), true), TimerAction::Keep);
    assert_eq!(app.cell_at(1, 6), Cell::Alive);
}
