use fap::app::{App, Key, Action, Prefix, CommandState, Move, FileAction, file_action, max_col_of};
use fap::listing::DirEntryInfo;
use fap::position::Position;

fn file(name: &str) -> DirEntryInfo {
    DirEntryInfo { name: name.to_string(), path: format!("/tmp/d/{}", name), is_dir: false }
}

fn dir(name: &str) -> DirEntryInfo {
    DirEntryInfo { name: name.to_string(), path: format!("/tmp/d/{}", name), is_dir: true }
}

/// Ten files `f0`..`f9`: fifteen rows with the header.
fn ten_files(rows: u16) -> App {
    let entries = (0..10).map(|i| file(&format!("f{}", i))).collect();
    App::new("/tmp/d".to_string(), rows, Some("/tmp".to_string()), entries)
}

fn press(app: &mut App, keys: &str) {
    for c in keys.chars() {
        app.handle_key(Key::Char(c));
    }
}

fn state(app: &App) -> (usize, u16, u16, u16, u16) {
    (app.index, app.cursor_position.x, app.cursor_position.y, app.stored_position.x, app.stored_position.y)
}

#[test]
fn new_app_starts_on_parent_row() {
    let app = ten_files(8);
    assert_eq!(app.buffer.len(), 15);
    assert_eq!(app.index, 0);
    assert_eq!(app.cursor_position, Position::new(0, 3));
    assert_eq!(app.stored_position, Position::new(0, 3));
    assert_eq!(app.output, "/tmp/d");
    assert_eq!(app.rows, 8);
    assert_eq!(app.visible_height(), 5);
}

#[test]
fn new_app_raises_small_terminal_to_minimum() {
    let app = ten_files(2);
    assert_eq!(app.rows, 5);
    assert_eq!(app.visible_height(), 2);
    assert_eq!(app.cursor_position.y, 1);
}

#[test]
fn count_three_then_j_moves_down_three_times() {
    let mut by_keys = ten_files(8);
    press(&mut by_keys, "3j");
    let mut by_calls = ten_files(8);
    by_calls.move_cursor_down();
    by_calls.move_cursor_down();
    by_calls.move_cursor_down();
    assert_eq!(state(&by_keys), state(&by_calls));
    assert_eq!(state(&by_keys), (2, 0, 4, 0, 4));
    assert_eq!(by_keys.command_state, CommandState::default());
}

#[test]
fn leading_zero_is_not_a_count() {
    let mut by_keys = ten_files(8);
    press(&mut by_keys, "0j");
    let mut by_calls = ten_files(8);
    by_calls.move_cursor_down();
    assert_eq!(state(&by_keys), state(&by_calls));
    assert_eq!(state(&by_keys), (0, 0, 4, 0, 4));
}

#[test]
fn zero_after_a_digit_counts() {
    let mut app = ten_files(8);
    press(&mut app, "10");
    assert_eq!(app.command_state.number, Some(10));
    press(&mut app, "k");
    assert_eq!(state(&app), (0, 0, 0, 0, 0));
    assert_eq!(app.command_state.number, None);
}

#[test]
fn gg_jumps_to_first_line_once() {
    let mut app = ten_files(8);
    press(&mut app, "9j");
    assert_eq!(app.index + app.cursor_position.y as usize, 12);
    press(&mut app, "g");
    assert_eq!(app.command_state.prefix, Prefix::g);
    assert_eq!(app.index, 8);
    press(&mut app, "g");
    assert_eq!(state(&app), (0, 0, 0, 0, 0));
    assert_eq!(app.command_state, CommandState::default());
}

#[test]
fn unknown_key_after_g_clears_prefix_without_moving() {
    let mut app = ten_files(8);
    press(&mut app, "g");
    let before = state(&app);
    let action = app.handle_key(Key::Char('x'));
    assert!(matches!(action, Action::Continue));
    assert_eq!(app.command_state.prefix, Prefix::Unset);
    assert_eq!(state(&app), before);
    press(&mut app, "g");
    assert_eq!(app.command_state.prefix, Prefix::g);
    app.handle_key(Key::Other);
    assert_eq!(app.command_state.prefix, Prefix::Unset);
    assert_eq!(state(&app), before);
}

#[test]
fn jumps_ignore_and_clear_count() {
    let mut app = ten_files(8);
    press(&mut app, "5G");
    assert_eq!(state(&app), (10, 0, 4, 0, 4));
    assert_eq!(app.command_state.number, None);
    press(&mut app, "H");
    assert_eq!(state(&app), (10, 0, 0, 0, 0));
    press(&mut app, "M");
    assert_eq!(state(&app), (10, 0, 2, 0, 2));
    press(&mut app, "L");
    assert_eq!(state(&app), (10, 0, 4, 0, 4));
}

#[test]
fn last_line_on_short_listing_does_not_scroll() {
    let mut app = ten_files(40);
    app.move_cursor_to_last_line();
    assert_eq!(state(&app), (0, 0, 14, 0, 14));
    app.move_cursor_to_first_line();
    assert_eq!(state(&app), (0, 0, 0, 0, 0));
}

#[test]
fn first_then_last_line_on_long_listing_scrolls() {
    let mut app = ten_files(8);
    press(&mut app, "4j");
    app.move_cursor_to_first_line();
    assert_eq!(app.index + app.cursor_position.y as usize, 0);
    assert_eq!(app.index, 0);
    app.move_cursor_to_last_line();
    assert_eq!(app.index, 15 - 5);
    assert_eq!(app.cursor_position.y, 4);
}

#[test]
fn middle_and_bottom_stop_at_listing_end() {
    let entries = vec![file("a")];
    let mut app = App::new("/".to_string(), 40, None, entries);
    assert_eq!(app.buffer.len(), 5);
    app.move_cursor_to_bottom();
    assert_eq!(app.cursor_position.y, 4);
    app.move_cursor_to_top();
    assert_eq!(app.cursor_position.y, 0);
    app.move_cursor_to_middle();
    assert_eq!(app.cursor_position.y, 4);
}

#[test]
fn vertical_moves_keep_cursor_inside_listing_and_window() {
    let mut app = ten_files(8);
    for c in "jjjjjjjjjjjjjjjjjjjkkkkkkkkkkkkkkkkkkkkkkjjjjjjjjjjkj".chars() {
        app.handle_key(Key::Char(c));
        assert!(app.index + (app.cursor_position.y as usize) < app.buffer.len());
        assert!(app.cursor_position.y < app.visible_height());
        assert_eq!(app.cursor_position.y, app.stored_position.y);
    }
}

#[test]
fn moves_at_boundaries_change_nothing() {
    let mut app = ten_files(8);
    app.move_cursor_to_first_line();
    let top = state(&app);
    app.move_cursor_up();
    assert_eq!(state(&app), top);
    app.move_cursor_left();
    assert_eq!(state(&app), top);
    app.move_cursor_to_last_line();
    let bottom = state(&app);
    app.move_cursor_down();
    assert_eq!(state(&app), bottom);
    // the last row is "f9", two columns wide
    app.move_cursor_right();
    assert_eq!(app.cursor_position.x, 1);
    let right = state(&app);
    app.move_cursor_right();
    assert_eq!(state(&app), right);
}

#[test]
fn sticky_column_survives_a_narrow_row() {
    let entries = vec![file("b"), file("aaaaaaaaaa")];
    let mut app = App::new("/tmp/d".to_string(), 20, Some("/tmp".to_string()), entries);
    press(&mut app, "2j");
    assert_eq!(app.current_row().text, "aaaaaaaaaa");
    press(&mut app, "7l");
    assert_eq!(app.cursor_position.x, 7);
    press(&mut app, "j");
    assert_eq!(app.current_row().text, "b");
    assert_eq!(app.cursor_position.x, 0);
    assert_eq!(app.stored_position.x, 7);
    press(&mut app, "k");
    assert_eq!(app.cursor_position.x, 7);
    press(&mut app, "h");
    assert_eq!(app.cursor_position.x, 6);
    assert_eq!(app.stored_position.x, 6);
}

#[test]
fn resize_below_cursor_moves_cursor_to_last_visible_row() {
    let mut app = ten_files(20);
    press(&mut app, "8j");
    assert_eq!(state(&app), (0, 0, 11, 0, 11));
    let forced = app.window_resize(80, 10);
    assert_eq!(forced, None);
    assert_eq!(app.rows, 10);
    assert_eq!(state(&app), (0, 0, 6, 0, 6));
    let forced = app.window_resize(80, 30);
    assert_eq!(forced, None);
    assert_eq!(state(&app), (0, 0, 6, 0, 6));
}

#[test]
fn resize_below_minimum_forces_minimum() {
    let mut app = ten_files(20);
    app.command_state.prefix = Prefix::g;
    let action = app.handle_key(Key::Resize(3, 2));
    assert!(matches!(action, Action::ForceSize(5, 5)));
    assert_eq!(app.rows, 5);
    assert_eq!(app.cursor_position.y, 1);
    assert_eq!(app.command_state.prefix, Prefix::g);
    assert_eq!(app.window_resize(80, 4), Some((80, 5)));
    assert_eq!(app.window_resize(4, 40), Some((5, 40)));
}

#[test]
fn escape_reports_launch_directory() {
    let mut app = ten_files(8);
    press(&mut app, "3jG");
    app.enter_directory("/tmp/d/sub".to_string(), Some("/tmp/d".to_string()), vec![]);
    match app.handle_key(Key::Esc) {
        Action::Quit(d) => assert_eq!(d, "/tmp/d"),
        _ => panic!("escape must quit"),
    }
}

#[test]
fn space_reports_current_directory() {
    let mut app = ten_files(8);
    app.enter_directory("/tmp/d/sub".to_string(), Some("/tmp/d".to_string()), vec![]);
    match app.handle_key(Key::Char(' ')) {
        Action::Quit(d) => assert_eq!(d, "/tmp/d/sub"),
        _ => panic!("space must quit"),
    }
    assert_eq!(app.output, "/tmp/d/sub");
}

#[test]
fn enter_selects_row_target() {
    let mut app = ten_files(8);
    press(&mut app, "5");
    match app.handle_key(Key::Enter) {
        Action::Select(p) => assert_eq!(p, "/tmp"),
        _ => panic!("the parent row has a target"),
    }
    assert_eq!(app.command_state, CommandState::default());
    press(&mut app, "j");
    assert!(matches!(app.handle_key(Key::Enter), Action::Continue));
    press(&mut app, "j");
    match app.handle_key(Key::Enter) {
        Action::Select(p) => assert_eq!(p, "/tmp/d/f0"),
        _ => panic!("a file row has a target"),
    }
}

#[test]
fn enter_directory_resets_view() {
    let mut app = ten_files(8);
    press(&mut app, "9jl");
    app.enter_directory("/tmp/d/x".to_string(), Some("/tmp/d".to_string()), vec![dir("y")]);
    assert_eq!(app.cd, "/tmp/d/x");
    assert_eq!(app.buffer.len(), 6);
    assert_eq!(state(&app), (0, 0, 3, 0, 3));
}

#[test]
fn loop_fn_repeats_by_count() {
    let mut app = ten_files(40);
    app.command_state.push(4);
    app.loop_fn(Move::Down);
    assert_eq!(app.cursor_position.y, 7);
    assert_eq!(app.command_state.number, None);
    app.loop_fn(Move::Up);
    assert_eq!(app.cursor_position.y, 6);
}

#[test]
fn push_builds_decimal_count_and_saturates() {
    let mut cs = CommandState::default();
    cs.push(1);
    cs.push(2);
    assert_eq!(cs.number, Some(12));
    let mut big = CommandState { number: Some(429_496_729), prefix: Prefix::Unset };
    big.push(5);
    assert_eq!(big.number, Some(4_294_967_295));
    let mut over = CommandState { number: Some(429_496_729), prefix: Prefix::Unset };
    over.push(6);
    assert_eq!(over.number, Some(u32::MAX));
}

#[test]
fn file_action_by_name_and_mode() {
    assert_eq!(file_action(&".desktop".to_string(), true), FileAction::Ignore);
    assert_eq!(file_action(&"app.desktop".to_string(), true), FileAction::Ignore);
    assert_eq!(file_action(&"app.desktop".to_string(), false), FileAction::Ignore);
    assert_eq!(file_action(&"desktop".to_string(), false), FileAction::Open);
    assert_eq!(file_action(&"app.desktop.bak".to_string(), true), FileAction::Run);
    assert_eq!(file_action(&"é.desktop".to_string(), false), FileAction::Ignore);
    assert_eq!(file_action(&"run.sh".to_string(), true), FileAction::Run);
    assert_eq!(file_action(&"notes.txt".to_string(), false), FileAction::Open);
}

#[test]
fn max_col_of_widths() {
    assert_eq!(max_col_of(0), 0);
    assert_eq!(max_col_of(1), 0);
    assert_eq!(max_col_of(10), 9);
    assert_eq!(max_col_of(1_000_000), u16::MAX);
}

#[test]
fn status_text_shows_count_prefix_and_padding() {
    assert_eq!(CommandState::default().status_text(), " ".repeat(10));
    let cs = CommandState { number: Some(407), prefix: Prefix::g };
    assert_eq!(cs.status_text(), format!("407g{}", " ".repeat(10)));
    let cs = CommandState { number: Some(u32::MAX), prefix: Prefix::Unset };
    assert_eq!(cs.status_text(), format!("4294967295{}", " ".repeat(10)));
    let cs = CommandState { number: Some(0), prefix: Prefix::z };
    assert_eq!(cs.status_text(), format!("0z{}", " ".repeat(10)));
}

#[test]
fn prefix_labels() {
    assert_eq!(Prefix::g.label(), "g");
    assert_eq!(Prefix::z.label(), "z");
    assert_eq!(Prefix::Unset.label(), "");
}

#[test]
fn position_methods() {
    let mut p = Position::new(2, 5);
    assert_eq!(p.get(), (2, 5));
    p.move_left();
    p.move_up();
    assert_eq!((p.col(), p.row()), (1, 4));
    p.move_right();
    p.move_down();
    assert_eq!(p.get(), (2, 5));
    p.set_col(9);
    p.set_row(0);
    assert_eq!(p.get(), (9, 0));
}
