use file_explorer::{Action, App, Command, Entry, EntryKind};

fn entry(name: &str, kind: EntryKind) -> Entry {
    Entry::new(name.to_string(), kind)
}

fn abc() -> Vec<Entry> {
    vec![
        entry("a", EntryKind::Other),
        entry("b", EntryKind::Other),
        entry("c", EntryKind::Other),
    ]
}

fn segments(path: &[&str]) -> Vec<String> {
    path.iter().map(|s| s.to_string()).collect()
}

/// Applies a command; a descent or a return is completed with `listing`.
fn press(app: &mut App, command: Command, frame_height: u16, listing: Vec<Entry>) {
    match app.handle_command(command, frame_height) {
        Action::Stay => {}
        Action::EnterDirectory(_) => app.go_into_dir(listing),
        Action::LeaveDirectory(_) => app.go_out_of_dir(listing),
    }
}

fn top_listing() -> Vec<Entry> {
    vec![
        entry("nested_dir", EntryKind::Directory),
        entry("file.txt", EntryKind::File),
    ]
}

#[test]
fn can_exit() {
    let mut app = App::default();
    assert!(!app.exit_requested());

    assert_eq!(app.handle_command(Command::Quit, 0), Action::Stay);
    assert!(app.exit_requested());
}

#[test]
fn can_move_cursor() {
    let mut app = App::new(vec![], abc());
    let frame_height = 6;

    assert_eq!(app.current_cursor_position(), 0);

    app.handle_command(Command::MoveDown, frame_height);
    assert_eq!(app.current_cursor_position(), 1);

    app.handle_command(Command::MoveUp, frame_height);
    assert_eq!(app.current_cursor_position(), 0);
}

#[test]
fn can_cursor_wraps_around_vertically() {
    // a    c
    // b
    let mut app = App::new(vec![], abc());
    let frame_height = 5;

    assert_eq!(app.current_cursor_position(), 0);

    app.handle_command(Command::MoveUp, frame_height);
    assert_eq!(app.current_cursor_position(), 2);

    app.handle_command(Command::MoveDown, frame_height);
    assert_eq!(app.current_cursor_position(), 0);
}

#[test]
fn can_cursor_wraps_around_horizontally() {
    // a    c
    // b
    let mut app = App::new(vec![], abc());
    let frame_height = 5;

    assert_eq!(app.current_cursor_position(), 0);

    app.handle_command(Command::MoveLeft, frame_height);
    assert_eq!(app.current_cursor_position(), 2);

    app.handle_command(Command::MoveRight, frame_height);
    assert_eq!(app.current_cursor_position(), 0);
}

#[test]
fn move_left_into_short_last_column_goes_to_last_entry() {
    let mut app = App::new(vec![], abc());
    app.handle_command(Command::MoveDown, 5);
    assert_eq!(app.current_cursor_position(), 1);
    app.handle_command(Command::MoveLeft, 5);
    assert_eq!(app.current_cursor_position(), 2);
}

#[test]
fn horizontal_moves_need_rows() {
    let mut app = App::new(vec![], abc());
    app.handle_command(Command::MoveDown, 5);
    app.handle_command(Command::MoveRight, 3);
    assert_eq!(app.current_cursor_position(), 1);
    app.handle_command(Command::MoveLeft, 0);
    assert_eq!(app.current_cursor_position(), 1);
}

#[test]
fn new_sorts_listing_and_starts_cursors_at_zero() {
    let app = App::new(segments(&["tmp", "tmp_dir"]), top_listing());
    assert_eq!(app.depth(), 2);
    assert_eq!(app.current_dir_path(), &segments(&["tmp", "tmp_dir"]));
    assert_eq!(
        app.current_dir_contents(),
        &vec![
            entry("file.txt", EntryKind::File),
            entry("nested_dir", EntryKind::Directory),
        ]
    );
    assert_eq!(app.current_cursor_position(), 0);
}

#[test]
fn can_enter_dir() {
    let mut app = App::new(segments(&["tmp_dir"]), top_listing());
    let frame_height = 5;

    assert_eq!(app.current_dir_path(), &segments(&["tmp_dir"]));
    assert_eq!(
        app.current_dir_contents(),
        &vec![
            entry("file.txt", EntryKind::File),
            entry("nested_dir", EntryKind::Directory),
        ]
    );
    assert_eq!(app.current_cursor_position(), 0);

    // The current dir does not change when entering a file is attempted
    assert_eq!(app.handle_command(Command::Activate, frame_height), Action::Stay);
    assert_eq!(app.current_dir_path(), &segments(&["tmp_dir"]));
    assert_eq!(
        app.current_dir_contents(),
        &vec![
            entry("file.txt", EntryKind::File),
            entry("nested_dir", EntryKind::Directory),
        ]
    );
    assert_eq!(app.current_cursor_position(), 0);

    // But it does change when entering a dir
    app.handle_command(Command::MoveDown, frame_height);
    assert_eq!(app.current_cursor_position(), 1);
    assert_eq!(app.current_dir_path(), &segments(&["tmp_dir"]));
    assert_eq!(
        app.handle_command(Command::Activate, frame_height),
        Action::EnterDirectory(segments(&["tmp_dir", "nested_dir"]))
    );
    app.go_into_dir(vec![]);
    assert_eq!(app.current_cursor_position(), 0);
    assert_eq!(app.current_dir_path(), &segments(&["tmp_dir", "nested_dir"]));
}

#[test]
fn can_exit_dir() {
    let nested = vec![
        entry("file_b.txt", EntryKind::File),
        entry("file_a.txt", EntryKind::File),
    ];
    let mut app = App::new(segments(&["tmp_dir", "nested_dir"]), nested);
    let frame_height = 5;
    let nested_sorted = vec![
        entry("file_a.txt", EntryKind::File),
        entry("file_b.txt", EntryKind::File),
    ];

    assert_eq!(app.current_dir_path(), &segments(&["tmp_dir", "nested_dir"]));
    assert_eq!(app.current_dir_contents(), &nested_sorted);
    assert_eq!(app.current_cursor_position(), 0);

    app.handle_command(Command::MoveDown, frame_height);
    assert_eq!(app.current_dir_path(), &segments(&["tmp_dir", "nested_dir"]));
    assert_eq!(app.current_dir_contents(), &nested_sorted);
    assert_eq!(app.current_cursor_position(), 1);

    assert_eq!(
        app.handle_command(Command::Back, frame_height),
        Action::LeaveDirectory(segments(&["tmp_dir"]))
    );
    app.go_out_of_dir(top_listing());
    assert_eq!(app.current_cursor_position(), 0);
    assert_eq!(app.current_dir_path(), &segments(&["tmp_dir"]));
    assert_eq!(
        app.current_dir_contents(),
        &vec![
            entry("file.txt", EntryKind::File),
            entry("nested_dir", EntryKind::Directory),
        ]
    );
}

#[test]
fn back_at_root_is_ignored() {
    let mut app = App::new(vec![], abc());
    assert_eq!(app.handle_command(Command::Back, 5), Action::Stay);
    assert_eq!(app.depth(), 0);
}

#[test]
fn cursor_position_retained_after_entering_then_exiting_dir() {
    let mut app = App::new(segments(&["tmp_dir"]), top_listing());
    let frame_height = 5;

    assert_eq!(app.current_dir_path(), &segments(&["tmp_dir"]));
    assert_eq!(app.current_cursor_position(), 0);

    // Change cursor position to 1
    app.handle_command(Command::MoveDown, frame_height);
    assert_eq!(app.current_cursor_position(), 1);
    assert_eq!(app.current_dir_path(), &segments(&["tmp_dir"]));

    // Entering the directory for the first time starts at 0
    press(&mut app, Command::Activate, frame_height, vec![]);
    assert_eq!(app.current_cursor_position(), 0);
    assert_eq!(app.current_dir_path(), &segments(&["tmp_dir", "nested_dir"]));

    // Exiting the directory restores position 1
    press(&mut app, Command::Back, frame_height, top_listing());
    assert_eq!(app.current_cursor_position(), 1);
    assert_eq!(app.current_dir_path(), &segments(&["tmp_dir"]));
}

#[test]
fn entering_a_new_sub_directory_starts_cursor_position_at_0() {
    let top = || {
        vec![
            entry("nested_dir_1", EntryKind::Directory),
            entry("nested_dir_0", EntryKind::Directory),
        ]
    };
    let first = || {
        vec![
            entry("file_a.txt", EntryKind::File),
            entry("file_b.txt", EntryKind::File),
        ]
    };
    let mut app = App::new(segments(&["tmp_dir"]), top());
    let frame_height = 5;

    assert_eq!(app.current_dir_path(), &segments(&["tmp_dir"]));
    assert_eq!(app.current_cursor_position(), 0);

    // Entering a directory for the first time starts at 0
    press(&mut app, Command::Activate, frame_height, first());
    assert_eq!(app.current_cursor_position(), 0);
    assert_eq!(app.current_dir_path(), &segments(&["tmp_dir", "nested_dir_0"]));

    // This directory's cursor can move
    press(&mut app, Command::MoveDown, frame_height, vec![]);
    assert_eq!(app.current_cursor_position(), 1);

    // Exiting restores the parent's position 0
    press(&mut app, Command::Back, frame_height, top());
    assert_eq!(app.current_cursor_position(), 0);
    assert_eq!(app.current_dir_path(), &segments(&["tmp_dir"]));

    // Move the cursor to the other directory
    press(&mut app, Command::MoveDown, frame_height, vec![]);
    assert_eq!(app.current_cursor_position(), 1);

    // Go into this new directory
    press(&mut app, Command::Activate, frame_height, vec![]);
    assert_eq!(app.current_cursor_position(), 0);
    assert_eq!(app.current_dir_path(), &segments(&["tmp_dir", "nested_dir_1"]));

    // Exiting again restores position 1
    press(&mut app, Command::Back, frame_height, top());
    assert_eq!(app.current_cursor_position(), 1);
    assert_eq!(app.current_dir_path(), &segments(&["tmp_dir"]));

    // The first sub directory starts at 0 again
    press(&mut app, Command::MoveUp, frame_height, vec![]);
    press(&mut app, Command::Activate, frame_height, first());
    assert_eq!(app.current_cursor_position(), 0);
    assert_eq!(app.current_dir_path(), &segments(&["tmp_dir", "nested_dir_0"]));
}

#[test]
fn scenario_vertical_moves_and_descent() {
    let mut app = App::new(segments(&["d"]), top_listing());
    let frame_height = 5; // two rows per column
    assert_eq!(app.current_cursor_position(), 0);
    assert_eq!(app.currently_selected_file(), Some(&entry("file.txt", EntryKind::File)));

    app.handle_command(Command::MoveDown, frame_height);
    assert_eq!(app.current_cursor_position(), 1);
    app.handle_command(Command::MoveDown, frame_height);
    assert_eq!(app.current_cursor_position(), 0);

    app.handle_command(Command::MoveDown, frame_height);
    press(&mut app, Command::Activate, frame_height, vec![entry("inner.txt", EntryKind::File)]);
    assert_eq!(app.current_dir_path(), &segments(&["d", "nested_dir"]));
    assert_eq!(app.current_cursor_position(), 0);

    press(&mut app, Command::Back, frame_height, top_listing());
    assert_eq!(app.current_dir_path(), &segments(&["d"]));
    assert_eq!(app.current_cursor_position(), 1);
}

#[test]
fn scenario_horizontal_moves() {
    let mut app = App::new(vec![], abc());
    let frame_height = 5; // two rows per column
    app.handle_command(Command::MoveRight, frame_height);
    assert_eq!(app.current_cursor_position(), 2);
    app.handle_command(Command::MoveRight, frame_height);
    assert_eq!(app.current_cursor_position(), 0);
}

#[test]
fn down_then_up_returns_to_start() {
    let five = vec![
        entry("a", EntryKind::File),
        entry("b", EntryKind::File),
        entry("c", EntryKind::File),
        entry("d", EntryKind::File),
        entry("e", EntryKind::File),
    ];
    let mut app = App::new(vec![], five);
    for start in 0..5 {
        while app.current_cursor_position() != start {
            app.handle_command(Command::MoveDown, 10);
        }
        app.handle_command(Command::MoveDown, 10);
        let expected_down = if start == 4 { 0 } else { start + 1 };
        assert_eq!(app.current_cursor_position(), expected_down);
        app.handle_command(Command::MoveUp, 10);
        assert_eq!(app.current_cursor_position(), start);
    }
}

#[test]
fn enter_then_exit_restores_state() {
    let deep = vec![entry("x", EntryKind::Directory), entry("y", EntryKind::Directory)];
    let mut app = App::new(segments(&["r"]), deep.clone());
    press(&mut app, Command::MoveDown, 5, vec![]);
    press(&mut app, Command::Activate, 5, abc());
    press(&mut app, Command::MoveDown, 5, vec![]);
    press(&mut app, Command::Back, 5, deep);
    assert_eq!(app.current_dir_path(), &segments(&["r"]));
    assert_eq!(app.current_cursor_position(), 1);
}

#[test]
fn shorter_parent_listing_keeps_cursor_on_an_entry() {
    let mut app = App::new(segments(&["r"]), abc_dirs());
    press(&mut app, Command::MoveUp, 5, vec![]);
    assert_eq!(app.current_cursor_position(), 2);
    press(&mut app, Command::Activate, 5, vec![]);
    press(&mut app, Command::Back, 5, vec![entry("a", EntryKind::Directory)]);
    assert_eq!(app.current_cursor_position(), 0);
}

fn abc_dirs() -> Vec<Entry> {
    vec![
        entry("a", EntryKind::Directory),
        entry("b", EntryKind::Directory),
        entry("c", EntryKind::Directory),
    ]
}

#[test]
fn empty_directory_ignores_moves_and_selection() {
    let mut app = App::new(segments(&["r"]), vec![]);
    for command in [
        Command::MoveUp,
        Command::MoveDown,
        Command::MoveLeft,
        Command::MoveRight,
        Command::Activate,
        Command::TogglePreview,
    ] {
        assert_eq!(app.handle_command(command, 10), Action::Stay);
        assert_eq!(app.current_cursor_position(), 0);
    }
    assert_eq!(app.currently_selected_file(), None);
    assert!(!app.currently_on_dir());
    assert!(!app.currently_on_file());
    assert!(!app.preview_shown());
}

#[test]
fn preview_toggles_only_over_a_file_or_when_shown() {
    let mut app = App::new(vec![], top_listing());
    app.handle_command(Command::MoveDown, 10);
    assert!(app.currently_on_dir());
    app.handle_command(Command::TogglePreview, 10);
    assert!(!app.preview_shown());
    app.handle_command(Command::MoveUp, 10);
    assert!(app.currently_on_file());
    app.handle_command(Command::TogglePreview, 10);
    assert!(app.preview_shown());
    app.handle_command(Command::MoveDown, 10);
    app.handle_command(Command::TogglePreview, 10);
    assert!(!app.preview_shown());
}

#[test]
fn cursor_column_and_row() {
    let mut app = App::new(vec![], abc());
    app.handle_command(Command::MoveUp, 5);
    assert_eq!(app.current_cursor_column_and_row(2), (1, 0));
    let view = app.directory_view(2);
    let columns = view.formatted_columns(2);
    assert_eq!(columns[1][0].text, "> c");
    assert_eq!(columns[0][0].text, "  a");
}

#[test]
fn app_default_render_single_column() {
    // A frame of 5 rows leaves 2 for entries.
    let app = App::new(segments(&["tmp", "tmp_dir"]), top_listing());
    let view = app.directory_view(2);
    let columns = view.formatted_columns(2);
    let texts: Vec<Vec<String>> =
        columns.iter().map(|c| c.iter().map(|l| l.text.clone()).collect()).collect();
    assert_eq!(texts, vec![vec!["> file.txt", "  nested_dir"]]);
    assert_eq!(columns[0][0].kind, EntryKind::File);
    assert_eq!(columns[0][1].kind, EntryKind::Directory);
}

#[test]
fn app_default_render_multiple_columns() {
    let mut listing = top_listing();
    listing.push(entry("zzz.txt", EntryKind::File));
    let app = App::new(segments(&["tmp", "tmp_dir"]), listing);
    let view = app.directory_view(2);
    let columns = view.formatted_columns(2);
    let texts: Vec<Vec<String>> =
        columns.iter().map(|c| c.iter().map(|l| l.text.clone()).collect()).collect();
    assert_eq!(texts, vec![vec!["> file.txt", "  nested_dir"], vec!["  zzz.txt"]]);
    let split = app.get_dir_contents_as_columns(2);
    assert_eq!(split.len(), 2);
    assert_eq!(split[1], vec![entry("zzz.txt", EntryKind::File)]);
}

#[test]
fn empty_directory_keeps_an_open_preview() {
    let mut app = App::new(segments(&["r"]), top_listing());
    app.handle_command(Command::TogglePreview, 10);
    assert!(app.preview_shown());
    app.handle_command(Command::MoveDown, 10);
    press(&mut app, Command::Activate, 10, vec![]);
    assert_eq!(app.current_dir_path(), &segments(&["r", "nested_dir"]));
    assert!(app.preview_shown());
    assert_eq!(app.handle_command(Command::TogglePreview, 10), Action::Stay);
    assert!(app.preview_shown());
}
