use git_tui::action::Action;
use git_tui::ansi::Color;
use git_tui::getstatus::GitFile;
use git_tui::getstatus::INDEX_MODIFIED;
use git_tui::getstatus::StatusEntry;
use git_tui::getstatus::TypeStaged;
use git_tui::getstatus::WT_MODIFIED;
use git_tui::getstatus::WT_NEW;
use git_tui::getstatus::get_files;
use git_tui::keys::Key;
use git_tui::keys::KeyInput;
use git_tui::status_tab::StatusBlocks;
use git_tui::status_tab::StatusTab;
use git_tui::status_tab::file_rows;
use git_tui::status_tab::pane_title;

fn entry(path: &str, bits: u32) -> StatusEntry {
    StatusEntry { path: path.to_string(), bits }
}

fn plain_key(code: Key) -> KeyInput {
    KeyInput { code, ctrl: false }
}

#[test]
fn modified_and_new_files_list_in_provider_order() {
    let entries = vec![entry("a.txt", WT_MODIFIED), entry("b.txt", WT_NEW)];
    let unstaged = get_files(&entries, TypeStaged::Unstaged);
    assert_eq!(unstaged.len(), 2);
    assert_eq!(unstaged[0].filename, "a.txt");
    assert_eq!(unstaged[0].status, 'm');
    assert_eq!(unstaged[1].filename, "b.txt");
    assert_eq!(unstaged[1].status, 'n');
    let staged = get_files(&entries, TypeStaged::Staged);
    assert_eq!(staged.len(), 0);
}

#[test]
fn staging_a_file_moves_it_between_panes() {
    let before = vec![entry("a.txt", WT_MODIFIED), entry("b.txt", WT_NEW)];
    let after = vec![entry("a.txt", INDEX_MODIFIED), entry("b.txt", WT_NEW)];
    let unstaged = get_files(&after, TypeStaged::Unstaged);
    assert_eq!(unstaged.len(), 1);
    assert_eq!(unstaged[0].filename, "b.txt");
    let staged = get_files(&after, TypeStaged::Staged);
    assert_eq!(staged.len(), 1);
    assert_eq!(staged[0].filename, "a.txt");
    assert_eq!(staged[0].status, 'm');
    assert_eq!(get_files(&before, TypeStaged::Staged).len(), 0);
}

#[test]
fn typechange_entries_are_not_listed() {
    let entries = vec![entry("t.bin", 1024)];
    assert_eq!(get_files(&entries, TypeStaged::Unstaged).len(), 0);
}

#[test]
fn scroll_down_is_clamped_to_list_length() {
    let mut t = StatusTab::new();
    t.set_counts(2, 0);
    assert_eq!(t.focused_block, StatusBlocks::Unstaged);
    t.scroll_down();
    assert_eq!(t.line_in_folder_unstaged, 1);
    t.scroll_down();
    t.scroll_down();
    assert_eq!(t.line_in_folder_unstaged, 1);
}

#[test]
fn scroll_up_stops_at_zero() {
    let mut t = StatusTab::new();
    t.set_counts(3, 0);
    t.scroll_up();
    assert_eq!(t.line_in_folder_unstaged, 0);
    t.scroll_down();
    t.scroll_up();
    t.scroll_up();
    assert_eq!(t.line_in_folder_unstaged, 0);
}

#[test]
fn scroll_on_empty_list_keeps_offset_zero() {
    let mut t = StatusTab::new();
    t.set_counts(0, 0);
    t.scroll_down();
    assert_eq!(t.line_in_folder_unstaged, 0);
    t.scroll_up();
    assert_eq!(t.line_in_folder_unstaged, 0);
}

#[test]
fn set_counts_pulls_offsets_back_into_shrunken_lists() {
    let mut t = StatusTab::new();
    t.set_counts(5, 5);
    for _ in 0..4 {
        t.scroll_down();
    }
    assert_eq!(t.line_in_folder_unstaged, 4);
    t.set_counts(2, 0);
    assert_eq!(t.line_in_folder_unstaged, 1);
    assert_eq!(t.line_in_folder_staged, 0);
}

#[test]
fn focus_steps_follow_the_pane_graph() {
    let mut t = StatusTab::new();
    t.change_block(Key::Right);
    assert_eq!(t.focused_block, StatusBlocks::Diff);
    t.change_block(Key::Left);
    assert_eq!(t.focused_block, StatusBlocks::Unstaged);
    t.change_block(Key::Down);
    assert_eq!(t.focused_block, StatusBlocks::Staged);
    t.change_block(Key::Up);
    assert_eq!(t.focused_block, StatusBlocks::Unstaged);
    t.change_block(Key::Up);
    assert_eq!(t.focused_block, StatusBlocks::Unstaged);
}

#[test]
fn selected_path_is_clamped_and_remembered() {
    let mut t = StatusTab::new();
    let files = vec![
        GitFile { filename: "one".to_string(), status: 'm' },
        GitFile { filename: "two".to_string(), status: 'n' },
    ];
    assert_eq!(t.get_selected_file_path(&files, 1), "two");
    assert_eq!(t.filepath_diff, "two");
    assert_eq!(t.get_selected_file_path(&files, 9), "two");
    let none: Vec<GitFile> = Vec::new();
    assert_eq!(t.get_selected_file_path(&none, 0), "");
    assert_eq!(t.filepath_diff, "two");
}

#[test]
fn stage_key_requests_the_selected_file() {
    let mut t = StatusTab::new();
    let files = vec![
        GitFile { filename: "one".to_string(), status: 'm' },
        GitFile { filename: "two".to_string(), status: 'n' },
    ];
    let staged: Vec<GitFile> = Vec::new();
    t.set_counts(2, 0);
    t.scroll_down();
    match t.handle_key_event(plain_key(Key::Char('s')), &files, &staged) {
        Action::StageFile(p) => assert_eq!(p, "two"),
        _ => panic!("expected a stage request"),
    }
    assert_eq!(t.line_in_folder_unstaged, 0);
}

#[test]
fn restore_key_on_empty_pane_requests_nothing() {
    let mut t = StatusTab::new();
    let files: Vec<GitFile> = Vec::new();
    match t.handle_key_event(plain_key(Key::Char('r')), &files, &files) {
        Action::Nothing => {},
        _ => panic!("expected no request"),
    }
}

#[test]
fn file_rows_carry_code_path_and_color() {
    let files = vec![
        GitFile { filename: "a.txt".to_string(), status: 'm' },
        GitFile { filename: "b.txt".to_string(), status: 'd' },
        GitFile { filename: "c.txt".to_string(), status: 'n' },
    ];
    let rows = file_rows(&files, 1, false, "No unstaged changes");
    assert_eq!(rows.len(), 2);
    assert_eq!(rows[0].content, "d b.txt");
    assert_eq!(rows[0].style.fg, Some(Color::Red));
    assert_eq!(rows[1].content, "n c.txt");
    assert_eq!(rows[1].style.fg, Some(Color::Green));
}

#[test]
fn empty_pane_shows_placeholder_row() {
    let files: Vec<GitFile> = Vec::new();
    let rows = file_rows(&files, 0, false, "No staged changes");
    assert_eq!(rows.len(), 1);
    assert_eq!(rows[0].content, "No staged changes");
    assert_eq!(rows[0].style.fg, None);
}

#[test]
fn focused_pane_highlights_its_first_row() {
    let files = vec![GitFile { filename: "a".to_string(), status: 'm' }];
    let rows = file_rows(&files, 0, true, "empty");
    assert_eq!(rows[0].style.bg, Some(Color::DarkGray));
}

#[test]
fn pane_title_carries_the_count() {
    assert_eq!(pane_title("Unstaged", 3), "Unstaged (3)");
    assert_eq!(pane_title("Staged", 0), "Staged (0)");
}
