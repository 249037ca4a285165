use gitdash::App;
use gitdash::Focus;
use gitdash::GitError;
use gitdash::events::Key;
use gitdash::events::KeyEvent;
use gitdash::events::handle_key_event;

fn sample_app() -> App {
    App {
        should_quit: false,
        current_focus: Focus::Branches,
        branches: vec![
            "* main".to_string(),
            "  dev".to_string(),
            "  feature/ui".to_string(),
        ],
        commits: vec![
            "a1b2c3d - first".to_string(),
            "e5f6g7h - second".to_string(),
        ],
        staged_files: vec!["src/lib.rs".to_string()],
        branch_idx: 0,
        commit_idx: 0,
        staged_idx: 0,
    }
}

#[test]
fn new_starts_at_top_with_branch_focus() {
    let app = App::new();
    assert!(!app.should_quit);
    assert_eq!(app.current_focus, Focus::Branches);
    assert_eq!(app.branch_idx, 0);
    assert_eq!(app.commit_idx, 0);
    assert_eq!(app.staged_idx, 0);
    assert!(app.commits.len() <= 20);
}

#[test]
fn focus_rotates_forward_in_a_three_cycle() {
    let mut app = sample_app();
    app.on_right();
    assert_eq!(app.current_focus, Focus::Commits);
    app.on_right();
    assert_eq!(app.current_focus, Focus::Staged);
    app.on_right();
    assert_eq!(app.current_focus, Focus::Branches);
}

#[test]
fn focus_rotates_backward_as_the_inverse() {
    for start in [Focus::Branches, Focus::Commits, Focus::Staged] {
        let mut app = sample_app();
        app.current_focus = start.clone();
        app.on_right();
        app.on_left();
        assert_eq!(app.current_focus, start);
        app.on_left();
        app.on_right();
        assert_eq!(app.current_focus, start);
    }
}

#[test]
fn rotation_leaves_cursors_and_lists_alone() {
    let mut app = sample_app();
    app.commit_idx = 1;
    app.on_right();
    app.on_left();
    assert_eq!(app.branch_idx, 0);
    assert_eq!(app.commit_idx, 1);
    assert_eq!(app.staged_idx, 0);
    assert_eq!(app.branches.len(), 3);
    assert_eq!(app.commits.len(), 2);
}

#[test]
fn commit_cursor_clamps_at_both_ends() {
    let mut app = sample_app();
    app.current_focus = Focus::Commits;
    for _ in 0..10 {
        app.on_up();
        assert_eq!(app.commit_idx, 0);
    }
    for _ in 0..10 {
        app.on_down();
        assert!(app.commit_idx < app.commits.len());
    }
    assert_eq!(app.commit_idx, 1);
}

#[test]
fn staged_cursor_stays_at_zero_when_list_has_one_entry() {
    let mut app = sample_app();
    app.current_focus = Focus::Staged;
    app.on_down();
    assert_eq!(app.staged_idx, 0);
    app.on_up();
    assert_eq!(app.staged_idx, 0);
}

#[test]
fn cursor_ops_on_empty_lists_stay_at_zero() {
    let mut app = sample_app();
    app.branches = Vec::new();
    app.commits = Vec::new();
    app.staged_files = Vec::new();
    for focus in [Focus::Branches, Focus::Commits, Focus::Staged] {
        app.current_focus = focus;
        app.on_down();
        app.on_up();
        assert_eq!(app.branch_idx, 0);
        assert_eq!(app.commit_idx, 0);
        assert_eq!(app.staged_idx, 0);
    }
}

#[test]
fn a_failed_up_move_on_branches_changes_nothing() {
    let mut app = sample_app();
    app.on_up();
    assert_eq!(app.branch_idx, 0);
    assert_eq!(
        app.commits,
        vec!["a1b2c3d - first", "e5f6g7h - second"]
    );
    assert_eq!(app.commit_idx, 0);
    assert_eq!(app.current_focus, Focus::Branches);
}

#[test]
fn branch_cursor_walks_down_and_clamps() {
    let mut app = sample_app();
    app.on_down();
    app.on_down();
    assert_eq!(app.branch_idx, 2);
    app.on_down();
    assert_eq!(app.branch_idx, 2);
    app.on_up();
    assert_eq!(app.branch_idx, 1);
}

#[test]
fn applying_a_fetched_list_resets_the_commit_cursor() {
    let mut app = sample_app();
    app.commit_idx = 1;
    let fetched = vec![
        "1111111 - one".to_string(),
        "2222222 - two".to_string(),
        "3333333 - three".to_string(),
    ];
    app.apply_fetched_commits(Ok(fetched.clone()));
    assert_eq!(app.commit_idx, 0);
    assert_eq!(app.commits, fetched);
}

#[test]
fn a_failed_refresh_changes_nothing() {
    let mut app = sample_app();
    app.commit_idx = 1;
    let before = app.commits.clone();
    app.apply_fetched_commits(Err(GitError::Resolve));
    assert_eq!(app.commit_idx, 1);
    assert_eq!(app.commits, before);
    app.apply_fetched_commits(Err(GitError::Open));
    assert_eq!(app.commit_idx, 1);
    assert_eq!(app.commits, before);
}

#[test]
fn fallback_dataset_is_the_fixed_placeholder() {
    let app = App::from_query(Err(GitError::Open));
    assert_eq!(app.branches, vec!["* main", "  dev", "  feature/ui"]);
    assert_eq!(
        app.commits,
        vec!["a1b2c3d - Mock Commit 1", "e5f6g7h - Mock Commit 2"]
    );
    assert_eq!(app.staged_files, vec!["src/main.rs", "Cargo.toml"]);
    assert_eq!(app.current_focus, Focus::Branches);
    assert!(!app.should_quit);
}

#[test]
fn successful_query_is_taken_as_is() {
    let info = gitdash::GitInfo {
        branches: vec!["* trunk".to_string()],
        commits: vec!["abcdef0 - seed".to_string()],
        staged: vec!["README.md".to_string()],
    };
    let app = App::from_query(Ok(info));
    assert_eq!(app.branches, vec!["* trunk"]);
    assert_eq!(app.commits, vec!["abcdef0 - seed"]);
    assert_eq!(app.staged_files, vec!["README.md"]);
}

#[test]
fn control_c_raises_the_termination_flag() {
    let mut app = sample_app();
    handle_key_event(KeyEvent { code: Key::Char('c'), ctrl: true }, &mut app);
    assert!(app.should_quit);
    assert_eq!(app.current_focus, Focus::Branches);
    assert_eq!(app.branch_idx, 0);
}

#[test]
fn plain_c_is_ignored() {
    let mut app = sample_app();
    handle_key_event(KeyEvent { code: Key::Char('c'), ctrl: false }, &mut app);
    assert!(!app.should_quit);
    assert_eq!(app.current_focus, Focus::Branches);
}

#[test]
fn navigation_keys_drive_focus_and_cursors() {
    let mut app = sample_app();
    handle_key_event(KeyEvent { code: Key::Char('l'), ctrl: false }, &mut app);
    assert_eq!(app.current_focus, Focus::Commits);
    handle_key_event(KeyEvent { code: Key::Char('j'), ctrl: false }, &mut app);
    assert_eq!(app.commit_idx, 1);
    handle_key_event(KeyEvent { code: Key::Char('k'), ctrl: false }, &mut app);
    assert_eq!(app.commit_idx, 0);
    handle_key_event(KeyEvent { code: Key::Char('h'), ctrl: false }, &mut app);
    assert_eq!(app.current_focus, Focus::Branches);
    handle_key_event(KeyEvent { code: Key::Left, ctrl: false }, &mut app);
    assert_eq!(app.current_focus, Focus::Staged);
    handle_key_event(KeyEvent { code: Key::Right, ctrl: false }, &mut app);
    assert_eq!(app.current_focus, Focus::Branches);
}

#[test]
fn arrow_keys_move_the_focused_cursor() {
    let mut app = sample_app();
    app.current_focus = Focus::Commits;
    handle_key_event(KeyEvent { code: Key::Down, ctrl: false }, &mut app);
    assert_eq!(app.commit_idx, 1);
    handle_key_event(KeyEvent { code: Key::Up, ctrl: false }, &mut app);
    assert_eq!(app.commit_idx, 0);
}

#[test]
fn enter_and_unbound_keys_change_nothing() {
    let mut app = sample_app();
    app.commit_idx = 1;
    handle_key_event(KeyEvent { code: Key::Enter, ctrl: false }, &mut app);
    assert_eq!(app.current_focus, Focus::Branches);
    assert_eq!(app.commit_idx, 1);
    assert!(!app.should_quit);
    handle_key_event(KeyEvent { code: Key::Char('x'), ctrl: false }, &mut app);
    handle_key_event(KeyEvent { code: Key::Other, ctrl: false }, &mut app);
    assert_eq!(app.current_focus, Focus::Branches);
    assert_eq!(app.commit_idx, 1);
    assert!(!app.should_quit);
}
