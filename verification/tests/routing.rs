use remytype::{Action, App, AppMode, Key, TestMode};

#[test]
fn q_quits_from_the_menu_only() {
    let mut app = App::new();
    assert_eq!(app.handle_key_at(Key::Char('q'), 0), Action::Quit);
    assert_eq!(app.mode(), AppMode::Menu);
    assert_eq!(app.handle_key_at(Key::Char('x'), 0), Action::Continue);

    app.handle_key_at(Key::Enter, 1);
    assert_eq!(app.mode(), AppMode::Test);
    assert_eq!(app.handle_key_at(Key::Char('q'), 2), Action::Continue);
    assert_eq!(app.current_input().len(), 1);
    assert_eq!(app.errors(), 1);
}

#[test]
fn enter_on_the_menu_opens_the_item_under_the_cursor() {
    let mut app = App::new();
    app.handle_key_at(Key::Enter, 5);
    assert_eq!(app.mode(), AppMode::Test);
    assert_eq!(app.start_time(), Some(5));

    let mut app = App::new();
    app.handle_key_at(Key::Down, 0);
    app.handle_key_at(Key::Enter, 0);
    assert_eq!(app.mode(), AppMode::Stats);

    let mut app = App::new();
    app.handle_key_at(Key::Down, 0);
    app.handle_key_at(Key::Down, 0);
    app.handle_key_at(Key::Enter, 0);
    assert_eq!(app.mode(), AppMode::Settings);

    let mut app = App::new();
    for _ in 0..3 {
        app.handle_key_at(Key::Down, 0);
    }
    assert_eq!(app.menu_selection(), 3);
    assert_eq!(app.handle_key_at(Key::Enter, 0), Action::Continue);
    assert_eq!(app.mode(), AppMode::Menu);
    app.handle_key_at(Key::Up, 0);
    assert_eq!(app.menu_selection(), 2);
}

#[test]
fn keys_during_an_attempt() {
    let mut app = App::new();
    app.handle_key_at(Key::Enter, 0);
    for c in "thx".chars() {
        app.handle_key_at(Key::Char(c), 1);
    }
    assert_eq!(app.current_pos(), 3);
    assert_eq!(app.errors(), 1);
    app.handle_key_at(Key::Backspace, 2);
    assert_eq!(app.current_pos(), 2);
    assert_eq!(app.errors(), 1);
    for key in [Key::Enter, Key::Up, Key::Down, Key::Left, Key::Right, Key::Other] {
        assert_eq!(app.handle_key_at(key, 3), Action::Continue);
        assert_eq!(app.mode(), AppMode::Test);
        assert_eq!(app.current_pos(), 2);
    }
    app.handle_key_at(Key::Esc, 4);
    assert_eq!(app.mode(), AppMode::Menu);
    assert_eq!(app.current_pos(), 0);
    assert_eq!(app.start_time(), None);
}

#[test]
fn results_and_statistics_return_to_the_menu_on_enter_or_esc() {
    for leave in [Key::Enter, Key::Esc] {
        let mut app = App::new();
        app.start_with_text("a");
        app.handle_key_at(Key::Char('a'), 1);
        assert_eq!(app.mode(), AppMode::Results);
        assert_eq!(app.handle_key_at(Key::Char('q'), 2), Action::Continue);
        assert_eq!(app.handle_key_at(Key::Backspace, 2), Action::Continue);
        assert_eq!(app.mode(), AppMode::Results);
        app.handle_key_at(leave, 3);
        assert_eq!(app.mode(), AppMode::Menu);

        app.open_stats();
        app.handle_key_at(Key::Down, 4);
        assert_eq!(app.mode(), AppMode::Stats);
        assert_eq!(app.menu_selection(), 0);
        app.handle_key_at(leave, 5);
        assert_eq!(app.mode(), AppMode::Menu);
    }
}

#[test]
fn keys_on_the_settings_screen() {
    let mut app = App::new();
    app.open_settings();
    app.handle_key_at(Key::Right, 0);
    assert_eq!(app.settings().test_mode, TestMode::Words);
    app.handle_key_at(Key::Down, 0);
    assert_eq!(app.settings_selection(), 1);
    app.handle_key_at(Key::Right, 0);
    assert_eq!(app.settings().word_count, 60);
    app.handle_key_at(Key::Left, 0);
    app.handle_key_at(Key::Left, 0);
    assert_eq!(app.settings().word_count, 40);
    app.handle_key_at(Key::Up, 0);
    assert_eq!(app.settings_selection(), 0);
    assert_eq!(app.handle_key_at(Key::Char('q'), 0), Action::Continue);
    assert_eq!(app.mode(), AppMode::Settings);
    app.handle_key_at(Key::Enter, 0);
    assert_eq!(app.mode(), AppMode::Menu);
    app.open_settings();
    app.handle_key_at(Key::Esc, 0);
    assert_eq!(app.mode(), AppMode::Menu);
    assert_eq!(app.settings().word_count, 40);
}

#[test]
fn handle_key_reads_the_clock_itself() {
    let mut app = App::new();
    assert_eq!(app.handle_key(Key::Enter), Action::Continue);
    assert_eq!(app.mode(), AppMode::Test);
    assert!(app.start_time().is_some());
    assert_eq!(app.handle_key(Key::Char('t')), Action::Continue);
    assert_eq!(app.current_pos(), 1);
    assert_eq!(app.handle_key(Key::Esc), Action::Continue);
    assert_eq!(app.handle_key(Key::Char('q')), Action::Quit);
}
