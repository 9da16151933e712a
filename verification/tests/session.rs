use remytype::{App, AppMode, Settings, TestMode};

const SECOND: u64 = 1_000_000_000;

fn settings(test_mode: TestMode, word_count: usize, time_limit: u64) -> Settings {
    Settings {
        test_mode,
        word_count,
        time_limit,
        language: String::from("english_200"),
        lines_to_display: 3,
    }
}

fn typed(app: &App) -> String {
    app.current_input().iter().collect()
}

fn feed(app: &mut App, text: &str, now: u64) {
    for c in text.chars() {
        app.type_char_at(c, now);
    }
}

#[test]
fn new_app_is_idle_at_the_menu() {
    let app = App::new();
    assert_eq!(app.mode(), AppMode::Menu);
    assert_eq!(app.menu_selection(), 0);
    assert_eq!(app.settings_selection(), 0);
    let text: String = app.test_text().iter().collect();
    assert_eq!(text, "the quick brown fox jumps over the lazy dog");
    assert_eq!(typed(&app), "");
    assert_eq!(app.current_pos(), 0);
    assert_eq!(app.start_time(), None);
    assert_eq!(app.end_time(), None);
    assert_eq!(app.errors(), 0);
    assert_eq!(app.wpm(), 0);
    assert_eq!(app.accuracy(), 0);
    assert_eq!(app.user_stats().total_tests, 0);
    assert_eq!(app.settings().word_count, 50);
}

#[test]
fn cursor_equals_input_length_after_every_operation() {
    let mut app = App::with_settings(settings(TestMode::Time, 50, 30));
    let check = |app: &App| {
        assert_eq!(app.current_pos(), app.current_input().len());
        assert!(app.current_input().len() <= app.test_text().len());
    };
    check(&app);
    app.backspace();
    check(&app);
    app.type_char_at('x', 0);
    check(&app);
    app.start_with_text("hello world");
    check(&app);
    for (i, c) in "hexlo".chars().enumerate() {
        app.type_char_at(c, i as u64);
        check(&app);
    }
    app.backspace();
    check(&app);
    app.backspace();
    check(&app);
    app.type_char_at('l', 9);
    check(&app);
    app.start_test_at(10);
    check(&app);
    feed(&mut app, "hello world", 11);
    check(&app);
    assert_eq!(app.mode(), AppMode::Results);
    app.type_char_at('!', 12);
    check(&app);
    app.backspace();
    check(&app);
    app.return_to_menu();
    check(&app);
    app.open_settings();
    app.modify_setting(true);
    check(&app);
}

#[test]
fn errors_never_drop_and_survive_backspace() {
    let mut app = App::with_settings(settings(TestMode::Time, 50, 30));
    app.start_with_text("abcdef");
    let mut last = app.errors();
    let keys = ['a', 'x', '\u{8}', 'y', '\u{8}', 'b', 'z', '\u{8}', '\u{8}', 'q'];
    for (i, key) in keys.iter().enumerate() {
        if *key == '\u{8}' {
            let before = app.errors();
            app.backspace();
            assert_eq!(app.errors(), before);
        } else {
            app.type_char_at(*key, i as u64);
        }
        assert!(app.errors() >= last);
        last = app.errors();
    }
    assert_eq!(app.errors(), 4);
    assert_eq!(typed(&app), "aq");
    app.return_to_menu();
    assert_eq!(app.errors(), 4);
}

#[test]
fn start_resets_whatever_came_before() {
    let mut app = App::with_settings(settings(TestMode::Time, 50, 30));
    app.start_with_text("cat");
    feed(&mut app, "cxt", 5);
    assert_eq!(app.mode(), AppMode::Results);
    assert_eq!(app.errors(), 1);
    app.start_test_at(7 * SECOND);
    assert_eq!(app.mode(), AppMode::Test);
    assert_eq!(typed(&app), "");
    assert_eq!(app.current_pos(), 0);
    assert_eq!(app.errors(), 0);
    assert_eq!(app.start_time(), Some(7 * SECOND));
    assert_eq!(app.end_time(), None);
    let text: String = app.test_text().iter().collect();
    assert_eq!(text, "cat");

    app.type_char_at('x', 8 * SECOND);
    assert_eq!(app.errors(), 1);
    app.start_with_text("dog");
    assert_eq!(typed(&app), "");
    assert_eq!(app.current_pos(), 0);
    assert_eq!(app.errors(), 0);
    assert_eq!(app.start_time(), None);
    assert_eq!(app.end_time(), None);
    assert_eq!(app.mode(), AppMode::Test);
}

#[test]
fn start_keeps_the_result_of_the_last_attempt_until_the_next_finish() {
    let mut app = App::with_settings(settings(TestMode::Time, 50, 30));
    app.start_with_text("cat");
    feed(&mut app, "cbt", 5);
    let accuracy = app.accuracy();
    assert_eq!(accuracy, 66_666);
    app.return_to_menu();
    assert_eq!(app.accuracy(), accuracy);
    assert_eq!(app.start_time(), None);
    assert_eq!(app.end_time(), None);
    assert_eq!(typed(&app), "");
    app.start_test_at(9);
    assert_eq!(app.accuracy(), accuracy);
}

#[test]
fn words_mode_finishes_with_the_third_word() {
    let mut app = App::with_settings(settings(TestMode::Words, 3, 30));
    app.start_with_text("one two three four five");
    feed(&mut app, "one two ", SECOND);
    assert_eq!(app.mode(), AppMode::Test);
    assert_eq!(typed(&app), "one two ");
    app.type_char_at('t', 2 * SECOND);
    assert_eq!(app.mode(), AppMode::Results);
    assert_eq!(typed(&app), "one two t");
    assert_eq!(app.end_time(), Some(2 * SECOND));
}

#[test]
fn words_mode_is_finished_after_one_two_three_and_a_space() {
    let mut app = App::with_settings(settings(TestMode::Words, 3, 30));
    app.start_with_text("one two three four five");
    feed(&mut app, "one two three ", SECOND);
    assert_eq!(app.mode(), AppMode::Results);
    let before = typed(&app);
    app.type_char_at('f', 2 * SECOND);
    assert_eq!(typed(&app), before);
    assert_eq!(app.mode(), AppMode::Results);
    assert_eq!(app.user_stats().total_tests, 1);
    assert_eq!(app.user_stats().total_words_typed, 3);
}

#[test]
fn words_mode_counts_typed_words_not_target_words() {
    let mut app = App::with_settings(settings(TestMode::Words, 2, 30));
    app.start_with_text("abcdefgh");
    feed(&mut app, "a ", 0);
    assert_eq!(app.mode(), AppMode::Test);
    assert_eq!(app.errors(), 1);
    app.type_char_at('c', SECOND);
    assert_eq!(app.mode(), AppMode::Results);
    assert_eq!(app.user_stats().total_words_typed, 2);
}

#[test]
fn time_limit_zero_finishes_before_the_first_character() {
    let mut app = App::with_settings(settings(TestMode::Time, 50, 0));
    app.start_with_text("cat");
    app.type_char_at('c', 42);
    assert_eq!(app.mode(), AppMode::Results);
    assert_eq!(typed(&app), "");
    assert_eq!(app.current_pos(), 0);
    assert_eq!(app.errors(), 0);
    assert_eq!(app.start_time(), Some(42));
    assert_eq!(app.end_time(), Some(42));
    assert_eq!(app.wpm(), 0);
    assert_eq!(app.accuracy(), 0);
    assert_eq!(app.user_stats().total_tests, 1);
    assert_eq!(app.user_stats().total_words_typed, 0);
}

#[test]
fn time_limit_is_checked_before_the_character_is_accepted() {
    let mut app = App::with_settings(settings(TestMode::Time, 50, 15));
    app.start_with_text("hello world");
    app.start_test_at(SECOND);
    app.type_char_at('h', 2 * SECOND);
    // One nanosecond short of the limit: still accepted.
    app.type_char_at('e', 16 * SECOND - 1);
    assert_eq!(app.mode(), AppMode::Test);
    assert_eq!(typed(&app), "he");
    // At the limit: the keystroke is discarded and the attempt ends.
    app.type_char_at('l', 16 * SECOND);
    assert_eq!(app.mode(), AppMode::Results);
    assert_eq!(typed(&app), "he");
    assert_eq!(app.end_time(), Some(16 * SECOND));
    assert_eq!(app.user_stats().total_time_seconds, 15);
    // 1 word in a quarter of a minute.
    assert_eq!(app.wpm(), 4_000);
    assert_eq!(app.accuracy(), 100_000);
}

#[test]
fn time_mode_ignores_the_word_count() {
    let mut app = App::with_settings(settings(TestMode::Time, 1, 30));
    app.start_with_text("a b c d");
    feed(&mut app, "a b c", SECOND);
    assert_eq!(app.mode(), AppMode::Test);
    feed(&mut app, " d", 2 * SECOND);
    assert_eq!(app.mode(), AppMode::Results);
}

#[test]
fn cat_typed_as_cbt_has_one_error_and_two_thirds_accuracy() {
    let mut app = App::with_settings(settings(TestMode::Time, 50, 30));
    app.start_with_text("cat");
    app.start_test_at(0);
    feed(&mut app, "cbt", 6 * SECOND);
    assert_eq!(app.errors(), 1);
    assert_eq!(app.mode(), AppMode::Results);
    assert_eq!(app.accuracy(), 66_666);
    let percent = app.accuracy() as f64 / 1000.0;
    assert!((percent - 66.7).abs() < 0.05);
    // One word in a tenth of a minute.
    assert_eq!(app.wpm(), 10_000);
    assert_eq!(app.user_stats().total_tests, 1);
    assert_eq!(app.user_stats().average_wpm, 10_000);
    assert_eq!(app.user_stats().best_wpm, 10_000);
    assert_eq!(app.user_stats().average_accuracy, 66_666);
    assert_eq!(app.user_stats().total_words_typed, 1);
    assert_eq!(app.user_stats().total_time_seconds, 6);
}

#[test]
fn timer_starts_with_the_first_keystroke_and_is_not_armed_twice() {
    let mut app = App::with_settings(settings(TestMode::Time, 50, 30));
    app.start_with_text("hello");
    assert_eq!(app.start_time(), None);
    assert_eq!(app.elapsed_seconds_at(5 * SECOND), None);
    app.type_char_at('h', 5 * SECOND);
    assert_eq!(app.start_time(), Some(5 * SECOND));
    app.type_char_at('e', 6 * SECOND);
    assert_eq!(app.start_time(), Some(5 * SECOND));
    assert_eq!(app.elapsed_seconds_at(8 * SECOND + 999_999_999), Some(3));
    assert_eq!(app.elapsed_seconds_at(SECOND), Some(0));
}

#[test]
fn finish_within_the_same_instant_has_speed_zero() {
    let mut app = App::with_settings(settings(TestMode::Time, 50, 30));
    app.start_with_text("a");
    app.type_char_at('a', 77);
    assert_eq!(app.mode(), AppMode::Results);
    assert_eq!(app.wpm(), 0);
    assert_eq!(app.accuracy(), 100_000);
    assert_eq!(app.user_stats().total_time_seconds, 0);
}

#[test]
fn a_clock_reading_before_the_start_counts_as_no_time() {
    let mut app = App::with_settings(settings(TestMode::Time, 50, 30));
    app.start_with_text("ab");
    app.start_test_at(10 * SECOND);
    feed(&mut app, "ab", 3 * SECOND);
    assert_eq!(app.mode(), AppMode::Results);
    assert_eq!(app.wpm(), 0);
    assert_eq!(app.user_stats().total_time_seconds, 0);
}

#[test]
fn more_errors_than_characters_give_accuracy_zero() {
    let mut app = App::with_settings(settings(TestMode::Time, 50, 30));
    app.start_with_text("a");
    app.type_char_at('x', 0);
    assert_eq!(app.mode(), AppMode::Results);
    assert_eq!(app.accuracy(), 0);

    app.start_with_text("ab");
    app.type_char_at('x', 0);
    app.backspace();
    app.type_char_at('y', 0);
    app.backspace();
    app.type_char_at('z', 0);
    app.type_char_at('b', SECOND);
    assert_eq!(app.errors(), 3);
    assert_eq!(app.mode(), AppMode::Results);
    assert_eq!(app.accuracy(), 0);
}

#[test]
fn keystrokes_outside_a_running_attempt_change_nothing() {
    let mut app = App::new();
    app.type_char_at('t', 5);
    app.backspace();
    assert_eq!(app.mode(), AppMode::Menu);
    assert_eq!(typed(&app), "");
    assert_eq!(app.start_time(), None);
    assert_eq!(app.errors(), 0);

    app.start_with_text("ab");
    feed(&mut app, "ab", 5);
    assert_eq!(app.mode(), AppMode::Results);
    let stats = *app.user_stats();
    app.type_char_at('c', 6);
    app.backspace();
    assert_eq!(typed(&app), "ab");
    assert_eq!(app.current_pos(), 2);
    assert_eq!(app.end_time(), Some(5));
    assert_eq!(*app.user_stats(), stats);
}

#[test]
fn keystroke_on_an_empty_text_is_dropped() {
    let mut app = App::with_settings(settings(TestMode::Words, 50, 30));
    app.start_with_text("");
    app.type_char_at('a', 3);
    assert_eq!(app.mode(), AppMode::Test);
    assert_eq!(typed(&app), "");
    assert_eq!(app.current_pos(), 0);
    assert_eq!(app.errors(), 0);
    assert_eq!(app.end_time(), None);
    assert_eq!(app.user_stats().total_tests, 0);
}

#[test]
fn backspace_at_the_start_does_nothing() {
    let mut app = App::new();
    app.start_with_text("abc");
    app.backspace();
    assert_eq!(app.current_pos(), 0);
    assert_eq!(typed(&app), "");
    app.type_char_at('a', 0);
    app.type_char_at('b', 0);
    app.backspace();
    assert_eq!(app.current_pos(), 1);
    assert_eq!(typed(&app), "a");
}

#[test]
fn reaching_the_end_of_the_text_finishes_in_either_mode() {
    for mode in [TestMode::Words, TestMode::Time] {
        let mut app = App::with_settings(settings(mode, 50, 300));
        app.start_with_text("to be");
        feed(&mut app, "to b", SECOND);
        assert_eq!(app.mode(), AppMode::Test);
        app.type_char_at('e', 2 * SECOND);
        assert_eq!(app.mode(), AppMode::Results);
        assert_eq!(app.current_pos(), 5);
    }
}

#[test]
fn positions_count_characters_not_bytes() {
    let mut app = App::with_settings(settings(TestMode::Time, 50, 30));
    app.start_with_text("h\u{e9}llo \u{4e16}\u{754c}");
    assert_eq!(app.test_text().len(), 8);
    feed(&mut app, "h\u{e9}llo \u{4e16}", SECOND);
    assert_eq!(app.current_pos(), 7);
    assert_eq!(app.errors(), 0);
    assert_eq!(app.mode(), AppMode::Test);
    app.type_char_at('\u{754c}', 2 * SECOND);
    assert_eq!(app.mode(), AppMode::Results);
    assert_eq!(app.accuracy(), 100_000);
}

#[test]
fn the_clock_driven_operations_run() {
    let mut app = App::with_settings(settings(TestMode::Time, 50, 300));
    assert_eq!(app.elapsed_seconds(), None);
    app.start_test();
    assert_eq!(app.mode(), AppMode::Test);
    assert!(app.start_time().is_some());
    assert!(app.elapsed_seconds().is_some());
    let started = app.start_time();
    app.type_char('t');
    assert_eq!(typed(&app), "t");
    assert_eq!(app.start_time(), started);
}

#[test]
fn menu_cursor_stops_at_both_ends() {
    let mut app = App::new();
    app.menu_up();
    assert_eq!(app.menu_selection(), 0);
    for expected in [1, 2, 3, 3, 3] {
        app.menu_down();
        assert_eq!(app.menu_selection(), expected);
    }
    for expected in [2, 1, 0, 0] {
        app.menu_up();
        assert_eq!(app.menu_selection(), expected);
    }
}

#[test]
fn settings_cursor_stops_at_both_ends() {
    let mut app = App::new();
    app.settings_up();
    assert_eq!(app.settings_selection(), 0);
    for expected in [1, 2, 3, 4, 4, 4] {
        app.settings_down();
        assert_eq!(app.settings_selection(), expected);
    }
    for expected in [3, 2, 1, 0, 0] {
        app.settings_up();
        assert_eq!(app.settings_selection(), expected);
    }
}

#[test]
fn open_settings_and_stats_switch_the_screen() {
    let mut app = App::new();
    app.open_settings();
    assert_eq!(app.mode(), AppMode::Settings);
    app.open_stats();
    assert_eq!(app.mode(), AppMode::Stats);
    app.return_to_menu();
    assert_eq!(app.mode(), AppMode::Menu);
}

#[test]
fn modify_setting_acts_on_the_field_under_the_cursor() {
    let mut app = App::new();
    app.modify_setting(true);
    assert_eq!(app.settings().test_mode, TestMode::Words);
    app.modify_setting(false);
    assert_eq!(app.settings().test_mode, TestMode::Time);
    app.settings_down();
    app.modify_setting(true);
    assert_eq!(app.settings().word_count, 60);
    app.settings_down();
    app.modify_setting(false);
    assert_eq!(app.settings().time_limit, 15);
    app.settings_down();
    app.modify_setting(true);
    assert_eq!(app.settings().language, "english_1000");
    app.settings_down();
    app.modify_setting(true);
    assert_eq!(app.settings().lines_to_display, 4);
}
