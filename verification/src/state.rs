//! The application: the attempt in progress, the two menu cursors, the
//! settings and the lifetime statistics, behind the operations that the
//! input loop calls.

use vstd::prelude::*;
use crate::clock::{nanos_between, Clock};
use crate::metrics::{accuracy_percent, seconds_of, words_per_minute};
use crate::model::{AppMode, AppView, Operation, LAST_MENU_ITEM};
use crate::model::{lemma_apply_keeps_wf, lemma_initial_wf};
use crate::settings::{Settings, SettingsView, TestMode, LAST_FIELD};
use crate::stats::{SessionResult, UserStats};
use crate::words::{chars_of, count_words, DEFAULT_TEXT};

verus! {

/// The data of the application, as the operations leave it. Nothing is
/// required of the fields here: [`App`] holds one of these and keeps it
/// well formed.
struct AppState {
    mode: AppMode,
    menu_selection: usize,
    settings_selection: usize,
    test_text: Vec<char>,
    current_input: Vec<char>,
    current_pos: usize,
    start_time: Option<u64>,
    end_time: Option<u64>,
    errors: usize,
    wpm: u64,
    accuracy: u64,
    settings: Settings,
    user_stats: UserStats,
}

impl View for AppState {
    type V = AppView;

    closed spec fn view(&self) -> AppView {
        AppView {
            mode: self.mode,
            menu_selection: self.menu_selection,
            settings_selection: self.settings_selection,
            test_text: self.test_text@,
            current_input: self.current_input@,
            current_pos: self.current_pos as nat,
            start_time: self.start_time,
            end_time: self.end_time,
            errors: self.errors,
            wpm: self.wpm,
            accuracy: self.accuracy,
            settings: self.settings@,
            user_stats: self.user_stats,
        }
    }
}

impl AppState {
    /// The state of a new application.
    fn initial(settings: Settings) -> (state: AppState)
        ensures
            state@ == AppView::initial(settings@),
    {
        AppState {
            mode: AppMode::Menu,
            menu_selection: 0,
            settings_selection: 0,
            test_text: chars_of(DEFAULT_TEXT),
            current_input: Vec::new(),
            current_pos: 0,
            start_time: None,
            end_time: None,
            errors: 0,
            wpm: 0,
            accuracy: 0,
            settings,
            user_stats: UserStats::default(),
        }
    }

    /// A well-formed state that costs nothing to make. It stands in for the
    /// real one while an operation works on that.
    fn vacant() -> (state: AppState)
        ensures
            state@.wf(),
    {
        AppState {
            mode: AppMode::Menu,
            menu_selection: 0,
            settings_selection: 0,
            test_text: Vec::new(),
            current_input: Vec::new(),
            current_pos: 0,
            start_time: None,
            end_time: None,
            errors: 0,
            wpm: 0,
            accuracy: 0,
            settings: Settings {
                test_mode: TestMode::Time,
                word_count: 0,
                time_limit: 0,
                language: String::new(),
                lines_to_display: 0,
            },
            user_stats: UserStats::default(),
        }
    }

    fn menu_up(&mut self)
        ensures
            final(self)@ == old(self)@.menu_up(),
    {
        if self.menu_selection > 0 {
            self.menu_selection = self.menu_selection - 1;
        }
    }

    fn menu_down(&mut self)
        ensures
            final(self)@ == old(self)@.menu_down(),
    {
        if self.menu_selection < LAST_MENU_ITEM {
            self.menu_selection = self.menu_selection + 1;
        }
    }

    fn settings_up(&mut self)
        ensures
            final(self)@ == old(self)@.settings_up(),
    {
        if self.settings_selection > 0 {
            self.settings_selection = self.settings_selection - 1;
        }
    }

    fn settings_down(&mut self)
        ensures
            final(self)@ == old(self)@.settings_down(),
    {
        if self.settings_selection < LAST_FIELD {
            self.settings_selection = self.settings_selection + 1;
        }
    }

    fn modify_setting(&mut self, increase: bool)
        ensures
            final(self)@ == old(self)@.modify_setting(increase),
    {
        self.settings.modify(self.settings_selection, increase);
    }

    fn start_test(&mut self, now: u64)
        ensures
            final(self)@ == old(self)@.start_test(now),
    {
        self.mode = AppMode::Test;
        self.current_input.clear();
        self.current_pos = 0;
        self.start_time = Some(now);
        self.end_time = None;
        self.errors = 0;
    }

    fn start_with_text(&mut self, text: &str)
        ensures
            final(self)@ == old(self)@.start_with_text(text@),
    {
        self.mode = AppMode::Test;
        self.test_text = chars_of(text);
        self.current_input.clear();
        self.current_pos = 0;
        self.start_time = None;
        self.end_time = None;
        self.errors = 0;
    }

    fn type_char(&mut self, c: char, now: u64)
        ensures
            final(self)@ == old(self)@.type_char(c, now),
    {
        if self.mode != AppMode::Test {
            return ;
        }
        let start: u64 = match self.start_time {
            Some(earlier) => earlier,
            None => now,
        };
        self.start_time = Some(start);
        if self.settings.test_mode == TestMode::Time && seconds_of(nanos_between(start, now))
            >= self.settings.time_limit {
            self.finish_test(start, now);
            return ;
        }
        if self.current_pos < self.test_text.len() {
            let expected: char = self.test_text[self.current_pos];
            self.current_input.push(c);
            if c != expected {
                self.errors = self.errors.saturating_add(1);
            }
            self.current_pos = self.current_pos + 1;
            let enough_words: bool = self.settings.test_mode == TestMode::Words && count_words(
                &self.current_input,
            ) >= self.settings.word_count;
            if enough_words || self.current_pos >= self.test_text.len() {
                self.finish_test(start, now);
            }
        }
    }

    fn backspace(&mut self)
        ensures
            final(self)@ == old(self)@.backspace(),
    {
        if self.mode == AppMode::Test && self.current_pos > 0 {
            self.current_input.pop();
            self.current_pos = self.current_pos - 1;
        }
    }

    /// Ends the attempt that began at `start`: computes speed and accuracy,
    /// records the result and shows the results screen.
    fn finish_test(&mut self, start: u64, now: u64)
        ensures
            final(self)@ == old(self)@.finished(start, now),
    {
        let nanos: u64 = nanos_between(start, now);
        let words: usize = count_words(&self.current_input);
        let result = SessionResult {
            words_completed: words,
            duration_seconds: seconds_of(nanos),
            wpm: words_per_minute(words, nanos),
            accuracy: accuracy_percent(self.current_input.len(), self.errors),
        };
        self.end_time = Some(now);
        self.wpm = result.wpm;
        self.accuracy = result.accuracy;
        self.user_stats.record(&result);
        self.mode = AppMode::Results;
    }

    fn return_to_menu(&mut self)
        ensures
            final(self)@ == old(self)@.return_to_menu(),
    {
        self.mode = AppMode::Menu;
        self.current_input.clear();
        self.current_pos = 0;
        self.start_time = None;
        self.end_time = None;
    }
}

/// The application state.
///
/// Every value of this type is well formed ([`AppView::wf`]): the cursor is
/// the length of the input, the input is no longer than the text, and so
/// on. The fields are read through the accessors and changed only by the
/// operations. Each operation that reads the clock has a twin, named with
/// `_at`, that takes the reading as an argument.
///
/// The time limit of a timed attempt is looked at when a keystroke arrives,
/// not in between: an attempt left alone past its limit ends with the next
/// keystroke.
pub struct App {
    state: AppState,
    clock: Clock,
}

impl View for App {
    type V = AppView;

    closed spec fn view(&self) -> AppView {
        self.state@
    }
}

impl App {
    #[verifier::type_invariant]
    spec fn well_formed(self) -> bool {
        self.state@.wf()
    }

    /// Hands out the state for an operation to work on, and leaves a vacant
    /// one in its place until the operation puts its result back.
    fn take_state(&mut self) -> (state: AppState)
        ensures
            state@ == old(self)@,
            state@.wf(),
    {
        proof {
            use_type_invariant(&*self);
        }
        let mut state = AppState::vacant();
        std::mem::swap(&mut self.state, &mut state);
        state
    }

    /// A new application with the default settings: at the menu, with the
    /// default text, nothing typed and empty statistics.
    pub fn new() -> (app: App)
        ensures
            app@ == AppView::initial(SettingsView::initial()),
            app@.wf(),
            app@.settings.valid(),
    {
        App::with_settings(Settings::default())
    }

    /// A new application with the given settings.
    pub fn with_settings(settings: Settings) -> (app: App)
        ensures
            app@ == AppView::initial(settings@),
            app@.wf(),
    {
        proof {
            lemma_initial_wf(settings@);
        }
        App { state: AppState::initial(settings), clock: Clock::new() }
    }

    /// Moves the menu cursor up one item; it stops at the first.
    pub fn menu_up(&mut self)
        ensures
            final(self)@ == old(self)@.menu_up(),
            final(self)@.wf(),
    {
        let mut state = self.take_state();
        proof {
            lemma_apply_keeps_wf(state@, Operation::MenuUp);
        }
        state.menu_up();
        self.state = state;
    }

    /// Moves the menu cursor down one item; it stops at the last.
    pub fn menu_down(&mut self)
        ensures
            final(self)@ == old(self)@.menu_down(),
            final(self)@.wf(),
    {
        let mut state = self.take_state();
        proof {
            lemma_apply_keeps_wf(state@, Operation::MenuDown);
        }
        state.menu_down();
        self.state = state;
    }

    /// Moves the settings cursor up one field; it stops at the first.
    pub fn settings_up(&mut self)
        ensures
            final(self)@ == old(self)@.settings_up(),
            final(self)@.wf(),
    {
        let mut state = self.take_state();
        proof {
            lemma_apply_keeps_wf(state@, Operation::SettingsUp);
        }
        state.settings_up();
        self.state = state;
    }

    /// Moves the settings cursor down one field; it stops at the last.
    pub fn settings_down(&mut self)
        ensures
            final(self)@ == old(self)@.settings_down(),
            final(self)@.wf(),
    {
        let mut state = self.take_state();
        proof {
            lemma_apply_keeps_wf(state@, Operation::SettingsDown);
        }
        state.settings_down();
        self.state = state;
    }

    /// Adjusts the field under the settings cursor by one step, up if
    /// `increase` and down if not.
    pub fn modify_setting(&mut self, increase: bool)
        ensures
            final(self)@ == old(self)@.modify_setting(increase),
            final(self)@.wf(),
            old(self)@.settings.valid() ==> final(self)@.settings.valid(),
    {
        let mut state = self.take_state();
        proof {
            lemma_apply_keeps_wf(state@, Operation::ModifySetting { increase });
        }
        state.modify_setting(increase);
        self.state = state;
    }

    /// Shows the settings screen.
    pub fn open_settings(&mut self)
        ensures
            final(self)@ == old(self)@.open_settings(),
            final(self)@.wf(),
    {
        proof {
            use_type_invariant(&*self);
            lemma_apply_keeps_wf(self@, Operation::OpenSettings);
        }
        self.state.mode = AppMode::Settings;
    }

    /// Shows the statistics screen.
    pub fn open_stats(&mut self)
        ensures
            final(self)@ == old(self)@.open_stats(),
            final(self)@.wf(),
    {
        proof {
            use_type_invariant(&*self);
            lemma_apply_keeps_wf(self@, Operation::OpenStats);
        }
        self.state.mode = AppMode::Stats;
    }

    /// Starts an attempt on the current text with the timer running from
    /// the moment of the call.
    pub fn start_test(&mut self)
        ensures
            exists|now: u64| final(self)@ == #[trigger] old(self)@.start_test(now),
            final(self)@.current_input == Seq::<char>::empty(),
            final(self)@.current_pos == 0,
            final(self)@.errors == 0,
            final(self)@.wf(),
    {
        let now: u64 = self.clock.now();
        self.start_test_at(now);
    }

    /// Starts an attempt on the current text with the timer running from
    /// `now`. Input, cursor and error count are reset whatever state the
    /// application was in.
    pub fn start_test_at(&mut self, now: u64)
        ensures
            final(self)@ == old(self)@.start_test(now),
            final(self)@.current_input == Seq::<char>::empty(),
            final(self)@.current_pos == 0,
            final(self)@.errors == 0,
            final(self)@.wf(),
    {
        let mut state = self.take_state();
        proof {
            lemma_apply_keeps_wf(state@, Operation::StartTest { now });
        }
        state.start_test(now);
        self.state = state;
    }

    /// Starts an attempt on `text`. The timer starts with the first
    /// keystroke. Input, cursor and error count are reset whatever state
    /// the application was in.
    pub fn start_with_text(&mut self, text: &str)
        ensures
            final(self)@ == old(self)@.start_with_text(text@),
            final(self)@.current_input == Seq::<char>::empty(),
            final(self)@.current_pos == 0,
            final(self)@.errors == 0,
            final(self)@.wf(),
    {
        let mut state = self.take_state();
        proof {
            lemma_apply_keeps_wf(state@, Operation::StartWithText { text: text@ });
        }
        state.start_with_text(text);
        self.state = state;
    }

    /// Handles the keystroke `c` at the moment of the call.
    pub fn type_char(&mut self, c: char)
        ensures
            exists|now: u64| final(self)@ == #[trigger] old(self)@.type_char(c, now),
            final(self)@.wf(),
    {
        let now: u64 = self.clock.now();
        self.type_char_at(c, now);
    }

    /// Handles the keystroke `c` that arrives at `now`: see
    /// [`AppView::type_char`].
    pub fn type_char_at(&mut self, c: char, now: u64)
        ensures
            final(self)@ == old(self)@.type_char(c, now),
            final(self)@.wf(),
    {
        let mut state = self.take_state();
        proof {
            lemma_apply_keeps_wf(state@, Operation::TypeChar { c, now });
        }
        state.type_char(c, now);
        self.state = state;
    }

    /// Takes back the last character of the input. The error count stays.
    pub fn backspace(&mut self)
        ensures
            final(self)@ == old(self)@.backspace(),
            final(self)@.errors == old(self)@.errors,
            final(self)@.wf(),
    {
        let mut state = self.take_state();
        proof {
            lemma_apply_keeps_wf(state@, Operation::Backspace);
        }
        state.backspace();
        self.state = state;
    }

    /// Shows the menu and discards the attempt: input, cursor and both
    /// times are cleared. Speed, accuracy and error count of the last
    /// attempt stay readable until the next one.
    pub fn return_to_menu(&mut self)
        ensures
            final(self)@ == old(self)@.return_to_menu(),
            final(self)@.wf(),
    {
        let mut state = self.take_state();
        proof {
            lemma_apply_keeps_wf(state@, Operation::ReturnToMenu);
        }
        state.return_to_menu();
        self.state = state;
    }

    /// The screen shown.
    pub fn mode(&self) -> (mode: AppMode)
        ensures
            mode == self@.mode,
            self@.wf(),
    {
        proof {
            use_type_invariant(self);
        }
        self.state.mode
    }

    /// Position of the menu cursor, which never leaves the menu.
    pub fn menu_selection(&self) -> (index: usize)
        ensures
            index == self@.menu_selection,
            index <= LAST_MENU_ITEM,
    {
        proof {
            use_type_invariant(self);
        }
        self.state.menu_selection
    }

    /// Position of the settings cursor, which never leaves the settings
    /// list.
    pub fn settings_selection(&self) -> (index: usize)
        ensures
            index == self@.settings_selection,
            index <= LAST_FIELD,
    {
        proof {
            use_type_invariant(self);
        }
        self.state.settings_selection
    }

    /// The text to type.
    pub fn test_text(&self) -> (text: &Vec<char>)
        ensures
            text@ == self@.test_text,
    {
        &self.state.test_text
    }

    /// What has been typed and not taken back. It is never longer than the
    /// text.
    pub fn current_input(&self) -> (input: &Vec<char>)
        ensures
            input@ == self@.current_input,
            input@.len() <= self@.test_text.len(),
    {
        proof {
            use_type_invariant(self);
        }
        &self.state.current_input
    }

    /// Position in the text of the next character to type. It is always
    /// the length of the input.
    pub fn current_pos(&self) -> (pos: usize)
        ensures
            pos == self@.current_pos,
            pos == self@.current_input.len(),
            pos <= self@.test_text.len(),
    {
        proof {
            use_type_invariant(self);
        }
        self.state.current_pos
    }

    /// When the timer started, if it has.
    pub fn start_time(&self) -> (time: Option<u64>)
        ensures
            time == self@.start_time,
            self@.mode == AppMode::Results ==> time is Some,
    {
        proof {
            use_type_invariant(self);
        }
        self.state.start_time
    }

    /// When the attempt finished, if it has: never during an attempt,
    /// always on the results screen.
    pub fn end_time(&self) -> (time: Option<u64>)
        ensures
            time == self@.end_time,
            self@.mode == AppMode::Test ==> time is None,
            self@.mode == AppMode::Results ==> time is Some,
    {
        proof {
            use_type_invariant(self);
        }
        self.state.end_time
    }

    /// Mismatches counted since the attempt started.
    pub fn errors(&self) -> (errors: usize)
        ensures
            errors == self@.errors,
    {
        self.state.errors
    }

    /// Speed of the last finished attempt, in thousandths of a word per
    /// minute.
    pub fn wpm(&self) -> (wpm: u64)
        ensures
            wpm == self@.wpm,
    {
        self.state.wpm
    }

    /// Accuracy of the last finished attempt, in thousandths of a percent:
    /// at most 100 000.
    pub fn accuracy(&self) -> (accuracy: u64)
        ensures
            accuracy == self@.accuracy,
            accuracy <= crate::metrics::FULL_ACCURACY,
    {
        proof {
            use_type_invariant(self);
        }
        self.state.accuracy
    }

    /// The settings.
    pub fn settings(&self) -> (settings: &Settings)
        ensures
            settings@ == self@.settings,
    {
        &self.state.settings
    }

    /// The lifetime statistics.
    pub fn user_stats(&self) -> (stats: &UserStats)
        ensures
            *stats == self@.user_stats,
            stats.valid(),
    {
        proof {
            use_type_invariant(self);
        }
        &self.state.user_stats
    }

    /// The reading of the application's clock at the moment of the call, in
    /// nanoseconds.
    pub(crate) fn now(&self) -> u64 {
        self.clock.now()
    }

    /// Whole seconds on the timer at the moment of the call, if it has
    /// started.
    pub fn elapsed_seconds(&self) -> (seconds: Option<u64>)
        ensures
            exists|now: u64| seconds == #[trigger] self@.elapsed_seconds(now),
            seconds is Some <==> self@.start_time is Some,
    {
        let now: u64 = self.clock.now();
        self.elapsed_seconds_at(now)
    }

    /// Whole seconds on the timer at `now`, if it has started.
    pub fn elapsed_seconds_at(&self, now: u64) -> (seconds: Option<u64>)
        ensures
            seconds == self@.elapsed_seconds(now),
    {
        match self.state.start_time {
            Some(start) => Some(seconds_of(nanos_between(start, now))),
            None => None,
        }
    }
}

} // verus!
