//! The application as a state machine over plain values: what every
//! operation does to the state, and what holds of every reachable state.

use vstd::prelude::*;
use crate::clock::elapsed_nanos;
use crate::metrics::{accuracy_thousandths, whole_seconds, wpm_thousandths, FULL_ACCURACY};
use crate::metrics::lemma_accuracy_bounded;
use crate::settings::{SettingsView, TestMode, LAST_FIELD};
use crate::stats::{capped_sum, SessionResult, UserStats};
use crate::stats::lemma_record_keeps_valid;
use crate::words::{word_count, DEFAULT_TEXT};

verus! {

/// The screen that the application shows, which is also the state of the
/// attempt: `Test` while it runs, `Results` once it has finished, any other
/// screen while there is none.
#[derive(Debug, Clone, Copy, PartialEq, Eq, Structural)]
pub enum AppMode {
    Menu,
    Test,
    Results,
    Stats,
    Settings,
}

/// Index of the last position of the menu cursor.
pub const LAST_MENU_ITEM: usize = 3;

/// The text that a new application offers to type.
pub open spec fn default_text() -> Seq<char> {
    DEFAULT_TEXT@
}

/// `s` without its last character; an empty `s` stays empty.
pub open spec fn without_last(s: Seq<char>) -> Seq<char> {
    if s.len() > 0 {
        s.drop_last()
    } else {
        s
    }
}

/// The whole state of the application as plain values. Times are
/// nanoseconds on the application's clock; speed and accuracy are in
/// thousandths.
pub struct AppView {
    pub mode: AppMode,
    pub menu_selection: usize,
    pub settings_selection: usize,
    pub test_text: Seq<char>,
    pub current_input: Seq<char>,
    pub current_pos: nat,
    pub start_time: Option<u64>,
    pub end_time: Option<u64>,
    pub errors: usize,
    pub wpm: u64,
    pub accuracy: u64,
    pub settings: SettingsView,
    pub user_stats: UserStats,
}

/// An operation on the application. Those that read the clock carry the
/// reading.
pub enum Operation {
    MenuUp,
    MenuDown,
    SettingsUp,
    SettingsDown,
    ModifySetting { increase: bool },
    OpenSettings,
    OpenStats,
    StartTest { now: u64 },
    StartWithText { text: Seq<char> },
    TypeChar { c: char, now: u64 },
    Backspace,
    ReturnToMenu,
}

impl AppView {
    /// The state of a new application with the given settings: at the menu,
    /// with the default text and nothing typed or measured.
    pub open spec fn initial(settings: SettingsView) -> AppView {
        AppView {
            mode: AppMode::Menu,
            menu_selection: 0,
            settings_selection: 0,
            test_text: default_text(),
            current_input: Seq::empty(),
            current_pos: 0,
            start_time: None,
            end_time: None,
            errors: 0,
            wpm: 0,
            accuracy: 0,
            settings: settings,
            user_stats: UserStats::empty(),
        }
    }

    /// What holds of every state that the operations reach from an initial
    /// one: the cursor is the length of the input, which is no longer than
    /// the text; both menu cursors are inside their lists; a running
    /// attempt has no end time and a finished one has both times; accuracy
    /// is at most 100 percent and the statistics are consistent.
    pub open spec fn wf(self) -> bool {
        &&& self.current_pos == self.current_input.len()
        &&& self.current_input.len() <= self.test_text.len()
        &&& self.menu_selection <= LAST_MENU_ITEM
        &&& self.settings_selection <= LAST_FIELD
        &&& (self.mode == AppMode::Test ==> self.end_time is None)
        &&& (self.mode == AppMode::Results ==> self.start_time is Some && self.end_time is Some)
        &&& self.accuracy <= FULL_ACCURACY
        &&& self.user_stats.valid()
    }

    /// The menu cursor moves up one item and stops at the first.
    pub open spec fn menu_up(self) -> AppView {
        if self.menu_selection > 0 {
            AppView { menu_selection: (self.menu_selection - 1) as usize, ..self }
        } else {
            self
        }
    }

    /// The menu cursor moves down one item and stops at the last.
    pub open spec fn menu_down(self) -> AppView {
        if self.menu_selection < LAST_MENU_ITEM {
            AppView { menu_selection: (self.menu_selection + 1) as usize, ..self }
        } else {
            self
        }
    }

    /// The settings cursor moves up one field and stops at the first.
    pub open spec fn settings_up(self) -> AppView {
        if self.settings_selection > 0 {
            AppView { settings_selection: (self.settings_selection - 1) as usize, ..self }
        } else {
            self
        }
    }

    /// The settings cursor moves down one field and stops at the last.
    pub open spec fn settings_down(self) -> AppView {
        if self.settings_selection < LAST_FIELD {
            AppView { settings_selection: (self.settings_selection + 1) as usize, ..self }
        } else {
            self
        }
    }

    /// The field under the settings cursor is adjusted by one step.
    pub open spec fn modify_setting(self, increase: bool) -> AppView {
        AppView { settings: self.settings.modified(self.settings_selection, increase), ..self }
    }

    /// The settings screen is shown.
    pub open spec fn open_settings(self) -> AppView {
        AppView { mode: AppMode::Settings, ..self }
    }

    /// The statistics screen is shown.
    pub open spec fn open_stats(self) -> AppView {
        AppView { mode: AppMode::Stats, ..self }
    }

    /// An attempt on the current text starts at `now`, with the timer
    /// running: whatever was typed, counted or timed before is gone.
    pub open spec fn start_test(self, now: u64) -> AppView {
        AppView {
            mode: AppMode::Test,
            current_input: Seq::empty(),
            current_pos: 0,
            start_time: Some(now),
            end_time: None,
            errors: 0,
            ..self
        }
    }

    /// An attempt on `text` starts, with the timer waiting for the first
    /// keystroke: whatever was typed, counted or timed before is gone.
    pub open spec fn start_with_text(self, text: Seq<char>) -> AppView {
        AppView {
            mode: AppMode::Test,
            test_text: text,
            current_input: Seq::empty(),
            current_pos: 0,
            start_time: None,
            end_time: None,
            errors: 0,
            ..self
        }
    }

    /// The character `c` is taken as the next one of the input: it is
    /// appended, counted as an error if the text has another character at
    /// the cursor, and the cursor moves on. The error count stops at
    /// `usize::MAX`.
    pub open spec fn accepted(self, c: char) -> AppView
        recommends
            self.current_pos < self.test_text.len(),
    {
        AppView {
            current_input: self.current_input.push(c),
            current_pos: self.current_pos + 1,
            errors: if c != self.test_text[self.current_pos as int] {
                capped_sum(self.errors as int, 1, usize::MAX as int) as usize
            } else {
                self.errors
            },
            ..self
        }
    }

    /// What an attempt that began at `start` and ends at `now` contributes
    /// to the statistics: the words of the input, not of the text, over the
    /// time between the two.
    pub open spec fn result_at(self, start: u64, now: u64) -> SessionResult {
        let nanos = elapsed_nanos(start, now) as nat;
        let words = word_count(self.current_input);
        SessionResult {
            words_completed: words as usize,
            duration_seconds: whole_seconds(nanos) as u64,
            wpm: wpm_thousandths(words, nanos) as u64,
            accuracy: accuracy_thousandths(self.current_input.len(), self.errors as nat) as u64,
        }
    }

    /// The attempt that began at `start` ends at `now`: the end time is set,
    /// speed and accuracy are computed, the result is recorded once in the
    /// statistics, and the results screen is shown.
    pub open spec fn finished(self, start: u64, now: u64) -> AppView {
        let result = self.result_at(start, now);
        AppView {
            mode: AppMode::Results,
            end_time: Some(now),
            wpm: result.wpm,
            accuracy: result.accuracy,
            user_stats: self.user_stats.recorded(result),
            ..self
        }
    }

    /// Whether the attempt has run out of time at `now`. Only whole
    /// seconds count.
    pub open spec fn time_is_up(self, start: u64, now: u64) -> bool {
        &&& self.settings.test_mode == TestMode::Time
        &&& whole_seconds(elapsed_nanos(start, now) as nat) >= self.settings.time_limit
    }

    /// Whether the input holds as many words as a `Words` attempt asks for.
    pub open spec fn words_are_done(self) -> bool {
        &&& self.settings.test_mode == TestMode::Words
        &&& word_count(self.current_input) >= self.settings.word_count
    }

    /// The keystroke `c` arrives at `now`.
    ///
    /// Outside a running attempt nothing happens. Otherwise the timer
    /// starts if it has not yet. If the time is up, the attempt ends and
    /// the keystroke is discarded. If the cursor is at the end of the text,
    /// the keystroke is dropped. Otherwise `c` is accepted, and the attempt
    /// ends if the input now holds enough words or reaches the end of the
    /// text.
    pub open spec fn type_char(self, c: char, now: u64) -> AppView {
        if self.mode != AppMode::Test {
            self
        } else {
            let start = match self.start_time {
                Some(earlier) => earlier,
                None => now,
            };
            let armed = AppView { start_time: Some(start), ..self };
            if armed.time_is_up(start, now) {
                armed.finished(start, now)
            } else if armed.current_pos < armed.test_text.len() {
                let typed = armed.accepted(c);
                if typed.words_are_done() || typed.current_pos >= typed.test_text.len() {
                    typed.finished(start, now)
                } else {
                    typed
                }
            } else {
                armed
            }
        }
    }

    /// The last character of the input is taken back and the cursor moves
    /// back with it. The error count stays. Nothing happens outside a
    /// running attempt or with the cursor at the start.
    pub open spec fn backspace(self) -> AppView {
        if self.mode == AppMode::Test && self.current_pos > 0 {
            AppView {
                current_input: without_last(self.current_input),
                current_pos: (self.current_pos - 1) as nat,
                ..self
            }
        } else {
            self
        }
    }

    /// The menu is shown and the attempt, running or finished, is
    /// discarded: input, cursor and both times are cleared. The error count
    /// and the last speed and accuracy stay until the next attempt.
    pub open spec fn return_to_menu(self) -> AppView {
        AppView {
            mode: AppMode::Menu,
            current_input: Seq::empty(),
            current_pos: 0,
            start_time: None,
            end_time: None,
            ..self
        }
    }

    /// Whole seconds on the timer at `now`, if it has started.
    pub open spec fn elapsed_seconds(self, now: u64) -> Option<u64> {
        match self.start_time {
            Some(start) => Some(whole_seconds(elapsed_nanos(start, now) as nat) as u64),
            None => None,
        }
    }

    /// The state after `op`.
    pub open spec fn apply(self, op: Operation) -> AppView {
        match op {
            Operation::MenuUp => self.menu_up(),
            Operation::MenuDown => self.menu_down(),
            Operation::SettingsUp => self.settings_up(),
            Operation::SettingsDown => self.settings_down(),
            Operation::ModifySetting { increase } => self.modify_setting(increase),
            Operation::OpenSettings => self.open_settings(),
            Operation::OpenStats => self.open_stats(),
            Operation::StartTest { now } => self.start_test(now),
            Operation::StartWithText { text } => self.start_with_text(text),
            Operation::TypeChar { c, now } => self.type_char(c, now),
            Operation::Backspace => self.backspace(),
            Operation::ReturnToMenu => self.return_to_menu(),
        }
    }

    /// The state after the operations `ops`, first to last.
    pub open spec fn apply_all(self, ops: Seq<Operation>) -> AppView
        decreases ops.len(),
    {
        if ops.len() == 0 {
            self
        } else {
            self.apply_all(ops.drop_last()).apply(ops.last())
        }
    }
}

impl Operation {
    /// Whether the operation starts an attempt.
    pub open spec fn is_start(self) -> bool {
        self is StartTest || self is StartWithText
    }
}

/// An initial state is well formed.
pub proof fn lemma_initial_wf(settings: SettingsView)
    ensures
        AppView::initial(settings).wf(),
{
}

/// Ending an attempt keeps a well-formed state well formed, whatever the
/// two times are.
pub proof fn lemma_finished_keeps_wf(state: AppView, start: u64, now: u64)
    requires
        state.wf(),
        state.start_time is Some,
    ensures
        state.finished(start, now).wf(),
{
    let result = state.result_at(start, now);
    lemma_accuracy_bounded(state.current_input.len(), state.errors as nat);
    lemma_record_keeps_valid(state.user_stats, result);
}

/// A keystroke keeps a well-formed state well formed, whatever the
/// character and the time.
pub proof fn lemma_type_char_keeps_wf(state: AppView, c: char, now: u64)
    requires
        state.wf(),
    ensures
        state.type_char(c, now).wf(),
{
    if state.mode == AppMode::Test {
        let start = match state.start_time {
            Some(earlier) => earlier,
            None => now,
        };
        let armed = AppView { start_time: Some(start), ..state };
        if armed.time_is_up(start, now) {
            lemma_finished_keeps_wf(armed, start, now);
        } else if armed.current_pos < armed.test_text.len() {
            let typed = armed.accepted(c);
            if typed.words_are_done() || typed.current_pos >= typed.test_text.len() {
                lemma_finished_keeps_wf(typed, start, now);
            }
        }
    }
}

/// Every operation keeps a well-formed state well formed. In particular
/// the cursor equals the length of the input after every operation.
pub proof fn lemma_apply_keeps_wf(state: AppView, op: Operation)
    requires
        state.wf(),
    ensures
        state.apply(op).wf(),
        state.apply(op).current_pos == state.apply(op).current_input.len(),
{
    match op {
        Operation::TypeChar { c, now } => {
            lemma_type_char_keeps_wf(state, c, now);
        },
        _ => {},
    }
}

/// Every state reached from an initial one by any operations, in any order
/// and at any times, is well formed: its cursor equals the length of its
/// input, which is no longer than its text.
pub proof fn lemma_reachable_wf(settings: SettingsView, ops: Seq<Operation>)
    ensures
        AppView::initial(settings).apply_all(ops).wf(),
        AppView::initial(settings).apply_all(ops).current_pos == AppView::initial(
            settings,
        ).apply_all(ops).current_input.len(),
    decreases ops.len(),
{
    if ops.len() == 0 {
        lemma_initial_wf(settings);
    } else {
        lemma_reachable_wf(settings, ops.drop_last());
        lemma_apply_keeps_wf(AppView::initial(settings).apply_all(ops.drop_last()), ops.last());
    }
}

/// Within an attempt the error count never drops: no operation but a start
/// lowers it, and a backspace leaves it as it is.
pub proof fn lemma_errors_never_drop(state: AppView, op: Operation)
    requires
        !op.is_start(),
    ensures
        state.apply(op).errors >= state.errors,
        op is Backspace ==> state.apply(op).errors == state.errors,
{
}

/// Over any run of operations without a start the error count never drops.
pub proof fn lemma_errors_monotone(state: AppView, ops: Seq<Operation>)
    requires
        forall|i: int| 0 <= i < ops.len() ==> !(#[trigger] ops[i]).is_start(),
    ensures
        state.apply_all(ops).errors >= state.errors,
    decreases ops.len(),
{
    if ops.len() > 0 {
        let earlier = ops.drop_last();
        lemma_errors_monotone(state, earlier);
        lemma_errors_never_drop(state.apply_all(earlier), ops.last());
    }
}

/// A start resets input, cursor and error count whatever the state before,
/// and leaves the attempt running without an end time.
pub proof fn lemma_start_resets(state: AppView, op: Operation)
    requires
        op.is_start(),
    ensures
        state.apply(op).current_input == Seq::<char>::empty(),
        state.apply(op).current_pos == 0,
        state.apply(op).errors == 0,
        state.apply(op).end_time is None,
        state.apply(op).mode == AppMode::Test,
{
}

/// Outside a running attempt a keystroke and a backspace change nothing.
pub proof fn lemma_idle_ignores_keys(state: AppView, c: char, now: u64)
    requires
        state.mode != AppMode::Test,
    ensures
        state.type_char(c, now) == state,
        state.backspace() == state,
{
}

/// A keystroke during an attempt leaves it running, with the statistics
/// untouched, or ends it at `now`, with its result recorded once. Either
/// way the timer has started, and a timer that had started keeps its start
/// time.
pub proof fn lemma_type_char_outcome(state: AppView, c: char, now: u64)
    requires
        state.mode == AppMode::Test,
    ensures
        ({
            let after = state.type_char(c, now);
            &&& after.start_time is Some
            &&& state.start_time is Some ==> after.start_time == state.start_time
            &&& after.mode == AppMode::Test || after.mode == AppMode::Results
            &&& after.mode == AppMode::Test ==> after.end_time == state.end_time
                && after.user_stats == state.user_stats
            &&& after.mode == AppMode::Results ==> after.end_time == Some(now)
                && after.user_stats == state.user_stats.recorded(
                after.result_at(after.start_time.unwrap(), now),
            )
        }),
{
}

/// With a time limit of zero the first keystroke of a timed attempt ends
/// it before the character is taken: the input stays as it was.
pub proof fn lemma_zero_limit_ends_at_once(state: AppView, c: char, now: u64)
    requires
        state.mode == AppMode::Test,
        state.settings.test_mode == TestMode::Time,
        state.settings.time_limit == 0,
    ensures
        state.type_char(c, now).mode == AppMode::Results,
        state.type_char(c, now).current_input == state.current_input,
        state.type_char(c, now).current_pos == state.current_pos,
        state.type_char(c, now).errors == state.errors,
{
}

/// In a `Words` attempt the keystroke that brings the input to the asked
/// number of words ends the attempt, with its character taken.
pub proof fn lemma_enough_words_end_the_attempt(state: AppView, c: char, now: u64)
    requires
        state.mode == AppMode::Test,
        state.settings.test_mode == TestMode::Words,
        state.current_pos < state.test_text.len(),
        word_count(state.current_input.push(c)) >= state.settings.word_count,
    ensures
        state.type_char(c, now).mode == AppMode::Results,
        state.type_char(c, now).current_input == state.current_input.push(c),
{
}

/// A keystroke with the cursor at the end of the text is dropped: at most
/// the timer starts, or a timed attempt runs out.
pub proof fn lemma_key_past_the_end_is_dropped(state: AppView, c: char, now: u64)
    requires
        state.current_pos >= state.test_text.len(),
    ensures
        state.type_char(c, now).current_input == state.current_input,
        state.type_char(c, now).current_pos == state.current_pos,
        state.type_char(c, now).errors == state.errors,
{
}

} // verus!
