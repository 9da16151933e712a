//! The settings store: five adjustable fields, each clamped to its range or
//! cycling through its values.

use vstd::prelude::*;
use vstd::string::StringExecFns;

verus! {

/// How an attempt ends by itself.
#[derive(Debug, Clone, Copy, PartialEq, Eq, Structural)]
pub enum TestMode {
    /// After a number of typed words.
    Words,
    /// After a number of seconds.
    Time,
}

/// The user's configuration.
#[derive(Debug)]
pub struct Settings {
    pub test_mode: TestMode,
    /// Words after which a `Words` attempt ends.
    pub word_count: usize,
    /// Seconds after which a `Time` attempt ends.
    pub time_limit: u64,
    /// Name of the word list that texts are drawn from.
    pub language: String,
    pub lines_to_display: usize,
}

/// Index of the test mode in the settings list.
pub const FIELD_TEST_MODE: usize = 0;

/// Index of the word count in the settings list.
pub const FIELD_WORD_COUNT: usize = 1;

/// Index of the time limit in the settings list.
pub const FIELD_TIME_LIMIT: usize = 2;

/// Index of the language in the settings list.
pub const FIELD_LANGUAGE: usize = 3;

/// Index of the number of lines in the settings list.
pub const FIELD_LINES: usize = 4;

/// Index of the last field in the settings list.
pub const LAST_FIELD: usize = 4;

/// Fewest words of a `Words` attempt.
pub const WORD_COUNT_MIN: usize = 10;

/// Most words of a `Words` attempt.
pub const WORD_COUNT_MAX: usize = 200;

/// One step of the word count.
pub const WORD_COUNT_STEP: usize = 10;

/// Shortest time limit, in seconds.
pub const TIME_LIMIT_MIN: u64 = 15;

/// Longest time limit, in seconds.
pub const TIME_LIMIT_MAX: u64 = 300;

/// One step of the time limit, in seconds.
pub const TIME_LIMIT_STEP: u64 = 15;

/// Fewest lines of text on display.
pub const LINES_MIN: usize = 1;

/// Most lines of text on display.
pub const LINES_MAX: usize = 10;

/// Number of word lists that the language field cycles through.
pub const LANGUAGE_COUNT: usize = 3;

/// The word lists that the language field cycles through, by position.
pub open spec fn known_language(index: int) -> Seq<char> {
    if index == 0 {
        "english_200"@
    } else if index == 1 {
        "english_1000"@
    } else {
        "english_10000"@
    }
}

/// Whether `name` is one of the word lists of the cycle.
pub open spec fn is_known_language(name: Seq<char>) -> bool {
    exists|index: int| 0 <= index < LANGUAGE_COUNT && name == #[trigger] known_language(index)
}

/// Position of `name` in the cycle. A name outside the cycle counts as the
/// first one.
pub open spec fn language_index(name: Seq<char>) -> int {
    if name == known_language(1) {
        1
    } else if name == known_language(2) {
        2
    } else {
        0
    }
}

/// The position after `index` in the cycle, or before it; both wrap round.
pub open spec fn cycled_index(index: int, increase: bool) -> int {
    if increase {
        (index + 1) % (LANGUAGE_COUNT as int)
    } else if index == 0 {
        LANGUAGE_COUNT - 1
    } else {
        index - 1
    }
}

/// The word list after `name` in the cycle, or before it.
pub open spec fn cycled_language(name: Seq<char>, increase: bool) -> Seq<char> {
    known_language(cycled_index(language_index(name), increase))
}

/// One step up or down for a field that is clamped to `[min, max]`: a value
/// that has reached the bound in that direction stays as it is.
pub open spec fn stepped(value: int, increase: bool, min: int, max: int, step: int) -> int {
    if increase && value < max {
        value + step
    } else if !increase && value > min {
        value - step
    } else {
        value
    }
}

/// The other mode.
pub open spec fn toggled(mode: TestMode) -> TestMode {
    match mode {
        TestMode::Words => TestMode::Time,
        TestMode::Time => TestMode::Words,
    }
}

/// The settings as plain values.
pub struct SettingsView {
    pub test_mode: TestMode,
    pub word_count: usize,
    pub time_limit: u64,
    pub language: Seq<char>,
    pub lines_to_display: usize,
}

impl SettingsView {
    /// The settings a new application starts with.
    pub open spec fn initial() -> SettingsView {
        SettingsView {
            test_mode: TestMode::Time,
            word_count: 50,
            time_limit: 30,
            language: known_language(0),
            lines_to_display: 3,
        }
    }

    /// Every field is inside its range and on its step.
    pub open spec fn valid(self) -> bool {
        &&& WORD_COUNT_MIN <= self.word_count <= WORD_COUNT_MAX
        &&& self.word_count % WORD_COUNT_STEP == 0
        &&& TIME_LIMIT_MIN <= self.time_limit <= TIME_LIMIT_MAX
        &&& self.time_limit % TIME_LIMIT_STEP == 0
        &&& is_known_language(self.language)
        &&& LINES_MIN <= self.lines_to_display <= LINES_MAX
    }

    /// The settings after one adjustment of the field at `field`. A `field`
    /// beyond the list changes nothing.
    pub open spec fn modified(self, field: usize, increase: bool) -> SettingsView {
        if field == FIELD_TEST_MODE {
            SettingsView { test_mode: toggled(self.test_mode), ..self }
        } else if field == FIELD_WORD_COUNT {
            SettingsView {
                word_count: stepped(
                    self.word_count as int,
                    increase,
                    WORD_COUNT_MIN as int,
                    WORD_COUNT_MAX as int,
                    WORD_COUNT_STEP as int,
                ) as usize,
                ..self
            }
        } else if field == FIELD_TIME_LIMIT {
            SettingsView {
                time_limit: stepped(
                    self.time_limit as int,
                    increase,
                    TIME_LIMIT_MIN as int,
                    TIME_LIMIT_MAX as int,
                    TIME_LIMIT_STEP as int,
                ) as u64,
                ..self
            }
        } else if field == FIELD_LANGUAGE {
            SettingsView { language: cycled_language(self.language, increase), ..self }
        } else if field == FIELD_LINES {
            SettingsView {
                lines_to_display: stepped(
                    self.lines_to_display as int,
                    increase,
                    LINES_MIN as int,
                    LINES_MAX as int,
                    1,
                ) as usize,
                ..self
            }
        } else {
            self
        }
    }
}

impl SettingsView {
    /// The settings after `times` adjustments of the field at `field`, all
    /// in the same direction.
    pub open spec fn modified_times(self, field: usize, increase: bool, times: nat) -> SettingsView
        decreases times,
    {
        if times == 0 {
            self
        } else {
            self.modified_times(field, increase, (times - 1) as nat).modified(field, increase)
        }
    }
}

impl View for Settings {
    type V = SettingsView;

    open spec fn view(&self) -> SettingsView {
        SettingsView {
            test_mode: self.test_mode,
            word_count: self.word_count,
            time_limit: self.time_limit,
            language: self.language@,
            lines_to_display: self.lines_to_display,
        }
    }
}

/// The three word lists of the cycle have different names.
pub proof fn lemma_known_languages_differ()
    ensures
        known_language(0) != known_language(1),
        known_language(0) != known_language(2),
        known_language(1) != known_language(2),
        forall|index: int| 0 <= index < LANGUAGE_COUNT ==> language_index(known_language(index)) == index,
{
    reveal_strlit("english_200");
    reveal_strlit("english_1000");
    reveal_strlit("english_10000");
    assert(known_language(0).len() == 11);
    assert(known_language(1).len() == 12);
    assert(known_language(2).len() == 13);
}

/// Position of `name` in the cycle of word lists.
fn language_position(name: &String) -> (index: usize)
    ensures
        index == language_index(name@),
        index < LANGUAGE_COUNT,
{
    if *name == String::from_str("english_1000") {
        1
    } else if *name == String::from_str("english_10000") {
        2
    } else {
        0
    }
}

/// The name of the word list at `index` in the cycle.
fn language_at(index: usize) -> (name: String)
    ensures
        name@ == known_language(index as int),
{
    if index == 0 {
        String::from_str("english_200")
    } else if index == 1 {
        String::from_str("english_1000")
    } else {
        String::from_str("english_10000")
    }
}

impl Settings {
    /// Adjusts the field at `field` by one step: the mode toggles, the
    /// language moves round its cycle, the numbers move by their step and
    /// stop at their bounds. A `field` beyond the list changes nothing.
    pub fn modify(&mut self, field: usize, increase: bool)
        ensures
            final(self)@ == old(self)@.modified(field, increase),
            old(self)@.valid() ==> final(self)@.valid(),
    {
        proof {
            lemma_modified_keeps_valid(self@, field, increase);
        }
        if field == FIELD_TEST_MODE {
            self.test_mode = match self.test_mode {
                TestMode::Words => TestMode::Time,
                TestMode::Time => TestMode::Words,
            };
        } else if field == FIELD_WORD_COUNT {
            if increase && self.word_count < WORD_COUNT_MAX {
                self.word_count = self.word_count + WORD_COUNT_STEP;
            } else if !increase && self.word_count > WORD_COUNT_MIN {
                self.word_count = self.word_count - WORD_COUNT_STEP;
            }
        } else if field == FIELD_TIME_LIMIT {
            if increase && self.time_limit < TIME_LIMIT_MAX {
                self.time_limit = self.time_limit + TIME_LIMIT_STEP;
            } else if !increase && self.time_limit > TIME_LIMIT_MIN {
                self.time_limit = self.time_limit - TIME_LIMIT_STEP;
            }
        } else if field == FIELD_LANGUAGE {
            let current: usize = language_position(&self.language);
            let next: usize = if increase {
                (current + 1) % LANGUAGE_COUNT
            } else if current == 0 {
                LANGUAGE_COUNT - 1
            } else {
                current - 1
            };
            self.language = language_at(next);
        } else if field == FIELD_LINES {
            if increase && self.lines_to_display < LINES_MAX {
                self.lines_to_display = self.lines_to_display + 1;
            } else if !increase && self.lines_to_display > LINES_MIN {
                self.lines_to_display = self.lines_to_display - 1;
            }
        }
    }
}

impl Clone for Settings {
    fn clone(&self) -> (copy: Settings)
        ensures
            copy@ == self@,
    {
        Settings {
            test_mode: self.test_mode,
            word_count: self.word_count,
            time_limit: self.time_limit,
            language: self.language.clone(),
            lines_to_display: self.lines_to_display,
        }
    }
}

impl Default for Settings {
    fn default() -> (settings: Settings)
        ensures
            settings@ == SettingsView::initial(),
            settings@.valid(),
    {
        proof {
            lemma_initial_valid();
        }
        Settings {
            test_mode: TestMode::Time,
            word_count: 50,
            time_limit: 30,
            language: language_at(0),
            lines_to_display: 3,
        }
    }
}

/// The initial settings are valid.
pub proof fn lemma_initial_valid()
    ensures
        SettingsView::initial().valid(),
{
}

/// An adjustment of valid settings leaves them valid: no field leaves its
/// range or its step.
pub proof fn lemma_modified_keeps_valid(settings: SettingsView, field: usize, increase: bool)
    ensures
        settings.valid() ==> settings.modified(field, increase).valid(),
{
}

/// A clamped field at its upper bound ignores an increase, and at its lower
/// bound a decrease.
pub proof fn lemma_stepped_clamps(increase: bool, min: int, max: int, step: int)
    ensures
        stepped(max, true, min, max, step) == max,
        stepped(min, false, min, max, step) == min,
{
}

/// On valid settings an adjustment of a number is its value one step on,
/// cut off at the bound: the word count and the time limit stay between
/// their bounds and on their step, the line count between its bounds.
pub proof fn lemma_modified_is_clamped(settings: SettingsView, increase: bool)
    requires
        settings.valid(),
    ensures
        settings.modified(FIELD_WORD_COUNT, increase).word_count == if increase {
            if settings.word_count + WORD_COUNT_STEP > WORD_COUNT_MAX {
                WORD_COUNT_MAX as int
            } else {
                settings.word_count + WORD_COUNT_STEP
            }
        } else {
            if settings.word_count - WORD_COUNT_STEP < WORD_COUNT_MIN {
                WORD_COUNT_MIN as int
            } else {
                settings.word_count - WORD_COUNT_STEP
            }
        },
        settings.modified(FIELD_TIME_LIMIT, increase).time_limit == if increase {
            if settings.time_limit + TIME_LIMIT_STEP > TIME_LIMIT_MAX {
                TIME_LIMIT_MAX as int
            } else {
                settings.time_limit + TIME_LIMIT_STEP
            }
        } else {
            if settings.time_limit - TIME_LIMIT_STEP < TIME_LIMIT_MIN {
                TIME_LIMIT_MIN as int
            } else {
                settings.time_limit - TIME_LIMIT_STEP
            }
        },
        settings.modified(FIELD_LINES, increase).lines_to_display == if increase {
            if settings.lines_to_display + 1 > LINES_MAX {
                LINES_MAX as int
            } else {
                settings.lines_to_display + 1
            }
        } else {
            if settings.lines_to_display - 1 < LINES_MIN {
                LINES_MIN as int
            } else {
                settings.lines_to_display - 1
            }
        },
{
}

/// Moving the language of valid settings forward and then back, or back
/// and then forward, returns to the settings it started from.
pub proof fn lemma_language_round_trip(settings: SettingsView)
    requires
        is_known_language(settings.language),
    ensures
        settings.modified(FIELD_LANGUAGE, true).modified(FIELD_LANGUAGE, false) == settings,
        settings.modified(FIELD_LANGUAGE, false).modified(FIELD_LANGUAGE, true) == settings,
{
    lemma_known_languages_differ();
}

/// Repeated adjustments of the language keep it inside the cycle.
pub proof fn lemma_language_stays_known(settings: SettingsView, increase: bool, times: nat)
    requires
        is_known_language(settings.language),
    ensures
        is_known_language(settings.modified_times(FIELD_LANGUAGE, increase, times).language),
    decreases times,
{
    if times > 0 {
        lemma_language_stays_known(settings, increase, (times - 1) as nat);
        let before = settings.modified_times(FIELD_LANGUAGE, increase, (times - 1) as nat);
        let next = cycled_index(language_index(before.language), increase);
        assert(before.modified(FIELD_LANGUAGE, increase).language == known_language(next));
    }
}

/// One adjustment followed by `times` more is `times + 1` adjustments.
pub proof fn lemma_modified_times_front(
    settings: SettingsView,
    field: usize,
    increase: bool,
    times: nat,
)
    ensures
        settings.modified(field, increase).modified_times(field, increase, times)
            == settings.modified_times(field, increase, times + 1),
    decreases times,
{
    if times > 0 {
        lemma_modified_times_front(settings, field, increase, (times - 1) as nat);
    } else {
        assert(settings.modified_times(field, increase, 1) == settings.modified_times(
            field,
            increase,
            0,
        ).modified(field, increase));
    }
}

/// Moving the language of valid settings forward any number of times and
/// then back as many times returns to the settings it started from.
pub proof fn lemma_language_there_and_back(settings: SettingsView, times: nat)
    requires
        is_known_language(settings.language),
    ensures
        settings.modified_times(FIELD_LANGUAGE, true, times).modified_times(
            FIELD_LANGUAGE,
            false,
            times,
        ) == settings,
    decreases times,
{
    if times > 0 {
        let earlier = (times - 1) as nat;
        let near = settings.modified_times(FIELD_LANGUAGE, true, earlier);
        lemma_language_stays_known(settings, true, earlier);
        lemma_language_round_trip(near);
        lemma_modified_times_front(near.modified(FIELD_LANGUAGE, true), FIELD_LANGUAGE, false, earlier);
        lemma_language_there_and_back(settings, earlier);
    }
}

/// Moving the language of valid settings forward once for every word list
/// of the cycle returns to the settings it started from.
pub proof fn lemma_language_full_cycle(settings: SettingsView)
    requires
        is_known_language(settings.language),
    ensures
        settings.modified_times(FIELD_LANGUAGE, true, LANGUAGE_COUNT as nat) == settings,
        settings.modified_times(FIELD_LANGUAGE, false, LANGUAGE_COUNT as nat) == settings,
{
    lemma_known_languages_differ();
    reveal_with_fuel(SettingsView::modified_times, 4);
}

} // verus!
