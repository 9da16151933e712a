//! What the screen shows of the attempt: how each character of the text
//! stands against the input.

use vstd::prelude::*;
use crate::model::AppView;
use crate::state::App;

verus! {

/// How a character of the text stands against the input.
#[derive(Debug, Clone, Copy, PartialEq, Eq, Structural)]
pub enum CharStatus {
    /// Before the cursor, and typed as the text has it.
    Correct,
    /// Before the cursor, and typed otherwise.
    Incorrect,
    /// Under the cursor: the next one to type.
    Current,
    /// After the cursor.
    Pending,
}

impl AppView {
    /// How the character at `index` of the text stands against the input.
    /// A position before the cursor that the input or the text does not
    /// reach counts as correct.
    pub open spec fn char_status(self, index: int) -> CharStatus {
        if index < self.current_pos {
            if index < self.current_input.len() && index < self.test_text.len()
                && self.current_input[index] != self.test_text[index] {
                CharStatus::Incorrect
            } else {
                CharStatus::Correct
            }
        } else if index == self.current_pos {
            CharStatus::Current
        } else {
            CharStatus::Pending
        }
    }
}

impl App {
    /// How the character at `index` of the text stands against the input.
    pub fn char_status(&self, index: usize) -> (status: CharStatus)
        ensures
            status == self@.char_status(index as int),
    {
        let pos: usize = self.current_pos();
        if index < pos {
            let input = self.current_input();
            let text = self.test_text();
            if index < input.len() && index < text.len() && input[index] != text[index] {
                CharStatus::Incorrect
            } else {
                CharStatus::Correct
            }
        } else if index == pos {
            CharStatus::Current
        } else {
            CharStatus::Pending
        }
    }
}

} // verus!
