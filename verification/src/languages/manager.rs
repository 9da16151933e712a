//! The set of loaded word lists, and random texts drawn from them.

use rand::rngs::ThreadRng;
use rand::seq::IndexedRandom;
use vstd::prelude::*;
use vstd::string::StringExecFns;
use crate::languages::models::{texts, Language, LanguageView};
use crate::words::DEFAULT_TEXT;

verus! {

/// `rand::rngs::ThreadRng`, the handle of the thread's random number
/// generator.
#[verifier::external_type_specification]
#[verifier::external_body]
pub struct ExThreadRng(rand::rngs::ThreadRng);

/// `rand::rng`. Trusted to return a handle; nothing is claimed of it. (It
/// panics if the operating system cannot seed the thread's generator.)
pub assume_specification[ rand::rng ]() -> (rng: ThreadRng);

/// `IndexedRandom::choose` of `rand` on the slice of `words`. Trusted: an
/// empty slice gives `None`, any other gives one of its elements. Which one
/// depends on the generator, so nothing more is claimed.
#[verifier::external_body]
fn choose_word<'a>(words: &'a Vec<String>, rng: &mut ThreadRng) -> (word: Option<&'a String>)
    ensures
        words@.len() == 0 ==> word is None,
        words@.len() > 0 ==> word is Some && words@.contains(*word.unwrap()),
{
    words.choose(rng)
}

/// The words of `words` in order, with `separator` between each two.
pub open spec fn joined(words: Seq<Seq<char>>, separator: Seq<char>) -> Seq<char>
    decreases words.len(),
{
    if words.len() == 0 {
        Seq::empty()
    } else if words.len() == 1 {
        words[0]
    } else {
        joined(words.drop_last(), separator) + separator + words.last()
    }
}

/// Index of the first of `names` from position `from` on that equals
/// `name`.
pub open spec fn first_named(names: Seq<Seq<char>>, name: Seq<char>, from: int) -> Option<int>
    decreases names.len() - from,
{
    if from < 0 || from >= names.len() {
        None
    } else if names[from] == name {
        Some(from)
    } else {
        first_named(names, name, from + 1)
    }
}

/// Whether `chosen` is a draw of `count` words from `list`, with
/// repetition. From an empty list nothing can be drawn.
pub open spec fn is_draw(chosen: Seq<Seq<char>>, list: Seq<Seq<char>>, count: nat) -> bool {
    if list.len() == 0 {
        chosen.len() == 0
    } else {
        &&& chosen.len() == count
        &&& forall|k: int| 0 <= k < chosen.len() ==> list.contains(#[trigger] chosen[k])
    }
}

/// Whether `text` is `count` words drawn from `list`, joined by single
/// spaces.
pub open spec fn is_sample(text: Seq<char>, list: Seq<Seq<char>>, count: nat) -> bool {
    exists|chosen: Seq<Seq<char>>| #[trigger]
        is_draw(chosen, list, count) && text == joined(chosen, " "@)
}

/// `first_named` finds the least index that holds the name, and finds none
/// only where no index holds it.
pub proof fn lemma_first_named(names: Seq<Seq<char>>, name: Seq<char>, from: int)
    requires
        0 <= from,
    ensures
        match first_named(names, name, from) {
            Some(index) => {
                &&& from <= index < names.len()
                &&& names[index] == name
                &&& forall|j: int| from <= j < index ==> names[j] != name
            },
            None => forall|j: int| from <= j < names.len() ==> names[j] != name,
        },
    decreases names.len() - from,
{
    if from < names.len() && names[from] != name {
        lemma_first_named(names, name, from + 1);
    }
}

/// The word lists that have been loaded, in the order in which they were
/// added.
pub struct LanguageManager {
    languages: Vec<Language>,
}

impl View for LanguageManager {
    type V = Seq<LanguageView>;

    closed spec fn view(&self) -> Seq<LanguageView> {
        self.languages@.map_values(|language: Language| language@)
    }
}

/// Joins `words` with single spaces.
pub fn join_words(words: &Vec<String>) -> (text: String)
    ensures
        text@ == joined(texts(words@), " "@),
{
    let mut text: String = String::new();
    let mut i: usize = 0;
    while i < words.len()
        invariant
            i <= words.len(),
            text@ == joined(texts(words@).take(i as int), " "@),
        decreases words.len() - i,
    {
        let ghost all = texts(words@);
        if i > 0 {
            text.append(" ");
        }
        text.append(words[i].as_str());
        proof {
            assert(all.take(i + 1).drop_last() =~= all.take(i as int));
        }
        i = i + 1;
    }
    assert(texts(words@).take(words.len() as int) =~= texts(words@));
    text
}

impl LanguageManager {
    /// The names of the word lists, in order.
    pub open spec fn names(self) -> Seq<Seq<char>> {
        self@.map_values(|language: LanguageView| language.name)
    }

    /// Index of the first word list called `name`.
    pub open spec fn position(self, name: Seq<char>) -> Option<int> {
        first_named(self.names(), name, 0)
    }

    /// A manager without word lists.
    pub fn new() -> (manager: LanguageManager)
        ensures
            manager@ == Seq::<LanguageView>::empty(),
    {
        LanguageManager { languages: Vec::new() }
    }

    /// Adds `language` after the word lists already there.
    pub fn add_language(&mut self, language: Language)
        ensures
            final(self)@ == old(self)@.push(language@),
    {
        self.languages.push(language);
    }

    /// The first word list called `name`, if there is one.
    pub fn get_language(&self, name: &str) -> (found: Option<&Language>)
        ensures
            match self.position(name@) {
                Some(index) => found is Some && found.unwrap()@ == self@[index],
                None => found is None,
            },
    {
        let wanted: String = String::from_str(name);
        let mut i: usize = 0;
        while i < self.languages.len()
            invariant
                i <= self.languages.len(),
                wanted@ == name@,
                self.position(name@) == first_named(self.names(), name@, i as int),
            decreases self.languages.len() - i,
        {
            if self.languages[i].name == wanted {
                return Some(&self.languages[i]);
            }
            i = i + 1;
        }
        None
    }

    /// The names of the word lists, in order.
    pub fn available_languages(&self) -> (names: Vec<String>)
        ensures
            texts(names@) == self.names(),
    {
        let mut names: Vec<String> = Vec::new();
        let mut i: usize = 0;
        while i < self.languages.len()
            invariant
                i <= self.languages.len(),
                names@.len() == i,
                forall|k: int| 0 <= k < i ==> (#[trigger] names@[k])@ == self.languages@[k].name@,
            decreases self.languages.len() - i,
        {
            names.push(self.languages[i].name.clone());
            i = i + 1;
        }
        names
    }

    /// A text of `word_count` words drawn at random, with repetition, from
    /// the first word list called `language_name` and joined by single
    /// spaces: empty where that list is empty, and the default text where
    /// there is no such list.
    pub fn generate_text(&self, language_name: &str, word_count: usize) -> (text: String)
        ensures
            match self.position(language_name@) {
                Some(index) => is_sample(text@, self@[index].words, word_count as nat),
                None => text@ == DEFAULT_TEXT@,
            },
    {
        match self.get_language(language_name) {
            Some(language) => {
                let mut rng: ThreadRng = rand::rng();
                let mut words: Vec<String> = Vec::new();
                let mut i: usize = 0;
                while i < word_count
                    invariant
                        i <= word_count,
                        is_draw(texts(words@), texts(language.words@), i as nat),
                    decreases word_count - i,
                {
                    let ghost before = words@;
                    if let Some(word) = choose_word(&language.words, &mut rng) {
                        words.push(word.clone());
                        proof {
                            let index = choose|index: int|
                                0 <= index < language.words@.len() && language.words@[index]
                                    == *word;
                            assert(texts(language.words@)[index] == word@);
                            assert forall|k: int| 0 <= k < texts(words@).len() implies texts(
                                language.words@,
                            ).contains(#[trigger] texts(words@)[k]) by {
                                if k < before.len() {
                                    assert(texts(words@)[k] == texts(before)[k]);
                                }
                            }
                        }
                    }
                    i = i + 1;
                }
                let text: String = join_words(&words);
                text
            },
            None => String::from_str(DEFAULT_TEXT),
        }
    }
}

} // verus!
