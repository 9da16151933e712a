//! A named list of words.

use vstd::prelude::*;

verus! {

/// A word list under its name.
#[derive(Debug)]
pub struct Language {
    pub name: String,
    pub words: Vec<String>,
}

/// A word list as plain values.
pub struct LanguageView {
    pub name: Seq<char>,
    pub words: Seq<Seq<char>>,
}

/// The characters of each string of `strings`.
pub open spec fn texts(strings: Seq<String>) -> Seq<Seq<char>> {
    strings.map_values(|s: String| s@)
}

impl View for Language {
    type V = LanguageView;

    open spec fn view(&self) -> LanguageView {
        LanguageView { name: self.name@, words: texts(self.words@) }
    }
}

/// A copy of `strings`.
pub fn clone_strings(strings: &Vec<String>) -> (copy: Vec<String>)
    ensures
        copy@ == strings@,
{
    let mut copy: Vec<String> = Vec::new();
    let mut i: usize = 0;
    while i < strings.len()
        invariant
            i <= strings.len(),
            copy@ == strings@.take(i as int),
        decreases strings.len() - i,
    {
        copy.push(strings[i].clone());
        i = i + 1;
    }
    copy
}

impl Clone for Language {
    fn clone(&self) -> (copy: Language)
        ensures
            copy@ == self@,
    {
        Language { name: self.name.clone(), words: clone_strings(&self.words) }
    }
}

} // verus!
