//! Interface languages.
use vstd::prelude::*;

verus! {

/// The language that the interface speaks.
#[derive(Clone, Copy, Debug, PartialEq, Eq, Structural)]
pub enum UiLanguage {
    Chinese,
    English,
}

impl UiLanguage {
    /// The one of two texts that is in this language.
    pub open spec fn picked(self, chinese: Seq<char>, english: Seq<char>) -> Seq<char> {
        match self {
            UiLanguage::Chinese => chinese,
            UiLanguage::English => english,
        }
    }

    /// Chooses between the Chinese and the English form of a text.
    pub fn pick<'a>(self, chinese: &'a str, english: &'a str) -> (s: &'a str)
        ensures
            s@ == self.picked(chinese@, english@),
    {
        match self {
            UiLanguage::Chinese => chinese,
            UiLanguage::English => english,
        }
    }
}

/// Each language shows its own text.
pub proof fn languages_show_their_own_text(chinese: Seq<char>, english: Seq<char>)
    ensures
        UiLanguage::Chinese.picked(chinese, english) == chinese,
        UiLanguage::English.picked(chinese, english) == english,
{
}

} // verus!
