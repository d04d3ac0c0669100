//! Who may see a puzzle or one of its states.

use vstd::prelude::*;
use crate::text::same;

verus! {

/// How widely a puzzle, or a single state of it, is shown.
#[derive(Debug, Clone, Copy, PartialEq, Eq, Structural)]
pub enum Visibility {
    /// Only the owning role sees it.
    Restricted,
    /// Anyone holding the link sees it.
    Public,
    /// Anyone sees it, and it is listed.
    Published,
}

impl Visibility {
    /// Whether something with this visibility is shown to a viewer, given
    /// whether that viewer acts as the owner.
    pub open spec fn shown_to(self, is_owner: bool) -> bool {
        self != Visibility::Restricted || is_owner
    }

    /// The word that stands for a visibility in the store.
    pub open spec fn word(self) -> Seq<char> {
        match self {
            Visibility::Restricted => "restricted"@,
            Visibility::Public => "public"@,
            Visibility::Published => "published"@,
        }
    }

    /// The visibility that a word of the store stands for, if any.
    pub open spec fn of_word(word: Seq<char>) -> Option<Visibility> {
        if word == "restricted"@ {
            Some(Visibility::Restricted)
        } else if word == "public"@ {
            Some(Visibility::Public)
        } else if word == "published"@ {
            Some(Visibility::Published)
        } else {
            None
        }
    }

    /// The word for this visibility.
    pub fn name(self) -> (word: &'static str)
        ensures
            word@ == self.word(),
    {
        match self {
            Visibility::Restricted => "restricted",
            Visibility::Public => "public",
            Visibility::Published => "published",
        }
    }

    /// Reads a visibility from its word.
    pub fn parse(word: &str) -> (visibility: Option<Visibility>)
        ensures
            visibility == Visibility::of_word(word@),
    {
        if same(word, "restricted") {
            Some(Visibility::Restricted)
        } else if same(word, "public") {
            Some(Visibility::Public)
        } else if same(word, "published") {
            Some(Visibility::Published)
        } else {
            None
        }
    }

    /// Decides whether a viewer may see something with this visibility.
    pub fn visible_to(self, is_owner: bool) -> (shown: bool)
        ensures
            shown == self.shown_to(is_owner),
    {
        match self {
            Visibility::Restricted => is_owner,
            Visibility::Public => true,
            Visibility::Published => true,
        }
    }
}

impl Default for Visibility {
    fn default() -> (v: Visibility)
        ensures
            v == Visibility::Restricted,
    {
        Visibility::Restricted
    }
}

/// Reading the word of a visibility gives that visibility back.
pub proof fn visibility_word_round_trip(visibility: Visibility)
    ensures
        Visibility::of_word(visibility.word()) == Some(visibility),
{
    reveal_strlit("restricted");
    reveal_strlit("public");
    reveal_strlit("published");
    assert("restricted"@.len() == 10 && "public"@.len() == 6 && "published"@.len() == 9);
}

} // verus!
