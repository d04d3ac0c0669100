//! How hard a puzzle's setter says it is.

use vstd::prelude::*;
use crate::text::same;

verus! {

/// A setter's rating of a puzzle state.
#[derive(Debug, Clone, Copy, PartialEq, Eq, Structural)]
pub enum Rating {
    Tutorial,
    Beginner,
    Easy,
    Regular,
    Hard,
    VeryHard,
}

impl Default for Rating {
    fn default() -> (rating: Rating)
        ensures
            rating == Rating::Regular,
    {
        Rating::Regular
    }
}

impl Rating {
    /// The word that stands for a rating in stored and transmitted data.
    pub open spec fn word(self) -> Seq<char> {
        match self {
            Rating::Tutorial => "tutorial"@,
            Rating::Beginner => "beginner"@,
            Rating::Easy => "easy"@,
            Rating::Regular => "regular"@,
            Rating::Hard => "hard"@,
            Rating::VeryHard => "veryhard"@,
        }
    }

    /// The rating that a word stands for; any word that names no rating
    /// stands for a regular puzzle.
    pub open spec fn of_word(word: Seq<char>) -> Rating {
        if word == "tutorial"@ {
            Rating::Tutorial
        } else if word == "beginner"@ {
            Rating::Beginner
        } else if word == "easy"@ {
            Rating::Easy
        } else if word == "hard"@ {
            Rating::Hard
        } else if word == "veryhard"@ {
            Rating::VeryHard
        } else {
            Rating::Regular
        }
    }

    /// The sentence that describes a rating to a reader.
    pub open spec fn caption(self) -> Seq<char> {
        match self {
            Rating::Tutorial => "Tutorial puzzle"@,
            Rating::Beginner => "Good for beginners"@,
            Rating::Easy => "Generally easy"@,
            Rating::Regular => "Regular difficulty"@,
            Rating::Hard => "Puzzle is hard"@,
            Rating::VeryHard => "Puzzle is very hard"@,
        }
    }

    /// All ratings, from the easiest to the hardest.
    pub open spec fn all() -> Seq<Rating> {
        seq![
            Rating::Tutorial,
            Rating::Beginner,
            Rating::Easy,
            Rating::Regular,
            Rating::Hard,
            Rating::VeryHard,
        ]
    }

    /// All ratings, from the easiest to the hardest.
    pub fn values() -> (all: &'static [Rating])
        ensures
            all@ == Rating::all(),
    {
        let all: &'static [Rating] = &[
            Rating::Tutorial,
            Rating::Beginner,
            Rating::Easy,
            Rating::Regular,
            Rating::Hard,
            Rating::VeryHard,
        ];
        assert(all@ =~= Rating::all());
        all
    }

    /// Reads a rating from its word.
    pub fn from_value(v: &str) -> (rating: Rating)
        ensures
            rating == Rating::of_word(v@),
    {
        if same(v, "tutorial") {
            Rating::Tutorial
        } else if same(v, "beginner") {
            Rating::Beginner
        } else if same(v, "easy") {
            Rating::Easy
        } else if same(v, "hard") {
            Rating::Hard
        } else if same(v, "veryhard") {
            Rating::VeryHard
        } else {
            Rating::Regular
        }
    }

    /// The word for this rating.
    pub fn value(self) -> (word: &'static str)
        ensures
            word@ == self.word(),
    {
        match self {
            Rating::Tutorial => "tutorial",
            Rating::Beginner => "beginner",
            Rating::Easy => "easy",
            Rating::Regular => "regular",
            Rating::Hard => "hard",
            Rating::VeryHard => "veryhard",
        }
    }

    /// The sentence that describes this rating.
    pub fn title(self) -> (caption: &'static str)
        ensures
            caption@ == self.caption(),
    {
        match self {
            Rating::Tutorial => "Tutorial puzzle",
            Rating::Beginner => "Good for beginners",
            Rating::Easy => "Generally easy",
            Rating::Regular => "Regular difficulty",
            Rating::Hard => "Puzzle is hard",
            Rating::VeryHard => "Puzzle is very hard",
        }
    }
}

/// Reading the word of a rating gives that rating back.
pub proof fn word_round_trip(rating: Rating)
    ensures
        Rating::of_word(rating.word()) == rating,
{
    reveal_strlit("tutorial");
    reveal_strlit("beginner");
    reveal_strlit("easy");
    reveal_strlit("regular");
    reveal_strlit("hard");
    reveal_strlit("veryhard");
    assert("tutorial"@[0] == 't' && "beginner"@[0] == 'b' && "veryhard"@[0] == 'v');
    assert("easy"@[0] == 'e' && "hard"@[0] == 'h');
}

} // verus!
