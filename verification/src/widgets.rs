//! What the pages' small parts show: the marks on a tooltip, and the
//! initials or the picture of a user.

use vstd::prelude::*;

verus! {

/// How the text of a tooltip is aligned.
#[derive(Debug, PartialEq, Eq, Copy, Clone, Structural)]
pub enum TooltipTextAlignment {
    Default,
    Left,
    Centered,
    Right,
}

/// On which side of its target a tooltip stands.
#[derive(Debug, PartialEq, Eq, Copy, Clone, Structural)]
pub enum TooltipAlignment {
    Default,
    Top,
    Bottom,
    Left,
    Right,
}

/// The colour of a tooltip.
#[derive(Debug, PartialEq, Eq, Copy, Clone, Structural)]
pub enum TooltipLevel {
    Normal,
    Info,
    Warning,
    Primary,
    Success,
    Danger,
}

impl TooltipTextAlignment {
    /// The style class for the alignment, if it needs one.
    pub open spec fn class(self) -> Option<Seq<char>> {
        match self {
            TooltipTextAlignment::Default => None,
            TooltipTextAlignment::Left => Some("has-tooltip-text-left"@),
            TooltipTextAlignment::Centered => Some("has-tooltip-text-centered"@),
            TooltipTextAlignment::Right => Some("has-tooltip-text-right"@),
        }
    }

    /// The style class for the alignment, if it needs one.
    pub fn classname(self) -> (class: Option<&'static str>)
        ensures
            class.deep_view() == self.class(),
    {
        match self {
            TooltipTextAlignment::Default => None,
            TooltipTextAlignment::Left => Some("has-tooltip-text-left"),
            TooltipTextAlignment::Centered => Some("has-tooltip-text-centered"),
            TooltipTextAlignment::Right => Some("has-tooltip-text-right"),
        }
    }
}

impl TooltipAlignment {
    /// The style class for the side, if it needs one.
    pub open spec fn class(self) -> Option<Seq<char>> {
        match self {
            TooltipAlignment::Default => None,
            TooltipAlignment::Top => Some("has-tooltip-top"@),
            TooltipAlignment::Bottom => Some("has-tooltip-bottom"@),
            TooltipAlignment::Left => Some("has-tooltip-left"@),
            TooltipAlignment::Right => Some("has-tooltip-right"@),
        }
    }

    /// The style class for the side, if it needs one.
    pub fn classname(self) -> (class: Option<&'static str>)
        ensures
            class.deep_view() == self.class(),
    {
        match self {
            TooltipAlignment::Default => None,
            TooltipAlignment::Top => Some("has-tooltip-top"),
            TooltipAlignment::Bottom => Some("has-tooltip-bottom"),
            TooltipAlignment::Left => Some("has-tooltip-left"),
            TooltipAlignment::Right => Some("has-tooltip-right"),
        }
    }
}

impl TooltipLevel {
    /// The style class for the colour, if it needs one.
    pub open spec fn class(self) -> Option<Seq<char>> {
        match self {
            TooltipLevel::Normal => None,
            TooltipLevel::Info => Some("has-tooltip-info"@),
            TooltipLevel::Warning => Some("has-tooltip-warning"@),
            TooltipLevel::Primary => Some("has-tooltip-primary"@),
            TooltipLevel::Success => Some("has-tooltip-success"@),
            TooltipLevel::Danger => Some("has-tooltip-danger"@),
        }
    }

    /// The style class for the colour, if it needs one.
    pub fn classname(self) -> (class: Option<&'static str>)
        ensures
            class.deep_view() == self.class(),
    {
        match self {
            TooltipLevel::Normal => None,
            TooltipLevel::Info => Some("has-tooltip-info"),
            TooltipLevel::Warning => Some("has-tooltip-warning"),
            TooltipLevel::Primary => Some("has-tooltip-primary"),
            TooltipLevel::Success => Some("has-tooltip-success"),
            TooltipLevel::Danger => Some("has-tooltip-danger"),
        }
    }
}

/// A list with one more class, where there is one to add.
pub open spec fn with_class(classes: Seq<Seq<char>>, class: Option<Seq<char>>) -> Seq<Seq<char>> {
    match class {
        Some(class) => classes.push(class),
        None => classes,
    }
}

/// A class, if a switch is on.
pub open spec fn class_if(on: bool, class: Seq<char>) -> Option<Seq<char>> {
    if on {
        Some(class)
    } else {
        None
    }
}

/// The style classes of a tooltip, in order: side, arrow, colour, text
/// alignment, more than one line, always shown.
pub open spec fn tooltip_classes(
    alignment: TooltipAlignment,
    arrow: bool,
    level: TooltipLevel,
    textalign: TooltipTextAlignment,
    multiline: bool,
    active: bool,
) -> Seq<Seq<char>> {
    let classes = with_class(Seq::empty(), alignment.class());
    let classes = with_class(classes, class_if(arrow, "has-tooltip-arrow"@));
    let classes = with_class(classes, level.class());
    let classes = with_class(classes, textalign.class());
    let classes = with_class(classes, class_if(multiline, "has-tooltip-multiline"@));
    with_class(classes, class_if(active, "has-tooltip-active"@))
}

fn add_class(classes: &mut Vec<&'static str>, class: Option<&'static str>)
    ensures
        final(classes).deep_view() == with_class(old(classes).deep_view(), class.deep_view()),
{
    let ghost before = classes.deep_view();
    match class {
        Some(class) => {
            classes.push(class);
            assert(classes.deep_view() =~= before.push(class@));
        },
        None => {},
    }
}

fn when(on: bool, class: &'static str) -> (chosen: Option<&'static str>)
    ensures
        chosen.deep_view() == class_if(on, class@),
{
    if on {
        Some(class)
    } else {
        None
    }
}

/// Puts together the style classes of a tooltip.
pub fn tooltip_component(
    alignment: TooltipAlignment,
    arrow: bool,
    level: TooltipLevel,
    textalign: TooltipTextAlignment,
    multiline: bool,
    active: bool,
) -> (classes: Vec<&'static str>)
    ensures
        classes.deep_view() == tooltip_classes(
            alignment,
            arrow,
            level,
            textalign,
            multiline,
            active,
        ),
{
    let mut classes: Vec<&'static str> = Vec::new();
    assert(classes.deep_view() =~= Seq::<Seq<char>>::empty());
    add_class(&mut classes, alignment.classname());
    add_class(&mut classes, when(arrow, "has-tooltip-arrow"));
    add_class(&mut classes, level.classname());
    add_class(&mut classes, textalign.classname());
    add_class(&mut classes, when(multiline, "has-tooltip-multiline"));
    add_class(&mut classes, when(active, "has-tooltip-active"));
    classes
}

/// Whether a character is white space.
pub open spec fn is_space(c: char) -> bool {
    let code = c as u32;
    ||| 0x09 <= code <= 0x0d
    ||| code == 0x20
    ||| code == 0x85
    ||| code == 0xa0
    ||| code == 0x1680
    ||| 0x2000 <= code <= 0x200a
    ||| code == 0x2028
    ||| code == 0x2029
    ||| code == 0x202f
    ||| code == 0x205f
    ||| code == 0x3000
}

/// Whether a word of a name begins at a place: a character that is no white
/// space stands there, at the very beginning or behind white space.
pub open spec fn word_starts(name: Seq<char>, at: int) -> bool {
    &&& 0 <= at < name.len()
    &&& !is_space(name[at])
    &&& (at == 0 || is_space(name[at - 1]))
}

/// Whether no word begins before a place.
pub open spec fn no_word_before(name: Seq<char>, upto: int) -> bool {
    forall|i: int| 0 <= i < upto ==> !word_starts(name, i)
}

/// Whether no word begins between two places.
pub open spec fn no_word_between(name: Seq<char>, from: int, upto: int) -> bool {
    forall|i: int| from < i < upto ==> !word_starts(name, i)
}

/// Whether a text is the initials of a name whose first word begins at
/// `first` and whose last word begins at `last`: the letters at these
/// places, or the one letter where they are the same place.
pub open spec fn initials_at(initials: Seq<char>, name: Seq<char>, first: int, last: int) -> bool {
    &&& word_starts(name, first)
    &&& no_word_before(name, first)
    &&& word_starts(name, last)
    &&& no_word_between(name, last, name.len() as int)
    &&& initials == (if first == last {
        seq![name[first]]
    } else {
        seq![name[first], name[last]]
    })
}

/// Whether a text is the initials of a name: the first letter of the first
/// word and, where there are more words, the first letter of the last; two
/// question marks stand for a name without a word.
pub open spec fn is_initials_of(initials: Seq<char>, name: Seq<char>) -> bool {
    if no_word_before(name, name.len() as int) {
        initials == seq!['?', '?']
    } else {
        exists|first: int, last: int| #[trigger] initials_at(initials, name, first, last)
    }
}

fn space(c: char) -> (white: bool)
    ensures
        white == is_space(c),
{
    let code = c as u32;
    (0x09 <= code && code <= 0x0d) || code == 0x20 || code == 0x85 || code == 0xa0 || code
        == 0x1680 || (0x2000 <= code && code <= 0x200a) || code == 0x2028 || code == 0x2029 || code
        == 0x202f || code == 0x205f || code == 0x3000
}

/// The initials to show for a user without a picture.
pub fn initials(name: &str) -> (letters: String)
    ensures
        is_initials_of(letters@, name@),
{
    let mut first: Option<char> = None;
    let mut last: Option<char> = None;
    let mut after_space = true;
    let mut several = false;
    let ghost mut first_at: int = 0;
    let ghost mut last_at: int = 0;
    for c in it: name.chars()
        invariant
            it.seq() == name@,
            after_space == (it.index() == 0 || is_space(name@[it.index() - 1])),
            first is Some <==> last is Some,
            first is None ==> no_word_before(name@, it.index() as int),
            first is Some ==> word_starts(name@, first_at),
            first is Some ==> no_word_before(name@, first_at),
            first is Some ==> word_starts(name@, last_at),
            first is Some ==> no_word_between(name@, last_at, it.index() as int),
            first is Some ==> first_at <= last_at < it.index(),
            first is None ==> !several,
            first is Some ==> (several <==> first_at != last_at),
            first is Some ==> first->0 == name@[first_at],
            first is Some ==> last->0 == name@[last_at],
    {
        let white = space(c);
        let ghost at = it.index() as int;
        proof {
            assert(c == name@[at]);
            if !(!white && after_space) {
                assert(!word_starts(name@, at));
            } else {
                assert(word_starts(name@, at));
            }
        }
        if !white && after_space {
            if first.is_none() {
                first = Some(c);
                proof {
                    first_at = at;
                }
            } else {
                several = true;
            }
            last = Some(c);
            proof {
                last_at = at;
            }
        }
        after_space = white;
    }
    let mut letters = String::new();
    match (first, last) {
        (Some(a), Some(b)) => {
            letters.push(a);
            proof {
                if first_at == last_at {
                    assert(letters@ =~= seq![name@[first_at]]);
                }
            }
            if several {
                letters.push(b);
                assert(letters@ =~= seq![name@[first_at], name@[last_at]]);
            }
            proof {
                assert(!no_word_before(name@, name@.len() as int));
                assert(initials_at(letters@, name@, first_at, last_at));
            }
        },
        _ => {
            letters.push('?');
            letters.push('?');
            assert(letters@ =~= seq!['?', '?']);
        },
    }
    letters
}

/// The address of the picture that goes with a hashed e-mail address.
pub fn avatar_url(gravatar_hash: &str) -> (url: String)
    ensures
        url@ == "https://www.gravatar.com/avatar/"@ + gravatar_hash@,
{
    let mut url = "https://www.gravatar.com/avatar/".to_owned();
    url.append(gravatar_hash);
    url
}

} // verus!
