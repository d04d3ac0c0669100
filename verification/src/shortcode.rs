//! Short codes in the description of a puzzle state.
//!
//! A description is written in Markdown.  A link or an image in it whose
//! target is no address but a short word, such as `url-2` or `grid`, stands
//! for something that the state holds: one of its links, one of its
//! puzzles, or its grid.  This says what to show for each.

use vstd::prelude::*;
use crate::api::{PuzzleData, PuzzleDataView, PuzzleState, PuzzleStateView};
use crate::fpuzzles::{encode_fpuzzles_data, grid_svg_url, lz_text, thumbnail};
use crate::normalise::numeral_value;
use crate::text::{decimal, push_decimal, same, strip_prefix, without_prefix};

verus! {

/// The text kept under a key in the JSON object that a text spells, if it
/// spells one and the object keeps a text there.
pub uninterp spec fn member_text(json: Seq<char>, key: Seq<char>) -> Option<Seq<char>>;

/// Reads the text with `serde_json::from_str` and, where it gives an object
/// that has a string under the key, hands that string out.
#[verifier::external_body]
fn json_member_text(json: &str, key: &str) -> (text: Option<String>)
    ensures
        text.deep_view() == member_text(json@, key@),
{
    let value = serde_json::from_str::<serde_json::Value>(json).ok()?;
    value.as_object()?.get(key)?.as_str().map(String::from)
}

/// A link or an image with a short code as its target.
#[derive(Debug)]
pub enum TransformRequest {
    /// A link.  `plain` says that the link shows nothing but its own
    /// target.
    Link { url: String, title: String, plain: bool },
    /// An image.
    Image { url: String, title: String },
}

/// A request as plain text.
pub enum TransformRequestView {
    Link { url: Seq<char>, title: Seq<char>, plain: bool },
    Image { url: Seq<char>, title: Seq<char> },
}

impl View for TransformRequest {
    type V = TransformRequestView;

    open spec fn view(&self) -> TransformRequestView {
        match self {
            TransformRequest::Link { url, title, plain } => TransformRequestView::Link {
                url: url@,
                title: title@,
                plain: *plain,
            },
            TransformRequest::Image { url, title } => TransformRequestView::Image {
                url: url@,
                title: title@,
            },
        }
    }
}

/// What a link holds, as far as it matters here: text, a list of nodes,
/// or anything else.
#[derive(Debug)]
pub enum Node {
    List(Vec<Node>),
    Text(String),
    Other,
}

/// Whether a node is nothing but a text, wrapped in a list within a list, as
/// the renderer leaves the text of a link.
pub open spec fn is_bare_text(node: Node, target: Seq<char>) -> bool {
    &&& node is List
    &&& node->List_0@.len() == 1
    &&& node->List_0@[0] is List
    &&& node->List_0@[0]->List_0@.len() == 1
    &&& node->List_0@[0]->List_0@[0] is Text
    &&& node->List_0@[0]->List_0@[0]->Text_0@ == target
}

/// Whether a link shows nothing but the text `target`.
pub fn trivially_text(node: &Node, target: &str) -> (bare: bool)
    ensures
        bare == is_bare_text(*node, target@),
{
    if let Node::List(outer) = node {
        if outer.len() == 1 {
            if let Node::List(inner) = &outer[0] {
                if inner.len() == 1 {
                    if let Node::Text(text) = &inner[0] {
                        return same(target, text.as_str());
                    }
                }
            }
        }
    }
    false
}

/// What a link shows.
#[derive(Debug, PartialEq, Eq)]
pub enum Label {
    /// What the author wrote.
    Given,
    /// This text.
    Text(String),
    /// This text, set apart as a remark.
    Remark(String),
}

/// What to show for a short code.
#[derive(Debug, PartialEq, Eq)]
pub enum Transformed {
    /// The short code cannot be used like this; the message says why.
    Error(String),
    /// A link to an address.
    Anchor { href: String, title: Option<String>, label: Label },
    /// A reference to a puzzle of the pack.
    PackEntry { puzzle: String, label: Label },
    /// The rules of the grid, themselves Markdown.
    Rules(String),
    /// A picture from an address.
    Picture { src: String },
}

/// A label as plain text.
pub enum LabelView {
    Given,
    Text(Seq<char>),
    Remark(Seq<char>),
}

/// What to show, as plain text.
pub enum TransformedView {
    Error(Seq<char>),
    Anchor { href: Seq<char>, title: Option<Seq<char>>, label: LabelView },
    PackEntry { puzzle: Seq<char>, label: LabelView },
    Rules(Seq<char>),
    Picture { src: Seq<char> },
}

impl View for Label {
    type V = LabelView;

    open spec fn view(&self) -> LabelView {
        match self {
            Label::Given => LabelView::Given,
            Label::Text(text) => LabelView::Text(text@),
            Label::Remark(text) => LabelView::Remark(text@),
        }
    }
}

impl View for Transformed {
    type V = TransformedView;

    open spec fn view(&self) -> TransformedView {
        match self {
            Transformed::Error(message) => TransformedView::Error(message@),
            Transformed::Anchor { href, title, label } => TransformedView::Anchor {
                href: href@,
                title: title.deep_view(),
                label: label@,
            },
            Transformed::PackEntry { puzzle, label } => TransformedView::PackEntry {
                puzzle: puzzle@,
                label: label@,
            },
            Transformed::Rules(rules) => TransformedView::Rules(rules@),
            Transformed::Picture { src } => TransformedView::Picture { src: src@ },
        }
    }
}

/// Whether a text is made of decimal digits alone.
pub open spec fn all_digits(text: Seq<char>) -> bool {
    forall|i: int| 0 <= i < text.len() ==> '0' <= #[trigger] text[i] <= '9'
}

/// The number that a text names: digits, with a plus sign before them if
/// the writer so likes, that do not go beyond what the machine counts to.
pub open spec fn number_named(text: Seq<char>) -> Option<usize> {
    let digits = if text.len() > 0 && text[0] == '+' {
        text.subrange(1, text.len() as int)
    } else {
        text
    };
    if digits.len() > 0 && all_digits(digits) && numeral_value(digits) <= usize::MAX {
        Some(numeral_value(digits) as usize)
    } else {
        None
    }
}

/// The place in a list that a text names, counting from one.
pub open spec fn place_named(text: Seq<char>) -> Option<int> {
    match number_named(text) {
        Some(number) => if number > 0 {
            Some(number - 1)
        } else {
            None
        },
        None => None,
    }
}

/// What a link shows where it stands for something with a name of its own:
/// that name if the author wrote nothing else, and else what the author
/// wrote.
pub open spec fn label_or(plain: bool, text: LabelView) -> LabelView {
    if plain {
        text
    } else {
        LabelView::Given
    }
}

/// What to show for a link to the `n`-th address of the state.
pub open spec fn url_link(
    data: PuzzleDataView,
    code: Seq<char>,
    url: Seq<char>,
    title: Seq<char>,
    plain: bool,
) -> TransformedView {
    match place_named(code) {
        Some(at) => match data {
            PuzzleDataView::URLs(entries) => if at < entries.len() {
                TransformedView::Anchor {
                    href: entries[at].url,
                    title: Some(
                        if title == url {
                            entries[at].title
                        } else {
                            title
                        },
                    ),
                    label: label_or(plain, LabelView::Text(entries[at].title)),
                }
            } else {
                TransformedView::Error("URL index out of range: "@ + decimal((at + 1) as nat))
            },
            _ => TransformedView::Error("Use of "@ + url + " in non-URLs form puzzle state"@),
        },
        None => TransformedView::Error("Bad number in `url-"@ + code + "`"@),
    }
}

/// What to show for a link to the `n`-th puzzle of the pack.
pub open spec fn pack_link(
    data: PuzzleDataView,
    code: Seq<char>,
    url: Seq<char>,
    plain: bool,
) -> TransformedView {
    match place_named(code) {
        Some(at) => match data {
            PuzzleDataView::Pack(puzzles) => if at < puzzles.len() {
                TransformedView::PackEntry {
                    puzzle: puzzles[at],
                    label: label_or(plain, LabelView::Remark("TODO: Magic puzzle link content"@)),
                }
            } else {
                TransformedView::Error("Puzzle index out of range: "@ + decimal((at + 1) as nat))
            },
            _ => TransformedView::Error("Use of "@ + url + " in non-pack form puzzle state"@),
        },
        None => TransformedView::Error("Bad number in `puzzle-"@ + code + "`"@),
    }
}

/// Whether a word is the short code of a site that plays the grid.
pub open spec fn is_player(url: Seq<char>) -> bool {
    url == "fpuzzles"@ || url == "sudokupad"@ || url == "beta-sudokupad"@ || url
        == "sudokupad-beta"@
}

/// Whether a word is a short code that needs a grid.
pub open spec fn needs_grid(url: Seq<char>) -> bool {
    url == "grid"@ || url == "rules"@ || is_player(url)
}

/// The address at which a site plays a compressed grid.
pub open spec fn player_address(url: Seq<char>, packed: Seq<char>) -> Seq<char> {
    if url == "fpuzzles"@ {
        "http://f-puzzles.com/?load="@ + packed
    } else if url == "sudokupad"@ {
        "https://sudokupad.app/fpuzzles"@ + packed
    } else {
        "https://beta.sudokupad.app/fpuzzles"@ + packed
    }
}

/// What a link to a site says where the author wrote nothing.
pub open spec fn player_invitation(url: Seq<char>) -> Seq<char> {
    if url == "fpuzzles"@ {
        "Play this on F-Puzzles"@
    } else if url == "sudokupad"@ {
        "Play this on Sudokupad"@
    } else {
        "Play this on Sudokupad (beta)"@
    }
}

/// What to show for a link whose target is a word.
pub open spec fn word_link(data: PuzzleDataView, url: Seq<char>, plain: bool) -> TransformedView {
    if !needs_grid(url) {
        TransformedView::Error("Unknown special link: `"@ + url + "`"@)
    } else {
        match data {
            PuzzleDataView::FPuzzles(grid) => if url == "grid"@ {
                TransformedView::Error(
                    "Use of [grid] as a non-image link.  Did you mean `![grid]` instead?"@,
                )
            } else if url == "rules"@ {
                TransformedView::Rules(
                    match member_text(grid, "ruleset"@) {
                        Some(rules) => rules,
                        None => "No rules available in data"@,
                    },
                )
            } else {
                TransformedView::Anchor {
                    href: player_address(url, lz_text(grid)),
                    title: None,
                    label: label_or(plain, LabelView::Text(player_invitation(url))),
                }
            },
            _ => TransformedView::Error(
                "Use of `"@ + url + "` in a non-fpuzzles form puzzle state"@,
            ),
        }
    }
}

/// What to show for a request, if it is a short code at all.  A link always
/// is one; an image is one only where it asks for the grid.
pub open spec fn transformed(state: PuzzleStateView, request: TransformRequestView) -> Option<
    TransformedView,
> {
    match request {
        TransformRequestView::Link { url, title, plain } => Some(
            match without_prefix(url, "url-"@) {
                Some(code) => url_link(state.data, code, url, title, plain),
                None => match without_prefix(url, "puzzle-"@) {
                    Some(code) => pack_link(state.data, code, url, plain),
                    None => word_link(state.data, url, plain),
                },
            },
        ),
        TransformRequestView::Image { url, title } => if url == "grid"@ {
            Some(
                match state.data {
                    PuzzleDataView::FPuzzles(grid) => TransformedView::Picture {
                        src: thumbnail(grid),
                    },
                    _ => TransformedView::Error("Use of ![grid] in a non-fpuzzles puzzle state"@),
                },
            )
        } else {
            None
        },
    }
}

proof fn value_grows(digits: Seq<char>, upto: int)
    requires
        0 <= upto <= digits.len(),
        all_digits(digits),
    ensures
        numeral_value(digits.take(upto)) <= numeral_value(digits),
    decreases digits.len() - upto,
{
    if upto < digits.len() {
        value_grows(digits, upto + 1);
        let longer = digits.take(upto + 1);
        assert(longer.drop_last() =~= digits.take(upto));
        assert(longer.last() == digits[upto]);
    } else {
        assert(digits.take(upto) =~= digits);
    }
}

/// Reads a number from its decimal digits.
pub fn parse_number(text: &str) -> (number: Option<usize>)
    ensures
        number == number_named(text@),
{
    let mut value: usize = 0;
    let mut signed = false;
    let mut any = false;
    let mut first = true;
    let ghost digits = if text@.len() > 0 && text@[0] == '+' {
        text@.subrange(1, text@.len() as int)
    } else {
        text@
    };
    for c in it: text.chars()
        invariant
            it.seq() == text@,
            digits == (if text@.len() > 0 && text@[0] == '+' {
                text@.subrange(1, text@.len() as int)
            } else {
                text@
            }),
            first == (it.index() == 0),
            signed == (it.index() > 0 && text@[0] == '+'),
            any == (it.index() > (if signed { 1int } else { 0int })),
            it.index() - (if signed { 1int } else { 0int }) <= digits.len(),
            all_digits(digits.take(it.index() - (if signed { 1int } else { 0int }))),
            value == numeral_value(digits.take(it.index() - (if signed { 1int } else { 0int }))),
    {
        let ghost at = it.index() as int;
        if c == '+' && first {
            signed = true;
            first = false;
            proof {
                assert(digits.take(0) =~= Seq::<char>::empty());
            }
        } else {
            let ghost seen = at - (if signed { 1int } else { 0int });
            proof {
                assert(digits[seen] == c);
                assert(digits.take(seen + 1).drop_last() =~= digits.take(seen));
                assert(digits.take(seen + 1).last() == c);
            }
            if !(c >= '0' && c <= '9') {
                proof {
                    assert(!all_digits(digits));
                }
                return None;
            }
            let d: usize = (c as u8 - 48) as usize;
            if value > (usize::MAX - d) / 10 {
                proof {
                    if all_digits(digits) {
                        value_grows(digits, seen + 1);
                    }
                }
                return None;
            }
            value = value * 10 + d;
            any = true;
            first = false;
        }
    }
    proof {
        let seen = text@.len() - (if signed { 1int } else { 0int });
        assert(digits.take(seen) =~= digits);
    }
    if any {
        Some(value)
    } else {
        None
    }
}

fn label_for(plain: bool, text: Label) -> (label: Label)
    ensures
        label@ == label_or(plain, text@),
{
    if plain {
        text
    } else {
        Label::Given
    }
}

fn message(before: &str, middle: &str, after: &str) -> (text: String)
    ensures
        text@ == before@ + middle@ + after@,
{
    let mut text = before.to_owned();
    text.append(middle);
    text.append(after);
    text
}

fn out_of_range(before: &str, number: usize) -> (text: String)
    ensures
        text@ == before@ + decimal(number as nat),
{
    let mut text = before.to_owned();
    push_decimal(&mut text, number as u64);
    text
}

fn place_of(code: &str) -> (place: Option<usize>)
    ensures
        match place {
            Some(at) => place_named(code@) == Some(at as int),
            None => place_named(code@) is None,
        },
{
    match parse_number(code) {
        Some(number) => if number > 0 {
            Some(number - 1)
        } else {
            None
        },
        None => None,
    }
}

fn transform_url_link(data: &PuzzleData, code: &str, url: &str, title: String, plain: bool) -> (shown:
    Transformed)
    ensures
        shown@ == url_link(data@, code@, url@, title@, plain),
{
    let at = match place_of(code) {
        Some(at) => at,
        None => {
            return Transformed::Error(message("Bad number in `url-", code, "`"));
        },
    };
    match data {
        PuzzleData::URLs(entries) => {
            if at < entries.len() {
                let entry = &entries[at];
                let title = if same(title.as_str(), url) {
                    entry.title.clone()
                } else {
                    title
                };
                Transformed::Anchor {
                    href: entry.url.clone(),
                    title: Some(title),
                    label: label_for(plain, Label::Text(entry.title.clone())),
                }
            } else {
                Transformed::Error(out_of_range("URL index out of range: ", at + 1))
            }
        },
        _ => Transformed::Error(message("Use of ", url, " in non-URLs form puzzle state")),
    }
}

fn transform_pack_link(data: &PuzzleData, code: &str, url: &str, plain: bool) -> (shown:
    Transformed)
    ensures
        shown@ == pack_link(data@, code@, url@, plain),
{
    let at = match place_of(code) {
        Some(at) => at,
        None => {
            return Transformed::Error(message("Bad number in `puzzle-", code, "`"));
        },
    };
    match data {
        PuzzleData::Pack(puzzles) => {
            if at < puzzles.len() {
                Transformed::PackEntry {
                    puzzle: puzzles[at].clone(),
                    label: label_for(
                        plain,
                        Label::Remark("TODO: Magic puzzle link content".to_owned()),
                    ),
                }
            } else {
                Transformed::Error(out_of_range("Puzzle index out of range: ", at + 1))
            }
        },
        _ => Transformed::Error(message("Use of ", url, " in non-pack form puzzle state")),
    }
}

fn transform_word_link(data: &PuzzleData, url: &str, plain: bool) -> (shown: Transformed)
    ensures
        shown@ == word_link(data@, url@, plain),
{
    let is_grid = same(url, "grid");
    let is_rules = same(url, "rules");
    let is_fpuzzles = same(url, "fpuzzles");
    let is_sudokupad = same(url, "sudokupad");
    let is_beta = same(url, "beta-sudokupad") || same(url, "sudokupad-beta");
    if !(is_grid || is_rules || is_fpuzzles || is_sudokupad || is_beta) {
        return Transformed::Error(message("Unknown special link: `", url, "`"));
    }
    let grid = match data {
        PuzzleData::FPuzzles(grid) => grid,
        _ => {
            return Transformed::Error(
                message("Use of `", url, "` in a non-fpuzzles form puzzle state"),
            );
        },
    };
    if is_grid {
        Transformed::Error(
            "Use of [grid] as a non-image link.  Did you mean `![grid]` instead?".to_owned(),
        )
    } else if is_rules {
        Transformed::Rules(
            match json_member_text(grid.as_str(), "ruleset") {
                Some(rules) => rules,
                None => "No rules available in data".to_owned(),
            },
        )
    } else {
        let packed = encode_fpuzzles_data(grid.as_str());
        let (mut href, invitation) = if is_fpuzzles {
            ("http://f-puzzles.com/?load=".to_owned(), "Play this on F-Puzzles")
        } else if is_sudokupad {
            ("https://sudokupad.app/fpuzzles".to_owned(), "Play this on Sudokupad")
        } else {
            ("https://beta.sudokupad.app/fpuzzles".to_owned(), "Play this on Sudokupad (beta)")
        };
        href.append(packed.as_str());
        Transformed::Anchor {
            href,
            title: None,
            label: label_for(plain, Label::Text(invitation.to_owned())),
        }
    }
}

/// Says what to show for a link or an image with a short code, given the
/// state that the description belongs to.  Nothing is said of an image that
/// does not ask for the grid.
pub fn transform_markdown(grid: &PuzzleState, req: TransformRequest) -> (shown: Option<
    Transformed,
>)
    ensures
        match transformed(grid@, req@) {
            Some(view) => shown is Some && shown->0@ == view,
            None => shown is None,
        },
{
    match req {
        TransformRequest::Link { url, title, plain } => {
            if let Some(code) = strip_prefix(url.as_str(), "url-") {
                Some(transform_url_link(&grid.data, code.as_str(), url.as_str(), title, plain))
            } else if let Some(code) = strip_prefix(url.as_str(), "puzzle-") {
                Some(transform_pack_link(&grid.data, code.as_str(), url.as_str(), plain))
            } else {
                Some(transform_word_link(&grid.data, url.as_str(), plain))
            }
        },
        TransformRequest::Image { url, title: _ } => {
            if same(url.as_str(), "grid") {
                match &grid.data {
                    PuzzleData::FPuzzles(json) => Some(
                        Transformed::Picture { src: grid_svg_url(json.as_str()) },
                    ),
                    _ => Some(
                        Transformed::Error(
                            "Use of ![grid] in a non-fpuzzles puzzle state".to_owned(),
                        ),
                    ),
                }
            } else {
                None
            }
        },
    }
}

} // verus!
