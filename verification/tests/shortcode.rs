use linkdoku::api::{PuzzleData, PuzzleState, UrlEntry};
use linkdoku::fpuzzles::{encode_fpuzzles_data, grid_svg_url};
use linkdoku::rating::Rating;
use linkdoku::shortcode::{
    parse_number, transform_markdown, trivially_text, Label, Node, TransformRequest,
    Transformed,
};
use linkdoku::visibility::Visibility;

const GRID: &str = r#"{"size":9,"ruleset":"Normal sudoku rules apply."}"#;

fn state(data: PuzzleData) -> PuzzleState {
    PuzzleState {
        description: String::new(),
        setter_rating: Rating::Regular,
        data,
        visibility: Visibility::Public,
        visibility_changed: None,
    }
}

fn urls() -> PuzzleState {
    state(PuzzleData::URLs(vec![
        UrlEntry {
            title: "First".to_string(),
            url: "https://example.com/1".to_string(),
        },
        UrlEntry {
            title: "Second".to_string(),
            url: "https://example.com/2".to_string(),
        },
    ]))
}

fn pack() -> PuzzleState {
    state(PuzzleData::Pack(vec!["alpha".to_string(), "beta".to_string()]))
}

fn grid() -> PuzzleState {
    state(PuzzleData::FPuzzles(GRID.to_string()))
}

fn link(state: &PuzzleState, url: &str, title: &str, plain: bool) -> Transformed {
    transform_markdown(
        state,
        TransformRequest::Link {
            url: url.to_string(),
            title: title.to_string(),
            plain,
        },
    )
    .expect("every link is a short code")
}

fn image(state: &PuzzleState, url: &str) -> Option<Transformed> {
    transform_markdown(
        state,
        TransformRequest::Image {
            url: url.to_string(),
            title: String::new(),
        },
    )
}

fn error(message: &str) -> Transformed {
    Transformed::Error(message.to_string())
}

#[test]
fn numbers_are_read_as_the_language_reads_them() {
    for text in [
        "0", "7", "007", "+5", "+0", "12345", "", "+", "-1", "5a", " 5", "5 ", "++5", "5+", "٣",
        "18446744073709551615", "18446744073709551616", "99999999999999999999999",
        "000000000000000000000000001",
    ] {
        assert_eq!(parse_number(text), text.parse::<usize>().ok(), "{:?}", text);
    }
    assert_eq!(parse_number("42"), Some(42));
    assert_eq!(parse_number("+42"), Some(42));
    assert_eq!(parse_number("4 2"), None);
}

#[test]
fn url_code_links_to_the_entry() {
    assert_eq!(
        link(&urls(), "url-2", "url-2", true),
        Transformed::Anchor {
            href: "https://example.com/2".to_string(),
            title: Some("Second".to_string()),
            label: Label::Text("Second".to_string()),
        }
    );
    assert_eq!(
        link(&urls(), "url-1", "Look here", false),
        Transformed::Anchor {
            href: "https://example.com/1".to_string(),
            title: Some("Look here".to_string()),
            label: Label::Given,
        }
    );
    assert_eq!(
        link(&urls(), "url-+1", "", false),
        Transformed::Anchor {
            href: "https://example.com/1".to_string(),
            title: Some(String::new()),
            label: Label::Given,
        }
    );
}

#[test]
fn url_code_errors_are_told() {
    assert_eq!(
        link(&urls(), "url-3", "", true),
        error("URL index out of range: 3")
    );
    assert_eq!(
        link(&urls(), "url-0", "", true),
        error("Bad number in `url-0`")
    );
    assert_eq!(link(&urls(), "url-", "", true), error("Bad number in `url-`"));
    assert_eq!(
        link(&urls(), "url-two", "", true),
        error("Bad number in `url-two`")
    );
    assert_eq!(
        link(&pack(), "url-1", "", true),
        error("Use of url-1 in non-URLs form puzzle state")
    );
    assert_eq!(
        link(&pack(), "url-x", "", true),
        error("Bad number in `url-x`")
    );
}

#[test]
fn puzzle_code_refers_to_the_pack() {
    assert_eq!(
        link(&pack(), "puzzle-2", "", true),
        Transformed::PackEntry {
            puzzle: "beta".to_string(),
            label: Label::Remark("TODO: Magic puzzle link content".to_string()),
        }
    );
    assert_eq!(
        link(&pack(), "puzzle-1", "", false),
        Transformed::PackEntry {
            puzzle: "alpha".to_string(),
            label: Label::Given,
        }
    );
    assert_eq!(
        link(&pack(), "puzzle-12", "", false),
        error("Puzzle index out of range: 12")
    );
    assert_eq!(
        link(&pack(), "puzzle-0", "", false),
        error("Bad number in `puzzle-0`")
    );
    assert_eq!(
        link(&urls(), "puzzle-1", "", false),
        error("Use of puzzle-1 in non-pack form puzzle state")
    );
}

#[test]
fn player_codes_link_to_the_sites() {
    let packed = encode_fpuzzles_data(GRID);
    assert_eq!(
        link(&grid(), "fpuzzles", "", true),
        Transformed::Anchor {
            href: format!("http://f-puzzles.com/?load={}", packed),
            title: None,
            label: Label::Text("Play this on F-Puzzles".to_string()),
        }
    );
    assert_eq!(
        link(&grid(), "sudokupad", "", true),
        Transformed::Anchor {
            href: format!("https://sudokupad.app/fpuzzles{}", packed),
            title: None,
            label: Label::Text("Play this on Sudokupad".to_string()),
        }
    );
    for code in ["beta-sudokupad", "sudokupad-beta"] {
        assert_eq!(
            link(&grid(), code, "", true),
            Transformed::Anchor {
                href: format!("https://beta.sudokupad.app/fpuzzles{}", packed),
                title: None,
                label: Label::Text("Play this on Sudokupad (beta)".to_string()),
            }
        );
    }
    assert_eq!(
        link(&grid(), "sudokupad", "", false),
        Transformed::Anchor {
            href: format!("https://sudokupad.app/fpuzzles{}", packed),
            title: None,
            label: Label::Given,
        }
    );
}

#[test]
fn rules_come_from_the_grid() {
    assert_eq!(
        link(&grid(), "rules", "", true),
        Transformed::Rules("Normal sudoku rules apply.".to_string())
    );
    for json in [r#"{"size":9}"#, r#"{"ruleset":7}"#, "[1]", "not json"] {
        assert_eq!(
            link(&state(PuzzleData::FPuzzles(json.to_string())), "rules", "", true),
            Transformed::Rules("No rules available in data".to_string())
        );
    }
}

#[test]
fn word_code_errors_are_told() {
    assert_eq!(
        link(&grid(), "grid", "", true),
        error("Use of [grid] as a non-image link.  Did you mean `![grid]` instead?")
    );
    for code in ["grid", "rules", "fpuzzles", "sudokupad", "beta-sudokupad", "sudokupad-beta"] {
        assert_eq!(
            link(&urls(), code, "", true),
            error(&format!("Use of `{}` in a non-fpuzzles form puzzle state", code))
        );
    }
    assert_eq!(
        link(&grid(), "Grid", "", true),
        error("Unknown special link: `Grid`")
    );
    assert_eq!(
        link(&state(PuzzleData::Nothing), "something", "", false),
        error("Unknown special link: `something`")
    );
    assert_eq!(link(&grid(), "", "", false), error("Unknown special link: ``"));
}

#[test]
fn grid_image_shows_the_thumbnail() {
    assert_eq!(
        image(&grid(), "grid"),
        Some(Transformed::Picture {
            src: grid_svg_url(GRID)
        })
    );
    assert_eq!(
        image(&urls(), "grid"),
        Some(error("Use of ![grid] in a non-fpuzzles puzzle state"))
    );
    assert_eq!(image(&grid(), "rules"), None);
    assert_eq!(image(&grid(), "url-1"), None);
    assert_eq!(image(&urls(), ""), None);
}

#[test]
fn link_text_is_bare_when_it_is_only_the_target() {
    let text = |t: &str| Node::Text(t.to_string());
    let wrap = |n: Node| Node::List(vec![n]);
    assert!(trivially_text(&wrap(wrap(text("url-1"))), "url-1"));
    assert!(!trivially_text(&wrap(wrap(text("url-2"))), "url-1"));
    assert!(!trivially_text(&wrap(text("url-1")), "url-1"));
    assert!(!trivially_text(&text("url-1"), "url-1"));
    assert!(!trivially_text(&wrap(wrap(wrap(text("url-1")))), "url-1"));
    assert!(!trivially_text(&wrap(wrap(Node::Other)), "url-1"));
    assert!(!trivially_text(&Node::Other, ""));
    assert!(!trivially_text(&Node::List(Vec::new()), ""));
    assert!(!trivially_text(
        &Node::List(vec![wrap(text("a")), wrap(text("a"))]),
        "a"
    ));
    assert!(!trivially_text(
        &wrap(Node::List(vec![text("a"), text("a")])),
        "a"
    ));
}
