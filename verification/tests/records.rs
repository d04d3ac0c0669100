use linkdoku::api::{PuzzleData, PuzzleState, UrlEntry};
use linkdoku::codec::{pack, pack_stream, unpack, UnpackError};
use linkdoku::identity::Identity;
use linkdoku::puzzle::Puzzle;
use linkdoku::rating::Rating;
use linkdoku::role::Role;
use linkdoku::visibility::Visibility;

fn list(items: &[&str]) -> Vec<String> {
    items.iter().map(|s| s.to_string()).collect()
}

fn state(description: &str, visibility: Visibility) -> PuzzleState {
    PuzzleState {
        description: description.to_string(),
        setter_rating: Rating::Easy,
        data: PuzzleData::URLs(vec![UrlEntry {
            title: "play".to_string(),
            url: "https://example.com/p".to_string(),
        }]),
        visibility,
        visibility_changed: None,
    }
}

#[test]
fn identity_is_read_from_its_record() {
    let identity = Identity::from_list(
        "abc",
        list(&["display_name", "Bob", "gravatar_hash", "0123", "colour", "red"]),
    );
    assert_eq!(identity.uuid(), "abc");
    assert_eq!(identity.display_name(), "Bob");
    assert_eq!(identity.gravatar_hash(), Some("0123"));
}

#[test]
fn identity_record_may_lack_fields() {
    let identity = Identity::from_list("abc", list(&[]));
    assert_eq!(identity.display_name(), "");
    assert_eq!(identity.gravatar_hash(), None);
    let empty_hash = Identity::from_list("abc", list(&["gravatar_hash", ""]));
    assert_eq!(empty_hash.gravatar_hash(), Some(""));
}

#[test]
fn last_value_of_a_key_counts() {
    let identity = Identity::from_list(
        "abc",
        list(&["display_name", "Bob", "display_name", "Robert"]),
    );
    assert_eq!(identity.display_name(), "Robert");
}

#[test]
fn key_without_value_is_dropped() {
    let identity = Identity::from_list("abc", list(&["display_name", "Bob", "gravatar_hash"]));
    assert_eq!(identity.display_name(), "Bob");
    assert_eq!(identity.gravatar_hash(), None);
    let only_key = Identity::from_list("abc", list(&["display_name"]));
    assert_eq!(only_key.display_name(), "");
}

#[test]
fn value_that_looks_like_a_key_is_a_value() {
    let identity = Identity::from_list(
        "abc",
        list(&["gravatar_hash", "display_name", "display_name", "Bob"]),
    );
    assert_eq!(identity.gravatar_hash(), Some("display_name"));
    assert_eq!(identity.display_name(), "Bob");
}

#[test]
fn role_is_read_from_its_record() {
    let role = Role::from_list(
        "r1",
        list(&[
            "owner",
            "i1",
            "short_name",
            "bob",
            "display_name",
            "Bob",
            "bio",
            "# Bob",
            "extra",
            "x",
        ]),
    );
    assert_eq!(role.uuid(), "r1");
    assert_eq!(role.owner(), "i1");
    assert_eq!(role.short_name(), "bob");
    assert_eq!(role.display_name(), "Bob");
    assert_eq!(role.bio(), "# Bob");
    let bare = Role::from_list("r2", list(&["bio"]));
    assert_eq!(bare.uuid(), "r2");
    assert_eq!(bare.owner(), "");
    assert_eq!(bare.short_name(), "");
    assert_eq!(bare.display_name(), "");
    assert_eq!(bare.bio(), "");
}

#[test]
fn puzzle_is_read_from_its_record() {
    let kvs = list(&[
        "owner",
        "r1",
        "short_name",
        "first",
        "display_name",
        "First",
        "visibility",
        "public",
        "visibility_date",
        "2022-01-01",
        "states",
        "packed",
    ]);
    assert_eq!(Puzzle::states_field(&kvs), Some("packed".to_string()));
    let puzzle = Puzzle::from_list("z1", kvs, vec![state("one", Visibility::Restricted)]);
    assert_eq!(puzzle.uuid(), "z1");
    assert_eq!(puzzle.owner(), "r1");
    assert_eq!(puzzle.short_name(), "first");
    assert_eq!(puzzle.display_name(), "First");
    assert_eq!(puzzle.visibility(), Visibility::Public);
    assert_eq!(puzzle.visibility_date(), Some("2022-01-01"));
    assert_eq!(puzzle.states().len(), 1);
    assert_eq!(puzzle.states()[0].description, "one");
}

#[test]
fn puzzle_record_without_states_has_none() {
    let kvs = list(&["owner", "r1"]);
    assert_eq!(Puzzle::states_field(&kvs), None);
    let puzzle = Puzzle::from_list("z1", kvs, vec![state("one", Visibility::Public)]);
    assert!(puzzle.states().is_empty());
    assert_eq!(puzzle.visibility(), Visibility::Restricted);
    assert_eq!(puzzle.visibility_date(), None);
}

#[test]
fn unknown_visibility_word_is_passed_over() {
    let puzzle = Puzzle::from_list(
        "z1",
        list(&["visibility", "published", "visibility", "secret"]),
        Vec::new(),
    );
    assert_eq!(puzzle.visibility(), Visibility::Published);
    let never_named = Puzzle::from_list("z1", list(&["visibility", "Public"]), Vec::new());
    assert_eq!(never_named.visibility(), Visibility::Restricted);
}

#[test]
fn empty_visibility_date_is_none() {
    let puzzle = Puzzle::from_list(
        "z1",
        list(&["visibility_date", "2022-01-01", "visibility_date", ""]),
        Vec::new(),
    );
    assert_eq!(puzzle.visibility_date(), None);
}

#[test]
fn last_states_field_counts() {
    let kvs = list(&["states", "old", "states", "new", "states"]);
    assert_eq!(Puzzle::states_field(&kvs), Some("new".to_string()));
}

#[test]
fn owner_sees_every_state() {
    let puzzle = Puzzle::from_list(
        "z1",
        list(&["owner", "r1", "visibility", "public", "states", "x"]),
        vec![
            state("one", Visibility::Restricted),
            state("two", Visibility::Public),
            state("three", Visibility::Restricted),
            state("four", Visibility::Published),
        ],
    );
    let shown = puzzle.as_api_puzzle(true);
    let names: Vec<&str> = shown.states.iter().map(|s| s.description.as_str()).collect();
    assert_eq!(names, vec!["one", "two", "three", "four"]);
    assert_eq!(shown.uuid, "z1");
    assert_eq!(shown.owner, "r1");
    assert_eq!(shown.visibility, Visibility::Public);
    assert_eq!(shown.states[0], state("one", Visibility::Restricted));
}

#[test]
fn others_do_not_see_restricted_states() {
    let puzzle = Puzzle::from_list(
        "z1",
        list(&["owner", "r1", "visibility", "public", "states", "x"]),
        vec![
            state("one", Visibility::Restricted),
            state("two", Visibility::Public),
            state("three", Visibility::Restricted),
            state("four", Visibility::Published),
        ],
    );
    let shown = puzzle.as_api_puzzle(false);
    let names: Vec<&str> = shown.states.iter().map(|s| s.description.as_str()).collect();
    assert_eq!(names, vec!["two", "four"]);
    assert_eq!(shown.states[0], state("two", Visibility::Public));
}

#[test]
fn puzzle_from_a_request_keeps_its_content() {
    let request = linkdoku::api::Puzzle {
        uuid: String::new(),
        owner: "r1".to_string(),
        display_name: "First".to_string(),
        short_name: "first".to_string(),
        visibility: Visibility::Restricted,
        visibility_changed: Some("then".to_string()),
        states: vec![state("one", Visibility::Restricted)],
    };
    let puzzle = Puzzle::from(request);
    assert_eq!(puzzle.uuid(), "");
    assert_eq!(puzzle.owner(), "r1");
    assert_eq!(puzzle.display_name(), "First");
    assert_eq!(puzzle.short_name(), "first");
    assert_eq!(puzzle.visibility(), Visibility::Restricted);
    assert_eq!(puzzle.visibility_date(), Some("then"));
    assert_eq!(puzzle.states().len(), 1);
}

#[test]
fn packed_text_unpacks_to_its_bytes() {
    let packed = "/Td6WFoAAATm1rRGAgAhARwAAAAQz1jM4AB3AGBdAC2ewEZDZH3ByCnF0z1gSOlNpO7SmmyqnIVoG9nIEX45wjYPZFiqSDjbwzH2atxkJL0SE+grQX4R+j9qShqqnzPJdoNe6euCXw8diUhxw/SiYA2CYyRhSClfJU20WUxVAAB5bl4LAc2ftQABfHjfetL9H7bzfQEAAAAABFla";
    let json = br#"[{"description":"first","setter_rating":"Regular","data":"Nothing","visibility":"Restricted","visibility_changed":null}]"#;
    assert_eq!(unpack(packed), Ok(json.to_vec()));
    assert_eq!(Puzzle::decompress_state(packed), Ok(json.to_vec()));
    assert_eq!(
        unpack("/Td6WFoAAATm1rRGAAAAABzfRCEftvN9AQAAAAAEWVo="),
        Ok(Vec::new())
    );
}

#[test]
fn packing_gives_base64_of_an_xz_stream() {
    let json = br#"[{"description":"first"}]"#;
    let packed = pack(json).expect("the compressor works");
    assert!(packed.starts_with("/Td6WFoA"));
    assert!(packed
        .chars()
        .all(|c| c.is_ascii_alphanumeric() || c == '+' || c == '/' || c == '='));
    assert_eq!(unpack(&packed), Ok(json.to_vec()));
    let again = Puzzle::compress_states(json).expect("the compressor works");
    assert_eq!(Puzzle::decompress_state(&again), Ok(json.to_vec()));
}

#[test]
fn stream_is_written_in_base64() {
    assert_eq!(pack_stream(None), None);
    assert_eq!(
        pack_stream(Some(b"hello world".to_vec())),
        Some("aGVsbG8gd29ybGQ=".to_string())
    );
    assert_eq!(pack_stream(Some(Vec::new())), Some(String::new()));
    assert_eq!(
        pack_stream(Some(vec![0xfd, 0x37, 0x7a, 0x58, 0x5a, 0x00])),
        Some("/Td6WFoA".to_string())
    );
}

#[test]
fn text_that_is_not_packed_is_told_apart() {
    assert_eq!(unpack("not base64!"), Err(UnpackError::Encoding));
    assert_eq!(unpack("bm90IHh6IGF0IGFsbA=="), Err(UnpackError::Compression));
    assert_eq!(unpack(""), Err(UnpackError::Compression));
}
