use linkdoku::api::{CreatePuzzleResponse, Puzzle, PuzzleData, PuzzleState};
use linkdoku::handlers::{
    create_puzzle, puzzle_created, retrieve_puzzle, role_by_uuid_or_short_name, CreateStep,
};
use linkdoku::identity::Identity;
use linkdoku::login::{LoginFlowStatus, LoginFlowUserData};
use linkdoku::rating::Rating;
use linkdoku::role::Role;
use linkdoku::store::{
    create_default_role, identity_by_uuid, identity_upsert_and_roles, members_key_of,
    puzzle_by_uuid, record_key_of, role_by_uuid, DatabaseError, DirectStep, Lookup, NameStep,
    Script,
};
use linkdoku::visibility::Visibility;

fn list(items: &[&str]) -> Vec<String> {
    items.iter().map(|s| s.to_string()).collect()
}

fn acting_as(roles: &[&str]) -> LoginFlowStatus {
    LoginFlowStatus {
        flow: None,
        user: Some(LoginFlowUserData {
            identity: Identity::new("google:12345", "Bob", None),
            cached_roles: list(roles),
            active_role: roles[0].to_string(),
        }),
    }
}

fn first_state(visibility: Visibility) -> PuzzleState {
    PuzzleState {
        description: "first".to_string(),
        setter_rating: Rating::Regular,
        data: PuzzleData::Nothing,
        visibility,
        visibility_changed: None,
    }
}

fn request() -> Puzzle {
    Puzzle {
        uuid: String::new(),
        owner: "r1".to_string(),
        display_name: "My Puzzle".to_string(),
        short_name: "My Puzzle".to_string(),
        visibility: Visibility::Restricted,
        visibility_changed: None,
        states: vec![first_state(Visibility::Restricted)],
    }
}

fn refusal(status: &LoginFlowStatus, puzzle: Puzzle) -> CreatePuzzleResponse {
    match create_puzzle(status, puzzle) {
        CreateStep::Refuse(answer) => answer,
        CreateStep::Create(puzzle) => panic!("expected a refusal, got {:?}", puzzle),
    }
}

#[test]
fn sound_request_goes_ahead() {
    match create_puzzle(&acting_as(&["r0", "r1"]), request()) {
        CreateStep::Create(puzzle) => {
            assert_eq!(puzzle.uuid(), "");
            assert_eq!(puzzle.owner(), "r1");
            assert_eq!(puzzle.short_name(), "My Puzzle");
            assert_eq!(puzzle.display_name(), "My Puzzle");
            assert_eq!(puzzle.visibility(), Visibility::Restricted);
            assert_eq!(puzzle.states().len(), 1);
        }
        CreateStep::Refuse(answer) => panic!("expected a creation, got {:?}", answer),
    }
}

#[test]
fn create_needs_a_login() {
    assert_eq!(
        refusal(&LoginFlowStatus::default(), request()),
        CreatePuzzleResponse::NotLoggedIn
    );
    let mut bad = request();
    bad.uuid = "abc".to_string();
    bad.states.clear();
    assert_eq!(
        refusal(&LoginFlowStatus::default(), bad),
        CreatePuzzleResponse::NotLoggedIn
    );
}

#[test]
fn create_refuses_a_supplied_id() {
    let mut puzzle = request();
    puzzle.uuid = "abc".to_string();
    puzzle.owner = "not-mine".to_string();
    assert_eq!(
        refusal(&acting_as(&["r1"]), puzzle),
        CreatePuzzleResponse::FailedUUIDSupplied
    );
}

#[test]
fn create_refuses_a_role_the_caller_does_not_hold() {
    let mut puzzle = request();
    puzzle.owner = "r2".to_string();
    puzzle.states.clear();
    assert_eq!(
        refusal(&acting_as(&["r1"]), puzzle),
        CreatePuzzleResponse::InvalidOwnerRole
    );
}

#[test]
fn create_refuses_wrong_state_counts() {
    let mut none = request();
    none.states.clear();
    none.visibility = Visibility::Public;
    assert_eq!(
        refusal(&acting_as(&["r1"]), none),
        CreatePuzzleResponse::InvalidStateVector
    );
    let mut two = request();
    two.states.push(first_state(Visibility::Restricted));
    assert_eq!(
        refusal(&acting_as(&["r1"]), two),
        CreatePuzzleResponse::InvalidStateVector
    );
    let mut three = request();
    three.states.push(first_state(Visibility::Restricted));
    three.states.push(first_state(Visibility::Restricted));
    assert_eq!(
        refusal(&acting_as(&["r1"]), three),
        CreatePuzzleResponse::InvalidStateVector
    );
}

#[test]
fn create_refuses_a_public_puzzle() {
    let mut puzzle = request();
    puzzle.visibility = Visibility::Public;
    assert_eq!(
        refusal(&acting_as(&["r1"]), puzzle),
        CreatePuzzleResponse::InvalidVisiblityData
    );
    let mut published = request();
    published.visibility = Visibility::Published;
    assert_eq!(
        refusal(&acting_as(&["r1"]), published),
        CreatePuzzleResponse::InvalidVisiblityData
    );
}

#[test]
fn create_refuses_other_visibility_data() {
    let mut dated = request();
    dated.visibility_changed = Some("2022".to_string());
    assert_eq!(
        refusal(&acting_as(&["r1"]), dated),
        CreatePuzzleResponse::InvalidVisiblityData
    );
    let mut open_state = request();
    open_state.states[0].visibility = Visibility::Public;
    assert_eq!(
        refusal(&acting_as(&["r1"]), open_state),
        CreatePuzzleResponse::InvalidVisiblityData
    );
    let mut dated_state = request();
    dated_state.states[0].visibility_changed = Some(String::new());
    assert_eq!(
        refusal(&acting_as(&["r1"]), dated_state),
        CreatePuzzleResponse::InvalidVisiblityData
    );
}

#[test]
fn store_outcome_becomes_the_answer() {
    assert_eq!(
        puzzle_created(Ok("abc".to_string())),
        CreatePuzzleResponse::Success("abc".to_string())
    );
    assert_eq!(
        puzzle_created(Err(DatabaseError::Redis("down".to_string()))),
        CreatePuzzleResponse::DatabaseFailure("Database error: down".to_string())
    );
    assert_eq!(
        puzzle_created(Err(DatabaseError::NotFound("role:r1".to_string()))),
        CreatePuzzleResponse::DatabaseFailure("Database error: role:r1 not found".to_string())
    );
}

fn stored(visibility: &str) -> linkdoku::puzzle::Puzzle {
    linkdoku::puzzle::Puzzle::from_list(
        "z1",
        list(&["owner", "r1", "visibility", visibility, "states", "x"]),
        vec![
            first_state(Visibility::Restricted),
            first_state(Visibility::Public),
        ],
    )
}

#[test]
fn restricted_puzzle_is_for_its_owner_only() {
    assert!(retrieve_puzzle(&LoginFlowStatus::default(), Ok(stored("restricted"))).is_none());
    assert!(retrieve_puzzle(&acting_as(&["r2"]), Ok(stored("restricted"))).is_none());
    let shown = retrieve_puzzle(&acting_as(&["r2", "r1"]), Ok(stored("restricted")))
        .expect("the owner sees the puzzle");
    assert_eq!(shown.uuid, "z1");
    assert_eq!(shown.states.len(), 2);
}

#[test]
fn open_puzzle_hides_restricted_states_from_others() {
    for visibility in ["public", "published"] {
        let shown = retrieve_puzzle(&LoginFlowStatus::default(), Ok(stored(visibility)))
            .expect("anyone sees the puzzle");
        assert_eq!(shown.states.len(), 1);
        assert_eq!(shown.states[0].visibility, Visibility::Public);
        let shown = retrieve_puzzle(&acting_as(&["r9"]), Ok(stored(visibility)))
            .expect("anyone sees the puzzle");
        assert_eq!(shown.states.len(), 1);
        let shown = retrieve_puzzle(&acting_as(&["r1"]), Ok(stored(visibility)))
            .expect("the owner sees the puzzle");
        assert_eq!(shown.states.len(), 2);
    }
}

#[test]
fn puzzle_that_was_not_found_is_not_shown() {
    assert!(retrieve_puzzle(
        &acting_as(&["r1"]),
        Err(DatabaseError::NotFound("puzzle:z1".to_string()))
    )
    .is_none());
    assert!(retrieve_puzzle(
        &acting_as(&["r1"]),
        Err(DatabaseError::Redis("down".to_string()))
    )
    .is_none());
}

#[test]
fn role_is_projected_for_the_pages() {
    let role = Role::from_list(
        "r1",
        list(&["owner", "i1", "short_name", "bob", "display_name", "Bob", "bio", "# Bob"]),
    );
    let data = role_by_uuid_or_short_name(Ok(role)).expect("the role is shown");
    assert_eq!(data.uuid, "r1");
    assert_eq!(data.owner, "i1");
    assert_eq!(data.short_name, "bob");
    assert_eq!(data.display_name, "Bob");
    assert_eq!(data.bio, "# Bob");
    assert!(role_by_uuid_or_short_name(Err(DatabaseError::NotFound("role:x".to_string()))).is_none());
    assert!(role_by_uuid_or_short_name(Err(DatabaseError::Redis("down".to_string()))).is_none());
}

#[test]
fn keys_are_built_from_group_and_id() {
    assert_eq!(record_key_of("identity", "abc"), "identity:abc");
    assert_eq!(members_key_of("identity", "abc", "roles"), "identity:abc:roles");
    assert_eq!(members_key_of("role", "r1", "puzzles"), "role:r1:puzzles");
}

#[test]
fn empty_reply_means_no_record() {
    assert!(identity_by_uuid("abc", Vec::new()).is_none());
    let identity = identity_by_uuid("abc", list(&["display_name", "Bob"])).expect("found");
    assert_eq!(identity.uuid(), "abc");
    assert_eq!(identity.display_name(), "Bob");
    match role_by_uuid("r1", Vec::new()) {
        Err(DatabaseError::NotFound(key)) => assert_eq!(key, "role:r1"),
        other => panic!("expected a missing role, got {:?}", other),
    }
    assert_eq!(
        role_by_uuid("r1", list(&["owner", "i1"])).expect("found").owner(),
        "i1"
    );
    match puzzle_by_uuid("z1", Vec::new(), Vec::new()) {
        Err(DatabaseError::NotFound(key)) => assert_eq!(key, "puzzle:z1"),
        other => panic!("expected a missing puzzle, got {:?}", other),
    }
    let puzzle = puzzle_by_uuid(
        "z1",
        list(&["owner", "r1", "states", "x"]),
        vec![first_state(Visibility::Public)],
    )
    .expect("found");
    assert_eq!(puzzle.owner(), "r1");
    assert_eq!(puzzle.states().len(), 1);
}

#[test]
fn upsert_call_names_the_identity_and_its_roles() {
    let identity = Identity::new("google:12345", "Bob", Some("x@example.com"));
    let call = identity_upsert_and_roles(&identity);
    assert_eq!(call.script, Script::IdentityUpsert);
    assert_eq!(
        call.keys,
        list(&[
            "identity:0317d50d87adbcf4ac8e8594ab0fc625",
            "identity:0317d50d87adbcf4ac8e8594ab0fc625:roles",
        ])
    );
    assert_eq!(call.args, list(&["Bob", "6d1db9ff40d653b409cda4c3ec45e5d7"]));
    let bare = identity_upsert_and_roles(&Identity::new("google:12345", "Bob", None));
    assert_eq!(bare.args, list(&["Bob", ""]));
}

#[test]
fn create_role_call_carries_the_whole_role() {
    let identity = Identity::new("google:12345", "Bob", None);
    let call = create_default_role(&identity, "bob_1".to_string());
    assert_eq!(call.script, Script::CreateRole);
    assert_eq!(
        call.keys,
        list(&[
            "role:8d191a67f64d45575866d6cf581da731",
            "role:byname",
            "identity:0317d50d87adbcf4ac8e8594ab0fc625:roles",
        ])
    );
    assert_eq!(
        call.args,
        list(&[
            "8d191a67f64d45575866d6cf581da731",
            "0317d50d87adbcf4ac8e8594ab0fc625",
            "bob_1",
            "Bob",
            "# Bob\n\nTODO",
        ])
    );
}

#[test]
fn create_puzzle_call_carries_the_whole_puzzle() {
    let puzzle = linkdoku::puzzle::Puzzle::from_list(
        "",
        list(&[
            "owner",
            "r1",
            "short_name",
            "My Puzzle",
            "display_name",
            "My Puzzle",
            "visibility_date",
            "2022",
        ]),
        Vec::new(),
    );
    let (uuid, call) =
        linkdoku::store::create_puzzle(&puzzle, "my-puzzle".to_string(), "PACKED".to_string());
    assert_eq!(uuid, "ee1339651d6815a14b6fe5e9fa2b57e0");
    assert_eq!(call.script, Script::CreatePuzzle);
    assert_eq!(
        call.keys,
        list(&[
            "puzzle:ee1339651d6815a14b6fe5e9fa2b57e0",
            "puzzle:byname",
            "role:r1:puzzles",
        ])
    );
    assert_eq!(
        call.args,
        list(&[
            "ee1339651d6815a14b6fe5e9fa2b57e0",
            "r1",
            "my-puzzle",
            "My Puzzle",
            "restricted",
            "2022",
            "PACKED",
        ])
    );
}

#[test]
fn lookup_by_id_ends_at_the_first_read() {
    let search = Lookup::new("role", "r1");
    assert_eq!(search.key(), "role:r1");
    match search.read(list(&["owner", "i1"])) {
        DirectStep::Found(found) => {
            assert_eq!(found.id, "r1");
            assert_eq!(found.reply, list(&["owner", "i1"]));
        }
        DirectStep::Resolve(_) => panic!("the record was found"),
    }
}

#[test]
fn lookup_by_short_name_goes_through_the_index() {
    let by_name = match Lookup::new("role", "bob").read(Vec::new()) {
        DirectStep::Resolve(by_name) => by_name,
        DirectStep::Found(_) => panic!("nothing was found yet"),
    };
    assert_eq!(by_name.index(), "role:byname");
    assert_eq!(by_name.name(), "bob");
    let by_id = match by_name.resolved(Some("r1".to_string())) {
        NameStep::Fetch(by_id) => by_id,
        NameStep::Missing(error) => panic!("the name resolves, got {:?}", error),
    };
    assert_eq!(by_id.key(), "role:r1");
    let found = by_id.read(list(&["owner", "i1"])).expect("the record exists");
    assert_eq!(found.id, "r1");
    assert_eq!(found.reply, list(&["owner", "i1"]));
}

#[test]
fn lookup_of_an_unknown_text_is_not_found() {
    let by_name = match Lookup::new("puzzle", "nothing").read(Vec::new()) {
        DirectStep::Resolve(by_name) => by_name,
        DirectStep::Found(_) => panic!("nothing was found yet"),
    };
    match by_name.resolved(None) {
        NameStep::Missing(DatabaseError::NotFound(key)) => assert_eq!(key, "puzzle:nothing"),
        other => panic!("expected a missing record, got {:?}", other),
    }
}

#[test]
fn lookup_through_a_stale_index_entry_is_not_found() {
    let by_name = match Lookup::new("puzzle", "old").read(Vec::new()) {
        DirectStep::Resolve(by_name) => by_name,
        DirectStep::Found(_) => panic!("nothing was found yet"),
    };
    let by_id = match by_name.resolved(Some("z9".to_string())) {
        NameStep::Fetch(by_id) => by_id,
        NameStep::Missing(error) => panic!("the name resolves, got {:?}", error),
    };
    match by_id.read(Vec::new()) {
        Err(DatabaseError::NotFound(key)) => assert_eq!(key, "puzzle:z9"),
        other => panic!("expected a missing record, got {:?}", other),
    }
}
