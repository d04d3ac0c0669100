//! Puzzles as the store keeps them.
//!
//! The store keeps a puzzle under `puzzle:` followed by its id, and keeps the
//! ids of all puzzles by short name under `puzzle:byname`.  The history of a
//! puzzle's states is kept in one field, as packed text: the states are
//! written out as JSON, and the JSON is packed.

use vstd::prelude::*;
use vstd::std_specs::convert::FromSpec;
use vstd::std_specs::convert::FromSpecImpl;
use crate::api::{state_views, PuzzleState, PuzzleStateView, PuzzleView};
use crate::codec::{base64_bytes, pack, packs, unpack, unpacked, UnpackError};
use crate::digest::{fingerprint, fingerprint_of};
use crate::index::{Entry, Record};
use crate::record::{field, field_or_empty, latest, latest_or_empty};
use crate::text::same;
use crate::visibility::Visibility;

verus! {

/// A puzzle: a named thing that a role owns, with the history of its states.
#[derive(Debug)]
pub struct Puzzle {
    uuid: String,
    owner: String,
    short_name: String,
    display_name: String,
    visibility: Visibility,
    visibility_date: Option<String>,
    states: Vec<PuzzleState>,
}

impl View for Puzzle {
    type V = PuzzleView;

    closed spec fn view(&self) -> PuzzleView {
        PuzzleView {
            uuid: self.uuid@,
            owner: self.owner@,
            display_name: self.display_name@,
            short_name: self.short_name@,
            visibility: self.visibility,
            visibility_changed: self.visibility_date.deep_view(),
            states: state_views(self.states@),
        }
    }
}

/// The id of the puzzle that a role owns under a short name.
pub open spec fn puzzle_id(owner: Seq<char>, short_name: Seq<char>) -> Seq<char> {
    fingerprint("puzzle:owner:"@ + owner + ":name:"@ + short_name)
}

/// The puzzle that a request becomes once a short name was found free for
/// it: it gets that name, and the id that goes with its owner and that name.
pub open spec fn named_puzzle(puzzle: PuzzleView, short_name: Seq<char>) -> PuzzleView {
    PuzzleView { uuid: puzzle_id(puzzle.owner, short_name), short_name, ..puzzle }
}

/// The visibility that the first `pairs` pairs of a record give: that of the
/// last of those pairs that names one.  A record that names none is
/// restricted.
pub open spec fn latest_visibility(kvs: Seq<Seq<char>>, pairs: nat) -> Visibility
    decreases pairs,
{
    if pairs == 0 {
        Visibility::Restricted
    } else if kvs[2 * pairs - 2] == "visibility"@ && Visibility::of_word(kvs[2 * pairs - 1])
        is Some {
        Visibility::of_word(kvs[2 * pairs - 1])->0
    } else {
        latest_visibility(kvs, (pairs - 1) as nat)
    }
}

/// A date as a record gives it: an empty value stands for none.
pub open spec fn dated(value: Option<Seq<char>>) -> Option<Seq<char>> {
    match value {
        Some(date) => if date.len() == 0 {
            None
        } else {
            Some(date)
        },
        None => None,
    }
}

/// The packed states of a record, if it has any.
pub open spec fn packed_states(kvs: Seq<Seq<char>>) -> Option<Seq<char>> {
    field(kvs, "states"@)
}

/// The puzzle that the store's record under `uuid` describes, given the
/// states that its packed states stand for.
pub open spec fn puzzle_of_record(
    uuid: Seq<char>,
    kvs: Seq<Seq<char>>,
    states: Seq<PuzzleStateView>,
) -> PuzzleView {
    PuzzleView {
        uuid,
        owner: field_or_empty(kvs, "owner"@),
        display_name: field_or_empty(kvs, "display_name"@),
        short_name: field_or_empty(kvs, "short_name"@),
        visibility: latest_visibility(kvs, kvs.len() / 2),
        visibility_changed: dated(field(kvs, "visibility_date"@)),
        states: if packed_states(kvs) is Some {
            states
        } else {
            Seq::empty()
        },
    }
}

/// The states of a history that a viewer is shown.
pub open spec fn shown_states(states: Seq<PuzzleStateView>, is_owner: bool) -> Seq<
    PuzzleStateView,
> {
    states.filter(|state: PuzzleStateView| state.visibility.shown_to(is_owner))
}

impl Puzzle {
    /// The id of the puzzle.
    pub fn uuid(&self) -> (id: &str)
        ensures
            id@ == self@.uuid,
    {
        self.uuid.as_str()
    }

    /// The id of the role that owns the puzzle.
    pub fn owner(&self) -> (id: &str)
        ensures
            id@ == self@.owner,
    {
        self.owner.as_str()
    }

    /// The unique token by which the puzzle is addressed.
    pub fn short_name(&self) -> (name: &str)
        ensures
            name@ == self@.short_name,
    {
        self.short_name.as_str()
    }

    /// The name to show for the puzzle.
    pub fn display_name(&self) -> (name: &str)
        ensures
            name@ == self@.display_name,
    {
        self.display_name.as_str()
    }

    /// Who may see the puzzle.
    pub fn visibility(&self) -> (visibility: Visibility)
        ensures
            visibility == self@.visibility,
    {
        self.visibility
    }

    /// When the visibility last changed, if it ever did.
    pub fn visibility_date(&self) -> (date: Option<&str>)
        ensures
            date.deep_view() == self@.visibility_changed,
    {
        match &self.visibility_date {
            Some(date) => Some(date.as_str()),
            None => None,
        }
    }

    /// The history of the puzzle's states, oldest first.
    pub fn states(&self) -> (states: &[PuzzleState])
        ensures
            state_views(states@) == self@.states,
    {
        self.states.as_slice()
    }

    /// The packed states in a record from the store, if it has any.  They
    /// have to be unpacked and read before the record can become a puzzle.
    pub fn states_field(kvs: &Vec<String>) -> (packed: Option<String>)
        ensures
            packed.deep_view() == packed_states(kvs.deep_view()),
    {
        let ghost list = kvs.deep_view();
        let mut packed: Option<String> = None;
        let mut pairs: usize = 0;
        while pairs < kvs.len() / 2
            invariant
                pairs <= kvs.len() / 2,
                list == kvs.deep_view(),
                packed.deep_view() == latest(list, "states"@, pairs as nat),
            decreases kvs.len() / 2 - pairs,
        {
            let key = kvs[2 * pairs].as_str();
            proof {
                assert(list[2 * pairs] == key@);
                assert(list[2 * pairs + 1] == kvs@[2 * pairs + 1]@);
            }
            if same(key, "states") {
                packed = Some(kvs[2 * pairs + 1].clone());
            }
            pairs += 1;
        }
        packed
    }

    /// Reads a puzzle from the store's record of it.  `states` are the
    /// states that the record's packed states stand for; they are left out
    /// where the record has none.  Of a key that occurs more than once the
    /// last value counts, for the visibility the last one that names a
    /// visibility; keys that a puzzle does not have are passed over.
    pub fn from_list(uuid: &str, kvs: Vec<String>, states: Vec<PuzzleState>) -> (puzzle: Puzzle)
        ensures
            puzzle@ == puzzle_of_record(uuid@, kvs.deep_view(), state_views(states@)),
    {
        let mut owner = String::new();
        let mut short_name = String::new();
        let mut display_name = String::new();
        let mut visibility = Visibility::Restricted;
        let mut visibility_date: Option<String> = None;
        let mut has_states = false;
        let ghost list = kvs.deep_view();
        let mut pairs: usize = 0;
        while pairs < kvs.len() / 2
            invariant
                pairs <= kvs.len() / 2,
                list == kvs.deep_view(),
                owner@ == latest_or_empty(list, "owner"@, pairs as nat),
                short_name@ == latest_or_empty(list, "short_name"@, pairs as nat),
                display_name@ == latest_or_empty(list, "display_name"@, pairs as nat),
                visibility == latest_visibility(list, pairs as nat),
                visibility_date.deep_view() == dated(
                    latest(list, "visibility_date"@, pairs as nat),
                ),
                has_states == latest(list, "states"@, pairs as nat) is Some,
            decreases kvs.len() / 2 - pairs,
        {
            let key = kvs[2 * pairs].as_str();
            let value = kvs[2 * pairs + 1].clone();
            proof {
                assert(list[2 * pairs] == key@);
                assert(list[2 * pairs + 1] == value@);
                reveal_strlit("owner");
                reveal_strlit("short_name");
                reveal_strlit("display_name");
                reveal_strlit("visibility");
                reveal_strlit("visibility_date");
                reveal_strlit("states");
                assert("owner"@[0] == 'o' && "states"@[0] == 's');
                assert("display_name"@[0] == 'd' && "short_name"@[0] == 's' && "visibility"@[0]
                    == 'v');
            }
            if same(key, "owner") {
                owner = value;
            } else if same(key, "short_name") {
                short_name = value;
            } else if same(key, "display_name") {
                display_name = value;
            } else if same(key, "visibility") {
                match Visibility::parse(value.as_str()) {
                    Some(named) => {
                        visibility = named;
                    },
                    None => {},
                }
            } else if same(key, "visibility_date") {
                if value.as_str().is_empty() {
                    visibility_date = None;
                } else {
                    visibility_date = Some(value);
                }
            } else if same(key, "states") {
                has_states = true;
            }
            pairs += 1;
        }
        let states = if has_states {
            states
        } else {
            Vec::new()
        };
        assert(!has_states ==> state_views(states@) =~= Seq::empty());
        Puzzle {
            uuid: uuid.to_owned(),
            owner,
            short_name,
            display_name,
            visibility,
            visibility_date,
            states,
        }
    }

    /// Packs the JSON of a history of states for the store.  Whether the
    /// compressor succeeds is for the compressor to say; where it does not,
    /// there is no text.
    pub fn compress_states(json: &[u8]) -> (packed: Option<String>)
        ensures
            packed is Some ==> packs(packed->0@, json@),
            packed is Some ==> unpacked(packed->0@) == Some(json@),
    {
        pack(json)
    }

    /// Unpacks the store's packed states into their JSON.
    pub fn decompress_state(states: &str) -> (json: Result<Vec<u8>, UnpackError>)
        ensures
            json is Ok <==> unpacked(states@) is Some,
            json is Ok ==> json->Ok_0@ == unpacked(states@)->0,
            json is Err ==> (json->Err_0 == UnpackError::Encoding <==> base64_bytes(states@)
                is None),
    {
        unpack(states)
    }

    /// The puzzle as it is stored once a short name was found free for it:
    /// under that name, and under the id that goes with its owner and that
    /// name.
    pub fn named(&self, short_name: String) -> (stored: Puzzle)
        ensures
            stored@ == named_puzzle(self@, short_name@),
    {
        Puzzle {
            uuid: Puzzle::create_uuid(self.owner.as_str(), short_name.as_str()),
            owner: self.owner.clone(),
            short_name,
            display_name: self.display_name.clone(),
            visibility: self.visibility,
            visibility_date: self.visibility_date.clone(),
            states: copy_states(&self.states),
        }
    }

    /// The id for a puzzle that `owner` has under `short_name`.
    pub fn create_uuid(owner: &str, short_name: &str) -> (id: String)
        ensures
            id@ == puzzle_id(owner@, short_name@),
    {
        let mut name = "puzzle:owner:".to_owned();
        name.append(owner);
        name.append(":name:");
        name.append(short_name);
        fingerprint_of(name.as_str())
    }

    /// The puzzle as a viewer may see it: whoever does not act as the owner
    /// is not shown the restricted states.
    pub fn as_api_puzzle(&self, is_owner: bool) -> (shown: crate::api::Puzzle)
        ensures
            shown@ == (PuzzleView { states: shown_states(self@.states, is_owner), ..self@ }),
    {
        let mut states: Vec<PuzzleState> = Vec::new();
        let ghost keep = |state: PuzzleStateView| state.visibility.shown_to(is_owner);
        let ghost all = state_views(self.states@);
        let mut i: usize = 0;
        assert(all.take(0).filter(keep) =~= Seq::empty()) by {
            reveal(Seq::filter);
        }
        while i < self.states.len()
            invariant
                i <= self.states@.len(),
                all == state_views(self.states@),
                keep == |state: PuzzleStateView| state.visibility.shown_to(is_owner),
                state_views(states@) == all.take(i as int).filter(keep),
            decreases self.states@.len() - i,
        {
            let state = &self.states[i];
            let ghost before = state_views(states@);
            proof {
                assert(all.take(i + 1) == all.take(i as int).push(state@));
                all.take(i as int).lemma_filter_push(state@, keep);
            }
            if state.visibility.visible_to(is_owner) {
                states.push(state.clone());
                assert(state_views(states@) =~= before.push(state@));
            }
            i += 1;
        }
        assert(all.take(i as int) == all);
        crate::api::Puzzle {
            uuid: self.uuid.clone(),
            owner: self.owner.clone(),
            short_name: self.short_name.clone(),
            display_name: self.display_name.clone(),
            visibility: self.visibility,
            visibility_changed: self.visibility_date.clone(),
            states,
        }
    }
}

/// A copy of a history of states.
pub fn copy_states(states: &Vec<PuzzleState>) -> (copies: Vec<PuzzleState>)
    ensures
        state_views(copies@) == state_views(states@),
{
    let mut copies: Vec<PuzzleState> = Vec::new();
    let mut i: usize = 0;
    while i < states.len()
        invariant
            i <= states@.len(),
            copies@.len() == i,
            forall|j: int| 0 <= j < i ==> copies@[j]@ == states@[j]@,
        decreases states@.len() - i,
    {
        copies.push(states[i].clone());
        i += 1;
    }
    assert(state_views(copies@) =~= state_views(states@));
    copies
}

impl Clone for Puzzle {
    fn clone(&self) -> (copy: Puzzle)
        ensures
            copy@ == self@,
    {
        Puzzle {
            uuid: self.uuid.clone(),
            owner: self.owner.clone(),
            short_name: self.short_name.clone(),
            display_name: self.display_name.clone(),
            visibility: self.visibility,
            visibility_date: self.visibility_date.clone(),
            states: copy_states(&self.states),
        }
    }
}

impl Entry for PuzzleView {
    open spec fn key(self) -> Seq<char> {
        self.uuid
    }

    open spec fn holder(self) -> Seq<char> {
        self.owner
    }

    open spec fn token(self) -> Seq<char> {
        self.short_name
    }
}

impl Record for Puzzle {
    fn key_text(&self) -> (text: &str) {
        self.uuid.as_str()
    }

    fn holder_text(&self) -> (text: &str) {
        self.owner.as_str()
    }

    fn token_text(&self) -> (text: &str) {
        self.short_name.as_str()
    }
}

impl From<crate::api::Puzzle> for Puzzle {
    fn from(input: crate::api::Puzzle) -> (puzzle: Puzzle)
    {
        Puzzle {
            uuid: input.uuid,
            owner: input.owner,
            short_name: input.short_name,
            display_name: input.display_name,
            visibility: input.visibility,
            visibility_date: input.visibility_changed,
            states: input.states,
        }
    }
}

impl FromSpecImpl<crate::api::Puzzle> for Puzzle {
    open spec fn obeys_from_spec() -> bool {
        true
    }

    closed spec fn from_spec(input: crate::api::Puzzle) -> Puzzle {
        Puzzle {
            uuid: input.uuid,
            owner: input.owner,
            short_name: input.short_name,
            display_name: input.display_name,
            visibility: input.visibility,
            visibility_date: input.visibility_changed,
            states: input.states,
        }
    }
}

/// A puzzle taken from a request holds what the request holds.
pub proof fn from_keeps_content(input: crate::api::Puzzle)
    ensures
        <Puzzle as FromSpec<crate::api::Puzzle>>::from_spec(input)@ == input@,
{
}

} // verus!
