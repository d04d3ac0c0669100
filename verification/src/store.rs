//! How the site talks to its store.
//!
//! The store is a key-value service.  It keeps each identity, role and
//! puzzle as a record of fields under a key of its own, the roles of each
//! identity and the puzzles of each role as sets, and one index per group
//! that maps short names to ids.  What has to happen in one piece is run by
//! the store itself as a script, which is given the keys it may touch and
//! the values to write.
//!
//! Nothing here reaches the store.  The functions below name the keys, put
//! together the calls of the scripts, read what the store answers, and decide
//! what to ask next.

use vstd::prelude::*;
use crate::api::{state_views, PuzzleState, PuzzleView};
use crate::identity::{default_role_id, identity_of_record, Identity, IdentityView};
use crate::normalise::index_key;
use crate::puzzle::{named_puzzle, puzzle_id, puzzle_of_record, Puzzle};
use crate::role::{role_of_record, Role, RoleView};

verus! {

/// What can go wrong when the store is asked for something.
#[derive(Debug)]
pub enum DatabaseError {
    /// Nothing is kept under this key.
    NotFound(String),
    /// The store could not be reached or did not answer as expected; this is
    /// what it said.
    Redis(String),
}

/// A store error as plain text.
pub enum DatabaseErrorView {
    NotFound(Seq<char>),
    Redis(Seq<char>),
}

impl View for DatabaseError {
    type V = DatabaseErrorView;

    open spec fn view(&self) -> DatabaseErrorView {
        match self {
            DatabaseError::NotFound(key) => DatabaseErrorView::NotFound(key@),
            DatabaseError::Redis(message) => DatabaseErrorView::Redis(message@),
        }
    }
}

impl DatabaseErrorView {
    /// The sentence that reports the error.
    pub open spec fn message(self) -> Seq<char> {
        match self {
            DatabaseErrorView::NotFound(key) => "Database error: "@ + key + " not found"@,
            DatabaseErrorView::Redis(message) => "Database error: "@ + message,
        }
    }
}

/// What the store hands back: a value, or the reason there is none.
pub type DatabaseResult<T> = Result<T, DatabaseError>;

impl DatabaseError {
    /// The sentence that reports the error.
    pub fn message(&self) -> (text: String)
        ensures
            text@ == self@.message(),
    {
        let mut text = "Database error: ".to_owned();
        match self {
            DatabaseError::NotFound(key) => {
                text.append(key.as_str());
                text.append(" not found");
            },
            DatabaseError::Redis(message) => {
                text.append(message.as_str());
            },
        }
        text
    }
}

/// The key of the record of a thing in a group.
pub open spec fn record_key(group: Seq<char>, id: Seq<char>) -> Seq<char> {
    group + ":"@ + id
}

/// The key of the set of things that belong to a record.
pub open spec fn members_key(group: Seq<char>, id: Seq<char>, members: Seq<char>) -> Seq<char> {
    group + ":"@ + id + ":"@ + members
}

/// Names the record of a thing in a group.
pub fn record_key_of(group: &str, id: &str) -> (key: String)
    ensures
        key@ == record_key(group@, id@),
{
    let mut key = group.to_owned();
    key.append(":");
    key.append(id);
    key
}

/// Names the set of things that belong to a record.
pub fn members_key_of(group: &str, id: &str, members: &str) -> (key: String)
    ensures
        key@ == members_key(group@, id@, members@),
{
    let mut key = record_key_of(group, id);
    key.append(":");
    key.append(members);
    key
}

/// The scripts that the store runs in one piece.
#[derive(Debug, Clone, Copy, PartialEq, Eq, Structural)]
pub enum Script {
    /// Writes an identity's fields and answers with the ids of its roles.
    IdentityUpsert,
    /// Writes a role, reserves its short name and adds it to its owner's
    /// roles, unless the role is there already.
    CreateRole,
    /// Writes a puzzle, reserves its short name and adds it to its owner's
    /// puzzles.
    CreatePuzzle,
}

/// One run of a script: the keys it may touch and the values it is given.
#[derive(Debug)]
pub struct ScriptCall {
    pub script: Script,
    pub keys: Vec<String>,
    pub args: Vec<String>,
}

/// A run of a script as plain text.
pub struct ScriptCallView {
    pub script: Script,
    pub keys: Seq<Seq<char>>,
    pub args: Seq<Seq<char>>,
}

impl View for ScriptCall {
    type V = ScriptCallView;

    open spec fn view(&self) -> ScriptCallView {
        ScriptCallView {
            script: self.script,
            keys: self.keys.deep_view(),
            args: self.args.deep_view(),
        }
    }
}

/// A text that may be missing, as the store is given it: nothing is the
/// empty text.
pub open spec fn or_empty(text: Option<Seq<char>>) -> Seq<char> {
    match text {
        Some(text) => text,
        None => Seq::empty(),
    }
}

/// The call that writes an identity and lists its roles.
pub open spec fn upsert_call(identity: IdentityView) -> ScriptCallView {
    ScriptCallView {
        script: Script::IdentityUpsert,
        keys: seq![
            record_key("identity"@, identity.uuid),
            members_key("identity"@, identity.uuid, "roles"@),
        ],
        args: seq![identity.display_name, or_empty(identity.gravatar_hash)],
    }
}

/// What a new default role says about itself.
pub open spec fn first_bio(display_name: Seq<char>) -> Seq<char> {
    "# "@ + display_name + "\n\nTODO"@
}

/// The default role of an identity under a short name.
pub open spec fn default_role(identity: IdentityView, short_name: Seq<char>) -> RoleView {
    RoleView {
        uuid: default_role_id(identity.uuid),
        owner: identity.uuid,
        short_name,
        display_name: identity.display_name,
        bio: first_bio(identity.display_name),
    }
}

/// The call that creates a role.
pub open spec fn create_role_call(role: RoleView) -> ScriptCallView {
    ScriptCallView {
        script: Script::CreateRole,
        keys: seq![
            record_key("role"@, role.uuid),
            index_key("role"@),
            members_key("identity"@, role.owner, "roles"@),
        ],
        args: seq![role.uuid, role.owner, role.short_name, role.display_name, role.bio],
    }
}

/// The call that creates a puzzle whose states are packed as `packed`.
pub open spec fn create_puzzle_call(puzzle: PuzzleView, packed: Seq<char>) -> ScriptCallView {
    ScriptCallView {
        script: Script::CreatePuzzle,
        keys: seq![
            record_key("puzzle"@, puzzle.uuid),
            index_key("puzzle"@),
            members_key("role"@, puzzle.owner, "puzzles"@),
        ],
        args: seq![
            puzzle.uuid,
            puzzle.owner,
            puzzle.short_name,
            puzzle.display_name,
            puzzle.visibility.word(),
            or_empty(puzzle.visibility_changed),
            packed,
        ],
    }
}

fn text_or_empty(text: Option<&str>) -> (owned: String)
    ensures
        owned@ == or_empty(text.deep_view()),
{
    match text {
        Some(text) => text.to_owned(),
        None => String::new(),
    }
}

/// Reads the store's answer to a request for an identity's record: an empty
/// answer means that there is no such identity.
pub fn identity_by_uuid(uuid: &str, reply: Vec<String>) -> (found: Option<Identity>)
    ensures
        found is Some <==> reply@.len() > 0,
        found is Some ==> found->0@ == identity_of_record(uuid@, reply.deep_view()),
{
    if reply.is_empty() {
        None
    } else {
        Some(Identity::from_list(uuid, reply))
    }
}

/// Reads the store's answer to a request for a role's record: an empty
/// answer means that there is no such role.
pub fn role_by_uuid(uuid: &str, reply: Vec<String>) -> (found: DatabaseResult<Role>)
    ensures
        found is Ok <==> reply@.len() > 0,
        found is Ok ==> found->Ok_0@ == role_of_record(uuid@, reply.deep_view()),
        found is Err ==> found->Err_0@ == DatabaseErrorView::NotFound(record_key("role"@, uuid@)),
{
    if reply.is_empty() {
        Err(DatabaseError::NotFound(record_key_of("role", uuid)))
    } else {
        Ok(Role::from_list(uuid, reply))
    }
}

/// Reads the store's answer to a request for a puzzle's record: an empty
/// answer means that there is no such puzzle.  `states` are the states that
/// the record's packed states stand for.
pub fn puzzle_by_uuid(uuid: &str, reply: Vec<String>, states: Vec<PuzzleState>) -> (found:
    DatabaseResult<Puzzle>)
    ensures
        found is Ok <==> reply@.len() > 0,
        found is Ok ==> found->Ok_0@ == puzzle_of_record(
            uuid@,
            reply.deep_view(),
            state_views(states@),
        ),
        found is Err ==> found->Err_0@ == DatabaseErrorView::NotFound(
            record_key("puzzle"@, uuid@),
        ),
{
    if reply.is_empty() {
        Err(DatabaseError::NotFound(record_key_of("puzzle", uuid)))
    } else {
        Ok(Puzzle::from_list(uuid, reply, states))
    }
}

/// Puts together the call that writes an identity and lists its roles.
pub fn identity_upsert_and_roles(identity: &Identity) -> (call: ScriptCall)
    ensures
        call@ == upsert_call(identity@),
{
    let mut keys: Vec<String> = Vec::new();
    keys.push(record_key_of("identity", identity.uuid()));
    keys.push(members_key_of("identity", identity.uuid(), "roles"));
    let mut args: Vec<String> = Vec::new();
    args.push(identity.display_name().to_owned());
    args.push(text_or_empty(identity.gravatar_hash()));
    let call = ScriptCall { script: Script::IdentityUpsert, keys, args };
    assert(call@.keys =~= upsert_call(identity@).keys);
    assert(call@.args =~= upsert_call(identity@).args);
    call
}

/// The default role of an identity under a short name that was found free.
pub fn default_role_of(identity: &Identity, short_name: String) -> (role: Role)
    ensures
        role@ == default_role(identity@, short_name@),
{
    let mut bio = "# ".to_owned();
    bio.append(identity.display_name());
    bio.append("\n\nTODO");
    Role {
        uuid: identity.get_default_role(),
        owner: identity.uuid().to_owned(),
        short_name,
        display_name: identity.display_name().to_owned(),
        bio,
    }
}

/// Puts together the call that creates a role.
pub fn create_role(role: &Role) -> (call: ScriptCall)
    ensures
        call@ == create_role_call(role@),
{
    let mut keys: Vec<String> = Vec::new();
    keys.push(record_key_of("role", role.uuid()));
    keys.push(crate::normalise::group_index_key("role"));
    keys.push(members_key_of("identity", role.owner(), "roles"));
    let mut args: Vec<String> = Vec::new();
    args.push(role.uuid().to_owned());
    args.push(role.owner().to_owned());
    args.push(role.short_name().to_owned());
    args.push(role.display_name().to_owned());
    args.push(role.bio().to_owned());
    let call = ScriptCall { script: Script::CreateRole, keys, args };
    assert(call@.keys =~= create_role_call(role@).keys);
    assert(call@.args =~= create_role_call(role@).args);
    call
}

/// Puts together the call that creates the default role of an identity
/// under a short name that was found free.
pub fn create_default_role(identity: &Identity, short_name: String) -> (call: ScriptCall)
    ensures
        call@ == create_role_call(default_role(identity@, short_name@)),
{
    let role = default_role_of(identity, short_name);
    create_role(&role)
}

/// Puts together the call that creates a puzzle under a short name that was
/// found free, with its states packed as `packed`, and gives the id that the
/// puzzle gets.
pub fn create_puzzle(puzzle: &Puzzle, short_name: String, packed: String) -> (created: (
    String,
    ScriptCall,
))
    ensures
        created.0@ == puzzle_id(puzzle@.owner, short_name@),
        created.1@ == create_puzzle_call(named_puzzle(puzzle@, short_name@), packed@),
{
    let uuid = Puzzle::create_uuid(puzzle.owner(), short_name.as_str());
    let mut keys: Vec<String> = Vec::new();
    keys.push(record_key_of("puzzle", uuid.as_str()));
    keys.push(crate::normalise::group_index_key("puzzle"));
    keys.push(members_key_of("role", puzzle.owner(), "puzzles"));
    let mut args: Vec<String> = Vec::new();
    args.push(uuid.clone());
    args.push(puzzle.owner().to_owned());
    args.push(short_name);
    args.push(puzzle.display_name().to_owned());
    args.push(puzzle.visibility().name().to_owned());
    args.push(text_or_empty(puzzle.visibility_date()));
    args.push(packed);
    let call = ScriptCall { script: Script::CreatePuzzle, keys, args };
    let ghost wanted = create_puzzle_call(named_puzzle(puzzle@, short_name@), packed@);
    assert(call@.keys =~= wanted.keys);
    assert(call@.args =~= wanted.args);
    (uuid, call)
}

/// A search for a record by a text that is either its id or its short name.
///
/// The text is tried as an id first.  Where no record is kept under it, the
/// group's index of short names is asked for an id, and the record under
/// that id is read.
#[derive(Debug)]
pub struct Lookup {
    group: String,
    wanted: String,
}

/// A search that has to ask the index of short names.
#[derive(Debug)]
pub struct NameLookup {
    group: String,
    wanted: String,
}

/// A search that has an id from the index and has to read the record.
#[derive(Debug)]
pub struct IdLookup {
    group: String,
    id: String,
}

/// What a search is about, as plain text: the group and the text looked for.
pub struct LookupView {
    pub group: Seq<char>,
    pub wanted: Seq<char>,
}

impl View for Lookup {
    type V = LookupView;

    closed spec fn view(&self) -> LookupView {
        LookupView { group: self.group@, wanted: self.wanted@ }
    }
}

impl View for NameLookup {
    type V = LookupView;

    closed spec fn view(&self) -> LookupView {
        LookupView { group: self.group@, wanted: self.wanted@ }
    }
}

impl View for IdLookup {
    type V = LookupView;

    closed spec fn view(&self) -> LookupView {
        LookupView { group: self.group@, wanted: self.id@ }
    }
}

/// A record as the store hands it out, with the id it is kept under.
#[derive(Debug)]
pub struct Found {
    pub id: String,
    pub reply: Vec<String>,
}

/// A found record as plain text.
pub struct FoundView {
    pub id: Seq<char>,
    pub reply: Seq<Seq<char>>,
}

impl View for Found {
    type V = FoundView;

    open spec fn view(&self) -> FoundView {
        FoundView { id: self.id@, reply: self.reply.deep_view() }
    }
}

/// What a search does after the record under the text itself was read.
#[derive(Debug)]
pub enum DirectStep {
    /// The text is the id of this record.
    Found(Found),
    /// Ask the index of short names for the text.
    Resolve(NameLookup),
}

/// What a search does after the index was asked.
#[derive(Debug)]
pub enum NameStep {
    /// The text is neither an id nor a short name.
    Missing(DatabaseError),
    /// Read the record under the id that the index gave.
    Fetch(IdLookup),
}

impl Lookup {
    /// Starts a search in a group for a text.
    pub fn new(group: &str, wanted: &str) -> (search: Lookup)
        ensures
            search@ == (LookupView { group: group@, wanted: wanted@ }),
    {
        Lookup { group: group.to_owned(), wanted: wanted.to_owned() }
    }

    /// The key of the record to read first.
    pub fn key(&self) -> (key: String)
        ensures
            key@ == record_key(self@.group, self@.wanted),
    {
        record_key_of(self.group.as_str(), self.wanted.as_str())
    }

    /// Takes the store's answer to reading the record under the text.
    pub fn read(self, reply: Vec<String>) -> (step: DirectStep)
        ensures
            reply@.len() > 0 ==> step is Found && step->Found_0@ == (FoundView {
                id: self@.wanted,
                reply: reply.deep_view(),
            }),
            reply@.len() == 0 ==> step is Resolve && step->Resolve_0@ == self@,
    {
        if reply.is_empty() {
            DirectStep::Resolve(NameLookup { group: self.group, wanted: self.wanted })
        } else {
            DirectStep::Found(Found { id: self.wanted, reply })
        }
    }
}

impl NameLookup {
    /// The key of the index to ask.
    pub fn index(&self) -> (key: String)
        ensures
            key@ == index_key(self@.group),
    {
        crate::normalise::group_index_key(self.group.as_str())
    }

    /// The short name to ask the index for.
    pub fn name(&self) -> (name: &str)
        ensures
            name@ == self@.wanted,
    {
        self.wanted.as_str()
    }

    /// Takes the index's answer: the id kept under the short name, if any.
    pub fn resolved(self, id: Option<String>) -> (step: NameStep)
        ensures
            id is None ==> step is Missing && step->Missing_0@ == DatabaseErrorView::NotFound(
                record_key(self@.group, self@.wanted),
            ),
            id is Some ==> step is Fetch && step->Fetch_0@ == (LookupView {
                group: self@.group,
                wanted: id->0@,
            }),
    {
        match id {
            None => NameStep::Missing(
                DatabaseError::NotFound(
                    record_key_of(self.group.as_str(), self.wanted.as_str()),
                ),
            ),
            Some(id) => NameStep::Fetch(IdLookup { group: self.group, id }),
        }
    }
}

impl IdLookup {
    /// The key of the record to read.
    pub fn key(&self) -> (key: String)
        ensures
            key@ == record_key(self@.group, self@.wanted),
    {
        record_key_of(self.group.as_str(), self.id.as_str())
    }

    /// Takes the store's answer to reading the record under the id.
    pub fn read(self, reply: Vec<String>) -> (found: DatabaseResult<Found>)
        ensures
            found is Ok <==> reply@.len() > 0,
            found is Ok ==> found->Ok_0@ == (FoundView {
                id: self@.wanted,
                reply: reply.deep_view(),
            }),
            found is Err ==> found->Err_0@ == DatabaseErrorView::NotFound(
                record_key(self@.group, self@.wanted),
            ),
    {
        if reply.is_empty() {
            Err(DatabaseError::NotFound(record_key_of(self.group.as_str(), self.id.as_str())))
        } else {
            Ok(Found { id: self.id, reply })
        }
    }
}

} // verus!
