//! The store, kept in memory.
//!
//! This is the store as the rest of the site relies on it, without the
//! service behind it: identities by id, and roles and puzzles as groups of
//! named records.  Each operation does in one step what the service does in
//! one round trip or in one script.

use vstd::prelude::*;
use crate::api::PuzzleView;
use crate::digest::{fingerprint, fingerprint_of};
use crate::identity::{default_role_id, Identity, IdentityView};
use crate::index::{create_is_idempotent, create_keeps_consistent, Entry, Group, GroupView};
use crate::login::{
    created_step, roles_step, AwaitingRoles, Finished, FinishedView, RolesStep, RolesStepView,
};
use crate::normalise::{
    base_name, candidate, first_free_is_unique, free_form_exists, index_key, may_answer,
    surely_free, unique_name, unique_name_is_free, unique_short_name,
};
use crate::puzzle::{named_puzzle, Puzzle};
use crate::role::{Role, RoleView};
use crate::store::{
    default_role, default_role_of, record_key, record_key_of, DatabaseError, DatabaseErrorView,
    DatabaseResult,
};
use crate::table::TextMap;

verus! {

/// The store, kept in memory.
pub struct MemoryDatabase {
    identities: TextMap<Identity>,
    roles: Group<Role>,
    puzzles: Group<Puzzle>,
}

/// What the store holds, as plain maps.
pub struct DatabaseView {
    pub identities: Map<Seq<char>, IdentityView>,
    pub roles: GroupView<RoleView>,
    pub puzzles: GroupView<PuzzleView>,
}

impl DatabaseView {
    /// A store that holds nothing.
    pub open spec fn empty() -> DatabaseView {
        DatabaseView {
            identities: Map::empty(),
            roles: GroupView::empty(),
            puzzles: GroupView::empty(),
        }
    }

    /// Whether the roles and the puzzles each agree with their indexes.
    pub open spec fn consistent(self) -> bool {
        self.roles.consistent() && self.puzzles.consistent()
    }

    /// The ids of the roles that an identity controls.
    pub open spec fn roles_of(self, identity: Seq<char>) -> Seq<Seq<char>> {
        self.roles.members_of(identity)
    }

    /// The store after an identity was written.
    pub open spec fn upsert(self, identity: IdentityView) -> DatabaseView {
        DatabaseView { identities: self.identities.insert(identity.uuid, identity), ..self }
    }

    /// The role that an identity gets by default in this store: its short
    /// name is the unique form of the identity's name among the names that
    /// roles have here.
    pub open spec fn default_role_for(self, identity: IdentityView) -> RoleView {
        default_role(identity, unique_name(identity.display_name, self.roles.names.dom()))
    }

    /// The store after the default role of an identity was created, unless
    /// it was there.
    pub open spec fn with_default_role(self, identity: IdentityView) -> DatabaseView {
        DatabaseView { roles: self.roles.create(self.default_role_for(identity)), ..self }
    }

    /// The puzzle that a request becomes in this store: its short name is
    /// the unique form of the name asked for among the names that puzzles
    /// have here.
    pub open spec fn puzzle_for(self, puzzle: PuzzleView) -> PuzzleView {
        named_puzzle(puzzle, unique_name(puzzle.short_name, self.puzzles.names.dom()))
    }

    /// The store after a puzzle was created.
    pub open spec fn with_puzzle(self, puzzle: PuzzleView) -> DatabaseView {
        DatabaseView { puzzles: self.puzzles.create(self.puzzle_for(puzzle)), ..self }
    }
}

impl View for MemoryDatabase {
    type V = DatabaseView;

    closed spec fn view(&self) -> DatabaseView {
        DatabaseView {
            identities: self.identities@.map_values(|identity: Identity| identity@),
            roles: self.roles@,
            puzzles: self.puzzles@,
        }
    }
}

/// Finds the unique short name for a text among the names of a group.
fn free_name<T: crate::index::Record>(group: &Group<T>, raw: &str, kind: &str) -> (name: String)
    where <T as View>::V: Entry
    ensures
        name@ == unique_name(raw@, group@.names.dom()),
        !group@.names.contains_key(name@),
        group@.consistent(),
{
    let count = group.reserved();
    let ghost taken = group@.names.dom();
    let ghost base = base_name(raw@);
    let ghost key = index_key(kind@);
    let is_taken = |_key: &str, name: &str| -> (held: bool)
        ensures
            held == group@.names.contains_key(name@),
        { group.name_taken(name) };
    proof {
        free_form_exists(base, taken);
        let free = choose|j: nat| j <= taken.len() && !taken.contains(#[trigger] candidate(base, j));
        assert(surely_free(is_taken, key, candidate(base, free)));
    }
    let name = unique_short_name(raw, kind, is_taken);
    proof {
        let found = choose|j: nat|
            {
                &&& name@ == #[trigger] candidate(base, j)
                &&& may_answer(is_taken, key, name@, false)
                &&& forall|i: nat|
                    i < j ==> may_answer(is_taken, key, #[trigger] candidate(base, i), true)
            };
        assert forall|i: nat| i < found implies taken.contains(#[trigger] candidate(base, i)) by {
            assert(may_answer(is_taken, key, candidate(base, i), true));
        }
        first_free_is_unique(base, taken, found);
    }
    name
}

impl MemoryDatabase {
    /// A store that holds nothing.
    pub fn new() -> (db: MemoryDatabase)
        ensures
            db@ == DatabaseView::empty(),
            db@.consistent(),
    {
        let db = MemoryDatabase {
            identities: TextMap::new(),
            roles: Group::new(),
            puzzles: Group::new(),
        };
        assert(db@.identities =~= Map::empty());
        db
    }

    /// What holds of every store: its roles and its puzzles each agree with
    /// their indexes.
    pub fn sound(&self)
        ensures
            self@.consistent(),
    {
        proof {
            use_type_invariant(&self.roles);
            use_type_invariant(&self.puzzles);
        }
    }

    /// The identity kept under an id, if there is one.
    pub fn identity_by_uuid(&self, uuid: &str) -> (found: Option<Identity>)
        ensures
            found is Some <==> self@.identities.contains_key(uuid@),
            found is Some ==> found->0@ == self@.identities[uuid@],
    {
        match self.identities.get(uuid) {
            Some(identity) => Some(identity.clone()),
            None => None,
        }
    }

    /// The identity of the account that a provider calls `subj`, if it has
    /// logged in before.
    pub fn identity_by_subject(&self, subj: &str) -> (found: Option<Identity>)
        ensures
            found is Some <==> self@.identities.contains_key(fingerprint(subj@)),
            found is Some ==> found->0@ == self@.identities[fingerprint(subj@)],
    {
        let uuid = fingerprint_of(subj);
        self.identity_by_uuid(uuid.as_str())
    }

    /// Writes an identity, over what was kept of it, and lists the ids of
    /// the roles it controls.
    pub fn identity_upsert_and_roles(&mut self, identity: &Identity) -> (roles: Vec<String>)
        ensures
            final(self)@ == old(self)@.upsert(identity@),
            roles.deep_view() == old(self)@.roles_of(identity@.uuid),
            final(self)@.consistent(),
    {
        self.sound();
        let roles = self.roles.members_of(identity.uuid());
        self.identities.insert(identity.uuid(), identity.clone());
        assert(self@.identities =~= old(self)@.upsert(identity@).identities);
        roles
    }

    /// The role kept under an id.
    pub fn role_by_uuid(&self, uuid: &str) -> (found: DatabaseResult<Role>)
        ensures
            found is Ok <==> self@.roles.records.contains_key(uuid@),
            found is Ok ==> found->Ok_0@ == self@.roles.records[uuid@],
            found is Err ==> found->Err_0@ == DatabaseErrorView::NotFound(
                record_key("role"@, uuid@),
            ),
    {
        match self.roles.get(uuid) {
            Some(role) => Ok(role.clone()),
            None => Err(DatabaseError::NotFound(record_key_of("role", uuid))),
        }
    }

    /// The role that a text leads to, as an id or else as a short name.
    pub fn role_by_uuid_or_short_name(&self, text: &str) -> (found: DatabaseResult<Role>)
        ensures
            found is Ok <==> self@.roles.find(text@) is Some,
            found is Ok ==> found->Ok_0@ == self@.roles.find(text@)->0,
            found is Err ==> found->Err_0@ == DatabaseErrorView::NotFound(
                record_key("role"@, text@),
            ),
    {
        match self.roles.find(text) {
            Some(role) => Ok(role.clone()),
            None => Err(DatabaseError::NotFound(record_key_of("role", text))),
        }
    }

    /// Creates the default role of an identity, unless it is there, under a
    /// short name made from the identity's name.
    pub fn create_default_role(&mut self, identity: &Identity)
        ensures
            final(self)@ == old(self)@.with_default_role(identity@),
            final(self)@.roles.records.contains_key(default_role_id(identity@.uuid)),
            final(self)@.consistent(),
    {
        self.sound();
        let short_name = free_name(&self.roles, identity.display_name(), "role");
        let role = default_role_of(identity, short_name);
        let created = self.roles.create(role);
        assert(created);
    }

    /// Creates a puzzle under a short name made from the one asked for, and
    /// gives the id it is kept under.
    pub fn create_puzzle(&mut self, puzzle: &Puzzle) -> (uuid: String)
        ensures
            final(self)@ == old(self)@.with_puzzle(puzzle@),
            uuid@ == old(self)@.puzzle_for(puzzle@).uuid,
            final(self)@.puzzles.records.contains_key(uuid@),
            final(self)@.consistent(),
    {
        self.sound();
        let short_name = free_name(&self.puzzles, puzzle.short_name(), "puzzle");
        let stored = puzzle.named(short_name);
        let uuid = stored.uuid().to_owned();
        let created = self.puzzles.create(stored);
        assert(created);
        uuid
    }

    /// The puzzle kept under an id.
    pub fn puzzle_by_uuid(&self, uuid: &str) -> (found: DatabaseResult<Puzzle>)
        ensures
            found is Ok <==> self@.puzzles.records.contains_key(uuid@),
            found is Ok ==> found->Ok_0@ == self@.puzzles.records[uuid@],
            found is Err ==> found->Err_0@ == DatabaseErrorView::NotFound(
                record_key("puzzle"@, uuid@),
            ),
    {
        match self.puzzles.get(uuid) {
            Some(puzzle) => Ok(puzzle.clone()),
            None => Err(DatabaseError::NotFound(record_key_of("puzzle", uuid))),
        }
    }

    /// The puzzle that a text leads to, as an id or else as a short name.
    pub fn puzzle_by_uuid_or_short_name(&self, text: &str) -> (found: DatabaseResult<Puzzle>)
        ensures
            found is Ok <==> self@.puzzles.find(text@) is Some,
            found is Ok ==> found->Ok_0@ == self@.puzzles.find(text@)->0,
            found is Err ==> found->Err_0@ == DatabaseErrorView::NotFound(
                record_key("puzzle"@, text@),
            ),
    {
        match self.puzzles.find(text) {
            Some(puzzle) => Ok(puzzle.clone()),
            None => Err(DatabaseError::NotFound(record_key_of("puzzle", text))),
        }
    }
}

/// What the end of a login does to the store, and how the login ends: the
/// identity is written and its roles are listed, and where its default role
/// is not among them, the role is created.
pub open spec fn provisioned(db: DatabaseView, identity: IdentityView) -> (
    DatabaseView,
    FinishedView,
) {
    let written = db.upsert(identity);
    match roles_step(identity, Some(written.roles_of(identity.uuid))) {
        RolesStepView::Done(end) => (written, end),
        RolesStepView::Create(waiting) => (
            written.with_default_role(identity),
            created_step(waiting, true),
        ),
    }
}

impl MemoryDatabase {
    /// Brings a login to its end against this store.
    pub fn provision(&mut self, waiting: AwaitingRoles) -> (end: Finished)
        ensures
            (final(self)@, end@) == provisioned(old(self)@, waiting@),
            final(self)@.consistent(),
    {
        let roles = self.identity_upsert_and_roles(waiting.identity());
        match waiting.listed(Ok(roles)) {
            RolesStep::Done(end) => end,
            RolesStep::Create(waiting) => {
                self.create_default_role(waiting.identity());
                waiting.created(Ok(()))
            },
        }
    }
}

/// Every login ends logged in, acting as the default role, and leaves that
/// role in the store.  A second login of the same identity finds what the
/// first one left: it creates nothing and ends the same.
pub proof fn login_provisions_once(db: DatabaseView, identity: IdentityView)
    requires
        db.consistent(),
    ensures
        ({
            let (once, first) = provisioned(db, identity);
            let (twice, second) = provisioned(once, identity);
            let role = default_role_id(identity.uuid);
            &&& once.consistent()
            &&& once.identities[identity.uuid] == identity
            &&& once.roles.records.contains_key(role)
            &&& first.error is None
            &&& first.status.user is Some
            &&& first.status.user->0.identity == identity
            &&& first.status.user->0.active_role == role
            &&& first.status.user->0.cached_roles.contains(role)
            &&& twice == once
            &&& second == first
        }),
{
    let (once, first) = provisioned(db, identity);
    let role = default_role_id(identity.uuid);
    let written = db.upsert(identity);
    let listed = written.roles_of(identity.uuid);
    default_role_is_created_once(written, identity);
    assert(once.upsert(identity).identities =~= once.identities);
    if listed.contains(role) {
        let at = choose|i: int| 0 <= i < listed.len() && listed[i] == role;
        assert(written.roles.records.contains_key(written.roles.members[identity.uuid][at]));
    } else {
        assert(listed.push(role)[listed.len() as int] == role);
        if written.roles.records.contains_key(role) {
        } else {
            let made = written.with_default_role(identity);
            assert(made.roles_of(identity.uuid) == listed.push(role));
        }
    }
}

/// Creating the default role of an identity twice leaves what creating it
/// once leaves: one role, whose short name is reserved for it, and which its
/// owner holds once.
pub proof fn default_role_is_created_once(db: DatabaseView, identity: IdentityView)
    requires
        db.consistent(),
    ensures
        ({
            let once = db.with_default_role(identity);
            let id = default_role_id(identity.uuid);
            &&& once.consistent()
            &&& once.with_default_role(identity) == once
            &&& once.roles.records.contains_key(id)
            &&& once.roles.names.contains_key(once.roles.records[id].short_name)
            &&& once.roles.names[once.roles.records[id].short_name] == id
            &&& once.roles_of(once.roles.records[id].owner).contains(id)
            &&& once.roles_of(once.roles.records[id].owner).no_duplicates()
        }),
{
    let first = db.default_role_for(identity);
    unique_name_is_free(identity.display_name, db.roles.names.dom());
    let once = db.with_default_role(identity);
    let second = once.default_role_for(identity);
    create_is_idempotent(db.roles, first, second);
    create_keeps_consistent(db.roles, first);
}

/// Writing an identity leaves its roles as they are, so a login that finds
/// the default role listed needs to create nothing.
pub proof fn upsert_keeps_roles(db: DatabaseView, identity: IdentityView, other: Seq<char>)
    ensures
        db.upsert(identity).roles_of(other) == db.roles_of(other),
        db.upsert(identity).identities[identity.uuid] == identity,
        db.consistent() ==> db.upsert(identity).consistent(),
{
}

} // verus!
