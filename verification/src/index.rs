//! Groups of named records.
//!
//! Roles and puzzles are kept by the same discipline.  Every record of a
//! group has an id, an owner and a short name.  The group keeps the records
//! by id, keeps an index from short names to ids, and keeps for every owner
//! the ids of what it owns.  A record is created in one piece: it is written,
//! its short name is reserved and its id is added to its owner's, or nothing
//! happens at all.  So no short name ever leads to two records, and no record
//! is ever without its name or its owner.

use vstd::prelude::*;
use crate::table::TextMap;

verus! {

/// What a group has to know of a record, as plain text.
pub trait Entry {
    /// The id under which the record is kept.
    spec fn key(self) -> Seq<char>;

    /// The id of the record's owner.
    spec fn holder(self) -> Seq<char>;

    /// The record's short name.
    spec fn token(self) -> Seq<char>;
}

/// A record that a group can keep.
pub trait Record: View + Sized where <Self as View>::V: Entry {
    /// The id under which the record is kept.
    fn key_text(&self) -> (text: &str)
        ensures
            text@ == self@.key(),
    ;

    /// The id of the record's owner.
    fn holder_text(&self) -> (text: &str)
        ensures
            text@ == self@.holder(),
    ;

    /// The record's short name.
    fn token_text(&self) -> (text: &str)
        ensures
            text@ == self@.token(),
    ;
}

/// A group as plain maps: the records by id, the ids by short name, and the
/// ids of what each owner owns, in the order of creation.
pub struct GroupView<T> {
    pub records: Map<Seq<char>, T>,
    pub names: Map<Seq<char>, Seq<char>>,
    pub members: Map<Seq<char>, Seq<Seq<char>>>,
}

impl<T: Entry> GroupView<T> {
    /// A group without records.
    pub open spec fn empty() -> GroupView<T> {
        GroupView { records: Map::empty(), names: Map::empty(), members: Map::empty() }
    }

    /// The ids of what an owner owns.
    pub open spec fn members_of(self, owner: Seq<char>) -> Seq<Seq<char>> {
        if self.members.contains_key(owner) {
            self.members[owner]
        } else {
            Seq::empty()
        }
    }

    /// The record that a text leads to: the one kept under it as an id, or
    /// else the one whose short name it is.
    pub open spec fn find(self, text: Seq<char>) -> Option<T> {
        if self.records.contains_key(text) {
            Some(self.records[text])
        } else if self.names.contains_key(text) && self.records.contains_key(self.names[text]) {
            Some(self.records[self.names[text]])
        } else {
            None
        }
    }

    /// Whether a record can be created: it is there already, or its short
    /// name is free.
    pub open spec fn admits(self, record: T) -> bool {
        self.records.contains_key(record.key()) || !self.names.contains_key(record.token())
    }

    /// The group after a record was created.  Creating a record whose id is
    /// in use changes nothing.
    pub open spec fn create(self, record: T) -> GroupView<T> {
        if self.records.contains_key(record.key()) {
            self
        } else {
            GroupView {
                records: self.records.insert(record.key(), record),
                names: self.names.insert(record.token(), record.key()),
                members: self.members.insert(
                    record.holder(),
                    self.members_of(record.holder()).push(record.key()),
                ),
            }
        }
    }

    /// Whether the three maps of the group agree with each other.
    pub open spec fn consistent(self) -> bool {
        &&& self.names.dom().finite()
        &&& forall|id: Seq<char>| #[trigger]
            self.records.contains_key(id) ==> {
                &&& self.records[id].key() == id
                &&& self.names.contains_key(self.records[id].token())
                &&& self.names[self.records[id].token()] == id
                &&& self.members_of(self.records[id].holder()).contains(id)
            }
        &&& forall|name: Seq<char>| #[trigger]
            self.names.contains_key(name) ==> {
                &&& self.records.contains_key(self.names[name])
                &&& self.records[self.names[name]].token() == name
            }
        &&& forall|owner: Seq<char>| #[trigger]
            self.members.contains_key(owner) ==> self.members[owner].no_duplicates()
        &&& forall|owner: Seq<char>, i: int|
            self.members.contains_key(owner) && 0 <= i < self.members[owner].len() ==> {
                &&& self.records.contains_key(#[trigger] self.members[owner][i])
                &&& self.records[self.members[owner][i]].holder() == owner
            }
    }
}

/// Creating a record keeps a group consistent.
pub proof fn create_keeps_consistent<T: Entry>(group: GroupView<T>, record: T)
    requires
        group.consistent(),
        group.admits(record),
    ensures
        group.create(record).consistent(),
{
    let after = group.create(record);
    if !group.records.contains_key(record.key()) {
        let id = record.key();
        let owner = record.holder();
        let before = group.members_of(owner);
        assert(!before.contains(id)) by {
            if before.contains(id) {
                let i = choose|i: int| 0 <= i < before.len() && before[i] == id;
                assert(group.records.contains_key(group.members[owner][i]));
            }
        }
        assert(before.push(id).no_duplicates());
        assert(before.push(id)[before.len() as int] == id);
        assert forall|other: Seq<char>| #[trigger]
            after.records.contains_key(other) implies after.members_of(
            after.records[other].holder(),
        ).contains(other) by {
            if other != id {
                let held_by = group.records[other].holder();
                let list = group.members_of(held_by);
                let i = choose|i: int| 0 <= i < list.len() && list[i] == other;
                if held_by == owner {
                    assert(before.push(id)[i] == other);
                }
            }
        }
        assert forall|holder: Seq<char>, i: int|
            after.members.contains_key(holder) && 0 <= i < after.members[holder].len() implies {
            &&& after.records.contains_key(#[trigger] after.members[holder][i])
            &&& after.records[after.members[holder][i]].holder() == holder
        } by {
            if holder == owner {
                if i < before.len() {
                    assert(group.records.contains_key(group.members[owner][i]));
                }
            } else {
                assert(group.records.contains_key(group.members[holder][i]));
            }
        }
    }
}

/// In a consistent group no two records share a short name.
pub proof fn short_names_are_unique<T: Entry>(group: GroupView<T>, a: Seq<char>, b: Seq<char>)
    requires
        group.consistent(),
        group.records.contains_key(a),
        group.records.contains_key(b),
        group.records[a].token() == group.records[b].token(),
    ensures
        a == b,
{
}

/// Creating a record a second time changes nothing, whatever short name
/// the second attempt carries: there is one record, one reservation and one
/// entry with the owner.
pub proof fn create_is_idempotent<T: Entry>(group: GroupView<T>, first: T, second: T)
    requires
        group.consistent(),
        group.admits(first),
        second.key() == first.key(),
    ensures
        group.create(first).admits(second),
        group.create(first).create(second) == group.create(first),
        group.create(first).records.contains_key(first.key()),
        ({
            let after = group.create(first);
            let kept = after.records[first.key()];
            &&& after.names.contains_key(kept.token())
            &&& after.names[kept.token()] == first.key()
            &&& after.members_of(kept.holder()).contains(first.key())
            &&& after.members_of(kept.holder()).no_duplicates()
        }),
{
    create_keeps_consistent(group, first);
    let after = group.create(first);
    assert(after.records.contains_key(first.key()));
    let kept = after.records[first.key()];
    assert(after.members.contains_key(kept.holder())) by {
        if !after.members.contains_key(kept.holder()) {
            assert(after.members_of(kept.holder()) =~= Seq::empty());
        }
    }
}

/// A group of records, kept in memory.
pub struct Group<T: Record> where <T as View>::V: Entry {
    records: TextMap<T>,
    names: TextMap<String>,
    members: TextMap<Vec<String>>,
}

spec fn model<T: Record>(
    records: TextMap<T>,
    names: TextMap<String>,
    members: TextMap<Vec<String>>,
) -> GroupView<T::V> where <T as View>::V: Entry {
    GroupView {
        records: records@.map_values(|record: T| record@),
        names: names@.map_values(|id: String| id@),
        members: members@.map_values(|ids: Vec<String>| ids.deep_view()),
    }
}

impl<T: Record> View for Group<T> where <T as View>::V: Entry {
    type V = GroupView<T::V>;

    closed spec fn view(&self) -> GroupView<T::V> {
        model(self.records, self.names, self.members)
    }
}

impl<T: Record> Group<T> where <T as View>::V: Entry {
    /// What holds of every group: its maps agree with each other.
    #[verifier::type_invariant]
    pub open spec fn agrees(self) -> bool {
        self@.consistent()
    }

    /// A group without records.
    pub fn new() -> (group: Group<T>)
        ensures
            group@ == GroupView::<T::V>::empty(),
            group@.consistent(),
    {
        let records: TextMap<T> = TextMap::new();
        let names: TextMap<String> = TextMap::new();
        let members: TextMap<Vec<String>> = TextMap::new();
        proof {
            let empty = model(records, names, members);
            assert(empty.records =~= Map::empty());
            assert(empty.names =~= Map::empty());
            assert(empty.members =~= Map::empty());
        }
        Group { records, names, members }
    }

    /// The record kept under an id.
    pub fn get(&self, id: &str) -> (record: Option<&T>)
        ensures
            record is Some <==> self@.records.contains_key(id@),
            record is Some ==> record->0@ == self@.records[id@],
    {
        self.records.get(id)
    }

    /// Whether a short name is reserved.
    pub fn name_taken(&self, name: &str) -> (taken: bool)
        ensures
            taken == self@.names.contains_key(name@),
    {
        self.names.contains_key(name)
    }

    /// How many short names are reserved.  Every group is consistent, and
    /// its names can be counted.
    pub fn reserved(&self) -> (count: usize)
        ensures
            self@.consistent(),
            count == self@.names.dom().len(),
    {
        proof {
            use_type_invariant(self);
        }
        let count = self.names.len();
        assert(self@.names.dom() =~= self.names@.dom());
        count
    }

    /// The record that a text leads to: the one kept under it as an id, or
    /// else the one whose short name it is.
    pub fn find(&self, text: &str) -> (record: Option<&T>)
        ensures
            record is Some <==> self@.find(text@) is Some,
            record is Some ==> record->0@ == self@.find(text@)->0,
    {
        match self.records.get(text) {
            Some(record) => Some(record),
            None => match self.names.get(text) {
                Some(id) => self.records.get(id.as_str()),
                None => None,
            },
        }
    }

    /// The ids of what an owner owns, in the order of creation.
    pub fn members_of(&self, owner: &str) -> (ids: Vec<String>)
        ensures
            ids.deep_view() == self@.members_of(owner@),
    {
        match self.members.get(owner) {
            Some(ids) => {
                let copy = ids.clone();
                assert(copy.deep_view() =~= ids.deep_view());
                copy
            },
            None => {
                let none: Vec<String> = Vec::new();
                assert(none.deep_view() =~= Seq::<Seq<char>>::empty());
                none
            },
        }
    }

    /// Creates a record in one piece, and says whether it is there now.  A
    /// record whose id is in use is there already: nothing changes.  A
    /// record whose short name is reserved is refused: nothing changes
    /// either.
    pub fn create(&mut self, record: T) -> (created: bool)
        ensures
            created == old(self)@.admits(record@),
            created ==> final(self)@ == old(self)@.create(record@),
            !created ==> final(self)@ == old(self)@,
            final(self)@.consistent(),
    {
        proof {
            use_type_invariant(&*self);
        }
        if self.records.contains_key(record.key_text()) {
            return true;
        }
        if self.names.contains_key(record.token_text()) {
            return false;
        }
        let ghost before = self@;
        let ghost entry = record@;
        let mut group: Group<T> = Group::new();
        std::mem::swap(self, &mut group);
        let Group { records, names, members } = group;
        let mut records = records;
        let mut names = names;
        let mut members = members;
        let id = record.key_text().to_owned();
        let mut owned = match members.get(record.holder_text()) {
            Some(ids) => {
                let copy = ids.clone();
                assert(copy.deep_view() =~= ids.deep_view());
                copy
            },
            None => Vec::new(),
        };
        assert(owned.deep_view() =~= before.members_of(record@.holder()));
        let ghost owned_before = owned.deep_view();
        owned.push(id.clone());
        assert(owned.deep_view() =~= owned_before.push(record@.key()));
        members.insert(record.holder_text(), owned);
        names.insert(record.token_text(), id.clone());
        records.insert(id.as_str(), record);
        proof {
            let after = model(records, names, members);
            create_keeps_consistent(before, entry);
            assert(after.records =~= before.create(entry).records);
            assert(after.names =~= before.create(entry).names);
            assert(after.members =~= before.create(entry).members);
        }
        *self = Group { records, names, members };
        true
    }
}

} // verus!
