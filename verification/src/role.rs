//! Roles: the personas under which an identity owns puzzles.
//!
//! The store keeps a role under `role:` followed by its id, and keeps the
//! ids of all roles by short name under `role:byname`.

use vstd::prelude::*;
use crate::index::{Entry, Record};
use crate::record::{field_or_empty, latest_or_empty};
use crate::text::same;

verus! {

/// A persona that owns puzzles.
#[derive(Debug)]
pub struct Role {
    pub uuid: String,
    pub owner: String,
    pub short_name: String,
    pub display_name: String,
    pub bio: String,
}

/// What a role holds, as plain text.
pub struct RoleView {
    pub uuid: Seq<char>,
    pub owner: Seq<char>,
    pub short_name: Seq<char>,
    pub display_name: Seq<char>,
    pub bio: Seq<char>,
}

impl View for Role {
    type V = RoleView;

    open spec fn view(&self) -> RoleView {
        RoleView {
            uuid: self.uuid@,
            owner: self.owner@,
            short_name: self.short_name@,
            display_name: self.display_name@,
            bio: self.bio@,
        }
    }
}

/// The role that the store's record under `uuid` describes.
pub open spec fn role_of_record(uuid: Seq<char>, kvs: Seq<Seq<char>>) -> RoleView {
    RoleView {
        uuid,
        owner: field_or_empty(kvs, "owner"@),
        short_name: field_or_empty(kvs, "short_name"@),
        display_name: field_or_empty(kvs, "display_name"@),
        bio: field_or_empty(kvs, "bio"@),
    }
}

impl Role {
    /// The id of the role.
    pub fn uuid(&self) -> (id: &str)
        ensures
            id@ == self@.uuid,
    {
        self.uuid.as_str()
    }

    /// The id of the identity that controls the role.
    pub fn owner(&self) -> (id: &str)
        ensures
            id@ == self@.owner,
    {
        self.owner.as_str()
    }

    /// The unique token by which the role is addressed.
    pub fn short_name(&self) -> (name: &str)
        ensures
            name@ == self@.short_name,
    {
        self.short_name.as_str()
    }

    /// The name to show for the role.
    pub fn display_name(&self) -> (name: &str)
        ensures
            name@ == self@.display_name,
    {
        self.display_name.as_str()
    }

    /// What the role says about itself.
    pub fn bio(&self) -> (text: &str)
        ensures
            text@ == self@.bio,
    {
        self.bio.as_str()
    }

    /// Reads a role from the store's record of it.  Of a key that occurs
    /// more than once the last value counts; keys that a role does not have
    /// are passed over.
    pub fn from_list(uuid: &str, kvs: Vec<String>) -> (role: Role)
        ensures
            role@ == role_of_record(uuid@, kvs.deep_view()),
    {
        let mut owner = String::new();
        let mut short_name = String::new();
        let mut display_name = String::new();
        let mut bio = String::new();
        let ghost list = kvs.deep_view();
        let mut pairs: usize = 0;
        while pairs < kvs.len() / 2
            invariant
                pairs <= kvs.len() / 2,
                list == kvs.deep_view(),
                owner@ == latest_or_empty(list, "owner"@, pairs as nat),
                short_name@ == latest_or_empty(list, "short_name"@, pairs as nat),
                display_name@ == latest_or_empty(list, "display_name"@, pairs as nat),
                bio@ == latest_or_empty(list, "bio"@, pairs as nat),
            decreases kvs.len() / 2 - pairs,
        {
            let key = kvs[2 * pairs].as_str();
            let value = kvs[2 * pairs + 1].clone();
            proof {
                assert(list[2 * pairs] == key@);
                assert(list[2 * pairs + 1] == value@);
                reveal_strlit("owner");
                reveal_strlit("short_name");
                reveal_strlit("display_name");
                reveal_strlit("bio");
            }
            if same(key, "owner") {
                owner = value;
            } else if same(key, "short_name") {
                short_name = value;
            } else if same(key, "display_name") {
                display_name = value;
            } else if same(key, "bio") {
                bio = value;
            }
            pairs += 1;
        }
        Role { uuid: uuid.to_owned(), owner, short_name, display_name, bio }
    }
}

impl Clone for Role {
    fn clone(&self) -> (copy: Role)
        ensures
            copy@ == self@,
    {
        Role {
            uuid: self.uuid.clone(),
            owner: self.owner.clone(),
            short_name: self.short_name.clone(),
            display_name: self.display_name.clone(),
            bio: self.bio.clone(),
        }
    }
}

impl Entry for RoleView {
    open spec fn key(self) -> Seq<char> {
        self.uuid
    }

    open spec fn holder(self) -> Seq<char> {
        self.owner
    }

    open spec fn token(self) -> Seq<char> {
        self.short_name
    }
}

impl Record for Role {
    fn key_text(&self) -> (text: &str) {
        self.uuid.as_str()
    }

    fn holder_text(&self) -> (text: &str) {
        self.owner.as_str()
    }

    fn token_text(&self) -> (text: &str) {
        self.short_name.as_str()
    }
}

} // verus!
