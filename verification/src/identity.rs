//! Identities: the people who log in.
//!
//! An identity is known by the fingerprint of its subject, the text that the
//! login provider uses for the account.  Only a fingerprint of the e-mail
//! address is kept, never the address.

use vstd::prelude::*;
use crate::digest::{fingerprint, fingerprint_of};
use crate::record::{field, field_or_empty, latest, latest_or_empty};
use crate::text::same;

verus! {

/// A person who has logged in.
#[derive(Debug)]
pub struct Identity {
    pub uuid: String,
    pub display_name: String,
    pub gravatar_hash: Option<String>,
}

/// What an identity holds, as plain text.
pub struct IdentityView {
    pub uuid: Seq<char>,
    pub display_name: Seq<char>,
    pub gravatar_hash: Option<Seq<char>>,
}

impl View for Identity {
    type V = IdentityView;

    open spec fn view(&self) -> IdentityView {
        IdentityView {
            uuid: self.uuid@,
            display_name: self.display_name@,
            gravatar_hash: self.gravatar_hash.deep_view(),
        }
    }
}

/// The id of the role that an identity gets when it first logs in.
pub open spec fn default_role_id(identity_id: Seq<char>) -> Seq<char> {
    fingerprint("identity:"@ + identity_id + ":defaultrole"@)
}

/// The identity that a login by `subject` stands for.
pub open spec fn identity_for(
    subject: Seq<char>,
    display_name: Seq<char>,
    email: Option<Seq<char>>,
) -> IdentityView {
    IdentityView {
        uuid: fingerprint(subject),
        display_name,
        gravatar_hash: match email {
            Some(address) => Some(fingerprint(address)),
            None => None,
        },
    }
}

/// The identity that the store's record under `uuid` describes.
pub open spec fn identity_of_record(uuid: Seq<char>, kvs: Seq<Seq<char>>) -> IdentityView {
    IdentityView {
        uuid,
        display_name: field_or_empty(kvs, "display_name"@),
        gravatar_hash: field(kvs, "gravatar_hash"@),
    }
}

impl Identity {
    /// The identity of the account that a provider calls `subj`.  Its id is
    /// the fingerprint of the subject, so every login by the same account
    /// leads to the same identity.
    pub fn new(subj: &str, display_name: &str, email: Option<&str>) -> (identity: Identity)
        ensures
            identity@ == identity_for(subj@, display_name@, email.deep_view()),
    {
        let uuid = fingerprint_of(subj);
        let gravatar_hash = match email {
            Some(address) => Some(fingerprint_of(address)),
            None => None,
        };
        Identity { uuid, display_name: display_name.to_owned(), gravatar_hash }
    }

    /// This identity's id.
    pub fn uuid(&self) -> (id: &str)
        ensures
            id@ == self@.uuid,
    {
        self.uuid.as_str()
    }

    /// The name to show for this identity.
    pub fn display_name(&self) -> (name: &str)
        ensures
            name@ == self@.display_name,
    {
        self.display_name.as_str()
    }

    /// The fingerprint of this identity's e-mail address, if it has one.
    pub fn gravatar_hash(&self) -> (hash: Option<&str>)
        ensures
            hash.deep_view() == self@.gravatar_hash,
    {
        match &self.gravatar_hash {
            Some(hash) => Some(hash.as_str()),
            None => None,
        }
    }

    /// Reads an identity from the store's record of it.  Of a key that
    /// occurs more than once the last value counts; keys that an identity
    /// does not have are passed over.
    pub fn from_list(uuid: &str, kvs: Vec<String>) -> (identity: Identity)
        ensures
            identity@ == identity_of_record(uuid@, kvs.deep_view()),
    {
        let mut display_name = String::new();
        let mut gravatar_hash: Option<String> = None;
        let ghost list = kvs.deep_view();
        let mut pairs: usize = 0;
        while pairs < kvs.len() / 2
            invariant
                pairs <= kvs.len() / 2,
                list == kvs.deep_view(),
                display_name@ == latest_or_empty(list, "display_name"@, pairs as nat),
                gravatar_hash.deep_view() == latest(list, "gravatar_hash"@, pairs as nat),
            decreases kvs.len() / 2 - pairs,
        {
            let key = kvs[2 * pairs].as_str();
            let value = kvs[2 * pairs + 1].clone();
            proof {
                assert(list[2 * pairs] == key@);
                assert(list[2 * pairs + 1] == value@);
                reveal_strlit("display_name");
                reveal_strlit("gravatar_hash");
            }
            if same(key, "display_name") {
                display_name = value;
            } else if same(key, "gravatar_hash") {
                gravatar_hash = Some(value);
            }
            pairs += 1;
        }
        Identity { uuid: uuid.to_owned(), display_name, gravatar_hash }
    }

    /// The id of this identity's default role.
    pub fn get_default_role(&self) -> (role: String)
        ensures
            role@ == default_role_id(self@.uuid),
    {
        let mut name = "identity:".to_owned();
        name.append(self.uuid.as_str());
        name.append(":defaultrole");
        fingerprint_of(name.as_str())
    }
}

impl Clone for Identity {
    fn clone(&self) -> (copy: Identity)
        ensures
            copy == *self,
    {
        Identity {
            uuid: self.uuid.clone(),
            display_name: self.display_name.clone(),
            gravatar_hash: self.gravatar_hash.clone(),
        }
    }
}

} // verus!
