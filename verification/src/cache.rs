//! What a page holds of a thing that it has asked the server for.

use vstd::prelude::*;

verus! {

/// The state of one cached thing.
#[derive(Debug, PartialEq, Eq)]
pub enum CacheEntry<V> {
    /// The server has been asked and has not answered yet.
    Pending,
    /// The server has no such thing.
    Missing,
    /// Asking failed; this is why.
    Error(String),
    /// The thing itself.
    Value(V),
}

impl<V> CacheEntry<V> {
    /// The reason of a failure; anything else has none.
    pub open spec fn reason(self) -> Seq<char> {
        match self {
            CacheEntry::Error(reason) => reason@,
            _ => Seq::empty(),
        }
    }

    /// Whether the answer is still awaited.
    pub fn is_pending(&self) -> (pending: bool)
        ensures
            pending == (self is Pending),
    {
        matches!(self, CacheEntry::Pending)
    }

    /// Whether the server has no such thing.
    pub fn is_missing(&self) -> (missing: bool)
        ensures
            missing == (self is Missing),
    {
        matches!(self, CacheEntry::Missing)
    }

    /// Whether asking failed.
    pub fn is_error(&self) -> (failed: bool)
        ensures
            failed == (self is Error),
    {
        matches!(self, CacheEntry::Error(_))
    }

    /// Why asking failed, or the empty text where it did not.
    pub fn error_text(&self) -> (text: &str)
        ensures
            text@ == self.reason(),
    {
        match self {
            CacheEntry::Error(reason) => reason.as_str(),
            _ => {
                let none = "";
                proof {
                    reveal_strlit("");
                    assert(none@ =~= Seq::<char>::empty());
                }
                none
            },
        }
    }

    /// The thing, if it is there.
    pub fn value(&self) -> (value: Option<&V>)
        ensures
            value is Some <==> self is Value,
            value is Some ==> *value->0 == self->Value_0,
    {
        match self {
            CacheEntry::Value(value) => Some(value),
            _ => None,
        }
    }

    /// What the entry becomes when a request reports back, if it changes at
    /// all.  A request that is still running, or has neither data nor an
    /// error, changes nothing.  Data counts before an error: the data may be
    /// a thing, or the news that there is none.
    pub fn settle(loading: bool, data: Option<Option<V>>, error: Option<String>) -> (entry: Option<
        CacheEntry<V>,
    >)
        ensures
            entry is Some <==> !loading && (data is Some || error is Some),
            entry is Some ==> entry->0 == (match data {
                Some(Some(value)) => CacheEntry::Value(value),
                Some(None) => CacheEntry::Missing,
                None => CacheEntry::Error(error->0),
            }),
    {
        if loading {
            return None;
        }
        match data {
            Some(Some(value)) => Some(CacheEntry::Value(value)),
            Some(None) => Some(CacheEntry::Missing),
            None => match error {
                Some(reason) => Some(CacheEntry::Error(reason)),
                None => None,
            },
        }
    }
}

/// The key under which a page caches a thing of a kind.
pub open spec fn cache_key(kind: Seq<char>, id: Seq<char>) -> Seq<char> {
    kind + ":"@ + id
}

/// The path at which the server answers for a thing of a kind.
pub open spec fn fetch_path(kind: Seq<char>, id: Seq<char>) -> Seq<char> {
    "/"@ + kind + "/get/"@ + id
}

/// Names the cache key and the server path for a thing of a kind.
pub fn cached_object(uuid_or_short_name: &str, kind: &str) -> (names: (String, String))
    ensures
        names.0@ == cache_key(kind@, uuid_or_short_name@),
        names.1@ == fetch_path(kind@, uuid_or_short_name@),
{
    let mut key = kind.to_owned();
    key.append(":");
    key.append(uuid_or_short_name);
    let mut path = "/".to_owned();
    path.append(kind);
    path.append("/get/");
    path.append(uuid_or_short_name);
    (key, path)
}

} // verus!
