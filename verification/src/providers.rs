//! The login providers that the site is set up to use.
//!
//! The registry is filled once, when the site starts, with the providers
//! whose metadata could be discovered.  After that it is only read.  Names
//! are kept in lower case and looked up in lower case.

use vstd::prelude::*;
use crate::table::TextMap;

verus! {

/// How one OpenID Connect provider is configured.
#[derive(Debug)]
pub struct OpenIDProvider {
    pub client_id: String,
    pub client_secret: String,
    pub discovery_doc: String,
    pub scopes: Vec<String>,
}

/// What the site needs to talk to one provider: its credentials, the scopes
/// to ask for, and the metadata `M` that discovery brought.
pub struct ProviderSetup<M> {
    pub client_id: String,
    pub client_secret: String,
    pub provider_metadata: M,
    pub scopes: Vec<String>,
}

/// A provider's setup with its text laid open.
pub struct ProviderSetupView<M> {
    pub client_id: Seq<char>,
    pub client_secret: Seq<char>,
    pub provider_metadata: M,
    pub scopes: Seq<Seq<char>>,
}

impl<M> View for ProviderSetup<M> {
    type V = ProviderSetupView<M>;

    open spec fn view(&self) -> ProviderSetupView<M> {
        ProviderSetupView {
            client_id: self.client_id@,
            client_secret: self.client_secret@,
            provider_metadata: self.provider_metadata,
            scopes: self.scopes.deep_view(),
        }
    }
}

/// The lower case form of a text, as `str::to_lowercase` gives it.
pub uninterp spec fn lowercased(text: Seq<char>) -> Seq<char>;

/// Calls `str::to_lowercase`, which maps each character to its Unicode
/// lower case form.  The result depends on the text alone.
#[verifier::external_body]
fn lowercase(text: &str) -> (lower: String)
    ensures
        lower@ == lowercased(text@),
{
    text.to_lowercase()
}

/// The providers that can be used to log in, by name.
pub struct ProviderRegistry<M> {
    setups: TextMap<ProviderSetup<M>>,
}

impl<M> View for ProviderRegistry<M> {
    type V = Map<Seq<char>, ProviderSetup<M>>;

    closed spec fn view(&self) -> Map<Seq<char>, ProviderSetup<M>> {
        self.setups@
    }
}

impl<M> ProviderRegistry<M> {
    /// The setup that a request for `name` leads to: names are compared in
    /// lower case.
    pub open spec fn lookup(self, name: Seq<char>) -> Option<ProviderSetup<M>> {
        if self@.contains_key(lowercased(name)) {
            Some(self@[lowercased(name)])
        } else {
            None
        }
    }

    /// Whether a request for `name` leads to a provider.
    pub open spec fn has(self, name: Seq<char>) -> bool {
        self@.contains_key(lowercased(name))
    }

    /// A registry without providers.
    pub fn new() -> (registry: ProviderRegistry<M>)
        ensures
            registry@ == Map::<Seq<char>, ProviderSetup<M>>::empty(),
    {
        ProviderRegistry { setups: TextMap::new() }
    }

    /// Takes in one configured provider after discovery was tried for it.
    /// With metadata the provider is registered under the lower case form of
    /// its name, in place of whatever was registered under that form before;
    /// without, discovery failed and the registry stays as it is.  Says
    /// whether the provider was registered.
    pub fn register(&mut self, name: &str, provider: &OpenIDProvider, discovered: Option<M>) -> (loaded:
        bool)
        ensures
            loaded == discovered is Some,
            !loaded ==> final(self)@ == old(self)@,
            loaded ==> final(self).has(name@) && final(self)@ == old(self)@.insert(
                lowercased(name@),
                final(self)@[lowercased(name@)],
            ) && final(self)@[lowercased(name@)]@ == (ProviderSetupView {
                client_id: provider.client_id@,
                client_secret: provider.client_secret@,
                provider_metadata: discovered->0,
                scopes: provider.scopes.deep_view(),
            }),
    {
        let provider_metadata = match discovered {
            Some(metadata) => metadata,
            None => {
                return false;
            },
        };
        let key = lowercase(name);
        let scopes = provider.scopes.clone();
        assert(scopes.deep_view() =~= provider.scopes.deep_view());
        let setup = ProviderSetup {
            client_id: provider.client_id.clone(),
            client_secret: provider.client_secret.clone(),
            provider_metadata,
            scopes,
        };
        self.setups.insert(key.as_str(), setup);
        true
    }

    /// The provider that a request for `name` leads to.
    pub fn get(&self, name: &str) -> (found: Option<&ProviderSetup<M>>)
        ensures
            found is Some <==> self.has(name@),
            found is Some ==> *found->0 == self.lookup(name@)->0,
    {
        let key = lowercase(name);
        self.setups.get(key.as_str())
    }

    /// Whether a request for `name` leads to a provider.
    pub fn contains(&self, name: &str) -> (known: bool)
        ensures
            known == self.has(name@),
    {
        let key = lowercase(name);
        self.setups.contains_key(key.as_str())
    }

    /// How many providers are registered.
    pub fn len(&self) -> (count: usize)
        ensures
            self@.dom().finite(),
            count == self@.dom().len(),
    {
        self.setups.len()
    }
}

} // verus!
