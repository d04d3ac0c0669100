//! The login flow: an OpenID Connect authorization code exchange whose state
//! travels with the browser.
//!
//! Between requests the whole state of a login is one `LoginFlowStatus`,
//! kept in a cookie that the browser cannot read or forge.  A status is in
//! one of three phases: logged out, with a flow pending at a provider, or
//! logged in.
//!
//! A flow begins with fresh secrets and the address of an authorization
//! request, which carries one of them as its `state`.  Both are made here,
//! by the provider library, without a word to the provider.
//!
//! After that the flow talks to the provider and to the store, and neither
//! happens here.  Each function below decides what to do next and says so
//! in its result; whoever calls it does the talking and comes back with the
//! outcome.  A login that was called back runs through up to three such
//! stops: the code is exchanged for tokens, the identity is written and its
//! roles are listed, and the default role is created where it is missing.

use vstd::prelude::*;
use vstd::utf8::is_ascii_chars;
use openidconnect::{
    AuthUrl, ClientId, CsrfToken, IssuerUrl, Nonce, PkceCodeChallenge, PkceCodeVerifier,
    RedirectUrl, Scope,
};
use crate::address::url_parts;
use crate::api::{
    BackendLoginStatus, BackendLoginStatusView, LoginFlowResult, LoginFlowStart,
    LoginFlowStartView,
};
use crate::identity::{default_role_id, identity_for, Identity, IdentityView};
use crate::providers::{ProviderRegistry, ProviderSetup};
use crate::store::DatabaseError;
use crate::text::{holds, same};

verus! {

/// What a pending flow has to remember until the provider calls back.
#[derive(Debug)]
pub struct LoginFlowSetup {
    /// The provider's name, as it was asked for.
    pub provider: String,
    /// The secret that proves, at the exchange, who started the flow.
    pub pkce_verifier: String,
    /// The address at the provider that the browser was sent to.
    pub url: String,
    /// The token that the callback has to repeat.
    pub csrf_token: String,
    /// The value that the identity token has to repeat.
    pub nonce: String,
}

/// A pending flow as plain text.
pub struct LoginFlowSetupView {
    pub provider: Seq<char>,
    pub pkce_verifier: Seq<char>,
    pub url: Seq<char>,
    pub csrf_token: Seq<char>,
    pub nonce: Seq<char>,
}

impl View for LoginFlowSetup {
    type V = LoginFlowSetupView;

    open spec fn view(&self) -> LoginFlowSetupView {
        LoginFlowSetupView {
            provider: self.provider@,
            pkce_verifier: self.pkce_verifier@,
            url: self.url@,
            csrf_token: self.csrf_token@,
            nonce: self.nonce@,
        }
    }
}

/// Who is logged in, and as what.
#[derive(Debug)]
pub struct LoginFlowUserData {
    pub identity: Identity,
    /// The ids of the roles that the identity controlled when it logged in.
    pub cached_roles: Vec<String>,
    /// The id of the role that the user acts as.
    pub active_role: String,
}

/// A logged-in user as plain text.
pub struct LoginFlowUserDataView {
    pub identity: IdentityView,
    pub cached_roles: Seq<Seq<char>>,
    pub active_role: Seq<char>,
}

impl View for LoginFlowUserData {
    type V = LoginFlowUserDataView;

    open spec fn view(&self) -> LoginFlowUserDataView {
        LoginFlowUserDataView {
            identity: self.identity@,
            cached_roles: self.cached_roles.deep_view(),
            active_role: self.active_role@,
        }
    }
}

impl LoginFlowUserData {
    /// Whether the user controlled this role when logging in.
    pub fn has_role(&self, role: &str) -> (held: bool)
        ensures
            held == self@.cached_roles.contains(role@),
    {
        holds(&self.cached_roles, role)
    }
}

/// The state of a browser's login.
#[derive(Debug)]
pub struct LoginFlowStatus {
    /// Set while a flow is pending at a provider.
    pub flow: Option<LoginFlowSetup>,
    /// Set once a login has succeeded.
    pub user: Option<LoginFlowUserData>,
}

/// The phase that a login is in.
pub enum Phase {
    LoggedOut,
    FlowPending,
    LoggedIn,
}

/// The state of a login as plain text.
pub struct LoginFlowStatusView {
    pub flow: Option<LoginFlowSetupView>,
    pub user: Option<LoginFlowUserDataView>,
}

impl LoginFlowStatusView {
    /// The phase of this state.  A user counts before a flow.
    pub open spec fn phase(self) -> Phase {
        if self.user is Some {
            Phase::LoggedIn
        } else if self.flow is Some {
            Phase::FlowPending
        } else {
            Phase::LoggedOut
        }
    }

    /// Whether at most one of flow and user is set.
    pub open spec fn settled(self) -> bool {
        self.flow is None || self.user is None
    }

    /// The state of a browser that is not logged in and has no flow pending.
    pub open spec fn logged_out() -> LoginFlowStatusView {
        LoginFlowStatusView { flow: None, user: None }
    }

    /// The state after a login: the identity acts as its default role.
    pub open spec fn logged_in(
        identity: IdentityView,
        roles: Seq<Seq<char>>,
    ) -> LoginFlowStatusView {
        LoginFlowStatusView {
            flow: None,
            user: Some(
                LoginFlowUserDataView {
                    identity,
                    cached_roles: roles,
                    active_role: default_role_id(identity.uuid),
                },
            ),
        }
    }

    /// What a status request is told.  A pending flow does not show: only a
    /// completed login does.
    pub open spec fn report(self) -> BackendLoginStatusView {
        match self.user {
            Some(user) => BackendLoginStatusView::LoggedIn {
                name: user.identity.display_name,
                gravatar_hash: user.identity.gravatar_hash,
                roles: user.cached_roles,
                role: user.active_role,
            },
            None => BackendLoginStatusView::LoggedOut,
        }
    }

    /// The state after the user has picked a role to act as.  Whether the
    /// user holds the role is not asked here: it is checked when the role is
    /// used.  Without a user nothing changes.
    pub open spec fn with_role(self, role: Seq<char>) -> LoginFlowStatusView {
        match self.user {
            Some(user) => LoginFlowStatusView {
                user: Some(LoginFlowUserDataView { active_role: role, ..user }),
                ..self
            },
            None => self,
        }
    }
}

impl View for LoginFlowStatus {
    type V = LoginFlowStatusView;

    open spec fn view(&self) -> LoginFlowStatusView {
        LoginFlowStatusView {
            flow: match self.flow {
                Some(setup) => Some(setup@),
                None => None,
            },
            user: match self.user {
                Some(user) => Some(user@),
                None => None,
            },
        }
    }
}

impl Default for LoginFlowStatus {
    fn default() -> (status: LoginFlowStatus)
        ensures
            status@ == LoginFlowStatusView::logged_out(),
    {
        LoginFlowStatus { flow: None, user: None }
    }
}

/// What a new flow is begun with: the address of its authorization request
/// and its secrets.
#[derive(Debug)]
pub struct AuthorizationRequest {
    /// Where to send the browser.
    pub url: String,
    /// The token that the callback has to repeat.
    pub csrf_token: String,
    /// The value that the identity token has to repeat.
    pub nonce: String,
    /// The secret to present when the code is exchanged.
    pub pkce_verifier: String,
}

/// The address of the authorization request that openidconnect builds for
/// a client, a provider's addresses, scopes, and the secrets of a flow.
pub uninterp spec fn authorization_address(
    client_id: Seq<char>,
    issuer: Seq<char>,
    authorization_endpoint: Seq<char>,
    redirect_url: Seq<char>,
    scopes: Seq<Seq<char>>,
    state: Seq<char>,
    nonce: Seq<char>,
    verifier: Seq<char>,
) -> Seq<char>;

/// Whether an address carries a value under a key: it is an address, and
/// one of the pairs of its query is the key and the value.
pub open spec fn carries(url: Seq<char>, key: Seq<char>, value: Seq<char>) -> bool {
    &&& url_parts(url) is Some
    &&& exists|i: int|
        0 <= i < url_parts(url)->0.pairs.len() && #[trigger] url_parts(url)->0.pairs[i] == (
            key,
            value,
        )
}

/// Whether an address carries a token as its `state`.
pub open spec fn carries_state(url: Seq<char>, token: Seq<char>) -> bool {
    carries(url, "state"@, token)
}

/// The scopes that a request asks for, as one text: `openid` first, then
/// the scopes given, with a space before each.
pub open spec fn scope_text(scopes: Seq<Seq<char>>) -> Seq<char>
    decreases scopes.len(),
{
    if scopes.len() == 0 {
        "openid"@
    } else {
        scope_text(scopes.drop_last()) + " "@ + scopes.last()
    }
}

/// Whether an address is an authorization request at an endpoint: it has
/// the endpoint's host and path, and carries the code flow as the kind of
/// answer wanted, the client, the state, the way the challenge was made,
/// the address to come back to, the scopes, and the nonce.
pub open spec fn asks_at(
    url: Seq<char>,
    authorization_endpoint: Seq<char>,
    client_id: Seq<char>,
    redirect_url: Seq<char>,
    scopes: Seq<Seq<char>>,
    state: Seq<char>,
    nonce: Seq<char>,
) -> bool {
    &&& url_parts(url) is Some
    &&& url_parts(url)->0.host == url_parts(authorization_endpoint)->0.host
    &&& url_parts(url)->0.path == url_parts(authorization_endpoint)->0.path
    &&& carries(url, "response_type"@, "code"@)
    &&& carries(url, "client_id"@, client_id)
    &&& carries(url, "state"@, state)
    &&& carries(url, "code_challenge_method"@, "S256"@)
    &&& carries(url, "redirect_uri"@, redirect_url)
    &&& carries(url, "scope"@, scope_text(scopes))
    &&& carries(url, "nonce"@, nonce)
}

/// Whether the addresses that a flow is started with are addresses.
pub open spec fn addresses_hold(
    issuer: Seq<char>,
    authorization_endpoint: Seq<char>,
    redirect_url: Seq<char>,
) -> bool {
    &&& url_parts(issuer) is Some
    &&& url_parts(authorization_endpoint) is Some
    &&& url_parts(redirect_url) is Some
}

/// Whether a text can serve as the secret of a flow: 43 to 128 characters,
/// all of them ASCII.
pub open spec fn fits_verifier(text: Seq<char>) -> bool {
    43 <= text.len() <= 128 && is_ascii_chars(text)
}

/// Calls `CsrfToken::new_random` and hands out the text of the token.  The
/// token is random: nothing is said of it.
#[verifier::external_body]
fn random_state() -> (token: String) {
    CsrfToken::new_random().secret().clone()
}

/// Calls `Nonce::new_random` and hands out the text of the nonce.  The nonce
/// is random: nothing is said of it.
#[verifier::external_body]
fn random_nonce() -> (nonce: String) {
    Nonce::new_random().secret().clone()
}

/// Calls `PkceCodeChallenge::new_random_sha256` and hands out the text of
/// the verifier: 32 random bytes written in base64 without padding, which
/// makes 43 characters of ASCII.
#[verifier::external_body]
fn random_verifier() -> (verifier: String)
    ensures
        verifier@.len() == 43,
        is_ascii_chars(verifier@),
{
    PkceCodeChallenge::new_random_sha256().1.secret().clone()
}

/// Has openidconnect build the address of an authorization request.  A
/// client is set up with `CoreClient::new` and `set_redirect_uri`;
/// `authorize_url` makes the request for the authorization code flow with
/// the state and the nonce, the scopes are added, and the challenge is that
/// of the verifier by `PkceCodeChallenge::from_code_verifier_sha256`.  There
/// is an address where the three addresses given are addresses.  It
/// depends on what is handed in alone.  It is the endpoint's, with pairs
/// added to its query: the kind of answer, the client, the state, the
/// challenge and how it was made, the address to come back to, the scopes
/// behind `openid`, and the nonce.
#[verifier::external_body]
fn authorization_url(
    client_id: &str,
    issuer: &str,
    authorization_endpoint: &str,
    redirect_url: &str,
    scopes: &Vec<String>,
    state: String,
    nonce: String,
    verifier: &str,
) -> (url: Option<String>)
    requires
        fits_verifier(verifier@),
    ensures
        url is Some <==> addresses_hold(issuer@, authorization_endpoint@, redirect_url@),
        url is Some ==> url->0@ == authorization_address(
            client_id@,
            issuer@,
            authorization_endpoint@,
            redirect_url@,
            scopes.deep_view(),
            state@,
            nonce@,
            verifier@,
        ),
        url is Some ==> asks_at(
            url->0@,
            authorization_endpoint@,
            client_id@,
            redirect_url@,
            scopes.deep_view(),
            state@,
            nonce@,
        ),
{
    let client = openidconnect::core::CoreClient::new(
        ClientId::new(client_id.into()),
        None,
        IssuerUrl::new(issuer.into()).ok()?,
        AuthUrl::new(authorization_endpoint.into()).ok()?,
        None,
        None,
        Default::default(),
    ).set_redirect_uri(RedirectUrl::new(redirect_url.into()).ok()?);
    let challenge = PkceCodeChallenge::from_code_verifier_sha256(&PkceCodeVerifier::new(verifier.into()));
    let code = openidconnect::core::CoreAuthenticationFlow::AuthorizationCode;
    let mut request = client.authorize_url(code, move || CsrfToken::new(state), move || Nonce::new(nonce));
    for scope in scopes { request = request.add_scope(Scope::new(scope.clone())); }
    Some(request.set_pkce_challenge(challenge).url().0.into())
}

/// What to do about a request to start logging in.
#[derive(Debug)]
pub enum StartStep {
    /// Answer with this; the status is as it was.
    Reply(LoginFlowStart),
    /// Begin a flow at the provider, with `authorize`.
    Authorize,
}

/// A start step as plain text.
pub enum StartStepView {
    Reply(LoginFlowStartView),
    Authorize,
}

impl View for StartStep {
    type V = StartStepView;

    open spec fn view(&self) -> StartStepView {
        match self {
            StartStep::Reply(reply) => StartStepView::Reply(reply@),
            StartStep::Authorize => StartStepView::Authorize,
        }
    }
}

/// What a start request for `provider` leads to.  A user who is logged in
/// stays so.  A flow pending at the same provider is taken up again, with
/// the address it was started with.  Otherwise a new flow begins if the
/// provider is registered, and the request fails if it is not.
pub open spec fn start_step(
    status: LoginFlowStatusView,
    provider: Seq<char>,
    registered: bool,
) -> StartStepView {
    if status.user is Some {
        StartStepView::Reply(LoginFlowStartView::Idle)
    } else if status.flow is Some && status.flow->0.provider == provider {
        StartStepView::Reply(LoginFlowStartView::Redirect(status.flow->0.url))
    } else if registered {
        StartStepView::Authorize
    } else {
        StartStepView::Reply(LoginFlowStartView::Error("Provider: "@ + provider + " not known"@))
    }
}

/// What the provider's callback carried.
#[derive(Debug)]
pub struct LoginContinueQuery {
    pub state: Option<String>,
    pub code: Option<String>,
    pub error: Option<String>,
}

/// A callback as plain text.
pub struct LoginContinueQueryView {
    pub state: Option<Seq<char>>,
    pub code: Option<Seq<char>>,
    pub error: Option<Seq<char>>,
}

impl View for LoginContinueQuery {
    type V = LoginContinueQueryView;

    open spec fn view(&self) -> LoginContinueQueryView {
        LoginContinueQueryView {
            state: self.state.deep_view(),
            code: self.code.deep_view(),
            error: self.error.deep_view(),
        }
    }
}

/// How handling a callback ended.
#[derive(Debug)]
pub struct Finished {
    /// The status from now on.
    pub status: LoginFlowStatus,
    /// What to tell the caller.
    pub result: LoginFlowResult,
    /// Whether the status differs from the one the request came with and has
    /// to be written back.
    pub persist: bool,
}

/// The end of a callback as plain text.
pub struct FinishedView {
    pub status: LoginFlowStatusView,
    pub error: Option<Seq<char>>,
    pub persist: bool,
}

impl View for Finished {
    type V = FinishedView;

    open spec fn view(&self) -> FinishedView {
        FinishedView { status: self.status@, error: self.result@, persist: self.persist }
    }
}

impl FinishedView {
    /// A callback that changed nothing.
    pub open spec fn untouched(status: LoginFlowStatusView) -> FinishedView {
        FinishedView { status, error: None, persist: false }
    }

    /// A flow that failed: the browser is logged out and told why.
    pub open spec fn failed(reason: Seq<char>) -> FinishedView {
        FinishedView {
            status: LoginFlowStatusView::logged_out(),
            error: Some(reason),
            persist: true,
        }
    }

    /// A flow that succeeded.
    pub open spec fn succeeded(identity: IdentityView, roles: Seq<Seq<char>>) -> FinishedView {
        FinishedView {
            status: LoginFlowStatusView::logged_in(identity, roles),
            error: None,
            persist: true,
        }
    }
}

/// A flow whose code has to be exchanged for tokens at the provider.
#[derive(Debug)]
pub struct AwaitingTokens {
    setup: LoginFlowSetup,
    code: String,
}

/// A code exchange as plain text.
pub struct AwaitingTokensView {
    pub setup: LoginFlowSetupView,
    pub code: Seq<char>,
}

impl View for AwaitingTokens {
    type V = AwaitingTokensView;

    closed spec fn view(&self) -> AwaitingTokensView {
        AwaitingTokensView { setup: self.setup@, code: self.code@ }
    }
}

/// What to do about a callback.
#[derive(Debug)]
pub enum ContinueStep {
    /// The callback is dealt with.
    Done(Finished),
    /// Exchange the code at the provider and report how that went.
    Exchange(AwaitingTokens),
}

/// A callback step as plain text.
pub enum ContinueStepView {
    Done(FinishedView),
    Exchange(AwaitingTokensView),
}

impl View for ContinueStep {
    type V = ContinueStepView;

    open spec fn view(&self) -> ContinueStepView {
        match self {
            ContinueStep::Done(end) => ContinueStepView::Done(end@),
            ContinueStep::Exchange(waiting) => ContinueStepView::Exchange(waiting@),
        }
    }
}

/// What a callback leads to.
///
/// A callback to a browser that is logged in, or has no flow pending, is a
/// stray and changes nothing.  For a pending flow the state is compared
/// first, whatever else the callback carries: a callback with the wrong state
/// was not made by the provider on this flow's behalf, and nothing else in
/// it is looked at.  Then comes an error that the provider reports.  A
/// callback that carries neither an error nor a code has nothing to
/// exchange, and fails as an exchange would.  Last comes the provider
/// itself.  Every failure ends the flow.
pub open spec fn continue_step<M>(
    status: LoginFlowStatusView,
    query: LoginContinueQueryView,
    registry: ProviderRegistry<M>,
) -> ContinueStepView {
    if status.user is Some || status.flow is None {
        ContinueStepView::Done(FinishedView::untouched(status))
    } else if query.state != Some(status.flow->0.csrf_token) {
        ContinueStepView::Done(FinishedView::failed("bad-state"@))
    } else if query.error is Some {
        ContinueStepView::Done(FinishedView::failed(query.error->0))
    } else if query.code is None {
        ContinueStepView::Done(FinishedView::failed("code-exchange-failed"@))
    } else if !registry.has(status.flow->0.provider) {
        ContinueStepView::Done(FinishedView::failed("bad-provider"@))
    } else {
        ContinueStepView::Exchange(
            AwaitingTokensView { setup: status.flow->0, code: query.code->0 },
        )
    }
}

/// How the exchange of a code went.
#[derive(Debug)]
pub enum ExchangeOutcome {
    /// The provider did not accept the code, or could not be reached.
    Failed,
    /// The provider answered without an identity token.
    NoIdToken,
    /// The identity token did not verify against the provider's keys and
    /// the flow's nonce.
    BadIdToken,
    /// The identity token verified; these are its claims.  `email_verified`
    /// is what the provider says of the address, where it says anything.
    Verified {
        subject: String,
        name: Option<String>,
        email: Option<String>,
        email_verified: Option<bool>,
    },
}

/// The outcome of an exchange as plain text.
pub enum ExchangeOutcomeView {
    Failed,
    NoIdToken,
    BadIdToken,
    Verified {
        subject: Seq<char>,
        name: Option<Seq<char>>,
        email: Option<Seq<char>>,
        email_verified: Option<bool>,
    },
}

impl View for ExchangeOutcome {
    type V = ExchangeOutcomeView;

    open spec fn view(&self) -> ExchangeOutcomeView {
        match self {
            ExchangeOutcome::Failed => ExchangeOutcomeView::Failed,
            ExchangeOutcome::NoIdToken => ExchangeOutcomeView::NoIdToken,
            ExchangeOutcome::BadIdToken => ExchangeOutcomeView::BadIdToken,
            ExchangeOutcome::Verified { subject, name, email, email_verified } => {
                ExchangeOutcomeView::Verified {
                    subject: subject@,
                    name: name.deep_view(),
                    email: email.deep_view(),
                    email_verified: *email_verified,
                }
            },
        }
    }
}

/// A login whose identity has to be written to the store, which answers
/// with the roles that the identity controls.
#[derive(Debug)]
pub struct AwaitingRoles {
    identity: Identity,
}

impl View for AwaitingRoles {
    type V = IdentityView;

    closed spec fn view(&self) -> IdentityView {
        self.identity@
    }
}

/// What to do after a code exchange.
#[derive(Debug)]
pub enum TokenStep {
    /// The flow has failed.
    Done(Finished),
    /// Write the identity and list its roles.
    Upsert(AwaitingRoles),
}

/// A step after the exchange as plain text.
pub enum TokenStepView {
    Done(FinishedView),
    Upsert(IdentityView),
}

impl View for TokenStep {
    type V = TokenStepView;

    open spec fn view(&self) -> TokenStepView {
        match self {
            TokenStep::Done(end) => TokenStepView::Done(end@),
            TokenStep::Upsert(waiting) => TokenStepView::Upsert(waiting@),
        }
    }
}

/// The subject of an account across providers: the provider's name, a
/// colon, and the subject that the provider claims.
pub open spec fn qualified_subject(provider: Seq<char>, subject: Seq<char>) -> Seq<char> {
    provider + ":"@ + subject
}

/// The address that counts of an account: the one it claims, where the
/// provider says that it has verified it.
pub open spec fn verified_email(
    email: Option<Seq<char>>,
    email_verified: Option<bool>,
) -> Option<Seq<char>> {
    if email_verified == Some(true) {
        email
    } else {
        None
    }
}

/// The identity that verified claims stand for.  An account without a name
/// is shown by its qualified subject; only a verified address counts.
pub open spec fn claimed_identity(
    provider: Seq<char>,
    subject: Seq<char>,
    name: Option<Seq<char>>,
    email: Option<Seq<char>>,
    email_verified: Option<bool>,
) -> IdentityView {
    let qualified = qualified_subject(provider, subject);
    identity_for(
        qualified,
        match name {
            Some(name) => name,
            None => qualified,
        },
        verified_email(email, email_verified),
    )
}

/// What the outcome of a code exchange leads to.
pub open spec fn token_step(
    waiting: AwaitingTokensView,
    outcome: ExchangeOutcomeView,
) -> TokenStepView {
    match outcome {
        ExchangeOutcomeView::Failed => TokenStepView::Done(
            FinishedView::failed("code-exchange-failed"@),
        ),
        ExchangeOutcomeView::NoIdToken => TokenStepView::Done(FinishedView::failed("no-id-token"@)),
        ExchangeOutcomeView::BadIdToken => TokenStepView::Done(
            FinishedView::failed("bad-id-token"@),
        ),
        ExchangeOutcomeView::Verified { subject, name, email, email_verified } => {
            TokenStepView::Upsert(
                claimed_identity(waiting.setup.provider, subject, name, email, email_verified),
            )
        },
    }
}

/// A login for which the identity's default role has to be created.
#[derive(Debug)]
pub struct AwaitingDefaultRole {
    identity: Identity,
    roles: Vec<String>,
}

/// A login that waits for its default role, as plain text.
pub struct AwaitingDefaultRoleView {
    pub identity: IdentityView,
    pub roles: Seq<Seq<char>>,
}

impl View for AwaitingDefaultRole {
    type V = AwaitingDefaultRoleView;

    closed spec fn view(&self) -> AwaitingDefaultRoleView {
        AwaitingDefaultRoleView { identity: self.identity@, roles: self.roles.deep_view() }
    }
}

/// What to do once the store has listed the identity's roles.
#[derive(Debug)]
pub enum RolesStep {
    /// The login has ended.
    Done(Finished),
    /// Create the identity's default role.
    Create(AwaitingDefaultRole),
}

/// A step after the listing as plain text.
pub enum RolesStepView {
    Done(FinishedView),
    Create(AwaitingDefaultRoleView),
}

impl View for RolesStep {
    type V = RolesStepView;

    open spec fn view(&self) -> RolesStepView {
        match self {
            RolesStep::Done(end) => RolesStepView::Done(end@),
            RolesStep::Create(waiting) => RolesStepView::Create(waiting@),
        }
    }
}

/// The roles that the store listed, where it did.
pub open spec fn listed_roles(listed: Result<Vec<String>, DatabaseError>) -> Option<
    Seq<Seq<char>>,
> {
    match listed {
        Ok(roles) => Some(roles.deep_view()),
        Err(_) => None,
    }
}

/// What the store's answer to writing the identity leads to.  An identity
/// that has its default role already is logged in with the roles listed.
pub open spec fn roles_step(identity: IdentityView, listed: Option<Seq<Seq<char>>>) -> RolesStepView {
    match listed {
        None => RolesStepView::Done(FinishedView::failed("database-error"@)),
        Some(roles) => if roles.contains(default_role_id(identity.uuid)) {
            RolesStepView::Done(FinishedView::succeeded(identity, roles))
        } else {
            RolesStepView::Create(AwaitingDefaultRoleView { identity, roles })
        },
    }
}

/// How the login ends once the creation of the default role was tried:
/// with the new role added to those listed, or with a failure.  The reason
/// given for this failure is spelled `databse-error`; that of a failed
/// listing, `database-error`.
pub open spec fn created_step(waiting: AwaitingDefaultRoleView, created: bool) -> FinishedView {
    if created {
        FinishedView::succeeded(
            waiting.identity,
            waiting.roles.push(default_role_id(waiting.identity.uuid)),
        )
    } else {
        FinishedView::failed("databse-error"@)
    }
}

fn failed(reason: String) -> (end: Finished)
    ensures
        end@ == FinishedView::failed(reason@),
{
    Finished {
        status: LoginFlowStatus { flow: None, user: None },
        result: LoginFlowResult { error: Some(reason) },
        persist: true,
    }
}

fn succeeded(identity: Identity, roles: Vec<String>) -> (end: Finished)
    ensures
        end@ == FinishedView::succeeded(identity@, roles.deep_view()),
{
    let active_role = identity.get_default_role();
    Finished {
        status: LoginFlowStatus {
            flow: None,
            user: Some(LoginFlowUserData { identity, cached_roles: roles, active_role }),
        },
        result: LoginFlowResult { error: None },
        persist: true,
    }
}

impl LoginFlowStatus {
    /// The user, if the browser is logged in.
    pub fn user(&self) -> (user: Option<&LoginFlowUserData>)
        ensures
            user is Some <==> self@.user is Some,
            user is Some ==> user->0@ == self@.user->0,
    {
        self.user.as_ref()
    }

    /// Decides what a request to start logging in with `provider` leads to.
    pub fn start_auth<M>(&self, provider: &str, registry: &ProviderRegistry<M>) -> (step:
        StartStep)
        ensures
            step@ == start_step(self@, provider@, registry.has(provider@)),
    {
        if self.user.is_some() {
            return StartStep::Reply(LoginFlowStart::Idle);
        }
        if let Some(setup) = &self.flow {
            if same(setup.provider.as_str(), provider) {
                return StartStep::Reply(LoginFlowStart::Redirect(setup.url.clone()));
            }
        }
        if registry.contains(provider) {
            StartStep::Authorize
        } else {
            let mut message = "Provider: ".to_owned();
            message.append(provider);
            message.append(" not known");
            StartStep::Reply(LoginFlowStart::Error(message))
        }
    }

    /// Begins a flow at `provider` with a request that was made for it, in
    /// place of any flow that was pending, and answers with the address to
    /// send the browser to.
    pub fn begin_flow(&mut self, provider: &str, request: AuthorizationRequest) -> (reply:
        LoginFlowStart)
        ensures
            final(self)@ == (LoginFlowStatusView {
                flow: Some(
                    LoginFlowSetupView {
                        provider: provider@,
                        pkce_verifier: request.pkce_verifier@,
                        url: request.url@,
                        csrf_token: request.csrf_token@,
                        nonce: request.nonce@,
                    },
                ),
                user: old(self)@.user,
            }),
            reply@ == LoginFlowStartView::Redirect(request.url@),
    {
        let reply = LoginFlowStart::Redirect(request.url.clone());
        self.flow = Some(
            LoginFlowSetup {
                provider: provider.to_owned(),
                pkce_verifier: request.pkce_verifier,
                url: request.url,
                csrf_token: request.csrf_token,
                nonce: request.nonce,
            },
        );
        reply
    }

    /// Begins a flow at a provider that is reached by these addresses, with
    /// fresh secrets and the address of an authorization request made with
    /// them, and answers with that address, to send the browser to.  The
    /// address is the one that openidconnect builds from the client, the
    /// addresses, the scopes and the secrets that the flow keeps: it is at
    /// the provider's endpoint and carries, among others, the address to
    /// come back to, the scopes, the nonce, and as its `state` the token that
    /// the callback has to repeat.  Where the addresses are no addresses, no
    /// flow is begun and the provider is reported as bad.
    pub fn authorize<M>(
        &mut self,
        provider: &str,
        setup: &ProviderSetup<M>,
        issuer: &str,
        authorization_endpoint: &str,
        redirect_url: &str,
    ) -> (reply: LoginFlowStart)
        ensures
            !addresses_hold(issuer@, authorization_endpoint@, redirect_url@) ==> {
                &&& final(self)@ == old(self)@
                &&& reply@ == LoginFlowStartView::Error("bad-provider"@)
            },
            addresses_hold(issuer@, authorization_endpoint@, redirect_url@) ==> {
                &&& final(self)@.user == old(self)@.user
                &&& final(self)@.flow is Some
                &&& final(self)@.flow->0.provider == provider@
                &&& fits_verifier(final(self)@.flow->0.pkce_verifier)
                &&& final(self)@.flow->0.url == authorization_address(
                    setup@.client_id,
                    issuer@,
                    authorization_endpoint@,
                    redirect_url@,
                    setup@.scopes,
                    final(self)@.flow->0.csrf_token,
                    final(self)@.flow->0.nonce,
                    final(self)@.flow->0.pkce_verifier,
                )
                &&& asks_at(
                    final(self)@.flow->0.url,
                    authorization_endpoint@,
                    setup@.client_id,
                    redirect_url@,
                    setup@.scopes,
                    final(self)@.flow->0.csrf_token,
                    final(self)@.flow->0.nonce,
                )
                &&& carries_state(final(self)@.flow->0.url, final(self)@.flow->0.csrf_token)
                &&& reply@ == LoginFlowStartView::Redirect(final(self)@.flow->0.url)
            },
    {
        let state = random_state();
        let nonce = random_nonce();
        let verifier = random_verifier();
        let url = authorization_url(
            setup.client_id.as_str(),
            issuer,
            authorization_endpoint,
            redirect_url,
            &setup.scopes,
            state.clone(),
            nonce.clone(),
            verifier.as_str(),
        );
        match url {
            Some(url) => self.begin_flow(
                provider,
                AuthorizationRequest { url, csrf_token: state, nonce, pkce_verifier: verifier },
            ),
            None => LoginFlowStart::Error("bad-provider".to_owned()),
        }
    }

    /// Decides what a callback from a provider leads to.
    pub fn continue_login<M>(self, query: LoginContinueQuery, registry: &ProviderRegistry<M>) -> (step:
        ContinueStep)
        ensures
            step@ == continue_step(self@, query@, *registry),
    {
        let LoginFlowStatus { flow, user } = self;
        let LoginContinueQuery { state, code, error } = query;
        if user.is_some() {
            return ContinueStep::Done(
                Finished {
                    status: LoginFlowStatus { flow, user },
                    result: LoginFlowResult { error: None },
                    persist: false,
                },
            );
        }
        let setup = match flow {
            Some(setup) => setup,
            None => {
                return ContinueStep::Done(
                    Finished {
                        status: LoginFlowStatus { flow: None, user },
                        result: LoginFlowResult { error: None },
                        persist: false,
                    },
                );
            },
        };
        let state_matches = match &state {
            Some(state) => same(state.as_str(), setup.csrf_token.as_str()),
            None => false,
        };
        if !state_matches {
            return ContinueStep::Done(failed("bad-state".to_owned()));
        }
        if let Some(reason) = error {
            return ContinueStep::Done(failed(reason));
        }
        let code = match code {
            Some(code) => code,
            None => {
                return ContinueStep::Done(failed("code-exchange-failed".to_owned()));
            },
        };
        if !registry.contains(setup.provider.as_str()) {
            return ContinueStep::Done(failed("bad-provider".to_owned()));
        }
        ContinueStep::Exchange(AwaitingTokens { setup, code })
    }

    /// Tells a status request what it may know.
    pub fn status(&self) -> (report: BackendLoginStatus)
        ensures
            report@ == self@.report(),
    {
        match &self.user {
            Some(user) => {
                let roles = user.cached_roles.clone();
                assert(roles.deep_view() =~= user.cached_roles.deep_view());
                BackendLoginStatus::LoggedIn {
                    name: user.identity.display_name.clone(),
                    gravatar_hash: user.identity.gravatar_hash.clone(),
                    roles,
                    role: user.active_role.clone(),
                }
            },
            None => BackendLoginStatus::LoggedOut,
        }
    }

    /// Logs the browser out and drops any pending flow.
    pub fn clear(&mut self)
        ensures
            final(self)@ == LoginFlowStatusView::logged_out(),
    {
        self.flow = None;
        self.user = None;
    }

    /// Makes `role` the role that the user acts as.
    pub fn choose_role(&mut self, role: String)
        ensures
            final(self)@ == old(self)@.with_role(role@),
    {
        match self.user.take() {
            Some(user) => {
                let LoginFlowUserData { identity, cached_roles, active_role: _ } = user;
                self.user = Some(LoginFlowUserData { identity, cached_roles, active_role: role });
            },
            None => {},
        }
    }
}

impl AwaitingTokens {
    /// The name of the provider to exchange the code at.
    pub fn provider(&self) -> (name: &str)
        ensures
            name@ == self@.setup.provider,
    {
        self.setup.provider.as_str()
    }

    /// The code to exchange.
    pub fn code(&self) -> (code: &str)
        ensures
            code@ == self@.code,
    {
        self.code.as_str()
    }

    /// The secret to present with the code.
    pub fn pkce_verifier(&self) -> (secret: &str)
        ensures
            secret@ == self@.setup.pkce_verifier,
    {
        self.setup.pkce_verifier.as_str()
    }

    /// The value that the identity token has to repeat.
    pub fn nonce(&self) -> (nonce: &str)
        ensures
            nonce@ == self@.setup.nonce,
    {
        self.setup.nonce.as_str()
    }

    /// Decides what the outcome of the exchange leads to.
    pub fn exchanged(self, outcome: ExchangeOutcome) -> (step: TokenStep)
        ensures
            step@ == token_step(self@, outcome@),
    {
        match outcome {
            ExchangeOutcome::Failed => TokenStep::Done(failed("code-exchange-failed".to_owned())),
            ExchangeOutcome::NoIdToken => TokenStep::Done(failed("no-id-token".to_owned())),
            ExchangeOutcome::BadIdToken => TokenStep::Done(failed("bad-id-token".to_owned())),
            ExchangeOutcome::Verified { subject, name, email, email_verified } => {
                let mut qualified = self.setup.provider.clone();
                qualified.append(":");
                qualified.append(subject.as_str());
                let shown = match &name {
                    Some(name) => name.as_str(),
                    None => qualified.as_str(),
                };
                let address = match (&email, email_verified) {
                    (Some(email), Some(true)) => Some(email.as_str()),
                    _ => None,
                };
                let identity = Identity::new(qualified.as_str(), shown, address);
                TokenStep::Upsert(AwaitingRoles { identity })
            },
        }
    }
}

impl AwaitingRoles {
    /// The identity to write to the store.
    pub fn identity(&self) -> (identity: &Identity)
        ensures
            identity@ == self@,
    {
        &self.identity
    }

    /// Decides what the store's answer leads to.
    pub fn listed(self, roles: Result<Vec<String>, DatabaseError>) -> (step: RolesStep)
        ensures
            step@ == roles_step(self@, listed_roles(roles)),
    {
        match roles {
            Err(_) => RolesStep::Done(failed("database-error".to_owned())),
            Ok(roles) => {
                let default_role = self.identity.get_default_role();
                if holds(&roles, default_role.as_str()) {
                    RolesStep::Done(succeeded(self.identity, roles))
                } else {
                    RolesStep::Create(AwaitingDefaultRole { identity: self.identity, roles })
                }
            },
        }
    }
}

impl AwaitingDefaultRole {
    /// The identity whose default role is to be created.
    pub fn identity(&self) -> (identity: &Identity)
        ensures
            identity@ == self@.identity,
    {
        &self.identity
    }

    /// Ends the login once the creation of the default role was tried.
    pub fn created(self, outcome: Result<(), DatabaseError>) -> (end: Finished)
        ensures
            end@ == created_step(self@, outcome is Ok),
    {
        match outcome {
            Err(_) => failed("databse-error".to_owned()),
            Ok(_) => {
                let AwaitingDefaultRole { identity, roles } = self;
                let mut roles = roles;
                let ghost before = roles.deep_view();
                let default_role = identity.get_default_role();
                roles.push(default_role);
                assert(roles.deep_view() =~= before.push(default_role_id(identity@.uuid)));
                succeeded(identity, roles)
            },
        }
    }
}

/// A callback whose state is not the one that the pending flow was started
/// with fails with `bad-state` and ends the flow, whether or not it also
/// carries an error or a code.
pub proof fn wrong_state_is_fatal<M>(
    status: LoginFlowStatusView,
    query: LoginContinueQueryView,
    registry: ProviderRegistry<M>,
)
    requires
        status.phase() is FlowPending,
        query.state != Some(status.flow->0.csrf_token),
    ensures
        continue_step(status, query, registry) == ContinueStepView::Done(
            FinishedView::failed("bad-state"@),
        ),
{
}

/// A callback with the right state that carries neither an error nor a code
/// fails and ends the flow: the browser is logged out and told why.
pub proof fn callback_without_code_fails<M>(
    status: LoginFlowStatusView,
    query: LoginContinueQueryView,
    registry: ProviderRegistry<M>,
)
    requires
        status.phase() is FlowPending,
        query.state == Some(status.flow->0.csrf_token),
        query.error is None,
        query.code is None,
    ensures
        continue_step(status, query, registry) == ContinueStepView::Done(
            FinishedView::failed("code-exchange-failed"@),
        ),
{
}

/// A callback to a browser that is logged in changes nothing and reports no
/// error; the provider is not asked.
pub proof fn callback_when_logged_in_is_idle<M>(
    status: LoginFlowStatusView,
    query: LoginContinueQueryView,
    registry: ProviderRegistry<M>,
)
    requires
        status.phase() is LoggedIn,
    ensures
        continue_step(status, query, registry) == ContinueStepView::Done(
            FinishedView { status, error: None, persist: false },
        ),
{
}

/// Starting again at the provider where a flow is pending hands out the
/// address of that flow once more; no second flow is begun.
pub proof fn restart_reuses_flow(status: LoginFlowStatusView, registered: bool)
    requires
        status.phase() is FlowPending,
    ensures
        start_step(status, status.flow->0.provider, registered) == StartStepView::Reply(
            LoginFlowStartView::Redirect(status.flow->0.url),
        ),
{
}

/// A flow is begun only for a browser that is not logged in, so a status
/// never holds a user and a flow at once.
pub proof fn flow_begins_logged_out(
    status: LoginFlowStatusView,
    provider: Seq<char>,
    registered: bool,
)
    requires
        start_step(status, provider, registered) is Authorize,
    ensures
        status.user is None,
        registered,
{
}

/// Whether a callback has ended either logged out with a reason or logged
/// in without one.
pub open spec fn clean_end(end: FinishedView) -> bool {
    &&& end.persist
    &&& end.status.settled()
    &&& end.error is Some <==> end.status.phase() is LoggedOut
    &&& end.error is None <==> end.status.phase() is LoggedIn
}

/// However a pending flow ends, it leaves no half-done state behind: the
/// browser is logged in, or it is logged out and told why, and the new
/// status is written back.
pub proof fn flow_ends_cleanly<M>(
    status: LoginFlowStatusView,
    query: LoginContinueQueryView,
    registry: ProviderRegistry<M>,
    outcome: ExchangeOutcomeView,
    listed: Option<Seq<Seq<char>>>,
    created: bool,
)
    requires
        status.phase() is FlowPending,
    ensures
        match continue_step(status, query, registry) {
            ContinueStepView::Done(end) => clean_end(end),
            ContinueStepView::Exchange(tokens) => match token_step(tokens, outcome) {
                TokenStepView::Done(end) => clean_end(end),
                TokenStepView::Upsert(identity) => match roles_step(identity, listed) {
                    RolesStepView::Done(end) => clean_end(end),
                    RolesStepView::Create(role) => clean_end(created_step(role, created)),
                },
            },
        },
{
}

} // verus!
