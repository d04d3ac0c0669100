use linkdoku::api::{BackendLoginStatus, LoginFlowStart};
use linkdoku::identity::Identity;
use linkdoku::login::{
    AuthorizationRequest, ContinueStep, ExchangeOutcome, Finished, LoginContinueQuery,
    LoginFlowSetup, LoginFlowStatus, LoginFlowUserData, RolesStep, StartStep, TokenStep,
};
use linkdoku::providers::{OpenIDProvider, ProviderRegistry};
use linkdoku::store::DatabaseError;

fn provider() -> OpenIDProvider {
    OpenIDProvider {
        client_id: "client".to_string(),
        client_secret: "hush".to_string(),
        discovery_doc: "https://accounts.example.com".to_string(),
        scopes: vec!["email".to_string(), "profile".to_string()],
    }
}

fn registry() -> ProviderRegistry<u8> {
    let mut registry = ProviderRegistry::new();
    assert!(registry.register("Google", &provider(), Some(7)));
    registry
}

fn pending(provider: &str) -> LoginFlowStatus {
    LoginFlowStatus {
        flow: Some(LoginFlowSetup {
            provider: provider.to_string(),
            pkce_verifier: "verifier".to_string(),
            url: "https://accounts.example.com/auth?state=token".to_string(),
            csrf_token: "token".to_string(),
            nonce: "nonce".to_string(),
        }),
        user: None,
    }
}

fn logged_in() -> LoginFlowStatus {
    let identity = Identity::new("google:12345", "Bob", Some("bob@example.com"));
    let role = identity.get_default_role();
    LoginFlowStatus {
        flow: None,
        user: Some(LoginFlowUserData {
            identity,
            cached_roles: vec![role.clone(), "other".to_string()],
            active_role: role,
        }),
    }
}

fn query(state: Option<&str>, code: Option<&str>, error: Option<&str>) -> LoginContinueQuery {
    LoginContinueQuery {
        state: state.map(String::from),
        code: code.map(String::from),
        error: error.map(String::from),
    }
}

fn done(step: ContinueStep) -> Finished {
    match step {
        ContinueStep::Done(end) => end,
        ContinueStep::Exchange(_) => panic!("the provider must not be asked"),
    }
}

fn assert_logged_out(status: &LoginFlowStatus) {
    assert!(status.flow.is_none());
    assert!(status.user.is_none());
}

#[test]
fn start_when_logged_in_is_idle() {
    let status = logged_in();
    match status.start_auth("google", &registry()) {
        StartStep::Reply(reply) => assert_eq!(reply, LoginFlowStart::Idle),
        StartStep::Authorize => panic!("a user who is logged in starts no flow"),
    }
    match status.start_auth("nobody", &registry()) {
        StartStep::Reply(reply) => assert_eq!(reply, LoginFlowStart::Idle),
        StartStep::Authorize => panic!("a user who is logged in starts no flow"),
    }
}

#[test]
fn start_with_unknown_provider_is_an_error() {
    let status = LoginFlowStatus::default();
    match status.start_auth("nobody", &registry()) {
        StartStep::Reply(reply) => assert_eq!(
            reply,
            LoginFlowStart::Error("Provider: nobody not known".to_string())
        ),
        StartStep::Authorize => panic!("an unknown provider starts no flow"),
    }
    assert_logged_out(&status);
}

#[test]
fn start_with_registered_provider_asks_for_authorization() {
    let status = LoginFlowStatus::default();
    assert!(matches!(
        status.start_auth("google", &registry()),
        StartStep::Authorize
    ));
}

#[test]
fn second_start_returns_the_same_redirect() {
    let mut status = LoginFlowStatus::default();
    let first = status.begin_flow(
        "google",
        AuthorizationRequest {
            url: "https://accounts.example.com/auth?state=s1".to_string(),
            csrf_token: "s1".to_string(),
            nonce: "n1".to_string(),
            pkce_verifier: "v1".to_string(),
        },
    );
    assert_eq!(
        first,
        LoginFlowStart::Redirect("https://accounts.example.com/auth?state=s1".to_string())
    );
    for _ in 0..2 {
        match status.start_auth("google", &registry()) {
            StartStep::Reply(reply) => assert_eq!(reply, first),
            StartStep::Authorize => panic!("a pending flow is taken up again"),
        }
    }
    let flow = status.flow.as_ref().expect("the flow is still pending");
    assert_eq!(flow.csrf_token, "s1");
    assert_eq!(flow.pkce_verifier, "v1");
}

#[test]
fn start_at_another_provider_replaces_the_flow() {
    let mut registry = registry();
    assert!(registry.register("github", &provider(), Some(8)));
    let mut status = pending("google");
    assert!(matches!(
        status.start_auth("github", &registry),
        StartStep::Authorize
    ));
    let reply = status.begin_flow(
        "github",
        AuthorizationRequest {
            url: "https://github.example.com/auth".to_string(),
            csrf_token: "s2".to_string(),
            nonce: "n2".to_string(),
            pkce_verifier: "v2".to_string(),
        },
    );
    assert_eq!(
        reply,
        LoginFlowStart::Redirect("https://github.example.com/auth".to_string())
    );
    let flow = status.flow.as_ref().expect("a flow is pending");
    assert_eq!(flow.provider, "github");
    assert_eq!(flow.url, "https://github.example.com/auth");
    assert_eq!(flow.csrf_token, "s2");
    assert_eq!(flow.nonce, "n2");
    assert_eq!(flow.pkce_verifier, "v2");
    assert!(status.user.is_none());
}

fn state_pairs(address: &str) -> Vec<String> {
    openidconnect::url::Url::parse(address)
        .unwrap()
        .query_pairs()
        .filter(|(key, _)| key == "state")
        .map(|(_, value)| value.to_string())
        .collect()
}

#[test]
fn redirect_carries_the_stored_state() {
    let registry = registry();
    let mut status = LoginFlowStatus::default();
    assert!(matches!(
        status.start_auth("google", &registry),
        StartStep::Authorize
    ));
    let setup = registry.get("google").expect("the provider is registered");
    let reply = status.authorize(
        "google",
        setup,
        "https://accounts.example.com",
        "https://accounts.example.com/auth",
        "https://puzzles.example.com/-/",
    );
    let redirect = match reply {
        LoginFlowStart::Redirect(redirect) => redirect,
        other => panic!("expected a redirect, got {:?}", other),
    };
    let stored = status.flow.as_ref().expect("a flow is pending");
    assert_eq!(state_pairs(&redirect), vec![stored.csrf_token.clone()]);
    assert_eq!(stored.provider, "google");
    assert_eq!(stored.url, redirect);
    assert!(redirect.starts_with("https://accounts.example.com/auth?"));
    assert!(!stored.csrf_token.is_empty());
    assert!(!stored.nonce.is_empty());
    assert!(!stored.pkce_verifier.is_empty());
    assert!(status.user.is_none());
    let pairs: Vec<(String, String)> = openidconnect::url::Url::parse(&redirect)
        .unwrap()
        .query_pairs()
        .map(|(key, value)| (key.to_string(), value.to_string()))
        .collect();
    let value = |key: &str| {
        pairs
            .iter()
            .find(|(k, _)| k == key)
            .map(|(_, v)| v.clone())
    };
    assert_eq!(value("response_type").as_deref(), Some("code"));
    assert_eq!(value("client_id").as_deref(), Some("client"));
    assert_eq!(
        value("redirect_uri").as_deref(),
        Some("https://puzzles.example.com/-/")
    );
    assert_eq!(value("scope").as_deref(), Some("openid email profile"));
    assert_eq!(value("nonce"), Some(stored.nonce.clone()));
    assert_eq!(value("code_challenge_method").as_deref(), Some("S256"));
    let challenge = openidconnect::PkceCodeChallenge::from_code_verifier_sha256(
        &openidconnect::PkceCodeVerifier::new(stored.pkce_verifier.clone()),
    );
    assert_eq!(value("code_challenge").as_deref(), Some(challenge.as_str()));
    assert_eq!(stored.pkce_verifier.len(), 43);
    assert!(stored.pkce_verifier.is_ascii());
    let address = openidconnect::url::Url::parse(&redirect).unwrap();
    assert_eq!(address.host_str(), Some("accounts.example.com"));
    assert_eq!(address.path(), "/auth");
}

#[test]
fn request_without_scopes_asks_for_openid_alone() {
    let mut registry: ProviderRegistry<u8> = ProviderRegistry::new();
    let mut bare = provider();
    bare.scopes.clear();
    assert!(registry.register("google", &bare, Some(7)));
    let setup = registry.get("google").expect("the provider is registered");
    let mut status = LoginFlowStatus::default();
    status.authorize(
        "google",
        setup,
        "https://accounts.example.com",
        "https://accounts.example.com/o/auth?tenant=x",
        "https://puzzles.example.com/-/",
    );
    let stored = status.flow.expect("a flow is pending");
    let address = openidconnect::url::Url::parse(&stored.url).unwrap();
    let pairs: Vec<(String, String)> = address
        .query_pairs()
        .map(|(key, value)| (key.to_string(), value.to_string()))
        .collect();
    assert_eq!(pairs[0], ("tenant".to_string(), "x".to_string()));
    assert!(pairs.contains(&("scope".to_string(), "openid".to_string())));
    assert_eq!(address.path(), "/o/auth");
}

#[test]
fn state_is_carried_beside_a_query_of_the_endpoint() {
    let registry = registry();
    let mut status = LoginFlowStatus::default();
    let setup = registry.get("google").expect("the provider is registered");
    let reply = status.authorize(
        "google",
        setup,
        "https://accounts.example.com",
        "https://accounts.example.com/auth?state=theirs&tenant=x",
        "https://puzzles.example.com/-/",
    );
    let redirect = match reply {
        LoginFlowStart::Redirect(redirect) => redirect,
        other => panic!("expected a redirect, got {:?}", other),
    };
    let stored = status.flow.as_ref().expect("a flow is pending");
    assert_eq!(
        state_pairs(&redirect),
        vec!["theirs".to_string(), stored.csrf_token.clone()]
    );
}

#[test]
fn each_flow_gets_secrets_of_its_own() {
    let registry = registry();
    let setup = registry.get("google").expect("the provider is registered");
    let mut first = LoginFlowStatus::default();
    let mut second = LoginFlowStatus::default();
    for status in [&mut first, &mut second] {
        status.authorize(
            "google",
            setup,
            "https://accounts.example.com",
            "https://accounts.example.com/auth",
            "https://puzzles.example.com/-/",
        );
    }
    let (first, second) = (first.flow.unwrap(), second.flow.unwrap());
    assert_ne!(first.csrf_token, second.csrf_token);
    assert_ne!(first.nonce, second.nonce);
    assert_ne!(first.pkce_verifier, second.pkce_verifier);
}

#[test]
fn flow_is_not_begun_without_addresses() {
    let registry = registry();
    let setup = registry.get("google").expect("the provider is registered");
    let good = "https://accounts.example.com/auth";
    for (issuer, endpoint, redirect) in [
        ("not an address", good, good),
        (good, "", good),
        (good, good, "/-/"),
    ] {
        let mut status = pending("other");
        let reply = status.authorize("google", setup, issuer, endpoint, redirect);
        assert_eq!(reply, LoginFlowStart::Error("bad-provider".to_string()));
        let flow = status.flow.as_ref().expect("the pending flow stays");
        assert_eq!(flow.provider, "other");
        assert_eq!(flow.csrf_token, "token");
        assert!(status.user.is_none());
    }
}

#[test]
fn continue_when_logged_in_is_a_no_op() {
    let end = done(logged_in().continue_login(
        query(Some("whatever"), Some("code"), Some("denied")),
        &registry(),
    ));
    assert_eq!(end.result.error, None);
    assert!(!end.persist);
    let user = end.status.user.expect("the user stays logged in");
    assert_eq!(user.identity.display_name(), "Bob");
    assert_eq!(user.cached_roles.len(), 2);
    assert!(end.status.flow.is_none());
}

#[test]
fn stray_callback_changes_nothing() {
    let end = done(
        LoginFlowStatus::default().continue_login(query(Some("x"), Some("code"), None), &registry()),
    );
    assert_eq!(end.result.error, None);
    assert!(!end.persist);
    assert_logged_out(&end.status);
}

#[test]
fn wrong_state_fails_even_with_an_error_present() {
    let end = done(pending("google").continue_login(
        query(Some("forged"), Some("code"), Some("access_denied")),
        &registry(),
    ));
    assert_eq!(end.result.error, Some("bad-state".to_string()));
    assert!(end.persist);
    assert_logged_out(&end.status);
}

#[test]
fn missing_state_is_a_wrong_state() {
    let end = done(pending("google").continue_login(query(None, Some("code"), None), &registry()));
    assert_eq!(end.result.error, Some("bad-state".to_string()));
    assert_logged_out(&end.status);
    let end = done(pending("nobody").continue_login(query(None, None, None), &registry()));
    assert_eq!(end.result.error, Some("bad-state".to_string()));
}

#[test]
fn provider_error_is_passed_on() {
    let end = done(pending("google").continue_login(
        query(Some("token"), None, Some("access_denied")),
        &registry(),
    ));
    assert_eq!(end.result.error, Some("access_denied".to_string()));
    assert!(end.persist);
    assert_logged_out(&end.status);
}

#[test]
fn flow_at_a_provider_that_is_gone_fails() {
    let end = done(
        pending("nobody").continue_login(query(Some("token"), Some("code"), None), &registry()),
    );
    assert_eq!(end.result.error, Some("bad-provider".to_string()));
    assert!(end.persist);
    assert_logged_out(&end.status);
}

fn exchange() -> linkdoku::login::AwaitingTokens {
    match pending("google").continue_login(query(Some("token"), Some("the-code"), None), &registry())
    {
        ContinueStep::Exchange(waiting) => waiting,
        ContinueStep::Done(end) => panic!("expected an exchange, got {:?}", end),
    }
}

#[test]
fn callback_without_a_code_fails() {
    let end = done(pending("google").continue_login(query(Some("token"), None, None), &registry()));
    assert_eq!(end.result.error, Some("code-exchange-failed".to_string()));
    assert!(end.persist);
    assert_logged_out(&end.status);
    let end = done(pending("nobody").continue_login(query(Some("token"), None, None), &registry()));
    assert_eq!(end.result.error, Some("code-exchange-failed".to_string()));
    assert_logged_out(&end.status);
}

#[test]
fn good_callback_asks_for_the_exchange() {
    let waiting = exchange();
    assert_eq!(waiting.provider(), "google");
    assert_eq!(waiting.code(), "the-code");
    assert_eq!(waiting.pkce_verifier(), "verifier");
    assert_eq!(waiting.nonce(), "nonce");
}

#[test]
fn failed_exchange_ends_the_flow() {
    for (outcome, reason) in [
        (ExchangeOutcome::Failed, "code-exchange-failed"),
        (ExchangeOutcome::NoIdToken, "no-id-token"),
        (ExchangeOutcome::BadIdToken, "bad-id-token"),
    ] {
        match exchange().exchanged(outcome) {
            TokenStep::Done(end) => {
                assert_eq!(end.result.error, Some(reason.to_string()));
                assert!(end.persist);
                assert_logged_out(&end.status);
            }
            TokenStep::Upsert(_) => panic!("a failed exchange writes nothing"),
        }
    }
}

fn claimed(
    name: Option<&str>,
    email: Option<&str>,
    email_verified: Option<bool>,
) -> linkdoku::login::AwaitingRoles {
    let outcome = ExchangeOutcome::Verified {
        subject: "12345".to_string(),
        name: name.map(String::from),
        email: email.map(String::from),
        email_verified,
    };
    match exchange().exchanged(outcome) {
        TokenStep::Upsert(waiting) => waiting,
        TokenStep::Done(end) => panic!("expected an identity, got {:?}", end),
    }
}

fn verified(name: Option<&str>, email: Option<&str>) -> linkdoku::login::AwaitingRoles {
    claimed(name, email, Some(true))
}

#[test]
fn address_that_is_not_verified_does_not_count() {
    for said in [None, Some(false)] {
        let waiting = claimed(Some("Bob"), Some("x@example.com"), said);
        assert_eq!(waiting.identity().display_name(), "Bob");
        assert_eq!(waiting.identity().gravatar_hash(), None);
    }
    let waiting = claimed(Some("Bob"), None, Some(true));
    assert_eq!(waiting.identity().gravatar_hash(), None);
}

#[test]
fn verified_claims_become_an_identity() {
    let waiting = verified(Some("Bob"), Some("x@example.com"));
    assert_eq!(waiting.identity().uuid(), "0317d50d87adbcf4ac8e8594ab0fc625");
    assert_eq!(waiting.identity().display_name(), "Bob");
    assert_eq!(
        waiting.identity().gravatar_hash(),
        Some("6d1db9ff40d653b409cda4c3ec45e5d7")
    );
}

#[test]
fn account_without_a_name_is_shown_by_its_subject() {
    let waiting = verified(None, None);
    assert_eq!(waiting.identity().uuid(), "0317d50d87adbcf4ac8e8594ab0fc625");
    assert_eq!(waiting.identity().display_name(), "google:12345");
    assert_eq!(waiting.identity().gravatar_hash(), None);
}

#[test]
fn store_failure_on_upsert_ends_the_flow() {
    let step = verified(Some("Bob"), None).listed(Err(DatabaseError::Redis("down".to_string())));
    match step {
        RolesStep::Done(end) => {
            assert_eq!(end.result.error, Some("database-error".to_string()));
            assert!(end.persist);
            assert_logged_out(&end.status);
        }
        RolesStep::Create(_) => panic!("nothing is created after a failure"),
    }
}

#[test]
fn identity_with_its_default_role_is_logged_in() {
    let default_role = "8d191a67f64d45575866d6cf581da731".to_string();
    let step = verified(Some("Bob"), None).listed(Ok(vec!["other".to_string(), default_role.clone()]));
    match step {
        RolesStep::Done(end) => {
            assert_eq!(end.result.error, None);
            assert!(end.persist);
            assert!(end.status.flow.is_none());
            let user = end.status.user.expect("the user is logged in");
            assert_eq!(user.identity.display_name(), "Bob");
            assert_eq!(user.cached_roles, vec!["other".to_string(), default_role.clone()]);
            assert_eq!(user.active_role, default_role);
        }
        RolesStep::Create(_) => panic!("the default role exists already"),
    }
}

#[test]
fn identity_without_its_default_role_gets_one() {
    let default_role = "8d191a67f64d45575866d6cf581da731".to_string();
    let waiting = match verified(Some("Bob"), None).listed(Ok(vec!["other".to_string()])) {
        RolesStep::Create(waiting) => waiting,
        RolesStep::Done(end) => panic!("expected a creation, got {:?}", end),
    };
    assert_eq!(waiting.identity().display_name(), "Bob");
    let end = waiting.created(Ok(()));
    assert_eq!(end.result.error, None);
    assert!(end.persist);
    assert!(end.status.flow.is_none());
    let user = end.status.user.expect("the user is logged in");
    assert_eq!(user.cached_roles, vec!["other".to_string(), default_role.clone()]);
    assert_eq!(user.active_role, default_role);
    assert!(user.has_role(&default_role));
    assert!(user.has_role("other"));
    assert!(!user.has_role("another"));
}

#[test]
fn store_failure_on_creation_ends_the_flow() {
    let waiting = match verified(Some("Bob"), None).listed(Ok(Vec::new())) {
        RolesStep::Create(waiting) => waiting,
        RolesStep::Done(end) => panic!("expected a creation, got {:?}", end),
    };
    let end = waiting.created(Err(DatabaseError::Redis("down".to_string())));
    assert_eq!(end.result.error, Some("databse-error".to_string()));
    assert!(end.persist);
    assert_logged_out(&end.status);
}

#[test]
fn status_shows_a_completed_login_only() {
    assert_eq!(LoginFlowStatus::default().status(), BackendLoginStatus::LoggedOut);
    assert_eq!(pending("google").status(), BackendLoginStatus::LoggedOut);
    let default_role = "8d191a67f64d45575866d6cf581da731".to_string();
    assert_eq!(
        logged_in().status(),
        BackendLoginStatus::LoggedIn {
            name: "Bob".to_string(),
            gravatar_hash: Some(linkdoku::digest::fingerprint_of("bob@example.com")),
            roles: vec![default_role.clone(), "other".to_string()],
            role: default_role,
        }
    );
}

#[test]
fn clear_logs_out_from_any_phase() {
    for mut status in [LoginFlowStatus::default(), pending("google"), logged_in()] {
        status.clear();
        assert_logged_out(&status);
    }
}

#[test]
fn chosen_role_becomes_the_active_one() {
    let mut status = logged_in();
    status.choose_role("other".to_string());
    let user = status.user().expect("still logged in");
    assert_eq!(user.active_role, "other");
    assert_eq!(user.cached_roles.len(), 2);
    assert_eq!(user.identity.display_name(), "Bob");
    status.choose_role("not-held".to_string());
    assert_eq!(status.user().unwrap().active_role, "not-held");
    let mut out = pending("google");
    out.choose_role("other".to_string());
    assert!(out.user().is_none());
    assert!(out.flow.is_some());
}

#[test]
fn registry_looks_names_up_in_lower_case() {
    let mut registry: ProviderRegistry<u8> = ProviderRegistry::new();
    assert_eq!(registry.len(), 0);
    assert!(!registry.contains("google"));
    assert!(registry.register("GooGle", &provider(), Some(1)));
    assert_eq!(registry.len(), 1);
    assert!(registry.contains("google"));
    assert!(registry.contains("GOOGLE"));
    assert!(!registry.contains("googl"));
    let setup = registry.get("Google").expect("registered");
    assert_eq!(setup.client_id, "client");
    assert_eq!(setup.client_secret, "hush");
    assert_eq!(setup.provider_metadata, 1);
    assert_eq!(setup.scopes, vec!["email".to_string(), "profile".to_string()]);
}

#[test]
fn provider_without_metadata_is_left_out() {
    let mut registry: ProviderRegistry<u8> = ProviderRegistry::new();
    assert!(!registry.register("google", &provider(), None));
    assert_eq!(registry.len(), 0);
    assert!(registry.get("google").is_none());
}

#[test]
fn later_registration_replaces_the_earlier() {
    let mut registry: ProviderRegistry<u8> = ProviderRegistry::new();
    assert!(registry.register("google", &provider(), Some(1)));
    assert!(registry.register("other", &provider(), Some(2)));
    assert!(registry.register("GOOGLE", &provider(), Some(3)));
    assert_eq!(registry.len(), 2);
    assert_eq!(registry.get("google").unwrap().provider_metadata, 3);
    assert_eq!(registry.get("other").unwrap().provider_metadata, 2);
}
