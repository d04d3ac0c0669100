//! What a page knows about the login of its user.
//!
//! Until the server has been asked, the status is unknown.  After that the
//! page follows what happens: a login, a logout, the choice of a role.

use vstd::prelude::*;
use crate::api::{BackendLoginStatus, BackendLoginStatusView, LoginFlowResult};

verus! {

/// What a page knows about the login of its user.
#[derive(Debug, PartialEq, Eq)]
pub enum LoginStatus {
    /// The server has not been asked yet.
    Unknown,
    LoggedOut,
    LoggedIn { name: String, gravatar_hash: Option<String>, roles: Vec<String>, role: String },
}

/// A page's login status as plain text.
pub enum LoginStatusView {
    Unknown,
    LoggedOut,
    LoggedIn {
        name: Seq<char>,
        gravatar_hash: Option<Seq<char>>,
        roles: Seq<Seq<char>>,
        role: Seq<char>,
    },
}

impl View for LoginStatus {
    type V = LoginStatusView;

    open spec fn view(&self) -> LoginStatusView {
        match self {
            LoginStatus::Unknown => LoginStatusView::Unknown,
            LoginStatus::LoggedOut => LoginStatusView::LoggedOut,
            LoginStatus::LoggedIn { name, gravatar_hash, roles, role } => LoginStatusView::LoggedIn {
                name: name@,
                gravatar_hash: gravatar_hash.deep_view(),
                roles: roles.deep_view(),
                role: role@,
            },
        }
    }
}

/// Something that changes what a page knows about the login.
#[derive(Debug)]
pub enum LoginStatusAction {
    /// The user is logged out.
    LoggedOut,
    /// The user is logged in, with this name, avatar hash, roles and active
    /// role.
    LoggedIn(String, Option<String>, Vec<String>, String),
    /// The user has picked this role to act as.
    ChosenRole(String),
}

/// An action as plain text.
pub enum LoginStatusActionView {
    LoggedOut,
    LoggedIn(Seq<char>, Option<Seq<char>>, Seq<Seq<char>>, Seq<char>),
    ChosenRole(Seq<char>),
}

impl View for LoginStatusAction {
    type V = LoginStatusActionView;

    open spec fn view(&self) -> LoginStatusActionView {
        match self {
            LoginStatusAction::LoggedOut => LoginStatusActionView::LoggedOut,
            LoginStatusAction::LoggedIn(name, gravatar_hash, roles, role) => {
                LoginStatusActionView::LoggedIn(
                    name@,
                    gravatar_hash.deep_view(),
                    roles.deep_view(),
                    role@,
                )
            },
            LoginStatusAction::ChosenRole(role) => LoginStatusActionView::ChosenRole(role@),
        }
    }
}

impl LoginStatusView {
    /// The status with another active role.  Only a user who is logged in
    /// has one.
    pub open spec fn with_role(self, role: Seq<char>) -> LoginStatusView {
        match self {
            LoginStatusView::LoggedIn { name, gravatar_hash, roles, role: _ } => {
                LoginStatusView::LoggedIn { name, gravatar_hash, roles, role }
            },
            other => other,
        }
    }

    /// The status after an action.
    pub open spec fn after(self, action: LoginStatusActionView) -> LoginStatusView {
        match action {
            LoginStatusActionView::LoggedOut => LoginStatusView::LoggedOut,
            LoginStatusActionView::LoggedIn(name, gravatar_hash, roles, role) => {
                LoginStatusView::LoggedIn { name, gravatar_hash, roles, role }
            },
            LoginStatusActionView::ChosenRole(role) => self.with_role(role),
        }
    }

    /// The roles of the user; nobody else has any.
    pub open spec fn roles(self) -> Seq<Seq<char>> {
        match self {
            LoginStatusView::LoggedIn { roles, .. } => roles,
            _ => Seq::empty(),
        }
    }

    /// The role that the user acts as.
    pub open spec fn current_role(self) -> Option<Seq<char>> {
        match self {
            LoginStatusView::LoggedIn { role, .. } => Some(role),
            _ => None,
        }
    }
}

impl LoginStatus {
    /// The status with another active role.
    pub fn choose_role(&self, role: String) -> (chosen: LoginStatus)
        ensures
            chosen@ == self@.with_role(role@),
    {
        match self {
            LoginStatus::Unknown => LoginStatus::Unknown,
            LoginStatus::LoggedOut => LoginStatus::LoggedOut,
            LoginStatus::LoggedIn { name, gravatar_hash, roles, .. } => {
                let copies = roles.clone();
                assert(copies.deep_view() =~= roles.deep_view());
                LoginStatus::LoggedIn {
                    name: name.clone(),
                    gravatar_hash: gravatar_hash.clone(),
                    roles: copies,
                    role,
                }
            },
        }
    }

    /// Whether the server has not been asked yet.
    pub fn is_unknown(&self) -> (unknown: bool)
        ensures
            unknown == (self@ is Unknown),
    {
        matches!(self, LoginStatus::Unknown)
    }

    /// Whether the user is logged in.
    pub fn is_logged_in(&self) -> (logged_in: bool)
        ensures
            logged_in == (self@ is LoggedIn),
    {
        matches!(self, LoginStatus::LoggedIn { .. })
    }

    /// The ids of the user's roles.
    pub fn roles(&self) -> (roles: &[String])
        ensures
            roles.deep_view() == self@.roles(),
    {
        match self {
            LoginStatus::LoggedIn { roles, .. } => {
                let held = roles.as_slice();
                assert(held.deep_view() =~= roles.deep_view());
                held
            },
            _ => {
                let none: &[String] = &[];
                assert(none.deep_view() =~= Seq::<Seq<char>>::empty());
                none
            },
        }
    }

    /// The id of the role that the user acts as.
    pub fn current_role(&self) -> (role: Option<&str>)
        ensures
            role.deep_view() == self@.current_role(),
    {
        match self {
            LoginStatus::LoggedIn { role, .. } => Some(role.as_str()),
            _ => None,
        }
    }

    /// The status after an action.
    pub fn reduce(&self, action: LoginStatusAction) -> (next: LoginStatus)
        ensures
            next@ == self@.after(action@),
    {
        match action {
            LoginStatusAction::LoggedOut => LoginStatus::LoggedOut,
            LoginStatusAction::LoggedIn(name, gravatar_hash, roles, role) => LoginStatus::LoggedIn {
                name,
                gravatar_hash,
                roles,
                role,
            },
            LoginStatusAction::ChosenRole(role) => self.choose_role(role),
        }
    }
}

/// The action that brings a page up to what the server says about the
/// login.
pub open spec fn action_for(status: BackendLoginStatusView) -> LoginStatusActionView {
    match status {
        BackendLoginStatusView::LoggedOut => LoginStatusActionView::LoggedOut,
        BackendLoginStatusView::LoggedIn { name, gravatar_hash, roles, role } => {
            LoginStatusActionView::LoggedIn(name, gravatar_hash, roles, role)
        },
    }
}

impl LoginStatusAction {
    /// The action that brings a page up to what the server says.
    pub fn from_backend(status: BackendLoginStatus) -> (action: LoginStatusAction)
        ensures
            action@ == action_for(status@),
    {
        match status {
            BackendLoginStatus::LoggedOut => LoginStatusAction::LoggedOut,
            BackendLoginStatus::LoggedIn { name, gravatar_hash, roles, role } => {
                LoginStatusAction::LoggedIn(name, gravatar_hash, roles, role)
            },
        }
    }
}

/// What the provider sent the browser back with.
#[derive(Debug)]
pub struct FlowContinuation {
    pub state: String,
    pub error: Option<String>,
    pub code: Option<String>,
}

/// What the page that completes a login does.
#[derive(Debug, PartialEq, Eq)]
pub enum FlowStep {
    /// Nothing yet: the page does not know the login status.
    Wait,
    /// Ask the server to drop the flow, then go to the front page.
    Clear,
    /// Hand state and code on to the server.
    Continue { state: String, code: String },
}

/// A step of the completing page as plain text.
pub enum FlowStepView {
    Wait,
    Clear,
    Continue { state: Seq<char>, code: Seq<char> },
}

impl View for FlowStep {
    type V = FlowStepView;

    open spec fn view(&self) -> FlowStepView {
        match self {
            FlowStep::Wait => FlowStepView::Wait,
            FlowStep::Clear => FlowStepView::Clear,
            FlowStep::Continue { state, code } => FlowStepView::Continue {
                state: state@,
                code: code@,
            },
        }
    }
}

/// Decides what the page that completes a login does.  It waits until the
/// login status is known.  Without a code, or with an error, the login has
/// failed and the flow is dropped; else state and code go on to the server.
pub fn login_flow(status: &LoginStatus, query: FlowContinuation) -> (step: FlowStep)
    ensures
        step@ == (if status@ is Unknown {
            FlowStepView::Wait
        } else if query.code is None || query.error is Some {
            FlowStepView::Clear
        } else {
            FlowStepView::Continue { state: query.state@, code: query.code->0@ }
        }),
{
    if status.is_unknown() {
        return FlowStep::Wait;
    }
    if query.error.is_some() {
        return FlowStep::Clear;
    }
    match query.code {
        Some(code) => FlowStep::Continue { state: query.state, code },
        None => FlowStep::Clear,
    }
}

/// What the completing page does with the server's answer: a failed login
/// logs the page out; after a login that went through, the page has to ask
/// for the status.
pub fn flow_continued(result: LoginFlowResult) -> (action: Option<LoginStatusAction>)
    ensures
        action is Some <==> result.error is Some,
        action is Some ==> action->0@ == LoginStatusActionView::LoggedOut,
{
    match result.error {
        Some(_) => Some(LoginStatusAction::LoggedOut),
        None => None,
    }
}

/// The kinds of content that the editor of a puzzle state offers.
#[derive(Debug, Copy, Clone, PartialEq, Eq, Structural)]
pub enum EditorKind {
    Nothing,
    FPuzzles,
    URLs,
    Pack,
}

impl EditorKind {
    /// The title under which the editor offers a kind.
    pub open spec fn caption(self) -> Seq<char> {
        match self {
            EditorKind::Nothing => "No data"@,
            EditorKind::FPuzzles => "F-Puzzles data"@,
            EditorKind::URLs => "List of URLs"@,
            EditorKind::Pack => "List of puzzles"@,
        }
    }

    /// Whether a text is the title of a kind.
    pub open spec fn is_caption(title: Seq<char>) -> bool {
        exists|kind: EditorKind| kind.caption() == title
    }

    /// The title of this kind.
    pub fn title(self) -> (title: &'static str)
        ensures
            title@ == self.caption(),
    {
        match self {
            EditorKind::Nothing => "No data",
            EditorKind::FPuzzles => "F-Puzzles data",
            EditorKind::URLs => "List of URLs",
            EditorKind::Pack => "List of puzzles",
        }
    }

    /// The kind that a title names.
    pub fn from_title(title: &str) -> (kind: EditorKind)
        requires
            EditorKind::is_caption(title@),
        ensures
            kind.caption() == title@,
    {
        if crate::text::same(title, "No data") {
            EditorKind::Nothing
        } else if crate::text::same(title, "F-Puzzles data") {
            EditorKind::FPuzzles
        } else if crate::text::same(title, "List of URLs") {
            EditorKind::URLs
        } else {
            let ghost named = choose|kind: EditorKind| kind.caption() == title@;
            assert(named == EditorKind::Pack);
            EditorKind::Pack
        }
    }

    /// The kind that a title names, if it names one.
    pub fn try_from_title(title: &str) -> (kind: Option<EditorKind>)
        ensures
            kind is Some <==> EditorKind::is_caption(title@),
            kind is Some ==> kind->0.caption() == title@,
    {
        if crate::text::same(title, "No data") {
            assert(EditorKind::Nothing.caption() == title@);
            Some(EditorKind::Nothing)
        } else if crate::text::same(title, "F-Puzzles data") {
            assert(EditorKind::FPuzzles.caption() == title@);
            Some(EditorKind::FPuzzles)
        } else if crate::text::same(title, "List of URLs") {
            assert(EditorKind::URLs.caption() == title@);
            Some(EditorKind::URLs)
        } else if crate::text::same(title, "List of puzzles") {
            assert(EditorKind::Pack.caption() == title@);
            Some(EditorKind::Pack)
        } else {
            assert forall|kind: EditorKind| kind.caption() != title@ by {
                match kind {
                    EditorKind::Nothing => {},
                    EditorKind::FPuzzles => {},
                    EditorKind::URLs => {},
                    EditorKind::Pack => {},
                }
            }
            None
        }
    }
}

} // verus!
