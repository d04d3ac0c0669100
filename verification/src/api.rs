//! What travels between the site's pages and its server.

use vstd::prelude::*;
use crate::rating::Rating;
use crate::visibility::Visibility;

verus! {

/// What the server says about the caller's login.
#[derive(Debug, PartialEq, Eq)]
pub enum BackendLoginStatus {
    LoggedOut,
    LoggedIn { name: String, gravatar_hash: Option<String>, roles: Vec<String>, role: String },
}

/// A login status as plain text.
pub enum BackendLoginStatusView {
    LoggedOut,
    LoggedIn {
        name: Seq<char>,
        gravatar_hash: Option<Seq<char>>,
        roles: Seq<Seq<char>>,
        role: Seq<char>,
    },
}

impl View for BackendLoginStatus {
    type V = BackendLoginStatusView;

    open spec fn view(&self) -> BackendLoginStatusView {
        match self {
            BackendLoginStatus::LoggedOut => BackendLoginStatusView::LoggedOut,
            BackendLoginStatus::LoggedIn { name, gravatar_hash, roles, role } => {
                BackendLoginStatusView::LoggedIn {
                    name: name@,
                    gravatar_hash: gravatar_hash.deep_view(),
                    roles: roles.deep_view(),
                    role: role@,
                }
            },
        }
    }
}

/// The answer to a request to start logging in.
#[derive(Debug, PartialEq, Eq)]
pub enum LoginFlowStart {
    /// Nothing to do: the caller is logged in already.
    Idle,
    /// Send the browser to this address.
    Redirect(String),
    /// The flow could not be started.
    Error(String),
}

/// The answer to a start request as plain text.
pub enum LoginFlowStartView {
    Idle,
    Redirect(Seq<char>),
    Error(Seq<char>),
}

impl View for LoginFlowStart {
    type V = LoginFlowStartView;

    open spec fn view(&self) -> LoginFlowStartView {
        match self {
            LoginFlowStart::Idle => LoginFlowStartView::Idle,
            LoginFlowStart::Redirect(url) => LoginFlowStartView::Redirect(url@),
            LoginFlowStart::Error(message) => LoginFlowStartView::Error(message@),
        }
    }
}

/// How a login ended: with no error, or with the reason it failed.
#[derive(Debug, PartialEq, Eq)]
pub struct LoginFlowResult {
    pub error: Option<String>,
}

impl View for LoginFlowResult {
    type V = Option<Seq<char>>;

    open spec fn view(&self) -> Option<Seq<char>> {
        self.error.deep_view()
    }
}

/// A role as the site's pages see it.
#[derive(Debug, PartialEq, Eq)]
pub struct RoleData {
    pub uuid: String,
    pub owner: String,
    pub short_name: String,
    pub display_name: String,
    pub bio: String,
}

impl View for RoleData {
    type V = crate::role::RoleView;

    open spec fn view(&self) -> crate::role::RoleView {
        crate::role::RoleView {
            uuid: self.uuid@,
            owner: self.owner@,
            short_name: self.short_name@,
            display_name: self.display_name@,
            bio: self.bio@,
        }
    }
}

impl Default for RoleData {
    fn default() -> (data: RoleData)
        ensures
            data@ == (crate::role::RoleView {
                uuid: Seq::empty(),
                owner: Seq::empty(),
                short_name: Seq::empty(),
                display_name: Seq::empty(),
                bio: Seq::empty(),
            }),
    {
        RoleData {
            uuid: String::new(),
            owner: String::new(),
            short_name: String::new(),
            display_name: String::new(),
            bio: String::new(),
        }
    }
}

/// A titled link.
#[derive(Debug, PartialEq, Eq)]
pub struct UrlEntry {
    pub title: String,
    pub url: String,
}

/// A titled link as plain text.
pub struct UrlEntryView {
    pub title: Seq<char>,
    pub url: Seq<char>,
}

impl View for UrlEntry {
    type V = UrlEntryView;

    open spec fn view(&self) -> UrlEntryView {
        UrlEntryView { title: self.title@, url: self.url@ }
    }
}

impl Default for UrlEntry {
    fn default() -> (entry: UrlEntry)
        ensures
            entry@ == (UrlEntryView { title: Seq::empty(), url: Seq::empty() }),
    {
        UrlEntry { title: String::new(), url: String::new() }
    }
}

impl Clone for UrlEntry {
    fn clone(&self) -> (copy: UrlEntry)
        ensures
            copy@ == self@,
    {
        UrlEntry { title: self.title.clone(), url: self.url.clone() }
    }
}

/// The views of a list of links.
pub open spec fn entry_views(entries: Seq<UrlEntry>) -> Seq<UrlEntryView> {
    Seq::new(entries.len(), |i: int| entries[i]@)
}

/// What a puzzle state consists of.
#[derive(Debug, PartialEq, Eq)]
pub enum PuzzleData {
    /// Nothing yet.
    Nothing,
    /// Links to where the puzzle can be played.
    URLs(Vec<UrlEntry>),
    /// The puzzles of a pack.
    Pack(Vec<String>),
    /// A grid, as the JSON text of its description.
    FPuzzles(String),
}

/// The content of a puzzle state as plain text.
pub enum PuzzleDataView {
    Nothing,
    URLs(Seq<UrlEntryView>),
    Pack(Seq<Seq<char>>),
    FPuzzles(Seq<char>),
}

impl View for PuzzleData {
    type V = PuzzleDataView;

    open spec fn view(&self) -> PuzzleDataView {
        match self {
            PuzzleData::Nothing => PuzzleDataView::Nothing,
            PuzzleData::URLs(entries) => PuzzleDataView::URLs(entry_views(entries@)),
            PuzzleData::Pack(puzzles) => PuzzleDataView::Pack(puzzles.deep_view()),
            PuzzleData::FPuzzles(grid) => PuzzleDataView::FPuzzles(grid@),
        }
    }
}

impl Default for PuzzleData {
    fn default() -> (data: PuzzleData)
        ensures
            data@ == PuzzleDataView::Nothing,
    {
        PuzzleData::Nothing
    }
}

impl Clone for PuzzleData {
    fn clone(&self) -> (copy: PuzzleData)
        ensures
            copy@ == self@,
    {
        match self {
            PuzzleData::Nothing => PuzzleData::Nothing,
            PuzzleData::URLs(entries) => {
                let mut copies: Vec<UrlEntry> = Vec::new();
                let mut i: usize = 0;
                while i < entries.len()
                    invariant
                        i <= entries@.len(),
                        copies@.len() == i,
                        forall|j: int| 0 <= j < i ==> copies@[j]@ == entries@[j]@,
                    decreases entries@.len() - i,
                {
                    copies.push(entries[i].clone());
                    i += 1;
                }
                assert(entry_views(copies@) =~= entry_views(entries@));
                PuzzleData::URLs(copies)
            },
            PuzzleData::Pack(puzzles) => {
                let copies = puzzles.clone();
                assert(copies.deep_view() =~= puzzles.deep_view());
                PuzzleData::Pack(copies)
            },
            PuzzleData::FPuzzles(grid) => PuzzleData::FPuzzles(grid.clone()),
        }
    }
}

/// One snapshot in the history of a puzzle.
#[derive(Debug, PartialEq, Eq)]
pub struct PuzzleState {
    pub description: String,
    pub setter_rating: Rating,
    pub data: PuzzleData,
    pub visibility: Visibility,
    pub visibility_changed: Option<String>,
}

/// A puzzle state as plain text.
pub struct PuzzleStateView {
    pub description: Seq<char>,
    pub setter_rating: Rating,
    pub data: PuzzleDataView,
    pub visibility: Visibility,
    pub visibility_changed: Option<Seq<char>>,
}

impl View for PuzzleState {
    type V = PuzzleStateView;

    open spec fn view(&self) -> PuzzleStateView {
        PuzzleStateView {
            description: self.description@,
            setter_rating: self.setter_rating,
            data: self.data@,
            visibility: self.visibility,
            visibility_changed: self.visibility_changed.deep_view(),
        }
    }
}

impl Default for PuzzleState {
    fn default() -> (state: PuzzleState)
        ensures
            state@ == (PuzzleStateView {
                description: Seq::empty(),
                setter_rating: Rating::Regular,
                data: PuzzleDataView::Nothing,
                visibility: Visibility::Restricted,
                visibility_changed: None,
            }),
    {
        PuzzleState {
            description: String::new(),
            setter_rating: Rating::Regular,
            data: PuzzleData::Nothing,
            visibility: Visibility::Restricted,
            visibility_changed: None,
        }
    }
}

impl Clone for PuzzleState {
    fn clone(&self) -> (copy: PuzzleState)
        ensures
            copy@ == self@,
    {
        PuzzleState {
            description: self.description.clone(),
            setter_rating: self.setter_rating,
            data: self.data.clone(),
            visibility: self.visibility,
            visibility_changed: self.visibility_changed.clone(),
        }
    }
}

/// The views of a history of states.
pub open spec fn state_views(states: Seq<PuzzleState>) -> Seq<PuzzleStateView> {
    Seq::new(states.len(), |i: int| states[i]@)
}

/// A puzzle as the site's pages see it.
#[derive(Debug, PartialEq, Eq)]
pub struct Puzzle {
    pub uuid: String,
    pub owner: String,
    pub display_name: String,
    pub short_name: String,
    pub visibility: Visibility,
    pub visibility_changed: Option<String>,
    pub states: Vec<PuzzleState>,
}

/// A puzzle as plain text.
pub struct PuzzleView {
    pub uuid: Seq<char>,
    pub owner: Seq<char>,
    pub display_name: Seq<char>,
    pub short_name: Seq<char>,
    pub visibility: Visibility,
    pub visibility_changed: Option<Seq<char>>,
    pub states: Seq<PuzzleStateView>,
}

impl View for Puzzle {
    type V = PuzzleView;

    open spec fn view(&self) -> PuzzleView {
        PuzzleView {
            uuid: self.uuid@,
            owner: self.owner@,
            display_name: self.display_name@,
            short_name: self.short_name@,
            visibility: self.visibility,
            visibility_changed: self.visibility_changed.deep_view(),
            states: state_views(self.states@),
        }
    }
}

impl Default for Puzzle {
    fn default() -> (puzzle: Puzzle)
        ensures
            puzzle@ == (PuzzleView {
                uuid: Seq::empty(),
                owner: Seq::empty(),
                display_name: Seq::empty(),
                short_name: Seq::empty(),
                visibility: Visibility::Restricted,
                visibility_changed: None,
                states: Seq::empty(),
            }),
    {
        let puzzle = Puzzle {
            uuid: String::new(),
            owner: String::new(),
            display_name: String::new(),
            short_name: String::new(),
            visibility: Visibility::Restricted,
            visibility_changed: None,
            states: Vec::new(),
        };
        assert(state_views(puzzle.states@) =~= Seq::empty());
        puzzle
    }
}

/// The answer to a request to create a puzzle.
#[derive(Debug, PartialEq, Eq)]
pub enum CreatePuzzleResponse {
    /// The puzzle was created; this is its id.
    Success(String),
    /// The caller is not logged in.
    NotLoggedIn,
    /// The request named an id, which only the server may choose.
    FailedUUIDSupplied,
    /// The caller does not hold the role named as owner.
    InvalidOwnerRole,
    /// The request did not carry exactly one state.
    InvalidStateVector,
    /// The puzzle or its state was not restricted.
    InvalidVisiblityData,
    /// The store failed; this is what it said.
    DatabaseFailure(String),
}

/// The answer to a create request as plain text.
pub enum CreatePuzzleResponseView {
    Success(Seq<char>),
    NotLoggedIn,
    FailedUUIDSupplied,
    InvalidOwnerRole,
    InvalidStateVector,
    InvalidVisiblityData,
    DatabaseFailure(Seq<char>),
}

impl View for CreatePuzzleResponse {
    type V = CreatePuzzleResponseView;

    open spec fn view(&self) -> CreatePuzzleResponseView {
        match self {
            CreatePuzzleResponse::Success(id) => CreatePuzzleResponseView::Success(id@),
            CreatePuzzleResponse::NotLoggedIn => CreatePuzzleResponseView::NotLoggedIn,
            CreatePuzzleResponse::FailedUUIDSupplied => CreatePuzzleResponseView::FailedUUIDSupplied,
            CreatePuzzleResponse::InvalidOwnerRole => CreatePuzzleResponseView::InvalidOwnerRole,
            CreatePuzzleResponse::InvalidStateVector => CreatePuzzleResponseView::InvalidStateVector,
            CreatePuzzleResponse::InvalidVisiblityData => {
                CreatePuzzleResponseView::InvalidVisiblityData
            },
            CreatePuzzleResponse::DatabaseFailure(message) => {
                CreatePuzzleResponseView::DatabaseFailure(message@)
            },
        }
    }
}

impl CreatePuzzleResponseView {
    /// The sentence that tells a reader what the answer means.
    pub open spec fn message(self) -> Seq<char> {
        match self {
            CreatePuzzleResponseView::Success(id) => "Ok("@ + id + ")"@,
            CreatePuzzleResponseView::NotLoggedIn => "Not logged in"@,
            CreatePuzzleResponseView::FailedUUIDSupplied => "Unexpected UUID in input"@,
            CreatePuzzleResponseView::InvalidOwnerRole => "Invalid owner role in input"@,
            CreatePuzzleResponseView::InvalidStateVector => "Invalid state vector"@,
            CreatePuzzleResponseView::InvalidVisiblityData => "Invalid visibility data"@,
            CreatePuzzleResponseView::DatabaseFailure(message) => message,
        }
    }
}

impl CreatePuzzleResponse {
    /// The sentence that tells a reader what the answer means.
    pub fn message(&self) -> (text: String)
        ensures
            text@ == self@.message(),
    {
        match self {
            CreatePuzzleResponse::Success(id) => {
                let mut text = "Ok(".to_owned();
                text.append(id.as_str());
                text.append(")");
                text
            },
            CreatePuzzleResponse::NotLoggedIn => "Not logged in".to_owned(),
            CreatePuzzleResponse::FailedUUIDSupplied => "Unexpected UUID in input".to_owned(),
            CreatePuzzleResponse::InvalidOwnerRole => "Invalid owner role in input".to_owned(),
            CreatePuzzleResponse::InvalidStateVector => "Invalid state vector".to_owned(),
            CreatePuzzleResponse::InvalidVisiblityData => "Invalid visibility data".to_owned(),
            CreatePuzzleResponse::DatabaseFailure(message) => message.clone(),
        }
    }
}

} // verus!
