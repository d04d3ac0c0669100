//! What the site answers to requests about puzzles and roles.
//!
//! Each function decides on plain values: the caller's login status, the
//! request, and what the store answered.

use vstd::prelude::*;
use crate::api::{
    CreatePuzzleResponse, CreatePuzzleResponseView, PuzzleView, RoleData,
};
use crate::login::{LoginFlowStatus, LoginFlowStatusView};
use crate::puzzle::{shown_states, Puzzle};
use crate::role::Role;
use crate::store::DatabaseResult;
use crate::visibility::Visibility;

verus! {

/// Whether the user of a status holds a role.
pub open spec fn acts_as(status: LoginFlowStatusView, role: Seq<char>) -> bool {
    status.user is Some && status.user->0.cached_roles.contains(role)
}

/// Whether a new puzzle and its first state are both restricted and carry no
/// date of a change in visibility.
pub open spec fn starts_restricted(puzzle: PuzzleView) -> bool
    recommends
        puzzle.states.len() == 1,
{
    &&& puzzle.visibility == Visibility::Restricted
    &&& puzzle.visibility_changed is None
    &&& puzzle.states[0].visibility == Visibility::Restricted
    &&& puzzle.states[0].visibility_changed is None
}

/// Why a request to create a puzzle is turned down, if it is.  The checks
/// run in this order, and the first that fails decides: the caller is logged
/// in; the request names no id; the caller holds the role named as owner;
/// there is exactly one state; puzzle and state start out restricted.
pub open spec fn create_refusal(
    status: LoginFlowStatusView,
    puzzle: PuzzleView,
) -> Option<CreatePuzzleResponseView> {
    if status.user is None {
        Some(CreatePuzzleResponseView::NotLoggedIn)
    } else if puzzle.uuid.len() != 0 {
        Some(CreatePuzzleResponseView::FailedUUIDSupplied)
    } else if !acts_as(status, puzzle.owner) {
        Some(CreatePuzzleResponseView::InvalidOwnerRole)
    } else if puzzle.states.len() != 1 {
        Some(CreatePuzzleResponseView::InvalidStateVector)
    } else if !starts_restricted(puzzle) {
        Some(CreatePuzzleResponseView::InvalidVisiblityData)
    } else {
        None
    }
}

/// What to do about a request to create a puzzle.
#[derive(Debug)]
pub enum CreateStep {
    /// Turn the request down with this answer; the store is not touched.
    Refuse(CreatePuzzleResponse),
    /// Create this puzzle in the store.
    Create(Puzzle),
}

/// Decides whether a request to create a puzzle goes ahead.
pub fn create_puzzle(status: &LoginFlowStatus, puzzle: crate::api::Puzzle) -> (step: CreateStep)
    ensures
        match create_refusal(status@, puzzle@) {
            Some(answer) => step is Refuse && step->Refuse_0@ == answer,
            None => step is Create && step->Create_0@ == puzzle@,
        },
{
    let user = match status.user() {
        Some(user) => user,
        None => {
            return CreateStep::Refuse(CreatePuzzleResponse::NotLoggedIn);
        },
    };
    if !puzzle.uuid.as_str().is_empty() {
        return CreateStep::Refuse(CreatePuzzleResponse::FailedUUIDSupplied);
    }
    if !user.has_role(puzzle.owner.as_str()) {
        return CreateStep::Refuse(CreatePuzzleResponse::InvalidOwnerRole);
    }
    if puzzle.states.len() != 1 {
        return CreateStep::Refuse(CreatePuzzleResponse::InvalidStateVector);
    }
    if puzzle.visibility != Visibility::Restricted || puzzle.visibility_changed.is_some()
        || puzzle.states[0].visibility != Visibility::Restricted
        || puzzle.states[0].visibility_changed.is_some() {
        return CreateStep::Refuse(CreatePuzzleResponse::InvalidVisiblityData);
    }
    proof {
        crate::puzzle::from_keeps_content(puzzle);
    }
    CreateStep::Create(Puzzle::from(puzzle))
}

/// The answer once the store was asked to create a puzzle.
pub open spec fn created_answer(outcome: DatabaseResult<String>) -> CreatePuzzleResponseView {
    match outcome {
        Ok(id) => CreatePuzzleResponseView::Success(id@),
        Err(error) => CreatePuzzleResponseView::DatabaseFailure(error@.message()),
    }
}

/// Answers a request to create a puzzle once the store was asked.
pub fn puzzle_created(outcome: DatabaseResult<String>) -> (answer: CreatePuzzleResponse)
    ensures
        answer@ == created_answer(outcome),
{
    match outcome {
        Ok(id) => CreatePuzzleResponse::Success(id),
        Err(error) => CreatePuzzleResponse::DatabaseFailure(error.message()),
    }
}

/// What a caller is shown of a puzzle.  A restricted puzzle is shown to
/// those who act as its owner and to nobody else; of any puzzle, the
/// restricted states are shown to the owner only.
pub open spec fn puzzle_shown(status: LoginFlowStatusView, puzzle: PuzzleView) -> Option<
    PuzzleView,
> {
    let is_owner = acts_as(status, puzzle.owner);
    if puzzle.visibility.shown_to(is_owner) {
        Some(PuzzleView { states: shown_states(puzzle.states, is_owner), ..puzzle })
    } else {
        None
    }
}

/// Answers a request for a puzzle once the store was asked for it.  A
/// puzzle that the store does not have, or could not give, is not shown.
pub fn retrieve_puzzle(status: &LoginFlowStatus, found: DatabaseResult<Puzzle>) -> (shown: Option<
    crate::api::Puzzle,
>)
    ensures
        match found {
            Ok(puzzle) => match puzzle_shown(status@, puzzle@) {
                Some(view) => shown is Some && shown->0@ == view,
                None => shown is None,
            },
            Err(_) => shown is None,
        },
{
    let puzzle = match found {
        Ok(puzzle) => puzzle,
        Err(_) => {
            return None;
        },
    };
    let is_owner = match status.user() {
        Some(user) => user.has_role(puzzle.owner()),
        None => false,
    };
    if !puzzle.visibility().visible_to(is_owner) {
        return None;
    }
    Some(puzzle.as_api_puzzle(is_owner))
}

/// Answers a request for a role once the store was asked for it.  A role
/// that the store does not have, or could not give, is not shown.
pub fn role_by_uuid_or_short_name(found: DatabaseResult<Role>) -> (shown: Option<RoleData>)
    ensures
        match found {
            Ok(role) => shown is Some && shown->0@ == role@,
            Err(_) => shown is None,
        },
{
    match found {
        Ok(role) => Some(
            RoleData {
                uuid: role.uuid,
                owner: role.owner,
                short_name: role.short_name,
                display_name: role.display_name,
                bio: role.bio,
            },
        ),
        Err(_) => None,
    }
}

/// A request whose puzzle is not restricted is turned down for its
/// visibility, provided that it gets that far, and so never reaches the store.
pub proof fn open_puzzle_is_refused(status: LoginFlowStatusView, puzzle: PuzzleView)
    requires
        status.user is Some,
        puzzle.uuid.len() == 0,
        acts_as(status, puzzle.owner),
        puzzle.states.len() == 1,
        puzzle.visibility != Visibility::Restricted,
    ensures
        create_refusal(status, puzzle) == Some(CreatePuzzleResponseView::InvalidVisiblityData),
{
}

/// A request with no state, or with more than one, is turned down for its
/// states, provided that it gets that far.
pub proof fn wrong_state_count_is_refused(status: LoginFlowStatusView, puzzle: PuzzleView)
    requires
        status.user is Some,
        puzzle.uuid.len() == 0,
        acts_as(status, puzzle.owner),
        puzzle.states.len() != 1,
    ensures
        create_refusal(status, puzzle) == Some(CreatePuzzleResponseView::InvalidStateVector),
{
}

/// Whatever is created in the store was asked for by someone who is logged
/// in and holds the owning role, names no id, and starts with one
/// restricted state.
pub proof fn created_puzzles_are_sound(status: LoginFlowStatusView, puzzle: PuzzleView)
    requires
        create_refusal(status, puzzle) is None,
    ensures
        acts_as(status, puzzle.owner),
        puzzle.uuid.len() == 0,
        puzzle.states.len() == 1,
        starts_restricted(puzzle),
{
}

} // verus!
