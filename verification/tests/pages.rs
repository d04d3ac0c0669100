use linkdoku::cache::{cached_object, CacheEntry};
use linkdoku::session::{EditorKind, LoginStatus, LoginStatusAction};
use linkdoku::toast::{
    Toast, ToastLevel, ToastList, ToastListAction, ToastListEntry, ToastLocation,
    TICK_TIME_MILLIS,
};

fn list(items: &[&str]) -> Vec<String> {
    items.iter().map(|s| s.to_string()).collect()
}

fn logged_in() -> LoginStatus {
    LoginStatus::LoggedIn {
        name: "Bob".to_string(),
        gravatar_hash: Some("abc".to_string()),
        roles: list(&["r1", "r2"]),
        role: "r1".to_string(),
    }
}

#[test]
fn page_status_predicates() {
    assert!(LoginStatus::Unknown.is_unknown());
    assert!(!LoginStatus::Unknown.is_logged_in());
    assert!(!LoginStatus::LoggedOut.is_unknown());
    assert!(!LoginStatus::LoggedOut.is_logged_in());
    assert!(!logged_in().is_unknown());
    assert!(logged_in().is_logged_in());
}

#[test]
fn only_a_logged_in_user_has_roles() {
    assert!(LoginStatus::Unknown.roles().is_empty());
    assert!(LoginStatus::LoggedOut.roles().is_empty());
    assert_eq!(logged_in().roles(), list(&["r1", "r2"]).as_slice());
    assert_eq!(LoginStatus::Unknown.current_role(), None);
    assert_eq!(LoginStatus::LoggedOut.current_role(), None);
    assert_eq!(logged_in().current_role(), Some("r1"));
}

#[test]
fn choosing_a_role_needs_a_login() {
    assert_eq!(
        LoginStatus::Unknown.choose_role("r2".to_string()),
        LoginStatus::Unknown
    );
    assert_eq!(
        LoginStatus::LoggedOut.choose_role("r2".to_string()),
        LoginStatus::LoggedOut
    );
    assert_eq!(
        logged_in().choose_role("r2".to_string()),
        LoginStatus::LoggedIn {
            name: "Bob".to_string(),
            gravatar_hash: Some("abc".to_string()),
            roles: list(&["r1", "r2"]),
            role: "r2".to_string(),
        }
    );
}

#[test]
fn page_status_follows_the_actions() {
    let status = LoginStatus::Unknown.reduce(LoginStatusAction::LoggedOut);
    assert_eq!(status, LoginStatus::LoggedOut);
    let status = status.reduce(LoginStatusAction::LoggedIn(
        "Bob".to_string(),
        Some("abc".to_string()),
        list(&["r1", "r2"]),
        "r1".to_string(),
    ));
    assert_eq!(status, logged_in());
    let status = status.reduce(LoginStatusAction::ChosenRole("r2".to_string()));
    assert_eq!(status.current_role(), Some("r2"));
    assert_eq!(status.roles().len(), 2);
    let status = status.reduce(LoginStatusAction::LoggedOut);
    assert_eq!(status, LoginStatus::LoggedOut);
    assert_eq!(
        status.reduce(LoginStatusAction::ChosenRole("r2".to_string())),
        LoginStatus::LoggedOut
    );
}

#[test]
fn editor_kinds_have_titles() {
    for kind in [
        EditorKind::Nothing,
        EditorKind::FPuzzles,
        EditorKind::URLs,
        EditorKind::Pack,
    ] {
        assert_eq!(EditorKind::from_title(kind.title()), kind);
        assert_eq!(EditorKind::try_from_title(kind.title()), Some(kind));
    }
    assert_eq!(EditorKind::Nothing.title(), "No data");
    assert_eq!(EditorKind::FPuzzles.title(), "F-Puzzles data");
    assert_eq!(EditorKind::URLs.title(), "List of URLs");
    assert_eq!(EditorKind::Pack.title(), "List of puzzles");
    assert_eq!(EditorKind::try_from_title("Something else"), None);
    assert_eq!(EditorKind::try_from_title(""), None);
}

#[test]
fn cache_entry_predicates() {
    let pending: CacheEntry<u8> = CacheEntry::Pending;
    let missing: CacheEntry<u8> = CacheEntry::Missing;
    let failed: CacheEntry<u8> = CacheEntry::Error("no route".to_string());
    let there: CacheEntry<u8> = CacheEntry::Value(7);
    assert!(pending.is_pending() && !pending.is_missing() && !pending.is_error());
    assert!(!missing.is_pending() && missing.is_missing() && !missing.is_error());
    assert!(!failed.is_pending() && !failed.is_missing() && failed.is_error());
    assert!(!there.is_pending() && !there.is_missing() && !there.is_error());
    assert_eq!(pending.error_text(), "");
    assert_eq!(missing.error_text(), "");
    assert_eq!(failed.error_text(), "no route");
    assert_eq!(there.error_text(), "");
    assert_eq!(pending.value(), None);
    assert_eq!(missing.value(), None);
    assert_eq!(failed.value(), None);
    assert_eq!(there.value(), Some(&7));
}

#[test]
fn cache_entry_settles_when_the_request_is_done() {
    assert_eq!(CacheEntry::<u8>::settle(true, Some(Some(1)), None), None);
    assert_eq!(CacheEntry::<u8>::settle(false, None, None), None);
    assert_eq!(
        CacheEntry::settle(false, Some(Some(1)), None),
        Some(CacheEntry::Value(1))
    );
    assert_eq!(
        CacheEntry::<u8>::settle(false, Some(None), None),
        Some(CacheEntry::Missing)
    );
    assert_eq!(
        CacheEntry::<u8>::settle(false, None, Some("down".to_string())),
        Some(CacheEntry::Error("down".to_string()))
    );
    assert_eq!(
        CacheEntry::settle(false, Some(Some(1)), Some("down".to_string())),
        Some(CacheEntry::Value(1))
    );
}

#[test]
fn cached_things_are_named_by_kind() {
    assert_eq!(
        cached_object("bob", "role"),
        ("role:bob".to_string(), "/role/get/bob".to_string())
    );
    assert_eq!(
        cached_object("abc", "puzzle"),
        ("puzzle:abc".to_string(), "/puzzle/get/abc".to_string())
    );
}

fn entry(nr: usize, lifetime: Option<usize>, age: usize) -> ToastListEntry {
    ToastListEntry {
        nr,
        toast: Toast::new("hello").with_lifetime(lifetime),
        age,
    }
}

#[test]
fn rack_numbers_new_toasts_past_the_stored_ones() {
    let empty = ToastList::new(Vec::new());
    assert!(empty.is_empty());
    assert!(!empty.is_paused());
    let one = empty.reduce(ToastListAction::NewToast(Toast::new("first")));
    assert_eq!(one.iter().len(), 1);
    assert_eq!(one.iter()[0].nr, 0);
    assert_eq!(one.iter()[0].age, 0);
    assert_eq!(one.iter()[0].toast.message(), "first");
    let two = one.reduce(ToastListAction::NewToast(
        Toast::new("second").with_level(ToastLevel::Danger),
    ));
    assert_eq!(two.iter()[1].nr, 1);
    let stored = ToastList::new(vec![entry(7, None, 0), entry(3, None, 0)]);
    let next = stored.reduce(ToastListAction::NewToast(Toast::new("third")));
    assert_eq!(next.iter().len(), 3);
    assert_eq!(next.iter()[2].nr, 9);
}

#[test]
fn tick_ages_toasts_with_a_lifetime() {
    let rack = ToastList::new(vec![
        entry(0, Some(25), 0),
        entry(1, None, 0),
        entry(2, Some(10), 0),
        entry(3, Some(5), 0),
    ]);
    assert_eq!(TICK_TIME_MILLIS, 10);
    assert!(rack.needs_ticking());
    let rack = rack.reduce(ToastListAction::TimerTick);
    let seen: Vec<(usize, usize)> = rack.iter().iter().map(|e| (e.nr, e.age)).collect();
    assert_eq!(seen, vec![(0, 10), (1, 0), (2, 10)]);
    let rack = rack.reduce(ToastListAction::TimerTick);
    let seen: Vec<(usize, usize)> = rack.iter().iter().map(|e| (e.nr, e.age)).collect();
    assert_eq!(seen, vec![(0, 20), (1, 0)]);
    let rack = rack.reduce(ToastListAction::TimerTick);
    let seen: Vec<(usize, usize)> = rack.iter().iter().map(|e| (e.nr, e.age)).collect();
    assert_eq!(seen, vec![(1, 0)]);
    assert!(!rack.needs_ticking());
}

#[test]
fn tick_near_the_largest_age_does_not_overflow() {
    let rack = ToastList::new(vec![
        entry(0, Some(usize::MAX), usize::MAX - 10),
        entry(1, Some(usize::MAX), usize::MAX - 9),
        entry(2, Some(3), usize::MAX),
    ]);
    let rack = rack.reduce(ToastListAction::TimerTick);
    let seen: Vec<(usize, usize)> = rack.iter().iter().map(|e| (e.nr, e.age)).collect();
    assert_eq!(seen, vec![(0, usize::MAX)]);
}

#[test]
fn paused_or_empty_rack_does_not_tick() {
    let rack = ToastList::new(vec![entry(0, Some(5), 0)]).reduce(ToastListAction::Pause);
    assert!(rack.is_paused());
    assert!(!rack.needs_ticking());
    assert!(!rack.stores(&ToastListAction::TimerTick));
    let rack = rack.reduce(ToastListAction::TimerTick);
    assert_eq!(rack.iter().len(), 1);
    assert_eq!(rack.iter()[0].age, 0);
    let rack = rack.reduce(ToastListAction::Unpause);
    assert!(!rack.is_paused());
    assert!(rack.stores(&ToastListAction::TimerTick));
    let rack = rack.reduce(ToastListAction::TimerTick);
    assert!(rack.is_empty());
    assert!(!rack.stores(&ToastListAction::TimerTick));
    let rack = rack.reduce(ToastListAction::TimerTick);
    assert!(rack.is_empty());
}

#[test]
fn closing_takes_one_toast_off() {
    let rack = ToastList::new(vec![entry(0, None, 0), entry(1, None, 0), entry(2, None, 0)]);
    let rack = rack.reduce(ToastListAction::Close(1));
    let seen: Vec<usize> = rack.iter().iter().map(|e| e.nr).collect();
    assert_eq!(seen, vec![0, 2]);
    let rack = rack.reduce(ToastListAction::Close(9));
    assert_eq!(rack.iter().len(), 2);
    assert!(rack.stores(&ToastListAction::Close(9)));
    assert!(rack.stores(&ToastListAction::NewToast(Toast::new("x"))));
    assert!(!rack.stores(&ToastListAction::Pause));
    assert!(!rack.stores(&ToastListAction::Unpause));
}

#[test]
fn closing_the_last_toast_ends_a_pause() {
    let rack = ToastList::new(vec![entry(0, None, 0), entry(1, None, 0)])
        .reduce(ToastListAction::Pause)
        .reduce(ToastListAction::Close(0));
    assert!(rack.is_paused());
    let rack = rack.reduce(ToastListAction::Close(1));
    assert!(rack.is_empty());
    assert!(!rack.is_paused());
}

#[test]
fn racks_at_the_bottom_grow_upwards() {
    assert!(!ToastLocation::TopLeft.reverse());
    assert!(!ToastLocation::TopRight.reverse());
    assert!(ToastLocation::BottomLeft.reverse());
    assert!(ToastLocation::BottomRight.reverse());
}
