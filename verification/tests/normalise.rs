use linkdoku::normalise::{
    group_index_key, is_reserved, normalised, unique_short_name, unique_short_name_among,
    SearchStep, ShortNameSearch,
};
use linkdoku::text::Counter;

#[test]
fn reserved_word_gets_an_underscore() {
    assert_eq!(unique_short_name("API", "role", |_, _| false), "api_");
}

#[test]
fn collision_moves_to_the_next_number() {
    let taken = vec!["bob".to_string(), "bob_0".to_string()];
    let name = unique_short_name("Bob", "role", |_, n| taken.iter().any(|t| t == n));
    assert_eq!(name, "bob_1");
}

#[test]
fn oracle_is_asked_under_the_group_key() {
    let name = unique_short_name("Bob", "puzzle", |k, n| k == "puzzle:byname" && n == "bob");
    assert_eq!(name, "bob_0");
    assert_eq!(group_index_key("role"), "role:byname");
}

#[test]
fn cleaning_folds_replaces_and_strips() {
    assert_eq!(normalised("Hello World!"), "hello_world");
    assert_eq!(normalised("A-b_c.D 9"), "a-b_c.d_9");
    assert_eq!(normalised("Ünïcödé"), "ncd");
    assert_eq!(normalised("ÀB"), "b");
    assert_eq!(normalised(""), "");
    assert_eq!(normalised("!!!"), "");
}

#[test]
fn every_reserved_word_is_guarded() {
    for word in [
        "api", "-", "linkdoku", "r", "p", "role", "puzzle", "create", "delete", "rename",
    ] {
        assert!(is_reserved(word));
        assert_eq!(normalised(word), format!("{}_", word));
    }
    assert!(!is_reserved("roles"));
    assert!(!is_reserved(""));
    assert_eq!(normalised("Role"), "role_");
    assert_eq!(normalised("rename me"), "rename_me");
}

#[test]
fn empty_input_searches_from_the_empty_name() {
    assert_eq!(unique_short_name("", "role", |_, _| false), "");
    assert_eq!(unique_short_name("???", "role", |_, n| n.is_empty()), "_0");
    assert_eq!(
        unique_short_name("", "role", |_, n| n.is_empty() || n == "_0"),
        "_1"
    );
}

#[test]
fn search_numbers_run_in_decimal() {
    let mut search = ShortNameSearch::new("Name");
    assert_eq!(search.candidate(), "name");
    let mut seen = Vec::new();
    for _ in 0..12 {
        match search.answer(true) {
            SearchStep::Ask(next) => search = next,
            SearchStep::Found(_) => panic!("a taken form cannot be the result"),
        }
        seen.push(search.candidate().to_string());
    }
    assert_eq!(seen[0], "name_0");
    assert_eq!(seen[9], "name_9");
    assert_eq!(seen[10], "name_10");
    assert_eq!(seen[11], "name_11");
    match search.answer(false) {
        SearchStep::Found(name) => assert_eq!(name, "name_11"),
        SearchStep::Ask(_) => panic!("a free form ends the search"),
    }
}

fn names(items: &[&str]) -> Vec<String> {
    items.iter().map(|s| s.to_string()).collect()
}

#[test]
fn first_free_form_among_the_taken_names() {
    assert_eq!(unique_short_name_among("Bob", &names(&[])), "bob");
    assert_eq!(unique_short_name_among("Bob", &names(&["bob", "bob_0"])), "bob_1");
    assert_eq!(unique_short_name_among("Bob", &names(&["bob_0", "bob_1"])), "bob");
    assert_eq!(unique_short_name_among("Bob", &names(&["bob", "bob_1"])), "bob_0");
    assert_eq!(
        unique_short_name_among("Bob", &names(&["bob", "bob", "bob_0", "bob"])),
        "bob_1"
    );
    assert_eq!(unique_short_name_among("API", &names(&[])), "api_");
    assert_eq!(unique_short_name_among("api", &names(&["api_"])), "api__0");
    assert_eq!(unique_short_name_among("api", &names(&["api"])), "api_");
    assert_eq!(unique_short_name_among("", &names(&["", "_0"])), "_1");
}

#[test]
fn search_counts_past_many_taken_names() {
    let mut taken = vec!["n".to_string()];
    for i in 0..1200 {
        taken.push(format!("n_{}", i));
    }
    assert_eq!(unique_short_name_among("N", &taken), "n_1200");
    taken.remove(1000);
    assert_eq!(unique_short_name_among("N", &taken), "n_999");
}

#[test]
fn counter_counts_in_decimal_without_end() {
    let mut counter = Counter::zero();
    for n in 0..1234u32 {
        let mut out = String::from("#");
        counter.write(&mut out);
        assert_eq!(out, format!("#{}", n));
        counter = counter.next();
    }
    let mut big = Counter::zero();
    let mut text = String::new();
    for _ in 0..100_000 {
        big = big.next();
    }
    big.write(&mut text);
    assert_eq!(text, "100000");
}
