//! Short names: turning free text into a safe token, and finding a form of
//! it that an index does not hold yet.
//!
//! A short name is built in two stages.  First the text is cleaned: upper
//! case ASCII letters are folded, spaces become underscores, and whatever is
//! not a lower case ASCII letter, a digit, `-`, `_` or `.` is dropped; a
//! reserved word then gets an underscore appended.  Second, numbered forms of
//! that base are tried in order until one is found that the index lacks.

use vstd::prelude::*;
use vstd::relations::injective_on;
use vstd::set_lib::{lemma_int_range, lemma_len_subset, lemma_map_size, set_int_range};
use crate::text::{decimal, holds, same, Counter};

verus! {

/// What one character becomes before the unwanted ones are dropped.
pub open spec fn tidied(c: char) -> char {
    if 'A' <= c && c <= 'Z' {
        ((c as u8) + 32) as char
    } else if c == ' ' {
        '_'
    } else {
        c
    }
}

/// Whether a character may stand in a short name.
pub open spec fn permitted(c: char) -> bool {
    ('a' <= c && c <= 'z') || ('0' <= c && c <= '9') || c == '-' || c == '_' || c == '.'
}

/// The text with every character tidied and the unwanted ones dropped.
pub open spec fn cleaned(raw: Seq<char>) -> Seq<char> {
    raw.map_values(|c: char| tidied(c)).filter(|c: char| permitted(c))
}

/// Whether a cleaned name is one of the words kept for the site's own paths.
pub open spec fn reserved(name: Seq<char>) -> bool {
    ||| name == "api"@
    ||| name == "-"@
    ||| name == "linkdoku"@
    ||| name == "r"@
    ||| name == "p"@
    ||| name == "role"@
    ||| name == "puzzle"@
    ||| name == "create"@
    ||| name == "delete"@
    ||| name == "rename"@
}

/// The base form of a short name: the cleaned text, with an underscore
/// appended where that text is a reserved word.
pub open spec fn base_name(raw: Seq<char>) -> Seq<char> {
    let name = cleaned(raw);
    if reserved(name) {
        name.push('_')
    } else {
        name
    }
}

/// The `k`-th form of a base name that the search tries: the base itself,
/// then the base followed by `_0`, `_1`, and so on.
pub open spec fn candidate(base: Seq<char>, k: nat) -> Seq<char> {
    if k == 0 {
        base
    } else {
        base + seq!['_'] + decimal((k - 1) as nat)
    }
}

/// The key of the index that maps the short names of a group to ids.
pub open spec fn index_key(group: Seq<char>) -> Seq<char> {
    group + ":byname"@
}

fn tidy(c: char) -> (t: char)
    ensures
        t == tidied(c),
{
    if c >= 'A' && c <= 'Z' {
        ((c as u8) + 32) as char
    } else if c == ' ' {
        '_'
    } else {
        c
    }
}

fn is_permitted(c: char) -> (ok: bool)
    ensures
        ok == permitted(c),
{
    (c >= 'a' && c <= 'z') || (c >= '0' && c <= '9') || c == '-' || c == '_' || c == '.'
}

/// Whether a cleaned name is reserved.
pub fn is_reserved(name: &str) -> (hit: bool)
    ensures
        hit == reserved(name@),
{
    same(name, "api") || same(name, "-") || same(name, "linkdoku") || same(name, "r") || same(
        name,
        "p",
    ) || same(name, "role") || same(name, "puzzle") || same(name, "create") || same(
        name,
        "delete",
    ) || same(name, "rename")
}

/// Cleans a text and guards it against the reserved words.
pub fn normalised(short_name: &str) -> (name: String)
    ensures
        name@ == base_name(short_name@),
{
    let mut name = String::new();
    let ghost tidy_fn = |c: char| tidied(c);
    let ghost keep_fn = |c: char| permitted(c);
    for c in it: short_name.chars()
        invariant
            it.seq() == short_name@,
            name@ == it.seq().take(it.index() as int).map_values(tidy_fn).filter(keep_fn),
            tidy_fn == |c: char| tidied(c),
            keep_fn == |c: char| permitted(c),
    {
        let t = tidy(c);
        proof {
            let seen = it.seq().take(it.index() as int);
            assert(it.seq().take(it.index() + 1) == seen.push(c));
            assert(seen.push(c).map_values(tidy_fn) == seen.map_values(tidy_fn).push(t));
            seen.map_values(tidy_fn).lemma_filter_push(t, keep_fn);
        }
        if is_permitted(t) {
            name.push(t);
        }
    }
    proof {
        assert(short_name@.take(short_name@.len() as int) == short_name@);
    }
    if is_reserved(name.as_str()) {
        name.push('_');
    }
    name
}

/// Cleaning leaves only characters that may stand in a short name.
pub proof fn cleaned_is_safe(raw: Seq<char>)
    ensures
        forall|i: int| 0 <= i < cleaned(raw).len() ==> permitted(#[trigger] cleaned(raw)[i]),
{
    let keep_fn = |c: char| permitted(c);
    let tidy_all = raw.map_values(|c: char| tidied(c));
    assert forall|i: int| 0 <= i < cleaned(raw).len() implies permitted(
        #[trigger] cleaned(raw)[i],
    ) by {
        tidy_all.lemma_filter_pred(keep_fn, i);
    }
}

/// A text of permitted characters alone is left as it is by cleaning.
pub proof fn clean_text_is_kept(text: Seq<char>)
    requires
        forall|i: int| 0 <= i < text.len() ==> permitted(#[trigger] text[i]),
    ensures
        cleaned(text) == text,
    decreases text.len(),
{
    let tidy_fn = |c: char| tidied(c);
    let keep_fn = |c: char| permitted(c);
    assert(text.map_values(tidy_fn) =~= text);
    if text.len() == 0 {
        assert(text.filter(keep_fn) =~= text) by {
            reveal(Seq::filter);
        }
    } else {
        let front = text.drop_last();
        clean_text_is_kept(front);
        assert(front.map_values(tidy_fn) =~= front);
        front.lemma_filter_push(text.last(), keep_fn);
        assert(front.push(text.last()) =~= text);
    }
}

/// A text that is a reserved word, letter for letter, gets an underscore
/// appended and nothing else done to it, before any search begins.
pub proof fn reserved_word_is_guarded(raw: Seq<char>)
    requires
        reserved(raw),
    ensures
        base_name(raw) == raw.push('_'),
        candidate(base_name(raw), 0) == raw.push('_'),
{
    reveal_strlit("api");
    reveal_strlit("-");
    reveal_strlit("linkdoku");
    reveal_strlit("r");
    reveal_strlit("p");
    reveal_strlit("role");
    reveal_strlit("puzzle");
    reveal_strlit("create");
    reveal_strlit("delete");
    reveal_strlit("rename");
    assert forall|i: int| 0 <= i < raw.len() implies permitted(#[trigger] raw[i]) by {
        if i == 0 {
        } else if i == 1 {
        } else if i == 2 {
        } else if i == 3 {
        } else if i == 4 {
        } else if i == 5 {
        } else if i == 6 {
        } else if i == 7 {
        }
    }
    clean_text_is_kept(raw);
}

/// The numeral of any number holds digits only.
pub proof fn decimal_is_safe(n: nat)
    ensures
        decimal(n).len() >= 1,
        forall|i: int| 0 <= i < decimal(n).len() ==> permitted(#[trigger] decimal(n)[i]),
    decreases n,
{
    if n >= 10 {
        decimal_is_safe(n / 10);
    }
}

/// Every form of a short name that the search may try is made of permitted
/// characters alone.
pub proof fn candidate_is_safe(raw: Seq<char>, k: nat)
    ensures
        forall|i: int|
            0 <= i < candidate(base_name(raw), k).len() ==> permitted(
                #[trigger] candidate(base_name(raw), k)[i],
            ),
{
    cleaned_is_safe(raw);
    if k > 0 {
        decimal_is_safe((k - 1) as nat);
    }
}

/// The number that a numeral stands for.
pub open spec fn numeral_value(numeral: Seq<char>) -> nat
    decreases numeral.len(),
{
    if numeral.len() == 0 {
        0
    } else {
        numeral_value(numeral.drop_last()) * 10 + (numeral.last() as nat - 48) as nat
    }
}

/// A numeral stands for the number it was written for.
pub proof fn decimal_reads_back(n: nat)
    ensures
        numeral_value(decimal(n)) == n,
    decreases n,
{
    if n < 10 {
        assert(decimal(n).drop_last() =~= Seq::<char>::empty());
        assert(numeral_value(decimal(n).drop_last()) == 0);
    } else {
        decimal_reads_back(n / 10);
        assert(decimal(n).drop_last() =~= decimal(n / 10));
    }
}

/// No two forms of a base name are the same text.
pub proof fn candidates_differ(base: Seq<char>, a: nat, b: nat)
    requires
        candidate(base, a) == candidate(base, b),
    ensures
        a == b,
{
    if a > 0 && b > 0 {
        let left = candidate(base, a);
        let right = candidate(base, b);
        let start = base.len() + 1;
        assert(left.subrange(start as int, left.len() as int) =~= decimal((a - 1) as nat));
        assert(right.subrange(start as int, right.len() as int) =~= decimal((b - 1) as nat));
        decimal_reads_back((a - 1) as nat);
        decimal_reads_back((b - 1) as nat);
    } else if a > 0 {
        decimal_is_safe((a - 1) as nat);
    } else if b > 0 {
        decimal_is_safe((b - 1) as nat);
    }
}

/// Whatever finite set of names is taken, one of the first forms of a base
/// name is free: among one more forms than there are names, the names
/// cannot hold them all.
pub proof fn free_form_exists(base: Seq<char>, taken: Set<Seq<char>>)
    requires
        taken.finite(),
    ensures
        exists|j: nat| j <= taken.len() && !taken.contains(#[trigger] candidate(base, j)),
{
    let n = taken.len();
    if forall|j: nat| j <= n ==> taken.contains(#[trigger] candidate(base, j)) {
        let range = set_int_range(0, n as int + 1);
        lemma_int_range(0, n as int + 1);
        let form = |k: int| candidate(base, k as nat);
        assert(injective_on(form, range)) by {
            assert forall|x: int, y: int|
                range.contains(x) && range.contains(y) && #[trigger] form(x) == #[trigger] form(
                    y,
                ) implies x == y by {
                candidates_differ(base, x as nat, y as nat);
            }
        }
        let forms = range.map(form);
        lemma_map_size(range, forms, form);
        assert forall|name: Seq<char>| forms.contains(name) implies taken.contains(name) by {
            let k = choose|k: int| range.contains(k) && name == form(k);
            assert(taken.contains(candidate(base, k as nat)));
        }
        lemma_len_subset(forms, taken);
        assert(false);
    }
}

/// Whether `j` is the place of the first form of a base name that is free.
pub open spec fn is_first_free(base: Seq<char>, taken: Set<Seq<char>>, j: nat) -> bool {
    &&& !taken.contains(candidate(base, j))
    &&& forall|i: nat| i < j ==> taken.contains(#[trigger] candidate(base, i))
}

/// The first form of a base name that is not among the taken names.
pub open spec fn first_free(base: Seq<char>, taken: Set<Seq<char>>) -> Seq<char> {
    candidate(base, choose|j: nat| is_first_free(base, taken, j))
}

/// The unique short name for a text among the taken names: the first free
/// form of its base name.
pub open spec fn unique_name(raw: Seq<char>, taken: Set<Seq<char>>) -> Seq<char> {
    first_free(base_name(raw), taken)
}

/// A free form that all earlier forms are taken before is the first free
/// one.
pub proof fn first_free_is_unique(base: Seq<char>, taken: Set<Seq<char>>, j: nat)
    requires
        is_first_free(base, taken, j),
    ensures
        first_free(base, taken) == candidate(base, j),
{
    let chosen = choose|k: nat| is_first_free(base, taken, k);
    if chosen < j {
        assert(taken.contains(candidate(base, chosen)));
    } else if j < chosen {
        assert(taken.contains(candidate(base, j)));
    }
}

/// Among finitely many taken names the unique short name of a text is not
/// taken, and it is made of permitted characters alone.
pub proof fn unique_name_is_free(raw: Seq<char>, taken: Set<Seq<char>>)
    requires
        taken.finite(),
    ensures
        !taken.contains(unique_name(raw, taken)),
        forall|i: int|
            0 <= i < unique_name(raw, taken).len() ==> permitted(
                #[trigger] unique_name(raw, taken)[i],
            ),
{
    let base = base_name(raw);
    free_form_exists(base, taken);
    let some = choose|j: nat| j <= taken.len() && !taken.contains(#[trigger] candidate(base, j));
    least_free(base, taken, some);
    let first = choose|j: nat| is_first_free(base, taken, j);
    candidate_is_safe(raw, first);
}

proof fn least_free(base: Seq<char>, taken: Set<Seq<char>>, free: nat)
    requires
        !taken.contains(candidate(base, free)),
    ensures
        exists|j: nat| j <= free && is_first_free(base, taken, j),
    decreases free,
{
    if is_first_free(base, taken, free) {
    } else {
        let earlier = choose|i: nat| i < free && !taken.contains(#[trigger] candidate(base, i));
        least_free(base, taken, earlier);
    }
}

/// A search for a free form of a short name.
///
/// The search holds the form to ask the index about next.  Whoever owns the
/// index answers whether that form is taken; the search then either settles
/// on it or moves to the next form.
pub struct ShortNameSearch {
    base: String,
    current: String,
    counter: Counter,
}

impl ShortNameSearch {
    #[verifier::type_invariant]
    spec fn consistent(self) -> bool {
        self.current@ == candidate(self.base@, self.counter.value())
    }

    /// The base form that the search numbers.
    pub closed spec fn base(self) -> Seq<char> {
        self.base@
    }

    /// How many forms the index has turned down so far.
    pub closed spec fn tried(self) -> nat {
        self.counter.value()
    }

    /// The form that the search asks about now.
    pub open spec fn pending(self) -> Seq<char> {
        candidate(self.base(), self.tried())
    }

    /// Starts a search from free text: the first form asked about is the
    /// base form itself.
    pub fn new(short_name: &str) -> (search: ShortNameSearch)
        ensures
            search.base() == base_name(short_name@),
            search.tried() == 0,
    {
        let base = normalised(short_name);
        let current = base.clone();
        ShortNameSearch { base, current, counter: Counter::zero() }
    }

    /// The form to ask the index about.
    pub fn candidate(&self) -> (name: &str)
        ensures
            name@ == self.pending(),
    {
        proof {
            use_type_invariant(self);
        }
        self.current.as_str()
    }

    /// Takes the index's answer for the pending form.  A form that is not
    /// taken is the result; after a taken one the search moves on to the
    /// next form.  The numbers never run out.
    pub fn answer(self, taken: bool) -> (step: SearchStep)
        ensures
            !taken ==> step is Found && step->Found_0@ == self.pending(),
            taken ==> step is Ask && step->Ask_0.base() == self.base() && step->Ask_0.tried()
                == self.tried() + 1,
    {
        proof {
            use_type_invariant(&self);
        }
        let ShortNameSearch { base, current, counter } = self;
        if !taken {
            return SearchStep::Found(current);
        }
        let mut next = base.clone();
        next.push('_');
        counter.write(&mut next);
        proof {
            assert(base@.push('_') == base@ + seq!['_']);
        }
        SearchStep::Ask(ShortNameSearch { base, current: next, counter: counter.next() })
    }
}

/// What a search does after an answer from the index.
pub enum SearchStep {
    /// The search is over: this form is free.
    Found(String),
    /// Ask the index about the pending form of this search.
    Ask(ShortNameSearch),
}

/// The key under which the short names of a group are indexed.
pub fn group_index_key(group: &str) -> (key: String)
    ensures
        key@ == index_key(group@),
{
    let mut key = group.to_owned();
    key.append(":byname");
    key
}

/// Whether an oracle can only answer "not taken" for a name under a key.
pub open spec fn surely_free<F: Fn(&str, &str) -> bool>(
    is_taken: F,
    key: Seq<char>,
    name: Seq<char>,
) -> bool {
    forall|k: &str, n: &str|
        k@ == key && n@ == name ==> !#[trigger] is_taken.ensures((k, n), true)
}

/// Whether an oracle may answer `taken` for a name under a key.
pub open spec fn may_answer<F: Fn(&str, &str) -> bool>(
    is_taken: F,
    key: Seq<char>,
    name: Seq<char>,
    taken: bool,
) -> bool {
    exists|k: &str, n: &str|
        k@ == key && n@ == name && #[trigger] is_taken.ensures((k, n), taken)
}

/// Normalises a short name and makes it unique within a group.
///
/// `is_taken` is asked, with the group's index key and a form of the name,
/// whether the index holds that form.  The forms are tried in order and the
/// first one that is reported free is returned.  The answer is only as good
/// as the moment it was given: whoever stores the name must still reserve it
/// atomically.
pub fn unique_short_name<F: Fn(&str, &str) -> bool>(
    short_name: &str,
    group: &str,
    is_taken: F,
) -> (name: String)
    requires
        forall|k: &str, n: &str| is_taken.requires((k, n)),
        exists|j: nat|
            surely_free(
                is_taken,
                index_key(group@),
                #[trigger] candidate(base_name(short_name@), j),
            ),
    ensures
        exists|j: nat|
            {
                &&& name@ == #[trigger] candidate(base_name(short_name@), j)
                &&& may_answer(is_taken, index_key(group@), name@, false)
                &&& forall|i: nat|
                    i < j ==> may_answer(
                        is_taken,
                        index_key(group@),
                        #[trigger] candidate(base_name(short_name@), i),
                        true,
                    )
            },
{
    let key = group_index_key(group);
    let mut search = ShortNameSearch::new(short_name);
    let ghost base = base_name(short_name@);
    let ghost bound = choose|j: nat|
        surely_free(is_taken, index_key(group@), #[trigger] candidate(base, j));
    loop
        invariant
            forall|k: &str, n: &str| is_taken.requires((k, n)),
            key@ == index_key(group@),
            base == base_name(short_name@),
            search.base() == base,
            search.tried() <= bound,
            surely_free(is_taken, index_key(group@), candidate(base, bound)),
            forall|i: nat|
                i < search.tried() ==> may_answer(
                    is_taken,
                    index_key(group@),
                    #[trigger] candidate(base, i),
                    true,
                ),
        decreases bound - search.tried(),
    {
        let ghost asked = search.pending();
        let ghost at = search.tried();
        let k = key.as_str();
        let n = search.candidate();
        let taken = is_taken(k, n);
        proof {
            assert(is_taken.ensures((k, n), taken));
            assert(may_answer(is_taken, index_key(group@), asked, taken));
            if taken {
                assert(at != bound);
            }
        }
        match search.answer(taken) {
            SearchStep::Found(name) => {
                return name;
            },
            SearchStep::Ask(next) => {
                search = next;
            },
        }
    }
}

/// Normalises a short name and makes it unique among the names taken.  The
/// result is the first form of the base name that is not among them: it is
/// always there to be found, since the names are finitely many.
pub fn unique_short_name_among(short_name: &str, taken: &Vec<String>) -> (name: String)
    ensures
        name@ == unique_name(short_name@, taken.deep_view().to_set()),
        !taken.deep_view().contains(name@),
        forall|i: int| 0 <= i < name@.len() ==> permitted(#[trigger] name@[i]),
        exists|j: nat|
            j <= taken@.len() && name@ == #[trigger] candidate(base_name(short_name@), j),
{
    let ghost names = taken.deep_view().to_set();
    let ghost base = base_name(short_name@);
    let mut search = ShortNameSearch::new(short_name);
    proof {
        vstd::seq_lib::seq_to_set_is_finite(taken.deep_view());
        taken.deep_view().lemma_cardinality_of_set();
        free_form_exists(base, names);
        unique_name_is_free(short_name@, names);
    }
    let ghost bound = choose|j: nat|
        j <= names.len() && !names.contains(#[trigger] candidate(base, j));
    loop
        invariant
            names == taken.deep_view().to_set(),
            base == base_name(short_name@),
            search.base() == base,
            search.tried() <= bound <= taken@.len(),
            !names.contains(candidate(base, bound)),
            forall|i: nat| i < search.tried() ==> names.contains(#[trigger] candidate(base, i)),
            !names.contains(unique_name(short_name@, names)),
            forall|i: int|
                0 <= i < unique_name(short_name@, names).len() ==> permitted(
                    #[trigger] unique_name(short_name@, names)[i],
                ),
        decreases bound - search.tried(),
    {
        let held = holds(taken, search.candidate());
        proof {
            if !held {
                first_free_is_unique(base, names, search.tried());
            }
        }
        match search.answer(held) {
            SearchStep::Found(name) => {
                return name;
            },
            SearchStep::Ask(next) => {
                search = next;
            },
        }
    }
}

/// A text whose cleaned form is a reserved word never gets that word as
/// its short name: the name begins with the word and an underscore, and is
/// just that where that is free.
pub proof fn reserved_words_stay_guarded(raw: Seq<char>, taken: Set<Seq<char>>)
    requires
        taken.finite(),
        reserved(cleaned(raw)),
    ensures
        unique_name(raw, taken) != cleaned(raw),
        crate::text::is_prefix(cleaned(raw).push('_'), unique_name(raw, taken)),
        !taken.contains(cleaned(raw).push('_')) ==> unique_name(raw, taken) == cleaned(raw).push(
            '_',
        ),
{
    let base = base_name(raw);
    free_form_exists(base, taken);
    let some = choose|j: nat| j <= taken.len() && !taken.contains(#[trigger] candidate(base, j));
    least_free(base, taken, some);
    let first = choose|j: nat| is_first_free(base, taken, j);
    let name = candidate(base, first);
    assert(name.subrange(0, base.len() as int) =~= base);
    if !taken.contains(base) {
        first_free_is_unique(base, taken, 0);
    }
}

} // verus!
