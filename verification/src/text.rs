//! Small helpers on strings, stated over their character sequences.

use vstd::prelude::*;
use vstd::string::StringSliceAdditionalSpecFns;

verus! {

/// `String::push` appends one character to the end of the string.
pub assume_specification[ String::push ](s: &mut String, c: char)
    ensures
        final(s)@ == old(s)@.push(c),
;

/// Whether two strings hold the same characters.
pub fn same(a: &str, b: &str) -> (equal: bool)
    ensures
        equal == (a@ == b@),
{
    let x = a.as_bytes();
    let y = b.as_bytes();
    proof {
        vstd::utf8::encode_utf8_decode_utf8(a@);
        vstd::utf8::encode_utf8_decode_utf8(b@);
    }
    if x.len() != y.len() {
        return false;
    }
    let mut i: usize = 0;
    while i < x.len()
        invariant
            x@ == a.spec_bytes(),
            y@ == b.spec_bytes(),
            x@.len() == y@.len(),
            i <= x@.len(),
            x@.take(i as int) == y@.take(i as int),
        decreases x@.len() - i,
    {
        if x[i] != y[i] {
            return false;
        }
        proof {
            assert(x@.take(i + 1) == x@.take(i as int).push(x@[i as int]));
            assert(y@.take(i + 1) == y@.take(i as int).push(y@[i as int]));
        }
        i += 1;
    }
    proof {
        assert(x@ == x@.take(x@.len() as int));
        assert(y@ == y@.take(y@.len() as int));
    }
    true
}

/// Whether a list of strings holds `wanted`.
pub fn holds(list: &Vec<String>, wanted: &str) -> (found: bool)
    ensures
        found == list.deep_view().contains(wanted@),
{
    let mut i: usize = 0;
    while i < list.len()
        invariant
            i <= list@.len(),
            forall|j: int| 0 <= j < i ==> list@[j]@ != wanted@,
        decreases list@.len() - i,
    {
        if same(list[i].as_str(), wanted) {
            proof {
                assert(list.deep_view()[i as int] == wanted@);
            }
            return true;
        }
        i += 1;
    }
    proof {
        assert forall|j: int| 0 <= j < list.deep_view().len() implies list.deep_view()[j]
            != wanted@ by {
            assert(list.deep_view()[j] == list@[j]@);
        }
    }
    false
}

/// The decimal digit for a value below ten.
pub open spec fn digit(d: nat) -> char {
    (48 + d) as char
}

/// The decimal numeral of `n`, without sign or leading zeros.
pub open spec fn decimal(n: nat) -> Seq<char>
    decreases n,
{
    if n < 10 {
        seq![digit(n)]
    } else {
        decimal(n / 10).push(digit(n % 10))
    }
}

/// Appends the decimal numeral of `n` to `out`.
pub fn push_decimal(out: &mut String, n: u64)
    ensures
        final(out)@ == old(out)@ + decimal(n as nat),
    decreases n,
{
    if n >= 10 {
        push_decimal(out, n / 10);
    }
    let d: u8 = (n % 10) as u8;
    out.push((48u8 + d) as char);
    proof {
        let before = old(out)@;
        if n >= 10 {
            assert(before + decimal(n as nat / 10).push(digit(n as nat % 10)) == (before + decimal(
                n as nat / 10,
            )).push(digit(n as nat % 10)));
        } else {
            assert(before + seq![digit(n as nat)] == before.push(digit(n as nat)));
        }
    }
}

/// The number that decimal digits stand for, the first weighing most.
pub open spec fn digits_value(digits: Seq<u8>) -> nat
    decreases digits.len(),
{
    if digits.len() == 0 {
        0
    } else {
        digits_value(digits.drop_last()) * 10 + digits.last() as nat
    }
}

/// Whether digits are the way a number is written: at least one digit, each
/// below ten, and no zero in front of others.
pub open spec fn is_numeral(digits: Seq<u8>) -> bool {
    &&& digits.len() >= 1
    &&& forall|i: int| 0 <= i < digits.len() ==> #[trigger] digits[i] < 10
    &&& digits.len() > 1 ==> digits[0] != 0
}

/// The characters of digits.
pub open spec fn digits_text(digits: Seq<u8>) -> Seq<char> {
    Seq::new(digits.len(), |i: int| digit(digits[i] as nat))
}

proof fn leading_digit_counts(digits: Seq<u8>)
    requires
        digits.len() >= 1,
        digits[0] != 0,
    ensures
        digits_value(digits) >= 1,
    decreases digits.len(),
{
    if digits.len() > 1 {
        leading_digit_counts(digits.drop_last());
    } else {
        assert(digits.drop_last().len() == 0);
        assert(digits_value(digits.drop_last()) == 0);
    }
}

/// The way a number is written is its decimal numeral.
pub proof fn numeral_is_decimal(digits: Seq<u8>)
    requires
        is_numeral(digits),
    ensures
        digits_text(digits) == decimal(digits_value(digits)),
    decreases digits.len(),
{
    let front = digits.drop_last();
    let last = digits.last() as nat;
    if digits.len() == 1 {
        assert(digits_value(front) == 0);
        assert(digits_text(digits) =~= seq![digit(last)]);
    } else {
        numeral_is_decimal(front);
        leading_digit_counts(front);
        let n = digits_value(digits);
        let v = digits_value(front);
        assert(n == v * 10 + last);
        assert(n / 10 == v && n % 10 == last) by (nonlinear_arith)
            requires
                n == v * 10 + last,
                last < 10,
        ;
        assert(digits_text(digits) =~= digits_text(front).push(digit(last)));
    }
}

fn bump(digits: &mut Vec<u8>)
    requires
        forall|i: int| 0 <= i < old(digits)@.len() ==> #[trigger] old(digits)@[i] < 10,
        old(digits)@.len() > 1 ==> old(digits)@[0] != 0,
    ensures
        forall|i: int| 0 <= i < final(digits)@.len() ==> #[trigger] final(digits)@[i] < 10,
        final(digits)@.len() >= 1,
        final(digits)@[0] != 0,
        digits_value(final(digits)@) == digits_value(old(digits)@) + 1,
    decreases old(digits)@.len(),
{
    let ghost before = digits@;
    match digits.pop() {
        None => {
            digits.push(1);
            assert(digits@.drop_last() =~= before);
        },
        Some(last) => {
            let ghost front = digits@;
            assert(front =~= before.drop_last());
            assert(last == before.last());
            if last == 9 {
                bump(digits);
                let ghost raised = digits@;
                digits.push(0);
                assert(digits@.drop_last() =~= raised);
            } else {
                digits.push(last + 1);
                assert(digits@.drop_last() =~= front);
                assert(digits@[0] != 0) by {
                    if front.len() > 0 {
                        assert(digits@[0] == before[0]);
                    }
                }
            }
        },
    }
}

/// A number that counts up without end.
pub struct Counter {
    digits: Vec<u8>,
}

impl Counter {
    #[verifier::type_invariant]
    spec fn written(self) -> bool {
        is_numeral(self.digits@)
    }

    /// The number.
    pub closed spec fn value(self) -> nat {
        digits_value(self.digits@)
    }

    /// Zero.
    pub fn zero() -> (counter: Counter)
        ensures
            counter.value() == 0,
    {
        let mut digits: Vec<u8> = Vec::new();
        digits.push(0);
        assert(digits@.drop_last().len() == 0);
        assert(digits_value(digits@.drop_last()) == 0);
        Counter { digits }
    }

    /// The next number.
    pub fn next(self) -> (counter: Counter)
        ensures
            counter.value() == self.value() + 1,
    {
        proof {
            use_type_invariant(&self);
        }
        let Counter { digits } = self;
        let mut digits = digits;
        bump(&mut digits);
        Counter { digits }
    }

    /// Appends the decimal numeral of the number to `out`.
    pub fn write(&self, out: &mut String)
        ensures
            final(out)@ == old(out)@ + decimal(self.value()),
    {
        proof {
            use_type_invariant(self);
            numeral_is_decimal(self.digits@);
        }
        let ghost text = digits_text(self.digits@);
        let mut i: usize = 0;
        while i < self.digits.len()
            invariant
                i <= self.digits@.len(),
                text == digits_text(self.digits@),
                forall|j: int| 0 <= j < self.digits@.len() ==> #[trigger] self.digits@[j] < 10,
                out@ == old(out)@ + text.take(i as int),
            decreases self.digits@.len() - i,
        {
            let d = self.digits[i];
            out.push((48u8 + d) as char);
            proof {
                assert(text.take(i + 1) =~= text.take(i as int).push(text[i as int]));
                assert(old(out)@ + text.take(i as int).push(text[i as int]) =~= (old(out)@
                    + text.take(i as int)).push(text[i as int]));
            }
            i += 1;
        }
        proof {
            assert(text.take(i as int) =~= text);
        }
    }
}

/// Whether a text ends with another.
pub open spec fn is_suffix(suffix: Seq<char>, text: Seq<char>) -> bool {
    suffix.len() <= text.len() && text.subrange(text.len() - suffix.len(), text.len() as int)
        == suffix
}

/// Whether a text begins with another.
pub open spec fn is_prefix(prefix: Seq<char>, text: Seq<char>) -> bool {
    prefix.len() <= text.len() && text.subrange(0, prefix.len() as int) == prefix
}

/// What is left of a text behind a prefix, if it begins with that prefix.
pub open spec fn without_prefix(text: Seq<char>, prefix: Seq<char>) -> Option<Seq<char>> {
    if is_prefix(prefix, text) {
        Some(text.subrange(prefix.len() as int, text.len() as int))
    } else {
        None
    }
}

/// Whether a text ends with another.
pub fn ends_with(text: &str, suffix: &str) -> (ends: bool)
    ensures
        ends == is_suffix(suffix@, text@),
{
    let n = text.unicode_len();
    let m = suffix.unicode_len();
    if m > n {
        return false;
    }
    same(text.substring_char(n - m, n), suffix)
}

/// What is left of a text behind a prefix, if it begins with that prefix.
pub fn strip_prefix(text: &str, prefix: &str) -> (rest: Option<String>)
    ensures
        rest.deep_view() == without_prefix(text@, prefix@),
{
    let n = text.unicode_len();
    let m = prefix.unicode_len();
    if m > n {
        return None;
    }
    if same(text.substring_char(0, m), prefix) {
        Some(text.substring_char(m, n).to_owned())
    } else {
        None
    }
}

/// A text with every occurrence of one character replaced by another.
pub fn replaced(text: &str, from: char, to: char) -> (changed: String)
    ensures
        changed@ == text@.map_values(|c: char| if c == from { to } else { c }),
{
    let ghost swap = |c: char| if c == from { to } else { c };
    let mut changed = String::new();
    for c in it: text.chars()
        invariant
            it.seq() == text@,
            swap == |c: char| if c == from { to } else { c },
            changed@ == it.seq().take(it.index() as int).map_values(swap),
    {
        proof {
            let seen = it.seq().take(it.index() as int);
            assert(it.seq().take(it.index() + 1) == seen.push(c));
            assert(seen.push(c).map_values(swap) == seen.map_values(swap).push(swap(c)));
        }
        if c == from {
            changed.push(to);
        } else {
            changed.push(c);
        }
    }
    proof {
        assert(text@.take(text@.len() as int) == text@);
    }
    changed
}

} // verus!
