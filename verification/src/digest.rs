//! Fingerprints of text: the MD5 digest of its UTF-8 bytes, written as
//! thirty-two lower case hexadecimal digits.
//!
//! Ids are fingerprints of the text that names a thing, so the same name
//! always leads to the same id and no table of ids is needed.

use vstd::prelude::*;
use vstd::utf8::encode_utf8;

verus! {

/// The sixteen bytes that MD5 assigns to a sequence of bytes.
pub uninterp spec fn md5_digest(data: Seq<u8>) -> Seq<u8>;

/// The lower case hexadecimal digit for a value below sixteen.
pub open spec fn hex_digit(n: nat) -> char {
    if n < 10 {
        (48 + n) as char
    } else {
        (87 + n) as char
    }
}

/// Two lower case hexadecimal digits for each byte, in order.
pub open spec fn lower_hex(bytes: Seq<u8>) -> Seq<char>
    decreases bytes.len(),
{
    if bytes.len() == 0 {
        Seq::empty()
    } else {
        lower_hex(bytes.drop_last()).push(hex_digit(bytes.last() as nat / 16)).push(
            hex_digit(bytes.last() as nat % 16),
        )
    }
}

/// The fingerprint of a text.
pub open spec fn fingerprint(text: Seq<char>) -> Seq<char> {
    lower_hex(md5_digest(encode_utf8(text)))
}

/// Whether a character is a lower case hexadecimal digit.
pub open spec fn is_hex_digit(c: char) -> bool {
    ('0' <= c && c <= '9') || ('a' <= c && c <= 'f')
}

/// Calls `md5::compute` on the bytes and hands back the sixteen bytes of the
/// digest it returns.  The digest depends on the bytes alone.
#[verifier::external_body]
fn md5_of(data: &[u8]) -> (digest: [u8; 16])
    ensures
        digest@ == md5_digest(data@),
{
    md5::compute(data).0
}

fn hex_char(n: u8) -> (c: char)
    requires
        n < 16,
    ensures
        c == hex_digit(n as nat),
        is_hex_digit(c),
{
    if n < 10 {
        (48u8 + n) as char
    } else {
        (87u8 + n) as char
    }
}

/// Computes the fingerprint of a text.
pub fn fingerprint_of(text: &str) -> (print: String)
    ensures
        print@ == fingerprint(text@),
        print@.len() == 32,
        forall|i: int| 0 <= i < 32 ==> is_hex_digit(#[trigger] print@[i]),
{
    let digest = md5_of(text.as_bytes());
    let mut print = String::new();
    let mut i: usize = 0;
    while i < 16
        invariant
            i <= 16,
            digest@.len() == 16,
            print@ == lower_hex(digest@.take(i as int)),
            print@.len() == 2 * i,
            forall|j: int| 0 <= j < print@.len() ==> is_hex_digit(#[trigger] print@[j]),
        decreases 16 - i,
    {
        let b = digest[i];
        proof {
            let next = digest@.take(i + 1);
            assert(next.drop_last() == digest@.take(i as int));
            assert(next.last() == b);
        }
        print.push(hex_char(b / 16));
        print.push(hex_char(b % 16));
        i += 1;
    }
    proof {
        assert(digest@.take(16) == digest@);
    }
    print
}

} // verus!
