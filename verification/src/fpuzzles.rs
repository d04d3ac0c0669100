//! Grids in the form that the F-Puzzles site passes around: the JSON text of
//! the grid, compressed and written in base64.
//!
//! Such a grid comes as a link to one of the sites that can show it, or bare.

use vstd::prelude::*;
use crate::address::{parse_url, url_parts, UrlParts, UrlPartsView};
use crate::text::{ends_with, is_suffix, replaced, same, strip_prefix, without_prefix};

verus! {

/// The compressed form of a text, in base64.
pub uninterp spec fn lz_text(data: Seq<char>) -> Seq<char>;

/// The UTF-16 units that a compressed text stands for, if it is one.
pub uninterp spec fn lz_units(text: Seq<char>) -> Option<Seq<u16>>;

/// The text that UTF-16 units spell, if they are well formed.
pub uninterp spec fn utf16_text(units: Seq<u16>) -> Option<Seq<char>>;

/// Whether a text is JSON.
pub uninterp spec fn is_json(text: Seq<char>) -> bool;

/// Calls `lz_str::compress_to_base64`.  The result depends on the text
/// alone.
#[verifier::external_body]
fn lz_compress(data: &str) -> (text: String)
    ensures
        text@ == lz_text(data@),
{
    lz_str::compress_to_base64(data)
}

/// Calls `lz_str::decompress_from_base64`, which gives the UTF-16 units of
/// what was compressed, or nothing where the text is no compressed form.
#[verifier::external_body]
fn lz_decompress(text: &str) -> (units: Option<Vec<u16>>)
    ensures
        units is Some <==> lz_units(text@) is Some,
        units is Some ==> units->0@ == lz_units(text@)->0,
{
    lz_str::decompress_from_base64(text)
}

/// Calls `String::from_utf16`, which decodes the units, or fails where a
/// surrogate stands alone.
#[verifier::external_body]
fn from_utf16(units: &[u16]) -> (text: Option<String>)
    ensures
        text.deep_view() == utf16_text(units@),
{
    String::from_utf16(units).ok()
}

/// Whether `serde_json::from_str` reads the text as a JSON value.
#[verifier::external_body]
fn json_parses(text: &str) -> (valid: bool)
    ensures
        valid == is_json(text@),
{
    serde_json::from_str::<serde_json::Value>(text).is_ok()
}

/// The JSON text that a compressed text stands for, if it stands for one.
pub open spec fn decoded(text: Seq<char>) -> Option<Seq<char>> {
    match lz_units(text) {
        Some(units) => match utf16_text(units) {
            Some(json) => if is_json(json) {
                Some(json)
            } else {
                None
            },
            None => None,
        },
        None => None,
    }
}

/// The value of the first of the first `upto` pairs that carries a key.
pub open spec fn first_value(pairs: Seq<(Seq<char>, Seq<char>)>, key: Seq<char>, upto: int) -> Option<
    Seq<char>,
>
    decreases upto,
{
    if upto <= 0 {
        None
    } else {
        match first_value(pairs, key, upto - 1) {
            Some(value) => Some(value),
            None => if pairs[upto - 1].0 == key {
                Some(pairs[upto - 1].1)
            } else {
                None
            },
        }
    }
}

/// The value that a query gives to a key: that of the first pair with the
/// key.
pub open spec fn argument(parts: UrlPartsView, key: Seq<char>) -> Option<Seq<char>> {
    first_value(parts.pairs, key, parts.pairs.len() as int)
}

/// What a text carries behind the word `fpuzzles`, if it begins with it.
pub open spec fn tagged(text: Option<Seq<char>>, tag: Seq<char>) -> Option<Seq<char>> {
    match text {
        Some(text) => without_prefix(text, tag),
        None => None,
    }
}

/// The first of three that is there.
pub open spec fn first_of(
    a: Option<Seq<char>>,
    b: Option<Seq<char>>,
    c: Option<Seq<char>>,
) -> Option<Seq<char>> {
    if a is Some {
        a
    } else if b is Some {
        b
    } else {
        c
    }
}

/// Whether a host is one where the Sudokupad player runs.
pub open spec fn is_sudokupad(host: Seq<char>) -> bool {
    is_suffix("sudokupad.app"@, host) || is_suffix("app.crackingthecryptic.com"@, host)
}

/// The compressed grid that an address with a host carries, as it is
/// written there.  Each site has its own place for it: F-Puzzles the
/// argument `load`; Sudokupad the argument `puzzleid`, or the whole query, or
/// the path, each behind the word `fpuzzles`; Sudokulab the argument
/// `fpuzzle`.
pub open spec fn payload(parts: UrlPartsView) -> Option<Seq<char>>
    recommends
        parts.host is Some,
{
    let host = parts.host->0;
    if host == "f-puzzles.com"@ {
        argument(parts, "load"@)
    } else if is_sudokupad(host) {
        first_of(
            tagged(argument(parts, "puzzleid"@), "fpuzzles"@),
            tagged(parts.query, "fpuzzles"@),
            without_prefix(parts.path, "/fpuzzles"@),
        )
    } else if is_suffix("sudokulab.net"@, host) {
        argument(parts, "fpuzzle"@)
    } else {
        None
    }
}

/// A compressed text as it was before an address turned its plus signs into
/// spaces.
pub open spec fn mended(data: Seq<char>) -> Seq<char> {
    data.map_values(|c: char| if c == ' ' { '+' } else { c })
}

/// The compressed grid that a text carries as an address, mended.
pub open spec fn carried(input: Seq<char>) -> Option<Seq<char>> {
    match url_parts(input) {
        Some(parts) => if parts.host is Some {
            match payload(parts) {
                Some(data) => Some(mended(data)),
                None => None,
            }
        } else {
            None
        },
        None => None,
    }
}

/// The JSON text of the grid that a text gives: the one that it carries as
/// an address of a known site, if that can be decoded, and else the one that
/// it stands for itself.
pub open spec fn extracted(input: Seq<char>) -> Option<Seq<char>> {
    match carried(input) {
        Some(data) => if decoded(data) is Some {
            decoded(data)
        } else {
            decoded(input)
        },
        None => decoded(input),
    }
}

/// The address of the picture of a grid.
pub open spec fn thumbnail(json: Seq<char>) -> Seq<char> {
    "https://api.sudokupad.com/thumbnail/fpuzzles"@ + lz_text(json) + "_512x512.svg"@
}

fn maybe_decode_fpuzzles(input: &str) -> (json: Option<String>)
    ensures
        json.deep_view() == decoded(input@),
{
    let units = match lz_decompress(input) {
        Some(units) => units,
        None => {
            return None;
        },
    };
    let json = match from_utf16(units.as_slice()) {
        Some(json) => json,
        None => {
            return None;
        },
    };
    if json_parses(json.as_str()) {
        Some(json)
    } else {
        None
    }
}

fn find_arg(parts: &UrlParts, key_to_find: &str) -> (value: Option<String>)
    ensures
        value.deep_view() == argument(parts@, key_to_find@),
{
    let mut i: usize = 0;
    while i < parts.pairs.len()
        invariant
            i <= parts.pairs@.len(),
            first_value(parts@.pairs, key_to_find@, i as int) is None,
        decreases parts.pairs@.len() - i,
    {
        if same(parts.pairs[i].0.as_str(), key_to_find) {
            let value = parts.pairs[i].1.clone();
            proof {
                found_stays(parts@.pairs, key_to_find@, i as int + 1, parts@.pairs.len() as int);
            }
            return Some(value);
        }
        i += 1;
    }
    None
}

proof fn found_stays(pairs: Seq<(Seq<char>, Seq<char>)>, key: Seq<char>, at: int, upto: int)
    requires
        0 <= at <= upto,
        first_value(pairs, key, at) is Some,
    ensures
        first_value(pairs, key, upto) == first_value(pairs, key, at),
    decreases upto - at,
{
    if at < upto {
        found_stays(pairs, key, at, upto - 1);
    }
}

fn tagged_text(text: Option<String>, tag: &str) -> (rest: Option<String>)
    ensures
        rest.deep_view() == tagged(text.deep_view(), tag@),
{
    match text {
        Some(text) => strip_prefix(text.as_str(), tag),
        None => None,
    }
}

fn payload_of(parts: &UrlParts, host: &str) -> (data: Option<String>)
    requires
        parts@.host == Some(host@),
    ensures
        data.deep_view() == payload(parts@),
{
    if same(host, "f-puzzles.com") {
        find_arg(parts, "load")
    } else if ends_with(host, "sudokupad.app") || ends_with(host, "app.crackingthecryptic.com") {
        let by_id = tagged_text(find_arg(parts, "puzzleid"), "fpuzzles");
        if by_id.is_some() {
            return by_id;
        }
        let by_query = tagged_text(parts.query.clone(), "fpuzzles");
        if by_query.is_some() {
            return by_query;
        }
        strip_prefix(parts.path.as_str(), "/fpuzzles")
    } else if ends_with(host, "sudokulab.net") {
        find_arg(parts, "fpuzzle")
    } else {
        None
    }
}

/// Takes the JSON text of a grid out of a text that is a link to a site
/// that shows the grid, or the compressed grid itself.
pub fn extract_fpuzzles_data(input: &str) -> (json: Option<String>)
    ensures
        json.deep_view() == extracted(input@),
{
    if let Some(parts) = parse_url(input) {
        if let Some(host) = &parts.host {
            if let Some(data) = payload_of(&parts, host.as_str()) {
                let data = replaced(data.as_str(), ' ', '+');
                let json = maybe_decode_fpuzzles(data.as_str());
                if json.is_some() {
                    return json;
                }
            }
        }
    }
    maybe_decode_fpuzzles(input)
}

/// Compresses the JSON text of a grid.
pub fn encode_fpuzzles_data(json: &str) -> (text: String)
    ensures
        text@ == lz_text(json@),
{
    lz_compress(json)
}

/// The address of the picture of a grid.
pub fn grid_svg_url(json: &str) -> (url: String)
    ensures
        url@ == thumbnail(json@),
{
    let mut url = "https://api.sudokupad.com/thumbnail/fpuzzles".to_owned();
    let data = encode_fpuzzles_data(json);
    url.append(data.as_str());
    url.append("_512x512.svg");
    url
}

} // verus!
