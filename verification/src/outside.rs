//! The calls this library makes into the `regex` and `uuid` crates.
use vstd::prelude::*;

verus! {

/// Whether `regex::RegexBuilder` accepts `pattern` with the given case
/// setting (`build()` returns `Ok`).
pub uninterp spec fn regex_compiles(pattern: Seq<char>, case_insensitive: bool) -> bool;

/// Whether the regex built from `pattern` with the given case setting finds a
/// match anywhere in `haystack` (`Regex::is_match`).
pub uninterp spec fn regex_finds(pattern: Seq<char>, case_insensitive: bool, haystack: Seq<char>) -> bool;

/// Builds `pattern` with `regex::RegexBuilder::new(..).case_insensitive(..).build()`
/// and, when it builds, runs `Regex::is_match` on `haystack`. The contract claims that the result is
/// present exactly when the pattern builds, and that the match answer is a
/// function of pattern, case setting and haystack.
#[verifier::external_body]
pub fn regex_match(pattern: &str, case_insensitive: bool, haystack: &str) -> (r: Option<bool>)
    ensures
        r is Some <==> regex_compiles(pattern@, case_insensitive),
        r matches Some(b) ==> b == regex_finds(pattern@, case_insensitive, haystack@),
{
    match regex::RegexBuilder::new(pattern).case_insensitive(case_insensitive).build() {
        Ok(regex) => Some(regex.is_match(haystack)),
        Err(_) => None,
    }
}

/// The lowercase hexadecimal digits.
pub open spec fn is_lower_hex(c: char) -> bool {
    ('0' <= c && c <= '9') || ('a' <= c && c <= 'f')
}

/// The hyphenated lowercase text of a version-4 UUID: 36 characters, hyphens
/// at 8, 13, 18 and 23, hexadecimal digits elsewhere, the version digit '4'
/// at 14 and a variant digit of 8, 9, a or b at 19.
pub open spec fn uuid_v4_text(s: Seq<char>) -> bool {
    &&& s.len() == 36
    &&& forall|i: int|
        0 <= i < 36 ==> if i == 8 || i == 13 || i == 18 || i == 23 {
            #[trigger] s[i] == '-'
        } else {
            is_lower_hex(s[i])
        }
    &&& s[14] == '4'
    &&& (s[19] == '8' || s[19] == '9' || s[19] == 'a' || s[19] == 'b')
}

/// A fresh random identifier from `uuid::Uuid::new_v4()`, in its textual
/// form (`Display`, which writes the hyphenated lowercase form). The contract
/// claims only the shape of that text; its digits are random.
#[verifier::external_body]
pub fn fresh_uuid_text() -> (r: String)
    ensures
        uuid_v4_text(r@),
{
    uuid::Uuid::new_v4().to_string()
}

} // verus!
