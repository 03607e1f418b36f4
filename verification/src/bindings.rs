//! Calls into outside crates and into the parts of std that vstd does not
//! describe. Each function here is trusted: Verus believes its contract and
//! does not read its body. The doc comment of each says what is claimed.

use vstd::prelude::*;

verus! {

/// Every character of `s` is an ASCII character.
pub open spec fn all_ascii(s: Seq<char>) -> bool {
    forall|i: int| 0 <= i < s.len() ==> (#[trigger] s[i] as u32) < 128
}

/// `c` is an ASCII decimal digit.
pub open spec fn ascii_digit(c: char) -> bool {
    '0' <= c && c <= '9'
}

/// `c` is an ASCII letter or digit.
pub open spec fn ascii_alphanumeric(c: char) -> bool {
    ('a' <= c && c <= 'z') || ('A' <= c && c <= 'Z') || ascii_digit(c)
}

/// Positions `a..b` of `s` are a non-empty run of ASCII digits.
pub open spec fn digit_run(s: Seq<char>, a: int, b: int) -> bool {
    0 <= a < b <= s.len() && forall|p: int| a <= p < b ==> ascii_digit(#[trigger] s[p])
}

/// `s` starts with `digits.digits.digits` (at least one digit in each part).
pub open spec fn starts_with_semver(s: Seq<char>) -> bool {
    exists|i: int, j: int|
        #![trigger digit_run(s, 0, i), digit_run(s, i + 1, j)]
        digit_run(s, 0, i) && i < s.len() && s[i] == '.' && digit_run(s, i + 1, j) && j < s.len()
            && s[j] == '.' && digit_run(s, j + 1, j + 2)
}

/// What the `regex` crate gives for `pattern` and `haystack`: `None` when
/// `Regex::new` refuses the pattern, otherwise `is_match`'s answer.
pub uninterp spec fn regex_match_outcome(pattern: Seq<char>, haystack: Seq<char>) -> Option<bool>;

/// The pattern of a version that starts like a semantic version: three
/// dot-separated runs of decimal digits.
pub open spec fn version_pattern() -> Seq<char> {
    "^\\d+\\.\\d+\\.\\d+"@
}

/// Compiles `pattern` with `regex::Regex::new` and asks `is_match` of `haystack`.
///
/// Claimed: the result is `regex_match_outcome(pattern, haystack)`. For the
/// version pattern, which compiles, there is an answer, and for an all-ASCII
/// `haystack` it is whether it starts with three dot-separated runs of
/// digits (`\d` matches a Unicode decimal digit, and the only ASCII ones are
/// `0`..`9`).
#[verifier::external_body]
pub(crate) fn regex_is_match(pattern: &str, haystack: &str) -> (r: Option<bool>)
    ensures
        r == regex_match_outcome(pattern@, haystack@),
        pattern@ == version_pattern() ==> r is Some,
        pattern@ == version_pattern() && all_ascii(haystack@) ==> r == Some(starts_with_semver(haystack@)),
{
    match regex::Regex::new(pattern) {
        Ok(re) => Some(re.is_match(haystack)),
        Err(_) => None,
    }
}

/// The version pattern matches `version`.
pub open spec fn semver_pattern_matches(version: Seq<char>) -> bool {
    regex_match_outcome(version_pattern(), version) == Some(true)
}

/// What `url::Url::parse` gives for `input`: the scheme of the parsed URL,
/// or the text of the parse error.
pub uninterp spec fn url_parse_outcome(input: Seq<char>) -> Result<Seq<char>, Seq<char>>;

/// Calls `url::Url::parse` on `input`.
///
/// Claimed: `Ok` holds the parsed URL's scheme and `Err` the displayed
/// parse error, both as `url_parse_outcome(input)`.
#[verifier::external_body]
pub(crate) fn parse_url_scheme(input: &str) -> (r: Result<String, String>)
    ensures
        match r {
            Ok(s) => url_parse_outcome(input@) == Ok::<Seq<char>, Seq<char>>(s@),
            Err(e) => url_parse_outcome(input@) == Err::<Seq<char>, Seq<char>>(e@),
        },
{
    match url::Url::parse(input) {
        Ok(u) => Ok(u.scheme().to_string()),
        Err(e) => Err(e.to_string()),
    }
}

/// What `char::is_alphanumeric` answers for `c`.
pub uninterp spec fn alphanumeric(c: char) -> bool;

/// Calls `char::is_alphanumeric`.
///
/// Claimed: the result is `alphanumeric(c)`, and for an ASCII character it
/// is true exactly for the letters and digits.
#[verifier::external_body]
pub(crate) fn is_alphanumeric(c: char) -> (r: bool)
    ensures
        r == alphanumeric(c),
        (c as u32) < 128 ==> (r == ascii_alphanumeric(c)),
{
    c.is_alphanumeric()
}


/// `input` starts with a tilde that `shellexpand::tilde` expands: `~` alone
/// or followed by `/`.
pub open spec fn expandable_tilde(input: Seq<char>) -> bool {
    input.len() > 0 && input[0] == '~' && (input.len() == 1 || input[1] == '/')
}

/// Calls `shellexpand::tilde`.
///
/// Claimed, as its source shows: an input that does not start with an
/// expandable tilde comes back unchanged; one that does comes back with the
/// tilde replaced by the home directory, or unchanged when the home
/// directory is unknown. Which home directory that is, the environment says.
#[verifier::external_body]
pub(crate) fn expand_tilde(input: &str) -> (r: String)
    ensures
        !expandable_tilde(input@) ==> r@ == input@,
        expandable_tilde(input@) ==> r@ == input@ || exists|home: Seq<char>| r@ == home + input@.drop_first(),
{
    shellexpand::tilde(input).into_owned()
}


/// Calls `num_cpus::get`.
///
/// Claimed, as its documentation says: at least one. How many CPUs there are
/// is the machine's.
#[verifier::external_body]
pub(crate) fn cpu_count() -> (r: usize)
    ensures
        r >= 1,
{
    num_cpus::get()
}

} // verus!
