use vstd::prelude::*;

verus! {

/// The shape of a version 1 to 5 UUID in its hyphenated text form.
pub const UUID_PATTERN: &'static str =
    "^[0-9a-fA-F]{8}-[0-9a-fA-F]{4}-[1-5][0-9a-fA-F]{3}-[89abAB][0-9a-fA-F]{3}-[0-9a-fA-F]{12}$";

/// Whether the regular expression `pattern` finds a match in `text`, as the
/// regex crate decides it.
pub uninterp spec fn regex_matches(pattern: Seq<char>, text: Seq<char>) -> bool;

/// Relies on regex's `Regex::new`, which fails on a pattern it cannot
/// compile, and `Regex::is_match`, which tells whether the compiled
/// expression matches somewhere in `text`.
#[verifier::external_body]
fn regex_is_match(pattern: &str, text: &str) -> (r: Option<bool>)
    ensures
        r matches Some(m) ==> m == regex_matches(pattern@, text@),
{
    regex::Regex::new(pattern).ok().map(|re| re.is_match(text))
}

/// Is `uuid` a hyphenated version 1 to 5 UUID? False as well when the
/// pattern cannot be compiled.
pub fn is_valid_uuid(uuid: &str) -> (r: bool)
    ensures
        r ==> regex_matches(UUID_PATTERN@, uuid@),
{
    match regex_is_match(UUID_PATTERN, uuid) {
        Some(m) => m,
        None => false,
    }
}

} // verus!
