//! The Kubernetes object name rule.

use vstd::prelude::*;
use vstd::string::StringSliceAdditionalSpecFns;

verus! {

/// Pattern for a Kubernetes object name or name prefix.
pub const KUBERNETES_OBJECT_NAME_REGEX: &'static str = "^[a-z0-9]([-a-z0-9]*[a-z0-9])?$";

/// Longest namespace name accepted in the settings.
pub const MAX_NAMESPACE_LEN: usize = 63;

/// Longest pod name prefix accepted in the settings.
pub const MAX_POD_NAME_PREFIX_LEN: usize = 253;

/// A lowercase ASCII letter or digit.
pub open spec fn is_alnum(c: char) -> bool {
    ('a' <= c && c <= 'z') || ('0' <= c && c <= '9')
}

/// A character allowed anywhere in a name.
pub open spec fn is_name_char(c: char) -> bool {
    is_alnum(c) || c == '-'
}

/// `s` matches `^[a-z0-9]([-a-z0-9]*[a-z0-9])?$` as a whole: it is not
/// empty, holds only lowercase letters, digits and hyphens, and starts and
/// ends with a letter or digit.
pub open spec fn name_pattern(s: Seq<char>) -> bool {
    &&& s.len() >= 1
    &&& is_alnum(s[0])
    &&& is_alnum(s[s.len() - 1])
    &&& forall|i: int| 0 <= i < s.len() ==> is_name_char(#[trigger] s[i])
}

/// A valid name no longer than `max` characters.
pub open spec fn valid_name(s: Seq<char>, max: nat) -> bool {
    name_pattern(s) && s.len() <= max
}

/// Relies on regex::Regex::new, which compiles the fixed name pattern, and
/// Regex::is_match, which reports whether the pattern matches in `text`;
/// with `^` and `$` (no multi-line flag) that is a match of the whole text.
#[verifier::external_body]
fn regex_is_match(pattern: &str, text: &str) -> (r: bool)
    requires
        pattern@ == KUBERNETES_OBJECT_NAME_REGEX@,
    ensures
        r == name_pattern(text@),
{
    regex::Regex::new(pattern).unwrap().is_match(text)
}

/// Whether `s` is a valid Kubernetes object name or prefix.
pub fn is_valid_name(s: &str) -> (r: bool)
    ensures
        r == name_pattern(s@),
{
    regex_is_match(KUBERNETES_OBJECT_NAME_REGEX, s)
}

/// Whether `s` is a valid name of at most `max` bytes.
pub fn is_valid_name_within(s: &str, max: usize) -> (r: bool)
    ensures
        r == valid_name(s@, max as nat),
{
    if !is_valid_name(s) {
        return false;
    }
    proof {
        broadcast use vstd::string::is_ascii_spec_bytes;

        assert(vstd::string::is_ascii(s));
        assert(s.spec_bytes().len() == s@.len());
    }
    let n: usize = s.as_bytes().len();
    assert(n == s@.len());
    n <= max
}

} // verus!
