//! Checks on user-supplied names before they reach the backend.

use vstd::prelude::*;
use vstd::string::*;

verus! {

/// The characters of Unicode's White_Space property, as `char::is_whitespace`
/// documents them.
pub open spec fn is_white_space(c: char) -> bool {
    let u = c as u32;
    (0x09 <= u && u <= 0x0d) || u == 0x20 || u == 0x85 || u == 0xa0 || u == 0x1680 || (0x2000
        <= u && u <= 0x200a) || u == 0x2028 || u == 0x2029 || u == 0x202f || u == 0x205f || u
        == 0x3000
}

/// Whether `c` is whitespace (see `is_white_space`).
pub fn white_space(c: char) -> (r: bool)
    ensures
        r == is_white_space(c),
{
    let u = c as u32;
    (0x09 <= u && u <= 0x0d) || u == 0x20 || u == 0x85 || u == 0xa0 || u == 0x1680 || (0x2000
        <= u && u <= 0x200a) || u == 0x2028 || u == 0x2029 || u == 0x202f || u == 0x205f || u
        == 0x3000
}

/// Characters that could turn an argument into something other than a plain
/// name: whitespace and shell metacharacters.
pub open spec fn is_unsafe_char(c: char) -> bool {
    is_white_space(c) || c == ';' || c == '&' || c == '|' || c == '`' || c == '$' || c == '\\'
}

/// A branch name or similar argument is safe when it is non-empty, does not
/// start with `-` (so it cannot be read as a flag) and holds no unsafe character.
pub open spec fn safe_arg(s: Seq<char>) -> bool {
    &&& s.len() > 0
    &&& s[0] != '-'
    &&& forall|i: int| 0 <= i < s.len() ==> !is_unsafe_char(#[trigger] s[i])
}

/// A clone URL is refused when it contains a space or `;`, or starts with `-`.
pub open spec fn valid_clone_url(s: Seq<char>) -> bool {
    &&& !(s.len() > 0 && s[0] == '-')
    &&& forall|i: int| 0 <= i < s.len() ==> #[trigger] s[i] != ' ' && s[i] != ';'
}

fn unsafe_char(c: char) -> (r: bool)
    ensures
        r == is_unsafe_char(c),
{
    white_space(c) || c == ';' || c == '&' || c == '|' || c == '`' || c == '$' || c == '\\'
}

/// Whether `arg` may be handed to the backend as a branch name.
pub fn is_safe_git_arg(arg: &str) -> (r: bool)
    ensures
        r == safe_arg(arg@),
{
    let n = arg.unicode_len();
    if n == 0 {
        return false;
    }
    if arg.get_char(0) == '-' {
        return false;
    }
    let mut i: usize = 0;
    while i < n
        invariant
            n == arg@.len(),
            i <= n,
            forall|j: int| 0 <= j < i ==> !is_unsafe_char(#[trigger] arg@[j]),
        decreases n - i,
    {
        if unsafe_char(arg.get_char(i)) {
            return false;
        }
        i = i + 1;
    }
    true
}

/// Whether `url` may be handed to a clone.
pub fn is_valid_clone_url(url: &str) -> (r: bool)
    ensures
        r == valid_clone_url(url@),
{
    let n = url.unicode_len();
    if n > 0 && url.get_char(0) == '-' {
        return false;
    }
    let mut i: usize = 0;
    while i < n
        invariant
            n == url@.len(),
            i <= n,
            !(n > 0 && url@[0] == '-'),
            forall|j: int| 0 <= j < i ==> #[trigger] url@[j] != ' ' && url@[j] != ';',
        decreases n - i,
    {
        let c = url.get_char(i);
        if c == ' ' || c == ';' {
            return false;
        }
        i = i + 1;
    }
    true
}

} // verus!
