//! Text helpers with exact contracts: decimal rendering, prefix tests, path
//! trimming, joining, and the wrapping of backend errors.

use vstd::prelude::*;
use vstd::string::*;
use crate::backend::error_text;
use crate::error::AppError;

verus! {

/// The character of a decimal digit.
pub open spec fn digit_char(d: int) -> char {
    seq!['0', '1', '2', '3', '4', '5', '6', '7', '8', '9'][d]
}

/// The decimal rendering of `n`, without leading zeros.
pub open spec fn decimal(n: nat) -> Seq<char>
    decreases n,
{
    if n < 10 {
        seq![digit_char(n as int)]
    } else {
        decimal(n / 10) + seq![digit_char((n % 10) as int)]
    }
}

/// Whether `p` is a prefix of `s`.
pub open spec fn starts_with(s: Seq<char>, p: Seq<char>) -> bool {
    p.len() <= s.len() && s.subrange(0, p.len() as int) == p
}

/// A path separator: `/` or `\`.
pub open spec fn is_separator(c: char) -> bool {
    c == '/' || c == '\\'
}

/// `s` without its trailing path separators.
pub open spec fn trimmed(s: Seq<char>) -> Seq<char>
    decreases s.len(),
{
    if s.len() > 0 && is_separator(s.last()) {
        trimmed(s.drop_last())
    } else {
        s
    }
}

/// The views of a vector of strings.
pub open spec fn views(v: Seq<String>) -> Seq<Seq<char>> {
    v.map_values(|s: String| s@)
}

/// The parts, in order, with `sep` between each two.
pub open spec fn joined(parts: Seq<Seq<char>>, sep: Seq<char>) -> Seq<char>
    decreases parts.len(),
{
    if parts.len() == 0 {
        seq![]
    } else if parts.len() == 1 {
        parts[0]
    } else {
        joined(parts.drop_last(), sep) + sep + parts.last()
    }
}

fn digit_text(d: u64) -> (r: String)
    requires
        d < 10,
    ensures
        r@ == seq![digit_char(d as int)],
{
    let s = match d {
        0 => "0",
        1 => "1",
        2 => "2",
        3 => "3",
        4 => "4",
        5 => "5",
        6 => "6",
        7 => "7",
        8 => "8",
        _ => "9",
    };
    proof {
        reveal_strlit("0");
        reveal_strlit("1");
        reveal_strlit("2");
        reveal_strlit("3");
        reveal_strlit("4");
        reveal_strlit("5");
        reveal_strlit("6");
        reveal_strlit("7");
        reveal_strlit("8");
        reveal_strlit("9");
    }
    let r = String::from_str(s);
    assert(r@ =~= seq![digit_char(d as int)]);
    r
}

/// The decimal rendering of `n`.
pub fn decimal_text(n: u64) -> (r: String)
    ensures
        r@ == decimal(n as nat),
    decreases n,
{
    if n < 10 {
        digit_text(n)
    } else {
        let high = decimal_text(n / 10);
        let low = digit_text(n % 10);
        high.concat(low.as_str())
    }
}

/// Whether `p` is a prefix of `s`.
pub fn has_prefix(s: &str, p: &str) -> (r: bool)
    ensures
        r == starts_with(s@, p@),
{
    let n = s.unicode_len();
    let m = p.unicode_len();
    if m > n {
        return false;
    }
    let mut i: usize = 0;
    while i < m
        invariant
            n == s@.len(),
            m == p@.len(),
            m <= n,
            i <= m,
            forall|j: int| 0 <= j < i ==> s@[j] == p@[j],
        decreases m - i,
    {
        if s.get_char(i) != p.get_char(i) {
            assert(s@.subrange(0, m as int)[i as int] != p@[i as int]);
            return false;
        }
        i = i + 1;
    }
    assert(s@.subrange(0, m as int) =~= p@);
    true
}

/// `s` without the prefix `p` when it has it, else `s` itself.
pub fn strip_prefix_or_keep(s: &str, p: &str) -> (r: String)
    ensures
        starts_with(s@, p@) ==> r@ == s@.subrange(p@.len() as int, s@.len() as int),
        !starts_with(s@, p@) ==> r@ == s@,
{
    if has_prefix(s, p) {
        let rest = s.substring_char(p.unicode_len(), s.unicode_len());
        String::from_str(rest)
    } else {
        String::from_str(s)
    }
}

proof fn lemma_trimmed_prefix(s: Seq<char>, k: int)
    requires
        0 < k <= s.len(),
        is_separator(s[k - 1]),
    ensures
        trimmed(s.subrange(0, k)) == trimmed(s.subrange(0, k - 1)),
{
    assert(s.subrange(0, k).drop_last() =~= s.subrange(0, k - 1));
}

fn is_sep_char(c: char) -> (r: bool)
    ensures
        r == is_separator(c),
{
    c == '/' || c == '\\'
}

/// `path` without its trailing `/` and `\` characters.
pub fn trim_trailing_separators(path: &str) -> (r: String)
    ensures
        r@ == trimmed(path@),
{
    let n = path.unicode_len();
    let mut k: usize = n;
    assert(path@.subrange(0, n as int) =~= path@);
    let mut done = false;
    while !done
        invariant
            n == path@.len(),
            k <= n,
            trimmed(path@) == trimmed(path@.subrange(0, k as int)),
            done ==> !(k > 0 && is_separator(path@[k - 1])),
        decreases k + if done { 0int } else { 1int },
    {
        if k > 0 && is_sep_char(path.get_char(k - 1)) {
            proof {
                lemma_trimmed_prefix(path@, k as int);
            }
            k = k - 1;
        } else {
            done = true;
        }
    }
    proof {
        let t = path@.subrange(0, k as int);
        assert(trimmed(t) == t);
    }
    String::from_str(path.substring_char(0, k))
}

/// The parts joined with `sep`.
pub fn join_with(parts: &Vec<String>, sep: &str) -> (r: String)
    ensures
        r@ == joined(views(parts@), sep@),
{
    if parts.len() == 0 {
        return String::new();
    }
    let mut out = parts[0].clone();
    let mut i: usize = 1;
    assert(views(parts@).subrange(0, 1).len() == 1);
    while i < parts.len()
        invariant
            1 <= i <= parts@.len(),
            out@ == joined(views(parts@).subrange(0, i as int), sep@),
        decreases parts@.len() - i,
    {
        let ghost before = views(parts@).subrange(0, i as int);
        out.append(sep);
        out.append(parts[i].as_str());
        proof {
            let after = views(parts@).subrange(0, i + 1);
            assert(after.drop_last() =~= before);
        }
        i = i + 1;
    }
    assert(views(parts@).subrange(0, parts@.len() as int) =~= views(parts@));
    out
}

/// `a` followed by `b`.
pub fn concat2(a: &str, b: &str) -> (r: String)
    ensures
        r@ == a@ + b@,
{
    String::from_str(a).concat(b)
}

/// `a`, `b` and `c` in turn.
pub fn concat3(a: &str, b: &str, c: &str) -> (r: String)
    ensures
        r@ == a@ + b@ + c@,
{
    String::from_str(a).concat(b).concat(c)
}

/// Wraps a backend error as `AppError::Git`, its text led by `context` and `": "`.
pub fn backend_error(context: &str, e: &git2::Error) -> (r: AppError)
    ensures
        r matches AppError::Git(s) && starts_with(s@, context@ + ": "@),
{
    let text = error_text(e);
    let s = concat3(context, ": ", text.as_str());
    proof {
        let p = context@ + ": "@;
        assert(s@.subrange(0, p.len() as int) =~= p);
    }
    AppError::Git(s)
}

/// A precondition error with the given text.
pub fn precondition(text: &str) -> (r: AppError)
    ensures
        r matches AppError::Precondition(s) && s@ == text@,
{
    AppError::Precondition(String::from_str(text))
}

} // verus!
