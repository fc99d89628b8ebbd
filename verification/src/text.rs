//! Small verified helpers on character sequences: whitespace trimming,
//! string equality, and splitting a path-like string at its last slash.
//!
//! The daemon's command channel is line-oriented ASCII text, so whitespace
//! here means the four ASCII separators that can surround a command line.

use vstd::prelude::*;

verus! {

/// The whitespace characters that may surround a command line.
pub open spec fn is_space(c: char) -> bool {
    c == ' ' || c == '\t' || c == '\r' || c == '\n'
}

/// Number of leading whitespace characters of `s`.
pub open spec fn leading_spaces(s: Seq<char>) -> int
    decreases s.len(),
{
    if s.len() == 0 {
        0
    } else if is_space(s[0]) {
        1 + leading_spaces(s.drop_first())
    } else {
        0
    }
}

/// Number of trailing whitespace characters of `s`.
pub open spec fn trailing_spaces(s: Seq<char>) -> int
    decreases s.len(),
{
    if s.len() == 0 {
        0
    } else if is_space(s.last()) {
        1 + trailing_spaces(s.drop_last())
    } else {
        0
    }
}

/// `s` with leading and trailing whitespace removed.
pub open spec fn trim_spec(s: Seq<char>) -> Seq<char> {
    let t = s.skip(leading_spaces(s));
    t.take(t.len() - trailing_spaces(t))
}

proof fn lemma_leading_spaces_at(s: Seq<char>, i: int)
    requires
        0 <= i <= s.len(),
        forall|k: int| 0 <= k < i ==> is_space(s[k]),
        i < s.len() ==> !is_space(s[i]),
    ensures
        leading_spaces(s) == i,
    decreases i,
{
    if i == 0 {
    } else {
        assert(is_space(s[0]));
        lemma_leading_spaces_at(s.drop_first(), i - 1);
    }
}

proof fn lemma_trailing_spaces_at(s: Seq<char>, i: int)
    requires
        0 <= i <= s.len(),
        forall|k: int| s.len() - i <= k < s.len() ==> is_space(s[k]),
        i < s.len() ==> !is_space(s[s.len() - i - 1]),
    ensures
        trailing_spaces(s) == i,
    decreases i,
{
    if i == 0 {
    } else {
        assert(is_space(s.last()));
        lemma_trailing_spaces_at(s.drop_last(), i - 1);
    }
}

fn is_space_char(c: char) -> (r: bool)
    ensures
        r == is_space(c),
{
    c == ' ' || c == '\t' || c == '\r' || c == '\n'
}

/// `s` with leading and trailing whitespace removed.
pub fn trimmed(s: &str) -> (r: &str)
    ensures
        r@ == trim_spec(s@),
{
    let n = s.unicode_len();
    let mut a: usize = 0;
    while a < n && is_space_char(s.get_char(a))
        invariant
            0 <= a <= n,
            n == s@.len(),
            forall|k: int| 0 <= k < a ==> is_space(s@[k]),
        decreases n - a,
    {
        a = a + 1;
    }
    proof {
        lemma_leading_spaces_at(s@, a as int);
    }
    let mut b: usize = n;
    while b > a && is_space_char(s.get_char(b - 1))
        invariant
            a <= b <= n,
            n == s@.len(),
            forall|k: int| b <= k < n ==> is_space(s@[k]),
            a < s@.len() ==> !is_space(s@[a as int]),
        decreases b,
    {
        b = b - 1;
    }
    proof {
        let t = s@.skip(a as int);
        assert(forall|k: int| t.len() - (n - b) <= k < t.len() ==> is_space(t[k]));
        if b > a {
            assert(!is_space(t[b - a - 1]));
        }
        lemma_trailing_spaces_at(t, n as int - b);
        assert(s@.subrange(a as int, b as int) =~= trim_spec(s@));
    }
    s.substring_char(a, b)
}

/// Character-for-character string equality.
pub fn str_eq(a: &str, b: &str) -> (r: bool)
    ensures
        r == (a@ == b@),
{
    let na = a.unicode_len();
    let nb = b.unicode_len();
    if na != nb {
        return false;
    }
    let mut i: usize = 0;
    while i < na
        invariant
            0 <= i <= na,
            na == a@.len(),
            na == b@.len(),
            forall|k: int| 0 <= k < i ==> a@[k] == b@[k],
        decreases na - i,
    {
        if a.get_char(i) != b.get_char(i) {
            return false;
        }
        i = i + 1;
    }
    proof {
        assert(a@ =~= b@);
    }
    true
}

/// Index of the last `/` in `s`, or `-1` if there is none.
pub open spec fn last_slash(s: Seq<char>) -> int
    decreases s.len(),
{
    if s.len() == 0 {
        -1
    } else if s.last() == '/' {
        s.len() - 1
    } else {
        last_slash(s.drop_last())
    }
}

proof fn lemma_last_slash_at(s: Seq<char>, j: int)
    requires
        0 <= j < s.len(),
        s[j] == '/',
        forall|k: int| j < k < s.len() ==> s[k] != '/',
    ensures
        last_slash(s) == j,
    decreases s.len(),
{
    if j < s.len() - 1 {
        lemma_last_slash_at(s.drop_last(), j);
    }
}

proof fn lemma_no_slash(s: Seq<char>)
    requires
        forall|k: int| 0 <= k < s.len() ==> s[k] != '/',
    ensures
        last_slash(s) == -1,
    decreases s.len(),
{
    if s.len() > 0 {
        lemma_no_slash(s.drop_last());
    }
}

/// The part of a path-like string after its last `/`: the whole string
/// when there is no slash, or when what follows the last slash is empty.
pub open spec fn file_name_part(s: Seq<char>) -> Seq<char> {
    if last_slash(s) == -1 {
        s
    } else if last_slash(s) == s.len() - 1 {
        s
    } else {
        s.subrange(last_slash(s) + 1, s.len() as int)
    }
}

/// The part of `path` after its last `/`, as `file_name_part` describes.
pub fn file_name_of(path: &str) -> (r: &str)
    ensures
        r@ == file_name_part(path@),
{
    let n = path.unicode_len();
    match find_last_slash(path) {
        None => path,
        Some(j) => {
            if j + 1 == n {
                path
            } else {
                path.substring_char(j + 1, n)
            }
        },
    }
}

/// Position of the last `/` of `s`, if any.
pub fn find_last_slash(s: &str) -> (r: Option<usize>)
    ensures
        match r {
            Some(j) => last_slash(s@) == j as int && (j as int) < s@.len(),
            None => last_slash(s@) == -1,
        },
{
    let n = s.unicode_len();
    let mut b: usize = n;
    while b > 0 && s.get_char(b - 1) != '/'
        invariant
            0 <= b <= n,
            n == s@.len(),
            forall|k: int| b <= k < n ==> s@[k] != '/',
        decreases b,
    {
        b = b - 1;
    }
    if b == 0 {
        proof {
            lemma_no_slash(s@);
        }
        None
    } else {
        proof {
            lemma_last_slash_at(s@, b - 1);
        }
        Some(b - 1)
    }
}

} // verus!
