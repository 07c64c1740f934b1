//! Character-level text utilities for the assembler: splitting on a
//! separator, trimming ASCII whitespace, and string comparison, each with
//! a functional specification over `Seq<char>`.

use vstd::prelude::*;

verus! {

/// ASCII whitespace: what the assembler strips from line ends.
pub open spec fn is_space_char(c: char) -> bool {
    c == ' ' || c == '\t' || c == '\r' || c == '\n' || c == '\u{0b}' || c == '\u{0c}'
}

/// The index of the first occurrence of `sep`, or the length if none.
pub open spec fn first_sep(s: Seq<char>, sep: char) -> nat
    decreases s.len(),
{
    if s.len() == 0 {
        0
    } else if s[0] == sep {
        0
    } else {
        1 + first_sep(s.drop_first(), sep)
    }
}

/// The segments of `s` between occurrences of `sep`: always one more
/// segment than separators, so the empty string has one empty segment.
pub open spec fn split_char(s: Seq<char>, sep: char) -> Seq<Seq<char>>
    decreases s.len(),
{
    let i = first_sep(s, sep) as int;
    if i < s.len() {
        seq![s.subrange(0, i)] + split_char(s.subrange(i + 1, s.len() as int), sep)
    } else {
        seq![s]
    }
}

/// `s` with leading ASCII whitespace removed.
pub open spec fn trim_front(s: Seq<char>) -> Seq<char>
    decreases s.len(),
{
    if s.len() > 0 && is_space_char(s[0]) {
        trim_front(s.drop_first())
    } else {
        s
    }
}

/// `s` with trailing ASCII whitespace removed.
pub open spec fn trim_back(s: Seq<char>) -> Seq<char>
    decreases s.len(),
{
    if s.len() > 0 && is_space_char(s.last()) {
        trim_back(s.drop_last())
    } else {
        s
    }
}

/// `s` with whitespace removed from both ends.
pub open spec fn spec_trim(s: Seq<char>) -> Seq<char> {
    trim_back(trim_front(s))
}

/// If nothing before `j` is the separator and `j` is one (or the end),
/// then `j` is the first separator.
pub proof fn lemma_first_sep_at(s: Seq<char>, sep: char, j: int)
    requires
        0 <= j <= s.len(),
        forall|k: int| 0 <= k < j ==> s[k] != sep,
        j == s.len() || s[j] == sep,
    ensures
        first_sep(s, sep) == j,
    decreases s.len(),
{
    if s.len() == 0 {
    } else if j == 0 {
    } else {
        assert(s[0] != sep);
        let t = s.drop_first();
        assert(forall|k: int| 0 <= k < j - 1 ==> t[k] == s[k + 1] && t[k] != sep);
        assert(j - 1 == t.len() || t[j - 1] == sep);
        lemma_first_sep_at(t, sep, j - 1);
    }
}

/// Splitting a string without its separator yields that one segment.
pub proof fn lemma_split_none(s: Seq<char>, sep: char)
    requires
        forall|k: int| 0 <= k < s.len() ==> s[k] != sep,
    ensures
        split_char(s, sep) == seq![s],
{
    lemma_first_sep_at(s, sep, s.len() as int);
}

/// Splitting from a separator at `b`: the segment before it comes first,
/// and the rest splits independently.
pub proof fn lemma_split_found(s: Seq<char>, sep: char, a: int, b: int)
    requires
        0 <= a <= b < s.len(),
        forall|k: int| a <= k < b ==> s[k] != sep,
        s[b] == sep,
    ensures
        split_char(s.subrange(a, s.len() as int), sep) == seq![s.subrange(a, b)] + split_char(
            s.subrange(b + 1, s.len() as int),
            sep,
        ),
{
    let n = s.len() as int;
    let t = s.subrange(a, n);
    assert(forall|k: int| 0 <= k < b - a ==> t[k] == s[k + a] && t[k] != sep);
    assert(t[b - a] == sep);
    lemma_first_sep_at(t, sep, b - a);
    assert(t.subrange(0, b - a) =~= s.subrange(a, b));
    assert(t.subrange(b - a + 1, t.len() as int) =~= s.subrange(b + 1, n));
}

/// Trimming removes exactly the whitespace ends: if everything before `a`
/// and everything from `b` on is whitespace, and the characters just
/// inside are not, the trimmed string is the middle.
pub proof fn lemma_trim_range(s: Seq<char>, a: int, b: int)
    requires
        0 <= a <= b <= s.len(),
        forall|k: int| 0 <= k < a ==> is_space_char(s[k]),
        forall|k: int| b <= k < s.len() ==> is_space_char(s[k]),
        a == s.len() || a == b || !is_space_char(s[a]),
        b == 0 || a == b || !is_space_char(s[b - 1]),
    ensures
        spec_trim(s) == s.subrange(a, b),
{
    if a == b {
        lemma_trim_front_space(s);
        lemma_trim_back_all(trim_front(s));
        assert(spec_trim(s) =~= s.subrange(a, b));
    } else {
        lemma_trim_front_all(s, a);
        let t = s.subrange(a, s.len() as int);
        assert(trim_front(s) =~= t);
        assert(forall|k: int| b - a <= k < t.len() ==> is_space_char(t[k]));
        assert(!is_space_char(t[b - a - 1]));
        lemma_trim_back_to(t, b - a);
        assert(t.subrange(0, b - a) =~= s.subrange(a, b));
    }
}

/// A fully-whitespace string trims from the front to nothing.
proof fn lemma_trim_front_space(s: Seq<char>)
    requires
        forall|k: int| 0 <= k < s.len() ==> is_space_char(s[k]),
    ensures
        trim_front(s) =~= Seq::<char>::empty(),
    decreases s.len(),
{
    if s.len() > 0 {
        let t = s.drop_first();
        assert(forall|k: int| 0 <= k < t.len() ==> t[k] == s[k + 1] && is_space_char(t[k]));
        lemma_trim_front_space(t);
    }
}

/// Dropping a fully-whitespace prefix is what `trim_front` does.
proof fn lemma_trim_front_all(s: Seq<char>, a: int)
    requires
        0 <= a <= s.len(),
        forall|k: int| 0 <= k < a ==> is_space_char(s[k]),
        a == s.len() || !is_space_char(s[a]),
    ensures
        trim_front(s) =~= s.subrange(a, s.len() as int),
    decreases s.len(),
{
    if a == 0 {
        if s.len() > 0 {
            assert(!is_space_char(s[0]));
        }
    } else {
        assert(is_space_char(s[0]));
        let t = s.drop_first();
        assert(forall|k: int| 0 <= k < a - 1 ==> t[k] == s[k + 1] && is_space_char(t[k]));
        lemma_trim_front_all(t, a - 1);
        assert(t.subrange(a - 1, t.len() as int) =~= s.subrange(a, s.len() as int));
    }
}

/// A fully-whitespace string trims from the back to nothing.
proof fn lemma_trim_back_all(s: Seq<char>)
    requires
        forall|k: int| 0 <= k < s.len() ==> is_space_char(s[k]),
    ensures
        trim_back(s) =~= Seq::<char>::empty(),
    decreases s.len(),
{
    if s.len() > 0 {
        lemma_trim_back_all(s.drop_last());
    }
}

/// Dropping a fully-whitespace suffix is what `trim_back` does.
proof fn lemma_trim_back_to(s: Seq<char>, b: int)
    requires
        0 < b <= s.len(),
        forall|k: int| b <= k < s.len() ==> is_space_char(s[k]),
        !is_space_char(s[b - 1]),
    ensures
        trim_back(s) =~= s.subrange(0, b),
    decreases s.len(),
{
    if b == s.len() {
        assert(!is_space_char(s.last()));
        assert(trim_back(s) == s);
        assert(s =~= s.subrange(0, b));
    } else {
        assert(is_space_char(s.last()));
        let t = s.drop_last();
        assert(forall|k: int| b <= k < t.len() ==> t[k] == s[k] && is_space_char(t[k]));
        lemma_trim_back_to(t, b);
        assert(t.subrange(0, b) =~= s.subrange(0, b));
    }
}

/// Whether a character is ASCII whitespace.
pub fn is_space(c: char) -> (r: bool)
    ensures
        r == is_space_char(c),
{
    c == ' ' || c == '\t' || c == '\r' || c == '\n' || c == '\u{0b}' || c == '\u{0c}'
}

/// Whether two strings hold the same characters.
pub fn str_eq(a: &str, b: &str) -> (r: bool)
    ensures
        r == (a@ == b@),
{
    let na = a.unicode_len();
    let nb = b.unicode_len();
    if na != nb {
        return false;
    }
    let mut i: usize = 0;
    while i < na
        invariant
            i <= na,
            na == a@.len(),
            nb == b@.len(),
            na == nb,
            forall|k: int| 0 <= k < i ==> a@[k] == b@[k],
        decreases na - i,
    {
        if a.get_char(i) != b.get_char(i) {
            return false;
        }
        i = i + 1;
    }
    proof {
        assert(a@ =~= b@);
    }
    true
}

/// Split a string on a separator character; there is always one more
/// segment than separators.
pub fn split_str<'a>(s: &'a str, sep: char) -> (r: Vec<&'a str>)
    ensures
        r.deep_view() == split_char(s@, sep),
{
    let n = s.unicode_len();
    let mut result: Vec<&'a str> = Vec::new();
    let mut start: usize = 0;
    let mut i: usize = 0;
    proof {
        assert(s@.subrange(0, n as int) =~= s@);
        assert(result.deep_view() =~= Seq::<Seq<char>>::empty());
        assert(result.deep_view() + split_char(s@, sep) =~= split_char(s@, sep));
    }
    while i < n
        invariant
            start <= i <= n,
            n == s@.len(),
            forall|k: int| start <= k < i ==> s@[k] != sep,
            split_char(s@, sep) == result.deep_view() + split_char(
                s@.subrange(start as int, n as int),
                sep,
            ),
        decreases n - i,
    {
        if s.get_char(i) == sep {
            let tok = s.substring_char(start, i);
            let ghost old_dv = result.deep_view();
            result.push(tok);
            proof {
                assert(result.deep_view() =~= old_dv + seq![tok@]);
                lemma_split_found(s@, sep, start as int, i as int);
                let rest = split_char(s@.subrange(i as int + 1, n as int), sep);
                assert(old_dv + (seq![tok@] + rest) =~= (old_dv + seq![tok@]) + rest);
            }
            start = i + 1;
        }
        i = i + 1;
    }
    let tok = s.substring_char(start, n);
    let ghost old_dv = result.deep_view();
    result.push(tok);
    proof {
        let t = s@.subrange(start as int, n as int);
        assert(forall|k: int| 0 <= k < t.len() ==> t[k] == s@[k + start] && t[k] != sep);
        lemma_split_none(t, sep);
        assert(result.deep_view() =~= old_dv + seq![tok@]);
        assert(old_dv + seq![t] =~= result.deep_view());
    }
    result
}

/// Remove ASCII whitespace from both ends of a string.
pub fn trim_str<'a>(s: &'a str) -> (r: &'a str)
    ensures
        r@ == spec_trim(s@),
{
    let n = s.unicode_len();
    let mut a: usize = 0;
    while a < n && is_space(s.get_char(a))
        invariant
            a <= n,
            n == s@.len(),
            forall|k: int| 0 <= k < a ==> is_space_char(s@[k]),
        decreases n - a,
    {
        a = a + 1;
    }
    let mut b: usize = n;
    while b > a && is_space(s.get_char(b - 1))
        invariant
            a <= b <= n,
            n == s@.len(),
            forall|k: int| 0 <= k < a ==> is_space_char(s@[k]),
            forall|k: int| b <= k < n ==> is_space_char(s@[k]),
        decreases b,
    {
        b = b - 1;
    }
    let r = s.substring_char(a, b);
    proof {
        lemma_trim_range(s@, a as int, b as int);
    }
    r
}

} // verus!
