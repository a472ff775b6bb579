//! Character-level text helpers: the case folding and whitespace trimming
//! used to normalize answers before comparison.
//!
//! The trainer's alphabet is small (letters, digits, a few punctuation
//! characters and the German umlauts), so a simple explicit case folding is
//! enough; no locale-dependent behaviour is wanted.

use vstd::prelude::*;

verus! {

/// The whitespace characters that trimming removes.
pub open spec fn is_space(c: char) -> bool {
    c == ' ' || c == '\t' || c == '\n' || c == '\r'
}

/// Simple case folding to lower case over the trainer's alphabet;
/// every other character is left unchanged.
pub open spec fn lower_char(c: char) -> char {
    match c {
        'A' => 'a',
        'B' => 'b',
        'C' => 'c',
        'D' => 'd',
        'E' => 'e',
        'F' => 'f',
        'G' => 'g',
        'H' => 'h',
        'I' => 'i',
        'J' => 'j',
        'K' => 'k',
        'L' => 'l',
        'M' => 'm',
        'N' => 'n',
        'O' => 'o',
        'P' => 'p',
        'Q' => 'q',
        'R' => 'r',
        'S' => 's',
        'T' => 't',
        'U' => 'u',
        'V' => 'v',
        'W' => 'w',
        'X' => 'x',
        'Y' => 'y',
        'Z' => 'z',
        'Ä' => 'ä',
        'Ö' => 'ö',
        'Ü' => 'ü',
        _ => c,
    }
}

/// Simple case folding to upper case, the inverse of [`lower_char`] on
/// letters; every other character is left unchanged.
pub open spec fn upper_char(c: char) -> char {
    match c {
        'a' => 'A',
        'b' => 'B',
        'c' => 'C',
        'd' => 'D',
        'e' => 'E',
        'f' => 'F',
        'g' => 'G',
        'h' => 'H',
        'i' => 'I',
        'j' => 'J',
        'k' => 'K',
        'l' => 'L',
        'm' => 'M',
        'n' => 'N',
        'o' => 'O',
        'p' => 'P',
        'q' => 'Q',
        'r' => 'R',
        's' => 'S',
        't' => 'T',
        'u' => 'U',
        'v' => 'V',
        'w' => 'W',
        'x' => 'X',
        'y' => 'Y',
        'z' => 'Z',
        'ä' => 'Ä',
        'ö' => 'Ö',
        'ü' => 'Ü',
        _ => c,
    }
}

/// A letter is exactly a character that case folding moves in one direction
/// or the other.
pub open spec fn is_letter(c: char) -> bool {
    lower_char(c) != c || upper_char(c) != c
}

/// Pointwise lower-case folding of a character sequence.
pub open spec fn lower_seq(s: Seq<char>) -> Seq<char> {
    s.map_values(|c: char| lower_char(c))
}

/// Number of whitespace characters at the front of `s`.
pub open spec fn leading_spaces(s: Seq<char>) -> int
    decreases s.len(),
{
    if s.len() == 0 {
        0
    } else if is_space(s[0]) {
        1 + leading_spaces(s.skip(1))
    } else {
        0
    }
}

/// Number of whitespace characters at the back of `s`.
pub open spec fn trailing_spaces(s: Seq<char>) -> int
    decreases s.len(),
{
    if s.len() == 0 {
        0
    } else if is_space(s[s.len() - 1]) {
        1 + trailing_spaces(s.take(s.len() - 1))
    } else {
        0
    }
}

/// `s` with leading and trailing whitespace removed.
pub open spec fn trim_seq(s: Seq<char>) -> Seq<char> {
    let t = s.skip(leading_spaces(s));
    t.take(t.len() - trailing_spaces(t))
}

/// An answer's normal form: trimmed, then folded to lower case.
pub open spec fn normal_seq(s: Seq<char>) -> Seq<char> {
    lower_seq(trim_seq(s))
}

pub proof fn lemma_leading_spaces(s: Seq<char>)
    ensures
        0 <= leading_spaces(s) <= s.len(),
        forall|j: int| 0 <= j < leading_spaces(s) ==> is_space(s[j]),
        leading_spaces(s) < s.len() ==> !is_space(s[leading_spaces(s)]),
    decreases s.len(),
{
    if s.len() != 0 && is_space(s[0]) {
        lemma_leading_spaces(s.skip(1));
        assert forall|j: int| 0 <= j < leading_spaces(s) implies is_space(s[j]) by {
            if j > 0 {
                assert(is_space(s.skip(1)[j - 1]));
            }
        }
    }
}

pub proof fn lemma_trailing_spaces(s: Seq<char>)
    ensures
        0 <= trailing_spaces(s) <= s.len(),
        forall|j: int| s.len() - trailing_spaces(s) <= j < s.len() ==> is_space(s[j]),
        trailing_spaces(s) < s.len() ==> !is_space(s[s.len() - trailing_spaces(s) - 1]),
    decreases s.len(),
{
    if s.len() != 0 && is_space(s[s.len() - 1]) {
        lemma_trailing_spaces(s.take(s.len() - 1));
        assert forall|j: int| s.len() - trailing_spaces(s) <= j < s.len() implies is_space(s[j])
            by {
            if j < s.len() - 1 {
                assert(is_space(s.take(s.len() - 1)[j]));
            }
        }
    }
}

/// The leading count is pinned by its characterization: everything before
/// `k` is whitespace and, unless `k` is the length, position `k` is not.
pub proof fn lemma_leading_spaces_unique(s: Seq<char>, k: int)
    requires
        0 <= k <= s.len(),
        forall|j: int| 0 <= j < k ==> is_space(s[j]),
        k < s.len() ==> !is_space(s[k]),
    ensures
        leading_spaces(s) == k,
    decreases s.len(),
{
    if k == 0 {
    } else {
        assert(is_space(s[0]));
        lemma_leading_spaces_unique(s.skip(1), k - 1);
    }
}

/// The trailing count is pinned symmetrically.
pub proof fn lemma_trailing_spaces_unique(s: Seq<char>, k: int)
    requires
        0 <= k <= s.len(),
        forall|j: int| s.len() - k <= j < s.len() ==> is_space(s[j]),
        k < s.len() ==> !is_space(s[s.len() - k - 1]),
    ensures
        trailing_spaces(s) == k,
    decreases s.len(),
{
    if k == 0 {
    } else {
        assert(is_space(s[s.len() - 1]));
        lemma_trailing_spaces_unique(s.take(s.len() - 1), k - 1);
    }
}

/// A subrange whose outside is all whitespace and whose ends are not is
/// exactly the trimmed sequence.
pub proof fn lemma_trim_seq_subrange(s: Seq<char>, a: int, b: int)
    requires
        0 <= a <= b <= s.len(),
        forall|j: int| 0 <= j < a ==> is_space(s[j]),
        forall|j: int| b <= j < s.len() ==> is_space(s[j]),
        a < b ==> !is_space(s[a]) && !is_space(s[b - 1]),
    ensures
        trim_seq(s) == s.subrange(a, b),
{
    if a == b {
        assert(forall|j: int| 0 <= j < s.len() ==> is_space(s[j]));
        lemma_leading_spaces_unique(s, s.len() as int);
        assert(trim_seq(s) =~= s.subrange(a, b));
    } else {
        lemma_leading_spaces_unique(s, a);
        let t = s.skip(a);
        assert(t.len() == s.len() - a);
        assert forall|j: int| t.len() - (s.len() - b) <= j < t.len() implies is_space(t[j]) by {
            assert(t[j] == s[a + j]);
        }
        assert(t[t.len() - (s.len() - b) - 1] == s[b - 1]);
        lemma_trailing_spaces_unique(t, s.len() - b);
        assert(trim_seq(s) =~= s.subrange(a, b));
    }
}

/// Trimming and lower-case folding commute: folding first and trimming
/// afterwards gives the same sequence as trimming first and folding
/// afterwards.
pub proof fn lemma_normal_order(s: Seq<char>)
    ensures
        trim_seq(lower_seq(s)) == lower_seq(trim_seq(s)),
{
    let ls = lower_seq(s);
    lemma_leading_spaces(s);
    lemma_trailing_spaces(s);
    if leading_spaces(s) == s.len() {
        assert forall|j: int| 0 <= j < s.len() implies is_space(s[j]) by {}
        lemma_trim_seq_subrange(s, s.len() as int, s.len() as int);
        assert forall|j: int| 0 <= j < ls.len() implies is_space(ls[j]) by {
            assert(ls[j] == lower_char(s[j]));
        }
        lemma_trim_seq_subrange(ls, ls.len() as int, ls.len() as int);
        assert(trim_seq(ls) =~= lower_seq(trim_seq(s)));
    } else {
        let a = leading_spaces(s);
        let b = s.len() - trailing_spaces(s);
        assert(!is_space(s[a]));
        if b <= a {
            assert(is_space(s[a]));
        }
        assert(a < b);
        assert(!is_space(s[b - 1]));
        lemma_trim_seq_subrange(s, a, b);
        assert forall|j: int| 0 <= j < ls.len() implies is_space(ls[j]) == is_space(s[j]) by {
            assert(ls[j] == lower_char(s[j]));
        }
        lemma_trim_seq_subrange(ls, a, b);
        assert(ls.subrange(a, b) =~= lower_seq(s.subrange(a, b)));
    }
}

/// Executable test for [`is_space`].
pub fn is_space_char(c: char) -> (r: bool)
    ensures
        r == is_space(c),
{
    c == ' ' || c == '\t' || c == '\n' || c == '\r'
}

/// Executable lower-case folding of one character.
pub fn to_lower_char(c: char) -> (r: char)
    ensures
        r == lower_char(c),
{
    match c {
        'A' => 'a',
        'B' => 'b',
        'C' => 'c',
        'D' => 'd',
        'E' => 'e',
        'F' => 'f',
        'G' => 'g',
        'H' => 'h',
        'I' => 'i',
        'J' => 'j',
        'K' => 'k',
        'L' => 'l',
        'M' => 'm',
        'N' => 'n',
        'O' => 'o',
        'P' => 'p',
        'Q' => 'q',
        'R' => 'r',
        'S' => 's',
        'T' => 't',
        'U' => 'u',
        'V' => 'v',
        'W' => 'w',
        'X' => 'x',
        'Y' => 'y',
        'Z' => 'z',
        'Ä' => 'ä',
        'Ö' => 'ö',
        'Ü' => 'ü',
        _ => c,
    }
}

/// Executable upper-case folding of one character.
pub fn to_upper_char(c: char) -> (r: char)
    ensures
        r == upper_char(c),
{
    match c {
        'a' => 'A',
        'b' => 'B',
        'c' => 'C',
        'd' => 'D',
        'e' => 'E',
        'f' => 'F',
        'g' => 'G',
        'h' => 'H',
        'i' => 'I',
        'j' => 'J',
        'k' => 'K',
        'l' => 'L',
        'm' => 'M',
        'n' => 'N',
        'o' => 'O',
        'p' => 'P',
        'q' => 'Q',
        'r' => 'R',
        's' => 'S',
        't' => 'T',
        'u' => 'U',
        'v' => 'V',
        'w' => 'W',
        'x' => 'X',
        'y' => 'Y',
        'z' => 'Z',
        'ä' => 'Ä',
        'ö' => 'Ö',
        'ü' => 'Ü',
        _ => c,
    }
}

/// Executable test for [`is_letter`].
pub fn is_letter_char(c: char) -> (r: bool)
    ensures
        r == is_letter(c),
{
    to_lower_char(c) != c || to_upper_char(c) != c
}

/// `v` with leading and trailing whitespace removed.
pub fn trim_chars(v: &Vec<char>) -> (r: Vec<char>)
    ensures
        r@ == trim_seq(v@),
{
    let n = v.len();
    let mut start: usize = 0;
    while start < n && is_space_char(v[start])
        invariant
            n == v@.len(),
            start <= n,
            forall|j: int| 0 <= j < start ==> is_space(v@[j]),
        decreases n - start,
    {
        start = start + 1;
    }
    let mut end: usize = n;
    while end > start && is_space_char(v[end - 1])
        invariant
            n == v@.len(),
            start <= end <= n,
            forall|j: int| end <= j < n ==> is_space(v@[j]),
        decreases end,
    {
        end = end - 1;
    }
    proof {
        lemma_trim_seq_subrange(v@, start as int, end as int);
    }
    let mut r: Vec<char> = Vec::new();
    let mut i: usize = start;
    while i < end
        invariant
            start <= i <= end <= v@.len(),
            r@ =~= v@.subrange(start as int, i as int),
        decreases end - i,
    {
        r.push(v[i]);
        i = i + 1;
    }
    proof {
        assert(r@ =~= v@.subrange(start as int, end as int));
    }
    r
}

/// Pointwise lower-case folding of `v`.
pub fn lower_chars(v: &Vec<char>) -> (r: Vec<char>)
    ensures
        r@ == lower_seq(v@),
{
    let mut r: Vec<char> = Vec::new();
    let mut i: usize = 0;
    while i < v.len()
        invariant
            i <= v@.len(),
            r@ =~= lower_seq(v@.take(i as int)),
        decreases v@.len() - i,
    {
        let c = to_lower_char(v[i]);
        r.push(c);
        i = i + 1;
        proof {
            assert(r@ =~= lower_seq(v@.take(i as int)));
        }
    }
    proof {
        assert(v@.take(v@.len() as int) =~= v@);
        assert(r@ =~= lower_seq(v@));
    }
    r
}

/// The normal form of an answer: trimmed, then folded to lower case.
pub fn normal_chars(v: &Vec<char>) -> (r: Vec<char>)
    ensures
        r@ == normal_seq(v@),
{
    let t = trim_chars(v);
    lower_chars(&t)
}

/// A fresh vector with the same characters.
pub fn copy_chars(v: &Vec<char>) -> (r: Vec<char>)
    ensures
        r@ == v@,
{
    let mut r: Vec<char> = Vec::new();
    let mut i: usize = 0;
    while i < v.len()
        invariant
            i <= v@.len(),
            r@ =~= v@.take(i as int),
        decreases v@.len() - i,
    {
        r.push(v[i]);
        i = i + 1;
    }
    proof {
        assert(r@ =~= v@);
    }
    r
}

/// Equality of two character vectors, element by element.
pub fn chars_eq(a: &Vec<char>, b: &Vec<char>) -> (r: bool)
    ensures
        r == (a@ == b@),
{
    if a.len() != b.len() {
        return false;
    }
    let mut i: usize = 0;
    while i < a.len()
        invariant
            a@.len() == b@.len(),
            i <= a@.len(),
            forall|j: int| 0 <= j < i ==> a@[j] == b@[j],
        decreases a@.len() - i,
    {
        if a[i] != b[i] {
            return false;
        }
        i = i + 1;
    }
    proof {
        assert(a@ =~= b@);
    }
    true
}

} // verus!
