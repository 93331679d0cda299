//! Character-sequence helpers shared by the token parser, the line assembler
//! and the progress classifier: first-occurrence searches, ASCII
//! case-insensitive substring matching, whitespace trimming and digit runs.

use vstd::prelude::*;
use vstd::string::StrSliceExecFns;

verus! {

/// Index of the first occurrence of `c` in `s` at or after `from`, or
/// `s.len()` if there is none.
pub open spec fn find_char_from(s: Seq<char>, c: char, from: int) -> int
    decreases s.len() - from,
{
    if from < 0 || from >= s.len() {
        s.len() as int
    } else if s[from] == c {
        from
    } else {
        find_char_from(s, c, from + 1)
    }
}

pub proof fn lemma_find_char_from_properties(s: Seq<char>, c: char, from: int)
    requires
        0 <= from <= s.len(),
    ensures
        from <= find_char_from(s, c, from) <= s.len(),
        find_char_from(s, c, from) < s.len() ==> s[find_char_from(s, c, from)] == c,
        forall|j: int| from <= j < find_char_from(s, c, from) ==> s[j] != c,
    decreases s.len() - from,
{
    if from < s.len() && s[from] != c {
        lemma_find_char_from_properties(s, c, from + 1);
    }
}

/// If `s` has no `c` in `[from, i)`, and `c` stands at `i` (or `i` is the
/// end), then the search from `from` stops at `i`.
pub proof fn lemma_find_char_from_exact(s: Seq<char>, c: char, from: int, i: int)
    requires
        0 <= from <= i <= s.len(),
        forall|j: int| from <= j < i ==> s[j] != c,
        i < s.len() ==> s[i] == c,
    ensures
        find_char_from(s, c, from) == i,
    decreases i - from,
{
    if from < i {
        lemma_find_char_from_exact(s, c, from + 1, i);
    }
}

/// Finds the first occurrence of `c` in `s` at or after `from`.
pub fn find_char(s: &str, c: char, from: usize) -> (r: usize)
    requires
        from <= s@.len(),
    ensures
        r == find_char_from(s@, c, from as int),
{
    let n = s.unicode_len();
    let mut i: usize = from;
    while i < n && s.get_char(i) != c
        invariant
            from <= i <= n,
            n == s@.len(),
            forall|j: int| from <= j < i ==> s@[j] != c,
        decreases n - i,
    {
        i = i + 1;
    }
    proof {
        lemma_find_char_from_exact(s@, c, from as int, i as int);
    }
    i
}

/// The code point of `c` with an ASCII capital folded to its small letter.
pub open spec fn lower_code(c: char) -> int {
    if 'A' <= c && c <= 'Z' {
        c as int + 32
    } else {
        c as int
    }
}

/// ASCII case-insensitive character equality.
pub open spec fn chars_eq_ci(a: char, b: char) -> bool {
    lower_code(a) == lower_code(b)
}

/// `pat` matches `s` at position `i`, ignoring ASCII case.
pub open spec fn matches_ci_at(s: Seq<char>, pat: Seq<char>, i: int) -> bool {
    &&& 0 <= i
    &&& i + pat.len() <= s.len()
    &&& forall|j: int| 0 <= j < pat.len() ==> chars_eq_ci(s[i + j], pat[j])
}

/// `s` contains `pat` somewhere, ignoring ASCII case.
pub open spec fn contains_ci(s: Seq<char>, pat: Seq<char>) -> bool {
    exists|i: int| matches_ci_at(s, pat, i)
}

/// `pat` matches `s` at position `i` exactly.
pub open spec fn matches_at(s: Seq<char>, pat: Seq<char>, i: int) -> bool {
    &&& 0 <= i
    &&& i + pat.len() <= s.len()
    &&& forall|j: int| 0 <= j < pat.len() ==> s[i + j] == pat[j]
}

/// `s` contains `pat` somewhere.
pub open spec fn contains_seq(s: Seq<char>, pat: Seq<char>) -> bool {
    exists|i: int| matches_at(s, pat, i)
}

fn char_eq_ci(a: char, b: char) -> (r: bool)
    ensures
        r == chars_eq_ci(a, b),
{
    let la: u32 = if a >= 'A' && a <= 'Z' {
        a as u32 + 32
    } else {
        a as u32
    };
    let lb: u32 = if b >= 'A' && b <= 'Z' {
        b as u32 + 32
    } else {
        b as u32
    };
    la == lb
}

/// Whether `pat` occurs in `s`, ignoring ASCII case.
pub fn str_contains_ci(s: &str, pat: &str) -> (r: bool)
    ensures
        r == contains_ci(s@, pat@),
{
    let n = s.unicode_len();
    let m = pat.unicode_len();
    if m > n {
        proof {
            assert(forall|i: int| !matches_ci_at(s@, pat@, i));
        }
        return false;
    }
    let mut i: usize = 0;
    while i <= n - m
        invariant
            m <= n,
            n == s@.len(),
            m == pat@.len(),
            0 <= i <= n - m + 1,
            forall|k: int| 0 <= k < i ==> !matches_ci_at(s@, pat@, k),
        decreases n + 1 - i,
    {
        let mut j: usize = 0;
        while j < m && char_eq_ci(s.get_char(i + j), pat.get_char(j))
            invariant
                m <= n,
                n == s@.len(),
                m == pat@.len(),
                0 <= i <= n - m,
                0 <= j <= m,
                forall|t: int| 0 <= t < j ==> chars_eq_ci(s@[i + t], pat@[t]),
            decreases m - j,
        {
            j = j + 1;
        }
        if j == m {
            proof {
                assert(matches_ci_at(s@, pat@, i as int));
            }
            return true;
        }
        proof {
            assert(!matches_ci_at(s@, pat@, i as int));
        }
        i = i + 1;
    }
    proof {
        assert forall|k: int| !matches_ci_at(s@, pat@, k) by {
            if 0 <= k && k + m <= n {
                assert(k < i);
            }
        }
    }
    false
}

/// Whether `pat` occurs in `s` exactly.
pub fn str_contains(s: &str, pat: &str) -> (r: bool)
    ensures
        r == contains_seq(s@, pat@),
{
    let n = s.unicode_len();
    let m = pat.unicode_len();
    if m > n {
        proof {
            assert(forall|i: int| !matches_at(s@, pat@, i));
        }
        return false;
    }
    let mut i: usize = 0;
    while i <= n - m
        invariant
            m <= n,
            n == s@.len(),
            m == pat@.len(),
            0 <= i <= n - m + 1,
            forall|k: int| 0 <= k < i ==> !matches_at(s@, pat@, k),
        decreases n + 1 - i,
    {
        let mut j: usize = 0;
        while j < m && s.get_char(i + j) == pat.get_char(j)
            invariant
                m <= n,
                n == s@.len(),
                m == pat@.len(),
                0 <= i <= n - m,
                0 <= j <= m,
                forall|t: int| 0 <= t < j ==> s@[i + t] == pat@[t],
            decreases m - j,
        {
            j = j + 1;
        }
        if j == m {
            proof {
                assert(matches_at(s@, pat@, i as int));
            }
            return true;
        }
        proof {
            assert(!matches_at(s@, pat@, i as int));
        }
        i = i + 1;
    }
    proof {
        assert forall|k: int| !matches_at(s@, pat@, k) by {
            if 0 <= k && k + m <= n {
                assert(k < i);
            }
        }
    }
    false
}

/// Whether two strings hold the same characters.
pub fn str_eq(a: &str, b: &str) -> (r: bool)
    ensures
        r == (a@ == b@),
{
    let na = a.unicode_len();
    let nb = b.unicode_len();
    if na != nb {
        return false;
    }
    let mut i: usize = 0;
    while i < na
        invariant
            0 <= i <= na,
            na == a@.len(),
            na == b@.len(),
            forall|j: int| 0 <= j < i ==> a@[j] == b@[j],
        decreases na - i,
    {
        if a.get_char(i) != b.get_char(i) {
            return false;
        }
        i = i + 1;
    }
    proof {
        assert(a@ =~= b@);
    }
    true
}

/// The whitespace characters stripped from the ends of an output line.
pub open spec fn is_space(c: char) -> bool {
    c == ' ' || c == '\t' || c == '\r' || c == '\n'
}

pub fn char_is_space(c: char) -> (r: bool)
    ensures
        r == is_space(c),
{
    c == ' ' || c == '\t' || c == '\r' || c == '\n'
}

/// `s` with leading and trailing whitespace removed.
pub open spec fn trim_spec(s: Seq<char>) -> Seq<char>
    decreases s.len(),
{
    if s.len() == 0 {
        s
    } else if is_space(s[0]) {
        trim_spec(s.skip(1))
    } else if is_space(s[s.len() - 1]) {
        trim_spec(s.take(s.len() - 1))
    } else {
        s
    }
}

/// Trims leading and trailing whitespace from `s`.
pub fn str_trim(s: &str) -> (r: &str)
    ensures
        r@ == trim_spec(s@),
{
    let n = s.unicode_len();
    proof {
        assert(s@.skip(0) =~= s@);
    }
    let mut a: usize = 0;
    while a < n && char_is_space(s.get_char(a))
        invariant
            0 <= a <= n,
            n == s@.len(),
            forall|j: int| 0 <= j < a ==> is_space(s@[j]),
            trim_spec(s@) == trim_spec(s@.skip(a as int)),
        decreases n - a,
    {
        proof {
            assert(s@.skip(a as int).skip(1) =~= s@.skip(a + 1));
        }
        a = a + 1;
    }
    proof {
        assert(s@.skip(a as int) =~= s@.subrange(a as int, n as int));
    }
    let mut b: usize = n;
    while b > a && char_is_space(s.get_char(b - 1))
        invariant
            0 <= a <= b <= n,
            n == s@.len(),
            a < n ==> !is_space(s@[a as int]),
            trim_spec(s@) == trim_spec(s@.subrange(a as int, b as int)),
        decreases b,
    {
        proof {
            let seg = s@.subrange(a as int, b as int);
            assert(seg.len() > 0);
            assert(is_space(seg[seg.len() - 1]));
            if is_space(seg[0]) {
                assert(a < n && is_space(s@[a as int]));
            }
            assert(seg.take(seg.len() - 1) =~= s@.subrange(a as int, b - 1));
        }
        b = b - 1;
    }
    proof {
        let seg = s@.subrange(a as int, b as int);
        if seg.len() > 0 {
            assert(!is_space(seg[0]));
            assert(!is_space(seg[seg.len() - 1]));
        }
        assert(trim_spec(seg) == seg);
    }
    s.substring_char(a, b)
}

/// Whether `c` is a decimal digit.
pub open spec fn is_digit(c: char) -> bool {
    '0' <= c && c <= '9'
}

pub fn char_is_digit(c: char) -> (r: bool)
    ensures
        r == is_digit(c),
{
    c >= '0' && c <= '9'
}

/// Index of the first decimal digit in `s` at or after `from`, or `s.len()`.
pub open spec fn find_digit_from(s: Seq<char>, from: int) -> int
    decreases s.len() - from,
{
    if from < 0 || from >= s.len() {
        s.len() as int
    } else if is_digit(s[from]) {
        from
    } else {
        find_digit_from(s, from + 1)
    }
}

pub proof fn lemma_find_digit_from_properties(s: Seq<char>, from: int)
    requires
        0 <= from <= s.len(),
    ensures
        from <= find_digit_from(s, from) <= s.len(),
        find_digit_from(s, from) < s.len() ==> is_digit(s[find_digit_from(s, from)]),
    decreases s.len() - from,
{
    if from < s.len() && !is_digit(s[from]) {
        lemma_find_digit_from_properties(s, from + 1);
    }
}

pub proof fn lemma_find_digit_from_exact(s: Seq<char>, from: int, i: int)
    requires
        0 <= from <= i <= s.len(),
        forall|j: int| from <= j < i ==> !is_digit(s[j]),
        i < s.len() ==> is_digit(s[i]),
    ensures
        find_digit_from(s, from) == i,
    decreases i - from,
{
    if from < i {
        lemma_find_digit_from_exact(s, from + 1, i);
    }
}

/// Finds the first decimal digit in `s` at or after `from`.
pub fn find_digit(s: &str, from: usize) -> (r: usize)
    requires
        from <= s@.len(),
    ensures
        r == find_digit_from(s@, from as int),
{
    let n = s.unicode_len();
    let mut i: usize = from;
    while i < n && !char_is_digit(s.get_char(i))
        invariant
            from <= i <= n,
            n == s@.len(),
            forall|j: int| from <= j < i ==> !is_digit(s@[j]),
        decreases n - i,
    {
        i = i + 1;
    }
    proof {
        lemma_find_digit_from_exact(s@, from as int, i as int);
    }
    i
}

/// End of the run of decimal digits starting at `from`: the first index at or
/// after `from` holding no digit, or `s.len()`.
pub open spec fn digit_run_end(s: Seq<char>, from: int) -> int
    decreases s.len() - from,
{
    if from < 0 || from >= s.len() {
        s.len() as int
    } else if is_digit(s[from]) {
        digit_run_end(s, from + 1)
    } else {
        from
    }
}

pub proof fn lemma_digit_run_end_properties(s: Seq<char>, from: int)
    requires
        0 <= from <= s.len(),
    ensures
        from <= digit_run_end(s, from) <= s.len(),
    decreases s.len() - from,
{
    if from < s.len() && is_digit(s[from]) {
        lemma_digit_run_end_properties(s, from + 1);
    }
}

pub proof fn lemma_digit_run_end_exact(s: Seq<char>, from: int, i: int)
    requires
        0 <= from <= i <= s.len(),
        forall|j: int| from <= j < i ==> is_digit(s[j]),
        i < s.len() ==> !is_digit(s[i]),
    ensures
        digit_run_end(s, from) == i,
    decreases i - from,
{
    if from < i {
        lemma_digit_run_end_exact(s, from + 1, i);
    }
}

/// Finds the end of the digit run starting at `from`.
pub fn digit_run(s: &str, from: usize) -> (r: usize)
    requires
        from <= s@.len(),
    ensures
        r == digit_run_end(s@, from as int),
{
    let n = s.unicode_len();
    let mut i: usize = from;
    while i < n && char_is_digit(s.get_char(i))
        invariant
            from <= i <= n,
            n == s@.len(),
            forall|j: int| from <= j < i ==> is_digit(s@[j]),
        decreases n - i,
    {
        i = i + 1;
    }
    proof {
        lemma_digit_run_end_exact(s@, from as int, i as int);
    }
    i
}

} // verus!
