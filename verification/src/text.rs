//! Verified text utilities shared by the parser, the word state machine
//! and the subprocess output classifier: character-exact string equality,
//! substring search, field splitting, trimming and slug derivation.
use vstd::prelude::*;

verus! {

/// True when `needle` occurs in `hay` starting at index `i`.
pub open spec fn occurs_at(hay: Seq<char>, needle: Seq<char>, i: int) -> bool {
    0 <= i && i + needle.len() <= hay.len() && hay.subrange(i, i + needle.len() as int)
        == needle
}

/// True when `needle` occurs somewhere in `hay`.
pub open spec fn contains_sub(hay: Seq<char>, needle: Seq<char>) -> bool {
    exists|i: int| occurs_at(hay, needle, i)
}

/// Character-exact equality of two string slices.
pub fn str_eq(a: &str, b: &str) -> (r: bool)
    ensures
        r == (a@ == b@),
{
    let alen: usize = a.unicode_len();
    let blen: usize = b.unicode_len();
    if alen != blen {
        proof {
            assert(a@ != b@);
        }
        return false;
    }
    let mut i: usize = 0;
    while i < alen
        invariant
            alen == a@.len(),
            blen == b@.len(),
            alen == blen,
            0 <= i <= alen,
            forall|j: int| 0 <= j < i ==> a@[j] == b@[j],
        decreases alen - i,
    {
        if a.get_char(i) != b.get_char(i) {
            proof {
                assert(a@ != b@);
            }
            return false;
        }
        i += 1;
    }
    proof {
        assert(a@ =~= b@);
    }
    true
}

/// True when `hay` holds `needle` starting at index `at`; character-exact.
fn matches_at(hay: &str, needle: &str, at: usize) -> (r: bool)
    requires
        at + needle@.len() <= hay@.len(),
    ensures
        r == occurs_at(hay@, needle@, at as int),
{
    let hlen: usize = hay.unicode_len();
    let nlen: usize = needle.unicode_len();
    let mut j: usize = 0;
    while j < nlen
        invariant
            hlen == hay@.len(),
            nlen == needle@.len(),
            at + nlen <= hlen,
            0 <= j <= nlen,
            forall|k: int| 0 <= k < j ==> hay@[at + k] == needle@[k],
        decreases nlen - j,
    {
        if hay.get_char(at + j) != needle.get_char(j) {
            proof {
                assert(hay@.subrange(at as int, at + nlen) != needle@) by {
                    assert(hay@.subrange(at as int, at + nlen)[j as int] != needle@[j as int]);
                }
            }
            return false;
        }
        j += 1;
    }
    proof {
        assert(hay@.subrange(at as int, at + nlen) =~= needle@);
    }
    true
}

/// Index of the first occurrence of `needle` in `hay`, if any.
pub fn find_sub(hay: &str, needle: &str) -> (r: Option<usize>)
    ensures
        match r {
            Some(i) => occurs_at(hay@, needle@, i as int) && forall|j: int|
                0 <= j < i ==> !occurs_at(hay@, needle@, j),
            None => !contains_sub(hay@, needle@),
        },
{
    let hlen: usize = hay.unicode_len();
    let nlen: usize = needle.unicode_len();
    if nlen > hlen {
        return None;
    }
    if nlen == 0 {
        proof {
            assert(hay@.subrange(0, 0) =~= needle@);
        }
        return Some(0);
    }
    let bound: usize = hlen - nlen;
    let mut i: usize = 0;
    while i <= bound
        invariant
            hlen == hay@.len(),
            nlen == needle@.len(),
            1 <= nlen <= hlen,
            bound == hlen - nlen,
            0 <= i <= bound + 1,
            forall|j: int| 0 <= j < i ==> !occurs_at(hay@, needle@, j),
        decreases bound + 1 - i,
    {
        if matches_at(hay, needle, i) {
            return Some(i);
        }
        i += 1;
    }
    None
}

/// True when `needle` occurs somewhere in `hay`; character-exact.
pub fn contains_str(hay: &str, needle: &str) -> (r: bool)
    ensures
        r == contains_sub(hay@, needle@),
{
    match find_sub(hay, needle) {
        Some(_) => true,
        None => false,
    }
}

/// Relies on `String::push`: appends the given character to the end of the string.
pub assume_specification[ String::push ](s: &mut String, c: char)
    ensures
        final(s)@ == old(s)@.push(c),
;

/// Index of the first occurrence of `sep` in `s`, or `s.len()` when absent.
pub open spec fn first_sep(s: Seq<char>, sep: char) -> int
    decreases s.len(),
{
    if s.len() == 0 {
        0
    } else if s[0] == sep {
        0
    } else {
        1 + first_sep(s.drop_first(), sep)
    }
}

/// The first separator index is the unique position preceded by no separator.
pub proof fn lemma_first_sep_is(s: Seq<char>, sep: char, k: int)
    requires
        0 <= k <= s.len(),
        forall|j: int| 0 <= j < k ==> s[j] != sep,
        k < s.len() ==> s[k] == sep,
    ensures
        first_sep(s, sep) == k,
    decreases s.len(),
{
    if s.len() == 0 {
    } else if s[0] == sep {
        assert(k == 0);
    } else {
        assert(k >= 1);
        let t = s.drop_first();
        assert(forall|j: int| 0 <= j < k - 1 ==> t[j] == s[j + 1] && t[j] != sep);
        lemma_first_sep_is(t, sep, k - 1);
    }
}

/// `s` split on `sep`: the separated pieces in order, separators removed.
/// A leading, trailing or doubled separator yields an empty piece, as
/// `str::split` does.
pub open spec fn split_on(s: Seq<char>, sep: char) -> Seq<Seq<char>>
    decreases s.len(),
{
    let i = first_sep(s, sep);
    if 0 <= i < s.len() {
        seq![s.subrange(0, i)] + split_on(s.subrange(i + 1, s.len() as int), sep)
    } else {
        seq![s]
    }
}

/// Splitting a separator-free piece, a separator, and a rest.
proof fn lemma_split_on_step(s: Seq<char>, sep: char, k: int)
    requires
        0 <= k < s.len(),
        forall|j: int| 0 <= j < k ==> s[j] != sep,
        s[k] == sep,
    ensures
        split_on(s, sep) == seq![s.subrange(0, k)] + split_on(
            s.subrange(k + 1, s.len() as int),
            sep,
        ),
{
    lemma_first_sep_is(s, sep, k);
}

/// A separator-free sequence splits into itself alone.
proof fn lemma_split_on_whole(s: Seq<char>, sep: char)
    requires
        forall|j: int| 0 <= j < s.len() ==> s[j] != sep,
    ensures
        split_on(s, sep) == seq![s],
{
    lemma_first_sep_is(s, sep, s.len() as int);
}

/// Splits `s` on the character `sep`, as `str::split` does.
pub fn split_char(s: &str, sep: char) -> (parts: Vec<String>)
    ensures
        parts.deep_view() == split_on(s@, sep),
{
    let slen: usize = s.unicode_len();
    let mut parts: Vec<String> = Vec::new();
    let mut cur: String = String::new();
    let mut start: usize = 0;
    let mut i: usize = 0;
    proof {
        assert(s@.subrange(0, slen as int) =~= s@);
        assert(cur@ =~= s@.subrange(0, 0));
        assert(parts.deep_view() + split_on(s@, sep) =~= split_on(s@, sep));
    }
    while i < slen
        invariant
            slen == s@.len(),
            0 <= start <= i <= slen,
            cur@ == s@.subrange(start as int, i as int),
            forall|j: int| start <= j < i ==> s@[j] != sep,
            split_on(s@, sep) == parts.deep_view() + split_on(
                s@.subrange(start as int, slen as int),
                sep,
            ),
        decreases slen - i,
    {
        let c = s.get_char(i);
        if c == sep {
            proof {
                let suffix = s@.subrange(start as int, slen as int);
                let k = i - start;
                assert(forall|j: int| 0 <= j < k ==> suffix[j] == s@[start + j] && suffix[j]
                    != sep);
                assert(suffix[k] == sep);
                lemma_split_on_step(suffix, sep, k);
                assert(suffix.subrange(0, k) =~= s@.subrange(start as int, i as int));
                assert(suffix.subrange(k + 1, suffix.len() as int) =~= s@.subrange(
                    i + 1,
                    slen as int,
                ));
            }
            let ghost old_parts = parts.deep_view();
            parts.push(cur);
            proof {
                assert(parts.deep_view() =~= old_parts.push(s@.subrange(
                    start as int,
                    i as int,
                )));
                assert(parts.deep_view() =~= old_parts + seq![s@.subrange(
                    start as int,
                    i as int,
                )]);
            }
            cur = String::new();
            start = i + 1;
            proof {
                assert(cur@ =~= s@.subrange(start as int, start as int));
            }
        } else {
            cur.push(c);
            proof {
                assert(cur@ =~= s@.subrange(start as int, i + 1));
            }
        }
        i += 1;
    }
    proof {
        let suffix = s@.subrange(start as int, slen as int);
        assert(forall|j: int| 0 <= j < suffix.len() ==> suffix[j] == s@[start + j] && suffix[j]
            != sep);
        lemma_split_on_whole(suffix, sep);
        assert(cur@ =~= suffix);
    }
    let ghost old_parts = parts.deep_view();
    parts.push(cur);
    proof {
        assert(parts.deep_view() =~= old_parts + seq![s@.subrange(start as int, slen as int)]);
    }
    parts
}

/// True of the characters this library treats as blank when trimming.
pub open spec fn is_space(c: char) -> bool {
    c == ' ' || c == '\n' || c == '\t' || c == '\r'
}

/// `s` without leading blank characters.
pub open spec fn trim_front(s: Seq<char>) -> Seq<char>
    decreases s.len(),
{
    if s.len() > 0 && is_space(s[0]) {
        trim_front(s.drop_first())
    } else {
        s
    }
}

/// `s` without trailing blank characters.
pub open spec fn trim_back(s: Seq<char>) -> Seq<char>
    decreases s.len(),
{
    if s.len() > 0 && is_space(s.last()) {
        trim_back(s.drop_last())
    } else {
        s
    }
}

/// `s` without leading or trailing blank characters.
pub open spec fn trimmed(s: Seq<char>) -> Seq<char> {
    trim_back(trim_front(s))
}

proof fn lemma_trim_front_is(s: Seq<char>, a: int)
    requires
        0 <= a <= s.len(),
        forall|j: int| 0 <= j < a ==> is_space(s[j]),
        a < s.len() ==> !is_space(s[a]),
    ensures
        trim_front(s) == s.subrange(a, s.len() as int),
    decreases s.len(),
{
    if s.len() == 0 {
        assert(trim_front(s) =~= s.subrange(a, s.len() as int));
    } else if is_space(s[0]) && a > 0 {
        let t = s.drop_first();
        assert(forall|j: int| 0 <= j < a - 1 ==> t[j] == s[j + 1] && is_space(t[j]));
        lemma_trim_front_is(t, a - 1);
        assert(t.subrange(a - 1, t.len() as int) =~= s.subrange(a, s.len() as int));
    } else {
        assert(a == 0);
        assert(trim_front(s) =~= s.subrange(0, s.len() as int));
    }
}

proof fn lemma_trim_back_is(s: Seq<char>, b: int)
    requires
        0 <= b <= s.len(),
        forall|j: int| b <= j < s.len() ==> is_space(s[j]),
        b > 0 ==> !is_space(s[b - 1]),
    ensures
        trim_back(s) == s.subrange(0, b),
    decreases s.len(),
{
    if s.len() == 0 {
        assert(trim_back(s) =~= s.subrange(0, b));
    } else if is_space(s.last()) && b < s.len() {
        let t = s.drop_last();
        lemma_trim_back_is(t, b);
        assert(t.subrange(0, b) =~= s.subrange(0, b));
    } else {
        assert(b == s.len());
        assert(trim_back(s) =~= s.subrange(0, b));
    }
}

/// Copy of `s` without leading or trailing blank characters.
pub fn trim_str(s: &str) -> (r: String)
    ensures
        r@ == trimmed(s@),
{
    let slen: usize = s.unicode_len();
    let mut a: usize = 0;
    while a < slen && is_space_char(s.get_char(a))
        invariant
            slen == s@.len(),
            0 <= a <= slen,
            forall|j: int| 0 <= j < a ==> is_space(s@[j]),
        decreases slen - a,
    {
        a += 1;
    }
    proof {
        lemma_trim_front_is(s@, a as int);
    }
    let mut b: usize = slen;
    while b > a && is_space_char(s.get_char(b - 1))
        invariant
            slen == s@.len(),
            0 <= a <= b <= slen,
            forall|j: int| 0 <= j < a ==> is_space(s@[j]),
            a < slen ==> !is_space(s@[a as int]),
            forall|j: int| b <= j < slen ==> is_space(s@[j]),
        decreases b,
    {
        b -= 1;
    }
    let piece = s.substring_char(a, b);
    proof {
        let front = s@.subrange(a as int, slen as int);
        if b > a {
            lemma_trim_back_is(front, b - a);
        } else {
            assert(forall|j: int| 0 <= j < front.len() ==> is_space(front[j]));
            lemma_trim_back_is(front, 0);
        }
        assert(front.subrange(0, b - a) =~= s@.subrange(a as int, b as int));
    }
    piece.to_owned()
}

/// Executable form of `is_space`.
pub fn is_space_char(c: char) -> (r: bool)
    ensures
        r == is_space(c),
{
    c == ' ' || c == '\n' || c == '\t' || c == '\r'
}

/// The slug of `s`: `s` trimmed, with each blank character replaced by a hyphen.
pub open spec fn slug_of(s: Seq<char>) -> Seq<char> {
    trimmed(s).map_values(|c: char| if is_space(c) { '-' } else { c })
}

/// Derives a filesystem-safe slug from free text.
pub fn slugify(s: &str) -> (r: String)
    ensures
        r@ == slug_of(s@),
{
    let t = trim_str(s);
    let tref = t.as_str();
    let tlen: usize = tref.unicode_len();
    let mut out = String::new();
    let mut i: usize = 0;
    while i < tlen
        invariant
            tlen == t@.len(),
            tref@ == t@,
            0 <= i <= tlen,
            out@ == t@.subrange(0, i as int).map_values(
                |c: char| if is_space(c) { '-' } else { c },
            ),
        decreases tlen - i,
    {
        let c = tref.get_char(i);
        if is_space_char(c) {
            out.push('-');
        } else {
            out.push(c);
        }
        proof {
            assert(out@ =~= t@.subrange(0, i + 1).map_values(
                |c: char| if is_space(c) { '-' } else { c },
            ));
        }
        i += 1;
    }
    proof {
        assert(t@.subrange(0, tlen as int) =~= t@);
        assert(out@ =~= slug_of(s@));
    }
    out
}

} // verus!
