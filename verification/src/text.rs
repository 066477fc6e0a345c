//! Small verified string utilities that the rest of the library builds on:
//! character search, suffix tests, substring tests and space-joining.

use vstd::prelude::*;

verus! {

/// Compares two string slices character by character.
pub fn str_eq(a: &str, b: &str) -> (r: bool)
    ensures
        r == (a@ == b@),
{
    let n = a.unicode_len();
    if n != b.unicode_len() {
        return false;
    }
    let mut i: usize = 0;
    while i < n
        invariant
            n == a@.len(),
            n == b@.len(),
            0 <= i <= n,
            forall|j: int| 0 <= j < i ==> a@[j] == b@[j],
        decreases n - i,
    {
        if a.get_char(i) != b.get_char(i) {
            return false;
        }
        i += 1;
    }
    proof {
        assert(a@ =~= b@);
    }
    true
}

/// Index of the first occurrence of `c` in `s`, or `s.len()` when `c` does
/// not occur.
pub open spec fn first_idx_of(s: Seq<char>, c: char) -> int
    decreases s.len(),
{
    if s.len() == 0 {
        0
    } else if s[0] == c {
        0
    } else {
        1 + first_idx_of(s.drop_first(), c)
    }
}

pub proof fn lemma_first_idx_of(s: Seq<char>, c: char)
    ensures
        0 <= first_idx_of(s, c) <= s.len(),
        first_idx_of(s, c) < s.len() ==> s[first_idx_of(s, c)] == c,
        forall|j: int| 0 <= j < first_idx_of(s, c) ==> s[j] != c,
    decreases s.len(),
{
    if s.len() == 0 {
    } else if s[0] == c {
    } else {
        lemma_first_idx_of(s.drop_first(), c);
        assert forall|j: int| 0 <= j < first_idx_of(s, c) implies s[j] != c by {
            if j > 0 {
                assert(s.drop_first()[j - 1] == s[j]);
            }
        }
    }
}

/// The characterisation of `first_idx_of` is unique: any position `i` whose
/// prefix is free of `c` and that either carries `c` or is the end of the
/// string is the first index.
pub proof fn lemma_first_idx_is(s: Seq<char>, c: char, i: int)
    requires
        0 <= i <= s.len(),
        i < s.len() ==> s[i] == c,
        forall|j: int| 0 <= j < i ==> s[j] != c,
    ensures
        first_idx_of(s, c) == i,
{
    lemma_first_idx_of(s, c);
    let f = first_idx_of(s, c);
    if f < i {
        assert(s[f] != c);
    }
    if f > i {
        assert(s[i] != c);
    }
}

/// Finds the first occurrence of `c` in `s`; returns the character count of
/// `s` when `c` does not occur.
pub fn find_char(s: &str, c: char) -> (r: usize)
    ensures
        r == first_idx_of(s@, c),
        r <= s@.len(),
{
    let n = s.unicode_len();
    let mut i: usize = 0;
    while i < n
        invariant
            n == s@.len(),
            0 <= i <= n,
            forall|j: int| 0 <= j < i ==> s@[j] != c,
        decreases n - i,
    {
        if s.get_char(i) == c {
            proof {
                lemma_first_idx_is(s@, c, i as int);
            }
            return i;
        }
        i += 1;
    }
    proof {
        lemma_first_idx_is(s@, c, n as int);
    }
    n
}

pub open spec fn starts_with(s: Seq<char>, prefix: Seq<char>) -> bool {
    prefix.len() <= s.len() && s.subrange(0, prefix.len() as int) == prefix
}

/// Tests whether `s` starts with `prefix`, character-wise.
pub fn str_starts_with(s: &str, prefix: &str) -> (r: bool)
    ensures
        r == starts_with(s@, prefix@),
{
    let n = s.unicode_len();
    let k = prefix.unicode_len();
    if k > n {
        return false;
    }
    let mut i: usize = 0;
    while i < k
        invariant
            n == s@.len(),
            k == prefix@.len(),
            k <= n,
            0 <= i <= k,
            forall|j: int| 0 <= j < i ==> s@[j] == prefix@[j],
        decreases k - i,
    {
        if s.get_char(i) != prefix.get_char(i) {
            proof {
                assert(s@.subrange(0, k as int)[i as int] == s@[i as int]);
            }
            return false;
        }
        i += 1;
    }
    proof {
        assert(s@.subrange(0, k as int) =~= prefix@);
    }
    true
}

pub open spec fn ends_with(s: Seq<char>, suffix: Seq<char>) -> bool {
    suffix.len() <= s.len() && s.subrange(s.len() - suffix.len(), s.len() as int) == suffix
}

/// Tests whether `s` ends with `suffix`, character-wise.
pub fn str_ends_with(s: &str, suffix: &str) -> (r: bool)
    ensures
        r == ends_with(s@, suffix@),
{
    let n = s.unicode_len();
    let k = suffix.unicode_len();
    if k > n {
        return false;
    }
    let mut i: usize = 0;
    while i < k
        invariant
            n == s@.len(),
            k == suffix@.len(),
            k <= n,
            0 <= i <= k,
            forall|j: int| 0 <= j < i ==> s@[n - k + j] == suffix@[j],
        decreases k - i,
    {
        if s.get_char(n - k + i) != suffix.get_char(i) {
            proof {
                assert(s@.subrange(n - k, n as int)[i as int] == s@[n - k + i]);
            }
            return false;
        }
        i += 1;
    }
    proof {
        assert(s@.subrange(n - k, n as int) =~= suffix@);
    }
    true
}

/// The characters of `s` before its trailing `suffix`, as a borrowed slice,
/// or `None` when `s` does not end with `suffix`.
pub fn strip_suffix<'a>(s: &'a str, suffix: &str) -> (r: Option<&'a str>)
    ensures
        ends_with(s@, suffix@) <==> r is Some,
        r is Some ==> r->Some_0@ == s@.subrange(0, s@.len() - suffix@.len()),
{
    if str_ends_with(s, suffix) {
        let n = s.unicode_len();
        let k = suffix.unicode_len();
        Some(s.substring_char(0, n - k))
    } else {
        None
    }
}

/// Whether `needle` occurs in `haystack` as a contiguous run of characters.
pub open spec fn contains_seq(haystack: Seq<char>, needle: Seq<char>) -> bool {
    exists|i: int|
        0 <= i && i + needle.len() <= haystack.len() && #[trigger] haystack.subrange(
            i,
            i + needle.len(),
        ) == needle
}

/// Substring search, character-wise.
pub fn str_contains(haystack: &str, needle: &str) -> (r: bool)
    ensures
        r == contains_seq(haystack@, needle@),
{
    let n = haystack.unicode_len();
    let k = needle.unicode_len();
    if k > n {
        return false;
    }
    if k == 0 {
        proof {
            assert(haystack@.subrange(0, 0 + needle@.len() as int) =~= needle@);
        }
        return true;
    }
    let mut i: usize = 0;
    while i <= n - k
        invariant
            n == haystack@.len(),
            k == needle@.len(),
            1 <= k <= n,
            0 <= i <= n - k + 1,
            forall|p: int| 0 <= p < i ==> #[trigger] haystack@.subrange(p, p + k) != needle@,
        decreases n - k + 1 - i,
    {
        let mut j: usize = 0;
        let mut matched = true;
        while j < k
            invariant
                n == haystack@.len(),
                k == needle@.len(),
                k <= n,
                0 <= i <= n - k,
                0 <= j <= k,
                matched ==> forall|q: int| 0 <= q < j ==> haystack@[i + q] == needle@[q],
                !matched ==> haystack@.subrange(i as int, i + k) != needle@,
            decreases k - j,
        {
            if haystack.get_char(i + j) != needle.get_char(j) {
                proof {
                    assert(haystack@.subrange(i as int, i + k)[j as int] == haystack@[i + j]);
                }
                matched = false;
            }
            j += 1;
        }
        if matched {
            proof {
                assert(haystack@.subrange(i as int, i + k) =~= needle@);
            }
            return true;
        }
        i += 1;
    }
    proof {
        assert forall|p: int| 0 <= p && p + k <= n implies #[trigger] haystack@.subrange(p, p + k)
            != needle@ by {
            assert(p < i);
        }
    }
    false
}

/// Joins two flag segments with a single space, omitting empty segments.
pub open spec fn join2(a: Seq<char>, b: Seq<char>) -> Seq<char> {
    if a.len() == 0 {
        b
    } else if b.len() == 0 {
        a
    } else {
        a + seq![' '] + b
    }
}

/// Space-joins a whole token sequence, omitting empty tokens, with no leading
/// or trailing separator.
pub open spec fn joined_tokens(ts: Seq<Seq<char>>) -> Seq<char>
    decreases ts.len(),
{
    if ts.len() == 0 {
        Seq::empty()
    } else {
        join2(joined_tokens(ts.drop_last()), ts.last())
    }
}

/// Renders an accumulated flag list as one space-joined string.
pub fn join_flags(flags: &Vec<String>) -> (r: String)
    ensures
        r@ == joined_tokens(flags.deep_view()),
{
    let ghost all = flags.deep_view();
    let mut out = String::new();
    let mut i: usize = 0;
    proof {
        assert(all.take(0) =~= Seq::<Seq<char>>::empty());
    }
    while i < flags.len()
        invariant
            all == flags.deep_view(),
            all.len() == flags.len(),
            0 <= i <= flags.len(),
            out@ == joined_tokens(all.take(i as int)),
        decreases flags.len() - i,
    {
        let f = &flags[i];
        if !f.as_str().is_empty() {
            if out.as_str().is_empty() {
                proof {
                    assert(out@.len() == 0);
                }
                out = f.clone();
            } else {
                out.append(" ");
                out.append(f.as_str());
                proof {
                    reveal_strlit(" ");
                    assert(" "@ =~= seq![' ']);
                }
            }
        }
        proof {
            assert(all.take(i + 1).drop_last() =~= all.take(i as int));
            assert(all.take(i + 1).last() == all[i as int]);
        }
        i += 1;
    }
    proof {
        assert(all.take(all.len() as int) =~= all);
    }
    out
}

/// Concatenates two string slices.
pub fn concat2(a: &str, b: &str) -> (r: String)
    ensures
        r@ == a@ + b@,
{
    let mut out = String::from_str(a);
    out.append(b);
    out
}

/// Concatenates three string slices.
pub fn concat3(a: &str, b: &str, c: &str) -> (r: String)
    ensures
        r@ == a@ + b@ + c@,
{
    let mut out = String::from_str(a);
    out.append(b);
    out.append(c);
    out
}

} // verus!
