use vstd::prelude::*;
use vstd::string::StrSliceExecFns;
use vstd::string::StringExecFns;

verus! {

/// Whether `needle` occurs as a contiguous run inside `haystack`.
pub open spec fn contains_seq(haystack: Seq<char>, needle: Seq<char>) -> bool {
    exists|i: int|
        0 <= i <= haystack.len() - needle.len() && #[trigger] haystack.subrange(
            i,
            i + needle.len(),
        ) == needle
}

fn match_at(haystack: &str, needle: &str, i: usize) -> (r: bool)
    requires
        i + needle@.len() <= haystack@.len(),
    ensures
        r == (haystack@.subrange(i as int, i + needle@.len()) == needle@),
{
    let h = haystack.unicode_len();
    let n = needle.unicode_len();
    let mut j: usize = 0;
    while j < n
        invariant
            i + n <= h,
            h == haystack@.len(),
            n == needle@.len(),
            0 <= j <= n,
            forall|m: int| 0 <= m < j ==> haystack@[i + m] == needle@[m],
        decreases n - j,
    {
        if haystack.get_char(i + j) != needle.get_char(j) {
            proof {
                assert(haystack@.subrange(i as int, i + needle@.len())[j as int] == haystack@[i
                    + j]);
            }
            return false;
        }
        j = j + 1;
    }
    proof {
        assert(haystack@.subrange(i as int, i + needle@.len()) =~= needle@);
    }
    true
}

/// Whether one text occurs inside another, as [`contains_seq`] says.
pub fn str_contains(haystack: &str, needle: &str) -> (r: bool)
    ensures
        r == contains_seq(haystack@, needle@),
{
    let h = haystack.unicode_len();
    let n = needle.unicode_len();
    if n > h {
        return false;
    }
    if n == 0 {
        proof {
            assert(haystack@.subrange(0, 0 + needle@.len() as int) =~= needle@);
        }
        return true;
    }
    let mut i: usize = 0;
    while i <= h - n
        invariant
            0 < n <= h,
            h == haystack@.len(),
            n == needle@.len(),
            0 <= i <= h - n + 1,
            forall|k: int|
                0 <= k < i ==> #[trigger] haystack@.subrange(k, k + needle@.len()) != needle@,
        decreases h - n + 1 - i,
    {
        if match_at(haystack, needle, i) {
            return true;
        }
        i = i + 1;
    }
    false
}

/// The smallest index at or after `from` where `c` stands, if any.
pub open spec fn find_from(s: Seq<char>, c: char, from: int) -> Option<int>
    decreases s.len() - from,
{
    if from < 0 || from >= s.len() {
        None
    } else if s[from] == c {
        Some(from)
    } else {
        find_from(s, c, from + 1)
    }
}

proof fn lemma_find_from_found(s: Seq<char>, c: char, from: int, i: int)
    requires
        0 <= from <= i < s.len(),
        s[i] == c,
        forall|k: int| from <= k < i ==> s[k] != c,
    ensures
        find_from(s, c, from) == Some(i),
    decreases i - from,
{
    if from < i {
        lemma_find_from_found(s, c, from + 1, i);
    }
}

proof fn lemma_find_from_none(s: Seq<char>, c: char, from: int)
    requires
        0 <= from,
        forall|k: int| from <= k < s.len() ==> s[k] != c,
    ensures
        find_from(s, c, from) is None,
    decreases s.len() - from,
{
    if from < s.len() {
        lemma_find_from_none(s, c, from + 1);
    }
}

fn find_char(s: &str, c: char, from: usize) -> (r: Option<usize>)
    requires
        from <= s@.len(),
    ensures
        match r {
            Some(i) => from <= i < s@.len() && find_from(s@, c, from as int) == Some(i as int),
            None => find_from(s@, c, from as int) is None,
        },
{
    let len = s.unicode_len();
    let mut i: usize = from;
    while i < len
        invariant
            from <= i <= len,
            len == s@.len(),
            forall|k: int| from <= k < i ==> s@[k] != c,
        decreases len - i,
    {
        if s.get_char(i) == c {
            proof {
                lemma_find_from_found(s@, c, from as int, i as int);
            }
            return Some(i);
        }
        i = i + 1;
    }
    proof {
        lemma_find_from_none(s@, c, from as int);
    }
    None
}

/// A location reduced for display: the characters between the second
/// slash and the slash after it (or the end) — for a usual address,
/// its host — or the whole text where it holds fewer than two slashes.
pub open spec fn minimized(s: Seq<char>) -> Seq<char> {
    match find_from(s, '/', 0) {
        Some(i1) => match find_from(s, '/', i1 + 1) {
            Some(i2) => {
                let end = match find_from(s, '/', i2 + 1) {
                    Some(i3) => i3,
                    None => s.len() as int,
                };
                s.subrange(i2 + 1, end)
            },
            None => s,
        },
        None => s,
    }
}

/// Reduces a full location to its host part for display, as
/// [`minimized`] says.
pub fn minimize_url(full_url: &str) -> (r: String)
    ensures
        r@ == minimized(full_url@),
{
    let len = full_url.unicode_len();
    let i1 = match find_char(full_url, '/', 0) {
        Some(i) => i,
        None => {
            return String::from_str(full_url);
        },
    };
    let i2 = match find_char(full_url, '/', i1 + 1) {
        Some(i) => i,
        None => {
            return String::from_str(full_url);
        },
    };
    let end = match find_char(full_url, '/', i2 + 1) {
        Some(i) => i,
        None => len,
    };
    let host = full_url.substring_char(i2 + 1, end);
    String::from_str(host)
}

} // verus!
