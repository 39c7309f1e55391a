//! Character-level helpers over chat text: trimming, word scanning and
//! comparison, each stated over `Seq<char>`.

use vstd::prelude::*;

verus! {

/// What `str::trim` leaves of a line.
pub uninterp spec fn trimmed(s: Seq<char>) -> Seq<char>;

/// Relies on `str::trim`: removes leading and trailing Unicode whitespace,
/// so the result depends on the characters alone.
#[verifier::external_body]
pub(crate) fn trim_str(s: &str) -> (r: &str)
    ensures
        r@ == trimmed(s@),
{
    s.trim()
}

/// The first index at or after `i` that does not hold a space (or the length).
pub open spec fn word_start(s: Seq<char>, i: nat) -> nat
    decreases s.len() - i,
{
    if i < s.len() && s[i as int] == ' ' {
        word_start(s, i + 1)
    } else {
        i
    }
}

/// The first index at or after `i` that holds a space (or the length).
pub open spec fn word_end(s: Seq<char>, i: nat) -> nat
    decreases s.len() - i,
{
    if i < s.len() && s[i as int] != ' ' {
        word_end(s, i + 1)
    } else {
        i
    }
}

/// The first index at or after `i` that holds `c` (or the length).
pub open spec fn find_from(s: Seq<char>, c: char, i: nat) -> nat
    decreases s.len() - i,
{
    if i < s.len() && s[i as int] != c {
        find_from(s, c, i + 1)
    } else {
        i
    }
}

/// The first word (maximal run of non-space characters) at or after `i`.
pub open spec fn word_from(s: Seq<char>, i: nat) -> Option<Seq<char>> {
    let a = word_start(s, i);
    if a < s.len() {
        Some(s.subrange(a as int, word_end(s, a) as int))
    } else {
        None
    }
}

/// Whether `needle` occurs in `hay` as a contiguous run.
pub open spec fn occurs_in(hay: Seq<char>, needle: Seq<char>) -> bool {
    exists|i: int|
        0 <= i && i + needle.len() <= hay.len() && #[trigger] hay.subrange(i, i + needle.len())
            == needle
}

pub proof fn lemma_word_start_bounds(s: Seq<char>, i: nat)
    requires
        i <= s.len(),
    ensures
        i <= word_start(s, i) <= s.len(),
        word_start(s, i) < s.len() ==> s[word_start(s, i) as int] != ' ',
    decreases s.len() - i,
{
    if i < s.len() && s[i as int] == ' ' {
        lemma_word_start_bounds(s, i + 1);
    }
}

pub proof fn lemma_word_end_bounds(s: Seq<char>, i: nat)
    requires
        i <= s.len(),
    ensures
        i <= word_end(s, i) <= s.len(),
    decreases s.len() - i,
{
    if i < s.len() && s[i as int] != ' ' {
        lemma_word_end_bounds(s, i + 1);
    }
}

pub proof fn lemma_find_from_bounds(s: Seq<char>, c: char, i: nat)
    requires
        i <= s.len(),
    ensures
        i <= find_from(s, c, i) <= s.len(),
        find_from(s, c, i) < s.len() ==> s[find_from(s, c, i) as int] == c,
    decreases s.len() - i,
{
    if i < s.len() && s[i as int] != c {
        lemma_find_from_bounds(s, c, i + 1);
    }
}

/// `find_from` lands on the first `c` when none comes before it.
pub proof fn lemma_find_from_first(s: Seq<char>, c: char, i: nat, k: nat)
    requires
        i <= k < s.len(),
        s[k as int] == c,
        forall|j: int| i <= j < k ==> s[j] != c,
    ensures
        find_from(s, c, i) == k,
    decreases k - i,
{
    if i < k {
        lemma_find_from_first(s, c, i + 1, k);
    }
}

/// Scans past spaces from `i`.
pub fn skip_spaces(s: &str, n: usize, i: usize) -> (r: usize)
    requires
        n == s@.len(),
        i <= n,
    ensures
        r == word_start(s@, i as nat),
{
    let mut j: usize = i;
    while j < n && s.get_char(j) == ' '
        invariant
            n == s@.len(),
            i <= j <= n,
            word_start(s@, j as nat) == word_start(s@, i as nat),
        decreases n - j,
    {
        j = j + 1;
    }
    j
}

/// Scans past non-space characters from `i`.
pub fn skip_word(s: &str, n: usize, i: usize) -> (r: usize)
    requires
        n == s@.len(),
        i <= n,
    ensures
        r == word_end(s@, i as nat),
{
    let mut j: usize = i;
    while j < n && s.get_char(j) != ' '
        invariant
            n == s@.len(),
            i <= j <= n,
            word_end(s@, j as nat) == word_end(s@, i as nat),
        decreases n - j,
    {
        j = j + 1;
    }
    j
}

/// Finds the first `c` at or after `i`.
pub fn find_char(s: &str, n: usize, c: char, i: usize) -> (r: usize)
    requires
        n == s@.len(),
        i <= n,
    ensures
        r == find_from(s@, c, i as nat),
{
    let mut j: usize = i;
    while j < n && s.get_char(j) != c
        invariant
            n == s@.len(),
            i <= j <= n,
            find_from(s@, c, j as nat) == find_from(s@, c, i as nat),
        decreases n - j,
    {
        j = j + 1;
    }
    j
}

/// Whether two strings hold the same characters.
pub fn same_text(a: &str, b: &str) -> (r: bool)
    ensures
        r == (a@ == b@),
{
    let n = a.unicode_len();
    if n != b.unicode_len() {
        return false;
    }
    let mut i: usize = 0;
    while i < n
        invariant
            n == a@.len(),
            n == b@.len(),
            i <= n,
            forall|j: int| 0 <= j < i ==> a@[j] == b@[j],
        decreases n - i,
    {
        if a.get_char(i) != b.get_char(i) {
            return false;
        }
        i = i + 1;
    }
    assert(a@ =~= b@);
    true
}

} // verus!
