//! Text rules shared by the validated value types: Unicode white space,
//! trimming, character search and grapheme counting.

use unicode_segmentation::UnicodeSegmentation;
use vstd::prelude::*;

verus! {

/// The code points that carry the Unicode property `White_Space`.
pub open spec fn is_white_space(c: char) -> bool {
    let u = c as u32;
    ||| 0x09 <= u <= 0x0D
    ||| u == 0x20
    ||| u == 0x85
    ||| u == 0xA0
    ||| u == 0x1680
    ||| 0x2000 <= u <= 0x200A
    ||| u == 0x2028
    ||| u == 0x2029
    ||| u == 0x202F
    ||| u == 0x205F
    ||| u == 0x3000
}

/// Whether `c` is white space.
pub fn is_unicode_white_space(c: char) -> (white: bool)
    ensures
        white == is_white_space(c),
{
    let u = c as u32;
    (0x09 <= u && u <= 0x0D) || u == 0x20 || u == 0x85 || u == 0xA0 || u == 0x1680 || (0x2000 <= u
        && u <= 0x200A) || u == 0x2028 || u == 0x2029 || u == 0x202F || u == 0x205F || u == 0x3000
}

/// `s` without its leading white space.
pub open spec fn trim_start(s: Seq<char>) -> Seq<char>
    decreases s.len(),
{
    if s.len() > 0 && is_white_space(s[0]) {
        trim_start(s.drop_first())
    } else {
        s
    }
}

/// `s` without its trailing white space.
pub open spec fn trim_end(s: Seq<char>) -> Seq<char>
    decreases s.len(),
{
    if s.len() > 0 && is_white_space(s.last()) {
        trim_end(s.drop_last())
    } else {
        s
    }
}

/// `s` without its leading and trailing white space.
pub open spec fn trimmed(s: Seq<char>) -> Seq<char> {
    trim_end(trim_start(s))
}

/// A text that neither starts nor ends with white space.
pub open spec fn is_trimmed(s: Seq<char>) -> bool {
    s.len() > 0 ==> !is_white_space(s[0]) && !is_white_space(s.last())
}

/// Where the trimmed part of `s` begins: the number of its leading white-space
/// characters.
pub open spec fn leading_white_space(s: Seq<char>) -> nat
    decreases s.len(),
{
    if s.len() > 0 && is_white_space(s[0]) {
        1 + leading_white_space(s.drop_first())
    } else {
        0
    }
}

/// `trim_start` drops exactly the leading run of white space: the result is
/// the rest of `s` after `leading_white_space(s)` characters, all of which are
/// white space, and it does not start with white space.
pub proof fn lemma_trim_start(s: Seq<char>)
    ensures
        leading_white_space(s) <= s.len(),
        trim_start(s) == s.skip(leading_white_space(s) as int),
        forall|j: int| 0 <= j < leading_white_space(s) ==> is_white_space(#[trigger] s[j]),
        trim_start(s).len() > 0 ==> !is_white_space(trim_start(s)[0]),
    decreases s.len(),
{
    if s.len() > 0 && is_white_space(s[0]) {
        let rest = s.drop_first();
        lemma_trim_start(rest);
        let k = leading_white_space(rest);
        assert(rest.skip(k as int) =~= s.skip(k as int + 1));
        assert forall|j: int| 0 <= j < k + 1 implies is_white_space(#[trigger] s[j]) by {
            if j > 0 {
                assert(s[j] == rest[j - 1]);
            }
        }
    } else {
        assert(s.skip(0) =~= s);
    }
}

/// `trim_end` drops exactly the trailing run of white space: the result is a
/// prefix of `s`, everything after it is white space, and it does not end with
/// white space.
pub proof fn lemma_trim_end(s: Seq<char>)
    ensures
        trim_end(s).len() <= s.len(),
        trim_end(s) == s.take(trim_end(s).len() as int),
        forall|j: int| trim_end(s).len() <= j < s.len() ==> is_white_space(#[trigger] s[j]),
        trim_end(s).len() > 0 ==> !is_white_space(trim_end(s).last()),
    decreases s.len(),
{
    if s.len() > 0 && is_white_space(s.last()) {
        let rest = s.drop_last();
        lemma_trim_end(rest);
        let n = trim_end(rest).len() as int;
        assert(rest.take(n) =~= s.take(n));
        assert forall|j: int| n <= j < s.len() implies is_white_space(#[trigger] s[j]) by {
            if j < s.len() - 1 {
                assert(s[j] == rest[j]);
            }
        }
    } else {
        assert(s.take(s.len() as int) =~= s);
    }
}

/// The trimmed text is the stretch of `s` between its leading and its
/// trailing white space, and is itself trimmed.
pub proof fn lemma_trimmed(s: Seq<char>)
    ensures
        leading_white_space(s) + trimmed(s).len() <= s.len(),
        trimmed(s) == s.subrange(
            leading_white_space(s) as int,
            leading_white_space(s) as int + trimmed(s).len(),
        ),
        forall|j: int| 0 <= j < leading_white_space(s) ==> is_white_space(#[trigger] s[j]),
        forall|j: int|
            leading_white_space(s) + trimmed(s).len() <= j < s.len() ==> is_white_space(
                #[trigger] s[j],
            ),
        is_trimmed(trimmed(s)),
{
    let a = leading_white_space(s) as int;
    let mid = trim_start(s);
    lemma_trim_start(s);
    lemma_trim_end(mid);
    let t = trimmed(s);
    assert(t =~= s.subrange(a, a + t.len()));
    assert forall|j: int| a + t.len() <= j < s.len() implies is_white_space(#[trigger] s[j]) by {
        assert(s[j] == mid[j - a]);
    }
    if t.len() > 0 {
        assert(t[0] == mid[0]);
    }
}

/// A text is left as it is by trimming exactly when it is trimmed already.
pub proof fn lemma_trimmed_fixed(s: Seq<char>)
    ensures
        is_trimmed(s) <==> trimmed(s) == s,
{
    lemma_trimmed(s);
}

/// Trimming twice is trimming once.
pub proof fn lemma_trimmed_idempotent(s: Seq<char>)
    ensures
        trimmed(trimmed(s)) == trimmed(s),
{
    lemma_trimmed(s);
    lemma_trimmed_fixed(trimmed(s));
}

/// Trimming removes white space only: a character that is no white space
/// occurs in the trimmed text exactly when it occurs in the text.
pub proof fn lemma_trimmed_keeps(s: Seq<char>, c: char)
    requires
        !is_white_space(c),
    ensures
        trimmed(s).contains(c) <==> s.contains(c),
{
    lemma_trimmed(s);
    let a = leading_white_space(s) as int;
    let t = trimmed(s);
    if t.contains(c) {
        let i = choose|i: int| 0 <= i < t.len() && t[i] == c;
        assert(s[a + i] == c);
    }
    if s.contains(c) {
        let j = choose|j: int| 0 <= j < s.len() && s[j] == c;
        assert(a <= j < a + t.len());
        assert(t[j - a] == c);
    }
}

/// The number of extended grapheme clusters of a text, as Unicode Standard
/// Annex #29 divides it.
pub uninterp spec fn grapheme_count(s: Seq<char>) -> nat;

/// Calls `str::trim` of the standard library, which returns the slice of
/// `s` that is left when its leading and trailing white space is removed,
/// white space being the characters with the Unicode property `White_Space`.
#[verifier::external_body]
pub(crate) fn trim(s: &str) -> (t: &str)
    ensures
        t@ == trimmed(s@),
{
    s.trim()
}

/// Calls `UnicodeSegmentation::graphemes` of the crate `unicode-segmentation`
/// for the extended grapheme clusters of `s` and counts them. The count is a
/// function of the text alone. Every cluster that the iterator yields holds at
/// least one character, so there are no more clusters than characters.
#[verifier::external_body]
pub(crate) fn count_graphemes(s: &str) -> (n: usize)
    ensures
        n == grapheme_count(s@),
        n <= s@.len(),
{
    s.graphemes(true).count()
}

/// Whether `wanted` occurs in `s`.
pub fn contains_char(s: &str, wanted: char) -> (found: bool)
    ensures
        found == s@.contains(wanted),
{
    let mut found = false;
    for c in it: s.chars()
        invariant
            it.seq() == s@,
            found == (exists|j: int| 0 <= j < it.index() && s@[j] == wanted),
    {
        if c == wanted {
            found = true;
        }
    }
    found
}

} // verus!
