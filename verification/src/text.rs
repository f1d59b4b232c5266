//! Character-level text handling: Unicode trimming and ASCII case folding.

use vstd::prelude::*;

verus! {

/// The Unicode `White_Space` property of a character: tab through carriage return, space, next
/// line, no-break space, ogham space mark, the spaces from en quad to hair space, line and
/// paragraph separators, narrow no-break space, medium mathematical space and ideographic space.
pub open spec fn unicode_whitespace(c: char) -> bool {
    let u = c as u32;
    ||| 0x09 <= u <= 0x0D
    ||| u == 0x20
    ||| u == 0x85
    ||| u == 0xA0
    ||| u == 0x1680
    ||| 0x2000 <= u <= 0x200A
    ||| u == 0x2028
    ||| u == 0x2029
    ||| u == 0x202F
    ||| u == 0x205F
    ||| u == 0x3000
}

/// The Unicode alphabetic-or-numeric property of a character.
pub uninterp spec fn unicode_alphanumeric(c: char) -> bool;

/// `char::is_whitespace`: whether `c` has the Unicode `White_Space` property, which
/// `unicode_whitespace` lists.
#[verifier::external_body]
pub(crate) fn is_whitespace(c: char) -> (b: bool)
    ensures
        b == unicode_whitespace(c),
{
    c.is_whitespace()
}

/// `char::is_alphanumeric`: whether `c` is alphabetic or numeric in Unicode. The property is
/// named here, not spelled out.
#[verifier::external_body]
fn is_alphanumeric(c: char) -> (b: bool)
    ensures
        b == unicode_alphanumeric(c),
{
    c.is_alphanumeric()
}

/// Characters trimmed from the ends: whitespace, or (for words) anything not alphanumeric.
pub open spec fn strippable(c: char, words: bool) -> bool {
    if words {
        !unicode_alphanumeric(c)
    } else {
        unicode_whitespace(c)
    }
}

/// Index of the first character from `i` on that is kept.
pub open spec fn trim_start_index(s: Seq<char>, words: bool, i: int) -> int
    decreases s.len() - i,
{
    if 0 <= i < s.len() && strippable(s[i], words) {
        trim_start_index(s, words, i + 1)
    } else {
        i
    }
}

/// One past the last kept character, looking back from `j` but not before `lo`.
pub open spec fn trim_end_index(s: Seq<char>, words: bool, lo: int, j: int) -> int
    decreases j - lo,
{
    if lo < j <= s.len() && strippable(s[j - 1], words) {
        trim_end_index(s, words, lo, j - 1)
    } else {
        j
    }
}

/// `s` without strippable characters at either end.
pub open spec fn trimmed(s: Seq<char>, words: bool) -> Seq<char> {
    let lo = trim_start_index(s, words, 0);
    s.subrange(lo, trim_end_index(s, words, lo, s.len() as int))
}

/// A character code with ASCII upper case folded to lower case.
pub open spec fn ascii_folded(c: char) -> u32 {
    if 65 <= (c as u32) <= 90 {
        (c as u32 + 32) as u32
    } else {
        c as u32
    }
}

/// Equal up to ASCII case.
pub open spec fn equal_ignoring_ascii_case(a: Seq<char>, b: Seq<char>) -> bool {
    a.len() == b.len() && forall|i: int| 0 <= i < a.len() ==> ascii_folded(a[i]) == ascii_folded(b[i])
}

pub(crate) fn chars_of(text: &str) -> (chars: Vec<char>)
    ensures
        chars@ == text@,
{
    let n = text.unicode_len();
    let mut chars: Vec<char> = Vec::new();
    let mut i: usize = 0;
    while i < n
        invariant
            n == text@.len(),
            i <= n,
            chars@ == text@.subrange(0, i as int),
        decreases n - i,
    {
        chars.push(text.get_char(i));
        i = i + 1;
        assert(chars@ =~= text@.subrange(0, i as int));
    }
    assert(chars@ =~= text@);
    chars
}

pub(crate) fn strippable_exec(c: char, words: bool) -> (b: bool)
    ensures
        b == strippable(c, words),
{
    if words {
        !is_alphanumeric(c)
    } else {
        is_whitespace(c)
    }
}

/// The kept part of `s`, trimmed of strippable characters at both ends.
pub(crate) fn trim_chars(s: &Vec<char>, words: bool) -> (t: Vec<char>)
    ensures
        t@ == trimmed(s@, words),
{
    let mut lo: usize = 0;
    while lo < s.len() && strippable_exec(s[lo], words)
        invariant
            lo <= s@.len(),
            trim_start_index(s@, words, lo as int) == trim_start_index(s@, words, 0),
        decreases s@.len() - lo,
    {
        lo = lo + 1;
    }
    let mut hi: usize = s.len();
    while hi > lo && strippable_exec(s[hi - 1], words)
        invariant
            lo <= hi <= s@.len(),
            lo == trim_start_index(s@, words, 0),
            trim_end_index(s@, words, lo as int, hi as int) == trim_end_index(
                s@,
                words,
                lo as int,
                s@.len() as int,
            ),
        decreases hi - lo,
    {
        hi = hi - 1;
    }
    let mut t: Vec<char> = Vec::new();
    let mut k: usize = lo;
    while k < hi
        invariant
            lo <= k <= hi <= s@.len(),
            t@ == s@.subrange(lo as int, k as int),
        decreases hi - k,
    {
        t.push(s[k]);
        k = k + 1;
        assert(t@ =~= s@.subrange(lo as int, k as int));
    }
    t
}

pub(crate) fn equals_text(s: &Vec<char>, text: &str) -> (same: bool)
    ensures
        same == (s@ == text@),
{
    let n = text.unicode_len();
    if s.len() != n {
        return false;
    }
    let mut i: usize = 0;
    while i < n
        invariant
            n == text@.len(),
            s@.len() == n,
            i <= n,
            forall|j: int| 0 <= j < i ==> s@[j] == text@[j],
        decreases n - i,
    {
        if s[i] != text.get_char(i) {
            return false;
        }
        i = i + 1;
    }
    assert(s@ =~= text@);
    true
}

pub(crate) fn folded(c: char) -> (code: u32)
    ensures
        code == ascii_folded(c),
{
    let code = c as u32;
    if 65 <= code && code <= 90 {
        code + 32
    } else {
        code
    }
}

pub(crate) fn equals_ignoring_ascii_case(s: &Vec<char>, text: &str) -> (same: bool)
    ensures
        same == equal_ignoring_ascii_case(s@, text@),
{
    let n = text.unicode_len();
    if s.len() != n {
        return false;
    }
    let mut i: usize = 0;
    while i < n
        invariant
            n == text@.len(),
            s@.len() == n,
            i <= n,
            forall|j: int| 0 <= j < i ==> ascii_folded(s@[j]) == ascii_folded(text@[j]),
        decreases n - i,
    {
        if folded(s[i]) != folded(text.get_char(i)) {
            return false;
        }
        i = i + 1;
    }
    true
}

} // verus!
