//! Inline sharing of stored catches: the query language and which catch cards are offered.

use vstd::prelude::*;
use crate::content::Content;
use crate::ids::{LocationId, SpeciesId};
use crate::sort::has_key;
use crate::text::{chars_of, trim_chars, trimmed};
use crate::view::InlineCatchView;

verus! {

/// At most this many cards answer one inline query.
pub const INLINE_CATCH_LIMIT: usize = 20;

/// `c` is an ASCII digit.
pub open spec fn is_digit(c: char) -> bool {
    48 <= (c as u32) <= 57
}

/// Every character of `s` is an ASCII digit.
pub open spec fn all_digits(s: Seq<char>) -> bool {
    forall|i: int| 0 <= i < s.len() ==> is_digit(#[trigger] s[i])
}

/// The value of a run of ASCII digits.
pub open spec fn digits_value(s: Seq<char>) -> int
    decreases s.len(),
{
    if s.len() == 0 {
        0
    } else {
        digits_value(s.drop_last()) * 10 + (s.last() as u32 - 48)
    }
}

/// A decimal `i64` as Rust's parser reads it: an optional `+` or `-`, then one or more ASCII
/// digits, with a value that fits.
pub open spec fn parse_i64_spec(s: Seq<char>) -> Option<i64> {
    let negative = s.len() > 0 && s[0] == '-';
    let start: int = if s.len() > 0 && (s[0] == '+' || s[0] == '-') {
        1
    } else {
        0
    };
    let digits = s.subrange(start, s.len() as int);
    if digits.len() == 0 || !all_digits(digits) {
        None
    } else {
        let v = if negative {
            -digits_value(digits)
        } else {
            digits_value(digits)
        };
        if i64::MIN <= v <= i64::MAX {
            Some(v as i64)
        } else {
            None
        }
    }
}

proof fn lemma_digits_value_nonnegative(s: Seq<char>)
    requires
        forall|i: int| 0 <= i < s.len() ==> is_digit(s[i]),
    ensures
        digits_value(s) >= 0,
    decreases s.len(),
{
    if s.len() > 0 {
        lemma_digits_value_nonnegative(s.drop_last());
    }
}

proof fn lemma_digits_value_grows(s: Seq<char>, n: int)
    requires
        0 <= n <= s.len(),
        forall|i: int| 0 <= i < s.len() ==> is_digit(s[i]),
    ensures
        digits_value(s.subrange(0, n)) <= digits_value(s),
    decreases s.len() - n,
{
    if n < s.len() {
        lemma_digits_value_grows(s, n + 1);
        let t = s.subrange(0, n + 1);
        assert(t.drop_last() =~= s.subrange(0, n));
        lemma_digits_value_nonnegative(s.subrange(0, n));
    } else {
        assert(s.subrange(0, n) =~= s);
    }
}

/// Parses a decimal `i64`.
pub fn parse_i64(s: &Vec<char>) -> (value: Option<i64>)
    ensures
        value == parse_i64_spec(s@),
{
    let n = s.len();
    let negative = n > 0 && s[0] == '-';
    let start: usize = if n > 0 && (s[0] == '+' || s[0] == '-') {
        1
    } else {
        0
    };
    let ghost digits = s@.subrange(start as int, n as int);
    if start == n {
        return None;
    }
    // Accumulate toward the sign so that `i64::MIN` is reachable.
    let mut acc: i64 = 0;
    let mut i: usize = start;
    while i < n
        invariant
            start <= i <= n,
            n == s@.len(),
            digits == s@.subrange(start as int, n as int),
            start == (if n > 0 && (s@[0] == '+' || s@[0] == '-') {
                1usize
            } else {
                0usize
            }),
            negative == (n > 0 && s@[0] == '-'),
            forall|k: int| start <= k < i ==> is_digit(s@[k]),
            acc == if negative {
                -digits_value(s@.subrange(start as int, i as int))
            } else {
                digits_value(s@.subrange(start as int, i as int))
            },
        decreases n - i,
    {
        let c = s[i];
        let code = c as u32;
        if code < 48 || code > 57 {
            proof {
                let k = (i - start) as int;
                assert(digits[k] == s@[i as int]);
                assert(!is_digit(digits[k]));
                assert(!all_digits(digits));
            }
            return None;
        }
        let d = (code - 48) as i64;
        proof {
            let prefix = s@.subrange(start as int, i as int + 1);
            assert(prefix.drop_last() =~= s@.subrange(start as int, i as int));
            assert(prefix.last() == c);
        }
        let next = if negative {
            match acc.checked_mul(10) {
                Some(m) => m.checked_sub(d),
                None => None,
            }
        } else {
            match acc.checked_mul(10) {
                Some(m) => m.checked_add(d),
                None => None,
            }
        };
        match next {
            Some(v) => {
                acc = v;
            },
            None => {
                proof {
                    // The prefix already overflows, and digits only make the value larger.
                    let prefix = s@.subrange(start as int, i as int + 1);
                    assert(forall|k: int| 0 <= k < prefix.len() ==> is_digit(prefix[k]));
                    if all_digits(digits) {
                        assert(digits.subrange(0, (i + 1 - start) as int) =~= prefix);
                        lemma_digits_value_grows(digits, (i + 1 - start) as int);
                        lemma_digits_value_nonnegative(s@.subrange(start as int, i as int));
                    }
                }
                return None;
            },
        }
        i = i + 1;
    }
    proof {
        assert(s@.subrange(start as int, n as int) =~= digits);
        assert(all_digits(digits));
    }
    Some(acc)
}

/// `c` folded to ASCII lower case.
pub open spec fn lower_ascii(c: char) -> char {
    if 65 <= (c as u32) <= 90 {
        ((c as u32) + 32) as char
    } else {
        c
    }
}

/// `s` with its ASCII letters in lower case.
pub open spec fn lowercase_spec(s: Seq<char>) -> Seq<char> {
    Seq::new(s.len(), |i: int| lower_ascii(s[i]))
}

fn lowercase(s: &Vec<char>) -> (lower: Vec<char>)
    ensures
        lower@ == lowercase_spec(s@),
{
    let mut lower: Vec<char> = Vec::new();
    let mut i: usize = 0;
    while i < s.len()
        invariant
            i <= s@.len(),
            lower@.len() == i,
            forall|k: int| 0 <= k < i ==> lower@[k] == lower_ascii(s@[k]),
        decreases s@.len() - i,
    {
        let c = s[i];
        let code = c as u32;
        let folded = if 65 <= code && code <= 90 {
            ((code + 32) as u8) as char
        } else {
            c
        };
        lower.push(folded);
        i = i + 1;
    }
    assert(lower@ =~= lowercase_spec(s@));
    lower
}

/// `needle` occurs in `haystack`.
pub open spec fn contains_run(haystack: Seq<char>, needle: Seq<char>) -> bool {
    exists|i: int|
        0 <= i <= haystack.len() - needle.len() && #[trigger] haystack.subrange(i, i + needle.len())
            == needle
}

fn occurs_at(haystack: &Vec<char>, needle: &Vec<char>, at: usize) -> (found: bool)
    requires
        at + needle@.len() <= haystack@.len(),
    ensures
        found == (haystack@.subrange(at as int, at + needle@.len()) == needle@),
{
    let total = haystack.len();
    let mut k: usize = 0;
    while k < needle.len()
        invariant
            k <= needle@.len(),
            at + needle@.len() <= haystack@.len(),
            haystack@.len() == total,
            forall|j: int| 0 <= j < k ==> haystack@[at + j] == needle@[j],
        decreases needle@.len() - k,
    {
        if haystack[at + k] != needle[k] {
            proof {
                let run = haystack@.subrange(at as int, at + needle@.len());
                assert(run[k as int] != needle@[k as int]);
            }
            return false;
        }
        k = k + 1;
    }
    assert(haystack@.subrange(at as int, at + needle@.len()) =~= needle@);
    true
}

fn contains_chars(haystack: &Vec<char>, needle: &Vec<char>) -> (found: bool)
    ensures
        found == contains_run(haystack@, needle@),
{
    if needle.len() > haystack.len() {
        return false;
    }
    let last = haystack.len() - needle.len();
    let mut at: usize = 0;
    while at <= last
        invariant
            last == haystack@.len() - needle@.len(),
            at <= last + 1,
            forall|j: int|
                0 <= j < at ==> #[trigger] haystack@.subrange(j, j + needle@.len()) != needle@,
        decreases last + 1 - at,
    {
        if occurs_at(haystack, needle, at) {
            return true;
        }
        if at == last {
            return false;
        }
        at = at + 1;
    }
    false
}

/// What an inline query asks for.
#[derive(Debug)]
pub struct InlineQuery {
    /// `catch:<id>` shares exactly that stored catch.
    pub exact_item_id: Option<i64>,
    /// Otherwise a non-empty query filters by species name, ignoring ASCII case.
    pub filter: Option<Vec<char>>,
}

/// The item id of a `catch:<id>` query.
pub open spec fn exact_item_spec(query: Seq<char>) -> Option<i64> {
    let prefix = "catch:"@;
    if query.len() >= prefix.len() && query.subrange(0, prefix.len() as int) == prefix {
        parse_i64_spec(trimmed(query.subrange(prefix.len() as int, query.len() as int), false))
    } else {
        None
    }
}

/// Reads an inline query.
pub fn inline_query(query: &str) -> (parsed: InlineQuery)
    ensures
        parsed.exact_item_id == exact_item_spec(query@),
        parsed.filter is Some <==> (parsed.exact_item_id is None && trimmed(query@, false).len() > 0),
        parsed.filter matches Some(f) ==> f@ == lowercase_spec(trimmed(query@, false)),
{
    let chars = chars_of(query);
    let prefix = chars_of("catch:");
    proof {
        reveal_strlit("catch:");
    }
    let exact = if chars.len() >= prefix.len() && occurs_at(&chars, &prefix, 0) {
        let mut rest: Vec<char> = Vec::new();
        let mut i: usize = prefix.len();
        while i < chars.len()
            invariant
                prefix@.len() <= i <= chars@.len(),
                rest@ == chars@.subrange(prefix@.len() as int, i as int),
            decreases chars@.len() - i,
        {
            rest.push(chars[i]);
            i = i + 1;
            assert(rest@ =~= chars@.subrange(prefix@.len() as int, i as int));
        }
        let value = trim_chars(&rest, false);
        parse_i64(&value)
    } else {
        None
    };
    let trimmed_query = trim_chars(&chars, false);
    let filter = if trimmed_query.len() > 0 && exact.is_none() {
        Some(lowercase(&trimmed_query))
    } else {
        None
    };
    InlineQuery { exact_item_id: exact, filter }
}

/// A stored catch that may be shared, with the heaviest weights it is measured against.
#[derive(Debug)]
pub struct InlineRow {
    pub item_id: i64,
    pub species_id: SpeciesId,
    pub length_mm: u32,
    pub weight_g: u32,
    pub location_id: LocationId,
    pub owner_name: String,
    /// Heaviest catch of this species by the owner.
    pub personal_best_g: u32,
    /// Heaviest catch of this species by anyone.
    pub world_best_g: u32,
}

/// Whether a row passes the name filter.
pub open spec fn passes_filter(content: Content, filter: Option<Vec<char>>, row: InlineRow) -> bool {
    match filter {
        None => true,
        Some(f) => contains_run(lowercase_spec(content.species_spec(row.species_id).name@), f@),
    }
}

/// The rows that pass the filter, in order.
pub open spec fn passing_rows(content: Content, filter: Option<Vec<char>>, rows: Seq<InlineRow>) -> Seq<InlineRow>
    decreases rows.len(),
{
    if rows.len() == 0 {
        Seq::empty()
    } else {
        let rest = passing_rows(content, filter, rows.drop_last());
        if passes_filter(content, filter, rows.last()) {
            rest.push(rows.last())
        } else {
            rest
        }
    }
}

/// `card` shares `row`.
pub open spec fn card_matches(content: Content, card: InlineCatchView, row: InlineRow) -> bool {
    &&& card.item_id == row.item_id
    &&& card.species_name@ == content.species_spec(row.species_id).name@
    &&& card.length_mm == row.length_mm
    &&& card.weight_g == row.weight_g
    &&& card.location_name@ == content.location_spec(row.location_id).name@
    &&& card.owner_name == row.owner_name
    &&& card.personal_best == (row.weight_g == row.personal_best_g)
    &&& card.world_best == (row.weight_g == row.world_best_g)
}

/// The cards that answer an inline query: the rows that pass the filter, in order, at most
/// `INLINE_CATCH_LIMIT` of them.
pub fn inline_catch_views(content: &Content, query: &InlineQuery, rows: &Vec<InlineRow>) -> (cards: Vec<
    InlineCatchView,
>)
    requires
        content.is_indexed(),
        forall|i: int|
            0 <= i < rows@.len() ==> has_key(content.species@, (#[trigger] rows@[i]).species_id.0 as int)
                && has_key(content.locations@, rows@[i].location_id.0 as int),
    ensures
        ({
            let passing = passing_rows(*content, query.filter, rows@);
            &&& cards@.len() == if passing.len() < INLINE_CATCH_LIMIT {
                passing.len() as int
            } else {
                INLINE_CATCH_LIMIT as int
            }
            &&& forall|i: int| 0 <= i < cards@.len() ==> card_matches(*content, #[trigger] cards@[i], passing[i])
        }),
{
    let ghost all = rows@;
    let mut cards: Vec<InlineCatchView> = Vec::new();
    let mut taken: usize = 0;
    while taken < rows.len() && cards.len() < INLINE_CATCH_LIMIT
        invariant
            content.is_indexed(),
            all == rows@,
            forall|i: int|
                0 <= i < all.len() ==> has_key(content.species@, (#[trigger] all[i]).species_id.0 as int)
                    && has_key(content.locations@, all[i].location_id.0 as int),
            taken <= all.len(),
            cards@.len() <= INLINE_CATCH_LIMIT,
            cards@.len() == passing_rows(*content, query.filter, all.take(taken as int)).len(),
            forall|i: int|
                0 <= i < cards@.len() ==> card_matches(
                    *content,
                    #[trigger] cards@[i],
                    passing_rows(*content, query.filter, all.take(taken as int))[i],
                ),
        decreases all.len() - taken,
    {
        let row = &rows[taken];
        proof {
            assert(all.take(taken as int + 1).drop_last() =~= all.take(taken as int));
            assert(all.take(taken as int + 1).last() == *row);
        }
        let species = content.species(row.species_id);
        let keep = match &query.filter {
            None => true,
            Some(f) => contains_chars(&lowercase(&chars_of(species.name.as_str())), f),
        };
        if keep {
            let location = content.location(row.location_id);
            cards.push(
                InlineCatchView {
                    item_id: row.item_id,
                    species_name: species.name.clone(),
                    length_mm: row.length_mm,
                    weight_g: row.weight_g,
                    location_name: location.name.clone(),
                    owner_name: row.owner_name.clone(),
                    personal_best: row.weight_g == row.personal_best_g,
                    world_best: row.weight_g == row.world_best_g,
                },
            );
        }
        taken = taken + 1;
    }
    proof {
        lemma_passing_prefix(*content, query.filter, all, taken as int);
        if cards@.len() < INLINE_CATCH_LIMIT {
            assert(all.take(taken as int) =~= all);
        }
    }
    cards
}

/// Filtering a prefix keeps a prefix of the filtered rows.
proof fn lemma_passing_prefix(content: Content, filter: Option<Vec<char>>, rows: Seq<InlineRow>, n: int)
    requires
        0 <= n <= rows.len(),
    ensures
        passing_rows(content, filter, rows.take(n)).len() <= passing_rows(content, filter, rows).len(),
        forall|i: int|
            0 <= i < passing_rows(content, filter, rows.take(n)).len() ==> #[trigger] passing_rows(
                content,
                filter,
                rows.take(n),
            )[i] == passing_rows(content, filter, rows)[i],
    decreases rows.len() - n,
{
    if n < rows.len() {
        lemma_passing_prefix(content, filter, rows, n + 1);
        assert(rows.take(n + 1).drop_last() =~= rows.take(n));
        let shorter = passing_rows(content, filter, rows.take(n));
        let longer = passing_rows(content, filter, rows.take(n + 1));
        assert forall|i: int| 0 <= i < shorter.len() implies #[trigger] shorter[i] == passing_rows(
            content,
            filter,
            rows,
        )[i] by {
            assert(shorter[i] == longer[i]);
        }
    } else {
        assert(rows.take(n) =~= rows);
    }
}

} // verus!
