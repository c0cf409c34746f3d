//! The `Content-Range` field of a response that refuses a range.

use crate::text;
use vstd::prelude::*;

verus! {

/// The total that the field value `text` states for a range that cannot be satisfied.
pub open spec fn stated_total(text: Seq<char>) -> Option<u64> {
    let prefix = "bytes */"@;
    if text.len() >= prefix.len() && text.take(prefix.len() as int) == prefix {
        text::parsed_u64(text::trim(text.skip(prefix.len() as int)))
    } else {
        None
    }
}

/// The resource's total from a 416's `Content-Range: bytes */N`, or `None` for anything else.
pub fn unsatisfiable_range_total(content_range: Option<&str>) -> (total: Option<u64>)
    ensures
        total == match content_range {
            Some(text) => stated_total(text@),
            None => None,
        },
{
    let chars: Vec<char> = match content_range {
        Some(text) => text::chars_of(text),
        None => {
            return None;
        },
    };
    let prefix: Vec<char> = text::chars_of("bytes */");
    if chars.len() < prefix.len() {
        return None;
    }
    let mut at: usize = 0;
    while at < prefix.len()
        invariant
            at <= prefix.len() <= chars.len(),
            prefix@ == "bytes */"@,
            content_range is Some,
            chars@ == content_range->0@,
            forall|i: int| 0 <= i < at ==> chars@[i] == prefix@[i],
        decreases prefix.len() - at,
    {
        if chars[at] != prefix[at] {
            assert(chars@.take(prefix.len() as int)[at as int] != prefix@[at as int]);
            return None;
        }
        at = at + 1;
    }
    assert(chars@.take(prefix.len() as int) == prefix@);
    let (from, to): (usize, usize) = text::trimmed_bounds(&chars, prefix.len(), chars.len());
    assert(chars@.skip(prefix.len() as int) == chars@.subrange(
        prefix.len() as int,
        chars.len() as int,
    ));
    text::parse_u64(&chars, from, to)
}

/// A refusal that states `bytes */N` is read as the total `N`.
pub proof fn law_stated_total_is_read(n: u64)
    ensures
        stated_total("bytes */"@ + text::decimal(n as nat)) == Some(n),
{
    let prefix = "bytes */"@;
    let digits = text::decimal(n as nat);
    text::law_decimal_reads_back(n as nat);
    assert((prefix + digits).take(prefix.len() as int) == prefix);
    assert((prefix + digits).skip(prefix.len() as int) == digits);
    assert(text::is_digit(digits[0]));
    assert(text::is_digit(digits.last()));
    assert(text::trim(digits) == digits);
    assert(text::without_plus(digits) == digits);
}

/// Behind `bytes */`, and whatever white space is around it, the total is the number that stands
/// there.
pub proof fn law_total_stands_behind_the_star(
    before: Seq<char>,
    number: Seq<char>,
    after: Seq<char>,
)
    requires
        forall|i: int| 0 <= i < before.len() ==> text::white_space(#[trigger] before[i]),
        forall|i: int| 0 <= i < after.len() ==> text::white_space(#[trigger] after[i]),
        number.len() > 0 ==> !text::white_space(number.first()) && !text::white_space(
            number.last(),
        ),
    ensures
        stated_total("bytes */"@ + (before + number + after)) == text::parsed_u64(number),
{
    let prefix = "bytes */"@;
    let rest = before + number + after;
    assert((prefix + rest).take(prefix.len() as int) == prefix);
    assert((prefix + rest).skip(prefix.len() as int) == rest);
    text::law_trim_takes_the_white_space(before, number, after);
}

/// A text that does not begin with `bytes */` states no total.
pub proof fn law_no_total_without_the_star(text: Seq<char>)
    requires
        !"bytes */"@.is_prefix_of(text),
    ensures
        stated_total(text) is None,
{
    let prefix = "bytes */"@;
    if text.len() >= prefix.len() && text.take(prefix.len() as int) == prefix {
        assert(prefix.is_prefix_of(text));
    }
}

} // verus!
