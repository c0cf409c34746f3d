//! Entity tags, as an `ETag` field states them.

use vstd::prelude::*;

verus! {

/// The byte `"`.
pub const QUOTE: u8 = 34;

/// An entity tag that is not marked as weak: a quoted text without further quotes.
pub open spec fn is_strong_tag(value: Seq<u8>) -> bool {
    &&& value.len() >= 2
    &&& value.first() == QUOTE
    &&& value.last() == QUOTE
    &&& forall|i: int| 0 < i < value.len() - 1 ==> #[trigger] value[i] != QUOTE
}

/// Whether `value` is an entity tag that compares as equal to itself under strong comparison.
///
/// A weak tag, `W/"..."`, does not, and neither does a value that is no entity tag at all.
pub fn strong_tag(value: &[u8]) -> (strong: bool)
    ensures
        strong == is_strong_tag(value@),
{
    let len: usize = value.len();
    if len < 2 || value[0] != QUOTE || value[len - 1] != QUOTE {
        return false;
    }
    let mut at: usize = 1;
    while at < len - 1
        invariant
            len == value@.len(),
            1 <= at <= len - 1,
            forall|i: int| 0 < i < at ==> #[trigger] value@[i] != QUOTE,
        decreases len - at,
    {
        if value[at] == QUOTE {
            return false;
        }
        at = at + 1;
    }
    true
}

/// Any text between two quotes is a strong tag, as long as it holds no quote itself.
pub proof fn law_quoted_text_is_strong(text: Seq<u8>)
    requires
        !text.contains(34u8),
    ensures
        is_strong_tag(seq![34u8] + text + seq![34u8]),
{
    let value = seq![34u8] + text + seq![34u8];
    assert forall|i: int| 0 < i < value.len() - 1 implies #[trigger] value[i] != QUOTE by {
        assert(value[i] == text[i - 1]);
    }
}

/// A strong tag is a text between two quotes that holds no quote itself, and so begins with a
/// quote: a value that begins with `W/` is none.
pub proof fn law_strong_tag_is_quoted_text(value: Seq<u8>)
    requires
        is_strong_tag(value),
    ensures
        value.len() >= 2,
        value == seq![34u8] + value.subrange(1, value.len() - 1) + seq![34u8],
        !value.subrange(1, value.len() - 1).contains(34u8),
        value[0] != 87u8,
{
    let text = value.subrange(1, value.len() - 1);
    assert forall|i: int| 0 <= i < text.len() implies text[i] != 34u8 by {
        assert(value[i + 1] != QUOTE);
    }
    assert(value == seq![34u8] + text + seq![34u8]);
}

} // verus!
