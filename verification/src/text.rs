//! Decimal numbers and blanks in text.

use vstd::prelude::*;

verus! {

/// The characters with the Unicode property White_Space.
pub open spec fn white_space(c: char) -> bool {
    ||| '\u{9}' <= c <= '\u{d}'
    ||| c == ' '
    ||| c == '\u{85}'
    ||| c == '\u{a0}'
    ||| c == '\u{1680}'
    ||| '\u{2000}' <= c <= '\u{200a}'
    ||| c == '\u{2028}'
    ||| c == '\u{2029}'
    ||| c == '\u{202f}'
    ||| c == '\u{205f}'
    ||| c == '\u{3000}'
}

/// `text` without the white space in front.
pub open spec fn trim_start(text: Seq<char>) -> Seq<char>
    decreases text.len(),
{
    if text.len() > 0 && white_space(text.first()) {
        trim_start(text.drop_first())
    } else {
        text
    }
}

/// `text` without the white space behind.
pub open spec fn trim_end(text: Seq<char>) -> Seq<char>
    decreases text.len(),
{
    if text.len() > 0 && white_space(text.last()) {
        trim_end(text.drop_last())
    } else {
        text
    }
}

/// `text` without the white space on either side.
pub open spec fn trim(text: Seq<char>) -> Seq<char> {
    trim_end(trim_start(text))
}

pub open spec fn is_digit(c: char) -> bool {
    '0' <= c <= '9'
}

/// The number that a row of decimal digits writes down.
pub open spec fn digits_value(digits: Seq<char>) -> nat
    decreases digits.len(),
{
    if digits.len() == 0 {
        0
    } else {
        digits_value(digits.drop_last()) * 10 + (digits.last() as nat - '0' as nat) as nat
    }
}

/// The decimal digits of `n`, without leading zeros.
pub open spec fn decimal(n: nat) -> Seq<char>
    decreases n,
{
    if n < 10 {
        seq![('0' as nat + n) as char]
    } else {
        decimal(n / 10).push(('0' as nat + n % 10) as char)
    }
}

/// `text` without one leading plus sign.
pub open spec fn without_plus(text: Seq<char>) -> Seq<char> {
    if text.len() > 0 && text[0] == '+' {
        text.skip(1)
    } else {
        text
    }
}

/// The `u64` that `text` writes down: an optional plus sign and then digits, at least one, and
/// nothing else.
pub open spec fn parsed_u64(text: Seq<char>) -> Option<u64> {
    let digits = without_plus(text);
    if digits.len() > 0 && (forall|i: int| 0 <= i < digits.len() ==> is_digit(#[trigger] digits[i]))
        && digits_value(digits) <= u64::MAX {
        Some(digits_value(digits) as u64)
    } else {
        None
    }
}

/// Whether `c` has the Unicode property White_Space.
pub fn is_white_space(c: char) -> (blank: bool)
    ensures
        blank == white_space(c),
{
    ('\u{9}' <= c && c <= '\u{d}') || c == ' ' || c == '\u{85}' || c == '\u{a0}' || c == '\u{1680}'
        || ('\u{2000}' <= c && c <= '\u{200a}') || c == '\u{2028}' || c == '\u{2029}' || c
        == '\u{202f}' || c == '\u{205f}' || c == '\u{3000}'
}

/// The characters of `text`, one by one.
pub fn chars_of(text: &str) -> (chars: Vec<char>)
    ensures
        chars@ == text@,
{
    let mut chars: Vec<char> = Vec::new();
    for c in it: text.chars()
        invariant
            it.seq() == text@,
            chars@ == it.seq().take(it.index() as int),
    {
        chars.push(c);
    }
    chars
}

/// The part of `chars` from `start` to `end` without the white space on either side, as the
/// bounds of what is left.
pub fn trimmed_bounds(chars: &Vec<char>, start: usize, end: usize) -> (bounds: (usize, usize))
    requires
        start <= end <= chars@.len(),
    ensures
        start <= bounds.0 <= bounds.1 <= end,
        chars@.subrange(bounds.0 as int, bounds.1 as int) == trim(
            chars@.subrange(start as int, end as int),
        ),
{
    let mut from: usize = start;
    while from < end && is_white_space(chars[from])
        invariant
            start <= from <= end <= chars@.len(),
            trim_start(chars@.subrange(from as int, end as int)) == trim_start(
                chars@.subrange(start as int, end as int),
            ),
        decreases end - from,
    {
        assert(chars@.subrange(from as int, end as int).drop_first() == chars@.subrange(
            from + 1,
            end as int,
        ));
        from = from + 1;
    }
    let mut to: usize = end;
    while from < to && is_white_space(chars[to - 1])
        invariant
            start <= from <= to <= end <= chars@.len(),
            trim_end(chars@.subrange(from as int, to as int)) == trim_end(
                chars@.subrange(from as int, end as int),
            ),
        decreases to,
    {
        assert(chars@.subrange(from as int, to as int).drop_last() == chars@.subrange(
            from as int,
            to - 1,
        ));
        to = to - 1;
    }
    (from, to)
}

/// A longer row of digits writes down no smaller number.
proof fn lemma_digits_value_grows(digits: Seq<char>, end: int)
    requires
        0 <= end <= digits.len(),
    ensures
        digits_value(digits.take(end)) <= digits_value(digits),
    decreases digits.len(),
{
    if end < digits.len() {
        lemma_digits_value_grows(digits.drop_last(), end);
        assert(digits.drop_last().take(end) == digits.take(end));
    } else {
        assert(digits.take(end) == digits);
    }
}

/// The `u64` that the part of `chars` from `start` to `end` writes down.
pub fn parse_u64(chars: &Vec<char>, start: usize, end: usize) -> (value: Option<u64>)
    requires
        start <= end <= chars@.len(),
    ensures
        value == parsed_u64(chars@.subrange(start as int, end as int)),
{
    let ghost text = chars@.subrange(start as int, end as int);
    let first: usize = if start < end && chars[start] == '+' {
        start + 1
    } else {
        start
    };
    let ghost digits = without_plus(text);
    assert(digits == chars@.subrange(first as int, end as int));
    if first == end {
        return None;
    }
    let mut value: u64 = 0;
    let mut at: usize = first;
    assert(digits.take(0) == Seq::<char>::empty());
    while at < end
        invariant
            first <= at <= end <= chars@.len(),
            digits == chars@.subrange(first as int, end as int),
            digits == without_plus(text),
            text == chars@.subrange(start as int, end as int),
            value == digits_value(digits.take(at - first)),
            forall|i: int| 0 <= i < at - first ==> is_digit(#[trigger] digits[i]),
        decreases end - at,
    {
        let c: char = chars[at];
        assert(digits[at - first] == c);
        if c < '0' || '9' < c {
            return None;
        }
        let ghost next = digits.take(at - first + 1);
        assert(next.drop_last() == digits.take(at - first));
        proof {
            lemma_digits_value_grows(digits, at - first + 1);
        }
        let digit: u64 = (c as u32 - '0' as u32) as u64;
        match value.checked_mul(10) {
            None => {
                return None;
            },
            Some(tens) => match tens.checked_add(digit) {
                None => {
                    return None;
                },
                Some(sum) => {
                    value = sum;
                },
            },
        }
        at = at + 1;
    }
    assert(digits.take(end - first) == digits);
    Some(value)
}

/// A row of decimal digits that is read back gives the number it was written from.
pub proof fn law_decimal_reads_back(n: nat)
    ensures
        digits_value(decimal(n)) == n,
        decimal(n).len() > 0,
        forall|i: int| 0 <= i < decimal(n).len() ==> is_digit(#[trigger] decimal(n)[i]),
    decreases n,
{
    if n < 10 {
        assert(decimal(n).drop_last() == Seq::<char>::empty());
        assert(digits_value(Seq::<char>::empty()) == 0);
    } else {
        law_decimal_reads_back(n / 10);
        assert(decimal(n).drop_last() == decimal(n / 10));
    }
}

/// One decimal digit.
fn digit_text(digit: u64) -> (text: &'static str)
    requires
        digit < 10,
    ensures
        text@ == decimal(digit as nat),
{
    proof {
        reveal_strlit("0");
        reveal_strlit("1");
        reveal_strlit("2");
        reveal_strlit("3");
        reveal_strlit("4");
        reveal_strlit("5");
        reveal_strlit("6");
        reveal_strlit("7");
        reveal_strlit("8");
        reveal_strlit("9");
    }
    match digit {
        0 => "0",
        1 => "1",
        2 => "2",
        3 => "3",
        4 => "4",
        5 => "5",
        6 => "6",
        7 => "7",
        8 => "8",
        _ => "9",
    }
}

/// `n` in decimal digits.
pub fn decimal_text(n: u64) -> (text: String)
    ensures
        text@ == decimal(n as nat),
    decreases n,
{
    if n < 10 {
        digit_text(n).to_owned()
    } else {
        let mut text: String = decimal_text(n / 10);
        text.append(digit_text(n % 10));
        assert(text@ == decimal(n as nat));
        text
    }
}

/// The codes of the white space characters.
pub proof fn law_white_space_has_these_codes(c: char)
    ensures
        white_space(c) <==> {
            let code = c as int;
            ||| 9 <= code <= 13
            ||| code == 32
            ||| code == 133
            ||| code == 160
            ||| code == 5760
            ||| 8192 <= code <= 8202
            ||| code == 8232
            ||| code == 8233
            ||| code == 8239
            ||| code == 8287
            ||| code == 12288
        },
{
}

/// A digit is one of the ten characters from code 48 on.
pub proof fn law_digits_are_ten(c: char)
    ensures
        is_digit(c) <==> 48 <= c as int <= 57,
{
}

/// A number is written as its tens are, with its ones behind them.
pub proof fn law_decimal_is_tens_and_ones(tens: nat, ones: nat)
    requires
        ones < 10,
    ensures
        decimal(ones).len() == 1,
        decimal(ones)[0] as int == 48 + ones,
        tens > 0 ==> decimal(10 * tens + ones) == decimal(tens) + decimal(ones),
{
    if tens > 0 {
        assert((10 * tens + ones) / 10 == tens);
        assert((10 * tens + ones) % 10 == ones);
        assert(decimal(10 * tens + ones) == decimal(tens) + decimal(ones));
    }
}

/// A digit behind a row of digits makes ten times the number and the digit.
pub proof fn law_next_digit_counts_once(digits: Seq<char>, digit: nat)
    requires
        digit < 10,
    ensures
        digits_value(Seq::empty()) == 0,
        digits_value(digits + decimal(digit)) == 10 * digits_value(digits) + digit,
{
    assert((digits + decimal(digit)).drop_last() == digits);
}

/// Zeros in front of a row of digits do not change the number.
proof fn lemma_leading_zeros(zeros: nat, digits: Seq<char>)
    ensures
        digits_value(Seq::new(zeros, |i: int| '0') + digits) == digits_value(digits),
    decreases zeros + digits.len(),
{
    let text = Seq::new(zeros, |i: int| '0') + digits;
    if digits.len() > 0 {
        lemma_leading_zeros(zeros, digits.drop_last());
        assert(text.drop_last() == Seq::new(zeros, |i: int| '0') + digits.drop_last());
    } else if zeros > 0 {
        lemma_leading_zeros((zeros - 1) as nat, digits);
        assert(text.drop_last() == Seq::new((zeros - 1) as nat, |i: int| '0') + digits);
    } else {
        assert(text == digits);
    }
}

/// Every `u64` is read from its decimal digits, whatever the number of zeros in front of them,
/// and with a plus sign in front of those or without. A number that is larger is not read.
pub proof fn law_every_number_is_read(zeros: nat, n: nat)
    ensures
        ({
            let digits = Seq::new(zeros, |i: int| '0') + decimal(n);
            let expected = if n <= u64::MAX {
                Some(n as u64)
            } else {
                None
            };
            parsed_u64(digits) == expected && parsed_u64(seq!['+'] + digits) == expected
        }),
{
    let digits = Seq::new(zeros, |i: int| '0') + decimal(n);
    law_decimal_reads_back(n);
    lemma_leading_zeros(zeros, decimal(n));
    assert forall|i: int| 0 <= i < digits.len() implies is_digit(#[trigger] digits[i]) by {
        if i >= zeros {
            assert(digits[i] == decimal(n)[i - zeros]);
        }
    }
    assert(is_digit(digits[0]));
    assert(without_plus(digits) == digits);
    assert(without_plus(seq!['+'] + digits) == digits);
}

/// A text with anything but digits behind an optional plus sign, or with no digit at all, is no
/// number.
pub proof fn law_nothing_but_digits_is_read(text: Seq<char>)
    requires
        parsed_u64(text) is Some,
    ensures
        ({
            let start: int = if text.len() > 0 && text[0] == '+' {
                1
            } else {
                0
            };
            &&& text.len() > start
            &&& forall|i: int| start <= i < text.len() ==> 48 <= #[trigger] text[i] as int <= 57
            &&& digits_value(text.skip(start)) == parsed_u64(text)->0
        }),
{
    let start: int = if text.len() > 0 && text[0] == '+' {
        1
    } else {
        0
    };
    let digits = without_plus(text);
    assert(digits == text.skip(start));
    assert forall|i: int| start <= i < text.len() implies 48 <= #[trigger] text[i] as int <= 57 by {
        assert(is_digit(digits[i - start]));
    }
}

proof fn lemma_trim_start(blank: Seq<char>, text: Seq<char>)
    requires
        forall|i: int| 0 <= i < blank.len() ==> white_space(#[trigger] blank[i]),
        text.len() > 0 ==> !white_space(text.first()),
    ensures
        trim_start(blank + text) == text,
    decreases blank.len(),
{
    if blank.len() > 0 {
        assert(white_space(blank[0]));
        assert((blank + text).drop_first() == blank.drop_first() + text);
        lemma_trim_start(blank.drop_first(), text);
    } else {
        assert(blank + text == text);
    }
}

proof fn lemma_trim_end(text: Seq<char>, blank: Seq<char>)
    requires
        forall|i: int| 0 <= i < blank.len() ==> white_space(#[trigger] blank[i]),
        text.len() > 0 ==> !white_space(text.last()),
    ensures
        trim_end(text + blank) == text,
    decreases blank.len(),
{
    if blank.len() > 0 {
        assert(white_space(blank[blank.len() - 1]));
        assert((text + blank).drop_last() == text + blank.drop_last());
        lemma_trim_end(text, blank.drop_last());
    } else {
        assert(text + blank == text);
    }
}

/// White space on either side of a text goes, and nothing else does.
pub proof fn law_trim_takes_the_white_space(before: Seq<char>, text: Seq<char>, after: Seq<char>)
    requires
        forall|i: int| 0 <= i < before.len() ==> white_space(#[trigger] before[i]),
        forall|i: int| 0 <= i < after.len() ==> white_space(#[trigger] after[i]),
        text.len() > 0 ==> !white_space(text.first()) && !white_space(text.last()),
    ensures
        trim(before + text + after) == text,
{
    if text.len() > 0 {
        lemma_trim_start(before, text + after);
        assert(before + text + after == before + (text + after));
        lemma_trim_end(text, after);
    } else {
        let blank = before + after;
        assert(before + text + after == blank + text);
        lemma_trim_start(blank, text);
        assert(text == Seq::<char>::empty());
    }
}

} // verus!
