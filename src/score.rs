//! The high score kept between sessions.

use vstd::prelude::*;

verus! {

/// Whether `c` is an ASCII decimal digit.
pub open spec fn is_digit(c: char) -> bool {
    '0' as u32 <= c as u32 <= '9' as u32
}

/// The value of a digit character.
pub open spec fn digit_value(c: char) -> nat {
    (c as u32 - '0' as u32) as nat
}

/// The number that a run of decimal digits spells, most significant first.
pub open spec fn digits_value(s: Seq<char>) -> nat
    decreases s.len(),
{
    if s.len() == 0 {
        0
    } else {
        digits_value(s.drop_last()) * 10 + digit_value(s.last())
    }
}

/// The text without one leading `+`, which an unsigned number may carry.
pub open spec fn unsigned_body(s: Seq<char>) -> Seq<char> {
    if s.len() > 0 && s[0] == '+' {
        s.drop_first()
    } else {
        s
    }
}

/// Whether the text is an unsigned decimal number that fits in a `usize`.
pub open spec fn is_stored_score(s: Seq<char>) -> bool {
    let d = unsigned_body(s);
    &&& d.len() > 0
    &&& forall|i: int| 0 <= i < d.len() ==> is_digit(#[trigger] d[i])
    &&& digits_value(d) <= usize::MAX
}

/// The score that a stored text stands for: its number, or zero when the text
/// is not a number.
pub open spec fn stored_score(s: Seq<char>) -> nat {
    if is_stored_score(s) {
        digits_value(unsigned_body(s))
    } else {
        0
    }
}

/// A longer run of digits never spells a smaller number.
proof fn lemma_digits_value_grows(s: Seq<char>, i: int, j: int)
    requires
        0 <= i <= j <= s.len(),
        forall|k: int| 0 <= k < s.len() ==> is_digit(#[trigger] s[k]),
    ensures
        digits_value(s.subrange(0, i)) <= digits_value(s.subrange(0, j)),
    decreases j - i,
{
    if i < j {
        lemma_digits_value_grows(s, i, j - 1);
        assert(s.subrange(0, j).drop_last() =~= s.subrange(0, j - 1));
    }
}

/// Digits that already spell a number too large for a `usize` leave the
/// whole text too large, or not a number at all.
proof fn lemma_too_large(d: Seq<char>, m: int)
    requires
        0 <= m <= d.len(),
        digits_value(d.subrange(0, m)) > usize::MAX,
    ensures
        (forall|k: int| 0 <= k < d.len() ==> is_digit(#[trigger] d[k])) ==> digits_value(d)
            > usize::MAX,
{
    if forall|k: int| 0 <= k < d.len() ==> is_digit(#[trigger] d[k]) {
        lemma_digits_value_grows(d, m, d.len() as int);
        assert(d.subrange(0, d.len() as int) =~= d);
    }
}

/// Reads a stored high score: the decimal number the text holds, or zero where
/// it holds anything else, a number too large included.
pub fn parse_high_score(text: &str) -> (r: usize)
    ensures
        r == stored_score(text@),
{
    let n = text.unicode_len();
    let mut start: usize = 0;
    if n > 0 && text.get_char(0) == '+' {
        start = 1;
    }
    let ghost d = unsigned_body(text@);
    assert(d =~= text@.subrange(start as int, n as int));
    if start == n {
        return 0;
    }
    let mut value: usize = 0;
    let mut i: usize = start;
    while i < n
        invariant
            start <= i <= n,
            n == text@.len(),
            d =~= text@.subrange(start as int, n as int),
            d == unsigned_body(text@),
            forall|k: int| 0 <= k < i - start ==> is_digit(#[trigger] d[k]),
            value == digits_value(d.subrange(0, i - start)),
        decreases n - i,
    {
        let c = text.get_char(i) as u32;
        if !('0' as u32 <= c && c <= '9' as u32) {
            assert(!is_digit(d[i - start]));
            assert(!(forall|k: int| 0 <= k < d.len() ==> is_digit(#[trigger] d[k])));
            return 0;
        }
        let digit = (c - '0' as u32) as usize;
        assert(d.subrange(0, i + 1 - start).drop_last() =~= d.subrange(0, i - start));
        assert(digits_value(d.subrange(0, i + 1 - start)) == value * 10 + digit);
        match value.checked_mul(10) {
            Some(tens) => match tens.checked_add(digit) {
                Some(next) => {
                    value = next;
                },
                None => {
                    proof {
                        lemma_too_large(d, i + 1 - start);
                    }
                    return 0;
                },
            },
            None => {
                proof {
                    lemma_too_large(d, i + 1 - start);
                }
                return 0;
            },
        }
        i = i + 1;
    }
    assert(d.subrange(0, n - start) =~= d);
    value
}

/// The high score to keep: the larger of this session's and the stored one.
pub fn best_score(score: usize, stored: usize) -> (r: usize)
    ensures
        r == if score > stored { score } else { stored },
{
    if score > stored {
        score
    } else {
        stored
    }
}

} // verus!
