//! Numbers in decimal notation.
use vstd::prelude::*;
use vstd::string::*;

verus! {

/// Says that a character is a decimal digit.
pub open spec fn is_digit(c: char) -> bool {
    '0' <= c <= '9'
}

/// Says that a text consists of one or more decimal digits.
pub open spec fn is_number(text: Seq<char>) -> bool {
    text.len() > 0 && forall|i: int| 0 <= i < text.len() ==> is_digit(#[trigger] text[i])
}

/// The number that a text of decimal digits stands for.
pub open spec fn number(text: Seq<char>) -> nat
    decreases text.len(),
{
    if text.len() == 0 {
        0
    } else {
        (10 * number(text.drop_last()) + (text.last() as int - '0' as int)) as nat
    }
}

/// The digits of a text that may begin with a plus sign.
pub open spec fn without_plus(text: Seq<char>) -> Seq<char> {
    if text.len() > 0 && text[0] == '+' {
        text.skip(1)
    } else {
        text
    }
}

/// The 32-bit number that a text stands for: decimal digits, which a plus sign may precede.
pub open spec fn parsed_u32(text: Seq<char>) -> Option<u32> {
    let digits = without_plus(text);
    if is_number(digits) && number(digits) <= u32::MAX {
        Some(number(digits) as u32)
    } else {
        None
    }
}

/// The decimal notation of a number, without leading zeros.
pub open spec fn notation(n: nat) -> Seq<char>
    decreases n,
{
    let last = ((n % 10) + '0' as int) as char;
    if n < 10 {
        seq![last]
    } else {
        notation(n / 10).push(last)
    }
}

proof fn lemma_number_grows(text: Seq<char>, k: int)
    requires
        is_number(text),
        0 <= k <= text.len(),
    ensures
        number(text.take(k)) <= number(text),
    decreases text.len() - k,
{
    if k < text.len() {
        assert(text.take(k + 1).drop_last() == text.take(k));
        assert(is_digit(text[k]));
        lemma_number_grows(text, k + 1);
    } else {
        assert(text.take(k) == text);
    }
}

/// Reads a 32-bit number.
pub fn parse_u32(text: &str) -> (n: Option<u32>)
    ensures
        n == parsed_u32(text@),
{
    let len: usize = text.unicode_len();
    let start: usize = if len > 0 && text.get_char(0) == '+' {
        1
    } else {
        0
    };
    let ghost digits = without_plus(text@);
    assert(digits == text@.skip(start as int));
    if start == len {
        return None;
    }
    let mut n: u32 = 0;
    let mut i: usize = start;
    while i < len
        invariant
            start <= i <= len == text@.len(),
            start < len,
            digits == text@.skip(start as int),
            digits == without_plus(text@),
            forall|j: int| 0 <= j < i - start ==> is_digit(#[trigger] digits[j]),
            n == number(digits.take(i - start)),
        decreases len - i,
    {
        let c: char = text.get_char(i);
        assert(digits[i - start] == c);
        if c < '0' || c > '9' {
            return None;
        }
        let digit: u32 = c as u32 - '0' as u32;
        proof {
            let next = digits.take(i - start + 1);
            assert(next.drop_last() == digits.take(i - start));
            assert(next.last() == c);
            assert(number(next) == 10 * n + digit);
            if is_number(digits) {
                lemma_number_grows(digits, i - start + 1);
            }
        }
        if n > (u32::MAX - digit) / 10 {
            return None;
        }
        n = n * 10 + digit;
        i += 1;
    }
    assert(digits.take(len - start) == digits);
    Some(n)
}

/// Writes a number in decimal notation.
pub fn to_notation(n: usize) -> (text: String)
    ensures
        text@ == notation(n as nat),
    decreases n,
{
    let mut text: String = if n < 10 {
        String::new()
    } else {
        to_notation(n / 10)
    };
    text.append(digit_text((n % 10) as u8));
    assert(text@ == notation(n as nat));
    text
}

/// The digit for a number below ten.
fn digit_text(n: u8) -> (text: &'static str)
    requires
        n < 10,
    ensures
        text@ == seq![(n + '0' as int) as char],
{
    proof {
        reveal_strlit("0");
        reveal_strlit("1");
        reveal_strlit("2");
        reveal_strlit("3");
        reveal_strlit("4");
        reveal_strlit("5");
        reveal_strlit("6");
        reveal_strlit("7");
        reveal_strlit("8");
        reveal_strlit("9");
    }
    match n {
        0 => "0",
        1 => "1",
        2 => "2",
        3 => "3",
        4 => "4",
        5 => "5",
        6 => "6",
        7 => "7",
        8 => "8",
        _ => "9",
    }
}

/// A number is read digit by digit: one more digit makes ten times the number and the digit, as
/// long as that fits, and a text that is not a number does not become one by going on. There is no
/// number without a digit, and a plus sign counts for nothing in front of the first one.
pub proof fn law_read_digit_by_digit(text: Seq<char>, c: char)
    ensures
        parsed_u32(seq![]) is None,
        parsed_u32(seq!['+']) is None,
        '0' <= c <= '9' ==> parsed_u32(seq![c]) == Some((c as int - '0' as int) as u32),
        '0' <= c <= '9' ==> parsed_u32(seq!['+', c]) == parsed_u32(seq![c]),
        !('0' <= c <= '9') ==> parsed_u32(text.push(c)) is None,
        '0' <= c <= '9' && parsed_u32(text) is Some ==> parsed_u32(text.push(c)) == (if 10
            * parsed_u32(text)->0 + (c as int - '0' as int) <= u32::MAX {
            Some((10 * parsed_u32(text)->0 + (c as int - '0' as int)) as u32)
        } else {
            None
        }),
        text.len() > 0 && text != seq!['+'] && parsed_u32(text) is None ==> parsed_u32(
            text.push(c),
        ) is None,
{
    let longer = text.push(c);
    assert(seq![c].drop_last() == Seq::<char>::empty());
    assert(seq!['+', c].skip(1) == seq![c]);
    assert(seq!['+'].skip(1) == Seq::<char>::empty());
    if is_digit(c) {
        assert(is_digit(seq![c][0]));
        assert(number(seq![c].drop_last()) == 0);
        assert(is_number(seq![c]));
        assert(number(seq![c]) == c as int - '0' as int);
    }
    if text.len() > 0 {
        let digits = without_plus(text);
        let more = without_plus(longer);
        assert(longer[0] == text[0]);
        assert(more == digits.push(c));
        assert(more.drop_last() == digits);
        assert(more.last() == c);
        if digits.len() > 0 {
            if is_number(digits) && is_digit(c) {
                assert(is_number(more));
            }
            if is_number(more) {
                assert forall|i: int| 0 <= i < digits.len() implies is_digit(
                    #[trigger] digits[i],
                ) by {
                    assert(more[i] == digits[i]);
                }
            }
            if !is_digit(c) {
                assert(more[digits.len() as int] == c);
                assert(!is_number(more));
            }
        } else {
            assert(text == seq!['+']);
            assert(more == seq![c]);
            if !is_digit(c) {
                assert(!is_digit(more[0]));
            }
        }
    } else {
        assert(longer == seq![c]);
        if !is_digit(c) && c != '+' {
            assert(!is_digit(longer[0]));
        }
    }
}

/// The notation of a number has no leading zeros.
pub proof fn law_no_leading_zeros(n: nat)
    ensures
        notation(n).len() > 0,
        n > 0 ==> notation(n)[0] != '0',
        n == 0 ==> notation(n) == seq!['0'],
    decreases n,
{
    if n >= 10 {
        law_no_leading_zeros(n / 10);
    }
}

/// Reading the notation of a number gives the number back.
pub proof fn law_notation_reads_back(n: nat)
    ensures
        is_number(notation(n)),
        number(notation(n)) == n,
        n <= u32::MAX ==> parsed_u32(notation(n)) == Some(n as u32),
    decreases n,
{
    let text = notation(n);
    if n >= 10 {
        law_notation_reads_back(n / 10);
        assert(text.drop_last() == notation(n / 10));
        assert forall|i: int| 0 <= i < text.len() implies is_digit(#[trigger] text[i]) by {
            if i < text.len() - 1 {
                assert(text[i] == notation(n / 10)[i]);
            }
        }
    } else {
        assert(text.drop_last() == Seq::<char>::empty());
    }
    assert(number(text.drop_last()) == n / 10);
    assert(text.last() as int - '0' as int == n % 10);
    assert(is_digit(text[0]));
}

} // verus!
