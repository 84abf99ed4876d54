//! Characters and short texts: white space at the ends of a line, runs of
//! decimal digits and the numbers they denote.

use vstd::prelude::*;

verus! {

/// Whether `c` is white space: one of the 25 characters that Unicode gives
/// the property `White_Space`.
pub open spec fn white_space(c: char) -> bool {
    let code = c as u32;
    ||| 0x09 <= code <= 0x0D
    ||| code == 0x20
    ||| code == 0x85
    ||| code == 0xA0
    ||| code == 0x1680
    ||| 0x2000 <= code <= 0x200A
    ||| code == 0x2028
    ||| code == 0x2029
    ||| code == 0x202F
    ||| code == 0x205F
    ||| code == 0x3000
}

/// Tells whether a character is white space.
pub fn is_white_space(c: char) -> (r: bool)
    ensures
        r == white_space(c),
{
    let code = c as u32;
    (0x09 <= code && code <= 0x0D) || code == 0x20 || code == 0x85 || code == 0xA0
        || code == 0x1680 || (0x2000 <= code && code <= 0x200A) || code == 0x2028
        || code == 0x2029 || code == 0x202F || code == 0x205F || code == 0x3000
}

/// `s` without the white space it starts with.
pub open spec fn skip_leading(s: Seq<char>) -> Seq<char>
    decreases s.len(),
{
    if s.len() > 0 && white_space(s[0]) {
        skip_leading(s.drop_first())
    } else {
        s
    }
}

/// `s` without the white space it ends with.
pub open spec fn skip_trailing(s: Seq<char>) -> Seq<char>
    decreases s.len(),
{
    if s.len() > 0 && white_space(s.last()) {
        skip_trailing(s.drop_last())
    } else {
        s
    }
}

/// `s` with the white space at both ends taken off.
pub open spec fn trimmed(s: Seq<char>) -> Seq<char> {
    skip_trailing(skip_leading(s))
}

proof fn lemma_skip_leading(s: Seq<char>, a: int)
    requires
        0 <= a <= s.len(),
        forall|i: int| 0 <= i < a ==> white_space(s[i]),
        a < s.len() ==> !white_space(s[a]),
    ensures
        skip_leading(s) == s.subrange(a, s.len() as int),
    decreases a,
{
    if a == 0 {
        assert(s.subrange(0, s.len() as int) =~= s);
    } else {
        let rest = s.drop_first();
        assert forall|i: int| 0 <= i < a - 1 implies white_space(rest[i]) by {
            assert(rest[i] == s[i + 1]);
        }
        lemma_skip_leading(rest, a - 1);
        assert(rest.subrange(a - 1, rest.len() as int) =~= s.subrange(a, s.len() as int));
    }
}

proof fn lemma_skip_trailing(s: Seq<char>, b: int)
    requires
        0 <= b <= s.len(),
        forall|i: int| b <= i < s.len() ==> white_space(s[i]),
        0 < b ==> !white_space(s[b - 1]),
    ensures
        skip_trailing(s) == s.subrange(0, b),
    decreases s.len() - b,
{
    if b == s.len() {
        assert(s.subrange(0, b) =~= s);
    } else {
        let rest = s.drop_last();
        lemma_skip_trailing(rest, b);
        assert(rest.subrange(0, b) =~= s.subrange(0, b));
    }
}

/// The line without the white space around it.
pub fn trim(line: &str) -> (inner: &str)
    ensures
        inner@ == trimmed(line@),
{
    let n = line.unicode_len();
    let mut start: usize = 0;
    while start < n && is_white_space(line.get_char(start))
        invariant
            start <= n,
            n == line@.len(),
            forall|i: int| 0 <= i < start ==> white_space(line@[i]),
        decreases n - start,
    {
        start += 1;
    }
    let mut end: usize = n;
    while end > start && is_white_space(line.get_char(end - 1))
        invariant
            start <= end <= n,
            n == line@.len(),
            forall|i: int| end <= i < n ==> white_space(line@[i]),
        decreases end,
    {
        end -= 1;
    }
    proof {
        let s = line@;
        lemma_skip_leading(s, start as int);
        let t = s.subrange(start as int, n as int);
        lemma_skip_trailing(t, end - start);
        assert(t.subrange(0, end - start) =~= s.subrange(start as int, end as int));
    }
    line.substring_char(start, end)
}

/// One of the ten decimal digits of ASCII.
pub open spec fn is_digit(c: char) -> bool {
    '0' <= c && c <= '9'
}

/// The number that a decimal digit stands for.
pub open spec fn digit_value(c: char) -> int {
    c as int - '0' as int
}

/// A text of at least one character, all of them decimal digits.
pub open spec fn is_digit_run(s: Seq<char>) -> bool {
    s.len() > 0 && forall|i: int| 0 <= i < s.len() ==> is_digit(#[trigger] s[i])
}

/// The number that a run of decimal digits denotes.
pub open spec fn digits_value(s: Seq<char>) -> nat
    decreases s.len(),
{
    if s.len() == 0 {
        0
    } else {
        (digits_value(s.drop_last()) * 10 + digit_value(s.last())) as nat
    }
}

/// The number that `s` denotes, where `s` is a run of decimal digits and the
/// number is at most `i32::MAX`.
pub open spec fn number_of(s: Seq<char>) -> Option<i32> {
    if is_digit_run(s) && digits_value(s) <= i32::MAX {
        Some(digits_value(s) as i32)
    } else {
        None
    }
}

proof fn lemma_digits_value_grows(s: Seq<char>, k: int)
    requires
        0 <= k <= s.len(),
        forall|i: int| 0 <= i < s.len() ==> is_digit(#[trigger] s[i]),
    ensures
        digits_value(s.subrange(0, k)) <= digits_value(s),
    decreases s.len() - k,
{
    if k == s.len() {
        assert(s.subrange(0, k) =~= s);
    } else {
        let front = s.drop_last();
        assert(is_digit(s.last()));
        assert forall|i: int| 0 <= i < front.len() implies is_digit(#[trigger] front[i]) by {
            assert(front[i] == s[i]);
        }
        lemma_digits_value_grows(front, k);
        assert(front.subrange(0, k) =~= s.subrange(0, k));
    }
}

/// Reads a run of decimal digits as a number. There is no number where the
/// text is empty, holds anything but digits, or denotes more than `i32::MAX`.
pub fn parse_number(text: &str) -> (value: Option<i32>)
    ensures
        value == number_of(text@),
{
    let n = text.unicode_len();
    if n == 0 {
        return None;
    }
    let mut total: i32 = 0;
    let mut i: usize = 0;
    while i < n
        invariant
            i <= n,
            n == text@.len(),
            forall|j: int| 0 <= j < i ==> is_digit(#[trigger] text@[j]),
            total == digits_value(text@.subrange(0, i as int)),
        decreases n - i,
    {
        let c = text.get_char(i);
        if !(c >= '0' && c <= '9') {
            return None;
        }
        let d: i32 = (c as u32 - '0' as u32) as i32;
        proof {
            let next = text@.subrange(0, i + 1);
            assert(next.drop_last() =~= text@.subrange(0, i as int));
            assert(next.last() == c);
            assert(digits_value(next) == total * 10 + d);
            if total * 10 + d > i32::MAX {
                if is_digit_run(text@) {
                    lemma_digits_value_grows(text@, i + 1);
                }
            }
        }
        if total > (i32::MAX - d) / 10 {
            return None;
        }
        total = total * 10 + d;
        i += 1;
    }
    proof {
        assert(text@.subrange(0, n as int) =~= text@);
    }
    Some(total)
}

/// The character for one decimal digit.
pub open spec fn digit_char(d: int) -> char {
    "0123456789"@[d]
}

/// A natural number written in decimal digits, without leading zeros.
pub open spec fn natural_text(n: nat) -> Seq<char>
    decreases n,
{
    if n < 10 {
        seq![digit_char(n as int)]
    } else {
        natural_text(n / 10) + seq![digit_char((n % 10) as int)]
    }
}

/// An integer written in decimal digits, with `-` before a negative one.
pub open spec fn decimal_text(n: int) -> Seq<char> {
    if n < 0 {
        seq!['-'] + natural_text((-n) as nat)
    } else {
        natural_text(n as nat)
    }
}

fn digit_text(d: u32) -> (text: &'static str)
    requires
        d < 10,
    ensures
        text@ == seq![digit_char(d as int)],
{
    proof {
        reveal_strlit("0123456789");
    }
    let text = "0123456789".substring_char(d as usize, d as usize + 1);
    assert(text@ =~= seq![digit_char(d as int)]);
    text
}

fn push_natural(n: u32, out: &mut String)
    ensures
        final(out)@ == old(out)@ + natural_text(n as nat),
    decreases n,
{
    if n >= 10 {
        push_natural(n / 10, out);
    }
    out.append(digit_text(n % 10));
    assert(out@ =~= old(out)@ + natural_text(n as nat));
}

/// Writes an integer in decimal digits.
pub fn decimal(n: i32) -> (text: String)
    ensures
        text@ == decimal_text(n as int),
{
    let mut text = String::new();
    if n < 0 {
        text.append("-");
        let size: i64 = -(n as i64);
        push_natural(size as u32, &mut text);
        proof {
            reveal_strlit("-");
            assert(text@ =~= decimal_text(n as int));
        }
    } else {
        push_natural(n as u32, &mut text);
        assert(text@ =~= decimal_text(n as int));
    }
    text
}

/// Each of the ten digits is written as the character that stands for it.
pub proof fn law_digit_read_back(d: int)
    requires
        0 <= d < 10,
    ensures
        is_digit(digit_char(d)),
        digit_value(digit_char(d)) == d,
{
    reveal_strlit("0123456789");
    let digits = "0123456789"@;
    assert(digits[0] == '0' && digits[1] == '1' && digits[2] == '2' && digits[3] == '3');
    assert(digits[4] == '4' && digits[5] == '5' && digits[6] == '6' && digits[7] == '7');
    assert(digits[8] == '8' && digits[9] == '9');
}

/// A natural number written in decimal digits is a run of digits that
/// denotes the number: what `decimal` writes of a number from 0 to `i32::MAX`,
/// `parse_number` reads back.
pub proof fn law_number_read_back(n: nat)
    ensures
        is_digit_run(natural_text(n)),
        digits_value(natural_text(n)) == n,
        n <= i32::MAX ==> number_of(decimal_text(n as int)) == Some(n as i32),
    decreases n,
{
    let text = natural_text(n);
    law_digit_read_back((n % 10) as int);
    assert(text.last() == digit_char((n % 10) as int));
    if n >= 10 {
        law_number_read_back(n / 10);
        let front = natural_text(n / 10);
        assert(text.drop_last() =~= front);
        assert forall|i: int| 0 <= i < text.len() implies is_digit(#[trigger] text[i]) by {
            if i < front.len() {
                assert(text[i] == front[i]);
            }
        }
    } else {
        assert(text.drop_last() =~= Seq::<char>::empty());
        assert(digits_value(Seq::<char>::empty()) == 0);
    }
    assert(digits_value(text) == digits_value(text.drop_last()) * 10 + digit_value(text.last()));
}

} // verus!
