//! Decimal text of integers: how an identifier is written into a message and
//! how a path segment is read back as an identifier.

use vstd::prelude::*;

verus! {

/// The byte of `'-'`.
const MINUS: u8 = 45;

/// The byte of `'+'`.
const PLUS: u8 = 43;

/// The byte of `'0'`.
const ZERO: u8 = 48;

/// The byte of `'9'`.
const NINE: u8 = 57;

/// The character that writes the digit `d`, for `0 <= d <= 9`.
pub open spec fn digit_char(d: int) -> char {
    (d + 48) as u8 as char
}

/// `c` is one of `'0'` to `'9'`.
pub open spec fn is_digit(c: char) -> bool {
    '0' <= c && c <= '9'
}

/// The digit that `c` writes, for a `c` that is a digit.
pub open spec fn digit_value(c: char) -> int {
    c as int - 48
}

/// The digits of `n`, most significant first, without leading zeros.
pub open spec fn digits_of(n: nat) -> Seq<char>
    decreases n,
{
    if n < 10 {
        seq![digit_char(n as int)]
    } else {
        digits_of(n / 10).push(digit_char((n % 10) as int))
    }
}

/// The decimal text of `v`: a minus sign for a negative number, then its digits.
pub open spec fn decimal(v: int) -> Seq<char> {
    if v < 0 {
        seq!['-'] + digits_of((-v) as nat)
    } else {
        digits_of(v as nat)
    }
}

/// `s` is one or more digits.
pub open spec fn is_digits(s: Seq<char>) -> bool {
    &&& s.len() > 0
    &&& forall|i: int| 0 <= i < s.len() ==> is_digit(#[trigger] s[i])
}

/// The number that a sequence of digits writes; leading zeros count for nothing.
pub open spec fn digits_value(s: Seq<char>) -> nat
    decreases s.len(),
{
    if s.len() == 0 {
        0
    } else {
        (digits_value(s.drop_last()) * 10 + digit_value(s.last())) as nat
    }
}

/// The integer that `s` writes: an optional `+` or `-`, then one or more
/// digits. `None` for any other text.
pub open spec fn parse_decimal(s: Seq<char>) -> Option<int> {
    if s.len() > 0 && s[0] == '-' {
        let body = s.subrange(1, s.len() as int);
        if is_digits(body) {
            Some(-(digits_value(body) as int))
        } else {
            None
        }
    } else if s.len() > 0 && s[0] == '+' {
        let body = s.subrange(1, s.len() as int);
        if is_digits(body) {
            Some(digits_value(body) as int)
        } else {
            None
        }
    } else if is_digits(s) {
        Some(digits_value(s) as int)
    } else {
        None
    }
}

/// The 32-bit signed integer that `s` writes; `None` where `s` writes no
/// integer or one outside the 32-bit range.
pub open spec fn parse_i32(s: Seq<char>) -> Option<int> {
    match parse_decimal(s) {
        Some(v) => if i32::MIN <= v <= i32::MAX {
            Some(v)
        } else {
            None
        },
        None => None,
    }
}

/// The digits of a number are digits, and they write that number.
pub proof fn lemma_digits_of(n: nat)
    ensures
        is_digits(digits_of(n)),
        digits_value(digits_of(n)) == n,
    decreases n,
{
    if n < 10 {
        let s = digits_of(n);
        assert(s.drop_last() =~= Seq::<char>::empty());
        assert(digits_value(s.drop_last()) == 0);
    } else {
        lemma_digits_of(n / 10);
        let head = digits_of(n / 10);
        let s = digits_of(n);
        assert(s.drop_last() =~= head);
        assert forall|i: int| 0 <= i < s.len() implies is_digit(#[trigger] s[i]) by {
            if i < head.len() {
                assert(s[i] == head[i]);
            }
        }
    }
}

/// Reading back the decimal text of an integer gives that integer.
pub proof fn lemma_parse_decimal_of_decimal(v: int)
    ensures
        parse_decimal(decimal(v)) == Some(v),
{
    if v < 0 {
        let d = digits_of((-v) as nat);
        lemma_digits_of((-v) as nat);
        let s = decimal(v);
        assert(s.subrange(1, s.len() as int) =~= d);
    } else {
        lemma_digits_of(v as nat);
        let s = decimal(v);
        assert(is_digit(s[0]));
    }
}

/// Reading back the decimal text of a 32-bit integer gives that integer.
pub proof fn lemma_parse_i32_of_decimal(v: i32)
    ensures
        parse_i32(decimal(v as int)) == Some(v as int),
{
    lemma_parse_decimal_of_decimal(v as int);
}

/// A prefix of a digit sequence writes no more than the whole sequence.
proof fn lemma_prefix_value(s: Seq<char>, k: int)
    requires
        0 <= k <= s.len(),
        forall|i: int| 0 <= i < s.len() ==> is_digit(#[trigger] s[i]),
    ensures
        digits_value(s.subrange(0, k)) <= digits_value(s),
    decreases s.len() - k,
{
    if k == s.len() {
        assert(s.subrange(0, k) =~= s);
    } else {
        lemma_prefix_value(s, k + 1);
        let next = s.subrange(0, k + 1);
        assert(next.drop_last() =~= s.subrange(0, k));
        assert(is_digit(s[k]));
        assert(next.last() == s[k]);
    }
}

/// The text of one digit.
fn digit_text(d: u8) -> (s: &'static str)
    requires
        d < 10,
    ensures
        s@ == seq![digit_char(d as int)],
{
    proof {
        reveal_strlit("0");
        reveal_strlit("1");
        reveal_strlit("2");
        reveal_strlit("3");
        reveal_strlit("4");
        reveal_strlit("5");
        reveal_strlit("6");
        reveal_strlit("7");
        reveal_strlit("8");
        reveal_strlit("9");
    }
    let s = match d {
        0 => "0",
        1 => "1",
        2 => "2",
        3 => "3",
        4 => "4",
        5 => "5",
        6 => "6",
        7 => "7",
        8 => "8",
        _ => "9",
    };
    assert(s@ =~= seq![digit_char(d as int)]);
    s
}

/// Appends the digits of `n` to `out`.
pub fn push_digits(out: &mut String, n: u128)
    ensures
        final(out)@ == old(out)@ + digits_of(n as nat),
    decreases n,
{
    if n >= 10 {
        push_digits(out, n / 10);
    }
    let d: u8 = (n % 10) as u8;
    out.append(digit_text(d));
    assert(final(out)@ =~= old(out)@ + digits_of(n as nat));
}

/// The decimal text of an unsigned number.
pub fn format_unsigned(n: u128) -> (text: String)
    ensures
        text@ == digits_of(n as nat),
{
    let mut text = String::new();
    push_digits(&mut text, n);
    assert(text@ =~= digits_of(n as nat));
    text
}

/// Appends the decimal text of `v` to `out`.
pub fn push_i32(out: &mut String, v: i32)
    ensures
        final(out)@ == old(out)@ + decimal(v as int),
{
    if v < 0 {
        proof {
            reveal_strlit("-");
        }
        out.append("-");
        let magnitude: u128 = (-(v as i64)) as u128;
        push_digits(out, magnitude);
        assert(final(out)@ =~= old(out)@ + decimal(v as int));
    } else {
        push_digits(out, v as u128);
    }
}

/// The decimal text of a 32-bit signed integer.
pub fn format_i32(v: i32) -> (text: String)
    ensures
        text@ == decimal(v as int),
{
    let mut text = String::new();
    push_i32(&mut text, v);
    assert(text@ =~= decimal(v as int));
    text
}

/// Reads a 32-bit signed integer: an optional sign, then one or more digits.
/// Any other text, and a number outside the 32-bit range, gives `None`.
pub fn parse_i32_text(text: &str) -> (value: Option<i32>)
    ensures
        match value {
            Some(v) => parse_i32(text@) == Some(v as int),
            None => parse_i32(text@) is None,
        },
{
    if !text.is_ascii() {
        proof {
            lemma_not_ascii_not_decimal(text@);
        }
        return None;
    }
    let n: usize = text.unicode_len();
    if n == 0 {
        return None;
    }
    let first: u8 = text.get_ascii(0);
    let negative: bool = first == MINUS;
    let start: usize = if first == MINUS || first == PLUS {
        1
    } else {
        0
    };
    let ghost body = text@.subrange(start as int, n as int);
    proof {
        assert('\0' <= text@[0] <= '\u{7f}');
        assert(first == MINUS <==> text@[0] == '-');
        assert(first == PLUS <==> text@[0] == '+');
        if start == 0 {
            assert(body =~= text@);
        }
    }
    if start == n {
        return None;
    }
    let mut acc: i64 = 0;
    let mut i: usize = start;
    assert(body.subrange(0, 0) =~= Seq::<char>::empty());
    while i < n
        invariant
            text.is_ascii(),
            n == text@.len(),
            start < n,
            start <= i <= n,
            body == text@.subrange(start as int, n as int),
            !is_digits(body) ==> parse_decimal(text@) is None,
            is_digits(body) ==> parse_decimal(text@) == Some(
                if negative {
                    -(digits_value(body) as int)
                } else {
                    digits_value(body) as int
                },
            ),
            forall|j: int| 0 <= j < i - start ==> is_digit(#[trigger] body[j]),
            acc == digits_value(body.subrange(0, i - start)),
            0 <= acc <= 2147483648,
        decreases n - i,
    {
        let b: u8 = text.get_ascii(i);
        proof {
            assert('\0' <= text@[i as int] <= '\u{7f}');
            assert(body[i - start] == text@[i as int]);
        }
        if b < ZERO || b > NINE {
            assert(!is_digit(body[i - start]));
            return None;
        }
        let ghost prefix = body.subrange(0, i - start);
        let ghost next = body.subrange(0, i - start + 1);
        proof {
            assert(next.drop_last() =~= prefix);
            assert(next.last() == body[i - start]);
            assert(is_digit(body[i - start]));
        }
        acc = acc * 10 + (b - ZERO) as i64;
        if acc > 2147483648 {
            proof {
                if is_digits(body) {
                    lemma_prefix_value(body, i - start + 1);
                }
            }
            return None;
        }
        i = i + 1;
    }
    proof {
        assert(body.subrange(0, n - start) =~= body);
        assert(is_digits(body));
    }
    if negative {
        Some((-acc) as i32)
    } else if acc > 2147483647 {
        None
    } else {
        Some(acc as i32)
    }
}

/// A text with a character outside ASCII writes no integer.
proof fn lemma_not_ascii_not_decimal(s: Seq<char>)
    requires
        !vstd::utf8::is_ascii_chars(s),
    ensures
        parse_decimal(s) is None,
        parse_i32(s) is None,
{
    let i = choose|i: int| 0 <= i < s.len() && !('\0' <= #[trigger] s[i] <= '\u{7f}');
    assert(!is_digit(s[i]));
    if i > 0 {
        let body = s.subrange(1, s.len() as int);
        assert(body[i - 1] == s[i]);
    }
}

} // verus!
