//! Decimal integer text: a spec for reading an integer out of a JSON number's
//! decimal text, a spec for the canonical text of an integer, the proof that
//! the two invert each other, and the executable parser the decoder uses.

use vstd::prelude::*;

verus! {

/// The numeric value of one decimal digit character.
pub open spec fn digit_of(c: char) -> Option<nat> {
    if c == '0' {
        Some(0 as nat)
    } else if c == '1' {
        Some(1 as nat)
    } else if c == '2' {
        Some(2 as nat)
    } else if c == '3' {
        Some(3 as nat)
    } else if c == '4' {
        Some(4 as nat)
    } else if c == '5' {
        Some(5 as nat)
    } else if c == '6' {
        Some(6 as nat)
    } else if c == '7' {
        Some(7 as nat)
    } else if c == '8' {
        Some(8 as nat)
    } else if c == '9' {
        Some(9 as nat)
    } else {
        None
    }
}

/// The digit character of one value below ten.
pub open spec fn digit_char(d: nat) -> char {
    if d == 0 {
        '0'
    } else if d == 1 {
        '1'
    } else if d == 2 {
        '2'
    } else if d == 3 {
        '3'
    } else if d == 4 {
        '4'
    } else if d == 5 {
        '5'
    } else if d == 6 {
        '6'
    } else if d == 7 {
        '7'
    } else if d == 8 {
        '8'
    } else {
        '9'
    }
}

/// Reads a non-empty run of decimal digits as a natural number; `None` when
/// the text is empty or holds any non-digit.
pub open spec fn parse_digits(s: Seq<char>) -> Option<nat>
    decreases s.len(),
{
    if s.len() == 0 {
        None
    } else if s.len() == 1 {
        digit_of(s[0])
    } else {
        match (parse_digits(s.drop_last()), digit_of(s.last())) {
            (Some(p), Some(d)) => Some(10 * p + d),
            _ => None,
        }
    }
}

/// Reads an optionally `-`-signed run of decimal digits as an integer.
pub open spec fn parse_int(s: Seq<char>) -> Option<int> {
    if s.len() > 0 && s[0] == '-' {
        match parse_digits(s.subrange(1, s.len() as int)) {
            Some(n) => Some(-(n as int)),
            None => None,
        }
    } else {
        match parse_digits(s) {
            Some(n) => Some(n as int),
            None => None,
        }
    }
}

/// The canonical decimal text of a natural number, most significant digit
/// first, with no leading zero except on zero itself.
pub open spec fn dec_digits(n: nat) -> Seq<char>
    decreases n,
{
    if n < 10 {
        seq![digit_char(n)]
    } else {
        dec_digits(n / 10).push(digit_char(n % 10))
    }
}

/// The canonical decimal text of an integer: a `-` sign, then the digits.
pub open spec fn dec_int(n: int) -> Seq<char> {
    if n < 0 {
        seq!['-'] + dec_digits((-n) as nat)
    } else {
        dec_digits(n as nat)
    }
}

/// A digit's character reads back as the digit.
proof fn lemma_digit_char_of(d: nat)
    requires
        d < 10,
    ensures
        digit_of(digit_char(d)) == Some(d),
{
}

/// Canonical digit text reads back as the number it was printed from.
pub proof fn lemma_parse_dec_digits(n: nat)
    ensures
        parse_digits(dec_digits(n)) == Some(n),
    decreases n,
{
    if n < 10 {
        lemma_digit_char_of(n);
    } else {
        lemma_parse_dec_digits(n / 10);
        lemma_digit_char_of(n % 10);
        let s = dec_digits(n);
        assert(s == dec_digits(n / 10).push(digit_char(n % 10)));
        assert(s.len() == dec_digits(n / 10).len() + 1);
        assert(dec_digits(n / 10).len() >= 1) by {
            lemma_dec_digits_len(n / 10);
        }
        assert(s.drop_last() =~= dec_digits(n / 10));
        assert(s.last() == digit_char(n % 10));
        assert(10 * (n / 10) + n % 10 == n) by (nonlinear_arith);
    }
}

/// Digit text is never empty.
proof fn lemma_dec_digits_len(n: nat)
    ensures
        dec_digits(n).len() >= 1,
    decreases n,
{
    if n >= 10 {
        lemma_dec_digits_len(n / 10);
    }
}

/// Canonical integer text reads back as the integer it was printed from.
pub proof fn lemma_parse_dec_int(n: int)
    ensures
        parse_int(dec_int(n)) == Some(n),
{
    if n < 0 {
        let s = dec_int(n);
        lemma_dec_digits_len((-n) as nat);
        assert(s[0] == '-');
        assert(s.subrange(1, s.len() as int) =~= dec_digits((-n) as nat));
        lemma_parse_dec_digits((-n) as nat);
    } else {
        lemma_parse_dec_digits(n as nat);
        let s = dec_int(n);
        lemma_dec_digits_len(n as nat);
        if s[0] == '-' {
            assert(digit_of('-') is None);
            assert(dec_digits(n as nat)[0] == '-');
            lemma_parse_digits_none_at(dec_digits(n as nat), 0);
        }
    }
}

/// One non-digit character makes the whole run unreadable.
pub proof fn lemma_parse_digits_none_at(s: Seq<char>, i: int)
    requires
        0 <= i < s.len(),
        digit_of(s[i]) is None,
    ensures
        parse_digits(s) is None,
    decreases s.len(),
{
    if s.len() > 1 && i < s.len() - 1 {
        assert(s.drop_last()[i] == s[i]);
        lemma_parse_digits_none_at(s.drop_last(), i);
    }
}

/// A digit run read from a prefix never exceeds the value of the whole run.
proof fn lemma_parse_digits_prefix_le(s: Seq<char>, i: int)
    requires
        1 <= i <= s.len(),
        parse_digits(s.subrange(0, i)) is Some,
        parse_digits(s) is Some,
    ensures
        parse_digits(s)->Some_0 >= parse_digits(s.subrange(0, i))->Some_0,
    decreases s.len() - i,
{
    if i < s.len() {
        assert(s.subrange(0, s.len() as int - 1) =~= s.drop_last());
        if i < s.len() - 1 {
            assert(s.drop_last().subrange(0, i) =~= s.subrange(0, i));
            lemma_parse_digits_prefix_le(s.drop_last(), i);
        } else {
            assert(s.subrange(0, i) =~= s.drop_last());
        }
    } else {
        assert(s.subrange(0, i) =~= s);
    }
}

/// Reads an i16 out of decimal text: `Some` exactly when the text is an
/// optionally signed digit run whose value fits in an i16.
pub fn parse_i16_text(s: &str) -> (r: Option<i16>)
    ensures
        (match parse_int(s@) {
            Some(v) => if i16::MIN <= v <= i16::MAX {
                r == Some(v as i16)
            } else {
                r is None
            },
            None => r is None,
        }),
{
    let n = s.unicode_len();
    let neg = n > 0 && s.get_char(0) == '-';
    let start: usize = if neg {
        1
    } else {
        0
    };
    let ghost digits: Seq<char> = if neg {
        s@.subrange(1, s@.len() as int)
    } else {
        s@
    };
    if start >= n {
        // empty text, or a bare sign
        return None;
    }
    let mut acc: u32 = 0;
    let mut i = start;
    while i < n
        invariant
            start <= i <= n,
            n == s@.len(),
            neg <==> (s@.len() > 0 && s@[0] == '-'),
            start == (if neg {
                1int
            } else {
                0int
            }),
            digits == (if neg {
                s@.subrange(1, s@.len() as int)
            } else {
                s@
            }),
            i > start ==> parse_digits(digits.subrange(0, i - start)) == Some(acc as nat),
            i == start ==> acc == 0,
            acc <= 40000,
        decreases n - i,
    {
        let c = s.get_char(i);
        let d: u32 = match c {
            '0' => 0,
            '1' => 1,
            '2' => 2,
            '3' => 3,
            '4' => 4,
            '5' => 5,
            '6' => 6,
            '7' => 7,
            '8' => 8,
            '9' => 9,
            _ => {
                proof {
                    assert(digits[i - start] == c);
                    assert(digit_of(c) is None);
                    lemma_parse_digits_none_at(digits, i - start);
                    assert(parse_digits(digits) is None);
                    assert(parse_int(s@) is None);
                }
                return None;
            },
        };
        proof {
            assert(digits[i - start] == c);
            assert(digit_of(c) == Some(d as nat));
        }
        acc = acc * 10 + d;
        proof {
            let prefix = digits.subrange(0, i + 1 - start);
            assert(prefix.drop_last() =~= digits.subrange(0, i - start));
            assert(prefix.last() == c);
            if i == start {
                assert(prefix.len() == 1);
                assert(prefix[0] == c);
            }
            assert(parse_digits(prefix) == Some(acc as nat));
        }
        i = i + 1;
        if acc > 32768 {
            // any longer digit run can only be larger, so the value cannot
            // fit in an i16 whichever sign it carries
            proof {
                if parse_digits(digits) is Some {
                    lemma_parse_digits_prefix_le(digits, i - start);
                }
            }
            return None;
        }
    }
    proof {
        assert(digits.subrange(0, n - start) =~= digits);
    }
    if neg {
        if acc > 32768 {
            return None;
        }
        let v: i32 = -(acc as i32);
        Some(v as i16)
    } else {
        if acc > 32767 {
            return None;
        }
        Some(acc as i16)
    }
}

} // verus!
