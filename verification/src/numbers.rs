use vstd::prelude::*;

use crate::text::push_char;

verus! {

/// Whether `c` is an ASCII decimal digit.
pub open spec fn is_digit(c: char) -> bool {
    '0' <= c && c <= '9'
}

/// The value of the decimal digit `c`.
pub open spec fn digit_value(c: char) -> int {
    (c as int) - ('0' as int)
}

/// The value of the decimal digits `s`, most significant first.
pub open spec fn digits_value(s: Seq<char>) -> int
    decreases s.len(),
{
    if s.len() == 0 {
        0
    } else {
        digits_value(s.drop_last()) * 10 + digit_value(s.last())
    }
}

/// Whether `s` is a non-empty run of decimal digits.
pub open spec fn is_digits(s: Seq<char>) -> bool {
    s.len() > 0 && forall|i: int| 0 <= i < s.len() ==> is_digit(#[trigger] s[i])
}

/// The `u32` that Rust's `str::parse::<u32>` reads from `s`: an optional
/// `+` and decimal digits whose value fits; `None` for anything else.
pub open spec fn parsed_u32(s: Seq<char>) -> Option<u32> {
    let t = if s.len() > 0 && s[0] == '+' {
        s.drop_first()
    } else {
        s
    };
    if is_digits(t) && digits_value(t) <= u32::MAX {
        Some(digits_value(t) as u32)
    } else {
        None
    }
}

/// The `i64` that Rust's `str::parse::<i64>` reads from `s`: an optional
/// sign and decimal digits whose signed value fits; `None` for anything
/// else.
pub open spec fn parsed_i64(s: Seq<char>) -> Option<i64> {
    let negative = s.len() > 0 && s[0] == '-';
    let t = if s.len() > 0 && (s[0] == '-' || s[0] == '+') {
        s.drop_first()
    } else {
        s
    };
    let v = if negative {
        -digits_value(t)
    } else {
        digits_value(t)
    };
    if is_digits(t) && i64::MIN <= v && v <= i64::MAX {
        Some(v as i64)
    } else {
        None
    }
}

/// The character of the decimal digit `d`.
pub open spec fn digit_char(d: int) -> char {
    if d == 0 {
        '0'
    } else if d == 1 {
        '1'
    } else if d == 2 {
        '2'
    } else if d == 3 {
        '3'
    } else if d == 4 {
        '4'
    } else if d == 5 {
        '5'
    } else if d == 6 {
        '6'
    } else if d == 7 {
        '7'
    } else if d == 8 {
        '8'
    } else {
        '9'
    }
}

/// The decimal representation of `n`, without leading zeros.
pub open spec fn decimal(n: nat) -> Seq<char>
    decreases n,
{
    if n < 10 {
        seq![digit_char(n as int)]
    } else {
        decimal(n / 10).push(digit_char((n % 10) as int))
    }
}

/// The decimal representation of the signed `n`, with a `-` when negative.
pub open spec fn signed_decimal(n: int) -> Seq<char> {
    if n < 0 {
        seq!['-'] + decimal((-n) as nat)
    } else {
        decimal(n as nat)
    }
}

/// The digits of `s` from position `start`, read with `cap` standing for
/// every value from `cap` on.
pub open spec fn capped(v: int, cap: int) -> int {
    if v < cap {
        v
    } else {
        cap
    }
}

fn digit_of(c: char) -> (r: Option<u128>)
    ensures
        is_digit(c) <==> r is Some,
        r matches Some(d) ==> d == digit_value(c) && d < 10,
{
    if '0' <= c && c <= '9' {
        Some((c as u128) - ('0' as u128))
    } else {
        None
    }
}

/// Reads the decimal digits of `s` from position `start` on, with values
/// from `cap` on read as `cap`; `None` when there is no digit or a
/// character is not a digit.
fn read_digits(s: &str, start: usize, cap: u128) -> (r: Option<u128>)
    requires
        start <= s@.len(),
        cap < u128::MAX / 16,
    ensures
        is_digits(s@.subrange(start as int, s@.len() as int)) <==> r is Some,
        r matches Some(v) ==> v == capped(digits_value(s@.subrange(start as int, s@.len() as int)), cap as int),
{
    let n = s.unicode_len();
    if start >= n {
        return None;
    }
    let mut acc: u128 = 0;
    let mut i: usize = start;
    while i < n
        invariant
            n == s@.len(),
            start < n,
            start <= i <= n,
            cap < u128::MAX / 16,
            acc <= cap,
            acc == capped(digits_value(s@.subrange(start as int, i as int)), cap as int),
            forall|j: int| start <= j < i ==> is_digit(#[trigger] s@[j]),
        decreases n - i,
    {
        let c = s.get_char(i);
        match digit_of(c) {
            Some(d) => {
                let ghost pre = s@.subrange(start as int, i as int);
                let ghost next = s@.subrange(start as int, i + 1);
                assert(next.drop_last() =~= pre);
                assert(next.last() == c);
                assert(digits_value(next) == digits_value(pre) * 10 + digit_value(c));
                proof {
                    lemma_digits_nonneg(pre);
                }
                let t = acc * 10 + d;
                acc = if t < cap {
                    t
                } else {
                    cap
                };
            },
            None => {
                assert(!is_digits(s@.subrange(start as int, n as int))) by {
                    assert(s@.subrange(start as int, n as int)[i - start] == c);
                }
                return None;
            },
        }
        i += 1;
    }
    assert(is_digits(s@.subrange(start as int, n as int))) by {
        assert forall|j: int| 0 <= j < n - start implies is_digit(
            #[trigger] s@.subrange(start as int, n as int)[j],
        ) by {
            assert(s@.subrange(start as int, n as int)[j] == s@[start + j]);
        }
    }
    Some(acc)
}

/// Digit values are never negative.
pub proof fn lemma_digits_nonneg(s: Seq<char>)
    requires
        forall|i: int| 0 <= i < s.len() ==> is_digit(#[trigger] s[i]),
    ensures
        digits_value(s) >= 0,
    decreases s.len(),
{
    if s.len() > 0 {
        assert forall|i: int| 0 <= i < s.drop_last().len() implies is_digit(#[trigger] s.drop_last()[i]) by {
            assert(s.drop_last()[i] == s[i]);
        }
        lemma_digits_nonneg(s.drop_last());
        assert(is_digit(s[s.len() - 1]));
    }
}

/// Reads a `u32` as Rust's `str::parse::<u32>` does (see `parsed_u32`).
pub fn parse_u32(s: &str) -> (r: Option<u32>)
    ensures
        r == parsed_u32(s@),
{
    let n = s.unicode_len();
    let start: usize = if n > 0 && s.get_char(0) == '+' {
        1
    } else {
        0
    };
    assert(s@.subrange(start as int, s@.len() as int) =~= (if s@.len() > 0 && s@[0] == '+' {
        s@.drop_first()
    } else {
        s@
    }));
    match read_digits(s, start, 0x1_0000_0000) {
        Some(v) => if v <= 0xffff_ffff {
            Some(v as u32)
        } else {
            None
        },
        None => None,
    }
}

/// Reads an `i64` as Rust's `str::parse::<i64>` does (see `parsed_i64`).
pub fn parse_i64(s: &str) -> (r: Option<i64>)
    ensures
        r == parsed_i64(s@),
{
    let n = s.unicode_len();
    let first: Option<char> = if n > 0 {
        Some(s.get_char(0))
    } else {
        None
    };
    let negative = first == Some('-');
    let start: usize = if first == Some('-') || first == Some('+') {
        1
    } else {
        0
    };
    assert(s@.subrange(start as int, s@.len() as int) =~= (if s@.len() > 0 && (s@[0] == '-' || s@[0] == '+') {
        s@.drop_first()
    } else {
        s@
    }));
    match read_digits(s, start, 0x8000_0000_0000_0001) {
        Some(v) => {
            if negative {
                if v <= 0x8000_0000_0000_0000 {
                    Some((-(v as i128)) as i64)
                } else {
                    None
                }
            } else {
                if v <= 0x7fff_ffff_ffff_ffff {
                    Some(v as i64)
                } else {
                    None
                }
            }
        },
        None => None,
    }
}

fn digit_to_char(d: u64) -> (c: char)
    requires
        d < 10,
    ensures
        c == digit_char(d as int),
{
    if d == 0 {
        '0'
    } else if d == 1 {
        '1'
    } else if d == 2 {
        '2'
    } else if d == 3 {
        '3'
    } else if d == 4 {
        '4'
    } else if d == 5 {
        '5'
    } else if d == 6 {
        '6'
    } else if d == 7 {
        '7'
    } else if d == 8 {
        '8'
    } else {
        '9'
    }
}

/// Appends the decimal representation of `n` to `out`.
pub fn push_decimal(out: &mut String, n: u64)
    ensures
        final(out)@ == old(out)@ + decimal(n as nat),
    decreases n,
{
    if n >= 10 {
        push_decimal(out, n / 10);
    }
    push_char(out, digit_to_char(n % 10));
    proof {
        if n >= 10 {
            assert(old(out)@ + decimal(n as nat) =~= old(out)@ + decimal((n / 10) as nat) + seq![
                digit_char((n % 10) as int),
            ]);
        } else {
            assert(old(out)@ + decimal(n as nat) =~= old(out)@ + seq![digit_char((n % 10) as int)]);
        }
    }
}

/// Appends the decimal representation of the signed `n` to `out`.
pub fn push_signed_decimal(out: &mut String, n: i64)
    ensures
        final(out)@ == old(out)@ + signed_decimal(n as int),
{
    if n < 0 {
        push_char(out, '-');
        let m: u64 = if n == i64::MIN {
            0x8000_0000_0000_0000
        } else {
            (-n) as u64
        };
        push_decimal(out, m);
        assert(old(out)@ + signed_decimal(n as int) =~= old(out)@.push('-') + decimal(m as nat));
    } else {
        push_decimal(out, n as u64);
    }
}

} // verus!
