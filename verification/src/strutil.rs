//! Small verified text helpers: decimal rendering of machine integers,
//! decimal parsing of small integers, and character-wise string equality.

use vstd::prelude::*;
use vstd::string::*;

verus! {

/// The decimal digit character for a value below ten.
pub open spec fn digit_char(d: nat) -> char {
    if d == 0 {
        '0'
    } else if d == 1 {
        '1'
    } else if d == 2 {
        '2'
    } else if d == 3 {
        '3'
    } else if d == 4 {
        '4'
    } else if d == 5 {
        '5'
    } else if d == 6 {
        '6'
    } else if d == 7 {
        '7'
    } else if d == 8 {
        '8'
    } else {
        '9'
    }
}

/// The usual decimal rendering of a natural number: no sign, no leading
/// zeros (except for zero itself).
pub open spec fn dec_digits(n: nat) -> Seq<char>
    decreases n,
{
    if n < 10 {
        seq![digit_char(n)]
    } else {
        dec_digits(n / 10).push(digit_char(n % 10))
    }
}

/// Decimal rendering padded on the left with `'0'` to at least two places.
pub open spec fn two_digits(n: nat) -> Seq<char> {
    if n < 10 {
        seq!['0', digit_char(n)]
    } else {
        dec_digits(n)
    }
}

fn push_digit(out: &mut String, d: u64)
    requires
        d < 10,
    ensures
        final(out)@ == old(out)@.push(digit_char(d as nat)),
{
    match d {
        0 => out.append("0"),
        1 => out.append("1"),
        2 => out.append("2"),
        3 => out.append("3"),
        4 => out.append("4"),
        5 => out.append("5"),
        6 => out.append("6"),
        7 => out.append("7"),
        8 => out.append("8"),
        _ => out.append("9"),
    }
    proof {
        reveal_strlit("0");
        reveal_strlit("1");
        reveal_strlit("2");
        reveal_strlit("3");
        reveal_strlit("4");
        reveal_strlit("5");
        reveal_strlit("6");
        reveal_strlit("7");
        reveal_strlit("8");
        reveal_strlit("9");
        assert(final(out)@ =~= old(out)@.push(digit_char(d as nat)));
    }
}

/// Appends the decimal rendering of `n` to `out`.
pub fn push_dec(out: &mut String, n: u64)
    ensures
        final(out)@ == old(out)@ + dec_digits(n as nat),
    decreases n,
{
    if n >= 10 {
        push_dec(out, n / 10);
        push_digit(out, n % 10);
        proof {
            assert(final(out)@ =~= old(out)@ + dec_digits(n as nat));
        }
    } else {
        push_digit(out, n);
        proof {
            assert(final(out)@ =~= old(out)@ + dec_digits(n as nat));
        }
    }
}

/// The decimal rendering of `n` as a fresh string.
pub fn u64_string(n: u64) -> (r: String)
    ensures
        r@ == dec_digits(n as nat),
{
    let mut s = String::new();
    push_dec(&mut s, n);
    proof {
        assert(s@ =~= dec_digits(n as nat));
    }
    s
}

/// Appends the two-place zero-padded decimal rendering of `n` to `out`.
pub fn push_two_digits(out: &mut String, n: u8)
    ensures
        final(out)@ == old(out)@ + two_digits(n as nat),
{
    if n < 10 {
        push_digit(out, 0);
        push_digit(out, n as u64);
        proof {
            assert(final(out)@ =~= old(out)@ + two_digits(n as nat));
        }
    } else {
        push_dec(out, n as u64);
    }
}

pub open spec fn is_dec_digit(c: char) -> bool {
    48 <= c as u32 <= 57
}

pub open spec fn digit_val(c: char) -> nat {
    (c as u32 - 48) as nat
}

pub open spec fn all_digits(s: Seq<char>) -> bool {
    forall|i: int| 0 <= i < s.len() ==> is_dec_digit(#[trigger] s[i])
}

/// The value of a sequence of decimal digit characters, most significant
/// first.
pub open spec fn digits_val(s: Seq<char>) -> nat
    decreases s.len(),
{
    if s.len() == 0 {
        0
    } else {
        digits_val(s.drop_last()) * 10 + digit_val(s.last())
    }
}

/// What `str::parse::<u8>` accepts: an optional leading `'+'`, then one or
/// more decimal digits whose value fits in eight bits.
pub open spec fn spec_parse_u8(s: Seq<char>) -> Option<u8> {
    let t = if s.len() > 0 && s[0] == '+' {
        s.skip(1)
    } else {
        s
    };
    if t.len() > 0 && all_digits(t) && digits_val(t) <= 255 {
        Some(digits_val(t) as u8)
    } else {
        None
    }
}

/// Parses a small decimal integer, accepting exactly the strings that
/// `spec_parse_u8` accepts.
pub fn parse_u8_str(s: &str) -> (r: Option<u8>)
    ensures
        r == spec_parse_u8(s@),
{
    let len = s.unicode_len();
    if len == 0 {
        return None;
    }
    let first = s.get_char(0);
    let start: usize = if first == '+' {
        1
    } else {
        0
    };
    let ghost t: Seq<char> = if s@[0] == '+' {
        s@.skip(1)
    } else {
        s@
    };
    if len == start {
        return None;
    }
    let mut i: usize = start;
    let mut val: u32 = 0;
    while i < len
        invariant
            len == s@.len(),
            start <= i <= len,
            start == 0 || start == 1,
            start == 1 <==> s@[0] == '+',
            t == (if s@[0] == '+' { s@.skip(1) } else { s@ }),
            t.len() == len - start,
            forall|j: int| 0 <= j < i - start ==> t[j] == s@[j + start],
            all_digits(t.take(i - start)),
            (val <= 2559 && val == digits_val(t.take(i - start))) || (val > 255 && digits_val(
                t.take(i - start),
            ) > 255),
        decreases len - i,
    {
        let c = s.get_char(i);
        let cu = c as u32;
        if cu < 48 || cu > 57 {
            proof {
                assert(t[i - start] == s@[i as int]);
                assert(!is_dec_digit(t[i - start]));
                assert(!all_digits(t));
            }
            return None;
        }
        let d = cu - 48;
        proof {
            assert(t.take(i - start + 1).drop_last() =~= t.take(i - start));
            assert(t.take(i - start + 1).last() == t[i - start]);
            assert(t[i - start] == s@[i as int]);
        }
        if val <= 255 {
            val = val * 10 + d;
        }
        i += 1;
    }
    proof {
        assert(t.take(len - start) =~= t);
    }
    if val <= 255 {
        Some(val as u8)
    } else {
        None
    }
}

/// Character-wise string equality, stated over the views.
pub fn str_eq(a: &str, b: &str) -> (r: bool)
    ensures
        r == (a@ == b@),
{
    let la = a.unicode_len();
    let lb = b.unicode_len();
    if la != lb {
        proof {
            if a@ == b@ {
                assert(a@.len() == b@.len());
            }
        }
        return false;
    }
    let mut i: usize = 0;
    while i < la
        invariant
            la == a@.len(),
            lb == b@.len(),
            la == lb,
            i <= la,
            forall|j: int| 0 <= j < i ==> a@[j] == b@[j],
        decreases la - i,
    {
        if a.get_char(i) != b.get_char(i) {
            proof {
                if a@ == b@ {
                    assert(a@[i as int] == b@[i as int]);
                }
            }
            return false;
        }
        i += 1;
    }
    proof {
        assert(a@ =~= b@);
    }
    true
}

} // verus!
