//! Decimal digit strings: rendering a number as ASCII digits (for the
//! `Content-Length` header and for error messages) and reading an ASCII digit
//! string back as a number (for the status code of a response).

use vstd::prelude::*;

verus! {

/// The ASCII decimal rendering of `n`, most significant digit first, with no
/// sign and no leading zero.
pub open spec fn spec_decimal(n: nat) -> Seq<u8>
    decreases n,
{
    if n < 10 {
        seq![(48 + n) as u8]
    } else {
        spec_decimal(n / 10).push((48 + n % 10) as u8)
    }
}

/// The character for the decimal digit `d`.
pub open spec fn digit_char(d: nat) -> char {
    if d == 0 {
        '0'
    } else if d == 1 {
        '1'
    } else if d == 2 {
        '2'
    } else if d == 3 {
        '3'
    } else if d == 4 {
        '4'
    } else if d == 5 {
        '5'
    } else if d == 6 {
        '6'
    } else if d == 7 {
        '7'
    } else if d == 8 {
        '8'
    } else {
        '9'
    }
}

/// The decimal rendering of `n` as characters, most significant digit first,
/// with no sign and no leading zero.
pub open spec fn spec_decimal_chars(n: nat) -> Seq<char>
    decreases n,
{
    if n < 10 {
        seq![digit_char(n)]
    } else {
        spec_decimal_chars(n / 10).push(digit_char(n % 10))
    }
}

/// Appends the single decimal digit `d` to `out`.
fn push_digit_char(out: &mut String, d: usize)
    requires
        d < 10,
    ensures
        final(out)@ == old(out)@ + seq![digit_char(d as nat)],
{
    proof {
        reveal_strlit("0");
        reveal_strlit("1");
        reveal_strlit("2");
        reveal_strlit("3");
        reveal_strlit("4");
        reveal_strlit("5");
        reveal_strlit("6");
        reveal_strlit("7");
        reveal_strlit("8");
        reveal_strlit("9");
    }
    if d == 0 {
        out.append("0");
    } else if d == 1 {
        out.append("1");
    } else if d == 2 {
        out.append("2");
    } else if d == 3 {
        out.append("3");
    } else if d == 4 {
        out.append("4");
    } else if d == 5 {
        out.append("5");
    } else if d == 6 {
        out.append("6");
    } else if d == 7 {
        out.append("7");
    } else if d == 8 {
        out.append("8");
    } else {
        out.append("9");
    }
    assert(out@ =~= old(out)@ + seq![digit_char(d as nat)]);
}

/// Appends the decimal rendering of `n`, as characters, to `out`.
pub fn push_decimal_chars(out: &mut String, n: usize)
    ensures
        final(out)@ == old(out)@ + spec_decimal_chars(n as nat),
    decreases n,
{
    if n < 10 {
        push_digit_char(out, n);
    } else {
        push_decimal_chars(out, n / 10);
        push_digit_char(out, n % 10);
        assert(out@ =~= old(out)@ + spec_decimal_chars(n as nat));
    }
}

/// Appends the ASCII decimal rendering of `n` to `out`.
pub fn push_decimal(out: &mut Vec<u8>, n: usize)
    ensures
        final(out)@ == old(out)@ + spec_decimal(n as nat),
    decreases n,
{
    if n < 10 {
        out.push(48 + n as u8);
        assert(out@ =~= old(out)@ + spec_decimal(n as nat));
    } else {
        push_decimal(out, n / 10);
        out.push(48 + (n % 10) as u8);
        assert(out@ =~= old(out)@ + spec_decimal(n as nat));
    }
}

/// Whether `s` is a nonempty string of ASCII decimal digits.
pub open spec fn is_digits(s: Seq<u8>) -> bool {
    s.len() > 0 && forall|i: int| 0 <= i < s.len() ==> 48 <= #[trigger] s[i] <= 57
}

/// The numeric value of a string of ASCII decimal digits.
pub open spec fn digits_val(s: Seq<u8>) -> int
    decreases s.len(),
{
    if s.len() == 0 {
        0
    } else {
        digits_val(s.drop_last()) * 10 + (s.last() - 48)
    }
}

/// What a digit string means as a status code: its value, if it is a
/// nonempty all-digit string whose value fits in a `u16`.
pub open spec fn spec_parse_u16(s: Seq<u8>) -> Option<u16> {
    if is_digits(s) && digits_val(s) <= 65535 {
        Some(digits_val(s) as u16)
    } else {
        None
    }
}

proof fn lemma_digits_val_nonneg(s: Seq<u8>)
    requires
        forall|i: int| 0 <= i < s.len() ==> 48 <= #[trigger] s[i] <= 57,
    ensures
        digits_val(s) >= 0,
    decreases s.len(),
{
    if s.len() > 0 {
        lemma_digits_val_nonneg(s.drop_last());
    }
}

/// Extending a digit string to the right never lowers its value.
proof fn lemma_digits_val_prefix(s: Seq<u8>, k: int)
    requires
        forall|i: int| 0 <= i < s.len() ==> 48 <= #[trigger] s[i] <= 57,
        0 <= k <= s.len(),
    ensures
        digits_val(s.take(k)) <= digits_val(s),
    decreases s.len() - k,
{
    if k < s.len() {
        lemma_digits_val_prefix(s, k + 1);
        assert(s.take(k + 1).drop_last() =~= s.take(k));
        lemma_digits_val_nonneg(s.take(k));
        assert(digits_val(s.take(k + 1)) == digits_val(s.take(k)) * 10 + (s.take(k + 1).last()
            - 48));
    } else {
        assert(s.take(k) =~= s);
    }
}

/// Reads a nonempty all-digit string as a `u16`, exactly as
/// [`spec_parse_u16`] describes; any other input yields `None`.
pub fn parse_u16(s: &Vec<u8>) -> (r: Option<u16>)
    ensures
        r == spec_parse_u16(s@),
{
    if s.len() == 0 {
        return None;
    }
    let mut acc: u32 = 0;
    let mut k: usize = 0;
    while k < s.len()
        invariant
            0 <= k <= s.len(),
            acc <= 65535,
            forall|i: int| 0 <= i < k ==> 48 <= #[trigger] s@[i] <= 57,
            acc == digits_val(s@.take(k as int)),
        decreases s.len() - k,
    {
        let b = s[k];
        if b < 48 || b > 57 {
            assert(!is_digits(s@));
            return None;
        }
        assert(s@.take(k + 1 as int).drop_last() =~= s@.take(k as int));
        let next: u32 = acc * 10 + (b - 48) as u32;
        if next > 65535 {
            proof {
                if is_digits(s@) {
                    lemma_digits_val_prefix(s@, k + 1 as int);
                }
            }
            return None;
        }
        acc = next;
        k = k + 1;
    }
    assert(s@.take(k as int) =~= s@);
    Some(acc as u16)
}

} // verus!
