//! Decimal numerals: the value of a run of digit characters, and the
//! canonical decimal spelling of an integer.
//!
//! The lexer produces integer literals as digit runs; the parser converts
//! them to signed 64-bit values, and the pretty-printer spells values back
//! as decimal digits.

use vstd::prelude::*;

verus! {

/// Whether a character is an ASCII decimal digit.
pub open spec fn is_digit_char(c: char) -> bool {
    48 <= c as u32 <= 57
}

/// Whether every character of the run is an ASCII decimal digit.
pub open spec fn all_digits(s: Seq<char>) -> bool {
    forall|i: int| 0 <= i < s.len() ==> is_digit_char(#[trigger] s[i])
}

/// The numeric value of a digit character.
pub open spec fn digit_of(c: char) -> nat {
    (c as u32 - 48) as nat
}

/// The digit character for a value below ten.
pub open spec fn char_of_digit(d: nat) -> char {
    (((d + 48) as u32) as char)
}

/// The value of a digit run read as a decimal numeral.
pub open spec fn digits_val(s: Seq<char>) -> nat
    decreases s.len(),
{
    if s.len() == 0 {
        0
    } else {
        digits_val(s.drop_last()) * 10 + digit_of(s.last())
    }
}

/// The decimal spelling of a natural number, most significant digit first,
/// with no leading zeros (zero itself spells "0").
pub open spec fn nat_to_digits(n: nat) -> Seq<char>
    decreases n,
{
    if n < 10 {
        seq![char_of_digit(n)]
    } else {
        nat_to_digits(n / 10) + seq![char_of_digit(n % 10)]
    }
}

/// The decimal spelling of a signed 64-bit value: a minus sign before the
/// spelling of the magnitude when the value is negative.
pub open spec fn i64_to_digits(v: i64) -> Seq<char> {
    if v >= 0 {
        nat_to_digits(v as nat)
    } else {
        seq!['-'] + nat_to_digits((-(v as int)) as nat)
    }
}

/// Returns the decimal spelling of an unsigned 64-bit value.
pub fn u64_string(n: u64) -> (r: String)
    ensures
        r@ == nat_to_digits(n as nat),
    decreases n,
{
    let digits = "0123456789";
    proof {
        reveal_strlit("0123456789");
    }
    if n < 10 {
        let d = digits.substring_char(n as usize, n as usize + 1);
        assert(d@ =~= seq![char_of_digit(n as nat)]);
        String::from_str(d)
    } else {
        let high = u64_string(n / 10);
        let d = digits.substring_char((n % 10) as usize, (n % 10) as usize + 1);
        assert(d@ =~= seq![char_of_digit((n % 10) as nat)]);
        high.concat(d)
    }
}

/// Returns the decimal spelling of a signed 64-bit value.
pub fn i64_string(v: i64) -> (r: String)
    ensures
        r@ == i64_to_digits(v),
{
    if v >= 0 {
        u64_string(v as u64)
    } else {
        // -(v + 1) stays within the signed range even for the minimum value.
        let magnitude: u64 = (-(v + 1)) as u64 + 1;
        assert(magnitude as int == -(v as int));
        let r = String::from_str("-").concat(u64_string(magnitude).as_str());
        assert(r@ =~= i64_to_digits(v)) by {
            reveal_strlit("-");
        }
        r
    }
}

/// Parses a run of decimal digits as a signed 64-bit value.
///
/// Returns the decimal value of the run when every character is a digit,
/// the run is non-empty, and the value fits in the signed 64-bit range;
/// returns `None` otherwise (and exactly otherwise).
pub fn parse_i64_digits(s: &str) -> (r: Option<i64>)
    ensures
        match r {
            Some(v) => all_digits(s@) && s@.len() > 0 && digits_val(s@) <= i64::MAX
                && v as int == digits_val(s@),
            None => s@.len() == 0 || !all_digits(s@) || digits_val(s@) > i64::MAX,
        },
{
    let len = s.unicode_len();
    if len == 0 {
        return None;
    }
    let mut acc: i64 = 0;
    let mut i: usize = 0;
    while i < len
        invariant
            0 <= i <= len,
            len == s@.len(),
            all_digits(s@.subrange(0, i as int)),
            acc as int == digits_val(s@.subrange(0, i as int)),
            acc >= 0,
        decreases len - i,
    {
        let c = s.get_char(i);
        let u = c as u32;
        if u < 48 || u > 57 {
            assert(!is_digit_char(s@[i as int]));
            return None;
        }
        let d = (u - 48) as i64;
        if acc > (i64::MAX - d) / 10 {
            proof {
                if all_digits(s@) {
                    lemma_digits_val_extend_ge(s@, i as int);
                }
            }
            return None;
        }
        proof {
            assert(s@.subrange(0, i + 1).drop_last() =~= s@.subrange(0, i as int));
        }
        acc = acc * 10 + d;
        i = i + 1;
    }
    proof {
        assert(s@.subrange(0, len as int) =~= s@);
    }
    Some(acc)
}

/// Extending a digit run cannot lower its value: if the prefix up to `i`
/// already forces the next step past the 64-bit bound, the whole run is
/// past it too.
proof fn lemma_digits_val_extend_ge(s: Seq<char>, i: int)
    requires
        0 <= i < s.len(),
        all_digits(s),
    ensures
        digits_val(s) >= digits_val(s.subrange(0, i)) * 10 + digit_of(s[i]),
    decreases s.len() - i,
{
    if i == s.len() - 1 {
        assert(s.drop_last() =~= s.subrange(0, i));
        assert(s.last() == s[i]);
    } else {
        lemma_digits_val_extend_ge(s, i + 1);
        assert(s.subrange(0, i + 1).drop_last() =~= s.subrange(0, i));
        assert(s.subrange(0, i + 1).last() == s[i]);
        assert(digits_val(s.subrange(0, i + 1)) == digits_val(s.subrange(0, i)) * 10 + digit_of(
            s[i],
        ));
        assert(digits_val(s) >= digits_val(s.subrange(0, i + 1)) * 10);
    }
}

} // verus!
