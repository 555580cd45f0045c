//! Decoding of natural-number literals.
//!
//! Both surface grammars read unsigned integers from the same four textual
//! forms: hexadecimal (`0x` prefix), decimal (bare digits), octal (`0o`
//! prefix) and binary (`0b` prefix). Decoding is fallible: a malformed digit
//! sequence or one whose value exceeds the widest machine representation is
//! reported as an ordinary error value, never as a panic, so that a caller can
//! defer the failure into the tree it is building.

use vstd::prelude::*;

verus! {

/// Why a natural literal failed to decode.
#[derive(Clone, Copy, Debug, PartialEq, Eq, Structural)]
pub enum NatParseError {
    /// The digit sequence is empty or holds a character outside the base's digit set.
    Malformed,
    /// The digits are well formed but the value does not fit in `u128`.
    Overflow,
}

/// Numeric value of a single digit character; characters that are a digit in
/// no supported base map to 16, which no base accepts.
pub open spec fn digit_value(c: char) -> nat {
    if '0' as int <= c as int && c as int <= '9' as int {
        (c as int - '0' as int) as nat
    } else if 'a' as int <= c as int && c as int <= 'f' as int {
        (c as int - 'a' as int + 10) as nat
    } else if 'A' as int <= c as int && c as int <= 'F' as int {
        (c as int - 'A' as int + 10) as nat
    } else {
        16
    }
}

/// Whether `c` is a digit of the base `radix`.
pub open spec fn is_digit(radix: nat, c: char) -> bool {
    digit_value(c) < radix
}

/// The base selected by the literal's prefix: `0x` is 16, `0o` is 8, `0b` is
/// 2, anything else is decimal.
pub open spec fn lit_radix(s: Seq<char>) -> nat {
    if s.len() >= 2 && s[0] == '0' && s[1] == 'x' {
        16
    } else if s.len() >= 2 && s[0] == '0' && s[1] == 'o' {
        8
    } else if s.len() >= 2 && s[0] == '0' && s[1] == 'b' {
        2
    } else {
        10
    }
}

/// The digit characters of the literal: everything after the two-character
/// base prefix, or the whole text for a decimal literal.
pub open spec fn lit_digits(s: Seq<char>) -> Seq<char> {
    if lit_radix(s) == 10 {
        s
    } else {
        s.skip(2)
    }
}

/// A literal is well formed when its digit part is nonempty and every
/// character in it is a digit of the selected base.
pub open spec fn lit_wellformed(s: Seq<char>) -> bool {
    let d = lit_digits(s);
    d.len() > 0 && (forall|i: int| 0 <= i < d.len() ==> is_digit(lit_radix(s), d[i]))
}

/// Value of a digit sequence in the given base, most significant digit first.
pub open spec fn digits_value(radix: nat, d: Seq<char>) -> nat
    decreases d.len(),
{
    if d.len() == 0 {
        0
    } else {
        digits_value(radix, d.drop_last()) * radix + digit_value(d.last())
    }
}

/// Value denoted by a well-formed literal.
pub open spec fn lit_value(s: Seq<char>) -> nat {
    digits_value(lit_radix(s), lit_digits(s))
}

/// Appending digits never decreases a digit sequence's value.
proof fn lemma_digits_value_extend_ge(radix: nat, d: Seq<char>)
    requires
        radix >= 2,
        d.len() > 0,
    ensures
        digits_value(radix, d) >= digits_value(radix, d.drop_last()),
{
    let prefix = digits_value(radix, d.drop_last());
    assert(prefix * radix >= prefix) by (nonlinear_arith)
        requires radix >= 2, prefix >= 0;
}

/// Decode a natural literal in any of the four bases.
///
/// Returns the exact value of a well-formed literal that fits in `u128`,
/// `Malformed` for any text that is not a nonempty digit sequence of its
/// base, and `Overflow` for a well-formed literal whose value is too large.
pub fn parse_nat(s: &str) -> (r: Result<u128, NatParseError>)
    ensures
        r == (if !lit_wellformed(s@) {
            Err::<u128, NatParseError>(NatParseError::Malformed)
        } else if lit_value(s@) > u128::MAX {
            Err::<u128, NatParseError>(NatParseError::Overflow)
        } else {
            Ok::<u128, NatParseError>(lit_value(s@) as u128)
        }),
{
    let n = s.unicode_len();
    let mut radix: u128 = 10;
    let mut start: usize = 0;
    if n >= 2 && s.get_char(0) == '0' {
        let c1 = s.get_char(1);
        if c1 == 'x' {
            radix = 16;
            start = 2;
        } else if c1 == 'o' {
            radix = 8;
            start = 2;
        } else if c1 == 'b' {
            radix = 2;
            start = 2;
        }
    }
    assert(radix as nat == lit_radix(s@));
    assert(start == 0 ==> lit_digits(s@) == s@);
    assert(start == 2 ==> lit_digits(s@) == s@.skip(2));
    if start >= n {
        assert(lit_digits(s@).len() == 0);
        return Err(NatParseError::Malformed);
    }
    let ghost digits = lit_digits(s@);
    assert(digits =~= s@.subrange(start as int, n as int));
    let mut acc: u128 = 0;
    let mut overflow = false;
    let mut i = start;
    while i < n
        invariant
            start <= i <= n,
            n == s@.len(),
            radix as nat == lit_radix(s@),
            radix >= 2,
            digits == lit_digits(s@),
            digits =~= s@.subrange(start as int, n as int),
            forall|j: int| start <= j < i ==> is_digit(radix as nat, s@[j]),
            !overflow ==> acc as nat == digits_value(radix as nat, s@.subrange(start as int, i as int)),
            overflow ==> digits_value(radix as nat, s@.subrange(start as int, i as int)) > u128::MAX,
        decreases n - i,
    {
        let c = s.get_char(i);
        let u = c as u32;
        let dv: u128 = if '0' as u32 <= u && u <= '9' as u32 {
            (u - '0' as u32) as u128
        } else if 'a' as u32 <= u && u <= 'f' as u32 {
            (u - 'a' as u32 + 10) as u128
        } else if 'A' as u32 <= u && u <= 'F' as u32 {
            (u - 'A' as u32 + 10) as u128
        } else {
            16
        };
        assert(dv as nat == digit_value(c));
        if dv >= radix {
            assert(!is_digit(lit_radix(s@), digits[i - start]));
            assert(!lit_wellformed(s@));
            return Err(NatParseError::Malformed);
        }
        let ghost prefix = s@.subrange(start as int, i as int);
        let ghost extended = s@.subrange(start as int, i + 1);
        assert(extended.drop_last() =~= prefix);
        assert(extended.last() == s@[i as int]);
        if !overflow {
            match acc.checked_mul(radix) {
                Some(p) => match p.checked_add(dv) {
                    Some(v) => {
                        acc = v;
                        assert(acc as nat == digits_value(radix as nat, extended));
                    },
                    None => {
                        assert(digits_value(radix as nat, extended) > u128::MAX);
                        overflow = true;
                    },
                },
                None => {
                    assert(digits_value(radix as nat, extended) > u128::MAX);
                    overflow = true;
                },
            }
        } else {
            proof {
                lemma_digits_value_extend_ge(radix as nat, extended);
            }
        }
        i += 1;
    }
    assert(s@.subrange(start as int, n as int) == digits);
    assert(lit_wellformed(s@));
    if overflow {
        Err(NatParseError::Overflow)
    } else {
        Ok(acc)
    }
}

} // verus!
