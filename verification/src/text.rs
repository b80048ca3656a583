//! Byte-level string utilities: lexicographic ordering (the order heartbeat
//! timestamps are sorted by), decimal formatting and parsing, and string
//! building.

use vstd::prelude::*;
use vstd::string::StringSliceAdditionalSpecFns;

verus! {

// ── Trusted string primitives ───────────────────────────────────────

/// Relies on `<str as PartialEq>::eq`: true exactly when the two string
/// slices hold the same characters.
#[verifier::external_body]
pub(crate) fn str_eq(a: &str, b: &str) -> (r: bool)
    ensures
        r == (a@ == b@),
{
    a == b
}

/// Relies on `String::push_str`: appends the given slice onto the string.
pub assume_specification[ String::push_str ](s: &mut String, string: &str)
    ensures
        final(s)@ == old(s)@ + string@,
;

/// Relies on `String::push`: appends the given character onto the string.
pub assume_specification[ String::push ](s: &mut String, ch: char)
    ensures
        final(s)@ == old(s)@.push(ch),
;

// ── Lexicographic order on byte strings ─────────────────────────────

/// Lexicographic "less than or equal" on byte sequences; the order `str`
/// comparison uses, restated over the UTF-8 bytes of the string.
pub open spec fn lex_le(a: Seq<u8>, b: Seq<u8>) -> bool
    decreases a.len(),
{
    if a.len() == 0 {
        true
    } else if b.len() == 0 {
        false
    } else if a[0] < b[0] {
        true
    } else if a[0] > b[0] {
        false
    } else {
        lex_le(a.drop_first(), b.drop_first())
    }
}

/// Any two byte sequences are comparable.
pub proof fn lemma_lex_le_total(a: Seq<u8>, b: Seq<u8>)
    ensures
        lex_le(a, b) || lex_le(b, a),
    decreases a.len(),
{
    if a.len() != 0 && b.len() != 0 && a[0] == b[0] {
        lemma_lex_le_total(a.drop_first(), b.drop_first());
    }
}

/// The order is transitive.
pub proof fn lemma_lex_le_trans(a: Seq<u8>, b: Seq<u8>, c: Seq<u8>)
    requires
        lex_le(a, b),
        lex_le(b, c),
    ensures
        lex_le(a, c),
    decreases a.len(),
{
    if a.len() != 0 && b.len() != 0 && c.len() != 0 && a[0] == b[0] && b[0] == c[0] {
        lemma_lex_le_trans(a.drop_first(), b.drop_first(), c.drop_first());
    }
}

/// Byte-wise comparison of two slices, deciding `lex_le`.
pub fn bytes_le(a: &[u8], b: &[u8]) -> (r: bool)
    ensures
        r == lex_le(a@, b@),
{
    let mut i: usize = 0;
    proof {
        assert(a@.skip(0) =~= a@);
        assert(b@.skip(0) =~= b@);
    }
    loop
        invariant
            i <= a@.len(),
            i <= b@.len(),
            lex_le(a@, b@) == lex_le(a@.skip(i as int), b@.skip(i as int)),
        decreases a@.len() - i,
    {
        if i == a.len() {
            proof {
                assert(a@.skip(i as int).len() == 0);
            }
            return true;
        }
        if i == b.len() {
            proof {
                assert(b@.skip(i as int).len() == 0);
                assert(a@.skip(i as int).len() != 0);
            }
            return false;
        }
        let x = a[i];
        let y = b[i];
        proof {
            assert(a@.skip(i as int)[0] == a@[i as int]);
            assert(b@.skip(i as int)[0] == b@[i as int]);
            assert(a@.skip(i as int).drop_first() =~= a@.skip(i as int + 1));
            assert(b@.skip(i as int).drop_first() =~= b@.skip(i as int + 1));
        }
        if x < y {
            return true;
        }
        if x > y {
            return false;
        }
        i = i + 1;
    }
}

// ── Decimal formatting ──────────────────────────────────────────────

/// The character for one decimal digit.
pub open spec fn digit_char(d: int) -> char
    recommends
        0 <= d < 10,
{
    (48 + d) as char
}

/// Decimal digits of a non-negative integer, most significant first,
/// without leading zeros (`0` is rendered as "0").
pub open spec fn spec_dec_digits(n: int) -> Seq<char>
    recommends
        n >= 0,
    decreases n,
{
    if n < 10 {
        seq![digit_char(n)]
    } else {
        spec_dec_digits(n / 10).push(digit_char(n % 10))
    }
}

/// The decimal rendering of a signed 32-bit integer, as `i32`'s standard
/// formatting produces it.
pub open spec fn spec_i32_digits(n: int) -> Seq<char> {
    if n < 0 {
        seq!['-'] + spec_dec_digits(-n)
    } else {
        spec_dec_digits(n)
    }
}

/// Appends the decimal digits of `m` onto `s`.
fn push_dec_digits(s: &mut String, m: u64)
    ensures
        final(s)@ == old(s)@ + spec_dec_digits(m as int),
    decreases m,
{
    if m < 10 {
        s.push((48 + (m as u8)) as char);
        proof {
            assert(final(s)@ =~= old(s)@ + spec_dec_digits(m as int));
        }
    } else {
        push_dec_digits(s, m / 10);
        s.push((48 + ((m % 10) as u8)) as char);
        proof {
            assert((48 + ((m % 10) as u8)) as char == digit_char(m as int % 10));
            assert(final(s)@ =~= old(s)@ + spec_dec_digits(m as int));
        }
    }
}

/// Renders a signed 32-bit integer in decimal, as `to_string` would.
pub fn i32_to_string(n: i32) -> (r: String)
    ensures
        r@ == spec_i32_digits(n as int),
{
    let mut s = String::new();
    if n < 0 {
        s.push('-');
        let mag: u64 = ((-(n as i64)) as u64);
        push_dec_digits(&mut s, mag);
        proof {
            assert(s@ =~= spec_i32_digits(n as int));
        }
    } else {
        let mag: u64 = n as u64;
        push_dec_digits(&mut s, mag);
        proof {
            assert(s@ =~= spec_i32_digits(n as int));
        }
    }
    s
}

// ── Decimal parsing ─────────────────────────────────────────────────

/// Is the byte an ASCII decimal digit?
pub open spec fn is_digit(b: u8) -> bool {
    48 <= b <= 57
}

/// Every byte of the sequence is an ASCII decimal digit.
pub open spec fn all_digits(s: Seq<u8>) -> bool {
    forall|i: int| 0 <= i < s.len() ==> is_digit(#[trigger] s[i])
}

/// The integer value of a sequence of ASCII decimal digits.
pub open spec fn digits_val(s: Seq<u8>) -> int
    decreases s.len(),
{
    if s.len() == 0 {
        0
    } else {
        digits_val(s.drop_last()) * 10 + (s.last() - 48)
    }
}

proof fn lemma_digits_val_nonneg(s: Seq<u8>)
    requires
        all_digits(s),
    ensures
        digits_val(s) >= 0,
    decreases s.len(),
{
    if s.len() != 0 {
        assert(all_digits(s.drop_last()));
        lemma_digits_val_nonneg(s.drop_last());
    }
}

/// What `str::parse::<i32>` accepts and returns, over the string's bytes: an
/// optional sign, then one or more ASCII digits, whose value must fit in
/// `i32`.
pub open spec fn spec_parse_i32(s: Seq<u8>) -> Option<i32> {
    if s.len() == 0 {
        None
    } else {
        let neg = s[0] == 45;
        let digits = if s[0] == 45 || s[0] == 43 {
            s.drop_first()
        } else {
            s
        };
        if digits.len() == 0 || !all_digits(digits) {
            None
        } else {
            let v = digits_val(digits);
            if neg {
                if v <= 0x8000_0000 {
                    Some((-v) as i32)
                } else {
                    None
                }
            } else {
                if v <= 0x7fff_ffff {
                    Some(v as i32)
                } else {
                    None
                }
            }
        }
    }
}

/// Parses a decimal integer from the bytes of a string slice, exactly as
/// `str::parse::<i32>` would decide it.
pub fn parse_i32(s: &str) -> (r: Option<i32>)
    ensures
        r == spec_parse_i32(s.spec_bytes()),
{
    let b = s.as_bytes();
    if b.len() == 0 {
        return None;
    }
    let neg = b[0] == 45;
    let start: usize = if b[0] == 45 || b[0] == 43 {
        1
    } else {
        0
    };
    let ghost digits = b@.skip(start as int);
    proof {
        if start == 0 {
            assert(digits =~= b@);
        } else {
            assert(digits =~= b@.drop_first());
        }
    }
    if b.len() == start {
        return None;
    }
    let mut i: usize = start;
    let mut acc: u64 = 0;
    let mut over = false;
    while i < b.len()
        invariant
            b@ == s.spec_bytes(),
            b@.len() > start,
            start == if b@[0] == 45 || b@[0] == 43 {
                1int
            } else {
                0int
            },
            neg == (b@[0] == 45),
            start <= i <= b@.len(),
            digits == b@.skip(start as int),
            digits.len() == b@.len() - start,
            forall|j: int| 0 <= j < i - start ==> is_digit(#[trigger] digits[j]),
            !over ==> acc == digits_val(digits.take(i - start)),
            !over ==> acc <= 0x7_ffff_ffff,
            over ==> digits_val(digits.take(i - start)) > 0x8000_0000 && all_digits(
                digits.take(i - start),
            ),
        decreases b@.len() - i,
    {
        let c = b[i];
        if c < 48 || c > 57 {
            proof {
                assert(digits[i - start] == b@[i as int]);
                assert(!is_digit(digits[i - start]));
                assert(!all_digits(digits));
                assert(digits == if b@[0] == 45 || b@[0] == 43 {
                    b@.drop_first()
                } else {
                    b@
                });
            }
            return None;
        }
        proof {
            assert(digits[i - start] == b@[i as int]);
            assert(digits.take(i - start + 1).drop_last() =~= digits.take(i - start));
            assert(digits.take(i - start + 1).last() == digits[i - start]);
        }
        if over {
            proof {
                lemma_digits_val_nonneg(digits.take(i - start));
            }
        } else if acc <= 0x8000_0000 {
            acc = acc * 10 + ((c - 48) as u64);
        } else {
            over = true;
            proof {
                lemma_digits_val_nonneg(digits.take(i - start));
            }
        }
        i = i + 1;
    }
    proof {
        assert(digits.take(i - start) =~= digits);
    }
    if over {
        return None;
    }
    if neg {
        if acc <= 0x8000_0000 {
            Some((-(acc as i64)) as i32)
        } else {
            None
        }
    } else {
        if acc <= 0x7fff_ffff {
            Some(acc as i32)
        } else {
            None
        }
    }
}

} // verus!
