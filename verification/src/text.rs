//! Byte-level building blocks for the wire protocol: literal byte
//! sequences, decimal formatting and parsing, substring search, and
//! UTF-8 validation.
//!
//! The whole protocol engine works on byte sequences (`Vec<u8>` in
//! executable code, `Seq<u8>` in specifications), since a client may
//! send arbitrary bytes.

use vstd::prelude::*;

verus! {

use vstd::std_specs::cmp::PartialEqSpec;
use vstd::string::StringSliceAdditionalSpecFns;
use vstd::utf8::valid_utf8;
use vstd::utf8::valid_first_scalar;
use vstd::utf8::length_of_first_scalar;
use vstd::utf8::pop_first_scalar;
use vstd::utf8::partial_valid_utf8;
use vstd::utf8::partial_valid_utf8_extend;
use vstd::utf8::partial_valid_partial_invalid_utf8;

/// The byte sequence a string literal stands for on the wire: its UTF-8
/// encoding.  All protocol tokens are ASCII, for which this is the
/// sequence of their character codes.
pub open spec fn lit(s: &str) -> Seq<u8> {
    s.spec_bytes()
}

/// The UTF-8 bytes of a string slice as a fresh vector.
pub fn lit_bytes(s: &str) -> (r: Vec<u8>)
    ensures
        r@ == lit(s),
{
    vstd::slice::slice_to_vec(s.as_bytes())
}

/// Appends all of `src` to `out`.
#[verifier::loop_isolation(false)]
pub fn push_bytes(out: &mut Vec<u8>, src: &[u8])
    ensures
        final(out)@ == old(out)@ + src@,
{
    let n = src.len();
    let mut i: usize = 0;
    while i < n
        invariant
            i <= n,
            n == src@.len(),
            out@ == old(out)@ + src@.take(i as int),
        decreases n - i,
    {
        let b: u8 = *vstd::slice::slice_index_get(src, i);
        out.push(b);
        i = i + 1;
        proof {
            assert(src@.take(i as int) =~= src@.take(i as int - 1).push(src@[i as int - 1]));
        }
    }
    proof {
        assert(src@.take(n as int) =~= src@);
    }
}

/// Byte-sequence equality.
pub fn bytes_eq(a: &Vec<u8>, b: &Vec<u8>) -> (r: bool)
    ensures
        r == (a@ == b@),
{
    let r = a == b;
    proof {
        if r {
            assert(a@ =~= b@);
        } else {
            if a@ == b@ {
                assert(a.eq_spec(b));
            }
        }
    }
    r
}

/// Decimal representation of a natural number, most significant digit
/// first, without leading zeros (`0` is represented as `"0"`).
pub open spec fn dec_rep(n: nat) -> Seq<u8>
    decreases n,
{
    if n < 10 {
        seq![(0x30 + n) as u8]
    } else {
        dec_rep(n / 10).push((0x30 + n % 10) as u8)
    }
}

/// Formats a number in decimal.
pub fn fmt_dec(n: u64) -> (r: Vec<u8>)
    ensures
        r@ == dec_rep(n as nat),
    decreases n,
{
    if n < 10 {
        let mut v: Vec<u8> = Vec::new();
        v.push((0x30 + n) as u8);
        v
    } else {
        let mut v = fmt_dec(n / 10);
        v.push((0x30 + n % 10) as u8);
        v
    }
}

/// True for the bytes of the ASCII digits `'0'` to `'9'`.
pub open spec fn is_digit(b: u8) -> bool {
    0x30 <= b <= 0x39
}

pub open spec fn all_digits(s: Seq<u8>) -> bool {
    forall|i: int| 0 <= i < s.len() ==> is_digit(#[trigger] s[i])
}

/// The value of a sequence of ASCII digits read in base ten.
pub open spec fn digits_value(s: Seq<u8>) -> int
    decreases s.len(),
{
    if s.len() == 0 {
        0
    } else {
        digits_value(s.drop_last()) * 10 + (s.last() - 0x30)
    }
}

pub open spec fn pow10(n: nat) -> int
    decreases n,
{
    if n == 0 {
        1
    } else {
        10 * pow10((n - 1) as nat)
    }
}

pub proof fn lemma_pow10_mono(a: nat, b: nat)
    requires
        a <= b,
    ensures
        pow10(a) <= pow10(b),
    decreases b,
{
    if a < b {
        lemma_pow10_mono(a, (b - 1) as nat);
        assert(pow10((b - 1) as nat) >= 1) by {
            lemma_pow10_mono(0, (b - 1) as nat);
        }
    }
}

pub proof fn lemma_pow10_18()
    ensures
        pow10(18) == 1000000000000000000,
{
    reveal_with_fuel(pow10, 19);
}

pub proof fn lemma_digits_value_bound(s: Seq<u8>)
    requires
        all_digits(s),
    ensures
        0 <= digits_value(s) < pow10(s.len()),
    decreases s.len(),
{
    if s.len() > 0 {
        assert(all_digits(s.drop_last()));
        lemma_digits_value_bound(s.drop_last());
    }
}

/// The input with every double-quote byte removed; volume arguments may
/// arrive quoted or bare.
pub open spec fn strip_quotes(s: Seq<u8>) -> Seq<u8>
    decreases s.len(),
{
    if s.len() == 0 {
        Seq::empty()
    } else if s.last() == 0x22 {
        strip_quotes(s.drop_last())
    } else {
        strip_quotes(s.drop_last()).push(s.last())
    }
}

/// The integer a volume argument denotes: quotes are ignored, an
/// optional single `+` or `-` sign precedes one to eighteen decimal
/// digits.  Anything else (including numbers of more than eighteen
/// digits, which could overflow the machine arithmetic) is rejected.
pub open spec fn spec_parse_decimal(raw: Seq<u8>) -> Option<int> {
    let s = strip_quotes(raw);
    let neg = s.len() > 0 && s[0] == 0x2d;
    let signed = s.len() > 0 && (s[0] == 0x2d || s[0] == 0x2b);
    let t = if signed {
        s.drop_first()
    } else {
        s
    };
    if 1 <= t.len() <= 18 && all_digits(t) {
        if neg {
            Some(-digits_value(t))
        } else {
            Some(digits_value(t))
        }
    } else {
        None
    }
}

/// Parses a decimal integer argument, tolerating surrounding quotes.
#[verifier::loop_isolation(false)]
pub fn parse_decimal(raw: &Vec<u8>) -> (r: Option<i64>)
    ensures
        spec_parse_decimal(raw@) == (match r {
            Some(v) => Some(v as int),
            None => None::<int>,
        }),
{
    // Remove quote bytes.
    let mut s: Vec<u8> = Vec::new();
    let mut i: usize = 0;
    while i < raw.len()
        invariant
            i <= raw@.len(),
            s@ == strip_quotes(raw@.take(i as int)),
        decreases raw@.len() - i,
    {
        let b: u8 = raw[i];
        proof {
            assert(raw@.take(i as int + 1).drop_last() =~= raw@.take(i as int));
            assert(raw@.take(i as int + 1).last() == raw@[i as int]);
        }
        if b != 0x22 {
            s.push(b);
        }
        i = i + 1;
    }
    proof {
        assert(raw@.take(raw@.len() as int) =~= raw@);
    }

    // Split off an optional sign.
    let ghost stripped = s@;
    let mut neg = false;
    let mut start: usize = 0;
    if s.len() > 0 && (s[0] == 0x2d || s[0] == 0x2b) {
        neg = s[0] == 0x2d;
        start = 1;
    }
    let ghost t = stripped.subrange(start as int, stripped.len() as int);
    proof {
        if start == 0 {
            assert(t =~= stripped);
        } else {
            assert(t =~= stripped.drop_first());
        }
    }

    // Check length and digits, accumulating the value.
    let digits = s.len() - start;
    if digits < 1 || digits > 18 {
        return None;
    }
    let mut acc: u64 = 0;
    let mut j: usize = 0;
    while j < digits
        invariant
            j <= digits,
            digits == t.len(),
            1 <= digits <= 18,
            start + digits == s@.len(),
            t == s@.subrange(start as int, s@.len() as int),
            all_digits(t.take(j as int)),
            acc == digits_value(t.take(j as int)),
            acc < pow10(j as nat),
        decreases digits - j,
    {
        let b: u8 = s[start + j];
        proof {
            assert(t[j as int] == s@[start + j]);
        }
        if b < 0x30 || b > 0x39 {
            proof {
                assert(!is_digit(t[j as int]));
                assert(!all_digits(t));
            }
            return None;
        }
        proof {
            assert(t.take(j as int + 1).drop_last() =~= t.take(j as int));
            assert(t.take(j as int + 1).last() == t[j as int]);
            lemma_pow10_mono(j as nat + 1, 18);
            lemma_pow10_18();
        }
        acc = acc * 10 + ((b - 0x30) as u64);
        j = j + 1;
    }
    proof {
        assert(t.take(digits as int) =~= t);
        lemma_digits_value_bound(t);
        lemma_pow10_mono(digits as nat, 18);
        lemma_pow10_18();
    }
    if neg {
        Some(-(acc as i64))
    } else {
        Some(acc as i64)
    }
}

/// True when `needle` occurs in `hay` starting at position `i`.
pub open spec fn contains_at(hay: Seq<u8>, needle: Seq<u8>, i: int) -> bool {
    0 <= i && i + needle.len() <= hay.len() && hay.subrange(i, i + needle.len()) == needle
}

/// True when `needle` occurs somewhere in `hay`.
pub open spec fn contains_seq(hay: Seq<u8>, needle: Seq<u8>) -> bool {
    exists|i: int| contains_at(hay, needle, i)
}

#[verifier::loop_isolation(false)]
fn match_at(hay: &Vec<u8>, needle: &Vec<u8>, i: usize) -> (r: bool)
    requires
        i + needle@.len() <= hay@.len(),
    ensures
        r == contains_at(hay@, needle@, i as int),
{
    let hl: usize = hay.len();
    let mut j: usize = 0;
    while j < needle.len()
        invariant
            j <= needle@.len(),
            i + needle@.len() <= hay@.len(),
            forall|k: int| 0 <= k < j ==> hay@[i + k] == needle@[k],
        decreases needle@.len() - j,
    {
        if hay[i + j] != needle[j] {
            proof {
                if contains_at(hay@, needle@, i as int) {
                    assert(hay@.subrange(i as int, i + needle@.len())[j as int] == hay@[i + j]);
                }
            }
            return false;
        }
        j = j + 1;
    }
    proof {
        assert(hay@.subrange(i as int, i + needle@.len()) =~= needle@);
    }
    true
}

/// Substring search.
#[verifier::loop_isolation(false)]
pub fn contains_bytes(hay: &Vec<u8>, needle: &Vec<u8>) -> (r: bool)
    ensures
        r == contains_seq(hay@, needle@),
{
    if needle.len() == 0 {
        proof {
            assert(hay@.subrange(0, 0) =~= needle@);
            assert(contains_at(hay@, needle@, 0));
        }
        return true;
    }
    if needle.len() > hay.len() {
        return false;
    }
    let last = hay.len() - needle.len();
    let mut i: usize = 0;
    while i <= last
        invariant
            needle@.len() <= hay@.len(),
            last == hay@.len() - needle@.len(),
            i <= last + 1,
            forall|k: int| 0 <= k < i ==> !contains_at(hay@, needle@, k),
        decreases last + 1 - i,
    {
        if match_at(hay, needle, i) {
            return true;
        }
        i = i + 1;
    }
    false
}

/// Checks that the bytes are a well-formed UTF-8 encoding, against the
/// UTF-8 model of `vstd::utf8`.
#[verifier::loop_isolation(false)]
pub fn is_valid_utf8(s: &Vec<u8>) -> (r: bool)
    ensures
        r == valid_utf8(s@),
{
    let n = s.len();
    let mut i: usize = 0;
    while i < n
        invariant
            i <= n,
            n == s@.len(),
            partial_valid_utf8(s@, i as int),
        decreases n - i,
    {
        let ghost suffix = s@.subrange(i as int, n as int);
        let b0: u8 = s[i];
        proof {
            assert(suffix[0] == s@[i as int]);
        }
        // Determine the width of the first scalar's encoding from its
        // leading byte and check its continuation bytes and value range.
        let width: usize;
        if b0 < 0x80 {
            proof {
                let cp = vstd::utf8::leading_bits_width_1(suffix[0]);
                assert(cp <= 0x7f) by (bit_vector)
                    requires
                        cp == (b0 & 0x7f) as u32,
                ;
            }
            width = 1;
        } else if 0xc2 <= b0 && b0 <= 0xdf {
            if n - i < 2 || !is_continuation(s[i + 1]) {
                proof { invalid_suffix(s@, i as int); }
                return false;
            }
            proof {
                assert(suffix[1] == s@[i as int + 1]);
                let c1 = suffix[1];
                let cp = vstd::utf8::codepoint_width_2(suffix[0], suffix[1]);
                assert(0x80 <= cp <= 0x7ff) by (bit_vector)
                    requires
                        cp == ((b0 & 0x1f) as u32) << 6 | ((c1 & 0x3f) as u32),
                        0xc2 <= b0 <= 0xdf,
                        0x80 <= c1 <= 0xbf,
                ;
            }
            width = 2;
        } else if 0xe0 <= b0 && b0 <= 0xef {
            if n - i < 3 || !is_continuation(s[i + 1]) || !is_continuation(s[i + 2]) {
                proof { invalid_suffix(s@, i as int); }
                return false;
            }
            let b1: u8 = s[i + 1];
            // Reject overlong encodings and the surrogate range by the
            // second byte, as the leading byte alone decides them here.
            if (b0 == 0xe0 && b1 < 0xa0) || (b0 == 0xed && b1 > 0x9f) {
                proof {
                    assert(suffix[1] == s@[i as int + 1]);
                    assert(suffix[2] == s@[i as int + 2]);
                    width3_value(suffix[0], suffix[1], suffix[2]);
                    invalid_suffix(s@, i as int);
                }
                return false;
            }
            proof {
                assert(suffix[1] == s@[i as int + 1]);
                assert(suffix[2] == s@[i as int + 2]);
                width3_value(suffix[0], suffix[1], suffix[2]);
            }
            width = 3;
        } else if 0xf0 <= b0 && b0 <= 0xf4 {
            if n - i < 4 || !is_continuation(s[i + 1]) || !is_continuation(s[i + 2])
                || !is_continuation(s[i + 3]) {
                proof { invalid_suffix(s@, i as int); }
                return false;
            }
            let b1: u8 = s[i + 1];
            if (b0 == 0xf0 && b1 < 0x90) || (b0 == 0xf4 && b1 > 0x8f) {
                proof {
                    assert(suffix[1] == s@[i as int + 1]);
                    assert(suffix[2] == s@[i as int + 2]);
                    assert(suffix[3] == s@[i as int + 3]);
                    width4_value(suffix[0], suffix[1], suffix[2], suffix[3]);
                    invalid_suffix(s@, i as int);
                }
                return false;
            }
            proof {
                assert(suffix[1] == s@[i as int + 1]);
                assert(suffix[2] == s@[i as int + 2]);
                assert(suffix[3] == s@[i as int + 3]);
                width4_value(suffix[0], suffix[1], suffix[2], suffix[3]);
            }
            width = 4;
        } else {
            // 0x80..=0xc1: continuation or overlong lead; 0xf5..=0xff:
            // beyond the scalar range.
            proof {
                if valid_first_scalar(suffix) {
                    if 0xc0 <= b0 && b0 <= 0xc1 {
                        let c1 = suffix[1];
                        let cp = vstd::utf8::codepoint_width_2(suffix[0], suffix[1]);
                        assert(cp < 0x80) by (bit_vector)
                            requires
                                cp == ((b0 & 0x1f) as u32) << 6 | ((c1 & 0x3f) as u32),
                                0xc0 <= b0 <= 0xc1,
                        ;
                    } else if 0xf5 <= b0 && b0 <= 0xf7 {
                        let c1 = suffix[1];
                        let c2 = suffix[2];
                        let c3 = suffix[3];
                        let cp = vstd::utf8::codepoint_width_4(
                            suffix[0],
                            suffix[1],
                            suffix[2],
                            suffix[3],
                        );
                        assert(cp > 0x10ffff) by (bit_vector)
                            requires
                                cp == ((b0 & 0x07) as u32) << 18 | ((c1 & 0x3f) as u32) << 12 | ((
                                c2 & 0x3f) as u32) << 6 | ((c3 & 0x3f) as u32),
                                0xf5 <= b0 <= 0xf7,
                        ;
                    }
                }
                invalid_suffix(s@, i as int);
            }
            return false;
        }
        proof {
            assert(valid_first_scalar(suffix));
            assert(length_of_first_scalar(suffix) == width);
            partial_valid_utf8_extend(s@, i as int);
        }
        i = i + width;
    }
    proof {
        assert(s@.subrange(0, n as int) =~= s@);
    }
    true
}

fn is_continuation(b: u8) -> (r: bool)
    ensures
        r == vstd::utf8::is_continuation_byte(b),
{
    0x80 <= b && b <= 0xbf
}

/// The three-byte codepoint value lies where the leading and second
/// byte alone place it: below `0x800` only for overlong forms excluded
/// by the `0xe0` check, and in the surrogate range only for `0xed`
/// leads excluded likewise.
proof fn width3_value(b0: u8, b1: u8, b2: u8)
    requires
        0xe0 <= b0 <= 0xef,
        0x80 <= b1 <= 0xbf,
        0x80 <= b2 <= 0xbf,
    ensures
        vstd::utf8::codepoint_width_3(b0, b1, b2) >= 0x800 <==> (b0 != 0xe0 || b1 >= 0xa0),
        (0xd800 <= vstd::utf8::codepoint_width_3(b0, b1, b2) <= 0xdfff) <==> (b0 == 0xed && b1
            > 0x9f),
{
    let cp = vstd::utf8::codepoint_width_3(b0, b1, b2);
    assert((cp >= 0x800 <==> (b0 != 0xe0 || b1 >= 0xa0)) && ((0xd800 <= cp <= 0xdfff) <==> (b0
        == 0xed && b1 > 0x9f))) by (bit_vector)
        requires
            cp == ((b0 & 0x0f) as u32) << 12 | ((b1 & 0x3f) as u32) << 6 | ((b2 & 0x3f) as u32),
            0xe0 <= b0 <= 0xef,
            0x80 <= b1 <= 0xbf,
            0x80 <= b2 <= 0xbf,
    ;
}

/// The four-byte codepoint value lies in the scalar range exactly when
/// the leading and second byte admit it.
proof fn width4_value(b0: u8, b1: u8, b2: u8, b3: u8)
    requires
        0xf0 <= b0 <= 0xf4,
        0x80 <= b1 <= 0xbf,
        0x80 <= b2 <= 0xbf,
        0x80 <= b3 <= 0xbf,
    ensures
        (0x10000 <= vstd::utf8::codepoint_width_4(b0, b1, b2, b3) <= 0x10ffff) <==> (!(b0 == 0xf0
            && b1 < 0x90) && !(b0 == 0xf4 && b1 > 0x8f)),
{
    let cp = vstd::utf8::codepoint_width_4(b0, b1, b2, b3);
    assert((0x10000 <= cp <= 0x10ffff) <==> (!(b0 == 0xf0 && b1 < 0x90) && !(b0 == 0xf4 && b1
        > 0x8f))) by (bit_vector)
        requires
            cp == ((b0 & 0x07) as u32) << 18 | ((b1 & 0x3f) as u32) << 12 | ((b2 & 0x3f) as u32)
                << 6 | ((b3 & 0x3f) as u32),
            0xf0 <= b0 <= 0xf4,
            0x80 <= b1 <= 0xbf,
            0x80 <= b2 <= 0xbf,
            0x80 <= b3 <= 0xbf,
    ;
}

/// A prefix-valid sequence whose suffix starts with no valid scalar is
/// invalid as a whole.
proof fn invalid_suffix(s: Seq<u8>, i: int)
    requires
        0 <= i < s.len(),
        partial_valid_utf8(s, i),
        !valid_first_scalar(s.subrange(i, s.len() as int)),
    ensures
        !valid_utf8(s),
{
    partial_valid_partial_invalid_utf8(s, i);
}

} // verus!
