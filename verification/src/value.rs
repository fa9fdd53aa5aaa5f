//! Fixed-point sensor values.
//!
//! Sensors report their readings as text such as `"10.5"` or `"-3"`. The
//! controllers compare readings against thresholds, so the crate models a
//! reading as a signed count of thousandths: `"10.5"` becomes `10500`. Three
//! fractional digits are kept; any further digits are ignored. The parser
//! accepts an optional sign followed by digits with at most one decimal
//! point, which covers plain sensor output; exponent notation and the float
//! spellings `inf` and `NaN` are rejected.

use vstd::prelude::*;
use vstd::arithmetic::div_mod::lemma_fundamental_div_mod;
use vstd::arithmetic::mul::lemma_mul_inequality;
use vstd::string::StrSliceExecFns;

verus! {

/// Largest magnitude, in thousandths, of a threshold or tolerance a
/// controller accepts; one trillion units. Staying inside this range keeps
/// the sum of a threshold and a tolerance inside `i64`.
pub const MAX_DECIMAL_MILLI: i64 = 1_000_000_000_000_000;

/// A decimal number held as a signed count of thousandths.
#[derive(Clone, Copy, PartialEq, Eq, Structural, Debug)]
pub struct Decimal {
    pub milli: i64,
}

impl Decimal {
    /// The number `units`, e.g. `from_int(70)` is the reading `"70"`.
    pub fn from_int(units: i64) -> (r: Decimal)
        requires
            -9_223_372_036_854_775 <= units <= 9_223_372_036_854_775,
        ensures
            r.milli == units * 1000,
    {
        Decimal { milli: units * 1000 }
    }

    /// The number `milli / 1000`, e.g. `from_milli(10_500)` is `"10.5"`.
    pub fn from_milli(milli: i64) -> (r: Decimal)
        ensures
            r.milli == milli,
    {
        Decimal { milli }
    }
}

/// True when `c` is an ASCII digit.
pub open spec fn is_digit(c: char) -> bool {
    48 <= c as u32 && c as u32 <= 57
}

/// The numeric value of the digit `c`.
pub open spec fn digit_val(c: char) -> int {
    c as u32 - 48
}

/// True when every character of `s` is a digit.
pub open spec fn all_digits(s: Seq<char>) -> bool {
    forall|i: int| 0 <= i < s.len() ==> is_digit(#[trigger] s[i])
}

/// The number written by the digit string `s`, most significant first; an
/// empty string writes zero.
pub open spec fn digits_val(s: Seq<char>) -> int
    decreases s.len(),
{
    if s.len() == 0 {
        0
    } else {
        digits_val(s.drop_last()) * 10 + digit_val(s.last())
    }
}

/// How many leading characters of `s` are a sign.
pub open spec fn sign_len(s: Seq<char>) -> int {
    if s.len() > 0 && (s[0] == '-' || s[0] == '+') {
        1
    } else {
        0
    }
}

/// True when `s` carries a leading minus sign.
pub open spec fn spec_is_negative(s: Seq<char>) -> bool {
    s.len() > 0 && s[0] == '-'
}

/// The index of the first `'.'` in `s`, or `s.len()` when there is none.
pub open spec fn first_dot(s: Seq<char>) -> int
    decreases s.len(),
{
    if s.len() == 0 {
        0
    } else if s[0] == '.' {
        0
    } else {
        1 + first_dot(s.subrange(1, s.len() as int))
    }
}

/// The digits before the decimal point, sign excluded.
pub open spec fn int_digits(s: Seq<char>) -> Seq<char> {
    let b = s.subrange(sign_len(s), s.len() as int);
    b.subrange(0, first_dot(b))
}

/// The digits after the decimal point, or the empty sequence when there is
/// no point.
pub open spec fn frac_digits(s: Seq<char>) -> Seq<char> {
    let b = s.subrange(sign_len(s), s.len() as int);
    if first_dot(b) == b.len() {
        Seq::<char>::empty()
    } else {
        b.subrange(first_dot(b) + 1, b.len() as int)
    }
}

/// True when `s` is a well-formed decimal: an optional sign, then digits
/// with at most one decimal point and at least one digit overall.
pub open spec fn spec_is_decimal(s: Seq<char>) -> bool {
    &&& all_digits(int_digits(s))
    &&& all_digits(frac_digits(s))
    &&& int_digits(s).len() + frac_digits(s).len() > 0
}

/// The thousandths written by the first three fractional digits of `fp`,
/// missing digits reading as zero.
pub open spec fn frac_milli(fp: Seq<char>) -> int {
    (if fp.len() >= 1 {
        digit_val(fp[0]) * 100
    } else {
        0
    }) + (if fp.len() >= 2 {
        digit_val(fp[1]) * 10
    } else {
        0
    }) + (if fp.len() >= 3 {
        digit_val(fp[2])
    } else {
        0
    })
}

/// The value of the well-formed decimal `s`, in thousandths, as an
/// unbounded integer.
pub open spec fn spec_decimal_milli(s: Seq<char>) -> int {
    let mag = digits_val(int_digits(s)) * 1000 + frac_milli(frac_digits(s));
    if spec_is_negative(s) {
        -mag
    } else {
        mag
    }
}

/// What parsing returns: the value of `s` when `s` is well formed and its
/// magnitude fits in an `i64` count of thousandths, and nothing otherwise.
pub open spec fn spec_parse_decimal(s: Seq<char>) -> Option<Decimal> {
    if spec_is_decimal(s) && -9_223_372_036_854_775_807 <= spec_decimal_milli(s)
        <= 9_223_372_036_854_775_807 {
        Some(Decimal { milli: spec_decimal_milli(s) as i64 })
    } else {
        None
    }
}

/// The value written by an all-digit string is not negative.
proof fn lemma_digits_val_nonneg(s: Seq<char>)
    requires
        all_digits(s),
    ensures
        digits_val(s) >= 0,
    decreases s.len(),
{
    if s.len() > 0 {
        assert(all_digits(s.drop_last()));
        lemma_digits_val_nonneg(s.drop_last());
    }
}

/// Dropping trailing digits never increases the value.
proof fn lemma_digits_val_prefix_le(s: Seq<char>, k: int)
    requires
        all_digits(s),
        0 <= k <= s.len(),
    ensures
        digits_val(s.subrange(0, k)) <= digits_val(s),
    decreases s.len() - k,
{
    if k < s.len() {
        let t = s.subrange(0, k + 1);
        assert(t.drop_last() =~= s.subrange(0, k));
        assert(all_digits(t.drop_last()));
        lemma_digits_val_nonneg(t.drop_last());
        assert(digits_val(t) == digits_val(s.subrange(0, k)) * 10 + digit_val(t.last()));
        lemma_digits_val_prefix_le(s, k + 1);
    } else {
        assert(s.subrange(0, k) =~= s);
    }
}

/// The fractional thousandths of an all-digit string lie in `[0, 1000)`.
proof fn lemma_frac_milli_range(fp: Seq<char>)
    requires
        all_digits(fp),
    ensures
        0 <= frac_milli(fp) < 1000,
{
}

/// `first_dot` really is the first dot: if nothing before `k` is a dot, the
/// first dot is at or after `k`, and if `k` itself is a dot it is exactly at
/// `k`.
proof fn lemma_first_dot_at(s: Seq<char>, k: int)
    requires
        0 <= k <= s.len(),
        forall|j: int| 0 <= j < k ==> (#[trigger] s[j]) != '.',
    ensures
        k <= first_dot(s) <= s.len(),
        k < s.len() && s[k] == '.' ==> first_dot(s) == k,
    decreases s.len(),
{
    if s.len() == 0 {
    } else if s[0] == '.' {
        assert(k == 0);
    } else {
        let rest = s.subrange(1, s.len() as int);
        assert(forall|j: int| 0 <= j < rest.len() ==> rest[j] == s[j + 1]);
        if k > 0 {
            lemma_first_dot_at(rest, k - 1);
        } else {
            lemma_first_dot_at(rest, 0);
        }
    }
}

/// True when the character at position `i` of `s` is a decimal point.
fn is_dot_at(s: &str, i: usize) -> (r: bool)
    requires
        i < s@.len(),
    ensures
        r == (s@[i as int] == '.'),
{
    s.get_char(i) == '.'
}

/// Parse a decimal reading.
///
/// Returns the value of `s` in thousandths exactly when `s` is an optional
/// sign followed by digits with at most one decimal point, at least one
/// digit in all, and a magnitude of at most `i64::MAX` thousandths;
/// otherwise returns `None`. Fractional digits beyond the third are read
/// and checked but do not contribute to the value.
#[verifier::loop_isolation(false)]
#[verifier::rlimit(60)]
pub fn parse_decimal(s: &str) -> (r: Option<Decimal>)
    ensures
        r == spec_parse_decimal(s@),
{
    let n: usize = s.unicode_len();
    let mut pos: usize = 0;
    let mut negative: bool = false;
    if n > 0 {
        let c0 = s.get_char(0);
        if c0 == '-' {
            negative = true;
            pos = 1;
        } else if c0 == '+' {
            pos = 1;
        }
    }
    proof {
        assert(pos as int == sign_len(s@));
        assert(negative == spec_is_negative(s@));
    }

    // Accumulate the digits before the decimal point.
    let mut i: usize = pos;
    let mut acc: i64 = 0;
    while i < n && !is_dot_at(s, i)
        invariant
            pos <= i <= n,
            forall|j: int| pos <= j < i ==> is_digit(#[trigger] s@[j]) && s@[j] != '.',
            0 <= acc,
            acc as int == digits_val(s@.subrange(pos as int, i as int)),
        decreases n - i,
    {
        let c = s.get_char(i);
        let u: u32 = c as u32;
        if u < 48 || u > 57 {
            proof {
                let b = s@.subrange(sign_len(s@), s@.len() as int);
                lemma_first_dot_at(b, i + 1 - pos);
                if spec_is_decimal(s@) {
                    assert(int_digits(s@)[i - pos] == b[i - pos]);
                    assert(is_digit(s@[i as int]));
                }
            }
            return None;
        }
        let d: i64 = (u - 48) as i64;
        // A reading this large cannot fit in an i64 count of thousandths,
        // whatever follows.
        if acc > (i64::MAX - d) / 10 {
            proof {
                lemma_overflow_on_int_digit(s@, pos as int, i as int, acc as int, d as int);
            }
            return None;
        }
        acc = acc * 10 + d;
        proof {
            let prev = s@.subrange(pos as int, i as int);
            let cur = s@.subrange(pos as int, i + 1);
            assert(cur.drop_last() =~= prev);
            assert(cur.last() == s@[i as int]);
        }
        i = i + 1;
    }
    let saw_dot: bool = i < n;

    proof {
        let b = s@.subrange(sign_len(s@), s@.len() as int);
        if saw_dot {
            lemma_first_dot_at(b, i - pos);
            assert(b[i - pos] == s@[i as int]);
            assert(first_dot(b) == i - pos);
        } else {
            lemma_first_dot_at(b, b.len() as int);
            assert(first_dot(b) == b.len());
        }
        assert(int_digits(s@) =~= s@.subrange(pos as int, i as int));
        assert(all_digits(int_digits(s@)));
    }

    // Validate the fractional digits and read the first three.
    let frac_start: usize = if saw_dot {
        i + 1
    } else {
        i
    };
    proof {
        assert(frac_digits(s@) =~= s@.subrange(frac_start as int, n as int));
    }
    let mut j: usize = frac_start;
    let mut frac: i64 = 0;
    while j < n
        invariant
            frac_start <= j <= n,
            forall|k: int| frac_start <= k < j ==> is_digit(#[trigger] s@[k]),
            0 <= frac < 1000,
            frac as int == frac_milli(s@.subrange(frac_start as int, j as int)),
        decreases n - j,
    {
        let c = s.get_char(j);
        let u: u32 = c as u32;
        if u < 48 || u > 57 {
            proof {
                if spec_is_decimal(s@) {
                    assert(frac_digits(s@)[j - frac_start] == s@[j as int]);
                    assert(is_digit(s@[j as int]));
                }
            }
            return None;
        }
        let d: i64 = (u - 48) as i64;
        if j == frac_start {
            frac = d * 100;
        } else if j == frac_start + 1 {
            frac = frac + d * 10;
        } else if j == frac_start + 2 {
            frac = frac + d;
        }
        proof {
            let prev = s@.subrange(frac_start as int, j as int);
            let cur = s@.subrange(frac_start as int, j + 1);
            assert(forall|k: int| 0 <= k < prev.len() ==> cur[k] == prev[k]);
            assert(cur[j - frac_start] == s@[j as int]);
        }
        j = j + 1;
    }

    proof {
        assert(all_digits(frac_digits(s@)));
        assert(int_digits(s@).len() == i - pos);
        assert(frac_digits(s@).len() == n - frac_start);
    }

    // At least one digit must be present.
    if i == pos && frac_start == n {
        return None;
    }
    proof {
        assert(spec_is_decimal(s@));
    }

    // Combine whole and fractional parts, rejecting overflow.
    if acc > (i64::MAX - frac) / 1000 {
        proof {
            lemma_scale_overflow(acc as int, frac as int);
        }
        return None;
    }
    let mag: i64 = acc * 1000 + frac;
    proof {
        lemma_scale_fits(acc as int, frac as int);
        assert(mag as int == digits_val(int_digits(s@)) * 1000 + frac_milli(frac_digits(s@)));
    }
    if negative {
        Some(Decimal { milli: -mag })
    } else {
        Some(Decimal { milli: mag })
    }
}

/// Once the accumulated head of the whole part is about to overflow, the
/// whole reading is out of range whenever it is well formed at all.
proof fn lemma_overflow_on_int_digit(s: Seq<char>, pos: int, i: int, acc: int, d: int)
    requires
        0 <= pos <= i < s.len(),
        pos == sign_len(s),
        forall|j: int| pos <= j < i ==> is_digit(#[trigger] s[j]) && s[j] != '.',
        is_digit(s[i]),
        s[i] != '.',
        d == digit_val(s[i]),
        acc == digits_val(s.subrange(pos, i)),
        acc >= 0,
        acc > (0x7fff_ffff_ffff_ffff - d) / 10,
    ensures
        spec_is_decimal(s) ==> spec_decimal_milli(s) > 0x7fff_ffff_ffff_ffff
            || spec_decimal_milli(s) < -0x7fff_ffff_ffff_ffff,
{
    let m: int = 0x7fff_ffff_ffff_ffff;
    if spec_is_decimal(s) {
        let b = s.subrange(sign_len(s), s.len() as int);
        lemma_first_dot_at(b, i + 1 - pos);
        let ip = int_digits(s);
        assert(ip.len() >= i + 1 - pos);
        let head = s.subrange(pos, i + 1);
        assert(ip.subrange(0, i + 1 - pos) =~= head);
        assert(head.drop_last() =~= s.subrange(pos, i));
        assert(digits_val(head) == acc * 10 + d);
        // acc > (m - d) / 10 means acc * 10 + d > m.
        assert(acc * 10 + d > m) by {
            let q = (m - d) / 10;
            lemma_fundamental_div_mod(m - d, 10);
            assert(m - d == 10 * q + ((m - d) % 10));
            assert(acc >= q + 1);
            lemma_mul_inequality(q + 1, acc, 10);
            assert((q + 1) * 10 == q * 10 + 10);
        }
        lemma_digits_val_prefix_le(ip, i + 1 - pos);
        assert(digits_val(ip) >= acc * 10 + d);
        lemma_frac_milli_range(frac_digits(s));
        assert(digits_val(ip) * 1000 >= (acc * 10 + d) * 1000) by {
            lemma_mul_inequality(acc * 10 + d, digits_val(ip), 1000);
        }
        assert((acc * 10 + d) * 1000 > m) by {
            lemma_mul_inequality(m + 1, acc * 10 + d, 1000);
        }
        let mag = digits_val(ip) * 1000 + frac_milli(frac_digits(s));
        assert(mag > m);
    }
}

/// The final scale-and-add overflow test is exact: the magnitude exceeds
/// `i64::MAX` exactly when the test fires.
proof fn lemma_scale_overflow(acc: int, frac: int)
    requires
        acc >= 0,
        0 <= frac < 1000,
        acc > (0x7fff_ffff_ffff_ffff - frac) / 1000,
    ensures
        acc * 1000 + frac > 0x7fff_ffff_ffff_ffff,
{
    let m: int = 0x7fff_ffff_ffff_ffff;
    let q = (m - frac) / 1000;
    lemma_fundamental_div_mod(m - frac, 1000);
    assert(m - frac == 1000 * q + ((m - frac) % 1000));
    assert(acc >= q + 1);
    lemma_mul_inequality(q + 1, acc, 1000);
    assert((q + 1) * 1000 == q * 1000 + 1000);
}

/// When the final overflow test does not fire, the magnitude fits.
proof fn lemma_scale_fits(acc: int, frac: int)
    requires
        acc >= 0,
        0 <= frac < 1000,
        acc <= (0x7fff_ffff_ffff_ffff - frac) / 1000,
    ensures
        0 <= acc * 1000 + frac <= 0x7fff_ffff_ffff_ffff,
{
    let m: int = 0x7fff_ffff_ffff_ffff;
    let q = (m - frac) / 1000;
    lemma_fundamental_div_mod(m - frac, 1000);
    assert(m - frac == 1000 * q + ((m - frac) % 1000));
    lemma_mul_inequality(acc, q, 1000);
    lemma_digits_scale_nonneg(acc, frac);
}

/// A non-negative count of thousandths stays non-negative after scaling.
proof fn lemma_digits_scale_nonneg(acc: int, frac: int)
    requires
        acc >= 0,
        frac >= 0,
    ensures
        acc * 1000 + frac >= 0,
{
    lemma_mul_inequality(0, acc, 1000);
}

} // verus!

