//! Frame-rate normalization for the external encode tool.
//!
//! The probe reports a stream's frame rate as a rational string such
//! as `30000/1001`.  The encode tool is happier with a decimal, so a
//! well-formed rational with exactly one slash and decimal numerator
//! and denominator is converted to a fixed three-decimal string,
//! rounded to the nearest thousandth (half away from zero).  An empty
//! report falls back to a default of 30 frames per second; anything
//! else passes through unchanged.

use vstd::prelude::*;

use crate::numstr::{all_digits, digits_val, parse_u64, spec_digits, u64_to_string};

verus! {

/// `k` is the only slash in `s`.
pub open spec fn is_fraction_split(s: Seq<char>, k: int) -> bool {
    &&& 0 <= k < s.len()
    &&& s[k] == '/'
    &&& forall|j: int| 0 <= j < s.len() && j != k ==> s[j] != '/'
}

/// A numerator or denominator is usable when it is a non-empty digit
/// string whose value fits `u64`.
pub open spec fn usable_number(s: Seq<char>) -> bool {
    s.len() > 0 && all_digits(s) && digits_val(s) <= u64::MAX
}

/// `numerator / denominator` in thousandths, rounded to nearest,
/// halves away from zero.
pub open spec fn milli_of(numerator: int, denominator: int) -> int
    recommends
        denominator > 0,
{
    (2000 * numerator + denominator) / (2 * denominator)
}

/// Zero-padded three-digit decimal text of a value below 1000.
pub open spec fn spec_frac3(f: int) -> Seq<char>
    recommends
        0 <= f < 1000,
{
    if f < 10 {
        seq!['0', '0'] + spec_digits(f)
    } else if f < 100 {
        seq!['0'] + spec_digits(f)
    } else {
        spec_digits(f)
    }
}

/// Decimal text of a value counted in thousandths, with exactly three
/// digits after the point.
pub open spec fn spec_decimal_milli(m: int) -> Seq<char>
    recommends
        m >= 0,
{
    spec_digits(m / 1000) + seq!['.'] + spec_frac3(m % 1000)
}

/// What frame-rate normalization yields for every probed string.
pub open spec fn spec_normalize_frame_rate(s: Seq<char>) -> Seq<char> {
    if s.len() == 0 {
        seq!['3', '0']
    } else if exists|k: int| is_fraction_split(s, k) {
        let k = choose|k: int| is_fraction_split(s, k);
        let num = s.take(k);
        let den = s.subrange(k + 1, s.len() as int);
        if usable_number(num) && usable_number(den) && digits_val(den) > 0 && milli_of(
            digits_val(num),
            digits_val(den),
        ) <= u64::MAX {
            spec_decimal_milli(milli_of(digits_val(num), digits_val(den)))
        } else {
            s
        }
    } else {
        s
    }
}

/// Append the zero-padded three-digit fraction of `f`.
fn append_frac3(s: &mut String, f: u64)
    requires
        f < 1000,
    ensures
        final(s)@ == old(s)@ + spec_frac3(f as int),
{
    proof {
        reveal_strlit("0");
        reveal_strlit("00");
    }
    if f < 10 {
        s.append("00");
        let d = u64_to_string(f);
        s.append(d.as_str());
        proof {
            assert("00"@ =~= seq!['0', '0']);
            assert(s@ =~= old(s)@ + spec_frac3(f as int));
        }
    } else if f < 100 {
        s.append("0");
        let d = u64_to_string(f);
        s.append(d.as_str());
        proof {
            assert("0"@ =~= seq!['0']);
            assert(s@ =~= old(s)@ + spec_frac3(f as int));
        }
    } else {
        let d = u64_to_string(f);
        s.append(d.as_str());
        proof {
            assert(s@ =~= old(s)@ + spec_frac3(f as int));
        }
    }
}

/// Write a value counted in thousandths as decimal text with three
/// digits after the point.
fn decimal_milli_string(m: u64) -> (r: String)
    ensures
        r@ == spec_decimal_milli(m as int),
{
    let mut s = u64_to_string(m / 1000);
    proof {
        reveal_strlit(".");
    }
    s.append(".");
    append_frac3(&mut s, m % 1000);
    proof {
        assert("."@ =~= seq!['.']);
        assert(s@ =~= spec_decimal_milli(m as int));
    }
    s
}

/// Normalize a probed frame-rate string for the encode tool.
///
/// An empty probe yields the default `"30"`.  A rational with exactly
/// one slash and two usable decimal numbers, whose value in
/// thousandths is positive-denominator and representable, becomes a
/// three-decimal fixed-point string.  Everything else passes through
/// unchanged.
pub fn normalize_frame_rate(raw: &str) -> (r: String)
    ensures
        r@ == spec_normalize_frame_rate(raw@),
{
    let len = raw.unicode_len();
    if len == 0 {
        proof {
            reveal_strlit("30");
            assert("30"@ =~= seq!['3', '0']);
        }
        return "30".to_owned();
    }
    let mut slashes: usize = 0;
    let mut k: usize = 0;
    let mut k2: usize = 0;
    let mut i: usize = 0;
    while i < len
        invariant
            0 <= i <= len,
            len == raw@.len(),
            slashes == 0 ==> forall|j: int| 0 <= j < i ==> raw@[j] != '/',
            slashes == 1 ==> k < i && raw@[k as int] == '/' && forall|j: int|
                0 <= j < i && j != k ==> raw@[j] != '/',
            slashes >= 2 ==> k < k2 < i && raw@[k as int] == '/' && raw@[k2 as int] == '/',
        decreases len - i,
    {
        let c = raw.get_char(i);
        if c == '/' {
            if slashes == 0 {
                k = i;
            } else if slashes == 1 {
                k2 = i;
            }
            if slashes < 2 {
                slashes = slashes + 1;
            }
        }
        i = i + 1;
    }
    if slashes == 0 {
        proof {
            assert(forall|kk: int| !is_fraction_split(raw@, kk));
        }
        return raw.to_owned();
    }
    if slashes >= 2 {
        proof {
            assert forall|kk: int| !is_fraction_split(raw@, kk) by {
                if 0 <= kk < raw@.len() {
                    if kk != k {
                        assert(raw@[k as int] == '/');
                    } else {
                        assert(raw@[k2 as int] == '/');
                    }
                }
            }
        }
        return raw.to_owned();
    }
    proof {
        assert(is_fraction_split(raw@, k as int));
        let kk = choose|kk: int| is_fraction_split(raw@, kk);
        assert(is_fraction_split(raw@, kk));
        assert(kk == k as int);
    }
    let num_str = raw.substring_char(0, k);
    let den_str = raw.substring_char(k + 1, len);
    proof {
        assert(num_str@ =~= raw@.take(k as int));
        assert(den_str@ =~= raw@.subrange(k as int + 1, raw@.len() as int));
    }
    let num = parse_u64(num_str);
    let den = parse_u64(den_str);
    match (num, den) {
        (Some(n), Some(d)) => {
            if d == 0 {
                return raw.to_owned();
            }
            let wide = (2000u128 * (n as u128) + (d as u128)) / (2 * (d as u128));
            if wide > u64::MAX as u128 {
                return raw.to_owned();
            }
            decimal_milli_string(wide as u64)
        },
        _ => raw.to_owned(),
    }
}

} // verus!
