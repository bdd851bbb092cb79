//! Decimal text: reading and writing unsigned numbers.
//!
//! The pipeline meets numbers as text in two places: a probed frame
//! rate arrives as a rational string such as `30000/1001`, and output
//! names carry a scale suffix such as `_4x`.  Both directions are
//! defined here over the plain decimal digit sequence of a number.

use vstd::prelude::*;

verus! {

/// The digit character for a value below ten.
pub open spec fn digit_char(d: int) -> char {
    if d == 0 {
        '0'
    } else if d == 1 {
        '1'
    } else if d == 2 {
        '2'
    } else if d == 3 {
        '3'
    } else if d == 4 {
        '4'
    } else if d == 5 {
        '5'
    } else if d == 6 {
        '6'
    } else if d == 7 {
        '7'
    } else if d == 8 {
        '8'
    } else {
        '9'
    }
}

/// Whether a character is a decimal digit.
pub open spec fn is_digit(c: char) -> bool {
    48 <= c as int <= 57
}

/// The value of a digit character.
pub open spec fn digit_val(c: char) -> int {
    c as int - 48
}

/// The decimal digit sequence of a non-negative number, most
/// significant digit first, without leading zeros (`0` is `"0"`).
pub open spec fn spec_digits(n: int) -> Seq<char>
    recommends
        n >= 0,
    decreases n,
{
    if n < 10 {
        seq![digit_char(n)]
    } else {
        spec_digits(n / 10).push(digit_char(n % 10))
    }
}

/// The number a sequence of digit characters denotes.
pub open spec fn digits_val(s: Seq<char>) -> int
    decreases s.len(),
{
    if s.len() == 0 {
        0
    } else {
        digits_val(s.drop_last()) * 10 + digit_val(s.last())
    }
}

/// Every character of the sequence is a decimal digit.
pub open spec fn all_digits(s: Seq<char>) -> bool {
    forall|i: int| 0 <= i < s.len() ==> is_digit(#[trigger] s[i])
}

/// A digit sequence denotes a non-negative number.
pub proof fn lemma_digits_val_nonneg(s: Seq<char>)
    requires
        all_digits(s),
    ensures
        digits_val(s) >= 0,
    decreases s.len(),
{
    if s.len() > 0 {
        assert(all_digits(s.drop_last())) by {
            assert(forall|i: int|
                0 <= i < s.len() - 1 ==> #[trigger] s.drop_last()[i] == s[i]);
        }
        lemma_digits_val_nonneg(s.drop_last());
        assert(is_digit(s.last()));
    }
}

/// Reading one more digit multiplies the value read so far by ten.
pub proof fn lemma_digits_val_step(s: Seq<char>, i: int)
    requires
        0 <= i < s.len(),
    ensures
        digits_val(s.take(i + 1)) == digits_val(s.take(i)) * 10 + digit_val(s[i]),
{
    assert(s.take(i + 1).drop_last() =~= s.take(i));
    assert(s.take(i + 1).last() == s[i]);
}

/// The digit string of a one-digit number.
fn digit_str(d: u64) -> (s: &'static str)
    requires
        d < 10,
    ensures
        s@ =~= seq![digit_char(d as int)],
{
    proof {
        reveal_strlit("0");
        reveal_strlit("1");
        reveal_strlit("2");
        reveal_strlit("3");
        reveal_strlit("4");
        reveal_strlit("5");
        reveal_strlit("6");
        reveal_strlit("7");
        reveal_strlit("8");
        reveal_strlit("9");
    }
    if d == 0 {
        "0"
    } else if d == 1 {
        "1"
    } else if d == 2 {
        "2"
    } else if d == 3 {
        "3"
    } else if d == 4 {
        "4"
    } else if d == 5 {
        "5"
    } else if d == 6 {
        "6"
    } else if d == 7 {
        "7"
    } else if d == 8 {
        "8"
    } else {
        "9"
    }
}

/// Write a number as its decimal digit string.
pub fn u64_to_string(n: u64) -> (s: String)
    ensures
        s@ == spec_digits(n as int),
    decreases n,
{
    let d = n % 10;
    if n < 10 {
        let s = digit_str(d);
        s.to_owned()
    } else {
        let mut s = u64_to_string(n / 10);
        s.append(digit_str(d));
        proof {
            assert(s@ =~= spec_digits((n / 10) as int).push(digit_char((n % 10) as int)));
        }
        s
    }
}

/// Read a number from a decimal digit string.
///
/// Returns the denoted value exactly when the text is non-empty,
/// all digits, and the value fits `u64`; returns nothing otherwise.
pub fn parse_u64(s: &str) -> (r: Option<u64>)
    ensures
        r is Some <==> s@.len() > 0 && all_digits(s@) && digits_val(s@) <= u64::MAX,
        r matches Some(v) ==> v == digits_val(s@),
{
    let len = s.unicode_len();
    if len == 0 {
        return None;
    }
    let mut acc: u64 = 0;
    let mut i: usize = 0;
    while i < len
        invariant
            0 <= i <= len,
            len == s@.len(),
            all_digits(s@.take(i as int)),
            acc == digits_val(s@.take(i as int)),
        decreases len - i,
    {
        let c = s.get_char(i);
        let cv = c as u32;
        if cv < 48 || cv > 57 {
            proof {
                assert(!is_digit(s@[i as int]));
            }
            return None;
        }
        let d = (cv - 48) as u64;
        proof {
            lemma_digits_val_step(s@, i as int);
            assert(all_digits(s@.take(i as int + 1))) by {
                assert(forall|j: int|
                    0 <= j < i as int + 1 ==> #[trigger] s@.take(i as int + 1)[j] == s@[j]);
                assert(forall|j: int|
                    0 <= j < i as int ==> #[trigger] s@.take(i as int)[j] == s@[j]);
            }
        }
        if acc > (u64::MAX - d) / 10 {
            proof {
                assert(digits_val(s@.take(i as int + 1)) > u64::MAX) by (nonlinear_arith)
                    requires
                        digits_val(s@.take(i as int + 1)) == acc * 10 + d,
                        acc > ((u64::MAX - d) / 10) as int,
                        0 <= d <= 9,
                        u64::MAX == 0xffffffffffffffffu64,
                ;
                if all_digits(s@) {
                    lemma_digits_val_grows(s@, i as int + 1);
                }
            }
            return None;
        }
        proof {
            assert(acc * 10 + d <= u64::MAX) by (nonlinear_arith)
                requires
                    acc <= ((u64::MAX - d) / 10) as int,
                    0 <= d <= 9,
                    0 <= acc,
                    u64::MAX == 0xffffffffffffffffu64,
            ;
        }
        acc = acc * 10 + d;
        i = i + 1;
    }
    proof {
        assert(s@.take(len as int) =~= s@);
    }
    Some(acc)
}

/// A longer all-digit prefix never denotes a smaller number.
pub proof fn lemma_digits_val_grows(s: Seq<char>, i: int)
    requires
        all_digits(s),
        0 <= i <= s.len(),
    ensures
        digits_val(s) >= digits_val(s.take(i)),
    decreases s.len() - i,
{
    assert(all_digits(s.take(i))) by {
        assert(forall|j: int| 0 <= j < i ==> #[trigger] s.take(i)[j] == s[j]);
    }
    if i == s.len() {
        assert(s.take(i) =~= s);
    } else {
        lemma_digits_val_step(s, i);
        lemma_digits_val_nonneg(s.take(i));
        assert(digits_val(s.take(i + 1)) >= digits_val(s.take(i))) by (nonlinear_arith)
            requires
                digits_val(s.take(i + 1)) == digits_val(s.take(i)) * 10 + digit_val(s[i]),
                digits_val(s.take(i)) >= 0,
                digit_val(s[i]) >= 0,
        ;
        lemma_digits_val_grows(s, i + 1);
    }
}

} // verus!
