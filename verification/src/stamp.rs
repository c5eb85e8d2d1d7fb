//! The staleness detector's persisted timestamp: a decimal integer, written
//! to and read back from the project's `time.stamp` file.
//!
//! The on-disk format is the usual signed decimal notation: an optional `+`
//! or `-` sign followed by one or more digits, with the whole value fitting
//! in an `i64`.  Reading a malformed file is a hard failure, surfaced as
//! [`crate::Error::MalformedTimestamp`].

use vstd::prelude::*;
use crate::Error;

verus! {

/// An ASCII decimal digit.
pub open spec fn is_digit(b: u8) -> bool {
    ('0' as u8) <= b <= ('9' as u8)
}

/// Every byte of `s` is an ASCII decimal digit.
pub open spec fn all_digits(s: Seq<u8>) -> bool {
    forall|i: int| 0 <= i < s.len() ==> is_digit(#[trigger] s[i])
}

/// The value of a sequence of ASCII decimal digits, most significant first.
pub open spec fn digits_value(s: Seq<u8>) -> int
    decreases s.len(),
{
    if s.len() == 0 {
        0
    } else {
        digits_value(s.drop_last()) * 10 + (s.last() - ('0' as u8))
    }
}

/// The digits of `s`: everything after an optional leading sign.
pub open spec fn timestamp_body(s: Seq<u8>) -> Seq<u8> {
    if s.len() > 0 && (s[0] == ('+' as u8) || s[0] == ('-' as u8)) {
        s.drop_first()
    } else {
        s
    }
}

/// The sign that a leading `-` gives, `1` otherwise.
pub open spec fn timestamp_sign(s: Seq<u8>) -> int {
    if s.len() > 0 && s[0] == ('-' as u8) {
        -1
    } else {
        1
    }
}

/// The integer that `s` denotes, assuming `is_timestamp(s)`.
pub open spec fn timestamp_value(s: Seq<u8>) -> int {
    timestamp_sign(s) * digits_value(timestamp_body(s))
}

/// `s` is a well-formed timestamp file: an optional sign, at least one
/// digit, nothing else, and a value that fits in an `i64`.
pub open spec fn is_timestamp(s: Seq<u8>) -> bool {
    &&& timestamp_body(s).len() > 0
    &&& all_digits(timestamp_body(s))
    &&& i64::MIN <= timestamp_value(s) <= i64::MAX
}

/// The decimal digits of `n`, most significant first, as ASCII bytes.
pub open spec fn decimal_digits(n: nat) -> Seq<u8>
    decreases n,
{
    if n < 10 {
        seq![(('0' as u8) + n) as u8]
    } else {
        decimal_digits(n / 10) + seq![(('0' as u8) + n % 10) as u8]
    }
}

/// The canonical decimal rendering of `t`: a `-` sign when negative, then
/// the digits of its magnitude.
pub open spec fn decimal_of(t: int) -> Seq<u8> {
    if t < 0 {
        seq![('-' as u8)] + decimal_digits((-t) as nat)
    } else {
        decimal_digits(t as nat)
    }
}

/// Appending a digit multiplies the value by ten and adds the digit.
proof fn lemma_digits_value_snoc(s: Seq<u8>, d: u8)
    ensures
        digits_value(s + seq![d]) == digits_value(s) * 10 + (d - ('0' as u8)),
{
    assert((s + seq![d]).drop_last() =~= s);
    assert((s + seq![d]).last() == d);
}

/// The value of a digit string never shrinks as more digits follow.
proof fn lemma_digits_value_prefix_le(s: Seq<u8>, k: int)
    requires
        all_digits(s),
        0 <= k <= s.len(),
    ensures
        digits_value(s.take(k)) <= digits_value(s),
        digits_value(s) >= 0,
    decreases s.len(),
{
    if s.len() == 0 {
        assert(s.take(k) =~= s);
    } else {
        assert(all_digits(s.drop_last()));
        lemma_digits_value_prefix_le(s.drop_last(), if k <= s.len() - 1 { k } else { s.len() - 1 });
        if k == s.len() {
            assert(s.take(k) =~= s);
        } else {
            assert(s.take(k) =~= s.drop_last().take(k));
        }
        assert(digits_value(s) == digits_value(s.drop_last()) * 10 + (s.last() - ('0' as u8)));
        assert(is_digit(s[s.len() - 1]));
    }
}

/// The digits of `n` are digits, denote `n`, and start with a digit.
proof fn lemma_decimal_digits_value(n: nat)
    ensures
        all_digits(decimal_digits(n)),
        digits_value(decimal_digits(n)) == n,
        decimal_digits(n).len() > 0,
        is_digit(decimal_digits(n)[0]),
    decreases n,
{
    if n < 10 {
        assert(decimal_digits(n) =~= seq![(('0' as u8) + n) as u8]);
        assert(decimal_digits(n).drop_last() =~= Seq::<u8>::empty());
        assert(digits_value(Seq::<u8>::empty()) == 0);
        assert(decimal_digits(n).last() == (('0' as u8) + n) as u8);
        assert(digits_value(decimal_digits(n)) == n);
    } else {
        lemma_decimal_digits_value(n / 10);
        lemma_digits_value_snoc(decimal_digits(n / 10), (('0' as u8) + n % 10) as u8);
        assert(digits_value(decimal_digits(n)) == (n / 10) * 10 + n % 10);
        assert((n / 10) * 10 + n % 10 == n) by (nonlinear_arith);
        assert(decimal_digits(n)[0] == decimal_digits(n / 10)[0]);
        assert(forall|i: int| 0 <= i < decimal_digits(n).len() ==> is_digit(
            #[trigger] decimal_digits(n)[i],
        ));
    }
}

/// Writing a timestamp and reading it back yields the same value: the
/// rendering of any `i64` is a well-formed timestamp file denoting it.
pub proof fn lemma_timestamp_round_trip(t: i64)
    ensures
        is_timestamp(decimal_of(t as int)),
        timestamp_value(decimal_of(t as int)) == t,
{
    if t < 0 {
        lemma_decimal_digits_value((-(t as int)) as nat);
        let s = decimal_of(t as int);
        assert(s[0] == ('-' as u8));
        assert(timestamp_body(s) =~= decimal_digits((-(t as int)) as nat));
    } else {
        lemma_decimal_digits_value(t as nat);
        let s = decimal_of(t as int);
        assert(is_digit(s[0]));
        assert(timestamp_body(s) =~= s);
    }
}

/// Reads the persisted timestamp: the content of `time.stamp` as bytes.
///
/// Returns the denoted value exactly when the content is an optional sign
/// followed by digits and the value fits in an `i64`; otherwise the content
/// is handed back inside [`Error::MalformedTimestamp`], so the caller can
/// surface the corruption after deleting the file.
pub fn parse_timestamp(s: &Vec<u8>) -> (r: Result<i64, Error>)
    ensures
        match r {
            Ok(t) => is_timestamp(s@) && t == timestamp_value(s@),
            Err(e) => !is_timestamp(s@) && (e matches Error::MalformedTimestamp(c) && c@ == s@),
        },
{
    let len = s.len();
    let mut i: usize = 0;
    let mut neg = false;
    if len > 0 && (s[0] == ('+' as u8) || s[0] == ('-' as u8)) {
        neg = s[0] == ('-' as u8);
        i = 1;
    }
    let ghost start = i as int;
    let ghost body = timestamp_body(s@);
    proof {
        assert(body =~= s@.skip(start));
        assert(neg <==> timestamp_sign(s@) == -1);
    }
    if i == len {
        // No digits at all.
        proof {
            assert(body.len() == 0);
        }
        return Err(Error::MalformedTimestamp(vstd::slice::slice_to_vec(s.as_slice())));
    }
    let bound: u128 = 9223372036854775808;
    let mut mag: u128 = 0;
    while i < len
        invariant
            0 <= start <= i <= len,
            len == s@.len(),
            body == s@.skip(start),
            body == timestamp_body(s@),
            neg <==> timestamp_sign(s@) == -1,
            body.len() == len - start,
            mag == digits_value(body.take(i - start)),
            mag <= bound,
            bound == i64::MAX as u128 + 1,
            all_digits(body.take(i - start)),
        decreases len - i,
    {
        let b = s[i];
        if b < ('0' as u8) || b > ('9' as u8) {
            proof {
                assert(body[i - start] == s@[i as int]);
                assert(!is_digit(body[i - start]));
            }
            return Err(Error::MalformedTimestamp(vstd::slice::slice_to_vec(s.as_slice())));
        }
        proof {
            assert(body.take(i - start + 1) =~= body.take(i - start) + seq![s@[i as int]]);
            lemma_digits_value_snoc(body.take(i - start), s@[i as int]);
        }
        mag = mag * 10 + ((b - ('0' as u8)) as u128);
        i += 1;
        if mag > bound {
            proof {
                // Even if the remaining bytes are all digits, the value can
                // only grow, so it cannot fit in an i64.
                if is_timestamp(s@) {
                    lemma_digits_value_prefix_le(body, i - start);
                    assert(digits_value(body) >= mag > bound);
                    if timestamp_sign(s@) == -1 {
                        assert(timestamp_value(s@) == -1 * digits_value(body));
                        assert(timestamp_value(s@) < i64::MIN);
                    } else {
                        assert(timestamp_value(s@) == 1 * digits_value(body));
                        assert(timestamp_value(s@) > i64::MAX);
                    }
                }
            }
            return Err(Error::MalformedTimestamp(vstd::slice::slice_to_vec(s.as_slice())));
        }
    }
    proof {
        assert(body.take(len - start) =~= body);
        assert(mag == digits_value(body));
        assert(all_digits(body));
        assert(body.len() > 0);
    }
    if neg {
        proof {
            assert(timestamp_value(s@) == -1 * digits_value(body));
        }
        if mag == bound {
            proof {
                assert(timestamp_value(s@) == i64::MIN);
            }
            Ok(i64::MIN)
        } else {
            Ok(-(mag as i64))
        }
    } else {
        proof {
            assert(timestamp_value(s@) == digits_value(body));
        }
        if mag == bound {
            return Err(Error::MalformedTimestamp(vstd::slice::slice_to_vec(s.as_slice())));
        }
        Ok(mag as i64)
    }
}

/// Renders `t` for the `time.stamp` file: its decimal notation as bytes.
pub fn render_timestamp(t: i64) -> (r: Vec<u8>)
    ensures
        r@ == decimal_of(t as int),
        is_timestamp(r@),
        timestamp_value(r@) == t,
{
    let neg = t < 0;
    let mut m: u128 = if t < 0 {
        (-(t as i128)) as u128
    } else {
        t as u128
    };
    let ghost m0 = m as nat;
    let mut rev: Vec<u8> = Vec::new();
    loop
        invariant_except_break
            m == 0 ==> (rev@.len() == 0 && m0 == 0),
        invariant
            m <= m0 <= u64::MAX as nat + 1,
            m > 0 ==> decimal_digits(m0) =~= decimal_digits(m as nat) + rev@.reverse(),
        ensures
            decimal_digits(m0) =~= rev@.reverse(),
        decreases m,
    {
        let d: u8 = ('0' as u8) + ((m % 10) as u8);
        let ghost prev = m as nat;
        let ghost prev_rev = rev@;
        rev.push(d);
        m = m / 10;
        proof {
            assert(rev@.reverse() =~= seq![d] + prev_rev.reverse());
            if prev >= 10 {
                assert(decimal_digits(prev) == decimal_digits(prev / 10) + seq![d]);
                assert(decimal_digits(prev) + prev_rev.reverse() =~= decimal_digits(prev / 10)
                    + rev@.reverse());
                assert(decimal_digits(m0) =~= decimal_digits(m as nat) + rev@.reverse());
            } else {
                assert(decimal_digits(prev) =~= seq![d]);
                if prev == 0 {
                    // Only reachable when the whole value is zero.
                    assert(m0 == 0);
                    assert(rev@ =~= seq![d]);
                    assert(decimal_digits(m0) =~= rev@.reverse());
                } else {
                    assert(decimal_digits(m0) =~= decimal_digits(prev) + prev_rev.reverse());
                    assert(decimal_digits(m0) =~= rev@.reverse());
                }
            }
        }
        if m == 0 {
            break;
        }
    }
    let mut out: Vec<u8> = Vec::new();
    if neg {
        out.push('-' as u8);
    }
    let ghost sign: Seq<u8> = if neg {
        seq![('-' as u8)]
    } else {
        Seq::empty()
    };
    let n = rev.len();
    let mut j: usize = 0;
    while j < n
        invariant
            0 <= j <= n,
            n == rev@.len(),
            out@ =~= sign + rev@.reverse().take(j as int),
        decreases n - j,
    {
        let ghost before = out@;
        out.push(rev[n - 1 - j]);
        proof {
            assert(rev@.reverse()[j as int] == rev@[n - 1 - j]);
            assert(rev@.reverse().take(j + 1) =~= rev@.reverse().take(j as int) + seq![
                rev@.reverse()[j as int],
            ]);
        }
        j += 1;
    }
    proof {
        assert(rev@.reverse().take(n as int) =~= rev@.reverse());
        assert(out@ =~= sign + rev@.reverse());
        if neg {
            assert(m0 == (-(t as int)) as nat);
            assert(out@ =~= decimal_of(t as int));
        } else {
            assert(m0 == t as nat);
            assert(out@ =~= decimal_of(t as int));
        }
        lemma_timestamp_round_trip(t);
    }
    out
}

} // verus!
