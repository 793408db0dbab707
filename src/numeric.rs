use vstd::prelude::*;

verus! {

/// An ASCII decimal digit.
pub open spec fn is_digit(c: char) -> bool {
    '0' <= c && c <= '9'
}

pub open spec fn all_digits(s: Seq<char>) -> bool {
    forall|i: int| 0 <= i < s.len() ==> is_digit(#[trigger] s[i])
}

/// The value of a string of decimal digits, most significant first.
pub open spec fn digits_value(s: Seq<char>) -> nat
    decreases s.len(),
{
    if s.len() == 0 {
        0
    } else {
        digits_value(s.drop_last()) * 10 + ((s.last() as int - '0' as int) as nat)
    }
}

/// The integer that `s` denotes in the canonical decimal grammar of integers:
/// an optional `+` or `-` sign followed by at least one digit.
pub open spec fn decimal_int(s: Seq<char>) -> Option<int> {
    if s.len() > 1 && s[0] == '-' && all_digits(s.drop_first()) {
        Some(-(digits_value(s.drop_first()) as int))
    } else if s.len() > 1 && s[0] == '+' && all_digits(s.drop_first()) {
        Some(digits_value(s.drop_first()) as int)
    } else if s.len() > 0 && all_digits(s) {
        Some(digits_value(s) as int)
    } else {
        None
    }
}

/// `s` denotes an integer in the closed range `[lo, hi]`, and `v` is that integer.
pub open spec fn parses_in_range(s: Seq<char>, lo: int, hi: int, v: int) -> bool {
    decimal_int(s) == Some(v) && lo <= v <= hi
}

proof fn lemma_digits_value_grows(s: Seq<char>, k: int)
    requires
        0 <= k <= s.len(),
        all_digits(s),
    ensures
        digits_value(s.subrange(0, k)) <= digits_value(s),
    decreases s.len() - k,
{
    if k < s.len() {
        lemma_digits_value_grows(s, k + 1);
        let p = s.subrange(0, k + 1);
        assert(p.drop_last() =~= s.subrange(0, k));
        assert(is_digit(s[k]));
    } else {
        assert(s.subrange(0, k) =~= s);
    }
}

/// Reads the digits of `s` from position `start` on, giving up once the value
/// passes `cap`.
fn digits_upto(s: &str, start: usize, cap: u64) -> (r: Option<u64>)
    requires
        start <= s@.len(),
    ensures
        r is Some <==> (all_digits(s@.subrange(start as int, s@.len() as int))
            && digits_value(s@.subrange(start as int, s@.len() as int)) <= cap),
        r matches Some(v) ==> v == digits_value(s@.subrange(start as int, s@.len() as int)),
{
    let n = s.unicode_len();
    let mut i: usize = start;
    let mut acc: u64 = 0;
    while i < n
        invariant
            start <= i <= n,
            n == s@.len(),
            all_digits(s@.subrange(start as int, i as int)),
            acc == digits_value(s@.subrange(start as int, i as int)),
            acc <= cap,
        decreases n - i,
    {
        let c = s.get_char(i);
        let ghost prev = s@.subrange(start as int, i as int);
        let ghost next = s@.subrange(start as int, i + 1);
        assert(next.drop_last() =~= prev);
        if c < '0' || c > '9' {
            proof {
                let whole = s@.subrange(start as int, n as int);
                assert(whole[i - start] == c);
            }
            return None;
        }
        let d: u64 = (c as u32 - '0' as u32) as u64;
        let nv: u128 = acc as u128 * 10 + d as u128;
        assert(all_digits(next)) by {
            assert forall|j: int| 0 <= j < next.len() implies is_digit(#[trigger] next[j]) by {
                if j < prev.len() {
                    assert(next[j] == prev[j]);
                }
            }
        }
        if nv > cap as u128 {
            proof {
                let whole = s@.subrange(start as int, n as int);
                if all_digits(whole) {
                    lemma_digits_value_grows(whole, i + 1 - start);
                    assert(whole.subrange(0, i + 1 - start) =~= next);
                }
            }
            return None;
        }
        acc = nv as u64;
        i = i + 1;
    }
    assert(s@.subrange(start as int, n as int) =~= s@.subrange(start as int, i as int));
    Some(acc)
}

/// Parses `s` as a decimal integer in `[lo, hi]`.
fn parse_in_range(s: &str, lo: i64, hi: i64) -> (r: Option<i64>)
    requires
        lo <= 0 <= hi,
    ensures
        r is Some <==> exists|v: int| parses_in_range(s@, lo as int, hi as int, v),
        r matches Some(v) ==> parses_in_range(s@, lo as int, hi as int, v as int),
{
    let n = s.unicode_len();
    if n == 0 {
        return None;
    }
    let c0 = s.get_char(0);
    let neg = c0 == '-';
    let start: usize = if c0 == '-' || c0 == '+' { 1 } else { 0 };
    if start == 1 && n == 1 {
        return None;
    }
    let cap: u64 = if neg { (-(lo as i128)) as u64 } else { hi as u64 };
    let mag = digits_upto(s, start, cap);
    let ghost rest = s@.subrange(start as int, n as int);
    proof {
        assert(s@.drop_first() =~= s@.subrange(1, n as int));
        assert(s@ =~= s@.subrange(0, n as int));
        if start == 0 && s@.len() > 0 && all_digits(s@) {
            assert(is_digit(s@[0]));
        }
    }
    match mag {
        None => {
            proof {
                assert forall|v: int| !parses_in_range(s@, lo as int, hi as int, v) by {
                    if start == 0 {
                        assert(rest =~= s@);
                        assert(cap as int == hi as int);
                        assert(s@[0] != '-' && s@[0] != '+');
                        if all_digits(s@) {
                            assert(is_digit(s@[0]));
                        }
                    } else {
                        assert(rest =~= s@.drop_first());
                        assert(!is_digit(s@[0]));
                        assert(!all_digits(s@));
                        if neg {
                            assert(cap as int == -(lo as int));
                        } else {
                            assert(cap as int == hi as int);
                        }
                    }
                }
                assert(!(exists|v: int| parses_in_range(s@, lo as int, hi as int, v)));
            }
            None
        },
        Some(m) => {
            proof {
                if start == 0 {
                    assert(rest =~= s@);
                    assert(s@[0] != '-' && s@[0] != '+');
                    assert(parses_in_range(s@, lo as int, hi as int, m as int));
                } else {
                    assert(rest =~= s@.drop_first());
                    if neg {
                        assert(parses_in_range(s@, lo as int, hi as int, -(m as int)));
                    } else {
                        assert(parses_in_range(s@, lo as int, hi as int, m as int));
                    }
                }
            }
            if neg {
                Some((-(m as i128)) as i64)
            } else {
                Some(m as i64)
            }
        },
    }
}

/// Parses `s` as a 32-bit signed integer in the canonical decimal grammar.
pub fn parse_i32(s: &str) -> (r: Option<i32>)
    ensures
        r is Some <==> exists|v: int| parses_in_range(s@, i32::MIN as int, i32::MAX as int, v),
        r matches Some(v) ==> parses_in_range(s@, i32::MIN as int, i32::MAX as int, v as int),
{
    match parse_in_range(s, i32::MIN as i64, i32::MAX as i64) {
        Some(v) => Some(v as i32),
        None => None,
    }
}

/// Parses `s` as a 64-bit signed integer in the canonical decimal grammar.
pub fn parse_i64(s: &str) -> (r: Option<i64>)
    ensures
        r is Some <==> exists|v: int| parses_in_range(s@, i64::MIN as int, i64::MAX as int, v),
        r matches Some(v) ==> parses_in_range(s@, i64::MIN as int, i64::MAX as int, v as int),
{
    parse_in_range(s, i64::MIN, i64::MAX)
}

} // verus!
