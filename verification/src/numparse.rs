//! Decimal parsing for record identifiers. A mint event carries the dataset
//! identifier as a string; reconciliation accepts it only when it denotes an
//! `i64`.

use vstd::prelude::*;

verus! {

/// A decimal digit.
pub open spec fn is_digit_char(c: char) -> bool {
    '0' <= c && c <= '9'
}

/// Every character of `s` is a decimal digit.
pub open spec fn digits_only(s: Seq<char>) -> bool {
    forall|i: int| 0 <= i < s.len() ==> is_digit_char(#[trigger] s[i])
}

/// The numeric value of one digit.
pub open spec fn digit_val(c: char) -> int {
    c as int - '0' as int
}

/// The value of a digit string read in base ten.
pub open spec fn digits_val(s: Seq<char>) -> int
    decreases s.len(),
{
    if s.len() == 0 {
        0
    } else {
        digits_val(s.drop_last()) * 10 + digit_val(s.last())
    }
}

/// The `i64` a string denotes: an optional plus or minus sign, then one or
/// more decimal digits, valued within the `i64` range. Anything else is
/// `None`.
pub open spec fn parse_i64_view(s: Seq<char>) -> Option<i64> {
    if s.len() == 0 {
        None
    } else if s[0] == '-' {
        let ds = s.subrange(1, s.len() as int);
        if ds.len() > 0 && digits_only(ds) && digits_val(ds) <= 0x8000000000000000 {
            Some((-digits_val(ds)) as i64)
        } else {
            None
        }
    } else {
        let ds = if s[0] == '+' {
            s.subrange(1, s.len() as int)
        } else {
            s
        };
        if ds.len() > 0 && digits_only(ds) && digits_val(ds) <= i64::MAX {
            Some(digits_val(ds) as i64)
        } else {
            None
        }
    }
}

proof fn lemma_digits_val_nonneg(s: Seq<char>)
    requires
        digits_only(s),
    ensures
        digits_val(s) >= 0,
    decreases s.len(),
{
    if s.len() > 0 {
        assert(digits_only(s.drop_last()));
        lemma_digits_val_nonneg(s.drop_last());
    }
}

/// A digit string is worth at least as much as any of its prefixes.
proof fn lemma_digits_val_prefix(s: Seq<char>, i: int)
    requires
        digits_only(s),
        0 <= i <= s.len(),
    ensures
        digits_val(s.subrange(0, i)) <= digits_val(s),
    decreases s.len() - i,
{
    if i == s.len() {
        assert(s.subrange(0, i) =~= s);
    } else {
        let shorter = s.drop_last();
        assert(digits_only(shorter));
        assert(s.subrange(0, i) =~= shorter.subrange(0, i));
        lemma_digits_val_prefix(shorter, i);
        lemma_digits_val_nonneg(shorter);
    }
}

/// Parses an `i64` written in decimal: an optional plus or minus sign,
/// then one or more digits. Rejects the empty string, any other character,
/// and any value outside the `i64` range.
pub fn parse_i64(s: &str) -> (r: Option<i64>)
    ensures
        r == parse_i64_view(s@),
{
    let n = s.unicode_len();
    if n == 0 {
        return None;
    }
    let head = s.get_char(0);
    let neg = head == '-';
    let start: usize = if neg || head == '+' {
        1
    } else {
        0
    };
    if n == start {
        return None;
    }
    let ghost whole = s@.subrange(start as int, n as int);
    proof {
        if start == 0 {
            assert(whole =~= s@);
        }
    }
    let mut acc: u64 = 0;
    let mut i = start;
    while i < n
        invariant
            start <= i <= n,
            start <= 1,
            n == s@.len(),
            neg == (s@[0] == '-'),
            neg ==> start == 1,
            !neg && start == 1 ==> s@[0] == '+',
            start == 0 ==> s@[0] != '-' && s@[0] != '+',
            start < n,
            whole == s@.subrange(start as int, n as int),
            digits_only(s@.subrange(start as int, i as int)),
            acc == digits_val(s@.subrange(start as int, i as int)),
        decreases n - i,
    {
        let c = s.get_char(i);
        if c < '0' || c > '9' {
            proof {
                assert(!is_digit_char(s@[i as int]));
                assert(whole[i - start] == s@[i as int]);
                assert(!digits_only(whole));
                if neg {
                    assert(s@[0] == '-');
                    assert(whole == s@.subrange(1, s@.len() as int));
                } else if start == 1 {
                    assert(s@[0] == '+');
                    assert(whole == s@.subrange(1, s@.len() as int));
                } else {
                    assert(whole == s@);
                }
                assert(parse_i64_view(s@) is None);
            }
            return None;
        }
        let d: u64 = (c as u32 - 48) as u64;
        let ghost prefix = s@.subrange(start as int, i as int);
        proof {
            assert(s@.subrange(start as int, i + 1) =~= prefix.push(s@[i as int]));
            assert(prefix.push(s@[i as int]).drop_last() =~= prefix);
        }
        let next = match acc.checked_mul(10) {
            Some(m) => m.checked_add(d),
            None => None,
        };
        match next {
            Some(v) => {
                acc = v;
            },
            None => {
                // The digits seen so far already exceed `u64::MAX`, so if the
                // rest of the string is digits too, its value exceeds
                // `i64::MAX` as well.
                proof {
                    let grown = s@.subrange(start as int, i + 1);
                    assert(digits_val(grown) > u64::MAX) by {
                        lemma_digits_val_nonneg(prefix);
                    }
                    if digits_only(whole) {
                        assert(grown =~= whole.subrange(0, i + 1 - start));
                        lemma_digits_val_prefix(whole, i + 1 - start);
                        assert(digits_val(whole) > u64::MAX);
                    }
                    if neg {
                        assert(s@[0] == '-');
                        assert(whole == s@.subrange(1, s@.len() as int));
                    } else if start == 1 {
                        assert(s@[0] == '+');
                        assert(whole == s@.subrange(1, s@.len() as int));
                    } else {
                        assert(whole == s@);
                    }
                    assert(parse_i64_view(s@) is None);
                }
                return None;
            },
        }
        i = i + 1;
    }
    proof {
        assert(s@.subrange(start as int, i as int) =~= whole);
    }
    if neg {
        if acc > 0x8000000000000000u64 {
            return None;
        }
        if acc == 0x8000000000000000u64 {
            Some(i64::MIN)
        } else {
            Some(-(acc as i64))
        }
    } else {
        if acc > 0x7fffffffffffffffu64 {
            return None;
        }
        Some(acc as i64)
    }
}

} // verus!
