use vstd::prelude::*;

verus! {

/// ASCII white space: space, tab, line feed, vertical tab, form feed and
/// carriage return.
pub open spec fn is_space(b: u8) -> bool {
    b == 32 || (9 <= b && b <= 13)
}

pub open spec fn is_digit(b: u8) -> bool {
    48 <= b && b <= 57
}

/// The first position at or after `i` that holds no white space, or the end.
pub open spec fn skip_spaces(s: Seq<u8>, i: int) -> int
    decreases s.len() - i,
{
    if 0 <= i < s.len() && is_space(s[i]) {
        skip_spaces(s, i + 1)
    } else {
        i
    }
}

/// The first position at or after `i` that holds white space, or the end.
pub open spec fn skip_word(s: Seq<u8>, i: int) -> int
    decreases s.len() - i,
{
    if 0 <= i < s.len() && !is_space(s[i]) {
        skip_word(s, i + 1)
    } else {
        i
    }
}

/// The last position at or before `j`, and after `lo`, that follows no white
/// space.
pub open spec fn back_spaces(s: Seq<u8>, lo: int, j: int) -> int
    decreases j - lo,
{
    if lo < j && j <= s.len() && is_space(s[j - 1]) {
        back_spaces(s, lo, j - 1)
    } else {
        j
    }
}

/// `s` without leading and trailing white space.
pub open spec fn trimmed(s: Seq<u8>) -> Seq<u8> {
    let a = skip_spaces(s, 0);
    s.subrange(a, back_spaces(s, a, s.len() as int))
}

/// The number that the decimal digits `d` spell.
pub open spec fn digits_value(d: Seq<u8>) -> int
    decreases d.len(),
{
    if d.len() == 0 {
        0
    } else {
        digits_value(d.drop_last()) * 10 + (d.last() - 48)
    }
}

/// `d` is one or more decimal digits.
pub open spec fn is_numeral(d: Seq<u8>) -> bool {
    d.len() > 0 && forall|i: int| 0 <= i < d.len() ==> is_digit(d[i])
}

/// An unsigned decimal with an optional leading `+`.
pub open spec fn unsigned_value(t: Seq<u8>) -> Option<int> {
    let d = if t.len() > 0 && t[0] == 43 { t.drop_first() } else { t };
    if is_numeral(d) {
        Some(digits_value(d))
    } else {
        None
    }
}

/// A decimal with an optional leading `+` or `-`.
pub open spec fn signed_value(t: Seq<u8>) -> Option<int> {
    if t.len() > 0 && t[0] == 45 {
        if is_numeral(t.drop_first()) {
            Some(-digits_value(t.drop_first()))
        } else {
            None
        }
    } else {
        unsigned_value(t)
    }
}

/// `t` read as a `u64`: an unsigned decimal in range.
pub open spec fn u64_of(t: Seq<u8>) -> Option<u64> {
    match unsigned_value(t) {
        Some(v) => if v <= u64::MAX { Some(v as u64) } else { None },
        None => None,
    }
}

/// `t` read as an `i32`: a signed decimal in range.
pub open spec fn i32_of(t: Seq<u8>) -> Option<i32> {
    match signed_value(t) {
        Some(v) => if i32::MIN <= v <= i32::MAX { Some(v as i32) } else { None },
        None => None,
    }
}

proof fn lemma_digits_value_nonneg(d: Seq<u8>)
    requires
        forall|i: int| 0 <= i < d.len() ==> is_digit(d[i]),
    ensures
        digits_value(d) >= 0,
    decreases d.len(),
{
    if d.len() > 0 {
        lemma_digits_value_nonneg(d.drop_last());
    }
}

/// A numeral is worth at least any of its prefixes.
proof fn lemma_digits_value_prefix(d: Seq<u8>, k: int)
    requires
        0 <= k <= d.len(),
        forall|i: int| 0 <= i < d.len() ==> is_digit(d[i]),
    ensures
        digits_value(d.subrange(0, k)) <= digits_value(d),
    decreases d.len(),
{
    if k < d.len() {
        let p = d.drop_last();
        lemma_digits_value_prefix(p, k);
        assert(p.subrange(0, k) == d.subrange(0, k));
        lemma_digits_value_nonneg(p);
    } else {
        assert(d.subrange(0, k) == d);
    }
}

/// The first position at or after `i` that holds no white space.
pub fn next_non_space(s: &[u8], i: usize) -> (r: usize)
    requires
        i <= s@.len(),
    ensures
        r == skip_spaces(s@, i as int),
        i <= r <= s@.len(),
{
    let mut j = i;
    while j < s.len() && (s[j] == 32 || (9 <= s[j] && s[j] <= 13))
        invariant
            i <= j <= s@.len(),
            skip_spaces(s@, j as int) == skip_spaces(s@, i as int),
        decreases s@.len() - j,
    {
        j = j + 1;
    }
    j
}

/// The first position at or after `i` that holds white space.
pub fn next_space(s: &[u8], i: usize) -> (r: usize)
    requires
        i <= s@.len(),
    ensures
        r == skip_word(s@, i as int),
        i <= r <= s@.len(),
{
    let mut j = i;
    while j < s.len() && !(s[j] == 32 || (9 <= s[j] && s[j] <= 13))
        invariant
            i <= j <= s@.len(),
            skip_word(s@, j as int) == skip_word(s@, i as int),
        decreases s@.len() - j,
    {
        j = j + 1;
    }
    j
}

/// The bounds of `s` without its leading and trailing white space.
pub fn trim_bounds(s: &[u8]) -> (r: (usize, usize))
    ensures
        r.0 <= r.1 <= s@.len(),
        s@.subrange(r.0 as int, r.1 as int) == trimmed(s@),
{
    let a = next_non_space(s, 0);
    let mut b = s.len();
    while b > a && (s[b - 1] == 32 || (9 <= s[b - 1] && s[b - 1] <= 13))
        invariant
            a <= b <= s@.len(),
            a == skip_spaces(s@, 0),
            back_spaces(s@, a as int, b as int) == back_spaces(s@, a as int, s@.len() as int),
        decreases b,
    {
        b = b - 1;
    }
    (a, b)
}

/// The value of the digits `s[lo..hi]` where they form a numeral worth at
/// most `limit`.
pub fn numeral_up_to(s: &[u8], lo: usize, hi: usize, limit: u64) -> (r: Option<u64>)
    requires
        lo <= hi <= s@.len(),
    ensures
        r == (if is_numeral(s@.subrange(lo as int, hi as int)) && digits_value(
            s@.subrange(lo as int, hi as int),
        ) <= limit {
            Some(digits_value(s@.subrange(lo as int, hi as int)) as u64)
        } else {
            None::<u64>
        }),
        r.is_some() ==> r.unwrap() <= limit,
{
    let ghost d = s@.subrange(lo as int, hi as int);
    if lo == hi {
        return None;
    }
    let mut v: u64 = 0;
    let mut k = lo;
    while k < hi
        invariant
            lo <= k <= hi,
            hi <= s@.len(),
            d == s@.subrange(lo as int, hi as int),
            forall|i: int| 0 <= i < k - lo ==> is_digit(d[i]),
            v == digits_value(d.subrange(0, k - lo)),
            v <= limit,
        decreases hi - k,
    {
        let c = s[k];
        if !(48 <= c && c <= 57) {
            assert(d[k - lo] == c);
            return None;
        }
        let next: u128 = (v as u128) * 10 + ((c - 48) as u128);
        let ghost p = d.subrange(0, k + 1 - lo);
        assert(p.drop_last() == d.subrange(0, k - lo));
        assert(p.last() == c);
        if next > limit as u128 {
            proof {
                if is_numeral(d) {
                    lemma_digits_value_prefix(d, k + 1 - lo);
                }
            }
            return None;
        }
        v = next as u64;
        k = k + 1;
    }
    assert(d.subrange(0, hi - lo) == d);
    proof {
        lemma_digits_value_nonneg(d);
    }
    Some(v)
}

/// `s[lo..hi]` read as a `u64`: digits with an optional leading `+`.
pub fn parse_u64(s: &[u8], lo: usize, hi: usize) -> (r: Option<u64>)
    requires
        lo <= hi <= s@.len(),
    ensures
        r == u64_of(s@.subrange(lo as int, hi as int)),
{
    let ghost t = s@.subrange(lo as int, hi as int);
    if lo < hi && s[lo] == 43 {
        assert(t.drop_first() == s@.subrange(lo + 1, hi as int));
        numeral_up_to(s, lo + 1, hi, u64::MAX)
    } else {
        numeral_up_to(s, lo, hi, u64::MAX)
    }
}

/// `s[lo..hi]` read as an `i32`: digits with an optional leading `+` or `-`.
pub fn parse_i32(s: &[u8], lo: usize, hi: usize) -> (r: Option<i32>)
    requires
        lo <= hi <= s@.len(),
    ensures
        r == i32_of(s@.subrange(lo as int, hi as int)),
{
    let ghost t = s@.subrange(lo as int, hi as int);
    if lo < hi && s[lo] == 45 {
        assert(t.drop_first() == s@.subrange(lo + 1, hi as int));
        proof {
            if is_numeral(t.drop_first()) {
                lemma_digits_value_nonneg(t.drop_first());
            }
        }
        match numeral_up_to(s, lo + 1, hi, 2147483648) {
            Some(m) => {
                let v: i64 = 0 - (m as i64);
                Some(v as i32)
            },
            None => None,
        }
    } else {
        let ghost u = if t.len() > 0 && t[0] == 43 { t.drop_first() } else { t };
        let start: usize = if lo < hi && s[lo] == 43 { lo + 1 } else { lo };
        assert(u == s@.subrange(start as int, hi as int));
        proof {
            if is_numeral(u) {
                lemma_digits_value_nonneg(u);
            }
        }
        match numeral_up_to(s, start, hi, 2147483647) {
            Some(m) => Some(m as i32),
            None => None,
        }
    }
}

} // verus!
