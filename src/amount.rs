//! Decimal amounts, held as a whole number of cents.
use vstd::prelude::*;
use crate::text::chars_of;

verus! {

pub open spec fn is_digit(c: char) -> bool {
    '0' <= c && c <= '9'
}

pub open spec fn digit_value(c: char) -> int {
    c as int - '0' as int
}

/// Value of a run of decimal digits, most significant first.
pub open spec fn digits_value(s: Seq<char>) -> int
    decreases s.len(),
{
    if s.len() == 0 {
        0
    } else {
        digits_value(s.drop_last()) * 10 + digit_value(s.last())
    }
}

/// `k` is the length of the run of digits that starts `b`.
pub open spec fn whole_end(b: Seq<char>, k: int) -> bool {
    &&& 0 <= k <= b.len()
    &&& forall|i: int| 0 <= i < k ==> is_digit(#[trigger] b[i])
    &&& (k == b.len() || !is_digit(b[k]))
}

/// Cents held by an unsigned decimal: digits, then optionally a point and at
/// most two digits, with at least one digit in all.
pub open spec fn unsigned_cents(b: Seq<char>) -> Option<int> {
    let k = choose|k: int| whole_end(b, k);
    let whole = b.take(k);
    let frac = b.skip(k + 1);
    if k == b.len() {
        if k >= 1 {
            Some(digits_value(whole) * 100)
        } else {
            None
        }
    } else if b[k] == '.' && (forall|i: int| 0 <= i < frac.len() ==> is_digit(#[trigger] frac[i]))
        && frac.len() <= 2 && k + frac.len() >= 1 {
        Some(digits_value(whole) * 100 + digits_value(frac) * (if frac.len() == 1 { 10int } else { 1int }))
    } else {
        None
    }
}

/// Cents held by a decimal with an optional leading `-` or `+`, when its
/// magnitude fits an `i64`.
pub open spec fn cents_value(s: Seq<char>) -> Option<int> {
    let signed = s.len() > 0 && (s[0] == '-' || s[0] == '+');
    let negative = s.len() > 0 && s[0] == '-';
    let body = if signed { s.drop_first() } else { s };
    match unsigned_cents(body) {
        Some(m) => if m <= i64::MAX {
            Some(if negative { -m } else { m })
        } else {
            None
        },
        None => None,
    }
}

proof fn lemma_whole_end_unique(b: Seq<char>, k1: int, k2: int)
    requires
        whole_end(b, k1),
        whole_end(b, k2),
    ensures
        k1 == k2,
{
    if k1 < k2 {
        assert(is_digit(b[k1]));
    } else if k2 < k1 {
        assert(is_digit(b[k2]));
    }
}

proof fn lemma_digits_value_nonneg(s: Seq<char>)
    requires
        forall|i: int| 0 <= i < s.len() ==> is_digit(#[trigger] s[i]),
    ensures
        digits_value(s) >= 0,
    decreases s.len(),
{
    if s.len() > 0 {
        lemma_digits_value_nonneg(s.drop_last());
    }
}

const WHOLE_CAP: u128 = 92233720368547758;

/// Cents of the unsigned decimal that follows position `start` of `cs`;
/// `None` when it is malformed or certainly beyond `i64::MAX`.
fn parse_unsigned(cs: &Vec<char>, start: usize) -> (r: Option<u128>)
    requires
        start <= cs@.len(),
    ensures
        r is Some ==> unsigned_cents(cs@.skip(start as int)) == Some(r->0 as int),
        r is None ==> (unsigned_cents(cs@.skip(start as int)) is None || unsigned_cents(
            cs@.skip(start as int),
        )->0 > i64::MAX),
{
    let ghost b = cs@.skip(start as int);
    let n = cs.len();
    let mut i: usize = start;
    let mut w: u128 = 0;
    while i < n && '0' <= cs[i] && cs[i] <= '9'
        invariant
            start <= i <= n,
            n == cs@.len(),
            b == cs@.skip(start as int),
            forall|j: int| 0 <= j < i - start ==> is_digit(#[trigger] b[j]),
            w <= WHOLE_CAP ==> w == digits_value(b.take(i - start)),
            w > WHOLE_CAP ==> digits_value(b.take(i - start)) > WHOLE_CAP,
            w <= WHOLE_CAP * 10 + 9,
        decreases n - i,
    {
        let d = (cs[i] as u32 - '0' as u32) as u128;
        proof {
            let t = b.take(i - start + 1);
            assert(t.drop_last() =~= b.take(i - start));
            assert(t.last() == cs@[i as int]);
            lemma_digits_value_nonneg(b.take(i - start));
        }
        if w <= WHOLE_CAP {
            w = w * 10 + d;
        }
        i = i + 1;
    }
    let k = i - start;
    proof {
        assert(whole_end(b, k as int));
        let kc = choose|kc: int| whole_end(b, kc);
        lemma_whole_end_unique(b, k as int, kc);
        lemma_digits_value_nonneg(b.take(k as int));
    }
    assert((choose|kc: int| whole_end(b, kc)) == k);
    if i == n {
        if k >= 1 && w <= WHOLE_CAP {
            return Some(w * 100);
        }
        return None;
    }
    if cs[i] != '.' {
        return None;
    }
    let rest = n - i - 1;
    if rest > 2 || k + rest == 0 {
        return None;
    }
    let mut f: u128 = 0;
    let mut j: usize = i + 1;
    let ghost fr = b.skip(k as int + 1);
    assert(fr.take(0) =~= Seq::<char>::empty());
    while j < n
        invariant
            i + 1 <= j <= n,
            n == cs@.len(),
            n - i - 1 <= 2,
            b == cs@.skip(start as int),
            fr == b.skip(k as int + 1),
            k == i - start,
            whole_end(b, k as int),
            (choose|kc: int| whole_end(b, kc)) == k,
            cs@[i as int] == '.',
            forall|m: int| 0 <= m < j - i - 1 ==> is_digit(#[trigger] fr[m]),
            fr.len() == n - i - 1,
            forall|m: int| 0 <= m < fr.len() ==> fr[m] == cs@[i + 1 + m],
            f == digits_value(fr.take(j - i - 1)),
            f <= 99,
            j - i - 1 <= 1 ==> f <= 9,
        decreases n - j,
    {
        if !('0' <= cs[j] && cs[j] <= '9') {
            assert(fr[j - i - 1] == cs@[j as int]);
            assert(!is_digit(fr[j - i - 1]));
            assert((choose|kc: int| whole_end(b, kc)) == k);
            return None;
        }
        let d = (cs[j] as u32 - '0' as u32) as u128;
        proof {
            let t = fr.take(j - i);
            assert(t.drop_last() =~= fr.take(j - i - 1));
            lemma_digits_value_nonneg(fr.take(j - i - 1));
            assert(j - i - 1 == 1 ==> fr.take(1).drop_last() =~= fr.take(0));
        }
        f = f * 10 + d;
        j = j + 1;
    }
    assert(fr.take(n - i - 1) =~= fr);
    if w > WHOLE_CAP {
        return None;
    }
    let scale: u128 = if rest == 1 { 10 } else { 1 };
    Some(w * 100 + f * scale)
}

/// Parses a decimal amount such as `-42.10` into cents.
pub fn parse_cents(s: &str) -> (r: Option<i64>)
    ensures
        r is Some <==> cents_value(s@) is Some,
        r is Some ==> r->0 == cents_value(s@)->0,
        r is Some ==> r->0 > i64::MIN,
{
    let cs = chars_of(s);
    let n = cs.len();
    assert(cs@ == s@);
    let signed = n > 0 && (cs[0] == '-' || cs[0] == '+');
    let start: usize = if signed { 1 } else { 0 };
    proof {
        if signed {
            assert(cs@.skip(1) =~= s@.drop_first());
        } else {
            assert(cs@.skip(0) =~= s@);
        }
    }
    match parse_unsigned(&cs, start) {
        Some(m) => {
            if m > i64::MAX as u128 {
                return None;
            }
            let v = m as i64;
            if signed && cs[0] == '-' {
                Some(-v)
            } else {
                Some(v)
            }
        },
        None => None,
    }
}

} // verus!
