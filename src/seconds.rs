//! Reading a number of seconds written in decimal.
use vstd::prelude::*;
use vstd::string::*;

verus! {

/// A decimal digit.
pub open spec fn is_digit(c: char) -> bool {
    '0' <= c && c <= '9'
}

/// The value of a digit character.
pub open spec fn digit_value(c: char) -> nat {
    ((c as u32) - ('0' as u32)) as nat
}

/// The number that a string of decimal digits denotes.
pub open spec fn digits_value(s: Seq<char>) -> nat
    decreases s.len(),
{
    if s.len() == 0 {
        0
    } else {
        digits_value(s.drop_last()) * 10 + digit_value(s.last())
    }
}

/// The digits of an unsigned number, once an optional leading `+` is set aside.
pub open spec fn unsigned_part(s: Seq<char>) -> Seq<char> {
    if s.len() > 0 && s[0] == '+' {
        s.drop_first()
    } else {
        s
    }
}

/// The text is a number of seconds that fits in 64 bits: an optional `+`,
/// then one or more decimal digits and nothing else.
pub open spec fn is_seconds(s: Seq<char>) -> bool {
    let d = unsigned_part(s);
    &&& d.len() > 0
    &&& forall|i: int| 0 <= i < d.len() ==> is_digit(#[trigger] d[i])
    &&& digits_value(d) <= u64::MAX
}

/// The number of seconds that the text denotes.
pub open spec fn seconds_value(s: Seq<char>) -> nat {
    digits_value(unsigned_part(s))
}

proof fn lemma_digits_grow(s: Seq<char>, i: int, j: int)
    requires
        0 <= i <= j <= s.len(),
        forall|k: int| 0 <= k < s.len() ==> is_digit(#[trigger] s[k]),
    ensures
        digits_value(s.take(i)) <= digits_value(s.take(j)),
    decreases j - i,
{
    if i < j {
        lemma_digits_grow(s, i, j - 1);
        assert(s.take(j).drop_last() =~= s.take(j - 1));
    }
}

/// Reads a delay in seconds: `Some` exactly when the text is a number that
/// fits in 64 bits, and then its value.
pub fn parse_seconds(s: &str) -> (r: Option<u64>)
    ensures
        r is Some <==> is_seconds(s@),
        r is Some ==> r->Some_0 as nat == seconds_value(s@),
{
    let n = s.unicode_len();
    let mut i: usize = 0;
    if n > 0 && s.get_char(0) == '+' {
        i = 1;
    }
    let start = i;
    let ghost d = unsigned_part(s@);
    assert(d =~= s@.subrange(start as int, n as int));
    if i == n {
        return None;
    }
    let mut v: u64 = 0;
    while i < n
        invariant
            start <= i <= n,
            n == s@.len(),
            d == unsigned_part(s@),
            d =~= s@.subrange(start as int, n as int),
            forall|k: int| 0 <= k < i - start ==> is_digit(#[trigger] d[k]),
            v as nat == digits_value(d.take(i - start)),
        decreases n - i,
    {
        let c = s.get_char(i);
        if c < '0' || c > '9' {
            assert(d[i - start] == c);
            return None;
        }
        let next = i - start + 1;
        assert(d.take(next as int).drop_last() =~= d.take(i - start));
        assert(d.take(next as int).last() == c);
        let dv = (c as u32 - '0' as u32) as u64;
        let prod = v.checked_mul(10);
        let sum = match prod {
            Some(t) => t.checked_add(dv),
            None => None,
        };
        match sum {
            Some(u) => {
                v = u;
            },
            None => {
                proof {
                    assert(digits_value(d.take(next as int)) > u64::MAX);
                    if is_seconds(s@) {
                        lemma_digits_grow(d, next as int, d.len() as int);
                        assert(d.take(d.len() as int) =~= d);
                    }
                }
                return None;
            },
        }
        i = i + 1;
    }
    assert(d.take(n - start) =~= d);
    Some(v)
}

} // verus!
