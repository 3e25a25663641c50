//! Decimal text of unsigned integers, both ways.

use vstd::prelude::*;
use vstd::string::*;

verus! {

/// The decimal digit character for `d`, which is below 10.
pub open spec fn digit_char(d: nat) -> char {
    "0123456789"@[d as int]
}

/// The decimal text of `n`, without leading zeros.
pub open spec fn decimal_spec(n: nat) -> Seq<char>
    decreases n,
{
    if n < 10 {
        seq![digit_char(n)]
    } else {
        decimal_spec(n / 10).push(digit_char(n % 10))
    }
}

/// The decimal text of `n`.
pub fn decimal(n: u64) -> (r: String)
    ensures
        r@ == decimal_spec(n as nat),
    decreases n,
{
    proof {
        reveal_strlit("0123456789");
    }
    let k = (n % 10) as usize;
    let d = "0123456789".substring_char(k, k + 1);
    assert(d@ =~= seq![digit_char(k as nat)]);
    if n < 10 {
        d.to_owned()
    } else {
        let mut r = decimal(n / 10);
        r.append(d);
        r
    }
}

/// The value of an ASCII digit; other characters count as 0.
pub open spec fn digit_value(c: char) -> nat {
    if '0' <= c && c <= '9' {
        ((c as u32) - 48) as nat
    } else {
        0
    }
}

/// Every character of `s` is an ASCII digit.
pub open spec fn all_digits(s: Seq<char>) -> bool {
    forall|i: int| 0 <= i < s.len() ==> '0' <= #[trigger] s[i] && s[i] <= '9'
}

/// The number that the digits `s` write in base 10.
pub open spec fn digits_value(s: Seq<char>) -> nat
    decreases s.len(),
{
    if s.len() == 0 {
        0
    } else {
        digits_value(s.drop_last()) * 10 + digit_value(s.last())
    }
}

/// What `str::parse::<u64>` gives: an optional leading `+`, then one or
/// more ASCII digits whose value fits in 64 bits; `None` for anything else.
pub open spec fn parse_u64_spec(s: Seq<char>) -> Option<u64> {
    let d = if s.len() > 0 && s[0] == '+' { s.drop_first() } else { s };
    if d.len() > 0 && all_digits(d) && digits_value(d) <= u64::MAX {
        Some(digits_value(d) as u64)
    } else {
        None
    }
}

proof fn lemma_digits_value_grows(s: Seq<char>, k: int)
    requires
        0 <= k <= s.len(),
    ensures
        digits_value(s.take(k)) <= digits_value(s),
    decreases s.len(),
{
    if k < s.len() {
        assert(s.drop_last().take(k) =~= s.take(k));
        lemma_digits_value_grows(s.drop_last(), k);
    } else {
        assert(s.take(k) =~= s);
    }
}

/// Parses `s` as `str::parse::<u64>` does.
pub fn parse_u64(s: &str) -> (r: Option<u64>)
    ensures
        r == parse_u64_spec(s@),
{
    let cs = crate::text::chars_of(s);
    let ghost g = s@;
    let mut i: usize = 0;
    if cs.len() > 0 && cs[0] == '+' {
        i = 1;
    }
    let ghost d = if g.len() > 0 && g[0] == '+' { g.drop_first() } else { g };
    let ghost off = i as int;
    if i >= cs.len() {
        return None;
    }
    let mut acc: u64 = 0;
    assert(d.take(0) =~= Seq::<char>::empty());
    while i < cs.len()
        invariant
            cs@ == g,
            g == s@,
            off <= i <= cs.len(),
            d =~= g.skip(off),
            d == (if g.len() > 0 && g[0] == '+' { g.drop_first() } else { g }),
            off == 0 || off == 1,
            acc as nat == digits_value(d.take(i - off)),
            all_digits(d.take(i - off)),
        decreases cs.len() - i,
    {
        let c = cs[i];
        if !('0' <= c && c <= '9') {
            assert(d[i - off] == c);
            assert(!all_digits(d));
            assert(parse_u64_spec(g) is None);
            return None;
        }
        let v = (c as u32 - 48) as u64;
        assert(d.take(i - off + 1).drop_last() =~= d.take(i - off));
        assert(d.take(i - off + 1).last() == c);
        assert(all_digits(d.take(i - off + 1))) by {
            assert forall|j: int| 0 <= j < i - off + 1 implies '0' <= #[trigger] d.take(i - off + 1)[j]
                && d.take(i - off + 1)[j] <= '9' by {
                if j < i - off {
                    assert(d.take(i - off + 1)[j] == d.take(i - off)[j]);
                }
            }
        }
        match acc.checked_mul(10) {
            None => {
                proof {
                    lemma_digits_value_grows(d, i - off + 1);
                }
                return None;
            },
            Some(m) => match m.checked_add(v) {
                None => {
                    proof {
                        lemma_digits_value_grows(d, i - off + 1);
                        assert(digits_value(d.take(i - off + 1)) == acc * 10 + v);
                        assert(digits_value(d) > u64::MAX);
                        assert(parse_u64_spec(g) is None);
                    }
                    return None;
                },
                Some(a) => {
                    acc = a;
                },
            },
        }
        i = i + 1;
    }
    assert(d.take(i - off) =~= d);
    Some(acc)
}

} // verus!
