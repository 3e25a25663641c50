//! Character-level helpers over strings, with their mathematical meaning.

use vstd::prelude::*;
use vstd::string::*;

verus! {

/// An ASCII letter or digit.
pub open spec fn is_alnum_char(c: char) -> bool {
    ('a' <= c && c <= 'z') || ('A' <= c && c <= 'Z') || ('0' <= c && c <= '9')
}

/// Every character of `s` is an ASCII letter or digit.
pub open spec fn all_alnum(s: Seq<char>) -> bool {
    forall|i: int| 0 <= i < s.len() ==> #[trigger] is_alnum_char(s[i])
}

/// The characters of `s`, one by one.
pub fn chars_of(s: &str) -> (r: Vec<char>)
    ensures
        r@ == s@,
{
    let mut r: Vec<char> = Vec::new();
    for c in it: s.chars()
        invariant
            r@ == it.seq().take(it.index() as int),
    {
        r.push(c);
    }
    r
}

/// Whether every character of `s` is an ASCII letter or digit.
pub fn is_alphanumeric(s: &str) -> (r: bool)
    ensures
        r == all_alnum(s@),
{
    let cs = chars_of(s);
    let mut i: usize = 0;
    while i < cs.len()
        invariant
            cs@ == s@,
            i <= cs.len(),
            all_alnum(cs@.take(i as int)),
        decreases cs.len() - i,
    {
        let c = cs[i];
        if !(('a' <= c && c <= 'z') || ('A' <= c && c <= 'Z') || ('0' <= c && c <= '9')) {
            assert(!is_alnum_char(s@[i as int]));
            return false;
        }
        assert(all_alnum(cs@.take(i + 1))) by {
            assert forall|j: int| 0 <= j < i + 1 implies #[trigger] is_alnum_char(cs@.take(i + 1)[j]) by {
                if j < i {
                    assert(cs@.take(i + 1)[j] == cs@.take(i as int)[j]);
                }
            }
        }
        i = i + 1;
    }
    assert(cs@.take(i as int) =~= cs@);
    true
}

/// Whether `a` and `b` hold the same characters.
pub fn str_eq(a: &str, b: &str) -> (r: bool)
    ensures
        r == (a@ == b@),
{
    let x = chars_of(a);
    let y = chars_of(b);
    if x.len() != y.len() {
        return false;
    }
    let mut i: usize = 0;
    while i < x.len()
        invariant
            x@ == a@,
            y@ == b@,
            x.len() == y.len(),
            i <= x.len(),
            forall|j: int| 0 <= j < i ==> x@[j] == y@[j],
        decreases x.len() - i,
    {
        if x[i] != y[i] {
            return false;
        }
        i = i + 1;
    }
    assert(x@ =~= y@);
    true
}

/// A character with the Unicode White_Space property, as
/// `char::is_whitespace` tells it.
pub open spec fn is_white_space(c: char) -> bool {
    let u = c as u32;
    (9 <= u && u <= 13) || u == 0x20 || u == 0x85 || u == 0xA0 || u == 0x1680 || (0x2000 <= u && u
        <= 0x200A) || u == 0x2028 || u == 0x2029 || u == 0x202F || u == 0x205F || u == 0x3000
}

/// `s` without its leading white space.
pub open spec fn trim_front(s: Seq<char>) -> Seq<char>
    decreases s.len(),
{
    if s.len() > 0 && is_white_space(s[0]) {
        trim_front(s.drop_first())
    } else {
        s
    }
}

/// `s` without its trailing white space.
pub open spec fn trim_back(s: Seq<char>) -> Seq<char>
    decreases s.len(),
{
    if s.len() > 0 && is_white_space(s.last()) {
        trim_back(s.drop_last())
    } else {
        s
    }
}

/// `s` without its leading and trailing white space, as `str::trim` gives
/// it.
pub open spec fn trimmed(s: Seq<char>) -> Seq<char> {
    trim_back(trim_front(s))
}

fn white_space(c: char) -> (r: bool)
    ensures
        r == is_white_space(c),
{
    let u = c as u32;
    (9 <= u && u <= 13) || u == 0x20 || u == 0x85 || u == 0xA0 || u == 0x1680 || (0x2000 <= u && u
        <= 0x200A) || u == 0x2028 || u == 0x2029 || u == 0x202F || u == 0x205F || u == 0x3000
}

/// `s` without its leading and trailing white space.
pub fn trim(s: &str) -> (r: &str)
    ensures
        r@ == trimmed(s@),
{
    let cs = chars_of(s);
    let ghost g = s@;
    let n = cs.len();
    let mut i: usize = 0;
    assert(g.skip(0) =~= g);
    while i < n && white_space(cs[i])
        invariant
            cs@ == g,
            g == s@,
            n == g.len(),
            i <= n,
            trim_front(g) == trim_front(g.skip(i as int)),
        decreases n - i,
    {
        assert(g.skip(i as int).drop_first() =~= g.skip(i + 1));
        i = i + 1;
    }
    assert(trim_front(g) == g.skip(i as int));
    let mut j: usize = n;
    assert(g.skip(i as int) =~= g.subrange(i as int, n as int));
    while j > i && white_space(cs[j - 1])
        invariant
            cs@ == g,
            g == s@,
            n == g.len(),
            i <= j <= n,
            trimmed(g) == trim_back(g.subrange(i as int, j as int)),
        decreases j,
    {
        assert(g.subrange(i as int, j as int).drop_last() =~= g.subrange(i as int, j - 1));
        j = j - 1;
    }
    s.substring_char(i, j)
}

/// The pieces of `s` between occurrences of `sep`, as `str::split` yields
/// them: one more piece than there are separators, empty ones included.
pub open spec fn split_on(s: Seq<char>, sep: char) -> Seq<Seq<char>>
    decreases s.len(),
{
    if s.len() == 0 {
        seq![Seq::<char>::empty()]
    } else {
        let r = split_on(s.drop_last(), sep);
        if s.last() == sep {
            r.push(Seq::<char>::empty())
        } else {
            r.update(r.len() - 1, r.last().push(s.last()))
        }
    }
}

/// The trimmed pieces of `fields` that are not empty, in order.
pub open spec fn nonempty_trimmed(fields: Seq<Seq<char>>) -> Seq<Seq<char>>
    decreases fields.len(),
{
    if fields.len() == 0 {
        Seq::<Seq<char>>::empty()
    } else {
        let r = nonempty_trimmed(fields.drop_last());
        let t = trimmed(fields.last());
        if t.len() == 0 {
            r
        } else {
            r.push(t)
        }
    }
}

/// The character sequences that the strings of `v` hold.
pub open spec fn views(v: Seq<String>) -> Seq<Seq<char>> {
    v.map_values(|x: String| x@)
}

proof fn lemma_split_len(s: Seq<char>, sep: char)
    ensures
        split_on(s, sep).len() >= 1,
    decreases s.len(),
{
    if s.len() > 0 {
        lemma_split_len(s.drop_last(), sep);
    }
}

/// Appends to `out` the non-empty trimmed pieces of `s` between the
/// separators `sep`, in order.
pub fn push_split_trimmed(out: &mut Vec<String>, s: &str, sep: char)
    ensures
        views(final(out)@) == views(old(out)@) + nonempty_trimmed(split_on(s@, sep)),
{
    let cs = chars_of(s);
    let ghost g = s@;
    let ghost base = views(out@);
    let ghost mut done: Seq<Seq<char>> = Seq::empty();
    let mut start: usize = 0;
    let mut i: usize = 0;
    assert(g.take(0) =~= Seq::<char>::empty());
    assert(g.subrange(0, 0) =~= Seq::<char>::empty());
    assert(nonempty_trimmed(done) =~= Seq::<Seq<char>>::empty());
    assert(base + nonempty_trimmed(done) =~= base);
    while i < cs.len()
        invariant
            cs@ == g,
            g == s@,
            start <= i <= cs.len(),
            split_on(g.take(i as int), sep) == done + seq![g.subrange(start as int, i as int)],
            views(out@) == base + nonempty_trimmed(done),
        decreases cs.len() - i,
    {
        let c = cs[i];
        assert(g.take(i + 1).drop_last() =~= g.take(i as int));
        assert(g.take(i + 1).last() == c);
        if c == sep {
            let piece = trim(s.substring_char(start, i));
            let ghost pv = g.subrange(start as int, i as int);
            proof {
                assert(nonempty_trimmed(done.push(pv)) == (if trimmed(pv).len() == 0 {
                    nonempty_trimmed(done)
                } else {
                    nonempty_trimmed(done).push(trimmed(pv))
                })) by {
                    assert(done.push(pv).drop_last() =~= done);
                }
            }
            if piece.unicode_len() > 0 {
                let owned: String = piece.to_owned();
                let ghost before = out@;
                out.push(owned);
                assert(views(out@) =~= views(before).push(owned@));
                assert(views(out@) =~= base + nonempty_trimmed(done).push(trimmed(pv)));
            }
            proof {
                assert(split_on(g.take(i + 1), sep) == split_on(g.take(i as int), sep).push(
                    Seq::<char>::empty(),
                ));
                let d0 = done;
                assert(d0 + seq![pv] =~= d0.push(pv));
                done = done.push(pv);
                assert(g.subrange(i + 1, i + 1) =~= Seq::<char>::empty());
                assert(split_on(g.take(i + 1), sep) =~= done + seq![g.subrange(i + 1, i + 1)]);
            }
            start = i + 1;
        } else {
            proof {
                let r = split_on(g.take(i as int), sep);
                assert(r.last() == g.subrange(start as int, i as int));
                assert(g.subrange(start as int, i as int).push(c) =~= g.subrange(start as int, i + 1));
                assert(split_on(g.take(i + 1), sep) =~= done + seq![g.subrange(start as int, i + 1)]);
            }
        }
        i = i + 1;
    }
    assert(g.take(cs.len() as int) =~= g);
    let piece = trim(s.substring_char(start, cs.len()));
    let ghost pv = g.subrange(start as int, cs.len() as int);
    proof {
        assert((done + seq![pv]).drop_last() =~= done);
        assert((done + seq![pv]).last() == pv);
    }
    if piece.unicode_len() > 0 {
        let owned: String = piece.to_owned();
        let ghost before = out@;
        out.push(owned);
        assert(views(out@) =~= views(before).push(owned@));
        assert(views(out@) =~= base + nonempty_trimmed(done).push(trimmed(pv)));
    }
}

} // verus!
