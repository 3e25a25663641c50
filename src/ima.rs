//! Reader of the IMA runtime measurement log: the whole log, or the entries
//! from a given index on, for incremental attestation.

use vstd::prelude::*;
use vstd::string::*;
use crate::text::chars_of;

verus! {

/// Number of line feeds in `s`.
pub open spec fn newline_count(s: Seq<char>) -> nat
    decreases s.len(),
{
    if s.len() == 0 {
        0
    } else {
        (if s[0] == '\n' { 1nat } else { 0nat }) + newline_count(s.drop_first())
    }
}

/// Number of entries (lines) in the log text `s`: every line feed ends one,
/// and a last line without a line feed counts too.
pub open spec fn entry_count(s: Seq<char>) -> nat {
    newline_count(s) + if s.len() > 0 && s.last() != '\n' { 1nat } else { 0nat }
}

/// The text of the entries of `s` whose 0-based index is at least `n`.
pub open spec fn skip_entries(s: Seq<char>, n: nat) -> Seq<char>
    decreases s.len(),
{
    if n == 0 || s.len() == 0 {
        s
    } else if s[0] == '\n' {
        skip_entries(s.drop_first(), (n - 1) as nat)
    } else {
        skip_entries(s.drop_first(), n)
    }
}

/// What a read of the log text `s` from entry `nth` returns: the slice, the
/// offset at which it begins, and the number of entries.
pub open spec fn read_spec(s: Seq<char>, nth: nat) -> (Option<Seq<char>>, Option<nat>, nat) {
    let total = entry_count(s);
    if nth == 0 {
        (Some(s), None, total)
    } else if nth < total {
        (Some(skip_entries(s, nth)), Some(nth), total)
    } else {
        (None, Some(total), total)
    }
}

/// `r` is what a read of the log text `s` from entry `nth` returns.
pub open spec fn read_result(s: Seq<char>, nth: u64, r: (Option<String>, Option<u64>, u64)) -> bool {
    &&& r.2 == entry_count(s)
    &&& r.0.is_some() == read_spec(s, nth as nat).0.is_some()
    &&& r.0.is_some() ==> r.0.unwrap()@ == read_spec(s, nth as nat).0.unwrap()
    &&& r.1.is_some() == read_spec(s, nth as nat).1.is_some()
    &&& r.1.is_some() ==> r.1.unwrap() == read_spec(s, nth as nat).1.unwrap()
}

/// Reader state kept for the life of the agent: the entry count seen by the
/// last read.
#[derive(Clone, Debug)]
pub struct MeasurementList {
    pub num_entries: u64,
}

impl MeasurementList {
    /// A reader that has seen nothing yet.
    pub fn new() -> (r: MeasurementList)
        ensures
            r.num_entries == 0,
    {
        MeasurementList { num_entries: 0 }
    }
}

proof fn lemma_skip_step(s: Seq<char>, i: int)
    requires
        0 <= i < s.len(),
    ensures
        s.skip(i).drop_first() =~= s.skip(i + 1),
        s.skip(i)[0] == s[i],
{
}

proof fn lemma_entry_count_bound(s: Seq<char>)
    ensures
        newline_count(s) <= s.len(),
        entry_count(s) <= s.len(),
    decreases s.len(),
{
    if s.len() > 0 {
        lemma_entry_count_bound(s.drop_first());
    }
}

/// Reads the log whose current text is `contents`, from entry `nth_entry`
/// on, and records the entry count in `ml`. Returns the slice, the offset at
/// which it begins, and the entry count: the whole text when `nth_entry` is
/// 0, nothing when the caller has already seen every entry.
pub fn read_measurement_list(ml: &mut MeasurementList, contents: &str, nth_entry: u64) -> (r: (
    Option<String>,
    Option<u64>,
    u64,
))
    ensures
        read_result(contents@, nth_entry, r),
        final(ml).num_entries == r.2,
{
    let cs = chars_of(contents);
    let ghost s = contents@;
    let n = cs.len();
    let mut lines: u64 = 0;
    let mut start: usize = n;
    let mut found = nth_entry == 0;
    if found {
        start = 0;
    }
    let mut i: usize = 0;
    proof {
        assert(s.skip(0) =~= s);
        lemma_entry_count_bound(s);
    }
    while i < n
        invariant
            cs@ == s,
            n == s.len(),
            i <= n,
            lines <= i,
            newline_count(s) == lines + newline_count(s.skip(i as int)),
            found ==> start <= n && skip_entries(s, nth_entry as nat) == s.skip(start as int),
            !found ==> lines < nth_entry && skip_entries(s, nth_entry as nat) == skip_entries(
                s.skip(i as int),
                (nth_entry - lines) as nat,
            ),
        decreases n - i,
    {
        proof {
            lemma_skip_step(s, i as int);
        }
        if cs[i] == '\n' {
            lines = lines + 1;
            if !found && lines == nth_entry {
                assert(skip_entries(s.skip(i as int), 1) == skip_entries(s.skip(i as int).drop_first(), 0));
                found = true;
                start = i + 1;
            }
        }
        i = i + 1;
    }
    assert(s.skip(n as int) =~= Seq::<char>::empty());
    let total: u64 = if n > 0 && cs[n - 1] != '\n' { lines + 1 } else { lines };
    ml.num_entries = total;
    if nth_entry == 0 {
        assert(s.skip(0) =~= s);
        let whole: String = contents.to_owned();
        (Some(whole), None, total)
    } else if nth_entry < total {
        assert(found);
        let part: String = contents.substring_char(start, n).to_owned();
        assert(s.skip(start as int) =~= s.subrange(start as int, n as int));
        (Some(part), Some(nth_entry), total)
    } else {
        (None, Some(total), total)
    }
}

/// Log text made of whole entries: empty, or ending with a line feed.
pub open spec fn complete_entries(s: Seq<char>) -> bool {
    s.len() == 0 || s.last() == '\n'
}

proof fn lemma_append_complete(s: Seq<char>, x: Seq<char>)
    requires
        complete_entries(s),
    ensures
        skip_entries(s + x, newline_count(s)) == x,
        newline_count(s + x) == newline_count(s) + newline_count(x),
        s.len() > 0 ==> newline_count(s) > 0,
    decreases s.len(),
{
    if s.len() == 0 {
        assert(s + x =~= x);
    } else {
        let t = s.drop_first();
        assert((s + x).drop_first() =~= t + x);
        assert((s + x)[0] == s[0]);
        assert(newline_count(s) == (if s[0] == '\n' { 1nat } else { 0nat }) + newline_count(t));
        assert(newline_count(s + x) == (if s[0] == '\n' { 1nat } else { 0nat }) + newline_count(t + x));
        if t.len() == 0 {
            assert(s[0] == '\n');
            assert(t + x =~= x);
            assert(newline_count(t) == 0);
            assert(skip_entries(s + x, 1) == skip_entries(t + x, 0));
        } else {
            assert(t.last() == s.last());
            lemma_append_complete(t, x);
            if s[0] == '\n' {
                assert(skip_entries(s + x, newline_count(s)) == skip_entries(t + x, newline_count(t)));
            } else {
                assert(skip_entries(s + x, newline_count(s)) == skip_entries(t + x, newline_count(t)));
            }
        }
    }
}

/// Reading from entry 0 returns the whole log, with no offset.
pub proof fn lemma_read_from_zero_is_whole(s: Seq<char>)
    ensures
        read_spec(s, 0) == (Some(s), None::<nat>, entry_count(s)),
{
}

/// Reading from the entry count returns no slice, and the entry count as
/// both the offset and the total, for a log that holds at least one entry.
pub proof fn lemma_read_when_caught_up(s: Seq<char>)
    requires
        entry_count(s) > 0,
    ensures
        read_spec(s, entry_count(s)) == (None::<Seq<char>>, Some(entry_count(s)), entry_count(s)),
{
}

/// A consumer that first reads the whole log `old`, then reads the grown log
/// `new` from the entry count it was given, and appends what came back,
/// holds exactly `new`. The log grows by appending whole entries.
pub proof fn lemma_replay_reconstructs(old: Seq<char>, new: Seq<char>)
    requires
        old.is_prefix_of(new),
        complete_entries(old),
        entry_count(old) > 0,
    ensures
        read_spec(old, 0).0 == Some(old),
        read_spec(new, read_spec(old, 0).2).0 is Some ==> old + read_spec(
            new,
            read_spec(old, 0).2,
        ).0.unwrap() == new,
        read_spec(new, read_spec(old, 0).2).0 is None ==> old == new,
{
    let x = new.skip(old.len() as int);
    assert(new =~= old + x);
    lemma_append_complete(old, x);
    assert(entry_count(old) == newline_count(old));
    let t = newline_count(old);
    if x.len() > 0 && x.last() != '\n' {
        assert((old + x).last() == x.last());
    } else if x.len() > 0 {
        assert((old + x).last() == x.last());
        lemma_append_complete(x, Seq::<char>::empty());
        assert(x + Seq::<char>::empty() =~= x);
    }
    if read_spec(new, t).0 is None {
        assert(entry_count(new) <= t);
        assert(x.len() == 0);
        assert(new =~= old);
    }
}

/// What a consumer holds after reading the successive log texts
/// `versions[0..=i]`: the whole first one, then after each later read, what
/// it held with the returned slice appended, each read starting at the
/// entry count of what it held.
pub open spec fn replayed(versions: Seq<Seq<char>>, i: nat) -> Seq<char>
    decreases i,
{
    if i == 0 {
        read_spec(versions[0], 0).0.unwrap()
    } else {
        let held = replayed(versions, (i - 1) as nat);
        match read_spec(versions[i as int], entry_count(held)).0 {
            Some(d) => held + d,
            None => held,
        }
    }
}

/// A consumer that replays the slices of successive reads in order,
/// advancing its offset to the entry count it holds, holds the current log,
/// where the log grows by whole entries and holds at least one.
pub proof fn lemma_replay_all(versions: Seq<Seq<char>>, i: nat)
    requires
        i < versions.len(),
        forall|j: int| 0 <= j < versions.len() ==> #[trigger] complete_entries(versions[j]),
        forall|j: int| 0 <= j < versions.len() ==> #[trigger] entry_count(versions[j]) > 0,
        forall|j: int| 0 <= j < versions.len() - 1 ==> #[trigger] versions[j].is_prefix_of(versions[j + 1]),
    ensures
        replayed(versions, i) == versions[i as int],
    decreases i,
{
    if i > 0 {
        lemma_replay_all(versions, (i - 1) as nat);
        let old = versions[i - 1];
        let new = versions[i as int];
        assert(complete_entries(old));
        assert(entry_count(old) > 0);
        let k = i - 1;
        assert(versions[k].is_prefix_of(versions[k + 1]));
        assert(k + 1 == i);
        lemma_replay_reconstructs(old, new);
    }
}

} // verus!
