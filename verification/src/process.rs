//! Process listings: ranking by CPU usage or memory, and the table in which
//! processes are shown.

use vstd::prelude::*;
use vstd::string::*;
use crate::text::{concat_all, decimal, decimal_string, lemma_concat_all_push, padded_right, push_padded_right, push_repeated, repeated};
use crate::units::{bytes_text, format_bytes};

verus! {

/// One process of a snapshot.
#[derive(Clone, Debug, PartialEq, Eq)]
pub struct ProcessEntry {
    pub pid: u32,
    pub name: String,
    /// A number that grows with the CPU usage: of two processes, the one that
    /// uses more has the larger rank, and equal usage gives equal ranks.
    pub cpu_rank: u32,
    /// The CPU usage in percent, rendered with one decimal place.
    pub cpu: String,
    /// Resident memory in bytes.
    pub memory: u64,
}

/// By what a listing is ordered.
#[derive(Clone, Copy, PartialEq, Eq, Debug, Structural)]
pub enum SortKey {
    Cpu,
    Memory,
}

/// The number by which an entry is ordered under a key.
pub open spec fn sort_value(e: ProcessEntry, key: SortKey) -> int {
    match key {
        SortKey::Cpu => e.cpu_rank as int,
        SortKey::Memory => e.memory as int,
    }
}

/// `sorted` with `e` put in front of the first entry that is not larger
/// than `e`.
pub open spec fn place(sorted: Seq<ProcessEntry>, e: ProcessEntry, key: SortKey) -> Seq<
    ProcessEntry,
>
    decreases sorted.len(),
{
    if sorted.len() == 0 {
        seq![e]
    } else if sort_value(sorted[0], key) > sort_value(e, key) {
        seq![sorted[0]] + place(sorted.drop_first(), e, key)
    } else {
        seq![e] + sorted
    }
}

/// The entries from largest to smallest under `key`; entries that are equal
/// under the key keep the order they came in.
pub open spec fn ranked(entries: Seq<ProcessEntry>, key: SortKey) -> Seq<ProcessEntry>
    decreases entries.len(),
{
    if entries.len() == 0 {
        Seq::empty()
    } else {
        place(ranked(entries.drop_first(), key), entries[0], key)
    }
}

/// No entry is smaller under `key` than one that follows it.
pub open spec fn is_descending(entries: Seq<ProcessEntry>, key: SortKey) -> bool {
    forall|i: int, j: int|
        0 <= i <= j < entries.len() ==> sort_value(#[trigger] entries[i], key) >= sort_value(
            #[trigger] entries[j],
            key,
        )
}

/// The entries whose value under `key` is `v`, in order.
pub open spec fn with_value(entries: Seq<ProcessEntry>, key: SortKey, v: int) -> Seq<ProcessEntry> {
    entries.filter(|e: ProcessEntry| sort_value(e, key) == v)
}

/// Where [`place`] puts the new entry.
pub proof fn lemma_place_at(sorted: Seq<ProcessEntry>, e: ProcessEntry, key: SortKey, pos: int)
    requires
        0 <= pos <= sorted.len(),
        forall|k: int| 0 <= k < pos ==> sort_value(#[trigger] sorted[k], key) > sort_value(e, key),
        pos == sorted.len() || sort_value(sorted[pos], key) <= sort_value(e, key),
    ensures
        place(sorted, e, key) == sorted.insert(pos, e),
    decreases sorted.len(),
{
    if sorted.len() == 0 {
        assert(sorted.insert(pos, e) =~= seq![e]);
    } else if pos == 0 {
        assert(sorted.insert(0, e) =~= seq![e] + sorted);
    } else {
        let rest = sorted.drop_first();
        assert forall|k: int| 0 <= k < pos - 1 implies sort_value(#[trigger] rest[k], key)
            > sort_value(e, key) by {
            assert(rest[k] == sorted[k + 1]);
        }
        lemma_place_at(rest, e, key, pos - 1);
        assert(sorted.insert(pos, e) =~= seq![sorted[0]] + rest.insert(pos - 1, e));
    }
}

/// Placing an entry keeps a descending sequence descending, adds one entry,
/// and puts the new entry in front of its equals.
pub proof fn lemma_place(sorted: Seq<ProcessEntry>, e: ProcessEntry, key: SortKey, v: int)
    ensures
        place(sorted, e, key).len() == sorted.len() + 1,
        is_descending(sorted, key) ==> is_descending(place(sorted, e, key), key),
        with_value(place(sorted, e, key), key, v) == if sort_value(e, key) == v {
            seq![e] + with_value(sorted, key, v)
        } else {
            with_value(sorted, key, v)
        },
        place(sorted, e, key).to_multiset() == sorted.to_multiset().insert(e),
    decreases sorted.len(),
{
    broadcast use vstd::seq_lib::group_to_multiset_ensures;

    let pred = |x: ProcessEntry| sort_value(x, key) == v;
    let placed = place(sorted, e, key);
    if sorted.len() == 0 {
        assert(sorted =~= Seq::<ProcessEntry>::empty());
        assert(seq![e] =~= Seq::<ProcessEntry>::empty().push(e));
        Seq::lemma_filter_push(Seq::<ProcessEntry>::empty(), e, pred);
        assert(Seq::<ProcessEntry>::empty().filter(pred) =~= Seq::<ProcessEntry>::empty());
        assert(with_value(placed, key, v) =~= if sort_value(e, key) == v {
            seq![e] + with_value(sorted, key, v)
        } else {
            with_value(sorted, key, v)
        });
        assert(placed.to_multiset() =~= sorted.to_multiset().insert(e));
    } else if sort_value(sorted[0], key) > sort_value(e, key) {
        let rest = sorted.drop_first();
        let inner = place(rest, e, key);
        lemma_place(rest, e, key, v);
        assert(sorted =~= seq![sorted[0]] + rest);
        Seq::filter_distributes_over_add(seq![sorted[0]], rest, pred);
        Seq::filter_distributes_over_add(seq![sorted[0]], inner, pred);
        assert(with_value(placed, key, v) =~= if sort_value(e, key) == v {
            seq![e] + with_value(sorted, key, v)
        } else {
            with_value(sorted, key, v)
        }) by {
            lemma_single_filter(sorted[0], key, v);
        }
        if is_descending(sorted, key) {
            assert(is_descending(rest, key)) by {
                assert forall|i: int, j: int| 0 <= i <= j < rest.len() implies sort_value(
                    #[trigger] rest[i],
                    key,
                ) >= sort_value(#[trigger] rest[j], key) by {
                    assert(rest[i] == sorted[i + 1]);
                    assert(rest[j] == sorted[j + 1]);
                }
            }
            assert forall|i: int, j: int| 0 <= i <= j < placed.len() implies sort_value(
                #[trigger] placed[i],
                key,
            ) >= sort_value(#[trigger] placed[j], key) by {
                if i > 0 {
                    assert(placed[i] == inner[i - 1]);
                    assert(placed[j] == inner[j - 1]);
                } else if j > 0 {
                    assert(placed[j] == inner[j - 1]);
                    assert(inner.to_multiset().contains(inner[j - 1]));
                    if inner[j - 1] != e {
                        assert(rest.to_multiset().contains(inner[j - 1]));
                        assert(rest.contains(inner[j - 1]));
                        let k = choose|k: int| 0 <= k < rest.len() && rest[k] == inner[j - 1];
                        assert(rest[k] == sorted[k + 1]);
                    }
                }
            }
        }
        assert(placed.to_multiset() =~= sorted.to_multiset().insert(e)) by {
            vstd::seq_lib::lemma_multiset_commutative(seq![sorted[0]], inner);
            vstd::seq_lib::lemma_multiset_commutative(seq![sorted[0]], rest);
        }
    } else {
        Seq::filter_distributes_over_add(seq![e], sorted, pred);
        lemma_single_filter(e, key, v);
        assert(with_value(placed, key, v) =~= if sort_value(e, key) == v {
            seq![e] + with_value(sorted, key, v)
        } else {
            with_value(sorted, key, v)
        });
        if is_descending(sorted, key) {
            assert forall|i: int, j: int| 0 <= i <= j < placed.len() implies sort_value(
                #[trigger] placed[i],
                key,
            ) >= sort_value(#[trigger] placed[j], key) by {
                if i > 0 {
                    assert(placed[i] == sorted[i - 1]);
                    assert(placed[j] == sorted[j - 1]);
                } else if j > 0 {
                    assert(placed[j] == sorted[j - 1]);
                    assert(sort_value(sorted[0], key) >= sort_value(sorted[j - 1], key));
                }
            }
        }
        assert(placed.to_multiset() =~= sorted.to_multiset().insert(e)) by {
            vstd::seq_lib::lemma_multiset_commutative(seq![e], sorted);
        }
    }
}

proof fn lemma_single_filter(e: ProcessEntry, key: SortKey, v: int)
    ensures
        with_value(seq![e], key, v) == if sort_value(e, key) == v {
            seq![e]
        } else {
            Seq::<ProcessEntry>::empty()
        },
{
    let pred = |x: ProcessEntry| sort_value(x, key) == v;
    assert(seq![e] =~= Seq::<ProcessEntry>::empty().push(e));
    Seq::lemma_filter_push(Seq::<ProcessEntry>::empty(), e, pred);
    assert(Seq::<ProcessEntry>::empty().filter(pred) =~= Seq::<ProcessEntry>::empty());
}

/// A ranking holds the entries it was made from, each as often as it came,
/// from largest to smallest, and equal entries in the order they came in.
pub proof fn lemma_ranked(entries: Seq<ProcessEntry>, key: SortKey, v: int)
    ensures
        ranked(entries, key).len() == entries.len(),
        is_descending(ranked(entries, key), key),
        ranked(entries, key).to_multiset() == entries.to_multiset(),
        with_value(ranked(entries, key), key, v) == with_value(entries, key, v),
    decreases entries.len(),
{
    broadcast use vstd::seq_lib::group_to_multiset_ensures;

    let pred = |x: ProcessEntry| sort_value(x, key) == v;
    if entries.len() == 0 {
        assert(entries =~= Seq::<ProcessEntry>::empty());
    } else {
        let rest = entries.drop_first();
        lemma_ranked(rest, key, v);
        lemma_place(ranked(rest, key), entries[0], key, v);
        assert(entries =~= seq![entries[0]] + rest);
        Seq::filter_distributes_over_add(seq![entries[0]], rest, pred);
        lemma_single_filter(entries[0], key, v);
        assert(with_value(ranked(entries, key), key, v) =~= with_value(entries, key, v));
        assert(ranked(entries, key).to_multiset() =~= entries.to_multiset()) by {
            vstd::seq_lib::lemma_multiset_commutative(seq![entries[0]], rest);
        }
    }
}

/// Reads the number by which an entry is ordered.
pub fn value_under(e: &ProcessEntry, key: SortKey) -> (v: u64)
    ensures
        v == sort_value(*e, key),
{
    match key {
        SortKey::Cpu => e.cpu_rank as u64,
        SortKey::Memory => e.memory,
    }
}

/// Orders the entries from largest to smallest under `key`, keeping equal
/// entries in the order they came in.
pub fn rank_processes(entries: Vec<ProcessEntry>, key: SortKey) -> (sorted: Vec<ProcessEntry>)
    ensures
        sorted@ == ranked(entries@, key),
        sorted@.len() == entries@.len(),
        is_descending(sorted@, key),
{
    let ghost all = entries@;
    let mut rest = entries;
    let mut sorted: Vec<ProcessEntry> = Vec::new();
    assert(all.skip(all.len() as int) =~= Seq::<ProcessEntry>::empty());
    while rest.len() > 0
        invariant
            rest@.len() <= all.len(),
            rest@ == all.take(rest@.len() as int),
            sorted@ == ranked(all.skip(rest@.len() as int), key),
        decreases rest@.len(),
    {
        let ghost n = rest@.len() as int;
        let e = rest.pop().unwrap();
        assert(e == all[n - 1]);
        assert(rest@ =~= all.take(n - 1));
        let mut pos: usize = 0;
        while pos < sorted.len() && value_under(&sorted[pos], key) > value_under(&e, key)
            invariant
                pos <= sorted.len(),
                forall|k: int|
                    0 <= k < pos ==> sort_value(#[trigger] sorted@[k], key) > sort_value(e, key),
            decreases sorted.len() - pos,
        {
            pos += 1;
        }
        proof {
            lemma_place_at(sorted@, e, key, pos as int);
            assert(all.skip(n - 1).drop_first() =~= all.skip(n));
            assert(all.skip(n - 1)[0] == e);
        }
        sorted.insert(pos, e);
    }
    proof {
        assert(all.skip(0) =~= all);
        lemma_ranked(all, key, 0);
    }
    sorted
}

/// The first `count` entries of the ranking under `key`: all of them when
/// there are fewer.
pub fn top_processes(entries: Vec<ProcessEntry>, count: usize, key: SortKey) -> (top: Vec<
    ProcessEntry,
>)
    ensures
        top@.len() == if count <= entries@.len() {
            count as nat
        } else {
            entries@.len()
        },
        top@ == ranked(entries@, key).take(top@.len() as int),
        is_descending(top@, key),
{
    let mut sorted = rank_processes(entries, key);
    let ghost full = sorted@;
    if count < sorted.len() {
        sorted.truncate(count);
        assert(sorted@ =~= full.take(count as int));
    } else {
        assert(sorted@ =~= full.take(full.len() as int));
    }
    assert forall|i: int, j: int| 0 <= i <= j < sorted@.len() implies sort_value(
        #[trigger] sorted@[i],
        key,
    ) >= sort_value(#[trigger] sorted@[j], key) by {
        assert(sorted@[i] == full[i]);
        assert(sorted@[j] == full[j]);
    }
    sorted
}

/// The heading of the process table.
pub open spec fn table_header() -> Seq<char> {
    padded_right("PID"@, 8) + " "@ + padded_right("CPU%"@, 10) + " "@ + padded_right("Memory"@, 10)
        + " Name\n"@
}

/// A line of `width` dashes.
pub open spec fn rule(width: nat) -> Seq<char> {
    repeated('-', width) + "\n"@
}

/// The table line of one process: the columns of the heading, each padded
/// to its width, and the name.
pub open spec fn process_row(e: ProcessEntry) -> Seq<char> {
    padded_right(decimal(e.pid as nat), 8) + " "@ + padded_right(e.cpu@, 10) + " "@ + padded_right(
        bytes_text(e.memory as nat),
        10,
    ) + " "@ + e.name@ + "\n"@
}

/// The table lines of the entries, in order.
pub open spec fn process_rows(entries: Seq<ProcessEntry>) -> Seq<char> {
    concat_all(entries.map_values(|e: ProcessEntry| process_row(e)))
}

/// Appends [`table_header`].
pub fn push_table_header(out: &mut String)
    ensures
        final(out)@ == old(out)@ + table_header(),
{
    let ghost before = out@;
    push_padded_right(out, "PID", 8);
    out.append(" ");
    push_padded_right(out, "CPU%", 10);
    out.append(" ");
    push_padded_right(out, "Memory", 10);
    out.append(" Name\n");
    assert(out@ =~= before + table_header());
}

/// Appends [`rule`].
pub fn push_rule(out: &mut String, width: usize)
    ensures
        final(out)@ == old(out)@ + rule(width as nat),
{
    let ghost before = out@;
    proof {
        reveal_strlit("-");
    }
    push_repeated(out, "-", width);
    out.append("\n");
    assert(out@ =~= before + rule(width as nat));
}

/// Appends [`process_row`].
pub fn push_process_row(out: &mut String, e: &ProcessEntry)
    ensures
        final(out)@ == old(out)@ + process_row(*e),
{
    let ghost before = out@;
    let pid = decimal_string(e.pid as u64);
    push_padded_right(out, pid.as_str(), 8);
    out.append(" ");
    push_padded_right(out, e.cpu.as_str(), 10);
    out.append(" ");
    let memory = format_bytes(e.memory);
    push_padded_right(out, memory.as_str(), 10);
    out.append(" ");
    out.append(e.name.as_str());
    out.append("\n");
    assert(out@ =~= before + process_row(*e));
}

/// Appends the table lines of the first `shown` entries.
pub fn push_process_rows(out: &mut String, entries: &Vec<ProcessEntry>, shown: usize)
    requires
        shown <= entries.len(),
    ensures
        final(out)@ == old(out)@ + process_rows(entries@.take(shown as int)),
{
    let ghost before = out@;
    let ghost row = |e: ProcessEntry| process_row(e);
    let mut i: usize = 0;
    assert(entries@.take(0).map_values(row) =~= Seq::<Seq<char>>::empty());
    assert(out@ =~= before + process_rows(entries@.take(0)));
    while i < shown
        invariant
            i <= shown <= entries.len(),
            row == |e: ProcessEntry| process_row(e),
            out@ == before + process_rows(entries@.take(i as int)),
        decreases shown - i,
    {
        push_process_row(out, &entries[i]);
        proof {
            let done = entries@.take(i as int).map_values(row);
            assert(entries@.take(i + 1).map_values(row) =~= done.push(
                process_row(entries@[i as int]),
            ));
            lemma_concat_all_push(done, process_row(entries@[i as int]));
            assert(out@ =~= before + process_rows(entries@.take(i + 1)));
        }
        i += 1;
    }
}

/// The entries in reverse order.
pub fn reversed(entries: Vec<ProcessEntry>) -> (back: Vec<ProcessEntry>)
    ensures
        back@ == entries@.reverse(),
{
    let ghost all = entries@;
    let mut rest = entries;
    let mut back: Vec<ProcessEntry> = Vec::new();
    while rest.len() > 0
        invariant
            rest@.len() <= all.len(),
            rest@ == all.take(rest@.len() as int),
            back@.len() + rest@.len() == all.len(),
            forall|k: int| 0 <= k < back@.len() ==> back@[k] == all[all.len() - 1 - k],
        decreases rest@.len(),
    {
        let ghost n = rest@.len() as int;
        let e = rest.pop().unwrap();
        assert(e == all[n - 1]);
        assert(rest@ =~= all.take(n - 1));
        back.push(e);
    }
    assert(back@ =~= all.reverse());
    back
}

} // verus!
