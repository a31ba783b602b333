//! The conversation memory: a bounded log of what happened in the session.

use crate::text::{decimal, decimal_string};
use vstd::prelude::*;
use vstd::string::*;

verus! {

/// The most entries that a memory holds.
pub const CAPACITY: usize = 20;

/// What `render_memory` gives for a memory without entries.
pub const NO_CONTEXT: &'static str = "(no prior context)";

/// A log of short entries, oldest first, that keeps the newest `CAPACITY`.
pub struct Memory {
    entries: Vec<String>,
}

impl View for Memory {
    type V = Seq<Seq<char>>;

    closed spec fn view(&self) -> Seq<Seq<char>> {
        self.entries@.map_values(|s: String| s@)
    }
}

/// The newest `CAPACITY` entries of `log`, in their order.
pub open spec fn window(log: Seq<Seq<char>>) -> Seq<Seq<char>> {
    if log.len() > CAPACITY {
        log.subrange(log.len() - CAPACITY, log.len() as int)
    } else {
        log
    }
}

/// The line that shows `entry` at position `index`, counted from zero.
pub open spec fn line(index: nat, entry: Seq<char>) -> Seq<char> {
    decimal(index + 1) + seq![':', ' '] + entry
}

/// The lines of `entries`, numbered from 1, with a newline between two lines.
pub open spec fn listing(entries: Seq<Seq<char>>) -> Seq<char>
    decreases entries.len(),
{
    if entries.len() == 0 {
        Seq::empty()
    } else if entries.len() == 1 {
        line(0, entries[0])
    } else {
        listing(entries.drop_last()) + seq!['\n'] + line((entries.len() - 1) as nat, entries.last())
    }
}

/// The text that stands for `entries` in a prompt.
pub open spec fn rendered(entries: Seq<Seq<char>>) -> Seq<char> {
    if entries.len() == 0 {
        NO_CONTEXT@
    } else {
        listing(entries)
    }
}

impl Memory {
    #[verifier::type_invariant]
    spec fn bounded(&self) -> bool {
        self.entries@.len() <= CAPACITY
    }

    /// A memory without entries.
    pub fn new() -> (m: Memory)
        ensures
            m@ == Seq::<Seq<char>>::empty(),
    {
        let m = Memory { entries: Vec::new() };
        assert(m@ =~= Seq::<Seq<char>>::empty());
        m
    }

    /// The number of entries held.
    pub fn len(&self) -> (n: usize)
        ensures
            n == self@.len(),
            n <= CAPACITY,
    {
        proof {
            use_type_invariant(self);
        }
        self.entries.len()
    }

    /// The entry at position `index`, counted from the oldest; nothing where
    /// fewer entries are held.
    pub fn entry(&self, index: usize) -> (e: Option<&String>)
        ensures
            match e {
                Some(text) => index < self@.len() && text@ == self@[index as int],
                None => index >= self@.len(),
            },
    {
        if index < self.entries.len() {
            Some(&self.entries[index])
        } else {
            None
        }
    }
}

/// Adds `entry` as the newest entry; the oldest entries leave while more than
/// `CAPACITY` are held.
pub fn remember(memory: &mut Memory, entry: String)
    ensures
        final(memory)@ == window(old(memory)@.push(entry@)),
{
    proof {
        use_type_invariant(&*memory);
    }
    let ghost target = old(memory)@.push(entry@);
    let mut entries: Vec<String> = Vec::new();
    std::mem::swap(&mut entries, &mut memory.entries);
    entries.push(entry);
    assert(entries@.map_values(|s: String| s@) =~= target);
    while entries.len() > CAPACITY
        invariant
            entries@.len() <= target.len(),
            entries@.len() >= CAPACITY || entries@.len() == target.len(),
            entries@.map_values(|s: String| s@) == target.subrange(
                target.len() - entries@.len(),
                target.len() as int,
            ),
        decreases entries@.len(),
    {
        let ghost held = entries@.map_values(|s: String| s@);
        entries.remove(0);
        assert forall|j: int| 0 <= j < entries@.len() implies (#[trigger] entries@[j])@
            == target[target.len() - entries@.len() + j] by {
            assert(entries@[j]@ == held[j + 1]);
        }
        assert(entries@.map_values(|s: String| s@) =~= target.subrange(
            target.len() - entries@.len(),
            target.len() as int,
        ));
    }
    assert(entries@.map_values(|s: String| s@) =~= window(target));
    memory.entries = entries;
}

/// The entries as numbered lines, or `NO_CONTEXT` where there is none.
pub fn render_memory(memory: &Memory) -> (out: String)
    ensures
        out@ == rendered(memory@),
{
    proof {
        use_type_invariant(memory);
    }
    let n = memory.entries.len();
    if n == 0 {
        return String::from_str(NO_CONTEXT);
    }
    let mut out = String::new();
    let mut i: usize = 0;
    while i < n
        invariant
            n == memory.entries@.len(),
            n <= CAPACITY,
            i <= n,
            out@ == listing(memory@.subrange(0, i as int)),
        decreases n - i,
    {
        let ghost before = memory@.subrange(0, i as int);
        let ghost after = memory@.subrange(0, i + 1);
        if i > 0 {
            out.append("\n");
        }
        let number = decimal_string((i + 1) as u64);
        out.append(number.as_str());
        out.append(": ");
        out.append(memory.entries[i].as_str());
        proof {
            reveal_strlit("\n");
            reveal_strlit(": ");
            assert(after.drop_last() =~= before);
            assert(after.last() == memory@[i as int]);
            assert("\n"@ =~= seq!['\n']);
            assert(": "@ =~= seq![':', ' ']);
            assert(out@ =~= listing(after));
        }
        i = i + 1;
    }
    assert(memory@.subrange(0, n as int) =~= memory@);
    out
}

/// What a memory that held `start` holds after the entries of `added` were
/// remembered one by one, first to last.
pub open spec fn after_appends(start: Seq<Seq<char>>, added: Seq<Seq<char>>) -> Seq<Seq<char>>
    decreases added.len(),
{
    if added.len() == 0 {
        start
    } else {
        window(after_appends(start, added.drop_last()).push(added.last()))
    }
}

/// After any number of entries were remembered in a new memory, it holds the
/// newest `CAPACITY` of them, or all of them where they are fewer, in the
/// order in which they came.
pub proof fn lemma_bounded_memory(added: Seq<Seq<char>>)
    ensures
        after_appends(Seq::empty(), added) == window(added),
        after_appends(Seq::empty(), added).len() == if added.len() < CAPACITY {
            added.len()
        } else {
            CAPACITY as nat
        },
        forall|i: int|
            0 <= i < after_appends(Seq::empty(), added).len() ==> #[trigger] after_appends(
                Seq::empty(),
                added,
            )[i] == added[added.len() - after_appends(Seq::empty(), added).len() + i],
    decreases added.len(),
{
    if added.len() > 0 {
        lemma_bounded_memory(added.drop_last());
        let earlier = window(added.drop_last());
        assert(earlier.push(added.last()).len() == earlier.len() + 1);
        assert(window(earlier.push(added.last())) =~= window(added));
    } else {
        assert(after_appends(Seq::empty(), added) =~= window(added));
    }
}

/// A memory within `CAPACITY` stays within it whatever is remembered next:
/// it grows by one entry until it is full, and the newest entry is always
/// the one just added.
pub proof fn lemma_window_push(held: Seq<Seq<char>>, entry: Seq<char>)
    requires
        held.len() <= CAPACITY,
    ensures
        window(held.push(entry)).len() <= CAPACITY,
        window(held.push(entry)).len() == if held.len() < CAPACITY {
            held.len() + 1
        } else {
            CAPACITY as nat
        },
        window(held.push(entry)).last() == entry,
{
}

/// Two renderings of a memory with nothing remembered between them are the
/// same text.
pub proof fn lemma_render_repeats(memory: Memory, first: String, second: String)
    requires
        first@ == rendered(memory@),
        second@ == rendered(memory@),
    ensures
        first@ == second@,
{
}

/// A memory that holds the one entry `entry` renders as `1: ` and the entry.
pub proof fn lemma_render_single(entry: Seq<char>)
    ensures
        rendered(seq![entry]) == seq!['1', ':', ' '] + entry,
{
    assert(decimal(1) =~= seq!['1']);
    assert(seq![entry].len() == 1);
    assert(seq![entry][0] == entry);
    assert(line(0, entry) =~= seq!['1', ':', ' '] + entry);
}

/// Each further entry adds a newline and its numbered line to the rendering.
pub proof fn lemma_render_push(entries: Seq<Seq<char>>, entry: Seq<char>)
    requires
        entries.len() > 0,
    ensures
        rendered(entries.push(entry)) == rendered(entries) + seq!['\n'] + line(
            entries.len(),
            entry,
        ),
{
    assert(entries.push(entry).drop_last() =~= entries);
}

} // verus!
