//! The correlation table: matching asynchronous completions to waiting
//! callers.
//!
//! A dispatched action may hand work to an external execution context and
//! suspend until that context calls back on a separate channel.  The table
//! owns one single-use waiter per outstanding correlation id.  Every entry
//! leaves the table by exactly one of two removals: `resolve`, when the
//! external context answers, or `expire`, when the waiting side gives up.
//! Whichever removal runs first takes the waiter; the other finds nothing
//! and changes nothing, so a late callback after a timeout is a harmless
//! no-op and no entry is ever orphaned.
//!
//! The type of the waiter is left open: the surrounding runtime supplies
//! its own single-resolution handle (a promise, a channel sender), and the
//! table only keeps and returns it.

use vstd::prelude::*;

use crate::json::str_eq;

verus! {

/// One outstanding handoff: the opaque correlation id, the single-use
/// waiter handed back to whichever removal comes first, and the time the
/// entry was made.
pub struct CorrelationEntry<W> {
    pub id: String,
    pub waiter: W,
    pub created_at: u64,
}

/// The table of outstanding handoffs, modelled as a map from correlation
/// id to waiter and creation time.
pub struct CorrelationTable<W> {
    entries: Vec<CorrelationEntry<W>>,
}

/// The map that a row of entries stands for, later rows inserted last.
pub open spec fn map_of<W>(es: Seq<CorrelationEntry<W>>) -> Map<Seq<char>, (W, u64)>
    decreases es.len(),
{
    if es.len() == 0 {
        Map::empty()
    } else {
        map_of(es.drop_last()).insert(es.last().id@, (es.last().waiter, es.last().created_at))
    }
}

/// No two rows share an id.
pub open spec fn unique_ids<W>(es: Seq<CorrelationEntry<W>>) -> bool {
    forall|i: int, j: int| 0 <= i < j < es.len() ==> es[i].id@ != es[j].id@
}

proof fn lemma_map_of_contains<W>(es: Seq<CorrelationEntry<W>>, k: Seq<char>)
    ensures
        map_of(es).contains_key(k) <==> exists|i: int| 0 <= i < es.len() && es[i].id@ == k,
    decreases es.len(),
{
    if es.len() > 0 {
        lemma_map_of_contains(es.drop_last(), k);
        if map_of(es).contains_key(k) {
            if es.last().id@ == k {
                assert(es[es.len() - 1].id@ == k);
            } else {
                let i = choose|i: int| 0 <= i < es.drop_last().len() && es.drop_last()[i].id@
                    == k;
                assert(es[i].id@ == k);
            }
        }
        if exists|i: int| 0 <= i < es.len() && es[i].id@ == k {
            let i = choose|i: int| 0 <= i < es.len() && es[i].id@ == k;
            if i < es.len() - 1 {
                assert(es.drop_last()[i].id@ == k);
            }
        }
    }
}

proof fn lemma_map_of_get<W>(es: Seq<CorrelationEntry<W>>, i: int)
    requires
        unique_ids(es),
        0 <= i < es.len(),
    ensures
        map_of(es).contains_key(es[i].id@),
        map_of(es)[es[i].id@] == (es[i].waiter, es[i].created_at),
    decreases es.len(),
{
    if i == es.len() - 1 {
    } else {
        assert(unique_ids(es.drop_last()));
        assert(es.drop_last()[i] == es[i]);
        lemma_map_of_get(es.drop_last(), i);
        assert(es[i].id@ != es.last().id@);
    }
}

proof fn lemma_map_of_len<W>(es: Seq<CorrelationEntry<W>>)
    requires
        unique_ids(es),
    ensures
        map_of(es).dom().finite(),
        map_of(es).dom().len() == es.len(),
    decreases es.len(),
{
    if es.len() > 0 {
        assert(unique_ids(es.drop_last()));
        lemma_map_of_len(es.drop_last());
        lemma_map_of_contains(es.drop_last(), es.last().id@);
        assert(forall|i: int| 0 <= i < es.drop_last().len() ==> es.drop_last()[i].id@
            != es.last().id@);
        assert(!map_of(es.drop_last()).contains_key(es.last().id@));
        assert(map_of(es).dom() =~= map_of(es.drop_last()).dom().insert(es.last().id@));
    }
}

proof fn lemma_map_of_remove<W>(es: Seq<CorrelationEntry<W>>, i: int)
    requires
        unique_ids(es),
        0 <= i < es.len(),
    ensures
        map_of(es.remove(i)) == map_of(es).remove(es[i].id@),
    decreases es.len(),
{
    if i == es.len() - 1 {
        assert(es.remove(i) =~= es.drop_last());
        lemma_map_of_contains(es.drop_last(), es[i].id@);
        assert(forall|j: int| 0 <= j < es.drop_last().len() ==> es.drop_last()[j].id@
            != es[i].id@);
        assert(!map_of(es.drop_last()).contains_key(es[i].id@));
        assert(map_of(es.drop_last()) =~= map_of(es).remove(es[i].id@));
    } else {
        assert(unique_ids(es.drop_last()));
        assert(es.drop_last()[i] == es[i]);
        lemma_map_of_remove(es.drop_last(), i);
        let r = es.remove(i);
        assert(r.len() == es.len() - 1);
        assert(r.last() == es.last());
        assert(r.drop_last() =~= es.drop_last().remove(i));
        assert(es[i].id@ != es.last().id@);
        assert(map_of(r) == map_of(es.drop_last().remove(i)).insert(
            es.last().id@,
            (es.last().waiter, es.last().created_at),
        ));
        assert(map_of(es.drop_last()).remove(es[i].id@).insert(
            es.last().id@,
            (es.last().waiter, es.last().created_at),
        ) =~= map_of(es.drop_last()).insert(
            es.last().id@,
            (es.last().waiter, es.last().created_at),
        ).remove(es[i].id@));
    }
}

impl<W> View for CorrelationTable<W> {
    type V = Map<Seq<char>, (W, u64)>;

    closed spec fn view(&self) -> Map<Seq<char>, (W, u64)> {
        map_of(self.entries@)
    }
}

impl<W> CorrelationTable<W> {
    /// Every id names at most one entry.
    pub closed spec fn wf(self) -> bool {
        unique_ids(self.entries@)
    }

    /// An empty table.
    pub fn new() -> (r: Self)
        ensures
            r.wf(),
            r@ == Map::<Seq<char>, (W, u64)>::empty(),
    {
        let r = CorrelationTable { entries: Vec::new() };
        proof {
            assert(r.entries@.len() == 0);
        }
        r
    }

    /// The row holding `id`, if any.
    fn find_index(&self, id: &str) -> (r: Option<usize>)
        ensures
            match r {
                Some(i) => i < self.entries@.len() && self.entries@[i as int].id@ == id@,
                None => forall|i: int|
                    0 <= i < self.entries@.len() ==> self.entries@[i as int].id@ != id@,
            },
    {
        let mut k: usize = 0;
        while k < self.entries.len()
            invariant
                k <= self.entries@.len(),
                forall|i: int| 0 <= i < k ==> self.entries@[i].id@ != id@,
            decreases self.entries@.len() - k,
        {
            if str_eq(self.entries[k].id.as_str(), id) {
                return Some(k);
            }
            k = k + 1;
        }
        None
    }

    /// Whether an entry for `id` is outstanding.
    pub fn contains(&self, id: &str) -> (r: bool)
        requires
            self.wf(),
        ensures
            r == self@.contains_key(id@),
    {
        proof {
            lemma_map_of_contains(self.entries@, id@);
        }
        match self.find_index(id) {
            Some(_) => true,
            None => false,
        }
    }

    /// How many entries are outstanding.
    pub fn pending_count(&self) -> (r: usize)
        requires
            self.wf(),
        ensures
            r == self@.dom().len(),
    {
        proof {
            lemma_map_of_len(self.entries@);
        }
        self.entries.len()
    }

    /// Files a new handoff under `id`.  A fresh id is entered and `Ok` is
    /// returned; an id already outstanding leaves the table unchanged and
    /// hands the waiter back, so no waiter is ever silently dropped and no
    /// entry is ever overwritten.
    pub fn register(&mut self, id: String, waiter: W, created_at: u64) -> (r: Result<(), W>)
        requires
            old(self).wf(),
        ensures
            final(self).wf(),
            match r {
                Ok(()) => !old(self)@.contains_key(id@) && final(self)@ == old(self)@.insert(
                    id@,
                    (waiter, created_at),
                ),
                Err(w) => old(self)@.contains_key(id@) && final(self)@ == old(self)@ && w
                    == waiter,
            },
    {
        proof {
            lemma_map_of_contains(self.entries@, id@);
        }
        match self.find_index(id.as_str()) {
            Some(_) => Err(waiter),
            None => {
                let ghost before = self.entries@;
                self.entries.push(CorrelationEntry { id, waiter, created_at });
                proof {
                    assert(self.entries@.drop_last() =~= before);
                    assert(unique_ids(self.entries@));
                }
                Ok(())
            },
        }
    }

    /// Takes the entry for `id` out of the table, if it is still there.
    fn take_entry(&mut self, id: &str) -> (r: Option<W>)
        requires
            old(self).wf(),
        ensures
            final(self).wf(),
            match r {
                Some(w) => old(self)@.contains_key(id@) && w == old(self)@[id@].0 && final(self)@ == old(self)@.remove(id@),
                None => !old(self)@.contains_key(id@) && final(self)@ == old(self)@,
            },
    {
        proof {
            lemma_map_of_contains(self.entries@, id@);
        }
        match self.find_index(id) {
            Some(i) => {
                proof {
                    lemma_map_of_get(self.entries@, i as int);
                    lemma_map_of_remove(self.entries@, i as int);
                }
                let e = self.entries.remove(i);
                proof {
                    assert(unique_ids(self.entries@)) by {
                        assert(forall|a: int, b: int|
                            0 <= a < b < self.entries@.len() ==> self.entries@[a].id@
                                != self.entries@[b].id@);
                    }
                }
                Some(e.waiter)
            },
            None => None,
        }
    }

    /// The external context answered for `id`: removes the entry and hands
    /// back its waiter, which the caller fulfils with the outcome.  When no
    /// entry is left — the wait already timed out, or the id was never
    /// filed — nothing changes and nothing is returned: a late callback is
    /// benign.
    pub fn resolve(&mut self, id: &str) -> (r: Option<W>)
        requires
            old(self).wf(),
        ensures
            final(self).wf(),
            match r {
                Some(w) => old(self)@.contains_key(id@) && w == old(self)@[id@].0 && final(self)@ == old(self)@.remove(id@),
                None => !old(self)@.contains_key(id@) && final(self)@ == old(self)@,
            },
    {
        self.take_entry(id)
    }

    /// The wait for `id` ran out: removes the entry and hands back its
    /// waiter, which the caller discards while reporting a timeout.  When
    /// the entry is already gone — the callback won the race — nothing
    /// changes and nothing is returned.
    pub fn expire(&mut self, id: &str) -> (r: Option<W>)
        requires
            old(self).wf(),
        ensures
            final(self).wf(),
            match r {
                Some(w) => old(self)@.contains_key(id@) && w == old(self)@[id@].0 && final(self)@ == old(self)@.remove(id@),
                None => !old(self)@.contains_key(id@) && final(self)@ == old(self)@,
            },
    {
        self.take_entry(id)
    }
}

/// The cleanup law.  For any table and a fresh id: once the id is filed,
/// the first removal — completion or timeout — observes exactly the filed
/// waiter and leaves no entry under the id; the table returns to its prior
/// state, so every registration has exactly one matching removal and the
/// table cannot grow without bound.
pub proof fn lemma_register_then_one_removal<W>(
    m: Map<Seq<char>, (W, u64)>,
    id: Seq<char>,
    w: W,
    t: u64,
)
    requires
        !m.contains_key(id),
    ensures
        ({
            let filed = m.insert(id, (w, t));
            let after = filed.remove(id);
            &&& filed.contains_key(id)
            &&& filed[id] == (w, t)
            &&& !after.contains_key(id)
            &&& after == m
        }),
{
    assert(m.insert(id, (w, t)).remove(id) =~= m);
}

/// The race law.  When a completion and a timeout contend for the same
/// outstanding id, the table serializes them: whichever removal runs first
/// observes the waiter, and the one that runs second finds no entry and
/// changes nothing.  Exactly one of the two determines the waiter's
/// outcome, and no entry for the id remains.
pub proof fn lemma_removal_race<W>(m: Map<Seq<char>, (W, u64)>, id: Seq<char>)
    requires
        m.contains_key(id),
    ensures
        ({
            let after_first = m.remove(id);
            &&& !after_first.contains_key(id)
            &&& after_first.remove(id) == after_first
        }),
{
    assert(m.remove(id).remove(id) =~= m.remove(id));
}

} // verus!
