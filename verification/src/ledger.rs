//! The message ledger: an in-memory, ordered record of every inbound client
//! payload (text bodies and the `"ping"` / `"pong"` tags), append-only except
//! for an explicit reset to empty.

use vstd::prelude::*;

verus! {

/// Ordered record of inbound payloads. Its abstract value is the sequence of
/// recorded strings, in insertion order; insertion order is the only ordering
/// guarantee offered.
pub struct Ledger {
    entries: Vec<String>,
}

impl View for Ledger {
    type V = Seq<Seq<char>>;

    closed spec fn view(&self) -> Seq<Seq<char>> {
        self.entries.deep_view()
    }
}

impl Ledger {
    /// A fresh ledger records nothing.
    pub fn new() -> (l: Ledger)
        ensures
            l@ == Seq::<Seq<char>>::empty(),
    {
        let l = Ledger { entries: Vec::new() };
        proof {
            assert(l@ =~= Seq::<Seq<char>>::empty());
        }
        l
    }

    /// Record one payload at the end; everything already recorded stays where
    /// it is.
    pub fn append(&mut self, s: String)
        ensures
            final(self)@ == old(self)@.push(s@),
    {
        self.entries.push(s);
        proof {
            assert(self@ =~= old(self)@.push(s@));
        }
    }

    /// A copy of everything recorded so far, in ledger order; safe to hand
    /// out while writers continue on the original.
    pub fn snapshot(&self) -> (out: Vec<String>)
        ensures
            out.deep_view() == self@,
    {
        let mut out: Vec<String> = Vec::new();
        let mut i: usize = 0;
        while i < self.entries.len()
            invariant
                i <= self.entries.len(),
                out.deep_view() =~= self@.subrange(0, i as int),
            decreases self.entries.len() - i,
        {
            let s = self.entries[i].clone();
            let ghost pre = out.deep_view();
            out.push(s);
            proof {
                assert(out.deep_view().len() == pre.len() + 1);
                assert(forall|j: int| 0 <= j < pre.len() ==> out.deep_view()[j] == pre[j]);
                assert(out.deep_view()[pre.len() as int] == self@[i as int]);
                assert(out.deep_view() =~= self@.subrange(0, i + 1 as int));
            }
            i = i + 1;
        }
        proof {
            assert(self@.subrange(0, self@.len() as int) =~= self@);
        }
        out
    }

    /// Drop everything recorded: afterwards the ledger is exactly empty.
    pub fn reset(&mut self)
        ensures
            final(self)@ == ledger_after_reset(old(self)@),
    {
        self.entries.clear();
        proof {
            assert(self@ =~= Seq::<Seq<char>>::empty());
        }
    }
}

/// The ledger value after recording `msgs` in order on top of `l`.
pub open spec fn ledger_after_appends(l: Seq<Seq<char>>, msgs: Seq<Seq<char>>) -> Seq<Seq<char>> {
    l + msgs
}

/// The ledger value after a reset, whatever it held before.
pub open spec fn ledger_after_reset(l: Seq<Seq<char>>) -> Seq<Seq<char>> {
    Seq::<Seq<char>>::empty()
}

/// Appending is cumulative: one more `append` on top of a run of appends is
/// the run extended by that entry, so any sequence of appends lands as
/// `ledger_after_appends` says.
pub proof fn lemma_appends_compose(l: Seq<Seq<char>>, msgs: Seq<Seq<char>>, s: Seq<char>)
    ensures
        ledger_after_appends(l, msgs).push(s) == ledger_after_appends(l, msgs.push(s)),
{
    assert(ledger_after_appends(l, msgs).push(s) =~= ledger_after_appends(l, msgs.push(s)));
}

/// Idempotent reset: after any sequence of appends on any starting value, a
/// reset leaves the ledger -- and hence the snapshot taken right after --
/// empty, and a second reset changes nothing.
pub proof fn lemma_reset_idempotent(l0: Seq<Seq<char>>, msgs: Seq<Seq<char>>)
    ensures
        ledger_after_reset(ledger_after_appends(l0, msgs)) == Seq::<Seq<char>>::empty(),
        ledger_after_reset(ledger_after_reset(ledger_after_appends(l0, msgs)))
            == ledger_after_reset(ledger_after_appends(l0, msgs)),
{
}

/// An append never disturbs what is already recorded: every existing entry
/// keeps its index, and the new entry lands after all of them. So entries
/// recorded in order keep their relative order even when appends from other
/// sessions land in between.
pub proof fn lemma_append_preserves_existing(l: Seq<Seq<char>>, s: Seq<char>, p: int)
    requires
        0 <= p < l.len(),
    ensures
        l.push(s).len() == l.len() + 1,
        l.push(s)[p] == l[p],
        l.push(s)[l.len() as int] == s,
        p < l.len() as int,
{
}

/// Order preservation: a run of entries recorded in order by one session
/// appears in the ledger in that relative order -- the `i`-th lands at a
/// strictly smaller index than the `j`-th for `i < j` -- whatever the ledger
/// held before them.
pub proof fn lemma_order_preserved(l0: Seq<Seq<char>>, msgs: Seq<Seq<char>>, i: int, j: int)
    requires
        0 <= i < j < msgs.len(),
    ensures
        ledger_after_appends(l0, msgs)[l0.len() + i] == msgs[i],
        ledger_after_appends(l0, msgs)[l0.len() + j] == msgs[j],
        l0.len() + i < l0.len() + j,
{
}

} // verus!
