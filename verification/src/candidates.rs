//! Buffer for network-path candidates that arrive before the session
//! description that makes them meaningful has been applied.

use vstd::prelude::*;

verus! {

/// A buffered candidate together with the negotiation round it arrived under.
#[derive(Clone, Debug, PartialEq, Eq)]
pub struct PendingCandidate<C> {
    pub sid: u64,
    pub candidate: C,
}

/// The candidates of `entries` tagged with `sid`, in arrival order.
pub open spec fn due<C>(entries: Seq<PendingCandidate<C>>, sid: u64) -> Seq<C>
    decreases entries.len(),
{
    if entries.len() == 0 {
        Seq::empty()
    } else if entries.last().sid == sid {
        due(entries.drop_last(), sid).push(entries.last().candidate)
    } else {
        due(entries.drop_last(), sid)
    }
}

/// The entries of `entries` tagged with another round than `sid`, in arrival order.
pub open spec fn kept<C>(entries: Seq<PendingCandidate<C>>, sid: u64) -> Seq<PendingCandidate<C>>
    decreases entries.len(),
{
    if entries.len() == 0 {
        Seq::empty()
    } else if entries.last().sid == sid {
        kept(entries.drop_last(), sid)
    } else {
        kept(entries.drop_last(), sid).push(entries.last())
    }
}

/// The candidates `candidates`, each tagged with `sid`.
pub open spec fn tagged<C>(sid: u64, candidates: Seq<C>) -> Seq<PendingCandidate<C>> {
    Seq::new(candidates.len(), |i: int| PendingCandidate { sid, candidate: candidates[i] })
}

/// A flush hands out each entry or keeps it, never both: after a flush for
/// `sid` nothing is due for `sid`, and a second flush changes nothing.
pub proof fn lemma_flush_leaves_none_due<C>(entries: Seq<PendingCandidate<C>>, sid: u64)
    ensures
        due(kept(entries, sid), sid) == Seq::<C>::empty(),
        kept(kept(entries, sid), sid) == kept(entries, sid),
        due(entries, sid).len() + kept(entries, sid).len() == entries.len(),
    decreases entries.len(),
{
    if entries.len() > 0 {
        lemma_flush_leaves_none_due(entries.drop_last(), sid);
        if entries.last().sid != sid {
            let shorter = kept(entries.drop_last(), sid);
            assert(kept(entries, sid).drop_last() == shorter);
        }
    }
}

/// Candidates that are buffered under `sid` behind `entries` come out of a
/// flush for `sid` behind those of `entries`, in the order they were
/// buffered in, and leave what is kept as it was.
pub proof fn lemma_flush_of_buffered<C>(
    entries: Seq<PendingCandidate<C>>,
    sid: u64,
    candidates: Seq<C>,
)
    ensures
        due(entries + tagged(sid, candidates), sid) == due(entries, sid) + candidates,
        kept(entries + tagged(sid, candidates), sid) == kept(entries, sid),
    decreases candidates.len(),
{
    let all = entries + tagged(sid, candidates);
    if candidates.len() == 0 {
        assert(all =~= entries);
        assert(due(entries, sid) + candidates =~= due(entries, sid));
    } else {
        let shorter = candidates.drop_last();
        lemma_flush_of_buffered(entries, sid, shorter);
        assert(all.drop_last() =~= entries + tagged(sid, shorter));
        assert(all.last() == PendingCandidate { sid, candidate: candidates.last() });
        assert((due(entries, sid) + shorter).push(candidates.last()) =~= due(entries, sid)
            + candidates);
    }
}

/// First-in first-out buffer of candidates awaiting a remote description.
///
/// The buffer has no bound and evicts nothing: an entry leaves only with
/// the flush for its own round, so entries of rounds that are never flushed
/// stay for the life of the session. The sessions keep it small by what
/// they put in: once a round is active, only candidates of that round are
/// buffered, so entries of other rounds date from before the first round.
pub struct CandidateQueue<C> {
    entries: Vec<PendingCandidate<C>>,
}

impl<C> View for CandidateQueue<C> {
    type V = Seq<PendingCandidate<C>>;

    closed spec fn view(&self) -> Seq<PendingCandidate<C>> {
        self.entries@
    }
}

impl<C> CandidateQueue<C> {
    /// An empty queue.
    pub fn new() -> (queue: Self)
        ensures
            queue@ == Seq::<PendingCandidate<C>>::empty(),
    {
        CandidateQueue { entries: Vec::new() }
    }

    /// Number of buffered entries.
    pub fn len(&self) -> (n: usize)
        ensures
            n == self@.len(),
    {
        self.entries.len()
    }

    /// Appends `candidate`, tagged with `sid`, behind everything already buffered.
    pub fn push(&mut self, sid: u64, candidate: C)
        ensures
            final(self)@ == old(self)@.push(PendingCandidate { sid, candidate }),
    {
        self.entries.push(PendingCandidate { sid, candidate });
    }

    /// Takes out every candidate tagged with `sid`, in arrival order, and keeps
    /// the others, in arrival order, for a later round.
    pub fn flush(&mut self, sid: u64) -> (applied: Vec<C>)
        ensures
            applied@ == due(old(self)@, sid),
            final(self)@ == kept(old(self)@, sid),
    {
        let mut pending: Vec<PendingCandidate<C>> = Vec::new();
        core::mem::swap(&mut self.entries, &mut pending);
        let ghost all = pending@;
        let mut applied: Vec<C> = Vec::new();
        let mut remaining: Vec<PendingCandidate<C>> = Vec::new();
        for item in it: pending
            invariant
                it.seq() == all,
                applied@ == due(all.take(it.index() as int), sid),
                remaining@ == kept(all.take(it.index() as int), sid),
        {
            proof {
                let n = it.index() as int;
                assert(all.take(n + 1).drop_last() == all.take(n));
                assert(all.take(n + 1).last() == item);
            }
            if item.sid == sid {
                applied.push(item.candidate);
            } else {
                remaining.push(item);
            }
        }
        proof {
            assert(all.take(all.len() as int) == all);
        }
        self.entries = remaining;
        applied
    }
}

} // verus!
