//! The answering side's negotiation state: a single session that adopts the
//! round of each incoming offer. Candidates that arrive before the first
//! offer are held back until the offer of their round; once a round is
//! active, a candidate tagged with another round is stale and changes
//! nothing.

use vstd::prelude::*;
use crate::candidates::{
    due, kept, lemma_flush_leaves_none_due, lemma_flush_of_buffered, tagged, CandidateQueue,
    PendingCandidate,
};

verus! {

/// Mathematical model of the answering session.
pub struct ReceiverView<C> {
    /// The peer whose offer was taken last.
    pub peer_id: Option<String>,
    /// The round of that offer.
    pub active_sid: Option<u64>,
    /// Candidates waiting for a remote description, oldest first.
    pub pending: Seq<PendingCandidate<C>>,
    /// Whether the remote description of the active round has been applied.
    pub remote_desc_set: bool,
}

impl<C> ReceiverView<C> {
    /// What every reachable session satisfies: peer and round are known
    /// together, and a remote description belongs to an active round.
    pub open spec fn wf(self) -> bool {
        &&& self.remote_desc_set ==> self.active_sid is Some
        &&& self.active_sid is Some <==> self.peer_id is Some
    }

    /// A session that has not seen an offer yet.
    pub open spec fn fresh() -> Self {
        ReceiverView {
            peer_id: None,
            active_sid: None,
            pending: Seq::empty(),
            remote_desc_set: false,
        }
    }

    /// The session after taking the offer of `from` for round `sid`.
    pub open spec fn offered(self, from: String, sid: u64) -> Self {
        ReceiverView {
            peer_id: Some(from),
            active_sid: Some(sid),
            pending: kept(self.pending, sid),
            remote_desc_set: true,
        }
    }

    /// Whether a candidate of round `sid` can be applied on arrival.
    pub open spec fn applies_now(self, sid: u64) -> bool {
        self.remote_desc_set && self.active_sid == Some(sid)
    }

    /// Whether a candidate of round `sid` is stale: another round is active.
    pub open spec fn is_stale(self, sid: u64) -> bool {
        self.active_sid matches Some(active) && active != sid
    }

    /// The session after the arrival of a candidate of round `sid`. A stale
    /// one is dropped and one that can be applied at once is handed on:
    /// neither changes the session. Any other is buffered: there is no
    /// active round yet, or the description of its round is outstanding.
    pub open spec fn after_candidate(self, sid: u64, candidate: C) -> Self {
        if self.applies_now(sid) || self.is_stale(sid) {
            self
        } else {
            ReceiverView { pending: self.pending.push(PendingCandidate { sid, candidate }), ..self }
        }
    }

    /// The session after the arrival of `candidates`, all of round `sid`,
    /// one after the other.
    pub open spec fn after_candidates(self, sid: u64, candidates: Seq<C>) -> Self
        decreases candidates.len(),
    {
        if candidates.len() == 0 {
            self
        } else {
            self.after_candidates(sid, candidates.drop_last()).after_candidate(
                sid,
                candidates.last(),
            )
        }
    }

    /// Where a locally gathered candidate is to be sent: the peer and the
    /// round, once both are known.
    pub open spec fn local_candidate_target(self) -> Option<(String, u64)> {
        match (self.peer_id, self.active_sid) {
            (Some(peer_id), Some(sid)) => Some((peer_id, sid)),
            _ => None,
        }
    }
}

/// A candidate tagged with another round than the active one changes
/// nothing, and is not applied.
pub proof fn lemma_stale_candidate_changes_nothing<C>(
    session: ReceiverView<C>,
    sid: u64,
    candidate: C,
)
    requires
        session.active_sid matches Some(active) && active != sid,
    ensures
        !session.applies_now(sid),
        session.after_candidate(sid, candidate) == session,
{
}

/// Candidates that arrive before the description of their round is
/// applied, and while no other round is active, are all buffered; the offer hands them out behind those that waited before
/// them, in arrival order; after it none of them is due again, and a later
/// candidate of the round is applied on arrival.
pub proof fn lemma_buffered_candidates_applied_once<C>(
    session: ReceiverView<C>,
    from: String,
    sid: u64,
    candidates: Seq<C>,
)
    requires
        !session.applies_now(sid),
        !session.is_stale(sid),
    ensures
        ({
            let buffered = session.after_candidates(sid, candidates);
            &&& buffered == (ReceiverView {
                pending: session.pending + tagged(sid, candidates),
                ..session
            })
            &&& due(buffered.pending, sid) == due(session.pending, sid) + candidates
            &&& due(buffered.offered(from, sid).pending, sid) == Seq::<C>::empty()
            &&& buffered.offered(from, sid).applies_now(sid)
        }),
    decreases candidates.len(),
{
    if candidates.len() == 0 {
        assert(session.pending + tagged(sid, candidates) =~= session.pending);
    } else {
        let shorter = candidates.drop_last();
        lemma_buffered_candidates_applied_once(session, from, sid, shorter);
        assert((session.pending + tagged(sid, shorter)).push(
            PendingCandidate { sid, candidate: candidates.last() },
        ) =~= session.pending + tagged(sid, candidates));
    }
    lemma_flush_of_buffered(session.pending, sid, candidates);
    lemma_flush_leaves_none_due(session.pending + tagged(sid, candidates), sid);
}

/// The answering session.
pub struct ReceiverState<C> {
    peer_id: Option<String>,
    active_sid: Option<u64>,
    pending_candidates: CandidateQueue<C>,
    remote_desc_set: bool,
}

impl<C> View for ReceiverState<C> {
    type V = ReceiverView<C>;

    closed spec fn view(&self) -> ReceiverView<C> {
        ReceiverView {
            peer_id: self.peer_id,
            active_sid: self.active_sid,
            pending: self.pending_candidates@,
            remote_desc_set: self.remote_desc_set,
        }
    }
}

impl<C> ReceiverState<C> {
    /// A session that waits for its first offer.
    pub fn new() -> (state: Self)
        ensures
            state@ == ReceiverView::<C>::fresh(),
            state@.wf(),
    {
        ReceiverState {
            peer_id: None,
            active_sid: None,
            pending_candidates: CandidateQueue::new(),
            remote_desc_set: false,
        }
    }

    /// The peer whose offer was taken last.
    pub fn peer_id(&self) -> (peer_id: &Option<String>)
        ensures
            *peer_id == self@.peer_id,
    {
        &self.peer_id
    }

    /// The active round, if any.
    pub fn active_sid(&self) -> (sid: Option<u64>)
        ensures
            sid == self@.active_sid,
    {
        self.active_sid
    }

    /// Whether the remote description of the active round has been applied.
    pub fn remote_desc_set(&self) -> (set: bool)
        ensures
            set == self@.remote_desc_set,
    {
        self.remote_desc_set
    }

    /// Number of candidates held back.
    pub fn pending_len(&self) -> (n: usize)
        ensures
            n == self@.pending.len(),
    {
        self.pending_candidates.len()
    }

    /// Takes the offer of `from` for round `sid`: the sender becomes the
    /// peer, the round becomes active, and its remote description counts as
    /// applied. Returns the candidates that waited for this round, in
    /// arrival order, to be applied right after the description; the others
    /// stay buffered.
    pub fn handle_offer(&mut self, from: String, sid: u64) -> (applied: Vec<C>)
        ensures
            final(self)@ == old(self)@.offered(from, sid),
            applied@ == due(old(self)@.pending, sid),
            final(self)@.wf(),
    {
        self.peer_id = Some(from);
        self.active_sid = Some(sid);
        self.remote_desc_set = true;
        self.pending_candidates.flush(sid)
    }

    /// Takes in a remote candidate tagged `sid`. One tagged with another
    /// round than the active one is stale: it is dropped and nothing
    /// changes. One of the active round is handed back for immediate
    /// application when the remote description of that round is applied,
    /// and is buffered behind the others while it is outstanding. Before
    /// the first offer every candidate is buffered.
    pub fn handle_receiver_candidate(&mut self, sid: u64, candidate: C) -> (now: Option<C>)
        ensures
            final(self)@ == old(self)@.after_candidate(sid, candidate),
            now == if old(self)@.applies_now(sid) {
                Some(candidate)
            } else {
                None
            },
            old(self)@.active_sid matches Some(active) && active != sid ==> final(self)@ == old(
                self,
            )@ && now is None,
            old(self)@.wf() ==> final(self)@.wf(),
    {
        match self.active_sid {
            Some(active) => {
                if active != sid {
                    None
                } else if self.remote_desc_set {
                    Some(candidate)
                } else {
                    self.pending_candidates.push(sid, candidate);
                    None
                }
            },
            None => {
                self.pending_candidates.push(sid, candidate);
                None
            },
        }
    }

    /// Hands out the buffered candidates of the active round, in arrival
    /// order, and keeps the others. Without an active round nothing happens.
    pub fn flush_receiver_candidates(&mut self) -> (applied: Vec<C>)
        ensures
            match old(self)@.active_sid {
                Some(sid) => applied@ == due(old(self)@.pending, sid) && final(self)@ == (
                ReceiverView { pending: kept(old(self)@.pending, sid), ..old(self)@ }),
                None => applied@ == Seq::<C>::empty() && final(self)@ == old(self)@,
            },
            old(self)@.wf() ==> final(self)@.wf(),
    {
        match self.active_sid {
            Some(sid) => self.pending_candidates.flush(sid),
            None => Vec::new(),
        }
    }

    /// Where a locally gathered candidate is to be sent, or `None` when
    /// there is no candidate or no offer was taken yet.
    pub fn local_candidate_target(&self, candidate: &Option<C>) -> (target: Option<(String, u64)>)
        ensures
            target == if candidate is Some {
                self@.local_candidate_target()
            } else {
                None
            },
    {
        match candidate {
            Some(_) => match (&self.peer_id, self.active_sid) {
                (Some(peer_id), Some(sid)) => Some((peer_id.clone(), sid)),
                _ => None,
            },
            None => None,
        }
    }
}

} // verus!
